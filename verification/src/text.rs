//! Lists of strings as character sequences, and how they are joined.
use vstd::prelude::*;

verus! {

/// The character sequences of a list of strings.
pub open spec fn views(items: Seq<String>) -> Seq<Seq<char>> {
    Seq::new(items.len(), |i: int| items[i]@)
}

/// The items one after the other, with `separator` between two neighbours.
pub open spec fn joined(items: Seq<Seq<char>>, separator: Seq<char>) -> Seq<char>
    decreases items.len(),
{
    if items.len() == 0 {
        seq![]
    } else if items.len() == 1 {
        items.last()
    } else {
        joined(items.drop_last(), separator) + separator + items.last()
    }
}

/// The items one after the other, each from a new line on.
pub open spec fn lines(items: Seq<Seq<char>>) -> Seq<char> {
    joined(items, "\n"@)
}

/// Whether `part` stands somewhere in `whole`, unbroken.
pub open spec fn occurs_in(part: Seq<char>, whole: Seq<char>) -> bool {
    exists|before: Seq<char>, after: Seq<char>| whole == #[trigger] (before + part + after)
}

/// Joins the strings of a list, with `separator` between two neighbours.
pub fn join(items: &[String], separator: &str) -> (r: String)
    ensures
        r@ == joined(views(items@), separator@),
{
    let mut out = String::new();
    for i in 0..items.len()
        invariant
            out@ == joined(views(items@.take(i as int)), separator@),
    {
        proof {
            let longer = views(items@.take(i + 1));
            assert(longer.drop_last() == views(items@.take(i as int)));
            assert(longer.last() == items@[i as int]@);
        }
        if i > 0 {
            out.append(separator);
        }
        out.append(items[i].as_str());
    }
    assert(items@.take(items@.len() as int) == items@);
    out
}

/// A text occurs in itself.
pub proof fn lemma_occurs_in_self(part: Seq<char>)
    ensures
        occurs_in(part, part),
{
    assert(part == seq![] + part + seq![]);
}

/// What occurs in a text occurs in it when more follows.
pub broadcast proof fn lemma_occurs_in_front(part: Seq<char>, front: Seq<char>, back: Seq<char>)
    requires
        occurs_in(part, front),
    ensures
        #[trigger] occurs_in(part, front + back),
{
    let (before, after) = choose|before: Seq<char>, after: Seq<char>|
        front == #[trigger] (before + part + after);
    assert(front + back == before + part + (after + back));
}

/// What occurs in a text occurs in it when more comes before.
pub broadcast proof fn lemma_occurs_in_back(part: Seq<char>, front: Seq<char>, back: Seq<char>)
    requires
        occurs_in(part, back),
    ensures
        #[trigger] occurs_in(part, front + back),
{
    let (before, after) = choose|before: Seq<char>, after: Seq<char>|
        back == #[trigger] (before + part + after);
    assert(front + back == (front + before) + part + after);
}

/// Every item occurs in the items joined.
pub proof fn lemma_item_occurs_in_joined(items: Seq<Seq<char>>, separator: Seq<char>, i: int)
    requires
        0 <= i < items.len(),
    ensures
        occurs_in(items[i], joined(items, separator)),
    decreases items.len(),
{
    broadcast use {lemma_occurs_in_front, lemma_occurs_in_back};

    lemma_occurs_in_self(items[i]);
    if i < items.len() - 1 {
        lemma_item_occurs_in_joined(items.drop_last(), separator, i);
        let front = joined(items.drop_last(), separator);
        assert(occurs_in(items[i], front + separator));
    }
}

/// Joining puts the separator between neighbours only: nothing around a lone
/// item, and once between two joined lists.
pub proof fn law_joining(
    front: Seq<Seq<char>>,
    back: Seq<Seq<char>>,
    item: Seq<char>,
    separator: Seq<char>,
)
    requires
        front.len() > 0,
        back.len() > 0,
    ensures
        joined(Seq::empty(), separator) == Seq::<char>::empty(),
        joined(seq![item], separator) == item,
        joined(front + back, separator) == joined(front, separator) + separator + joined(
            back,
            separator,
        ),
        lines(front) == joined(front, "\n"@),
    decreases back.len(),
{
    let whole = front + back;
    if back.len() == 1 {
        assert(whole.drop_last() == front);
    } else {
        law_joining(front, back.drop_last(), item, separator);
        assert(whole.drop_last() == front + back.drop_last());
        assert(joined(whole, separator) == joined(front, separator) + separator + joined(
            back.drop_last(),
            separator,
        ) + separator + back.last());
    }
}

/// The character sequences of a list of strings are those of the strings, in
/// order.
pub proof fn law_views(items: Seq<String>)
    ensures
        views(items) == items.map_values(|s: String| s@),
{
}

/// A text occurs in another exactly if the other is that text with something
/// before it and something after it.
pub proof fn law_occurring(part: Seq<char>, whole: Seq<char>, before: Seq<char>, after: Seq<char>)
    ensures
        whole == before + part + after ==> occurs_in(part, whole),
        occurs_in(part, whole) ==> exists|i: int|
            0 <= i <= whole.len() - part.len() && #[trigger] whole.subrange(i, i + part.len())
                == part,
{
    if occurs_in(part, whole) {
        let (front, back) = choose|front: Seq<char>, back: Seq<char>|
            whole == #[trigger] (front + part + back);
        let i = front.len() as int;
        assert(whole.subrange(i, i + part.len()) == part);
    }
}

} // verus!
