# cxx_qt_gen

Turns the description of a Qt object written in Rust (`QObject`, with its
properties and invokables) into the text of a C++ class: a header and a source
file.

- `src/` is the verified library.
  - `qobject`: the description of an object, and what it says as mathematical
    values.
  - `cpp_type`: which Rust types have a C++ type, and the error for the others.
  - `parameter`, `invokable`, `property`: the members of a class.
  - `naming`: the names of the methods of a property.
  - `object`: the whole class, `generate_qobject_cpp`.
  - `format`: the style that clang-format is asked for, `generate_format`.
  - `laws`: what holds of the C++ side as a whole.
- `app/` takes the identifiers that a macro has parsed, runs clang-format on the
  two files and turns an error into a compile error.
- `tests/` holds the tests.
