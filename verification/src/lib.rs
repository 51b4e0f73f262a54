//! Generation of the C++ side of a Qt object from a description of the Rust
//! side: a `QObject` with its properties and invokables becomes the text of a
//! C++ header and of a C++ source file.
pub mod class_laws;
pub mod cpp_type;
pub mod format;
pub mod invokable;
pub mod laws;
pub mod member_laws;
pub mod naming;
pub mod object;
pub mod parameter;
pub mod property;
pub mod qobject;
pub mod text;
pub mod type_laws;

pub use crate::format::generate_format;
pub use crate::object::{generate_qobject_cpp, CppObject};
