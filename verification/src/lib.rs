//! A bridge that lets native objects be called as modules from an embedded
//! dynamic-language interpreter.
//!
//! A native type declares its members in an `impl` block. From the
//! declaration, [`cow_module`] derives the entries of the type's dispatch
//! table ([`table`]). At run time the interpreter resolves a member of a
//! native object by name ([`bridge::resolve`]) and calls the thunk that it
//! gets for a method ([`bridge::Thunk::invoke`]), which binds the dynamic
//! arguments to the method's parameters ([`binding`], [`convert`]), runs the
//! native code and converts what it hands back.

pub mod binding;
pub mod bridge;
pub mod convert;
pub mod declaration;
pub mod error;
pub mod laws;
pub mod literal;
pub mod scalar;
pub mod signature;
pub mod table;
pub mod value;

pub use declaration::cow_module;
