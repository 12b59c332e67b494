//! Types and rules for bridging native (C++-family) declarations to a host
//! language across a foreign-function boundary.
//!
//! - [`cpp_operators`]: the operators of the native language, how each is
//!   called, and the names under which their functions are generated.
//! - [`cpp_type`]: native types and their captions.
//! - [`cpp_ffi_type`]: the reshaping of a native type for the boundary.
//! - [`rust_name`], [`rust_type`]: qualified names and types of the host
//!   language.
//! - [`complete_type`]: the record that ties the four representations of one
//!   declaration's type together.
//! - [`rust_ffi_function`]: signatures of foreign functions.
//! - [`registry`]: the outcomes of converting a batch of declarations.
//! - [`errors`]: the ways in which a translation can fail.
//! - [`text`], [`utils`]: texts as identifiers, and small tools.
//!
//! Every function states what it returns as a contract over the mathematical
//! value of its arguments, their view, and is verified against it. One
//! contract is believed and not proved: that of the standard library's
//! `String::from_utf8`, in [`utils`].
pub mod complete_type;
pub mod cpp_ffi_type;
pub mod cpp_operators;
pub mod cpp_type;
pub mod errors;
pub mod registry;
pub mod rust_ffi_function;
pub mod rust_name;
pub mod rust_type;
pub mod text;
pub mod utils;
