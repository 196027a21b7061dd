//! Intermediate representation of a WebAssembly module and the pass that
//! derives the value types its instructions leave on the evaluation stack.

pub mod context;
pub mod lazy_consts;
pub mod text;
pub mod type_checker;
pub mod utils;
pub mod wasm;
