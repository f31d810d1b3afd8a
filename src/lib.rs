//! An evaluator for a small language with explicit, C-like manual memory:
//! immutable and mutable bindings in nested scopes, heap cells obtained with
//! `new` and released with `free`, address-of and dereference.
//!
//! Every evaluation step is stated against a mathematical model of the
//! memory (`semantics`), and the executable evaluator is proved to follow it.

pub mod identifier;
pub mod value;
pub mod ast;
pub mod pointer;
pub mod memory;
pub mod error;
pub mod memorycell;
pub mod heap;
pub mod namespace;
pub mod namespacestack;
pub mod semantics;
pub mod eval;
pub mod laws;
