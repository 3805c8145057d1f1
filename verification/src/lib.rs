//! Core of a bytecode pipeline for a small expression-oriented scripting
//! language: a span-tracked parser for struct declarations, an expression
//! compiler that threads a "does the caller need a value" directive through
//! every nested compilation, and an assembly buffer that records symbolic
//! control flow and link-time function requirements.

pub mod assembly;
pub mod ast;
pub mod compiler;
pub mod decl_struct;
pub mod inst;
pub mod parser;
pub mod span;
pub mod token;
