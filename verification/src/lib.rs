//! Syntactic and early-semantic front end for a small expression-and-statement
//! language: it turns a flat token stream into a typed abstract syntax tree,
//! enforcing scoping and operand-type compatibility as it goes.
//!
//! Every grammar production follows one protocol: construct an empty node with
//! `new`, then `parse` it from the shared [`metadata::ParserMetadata`] bundle
//! (token cursor, scope stack), returning `Ok` or a structured
//! [`diagnostic::ErrorDetails`] that the caller propagates. A single top-level
//! driver decides how failures are reported; no production terminates the
//! process itself.

pub mod token;
pub mod scope;
pub mod types;
pub mod diagnostic;
pub mod metadata;
pub mod literal;
pub mod binop;
pub mod expr;
pub mod statement;
pub mod block;
