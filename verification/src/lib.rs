//! Name-resolution and declarative-region core for a hardware description
//! language, together with the small front end that feeds it: a lexer and
//! parser for the language subset the analysis covers, declarative regions
//! with duplicate/deferred/incomplete checks, a name resolver that annotates
//! every name occurrence with the position of its declaration, and an index
//! answering go-to-definition and find-all-references queries.

pub mod analyze;
pub mod ast;
pub mod decl;
pub mod designator;
pub mod diag;
pub mod laws;
pub mod lexer;
pub mod parser;
pub mod reference;
pub mod region;

pub use diag::Pos;
