//! A front end for a small dynamically typed expression language: a scanner,
//! a recursive-descent parser and a tree-walking evaluator, each with a
//! machine-checked contract.
//!
//! Numbers are IEEE-754 binary64 values carried as their bit patterns. The
//! operations on them that round (reading a literal, the four arithmetic
//! operations, printing) are supplied by the caller as functions; everything
//! else is decided here.

pub mod ast_printer;
pub mod error;
pub mod expr;
pub mod grammar;
pub mod interpreter;
pub mod lexer;
pub mod lexical;
pub mod number;
pub mod parser;
pub mod pipeline;
pub mod text;
pub mod token;
