//! Scanner, parser and evaluator for single Lox expressions.
//!
//! `scanner` turns UTF-8 source into tokens, `parser` builds one expression
//! tree from them by recursive descent, and `interpreter` evaluates the tree.
//! Each stage is specified by spec functions (`scanner::scan`,
//! `parser::expression`, `interpreter::check`) that its code is proved to
//! follow. Numbers are carried as IEEE-754 binary64 bit patterns:
//! comparison, equality, negation and truthiness are decided here on the
//! bits, while decimal conversion and the four arithmetic operations come
//! from the caller through `interpreter::Arithmetic`.
pub mod decimal;
pub mod token;
pub mod scanner;
pub mod expr;
pub mod parser;
pub mod interpreter;
pub mod lox;
