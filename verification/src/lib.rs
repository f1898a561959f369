//! A recursive-descent parser for a small expression-oriented language.
//!
//! Source text is parsed into an abstract syntax tree of expressions:
//! literals (booleans, characters, strings, integers and floats with
//! arbitrary bases and exact digit sequences), identifiers, unary and
//! binary operations, let-in bindings and function literals.
//!
//! Every executable parse function is specified against a mathematical
//! mirror: a `spec` function over a `Seq<char>` that defines exactly
//! which input is consumed and which tree is produced. The executable
//! code is proved to return precisely what the mirror says, so parsing
//! is deterministic by contract.

pub mod ast;
pub mod parser;
