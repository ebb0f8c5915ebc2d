//! Via: a small declarative resource-definition language, compiled to
//! backend model code, request handlers and client type definitions.
//!
//! The library is the verified core of the compiler: the lexer and
//! parser that turn `.via` text into the AST, and the deterministic code
//! generator that turns the AST into generated-file artifacts.  `laws`
//! states and proves the properties the pipeline is designed around.
//! File discovery, persistence and the IR snapshot writer sit outside
//! the library, in the command-line front end.

pub mod ast;
pub mod strutil;
pub mod lexer;
pub mod parser;
pub mod codegen;
pub mod laws;
