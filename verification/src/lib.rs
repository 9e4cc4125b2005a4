//! The front end of the Mabel language: a lexer, a Pratt parser and a
//! semantic checker that share one model of positions, tokens and
//! diagnostics.
//!
//! Source text becomes tokens ([`lexer`]), tokens become a syntax tree
//! ([`parser`]), and the syntax tree becomes a tree with types
//! ([`semantic_checker`]); [`compiler`] runs the stages in a row. Every
//! stage is a total function from its input to either the next artifact
//! or one diagnostic, and what it returns is stated over a mathematical
//! model of its input: the modules `model` say what lexing, parsing and
//! checking mean, and the modules `laws` prove what follows from that.
//!
//! The front end never prints and never looks a text up. Diagnostics
//! carry their texts as [`message::Message`]s, which name entries of the
//! message catalogue; the host renders them.

pub mod annotated_ast;
pub mod ast;
pub mod common;
pub mod compiler;
pub mod config;
pub mod data_type;
pub mod diagnostic;
pub mod error;
pub mod lexer;
pub mod locale;
pub mod message;
pub mod parser;
pub mod semantic_checker;
pub mod span;
pub mod text;
pub mod token;
pub mod unicode;
