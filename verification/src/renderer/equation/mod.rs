//! Equation scripts: lexical form, syntax tree and parser.

pub mod ast;
pub mod command_laws;
pub mod commands;
pub mod division_laws;
pub mod grammar;
pub mod grid_laws;
pub mod parser;
pub mod script_laws;
pub mod symbol_laws;
pub mod symbols;
pub mod token_laws;
pub mod tokenizer;
pub mod word_laws;
