//! A small command interpreter core: a lexer that turns a line of text into
//! tokens, a backtracking recursive-descent parser that builds a command tree
//! from them, and a planner that turns the tree into process launches.

pub mod ast;
pub mod engine;
pub mod interpret;
pub mod lexer;
pub mod parser;
pub mod prompt;
pub mod signals;
pub mod syntax_tree;
pub mod token;
