//! The typed syntax of the language.

pub mod body;
pub mod branch;
pub mod census;
pub mod decl;
pub mod expr;
pub mod file;
pub mod literal;
pub mod pat;
pub mod read;
pub mod stmt;
