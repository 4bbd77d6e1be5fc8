//! Front end substrate of the Asena language: source locations, tokens and the
//! lexer, interned syntax trees with their typed cursor overlay, and the
//! lowering of typed syntax to the intermediate representation.

pub mod ast;
pub mod derive;
pub mod hir;
pub mod hir_leaf;
pub mod leaf;
pub mod lexer;
pub mod lowering;
pub mod span;
pub mod text;
pub mod token;
