//! Lowering of typed syntax to the intermediate representation.

pub mod db;
pub mod expr;
pub mod literal;
pub mod lowerrer;
pub mod recorder;
