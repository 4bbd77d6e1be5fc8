//! The intermediate representation that typed syntax is lowered to.

pub mod db;
pub mod expr;
pub mod ids;
pub mod literal;
pub mod stmt;
pub mod top_level;
pub mod value;
