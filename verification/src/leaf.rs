//! The syntax-tree substrate: interned tree fragments, the untyped tree value,
//! the slots that cursors stand for, typed access, and the per-node caches.

pub mod access;
pub mod cursor;
pub mod green;
pub mod interner;
pub mod lexeme;
pub mod names;
pub mod node;
pub mod tree;
pub mod value;
pub mod walk;
