//! Literals of the intermediate representation.

use vstd::prelude::*;
use crate::hir::ids::NameId;

verus! {

/// The width of an integer literal.
#[derive(Clone, Copy, Debug, PartialEq, Eq, Hash, Structural)]
pub enum HirISize {
    U1,
    U8,
    U16,
    U32,
    U64,
    U128,
}

/// The width of a decimal literal.
#[derive(Clone, Copy, Debug, PartialEq, Eq, Hash, Structural)]
pub enum HirFSize {
    F32,
    F64,
}

/// Whether an integer literal is signed.
#[derive(Clone, Copy, Debug, PartialEq, Eq, Hash, Structural)]
pub enum HirIntSign {
    Signed,
    Unsigned,
}

/// A string literal, with the name it was bound to, if any.
#[derive(Clone, Debug, PartialEq, Eq, Hash)]
pub struct HirString {
    pub value: String,
    pub name: Option<NameId>,
}

/// A decimal literal: the number before the point and the number after it.
#[derive(Clone, Copy, Debug, PartialEq, Eq, Hash, Structural)]
pub struct HirDecimal {
    pub integer: usize,
    pub decimal: usize,
}

/// A literal of the intermediate representation.
#[derive(Clone, Debug, PartialEq, Eq, Hash)]
pub enum HirLiteral {
    Error,
    Int(u128, HirISize, HirIntSign),
    Decimal(HirFSize, HirDecimal),
    String(HirString),
}

} // verus!
