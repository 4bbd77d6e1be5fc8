//! Lowering of literals.

use vstd::prelude::*;
use crate::ast::literal::Literal;
use crate::hir::literal::{HirDecimal, HirFSize, HirISize, HirIntSign, HirLiteral, HirString};
use crate::text::{chars_of, parse_number, parse_number_in, run_end, scan, CharClass};
use crate::token::Signed;

verus! {

/// The two numbers of a decimal text: the one spelled before the first point,
/// and the one spelled between the first point and the second, or to the end
/// where there is no second point; zero where there is no point at all. `None`
/// where one of the two is not spelled as an unsigned number that fits in a
/// `usize`.
pub open spec fn decimal_parts(text: Seq<char>) -> Option<HirDecimal> {
    let dot = run_end(text, 0, CharClass::NotDot);
    let integer = parse_number(text.subrange(0, dot));
    let decimal = if dot < text.len() {
        parse_number(text.subrange(dot + 1, run_end(text, dot + 1, CharClass::NotDot)))
    } else {
        Some(0usize)
    };
    match (integer, decimal) {
        (Some(integer), Some(decimal)) => Some(HirDecimal { integer, decimal }),
        _ => None,
    }
}

/// Decides [`decimal_parts`].
pub fn decimal_of(text: &str) -> (parts: Option<HirDecimal>)
    ensures
        parts == decimal_parts(text@),
{
    let chars = chars_of(text);
    let len = chars.len();
    let dot = scan(&chars, 0, CharClass::NotDot);
    let integer = parse_number_in(&chars, 0, dot);
    let decimal = if dot < len {
        let end = scan(&chars, dot + 1, CharClass::NotDot);
        parse_number_in(&chars, dot + 1, end)
    } else {
        Some(0)
    };
    match (integer, decimal) {
        (Some(integer), Some(decimal)) => Some(HirDecimal { integer, decimal }),
        _ => None,
    }
}

/// The signedness of the intermediate representation for that of the syntax.
pub open spec fn sign_of(signed: Signed) -> HirIntSign {
    match signed {
        Signed::Signed => HirIntSign::Signed,
        Signed::Unsigned => HirIntSign::Unsigned,
    }
}

/// Whether `literal` has a lowering: every literal but a natural number, and
/// but a decimal number whose text does not give two numbers.
pub open spec fn literal_lowers(literal: Literal) -> bool {
    match literal {
        Literal::Nat(_) => false,
        Literal::Float32(text) => decimal_parts(text@) is Some,
        Literal::Float64(text) => decimal_parts(text@) is Some,
        _ => true,
    }
}

/// The lowering of `literal`. The truth values are the one-bit unsigned
/// integers one and zero; an integer keeps its value, takes the width of its
/// kind and keeps its signedness; a string keeps its text and is bound to no
/// name; a decimal number of either width becomes the two numbers of its text
/// at the wide width.
pub open spec fn lowered_literal(literal: Literal) -> HirLiteral {
    match literal {
        Literal::Error => HirLiteral::Error,
        Literal::True => HirLiteral::Int(1, HirISize::U1, HirIntSign::Unsigned),
        Literal::False => HirLiteral::Int(0, HirISize::U1, HirIntSign::Unsigned),
        Literal::String(value) => HirLiteral::String(HirString { value, name: None }),
        Literal::Nat(_) => HirLiteral::Error,
        Literal::Int8(value, signed) => HirLiteral::Int(
            value as u128,
            HirISize::U8,
            sign_of(signed),
        ),
        Literal::Int16(value, signed) => HirLiteral::Int(
            value as u128,
            HirISize::U16,
            sign_of(signed),
        ),
        Literal::Int32(value, signed) => HirLiteral::Int(
            value as u128,
            HirISize::U32,
            sign_of(signed),
        ),
        Literal::Int64(value, signed) => HirLiteral::Int(
            value as u128,
            HirISize::U64,
            sign_of(signed),
        ),
        Literal::Int128(value, signed) => HirLiteral::Int(value, HirISize::U128, sign_of(signed)),
        Literal::Float32(text) => match decimal_parts(text@) {
            Some(decimal) => HirLiteral::Decimal(HirFSize::F64, decimal),
            None => HirLiteral::Error,
        },
        Literal::Float64(text) => match decimal_parts(text@) {
            Some(decimal) => HirLiteral::Decimal(HirFSize::F64, decimal),
            None => HirLiteral::Error,
        },
    }
}

/// Decides [`literal_lowers`].
pub fn can_lower(literal: &Literal) -> (lowers: bool)
    ensures
        lowers == literal_lowers(*literal),
{
    match literal {
        Literal::Nat(_) => false,
        Literal::Float32(text) => decimal_of(text.as_str()).is_some(),
        Literal::Float64(text) => decimal_of(text.as_str()).is_some(),
        _ => true,
    }
}

fn make_sign(signed: Signed) -> (sign: HirIntSign)
    ensures
        sign == sign_of(signed),
{
    match signed {
        Signed::Signed => HirIntSign::Signed,
        Signed::Unsigned => HirIntSign::Unsigned,
    }
}

fn make_decimal(text: &String) -> (hir: HirLiteral)
    requires
        decimal_parts(text@) is Some,
    ensures
        hir == HirLiteral::Decimal(HirFSize::F64, decimal_parts(text@)->0),
{
    match decimal_of(text.as_str()) {
        Some(decimal) => HirLiteral::Decimal(HirFSize::F64, decimal),
        None => HirLiteral::Error,
    }
}

/// Lowers a literal.
pub fn make_literal(literal: Literal) -> (hir: HirLiteral)
    requires
        literal_lowers(literal),
    ensures
        hir == lowered_literal(literal),
{
    match literal {
        Literal::Error => HirLiteral::Error,
        Literal::True => HirLiteral::Int(1, HirISize::U1, HirIntSign::Unsigned),
        Literal::False => HirLiteral::Int(0, HirISize::U1, HirIntSign::Unsigned),
        Literal::String(value) => HirLiteral::String(HirString { value, name: None }),
        Literal::Nat(_) => HirLiteral::Error,
        Literal::Int8(value, signed) => HirLiteral::Int(
            value as u128,
            HirISize::U8,
            make_sign(signed),
        ),
        Literal::Int16(value, signed) => HirLiteral::Int(
            value as u128,
            HirISize::U16,
            make_sign(signed),
        ),
        Literal::Int32(value, signed) => HirLiteral::Int(
            value as u128,
            HirISize::U32,
            make_sign(signed),
        ),
        Literal::Int64(value, signed) => HirLiteral::Int(
            value as u128,
            HirISize::U64,
            make_sign(signed),
        ),
        Literal::Int128(value, signed) => HirLiteral::Int(value, HirISize::U128, make_sign(signed)),
        Literal::Float32(text) => make_decimal(&text),
        Literal::Float64(text) => make_decimal(&text),
    }
}

/// A lowering pass over a database of the intermediate representation.
pub struct AstLowering<DB> {
    pub db: DB,
}

impl<DB> AstLowering<DB> {
    /// Lowers a literal; see [`lowered_literal`].
    pub fn make_literal(&self, literal: Literal) -> (hir: HirLiteral)
        requires
            literal_lowers(literal),
        ensures
            hir == lowered_literal(literal),
    {
        make_literal(literal)
    }
}

} // verus!
