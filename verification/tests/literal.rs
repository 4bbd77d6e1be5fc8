use asena::ast::literal::Literal;
use asena::hir::literal::{HirDecimal, HirFSize, HirISize, HirIntSign, HirLiteral, HirString};
use asena::lowering::literal::{can_lower, decimal_of, make_literal, AstLowering};
use asena::text::{chars_of, parse_number_in};
use asena::token::Signed;

#[test]
fn truth_values_are_one_bit_integers() {
    assert_eq!(
        make_literal(Literal::True),
        HirLiteral::Int(1, HirISize::U1, HirIntSign::Unsigned)
    );
    assert_eq!(
        make_literal(Literal::False),
        HirLiteral::Int(0, HirISize::U1, HirIntSign::Unsigned)
    );
    assert_eq!(make_literal(Literal::Error), HirLiteral::Error);
}

#[test]
fn integers_keep_value_width_and_sign() {
    assert_eq!(
        make_literal(Literal::Int8(200, Signed::Unsigned)),
        HirLiteral::Int(200, HirISize::U8, HirIntSign::Unsigned)
    );
    assert_eq!(
        make_literal(Literal::Int16(7, Signed::Signed)),
        HirLiteral::Int(7, HirISize::U16, HirIntSign::Signed)
    );
    assert_eq!(
        make_literal(Literal::Int32(70000, Signed::Signed)),
        HirLiteral::Int(70000, HirISize::U32, HirIntSign::Signed)
    );
    assert_eq!(
        make_literal(Literal::Int64(u64::MAX, Signed::Unsigned)),
        HirLiteral::Int(u64::MAX as u128, HirISize::U64, HirIntSign::Unsigned)
    );
    assert_eq!(
        make_literal(Literal::Int128(u128::MAX, Signed::Signed)),
        HirLiteral::Int(u128::MAX, HirISize::U128, HirIntSign::Signed)
    );
}

#[test]
fn strings_are_bound_to_no_name() {
    assert_eq!(
        make_literal(Literal::String("hey".into())),
        HirLiteral::String(HirString { value: "hey".into(), name: None })
    );
}

#[test]
fn decimal_numbers_are_split_at_the_point() {
    assert_eq!(
        make_literal(Literal::Float64("3.14".into())),
        HirLiteral::Decimal(HirFSize::F64, HirDecimal { integer: 3, decimal: 14 })
    );
    assert_eq!(
        make_literal(Literal::Float32("12.05".into())),
        HirLiteral::Decimal(HirFSize::F64, HirDecimal { integer: 12, decimal: 5 })
    );
    assert_eq!(
        make_literal(Literal::Float64("42".into())),
        HirLiteral::Decimal(HirFSize::F64, HirDecimal { integer: 42, decimal: 0 })
    );
    let pass = AstLowering { db: () };
    assert_eq!(
        pass.make_literal(Literal::Float64("1.5".into())),
        HirLiteral::Decimal(HirFSize::F64, HirDecimal { integer: 1, decimal: 5 })
    );
}

#[test]
fn decimal_texts() {
    assert_eq!(decimal_of("0.5"), Some(HirDecimal { integer: 0, decimal: 5 }));
    assert_eq!(decimal_of("+7.+3"), Some(HirDecimal { integer: 7, decimal: 3 }));
    assert_eq!(decimal_of("1.2.3"), Some(HirDecimal { integer: 1, decimal: 2 }));
    assert_eq!(decimal_of(""), None);
    assert_eq!(decimal_of("."), None);
    assert_eq!(decimal_of("1."), None);
    assert_eq!(decimal_of(".5"), None);
    assert_eq!(decimal_of("-1.5"), None);
    assert_eq!(decimal_of("NaN"), None);
    assert_eq!(decimal_of("inf"), None);
    assert_eq!(decimal_of("1e21"), None);
    assert_eq!(decimal_of("99999999999999999999999999999999999999999.0"), None);
}

#[test]
fn what_has_a_lowering() {
    assert!(can_lower(&Literal::True));
    assert!(can_lower(&Literal::String("x".into())));
    assert!(can_lower(&Literal::Float64("2.5".into())));
    assert!(!can_lower(&Literal::Float64("NaN".into())));
    assert!(!can_lower(&Literal::Float32("-0.5".into())));
    assert!(!can_lower(&Literal::Nat(3)));
}

#[test]
fn numbers_in_text() {
    let chars = chars_of("x+12y");
    assert_eq!(parse_number_in(&chars, 1, 4), Some(12));
    assert_eq!(parse_number_in(&chars, 2, 4), Some(12));
    assert_eq!(parse_number_in(&chars, 0, 4), None);
    assert_eq!(parse_number_in(&chars, 1, 2), None);
    assert_eq!(parse_number_in(&chars, 2, 2), None);
    let max = usize::MAX.to_string();
    let chars = chars_of(&max);
    assert_eq!(parse_number_in(&chars, 0, chars.len()), Some(usize::MAX));
    let over = format!("{}0", max);
    let chars = chars_of(&over);
    assert_eq!(parse_number_in(&chars, 0, chars.len()), None);
}
