//! Literals of the source language.

use vstd::prelude::*;
use crate::leaf::interner::Intern;
use crate::leaf::green::{Stowed, StowedView};
use crate::leaf::node::Terminal;
use crate::span::Spanned;
use crate::token::{Signed, Token, TokenKind, TokenView};

verus! {

/// A literal as it was written. A decimal number is held as its decimal text:
/// the digits before the point and, where there is a point, the point and the
/// digits after it.
#[derive(Clone, Debug, PartialEq, Eq, Hash)]
pub enum Literal {
    Error,
    True,
    False,
    Nat(u128),
    String(String),
    Int8(u8, Signed),
    Int16(u16, Signed),
    Int32(u32, Signed),
    Int64(u64, Signed),
    Int128(u128, Signed),
    Float32(String),
    Float64(String),
}

impl Default for Literal {
    fn default() -> (literal: Literal)
        ensures
            literal is Error,
    {
        Literal::Error
    }
}

/// Whether `literal` is the literal that `token` is read as: a truth value for
/// its keyword, a string or a decimal number with the text of its token, and an
/// integer with the number and the signedness of its token.
pub open spec fn reads_as(token: TokenView, literal: Literal) -> bool {
    match literal {
        Literal::Error => false,
        Literal::Nat(_) => false,
        Literal::True => token.kind == TokenKind::True,
        Literal::False => token.kind == TokenKind::False,
        Literal::String(text) => token.kind == TokenKind::String && text@ == token.text,
        Literal::Int8(number, signed) => token.kind == TokenKind::Int8 && number == token.number
            && signed == token.signed,
        Literal::Int16(number, signed) => token.kind == TokenKind::Int16 && number == token.number
            && signed == token.signed,
        Literal::Int32(number, signed) => token.kind == TokenKind::Int32 && number == token.number
            && signed == token.signed,
        Literal::Int64(number, signed) => token.kind == TokenKind::Int64 && number == token.number
            && signed == token.signed,
        Literal::Int128(number, signed) => token.kind == TokenKind::Int128 && number
            == token.number && signed == token.signed,
        Literal::Float32(text) => token.kind == TokenKind::Float32 && text@ == token.text,
        Literal::Float64(text) => token.kind == TokenKind::Float64 && text@ == token.text,
    }
}

/// The mark of a signedness: set for signed.
pub open spec fn sign_mark(signed: Signed) -> bool {
    signed == Signed::Signed
}

fn mark_of(signed: Signed) -> (mark: bool)
    ensures
        mark == sign_mark(signed),
{
    match signed {
        Signed::Signed => true,
        Signed::Unsigned => false,
    }
}

fn sign_of_mark(mark: bool) -> (signed: Signed)
    ensures
        sign_mark(signed) == mark,
{
    if mark {
        Signed::Signed
    } else {
        Signed::Unsigned
    }
}

/// A stowed value that holds nothing but its tag.
pub open spec fn bare_stowed(tag: u8) -> StowedView {
    StowedView { tag, number: 0, mark: false, text: Seq::empty() }
}

/// A stowed value that holds a number and a mark.
pub open spec fn number_stowed(tag: u8, number: u128, mark: bool) -> StowedView {
    StowedView { tag, number, mark, text: Seq::empty() }
}

/// A stowed value that holds a text.
pub open spec fn text_stowed(tag: u8, text: Seq<char>) -> StowedView {
    StowedView { tag, number: 0, mark: false, text }
}

fn bare(tag: u8) -> (stowed: Stowed)
    ensures
        stowed@ == bare_stowed(tag),
{
    Stowed { tag, number: 0, mark: false, text: String::new() }
}

fn numbered(tag: u8, number: u128, mark: bool) -> (stowed: Stowed)
    ensures
        stowed@ == number_stowed(tag, number, mark),
{
    Stowed { tag, number, mark, text: String::new() }
}

/// A literal is read from the keywords of the truth values, from strings, from
/// decimal numbers, and from integers that fit the width of their kind. In
/// untyped form a literal is the number of its kind as the tag, with the
/// number, the signedness and the text that it holds.
impl Terminal for Literal {
    open spec fn stowed(&self) -> StowedView {
        match *self {
            Literal::Error => bare_stowed(0),
            Literal::True => bare_stowed(1),
            Literal::False => bare_stowed(2),
            Literal::Nat(number) => number_stowed(3, number, false),
            Literal::String(text) => text_stowed(4, text@),
            Literal::Int8(number, signed) => number_stowed(5, number as u128, sign_mark(signed)),
            Literal::Int16(number, signed) => number_stowed(6, number as u128, sign_mark(signed)),
            Literal::Int32(number, signed) => number_stowed(7, number as u128, sign_mark(signed)),
            Literal::Int64(number, signed) => number_stowed(8, number as u128, sign_mark(signed)),
            Literal::Int128(number, signed) => number_stowed(9, number, sign_mark(signed)),
            Literal::Float32(text) => text_stowed(10, text@),
            Literal::Float64(text) => text_stowed(11, text@),
        }
    }

    open spec fn reads(token: TokenView) -> bool {
        ||| token.kind == TokenKind::True
        ||| token.kind == TokenKind::False
        ||| token.kind == TokenKind::String
        ||| token.kind == TokenKind::Int8
        ||| token.kind == TokenKind::Int16 && token.number <= u16::MAX
        ||| token.kind == TokenKind::Int32
        ||| token.kind == TokenKind::Int64
        ||| token.kind == TokenKind::Int128
        ||| token.kind == TokenKind::Float32
        ||| token.kind == TokenKind::Float64
    }

    open spec fn read(token: TokenView) -> StowedView {
        match token.kind {
            TokenKind::True => bare_stowed(1),
            TokenKind::False => bare_stowed(2),
            TokenKind::String => text_stowed(4, token.text),
            TokenKind::Int8 => number_stowed(5, token.number as u128, sign_mark(token.signed)),
            TokenKind::Int16 => number_stowed(6, token.number as u128, sign_mark(token.signed)),
            TokenKind::Int32 => number_stowed(7, token.number as u128, sign_mark(token.signed)),
            TokenKind::Int64 => number_stowed(8, token.number as u128, sign_mark(token.signed)),
            TokenKind::Int128 => number_stowed(9, token.number as u128, sign_mark(token.signed)),
            TokenKind::Float32 => text_stowed(10, token.text),
            TokenKind::Float64 => text_stowed(11, token.text),
            _ => bare_stowed(0),
        }
    }

    open spec fn restores(stowed: StowedView) -> bool {
        if stowed.tag <= 2 {
            stowed == bare_stowed(stowed.tag)
        } else if stowed.tag == 3 {
            stowed == number_stowed(3, stowed.number, false)
        } else if stowed.tag == 4 || stowed.tag == 10 || stowed.tag == 11 {
            stowed == text_stowed(stowed.tag, stowed.text)
        } else if stowed.tag == 5 {
            stowed == number_stowed(5, stowed.number, stowed.mark) && stowed.number <= u8::MAX
        } else if stowed.tag == 6 {
            stowed == number_stowed(6, stowed.number, stowed.mark) && stowed.number <= u16::MAX
        } else if stowed.tag == 7 {
            stowed == number_stowed(7, stowed.number, stowed.mark) && stowed.number <= u32::MAX
        } else if stowed.tag == 8 {
            stowed == number_stowed(8, stowed.number, stowed.mark) && stowed.number <= u64::MAX
        } else if stowed.tag == 9 {
            stowed == number_stowed(9, stowed.number, stowed.mark)
        } else {
            false
        }
    }

    open spec fn blank() -> StowedView {
        bare_stowed(0)
    }

    fn terminal(token: Intern<Spanned<Token>>) -> (value: Option<Self>)
        ensures
            value matches Some(literal) ==> reads_as(token.value.value@, literal),
    {
        match &token.value.value {
            Token::True => Some(Literal::True),
            Token::False => Some(Literal::False),
            Token::String(text) => Some(Literal::String(text.clone())),
            Token::Int8(number, signed) => Some(Literal::Int8(*number, *signed)),
            Token::Int16(number, signed) => if *number <= 0xffff {
                Some(Literal::Int16(*number as u16, *signed))
            } else {
                None
            },
            Token::Int32(number, signed) => Some(Literal::Int32(*number, *signed)),
            Token::Int64(number, signed) => Some(Literal::Int64(*number, *signed)),
            Token::Int128(number, signed) => Some(Literal::Int128(*number, *signed)),
            Token::Float32(text) => Some(Literal::Float32(text.clone())),
            Token::Float64(text) => Some(Literal::Float64(text.clone())),
            _ => None,
        }
    }

    fn stow(&self) -> (stowed: Stowed) {
        match self {
            Literal::Error => bare(0),
            Literal::True => bare(1),
            Literal::False => bare(2),
            Literal::Nat(number) => numbered(3, *number, false),
            Literal::String(text) => Stowed { tag: 4, number: 0, mark: false, text: text.clone() },
            Literal::Int8(number, signed) => numbered(5, *number as u128, mark_of(*signed)),
            Literal::Int16(number, signed) => numbered(6, *number as u128, mark_of(*signed)),
            Literal::Int32(number, signed) => numbered(7, *number as u128, mark_of(*signed)),
            Literal::Int64(number, signed) => numbered(8, *number as u128, mark_of(*signed)),
            Literal::Int128(number, signed) => numbered(9, *number, mark_of(*signed)),
            Literal::Float32(text) => Stowed {
                tag: 10,
                number: 0,
                mark: false,
                text: text.clone(),
            },
            Literal::Float64(text) => Stowed {
                tag: 11,
                number: 0,
                mark: false,
                text: text.clone(),
            },
        }
    }

    fn restore(stowed: &Stowed) -> (value: Option<Self>) {
        let textless = stowed.text.as_str().is_empty();
        proof {
            if textless {
                assert(stowed.text@ =~= Seq::<char>::empty());
            }
        }
        let plain = stowed.number == 0 && !stowed.mark;
        let tag = stowed.tag;
        if tag == 0 && plain && textless {
            Some(Literal::Error)
        } else if tag == 1 && plain && textless {
            Some(Literal::True)
        } else if tag == 2 && plain && textless {
            Some(Literal::False)
        } else if tag == 3 && !stowed.mark && textless {
            Some(Literal::Nat(stowed.number))
        } else if tag == 4 && plain {
            Some(Literal::String(stowed.text.clone()))
        } else if tag == 5 && textless && stowed.number <= 0xff {
            Some(Literal::Int8(stowed.number as u8, sign_of_mark(stowed.mark)))
        } else if tag == 6 && textless && stowed.number <= 0xffff {
            Some(Literal::Int16(stowed.number as u16, sign_of_mark(stowed.mark)))
        } else if tag == 7 && textless && stowed.number <= 0xffff_ffff {
            Some(Literal::Int32(stowed.number as u32, sign_of_mark(stowed.mark)))
        } else if tag == 8 && textless && stowed.number <= 0xffff_ffff_ffff_ffff {
            Some(Literal::Int64(stowed.number as u64, sign_of_mark(stowed.mark)))
        } else if tag == 9 && textless {
            Some(Literal::Int128(stowed.number, sign_of_mark(stowed.mark)))
        } else if tag == 10 && plain {
            Some(Literal::Float32(stowed.text.clone()))
        } else if tag == 11 && plain {
            Some(Literal::Float64(stowed.text.clone()))
        } else {
            None
        }
    }

    fn missing() -> (value: Self) {
        Literal::Error
    }

    proof fn lemma_stowed_restores(&self) {
    }
}

} // verus!
