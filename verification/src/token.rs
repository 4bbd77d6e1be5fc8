//! Lexical tokens.

use vstd::prelude::*;
use crate::text::str_eq;

verus! {

/// Whether an integer literal is signed.
#[derive(Clone, Copy, Debug, PartialEq, Eq, Hash, Structural)]
pub enum Signed {
    Signed,
    Unsigned,
}

/// The class of a token, without what the token holds.
#[derive(Clone, Copy, Debug, PartialEq, Eq, Hash, Structural)]
pub enum TokenKind {
    /// A token that stands for text that could not be read.
    Error,
    Let,
    True,
    False,
    If,
    Else,
    Then,
    Type,
    Record,
    Enum,
    Trait,
    Class,
    Case,
    Where,
    Match,
    Use,
    LeftBracket,
    RightBracket,
    LeftBrace,
    RightBrace,
    LeftParen,
    RightParen,
    Comma,
    Semi,
    Colon,
    Dot,
    Int8,
    Int16,
    Int32,
    Int64,
    Int128,
    Float32,
    Float64,
    Symbol,
    Ident,
    String,
}

/// A token of the language.
#[derive(Debug)]
pub enum Token {
    /// Text that could not be read as a token; also the default token.
    Error,
    // keywords
    Let,
    True,
    False,
    If,
    Else,
    Then,
    Type,
    Record,
    Enum,
    Trait,
    Class,
    Case,
    Where,
    Match,
    Use,
    // control symbols
    LeftBracket,
    RightBracket,
    LeftBrace,
    RightBrace,
    LeftParen,
    RightParen,
    Comma,
    Semi,
    Colon,
    Dot,
    // integers
    Int8(u8, Signed),
    Int16(u32, Signed),
    Int32(u32, Signed),
    Int64(u64, Signed),
    Int128(u128, Signed),
    // decimal numbers, held as the digits that were written
    Float32(String),
    Float64(String),
    // literals
    Symbol(String),
    Ident(String),
    String(String),
}

/// What a token is, as plain mathematical data: its class, the text it holds
/// (empty where it holds none), the number it holds (zero where it holds none)
/// and the signedness of that number (`Unsigned` where it holds none).
pub struct TokenView {
    pub kind: TokenKind,
    pub text: Seq<char>,
    pub number: nat,
    pub signed: Signed,
}

impl TokenView {
    /// A token of class `kind` that holds nothing.
    pub open spec fn bare(kind: TokenKind) -> TokenView {
        TokenView { kind, text: Seq::empty(), number: 0, signed: Signed::Unsigned }
    }

    /// A token of class `kind` that holds `text`.
    pub open spec fn textual(kind: TokenKind, text: Seq<char>) -> TokenView {
        TokenView { kind, text, number: 0, signed: Signed::Unsigned }
    }

    /// A token of class `kind` that holds `number` with signedness `signed`.
    pub open spec fn numeric(kind: TokenKind, number: nat, signed: Signed) -> TokenView {
        TokenView { kind, text: Seq::empty(), number, signed }
    }
}

impl View for Token {
    type V = TokenView;

    open spec fn view(&self) -> TokenView {
        match *self {
            Token::Error => TokenView::bare(TokenKind::Error),
            Token::Let => TokenView::bare(TokenKind::Let),
            Token::True => TokenView::bare(TokenKind::True),
            Token::False => TokenView::bare(TokenKind::False),
            Token::If => TokenView::bare(TokenKind::If),
            Token::Else => TokenView::bare(TokenKind::Else),
            Token::Then => TokenView::bare(TokenKind::Then),
            Token::Type => TokenView::bare(TokenKind::Type),
            Token::Record => TokenView::bare(TokenKind::Record),
            Token::Enum => TokenView::bare(TokenKind::Enum),
            Token::Trait => TokenView::bare(TokenKind::Trait),
            Token::Class => TokenView::bare(TokenKind::Class),
            Token::Case => TokenView::bare(TokenKind::Case),
            Token::Where => TokenView::bare(TokenKind::Where),
            Token::Match => TokenView::bare(TokenKind::Match),
            Token::Use => TokenView::bare(TokenKind::Use),
            Token::LeftBracket => TokenView::bare(TokenKind::LeftBracket),
            Token::RightBracket => TokenView::bare(TokenKind::RightBracket),
            Token::LeftBrace => TokenView::bare(TokenKind::LeftBrace),
            Token::RightBrace => TokenView::bare(TokenKind::RightBrace),
            Token::LeftParen => TokenView::bare(TokenKind::LeftParen),
            Token::RightParen => TokenView::bare(TokenKind::RightParen),
            Token::Comma => TokenView::bare(TokenKind::Comma),
            Token::Semi => TokenView::bare(TokenKind::Semi),
            Token::Colon => TokenView::bare(TokenKind::Colon),
            Token::Dot => TokenView::bare(TokenKind::Dot),
            Token::Int8(n, s) => TokenView::numeric(TokenKind::Int8, n as nat, s),
            Token::Int16(n, s) => TokenView::numeric(TokenKind::Int16, n as nat, s),
            Token::Int32(n, s) => TokenView::numeric(TokenKind::Int32, n as nat, s),
            Token::Int64(n, s) => TokenView::numeric(TokenKind::Int64, n as nat, s),
            Token::Int128(n, s) => TokenView::numeric(TokenKind::Int128, n as nat, s),
            Token::Float32(t) => TokenView::textual(TokenKind::Float32, t@),
            Token::Float64(t) => TokenView::textual(TokenKind::Float64, t@),
            Token::Symbol(t) => TokenView::textual(TokenKind::Symbol, t@),
            Token::Ident(t) => TokenView::textual(TokenKind::Ident, t@),
            Token::String(t) => TokenView::textual(TokenKind::String, t@),
        }
    }
}

impl Token {
    /// The symbol token that holds `s`.
    pub fn sym(s: &str) -> (token: Token)
        ensures
            token@ == TokenView::textual(TokenKind::Symbol, s@),
    {
        Token::Symbol(s.to_owned())
    }

    /// The class of this token.
    pub fn kind(&self) -> (kind: TokenKind)
        ensures
            kind == self@.kind,
    {
        match self {
            Token::Error => TokenKind::Error,
            Token::Let => TokenKind::Let,
            Token::True => TokenKind::True,
            Token::False => TokenKind::False,
            Token::If => TokenKind::If,
            Token::Else => TokenKind::Else,
            Token::Then => TokenKind::Then,
            Token::Type => TokenKind::Type,
            Token::Record => TokenKind::Record,
            Token::Enum => TokenKind::Enum,
            Token::Trait => TokenKind::Trait,
            Token::Class => TokenKind::Class,
            Token::Case => TokenKind::Case,
            Token::Where => TokenKind::Where,
            Token::Match => TokenKind::Match,
            Token::Use => TokenKind::Use,
            Token::LeftBracket => TokenKind::LeftBracket,
            Token::RightBracket => TokenKind::RightBracket,
            Token::LeftBrace => TokenKind::LeftBrace,
            Token::RightBrace => TokenKind::RightBrace,
            Token::LeftParen => TokenKind::LeftParen,
            Token::RightParen => TokenKind::RightParen,
            Token::Comma => TokenKind::Comma,
            Token::Semi => TokenKind::Semi,
            Token::Colon => TokenKind::Colon,
            Token::Dot => TokenKind::Dot,
            Token::Int8(..) => TokenKind::Int8,
            Token::Int16(..) => TokenKind::Int16,
            Token::Int32(..) => TokenKind::Int32,
            Token::Int64(..) => TokenKind::Int64,
            Token::Int128(..) => TokenKind::Int128,
            Token::Float32(..) => TokenKind::Float32,
            Token::Float64(..) => TokenKind::Float64,
            Token::Symbol(..) => TokenKind::Symbol,
            Token::Ident(..) => TokenKind::Ident,
            Token::String(..) => TokenKind::String,
        }
    }

    /// The text that this token holds; empty where it holds none.
    pub fn text(&self) -> (text: &str)
        ensures
            text@ == self@.text,
    {
        match self {
            Token::Float32(t) => t.as_str(),
            Token::Float64(t) => t.as_str(),
            Token::Symbol(t) => t.as_str(),
            Token::Ident(t) => t.as_str(),
            Token::String(t) => t.as_str(),
            _ => {
                let empty = "";
                proof {
                    reveal_strlit("");
                    assert(empty@ =~= Seq::<char>::empty());
                }
                empty
            },
        }
    }

    /// The number that this token holds; zero where it holds none.
    pub fn number(&self) -> (number: u128)
        ensures
            number == self@.number,
    {
        match self {
            Token::Int8(n, _) => *n as u128,
            Token::Int16(n, _) => *n as u128,
            Token::Int32(n, _) => *n as u128,
            Token::Int64(n, _) => *n as u128,
            Token::Int128(n, _) => *n,
            _ => 0,
        }
    }

    /// The signedness of the number that this token holds; `Unsigned` where it
    /// holds none.
    pub fn signed(&self) -> (signed: Signed)
        ensures
            signed == self@.signed,
    {
        match self {
            Token::Int8(_, s) => *s,
            Token::Int16(_, s) => *s,
            Token::Int32(_, s) => *s,
            Token::Int64(_, s) => *s,
            Token::Int128(_, s) => *s,
            _ => Signed::Unsigned,
        }
    }

    /// Whether the two tokens are the same token: same class, same text, same
    /// number, same signedness.
    pub fn same(&self, other: &Token) -> (same: bool)
        ensures
            same == (self@ == other@),
    {
        self.kind() == other.kind() && str_eq(self.text(), other.text()) && self.number()
            == other.number() && self.signed() == other.signed()
    }

    /// A copy of this token.
    pub fn duplicate(&self) -> (copy: Token)
        ensures
            copy == *self,
    {
        match self {
            Token::Error => Token::Error,
            Token::Let => Token::Let,
            Token::True => Token::True,
            Token::False => Token::False,
            Token::If => Token::If,
            Token::Else => Token::Else,
            Token::Then => Token::Then,
            Token::Type => Token::Type,
            Token::Record => Token::Record,
            Token::Enum => Token::Enum,
            Token::Trait => Token::Trait,
            Token::Class => Token::Class,
            Token::Case => Token::Case,
            Token::Where => Token::Where,
            Token::Match => Token::Match,
            Token::Use => Token::Use,
            Token::LeftBracket => Token::LeftBracket,
            Token::RightBracket => Token::RightBracket,
            Token::LeftBrace => Token::LeftBrace,
            Token::RightBrace => Token::RightBrace,
            Token::LeftParen => Token::LeftParen,
            Token::RightParen => Token::RightParen,
            Token::Comma => Token::Comma,
            Token::Semi => Token::Semi,
            Token::Colon => Token::Colon,
            Token::Dot => Token::Dot,
            Token::Int8(n, s) => Token::Int8(*n, *s),
            Token::Int16(n, s) => Token::Int16(*n, *s),
            Token::Int32(n, s) => Token::Int32(*n, *s),
            Token::Int64(n, s) => Token::Int64(*n, *s),
            Token::Int128(n, s) => Token::Int128(*n, *s),
            Token::Float32(t) => Token::Float32(t.clone()),
            Token::Float64(t) => Token::Float64(t.clone()),
            Token::Symbol(t) => Token::Symbol(t.clone()),
            Token::Ident(t) => Token::Ident(t.clone()),
            Token::String(t) => Token::String(t.clone()),
        }
    }
}

impl Clone for Token {
    fn clone(&self) -> (copy: Token)
        ensures
            copy == *self,
    {
        self.duplicate()
    }
}

impl PartialEq for Token {
    fn eq(&self, other: &Token) -> (equal: bool) {
        self.same(other)
    }
}

impl vstd::std_specs::cmp::PartialEqSpecImpl for Token {
    open spec fn obeys_eq_spec() -> bool {
        true
    }

    open spec fn eq_spec(&self, other: &Token) -> bool {
        self@ == other@
    }
}

impl Default for Token {
    fn default() -> (token: Token)
        ensures
            token == Token::Error,
    {
        Token::Error
    }
}

} // verus!
