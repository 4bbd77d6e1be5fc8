//! The lexer: from source text to tokens with their locations.
//!
//! The grammar is stated as specification functions over the characters of the
//! source ([`lex`]); the executable lexer is proved to produce exactly the
//! tokens that the grammar defines.

use vstd::prelude::*;
use crate::span::Loc;
use crate::text::{
    byte_offsets, bytes_before, chars_of, is_digit, is_ident_start, is_symbol_char, is_whitespace,
    lemma_bytes_before_grows, lemma_run_end, run_end, scan, slice_text, str_eq, CharClass,
};
use crate::token::{Token, TokenKind, TokenView};

verus! {

/// A token and where it stands in the source.
pub type LexToken = (Token, Loc);

/// The tokens of a source text, in source order.
pub type TokenSet = Vec<LexToken>;

/// The token of a control character, if `c` is one of `( ) [ ] { } ; ,`.
pub open spec fn control_token(c: char) -> Option<TokenKind> {
    if c == '[' {
        Some(TokenKind::LeftBracket)
    } else if c == ']' {
        Some(TokenKind::RightBracket)
    } else if c == '{' {
        Some(TokenKind::LeftBrace)
    } else if c == '}' {
        Some(TokenKind::RightBrace)
    } else if c == '(' {
        Some(TokenKind::LeftParen)
    } else if c == ')' {
        Some(TokenKind::RightParen)
    } else if c == ';' {
        Some(TokenKind::Semi)
    } else if c == ',' {
        Some(TokenKind::Comma)
    } else {
        None
    }
}

/// The token that a word stands for: the keyword with that spelling, or else
/// an identifier that holds the word.
pub open spec fn word_token(word: Seq<char>) -> TokenView {
    if word == "let"@ {
        TokenView::bare(TokenKind::Let)
    } else if word == "true"@ {
        TokenView::bare(TokenKind::True)
    } else if word == "false"@ {
        TokenView::bare(TokenKind::False)
    } else if word == "if"@ {
        TokenView::bare(TokenKind::If)
    } else if word == "else"@ {
        TokenView::bare(TokenKind::Else)
    } else if word == "then"@ {
        TokenView::bare(TokenKind::Then)
    } else if word == "type"@ {
        TokenView::bare(TokenKind::Type)
    } else if word == "record"@ {
        TokenView::bare(TokenKind::Record)
    } else if word == "enum"@ {
        TokenView::bare(TokenKind::Enum)
    } else if word == "trait"@ {
        TokenView::bare(TokenKind::Trait)
    } else if word == "class"@ {
        TokenView::bare(TokenKind::Class)
    } else if word == "case"@ {
        TokenView::bare(TokenKind::Case)
    } else if word == "where"@ {
        TokenView::bare(TokenKind::Where)
    } else if word == "match"@ {
        TokenView::bare(TokenKind::Match)
    } else if word == "use"@ {
        TokenView::bare(TokenKind::Use)
    } else {
        TokenView::textual(TokenKind::Ident, word)
    }
}

/// The position after the number that starts with the digit at `from`: a
/// single `0` or a run of digits that starts with another digit, then, where a
/// `.` and at least one digit follow, that `.` and the run of digits after it.
pub open spec fn number_end(s: Seq<char>, from: int) -> int {
    let whole = if s[from] == '0' {
        from + 1
    } else {
        run_end(s, from + 1, CharClass::Digit)
    };
    if whole + 1 < s.len() && s[whole] == '.' && is_digit(s[whole + 1]) {
        run_end(s, whole + 2, CharClass::Digit)
    } else {
        whole
    }
}

/// The token that starts at `from`, with the position after it; `None` where
/// no token starts there. In order of precedence: a control character; a run of
/// symbol characters; a number; a string between double quotes on which the
/// text does not end, quotes included; a word.
pub open spec fn token_at(s: Seq<char>, from: int) -> Option<(TokenView, int)>
    recommends
        0 <= from < s.len(),
{
    let c = s[from];
    if control_token(c) is Some {
        Some((TokenView::bare(control_token(c)->0), from + 1))
    } else if is_symbol_char(c) {
        let end = run_end(s, from, CharClass::Symbol);
        Some((TokenView::textual(TokenKind::Symbol, s.subrange(from, end)), end))
    } else if is_digit(c) {
        let end = number_end(s, from);
        Some((TokenView::textual(TokenKind::Float64, s.subrange(from, end)), end))
    } else if c == '"' && run_end(s, from + 1, CharClass::NotQuote) < s.len() {
        let end = run_end(s, from + 1, CharClass::NotQuote) + 1;
        Some((TokenView::textual(TokenKind::String, s.subrange(from, end)), end))
    } else if is_ident_start(c) {
        let end = run_end(s, from + 1, CharClass::IdentContinue);
        Some((word_token(s.subrange(from, end)), end))
    } else {
        None
    }
}

/// Whether a comment starts at `from`: two slashes.
pub open spec fn comment_at(s: Seq<char>, from: int) -> bool {
    0 <= from && from + 1 < s.len() && s[from] == '/' && s[from + 1] == '/'
}

/// The position after the white space and comments that start at `from`. A
/// comment runs from two slashes to the end of its line.
pub open spec fn trivia_end(s: Seq<char>, from: int) -> int
    decreases s.len() - from,
{
    if 0 <= from < s.len() && is_whitespace(s[from]) {
        trivia_end(s, from + 1)
    } else if comment_at(s, from) {
        let end = run_end(s, from + 2, CharClass::NotNewline);
        if from + 2 <= end <= s.len() {
            trivia_end(s, end)
        } else {
            from
        }
    } else {
        from
    }
}

/// The location of the characters `start..end` of `s`: the range of their
/// bytes in the UTF-8 text.
pub open spec fn span_of(s: Seq<char>, start: int, end: int) -> Loc {
    Loc::Concrete { start: bytes_before(s, start) as usize, end: bytes_before(s, end) as usize }
}

/// The tokens of `s` from position `from` on, each with the location of its
/// characters. White space and comments between tokens are passed over; a
/// character at which no token starts is passed over too.
pub open spec fn lex_from(s: Seq<char>, from: int) -> Seq<(TokenView, Loc)>
    decreases s.len() - from,
{
    let start = trivia_end(s, from);
    if 0 <= from <= start < s.len() {
        match token_at(s, start) {
            Some((token, end)) => {
                if start < end <= s.len() {
                    seq![(token, span_of(s, start, end))] + lex_from(s, end)
                } else {
                    Seq::empty()
                }
            },
            None => lex_from(s, start + 1),
        }
    } else {
        Seq::empty()
    }
}

/// The tokens of the source text `s`.
pub open spec fn lex(s: Seq<char>) -> Seq<(TokenView, Loc)> {
    lex_from(s, 0)
}

/// White space and comments end at or after where they start, inside the
/// text.
pub proof fn lemma_trivia_end(s: Seq<char>, from: int)
    requires
        0 <= from <= s.len(),
    ensures
        from <= trivia_end(s, from) <= s.len(),
    decreases s.len() - from,
{
    if from < s.len() && is_whitespace(s[from]) {
        lemma_trivia_end(s, from + 1);
    } else if comment_at(s, from) {
        lemma_run_end(s, from + 2, CharClass::NotNewline);
        lemma_trivia_end(s, run_end(s, from + 2, CharClass::NotNewline));
    }
}

/// Whether `kind` is a kind of token that the lexer gives: a keyword, a control
/// character, a symbol, a decimal number, a string or an identifier.
pub open spec fn lexed_kind(kind: TokenKind) -> bool {
    kind != TokenKind::Error && kind != TokenKind::Colon && kind != TokenKind::Dot && kind
        != TokenKind::Int8 && kind != TokenKind::Int16 && kind != TokenKind::Int32 && kind
        != TokenKind::Int64 && kind != TokenKind::Int128 && kind != TokenKind::Float32
}

/// A token takes at least one character and ends inside the text. A token
/// that holds text holds the text it was read from. The lexer gives keywords,
/// control characters, symbols, decimal numbers, strings and identifiers, and
/// no other kind of token.
pub proof fn lemma_token_at(s: Seq<char>, from: int)
    requires
        0 <= from < s.len(),
        token_at(s, from) is Some,
    ensures
        token_at(s, from) matches Some((token, end)) && from < end <= s.len() && (token.text.len()
            > 0 ==> token.text == s.subrange(from, end)) && token.number == 0 && lexed_kind(
            token.kind,
        ),
{
    let c = s[from];
    if control_token(c) is Some {
    } else if is_symbol_char(c) {
        lemma_run_end(s, from + 1, CharClass::Symbol);
    } else if is_digit(c) {
        let whole = if c == '0' {
            from + 1
        } else {
            run_end(s, from + 1, CharClass::Digit)
        };
        lemma_run_end(s, from + 1, CharClass::Digit);
        if whole + 1 < s.len() {
            lemma_run_end(s, whole + 2, CharClass::Digit);
        }
    } else if c == '"' {
        lemma_run_end(s, from + 1, CharClass::NotQuote);
    } else {
        lemma_run_end(s, from + 1, CharClass::IdentContinue);
    }
}

/// Whether `token` stands where a token read from `s` at or after `from` can
/// stand: on at least one character, inside the text, and, where it holds
/// text, on the text it holds.
pub open spec fn placed(s: Seq<char>, from: int, token: (TokenView, Loc)) -> bool {
    exists|start: int, end: int|
        from <= start < end <= s.len() && token.1 == #[trigger] span_of(s, start, end) && (
        token.0.text.len() > 0 ==> token.0.text == s.subrange(start, end))
}

/// A token that stands at or after a position stands at or after every
/// earlier one.
pub proof fn lemma_placed_later(s: Seq<char>, from: int, later: int, token: (TokenView, Loc))
    requires
        from <= later,
        placed(s, later, token),
    ensures
        placed(s, from, token),
{
    let (start, end) = choose|start: int, end: int|
        later <= start < end <= s.len() && token.1 == #[trigger] span_of(s, start, end) && (
        token.0.text.len() > 0 ==> token.0.text == s.subrange(start, end));
    assert(from <= start < end <= s.len() && token.1 == span_of(s, start, end));
}

/// A token that stands at or after a position starts at or after the byte
/// position of it, and ends after it starts.
pub proof fn lemma_placed_bytes(s: Seq<char>, from: int, token: (TokenView, Loc))
    requires
        0 <= from <= s.len(),
        bytes_before(s, s.len() as int) <= usize::MAX,
        placed(s, from, token),
    ensures
        bytes_before(s, from) <= token.1.spec_start() < token.1.spec_end() <= bytes_before(
            s,
            s.len() as int,
        ),
{
    let (start, end) = choose|start: int, end: int|
        from <= start < end <= s.len() && token.1 == #[trigger] span_of(s, start, end) && (
        token.0.text.len() > 0 ==> token.0.text == s.subrange(start, end));
    lemma_bytes_before_grows(s, from, start);
    lemma_bytes_before_grows(s, start, end);
    lemma_bytes_before_grows(s, end, s.len() as int);
}

/// The tokens of a text stand in the text, in source order and without
/// overlap, each on at least one character, and each token that holds text
/// holds the text it stands on.
pub proof fn lemma_lex_from(s: Seq<char>, from: int)
    requires
        0 <= from <= s.len(),
        bytes_before(s, s.len() as int) <= usize::MAX,
    ensures
        forall|i: int|
            0 <= i < lex_from(s, from).len() ==> placed(s, from, #[trigger] lex_from(s, from)[i]),
        forall|i: int, j: int|
            0 <= i < j < lex_from(s, from).len() ==> (#[trigger] lex_from(s, from)[i]).1.spec_end()
                <= (#[trigger] lex_from(s, from)[j]).1.spec_start(),
    decreases s.len() - from,
{
    let start = trivia_end(s, from);
    lemma_trivia_end(s, from);
    let tokens = lex_from(s, from);
    if start < s.len() {
        match token_at(s, start) {
            Some((token, end)) => {
                lemma_token_at(s, start);
                lemma_lex_from(s, end);
                let rest = lex_from(s, end);
                let first = (token, span_of(s, start, end));
                assert(tokens == seq![first] + rest);
                assert forall|i: int| 0 <= i < tokens.len() implies placed(
                    s,
                    from,
                    #[trigger] tokens[i],
                ) by {
                    if i > 0 {
                        assert(tokens[i] == rest[i - 1]);
                        lemma_placed_later(s, from, end, rest[i - 1]);
                    } else {
                        assert(tokens[0].1 == span_of(s, start, end));
                    }
                }
                assert forall|i: int, j: int| 0 <= i < j < tokens.len() implies (
                #[trigger] tokens[i]).1.spec_end() <= (#[trigger] tokens[j]).1.spec_start() by {
                    assert(tokens[j] == rest[j - 1]);
                    lemma_placed_bytes(s, end, rest[j - 1]);
                    if i > 0 {
                        assert(tokens[i] == rest[i - 1]);
                    } else {
                        lemma_bytes_before_grows(s, end, s.len() as int);
                    }
                }
            },
            None => {
                lemma_lex_from(s, start + 1);
                let rest = lex_from(s, start + 1);
                assert(tokens == rest);
                assert forall|i: int| 0 <= i < tokens.len() implies placed(
                    s,
                    from,
                    #[trigger] tokens[i],
                ) by {
                    lemma_placed_later(s, from, start + 1, rest[i]);
                }
            },
        }
    }
}

/// The tokens of `tokens` as mathematical data.
pub open spec fn token_views(tokens: Seq<LexToken>) -> Seq<(TokenView, Loc)> {
    tokens.map_values(|t: LexToken| (t.0@, t.1))
}

/// The token of a control character: one of `( ) [ ] { } ; ,`.
pub fn control_lexer(c: char) -> (token: Option<Token>)
    ensures
        match control_token(c) {
            Some(kind) => token is Some && token->0@ == TokenView::bare(kind),
            None => token is None,
        },
{
    if c == '[' {
        Some(Token::LeftBracket)
    } else if c == ']' {
        Some(Token::RightBracket)
    } else if c == '{' {
        Some(Token::LeftBrace)
    } else if c == '}' {
        Some(Token::RightBrace)
    } else if c == '(' {
        Some(Token::LeftParen)
    } else if c == ')' {
        Some(Token::RightParen)
    } else if c == ';' {
        Some(Token::Semi)
    } else if c == ',' {
        Some(Token::Comma)
    } else {
        None
    }
}

/// The token of a word: a keyword, or an identifier that holds the word.
pub fn ident_lexer(word: &str) -> (token: Token)
    ensures
        token@ == word_token(word@),
{
    if str_eq(word, "let") {
        Token::Let
    } else if str_eq(word, "true") {
        Token::True
    } else if str_eq(word, "false") {
        Token::False
    } else if str_eq(word, "if") {
        Token::If
    } else if str_eq(word, "else") {
        Token::Else
    } else if str_eq(word, "then") {
        Token::Then
    } else if str_eq(word, "type") {
        Token::Type
    } else if str_eq(word, "record") {
        Token::Record
    } else if str_eq(word, "enum") {
        Token::Enum
    } else if str_eq(word, "trait") {
        Token::Trait
    } else if str_eq(word, "class") {
        Token::Class
    } else if str_eq(word, "case") {
        Token::Case
    } else if str_eq(word, "where") {
        Token::Where
    } else if str_eq(word, "match") {
        Token::Match
    } else if str_eq(word, "use") {
        Token::Use
    } else {
        Token::Ident(word.to_owned())
    }
}

/// The position after the number that starts at `from`.
fn scan_number(chars: &Vec<char>, from: usize) -> (end: usize)
    requires
        from < chars@.len(),
        is_digit(chars@[from as int]),
    ensures
        end == number_end(chars@, from as int),
        from < end <= chars@.len(),
{
    let len = chars.len();
    let whole = if chars[from] == '0' {
        from + 1
    } else {
        scan(chars, from + 1, CharClass::Digit)
    };
    if whole < len && chars[whole] == '.' && whole + 1 < len && CharClass::Digit.test(
        chars[whole + 1],
    ) {
        scan(chars, whole + 2, CharClass::Digit)
    } else {
        whole
    }
}

/// The token that starts at `from`, with the position after it.
fn scan_token(chars: &Vec<char>, from: usize) -> (found: Option<(Token, usize)>)
    requires
        from < chars@.len(),
    ensures
        match token_at(chars@, from as int) {
            Some((token, end)) => found matches Some(f) && f.0@ == token && f.1 == end && from
                < end <= chars@.len(),
            None => found is None,
        },
{
    let len = chars.len();
    let c = chars[from];
    if let Some(token) = control_lexer(c) {
        Some((token, from + 1))
    } else if CharClass::Symbol.test(c) {
        let end = scan(chars, from, CharClass::Symbol);
        proof {
            lemma_run_end(chars@, from + 1, CharClass::Symbol);
        }
        Some((Token::Symbol(slice_text(chars, from, end)), end))
    } else if CharClass::Digit.test(c) {
        let end = scan_number(chars, from);
        Some((Token::Float64(slice_text(chars, from, end)), end))
    } else if c == '"' {
        let close = scan(chars, from + 1, CharClass::NotQuote);
        if close < len {
            Some((Token::String(slice_text(chars, from, close + 1)), close + 1))
        } else {
            None
        }
    } else if ('a' <= c && c <= 'z') || ('A' <= c && c <= 'Z') || c == '_' {
        let end = scan(chars, from + 1, CharClass::IdentContinue);
        let word = slice_text(chars, from, end);
        Some((ident_lexer(word.as_str()), end))
    } else {
        None
    }
}

/// The position after the white space and comments that start at `from`.
fn skip_trivia(chars: &Vec<char>, from: usize) -> (end: usize)
    requires
        from <= chars@.len(),
    ensures
        end == trivia_end(chars@, from as int),
        from <= end <= chars@.len(),
{
    let mut end: usize = from;
    loop
        invariant
            from <= end <= chars@.len(),
            trivia_end(chars@, from as int) == trivia_end(chars@, end as int),
        ensures
            from <= end <= chars@.len(),
            trivia_end(chars@, from as int) == end,
        decreases chars@.len() - end,
    {
        if end < chars.len() && CharClass::Space.test(chars[end]) {
            end += 1;
        } else if end < chars.len() && chars[end] == '/' && end + 1 < chars.len() && chars[end
            + 1] == '/' {
            end = scan(chars, end + 2, CharClass::NotNewline);
        } else {
            break ;
        }
    }
    end
}

/// A lexer over one source text: the characters of the text, the byte
/// position of each, and how far the text has been read.
pub struct Lexer {
    chars: Vec<char>,
    offsets: Vec<usize>,
    index: usize,
}

impl Lexer {
    #[verifier::type_invariant]
    spec fn in_bounds(self) -> bool {
        &&& self.index <= self.chars@.len()
        &&& self.offsets@.len() == self.chars@.len() + 1
        &&& forall|i: int|
            0 <= i <= self.chars@.len() ==> #[trigger] self.offsets@[i] == bytes_before(
                self.chars@,
                i,
            )
    }

    /// The source text.
    pub closed spec fn source(&self) -> Seq<char> {
        self.chars@
    }

    /// How many characters of the source text have been read.
    pub closed spec fn position(&self) -> int {
        self.index as int
    }

    /// The tokens that are still to come.
    pub open spec fn remaining(&self) -> Seq<(TokenView, Loc)> {
        lex_from(self.source(), self.position())
    }

    /// A lexer at the start of `code`.
    pub fn new(code: &str) -> (lexer: Lexer)
        ensures
            lexer.source() == code@,
            lexer.position() == 0,
    {
        let chars = chars_of(code);
        let offsets = byte_offsets(code, &chars);
        Lexer { chars, offsets, index: 0 }
    }

    /// The next token with its location, or `None` when no token is left.
    pub fn next_token(&mut self) -> (next: Option<LexToken>)
        ensures
            final(self).source() == old(self).source(),
            match next {
                Some(token) => old(self).remaining() == seq![(token.0@, token.1)]
                    + final(self).remaining(),
                None => old(self).remaining() == Seq::<(TokenView, Loc)>::empty()
                    && final(self).remaining() == Seq::<(TokenView, Loc)>::empty(),
            },
    {
        proof {
            use_type_invariant(&*self);
        }
        let mut index: usize = self.index;
        loop
            invariant
                index <= self.chars@.len(),
                self.chars == old(self).chars,
                self.offsets == old(self).offsets,
                self.offsets@.len() == self.chars@.len() + 1,
                forall|i: int|
                    0 <= i <= self.chars@.len() ==> #[trigger] self.offsets@[i] == bytes_before(
                        self.chars@,
                        i,
                    ),
                lex_from(self.chars@, index as int) == old(self).remaining(),
            decreases self.chars@.len() - index,
        {
            let start = skip_trivia(&self.chars, index);
            if start >= self.chars.len() {
                self.index = start;
                return None;
            }
            match scan_token(&self.chars, start) {
                Some((token, end)) => {
                    self.index = end;
                    return Some((token, Loc::new(self.offsets[start], self.offsets[end])));
                },
                None => {
                    index = start + 1;
                },
            }
        }
    }
}

/// The tokens of `source`, in source order, each with its location.
pub fn lexer(source: &str) -> (tokens: TokenSet)
    ensures
        token_views(tokens@) == lex(source@),
{
    let mut lexer = Lexer::new(source);
    let mut tokens: TokenSet = Vec::new();
    loop
        invariant
            lexer.source() == source@,
            token_views(tokens@) + lexer.remaining() == lex(source@),
        ensures
            token_views(tokens@) == lex(source@),
        decreases lexer.remaining().len(),
    {
        match lexer.next_token() {
            Some(token) => {
                proof {
                    assert(token_views(tokens@.push(token)) == token_views(tokens@) + seq![
                        (token.0@, token.1),
                    ]);
                }
                tokens.push(token);
            },
            None => {
                break ;
            },
        }
    }
    tokens
}

} // verus!
