//! Text as sequences of characters: the few operations on `str` and `String`
//! that the rest of the library is built on.

use vstd::prelude::*;
use vstd::string::StringSliceAdditionalSpecFns;

verus! {

/// Whether two string slices hold the same characters in the same order.
pub(crate) fn str_eq(a: &str, b: &str) -> (equal: bool)
    ensures
        equal == (a@ == b@),
{
    let a = a.to_owned();
    let b = b.to_owned();
    a == b
}

/// `String::push`: the string afterwards is the string before with `c`
/// appended as its last character.
#[verifier::external_body]
pub(crate) fn push_char(s: &mut String, c: char)
    ensures
        final(s)@ == old(s)@.push(c),
{
    s.push(c)
}

/// The characters of `s`, in order.
pub fn chars_of(s: &str) -> (chars: Vec<char>)
    ensures
        chars@ == s@,
{
    let mut chars: Vec<char> = Vec::new();
    for c in it: s.chars()
        invariant
            chars@ == it.seq().take(it.index() as int),
    {
        chars.push(c);
    }
    chars
}

/// The number of bytes that the character `c` takes in UTF-8.
pub open spec fn utf8_width(c: char) -> nat {
    vstd::utf8::encode_scalar(c as u32).len()
}

/// The number of bytes that the first `upto` characters of `s` take in UTF-8:
/// the byte position of the character at `upto`.
pub open spec fn bytes_before(s: Seq<char>, upto: int) -> nat {
    vstd::utf8::encode_utf8(s.take(upto)).len()
}

/// The bytes of a text with one more character are the bytes of the text and
/// then those of the character.
pub proof fn lemma_encode_push(s: Seq<char>, c: char)
    ensures
        vstd::utf8::encode_utf8(s.push(c)) == vstd::utf8::encode_utf8(s)
            + vstd::utf8::encode_scalar(c as u32),
    decreases s.len(),
{
    if s.len() == 0 {
        assert(s.push(c).drop_first() == s);
        assert(vstd::utf8::encode_utf8(s) == Seq::<u8>::empty());
        assert(vstd::utf8::encode_scalar(c as u32) + Seq::<u8>::empty()
            == vstd::utf8::encode_scalar(c as u32));
        assert(Seq::<u8>::empty() + vstd::utf8::encode_scalar(c as u32)
            == vstd::utf8::encode_scalar(c as u32));
    } else {
        lemma_encode_push(s.drop_first(), c);
        assert(s.push(c).drop_first() == s.drop_first().push(c));
        assert(s.push(c)[0] == s[0]);
        let head = vstd::utf8::encode_scalar(s[0] as u32);
        let tail = vstd::utf8::encode_utf8(s.drop_first());
        let last = vstd::utf8::encode_scalar(c as u32);
        assert(head + (tail + last) == (head + tail) + last);
    }
}

/// A character takes between one and four bytes, and the byte position of the
/// character after it is that many bytes further.
pub proof fn lemma_bytes_before_step(s: Seq<char>, i: int)
    requires
        0 <= i < s.len(),
    ensures
        1 <= utf8_width(s[i]) <= 4,
        bytes_before(s, i + 1) == bytes_before(s, i) + utf8_width(s[i]),
{
    assert(s.take(i + 1) == s.take(i).push(s[i]));
    lemma_encode_push(s.take(i), s[i]);
}

/// Byte positions grow with character positions, by at least one byte for
/// each character.
pub proof fn lemma_bytes_before_grows(s: Seq<char>, i: int, j: int)
    requires
        0 <= i <= j <= s.len(),
    ensures
        bytes_before(s, i) + (j - i) <= bytes_before(s, j),
    decreases j - i,
{
    if i < j {
        lemma_bytes_before_grows(s, i, j - 1);
        lemma_bytes_before_step(s, j - 1);
    }
}

/// The number of bytes that `c` takes in UTF-8.
pub fn width_of(c: char) -> (width: usize)
    ensures
        width == utf8_width(c),
        1 <= width <= 4,
{
    let code = c as u32;
    if code < 0x80 {
        1
    } else if code < 0x800 {
        2
    } else if code < 0x10000 {
        3
    } else {
        4
    }
}

/// The byte positions of the characters of `s`, and, last, the number of bytes
/// of `s`.
pub fn byte_offsets(s: &str, chars: &Vec<char>) -> (offsets: Vec<usize>)
    requires
        chars@ == s@,
    ensures
        offsets@.len() == chars@.len() + 1,
        forall|i: int| 0 <= i <= chars@.len() ==> #[trigger] offsets@[i] == bytes_before(chars@, i),
{
    let total = s.as_bytes().len();
    proof {
        assert(chars@.take(chars@.len() as int) == chars@);
        assert(s.spec_bytes() == vstd::utf8::encode_utf8(s@));
        assert(bytes_before(chars@, chars@.len() as int) == total);
        assert(chars@.take(0) == Seq::<char>::empty());
    }
    let mut offsets: Vec<usize> = Vec::new();
    offsets.push(0);
    let mut i: usize = 0;
    while i < chars.len()
        invariant
            0 <= i <= chars@.len(),
            offsets@.len() == i + 1,
            bytes_before(chars@, chars@.len() as int) == total,
            forall|k: int| 0 <= k <= i ==> #[trigger] offsets@[k] == bytes_before(chars@, k),
        decreases chars@.len() - i,
    {
        proof {
            lemma_bytes_before_step(chars@, i as int);
            lemma_bytes_before_grows(chars@, i + 1, chars@.len() as int);
        }
        let next = offsets[i] + width_of(chars[i]);
        offsets.push(next);
        i += 1;
    }
    offsets
}

/// The text made of the characters `from..to` of `chars`.
pub fn slice_text(chars: &Vec<char>, from: usize, to: usize) -> (text: String)
    requires
        from <= to <= chars@.len(),
    ensures
        text@ == chars@.subrange(from as int, to as int),
{
    let mut text = String::new();
    let mut i: usize = from;
    while i < to
        invariant
            from <= i <= to <= chars@.len(),
            text@ == chars@.subrange(from as int, i as int),
        decreases to - i,
    {
        push_char(&mut text, chars[i]);
        i += 1;
    }
    text
}

/// The classes of characters that runs are taken of.
#[derive(Clone, Copy, Debug, PartialEq, Eq, Structural)]
pub enum CharClass {
    /// White space.
    Space,
    /// The characters that symbols are made of: `= ! > < $ # + - * / & | @ ^ . :`.
    Symbol,
    /// The decimal digits.
    Digit,
    /// The characters that may follow the first one of an identifier.
    IdentContinue,
    /// Everything but the double quote.
    NotQuote,
    /// Everything but the line feed.
    NotNewline,
    /// Everything but the full stop.
    NotDot,
}

/// Whether `c` is white space (the characters with Unicode's `White_Space`
/// property).
pub open spec fn is_whitespace(c: char) -> bool {
    ||| c == ' '
    ||| '\t' <= c <= '\r'
    ||| c == '\u{85}'
    ||| c == '\u{a0}'
    ||| c == '\u{1680}'
    ||| '\u{2000}' <= c <= '\u{200a}'
    ||| c == '\u{2028}'
    ||| c == '\u{2029}'
    ||| c == '\u{202f}'
    ||| c == '\u{205f}'
    ||| c == '\u{3000}'
}

/// Whether `c` is one of the characters that symbols are made of.
pub open spec fn is_symbol_char(c: char) -> bool {
    ||| c == '='
    ||| c == '!'
    ||| c == '>'
    ||| c == '<'
    ||| c == '$'
    ||| c == '#'
    ||| c == '+'
    ||| c == '-'
    ||| c == '*'
    ||| c == '/'
    ||| c == '&'
    ||| c == '|'
    ||| c == '@'
    ||| c == '^'
    ||| c == '.'
    ||| c == ':'
}

/// Whether `c` is a decimal digit.
pub open spec fn is_digit(c: char) -> bool {
    '0' <= c <= '9'
}

/// Whether an identifier may start with `c`.
pub open spec fn is_ident_start(c: char) -> bool {
    'a' <= c <= 'z' || 'A' <= c <= 'Z' || c == '_'
}

/// Whether `c` may stand in an identifier after its first character.
pub open spec fn is_ident_continue(c: char) -> bool {
    is_ident_start(c) || is_digit(c)
}

impl CharClass {
    /// Whether `c` belongs to this class.
    pub open spec fn holds(self, c: char) -> bool {
        match self {
            CharClass::Space => is_whitespace(c),
            CharClass::Symbol => is_symbol_char(c),
            CharClass::Digit => is_digit(c),
            CharClass::IdentContinue => is_ident_continue(c),
            CharClass::NotQuote => c != '"',
            CharClass::NotNewline => c != '\n',
            CharClass::NotDot => c != '.',
        }
    }

    /// Decides [`CharClass::holds`].
    pub fn test(self, c: char) -> (b: bool)
        ensures
            b == self.holds(c),
    {
        match self {
            CharClass::Space => {
                c == ' ' || ('\t' <= c && c <= '\r') || c == '\u{85}' || c == '\u{a0}' || c
                    == '\u{1680}' || ('\u{2000}' <= c && c <= '\u{200a}') || c == '\u{2028}' || c
                    == '\u{2029}' || c == '\u{202f}' || c == '\u{205f}' || c == '\u{3000}'
            },
            CharClass::Symbol => {
                c == '=' || c == '!' || c == '>' || c == '<' || c == '$' || c == '#' || c == '+'
                    || c == '-' || c == '*' || c == '/' || c == '&' || c == '|' || c == '@' || c
                    == '^' || c == '.' || c == ':'
            },
            CharClass::Digit => '0' <= c && c <= '9',
            CharClass::IdentContinue => {
                ('a' <= c && c <= 'z') || ('A' <= c && c <= 'Z') || c == '_' || ('0' <= c && c
                    <= '9')
            },
            CharClass::NotQuote => c != '"',
            CharClass::NotNewline => c != '\n',
            CharClass::NotDot => c != '.',
        }
    }
}

/// The position after the longest run of characters of `class` that starts at
/// `from`: `from` itself where the run is empty or `from` is past the end.
pub open spec fn run_end(s: Seq<char>, from: int, class: CharClass) -> int
    decreases s.len() - from,
{
    if 0 <= from < s.len() && class.holds(s[from]) {
        run_end(s, from + 1, class)
    } else {
        from
    }
}

/// A run ends at or after its start, inside the text, on a character that is
/// not of the class (or at the end of the text), and holds only characters of
/// the class.
pub proof fn lemma_run_end(s: Seq<char>, from: int, class: CharClass)
    requires
        0 <= from <= s.len(),
    ensures
        from <= run_end(s, from, class) <= s.len(),
        run_end(s, from, class) < s.len() ==> !class.holds(s[run_end(s, from, class)]),
        forall|k: int| from <= k < run_end(s, from, class) ==> class.holds(#[trigger] s[k]),
    decreases s.len() - from,
{
    if from < s.len() && class.holds(s[from]) {
        lemma_run_end(s, from + 1, class);
    }
}

/// The position after the longest run of characters of `class` from `from` on.
pub fn scan(chars: &Vec<char>, from: usize, class: CharClass) -> (end: usize)
    requires
        from <= chars@.len(),
    ensures
        end == run_end(chars@, from as int, class),
        from <= end <= chars@.len(),
{
    let mut end: usize = from;
    while end < chars.len() && class.test(chars[end])
        invariant
            from <= end <= chars@.len(),
            run_end(chars@, from as int, class) == run_end(chars@, end as int, class),
        decreases chars@.len() - end,
    {
        end += 1;
    }
    end
}

/// The number that the decimal digit `c` stands for.
pub open spec fn digit_value(c: char) -> nat {
    (c as int - '0' as int) as nat
}

/// The number that a sequence of decimal digits stands for; zero for the
/// empty sequence.
pub open spec fn digits_value(s: Seq<char>) -> nat
    decreases s.len(),
{
    if s.len() == 0 {
        0
    } else {
        digits_value(s.drop_last()) * 10 + digit_value(s.last())
    }
}

/// Whether `s` holds decimal digits only.
pub open spec fn all_digits(s: Seq<char>) -> bool {
    forall|i: int| 0 <= i < s.len() ==> is_digit(#[trigger] s[i])
}

/// The unsigned number that `s` spells: an optional `+`, then at least one
/// decimal digit and nothing else. `None` where `s` is not of that form or the
/// number does not fit in a `usize`.
pub open spec fn parse_number(s: Seq<char>) -> Option<usize> {
    let body = if s.len() > 0 && s[0] == '+' {
        s.subrange(1, s.len() as int)
    } else {
        s
    };
    digits_number(body)
}

/// The number that `s` stands for where `s` holds decimal digits only, at least
/// one, and the number fits in a `usize`; `None` elsewhere.
pub open spec fn digits_number(s: Seq<char>) -> Option<usize> {
    if s.len() > 0 && all_digits(s) && digits_value(s) <= usize::MAX {
        Some(digits_value(s) as usize)
    } else {
        None
    }
}

/// The digits of a prefix stand for no more than the digits of the whole.
pub proof fn lemma_digits_value_prefix(s: Seq<char>, n: int)
    requires
        0 <= n <= s.len(),
    ensures
        digits_value(s.subrange(0, n)) <= digits_value(s),
    decreases s.len(),
{
    if n == s.len() {
        assert(s.subrange(0, n) == s);
    } else {
        lemma_digits_value_prefix(s.drop_last(), n);
        assert(s.drop_last().subrange(0, n) == s.subrange(0, n));
    }
}

/// The number that the characters `from..to` of `chars` spell.
pub fn parse_number_in(chars: &Vec<char>, from: usize, to: usize) -> (number: Option<usize>)
    requires
        from <= to <= chars@.len(),
    ensures
        number == parse_number(chars@.subrange(from as int, to as int)),
{
    let ghost whole = chars@.subrange(from as int, to as int);
    let mut i: usize = from;
    if i < to && chars[i] == '+' {
        i += 1;
    }
    if i == to {
        return None;
    }
    let start: usize = i;
    let ghost body = chars@.subrange(start as int, to as int);
    assert(body == if whole.len() > 0 && whole[0] == '+' {
        whole.subrange(1, whole.len() as int)
    } else {
        whole
    });
    let mut value: usize = 0;
    assert(body.subrange(0, 0) == Seq::<char>::empty());
    while i < to
        invariant
            start <= i <= to <= chars@.len(),
            body == chars@.subrange(start as int, to as int),
            parse_number(chars@.subrange(from as int, to as int)) == digits_number(body),
            all_digits(body.subrange(0, i - start)),
            value == digits_value(body.subrange(0, i - start)),
        decreases to - i,
    {
        let c = chars[i];
        if !CharClass::Digit.test(c) {
            assert(!is_digit(body[i - start]));
            return None;
        }
        let digit: usize = (c as u32 - '0' as u32) as usize;
        proof {
            let next = body.subrange(0, i - start + 1);
            assert(next.drop_last() == body.subrange(0, i - start));
            assert(next.last() == c);
            assert(digits_value(next) == value * 10 + digit);
            lemma_digits_value_prefix(body, i - start + 1);
        }
        match value.checked_mul(10) {
            None => {
                return None;
            },
            Some(tens) => match tens.checked_add(digit) {
                None => {
                    return None;
                },
                Some(sum) => {
                    value = sum;
                },
            },
        }
        i += 1;
    }
    assert(body.subrange(0, i - start) == body);
    Some(value)
}

} // verus!
