//! Source locations and values that carry one.

use vstd::prelude::*;

verus! {

/// Where a piece of syntax comes from: a half-open range of character
/// positions in the source text, or nowhere at all for syntax that was built
/// rather than read.
#[derive(Clone, Copy, Debug, PartialEq, Eq, Hash, Structural)]
pub enum Loc {
    /// The syntax was not read from any source text.
    Synthetic,
    /// The characters `start..end` of the source text.
    Concrete { start: usize, end: usize },
}

impl Loc {
    /// The range `start..end`.
    pub fn new(start: usize, end: usize) -> (loc: Loc)
        ensures
            loc == (Loc::Concrete { start, end }),
    {
        Loc::Concrete { start, end }
    }

    /// Whether this location is the one of built syntax.
    pub fn is_synthetic(&self) -> (b: bool)
        ensures
            b == (*self is Synthetic),
    {
        match self {
            Loc::Synthetic => true,
            Loc::Concrete { .. } => false,
        }
    }

    /// First position of the range; `0` for built syntax.
    pub open spec fn spec_start(&self) -> usize {
        match *self {
            Loc::Synthetic => 0,
            Loc::Concrete { start, .. } => start,
        }
    }

    /// Position after the last one of the range; `0` for built syntax.
    pub open spec fn spec_end(&self) -> usize {
        match *self {
            Loc::Synthetic => 0,
            Loc::Concrete { end, .. } => end,
        }
    }

    #[verifier::when_used_as_spec(spec_start)]
    pub fn start(&self) -> (n: usize)
        ensures
            n == self.spec_start(),
    {
        match self {
            Loc::Synthetic => 0,
            Loc::Concrete { start, .. } => *start,
        }
    }

    #[verifier::when_used_as_spec(spec_end)]
    pub fn end(&self) -> (n: usize)
        ensures
            n == self.spec_end(),
    {
        match self {
            Loc::Synthetic => 0,
            Loc::Concrete { end, .. } => *end,
        }
    }
}

impl Default for Loc {
    fn default() -> (loc: Loc)
        ensures
            loc == Loc::Synthetic,
    {
        Loc::Synthetic
    }
}

/// A value together with the location it was read from.
#[derive(Clone, Debug)]
pub struct Spanned<T> {
    pub span: Loc,
    pub value: T,
}

impl<T> Spanned<T> {
    pub fn new(span: Loc, value: T) -> (s: Self)
        ensures
            s.span == span,
            s.value == value,
    {
        Spanned { span, value }
    }

    pub fn span(&self) -> (span: &Loc)
        ensures
            *span == self.span,
    {
        &self.span
    }

    pub fn value(&self) -> (value: &T)
        ensures
            *value == self.value,
    {
        &self.value
    }

    /// A value of another type at the same location.
    pub fn replace<U>(&self, value: U) -> (s: Spanned<U>)
        ensures
            s.span == self.span,
            s.value == value,
    {
        Spanned { span: self.span, value }
    }
}

} // verus!
