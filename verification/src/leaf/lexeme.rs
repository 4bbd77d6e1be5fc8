//! Lexemes: a token together with the typed value that was read from it.

use vstd::prelude::*;
use crate::leaf::green::{default_token, is_default_token, GreenTree, StowedView, TreeValue};
use crate::leaf::interner::{Intern, SYNTHETIC};
use crate::leaf::node::{round_trips, Leaf, Located, Node, Terminal};
use crate::leaf::tree::{Child, HasTokens, Named, Tree};
use crate::leaf::value::{location_as, Value};
use crate::leaf::walk::{Listenable, Walkable};
use crate::span::{Loc, Spanned};
use crate::token::{Token, TokenView};

verus! {

/// A token with a value of the language read from it.
#[derive(Debug)]
pub struct Lexeme<T> {
    pub token: Intern<Spanned<Token>>,
    pub value: T,
    /// Whether this lexeme stands in place of one that is not there.
    pub is_none: bool,
}

impl<T> Lexeme<T> {
    /// The lexeme of the same token with the value that `f` makes of the value
    /// of this one.
    pub fn map<U, F: FnOnce(T) -> U>(self, f: F) -> (mapped: Lexeme<U>)
        requires
            f.requires((self.value,)),
        ensures
            mapped.token == self.token,
            !mapped.is_none,
            f.ensures((self.value,), mapped.value),
    {
        Lexeme { token: self.token, value: f(self.value), is_none: false }
    }

    /// The lexeme of the same token with the value that `f` makes of the value
    /// and the token of this one.
    pub fn map_token<U, F: FnOnce(T, &Spanned<Token>) -> U>(self, f: F) -> (mapped: Lexeme<U>)
        requires
            f.requires((self.value, &*self.token.value)),
        ensures
            mapped.token == self.token,
            !mapped.is_none,
            f.ensures((self.value, &*self.token.value), mapped.value),
    {
        let value = f(self.value, self.token.get());
        Lexeme { token: self.token, is_none: false, value }
    }

}

impl<T: Default> Default for Lexeme<T> {
    /// The lexeme of the default token with the default value.
    fn default() -> (lexeme: Self)
        ensures
            is_default_token(lexeme.token),
            !lexeme.is_none,
            T::default.ensures((), lexeme.value),
    {
        Lexeme { token: default_token(), value: T::default(), is_none: false }
    }
}

/// A value whose lexemes can be walked by a walker of type `W`.
pub trait LexemeWalkable<W>: Sized {
    /// The walker after it has walked `value`.
    spec fn lexeme_walked(value: &Lexeme<Self>, walker: W) -> W;

    /// Walks `value` with `walker`.
    fn lexeme_walk(value: &Lexeme<Self>, walker: &mut W)
        ensures
            *final(walker) == Self::lexeme_walked(value, *old(walker)),
    ;
}

/// A value whose lexemes can be listened to by a listener of type `L`.
pub trait LexemeListenable<L>: Sized {
    /// The listener after it has listened to `value`.
    spec fn lexeme_listened(value: &Lexeme<Self>, listener: L) -> L;

    /// Lets `listener` listen to `value`.
    fn lexeme_listen(value: &Lexeme<Self>, listener: &mut L)
        ensures
            *final(listener) == Self::lexeme_listened(value, *old(listener)),
    ;
}

/// The lexeme of an optional value is walked by walking the value, where
/// there is one.
impl<W, T: Walkable<W>> LexemeWalkable<W> for Option<T> {
    open spec fn lexeme_walked(value: &Lexeme<Self>, walker: W) -> W {
        match value.value {
            Some(held) => held.walked(walker),
            None => walker,
        }
    }

    fn lexeme_walk(value: &Lexeme<Self>, walker: &mut W) {
        match &value.value {
            Some(held) => held.walk(walker),
            None => {},
        }
    }
}

/// A lexeme is listened to as its value says.
impl<L, T: LexemeListenable<L>> Listenable<L> for Lexeme<T> {
    open spec fn listened(&self, listener: L) -> L {
        T::lexeme_listened(self, listener)
    }

    fn listen(&self, listener: &mut L) {
        T::lexeme_listen(self, listener)
    }
}

/// A lexeme is walked as its value says.
impl<W, T: LexemeWalkable<W>> Walkable<W> for Lexeme<T> {
    open spec fn walked(&self, walker: W) -> W {
        T::lexeme_walked(self, walker)
    }

    fn walk(&self, walker: &mut W) {
        T::lexeme_walk(self, walker)
    }
}

/// The only token under a lexeme is its own.
impl<T> HasTokens for Lexeme<T> {
    open spec fn spec_tokens(&self) -> Seq<Intern<Spanned<Token>>> {
        seq![self.token]
    }

    fn tokens(&self) -> (tokens: Vec<Intern<Spanned<Token>>>) {
        let mut tokens: Vec<Intern<Spanned<Token>>> = Vec::new();
        tokens.push(self.token.share());
        tokens
    }
}

impl<T> Located for Lexeme<T> {
    open spec fn spec_location(&self) -> Loc {
        self.token.value.span
    }

    fn location(&self) -> (loc: Loc) {
        self.token.value.span
    }
}

/// The token that stands for a construct when the construct is read as a
/// lexeme: its first child where that is a token, and the token of unreadable
/// text elsewhere.
pub open spec fn single_token(children: Seq<Named<Child>>) -> TokenView {
    if children.len() > 0 && children[0].value is Token {
        children[0].value->Token_0.value.value@
    } else {
        Token::Error@
    }
}

impl Tree {
    /// The token that stands for this construct when it is read as a lexeme.
    pub fn single(&self) -> (token: Token)
        ensures
            token@ == single_token(self.children@),
    {
        if self.children.len() > 0 {
            match &self.children[0].value {
                Child::Token(token) => token.value.value.duplicate(),
                Child::Tree(_) => Token::Error,
            }
        } else {
            Token::Error
        }
    }
}

/// The tree value of the default lexeme of type `T`: the terminal of the token
/// of unreadable text, read from nowhere, with the value that stands where
/// none is read.
pub open spec fn default_lexeme_value<T: Terminal>() -> TreeValue {
    TreeValue::Token {
        token: Token::Error@,
        span: Loc::Synthetic,
        is_none: false,
        held: Some(T::blank()),
    }
}

/// The untyped form of the value of type `T` that goes with `token`: the
/// value read from it, or the one that stands where none is read.
pub open spec fn value_for<T: Terminal>(token: TokenView) -> StowedView {
    if T::reads(token) {
        T::read(token)
    } else {
        T::blank()
    }
}

/// The value of type `T` that goes with `token`.
fn read_value<T: Terminal>(token: &Intern<Spanned<Token>>) -> (value: T)
    ensures
        value.stowed() == value_for::<T>(token.value.value@),
{
    match T::terminal(token.share()) {
        Some(value) => value,
        None => T::missing(),
    }
}

/// Whether the terminal `tree` is one of a lexeme of type `T`: it stows a
/// value of the type, or it stows nothing and a value of the type can be read
/// from its token.
pub open spec fn is_lexeme<T: Terminal>(tree: TreeValue) -> bool {
    tree matches TreeValue::Token { token, held, .. } && match held {
        Some(stowed) => T::restores(stowed),
        None => T::reads(token),
    }
}

/// A lexeme stands for the terminal of its token, with its value stowed and
/// with its mark of standing in place of one that is not there. Built from a
/// terminal that stows a value of the type, it is the lexeme of that token
/// with that value; from a terminal that stows nothing but whose token is of
/// the type, the lexeme of that token with the value read from it; either way
/// it keeps the mark of the terminal. Built from a terminal that stows a value
/// of another type, or one that stows nothing and whose token is not of the
/// type, it is the default lexeme. Built from a structured node, it is the
/// lexeme of the token that stands for the construct, at the location of the
/// construct, or the default lexeme where the construct has no children;
/// built from the absent marker, the default lexeme marked as standing in
/// place of one that is not there; built from anything else, the default
/// lexeme.
impl<T: Terminal> Node for Lexeme<T> {
    open spec fn tree(&self) -> TreeValue {
        TreeValue::Token {
            token: self.token.value.value@,
            span: self.token.value.span,
            is_none: self.is_none,
            held: Some(self.value.stowed()),
        }
    }

    open spec fn built(tree: TreeValue) -> TreeValue {
        match tree {
            TreeValue::Leaf { data, .. } => if data.value.value.children@.len() == 0 {
                default_lexeme_value::<T>()
            } else {
                TreeValue::Token {
                    token: single_token(data.value.value.children@),
                    span: data.value.span,
                    is_none: false,
                    held: Some(value_for::<T>(single_token(data.value.value.children@))),
                }
            },
            TreeValue::Token { token, span, is_none, held } => match held {
                Some(stowed) => if T::restores(stowed) {
                    tree
                } else {
                    default_lexeme_value::<T>()
                },
                None => if T::reads(token) {
                    TreeValue::Token { token, span, is_none, held: Some(T::read(token)) }
                } else {
                    default_lexeme_value::<T>()
                },
            },
            TreeValue::Absent => TreeValue::Token {
                token: Token::Error@,
                span: Loc::Synthetic,
                is_none: true,
                held: Some(T::blank()),
            },
            _ => default_lexeme_value::<T>(),
        }
    }

    fn new(tree: GreenTree) -> (lexeme: Self)
        ensures
            match tree {
                GreenTree::Token(held) => if is_lexeme::<T>(tree@) {
                    lexeme.token == held.token
                } else {
                    is_default_token(lexeme.token)
                },
                GreenTree::Leaf(leaf) => if leaf.data.value.value.children@.len() == 0 {
                    is_default_token(lexeme.token)
                } else {
                    lexeme.token.slot == SYNTHETIC
                },
                _ => is_default_token(lexeme.token),
            },
    {
        match tree {
            GreenTree::Leaf(leaf) => {
                if leaf.data.value.value.children.len() == 0 {
                    Lexeme { token: default_token(), value: T::missing(), is_none: false }
                } else {
                    let first = leaf.data.value.value.single();
                    let token = Intern::synthetic(leaf.data.value.replace(first));
                    let value = read_value::<T>(&token);
                    Lexeme { token, value, is_none: false }
                }
            },
            GreenTree::Token(held) => {
                let value = match &held.value {
                    Some(stowed) => T::restore(stowed),
                    None => T::terminal(held.token.share()),
                };
                match value {
                    Some(value) => Lexeme { token: held.token, value, is_none: held.is_none },
                    None => Lexeme { token: default_token(), value: T::missing(), is_none: false },
                }
            },
            GreenTree::Absent => Lexeme {
                token: default_token(),
                value: T::missing(),
                is_none: true,
            },
            _ => Lexeme { token: default_token(), value: T::missing(), is_none: false },
        }
    }

    fn unwrap(self) -> (tree: GreenTree)
        ensures
            tree matches GreenTree::Token(held) && held.token == self.token && held.is_none
                == self.is_none,
    {
        let stowed = self.value.stow();
        GreenTree::Token(Lexeme { token: self.token, value: Some(stowed), is_none: self.is_none })
    }

    fn duplicate(&self) -> (copy: Self)
        ensures
            copy.token == self.token,
            copy.is_none == self.is_none,
            copy.value.stowed() == self.value.stowed(),
    {
        proof {
            self.value.lemma_stowed_restores();
        }
        let value = match T::restore(&self.value.stow()) {
            Some(value) => value,
            None => T::missing(),
        };
        Lexeme { token: self.token.share(), value, is_none: self.is_none }
    }

    open spec fn restored(tree: TreeValue) -> TreeValue {
        Self::built(tree)
    }

    fn restore(tree: GreenTree) -> (lexeme: Self) {
        <Lexeme<T> as Node>::new(tree)
    }

    proof fn lemma_restored(&self) {
        self.value.lemma_stowed_restores();
    }
}

/// A tree value of the wrong shape is read as the default lexeme: a broken
/// region, a group, a structured node without children, and a terminal that
/// is not one of a lexeme of the type, be it that it stows a value of another
/// type or that it stows nothing and no value of the type can be read from
/// its token.
pub proof fn lemma_wrong_shape_gives_default<T: Terminal>(tree: TreeValue)
    requires
        tree is Empty || tree is Vec || (tree is Token && !is_lexeme::<T>(tree)) || (
        tree matches TreeValue::Leaf { data, .. } && data.value.value.children@.len() == 0),
    ensures
        <Lexeme<T> as Node>::built(tree) == default_lexeme_value::<T>(),
        tree is Empty || tree is Token ==> !Value::<Lexeme<T>>::steps(tree) && location_as::<
            Lexeme<T>,
        >(tree) == Loc::Synthetic,
{
}

/// Every lexeme round-trips: built again from what it unwraps to, it has the
/// same token, the same value and the same mark.
pub proof fn lemma_lexeme_round_trips<T: Terminal>(lexeme: Lexeme<T>)
    ensures
        round_trips(lexeme),
{
    lexeme.value.lemma_stowed_restores();
}

/// A lexeme is read from the tokens that its value is read from, and from
/// the terminals of lexemes of its type.
impl<T: Terminal> Leaf for Lexeme<T> {
    open spec fn makes(tree: TreeValue) -> bool {
        is_lexeme::<T>(tree)
    }

    open spec fn reads(token: TokenView) -> bool {
        T::reads(token)
    }

    fn make(tree: GreenTree) -> (node: Option<Self>)
        ensures
            node matches Some(lexeme) ==> tree is Token && lexeme.token == tree->Token_0.token,
    {
        match tree {
            GreenTree::Token(held) => {
                let value = match &held.value {
                    Some(stowed) => T::restore(stowed),
                    None => T::terminal(held.token.share()),
                };
                match value {
                    Some(value) => Some(
                        Lexeme { token: held.token, value, is_none: held.is_none },
                    ),
                    None => None,
                }
            },
            _ => None,
        }
    }

    fn terminal(token: Intern<Spanned<Token>>) -> (node: Option<Self>)
        ensures
            node matches Some(lexeme) ==> lexeme.token == token && !lexeme.is_none
                && lexeme.value.stowed() == T::read(token.value.value@),
    {
        match T::terminal(token.share()) {
            Some(value) => Some(Lexeme { token, value, is_none: false }),
            None => None,
        }
    }
}

} // verus!
