//! What the derive of the reporter decides: which field of a walker takes the
//! diagnostics.

use vstd::prelude::*;
use crate::text::str_eq;

verus! {

/// A field of the type that the derive is put on: its name, if it has one, and
/// the names of the attributes on it that are a single identifier.
#[derive(Clone, Debug, PartialEq, Eq)]
pub struct Field {
    pub name: Option<String>,
    pub attributes: Vec<String>,
}

/// What the derive is put on.
#[derive(Clone, Debug, PartialEq, Eq)]
pub enum Input {
    /// A struct, with its fields in order.
    Struct(Vec<Field>),
    /// An enum or a union.
    Other,
}

/// What the derive expands to.
#[derive(Clone, Copy, Debug, PartialEq, Eq, Structural)]
pub enum Expansion {
    /// An error: the derive is not on a struct. Nothing is generated.
    NotAStruct,
    /// Nothing: no field is marked as the reporter.
    Nothing,
    /// The impl that forwards every diagnostic to the field at this position.
    Forward(usize),
}

/// The attribute that marks the field that takes the diagnostics.
pub open spec fn marker() -> Seq<char> {
    "ast_reporter"@
}

/// Whether one of `attributes` is the marker.
pub open spec fn marked(attributes: Seq<String>) -> bool {
    exists|i: int| 0 <= i < attributes.len() && (#[trigger] attributes[i])@ == marker()
}

/// Decides [`marked`].
pub fn is_marked(attributes: &Vec<String>) -> (found: bool)
    ensures
        found == marked(attributes@),
{
    let mut i: usize = 0;
    while i < attributes.len()
        invariant
            0 <= i <= attributes@.len(),
            forall|k: int| 0 <= k < i ==> (#[trigger] attributes@[k])@ != marker(),
        decreases attributes@.len() - i,
    {
        if str_eq(attributes[i].as_str(), "ast_reporter") {
            return true;
        }
        i += 1;
    }
    false
}

/// Whether `at` is the position of the first marked field of `fields`.
pub open spec fn first_marked(fields: Seq<Field>, at: int) -> bool {
    &&& 0 <= at < fields.len()
    &&& marked(fields[at].attributes@)
    &&& forall|k: int| 0 <= k < at ==> !marked((#[trigger] fields[k]).attributes@)
}

/// The position of the first field that is marked as the reporter, if there
/// is one.
pub fn reporter_field(fields: &Vec<Field>) -> (found: Option<usize>)
    ensures
        match found {
            Some(at) => first_marked(fields@, at as int),
            None => forall|k: int| 0 <= k < fields@.len() ==> !marked((#[trigger] fields@[k]).attributes@),
        },
{
    let mut i: usize = 0;
    while i < fields.len()
        invariant
            0 <= i <= fields@.len(),
            forall|k: int| 0 <= k < i ==> !marked((#[trigger] fields@[k]).attributes@),
        decreases fields@.len() - i,
    {
        if is_marked(&fields[i].attributes) {
            return Some(i);
        }
        i += 1;
    }
    None
}

/// What the derive expands to on `input`: an error where it is not a struct,
/// the forwarding impl for the first field marked as the reporter, and
/// nothing where no field is marked.
pub fn expand_ast_derive_step(input: &Input) -> (expansion: Expansion)
    ensures
        match *input {
            Input::Other => expansion == Expansion::NotAStruct,
            Input::Struct(fields) => match expansion {
                Expansion::Forward(at) => first_marked(fields@, at as int),
                Expansion::Nothing => forall|k: int|
                    0 <= k < fields@.len() ==> !marked((#[trigger] fields@[k]).attributes@),
                Expansion::NotAStruct => false,
            },
        },
{
    match input {
        Input::Other => Expansion::NotAStruct,
        Input::Struct(fields) => match reporter_field(fields) {
            Some(at) => Expansion::Forward(at),
            None => Expansion::Nothing,
        },
    }
}

} // verus!
