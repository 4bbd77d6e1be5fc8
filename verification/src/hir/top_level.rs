//! Top-level items of the intermediate representation.

use vstd::prelude::*;
use crate::hir::ids::{HirAttrId, HirExprId, HirPatternId, HirTypeId, NameId};

verus! {

/// The persistent hash map of the `im` crate. Nothing is stated of it: the
/// top-level items only carry it.
#[verifier::external_type_specification]
#[verifier::external_body]
#[verifier::reject_recursive_types(K)]
#[verifier::reject_recursive_types(V)]
#[verifier::reject_recursive_types(S)]
pub struct ExImHashMap<K, V, S>(im::HashMap<K, V, S>);

/// `im::HashMap::clone`, as the derived `Clone` of the top-level items calls
/// it. Nothing is stated of its result.
pub assume_specification<K, V, S>[ <im::HashMap<K, V, S> as Clone>::clone ](
    map: &im::HashMap<K, V, S>,
) -> im::HashMap<K, V, S> where K: Clone, V: Clone
;

/// An enum: its signature, its variants by name, and the bindings that belong
/// to it.
#[derive(Hash, Clone, Debug, PartialEq, Eq)]
pub struct HirTopLevelEnum {
    pub signature: HirSignature,
    pub variants: im::HashMap<NameId, HirVariant>,
    pub groups: Vec<HirBindingGroup>,
}

/// A struct: its signature, its fields by name, and the bindings that belong
/// to it.
#[derive(Hash, Clone, Debug, PartialEq, Eq)]
pub struct HirTopLevelStruct {
    pub signature: HirSignature,
    pub fields: im::HashMap<NameId, HirTypeId>,
    pub groups: Vec<HirBindingGroup>,
}

/// A trait: its signature and the bindings that belong to it.
#[derive(Hash, Clone, Debug, PartialEq, Eq)]
pub struct HirTopLevelTrait {
    pub signature: HirSignature,
    pub groups: Vec<HirBindingGroup>,
}

/// The declarations of one name, under its signature.
#[derive(Hash, Clone, Debug, PartialEq, Eq)]
pub struct HirBindingGroup {
    pub signature: HirSignature,
    pub declarations: Vec<HirDeclaration>,
}

/// The kinds of top-level item.
#[derive(Default, Hash, Clone, Debug, PartialEq, Eq)]
pub enum HirTopLevelKind {
    #[default]
    Error,
    HirTopLevelEnum(HirTopLevelEnum),
    HirTopLevelStruct(HirTopLevelStruct),
    HirTopLevelTrait(HirTopLevelTrait),
    HirBindingGroup(HirBindingGroup),
}

/// A top-level item with its attributes and its documentation.
#[derive(Default, Hash, Clone, Debug, PartialEq, Eq)]
pub struct HirTopLevel {
    pub kind: HirTopLevelKind,
    pub attributes: Vec<HirAttrId>,
    pub docs: Vec<HirDoc>,
}

/// A line of documentation.
#[derive(Hash, Clone, Debug, PartialEq, Eq)]
pub struct HirDoc {
    pub text: String,
}

/// A parameter: its name and its type, if it was written.
#[derive(Hash, Clone, Debug, PartialEq, Eq)]
pub struct HirParameterData {
    pub name: NameId,
    pub parameter_type: Option<HirTypeId>,
}

/// How a parameter is passed.
#[derive(Hash, Clone, Debug, PartialEq, Eq)]
pub enum HirParameterKind {
    /// The self parameter.
    This,
    Explicit(HirParameterData),
    Implicit(HirParameterData),
}

/// A signature: a name, its parameters by name, and the type of the result, if
/// it was written.
#[derive(Hash, Clone, Debug, PartialEq, Eq)]
pub struct HirSignature {
    pub name: NameId,
    pub parameters: im::HashMap<NameId, HirParameterKind>,
    pub return_type: Option<HirTypeId>,
}

/// One equation of a binding: the patterns of the arguments and the value.
#[derive(Hash, Clone, Debug, PartialEq, Eq)]
pub struct HirDeclaration {
    pub patterns: Vec<HirPatternId>,
    pub value: HirExprId,
}

/// A variant of an enum: its name and its type.
#[derive(Hash, Clone, Debug, PartialEq, Eq)]
pub struct HirVariant {
    pub name: NameId,
    pub variant_type: HirTypeId,
}

} // verus!
