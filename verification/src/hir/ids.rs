//! Handles of the interned parts of the intermediate representation.

use vstd::prelude::*;

verus! {

/// Handle of an interned name.
#[derive(Clone, Copy, Debug, PartialEq, Eq, Hash, Structural)]
pub struct NameId(pub usize);

/// Handle of a scope.
#[derive(Clone, Copy, Debug, PartialEq, Eq, Hash, Structural)]
pub struct ScopeId(pub usize);

/// Handle of an interned expression.
#[derive(Clone, Copy, Debug, PartialEq, Eq, Hash, Structural)]
pub struct HirExprId(pub usize);

/// Handle of an interned value.
#[derive(Clone, Copy, Debug, PartialEq, Eq, Hash, Structural)]
pub struct HirValueId(pub usize);

/// Handle of an interned type.
#[derive(Clone, Copy, Debug, PartialEq, Eq, Hash, Structural)]
pub struct HirTypeId(pub usize);

/// Handle of an interned pattern.
#[derive(Clone, Copy, Debug, PartialEq, Eq, Hash, Structural)]
pub struct HirPatternId(pub usize);

/// Handle of an interned statement.
#[derive(Clone, Copy, Debug, PartialEq, Eq, Hash, Structural)]
pub struct HirStmtId(pub usize);

/// Handle of an interned attribute.
#[derive(Clone, Copy, Debug, PartialEq, Eq, Hash, Structural)]
pub struct HirAttrId(pub usize);

} // verus!
