//! The access rules and roles of a group.
use vstd::prelude::*;

verus! {

/// Who may do something in a group.
#[derive(Debug, Clone, Copy, PartialEq, Eq, Structural)]
pub enum AccessRequired {
    Unknown,
    Any,
    Member,
    Administrator,
    Unsatisfiable,
}

impl DeepView for AccessRequired {
    type V = AccessRequired;

    open spec fn deep_view(&self) -> AccessRequired {
        *self
    }
}

/// What a member of a group is.
#[derive(Debug, Clone, Copy, PartialEq, Eq, Structural)]
pub enum Role {
    Unknown,
    Default,
    Administrator,
}

impl DeepView for Role {
    type V = Role;

    open spec fn deep_view(&self) -> Role {
        *self
    }
}

} // verus!
