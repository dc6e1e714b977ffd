//! Bit-flag types for capability kinds, target scopes and identity-change
//! options, plus the small enums shared across the crate.

use vstd::prelude::*;

verus! {

/// One kernel privilege unit, addressed by its numeric identifier.
pub type Capability = u32;

/// A process identifier.
pub type Pid = i32;

/// Bit flags naming the four per-process capability sets (kinds).
/// Combinable with `union`; a query may test a combination.
#[derive(Clone, Copy, PartialEq, Eq, Structural, Debug)]
pub struct Type {
    pub bits: u32,
}

impl Type {
    /// The effective capability set.
    #[allow(non_snake_case)]
    #[verifier::allow_in_spec]
    pub fn EFFECTIVE() -> Type
        returns
            (Type { bits: 1 }),
    {
        Type { bits: 1 }
    }

    /// The permitted capability set.
    #[allow(non_snake_case)]
    #[verifier::allow_in_spec]
    pub fn PERMITTED() -> Type
        returns
            (Type { bits: 2 }),
    {
        Type { bits: 2 }
    }

    /// The inheritable capability set.
    #[allow(non_snake_case)]
    #[verifier::allow_in_spec]
    pub fn INHERITABLE() -> Type
        returns
            (Type { bits: 4 }),
    {
        Type { bits: 4 }
    }

    /// The bounding set.
    #[allow(non_snake_case)]
    #[verifier::allow_in_spec]
    pub fn BOUNDING_SET() -> Type
        returns
            (Type { bits: 8 }),
    {
        Type { bits: 8 }
    }

    /// The raw bit representation, for handing to a kernel-facing layer.
    pub fn bits(&self) -> (r: u32)
        ensures
            r == self.bits,
    {
        self.bits
    }

    pub fn union(self, other: Type) -> (r: Type)
        ensures
            r.bits == (self.bits | other.bits),
    {
        Type { bits: self.bits | other.bits }
    }

    pub fn intersection(self, other: Type) -> (r: Type)
        ensures
            r.bits == (self.bits & other.bits),
    {
        Type { bits: self.bits & other.bits }
    }

    /// True when every flag of `other` is also set in `self`.
    pub fn contains(self, other: Type) -> (r: bool)
        ensures
            r == (self.bits & other.bits == other.bits),
    {
        self.bits & other.bits == other.bits
    }
}

/// Bit flags selecting which kernel-held side an operation works on: the
/// process capability sets, the bounding set, or both.
#[derive(Clone, Copy, PartialEq, Eq, Structural, Debug)]
pub struct Scope {
    pub bits: u32,
}

impl Scope {
    /// The process capability sets (effective, permitted, inheritable).
    #[allow(non_snake_case)]
    #[verifier::allow_in_spec]
    pub fn CAPS() -> Scope
        returns
            (Scope { bits: 16 }),
    {
        Scope { bits: 16 }
    }

    /// The bounding set.
    #[allow(non_snake_case)]
    #[verifier::allow_in_spec]
    pub fn BOUNDS() -> Scope
        returns
            (Scope { bits: 32 }),
    {
        Scope { bits: 32 }
    }

    /// Both the process capability sets and the bounding set.
    #[allow(non_snake_case)]
    #[verifier::allow_in_spec]
    pub fn BOTH() -> Scope
        returns
            (Scope { bits: 48 }),
    {
        Scope { bits: 48 }
    }

    /// True when the scope selects the process capability sets.
    pub open spec fn sel_caps(self) -> bool {
        self.bits & 16 != 0
    }

    /// True when the scope selects the bounding set.
    pub open spec fn sel_bounds(self) -> bool {
        self.bits & 32 != 0
    }

    /// The raw bit representation, for handing to a kernel-facing layer.
    pub fn bits(&self) -> (r: u32)
        ensures
            r == self.bits,
    {
        self.bits
    }

    pub fn union(self, other: Scope) -> (r: Scope)
        ensures
            r.bits == (self.bits | other.bits),
    {
        Scope { bits: self.bits | other.bits }
    }

    pub fn intersection(self, other: Scope) -> (r: Scope)
        ensures
            r.bits == (self.bits & other.bits),
    {
        Scope { bits: self.bits & other.bits }
    }

    /// True when every flag of `other` is also set in `self`.
    pub fn contains(self, other: Scope) -> (r: bool)
        ensures
            r == (self.bits & other.bits == other.bits),
    {
        self.bits & other.bits == other.bits
    }
}

/// Bit flags modifying an identity transition: how supplementary groups are
/// handled and whether the bounding set is cleared.
#[derive(Clone, Copy, PartialEq, Eq, Structural, Debug)]
pub struct Flags {
    pub bits: u32,
}

impl Flags {
    /// Drop all supplementary groups during the transition.
    #[allow(non_snake_case)]
    #[verifier::allow_in_spec]
    pub fn DROP_SUPP_GRP() -> Flags
        returns
            (Flags { bits: 1 }),
    {
        Flags { bits: 1 }
    }

    /// Clear the bounding set during the transition.
    #[allow(non_snake_case)]
    #[verifier::allow_in_spec]
    pub fn CLEAR_BOUNDING() -> Flags
        returns
            (Flags { bits: 2 }),
    {
        Flags { bits: 2 }
    }

    /// Initialise supplementary groups for the new identity.
    #[allow(non_snake_case)]
    #[verifier::allow_in_spec]
    pub fn INIT_SUPP_GRP() -> Flags
        returns
            (Flags { bits: 4 }),
    {
        Flags { bits: 4 }
    }

    /// The raw bit representation, for handing to a kernel-facing layer.
    pub fn bits(&self) -> (r: u32)
        ensures
            r == self.bits,
    {
        self.bits
    }

    pub fn union(self, other: Flags) -> (r: Flags)
        ensures
            r.bits == (self.bits | other.bits),
    {
        Flags { bits: self.bits | other.bits }
    }

    pub fn intersection(self, other: Flags) -> (r: Flags)
        ensures
            r.bits == (self.bits & other.bits),
    {
        Flags { bits: self.bits & other.bits }
    }

    /// True when every flag of `other` is also set in `self`.
    pub fn contains(self, other: Flags) -> (r: bool)
        ensures
            r == (self.bits & other.bits == other.bits),
    {
        self.bits & other.bits == other.bits
    }
}

/// The scope constants select what their names say: `CAPS` the process
/// capability sets alone, `BOUNDS` the bounding set alone, `BOTH` both.
pub proof fn lemma_scope_selection()
    ensures
        Scope::BOTH().sel_caps(),
        Scope::BOTH().sel_bounds(),
        Scope::CAPS().sel_caps(),
        !Scope::CAPS().sel_bounds(),
        Scope::BOUNDS().sel_bounds(),
        !Scope::BOUNDS().sel_caps(),
{
    assert(48u32 & 16 == 16 && 48u32 & 32 == 32 && 16u32 & 16 == 16 && 16u32 & 32 == 0 && 32u32
        & 32 == 32 && 32u32 & 16 == 0) by (bit_vector);
}

/// Whether an update adds or drops a capability bit.
#[derive(Clone, Copy, PartialEq, Eq, Structural, Debug)]
pub enum Action {
    DROP,
    ADD,
}

/// Whether a rendering call writes to standard output or returns a buffer.
#[derive(Clone, Copy, PartialEq, Eq, Structural, Debug)]
pub enum Print {
    STDOUT,
    BUFFER,
}

/// Classification of a capability set against the full set: no bits set,
/// some but not all, all bits set, or the comparison could not be made.
#[derive(Clone, Copy, PartialEq, Eq, Structural, Debug)]
pub enum HaveCapsResult {
    FAIL,
    NONE,
    PARTIAL,
    FULL,
}

/// One instruction of an update batch: add or drop `capability` in every
/// kind selected by `cap_type`.
#[derive(Clone, Copy)]
pub struct CUpdate {
    pub action: Action,
    pub cap_type: Type,
    pub capability: Capability,
}

} // verus!
