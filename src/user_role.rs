//! The role that an identity holds in the governance engine.
use vstd::prelude::*;

verus! {

/// What an identity may do. Every identity holds exactly one role; one that
/// was never given another holds `NoRole`.
#[derive(Clone, Copy, Debug, PartialEq, Eq, Structural)]
pub enum UserRole {
    /// No privilege.
    NoRole,
    /// May propose actions, but not sign or perform them.
    Proposer,
    /// May propose, sign, unsign, discard and perform actions.
    BoardMember,
}

impl UserRole {
    /// Whether the role allows proposing actions.
    pub fn can_propose(&self) -> (r: bool)
        ensures
            r == (*self != UserRole::NoRole),
    {
        match self {
            UserRole::NoRole => false,
            _ => true,
        }
    }

    /// Whether the role allows signing and performing actions.
    pub fn can_sign(&self) -> (r: bool)
        ensures
            r == (*self == UserRole::BoardMember),
    {
        match self {
            UserRole::BoardMember => true,
            _ => false,
        }
    }
}

} // verus!
