use vstd::prelude::*;

verus! {

/// Who holds a claim, and at which logical time that ownership was established.
#[derive(Clone, Copy, Debug, PartialEq, Eq, Structural)]
pub struct OwnershipRecord {
    pub owner: u64,
    pub recorded_at: u64,
}

/// Why a transition was rejected. A rejected transition leaves the store untouched.
#[derive(Clone, Copy, Debug, PartialEq, Eq, Structural)]
pub enum Error {
    /// A claim was created on a key that is already present.
    AlreadyClaimed,
    /// A revoke or transfer named a key that is not present.
    NotFound,
    /// A revoke or transfer came from an account that does not own the claim.
    NotOwner,
}

/// What a successful transition reports to the host: the acting account and the claim key.
#[derive(Clone, Debug, PartialEq, Eq)]
pub enum Event {
    ClaimCreated(u64, Vec<u8>),
    ClaimRevoked(u64, Vec<u8>),
    ClaimTransferred(u64, Vec<u8>),
}

impl Event {
    /// Reports a create of `claim` by `actor`.
    pub open spec fn is_created(&self, actor: u64, claim: Seq<u8>) -> bool {
        self matches Event::ClaimCreated(a, c) && a == actor && c@ == claim
    }

    /// Reports a revoke of `claim` by `actor`.
    pub open spec fn is_revoked(&self, actor: u64, claim: Seq<u8>) -> bool {
        self matches Event::ClaimRevoked(a, c) && a == actor && c@ == claim
    }

    /// Reports a transfer of `claim` away from `actor`.
    pub open spec fn is_transferred(&self, actor: u64, claim: Seq<u8>) -> bool {
        self matches Event::ClaimTransferred(a, c) && a == actor && c@ == claim
    }
}

} // verus!
