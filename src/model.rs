use vstd::prelude::*;

use crate::types::{Error, OwnershipRecord};

verus! {

/// The abstract claim store: each present key maps to its ownership record.
pub type ClaimStore = Map<Seq<u8>, OwnershipRecord>;

/// The record held under `claim`, or `None` when the key is absent.
pub open spec fn lookup(m: ClaimStore, claim: Seq<u8>) -> Option<OwnershipRecord> {
    if m.contains_key(claim) {
        Some(m[claim])
    } else {
        None
    }
}

/// The error that a create of `claim` meets, if any.
pub open spec fn create_error(m: ClaimStore, claim: Seq<u8>) -> Option<Error> {
    if m.contains_key(claim) {
        Some(Error::AlreadyClaimed)
    } else {
        None
    }
}

/// The store after `caller` tries to create `claim` at time `now`.
pub open spec fn after_create(m: ClaimStore, caller: u64, claim: Seq<u8>, now: u64) -> ClaimStore {
    if create_error(m, claim) is None {
        m.insert(claim, OwnershipRecord { owner: caller, recorded_at: now })
    } else {
        m
    }
}

/// The error that a revoke or transfer of `claim` by `caller` meets, if any:
/// absence is checked before ownership.
pub open spec fn owner_error(m: ClaimStore, caller: u64, claim: Seq<u8>) -> Option<Error> {
    if !m.contains_key(claim) {
        Some(Error::NotFound)
    } else if m[claim].owner != caller {
        Some(Error::NotOwner)
    } else {
        None
    }
}

/// The store after `caller` tries to revoke `claim`.
pub open spec fn after_revoke(m: ClaimStore, caller: u64, claim: Seq<u8>) -> ClaimStore {
    if owner_error(m, caller, claim) is None {
        m.remove(claim)
    } else {
        m
    }
}

/// The store after `caller` tries to hand `claim` to `new_owner` at time `now`.
pub open spec fn after_transfer(
    m: ClaimStore,
    caller: u64,
    claim: Seq<u8>,
    new_owner: u64,
    now: u64,
) -> ClaimStore {
    if owner_error(m, caller, claim) is None {
        m.insert(claim, OwnershipRecord { owner: new_owner, recorded_at: now })
    } else {
        m
    }
}

} // verus!
