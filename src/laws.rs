use vstd::prelude::*;

use crate::model::{
    after_create, after_revoke, after_transfer, create_error, lookup, owner_error, ClaimStore,
};
use crate::types::{Error, OwnershipRecord};

verus! {

/// In a fresh ledger no key is held, and a transition on one key leaves
/// every other key as it was: a key that was never created stays absent.
pub proof fn lemma_uncreated_key_is_absent(
    m: ClaimStore,
    key: Seq<u8>,
    other: Seq<u8>,
    caller: u64,
    new_owner: u64,
    now: u64,
)
    requires
        key != other,
    ensures
        lookup(ClaimStore::empty(), key) is None,
        lookup(after_create(m, caller, other, now), key) == lookup(m, key),
        lookup(after_revoke(m, caller, other), key) == lookup(m, key),
        lookup(after_transfer(m, caller, other, new_owner, now), key) == lookup(m, key),
{
}

/// A successful create records the caller as owner, at the time given.
pub proof fn lemma_create_records_owner(m: ClaimStore, caller: u64, claim: Seq<u8>, now: u64)
    requires
        create_error(m, claim) is None,
    ensures
        lookup(after_create(m, caller, claim, now), claim) == Some(
            OwnershipRecord { owner: caller, recorded_at: now },
        ),
{
}

/// After a successful create, a second create of the same key, by anyone and
/// at any time, fails with `AlreadyClaimed` and leaves the record unchanged.
pub proof fn lemma_second_create_fails(
    m: ClaimStore,
    caller: u64,
    claim: Seq<u8>,
    now: u64,
    second_caller: u64,
    second_now: u64,
)
    requires
        create_error(m, claim) is None,
    ensures
        create_error(after_create(m, caller, claim, now), claim) == Some(Error::AlreadyClaimed),
        after_create(after_create(m, caller, claim, now), second_caller, claim, second_now)
            == after_create(m, caller, claim, now),
{
}

/// A revoke succeeds exactly when the caller owns the claim, and afterwards
/// the key is absent.
pub proof fn lemma_revoke_iff_owner(m: ClaimStore, caller: u64, claim: Seq<u8>)
    ensures
        owner_error(m, caller, claim) is None <==> (lookup(m, claim) matches Some(rec)
            && rec.owner == caller),
        owner_error(m, caller, claim) is None ==> lookup(after_revoke(m, caller, claim), claim)
            is None,
{
}

/// A revoke of an absent key fails with `NotFound`; one by another account
/// fails with `NotOwner`; either way the store is unchanged.
pub proof fn lemma_revoke_failures(m: ClaimStore, caller: u64, claim: Seq<u8>)
    ensures
        !m.contains_key(claim) ==> owner_error(m, caller, claim) == Some(Error::NotFound),
        m.contains_key(claim) && m[claim].owner != caller ==> owner_error(m, caller, claim)
            == Some(Error::NotOwner),
        owner_error(m, caller, claim) is Some ==> after_revoke(m, caller, claim) == m,
{
}

/// A transfer succeeds exactly when the caller owns the claim, and afterwards
/// the new owner holds it, recorded at the time given.
pub proof fn lemma_transfer_iff_owner(
    m: ClaimStore,
    caller: u64,
    claim: Seq<u8>,
    new_owner: u64,
    now: u64,
)
    ensures
        owner_error(m, caller, claim) is None <==> (lookup(m, claim) matches Some(rec)
            && rec.owner == caller),
        owner_error(m, caller, claim) is None ==> lookup(
            after_transfer(m, caller, claim, new_owner, now),
            claim,
        ) == Some(OwnershipRecord { owner: new_owner, recorded_at: now }),
{
}

/// A transfer of an absent key fails with `NotFound`; one by another account
/// fails with `NotOwner`; either way the store is unchanged.
pub proof fn lemma_transfer_failures(
    m: ClaimStore,
    caller: u64,
    claim: Seq<u8>,
    new_owner: u64,
    now: u64,
)
    ensures
        !m.contains_key(claim) ==> owner_error(m, caller, claim) == Some(Error::NotFound),
        m.contains_key(claim) && m[claim].owner != caller ==> owner_error(m, caller, claim)
            == Some(Error::NotOwner),
        owner_error(m, caller, claim) is Some ==> after_transfer(m, caller, claim, new_owner, now)
            == m,
{
}

/// Create, revoke, then create again by the same caller succeeds each time and
/// ends in the store that the last create alone would have made: the same
/// owner, recorded at the second create's time.
pub proof fn lemma_create_revoke_create(
    m: ClaimStore,
    caller: u64,
    claim: Seq<u8>,
    first_now: u64,
    second_now: u64,
)
    requires
        create_error(m, claim) is None,
    ensures
        ({
            let m1 = after_create(m, caller, claim, first_now);
            let m2 = after_revoke(m1, caller, claim);
            let m3 = after_create(m2, caller, claim, second_now);
            &&& owner_error(m1, caller, claim) is None
            &&& m2 == m
            &&& create_error(m2, claim) is None
            &&& m3 == after_create(m, caller, claim, second_now)
            &&& lookup(m3, claim) == Some(OwnershipRecord { owner: caller, recorded_at: second_now })
        }),
{
    let m1 = after_create(m, caller, claim, first_now);
    let m2 = after_revoke(m1, caller, claim);
    assert(m2 =~= m);
}

} // verus!
