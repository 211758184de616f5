use vstd::prelude::*;

use crate::model::{
    after_create, after_revoke, after_transfer, create_error, lookup, owner_error, ClaimStore,
};
use crate::types::{Error, Event, OwnershipRecord};

verus! {

/// One stored claim: its key and its current ownership record.
struct Entry {
    claim: Vec<u8>,
    record: OwnershipRecord,
}

/// Whether two byte strings are equal, element by element.
fn bytes_eq(a: &Vec<u8>, b: &Vec<u8>) -> (r: bool)
    ensures
        r == (a@ == b@),
{
    if a.len() != b.len() {
        return false;
    }
    let mut i: usize = 0;
    while i < a.len()
        invariant
            a@.len() == b@.len(),
            0 <= i <= a@.len(),
            forall|j: int| 0 <= j < i ==> a@[j] == b@[j],
        decreases a@.len() - i,
    {
        if a[i] != b[i] {
            return false;
        }
        i = i + 1;
    }
    assert(a@ =~= b@);
    true
}

/// A byte-for-byte copy of `v`.
fn copy_bytes(v: &Vec<u8>) -> (r: Vec<u8>)
    ensures
        r@ == v@,
{
    let mut r: Vec<u8> = Vec::new();
    let mut i: usize = 0;
    while i < v.len()
        invariant
            0 <= i <= v@.len(),
            r@ == v@.subrange(0, i as int),
        decreases v@.len() - i,
    {
        r.push(v[i]);
        i = i + 1;
    }
    assert(r@ =~= v@);
    r
}

/// The claim store: a map from claim key to ownership record.
///
/// Keys are held in a vector whose entries have pairwise distinct keys;
/// the abstract view is the map from each key to its record.
pub struct Pallet {
    proofs: Vec<Entry>,
    contents: Ghost<Map<Seq<u8>, OwnershipRecord>>,
}

impl Pallet {
    /// The claims currently held, keyed by their bytes.
    pub closed spec fn view(&self) -> ClaimStore {
        self.contents@
    }

    /// The vector and the map describe the same set of claims, one entry per key.
    pub closed spec fn wf(&self) -> bool {
        &&& forall|i: int|
            0 <= i < self.proofs@.len() ==> #[trigger] self.contents@.contains_key(
                self.proofs@[i].claim@,
            ) && self.contents@[self.proofs@[i].claim@] == self.proofs@[i].record
        &&& forall|k: Seq<u8>|
            #[trigger] self.contents@.contains_key(k) ==> exists|i: int|
                0 <= i < self.proofs@.len() && #[trigger] self.proofs@[i].claim@ == k
        &&& forall|i: int, j: int|
            0 <= i < self.proofs@.len() && 0 <= j < self.proofs@.len() && i != j
                ==> #[trigger] self.proofs@[i].claim@ != #[trigger] self.proofs@[j].claim@
    }

    /// An empty ledger: no key is claimed.
    pub fn new() -> (r: Pallet)
        ensures
            r.wf(),
            r@ == ClaimStore::empty(),
    {
        Pallet { proofs: Vec::new(), contents: Ghost(Map::empty()) }
    }

    /// Registers `claim` for `caller` at logical time `now`.
    ///
    /// Fails with `AlreadyClaimed`, changing nothing, when the key is already held.
    pub fn create_claim(&mut self, caller: u64, claim: Vec<u8>, now: u64) -> (r: Result<
        Event,
        Error,
    >)
        requires
            old(self).wf(),
        ensures
            final(self).wf(),
            final(self)@ == after_create(old(self)@, caller, claim@, now),
            match r {
                Ok(e) => create_error(old(self)@, claim@) is None && e.is_created(caller, claim@),
                Err(e) => create_error(old(self)@, claim@) == Some(e),
            },
    {
        if self.find(&claim).is_some() {
            return Err(Error::AlreadyClaimed);
        }
        let key = copy_bytes(&claim);
        let record = OwnershipRecord { owner: caller, recorded_at: now };
        let ghost old_contents = self.contents@;
        let ghost old_proofs = self.proofs@;
        self.proofs.push(Entry { claim: key, record });
        self.contents = Ghost(old_contents.insert(claim@, record));
        proof {
            let n = self.proofs@.len() - 1;
            assert forall|k: Seq<u8>| #[trigger] self.contents@.contains_key(k) implies exists|i: int|
                0 <= i < self.proofs@.len() && #[trigger] self.proofs@[i].claim@ == k by {
                if k != claim@ {
                    assert(old_contents.contains_key(k));
                    let i = choose|i: int| 0 <= i < n && #[trigger] old_proofs[i].claim@ == k;
                    assert(self.proofs@[i] == old_proofs[i]);
                } else {
                    assert(self.proofs@[n].claim@ == k);
                }
            }
        }
        Ok(Event::ClaimCreated(caller, claim))
    }

    /// Deletes `claim`, provided `caller` owns it. The logical time is accepted
    /// for a uniform call interface and takes no part in the decision.
    ///
    /// Fails with `NotFound` when the key is absent, else with `NotOwner` when
    /// another account holds it; a failure changes nothing.
    pub fn revoke_claim(&mut self, caller: u64, claim: Vec<u8>, _now: u64) -> (r: Result<
        Event,
        Error,
    >)
        requires
            old(self).wf(),
        ensures
            final(self).wf(),
            final(self)@ == after_revoke(old(self)@, caller, claim@),
            match r {
                Ok(e) => owner_error(old(self)@, caller, claim@) is None && e.is_revoked(
                    caller,
                    claim@,
                ),
                Err(e) => owner_error(old(self)@, caller, claim@) == Some(e),
            },
    {
        let i = match self.find(&claim) {
            Some(i) => i,
            None => return Err(Error::NotFound),
        };
        if self.proofs[i].record.owner != caller {
            return Err(Error::NotOwner);
        }
        let ghost old_proofs = self.proofs@;
        let ghost old_contents = self.contents@;
        let _removed = self.proofs.remove(i);
        self.contents = Ghost(old_contents.remove(claim@));
        proof {
            assert forall|j: int| 0 <= j < self.proofs@.len() implies #[trigger] self.contents@.contains_key(
                self.proofs@[j].claim@,
            ) && self.contents@[self.proofs@[j].claim@] == self.proofs@[j].record by {
                let oj = if j < i { j } else { j + 1 };
                assert(self.proofs@[j] == old_proofs[oj]);
                assert(old_contents.contains_key(old_proofs[oj].claim@));
                assert(old_proofs[oj].claim@ != old_proofs[i as int].claim@);
            }
            assert forall|k: Seq<u8>| #[trigger] self.contents@.contains_key(k) implies exists|j: int|
                0 <= j < self.proofs@.len() && #[trigger] self.proofs@[j].claim@ == k by {
                let oj = choose|oj: int| 0 <= oj < old_proofs.len() && #[trigger] old_proofs[oj].claim@ == k;
                assert(oj != i);
                let j = if oj < i { oj } else { oj - 1 };
                assert(self.proofs@[j] == old_proofs[oj]);
            }
            assert forall|a: int, b: int|
                0 <= a < self.proofs@.len() && 0 <= b < self.proofs@.len() && a != b
                implies #[trigger] self.proofs@[a].claim@ != #[trigger] self.proofs@[b].claim@ by {
                let oa = if a < i { a } else { a + 1 };
                let ob = if b < i { b } else { b + 1 };
                assert(self.proofs@[a] == old_proofs[oa]);
                assert(self.proofs@[b] == old_proofs[ob]);
            }
        }
        Ok(Event::ClaimRevoked(caller, claim))
    }

    /// Hands `claim` from `caller` to `new_owner`, recording time `now`.
    ///
    /// Fails with `NotFound` when the key is absent, else with `NotOwner` when
    /// another account holds it; a failure changes nothing. A transfer to
    /// `caller` itself is allowed and only refreshes the time.
    pub fn transfer_claim(
        &mut self,
        caller: u64,
        claim: Vec<u8>,
        new_owner: u64,
        now: u64,
    ) -> (r: Result<Event, Error>)
        requires
            old(self).wf(),
        ensures
            final(self).wf(),
            final(self)@ == after_transfer(old(self)@, caller, claim@, new_owner, now),
            match r {
                Ok(e) => owner_error(old(self)@, caller, claim@) is None && e.is_transferred(
                    caller,
                    claim@,
                ),
                Err(e) => owner_error(old(self)@, caller, claim@) == Some(e),
            },
    {
        let i = match self.find(&claim) {
            Some(i) => i,
            None => return Err(Error::NotFound),
        };
        if self.proofs[i].record.owner != caller {
            return Err(Error::NotOwner);
        }
        let ghost old_proofs = self.proofs@;
        let ghost old_contents = self.contents@;
        let record = OwnershipRecord { owner: new_owner, recorded_at: now };
        let held = self.proofs.remove(i);
        self.proofs.insert(i, Entry { claim: held.claim, record });
        self.contents = Ghost(old_contents.insert(claim@, record));
        proof {
            assert(self.proofs@ == old_proofs.update(i as int, Entry { claim: held.claim, record }));
            assert forall|k: Seq<u8>| #[trigger] self.contents@.contains_key(k) implies exists|j: int|
                0 <= j < self.proofs@.len() && #[trigger] self.proofs@[j].claim@ == k by {
                if k == claim@ {
                    assert(self.proofs@[i as int].claim@ == k);
                } else {
                    let j = choose|j: int| 0 <= j < old_proofs.len() && #[trigger] old_proofs[j].claim@ == k;
                    assert(self.proofs@[j] == old_proofs[j]);
                }
            }
        }
        Ok(Event::ClaimTransferred(caller, claim))
    }

    /// The position of `claim` in the vector, if it is stored.
    fn find(&self, claim: &Vec<u8>) -> (r: Option<usize>)
        requires
            self.wf(),
        ensures
            match r {
                Some(i) => i < self.proofs@.len() && self.proofs@[i as int].claim@ == claim@,
                None => !self@.contains_key(claim@),
            },
    {
        let mut i: usize = 0;
        while i < self.proofs.len()
            invariant
                self.wf(),
                0 <= i <= self.proofs@.len(),
                forall|j: int| 0 <= j < i ==> #[trigger] self.proofs@[j].claim@ != claim@,
            decreases self.proofs@.len() - i,
        {
            if bytes_eq(&self.proofs[i].claim, claim) {
                return Some(i);
            }
            i = i + 1;
        }
        None
    }

    /// The ownership record of `claim`, or `None` when nobody holds it.
    pub fn get_claim(&self, claim: &Vec<u8>) -> (r: Option<OwnershipRecord>)
        requires
            self.wf(),
        ensures
            r == lookup(self@, claim@),
    {
        match self.find(claim) {
            Some(i) => Some(self.proofs[i].record),
            None => None,
        }
    }
}

} // verus!
