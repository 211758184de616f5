use poe::{Error, OwnershipRecord, Pallet};

// The host's logical time at which every call below is made.
const NOW: u64 = 0;

fn record(owner: u64, recorded_at: u64) -> Option<OwnershipRecord> {
    Some(OwnershipRecord { owner, recorded_at })
}

#[test]
fn create_claim_works() {
    let mut ledger = Pallet::new();
    let claim = vec![0, 1];
    assert!(ledger.create_claim(1, claim.clone(), NOW).is_ok());
    assert_eq!(ledger.get_claim(&claim), record(1, NOW));
}

#[test]
fn create_claim_failed_when_claim_already_exist() {
    let mut ledger = Pallet::new();
    let claim = vec![0, 1];
    let _ = ledger.create_claim(1, claim.clone(), NOW);
    assert_eq!(ledger.create_claim(1, claim.clone(), NOW), Err(Error::AlreadyClaimed));
    assert_eq!(ledger.get_claim(&claim), record(1, NOW));
}

#[test]
fn revoke_claim_works() {
    let mut ledger = Pallet::new();
    let claim = vec![0, 1];
    let _ = ledger.create_claim(1, claim.clone(), NOW);
    assert!(ledger.revoke_claim(1, claim.clone(), NOW).is_ok());
    assert_eq!(ledger.get_claim(&claim), None);
}

#[test]
fn revoke_claim_failed_when_claim_not_exist() {
    let mut ledger = Pallet::new();
    let claim = vec![0, 1];
    assert_eq!(ledger.revoke_claim(1, claim.clone(), NOW), Err(Error::NotFound));
    assert_eq!(ledger.get_claim(&claim), None);
}

#[test]
fn revoke_claim_failed_when_signed_user_not_owner() {
    let mut ledger = Pallet::new();
    let claim = vec![0, 1];
    let _ = ledger.create_claim(1, claim.clone(), NOW);
    assert_eq!(ledger.revoke_claim(2, claim.clone(), NOW), Err(Error::NotOwner));
    assert_eq!(ledger.get_claim(&claim), record(1, NOW));
}

#[test]
fn transfer_claim_works() {
    let mut ledger = Pallet::new();
    let claim = vec![0, 1];
    let _ = ledger.create_claim(1, claim.clone(), NOW);
    let _ = ledger.transfer_claim(1, claim.clone(), 2, NOW);
    assert_eq!(ledger.get_claim(&claim), record(2, NOW));
}

#[test]
fn transfer_claim_failed_when_claim_not_exist() {
    let mut ledger = Pallet::new();
    let claim = vec![0, 1];
    assert_eq!(ledger.transfer_claim(1, claim.clone(), 2, NOW), Err(Error::NotFound));
    assert_eq!(ledger.get_claim(&claim), None);
}

#[test]
fn transfer_claim_failed_when_signed_user_not_owner() {
    let mut ledger = Pallet::new();
    let claim = vec![0, 1];
    let _ = ledger.create_claim(1, claim.clone(), NOW);
    assert_eq!(ledger.transfer_claim(2, claim.clone(), 3, NOW), Err(Error::NotOwner));
    assert_eq!(ledger.get_claim(&claim), record(1, NOW));
}
