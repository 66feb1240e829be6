use poe_kitties::poe::{Config, Error, Event, Pallet};

const STRING_LIMIT: u32 = 64;
const BLOCK: u64 = 1;

fn new_test_ext() -> Pallet {
    Pallet::new(Config { string_limit: STRING_LIMIT })
}

#[test]
fn claim_should_work() {
    let mut poe = new_test_ext();
    let claim: Vec<u8> = vec![0, 1, 2];
    let limit = poe.config().string_limit as usize;
    assert!(poe.create_claim(1, claim.clone(), BLOCK).is_ok());
    assert_eq!(poe.get_proof(&claim), Some((1, BLOCK)));
    assert_eq!(poe.create_claim(1, vec![0u8; limit + 1], BLOCK), Err(Error::BadMetadata));
    assert_eq!(poe.contains_proof(&vec![0u8; limit + 1]), false);
}

#[test]
fn claim_failed_when_claim_exist() {
    let mut poe = new_test_ext();
    let claim: Vec<u8> = vec![0, 1, 2];
    assert!(poe.create_claim(1, claim.clone(), BLOCK).is_ok());
    assert_eq!(poe.create_claim(2, claim.clone(), BLOCK), Err(Error::ProofAlreadyClaimed));
    assert_eq!(poe.get_proof(&claim), Some((1, BLOCK)));
}

#[test]
fn revoke_should_work() {
    let mut poe = new_test_ext();
    let claim: Vec<u8> = vec![0, 1, 2];
    let _ = poe.create_claim(1, claim.clone(), BLOCK);
    assert!(poe.revoke_claim(1, claim.clone()).is_ok());
    assert_eq!(poe.contains_proof(&claim), false);
}

#[test]
fn revoke_failed_when_not_owner() {
    let mut poe = new_test_ext();
    let claim: Vec<u8> = vec![0, 1, 2];
    let _ = poe.create_claim(1, claim.clone(), BLOCK);
    assert_eq!(poe.revoke_claim(2, claim.clone()), Err(Error::NotProofOwner));
    assert_eq!(poe.get_proof(&claim), Some((1, BLOCK)));
}

#[test]
fn revoke_failed_when_claim_not_exist() {
    let mut poe = new_test_ext();
    let claim: Vec<u8> = vec![0, 1, 2];
    assert_eq!(poe.revoke_claim(1, claim.clone()), Err(Error::NoSuchProof));
    assert_eq!(poe.get_proof(&claim), None);
}

#[test]
fn transfer_should_work() {
    let mut poe = new_test_ext();
    let claim: Vec<u8> = vec![0, 1, 2];
    let _ = poe.create_claim(1, claim.clone(), BLOCK);
    assert_eq!(poe.transfer_claim(1, claim.clone(), 2, BLOCK), Ok(()));
    assert_eq!(poe.get_proof(&claim), Some((2, BLOCK)));
}

#[test]
fn transfer_failed_when_not_owner() {
    let mut poe = new_test_ext();
    let claim: Vec<u8> = vec![0, 1, 2];
    let _ = poe.create_claim(1, claim.clone(), BLOCK);
    assert_eq!(poe.transfer_claim(2, claim.clone(), 1, BLOCK), Err(Error::NotProofOwner));
    assert_eq!(poe.get_proof(&claim), Some((1, BLOCK)));
}

#[test]
fn transfer_failed_when_claim_not_exist() {
    let mut poe = new_test_ext();
    let claim: Vec<u8> = vec![0, 1, 2];
    assert_eq!(poe.transfer_claim(1, claim.clone(), 2, BLOCK), Err(Error::NoSuchProof));
    assert_eq!(poe.get_proof(&claim), None);
}

#[test]
fn tests_claim_should_work() {
    let mut poe = new_test_ext();
    let claim: Vec<u8> = vec![0, 1, 2];
    let limit = poe.config().string_limit as usize;
    assert!(poe.create_claim(1, claim.clone(), BLOCK).is_ok());
    assert_eq!(poe.get_proof(&claim), Some((1, BLOCK)));
    assert_eq!(poe.create_claim(1, vec![0u8; limit + 1], BLOCK), Err(Error::BadMetadata));
    assert_eq!(poe.contains_proof(&vec![0u8; limit + 1]), false);
}

#[test]
fn tests_claim_failed_when_claim_exist() {
    let mut poe = new_test_ext();
    let claim: Vec<u8> = vec![0, 1, 2];
    assert!(poe.create_claim(1, claim.clone(), BLOCK).is_ok());
    assert_eq!(poe.create_claim(2, claim.clone(), BLOCK), Err(Error::ProofAlreadyClaimed));
    assert_eq!(poe.get_proof(&claim), Some((1, BLOCK)));
}

#[test]
fn tests_revoke_should_work() {
    let mut poe = new_test_ext();
    let claim: Vec<u8> = vec![0, 1, 2];
    let _ = poe.create_claim(1, claim.clone(), BLOCK);
    assert!(poe.revoke_claim(1, claim.clone()).is_ok());
    assert_eq!(poe.contains_proof(&claim), false);
}

#[test]
fn tests_revoke_failed_when_claim_not_exist() {
    let mut poe = new_test_ext();
    let claim: Vec<u8> = vec![0, 1, 2];
    assert_eq!(poe.revoke_claim(1, claim.clone()), Err(Error::NoSuchProof));
    assert_eq!(poe.get_proof(&claim), None);
}

#[test]
fn tests_revoke_failed_when_not_owner() {
    let mut poe = new_test_ext();
    let claim: Vec<u8> = vec![0, 1, 2];
    let _ = poe.create_claim(1, claim.clone(), BLOCK);
    assert_eq!(poe.revoke_claim(2, claim.clone()), Err(Error::NotProofOwner));
    assert_eq!(poe.get_proof(&claim), Some((1, BLOCK)));
}

#[test]
fn tests_transfer_failed_when_claim_not_exist() {
    let mut poe = new_test_ext();
    let claim: Vec<u8> = vec![0, 1, 2];
    assert_eq!(poe.transfer_claim(1, claim.clone(), 2, BLOCK), Err(Error::NoSuchProof));
    assert_eq!(poe.get_proof(&claim), None);
}

#[test]
fn tests_transfer_failed_when_not_owner() {
    let mut poe = new_test_ext();
    let claim: Vec<u8> = vec![0, 1, 2];
    let _ = poe.create_claim(1, claim.clone(), BLOCK);
    assert_eq!(poe.transfer_claim(2, claim.clone(), 1, BLOCK), Err(Error::NotProofOwner));
    assert_eq!(poe.get_proof(&claim), Some((1, BLOCK)));
}

#[test]
fn claim_events_carry_owner_and_fingerprint() {
    let mut poe = new_test_ext();
    let claim: Vec<u8> = vec![9, 8];
    assert_eq!(poe.create_claim(4, claim.clone(), 7), Ok(Event::ClaimCreated(4, claim.clone())));
    assert_eq!(poe.get_proof(&claim), Some((4, 7)));
    assert_eq!(poe.revoke_claim(4, claim.clone()), Ok(Event::ClaimRevoked(4, claim.clone())));
    assert_eq!(poe.get_proof(&claim), None);
}

#[test]
fn claim_stays_unique_until_revoked() {
    let mut poe = new_test_ext();
    let claim: Vec<u8> = vec![5, 5, 5];
    assert!(poe.create_claim(1, claim.clone(), 1).is_ok());
    assert_eq!(poe.create_claim(2, claim.clone(), 2), Err(Error::ProofAlreadyClaimed));
    assert_eq!(poe.transfer_claim(1, claim.clone(), 2, 3), Ok(()));
    assert_eq!(poe.create_claim(3, claim.clone(), 4), Err(Error::ProofAlreadyClaimed));
    assert!(poe.revoke_claim(2, claim.clone()).is_ok());
    assert!(poe.create_claim(3, claim.clone(), 5).is_ok());
    assert_eq!(poe.get_proof(&claim), Some((3, 5)));
}

#[test]
fn claims_of_distinct_fingerprints_are_independent() {
    let mut poe = new_test_ext();
    let a: Vec<u8> = vec![1];
    let b: Vec<u8> = vec![1, 0];
    let empty: Vec<u8> = Vec::new();
    assert!(poe.create_claim(1, a.clone(), 1).is_ok());
    assert!(poe.create_claim(2, b.clone(), 1).is_ok());
    assert!(poe.create_claim(3, empty.clone(), 1).is_ok());
    assert!(poe.revoke_claim(1, a.clone()).is_ok());
    assert_eq!(poe.get_proof(&a), None);
    assert_eq!(poe.get_proof(&b), Some((2, 1)));
    assert_eq!(poe.get_proof(&empty), Some((3, 1)));
    let at_limit = vec![7u8; STRING_LIMIT as usize];
    assert!(poe.create_claim(1, at_limit.clone(), 2).is_ok());
}
