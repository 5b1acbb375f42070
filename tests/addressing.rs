use fundingme_dapp::address::{derive_project_address, verify_project_address};
use fundingme_dapp::project::{create_project, ProjectAccount};
use fundingme_dapp::{Pubkey, Wallet};

fn key(b: u8) -> Pubkey {
    Pubkey::new([b; 32])
}

fn record_of(owner: Pubkey, bump: u8) -> ProjectAccount {
    let mut slot = None;
    let mut w = Wallet::new(owner, 10);
    create_project(&mut slot, &mut w, "p".to_string(), 1, bump, 0).unwrap();
    slot.unwrap()
}

#[test]
fn derived_address_is_new_and_verifies() {
    let program = key(200);
    let owner = key(1);
    let (addr, bump) = derive_project_address(&owner, &program).unwrap();
    assert!(!addr.same_key(&owner));
    assert!(!addr.same_key(&program));
    assert!(verify_project_address(&record_of(owner, bump), &addr, &program));
}

#[test]
fn derivation_is_deterministic_and_per_owner() {
    let program = key(200);
    let (a1, b1) = derive_project_address(&key(1), &program).unwrap();
    let (a2, b2) = derive_project_address(&key(1), &program).unwrap();
    let (other, _) = derive_project_address(&key(2), &program).unwrap();
    assert!(a1.same_key(&a2));
    assert_eq!(b1, b2);
    assert!(!a1.same_key(&other));
    let (elsewhere, _) = derive_project_address(&key(1), &key(201)).unwrap();
    assert!(!a1.same_key(&elsewhere));
}

#[test]
fn wrong_owner_or_bump_fails_verification() {
    let program = key(200);
    let (addr, bump) = derive_project_address(&key(1), &program).unwrap();
    assert!(!verify_project_address(&record_of(key(2), bump), &addr, &program));
    assert!(!verify_project_address(&record_of(key(1), bump.wrapping_sub(1)), &addr, &program));
    assert!(!verify_project_address(&record_of(key(1), bump), &key(1), &program));
}
