use fundingme_dapp::donors::Donator;
use fundingme_dapp::project::{
    claim_refund, close_failed_project, close_project, create_project, donate,
    get_donator_count, withdraw, ProjectAccount,
};
use fundingme_dapp::{CustomError, ProjectStatus, Pubkey, Wallet};

const RENT: u64 = 37;

fn key(b: u8) -> Pubkey {
    Pubkey::new([b; 32])
}

fn open(owner: &mut Wallet, target: u64) -> Option<ProjectAccount> {
    let mut slot = None;
    create_project(&mut slot, owner, "garden".to_string(), target, 254, RENT).unwrap();
    slot
}

#[test]
fn create_sets_fresh_record() {
    let mut owner = Wallet::new(key(1), 100);
    let slot = open(&mut owner, 1000);
    let p = slot.as_ref().unwrap();
    assert!(p.owner.same_key(&key(1)));
    assert_eq!(p.name, "garden");
    assert_eq!(p.financial_target, 1000);
    assert_eq!(p.balance, 0);
    assert_eq!(p.status, ProjectStatus::Active);
    assert!(p.donators.is_empty());
    assert_eq!(p.bump, 254);
    assert_eq!(p.lamports, RENT);
    assert_eq!(owner.lamports, 100 - RENT);
}

#[test]
fn create_twice_is_refused() {
    let mut owner = Wallet::new(key(1), 100);
    let mut slot = open(&mut owner, 1000);
    let r = create_project(&mut slot, &mut owner, "again".to_string(), 5, 1, RENT);
    assert_eq!(r, Err(CustomError::AddressAlreadyExists));
    assert_eq!(slot.as_ref().unwrap().name, "garden");
    assert_eq!(owner.lamports, 100 - RENT);
}

#[test]
fn create_without_rent_is_refused() {
    let mut owner = Wallet::new(key(1), RENT - 1);
    let mut slot = None;
    let r = create_project(&mut slot, &mut owner, "x".to_string(), 5, 1, RENT);
    assert_eq!(r, Err(CustomError::InsufficientFunds));
    assert!(slot.is_none());
    assert_eq!(owner.lamports, RENT - 1);
}

#[test]
fn success_path_scenario() {
    let mut owner = Wallet::new(key(1), 100);
    let mut slot = open(&mut owner, 1000);
    let mut a = Wallet::new(key(2), 2000);
    {
        let p = slot.as_mut().unwrap();
        donate(p, &mut a, 600).unwrap();
        assert_eq!(p.status, ProjectStatus::Active);
        assert_eq!(p.balance, 600);
        donate(p, &mut a, 500).unwrap();
        assert_eq!(p.balance, 1100);
        assert_eq!(p.status, ProjectStatus::TargetReached);
        assert_eq!(p.donators.len(), 1);
        assert_eq!(p.donators[0].amount, 1100);
        close_project(p).unwrap();
        assert_eq!(p.status, ProjectStatus::Success);
    }
    assert_eq!(a.lamports, 900);
    withdraw(&mut slot, &mut owner).unwrap();
    assert!(slot.is_none());
    assert_eq!(owner.lamports, 100 - RENT + 1100 + RENT);
}

#[test]
fn failure_path_scenario() {
    let mut owner = Wallet::new(key(1), 100);
    let mut slot = open(&mut owner, 1000);
    let mut b = Wallet::new(key(3), 300);
    {
        let p = slot.as_mut().unwrap();
        donate(p, &mut b, 300).unwrap();
        assert_eq!(b.lamports, 0);
        close_project(p).unwrap();
        assert_eq!(p.status, ProjectStatus::Failed);
        claim_refund(p, &mut b).unwrap();
        assert_eq!(b.lamports, 300);
        assert!(p.donators.is_empty());
        assert_eq!(p.balance, 0);
    }
    close_failed_project(&mut slot, &mut owner).unwrap();
    assert!(slot.is_none());
    assert_eq!(owner.lamports, 100);
}

#[test]
fn balance_tracks_sum_of_donations() {
    let mut owner = Wallet::new(key(1), 100);
    let mut slot = open(&mut owner, 10_000);
    let p = slot.as_mut().unwrap();
    let mut a = Wallet::new(key(2), 1000);
    let mut b = Wallet::new(key(3), 1000);
    for (first, amt) in [(true, 10u64), (false, 20), (true, 30), (false, 0)] {
        let w = if first { &mut a } else { &mut b };
        donate(p, w, amt).unwrap();
        let sum: u64 = p.donators.iter().map(|d: &Donator| d.amount).sum();
        assert_eq!(p.balance, sum);
    }
    assert_eq!(p.donators.len(), 2);
    assert_eq!(p.donators[0].amount, 40);
    assert_eq!(p.donators[1].amount, 20);
    assert_eq!(p.lamports, RENT + 60);
    assert_eq!(get_donator_count(p), Ok(2));
}

#[test]
fn target_reached_once_and_stays() {
    let mut owner = Wallet::new(key(1), 100);
    let mut slot = open(&mut owner, 50);
    let p = slot.as_mut().unwrap();
    let mut a = Wallet::new(key(2), 1000);
    donate(p, &mut a, 49).unwrap();
    assert_eq!(p.status, ProjectStatus::Active);
    donate(p, &mut a, 1).unwrap();
    assert_eq!(p.status, ProjectStatus::TargetReached);
    donate(p, &mut a, 100).unwrap();
    assert_eq!(p.status, ProjectStatus::TargetReached);
    assert_eq!(p.balance, 150);
}

#[test]
fn zero_target_is_met_by_first_donation() {
    let mut owner = Wallet::new(key(1), 100);
    let mut slot = open(&mut owner, 0);
    let p = slot.as_mut().unwrap();
    let mut a = Wallet::new(key(2), 5);
    donate(p, &mut a, 0).unwrap();
    assert_eq!(p.status, ProjectStatus::TargetReached);
}

#[test]
fn donate_beyond_funds_is_refused() {
    let mut owner = Wallet::new(key(1), 100);
    let mut slot = open(&mut owner, 1000);
    let p = slot.as_mut().unwrap();
    let mut a = Wallet::new(key(2), 10);
    assert_eq!(donate(p, &mut a, 11), Err(CustomError::InsufficientFunds));
    assert_eq!(a.lamports, 10);
    assert_eq!(p.balance, 0);
    assert!(p.donators.is_empty());
}

#[test]
fn donate_after_settling_is_refused() {
    let mut owner = Wallet::new(key(1), 100);
    let mut slot = open(&mut owner, 1000);
    let p = slot.as_mut().unwrap();
    let mut a = Wallet::new(key(2), 10);
    close_project(p).unwrap();
    assert_eq!(donate(p, &mut a, 5), Err(CustomError::InvalidProjectStatus));
    assert_eq!(p.status, ProjectStatus::Failed);
    assert_eq!(a.lamports, 10);
}

#[test]
fn close_in_other_status_is_refused() {
    let mut owner = Wallet::new(key(1), 100);
    let mut slot = open(&mut owner, 1000);
    let p = slot.as_mut().unwrap();
    close_project(p).unwrap();
    assert_eq!(close_project(p), Err(CustomError::InvalidProjectStatus));
    assert_eq!(p.status, ProjectStatus::Failed);
    p.status = ProjectStatus::Paused;
    assert_eq!(close_project(p), Err(CustomError::InvalidProjectStatus));
    assert_eq!(p.status, ProjectStatus::Paused);
    p.status = ProjectStatus::Success;
    assert_eq!(close_project(p), Err(CustomError::InvalidProjectStatus));
    assert_eq!(p.status, ProjectStatus::Success);
}

#[test]
fn refund_only_once() {
    let mut owner = Wallet::new(key(1), 100);
    let mut slot = open(&mut owner, 1000);
    let p = slot.as_mut().unwrap();
    let mut a = Wallet::new(key(2), 70);
    let mut b = Wallet::new(key(3), 70);
    donate(p, &mut a, 40).unwrap();
    donate(p, &mut b, 25).unwrap();
    close_project(p).unwrap();
    claim_refund(p, &mut a).unwrap();
    assert_eq!(a.lamports, 70);
    assert_eq!(claim_refund(p, &mut a), Err(CustomError::UserNotAuthorized));
    assert_eq!(a.lamports, 70);
    assert_eq!(p.balance, 25);
    assert_eq!(p.donators.len(), 1);
    assert!(p.donators[0].user.same_key(&key(3)));
}

#[test]
fn refund_before_failure_is_refused() {
    let mut owner = Wallet::new(key(1), 100);
    let mut slot = open(&mut owner, 1000);
    let p = slot.as_mut().unwrap();
    let mut a = Wallet::new(key(2), 70);
    donate(p, &mut a, 40).unwrap();
    assert_eq!(claim_refund(p, &mut a), Err(CustomError::InvalidProjectStatus));
    assert_eq!(a.lamports, 30);
    assert_eq!(p.balance, 40);
}

#[test]
fn refund_by_stranger_is_refused() {
    let mut owner = Wallet::new(key(1), 100);
    let mut slot = open(&mut owner, 1000);
    let p = slot.as_mut().unwrap();
    let mut a = Wallet::new(key(2), 70);
    let mut c = Wallet::new(key(9), 0);
    donate(p, &mut a, 40).unwrap();
    close_project(p).unwrap();
    assert_eq!(claim_refund(p, &mut c), Err(CustomError::UserNotAuthorized));
    assert_eq!(c.lamports, 0);
}

#[test]
fn withdraw_rules() {
    let mut owner = Wallet::new(key(1), 100);
    let mut slot = open(&mut owner, 10);
    let mut a = Wallet::new(key(2), 70);
    let mut stranger = Wallet::new(key(5), 0);
    donate(slot.as_mut().unwrap(), &mut a, 10).unwrap();
    assert_eq!(withdraw(&mut slot, &mut owner), Err(CustomError::ProjectWithdrawNotAvailable));
    close_project(slot.as_mut().unwrap()).unwrap();
    assert_eq!(withdraw(&mut slot, &mut stranger), Err(CustomError::UserNotAuthorized));
    assert_eq!(stranger.lamports, 0);
    assert_eq!(slot.as_ref().unwrap().balance, 10);
    assert_eq!(slot.as_ref().unwrap().lamports, RENT + 10);
    withdraw(&mut slot, &mut owner).unwrap();
    assert_eq!(owner.lamports, 110);
}

#[test]
fn close_failed_rules() {
    let mut owner = Wallet::new(key(1), 100);
    let mut slot = open(&mut owner, 1000);
    let mut a = Wallet::new(key(2), 70);
    let mut stranger = Wallet::new(key(5), 0);
    donate(slot.as_mut().unwrap(), &mut a, 10).unwrap();
    assert_eq!(close_failed_project(&mut slot, &mut owner), Err(CustomError::InvalidProjectStatus));
    close_project(slot.as_mut().unwrap()).unwrap();
    assert_eq!(close_failed_project(&mut slot, &mut stranger), Err(CustomError::UserNotAuthorized));
    assert_eq!(close_failed_project(&mut slot, &mut owner), Err(CustomError::InvalidProjectStatus));
    assert!(slot.is_some());
    claim_refund(slot.as_mut().unwrap(), &mut a).unwrap();
    close_failed_project(&mut slot, &mut owner).unwrap();
    assert!(slot.is_none());
    assert_eq!(owner.lamports, 100);
}

#[test]
fn keys_compare_by_bytes() {
    let mut bytes = [7u8; 32];
    let k1 = Pubkey::new(bytes);
    bytes[31] = 8;
    let k2 = Pubkey::new(bytes);
    assert!(k1.same_key(&key(7)));
    assert!(!k1.same_key(&k2));
}

fn record(balance: u64, lamports: u64, entries: &[(u8, u64)]) -> ProjectAccount {
    ProjectAccount {
        owner: key(1),
        name: "r".to_string(),
        financial_target: 10,
        balance,
        status: ProjectStatus::Active,
        donators: entries.iter().map(|&(k, amount)| Donator { user: key(k), amount }).collect(),
        bump: 0,
        lamports,
    }
}

#[test]
fn well_formed_records() {
    assert!(record(0, 0, &[]).is_well_formed());
    assert!(record(30, 40, &[(2, 10), (3, 20)]).is_well_formed());
    assert!(!record(31, 40, &[(2, 10), (3, 20)]).is_well_formed());
    assert!(!record(29, 40, &[(2, 10), (3, 20)]).is_well_formed());
    assert!(!record(30, 29, &[(2, 10), (3, 20)]).is_well_formed());
    assert!(!record(30, 40, &[(2, 10), (2, 20)]).is_well_formed());
    assert!(!record(5, u64::MAX, &[(2, u64::MAX), (3, 6)]).is_well_formed());
}

#[test]
fn donator_count_counts_entries() {
    assert_eq!(get_donator_count(&record(0, 0, &[])), Ok(0));
    assert_eq!(get_donator_count(&record(30, 40, &[(2, 10), (3, 20)])), Ok(2));
}
