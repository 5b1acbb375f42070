use vstd::prelude::*;
use crate::donors::{
    all_unique, credited, donor_index, find_donator, has_donor, lemma_entry_le_total,
    lemma_remove_donor, lemma_total_push, lemma_total_remove, lemma_total_update, sums_to, total,
    unique_donors, Donator,
};
use crate::errors::CustomError;
use crate::pubkey::{Pubkey, Wallet};
use crate::status::{closed_status, may_move, ProjectStatus};

verus! {

/// The persisted record of one campaign.
///
/// `balance` is the bookkeeping of what donors gave; `lamports` is what the
/// record's account holds in custody, which also covers the storage deposit
/// paid at creation.
#[derive(Debug)]
pub struct ProjectAccount {
    pub owner: Pubkey,
    pub name: String,
    pub financial_target: u64,
    pub balance: u64,
    pub status: ProjectStatus,
    pub donators: Vec<Donator>,
    pub bump: u8,
    pub lamports: u64,
}

impl ProjectAccount {
    /// The balance is the sum of the contributions, identities are unique,
    /// and custody covers every contribution.
    pub open spec fn wf(&self) -> bool {
        &&& self.balance == total(self.donators@)
        &&& unique_donors(self.donators@)
        &&& self.balance <= self.lamports
    }

    /// Tests the well-formedness of a record loaded from storage.
    pub fn is_well_formed(&self) -> (r: bool)
        ensures
            r == self.wf(),
    {
        self.balance <= self.lamports && sums_to(&self.donators, self.balance) && all_unique(
            &self.donators,
        )
    }
}

/// The fields that no operation changes once the record exists.
pub open spec fn same_identity(a: ProjectAccount, b: ProjectAccount) -> bool {
    &&& a.owner == b.owner
    &&& a.name == b.name
    &&& a.financial_target == b.financial_target
    &&& a.bump == b.bump
}

/// `p` is the record that `owner` opens with the given parameters.
pub open spec fn fresh_project(
    p: ProjectAccount,
    owner: Pubkey,
    name: String,
    financial_target: u64,
    bump: u8,
    rent: u64,
) -> bool {
    &&& p.owner == owner
    &&& p.name@ == name@
    &&& p.financial_target == financial_target
    &&& p.balance == 0
    &&& p.status == ProjectStatus::Active
    &&& p.donators@.len() == 0
    &&& p.bump == bump
    &&& p.lamports == rent
}

/// Why creating a project fails, if it does.
pub open spec fn create_error(slot: Option<ProjectAccount>, user: Wallet, rent: u64) -> Option<
    CustomError,
> {
    if slot.is_some() {
        Some(CustomError::AddressAlreadyExists)
    } else if user.lamports < rent {
        Some(CustomError::InsufficientFunds)
    } else {
        None
    }
}

/// Opens a campaign for `user` in the slot at its derived address (see
/// `derive_project_address`, which also gives `bump`). The user pays `rent`
/// into the new record's custody as its storage deposit.
pub fn create_project(
    slot: &mut Option<ProjectAccount>,
    user: &mut Wallet,
    name: String,
    financial_target: u64,
    bump: u8,
    rent: u64,
) -> (r: Result<(), CustomError>)
    ensures
        match r {
            Ok(()) => {
                &&& create_error(*old(slot), *old(user), rent) is None
                &&& final(slot).is_some()
                &&& fresh_project(final(slot).unwrap(), old(user).key, name, financial_target, bump, rent)
                &&& final(slot).unwrap().wf()
                &&& final(user).key == old(user).key
                &&& final(user).lamports == old(user).lamports - rent
            },
            Err(e) => {
                &&& create_error(*old(slot), *old(user), rent) == Some(e)
                &&& *final(slot) == *old(slot)
                &&& *final(user) == *old(user)
            },
        },
{
    if slot.is_some() {
        return Err(CustomError::AddressAlreadyExists);
    }
    if user.lamports < rent {
        return Err(CustomError::InsufficientFunds);
    }
    user.lamports = user.lamports - rent;
    let donators: Vec<Donator> = Vec::new();
    *slot = Some(
        ProjectAccount {
            owner: user.key,
            name,
            financial_target,
            balance: 0,
            status: ProjectStatus::Active,
            donators,
            bump,
            lamports: rent,
        },
    );
    Ok(())
}

/// Why a donation is refused, if it is.
///
/// Donations are taken only while the campaign is running, that is Active or
/// TargetReached: a settled (Success) or failed campaign takes no more funds,
/// so that the status never moves backward.
pub open spec fn donate_error(p: ProjectAccount, user: Wallet, amount: u64) -> Option<CustomError> {
    if !(p.status == ProjectStatus::Active || p.status == ProjectStatus::TargetReached) {
        Some(CustomError::InvalidProjectStatus)
    } else if user.lamports < amount {
        Some(CustomError::InsufficientFunds)
    } else {
        None
    }
}

/// The status after a donation that leaves the balance at `balance`: an
/// Active campaign whose balance meets the target becomes TargetReached.
pub open spec fn status_after_donation(s: ProjectStatus, balance: int, target: u64) -> ProjectStatus {
    if s == ProjectStatus::Active && balance >= target {
        ProjectStatus::TargetReached
    } else {
        s
    }
}

/// `after` is `before` once `user` has given `amount`.
pub open spec fn donated(before: ProjectAccount, after: ProjectAccount, user: Pubkey, amount: u64) -> bool {
    &&& same_identity(after, before)
    &&& after.balance == before.balance + amount
    &&& after.lamports == before.lamports + amount
    &&& after.donators@ == credited(before.donators@, user, amount)
    &&& after.status == status_after_donation(
        before.status,
        before.balance + amount,
        before.financial_target,
    )
}

/// Moves `amount` from `user` into the project's custody and records it as
/// the user's contribution.
pub fn donate(project: &mut ProjectAccount, user: &mut Wallet, amount: u64) -> (r: Result<
    (),
    CustomError,
>)
    requires
        old(project).wf(),
        old(project).lamports + old(user).lamports <= u64::MAX,
    ensures
        final(project).wf(),
        final(project).balance == total(final(project).donators@),
        may_move(old(project).status, final(project).status),
        match r {
            Ok(()) => {
                &&& donate_error(*old(project), *old(user), amount) is None
                &&& donated(*old(project), *final(project), old(user).key, amount)
                &&& final(user).key == old(user).key
                &&& final(user).lamports == old(user).lamports - amount
            },
            Err(e) => {
                &&& donate_error(*old(project), *old(user), amount) == Some(e)
                &&& *final(project) == *old(project)
                &&& *final(user) == *old(user)
            },
        },
{
    if !(project.status == ProjectStatus::Active || project.status == ProjectStatus::TargetReached) {
        return Err(CustomError::InvalidProjectStatus);
    }
    if user.lamports < amount {
        return Err(CustomError::InsufficientFunds);
    }
    user.lamports = user.lamports - amount;
    project.lamports = project.lamports + amount;
    project.balance = project.balance + amount;
    let ghost d0 = project.donators@;
    match find_donator(&project.donators, &user.key) {
        Some(i) => {
            proof {
                lemma_entry_le_total(d0, i as int);
            }
            let entry = Donator { user: project.donators[i].user, amount: project.donators[i].amount + amount };
            project.donators.set(i, entry);
            proof {
                lemma_total_update(d0, i as int, entry);
                assert forall|a: int, b: int|
                    0 <= a < project.donators@.len() && 0 <= b < project.donators@.len() && a != b
                    implies project.donators@[a].user@ != project.donators@[b].user@ by {
                    assert(d0[a].user == project.donators@[a].user);
                    assert(d0[b].user == project.donators@[b].user);
                }
            }
        },
        None => {
            let entry = Donator { user: user.key, amount };
            project.donators.push(entry);
            proof {
                lemma_total_push(d0, entry);
                assert forall|a: int, b: int|
                    0 <= a < project.donators@.len() && 0 <= b < project.donators@.len() && a != b
                    implies project.donators@[a].user@ != project.donators@[b].user@ by {
                    if a < d0.len() && b < d0.len() {
                        assert(d0[a] == project.donators@[a]);
                        assert(d0[b] == project.donators@[b]);
                    } else if a < d0.len() {
                        assert(d0[a] == project.donators@[a]);
                    } else {
                        assert(d0[b] == project.donators@[b]);
                    }
                }
            }
        },
    }
    if project.status == ProjectStatus::Active && project.balance >= project.financial_target {
        project.status = ProjectStatus::TargetReached;
    }
    Ok(())
}

/// Settles a campaign: an Active one fails, which opens refunds; one that
/// reached its target succeeds, which opens the owner's withdrawal. Any
/// caller may settle; no identity is checked.
pub fn close_project(project: &mut ProjectAccount) -> (r: Result<(), CustomError>)
    ensures
        match closed_status(old(project).status) {
            Some(s) => {
                &&& r is Ok
                &&& final(project).status == s
                &&& same_identity(*final(project), *old(project))
                &&& final(project).balance == old(project).balance
                &&& final(project).lamports == old(project).lamports
                &&& final(project).donators@ == old(project).donators@
            },
            None => {
                &&& r == Err::<(), CustomError>(CustomError::InvalidProjectStatus)
                &&& *final(project) == *old(project)
            },
        },
        old(project).wf() ==> final(project).wf(),
        may_move(old(project).status, final(project).status),
{
    if project.status == ProjectStatus::Active {
        project.status = ProjectStatus::Failed;
        Ok(())
    } else if project.status == ProjectStatus::TargetReached {
        project.status = ProjectStatus::Success;
        Ok(())
    } else {
        Err(CustomError::InvalidProjectStatus)
    }
}

/// Why a refund claim by `who` is refused, if it is.
pub open spec fn refund_error(p: ProjectAccount, who: Pubkey) -> Option<CustomError> {
    if p.status != ProjectStatus::Failed {
        Some(CustomError::InvalidProjectStatus)
    } else if !has_donor(p.donators@, who@) {
        Some(CustomError::UserNotAuthorized)
    } else if p.lamports < p.donators@[donor_index(p.donators@, who@)].amount {
        Some(CustomError::InvalidProjectStatus)
    } else {
        None
    }
}

/// `after` is `before` once `who` has been paid back and its entry removed.
pub open spec fn refunded(before: ProjectAccount, after: ProjectAccount, who: Pubkey) -> bool {
    let i = donor_index(before.donators@, who@);
    let amount = before.donators@[i].amount;
    &&& before.status == ProjectStatus::Failed
    &&& 0 <= i < before.donators@.len()
    &&& same_identity(after, before)
    &&& after.status == before.status
    &&& after.donators@ == before.donators@.remove(i)
    &&& after.balance == before.balance - amount
    &&& after.lamports == before.lamports - amount
}

/// Pays a donor of a failed campaign back its whole contribution and removes
/// its entry, so that it cannot claim twice.
pub fn claim_refund(project: &mut ProjectAccount, donator: &mut Wallet) -> (r: Result<
    (),
    CustomError,
>)
    requires
        old(project).wf(),
        old(project).lamports + old(donator).lamports <= u64::MAX,
    ensures
        final(project).wf(),
        final(project).status == old(project).status,
        match r {
            Ok(()) => {
                &&& refund_error(*old(project), old(donator).key) is None
                &&& refunded(*old(project), *final(project), old(donator).key)
                &&& final(donator).key == old(donator).key
                &&& final(donator).lamports == old(donator).lamports + old(project).donators@[donor_index(
                    old(project).donators@,
                    old(donator).key@,
                )].amount
            },
            Err(e) => {
                &&& refund_error(*old(project), old(donator).key) == Some(e)
                &&& *final(project) == *old(project)
                &&& *final(donator) == *old(donator)
            },
        },
{
    if project.status != ProjectStatus::Failed {
        return Err(CustomError::InvalidProjectStatus);
    }
    match find_donator(&project.donators, &donator.key) {
        None => Err(CustomError::UserNotAuthorized),
        Some(i) => {
            let amount = project.donators[i].amount;
            if project.lamports < amount {
                return Err(CustomError::InvalidProjectStatus);
            }
            let ghost d0 = project.donators@;
            proof {
                lemma_entry_le_total(d0, i as int);
                lemma_total_remove(d0, i as int);
                lemma_remove_donor(d0, i as int);
            }
            project.lamports = project.lamports - amount;
            donator.lamports = donator.lamports + amount;
            project.donators.remove(i);
            project.balance = project.balance - amount;
            Ok(())
        },
    }
}

/// The number of recorded donors.
pub fn get_donator_count(project: &ProjectAccount) -> (r: Result<u64, CustomError>)
    ensures
        r == Ok::<u64, CustomError>(project.donators@.len() as u64),
{
    Ok(project.donators.len() as u64)
}

/// Why the owner's withdrawal is refused, if it is.
pub open spec fn withdraw_error(p: ProjectAccount, user: Wallet) -> Option<CustomError> {
    if p.status != ProjectStatus::Success {
        Some(CustomError::ProjectWithdrawNotAvailable)
    } else if p.owner@ != user.key@ {
        Some(CustomError::UserNotAuthorized)
    } else {
        None
    }
}

/// Hands the whole custody of a successful campaign to its owner and
/// destroys the record.
pub fn withdraw(slot: &mut Option<ProjectAccount>, user: &mut Wallet) -> (r: Result<
    (),
    CustomError,
>)
    requires
        old(slot).is_some(),
        old(slot).unwrap().lamports + old(user).lamports <= u64::MAX,
    ensures
        match r {
            Ok(()) => {
                &&& withdraw_error(old(slot).unwrap(), *old(user)) is None
                &&& final(slot).is_none()
                &&& final(user).key == old(user).key
                &&& final(user).lamports == old(user).lamports + old(slot).unwrap().lamports
            },
            Err(e) => {
                &&& withdraw_error(old(slot).unwrap(), *old(user)) == Some(e)
                &&& *final(slot) == *old(slot)
                &&& *final(user) == *old(user)
            },
        },
{
    let custody: u64;
    match slot {
        Some(p) => {
            if p.status != ProjectStatus::Success {
                return Err(CustomError::ProjectWithdrawNotAvailable);
            }
            if !user.key.same_key(&p.owner) {
                return Err(CustomError::UserNotAuthorized);
            }
            custody = p.lamports;
        },
        None => {
            return Err(CustomError::ProjectWithdrawNotAvailable);
        },
    }
    *slot = None;
    user.lamports = user.lamports + custody;
    Ok(())
}

/// Why closing a failed campaign is refused, if it is.
pub open spec fn close_failed_error(p: ProjectAccount, user: Wallet) -> Option<CustomError> {
    if p.status != ProjectStatus::Failed {
        Some(CustomError::InvalidProjectStatus)
    } else if p.owner@ != user.key@ {
        Some(CustomError::UserNotAuthorized)
    } else if p.donators@.len() != 0 {
        Some(CustomError::InvalidProjectStatus)
    } else {
        None
    }
}

/// Destroys a failed campaign once every donor has been refunded, handing
/// what custody remains (the storage deposit) to the owner.
pub fn close_failed_project(slot: &mut Option<ProjectAccount>, user: &mut Wallet) -> (r: Result<
    (),
    CustomError,
>)
    requires
        old(slot).is_some(),
        old(slot).unwrap().lamports + old(user).lamports <= u64::MAX,
    ensures
        match r {
            Ok(()) => {
                &&& close_failed_error(old(slot).unwrap(), *old(user)) is None
                &&& final(slot).is_none()
                &&& final(user).key == old(user).key
                &&& final(user).lamports == old(user).lamports + old(slot).unwrap().lamports
            },
            Err(e) => {
                &&& close_failed_error(old(slot).unwrap(), *old(user)) == Some(e)
                &&& *final(slot) == *old(slot)
                &&& *final(user) == *old(user)
            },
        },
{
    let custody: u64;
    match slot {
        Some(p) => {
            if p.status != ProjectStatus::Failed {
                return Err(CustomError::InvalidProjectStatus);
            }
            if !user.key.same_key(&p.owner) {
                return Err(CustomError::UserNotAuthorized);
            }
            if p.donators.len() != 0 {
                return Err(CustomError::InvalidProjectStatus);
            }
            custody = p.lamports;
        },
        None => {
            return Err(CustomError::InvalidProjectStatus);
        },
    }
    *slot = None;
    user.lamports = user.lamports + custody;
    Ok(())
}

/// A donation that lifts the balance of an Active campaign to its target
/// makes it TargetReached, and any later donation leaves it TargetReached:
/// the move happens once.
pub proof fn lemma_target_reached_once(
    p0: ProjectAccount,
    p1: ProjectAccount,
    p2: ProjectAccount,
    a: Pubkey,
    first: u64,
    b: Pubkey,
    second: u64,
)
    requires
        donated(p0, p1, a, first),
        donated(p1, p2, b, second),
    ensures
        p0.status == ProjectStatus::Active && p0.balance < p0.financial_target && p1.balance
            >= p1.financial_target ==> p1.status == ProjectStatus::TargetReached,
        p1.status == ProjectStatus::TargetReached ==> p2.status == ProjectStatus::TargetReached,
        p0.status == ProjectStatus::TargetReached ==> p1.status == ProjectStatus::TargetReached,
{
}

/// Once a donor has been refunded, a second claim by the same identity is
/// refused as unauthorized.
pub proof fn lemma_refund_at_most_once(before: ProjectAccount, after: ProjectAccount, who: Pubkey)
    requires
        before.wf(),
        refunded(before, after, who),
    ensures
        refund_error(after, who) == Some(CustomError::UserNotAuthorized),
{
    let i = donor_index(before.donators@, who@);
    assert(has_donor(before.donators@, who@));
    lemma_remove_donor(before.donators@, i);
}

} // verus!
