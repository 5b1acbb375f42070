use vstd::prelude::*;
use crate::pubkey::Pubkey;

verus! {

/// One contributor to a project and the total it has given.
#[derive(Clone, Copy, Debug)]
pub struct Donator {
    pub user: Pubkey,
    pub amount: u64,
}

/// The sum of all recorded contributions.
pub open spec fn total(d: Seq<Donator>) -> int
    decreases d.len(),
{
    if d.len() == 0 {
        0
    } else {
        total(d.drop_last()) + d.last().amount
    }
}

/// No identity is recorded twice.
pub open spec fn unique_donors(d: Seq<Donator>) -> bool {
    forall|i: int, j: int|
        0 <= i < d.len() && 0 <= j < d.len() && i != j ==> d[i].user@ != d[j].user@
}

/// Whether `id` has an entry.
pub open spec fn has_donor(d: Seq<Donator>, id: Seq<u8>) -> bool {
    exists|i: int| 0 <= i < d.len() && d[i].user@ == id
}

/// The position of `id`'s entry, or -1 when it has none.
pub open spec fn donor_index(d: Seq<Donator>, id: Seq<u8>) -> int {
    if has_donor(d, id) {
        choose|i: int| 0 <= i < d.len() && d[i].user@ == id
    } else {
        -1
    }
}

/// The entries after `user` gives `amount`: its entry grows, or a new one is
/// appended.
pub open spec fn credited(d: Seq<Donator>, user: Pubkey, amount: u64) -> Seq<Donator> {
    let i = donor_index(d, user@);
    if i >= 0 {
        d.update(i, Donator { user: d[i].user, amount: (d[i].amount + amount) as u64 })
    } else {
        d.push(Donator { user, amount })
    }
}

pub proof fn lemma_total_nonneg(d: Seq<Donator>)
    ensures
        total(d) >= 0,
    decreases d.len(),
{
    if d.len() > 0 {
        lemma_total_nonneg(d.drop_last());
    }
}

/// Taking one entry out lowers the total by exactly that entry's amount.
pub proof fn lemma_total_remove(d: Seq<Donator>, i: int)
    requires
        0 <= i < d.len(),
    ensures
        total(d) == total(d.remove(i)) + d[i].amount,
    decreases d.len(),
{
    if i == d.len() - 1 {
        assert(d.remove(i) =~= d.drop_last());
    } else {
        lemma_total_remove(d.drop_last(), i);
        assert(d.remove(i).drop_last() =~= d.drop_last().remove(i));
        assert(d.remove(i).last() == d.last());
    }
}

/// Replacing one entry changes the total by the difference of the amounts.
pub proof fn lemma_total_update(d: Seq<Donator>, i: int, x: Donator)
    requires
        0 <= i < d.len(),
    ensures
        total(d.update(i, x)) == total(d) - d[i].amount + x.amount,
{
    lemma_total_remove(d, i);
    lemma_total_remove(d.update(i, x), i);
    assert(d.update(i, x).remove(i) =~= d.remove(i));
}

pub proof fn lemma_total_push(d: Seq<Donator>, x: Donator)
    ensures
        total(d.push(x)) == total(d) + x.amount,
{
    assert(d.push(x).drop_last() =~= d);
}

/// Every single entry is bounded by the total.
pub proof fn lemma_entry_le_total(d: Seq<Donator>, i: int)
    requires
        0 <= i < d.len(),
    ensures
        d[i].amount <= total(d),
{
    lemma_total_remove(d, i);
    lemma_total_nonneg(d.remove(i));
}

/// With unique identities, a matching position is the recorded one.
pub proof fn lemma_index_unique(d: Seq<Donator>, id: Seq<u8>, i: int)
    requires
        unique_donors(d),
        0 <= i < d.len(),
        d[i].user@ == id,
    ensures
        donor_index(d, id) == i,
{
    assert(has_donor(d, id));
}

/// Removing the entry of `id` leaves no entry of `id` and keeps identities
/// unique.
pub proof fn lemma_remove_donor(d: Seq<Donator>, i: int)
    requires
        unique_donors(d),
        0 <= i < d.len(),
    ensures
        unique_donors(d.remove(i)),
        !has_donor(d.remove(i), d[i].user@),
        donor_index(d.remove(i), d[i].user@) == -1,
{
    let r = d.remove(i);
    assert forall|k: int| 0 <= k < r.len() implies r[k].user@ != d[i].user@ by {
        if k < i {
            assert(r[k] == d[k]);
        } else {
            assert(r[k] == d[k + 1]);
        }
    }
}

/// Finds the position of `id`'s entry.
pub fn find_donator(donators: &Vec<Donator>, id: &Pubkey) -> (r: Option<usize>)
    requires
        unique_donors(donators@),
    ensures
        match r {
            Some(i) => i < donators@.len() && donors_index_is(donators@, id@, i as int),
            None => !has_donor(donators@, id@) && donor_index(donators@, id@) == -1,
        },
{
    let mut i: usize = 0;
    while i < donators.len()
        invariant
            0 <= i <= donators@.len(),
            unique_donors(donators@),
            forall|k: int| 0 <= k < i ==> donators@[k].user@ != id@,
        decreases donators@.len() - i,
    {
        if donators[i].user.same_key(id) {
            proof {
                lemma_index_unique(donators@, id@, i as int);
            }
            return Some(i);
        }
        i += 1;
    }
    None
}

/// `i` holds the entry of `id`.
pub open spec fn donors_index_is(d: Seq<Donator>, id: Seq<u8>, i: int) -> bool {
    &&& 0 <= i < d.len()
    &&& d[i].user@ == id
    &&& donor_index(d, id) == i
}

/// A prefix never sums to more than the whole.
pub proof fn lemma_total_prefix(d: Seq<Donator>, i: int)
    requires
        0 <= i <= d.len(),
    ensures
        total(d.subrange(0, i)) <= total(d),
    decreases d.len(),
{
    if i < d.len() {
        lemma_total_prefix(d.drop_last(), i);
        assert(d.drop_last().subrange(0, i) =~= d.subrange(0, i));
    } else {
        assert(d.subrange(0, i) =~= d);
    }
}

/// Whether the entries sum to exactly `balance`.
pub fn sums_to(donators: &Vec<Donator>, balance: u64) -> (r: bool)
    ensures
        r == (total(donators@) == balance),
{
    let mut acc: u64 = 0;
    let mut i: usize = 0;
    while i < donators.len()
        invariant
            0 <= i <= donators@.len(),
            acc == total(donators@.subrange(0, i as int)),
            acc <= balance,
        decreases donators@.len() - i,
    {
        let amount = donators[i].amount;
        proof {
            assert(donators@.subrange(0, i + 1).drop_last() =~= donators@.subrange(0, i as int));
        }
        if amount > balance - acc {
            proof {
                lemma_total_prefix(donators@, i + 1);
            }
            return false;
        }
        acc = acc + amount;
        i += 1;
    }
    assert(donators@.subrange(0, i as int) =~= donators@);
    acc == balance
}

/// Whether no identity is recorded twice.
pub fn all_unique(donators: &Vec<Donator>) -> (r: bool)
    ensures
        r == unique_donors(donators@),
{
    let mut i: usize = 0;
    while i < donators.len()
        invariant
            0 <= i <= donators@.len(),
            forall|a: int, b: int|
                0 <= a < i && 0 <= b < donators@.len() && a != b ==> donators@[a].user@
                    != donators@[b].user@,
        decreases donators@.len() - i,
    {
        let mut j: usize = 0;
        while j < donators.len()
            invariant
                0 <= i < donators@.len(),
                0 <= j <= donators@.len(),
                forall|a: int, b: int|
                    0 <= a < i && 0 <= b < donators@.len() && a != b ==> donators@[a].user@
                        != donators@[b].user@,
                forall|b: int| 0 <= b < j && b != i ==> donators@[i as int].user@ != donators@[b].user@,
            decreases donators@.len() - j,
        {
            if j != i && donators[i].user.same_key(&donators[j].user) {
                return false;
            }
            j += 1;
        }
        i += 1;
    }
    true
}

} // verus!
