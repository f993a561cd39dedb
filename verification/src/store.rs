//! The positions of all depositors, one for each, found by their owner.

use vstd::prelude::*;
use crate::address::Address;
use crate::position::LpStakingAccount;

verus! {

/// The sum of the principal of all positions.
pub open spec fn total_amount(positions: Seq<LpStakingAccount>) -> nat
    decreases positions.len(),
{
    if positions.len() == 0 {
        0
    } else {
        total_amount(positions.drop_last()) + positions.last().lp_amount as nat
    }
}

/// No two positions belong to one depositor.
pub open spec fn owners_distinct(positions: Seq<LpStakingAccount>) -> bool {
    forall|i: int, j: int|
        0 <= i < j < positions.len() ==> positions[i].user != positions[j].user
}

/// Whether position `i` is the first that belongs to `owner`.
pub open spec fn is_first_of(positions: Seq<LpStakingAccount>, owner: Address, i: int) -> bool {
    &&& 0 <= i < positions.len()
    &&& positions[i].user == owner
    &&& forall|j: int| 0 <= j < i ==> positions[j].user != owner
}

/// Whether `owner` has a position.
pub open spec fn has_position(positions: Seq<LpStakingAccount>, owner: Address) -> bool {
    exists|i: int| 0 <= i < positions.len() && positions[i].user == owner
}

/// Where the position of `owner` is, if there is one.
pub open spec fn index_of(positions: Seq<LpStakingAccount>, owner: Address) -> Option<int> {
    if exists|i: int| is_first_of(positions, owner, i) {
        Some(choose|i: int| is_first_of(positions, owner, i))
    } else {
        None
    }
}

/// The position of `owner`, if there is one.
pub open spec fn position_of(positions: Seq<LpStakingAccount>, owner: Address) -> Option<
    LpStakingAccount,
> {
    match index_of(positions, owner) {
        Some(i) => Some(positions[i]),
        None => None,
    }
}

/// The position of `owner`, or the empty one that `owner` gets at `now`.
pub open spec fn position_or_empty(
    positions: Seq<LpStakingAccount>,
    owner: Address,
    now: i64,
) -> LpStakingAccount {
    match position_of(positions, owner) {
        Some(account) => account,
        None => LpStakingAccount::empty(owner, now),
    }
}

/// The positions with `account` in the place of its owner's position, or at
/// the end where the owner had none.
pub open spec fn saved(positions: Seq<LpStakingAccount>, account: LpStakingAccount) -> Seq<
    LpStakingAccount,
> {
    match index_of(positions, account.user) {
        Some(i) => positions.update(i, account),
        None => positions.push(account),
    }
}

/// A depositor has no more than one first position, and has one exactly when
/// some position is theirs.
pub proof fn lemma_index_of(positions: Seq<LpStakingAccount>, owner: Address)
    ensures
        match index_of(positions, owner) {
            Some(i) => is_first_of(positions, owner, i),
            None => forall|j: int| 0 <= j < positions.len() ==> positions[j].user != owner,
        },
        forall|i: int| is_first_of(positions, owner, i) ==> index_of(positions, owner) == Some(i),
        has_position(positions, owner) <==> index_of(positions, owner) is Some,
{
    if exists|i: int| is_first_of(positions, owner, i) {
        let k = choose|i: int| is_first_of(positions, owner, i);
        assert forall|i: int| is_first_of(positions, owner, i) implies i == k by {
            if i < k {
                assert(positions[i].user != owner);
            } else if k < i {
                assert(positions[k].user != owner);
            }
        }
        assert(has_position(positions, owner));
    } else {
        assert forall|j: int| 0 <= j < positions.len() implies positions[j].user != owner by {
            lemma_no_first_no_owner(positions, owner, j);
        }
    }
}

proof fn lemma_no_first_no_owner(positions: Seq<LpStakingAccount>, owner: Address, j: int)
    requires
        !exists|i: int| is_first_of(positions, owner, i),
        0 <= j < positions.len(),
    ensures
        positions[j].user != owner,
    decreases j,
{
    if positions[j].user == owner {
        assert forall|k: int| 0 <= k < j implies positions[k].user != owner by {
            lemma_no_first_no_owner(positions, owner, k);
        }
        assert(is_first_of(positions, owner, j));
    }
}

/// Adding a position adds its principal to the sum.
pub proof fn lemma_total_push(positions: Seq<LpStakingAccount>, account: LpStakingAccount)
    ensures
        total_amount(positions.push(account)) == total_amount(positions) + account.lp_amount,
{
    assert(positions.push(account).drop_last() =~= positions);
}

/// Replacing a position changes the sum by the difference in principal, and no
/// position holds more than the sum.
pub proof fn lemma_total_update(
    positions: Seq<LpStakingAccount>,
    i: int,
    account: LpStakingAccount,
)
    requires
        0 <= i < positions.len(),
    ensures
        positions[i].lp_amount <= total_amount(positions),
        total_amount(positions.update(i, account)) == total_amount(positions)
            - positions[i].lp_amount + account.lp_amount,
    decreases positions.len(),
{
    let updated = positions.update(i, account);
    if i == positions.len() - 1 {
        assert(updated.drop_last() =~= positions.drop_last());
    } else {
        lemma_total_update(positions.drop_last(), i, account);
        assert(updated.drop_last() =~= positions.drop_last().update(i, account));
    }
}

/// Saving a position keeps the owners apart, and changes the sum by the
/// difference between its principal and what its owner held before.
pub proof fn lemma_saved(positions: Seq<LpStakingAccount>, account: LpStakingAccount, now: i64)
    requires
        owners_distinct(positions),
    ensures
        owners_distinct(saved(positions, account)),
        position_or_empty(positions, account.user, now).lp_amount <= total_amount(positions),
        total_amount(saved(positions, account)) == total_amount(positions) - position_or_empty(
            positions,
            account.user,
            now,
        ).lp_amount + account.lp_amount,
        position_of(saved(positions, account), account.user) == Some(account),
        forall|other: Address|
            other != account.user ==> position_of(saved(positions, account), other)
                == position_of(positions, other),
{
    let after = saved(positions, account);
    lemma_index_of(positions, account.user);
    match index_of(positions, account.user) {
        Some(i) => {
            lemma_total_update(positions, i, account);
            assert(is_first_of(after, account.user, i));
        },
        None => {
            lemma_total_push(positions, account);
            assert(is_first_of(after, account.user, positions.len() as int));
        },
    }
    lemma_index_of(after, account.user);
    assert forall|other: Address| other != account.user implies position_of(after, other)
        == position_of(positions, other) by {
        lemma_index_of(positions, other);
        lemma_index_of(after, other);
        match index_of(positions, other) {
            Some(k) => {
                assert(is_first_of(after, other, k));
            },
            None => {
                assert(index_of(after, other) is None) by {
                    if index_of(after, other) is Some {
                        let k = index_of(after, other)->0;
                        assert(after[k].user == other);
                        assert(k < positions.len());
                        assert(positions[k].user == other);
                    }
                }
            },
        }
    }
}

/// The positions of all depositors.
pub struct PositionStore {
    accounts: Vec<LpStakingAccount>,
}

impl View for PositionStore {
    type V = Seq<LpStakingAccount>;

    closed spec fn view(&self) -> Seq<LpStakingAccount> {
        self.accounts@
    }
}

impl PositionStore {
    /// Each depositor has one position at most.
    pub open spec fn wf(&self) -> bool {
        owners_distinct(self@)
    }

    /// A store without positions.
    pub fn new() -> (store: PositionStore)
        ensures
            store@ == Seq::<LpStakingAccount>::empty(),
            store.wf(),
    {
        PositionStore { accounts: Vec::new() }
    }

    /// How many positions there are.
    pub fn len(&self) -> (n: usize)
        ensures
            n == self@.len(),
    {
        self.accounts.len()
    }

    /// The position at `index`, in the order in which the positions were
    /// opened.
    pub fn at(&self, index: usize) -> (r: Option<LpStakingAccount>)
        ensures
            r == if index < self@.len() {
                Some(self@[index as int])
            } else {
                None
            },
    {
        if index < self.accounts.len() {
            Some(self.accounts[index])
        } else {
            None
        }
    }

    fn find(&self, owner: &Address) -> (r: Option<usize>)
        ensures
            match r {
                Some(i) => index_of(self@, *owner) == Some(i as int) && i < self@.len(),
                None => index_of(self@, *owner) is None,
            },
    {
        let mut i: usize = 0;
        while i < self.accounts.len()
            invariant
                i <= self.accounts.len(),
                forall|j: int| 0 <= j < i ==> self.accounts@[j].user != *owner,
            decreases self.accounts.len() - i,
        {
            if self.accounts[i].user.same(owner) {
                proof {
                    assert(is_first_of(self@, *owner, i as int));
                    lemma_index_of(self@, *owner);
                }
                return Some(i);
            }
            i += 1;
        }
        proof {
            lemma_index_of(self@, *owner);
        }
        None
    }

    /// The position of `owner`, if there is one.
    pub fn get(&self, owner: &Address) -> (r: Option<LpStakingAccount>)
        ensures
            r == position_of(self@, *owner),
    {
        match self.find(owner) {
            Some(i) => Some(self.accounts[i]),
            None => None,
        }
    }

    /// The position of `owner`, or the empty one that `owner` gets at `now`.
    /// The store is not changed: a new position enters it when it is saved.
    pub fn get_or_create(&self, owner: &Address, now: i64) -> (account: LpStakingAccount)
        ensures
            account == position_or_empty(self@, *owner, now),
    {
        match self.get(owner) {
            Some(account) => account,
            None => LpStakingAccount::new(*owner, now),
        }
    }

    /// Puts `account` in the place of its owner's position, or adds it where
    /// the owner had none.
    pub fn save(&mut self, account: LpStakingAccount)
        requires
            old(self).wf(),
        ensures
            final(self)@ == saved(old(self)@, account),
            final(self).wf(),
    {
        proof {
            lemma_saved(self@, account, 0);
        }
        match self.find(&account.user) {
            Some(i) => {
                self.accounts[i] = account;
            },
            None => {
                self.accounts.push(account);
            },
        }
    }

    /// The sum of the principal of all positions, where it fits in `u64`.
    pub fn total(&self) -> (r: Option<u64>)
        ensures
            r == if total_amount(self@) <= u64::MAX {
                Some(total_amount(self@) as u64)
            } else {
                None
            },
    {
        let mut sum: u64 = 0;
        let mut i: usize = 0;
        while i < self.accounts.len()
            invariant
                i <= self.accounts.len(),
                sum == total_amount(self.accounts@.take(i as int)),
            decreases self.accounts.len() - i,
        {
            proof {
                assert(self.accounts@.take(i + 1).drop_last() =~= self.accounts@.take(i as int));
                lemma_total_prefix(self.accounts@, i + 1);
            }
            sum = match sum.checked_add(self.accounts[i].lp_amount) {
                None => { return None; },
                Some(s) => s,
            };
            i += 1;
        }
        proof {
            assert(self.accounts@.take(i as int) =~= self.accounts@);
        }
        Some(sum)
    }
}

/// The sum over the first `n` positions is no more than the sum over all.
pub proof fn lemma_total_prefix(positions: Seq<LpStakingAccount>, n: int)
    requires
        0 <= n <= positions.len(),
    ensures
        total_amount(positions.take(n)) <= total_amount(positions),
    decreases positions.len(),
{
    if n == positions.len() {
        assert(positions.take(n) =~= positions);
    } else {
        lemma_total_prefix(positions.drop_last(), n);
        assert(positions.drop_last().take(n) =~= positions.take(n));
    }
}

} // verus!
