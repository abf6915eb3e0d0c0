//! The royalty split of a token: who gets which share of a sale, in basis
//! points. The shares of a split never add up to more than the whole.

use crate::types::{AccountId, Name};
use vstd::prelude::*;

verus! {

/// The whole, in basis points.
pub const WHOLE: u32 = 10_000;

/// The sum of the shares of `shares`, in basis points.
pub open spec fn royalty_total(shares: Seq<(Name, u32)>) -> nat
    decreases shares.len(),
{
    if shares.len() == 0 {
        0
    } else {
        royalty_total(shares.drop_last()) + shares.last().1 as nat
    }
}

/// Whether no account occurs twice in `shares`.
pub open spec fn accounts_distinct(shares: Seq<(Name, u32)>) -> bool {
    forall|i: int, j: int| 0 <= i < j < shares.len() ==> shares[i].0 != shares[j].0
}

/// Whether `account` has a share in `shares`.
pub open spec fn has_share(shares: Seq<(Name, u32)>, account: Name) -> bool {
    exists|i: int| 0 <= i < shares.len() && (#[trigger] shares[i]).0 == account
}

#[derive(Debug)]
struct Share {
    account_id: AccountId,
    basis_points: u32,
}

spec fn shares_of(shares: Seq<Share>) -> Seq<(Name, u32)> {
    shares.map_values(|s: Share| (s.account_id@, s.basis_points))
}

/// A royalty split. Its view lists the accounts with their shares, in the
/// order in which they were added.
#[derive(Debug)]
pub struct Royalty {
    shares: Vec<Share>,
}

impl View for Royalty {
    type V = Seq<(Name, u32)>;

    closed spec fn view(&self) -> Seq<(Name, u32)> {
        shares_of(self.shares@)
    }
}

impl Royalty {
    /// What holds of every split: no account occurs twice, and the shares
    /// add up to no more than the whole.
    #[verifier::type_invariant]
    pub open spec fn is_sound(self) -> bool {
        &&& royalty_total(self@) <= WHOLE
        &&& accounts_distinct(self@)
    }

    /// The split in which nobody has a share.
    pub fn new() -> (royalty: Royalty)
        ensures
            royalty@ == Seq::<(Name, u32)>::empty(),
    {
        Royalty { shares: Vec::new() }
    }

    /// Number of accounts with a share.
    pub fn len(&self) -> (n: usize)
        ensures
            n == self@.len(),
    {
        self.shares.len()
    }

    /// The sum of the shares, which is never more than the whole.
    pub fn total(&self) -> (total: u32)
        ensures
            total == royalty_total(self@),
            total <= WHOLE,
            accounts_distinct(self@),
    {
        proof {
            use_type_invariant(self);
        }
        let ghost all = shares_of(self.shares@);
        let mut total: u32 = 0;
        let mut i: usize = 0;
        while i < self.shares.len()
            invariant
                i <= self.shares@.len(),
                all == shares_of(self.shares@),
                total == royalty_total(all.subrange(0, i as int)),
                royalty_total(all) <= WHOLE,
            decreases self.shares@.len() - i,
        {
            proof {
                lemma_total_prefix(all, i + 1);
                assert(all.subrange(0, i + 1).drop_last() =~= all.subrange(0, i as int));
            }
            total = total + self.shares[i].basis_points;
            i += 1;
        }
        proof {
            assert(all.subrange(0, i as int) =~= all);
        }
        total
    }

    /// The share of `account_id`, if it has one.
    pub fn share_of(&self, account_id: &AccountId) -> (share: Option<u32>)
        ensures
            match share {
                Some(basis_points) => self@.contains((account_id@, basis_points)),
                None => !has_share(self@, account_id@),
            },
            accounts_distinct(self@),
    {
        proof {
            use_type_invariant(self);
        }
        let mut i: usize = 0;
        while i < self.shares.len()
            invariant
                i <= self.shares@.len(),
                accounts_distinct(self@),
                forall|j: int| 0 <= j < i ==> (#[trigger] self@[j]).0 != account_id@,
            decreases self.shares@.len() - i,
        {
            if self.shares[i].account_id == *account_id {
                assert(self@[i as int] == (account_id@, self.shares@[i as int].basis_points));
                return Some(self.shares[i].basis_points);
            }
            i += 1;
        }
        None
    }

    /// Gives `account_id` a share of `basis_points`. Returns `false`, and
    /// changes nothing, where the account has a share already or where the
    /// shares would add up to more than the whole.
    pub fn add_share(&mut self, account_id: AccountId, basis_points: u32) -> (added: bool)
        ensures
            added == (!has_share(old(self)@, account_id@) && royalty_total(old(self)@)
                + basis_points <= WHOLE),
            added ==> final(self)@ == old(self)@.push((account_id@, basis_points)),
            !added ==> final(self)@ == old(self)@,
    {
        proof {
            use_type_invariant(&*self);
        }
        if self.share_of(&account_id).is_some() {
            return false;
        }
        let total = self.total();
        if basis_points > WHOLE - total {
            return false;
        }
        let mut shares: Vec<Share> = Vec::new();
        std::mem::swap(&mut shares, &mut self.shares);
        let ghost before = shares@;
        shares.push(Share { account_id, basis_points });
        proof {
            assert(shares_of(shares@).drop_last() =~= shares_of(before));
            assert forall|i: int, j: int| 0 <= i < j < shares@.len() implies shares_of(
                shares@,
            )[i].0 != shares_of(shares@)[j].0 by {
                if j == before.len() {
                    assert(shares_of(before)[i].0 == shares_of(shares@)[i].0);
                } else {
                    assert(shares_of(before)[i].0 != shares_of(before)[j].0);
                }
            }
        }
        self.shares = shares;
        true
    }

    /// A split with the same accounts and shares.
    pub fn duplicate(&self) -> (copy: Royalty)
        ensures
            copy@ == self@,
    {
        proof {
            use_type_invariant(self);
        }
        let mut shares: Vec<Share> = Vec::new();
        let mut i: usize = 0;
        while i < self.shares.len()
            invariant
                i <= self.shares@.len(),
                shares@.len() == i,
                forall|j: int|
                    0 <= j < i ==> shares@[j].account_id@ == self.shares@[j].account_id@
                        && shares@[j].basis_points == self.shares@[j].basis_points,
            decreases self.shares@.len() - i,
        {
            let account_id = self.shares[i].account_id.clone();
            let basis_points = self.shares[i].basis_points;
            shares.push(Share { account_id, basis_points });
            i += 1;
        }
        assert(shares_of(shares@) =~= shares_of(self.shares@));
        Royalty { shares }
    }

    /// The accounts and their shares, in the order of the view.
    pub fn to_vec(&self) -> (pairs: Vec<(AccountId, u32)>)
        ensures
            pairs@.len() == self@.len(),
            forall|i: int|
                0 <= i < pairs@.len() ==> (#[trigger] pairs@[i]).0@ == self@[i].0 && pairs@[i].1
                    == self@[i].1,
    {
        let mut pairs: Vec<(AccountId, u32)> = Vec::new();
        let mut i: usize = 0;
        while i < self.shares.len()
            invariant
                i <= self.shares@.len(),
                pairs@.len() == i,
                forall|j: int|
                    0 <= j < i ==> (#[trigger] pairs@[j]).0@ == self.shares@[j].account_id@
                        && pairs@[j].1 == self.shares@[j].basis_points,
            decreases self.shares@.len() - i,
        {
            pairs.push((self.shares[i].account_id.clone(), self.shares[i].basis_points));
            i += 1;
        }
        pairs
    }
}

/// The shares of a prefix add up to no more than the shares of the whole
/// list.
proof fn lemma_total_prefix(shares: Seq<(Name, u32)>, n: int)
    requires
        0 <= n <= shares.len(),
    ensures
        royalty_total(shares.subrange(0, n)) <= royalty_total(shares),
    decreases shares.len() - n,
{
    if n < shares.len() {
        lemma_total_prefix(shares, n + 1);
        assert(shares.subrange(0, n + 1).drop_last() =~= shares.subrange(0, n));
    } else {
        assert(shares.subrange(0, n) =~= shares);
    }
}

} // verus!
