//! The mathematical model of the ledger: what a token record, the owner
//! index and the category pools are, and how each operation changes them.

use crate::royalty::{accounts_distinct, royalty_total, WHOLE};
use crate::types::{LedgerError, Name, PlayerType, Rarity};
use vstd::prelude::*;

verus! {

/// The approval id that the first approval of a new token receives.
pub const FIRST_APPROVAL_ID: u64 = 1;

/// The key of a category pool.
pub type PoolKey = (PlayerType, Rarity);

/// A token's descriptive data, as the ledger carries it.
pub struct MetadataView {
    pub title: Option<Name>,
    pub description: Option<Name>,
    pub media: Option<Name>,
    pub extra: Option<Name>,
}

/// A token record.
pub struct TokenView {
    pub owner_id: Name,
    pub approved_account_ids: Map<Name, u64>,
    pub next_approval_id: u64,
    pub royalty: Seq<(Name, u32)>,
    pub token_type: PlayerType,
    pub rarity: Rarity,
}

impl TokenView {
    /// The record of a token that was just created for `owner_id`.
    pub open spec fn fresh(
        owner_id: Name,
        token_type: PlayerType,
        rarity: Rarity,
        royalty: Seq<(Name, u32)>,
    ) -> TokenView {
        TokenView {
            owner_id,
            approved_account_ids: Map::empty(),
            next_approval_id: FIRST_APPROVAL_ID,
            royalty,
            token_type,
            rarity,
        }
    }

    /// The pool that holds the token while it awaits distribution.
    pub open spec fn pool_key(self) -> PoolKey {
        (self.token_type, self.rarity)
    }

    /// Whether `caller` may move the token: the owner always may; another
    /// account needs an approval entry, and where `expected` is given, the
    /// entry must carry exactly that id.
    pub open spec fn authorization(self, caller: Name, expected: Option<u64>) -> Result<
        (),
        LedgerError,
    > {
        if caller == self.owner_id {
            Ok(())
        } else if !self.approved_account_ids.contains_key(caller) {
            Err(LedgerError::Unauthorized)
        } else if expected is Some && expected->0 != self.approved_account_ids[caller] {
            Err(LedgerError::ApprovalMismatch)
        } else {
            Ok(())
        }
    }

    /// The record after `account` was approved under the next approval id.
    pub open spec fn approved(self, account: Name) -> TokenView {
        TokenView {
            approved_account_ids: self.approved_account_ids.insert(account, self.next_approval_id),
            next_approval_id: (self.next_approval_id + 1) as u64,
            ..self
        }
    }

    /// The record without any approval.
    pub open spec fn cleared(self) -> TokenView {
        TokenView { approved_account_ids: Map::empty(), ..self }
    }

    /// The record after the token went to `receiver`: a new owner, no
    /// approvals, everything else as before.
    pub open spec fn handed_to(self, receiver: Name) -> TokenView {
        TokenView { owner_id: receiver, approved_account_ids: Map::empty(), ..self }
    }

    /// The royalty split names no account twice and gives away no more than
    /// the whole.
    pub open spec fn royalty_is_sound(self) -> bool {
        accounts_distinct(self.royalty) && royalty_total(self.royalty) <= WHOLE
    }

    /// Every recorded approval id was handed out before the counter reached
    /// its present value.
    pub open spec fn approvals_below_counter(self) -> bool {
        forall|a: Name| #[trigger]
            self.approved_account_ids.contains_key(a) ==> self.approved_account_ids[a]
                < self.next_approval_id
    }
}

/// Whether the index entry of `account` holds `token`.
pub open spec fn owner_holds(owners: Map<Name, Set<Name>>, account: Name, token: Name) -> bool {
    owners.contains_key(account) && owners[account].contains(token)
}

/// The tokens of `account`; none where it has no entry.
pub open spec fn tokens_of(owners: Map<Name, Set<Name>>, account: Name) -> Set<Name> {
    if owners.contains_key(account) {
        owners[account]
    } else {
        Set::empty()
    }
}

/// The owner index with `token` added to the entry of `account`, which is
/// created where it was missing.
pub open spec fn owner_add(owners: Map<Name, Set<Name>>, account: Name, token: Name) -> Map<
    Name,
    Set<Name>,
> {
    owners.insert(account, tokens_of(owners, account).insert(token))
}

/// The owner index with `token` taken out of the entry of `account`; an entry
/// that becomes empty is deleted.
pub open spec fn owner_remove(owners: Map<Name, Set<Name>>, account: Name, token: Name) -> Map<
    Name,
    Set<Name>,
> {
    let rest = tokens_of(owners, account).remove(token);
    if rest == Set::<Name>::empty() {
        owners.remove(account)
    } else {
        owners.insert(account, rest)
    }
}

/// The tokens of the pool `key`; a pool that was never created is empty.
pub open spec fn pool_members(pools: Map<PoolKey, Set<Name>>, key: PoolKey) -> Set<Name> {
    if pools.contains_key(key) {
        pools[key]
    } else {
        Set::empty()
    }
}

/// The pools with `token` added to the pool `key`, which is created where it
/// was missing.
pub open spec fn pool_add(pools: Map<PoolKey, Set<Name>>, key: PoolKey, token: Name) -> Map<
    PoolKey,
    Set<Name>,
> {
    pools.insert(key, pool_members(pools, key).insert(token))
}

/// The pools with `token` taken out of the pool `key`; the pool stays, also
/// when it becomes empty.
pub open spec fn pool_remove(pools: Map<PoolKey, Set<Name>>, key: PoolKey, token: Name) -> Map<
    PoolKey,
    Set<Name>,
> {
    pools.insert(key, pool_members(pools, key).remove(token))
}

/// The whole ledger: the records, the descriptive data, the owner index, the
/// category pools, and the account that holds undistributed tokens.
pub struct LedgerState {
    pub house: Name,
    pub tokens: Map<Name, TokenView>,
    pub metadata: Map<Name, MetadataView>,
    pub owners: Map<Name, Set<Name>>,
    pub pools: Map<PoolKey, Set<Name>>,
}

impl LedgerState {
    /// The ledger of `house` before any token exists.
    pub open spec fn initial(house: Name) -> LedgerState {
        LedgerState {
            house,
            tokens: Map::empty(),
            metadata: Map::empty(),
            owners: Map::empty(),
            pools: Map::empty(),
        }
    }

    /// Whether some category pool holds `token`.
    pub open spec fn in_a_pool(self, token: Name) -> bool {
        exists|key: PoolKey| #[trigger] pool_members(self.pools, key).contains(token)
    }

    /// Whether some owner's index entry holds `token`.
    pub open spec fn in_an_owner_set(self, token: Name) -> bool {
        exists|account: Name| #[trigger] owner_holds(self.owners, account, token)
    }

    /// The ledger after a new token was created in the pool of its category
    /// and rarity, owned by the house. `None` where the identifier is taken.
    pub open spec fn mint(
        self,
        token: Name,
        token_type: PlayerType,
        rarity: Rarity,
        royalty: Seq<(Name, u32)>,
        metadata: MetadataView,
    ) -> Option<LedgerState> {
        if self.tokens.contains_key(token) || self.metadata.contains_key(token) {
            None
        } else {
            Some(
                LedgerState {
                    tokens: self.tokens.insert(
                        token,
                        TokenView::fresh(self.house, token_type, rarity, royalty),
                    ),
                    metadata: self.metadata.insert(token, metadata),
                    pools: pool_add(self.pools, (token_type, rarity), token),
                    ..self
                },
            )
        }
    }

    /// The ledger after `account` was approved for `token`.
    pub open spec fn approve(self, token: Name, account: Name) -> Result<LedgerState, LedgerError> {
        if !self.tokens.contains_key(token) {
            Err(LedgerError::TokenNotFound)
        } else {
            Ok(
                LedgerState {
                    tokens: self.tokens.insert(token, self.tokens[token].approved(account)),
                    ..self
                },
            )
        }
    }

    /// The ledger after all approvals of `token` were wiped.
    pub open spec fn clear_all(self, token: Name) -> Result<LedgerState, LedgerError> {
        if !self.tokens.contains_key(token) {
            Err(LedgerError::TokenNotFound)
        } else {
            Ok(
                LedgerState {
                    tokens: self.tokens.insert(token, self.tokens[token].cleared()),
                    ..self
                },
            )
        }
    }

    /// Whether `caller` may move `token`.
    pub open spec fn is_authorized(self, token: Name, caller: Name, expected: Option<u64>) -> bool {
        self.tokens.contains_key(token) && self.tokens[token].authorization(caller, expected) is Ok
    }

    /// The transfer of `token` to `receiver` on behalf of `sender`: the
    /// ledger after it, or the reason for which it is refused. What can stand
    /// in its way is looked at in this order: the record, the sender's right,
    /// the receiver, the owner's index entry.
    pub open spec fn transfer(
        self,
        sender: Name,
        receiver: Name,
        token: Name,
        approval_id: Option<u64>,
    ) -> Result<LedgerState, LedgerError> {
        if !self.tokens.contains_key(token) {
            Err(LedgerError::TokenNotFound)
        } else {
            let record = self.tokens[token];
            match record.authorization(sender, approval_id) {
                Err(e) => Err(e),
                Ok(_) => {
                    if record.owner_id == receiver {
                        Err(LedgerError::NoOpTransferRejected)
                    } else if !owner_holds(self.owners, record.owner_id, token) {
                        Err(LedgerError::InvariantViolation)
                    } else {
                        Ok(
                            LedgerState {
                                tokens: self.tokens.insert(token, record.handed_to(receiver)),
                                owners: owner_add(
                                    owner_remove(self.owners, record.owner_id, token),
                                    receiver,
                                    token,
                                ),
                                ..self
                            },
                        )
                    }
                },
            }
        }
    }

    /// The distribution of `token` out of the pool of `token_type` and
    /// `rarity` to `receiver`: the ledger after it, or the reason for which it
    /// is refused. What can stand in its way is looked at in this order: the
    /// record, its owner, the receiver, the pool, the descriptive data.
    pub open spec fn distribute(
        self,
        receiver: Name,
        token: Name,
        token_type: PlayerType,
        rarity: Rarity,
    ) -> Result<LedgerState, LedgerError> {
        if !self.tokens.contains_key(token) {
            Err(LedgerError::TokenNotFound)
        } else if self.tokens[token].owner_id != self.house {
            Err(LedgerError::PoolInconsistency)
        } else if receiver == self.house {
            Err(LedgerError::NoOpTransferRejected)
        } else if !pool_members(self.pools, (token_type, rarity)).contains(token) {
            Err(LedgerError::PoolInconsistency)
        } else if !self.metadata.contains_key(token) {
            Err(LedgerError::InvariantViolation)
        } else {
            Ok(
                LedgerState {
                    tokens: self.tokens.insert(token, self.tokens[token].handed_to(receiver)),
                    owners: owner_add(self.owners, receiver, token),
                    pools: pool_remove(self.pools, (token_type, rarity), token),
                    ..self
                },
            )
        }
    }

    /// The records, the owner index, the pools and the approval tables agree:
    /// - no owner has an empty index entry;
    /// - a token in an owner's entry has a record that names this owner, and is
    ///   in no pool;
    /// - a token in a pool has a record that names the house, and the pool is
    ///   the one of its category and rarity;
    /// - a token with a record is in a pool or in its owner's entry;
    /// - a token has a record exactly if it has descriptive data;
    /// - every recorded approval id is below the token's counter;
    /// - no royalty split gives away more than the whole.
    pub open spec fn valid(self) -> bool {
        &&& forall|account: Name| #[trigger]
            self.owners.contains_key(account) ==> self.owners[account] != Set::<Name>::empty()
        &&& forall|account: Name, token: Name| #[trigger]
            owner_holds(self.owners, account, token) ==> {
                &&& self.tokens.contains_key(token)
                &&& self.tokens[token].owner_id == account
                &&& !self.in_a_pool(token)
            }
        &&& forall|key: PoolKey, token: Name| #[trigger]
            pool_members(self.pools, key).contains(token) ==> {
                &&& self.tokens.contains_key(token)
                &&& self.tokens[token].owner_id == self.house
                &&& self.tokens[token].pool_key() == key
            }
        &&& forall|token: Name| #[trigger]
            self.tokens.contains_key(token) ==> {
                &&& self.in_a_pool(token) || owner_holds(
                    self.owners,
                    self.tokens[token].owner_id,
                    token,
                )
                &&& self.metadata.contains_key(token)
                &&& self.tokens[token].approvals_below_counter()
                &&& self.tokens[token].royalty_is_sound()
            }
        &&& forall|token: Name| #[trigger]
            self.metadata.contains_key(token) ==> self.tokens.contains_key(token)
    }

    /// Whether one successful operation leads from this ledger to `next`: the
    /// creation of a token with a sound royalty split, an approval that the
    /// token's counter has room for, the wiping of a token's approvals, a
    /// transfer, or a distribution out of a pool.
    pub open spec fn step(self, next: LedgerState) -> bool {
        ||| exists|
            token: Name,
            token_type: PlayerType,
            rarity: Rarity,
            royalty: Seq<(Name, u32)>,
            metadata: MetadataView,
        |
            TokenView::fresh(self.house, token_type, rarity, royalty).royalty_is_sound()
                && #[trigger] self.mint(token, token_type, rarity, royalty, metadata) == Some(next)
        ||| exists|token: Name, account: Name|
            self.tokens[token].next_approval_id < u64::MAX && #[trigger] self.approve(
                token,
                account,
            ) == Ok::<LedgerState, LedgerError>(next)
        ||| exists|token: Name| #[trigger]
            self.clear_all(token) == Ok::<LedgerState, LedgerError>(next)
        ||| exists|sender: Name, receiver: Name, token: Name, approval_id: Option<u64>|
            #[trigger] self.transfer(sender, receiver, token, approval_id) == Ok::<
                LedgerState,
                LedgerError,
            >(next)
        ||| exists|receiver: Name, token: Name, token_type: PlayerType, rarity: Rarity|
            #[trigger] self.distribute(receiver, token, token_type, rarity) == Ok::<
                LedgerState,
                LedgerError,
            >(next)
    }
}

} // verus!
