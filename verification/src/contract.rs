//! The store and the operations that change it. Each operation either
//! updates the records, the owner index and the category pools together, or
//! fails and leaves all of them as they were.

use crate::laws::{
    lemma_approve_keeps_valid, lemma_clear_all_keeps_valid, lemma_distribute_keeps_valid,
    lemma_initial_valid, lemma_mint_keeps_valid, lemma_token_in_exactly_one_place,
    lemma_transfer_keeps_valid,
};
use crate::model::{owner_holds, pool_members, LedgerState, MetadataView};
use crate::owner_index::OwnerIndex;
use crate::pool_index::PoolIndex;
use crate::royalty::Royalty;
use crate::string_map::StringMap;
use crate::token::{text_view, Token, TokenMetadata};
use crate::token_ledger::TokenLedger;
use crate::types::{AccountId, LedgerError, Name, PlayerType, Rarity, TokenId};
use vstd::prelude::*;

verus! {

/// The record of a transfer, for whoever watches the ledger.
#[derive(Debug)]
pub struct TransferEvent {
    pub sender_id: AccountId,
    pub receiver_id: AccountId,
    pub token_id: TokenId,
    pub memo: Option<String>,
}

/// The view of a transfer event.
pub struct TransferEventView {
    pub sender_id: Name,
    pub receiver_id: Name,
    pub token_id: Name,
    pub memo: Option<Name>,
}

impl View for TransferEvent {
    type V = TransferEventView;

    open spec fn view(&self) -> TransferEventView {
        TransferEventView {
            sender_id: self.sender_id@,
            receiver_id: self.receiver_id@,
            token_id: self.token_id@,
            memo: text_view(self.memo),
        }
    }
}

/// Where a token is.
#[derive(Debug, PartialEq, Eq)]
pub enum Place {
    /// In the index entry of this owner.
    Owner(AccountId),
    /// In the pool of this category and rarity.
    Pool(PlayerType, Rarity),
}

/// What a store is made of: the house account, the token ledger, the owner
/// index, the category pools and the descriptive data.
struct Stores {
    owner_id: AccountId,
    tokens_by_id: TokenLedger,
    tokens_per_owner: OwnerIndex,
    packs: PoolIndex,
    token_metadata_by_id: StringMap<TokenMetadata>,
}

impl View for Stores {
    type V = LedgerState;

    closed spec fn view(&self) -> LedgerState {
        LedgerState {
            house: self.owner_id@,
            tokens: self.tokens_by_id@,
            metadata: self.token_metadata_by_id@.map_values(|m: TokenMetadata| m@),
            owners: self.tokens_per_owner@,
            pools: self.packs@,
        }
    }
}

/// The store: the token ledger, the owner index, the category pools and the
/// descriptive data, under the account that holds undistributed tokens. A
/// store is valid at all times: every token with a record is in exactly one
/// place.
pub struct Contract {
    stores: Stores,
}

impl View for Contract {
    type V = LedgerState;

    closed spec fn view(&self) -> LedgerState {
        self.stores@
    }
}

impl Contract {
    #[verifier::type_invariant]
    spec fn consistent(self) -> bool {
        self.stores@.valid()
    }

    /// The store of the house account `owner_id`, without tokens.
    pub fn new(owner_id: AccountId) -> (contract: Contract)
        ensures
            contract@ == LedgerState::initial(owner_id@),
            contract@.valid(),
    {
        let stores = Stores {
            owner_id,
            tokens_by_id: TokenLedger::new(),
            tokens_per_owner: OwnerIndex::new(),
            packs: PoolIndex::new(),
            token_metadata_by_id: StringMap::new(),
        };
        proof {
            assert(stores@.metadata =~= Map::<Name, MetadataView>::empty());
            lemma_initial_valid(owner_id@);
        }
        Contract { stores }
    }

    /// Takes the stores out for an update, and leaves those of a store
    /// without tokens.
    fn take(&mut self) -> (stores: Stores)
        ensures
            stores == old(self).stores,
    {
        let mut empty = Contract::new(String::new());
        std::mem::swap(self, &mut empty);
        empty.stores
    }

    /// Puts the updated stores in.
    fn put_back(&mut self, stores: Stores)
        requires
            stores@.valid(),
        ensures
            final(self).stores == stores,
    {
        *self = Contract { stores };
    }

    /// The house account.
    pub fn owner_id(&self) -> (owner_id: &AccountId)
        ensures
            owner_id@ == self@.house,
    {
        &self.stores.owner_id
    }

    /// Whether `account_id` is the house account.
    pub fn is_owner(&self, account_id: &AccountId) -> (owner: bool)
        ensures
            owner == (account_id@ == self@.house),
    {
        *account_id == self.stores.owner_id
    }

    /// The token ledger, to read. What is read there agrees with the owner
    /// index and the pools.
    pub fn tokens(&self) -> (ledger: &TokenLedger)
        ensures
            ledger@ == self@.tokens,
            self@.valid(),
    {
        proof {
            use_type_invariant(self);
        }
        &self.stores.tokens_by_id
    }

    /// The owner index, to read. What is read there agrees with the records
    /// and the pools.
    pub fn owners(&self) -> (index: &OwnerIndex)
        ensures
            index@ == self@.owners,
            self@.valid(),
    {
        proof {
            use_type_invariant(self);
        }
        &self.stores.tokens_per_owner
    }

    /// The category pools, to read. What is read there agrees with the
    /// records and the owner index.
    pub fn pools(&self) -> (index: &PoolIndex)
        ensures
            index@ == self@.pools,
            self@.valid(),
    {
        proof {
            use_type_invariant(self);
        }
        &self.stores.packs
    }

    /// The one place where `token_id` is: the pool of its category and
    /// rarity, or else the index entry of its owner. `None` where the token
    /// has no record.
    pub fn place_of(&self, token_id: &TokenId) -> (place: Option<Place>)
        ensures
            match place {
                None => !self@.tokens.contains_key(token_id@),
                Some(Place::Pool(token_type, rarity)) => {
                    &&& self@.tokens.contains_key(token_id@)
                    &&& self@.tokens[token_id@].pool_key() == (token_type, rarity)
                    &&& pool_members(self@.pools, (token_type, rarity)).contains(token_id@)
                    &&& !self@.in_an_owner_set(token_id@)
                },
                Some(Place::Owner(owner_id)) => {
                    &&& self@.tokens.contains_key(token_id@)
                    &&& self@.tokens[token_id@].owner_id == owner_id@
                    &&& owner_holds(self@.owners, owner_id@, token_id@)
                    &&& !self@.in_a_pool(token_id@)
                },
            },
    {
        proof {
            use_type_invariant(self);
        }
        let token = match self.stores.tokens_by_id.get(token_id) {
            Ok(token) => token,
            Err(_) => {
                return None;
            },
        };
        proof {
            lemma_token_in_exactly_one_place(self@, token_id@);
        }
        if self.stores.packs.contains(&token.token_type, &token.rarity, token_id) {
            assert(pool_members(self@.pools, token@.pool_key()).contains(token_id@));
            Some(Place::Pool(token.token_type, token.rarity))
        } else {
            Some(Place::Owner(token.owner_id.clone()))
        }
    }

    /// The descriptive data of `token_id`, if it has any.
    pub fn token_metadata(&self, token_id: &TokenId) -> (metadata: Option<&TokenMetadata>)
        ensures
            match metadata {
                Some(m) => self@.metadata.contains_key(token_id@) && m@
                    == self@.metadata[token_id@],
                None => !self@.metadata.contains_key(token_id@),
            },
    {
        self.stores.token_metadata_by_id.get(token_id)
    }

    /// Creates the token `token_id` in the pool of its category and rarity,
    /// owned by the house, without approvals. Returns `false`, and changes
    /// nothing, where the identifier is taken.
    pub fn mint_to_pack(
        &mut self,
        token_id: &TokenId,
        token_type: PlayerType,
        rarity: Rarity,
        royalty: Royalty,
        metadata: TokenMetadata,
    ) -> (minted: bool)
        ensures
            minted == old(self)@.mint(token_id@, token_type, rarity, royalty@, metadata@) is Some,
            minted ==> final(self)@ == old(self)@.mint(
                token_id@,
                token_type,
                rarity,
                royalty@,
                metadata@,
            )->0,
            !minted ==> *final(self) == *old(self),
            final(self)@.valid(),
            minted ==> old(self)@.step(final(self)@),
    {
        proof {
            use_type_invariant(&*self);
        }
        if self.stores.tokens_by_id.contains(token_id)
            || self.stores.token_metadata_by_id.contains_key(token_id) {
            return false;
        }
        let token = Token::new(self.stores.owner_id.clone(), token_type, rarity, royalty);
        let mut stores = self.take();
        stores.tokens_by_id.put(token_id.clone(), token);
        stores.token_metadata_by_id.insert(token_id.clone(), metadata);
        stores.packs.internal_add_token_to_pack(&token_type, &rarity, token_id);
        proof {
            let next = old(self)@.mint(token_id@, token_type, rarity, royalty@, metadata@)->0;
            assert(stores@.metadata =~= next.metadata);
            lemma_mint_keeps_valid(old(self)@, token_id@, token_type, rarity, royalty@, metadata@);
        }
        self.put_back(stores);
        true
    }

    /// Approves `account_id` to move `token_id` and returns the approval id,
    /// which no earlier approval of this token had. An earlier approval of the
    /// same account is replaced. Fails with `TokenNotFound` where the token
    /// has no record.
    pub fn approve(&mut self, token_id: &TokenId, account_id: &AccountId) -> (approval: Result<
        u64,
        LedgerError,
    >)
        requires
            old(self)@.tokens.contains_key(token_id@) ==> old(
                self,
            )@.tokens[token_id@].next_approval_id < u64::MAX,
        ensures
            match approval {
                Ok(id) => old(self)@.approve(token_id@, account_id@) is Ok && final(self)@ == old(
                    self,
                )@.approve(token_id@, account_id@)->Ok_0 && id
                    == old(self)@.tokens[token_id@].next_approval_id,
                Err(e) => old(self)@.approve(token_id@, account_id@) == Err::<
                    LedgerState,
                    LedgerError,
                >(e) && *final(self) == *old(self),
            },
            final(self)@.valid(),
            approval is Ok ==> old(self)@.step(final(self)@),
    {
        proof {
            use_type_invariant(&*self);
        }
        let mut record = match self.stores.tokens_by_id.get(token_id) {
            Ok(token) => token.duplicate(),
            Err(e) => {
                return Err(e);
            },
        };
        let id = record.approve(account_id.clone());
        let mut stores = self.take();
        stores.tokens_by_id.put(token_id.clone(), record);
        proof {
            lemma_approve_keeps_valid(old(self)@, token_id@, account_id@);
        }
        self.put_back(stores);
        Ok(id)
    }

    /// Whether `caller` may move `token_id`: the owner may; another account
    /// may if it is approved and, where `expected` is given, approved under
    /// exactly that id. Nobody may move a token without a record.
    pub fn is_authorized(
        &self,
        token_id: &TokenId,
        caller: &AccountId,
        expected: Option<u64>,
    ) -> (allowed: bool)
        ensures
            allowed == self@.is_authorized(token_id@, caller@, expected),
    {
        match self.stores.tokens_by_id.get(token_id) {
            Ok(token) => token.is_authorized(caller, expected),
            Err(_) => false,
        }
    }

    /// Wipes the approvals of `token_id`. Fails with `TokenNotFound` where
    /// the token has no record.
    pub fn clear_all(&mut self, token_id: &TokenId) -> (done: Result<(), LedgerError>)
        ensures
            match done {
                Ok(_) => old(self)@.clear_all(token_id@) is Ok && final(self)@ == old(
                    self,
                )@.clear_all(token_id@)->Ok_0,
                Err(e) => old(self)@.clear_all(token_id@) == Err::<LedgerState, LedgerError>(e)
                    && *final(self) == *old(self),
            },
            final(self)@.valid(),
            done is Ok ==> old(self)@.step(final(self)@),
    {
        proof {
            use_type_invariant(&*self);
        }
        let mut record = match self.stores.tokens_by_id.get(token_id) {
            Ok(token) => token.duplicate(),
            Err(e) => {
                return Err(e);
            },
        };
        record.clear_all();
        let mut stores = self.take();
        stores.tokens_by_id.put(token_id.clone(), record);
        proof {
            lemma_clear_all_keeps_valid(old(self)@, token_id@);
        }
        self.put_back(stores);
        Ok(())
    }

    /// Moves `token_id` to `receiver_id` on behalf of `sender_id`.
    ///
    /// The transfer is refused, in this order, with `TokenNotFound` where the
    /// token has no record; with `Unauthorized` where the sender is neither
    /// the owner nor approved; with `ApprovalMismatch` where the sender is
    /// approved under another id than `approval_id`; with
    /// `NoOpTransferRejected` where the receiver is the owner; with
    /// `InvariantViolation` where the owner's index entry does not hold the
    /// token. A refused transfer changes nothing.
    ///
    /// Otherwise the token leaves the owner's index entry and enters the
    /// receiver's, and its record gets the receiver as owner and an empty
    /// approval table. The record as it was before and the event of the
    /// transfer are returned.
    pub fn internal_transfer(
        &mut self,
        sender_id: &AccountId,
        receiver_id: &AccountId,
        token_id: &TokenId,
        approval_id: Option<u64>,
        memo: Option<String>,
    ) -> (outcome: Result<(Token, TransferEvent), LedgerError>)
        ensures
            match outcome {
                Ok((previous, event)) => {
                    &&& old(self)@.transfer(sender_id@, receiver_id@, token_id@, approval_id) is Ok
                    &&& final(self)@ == old(self)@.transfer(
                        sender_id@,
                        receiver_id@,
                        token_id@,
                        approval_id,
                    )->Ok_0
                    &&& final(self)@.tokens[token_id@].owner_id == receiver_id@
                    &&& final(self)@.tokens[token_id@].approved_account_ids == Map::<
                        Name,
                        u64,
                    >::empty()
                    &&& previous@ == old(self)@.tokens[token_id@]
                    &&& event@ == (TransferEventView {
                        sender_id: sender_id@,
                        receiver_id: receiver_id@,
                        token_id: token_id@,
                        memo: text_view(memo),
                    })
                },
                Err(e) => old(self)@.transfer(sender_id@, receiver_id@, token_id@, approval_id)
                    == Err::<LedgerState, LedgerError>(e) && *final(self) == *old(self),
            },
            final(self)@.valid(),
            outcome is Ok ==> old(self)@.step(final(self)@),
    {
        proof {
            use_type_invariant(&*self);
        }
        let token = match self.stores.tokens_by_id.get(token_id) {
            Ok(token) => token,
            Err(e) => {
                return Err(e);
            },
        };
        match token.authorize(sender_id, approval_id) {
            Ok(_) => {},
            Err(e) => {
                return Err(e);
            },
        }
        if token.owner_id == *receiver_id {
            return Err(LedgerError::NoOpTransferRejected);
        }
        if !self.stores.tokens_per_owner.holds(&token.owner_id, token_id) {
            return Err(LedgerError::InvariantViolation);
        }
        let previous = token.duplicate();
        let new_token = token.handed_to(receiver_id.clone());

        let mut stores = self.take();
        match stores.tokens_per_owner.internal_remove_token_from_owner(
            &previous.owner_id,
            token_id,
        ) {
            Ok(_) => {},
            Err(_) => vstd::pervasive::unreached(),
        }
        stores.tokens_per_owner.internal_add_token_to_owner(receiver_id, token_id);
        stores.tokens_by_id.put(token_id.clone(), new_token);
        proof {
            lemma_transfer_keeps_valid(
                old(self)@,
                sender_id@,
                receiver_id@,
                token_id@,
                approval_id,
            );
        }
        self.put_back(stores);

        let event = TransferEvent {
            sender_id: sender_id.clone(),
            receiver_id: receiver_id.clone(),
            token_id: token_id.clone(),
            memo,
        };
        Ok((previous, event))
    }

    /// Hands `token_id` out of the pool of `player_type` and `rarity` to
    /// `receiver_id`, and returns its descriptive data.
    ///
    /// The distribution is refused, in this order, with `TokenNotFound` where
    /// the token has no record; with `PoolInconsistency` where its owner is
    /// not the house; with `NoOpTransferRejected` where the receiver is the
    /// house; with `PoolInconsistency` where the pool does not hold the token;
    /// with `InvariantViolation` where the token has no descriptive data. A
    /// refused distribution changes nothing.
    ///
    /// Otherwise the token leaves the pool and enters the receiver's index
    /// entry, and its record gets the receiver as owner and an empty approval
    /// table.
    pub fn internal_transfer_token_from_pack(
        &mut self,
        receiver_id: &AccountId,
        token_id: &TokenId,
        player_type: &PlayerType,
        rarity: &Rarity,
    ) -> (outcome: Result<TokenMetadata, LedgerError>)
        ensures
            match outcome {
                Ok(metadata) => {
                    &&& old(self)@.distribute(receiver_id@, token_id@, *player_type, *rarity) is Ok
                    &&& final(self)@ == old(self)@.distribute(
                        receiver_id@,
                        token_id@,
                        *player_type,
                        *rarity,
                    )->Ok_0
                    &&& final(self)@.tokens[token_id@].owner_id == receiver_id@
                    &&& final(self)@.tokens[token_id@].approved_account_ids == Map::<
                        Name,
                        u64,
                    >::empty()
                    &&& metadata@ == old(self)@.metadata[token_id@]
                },
                Err(e) => old(self)@.distribute(receiver_id@, token_id@, *player_type, *rarity)
                    == Err::<LedgerState, LedgerError>(e) && *final(self) == *old(self),
            },
            final(self)@.valid(),
            outcome is Ok ==> old(self)@.step(final(self)@),
    {
        proof {
            use_type_invariant(&*self);
        }
        let token = match self.stores.tokens_by_id.get(token_id) {
            Ok(token) => token,
            Err(e) => {
                return Err(e);
            },
        };
        if token.owner_id != self.stores.owner_id {
            return Err(LedgerError::PoolInconsistency);
        }
        if *receiver_id == self.stores.owner_id {
            return Err(LedgerError::NoOpTransferRejected);
        }
        if !self.stores.packs.contains(player_type, rarity, token_id) {
            return Err(LedgerError::PoolInconsistency);
        }
        let metadata = match self.stores.token_metadata_by_id.get(token_id) {
            Some(token_metadata) => token_metadata.duplicate(),
            None => {
                return Err(LedgerError::InvariantViolation);
            },
        };
        let new_token = token.handed_to(receiver_id.clone());

        let mut stores = self.take();
        match stores.packs.internal_remove_token_from_pack(player_type, rarity, token_id) {
            Ok(_) => {},
            Err(_) => vstd::pervasive::unreached(),
        }
        stores.tokens_per_owner.internal_add_token_to_owner(receiver_id, token_id);
        stores.tokens_by_id.put(token_id.clone(), new_token);
        proof {
            lemma_distribute_keeps_valid(
                old(self)@,
                receiver_id@,
                token_id@,
                *player_type,
                *rarity,
            );
        }
        self.put_back(stores);
        Ok(metadata)
    }
}

} // verus!
