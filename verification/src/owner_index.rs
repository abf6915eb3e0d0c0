//! The owner index: for each owner the set of the tokens it holds.

use crate::model::{owner_add, owner_holds, owner_remove, tokens_of};
use crate::string_map::StringMap;
use crate::token_set::{names_of, TokenSet};
use crate::types::{AccountId, LedgerError, Name, TokenId};
use vstd::prelude::*;

verus! {

/// The token sets by owner. An owner without tokens has no entry.
pub struct OwnerIndex {
    sets: StringMap<TokenSet>,
}

impl View for OwnerIndex {
    type V = Map<Name, Set<Name>>;

    closed spec fn view(&self) -> Map<Name, Set<Name>> {
        self.sets@.map_values(|s: TokenSet| s@)
    }
}

impl OwnerIndex {
    /// The index without entries.
    pub fn new() -> (index: OwnerIndex)
        ensures
            index@ == Map::<Name, Set<Name>>::empty(),
    {
        OwnerIndex { sets: StringMap::new() }
    }

    /// Whether the entry of `account_id` holds `token_id`.
    pub fn holds(&self, account_id: &AccountId, token_id: &TokenId) -> (held: bool)
        ensures
            held == owner_holds(self@, account_id@, token_id@),
    {
        match self.sets.get(account_id) {
            Some(set) => set.contains(token_id),
            None => false,
        }
    }

    /// The tokens of `account_id`, each once; none where it has no entry.
    pub fn tokens_for_owner(&self, account_id: &AccountId) -> (ids: Vec<TokenId>)
        ensures
            names_of(ids@).no_duplicates(),
            names_of(ids@).to_set() == tokens_of(self@, account_id@),
    {
        match self.sets.get(account_id) {
            Some(set) => set.to_vec(),
            None => Vec::new(),
        }
    }

    /// The owners that have an entry, each once.
    pub fn owners(&self) -> (ids: Vec<AccountId>)
        ensures
            names_of(ids@).no_duplicates(),
            names_of(ids@).to_set() == self@.dom(),
    {
        self.sets.keys()
    }

    /// Puts `token_id` into the entry of `account_id`, which is created where
    /// it was missing.
    pub fn internal_add_token_to_owner(&mut self, account_id: &AccountId, token_id: &TokenId)
        ensures
            final(self)@ == owner_add(old(self)@, account_id@, token_id@),
    {
        let mut tokens_set = match self.sets.remove(account_id) {
            Some(set) => set,
            None => TokenSet::new(),
        };
        tokens_set.insert(token_id.clone());
        self.sets.insert(account_id.clone(), tokens_set);
    }

    /// Takes `token_id` out of the entry of `account_id`, and deletes the
    /// entry if nothing is left in it. Where the entry does not hold the token
    /// the index stays as it is and the call fails with `InvariantViolation`.
    pub fn internal_remove_token_from_owner(
        &mut self,
        account_id: &AccountId,
        token_id: &TokenId,
    ) -> (done: Result<(), LedgerError>)
        ensures
            match done {
                Ok(_) => owner_holds(old(self)@, account_id@, token_id@) && final(self)@
                    == owner_remove(old(self)@, account_id@, token_id@),
                Err(e) => e == LedgerError::InvariantViolation && !owner_holds(
                    old(self)@,
                    account_id@,
                    token_id@,
                ) && *final(self) == *old(self),
            },
    {
        if !self.holds(account_id, token_id) {
            return Err(LedgerError::InvariantViolation);
        }
        match self.sets.remove(account_id) {
            Some(mut tokens_set) => {
                tokens_set.remove(token_id);
                if !tokens_set.is_empty() {
                    self.sets.insert(account_id.clone(), tokens_set);
                }
                Ok(())
            },
            None => vstd::pervasive::unreached(),
        }
    }
}

} // verus!
