//! The token ledger: the record of each token, the one source of truth about
//! who owns it.

use crate::model::TokenView;
use crate::string_map::StringMap;
use crate::token::Token;
use crate::token_set::names_of;
use crate::types::{LedgerError, Name, TokenId};
use vstd::prelude::*;

verus! {

/// The records by token identifier.
pub struct TokenLedger {
    records: StringMap<Token>,
}

impl View for TokenLedger {
    type V = Map<Name, TokenView>;

    closed spec fn view(&self) -> Map<Name, TokenView> {
        self.records@.map_values(|t: Token| t@)
    }
}

impl TokenLedger {
    /// The ledger without records.
    pub fn new() -> (ledger: TokenLedger)
        ensures
            ledger@ == Map::<Name, TokenView>::empty(),
    {
        TokenLedger { records: StringMap::new() }
    }

    /// Whether `token_id` has a record.
    pub fn contains(&self, token_id: &TokenId) -> (present: bool)
        ensures
            present == self@.contains_key(token_id@),
    {
        self.records.contains_key(token_id)
    }

    /// The record of `token_id`, or `TokenNotFound`.
    pub fn get(&self, token_id: &TokenId) -> (record: Result<&Token, LedgerError>)
        ensures
            match record {
                Ok(token) => self@.contains_key(token_id@) && token@ == self@[token_id@],
                Err(e) => e == LedgerError::TokenNotFound && !self@.contains_key(token_id@),
            },
    {
        match self.records.get(token_id) {
            Some(token) => Ok(token),
            None => Err(LedgerError::TokenNotFound),
        }
    }

    /// Writes `record` as the record of `token_id`, over any earlier one.
    pub fn put(&mut self, token_id: TokenId, record: Token)
        ensures
            final(self)@ == old(self)@.insert(token_id@, record@),
    {
        self.records.insert(token_id, record);
    }

    /// The identifiers that have a record, each once.
    pub fn token_ids(&self) -> (ids: Vec<TokenId>)
        ensures
            names_of(ids@).no_duplicates(),
            names_of(ids@).to_set() == self@.dom(),
    {
        self.records.keys()
    }
}

} // verus!
