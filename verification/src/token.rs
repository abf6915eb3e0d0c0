//! Token records and their approval table.

use crate::model::{MetadataView, TokenView, FIRST_APPROVAL_ID};
use crate::royalty::Royalty;
use crate::string_map::StringMap;
use crate::types::{AccountId, LedgerError, PlayerType, Rarity};
use vstd::prelude::*;

verus! {

/// A copy of an optional string.
fn duplicate_text(text: &Option<String>) -> (copy: Option<String>)
    ensures
        copy is Some == text is Some,
        copy is Some ==> copy->0@ == text->0@,
{
    match text {
        Some(s) => Some(s.clone()),
        None => None,
    }
}

/// The view of an optional string.
pub open spec fn text_view(text: Option<String>) -> Option<Seq<char>> {
    match text {
        Some(s) => Some(s@),
        None => None,
    }
}

/// Descriptive data of a token. The ledger stores it and hands it out, and
/// never looks into it.
#[derive(Debug)]
pub struct TokenMetadata {
    pub title: Option<String>,
    pub description: Option<String>,
    pub media: Option<String>,
    pub extra: Option<String>,
}

impl View for TokenMetadata {
    type V = MetadataView;

    open spec fn view(&self) -> MetadataView {
        MetadataView {
            title: text_view(self.title),
            description: text_view(self.description),
            media: text_view(self.media),
            extra: text_view(self.extra),
        }
    }
}

impl TokenMetadata {
    /// Descriptive data with the same content.
    pub fn duplicate(&self) -> (copy: TokenMetadata)
        ensures
            copy@ == self@,
    {
        TokenMetadata {
            title: duplicate_text(&self.title),
            description: duplicate_text(&self.description),
            media: duplicate_text(&self.media),
            extra: duplicate_text(&self.extra),
        }
    }
}

/// The record of a token: its owner, the accounts approved to move it with
/// the approval id of each, the id that the next approval will get, the
/// royalty split, and the category and rarity by which it is pooled.
#[derive(Debug)]
pub struct Token {
    pub owner_id: AccountId,
    pub approved_account_ids: StringMap<u64>,
    pub next_approval_id: u64,
    pub royalty: Royalty,
    pub token_type: PlayerType,
    pub rarity: Rarity,
}

impl View for Token {
    type V = TokenView;

    open spec fn view(&self) -> TokenView {
        TokenView {
            owner_id: self.owner_id@,
            approved_account_ids: self.approved_account_ids@,
            next_approval_id: self.next_approval_id,
            royalty: self.royalty@,
            token_type: self.token_type,
            rarity: self.rarity,
        }
    }
}

impl Token {
    /// The record of a new token of `owner_id`: no approvals yet, and the
    /// first approval will get `FIRST_APPROVAL_ID`.
    pub fn new(
        owner_id: AccountId,
        token_type: PlayerType,
        rarity: Rarity,
        royalty: Royalty,
    ) -> (token: Token)
        ensures
            token@ == TokenView::fresh(owner_id@, token_type, rarity, royalty@),
            token@.royalty_is_sound(),
    {
        proof {
            use_type_invariant(&royalty);
        }
        Token {
            owner_id,
            approved_account_ids: StringMap::new(),
            next_approval_id: FIRST_APPROVAL_ID,
            royalty,
            token_type,
            rarity,
        }
    }

    /// A record with the same content.
    pub fn duplicate(&self) -> (copy: Token)
        ensures
            copy@ == self@,
    {
        Token {
            owner_id: self.owner_id.clone(),
            approved_account_ids: self.approved_account_ids.duplicate(),
            next_approval_id: self.next_approval_id,
            royalty: self.royalty.duplicate(),
            token_type: self.token_type,
            rarity: self.rarity,
        }
    }

    /// Approves `account_id` under the next approval id, which is returned;
    /// an earlier approval of the same account is replaced. The counter
    /// moves on, so that no id is handed out twice.
    pub fn approve(&mut self, account_id: AccountId) -> (approval_id: u64)
        requires
            old(self).next_approval_id < u64::MAX,
        ensures
            final(self)@ == old(self)@.approved(account_id@),
            approval_id == old(self).next_approval_id,
    {
        let approval_id = self.next_approval_id;
        self.approved_account_ids.insert(account_id, approval_id);
        self.next_approval_id = approval_id + 1;
        approval_id
    }

    /// Whether `caller` may move the token, and if not, why: `Unauthorized`
    /// for a caller that is neither the owner nor approved, `ApprovalMismatch`
    /// for one that is approved under another id than `expected`.
    pub fn authorize(&self, caller: &AccountId, expected: Option<u64>) -> (verdict: Result<
        (),
        LedgerError,
    >)
        ensures
            verdict == self@.authorization(caller@, expected),
    {
        if *caller == self.owner_id {
            return Ok(());
        }
        match self.approved_account_ids.get(caller) {
            None => Err(LedgerError::Unauthorized),
            Some(actual) => match expected {
                Some(id) => {
                    if id != *actual {
                        Err(LedgerError::ApprovalMismatch)
                    } else {
                        Ok(())
                    }
                },
                None => Ok(()),
            },
        }
    }

    /// Whether `caller` may move the token: the owner may; another account
    /// may if it is approved and, where `expected` is given, approved under
    /// exactly that id.
    pub fn is_authorized(&self, caller: &AccountId, expected: Option<u64>) -> (allowed: bool)
        ensures
            allowed == (self@.authorization(caller@, expected) is Ok),
    {
        self.authorize(caller, expected).is_ok()
    }

    /// Wipes the approval table.
    pub fn clear_all(&mut self)
        ensures
            final(self)@ == old(self)@.cleared(),
    {
        self.approved_account_ids = StringMap::new();
    }

    /// The record that replaces this one when the token goes to
    /// `receiver_id`: the new owner, no approvals, the counter, the royalty
    /// split, the category and the rarity as they are.
    pub fn handed_to(&self, receiver_id: AccountId) -> (next: Token)
        ensures
            next@ == self@.handed_to(receiver_id@),
    {
        Token {
            owner_id: receiver_id,
            approved_account_ids: StringMap::new(),
            next_approval_id: self.next_approval_id,
            royalty: self.royalty.duplicate(),
            token_type: self.token_type,
            rarity: self.rarity,
        }
    }
}

} // verus!
