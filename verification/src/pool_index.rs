//! The category pools: for each category and rarity the set of the tokens
//! that await distribution.

use crate::model::{pool_add, pool_members, pool_remove, PoolKey};
use crate::token_set::TokenSet;
use crate::types::{LedgerError, Name, PlayerType, Rarity, TokenId};
use vstd::prelude::*;

verus! {

/// The pools of one category, by rarity. A pool exists from the first
/// insertion into it.
struct RarityPools {
    bronze: Option<TokenSet>,
    silver: Option<TokenSet>,
    gold: Option<TokenSet>,
    platinum: Option<TokenSet>,
    brilliant: Option<TokenSet>,
}

impl RarityPools {
    spec fn slot(&self, rarity: Rarity) -> Option<TokenSet> {
        match rarity {
            Rarity::Bronze => self.bronze,
            Rarity::Silver => self.silver,
            Rarity::Gold => self.gold,
            Rarity::Platinum => self.platinum,
            Rarity::Brilliant => self.brilliant,
        }
    }

    /// Whether the pool of `rarity` was created.
    spec fn exists_pool(&self, rarity: Rarity) -> bool {
        self.slot(rarity) is Some
    }

    /// The tokens in the pool of `rarity`; none where it was not created.
    spec fn members(&self, rarity: Rarity) -> Set<Name> {
        match self.slot(rarity) {
            Some(set) => set@,
            None => Set::empty(),
        }
    }

    /// No pool yet.
    fn new() -> (pools: RarityPools)
        ensures
            forall|r: Rarity| !pools.exists_pool(r),
            forall|r: Rarity| pools.members(r) == Set::<Name>::empty(),
    {
        RarityPools { bronze: None, silver: None, gold: None, platinum: None, brilliant: None }
    }

    fn get(&self, rarity: &Rarity) -> (pool: &Option<TokenSet>)
        ensures
            *pool == self.slot(*rarity),
    {
        match rarity {
            Rarity::Bronze => &self.bronze,
            Rarity::Silver => &self.silver,
            Rarity::Gold => &self.gold,
            Rarity::Platinum => &self.platinum,
            Rarity::Brilliant => &self.brilliant,
        }
    }

    fn replace(&mut self, rarity: &Rarity, pool: Option<TokenSet>) -> (previous: Option<TokenSet>)
        ensures
            previous == old(self).slot(*rarity),
            final(self).slot(*rarity) == pool,
            forall|r: Rarity| r != *rarity ==> final(self).slot(r) == old(self).slot(r),
    {
        let mut pool = pool;
        match rarity {
            Rarity::Bronze => std::mem::swap(&mut self.bronze, &mut pool),
            Rarity::Silver => std::mem::swap(&mut self.silver, &mut pool),
            Rarity::Gold => std::mem::swap(&mut self.gold, &mut pool),
            Rarity::Platinum => std::mem::swap(&mut self.platinum, &mut pool),
            Rarity::Brilliant => std::mem::swap(&mut self.brilliant, &mut pool),
        }
        pool
    }

    /// Whether the pool of `rarity` holds `token_id`.
    fn contains(&self, rarity: &Rarity, token_id: &TokenId) -> (present: bool)
        ensures
            present == self.members(*rarity).contains(token_id@),
    {
        match self.get(rarity) {
            Some(set) => set.contains(token_id),
            None => false,
        }
    }

    /// A copy of the pool of `rarity`; the empty set where it was not created.
    fn pool(&self, rarity: &Rarity) -> (set: TokenSet)
        ensures
            set@ == self.members(*rarity),
    {
        match self.get(rarity) {
            Some(set) => set.duplicate(),
            None => TokenSet::new(),
        }
    }

    /// Puts `token_id` into the pool of `rarity`, creating the pool where it
    /// was missing.
    fn insert_token(&mut self, rarity: &Rarity, token_id: &TokenId)
        ensures
            final(self).exists_pool(*rarity),
            final(self).members(*rarity) == old(self).members(*rarity).insert(token_id@),
            forall|r: Rarity|
                r != *rarity ==> final(self).exists_pool(r) == old(self).exists_pool(r)
                    && final(self).members(r) == old(self).members(r),
    {
        let mut token_set = match self.replace(rarity, None) {
            Some(set) => set,
            None => TokenSet::new(),
        };
        token_set.insert(token_id.clone());
        self.replace(rarity, Some(token_set));
    }

    /// Takes `token_id` out of the pool of `rarity`, which stays; returns
    /// whether the pool held it. Where it did not, nothing changes.
    fn remove_token(&mut self, rarity: &Rarity, token_id: &TokenId) -> (removed: bool)
        ensures
            removed == old(self).members(*rarity).contains(token_id@),
            removed ==> final(self).exists_pool(*rarity) && final(self).members(*rarity) == old(
                self,
            ).members(*rarity).remove(token_id@) && forall|r: Rarity|
                r != *rarity ==> final(self).exists_pool(r) == old(self).exists_pool(r)
                    && final(self).members(r) == old(self).members(r),
            !removed ==> *final(self) == *old(self),
    {
        if !self.contains(rarity, token_id) {
            return false;
        }
        match self.replace(rarity, None) {
            Some(mut token_set) => {
                token_set.remove(token_id);
                self.replace(rarity, Some(token_set));
                true
            },
            None => vstd::pervasive::unreached(),
        }
    }
}

/// The pools of both categories.
pub struct PoolIndex {
    field_players: RarityPools,
    goalies: RarityPools,
}

impl View for PoolIndex {
    type V = Map<PoolKey, Set<Name>>;

    closed spec fn view(&self) -> Map<PoolKey, Set<Name>> {
        Map::new(
            |key: PoolKey| self.category(key.0).exists_pool(key.1),
            |key: PoolKey| self.category(key.0).members(key.1),
        )
    }
}

impl PoolIndex {
    spec fn category(&self, player_type: PlayerType) -> RarityPools {
        match player_type {
            PlayerType::FieldPlayer => self.field_players,
            PlayerType::Goalie => self.goalies,
        }
    }

    /// No pool yet.
    pub fn new() -> (index: PoolIndex)
        ensures
            index@ == Map::<PoolKey, Set<Name>>::empty(),
    {
        PoolIndex { field_players: RarityPools::new(), goalies: RarityPools::new() }
    }

    proof fn lemma_members(&self, key: PoolKey)
        ensures
            pool_members(self@, key) == self.category(key.0).members(key.1),
    {
    }

    /// Whether the pool of `player_type` and `rarity` was created, that is,
    /// whether a token was ever put into it.
    pub fn pool_exists(&self, player_type: &PlayerType, rarity: &Rarity) -> (created: bool)
        ensures
            created == self@.contains_key((*player_type, *rarity)),
    {
        match player_type {
            PlayerType::FieldPlayer => self.field_players.get(rarity).is_some(),
            PlayerType::Goalie => self.goalies.get(rarity).is_some(),
        }
    }

    /// Whether the pool of `player_type` and `rarity` holds `token_id`.
    pub fn contains(
        &self,
        player_type: &PlayerType,
        rarity: &Rarity,
        token_id: &TokenId,
    ) -> (present: bool)
        ensures
            present == pool_members(self@, (*player_type, *rarity)).contains(token_id@),
    {
        proof {
            self.lemma_members((*player_type, *rarity));
        }
        match player_type {
            PlayerType::FieldPlayer => self.field_players.contains(rarity, token_id),
            PlayerType::Goalie => self.goalies.contains(rarity, token_id),
        }
    }

    /// The pool of field players of `rarity`: a copy of the set, which is
    /// empty where the pool was never created.
    pub fn get_field_players_set(&self, rarity: &Rarity) -> (set: TokenSet)
        ensures
            set@ == pool_members(self@, (PlayerType::FieldPlayer, *rarity)),
    {
        proof {
            self.lemma_members((PlayerType::FieldPlayer, *rarity));
        }
        self.field_players.pool(rarity)
    }

    /// The pool of goalies of `rarity`: a copy of the set, which is empty
    /// where the pool was never created.
    pub fn get_goalies_set(&self, rarity: &Rarity) -> (set: TokenSet)
        ensures
            set@ == pool_members(self@, (PlayerType::Goalie, *rarity)),
    {
        proof {
            self.lemma_members((PlayerType::Goalie, *rarity));
        }
        self.goalies.pool(rarity)
    }

    /// Puts `token_id` into the pool of `player_type` and `rarity`, which is
    /// created where it was missing.
    pub fn internal_add_token_to_pack(
        &mut self,
        player_type: &PlayerType,
        rarity: &Rarity,
        token_id: &TokenId,
    )
        ensures
            final(self)@ == pool_add(old(self)@, (*player_type, *rarity), token_id@),
    {
        proof {
            self.lemma_members((*player_type, *rarity));
        }
        match player_type {
            PlayerType::FieldPlayer => {
                self.field_players.insert_token(rarity, token_id);
            },
            PlayerType::Goalie => {
                self.goalies.insert_token(rarity, token_id);
            },
        }
    }

    /// Takes `token_id` out of the pool of `player_type` and `rarity`. Where
    /// the pool does not hold it, the pools stay as they are and the call
    /// fails with `PoolInconsistency`.
    pub fn internal_remove_token_from_pack(
        &mut self,
        player_type: &PlayerType,
        rarity: &Rarity,
        token_id: &TokenId,
    ) -> (done: Result<(), LedgerError>)
        ensures
            match done {
                Ok(_) => pool_members(old(self)@, (*player_type, *rarity)).contains(token_id@)
                    && final(self)@ == pool_remove(
                    old(self)@,
                    (*player_type, *rarity),
                    token_id@,
                ),
                Err(e) => e == LedgerError::PoolInconsistency && !pool_members(
                    old(self)@,
                    (*player_type, *rarity),
                ).contains(token_id@) && *final(self) == *old(self),
            },
    {
        proof {
            self.lemma_members((*player_type, *rarity));
        }
        let removed = match player_type {
            PlayerType::FieldPlayer => self.field_players.remove_token(rarity, token_id),
            PlayerType::Goalie => self.goalies.remove_token(rarity, token_id),
        };
        if removed {
            Ok(())
        } else {
            Err(LedgerError::PoolInconsistency)
        }
    }
}

} // verus!
