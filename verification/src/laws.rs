//! What holds of the ledger whatever sequence of operations it went through.

use crate::model::{
    owner_holds, owner_remove, pool_members, tokens_of, LedgerState, MetadataView, PoolKey,
    TokenView,
};
use crate::types::{LedgerError, Name, PlayerType, Rarity};
use vstd::prelude::*;

verus! {

/// In a valid ledger every recorded token is in exactly one place: either in
/// one owner's index entry, the entry of the owner that its record names, or
/// in one category pool, the pool of its category and rarity. It is never in
/// both and never in neither.
pub proof fn lemma_token_in_exactly_one_place(s: LedgerState, token: Name)
    requires
        s.valid(),
        s.tokens.contains_key(token),
    ensures
        s.in_a_pool(token) != s.in_an_owner_set(token),
        forall|a: Name| #[trigger]
            owner_holds(s.owners, a, token) ==> a == s.tokens[token].owner_id,
        forall|k: PoolKey| #[trigger]
            pool_members(s.pools, k).contains(token) ==> k == s.tokens[token].pool_key(),
{
    if s.in_an_owner_set(token) {
        let a = choose|a: Name| #[trigger] owner_holds(s.owners, a, token);
        assert(!s.in_a_pool(token));
    } else {
        assert(!owner_holds(s.owners, s.tokens[token].owner_id, token));
    }
}

/// Writing a record over itself changes nothing: the ledger after a record
/// was written twice is the ledger after it was written once.
pub proof fn lemma_put_is_idempotent(tokens: Map<Name, TokenView>, token: Name, record: TokenView)
    ensures
        tokens.insert(token, record).insert(token, record) == tokens.insert(token, record),
{
}

/// The ledger without tokens is valid.
pub proof fn lemma_initial_valid(house: Name)
    ensures
        LedgerState::initial(house).valid(),
{
}

/// Creating a token with a sound royalty split keeps the ledger valid.
pub proof fn lemma_mint_keeps_valid(
    s: LedgerState,
    token: Name,
    token_type: PlayerType,
    rarity: Rarity,
    royalty: Seq<(Name, u32)>,
    metadata: MetadataView,
)
    requires
        s.valid(),
        TokenView::fresh(s.house, token_type, rarity, royalty).royalty_is_sound(),
        s.mint(token, token_type, rarity, royalty, metadata) is Some,
    ensures
        s.mint(token, token_type, rarity, royalty, metadata)->0.valid(),
{
    let n = s.mint(token, token_type, rarity, royalty, metadata)->0;
    let key = (token_type, rarity);
    assert(pool_members(n.pools, key).contains(token));
    assert forall|k: PoolKey, t: Name| #[trigger]
        pool_members(n.pools, k).contains(t) implies n.tokens.contains_key(t)
        && n.tokens[t].owner_id == n.house && n.tokens[t].pool_key() == k by {
        if t != token {
            assert(pool_members(s.pools, k).contains(t));
        } else if k != key {
            assert(pool_members(s.pools, k).contains(t));
        }
    }
    assert forall|a: Name, t: Name| #[trigger] owner_holds(n.owners, a, t) implies !n.in_a_pool(
        t,
    ) by {
        assert(owner_holds(s.owners, a, t));
        if n.in_a_pool(t) {
            let k = choose|k: PoolKey| #[trigger] pool_members(n.pools, k).contains(t);
            assert(pool_members(s.pools, k).contains(t));
        }
    }
    assert forall|t: Name| #[trigger] n.tokens.contains_key(t) implies n.in_a_pool(t)
        || owner_holds(n.owners, n.tokens[t].owner_id, t) by {
        if t != token && s.in_a_pool(t) {
            let k = choose|k: PoolKey| #[trigger] pool_members(s.pools, k).contains(t);
            assert(pool_members(n.pools, k).contains(t));
        }
    }
}

/// Approving an account keeps the ledger valid, as long as the token's
/// counter can still grow.
pub proof fn lemma_approve_keeps_valid(s: LedgerState, token: Name, account: Name)
    requires
        s.valid(),
        s.approve(token, account) is Ok,
        s.tokens[token].next_approval_id < u64::MAX,
    ensures
        s.approve(token, account)->Ok_0.valid(),
{
    lemma_same_places(s, s.approve(token, account)->Ok_0);
}

/// Wiping a token's approvals keeps the ledger valid.
pub proof fn lemma_clear_all_keeps_valid(s: LedgerState, token: Name)
    requires
        s.valid(),
        s.clear_all(token) is Ok,
    ensures
        s.clear_all(token)->Ok_0.valid(),
{
    lemma_same_places(s, s.clear_all(token)->Ok_0);
}

/// Where only approvals and counters of records change, membership in pools
/// is what it was.
proof fn lemma_same_places(s: LedgerState, n: LedgerState)
    requires
        n.pools == s.pools,
    ensures
        forall|t: Name| n.in_a_pool(t) == s.in_a_pool(t),
{
    assert forall|t: Name| n.in_a_pool(t) == s.in_a_pool(t) by {
        if s.in_a_pool(t) {
            let k = choose|k: PoolKey| #[trigger] pool_members(s.pools, k).contains(t);
            assert(pool_members(n.pools, k).contains(t));
        }
        if n.in_a_pool(t) {
            let k = choose|k: PoolKey| #[trigger] pool_members(n.pools, k).contains(t);
            assert(pool_members(s.pools, k).contains(t));
        }
    }
}

/// A transfer keeps the ledger valid.
pub proof fn lemma_transfer_keeps_valid(
    s: LedgerState,
    sender: Name,
    receiver: Name,
    token: Name,
    approval_id: Option<u64>,
)
    requires
        s.valid(),
        s.transfer(sender, receiver, token, approval_id) is Ok,
    ensures
        s.transfer(sender, receiver, token, approval_id)->Ok_0.valid(),
{
    let n = s.transfer(sender, receiver, token, approval_id)->Ok_0;
    let owner = s.tokens[token].owner_id;
    lemma_same_places(s, n);
    assert(owner_holds(s.owners, owner, token));
    assert forall|a: Name, t: Name| owner_holds(n.owners, a, t) <==> (if t == token {
        a == receiver
    } else {
        owner_holds(s.owners, a, t)
    }) by {
        lemma_owner_remove_holds(s.owners, owner, token, a, t);
        if t == token && owner_holds(s.owners, a, t) {
            assert(a == owner);
        }
    }
    assert forall|a: Name| #[trigger] n.owners.contains_key(a) implies n.owners[a] != Set::<
        Name,
    >::empty() by {
        if a == receiver {
            assert(n.owners[a].contains(token));
        } else {
            lemma_owner_remove_nonempty(s.owners, owner, token, a);
        }
    }
    assert forall|t: Name| #[trigger] n.tokens.contains_key(t) implies n.in_a_pool(t)
        || owner_holds(n.owners, n.tokens[t].owner_id, t) by {
        if t == token {
            assert(owner_holds(n.owners, receiver, token));
        } else {
            assert(s.in_a_pool(t) || owner_holds(s.owners, s.tokens[t].owner_id, t));
        }
    }
    assert forall|t: Name| #[trigger]
        n.tokens.contains_key(t) implies n.tokens[t].approvals_below_counter() by {
        if t != token {
            assert(s.tokens[t].approvals_below_counter());
        }
    }
}

/// What an entry holds after a token left the entry of `owner`.
proof fn lemma_owner_remove_holds(
    owners: Map<Name, Set<Name>>,
    owner: Name,
    token: Name,
    a: Name,
    t: Name,
)
    ensures
        owner_holds(owner_remove(owners, owner, token), a, t) <==> owner_holds(owners, a, t) && !(a
            == owner && t == token),
{
    let rest = tokens_of(owners, owner).remove(token);
    if a == owner && t != token && owner_holds(owners, a, t) {
        assert(rest.contains(t));
        assert(rest != Set::<Name>::empty());
    }
}

/// An entry that is left after a token went out of the entry of `owner` is
/// not empty, if none was empty before.
proof fn lemma_owner_remove_nonempty(
    owners: Map<Name, Set<Name>>,
    owner: Name,
    token: Name,
    a: Name,
)
    requires
        owners.contains_key(a) ==> owners[a] != Set::<Name>::empty(),
        owner_remove(owners, owner, token).contains_key(a),
    ensures
        owner_remove(owners, owner, token)[a] != Set::<Name>::empty(),
{
}

/// A distribution out of a pool keeps the ledger valid.
pub proof fn lemma_distribute_keeps_valid(
    s: LedgerState,
    receiver: Name,
    token: Name,
    token_type: PlayerType,
    rarity: Rarity,
)
    requires
        s.valid(),
        s.distribute(receiver, token, token_type, rarity) is Ok,
    ensures
        s.distribute(receiver, token, token_type, rarity)->Ok_0.valid(),
{
    let n = s.distribute(receiver, token, token_type, rarity)->Ok_0;
    let key = (token_type, rarity);
    assert(pool_members(s.pools, key).contains(token));
    assert forall|k: PoolKey, t: Name|
        pool_members(n.pools, k).contains(t) <==> pool_members(s.pools, k).contains(t) && t
            != token by {
        if t == token && pool_members(s.pools, k).contains(t) {
            assert(k == key);
        }
    }
    assert(s.in_a_pool(token));
    assert forall|t: Name| n.in_a_pool(t) <==> s.in_a_pool(t) && t != token by {
        if s.in_a_pool(t) && t != token {
            let k = choose|k: PoolKey| #[trigger] pool_members(s.pools, k).contains(t);
            assert(pool_members(n.pools, k).contains(t));
        }
        if n.in_a_pool(t) {
            let k = choose|k: PoolKey| #[trigger] pool_members(n.pools, k).contains(t);
            assert(pool_members(s.pools, k).contains(t));
        }
    }
    assert forall|a: Name, t: Name| owner_holds(n.owners, a, t) <==> owner_holds(s.owners, a, t)
        || (a == receiver && t == token) by {}
    assert forall|a: Name| #[trigger] n.owners.contains_key(a) implies n.owners[a] != Set::<
        Name,
    >::empty() by {
        if a == receiver {
            assert(n.owners[a].contains(token));
        }
    }
    assert forall|a: Name, t: Name| #[trigger]
        owner_holds(n.owners, a, t) implies n.tokens[t].owner_id == a by {
        if t == token && owner_holds(s.owners, a, t) {
            assert(!s.in_a_pool(token));
        }
    }
    assert forall|t: Name| #[trigger] n.tokens.contains_key(t) implies {
        &&& n.in_a_pool(t) || owner_holds(n.owners, n.tokens[t].owner_id, t)
        &&& n.tokens[t].approvals_below_counter()
    } by {
        if t == token {
            assert(owner_holds(n.owners, receiver, token));
        } else {
            assert(s.in_a_pool(t) || owner_holds(s.owners, s.tokens[t].owner_id, t));
            assert(s.tokens[t].approvals_below_counter());
        }
    }
}

/// After a successful transfer the token has no approvals, whatever was
/// approved before, and belongs to the receiver.
pub proof fn lemma_transfer_clears_approvals(
    s: LedgerState,
    sender: Name,
    receiver: Name,
    token: Name,
    approval_id: Option<u64>,
)
    requires
        s.transfer(sender, receiver, token, approval_id) is Ok,
    ensures
        s.transfer(sender, receiver, token, approval_id)->Ok_0.tokens[token].approved_account_ids
            == Map::<Name, u64>::empty(),
        s.transfer(sender, receiver, token, approval_id)->Ok_0.tokens[token].owner_id == receiver,
{
}

/// After a successful distribution out of a pool the token has no approvals
/// and belongs to the receiver.
pub proof fn lemma_distribute_clears_approvals(
    s: LedgerState,
    receiver: Name,
    token: Name,
    token_type: PlayerType,
    rarity: Rarity,
)
    requires
        s.distribute(receiver, token, token_type, rarity) is Ok,
    ensures
        s.distribute(receiver, token, token_type, rarity)->Ok_0.tokens[token].approved_account_ids
            == Map::<Name, u64>::empty(),
        s.distribute(receiver, token, token_type, rarity)->Ok_0.tokens[token].owner_id == receiver,
{
}

/// An approval does not survive a transfer: an account that was approved
/// before the token moved is not authorized after it, unless it is the new
/// owner.
pub proof fn lemma_approval_does_not_survive_transfer(
    s: LedgerState,
    account: Name,
    sender: Name,
    receiver: Name,
    token: Name,
    approval_id: Option<u64>,
    expected: Option<u64>,
)
    requires
        s.approve(token, account) is Ok,
        s.approve(token, account)->Ok_0.transfer(sender, receiver, token, approval_id) is Ok,
        account != receiver,
    ensures
        !s.approve(token, account)->Ok_0.transfer(
            sender,
            receiver,
            token,
            approval_id,
        )->Ok_0.is_authorized(token, account, expected),
{
}

/// A token that goes from its owner to another account, and that this
/// account hands straight back, leaves the owner index as it was: the way
/// back succeeds, and after it the owner index and the pools are what they
/// were before the first transfer, and so are the records but for the
/// approvals of the token, which are empty after either transfer.
pub proof fn lemma_transfer_round_trip(
    s: LedgerState,
    sender: Name,
    other: Name,
    token: Name,
    approval_id: Option<u64>,
    expected: Option<u64>,
)
    requires
        s.valid(),
        s.transfer(sender, other, token, approval_id) is Ok,
    ensures
        ({
            let owner = s.tokens[token].owner_id;
            let there = s.transfer(sender, other, token, approval_id)->Ok_0;
            let back = there.transfer(other, owner, token, expected);
            &&& there.tokens[token].approved_account_ids == Map::<Name, u64>::empty()
            &&& back is Ok
            &&& back->Ok_0.tokens[token].approved_account_ids == Map::<Name, u64>::empty()
            &&& back->Ok_0.owners == s.owners
            &&& back->Ok_0.pools == s.pools
            &&& back->Ok_0.tokens == s.tokens.insert(token, s.tokens[token].cleared())
        }),
{
    let owner = s.tokens[token].owner_id;
    let there = s.transfer(sender, other, token, approval_id)->Ok_0;
    assert(there.owners[other].contains(token));
    assert(owner_holds(there.owners, other, token));
    let back = there.transfer(other, owner, token, expected)->Ok_0;
    assert(back.tokens =~= s.tokens.insert(token, s.tokens[token].cleared()));
    assert(owner_holds(s.owners, owner, token));
    assert(!owner_holds(s.owners, other, token));
    assert(s.owners[owner] =~= s.owners[owner].remove(token).insert(token));
    assert forall|a: Name| back.owners.contains_key(a) <==> s.owners.contains_key(a) by {
        if a == other && !s.owners.contains_key(a) {
            assert(there.owners[other] =~= Set::<Name>::empty().insert(token));
            assert(there.owners[other].remove(token) =~= Set::<Name>::empty());
        }
        if a == other && s.owners.contains_key(a) {
            assert(s.owners[a] != Set::<Name>::empty());
            assert(there.owners[other] =~= s.owners[other].insert(token));
            assert(there.owners[other].remove(token) =~= s.owners[other]);
        }
    }
    assert forall|a: Name| #[trigger] back.owners.contains_key(a) implies back.owners[a]
        =~= s.owners[a] by {
        if a == other {
            assert(there.owners[other] =~= s.owners[other].insert(token));
        }
    }
    assert(back.owners =~= s.owners);
}

/// Two approvals of one account for one token carry different approval ids,
/// and only the later one authorizes: a caller that is not the owner passes
/// with the second id and is refused with the first.
pub proof fn lemma_second_approval_replaces_first(s: LedgerState, token: Name, account: Name)
    requires
        s.tokens.contains_key(token),
        s.tokens[token].next_approval_id + 1 < u64::MAX,
        account != s.tokens[token].owner_id,
    ensures
        s.approve(token, account) is Ok,
        s.approve(token, account)->Ok_0.approve(token, account) is Ok,
        ({
            let once = s.approve(token, account)->Ok_0;
            let twice = once.approve(token, account)->Ok_0;
            let first = s.tokens[token].next_approval_id;
            let second = once.tokens[token].next_approval_id;
            &&& once.tokens[token].approved_account_ids[account] == first
            &&& twice.tokens[token].approved_account_ids[account] == second
            &&& first < second
            &&& twice.is_authorized(token, account, Some(second))
            &&& !twice.is_authorized(token, account, Some(first))
            &&& twice.tokens[token].authorization(account, Some(first)) == Err::<
                (),
                LedgerError,
            >(LedgerError::ApprovalMismatch)
        }),
{
}

/// In a valid ledger a new approval id differs from every approval id that
/// the token has on record.
pub proof fn lemma_approval_id_is_new(s: LedgerState, token: Name, other: Name)
    requires
        s.valid(),
        s.tokens.contains_key(token),
        s.tokens[token].approved_account_ids.contains_key(other),
    ensures
        s.tokens[token].approved_account_ids[other] != s.tokens[token].next_approval_id,
{
}

/// Whatever operation is applied to a valid ledger, the ledger stays valid:
/// every token is in exactly one place before and after.
pub proof fn lemma_step_keeps_valid(s: LedgerState, n: LedgerState)
    requires
        s.valid(),
        s.step(n),
    ensures
        n.valid(),
{
    if exists|
        token: Name,
        token_type: PlayerType,
        rarity: Rarity,
        royalty: Seq<(Name, u32)>,
        metadata: MetadataView,
    |
        TokenView::fresh(s.house, token_type, rarity, royalty).royalty_is_sound()
            && #[trigger] s.mint(token, token_type, rarity, royalty, metadata) == Some(n) {
        let (token, token_type, rarity, royalty, metadata) = choose|
            token: Name,
            token_type: PlayerType,
            rarity: Rarity,
            royalty: Seq<(Name, u32)>,
            metadata: MetadataView,
        |
            TokenView::fresh(s.house, token_type, rarity, royalty).royalty_is_sound()
                && #[trigger] s.mint(token, token_type, rarity, royalty, metadata) == Some(n);
        lemma_mint_keeps_valid(s, token, token_type, rarity, royalty, metadata);
    } else if exists|token: Name, account: Name|
        s.tokens[token].next_approval_id < u64::MAX && #[trigger] s.approve(token, account) == Ok::<
            LedgerState,
            LedgerError,
        >(n) {
        let (token, account) = choose|token: Name, account: Name|
            s.tokens[token].next_approval_id < u64::MAX && #[trigger] s.approve(token, account)
                == Ok::<LedgerState, LedgerError>(n);
        lemma_approve_keeps_valid(s, token, account);
    } else if exists|token: Name| #[trigger]
        s.clear_all(token) == Ok::<LedgerState, LedgerError>(n) {
        let token = choose|token: Name| #[trigger]
            s.clear_all(token) == Ok::<LedgerState, LedgerError>(n);
        lemma_clear_all_keeps_valid(s, token);
    } else if exists|sender: Name, receiver: Name, token: Name, approval_id: Option<u64>|
        #[trigger] s.transfer(sender, receiver, token, approval_id) == Ok::<
            LedgerState,
            LedgerError,
        >(n) {
        let (sender, receiver, token, approval_id) = choose|
            sender: Name,
            receiver: Name,
            token: Name,
            approval_id: Option<u64>,
        | #[trigger]
            s.transfer(sender, receiver, token, approval_id) == Ok::<LedgerState, LedgerError>(n);
        lemma_transfer_keeps_valid(s, sender, receiver, token, approval_id);
    } else {
        let (receiver, token, token_type, rarity) = choose|
            receiver: Name,
            token: Name,
            token_type: PlayerType,
            rarity: Rarity,
        | #[trigger]
            s.distribute(receiver, token, token_type, rarity) == Ok::<LedgerState, LedgerError>(n);
        lemma_distribute_keeps_valid(s, receiver, token, token_type, rarity);
    }
}

/// No operation deletes a record, takes its approval counter back, or
/// touches its royalty split, its category or its rarity.
pub proof fn lemma_records_last(s: LedgerState, n: LedgerState, token: Name)
    requires
        s.step(n),
        s.tokens.contains_key(token),
    ensures
        n.tokens.contains_key(token),
        n.tokens[token].next_approval_id >= s.tokens[token].next_approval_id,
        n.tokens[token].royalty == s.tokens[token].royalty,
        n.tokens[token].token_type == s.tokens[token].token_type,
        n.tokens[token].rarity == s.tokens[token].rarity,
{
}

/// No operation puts a token back into a pool: a recorded token that is in
/// no pool is in no pool after any operation.
pub proof fn lemma_no_way_back_into_a_pool(s: LedgerState, n: LedgerState, token: Name)
    requires
        s.step(n),
        s.tokens.contains_key(token),
        !s.in_a_pool(token),
    ensures
        n.tokens.contains_key(token),
        !n.in_a_pool(token),
{
    if n.in_a_pool(token) {
        let k = choose|k: PoolKey| #[trigger] pool_members(n.pools, k).contains(token);
        assert(pool_members(s.pools, k).contains(token));
    }
}

/// A token leaves its pool once: the distribution takes it out of the pool
/// and puts it into the receiver's index entry, and a second distribution of
/// the same token, to whomever and from whatever pool, is refused as a pool
/// inconsistency.
pub proof fn lemma_distribute_once(
    s: LedgerState,
    receiver: Name,
    token: Name,
    token_type: PlayerType,
    rarity: Rarity,
    next_receiver: Name,
    next_type: PlayerType,
    next_rarity: Rarity,
)
    requires
        s.distribute(receiver, token, token_type, rarity) is Ok,
    ensures
        ({
            let n = s.distribute(receiver, token, token_type, rarity)->Ok_0;
            &&& pool_members(s.pools, (token_type, rarity)).contains(token)
            &&& pool_members(n.pools, (token_type, rarity)) == pool_members(
                s.pools,
                (token_type, rarity),
            ).remove(token)
            &&& owner_holds(n.owners, receiver, token)
            &&& s.valid() ==> !n.in_a_pool(token)
            &&& n.distribute(next_receiver, token, next_type, next_rarity) == Err::<
                LedgerState,
                LedgerError,
            >(LedgerError::PoolInconsistency)
        }),
{
    if s.valid() {
        lemma_distribute_keeps_valid(s, receiver, token, token_type, rarity);
        let n = s.distribute(receiver, token, token_type, rarity)->Ok_0;
        assert(owner_holds(n.owners, receiver, token));
    }
}

} // verus!
