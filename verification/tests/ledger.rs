use nft_ledger::contract::{Contract, Place};
use nft_ledger::royalty::Royalty;
use nft_ledger::token::TokenMetadata;
use nft_ledger::types::{LedgerError, PlayerType, Rarity};

fn s(text: &str) -> String {
    text.to_string()
}

fn metadata(title: &str) -> TokenMetadata {
    TokenMetadata { title: Some(s(title)), description: None, media: None, extra: Some(s("{}")) }
}

/// A store of `house.near` with `t1` (a gold goalie) in its pool.
fn store_with_pooled_token() -> Contract {
    let mut contract = Contract::new(s("house.near"));
    assert!(contract.mint_to_pack(
        &s("t1"),
        PlayerType::Goalie,
        Rarity::Gold,
        Royalty::new(),
        metadata("Goalie one"),
    ));
    contract
}

/// A store in which `o.near` holds `t1` with no approvals.
fn store_with_owned_token() -> Contract {
    let mut contract = store_with_pooled_token();
    let handed = contract.internal_transfer_token_from_pack(
        &s("o.near"),
        &s("t1"),
        &PlayerType::Goalie,
        &Rarity::Gold,
    );
    assert!(handed.is_ok());
    contract
}

/// In how many owner entries and pools `token_id` is found.
fn places(contract: &Contract, token_id: &str) -> (usize, usize) {
    let token_id = s(token_id);
    let mut in_owner_sets = 0;
    for owner in contract.owners().owners() {
        if contract.owners().holds(&owner, &token_id) {
            in_owner_sets += 1;
        }
    }
    let mut in_pools = 0;
    for player_type in [PlayerType::FieldPlayer, PlayerType::Goalie] {
        for rarity in [
            Rarity::Bronze,
            Rarity::Silver,
            Rarity::Gold,
            Rarity::Platinum,
            Rarity::Brilliant,
        ] {
            if contract.pools().contains(&player_type, &rarity, &token_id) {
                in_pools += 1;
            }
        }
    }
    (in_owner_sets, in_pools)
}

#[test]
fn new_store_is_empty() {
    let contract = Contract::new(s("house.near"));
    assert_eq!(contract.owner_id(), "house.near");
    assert!(contract.is_owner(&s("house.near")));
    assert!(!contract.is_owner(&s("o.near")));
    assert!(contract.tokens().token_ids().is_empty());
    assert!(contract.owners().owners().is_empty());
    assert!(!contract.pools().pool_exists(&PlayerType::Goalie, &Rarity::Gold));
    assert!(contract.pools().get_goalies_set(&Rarity::Gold).is_empty());
    assert!(contract.pools().get_field_players_set(&Rarity::Bronze).is_empty());
}

#[test]
fn mint_puts_token_into_its_pool() {
    let contract = store_with_pooled_token();
    let token = contract.tokens().get(&s("t1")).unwrap();
    assert_eq!(token.owner_id, "house.near");
    assert_eq!(token.next_approval_id, 1);
    assert!(token.approved_account_ids.is_empty());
    assert_eq!(token.token_type, PlayerType::Goalie);
    assert_eq!(token.rarity, Rarity::Gold);
    assert!(contract.pools().pool_exists(&PlayerType::Goalie, &Rarity::Gold));
    assert!(!contract.pools().pool_exists(&PlayerType::FieldPlayer, &Rarity::Gold));
    assert!(contract.pools().contains(&PlayerType::Goalie, &Rarity::Gold, &s("t1")));
    assert!(!contract.pools().contains(&PlayerType::FieldPlayer, &Rarity::Gold, &s("t1")));
    assert!(!contract.owners().holds(&s("house.near"), &s("t1")));
    assert_eq!(contract.token_metadata(&s("t1")).unwrap().title, Some(s("Goalie one")));
    assert_eq!(places(&contract, "t1"), (0, 1));
}

#[test]
fn mint_refuses_a_taken_identifier() {
    let mut contract = store_with_pooled_token();
    assert!(!contract.mint_to_pack(
        &s("t1"),
        PlayerType::FieldPlayer,
        Rarity::Bronze,
        Royalty::new(),
        metadata("Other"),
    ));
    let token = contract.tokens().get(&s("t1")).unwrap();
    assert_eq!(token.token_type, PlayerType::Goalie);
    assert!(!contract.pools().contains(&PlayerType::FieldPlayer, &Rarity::Bronze, &s("t1")));
    assert_eq!(contract.token_metadata(&s("t1")).unwrap().title, Some(s("Goalie one")));
}

#[test]
fn distribution_moves_token_from_pool_to_receiver() {
    let mut contract = store_with_pooled_token();
    let handed = contract.internal_transfer_token_from_pack(
        &s("r.near"),
        &s("t1"),
        &PlayerType::Goalie,
        &Rarity::Gold,
    );
    let data = handed.unwrap();
    assert_eq!(data.title, Some(s("Goalie one")));
    assert_eq!(data.extra, Some(s("{}")));
    assert!(!contract.pools().contains(&PlayerType::Goalie, &Rarity::Gold, &s("t1")));
    assert!(contract.pools().pool_exists(&PlayerType::Goalie, &Rarity::Gold));
    assert!(contract.pools().get_goalies_set(&Rarity::Gold).is_empty());
    assert!(contract.owners().holds(&s("r.near"), &s("t1")));
    assert_eq!(contract.owners().tokens_for_owner(&s("r.near")), vec![s("t1")]);
    let token = contract.tokens().get(&s("t1")).unwrap();
    assert_eq!(token.owner_id, "r.near");
    assert!(token.approved_account_ids.is_empty());
    assert_eq!(places(&contract, "t1"), (1, 0));
}

#[test]
fn second_distribution_fails_with_pool_inconsistency() {
    let mut contract = store_with_pooled_token();
    assert!(contract
        .internal_transfer_token_from_pack(&s("r.near"), &s("t1"), &PlayerType::Goalie, &Rarity::Gold)
        .is_ok());
    let again = contract.internal_transfer_token_from_pack(
        &s("r.near"),
        &s("t1"),
        &PlayerType::Goalie,
        &Rarity::Gold,
    );
    assert!(matches!(again, Err(LedgerError::PoolInconsistency)));
    let to_another = contract.internal_transfer_token_from_pack(
        &s("q.near"),
        &s("t1"),
        &PlayerType::Goalie,
        &Rarity::Gold,
    );
    assert!(matches!(to_another, Err(LedgerError::PoolInconsistency)));
    assert!(contract.owners().holds(&s("r.near"), &s("t1")));
    assert!(!contract.owners().holds(&s("q.near"), &s("t1")));
    assert_eq!(places(&contract, "t1"), (1, 0));
}

#[test]
fn distribution_from_the_wrong_pool_fails() {
    let mut contract = store_with_pooled_token();
    let wrong_rarity = contract.internal_transfer_token_from_pack(
        &s("r.near"),
        &s("t1"),
        &PlayerType::Goalie,
        &Rarity::Silver,
    );
    assert!(matches!(wrong_rarity, Err(LedgerError::PoolInconsistency)));
    let wrong_type = contract.internal_transfer_token_from_pack(
        &s("r.near"),
        &s("t1"),
        &PlayerType::FieldPlayer,
        &Rarity::Gold,
    );
    assert!(matches!(wrong_type, Err(LedgerError::PoolInconsistency)));
    assert!(contract.pools().contains(&PlayerType::Goalie, &Rarity::Gold, &s("t1")));
    assert_eq!(places(&contract, "t1"), (0, 1));
}

#[test]
fn distribution_of_unknown_token_fails() {
    let mut contract = store_with_pooled_token();
    let missing = contract.internal_transfer_token_from_pack(
        &s("r.near"),
        &s("t9"),
        &PlayerType::Goalie,
        &Rarity::Gold,
    );
    assert!(matches!(missing, Err(LedgerError::TokenNotFound)));
}

#[test]
fn distribution_to_the_house_is_rejected() {
    let mut contract = store_with_pooled_token();
    let to_house = contract.internal_transfer_token_from_pack(
        &s("house.near"),
        &s("t1"),
        &PlayerType::Goalie,
        &Rarity::Gold,
    );
    assert!(matches!(to_house, Err(LedgerError::NoOpTransferRejected)));
    assert!(contract.pools().contains(&PlayerType::Goalie, &Rarity::Gold, &s("t1")));
}

#[test]
fn approved_account_transfers_once() {
    let mut contract = store_with_owned_token();
    assert!(contract.tokens().get(&s("t1")).unwrap().approved_account_ids.is_empty());

    let approval = contract.approve(&s("t1"), &s("x.near"));
    assert_eq!(approval, Ok(1));

    let moved = contract.internal_transfer(&s("x.near"), &s("r.near"), &s("t1"), Some(1), None);
    let (previous, event) = moved.unwrap();
    assert_eq!(previous.owner_id, "o.near");
    assert_eq!(previous.approved_account_ids.get(&s("x.near")), Some(&1));
    assert_eq!(event.sender_id, "x.near");
    assert_eq!(event.receiver_id, "r.near");
    assert_eq!(event.token_id, "t1");
    assert_eq!(event.memo, None);

    let token = contract.tokens().get(&s("t1")).unwrap();
    assert_eq!(token.owner_id, "r.near");
    assert!(token.approved_account_ids.is_empty());
    assert_eq!(token.next_approval_id, 2);
    assert!(!contract.owners().holds(&s("o.near"), &s("t1")));
    assert!(contract.owners().tokens_for_owner(&s("o.near")).is_empty());
    assert!(contract.owners().holds(&s("r.near"), &s("t1")));

    let again = contract.internal_transfer(&s("x.near"), &s("r.near"), &s("t1"), Some(1), None);
    assert!(matches!(again, Err(LedgerError::Unauthorized)));
    assert_eq!(contract.tokens().get(&s("t1")).unwrap().owner_id, "r.near");
}

#[test]
fn transfer_round_trip_restores_owner_index() {
    let mut contract = store_with_owned_token();
    assert!(contract.mint_to_pack(
        &s("t2"),
        PlayerType::FieldPlayer,
        Rarity::Bronze,
        Royalty::new(),
        metadata("Skater two"),
    ));
    assert!(contract
        .internal_transfer_token_from_pack(
            &s("o.near"),
            &s("t2"),
            &PlayerType::FieldPlayer,
            &Rarity::Bronze
        )
        .is_ok());
    let mut owners_before = contract.owners().owners();
    owners_before.sort();
    let mut tokens_before = contract.owners().tokens_for_owner(&s("o.near"));
    tokens_before.sort();
    assert_eq!(owners_before, vec![s("o.near")]);
    assert_eq!(tokens_before, vec![s("t1"), s("t2")]);

    assert!(contract.internal_transfer(&s("o.near"), &s("a.near"), &s("t1"), None, None).is_ok());
    assert!(contract.tokens().get(&s("t1")).unwrap().approved_account_ids.is_empty());
    assert_eq!(contract.owners().tokens_for_owner(&s("a.near")), vec![s("t1")]);
    assert_eq!(contract.owners().tokens_for_owner(&s("o.near")), vec![s("t2")]);

    assert!(contract.internal_transfer(&s("a.near"), &s("o.near"), &s("t1"), None, None).is_ok());
    assert!(contract.tokens().get(&s("t1")).unwrap().approved_account_ids.is_empty());
    let mut owners_after = contract.owners().owners();
    owners_after.sort();
    let mut tokens_after = contract.owners().tokens_for_owner(&s("o.near"));
    tokens_after.sort();
    assert_eq!(owners_after, owners_before);
    assert_eq!(tokens_after, tokens_before);
    assert!(contract.owners().tokens_for_owner(&s("a.near")).is_empty());
}

#[test]
fn round_trip_of_the_only_token_prunes_and_restores_the_entry() {
    let mut contract = store_with_owned_token();
    assert!(contract.internal_transfer(&s("o.near"), &s("a.near"), &s("t1"), None, None).is_ok());
    assert_eq!(contract.owners().owners(), vec![s("a.near")]);
    assert!(contract.internal_transfer(&s("a.near"), &s("o.near"), &s("t1"), None, None).is_ok());
    assert_eq!(contract.owners().owners(), vec![s("o.near")]);
    assert_eq!(contract.owners().tokens_for_owner(&s("o.near")), vec![s("t1")]);
}

#[test]
fn approval_does_not_survive_transfer() {
    let mut contract = store_with_owned_token();
    assert_eq!(contract.approve(&s("t1"), &s("x.near")), Ok(1));
    assert_eq!(contract.approve(&s("t1"), &s("y.near")), Ok(2));
    assert!(contract.is_authorized(&s("t1"), &s("x.near"), None));
    assert!(contract.internal_transfer(&s("o.near"), &s("r.near"), &s("t1"), None, None).is_ok());
    let token = contract.tokens().get(&s("t1")).unwrap();
    assert!(token.approved_account_ids.is_empty());
    assert_eq!(token.approved_account_ids.len(), 0);
    assert!(!contract.is_authorized(&s("t1"), &s("x.near"), None));
    assert!(!contract.is_authorized(&s("t1"), &s("y.near"), Some(2)));
    assert!(!contract.is_authorized(&s("t1"), &s("o.near"), None));
    assert!(contract.is_authorized(&s("t1"), &s("r.near"), None));
}

#[test]
fn second_approval_replaces_the_first() {
    let mut contract = store_with_owned_token();
    let first = contract.approve(&s("t1"), &s("x.near")).unwrap();
    let second = contract.approve(&s("t1"), &s("x.near")).unwrap();
    assert_eq!(first, 1);
    assert_eq!(second, 2);
    assert_ne!(first, second);
    assert!(contract.is_authorized(&s("t1"), &s("x.near"), Some(second)));
    assert!(!contract.is_authorized(&s("t1"), &s("x.near"), Some(first)));
    assert!(contract.is_authorized(&s("t1"), &s("x.near"), None));
    let token = contract.tokens().get(&s("t1")).unwrap();
    assert_eq!(token.approved_account_ids.len(), 1);
    assert_eq!(token.next_approval_id, 3);

    let stale = contract.internal_transfer(&s("x.near"), &s("r.near"), &s("t1"), Some(first), None);
    assert!(matches!(stale, Err(LedgerError::ApprovalMismatch)));
    assert_eq!(contract.tokens().get(&s("t1")).unwrap().owner_id, "o.near");
    let fresh = contract.internal_transfer(&s("x.near"), &s("r.near"), &s("t1"), Some(second), None);
    assert!(fresh.is_ok());
}

#[test]
fn approval_counter_is_kept_across_transfers() {
    let mut contract = store_with_owned_token();
    assert_eq!(contract.approve(&s("t1"), &s("x.near")), Ok(1));
    assert!(contract.internal_transfer(&s("o.near"), &s("r.near"), &s("t1"), None, None).is_ok());
    assert_eq!(contract.approve(&s("t1"), &s("x.near")), Ok(2));
}

#[test]
fn approve_unknown_token_fails() {
    let mut contract = store_with_owned_token();
    assert_eq!(contract.approve(&s("t9"), &s("x.near")), Err(LedgerError::TokenNotFound));
    assert!(!contract.is_authorized(&s("t9"), &s("x.near"), None));
}

#[test]
fn clear_all_wipes_approvals() {
    let mut contract = store_with_owned_token();
    assert_eq!(contract.approve(&s("t1"), &s("x.near")), Ok(1));
    assert_eq!(contract.clear_all(&s("t1")), Ok(()));
    let token = contract.tokens().get(&s("t1")).unwrap();
    assert!(token.approved_account_ids.is_empty());
    assert_eq!(token.next_approval_id, 2);
    assert_eq!(token.owner_id, "o.near");
    assert!(!contract.is_authorized(&s("t1"), &s("x.near"), None));
    assert_eq!(contract.clear_all(&s("t9")), Err(LedgerError::TokenNotFound));
}

#[test]
fn transfer_of_unknown_token_fails() {
    let mut contract = store_with_owned_token();
    let missing = contract.internal_transfer(&s("o.near"), &s("r.near"), &s("t9"), None, None);
    assert!(matches!(missing, Err(LedgerError::TokenNotFound)));
}

#[test]
fn transfer_by_stranger_is_unauthorized() {
    let mut contract = store_with_owned_token();
    let refused = contract.internal_transfer(&s("x.near"), &s("r.near"), &s("t1"), None, None);
    assert!(matches!(refused, Err(LedgerError::Unauthorized)));
    let refused = contract.internal_transfer(&s("x.near"), &s("x.near"), &s("t1"), Some(1), None);
    assert!(matches!(refused, Err(LedgerError::Unauthorized)));
    assert!(contract.owners().holds(&s("o.near"), &s("t1")));
}

#[test]
fn transfer_to_the_owner_is_rejected() {
    let mut contract = store_with_owned_token();
    let own = contract.internal_transfer(&s("o.near"), &s("o.near"), &s("t1"), None, None);
    assert!(matches!(own, Err(LedgerError::NoOpTransferRejected)));
    assert_eq!(contract.approve(&s("t1"), &s("x.near")), Ok(1));
    let by_approved = contract.internal_transfer(&s("x.near"), &s("o.near"), &s("t1"), Some(1), None);
    assert!(matches!(by_approved, Err(LedgerError::NoOpTransferRejected)));
    let token = contract.tokens().get(&s("t1")).unwrap();
    assert_eq!(token.approved_account_ids.get(&s("x.near")), Some(&1));
}

#[test]
fn approved_sender_may_differ_from_receiver_or_be_it() {
    let mut contract = store_with_owned_token();
    assert_eq!(contract.approve(&s("t1"), &s("x.near")), Ok(1));
    let moved = contract.internal_transfer(&s("x.near"), &s("x.near"), &s("t1"), None, None);
    assert!(moved.is_ok());
    assert_eq!(contract.tokens().get(&s("t1")).unwrap().owner_id, "x.near");
}

#[test]
fn transfer_of_pooled_token_is_an_invariant_violation() {
    let mut contract = store_with_pooled_token();
    let refused = contract.internal_transfer(&s("house.near"), &s("r.near"), &s("t1"), None, None);
    assert!(matches!(refused, Err(LedgerError::InvariantViolation)));
    assert!(contract.pools().contains(&PlayerType::Goalie, &Rarity::Gold, &s("t1")));
    assert_eq!(places(&contract, "t1"), (0, 1));
}

#[test]
fn transfer_carries_the_memo() {
    let mut contract = store_with_owned_token();
    let moved =
        contract.internal_transfer(&s("o.near"), &s("r.near"), &s("t1"), None, Some(s("gift")));
    let (_, event) = moved.unwrap();
    assert_eq!(event.sender_id, "o.near");
    assert_eq!(event.memo, Some(s("gift")));
}

#[test]
fn transfer_keeps_royalty_category_and_rarity() {
    let mut contract = Contract::new(s("house.near"));
    let mut royalty = Royalty::new();
    assert!(royalty.add_share(s("artist.near"), 500));
    assert!(contract.mint_to_pack(
        &s("t1"),
        PlayerType::FieldPlayer,
        Rarity::Brilliant,
        royalty,
        metadata("Skater"),
    ));
    assert!(contract
        .internal_transfer_token_from_pack(
            &s("o.near"),
            &s("t1"),
            &PlayerType::FieldPlayer,
            &Rarity::Brilliant
        )
        .is_ok());
    assert!(contract.internal_transfer(&s("o.near"), &s("r.near"), &s("t1"), None, None).is_ok());
    let token = contract.tokens().get(&s("t1")).unwrap();
    assert_eq!(token.royalty.share_of(&s("artist.near")), Some(500));
    assert_eq!(token.royalty.len(), 1);
    assert_eq!(token.royalty.total(), 500);
    assert_eq!(token.token_type, PlayerType::FieldPlayer);
    assert_eq!(token.rarity, Rarity::Brilliant);
}

#[test]
fn every_token_is_in_exactly_one_place() {
    let mut contract = Contract::new(s("house.near"));
    let ids = ["t1", "t2", "t3", "t4"];
    assert!(contract.mint_to_pack(&s("t1"), PlayerType::Goalie, Rarity::Gold, Royalty::new(), metadata("1")));
    assert!(contract.mint_to_pack(&s("t2"), PlayerType::Goalie, Rarity::Gold, Royalty::new(), metadata("2")));
    assert!(contract.mint_to_pack(&s("t3"), PlayerType::FieldPlayer, Rarity::Bronze, Royalty::new(), metadata("3")));
    assert!(contract.mint_to_pack(&s("t4"), PlayerType::FieldPlayer, Rarity::Platinum, Royalty::new(), metadata("4")));
    for id in ids {
        assert_eq!(places(&contract, id), (0, 1));
    }
    assert!(contract
        .internal_transfer_token_from_pack(&s("a.near"), &s("t1"), &PlayerType::Goalie, &Rarity::Gold)
        .is_ok());
    assert!(contract
        .internal_transfer_token_from_pack(&s("b.near"), &s("t3"), &PlayerType::FieldPlayer, &Rarity::Bronze)
        .is_ok());
    assert!(contract.internal_transfer(&s("a.near"), &s("b.near"), &s("t1"), None, None).is_ok());
    assert!(contract.internal_transfer(&s("b.near"), &s("house.near"), &s("t3"), None, None).is_ok());
    assert!(contract.internal_transfer(&s("b.near"), &s("b.near"), &s("t1"), None, None).is_err());
    assert_eq!(places(&contract, "t1"), (1, 0));
    assert_eq!(places(&contract, "t2"), (0, 1));
    assert_eq!(places(&contract, "t3"), (1, 0));
    assert_eq!(places(&contract, "t4"), (0, 1));
    assert_eq!(contract.place_of(&s("t1")), Some(Place::Owner(s("b.near"))));
    assert_eq!(contract.place_of(&s("t2")), Some(Place::Pool(PlayerType::Goalie, Rarity::Gold)));
    assert_eq!(contract.place_of(&s("t3")), Some(Place::Owner(s("house.near"))));
    assert_eq!(
        contract.place_of(&s("t4")),
        Some(Place::Pool(PlayerType::FieldPlayer, Rarity::Platinum))
    );
    assert_eq!(contract.place_of(&s("t5")), None);
    assert!(contract.owners().holds(&s("b.near"), &s("t1")));
    assert!(contract.owners().holds(&s("house.near"), &s("t3")));
    let mut ids_on_record = contract.tokens().token_ids();
    ids_on_record.sort();
    assert_eq!(ids_on_record, vec![s("t1"), s("t2"), s("t3"), s("t4")]);
}
