use nft_ledger::accounting::{
    assert_at_least_one_yocto, assert_one_yocto, bytes_for_approved_account_id,
    checked_total_bytes_for_approvals, refund_approved_account_ids,
    refund_approved_account_ids_iter, refund_deposit, refund_excess, require_exact_or_minimum,
    royalty_to_payout, storage_cost, total_bytes_for_approvals, PaymentRule,
};
use nft_ledger::pack::{Pack, PackCosts};
use nft_ledger::string_map::StringMap;
use nft_ledger::types::LedgerError;

const PRICE: u128 = 10_000_000_000_000_000_000;

fn s(text: &str) -> String {
    text.to_string()
}

#[test]
fn refund_excess_schedules_the_surplus() {
    assert_eq!(refund_excess(100, 105), Ok(Some(5)));
}

#[test]
fn refund_excess_schedules_nothing_for_an_exact_payment() {
    assert_eq!(refund_excess(100, 100), Ok(None));
}

#[test]
fn refund_excess_fails_for_a_short_payment() {
    assert_eq!(refund_excess(100, 99), Err(LedgerError::InsufficientPayment));
}

#[test]
fn refund_excess_keeps_dust() {
    assert_eq!(refund_excess(100, 101), Ok(None));
    assert_eq!(refund_excess(100, 102), Ok(Some(2)));
    assert_eq!(refund_excess(0, 0), Ok(None));
    assert_eq!(refund_excess(0, 1), Ok(None));
    assert_eq!(refund_excess(0, u128::MAX), Ok(Some(u128::MAX)));
    assert_eq!(refund_excess(u128::MAX, u128::MAX), Ok(None));
    assert_eq!(refund_excess(u128::MAX, 0), Err(LedgerError::InsufficientPayment));
}

#[test]
fn storage_cost_is_price_times_bytes() {
    assert_eq!(storage_cost(0), 0);
    assert_eq!(storage_cost(1), PRICE);
    assert_eq!(storage_cost(100), 1_000_000_000_000_000_000_000);
    assert_eq!(storage_cost(u64::MAX), PRICE * u64::MAX as u128);
}

#[test]
fn storage_cost_uses_the_protocol_price() {
    assert_eq!(storage_cost(1), near_sdk::env::STORAGE_PRICE_PER_BYTE);
    assert_eq!(storage_cost(7), 7 * near_sdk::env::storage_byte_cost());
}

#[test]
fn refund_deposit_holds_deposit_against_storage_cost() {
    assert_eq!(refund_deposit(2, 2 * PRICE), Ok(None));
    assert_eq!(refund_deposit(2, 2 * PRICE + 1), Ok(None));
    assert_eq!(refund_deposit(2, 2 * PRICE + 2), Ok(Some(2)));
    assert_eq!(refund_deposit(2, 3 * PRICE), Ok(Some(PRICE)));
    assert_eq!(refund_deposit(2, 2 * PRICE - 1), Err(LedgerError::InsufficientPayment));
    assert_eq!(refund_deposit(0, 0), Ok(None));
    assert_eq!(refund_deposit(1, 0), Err(LedgerError::InsufficientPayment));
}

#[test]
fn bytes_for_an_approval_entry() {
    assert_eq!(bytes_for_approved_account_id(&s("alice.near")), 22);
    assert_eq!(bytes_for_approved_account_id(&s("")), 12);
    assert_eq!(bytes_for_approved_account_id(&s("ab")), 14);
}

#[test]
fn bytes_count_the_encoded_length() {
    // two characters, one of which takes two bytes
    assert_eq!(bytes_for_approved_account_id(&s("\u{e9}a")), 15);
}

#[test]
fn total_bytes_is_the_sum_over_the_accounts() {
    let accounts = vec![s("alice.near"), s("bob.near"), s("x")];
    assert_eq!(total_bytes_for_approvals(&accounts), 22 + 20 + 13);
    assert_eq!(checked_total_bytes_for_approvals(&accounts), Some(55));
    assert_eq!(total_bytes_for_approvals(&Vec::new()), 0);
    assert_eq!(checked_total_bytes_for_approvals(&Vec::new()), Some(0));
}

#[test]
fn refund_for_released_approvals() {
    let accounts = vec![s("alice.near"), s("bob.near")];
    assert_eq!(refund_approved_account_ids_iter(&accounts), 42 * PRICE);
    assert_eq!(refund_approved_account_ids_iter(&Vec::new()), 0);

    let mut approved: StringMap<u64> = StringMap::new();
    approved.insert(s("alice.near"), 1);
    approved.insert(s("bob.near"), 2);
    approved.insert(s("alice.near"), 3);
    assert_eq!(refund_approved_account_ids(&approved), 42 * PRICE);
    assert_eq!(refund_approved_account_ids(&StringMap::new()), 0);
}

#[test]
fn royalty_payout_rounds_down() {
    assert_eq!(royalty_to_payout(2500, 1000), 250);
    assert_eq!(royalty_to_payout(10_000, 12345), 12345);
    assert_eq!(royalty_to_payout(0, 12345), 0);
    assert_eq!(royalty_to_payout(1, 9_999), 0);
    assert_eq!(royalty_to_payout(1, 10_000), 1);
    assert_eq!(royalty_to_payout(333, 100), 3);
    assert_eq!(
        royalty_to_payout(500, 1_000_000_000_000_000_000_000_000),
        50_000_000_000_000_000_000_000
    );
}

#[test]
fn exact_fee_admits_only_the_amount() {
    assert_eq!(require_exact_or_minimum(1, PaymentRule::Exactly(1)), Ok(()));
    assert_eq!(
        require_exact_or_minimum(0, PaymentRule::Exactly(1)),
        Err(LedgerError::PaymentPrecondition)
    );
    assert_eq!(
        require_exact_or_minimum(2, PaymentRule::Exactly(1)),
        Err(LedgerError::PaymentPrecondition)
    );
    assert_eq!(require_exact_or_minimum(0, PaymentRule::Exactly(0)), Ok(()));
}

#[test]
fn minimum_fee_admits_the_floor_and_more() {
    assert_eq!(require_exact_or_minimum(1, PaymentRule::AtLeast(1)), Ok(()));
    assert_eq!(require_exact_or_minimum(u128::MAX, PaymentRule::AtLeast(1)), Ok(()));
    assert_eq!(
        require_exact_or_minimum(0, PaymentRule::AtLeast(1)),
        Err(LedgerError::PaymentPrecondition)
    );
    assert_eq!(
        require_exact_or_minimum(4, PaymentRule::AtLeast(5)),
        Err(LedgerError::PaymentPrecondition)
    );
}

#[test]
fn one_yocto_checks() {
    assert_eq!(assert_one_yocto(1), Ok(()));
    assert_eq!(assert_one_yocto(0), Err(LedgerError::PaymentPrecondition));
    assert_eq!(assert_one_yocto(2), Err(LedgerError::PaymentPrecondition));
    assert_eq!(assert_at_least_one_yocto(1), Ok(()));
    assert_eq!(assert_at_least_one_yocto(2), Ok(()));
    assert_eq!(assert_at_least_one_yocto(0), Err(LedgerError::PaymentPrecondition));
}

#[test]
fn pack_bought_by_a_deposit() {
    let costs = PackCosts { bronze: 1, silver: 2, gold: 3, platinum: 4, brilliant: 5 };
    assert_eq!(costs.get_pack(1), Some(Pack::Bronze));
    assert_eq!(costs.get_pack(2), Some(Pack::Silver));
    assert_eq!(costs.get_pack(3), Some(Pack::Gold));
    assert_eq!(costs.get_pack(4), Some(Pack::Platinum));
    assert_eq!(costs.get_pack(5), Some(Pack::Brilliant));
    assert_eq!(costs.get_pack(0), None);
    assert_eq!(costs.get_pack(6), None);
}

#[test]
fn pack_of_equal_cost_is_the_highest() {
    let costs = PackCosts { bronze: 7, silver: 7, gold: 9, platinum: 7, brilliant: 8 };
    assert_eq!(costs.get_pack(7), Some(Pack::Platinum));
    assert_eq!(costs.get_pack(8), Some(Pack::Brilliant));
    assert_eq!(costs.get_pack(9), Some(Pack::Gold));
}
