//! Storage-cost accounting: what a record costs to keep, and how an attached
//! payment is held against a cost.

use crate::royalty::WHOLE;
use crate::string_map::StringMap;
use crate::token_set::names_of;
use crate::types::{AccountId, Balance, LedgerError, Name};
use vstd::prelude::*;
use vstd::utf8::encode_utf8;

verus! {

/// Price of one byte of storage, in the smallest currency unit.
pub open spec fn storage_price_per_byte() -> Balance {
    10_000_000_000_000_000_000u128
}

/// Bytes that frame the account identifier of an approval entry: the length
/// prefix of the string.
pub const LENGTH_PREFIX_BYTES: u64 = 4;

/// Bytes that the approval id of an approval entry takes.
pub const APPROVAL_ID_BYTES: u64 = 8;

/// The largest surplus that is not refunded.
pub const DUST: Balance = 1;

/// `near_sdk::env::storage_byte_cost` takes nothing and returns a constant,
/// the price that the protocol fixes for one byte of storage. Believed, not
/// proved: that this constant is `storage_price_per_byte()`, ten to the
/// nineteenth.
pub assume_specification[ near_sdk::env::storage_byte_cost ]() -> (cost: u128)
    ensures
        cost == storage_price_per_byte(),
;

/// Bytes that the approval entry of `account_id` takes in storage: the
/// identifier in UTF-8, its length prefix, and the approval id.
pub open spec fn approval_entry_bytes(account_id: Name) -> nat {
    encode_utf8(account_id).len() + LENGTH_PREFIX_BYTES as nat + APPROVAL_ID_BYTES as nat
}

/// Bytes that the approval entries of `account_ids` take together.
pub open spec fn total_approval_bytes(account_ids: Seq<Name>) -> nat
    decreases account_ids.len(),
{
    if account_ids.len() == 0 {
        0
    } else {
        total_approval_bytes(account_ids.drop_last()) + approval_entry_bytes(account_ids.last())
    }
}

/// The entries of a prefix take no more bytes than the entries of the whole.
proof fn lemma_total_approval_bytes_prefix(account_ids: Seq<Name>, n: int)
    requires
        0 <= n <= account_ids.len(),
    ensures
        total_approval_bytes(account_ids.subrange(0, n)) <= total_approval_bytes(account_ids),
    decreases account_ids.len() - n,
{
    if n < account_ids.len() {
        lemma_total_approval_bytes_prefix(account_ids, n + 1);
        assert(account_ids.subrange(0, n + 1).drop_last() =~= account_ids.subrange(0, n));
    } else {
        assert(account_ids.subrange(0, n) =~= account_ids);
    }
}

/// What a payment must be to pass.
#[derive(Clone, Copy, Debug, PartialEq, Eq, Structural)]
pub enum PaymentRule {
    /// Exactly this amount.
    Exactly(Balance),
    /// This amount or more.
    AtLeast(Balance),
}

impl PaymentRule {
    /// Whether `attached_payment` passes.
    pub open spec fn admits(self, attached_payment: Balance) -> bool {
        match self {
            PaymentRule::Exactly(amount) => attached_payment == amount,
            PaymentRule::AtLeast(floor) => attached_payment >= floor,
        }
    }
}

/// The share of `b` that `a` basis points make, rounded down.
pub fn royalty_to_payout(a: u32, b: Balance) -> (payout: Balance)
    requires
        a * b <= u128::MAX,
    ensures
        payout == (a * b) / (WHOLE as int),
{
    let share: u128 = a as u128;
    share * b / (WHOLE as u128)
}

/// Bytes that the approval entry of `account_id` takes in storage.
pub fn bytes_for_approved_account_id(account_id: &AccountId) -> (bytes: u64)
    requires
        approval_entry_bytes(account_id@) <= u64::MAX,
    ensures
        bytes == approval_entry_bytes(account_id@),
{
    let length: usize = account_id.as_str().as_bytes().len();
    length as u64 + LENGTH_PREFIX_BYTES + APPROVAL_ID_BYTES
}

/// Bytes that the approval entries of `account_ids` take together, or `None`
/// where the sum does not fit.
pub fn checked_total_bytes_for_approvals(account_ids: &Vec<AccountId>) -> (total: Option<u64>)
    ensures
        match total {
            Some(bytes) => bytes == total_approval_bytes(names_of(account_ids@)),
            None => total_approval_bytes(names_of(account_ids@)) > u64::MAX,
        },
{
    let ghost names = names_of(account_ids@);
    let mut total: u64 = 0;
    let mut i: usize = 0;
    while i < account_ids.len()
        invariant
            i <= account_ids@.len(),
            names == names_of(account_ids@),
            total == total_approval_bytes(names.subrange(0, i as int)),
        decreases account_ids@.len() - i,
    {
        proof {
            lemma_total_approval_bytes_prefix(names, i + 1);
            assert(names.subrange(0, i + 1).drop_last() =~= names.subrange(0, i as int));
        }
        let length: usize = account_ids[i].as_str().as_bytes().len();
        let bytes = match (length as u64).checked_add(LENGTH_PREFIX_BYTES + APPROVAL_ID_BYTES) {
            Some(bytes) => bytes,
            None => {
                return None;
            },
        };
        total = match total.checked_add(bytes) {
            Some(sum) => sum,
            None => {
                return None;
            },
        };
        i += 1;
    }
    proof {
        assert(names.subrange(0, i as int) =~= names);
    }
    Some(total)
}

/// Bytes that the approval entries of `account_ids` take together.
pub fn total_bytes_for_approvals(account_ids: &Vec<AccountId>) -> (total: u64)
    requires
        total_approval_bytes(names_of(account_ids@)) <= u64::MAX,
    ensures
        total == total_approval_bytes(names_of(account_ids@)),
{
    match checked_total_bytes_for_approvals(account_ids) {
        Some(total) => total,
        None => vstd::pervasive::unreached(),
    }
}

/// Cost of keeping `storage_used` bytes in storage.
pub fn storage_cost(storage_used: u64) -> (cost: Balance)
    ensures
        cost == storage_price_per_byte() * storage_used,
{
    let price: u128 = near_sdk::env::storage_byte_cost();
    let used: u128 = storage_used as u128;
    assert(price * used <= u128::MAX) by (nonlinear_arith)
        requires
            price == 10_000_000_000_000_000_000u128,
            used <= 0xffff_ffff_ffff_ffffu128,
    ;
    price * used
}

/// What is owed to an account when the approval entries of `account_ids` are
/// released: the price of the bytes that they took.
pub fn refund_approved_account_ids_iter(account_ids: &Vec<AccountId>) -> (refund: Balance)
    requires
        total_approval_bytes(names_of(account_ids@)) <= u64::MAX,
    ensures
        refund == storage_price_per_byte() * total_approval_bytes(names_of(account_ids@)),
{
    let storage_released = total_bytes_for_approvals(account_ids);
    storage_cost(storage_released)
}

/// What is owed to an account when all approvals of the table
/// `approved_account_ids` are released.
pub fn refund_approved_account_ids(approved_account_ids: &StringMap<u64>) -> (refund: Balance)
    requires
        total_approval_bytes(approved_account_ids.key_seq()) <= u64::MAX,
    ensures
        refund == storage_price_per_byte() * total_approval_bytes(approved_account_ids.key_seq()),
{
    let account_ids = approved_account_ids.keys();
    refund_approved_account_ids_iter(&account_ids)
}

/// Holds `attached_payment` against `required_cost`. A payment below the
/// cost fails with `InsufficientPayment`. Otherwise the surplus is to be sent
/// back to the payer if it is more than `DUST`; a smaller surplus is kept.
pub fn refund_excess(required_cost: Balance, attached_payment: Balance) -> (refund: Result<
    Option<Balance>,
    LedgerError,
>)
    ensures
        attached_payment < required_cost ==> refund == Err::<Option<Balance>, LedgerError>(
            LedgerError::InsufficientPayment,
        ),
        required_cost <= attached_payment <= required_cost + DUST ==> refund == Ok::<
            Option<Balance>,
            LedgerError,
        >(None),
        attached_payment > required_cost + DUST ==> refund == Ok::<Option<Balance>, LedgerError>(
            Some((attached_payment - required_cost) as u128),
        ),
{
    if attached_payment < required_cost {
        return Err(LedgerError::InsufficientPayment);
    }
    let refund = attached_payment - required_cost;
    if refund > DUST {
        Ok(Some(refund))
    } else {
        Ok(None)
    }
}

/// Holds `attached_deposit` against the cost of `storage_used` bytes, as
/// `refund_excess` does.
pub fn refund_deposit(storage_used: u64, attached_deposit: Balance) -> (refund: Result<
    Option<Balance>,
    LedgerError,
>)
    ensures
        attached_deposit < storage_price_per_byte() * storage_used ==> refund == Err::<
            Option<Balance>,
            LedgerError,
        >(LedgerError::InsufficientPayment),
        storage_price_per_byte() * storage_used <= attached_deposit <= storage_price_per_byte()
            * storage_used + DUST ==> refund == Ok::<Option<Balance>, LedgerError>(None),
        attached_deposit > storage_price_per_byte() * storage_used + DUST ==> refund == Ok::<
            Option<Balance>,
            LedgerError,
        >(Some((attached_deposit - storage_price_per_byte() * storage_used) as u128)),
{
    let required_cost = storage_cost(storage_used);
    refund_excess(required_cost, attached_deposit)
}

/// Checks the payment of a fixed-fee operation: it passes exactly if `rule`
/// admits it, and fails with `PaymentPrecondition` otherwise.
pub fn require_exact_or_minimum(attached_payment: Balance, rule: PaymentRule) -> (checked: Result<
    (),
    LedgerError,
>)
    ensures
        rule.admits(attached_payment) ==> checked == Ok::<(), LedgerError>(()),
        !rule.admits(attached_payment) ==> checked == Err::<(), LedgerError>(
            LedgerError::PaymentPrecondition,
        ),
{
    let admitted = match rule {
        PaymentRule::Exactly(amount) => attached_payment == amount,
        PaymentRule::AtLeast(floor) => attached_payment >= floor,
    };
    if admitted {
        Ok(())
    } else {
        Err(LedgerError::PaymentPrecondition)
    }
}

/// Passes exactly if one unit is attached.
pub fn assert_one_yocto(attached_deposit: Balance) -> (checked: Result<(), LedgerError>)
    ensures
        attached_deposit == 1 ==> checked == Ok::<(), LedgerError>(()),
        attached_deposit != 1 ==> checked == Err::<(), LedgerError>(
            LedgerError::PaymentPrecondition,
        ),
{
    require_exact_or_minimum(attached_deposit, PaymentRule::Exactly(1))
}

/// Passes exactly if one unit or more is attached.
pub fn assert_at_least_one_yocto(attached_deposit: Balance) -> (checked: Result<(), LedgerError>)
    ensures
        attached_deposit >= 1 ==> checked == Ok::<(), LedgerError>(()),
        attached_deposit < 1 ==> checked == Err::<(), LedgerError>(
            LedgerError::PaymentPrecondition,
        ),
{
    require_exact_or_minimum(attached_deposit, PaymentRule::AtLeast(1))
}

} // verus!
