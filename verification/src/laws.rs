//! Laws relating the relay's decisions to one another.
//!
//! Each operation's own contract already pins down its result and its effect
//! on the ledger (in particular, every failure leaves the ledger untouched:
//! the `Err` arm of each `ensures` states `*final(asset) == *old(asset)`).
//! The proof functions here state, over the same decision functions the
//! contracts use, the rules that cut across operations: which input is
//! rejected with which error, and how the pre-flight predicate agrees with
//! the transfer decision.

use vstd::prelude::*;
use crate::asset::Asset;
use crate::relay::PaymentsContract;
use crate::Error;
use crate::Identity;

verus! {

/// A non-positive amount is rejected as `InvalidAmount` by transfer, deposit
/// and withdrawal alike, whatever the balances, as soon as the earlier steps
/// of the chain (configuration present, caller authorized) pass. On an
/// uninitialized relay `NotInitialized` wins instead, and an unauthorized
/// caller is reported before the amount is looked at.
pub proof fn lemma_nonpositive_amount_rejected(
    c: PaymentsContract,
    from_balance: int,
    escrow_balance: int,
    auth: Identity,
    from: Identity,
    to: Identity,
    amount: i128,
)
    requires
        c.is_initialized(),
        amount <= 0,
    ensures
        auth == from ==> c.spec_transfer_check(from_balance, auth, from, to, amount)
            == Err::<(), Error>(Error::InvalidAmount),
        auth == c.spec_admin_id() ==> c.spec_deposit_check(auth, amount)
            == Err::<(), Error>(Error::InvalidAmount),
        auth == c.spec_admin_id() ==> c.spec_withdraw_check(escrow_balance, auth, amount)
            == Err::<(), Error>(Error::InvalidAmount),
{
}

/// A transfer whose source and destination coincide is rejected as
/// `SelfTransfer`, whatever the balance.
pub proof fn lemma_self_transfer_rejected(
    c: PaymentsContract,
    from_balance: int,
    from: Identity,
    amount: i128,
)
    requires
        c.is_initialized(),
        amount > 0,
    ensures
        c.spec_transfer_check(from_balance, from, from, from, amount)
            == Err::<(), Error>(Error::SelfTransfer),
{
}

/// A transfer beyond the source account's live balance is rejected as
/// `InsufficientFunds`.
pub proof fn lemma_insufficient_balance_rejected(
    c: PaymentsContract,
    from_balance: int,
    from: Identity,
    to: Identity,
    amount: i128,
)
    requires
        c.is_initialized(),
        amount > 0,
        from != to,
        from_balance < amount,
    ensures
        c.spec_transfer_check(from_balance, from, from, to, amount)
            == Err::<(), Error>(Error::InsufficientFunds),
{
}

/// An authorized deposit of a positive amount is approved exactly when the
/// amount reaches the configured minimum; below it, the failure is
/// `InvalidAmount`. (The movement itself, and so the balance changes, are
/// stated in `deposit`'s own contract.)
pub proof fn lemma_deposit_minimum(c: PaymentsContract, amount: i128)
    requires
        c.is_initialized(),
        amount > 0,
    ensures
        (c.spec_deposit_check(c.spec_admin_id(), amount) is Ok)
            == (amount as int >= c.spec_min_deposit()),
        (amount as int) < c.spec_min_deposit() ==> c.spec_deposit_check(
            c.spec_admin_id(),
            amount,
        ) == Err::<(), Error>(Error::InvalidAmount),
{
}

/// An authorized withdrawal of a positive amount is approved exactly when
/// the live escrow balance covers it; beyond it, the failure is
/// `InsufficientFunds`. (The balance changes on approval are stated in
/// `withdraw`'s own contract.)
pub proof fn lemma_withdraw_escrow_bound(c: PaymentsContract, escrow_balance: int, amount: i128)
    requires
        c.is_initialized(),
        amount > 0,
    ensures
        (c.spec_withdraw_check(escrow_balance, c.spec_admin_id(), amount) is Ok)
            == (escrow_balance >= amount),
        escrow_balance < amount ==> c.spec_withdraw_check(
            escrow_balance,
            c.spec_admin_id(),
            amount,
        ) == Err::<(), Error>(Error::InsufficientFunds),
{
}

/// On an initialized relay, the pre-flight predicate agrees with the
/// transfer decision: `can_transfer(from, amount)` holds exactly when a
/// transfer of `amount` out of `from`, authorized by `from` and aimed at any
/// distinct destination, would be approved. (On an uninitialized relay the
/// predicate is false while the decision reports `NotInitialized`, a ground
/// the predicate does not speak of; that case is stated in
/// `lemma_uninitialized_defaults` instead.)
pub proof fn lemma_can_transfer_agrees_with_transfer(
    c: PaymentsContract,
    asset: Asset,
    from: Identity,
    to: Identity,
    amount: i128,
)
    requires
        c.is_initialized(),
        from != to,
    ensures
        c.spec_can_transfer(asset, from, amount) == (c.spec_transfer_check(
            asset.balance_of(from),
            from,
            from,
            to,
            amount,
        ) is Ok),
{
}

/// Before `initialize` runs, every balance reads zero, the pre-flight
/// predicate is false, and every mutating decision is `NotInitialized`,
/// whatever the caller, the accounts or the amount.
pub proof fn lemma_uninitialized_defaults(
    c: PaymentsContract,
    asset: Asset,
    from_balance: int,
    escrow_balance: int,
    auth: Identity,
    from: Identity,
    to: Identity,
    user: Identity,
    amount: i128,
)
    requires
        !c.is_initialized(),
    ensures
        c.spec_balance(asset, user) == 0,
        !c.spec_can_transfer(asset, from, amount),
        c.spec_transfer_check(from_balance, auth, from, to, amount)
            == Err::<(), Error>(Error::NotInitialized),
        c.spec_deposit_check(auth, amount) == Err::<(), Error>(Error::NotInitialized),
        c.spec_withdraw_check(escrow_balance, auth, amount)
            == Err::<(), Error>(Error::NotInitialized),
{
}

/// A deposit or withdrawal whose authorization proof is not the configured
/// administrator's is rejected as `Unauthorized`, regardless of the amount's
/// validity; so is a transfer whose proof is not the source account's.
pub proof fn lemma_unauthorized_rejected(
    c: PaymentsContract,
    from_balance: int,
    escrow_balance: int,
    auth: Identity,
    from: Identity,
    to: Identity,
    amount: i128,
)
    requires
        c.is_initialized(),
    ensures
        auth != c.spec_admin_id() ==> c.spec_deposit_check(auth, amount)
            == Err::<(), Error>(Error::Unauthorized),
        auth != c.spec_admin_id() ==> c.spec_withdraw_check(escrow_balance, auth, amount)
            == Err::<(), Error>(Error::Unauthorized),
        auth != from ==> c.spec_transfer_check(from_balance, auth, from, to, amount)
            == Err::<(), Error>(Error::Unauthorized),
{
}

} // verus!
