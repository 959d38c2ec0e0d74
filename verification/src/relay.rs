//! The payment relay itself: write-once configuration, the authorization and
//! validation chain of every operation, and the delegated movements.
//!
//! Each mutating operation runs the same chain: configuration present, caller
//! authorized, inputs valid, live balance sufficient, and only after all of
//! that one delegated movement on the asset ledger. A failed step reports a
//! typed error and changes nothing. Read-only operations never fail; they
//! degrade to a zero balance or a false predicate.
//!
//! Authorization is a capability handed in by the host: `auth` is the one
//! identity the caller has proven control of, checked here against the
//! identity the operation demands.
//!
//! The `check_*` functions are the bare decisions over plain values; a host
//! adapter that keeps balances in a real token contract calls them with the
//! balances it read and then performs the movement they approve. The full
//! operations run the same decisions against the modeled ledger and carry the
//! movement's effect in their contracts.

use vstd::prelude::*;
use crate::asset::Asset;
use crate::Error;
use crate::Identity;

verus! {

/// The long-lived settings, written exactly once by `initialize`.
#[derive(Clone, Copy, PartialEq, Eq, Structural, Debug)]
pub struct Config {
    /// The fungible-asset collaborator this instance manages.
    pub asset_id: Identity,
    /// The identity authorized to deposit into and withdraw from escrow.
    pub admin_id: Identity,
    /// The smallest deposit the relay accepts, fixed at deployment.
    pub min_deposit: i128,
    /// Whether successful transfers hand an event to the caller to publish.
    pub emit_transfer_events: bool,
}

/// What a successful transfer publishes for off-chain observers.
#[derive(Clone, Copy, PartialEq, Eq, Structural, Debug)]
pub struct TransferEvent {
    pub from: Identity,
    pub to: Identity,
    pub amount: i128,
}

/// The relay: its own identity (the escrow account) and the configuration,
/// absent until `initialize` runs.
pub struct PaymentsContract {
    contract_id: Identity,
    config: Option<Config>,
}

impl PaymentsContract {
    /// The relay's own identity; its balance with the collaborator is the
    /// escrow balance.
    pub closed spec fn spec_contract_id(self) -> Identity {
        self.contract_id
    }

    pub closed spec fn spec_config(self) -> Option<Config> {
        self.config
    }

    /// Whether `initialize` has established the configuration.
    pub open spec fn is_initialized(self) -> bool {
        self.spec_config() is Some
    }

    pub open spec fn spec_asset_id(self) -> Identity {
        self.spec_config()->0.asset_id
    }

    pub open spec fn spec_admin_id(self) -> Identity {
        self.spec_config()->0.admin_id
    }

    pub open spec fn spec_min_deposit(self) -> int {
        self.spec_config()->0.min_deposit as int
    }

    pub open spec fn spec_emits_events(self) -> bool {
        self.spec_config()->0.emit_transfer_events
    }

    /// The transfer decision: the first failing step of the validation
    /// chain, or approval.
    pub open spec fn spec_transfer_check(
        self,
        from_balance: int,
        auth: Identity,
        from: Identity,
        to: Identity,
        amount: i128,
    ) -> Result<(), Error> {
        if !self.is_initialized() {
            Err(Error::NotInitialized)
        } else if auth != from {
            Err(Error::Unauthorized)
        } else if amount <= 0 {
            Err(Error::InvalidAmount)
        } else if from == to {
            Err(Error::SelfTransfer)
        } else if from_balance < amount {
            Err(Error::InsufficientFunds)
        } else {
            Ok(())
        }
    }

    /// The deposit decision. The depositor's balance is deliberately not
    /// consulted here; insolvency surfaces from the collaborator when the
    /// movement is attempted.
    pub open spec fn spec_deposit_check(self, auth: Identity, amount: i128) -> Result<(), Error> {
        if !self.is_initialized() {
            Err(Error::NotInitialized)
        } else if auth != self.spec_admin_id() {
            Err(Error::Unauthorized)
        } else if amount <= 0 {
            Err(Error::InvalidAmount)
        } else if (amount as int) < self.spec_min_deposit() {
            Err(Error::InvalidAmount)
        } else {
            Ok(())
        }
    }

    /// The withdrawal decision, against the live escrow balance.
    pub open spec fn spec_withdraw_check(
        self,
        escrow_balance: int,
        auth: Identity,
        amount: i128,
    ) -> Result<(), Error> {
        if !self.is_initialized() {
            Err(Error::NotInitialized)
        } else if auth != self.spec_admin_id() {
            Err(Error::Unauthorized)
        } else if amount <= 0 {
            Err(Error::InvalidAmount)
        } else if escrow_balance < amount {
            Err(Error::InsufficientFunds)
        } else {
            Ok(())
        }
    }

    /// What `balance` reports: the live balance once initialized, zero
    /// before.
    pub open spec fn spec_balance(self, asset: Asset, user: Identity) -> int {
        if self.is_initialized() {
            asset.balance_of(user)
        } else {
            0
        }
    }

    /// What `can_transfer` reports: the amount is positive and covered by
    /// the live balance, on an initialized relay.
    pub open spec fn spec_can_transfer(self, asset: Asset, from: Identity, amount: i128) -> bool {
        self.is_initialized() && amount > 0 && asset.balance_of(from) >= amount
    }

    /// A freshly deployed relay: not yet initialized.
    pub fn new(contract_id: Identity) -> (c: PaymentsContract)
        ensures
            !c.is_initialized(),
            c.spec_contract_id() == contract_id,
    {
        PaymentsContract { contract_id, config: None }
    }

    /// Establish the configuration, exactly once. A second call is refused
    /// and changes nothing.
    pub fn initialize(
        &mut self,
        asset_id: Identity,
        admin_id: Identity,
        min_deposit: i128,
        emit_transfer_events: bool,
    ) -> (r: Result<(), Error>)
        ensures
            final(self).spec_contract_id() == old(self).spec_contract_id(),
            old(self).is_initialized() ==> r == Err::<(), Error>(Error::AlreadyInitialized)
                && *final(self) == *old(self),
            !old(self).is_initialized() ==> r is Ok
                && final(self).is_initialized()
                && final(self).spec_asset_id() == asset_id
                && final(self).spec_admin_id() == admin_id
                && final(self).spec_min_deposit() == min_deposit as int
                && final(self).spec_emits_events() == emit_transfer_events,
    {
        if self.config.is_some() {
            return Err(Error::AlreadyInitialized);
        }
        self.config = Some(
            Config { asset_id, admin_id, min_deposit, emit_transfer_events },
        );
        Ok(())
    }

    /// The transfer decision on plain values: `from_balance` is the source
    /// account's live balance as the caller read it.
    pub fn check_transfer(
        &self,
        auth: Identity,
        from: Identity,
        to: Identity,
        amount: i128,
        from_balance: i128,
    ) -> (r: Result<(), Error>)
        ensures
            r == self.spec_transfer_check(from_balance as int, auth, from, to, amount),
    {
        if self.config.is_none() {
            Err(Error::NotInitialized)
        } else if auth != from {
            Err(Error::Unauthorized)
        } else if amount <= 0 {
            Err(Error::InvalidAmount)
        } else if from == to {
            Err(Error::SelfTransfer)
        } else if from_balance < amount {
            Err(Error::InsufficientFunds)
        } else {
            Ok(())
        }
    }

    /// The deposit decision on plain values.
    pub fn check_deposit(&self, auth: Identity, amount: i128) -> (r: Result<(), Error>)
        ensures
            r == self.spec_deposit_check(auth, amount),
    {
        match &self.config {
            None => Err(Error::NotInitialized),
            Some(cfg) => {
                if auth != cfg.admin_id {
                    Err(Error::Unauthorized)
                } else if amount <= 0 {
                    Err(Error::InvalidAmount)
                } else if amount < cfg.min_deposit {
                    Err(Error::InvalidAmount)
                } else {
                    Ok(())
                }
            },
        }
    }

    /// The withdrawal decision on plain values: `escrow_balance` is the
    /// relay's own live balance as the caller read it.
    pub fn check_withdraw(&self, auth: Identity, amount: i128, escrow_balance: i128) -> (r: Result<
        (),
        Error,
    >)
        ensures
            r == self.spec_withdraw_check(escrow_balance as int, auth, amount),
    {
        match &self.config {
            None => Err(Error::NotInitialized),
            Some(cfg) => {
                if auth != cfg.admin_id {
                    Err(Error::Unauthorized)
                } else if amount <= 0 {
                    Err(Error::InvalidAmount)
                } else if escrow_balance < amount {
                    Err(Error::InsufficientFunds)
                } else {
                    Ok(())
                }
            },
        }
    }

    /// Direct account-to-account movement, authorized by the source account.
    /// On approval the movement happens and, when events are configured, the
    /// event to publish is handed back; on any failure the ledger is
    /// untouched and the first failing step names the error.
    pub fn transfer(
        &self,
        asset: &mut Asset,
        auth: Identity,
        from: Identity,
        to: Identity,
        amount: i128,
    ) -> (r: Result<Option<TransferEvent>, Error>)
        requires
            old(asset).well_formed(),
        ensures
            final(asset).well_formed(),
            final(asset).total_supply() == old(asset).total_supply(),
            ({
                let check = self.spec_transfer_check(
                    old(asset).balance_of(from),
                    auth,
                    from,
                    to,
                    amount,
                );
                match r {
                    Err(e) => *final(asset) == *old(asset) && check == Err::<(), Error>(e),
                    Ok(ev) => check is Ok
                        && final(asset).balance_of(from) == old(asset).balance_of(from) - amount
                        && final(asset).balance_of(to) == old(asset).balance_of(to) + amount
                        && (forall|w: Identity|
                            w != from && w != to
                                ==> final(asset).balance_of(w) == old(asset).balance_of(w))
                        && ev == (if self.spec_emits_events() {
                            Some((TransferEvent { from, to, amount }))
                        } else {
                            None::<TransferEvent>
                        }),
                }
            }),
    {
        let from_balance: i128 = asset.balance(from);
        match self.check_transfer(auth, from, to, amount, from_balance) {
            Err(e) => Err(e),
            Ok(()) => {
                let moved: bool = asset.transfer(from, to, amount);
                proof {
                    assert(moved);
                }
                let emit: bool = match &self.config {
                    Some(cfg) => cfg.emit_transfer_events,
                    None => false,
                };
                if emit {
                    Ok(Some(TransferEvent { from, to, amount }))
                } else {
                    Ok(None)
                }
            },
        }
    }

    /// Administrator-authorized movement from `depositor` into escrow,
    /// subject to the configured minimum. The depositor's solvency is left
    /// to the collaborator: if the movement is refused there, the whole
    /// operation fails with `InsufficientFunds` and nothing changes.
    pub fn deposit(
        &self,
        asset: &mut Asset,
        auth: Identity,
        depositor: Identity,
        amount: i128,
    ) -> (r: Result<(), Error>)
        requires
            old(asset).well_formed(),
        ensures
            final(asset).well_formed(),
            final(asset).total_supply() == old(asset).total_supply(),
            ({
                let check = self.spec_deposit_check(auth, amount);
                match r {
                    Err(e) => *final(asset) == *old(asset) && (match check {
                        Err(ce) => e == ce,
                        Ok(_) => e == Error::InsufficientFunds && old(asset).balance_of(depositor)
                            < amount,
                    }),
                    Ok(_) => check is Ok && amount <= old(asset).balance_of(depositor)
                        && (depositor == self.spec_contract_id() ==> *final(asset) == *old(asset))
                        && (depositor != self.spec_contract_id()
                            ==> final(asset).balance_of(depositor)
                                == old(asset).balance_of(depositor) - amount
                            && final(asset).balance_of(self.spec_contract_id())
                                == old(asset).balance_of(self.spec_contract_id()) + amount
                            && (forall|w: Identity|
                                w != depositor && w != self.spec_contract_id()
                                    ==> final(asset).balance_of(w) == old(asset).balance_of(w))),
                }
            }),
    {
        match self.check_deposit(auth, amount) {
            Err(e) => Err(e),
            Ok(()) => {
                let moved: bool = asset.transfer(depositor, self.contract_id, amount);
                if moved {
                    Ok(())
                } else {
                    Err(Error::InsufficientFunds)
                }
            },
        }
    }

    /// Administrator-authorized movement out of escrow to `to`, refused when
    /// the live escrow balance does not cover it.
    pub fn withdraw(&self, asset: &mut Asset, auth: Identity, to: Identity, amount: i128) -> (r:
        Result<(), Error>)
        requires
            old(asset).well_formed(),
        ensures
            final(asset).well_formed(),
            final(asset).total_supply() == old(asset).total_supply(),
            ({
                let check = self.spec_withdraw_check(
                    old(asset).balance_of(self.spec_contract_id()),
                    auth,
                    amount,
                );
                match r {
                    Err(e) => *final(asset) == *old(asset) && check == Err::<(), Error>(e),
                    Ok(_) => check is Ok
                        && (to == self.spec_contract_id() ==> *final(asset) == *old(asset))
                        && (to != self.spec_contract_id()
                            ==> final(asset).balance_of(self.spec_contract_id())
                                == old(asset).balance_of(self.spec_contract_id()) - amount
                            && final(asset).balance_of(to) == old(asset).balance_of(to) + amount
                            && (forall|w: Identity|
                                w != to && w != self.spec_contract_id()
                                    ==> final(asset).balance_of(w) == old(asset).balance_of(w))),
                }
            }),
    {
        let escrow_balance: i128 = asset.balance(self.contract_id);
        match self.check_withdraw(auth, amount, escrow_balance) {
            Err(e) => Err(e),
            Ok(()) => {
                let moved: bool = asset.transfer(self.contract_id, to, amount);
                proof {
                    assert(moved);
                }
                Ok(())
            },
        }
    }

    /// The live balance of any identity, the relay's own included. Before
    /// initialization there is no asset to ask, and the answer is zero.
    pub fn balance(&self, asset: &Asset, user: Identity) -> (r: i128)
        requires
            asset.well_formed(),
        ensures
            r == self.spec_balance(*asset, user),
            r >= 0,
    {
        if self.config.is_none() {
            0
        } else {
            asset.balance(user)
        }
    }

    /// The relay's own escrow balance; zero before initialization.
    pub fn contract_balance(&self, asset: &Asset) -> (r: i128)
        requires
            asset.well_formed(),
        ensures
            r == self.spec_balance(*asset, self.spec_contract_id()),
            r >= 0,
    {
        if self.config.is_none() {
            0
        } else {
            asset.balance(self.contract_id)
        }
    }

    /// Pre-flight for a transfer: would a positive `amount` be covered by
    /// `from`'s live balance? Never fails; false on an uninitialized relay.
    pub fn can_transfer(&self, asset: &Asset, from: Identity, amount: i128) -> (r: bool)
        requires
            asset.well_formed(),
        ensures
            r == self.spec_can_transfer(*asset, from, amount),
    {
        if amount <= 0 {
            return false;
        }
        if self.config.is_none() {
            return false;
        }
        let from_balance: i128 = asset.balance(from);
        from_balance >= amount
    }
}

} // verus!
