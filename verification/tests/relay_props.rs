use payments::Asset;
use payments::Error;
use payments::Identity;
use payments::PaymentsContract;
use payments::TransferEvent;

fn initialized_relay(min_deposit: i128, emit: bool) -> (PaymentsContract, Asset, Identity, Identity) {
    let contract_id = Identity::new(1);
    let admin = Identity::new(2);
    let asset_id = Identity::new(3);
    let mut relay = PaymentsContract::new(contract_id);
    let token = Asset::new();
    relay
        .initialize(asset_id, admin, min_deposit, emit)
        .expect("initialize");
    (relay, token, contract_id, admin)
}

#[test]
fn nonpositive_amounts_rejected_everywhere() {
    let (relay, mut token, contract_id, admin) = initialized_relay(50, false);
    let user = Identity::new(4);
    let other = Identity::new(5);
    assert!(token.mint(user, 500));
    assert!(token.mint(contract_id, 500));

    for amount in [0i128, -1, -500] {
        assert_eq!(
            relay.transfer(&mut token, user, user, other, amount),
            Err(Error::InvalidAmount)
        );
        assert_eq!(
            relay.deposit(&mut token, admin, user, amount),
            Err(Error::InvalidAmount)
        );
        assert_eq!(
            relay.withdraw(&mut token, admin, other, amount),
            Err(Error::InvalidAmount)
        );
    }
    assert_eq!(token.balance(user), 500);
    assert_eq!(token.balance(other), 0);
    assert_eq!(token.balance(contract_id), 500);
}

#[test]
fn self_transfer_rejected() {
    let (relay, mut token, _contract_id, _admin) = initialized_relay(50, false);
    let user = Identity::new(4);
    assert!(token.mint(user, 500));

    assert_eq!(
        relay.transfer(&mut token, user, user, user, 100),
        Err(Error::SelfTransfer)
    );
    assert_eq!(token.balance(user), 500);
}

#[test]
fn transfer_beyond_balance_rejected() {
    let (relay, mut token, _contract_id, _admin) = initialized_relay(50, false);
    let user = Identity::new(4);
    let other = Identity::new(5);
    assert!(token.mint(user, 99));

    assert_eq!(
        relay.transfer(&mut token, user, user, other, 100),
        Err(Error::InsufficientFunds)
    );
    assert_eq!(token.balance(user), 99);
    assert_eq!(token.balance(other), 0);
}

#[test]
fn deposit_at_minimum_moves_value() {
    let (relay, mut token, contract_id, admin) = initialized_relay(50, false);
    let depositor = Identity::new(4);
    assert!(token.mint(depositor, 80));

    // Below the minimum: rejected, nothing moves.
    assert_eq!(
        relay.deposit(&mut token, admin, depositor, 49),
        Err(Error::InvalidAmount)
    );
    assert_eq!(token.balance(depositor), 80);
    assert_eq!(token.balance(contract_id), 0);

    // Exactly the minimum: the depositor pays, escrow receives.
    assert_eq!(relay.deposit(&mut token, admin, depositor, 50), Ok(()));
    assert_eq!(token.balance(depositor), 30);
    assert_eq!(token.balance(contract_id), 50);
}

#[test]
fn deposit_insolvent_depositor_rejected_by_collaborator() {
    let (relay, mut token, contract_id, admin) = initialized_relay(50, false);
    let depositor = Identity::new(4);
    assert!(token.mint(depositor, 60));

    assert_eq!(
        relay.deposit(&mut token, admin, depositor, 61),
        Err(Error::InsufficientFunds)
    );
    assert_eq!(token.balance(depositor), 60);
    assert_eq!(token.balance(contract_id), 0);
}

#[test]
fn withdraw_bounded_by_escrow() {
    let (relay, mut token, contract_id, admin) = initialized_relay(50, false);
    let recipient = Identity::new(4);
    assert!(token.mint(contract_id, 300));

    // Beyond the live escrow balance: rejected, nothing moves.
    assert_eq!(
        relay.withdraw(&mut token, admin, recipient, 301),
        Err(Error::InsufficientFunds)
    );
    assert_eq!(token.balance(contract_id), 300);
    assert_eq!(token.balance(recipient), 0);

    // Within it: escrow pays, the destination receives.
    assert_eq!(relay.withdraw(&mut token, admin, recipient, 120), Ok(()));
    assert_eq!(token.balance(contract_id), 180);
    assert_eq!(token.balance(recipient), 120);
}

#[test]
fn can_transfer_agrees_with_transfer() {
    let (relay, mut token, _contract_id, _admin) = initialized_relay(50, false);
    let user = Identity::new(4);
    let other = Identity::new(5);
    assert!(token.mint(user, 200));

    for amount in [-5i128, 0, 1, 199, 200, 201] {
        let predicted = relay.can_transfer(&token, user, amount);
        let outcome = relay.transfer(&mut token, user, user, other, amount);
        assert_eq!(predicted, outcome.is_ok());
        if outcome.is_ok() {
            // Undo the movement so every probe starts from the same balances.
            assert!(token.transfer(other, user, amount));
        }
    }
}

#[test]
fn uninitialized_relay_degrades_and_rejects() {
    let contract_id = Identity::new(1);
    let relay = PaymentsContract::new(contract_id);
    let mut token = Asset::new();
    let user = Identity::new(4);
    let other = Identity::new(5);
    assert!(token.mint(user, 500));

    // Balances read zero even for funded accounts: there is no configured
    // asset to ask yet.
    assert_eq!(relay.balance(&token, user), 0);
    assert_eq!(relay.contract_balance(&token), 0);
    assert!(!relay.can_transfer(&token, user, 100));

    assert_eq!(
        relay.transfer(&mut token, user, user, other, 100),
        Err(Error::NotInitialized)
    );
    assert_eq!(
        relay.deposit(&mut token, user, user, 100),
        Err(Error::NotInitialized)
    );
    assert_eq!(
        relay.withdraw(&mut token, user, other, 100),
        Err(Error::NotInitialized)
    );
    assert_eq!(token.balance(user), 500);
}

#[test]
fn unauthorized_admin_operations_rejected() {
    let (relay, mut token, contract_id, _admin) = initialized_relay(50, false);
    let intruder = Identity::new(9);
    let user = Identity::new(4);
    assert!(token.mint(user, 500));
    assert!(token.mint(contract_id, 500));

    // Rejected regardless of the amount's validity.
    for amount in [100i128, 0, -7] {
        assert_eq!(
            relay.deposit(&mut token, intruder, user, amount),
            Err(Error::Unauthorized)
        );
        assert_eq!(
            relay.withdraw(&mut token, intruder, user, amount),
            Err(Error::Unauthorized)
        );
    }
    // A transfer not authorized by its source account is rejected too.
    assert_eq!(
        relay.transfer(&mut token, intruder, user, intruder, 100),
        Err(Error::Unauthorized)
    );
    assert_eq!(token.balance(user), 500);
    assert_eq!(token.balance(contract_id), 500);
}

#[test]
fn initialize_runs_once() {
    let (mut relay, mut token, contract_id, admin) = initialized_relay(50, false);
    let user = Identity::new(4);
    assert_eq!(
        relay.initialize(Identity::new(7), Identity::new(8), 1, true),
        Err(Error::AlreadyInitialized)
    );
    // The original configuration still governs: the admin set first stays.
    assert!(token.mint(user, 100));
    assert_eq!(relay.deposit(&mut token, admin, user, 60), Ok(()));
    assert_eq!(token.balance(contract_id), 60);
}

#[test]
fn transfer_event_follows_configuration() {
    let user = Identity::new(4);
    let other = Identity::new(5);

    let (relay, mut token, _contract_id, _admin) = initialized_relay(50, true);
    assert!(token.mint(user, 500));
    let event = relay
        .transfer(&mut token, user, user, other, 150)
        .expect("transfer");
    assert_eq!(
        event,
        Some(TransferEvent { from: user, to: other, amount: 150 })
    );

    let (quiet, mut token2, _cid, _adm) = initialized_relay(50, false);
    assert!(token2.mint(user, 500));
    let none = quiet
        .transfer(&mut token2, user, user, other, 150)
        .expect("transfer");
    assert_eq!(none, None);
}

#[test]
fn mint_rejects_negative_and_overflowing_amounts() {
    let mut token = Asset::new();
    let user = Identity::new(4);
    let other = Identity::new(5);
    assert!(!token.mint(user, -1));
    assert!(token.mint(user, i128::MAX));
    assert!(!token.mint(other, 1));
    assert_eq!(token.balance(user), i128::MAX);
    assert_eq!(token.balance(other), 0);
}

#[test]
fn collaborator_transfer_to_self_is_a_no_op() {
    let mut token = Asset::new();
    let user = Identity::new(4);
    assert!(token.mint(user, 10));
    assert!(token.transfer(user, user, 10));
    assert_eq!(token.balance(user), 10);
    assert!(!token.transfer(user, user, 11));
}

#[test]
fn scenario_deposit_then_withdraw() {
    let (relay, mut token, contract_id, admin) = initialized_relay(50, false);
    let user_u = Identity::new(4);
    let user_v = Identity::new(5);
    assert!(token.mint(user_u, 1000));

    // The admin deposits 1000 out of U's account into escrow.
    assert_eq!(relay.deposit(&mut token, admin, user_u, 1000), Ok(()));
    assert_eq!(relay.contract_balance(&token), 1000);
    assert_eq!(relay.balance(&token, user_u), 0);

    // U's funds now sit in escrow, so U's own transfer attempt fails and
    // leaves every balance where it was.
    assert_eq!(
        relay.transfer(&mut token, user_u, user_u, user_v, 100),
        Err(Error::InsufficientFunds)
    );
    assert_eq!(relay.balance(&token, user_u), 0);
    assert_eq!(relay.balance(&token, user_v), 0);

    // The admin withdraws 900 from escrow to V.
    assert_eq!(relay.withdraw(&mut token, admin, user_v, 900), Ok(()));
    assert_eq!(relay.contract_balance(&token), 100);
    assert_eq!(relay.balance(&token, user_v), 900);
}
