use solana_vault::errors::ErrorCode;
use solana_vault::ledger::Ledger;
use solana_vault::vault::Identity;

fn id(n: u8) -> Identity {
    Identity::new(vec![n; 32])
}

#[test]
fn create_fresh_vault() {
    let mut ledger = Ledger::new();
    assert_eq!(ledger.initialize(id(1)), Ok(()));
    assert!(ledger.contains(&id(1)));
    assert_eq!(ledger.vault_count(), 1);
    let vault = ledger.get(&id(1)).unwrap();
    assert!(vault.owner == id(1));
    assert_eq!(vault.balance, 0);
    assert_eq!(vault.total_deposited, 0);
    assert_eq!(vault.total_withdrawn, 0);
}

#[test]
fn create_twice_fails_already_exists() {
    let mut ledger = Ledger::new();
    assert_eq!(ledger.initialize(id(1)), Ok(()));
    assert_eq!(ledger.deposit(&id(1), &id(2), 30, true), Ok(()));
    assert_eq!(ledger.initialize(id(1)), Err(ErrorCode::AlreadyExists));
    assert_eq!(ledger.vault_count(), 1);
    let vault = ledger.get(&id(1)).unwrap();
    assert_eq!(vault.balance, 30);
    assert_eq!(vault.total_deposited, 30);
    assert_eq!(vault.total_withdrawn, 0);
}

#[test]
fn deposit_then_withdraw_scenario() {
    let owner = 1u8;
    let actor = 2u8;
    let recipient = 3u8;
    let mut ledger = Ledger::new();
    assert_eq!(ledger.initialize(id(owner)), Ok(()));

    assert_eq!(ledger.deposit(&id(owner), &id(actor), 100, true), Ok(()));
    let vault = ledger.get(&id(owner)).unwrap();
    assert_eq!(vault.balance, 100);
    assert_eq!(vault.total_deposited, 100);

    assert_eq!(ledger.withdraw(&id(owner), &id(owner), &id(recipient), 40), Ok(()));
    let vault = ledger.get(&id(owner)).unwrap();
    assert_eq!(vault.balance, 60);
    assert_eq!(vault.total_withdrawn, 40);

    assert_eq!(
        ledger.withdraw(&id(owner), &id(owner), &id(recipient), 100),
        Err(ErrorCode::InsufficientFunds)
    );
    let vault = ledger.get(&id(owner)).unwrap();
    assert_eq!(vault.balance, 60);
    assert_eq!(vault.total_deposited, 100);
    assert_eq!(vault.total_withdrawn, 40);
}

#[test]
fn non_owner_withdrawal_is_unauthorized() {
    let mut ledger = Ledger::new();
    assert_eq!(ledger.initialize(id(1)), Ok(()));
    assert_eq!(
        ledger.withdraw(&id(1), &id(9), &id(9), 1),
        Err(ErrorCode::Unauthorized)
    );
    let vault = ledger.get(&id(1)).unwrap();
    assert_eq!(vault.balance, 0);
    assert_eq!(vault.total_deposited, 0);
    assert_eq!(vault.total_withdrawn, 0);
}

#[test]
fn unauthorized_even_with_funds_and_owner_as_recipient() {
    let mut ledger = Ledger::new();
    assert_eq!(ledger.initialize(id(1)), Ok(()));
    assert_eq!(ledger.deposit(&id(1), &id(1), 500, true), Ok(()));
    assert_eq!(
        ledger.withdraw(&id(1), &id(2), &id(1), 10),
        Err(ErrorCode::Unauthorized)
    );
    let vault = ledger.get(&id(1)).unwrap();
    assert_eq!(vault.balance, 500);
    assert_eq!(vault.total_withdrawn, 0);
}

#[test]
fn overdraw_fails_insufficient_funds() {
    let mut ledger = Ledger::new();
    assert_eq!(ledger.initialize(id(4)), Ok(()));
    assert_eq!(ledger.deposit(&id(4), &id(5), 50, true), Ok(()));
    assert_eq!(
        ledger.withdraw(&id(4), &id(4), &id(5), 51),
        Err(ErrorCode::InsufficientFunds)
    );
    let vault = ledger.get(&id(4)).unwrap();
    assert_eq!(vault.balance, 50);
    assert_eq!(vault.total_deposited, 50);
    assert_eq!(vault.total_withdrawn, 0);
}

#[test]
fn deposit_overflow_is_rejected_atomically() {
    let mut ledger = Ledger::new();
    assert_eq!(ledger.initialize(id(1)), Ok(()));
    assert_eq!(ledger.deposit(&id(1), &id(2), u64::MAX, true), Ok(()));
    assert_eq!(ledger.deposit(&id(1), &id(2), 1, true), Err(ErrorCode::Overflow));
    let vault = ledger.get(&id(1)).unwrap();
    assert_eq!(vault.balance, u64::MAX);
    assert_eq!(vault.total_deposited, u64::MAX);
    assert_eq!(vault.total_withdrawn, 0);
}

#[test]
fn failed_transfer_is_propagated() {
    let mut ledger = Ledger::new();
    assert_eq!(ledger.initialize(id(1)), Ok(()));
    assert_eq!(
        ledger.deposit(&id(1), &id(2), 25, false),
        Err(ErrorCode::TransferFailed)
    );
    let vault = ledger.get(&id(1)).unwrap();
    assert_eq!(vault.balance, 0);
    assert_eq!(vault.total_deposited, 0);
}

#[test]
fn balance_is_net_of_totals_after_every_operation() {
    let mut ledger = Ledger::new();
    assert_eq!(ledger.initialize(id(7)), Ok(()));
    let steps: Vec<(bool, u64)> = vec![
        (true, 1000),
        (false, 250),
        (true, 4),
        (false, 754),
        (true, 10),
    ];
    for (is_deposit, amount) in steps {
        if is_deposit {
            assert_eq!(ledger.deposit(&id(7), &id(8), amount, true), Ok(()));
        } else {
            assert_eq!(ledger.withdraw(&id(7), &id(7), &id(9), amount), Ok(()));
        }
        let vault = ledger.get(&id(7)).unwrap();
        assert_eq!(vault.balance, vault.total_deposited - vault.total_withdrawn);
    }
    let vault = ledger.get(&id(7)).unwrap();
    assert_eq!(vault.balance, 10);
    assert_eq!(vault.total_deposited, 1014);
    assert_eq!(vault.total_withdrawn, 1004);
}

#[test]
fn vaults_are_independent() {
    let mut ledger = Ledger::new();
    assert_eq!(ledger.initialize(id(1)), Ok(()));
    assert_eq!(ledger.initialize(id(2)), Ok(()));
    assert_eq!(ledger.vault_count(), 2);
    assert_eq!(ledger.deposit(&id(1), &id(3), 77, true), Ok(()));
    let untouched = ledger.get(&id(2)).unwrap();
    assert_eq!(untouched.balance, 0);
    assert_eq!(untouched.total_deposited, 0);
    let touched = ledger.get(&id(1)).unwrap();
    assert_eq!(touched.balance, 77);
}

#[test]
fn missing_vault_is_reported_absent() {
    let ledger = Ledger::new();
    assert!(!ledger.contains(&id(1)));
    assert!(ledger.get(&id(1)).is_none());
    assert_eq!(ledger.vault_count(), 0);
}
