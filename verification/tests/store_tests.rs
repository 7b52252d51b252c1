use peillute::store::Store;
use peillute::store::StoreError;
use peillute::store::Transaction;

fn vc() -> Vec<u64> {
    Vec::new()
}

fn seeded() -> Store {
    let mut s = Store::new();
    s.create_user("alice");
    s.create_user("bob");
    s
}

// Applying the same `(lamport, origin)` transaction twice leaves the store
// unchanged after the first application.
#[test]
fn store_idempotence_by_key() {
    let mut s = seeded();
    assert!(s.deposit("alice", 100, 7, 0, &vc()));
    let after_first = s.transactions.len();
    // Same key again, even with different content: skipped whole.
    assert!(!s.deposit("alice", 999, 7, 0, &vc()));
    assert!(!s.withdraw("bob", 5, 7, 0, &vc()));
    assert_eq!(s.transactions.len(), after_first);
    assert_eq!(s.calculate_solde("alice"), 100);
}

#[test]
fn store_balances_exact() {
    let mut s = seeded();
    s.deposit("alice", 100, 1, 0, &vc());
    s.withdraw("alice", 30, 2, 0, &vc());
    s.create_transaction("alice", "bob", 25, 3, 0, &vc());
    s.create_transaction("alice", "NULL", 10, 4, 0, &vc()); // a payment
    assert_eq!(s.calculate_solde("alice"), 100 - 30 - 25 - 10);
    assert_eq!(s.calculate_solde("bob"), 25);
    assert_eq!(s.calculate_solde("nobody"), 0);
}

#[test]
fn store_refund_reverses_target() {
    let mut s = seeded();
    s.create_transaction("alice", "bob", 40, 5, 1, &vc());
    let r = s.refund_transaction(5, 1, 9, 0, &vc());
    assert_eq!(r, Ok(true));
    assert_eq!(s.calculate_solde("alice"), 0);
    assert_eq!(s.calculate_solde("bob"), 0);
    let last = s.transactions.last().unwrap();
    assert_eq!(last.refund_of, Some((5, 1)));
    assert_eq!(last.src, "bob");
    assert_eq!(last.dst, "alice");
}

#[test]
fn store_refund_unknown_transaction_fails() {
    let mut s = seeded();
    let r = s.refund_transaction(123, 2, 9, 0, &vc());
    assert_eq!(r, Err(StoreError::UnknownTransaction));
    assert_eq!(s.transactions.len(), 0);
}

#[test]
fn store_users_roster() {
    let mut s = seeded();
    assert!(s.user_exists("alice"));
    assert!(!s.user_exists("carol"));
    // A duplicate create changes nothing.
    assert!(!s.create_user("alice"));
    assert_eq!(s.get_users(), vec!["alice".to_string(), "bob".to_string()]);
    assert!(s.delete_user("alice"));
    assert!(!s.user_exists("alice"));
    assert!(!s.delete_user("alice"));
    assert_eq!(s.get_users(), vec!["bob".to_string()]);
}

#[test]
fn store_transactions_for_user_filters() {
    let mut s = seeded();
    s.deposit("alice", 10, 1, 0, &vc());
    s.deposit("bob", 20, 2, 0, &vc());
    s.create_transaction("alice", "bob", 5, 3, 0, &vc());
    let for_alice = s.transactions_for_user("alice");
    assert_eq!(for_alice.len(), 2);
    assert_eq!(for_alice[0].amount, 10);
    assert_eq!(for_alice[1].amount, 5);
}

#[test]
fn store_apply_tx_exact_row() {
    let mut s = Store::new();
    let row = Transaction {
        lamport: 3,
        origin: 2,
        src: "x".to_string(),
        dst: "y".to_string(),
        amount: 11,
        vector: vc(),
        refund_of: None,
    };
    assert!(s.apply_tx(peillute::store::clone_tx(&row)));
    assert!(s.transaction_exists(3, 2));
    assert!(!s.transaction_exists(3, 1));
    assert!(!s.apply_tx(row));
    assert_eq!(s.transactions.len(), 1);
}
