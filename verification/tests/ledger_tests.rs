use swap_tester::account::create_system_account;
use swap_tester::account::empty_system_account;
use swap_tester::account::system_program_id;
use swap_tester::account::AccountRecord;
use swap_tester::account::KeyedAccount;
use swap_tester::address::Address;
use swap_tester::context::OracleOutcome;
use swap_tester::context::SwapTestContext;
use swap_tester::error::TestContextError;
use swap_tester::ledger::Ledger;

fn addr(n: u8) -> Address {
    Address::new_from_array([n; 32])
}

fn record(lamports: u64, data: Vec<u8>) -> AccountRecord {
    AccountRecord { lamports, data, owner: addr(200), executable: false, rent_epoch: 0 }
}

fn same(a: &AccountRecord, b: &AccountRecord) -> bool {
    a.lamports == b.lamports
        && a.data == b.data
        && a.owner.bytes == b.owner.bytes
        && a.executable == b.executable
        && a.rent_epoch == b.rent_epoch
}

fn listing(accounts: &[KeyedAccount]) -> Vec<([u8; 32], u64, Vec<u8>)> {
    let mut out: Vec<([u8; 32], u64, Vec<u8>)> =
        accounts.iter().map(|k| (k.address.bytes, k.account.lamports, k.account.data.clone())).collect();
    out.sort();
    out
}

#[test]
fn an_account_never_stored_is_absent() {
    let ledger = Ledger::new();
    assert!(ledger.get(&addr(1)).is_none());
    assert!(!ledger.contains(&addr(1)));
    assert_eq!(ledger.len(), 0);
    assert!(ledger.snapshot_all().is_empty());
}

#[test]
fn an_empty_account_is_present() {
    let mut ledger = Ledger::new();
    ledger.put(addr(1), empty_system_account());
    let got = ledger.get(&addr(1)).unwrap();
    assert_eq!(got.lamports, 0);
    assert!(got.data.is_empty());
    assert_eq!(got.owner.bytes, [0u8; 32]);
    assert!(ledger.contains(&addr(1)));
    assert!(ledger.get(&addr(2)).is_none());
}

#[test]
fn put_replaces_what_was_stored() {
    let mut ledger = Ledger::new();
    ledger.put(addr(1), record(5, vec![1, 2, 3]));
    ledger.put(addr(2), record(6, vec![4]));
    ledger.put(addr(1), record(7, vec![9, 9]));
    assert_eq!(ledger.len(), 2);
    assert!(same(&ledger.get(&addr(1)).unwrap(), &record(7, vec![9, 9])));
    assert!(same(&ledger.get(&addr(2)).unwrap(), &record(6, vec![4])));
}

#[test]
fn get_hands_out_a_copy() {
    let mut ledger = Ledger::new();
    ledger.put(addr(1), record(5, vec![1, 2, 3]));
    let mut copy = ledger.get(&addr(1)).unwrap();
    copy.data[0] = 77;
    copy.lamports = 0;
    assert!(same(&ledger.get(&addr(1)).unwrap(), &record(5, vec![1, 2, 3])));
}

#[test]
fn snapshot_holds_each_address_once() {
    let mut ledger = Ledger::new();
    ledger.put(addr(3), record(1, vec![]));
    ledger.put(addr(1), record(2, vec![1]));
    ledger.put(addr(3), record(3, vec![3]));
    let snapshot = ledger.snapshot_all();
    assert_eq!(
        listing(&snapshot),
        vec![([1u8; 32], 2, vec![1]), ([3u8; 32], 3, vec![3])]
    );
}

#[test]
fn apply_deltas_replaces_or_inserts_in_order() {
    let mut ledger = Ledger::new();
    ledger.put(addr(1), record(1, vec![1]));
    ledger.put(addr(2), record(2, vec![2]));
    let deltas = vec![
        KeyedAccount { address: addr(2), account: record(20, vec![]) },
        KeyedAccount { address: addr(3), account: record(30, vec![3]) },
        KeyedAccount { address: addr(2), account: record(21, vec![2, 1]) },
    ];
    ledger.apply_deltas(&deltas);
    assert_eq!(
        listing(&ledger.snapshot_all()),
        vec![([1u8; 32], 1, vec![1]), ([2u8; 32], 21, vec![2, 1]), ([3u8; 32], 30, vec![3])]
    );
}

#[test]
fn a_successful_execution_stores_every_returned_account() {
    let mut context = SwapTestContext::new(addr(9)).unwrap();
    context.add_account(addr(1), record(1, vec![1]));
    let outcome = OracleOutcome::Success(vec![
        KeyedAccount { address: addr(1), account: record(10, vec![]) },
        KeyedAccount { address: addr(2), account: record(20, vec![2]) },
    ]);
    assert!(context.execute_instruction(outcome).is_ok());
    assert_eq!(
        listing(&context.get_account_list()),
        vec![([1u8; 32], 10, vec![]), ([2u8; 32], 20, vec![2])]
    );
    assert_eq!(context.program_id().bytes, [9u8; 32]);
}

#[test]
fn a_failed_execution_changes_nothing() {
    let mut context = SwapTestContext::new(addr(9)).unwrap();
    context.add_account(addr(1), record(1, vec![1]));
    context.add_account(addr(2), record(2, vec![2]));
    let before = listing(&context.get_account_list());
    let r = context.execute_instruction(OracleOutcome::Failure("Err(Custom(1))".to_string()));
    match r {
        Err(TestContextError::ExecutionError(m)) => assert_eq!(m, "Err(Custom(1))"),
        other => panic!("unexpected {:?}", other),
    }
    assert_eq!(listing(&context.get_account_list()), before);
}

#[test]
fn funded_accounts_get_fresh_addresses() {
    let mut context = SwapTestContext::new(addr(9)).unwrap();
    let a = context.create_funded_account(1_000_000_000);
    let b = context.create_funded_account(5);
    assert_ne!(a.bytes, b.bytes);
    let got = context.get_account(&a).unwrap();
    assert!(same(&got, &create_system_account(1_000_000_000)));
    assert_eq!(got.owner.bytes, system_program_id().bytes);
    assert_eq!(context.get_account(&b).unwrap().lamports, 5);
}

#[test]
fn hand_written_token_account_has_82_bytes() {
    let mut context = SwapTestContext::new(addr(9)).unwrap();
    let at = context.create_token_account(addr(4), addr(5), 1_000_000);
    let got = context.get_account(&at).unwrap();
    assert_eq!(got.data.len(), 82);
    assert_eq!(&got.data[0..32], &[5u8; 32]);
    assert_eq!(&got.data[32..64], &[4u8; 32]);
    assert_eq!(&got.data[64..72], &1_000_000u64.to_le_bytes());
    assert_eq!(&got.data[72..], &[0u8; 10]);
    assert_eq!(got.lamports, (128 + 82) * 6960);
    assert_eq!(got.owner.bytes, swap_tester::token::token_program_id().bytes);
}

#[test]
fn a_default_context_is_empty() {
    let a = SwapTestContext::default();
    let b = SwapTestContext::default();
    assert!(a.get_account_list().is_empty());
    assert_ne!(a.program_id().bytes, b.program_id().bytes);
}
