use erc20::balances::BalanceStore;
use erc20::allowances::{AllowanceStore, Delegation};
use erc20::table::{Key, Table};
use erc20::{AccountId, Event, EventEmitter};

fn id(byte: u8) -> AccountId {
    AccountId::new([byte; 32])
}

#[test]
fn table_reads_zero_until_written() {
    let mut table: Table<AccountId> = Table::new();
    assert_eq!(table.get(&id(1)), 0);
    table.set(id(1), 10);
    assert_eq!(table.get(&id(1)), 10);
    assert_eq!(table.get(&id(2)), 0);
}

#[test]
fn table_overwrites_in_place() {
    let mut table: Table<AccountId> = Table::new();
    table.set(id(1), 10);
    table.set(id(2), 20);
    table.set(id(3), 30);
    table.set(id(2), 25);
    table.set(id(1), 0);
    assert_eq!(table.get(&id(1)), 0);
    assert_eq!(table.get(&id(2)), 25);
    assert_eq!(table.get(&id(3)), 30);
    table.set(id(1), u128::MAX);
    assert_eq!(table.get(&id(1)), u128::MAX);
}

#[test]
fn table_keys_on_ordered_pairs() {
    let mut table: Table<Delegation> = Table::new();
    table.set(Delegation { owner: id(1), spender: id(2) }, 5);
    assert_eq!(table.get(&Delegation { owner: id(1), spender: id(2) }), 5);
    assert_eq!(table.get(&Delegation { owner: id(2), spender: id(1) }), 0);
    assert_eq!(table.get(&Delegation { owner: id(1), spender: id(1) }), 0);
}

#[test]
fn keys_compare_by_content() {
    assert!(id(1).same(&id(1)));
    assert!(!id(1).same(&id(2)));
    let pair = Delegation { owner: id(1), spender: id(2) };
    assert!(pair.same(&Delegation { owner: id(1), spender: id(2) }));
    assert!(!pair.same(&Delegation { owner: id(2), spender: id(1) }));
    assert!(!pair.same(&Delegation { owner: id(1), spender: id(3) }));
    assert!(!pair.same(&Delegation { owner: id(3), spender: id(2) }));
}

#[test]
fn balance_store_starts_with_the_supply_and_no_balance() {
    let store = BalanceStore::new(1234);
    assert_eq!(store.total_supply(), 1234);
    assert_eq!(store.balance_of(&id(0)), 0);
}

#[test]
fn allowance_store_starts_empty() {
    let store = AllowanceStore::new();
    assert_eq!(store.allowance_of(&id(0), &id(1)), 0);
    assert_eq!(store.allowance_of(&id(1), &id(0)), 0);
}

#[test]
fn emitter_hands_events_out_oldest_first() {
    let mut emitter = EventEmitter::new();
    assert_eq!(emitter.take_events(), vec![]);
    let first = Event::Transfer { from: None, to: Some(id(0)), value: 1 };
    let second = Event::Approval { owner: id(0), spender: id(1), value: 2 };
    let third = Event::Transfer { from: Some(id(0)), to: None, value: 3 };
    emitter.deposit_event(first);
    emitter.deposit_event(second);
    assert_eq!(emitter.take_events(), vec![first, second]);
    emitter.deposit_event(third);
    assert_eq!(emitter.take_events(), vec![third]);
    assert_eq!(emitter.take_events(), vec![]);
}
