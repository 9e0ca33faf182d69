use quad_bank::bank;
use quad_bank::models::{Account, AccountsTable, DbError, NewAccount};

fn balances(table: &AccountsTable) -> Vec<(i32, String, i32)> {
    Account::all(table)
        .into_iter()
        .map(|a| (a.id, a.username, a.balance))
        .collect()
}

fn two_accounts() -> AccountsTable {
    let mut table = AccountsTable::new();
    bank::create_account(&mut table, "erickt", 100).unwrap();
    bank::create_account(&mut table, "carols10cents", 100).unwrap();
    table
}

fn total(table: &AccountsTable) -> i64 {
    Account::all(table).iter().map(|a| a.balance as i64).sum()
}

#[test]
fn new_table_is_empty() {
    let table = AccountsTable::new();
    assert_eq!(table.len(), 0);
    assert!(Account::all(&table).is_empty());
}

#[test]
fn created_accounts_get_ids_from_one() {
    let table = two_accounts();
    assert_eq!(
        balances(&table),
        vec![(1, "erickt".to_string(), 100), (2, "carols10cents".to_string(), 100)]
    );
}

#[test]
fn create_from_returns_the_new_row() {
    let mut table = two_accounts();
    let created = Account::create_from(&mut table, NewAccount { username: "Manishearth", balance: 2000 }).unwrap();
    assert_eq!(created.id, 3);
    assert_eq!(created.username, "Manishearth");
    assert_eq!(created.balance, 2000);
    assert_eq!(table.len(), 3);
}

#[test]
fn create_with_taken_username_is_a_unique_violation() {
    let mut table = two_accounts();
    let before = balances(&table);
    let r = Account::create_from(&mut table, NewAccount { username: "erickt", balance: 5 });
    assert_eq!(r.unwrap_err(), DbError::UniqueViolation);
    assert_eq!(balances(&table), before);
}

#[test]
fn create_after_the_largest_id_fails_and_changes_nothing() {
    let rows = vec![Account { id: i32::MAX, username: "last".to_string(), balance: 0 }];
    let mut table = AccountsTable::from_rows(rows).unwrap();
    let r = bank::create_account(&mut table, "next", 1);
    assert_eq!(r.unwrap_err(), DbError::Other);
    assert_eq!(table.len(), 1);
}

#[test]
fn next_id_follows_the_largest_id() {
    let rows = vec![
        Account { id: 4, username: "a".to_string(), balance: 1 },
        Account { id: 9, username: "b".to_string(), balance: 2 },
    ];
    let mut table = AccountsTable::from_rows(rows).unwrap();
    let created = bank::create_account(&mut table, "c", 3).unwrap();
    assert_eq!(created.id, 10);
}

#[test]
fn from_rows_checks_ids_and_usernames() {
    let dup_name = vec![
        Account { id: 1, username: "a".to_string(), balance: 1 },
        Account { id: 2, username: "a".to_string(), balance: 2 },
    ];
    assert!(AccountsTable::from_rows(dup_name).is_none());
    let unordered = vec![
        Account { id: 2, username: "a".to_string(), balance: 1 },
        Account { id: 1, username: "b".to_string(), balance: 2 },
    ];
    assert!(AccountsTable::from_rows(unordered).is_none());
    let same_id = vec![
        Account { id: 1, username: "a".to_string(), balance: 1 },
        Account { id: 1, username: "b".to_string(), balance: 2 },
    ];
    assert!(AccountsTable::from_rows(same_id).is_none());
    assert!(AccountsTable::from_rows(Vec::new()).is_some());
}

#[test]
fn find_by_username_finds_the_row() {
    let table = two_accounts();
    let a = Account::find_by_username(&table, "carols10cents").unwrap();
    assert_eq!((a.id, a.username.as_str(), a.balance), (2, "carols10cents", 100));
}

#[test]
fn find_by_unknown_username_is_not_found() {
    let table = two_accounts();
    assert_eq!(Account::find_by_username(&table, "nobody").unwrap_err(), DbError::NotFound);
}

#[test]
fn save_writes_the_row_back() {
    let mut table = two_accounts();
    let mut a = Account::find_by_username(&table, "erickt").unwrap();
    a.balance = 7;
    a.username = "eric".to_string();
    a.save(&mut table).unwrap();
    let b = Account::find_by_username(&table, "eric").unwrap();
    assert_eq!((b.id, b.balance), (1, 7));
    assert!(Account::find_by_username(&table, "erickt").is_err());
}

#[test]
fn save_with_taken_username_is_a_unique_violation() {
    let mut table = two_accounts();
    let before = balances(&table);
    let mut a = Account::find_by_username(&table, "erickt").unwrap();
    a.username = "carols10cents".to_string();
    assert_eq!(a.save(&mut table).unwrap_err(), DbError::UniqueViolation);
    assert_eq!(balances(&table), before);
}

#[test]
fn save_of_unknown_id_is_not_found() {
    let mut table = two_accounts();
    let mut a = Account { id: 42, username: "ghost".to_string(), balance: 1 };
    assert_eq!(a.save(&mut table).unwrap_err(), DbError::NotFound);
    assert_eq!(table.len(), 2);
}

#[test]
fn account_transfer_moves_the_amount() {
    let mut table = two_accounts();
    let mut src = Account::find_by_username(&table, "erickt").unwrap();
    let mut dst = Account::find_by_username(&table, "carols10cents").unwrap();
    src.transfer(&mut table, &mut dst, 10).unwrap();
    assert_eq!((src.balance, dst.balance), (90, 110));
    assert_eq!(
        balances(&table),
        vec![(1, "erickt".to_string(), 90), (2, "carols10cents".to_string(), 110)]
    );
}

#[test]
fn account_transfer_to_a_missing_row_keeps_the_first_write() {
    let mut table = two_accounts();
    let mut src = Account::find_by_username(&table, "erickt").unwrap();
    let mut dst = Account { id: 77, username: "ghost".to_string(), balance: 0 };
    assert_eq!(src.transfer(&mut table, &mut dst, 10).unwrap_err(), DbError::NotFound);
    assert_eq!(Account::find_by_username(&table, "erickt").unwrap().balance, 90);
}

#[test]
fn transfer_as_in_the_readme() {
    let mut table = two_accounts();
    bank::transfer(&mut table, "erickt", "carols10cents", 10).unwrap();
    assert_eq!(
        balances(&table),
        vec![(1, "erickt".to_string(), 90), (2, "carols10cents".to_string(), 110)]
    );
    bank::transfer(&mut table, "erickt", "carols10cents", 1000000).unwrap();
    assert_eq!(
        balances(&table),
        vec![(1, "erickt".to_string(), -999910), (2, "carols10cents".to_string(), 1000110)]
    );
    bank::transfer(&mut table, "erickt", "carols10cents", -1000000).unwrap();
    assert_eq!(
        balances(&table),
        vec![(1, "erickt".to_string(), 90), (2, "carols10cents".to_string(), 110)]
    );
}

#[test]
fn transfer_keeps_the_total() {
    let mut table = two_accounts();
    bank::create_account(&mut table, "Manishearth", 2000).unwrap();
    let before = total(&table);
    bank::transfer(&mut table, "Manishearth", "carols10cents", 2000).unwrap();
    assert_eq!(total(&table), before);
    assert_eq!(Account::find_by_username(&table, "Manishearth").unwrap().balance, 0);
    assert_eq!(Account::find_by_username(&table, "erickt").unwrap().balance, 100);
}

#[test]
fn transfer_to_self_credits_the_account() {
    let mut table = two_accounts();
    bank::transfer(&mut table, "erickt", "erickt", 10).unwrap();
    assert_eq!(Account::find_by_username(&table, "erickt").unwrap().balance, 110);
    bank::transfer(&mut table, "erickt", "erickt", -10).unwrap();
    assert_eq!(Account::find_by_username(&table, "erickt").unwrap().balance, 100);
}

#[test]
fn transfer_with_unknown_username_changes_nothing() {
    let mut table = two_accounts();
    let before = balances(&table);
    assert_eq!(bank::transfer(&mut table, "erickt", "nobody", 10).unwrap_err(), DbError::NotFound);
    assert_eq!(bank::transfer(&mut table, "nobody", "erickt", 10).unwrap_err(), DbError::NotFound);
    assert_eq!(balances(&table), before);
}

#[test]
fn transfer_fits_detects_overflow() {
    let mut table = AccountsTable::new();
    bank::create_account(&mut table, "rich", i32::MAX).unwrap();
    bank::create_account(&mut table, "poor", i32::MIN).unwrap();
    assert!(!bank::transfer_fits(&table, "poor", "rich", 1));
    assert!(!bank::transfer_fits(&table, "rich", "poor", -1));
    assert!(bank::transfer_fits(&table, "rich", "poor", 1));
    assert!(bank::transfer_fits(&table, "rich", "nobody", i32::MAX));
    assert!(bank::transfer_fits(&table, "rich", "poor", i32::MAX));
}

#[test]
fn create_then_find_gives_the_account() {
    let mut table = two_accounts();
    let before = total(&table);
    let created = bank::create_account(&mut table, "Manishearth", 2000).unwrap();
    let found = Account::find_by_username(&table, "Manishearth").unwrap();
    assert_eq!((found.id, found.username.as_str(), found.balance), (created.id, "Manishearth", 2000));
    assert_eq!(total(&table), before + 2000);
}

#[test]
fn account_transfer_undone_by_its_negative() {
    let mut table = two_accounts();
    let before = balances(&table);
    let mut src = Account::find_by_username(&table, "erickt").unwrap();
    let mut dst = Account::find_by_username(&table, "carols10cents").unwrap();
    src.transfer(&mut table, &mut dst, 1000000).unwrap();
    assert_eq!((src.balance, dst.balance), (-999900, 1000100));
    src.transfer(&mut table, &mut dst, -1000000).unwrap();
    assert_eq!((src.balance, dst.balance), (100, 100));
    assert_eq!(balances(&table), before);
}
