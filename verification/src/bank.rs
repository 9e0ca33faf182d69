//! The bank's two operations on usernames: opening an account and moving
//! quadbucks from one account to another.
use vstd::prelude::*;

use crate::models::{
    create_result, lemma_save_same_key, transfer_in_range, transfer_result, username_index,
    with_balance, Account, AccountsTable, DbError, NewAccount,
};

verus! {

/// Create an account with this username and balance.
pub fn create_account(conn: &mut AccountsTable, username: &str, balance: i32) -> (r: Result<Account, DbError>)
    requires
        old(conn).wf(),
    ensures
        final(conn).wf(),
        match create_result(old(conn)@, username@, balance) {
            Ok(t) => final(conn)@ == t && (r matches Ok(a) && a@ == t.last()),
            Err(e) => final(conn)@ == old(conn)@ && (r matches Err(x) && x == e),
        },
{
    Account::create_from(conn, NewAccount { username, balance })
}

/// Find both accounts by username, then transfer `amount` quadbucks from the
/// first to the second. Either both rows are written or, when one of the
/// usernames is unknown, nothing is.
pub fn transfer(conn: &mut AccountsTable, src_username: &str, dst_username: &str, amount: i32) -> (r: Result<(), DbError>)
    requires
        old(conn).wf(),
        transfer_in_range(old(conn)@, src_username@, dst_username@, amount),
    ensures
        final(conn).wf(),
        match transfer_result(old(conn)@, src_username@, dst_username@, amount) {
            Ok(t) => final(conn)@ == t && r is Ok,
            Err(e) => final(conn)@ == old(conn)@ && (r matches Err(x) && x == e),
        },
{
    let ghost s = conn@;
    let mut src = match Account::find_by_username(conn, src_username) {
        Ok(a) => a,
        Err(e) => {
            return Err(e);
        },
    };
    let mut dst = match Account::find_by_username(conn, dst_username) {
        Ok(a) => a,
        Err(e) => {
            return Err(e);
        },
    };
    let ghost i = username_index(s, src_username@);
    let ghost j = username_index(s, dst_username@);
    proof {
        let t1 = s.update(i, with_balance(s[i], s[i].balance - amount));
        lemma_save_same_key(s, i, with_balance(s[i], s[i].balance - amount));
        lemma_save_same_key(t1, j, with_balance(s[j], s[j].balance + amount));
    }
    let r = src.transfer(conn, &mut dst, amount);
    r
}

/// Whether the balances that a transfer of `amount` from `src_username` to
/// `dst_username` computes fit in an `i32` (true when either is unknown).
pub fn transfer_fits(conn: &AccountsTable, src_username: &str, dst_username: &str, amount: i32) -> (r: bool)
    requires
        conn.wf(),
    ensures
        r == transfer_in_range(conn@, src_username@, dst_username@, amount),
{
    let src = match Account::find_by_username(conn, src_username) {
        Ok(a) => a,
        Err(_) => {
            return true;
        },
    };
    let dst = match Account::find_by_username(conn, dst_username) {
        Ok(a) => a,
        Err(_) => {
            return true;
        },
    };
    let debit = src.balance as i64 - amount as i64;
    let credit = dst.balance as i64 + amount as i64;
    i32::MIN as i64 <= debit && debit <= i32::MAX as i64 && i32::MIN as i64 <= credit && credit
        <= i32::MAX as i64
}

} // verus!
