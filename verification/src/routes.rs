//! The account services: what each request does to the accounts table and
//! what it answers.
use vstd::prelude::*;

use crate::api_errors::{error_of, Error};
use crate::bank;
use crate::models::{
    create_result, find_result, has_username, transfer_in_range, transfer_result, Account,
    AccountView, AccountsTable,
};

verus! {

/// The body request for creating an account.
pub struct CreateAccountRequest {
    /// The name of the account to create.
    pub username: String,
    /// How many quadbucks to put in this account.
    pub balance: i32,
}

/// The body request for transferring quadbucks to an account.
pub struct TransferRequest {
    /// The recipient account of the quadbucks.
    pub username: String,
    /// How many quadbucks should we give to this account?
    pub amount: i32,
}

/// The account with this username.
pub fn show_account(username: &str, conn: &AccountsTable) -> (r: Result<Account, Error>)
    requires
        conn.wf(),
    ensures
        r is Ok <==> has_username(conn@, username@),
        r matches Ok(a) ==> find_result(conn@, username@) == Ok::<AccountView, crate::models::DbError>(a@),
        r matches Err(e) ==> e == Error::NotFound,
{
    match Account::find_by_username(conn, username) {
        Ok(a) => Ok(a),
        Err(e) => Err(Error::from(e)),
    }
}

/// Create the account that the request describes.
pub fn create_account(request: &CreateAccountRequest, conn: &mut AccountsTable) -> (r: Result<Account, Error>)
    requires
        old(conn).wf(),
    ensures
        final(conn).wf(),
        match create_result(old(conn)@, request.username@, request.balance) {
            Ok(t) => final(conn)@ == t && (r matches Ok(a) && a@ == t.last()),
            Err(e) => final(conn)@ == old(conn)@ && (r matches Err(x) && x == error_of(e)),
        },
{
    match bank::create_account(conn, request.username.as_str(), request.balance) {
        Ok(a) => Ok(a),
        Err(e) => Err(Error::from(e)),
    }
}

/// Transfer the request's amount from the account `username` to the
/// request's account.
pub fn transfer(username: &str, request: &TransferRequest, conn: &mut AccountsTable) -> (r: Result<(), Error>)
    requires
        old(conn).wf(),
        transfer_in_range(old(conn)@, username@, request.username@, request.amount),
    ensures
        final(conn).wf(),
        match transfer_result(old(conn)@, username@, request.username@, request.amount) {
            Ok(t) => final(conn)@ == t && r is Ok,
            Err(e) => final(conn)@ == old(conn)@ && (r matches Err(x) && x == error_of(e)),
        },
{
    match bank::transfer(conn, username, request.username.as_str(), request.amount) {
        Ok(()) => Ok(()),
        Err(e) => Err(Error::from(e)),
    }
}

} // verus!
