//! The administration commands of the bank.
use vstd::prelude::*;

use crate::bank;
use crate::models::{
    create_result, transfer_in_range, transfer_result, Account, AccountView, AccountsTable, DbError,
};

verus! {

/// A command of the administration tool.
pub enum Command {
    /// List all accounts.
    ShowAccounts,
    /// Create an account.
    CreateAccount { username: String, balance: i32 },
    /// Transfer quadbucks between two accounts.
    Transfer { src_username: String, dst_username: String, amount: i32 },
    /// No command was given.
    Missing,
}

/// What a command did.
pub enum Outcome {
    /// The accounts, ordered by id.
    Accounts(Vec<Account>),
    AccountCreated,
    TransferCompleted,
}

/// Why a command failed.
#[derive(Debug, Clone, Copy, PartialEq, Eq)]
pub enum AdminError {
    NoCommandSpecified,
    Database(DbError),
}

/// The overflow check that a command needs before it runs.
pub open spec fn command_in_range(conn: Seq<AccountView>, command: Command) -> bool {
    command matches Command::Transfer { src_username, dst_username, amount } ==> transfer_in_range(
        conn,
        src_username@,
        dst_username@,
        amount,
    )
}

/// Run one command against the accounts table.
pub fn run(conn: &mut AccountsTable, command: Command) -> (r: Result<Outcome, AdminError>)
    requires
        old(conn).wf(),
        command_in_range(old(conn)@, command),
    ensures
        final(conn).wf(),
        match command {
            Command::ShowAccounts => final(conn)@ == old(conn)@ && (r matches Ok(Outcome::Accounts(v))
                && v@.map_values(|a: Account| a@) == old(conn)@),
            Command::CreateAccount { username, balance } => match create_result(old(conn)@, username@, balance) {
                Ok(t) => final(conn)@ == t && (r matches Ok(Outcome::AccountCreated)),
                Err(e) => final(conn)@ == old(conn)@ && r == Err::<Outcome, AdminError>(AdminError::Database(e)),
            },
            Command::Transfer { src_username, dst_username, amount } => match transfer_result(
                old(conn)@,
                src_username@,
                dst_username@,
                amount,
            ) {
                Ok(t) => final(conn)@ == t && (r matches Ok(Outcome::TransferCompleted)),
                Err(e) => final(conn)@ == old(conn)@ && r == Err::<Outcome, AdminError>(AdminError::Database(e)),
            },
            Command::Missing => final(conn)@ == old(conn)@ && r == Err::<Outcome, AdminError>(AdminError::NoCommandSpecified),
        },
{
    match command {
        Command::ShowAccounts => Ok(Outcome::Accounts(Account::all(conn))),
        Command::CreateAccount { username, balance } => {
            match bank::create_account(conn, username.as_str(), balance) {
                Ok(_) => Ok(Outcome::AccountCreated),
                Err(e) => Err(AdminError::Database(e)),
            }
        },
        Command::Transfer { src_username, dst_username, amount } => {
            match bank::transfer(conn, src_username.as_str(), dst_username.as_str(), amount) {
                Ok(()) => Ok(Outcome::TransferCompleted),
                Err(e) => Err(AdminError::Database(e)),
            }
        },
        Command::Missing => Err(AdminError::NoCommandSpecified),
    }
}

} // verus!
