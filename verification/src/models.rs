//! The accounts of the bank and the table that holds them.
//!
//! `AccountsTable` holds the rows of the `accounts` table as plain values: the
//! operations of `Account` work on it the way the SQL statements of the bank
//! work on the database (a unique `username`, an `id` that the table assigns as
//! one more than the largest id in use), and every failed operation leaves the
//! table as it was.
use vstd::prelude::*;

verus! {

/// An account as mathematical values.
pub struct AccountView {
    pub id: i32,
    pub username: Seq<char>,
    pub balance: i32,
}

/// The account structure.
#[derive(Debug)]
pub struct Account {
    /// The unique identifier of the account.
    pub id: i32,
    /// The unique username of the account.
    pub username: String,
    /// The amount of quadbucks in the account.
    pub balance: i32,
}

impl View for Account {
    type V = AccountView;

    open spec fn view(&self) -> AccountView {
        AccountView { id: self.id, username: self.username@, balance: self.balance }
    }
}

/// The fields of an account that is about to be created.
pub struct NewAccount<'a> {
    pub username: &'a str,
    pub balance: i32,
}

/// Why an operation on the accounts table failed.
#[derive(Debug, Clone, Copy, PartialEq, Eq)]
pub enum DbError {
    /// No row matched.
    NotFound,
    /// The username is already taken by another row.
    UniqueViolation,
    /// Any other failure of the database (here: the ids are exhausted).
    Other,
}

/// The rows of the accounts table, ordered by id.
pub struct AccountsTable {
    rows: Vec<Account>,
}

impl View for AccountsTable {
    type V = Seq<AccountView>;

    closed spec fn view(&self) -> Seq<AccountView> {
        self.rows@.map_values(|a: Account| a@)
    }
}

/// The ids increase along the rows and no username occurs twice.
pub open spec fn table_wf(s: Seq<AccountView>) -> bool {
    &&& forall|i: int, j: int| #![trigger s[i], s[j]] 0 <= i < j < s.len() ==> s[i].id < s[j].id
    &&& forall|i: int, j: int|
        #![trigger s[i], s[j]]
        0 <= i < s.len() && 0 <= j < s.len() && s[i].username == s[j].username ==> i == j
}

pub open spec fn has_username(s: Seq<AccountView>, u: Seq<char>) -> bool {
    exists|i: int| #![trigger s[i]] 0 <= i < s.len() && s[i].username == u
}

pub open spec fn username_index(s: Seq<AccountView>, u: Seq<char>) -> int {
    choose|i: int| #![trigger s[i]] 0 <= i < s.len() && s[i].username == u
}

pub open spec fn has_id(s: Seq<AccountView>, id: i32) -> bool {
    exists|i: int| #![trigger s[i]] 0 <= i < s.len() && s[i].id == id
}

pub open spec fn id_index(s: Seq<AccountView>, id: i32) -> int {
    choose|i: int| #![trigger s[i]] 0 <= i < s.len() && s[i].id == id
}

/// The id that the table gives the next row: one more than the largest id in
/// use, or 1 for an empty table.
pub open spec fn next_id(s: Seq<AccountView>) -> int {
    if s.len() == 0 {
        1
    } else {
        s.last().id + 1
    }
}

/// The account with the given username, if any.
pub open spec fn find_result(s: Seq<AccountView>, u: Seq<char>) -> Result<AccountView, DbError> {
    if has_username(s, u) {
        Ok(s[username_index(s, u)])
    } else {
        Err(DbError::NotFound)
    }
}

/// The table after a row with this username and balance is inserted.
pub open spec fn create_result(s: Seq<AccountView>, u: Seq<char>, balance: i32) -> Result<
    Seq<AccountView>,
    DbError,
> {
    if has_username(s, u) {
        Err(DbError::UniqueViolation)
    } else if next_id(s) > i32::MAX {
        Err(DbError::Other)
    } else {
        Ok(s.push(AccountView { id: next_id(s) as i32, username: u, balance }))
    }
}

/// Another row than the one with `a.id` holds `a.username`.
pub open spec fn save_conflict(s: Seq<AccountView>, a: AccountView) -> bool {
    exists|j: int| #![trigger s[j]] 0 <= j < s.len() && j != id_index(s, a.id) && s[j].username == a.username
}

/// The table after the row with `a.id` is overwritten with `a`.
pub open spec fn save_result(s: Seq<AccountView>, a: AccountView) -> Result<Seq<AccountView>, DbError> {
    if !has_id(s, a.id) {
        Err(DbError::NotFound)
    } else if save_conflict(s, a) {
        Err(DbError::UniqueViolation)
    } else {
        Ok(s.update(id_index(s, a.id), a))
    }
}

/// The table after `a` and then `b` are saved, as `Account::transfer` saves
/// its two accounts.
pub open spec fn save_both(s: Seq<AccountView>, a: AccountView, b: AccountView) -> Result<Seq<AccountView>, DbError> {
    match save_result(s, a) {
        Ok(t) => save_result(t, b),
        Err(e) => Err(e),
    }
}

pub open spec fn with_balance(a: AccountView, balance: int) -> AccountView {
    AccountView { id: a.id, username: a.username, balance: balance as i32 }
}

/// Both balances that a transfer computes fit in an `i32`.
pub open spec fn transfer_in_range(s: Seq<AccountView>, src: Seq<char>, dst: Seq<char>, amount: i32) -> bool {
    has_username(s, src) && has_username(s, dst) ==> {
        let a = s[username_index(s, src)];
        let b = s[username_index(s, dst)];
        &&& i32::MIN <= a.balance - amount <= i32::MAX
        &&& i32::MIN <= b.balance + amount <= i32::MAX
    }
}

/// The table after `amount` is moved from the account `src` to the account
/// `dst`: both accounts are read first, then the debited source is written,
/// then the credited destination (so that a transfer from an account to itself
/// leaves it credited).
pub open spec fn transfer_result(s: Seq<AccountView>, src: Seq<char>, dst: Seq<char>, amount: i32) -> Result<
    Seq<AccountView>,
    DbError,
> {
    if !has_username(s, src) || !has_username(s, dst) {
        Err(DbError::NotFound)
    } else {
        let i = username_index(s, src);
        let j = username_index(s, dst);
        Ok(
            s.update(i, with_balance(s[i], s[i].balance - amount)).update(
                j,
                with_balance(s[j], s[j].balance + amount),
            ),
        )
    }
}

/// The sum of the balances of all accounts.
pub open spec fn total(s: Seq<AccountView>) -> int
    decreases s.len(),
{
    if s.len() == 0 {
        0
    } else {
        total(s.drop_last()) + s.last().balance
    }
}

pub proof fn lemma_username_index(s: Seq<AccountView>, i: int)
    requires
        table_wf(s),
        0 <= i < s.len(),
    ensures
        has_username(s, s[i].username),
        username_index(s, s[i].username) == i,
{
    let u = s[i].username;
    assert(s[i].username == u);
    let j = username_index(s, u);
    assert(s[j].username == s[i].username);
}

pub proof fn lemma_id_index(s: Seq<AccountView>, i: int)
    requires
        table_wf(s),
        0 <= i < s.len(),
    ensures
        has_id(s, s[i].id),
        id_index(s, s[i].id) == i,
{
    let id = s[i].id;
    assert(s[i].id == id);
    let j = id_index(s, id);
    if j < i {
        assert(s[j].id < s[i].id);
    } else if i < j {
        assert(s[i].id < s[j].id);
    }
}

/// Overwriting a row with a value of the same id and username succeeds and
/// keeps the table well formed.
pub proof fn lemma_save_same_key(s: Seq<AccountView>, i: int, a: AccountView)
    requires
        table_wf(s),
        0 <= i < s.len(),
        a.id == s[i].id,
        a.username == s[i].username,
    ensures
        save_result(s, a) == Ok::<Seq<AccountView>, DbError>(s.update(i, a)),
        table_wf(s.update(i, a)),
{
    lemma_id_index(s, i);
    if save_conflict(s, a) {
        let j = choose|j: int| #![trigger s[j]] 0 <= j < s.len() && j != id_index(s, a.id) && s[j].username == a.username;
        assert(s[j].username == s[i].username);
    }
    let t = s.update(i, a);
    assert forall|x: int, y: int| #![trigger t[x], t[y]] 0 <= x < y < t.len() implies t[x].id < t[y].id by {
        assert(s[x].id < s[y].id);
    }
    assert forall|x: int, y: int|
        #![trigger t[x], t[y]]
        0 <= x < t.len() && 0 <= y < t.len() && t[x].username == t[y].username implies x == y by {
        assert(s[x].username == s[y].username);
    }
}

/// The total after one row is overwritten.
pub proof fn lemma_total_update(s: Seq<AccountView>, i: int, a: AccountView)
    requires
        0 <= i < s.len(),
    ensures
        total(s.update(i, a)) == total(s) - s[i].balance + a.balance,
    decreases s.len(),
{
    let t = s.update(i, a);
    if i == s.len() - 1 {
        assert(t.drop_last() =~= s.drop_last());
    } else {
        lemma_total_update(s.drop_last(), i, a);
        assert(t.drop_last() =~= s.drop_last().update(i, a));
    }
}

impl Account {
    /// A copy of this account, field by field.
    pub(crate) fn copied(&self) -> (r: Account)
        ensures
            r@ == self@,
    {
        Account { id: self.id, username: self.username.clone(), balance: self.balance }
    }
}

impl AccountsTable {
    pub open spec fn wf(&self) -> bool {
        table_wf(self@)
    }

    /// An empty table.
    pub fn new() -> (r: AccountsTable)
        ensures
            r@ == Seq::<AccountView>::empty(),
            r.wf(),
    {
        let r = AccountsTable { rows: Vec::new() };
        assert(r@ =~= Seq::<AccountView>::empty());
        r
    }

    /// The table that holds `rows`, in their order, if the ids increase along
    /// them and no username occurs twice.
    pub fn from_rows(rows: Vec<Account>) -> (r: Option<AccountsTable>)
        ensures
            r is Some <==> table_wf(rows@.map_values(|a: Account| a@)),
            r matches Some(t) ==> t@ == rows@.map_values(|a: Account| a@),
    {
        let ghost s = rows@.map_values(|a: Account| a@);
        let n = rows.len();
        let mut k: usize = 0;
        while k < n
            invariant
                n == rows.len(),
                s == rows@.map_values(|a: Account| a@),
                k <= n,
                forall|i: int, j: int| #![trigger s[i], s[j]] 0 <= i < j < k ==> s[i].id < s[j].id,
                forall|i: int, j: int|
                    #![trigger s[i], s[j]]
                    0 <= i < k && 0 <= j < k && s[i].username == s[j].username ==> i == j,
            decreases n - k,
        {
            if k > 0 && rows[k - 1].id >= rows[k].id {
                assert(!(s[k - 1].id < s[k as int].id));
                return None;
            }
            let mut m: usize = 0;
            while m < k
                invariant
                    n == rows.len(),
                    s == rows@.map_values(|a: Account| a@),
                    m <= k < n,
                    forall|i: int| 0 <= i < m ==> s[i].username != s[k as int].username,
                decreases k - m,
            {
                if rows[m].username == rows[k].username {
                    assert(s[m as int].username == s[k as int].username);
                    return None;
                }
                m += 1;
            }
            proof {
                assert forall|i: int, j: int| #![trigger s[i], s[j]] 0 <= i < j < k + 1 implies s[i].id
                    < s[j].id by {
                    if j == k && i < k - 1 {
                        assert(s[i].id < s[k - 1].id);
                    }
                }
                assert forall|i: int, j: int|
                    #![trigger s[i], s[j]]
                    0 <= i < k + 1 && 0 <= j < k + 1 && s[i].username == s[j].username implies i
                    == j by {
                    if i == k && j < k {
                        assert(s[j].username != s[k as int].username);
                    }
                    if j == k && i < k {
                        assert(s[i].username != s[k as int].username);
                    }
                }
            }
            k += 1;
        }
        Some(AccountsTable { rows })
    }

    /// The number of rows.
    pub fn len(&self) -> (n: usize)
        ensures
            n == self@.len(),
    {
        self.rows.len()
    }

    /// The position of the row with this username.
    fn position_of_username(&self, username: &String) -> (r: Option<usize>)
        requires
            self.wf(),
        ensures
            r is Some <==> has_username(self@, username@),
            r matches Some(i) ==> i < self@.len() && i == username_index(self@, username@),
    {
        let n = self.rows.len();
        let mut k: usize = 0;
        while k < n
            invariant
                n == self.rows.len(),
                n == self@.len(),
                self.wf(),
                k <= n,
                forall|m: int| 0 <= m < k ==> self@[m].username != username@,
            decreases n - k,
        {
            if self.rows[k].username == *username {
                proof {
                    lemma_username_index(self@, k as int);
                }
                return Some(k);
            }
            k += 1;
        }
        None
    }

    /// The position of the row with this id.
    fn position_of_id(&self, id: i32) -> (r: Option<usize>)
        requires
            self.wf(),
        ensures
            r is Some <==> has_id(self@, id),
            r matches Some(i) ==> i < self@.len() && i == id_index(self@, id),
    {
        let n = self.rows.len();
        let mut k: usize = 0;
        while k < n
            invariant
                n == self.rows.len(),
                n == self@.len(),
                self.wf(),
                k <= n,
                forall|m: int| 0 <= m < k ==> self@[m].id != id,
            decreases n - k,
        {
            if self.rows[k].id == id {
                proof {
                    lemma_id_index(self@, k as int);
                }
                return Some(k);
            }
            k += 1;
        }
        None
    }
}


impl Account {
    /// Return all the accounts in the table, ordered by id.
    pub fn all(conn: &AccountsTable) -> (r: Vec<Account>)
        ensures
            r@.map_values(|a: Account| a@) == conn@,
    {
        let n = conn.rows.len();
        let mut out: Vec<Account> = Vec::new();
        let mut k: usize = 0;
        while k < n
            invariant
                n == conn.rows.len(),
                n == conn@.len(),
                k <= n,
                out@.len() == k,
                forall|i: int| 0 <= i < k ==> #[trigger] out@[i]@ == conn@[i],
            decreases n - k,
        {
            out.push(conn.rows[k].copied());
            k += 1;
        }
        assert(out@.map_values(|a: Account| a@) =~= conn@);
        out
    }

    /// Find an `Account` in the table by the username.
    pub fn find_by_username(conn: &AccountsTable, username: &str) -> (r: Result<Account, DbError>)
        requires
            conn.wf(),
        ensures
            r is Ok <==> has_username(conn@, username@),
            r matches Ok(a) ==> find_result(conn@, username@) == Ok::<AccountView, DbError>(a@),
            r matches Err(e) ==> find_result(conn@, username@) == Err::<AccountView, DbError>(e),
    {
        let key = username.to_owned();
        match conn.position_of_username(&key) {
            Some(i) => Ok(conn.rows[i].copied()),
            None => Err(DbError::NotFound),
        }
    }

    /// Create an `Account` from a `NewAccount`: the new row gets the next id,
    /// and the created account is returned. This errors with a unique
    /// constraint violation if an account with this username already exists.
    pub fn create_from(conn: &mut AccountsTable, new_account: NewAccount) -> (r: Result<Account, DbError>)
        requires
            old(conn).wf(),
        ensures
            final(conn).wf(),
            match create_result(old(conn)@, new_account.username@, new_account.balance) {
                Ok(t) => final(conn)@ == t && (r matches Ok(a) && a@ == t.last()),
                Err(e) => final(conn)@ == old(conn)@ && (r matches Err(x) && x == e),
            },
    {
        let username = new_account.username.to_owned();
        if conn.position_of_username(&username).is_some() {
            return Err(DbError::UniqueViolation);
        }
        let n = conn.rows.len();
        let id: i32 = if n == 0 {
            1
        } else {
            let last = conn.rows[n - 1].id;
            if last == i32::MAX {
                return Err(DbError::Other);
            }
            last + 1
        };
        let account = Account { id, username, balance: new_account.balance };
        let created = account.copied();
        let ghost s = conn@;
        conn.rows.push(account);
        proof {
            let t = conn@;
            assert(t =~= s.push(created@));
            assert forall|i: int, j: int| #![trigger t[i], t[j]] 0 <= i < j < t.len() implies t[i].id
                < t[j].id by {
                if j == n && i < n - 1 {
                    assert(s[i].id < s[n - 1].id);
                }
            }
            assert forall|i: int, j: int|
                #![trigger t[i], t[j]]
                0 <= i < t.len() && 0 <= j < t.len() && t[i].username == t[j].username implies i
                == j by {
                if i == n && j < n {
                    assert(s[j].username == new_account.username@);
                }
                if j == n && i < n {
                    assert(s[i].username == new_account.username@);
                }
            }
        }
        Ok(created)
    }

    /// Save all changes of this account back to its row (the row with its id).
    pub fn save(&mut self, conn: &mut AccountsTable) -> (r: Result<(), DbError>)
        requires
            old(conn).wf(),
        ensures
            final(conn).wf(),
            *final(self) == *old(self),
            match save_result(old(conn)@, old(self)@) {
                Ok(t) => final(conn)@ == t && r is Ok,
                Err(e) => final(conn)@ == old(conn)@ && (r matches Err(x) && x == e),
            },
    {
        let idx = match conn.position_of_id(self.id) {
            Some(i) => i,
            None => {
                return Err(DbError::NotFound);
            },
        };
        let n = conn.rows.len();
        let mut k: usize = 0;
        while k < n
            invariant
                n == conn.rows.len(),
                n == conn@.len(),
                conn.wf(),
                conn@ == old(conn)@,
                has_id(conn@, self.id),
                idx < n,
                idx == id_index(conn@, self.id),
                k <= n,
                forall|m: int| 0 <= m < k && m != idx ==> conn@[m].username != self.username@,
            decreases n - k,
        {
            if k != idx && conn.rows[k].username == self.username {
                assert(conn@[k as int].username == self.username@);
                return Err(DbError::UniqueViolation);
            }
            k += 1;
        }
        let ghost s = conn@;
        let row = self.copied();
        conn.rows.set(idx, row);
        proof {
            let t = conn@;
            assert(t =~= s.update(idx as int, self@));
            assert(s[idx as int].id == self.id);
            assert forall|i: int, j: int| #![trigger t[i], t[j]] 0 <= i < j < t.len() implies t[i].id
                < t[j].id by {
                assert(s[i].id < s[j].id);
            }
            assert forall|i: int, j: int|
                #![trigger t[i], t[j]]
                0 <= i < t.len() && 0 <= j < t.len() && t[i].username == t[j].username implies i
                == j by {
                if i != idx && j != idx {
                    assert(s[i].username == s[j].username);
                }
            }
        }
        Ok(())
    }

    /// Transfer some `amount` quadbucks from this account to another account,
    /// then save this account and the other one, in that order. No bound is
    /// checked: a balance may go below zero, and the amount may be negative.
    pub fn transfer(&mut self, conn: &mut AccountsTable, other: &mut Account, amount: i32) -> (r: Result<(), DbError>)
        requires
            old(conn).wf(),
            i32::MIN <= old(self).balance - amount <= i32::MAX,
            i32::MIN <= old(other).balance + amount <= i32::MAX,
        ensures
            final(conn).wf(),
            final(self)@ == with_balance(old(self)@, old(self).balance - amount),
            final(other)@ == with_balance(old(other)@, old(other).balance + amount),
            match save_result(old(conn)@, final(self)@) {
                Err(e) => final(conn)@ == old(conn)@ && (r matches Err(x) && x == e),
                Ok(t1) => match save_result(t1, final(other)@) {
                    Err(e) => final(conn)@ == t1 && (r matches Err(x) && x == e),
                    Ok(t2) => final(conn)@ == t2 && r is Ok,
                },
            },
            r is Ok <==> save_both(old(conn)@, final(self)@, final(other)@) == Ok::<Seq<AccountView>, DbError>(final(conn)@),
    {
        self.balance = self.balance - amount;
        other.balance = other.balance + amount;
        match self.save(conn) {
            Ok(()) => {},
            Err(e) => {
                return Err(e);
            },
        }
        match other.save(conn) {
            Ok(()) => {},
            Err(e) => {
                return Err(e);
            },
        }
        Ok(())
    }
}

} // verus!
