//! What holds of the bank across its operations.
use vstd::prelude::*;

use crate::api_errors::{error_of, error_status, error_text, Error};
use crate::models::{
    create_result, find_result, has_username, lemma_id_index, lemma_save_same_key,
    lemma_total_update, lemma_username_index, save_result, table_wf, total, transfer_in_range,
    transfer_result, username_index, with_balance, AccountView, DbError, id_index, save_both,
};
use crate::status::{reason_phrase, Status};

verus! {

/// A transfer between two different accounts succeeds whenever both exist,
/// and the sum of all balances is the same after it as before.
pub proof fn lemma_transfer_conserves_total(
    s: Seq<AccountView>,
    src: Seq<char>,
    dst: Seq<char>,
    amount: i32,
)
    requires
        table_wf(s),
        has_username(s, src),
        has_username(s, dst),
        src != dst,
        transfer_in_range(s, src, dst, amount),
    ensures
        transfer_result(s, src, dst, amount) matches Ok(t) && total(t) == total(s),
{
    let i = username_index(s, src);
    let j = username_index(s, dst);
    let t1 = s.update(i, with_balance(s[i], s[i].balance - amount));
    let t2 = t1.update(j, with_balance(s[j], s[j].balance + amount));
    lemma_total_update(s, i, with_balance(s[i], s[i].balance - amount));
    lemma_total_update(t1, j, with_balance(s[j], s[j].balance + amount));
    assert(t1[j] == s[j]);
}

/// A transfer of `-amount` between the same two accounts undoes a transfer of
/// `amount`: every row is as it was before the first transfer.
pub proof fn lemma_transfer_undo(s: Seq<AccountView>, src: Seq<char>, dst: Seq<char>, amount: i32)
    requires
        table_wf(s),
        amount != i32::MIN,
        transfer_in_range(s, src, dst, amount),
        transfer_result(s, src, dst, amount) matches Ok(t) && transfer_in_range(
            t,
            src,
            dst,
            (-amount) as i32,
        ),
    ensures
        transfer_result(s, src, dst, amount) matches Ok(t) && transfer_result(
            t,
            src,
            dst,
            (-amount) as i32,
        ) == Ok::<Seq<AccountView>, DbError>(s),
{
    let i = username_index(s, src);
    let j = username_index(s, dst);
    let a1 = with_balance(s[i], s[i].balance - amount);
    let b1 = with_balance(s[j], s[j].balance + amount);
    let t1 = s.update(i, a1);
    let t = t1.update(j, b1);
    lemma_save_same_key(s, i, a1);
    lemma_save_same_key(t1, j, b1);
    lemma_username_index(t, i);
    lemma_username_index(t, j);
    let neg = (-amount) as i32;
    let u1 = t.update(i, with_balance(t[i], t[i].balance - neg));
    let u = u1.update(j, with_balance(t[j], t[j].balance + neg));
    assert(u =~= s);
}

/// A transfer from an account to itself credits the account with `amount`:
/// the debited row is written first and then overwritten by the credited one.
pub proof fn lemma_transfer_to_self_credits(s: Seq<AccountView>, u: Seq<char>, amount: i32)
    requires
        table_wf(s),
        has_username(s, u),
        transfer_in_range(s, u, u, amount),
    ensures
        transfer_result(s, u, u, amount) == Ok::<Seq<AccountView>, DbError>(
            s.update(username_index(s, u), with_balance(s[username_index(s, u)], s[username_index(s, u)].balance + amount)),
        ),
{
    let i = username_index(s, u);
    assert(s.update(i, with_balance(s[i], s[i].balance - amount)).update(
        i,
        with_balance(s[i], s[i].balance + amount),
    ) =~= s.update(i, with_balance(s[i], s[i].balance + amount)));
}

/// A transfer changes the balances of the two named accounts only: every row
/// keeps its id and username, and every other row is unchanged.
pub proof fn lemma_transfer_keeps_other_rows(
    s: Seq<AccountView>,
    src: Seq<char>,
    dst: Seq<char>,
    amount: i32,
)
    requires
        table_wf(s),
        transfer_in_range(s, src, dst, amount),
    ensures
        transfer_result(s, src, dst, amount) matches Ok(t) ==> {
            &&& t.len() == s.len()
            &&& table_wf(t)
            &&& forall|k: int|
                0 <= k < s.len() ==> #[trigger] t[k].id == s[k].id && t[k].username == s[k].username
            &&& forall|k: int|
                0 <= k < s.len() && s[k].username != src && s[k].username != dst ==> #[trigger] t[k]
                    == s[k]
        },
{
    if has_username(s, src) && has_username(s, dst) {
        let i = username_index(s, src);
        let j = username_index(s, dst);
        let a1 = with_balance(s[i], s[i].balance - amount);
        let t1 = s.update(i, a1);
        lemma_save_same_key(s, i, a1);
        lemma_save_same_key(t1, j, with_balance(s[j], s[j].balance + amount));
    }
}

/// Once an account is created, finding its username gives it back, with the
/// balance it was created with; the total grows by that balance.
pub proof fn lemma_create_then_find(s: Seq<AccountView>, u: Seq<char>, balance: i32)
    requires
        table_wf(s),
        create_result(s, u, balance) is Ok,
    ensures
        create_result(s, u, balance) matches Ok(t) && {
            &&& table_wf(t)
            &&& t.len() == s.len() + 1
            &&& t.last().username == u
            &&& t.last().balance == balance
            &&& find_result(t, u) == Ok::<AccountView, DbError>(t.last())
            &&& total(t) == total(s) + balance
        },
{
    let n = s.len() as int;
    let t = s.push(AccountView { id: (if n == 0 { 1 } else { s.last().id + 1 }) as i32, username: u, balance });
    assert forall|i: int, j: int| #![trigger t[i], t[j]] 0 <= i < j < t.len() implies t[i].id < t[j].id by {
        if j == n && i < n - 1 {
            assert(s[i].id < s[n - 1].id);
        }
    }
    assert forall|i: int, j: int|
        #![trigger t[i], t[j]]
        0 <= i < t.len() && 0 <= j < t.len() && t[i].username == t[j].username implies i == j by {
        if i == n && j < n {
            assert(s[j].username == u);
        }
        if j == n && i < n {
            assert(s[i].username == u);
        }
    }
    lemma_username_index(t, n);
    assert(t.drop_last() =~= s);
}

/// Once an account is saved, finding its username gives back what was saved.
pub proof fn lemma_save_then_find(s: Seq<AccountView>, a: AccountView)
    requires
        table_wf(s),
        save_result(s, a) is Ok,
    ensures
        save_result(s, a) matches Ok(t) && table_wf(t) && find_result(t, a.username) == Ok::<
            AccountView,
            DbError,
        >(a),
{
    let i = crate::models::id_index(s, a.id);
    lemma_id_index(s, i);
    let t = s.update(i, a);
    assert forall|x: int, y: int| #![trigger t[x], t[y]] 0 <= x < y < t.len() implies t[x].id < t[y].id by {
        assert(s[x].id < s[y].id);
    }
    assert forall|x: int, y: int|
        #![trigger t[x], t[y]]
        0 <= x < t.len() && 0 <= y < t.len() && t[x].username == t[y].username implies x == y by {
        if x != i && y != i {
            assert(s[x].username == s[y].username);
        }
        if x == i && y != i {
            assert(s[y].username == a.username);
        }
        if y == i && x != i {
            assert(s[x].username == a.username);
        }
    }
    lemma_username_index(t, i);
}

/// Creating an account under a username that is taken is refused as a unique
/// violation, which the services answer with 409 Conflict.
pub proof fn lemma_taken_username_is_a_conflict(s: Seq<AccountView>, u: Seq<char>, balance: i32)
    requires
        has_username(s, u),
    ensures
        create_result(s, u, balance) == Err::<Seq<AccountView>, DbError>(DbError::UniqueViolation),
        error_status(error_of(DbError::UniqueViolation)) == Status::Conflict,
{
}

/// Looking up, or transferring from or to, an unknown username is refused as
/// "not found", which the services answer with 404 Not Found.
pub proof fn lemma_unknown_username_is_not_found(
    s: Seq<AccountView>,
    u: Seq<char>,
    other: Seq<char>,
    amount: i32,
)
    requires
        !has_username(s, u),
    ensures
        find_result(s, u) == Err::<AccountView, DbError>(DbError::NotFound),
        transfer_result(s, u, other, amount) == Err::<Seq<AccountView>, DbError>(DbError::NotFound),
        transfer_result(s, other, u, amount) == Err::<Seq<AccountView>, DbError>(DbError::NotFound),
        error_status(error_of(DbError::NotFound)) == Status::NotFound,
{
}

/// The text that describes an error is the reason phrase of the status that
/// answers it.
pub proof fn lemma_error_text_is_reason_phrase(e: Error)
    ensures
        error_text(e) == reason_phrase(error_status(e)),
{
}

/// Transferring `-amount` between two accounts with different ids, after a
/// transfer of `amount` between them went through, also goes through: both
/// accounts get back the balances they had, and their rows end up as the two
/// accounts were before the first transfer (so a table that held them is
/// restored), every other row untouched.
pub proof fn lemma_account_transfer_undo(s: Seq<AccountView>, a: AccountView, b: AccountView, amount: i32)
    requires
        table_wf(s),
        a.id != b.id,
        amount != i32::MIN,
        i32::MIN <= a.balance - amount <= i32::MAX,
        i32::MIN <= b.balance + amount <= i32::MAX,
        save_both(s, with_balance(a, a.balance - amount), with_balance(b, b.balance + amount)) is Ok,
    ensures
        ({
            let a1 = with_balance(a, a.balance - amount);
            let b1 = with_balance(b, b.balance + amount);
            &&& with_balance(a1, a1.balance - (-amount)) == a
            &&& with_balance(b1, b1.balance + (-amount)) == b
            &&& save_both(s, a1, b1) matches Ok(t) && save_both(t, a, b) == Ok::<Seq<AccountView>, DbError>(
                s.update(id_index(s, a.id), a).update(id_index(s, b.id), b),
            )
        }),
        s[id_index(s, a.id)] == a && s[id_index(s, b.id)] == b ==> (save_both(
            s,
            with_balance(a, a.balance - amount),
            with_balance(b, b.balance + amount),
        ) matches Ok(t) && save_both(t, a, b) == Ok::<Seq<AccountView>, DbError>(s)),
{
    let a1 = with_balance(a, a.balance - amount);
    let b1 = with_balance(b, b.balance + amount);
    let ia = id_index(s, a.id);
    lemma_save_then_find(s, a1);
    let t1 = s.update(ia, a1);
    let ib = id_index(t1, b.id);
    lemma_save_then_find(t1, b1);
    let t = t1.update(ib, b1);
    lemma_id_index(t1, ib);
    assert(t1[ib].id == s[ib].id);
    lemma_id_index(s, ib);
    assert(ib == id_index(s, b.id));
    assert(ia != ib);
    assert(t[ia] == a1);
    lemma_save_same_key(t, ia, a);
    let t3 = t.update(ia, a);
    lemma_save_same_key(t3, ib, b);
    let t4 = t3.update(ib, b);
    assert(t4 =~= s.update(ia, a).update(ib, b));
    if s[ia] == a && s[ib] == b {
        assert(t4 =~= s);
    }
}

/// The overflow guard of a transfer answers "in range" exactly when, for the
/// accounts at `i` (holding `src`) and `j` (holding `dst`), the source's
/// balance minus `amount` and the destination's balance plus `amount` both
/// lie in the `i32` range; the sign of `amount` plays no part.
pub proof fn lemma_transfer_in_range_exactly_when_balances_fit(
    s: Seq<AccountView>,
    i: int,
    j: int,
    amount: i32,
)
    requires
        table_wf(s),
        0 <= i < s.len(),
        0 <= j < s.len(),
    ensures
        transfer_in_range(s, s[i].username, s[j].username, amount) <==> (i32::MIN <= s[i].balance
            - amount <= i32::MAX && i32::MIN <= s[j].balance + amount <= i32::MAX),
{
    lemma_username_index(s, i);
    lemma_username_index(s, j);
}

/// Creating an account under a username that no row holds, while the ids are
/// not exhausted, succeeds for every opening balance: the table gains one
/// row at its end, with the id one more than the last row's (1 in an empty
/// table), that username and that balance, and nothing else changes.
pub proof fn lemma_create_succeeds_for_a_free_username(s: Seq<AccountView>, u: Seq<char>, balance: i32)
    requires
        table_wf(s),
        forall|k: int| 0 <= k < s.len() ==> #[trigger] s[k].username != u,
        s.len() == 0 || s[s.len() - 1].id < i32::MAX,
    ensures
        create_result(s, u, balance) == Ok::<Seq<AccountView>, DbError>(
            s.push(
                AccountView {
                    id: (if s.len() == 0 { 1 } else { s[s.len() - 1].id + 1 }) as i32,
                    username: u,
                    balance: balance,
                },
            ),
        ),
{
    if has_username(s, u) {
        let k = username_index(s, u);
        assert(s[k].username == u);
    }
}

/// A transfer between the accounts at two different positions `i` and `j`,
/// when both new balances fit, succeeds and moves exactly `amount`: the
/// source ends with its balance minus `amount`, the destination with its
/// balance plus `amount`, both keep their id and username, and every other
/// row is unchanged.
pub proof fn lemma_transfer_moves_exactly_the_amount(s: Seq<AccountView>, i: int, j: int, amount: i32)
    requires
        table_wf(s),
        0 <= i < s.len(),
        0 <= j < s.len(),
        i != j,
        i32::MIN <= s[i].balance - amount <= i32::MAX,
        i32::MIN <= s[j].balance + amount <= i32::MAX,
    ensures
        transfer_result(s, s[i].username, s[j].username, amount) matches Ok(t) && {
            &&& t.len() == s.len()
            &&& t[i].balance == s[i].balance - amount
            &&& t[j].balance == s[j].balance + amount
            &&& t[i].id == s[i].id && t[i].username == s[i].username
            &&& t[j].id == s[j].id && t[j].username == s[j].username
            &&& forall|k: int| 0 <= k < s.len() && k != i && k != j ==> #[trigger] t[k] == s[k]
        },
{
    lemma_username_index(s, i);
    lemma_username_index(s, j);
}

} // verus!
