use vstd::prelude::*;
use crate::errors::DbError;
use crate::response::StandardResponse;

verus! {

/// A per-user monetary balance, in minor units.
pub struct Balance {
    pub id: i64,
    pub user_id: i64,
    pub balance: i64,
    pub created_at: i64,
    pub updated_at: i64,
}

impl Clone for Balance {
    fn clone(&self) -> (r: Self)
        ensures
            r == *self,
    {
        Balance {
            id: self.id,
            user_id: self.user_id,
            balance: self.balance,
            created_at: self.created_at,
            updated_at: self.updated_at,
        }
    }
}

/// The body of a balance-creation request.
pub struct CreateBalance {
    pub user_id: i64,
}

/// The body of a balance-update request.
pub struct UpdateBalance {
    pub balance: i64,
}

/// One immutable ledger row: the balance before the change and the
/// top-up delta.
pub struct BalanceHistory {
    pub id: i64,
    pub user_id: i64,
    pub balance_id: i64,
    pub balance: i64,
    pub top_up: i64,
    pub created_at: i64,
}

impl Clone for BalanceHistory {
    fn clone(&self) -> (r: Self)
        ensures
            r == *self,
    {
        BalanceHistory {
            id: self.id,
            user_id: self.user_id,
            balance_id: self.balance_id,
            balance: self.balance,
            top_up: self.top_up,
            created_at: self.created_at,
        }
    }
}

/// The fields of a ledger row before the store assigns it an id.
pub struct CreateBalanceHistory {
    pub user_id: i64,
    pub balance_id: i64,
    pub balance: i64,
    pub top_up: i64,
}

/// The derived top-up: the increase when the amount grows, zero when it
/// shrinks or stays.
pub open spec fn spec_top_up(old_amount: int, new_amount: int) -> int {
    if new_amount > old_amount {
        new_amount - old_amount
    } else {
        0
    }
}

/// Computes the top-up delta of a balance change.
pub fn top_up_delta(old_amount: i64, new_amount: i64) -> (r: i64)
    requires
        old_amount >= 0,
        new_amount >= 0,
    ensures
        r == spec_top_up(old_amount as int, new_amount as int),
{
    if new_amount > old_amount {
        new_amount - old_amount
    } else {
        0
    }
}

/// The balances table and its append-only history ledger, the one
/// multi-statement invariant the system enforces transactionally.
pub struct BalanceStore {
    pub balances: Vec<Balance>,
    pub histories: Vec<BalanceHistory>,
    pub next_balance_id: i64,
    pub next_history_id: i64,
}

impl BalanceStore {
    /// Balance ids are unique and below the next id, and no amount is
    /// negative.
    pub open spec fn wf(self) -> bool {
        &&& (forall|i: int, j: int|
            0 <= i < j < self.balances@.len() ==> self.balances@[i].id != self.balances@[j].id)
        &&& (forall|i: int| 0 <= i < self.balances@.len() ==> self.balances@[i].id < self.next_balance_id)
        &&& (forall|i: int| 0 <= i < self.balances@.len() ==> self.balances@[i].balance >= 0)
    }

    /// An empty store.
    pub fn new() -> (r: Self)
        ensures
            r.balances@.len() == 0,
            r.histories@.len() == 0,
            r.next_balance_id == 1,
            r.next_history_id == 1,
            r.wf(),
    {
        BalanceStore {
            balances: Vec::new(),
            histories: Vec::new(),
            next_balance_id: 1,
            next_history_id: 1,
        }
    }

    /// Opens a zero balance for a user: the row every registration writes
    /// in the same transaction as the user itself.
    pub fn create(&mut self, user_id: i64, now: i64) -> (r: Balance)
        requires
            old(self).wf(),
            old(self).next_balance_id < i64::MAX,
        ensures
            final(self).wf(),
            r.id == old(self).next_balance_id,
            r.user_id == user_id,
            r.balance == 0,
            r.created_at == now,
            r.updated_at == now,
            final(self).balances@ == old(self).balances@.push(r),
            final(self).histories@ == old(self).histories@,
            final(self).next_balance_id == old(self).next_balance_id + 1,
            final(self).next_history_id == old(self).next_history_id,
    {
        let rec = Balance {
            id: self.next_balance_id,
            user_id,
            balance: 0,
            created_at: now,
            updated_at: now,
        };
        let result = rec.clone();
        self.balances.push(rec);
        self.next_balance_id = self.next_balance_id + 1;
        result
    }

    /// The balance row with this id, or the not-found outcome.
    pub fn get(&self, id: i64) -> (r: Result<Balance, DbError>)
        ensures
            match r {
                Ok(b) => self.balances@.contains(b) && b.id == id,
                Err(e) => {
                    &&& e is RowNotFound
                    &&& forall|i: int| 0 <= i < self.balances@.len() ==> self.balances@[i].id != id
                },
            },
    {
        let n = self.balances.len();
        let mut i: usize = 0;
        while i < n
            invariant
                0 <= i <= n,
                n == self.balances@.len(),
                forall|j: int| 0 <= j < i ==> self.balances@[j].id != id,
            decreases n - i,
        {
            if self.balances[i].id == id {
                return Ok(self.balances[i].clone());
            }
            i += 1;
        }
        Err(DbError::RowNotFound)
    }

    /// The first balance row of this user, or the not-found outcome.
    pub fn get_by_user(&self, user_id: i64) -> (r: Result<Balance, DbError>)
        ensures
            match r {
                Ok(b) => self.balances@.contains(b) && b.user_id == user_id,
                Err(e) => {
                    &&& e is RowNotFound
                    &&& forall|i: int|
                        0 <= i < self.balances@.len() ==> self.balances@[i].user_id != user_id
                },
            },
    {
        let n = self.balances.len();
        let mut i: usize = 0;
        while i < n
            invariant
                0 <= i <= n,
                n == self.balances@.len(),
                forall|j: int| 0 <= j < i ==> self.balances@[j].user_id != user_id,
            decreases n - i,
        {
            if self.balances[i].user_id == user_id {
                return Ok(self.balances[i].clone());
            }
            i += 1;
        }
        Err(DbError::RowNotFound)
    }

    /// The ledger rows of this user, in store order; rows already written
    /// are never touched.
    pub fn get_history_by_user(&self, user_id: i64) -> (r: Vec<BalanceHistory>)
        ensures
            r@ == user_histories(self.histories@, user_id),
    {
        let n = self.histories.len();
        let mut out: Vec<BalanceHistory> = Vec::new();
        let mut i: usize = 0;
        while i < n
            invariant
                0 <= i <= n,
                n == self.histories@.len(),
                out@ == user_histories(self.histories@.take(i as int), user_id),
            decreases n - i,
        {
            if self.histories[i].user_id == user_id {
                out.push(self.histories[i].clone());
            }
            proof {
                assert(self.histories@.take(i + 1).drop_last() =~= self.histories@.take(i as int));
                assert(self.histories@.take(i + 1).last() == self.histories@[i as int]);
            }
            i += 1;
        }
        proof {
            assert(self.histories@.take(n as int) =~= self.histories@);
        }
        out
    }

    /// The balance-update transaction: sets the new amount on the row and
    /// appends exactly one ledger row, whose `top_up` is the increase and
    /// whose `balance` is the amount before the change. A missing row is
    /// the not-found outcome and changes nothing. The handler answers
    /// with the row as it stood before the update.
    pub fn update_balance(&mut self, balance_id: i64, body: &UpdateBalance, now: i64) -> (r: Result<
        (Balance, BalanceHistory),
        DbError,
    >)
        requires
            old(self).wf(),
            old(self).next_history_id < i64::MAX,
            body.balance >= 0,
        ensures
            final(self).wf(),
            final(self).next_balance_id == old(self).next_balance_id,
            match r {
                Ok((before, row)) => {
                    &&& old(self).balances@.contains(before) && before.id == balance_id
                    &&& final(self).histories@ == old(self).histories@.push(row)
                    &&& row.id == old(self).next_history_id
                    &&& row.user_id == before.user_id
                    &&& row.balance_id == before.id
                    &&& row.balance == before.balance
                    &&& row.top_up == spec_top_up(before.balance as int, body.balance as int)
                    &&& row.created_at == now
                    &&& final(self).next_history_id == old(self).next_history_id + 1
                    &&& exists|i: int|
                        {
                            &&& 0 <= i < old(self).balances@.len()
                            &&& old(self).balances@[i] == before
                            &&& final(self).balances@ == old(self).balances@.update(
                                i,
                                (Balance { balance: body.balance, updated_at: now, ..before }),
                            )
                        }
                },
                Err(e) => {
                    &&& e is RowNotFound
                    &&& (forall|i: int|
                        0 <= i < old(self).balances@.len() ==> old(self).balances@[i].id
                            != balance_id)
                    &&& final(self).balances@ == old(self).balances@
                    &&& final(self).histories@ == old(self).histories@
                    &&& final(self).next_history_id == old(self).next_history_id
                },
            },
    {
        let n = self.balances.len();
        let mut i: usize = 0;
        while i < n
            invariant
                old(self).wf(),
                old(self).next_history_id < i64::MAX,
                body.balance >= 0,
                0 <= i <= n,
                n == self.balances@.len(),
                self.balances@ == old(self).balances@,
                self.histories@ == old(self).histories@,
                self.next_balance_id == old(self).next_balance_id,
                self.next_history_id == old(self).next_history_id,
                forall|j: int| 0 <= j < i ==> self.balances@[j].id != balance_id,
            decreases n - i,
        {
            if self.balances[i].id == balance_id {
                let before = self.balances[i].clone();
                self.balances[i].balance = body.balance;
                self.balances[i].updated_at = now;
                let top_up = top_up_delta(before.balance, body.balance);
                let row = BalanceHistory {
                    id: self.next_history_id,
                    user_id: before.user_id,
                    balance_id: before.id,
                    balance: before.balance,
                    top_up,
                    created_at: now,
                };
                let row_copy = row.clone();
                self.histories.push(row);
                self.next_history_id = self.next_history_id + 1;
                proof {
                    assert(self.balances@ =~= old(self).balances@.update(
                        i as int,
                        (Balance { balance: body.balance, updated_at: now, ..before }),
                    ));
                }
                return Ok((before, row_copy));
            }
            i += 1;
        }
        Err(DbError::RowNotFound)
    }
}

/// The ledger rows of one user, in store order.
pub open spec fn user_histories(rows: Seq<BalanceHistory>, user_id: i64) -> Seq<BalanceHistory>
    decreases rows.len(),
{
    if rows.len() == 0 {
        Seq::empty()
    } else {
        user_histories(rows.drop_last(), user_id) + (if rows.last().user_id == user_id {
            seq![rows.last()]
        } else {
            Seq::empty()
        })
    }
}

/// The balance handler's envelope for a read: a found row inside the
/// uniform envelope, a missing one as a bare 404.
pub fn balance_response(found: Result<Balance, DbError>) -> (r: (u16, StandardResponse<Balance>))
    ensures
        match found {
            Ok(b) => {
                &&& r.0 == 200
                &&& r.1.success
                &&& r.1.data == Some(b)
            },
            Err(_) => {
                &&& r.0 == 404
                &&& !r.1.success
                &&& r.1.data is None
            },
        },
{
    match found {
        Ok(b) => (200, StandardResponse::ok(b, None)),
        Err(_) => (404, StandardResponse::error("Not found".to_owned(), None)),
    }
}

} // verus!
