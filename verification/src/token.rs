use vstd::prelude::*;
use crate::text::str_eq;

verus! {

/// The payload of a signed session token: user identity, names, mail
/// address, role and expiry in seconds since the epoch.
pub struct TokenSigning {
    pub id: i64,
    pub first_name: String,
    pub last_name: String,
    pub email: String,
    pub role_id: i32,
    pub exp: usize,
}

/// A recorded token: the opaque signed string, its revocation flag and
/// timestamps in seconds since the epoch.
pub struct Token {
    pub id: i64,
    pub token: String,
    pub is_revoked: bool,
    pub created_at: i64,
    pub updated_at: i64,
}

impl Clone for Token {
    fn clone(&self) -> (r: Self)
        ensures
            r == *self,
    {
        Token {
            id: self.id,
            token: self.token.clone(),
            is_revoked: self.is_revoked,
            created_at: self.created_at,
            updated_at: self.updated_at,
        }
    }
}

/// How many records of `records` carry the token string `token`.
pub open spec fn count_matching(records: Seq<Token>, token: Seq<char>) -> nat
    decreases records.len(),
{
    if records.len() == 0 {
        0
    } else {
        count_matching(records.drop_last(), token) + (if records.last().token@ == token {
            1nat
        } else {
            0nat
        })
    }
}

/// Every issued token is recorded here, which is what allows server-side
/// logout: a revoked record outlives the token's natural expiry.
pub struct TokenStore {
    pub records: Vec<Token>,
    pub next_id: i64,
}

impl TokenStore {
    /// Some record carries `token` and is marked revoked.
    pub open spec fn spec_is_revoked(self, token: Seq<char>) -> bool {
        exists|i: int|
            0 <= i < self.records@.len() && self.records@[i].token@ == token
                && self.records@[i].is_revoked
    }

    /// Some record carries `token`.
    pub open spec fn spec_contains(self, token: Seq<char>) -> bool {
        exists|i: int| 0 <= i < self.records@.len() && self.records@[i].token@ == token
    }

    /// An empty revocation list.
    pub fn new() -> (r: Self)
        ensures
            r.records@.len() == 0,
            r.next_id == 1,
    {
        TokenStore { records: Vec::new(), next_id: 1 }
    }

    /// Records a freshly issued token, unrevoked. Nothing already recorded
    /// changes, so in particular no revoked record reverts.
    pub fn create(&mut self, token: &str, now: i64) -> (r: Token)
        requires
            old(self).next_id < i64::MAX,
        ensures
            r.token@ == token@,
            !r.is_revoked,
            r.id == old(self).next_id,
            r.created_at == now,
            r.updated_at == now,
            final(self).records@ == old(self).records@.push(r),
            final(self).next_id == old(self).next_id + 1,
    {
        let rec = Token {
            id: self.next_id,
            token: token.to_owned(),
            is_revoked: false,
            created_at: now,
            updated_at: now,
        };
        let copy = rec.clone();
        self.records.push(rec);
        self.next_id = self.next_id + 1;
        copy
    }

    /// Whether `token` appears in the store marked revoked: the check the
    /// Authorization Gate makes on every authenticated request.
    pub fn is_token_revoked(&self, token: &str) -> (r: bool)
        ensures
            r == self.spec_is_revoked(token@),
    {
        let n = self.records.len();
        let mut i: usize = 0;
        while i < n
            invariant
                0 <= i <= n,
                n == self.records@.len(),
                forall|j: int|
                    0 <= j < i ==> !(self.records@[j].token@ == token@
                        && self.records@[j].is_revoked),
            decreases n - i,
        {
            if self.records[i].is_revoked && str_eq(self.records[i].token.as_str(), token) {
                return true;
            }
            i += 1;
        }
        false
    }

    /// Marks every record carrying `token` revoked and returns how many
    /// there were. A record once revoked stays revoked: the update never
    /// clears the flag, on this or any other record.
    pub fn revoke_token(&mut self, token: &str, now: i64) -> (r: u64)
        ensures
            final(self).records@.len() == old(self).records@.len(),
            final(self).next_id == old(self).next_id,
            forall|i: int|
                0 <= i < old(self).records@.len() ==> final(self).records@[i] == (if old(
                    self,
                ).records@[i].token@ == token@ {
                    (Token {
                        is_revoked: true,
                        updated_at: now,
                        ..old(self).records@[i]
                    })
                } else {
                    old(self).records@[i]
                }),
            r == count_matching(old(self).records@, token@),
            r > 0 ==> final(self).spec_is_revoked(token@),
            r == 0 ==> !old(self).spec_contains(token@),
    {
        let n = self.records.len();
        let ghost orig = self.records@;
        let mut i: usize = 0;
        let mut affected: u64 = 0;
        while i < n
            invariant
                0 <= i <= n,
                n == orig.len(),
                self.records@.len() == orig.len(),
                self.next_id == old(self).next_id,
                orig == old(self).records@,
                affected == count_matching(orig.take(i as int), token@),
                affected <= i,
                forall|j: int|
                    0 <= j < i ==> self.records@[j] == (if orig[j].token@ == token@ {
                        (Token { is_revoked: true, updated_at: now, ..orig[j] })
                    } else {
                        orig[j]
                    }),
                forall|j: int| i <= j < n ==> self.records@[j] == orig[j],
            decreases n - i,
        {
            if str_eq(self.records[i].token.as_str(), token) {
                self.records[i].is_revoked = true;
                self.records[i].updated_at = now;
                affected = affected + 1;
            }
            proof {
                assert(orig.take(i + 1).drop_last() =~= orig.take(i as int));
                assert(orig.take(i + 1).last() == orig[i as int]);
            }
            i += 1;
        }
        proof {
            assert(orig.take(n as int) =~= orig);
            if affected > 0 {
                lemma_count_matching_exists(orig, token@);
                let w = choose|w: int| 0 <= w < orig.len() && orig[w].token@ == token@;
                assert(self.records@[w].is_revoked);
            }
            if affected == 0 {
                assert forall|j: int|
                    !(0 <= j < orig.len() && orig[j].token@ == token@) by {
                    if 0 <= j < orig.len() && orig[j].token@ == token@ {
                        lemma_count_matching_at_least(orig, token@, j);
                    }
                }
            }
        }
        affected
    }
}

/// Where the count of matching records is positive, a matching record
/// exists.
proof fn lemma_count_matching_exists(records: Seq<Token>, token: Seq<char>)
    requires
        count_matching(records, token) > 0,
    ensures
        exists|i: int| 0 <= i < records.len() && records[i].token@ == token,
    decreases records.len(),
{
    if records.len() > 0 {
        if records.last().token@ == token {
            assert(records[records.len() - 1].token@ == token);
        } else {
            lemma_count_matching_exists(records.drop_last(), token);
            let i = choose|i: int|
                0 <= i < records.drop_last().len() && records.drop_last()[i].token@ == token;
            assert(records[i].token@ == token);
        }
    }
}

/// A matching record at `at` makes the count of matches positive.
proof fn lemma_count_matching_at_least(records: Seq<Token>, token: Seq<char>, at: int)
    requires
        0 <= at < records.len(),
        records[at].token@ == token,
    ensures
        count_matching(records, token) > 0,
    decreases records.len(),
{
    if at == records.len() - 1 {
    } else {
        lemma_count_matching_at_least(records.drop_last(), token, at);
    }
}

} // verus!
