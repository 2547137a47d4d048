use vstd::prelude::*;
use crate::text::str_eq;

verus! {

/// A one-time code: usable only while it is active and before it expires;
/// consuming it clears the active flag, which never comes back.
pub struct OTP {
    pub id: i64,
    pub code: String,
    pub is_active: bool,
    pub created_at: i64,
    pub expired_at: i64,
}

impl Clone for OTP {
    fn clone(&self) -> (r: Self)
        ensures
            r == *self,
    {
        OTP {
            id: self.id,
            code: self.code.clone(),
            is_active: self.is_active,
            created_at: self.created_at,
            expired_at: self.expired_at,
        }
    }
}

/// A record that a sweep for `code` at time `now` would consume: it
/// carries the code, is still active and has not expired.
pub open spec fn revocable(rec: OTP, code: Seq<char>, now: i64) -> bool {
    rec.code@ == code && rec.is_active && rec.expired_at >= now
}

/// The record after consumption: only the active flag changes.
pub open spec fn consumed(rec: OTP) -> OTP {
    OTP { is_active: false, ..rec }
}

/// What one revocation sweep leaves behind: every revocable record is
/// consumed, every other record is untouched.
pub open spec fn spec_revoke_sweep(records: Seq<OTP>, code: Seq<char>, now: i64) -> Seq<OTP> {
    Seq::new(
        records.len(),
        |i: int|
            if revocable(records[i], code, now) {
                consumed(records[i])
            } else {
                records[i]
            },
    )
}

/// How many records a sweep for `code` at `now` would consume.
pub open spec fn count_revocable(records: Seq<OTP>, code: Seq<char>, now: i64) -> nat
    decreases records.len(),
{
    if records.len() == 0 {
        0
    } else {
        count_revocable(records.drop_last(), code, now) + (if revocable(records.last(), code, now) {
            1nat
        } else {
            0nat
        })
    }
}

/// Where no record is revocable, the count is zero.
proof fn lemma_count_revocable_zero(records: Seq<OTP>, code: Seq<char>, now: i64)
    requires
        forall|i: int| 0 <= i < records.len() ==> !revocable(records[i], code, now),
    ensures
        count_revocable(records, code, now) == 0,
    decreases records.len(),
{
    if records.len() > 0 {
        lemma_count_revocable_zero(records.drop_last(), code, now);
    }
}

/// A code, once consumed by a sweep, cannot pass a later sweep: after one
/// revocation at `now1`, a second at any `now2` not earlier finds nothing
/// to revoke. A record the first sweep spared was either another code,
/// already consumed, or already expired, and stays so.
pub proof fn lemma_otp_single_use(records: Seq<OTP>, code: Seq<char>, now1: i64, now2: i64)
    requires
        now1 <= now2,
    ensures
        count_revocable(spec_revoke_sweep(records, code, now1), code, now2) == 0,
{
    let after = spec_revoke_sweep(records, code, now1);
    assert forall|i: int| 0 <= i < after.len() implies !revocable(after[i], code, now2) by {
        if revocable(records[i], code, now1) {
            assert(after[i] == consumed(records[i]));
        } else {
            assert(after[i] == records[i]);
        }
    }
    lemma_count_revocable_zero(after, code, now2);
}

/// The table of issued one-time codes.
pub struct OtpStore {
    pub records: Vec<OTP>,
    pub next_id: i64,
}

impl OtpStore {
    /// Some record with this code could still be consumed at `now`.
    pub open spec fn spec_can_revoke(self, code: Seq<char>, now: i64) -> bool {
        exists|i: int| 0 <= i < self.records@.len() && revocable(self.records@[i], code, now)
    }

    /// Some record carries this code, whatever its state.
    pub open spec fn spec_contains_code(self, code: Seq<char>) -> bool {
        exists|i: int| 0 <= i < self.records@.len() && self.records@[i].code@ == code
    }

    /// An empty table.
    pub fn new() -> (r: Self)
        ensures
            r.records@.len() == 0,
            r.next_id == 1,
    {
        OtpStore { records: Vec::new(), next_id: 1 }
    }

    /// Records a fresh active code that expires `expiry_in_min` minutes
    /// after `now`, and reports one affected row.
    pub fn create(&mut self, code: &str, expiry_in_min: u8, now: i64) -> (r: u64)
        requires
            old(self).next_id < i64::MAX,
            now <= i64::MAX - 60 * 255,
        ensures
            r == 1,
            final(self).records@.len() == old(self).records@.len() + 1,
            ({
                let rec = final(self).records@.last();
                &&& final(self).records@ == old(self).records@.push(rec)
                &&& rec.id == old(self).next_id
                &&& rec.code@ == code@
                &&& rec.is_active
                &&& rec.created_at == now
                &&& rec.expired_at == now + 60 * (expiry_in_min as i64)
            }),
            final(self).next_id == old(self).next_id + 1,
    {
        let rec = OTP {
            id: self.next_id,
            code: code.to_owned(),
            is_active: true,
            created_at: now,
            expired_at: now + 60 * (expiry_in_min as i64),
        };
        self.records.push(rec);
        self.next_id = self.next_id + 1;
        1
    }

    /// The first record carrying this code, whatever its state: the
    /// lookup that the code check makes before consuming.
    pub fn check_code(&self, code: &str) -> (r: Option<OTP>)
        ensures
            match r {
                Some(rec) => self.records@.contains(rec) && rec.code@ == code@,
                None => !self.spec_contains_code(code@),
            },
    {
        let n = self.records.len();
        let mut i: usize = 0;
        while i < n
            invariant
                0 <= i <= n,
                n == self.records@.len(),
                forall|j: int| 0 <= j < i ==> self.records@[j].code@ != code@,
            decreases n - i,
        {
            if str_eq(self.records[i].code.as_str(), code) {
                return Some(self.records[i].clone());
            }
            i += 1;
        }
        None
    }

    /// Consumes every record with this code that is still active and
    /// unexpired, and reports how many there were. Afterwards no record
    /// with the code can be consumed again, now or later.
    pub fn revoke_code(&mut self, code: &str, now: i64) -> (r: u64)
        ensures
            final(self).records@ == spec_revoke_sweep(old(self).records@, code@, now),
            final(self).next_id == old(self).next_id,
            r == count_revocable(old(self).records@, code@, now),
            r > 0 ==> old(self).spec_can_revoke(code@, now),
            r == 0 ==> !old(self).spec_can_revoke(code@, now),
            forall|later: i64| now <= later ==> !final(self).spec_can_revoke(code@, later),
    {
        let n = self.records.len();
        let ghost orig = self.records@;
        let mut i: usize = 0;
        let mut affected: u64 = 0;
        while i < n
            invariant
                0 <= i <= n,
                n == orig.len(),
                self.records@.len() == orig.len(),
                self.next_id == old(self).next_id,
                orig == old(self).records@,
                affected == count_revocable(orig.take(i as int), code@, now),
                affected <= i,
                forall|j: int|
                    0 <= j < i ==> self.records@[j] == (if revocable(orig[j], code@, now) {
                        consumed(orig[j])
                    } else {
                        orig[j]
                    }),
                forall|j: int| i <= j < n ==> self.records@[j] == orig[j],
            decreases n - i,
        {
            if self.records[i].is_active && self.records[i].expired_at >= now && str_eq(
                self.records[i].code.as_str(),
                code,
            ) {
                self.records[i].is_active = false;
                affected = affected + 1;
            }
            proof {
                assert(orig.take(i + 1).drop_last() =~= orig.take(i as int));
                assert(orig.take(i + 1).last() == orig[i as int]);
            }
            i += 1;
        }
        proof {
            assert(orig.take(n as int) =~= orig);
            assert(self.records@ =~= spec_revoke_sweep(orig, code@, now));
            if affected > 0 {
                lemma_count_revocable_exists(orig, code@, now);
            }
            if affected == 0 {
                assert forall|j: int|
                    !(0 <= j < orig.len() && revocable(orig[j], code@, now)) by {
                    if 0 <= j < orig.len() && revocable(orig[j], code@, now) {
                        lemma_count_revocable_at_least(orig, code@, now, j);
                    }
                }
            }
            assert forall|later: i64|
                now <= later implies !final(self).spec_can_revoke(code@, later) by {
                lemma_otp_single_use(orig, code@, now, later);
                if final(self).spec_can_revoke(code@, later) {
                    let w = choose|w: int|
                        0 <= w < final(self).records@.len() && revocable(
                            final(self).records@[w],
                            code@,
                            later,
                        );
                    lemma_count_revocable_at_least(final(self).records@, code@, later, w);
                }
            }
        }
        affected
    }
}

/// Where the count of revocable records is positive, one exists.
proof fn lemma_count_revocable_exists(records: Seq<OTP>, code: Seq<char>, now: i64)
    requires
        count_revocable(records, code, now) > 0,
    ensures
        exists|i: int| 0 <= i < records.len() && revocable(records[i], code, now),
    decreases records.len(),
{
    if records.len() > 0 {
        if revocable(records.last(), code, now) {
            assert(revocable(records[records.len() - 1], code, now));
        } else {
            lemma_count_revocable_exists(records.drop_last(), code, now);
            let i = choose|i: int|
                0 <= i < records.drop_last().len() && revocable(records.drop_last()[i], code, now);
            assert(revocable(records[i], code, now));
        }
    }
}

/// A revocable record at `at` makes the count positive.
proof fn lemma_count_revocable_at_least(records: Seq<OTP>, code: Seq<char>, now: i64, at: int)
    requires
        0 <= at < records.len(),
        revocable(records[at], code, now),
    ensures
        count_revocable(records, code, now) > 0,
    decreases records.len(),
{
    if at == records.len() - 1 {
    } else {
        lemma_count_revocable_at_least(records.drop_last(), code, now, at);
    }
}

} // verus!
