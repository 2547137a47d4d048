use vstd::prelude::*;

verus! {

/// Where the schema stands against the bundled migrations.
pub struct MigrationState {
    pub current_version: i64,
    pub latest_version: i64,
}

impl MigrationState {
    /// Whether nothing is pending: the migration runner skips its work
    /// exactly in this state.
    pub fn is_up_to_date(&self) -> (r: bool)
        ensures
            r == (self.current_version == self.latest_version),
    {
        self.current_version == self.latest_version
    }
}

/// The newest of the bundled migration versions, or zero where none are
/// bundled.
pub fn latest_version(versions: &Vec<i64>) -> (r: i64)
    ensures
        versions@.len() == 0 ==> r == 0,
        versions@.len() > 0 ==> versions@.contains(r) && (forall|i: int|
            0 <= i < versions@.len() ==> versions@[i] <= r),
{
    let n = versions.len();
    if n == 0 {
        return 0;
    }
    let mut best = versions[0];
    let mut i: usize = 1;
    while i < n
        invariant
            1 <= i <= n,
            n == versions@.len(),
            versions@.contains(best),
            forall|j: int| 0 <= j < i ==> versions@[j] <= best,
        decreases n - i,
    {
        if versions[i] > best {
            best = versions[i];
        }
        i += 1;
    }
    best
}

} // verus!
