use vstd::prelude::*;
use vstd::string::StrSliceExecFns;
use vstd::string::StringExecFns;

verus! {

/// Character-wise string equality, decided without any trusted call.
pub fn str_eq(a: &str, b: &str) -> (r: bool)
    ensures
        r == (a@ == b@),
{
    let n = a.unicode_len();
    if n != b.unicode_len() {
        return false;
    }
    let mut i: usize = 0;
    while i < n
        invariant
            0 <= i <= n,
            n == a@.len(),
            n == b@.len(),
            forall|j: int| 0 <= j < i ==> a@[j] == b@[j],
        decreases n - i,
    {
        if a.get_char(i) != b.get_char(i) {
            return false;
        }
        i += 1;
    }
    proof {
        assert(a@ =~= b@);
    }
    true
}

/// The messages joined into one string, separated by `sep`.
pub open spec fn join_with(msgs: Seq<Seq<char>>, sep: Seq<char>) -> Seq<char>
    decreases msgs.len(),
{
    if msgs.len() == 0 {
        Seq::empty()
    } else if msgs.len() == 1 {
        msgs[0]
    } else {
        join_with(msgs.drop_last(), sep) + sep + msgs.last()
    }
}

/// Joins the strings with the separator.
pub fn join_strings(msgs: &Vec<String>, sep: &str) -> (r: String)
    ensures
        r@ == join_with(msgs.deep_view(), sep@),
{
    let mut s = String::new();
    let mut i: usize = 0;
    while i < msgs.len()
        invariant
            i <= msgs@.len(),
            s@ == join_with(msgs.deep_view().take(i as int), sep@),
        decreases msgs@.len() - i,
    {
        if i > 0 {
            s.append(sep);
        }
        s.append(msgs[i].as_str());
        proof {
            let dv = msgs.deep_view();
            assert(dv.take(i + 1).drop_last() =~= dv.take(i as int));
            assert(dv.take(i + 1).last() == dv[i as int]);
            assert(s@ == join_with(dv.take(i + 1), sep@));
        }
        i += 1;
    }
    proof {
        assert(msgs.deep_view().take(msgs@.len() as int) =~= msgs.deep_view());
    }
    s
}

} // verus!
