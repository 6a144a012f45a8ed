//! The integer figures of the final report.
use vstd::prelude::*;

verus! {

/// The largest of the counts, or 0 when there are none.
pub open spec fn max_or_zero(s: Seq<u64>) -> u64
    decreases s.len(),
{
    if s.len() == 0 {
        0
    } else {
        let m = max_or_zero(s.drop_last());
        if s.last() > m {
            s.last()
        } else {
            m
        }
    }
}

/// The largest total transaction count among the nodes.
pub fn max_tx_count(totals: &[u64]) -> (r: u64)
    ensures
        r == max_or_zero(totals@),
{
    let mut m: u64 = 0;
    let mut i: usize = 0;
    let n = totals.len();
    assert(totals@.take(0) =~= Seq::<u64>::empty());
    while i < n
        invariant
            n == totals@.len(),
            i <= n,
            m == max_or_zero(totals@.take(i as int)),
        decreases n - i,
    {
        assert(totals@.take(i + 1).drop_last() =~= totals@.take(i as int));
        if totals[i] > m {
            m = totals[i];
        }
        i = i + 1;
    }
    assert(totals@.take(n as int) =~= totals@);
    m
}

/// The largest count bounds every count, and is one of them unless all are 0.
pub proof fn lemma_max_or_zero_is_max(s: Seq<u64>)
    ensures
        forall|i: int| 0 <= i < s.len() ==> s[i] <= max_or_zero(s),
        max_or_zero(s) == 0 || exists|i: int| 0 <= i < s.len() && s[i] == max_or_zero(s),
    decreases s.len(),
{
    if s.len() > 0 {
        let p = s.drop_last();
        lemma_max_or_zero_is_max(p);
        assert forall|i: int| 0 <= i < s.len() implies s[i] <= max_or_zero(s) by {
            if i < s.len() - 1 {
                assert(s[i] == p[i]);
            }
        }
        if max_or_zero(s) != 0 && max_or_zero(s) != s.last() {
            let j = choose|j: int| 0 <= j < p.len() && p[j] == max_or_zero(p);
            assert(s[j] == p[j]);
        }
    }
}

/// The mark beside a node that processed no transaction.
pub fn idle_marker(total: u64) -> (r: &'static str)
    ensures
        r@ == if total == 0 {
            "!!!!!"@
        } else {
            ""@
        },
{
    if total == 0 {
        "!!!!!"
    } else {
        ""
    }
}

} // verus!
