//! Stable descending order of ranked entries.
use vstd::prelude::*;

verus! {

/// Whether entry `a` stands before entry `b`: it ranks higher, or ranks equal and came first.
pub open spec fn stands_before(ranks: Seq<i64>, a: int, b: int) -> bool {
    ranks[a] > ranks[b] || (ranks[a] == ranks[b] && a < b)
}

/// Whether each listed entry stands before those listed after it.
pub open spec fn is_ordered(ranks: Seq<i64>, order: Seq<usize>) -> bool {
    forall|i: int, j: int|
        0 <= i < j < order.len() ==> stands_before(
            ranks,
            #[trigger] order[i] as int,
            #[trigger] order[j] as int,
        )
}

/// Whether exactly the entries from `lo` up to `hi` are listed.
pub open spec fn lists_range(order: Seq<usize>, lo: int, hi: int) -> bool {
    &&& forall|i: int| 0 <= i < order.len() ==> lo <= #[trigger] order[i] < hi
    &&& forall|k: int| lo <= k < hi ==> #[trigger] is_listed(order, k)
}

/// Whether an entry is listed.
pub open spec fn is_listed(order: Seq<usize>, k: int) -> bool {
    exists|i: int| 0 <= i < order.len() && order[i] == k
}

/// The stable descending order: every entry once, higher ranks first, and entries of equal
/// rank in the order in which they came.
pub open spec fn is_stable_order(ranks: Seq<i64>, order: Seq<usize>) -> bool {
    &&& order.len() == ranks.len()
    &&& is_ordered(ranks, order)
    &&& lists_range(order, 0, ranks.len() as int)
}

/// Merges two ordered lists, of the entries from `lo` up to `mid` and from `mid` up to `hi`.
fn merge(ranks: &Vec<i64>, a: &Vec<usize>, b: &Vec<usize>, lo: usize, mid: usize, hi: usize) -> (r:
    Vec<usize>)
    requires
        lo <= mid <= hi <= ranks@.len(),
        is_ordered(ranks@, a@),
        is_ordered(ranks@, b@),
        lists_range(a@, lo as int, mid as int),
        lists_range(b@, mid as int, hi as int),
        a@.len() == mid - lo,
        b@.len() == hi - mid,
    ensures
        is_ordered(ranks@, r@),
        lists_range(r@, lo as int, hi as int),
        r@.len() == hi - lo,
{
    let mut out: Vec<usize> = Vec::new();
    let mut i: usize = 0;
    let mut j: usize = 0;
    while i < a.len() || j < b.len()
        invariant
            lo <= mid <= hi <= ranks@.len(),
            is_ordered(ranks@, a@),
            is_ordered(ranks@, b@),
            lists_range(a@, lo as int, mid as int),
            lists_range(b@, mid as int, hi as int),
            i <= a@.len(),
            j <= b@.len(),
            out@.len() == i + j,
            is_ordered(ranks@, out@),
            forall|k: int| 0 <= k < out@.len() ==> lo <= #[trigger] out@[k] < hi,
            forall|k: int, m: int|
                0 <= k < out@.len() && i <= m < a@.len() ==> stands_before(
                    ranks@,
                    #[trigger] out@[k] as int,
                    #[trigger] a@[m] as int,
                ),
            forall|k: int, m: int|
                0 <= k < out@.len() && j <= m < b@.len() ==> stands_before(
                    ranks@,
                    #[trigger] out@[k] as int,
                    #[trigger] b@[m] as int,
                ),
            forall|m: int| 0 <= m < i ==> is_listed(out@, #[trigger] a@[m] as int),
            forall|m: int| 0 <= m < j ==> is_listed(out@, #[trigger] b@[m] as int),
        decreases a@.len() - i + b@.len() - j,
    {
        let ghost before = out@;
        let take_a: bool = if i < a.len() && j < b.len() {
            ranks[a[i]] >= ranks[b[j]]
        } else {
            i < a.len()
        };
        if take_a {
            let next: usize = a[i];
            proof {
                assert forall|m: int| j <= m < b@.len() implies stands_before(
                    ranks@,
                    next as int,
                    #[trigger] b@[m] as int,
                ) by {
                    assert(stands_before(ranks@, b@[j as int] as int, b@[m] as int) || m == j);
                }
            }
            out.push(next);
            i = i + 1;
        } else {
            let next: usize = b[j];
            proof {
                assert forall|m: int| i <= m < a@.len() implies stands_before(
                    ranks@,
                    next as int,
                    #[trigger] a@[m] as int,
                ) by {
                    assert(stands_before(ranks@, a@[i as int] as int, a@[m] as int) || m == i);
                }
            }
            out.push(next);
            j = j + 1;
        }
        proof {
            let n = before.len() as int;
            assert forall|x: int| #[trigger] is_listed(before, x) implies is_listed(out@, x) by {
                let k = choose|k: int| 0 <= k < before.len() && before[k] == x;
                assert(out@[k] == x);
            }
            assert(out@[n] == (if take_a {
                a@[i - 1]
            } else {
                b@[j - 1]
            }));
            assert(is_listed(out@, out@[n] as int));
        }
    }
    proof {
        assert forall|k: int| lo <= k < hi implies #[trigger] is_listed(out@, k) by {
            if k < mid {
                assert(is_listed(a@, k));
                let m = choose|m: int| 0 <= m < a@.len() && a@[m] == k;
                assert(is_listed(out@, a@[m] as int));
            } else {
                assert(is_listed(b@, k));
                let m = choose|m: int| 0 <= m < b@.len() && b@[m] == k;
                assert(is_listed(out@, b@[m] as int));
            }
        }
    }
    out
}

/// Orders the entries from `lo` up to `hi`.
fn order_range(ranks: &Vec<i64>, lo: usize, hi: usize) -> (r: Vec<usize>)
    requires
        lo <= hi <= ranks@.len(),
    ensures
        is_ordered(ranks@, r@),
        lists_range(r@, lo as int, hi as int),
        r@.len() == hi - lo,
    decreases hi - lo,
{
    if hi - lo == 0 {
        return Vec::new();
    }
    if hi - lo == 1 {
        let mut one: Vec<usize> = Vec::new();
        one.push(lo);
        assert(one@[0] == lo);
        assert(is_listed(one@, lo as int));
        return one;
    }
    let mid: usize = lo + (hi - lo) / 2;
    let a = order_range(ranks, lo, mid);
    let b = order_range(ranks, mid, hi);
    merge(ranks, &a, &b, lo, mid, hi)
}

/// The stable descending order of ranked entries, as the list of their indices.
pub fn stable_order(ranks: &Vec<i64>) -> (r: Vec<usize>)
    ensures
        is_stable_order(ranks@, r@),
{
    order_range(ranks, 0, ranks.len())
}

/// In an ordered list no entry occurs twice.
proof fn lemma_ordered_distinct(ranks: Seq<i64>, order: Seq<usize>, i: int, j: int)
    requires
        is_ordered(ranks, order),
        0 <= i < order.len(),
        0 <= j < order.len(),
        order[i] == order[j],
    ensures
        i == j,
{
    if i < j {
        assert(stands_before(ranks, order[i] as int, order[j] as int));
    } else if j < i {
        assert(stands_before(ranks, order[j] as int, order[i] as int));
    }
}

/// Entries have one stable descending order.
pub proof fn law_stable_order_is_unique(ranks: Seq<i64>, a: Seq<usize>, b: Seq<usize>)
    requires
        is_stable_order(ranks, a),
        is_stable_order(ranks, b),
    ensures
        a == b,
{
    assert forall|n: int| 0 <= n <= a.len() implies a.take(n) == b.take(n) by {
        lemma_same_prefix(ranks, a, b, n);
    }
    assert(a.take(a.len() as int) == a);
    assert(b.take(a.len() as int) == b);
}

/// Two stable descending orders of the same entries agree as far as one looks.
proof fn lemma_same_prefix(ranks: Seq<i64>, a: Seq<usize>, b: Seq<usize>, n: int)
    requires
        is_stable_order(ranks, a),
        is_stable_order(ranks, b),
        0 <= n <= a.len(),
    ensures
        a.take(n) == b.take(n),
    decreases n,
{
    if n == 0 {
        assert(a.take(0) =~= b.take(0));
    } else {
        let m = n - 1;
        lemma_same_prefix(ranks, a, b, m);
        assert forall|k: int| 0 <= k < m implies a[k] == b[k] by {
            assert(a.take(m)[k] == b.take(m)[k]);
        }
        let x = a[m] as int;
        let y = b[m] as int;
        assert(is_listed(b, x));
        assert(is_listed(a, y));
        let p = choose|p: int| 0 <= p < b.len() && b[p] == x;
        let q = choose|q: int| 0 <= q < a.len() && a[q] == y;
        if p < m {
            assert(a[p] == b[p]);
            lemma_ordered_distinct(ranks, a, p, m);
        }
        if q < m {
            assert(a[q] == b[q]);
            lemma_ordered_distinct(ranks, b, q, m);
        }
        if p > m && q > m {
            assert(stands_before(ranks, b[m] as int, b[p] as int));
            assert(stands_before(ranks, a[m] as int, a[q] as int));
        }
        assert(a[m] == b[m]);
        assert(a.take(n) =~= b.take(n));
    }
}

/// A list that is ordered already is left as it is.
pub proof fn law_descending_ranks_keep_their_order(ranks: Seq<i64>, order: Seq<usize>)
    requires
        is_stable_order(ranks, order),
        forall|i: int, j: int| 0 <= i < j < ranks.len() ==> ranks[i] >= ranks[j],
        ranks.len() <= usize::MAX,
    ensures
        forall|i: int| 0 <= i < order.len() ==> #[trigger] order[i] == i,
{
    let same = Seq::new(ranks.len(), |i: int| i as usize);
    assert(is_stable_order(ranks, same)) by {
        assert forall|k: int| 0 <= k < ranks.len() implies #[trigger] is_listed(same, k) by {
            assert(same[k] == k);
        }
    }
    law_stable_order_is_unique(ranks, order, same);
}

} // verus!
