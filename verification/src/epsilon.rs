//! The distinct exploration rates of a plan's lanes, in ascending order.

use crate::execution_plan::NativeTacticLanePlan;
use vstd::prelude::*;

verus! {

pub open spec fn strictly_ascending(s: Seq<u32>) -> bool {
    forall|i: int, j: int| 0 <= i < j < s.len() ==> s[i] < s[j]
}

/// `s` lists, in ascending order and once each, the exploration rates of
/// `lanes`.
pub open spec fn distinct_lane_rates(s: Seq<u32>, lanes: Seq<NativeTacticLanePlan>) -> bool {
    &&& strictly_ascending(s)
    &&& forall|x: u32| s.contains(x) <==> exists|i: int| 0 <= i < lanes.len() && (#[trigger] lanes[i]).epsilon_per_million == x
}

/// Two ascending lists of the same elements are the same list.
pub proof fn lemma_ascending_sets_equal(a: Seq<u32>, b: Seq<u32>)
    requires
        strictly_ascending(a),
        strictly_ascending(b),
        forall|x: u32| a.contains(x) <==> b.contains(x),
    ensures
        a == b,
    decreases a.len(),
{
    if a.len() == 0 {
        if b.len() > 0 {
            assert(b.contains(b[0]));
        }
        assert(a =~= b);
    } else {
        assert(a.contains(a[0]));
        assert(b.len() > 0);
        assert(b.contains(b[0]));
        let ja = choose|j: int| 0 <= j < b.len() && b[j] == a[0];
        let jb = choose|j: int| 0 <= j < a.len() && a[j] == b[0];
        assert(a[0] == b[0]) by {
            if a[0] < b[0] {
                if ja > 0 {
                    assert(b[0] < b[ja]);
                }
            } else if a[0] > b[0] {
                if jb > 0 {
                    assert(a[0] < a[jb]);
                }
            }
        }
        let ra = a.drop_first();
        let rb = b.drop_first();
        assert forall|x: u32| ra.contains(x) <==> rb.contains(x) by {
            if ra.contains(x) {
                let k = choose|k: int| 0 <= k < ra.len() && ra[k] == x;
                assert(a[k + 1] == x);
                assert(a.contains(x));
                let m = choose|m: int| 0 <= m < b.len() && b[m] == x;
                assert(x > a[0]);
                assert(m != 0);
                assert(rb[m - 1] == x);
            }
            if rb.contains(x) {
                let k = choose|k: int| 0 <= k < rb.len() && rb[k] == x;
                assert(b[k + 1] == x);
                assert(b.contains(x));
                let m = choose|m: int| 0 <= m < a.len() && a[m] == x;
                assert(x > b[0]);
                assert(m != 0);
                assert(ra[m - 1] == x);
            }
        }
        lemma_ascending_sets_equal(ra, rb);
        assert(a =~= b) by {
            assert forall|i: int| 0 <= i < a.len() implies a[i] == b[i] by {
                if i > 0 {
                    assert(a[i] == ra[i - 1]);
                    assert(b[i] == rb[i - 1]);
                }
            }
        }
    }
}

/// Adds `x` to the ascending list `v` unless it is already there.
fn insert_ascending(v: &Vec<u32>, x: u32) -> (r: Vec<u32>)
    requires
        strictly_ascending(v@),
    ensures
        strictly_ascending(r@),
        forall|y: u32| r@.contains(y) <==> (v@.contains(y) || y == x),
{
    let mut out: Vec<u32> = Vec::new();
    let mut p: usize = 0;
    while p < v.len() && v[p] < x
        invariant
            p <= v@.len(),
            strictly_ascending(v@),
            out@ == v@.take(p as int),
            forall|k: int| 0 <= k < p ==> v@[k] < x,
        decreases v@.len() - p,
    {
        out.push(v[p]);
        p = p + 1;
        assert(out@ =~= v@.take(p as int));
    }
    let duplicate = p < v.len() && v[p] == x;
    if !duplicate {
        out.push(x);
    }
    let ghost head = out@;
    let mut q: usize = p;
    while q < v.len()
        invariant
            p <= q <= v@.len(),
            strictly_ascending(v@),
            forall|k: int| 0 <= k < p ==> v@[k] < x,
            p < v@.len() ==> v@[p as int] >= x,
            head == if duplicate { v@.take(p as int) } else { v@.take(p as int).push(x) },
            out@ == head + v@.subrange(p as int, q as int),
        decreases v@.len() - q,
    {
        out.push(v[q]);
        q = q + 1;
        assert(out@ =~= head + v@.subrange(p as int, q as int));
    }
    proof {
        assert(v@.subrange(p as int, v@.len() as int) =~= v@.skip(p as int));
        let tail = v@.skip(p as int);
        assert forall|i: int, j: int| 0 <= i < j < out@.len() implies out@[i] < out@[j] by {
            let h = head.len() as int;
            if j < h {
                if !duplicate && j == h - 1 {
                    assert(out@[j] == x);
                    assert(out@[i] == v@[i]);
                } else {
                    assert(out@[i] == v@[i]);
                    assert(out@[j] == v@[j]);
                }
            } else if i < h {
                assert(out@[j] == v@[p + j - h]);
                if !duplicate && i == h - 1 {
                    assert(out@[i] == x);
                    if duplicate {
                    } else {
                        if p + j - h == p {
                            assert(v@[p as int] != x);
                        } else {
                            assert(v@[p as int] < v@[p + j - h]);
                        }
                    }
                } else {
                    assert(out@[i] == v@[i]);
                    assert(i < p);
                }
            } else {
                assert(out@[i] == v@[p + i - h]);
                assert(out@[j] == v@[p + j - h]);
            }
        }
        assert forall|y: u32| out@.contains(y) <==> (v@.contains(y) || y == x) by {
            let h = head.len() as int;
            if out@.contains(y) {
                let k = choose|k: int| 0 <= k < out@.len() && out@[k] == y;
                if k < h {
                    if !duplicate && k == h - 1 {
                    } else {
                        assert(v@[k] == y);
                    }
                } else {
                    assert(v@[p + k - h] == y);
                }
            }
            if v@.contains(y) {
                let k = choose|k: int| 0 <= k < v@.len() && v@[k] == y;
                if k < p {
                    assert(out@[k] == y);
                } else {
                    assert(out@[h + k - p] == y);
                }
            }
            if y == x {
                if duplicate {
                    assert(out@[h] == v@[p as int]);
                } else {
                    assert(out@[h - 1] == x);
                }
            }
        }
    }
    out
}

/// The distinct exploration rates of `lanes`, ascending.
pub fn lane_exploration_rates(lanes: &Vec<NativeTacticLanePlan>) -> (r: Vec<u32>)
    ensures
        distinct_lane_rates(r@, lanes@),
{
    let mut rates: Vec<u32> = Vec::new();
    let mut i: usize = 0;
    while i < lanes.len()
        invariant
            i <= lanes@.len(),
            strictly_ascending(rates@),
            forall|x: u32| rates@.contains(x) <==> exists|k: int| 0 <= k < i && (#[trigger] lanes@[k]).epsilon_per_million == x,
        decreases lanes@.len() - i,
    {
        let next = insert_ascending(&rates, lanes[i].epsilon_per_million);
        proof {
            assert forall|x: u32| next@.contains(x) <==> exists|k: int| 0 <= k < i + 1 && (#[trigger] lanes@[k]).epsilon_per_million == x by {
                if x == lanes@[i as int].epsilon_per_million {
                    assert(exists|k: int| 0 <= k < i + 1 && (#[trigger] lanes@[k]).epsilon_per_million == x);
                }
                if exists|k: int| 0 <= k < i + 1 && (#[trigger] lanes@[k]).epsilon_per_million == x {
                    let k = choose|k: int| 0 <= k < i + 1 && (#[trigger] lanes@[k]).epsilon_per_million == x;
                    if k < i {
                        assert(rates@.contains(x));
                    }
                }
            }
        }
        rates = next;
        i = i + 1;
    }
    rates
}

} // verus!
