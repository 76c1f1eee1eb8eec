//! Bisection over an index range, driven by a three-way comparator.

use std::cmp::Ordering;
use vstd::prelude::*;

verus! {

/// Position of an answer in the order in which a well-behaved comparator
/// gives them, from the low end of the range to the high end.
pub open spec fn rank(o: Ordering) -> int {
    match o {
        Ordering::Less => 0,
        Ordering::Equal => 1,
        Ordering::Greater => 2,
    }
}

/// The comparator splits `[start, end)` into a run of `Less`, then a run of
/// `Equal`, then a run of `Greater`, and answers each index in one way only.
pub open spec fn partitioned<F: Fn(usize) -> Ordering>(cmp: F, start: usize, end: usize) -> bool {
    forall|i: usize, j: usize, a: Ordering, b: Ordering|
        start <= i <= j < end && #[trigger] call_ensures(cmp, (i,), a) && #[trigger] call_ensures(
            cmp,
            (j,),
            b,
        ) ==> rank(a) <= rank(b)
}

/// The index just below `b`.
pub open spec fn before(b: usize) -> usize {
    if b > 0 {
        (b - 1) as usize
    } else {
        0
    }
}

/// The search came to rest at `b`: the index just below `b`, if the range
/// holds it, was answered with `Less`, and `b` itself, if the range holds it,
/// with `Greater`.
pub open spec fn rests_at<F: Fn(usize) -> Ordering>(
    cmp: F,
    start: usize,
    end: usize,
    b: usize,
) -> bool {
    &&& start <= b <= end
    &&& start < b ==> call_ensures(cmp, (before(b),), Ordering::Less)
    &&& b < end ==> call_ensures(cmp, (b,), Ordering::Greater)
}

/// Searches `[start, end)` for an index that `cmp` answers with `Equal`.
///
/// `Greater` at an index sends the search below it, `Less` above it. An index
/// that is returned was answered with `Equal`. Where none is returned, the
/// search has seen `Less` and `Greater` at two neighbouring places; over a
/// partitioned range no index can then be answered with `Equal`.
pub fn binary_search<F: Fn(usize) -> Ordering>(start: usize, end: usize, cmp: F) -> (r: Option<
    usize,
>)
    requires
        forall|i: usize| start <= i < end ==> call_requires(cmp, (i,)),
    ensures
        r matches Some(i) ==> start <= i < end && call_ensures(cmp, (i,), Ordering::Equal),
        r is None ==> start >= end || exists|b: usize| rests_at(cmp, start, end, b),
        r is None && partitioned(cmp, start, end) ==> forall|i: usize, o: Ordering|
            start <= i < end && call_ensures(cmp, (i,), o) ==> o != Ordering::Equal,
    decreases end - start,
{
    if start >= end {
        return None;
    }
    let half = (end - start) / 2;
    let mid = start + half;
    match cmp(mid) {
        Ordering::Greater => {
            let r = binary_search(start, mid, cmp);
            proof {
                if r is None {
                    if start >= mid {
                        assert(rests_at(cmp, start, end, mid));
                    } else {
                        let b = choose|b: usize| rests_at(cmp, start, mid, b);
                        assert(rests_at(cmp, start, end, b));
                    }
                    lemma_rest_excludes_equal(cmp, start, end);
                }
            }
            r
        },
        Ordering::Equal => Some(mid),
        Ordering::Less => {
            let above = mid + 1;
            let r = binary_search(above, end, cmp);
            proof {
                if r is None {
                    if above >= end {
                        assert(rests_at(cmp, start, end, above));
                    } else {
                        let b = choose|b: usize| rests_at(cmp, above, end, b);
                        assert(rests_at(cmp, start, end, b));
                    }
                    lemma_rest_excludes_equal(cmp, start, end);
                }
            }
            r
        },
    }
}

/// Over a partitioned range in which the search came to rest, no index can be
/// answered with `Equal`.
pub proof fn lemma_rest_excludes_equal<F: Fn(usize) -> Ordering>(cmp: F, start: usize, end: usize)
    requires
        exists|b: usize| rests_at(cmp, start, end, b),
    ensures
        partitioned(cmp, start, end) ==> forall|i: usize, o: Ordering|
            start <= i < end && call_ensures(cmp, (i,), o) ==> o != Ordering::Equal,
{
    let b = choose|b: usize| rests_at(cmp, start, end, b);
    if partitioned(cmp, start, end) {
        assert forall|i: usize, o: Ordering|
            start <= i < end && call_ensures(cmp, (i,), o) implies o != Ordering::Equal by {
            if i < b {
                assert(call_ensures(cmp, (before(b),), Ordering::Less));
                assert(rank(o) <= rank(Ordering::Less));
            } else {
                assert(call_ensures(cmp, (b,), Ordering::Greater));
                assert(rank(Ordering::Greater) <= rank(o));
            }
        }
    }
}

} // verus!
