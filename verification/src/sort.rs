//! The worst-case sort benchmark: filling a buffer in reverse order,
//! bubble-sorting it, and checking the result.

use vstd::prelude::*;

verus! {

/// Whether a sequence of numbers is in nondecreasing order.
pub open spec fn sorted(s: Seq<i32>) -> bool {
    forall|i: int, j: int| 0 <= i <= j < s.len() ==> s[i] <= s[j]
}

/// Whether every element at or before position `j` is at most the element
/// at position `j`: the element at `j` is a maximum of the prefix ending there.
pub open spec fn max_of_prefix(s: Seq<i32>, j: int) -> bool {
    forall|k: int| 0 <= k <= j ==> s[k] <= s[j]
}

/// Fill a buffer with `n`, `n - 1`, ..., `1`: reverse order, the worst case
/// for a bubble sort.
pub fn fill_reversed(n: usize) -> (v: Vec<i32>)
    requires
        n <= i32::MAX,
    ensures
        v@.len() == n,
        forall|i: int| 0 <= i < n ==> v@[i] == n - i,
{
    let mut v: Vec<i32> = Vec::new();
    for i in 0..n
        invariant
            n <= i32::MAX,
            v@.len() == i,
            forall|k: int| 0 <= k < i ==> v@[k] == n - k,
    {
        v.push((n - i) as i32);
    }
    v
}

/// Whether a slice is in nondecreasing order. The first element must exist.
pub fn is_sorted(arr: &[i32]) -> (r: bool)
    requires
        arr@.len() >= 1,
    ensures
        r == sorted(arr@),
{
    let n = arr.len();
    let mut i: usize = 0;
    while i < n - 1
        invariant
            n == arr@.len(),
            1 <= n,
            i < n,
            forall|p: int, q: int| 0 <= p <= q <= i ==> arr@[p] <= arr@[q],
        decreases n - 1 - i,
    {
        if arr[i] > arr[i + 1] {
            return false;
        }
        i = i + 1;
    }
    true
}

/// Bubble sort: sorts the buffer in place and keeps exactly its elements.
pub fn bubble_sort(v: &mut Vec<i32>)
    ensures
        final(v)@.len() == old(v)@.len(),
        sorted(final(v)@),
        final(v)@.to_multiset() == old(v)@.to_multiset(),
{
    let len = v.len();
    for i in 0..len
        invariant
            v@.len() == len,
            v@.to_multiset() == old(v)@.to_multiset(),
            forall|p: int, q: int| len - i <= p <= q < len ==> v@[p] <= v@[q],
            forall|p: int, q: int| 0 <= p < len - i && len - i <= q < len ==> v@[p] <= v@[q],
    {
        for j in 0..len - i - 1
            invariant
                i < len,
                v@.len() == len,
                v@.to_multiset() == old(v)@.to_multiset(),
                forall|p: int, q: int| len - i <= p <= q < len ==> v@[p] <= v@[q],
                forall|p: int, q: int| 0 <= p < len - i && len - i <= q < len ==> v@[p] <= v@[q],
                max_of_prefix(v@, j as int),
        {
            if v[j] > v[j + 1] {
                let a = v[j];
                let b = v[j + 1];
                let ghost before = v@;
                v.set(j, b);
                let ghost mid = v@;
                v.set(j + 1, a);
                proof {
                    broadcast use vstd::seq_lib::group_to_multiset_ensures;
                    broadcast use vstd::multiset::group_multiset_axioms;
                    broadcast use vstd::multiset::group_multiset_properties;

                    assert(before.contains(a));
                    assert(before.to_multiset().count(a) > 0);
                    assert(mid.to_multiset() == before.to_multiset().insert(b).remove(a));
                    assert(v@.to_multiset() == mid.to_multiset().insert(a).remove(b));
                    assert(v@.to_multiset() =~= before.to_multiset());
                }
            }
        }
    }
}

/// The sort benchmark stage: build the reverse-ordered buffer, sort it, and
/// run the self-check. The check is proved to pass: the result is always true.
pub fn sort_benchmark(n: usize) -> (ok: bool)
    requires
        1 <= n <= i32::MAX,
    ensures
        ok,
{
    let mut numbers = fill_reversed(n);
    bubble_sort(&mut numbers);
    is_sorted(numbers.as_slice())
}

} // verus!
