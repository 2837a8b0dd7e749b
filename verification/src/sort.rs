//! Quicksort on a vector of integers, in place.

use vstd::prelude::*;

verus! {

/// The elements stand in ascending order.
pub open spec fn sorted(s: Seq<i32>) -> bool {
    forall|i: int, j: int| 0 <= i <= j < s.len() ==> s[i] <= s[j]
}

/// The elements from `lo` up to `hi` stand in ascending order.
pub open spec fn sorted_between(s: Seq<i32>, lo: int, hi: int) -> bool {
    forall|i: int, j: int| lo <= i <= j < hi ==> s[i] <= s[j]
}

/// The elements from `lo` up to `hi` lie between `least` and `most`.
pub open spec fn bounded_between(s: Seq<i32>, lo: int, hi: int, least: int, most: int) -> bool {
    forall|k: int| lo <= k < hi ==> least <= #[trigger] s[k] <= most
}

/// Two sequences hold the same elements outside the places from `lo` up to `hi`.
pub open spec fn same_outside(a: Seq<i32>, b: Seq<i32>, lo: int, hi: int) -> bool {
    a.len() == b.len() && forall|k: int|
        0 <= k < a.len() && !(lo <= k < hi) ==> #[trigger] a[k] == b[k]
}

/// Exchanges two elements.
fn swap(arr: &mut Vec<i32>, i: usize, j: usize)
    requires
        i < old(arr).len(),
        j < old(arr).len(),
    ensures
        final(arr)@ == old(arr)@.update(i as int, old(arr)@[j as int]).update(
            j as int,
            old(arr)@[i as int],
        ),
        final(arr)@.to_multiset() == old(arr)@.to_multiset(),
{
    let ghost s = arr@;
    let a = arr[i];
    let b = arr[j];
    arr[i] = b;
    arr[j] = a;
    proof {
        let s1 = s.update(i as int, b);
        vstd::seq_lib::to_multiset_update(s, i as int, b);
        vstd::seq_lib::to_multiset_update(s1, j as int, a);
        vstd::seq_lib::to_multiset_contains(s, a);
        vstd::seq_lib::to_multiset_contains(s, b);
        assert(s.contains(a)) by {
            assert(s[i as int] == a);
        }
        assert(s.contains(b)) by {
            assert(s[j as int] == b);
        }
        assert(s1[j as int] == b);
        assert(s.to_multiset().insert(b).remove(a).insert(a).remove(b) =~= s.to_multiset());
    }
}

/// Partitions the elements from `lo` up to `hi` around the last of them.
fn partition_range(
    arr: &mut Vec<i32>,
    lo: usize,
    hi: usize,
    Ghost(least): Ghost<int>,
    Ghost(most): Ghost<int>,
) -> (p: usize)
    requires
        lo < hi <= old(arr).len(),
        bounded_between(old(arr)@, lo as int, hi as int, least, most),
    ensures
        lo <= p < hi,
        same_outside(final(arr)@, old(arr)@, lo as int, hi as int),
        final(arr)@.to_multiset() == old(arr)@.to_multiset(),
        final(arr)@[p as int] == old(arr)@[hi - 1],
        forall|k: int| lo <= k < p ==> final(arr)@[k] <= final(arr)@[p as int],
        forall|k: int| p < k < hi ==> final(arr)@[k] > final(arr)@[p as int],
        bounded_between(final(arr)@, lo as int, hi as int, least, most),
{
    let pivot = arr[hi - 1];
    let mut i: usize = lo;
    let mut j: usize = lo;
    while j < hi - 1
        invariant
            lo <= i <= j <= hi - 1,
            hi <= arr.len(),
            arr@[hi - 1] == pivot,
            pivot == old(arr)@[hi - 1],
            same_outside(arr@, old(arr)@, lo as int, hi as int),
            arr@.to_multiset() == old(arr)@.to_multiset(),
            forall|k: int| lo <= k < i ==> arr@[k] <= pivot,
            forall|k: int| i <= k < j ==> arr@[k] > pivot,
            bounded_between(arr@, lo as int, hi as int, least, most),
        decreases hi - 1 - j,
    {
        if arr[j] <= pivot {
            swap(arr, i, j);
            i += 1;
        }
        j += 1;
    }
    swap(arr, i, hi - 1);
    i
}

/// Sorts the elements from `lo` up to `hi`.
fn quicksort_range(
    arr: &mut Vec<i32>,
    lo: usize,
    hi: usize,
    Ghost(least): Ghost<int>,
    Ghost(most): Ghost<int>,
)
    requires
        lo <= hi <= old(arr).len(),
        bounded_between(old(arr)@, lo as int, hi as int, least, most),
    ensures
        same_outside(final(arr)@, old(arr)@, lo as int, hi as int),
        final(arr)@.to_multiset() == old(arr)@.to_multiset(),
        sorted_between(final(arr)@, lo as int, hi as int),
        bounded_between(final(arr)@, lo as int, hi as int, least, most),
    decreases hi - lo,
{
    if hi - lo <= 1 {
        return;
    }
    let p = partition_range(arr, lo, hi, Ghost(least), Ghost(most));
    let ghost pivot = arr@[p as int] as int;
    let ghost parted = arr@;
    assert(bounded_between(arr@, lo as int, p as int, least, pivot));
    quicksort_range(arr, lo, p, Ghost(least), Ghost(pivot));
    let ghost left_done = arr@;
    assert(bounded_between(arr@, p as int + 1, hi as int, pivot + 1, most)) by {
        assert forall|k: int| p < k < hi implies pivot + 1 <= #[trigger] arr@[k] <= most by {
            assert(arr@[k] == parted[k]);
        }
    }
    quicksort_range(arr, p + 1, hi, Ghost(pivot + 1), Ghost(most));
    proof {
        assert(arr@[p as int] == pivot);
        assert forall|k: int| lo <= k < p implies arr@[k] == left_done[k] by {}
        assert forall|a: int, b: int| lo <= a <= b < hi implies arr@[a] <= arr@[b] by {
            if b < p {
                assert(left_done[a] <= left_done[b]);
            } else if a > p {
            } else {
                if a < p {
                    assert(least <= left_done[a] <= pivot);
                }
                if b > p {
                    assert(pivot + 1 <= arr@[b]);
                }
            }
        }
        assert forall|k: int| lo <= k < hi implies least <= #[trigger] arr@[k] <= most by {
            if k < p {
                assert(least <= left_done[k] <= pivot);
            } else if k > p {
                assert(pivot + 1 <= arr@[k] <= most);
            }
        }
    }
}

/// Partitions the vector around its last element: that element comes to
/// stand at the place returned, with nothing greater before it and nothing
/// but greater elements after it. The vector holds the same elements as before.
pub fn partition(arr: &mut Vec<i32>) -> (p: usize)
    requires
        old(arr).len() > 0,
    ensures
        p < final(arr).len(),
        final(arr).len() == old(arr).len(),
        final(arr)@.to_multiset() == old(arr)@.to_multiset(),
        final(arr)@[p as int] == old(arr)@.last(),
        forall|k: int| 0 <= k < p ==> final(arr)@[k] <= final(arr)@[p as int],
        forall|k: int| p < k < final(arr).len() ==> final(arr)@[k] > final(arr)@[p as int],
{
    let len = arr.len();
    partition_range(arr, 0, len, Ghost(i32::MIN as int), Ghost(i32::MAX as int))
}

/// Sorts the vector in ascending order: afterwards it holds the same
/// elements as before, each as often, in order.
pub fn quicksort(arr: &mut Vec<i32>)
    ensures
        sorted(final(arr)@),
        final(arr)@.to_multiset() == old(arr)@.to_multiset(),
{
    let len = arr.len();
    quicksort_range(arr, 0, len, Ghost(i32::MIN as int), Ghost(i32::MAX as int));
}

} // verus!
