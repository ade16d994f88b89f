//! Index ranking utility.

use vstd::prelude::*;
use crate::scalar::lt_s;

verus! {

/// `r` holds each index `0..n` exactly once: every element is in range and no
/// element repeats.
pub open spec fn permutation_of(r: Seq<usize>, n: int) -> bool {
    &&& r.len() == n
    &&& forall|k: int| 0 <= k < n ==> (#[trigger] r[k]) < n
    &&& forall|k1: int, k2: int| 0 <= k1 < k2 < n ==> r[k1] != r[k2]
}

/// Returns the indices of the elements of `values` sorted by descending
/// value, as a permutation of `0..values.len()`.
///
/// The comparison is the scalar's strict `<` only, so the relative order of
/// exactly-equal values is unspecified.
///
/// For example, `[0.5, 0.3, 0.8, 0.7, 0.4]` returns `[2, 3, 0, 4, 1]`.
pub fn sort_indices_descending<T: Copy + num::Float>(values: &[T]) -> (r: Vec<usize>)
    ensures
        permutation_of(r@, values@.len() as int),
{
    let n = values.len();
    let mut inds: Vec<usize> = Vec::new();
    for i in 0..n
        invariant
            inds@.len() == i,
            forall|k: int| 0 <= k < i ==> (#[trigger] inds@[k]) == k,
    {
        inds.push(i);
    }
    let mut pass: usize = 0;
    while pass < n
        invariant
            n == values@.len(),
            permutation_of(inds@, n as int),
        decreases n - pass,
    {
        let mut k: usize = 0;
        while k + 1 < n
            invariant
                n == values@.len(),
                permutation_of(inds@, n as int),
                k < n || k == 0,
            decreases n - k,
        {
            if lt_s(values[inds[k]], values[inds[k + 1]]) {
                let a = inds[k];
                let b = inds[k + 1];
                inds.set(k, b);
                inds.set(k + 1, a);
            }
            k = k + 1;
        }
        pass = pass + 1;
    }
    inds
}

} // verus!
