//! Small helpers on vectors of copyable values.

use vstd::prelude::*;

verus! {

/// A vector of `n` copies of `value`.
pub(crate) fn filled<T: Copy>(n: usize, value: T) -> (v: Vec<T>)
    ensures
        v@ == Seq::new(n as nat, |i: int| value),
{
    let mut v: Vec<T> = Vec::new();
    let mut i: usize = 0;
    while i < n
        invariant
            i <= n,
            v@.len() == i,
            forall|j: int| 0 <= j < i ==> v@[j] == value,
        decreases n - i,
    {
        v.push(value);
        i = i + 1;
    }
    assert(v@ =~= Seq::new(n as nat, |i: int| value));
    v
}

/// A vector with the elements of `source`.
pub(crate) fn copied<T: Copy>(source: &[T]) -> (v: Vec<T>)
    ensures
        v@ == source@,
{
    let n = source.len();
    let mut v: Vec<T> = Vec::new();
    let mut i: usize = 0;
    while i < n
        invariant
            i <= n,
            n == source@.len(),
            v@ == source@.subrange(0, i as int),
        decreases n - i,
    {
        v.push(source[i]);
        i = i + 1;
    }
    assert(source@.subrange(0, n as int) =~= source@);
    v
}

} // verus!
