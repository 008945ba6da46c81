//! The largest of the last `N` values seen, for tuning constants by watching
//! a signal's peaks.
use vstd::prelude::*;

verus! {

/// `m` is the largest element of the non-empty `s`.
pub open spec fn is_max(s: Seq<i64>, m: int) -> bool {
    &&& forall|i: int| 0 <= i < s.len() ==> s[i] <= m
    &&& exists|i: int| 0 <= i < s.len() && s[i] == m
}

/// A ring of the last `N` values; slots not yet written hold zero.
pub struct MaxOverN<const N: usize> {
    pub last_n: [i64; N],
    pub position: usize,
}

impl<const N: usize> MaxOverN<N> {
    pub open spec fn wf(&self) -> bool {
        0 < N && self.position < N
    }

    pub fn new() -> (r: Self)
        requires
            0 < N,
        ensures
            r.wf(),
            r.position == 0,
            forall|i: int| 0 <= i < N ==> r.last_n[i] == 0,
    {
        MaxOverN { last_n: [0i64; N], position: 0 }
    }

    /// Records `new` over the oldest value and returns the largest of the
    /// last `N` values.
    pub fn get(&mut self, new: i64) -> (r: i64)
        requires
            old(self).wf(),
        ensures
            final(self).wf(),
            final(self).last_n@ == old(self).last_n@.update(old(self).position as int, new),
            final(self).position == (old(self).position + 1) % (N as int),
            is_max(final(self).last_n@, r as int),
    {
        self.last_n[self.position] = new;
        self.position = (self.position + 1) % N;
        let mut max = self.last_n[0];
        let mut i: usize = 1;
        while i < N
            invariant
                1 <= i <= N,
                N == self.last_n@.len(),
                forall|k: int| 0 <= k < i ==> self.last_n[k] <= max,
                exists|k: int| 0 <= k < i && self.last_n[k] == max,
            decreases N - i,
        {
            if self.last_n[i] > max {
                max = self.last_n[i];
            }
            i = i + 1;
        }
        max
    }
}

} // verus!
