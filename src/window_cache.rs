use vstd::prelude::*;

use crate::error::HannWindowError;
use crate::window::{
    accepts_all_samples, calculate_hann_window_with, is_window_from, length_error,
};

verus! {

/// How many lengths are precomputed.
pub const NUM_COMMON_LENGTHS: usize = 5;

/// The precomputed lengths, in the order the caches store them.
pub open spec fn common_lengths() -> Seq<int> {
    seq![256, 512, 1024, 2048, 4096]
}

/// `n` is one of the precomputed lengths.
pub open spec fn is_common_length(n: int) -> bool {
    n == 256 || n == 512 || n == 1024 || n == 2048 || n == 4096
}

/// The position of a precomputed length in `common_lengths()`.
pub open spec fn common_index(n: int) -> int {
    if n == 256 {
        0
    } else if n == 512 {
        1
    } else if n == 1024 {
        2
    } else if n == 2048 {
        3
    } else {
        4
    }
}

/// The `k`-th precomputed length.
pub fn common_length(k: usize) -> (r: usize)
    requires
        k < NUM_COMMON_LENGTHS,
    ensures
        r == common_lengths()[k as int],
        is_common_length(r as int),
        common_index(r as int) == k,
{
    if k == 0 {
        256
    } else if k == 1 {
        512
    } else if k == 2 {
        1024
    } else if k == 3 {
        2048
    } else {
        4096
    }
}

/// Where `n` stands among the precomputed lengths, if it is one.
pub fn common_length_index(n: usize) -> (r: Option<usize>)
    ensures
        r is Some <==> is_common_length(n as int),
        r is Some ==> r->0 == common_index(n as int) && r->0 < NUM_COMMON_LENGTHS,
{
    if n == 256 {
        Some(0)
    } else if n == 512 {
        Some(1)
    } else if n == 1024 {
        Some(2)
    } else if n == 2048 {
        Some(3)
    } else if n == 4096 {
        Some(4)
    } else {
        None
    }
}

/// Windows precomputed once for each common length, together with the
/// coefficient that computes windows of any other length on demand.
pub struct WindowCache<T, F> {
    coefficient: F,
    windows: Vec<Vec<T>>,
}

impl<T: Copy, F: Fn(usize, usize) -> T> WindowCache<T, F> {
    /// The per-sample coefficient that every window of this cache comes from.
    pub closed spec fn coefficient(&self) -> F {
        self.coefficient
    }

    /// The cached windows, keyed by length.
    pub closed spec fn view(&self) -> Map<int, Seq<T>> {
        Map::new(|n: int| is_common_length(n), |n: int| self.windows@[common_index(n)]@)
    }

    /// One stored window per common length.
    pub closed spec fn holds_all_lengths(&self) -> bool {
        self.windows@.len() == NUM_COMMON_LENGTHS
    }

    /// Every common length, and nothing else, has a cached window, and each is
    /// the window of its length from the cache's coefficient.
    pub open spec fn wf(&self) -> bool {
        &&& self.holds_all_lengths()
        &&& accepts_all_samples(self.coefficient())
        &&& forall|n: int| #[trigger] self@.contains_key(n) <==> is_common_length(n)
        &&& forall|n: int| #[trigger] is_common_length(n) ==> is_window_from(self@[n], n, self.coefficient())
    }

    /// Computes the window of each common length with `coefficient`.
    pub fn new(coefficient: F) -> (r: Self)
        requires
            accepts_all_samples(coefficient),
        ensures
            r.wf(),
            r.coefficient() == coefficient,
    {
        let mut windows: Vec<Vec<T>> = Vec::new();
        let mut k: usize = 0;
        while k < NUM_COMMON_LENGTHS
            invariant
                k <= NUM_COMMON_LENGTHS,
                windows@.len() == k,
                accepts_all_samples(coefficient),
                forall|j: int| 0 <= j < k ==> is_window_from(
                    (#[trigger] windows@[j])@,
                    common_lengths()[j],
                    coefficient,
                ),
            decreases NUM_COMMON_LENGTHS - k,
        {
            let n = common_length(k);
            match calculate_hann_window_with(n, &coefficient) {
                Ok(w) => {
                    windows.push(w);
                },
                Err(_) => {
                    // Every common length is valid, so this arm is never taken.
                    proof {
                        assert(length_error(n as int) is None);
                    }
                    windows.push(Vec::new());
                },
            }
            k = k + 1;
        }
        let r = WindowCache { coefficient, windows };
        assert forall|n: int| #[trigger] is_common_length(n) implies is_window_from(
            r@[n],
            n,
            r.coefficient(),
        ) by {
            assert(common_lengths()[common_index(n)] == n);
            assert(is_window_from(windows@[common_index(n)]@, n, coefficient));
        }
        r
    }

    /// A copy of the cached window of length `n`, if `n` is a common length.
    pub fn lookup(&self, n: usize) -> (r: Option<Vec<T>>)
        requires
            self.wf(),
        ensures
            r is Some <==> is_common_length(n as int),
            r is Some ==> r->0@ == self@[n as int],
    {
        match common_length_index(n) {
            None => None,
            Some(k) => {
                let cached = &self.windows[k];
                let mut copy: Vec<T> = Vec::new();
                let mut i: usize = 0;
                while i < cached.len()
                    invariant
                        i <= cached@.len(),
                        copy@ == cached@.subrange(0, i as int),
                    decreases cached@.len() - i,
                {
                    copy.push(cached[i]);
                    i = i + 1;
                }
                assert(copy@ == cached@.subrange(0, cached@.len() as int));
                assert(copy@ =~= cached@);
                Some(copy)
            },
        }
    }

    /// The window of length `window_length`: the length is checked first, then
    /// a copy of the cached window is returned, or a fresh one computed.
    pub fn get_hann_window(&self, window_length: usize) -> (r: Result<Vec<T>, HannWindowError>)
        requires
            self.wf(),
        ensures
            match length_error(window_length as int) {
                Some(e) => r == Err::<Vec<T>, HannWindowError>(e),
                None => {
                    &&& r is Ok
                    &&& is_window_from(r->Ok_0@, window_length as int, self.coefficient())
                    &&& is_common_length(window_length as int) ==> r->Ok_0@ == self@[window_length as int]
                },
            },
    {
        match crate::window::validate_window_length(window_length) {
            Err(e) => {
                return Err(e);
            },
            Ok(()) => {},
        }
        match self.lookup(window_length) {
            Some(w) => Ok(w),
            None => calculate_hann_window_with(window_length, &self.coefficient),
        }
    }
}

} // verus!
