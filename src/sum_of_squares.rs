use vstd::prelude::*;

use crate::window_cache::{
    common_index, common_length, common_length_index, common_lengths, is_common_length,
    WindowCache, NUM_COMMON_LENGTHS,
};

verus! {

/// `sum_squares` may be called on any window.
pub open spec fn accepts_all_windows<T, S, G: Fn(&Vec<T>) -> S>(sum_squares: G) -> bool {
    forall|w: &Vec<T>| #[trigger] sum_squares.requires((w,))
}

/// `sum_squares` gives the same result on two windows with the same samples.
pub open spec fn depends_on_samples<T, S, G: Fn(&Vec<T>) -> S>(sum_squares: G) -> bool {
    forall|a: &Vec<T>, b: &Vec<T>, x: S, y: S|
        a@ == b@ && #[trigger] sum_squares.ensures((a,), x) && #[trigger] sum_squares.ensures((b,), y)
            ==> x == y
}

/// `s` is what `sum_squares` returned on a window holding the samples `w`.
pub open spec fn is_sum_of<T, S, G: Fn(&Vec<T>) -> S>(sum_squares: G, w: Seq<T>, s: S) -> bool {
    exists|v: &Vec<T>| v@ == w && #[trigger] sum_squares.ensures((v,), s)
}

/// The sum of squares of the window of each common length, taken once from
/// a window cache, together with the function that computes it for any
/// other window.
pub struct SumOfSquaresCache<T, S, G> {
    sum_squares: G,
    sums: Vec<S>,
    source: Ghost<Map<int, Seq<T>>>,
}

impl<T: Copy, S: Copy, G: Fn(&Vec<T>) -> S> SumOfSquaresCache<T, S, G> {
    /// The function that computes a window's sum of squares.
    pub closed spec fn sum_squares(&self) -> G {
        self.sum_squares
    }

    /// The cached windows that the sums were taken from, keyed by length.
    pub closed spec fn source(&self) -> Map<int, Seq<T>> {
        self.source@
    }

    /// The cached sums, keyed by length.
    pub closed spec fn view(&self) -> Map<int, S> {
        Map::new(|n: int| is_common_length(n), |n: int| self.sums@[common_index(n)])
    }

    /// One stored sum per common length.
    pub closed spec fn holds_all_lengths(&self) -> bool {
        self.sums@.len() == NUM_COMMON_LENGTHS
    }

    /// Every common length, and nothing else, has a cached sum, and each is
    /// the sum of squares of the cached window of that length.
    pub open spec fn wf(&self) -> bool {
        &&& self.holds_all_lengths()
        &&& accepts_all_windows(self.sum_squares())
        &&& forall|n: int| #[trigger] self@.contains_key(n) <==> is_common_length(n)
        &&& forall|n: int| #[trigger]
            is_common_length(n) ==> is_sum_of(self.sum_squares(), self.source()[n], self@[n])
    }

    /// Applies `sum_squares` to each window that `windows` holds.
    pub fn new<F: Fn(usize, usize) -> T>(windows: &WindowCache<T, F>, sum_squares: G) -> (r: Self)
        requires
            windows.wf(),
            accepts_all_windows(sum_squares),
        ensures
            r.wf(),
            r.sum_squares() == sum_squares,
            r.source() == windows@,
    {
        let mut sums: Vec<S> = Vec::new();
        let mut k: usize = 0;
        while k < NUM_COMMON_LENGTHS
            invariant
                k <= NUM_COMMON_LENGTHS,
                sums@.len() == k,
                windows.wf(),
                accepts_all_windows(sum_squares),
                forall|j: int| 0 <= j < k ==> is_sum_of(
                    sum_squares,
                    windows@[common_lengths()[j]],
                    #[trigger] sums@[j],
                ),
            decreases NUM_COMMON_LENGTHS - k,
        {
            let n = common_length(k);
            let w = windows.lookup(n).unwrap();
            let s = sum_squares(&w);
            assert(sum_squares.ensures((&w,), s));
            sums.push(s);
            k = k + 1;
        }
        let r = SumOfSquaresCache { sum_squares, sums, source: Ghost(windows@) };
        assert forall|n: int| #[trigger] is_common_length(n) implies is_sum_of(
            r.sum_squares(),
            r.source()[n],
            r@[n],
        ) by {
            assert(common_lengths()[common_index(n)] == n);
            assert(is_sum_of(sum_squares, windows@[n], sums@[common_index(n)]));
        }
        r
    }

    /// The cached sum for windows of length `n`, if `n` is a common length.
    pub fn lookup(&self, n: usize) -> (r: Option<S>)
        requires
            self.wf(),
        ensures
            r is Some <==> is_common_length(n as int),
            r is Some ==> r->0 == self@[n as int],
    {
        match common_length_index(n) {
            None => None,
            Some(k) => Some(self.sums[k]),
        }
    }

    /// The sum of squares of `hann_window`: the cached value for its length
    /// where there is one, else `sum_squares` applied to it.
    pub fn get_hann_window_sum_squares(&self, hann_window: &Vec<T>) -> (r: S)
        requires
            self.wf(),
        ensures
            is_common_length(hann_window@.len() as int) ==> r == self@[hann_window@.len() as int],
            !is_common_length(hann_window@.len() as int) ==> self.sum_squares().ensures(
                (hann_window,),
                r,
            ),
    {
        match self.lookup(hann_window.len()) {
            Some(s) => s,
            None => (self.sum_squares)(hann_window),
        }
    }
}

/// For a common length, the cached sum of squares of the window that a
/// window cache hands out equals the sum computed directly on that window,
/// when the sum cache was built from that window cache and the sum depends
/// on the samples alone.
pub proof fn lemma_cached_sum_matches_direct<T: Copy, S: Copy, F: Fn(usize, usize) -> T, G: Fn(&Vec<T>) -> S>(
    windows: WindowCache<T, F>,
    sums: SumOfSquaresCache<T, S, G>,
    hann_window: &Vec<T>,
    direct: S,
)
    requires
        windows.wf(),
        sums.wf(),
        sums.source() == windows@,
        is_common_length(hann_window@.len() as int),
        hann_window@ == windows@[hann_window@.len() as int],
        depends_on_samples(sums.sum_squares()),
        sums.sum_squares().ensures((hann_window,), direct),
    ensures
        sums@[hann_window@.len() as int] == direct,
{
    let n = hann_window@.len() as int;
    assert(is_sum_of(sums.sum_squares(), sums.source()[n], sums@[n]));
    let v = choose|v: &Vec<T>| v@ == sums.source()[n] && #[trigger] sums.sum_squares().ensures((v,), sums@[n]);
    assert(sums.sum_squares().ensures((v,), sums@[n]));
}

} // verus!
