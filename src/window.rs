use vstd::prelude::*;

use crate::error::HannWindowError;

verus! {

/// The largest window length served, whatever the platform's word size.
pub const MAX_WINDOW_LENGTH: usize = 16777216;

/// The error that a request for a window of length `n` fails with, if any.
/// The checks are made in this order; the first that applies wins.
pub open spec fn length_error(n: int) -> Option<HannWindowError> {
    if n <= 1 {
        Some(HannWindowError::WindowLengthTooSmall)
    } else if n > usize::MAX / 2 {
        Some(HannWindowError::MemoryAllocationError)
    } else if n > MAX_WINDOW_LENGTH {
        Some(HannWindowError::WindowLengthTooLarge)
    } else {
        None
    }
}

/// How many leading samples are evaluated: the rest mirror them.
pub open spec fn half_length(n: int) -> int {
    (n + 1) / 2
}

/// `coefficient` may be called for every sample index of every length.
pub open spec fn accepts_all_samples<T, F: Fn(usize, usize) -> T>(coefficient: F) -> bool {
    forall|i: usize, n: usize| i < n ==> #[trigger] coefficient.requires((i, n))
}

/// `coefficient` gives one value for each sample index and length.
pub open spec fn is_deterministic<T, F: Fn(usize, usize) -> T>(coefficient: F) -> bool {
    forall|i: usize, n: usize, x: T, y: T|
        #[trigger] coefficient.ensures((i, n), x) && #[trigger] coefficient.ensures((i, n), y)
            ==> x == y
}

/// `w` is a window of length `n` whose first half was produced by
/// `coefficient` and whose second half mirrors the first.
pub open spec fn is_window_from<T, F: Fn(usize, usize) -> T>(w: Seq<T>, n: int, coefficient: F) -> bool {
    &&& w.len() == n
    &&& forall|i: int| 0 <= i < half_length(n) ==> coefficient.ensures((i as usize, n as usize), #[trigger] w[i])
    &&& forall|i: int| 0 <= i < n ==> #[trigger] w[i] == w[n - 1 - i]
}

/// Every length from 2 to `MAX_WINDOW_LENGTH` is accepted, on any platform.
pub proof fn lemma_valid_lengths_accepted(n: int)
    requires
        2 <= n <= MAX_WINDOW_LENGTH,
    ensures
        length_error(n) is None,
{
}

/// Two windows of one length from one deterministic coefficient are equal
/// element for element, whether one was cached and the other computed fresh.
pub proof fn lemma_windows_agree<T, F: Fn(usize, usize) -> T>(
    a: Seq<T>,
    b: Seq<T>,
    n: int,
    coefficient: F,
)
    requires
        0 <= n <= usize::MAX,
        is_deterministic(coefficient),
        is_window_from(a, n, coefficient),
        is_window_from(b, n, coefficient),
    ensures
        a == b,
{
    assert forall|i: int| 0 <= i < n implies #[trigger] a[i] == b[i] by {
        let j = if i < half_length(n) { i } else { n - 1 - i };
        assert(coefficient.ensures((j as usize, n as usize), a[j]));
        assert(coefficient.ensures((j as usize, n as usize), b[j]));
        assert(a[i] == a[j]);
        assert(b[i] == b[j]);
    }
    assert(a =~= b);
}

/// Checks a requested window length, before anything is computed.
pub fn validate_window_length(window_length: usize) -> (r: Result<(), HannWindowError>)
    ensures
        match length_error(window_length as int) {
            Some(e) => r == Err::<(), HannWindowError>(e),
            None => r is Ok,
        },
{
    if window_length <= 1 {
        return Err(HannWindowError::WindowLengthTooSmall);
    }
    if window_length > usize::MAX / 2 {
        return Err(HannWindowError::MemoryAllocationError);
    }
    if window_length > MAX_WINDOW_LENGTH {
        return Err(HannWindowError::WindowLengthTooLarge);
    }
    Ok(())
}

/// Computes a window of length `window_length`: `coefficient(i, window_length)`
/// is evaluated for the first half of the indices only, and each value is
/// mirrored to index `window_length - 1 - i`.
pub fn calculate_hann_window_with<T: Copy, F: Fn(usize, usize) -> T>(
    window_length: usize,
    coefficient: &F,
) -> (r: Result<Vec<T>, HannWindowError>)
    requires
        accepts_all_samples(*coefficient),
    ensures
        match length_error(window_length as int) {
            Some(e) => r == Err::<Vec<T>, HannWindowError>(e),
            None => r is Ok && is_window_from(r->Ok_0@, window_length as int, *coefficient),
        },
{
    match validate_window_length(window_length) {
        Err(e) => {
            return Err(e);
        },
        Ok(()) => {},
    }
    let n = window_length;
    let half = (n + n % 2) / 2;
    assert(half == half_length(n as int));
    let mut first: Vec<T> = Vec::new();
    let mut i: usize = 0;
    while i < half
        invariant
            half == half_length(n as int),
            half <= n,
            i <= half,
            first@.len() == i,
            accepts_all_samples(*coefficient),
            forall|j: int| 0 <= j < i ==> coefficient.ensures((j as usize, n), #[trigger] first@[j]),
        decreases half - i,
    {
        let v = coefficient(i, n);
        first.push(v);
        i = i + 1;
    }
    let mut window: Vec<T> = Vec::new();
    let mut k: usize = 0;
    while k < n
        invariant
            half == half_length(n as int),
            first@.len() == half,
            k <= n,
            window@.len() == k,
            forall|j: int| 0 <= j < k ==> #[trigger] window@[j] == if j < half {
                first@[j]
            } else {
                first@[n - 1 - j]
            },
        decreases n - k,
    {
        if k < half {
            window.push(first[k]);
        } else {
            window.push(first[n - 1 - k]);
        }
        k = k + 1;
    }
    assert forall|j: int| 0 <= j < n implies #[trigger] window@[j] == window@[n - 1 - j] by {
        assert(window@[n - 1 - j] == if n - 1 - j < half {
            first@[n - 1 - j]
        } else {
            first@[j]
        });
    }
    assert forall|j: int| 0 <= j < half_length(n as int) implies coefficient.ensures(
        (j as usize, n),
        #[trigger] window@[j],
    ) by {
        assert(window@[j] == first@[j]);
    }
    Ok(window)
}

} // verus!
