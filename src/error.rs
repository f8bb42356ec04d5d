use vstd::prelude::*;

verus! {

/// Why a window of a requested length cannot be produced.
#[derive(Debug, Clone, Copy, PartialEq, Eq, Structural)]
pub enum HannWindowError {
    /// The length is 0 or 1.
    WindowLengthTooSmall,
    /// The length is above the fixed ceiling of 2^24 samples.
    WindowLengthTooLarge,
    /// The length is above half the largest `usize`.
    MemoryAllocationError,
}

/// The fixed message of each error.
pub open spec fn error_message(e: HannWindowError) -> Seq<char> {
    match e {
        HannWindowError::WindowLengthTooSmall => "HannWindowError: Window length must be greater than 1."@,
        HannWindowError::WindowLengthTooLarge => "HannWindowError: Window length is too large."@,
        HannWindowError::MemoryAllocationError => "HannWindowError: Window length is too large to allocate memory."@,
    }
}

impl HannWindowError {
    /// The human-readable message that describes the violated bound.
    pub fn message(&self) -> (r: &'static str)
        ensures
            r@ == error_message(*self),
    {
        match self {
            HannWindowError::WindowLengthTooSmall => "HannWindowError: Window length must be greater than 1.",
            HannWindowError::WindowLengthTooLarge => "HannWindowError: Window length is too large.",
            HannWindowError::MemoryAllocationError => "HannWindowError: Window length is too large to allocate memory.",
        }
    }
}

} // verus!
