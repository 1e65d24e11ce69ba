//! The software path tracer that runs in compute shaders on any GPU.
use vstd::prelude::*;

verus! {

/// The line to log when this backend is initialized, which does nothing else
/// so far.
pub fn initialize_stub() -> (line: &'static str)
    ensures
        line@ == "[compute-fallback] software path tracer stub -- impl in §5.6.g or later"@,
{
    "[compute-fallback] software path tracer stub -- impl in §5.6.g or later"
}

} // verus!
