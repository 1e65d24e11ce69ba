//! The Metal ray-tracing backend.
use vstd::prelude::*;

verus! {

/// The line to log when this backend is initialized, which does nothing else
/// so far.
pub fn initialize_stub() -> (line: &'static str)
    ensures
        line@ == "[metal] backend stub -- real init in §5.6.a part 2"@,
{
    "[metal] backend stub -- real init in §5.6.a part 2"
}

} // verus!
