//! A marker that objects handed out through the C interface carry, so that a
//! use after destruction is detected instead of silently misbehaving.

use vstd::prelude::*;
use crate::error_handling::{ErrorType, PartialError, PartialErrorModel, result_view};

verus! {

/// The value that a live marker holds. The service's shared constants, which
/// are not part of this crate, define the marker elsewhere; this library
/// fixes its own value: the ASCII bytes of "GARNALIV". Any value other than
/// zero serves, since zero is what a destroyed marker holds.
pub const ALIVE_MARKER: u64 = 0x4741_524E_414C_4956;

/// What checking a marker that holds `value` gives.
pub open spec fn spec_check(value: u64) -> Result<(), PartialErrorModel> {
    if value == ALIVE_MARKER {
        Ok(())
    } else {
        Err(PartialErrorModel { error_type: ErrorType::UseAfterDestroy, details: None })
    }
}

/// Holds [`ALIVE_MARKER`] from creation until it is invalidated.
pub struct AliveMarker(u64);

impl View for AliveMarker {
    type V = u64;

    closed spec fn view(&self) -> u64 {
        self.0
    }
}

impl AliveMarker {
    /// A live marker.
    pub fn new() -> (r: Self)
        ensures
            r@ == ALIVE_MARKER,
    {
        AliveMarker(ALIVE_MARKER)
    }

    /// Succeeds while the marker is live; a destroyed marker gives `UseAfterDestroy`.
    pub fn check(&self) -> (r: Result<(), PartialError>)
        ensures
            result_view(r) == spec_check(self@),
    {
        if self.0 != ALIVE_MARKER {
            return Err(PartialError::new(ErrorType::UseAfterDestroy));
        }
        Ok(())
    }

    /// Marks the object that carries this marker as destroyed.
    pub fn invalidate(&mut self)
        ensures
            final(self)@ == 0,
    {
        self.0 = 0;
    }
}

/// A new marker passes its check, and a marker that has been invalidated
/// (it holds zero) fails its check with `UseAfterDestroy`.
pub proof fn lemma_invalidated_marker_is_not_alive()
    ensures
        spec_check(ALIVE_MARKER) == Ok::<(), PartialErrorModel>(()),
        spec_check(0) == Err::<(), PartialErrorModel>(
            PartialErrorModel { error_type: ErrorType::UseAfterDestroy, details: None },
        ),
{
}

} // verus!
