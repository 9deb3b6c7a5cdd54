//! What a platform provides for the mutexes that the service hands out.

use vstd::prelude::*;
use crate::error_handling::PartialError;

verus! {

/// Operations on an inter-process mutex of the platform.
pub trait PlatformMutex {
    fn lock(&self) -> Result<(), PartialError>;

    fn unlock(&self) -> Result<(), PartialError>;

    fn try_lock(&self) -> Result<(), PartialError>;
}

} // verus!
