//! A mutex that only records its name; its operations do nothing. It stands
//! where no service-backed mutex is available.

use vstd::prelude::*;

verus! {

/// A named mutex whose operations have no effect.
pub struct Mutex {
    name: String,
}

impl View for Mutex {
    type V = Seq<char>;

    closed spec fn view(&self) -> Seq<char> {
        self.name@
    }
}

impl Mutex {
    /// A mutex named `name`.
    pub fn new(name: &str) -> (r: Self)
        ensures
            r@ == name@,
    {
        Self { name: String::from_str(name) }
    }

    /// The name of this mutex.
    pub fn name(&self) -> (r: &str)
        ensures
            r@ == self@,
    {
        self.name.as_str()
    }

    /// Does nothing.
    pub fn lock(&self) {
    }

    /// Does nothing.
    pub fn unlock(&self) {
    }

    /// Does nothing.
    pub fn try_lock(&self) {
    }
}

} // verus!
