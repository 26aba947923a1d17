//! Plain wrappers for values that are handed across the host boundary.
use vstd::prelude::*;

verus! {

/// A transparent wrapper around a value that stands for a native resource
/// handle.  The layer never reads through the handle itself; it only carries
/// it between calls, so the wrapper adds nothing but a name.
#[derive(Clone, Copy, Debug)]
pub struct UnsafeHandle<T>(pub T);

impl<T> UnsafeHandle<T> {
    /// The wrapped value.
    pub open spec fn value(self) -> T {
        self.0
    }

    /// Exchanges the wrapper for the wrapped value.
    pub fn into_inner(self) -> (r: T)
        ensures
            r == self.value(),
    {
        self.0
    }
}

} // verus!
