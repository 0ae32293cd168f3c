//! An exclusivity guard for a non-reentrant resource.

use vstd::prelude::*;

verus! {

/// Wraps a value so that it can only be reached through an exclusive
/// borrow: the guard offers no shared access to its content, so the wrapped
/// resource is never observed by two in-flight calls at once, and a call
/// must return before the resource can be touched again.
pub struct Unshared<T> {
    value: T,
}

impl<T> Unshared<T> {
    /// The wrapped value.
    pub closed spec fn inner(&self) -> T {
        self.value
    }

    /// Take exclusive custody of a value.
    pub fn new(value: T) -> (r: Self)
        ensures
            r.inner() == value,
    {
        Unshared { value }
    }

    /// Exclusive access to the wrapped value; the guard cannot be used
    /// again until the borrow ends.
    pub fn get_mut(&mut self) -> (r: &mut T)
        ensures
            *r == old(self).inner(),
            final(self).inner() == *final(r),
    {
        &mut self.value
    }

    /// Give the wrapped value up.
    pub fn into_inner(self) -> (r: T)
        ensures
            r == self.inner(),
    {
        self.value
    }
}

} // verus!
