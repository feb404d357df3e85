//! The slot that a facade object and a background task share.

use vstd::prelude::*;

verus! {

/// A slot for a live network object that starts empty and is filled when the
/// operation that creates the object succeeds.
///
/// The slot is what sits behind the lock: a reader takes the lock, looks at
/// the slot and lets go before any network I/O begins.
#[derive(Debug)]
pub struct SharedHandle<T> {
    value: Option<T>,
}

impl<T> View for SharedHandle<T> {
    type V = Option<T>;

    closed spec fn view(&self) -> Option<T> {
        self.value
    }
}

impl<T> SharedHandle<T> {
    /// An empty slot.
    pub fn new() -> (handle: Self)
        ensures
            handle@ is None,
    {
        SharedHandle { value: None }
    }

    /// Whether the slot holds an object.
    pub fn is_present(&self) -> (present: bool)
        ensures
            present == (self@ is Some),
    {
        self.value.is_some()
    }

    /// The object in the slot, if any. The caller clones what it needs beyond the lock.
    pub fn read(&self) -> (value: Option<&T>)
        ensures
            value is Some == self@ is Some,
            value matches Some(v) ==> self@ == Some(*v),
    {
        self.value.as_ref()
    }

    /// Puts `value` into the slot and hands back what it held before, untouched.
    pub fn write(&mut self, value: T) -> (prior: Option<T>)
        ensures
            final(self)@ == Some(value),
            prior == old(self)@,
    {
        let prior = self.value.take();
        self.value = Some(value);
        prior
    }

    /// Gives up the slot and hands out what it held.
    pub fn into_inner(self) -> (value: Option<T>)
        ensures
            value == self@,
    {
        self.value
    }
}

} // verus!
