//! The mailbox between two tasks: one slot, and the latest signal wins.

use vstd::prelude::*;

verus! {

/// A slot that holds no value or one. A signal overwrites a value that was
/// not taken: a slow reader sees the latest value, not every value.
pub struct EventChannel<T> {
    slot: Option<T>,
}

impl<T> View for EventChannel<T> {
    type V = Option<T>;

    closed spec fn view(&self) -> Option<T> {
        self.slot
    }
}

impl<T> EventChannel<T> {
    /// An empty channel.
    pub fn new() -> (channel: Self)
        ensures
            channel@ is None,
    {
        EventChannel { slot: None }
    }

    /// Stores `value`, in place of a pending value if there is one.
    pub fn signal(&mut self, value: T)
        ensures
            final(self)@ == Some(value),
    {
        self.slot = Some(value);
    }

    /// Takes the pending value, if there is one, and leaves the channel
    /// empty.
    pub fn try_take(&mut self) -> (value: Option<T>)
        ensures
            value == old(self)@,
            final(self)@ is None,
    {
        self.slot.take()
    }

    /// Whether a value is pending.
    pub fn signaled(&self) -> (pending: bool)
        ensures
            pending == self@ is Some,
    {
        self.slot.is_some()
    }

    /// Drops the pending value, if there is one.
    pub fn reset(&mut self)
        ensures
            final(self)@ is None,
    {
        self.slot = None;
    }
}

} // verus!
