//! The slot through which a Java callback completes a waiting GATT operation.
//!
//! A GATT operation that waits for a Java callback hands Java a slot holding
//! the sending end of a one-shot channel and, for operations that need it, the
//! guard of the device's GATT lock. The first callback takes the sender (to
//! deliver its value) and releases the lock; later callbacks find the slot
//! empty. The sender (`S`) and the lock guard (`G`) are only stored here.
use vstd::prelude::*;

verus! {

/// What a callback finds in the slot.
pub struct CallBackSlot<S, G> {
    sender: Option<S>,
    gatt_lock: Option<G>,
}

impl<S, G> CallBackSlot<S, G> {
    /// The sender, while no callback has taken it.
    pub closed spec fn sender(&self) -> Option<S> {
        self.sender
    }

    /// The guard of the GATT lock, while it is held.
    pub closed spec fn gatt_lock(&self) -> Option<G> {
        self.gatt_lock
    }

    /// A slot that holds the sender and, if given, the GATT lock guard.
    pub fn new(sender: S, gatt_lock: Option<G>) -> (r: Self)
        ensures
            r.sender() == Some(sender),
            r.gatt_lock() == gatt_lock,
    {
        CallBackSlot { sender: Some(sender), gatt_lock }
    }

    /// A callback arrives: it takes the sender, if no earlier callback took it,
    /// and the lock guard, which the caller drops to release the lock. Either
    /// way the slot is empty afterwards, so a value is delivered at most once
    /// and the lock is released by the first callback.
    pub fn wake(&mut self) -> (r: (Option<S>, Option<G>))
        ensures
            r.0 == old(self).sender(),
            r.1 == old(self).gatt_lock(),
            final(self).sender() is None,
            final(self).gatt_lock() is None,
    {
        let sender = self.sender.take();
        let lock = self.gatt_lock.take();
        (sender, lock)
    }
}

} // verus!
