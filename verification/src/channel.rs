//! Model of the single-slot channel: a bounded conduit that holds at most one
//! undelivered item. It is the sole synchronization discipline between the
//! event producers, the dispatcher, and the blink controller. A non-suspending
//! send on a full slot is rejected outright — the pending item is never
//! displaced or merged.

use vstd::prelude::*;

verus! {

/// Why a non-suspending send was rejected; the value is handed back.
#[derive(Debug, PartialEq, Eq)]
pub enum TrySendError<T> {
    /// The slot already holds an undelivered item.
    Full(T),
    /// The receiving side is gone.
    Closed(T),
}

/// Outcome of a non-suspending receive.
#[derive(Debug, PartialEq, Eq)]
pub enum RecvPoll<T> {
    /// An item was pending and has been taken.
    Value(T),
    /// Nothing pending; the channel is still open.
    Empty,
    /// Nothing pending and no producer remains.
    Closed,
}

/// A channel of capacity one: at most one undelivered item at any time.
pub struct SingleSlot<T> {
    slot: Option<T>,
    closed: bool,
}

impl<T> SingleSlot<T> {
    /// The undelivered item, if any.
    pub closed spec fn pending(self) -> Option<T> {
        self.slot
    }

    /// Whether the channel has been closed by the sending side.
    pub closed spec fn is_closed(self) -> bool {
        self.closed
    }

    /// An open channel with an empty slot.
    pub fn new() -> (c: Self)
        ensures
            c.pending() is None,
            !c.is_closed(),
    {
        SingleSlot { slot: None, closed: false }
    }

    /// Non-suspending send: succeeds exactly when the channel is open and the
    /// slot is empty. A rejected value comes back unchanged, and a rejection
    /// never disturbs the pending item.
    pub fn try_send(&mut self, v: T) -> (r: Result<(), TrySendError<T>>)
        ensures
            old(self).is_closed() ==> {
                &&& r == Err::<(), TrySendError<T>>(TrySendError::Closed(v))
                &&& *final(self) == *old(self)
            },
            !old(self).is_closed() && old(self).pending() is Some ==> {
                &&& r == Err::<(), TrySendError<T>>(TrySendError::Full(v))
                &&& *final(self) == *old(self)
            },
            !old(self).is_closed() && old(self).pending() is None ==> {
                &&& r == Ok::<(), TrySendError<T>>(())
                &&& final(self).pending() == Some(v)
                &&& !final(self).is_closed()
            },
    {
        if self.closed {
            Err(TrySendError::Closed(v))
        } else if self.slot.is_some() {
            Err(TrySendError::Full(v))
        } else {
            self.slot = Some(v);
            Ok(())
        }
    }

    /// Non-suspending receive: takes the pending item if there is one;
    /// otherwise reports whether the channel can still produce items.
    pub fn try_recv(&mut self) -> (r: RecvPoll<T>)
        ensures
            old(self).pending() matches Some(v) ==> {
                &&& r == RecvPoll::Value(v)
                &&& final(self).pending() is None
                &&& final(self).is_closed() == old(self).is_closed()
            },
            old(self).pending() is None && !old(self).is_closed() ==> {
                &&& r == RecvPoll::<T>::Empty
                &&& *final(self) == *old(self)
            },
            old(self).pending() is None && old(self).is_closed() ==> {
                &&& r == RecvPoll::<T>::Closed
                &&& *final(self) == *old(self)
            },
    {
        match self.slot.take() {
            Some(v) => RecvPoll::Value(v),
            None => {
                if self.closed {
                    RecvPoll::Closed
                } else {
                    RecvPoll::Empty
                }
            }
        }
    }

    /// The sending side goes away; a still-pending item remains deliverable.
    pub fn close(&mut self)
        ensures
            final(self).is_closed(),
            final(self).pending() == old(self).pending(),
    {
        self.closed = true;
    }
}
} // verus!
