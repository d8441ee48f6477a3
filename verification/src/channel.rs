//! The coalescing channel: a single-slot, latest-value-wins conduit
//! between a fronter source and one user's change processor.
//!
//! `send` never blocks and never queues: an unread value is simply
//! overwritten, so the consumer only ever observes the most recent
//! value.  Closing the producer side is the designed termination
//! signal for the consumer.

use vstd::prelude::*;

verus! {

/// What one poll of the consumer side observes.
#[derive(Debug)]
pub enum RecvPoll<T> {
    /// A value was pending; it has been taken out of the slot.
    Received(T),
    /// The channel is open but no value is pending.
    Pending,
    /// The producer side is closed and no value remains: the consumer
    /// must terminate its loop.
    Closed,
}

/// A single-producer, single-consumer slot carrying the latest value.
pub struct CoalescingChannel<T> {
    /// The one pending value, if any.
    pub slot: Option<T>,
    /// Whether the producer side is still open.
    pub open: bool,
}

/// The slot contents after one more `send` of `v`.
pub open spec fn sent_slot<T>(ch: CoalescingChannel<T>, v: T) -> Option<T> {
    if ch.open {
        Some(v)
    } else {
        ch.slot
    }
}

/// The channel state after a whole sequence of `send` calls, first
/// element first.
pub open spec fn after_sends<T>(ch: CoalescingChannel<T>, vs: Seq<T>) -> CoalescingChannel<T>
    decreases vs.len(),
{
    if vs.len() == 0 {
        ch
    } else {
        after_sends(
            CoalescingChannel { slot: sent_slot(ch, vs.first()), open: ch.open },
            vs.drop_first(),
        )
    }
}

impl<T> CoalescingChannel<T> {
    /// A fresh, open channel with nothing pending.
    pub fn new() -> (r: Self)
        ensures
            r.slot is None,
            r.open,
    {
        CoalescingChannel { slot: None, open: true }
    }

    /// Deliver the latest value.  Never blocks: an unread previous
    /// value is overwritten, never queued.  After the producer side is
    /// closed a send has no effect.
    pub fn send(&mut self, v: T)
        ensures
            final(self).slot == sent_slot(*old(self), v),
            final(self).open == old(self).open,
    {
        if self.open {
            self.slot = Some(v);
        }
    }

    /// Take the pending value, if any.  Reports `Closed` only once the
    /// producer side is closed and no value remains.
    pub fn try_recv(&mut self) -> (r: RecvPoll<T>)
        ensures
            final(self).open == old(self).open,
            final(self).slot is None,
            match r {
                RecvPoll::Received(v) => old(self).slot == Some(v),
                RecvPoll::Pending => old(self).slot is None && old(self).open,
                RecvPoll::Closed => old(self).slot is None && !old(self).open,
            },
    {
        let mut taken: Option<T> = None;
        core::mem::swap(&mut taken, &mut self.slot);
        match taken {
            Some(v) => RecvPoll::Received(v),
            None => {
                if self.open {
                    RecvPoll::Pending
                } else {
                    RecvPoll::Closed
                }
            },
        }
    }

    /// Close the producer side.  A value still pending stays readable;
    /// after it is drained the consumer observes `Closed`.
    pub fn close(&mut self)
        ensures
            final(self).slot == old(self).slot,
            !final(self).open,
    {
        self.open = false;
    }
}

/// Coalescing law: however many values are sent before a single
/// receive, the slot then holds exactly the last of them — the earlier
/// values are unobservable.
pub proof fn lemma_coalescing<T>(ch: CoalescingChannel<T>, vs: Seq<T>)
    requires
        ch.open,
        vs.len() > 0,
    ensures
        after_sends(ch, vs).slot == Some(vs.last()),
        after_sends(ch, vs).open,
    decreases vs.len(),
{
    if vs.len() == 1 {
        assert(after_sends(ch, vs) == after_sends(
            CoalescingChannel { slot: Some(vs.first()), open: true },
            vs.drop_first(),
        ));
    } else {
        let ch2 = CoalescingChannel::<T> { slot: Some(vs.first()), open: true };
        lemma_coalescing(ch2, vs.drop_first());
        assert(vs.drop_first().last() == vs.last());
    }
}

} // verus!
