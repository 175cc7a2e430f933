//! The outbound channel: a FIFO of control events from the foreground
//! producers to the background heartbeat writer, with a closed flag standing
//! for the producer side having been dropped.
use vstd::prelude::*;

verus! {

/// A control event the foreground hands to the background writer: either a
/// payload to relay verbatim on the write half, or the abort signal.
pub enum ThreadEvent {
    SendMessage(String),
    Abort,
}

/// What one non-blocking poll of the channel yields.
pub enum RecvOutcome {
    /// The oldest queued event, now removed from the channel.
    Event(ThreadEvent),
    /// Nothing queued; the producer side is still alive.
    Empty,
    /// Nothing queued and the producer side is gone.
    Disconnected,
}

/// A single-consumer FIFO of control events. Events leave in the exact order
/// they were enqueued; closing marks the producer side as dropped.
pub struct OutboundChannel {
    events: Vec<ThreadEvent>,
    closed: bool,
}

impl View for OutboundChannel {
    type V = Seq<ThreadEvent>;

    closed spec fn view(&self) -> Seq<ThreadEvent> {
        self.events@
    }
}

impl OutboundChannel {
    /// Whether the producer side has been dropped.
    pub closed spec fn is_closed(&self) -> bool {
        self.closed
    }

    /// A fresh, open, empty channel.
    pub fn new() -> (c: Self)
        ensures
            c@ == Seq::<ThreadEvent>::empty(),
            !c.is_closed(),
    {
        OutboundChannel { events: Vec::new(), closed: false }
    }

    /// Enqueues one event behind everything already queued.
    pub fn enqueue(&mut self, e: ThreadEvent)
        ensures
            final(self)@ == old(self)@.push(e),
            final(self).is_closed() == old(self).is_closed(),
    {
        self.events.push(e);
    }

    /// Drops the producer side: what is already queued stays readable.
    pub fn close(&mut self)
        ensures
            final(self)@ == old(self)@,
            final(self).is_closed(),
    {
        self.closed = true;
    }

    /// Non-blocking poll: removes and yields the oldest event when one is
    /// queued, and otherwise reports whether the producer side is gone.
    pub fn try_recv(&mut self) -> (r: RecvOutcome)
        ensures
            final(self).is_closed() == old(self).is_closed(),
            old(self)@.len() > 0 ==> r == RecvOutcome::Event(old(self)@[0]) && final(self)@
                == old(self)@.skip(1),
            old(self)@.len() == 0 ==> final(self)@ == old(self)@ && r == (
            if old(self).is_closed() {
                RecvOutcome::Disconnected
            } else {
                RecvOutcome::Empty
            }),
    {
        if self.events.len() > 0 {
            let e = self.events.remove(0);
            RecvOutcome::Event(e)
        } else if self.closed {
            RecvOutcome::Disconnected
        } else {
            RecvOutcome::Empty
        }
    }
}

} // verus!
