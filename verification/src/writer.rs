//! The heartbeat writer: the background activity that owns the write half,
//! relays queued outbound events between beats, and emits a heartbeat frame
//! once per period until aborted or disconnected.
use vstd::prelude::*;

use crate::outbound::OutboundChannel;
use crate::outbound::RecvOutcome;
use crate::outbound::ThreadEvent;
use crate::protocol::heartbeat_frame;
use crate::protocol::heartbeat_text;
use vstd::arithmetic::mul::lemma_mul_inequality;
use vstd::arithmetic::mul::lemma_mul_is_distributive_add_other_way;

verus! {

/// What the writer must do next, given what one poll of the channel yielded.
pub enum WriterCommand {
    /// Forward this payload verbatim on the write half, then poll again.
    Relay(String),
    /// The queue is drained: sleep one period, send a heartbeat, poll again.
    Beat,
    /// Terminate the writer's execution context.
    Stop,
}

/// The writer's decision rule: queued payloads are relayed, an abort or a
/// dropped producer stops the writer, and an empty queue lets it beat.
pub open spec fn decide_spec(r: RecvOutcome) -> WriterCommand {
    match r {
        RecvOutcome::Event(ThreadEvent::SendMessage(p)) => WriterCommand::Relay(p),
        RecvOutcome::Event(ThreadEvent::Abort) => WriterCommand::Stop,
        RecvOutcome::Empty => WriterCommand::Beat,
        RecvOutcome::Disconnected => WriterCommand::Stop,
    }
}

/// Decides the writer's next step from one poll of the outbound channel.
pub fn writer_decide(r: RecvOutcome) -> (c: WriterCommand)
    ensures
        c == decide_spec(r),
{
    match r {
        RecvOutcome::Event(ThreadEvent::SendMessage(p)) => WriterCommand::Relay(p),
        RecvOutcome::Event(ThreadEvent::Abort) => WriterCommand::Stop,
        RecvOutcome::Empty => WriterCommand::Beat,
        RecvOutcome::Disconnected => WriterCommand::Stop,
    }
}

/// A frame on the wire together with the mocked wall-clock instant, in
/// milliseconds, at which the writer put it there.
pub struct TimedFrame {
    pub at: u64,
    pub frame: String,
}

/// The frames one drain of a queue relays, in queue order: the payloads of
/// the messages that precede the first abort, all stamped with the instant
/// the drain runs at.
pub open spec fn drain_relays(q: Seq<ThreadEvent>, at: u64) -> Seq<TimedFrame>
    decreases q.len(),
{
    if q.len() == 0 {
        Seq::empty()
    } else {
        match q[0] {
            ThreadEvent::SendMessage(p) => seq![TimedFrame { at: at, frame: p }] + drain_relays(
                q.skip(1),
                at,
            ),
            ThreadEvent::Abort => Seq::empty(),
        }
    }
}

/// Whether draining this queue terminates the writer: it does when an abort
/// is queued, or when the queue runs dry with the producer side dropped.
pub open spec fn drain_stops(q: Seq<ThreadEvent>, closed: bool) -> bool
    decreases q.len(),
{
    if q.len() == 0 {
        closed
    } else {
        match q[0] {
            ThreadEvent::SendMessage(_) => drain_stops(q.skip(1), closed),
            ThreadEvent::Abort => true,
        }
    }
}

/// What one drain leaves in the channel: everything behind the first abort,
/// or nothing when the whole queue is consumed.
pub open spec fn drain_rest(q: Seq<ThreadEvent>) -> Seq<ThreadEvent>
    decreases q.len(),
{
    if q.len() == 0 {
        Seq::empty()
    } else {
        match q[0] {
            ThreadEvent::SendMessage(_) => drain_rest(q.skip(1)),
            ThreadEvent::Abort => q.skip(1),
        }
    }
}

/// The heartbeat writer over a mocked clock: `now` is the clock in
/// milliseconds, `sent` the trace of every frame put on the wire so far,
/// and `terminated` whether its execution context has ended.
pub struct HeartbeatWriter {
    pub interval: u64,
    pub now: u64,
    pub terminated: bool,
    pub sent: Vec<TimedFrame>,
}

impl HeartbeatWriter {
    /// A fresh writer for a negotiated cadence, starting its clock at zero.
    pub fn new(interval: u64) -> (w: Self)
        requires
            interval > 0,
        ensures
            w.interval == interval,
            w.now == 0,
            !w.terminated,
            w.sent@ == Seq::<TimedFrame>::empty(),
    {
        HeartbeatWriter { interval, now: 0, terminated: false, sent: Vec::new() }
    }

    /// One iteration of the writer's loop: drain the outbound channel,
    /// relaying each queued payload in arrival order; stop immediately on an
    /// abort or a dropped producer; otherwise sleep one period and put one
    /// heartbeat on the wire. Once terminated, the writer does nothing more.
    pub fn run_iteration(&mut self, ch: &mut OutboundChannel)
        requires
            old(self).now + old(self).interval <= u64::MAX,
        ensures
            final(ch).is_closed() == old(ch).is_closed(),
            final(self).interval == old(self).interval,
            old(self).terminated ==> *final(self) == *old(self) && final(ch)@ == old(ch)@,
            !old(self).terminated ==> {
                let relays = drain_relays(old(ch)@, old(self).now);
                let stops = drain_stops(old(ch)@, old(ch).is_closed());
                &&& final(ch)@ == drain_rest(old(ch)@)
                &&& final(self).terminated == stops
                &&& (stops ==> final(self).now == old(self).now
                    && final(self).sent@ == old(self).sent@ + relays)
                &&& (!stops ==> final(self).now == old(self).now + old(self).interval
                    && final(self).sent@.len() == old(self).sent@.len() + relays.len() + 1
                    && final(self).sent@.take((old(self).sent@.len() + relays.len()) as int)
                        == old(self).sent@ + relays
                    && final(self).sent@.last().at == old(self).now + old(self).interval
                    && final(self).sent@.last().frame@ == heartbeat_text())
            },
    {
        if self.terminated {
            return ;
        }
        let ghost q0 = ch@;
        let ghost c0 = ch.is_closed();
        let ghost t0 = self.now;
        let ghost sent0 = self.sent@;
        let ghost mut relayed: Seq<TimedFrame> = Seq::empty();
        loop
            invariant
                !old(self).terminated,
                q0 == old(ch)@,
                t0 == old(self).now,
                sent0 == old(self).sent@,
                self.interval == old(self).interval,
                self.now == t0,
                self.now + self.interval <= u64::MAX,
                !self.terminated,
                ch.is_closed() == c0,
                c0 == old(ch).is_closed(),
                self.sent@ == sent0 + relayed,
                drain_relays(q0, t0) == relayed + drain_relays(ch@, t0),
                drain_stops(q0, c0) == drain_stops(ch@, c0),
                drain_rest(q0) == drain_rest(ch@),
            ensures
                ch@.len() == 0,
                !ch.is_closed(),
                q0 == old(ch)@,
                t0 == old(self).now,
                sent0 == old(self).sent@,
                self.interval == old(self).interval,
                self.now == t0,
                !self.terminated,
                c0 == old(ch).is_closed(),
                self.sent@ == sent0 + relayed,
                drain_relays(q0, t0) == relayed,
                !drain_stops(q0, c0),
                drain_rest(q0) == Seq::<ThreadEvent>::empty(),
            decreases ch@.len(),
        {
            let ghost q_here = ch@;
            let r = ch.try_recv();
            let cmd = writer_decide(r);
            match cmd {
                WriterCommand::Relay(p) => {
                    proof {
                        assert(q_here[0] == ThreadEvent::SendMessage(p));
                        assert(drain_relays(q_here, t0) == seq![
                            TimedFrame { at: t0, frame: p },
                        ] + drain_relays(ch@, t0));
                        relayed = relayed + seq![TimedFrame { at: t0, frame: p }];
                        assert(drain_relays(q0, t0) == relayed + drain_relays(ch@, t0));
                    }
                    self.sent.push(TimedFrame { at: self.now, frame: p });
                    proof {
                        assert(self.sent@ =~= sent0 + relayed);
                    }
                },
                WriterCommand::Beat => {
                    proof {
                        assert(q_here.len() == 0 && !ch.is_closed());
                        assert(drain_relays(q_here, t0) == Seq::<TimedFrame>::empty());
                        assert(relayed + drain_relays(ch@, t0) =~= relayed);
                        assert(drain_rest(q0) == Seq::<ThreadEvent>::empty());
                    }
                    break ;
                },
                WriterCommand::Stop => {
                    proof {
                        if q_here.len() > 0 {
                            assert(q_here[0] == ThreadEvent::Abort);
                            assert(drain_relays(q_here, t0) == Seq::<TimedFrame>::empty());
                            assert(drain_stops(q_here, c0));
                            assert(drain_rest(q_here) == q_here.skip(1));
                        } else {
                            assert(c0);
                        }
                        assert(relayed + Seq::<TimedFrame>::empty() =~= relayed);
                    }
                    self.terminated = true;
                    return ;
                },
            }
        }
        proof {
            assert(ch@ =~= Seq::<ThreadEvent>::empty());
        }
        self.now = self.now + self.interval;
        let hb = heartbeat_frame();
        self.sent.push(TimedFrame { at: self.now, frame: hb });
        proof {
            assert(self.sent@.take((sent0 + relayed).len() as int) =~= sent0 + relayed);
        }
    }

    /// Heartbeat cadence law: over an observation window of `k` whole
    /// periods in which no outbound traffic arrives -- the channel stays
    /// empty and open -- the writer emits exactly `k` heartbeat frames, the
    /// `i`-th of them `i` periods past the start of the window.
    pub fn observe_idle_window(&mut self, ch: &mut OutboundChannel, k: usize)
        requires
            !old(self).terminated,
            old(ch)@.len() == 0,
            !old(ch).is_closed(),
            old(self).now + k * old(self).interval <= u64::MAX,
        ensures
            final(ch)@ == old(ch)@,
            final(ch).is_closed() == old(ch).is_closed(),
            !final(self).terminated,
            final(self).interval == old(self).interval,
            final(self).now == old(self).now + k * old(self).interval,
            final(self).sent@.len() == old(self).sent@.len() + k,
            final(self).sent@.take(old(self).sent@.len() as int) == old(self).sent@,
            forall|i: int|
                0 <= i < k ==> (#[trigger] final(self).sent@[old(self).sent@.len() + i]).at
                    == old(self).now + (i + 1) * old(self).interval && final(self).sent@[old(
                    self,
                ).sent@.len() + i].frame@ == heartbeat_text(),
    {
        let ghost t0 = self.now;
        let ghost n0 = self.sent@.len();
        let ghost sent0 = self.sent@;
        let mut j: usize = 0;
        while j < k
            invariant
                j <= k,
                !old(self).terminated,
                t0 == old(self).now,
                n0 == old(self).sent@.len(),
                sent0 == old(self).sent@,
                self.interval == old(self).interval,
                !self.terminated,
                ch@ == old(ch)@,
                ch@.len() == 0,
                ch.is_closed() == old(ch).is_closed(),
                !ch.is_closed(),
                t0 + k * self.interval <= u64::MAX,
                self.now == t0 + j * self.interval,
                self.sent@.len() == n0 + j,
                self.sent@.take(n0 as int) == sent0,
                forall|i: int|
                    0 <= i < j ==> (#[trigger] self.sent@[n0 + i]).at == t0 + (i + 1)
                        * self.interval && self.sent@[n0 + i].frame@ == heartbeat_text(),
            decreases k - j,
        {
            proof {
                lemma_mul_inequality(j as int + 1, k as int, self.interval as int);
                lemma_mul_is_distributive_add_other_way(self.interval as int, j as int, 1);
            }
            let ghost prev = self.sent@;
            let ghost now_before = self.now;
            self.run_iteration(ch);
            proof {
                assert(drain_relays(old(ch)@, now_before) == Seq::<TimedFrame>::empty());
                assert(prev + Seq::<TimedFrame>::empty() =~= prev);
                assert(self.sent@.take(prev.len() as int) == prev);
                assert(self.sent@.take(n0 as int) =~= sent0);
                assert forall|i: int|
                    0 <= i < j + 1 implies (#[trigger] self.sent@[n0 + i]).at == t0 + (i + 1)
                    * self.interval && self.sent@[n0 + i].frame@ == heartbeat_text() by {
                    if i < j {
                        assert(self.sent@.take(prev.len() as int)[n0 + i] == prev[n0 + i]);
                        assert(self.sent@[n0 + i] == prev[n0 + i]);
                    } else {
                        assert(n0 + i == self.sent@.len() - 1);
                        assert(self.sent@[n0 + i] == self.sent@.last());
                    }
                }
            }
            j = j + 1;
        }
    }
}

} // verus!
