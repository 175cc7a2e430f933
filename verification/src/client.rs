//! The gateway client: the connection lifecycle state machine and the
//! foreground read loop that dispatches inbound frames to the consumer.
use vstd::prelude::*;

use crate::protocol::Frame;
use crate::protocol::NegotiationError;
use crate::protocol::hello_outcome;
use crate::protocol::identify_text;
use crate::protocol::negotiate;

verus! {

/// Where the connection stands in its lifecycle.
#[derive(PartialEq, Eq, Structural, Debug, Clone, Copy)]
pub enum ClientState {
    Disconnected,
    Negotiating,
    SteadyState,
    Closing,
}

/// What one receive on the transport's read half yielded.
pub enum ReadInput {
    /// A frame arrived.
    Frame(Frame),
    /// The read half reported an error.
    Failed,
    /// The read half reported a clean close.
    End,
}

/// Why the read loop ended.
#[derive(PartialEq, Eq, Structural, Debug, Clone, Copy)]
pub enum CloseReason {
    CleanClose,
    ReadError,
    Aborted,
}

/// What the read loop does with one receive.
pub enum ReadOutcome {
    /// Hand this text payload to the consumer callback.
    Dispatch(String),
    /// A non-text frame: ignored.
    Ignore,
    /// The stream ended: the loop terminates with this reason, exactly once.
    Terminal(CloseReason),
}

/// The payloads a mocked inbound stream dispatches: every text payload that
/// precedes the first error or close, in arrival order.
pub open spec fn dispatches_of(q: Seq<ReadInput>) -> Seq<String>
    decreases q.len(),
{
    if q.len() == 0 {
        Seq::empty()
    } else {
        match q[0] {
            ReadInput::Frame(Frame::Text(p)) => seq![p] + dispatches_of(q.skip(1)),
            ReadInput::Frame(Frame::Other) => dispatches_of(q.skip(1)),
            ReadInput::Failed => Seq::empty(),
            ReadInput::End => Seq::empty(),
        }
    }
}

/// The terminal outcome a mocked inbound stream produces, decided by the
/// first error or close in it, if any.
pub open spec fn terminal_reason(q: Seq<ReadInput>) -> Option<CloseReason>
    decreases q.len(),
{
    if q.len() == 0 {
        None
    } else {
        match q[0] {
            ReadInput::Frame(_) => terminal_reason(q.skip(1)),
            ReadInput::Failed => Some(CloseReason::ReadError),
            ReadInput::End => Some(CloseReason::CleanClose),
        }
    }
}

/// The gateway client. The token is fixed at construction; the heartbeat
/// interval is written once, by a successful negotiation; the state walks
/// Disconnected -> Negotiating -> SteadyState -> Closing -> Disconnected.
pub struct GatewayClient {
    pub token: String,
    pub heartbeat_interval: u64,
    pub state: ClientState,
}

impl GatewayClient {
    /// A fresh, disconnected client holding the caller's token.
    pub fn new(token: String) -> (c: Self)
        ensures
            c.token == token,
            c.heartbeat_interval == 0,
            c.state == ClientState::Disconnected,
    {
        GatewayClient { token, heartbeat_interval: 0, state: ClientState::Disconnected }
    }

    /// Begins a connection attempt: the transport is being opened and the
    /// first frame is awaited.
    pub fn start(&mut self)
        requires
            old(self).state == ClientState::Disconnected,
        ensures
            final(self).state == ClientState::Negotiating,
            final(self).token == old(self).token,
            final(self).heartbeat_interval == old(self).heartbeat_interval,
    {
        self.state = ClientState::Negotiating;
    }

    /// Records that opening the transport failed: the attempt is abandoned
    /// and the error surfaces to the caller.
    pub fn connect_failed(&mut self)
        requires
            old(self).state == ClientState::Negotiating,
        ensures
            final(self).state == ClientState::Disconnected,
            final(self).token == old(self).token,
            final(self).heartbeat_interval == old(self).heartbeat_interval,
    {
        self.state = ClientState::Disconnected;
    }

    /// Completes the handshake on the first inbound frame. On a well-formed
    /// Hello the negotiated interval is stored, the client enters steady
    /// state, and the Identify frame to send comes back; on anything else
    /// the connection is torn down and the error says what was wrong.
    pub fn complete_negotiation(&mut self, frame: &Frame) -> (r: Result<String, NegotiationError>)
        requires
            old(self).state == ClientState::Negotiating,
        ensures
            final(self).token == old(self).token,
            match r {
                Ok(identify) => hello_outcome(*frame)
                    == Ok::<u64, NegotiationError>(final(self).heartbeat_interval)
                    && final(self).state == ClientState::SteadyState
                    && identify@ == identify_text(old(self).token@),
                Err(e) => hello_outcome(*frame) == Err::<u64, NegotiationError>(e)
                    && final(self).state == ClientState::Disconnected
                    && final(self).heartbeat_interval == old(self).heartbeat_interval,
            },
    {
        match negotiate(frame, self.token.as_str()) {
            Ok(out) => {
                self.heartbeat_interval = out.0;
                self.state = ClientState::SteadyState;
                Ok(out.1)
            },
            Err(e) => {
                self.state = ClientState::Disconnected;
                Err(e)
            },
        }
    }

    /// One step of the foreground read loop: a text frame is dispatched to
    /// the consumer, a non-text frame is ignored, and an error or a clean
    /// close moves the client to Closing with the matching terminal reason.
    pub fn on_read(&mut self, input: ReadInput) -> (r: ReadOutcome)
        requires
            old(self).state == ClientState::SteadyState,
        ensures
            final(self).token == old(self).token,
            final(self).heartbeat_interval == old(self).heartbeat_interval,
            match input {
                ReadInput::Frame(Frame::Text(p)) => r == ReadOutcome::Dispatch(p)
                    && final(self).state == ClientState::SteadyState,
                ReadInput::Frame(Frame::Other) => r == ReadOutcome::Ignore
                    && final(self).state == ClientState::SteadyState,
                ReadInput::Failed => r == ReadOutcome::Terminal(CloseReason::ReadError)
                    && final(self).state == ClientState::Closing,
                ReadInput::End => r == ReadOutcome::Terminal(CloseReason::CleanClose)
                    && final(self).state == ClientState::Closing,
            },
    {
        match input {
            ReadInput::Frame(f) => match f {
                Frame::Text(p) => ReadOutcome::Dispatch(p),
                Frame::Other => ReadOutcome::Ignore,
            },
            ReadInput::Failed => {
                self.state = ClientState::Closing;
                ReadOutcome::Terminal(CloseReason::ReadError)
            },
            ReadInput::End => {
                self.state = ClientState::Closing;
                ReadOutcome::Terminal(CloseReason::CleanClose)
            },
        }
    }

    /// The caller-issued cancellation: moves a live connection to Closing.
    /// Idempotent: issuing it again changes nothing.
    pub fn abort(&mut self)
        requires
            old(self).state == ClientState::SteadyState || old(self).state == ClientState::Closing,
        ensures
            final(self).state == ClientState::Closing,
            final(self).token == old(self).token,
            final(self).heartbeat_interval == old(self).heartbeat_interval,
    {
        self.state = ClientState::Closing;
    }

    /// Releases the connection: the terminal status has been reported and
    /// the client is back where a fresh start is possible.
    pub fn finish_close(&mut self)
        requires
            old(self).state == ClientState::Closing,
        ensures
            final(self).state == ClientState::Disconnected,
            final(self).token == old(self).token,
            final(self).heartbeat_interval == old(self).heartbeat_interval,
    {
        self.state = ClientState::Disconnected;
    }

    /// Disconnection propagation law: run over a mocked inbound stream, the
    /// read loop dispatches every text payload that precedes the first error
    /// or close, in order; that first error or close yields a terminal
    /// reason exactly once and stops the loop, which never reads past it.
    pub fn read_session(&mut self, inputs: Vec<ReadInput>) -> (r: (Vec<String>, Option<
        CloseReason,
    >))
        requires
            old(self).state == ClientState::SteadyState,
        ensures
            final(self).token == old(self).token,
            final(self).heartbeat_interval == old(self).heartbeat_interval,
            r.0@ == dispatches_of(inputs@),
            r.1 == terminal_reason(inputs@),
            r.1 is Some ==> final(self).state == ClientState::Closing,
            r.1 is None ==> final(self).state == ClientState::SteadyState,
    {
        let mut rest = inputs;
        let mut dispatched: Vec<String> = Vec::new();
        let ghost q0 = inputs@;
        loop
            invariant
                q0 == inputs@,
                old(self).state == ClientState::SteadyState,
                self.state == ClientState::SteadyState,
                self.token == old(self).token,
                self.heartbeat_interval == old(self).heartbeat_interval,
                dispatches_of(q0) == dispatched@ + dispatches_of(rest@),
                terminal_reason(q0) == terminal_reason(rest@),
            ensures
                rest@.len() == 0,
                self.state == ClientState::SteadyState,
                self.token == old(self).token,
                self.heartbeat_interval == old(self).heartbeat_interval,
                dispatches_of(q0) == dispatched@ + dispatches_of(rest@),
                terminal_reason(q0) == terminal_reason(rest@),
            decreases rest@.len(),
        {
            if rest.len() == 0 {
                break ;
            }
            let ghost q_here = rest@;
            let input = rest.remove(0);
            let out = self.on_read(input);
            match out {
                ReadOutcome::Dispatch(p) => {
                    proof {
                        assert(q_here[0] == ReadInput::Frame(Frame::Text(p)));
                        assert(dispatches_of(q_here) == seq![p] + dispatches_of(rest@));
                    }
                    dispatched.push(p);
                    proof {
                        assert(dispatched@ + dispatches_of(rest@) =~= dispatches_of(q0));
                    }
                },
                ReadOutcome::Ignore => {},
                ReadOutcome::Terminal(reason) => {
                    proof {
                        assert(dispatches_of(q_here) == Seq::<String>::empty());
                        assert(dispatched@ + Seq::<String>::empty() =~= dispatched@);
                        assert(terminal_reason(q_here) == Some(reason));
                    }
                    return (dispatched, Some(reason));
                },
            }
        }
        proof {
            assert(dispatched@ + Seq::<String>::empty() =~= dispatched@);
        }
        (dispatched, None)
    }
}

} // verus!
