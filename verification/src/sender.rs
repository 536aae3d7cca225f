//! Network Sender: the send loop for both transports, as a state machine.
//! The surrounding program owns the socket and the blocking calls; this
//! module owns every decision. One connection is made before any frame
//! moves; on connection failure the run aborts at once with zero sends.
//! While streaming, each popped buffer is encoded and handed out as exactly
//! one frame. A failed transmit is fatal on TCP (the stream is broken, the
//! loop stops) and transient on UDP (the datagram is lost, the loop goes on).
//! The channel closing ends the run cleanly. A packet counter is kept for
//! observability only.

use vstd::prelude::*;
use crate::codec::{encode, frame_bytes};
use crate::config::Protocol;

verus! {

/// The fatal failures of a run.
#[derive(Clone, Copy, Debug, PartialEq, Eq, Structural)]
pub enum StreamError {
    /// The initial connect or bind failed; nothing was sent.
    Connection,
    /// A TCP write failed mid-stream; the loop stops.
    FatalSend,
}

/// Where the send loop stands.
#[derive(Clone, Copy, Debug, PartialEq, Eq, Structural)]
pub enum Phase {
    /// Before the connection attempt's outcome is known.
    Connecting,
    /// Connected, waiting on the channel for the next buffer.
    Streaming,
    /// A frame has been handed out, waiting on the transmit's outcome.
    Transmitting,
    /// The channel closed; the run ended cleanly.
    Finished,
    /// A fatal error ended the run.
    Failed,
}

/// What the outside world reports to the loop.
#[derive(Debug)]
pub enum Event {
    /// The connect (TCP) or bind-and-associate (UDP) succeeded.
    Connected,
    /// It failed.
    ConnectFailed,
    /// The channel yielded the next capture buffer.
    BufferReady(Vec<u32>),
    /// The channel is closed and drained.
    ChannelClosed,
    /// The last frame was written or sent in full.
    Transmitted,
    /// The write or send failed.
    TransmitFailed,
}

/// What the loop asks the outside world to do next.
#[derive(Debug)]
pub enum Action {
    /// Block on the channel for the next buffer.
    AwaitBuffer,
    /// Write (TCP) or send as one datagram (UDP) this encoded frame.
    Transmit(Vec<u8>),
    /// Clean exit.
    Finish,
    /// Fatal exit.
    Abort(StreamError),
}

/// One send loop's state: transport, phase, and the packet counters.
pub struct Session {
    protocol: Protocol,
    phase: Phase,
    attempted: u64,
    sent: u64,
}

impl Session {
    pub closed spec fn protocol(self) -> Protocol {
        self.protocol
    }

    pub closed spec fn phase(self) -> Phase {
        self.phase
    }

    /// Frames handed out for transmission so far.
    pub closed spec fn attempted(self) -> u64 {
        self.attempted
    }

    /// Frames whose transmission succeeded so far.
    pub closed spec fn sent(self) -> u64 {
        self.sent
    }

    /// The counters never run ahead of each other, and nothing is attempted
    /// before the connection's outcome is known.
    pub open spec fn wf(self) -> bool {
        &&& self.sent() <= self.attempted()
        &&& self.phase() is Connecting ==> self.attempted() == 0 && self.sent() == 0
        &&& self.phase() is Transmitting ==> self.sent() < self.attempted()
    }

    /// The events a phase can take: the connection outcome first, then in
    /// turn a channel outcome and a transmit outcome; nothing after the end.
    pub open spec fn accepts(self, event: Event) -> bool {
        match self.phase() {
            Phase::Connecting => event is Connected || event is ConnectFailed,
            Phase::Streaming => event matches Event::BufferReady(_) || event is ChannelClosed,
            Phase::Transmitting => event is Transmitted || event is TransmitFailed,
            Phase::Finished => false,
            Phase::Failed => false,
        }
    }

    /// A fresh loop for one transport: not yet connected, nothing counted.
    pub fn new(protocol: Protocol) -> (s: Session)
        ensures
            s.protocol() == protocol,
            s.phase() is Connecting,
            s.attempted() == 0,
            s.sent() == 0,
            s.wf(),
    {
        Session { protocol, phase: Phase::Connecting, attempted: 0, sent: 0 }
    }

    /// Runtime mirror of `accepts`, for a caller that must check before
    /// stepping.
    pub fn expects(&self, event: &Event) -> (r: bool)
        ensures
            r == self.accepts(*event),
    {
        match self.phase {
            Phase::Connecting => matches!(event, Event::Connected | Event::ConnectFailed),
            Phase::Streaming => matches!(event, Event::BufferReady(_) | Event::ChannelClosed),
            Phase::Transmitting => matches!(event, Event::Transmitted | Event::TransmitFailed),
            Phase::Finished => false,
            Phase::Failed => false,
        }
    }

    /// Runtime view of the phase.
    pub fn current_phase(&self) -> (p: Phase)
        ensures
            p == self.phase(),
    {
        self.phase
    }

    /// Runtime view of the counters: frames attempted and frames sent.
    pub fn packet_counts(&self) -> (c: (u64, u64))
        ensures
            c.0 == self.attempted(),
            c.1 == self.sent(),
    {
        (self.attempted, self.sent)
    }

    /// Advances the loop by one event and says what to do next:
    /// - a connection outcome either starts streaming or aborts with
    ///   `Connection` before anything was attempted or sent;
    /// - a popped buffer is encoded — four little-endian bytes per sample, in
    ///   order — and handed out as one frame, counted as attempted;
    /// - a transmit outcome counts one sent frame and returns to the channel,
    ///   except that a failure aborts a TCP run with `FatalSend` and is
    ///   skipped on a UDP run, the frame lost and nothing counted;
    /// - the closed channel ends the run cleanly.
    pub fn step(&mut self, event: Event) -> (action: Action)
        requires
            old(self).wf(),
            old(self).accepts(event),
            event matches Event::BufferReady(_) ==> old(self).attempted() < u64::MAX,
        ensures
            final(self).wf(),
            final(self).protocol() == old(self).protocol(),
            match event {
                Event::Connected => {
                    &&& final(self).phase() is Streaming
                    &&& final(self).attempted() == 0 && final(self).sent() == 0
                    &&& action is AwaitBuffer
                },
                Event::ConnectFailed => {
                    &&& final(self).phase() is Failed
                    &&& final(self).attempted() == 0 && final(self).sent() == 0
                    &&& action == Action::Abort(StreamError::Connection)
                },
                Event::BufferReady(buffer) => {
                    &&& final(self).phase() is Transmitting
                    &&& final(self).attempted() == old(self).attempted() + 1
                    &&& final(self).sent() == old(self).sent()
                    &&& action matches Action::Transmit(frame) && frame@ == frame_bytes(buffer@)
                },
                Event::ChannelClosed => {
                    &&& final(self).phase() is Finished
                    &&& final(self).attempted() == old(self).attempted()
                    &&& final(self).sent() == old(self).sent()
                    &&& action is Finish
                },
                Event::Transmitted => {
                    &&& final(self).phase() is Streaming
                    &&& final(self).attempted() == old(self).attempted()
                    &&& final(self).sent() == old(self).sent() + 1
                    &&& action is AwaitBuffer
                },
                Event::TransmitFailed => {
                    &&& final(self).attempted() == old(self).attempted()
                    &&& final(self).sent() == old(self).sent()
                    &&& (match old(self).protocol() {
                        Protocol::Tcp => final(self).phase() is Failed && action == Action::Abort(
                            StreamError::FatalSend,
                        ),
                        Protocol::Udp => final(self).phase() is Streaming
                            && action is AwaitBuffer,
                    })
                },
            },
    {
        match event {
            Event::Connected => {
                self.phase = Phase::Streaming;
                Action::AwaitBuffer
            },
            Event::ConnectFailed => {
                self.phase = Phase::Failed;
                Action::Abort(StreamError::Connection)
            },
            Event::BufferReady(buffer) => {
                self.phase = Phase::Transmitting;
                self.attempted = self.attempted + 1;
                Action::Transmit(encode(&buffer))
            },
            Event::ChannelClosed => {
                self.phase = Phase::Finished;
                Action::Finish
            },
            Event::Transmitted => {
                self.phase = Phase::Streaming;
                self.sent = self.sent + 1;
                Action::AwaitBuffer
            },
            Event::TransmitFailed => {
                match self.protocol {
                    Protocol::Tcp => {
                        self.phase = Phase::Failed;
                        Action::Abort(StreamError::FatalSend)
                    },
                    Protocol::Udp => {
                        self.phase = Phase::Streaming;
                        Action::AwaitBuffer
                    },
                }
            },
        }
    }
}

} // verus!
