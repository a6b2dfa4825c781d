//! Connection orchestrator: the decisions of the run loop, as a state machine
//! that performs no I/O itself.
//!
//! The driver always has one command pending. Its caller carries the command
//! out on the datagram channel or on the transport engine and hands back what
//! it saw as an observation. One round of the loop is: wait; feed what
//! arrived to the engine, or tick its timer; leave if the connection has
//! closed; open the session once the handshake is through; let the pipeline
//! issue a request and take in the session's events; flush the engine's
//! packets; leave if the connection has closed.
//!
//! An observation that does not answer the pending command is ignored, and
//! the command stays pending.

use crate::event::{CloseReason, SessionEvent};
use crate::pipeline::{Pipeline, PipelineView, Reaction, RunConfig};
use vstd::prelude::*;

verus! {

/// Why a run was given up.
#[derive(Clone, Copy, Debug, PartialEq, Eq, Structural)]
pub enum Failure {
    /// The engine had no first packet to send, or failed to make it.
    InitialSend,
    /// Waiting on the channel failed.
    Wait,
    /// Receiving from the channel failed.
    Receive,
    /// The session could not be set up on the established connection.
    Session,
    /// The session refused to issue a request.
    Request,
    /// The engine failed to produce a packet.
    Produce,
    /// The channel failed to send a packet.
    Transmit,
}

/// What the caller is to do next.
#[derive(Clone, Copy, Debug, PartialEq, Eq, Structural)]
pub enum Command {
    /// Wait until the channel is readable, for the engine's timeout at most.
    Wait,
    /// Tell the engine that its timeout has elapsed.
    Tick,
    /// Take one packet off the channel, without blocking, and feed it to the
    /// engine.
    Receive,
    /// Ask the engine whether the connection is closed, and whether it is
    /// established.
    Inspect,
    /// Set up the session on the connection.
    OpenSession,
    /// Issue the request on a new stream.
    Issue,
    /// Take the next event off the session.
    Poll,
    /// Read body data that is ready on the stream.
    ReadBody { stream_id: u64 },
    /// Ask the engine to close the connection.
    Close { reason: CloseReason },
    /// Have the engine produce its next packet.
    Produce,
    /// Send the packet just produced on the channel.
    Transmit,
    /// The run is over: report what was collected.
    Exit,
    /// The run has failed.
    Abort { failure: Failure },
}

/// What the caller saw when it carried out a command.
#[derive(Clone, Debug)]
pub enum Observation {
    /// `Wait`: the channel is readable.
    Ready,
    /// `Wait`: the timeout elapsed first.
    TimedOut,
    /// `Wait`: the wait itself failed.
    WaitFailed,
    /// `Tick`: done.
    Ticked,
    /// `Receive`: a packet arrived and the engine took it.
    Ingested,
    /// `Receive`: a packet arrived and the engine rejected it.
    Rejected,
    /// `Receive`: nothing more is waiting on the channel.
    Drained,
    /// `Receive`: the channel failed.
    ReceiveFailed,
    /// `Inspect`: the engine's view of the connection.
    Status { closed: bool, established: bool },
    /// `OpenSession`: the session is set up.
    SessionOpened,
    /// `OpenSession`: the session could not be set up.
    SessionFailed,
    /// `Issue`: the request went out on this stream.
    Issued { stream_id: u64 },
    /// `Issue`: the session refused the request.
    IssueFailed,
    /// `Poll`: the session's next event.
    Event { event: SessionEvent },
    /// `Poll`: the session has no more events for now.
    NoMoreEvents,
    /// `Poll`: the session failed to give an event.
    EventError,
    /// `ReadBody`: this many bytes were read.
    Body { len: u64 },
    /// `ReadBody`: no more body data is ready.
    BodyDone,
    /// `Close`: the engine was asked, whatever it answered.
    CloseRequested,
    /// `Produce`: the engine made a packet.
    Packet,
    /// `Produce`: the engine has nothing to send.
    NothingToSend,
    /// `Produce`: the engine failed.
    ProduceFailed,
    /// `Transmit`: the packet is on its way.
    Sent,
    /// `Transmit`: the channel cannot take the packet yet.
    WouldBlock,
    /// `Transmit`: the channel failed.
    TransmitFailed,
}

/// Where in the run loop the driver stands: which command is pending.
#[derive(Clone, Copy, Debug, PartialEq, Eq, Structural)]
pub enum Phase {
    /// The engine is to produce the first handshake packet.
    InitialProduce,
    /// The first handshake packet is to be sent.
    InitialTransmit,
    /// Waiting for the channel or the timeout.
    Waiting,
    /// The timeout elapsed: the engine's timer is to be ticked.
    Ticking,
    /// Draining the packets that wait on the channel.
    Receiving,
    /// After input, before the pipeline: has the connection closed, is it
    /// established?
    Inspecting,
    /// The connection is established and the session is to be set up.
    OpeningSession,
    /// The pipeline has a request to issue.
    Issuing,
    /// Draining the session's events.
    Polling,
    /// Draining the body data of the request in flight.
    ReadingBody { stream_id: u64 },
    /// The connection is to be asked to close.
    Closing { reason: CloseReason },
    /// Flushing: the engine is to produce its next packet.
    Producing,
    /// Flushing: the packet just produced is to be sent.
    Transmitting,
    /// After the flush: has the connection closed?
    Confirming,
    /// The connection has closed.
    Finished,
    /// The run was given up.
    Failed { failure: Failure },
}

impl Phase {
    /// The command that is pending in this phase.
    pub open spec fn command(self) -> Command {
        match self {
            Phase::InitialProduce => Command::Produce,
            Phase::InitialTransmit => Command::Transmit,
            Phase::Waiting => Command::Wait,
            Phase::Ticking => Command::Tick,
            Phase::Receiving => Command::Receive,
            Phase::Inspecting => Command::Inspect,
            Phase::OpeningSession => Command::OpenSession,
            Phase::Issuing => Command::Issue,
            Phase::Polling => Command::Poll,
            Phase::ReadingBody { stream_id } => Command::ReadBody { stream_id },
            Phase::Closing { reason } => Command::Close { reason },
            Phase::Producing => Command::Produce,
            Phase::Transmitting => Command::Transmit,
            Phase::Confirming => Command::Inspect,
            Phase::Finished => Command::Exit,
            Phase::Failed { failure } => Command::Abort { failure },
        }
    }

    /// The phase that carries out what the pipeline asked for after an event.
    pub open spec fn after_event(reaction: Reaction) -> Phase {
        match reaction {
            Reaction::Continue => Phase::Polling,
            Reaction::ReadBody { stream_id } => Phase::ReadingBody { stream_id },
            Reaction::Close { reason } => Phase::Closing { reason },
        }
    }

    /// Whether the run is over in this phase, one way or the other.
    pub open spec fn is_terminal(self) -> bool {
        self is Finished || self is Failed
    }
}

/// The driver as a mathematical value.
pub struct DriverView {
    pub phase: Phase,
    /// Whether the session has been set up.
    pub session: bool,
    pub pipeline: PipelineView,
}

impl DriverView {
    /// The driver at the start of a run.
    pub open spec fn fresh(config: RunConfig) -> DriverView {
        DriverView {
            phase: Phase::InitialProduce,
            session: false,
            pipeline: PipelineView::fresh(config),
        }
    }

    /// The command that is pending.
    pub open spec fn pending(self) -> Command {
        self.phase.command()
    }

    /// This driver in another phase.
    pub open spec fn at(self, phase: Phase) -> DriverView {
        DriverView { phase, ..self }
    }

    /// The phase in which the pipeline's part of a round begins: with a
    /// session, a request is issued if the pipeline has one to issue, and the
    /// events are drained; without one, the round goes on to the flush.
    pub open spec fn pipeline_entry(self) -> Phase {
        if !self.session {
            Phase::Producing
        } else if self.pipeline.can_issue() {
            Phase::Issuing
        } else {
            Phase::Polling
        }
    }

    /// The driver after `obs`, seen at `now`, answered the pending command.
    pub open spec fn next(self, obs: Observation, now: u64) -> DriverView {
        match self.phase {
            Phase::InitialProduce => match obs {
                Observation::Packet => self.at(Phase::InitialTransmit),
                Observation::NothingToSend => self.at(
                    Phase::Failed { failure: Failure::InitialSend },
                ),
                Observation::ProduceFailed => self.at(
                    Phase::Failed { failure: Failure::InitialSend },
                ),
                _ => self,
            },
            Phase::InitialTransmit => match obs {
                Observation::Sent => self.at(Phase::Waiting),
                Observation::WouldBlock => self.at(Phase::InitialTransmit),
                Observation::TransmitFailed => self.at(
                    Phase::Failed { failure: Failure::Transmit },
                ),
                _ => self,
            },
            Phase::Waiting => match obs {
                Observation::Ready => self.at(Phase::Receiving),
                Observation::TimedOut => self.at(Phase::Ticking),
                Observation::WaitFailed => self.at(Phase::Failed { failure: Failure::Wait }),
                _ => self,
            },
            Phase::Ticking => match obs {
                Observation::Ticked => self.at(Phase::Inspecting),
                _ => self,
            },
            Phase::Receiving => match obs {
                Observation::Ingested => self.at(Phase::Receiving),
                Observation::Rejected => self.at(Phase::Receiving),
                Observation::Drained => self.at(Phase::Inspecting),
                Observation::ReceiveFailed => self.at(
                    Phase::Failed { failure: Failure::Receive },
                ),
                _ => self,
            },
            Phase::Inspecting => match obs {
                Observation::Status { closed, established } => if closed {
                    self.at(Phase::Finished)
                } else if established && !self.session {
                    self.at(Phase::OpeningSession)
                } else {
                    self.at(self.pipeline_entry())
                },
                _ => self,
            },
            Phase::OpeningSession => match obs {
                Observation::SessionOpened => {
                    let opened = DriverView { session: true, ..self };
                    opened.at(opened.pipeline_entry())
                },
                Observation::SessionFailed => self.at(
                    Phase::Failed { failure: Failure::Session },
                ),
                _ => self,
            },
            Phase::Issuing => match obs {
                Observation::Issued { stream_id } => DriverView {
                    phase: Phase::Polling,
                    pipeline: self.pipeline.issue(stream_id, now),
                    ..self
                },
                Observation::IssueFailed => self.at(Phase::Failed { failure: Failure::Request }),
                _ => self,
            },
            Phase::Polling => match obs {
                Observation::Event { event } => DriverView {
                    phase: Phase::after_event(self.pipeline.reaction(event@)),
                    pipeline: self.pipeline.on_event(event@, now),
                    ..self
                },
                Observation::NoMoreEvents => self.at(Phase::Producing),
                Observation::EventError => self.at(Phase::Producing),
                _ => self,
            },
            Phase::ReadingBody { stream_id } => match obs {
                Observation::Body { len } => DriverView {
                    pipeline: self.pipeline.on_body(stream_id, len),
                    ..self
                },
                Observation::BodyDone => self.at(Phase::Polling),
                _ => self,
            },
            Phase::Closing { reason } => match obs {
                Observation::CloseRequested => if reason == CloseReason::Failure {
                    self.at(Phase::Failed { failure: Failure::Produce })
                } else {
                    self.at(Phase::Polling)
                },
                _ => self,
            },
            Phase::Producing => match obs {
                Observation::Packet => self.at(Phase::Transmitting),
                Observation::NothingToSend => self.at(Phase::Confirming),
                Observation::ProduceFailed => self.at(
                    Phase::Closing { reason: CloseReason::Failure },
                ),
                _ => self,
            },
            Phase::Transmitting => match obs {
                Observation::Sent => self.at(Phase::Producing),
                Observation::WouldBlock => self.at(Phase::Transmitting),
                Observation::TransmitFailed => self.at(
                    Phase::Failed { failure: Failure::Transmit },
                ),
                _ => self,
            },
            Phase::Confirming => match obs {
                Observation::Status { closed, established } => if closed {
                    self.at(Phase::Finished)
                } else {
                    self.at(Phase::Waiting)
                },
                _ => self,
            },
            Phase::Finished => self,
            Phase::Failed { failure } => self,
        }
    }

    /// What holds of a driver at every point of a run: a request is about to
    /// be issued only while none is in flight and the run has one left, body
    /// data is read only from the stream of the request in flight, the
    /// session is about to be set up only while there is none, and without a
    /// session no request has been issued.
    pub open spec fn wf(self) -> bool {
        &&& self.pipeline.wf()
        &&& !self.session ==> self.pipeline.sent == 0
        &&& self.phase is OpeningSession ==> !self.session
        &&& self.phase is Issuing ==> self.session && self.pipeline.can_issue()
        &&& self.phase matches Phase::ReadingBody { stream_id } ==> self.session
            && self.pipeline.owns(stream_id)
        &&& self.phase is Polling ==> self.session
        &&& self.phase matches Phase::Closing { reason } ==> (reason != CloseReason::Failure
            ==> self.session)
    }
}

/// The connection orchestrator of one run.
pub struct Driver {
    phase: Phase,
    session: bool,
    pipeline: Pipeline,
}

impl View for Driver {
    type V = DriverView;

    closed spec fn view(&self) -> DriverView {
        DriverView { phase: self.phase, session: self.session, pipeline: self.pipeline@ }
    }
}

impl Driver {
    /// What holds of a driver at every point of a run.
    pub open spec fn wf(&self) -> bool {
        self@.wf()
    }

    /// Makes the driver of a run. Its first command is to produce the first
    /// handshake packet.
    pub fn new(config: RunConfig) -> (d: Driver)
        ensures
            d@ == DriverView::fresh(config),
            d.wf(),
    {
        Driver { phase: Phase::InitialProduce, session: false, pipeline: Pipeline::new(config) }
    }

    /// Gives the command that is pending.
    pub fn pending(&self) -> (cmd: Command)
        ensures
            cmd == self@.pending(),
    {
        match self.phase {
            Phase::InitialProduce => Command::Produce,
            Phase::InitialTransmit => Command::Transmit,
            Phase::Waiting => Command::Wait,
            Phase::Ticking => Command::Tick,
            Phase::Receiving => Command::Receive,
            Phase::Inspecting => Command::Inspect,
            Phase::OpeningSession => Command::OpenSession,
            Phase::Issuing => Command::Issue,
            Phase::Polling => Command::Poll,
            Phase::ReadingBody { stream_id } => Command::ReadBody { stream_id },
            Phase::Closing { reason } => Command::Close { reason },
            Phase::Producing => Command::Produce,
            Phase::Transmitting => Command::Transmit,
            Phase::Confirming => Command::Inspect,
            Phase::Finished => Command::Exit,
            Phase::Failed { failure } => Command::Abort { failure },
        }
    }

    /// Gives the phase of the run loop in which the driver stands.
    pub fn phase(&self) -> (r: Phase)
        ensures
            r == self@.phase,
    {
        self.phase
    }

    /// Tells whether the session has been set up.
    pub fn has_session(&self) -> (r: bool)
        ensures
            r == self@.session,
    {
        self.session
    }

    /// Tells whether the run is over, one way or the other.
    pub fn is_over(&self) -> (r: bool)
        ensures
            r == self@.phase.is_terminal(),
    {
        match self.phase {
            Phase::Finished => true,
            Phase::Failed { failure } => true,
            _ => false,
        }
    }

    /// Gives the request pipeline of the run.
    pub fn pipeline(&self) -> (r: &Pipeline)
        ensures
            r@ == self@.pipeline,
    {
        &self.pipeline
    }

    /// Starts the pipeline's part of a round.
    fn enter_pipeline(&mut self)
        requires
            old(self).pipeline.wf(),
            !old(self).session ==> old(self).pipeline@.sent == 0,
        ensures
            final(self)@ == old(self)@.at(old(self)@.pipeline_entry()),
            final(self).wf(),
    {
        if !self.session {
            self.phase = Phase::Producing;
        } else if self.pipeline.maybe_issue_next() {
            self.phase = Phase::Issuing;
        } else {
            self.phase = Phase::Polling;
        }
    }

    /// Takes in what the caller saw at `now` when it carried out the pending
    /// command, and gives the next command.
    pub fn step(&mut self, obs: &Observation, now: u64) -> (cmd: Command)
        requires
            old(self).wf(),
        ensures
            final(self).wf(),
            final(self)@ == old(self)@.next(*obs, now),
            cmd == final(self)@.pending(),
    {
        match self.phase {
            Phase::InitialProduce => match obs {
                Observation::Packet => {
                    self.phase = Phase::InitialTransmit;
                },
                Observation::NothingToSend => {
                    self.phase = Phase::Failed { failure: Failure::InitialSend };
                },
                Observation::ProduceFailed => {
                    self.phase = Phase::Failed { failure: Failure::InitialSend };
                },
                _ => {},
            },
            Phase::InitialTransmit => match obs {
                Observation::Sent => {
                    self.phase = Phase::Waiting;
                },
                Observation::TransmitFailed => {
                    self.phase = Phase::Failed { failure: Failure::Transmit };
                },
                _ => {},
            },
            Phase::Waiting => match obs {
                Observation::Ready => {
                    self.phase = Phase::Receiving;
                },
                Observation::TimedOut => {
                    self.phase = Phase::Ticking;
                },
                Observation::WaitFailed => {
                    self.phase = Phase::Failed { failure: Failure::Wait };
                },
                _ => {},
            },
            Phase::Ticking => match obs {
                Observation::Ticked => {
                    self.phase = Phase::Inspecting;
                },
                _ => {},
            },
            Phase::Receiving => match obs {
                Observation::Drained => {
                    self.phase = Phase::Inspecting;
                },
                Observation::ReceiveFailed => {
                    self.phase = Phase::Failed { failure: Failure::Receive };
                },
                _ => {},
            },
            Phase::Inspecting => match obs {
                Observation::Status { closed, established } => {
                    if *closed {
                        self.phase = Phase::Finished;
                    } else if *established && !self.session {
                        self.phase = Phase::OpeningSession;
                    } else {
                        self.enter_pipeline();
                    }
                },
                _ => {},
            },
            Phase::OpeningSession => match obs {
                Observation::SessionOpened => {
                    self.session = true;
                    self.enter_pipeline();
                },
                Observation::SessionFailed => {
                    self.phase = Phase::Failed { failure: Failure::Session };
                },
                _ => {},
            },
            Phase::Issuing => match obs {
                Observation::Issued { stream_id } => {
                    self.pipeline.record_issue(*stream_id, now);
                    self.phase = Phase::Polling;
                },
                Observation::IssueFailed => {
                    self.phase = Phase::Failed { failure: Failure::Request };
                },
                _ => {},
            },
            Phase::Polling => match obs {
                Observation::Event { event } => {
                    let reaction = self.pipeline.handle_event(event, now);
                    self.phase = match reaction {
                        Reaction::Continue => Phase::Polling,
                        Reaction::ReadBody { stream_id } => Phase::ReadingBody { stream_id },
                        Reaction::Close { reason } => Phase::Closing { reason },
                    };
                },
                Observation::NoMoreEvents => {
                    self.phase = Phase::Producing;
                },
                Observation::EventError => {
                    self.phase = Phase::Producing;
                },
                _ => {},
            },
            Phase::ReadingBody { stream_id } => match obs {
                Observation::Body { len } => {
                    self.pipeline.record_body(stream_id, *len);
                },
                Observation::BodyDone => {
                    self.phase = Phase::Polling;
                },
                _ => {},
            },
            Phase::Closing { reason } => match obs {
                Observation::CloseRequested => {
                    self.phase = match reason {
                        CloseReason::Failure => Phase::Failed { failure: Failure::Produce },
                        _ => Phase::Polling,
                    };
                },
                _ => {},
            },
            Phase::Producing => match obs {
                Observation::Packet => {
                    self.phase = Phase::Transmitting;
                },
                Observation::NothingToSend => {
                    self.phase = Phase::Confirming;
                },
                Observation::ProduceFailed => {
                    self.phase = Phase::Closing { reason: CloseReason::Failure };
                },
                _ => {},
            },
            Phase::Transmitting => match obs {
                Observation::Sent => {
                    self.phase = Phase::Producing;
                },
                Observation::TransmitFailed => {
                    self.phase = Phase::Failed { failure: Failure::Transmit };
                },
                _ => {},
            },
            Phase::Confirming => match obs {
                Observation::Status { closed, established } => {
                    if *closed {
                        self.phase = Phase::Finished;
                    } else {
                        self.phase = Phase::Waiting;
                    }
                },
                _ => {},
            },
            Phase::Finished => {},
            Phase::Failed { failure } => {},
        }
        self.pending()
    }
}

} // verus!
