//! What the session layer reports, as a tagged event.

use crate::header::{header_views, Header, HeaderView};
use vstd::prelude::*;

verus! {

/// One occurrence reported by the session layer.
#[derive(Clone, Debug)]
pub enum SessionEvent {
    /// Response headers arrived on a stream.
    Headers { stream_id: u64, list: Vec<Header> },
    /// Body data is ready to be read from a stream.
    Data { stream_id: u64 },
    /// A stream completed normally.
    Finished { stream_id: u64 },
    /// The peer reset a stream, with its error code.
    Reset { stream_id: u64, error_code: u64 },
    /// A priority update arrived for a stream.
    PriorityUpdate { stream_id: u64 },
    /// The peer announced that it is going away.
    GoAway { id: u64 },
}

/// What a session event holds.
pub enum EventView {
    Headers { stream_id: u64, list: Seq<HeaderView> },
    Data { stream_id: u64 },
    Finished { stream_id: u64 },
    Reset { stream_id: u64, error_code: u64 },
    PriorityUpdate { stream_id: u64 },
    GoAway { id: u64 },
}

impl View for SessionEvent {
    type V = EventView;

    open spec fn view(&self) -> EventView {
        match *self {
            SessionEvent::Headers { stream_id, list } => EventView::Headers {
                stream_id,
                list: header_views(list@),
            },
            SessionEvent::Data { stream_id } => EventView::Data { stream_id },
            SessionEvent::Finished { stream_id } => EventView::Finished { stream_id },
            SessionEvent::Reset { stream_id, error_code } => EventView::Reset {
                stream_id,
                error_code,
            },
            SessionEvent::PriorityUpdate { stream_id } => EventView::PriorityUpdate { stream_id },
            SessionEvent::GoAway { id } => EventView::GoAway { id },
        }
    }
}

/// Why the connection is asked to close.
#[derive(Clone, Copy, Debug, PartialEq, Eq, Structural)]
pub enum CloseReason {
    /// Every configured request has completed.
    Done,
    /// The peer is going away.
    GoAway,
    /// The engine failed to produce a packet.
    Failure,
}

impl CloseReason {
    /// Whether the close is graceful. Only the close after a failure is not.
    pub open spec fn is_graceful(self) -> bool {
        self != CloseReason::Failure
    }

    /// The error code that goes with the close.
    pub open spec fn error_code(self) -> u64 {
        match self {
            CloseReason::Done => 0x100,
            CloseReason::GoAway => 0x100,
            CloseReason::Failure => 0x1,
        }
    }

    /// The reason phrase: `done`, `goaway` or `fail`.
    pub open spec fn phrase(self) -> Seq<u8> {
        match self {
            CloseReason::Done => seq![0x64u8, 0x6fu8, 0x6eu8, 0x65u8],
            CloseReason::GoAway => seq![0x67u8, 0x6fu8, 0x61u8, 0x77u8, 0x61u8, 0x79u8],
            CloseReason::Failure => seq![0x66u8, 0x61u8, 0x69u8, 0x6cu8],
        }
    }

    /// Tells whether the close is graceful.
    pub fn graceful(&self) -> (r: bool)
        ensures
            r == self.is_graceful(),
    {
        match self {
            CloseReason::Failure => false,
            _ => true,
        }
    }

    /// Gives the error code that goes with the close.
    pub fn code(&self) -> (r: u64)
        ensures
            r == self.error_code(),
    {
        match self {
            CloseReason::Failure => 0x1,
            _ => 0x100,
        }
    }

    /// Gives the reason phrase that goes with the close.
    pub fn reason(&self) -> (r: Vec<u8>)
        ensures
            r@ == self.phrase(),
    {
        match self {
            CloseReason::Done => vec![0x64u8, 0x6fu8, 0x6eu8, 0x65u8],
            CloseReason::GoAway => vec![0x67u8, 0x6fu8, 0x61u8, 0x77u8, 0x61u8, 0x79u8],
            CloseReason::Failure => vec![0x66u8, 0x61u8, 0x69u8, 0x6cu8],
        }
    }
}

} // verus!
