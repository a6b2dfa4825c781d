//! Latency recorder: the request in flight and the record of a completed one.
//!
//! Instants are readings of a monotonic clock in nanoseconds, counted from an
//! origin that the caller picks once. A reading that lies before an instant
//! already noted for the request is taken as that instant: no time passed.

use crate::header::{header_views, scan_status, status_after, Header, HeaderView};
use vstd::prelude::*;

verus! {

/// The record of one measured request. Both times are in nanoseconds.
#[derive(Clone, Copy, Debug, PartialEq, Eq, Structural)]
pub struct RequestResult {
    /// Position among the requests issued after the warmup, from 0.
    pub index: u32,
    /// Response status, 0 where none was read.
    pub status: u16,
    /// From the request's issue to its first response headers.
    pub ttfb: u64,
    /// From the request's issue to its completion.
    pub total_time: u64,
    /// Body bytes received.
    pub bytes_received: u64,
}

/// The one request that is outstanding.
#[derive(Clone, Copy, Debug)]
pub struct InflightRequest {
    /// When the request was issued.
    pub start: u64,
    /// When its first response headers arrived, if they have.
    pub first_byte: Option<u64>,
    /// Response status, 0 while unset.
    pub status: u16,
    /// Body bytes received so far.
    pub bytes_received: u64,
    /// The stream that carries the request.
    pub stream_id: u64,
}

/// The later of two instants.
pub open spec fn later(a: u64, b: u64) -> u64 {
    if a >= b {
        a
    } else {
        b
    }
}

/// The sum of two byte counts, held at the largest count a `u64` can carry.
pub open spec fn capped_sum(a: u64, b: u64) -> u64 {
    if a + b <= u64::MAX {
        (a + b) as u64
    } else {
        u64::MAX
    }
}

impl InflightRequest {
    /// The first-byte instant, if there is one, is not before the issue.
    pub open spec fn wf(self) -> bool {
        self.first_byte matches Some(t) ==> self.start <= t
    }

    /// A request just issued on `stream_id` at `now`.
    pub open spec fn opened(stream_id: u64, now: u64) -> InflightRequest {
        InflightRequest { start: now, first_byte: None, status: 0, bytes_received: 0, stream_id }
    }

    /// The request after response headers `list` arrived at `now`: the first
    /// arrival fixes the first-byte instant, and a `:status` field in the
    /// list sets the status.
    pub open spec fn with_headers(self, list: Seq<HeaderView>, now: u64) -> InflightRequest {
        InflightRequest {
            first_byte: match self.first_byte {
                Some(t) => Some(t),
                None => Some(later(now, self.start)),
            },
            status: status_after(self.status, list),
            ..self
        }
    }

    /// The request after `len` more body bytes were read.
    pub open spec fn with_body(self, len: u64) -> InflightRequest {
        InflightRequest { bytes_received: capped_sum(self.bytes_received, len), ..self }
    }

    /// The instant at which a completion observed at `now` is taken to have
    /// happened: `now`, but not before anything already noted.
    pub open spec fn end_instant(self, now: u64) -> u64 {
        match self.first_byte {
            Some(t) => later(now, later(t, self.start)),
            None => later(now, self.start),
        }
    }

    /// The record of this request, completed at `now`, under `index`. Without
    /// a first-byte instant the time to first byte is the total time.
    pub open spec fn completed(self, index: u32, now: u64) -> RequestResult {
        let end = self.end_instant(now);
        RequestResult {
            index,
            status: self.status,
            ttfb: match self.first_byte {
                Some(t) => (later(t, self.start) - self.start) as u64,
                None => (end - self.start) as u64,
            },
            total_time: (end - self.start) as u64,
            bytes_received: self.bytes_received,
        }
    }

    /// Starts the record of a request issued on `stream_id` at `now`.
    pub fn new(stream_id: u64, now: u64) -> (r: InflightRequest)
        ensures
            r == InflightRequest::opened(stream_id, now),
            r.wf(),
    {
        InflightRequest { start: now, first_byte: None, status: 0, bytes_received: 0, stream_id }
    }

    /// Notes response headers that arrived at `now`.
    pub fn on_headers(&mut self, list: &Vec<Header>, now: u64)
        ensures
            *final(self) == old(self).with_headers(header_views(list@), now),
            old(self).wf() ==> final(self).wf(),
    {
        if self.first_byte.is_none() {
            let t: u64 = if now >= self.start {
                now
            } else {
                self.start
            };
            self.first_byte = Some(t);
        }
        self.status = scan_status(self.status, list);
    }

    /// Notes `len` more body bytes.
    pub fn on_body(&mut self, len: u64)
        ensures
            *final(self) == old(self).with_body(len),
            old(self).wf() ==> final(self).wf(),
    {
        self.bytes_received = if len <= u64::MAX - self.bytes_received {
            self.bytes_received + len
        } else {
            u64::MAX
        };
    }

    /// Closes the record at `now` and files it under `index`.
    pub fn complete(&self, index: u32, now: u64) -> (r: RequestResult)
        ensures
            r == self.completed(index, now),
            r.ttfb <= r.total_time,
            self.first_byte is None ==> r.ttfb == r.total_time,
    {
        let first: u64 = match self.first_byte {
            Some(t) => if t >= self.start {
                t
            } else {
                self.start
            },
            None => self.start,
        };
        let end: u64 = if now >= first {
            now
        } else {
            first
        };
        let total_time: u64 = end - self.start;
        let ttfb: u64 = match self.first_byte {
            Some(_) => first - self.start,
            None => total_time,
        };
        RequestResult {
            index,
            status: self.status,
            ttfb,
            total_time,
            bytes_received: self.bytes_received,
        }
    }
}

} // verus!
