//! Request pipeline: at most one request in flight, the next one issued when
//! the slot is free, and session events turned into request transitions.

use crate::event::{CloseReason, EventView, SessionEvent};
use crate::record::{InflightRequest, RequestResult};
use vstd::prelude::*;

verus! {

/// How many requests a run makes.
#[derive(Clone, Copy, Debug, PartialEq, Eq, Structural)]
pub struct RunConfig {
    /// Requests made first, whose results are not kept.
    pub warmup: u32,
    /// Requests whose results are kept.
    pub requests: u32,
}

impl RunConfig {
    /// Warmup and measured requests together.
    pub open spec fn total(self) -> nat {
        (self.warmup + self.requests) as nat
    }

    /// Gives the number of requests of the run, warmup included.
    pub fn total_requests(&self) -> (r: u64)
        ensures
            r == self.total(),
    {
        self.warmup as u64 + self.requests as u64
    }
}

/// What the caller is to do after an event was taken in.
#[derive(Clone, Copy, Debug, PartialEq, Eq, Structural)]
pub enum Reaction {
    /// Nothing: go on to the next event.
    Continue,
    /// Read the body data that is ready on the stream, all of it.
    ReadBody { stream_id: u64 },
    /// Ask the connection to close.
    Close { reason: CloseReason },
}

/// The pipeline as a mathematical value.
pub struct PipelineView {
    pub warmup: nat,
    pub requests: nat,
    /// Requests issued so far.
    pub sent: nat,
    /// Requests resolved so far, by completion or by reset.
    pub done: nat,
    pub inflight: Option<InflightRequest>,
    /// Records of the measured requests, in completion order.
    pub results: Seq<RequestResult>,
}

impl PipelineView {
    /// Warmup and measured requests together.
    pub open spec fn total(self) -> nat {
        self.warmup + self.requests
    }

    /// The pipeline at the start of a run.
    pub open spec fn fresh(config: RunConfig) -> PipelineView {
        PipelineView {
            warmup: config.warmup as nat,
            requests: config.requests as nat,
            sent: 0,
            done: 0,
            inflight: None,
            results: Seq::empty(),
        }
    }

    /// Whether a request is to be issued now: the slot is free and the run has
    /// requests left.
    pub open spec fn can_issue(self) -> bool {
        self.inflight is None && self.sent < self.total()
    }

    /// Whether `stream_id` is the stream of the request in flight.
    pub open spec fn owns(self, stream_id: u64) -> bool {
        self.inflight matches Some(r) && r.stream_id == stream_id
    }

    /// Whether every request of the run has been resolved.
    pub open spec fn complete(self) -> bool {
        self.done >= self.total()
    }

    /// The pipeline after a request was issued on `stream_id` at `now`. An
    /// issue that comes while the slot is taken, or after the last request,
    /// changes nothing.
    pub open spec fn issue(self, stream_id: u64, now: u64) -> PipelineView {
        if self.can_issue() {
            PipelineView {
                inflight: Some(InflightRequest::opened(stream_id, now)),
                sent: self.sent + 1,
                ..self
            }
        } else {
            self
        }
    }

    /// The pipeline after the request in flight was resolved at `now`, with a
    /// record (`finished`) or without one (a reset). A warmup request leaves
    /// no record either way.
    pub open spec fn resolve(self, finished: bool, now: u64) -> PipelineView {
        PipelineView {
            results: if finished && self.done >= self.warmup && self.inflight is Some {
                self.results.push(
                    self.inflight->0.completed((self.done - self.warmup) as u32, now),
                )
            } else {
                self.results
            },
            done: self.done + 1,
            inflight: None,
            ..self
        }
    }

    /// The pipeline after `ev` was taken in at `now`. An event for a stream
    /// other than that of the request in flight changes nothing.
    pub open spec fn on_event(self, ev: EventView, now: u64) -> PipelineView {
        match ev {
            EventView::Headers { stream_id, list } => if self.owns(stream_id) {
                PipelineView {
                    inflight: Some(self.inflight->0.with_headers(list, now)),
                    ..self
                }
            } else {
                self
            },
            EventView::Finished { stream_id } => if self.owns(stream_id) {
                self.resolve(true, now)
            } else {
                self
            },
            EventView::Reset { stream_id, error_code } => if self.owns(stream_id) {
                self.resolve(false, now)
            } else {
                self
            },
            _ => self,
        }
    }

    /// What the caller is to do once `ev` was taken in.
    pub open spec fn reaction(self, ev: EventView) -> Reaction {
        match ev {
            EventView::Data { stream_id } => if self.owns(stream_id) {
                Reaction::ReadBody { stream_id }
            } else {
                Reaction::Continue
            },
            EventView::Finished { stream_id } => self.reaction_to_resolution(stream_id),
            EventView::Reset { stream_id, error_code } => self.reaction_to_resolution(stream_id),
            EventView::GoAway { id } => Reaction::Close { reason: CloseReason::GoAway },
            _ => Reaction::Continue,
        }
    }

    /// What follows the end of stream `stream_id`: a close, where that was
    /// the last request of the run.
    pub open spec fn reaction_to_resolution(self, stream_id: u64) -> Reaction {
        if self.owns(stream_id) && self.done + 1 >= self.total() {
            Reaction::Close { reason: CloseReason::Done }
        } else {
            Reaction::Continue
        }
    }

    /// The pipeline after `len` body bytes were read from `stream_id`.
    pub open spec fn on_body(self, stream_id: u64, len: u64) -> PipelineView {
        if self.owns(stream_id) {
            PipelineView { inflight: Some(self.inflight->0.with_body(len)), ..self }
        } else {
            self
        }
    }

    /// The number of requests resolved after the warmup.
    pub open spec fn measured(self) -> nat {
        if self.done >= self.warmup {
            (self.done - self.warmup) as nat
        } else {
            0
        }
    }

    /// What holds of a pipeline at every point of a run.
    pub open spec fn wf(self) -> bool {
        &&& self.warmup <= u32::MAX
        &&& self.requests <= u32::MAX
        &&& self.done <= self.sent <= self.total()
        &&& match self.inflight {
            Some(r) => self.sent == self.done + 1 && r.wf(),
            None => self.sent == self.done,
        }
        &&& self.results.len() <= self.measured()
        &&& forall|i: int|
            0 <= i < self.results.len() ==> (#[trigger] self.results[i]).index + self.warmup
                < self.done
        &&& forall|i: int, j: int|
            0 <= i < j < self.results.len() ==> (#[trigger] self.results[i]).index < (
            #[trigger] self.results[j]).index
        &&& forall|i: int|
            0 <= i < self.results.len() ==> (#[trigger] self.results[i]).ttfb
                <= self.results[i].total_time
    }
}

/// The request pipeline of one run.
pub struct Pipeline {
    config: RunConfig,
    sent: u64,
    done: u64,
    inflight: Option<InflightRequest>,
    results: Vec<RequestResult>,
}

impl View for Pipeline {
    type V = PipelineView;

    closed spec fn view(&self) -> PipelineView {
        PipelineView {
            warmup: self.config.warmup as nat,
            requests: self.config.requests as nat,
            sent: self.sent as nat,
            done: self.done as nat,
            inflight: self.inflight,
            results: self.results@,
        }
    }
}

impl Pipeline {
    /// What holds of a pipeline at every point of a run.
    pub open spec fn wf(&self) -> bool {
        self@.wf()
    }

    /// Makes the pipeline of a run: nothing issued, nothing resolved.
    pub fn new(config: RunConfig) -> (p: Pipeline)
        ensures
            p@ == PipelineView::fresh(config),
            p.wf(),
    {
        Pipeline { config, sent: 0, done: 0, inflight: None, results: Vec::new() }
    }

    /// Tells whether a request is to be issued now.
    pub fn maybe_issue_next(&self) -> (r: bool)
        ensures
            r == self@.can_issue(),
    {
        self.inflight.is_none() && self.sent < self.config.total_requests()
    }

    /// Notes that a request was issued on `stream_id` at `now`. Returns
    /// whether the pipeline took it: it does not while a request is in
    /// flight, nor once every request of the run has been issued.
    pub fn record_issue(&mut self, stream_id: u64, now: u64) -> (taken: bool)
        requires
            old(self).wf(),
        ensures
            final(self).wf(),
            final(self)@ == old(self)@.issue(stream_id, now),
            taken == old(self)@.can_issue(),
    {
        if self.maybe_issue_next() {
            self.inflight = Some(InflightRequest::new(stream_id, now));
            self.sent = self.sent + 1;
            true
        } else {
            false
        }
    }

    /// Tells whether `stream_id` is the stream of the request in flight.
    pub fn owns(&self, stream_id: u64) -> (r: bool)
        ensures
            r == self@.owns(stream_id),
    {
        match self.inflight {
            Some(r) => r.stream_id == stream_id,
            None => false,
        }
    }

    /// Resolves the request in flight at `now`.
    fn resolve(&mut self, finished: bool, now: u64)
        requires
            old(self).wf(),
            old(self)@.inflight is Some,
        ensures
            final(self).wf(),
            final(self)@ == old(self)@.resolve(finished, now),
    {
        let warmup: u64 = self.config.warmup as u64;
        if let Some(req) = self.inflight {
            if finished && self.done >= warmup {
                let index: u32 = (self.done - warmup) as u32;
                let row = req.complete(index, now);
                self.results.push(row);
            }
        }
        self.done = self.done + 1;
        self.inflight = None;
    }

    /// Takes in one session event, observed at `now`, and says what the
    /// caller is to do next.
    pub fn handle_event(&mut self, ev: &SessionEvent, now: u64) -> (r: Reaction)
        requires
            old(self).wf(),
        ensures
            final(self).wf(),
            final(self)@ == old(self)@.on_event(ev@, now),
            r == old(self)@.reaction(ev@),
    {
        match ev {
            SessionEvent::Headers { stream_id, list } => {
                if self.owns(*stream_id) {
                    if let Some(mut req) = self.inflight {
                        req.on_headers(list, now);
                        self.inflight = Some(req);
                    }
                }
                Reaction::Continue
            },
            SessionEvent::Data { stream_id } => {
                if self.owns(*stream_id) {
                    Reaction::ReadBody { stream_id: *stream_id }
                } else {
                    Reaction::Continue
                }
            },
            SessionEvent::Finished { stream_id } => self.end_of_stream(*stream_id, true, now),
            SessionEvent::Reset { stream_id, error_code } => self.end_of_stream(
                *stream_id,
                false,
                now,
            ),
            SessionEvent::PriorityUpdate { stream_id } => Reaction::Continue,
            SessionEvent::GoAway { id } => Reaction::Close { reason: CloseReason::GoAway },
        }
    }

    /// Takes in the end of stream `stream_id`, normal (`finished`) or by
    /// reset.
    fn end_of_stream(&mut self, stream_id: u64, finished: bool, now: u64) -> (r: Reaction)
        requires
            old(self).wf(),
        ensures
            final(self).wf(),
            final(self)@ == (if old(self)@.owns(stream_id) {
                old(self)@.resolve(finished, now)
            } else {
                old(self)@
            }),
            r == old(self)@.reaction_to_resolution(stream_id),
    {
        if self.owns(stream_id) {
            self.resolve(finished, now);
            if self.done >= self.config.total_requests() {
                Reaction::Close { reason: CloseReason::Done }
            } else {
                Reaction::Continue
            }
        } else {
            Reaction::Continue
        }
    }

    /// Notes that `len` body bytes were read from `stream_id`.
    pub fn record_body(&mut self, stream_id: u64, len: u64)
        requires
            old(self).wf(),
        ensures
            final(self).wf(),
            final(self)@ == old(self)@.on_body(stream_id, len),
    {
        if self.owns(stream_id) {
            if let Some(mut req) = self.inflight {
                req.on_body(len);
                self.inflight = Some(req);
            }
        }
    }

    /// Tells whether every request of the run has been resolved.
    pub fn is_complete(&self) -> (r: bool)
        ensures
            r == self@.complete(),
    {
        self.done >= self.config.total_requests()
    }

    /// Gives the configuration of the run.
    pub fn config(&self) -> (r: RunConfig)
        ensures
            r.warmup == self@.warmup,
            r.requests == self@.requests,
    {
        self.config
    }

    /// Gives the number of requests issued so far.
    pub fn sent(&self) -> (r: u64)
        ensures
            r == self@.sent,
    {
        self.sent
    }

    /// Gives the number of requests resolved so far.
    pub fn done(&self) -> (r: u64)
        ensures
            r == self@.done,
    {
        self.done
    }

    /// Gives the request in flight, if there is one.
    pub fn inflight(&self) -> (r: Option<InflightRequest>)
        ensures
            r == self@.inflight,
    {
        self.inflight
    }

    /// Gives the records collected so far, in completion order.
    pub fn results(&self) -> (r: &Vec<RequestResult>)
        ensures
            r@ == self@.results,
    {
        &self.results
    }
}

} // verus!
