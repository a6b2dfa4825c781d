//! What holds of every run: the laws of the pipeline over any sequence of
//! inputs, and their counterparts for a driver fed any sequence of
//! observations.

use crate::driver::{DriverView, Observation, Phase};
use crate::event::EventView;
use crate::pipeline::{PipelineView, RunConfig};
use vstd::prelude::*;

verus! {

/// One thing that happens to a pipeline.
pub enum PipelineInput {
    /// A request was issued.
    Issue { stream_id: u64, now: u64 },
    /// A session event was taken in.
    Event { event: EventView, now: u64 },
    /// Body bytes were read.
    Body { stream_id: u64, len: u64 },
}

impl PipelineView {
    /// The pipeline after `input`.
    pub open spec fn apply(self, input: PipelineInput) -> PipelineView {
        match input {
            PipelineInput::Issue { stream_id, now } => self.issue(stream_id, now),
            PipelineInput::Event { event, now } => self.on_event(event, now),
            PipelineInput::Body { stream_id, len } => self.on_body(stream_id, len),
        }
    }

    /// The pipeline after all of `inputs`, in order.
    pub open spec fn run(self, inputs: Seq<PipelineInput>) -> PipelineView
        decreases inputs.len(),
    {
        if inputs.len() == 0 {
            self
        } else {
            self.run(inputs.drop_last()).apply(inputs.last())
        }
    }

    /// Whether `input` is the normal completion of the request in flight,
    /// after the warmup.
    pub open spec fn records(self, input: PipelineInput) -> bool {
        input matches PipelineInput::Event { event: EventView::Finished { stream_id }, .. }
            && self.owns(stream_id) && self.done >= self.warmup
    }

    /// Whether `input` is the reset of the request in flight, after the
    /// warmup.
    pub open spec fn skips(self, input: PipelineInput) -> bool {
        input matches PipelineInput::Event { event: EventView::Reset { stream_id, .. }, .. }
            && self.owns(stream_id) && self.done >= self.warmup
    }

    /// How many of `inputs` were normal completions of the request then in
    /// flight, after the warmup.
    pub open spec fn recorded(self, inputs: Seq<PipelineInput>) -> nat
        decreases inputs.len(),
    {
        if inputs.len() == 0 {
            0
        } else {
            self.recorded(inputs.drop_last()) + if self.run(inputs.drop_last()).records(
                inputs.last(),
            ) {
                1nat
            } else {
                0nat
            }
        }
    }

    /// How many of `inputs` were resets of the request then in flight, after
    /// the warmup.
    pub open spec fn skipped(self, inputs: Seq<PipelineInput>) -> nat
        decreases inputs.len(),
    {
        if inputs.len() == 0 {
            0
        } else {
            self.skipped(inputs.drop_last()) + if self.run(inputs.drop_last()).skips(
                inputs.last(),
            ) {
                1nat
            } else {
                0nat
            }
        }
    }

    /// Whether, along `inputs`, no request completed normally after a request
    /// past the warmup had been reset.
    pub open spec fn no_record_after_skip(self, inputs: Seq<PipelineInput>) -> bool
        decreases inputs.len(),
    {
        inputs.len() == 0 || (self.no_record_after_skip(inputs.drop_last()) && (self.run(
            inputs.drop_last(),
        ).records(inputs.last()) ==> self.skipped(inputs.drop_last()) == 0))
    }

    /// Whether the records carry the indices 0, 1, 2, ... in order.
    pub open spec fn contiguous(self) -> bool {
        forall|i: int| 0 <= i < self.results.len() ==> (#[trigger] self.results[i]).index == i
    }
}

/// One input keeps the invariant of the pipeline.
pub proof fn lemma_apply_wf(p: PipelineView, input: PipelineInput)
    requires
        p.wf(),
    ensures
        p.apply(input).wf(),
{
}

/// Any sequence of inputs keeps the invariant of the pipeline.
pub proof fn lemma_run_wf(p: PipelineView, inputs: Seq<PipelineInput>)
    requires
        p.wf(),
    ensures
        p.run(inputs).wf(),
    decreases inputs.len(),
{
    if inputs.len() > 0 {
        lemma_run_wf(p, inputs.drop_last());
        lemma_apply_wf(p.run(inputs.drop_last()), inputs.last());
    }
}

/// An input adds one record where it is the normal completion of the request
/// in flight after the warmup, and leaves the records alone otherwise. The
/// record it adds carries the number of requests resolved after the warmup
/// as its index.
pub proof fn law_record_per_completion(p: PipelineView, input: PipelineInput)
    requires
        p.wf(),
    ensures
        p.records(input) ==> p.apply(input).results.len() == p.results.len() + 1
            && p.apply(input).results.drop_last() == p.results && p.apply(
            input,
        ).results.last().index == p.done - p.warmup,
        !p.records(input) ==> p.apply(input).results == p.results,
{
}

/// Records are only ever appended: whatever comes in, the records already
/// there stay as they are and where they are.
pub proof fn law_records_append_only(p: PipelineView, inputs: Seq<PipelineInput>)
    requires
        p.wf(),
    ensures
        p.results.len() <= p.run(inputs).results.len(),
        p.run(inputs).results.take(p.results.len() as int) == p.results,
    decreases inputs.len(),
{
    if inputs.len() > 0 {
        let before = p.run(inputs.drop_last());
        law_records_append_only(p, inputs.drop_last());
        lemma_run_wf(p, inputs.drop_last());
        law_record_per_completion(before, inputs.last());
        let after = p.run(inputs);
        if before.records(inputs.last()) {
            assert(after.results.take(p.results.len() as int) =~= after.results.drop_last().take(
                p.results.len() as int,
            ));
        }
    }
}

/// The number of records after a run is the number of requests that
/// completed normally, resets not counted, once the warmup was over.
pub proof fn law_rows_count_completions(config: RunConfig, inputs: Seq<PipelineInput>)
    ensures
        PipelineView::fresh(config).run(inputs).results.len() == PipelineView::fresh(
            config,
        ).recorded(inputs),
    decreases inputs.len(),
{
    let p = PipelineView::fresh(config);
    if inputs.len() > 0 {
        law_rows_count_completions(config, inputs.drop_last());
        lemma_run_wf(p, inputs.drop_last());
        law_record_per_completion(p.run(inputs.drop_last()), inputs.last());
    }
}

/// Every request resolved after the warmup either left a record or was
/// reset: records and such resets together are as many as the requests
/// resolved after the warmup.
pub proof fn law_measured_split(config: RunConfig, inputs: Seq<PipelineInput>)
    ensures
        ({
            let p = PipelineView::fresh(config);
            p.run(inputs).results.len() + p.skipped(inputs) == p.run(inputs).measured()
        }),
    decreases inputs.len(),
{
    let p = PipelineView::fresh(config);
    if inputs.len() > 0 {
        law_measured_split(config, inputs.drop_last());
        lemma_run_wf(p, inputs.drop_last());
        law_record_per_completion(p.run(inputs.drop_last()), inputs.last());
    }
}

/// The records carry the indices 0, 1, 2, ... without gap or repeat, in
/// completion order, in every run in which no request completed normally
/// after a request past the warmup had been reset.
pub proof fn law_indices_contiguous(config: RunConfig, inputs: Seq<PipelineInput>)
    requires
        PipelineView::fresh(config).no_record_after_skip(inputs),
    ensures
        PipelineView::fresh(config).run(inputs).contiguous(),
    decreases inputs.len(),
{
    let p = PipelineView::fresh(config);
    if inputs.len() > 0 {
        let before = p.run(inputs.drop_last());
        law_indices_contiguous(config, inputs.drop_last());
        law_measured_split(config, inputs.drop_last());
        lemma_run_wf(p, inputs.drop_last());
        law_record_per_completion(before, inputs.last());
    }
}

/// In every run the indices of the records increase strictly, gap or no gap.
pub proof fn law_indices_increase(config: RunConfig, inputs: Seq<PipelineInput>, i: int, j: int)
    requires
        0 <= i < j < PipelineView::fresh(config).run(inputs).results.len(),
    ensures
        PipelineView::fresh(config).run(inputs).results[i].index < PipelineView::fresh(
            config,
        ).run(inputs).results[j].index,
{
    lemma_run_wf(PipelineView::fresh(config), inputs);
}

/// In every record of every run the time to first byte is at most the total
/// time.
pub proof fn law_first_byte_within_total(config: RunConfig, inputs: Seq<PipelineInput>, i: int)
    requires
        0 <= i < PipelineView::fresh(config).run(inputs).results.len(),
    ensures
        PipelineView::fresh(config).run(inputs).results[i].ttfb <= PipelineView::fresh(
            config,
        ).run(inputs).results[i].total_time,
{
    lemma_run_wf(PipelineView::fresh(config), inputs);
}

/// Where a request completes without response headers having arrived for
/// it, its record has the time to first byte equal to the total time.
pub proof fn law_no_first_byte_equals_total(p: PipelineView, stream_id: u64, now: u64)
    requires
        p.wf(),
        p.owns(stream_id),
        p.done >= p.warmup,
        p.inflight->0.first_byte is None,
    ensures
        ({
            let row = p.on_event(EventView::Finished { stream_id }, now).results.last();
            row.ttfb == row.total_time
        }),
{
}

/// The first-byte instant of the request in flight stays unset until
/// response headers arrive on its stream.
pub proof fn law_first_byte_waits_for_headers(p: PipelineView, input: PipelineInput)
    requires
        p.inflight is Some,
        p.inflight->0.first_byte is None,
        p.apply(input).inflight is Some,
        !(input matches PipelineInput::Event { event: EventView::Headers { stream_id, .. }, .. }
            && p.owns(stream_id)),
    ensures
        p.apply(input).inflight->0.first_byte is None,
{
}

/// At every point of every run at most one request is in flight: the
/// requests issued are those resolved, and one more exactly while a request
/// is in flight.
pub proof fn law_single_in_flight(config: RunConfig, inputs: Seq<PipelineInput>)
    ensures
        ({
            let p = PipelineView::fresh(config).run(inputs);
            p.sent == p.done + (if p.inflight is Some {
                1nat
            } else {
                0nat
            })
        }),
{
    lemma_run_wf(PipelineView::fresh(config), inputs);
}

/// An issue that comes while a request is in flight is not taken: the
/// request in flight stays, and nothing is counted.
pub proof fn law_no_issue_while_in_flight(p: PipelineView, stream_id: u64, now: u64)
    requires
        p.inflight is Some,
    ensures
        p.issue(stream_id, now) == p,
{
}

impl DriverView {
    /// The driver after all of `trace`, each observation with the instant at
    /// which it was seen, in order.
    pub open spec fn drive(self, trace: Seq<(Observation, u64)>) -> DriverView
        decreases trace.len(),
    {
        if trace.len() == 0 {
            self
        } else {
            self.drive(trace.drop_last()).next(trace.last().0, trace.last().1)
        }
    }

    /// What an observation seen at `now` means to the pipeline, if anything.
    pub open spec fn input(self, obs: Observation, now: u64) -> Option<PipelineInput> {
        match (self.phase, obs) {
            (Phase::Issuing, Observation::Issued { stream_id }) => Some(
                PipelineInput::Issue { stream_id, now },
            ),
            (Phase::Polling, Observation::Event { event }) => Some(
                PipelineInput::Event { event: event@, now },
            ),
            (Phase::ReadingBody { stream_id }, Observation::Body { len }) => Some(
                PipelineInput::Body { stream_id, len },
            ),
            _ => None,
        }
    }

    /// What `trace` means to the pipeline: its inputs, in order.
    pub open spec fn inputs(self, trace: Seq<(Observation, u64)>) -> Seq<PipelineInput>
        decreases trace.len(),
    {
        if trace.len() == 0 {
            Seq::empty()
        } else {
            let before = self.inputs(trace.drop_last());
            match self.drive(trace.drop_last()).input(trace.last().0, trace.last().1) {
                Some(input) => before.push(input),
                None => before,
            }
        }
    }
}

/// One observation keeps the invariant of the driver.
pub proof fn lemma_next_wf(d: DriverView, obs: Observation, now: u64)
    requires
        d.wf(),
    ensures
        d.next(obs, now).wf(),
{
}

/// Any sequence of observations keeps the invariant of the driver.
pub proof fn lemma_drive_wf(d: DriverView, trace: Seq<(Observation, u64)>)
    requires
        d.wf(),
    ensures
        d.drive(trace).wf(),
    decreases trace.len(),
{
    if trace.len() > 0 {
        lemma_drive_wf(d, trace.drop_last());
        lemma_next_wf(d.drive(trace.drop_last()), trace.last().0, trace.last().1);
    }
}

/// The driver changes its pipeline only by the pipeline's own inputs: after
/// any sequence of observations the pipeline is what those of them that
/// concern it have made of it.
pub proof fn law_driver_runs_pipeline(d: DriverView, trace: Seq<(Observation, u64)>)
    ensures
        d.drive(trace).pipeline == d.pipeline.run(d.inputs(trace)),
    decreases trace.len(),
{
    if trace.len() > 0 {
        let before = d.drive(trace.drop_last());
        law_driver_runs_pipeline(d, trace.drop_last());
        match before.input(trace.last().0, trace.last().1) {
            Some(input) => {
                let all = d.inputs(trace.drop_last()).push(input);
                assert(all.drop_last() =~= d.inputs(trace.drop_last()));
            },
            None => {},
        }
    }
}

/// Whatever the driver is fed, it asks for a request to be issued only while
/// no request is in flight and the run has requests left, and never has more
/// than one request in flight.
pub proof fn law_driver_issues_one_at_a_time(config: RunConfig, trace: Seq<(Observation, u64)>)
    ensures
        ({
            let d = DriverView::fresh(config).drive(trace);
            &&& d.pending() is Issue ==> d.pipeline.inflight is None && d.pipeline.sent
                < d.pipeline.total()
            &&& d.pipeline.sent == d.pipeline.done + (if d.pipeline.inflight is Some {
                1nat
            } else {
                0nat
            })
        }),
{
    lemma_drive_wf(DriverView::fresh(config), trace);
}

/// A request is counted as issued only in answer to the driver's command to
/// issue one, which it gives only while no request is in flight.
pub proof fn law_driver_counts_issue_on_command(d: DriverView, obs: Observation, now: u64)
    requires
        d.wf(),
        d.next(obs, now).pipeline.sent != d.pipeline.sent,
    ensures
        d.pending() is Issue,
        obs is Issued,
        d.pipeline.inflight is None,
        d.next(obs, now).pipeline.sent == d.pipeline.sent + 1,
{
}

/// The session is set up once: the driver asks for it only while there is
/// none, and a session once set up stays.
pub proof fn law_session_opened_once(config: RunConfig, trace: Seq<(Observation, u64)>)
    ensures
        ({
            let d = DriverView::fresh(config).drive(trace);
            &&& d.pending() is OpenSession ==> !d.session
            &&& forall|obs: Observation, now: u64| d.session ==> (#[trigger] d.next(obs, now)).session
        }),
{
    lemma_drive_wf(DriverView::fresh(config), trace);
}

/// Whether `obs` reports the connection closed.
pub open spec fn reports_closed(obs: Observation) -> bool {
    obs matches Observation::Status { closed: true, .. }
}

/// Whether `obs` reports the connection established.
pub open spec fn reports_established(obs: Observation) -> bool {
    obs matches Observation::Status { established: true, .. }
}

/// Whether no observation of `trace` reports the connection established.
pub open spec fn never_established(trace: Seq<(Observation, u64)>) -> bool {
    forall|i: int| 0 <= i < trace.len() ==> !reports_established((#[trigger] trace[i]).0)
}

/// While the engine has not reported the connection established, there is no
/// session and none is asked for, no request has been issued and no record
/// made.
pub proof fn law_nothing_before_established(config: RunConfig, trace: Seq<(Observation, u64)>)
    requires
        never_established(trace),
    ensures
        ({
            let d = DriverView::fresh(config).drive(trace);
            &&& !d.session
            &&& !(d.pending() is OpenSession)
            &&& !(d.pending() is Issue)
            &&& d.pipeline == PipelineView::fresh(config)
        }),
    decreases trace.len(),
{
    let d = DriverView::fresh(config);
    lemma_drive_wf(d, trace);
    if trace.len() > 0 {
        law_nothing_before_established(config, trace.drop_last());
        lemma_drive_wf(d, trace.drop_last());
    }
}

/// A run that is over stays over: whatever is observed afterwards changes
/// nothing.
pub proof fn law_terminal_is_final(d: DriverView, obs: Observation, now: u64)
    requires
        d.phase.is_terminal(),
    ensures
        d.next(obs, now) == d,
{
}

/// The run ends without failure exactly on the report that the connection
/// has closed, whatever else the run has reached by then.
pub proof fn law_exit_on_closed(d: DriverView, obs: Observation, now: u64)
    requires
        !d.phase.is_terminal(),
    ensures
        d.next(obs, now).phase is Finished <==> (d.pending() is Inspect && reports_closed(obs)),
{
}

/// Whatever the driver is fed, the records it has collected are as many as
/// the requests that completed normally after the warmup, each with a time
/// to first byte of at most its total time; and they carry the indices 0, 1,
/// 2, ... in order unless a request completed normally after a request past
/// the warmup had been reset.
pub proof fn law_driver_records(config: RunConfig, trace: Seq<(Observation, u64)>)
    ensures
        ({
            let d = DriverView::fresh(config);
            let rows = d.drive(trace).pipeline.results;
            &&& rows.len() == d.pipeline.recorded(d.inputs(trace))
            &&& forall|i: int| 0 <= i < rows.len() ==> (#[trigger] rows[i]).ttfb <= rows[i].total_time
            &&& d.pipeline.no_record_after_skip(d.inputs(trace)) ==> d.drive(
                trace,
            ).pipeline.contiguous()
        }),
{
    let d = DriverView::fresh(config);
    law_driver_runs_pipeline(d, trace);
    law_rows_count_completions(config, d.inputs(trace));
    lemma_run_wf(d.pipeline, d.inputs(trace));
    if d.pipeline.no_record_after_skip(d.inputs(trace)) {
        law_indices_contiguous(config, d.inputs(trace));
    }
}

} // verus!
