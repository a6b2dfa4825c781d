use bench_client::event::{CloseReason, SessionEvent};
use bench_client::header::Header;
use bench_client::pipeline::{Pipeline, Reaction, RunConfig};
use bench_client::record::RequestResult;

fn status_headers(stream_id: u64, status: &[u8]) -> SessionEvent {
    SessionEvent::Headers { stream_id, list: vec![Header::new(b":status", status)] }
}

/// Issues one request at `t`, answers it with `status` and `bytes` body bytes
/// and completes it one microsecond later. Gives what the completion asked
/// for.
fn succeed(p: &mut Pipeline, stream_id: u64, status: &[u8], bytes: u64, t: u64) -> Reaction {
    assert!(p.maybe_issue_next());
    assert!(p.record_issue(stream_id, t));
    assert_eq!(p.handle_event(&status_headers(stream_id, status), t + 400), Reaction::Continue);
    assert_eq!(
        p.handle_event(&SessionEvent::Data { stream_id }, t + 500),
        Reaction::ReadBody { stream_id }
    );
    p.record_body(stream_id, bytes);
    p.handle_event(&SessionEvent::Finished { stream_id }, t + 1_000)
}

#[test]
fn fresh_pipeline_is_idle() {
    let p = Pipeline::new(RunConfig { warmup: 1, requests: 10 });
    assert_eq!(p.config(), RunConfig { warmup: 1, requests: 10 });
    assert_eq!(p.sent(), 0);
    assert_eq!(p.done(), 0);
    assert!(p.inflight().is_none());
    assert!(p.results().is_empty());
    assert!(!p.is_complete());
    assert!(p.maybe_issue_next());
}

#[test]
fn total_counts_warmup_and_measured() {
    assert_eq!(RunConfig { warmup: 1, requests: 10 }.total_requests(), 11);
    assert_eq!(RunConfig { warmup: 0, requests: 0 }.total_requests(), 0);
    assert_eq!(
        RunConfig { warmup: u32::MAX, requests: u32::MAX }.total_requests(),
        8_589_934_590
    );
}

#[test]
fn three_requests_give_three_rows() {
    let mut p = Pipeline::new(RunConfig { warmup: 0, requests: 3 });
    assert_eq!(succeed(&mut p, 0, b"200", 100, 10_000), Reaction::Continue);
    assert_eq!(succeed(&mut p, 4, b"200", 200, 20_000), Reaction::Continue);
    assert_eq!(
        succeed(&mut p, 8, b"200", 300, 30_000),
        Reaction::Close { reason: CloseReason::Done }
    );
    let rows = p.results();
    assert_eq!(rows.len(), 3);
    assert_eq!(rows.iter().map(|r| r.index).collect::<Vec<u32>>(), vec![0, 1, 2]);
    assert_eq!(rows.iter().map(|r| r.status).collect::<Vec<u16>>(), vec![200, 200, 200]);
    assert_eq!(rows.iter().map(|r| r.bytes_received).collect::<Vec<u64>>(), vec![100, 200, 300]);
    for r in rows {
        assert_eq!(r.ttfb, 400);
        assert_eq!(r.total_time, 1_000);
    }
    assert_eq!(p.sent(), 3);
    assert_eq!(p.done(), 3);
    assert!(p.is_complete());
    assert!(!p.maybe_issue_next());
}

#[test]
fn warmup_requests_leave_no_row() {
    let mut p = Pipeline::new(RunConfig { warmup: 2, requests: 1 });
    assert_eq!(succeed(&mut p, 0, b"500", 11, 1_000), Reaction::Continue);
    assert!(p.results().is_empty());
    assert!(p.record_issue(4, 5_000));
    assert_eq!(
        p.handle_event(&SessionEvent::Reset { stream_id: 4, error_code: 0x10c }, 6_000),
        Reaction::Continue
    );
    assert!(p.results().is_empty());
    assert_eq!(
        succeed(&mut p, 8, b"200", 33, 9_000),
        Reaction::Close { reason: CloseReason::Done }
    );
    assert_eq!(
        p.results().clone(),
        vec![RequestResult {
            index: 0,
            status: 200,
            ttfb: 400,
            total_time: 1_000,
            bytes_received: 33
        }]
    );
    assert_eq!(p.done(), 3);
}

#[test]
fn warmup_outcomes_do_not_matter() {
    for first_ok in [true, false] {
        for second_ok in [true, false] {
            let mut p = Pipeline::new(RunConfig { warmup: 2, requests: 1 });
            for (stream_id, ok) in [(0u64, first_ok), (4u64, second_ok)] {
                if ok {
                    succeed(&mut p, stream_id, b"200", 1, 100);
                } else {
                    assert!(p.record_issue(stream_id, 100));
                    p.handle_event(&SessionEvent::Reset { stream_id, error_code: 1 }, 200);
                }
            }
            succeed(&mut p, 8, b"200", 1, 300);
            assert_eq!(p.results().len(), 1);
            assert_eq!(p.results()[0].index, 0);
        }
    }
}

#[test]
fn reset_counts_as_completed_without_a_row() {
    let mut p = Pipeline::new(RunConfig { warmup: 0, requests: 3 });
    assert_eq!(succeed(&mut p, 0, b"200", 100, 1_000), Reaction::Continue);
    assert!(p.maybe_issue_next());
    assert!(p.record_issue(4, 2_000));
    assert_eq!(p.handle_event(&status_headers(4, b"200"), 2_100), Reaction::Continue);
    assert_eq!(
        p.handle_event(&SessionEvent::Reset { stream_id: 4, error_code: 0x102 }, 2_200),
        Reaction::Continue
    );
    assert_eq!(p.done(), 2);
    assert!(p.inflight().is_none());
    assert_eq!(p.results().len(), 1);
    assert!(p.maybe_issue_next());
    assert_eq!(
        succeed(&mut p, 8, b"200", 300, 3_000),
        Reaction::Close { reason: CloseReason::Done }
    );
    assert_eq!(p.sent(), 3);
    assert_eq!(p.done(), 3);
    let rows = p.results();
    assert_eq!(rows.len(), 2);
    assert_eq!(rows[0].index, 0);
    assert_eq!(rows[0].bytes_received, 100);
    assert_eq!(rows[1].index, 2);
    assert_eq!(rows[1].bytes_received, 300);
}

#[test]
fn reset_of_the_last_request_asks_for_close() {
    let mut p = Pipeline::new(RunConfig { warmup: 0, requests: 1 });
    assert!(p.record_issue(0, 0));
    assert_eq!(
        p.handle_event(&SessionEvent::Reset { stream_id: 0, error_code: 0 }, 5),
        Reaction::Close { reason: CloseReason::Done }
    );
    assert!(p.is_complete());
    assert!(p.results().is_empty());
}

#[test]
fn second_issue_is_refused_while_one_is_in_flight() {
    let mut p = Pipeline::new(RunConfig { warmup: 0, requests: 5 });
    assert!(p.record_issue(0, 100));
    assert!(!p.maybe_issue_next());
    assert!(!p.record_issue(4, 200));
    assert_eq!(p.sent(), 1);
    let r = p.inflight().unwrap();
    assert_eq!(r.stream_id, 0);
    assert_eq!(r.start, 100);
}

#[test]
fn no_issue_beyond_the_configured_total() {
    let mut p = Pipeline::new(RunConfig { warmup: 1, requests: 1 });
    succeed(&mut p, 0, b"200", 1, 0);
    succeed(&mut p, 4, b"200", 1, 10);
    assert!(!p.maybe_issue_next());
    assert!(!p.record_issue(8, 20));
    assert_eq!(p.sent(), 2);
    assert!(p.inflight().is_none());
    let mut p = Pipeline::new(RunConfig { warmup: 0, requests: 0 });
    assert!(p.is_complete());
    assert!(!p.maybe_issue_next());
    assert!(!p.record_issue(0, 0));
    assert_eq!(p.sent(), 0);
}

#[test]
fn events_for_other_streams_are_ignored() {
    let mut p = Pipeline::new(RunConfig { warmup: 0, requests: 2 });
    assert!(p.record_issue(4, 100));
    assert_eq!(p.handle_event(&status_headers(0, b"404"), 150), Reaction::Continue);
    assert_eq!(p.handle_event(&SessionEvent::Data { stream_id: 0 }, 160), Reaction::Continue);
    p.record_body(0, 999);
    assert_eq!(p.handle_event(&SessionEvent::Finished { stream_id: 0 }, 170), Reaction::Continue);
    assert_eq!(
        p.handle_event(&SessionEvent::Reset { stream_id: 8, error_code: 7 }, 180),
        Reaction::Continue
    );
    let r = p.inflight().unwrap();
    assert_eq!(r.stream_id, 4);
    assert_eq!(r.first_byte, None);
    assert_eq!(r.status, 0);
    assert_eq!(r.bytes_received, 0);
    assert_eq!(p.done(), 0);
    assert!(p.results().is_empty());
}

#[test]
fn stale_events_after_completion_are_ignored() {
    let mut p = Pipeline::new(RunConfig { warmup: 0, requests: 2 });
    succeed(&mut p, 0, b"200", 10, 0);
    assert_eq!(p.handle_event(&SessionEvent::Finished { stream_id: 0 }, 2_000), Reaction::Continue);
    assert_eq!(
        p.handle_event(&SessionEvent::Reset { stream_id: 0, error_code: 0 }, 2_000),
        Reaction::Continue
    );
    assert_eq!(p.handle_event(&SessionEvent::Data { stream_id: 0 }, 2_000), Reaction::Continue);
    assert_eq!(p.handle_event(&status_headers(0, b"500"), 2_000), Reaction::Continue);
    assert_eq!(p.done(), 1);
    assert_eq!(p.results().len(), 1);
    assert_eq!(p.results()[0].status, 200);
    assert!(p.inflight().is_none());
}

#[test]
fn stray_completion_on_an_empty_run_asks_nothing() {
    let mut p = Pipeline::new(RunConfig { warmup: 0, requests: 0 });
    assert_eq!(p.handle_event(&SessionEvent::Finished { stream_id: 0 }, 1), Reaction::Continue);
    assert_eq!(p.done(), 0);
}

#[test]
fn going_away_asks_for_close_and_keeps_state() {
    let mut p = Pipeline::new(RunConfig { warmup: 0, requests: 2 });
    assert!(p.record_issue(0, 100));
    assert_eq!(
        p.handle_event(&SessionEvent::GoAway { id: 0 }, 200),
        Reaction::Close { reason: CloseReason::GoAway }
    );
    assert_eq!(p.sent(), 1);
    assert_eq!(p.done(), 0);
    assert_eq!(p.inflight().unwrap().stream_id, 0);
    let mut idle = Pipeline::new(RunConfig { warmup: 0, requests: 2 });
    assert_eq!(
        idle.handle_event(&SessionEvent::GoAway { id: 4 }, 200),
        Reaction::Close { reason: CloseReason::GoAway }
    );
}

#[test]
fn priority_update_is_ignored() {
    let mut p = Pipeline::new(RunConfig { warmup: 0, requests: 2 });
    assert!(p.record_issue(0, 100));
    assert_eq!(
        p.handle_event(&SessionEvent::PriorityUpdate { stream_id: 0 }, 200),
        Reaction::Continue
    );
    let r = p.inflight().unwrap();
    assert_eq!((r.first_byte, r.status, r.bytes_received), (None, 0, 0));
}

#[test]
fn body_bytes_go_to_the_request_in_flight() {
    let mut p = Pipeline::new(RunConfig { warmup: 0, requests: 1 });
    p.record_body(0, 50);
    assert!(p.inflight().is_none());
    assert!(p.record_issue(0, 0));
    p.record_body(0, 50);
    p.record_body(0, 70);
    p.record_body(4, 1_000);
    assert_eq!(p.inflight().unwrap().bytes_received, 120);
}

#[test]
fn row_without_headers_has_ttfb_equal_to_total() {
    let mut p = Pipeline::new(RunConfig { warmup: 0, requests: 1 });
    assert!(p.record_issue(0, 1_000));
    p.handle_event(&SessionEvent::Finished { stream_id: 0 }, 4_500);
    assert_eq!(
        p.results().clone(),
        vec![RequestResult {
            index: 0,
            status: 0,
            ttfb: 3_500,
            total_time: 3_500,
            bytes_received: 0
        }]
    );
}

#[test]
fn close_comes_with_its_code_and_phrase() {
    assert!(CloseReason::Done.graceful());
    assert_eq!(CloseReason::Done.code(), 0x100);
    assert_eq!(CloseReason::Done.reason(), b"done".to_vec());
    assert!(CloseReason::GoAway.graceful());
    assert_eq!(CloseReason::GoAway.code(), 0x100);
    assert_eq!(CloseReason::GoAway.reason(), b"goaway".to_vec());
    assert!(!CloseReason::Failure.graceful());
    assert_eq!(CloseReason::Failure.code(), 0x1);
    assert_eq!(CloseReason::Failure.reason(), b"fail".to_vec());
}

#[test]
fn index_of_the_last_measured_request_of_a_long_run() {
    let mut p = Pipeline::new(RunConfig { warmup: 3, requests: 40 });
    for k in 0..43u64 {
        succeed(&mut p, 4 * k, b"200", k, 1_000 * k);
    }
    assert_eq!(p.results().len(), 40);
    assert_eq!(p.results()[39].index, 39);
    assert_eq!(p.results()[39].bytes_received, 42);
    assert!(p.is_complete());
}
