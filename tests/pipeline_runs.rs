use yolo_vision::batching::batch_sizes;
use yolo_vision::errors::{exit_code_of, PipelineError};
use yolo_vision::ingest::{read_timed_out, should_flush, DecodeGuard, FLUSH_DEADLINE_MS, READ_TIMEOUT_MS};
use yolo_vision::pipeline::{FinishDecision, Pipeline, Submission};
use yolo_vision::queue::BoundedQueue;
use yolo_vision::timing::FrameClock;

fn run(p: &mut Pipeline, total: usize, batch: usize, failing_batch: Option<usize>) -> Vec<Submission> {
    let mut out = Vec::new();
    for (b, n) in batch_sizes(total, batch).into_iter().enumerate() {
        let ticket = p.ingest_batch(n).expect("batch accepted");
        if Some(b) == failing_batch {
            assert!(p.skip_frames(ticket.len as u64));
        } else {
            for _ in 0..ticket.len {
                out.push(p.frame_ready().expect("frame in flight"));
            }
        }
        p.batch_done();
    }
    out
}

#[test]
fn ten_frames_batch_one_stamped_in_24ths() {
    let clock = FrameClock::per_second_24();
    let mut p = Pipeline::new(1, clock, 10, 3, false);
    let subs = run(&mut p, 10, 1, None);
    assert_eq!(subs.len(), 10);
    for (i, s) in subs.iter().enumerate() {
        assert_eq!(s.seq, i as u64);
        assert_eq!(s.pts, i as u64);
    }
    assert_eq!(p.clock.time_base, 24);
    assert_eq!(p.finish(), FinishDecision::Finish);
}

#[test]
fn ten_frames_batch_four_gives_three_batches_in_order() {
    assert_eq!(batch_sizes(10, 4), vec![4, 4, 2]);
    let mut p = Pipeline::new(4, FrameClock::per_second_24(), 10, 3, false);
    let subs = run(&mut p, 10, 4, None);
    assert_eq!(p.batches, 3);
    let seqs: Vec<u64> = subs.iter().map(|s| s.seq).collect();
    assert_eq!(seqs, (0..10).collect::<Vec<u64>>());
}

#[test]
fn failed_inference_batch_is_absent() {
    let mut p = Pipeline::new(2, FrameClock::per_second_24(), 10, 3, false);
    let subs = run(&mut p, 10, 2, Some(2));
    let seqs: Vec<u64> = subs.iter().map(|s| s.seq).collect();
    assert_eq!(seqs, vec![0, 1, 2, 3, 6, 7, 8, 9]);
    let pts: Vec<u64> = subs.iter().map(|s| s.pts).collect();
    assert_eq!(pts, (0..8).collect::<Vec<u64>>());
    assert_eq!(p.skipped(), 2);
    assert_eq!(p.finish(), FinishDecision::Finish);
}

#[test]
fn submitted_is_ingested_less_skipped() {
    let mut p = Pipeline::new(3, FrameClock::new(2, 48), 10, 3, false);
    let t = p.ingest_batch(3).unwrap();
    assert_eq!(t.first_seq, 0);
    p.frame_ready().unwrap();
    assert!(p.skip_frames(1));
    p.frame_ready().unwrap();
    assert!(!p.skip_frames(1));
    assert_eq!(p.submitted, 2);
    assert_eq!(p.skipped(), 1);
    assert_eq!(p.ingested, p.submitted + p.skipped());
}

#[test]
fn timestamps_step_by_duration() {
    let mut c = FrameClock::new(1001, 24000);
    assert_eq!(c.next_pts(), Some(0));
    assert_eq!(c.next_pts(), Some(1001));
    assert_eq!(c.next_pts(), Some(2002));
    let mut full = FrameClock { position: u64::MAX, step: 1, time_base: 24 };
    assert_eq!(full.next_pts(), None);
}

#[test]
fn shutdown_drains_then_finishes_once() {
    let mut p = Pipeline::new(4, FrameClock::per_second_24(), 10, 3, false);
    p.ingest_batch(4).unwrap();
    p.frame_ready().unwrap();
    p.request_shutdown();
    assert!(p.ingest_batch(1).is_none());
    assert_eq!(p.finish(), FinishDecision::NotDrained);
    p.frame_ready().unwrap();
    assert!(p.skip_frames(1));
    p.frame_ready().unwrap();
    assert_eq!(p.in_flight(), 0);
    assert_eq!(p.finish(), FinishDecision::Finish);
    assert_eq!(p.finish(), FinishDecision::AlreadyFinished);
    assert_eq!(p.submitted + p.skipped(), 4);
}

#[test]
fn oversized_or_empty_batch_refused() {
    let mut p = Pipeline::new(2, FrameClock::per_second_24(), 10, 3, false);
    assert!(p.ingest_batch(0).is_none());
    assert!(p.ingest_batch(3).is_none());
    assert!(p.frame_ready().is_none());
    assert_eq!(p.ingested, 0);
}

#[test]
fn stats_reported_every_k_batches() {
    let mut p = Pipeline::new(1, FrameClock::per_second_24(), 10, 3, false);
    let mut reports = Vec::new();
    for i in 1..=25u64 {
        if p.batch_done() {
            reports.push(i);
        }
    }
    assert_eq!(reports, vec![10, 20]);
}

#[test]
fn encode_failures_escalate_past_threshold() {
    let mut p = Pipeline::new(1, FrameClock::per_second_24(), 10, 2, false);
    assert!(!p.encode_result(false));
    assert!(!p.encode_result(false));
    assert!(!p.encode_result(true));
    assert!(!p.encode_result(false));
    assert!(!p.encode_result(false));
    assert!(p.encode_result(false));
}

#[test]
fn stalled_live_source_is_fatal_open_error() {
    assert!(read_timed_out(0, 11_000, READ_TIMEOUT_MS));
    assert!(!read_timed_out(0, 10_000, READ_TIMEOUT_MS));
    assert!(!read_timed_out(5_000, 1_000, READ_TIMEOUT_MS));
    let err = PipelineError::SourceOpen;
    assert!(err.is_fatal());
    let mut p = Pipeline::new(1, FrameClock::per_second_24(), 10, 3, false);
    p.request_shutdown();
    assert_eq!(p.finish(), FinishDecision::Finish);
    assert_eq!(exit_code_of(&Err(err)), 2);
}

#[test]
fn three_quick_decode_failures_escalate() {
    let mut g = DecodeGuard::new();
    assert!(!g.on_failure(100));
    assert!(!g.on_failure(400));
    assert!(g.on_failure(900));
    g.on_success();
    assert!(!g.on_failure(1000));
    assert!(!g.on_failure(1500));
    assert!(!g.on_failure(2100));
}

#[test]
fn exit_codes_by_kind() {
    assert_eq!(exit_code_of(&Ok(())), 0);
    assert_eq!(exit_code_of(&Err(PipelineError::SinkOpen)), 2);
    assert_eq!(exit_code_of(&Err(PipelineError::ModelOpen)), 2);
    assert_eq!(exit_code_of(&Err(PipelineError::Mux)), 3);
    assert_eq!(exit_code_of(&Err(PipelineError::Decode { fatal: true })), 3);
    assert!(!PipelineError::Inference.is_fatal());
    assert!(!PipelineError::Annotation.is_fatal());
    assert!(!PipelineError::Decode { fatal: false }.is_fatal());
    assert!(PipelineError::Encode { fatal: true }.is_fatal());
}

#[test]
fn bounded_queue_refuses_when_full() {
    let mut q: BoundedQueue<u32> = BoundedQueue::new(2);
    assert_eq!(q.push(1), Ok(()));
    assert_eq!(q.push(2), Ok(()));
    assert!(q.is_full());
    assert_eq!(q.push(3), Err(3));
    assert_eq!(q.len(), 2);
    assert_eq!(q.pop(), Some(1));
    assert_eq!(q.push(4), Ok(()));
    assert_eq!(q.pop(), Some(2));
    assert_eq!(q.pop(), Some(4));
    assert_eq!(q.pop(), None);
}

#[test]
fn batch_plan_edges() {
    assert_eq!(batch_sizes(0, 4), Vec::<usize>::new());
    assert_eq!(batch_sizes(8, 4), vec![4, 4]);
    assert_eq!(batch_sizes(3, 1), vec![1, 1, 1]);
}

#[test]
fn partial_batch_flushes_after_deadline() {
    assert!(should_flush(4, 4, 0, 0, FLUSH_DEADLINE_MS));
    assert!(!should_flush(2, 4, 100, 250, FLUSH_DEADLINE_MS));
    assert!(should_flush(2, 4, 100, 300, FLUSH_DEADLINE_MS));
    assert!(!should_flush(0, 4, 0, 10_000, FLUSH_DEADLINE_MS));
}

#[test]
fn failed_batch_leaves_gap_when_configured() {
    let mut p = Pipeline::new(2, FrameClock::per_second_24(), 10, 3, true);
    let subs = run(&mut p, 10, 2, Some(2));
    let pts: Vec<u64> = subs.iter().map(|s| s.pts).collect();
    assert_eq!(pts, vec![0, 1, 2, 3, 6, 7, 8, 9]);
    assert_eq!(p.clock.position, 10);
    let mut q = Pipeline::new(4, FrameClock { position: 0, step: u64::MAX, time_base: 1 }, 10, 3, true);
    q.ingest_batch(2).unwrap();
    assert!(!q.skip_frames(2));
    assert_eq!(q.in_flight(), 2);
}
