//! Tests for the batch orchestration state machine.

use obs_cutter::batch::BatchOrchestrator;
use obs_cutter::batch::BatchPhase;
use obs_cutter::config::Side;
use obs_cutter::encoder::HardwareEncoder;
use obs_cutter::video::ProcessingProgress;
use obs_cutter::video::ProcessingResult;

fn paths(names: &[&str]) -> Vec<String> {
    names.iter().map(|n| n.to_string()).collect()
}

fn result_for(path: &str) -> ProcessingResult {
    ProcessingResult {
        input: path.to_string(),
        left_output: format!("{}-left.mp4", path),
        right_output: format!("{}-right.mp4", path),
        left_size: 100,
        right_size: 200,
        duration_secs: 3,
        encoder_used: HardwareEncoder::Software,
    }
}

/// Drives one input through analysis, both sides and collection.
fn drive_successful_file(b: &mut BatchOrchestrator, events: &mut Vec<ProcessingProgress>) {
    assert_eq!(b.phase(), BatchPhase::Analyzing);
    let path = b.current_path().clone();
    events.extend(b.analysis_succeeded());
    assert_eq!(b.phase(), BatchPhase::SplittingLeft);
    events.extend(b.side_finished(Ok(())));
    assert_eq!(b.phase(), BatchPhase::SplittingRight);
    events.extend(b.side_finished(Ok(())));
    assert_eq!(b.phase(), BatchPhase::Collecting);
    events.extend(b.collection_finished(result_for(&path)));
}

#[test]
fn test_empty_batch_completes_immediately() {
    let mut b = BatchOrchestrator::new(Vec::new());
    assert_eq!(b.phase(), BatchPhase::AwaitingStart);
    let ev = b.start();
    assert!(ev.is_none());
    assert_eq!(b.phase(), BatchPhase::Complete);
    assert!(b.is_finished());
}

#[test]
fn test_single_file_event_order() {
    let mut b = BatchOrchestrator::new(paths(&["a.mov"]));
    let mut events = Vec::new();
    events.extend(b.start());
    drive_successful_file(&mut b, &mut events);
    assert_eq!(b.phase(), BatchPhase::Complete);

    // Analyzing, Processing(Left), Processing(Right), Completed — in order
    assert_eq!(events.len(), 4);
    assert!(matches!(
        &events[0],
        ProcessingProgress::Analyzing { video_index: 0, path, .. } if path == "a.mov"
    ));
    assert!(matches!(
        &events[1],
        ProcessingProgress::Processing { side: Side::Left, video_index: 0, .. }
    ));
    assert!(matches!(
        &events[2],
        ProcessingProgress::Processing { side: Side::Right, video_index: 0, .. }
    ));
    assert!(matches!(
        &events[3],
        ProcessingProgress::Completed { video_index: 0, .. }
    ));
    assert_eq!(b.results().len(), 1);
    assert!(b.failures().is_empty());
}

#[test]
fn test_failed_left_side_skips_right_and_batch_continues() {
    // a 3-file batch where file 2's left split fails: file 1 succeeds,
    // file 2 fails with the right side never attempted, file 3 succeeds,
    // in that index order, and no result is recorded for file 2
    let mut b = BatchOrchestrator::new(paths(&["a.mov", "b.mov", "c.mov"]));
    let mut events = Vec::new();
    events.extend(b.start());

    // file 1 succeeds
    drive_successful_file(&mut b, &mut events);

    // file 2: left split fails; the right side is never attempted
    assert_eq!(b.phase(), BatchPhase::Analyzing);
    assert_eq!(b.current_index(), 1);
    events.extend(b.analysis_succeeded());
    assert_eq!(b.phase(), BatchPhase::SplittingLeft);
    events.extend(b.side_finished(Err("engine exited with error".to_string())));
    assert_eq!(b.phase(), BatchPhase::Analyzing);
    assert_eq!(b.current_index(), 2);

    // file 3 succeeds
    drive_successful_file(&mut b, &mut events);
    assert_eq!(b.phase(), BatchPhase::Complete);

    // results: files 1 and 3, in order; failures: file 2 only
    assert_eq!(b.results().len(), 2);
    assert_eq!(b.results()[0].input, "a.mov");
    assert_eq!(b.results()[1].input, "c.mov");
    assert_eq!(b.failures().len(), 1);
    assert_eq!(b.failures()[0].video_index, 1);
    assert_eq!(b.failures()[0].path, "b.mov");
    assert_eq!(b.failures()[0].error, "engine exited with error");

    // the observer saw the outcomes in index order
    let completed: Vec<usize> = events
        .iter()
        .filter_map(|e| match e {
            ProcessingProgress::Completed { video_index, .. } => Some(*video_index),
            _ => None,
        })
        .collect();
    assert_eq!(completed, vec![0, 2]);
    let failed: Vec<usize> = events
        .iter()
        .filter_map(|e| match e {
            ProcessingProgress::Failed { video_index, .. } => Some(*video_index),
            _ => None,
        })
        .collect();
    assert_eq!(failed, vec![1]);
    // no Processing(Right) event for file 2
    assert!(!events.iter().any(|e| matches!(
        e,
        ProcessingProgress::Processing { video_index: 1, side: Side::Right, .. }
    )));
}

#[test]
fn test_cancellation_mid_batch_after_first_file() {
    // cancellation after file 1 completes and before file 2's analysis
    // starts: exactly one Completed event, a terminal Cancelled state, and
    // files 2 and 3 untouched
    let mut b = BatchOrchestrator::new(paths(&["a.mov", "b.mov", "c.mov"]));
    let mut events = Vec::new();
    events.extend(b.start());
    events.extend(b.analysis_succeeded());
    events.extend(b.side_finished(Ok(())));
    events.extend(b.side_finished(Ok(())));
    assert_eq!(b.phase(), BatchPhase::Collecting);

    // the cancellation arrives while file 1's outputs are being collected
    b.request_cancel();
    events.extend(b.collection_finished(result_for("a.mov")));

    assert_eq!(b.phase(), BatchPhase::Cancelled);
    assert!(b.is_finished());
    let completed = events
        .iter()
        .filter(|e| matches!(e, ProcessingProgress::Completed { .. }))
        .count();
    assert_eq!(completed, 1);
    // files 2 and 3 were never entered
    assert!(!events.iter().any(|e| matches!(
        e,
        ProcessingProgress::Analyzing { video_index: 1, .. }
            | ProcessingProgress::Analyzing { video_index: 2, .. }
    )));
    assert_eq!(b.results().len(), 1);
    assert!(b.failures().is_empty());
}

#[test]
fn test_cancellation_before_start() {
    let mut b = BatchOrchestrator::new(paths(&["a.mov"]));
    b.request_cancel();
    let ev = b.start();
    assert!(ev.is_none());
    assert_eq!(b.phase(), BatchPhase::Cancelled);
}

#[test]
fn test_cancellation_lets_in_flight_side_finish() {
    // a cancellation requested during the left split is observed only at
    // the next boundary: the failure of the in-flight side is still
    // recorded, then the orchestrator stops instead of moving on
    let mut b = BatchOrchestrator::new(paths(&["a.mov", "b.mov"]));
    b.start();
    b.analysis_succeeded();
    assert_eq!(b.phase(), BatchPhase::SplittingLeft);
    b.request_cancel();
    let evs = b.side_finished(Err("killed".to_string()));
    assert_eq!(evs.len(), 1);
    assert!(matches!(&evs[0], ProcessingProgress::Failed { video_index: 0, .. }));
    assert_eq!(b.phase(), BatchPhase::Cancelled);
    assert_eq!(b.failures().len(), 1);
}

#[test]
fn test_analysis_failure_aborts_only_that_file() {
    let mut b = BatchOrchestrator::new(paths(&["a.mov", "b.mov"]));
    let mut events = Vec::new();
    events.extend(b.start());
    events.extend(b.analysis_failed("probe failed".to_string()));
    assert_eq!(b.phase(), BatchPhase::Analyzing);
    assert_eq!(b.current_index(), 1);
    drive_successful_file(&mut b, &mut events);
    assert_eq!(b.phase(), BatchPhase::Complete);
    assert_eq!(b.failures().len(), 1);
    assert_eq!(b.failures()[0].path, "a.mov");
    assert_eq!(b.results().len(), 1);
    assert_eq!(b.results()[0].input, "b.mov");
}

#[test]
fn test_failed_last_file_completes_batch() {
    let mut b = BatchOrchestrator::new(paths(&["a.mov"]));
    b.start();
    b.analysis_succeeded();
    b.side_finished(Ok(()));
    let evs = b.side_finished(Err("right side failed".to_string()));
    assert_eq!(evs.len(), 1);
    assert!(matches!(&evs[0], ProcessingProgress::Failed { video_index: 0, .. }));
    assert_eq!(b.phase(), BatchPhase::Complete);
    assert!(b.results().is_empty());
    assert_eq!(b.failures().len(), 1);
}
