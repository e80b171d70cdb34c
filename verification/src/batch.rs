//! Batch orchestration: the sequential state machine that sequences
//! analyze, split left, split right and collect for each input of a batch.
//!
//! The orchestrator itself performs no outside work.  A host drives it: it
//! reads the current phase, performs the corresponding outside step (probe,
//! engine run, re-stat) and reports the outcome back; each report decides
//! the next phase, records results and failures, and returns the observer
//! events to emit, in order.  Cancellation may be requested at any time and
//! is observed at the next report — the in-flight step finishes or fails
//! naturally, its outcome is still recorded, and the orchestrator then
//! becomes `Cancelled` instead of continuing.

use vstd::prelude::*;
use crate::config::Side;
use crate::video::ProcessingProgress;
use crate::video::ProcessingResult;

verus! {

/// Where the orchestrator stands.
#[derive(Debug, Clone, Copy, PartialEq, Eq, Structural)]
pub enum BatchPhase {
    /// Before the batch is started.
    AwaitingStart,
    /// The current input is being probed.
    Analyzing,
    /// The left side of the current input is being split.
    SplittingLeft,
    /// The right side of the current input is being split.
    SplittingRight,
    /// The outputs of the current input are being re-stat'ed.
    Collecting,
    /// Every input was handled; terminal.
    Complete,
    /// The batch was cancelled; terminal and absorbing.
    Cancelled,
}

/// One recorded per-file failure.
#[derive(Debug, Clone)]
pub struct FileFailure {
    /// Index of the failed input in the batch.
    pub video_index: usize,
    /// Path of the failed input.
    pub path: String,
    /// Human-readable failure message.
    pub error: String,
}

/// The sequential batch orchestrator.
#[derive(Debug)]
pub struct BatchOrchestrator {
    paths: Vec<String>,
    phase: BatchPhase,
    index: usize,
    cancel_requested: bool,
    results: Vec<ProcessingResult>,
    failures: Vec<FileFailure>,
}

impl BatchOrchestrator {
    /// The current phase.
    pub closed spec fn spec_phase(self) -> BatchPhase {
        self.phase
    }

    /// The batch inputs, in caller-supplied order.
    pub closed spec fn spec_paths(self) -> Seq<String> {
        self.paths@
    }

    /// Index of the input currently being worked on.
    pub closed spec fn spec_index(self) -> usize {
        self.index
    }

    /// Whether cancellation has been requested.
    pub closed spec fn spec_cancel_requested(self) -> bool {
        self.cancel_requested
    }

    /// Results recorded so far, one per fully completed input.
    pub closed spec fn spec_results(self) -> Seq<ProcessingResult> {
        self.results@
    }

    /// Failures recorded so far, one per failed input.
    pub closed spec fn spec_failures(self) -> Seq<FileFailure> {
        self.failures@
    }

    /// The orchestrator points at a real input whenever it is inside the
    /// batch.
    pub open spec fn wf(self) -> bool {
        &&& self.spec_index() <= self.spec_paths().len()
        &&& (self.spec_phase() == BatchPhase::Analyzing || self.spec_phase()
            == BatchPhase::SplittingLeft || self.spec_phase() == BatchPhase::SplittingRight
            || self.spec_phase() == BatchPhase::Collecting) ==> self.spec_index()
            < self.spec_paths().len()
        &&& self.spec_phase() == BatchPhase::AwaitingStart ==> self.spec_index() == 0
    }

    /// Everything but the phase is as it was.
    pub open spec fn same_but_phase(self, other: Self) -> bool {
        &&& self.spec_paths() == other.spec_paths()
        &&& self.spec_index() == other.spec_index()
        &&& self.spec_cancel_requested() == other.spec_cancel_requested()
        &&& self.spec_results() == other.spec_results()
        &&& self.spec_failures() == other.spec_failures()
    }

    /// Creates an orchestrator over the given inputs, awaiting start.
    pub fn new(paths: Vec<String>) -> (r: Self)
        ensures
            r.wf(),
            r.spec_phase() == BatchPhase::AwaitingStart,
            r.spec_paths() == paths@,
            r.spec_index() == 0,
            !r.spec_cancel_requested(),
            r.spec_results() == Seq::<ProcessingResult>::empty(),
            r.spec_failures() == Seq::<FileFailure>::empty(),
    {
        let r = BatchOrchestrator {
            paths,
            phase: BatchPhase::AwaitingStart,
            index: 0,
            cancel_requested: false,
            results: Vec::new(),
            failures: Vec::new(),
        };
        proof {
            assert(r.spec_results() =~= Seq::<ProcessingResult>::empty());
            assert(r.spec_failures() =~= Seq::<FileFailure>::empty());
        }
        r
    }

    /// Number of inputs in the batch.
    pub fn total(&self) -> (r: usize)
        ensures
            r == self.spec_paths().len(),
    {
        self.paths.len()
    }

    /// The current phase.
    pub fn phase(&self) -> (r: BatchPhase)
        ensures
            r == self.spec_phase(),
    {
        self.phase
    }

    /// Index of the input currently being worked on.
    pub fn current_index(&self) -> (r: usize)
        ensures
            r == self.spec_index(),
    {
        self.index
    }

    /// Path of the input currently being worked on.
    pub fn current_path(&self) -> (r: &String)
        requires
            self.spec_index() < self.spec_paths().len(),
        ensures
            r == self.spec_paths()[self.spec_index() as int],
    {
        &self.paths[self.index]
    }

    /// The results recorded so far.
    pub fn results(&self) -> (r: &Vec<ProcessingResult>)
        ensures
            r@ == self.spec_results(),
    {
        &self.results
    }

    /// The failures recorded so far.
    pub fn failures(&self) -> (r: &Vec<FileFailure>)
        ensures
            r@ == self.spec_failures(),
    {
        &self.failures
    }

    /// True once the batch has finished, by completion or cancellation.
    pub fn is_finished(&self) -> (r: bool)
        ensures
            r == (self.spec_phase() == BatchPhase::Complete || self.spec_phase()
                == BatchPhase::Cancelled),
    {
        self.phase == BatchPhase::Complete || self.phase == BatchPhase::Cancelled
    }

    /// Requests cancellation.  Nothing else changes; the request is
    /// observed at the next reported outcome.
    pub fn request_cancel(&mut self)
        ensures
            final(self).spec_cancel_requested(),
            final(self).spec_phase() == old(self).spec_phase(),
            final(self).spec_paths() == old(self).spec_paths(),
            final(self).spec_index() == old(self).spec_index(),
            final(self).spec_results() == old(self).spec_results(),
            final(self).spec_failures() == old(self).spec_failures(),
            old(self).wf() ==> final(self).wf(),
    {
        self.cancel_requested = true;
    }

    /// Starts the batch: an empty batch completes at once, otherwise the
    /// first input enters analysis and the corresponding event is emitted.
    /// A cancellation requested before the start wins immediately.
    pub fn start(&mut self) -> (ev: Option<ProcessingProgress>)
        requires
            old(self).wf(),
            old(self).spec_phase() == BatchPhase::AwaitingStart,
        ensures
            final(self).wf(),
            final(self).same_but_phase(*old(self)),
            old(self).spec_cancel_requested() ==> final(self).spec_phase()
                == BatchPhase::Cancelled && ev is None,
            !old(self).spec_cancel_requested() && old(self).spec_paths().len() == 0 ==> final(self).spec_phase() == BatchPhase::Complete && ev is None,
            !old(self).spec_cancel_requested() && old(self).spec_paths().len() > 0 ==> final(self).spec_phase() == BatchPhase::Analyzing && (ev matches Some(
                ProcessingProgress::Analyzing { video_index, total, path },
            ) && video_index == old(self).spec_index() && total == old(self).spec_paths().len()
                && path == old(self).spec_paths()[old(self).spec_index() as int]),
    {
        if self.cancel_requested {
            self.phase = BatchPhase::Cancelled;
            return None;
        }
        if self.paths.len() == 0 {
            self.phase = BatchPhase::Complete;
            return None;
        }
        self.phase = BatchPhase::Analyzing;
        Some(
            ProcessingProgress::Analyzing {
                video_index: self.index,
                total: self.paths.len(),
                path: self.paths[self.index].clone(),
            },
        )
    }

    /// Reports that the current input's analysis finished.  A probe failure
    /// does not abort the file: the split runs without a pre-known
    /// duration, so analysis always advances to the left split — unless a
    /// cancellation is observed at this boundary.
    pub fn analysis_succeeded(&mut self) -> (ev: Option<ProcessingProgress>)
        requires
            old(self).wf(),
            old(self).spec_phase() == BatchPhase::Analyzing,
        ensures
            final(self).wf(),
            final(self).same_but_phase(*old(self)),
            old(self).spec_cancel_requested() ==> final(self).spec_phase()
                == BatchPhase::Cancelled && ev is None,
            !old(self).spec_cancel_requested() ==> final(self).spec_phase()
                == BatchPhase::SplittingLeft && (ev matches Some(
                ProcessingProgress::Processing { video_index, total, side, path },
            ) && video_index == old(self).spec_index() && total == old(self).spec_paths().len()
                && side == Side::Left && path == old(self).spec_paths()[old(self).spec_index() as int]),
    {
        if self.cancel_requested {
            self.phase = BatchPhase::Cancelled;
            return None;
        }
        self.phase = BatchPhase::SplittingLeft;
        Some(
            ProcessingProgress::Processing {
                video_index: self.index,
                total: self.paths.len(),
                side: Side::Left,
                path: self.paths[self.index].clone(),
            },
        )
    }

    /// Records a failure of the current input and moves to the next one
    /// (or to `Complete` after the last, or to `Cancelled` when requested).
    /// Returns the events to emit after the `Failed` event.
    fn advance_after_outcome(&mut self) -> (evs: Vec<ProcessingProgress>)
        requires
            old(self).wf(),
            old(self).spec_index() < old(self).spec_paths().len(),
        ensures
            final(self).wf(),
            final(self).spec_paths() == old(self).spec_paths(),
            final(self).spec_cancel_requested() == old(self).spec_cancel_requested(),
            final(self).spec_results() == old(self).spec_results(),
            final(self).spec_failures() == old(self).spec_failures(),
            old(self).spec_cancel_requested() ==> final(self).spec_phase()
                == BatchPhase::Cancelled && final(self).spec_index() == old(self).spec_index()
                && evs@ == Seq::<ProcessingProgress>::empty(),
            !old(self).spec_cancel_requested() && old(self).spec_index() + 1 == old(self).spec_paths().len() ==> final(self).spec_phase() == BatchPhase::Complete && final(self).spec_index() == old(self).spec_index() + 1 && evs@
                == Seq::<ProcessingProgress>::empty(),
            !old(self).spec_cancel_requested() && old(self).spec_index() + 1 < old(self).spec_paths().len() ==> final(self).spec_phase() == BatchPhase::Analyzing && final(self).spec_index() == old(self).spec_index() + 1 && evs@.len() == 1 && (evs@[0] matches
                ProcessingProgress::Analyzing { video_index, total, path } && video_index == old(self).spec_index() + 1 && total == old(self).spec_paths().len() && path == old(self).spec_paths()[old(self).spec_index() + 1]),
    {
        let mut evs: Vec<ProcessingProgress> = Vec::new();
        proof {
            assert(evs@ =~= Seq::<ProcessingProgress>::empty());
        }
        if self.cancel_requested {
            self.phase = BatchPhase::Cancelled;
            return evs;
        }
        let n = self.paths.len();
        self.index = self.index + 1;
        if self.index == n {
            self.phase = BatchPhase::Complete;
            return evs;
        }
        self.phase = BatchPhase::Analyzing;
        evs.push(
            ProcessingProgress::Analyzing {
                video_index: self.index,
                total: self.paths.len(),
                path: self.paths[self.index].clone(),
            },
        );
        evs
    }

    /// Reports that the current input's analysis failed outright.  The
    /// failure is recorded with its message, a `Failed` event is emitted,
    /// only this file is aborted, and the batch moves on.
    pub fn analysis_failed(&mut self, message: String) -> (evs: Vec<ProcessingProgress>)
        requires
            old(self).wf(),
            old(self).spec_phase() == BatchPhase::Analyzing,
        ensures
            final(self).wf(),
            final(self).spec_paths() == old(self).spec_paths(),
            final(self).spec_cancel_requested() == old(self).spec_cancel_requested(),
            final(self).spec_results() == old(self).spec_results(),
            ({
                let f = final(self).spec_failures().last();
                &&& final(self).spec_failures() == old(self).spec_failures().push(f)
                &&& f.video_index == old(self).spec_index()
                &&& f.path == old(self).spec_paths()[old(self).spec_index() as int]
                &&& f.error == message
            }),
            evs@.len() >= 1,
            (evs@[0] matches ProcessingProgress::Failed { video_index, total, path, error }
                && video_index == old(self).spec_index() && total == old(self).spec_paths().len()
                && path == old(self).spec_paths()[old(self).spec_index() as int] && error
                == message),
            old(self).spec_cancel_requested() ==> final(self).spec_phase()
                == BatchPhase::Cancelled && evs@.len() == 1,
            !old(self).spec_cancel_requested() && old(self).spec_index() + 1 == old(self).spec_paths().len() ==> final(self).spec_phase() == BatchPhase::Complete && evs@.len()
                == 1,
            !old(self).spec_cancel_requested() && old(self).spec_index() + 1 < old(self).spec_paths().len() ==> final(self).spec_phase() == BatchPhase::Analyzing && final(self).spec_index() == old(self).spec_index() + 1 && evs@.len() == 2 && (evs@[1] matches
                ProcessingProgress::Analyzing { video_index, total, path } && video_index == old(self).spec_index() + 1 && total == old(self).spec_paths().len() && path == old(self).spec_paths()[old(self).spec_index() + 1]),
    {
        self.record_failure_and_advance(message)
    }

    /// Reports the outcome of the split the host just ran.  A successful
    /// left split advances to the right side; a successful right split
    /// advances to collection; a failed split records the failure, skips
    /// everything else for this file — after a failed left split the right
    /// side is never attempted — and moves on.  A cancellation observed at
    /// this boundary wins over continuing, but a failure is still recorded
    /// first.
    pub fn side_finished(&mut self, outcome: Result<(), String>) -> (evs: Vec<ProcessingProgress>)
        requires
            old(self).wf(),
            old(self).spec_phase() == BatchPhase::SplittingLeft || old(self).spec_phase()
                == BatchPhase::SplittingRight,
        ensures
            final(self).wf(),
            final(self).spec_paths() == old(self).spec_paths(),
            final(self).spec_cancel_requested() == old(self).spec_cancel_requested(),
            final(self).spec_results() == old(self).spec_results(),
            outcome matches Ok(_) ==> {
                &&& final(self).spec_failures() == old(self).spec_failures()
                &&& final(self).spec_index() == old(self).spec_index()
                &&& (old(self).spec_cancel_requested() ==> final(self).spec_phase()
                    == BatchPhase::Cancelled && evs@ == Seq::<ProcessingProgress>::empty())
                &&& (!old(self).spec_cancel_requested() && old(self).spec_phase()
                    == BatchPhase::SplittingLeft ==> final(self).spec_phase()
                    == BatchPhase::SplittingRight && evs@.len() == 1 && (evs@[0] matches
                    ProcessingProgress::Processing { video_index, total, side, path }
                    && video_index == old(self).spec_index() && total == old(self).spec_paths().len() && side == Side::Right && path == old(self).spec_paths()[old(self).spec_index() as int]))
                &&& (!old(self).spec_cancel_requested() && old(self).spec_phase()
                    == BatchPhase::SplittingRight ==> final(self).spec_phase()
                    == BatchPhase::Collecting && evs@ == Seq::<ProcessingProgress>::empty())
            },
            outcome matches Err(m) ==> {
                let f = final(self).spec_failures().last();
                &&& final(self).spec_failures() == old(self).spec_failures().push(f)
                &&& f.video_index == old(self).spec_index()
                &&& f.path == old(self).spec_paths()[old(self).spec_index() as int]
                &&& f.error == m
                &&& evs@.len() >= 1
                &&& (evs@[0] matches ProcessingProgress::Failed { video_index, total, path, error }
                    && video_index == old(self).spec_index() && total == old(self).spec_paths().len() && path == old(self).spec_paths()[old(self).spec_index() as int] && error == m)
                &&& (old(self).spec_cancel_requested() ==> final(self).spec_phase()
                    == BatchPhase::Cancelled && evs@.len() == 1)
                &&& (!old(self).spec_cancel_requested() && old(self).spec_index() + 1 == old(self).spec_paths().len() ==> final(self).spec_phase() == BatchPhase::Complete
                    && evs@.len() == 1)
                &&& (!old(self).spec_cancel_requested() && old(self).spec_index() + 1 < old(self).spec_paths().len() ==> final(self).spec_phase() == BatchPhase::Analyzing
                    && final(self).spec_index() == old(self).spec_index() + 1 && evs@.len() == 2
                    && (evs@[1] matches ProcessingProgress::Analyzing { video_index, total, path }
                    && video_index == old(self).spec_index() + 1 && total == old(self).spec_paths().len() && path == old(self).spec_paths()[old(self).spec_index()
                    + 1]))
            },
    {
        match outcome {
            Ok(_) => {
                if self.cancel_requested {
                    self.phase = BatchPhase::Cancelled;
                    let evs: Vec<ProcessingProgress> = Vec::new();
                    proof {
                        assert(evs@ =~= Seq::<ProcessingProgress>::empty());
                    }
                    return evs;
                }
                if matches!(self.phase, BatchPhase::SplittingLeft) {
                    self.phase = BatchPhase::SplittingRight;
                    let mut evs: Vec<ProcessingProgress> = Vec::new();
                    evs.push(
                        ProcessingProgress::Processing {
                            video_index: self.index,
                            total: self.paths.len(),
                            side: Side::Right,
                            path: self.paths[self.index].clone(),
                        },
                    );
                    evs
                } else {
                    self.phase = BatchPhase::Collecting;
                    let evs: Vec<ProcessingProgress> = Vec::new();
                    proof {
                        assert(evs@ =~= Seq::<ProcessingProgress>::empty());
                    }
                    evs
                }
            },
            Err(message) => self.record_failure_and_advance(message),
        }
    }

    /// Reports the collected result of the current input: both sides
    /// succeeded and the outputs were re-stat'ed.  The result is recorded,
    /// a `Completed` event is emitted, and the batch moves on — or stops at
    /// `Cancelled` when a cancellation is observed at this boundary, the
    /// completed result still being reported.
    pub fn collection_finished(&mut self, result: ProcessingResult) -> (evs: Vec<
        ProcessingProgress,
    >)
        requires
            old(self).wf(),
            old(self).spec_phase() == BatchPhase::Collecting,
        ensures
            final(self).wf(),
            final(self).spec_paths() == old(self).spec_paths(),
            final(self).spec_cancel_requested() == old(self).spec_cancel_requested(),
            final(self).spec_failures() == old(self).spec_failures(),
            final(self).spec_results() == old(self).spec_results().push(result),
            evs@.len() >= 1,
            (evs@[0] matches ProcessingProgress::Completed { video_index, total, result: res }
                && video_index == old(self).spec_index() && total == old(self).spec_paths().len()
                && res == result),
            old(self).spec_cancel_requested() ==> final(self).spec_phase()
                == BatchPhase::Cancelled && evs@.len() == 1,
            !old(self).spec_cancel_requested() && old(self).spec_index() + 1 == old(self).spec_paths().len() ==> final(self).spec_phase() == BatchPhase::Complete && evs@.len()
                == 1,
            !old(self).spec_cancel_requested() && old(self).spec_index() + 1 < old(self).spec_paths().len() ==> final(self).spec_phase() == BatchPhase::Analyzing && final(self).spec_index() == old(self).spec_index() + 1 && evs@.len() == 2 && (evs@[1] matches
                ProcessingProgress::Analyzing { video_index, total, path } && video_index == old(self).spec_index() + 1 && total == old(self).spec_paths().len() && path == old(self).spec_paths()[old(self).spec_index() + 1]),
    {
        let ev = ProcessingProgress::Completed {
            video_index: self.index,
            total: self.paths.len(),
            result: result.duplicate(),
        };
        self.results.push(result);
        let mut evs: Vec<ProcessingProgress> = Vec::new();
        evs.push(ev);
        let mut rest = self.advance_after_outcome();
        evs.append(&mut rest);
        evs
    }

    /// Records a failure for the current input, emits the `Failed` event
    /// and moves on.
    fn record_failure_and_advance(&mut self, message: String) -> (evs: Vec<ProcessingProgress>)
        requires
            old(self).wf(),
            old(self).spec_index() < old(self).spec_paths().len(),
        ensures
            final(self).wf(),
            final(self).spec_paths() == old(self).spec_paths(),
            final(self).spec_cancel_requested() == old(self).spec_cancel_requested(),
            final(self).spec_results() == old(self).spec_results(),
            ({
                let f = final(self).spec_failures().last();
                &&& final(self).spec_failures() == old(self).spec_failures().push(f)
                &&& f.video_index == old(self).spec_index()
                &&& f.path == old(self).spec_paths()[old(self).spec_index() as int]
                &&& f.error == message
            }),
            evs@.len() >= 1,
            (evs@[0] matches ProcessingProgress::Failed { video_index, total, path, error }
                && video_index == old(self).spec_index() && total == old(self).spec_paths().len()
                && path == old(self).spec_paths()[old(self).spec_index() as int] && error
                == message),
            old(self).spec_cancel_requested() ==> final(self).spec_phase()
                == BatchPhase::Cancelled && evs@.len() == 1,
            !old(self).spec_cancel_requested() && old(self).spec_index() + 1 == old(self).spec_paths().len() ==> final(self).spec_phase() == BatchPhase::Complete && evs@.len()
                == 1,
            !old(self).spec_cancel_requested() && old(self).spec_index() + 1 < old(self).spec_paths().len() ==> final(self).spec_phase() == BatchPhase::Analyzing && final(self).spec_index() == old(self).spec_index() + 1 && evs@.len() == 2 && (evs@[1] matches
                ProcessingProgress::Analyzing { video_index, total, path } && video_index == old(self).spec_index() + 1 && total == old(self).spec_paths().len() && path == old(self).spec_paths()[old(self).spec_index() + 1]),
    {
        let failure = FileFailure {
            video_index: self.index,
            path: self.paths[self.index].clone(),
            error: message.clone(),
        };
        let ev = ProcessingProgress::Failed {
            video_index: self.index,
            total: self.paths.len(),
            path: self.paths[self.index].clone(),
            error: message,
        };
        self.failures.push(failure);
        let mut evs: Vec<ProcessingProgress> = Vec::new();
        evs.push(ev);
        let mut rest = self.advance_after_outcome();
        evs.append(&mut rest);
        evs
    }
}

} // verus!
