//! The order of the build: which step follows which, and with which error
//! the build stops. The caller carries each step out and reports how it
//! ended.

use crate::opt::BuildError;
use vstd::prelude::*;

verus! {

/// How far the build has come.
#[derive(Clone, Copy, Debug, PartialEq, Eq, Structural)]
pub enum Stage {
    /// Nothing is done yet.
    Start,
    /// The snapshot of the interpreter is being written: all that a build of
    /// the interpreter alone does.
    CoreSnapshot,
    /// The compiler, called anew, builds the snapshot of the interpreter with
    /// the plugin's source.
    Snapshot,
    /// The plugin's imports and exports are read off its source.
    Analysis,
    /// The shim is generated.
    Shim,
    /// The merge tool is looked for.
    MergeProbe,
    /// The snapshot and the shim are merged.
    Merge,
    /// The optimiser is looked for.
    OptimizerProbe,
    /// The merged module is optimised.
    Optimize,
    /// The module is built.
    Done,
    /// The build has stopped with an error.
    Failed,
}

/// What the caller reports.
#[derive(Clone, Copy, Debug, PartialEq, Eq, Structural)]
pub enum Event {
    /// The build begins; `core` says whether only the interpreter's snapshot
    /// is asked for.
    Begin { core: bool },
    /// The step under way has succeeded.
    Succeeded,
    /// The step under way has failed.
    Failed,
    /// The analysis has found this many exports.
    Analysed { exports: usize },
}

/// What the caller does next.
#[derive(Clone, Debug, PartialEq, Eq)]
pub enum Action {
    /// Snapshot the interpreter with the source from standard input, and
    /// write the snapshot to the output.
    WriteSnapshot,
    /// Call the compiler anew to build the interpreter's snapshot, with the
    /// plugin's text on its standard input.
    SpawnSnapshot,
    /// Read the imports and exports off the plugin's text.
    Analyse,
    /// Generate the shim and write it out.
    GenerateShim,
    /// Ask the merge tool for its version.
    ProbeMerge,
    /// Run the merge tool.
    RunMerge,
    /// Ask the optimiser for its version.
    ProbeOptimizer,
    /// Run the optimiser on the output.
    RunOptimizer,
    /// Nothing is left to do.
    Stop,
    /// Stop with this error.
    Fail(BuildError),
}

/// The place of a stage in the order of the build.
pub open spec fn rank(stage: Stage) -> int {
    match stage {
        Stage::Start => 0,
        Stage::CoreSnapshot => 1,
        Stage::Snapshot => 1,
        Stage::Analysis => 2,
        Stage::Shim => 3,
        Stage::MergeProbe => 4,
        Stage::Merge => 5,
        Stage::OptimizerProbe => 6,
        Stage::Optimize => 7,
        Stage::Done => 8,
        Stage::Failed => 8,
    }
}

/// The error with which the build stops when the step of a stage fails.
pub open spec fn failure_of(stage: Stage) -> BuildError {
    match stage {
        Stage::CoreSnapshot => BuildError::SnapshotFailed,
        Stage::Snapshot => BuildError::SnapshotFailed,
        Stage::Analysis => BuildError::AnalysisFailed,
        Stage::Shim => BuildError::ShimFailed,
        Stage::MergeProbe => BuildError::MissingMerge,
        Stage::Merge => BuildError::MergeFailed,
        Stage::OptimizerProbe => BuildError::MissingOptimizer,
        Stage::Optimize => BuildError::OptimizeFailed,
        _ => BuildError::OutOfTurn,
    }
}

/// The stage that follows a stage whose step has succeeded, and what is to
/// be done there.
pub open spec fn successor(stage: Stage) -> (Stage, Action) {
    match stage {
        Stage::CoreSnapshot => (Stage::Done, Action::Stop),
        Stage::Snapshot => (Stage::Analysis, Action::Analyse),
        Stage::Shim => (Stage::MergeProbe, Action::ProbeMerge),
        Stage::MergeProbe => (Stage::Merge, Action::RunMerge),
        Stage::Merge => (Stage::OptimizerProbe, Action::ProbeOptimizer),
        Stage::OptimizerProbe => (Stage::Optimize, Action::RunOptimizer),
        Stage::Optimize => (Stage::Done, Action::Stop),
        _ => (Stage::Failed, Action::Fail(BuildError::OutOfTurn)),
    }
}

/// Whether a step is under way at a stage.
pub open spec fn working(stage: Stage) -> bool {
    !(stage is Start || stage is Done || stage is Failed)
}

/// The stage after an event, and what the caller is to do. A failed step
/// stops the build with the error of its stage; nothing is tried again. A
/// plugin without exports stops the build. A finished build stays finished.
pub open spec fn next(stage: Stage, event: Event) -> (Stage, Action) {
    if stage is Done {
        (Stage::Done, Action::Stop)
    } else if stage is Failed {
        (Stage::Failed, Action::Stop)
    } else {
        match event {
            Event::Begin { core } => if stage is Start {
                if core {
                    (Stage::CoreSnapshot, Action::WriteSnapshot)
                } else {
                    (Stage::Snapshot, Action::SpawnSnapshot)
                }
            } else {
                (Stage::Failed, Action::Fail(BuildError::OutOfTurn))
            },
            Event::Failed => (Stage::Failed, Action::Fail(failure_of(stage))),
            Event::Analysed { exports } => if stage is Analysis {
                if exports == 0 {
                    (Stage::Failed, Action::Fail(BuildError::NoExports))
                } else {
                    (Stage::Shim, Action::GenerateShim)
                }
            } else {
                (Stage::Failed, Action::Fail(BuildError::OutOfTurn))
            },
            Event::Succeeded => if stage is Analysis {
                (Stage::Failed, Action::Fail(BuildError::OutOfTurn))
            } else {
                successor(stage)
            },
        }
    }
}

/// The stage after a sequence of events.
pub open spec fn stage_after(stage: Stage, events: Seq<Event>) -> Stage
    decreases events.len(),
{
    if events.len() == 0 {
        stage
    } else {
        next(stage_after(stage, events.drop_last()), events.last()).0
    }
}

/// What the run of a tool reports: the step has succeeded only where the
/// tool was started and ended well. A tool that could not be started, or
/// that ended with a failure, has failed the step.
pub open spec fn tool_result(started: bool, ended_well: bool) -> Event {
    if started && ended_well {
        Event::Succeeded
    } else {
        Event::Failed
    }
}

/// Says what the run of a tool reports, given whether it was started and
/// whether it ended well.
pub fn tool_event(started: bool, ended_well: bool) -> (r: Event)
    ensures
        r == tool_result(started, ended_well),
{
    if started && ended_well {
        Event::Succeeded
    } else {
        Event::Failed
    }
}

/// Says what follows an event.
pub fn advance(stage: Stage, event: Event) -> (r: (Stage, Action))
    ensures
        r == next(stage, event),
{
    match stage {
        Stage::Done => (Stage::Done, Action::Stop),
        Stage::Failed => (Stage::Failed, Action::Stop),
        _ => match event {
            Event::Begin { core } => match stage {
                Stage::Start => if core {
                    (Stage::CoreSnapshot, Action::WriteSnapshot)
                } else {
                    (Stage::Snapshot, Action::SpawnSnapshot)
                },
                _ => (Stage::Failed, Action::Fail(BuildError::OutOfTurn)),
            },
            Event::Failed => {
                let error = match stage {
                    Stage::CoreSnapshot => BuildError::SnapshotFailed,
                    Stage::Snapshot => BuildError::SnapshotFailed,
                    Stage::Analysis => BuildError::AnalysisFailed,
                    Stage::Shim => BuildError::ShimFailed,
                    Stage::MergeProbe => BuildError::MissingMerge,
                    Stage::Merge => BuildError::MergeFailed,
                    Stage::OptimizerProbe => BuildError::MissingOptimizer,
                    Stage::Optimize => BuildError::OptimizeFailed,
                    _ => BuildError::OutOfTurn,
                };
                (Stage::Failed, Action::Fail(error))
            },
            Event::Analysed { exports } => match stage {
                Stage::Analysis => if exports == 0 {
                    (Stage::Failed, Action::Fail(BuildError::NoExports))
                } else {
                    (Stage::Shim, Action::GenerateShim)
                },
                _ => (Stage::Failed, Action::Fail(BuildError::OutOfTurn)),
            },
            Event::Succeeded => match stage {
                Stage::CoreSnapshot => (Stage::Done, Action::Stop),
                Stage::Snapshot => (Stage::Analysis, Action::Analyse),
                Stage::Shim => (Stage::MergeProbe, Action::ProbeMerge),
                Stage::MergeProbe => (Stage::Merge, Action::RunMerge),
                Stage::Merge => (Stage::OptimizerProbe, Action::ProbeOptimizer),
                Stage::OptimizerProbe => (Stage::Optimize, Action::RunOptimizer),
                Stage::Optimize => (Stage::Done, Action::Stop),
                _ => (Stage::Failed, Action::Fail(BuildError::OutOfTurn)),
            },
        },
    }
}

/// The build never goes back: each event leads to a later stage, or leaves a
/// finished build where it is; and a failure is never followed by another
/// step.
pub proof fn lemma_build_only_advances(stage: Stage, event: Event)
    ensures
        rank(stage) <= rank(next(stage, event).0),
        working(stage) ==> rank(stage) < rank(next(stage, event).0),
        stage is Failed ==> next(stage, event) == (Stage::Failed, Action::Stop),
        stage is Done ==> next(stage, event) == (Stage::Done, Action::Stop),
        event is Failed && working(stage) ==> next(stage, event).0 is Failed,
{
}

/// A tool that does not end well stops the build: whatever step is under
/// way, the build fails with the error of that step unless the tool was
/// started and ended well, and no failing tool lets the build finish.
pub proof fn lemma_failed_tool_stops_build(stage: Stage, started: bool, ended_well: bool)
    requires
        working(stage),
    ensures
        !(started && ended_well) ==> next(stage, tool_result(started, ended_well)) == (
            Stage::Failed,
            Action::Fail(failure_of(stage)),
        ),
        next(stage, tool_result(started, ended_well)).0 is Done ==> started && ended_well,
{
}

/// A build of a whole plugin that has reached the optimiser has seen the
/// snapshot built, at least one export found, the shim generated, the merge
/// tool found and the merge done, and the optimiser found: seven events, none
/// of them a failure.
pub proof fn lemma_optimize_needs_all_steps(events: Seq<Event>)
    requires
        stage_after(Stage::Start, events) is Optimize,
    ensures
        events.len() == 7,
        events[0] == (Event::Begin { core: false }),
        events[1] is Succeeded,
        events[2] matches Event::Analysed { exports } && exports > 0,
        events[3] is Succeeded,
        events[4] is Succeeded,
        events[5] is Succeeded,
        events[6] is Succeeded,
{
    let s7 = stage_after(Stage::Start, events);
    assert(events.len() > 0);
    let e6 = events.drop_last();
    let s6 = stage_after(Stage::Start, e6);
    assert(s7 == next(s6, events.last()).0);
    assert(s6 is OptimizerProbe);
    assert(e6.len() > 0);
    let e5 = e6.drop_last();
    let s5 = stage_after(Stage::Start, e5);
    assert(s6 == next(s5, e6.last()).0);
    assert(s5 is Merge);
    assert(e5.len() > 0);
    let e4 = e5.drop_last();
    let s4 = stage_after(Stage::Start, e4);
    assert(s5 == next(s4, e5.last()).0);
    assert(s4 is MergeProbe);
    assert(e4.len() > 0);
    let e3 = e4.drop_last();
    let s3 = stage_after(Stage::Start, e3);
    assert(s4 == next(s3, e4.last()).0);
    assert(s3 is Shim);
    assert(e3.len() > 0);
    let e2 = e3.drop_last();
    let s2 = stage_after(Stage::Start, e2);
    assert(s3 == next(s2, e3.last()).0);
    assert(s2 is Analysis);
    assert(e2.len() > 0);
    let e1 = e2.drop_last();
    let s1 = stage_after(Stage::Start, e1);
    assert(s2 == next(s1, e2.last()).0);
    assert(s1 is Snapshot);
    assert(e1.len() > 0);
    let e0 = e1.drop_last();
    let s0 = stage_after(Stage::Start, e0);
    assert(s1 == next(s0, e1.last()).0);
    assert(s0 is Start);
    if e0.len() > 0 {
        assert(s0 == next(stage_after(Stage::Start, e0.drop_last()), e0.last()).0);
    }
    assert(e0.len() == 0);
}

} // verus!
