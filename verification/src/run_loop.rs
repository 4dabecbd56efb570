//! The order of dispatches, synchronization points and read-backs of one
//! pipeline invocation.
//!
//! The host performs the actions; this module says which one comes next. The
//! whole order is given once as a sequence, the schedule, and `RunLoop` walks
//! it one action at a time.

use vstd::prelude::*;
use crate::buffers::{BufferId, ModeKind, read_back_ids};
use crate::kernels::Kernel;

verus! {

/// One thing for the host to do.
#[derive(Clone, Copy, Debug, PartialEq, Eq, Structural)]
pub enum Action {
    /// Enqueue a kernel. `run` is the accumulation run it belongs to; it is 0
    /// for `scene_render`, which belongs to none.
    Dispatch { kernel: Kernel, run: i32 },
    /// Block until every kernel enqueued so far is complete.
    Synchronize,
    /// Copy a buffer to host memory. The copy waits for the kernels enqueued
    /// before it.
    ReadBack { buffer: BufferId },
    /// Nothing is left to do.
    Done,
}

/// The number of accumulation runs that a run count stands for: a negative
/// count stands for none.
pub open spec fn runs_of(num_runs: i32) -> nat {
    if num_runs > 0 {
        num_runs as nat
    } else {
        0
    }
}

/// The number of actions before `Done`.
pub open spec fn schedule_len(mode: ModeKind, num_runs: i32) -> nat {
    match mode {
        ModeKind::SceneDebug => 2,
        ModeKind::Trace => 4 * runs_of(num_runs) + 2,
    }
}

/// The action at position `k`. In trace mode each run takes four positions:
/// `trace`, a synchronization point, `debug_render`, `gen_impulse_response`. The
/// read-backs follow the last run, and `Done` follows the read-backs for ever.
pub open spec fn action_at(mode: ModeKind, num_runs: i32, k: int) -> Action {
    match mode {
        ModeKind::SceneDebug => if k == 0 {
            Action::Dispatch { kernel: Kernel::SceneRender, run: 0 }
        } else if k == 1 {
            Action::ReadBack { buffer: BufferId::SceneImage }
        } else {
            Action::Done
        },
        ModeKind::Trace => {
            let n = runs_of(num_runs) as int;
            if 0 <= k < 4 * n {
                let run = (k / 4) as i32;
                if k % 4 == 0 {
                    Action::Dispatch { kernel: Kernel::Trace, run }
                } else if k % 4 == 1 {
                    Action::Synchronize
                } else if k % 4 == 2 {
                    Action::Dispatch { kernel: Kernel::DebugRender, run }
                } else {
                    Action::Dispatch { kernel: Kernel::GenImpulseResponse, run }
                }
            } else if k == 4 * n {
                Action::ReadBack { buffer: BufferId::DebugImage }
            } else if k == 4 * n + 1 {
                Action::ReadBack { buffer: BufferId::Impulse }
            } else {
                Action::Done
            }
        },
    }
}

/// Every action of an invocation but the final `Done`, in order.
pub open spec fn schedule(mode: ModeKind, num_runs: i32) -> Seq<Action> {
    Seq::new(schedule_len(mode, num_runs), |k: int| action_at(mode, num_runs, k))
}

/// Where an invocation stands.
#[derive(Clone, Copy, Debug, PartialEq, Eq, Structural)]
enum Stage {
    /// Nothing has been done.
    Start,
    /// `scene_render` is enqueued.
    Dispatched,
    /// `trace` of this run is enqueued.
    Tracing { run: i32 },
    /// `trace` of this run is complete.
    Traced { run: i32 },
    /// `debug_render` of this run is enqueued.
    Rendered { run: i32 },
    /// `gen_impulse_response` of this run is enqueued: the run is over.
    Accumulated { run: i32 },
    /// The image of a trace invocation is read back, the impulse is not.
    Reading,
    /// Every buffer is read back.
    ReadBack,
    /// `Done` has been handed out.
    Done,
}

/// The state of an invocation as the host sees it.
#[derive(Clone, Copy, Debug, PartialEq, Eq, Structural)]
pub enum Phase {
    /// Nothing has been done.
    Start,
    /// The one kernel of a debug invocation is enqueued.
    Dispatched,
    /// An accumulation run of a trace invocation is under way or just over.
    Run { run: i32 },
    /// The read-backs have begun or are over.
    ReadBack,
    /// The host has been told that nothing is left to do.
    Done,
}

/// The phase of an invocation that has been handed `position` actions, and
/// `Done` after them or not.
pub open spec fn phase_of(mode: ModeKind, num_runs: i32, position: nat, finished: bool) -> Phase {
    if finished {
        Phase::Done
    } else if position == 0 {
        Phase::Start
    } else {
        match mode {
            ModeKind::SceneDebug => if position == 1 {
                Phase::Dispatched
            } else {
                Phase::ReadBack
            },
            ModeKind::Trace => if position <= 4 * runs_of(num_runs) {
                Phase::Run { run: ((position - 1) / 4) as i32 }
            } else {
                Phase::ReadBack
            },
        }
    }
}

/// The state of the run loop of one invocation.
#[derive(Clone, Copy, Debug)]
pub struct RunLoop {
    mode: ModeKind,
    num_runs: i32,
    stage: Stage,
}

impl RunLoop {
    /// The stage belongs to the mode, and a run it names is one of the runs.
    #[verifier::type_invariant]
    spec fn wf(&self) -> bool {
        match self.stage {
            Stage::Start | Stage::ReadBack | Stage::Done => true,
            Stage::Dispatched => self.mode == ModeKind::SceneDebug,
            Stage::Reading => self.mode == ModeKind::Trace,
            Stage::Tracing { run } | Stage::Traced { run } | Stage::Rendered { run }
            | Stage::Accumulated { run } => self.mode == ModeKind::Trace && 0 <= run
                < self.num_runs,
        }
    }

    /// The mode of the invocation.
    pub closed spec fn mode(&self) -> ModeKind {
        self.mode
    }

    /// The run count the loop was made with.
    pub closed spec fn num_runs(&self) -> i32 {
        self.num_runs
    }

    /// The number of actions handed out so far, not counting `Done`.
    pub closed spec fn position(&self) -> nat {
        match self.stage {
            Stage::Start => 0,
            Stage::Dispatched => 1,
            Stage::Tracing { run } => (4 * run + 1) as nat,
            Stage::Traced { run } => (4 * run + 2) as nat,
            Stage::Rendered { run } => (4 * run + 3) as nat,
            Stage::Accumulated { run } => (4 * run + 4) as nat,
            Stage::Reading => 4 * runs_of(self.num_runs) + 1,
            Stage::ReadBack | Stage::Done => schedule_len(self.mode, self.num_runs),
        }
    }

    /// Whether `Done` has been handed out.
    pub closed spec fn finished(&self) -> bool {
        self.stage == Stage::Done
    }

    /// Starts the run loop of an invocation.
    pub fn new(mode: ModeKind, num_runs: i32) -> (rl: RunLoop)
        ensures
            rl.mode() == mode,
            rl.num_runs() == num_runs,
            rl.position() == 0,
            !rl.finished(),
    {
        RunLoop { mode, num_runs, stage: Stage::Start }
    }

    /// Hands out the next action and moves on. Once the schedule is exhausted
    /// every call returns `Done` and the position stays.
    pub fn next(&mut self) -> (action: Action)
        ensures
            final(self).mode() == old(self).mode(),
            final(self).num_runs() == old(self).num_runs(),
            action == action_at(old(self).mode(), old(self).num_runs(), old(self).position() as int),
            final(self).position() == if old(self).position() < schedule_len(
                old(self).mode(),
                old(self).num_runs(),
            ) {
                old(self).position() + 1
            } else {
                old(self).position()
            },
            old(self).position() <= schedule_len(old(self).mode(), old(self).num_runs()),
            final(self).finished() == (old(self).position() == schedule_len(
                old(self).mode(),
                old(self).num_runs(),
            )),
            old(self).finished() ==> final(self).finished(),
    {
        proof {
            use_type_invariant(&*self);
        }
        let first_run: bool = 0 < self.num_runs;
        match self.stage {
            Stage::Start => match self.mode {
                ModeKind::SceneDebug => {
                    self.stage = Stage::Dispatched;
                    Action::Dispatch { kernel: Kernel::SceneRender, run: 0 }
                },
                ModeKind::Trace => {
                    if first_run {
                        self.stage = Stage::Tracing { run: 0 };
                        Action::Dispatch { kernel: Kernel::Trace, run: 0 }
                    } else {
                        self.stage = Stage::Reading;
                        Action::ReadBack { buffer: BufferId::DebugImage }
                    }
                },
            },
            Stage::Dispatched => {
                self.stage = Stage::ReadBack;
                Action::ReadBack { buffer: BufferId::SceneImage }
            },
            Stage::Tracing { run } => {
                self.stage = Stage::Traced { run };
                Action::Synchronize
            },
            Stage::Traced { run } => {
                self.stage = Stage::Rendered { run };
                Action::Dispatch { kernel: Kernel::DebugRender, run }
            },
            Stage::Rendered { run } => {
                self.stage = Stage::Accumulated { run };
                Action::Dispatch { kernel: Kernel::GenImpulseResponse, run }
            },
            Stage::Accumulated { run } => {
                if run < self.num_runs - 1 {
                    let following: i32 = run + 1;
                    self.stage = Stage::Tracing { run: following };
                    Action::Dispatch { kernel: Kernel::Trace, run: following }
                } else {
                    self.stage = Stage::Reading;
                    Action::ReadBack { buffer: BufferId::DebugImage }
                }
            },
            Stage::Reading => {
                self.stage = Stage::ReadBack;
                Action::ReadBack { buffer: BufferId::Impulse }
            },
            Stage::ReadBack | Stage::Done => {
                self.stage = Stage::Done;
                Action::Done
            },
        }
    }

    /// Tells whether every action but `Done` has been handed out.
    pub fn is_done(&self) -> (b: bool)
        ensures
            b == (self.position() == schedule_len(self.mode(), self.num_runs())),
            self.position() <= schedule_len(self.mode(), self.num_runs()),
    {
        proof {
            use_type_invariant(self);
        }
        match self.stage {
            Stage::ReadBack | Stage::Done => true,
            _ => false,
        }
    }

    /// Tells the phase the invocation is in.
    pub fn phase(&self) -> (p: Phase)
        ensures
            p == phase_of(self.mode(), self.num_runs(), self.position(), self.finished()),
    {
        proof {
            use_type_invariant(self);
        }
        match self.stage {
            Stage::Start => Phase::Start,
            Stage::Dispatched => Phase::Dispatched,
            Stage::Tracing { run } | Stage::Traced { run } | Stage::Rendered { run }
            | Stage::Accumulated { run } => Phase::Run { run },
            Stage::Reading | Stage::ReadBack => Phase::ReadBack,
            Stage::Done => Phase::Done,
        }
    }

    /// Counts the actions handed out so far, not counting `Done`.
    pub fn steps_taken(&self) -> (steps: u64)
        ensures
            steps == self.position(),
    {
        proof {
            use_type_invariant(self);
        }
        let runs: u64 = if self.num_runs > 0 {
            self.num_runs as u64
        } else {
            0
        };
        match self.stage {
            Stage::Start => 0,
            Stage::Dispatched => 1,
            Stage::Tracing { run } => 4 * (run as u64) + 1,
            Stage::Traced { run } => 4 * (run as u64) + 2,
            Stage::Rendered { run } => 4 * (run as u64) + 3,
            Stage::Accumulated { run } => 4 * (run as u64) + 4,
            Stage::Reading => 4 * runs + 1,
            Stage::ReadBack | Stage::Done => match self.mode {
                ModeKind::SceneDebug => 2,
                ModeKind::Trace => 4 * runs + 2,
            },
        }
    }
}

/// Lists every action of an invocation but the final `Done`, in order.
pub fn actions(mode: ModeKind, num_runs: i32) -> (list: Vec<Action>)
    ensures
        list@ == schedule(mode, num_runs),
{
    let mut rl = RunLoop::new(mode, num_runs);
    let mut list: Vec<Action> = Vec::new();
    while !rl.is_done()
        invariant
            rl.mode() == mode,
            rl.num_runs() == num_runs,
            rl.position() <= schedule_len(mode, num_runs),
            list@.len() == rl.position(),
            forall|k: int| 0 <= k < list@.len() ==> list@[k] == action_at(mode, num_runs, k),
        decreases schedule_len(mode, num_runs) - rl.position(),
    {
        let action = rl.next();
        list.push(action);
    }
    assert(list@ =~= schedule(mode, num_runs));
    list
}

/// Whether an action enqueues one of the two kernels that consume the path
/// state of the given run.
pub open spec fn consumes_run(action: Action, run: i32) -> bool {
    action == (Action::Dispatch { kernel: Kernel::DebugRender, run }) || action
        == (Action::Dispatch { kernel: Kernel::GenImpulseResponse, run })
}

/// Proves that `debug_render` and `gen_impulse_response` of a run are enqueued
/// only after `trace` of the same run is complete: `trace` of that run stands
/// earlier in the schedule, directly followed by a synchronization point that
/// also comes before the consumer.
pub proof fn lemma_trace_completes_first(num_runs: i32, j: int, run: i32)
    requires
        0 <= j < schedule_len(ModeKind::Trace, num_runs),
        consumes_run(schedule(ModeKind::Trace, num_runs)[j], run),
    ensures
        exists|k: int|
            0 <= k && k + 1 < j && #[trigger] schedule(ModeKind::Trace, num_runs)[k] == (
            Action::Dispatch { kernel: Kernel::Trace, run }) && schedule(
                ModeKind::Trace,
                num_runs,
            )[k + 1] == Action::Synchronize,
{
    let s = schedule(ModeKind::Trace, num_runs);
    let k = 4 * (j / 4);
    assert(s[j] == action_at(ModeKind::Trace, num_runs, j));
    assert(j < 4 * runs_of(num_runs));
    assert(run == (j / 4) as i32);
    assert(s[k] == action_at(ModeKind::Trace, num_runs, k));
    assert(s[k + 1] == action_at(ModeKind::Trace, num_runs, k + 1));
    assert(s[k] == (Action::Dispatch { kernel: Kernel::Trace, run }));
}

/// Proves where each kernel of a run stands: `trace` of run `i` at position
/// `4 * i`, then the synchronization point, `debug_render` and
/// `gen_impulse_response`, and nowhere else. So every run is traced once, the
/// runs follow one another in order, and no run starts before the one before it
/// has enqueued all its kernels.
pub proof fn lemma_run_positions(num_runs: i32, k: int, run: i32)
    requires
        0 <= k < schedule_len(ModeKind::Trace, num_runs),
    ensures
        schedule(ModeKind::Trace, num_runs)[k] == (Action::Dispatch { kernel: Kernel::Trace, run })
            <==> (0 <= run < num_runs && k == 4 * run),
        schedule(ModeKind::Trace, num_runs)[k] == Action::Synchronize <==> (k < 4 * runs_of(
            num_runs,
        ) && k % 4 == 1),
        schedule(ModeKind::Trace, num_runs)[k] == (
        Action::Dispatch { kernel: Kernel::DebugRender, run }) <==> (0 <= run < num_runs && k == 4
            * run + 2),
        schedule(ModeKind::Trace, num_runs)[k] == (
        Action::Dispatch { kernel: Kernel::GenImpulseResponse, run }) <==> (0 <= run < num_runs
            && k == 4 * run + 3),
{
    assert(schedule(ModeKind::Trace, num_runs)[k] == action_at(ModeKind::Trace, num_runs, k));
}

/// Proves that the read-backs end the schedule: the buffers of
/// `read_back_ids` are read in that order, each once, after every dispatch and
/// synchronization point.
pub proof fn lemma_read_backs_last(mode: ModeKind, num_runs: i32, k: int)
    requires
        0 <= k < schedule_len(mode, num_runs),
    ensures
        read_back_ids(mode).len() <= schedule_len(mode, num_runs),
        k >= schedule_len(mode, num_runs) - read_back_ids(mode).len() ==> schedule(
            mode,
            num_runs,
        )[k] == (Action::ReadBack {
            buffer: read_back_ids(mode)[k - (schedule_len(mode, num_runs) - read_back_ids(
                mode,
            ).len())],
        }),
        k < schedule_len(mode, num_runs) - read_back_ids(mode).len() ==> !(schedule(
            mode,
            num_runs,
        )[k] is ReadBack) && schedule(mode, num_runs)[k] != Action::Done,
{
    assert(schedule(mode, num_runs)[k] == action_at(mode, num_runs, k));
}

/// Proves that a debug invocation is one dispatch of `scene_render` followed by
/// one read-back of the scene image, whatever the run count.
pub proof fn lemma_scene_debug_schedule(num_runs: i32)
    ensures
        schedule(ModeKind::SceneDebug, num_runs) == seq![
            Action::Dispatch { kernel: Kernel::SceneRender, run: 0 },
            Action::ReadBack { buffer: BufferId::SceneImage },
        ],
{
    assert(schedule(ModeKind::SceneDebug, num_runs) =~= seq![
        Action::Dispatch { kernel: Kernel::SceneRender, run: 0 },
        Action::ReadBack { buffer: BufferId::SceneImage },
    ]);
}

/// Proves that a trace invocation without runs only reads back its two
/// accumulators.
pub proof fn lemma_no_runs_schedule(num_runs: i32)
    requires
        num_runs <= 0,
    ensures
        schedule(ModeKind::Trace, num_runs) == seq![
            Action::ReadBack { buffer: BufferId::DebugImage },
            Action::ReadBack { buffer: BufferId::Impulse },
        ],
{
    assert(schedule(ModeKind::Trace, num_runs) =~= seq![
        Action::ReadBack { buffer: BufferId::DebugImage },
        Action::ReadBack { buffer: BufferId::Impulse },
    ]);
}

} // verus!
