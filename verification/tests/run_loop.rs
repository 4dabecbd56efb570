use path_marcher::buffers::{BufferId, ModeKind};
use path_marcher::kernels::Kernel;
use path_marcher::run_loop::{actions, Action, Phase, RunLoop};

fn dispatch(kernel: Kernel, run: i32) -> Action {
    Action::Dispatch { kernel, run }
}

#[test]
fn scene_debug_dispatches_once_and_reads_back() {
    assert_eq!(
        actions(ModeKind::SceneDebug, 5),
        vec![
            dispatch(Kernel::SceneRender, 0),
            Action::ReadBack { buffer: BufferId::SceneImage },
        ]
    );
}

#[test]
fn trace_with_two_runs() {
    assert_eq!(
        actions(ModeKind::Trace, 2),
        vec![
            dispatch(Kernel::Trace, 0),
            Action::Synchronize,
            dispatch(Kernel::DebugRender, 0),
            dispatch(Kernel::GenImpulseResponse, 0),
            dispatch(Kernel::Trace, 1),
            Action::Synchronize,
            dispatch(Kernel::DebugRender, 1),
            dispatch(Kernel::GenImpulseResponse, 1),
            Action::ReadBack { buffer: BufferId::DebugImage },
            Action::ReadBack { buffer: BufferId::Impulse },
        ]
    );
}

#[test]
fn trace_without_runs_only_reads_back() {
    let expected = vec![
        Action::ReadBack { buffer: BufferId::DebugImage },
        Action::ReadBack { buffer: BufferId::Impulse },
    ];
    assert_eq!(actions(ModeKind::Trace, 0), expected);
    assert_eq!(actions(ModeKind::Trace, -4), expected);
}

#[test]
fn schedule_length_is_four_per_run_and_two() {
    assert_eq!(actions(ModeKind::Trace, 1).len(), 6);
    assert_eq!(actions(ModeKind::Trace, 25).len(), 102);
}

#[test]
fn consumers_never_precede_their_trace() {
    // A stand-in for the device: it records what has been enqueued and which
    // runs are known to be complete.
    let mut traced: Vec<i32> = Vec::new();
    let mut complete: Vec<i32> = Vec::new();
    let mut consumed = 0;
    let mut rl = RunLoop::new(ModeKind::Trace, 7);
    loop {
        match rl.next() {
            Action::Dispatch { kernel: Kernel::Trace, run } => traced.push(run),
            Action::Synchronize => complete = traced.clone(),
            Action::Dispatch { kernel, run } => {
                assert!(kernel == Kernel::DebugRender || kernel == Kernel::GenImpulseResponse);
                assert!(complete.contains(&run));
                assert_eq!(complete.last(), Some(&run));
                consumed += 1;
            }
            Action::ReadBack { .. } => assert_eq!(complete.len(), 7),
            Action::Done => break,
        }
    }
    assert_eq!(traced, vec![0, 1, 2, 3, 4, 5, 6]);
    assert_eq!(consumed, 14);
}

#[test]
fn next_walks_the_schedule() {
    let all = actions(ModeKind::Trace, 3);
    let mut rl = RunLoop::new(ModeKind::Trace, 3);
    assert_eq!(rl.steps_taken(), 0);
    assert!(!rl.is_done());
    for (k, expected) in all.iter().enumerate() {
        assert_eq!(rl.steps_taken(), k as u64);
        assert!(!rl.is_done());
        assert_eq!(rl.next(), *expected);
    }
    assert!(rl.is_done());
    assert_eq!(rl.steps_taken(), 14);
}

#[test]
fn done_is_repeated() {
    let mut rl = RunLoop::new(ModeKind::SceneDebug, 0);
    assert_eq!(rl.next(), dispatch(Kernel::SceneRender, 0));
    assert_eq!(rl.steps_taken(), 1);
    assert_eq!(rl.next(), Action::ReadBack { buffer: BufferId::SceneImage });
    assert!(rl.is_done());
    assert_eq!(rl.next(), Action::Done);
    assert_eq!(rl.next(), Action::Done);
    assert_eq!(rl.steps_taken(), 2);
    assert!(rl.is_done());
}

#[test]
fn each_buffer_is_read_back_once() {
    let all = actions(ModeKind::Trace, 4);
    let image = all
        .iter()
        .filter(|a| **a == Action::ReadBack { buffer: BufferId::DebugImage })
        .count();
    let impulse = all
        .iter()
        .filter(|a| **a == Action::ReadBack { buffer: BufferId::Impulse })
        .count();
    assert_eq!(image, 1);
    assert_eq!(impulse, 1);
    let first_read = all.iter().position(|a| matches!(a, Action::ReadBack { .. })).unwrap();
    assert_eq!(first_read, 16);
}

#[test]
fn repeated_schedules_agree() {
    assert_eq!(actions(ModeKind::Trace, 9), actions(ModeKind::Trace, 9));
}

#[test]
fn phases_of_a_debug_invocation() {
    let mut rl = RunLoop::new(ModeKind::SceneDebug, 3);
    assert_eq!(rl.phase(), Phase::Start);
    rl.next();
    assert_eq!(rl.phase(), Phase::Dispatched);
    rl.next();
    assert_eq!(rl.phase(), Phase::ReadBack);
    assert_eq!(rl.next(), Action::Done);
    assert_eq!(rl.phase(), Phase::Done);
    assert_eq!(rl.next(), Action::Done);
    assert_eq!(rl.phase(), Phase::Done);
}

#[test]
fn phases_of_a_trace_invocation() {
    let mut rl = RunLoop::new(ModeKind::Trace, 2);
    let mut seen = vec![rl.phase()];
    while rl.next() != Action::Done {
        seen.push(rl.phase());
    }
    seen.push(rl.phase());
    let r0 = Phase::Run { run: 0 };
    let r1 = Phase::Run { run: 1 };
    assert_eq!(
        seen,
        vec![
            Phase::Start,
            r0,
            r0,
            r0,
            r0,
            r1,
            r1,
            r1,
            r1,
            Phase::ReadBack,
            Phase::ReadBack,
            Phase::Done,
        ]
    );
}

#[test]
fn phases_without_runs() {
    let mut rl = RunLoop::new(ModeKind::Trace, 0);
    assert_eq!(rl.phase(), Phase::Start);
    assert_eq!(rl.next(), Action::ReadBack { buffer: BufferId::DebugImage });
    assert_eq!(rl.phase(), Phase::ReadBack);
    assert_eq!(rl.next(), Action::ReadBack { buffer: BufferId::Impulse });
    assert_eq!(rl.phase(), Phase::ReadBack);
    assert!(rl.is_done());
    assert_eq!(rl.next(), Action::Done);
    assert_eq!(rl.phase(), Phase::Done);
}
