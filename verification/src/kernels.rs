//! The four kernels and how each is bound.
//!
//! A kernel is an entry point of the device program. The host knows its name,
//! its argument list, and which buffers it reads and which it updates; what it
//! computes is the device's business.

use vstd::prelude::*;
use crate::buffers::{BufferId, ModeKind, owned_ids};

verus! {

/// An entry point of the device program.
#[derive(Clone, Copy, Debug, PartialEq, Eq, Structural)]
pub enum Kernel {
    /// Draws the scene of a subscene.
    SceneRender,
    /// Advances every path by one accumulation run.
    Trace,
    /// Adds the current path state to the debug image.
    DebugRender,
    /// Adds the current path state to the impulse response.
    GenImpulseResponse,
}

/// One argument of a kernel, in the form in which the host binds it.
#[derive(Clone, Copy, Debug, PartialEq, Eq, Structural)]
pub enum KernelArg {
    /// The index of the accumulation run.
    RunIndex(i32),
    /// The index of the subscene.
    Subscene(i32),
    /// The number of samples of the impulse response.
    ImpulseLen(u32),
    /// A device buffer.
    Buffer(BufferId),
}

/// The five buffers that hold the state of the paths between runs.
pub open spec fn path_state() -> Seq<BufferId> {
    seq![
        BufferId::MinTarget,
        BufferId::TotalDist,
        BufferId::IntersectPos,
        BufferId::IntersectDir,
        BufferId::ClosestBounce,
    ]
}

/// The path state as kernel arguments.
pub open spec fn path_state_args() -> Seq<KernelArg> {
    path_state().map(|i: int, id: BufferId| KernelArg::Buffer(id))
}

/// The name of a kernel in the device program.
pub open spec fn name_of(kernel: Kernel) -> Seq<char> {
    match kernel {
        Kernel::SceneRender => "scene_render"@,
        Kernel::Trace => "trace"@,
        Kernel::DebugRender => "debug_render"@,
        Kernel::GenImpulseResponse => "gen_impulse_response"@,
    }
}

/// The argument list of a kernel for one dispatch.
pub open spec fn args_of(kernel: Kernel, run: i32, subscene: i32, impulse_len: u32) -> Seq<
    KernelArg,
> {
    match kernel {
        Kernel::SceneRender => seq![
            KernelArg::Subscene(subscene),
            KernelArg::Buffer(BufferId::SceneImage),
        ],
        Kernel::Trace => seq![KernelArg::RunIndex(run), KernelArg::Subscene(subscene)]
            + path_state_args(),
        Kernel::DebugRender => seq![KernelArg::Buffer(BufferId::DebugImage)] + path_state_args(),
        Kernel::GenImpulseResponse => seq![
            KernelArg::Buffer(BufferId::Impulse),
            KernelArg::ImpulseLen(impulse_len),
        ] + path_state_args(),
    }
}

/// Whether a kernel takes the index of the run among its arguments, so that
/// it has to be bound anew for every run.
pub open spec fn takes_run_index(kernel: Kernel) -> bool {
    kernel == Kernel::Trace
}

/// The kernels of a mode, in the order in which they are built: those that
/// are bound once before the first dispatch, then the one that is bound for
/// every run.
pub open spec fn kernels_of(mode: ModeKind) -> Seq<Kernel> {
    match mode {
        ModeKind::SceneDebug => seq![Kernel::SceneRender],
        ModeKind::Trace => seq![Kernel::DebugRender, Kernel::GenImpulseResponse, Kernel::Trace],
    }
}

/// Whether a kernel updates a buffer.
pub open spec fn writes(kernel: Kernel, id: BufferId) -> bool {
    match kernel {
        Kernel::SceneRender => id == BufferId::SceneImage,
        Kernel::Trace => path_state().contains(id),
        Kernel::DebugRender => id == BufferId::DebugImage,
        Kernel::GenImpulseResponse => id == BufferId::Impulse,
    }
}

/// Whether a kernel reads a buffer: all but `scene_render` read the path
/// state, and nothing else.
pub open spec fn reads(kernel: Kernel, id: BufferId) -> bool {
    match kernel {
        Kernel::SceneRender => false,
        _ => path_state().contains(id),
    }
}

/// Whether two kernels clash over a buffer: the later one reads or updates
/// what the earlier one updates, or updates what the earlier one reads.
pub open spec fn clash(earlier: Kernel, later: Kernel, id: BufferId) -> bool {
    ||| writes(earlier, id) && (reads(later, id) || writes(later, id))
    ||| reads(earlier, id) && writes(later, id)
}

/// Whether `later` must not start before `earlier` is complete: the two clash
/// over some buffer.
pub open spec fn conflicts(earlier: Kernel, later: Kernel) -> bool {
    exists|id: BufferId| clash(earlier, later, id)
}

/// Gives the name under which the device program exports a kernel.
pub fn name(kernel: Kernel) -> (s: &'static str)
    ensures
        s@ == name_of(kernel),
{
    match kernel {
        Kernel::SceneRender => "scene_render",
        Kernel::Trace => "trace",
        Kernel::DebugRender => "debug_render",
        Kernel::GenImpulseResponse => "gen_impulse_response",
    }
}

/// Tells whether a buffer belongs to the path state.
pub fn is_path_state(id: BufferId) -> (b: bool)
    ensures
        b == path_state().contains(id),
{
    let b = match id {
        BufferId::MinTarget | BufferId::TotalDist | BufferId::IntersectPos
        | BufferId::IntersectDir | BufferId::ClosestBounce => true,
        _ => false,
    };
    proof {
        if b {
            let k: int = match id {
                BufferId::MinTarget => 0,
                BufferId::TotalDist => 1,
                BufferId::IntersectPos => 2,
                BufferId::IntersectDir => 3,
                _ => 4,
            };
            assert(path_state()[k] == id);
        }
    }
    b
}

/// Tells whether a kernel updates a buffer.
pub fn updates(kernel: Kernel, id: BufferId) -> (b: bool)
    ensures
        b == writes(kernel, id),
{
    match kernel {
        Kernel::SceneRender => id == BufferId::SceneImage,
        Kernel::Trace => is_path_state(id),
        Kernel::DebugRender => id == BufferId::DebugImage,
        Kernel::GenImpulseResponse => id == BufferId::Impulse,
    }
}

/// Tells whether a kernel reads a buffer.
pub fn consumes(kernel: Kernel, id: BufferId) -> (b: bool)
    ensures
        b == reads(kernel, id),
{
    match kernel {
        Kernel::SceneRender => false,
        _ => is_path_state(id),
    }
}

/// Appends the five path-state buffers to an argument list.
fn push_path_state(args: &mut Vec<KernelArg>)
    ensures
        final(args)@ == old(args)@ + path_state_args(),
{
    args.push(KernelArg::Buffer(BufferId::MinTarget));
    args.push(KernelArg::Buffer(BufferId::TotalDist));
    args.push(KernelArg::Buffer(BufferId::IntersectPos));
    args.push(KernelArg::Buffer(BufferId::IntersectDir));
    args.push(KernelArg::Buffer(BufferId::ClosestBounce));
    assert(args@ =~= old(args)@ + path_state_args());
}

/// Builds the argument list of a kernel for one dispatch. A kernel takes only
/// those of `run`, `subscene` and `impulse_len` that its signature names.
pub fn bind(kernel: Kernel, run: i32, subscene: i32, impulse_len: u32) -> (args: Vec<KernelArg>)
    ensures
        args@ == args_of(kernel, run, subscene, impulse_len),
{
    let mut args: Vec<KernelArg> = Vec::new();
    match kernel {
        Kernel::SceneRender => {
            args.push(KernelArg::Subscene(subscene));
            args.push(KernelArg::Buffer(BufferId::SceneImage));
        },
        Kernel::Trace => {
            args.push(KernelArg::RunIndex(run));
            args.push(KernelArg::Subscene(subscene));
            assert(args@ =~= seq![KernelArg::RunIndex(run), KernelArg::Subscene(subscene)]);
            push_path_state(&mut args);
        },
        Kernel::DebugRender => {
            args.push(KernelArg::Buffer(BufferId::DebugImage));
            assert(args@ =~= seq![KernelArg::Buffer(BufferId::DebugImage)]);
            push_path_state(&mut args);
        },
        Kernel::GenImpulseResponse => {
            args.push(KernelArg::Buffer(BufferId::Impulse));
            args.push(KernelArg::ImpulseLen(impulse_len));
            assert(args@ =~= seq![
                KernelArg::Buffer(BufferId::Impulse),
                KernelArg::ImpulseLen(impulse_len),
            ]);
            push_path_state(&mut args);
        },
    }
    assert(args@ =~= args_of(kernel, run, subscene, impulse_len));
    args
}

/// Tells whether a kernel has to be bound anew for every run. Every other
/// kernel is bound once, before anything is dispatched.
pub fn bound_per_run(kernel: Kernel) -> (b: bool)
    ensures
        b == takes_run_index(kernel),
{
    match kernel {
        Kernel::Trace => true,
        _ => false,
    }
}

/// Lists the kernels to build for a mode.
pub fn kernels(mode: ModeKind) -> (ks: Vec<Kernel>)
    ensures
        ks@ == kernels_of(mode),
{
    let mut ks: Vec<Kernel> = Vec::new();
    match mode {
        ModeKind::SceneDebug => {
            ks.push(Kernel::SceneRender);
        },
        ModeKind::Trace => {
            ks.push(Kernel::DebugRender);
            ks.push(Kernel::GenImpulseResponse);
            ks.push(Kernel::Trace);
        },
    }
    assert(ks@ =~= kernels_of(mode));
    ks
}

/// Tells whether `later` has to wait until `earlier` is complete.
pub fn must_wait(earlier: Kernel, later: Kernel) -> (b: bool)
    ensures
        b == conflicts(earlier, later),
{
    let b = match (earlier, later) {
        (Kernel::SceneRender, Kernel::SceneRender) => true,
        (Kernel::SceneRender, _) => false,
        (_, Kernel::SceneRender) => false,
        (Kernel::DebugRender, Kernel::GenImpulseResponse) => false,
        (Kernel::GenImpulseResponse, Kernel::DebugRender) => false,
        _ => true,
    };
    proof {
        lemma_path_state_members();
        if b {
            let id = match (earlier, later) {
                (Kernel::SceneRender, _) => BufferId::SceneImage,
                (Kernel::DebugRender, Kernel::DebugRender) => BufferId::DebugImage,
                (Kernel::GenImpulseResponse, Kernel::GenImpulseResponse) => BufferId::Impulse,
                _ => BufferId::MinTarget,
            };
            assert(clash(earlier, later, id));
            assert(conflicts(earlier, later));
        } else {
            assert(!conflicts(earlier, later));
        }
    }
    b
}

/// Proves which buffers make up the path state.
pub proof fn lemma_path_state_members()
    ensures
        forall|id: BufferId|
            #[trigger] path_state().contains(id) <==> (id == BufferId::MinTarget || id
                == BufferId::TotalDist || id == BufferId::IntersectPos || id
                == BufferId::IntersectDir || id == BufferId::ClosestBounce),
{
    let ps = path_state();
    assert(ps[0] == BufferId::MinTarget);
    assert(ps[1] == BufferId::TotalDist);
    assert(ps[2] == BufferId::IntersectPos);
    assert(ps[3] == BufferId::IntersectDir);
    assert(ps[4] == BufferId::ClosestBounce);
}

/// Proves that the two consumers of the path state may run side by side, and
/// that each of them depends on `trace`: they update different buffers, neither
/// updates what the other reads, and both read what `trace` updates.
pub proof fn lemma_consumers_independent()
    ensures
        !conflicts(Kernel::DebugRender, Kernel::GenImpulseResponse),
        !conflicts(Kernel::GenImpulseResponse, Kernel::DebugRender),
        conflicts(Kernel::Trace, Kernel::DebugRender),
        conflicts(Kernel::Trace, Kernel::GenImpulseResponse),
{
    lemma_path_state_members();
    assert(clash(Kernel::Trace, Kernel::DebugRender, BufferId::MinTarget));
    assert(clash(Kernel::Trace, Kernel::GenImpulseResponse, BufferId::MinTarget));
}

/// Proves that every buffer a kernel is bound to belongs to the mode that
/// builds the kernel, and that a kernel touches no buffer it is not bound to.
pub proof fn lemma_bindings_owned(mode: ModeKind, k: int, run: i32, subscene: i32, impulse_len: u32)
    requires
        0 <= k < kernels_of(mode).len(),
    ensures
        forall|id: BufferId|
            #[trigger] args_of(kernels_of(mode)[k], run, subscene, impulse_len).contains(
                KernelArg::Buffer(id),
            ) ==> owned_ids(mode).contains(id),
        forall|id: BufferId|
            reads(kernels_of(mode)[k], id) || writes(kernels_of(mode)[k], id) ==> #[trigger] args_of(
                kernels_of(mode)[k],
                run,
                subscene,
                impulse_len,
            ).contains(KernelArg::Buffer(id)),
{
    lemma_path_state_members();
    let kernel = kernels_of(mode)[k];
    let args = args_of(kernel, run, subscene, impulse_len);
    let ids = owned_ids(mode);
    let psa = path_state_args();
    assert(psa.len() == 5);
    assert(psa[0] == KernelArg::Buffer(BufferId::MinTarget));
    assert(psa[1] == KernelArg::Buffer(BufferId::TotalDist));
    assert(psa[2] == KernelArg::Buffer(BufferId::IntersectPos));
    assert(psa[3] == KernelArg::Buffer(BufferId::IntersectDir));
    assert(psa[4] == KernelArg::Buffer(BufferId::ClosestBounce));
    match mode {
        ModeKind::SceneDebug => {
            assert(ids[0] == BufferId::SceneImage);
            assert(args[1] == KernelArg::Buffer(BufferId::SceneImage));
        },
        ModeKind::Trace => {
            assert(ids[0] == BufferId::MinTarget);
            assert(ids[1] == BufferId::TotalDist);
            assert(ids[2] == BufferId::IntersectPos);
            assert(ids[3] == BufferId::IntersectDir);
            assert(ids[4] == BufferId::ClosestBounce);
            assert(ids[5] == BufferId::DebugImage);
            assert(ids[6] == BufferId::Impulse);
            let base: int = args.len() - 5;
            assert(args[base] == psa[0]);
            assert(args[base + 1] == psa[1]);
            assert(args[base + 2] == psa[2]);
            assert(args[base + 3] == psa[3]);
            assert(args[base + 4] == psa[4]);
            assert(kernel == Kernel::DebugRender ==> args[0] == KernelArg::Buffer(
                BufferId::DebugImage,
            ));
            assert(kernel == Kernel::GenImpulseResponse ==> args[0] == KernelArg::Buffer(
                BufferId::Impulse,
            ));
        },
    }
}

/// Proves what binding once rests on: a kernel that does not take the run
/// index has the same arguments in every run, and the kernel that takes it has
/// it as its first argument.
pub proof fn lemma_run_index_binding(
    kernel: Kernel,
    first: i32,
    second: i32,
    subscene: i32,
    impulse_len: u32,
)
    ensures
        !takes_run_index(kernel) ==> args_of(kernel, first, subscene, impulse_len) == args_of(
            kernel,
            second,
            subscene,
            impulse_len,
        ),
        takes_run_index(kernel) ==> args_of(kernel, first, subscene, impulse_len)[0]
            == KernelArg::RunIndex(first),
{
}

} // verus!
