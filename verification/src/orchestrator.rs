//! Which pipeline invocations a scene gives rise to, and which files they
//! leave behind.
//!
//! Every subscene is drawn once in debug mode. Unless only the debug pictures
//! are asked for, it is then traced. The invocations of different subscenes
//! share nothing.

use vstd::prelude::*;
use crate::buffers::{read_back_ids, BufferId, ModeKind};
use crate::config::{Mode, ModeView, Options, OptionsView, SceneConfig, TraceOptions, TraceOptionsView};
use crate::paths::{output_path, path_of, OutputKind};

verus! {

/// One file that an invocation writes.
#[derive(Clone, Debug)]
pub struct OutputFile {
    pub kind: OutputKind,
    pub path: String,
}

/// The mathematical value of `OutputFile`.
pub struct OutputFileView {
    pub kind: OutputKind,
    pub path: Seq<char>,
}

impl View for OutputFile {
    type V = OutputFileView;

    open spec fn view(&self) -> OutputFileView {
        OutputFileView { kind: self.kind, path: self.path@ }
    }
}

/// The number of subscenes that a configuration asks for: a negative count
/// asks for none.
pub open spec fn subscenes_of(config: SceneConfig) -> nat {
    if config.num_subscenes > 0 {
        config.num_subscenes as nat
    } else {
        0
    }
}

/// The debug invocation of a subscene on a square grid.
pub open spec fn scene_invocation(size: u32, subscene: i32) -> OptionsView {
    OptionsView { mode: ModeView::SceneDebug, width: size, height: size, subscene }
}

/// The trace invocation of a subscene on a square grid: it takes the impulse
/// length and the run count from the configuration, writes one audio channel per
/// target, and sends the audio to the impulse path of the subscene.
pub open spec fn trace_invocation(config: SceneConfig, size: u32, subscene: i32) -> OptionsView {
    OptionsView {
        mode: ModeView::Trace(
            TraceOptionsView {
                impulse_len: config.impulse_len,
                channels: config.num_targets,
                out_file: path_of(OutputKind::ImpulseAudio, subscene),
                num_runs: config.num_runs,
            },
        ),
        width: size,
        height: size,
        subscene,
    }
}

/// The number of invocations of a scene: one per subscene where only the
/// debug pictures are asked for, two otherwise.
pub open spec fn invocation_count(config: SceneConfig, debug_only: bool) -> nat {
    if debug_only {
        subscenes_of(config)
    } else {
        2 * subscenes_of(config)
    }
}

/// The invocation at position `k`: the subscenes follow one another, and
/// within a subscene the debug invocation comes before the trace invocation.
pub open spec fn invocation_at(config: SceneConfig, debug_only: bool, size: u32, k: int) -> OptionsView {
    if debug_only {
        scene_invocation(size, k as i32)
    } else if k % 2 == 0 {
        scene_invocation(size, (k / 2) as i32)
    } else {
        trace_invocation(config, size, (k / 2) as i32)
    }
}

/// Every invocation of a scene, in order.
pub open spec fn invocations(config: SceneConfig, debug_only: bool, size: u32) -> Seq<OptionsView> {
    Seq::new(
        invocation_count(config, debug_only),
        |k: int| invocation_at(config, debug_only, size, k),
    )
}

/// The files that an invocation writes, in order: a debug invocation writes
/// the scene image; a trace invocation writes the debug image and then the
/// audio file, the latter where its options say.
pub open spec fn outputs_of(options: OptionsView) -> Seq<OutputFileView> {
    match options.mode {
        ModeView::SceneDebug => seq![
            OutputFileView {
                kind: OutputKind::SceneImage,
                path: path_of(OutputKind::SceneImage, options.subscene),
            },
        ],
        ModeView::Trace(t) => seq![
            OutputFileView {
                kind: OutputKind::DebugImage,
                path: path_of(OutputKind::DebugImage, options.subscene),
            },
            OutputFileView { kind: OutputKind::ImpulseAudio, path: t.out_file },
        ],
    }
}

/// The kind of file that a buffer is written to once it is read back; a
/// buffer that is never read back feeds none.
pub open spec fn output_of(id: BufferId) -> Option<OutputKind> {
    match id {
        BufferId::SceneImage => Some(OutputKind::SceneImage),
        BufferId::DebugImage => Some(OutputKind::DebugImage),
        BufferId::Impulse => Some(OutputKind::ImpulseAudio),
        _ => None,
    }
}

/// The number of files of a kind among some outputs.
pub open spec fn files_of_kind(files: Seq<OutputFileView>, kind: OutputKind) -> nat
    decreases files.len(),
{
    if files.len() == 0 {
        0
    } else {
        files_of_kind(files.drop_last(), kind) + if files.last().kind == kind {
            1nat
        } else {
            0nat
        }
    }
}

/// The number of files of a kind that a sequence of invocations writes.
pub open spec fn count_outputs(plan: Seq<OptionsView>, kind: OutputKind) -> nat
    decreases plan.len(),
{
    if plan.len() == 0 {
        0
    } else {
        count_outputs(plan.drop_last(), kind) + files_of_kind(outputs_of(plan.last()), kind)
    }
}

/// Builds the debug invocation of a subscene.
pub fn scene_options(size: u32, subscene: i32) -> (options: Options)
    ensures
        options@ == scene_invocation(size, subscene),
{
    Options { mode: Mode::SceneDebug, width: size, height: size, subscene }
}

/// Builds the trace invocation of a subscene.
pub fn trace_options(config: &SceneConfig, size: u32, subscene: i32) -> (options: Options)
    ensures
        options@ == trace_invocation(*config, size, subscene),
{
    Options {
        mode: Mode::Trace(
            TraceOptions {
                impulse_len: config.impulse_len,
                channels: config.num_targets,
                out_file: output_path(OutputKind::ImpulseAudio, subscene),
                num_runs: config.num_runs,
            },
        ),
        width: size,
        height: size,
        subscene,
    }
}

/// Lists the invocations of a scene, in the order in which they are to run.
pub fn plan(config: &SceneConfig, debug_only: bool, size: u32) -> (list: Vec<Options>)
    ensures
        list@.len() == invocations(*config, debug_only, size).len(),
        forall|k: int|
            0 <= k < list@.len() ==> (#[trigger] list@[k])@ == invocations(
                *config,
                debug_only,
                size,
            )[k],
{
    let mut list: Vec<Options> = Vec::new();
    let mut subscene: i32 = 0;
    while subscene < config.num_subscenes
        invariant
            0 <= subscene,
            subscene <= subscenes_of(*config),
            list@.len() == if debug_only {
                subscene as int
            } else {
                2 * subscene
            },
            forall|k: int|
                0 <= k < list@.len() ==> (#[trigger] list@[k])@ == invocation_at(
                    *config,
                    debug_only,
                    size,
                    k,
                ),
        decreases config.num_subscenes - subscene,
    {
        list.push(scene_options(size, subscene));
        if !debug_only {
            list.push(trace_options(config, size, subscene));
        }
        subscene = subscene + 1;
    }
    list
}

/// Tells which kind of file a buffer is written to once it is read back.
pub fn output_kind(id: BufferId) -> (k: Option<OutputKind>)
    ensures
        k == output_of(id),
{
    match id {
        BufferId::SceneImage => Some(OutputKind::SceneImage),
        BufferId::DebugImage => Some(OutputKind::DebugImage),
        BufferId::Impulse => Some(OutputKind::ImpulseAudio),
        _ => None,
    }
}

/// Lists the files that an invocation writes.
pub fn outputs(options: &Options) -> (files: Vec<OutputFile>)
    ensures
        files@.len() == outputs_of(options@).len(),
        forall|k: int|
            0 <= k < files@.len() ==> (#[trigger] files@[k])@ == outputs_of(options@)[k],
{
    let mut files: Vec<OutputFile> = Vec::new();
    match &options.mode {
        Mode::SceneDebug => {
            files.push(
                OutputFile {
                    kind: OutputKind::SceneImage,
                    path: output_path(OutputKind::SceneImage, options.subscene),
                },
            );
        },
        Mode::Trace(t) => {
            files.push(
                OutputFile {
                    kind: OutputKind::DebugImage,
                    path: output_path(OutputKind::DebugImage, options.subscene),
                },
            );
            files.push(OutputFile { kind: OutputKind::ImpulseAudio, path: t.out_file.clone() });
        },
    }
    files
}

/// Proves what one invocation writes: a debug invocation one scene image and
/// nothing else, a trace invocation one debug image and one audio file.
pub proof fn lemma_files_per_invocation(options: OptionsView, kind: OutputKind)
    ensures
        files_of_kind(outputs_of(options), kind) == match options.mode {
            ModeView::SceneDebug => if kind == OutputKind::SceneImage {
                1nat
            } else {
                0nat
            },
            ModeView::Trace(_) => if kind == OutputKind::SceneImage {
                0nat
            } else {
                1nat
            },
        },
{
    reveal_with_fuel(files_of_kind, 3);
    let files = outputs_of(options);
    match options.mode {
        ModeView::SceneDebug => {
            assert(files.drop_last().len() == 0);
        },
        ModeView::Trace(t) => {
            assert(files.drop_last().len() == 1);
            assert(files.drop_last().last() == files[0]);
            assert(files.drop_last().drop_last().len() == 0);
        },
    }
}

/// Proves how many files of a kind the first `k` invocations of a scene write.
proof fn lemma_count_prefix(
    config: SceneConfig,
    debug_only: bool,
    size: u32,
    kind: OutputKind,
    k: nat,
)
    requires
        k <= invocation_count(config, debug_only),
    ensures
        count_outputs(invocations(config, debug_only, size).take(k as int), kind) == if kind
            == OutputKind::SceneImage {
            if debug_only {
                k
            } else {
                (k + 1) / 2
            }
        } else {
            if debug_only {
                0
            } else {
                k / 2
            }
        },
    decreases k,
{
    let all = invocations(config, debug_only, size);
    let prefix = all.take(k as int);
    if k > 0 {
        lemma_count_prefix(config, debug_only, size, kind, (k - 1) as nat);
        assert(prefix.drop_last() =~= all.take(k - 1));
        assert(prefix.last() == invocation_at(config, debug_only, size, k - 1));
        lemma_files_per_invocation(prefix.last(), kind);
    }
}

/// Proves how many files a scene leaves behind: one scene image per subscene,
/// and one debug image and one audio file per subscene unless only the debug
/// pictures are asked for, in which case there is neither.
pub proof fn lemma_output_counts(config: SceneConfig, debug_only: bool, size: u32)
    ensures
        count_outputs(invocations(config, debug_only, size), OutputKind::SceneImage)
            == subscenes_of(config),
        count_outputs(invocations(config, debug_only, size), OutputKind::DebugImage)
            == if debug_only {
            0
        } else {
            subscenes_of(config)
        },
        count_outputs(invocations(config, debug_only, size), OutputKind::ImpulseAudio)
            == if debug_only {
            0
        } else {
            subscenes_of(config)
        },
{
    let all = invocations(config, debug_only, size);
    let n = invocation_count(config, debug_only);
    assert(all.take(n as int) =~= all);
    lemma_count_prefix(config, debug_only, size, OutputKind::SceneImage, n);
    lemma_count_prefix(config, debug_only, size, OutputKind::DebugImage, n);
    lemma_count_prefix(config, debug_only, size, OutputKind::ImpulseAudio, n);
}

/// Proves that the invocations of a subscene depend on nothing but the
/// configuration, the grid and the subscene's own index, and that every
/// subscene below the configured count is drawn, in order.
pub proof fn lemma_subscene_invocations(
    config: SceneConfig,
    debug_only: bool,
    size: u32,
    subscene: i32,
)
    requires
        0 <= subscene < config.num_subscenes,
    ensures
        debug_only ==> invocations(config, debug_only, size)[subscene as int] == scene_invocation(
            size,
            subscene,
        ),
        !debug_only ==> invocations(config, debug_only, size)[2 * subscene] == scene_invocation(
            size,
            subscene,
        ) && invocations(config, debug_only, size)[2 * subscene + 1] == trace_invocation(
            config,
            size,
            subscene,
        ),
{
}

/// Proves that the read-backs of an invocation and its files go together: it
/// writes as many files as it reads buffers back, and the buffer read back at
/// position `k` feeds the file at position `k`.
pub proof fn lemma_read_backs_feed_outputs(options: OptionsView, k: int)
    requires
        0 <= k < read_back_ids(options.mode.kind()).len(),
    ensures
        outputs_of(options).len() == read_back_ids(options.mode.kind()).len(),
        output_of(read_back_ids(options.mode.kind())[k]) == Some(outputs_of(options)[k].kind),
{
}

/// Proves that exactly the buffers that some mode reads back feed a file.
pub proof fn lemma_only_read_backs_feed(id: BufferId)
    ensures
        output_of(id) is Some <==> (read_back_ids(ModeKind::SceneDebug).contains(id)
            || read_back_ids(ModeKind::Trace).contains(id)),
{
    let debug = read_back_ids(ModeKind::SceneDebug);
    let trace = read_back_ids(ModeKind::Trace);
    assert(debug[0] == BufferId::SceneImage);
    assert(trace[0] == BufferId::DebugImage);
    assert(trace[1] == BufferId::Impulse);
}

} // verus!
