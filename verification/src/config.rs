//! The scene configuration and the options of one pipeline invocation.

use vstd::prelude::*;
use crate::buffers::ModeKind;

verus! {

/// The grid dimension used when none is asked for.
pub const DEFAULT_GRID_SIZE: u32 = 1024;

/// Why a scene configuration is refused.
#[derive(Clone, Copy, Debug, PartialEq, Eq, Structural)]
pub enum ConfigError {
    /// The number of accumulation runs is negative.
    NegativeRuns,
    /// The number of subscenes is negative.
    NegativeSubscenes,
    /// The impulse response has no sample.
    EmptyImpulse,
}

/// The scene-wide settings, loaded once and read for every subscene.
#[derive(Clone, Copy, Debug, PartialEq, Eq, Structural)]
pub struct SceneConfig {
    pub num_targets: u16,
    pub num_runs: i32,
    pub num_subscenes: i32,
    pub impulse_len: u32,
}

/// The error that `SceneConfig::new` reports for the given fields, if any.
/// The fields are examined in the order runs, subscenes, impulse length.
pub open spec fn config_defect(num_runs: i32, num_subscenes: i32, impulse_len: u32) -> Option<
    ConfigError,
> {
    if num_runs < 0 {
        Some(ConfigError::NegativeRuns)
    } else if num_subscenes < 0 {
        Some(ConfigError::NegativeSubscenes)
    } else if impulse_len == 0 {
        Some(ConfigError::EmptyImpulse)
    } else {
        None
    }
}

impl SceneConfig {
    /// The invariant of a configuration: no negative count, and at least one
    /// impulse sample.
    pub open spec fn valid(&self) -> bool {
        &&& self.num_runs >= 0
        &&& self.num_subscenes >= 0
        &&& self.impulse_len >= 1
    }

    /// Builds a configuration, refusing fields that break the invariant.
    pub fn new(num_targets: u16, num_runs: i32, num_subscenes: i32, impulse_len: u32) -> (r: Result<
        SceneConfig,
        ConfigError,
    >)
        ensures
            match config_defect(num_runs, num_subscenes, impulse_len) {
                Some(e) => r == Err::<SceneConfig, ConfigError>(e),
                None => r == Ok::<SceneConfig, ConfigError>(
                    (SceneConfig { num_targets, num_runs, num_subscenes, impulse_len }),
                ),
            },
            r is Ok ==> r->Ok_0.valid(),
    {
        if num_runs < 0 {
            Err(ConfigError::NegativeRuns)
        } else if num_subscenes < 0 {
            Err(ConfigError::NegativeSubscenes)
        } else if impulse_len == 0 {
            Err(ConfigError::EmptyImpulse)
        } else {
            Ok(SceneConfig { num_targets, num_runs, num_subscenes, impulse_len })
        }
    }

    /// Tells whether the configuration meets its invariant.
    pub fn is_valid(&self) -> (b: bool)
        ensures
            b == self.valid(),
    {
        self.num_runs >= 0 && self.num_subscenes >= 0 && self.impulse_len >= 1
    }
}

/// Proves that a configuration has a defect exactly when it is not valid.
pub proof fn lemma_defect_iff_invalid(c: SceneConfig)
    ensures
        config_defect(c.num_runs, c.num_subscenes, c.impulse_len) is None <==> c.valid(),
{
}

/// What a trace invocation needs beyond the grid and the subscene.
#[derive(Clone, Debug)]
pub struct TraceOptions {
    /// The number of samples of the impulse response.
    pub impulse_len: u32,
    /// The number of channels of the audio file.
    pub channels: u16,
    /// Where the audio file goes.
    pub out_file: String,
    /// The number of accumulation runs.
    pub num_runs: i32,
}

/// The pipeline that an invocation runs, with what it needs.
#[derive(Clone, Debug)]
pub enum Mode {
    SceneDebug,
    Trace(TraceOptions),
}

/// The parameters of one pipeline invocation. They are made for that
/// invocation and never change.
#[derive(Clone, Debug)]
pub struct Options {
    pub mode: Mode,
    pub width: u32,
    pub height: u32,
    pub subscene: i32,
}

/// The mathematical value of `TraceOptions`.
pub struct TraceOptionsView {
    pub impulse_len: u32,
    pub channels: u16,
    pub out_file: Seq<char>,
    pub num_runs: i32,
}

/// The mathematical value of `Mode`.
pub enum ModeView {
    SceneDebug,
    Trace(TraceOptionsView),
}

/// The mathematical value of `Options`.
pub struct OptionsView {
    pub mode: ModeView,
    pub width: u32,
    pub height: u32,
    pub subscene: i32,
}

impl View for TraceOptions {
    type V = TraceOptionsView;

    open spec fn view(&self) -> TraceOptionsView {
        TraceOptionsView {
            impulse_len: self.impulse_len,
            channels: self.channels,
            out_file: self.out_file@,
            num_runs: self.num_runs,
        }
    }
}

impl View for Mode {
    type V = ModeView;

    open spec fn view(&self) -> ModeView {
        match self {
            Mode::SceneDebug => ModeView::SceneDebug,
            Mode::Trace(t) => ModeView::Trace(t@),
        }
    }
}

impl View for Options {
    type V = OptionsView;

    open spec fn view(&self) -> OptionsView {
        OptionsView {
            mode: self.mode@,
            width: self.width,
            height: self.height,
            subscene: self.subscene,
        }
    }
}

impl ModeView {
    /// Which pipeline the mode runs.
    pub open spec fn kind(&self) -> ModeKind {
        match self {
            ModeView::SceneDebug => ModeKind::SceneDebug,
            ModeView::Trace(_) => ModeKind::Trace,
        }
    }
}

impl Mode {
    /// Tells which pipeline the mode runs.
    pub fn kind(&self) -> (k: ModeKind)
        ensures
            k == self@.kind(),
    {
        match self {
            Mode::SceneDebug => ModeKind::SceneDebug,
            Mode::Trace(_) => ModeKind::Trace,
        }
    }
}

} // verus!
