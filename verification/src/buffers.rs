//! The device buffers that one pipeline invocation owns.
//!
//! A buffer is known to the host by its identity, the kind of its elements and
//! its length. The host never looks inside an element: it creates the buffers,
//! hands them to kernels, and reads two of them back.

use vstd::prelude::*;

verus! {

/// Which pipeline an invocation runs.
#[derive(Clone, Copy, Debug, PartialEq, Eq, Structural)]
pub enum ModeKind {
    /// One `scene_render` pass that draws the scene itself.
    SceneDebug,
    /// The accumulating trace pipeline.
    Trace,
}

/// The identity of a device buffer.
#[derive(Clone, Copy, Debug, PartialEq, Eq, Structural)]
pub enum BufferId {
    /// The closest target found so far, per grid cell.
    MinTarget,
    /// The distance travelled so far, per grid cell.
    TotalDist,
    /// The position of the last intersection, per grid cell.
    IntersectPos,
    /// The direction after the last intersection, per grid cell.
    IntersectDir,
    /// The index of the closest bounce, per grid cell.
    ClosestBounce,
    /// The image accumulated by `debug_render`.
    DebugImage,
    /// The impulse response accumulated by `gen_impulse_response`.
    Impulse,
    /// The image drawn by `scene_render`.
    SceneImage,
}

/// What one element of a buffer is.
#[derive(Clone, Copy, Debug, PartialEq, Eq, Structural)]
pub enum ElemKind {
    /// A target record: an axis, a distance and an identifier.
    Target,
    /// One real number.
    Scalar,
    /// A vector of three real numbers.
    Triple,
    /// One signed 32-bit integer.
    Index,
}

/// What the host knows of one device buffer.
#[derive(Clone, Copy, Debug, PartialEq, Eq, Structural)]
pub struct BufferSpec {
    pub id: BufferId,
    pub elem: ElemKind,
    pub len: u64,
}

/// Why a buffer that was read back is refused.
#[derive(Clone, Copy, Debug, PartialEq, Eq, Structural)]
pub enum BufferError {
    /// The invocation's mode owns no such buffer.
    NotOwned { id: BufferId },
    /// The host copy does not have the length the buffer was created with.
    LengthMismatch { id: BufferId, expected: u64, found: u64 },
}

/// The number of cells of a grid, one per work-item.
pub open spec fn grid_cells(width: u32, height: u32) -> nat {
    (width as nat) * (height as nat)
}

/// The element kind of each buffer.
pub open spec fn elem_of(id: BufferId) -> ElemKind {
    match id {
        BufferId::MinTarget => ElemKind::Target,
        BufferId::TotalDist => ElemKind::Scalar,
        BufferId::IntersectPos => ElemKind::Triple,
        BufferId::IntersectDir => ElemKind::Triple,
        BufferId::ClosestBounce => ElemKind::Index,
        BufferId::DebugImage => ElemKind::Triple,
        BufferId::Impulse => ElemKind::Scalar,
        BufferId::SceneImage => ElemKind::Triple,
    }
}

/// The length of each buffer: the impulse accumulator has one element per
/// impulse sample, every other buffer one per grid cell.
pub open spec fn len_of(id: BufferId, cells: nat, impulse_len: u32) -> nat {
    match id {
        BufferId::Impulse => impulse_len as nat,
        _ => cells,
    }
}

/// The buffers of a mode, in the order in which they are created.
pub open spec fn owned_ids(mode: ModeKind) -> Seq<BufferId> {
    match mode {
        ModeKind::SceneDebug => seq![BufferId::SceneImage],
        ModeKind::Trace => seq![
            BufferId::MinTarget,
            BufferId::TotalDist,
            BufferId::IntersectPos,
            BufferId::IntersectDir,
            BufferId::ClosestBounce,
            BufferId::DebugImage,
            BufferId::Impulse,
        ],
    }
}

/// The buffers that the host reads back when the dispatches are done, in the
/// order in which it reads them.
pub open spec fn read_back_ids(mode: ModeKind) -> Seq<BufferId> {
    match mode {
        ModeKind::SceneDebug => seq![BufferId::SceneImage],
        ModeKind::Trace => seq![BufferId::DebugImage, BufferId::Impulse],
    }
}

/// The description of one buffer of an invocation.
pub open spec fn spec_of(id: BufferId, cells: nat, impulse_len: u32) -> BufferSpec {
    BufferSpec { id, elem: elem_of(id), len: len_of(id, cells, impulse_len) as u64 }
}

/// The buffer set of an invocation: one description per owned buffer.
pub open spec fn buffer_set(mode: ModeKind, width: u32, height: u32, impulse_len: u32) -> Seq<
    BufferSpec,
> {
    owned_ids(mode).map(|i: int, id: BufferId| spec_of(id, grid_cells(width, height), impulse_len))
}

/// Proves that the number of cells of any grid fits in 64 bits.
pub proof fn lemma_grid_cells_bound(width: u32, height: u32)
    ensures
        grid_cells(width, height) <= 0xFFFF_FFFE_0000_0001,
{
    assert((width as nat) * (height as nat) <= 0xFFFF_FFFFnat * 0xFFFF_FFFFnat) by (nonlinear_arith)
        requires
            width <= 0xFFFF_FFFF,
            height <= 0xFFFF_FFFF,
    ;
}

/// Computes the number of cells of a grid.
pub fn grid_size(width: u32, height: u32) -> (cells: u64)
    ensures
        cells == grid_cells(width, height),
{
    proof {
        lemma_grid_cells_bound(width, height);
    }
    let w: u64 = width as u64;
    let h: u64 = height as u64;
    w * h
}

/// Gives the element kind of a buffer.
pub fn elem_kind(id: BufferId) -> (k: ElemKind)
    ensures
        k == elem_of(id),
{
    match id {
        BufferId::MinTarget => ElemKind::Target,
        BufferId::TotalDist | BufferId::Impulse => ElemKind::Scalar,
        BufferId::ClosestBounce => ElemKind::Index,
        BufferId::IntersectPos | BufferId::IntersectDir | BufferId::DebugImage
        | BufferId::SceneImage => ElemKind::Triple,
    }
}

/// Describes one buffer of an invocation on the given grid.
pub fn describe(id: BufferId, width: u32, height: u32, impulse_len: u32) -> (b: BufferSpec)
    ensures
        b == spec_of(id, grid_cells(width, height), impulse_len),
{
    let len: u64 = match id {
        BufferId::Impulse => impulse_len as u64,
        _ => grid_size(width, height),
    };
    BufferSpec { id, elem: elem_kind(id), len }
}

/// Tells whether a mode owns a buffer.
pub fn owns(mode: ModeKind, id: BufferId) -> (b: bool)
    ensures
        b == owned_ids(mode).contains(id),
{
    let b = match mode {
        ModeKind::SceneDebug => match id {
            BufferId::SceneImage => true,
            _ => false,
        },
        ModeKind::Trace => match id {
            BufferId::SceneImage => false,
            _ => true,
        },
    };
    proof {
        let ids = owned_ids(mode);
        if b {
            let k: int = match id {
                BufferId::MinTarget => 0,
                BufferId::TotalDist => 1,
                BufferId::IntersectPos => 2,
                BufferId::IntersectDir => 3,
                BufferId::ClosestBounce => 4,
                BufferId::DebugImage => 5,
                BufferId::Impulse => 6,
                BufferId::SceneImage => 0,
            };
            assert(ids[k] == id);
        }
    }
    b
}

/// Lists the buffers to create for an invocation, in creation order.
pub fn allocate(mode: ModeKind, width: u32, height: u32, impulse_len: u32) -> (set: Vec<
    BufferSpec,
>)
    ensures
        set@ == buffer_set(mode, width, height, impulse_len),
{
    let mut set: Vec<BufferSpec> = Vec::new();
    match mode {
        ModeKind::SceneDebug => {
            set.push(describe(BufferId::SceneImage, width, height, impulse_len));
        },
        ModeKind::Trace => {
            set.push(describe(BufferId::MinTarget, width, height, impulse_len));
            set.push(describe(BufferId::TotalDist, width, height, impulse_len));
            set.push(describe(BufferId::IntersectPos, width, height, impulse_len));
            set.push(describe(BufferId::IntersectDir, width, height, impulse_len));
            set.push(describe(BufferId::ClosestBounce, width, height, impulse_len));
            set.push(describe(BufferId::DebugImage, width, height, impulse_len));
            set.push(describe(BufferId::Impulse, width, height, impulse_len));
        },
    }
    assert(set@ =~= buffer_set(mode, width, height, impulse_len));
    set
}

/// The verdict on a host copy of `found` elements read back from buffer `id`.
pub open spec fn read_back_verdict(
    mode: ModeKind,
    id: BufferId,
    width: u32,
    height: u32,
    impulse_len: u32,
    found: u64,
) -> Result<(), BufferError> {
    let expected = len_of(id, grid_cells(width, height), impulse_len) as u64;
    if !owned_ids(mode).contains(id) {
        Err(BufferError::NotOwned { id })
    } else if found != expected {
        Err(BufferError::LengthMismatch { id, expected, found })
    } else {
        Ok(())
    }
}

/// Checks a host copy against the buffer it was read from: the copy must have
/// exactly the length the buffer was created with.
pub fn check_read_back(
    mode: ModeKind,
    id: BufferId,
    width: u32,
    height: u32,
    impulse_len: u32,
    found: u64,
) -> (r: Result<(), BufferError>)
    ensures
        r == read_back_verdict(mode, id, width, height, impulse_len, found),
{
    if !owns(mode, id) {
        return Err(BufferError::NotOwned { id });
    }
    let expected = describe(id, width, height, impulse_len).len;
    if found != expected {
        Err(BufferError::LengthMismatch { id, expected, found })
    } else {
        Ok(())
    }
}

/// Proves that every buffer of an invocation is owned once, and that the
/// buffers it reads back are among those it owns.
pub proof fn lemma_buffer_set_sound(mode: ModeKind)
    ensures
        owned_ids(mode).no_duplicates(),
        forall|k: int|
            0 <= k < read_back_ids(mode).len() ==> owned_ids(mode).contains(
                #[trigger] read_back_ids(mode)[k],
            ),
{
    let ids = owned_ids(mode);
    match mode {
        ModeKind::SceneDebug => {
            assert(ids[0] == BufferId::SceneImage);
        },
        ModeKind::Trace => {
            assert(ids[5] == BufferId::DebugImage);
            assert(ids[6] == BufferId::Impulse);
        },
    }
}

} // verus!
