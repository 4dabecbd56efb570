use path_marcher::buffers::{
    allocate, check_read_back, describe, elem_kind, grid_size, owns, BufferError, BufferId,
    BufferSpec, ElemKind, ModeKind,
};

#[test]
fn grid_size_is_the_product() {
    assert_eq!(grid_size(1024, 1024), 1_048_576);
    assert_eq!(grid_size(3, 5), 15);
    assert_eq!(grid_size(0, 7), 0);
    assert_eq!(grid_size(u32::MAX, u32::MAX), 0xFFFF_FFFE_0000_0001);
}

#[test]
fn trace_mode_owns_seven_buffers() {
    let set = allocate(ModeKind::Trace, 4, 4, 100);
    let expected = vec![
        BufferSpec { id: BufferId::MinTarget, elem: ElemKind::Target, len: 16 },
        BufferSpec { id: BufferId::TotalDist, elem: ElemKind::Scalar, len: 16 },
        BufferSpec { id: BufferId::IntersectPos, elem: ElemKind::Triple, len: 16 },
        BufferSpec { id: BufferId::IntersectDir, elem: ElemKind::Triple, len: 16 },
        BufferSpec { id: BufferId::ClosestBounce, elem: ElemKind::Index, len: 16 },
        BufferSpec { id: BufferId::DebugImage, elem: ElemKind::Triple, len: 16 },
        BufferSpec { id: BufferId::Impulse, elem: ElemKind::Scalar, len: 100 },
    ];
    assert_eq!(set, expected);
}

#[test]
fn debug_mode_owns_the_scene_image() {
    let set = allocate(ModeKind::SceneDebug, 2, 3, 100);
    assert_eq!(
        set,
        vec![BufferSpec { id: BufferId::SceneImage, elem: ElemKind::Triple, len: 6 }]
    );
}

#[test]
fn impulse_length_is_not_the_grid() {
    let b = describe(BufferId::Impulse, 8, 8, 5);
    assert_eq!(b.len, 5);
    let d = describe(BufferId::DebugImage, 8, 8, 5);
    assert_eq!(d.len, 64);
}

#[test]
fn element_kinds() {
    assert_eq!(elem_kind(BufferId::MinTarget), ElemKind::Target);
    assert_eq!(elem_kind(BufferId::TotalDist), ElemKind::Scalar);
    assert_eq!(elem_kind(BufferId::IntersectPos), ElemKind::Triple);
    assert_eq!(elem_kind(BufferId::IntersectDir), ElemKind::Triple);
    assert_eq!(elem_kind(BufferId::ClosestBounce), ElemKind::Index);
    assert_eq!(elem_kind(BufferId::DebugImage), ElemKind::Triple);
    assert_eq!(elem_kind(BufferId::Impulse), ElemKind::Scalar);
    assert_eq!(elem_kind(BufferId::SceneImage), ElemKind::Triple);
}

#[test]
fn ownership_follows_the_mode() {
    assert!(owns(ModeKind::SceneDebug, BufferId::SceneImage));
    assert!(!owns(ModeKind::SceneDebug, BufferId::Impulse));
    assert!(!owns(ModeKind::Trace, BufferId::SceneImage));
    assert!(owns(ModeKind::Trace, BufferId::Impulse));
    assert!(owns(ModeKind::Trace, BufferId::MinTarget));
}

#[test]
fn read_back_of_the_right_length_passes() {
    assert_eq!(check_read_back(ModeKind::Trace, BufferId::DebugImage, 4, 4, 9, 16), Ok(()));
    assert_eq!(check_read_back(ModeKind::Trace, BufferId::Impulse, 4, 4, 9, 9), Ok(()));
    assert_eq!(check_read_back(ModeKind::SceneDebug, BufferId::SceneImage, 4, 2, 9, 8), Ok(()));
}

#[test]
fn read_back_of_another_length_is_refused() {
    assert_eq!(
        check_read_back(ModeKind::Trace, BufferId::Impulse, 4, 4, 9, 16),
        Err(BufferError::LengthMismatch { id: BufferId::Impulse, expected: 9, found: 16 })
    );
    assert_eq!(
        check_read_back(ModeKind::Trace, BufferId::DebugImage, 4, 4, 9, 15),
        Err(BufferError::LengthMismatch { id: BufferId::DebugImage, expected: 16, found: 15 })
    );
}

#[test]
fn read_back_of_a_foreign_buffer_is_refused() {
    assert_eq!(
        check_read_back(ModeKind::SceneDebug, BufferId::Impulse, 4, 4, 9, 9),
        Err(BufferError::NotOwned { id: BufferId::Impulse })
    );
    assert_eq!(
        check_read_back(ModeKind::Trace, BufferId::SceneImage, 4, 4, 9, 16),
        Err(BufferError::NotOwned { id: BufferId::SceneImage })
    );
}
