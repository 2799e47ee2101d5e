use isosurf::frame::{plan_frame, AcquireStatus, FrameAction, RenderState, SurfaceConfig};
use isosurf::grid::{GridError, GridExtent};
use isosurf::volume::ScalarVolume;

#[test]
fn resize_to_zero_area_skips_reconfiguration() {
    // Surface configured at 800x600, minimized to 0x0, then restored to
    // 640x480: the zero-area resize must not touch the configuration, the
    // restore must, and the grid extent never changes.
    let grid = GridExtent::new(4, 4, 4).unwrap();
    let mut state = RenderState::new(SurfaceConfig { width: 800, height: 600 }, grid);

    assert!(!state.handle_resize(0, 0));
    assert_eq!(state.surface, SurfaceConfig { width: 800, height: 600 });
    assert_eq!(state.grid, grid);

    assert!(!state.handle_resize(0, 480));
    assert_eq!(state.surface, SurfaceConfig { width: 800, height: 600 });

    assert!(state.handle_resize(640, 480));
    assert_eq!(state.surface, SurfaceConfig { width: 640, height: 480 });
    assert_eq!(state.grid, grid);
}

#[test]
fn frame_decision_per_acquire_outcome() {
    assert_eq!(plan_frame(AcquireStatus::Acquired), FrameAction::Render);
    assert_eq!(plan_frame(AcquireStatus::Outdated), FrameAction::SkipSilent);
    assert_eq!(plan_frame(AcquireStatus::Timeout), FrameAction::SkipReport);
    assert_eq!(plan_frame(AcquireStatus::Lost), FrameAction::SkipReport);
    assert_eq!(plan_frame(AcquireStatus::OutOfMemory), FrameAction::SkipReport);
}

#[test]
fn zero_extent_is_rejected() {
    assert_eq!(GridExtent::new(0, 5, 5), Err(GridError::ZeroExtent));
    assert_eq!(GridExtent::new(5, 0, 5), Err(GridError::ZeroExtent));
    assert_eq!(GridExtent::new(5, 5, 0), Err(GridError::ZeroExtent));
}

#[test]
fn oversized_extent_is_rejected() {
    assert_eq!(
        GridExtent::new(100_000, 100_000, 100_000),
        Err(GridError::TooLarge)
    );
    assert!(GridExtent::new(0x0fff_ffff, 1, 1).is_ok());
    assert_eq!(GridExtent::new(0x1000_0000, 1, 1), Err(GridError::TooLarge));
}

#[test]
fn worst_case_buffer_sizing() {
    let g = GridExtent::new(2, 3, 4).unwrap();
    assert_eq!(g.cell_count(), 24);
    assert_eq!(g.max_triangles(), 96);
    assert_eq!(g.max_vertices(), 288);
    assert_eq!(g.max_indices(), 288);
    assert_eq!(g.sample_count(), 3 * 4 * 5);
}

#[test]
fn fill_with_evaluates_the_density_function_everywhere() {
    let extent = GridExtent::new(2, 2, 2).unwrap();
    let mut vol = ScalarVolume::new(extent);
    vol.fill_with(&|x: usize, y: usize, z: usize| (x + 10 * y + 100 * z) as i32);
    assert_eq!(vol.sample_at(0, 0, 0), 0);
    assert_eq!(vol.sample_at(2, 1, 0), 12);
    assert_eq!(vol.sample_at(1, 2, 2), 221);
    assert_eq!(vol.sample_at(2, 2, 2), 222);
}

#[test]
fn set_sample_changes_only_its_point() {
    let extent = GridExtent::new(1, 1, 1).unwrap();
    let mut vol = ScalarVolume::new(extent);
    vol.set_sample(1, 0, 1, 77);
    assert_eq!(vol.sample_at(1, 0, 1), 77);
    assert_eq!(vol.sample_at(0, 0, 0), 0);
    assert_eq!(vol.sample_at(1, 1, 1), 0);
}
