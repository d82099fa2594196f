use zenit::entities::Entity;
use zenit::graphics::{
    collect_targets, scene_index, CameraTarget, mip_level_layout, next_texture_id, plan_frame, surface_recovery, CubemapFace, FramePlan, MipLayout,
    SurfaceFailure, SurfaceRecovery,
};

#[test]
fn mip_layout_halves_down_to_one_block() {
    assert_eq!(
        mip_level_layout(256, 128, 3, 4, 4, 8),
        MipLayout { width: 32, height: 16, bytes_per_row: 64, rows_per_image: 4 }
    );
    assert_eq!(
        mip_level_layout(8, 8, 5, 4, 4, 16),
        MipLayout { width: 4, height: 4, bytes_per_row: 16, rows_per_image: 1 }
    );
    assert_eq!(
        mip_level_layout(640, 480, 0, 1, 1, 4),
        MipLayout { width: 640, height: 480, bytes_per_row: 2560, rows_per_image: 480 }
    );
}

#[test]
fn cubemap_faces_and_layers() {
    assert_eq!(CubemapFace::try_from(0), Ok(CubemapFace::Right));
    assert_eq!(CubemapFace::try_from(5), Ok(CubemapFace::Backward));
    assert_eq!(CubemapFace::try_from(6), Err(6));
    for layer in 0..6u8 {
        assert_eq!(CubemapFace::try_from(layer).unwrap().as_u8(), layer);
    }
}

#[test]
fn texture_ids_count_up() {
    let mut accumulator = 1usize;
    assert_eq!(next_texture_id(&mut accumulator), 1);
    assert_eq!(next_texture_id(&mut accumulator), 2);
    assert_eq!(accumulator, 3);
}

#[test]
fn frame_plans() {
    assert_eq!(plan_frame(true, 800, 600, 800, 600), FramePlan::Reconfigure);
    assert_eq!(plan_frame(false, 0, 600, 800, 600), FramePlan::Skip);
    assert_eq!(plan_frame(false, 1024, 600, 800, 600), FramePlan::Reconfigure);
    assert_eq!(plan_frame(false, 800, 600, 800, 600), FramePlan::Render);
}

#[test]
fn surface_failure_recovery() {
    assert!(matches!(surface_recovery(SurfaceFailure::Outdated, false), SurfaceRecovery::Reconfigure));
    assert!(matches!(surface_recovery(SurfaceFailure::Timeout, true), SurfaceRecovery::RetryNextFrame));
    assert!(matches!(
        surface_recovery(SurfaceFailure::Timeout, false),
        SurfaceRecovery::Fatal("swapchain failure: timeout")
    ));
    assert!(matches!(
        surface_recovery(SurfaceFailure::Lost, true),
        SurfaceRecovery::Fatal("swapchain failure: surface lost")
    ));
    assert!(matches!(
        surface_recovery(SurfaceFailure::OutOfMemory, true),
        SurfaceRecovery::Fatal("swapchain failure: out of memory")
    ));
}

fn entity(index: u32, generation: u32) -> Entity {
    Entity { index, generation }
}

#[test]
fn scene_index_finds_the_last_match() {
    let scenes = vec![entity(1, 1), entity(2, 2), entity(1, 1)];
    assert_eq!(scene_index(&scenes, entity(1, 1)), Some(2));
    assert_eq!(scene_index(&scenes, entity(2, 2)), Some(1));
    assert_eq!(scene_index(&scenes, entity(2, 3)), None);
}

#[test]
fn collect_targets_pairs_enabled_cameras_with_their_scenes() {
    let scenes = vec![entity(4, 7), entity(9, 8)];
    let cameras = vec![
        CameraTarget { enabled: true, scene_entity: entity(9, 8) },
        CameraTarget { enabled: false, scene_entity: entity(5, 5) },
        CameraTarget { enabled: true, scene_entity: entity(4, 7) },
        CameraTarget { enabled: true, scene_entity: entity(9, 8) },
    ];
    assert_eq!(collect_targets(&scenes, &cameras), vec![(0, 1), (2, 0), (3, 1)]);
    assert_eq!(collect_targets(&scenes, &vec![]), vec![]);
}

#[test]
fn no_platform_searches_for_the_game() {
    assert_eq!(zenit::platform::find_bf2(), None);
}
