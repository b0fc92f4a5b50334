use bevy_aqua_bsn::viewport::{
    restore_aqua_viewport_cameras, sync_aqua_viewport_camera, sync_camera, viewport_target,
    AquaEditorCamera, CameraComponents, ViewportCamera,
};

const CAMERA: u64 = 7;

fn camera(has_primary: bool, has_depth: bool, owned: Option<AquaEditorCamera>) -> ViewportCamera {
    ViewportCamera {
        entity: CAMERA,
        components: CameraComponents { has_primary, has_depth, owned },
    }
}

/// Runs one synchronisation pass over a single main viewport camera and
/// applies its commands.
fn sync_pass(
    cam: ViewportCamera,
    view_is_scene: Option<bool>,
    ocean_authored: bool,
    viewport_camera: Option<u64>,
) -> ViewportCamera {
    let cmds = sync_aqua_viewport_camera(view_is_scene, ocean_authored, false, viewport_camera, &vec![cam]);
    assert_eq!(cmds.len(), 1);
    ViewportCamera { entity: cam.entity, components: cmds[0].apply(cam.components) }
}

/// Runs the extension's restore over a single camera and applies its commands.
fn restore(cam: ViewportCamera) -> ViewportCamera {
    match cam.components.owned {
        Some(owned) => {
            let cmds = restore_aqua_viewport_cameras(&vec![(cam.entity, owned)]);
            assert_eq!(cmds.len(), 1);
            assert_eq!(cmds[0].0, cam.entity);
            ViewportCamera { entity: cam.entity, components: cmds[0].1.apply(cam.components) }
        }
        None => cam,
    }
}

#[test]
fn viewport_camera_adaptation_is_owned_and_reversible() {
    let cam = camera(false, false, None);
    let cam = sync_pass(cam, Some(true), true, Some(CAMERA));
    assert!(cam.components.has_primary);
    assert!(cam.components.has_depth);

    let cam = restore(cam);
    assert!(!cam.components.has_primary);
    assert!(!cam.components.has_depth);
}

#[test]
fn scene_live_scene_transition_restores_only_owned_camera_components() {
    let cam = camera(false, true, None);
    let cam = sync_pass(cam, Some(true), true, Some(CAMERA));
    assert!(cam.components.has_primary);
    let cam = sync_pass(cam, Some(false), true, Some(CAMERA));
    assert!(!cam.components.has_primary);
    assert!(cam.components.has_depth);
    assert!(cam.components.owned.is_none());
    let cam = sync_pass(cam, Some(true), true, Some(CAMERA));
    assert!(cam.components.has_primary);
    assert!(cam.components.has_depth);
}

#[test]
fn cleanup_preserves_preexisting_camera_components() {
    let cam = camera(
        true,
        true,
        Some(AquaEditorCamera { added_primary: false, added_depth: false }),
    );
    let cam = restore(cam);
    assert!(cam.components.has_primary);
    assert!(cam.components.has_depth);
    assert!(cam.components.owned.is_none());
}

#[test]
fn viewport_systems_can_be_removed_during_host_update() {
    // No view mode is kept: the editor counts as showing the scene.
    let cam = camera(false, false, None);
    let cam = sync_pass(cam, None, true, Some(CAMERA));
    assert!(cam.components.has_primary);

    // The host restores the cameras and removes the synchronisation pass,
    // so no further pass runs.
    let cam = restore(cam);
    assert!(!cam.components.has_primary);
    assert!(!cam.components.has_depth);
}

#[test]
fn target_requires_scene_mode_and_authored_water() {
    assert_eq!(viewport_target(None, true, false, Some(3)), Some(3));
    assert_eq!(viewport_target(Some(true), false, true, Some(3)), Some(3));
    assert_eq!(viewport_target(Some(true), false, false, Some(3)), None);
    assert_eq!(viewport_target(Some(false), true, true, Some(3)), None);
    assert_eq!(viewport_target(Some(true), true, true, None), None);
}

#[test]
fn adaptation_records_only_missing_components() {
    let cam = camera(true, false, None);
    let cmds = sync_camera(&cam, Some(CAMERA));
    assert!(!cmds.insert_primary);
    assert!(cmds.insert_depth);
    assert_eq!(
        cmds.insert_owner,
        Some(AquaEditorCamera { added_primary: false, added_depth: true })
    );
}

#[test]
fn owned_camera_gets_lost_components_back() {
    let owned = AquaEditorCamera { added_primary: true, added_depth: true };
    let cam = camera(false, true, Some(owned));
    let cam = sync_pass(cam, Some(true), true, Some(CAMERA));
    assert_eq!(cam.components, CameraComponents { has_primary: true, has_depth: true, owned: Some(owned) });
}

#[test]
fn other_cameras_lose_only_owned_components() {
    let owned = AquaEditorCamera { added_primary: true, added_depth: false };
    let cam = camera(true, true, Some(owned));
    let cam = sync_pass(cam, Some(true), true, Some(CAMERA + 1));
    assert_eq!(cam.components, CameraComponents { has_primary: false, has_depth: true, owned: None });
}

#[test]
fn sync_twice_changes_nothing_more() {
    let cam = camera(false, true, None);
    let once = sync_pass(cam, Some(true), true, Some(CAMERA));
    let twice = sync_pass(once, Some(true), true, Some(CAMERA));
    assert_eq!(once, twice);
}

#[test]
fn any_sequence_of_passes_is_undone_by_restore() {
    let start = camera(true, false, None);
    let mut cam = start;
    let targets = [Some(CAMERA), None, Some(CAMERA), Some(CAMERA), Some(CAMERA + 2), Some(CAMERA)];
    for t in targets {
        cam = sync_pass(cam, Some(true), true, t);
    }
    assert!(cam.components.has_primary && cam.components.has_depth);
    assert_eq!(restore(cam), start);
}

#[test]
fn every_camera_gets_its_own_commands() {
    let a = ViewportCamera { entity: 1, components: CameraComponents { has_primary: false, has_depth: false, owned: None } };
    let b = ViewportCamera {
        entity: 2,
        components: CameraComponents {
            has_primary: true,
            has_depth: true,
            owned: Some(AquaEditorCamera { added_primary: true, added_depth: true }),
        },
    };
    let cmds = sync_aqua_viewport_camera(Some(true), false, true, Some(1), &vec![a, b]);
    assert_eq!(cmds.len(), 2);
    assert!(cmds[0].insert_primary && cmds[0].insert_depth && cmds[0].insert_owner.is_some());
    assert!(cmds[1].remove_primary && cmds[1].remove_depth && cmds[1].remove_owner);
}
