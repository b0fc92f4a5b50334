//! Reversible adaptation of the editor's main viewport camera.
//!
//! While the editor shows the scene and the scene authors water, the main
//! viewport camera must carry Aqua's primary-view marker and a depth
//! prepass. The editor adds only what the camera lacks and records what it
//! added in an [`AquaEditorCamera`] ownership record, so that leaving the
//! scene view, or unregistering the extension, takes away exactly those
//! components and nothing the camera had on its own.
use vstd::prelude::*;

verus! {

/// Which viewport components the editor added to a camera itself, and so
/// may take away again.
#[derive(Clone, Copy, Debug, PartialEq, Eq, Structural)]
pub struct AquaEditorCamera {
    pub added_primary: bool,
    pub added_depth: bool,
}

/// The Aqua-relevant components that a camera entity carries: the primary
/// view marker, the depth prepass, and the editor's ownership record.
#[derive(Clone, Copy, Debug, PartialEq, Eq, Structural)]
pub struct CameraComponents {
    pub has_primary: bool,
    pub has_depth: bool,
    pub owned: Option<AquaEditorCamera>,
}

/// A camera marked as the editor's main viewport camera, by entity id.
#[derive(Clone, Copy, Debug, PartialEq, Eq, Structural)]
pub struct ViewportCamera {
    pub entity: u64,
    pub components: CameraComponents,
}

/// The component insertions and removals to issue for one camera.
#[derive(Clone, Copy, Debug, PartialEq, Eq, Structural)]
pub struct CameraCommands {
    pub insert_primary: bool,
    pub insert_depth: bool,
    pub insert_owner: Option<AquaEditorCamera>,
    pub remove_primary: bool,
    pub remove_depth: bool,
    pub remove_owner: bool,
}

/// A command set that changes nothing.
pub open spec fn no_commands() -> CameraCommands {
    CameraCommands {
        insert_primary: false,
        insert_depth: false,
        insert_owner: None,
        remove_primary: false,
        remove_depth: false,
        remove_owner: false,
    }
}

impl CameraCommands {
    /// The camera's components once these commands have been applied: an
    /// inserted component is present, a removed one absent, an untouched one
    /// as it was.
    pub open spec fn result(self, c: CameraComponents) -> CameraComponents {
        CameraComponents {
            has_primary: (c.has_primary || self.insert_primary) && !self.remove_primary,
            has_depth: (c.has_depth || self.insert_depth) && !self.remove_depth,
            owned: if self.insert_owner is Some {
                self.insert_owner
            } else if self.remove_owner {
                None
            } else {
                c.owned
            },
        }
    }

    /// Applies the commands to a camera's components.
    pub fn apply(&self, c: CameraComponents) -> (r: CameraComponents)
        ensures
            r == self.result(c),
    {
        let owned = match self.insert_owner {
            Some(o) => Some(o),
            None => if self.remove_owner {
                None
            } else {
                c.owned
            },
        };
        CameraComponents {
            has_primary: (c.has_primary || self.insert_primary) && !self.remove_primary,
            has_depth: (c.has_depth || self.insert_depth) && !self.remove_depth,
            owned,
        }
    }
}

/// Removing what the editor added, and its ownership record.
pub open spec fn remove_owned_commands(owned: AquaEditorCamera) -> CameraCommands {
    CameraCommands {
        insert_primary: false,
        insert_depth: false,
        insert_owner: None,
        remove_primary: owned.added_primary,
        remove_depth: owned.added_depth,
        remove_owner: true,
    }
}

/// The camera that must be adapted: the viewport camera, when the editor
/// shows the scene (or keeps no view mode at all) and the scene authors an
/// ocean or a water body; otherwise none.
pub open spec fn target_spec(
    view_is_scene: Option<bool>,
    ocean_authored: bool,
    body_authored: bool,
    viewport_camera: Option<u64>,
) -> Option<u64> {
    let scene_mode = view_is_scene is None || view_is_scene == Some(true);
    if scene_mode && (ocean_authored || body_authored) {
        viewport_camera
    } else {
        None
    }
}

/// What one synchronisation pass does to one camera.
///
/// The target camera gets the primary-view marker and the depth prepass:
/// when the editor already owns it, the components it added and that have
/// since gone are put back; otherwise the missing ones are added and an
/// ownership record names them. Any other camera loses what the editor added
/// to it, and its ownership record.
pub open spec fn sync_commands(camera: ViewportCamera, target: Option<u64>) -> CameraCommands {
    let c = camera.components;
    if target == Some(camera.entity) {
        match c.owned {
            Some(o) => CameraCommands {
                insert_primary: o.added_primary && !c.has_primary,
                insert_depth: o.added_depth && !c.has_depth,
                ..no_commands()
            },
            None => {
                let own = AquaEditorCamera {
                    added_primary: !c.has_primary,
                    added_depth: !c.has_depth,
                };
                CameraCommands {
                    insert_primary: own.added_primary,
                    insert_depth: own.added_depth,
                    insert_owner: Some(own),
                    ..no_commands()
                }
            },
        }
    } else {
        match c.owned {
            Some(o) => remove_owned_commands(o),
            None => no_commands(),
        }
    }
}

/// The components a camera has of its own, apart from what the editor added.
pub open spec fn authored_components(c: CameraComponents) -> CameraComponents {
    match c.owned {
        Some(o) => CameraComponents {
            has_primary: c.has_primary && !o.added_primary,
            has_depth: c.has_depth && !o.added_depth,
            owned: None,
        },
        None => c,
    }
}

/// A camera's components after the extension has restored it: what the
/// editor added is removed with the ownership record.
pub open spec fn restored(c: CameraComponents) -> CameraComponents {
    match c.owned {
        Some(o) => remove_owned_commands(o).result(c),
        None => c,
    }
}

/// A camera's components after one synchronisation pass per target in
/// `targets`, in order.
pub open spec fn after_syncs(camera: ViewportCamera, targets: Seq<Option<u64>>) -> CameraComponents
    decreases targets.len(),
{
    if targets.len() == 0 {
        camera.components
    } else {
        let before = ViewportCamera {
            entity: camera.entity,
            components: after_syncs(camera, targets.drop_last()),
        };
        sync_commands(before, targets.last()).result(before.components)
    }
}


/// Every component that the ownership record does not claim is one the
/// camera has of its own.
pub open spec fn ownership_consistent(c: CameraComponents) -> bool {
    match c.owned {
        Some(o) => (o.added_primary || c.has_primary) && (o.added_depth || c.has_depth),
        None => true,
    }
}

/// In the scene view (or with no view mode kept), a scene that authors any
/// water, an ocean, a water body or both, makes the viewport camera the
/// target; otherwise no camera is the target.
pub proof fn scene_with_water_targets_viewport_camera(
    view_is_scene: Option<bool>,
    ocean_authored: bool,
    body_authored: bool,
    viewport_camera: Option<u64>,
)
    ensures
        (view_is_scene is None || view_is_scene == Some(true)) && (ocean_authored || body_authored)
            ==> target_spec(view_is_scene, ocean_authored, body_authored, viewport_camera)
            == viewport_camera,
        view_is_scene == Some(false) ==> target_spec(
            view_is_scene,
            ocean_authored,
            body_authored,
            viewport_camera,
        ) is None,
        !ocean_authored && !body_authored ==> target_spec(
            view_is_scene,
            ocean_authored,
            body_authored,
            viewport_camera,
        ) is None,
{
}

/// Authoring more water never takes the target away: if the viewport camera
/// is the target, it stays the target when an ocean or a water body is
/// added.
pub proof fn target_is_monotone_in_authored_water(
    view_is_scene: Option<bool>,
    ocean_authored: bool,
    body_authored: bool,
    more_ocean: bool,
    more_body: bool,
    viewport_camera: Option<u64>,
)
    requires
        viewport_camera is Some,
        target_spec(view_is_scene, ocean_authored, body_authored, viewport_camera)
            == viewport_camera,
    ensures
        target_spec(
            view_is_scene,
            ocean_authored || more_ocean,
            body_authored || more_body,
            viewport_camera,
        ) == viewport_camera,
{
}

/// A restore takes away exactly the components that the ownership record
/// claims, and the record itself, and keeps everything else.
pub proof fn restore_removes_exactly_the_claimed(c: CameraComponents, o: AquaEditorCamera)
    requires
        c.owned == Some(o),
    ensures
        restored(c).has_primary == (c.has_primary && !o.added_primary),
        restored(c).has_depth == (c.has_depth && !o.added_depth),
        restored(c).owned is None,
        remove_owned_commands(o).result(c) == restored(c),
{
}

/// A synchronisation pass never changes what a camera has of its own.
pub proof fn sync_keeps_authored_components(camera: ViewportCamera, target: Option<u64>)
    ensures
        authored_components(sync_commands(camera, target).result(camera.components))
            == authored_components(camera.components),
{
}

/// A synchronisation pass keeps the ownership record consistent.
pub proof fn sync_keeps_ownership_consistent(camera: ViewportCamera, target: Option<u64>)
    requires
        ownership_consistent(camera.components),
    ensures
        ownership_consistent(sync_commands(camera, target).result(camera.components)),
{
}

/// Restoring a camera leaves exactly the components it has of its own.
pub proof fn restore_leaves_authored_components(c: CameraComponents)
    ensures
        restored(c) == authored_components(c),
{
}

/// The adaptation is owned and reversible: a camera that the editor does
/// not own, after any sequence of synchronisation passes and a restore, has
/// exactly the components it started with.
pub proof fn adaptation_is_reversible(camera: ViewportCamera, targets: Seq<Option<u64>>)
    requires
        camera.components.owned is None,
    ensures
        restored(after_syncs(camera, targets)) == camera.components,
{
    lemma_after_syncs_keep_authored(camera, targets);
}

/// After any sequence of passes a camera still has the same components of
/// its own.
pub proof fn lemma_after_syncs_keep_authored(camera: ViewportCamera, targets: Seq<Option<u64>>)
    ensures
        authored_components(after_syncs(camera, targets)) == authored_components(
            camera.components,
        ),
    decreases targets.len(),
{
    if targets.len() > 0 {
        lemma_after_syncs_keep_authored(camera, targets.drop_last());
        let before = ViewportCamera {
            entity: camera.entity,
            components: after_syncs(camera, targets.drop_last()),
        };
        sync_keeps_authored_components(before, targets.last());
    }
}

/// The target camera ends up with the primary-view marker, the depth
/// prepass and an ownership record, provided that what the record does not
/// claim is still on the camera.
pub proof fn target_camera_is_adapted(camera: ViewportCamera, target: Option<u64>)
    requires
        target == Some(camera.entity),
        ownership_consistent(camera.components),
    ensures
        ({
            let r = sync_commands(camera, target).result(camera.components);
            r.has_primary && r.has_depth && r.owned is Some
        }),
{
}

/// Any camera other than the target is left with exactly the components it
/// has of its own, and no ownership record.
pub proof fn other_camera_is_restored(camera: ViewportCamera, target: Option<u64>)
    requires
        target != Some(camera.entity),
    ensures
        sync_commands(camera, target).result(camera.components) == authored_components(
            camera.components,
        ),
{
}

/// When the editor leaves the scene view, or the scene no longer authors
/// water, no camera is adapted: every camera is left with exactly the
/// components it has of its own.
pub proof fn leaving_scene_view_restores_cameras(
    view_is_scene: Option<bool>,
    ocean_authored: bool,
    body_authored: bool,
    viewport_camera: Option<u64>,
    camera: ViewportCamera,
)
    requires
        view_is_scene == Some(false) || (!ocean_authored && !body_authored),
    ensures
        ({
            let target = target_spec(view_is_scene, ocean_authored, body_authored, viewport_camera);
            sync_commands(camera, target).result(camera.components) == authored_components(
                camera.components,
            )
        }),
{
}

/// A second pass with the same target changes nothing.
pub proof fn sync_is_idempotent(camera: ViewportCamera, target: Option<u64>)
    ensures
        ({
            let once = sync_commands(camera, target).result(camera.components);
            let again = ViewportCamera { entity: camera.entity, components: once };
            sync_commands(again, target).result(once) == once
        }),
{
}


/// The camera to adapt in this pass.
pub fn viewport_target(
    view_is_scene: Option<bool>,
    ocean_authored: bool,
    body_authored: bool,
    viewport_camera: Option<u64>,
) -> (r: Option<u64>)
    ensures
        r == target_spec(view_is_scene, ocean_authored, body_authored, viewport_camera),
        (view_is_scene is None || view_is_scene == Some(true)) && (ocean_authored || body_authored)
            ==> r == viewport_camera,
        !((view_is_scene is None || view_is_scene == Some(true)) && (ocean_authored
            || body_authored)) ==> r is None,
{
    let scene_mode = match view_is_scene {
        None => true,
        Some(scene) => scene,
    };
    if scene_mode && (ocean_authored || body_authored) {
        viewport_camera
    } else {
        None
    }
}

/// The commands that take away what the editor added to a camera, and its
/// ownership record.
pub fn remove_owned_camera_adaptation(owned: AquaEditorCamera) -> (r: CameraCommands)
    ensures
        r == remove_owned_commands(owned),
{
    CameraCommands {
        insert_primary: false,
        insert_depth: false,
        insert_owner: None,
        remove_primary: owned.added_primary,
        remove_depth: owned.added_depth,
        remove_owner: true,
    }
}

/// The commands of one synchronisation pass for one camera.
pub fn sync_camera(camera: &ViewportCamera, target: Option<u64>) -> (r: CameraCommands)
    ensures
        r == sync_commands(*camera, target),
{
    let c = camera.components;
    let is_target = match target {
        Some(t) => t == camera.entity,
        None => false,
    };
    if is_target {
        match c.owned {
            Some(o) => CameraCommands {
                insert_primary: o.added_primary && !c.has_primary,
                insert_depth: o.added_depth && !c.has_depth,
                insert_owner: None,
                remove_primary: false,
                remove_depth: false,
                remove_owner: false,
            },
            None => {
                let own = AquaEditorCamera {
                    added_primary: !c.has_primary,
                    added_depth: !c.has_depth,
                };
                CameraCommands {
                    insert_primary: own.added_primary,
                    insert_depth: own.added_depth,
                    insert_owner: Some(own),
                    remove_primary: false,
                    remove_depth: false,
                    remove_owner: false,
                }
            },
        }
    } else {
        match c.owned {
            Some(o) => remove_owned_camera_adaptation(o),
            None => CameraCommands {
                insert_primary: false,
                insert_depth: false,
                insert_owner: None,
                remove_primary: false,
                remove_depth: false,
                remove_owner: false,
            },
        }
    }
}

/// One synchronisation pass over all main viewport cameras: the commands for
/// each camera, in the order given.
pub fn sync_aqua_viewport_camera(
    view_is_scene: Option<bool>,
    ocean_authored: bool,
    body_authored: bool,
    viewport_camera: Option<u64>,
    cameras: &Vec<ViewportCamera>,
) -> (r: Vec<CameraCommands>)
    ensures
        r@.len() == cameras@.len(),
        forall|i: int|
            0 <= i < cameras@.len() ==> #[trigger] r@[i] == sync_commands(
                cameras@[i],
                target_spec(view_is_scene, ocean_authored, body_authored, viewport_camera),
            ),
{
    let target = viewport_target(view_is_scene, ocean_authored, body_authored, viewport_camera);
    let mut out: Vec<CameraCommands> = Vec::new();
    let mut k: usize = 0;
    while k < cameras.len()
        invariant
            k <= cameras@.len(),
            out@.len() == k,
            target == target_spec(view_is_scene, ocean_authored, body_authored, viewport_camera),
            forall|i: int| 0 <= i < k ==> #[trigger] out@[i] == sync_commands(cameras@[i], target),
        decreases cameras@.len() - k,
    {
        let cmd = sync_camera(&cameras[k], target);
        out.push(cmd);
        k = k + 1;
    }
    out
}

/// Restores every camera that carries an ownership record: for each
/// `(entity, record)`, the commands that take away what the editor added.
pub fn restore_aqua_viewport_cameras(owned_cameras: &Vec<(u64, AquaEditorCamera)>) -> (r: Vec<
    (u64, CameraCommands),
>)
    ensures
        r@.len() == owned_cameras@.len(),
        forall|i: int|
            0 <= i < owned_cameras@.len() ==> #[trigger] r@[i] == (
                owned_cameras@[i].0,
                remove_owned_commands(owned_cameras@[i].1),
            ),
{
    let mut out: Vec<(u64, CameraCommands)> = Vec::new();
    let mut k: usize = 0;
    while k < owned_cameras.len()
        invariant
            k <= owned_cameras@.len(),
            out@.len() == k,
            forall|i: int|
                0 <= i < k ==> #[trigger] out@[i] == (
                    owned_cameras@[i].0,
                    remove_owned_commands(owned_cameras@[i].1),
                ),
        decreases owned_cameras@.len() - k,
    {
        let (entity, owned) = owned_cameras[k];
        out.push((entity, remove_owned_camera_adaptation(owned)));
        k = k + 1;
    }
    out
}

} // verus!
