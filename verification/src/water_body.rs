//! Projection of scene-authored localized water bodies onto their entities.
//!
//! An entity whose authored water-body settings changed receives the runtime
//! water body, its shape, and a marker saying the editor put them there; its
//! optics follow the authored preset, or are removed when none is authored.
//! When the authored settings are removed, the runtime components go with
//! them, but only on entities that carry the marker.
use vstd::prelude::*;
use crate::authoring::{AquaOpticsPreset, WaterOpticsPreset, optics_runtime};

verus! {

/// What to write on one entity whose authored settings changed: the runtime
/// water body, its shape and the projection marker are inserted; the optics
/// are inserted when `optics` is `Some` and removed otherwise.
#[derive(Clone, Copy, Debug, PartialEq, Eq, Structural)]
pub struct WaterBodyProjection {
    pub entity: u64,
    pub optics: Option<WaterOpticsPreset>,
}

/// The runtime components of one entity that the projection touches.
#[derive(Clone, Copy, Debug, PartialEq, Eq, Structural)]
pub struct BodyComponents {
    pub water_body: bool,
    pub shape: bool,
    pub optics: bool,
    pub projected: bool,
}

/// The runtime optics for authored optics.
pub open spec fn projected_optics(optics: Option<AquaOpticsPreset>) -> Option<WaterOpticsPreset> {
    match optics {
        Some(o) => Some(optics_runtime(o)),
        None => None,
    }
}

/// An entity's components once a projection has been written to it.
pub open spec fn after_projection(c: BodyComponents, p: WaterBodyProjection) -> BodyComponents {
    BodyComponents { water_body: true, shape: true, optics: p.optics is Some, projected: true }
}

/// An entity's components once its authored settings were removed and the
/// cleanup ran: all runtime components go when the marker is present.
pub open spec fn after_cleanup(c: BodyComponents) -> BodyComponents {
    if c.projected {
        BodyComponents { water_body: false, shape: false, optics: false, projected: false }
    } else {
        c
    }
}

/// The entities to clean among those whose authored settings were removed,
/// each given with whether it carries the projection marker: the marked
/// ones, in order.
pub open spec fn cleanup_targets(removed: Seq<(u64, bool)>) -> Seq<u64>
    decreases removed.len(),
{
    if removed.len() == 0 {
        Seq::empty()
    } else {
        let rest = cleanup_targets(removed.drop_last());
        if removed.last().1 {
            rest.push(removed.last().0)
        } else {
            rest
        }
    }
}

/// The projections for the entities whose authored settings changed, each
/// given with its authored optics.
pub fn project_changed_water_bodies(changed: &Vec<(u64, Option<AquaOpticsPreset>)>) -> (r: Vec<
    WaterBodyProjection,
>)
    ensures
        r@.len() == changed@.len(),
        forall|i: int|
            0 <= i < changed@.len() ==> #[trigger] r@[i] == (WaterBodyProjection {
                entity: changed@[i].0,
                optics: projected_optics(changed@[i].1),
            }),
        forall|i: int|
            0 <= i < changed@.len() ==> (#[trigger] r@[i]).optics == match changed@[i].1 {
                Some(o) => Some(optics_runtime(o)),
                None => None,
            },
{
    let mut out: Vec<WaterBodyProjection> = Vec::new();
    let mut k: usize = 0;
    while k < changed.len()
        invariant
            k <= changed@.len(),
            out@.len() == k,
            forall|i: int|
                0 <= i < k ==> #[trigger] out@[i] == (WaterBodyProjection {
                    entity: changed@[i].0,
                    optics: projected_optics(changed@[i].1),
                }),
        decreases changed@.len() - k,
    {
        let (entity, optics) = changed[k];
        let runtime = match optics {
            Some(o) => Some(o.runtime()),
            None => None,
        };
        out.push(WaterBodyProjection { entity, optics: runtime });
        k = k + 1;
    }
    out
}

/// The entities whose runtime water-body components must be removed, among
/// those whose authored settings were removed: exactly the ones that carry
/// the projection marker, in order.
pub fn remove_orphaned_water_body_projections(removed: &Vec<(u64, bool)>) -> (r: Vec<u64>)
    ensures
        r@ == cleanup_targets(removed@),
{
    let mut out: Vec<u64> = Vec::new();
    let mut k: usize = 0;
    while k < removed.len()
        invariant
            k <= removed@.len(),
            out@ == cleanup_targets(removed@.take(k as int)),
        decreases removed@.len() - k,
    {
        assert(removed@.take(k as int + 1).drop_last() =~= removed@.take(k as int));
        let (entity, projected) = removed[k];
        if projected {
            out.push(entity);
        }
        k = k + 1;
    }
    assert(removed@.take(removed@.len() as int) =~= removed@);
    out
}

/// Cleanup takes away everything a projection put on an entity.
pub proof fn cleanup_undoes_projection(c: BodyComponents, p: WaterBodyProjection)
    ensures
        after_cleanup(after_projection(c, p)) == (BodyComponents {
            water_body: false,
            shape: false,
            optics: false,
            projected: false,
        }),
{
}

/// Cleanup leaves the runtime components of an entity that the projection
/// never marked untouched.
pub proof fn cleanup_spares_unprojected(c: BodyComponents)
    requires
        !c.projected,
    ensures
        after_cleanup(c) == c,
{
}

/// An entity is cleaned exactly when it is among the removed ones with the
/// marker.
pub proof fn cleanup_targets_are_the_marked(removed: Seq<(u64, bool)>, entity: u64)
    ensures
        cleanup_targets(removed).contains(entity) <==> exists|i: int|
            0 <= i < removed.len() && removed[i] == (entity, true),
    decreases removed.len(),
{
    if removed.len() > 0 {
        let pre = removed.drop_last();
        cleanup_targets_are_the_marked(pre, entity);
        let rest = cleanup_targets(pre);
        let all = cleanup_targets(removed);
        if exists|i: int| 0 <= i < removed.len() && removed[i] == (entity, true) {
            let i = choose|i: int| 0 <= i < removed.len() && removed[i] == (entity, true);
            if i < removed.len() - 1 {
                assert(pre[i] == removed[i]);
                assert(rest.contains(entity));
                let k = choose|k: int| 0 <= k < rest.len() && rest[k] == entity;
                if removed.last().1 {
                    assert(all[k] == entity);
                }
                assert(all.contains(entity));
            } else {
                assert(all == rest.push(entity));
                assert(all[rest.len() as int] == entity);
            }
        }
        if all.contains(entity) {
            let k = choose|k: int| 0 <= k < all.len() && all[k] == entity;
            if removed.last().1 && k == rest.len() {
                assert(removed[removed.len() - 1] == (entity, true));
            } else {
                assert(rest[k] == entity);
                assert(rest.contains(entity));
                let i = choose|i: int| 0 <= i < pre.len() && pre[i] == (entity, true);
                assert(removed[i] == (entity, true));
            }
        }
    }
}

/// An authored preset is projected as the runtime optics of that same
/// preset, and no authored optics as none.
pub proof fn projected_optics_follow_authored_preset(o: AquaOpticsPreset)
    ensures
        projected_optics(Some(o)) == Some(optics_runtime(o)),
        projected_optics(None) is None,
        o == AquaOpticsPreset::DeepOcean ==> projected_optics(Some(o)) == Some(
            WaterOpticsPreset::DeepOcean,
        ),
        o == AquaOpticsPreset::Coastal ==> projected_optics(Some(o)) == Some(
            WaterOpticsPreset::Coastal,
        ),
        o == AquaOpticsPreset::Tropical ==> projected_optics(Some(o)) == Some(
            WaterOpticsPreset::Tropical,
        ),
        o == AquaOpticsPreset::ClearFresh ==> projected_optics(Some(o)) == Some(
            WaterOpticsPreset::ClearFresh,
        ),
{
}

/// When every removed entity carries the marker all of them are cleaned,
/// in order; when none does, none is.
pub proof fn cleanup_targets_all_or_none(removed: Seq<(u64, bool)>)
    ensures
        (forall|i: int| 0 <= i < removed.len() ==> (#[trigger] removed[i]).1)
            ==> cleanup_targets(removed) == removed.map_values(|r: (u64, bool)| r.0),
        (forall|i: int| 0 <= i < removed.len() ==> !(#[trigger] removed[i]).1)
            ==> cleanup_targets(removed).len() == 0,
    decreases removed.len(),
{
    if removed.len() > 0 {
        let pre = removed.drop_last();
        cleanup_targets_all_or_none(pre);
        if forall|i: int| 0 <= i < removed.len() ==> (#[trigger] removed[i]).1 {
            assert forall|i: int| 0 <= i < pre.len() implies (#[trigger] pre[i]).1 by {
                assert(pre[i] == removed[i]);
            }
            assert(removed.last().1 == removed[removed.len() - 1].1);
            assert(cleanup_targets(removed) =~= removed.map_values(|r: (u64, bool)| r.0));
        }
        if forall|i: int| 0 <= i < removed.len() ==> !(#[trigger] removed[i]).1 {
            assert forall|i: int| 0 <= i < pre.len() implies !(#[trigger] pre[i]).1 by {
                assert(pre[i] == removed[i]);
            }
            assert(!removed[removed.len() - 1].1);
        }
    }
}

} // verus!
