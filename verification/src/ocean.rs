//! Projection of the scene-authored global ocean into Aqua's runtime state.
//!
//! Exactly one authored ocean is authoritative: the one with the lowest
//! entity id. Its settings are written to the runtime wave and appearance
//! resources, and the unbounded ocean exists while it is enabled. Writing
//! happens only when the authoritative entity or its settings change; when
//! the last authored ocean goes away the runtime state returns to its
//! defaults and the ocean is removed.
use vstd::prelude::*;
use crate::selection::{first_min_index, is_first_min, lemma_first_min_index, lowest_entity};

verus! {

/// One authored ocean, as the projection sees it.
#[derive(Clone, Copy, Debug, PartialEq, Eq, Structural)]
pub struct OceanCandidate {
    /// The entity's id.
    pub entity: u64,
    /// Whether the authored settings enable the unbounded ocean.
    pub ocean_enabled: bool,
    /// Whether the authored settings equal the settings projected last.
    pub matches_last: bool,
}

/// What the projection remembers between passes (besides the settings it
/// projected last, which stay with the caller).
#[derive(Clone, Copy, Debug, PartialEq, Eq, Structural)]
pub struct OceanProjectionState {
    /// The entity whose settings were projected last.
    pub source: Option<u64>,
    /// Whether the warning about several authored oceans has been given
    /// since they became several.
    pub warned_multiple: bool,
}

/// What one pass writes.
#[derive(Clone, Copy, Debug, PartialEq, Eq, Structural)]
pub enum OceanProjection {
    /// Nothing is written.
    Unchanged,
    /// Waves and appearance return to their defaults, the ocean is removed
    /// and the remembered settings are forgotten.
    Reset,
    /// Waves and appearance are taken from the candidate at `index`, the
    /// ocean is inserted (at its level) or removed, and its settings are
    /// remembered.
    Apply { index: usize, insert_ocean: bool },
}

/// The outcome of one pass: the new state, what to write, and whether to
/// warn that several oceans are authored.
#[derive(Clone, Copy, Debug, PartialEq, Eq, Structural)]
pub struct OceanProjectionStep {
    pub state: OceanProjectionState,
    pub projection: OceanProjection,
    pub warn_multiple: bool,
}

/// The projection's state before its first pass.
pub open spec fn initial_state() -> OceanProjectionState {
    OceanProjectionState { source: None, warned_multiple: false }
}

/// The entity ids of the candidates, in order.
pub open spec fn candidate_ids(cands: Seq<OceanCandidate>) -> Seq<u64> {
    cands.map_values(|c: OceanCandidate| c.entity)
}

/// One projection pass over the authored oceans.
pub open spec fn ocean_step(
    state: OceanProjectionState,
    cands: Seq<OceanCandidate>,
) -> OceanProjectionStep {
    let several = cands.len() > 1;
    let warn = several && !state.warned_multiple;
    if cands.len() == 0 {
        OceanProjectionStep {
            state: OceanProjectionState { source: None, warned_multiple: false },
            projection: if state.source is Some {
                OceanProjection::Reset
            } else {
                OceanProjection::Unchanged
            },
            warn_multiple: false,
        }
    } else {
        let i = first_min_index(candidate_ids(cands));
        let c = cands[i];
        if state.source == Some(c.entity) && c.matches_last {
            OceanProjectionStep {
                state: OceanProjectionState { source: state.source, warned_multiple: several },
                projection: OceanProjection::Unchanged,
                warn_multiple: warn,
            }
        } else {
            OceanProjectionStep {
                state: OceanProjectionState { source: Some(c.entity), warned_multiple: several },
                projection: OceanProjection::Apply {
                    index: i as usize,
                    insert_ocean: c.ocean_enabled,
                },
                warn_multiple: warn,
            }
        }
    }
}


/// Two candidate lists name the same entities in the same order.
pub open spec fn same_entities(a: Seq<OceanCandidate>, b: Seq<OceanCandidate>) -> bool {
    candidate_ids(a) == candidate_ids(b)
}

/// The authoritative ocean is the authored one with the lowest entity id.
pub proof fn lowest_entity_is_authoritative(
    state: OceanProjectionState,
    cands: Seq<OceanCandidate>,
)
    requires
        cands.len() > 0,
    ensures
        ({
            let r = ocean_step(state, cands);
            let i = first_min_index(candidate_ids(cands));
            &&& is_first_min(candidate_ids(cands), i)
            &&& r.state.source == Some(cands[i].entity)
            &&& (r.projection is Apply ==> r.projection == OceanProjection::Apply {
                index: i as usize,
                insert_ocean: cands[i].ocean_enabled,
            })
        }),
{
    lemma_first_min_index(candidate_ids(cands));
}

/// Once an ocean has been projected, a pass over the same authored oceans
/// whose authoritative settings are still the ones projected writes nothing
/// and keeps the state.
pub proof fn unchanged_authoring_is_not_reprojected(
    state: OceanProjectionState,
    cands: Seq<OceanCandidate>,
    again: Seq<OceanCandidate>,
)
    requires
        cands.len() > 0,
        same_entities(cands, again),
        again[first_min_index(candidate_ids(again))].matches_last,
    ensures
        ({
            let first = ocean_step(state, cands);
            let second = ocean_step(first.state, again);
            second.projection == OceanProjection::Unchanged && second.state == first.state
        }),
{
    assert(candidate_ids(again).len() == again.len());
    assert(candidate_ids(cands).len() == cands.len());
    let i = first_min_index(candidate_ids(cands));
    lemma_first_min_index(candidate_ids(cands));
    assert(candidate_ids(cands)[i] == cands[i].entity);
    assert(candidate_ids(again)[i] == again[i].entity);
}

/// Settings that change, or an authoritative entity that changes, are
/// projected: a candidate that does not match what was projected last is
/// applied.
pub proof fn changed_authoring_is_projected(
    state: OceanProjectionState,
    cands: Seq<OceanCandidate>,
)
    requires
        cands.len() > 0,
        !cands[first_min_index(candidate_ids(cands))].matches_last,
    ensures
        ocean_step(state, cands).projection is Apply,
{
}

/// A new authoritative entity is projected even when its settings equal
/// the ones projected last.
pub proof fn new_authoritative_entity_is_projected(
    state: OceanProjectionState,
    cands: Seq<OceanCandidate>,
)
    requires
        cands.len() > 0,
        state.source != Some(cands[first_min_index(candidate_ids(cands))].entity),
    ensures
        ocean_step(state, cands).projection is Apply,
{
}

/// The warning about several authored oceans is given when they become
/// several, and the state remembers whether they are several.
pub proof fn several_oceans_warn_when_they_appear(
    state: OceanProjectionState,
    cands: Seq<OceanCandidate>,
)
    ensures
        ocean_step(state, cands).warn_multiple <==> (cands.len() > 1 && !state.warned_multiple),
        ocean_step(state, cands).state.warned_multiple <==> cands.len() > 1,
{
}

/// While several oceans stay authored the warning about them is given at
/// most once.
pub proof fn multiple_warning_is_given_once(
    state: OceanProjectionState,
    cands: Seq<OceanCandidate>,
    later: Seq<OceanCandidate>,
)
    requires
        cands.len() > 1,
        later.len() > 1,
    ensures
        !ocean_step(ocean_step(state, cands).state, later).warn_multiple,
{
}

/// When the last authored ocean goes away after one was projected, the
/// runtime state is reset, and only once.
pub proof fn removing_authoring_resets_once(
    state: OceanProjectionState,
    cands: Seq<OceanCandidate>,
)
    requires
        cands.len() > 0,
    ensures
        ({
            let projected = ocean_step(state, cands);
            let removed = ocean_step(projected.state, Seq::empty());
            let idle = ocean_step(removed.state, Seq::empty());
            &&& removed.projection == OceanProjection::Reset
            &&& idle.projection == OceanProjection::Unchanged
            &&& idle.state == initial_state()
        }),
{
}

/// The projection's state before its first pass.
pub fn new_projection_state() -> (r: OceanProjectionState)
    ensures
        r == initial_state(),
{
    OceanProjectionState { source: None, warned_multiple: false }
}

/// One projection pass over the authored oceans.
pub fn project_ocean_settings(
    state: &OceanProjectionState,
    candidates: &Vec<OceanCandidate>,
) -> (r: OceanProjectionStep)
    ensures
        r == ocean_step(*state, candidates@),
{
    let count = candidates.len();
    let several = count > 1;
    let warn = several && !state.warned_multiple;
    let mut ids: Vec<u64> = Vec::new();
    let mut k: usize = 0;
    while k < count
        invariant
            count == candidates@.len(),
            k <= count,
            ids@.len() == k,
            forall|j: int| 0 <= j < k ==> #[trigger] ids@[j] == candidates@[j].entity,
        decreases count - k,
    {
        ids.push(candidates[k].entity);
        k = k + 1;
    }
    assert(ids@ =~= candidate_ids(candidates@));
    match lowest_entity(&ids) {
        None => {
            let projection = match state.source {
                Some(_) => OceanProjection::Reset,
                None => OceanProjection::Unchanged,
            };
            OceanProjectionStep {
                state: OceanProjectionState { source: None, warned_multiple: false },
                projection,
                warn_multiple: false,
            }
        },
        Some(i) => {
            let c = candidates[i];
            let same_source = match state.source {
                Some(s) => s == c.entity,
                None => false,
            };
            if same_source && c.matches_last {
                OceanProjectionStep {
                    state: OceanProjectionState {
                        source: state.source,
                        warned_multiple: several,
                    },
                    projection: OceanProjection::Unchanged,
                    warn_multiple: warn,
                }
            } else {
                OceanProjectionStep {
                    state: OceanProjectionState {
                        source: Some(c.entity),
                        warned_multiple: several,
                    },
                    projection: OceanProjection::Apply { index: i, insert_ocean: c.ocean_enabled },
                    warn_multiple: warn,
                }
            }
        },
    }
}

} // verus!
