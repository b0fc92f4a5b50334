use bevy_aqua_bsn::authoring::{AquaSeaState, SeaState};
use bevy_aqua_bsn::ocean::{
    new_projection_state, project_ocean_settings, OceanCandidate, OceanProjection,
    OceanProjectionState,
};

fn candidate(entity: u64, ocean_enabled: bool, matches_last: bool) -> OceanCandidate {
    OceanCandidate { entity, ocean_enabled, matches_last }
}

#[test]
fn authored_ocean_projects_resources_and_can_disable_unbounded_water() {
    let state = new_projection_state();
    let step = project_ocean_settings(&state, &vec![candidate(4, true, false)]);
    assert_eq!(step.projection, OceanProjection::Apply { index: 0, insert_ocean: true });
    assert_eq!(SeaState::from(AquaSeaState::Rough), SeaState::Rough);

    // The authored settings change: the ocean is disabled.
    let step = project_ocean_settings(&step.state, &vec![candidate(4, false, false)]);
    assert_eq!(step.projection, OceanProjection::Apply { index: 0, insert_ocean: false });
}

#[test]
fn lowest_entity_id_is_authoritative() {
    let state = new_projection_state();
    let cands = vec![candidate(9, true, false), candidate(3, false, false), candidate(5, true, false)];
    let step = project_ocean_settings(&state, &cands);
    assert_eq!(step.projection, OceanProjection::Apply { index: 1, insert_ocean: false });
    assert_eq!(step.state.source, Some(3));
    assert!(step.warn_multiple);
    assert!(step.state.warned_multiple);
}

#[test]
fn unchanged_settings_are_not_projected_again() {
    let state = new_projection_state();
    let step = project_ocean_settings(&state, &vec![candidate(2, true, false)]);
    let again = project_ocean_settings(&step.state, &vec![candidate(2, true, true)]);
    assert_eq!(again.projection, OceanProjection::Unchanged);
    assert_eq!(again.state, step.state);
}

#[test]
fn new_authoritative_entity_is_projected_even_with_equal_settings() {
    let state = OceanProjectionState { source: Some(8), warned_multiple: false };
    let step = project_ocean_settings(&state, &vec![candidate(6, true, true)]);
    assert_eq!(step.projection, OceanProjection::Apply { index: 0, insert_ocean: true });
    assert_eq!(step.state.source, Some(6));
}

#[test]
fn multiple_oceans_warn_once() {
    let state = new_projection_state();
    let cands = vec![candidate(1, true, false), candidate(2, true, false)];
    let first = project_ocean_settings(&state, &cands);
    assert!(first.warn_multiple);
    let second = project_ocean_settings(&first.state, &cands);
    assert!(!second.warn_multiple);
    // Back to one ocean, then several again: the warning is given anew.
    let single = project_ocean_settings(&second.state, &vec![candidate(1, true, true)]);
    assert!(!single.state.warned_multiple);
    let third = project_ocean_settings(&single.state, &cands);
    assert!(third.warn_multiple);
}

#[test]
fn removing_the_last_ocean_resets_once() {
    let state = new_projection_state();
    let step = project_ocean_settings(&state, &vec![candidate(2, true, false)]);
    let removed = project_ocean_settings(&step.state, &vec![]);
    assert_eq!(removed.projection, OceanProjection::Reset);
    assert_eq!(removed.state, new_projection_state());
    let idle = project_ocean_settings(&removed.state, &vec![]);
    assert_eq!(idle.projection, OceanProjection::Unchanged);
}
