use bevy_aqua_bsn::editor::{
    aqua_add_ocean, author_entity, AddOceanAction, AquaEditorExtension, AquaExtension,
    AquaOperator, AuthoredComponent,
};
use bevy_aqua_bsn::authoring::{
    AquaOpticsPreset, AquaSeaState, AquaWaveModel, SeaState, WaterOpticsPreset, WaveModel,
};
use bevy_aqua_bsn::selection::lowest_entity;

#[test]
fn extension_identity() {
    assert_eq!(AquaEditorExtension.id(), "bevy_aqua.editor");
    assert_eq!(AquaEditorExtension.label(), "Aqua Water");
    assert_eq!(
        AquaEditorExtension.description(),
        "Ocean, lake and river authoring with live Aqua viewport preview."
    );
}

#[test]
fn package_reports_the_editor_extension_identity() {
    assert_eq!(AquaExtension.id(), AquaEditorExtension.id());
    assert_eq!(AquaExtension.label(), AquaEditorExtension.label());
    assert_eq!(AquaExtension.description(), AquaEditorExtension.description());
}

#[test]
fn repeating_aqua_ocean_selects_the_existing_ocean() {
    assert_eq!(aqua_add_ocean(&vec![]), AddOceanAction::SpawnNew);
    assert_eq!(aqua_add_ocean(&vec![42]), AddOceanAction::SelectExisting(42));
    assert_eq!(aqua_add_ocean(&vec![42, 17, 30]), AddOceanAction::SelectExisting(17));
}

#[test]
fn authoring_writes_transform_and_visibility_last() {
    let list = author_entity(&vec![AquaOperator::AddLake.settings_component()]);
    assert_eq!(
        list,
        vec![
            AuthoredComponent::WaterBodySettings,
            AuthoredComponent::Transform,
            AuthoredComponent::Visibility
        ]
    );
    assert_eq!(AquaOperator::AddOcean.settings_component(), AuthoredComponent::OceanSettings);
    assert_eq!(AquaOperator::AddRiver.settings_component(), AuthoredComponent::WaterBodySettings);
    assert_eq!(author_entity(&vec![]), vec![AuthoredComponent::Transform, AuthoredComponent::Visibility]);
}

#[test]
fn authoring_defaults() {
    assert_eq!(AquaWaveModel::default(), AquaWaveModel::Analytic);
    assert_eq!(AquaSeaState::default(), AquaSeaState::Moderate);
    assert_eq!(AquaOpticsPreset::default(), AquaOpticsPreset::DeepOcean);
}

#[test]
fn runtime_conversions() {
    assert_eq!(WaveModel::from(AquaWaveModel::Spectral), WaveModel::Spectral);
    assert_eq!(WaveModel::from(AquaWaveModel::Analytic), WaveModel::Analytic);
    assert_eq!(SeaState::from(AquaSeaState::Calm), SeaState::Calm);
    assert_eq!(SeaState::from(AquaSeaState::Moderate), SeaState::Moderate);
    assert_eq!(AquaOpticsPreset::DeepOcean.runtime(), WaterOpticsPreset::DeepOcean);
    assert_eq!(AquaOpticsPreset::Coastal.runtime(), WaterOpticsPreset::Coastal);
    assert_eq!(AquaOpticsPreset::ClearFresh.runtime(), WaterOpticsPreset::ClearFresh);
}

#[test]
fn lowest_entity_picks_first_smallest() {
    assert_eq!(lowest_entity(&vec![]), None);
    assert_eq!(lowest_entity(&vec![5]), Some(0));
    assert_eq!(lowest_entity(&vec![5, 2, 8, 2]), Some(1));
    assert_eq!(lowest_entity(&vec![u64::MAX, 0]), Some(1));
}
