//! The discrete scene-authoring choices and their runtime counterparts.
//!
//! Authored components are the serialized authority; each choice maps to
//! exactly one runtime value, and runtime values are never written back.
use vstd::prelude::*;

verus! {

/// The authored wave model.
#[derive(Clone, Copy, Debug, PartialEq, Eq, Structural)]
pub enum AquaWaveModel {
    Analytic,
    Spectral,
}

/// The authored sea state.
#[derive(Clone, Copy, Debug, PartialEq, Eq, Structural)]
pub enum AquaSeaState {
    Calm,
    Moderate,
    Rough,
}

/// The authored water optics preset.
#[derive(Clone, Copy, Debug, PartialEq, Eq, Structural)]
pub enum AquaOpticsPreset {
    DeepOcean,
    Coastal,
    Tropical,
    ClearFresh,
}

/// The runtime wave model.
#[derive(Clone, Copy, Debug, PartialEq, Eq, Structural)]
pub enum WaveModel {
    Analytic,
    Spectral,
}

/// The runtime sea state.
#[derive(Clone, Copy, Debug, PartialEq, Eq, Structural)]
pub enum SeaState {
    Calm,
    Moderate,
    Rough,
}

/// Which of the runtime's named water optics constants a value is.
#[derive(Clone, Copy, Debug, PartialEq, Eq, Structural)]
pub enum WaterOpticsPreset {
    DeepOcean,
    Coastal,
    Tropical,
    ClearFresh,
}

impl Default for AquaWaveModel {
    fn default() -> (r: Self)
        ensures
            r == AquaWaveModel::Analytic,
    {
        AquaWaveModel::Analytic
    }
}

impl Default for AquaSeaState {
    fn default() -> (r: Self)
        ensures
            r == AquaSeaState::Moderate,
    {
        AquaSeaState::Moderate
    }
}

impl Default for AquaOpticsPreset {
    fn default() -> (r: Self)
        ensures
            r == AquaOpticsPreset::DeepOcean,
    {
        AquaOpticsPreset::DeepOcean
    }
}

/// The runtime wave model of an authored one.
pub open spec fn wave_model_runtime(value: AquaWaveModel) -> WaveModel {
    match value {
        AquaWaveModel::Analytic => WaveModel::Analytic,
        AquaWaveModel::Spectral => WaveModel::Spectral,
    }
}

/// The runtime sea state of an authored one.
pub open spec fn sea_state_runtime(value: AquaSeaState) -> SeaState {
    match value {
        AquaSeaState::Calm => SeaState::Calm,
        AquaSeaState::Moderate => SeaState::Moderate,
        AquaSeaState::Rough => SeaState::Rough,
    }
}

/// The runtime optics constant of an authored preset.
pub open spec fn optics_runtime(value: AquaOpticsPreset) -> WaterOpticsPreset {
    match value {
        AquaOpticsPreset::DeepOcean => WaterOpticsPreset::DeepOcean,
        AquaOpticsPreset::Coastal => WaterOpticsPreset::Coastal,
        AquaOpticsPreset::Tropical => WaterOpticsPreset::Tropical,
        AquaOpticsPreset::ClearFresh => WaterOpticsPreset::ClearFresh,
    }
}

impl From<AquaWaveModel> for WaveModel {
    fn from(value: AquaWaveModel) -> (r: Self) {
        match value {
            AquaWaveModel::Analytic => WaveModel::Analytic,
            AquaWaveModel::Spectral => WaveModel::Spectral,
        }
    }
}

impl vstd::std_specs::convert::FromSpecImpl<AquaWaveModel> for WaveModel {
    open spec fn obeys_from_spec() -> bool {
        true
    }

    open spec fn from_spec(v: AquaWaveModel) -> WaveModel {
        wave_model_runtime(v)
    }
}

impl From<AquaSeaState> for SeaState {
    fn from(value: AquaSeaState) -> (r: Self) {
        match value {
            AquaSeaState::Calm => SeaState::Calm,
            AquaSeaState::Moderate => SeaState::Moderate,
            AquaSeaState::Rough => SeaState::Rough,
        }
    }
}

impl vstd::std_specs::convert::FromSpecImpl<AquaSeaState> for SeaState {
    open spec fn obeys_from_spec() -> bool {
        true
    }

    open spec fn from_spec(v: AquaSeaState) -> SeaState {
        sea_state_runtime(v)
    }
}

impl AquaOpticsPreset {
    /// The runtime optics constant that this preset selects.
    pub fn runtime(self) -> (r: WaterOpticsPreset)
        ensures
            r == optics_runtime(self),
            self == AquaOpticsPreset::DeepOcean ==> r == WaterOpticsPreset::DeepOcean,
            self == AquaOpticsPreset::Coastal ==> r == WaterOpticsPreset::Coastal,
            self == AquaOpticsPreset::Tropical ==> r == WaterOpticsPreset::Tropical,
            self == AquaOpticsPreset::ClearFresh ==> r == WaterOpticsPreset::ClearFresh,
    {
        match self {
            AquaOpticsPreset::DeepOcean => WaterOpticsPreset::DeepOcean,
            AquaOpticsPreset::Coastal => WaterOpticsPreset::Coastal,
            AquaOpticsPreset::Tropical => WaterOpticsPreset::Tropical,
            AquaOpticsPreset::ClearFresh => WaterOpticsPreset::ClearFresh,
        }
    }
}

/// Each authored optics preset selects the runtime optics constant of the
/// same name.
pub proof fn optics_preset_maps_to_same_name()
    ensures
        optics_runtime(AquaOpticsPreset::DeepOcean) == WaterOpticsPreset::DeepOcean,
        optics_runtime(AquaOpticsPreset::Coastal) == WaterOpticsPreset::Coastal,
        optics_runtime(AquaOpticsPreset::Tropical) == WaterOpticsPreset::Tropical,
        optics_runtime(AquaOpticsPreset::ClearFresh) == WaterOpticsPreset::ClearFresh,
{
}

/// No two authored optics presets select the same runtime optics.
pub proof fn optics_runtime_is_injective(a: AquaOpticsPreset, b: AquaOpticsPreset)
    ensures
        optics_runtime(a) == optics_runtime(b) ==> a == b,
{
}

/// Each authored wave model and sea state becomes the runtime value of the
/// same name.
pub proof fn wave_model_and_sea_state_map_to_same_name()
    ensures
        wave_model_runtime(AquaWaveModel::Analytic) == WaveModel::Analytic,
        wave_model_runtime(AquaWaveModel::Spectral) == WaveModel::Spectral,
        sea_state_runtime(AquaSeaState::Calm) == SeaState::Calm,
        sea_state_runtime(AquaSeaState::Moderate) == SeaState::Moderate,
        sea_state_runtime(AquaSeaState::Rough) == SeaState::Rough,
{
}

} // verus!
