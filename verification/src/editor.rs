//! The editor extension's identity and its authoring operators.
use vstd::prelude::*;
use crate::selection::{first_min_index, lemma_first_min_index, lowest_entity};

verus! {

/// The extension's identifier in the editor.
pub const AQUA_EXTENSION_ID: &'static str = "bevy_aqua.editor";

/// The extension's label in the editor.
pub const AQUA_EXTENSION_LABEL: &'static str = "Aqua Water";

/// The extension's description in the editor.
pub const AQUA_EXTENSION_DESCRIPTION: &'static str =
    "Ocean, lake and river authoring with live Aqua viewport preview.";

/// Reversible editor authoring and viewport integration for Aqua.
#[derive(Default, Debug, Clone, Copy)]
pub struct AquaEditorExtension;

/// The directory-installable package of [`AquaEditorExtension`]; it answers
/// every question as the editor extension does.
#[derive(Default, Debug, Clone, Copy)]
pub struct AquaExtension;

impl AquaEditorExtension {
    /// The extension's identifier.
    pub fn id(&self) -> (r: String)
        ensures
            r@ == AQUA_EXTENSION_ID@,
    {
        AQUA_EXTENSION_ID.to_owned()
    }

    /// The extension's label.
    pub fn label(&self) -> (r: String)
        ensures
            r@ == AQUA_EXTENSION_LABEL@,
    {
        AQUA_EXTENSION_LABEL.to_owned()
    }

    /// The extension's description.
    pub fn description(&self) -> (r: String)
        ensures
            r@ == AQUA_EXTENSION_DESCRIPTION@,
    {
        AQUA_EXTENSION_DESCRIPTION.to_owned()
    }
}

impl AquaExtension {
    /// The packaged extension's identifier: the editor extension's.
    pub fn id(&self) -> (r: String)
        ensures
            r@ == AQUA_EXTENSION_ID@,
    {
        AquaEditorExtension.id()
    }

    /// The packaged extension's label: the editor extension's.
    pub fn label(&self) -> (r: String)
        ensures
            r@ == AQUA_EXTENSION_LABEL@,
    {
        AquaEditorExtension.label()
    }

    /// The packaged extension's description: the editor extension's.
    pub fn description(&self) -> (r: String)
        ensures
            r@ == AQUA_EXTENSION_DESCRIPTION@,
    {
        AquaEditorExtension.description()
    }
}

/// A component type that an authoring operator writes into the scene
/// document.
#[derive(Clone, Copy, Debug, PartialEq, Eq, Structural)]
pub enum AuthoredComponent {
    OceanSettings,
    WaterBodySettings,
    Transform,
    Visibility,
}

/// The authoring operators that the extension registers.
#[derive(Clone, Copy, Debug, PartialEq, Eq, Structural)]
pub enum AquaOperator {
    AddOcean,
    AddLake,
    AddRiver,
}

/// What the "Aqua Ocean" operator does.
#[derive(Clone, Copy, Debug, PartialEq, Eq, Structural)]
pub enum AddOceanAction {
    /// Select this existing ocean entity.
    SelectExisting(u64),
    /// Spawn a new ocean entity, author it and select it.
    SpawnNew,
}

/// The Aqua settings component that an operator's entity carries.
pub open spec fn operator_settings(op: AquaOperator) -> AuthoredComponent {
    match op {
        AquaOperator::AddOcean => AuthoredComponent::OceanSettings,
        _ => AuthoredComponent::WaterBodySettings,
    }
}

/// The component types written into the document for a newly authored
/// entity: the given ones, then its transform and its visibility.
pub open spec fn authored_list(components: Seq<AuthoredComponent>) -> Seq<AuthoredComponent> {
    components + seq![AuthoredComponent::Transform, AuthoredComponent::Visibility]
}

/// The authored list keeps the given components unchanged and in order, and
/// then adds the transform and the visibility.
pub proof fn authored_list_keeps_given_components(components: Seq<AuthoredComponent>)
    ensures
        authored_list(components).len() == components.len() + 2,
        forall|i: int|
            0 <= i < components.len() ==> #[trigger] authored_list(components)[i] == components[i],
        authored_list(components)[components.len() as int] == AuthoredComponent::Transform,
        authored_list(components)[components.len() as int + 1] == AuthoredComponent::Visibility,
{
}

/// Each operator's entity carries the settings of its kind: the ocean
/// operator ocean settings, the lake and river operators water-body
/// settings.
pub proof fn operator_settings_match_kind()
    ensures
        operator_settings(AquaOperator::AddOcean) == AuthoredComponent::OceanSettings,
        operator_settings(AquaOperator::AddLake) == AuthoredComponent::WaterBodySettings,
        operator_settings(AquaOperator::AddRiver) == AuthoredComponent::WaterBodySettings,
{
}

/// What the "Aqua Ocean" operator does, given the entities that already
/// carry ocean settings.
pub open spec fn add_ocean_spec(existing: Seq<u64>) -> AddOceanAction {
    if existing.len() == 0 {
        AddOceanAction::SpawnNew
    } else {
        AddOceanAction::SelectExisting(existing[first_min_index(existing)])
    }
}

impl AquaOperator {
    /// The Aqua settings component of the entity that this operator spawns.
    pub fn settings_component(self) -> (r: AuthoredComponent)
        ensures
            r == operator_settings(self),
    {
        match self {
            AquaOperator::AddOcean => AuthoredComponent::OceanSettings,
            AquaOperator::AddLake => AuthoredComponent::WaterBodySettings,
            AquaOperator::AddRiver => AuthoredComponent::WaterBodySettings,
        }
    }
}

/// The component types to write into the document for a newly authored
/// entity, in order: the given ones, then its transform and its visibility.
pub fn author_entity(components: &Vec<AuthoredComponent>) -> (r: Vec<AuthoredComponent>)
    ensures
        r@ == authored_list(components@),
        r@.len() == components@.len() + 2,
        forall|i: int| 0 <= i < components@.len() ==> #[trigger] r@[i] == components@[i],
        r@[components@.len() as int] == AuthoredComponent::Transform,
        r@[components@.len() as int + 1] == AuthoredComponent::Visibility,
{
    let mut out: Vec<AuthoredComponent> = Vec::new();
    let mut k: usize = 0;
    while k < components.len()
        invariant
            k <= components@.len(),
            out@ == components@.take(k as int),
        decreases components@.len() - k,
    {
        out.push(components[k]);
        assert(components@.take(k as int + 1) =~= components@.take(k as int).push(components@[k as int]));
        k = k + 1;
    }
    out.push(AuthoredComponent::Transform);
    out.push(AuthoredComponent::Visibility);
    assert(components@.take(components@.len() as int) =~= components@);
    assert(out@ =~= authored_list(components@));
    out
}

/// The "Aqua Ocean" operator: with an ocean already authored it selects
/// the one with the lowest entity id; otherwise a new one is spawned.
pub fn aqua_add_ocean(existing: &Vec<u64>) -> (r: AddOceanAction)
    ensures
        r == add_ocean_spec(existing@),
{
    match lowest_entity(existing) {
        Some(i) => AddOceanAction::SelectExisting(existing[i]),
        None => AddOceanAction::SpawnNew,
    }
}

/// Repeating "Aqua Ocean" selects the existing global ocean: once an ocean
/// exists the operator never spawns a second one, and after it spawned the
/// only ocean the next use selects that ocean.
pub proof fn repeating_add_ocean_selects_existing(existing: Seq<u64>, spawned: u64)
    ensures
        existing.len() > 0 ==> add_ocean_spec(existing) is SelectExisting,
        existing.len() > 0 ==> existing.contains(add_ocean_spec(existing)->SelectExisting_0),
        existing.len() > 0 ==> forall|j: int|
            0 <= j < existing.len() ==> add_ocean_spec(existing)->SelectExisting_0
                <= #[trigger] existing[j],
        existing.len() == 0 ==> add_ocean_spec(existing) == AddOceanAction::SpawnNew,
        add_ocean_spec(seq![spawned]) == AddOceanAction::SelectExisting(spawned),
{
    if existing.len() > 0 {
        lemma_first_min_index(existing);
        let i = first_min_index(existing);
        assert(existing[i] == add_ocean_spec(existing)->SelectExisting_0);
    }
    assert(seq![spawned].len() == 1);
}

} // verus!
