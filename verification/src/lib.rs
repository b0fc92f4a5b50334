//! Verified decision logic of the Aqua water integration for the BSN editor.
//!
//! The authored scene components are the authority; this library decides
//! how they are projected into Aqua's runtime state, how the editor adapts
//! its viewport camera and undoes that adaptation, and what the authoring
//! operators do. Entities appear as their `u64` ids.

pub mod authoring;
pub mod editor;
pub mod ocean;
pub mod selection;
pub mod viewport;
pub mod water_body;
