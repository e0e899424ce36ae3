//! The rim-lighting outline's identity.
//!
//! The rim effect registers its shader under one fixed weak-handle id, and
//! every handle to that shader — the label's own handle, the one the shader
//! is loaded under, and the one the fragment stage names — is built from
//! this same id. The host turns the id into an engine asset handle.

use vstd::prelude::*;

verus! {

/// Label of the rim-effect outline: a Fresnel-saturation effect on the
/// mesh edge. The host's copy of this label carries the engine's component
/// machinery; this one carries the effect's identity.
#[derive(Clone, Copy, Debug, Default, Hash, PartialEq, Eq, Structural)]
pub struct RimEffect;

impl RimEffect {
    /// The id of the weak asset handle under which the rim shader
    /// registers. Every handle to the shader comes from this one id, so
    /// loading and use can never name different assets.
    pub fn shader_id() -> (r: u128)
        ensures
            r == 42572727525244273574u128,
    {
        42572727525244273574u128
    }
}

} // verus!
