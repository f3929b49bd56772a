//! Model profile data read by the protocol layer.

use vstd::prelude::*;

verus! {

/// Noise-control capabilities of a model.
#[derive(Debug, Clone, PartialEq, Eq)]
pub struct NoiseProfile {
    pub supports_adaptive: bool,
    pub environments: Vec<u16>,
    pub max_custom_level: u8,
    pub supports_transparency_voice: bool,
}

pub struct NoiseProfileView {
    pub supports_adaptive: bool,
    pub environments: Seq<u16>,
    pub max_custom_level: u8,
    pub supports_transparency_voice: bool,
}

impl View for NoiseProfile {
    type V = NoiseProfileView;

    open spec fn view(&self) -> NoiseProfileView {
        NoiseProfileView {
            supports_adaptive: self.supports_adaptive,
            environments: self.environments@,
            max_custom_level: self.max_custom_level,
            supports_transparency_voice: self.supports_transparency_voice,
        }
    }
}

} // verus!
