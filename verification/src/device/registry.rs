//! Resolution of a discovered device to a catalog model and a profile.

use vstd::prelude::*;
use crate::protocol::models::{identified, identify, opt_model_view, ModelInfo, ModelView};
use crate::protocol::profile::{find_model_by_id, model_by_id, profile_from_model, profile_of, DeviceProfile, DeviceProfileView};

verus! {

#[derive(Debug, Clone, PartialEq, Eq)]
pub struct DeviceIdentity {
    pub address: String,
    pub name: String,
    pub advertised_service: Option<String>,
    pub manufacturer_data: Vec<u8>,
}

#[derive(Debug, Clone, Copy, PartialEq, Eq, Structural)]
pub enum ResolutionSource {
    CatalogName,
    ExplicitModel,
    Unknown,
}

#[derive(Debug, Clone)]
pub struct ResolvedDevice {
    pub identity: DeviceIdentity,
    pub model: Option<ModelInfo>,
    pub profile: DeviceProfile,
    pub source: ResolutionSource,
}

pub struct DeviceRegistry;

/// Profile given to a device: that of its model, or, without a model, that of
/// whatever its advertised name identifies.
pub open spec fn resolved_profile(name: Seq<char>, model: Option<ModelView>) -> DeviceProfileView {
    match model {
        Some(m) => profile_of(Some(m)),
        None => profile_of(identified(name)),
    }
}

/// The resolution source reported: `Unknown` whenever no model was found.
pub open spec fn resolved_source(model: Option<ModelView>, source: ResolutionSource) -> ResolutionSource {
    if model is None { ResolutionSource::Unknown } else { source }
}

impl DeviceRegistry {
    /// Resolve by the advertised name.
    pub fn resolve(identity: DeviceIdentity) -> (r: ResolvedDevice)
        ensures
            r.identity == identity,
            opt_model_view(r.model) == identified(identity.name@),
            r.profile@ == resolved_profile(identity.name@, identified(identity.name@)),
            r.source == resolved_source(identified(identity.name@), ResolutionSource::CatalogName),
    {
        let model = identify(identity.name.as_str());
        Self::finish(identity, model, ResolutionSource::CatalogName)
    }

    /// Resolve by an explicit catalog id, whatever the advertised name says.
    pub fn resolve_with_model(identity: DeviceIdentity, model_id: &str) -> (r: ResolvedDevice)
        ensures
            r.identity == identity,
            opt_model_view(r.model) == model_by_id(model_id@),
            r.profile@ == resolved_profile(identity.name@, model_by_id(model_id@)),
            r.source == resolved_source(model_by_id(model_id@), ResolutionSource::ExplicitModel),
    {
        let model = find_model_by_id(model_id);
        let source = if model.is_some() { ResolutionSource::ExplicitModel } else { ResolutionSource::Unknown };
        Self::finish(identity, model, source)
    }

    fn finish(identity: DeviceIdentity, model: Option<ModelInfo>, source: ResolutionSource) -> (r: ResolvedDevice)
        ensures
            r.identity == identity,
            r.model == model,
            r.profile@ == resolved_profile(identity.name@, opt_model_view(model)),
            r.source == resolved_source(opt_model_view(model), source),
    {
        let profile = match &model {
            Some(item) => profile_from_model(Some(item)),
            None => {
                let named = identify(identity.name.as_str());
                profile_from_model(named.as_ref())
            },
        };
        let source = if model.is_none() { ResolutionSource::Unknown } else { source };
        ResolvedDevice { identity, model, profile, source }
    }
}

} // verus!
