//! Runtime device profile: which protocol family drives a model and which
//! noise controls it offers.

use vstd::prelude::*;
use super::models::{
    all_models, catalog, identified, identify, model_views, opt_model_view, ModelInfo, ModelView,
    ProtocolFamily, SupportLevel,
};
use crate::catalog::types::{NoiseProfile, NoiseProfileView};
use crate::text::{contains_seq, str_contains, str_eq};

verus! {

/// Profile resolved for a connected device.
#[derive(Debug, Clone, PartialEq, Eq)]
pub struct DeviceProfile {
    pub protocol: ProtocolFamily,
    /// Commands of this model were verified on hardware
    pub verified: bool,
    pub noise: NoiseProfile,
}

pub struct DeviceProfileView {
    pub protocol: ProtocolFamily,
    pub verified: bool,
    pub noise: NoiseProfileView,
}

impl View for DeviceProfile {
    type V = DeviceProfileView;

    open spec fn view(&self) -> DeviceProfileView {
        DeviceProfileView { protocol: self.protocol, verified: self.verified, noise: self.noise@ }
    }
}

/// Adaptive-ANC environments of the verified models.
pub open spec fn verified_environments() -> Seq<u16> {
    seq![101u16, 102u16, 103u16, 108u16]
}

/// Noise controls of a model: none without ANC; with ANC, custom levels up to 3
/// for "lite" models and 5 otherwise; adaptive environments and the voice
/// transparency mode only on verified models.
pub open spec fn noise_of(m: ModelView) -> NoiseProfileView {
    let verified = m.support == SupportLevel::Verified;
    if !m.has_anc {
        NoiseProfileView {
            supports_adaptive: false,
            environments: Seq::empty(),
            max_custom_level: 0,
            supports_transparency_voice: false,
        }
    } else {
        NoiseProfileView {
            supports_adaptive: verified,
            environments: if verified { verified_environments() } else { Seq::empty() },
            max_custom_level: if contains_seq(m.id, "lite"@) { 3 } else { 5 },
            supports_transparency_voice: verified,
        }
    }
}

/// Profile of a resolved model: verified models use the BP1 family, other
/// catalog models the experimental BA/AA family; no model, no protocol.
pub open spec fn profile_of(m: Option<ModelView>) -> DeviceProfileView {
    match m {
        Some(x) => DeviceProfileView {
            protocol: if x.support == SupportLevel::Verified {
                ProtocolFamily::Bp1Pro
            } else {
                ProtocolFamily::BaseusAaBaExperimental
            },
            verified: x.support == SupportLevel::Verified,
            noise: noise_of(x),
        },
        None => DeviceProfileView {
            protocol: ProtocolFamily::Unknown,
            verified: false,
            noise: NoiseProfileView {
                supports_adaptive: false,
                environments: Seq::empty(),
                max_custom_level: 0,
                supports_transparency_voice: false,
            },
        },
    }
}

/// Index of the first catalog model with the given id.
pub open spec fn first_with_id(id: Seq<char>, i: int) -> bool {
    0 <= i < catalog().len() && catalog()[i].id == id
        && forall|k: int| 0 <= k < i ==> catalog()[k].id != id
}

/// The catalog model with the given id (the first one, should ids repeat).
pub open spec fn model_by_id(id: Seq<char>) -> Option<ModelView> {
    if exists|i: int| 0 <= i < catalog().len() && #[trigger] catalog()[i].id == id {
        let i = choose|i: int| first_with_id(id, i);
        Some(catalog()[i])
    } else {
        None
    }
}

pub open spec fn opt_str(o: Option<&str>) -> Option<Seq<char>> {
    match o {
        Some(s) => Some(s@),
        None => None,
    }
}

/// Model a profile is resolved from: the explicit id when it is in the catalog,
/// else the model name, else the BLE name.
pub open spec fn resolve_spec(model_id: Option<Seq<char>>, model_name: Option<Seq<char>>, ble_name: Option<Seq<char>>) -> Option<ModelView> {
    let by_id = match model_id {
        Some(id) => model_by_id(id),
        None => None,
    };
    if by_id is Some {
        by_id
    } else {
        match model_name {
            Some(n) => identified(n),
            None => match ble_name {
                Some(b) => identified(b),
                None => None,
            },
        }
    }
}

/// Look a model up by catalog id.
pub fn find_model_by_id(id: &str) -> (r: Option<ModelInfo>)
    ensures
        opt_model_view(r) == model_by_id(id@),
{
    let mut models = all_models();
    let ghost mv = model_views(models@);
    let mut i: usize = 0;
    while i < models.len()
        invariant
            mv == catalog(),
            mv == model_views(models@),
            i <= models.len(),
            forall|k: int| 0 <= k < i ==> catalog()[k].id != id@,
        decreases models.len() - i,
    {
        assert(models@[i as int]@ == mv[i as int]);
        if str_eq(models[i].id.as_str(), id) {
            let m = models.remove(i);
            proof {
                assert(first_with_id(id@, i as int));
                let c = choose|c: int| first_with_id(id@, c);
                if c < i {
                } else if c > i {
                    assert(catalog()[i as int].id == id@);
                }
            }
            return Some(m);
        }
        i = i + 1;
    }
    None
}

fn noise_for(m: &ModelInfo) -> (r: NoiseProfile)
    ensures
        r@ == noise_of(m@),
{
    let verified = match m.support {
        SupportLevel::Verified => true,
        _ => false,
    };
    if !m.has_anc {
        let r = NoiseProfile {
            supports_adaptive: false,
            environments: Vec::new(),
            max_custom_level: 0,
            supports_transparency_voice: false,
        };
        assert(r@.environments =~= Seq::<u16>::empty());
        return r;
    }
    let environments: Vec<u16> = if verified { vec![101, 102, 103, 108] } else { Vec::new() };
    assert(environments@ =~= (if verified { verified_environments() } else { Seq::<u16>::empty() }));
    NoiseProfile {
        supports_adaptive: verified,
        environments,
        max_custom_level: if str_contains(m.id.as_str(), "lite") { 3 } else { 5 },
        supports_transparency_voice: verified,
    }
}

/// Profile of a resolved model (or of no model).
pub fn profile_from_model(m: Option<&ModelInfo>) -> (r: DeviceProfile)
    ensures
        r@ == profile_of(match m { Some(x) => Some(x@), None => None }),
{
    match m {
        Some(x) => {
            let verified = match x.support {
                SupportLevel::Verified => true,
                _ => false,
            };
            DeviceProfile {
                protocol: if verified { ProtocolFamily::Bp1Pro } else { ProtocolFamily::BaseusAaBaExperimental },
                verified,
                noise: noise_for(x),
            }
        },
        None => {
            let r = DeviceProfile {
                protocol: ProtocolFamily::Unknown,
                verified: false,
                noise: NoiseProfile {
                    supports_adaptive: false,
                    environments: Vec::new(),
                    max_custom_level: 0,
                    supports_transparency_voice: false,
                },
            };
            assert(r@.noise.environments =~= Seq::<u16>::empty());
            r
        },
    }
}

/// Resolve a device profile from a catalog id, a model name or a BLE name.
pub fn profile_for(model_id: Option<&str>, model_name: Option<&str>, ble_name: Option<&str>) -> (r: DeviceProfile)
    ensures
        r@ == profile_of(resolve_spec(opt_str(model_id), opt_str(model_name), opt_str(ble_name))),
{
    let by_id = match model_id {
        Some(id) => find_model_by_id(id),
        None => None,
    };
    let model = match by_id {
        Some(m) => Some(m),
        None => match model_name {
            Some(n) => identify(n),
            None => match ble_name {
                Some(b) => identify(b),
                None => None,
            },
        },
    };
    match model {
        Some(m) => profile_from_model(Some(&m)),
        None => profile_from_model(None),
    }
}

} // verus!
