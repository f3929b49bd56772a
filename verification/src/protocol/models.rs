//! Baseus earbud model registry.
//!
//! Listening devices only (TWS / open-ear / headset / neck), as listed by the
//! official app 2.14.1.
//!
//! SupportLevel:
//!   Verified     — packet table confirmed on real hardware
//!   Experimental — listed in the official app; tries BP1-compatible GATT/framing
//!   ScanOnly     — recognised in the scan UI only

use vstd::prelude::*;
use super::advertisement::BASEUS_SERVICE_UUID;
use crate::text::{ascii_lowercase, chars_contain, contains_seq, is_ascii_text, lowercase, str_chars, to_lowercase};

verus! {

#[derive(Debug, Clone, Copy, PartialEq, Eq, Structural)]
pub enum SupportLevel {
    Verified,
    Experimental,
    ScanOnly,
}

#[derive(Debug, Clone, Copy, PartialEq, Eq, Structural)]
pub enum ProtocolFamily {
    /// BP1 Pro / Ultra family — AA/BA frames, service 53527aa4-…, verified
    Bp1Pro,
    /// Same BA/AA opcode space, tried best-effort on models not verified on hardware
    BaseusAaBaExperimental,
    Unknown,
}

/// Features a model exposes in the listening UI.
#[derive(Debug, Clone, Copy, PartialEq, Eq, Structural)]
pub struct Capabilities {
    pub anc: bool,
    pub eq: bool,
    pub game_mode: bool,
    pub bass_boost: bool,
    pub ldac: bool,
    pub hearing_protection: bool,
}

/// How a model is reached over BLE.
#[derive(Debug, Clone, PartialEq, Eq)]
pub struct Transport {
    pub service_uuid: Option<String>,
}

#[derive(Debug, Clone)]
pub struct ModelInfo {
    pub id: String,
    pub display_name: String,
    pub name_patterns: Vec<String>,
    pub support: SupportLevel,
    pub protocol: ProtocolFamily,
    pub has_anc: bool,
    pub has_eq: bool,
    pub has_game_mode: bool,
    pub category: String,
    /// UI grouping (from official app families)
    pub group: String,
    pub capabilities: Capabilities,
    pub transport: Transport,
    /// Where the product picture comes from ("fallback": generic ear asset)
    pub image_provenance: String,
}

pub struct ModelView {
    pub id: Seq<char>,
    pub display_name: Seq<char>,
    pub name_patterns: Seq<Seq<char>>,
    pub support: SupportLevel,
    pub protocol: ProtocolFamily,
    pub has_anc: bool,
    pub has_eq: bool,
    pub has_game_mode: bool,
    pub category: Seq<char>,
    pub group: Seq<char>,
    pub capabilities: Capabilities,
    pub service_uuid: Option<Seq<char>>,
    pub image_provenance: Seq<char>,
}

pub open spec fn string_texts(v: Seq<String>) -> Seq<Seq<char>> {
    v.map_values(|s: String| s@)
}

impl View for ModelInfo {
    type V = ModelView;

    open spec fn view(&self) -> ModelView {
        ModelView {
            id: self.id@,
            display_name: self.display_name@,
            name_patterns: string_texts(self.name_patterns@),
            support: self.support,
            protocol: self.protocol,
            has_anc: self.has_anc,
            has_eq: self.has_eq,
            has_game_mode: self.has_game_mode,
            category: self.category@,
            group: self.group@,
            capabilities: self.capabilities,
            service_uuid: match self.transport.service_uuid {
                Some(s) => Some(s@),
                None => None,
            },
            image_provenance: self.image_provenance@,
        }
    }
}

pub open spec fn model_views(v: Seq<ModelInfo>) -> Seq<ModelView> {
    v.map_values(|mi: ModelInfo| mi@)
}

/// Capabilities of a catalog row: ANC, EQ and game mode as listed; bass boost
/// goes with EQ; LDAC and hearing protection are not claimed for any model.
pub open spec fn row_capabilities(anc: bool, eq: bool, game: bool) -> Capabilities {
    Capabilities { anc, eq, game_mode: game, bass_boost: eq, ldac: false, hearing_protection: false }
}

/// A catalog entry: name patterns are stored in ASCII lowercase, every model is
/// reached through the Baseus service and shown with the generic picture.
pub open spec fn model_spec(
    id: Seq<char>,
    display: Seq<char>,
    patterns: Seq<Seq<char>>,
    support: SupportLevel,
    protocol: ProtocolFamily,
    anc: bool,
    eq: bool,
    game: bool,
    category: Seq<char>,
    group: Seq<char>,
) -> ModelView {
    ModelView {
        id,
        display_name: display,
        name_patterns: patterns.map_values(|p: Seq<char>| ascii_lowercase(p)),
        support,
        protocol,
        has_anc: anc,
        has_eq: eq,
        has_game_mode: game,
        category,
        group,
        capabilities: row_capabilities(anc, eq, game),
        service_uuid: Some(BASEUS_SERVICE_UUID@),
        image_provenance: "fallback"@,
    }
}

fn model_info(
    id: &str,
    display: &str,
    name_patterns: Vec<String>,
    support: SupportLevel,
    protocol: ProtocolFamily,
    anc: bool,
    eq: bool,
    game: bool,
    category: &str,
    group: &str,
) -> (r: ModelInfo)
    ensures
        r.name_patterns == name_patterns,
        r@.id == id@,
        r@.display_name == display@,
        r@.support == support,
        r@.protocol == protocol,
        r@.has_anc == anc,
        r@.has_eq == eq,
        r@.has_game_mode == game,
        r@.category == category@,
        r@.group == group@,
        r@.capabilities == row_capabilities(anc, eq, game),
        r@.service_uuid == Some(BASEUS_SERVICE_UUID@),
        r@.image_provenance == "fallback"@,
{
    ModelInfo {
        id: String::from_str(id),
        display_name: String::from_str(display),
        name_patterns,
        support,
        protocol,
        has_anc: anc,
        has_eq: eq,
        has_game_mode: game,
        category: String::from_str(category),
        group: String::from_str(group),
        capabilities: Capabilities { anc, eq, game_mode: game, bass_boost: eq, ldac: false, hearing_protection: false },
        transport: Transport { service_uuid: Some(String::from_str(BASEUS_SERVICE_UUID)) },
        image_provenance: String::from_str("fallback"),
    }
}

/// Catalog entry with one name pattern.
fn m1(
    id: &str,
    display: &str,
    p0: &str,
    support: SupportLevel,
    protocol: ProtocolFamily,
    anc: bool,
    eq: bool,
    game: bool,
    category: &str,
    group: &str,
) -> (r: ModelInfo)
    requires
        is_ascii_text(p0@),
    ensures
        r@ == model_spec(id@, display@, seq![p0@], support, protocol, anc, eq, game, category@, group@),
{
    let mut pats: Vec<String> = Vec::new();
    pats.push(to_lowercase(p0));
    let r = model_info(id, display, pats, support, protocol, anc, eq, game, category, group);
    assert(r@.name_patterns =~= seq![p0@].map_values(|p: Seq<char>| ascii_lowercase(p)));
    r
}

/// Catalog entry with two name patterns.
fn m2(
    id: &str,
    display: &str,
    p0: &str,
    p1: &str,
    support: SupportLevel,
    protocol: ProtocolFamily,
    anc: bool,
    eq: bool,
    game: bool,
    category: &str,
    group: &str,
) -> (r: ModelInfo)
    requires
        is_ascii_text(p0@),
        is_ascii_text(p1@),
    ensures
        r@ == model_spec(id@, display@, seq![p0@, p1@], support, protocol, anc, eq, game, category@, group@),
{
    let mut pats: Vec<String> = Vec::new();
    pats.push(to_lowercase(p0));
    pats.push(to_lowercase(p1));
    let r = model_info(id, display, pats, support, protocol, anc, eq, game, category, group);
    assert(r@.name_patterns =~= seq![p0@, p1@].map_values(|p: Seq<char>| ascii_lowercase(p)));
    r
}

fn push_model(v: &mut Vec<ModelInfo>, mi: ModelInfo)
    ensures
        model_views(final(v)@) == model_views(old(v)@).push(mi@),
{
    v.push(mi);
    assert(model_views(final(v)@) =~= model_views(old(v)@).push(mi@));
}

/// Catalog entries 0..16.
pub open spec fn catalog_part_0() -> Seq<ModelView> {
    seq![
        model_spec("bass-bp1-pro"@, "Baseus Bass BP1 Pro"@, seq!["bass bp1 pro"@, "bp1 pro"@], SupportLevel::Verified, ProtocolFamily::Bp1Pro, true, true, true, "tws"@, "Bass BP1 / EP10"@),
        model_spec("bass-bp1-ultra"@, "Baseus Bass BP1 Ultra"@, seq!["bass bp1 ultra"@, "bp1 ultra"@], SupportLevel::Verified, ProtocolFamily::Bp1Pro, true, true, true, "tws"@, "Bass BP1 / EP10"@),
        model_spec("bass-bp1-nc"@, "Baseus Bass BP1 NC"@, seq!["bass bp1 nc"@, "bp1 nc"@], SupportLevel::Experimental, ProtocolFamily::Bp1Pro, true, true, true, "tws"@, "Bass BP1 / EP10"@),
        model_spec("bass-ep10-nc"@, "Baseus Bass EP10 NC"@, seq!["bass ep10 nc"@, "ep10 nc"@], SupportLevel::Experimental, ProtocolFamily::Bp1Pro, true, true, true, "tws"@, "Bass BP1 / EP10"@),
        model_spec("bass-ep10-pro"@, "Baseus Bass EP10 Pro"@, seq!["bass ep10 pro"@, "ep10 pro"@], SupportLevel::Experimental, ProtocolFamily::Bp1Pro, true, true, true, "tws"@, "Bass BP1 / EP10"@),
        model_spec("bass-ep10-ultra"@, "Baseus Bass EP10 Ultra"@, seq!["bass ep10 ultra"@, "ep10 ultra"@], SupportLevel::Experimental, ProtocolFamily::Bp1Pro, true, true, true, "tws"@, "Bass BP1 / EP10"@),
        model_spec("bowie-ma10"@, "Baseus Bowie MA10"@, seq!["bowie ma10"@, "ma10"@], SupportLevel::Experimental, ProtocolFamily::Bp1Pro, true, true, true, "tws"@, "Bowie MA series"@),
        model_spec("bowie-ma10-pro"@, "Baseus Bowie MA10 Pro"@, seq!["bowie ma10 pro"@, "ma10 pro"@], SupportLevel::Experimental, ProtocolFamily::Bp1Pro, true, true, true, "tws"@, "Bowie MA series"@),
        model_spec("bowie-ma10s"@, "Baseus Bowie MA10s"@, seq!["bowie ma10s"@, "ma10s"@], SupportLevel::Experimental, ProtocolFamily::Bp1Pro, true, true, true, "tws"@, "Bowie MA series"@),
        model_spec("bowie-ma20"@, "Baseus Bowie MA20"@, seq!["bowie ma20"@, "ma20"@], SupportLevel::Experimental, ProtocolFamily::Bp1Pro, true, true, true, "tws"@, "Bowie MA series"@),
        model_spec("bowie-ma20-pro"@, "Baseus Bowie MA20 Pro"@, seq!["bowie ma20 pro"@, "ma20 pro"@], SupportLevel::Experimental, ProtocolFamily::Bp1Pro, true, true, true, "tws"@, "Bowie MA series"@),
        model_spec("bowie-m1"@, "Baseus Bowie M1"@, seq!["bowie m1"@], SupportLevel::Experimental, ProtocolFamily::Bp1Pro, false, true, false, "tws"@, "Bowie M series"@),
        model_spec("bowie-m2"@, "Baseus Bowie M2"@, seq!["bowie m2"@], SupportLevel::Experimental, ProtocolFamily::Bp1Pro, false, true, false, "tws"@, "Bowie M series"@),
        model_spec("bowie-m2-plus"@, "Baseus Bowie M2+"@, seq!["bowie m2+"@, "m2+"@], SupportLevel::Experimental, ProtocolFamily::Bp1Pro, false, true, false, "tws"@, "Bowie M series"@),
        model_spec("bowie-m2s"@, "Baseus Bowie M2s"@, seq!["bowie m2s"@, "m2s"@], SupportLevel::Experimental, ProtocolFamily::Bp1Pro, true, true, true, "tws"@, "Bowie M series"@),
        model_spec("bowie-m2s-pro"@, "Baseus Bowie M2s Pro"@, seq!["bowie m2s pro"@, "m2s pro"@], SupportLevel::Experimental, ProtocolFamily::Bp1Pro, true, true, true, "tws"@, "Bowie M series"@),
    ]
}

/// Catalog entries 16..32.
pub open spec fn catalog_part_1() -> Seq<ModelView> {
    seq![
        model_spec("bowie-m3"@, "Baseus Bowie M3"@, seq!["bowie m3"@], SupportLevel::Experimental, ProtocolFamily::Bp1Pro, true, true, true, "tws"@, "Bowie M series"@),
        model_spec("bowie-m3s"@, "Baseus Bowie M3s"@, seq!["bowie m3s"@, "m3s"@], SupportLevel::Experimental, ProtocolFamily::Bp1Pro, true, true, true, "tws"@, "Bowie M series"@),
        model_spec("bowie-m4s"@, "Baseus Bowie M4s"@, seq!["bowie m4s"@, "m4s"@], SupportLevel::Experimental, ProtocolFamily::Bp1Pro, true, true, true, "tws"@, "Bowie M series"@),
        model_spec("m2s-ultra"@, "Baseus M2s Ultra"@, seq!["m2s ultra"@], SupportLevel::Experimental, ProtocolFamily::Bp1Pro, true, true, true, "tws"@, "Bowie M series"@),
        model_spec("bass-e12x"@, "Baseus Bass E12x"@, seq!["bass e12x"@, "e12x"@], SupportLevel::Experimental, ProtocolFamily::Bp1Pro, false, true, true, "tws"@, "Bowie E series"@),
        model_spec("bass-e19s"@, "Baseus Bass E19s"@, seq!["bass e19s"@, "e19s"@], SupportLevel::Experimental, ProtocolFamily::Bp1Pro, false, true, false, "tws"@, "Bowie E series"@),
        model_spec("bowie-e10"@, "Baseus Bowie E10"@, seq!["bowie e10"@, "e10"@], SupportLevel::Experimental, ProtocolFamily::Bp1Pro, false, true, false, "tws"@, "Bowie E series"@),
        model_spec("bowie-e12"@, "Baseus Bowie E12"@, seq!["bowie e12"@, "e12"@], SupportLevel::Experimental, ProtocolFamily::Bp1Pro, false, true, true, "tws"@, "Bowie E series"@),
        model_spec("bowie-e13"@, "Baseus Bowie E13"@, seq!["bowie e13"@, "e13"@], SupportLevel::Experimental, ProtocolFamily::Bp1Pro, false, true, true, "tws"@, "Bowie E series"@),
        model_spec("bowie-e2"@, "Baseus Bowie E2"@, seq!["bowie e2"@], SupportLevel::Experimental, ProtocolFamily::Bp1Pro, false, true, false, "tws"@, "Bowie E series"@),
        model_spec("bowie-e3"@, "Baseus Bowie E3"@, seq!["bowie e3"@], SupportLevel::Experimental, ProtocolFamily::Bp1Pro, false, true, true, "tws"@, "Bowie E series"@),
        model_spec("bowie-e3-2025"@, "Baseus Bowie E3 2025"@, seq!["bowie e3 2025"@, "e3 2025"@], SupportLevel::Experimental, ProtocolFamily::Bp1Pro, false, true, true, "tws"@, "Bowie E series"@),
        model_spec("bowie-e5"@, "Baseus Bowie E5"@, seq!["bowie e5"@], SupportLevel::Experimental, ProtocolFamily::Bp1Pro, false, true, false, "tws"@, "Bowie E series"@),
        model_spec("bowie-e5x"@, "Baseus Bowie E5x"@, seq!["bowie e5x"@, "e5x"@], SupportLevel::Experimental, ProtocolFamily::Bp1Pro, false, true, false, "tws"@, "Bowie E series"@),
        model_spec("bowie-e8"@, "Baseus Bowie E8"@, seq!["bowie e8"@], SupportLevel::Experimental, ProtocolFamily::Bp1Pro, false, true, false, "tws"@, "Bowie E series"@),
        model_spec("e9"@, "Baseus E9"@, seq!["e9"@], SupportLevel::Experimental, ProtocolFamily::Bp1Pro, false, true, false, "tws"@, "Bowie E series"@),
    ]
}

/// Catalog entries 32..48.
pub open spec fn catalog_part_2() -> Seq<ModelView> {
    seq![
        model_spec("inspire-xc1"@, "Baseus Inspire XC1"@, seq!["inspire xc1"@, "xc1"@], SupportLevel::Experimental, ProtocolFamily::Bp1Pro, true, true, true, "tws"@, "Inspire"@),
        model_spec("inspire-xh1"@, "Baseus Inspire XH1"@, seq!["inspire xh1"@, "xh1"@], SupportLevel::Experimental, ProtocolFamily::Bp1Pro, true, true, true, "headset"@, "Inspire"@),
        model_spec("inspire-xp1"@, "Baseus Inspire XP1"@, seq!["inspire xp1"@, "xp1"@], SupportLevel::Experimental, ProtocolFamily::Bp1Pro, true, true, true, "tws"@, "Inspire"@),
        model_spec("as01"@, "Baseus AS01"@, seq!["as01"@], SupportLevel::Experimental, ProtocolFamily::Bp1Pro, false, true, false, "open"@, "Open-ear"@),
        model_spec("as01-air"@, "Baseus AS01 Air"@, seq!["as01 air"@], SupportLevel::Experimental, ProtocolFamily::Bp1Pro, false, true, false, "open"@, "Open-ear"@),
        model_spec("airgo-1-ring"@, "Baseus AirGo 1 Ring"@, seq!["airgo 1 ring"@, "1 ring"@], SupportLevel::Experimental, ProtocolFamily::Bp1Pro, false, true, false, "open"@, "Open-ear"@),
        model_spec("airgo-ag20"@, "Baseus AirGo AG20"@, seq!["airgo ag20"@, "ag20"@], SupportLevel::Experimental, ProtocolFamily::Bp1Pro, false, true, false, "open"@, "Open-ear"@),
        model_spec("airgo-as01"@, "Baseus AirGo AS01"@, seq!["airgo as01"@, "as01"@], SupportLevel::Experimental, ProtocolFamily::Bp1Pro, false, true, false, "open"@, "Open-ear"@),
        model_spec("bowie-mc1"@, "Baseus Bowie MC1"@, seq!["bowie mc1"@, "mc1"@], SupportLevel::Experimental, ProtocolFamily::Bp1Pro, false, true, false, "open"@, "Open-ear"@),
        model_spec("bowie-mc1-pro"@, "Baseus Bowie MC1 Pro"@, seq!["bowie mc1 pro"@, "mc1 pro"@], SupportLevel::Experimental, ProtocolFamily::Bp1Pro, true, true, true, "open"@, "Open-ear"@),
        model_spec("bowie-mc2"@, "Baseus Bowie MC2"@, seq!["bowie mc2"@, "mc2"@], SupportLevel::Experimental, ProtocolFamily::Bp1Pro, false, true, false, "open"@, "Open-ear"@),
        model_spec("bowie-mc2-air"@, "Baseus Bowie MC2 Air"@, seq!["bowie mc2 air"@, "mc2 air"@], SupportLevel::Experimental, ProtocolFamily::Bp1Pro, false, true, false, "open"@, "Open-ear"@),
        model_spec("bowie-mc2-nc"@, "Baseus Bowie MC2 NC"@, seq!["bowie mc2 nc"@, "mc2 nc"@], SupportLevel::Experimental, ProtocolFamily::Bp1Pro, true, true, false, "open"@, "Open-ear"@),
        model_spec("bowie-mc2-s"@, "Baseus Bowie MC2 S"@, seq!["bowie mc2 s"@, "mc2 s"@], SupportLevel::Experimental, ProtocolFamily::Bp1Pro, false, true, false, "open"@, "Open-ear"@),
        model_spec("bowie-mf1"@, "Baseus Bowie MF1"@, seq!["bowie mf1"@, "mf1"@], SupportLevel::Experimental, ProtocolFamily::Bp1Pro, false, true, false, "open"@, "Open-ear"@),
        model_spec("bass-bc1-lite"@, "Baseus Bass BC1 Lite"@, seq!["bass bc1 lite"@, "bc1 lite"@], SupportLevel::Experimental, ProtocolFamily::Bp1Pro, false, true, false, "tws"@, "Bass line"@),
    ]
}

/// Catalog entries 48..64.
pub open spec fn catalog_part_3() -> Seq<ModelView> {
    seq![
        model_spec("bass-bc1"@, "Baseus Bass BC1 星光版"@, seq!["bass bc1"@, "bc1"@], SupportLevel::Experimental, ProtocolFamily::Bp1Pro, false, true, false, "tws"@, "Bass line"@),
        model_spec("bass-bc2"@, "Baseus Bass BC2"@, seq!["bass bc2"@, "bc2"@], SupportLevel::Experimental, ProtocolFamily::Bp1Pro, false, true, false, "tws"@, "Bass line"@),
        model_spec("bass-bd1"@, "Baseus Bass BD1"@, seq!["bass bd1"@, "bd1"@], SupportLevel::Experimental, ProtocolFamily::Bp1Pro, true, true, false, "tws"@, "Bass line"@),
        model_spec("bass-bf1"@, "Baseus Bass BF1"@, seq!["bass bf1"@, "bf1"@], SupportLevel::Experimental, ProtocolFamily::Bp1Pro, false, true, false, "tws"@, "Bass line"@),
        model_spec("bass-bf1-lite"@, "Baseus Bass BF1 Lite"@, seq!["bass bf1 lite"@, "bf1 lite"@], SupportLevel::Experimental, ProtocolFamily::Bp1Pro, false, true, false, "tws"@, "Bass line"@),
        model_spec("bass-bs1"@, "Baseus Bass BS1"@, seq!["bass bs1"@, "bs1"@], SupportLevel::Experimental, ProtocolFamily::Bp1Pro, false, true, false, "tws"@, "Bass line"@),
        model_spec("bass-bs1-lite"@, "Baseus Bass BS1 Lite"@, seq!["bass bs1 lite"@, "bs1 lite"@], SupportLevel::Experimental, ProtocolFamily::Bp1Pro, false, true, false, "tws"@, "Bass line"@),
        model_spec("bass-bs1-nc"@, "Baseus Bass BS1 NC"@, seq!["bass bs1 nc"@, "bs1 nc"@], SupportLevel::Experimental, ProtocolFamily::Bp1Pro, true, true, false, "tws"@, "Bass line"@),
        model_spec("bass-bs2-lite"@, "Baseus Bass BS2 Lite"@, seq!["bass bs2 lite"@, "bs2 lite"@], SupportLevel::Experimental, ProtocolFamily::Bp1Pro, false, true, false, "tws"@, "Bass line"@),
        model_spec("storm-1"@, "Baseus Storm 1"@, seq!["storm 1"@], SupportLevel::Experimental, ProtocolFamily::Bp1Pro, false, true, false, "tws"@, "Bass line"@),
        model_spec("storm-3"@, "Baseus Storm 3"@, seq!["storm 3"@], SupportLevel::Experimental, ProtocolFamily::Bp1Pro, false, true, false, "tws"@, "Bass line"@),
        model_spec("storm-5"@, "Baseus Storm 5"@, seq!["storm 5"@], SupportLevel::Experimental, ProtocolFamily::Bp1Pro, false, true, false, "tws"@, "Bass line"@),
        model_spec("bass-w04"@, "Baseus Bass W04"@, seq!["bass w04"@, "w04"@], SupportLevel::Experimental, ProtocolFamily::Bp1Pro, false, true, false, "tws"@, "Bowie W / WM"@),
        model_spec("bass-wm01s"@, "Baseus Bass WM01s"@, seq!["bass wm01s"@, "wm01s"@], SupportLevel::Experimental, ProtocolFamily::Bp1Pro, false, true, false, "tws"@, "Bowie W / WM"@),
        model_spec("bass-wm02s"@, "Baseus Bass WM02s"@, seq!["bass wm02s"@, "wm02s"@], SupportLevel::Experimental, ProtocolFamily::Bp1Pro, false, true, false, "tws"@, "Bowie W / WM"@),
        model_spec("bowie-ez10"@, "Baseus Bowie EZ10"@, seq!["bowie ez10"@, "ez10"@], SupportLevel::Experimental, ProtocolFamily::Bp1Pro, false, true, false, "tws"@, "Bowie W / WM"@),
    ]
}

/// Catalog entries 64..80.
pub open spec fn catalog_part_4() -> Seq<ModelView> {
    seq![
        model_spec("bowie-mz10"@, "Baseus Bowie MZ10"@, seq!["bowie mz10"@, "mz10"@], SupportLevel::Experimental, ProtocolFamily::Bp1Pro, false, true, false, "tws"@, "Bowie W / WM"@),
        model_spec("bowie-w04"@, "Baseus Bowie W04"@, seq!["bowie w04"@, "w04"@], SupportLevel::Experimental, ProtocolFamily::Bp1Pro, false, true, false, "tws"@, "Bowie W / WM"@),
        model_spec("bowie-w04-plus"@, "Baseus Bowie W04 Plus"@, seq!["bowie w04 plus"@, "w04 plus"@], SupportLevel::Experimental, ProtocolFamily::Bp1Pro, false, true, false, "tws"@, "Bowie W / WM"@),
        model_spec("bowie-w04-pro"@, "Baseus Bowie W04 Pro"@, seq!["bowie w04 pro"@, "w04 pro"@], SupportLevel::Experimental, ProtocolFamily::Bp1Pro, true, true, true, "tws"@, "Bowie W / WM"@),
        model_spec("bowie-wm01"@, "Baseus Bowie WM01"@, seq!["bowie wm01"@, "wm01"@], SupportLevel::Experimental, ProtocolFamily::Bp1Pro, false, true, false, "tws"@, "Bowie W / WM"@),
        model_spec("bowie-wm01-plus"@, "Baseus Bowie WM01 Plus"@, seq!["bowie wm01 plus"@, "wm01 plus"@], SupportLevel::Experimental, ProtocolFamily::Bp1Pro, false, true, false, "tws"@, "Bowie W / WM"@),
        model_spec("bowie-wm03"@, "Baseus Bowie WM03"@, seq!["bowie wm03"@, "wm03"@], SupportLevel::Experimental, ProtocolFamily::Bp1Pro, false, true, false, "tws"@, "Bowie W / WM"@),
        model_spec("bowie-wm05"@, "Baseus Bowie WM05"@, seq!["bowie wm05"@, "wm05"@], SupportLevel::Experimental, ProtocolFamily::Bp1Pro, false, true, false, "tws"@, "Bowie W / WM"@),
        model_spec("bowie-wx5-pro"@, "Baseus Bowie WX5 Pro"@, seq!["bowie wx5 pro"@, "wx5 pro"@], SupportLevel::Experimental, ProtocolFamily::Bp1Pro, true, true, true, "tws"@, "Bowie W / WM"@),
        model_spec("encok-wm01"@, "Baseus Encok WM01"@, seq!["encok wm01"@, "wm01"@], SupportLevel::Experimental, ProtocolFamily::Bp1Pro, false, true, false, "tws"@, "Bowie W / WM"@),
        model_spec("w04-pro"@, "Baseus W04 Pro"@, seq!["w04 pro"@], SupportLevel::Experimental, ProtocolFamily::Bp1Pro, true, true, true, "tws"@, "Bowie W / WM"@),
        model_spec("wm02"@, "Baseus WM02"@, seq!["wm02"@], SupportLevel::Experimental, ProtocolFamily::Bp1Pro, false, true, false, "tws"@, "Bowie W / WM"@),
        model_spec("wm02-plus"@, "Baseus WM02+"@, seq!["wm02+"@], SupportLevel::Experimental, ProtocolFamily::Bp1Pro, false, true, false, "tws"@, "Bowie W / WM"@),
        model_spec("airnora"@, "Baseus AirNora"@, seq!["airnora"@], SupportLevel::Experimental, ProtocolFamily::Bp1Pro, true, true, false, "tws"@, "AirNora"@),
        model_spec("airnora-2"@, "Baseus AirNora 2"@, seq!["airnora 2"@], SupportLevel::Experimental, ProtocolFamily::Bp1Pro, true, true, false, "tws"@, "AirNora"@),
        model_spec("airnora-3"@, "Baseus AirNora 3"@, seq!["airnora 3"@], SupportLevel::Experimental, ProtocolFamily::Bp1Pro, true, true, false, "tws"@, "AirNora"@),
    ]
}

/// Catalog entries 80..96.
pub open spec fn catalog_part_5() -> Seq<ModelView> {
    seq![
        model_spec("eli-10i-fit"@, "Baseus Eli 10i Fit"@, seq!["eli 10i fit"@, "10i fit"@], SupportLevel::Experimental, ProtocolFamily::Bp1Pro, false, true, false, "tws"@, "Eli sport"@),
        model_spec("eli-15i-fit"@, "Baseus Eli 15i Fit"@, seq!["eli 15i fit"@, "15i fit"@], SupportLevel::Experimental, ProtocolFamily::Bp1Pro, false, true, false, "tws"@, "Eli sport"@),
        model_spec("eli-1i-fit"@, "Baseus Eli 1i Fit"@, seq!["eli 1i fit"@, "1i fit"@], SupportLevel::Experimental, ProtocolFamily::Bp1Pro, false, true, false, "tws"@, "Eli sport"@),
        model_spec("eli-fit"@, "Baseus Eli Fit"@, seq!["eli fit"@, "fit"@], SupportLevel::Experimental, ProtocolFamily::Bp1Pro, false, true, false, "open"@, "Eli sport"@),
        model_spec("eli-sport-1"@, "Baseus Eli Sport 1"@, seq!["eli sport 1"@, "sport 1"@], SupportLevel::Experimental, ProtocolFamily::Bp1Pro, false, true, false, "open"@, "Eli sport"@),
        model_spec("aequr-gh02"@, "Baseus AeQur GH02"@, seq!["aequr gh02"@, "gh02"@], SupportLevel::Experimental, ProtocolFamily::Bp1Pro, false, true, false, "headset"@, "Headset"@),
        model_spec("bh1-nc-lite"@, "Baseus BH1 NC Lite"@, seq!["bh1 nc lite"@], SupportLevel::Experimental, ProtocolFamily::Bp1Pro, true, true, false, "headset"@, "Headset"@),
        model_spec("bass-bh1"@, "Baseus Bass BH1"@, seq!["bass bh1"@, "bh1"@], SupportLevel::Experimental, ProtocolFamily::Bp1Pro, true, true, false, "headset"@, "Headset"@),
        model_spec("bass-bh1-air"@, "Baseus Bass BH1 Air"@, seq!["bass bh1 air"@, "bh1 air"@], SupportLevel::Experimental, ProtocolFamily::Bp1Pro, false, true, false, "headset"@, "Headset"@),
        model_spec("bass-bh1-lite"@, "Baseus Bass BH1 Lite"@, seq!["bass bh1 lite"@, "bh1 lite"@], SupportLevel::Experimental, ProtocolFamily::Bp1Pro, true, true, false, "headset"@, "Headset"@),
        model_spec("bass-bh1-nc"@, "Baseus Bass BH1 NC"@, seq!["bass bh1 nc"@, "bh1 nc"@], SupportLevel::Experimental, ProtocolFamily::Bp1Pro, true, true, false, "headset"@, "Headset"@),
        model_spec("bass-eh10-nc"@, "Baseus Bass EH10 NC"@, seq!["bass eh10 nc"@, "eh10 nc"@], SupportLevel::Experimental, ProtocolFamily::Bp1Pro, true, true, false, "headset"@, "Headset"@),
        model_spec("bowie-10-max"@, "Baseus Bowie 10 Max"@, seq!["bowie 10 max"@, "10 max"@], SupportLevel::Experimental, ProtocolFamily::Bp1Pro, false, true, false, "headset"@, "Headset"@),
        model_spec("bowie-30-max"@, "Baseus Bowie 30 Max"@, seq!["bowie 30 max"@, "30 max"@], SupportLevel::Experimental, ProtocolFamily::Bp1Pro, true, true, false, "headset"@, "Headset"@),
        model_spec("bowie-35-max"@, "Baseus Bowie 35 Max"@, seq!["bowie 35 max"@, "35 max"@], SupportLevel::Experimental, ProtocolFamily::Bp1Pro, true, true, false, "headset"@, "Headset"@),
        model_spec("bowie-d05"@, "Baseus Bowie D05"@, seq!["bowie d05"@, "d05"@], SupportLevel::Experimental, ProtocolFamily::Bp1Pro, false, true, false, "headset"@, "Headset"@),
    ]
}

/// Catalog entries 96..112.
pub open spec fn catalog_part_6() -> Seq<ModelView> {
    seq![
        model_spec("bowie-h1"@, "Baseus Bowie H1"@, seq!["bowie h1"@], SupportLevel::Experimental, ProtocolFamily::Bp1Pro, true, true, false, "headset"@, "Headset"@),
        model_spec("bowie-h1-pro"@, "Baseus Bowie H1 Pro"@, seq!["bowie h1 pro"@, "h1 pro"@], SupportLevel::Experimental, ProtocolFamily::Bp1Pro, true, true, true, "headset"@, "Headset"@),
        model_spec("bowie-h1s"@, "Baseus Bowie H1S"@, seq!["bowie h1s"@, "h1s"@], SupportLevel::Experimental, ProtocolFamily::Bp1Pro, true, true, false, "headset"@, "Headset"@),
        model_spec("bowie-h1i"@, "Baseus Bowie H1i"@, seq!["bowie h1i"@, "h1i"@], SupportLevel::Experimental, ProtocolFamily::Bp1Pro, true, true, false, "headset"@, "Headset"@),
        model_spec("bowie-h1s-pro"@, "Baseus Bowie H1s Pro"@, seq!["bowie h1s pro"@, "h1s pro"@], SupportLevel::Experimental, ProtocolFamily::Bp1Pro, true, true, true, "headset"@, "Headset"@),
        model_spec("bowie-h2"@, "Baseus Bowie H2"@, seq!["bowie h2"@], SupportLevel::Experimental, ProtocolFamily::Bp1Pro, true, true, false, "headset"@, "Headset"@),
        model_spec("bowie-mh1"@, "Baseus Bowie MH1"@, seq!["bowie mh1"@, "mh1"@], SupportLevel::Experimental, ProtocolFamily::Bp1Pro, true, true, false, "headset"@, "Headset"@),
        model_spec("eh10-nc-lite"@, "Baseus EH10 NC Lite"@, seq!["eh10 nc lite"@], SupportLevel::Experimental, ProtocolFamily::Bp1Pro, true, true, false, "headset"@, "Headset"@),
        model_spec("bowie-p1"@, "Baseus Bowie P1"@, seq!["bowie p1"@], SupportLevel::Experimental, ProtocolFamily::Bp1Pro, false, true, false, "neck"@, "Neckband"@),
        model_spec("bowie-u2"@, "Baseus Bowie U2"@, seq!["bowie u2"@], SupportLevel::Experimental, ProtocolFamily::Bp1Pro, false, true, false, "neck"@, "Neckband"@),
        model_spec("bowie-u2-pro"@, "Baseus Bowie U2 Pro"@, seq!["bowie u2 pro"@, "u2 pro"@], SupportLevel::Experimental, ProtocolFamily::Bp1Pro, true, true, true, "neck"@, "Neckband"@),
        model_spec("p1"@, "Baseus P1"@, seq!["p1"@], SupportLevel::Experimental, ProtocolFamily::Bp1Pro, false, true, false, "neck"@, "Neckband"@),
        model_spec("p1-lite"@, "Baseus P1 Lite"@, seq!["p1 lite"@], SupportLevel::Experimental, ProtocolFamily::Bp1Pro, false, true, false, "neck"@, "Neckband"@),
        model_spec("p1x"@, "Baseus P1x"@, seq!["p1x"@], SupportLevel::Experimental, ProtocolFamily::Bp1Pro, false, true, false, "neck"@, "Neckband"@),
        model_spec("aequr-30-air"@, "Baseus AeQur 30 Air"@, seq!["aequr 30 air"@, "30 air"@], SupportLevel::Experimental, ProtocolFamily::Bp1Pro, true, true, false, "tws"@, "AeQur"@),
        model_spec("aequr-ds10"@, "Baseus AeQur DS10"@, seq!["aequr ds10"@, "ds10"@], SupportLevel::Experimental, ProtocolFamily::Bp1Pro, false, true, false, "tws"@, "AeQur"@),
    ]
}

/// Catalog entries 112..124.
pub open spec fn catalog_part_7() -> Seq<ModelView> {
    seq![
        model_spec("aequr-g10"@, "Baseus AeQur G10"@, seq!["aequr g10"@, "g10"@], SupportLevel::Experimental, ProtocolFamily::Bp1Pro, false, true, false, "tws"@, "AeQur"@),
        model_spec("aequr-n10"@, "Baseus AeQur N10"@, seq!["aequr n10"@, "n10"@], SupportLevel::Experimental, ProtocolFamily::Bp1Pro, false, true, false, "tws"@, "AeQur"@),
        model_spec("aequr-vo20"@, "Baseus AeQur VO20"@, seq!["aequr vo20"@, "vo20"@], SupportLevel::Experimental, ProtocolFamily::Bp1Pro, false, true, false, "tws"@, "AeQur"@),
        model_spec("bass-1-plus"@, "Baseus Bass 1+"@, seq!["bass 1+"@], SupportLevel::Experimental, ProtocolFamily::Bp1Pro, true, true, false, "tws"@, "Other"@),
        model_spec("bowie-30"@, "Baseus Bowie 30"@, seq!["bowie 30"@], SupportLevel::Experimental, ProtocolFamily::Bp1Pro, true, true, false, "tws"@, "Other"@),
        model_spec("bowie-35"@, "Baseus Bowie 35"@, seq!["bowie 35"@], SupportLevel::Experimental, ProtocolFamily::Bp1Pro, true, true, false, "tws"@, "Other"@),
        model_spec("bowie-mp1"@, "Baseus Bowie MP1"@, seq!["bowie mp1"@, "mp1"@], SupportLevel::Experimental, ProtocolFamily::Bp1Pro, false, true, false, "tws"@, "Other"@),
        model_spec("bowie-ms1"@, "Baseus Bowie MS1"@, seq!["bowie ms1"@, "ms1"@], SupportLevel::Experimental, ProtocolFamily::Bp1Pro, false, true, false, "tws"@, "Other"@),
        model_spec("ef8"@, "Baseus EF8"@, seq!["ef8"@], SupportLevel::Experimental, ProtocolFamily::Bp1Pro, false, true, false, "tws"@, "Other"@),
        model_spec("ex"@, "Baseus EX"@, seq!["ex"@], SupportLevel::Experimental, ProtocolFamily::Bp1Pro, false, true, false, "tws"@, "Other"@),
        model_spec("t2-pro"@, "Baseus T2 Pro"@, seq!["t2 pro"@], SupportLevel::Experimental, ProtocolFamily::Bp1Pro, true, true, true, "tws"@, "Other"@),
        model_spec("w05-lite"@, "Baseus W05 Lite"@, seq!["w05 lite"@], SupportLevel::Experimental, ProtocolFamily::Bp1Pro, false, true, false, "tws"@, "Other"@),
    ]
}

/// The listening catalog, in registry order.
pub open spec fn catalog() -> Seq<ModelView> {
    catalog_part_0() + catalog_part_1() + catalog_part_2() + catalog_part_3() + catalog_part_4() + catalog_part_5() + catalog_part_6() + catalog_part_7()
}

fn push_models_part_0(v: &mut Vec<ModelInfo>)
    ensures
        model_views(final(v)@) == model_views(old(v)@) + catalog_part_0(),
{
    let ghost start = model_views(v@);
    proof { reveal_strlit("bass bp1 pro"); reveal_strlit("bp1 pro"); }
    push_model(v, m2("bass-bp1-pro", "Baseus Bass BP1 Pro", "bass bp1 pro", "bp1 pro", SupportLevel::Verified, ProtocolFamily::Bp1Pro, true, true, true, "tws", "Bass BP1 / EP10"));
    proof { reveal_strlit("bass bp1 ultra"); reveal_strlit("bp1 ultra"); }
    push_model(v, m2("bass-bp1-ultra", "Baseus Bass BP1 Ultra", "bass bp1 ultra", "bp1 ultra", SupportLevel::Verified, ProtocolFamily::Bp1Pro, true, true, true, "tws", "Bass BP1 / EP10"));
    proof { reveal_strlit("bass bp1 nc"); reveal_strlit("bp1 nc"); }
    push_model(v, m2("bass-bp1-nc", "Baseus Bass BP1 NC", "bass bp1 nc", "bp1 nc", SupportLevel::Experimental, ProtocolFamily::Bp1Pro, true, true, true, "tws", "Bass BP1 / EP10"));
    proof { reveal_strlit("bass ep10 nc"); reveal_strlit("ep10 nc"); }
    push_model(v, m2("bass-ep10-nc", "Baseus Bass EP10 NC", "bass ep10 nc", "ep10 nc", SupportLevel::Experimental, ProtocolFamily::Bp1Pro, true, true, true, "tws", "Bass BP1 / EP10"));
    proof { reveal_strlit("bass ep10 pro"); reveal_strlit("ep10 pro"); }
    push_model(v, m2("bass-ep10-pro", "Baseus Bass EP10 Pro", "bass ep10 pro", "ep10 pro", SupportLevel::Experimental, ProtocolFamily::Bp1Pro, true, true, true, "tws", "Bass BP1 / EP10"));
    proof { reveal_strlit("bass ep10 ultra"); reveal_strlit("ep10 ultra"); }
    push_model(v, m2("bass-ep10-ultra", "Baseus Bass EP10 Ultra", "bass ep10 ultra", "ep10 ultra", SupportLevel::Experimental, ProtocolFamily::Bp1Pro, true, true, true, "tws", "Bass BP1 / EP10"));
    proof { reveal_strlit("bowie ma10"); reveal_strlit("ma10"); }
    push_model(v, m2("bowie-ma10", "Baseus Bowie MA10", "bowie ma10", "ma10", SupportLevel::Experimental, ProtocolFamily::Bp1Pro, true, true, true, "tws", "Bowie MA series"));
    proof { reveal_strlit("bowie ma10 pro"); reveal_strlit("ma10 pro"); }
    push_model(v, m2("bowie-ma10-pro", "Baseus Bowie MA10 Pro", "bowie ma10 pro", "ma10 pro", SupportLevel::Experimental, ProtocolFamily::Bp1Pro, true, true, true, "tws", "Bowie MA series"));
    proof { reveal_strlit("bowie ma10s"); reveal_strlit("ma10s"); }
    push_model(v, m2("bowie-ma10s", "Baseus Bowie MA10s", "bowie ma10s", "ma10s", SupportLevel::Experimental, ProtocolFamily::Bp1Pro, true, true, true, "tws", "Bowie MA series"));
    proof { reveal_strlit("bowie ma20"); reveal_strlit("ma20"); }
    push_model(v, m2("bowie-ma20", "Baseus Bowie MA20", "bowie ma20", "ma20", SupportLevel::Experimental, ProtocolFamily::Bp1Pro, true, true, true, "tws", "Bowie MA series"));
    proof { reveal_strlit("bowie ma20 pro"); reveal_strlit("ma20 pro"); }
    push_model(v, m2("bowie-ma20-pro", "Baseus Bowie MA20 Pro", "bowie ma20 pro", "ma20 pro", SupportLevel::Experimental, ProtocolFamily::Bp1Pro, true, true, true, "tws", "Bowie MA series"));
    proof { reveal_strlit("bowie m1"); }
    push_model(v, m1("bowie-m1", "Baseus Bowie M1", "bowie m1", SupportLevel::Experimental, ProtocolFamily::Bp1Pro, false, true, false, "tws", "Bowie M series"));
    proof { reveal_strlit("bowie m2"); }
    push_model(v, m1("bowie-m2", "Baseus Bowie M2", "bowie m2", SupportLevel::Experimental, ProtocolFamily::Bp1Pro, false, true, false, "tws", "Bowie M series"));
    proof { reveal_strlit("bowie m2+"); reveal_strlit("m2+"); }
    push_model(v, m2("bowie-m2-plus", "Baseus Bowie M2+", "bowie m2+", "m2+", SupportLevel::Experimental, ProtocolFamily::Bp1Pro, false, true, false, "tws", "Bowie M series"));
    proof { reveal_strlit("bowie m2s"); reveal_strlit("m2s"); }
    push_model(v, m2("bowie-m2s", "Baseus Bowie M2s", "bowie m2s", "m2s", SupportLevel::Experimental, ProtocolFamily::Bp1Pro, true, true, true, "tws", "Bowie M series"));
    proof { reveal_strlit("bowie m2s pro"); reveal_strlit("m2s pro"); }
    push_model(v, m2("bowie-m2s-pro", "Baseus Bowie M2s Pro", "bowie m2s pro", "m2s pro", SupportLevel::Experimental, ProtocolFamily::Bp1Pro, true, true, true, "tws", "Bowie M series"));
    assert(model_views(v@) =~= start + catalog_part_0());
}

fn push_models_part_1(v: &mut Vec<ModelInfo>)
    ensures
        model_views(final(v)@) == model_views(old(v)@) + catalog_part_1(),
{
    let ghost start = model_views(v@);
    proof { reveal_strlit("bowie m3"); }
    push_model(v, m1("bowie-m3", "Baseus Bowie M3", "bowie m3", SupportLevel::Experimental, ProtocolFamily::Bp1Pro, true, true, true, "tws", "Bowie M series"));
    proof { reveal_strlit("bowie m3s"); reveal_strlit("m3s"); }
    push_model(v, m2("bowie-m3s", "Baseus Bowie M3s", "bowie m3s", "m3s", SupportLevel::Experimental, ProtocolFamily::Bp1Pro, true, true, true, "tws", "Bowie M series"));
    proof { reveal_strlit("bowie m4s"); reveal_strlit("m4s"); }
    push_model(v, m2("bowie-m4s", "Baseus Bowie M4s", "bowie m4s", "m4s", SupportLevel::Experimental, ProtocolFamily::Bp1Pro, true, true, true, "tws", "Bowie M series"));
    proof { reveal_strlit("m2s ultra"); }
    push_model(v, m1("m2s-ultra", "Baseus M2s Ultra", "m2s ultra", SupportLevel::Experimental, ProtocolFamily::Bp1Pro, true, true, true, "tws", "Bowie M series"));
    proof { reveal_strlit("bass e12x"); reveal_strlit("e12x"); }
    push_model(v, m2("bass-e12x", "Baseus Bass E12x", "bass e12x", "e12x", SupportLevel::Experimental, ProtocolFamily::Bp1Pro, false, true, true, "tws", "Bowie E series"));
    proof { reveal_strlit("bass e19s"); reveal_strlit("e19s"); }
    push_model(v, m2("bass-e19s", "Baseus Bass E19s", "bass e19s", "e19s", SupportLevel::Experimental, ProtocolFamily::Bp1Pro, false, true, false, "tws", "Bowie E series"));
    proof { reveal_strlit("bowie e10"); reveal_strlit("e10"); }
    push_model(v, m2("bowie-e10", "Baseus Bowie E10", "bowie e10", "e10", SupportLevel::Experimental, ProtocolFamily::Bp1Pro, false, true, false, "tws", "Bowie E series"));
    proof { reveal_strlit("bowie e12"); reveal_strlit("e12"); }
    push_model(v, m2("bowie-e12", "Baseus Bowie E12", "bowie e12", "e12", SupportLevel::Experimental, ProtocolFamily::Bp1Pro, false, true, true, "tws", "Bowie E series"));
    proof { reveal_strlit("bowie e13"); reveal_strlit("e13"); }
    push_model(v, m2("bowie-e13", "Baseus Bowie E13", "bowie e13", "e13", SupportLevel::Experimental, ProtocolFamily::Bp1Pro, false, true, true, "tws", "Bowie E series"));
    proof { reveal_strlit("bowie e2"); }
    push_model(v, m1("bowie-e2", "Baseus Bowie E2", "bowie e2", SupportLevel::Experimental, ProtocolFamily::Bp1Pro, false, true, false, "tws", "Bowie E series"));
    proof { reveal_strlit("bowie e3"); }
    push_model(v, m1("bowie-e3", "Baseus Bowie E3", "bowie e3", SupportLevel::Experimental, ProtocolFamily::Bp1Pro, false, true, true, "tws", "Bowie E series"));
    proof { reveal_strlit("bowie e3 2025"); reveal_strlit("e3 2025"); }
    push_model(v, m2("bowie-e3-2025", "Baseus Bowie E3 2025", "bowie e3 2025", "e3 2025", SupportLevel::Experimental, ProtocolFamily::Bp1Pro, false, true, true, "tws", "Bowie E series"));
    proof { reveal_strlit("bowie e5"); }
    push_model(v, m1("bowie-e5", "Baseus Bowie E5", "bowie e5", SupportLevel::Experimental, ProtocolFamily::Bp1Pro, false, true, false, "tws", "Bowie E series"));
    proof { reveal_strlit("bowie e5x"); reveal_strlit("e5x"); }
    push_model(v, m2("bowie-e5x", "Baseus Bowie E5x", "bowie e5x", "e5x", SupportLevel::Experimental, ProtocolFamily::Bp1Pro, false, true, false, "tws", "Bowie E series"));
    proof { reveal_strlit("bowie e8"); }
    push_model(v, m1("bowie-e8", "Baseus Bowie E8", "bowie e8", SupportLevel::Experimental, ProtocolFamily::Bp1Pro, false, true, false, "tws", "Bowie E series"));
    proof { reveal_strlit("e9"); }
    push_model(v, m1("e9", "Baseus E9", "e9", SupportLevel::Experimental, ProtocolFamily::Bp1Pro, false, true, false, "tws", "Bowie E series"));
    assert(model_views(v@) =~= start + catalog_part_1());
}

fn push_models_part_2(v: &mut Vec<ModelInfo>)
    ensures
        model_views(final(v)@) == model_views(old(v)@) + catalog_part_2(),
{
    let ghost start = model_views(v@);
    proof { reveal_strlit("inspire xc1"); reveal_strlit("xc1"); }
    push_model(v, m2("inspire-xc1", "Baseus Inspire XC1", "inspire xc1", "xc1", SupportLevel::Experimental, ProtocolFamily::Bp1Pro, true, true, true, "tws", "Inspire"));
    proof { reveal_strlit("inspire xh1"); reveal_strlit("xh1"); }
    push_model(v, m2("inspire-xh1", "Baseus Inspire XH1", "inspire xh1", "xh1", SupportLevel::Experimental, ProtocolFamily::Bp1Pro, true, true, true, "headset", "Inspire"));
    proof { reveal_strlit("inspire xp1"); reveal_strlit("xp1"); }
    push_model(v, m2("inspire-xp1", "Baseus Inspire XP1", "inspire xp1", "xp1", SupportLevel::Experimental, ProtocolFamily::Bp1Pro, true, true, true, "tws", "Inspire"));
    proof { reveal_strlit("as01"); }
    push_model(v, m1("as01", "Baseus AS01", "as01", SupportLevel::Experimental, ProtocolFamily::Bp1Pro, false, true, false, "open", "Open-ear"));
    proof { reveal_strlit("as01 air"); }
    push_model(v, m1("as01-air", "Baseus AS01 Air", "as01 air", SupportLevel::Experimental, ProtocolFamily::Bp1Pro, false, true, false, "open", "Open-ear"));
    proof { reveal_strlit("airgo 1 ring"); reveal_strlit("1 ring"); }
    push_model(v, m2("airgo-1-ring", "Baseus AirGo 1 Ring", "airgo 1 ring", "1 ring", SupportLevel::Experimental, ProtocolFamily::Bp1Pro, false, true, false, "open", "Open-ear"));
    proof { reveal_strlit("airgo ag20"); reveal_strlit("ag20"); }
    push_model(v, m2("airgo-ag20", "Baseus AirGo AG20", "airgo ag20", "ag20", SupportLevel::Experimental, ProtocolFamily::Bp1Pro, false, true, false, "open", "Open-ear"));
    proof { reveal_strlit("airgo as01"); reveal_strlit("as01"); }
    push_model(v, m2("airgo-as01", "Baseus AirGo AS01", "airgo as01", "as01", SupportLevel::Experimental, ProtocolFamily::Bp1Pro, false, true, false, "open", "Open-ear"));
    proof { reveal_strlit("bowie mc1"); reveal_strlit("mc1"); }
    push_model(v, m2("bowie-mc1", "Baseus Bowie MC1", "bowie mc1", "mc1", SupportLevel::Experimental, ProtocolFamily::Bp1Pro, false, true, false, "open", "Open-ear"));
    proof { reveal_strlit("bowie mc1 pro"); reveal_strlit("mc1 pro"); }
    push_model(v, m2("bowie-mc1-pro", "Baseus Bowie MC1 Pro", "bowie mc1 pro", "mc1 pro", SupportLevel::Experimental, ProtocolFamily::Bp1Pro, true, true, true, "open", "Open-ear"));
    proof { reveal_strlit("bowie mc2"); reveal_strlit("mc2"); }
    push_model(v, m2("bowie-mc2", "Baseus Bowie MC2", "bowie mc2", "mc2", SupportLevel::Experimental, ProtocolFamily::Bp1Pro, false, true, false, "open", "Open-ear"));
    proof { reveal_strlit("bowie mc2 air"); reveal_strlit("mc2 air"); }
    push_model(v, m2("bowie-mc2-air", "Baseus Bowie MC2 Air", "bowie mc2 air", "mc2 air", SupportLevel::Experimental, ProtocolFamily::Bp1Pro, false, true, false, "open", "Open-ear"));
    proof { reveal_strlit("bowie mc2 nc"); reveal_strlit("mc2 nc"); }
    push_model(v, m2("bowie-mc2-nc", "Baseus Bowie MC2 NC", "bowie mc2 nc", "mc2 nc", SupportLevel::Experimental, ProtocolFamily::Bp1Pro, true, true, false, "open", "Open-ear"));
    proof { reveal_strlit("bowie mc2 s"); reveal_strlit("mc2 s"); }
    push_model(v, m2("bowie-mc2-s", "Baseus Bowie MC2 S", "bowie mc2 s", "mc2 s", SupportLevel::Experimental, ProtocolFamily::Bp1Pro, false, true, false, "open", "Open-ear"));
    proof { reveal_strlit("bowie mf1"); reveal_strlit("mf1"); }
    push_model(v, m2("bowie-mf1", "Baseus Bowie MF1", "bowie mf1", "mf1", SupportLevel::Experimental, ProtocolFamily::Bp1Pro, false, true, false, "open", "Open-ear"));
    proof { reveal_strlit("bass bc1 lite"); reveal_strlit("bc1 lite"); }
    push_model(v, m2("bass-bc1-lite", "Baseus Bass BC1 Lite", "bass bc1 lite", "bc1 lite", SupportLevel::Experimental, ProtocolFamily::Bp1Pro, false, true, false, "tws", "Bass line"));
    assert(model_views(v@) =~= start + catalog_part_2());
}

fn push_models_part_3(v: &mut Vec<ModelInfo>)
    ensures
        model_views(final(v)@) == model_views(old(v)@) + catalog_part_3(),
{
    let ghost start = model_views(v@);
    proof { reveal_strlit("bass bc1"); reveal_strlit("bc1"); }
    push_model(v, m2("bass-bc1", "Baseus Bass BC1 星光版", "bass bc1", "bc1", SupportLevel::Experimental, ProtocolFamily::Bp1Pro, false, true, false, "tws", "Bass line"));
    proof { reveal_strlit("bass bc2"); reveal_strlit("bc2"); }
    push_model(v, m2("bass-bc2", "Baseus Bass BC2", "bass bc2", "bc2", SupportLevel::Experimental, ProtocolFamily::Bp1Pro, false, true, false, "tws", "Bass line"));
    proof { reveal_strlit("bass bd1"); reveal_strlit("bd1"); }
    push_model(v, m2("bass-bd1", "Baseus Bass BD1", "bass bd1", "bd1", SupportLevel::Experimental, ProtocolFamily::Bp1Pro, true, true, false, "tws", "Bass line"));
    proof { reveal_strlit("bass bf1"); reveal_strlit("bf1"); }
    push_model(v, m2("bass-bf1", "Baseus Bass BF1", "bass bf1", "bf1", SupportLevel::Experimental, ProtocolFamily::Bp1Pro, false, true, false, "tws", "Bass line"));
    proof { reveal_strlit("bass bf1 lite"); reveal_strlit("bf1 lite"); }
    push_model(v, m2("bass-bf1-lite", "Baseus Bass BF1 Lite", "bass bf1 lite", "bf1 lite", SupportLevel::Experimental, ProtocolFamily::Bp1Pro, false, true, false, "tws", "Bass line"));
    proof { reveal_strlit("bass bs1"); reveal_strlit("bs1"); }
    push_model(v, m2("bass-bs1", "Baseus Bass BS1", "bass bs1", "bs1", SupportLevel::Experimental, ProtocolFamily::Bp1Pro, false, true, false, "tws", "Bass line"));
    proof { reveal_strlit("bass bs1 lite"); reveal_strlit("bs1 lite"); }
    push_model(v, m2("bass-bs1-lite", "Baseus Bass BS1 Lite", "bass bs1 lite", "bs1 lite", SupportLevel::Experimental, ProtocolFamily::Bp1Pro, false, true, false, "tws", "Bass line"));
    proof { reveal_strlit("bass bs1 nc"); reveal_strlit("bs1 nc"); }
    push_model(v, m2("bass-bs1-nc", "Baseus Bass BS1 NC", "bass bs1 nc", "bs1 nc", SupportLevel::Experimental, ProtocolFamily::Bp1Pro, true, true, false, "tws", "Bass line"));
    proof { reveal_strlit("bass bs2 lite"); reveal_strlit("bs2 lite"); }
    push_model(v, m2("bass-bs2-lite", "Baseus Bass BS2 Lite", "bass bs2 lite", "bs2 lite", SupportLevel::Experimental, ProtocolFamily::Bp1Pro, false, true, false, "tws", "Bass line"));
    proof { reveal_strlit("storm 1"); }
    push_model(v, m1("storm-1", "Baseus Storm 1", "storm 1", SupportLevel::Experimental, ProtocolFamily::Bp1Pro, false, true, false, "tws", "Bass line"));
    proof { reveal_strlit("storm 3"); }
    push_model(v, m1("storm-3", "Baseus Storm 3", "storm 3", SupportLevel::Experimental, ProtocolFamily::Bp1Pro, false, true, false, "tws", "Bass line"));
    proof { reveal_strlit("storm 5"); }
    push_model(v, m1("storm-5", "Baseus Storm 5", "storm 5", SupportLevel::Experimental, ProtocolFamily::Bp1Pro, false, true, false, "tws", "Bass line"));
    proof { reveal_strlit("bass w04"); reveal_strlit("w04"); }
    push_model(v, m2("bass-w04", "Baseus Bass W04", "bass w04", "w04", SupportLevel::Experimental, ProtocolFamily::Bp1Pro, false, true, false, "tws", "Bowie W / WM"));
    proof { reveal_strlit("bass wm01s"); reveal_strlit("wm01s"); }
    push_model(v, m2("bass-wm01s", "Baseus Bass WM01s", "bass wm01s", "wm01s", SupportLevel::Experimental, ProtocolFamily::Bp1Pro, false, true, false, "tws", "Bowie W / WM"));
    proof { reveal_strlit("bass wm02s"); reveal_strlit("wm02s"); }
    push_model(v, m2("bass-wm02s", "Baseus Bass WM02s", "bass wm02s", "wm02s", SupportLevel::Experimental, ProtocolFamily::Bp1Pro, false, true, false, "tws", "Bowie W / WM"));
    proof { reveal_strlit("bowie ez10"); reveal_strlit("ez10"); }
    push_model(v, m2("bowie-ez10", "Baseus Bowie EZ10", "bowie ez10", "ez10", SupportLevel::Experimental, ProtocolFamily::Bp1Pro, false, true, false, "tws", "Bowie W / WM"));
    assert(model_views(v@) =~= start + catalog_part_3());
}

fn push_models_part_4(v: &mut Vec<ModelInfo>)
    ensures
        model_views(final(v)@) == model_views(old(v)@) + catalog_part_4(),
{
    let ghost start = model_views(v@);
    proof { reveal_strlit("bowie mz10"); reveal_strlit("mz10"); }
    push_model(v, m2("bowie-mz10", "Baseus Bowie MZ10", "bowie mz10", "mz10", SupportLevel::Experimental, ProtocolFamily::Bp1Pro, false, true, false, "tws", "Bowie W / WM"));
    proof { reveal_strlit("bowie w04"); reveal_strlit("w04"); }
    push_model(v, m2("bowie-w04", "Baseus Bowie W04", "bowie w04", "w04", SupportLevel::Experimental, ProtocolFamily::Bp1Pro, false, true, false, "tws", "Bowie W / WM"));
    proof { reveal_strlit("bowie w04 plus"); reveal_strlit("w04 plus"); }
    push_model(v, m2("bowie-w04-plus", "Baseus Bowie W04 Plus", "bowie w04 plus", "w04 plus", SupportLevel::Experimental, ProtocolFamily::Bp1Pro, false, true, false, "tws", "Bowie W / WM"));
    proof { reveal_strlit("bowie w04 pro"); reveal_strlit("w04 pro"); }
    push_model(v, m2("bowie-w04-pro", "Baseus Bowie W04 Pro", "bowie w04 pro", "w04 pro", SupportLevel::Experimental, ProtocolFamily::Bp1Pro, true, true, true, "tws", "Bowie W / WM"));
    proof { reveal_strlit("bowie wm01"); reveal_strlit("wm01"); }
    push_model(v, m2("bowie-wm01", "Baseus Bowie WM01", "bowie wm01", "wm01", SupportLevel::Experimental, ProtocolFamily::Bp1Pro, false, true, false, "tws", "Bowie W / WM"));
    proof { reveal_strlit("bowie wm01 plus"); reveal_strlit("wm01 plus"); }
    push_model(v, m2("bowie-wm01-plus", "Baseus Bowie WM01 Plus", "bowie wm01 plus", "wm01 plus", SupportLevel::Experimental, ProtocolFamily::Bp1Pro, false, true, false, "tws", "Bowie W / WM"));
    proof { reveal_strlit("bowie wm03"); reveal_strlit("wm03"); }
    push_model(v, m2("bowie-wm03", "Baseus Bowie WM03", "bowie wm03", "wm03", SupportLevel::Experimental, ProtocolFamily::Bp1Pro, false, true, false, "tws", "Bowie W / WM"));
    proof { reveal_strlit("bowie wm05"); reveal_strlit("wm05"); }
    push_model(v, m2("bowie-wm05", "Baseus Bowie WM05", "bowie wm05", "wm05", SupportLevel::Experimental, ProtocolFamily::Bp1Pro, false, true, false, "tws", "Bowie W / WM"));
    proof { reveal_strlit("bowie wx5 pro"); reveal_strlit("wx5 pro"); }
    push_model(v, m2("bowie-wx5-pro", "Baseus Bowie WX5 Pro", "bowie wx5 pro", "wx5 pro", SupportLevel::Experimental, ProtocolFamily::Bp1Pro, true, true, true, "tws", "Bowie W / WM"));
    proof { reveal_strlit("encok wm01"); reveal_strlit("wm01"); }
    push_model(v, m2("encok-wm01", "Baseus Encok WM01", "encok wm01", "wm01", SupportLevel::Experimental, ProtocolFamily::Bp1Pro, false, true, false, "tws", "Bowie W / WM"));
    proof { reveal_strlit("w04 pro"); }
    push_model(v, m1("w04-pro", "Baseus W04 Pro", "w04 pro", SupportLevel::Experimental, ProtocolFamily::Bp1Pro, true, true, true, "tws", "Bowie W / WM"));
    proof { reveal_strlit("wm02"); }
    push_model(v, m1("wm02", "Baseus WM02", "wm02", SupportLevel::Experimental, ProtocolFamily::Bp1Pro, false, true, false, "tws", "Bowie W / WM"));
    proof { reveal_strlit("wm02+"); }
    push_model(v, m1("wm02-plus", "Baseus WM02+", "wm02+", SupportLevel::Experimental, ProtocolFamily::Bp1Pro, false, true, false, "tws", "Bowie W / WM"));
    proof { reveal_strlit("airnora"); }
    push_model(v, m1("airnora", "Baseus AirNora", "airnora", SupportLevel::Experimental, ProtocolFamily::Bp1Pro, true, true, false, "tws", "AirNora"));
    proof { reveal_strlit("airnora 2"); }
    push_model(v, m1("airnora-2", "Baseus AirNora 2", "airnora 2", SupportLevel::Experimental, ProtocolFamily::Bp1Pro, true, true, false, "tws", "AirNora"));
    proof { reveal_strlit("airnora 3"); }
    push_model(v, m1("airnora-3", "Baseus AirNora 3", "airnora 3", SupportLevel::Experimental, ProtocolFamily::Bp1Pro, true, true, false, "tws", "AirNora"));
    assert(model_views(v@) =~= start + catalog_part_4());
}

fn push_models_part_5(v: &mut Vec<ModelInfo>)
    ensures
        model_views(final(v)@) == model_views(old(v)@) + catalog_part_5(),
{
    let ghost start = model_views(v@);
    proof { reveal_strlit("eli 10i fit"); reveal_strlit("10i fit"); }
    push_model(v, m2("eli-10i-fit", "Baseus Eli 10i Fit", "eli 10i fit", "10i fit", SupportLevel::Experimental, ProtocolFamily::Bp1Pro, false, true, false, "tws", "Eli sport"));
    proof { reveal_strlit("eli 15i fit"); reveal_strlit("15i fit"); }
    push_model(v, m2("eli-15i-fit", "Baseus Eli 15i Fit", "eli 15i fit", "15i fit", SupportLevel::Experimental, ProtocolFamily::Bp1Pro, false, true, false, "tws", "Eli sport"));
    proof { reveal_strlit("eli 1i fit"); reveal_strlit("1i fit"); }
    push_model(v, m2("eli-1i-fit", "Baseus Eli 1i Fit", "eli 1i fit", "1i fit", SupportLevel::Experimental, ProtocolFamily::Bp1Pro, false, true, false, "tws", "Eli sport"));
    proof { reveal_strlit("eli fit"); reveal_strlit("fit"); }
    push_model(v, m2("eli-fit", "Baseus Eli Fit", "eli fit", "fit", SupportLevel::Experimental, ProtocolFamily::Bp1Pro, false, true, false, "open", "Eli sport"));
    proof { reveal_strlit("eli sport 1"); reveal_strlit("sport 1"); }
    push_model(v, m2("eli-sport-1", "Baseus Eli Sport 1", "eli sport 1", "sport 1", SupportLevel::Experimental, ProtocolFamily::Bp1Pro, false, true, false, "open", "Eli sport"));
    proof { reveal_strlit("aequr gh02"); reveal_strlit("gh02"); }
    push_model(v, m2("aequr-gh02", "Baseus AeQur GH02", "aequr gh02", "gh02", SupportLevel::Experimental, ProtocolFamily::Bp1Pro, false, true, false, "headset", "Headset"));
    proof { reveal_strlit("bh1 nc lite"); }
    push_model(v, m1("bh1-nc-lite", "Baseus BH1 NC Lite", "bh1 nc lite", SupportLevel::Experimental, ProtocolFamily::Bp1Pro, true, true, false, "headset", "Headset"));
    proof { reveal_strlit("bass bh1"); reveal_strlit("bh1"); }
    push_model(v, m2("bass-bh1", "Baseus Bass BH1", "bass bh1", "bh1", SupportLevel::Experimental, ProtocolFamily::Bp1Pro, true, true, false, "headset", "Headset"));
    proof { reveal_strlit("bass bh1 air"); reveal_strlit("bh1 air"); }
    push_model(v, m2("bass-bh1-air", "Baseus Bass BH1 Air", "bass bh1 air", "bh1 air", SupportLevel::Experimental, ProtocolFamily::Bp1Pro, false, true, false, "headset", "Headset"));
    proof { reveal_strlit("bass bh1 lite"); reveal_strlit("bh1 lite"); }
    push_model(v, m2("bass-bh1-lite", "Baseus Bass BH1 Lite", "bass bh1 lite", "bh1 lite", SupportLevel::Experimental, ProtocolFamily::Bp1Pro, true, true, false, "headset", "Headset"));
    proof { reveal_strlit("bass bh1 nc"); reveal_strlit("bh1 nc"); }
    push_model(v, m2("bass-bh1-nc", "Baseus Bass BH1 NC", "bass bh1 nc", "bh1 nc", SupportLevel::Experimental, ProtocolFamily::Bp1Pro, true, true, false, "headset", "Headset"));
    proof { reveal_strlit("bass eh10 nc"); reveal_strlit("eh10 nc"); }
    push_model(v, m2("bass-eh10-nc", "Baseus Bass EH10 NC", "bass eh10 nc", "eh10 nc", SupportLevel::Experimental, ProtocolFamily::Bp1Pro, true, true, false, "headset", "Headset"));
    proof { reveal_strlit("bowie 10 max"); reveal_strlit("10 max"); }
    push_model(v, m2("bowie-10-max", "Baseus Bowie 10 Max", "bowie 10 max", "10 max", SupportLevel::Experimental, ProtocolFamily::Bp1Pro, false, true, false, "headset", "Headset"));
    proof { reveal_strlit("bowie 30 max"); reveal_strlit("30 max"); }
    push_model(v, m2("bowie-30-max", "Baseus Bowie 30 Max", "bowie 30 max", "30 max", SupportLevel::Experimental, ProtocolFamily::Bp1Pro, true, true, false, "headset", "Headset"));
    proof { reveal_strlit("bowie 35 max"); reveal_strlit("35 max"); }
    push_model(v, m2("bowie-35-max", "Baseus Bowie 35 Max", "bowie 35 max", "35 max", SupportLevel::Experimental, ProtocolFamily::Bp1Pro, true, true, false, "headset", "Headset"));
    proof { reveal_strlit("bowie d05"); reveal_strlit("d05"); }
    push_model(v, m2("bowie-d05", "Baseus Bowie D05", "bowie d05", "d05", SupportLevel::Experimental, ProtocolFamily::Bp1Pro, false, true, false, "headset", "Headset"));
    assert(model_views(v@) =~= start + catalog_part_5());
}

fn push_models_part_6(v: &mut Vec<ModelInfo>)
    ensures
        model_views(final(v)@) == model_views(old(v)@) + catalog_part_6(),
{
    let ghost start = model_views(v@);
    proof { reveal_strlit("bowie h1"); }
    push_model(v, m1("bowie-h1", "Baseus Bowie H1", "bowie h1", SupportLevel::Experimental, ProtocolFamily::Bp1Pro, true, true, false, "headset", "Headset"));
    proof { reveal_strlit("bowie h1 pro"); reveal_strlit("h1 pro"); }
    push_model(v, m2("bowie-h1-pro", "Baseus Bowie H1 Pro", "bowie h1 pro", "h1 pro", SupportLevel::Experimental, ProtocolFamily::Bp1Pro, true, true, true, "headset", "Headset"));
    proof { reveal_strlit("bowie h1s"); reveal_strlit("h1s"); }
    push_model(v, m2("bowie-h1s", "Baseus Bowie H1S", "bowie h1s", "h1s", SupportLevel::Experimental, ProtocolFamily::Bp1Pro, true, true, false, "headset", "Headset"));
    proof { reveal_strlit("bowie h1i"); reveal_strlit("h1i"); }
    push_model(v, m2("bowie-h1i", "Baseus Bowie H1i", "bowie h1i", "h1i", SupportLevel::Experimental, ProtocolFamily::Bp1Pro, true, true, false, "headset", "Headset"));
    proof { reveal_strlit("bowie h1s pro"); reveal_strlit("h1s pro"); }
    push_model(v, m2("bowie-h1s-pro", "Baseus Bowie H1s Pro", "bowie h1s pro", "h1s pro", SupportLevel::Experimental, ProtocolFamily::Bp1Pro, true, true, true, "headset", "Headset"));
    proof { reveal_strlit("bowie h2"); }
    push_model(v, m1("bowie-h2", "Baseus Bowie H2", "bowie h2", SupportLevel::Experimental, ProtocolFamily::Bp1Pro, true, true, false, "headset", "Headset"));
    proof { reveal_strlit("bowie mh1"); reveal_strlit("mh1"); }
    push_model(v, m2("bowie-mh1", "Baseus Bowie MH1", "bowie mh1", "mh1", SupportLevel::Experimental, ProtocolFamily::Bp1Pro, true, true, false, "headset", "Headset"));
    proof { reveal_strlit("eh10 nc lite"); }
    push_model(v, m1("eh10-nc-lite", "Baseus EH10 NC Lite", "eh10 nc lite", SupportLevel::Experimental, ProtocolFamily::Bp1Pro, true, true, false, "headset", "Headset"));
    proof { reveal_strlit("bowie p1"); }
    push_model(v, m1("bowie-p1", "Baseus Bowie P1", "bowie p1", SupportLevel::Experimental, ProtocolFamily::Bp1Pro, false, true, false, "neck", "Neckband"));
    proof { reveal_strlit("bowie u2"); }
    push_model(v, m1("bowie-u2", "Baseus Bowie U2", "bowie u2", SupportLevel::Experimental, ProtocolFamily::Bp1Pro, false, true, false, "neck", "Neckband"));
    proof { reveal_strlit("bowie u2 pro"); reveal_strlit("u2 pro"); }
    push_model(v, m2("bowie-u2-pro", "Baseus Bowie U2 Pro", "bowie u2 pro", "u2 pro", SupportLevel::Experimental, ProtocolFamily::Bp1Pro, true, true, true, "neck", "Neckband"));
    proof { reveal_strlit("p1"); }
    push_model(v, m1("p1", "Baseus P1", "p1", SupportLevel::Experimental, ProtocolFamily::Bp1Pro, false, true, false, "neck", "Neckband"));
    proof { reveal_strlit("p1 lite"); }
    push_model(v, m1("p1-lite", "Baseus P1 Lite", "p1 lite", SupportLevel::Experimental, ProtocolFamily::Bp1Pro, false, true, false, "neck", "Neckband"));
    proof { reveal_strlit("p1x"); }
    push_model(v, m1("p1x", "Baseus P1x", "p1x", SupportLevel::Experimental, ProtocolFamily::Bp1Pro, false, true, false, "neck", "Neckband"));
    proof { reveal_strlit("aequr 30 air"); reveal_strlit("30 air"); }
    push_model(v, m2("aequr-30-air", "Baseus AeQur 30 Air", "aequr 30 air", "30 air", SupportLevel::Experimental, ProtocolFamily::Bp1Pro, true, true, false, "tws", "AeQur"));
    proof { reveal_strlit("aequr ds10"); reveal_strlit("ds10"); }
    push_model(v, m2("aequr-ds10", "Baseus AeQur DS10", "aequr ds10", "ds10", SupportLevel::Experimental, ProtocolFamily::Bp1Pro, false, true, false, "tws", "AeQur"));
    assert(model_views(v@) =~= start + catalog_part_6());
}

fn push_models_part_7(v: &mut Vec<ModelInfo>)
    ensures
        model_views(final(v)@) == model_views(old(v)@) + catalog_part_7(),
{
    let ghost start = model_views(v@);
    proof { reveal_strlit("aequr g10"); reveal_strlit("g10"); }
    push_model(v, m2("aequr-g10", "Baseus AeQur G10", "aequr g10", "g10", SupportLevel::Experimental, ProtocolFamily::Bp1Pro, false, true, false, "tws", "AeQur"));
    proof { reveal_strlit("aequr n10"); reveal_strlit("n10"); }
    push_model(v, m2("aequr-n10", "Baseus AeQur N10", "aequr n10", "n10", SupportLevel::Experimental, ProtocolFamily::Bp1Pro, false, true, false, "tws", "AeQur"));
    proof { reveal_strlit("aequr vo20"); reveal_strlit("vo20"); }
    push_model(v, m2("aequr-vo20", "Baseus AeQur VO20", "aequr vo20", "vo20", SupportLevel::Experimental, ProtocolFamily::Bp1Pro, false, true, false, "tws", "AeQur"));
    proof { reveal_strlit("bass 1+"); }
    push_model(v, m1("bass-1-plus", "Baseus Bass 1+", "bass 1+", SupportLevel::Experimental, ProtocolFamily::Bp1Pro, true, true, false, "tws", "Other"));
    proof { reveal_strlit("bowie 30"); }
    push_model(v, m1("bowie-30", "Baseus Bowie 30", "bowie 30", SupportLevel::Experimental, ProtocolFamily::Bp1Pro, true, true, false, "tws", "Other"));
    proof { reveal_strlit("bowie 35"); }
    push_model(v, m1("bowie-35", "Baseus Bowie 35", "bowie 35", SupportLevel::Experimental, ProtocolFamily::Bp1Pro, true, true, false, "tws", "Other"));
    proof { reveal_strlit("bowie mp1"); reveal_strlit("mp1"); }
    push_model(v, m2("bowie-mp1", "Baseus Bowie MP1", "bowie mp1", "mp1", SupportLevel::Experimental, ProtocolFamily::Bp1Pro, false, true, false, "tws", "Other"));
    proof { reveal_strlit("bowie ms1"); reveal_strlit("ms1"); }
    push_model(v, m2("bowie-ms1", "Baseus Bowie MS1", "bowie ms1", "ms1", SupportLevel::Experimental, ProtocolFamily::Bp1Pro, false, true, false, "tws", "Other"));
    proof { reveal_strlit("ef8"); }
    push_model(v, m1("ef8", "Baseus EF8", "ef8", SupportLevel::Experimental, ProtocolFamily::Bp1Pro, false, true, false, "tws", "Other"));
    proof { reveal_strlit("ex"); }
    push_model(v, m1("ex", "Baseus EX", "ex", SupportLevel::Experimental, ProtocolFamily::Bp1Pro, false, true, false, "tws", "Other"));
    proof { reveal_strlit("t2 pro"); }
    push_model(v, m1("t2-pro", "Baseus T2 Pro", "t2 pro", SupportLevel::Experimental, ProtocolFamily::Bp1Pro, true, true, true, "tws", "Other"));
    proof { reveal_strlit("w05 lite"); }
    push_model(v, m1("w05-lite", "Baseus W05 Lite", "w05 lite", SupportLevel::Experimental, ProtocolFamily::Bp1Pro, false, true, false, "tws", "Other"));
    assert(model_views(v@) =~= start + catalog_part_7());
}

/// Full listening catalog.
pub fn all_models() -> (r: Vec<ModelInfo>)
    ensures
        model_views(r@) == catalog(),
{
    let mut v: Vec<ModelInfo> = Vec::new();
    assert(model_views(v@) =~= Seq::<ModelView>::empty());
    push_models_part_0(&mut v);
    push_models_part_1(&mut v);
    push_models_part_2(&mut v);
    push_models_part_3(&mut v);
    push_models_part_4(&mut v);
    push_models_part_5(&mut v);
    push_models_part_6(&mut v);
    push_models_part_7(&mut v);
    assert(model_views(v@) =~= catalog());
    v
}


// ---------------------------------------------------------------------------
// Identification by BLE name
// ---------------------------------------------------------------------------

/// Score of a matching pattern: its length in bytes (`str::len`).
pub open spec fn pattern_score(p: Seq<char>) -> nat {
    vstd::utf8::encode_utf8(p).len()
}

/// Pattern `j` of model `i` occurs in the lowercased name.
pub open spec fn pair_matches(lower: Seq<char>, models: Seq<ModelView>, i: int, j: int) -> bool {
    &&& 0 <= i < models.len()
    &&& 0 <= j < models[i].name_patterns.len()
    &&& contains_seq(lower, models[i].name_patterns[j])
}

pub open spec fn pair_score(models: Seq<ModelView>, i: int, j: int) -> nat {
    pattern_score(models[i].name_patterns[j])
}

/// (i2, j2) comes before (i, j) in catalog order (models, then their patterns).
pub open spec fn earlier(i2: int, j2: int, i: int, j: int) -> bool {
    i2 < i || (i2 == i && j2 < j)
}

/// (i, j) is the winning match: the longest matching pattern, the first one in
/// catalog order among equally long ones.
pub open spec fn best_pair(lower: Seq<char>, models: Seq<ModelView>, i: int, j: int) -> bool {
    &&& pair_matches(lower, models, i, j)
    &&& forall|i2: int, j2: int| #[trigger] pair_matches(lower, models, i2, j2) ==> {
        &&& pair_score(models, i2, j2) <= pair_score(models, i, j)
        &&& (earlier(i2, j2, i, j) ==> pair_score(models, i2, j2) < pair_score(models, i, j))
    }
}

/// Some pattern of the catalog occurs in the lowercased name.
pub open spec fn any_match(lower: Seq<char>) -> bool {
    exists|i: int, j: int| #[trigger] pair_matches(lower, catalog(), i, j)
}

/// The model a lowercase name identifies: the model of the winning match, if any.
pub open spec fn identified_lower(lower: Seq<char>) -> Option<ModelView> {
    if any_match(lower) {
        let (i, j) = choose|i: int, j: int| best_pair(lower, catalog(), i, j);
        Some(catalog()[i])
    } else {
        None
    }
}

/// The model a name identifies, matched on its lowercase form.
pub open spec fn identified(name: Seq<char>) -> Option<ModelView> {
    identified_lower(lowercase(name))
}

pub open spec fn opt_model_view(m: Option<ModelInfo>) -> Option<ModelView> {
    match m {
        Some(x) => Some(x@),
        None => None,
    }
}

/// There is at most one winning match.
pub proof fn lemma_best_pair_unique(lower: Seq<char>, models: Seq<ModelView>, i: int, j: int, i2: int, j2: int)
    requires
        best_pair(lower, models, i, j),
        best_pair(lower, models, i2, j2),
    ensures
        i == i2 && j == j2,
{
    assert(pair_matches(lower, models, i2, j2));
    assert(pair_matches(lower, models, i, j));
}

/// `b` is the winning match among the pairs that come before (i, j) in
/// catalog order (`None`: no such pair matches).
pub open spec fn best_before(lower: Seq<char>, models: Seq<ModelView>, b: Option<(int, int)>, i: int, j: int) -> bool {
    match b {
        None => forall|i2: int, j2: int| #[trigger] pair_matches(lower, models, i2, j2) ==> !earlier(i2, j2, i, j),
        Some((bi, bj)) => {
            &&& earlier(bi, bj, i, j)
            &&& pair_matches(lower, models, bi, bj)
            &&& forall|i2: int, j2: int| #[trigger] pair_matches(lower, models, i2, j2) && earlier(i2, j2, i, j) ==> {
                &&& pair_score(models, i2, j2) <= pair_score(models, bi, bj)
                &&& (earlier(i2, j2, bi, bj) ==> pair_score(models, i2, j2) < pair_score(models, bi, bj))
            }
        },
    }
}

proof fn lemma_best_step(lower: Seq<char>, models: Seq<ModelView>, b: Option<(int, int)>, i: int, j: int) -> (b2: Option<(int, int)>)
    requires
        0 <= i < models.len(),
        0 <= j < models[i].name_patterns.len(),
        best_before(lower, models, b, i, j),
    ensures
        best_before(lower, models, b2, i, j + 1),
{
    let take = pair_matches(lower, models, i, j) && match b {
        None => true,
        Some((bi, bj)) => pair_score(models, i, j) > pair_score(models, bi, bj),
    };
    let b2 = if take { Some((i, j)) } else { b };
    assert forall|i2: int, j2: int| #[trigger] pair_matches(lower, models, i2, j2) && earlier(i2, j2, i, j + 1)
        implies earlier(i2, j2, i, j) || (i2 == i && j2 == j) by {}
    b2
}

proof fn lemma_best_from(lower: Seq<char>, models: Seq<ModelView>, b: Option<(int, int)>, i: int, j: int) -> (r: Option<(int, int)>)
    requires
        0 <= i <= models.len(),
        i < models.len() ==> 0 <= j <= models[i].name_patterns.len(),
        i == models.len() ==> j == 0,
        best_before(lower, models, b, i, j),
    ensures
        best_before(lower, models, r, models.len() as int, 0),
    decreases models.len() - i, (if i < models.len() { models[i].name_patterns.len() - j } else { 0 }),
{
    if i == models.len() {
        b
    } else if j < models[i].name_patterns.len() {
        let b2 = lemma_best_step(lower, models, b, i, j);
        lemma_best_from(lower, models, b2, i, j + 1)
    } else {
        assert forall|i2: int, j2: int| #[trigger] pair_matches(lower, models, i2, j2) && earlier(i2, j2, i + 1, 0)
            implies earlier(i2, j2, i, j) by {}
        lemma_best_from(lower, models, b, i + 1, 0)
    }
}

/// When some pattern of `models` occurs in `lower`, a winning match exists:
/// the longest matching pattern, the first in catalog order among equally
/// long ones.
pub proof fn lemma_best_pair_exists(lower: Seq<char>, models: Seq<ModelView>)
    requires
        exists|i: int, j: int| #[trigger] pair_matches(lower, models, i, j),
    ensures
        exists|i: int, j: int| best_pair(lower, models, i, j),
{
    let r = lemma_best_from(lower, models, None, 0, 0);
    assert forall|i2: int, j2: int| #[trigger] pair_matches(lower, models, i2, j2)
        implies earlier(i2, j2, models.len() as int, 0) by {}
    let (i0, j0) = choose|i: int, j: int| #[trigger] pair_matches(lower, models, i, j);
    assert(pair_matches(lower, models, i0, j0));
    match r {
        Some((bi, bj)) => {
            assert(best_pair(lower, models, bi, bj));
        },
        None => {
            assert(false);
        },
    }
}

/// Best pair among those processed before (i, j), as (score, i, j).
pub open spec fn best_so_far(
    lower: Seq<char>,
    models: Seq<ModelView>,
    best: Option<(usize, usize, usize)>,
    i: int,
    j: int,
) -> bool {
    match best {
        None => forall|i2: int, j2: int| #[trigger] pair_matches(lower, models, i2, j2) ==> !earlier(i2, j2, i, j),
        Some((s, bi, bj)) => {
            &&& earlier(bi as int, bj as int, i, j)
            &&& pair_matches(lower, models, bi as int, bj as int)
            &&& s == pair_score(models, bi as int, bj as int)
            &&& forall|i2: int, j2: int| #[trigger] pair_matches(lower, models, i2, j2) && earlier(i2, j2, i, j) ==> {
                &&& pair_score(models, i2, j2) <= s
                &&& (earlier(i2, j2, bi as int, bj as int) ==> pair_score(models, i2, j2) < s)
            }
        },
    }
}

/// Match a BLE advertising name to the best model (longest pattern wins).
pub fn identify(ble_name: &str) -> (r: Option<ModelInfo>)
    ensures
        opt_model_view(r) == identified(ble_name@),
{
    let lower_s = to_lowercase(ble_name);
    identify_lower(lower_s.as_str())
}

/// The best model for a lowercase name: among the catalog patterns it
/// contains, the longest wins, and the earliest among equally long ones.
pub fn identify_lower(lower_name: &str) -> (r: Option<ModelInfo>)
    ensures
        opt_model_view(r) == identified_lower(lower_name@),
{
    let lower = str_chars(lower_name);
    let mut models = all_models();
    let ghost mv = model_views(models@);
    let ghost lw = lower@;
    let mut best: Option<(usize, usize, usize)> = None;
    let mut i: usize = 0;
    while i < models.len()
        invariant
            mv == catalog(),
            mv == model_views(models@),
            lw == lower_name@,
            lower@ == lw,
            i <= models.len(),
            best_so_far(lw, mv, best, i as int, 0),
        decreases models.len() - i,
    {
        let n = models[i].name_patterns.len();
        assert(n == mv[i as int].name_patterns.len());
        let mut j: usize = 0;
        while j < n
            invariant
                mv == catalog(),
                mv == model_views(models@),
                lw == lower_name@,
                lower@ == lw,
                i < models.len(),
                n == mv[i as int].name_patterns.len(),
                j <= n,
                best_so_far(lw, mv, best, i as int, j as int),
            decreases n - j,
        {
            let pat = models[i].name_patterns[j].as_str();
            assert(pat@ == mv[i as int].name_patterns[j as int]);
            let pc = str_chars(pat);
            let ghost old_best = best;
            let found = chars_contain(lower.as_slice(), pc.as_slice());
            if found {
                let score = pat.as_bytes().len();
                let better = match best {
                    Some((s, _, _)) => score > s,
                    None => true,
                };
                if better {
                    best = Some((score, i, j));
                }
            }
            proof {
                let cur = pair_score(mv, i as int, j as int);
                assert(found == pair_matches(lw, mv, i as int, j as int));
                assert forall|i2: int, j2: int| #[trigger] pair_matches(lw, mv, i2, j2) && earlier(i2, j2, i as int, j + 1)
                    implies earlier(i2, j2, i as int, j as int) || (i2 == i && j2 == j) by {}
                match best {
                    Some((s, bi, bj)) => {
                        if bi == i && bj == j {
                            assert(s == cur);
                            assert forall|i2: int, j2: int| #[trigger] pair_matches(lw, mv, i2, j2) && earlier(i2, j2, i as int, j + 1)
                                implies pair_score(mv, i2, j2) <= s && (earlier(i2, j2, bi as int, bj as int) ==> pair_score(mv, i2, j2) < s) by {
                                if earlier(i2, j2, i as int, j as int) {
                                    match old_best {
                                        Some((os, obi, obj)) => {
                                            assert(pair_score(mv, i2, j2) <= os);
                                        },
                                        None => {},
                                    }
                                }
                            }
                        } else {
                            assert(old_best == best);
                            assert forall|i2: int, j2: int| #[trigger] pair_matches(lw, mv, i2, j2) && earlier(i2, j2, i as int, j + 1)
                                implies pair_score(mv, i2, j2) <= s && (earlier(i2, j2, bi as int, bj as int) ==> pair_score(mv, i2, j2) < s) by {
                                if i2 == i && j2 == j {
                                    assert(pair_score(mv, i2, j2) == cur);
                                }
                            }
                        }
                    },
                    None => {},
                }
            }
            j = j + 1;
        }
        proof {
            assert forall|i2: int, j2: int| #[trigger] pair_matches(lw, mv, i2, j2) && earlier(i2, j2, i + 1, 0)
                implies earlier(i2, j2, i as int, n as int) by {}
        }
        i = i + 1;
    }
    proof {
        assert forall|i2: int, j2: int| #[trigger] pair_matches(lw, mv, i2, j2)
            implies earlier(i2, j2, mv.len() as int, 0) by {}
    }
    match best {
        Some((_, bi, bj)) => {
            let m = models.remove(bi);
            proof {
                assert(best_pair(lw, mv, bi as int, bj as int));
                let (ci, cj) = choose|ci: int, cj: int| best_pair(lw, catalog(), ci, cj);
                lemma_best_pair_unique(lw, mv, bi as int, bj as int, ci, cj);
            }
            Some(m)
        },
        None => None,
    }
}

/// Fragments that make a name look like a Baseus product.
pub open spec fn baseus_keywords() -> Seq<Seq<char>> {
    seq!["baseus"@, "bowie"@, "bass"@, "encok"@, "airgo"@, "airnora"@, "aequr"@, "eli "@, "inspire"@, "storm"@]
}

fn baseus_keyword(i: usize) -> (r: &'static str)
    requires
        i < 10,
    ensures
        r@ == baseus_keywords()[i as int],
{
    match i {
        0 => "baseus",
        1 => "bowie",
        2 => "bass",
        3 => "encok",
        4 => "airgo",
        5 => "airnora",
        6 => "aequr",
        7 => "eli ",
        8 => "inspire",
        _ => "storm",
    }
}

/// A catalog model matches the lowercase name, or it holds a Baseus
/// product-line word.
pub open spec fn looks_like_baseus_lower_spec(lower: Seq<char>) -> bool {
    identified_lower(lower) is Some || exists|k: int| 0 <= k < 10 && contains_seq(lower, #[trigger] baseus_keywords()[k])
}

/// Whether a name looks like a Baseus product, judged on its lowercase form.
pub open spec fn looks_like_baseus_spec(name: Seq<char>) -> bool {
    looks_like_baseus_lower_spec(lowercase(name))
}

pub fn looks_like_baseus(ble_name: &str) -> (r: bool)
    ensures
        r == looks_like_baseus_spec(ble_name@),
{
    let lower_s = to_lowercase(ble_name);
    looks_like_baseus_lower(lower_s.as_str())
}

/// Whether a lowercase name matches a catalog model or holds a Baseus
/// product-line word.
pub fn looks_like_baseus_lower(lower_name: &str) -> (r: bool)
    ensures
        r == looks_like_baseus_lower_spec(lower_name@),
{
    if identify_lower(lower_name).is_some() {
        return true;
    }
    let lower = str_chars(lower_name);
    let mut k: usize = 0;
    while k < 10
        invariant
            k <= 10,
            lower@ == lower_name@,
            forall|j: int| 0 <= j < k ==> !contains_seq(lower@, #[trigger] baseus_keywords()[j]),
        decreases 10 - k,
    {
        let kw = str_chars(baseus_keyword(k));
        if chars_contain(lower.as_slice(), kw.as_slice()) {
            return true;
        }
        k = k + 1;
    }
    false
}

/// The catalog as handed to the UI.
pub fn catalog_json() -> (r: Vec<ModelInfo>)
    ensures
        model_views(r@) == catalog(),
{
    all_models()
}

} // verus!
