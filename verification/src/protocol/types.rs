//! Protocol values shared by the decoder, the command builders and the UI layer.

use vstd::prelude::*;

verus! {

/// Battery levels in percent, with charging flags.
#[derive(Debug, Clone, Copy, Default, PartialEq, Eq, Structural)]
pub struct BatteryState {
    pub left: u8,
    pub right: u8,
    pub case: u8,
    pub left_charging: bool,
    pub right_charging: bool,
    pub case_charging: bool,
}

/// Noise control mode.
#[derive(Debug, Clone, Copy, PartialEq, Eq, Structural)]
pub enum AncMode {
    Off,
    Anc,
    Transparency,
}

/// Wire byte of a noise mode.
pub open spec fn anc_mode_byte(mode: AncMode) -> u8 {
    match mode {
        AncMode::Off => 0x00,
        AncMode::Anc => 0x01,
        AncMode::Transparency => 0x02,
    }
}

/// Level byte sent with a mode when no strength is chosen.
pub open spec fn anc_default_level(mode: AncMode) -> u8 {
    match mode {
        AncMode::Off => 0xFF,
        AncMode::Anc => 0x68,
        AncMode::Transparency => 0xFF,
    }
}

/// Strength 0..=100 % (larger values count as 100) mapped linearly onto the
/// device range 0x10..=0xFF, rounding down; other modes use their default level.
pub open spec fn anc_level_from_percent(mode: AncMode, pct: u8) -> u8 {
    match mode {
        AncMode::Anc => {
            let p: int = if pct > 100 { 100 } else { pct as int };
            (0x10 + p * (0xFF - 0x10) / 100) as u8
        },
        _ => anc_default_level(mode),
    }
}

impl AncMode {
    pub fn to_byte(self) -> (b: u8)
        ensures
            b == anc_mode_byte(self),
    {
        match self {
            AncMode::Off => 0x00,
            AncMode::Anc => 0x01,
            AncMode::Transparency => 0x02,
        }
    }

    pub fn default_level(self) -> (b: u8)
        ensures
            b == anc_default_level(self),
    {
        match self {
            AncMode::Off => 0xFF,
            AncMode::Anc => 0x68,
            AncMode::Transparency => 0xFF,
        }
    }

    /// Map strength 0–100 → device level 0x10–0xFF (ANC only).
    pub fn level_from_percent(self, pct: u8) -> (b: u8)
        ensures
            b == anc_level_from_percent(self, pct),
    {
        match self {
            AncMode::Anc => {
                let p: u16 = if pct > 100 { 100 } else { pct as u16 };
                assert(p * (0xFF - 0x10) <= 100 * (0xFF - 0x10)) by (nonlinear_arith)
                    requires p <= 100;
                assert(p * (0xFF - 0x10) / 100 <= 0xFF - 0x10) by (nonlinear_arith)
                    requires p * (0xFF - 0x10) <= 100 * (0xFF - 0x10);
                (0x10 + (p * (0xFF - 0x10) / 100)) as u8
            },
            _ => self.default_level(),
        }
    }
}

/// Classic EQ presets.
#[derive(Debug, Clone, Copy, PartialEq, Eq, Structural)]
pub enum EqPreset {
    Balanced,
    BassBoost,
    Voice,
    Clear,
}

pub open spec fn eq_preset_byte(p: EqPreset) -> u8 {
    match p {
        EqPreset::Balanced => 0,
        EqPreset::BassBoost => 1,
        EqPreset::Voice => 2,
        EqPreset::Clear => 3,
    }
}

pub open spec fn eq_preset_from_byte(b: u8) -> Option<EqPreset> {
    match b {
        0 => Some(EqPreset::Balanced),
        1 => Some(EqPreset::BassBoost),
        2 => Some(EqPreset::Voice),
        3 => Some(EqPreset::Clear),
        _ => None,
    }
}

/// Preset chosen for a UI name: the known spellings of bass, voice and clear,
/// Balanced for anything else.
pub open spec fn eq_preset_from_ui(s: Seq<char>) -> EqPreset {
    if s == "bass"@ || s == "bassBoost"@ || s == "BassBoost"@ {
        EqPreset::BassBoost
    } else if s == "voice"@ || s == "Voice"@ {
        EqPreset::Voice
    } else if s == "clear"@ || s == "Clear"@ {
        EqPreset::Clear
    } else {
        EqPreset::Balanced
    }
}

impl EqPreset {
    pub fn from_byte(b: u8) -> (r: Option<Self>)
        ensures
            r == eq_preset_from_byte(b),
    {
        match b {
            0 => Some(Self::Balanced),
            1 => Some(Self::BassBoost),
            2 => Some(Self::Voice),
            3 => Some(Self::Clear),
            _ => None,
        }
    }

    pub fn to_byte(self) -> (b: u8)
        ensures
            b == eq_preset_byte(self),
    {
        match self {
            Self::Balanced => 0,
            Self::BassBoost => 1,
            Self::Voice => 2,
            Self::Clear => 3,
        }
    }

    pub fn from_ui(s: &str) -> (r: Self)
        ensures
            r == eq_preset_from_ui(s@),
    {
        if crate::text::str_eq(s, "bass") || crate::text::str_eq(s, "bassBoost")
            || crate::text::str_eq(s, "BassBoost") {
            Self::BassBoost
        } else if crate::text::str_eq(s, "voice") || crate::text::str_eq(s, "Voice") {
            Self::Voice
        } else if crate::text::str_eq(s, "clear") || crate::text::str_eq(s, "Clear") {
            Self::Clear
        } else {
            Self::Balanced
        }
    }
}

/// Spatial sound modes (written through the shared EQ opcode).
#[derive(Debug, Clone, Copy, PartialEq, Eq, Structural)]
pub enum SpatialMode {
    Off,
    Music,
    Cinema,
    Game,
}

pub open spec fn spatial_mode_byte(m: SpatialMode) -> u8 {
    match m {
        SpatialMode::Off => 0x00,
        SpatialMode::Music => 0x01,
        SpatialMode::Cinema => 0x02,
        SpatialMode::Game => 0x03,
    }
}

impl SpatialMode {
    pub fn to_byte(self) -> (b: u8)
        ensures
            b == spatial_mode_byte(self),
    {
        match self {
            SpatialMode::Off => 0x00,
            SpatialMode::Music => 0x01,
            SpatialMode::Cinema => 0x02,
            SpatialMode::Game => 0x03,
        }
    }
}

/// Logical commands (app → device).
#[derive(Debug, Clone, Copy, PartialEq, Eq, Structural)]
pub enum Command {
    SetAnc { mode: AncMode, level: u8 },
    SetNoise { mode: AncMode, parameter: u8 },
    SetEq(EqPreset),
    SetEqIndex(u8),
    QueryEq,
    QueryBattery,
    SetGameMode(bool),
    SetSpatial(SpatialMode),
    SetBassBoost(u8),
    SetLdac(bool),
    QueryLdac,
    SetHearingProtection { enabled: bool, level: u8 },
    QueryHearingProtection,
    FindBuds(bool),
}

/// Events decoded from device notifications.
#[derive(Debug, Clone, PartialEq, Eq)]
pub enum DeviceEvent {
    Battery(BatteryState),
    Anc(AncMode),
    Eq(EqPreset),
    GameMode(bool),
    /// Raw / unknown — forwarded for debug
    Unknown { cmd: u8, payload: Vec<u8> },
}

/// Frame-level decode errors.
#[derive(Debug, Clone, Copy, PartialEq, Eq, Structural)]
pub enum FrameError {
    TooShort { need: usize, got: usize },
    BadMagic { got: u8 },
}

/// Notification decode errors.
#[derive(Debug, Clone, Copy, PartialEq, Eq, Structural)]
pub enum DecodeError {
    Frame(FrameError),
    UnknownOpcode(u8),
    PayloadTooShort { opcode: u8, need: usize, got: usize },
}

} // verus!
