//! Routing of semantic listening / feature commands to the protocol family
//! resolved for a device.

use vstd::prelude::*;
use super::bp1_pro::Bp1ProAnc;
use super::codec::{command_bytes, encode_command};
use super::models::ProtocolFamily;
use super::profile::{DeviceProfile, DeviceProfileView};
use super::types::{AncMode, Command, EqPreset, SpatialMode};
use crate::text::{decimal, push_decimal, string_of};

verus! {

/// Noise control as the official app presents it.
#[derive(Debug, Clone, Copy, PartialEq, Eq, Structural)]
pub enum ListeningCommand {
    Normal,
    TransparencyFull,
    TransparencyVoice,
    CustomLevel(u8),
    AdaptiveEnvironment(u16),
}

/// Other listening features.
#[derive(Debug, Clone, Copy, PartialEq, Eq, Structural)]
pub enum FeatureCommand {
    SetEq(EqPreset),
    SetEqIndex(u8),
    SetGameMode(bool),
    SetSpatial(SpatialMode),
    SetBassBoost(u8),
    SetLdac(bool),
    SetHearingProtection { enabled: bool, level: u8 },
    FindBuds(bool),
}

/// Logical command of a feature.
pub open spec fn feature_command(c: FeatureCommand) -> Command {
    match c {
        FeatureCommand::SetEq(p) => Command::SetEq(p),
        FeatureCommand::SetEqIndex(i) => Command::SetEqIndex(i),
        FeatureCommand::SetGameMode(on) => Command::SetGameMode(on),
        FeatureCommand::SetSpatial(m) => Command::SetSpatial(m),
        FeatureCommand::SetBassBoost(l) => Command::SetBassBoost(l),
        FeatureCommand::SetLdac(on) => Command::SetLdac(on),
        FeatureCommand::SetHearingProtection { enabled, level } => Command::SetHearingProtection { enabled, level },
        FeatureCommand::FindBuds(start) => Command::FindBuds(start),
    }
}

pub open spec fn no_protocol_message() -> Seq<char> {
    "No protocol is verified for this model"@
}

/// Bytes of a feature command: refused when no protocol is known for the model.
pub open spec fn feature_result(p: DeviceProfileView, c: FeatureCommand) -> Result<Seq<u8>, Seq<char>> {
    if p.protocol == ProtocolFamily::Unknown {
        Err(no_protocol_message())
    } else {
        Ok(command_bytes(feature_command(c)))
    }
}

pub open spec fn result_view(r: Result<Vec<u8>, String>) -> Result<Seq<u8>, Seq<char>> {
    match r {
        Ok(v) => Ok(v@),
        Err(s) => Err(s@),
    }
}

pub fn encode_feature(profile: &DeviceProfile, command: FeatureCommand) -> (r: Result<Vec<u8>, String>)
    ensures
        result_view(r) == feature_result(profile@, command),
{
    match profile.protocol {
        ProtocolFamily::Unknown => return Err(string_of("No protocol is verified for this model")),
        _ => {},
    }
    let bp1 = match profile.protocol {
        ProtocolFamily::Bp1Pro => true,
        _ => false,
    };
    match command {
        FeatureCommand::SetEq(preset) => {
            if bp1 { Ok(Bp1ProAnc::cmd_set_eq(preset)) } else { Ok(encode_command(Command::SetEq(preset))) }
        },
        FeatureCommand::SetEqIndex(index) => Ok(encode_command(Command::SetEqIndex(index))),
        FeatureCommand::SetGameMode(on) => {
            if bp1 { Ok(Bp1ProAnc::cmd_set_game_mode(on)) } else { Ok(encode_command(Command::SetGameMode(on))) }
        },
        FeatureCommand::SetSpatial(mode) => Ok(encode_command(Command::SetSpatial(mode))),
        FeatureCommand::SetBassBoost(level) => Ok(encode_command(Command::SetBassBoost(level))),
        FeatureCommand::SetLdac(enabled) => Ok(encode_command(Command::SetLdac(enabled))),
        FeatureCommand::SetHearingProtection { enabled, level } => {
            Ok(encode_command(Command::SetHearingProtection { enabled, level }))
        },
        FeatureCommand::FindBuds(start) => {
            if bp1 { Ok(Bp1ProAnc::cmd_find_buds(start)) } else { Ok(encode_command(Command::FindBuds(start))) }
        },
    }
}

/// Wire mode and parameter of a listening command, or why the model refuses it.
pub open spec fn listening_params(p: DeviceProfileView, c: ListeningCommand) -> Result<(AncMode, u8), Seq<char>> {
    match c {
        ListeningCommand::Normal => Ok((AncMode::Off, 0xFF)),
        ListeningCommand::TransparencyFull => Ok((AncMode::Transparency, 0xFF)),
        ListeningCommand::TransparencyVoice => {
            if !p.noise.supports_transparency_voice {
                Err("Transparency voice mode is not supported by this model"@)
            } else {
                Ok((AncMode::Transparency, 0x01))
            }
        },
        ListeningCommand::CustomLevel(level) => {
            let max = p.noise.max_custom_level;
            if max == 0 || level == 0 || level > max {
                Err("Custom ANC level "@ + decimal(level as nat) + " is not supported by this model"@)
            } else {
                Ok((AncMode::Anc, level))
            }
        },
        ListeningCommand::AdaptiveEnvironment(env) => {
            if !p.noise.supports_adaptive || !p.noise.environments.contains(env) {
                Err("Adaptive environment "@ + decimal(env as nat) + " is not supported by this model"@)
            } else if env > 255 {
                Err("Invalid environment"@)
            } else {
                Ok((AncMode::Anc, env as u8))
            }
        },
    }
}

/// Bytes of a listening command: `BA 34 <mode> <parameter>` for a known family.
pub open spec fn listening_result(p: DeviceProfileView, c: ListeningCommand) -> Result<Seq<u8>, Seq<char>> {
    match listening_params(p, c) {
        Err(e) => Err(e),
        Ok((mode, parameter)) => {
            if p.protocol == ProtocolFamily::Unknown {
                Err(no_protocol_message())
            } else {
                Ok(command_bytes(Command::SetNoise { mode, parameter }))
            }
        },
    }
}

fn message_with_number(prefix: &str, n: u64, suffix: &str) -> (r: String)
    ensures
        r@ == prefix@ + decimal(n as nat) + suffix@,
{
    let mut s = string_of(prefix);
    push_decimal(&mut s, n);
    s.append(suffix);
    s
}

fn contains_u16(v: &Vec<u16>, x: u16) -> (r: bool)
    ensures
        r == v@.contains(x),
{
    let mut i: usize = 0;
    while i < v.len()
        invariant
            i <= v.len(),
            forall|j: int| 0 <= j < i ==> v@[j] != x,
        decreases v.len() - i,
    {
        if v[i] == x {
            return true;
        }
        i = i + 1;
    }
    false
}

pub fn encode_listening(profile: &DeviceProfile, command: ListeningCommand) -> (r: Result<Vec<u8>, String>)
    ensures
        result_view(r) == listening_result(profile@, command),
{
    let (mode, parameter): (AncMode, u8) = match command {
        ListeningCommand::Normal => (AncMode::Off, 0xFF),
        ListeningCommand::TransparencyFull => (AncMode::Transparency, 0xFF),
        ListeningCommand::TransparencyVoice => {
            if !profile.noise.supports_transparency_voice {
                return Err(string_of("Transparency voice mode is not supported by this model"));
            }
            (AncMode::Transparency, 0x01)
        },
        ListeningCommand::CustomLevel(level) => {
            let max = profile.noise.max_custom_level;
            if max == 0 || level == 0 || level > max {
                return Err(message_with_number("Custom ANC level ", level as u64, " is not supported by this model"));
            }
            (AncMode::Anc, level)
        },
        ListeningCommand::AdaptiveEnvironment(environment) => {
            if !profile.noise.supports_adaptive || !contains_u16(&profile.noise.environments, environment) {
                return Err(message_with_number("Adaptive environment ", environment as u64, " is not supported by this model"));
            }
            if environment > 255 {
                return Err(string_of("Invalid environment"));
            }
            (AncMode::Anc, environment as u8)
        },
    };
    match profile.protocol {
        ProtocolFamily::Bp1Pro => Ok(Bp1ProAnc::cmd_set_noise(mode, parameter)),
        ProtocolFamily::BaseusAaBaExperimental => Ok(encode_command(Command::SetNoise { mode, parameter })),
        ProtocolFamily::Unknown => Err(string_of("No protocol is verified for this model")),
    }
}

} // verus!
