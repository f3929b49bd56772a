//! Queries sent once a device is connected.

use vstd::prelude::*;
use crate::protocol::models::ModelInfo;
use crate::protocol::profile::DeviceProfile;
use crate::protocol::types::Command;

verus! {

#[derive(Debug, Clone, Copy, PartialEq, Eq, Structural)]
pub enum StartupQuery {
    Battery,
    Eq,
    Ldac,
    HearingProtection,
}

/// Battery always; EQ and LDAC when the model declares them; hearing protection
/// only when declared and the profile is verified. No model: battery only.
pub open spec fn startup_plan(model: Option<(bool, bool, bool)>, verified: bool) -> Seq<StartupQuery> {
    match model {
        None => seq![StartupQuery::Battery],
        Some((eq, ldac, hearing)) => {
            let a = seq![StartupQuery::Battery];
            let b = if eq { a.push(StartupQuery::Eq) } else { a };
            let c = if ldac { b.push(StartupQuery::Ldac) } else { b };
            if hearing && verified { c.push(StartupQuery::HearingProtection) } else { c }
        },
    }
}

pub fn plan_for(model: Option<&ModelInfo>, profile: &DeviceProfile) -> (r: Vec<StartupQuery>)
    ensures
        r@ == startup_plan(
            match model {
                Some(m) => Some((m.capabilities.eq, m.capabilities.ldac, m.capabilities.hearing_protection)),
                None => None,
            },
            profile.verified,
        ),
{
    let mut plan: Vec<StartupQuery> = Vec::new();
    plan.push(StartupQuery::Battery);
    let model = match model {
        Some(m) => m,
        None => {
            assert(plan@ =~= seq![StartupQuery::Battery]);
            return plan;
        },
    };
    let ghost a = plan@;
    assert(a =~= seq![StartupQuery::Battery]);
    if model.capabilities.eq {
        plan.push(StartupQuery::Eq);
    }
    if model.capabilities.ldac {
        plan.push(StartupQuery::Ldac);
    }
    if model.capabilities.hearing_protection && profile.verified {
        plan.push(StartupQuery::HearingProtection);
    }
    plan
}

/// Wire command of a startup query.
pub open spec fn startup_command(q: StartupQuery) -> Command {
    match q {
        StartupQuery::Battery => Command::QueryBattery,
        StartupQuery::Eq => Command::QueryEq,
        StartupQuery::Ldac => Command::QueryLdac,
        StartupQuery::HearingProtection => Command::QueryHearingProtection,
    }
}

pub fn command_for(query: StartupQuery) -> (r: Option<Command>)
    ensures
        r == Some(startup_command(query)),
{
    match query {
        StartupQuery::Battery => Some(Command::QueryBattery),
        StartupQuery::Eq => Some(Command::QueryEq),
        StartupQuery::Ldac => Some(Command::QueryLdac),
        StartupQuery::HearingProtection => Some(Command::QueryHearingProtection),
    }
}

} // verus!
