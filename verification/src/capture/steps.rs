//! The guided stimulus steps a capture walks through.

use vstd::prelude::*;
use super::types::{GuidedStep, StepView, step_views};
use crate::text::string_of;

verus! {

/// A step that is not done and has no entries yet.
pub open spec fn fresh_step(id: Seq<char>, title: Seq<char>, instruction: Seq<char>) -> StepView {
    StepView { id, title, instruction, done: false, entry_ids: Seq::empty() }
}

/// The nine guided steps, in the order a capture walks through them.
pub open spec fn default_steps() -> Seq<StepView> {
    seq![
        fresh_step("connect"@, "1. Connect"@,
            "Pair and connect the earbuds. Watch for identity / handshake frames."@),
        fresh_step("battery"@, "2. Battery"@,
            "Open the case lid (or put buds in/out). Capture battery notify frames."@),
        fresh_step("anc_off"@, "3. ANC Off"@,
            "Set ANC to Off from the control UI (or write BA 34 00 FF)."@),
        fresh_step("anc_on"@, "4. ANC On"@,
            "Enable ANC. Note mode byte + strength level in TX and ack in RX."@),
        fresh_step("transparency"@, "5. Transparency"@, "Switch to Ambient / Transparency mode."@),
        fresh_step("eq"@, "6. EQ presets"@,
            "Cycle EQ: Balanced → Bass → Voice → Clear. Mark each TX/RX pair."@),
        fresh_step("game"@, "7. Game mode"@, "Toggle Game / low-latency mode ON then OFF."@),
        fresh_step("find"@, "8. Find buds"@, "Trigger Find My Buds if available."@),
        fresh_step("disconnect"@, "9. Disconnect"@, "Close case or disconnect. Capture teardown frames."@),
    ]
}

fn new_step(id: &str, title: &str, instruction: &str) -> (r: GuidedStep)
    ensures
        r@ == fresh_step(id@, title@, instruction@),
{
    let r = GuidedStep {
        id: string_of(id),
        title: string_of(title),
        instruction: string_of(instruction),
        done: false,
        entry_ids: Vec::new(),
    };
    assert(r.entry_ids@ =~= Seq::<u64>::empty());
    r
}

/// The guided steps of a fresh capture.
pub fn default_guided_steps() -> (r: Vec<GuidedStep>)
    ensures
        step_views(r@) == default_steps(),
{
    let mut v: Vec<GuidedStep> = Vec::new();
    v.push(new_step("connect", "1. Connect",
        "Pair and connect the earbuds. Watch for identity / handshake frames."));
    v.push(new_step("battery", "2. Battery",
        "Open the case lid (or put buds in/out). Capture battery notify frames."));
    v.push(new_step("anc_off", "3. ANC Off",
        "Set ANC to Off from the control UI (or write BA 34 00 FF)."));
    v.push(new_step("anc_on", "4. ANC On",
        "Enable ANC. Note mode byte + strength level in TX and ack in RX."));
    v.push(new_step("transparency", "5. Transparency", "Switch to Ambient / Transparency mode."));
    v.push(new_step("eq", "6. EQ presets",
        "Cycle EQ: Balanced → Bass → Voice → Clear. Mark each TX/RX pair."));
    v.push(new_step("game", "7. Game mode", "Toggle Game / low-latency mode ON then OFF."));
    v.push(new_step("find", "8. Find buds", "Trigger Find My Buds if available."));
    v.push(new_step("disconnect", "9. Disconnect", "Close case or disconnect. Capture teardown frames."));
    assert(step_views(v@) =~= default_steps());
    v
}

} // verus!
