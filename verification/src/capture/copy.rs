//! Verified copies of the journal, for snapshots and exports.

use vstd::prelude::*;
use super::store::CaptureStore;
use super::types::{
    CaptureBundle, CaptureEntry, CaptureSession, EntryView, GattChar, GattView, GuidedStep, StepView, entry_views, gatt_views, opt_text, step_views, texts,
};

verus! {

/// A copy of an entry.
pub fn copy_entry(e: &CaptureEntry) -> (r: CaptureEntry)
    ensures
        r@ == e@,
{
    let raw = e.raw.clone();
    assert(raw@ =~= e.raw@);
    CaptureEntry {
        id: e.id,
        ts_ms: e.ts_ms,
        direction: e.direction,
        hex: e.hex.clone(),
        raw,
        label: e.label.clone(),
        decoded: e.decoded.clone(),
        char_uuid: e.char_uuid.clone(),
    }
}

/// A copy of a step.
pub fn copy_step(s: &GuidedStep) -> (r: GuidedStep)
    ensures
        r@ == s@,
{
    let ids = s.entry_ids.clone();
    assert(ids@ =~= s.entry_ids@);
    GuidedStep {
        id: s.id.clone(),
        title: s.title.clone(),
        instruction: s.instruction.clone(),
        done: s.done,
        entry_ids: ids,
    }
}

/// A copy of a characteristic.
pub fn copy_gatt(c: &GattChar) -> (r: GattChar)
    ensures
        r@ == c@,
{
    let props = c.properties.clone();
    assert(texts(props@) =~= texts(c.properties@));
    GattChar { uuid: c.uuid.clone(), properties: props, service_uuid: c.service_uuid.clone() }
}

/// Copies of every entry.
pub fn copy_entries(v: &Vec<CaptureEntry>) -> (r: Vec<CaptureEntry>)
    ensures
        entry_views(r@) == entry_views(v@),
{
    let mut out: Vec<CaptureEntry> = Vec::new();
    let mut i: usize = 0;
    while i < v.len()
        invariant
            i <= v.len(),
            entry_views(out@) == entry_views(v@).take(i as int),
        decreases v.len() - i,
    {
        let e = copy_entry(&v[i]);
        let ghost prev = out@;
        out.push(e);
        assert(entry_views(out@) =~= entry_views(prev).push(e@));
        assert(entry_views(v@).take(i + 1) =~= entry_views(v@).take(i as int).push(v@[i as int]@));
        i = i + 1;
    }
    assert(entry_views(v@).take(v.len() as int) =~= entry_views(v@));
    out
}

/// Copies of every step.
pub fn copy_steps(v: &Vec<GuidedStep>) -> (r: Vec<GuidedStep>)
    ensures
        step_views(r@) == step_views(v@),
{
    let mut out: Vec<GuidedStep> = Vec::new();
    let mut i: usize = 0;
    while i < v.len()
        invariant
            i <= v.len(),
            step_views(out@) == step_views(v@).take(i as int),
        decreases v.len() - i,
    {
        let s = copy_step(&v[i]);
        let ghost prev = out@;
        out.push(s);
        assert(step_views(out@) =~= step_views(prev).push(s@));
        assert(step_views(v@).take(i + 1) =~= step_views(v@).take(i as int).push(v@[i as int]@));
        i = i + 1;
    }
    assert(step_views(v@).take(v.len() as int) =~= step_views(v@));
    out
}

/// Copies of every characteristic.
pub fn copy_gatt_map(v: &Vec<GattChar>) -> (r: Vec<GattChar>)
    ensures
        gatt_views(r@) == gatt_views(v@),
{
    let mut out: Vec<GattChar> = Vec::new();
    let mut i: usize = 0;
    while i < v.len()
        invariant
            i <= v.len(),
            gatt_views(out@) == gatt_views(v@).take(i as int),
        decreases v.len() - i,
    {
        let c = copy_gatt(&v[i]);
        let ghost prev = out@;
        out.push(c);
        assert(gatt_views(out@) =~= gatt_views(prev).push(c@));
        assert(gatt_views(v@).take(i + 1) =~= gatt_views(v@).take(i as int).push(v@[i as int]@));
        i = i + 1;
    }
    assert(gatt_views(v@).take(v.len() as int) =~= gatt_views(v@));
    out
}

pub struct BundleView {
    pub version: u32,
    pub exported_at_ms: u64,
    pub device_name: Option<Seq<char>>,
    pub device_address: Option<Seq<char>>,
    pub gatt_map: Seq<GattView>,
    pub entries: Seq<EntryView>,
    pub steps: Seq<StepView>,
    pub notes: Seq<char>,
}

impl View for CaptureBundle {
    type V = BundleView;

    open spec fn view(&self) -> BundleView {
        BundleView {
            version: self.version,
            exported_at_ms: self.exported_at_ms,
            device_name: opt_text(self.device_name),
            device_address: opt_text(self.device_address),
            gatt_map: gatt_views(self.gatt_map@),
            entries: entry_views(self.entries@),
            steps: step_views(self.steps@),
            notes: self.notes@,
        }
    }
}

/// Version of the bundle format.
pub const BUNDLE_VERSION: u32 = 1;

impl CaptureStore {
    /// A copy of the session as the UI sees it.
    pub fn snapshot(&self) -> (r: CaptureSession)
        ensures
            r@ == self@.session,
    {
        let s = self.session();
        CaptureSession {
            active: s.active,
            started_at_ms: s.started_at_ms,
            device_name: s.device_name.clone(),
            device_address: s.device_address.clone(),
            entries: copy_entries(&s.entries),
            steps: copy_steps(&s.steps),
            gatt_map: copy_gatt_map(&s.gatt_map),
            current_step_id: s.current_step_id.clone(),
        }
    }

    /// The journal packed for sharing, stamped `exported_at_ms`, with the
    /// given notes (empty when none).
    pub fn export_bundle(&self, notes: Option<String>, exported_at_ms: u64) -> (r: Result<CaptureBundle, String>)
        ensures
            r matches Ok(b) && b@ == (BundleView {
                version: BUNDLE_VERSION,
                exported_at_ms,
                device_name: self@.session.device_name,
                device_address: self@.session.device_address,
                gatt_map: self@.session.gatt_map,
                entries: self@.session.entries,
                steps: self@.session.steps,
                notes: match notes {
                    Some(n) => n@,
                    None => Seq::empty(),
                },
            }),
    {
        let s = self.session();
        let notes = match notes {
            Some(n) => n,
            None => String::new(),
        };
        Ok(CaptureBundle {
            version: BUNDLE_VERSION,
            exported_at_ms,
            device_name: s.device_name.clone(),
            device_address: s.device_address.clone(),
            gatt_map: copy_gatt_map(&s.gatt_map),
            entries: copy_entries(&s.entries),
            steps: copy_steps(&s.steps),
            notes,
        })
    }
}

} // verus!
