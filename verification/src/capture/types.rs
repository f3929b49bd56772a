//! Records kept by Capture Studio.

use vstd::prelude::*;

verus! {

/// Which way a recorded frame went.
#[derive(Debug, Clone, Copy, PartialEq, Eq, Structural)]
pub enum Direction {
    /// App to device (write).
    Tx,
    /// Device to app (notify).
    Rx,
    /// A note of the capture itself.
    Info,
}

/// One recorded frame or note.
#[derive(Debug)]
pub struct CaptureEntry {
    pub id: u64,
    pub ts_ms: u64,
    pub direction: Direction,
    pub hex: String,
    pub raw: Vec<u8>,
    /// Optional human label (guided step or manual note).
    pub label: Option<String>,
    /// Decoded hint if the frame was recognised.
    pub decoded: Option<String>,
    pub char_uuid: Option<String>,
}

/// A guided stimulus step and the entries recorded while it was current.
#[derive(Debug)]
pub struct GuidedStep {
    pub id: String,
    pub title: String,
    pub instruction: String,
    pub done: bool,
    pub entry_ids: Vec<u64>,
}

/// One characteristic of the device's GATT table.
#[derive(Debug)]
pub struct GattChar {
    pub uuid: String,
    pub properties: Vec<String>,
    pub service_uuid: String,
}

/// The state of a capture as the UI sees it.
#[derive(Debug)]
pub struct CaptureSession {
    pub active: bool,
    pub started_at_ms: Option<u64>,
    pub device_name: Option<String>,
    pub device_address: Option<String>,
    pub entries: Vec<CaptureEntry>,
    pub steps: Vec<GuidedStep>,
    pub gatt_map: Vec<GattChar>,
    pub current_step_id: Option<String>,
}

/// A capture exported for sharing.
#[derive(Debug)]
pub struct CaptureBundle {
    pub version: u32,
    pub exported_at_ms: u64,
    pub device_name: Option<String>,
    pub device_address: Option<String>,
    pub gatt_map: Vec<GattChar>,
    pub entries: Vec<CaptureEntry>,
    pub steps: Vec<GuidedStep>,
    pub notes: String,
}

/// The text of an optional string.
pub open spec fn opt_text(o: Option<String>) -> Option<Seq<char>> {
    match o {
        Some(s) => Some(s@),
        None => None,
    }
}

/// The texts of a vector of strings.
pub open spec fn texts(v: Seq<String>) -> Seq<Seq<char>> {
    v.map_values(|s: String| s@)
}

pub struct EntryView {
    pub id: u64,
    pub ts_ms: u64,
    pub direction: Direction,
    pub hex: Seq<char>,
    pub raw: Seq<u8>,
    pub label: Option<Seq<char>>,
    pub decoded: Option<Seq<char>>,
    pub char_uuid: Option<Seq<char>>,
}

impl View for CaptureEntry {
    type V = EntryView;

    open spec fn view(&self) -> EntryView {
        EntryView {
            id: self.id,
            ts_ms: self.ts_ms,
            direction: self.direction,
            hex: self.hex@,
            raw: self.raw@,
            label: opt_text(self.label),
            decoded: opt_text(self.decoded),
            char_uuid: opt_text(self.char_uuid),
        }
    }
}

pub struct StepView {
    pub id: Seq<char>,
    pub title: Seq<char>,
    pub instruction: Seq<char>,
    pub done: bool,
    pub entry_ids: Seq<u64>,
}

impl View for GuidedStep {
    type V = StepView;

    open spec fn view(&self) -> StepView {
        StepView {
            id: self.id@,
            title: self.title@,
            instruction: self.instruction@,
            done: self.done,
            entry_ids: self.entry_ids@,
        }
    }
}

pub struct GattView {
    pub uuid: Seq<char>,
    pub properties: Seq<Seq<char>>,
    pub service_uuid: Seq<char>,
}

impl View for GattChar {
    type V = GattView;

    open spec fn view(&self) -> GattView {
        GattView { uuid: self.uuid@, properties: texts(self.properties@), service_uuid: self.service_uuid@ }
    }
}

/// Views of every entry, in order.
pub open spec fn entry_views(v: Seq<CaptureEntry>) -> Seq<EntryView> {
    v.map_values(|e: CaptureEntry| e@)
}

/// Views of every step, in order.
pub open spec fn step_views(v: Seq<GuidedStep>) -> Seq<StepView> {
    v.map_values(|s: GuidedStep| s@)
}

/// Views of every characteristic, in order.
pub open spec fn gatt_views(v: Seq<GattChar>) -> Seq<GattView> {
    v.map_values(|c: GattChar| c@)
}

pub struct SessionView {
    pub active: bool,
    pub started_at_ms: Option<u64>,
    pub device_name: Option<Seq<char>>,
    pub device_address: Option<Seq<char>>,
    pub entries: Seq<EntryView>,
    pub steps: Seq<StepView>,
    pub gatt_map: Seq<GattView>,
    pub current_step_id: Option<Seq<char>>,
}

impl View for CaptureSession {
    type V = SessionView;

    open spec fn view(&self) -> SessionView {
        SessionView {
            active: self.active,
            started_at_ms: self.started_at_ms,
            device_name: opt_text(self.device_name),
            device_address: opt_text(self.device_address),
            entries: entry_views(self.entries@),
            steps: step_views(self.steps@),
            gatt_map: gatt_views(self.gatt_map@),
            current_step_id: opt_text(self.current_step_id),
        }
    }
}

} // verus!
