//! The live state of the Bluetooth side: scan results, the connected device,
//! the battery merged from notifications and the last noise mode.

use vstd::prelude::*;
use super::devices::{BleDevice, ConnectionState, DeviceView, ScanStatus, device_views, fallback_device};
use super::order::{listed_in_order, sort_devices};
use super::table::{
    DeviceTable, copy_device, find_device, lemma_find_device_range, lemma_with_connected_ids, retain_spec,
    upsert_spec, with_connected,
};
use crate::capture::types::opt_text;
use crate::protocol::types::{AncMode, BatteryState, DeviceEvent, EqPreset, anc_mode_byte, eq_preset_byte};
use crate::text::string_of;

verus! {

/// Battery after a notification's partial reading: a buds frame updates the
/// buds, a case frame the case, anything else both (keeping a known case
/// level over a zero, and a charging case flag once set).
pub open spec fn merge_battery(cur: BatteryState, p: BatteryState) -> BatteryState {
    let from_buds = p.left != 0 || p.right != 0 || (!p.case_charging && p.case == 0 && p.left == 0
        && p.right == 0);
    let from_case = p.case != 0 || p.case_charging || (p.left == 0 && p.right == 0);
    if from_buds && !from_case {
        BatteryState {
            left: p.left,
            right: p.right,
            left_charging: p.left_charging,
            right_charging: p.right_charging,
            ..cur
        }
    } else if from_case && p.left == 0 && p.right == 0 {
        BatteryState { case: p.case, case_charging: p.case_charging, ..cur }
    } else {
        BatteryState {
            left: p.left,
            right: p.right,
            case: if p.case != 0 { p.case } else { cur.case },
            left_charging: p.left_charging,
            right_charging: p.right_charging,
            case_charging: if p.case_charging { true } else { cur.case_charging },
        }
    }
}

/// Merge a partial battery reading into the current one.
pub fn merge_battery_reading(cur: BatteryState, p: BatteryState) -> (r: BatteryState)
    ensures
        r == merge_battery(cur, p),
{
    let from_buds = p.left != 0 || p.right != 0 || (!p.case_charging && p.case == 0 && p.left == 0
        && p.right == 0);
    let from_case = p.case != 0 || p.case_charging || (p.left == 0 && p.right == 0);
    if from_buds && !from_case {
        BatteryState {
            left: p.left,
            right: p.right,
            case: cur.case,
            left_charging: p.left_charging,
            right_charging: p.right_charging,
            case_charging: cur.case_charging,
        }
    } else if from_case && p.left == 0 && p.right == 0 {
        BatteryState {
            left: cur.left,
            right: cur.right,
            case: p.case,
            left_charging: cur.left_charging,
            right_charging: cur.right_charging,
            case_charging: p.case_charging,
        }
    } else {
        BatteryState {
            left: p.left,
            right: p.right,
            case: if p.case != 0 { p.case } else { cur.case },
            left_charging: p.left_charging,
            right_charging: p.right_charging,
            case_charging: if p.case_charging { true } else { cur.case_charging },
        }
    }
}

/// All levels zero, nothing charging.
pub open spec fn no_battery() -> BatteryState {
    BatteryState { left: 0, right: 0, case: 0, left_charging: false, right_charging: false, case_charging: false }
}

/// The battery a simulated connection starts with.
pub open spec fn mock_battery() -> BatteryState {
    BatteryState { left: 87, right: 92, case: 64, left_charging: false, right_charging: false, case_charging: true }
}

fn zero_battery() -> (r: BatteryState)
    ensures
        r == no_battery(),
{
    BatteryState { left: 0, right: 0, case: 0, left_charging: false, right_charging: false, case_charging: false }
}

/// The acknowledgement a simulated device sends for a noise mode.
pub fn anc_ack_frame(mode: AncMode) -> (r: Vec<u8>)
    ensures
        r@ == seq![0xAAu8, 0x34, anc_mode_byte(mode)],
{
    vec![0xAA, 0x34, mode.to_byte()]
}

/// The acknowledgement a simulated device sends for an EQ preset.
pub fn eq_ack_frame(preset: EqPreset) -> (r: Vec<u8>)
    ensures
        r@ == seq![0xAAu8, 0x43, eq_preset_byte(preset)],
{
    vec![0xAA, 0x43, preset.to_byte()]
}

/// The acknowledgement a simulated device sends for game mode.
pub fn game_ack_frame(on: bool) -> (r: Vec<u8>)
    ensures
        r@ == seq![0xAAu8, 0x23, if on { 1u8 } else { 0u8 }],
{
    vec![0xAA, 0x23, if on { 0x01 } else { 0x00 }]
}

/// The live Bluetooth state.
pub struct BleState {
    devices: DeviceTable,
    connected_id: Option<String>,
    scanning: bool,
    battery: BatteryState,
    last_anc: Option<AncMode>,
    mock: bool,
}

pub struct BleView {
    pub devices: Seq<DeviceView>,
    pub connected_id: Option<Seq<char>>,
    pub scanning: bool,
    pub battery: BatteryState,
    pub last_anc: Option<AncMode>,
    pub mock: bool,
}

impl View for BleState {
    type V = BleView;

    closed spec fn view(&self) -> BleView {
        BleView {
            devices: self.devices@,
            connected_id: opt_text(self.connected_id),
            scanning: self.scanning,
            battery: self.battery,
            last_anc: self.last_anc,
            mock: self.mock,
        }
    }
}

/// Whether the connected device (if any) has id `id`.
pub open spec fn is_connected_to(v: BleView, id: Seq<char>) -> bool {
    v.connected_id == Some(id)
}

impl BleState {
    /// Nothing found, nothing connected, no battery known.
    pub fn new() -> (r: BleState)
        ensures
            r@ == (BleView {
                devices: Seq::empty(),
                connected_id: None,
                scanning: false,
                battery: no_battery(),
                last_anc: None,
                mock: false,
            }),
    {
        BleState {
            devices: DeviceTable::new(),
            connected_id: None,
            scanning: false,
            battery: zero_battery(),
            last_anc: None,
            mock: false,
        }
    }

    /// The current battery reading.
    pub fn battery(&self) -> (r: BatteryState)
        ensures
            r == self@.battery,
    {
        self.battery
    }

    /// The last noise mode the device reported or was sent.
    pub fn last_anc(&self) -> (r: Option<AncMode>)
        ensures
            r == self@.last_anc,
    {
        self.last_anc
    }

    /// Whether the link is simulated.
    pub fn is_mock(&self) -> (r: bool)
        ensures
            r == self@.mock,
    {
        self.mock
    }

    /// The id of the connected device.
    pub fn connected_id(&self) -> (r: &Option<String>)
        ensures
            opt_text(*r) == self@.connected_id,
    {
        &self.connected_id
    }

    /// Start a real scan: forget every device but the connected one. A scan
    /// already running is left alone; the result says whether one started.
    pub fn begin_scan(&mut self) -> (started: bool)
        ensures
            started == !old(self)@.scanning,
            !started ==> final(self)@ == old(self)@,
            started ==> final(self)@ == (BleView {
                devices: retain_spec(old(self)@.devices, old(self)@.connected_id),
                scanning: true,
                mock: false,
                ..old(self)@
            }),
    {
        if self.scanning {
            return false;
        }
        self.devices.retain_only(&self.connected_id);
        self.scanning = true;
        self.mock = false;
        true
    }

    /// Start a simulated scan from an empty list.
    pub fn begin_mock_scan(&mut self)
        ensures
            final(self)@ == (BleView { devices: Seq::empty(), scanning: true, mock: true, ..old(self)@ }),
    {
        self.scanning = true;
        self.mock = true;
        self.devices.clear();
    }

    /// Stop scanning; the result says whether a scan was running.
    pub fn end_scan(&mut self) -> (was_scanning: bool)
        ensures
            was_scanning == old(self)@.scanning,
            final(self)@ == (BleView { scanning: false, ..old(self)@ }),
    {
        let was = self.scanning;
        self.scanning = false;
        was
    }

    /// Store a device a scan found.
    pub fn add_device(&mut self, d: BleDevice)
        ensures
            final(self)@ == (BleView { devices: upsert_spec(old(self)@.devices, d@), ..old(self)@ }),
    {
        self.devices.upsert(d);
    }

    /// Store a simulated device, unless the simulated scan has ended.
    pub fn add_mock_device(&mut self, d: BleDevice) -> (added: bool)
        ensures
            added == old(self)@.scanning,
            added ==> final(self)@ == (BleView { devices: upsert_spec(old(self)@.devices, d@), ..old(self)@ }),
            !added ==> final(self)@ == old(self)@,
    {
        if !self.scanning {
            return false;
        }
        self.devices.upsert(d);
        true
    }

    /// A device dropped its link: if it was the connected one the connection
    /// and battery are forgotten; it is shown as not connected.
    pub fn on_device_disconnected(&mut self, id: &str)
        ensures
            final(self)@ == (BleView {
                devices: with_connected(old(self)@.devices, id@, false),
                connected_id: if is_connected_to(old(self)@, id@) { None } else { old(self)@.connected_id },
                battery: if is_connected_to(old(self)@, id@) { no_battery() } else { old(self)@.battery },
                ..old(self)@
            }),
    {
        let same = match &self.connected_id {
            Some(c) => crate::text::str_eq(c.as_str(), id),
            None => false,
        };
        if same {
            self.connected_id = None;
            self.battery = zero_battery();
        }
        self.devices.set_connected(id, false);
    }

    /// A real connection is about to be attempted.
    pub fn begin_connect(&mut self)
        ensures
            final(self)@ == (BleView { mock: false, ..old(self)@ }),
    {
        self.mock = false;
    }

    /// A real connection succeeded: the device is connected, and is returned
    /// as listed (or as a generic Baseus entry if the scan never listed it).
    pub fn on_connected(&mut self, id: String) -> (r: BleDevice)
        ensures
            final(self)@ == (BleView {
                devices: with_connected(old(self)@.devices, id@, true),
                connected_id: Some(id@),
                ..old(self)@
            }),
            match find_device(old(self)@.devices, id@) {
                Some(k) => r@ == (DeviceView { connected: true, ..old(self)@.devices[k] }),
                None => r@ == fallback_device_view(id@),
            },
    {
        self.devices.set_connected(id.as_str(), true);
        proof {
            lemma_with_connected_ids(old(self)@.devices, id@, true, id@);
            lemma_find_device_range(old(self)@.devices, id@, 0);
        }
        let dev = match self.devices.get(id.as_str()) {
            Some(d) => copy_device(d),
            None => fallback_device(id.clone()),
        };
        self.connected_id = Some(id);
        dev
    }

    /// Connect to a simulated device: it must be listed; the battery starts
    /// from a fixed reading. The link is simulated from here on either way.
    pub fn mock_connect(&mut self, id: String) -> (r: Result<BleDevice, String>)
        ensures
            match find_device(old(self)@.devices, id@) {
                Some(k) => (r matches Ok(d) && d@ == (DeviceView { connected: true, ..old(self)@.devices[k] }))
                    && final(self)@ == (BleView {
                        devices: with_connected(old(self)@.devices, id@, true),
                        connected_id: Some(id@),
                        battery: mock_battery(),
                        mock: true,
                        ..old(self)@
                    }),
                None => (r matches Err(e) && e@ == "Mock device not found"@)
                    && final(self)@ == (BleView { mock: true, ..old(self)@ }),
            },
    {
        self.mock = true;
        if self.devices.position(id.as_str()).is_none() {
            return Err(string_of("Mock device not found"));
        }
        self.devices.set_connected(id.as_str(), true);
        proof {
            lemma_with_connected_ids(old(self)@.devices, id@, true, id@);
            lemma_find_device_range(old(self)@.devices, id@, 0);
        }
        let dev = match self.devices.get(id.as_str()) {
            Some(d) => copy_device(d),
            None => fallback_device(id.clone()),
        };
        self.connected_id = Some(id);
        self.battery = BatteryState {
            left: 87,
            right: 92,
            case: 64,
            left_charging: false,
            right_charging: false,
            case_charging: true,
        };
        Ok(dev)
    }

    /// Disconnect: forget the connection, battery and noise mode, and show
    /// the device as not connected. Returns the id that was connected.
    pub fn disconnect(&mut self) -> (r: Option<String>)
        ensures
            opt_text(r) == old(self)@.connected_id,
            match old(self)@.connected_id {
                Some(id) => final(self)@ == (BleView {
                    devices: with_connected(old(self)@.devices, id, false),
                    connected_id: None,
                    battery: no_battery(),
                    last_anc: None,
                    ..old(self)@
                }),
                None => final(self)@ == old(self)@,
            },
    {
        let id = match &self.connected_id {
            Some(id) => id.clone(),
            None => return None,
        };
        self.connected_id = None;
        self.battery = zero_battery();
        self.last_anc = None;
        self.devices.set_connected(id.as_str(), false);
        Some(id)
    }

    /// Record the noise mode just sent.
    pub fn set_last_anc(&mut self, mode: AncMode)
        ensures
            final(self)@ == (BleView { last_anc: Some(mode), ..old(self)@ }),
    {
        self.last_anc = Some(mode);
    }

    /// Take in a decoded notification: battery readings are merged, a noise
    /// mode is remembered; other events change nothing here.
    pub fn apply_event(&mut self, event: &DeviceEvent)
        ensures
            final(self)@ == match *event {
                DeviceEvent::Battery(p) => BleView { battery: merge_battery(old(self)@.battery, p), ..old(self)@ },
                DeviceEvent::Anc(m) => BleView { last_anc: Some(m), ..old(self)@ },
                _ => old(self)@,
            },
    {
        match event {
            DeviceEvent::Battery(p) => {
                self.battery = merge_battery_reading(self.battery, *p);
            },
            DeviceEvent::Anc(m) => {
                self.last_anc = Some(*m);
            },
            _ => {},
        }
    }

    /// The scan results in listing order.
    pub fn scan_status(&self) -> (r: ScanStatus)
        ensures
            r.scanning == self@.scanning,
            r.error is None,
            listed_in_order(device_views(r.devices@)),
            device_views(r.devices@).to_multiset() == self@.devices.to_multiset(),
    {
        let src = self.devices.devices();
        let mut copies: Vec<BleDevice> = Vec::new();
        let mut i: usize = 0;
        while i < src.len()
            invariant
                i <= src.len(),
                device_views(copies@) == device_views(src@).take(i as int),
            decreases src.len() - i,
        {
            let d = copy_device(&src[i]);
            assert(device_views(src@)[i as int] == src@[i as int]@);
            let ghost prev = copies@;
            copies.push(d);
            assert(device_views(copies@) =~= device_views(prev).push(d@));
            assert(device_views(copies@) =~= device_views(src@).take(i + 1));
            i = i + 1;
        }
        assert(device_views(src@).take(src.len() as int) =~= device_views(src@));
        ScanStatus { scanning: self.scanning, devices: sort_devices(copies), error: None }
    }

    /// Whether a device is connected, with its listing.
    pub fn connection_state(&self) -> (r: ConnectionState)
        ensures
            r.connected == (self@.connected_id is Some),
            r.error is None,
            match self@.connected_id {
                Some(id) => match find_device(self@.devices, id) {
                    Some(k) => r.device matches Some(d) && d@ == self@.devices[k],
                    None => r.device is None,
                },
                None => r.device is None,
            },
    {
        let device = match &self.connected_id {
            Some(id) => match self.devices.get(id.as_str()) {
                Some(d) => Some(copy_device(d)),
                None => None,
            },
            None => None,
        };
        ConnectionState { connected: self.connected_id.is_some(), device, error: None }
    }
}

/// The generic entry for a connected device the scan never listed.
pub open spec fn fallback_device_view(id: Seq<char>) -> DeviceView {
    DeviceView {
        id,
        name: "Baseus"@,
        address: Seq::empty(),
        rssi: 0,
        is_baseus: true,
        connected: true,
        model_id: None,
        model_name: None,
        support: Some("experimental"@),
    }
}

impl BleState {
    /// The device a write goes to: a simulated link has none (`MOCK`), and
    /// without a connection there is nothing to write to.
    pub fn write_target(&self) -> (r: Result<String, String>)
        ensures
            self@.mock ==> (r matches Err(e) && e@ == "MOCK"@),
            !self@.mock ==> match self@.connected_id {
                Some(id) => r matches Ok(t) && t@ == id,
                None => r matches Err(e) && e@ == "Not connected"@,
            },
    {
        if self.mock {
            return Err(string_of("MOCK"));
        }
        match &self.connected_id {
            Some(id) => Ok(id.clone()),
            None => Err(string_of("Not connected")),
        }
    }
}

} // verus!
