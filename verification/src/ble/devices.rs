//! Scanned devices and how they are presented.

use vstd::prelude::*;
use crate::capture::types::opt_text;
use crate::protocol::models::{SupportLevel, identified, identify, looks_like_baseus, looks_like_baseus_spec};
use crate::text::{hex2, push_hex2, string_of};

verus! {

/// A device seen by a scan.
#[derive(Debug)]
pub struct BleDevice {
    pub id: String,
    pub name: String,
    pub address: String,
    pub rssi: i16,
    pub is_baseus: bool,
    pub connected: bool,
    /// Matched catalog model id (e.g. bass-bp1-pro).
    pub model_id: Option<String>,
    pub model_name: Option<String>,
    /// verified | experimental | scanOnly
    pub support: Option<String>,
}

/// Whether a device is connected, and which.
#[derive(Debug)]
pub struct ConnectionState {
    pub connected: bool,
    pub device: Option<BleDevice>,
    pub error: Option<String>,
}

/// Whether a scan runs, and what it found.
#[derive(Debug)]
pub struct ScanStatus {
    pub scanning: bool,
    pub devices: Vec<BleDevice>,
    pub error: Option<String>,
}

pub struct DeviceView {
    pub id: Seq<char>,
    pub name: Seq<char>,
    pub address: Seq<char>,
    pub rssi: i16,
    pub is_baseus: bool,
    pub connected: bool,
    pub model_id: Option<Seq<char>>,
    pub model_name: Option<Seq<char>>,
    pub support: Option<Seq<char>>,
}

impl View for BleDevice {
    type V = DeviceView;

    open spec fn view(&self) -> DeviceView {
        DeviceView {
            id: self.id@,
            name: self.name@,
            address: self.address@,
            rssi: self.rssi,
            is_baseus: self.is_baseus,
            connected: self.connected,
            model_id: opt_text(self.model_id),
            model_name: opt_text(self.model_name),
            support: opt_text(self.support),
        }
    }
}

/// Views of every device, in order.
pub open spec fn device_views(v: Seq<BleDevice>) -> Seq<DeviceView> {
    v.map_values(|d: BleDevice| d@)
}

/// How a support level is shown.
pub open spec fn support_text(s: SupportLevel) -> Seq<char> {
    match s {
        SupportLevel::Verified => "verified"@,
        SupportLevel::Experimental => "experimental"@,
        SupportLevel::ScanOnly => "scanOnly"@,
    }
}

/// What a device list shows for a name: a catalog model gives its id, name
/// and support level; another Baseus-looking name is scan-only; anything
/// else is not Baseus.
pub open spec fn model_fields_spec(name: Seq<char>) -> (bool, Option<Seq<char>>, Option<Seq<char>>, Option<Seq<char>>) {
    match identified(name) {
        Some(m) => (true, Some(m.id), Some(m.display_name), Some(support_text(m.support))),
        None => if looks_like_baseus_spec(name) {
            (true, None, None, Some("scanOnly"@))
        } else {
            (false, None, None, None)
        },
    }
}

/// Whether a name looks like a Baseus product.
pub fn is_likely_baseus(name: &str) -> (r: bool)
    ensures
        r == looks_like_baseus_spec(name@),
{
    looks_like_baseus(name)
}

fn support_string(s: SupportLevel) -> (r: String)
    ensures
        r@ == support_text(s),
{
    match s {
        SupportLevel::Verified => string_of("verified"),
        SupportLevel::Experimental => string_of("experimental"),
        SupportLevel::ScanOnly => string_of("scanOnly"),
    }
}

/// The catalog fields a device list shows for a name.
pub fn model_fields(name: &str) -> (r: (bool, Option<String>, Option<String>, Option<String>))
    ensures
        (r.0, opt_text(r.1), opt_text(r.2), opt_text(r.3)) == model_fields_spec(name@),
{
    match identify(name) {
        Some(m) => {
            let support = support_string(m.support);
            (true, Some(m.id), Some(m.display_name), Some(support))
        },
        None => {
            if looks_like_baseus(name) {
                (true, None, None, Some(string_of("scanOnly")))
            } else {
                (false, None, None, None)
            }
        },
    }
}

/// The entry shown for a connected device the scan never listed.
pub fn fallback_device(id: String) -> (r: BleDevice)
    ensures
        r@ == (DeviceView {
            id: id@,
            name: "Baseus"@,
            address: Seq::empty(),
            rssi: 0,
            is_baseus: true,
            connected: true,
            model_id: None,
            model_name: None,
            support: Some("experimental"@),
        }),
{
    BleDevice {
        id,
        name: string_of("Baseus"),
        address: String::new(),
        rssi: 0,
        is_baseus: true,
        connected: true,
        model_id: None,
        model_name: None,
        support: Some(string_of("experimental")),
    }
}

/// A device as a scan lists it: its catalog fields come from its name, and it
/// is not connected.
pub open spec fn listed_device(id: Seq<char>, name: Seq<char>, address: Seq<char>, rssi: i16) -> DeviceView {
    let f = model_fields_spec(name);
    DeviceView {
        id,
        name,
        address,
        rssi,
        is_baseus: f.0,
        connected: false,
        model_id: f.1,
        model_name: f.2,
        support: f.3,
    }
}

/// Build the listing of a device from what the scan saw.
pub fn listed(id: String, name: String, address: String, rssi: i16) -> (r: BleDevice)
    ensures
        r@ == listed_device(id@, name@, address@, rssi),
{
    let (is_baseus, model_id, model_name, support) = model_fields(name.as_str());
    BleDevice { id, name, address, rssi, is_baseus, connected: false, model_id, model_name, support }
}

/// A peripheral seen by a scan: one without a name is not listed; an unknown
/// signal strength shows as -100.
pub fn scanned_device(id: String, name: String, address: String, rssi: Option<i16>) -> (r: Option<BleDevice>)
    ensures
        name@.len() == 0 ==> r is None,
        name@.len() > 0 ==> (r matches Some(d) && d@ == listed_device(
            id@,
            name@,
            address@,
            match rssi {
                Some(v) => v,
                None => -100i16,
            },
        )),
{
    if name.as_str().unicode_len() == 0 {
        return None;
    }
    let level: i16 = match rssi {
        Some(v) => v,
        None => -100,
    };
    Some(listed(id, name, address, level))
}

/// The address a simulated device shows: a fixed prefix and its signal
/// strength as a hex byte.
pub open spec fn mock_address(rssi: i16) -> Seq<char> {
    "AA:BB:CC:DD:EE:"@ + hex2(((if rssi < 0 { -(rssi as int) } else { rssi as int }) % 200) as u8)
}

fn mock_address_of(rssi: i16) -> (r: String)
    ensures
        r@ == mock_address(rssi),
{
    let a: i32 = if rssi < 0 { -(rssi as i32) } else { rssi as i32 };
    let mut out = string_of("AA:BB:CC:DD:EE:");
    push_hex2(&mut out, (a % 200) as u8);
    out
}

fn mock_device(id: &str, name: &str, rssi: i16) -> (r: BleDevice)
    ensures
        r@ == listed_device(id@, name@, mock_address(rssi), rssi),
{
    listed(string_of(id), string_of(name), mock_address_of(rssi), rssi)
}

/// The devices a simulated scan finds, in the order it finds them.
pub open spec fn mock_device_views() -> Seq<DeviceView> {
    seq![
        listed_device("mock-bp1"@, "Bass BP1 Pro"@, mock_address(-42i16), -42i16),
        listed_device("mock-ma10"@, "Baseus Bowie MA10"@, mock_address(-51i16), -51i16),
        listed_device("mock-ma10s"@, "Bowie MA10s"@, mock_address(-55i16), -55i16),
        listed_device("mock-m2s"@, "Bowie M2s Pro"@, mock_address(-60i16), -60i16),
        listed_device("mock-e3"@, "Bowie E3"@, mock_address(-63i16), -63i16),
        listed_device("mock-inspire"@, "Inspire XP1"@, mock_address(-48i16), -48i16),
    ]
}

/// The devices a simulated scan finds.
pub fn mock_devices() -> (r: Vec<BleDevice>)
    ensures
        device_views(r@) == mock_device_views(),
{
    let mut v: Vec<BleDevice> = Vec::new();
    v.push(mock_device("mock-bp1", "Bass BP1 Pro", -42));
    v.push(mock_device("mock-ma10", "Baseus Bowie MA10", -51));
    v.push(mock_device("mock-ma10s", "Bowie MA10s", -55));
    v.push(mock_device("mock-m2s", "Bowie M2s Pro", -60));
    v.push(mock_device("mock-e3", "Bowie E3", -63));
    v.push(mock_device("mock-inspire", "Inspire XP1", -48));
    assert(device_views(v@) =~= mock_device_views());
    v
}

} // verus!
