//! The devices a scan has found, keyed by id.

use vstd::prelude::*;
use super::devices::{BleDevice, DeviceView, device_views};
use crate::capture::types::opt_text;
use crate::text::str_eq;

verus! {

/// Index of the first device with id `id` at or after `i`.
pub open spec fn find_device_from(s: Seq<DeviceView>, id: Seq<char>, i: int) -> Option<int>
    decreases s.len() - i,
{
    if i < 0 || i >= s.len() {
        None
    } else if s[i].id == id {
        Some(i)
    } else {
        find_device_from(s, id, i + 1)
    }
}

/// Index of the device with id `id`.
pub open spec fn find_device(s: Seq<DeviceView>, id: Seq<char>) -> Option<int> {
    find_device_from(s, id, 0)
}

/// No id occurs twice.
pub open spec fn ids_distinct(s: Seq<DeviceView>) -> bool {
    forall|i: int, j: int| 0 <= i < j < s.len() ==> s[i].id != s[j].id
}

/// The table after storing `d`: it replaces the device with its id, or is
/// appended.
pub open spec fn upsert_spec(s: Seq<DeviceView>, d: DeviceView) -> Seq<DeviceView> {
    match find_device(s, d.id) {
        Some(k) => s.update(k, d),
        None => s.push(d),
    }
}

/// The table keeping only the device with id `keep`, if any.
pub open spec fn retain_spec(s: Seq<DeviceView>, keep: Option<Seq<char>>) -> Seq<DeviceView> {
    match keep {
        Some(id) => match find_device(s, id) {
            Some(k) => seq![s[k]],
            None => Seq::empty(),
        },
        None => Seq::empty(),
    }
}

/// The table with the connected flag of device `id` set to `flag`.
pub open spec fn with_connected(s: Seq<DeviceView>, id: Seq<char>, flag: bool) -> Seq<DeviceView> {
    match find_device(s, id) {
        Some(k) => s.update(k, DeviceView { connected: flag, ..s[k] }),
        None => s,
    }
}

pub proof fn lemma_find_device_range(s: Seq<DeviceView>, id: Seq<char>, i: int)
    requires
        0 <= i,
    ensures
        match find_device_from(s, id, i) {
            Some(k) => i <= k < s.len() && s[k].id == id,
            None => forall|j: int| i <= j < s.len() ==> s[j].id != id,
        },
    decreases s.len() - i,
{
    if i < s.len() && s[i].id != id {
        lemma_find_device_range(s, id, i + 1);
    }
}

/// Finding by id depends only on the ids.
pub proof fn lemma_find_same_ids(s1: Seq<DeviceView>, s2: Seq<DeviceView>, id: Seq<char>, i: int)
    requires
        s1.len() == s2.len(),
        forall|j: int| 0 <= j < s1.len() ==> #[trigger] s1[j].id == s2[j].id,
    ensures
        find_device_from(s1, id, i) == find_device_from(s2, id, i),
    decreases s1.len() - i,
{
    if i >= 0 && i < s1.len() && s1[i].id != id {
        lemma_find_same_ids(s1, s2, id, i + 1);
    }
}

/// Setting a connected flag keeps every id where it was.
pub proof fn lemma_with_connected_ids(s: Seq<DeviceView>, id: Seq<char>, flag: bool, other: Seq<char>)
    ensures
        find_device(with_connected(s, id, flag), other) == find_device(s, other),
        with_connected(s, id, flag).len() == s.len(),
{
    lemma_find_device_range(s, id, 0);
    let t = with_connected(s, id, flag);
    assert forall|j: int| 0 <= j < t.len() implies #[trigger] t[j].id == s[j].id by {}
    lemma_find_same_ids(t, s, other, 0);
}

/// A verified copy of a device.
pub fn copy_device(d: &BleDevice) -> (r: BleDevice)
    ensures
        r@ == d@,
{
    BleDevice {
        id: d.id.clone(),
        name: d.name.clone(),
        address: d.address.clone(),
        rssi: d.rssi,
        is_baseus: d.is_baseus,
        connected: d.connected,
        model_id: d.model_id.clone(),
        model_name: d.model_name.clone(),
        support: d.support.clone(),
    }
}

/// Devices keyed by id; no id occurs twice.
pub struct DeviceTable {
    devices: Vec<BleDevice>,
}

impl View for DeviceTable {
    type V = Seq<DeviceView>;

    closed spec fn view(&self) -> Seq<DeviceView> {
        device_views(self.devices@)
    }
}

impl DeviceTable {
    #[verifier::type_invariant]
    closed spec fn wf(self) -> bool {
        ids_distinct(device_views(self.devices@))
    }

    /// An empty table.
    pub fn new() -> (r: DeviceTable)
        ensures
            r@ == Seq::<DeviceView>::empty(),
    {
        let r = DeviceTable { devices: Vec::new() };
        assert(r@ =~= Seq::<DeviceView>::empty());
        r
    }

    /// The stored devices, in the order they were first stored.
    pub fn devices(&self) -> (r: &Vec<BleDevice>)
        ensures
            device_views(r@) == self@,
            ids_distinct(self@),
    {
        proof {
            use_type_invariant(self);
        }
        &self.devices
    }

    /// Position of the device with id `id`.
    pub fn position(&self, id: &str) -> (r: Option<usize>)
        ensures
            match r {
                Some(k) => k < self@.len() && find_device(self@, id@) == Some(k as int),
                None => find_device(self@, id@) is None,
            },
    {
        let ghost views = self@;
        let mut i: usize = 0;
        while i < self.devices.len()
            invariant
                i <= self.devices.len(),
                views == device_views(self.devices@),
                find_device_from(views, id@, 0) == find_device_from(views, id@, i as int),
            decreases self.devices.len() - i,
        {
            if str_eq(self.devices[i].id.as_str(), id) {
                return Some(i);
            }
            assert(find_device_from(views, id@, i as int) == find_device_from(views, id@, i + 1));
            i = i + 1;
        }
        None
    }

    /// The device with id `id`.
    pub fn get(&self, id: &str) -> (r: Option<&BleDevice>)
        ensures
            match find_device(self@, id@) {
                Some(k) => r matches Some(d) && d@ == self@[k],
                None => r is None,
            },
    {
        match self.position(id) {
            Some(k) => Some(&self.devices[k]),
            None => None,
        }
    }

    /// Store a device, replacing the one with its id.
    pub fn upsert(&mut self, d: BleDevice)
        ensures
            final(self)@ == upsert_spec(old(self)@, d@),
    {
        proof {
            use_type_invariant(&*self);
        }
        let pos = self.position(d.id.as_str());
        let ghost dv = d@;
        let ghost before = self@;
        let mut devices = Vec::new();
        std::mem::swap(&mut devices, &mut self.devices);
        match pos {
            Some(k) => {
                let ghost prev = devices@;
                devices.remove(k);
                devices.insert(k, d);
                assert(devices@ =~= prev.update(k as int, d));
                assert(device_views(devices@) =~= before.update(k as int, dv));
                proof {
                    lemma_find_device_range(before, dv.id, 0);
                }
            },
            None => {
                devices.push(d);
                assert(device_views(devices@) =~= before.push(dv));
                proof {
                    lemma_find_device_range(before, dv.id, 0);
                }
            },
        }
        *self = DeviceTable { devices };
    }

    /// Set the connected flag of the device with id `id`, if stored.
    pub fn set_connected(&mut self, id: &str, flag: bool)
        ensures
            final(self)@ == with_connected(old(self)@, id@, flag),
    {
        proof {
            use_type_invariant(&*self);
        }
        let pos = self.position(id);
        let ghost before = self@;
        if let Some(k) = pos {
            let mut devices = Vec::new();
            std::mem::swap(&mut devices, &mut self.devices);
            let ghost prev = devices@;
            let mut d = devices.remove(k);
            d.connected = flag;
            devices.insert(k, d);
            assert(devices@ =~= prev.update(k as int, d));
            assert(device_views(devices@) =~= with_connected(before, id@, flag));
            *self = DeviceTable { devices };
        }
    }

    /// Keep only the device with id `keep`, if any.
    pub fn retain_only(&mut self, keep: &Option<String>)
        ensures
            final(self)@ == retain_spec(old(self)@, opt_text(*keep)),
    {
        let pos = match keep {
            Some(id) => self.position(id.as_str()),
            None => None,
        };
        let ghost before = self@;
        let mut devices = Vec::new();
        std::mem::swap(&mut devices, &mut self.devices);
        let mut kept: Vec<BleDevice> = Vec::new();
        if let Some(k) = pos {
            let d = devices.remove(k);
            kept.push(d);
        }
        assert(device_views(kept@) =~= retain_spec(before, opt_text(*keep)));
        *self = DeviceTable { devices: kept };
    }

    /// Forget every device.
    pub fn clear(&mut self)
        ensures
            final(self)@ == Seq::<DeviceView>::empty(),
    {
        *self = DeviceTable::new();
    }
}

} // verus!
