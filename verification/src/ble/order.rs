//! The order in which scan results are listed: Baseus devices first, then by
//! signal strength, strongest first.

use vstd::prelude::*;
use super::devices::{BleDevice, DeviceView, device_views};

verus! {

broadcast use vstd::seq_lib::group_to_multiset_ensures;

/// `a` is listed strictly before `b`.
pub open spec fn precedes(a: DeviceView, b: DeviceView) -> bool {
    (a.is_baseus && !b.is_baseus) || (a.is_baseus == b.is_baseus && a.rssi > b.rssi)
}

/// No device is listed after one that it precedes.
pub open spec fn listed_in_order(s: Seq<DeviceView>) -> bool {
    forall|i: int, j: int| 0 <= i < j < s.len() ==> !precedes(#[trigger] s[j], #[trigger] s[i])
}

fn device_precedes(a: &BleDevice, b: &BleDevice) -> (r: bool)
    ensures
        r == precedes(a@, b@),
{
    (a.is_baseus && !b.is_baseus) || (a.is_baseus == b.is_baseus && a.rssi > b.rssi)
}

/// Position of a device that nothing else in `v` precedes.
fn first_listed(v: &Vec<BleDevice>) -> (k: usize)
    requires
        v.len() > 0,
    ensures
        k < v.len(),
        forall|j: int| 0 <= j < v.len() ==> !precedes(#[trigger] device_views(v@)[j], device_views(v@)[k as int]),
{
    let ghost s = device_views(v@);
    let mut best: usize = 0;
    let mut j: usize = 1;
    while j < v.len()
        invariant
            s == device_views(v@),
            0 < j <= v.len(),
            best < j,
            forall|t: int| 0 <= t < j ==> !precedes(#[trigger] s[t], s[best as int]),
        decreases v.len() - j,
    {
        if device_precedes(&v[j], &v[best]) {
            best = j;
        }
        j = j + 1;
    }
    best
}

/// The devices in listing order; the same devices, each as often as given.
pub fn sort_devices(v: Vec<BleDevice>) -> (r: Vec<BleDevice>)
    ensures
        listed_in_order(device_views(r@)),
        device_views(r@).to_multiset() == device_views(v@).to_multiset(),
{
    let ghost orig = device_views(v@);
    let mut rest = v;
    let mut out: Vec<BleDevice> = Vec::new();
    while rest.len() > 0
        invariant
            listed_in_order(device_views(out@)),
            forall|i: int, j: int|
                0 <= i < out.len() && 0 <= j < rest.len() ==> !precedes(
                    #[trigger] device_views(rest@)[j],
                    #[trigger] device_views(out@)[i],
                ),
            device_views(out@).to_multiset().add(device_views(rest@).to_multiset()) == orig.to_multiset(),
        decreases rest.len(),
    {
        let k = first_listed(&rest);
        let ghost rs = device_views(rest@);
        let ghost os = device_views(out@);
        let d = rest.remove(k);
        assert(device_views(rest@) =~= rs.remove(k as int));
        out.push(d);
        assert(device_views(out@) =~= os.push(rs[k as int]));
        assert(device_views(out@).to_multiset().add(device_views(rest@).to_multiset()) =~= orig.to_multiset());
        assert forall|i: int, j: int| 0 <= i < out.len() && 0 <= j < rest.len() implies !precedes(
            #[trigger] device_views(rest@)[j],
            #[trigger] device_views(out@)[i],
        ) by {
            let jj = if j < k { j } else { j + 1 };
            assert(device_views(rest@)[j] == rs[jj]);
        }
    }
    assert(device_views(rest@).to_multiset() =~= vstd::multiset::Multiset::empty());
    assert(device_views(out@).to_multiset() =~= orig.to_multiset());
    out
}

} // verus!
