//! The device's GATT characteristics: the map shown in Capture Studio and the
//! characteristics chosen for notifications and writes.

use vstd::prelude::*;
use crate::capture::types::{GattChar, GattView, gatt_views, texts};
use crate::text::{str_eq, string_of};

verus! {

/// What the app reads of a characteristic: its UUID text, the UUID text of
/// its service, and its property flags.
#[derive(Debug)]
pub struct CharInfo {
    pub uuid: String,
    pub service_uuid: String,
    pub read: bool,
    pub write: bool,
    pub write_without_response: bool,
    pub notify: bool,
    pub indicate: bool,
}

pub struct CharView {
    pub uuid: Seq<char>,
    pub service_uuid: Seq<char>,
    pub read: bool,
    pub write: bool,
    pub write_without_response: bool,
    pub notify: bool,
    pub indicate: bool,
}

impl View for CharInfo {
    type V = CharView;

    open spec fn view(&self) -> CharView {
        CharView {
            uuid: self.uuid@,
            service_uuid: self.service_uuid@,
            read: self.read,
            write: self.write,
            write_without_response: self.write_without_response,
            notify: self.notify,
            indicate: self.indicate,
        }
    }
}

/// Views of every characteristic, in order.
pub open spec fn char_views(v: Seq<CharInfo>) -> Seq<CharView> {
    v.map_values(|c: CharInfo| c@)
}

/// `name` if `flag` is set, else nothing.
pub open spec fn flag_name(flag: bool, name: Seq<char>) -> Seq<Seq<char>> {
    if flag { seq![name] } else { Seq::empty() }
}

/// The names of a characteristic's properties, in a fixed order.
pub open spec fn property_names_spec(c: CharView) -> Seq<Seq<char>> {
    flag_name(c.read, "READ"@) + flag_name(c.write, "WRITE"@) + flag_name(c.write_without_response, "WRITE_NR"@)
        + flag_name(c.notify, "NOTIFY"@) + flag_name(c.indicate, "INDICATE"@)
}

/// The GATT map entry of a characteristic.
pub open spec fn gatt_entry_spec(c: CharView) -> GattView {
    GattView { uuid: c.uuid, properties: property_names_spec(c), service_uuid: c.service_uuid }
}

fn push_flag(v: &mut Vec<String>, flag: bool, name: &str)
    ensures
        texts(final(v)@) == texts(old(v)@) + flag_name(flag, name@),
{
    let ghost before = v@;
    if flag {
        v.push(string_of(name));
        assert(texts(v@) =~= texts(before) + seq![name@]);
    } else {
        assert(texts(v@) =~= texts(before) + Seq::<Seq<char>>::empty());
    }
}

/// The names of a characteristic's properties.
pub fn property_names(c: &CharInfo) -> (r: Vec<String>)
    ensures
        texts(r@) == property_names_spec(c@),
{
    let mut v: Vec<String> = Vec::new();
    assert(texts(v@) =~= Seq::<Seq<char>>::empty());
    push_flag(&mut v, c.read, "READ");
    push_flag(&mut v, c.write, "WRITE");
    push_flag(&mut v, c.write_without_response, "WRITE_NR");
    push_flag(&mut v, c.notify, "NOTIFY");
    push_flag(&mut v, c.indicate, "INDICATE");
    assert(texts(v@) =~= property_names_spec(c@));
    v
}

/// The GATT map: one entry per characteristic, in the order given.
pub fn build_gatt_map(chars: &Vec<CharInfo>) -> (r: Vec<GattChar>)
    ensures
        gatt_views(r@) == char_views(chars@).map_values(|c: CharView| gatt_entry_spec(c)),
{
    let ghost want = char_views(chars@).map_values(|c: CharView| gatt_entry_spec(c));
    let mut map: Vec<GattChar> = Vec::new();
    let mut i: usize = 0;
    while i < chars.len()
        invariant
            i <= chars.len(),
            want == char_views(chars@).map_values(|c: CharView| gatt_entry_spec(c)),
            gatt_views(map@) == want.take(i as int),
        decreases chars.len() - i,
    {
        let c = &chars[i];
        let g = GattChar { uuid: c.uuid.clone(), properties: property_names(c), service_uuid: c.service_uuid.clone() };
        let ghost prev = map@;
        map.push(g);
        assert(gatt_views(map@) =~= gatt_views(prev).push(g@));
        assert(want.take(i + 1) =~= want.take(i as int).push(want[i as int]));
        i = i + 1;
    }
    assert(want.take(chars.len() as int) =~= want);
    map
}

/// Position of the first characteristic with UUID text `uuid`.
fn position_of_uuid(chars: &Vec<CharInfo>, uuid: &str) -> (r: Option<usize>)
    ensures
        match r {
            Some(k) => k < chars.len() && chars@[k as int].uuid@ == uuid@ && forall|j: int|
                0 <= j < k ==> #[trigger] chars@[j].uuid@ != uuid@,
            None => forall|j: int| 0 <= j < chars.len() ==> #[trigger] chars@[j].uuid@ != uuid@,
        },
{
    let mut i: usize = 0;
    while i < chars.len()
        invariant
            i <= chars.len(),
            forall|j: int| 0 <= j < i ==> #[trigger] chars@[j].uuid@ != uuid@,
        decreases chars.len() - i,
    {
        if str_eq(chars[i].uuid.as_str(), uuid) {
            return Some(i);
        }
        i = i + 1;
    }
    None
}

/// The characteristic to subscribe to: the one with the notify UUID, else
/// the first that can notify.
pub fn pick_notify(chars: &Vec<CharInfo>, notify_uuid: &str) -> (r: Option<usize>)
    ensures
        match r {
            Some(k) => k < chars.len() && ((chars@[k as int].uuid@ == notify_uuid@ && forall|j: int|
                0 <= j < k ==> #[trigger] chars@[j].uuid@ != notify_uuid@) || ((forall|j: int|
                0 <= j < chars.len() ==> #[trigger] chars@[j].uuid@ != notify_uuid@) && chars@[k as int].notify
                && forall|j: int| 0 <= j < k ==> !(#[trigger] chars@[j].notify))),
            None => forall|j: int|
                0 <= j < chars.len() ==> #[trigger] chars@[j].uuid@ != notify_uuid@ && !chars@[j].notify,
        },
{
    match position_of_uuid(chars, notify_uuid) {
        Some(k) => Some(k),
        None => {
            let mut i: usize = 0;
            while i < chars.len()
                invariant
                    i <= chars.len(),
                    forall|j: int| 0 <= j < chars.len() ==> #[trigger] chars@[j].uuid@ != notify_uuid@,
                    forall|j: int| 0 <= j < i ==> !(#[trigger] chars@[j].notify),
                decreases chars.len() - i,
            {
                if chars[i].notify {
                    return Some(i);
                }
                i = i + 1;
            }
            None
        },
    }
}

/// A characteristic that can be written, with or without response.
pub open spec fn can_write(c: CharInfo) -> bool {
    c.write || c.write_without_response
}

/// The characteristic to write to: the one with the write UUID, else the
/// first that can be written; with whether it is written without response.
pub fn pick_write(chars: &Vec<CharInfo>, write_uuid: &str) -> (r: Option<(usize, bool)>)
    ensures
        match r {
            Some((k, no_response)) => k < chars.len() && no_response == chars@[k as int].write_without_response
                && ((chars@[k as int].uuid@ == write_uuid@ && forall|j: int|
                0 <= j < k ==> #[trigger] chars@[j].uuid@ != write_uuid@) || ((forall|j: int|
                0 <= j < chars.len() ==> #[trigger] chars@[j].uuid@ != write_uuid@) && can_write(chars@[k as int])
                && forall|j: int| 0 <= j < k ==> !can_write(#[trigger] chars@[j]))),
            None => forall|j: int|
                0 <= j < chars.len() ==> #[trigger] chars@[j].uuid@ != write_uuid@ && !can_write(chars@[j]),
        },
{
    match position_of_uuid(chars, write_uuid) {
        Some(k) => Some((k, chars[k].write_without_response)),
        None => {
            let mut i: usize = 0;
            while i < chars.len()
                invariant
                    i <= chars.len(),
                    forall|j: int| 0 <= j < chars.len() ==> #[trigger] chars@[j].uuid@ != write_uuid@,
                    forall|j: int| 0 <= j < i ==> !can_write(#[trigger] chars@[j]),
                decreases chars.len() - i,
            {
                if chars[i].write || chars[i].write_without_response {
                    return Some((i, chars[i].write_without_response));
                }
                i = i + 1;
            }
            None
        },
    }
}

} // verus!
