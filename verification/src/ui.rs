//! What the UI sends (mode names) and what it is shown about updates.

use vstd::prelude::*;
use crate::capture::types::opt_text;
use crate::protocol::types::{AncMode, SpatialMode};
use crate::text::{lowercase, str_chars, str_eq, string_from_chars, string_of, to_lowercase};

verus! {

/// Noise mode for a UI name, compared case-insensitively: `off`,
/// `transparency` or `ambient`; anything else means ANC.
pub open spec fn anc_mode_from_ui(mode: Seq<char>) -> AncMode {
    anc_mode_of_lower(lowercase(mode))
}

/// Noise mode for a lowercase UI name.
pub open spec fn anc_mode_of_lower(l: Seq<char>) -> AncMode {
    if l == "off"@ {
        AncMode::Off
    } else if l == "transparency"@ || l == "ambient"@ {
        AncMode::Transparency
    } else {
        AncMode::Anc
    }
}

/// Spatial mode for a UI name, compared case-insensitively.
pub open spec fn spatial_mode_from_ui(mode: Seq<char>) -> SpatialMode {
    spatial_mode_of_lower(lowercase(mode))
}

/// Spatial mode for a lowercase UI name.
pub open spec fn spatial_mode_of_lower(l: Seq<char>) -> SpatialMode {
    if l == "music"@ || l == "01"@ {
        SpatialMode::Music
    } else if l == "cinema"@ || l == "movie"@ || l == "02"@ {
        SpatialMode::Cinema
    } else if l == "game"@ || l == "03"@ {
        SpatialMode::Game
    } else {
        SpatialMode::Off
    }
}

/// Strength used when the UI gives none.
pub const DEFAULT_ANC_STRENGTH: u8 = 70;

/// The noise mode and strength a UI request asks for.
pub fn anc_request(mode: &str, strength: Option<u8>) -> (r: (AncMode, u8))
    ensures
        r.0 == anc_mode_from_ui(mode@),
        r.1 == match strength {
            Some(s) => s,
            None => DEFAULT_ANC_STRENGTH,
        },
{
    let l = to_lowercase(mode);
    let m = anc_mode_for_lower(l.as_str());
    let s = match strength {
        Some(s) => s,
        None => DEFAULT_ANC_STRENGTH,
    };
    (m, s)
}

/// Noise mode for a lowercase UI name.
pub fn anc_mode_for_lower(l: &str) -> (r: AncMode)
    ensures
        r == anc_mode_of_lower(l@),
{
    if str_eq(l, "off") {
        AncMode::Off
    } else if str_eq(l, "transparency") || str_eq(l, "ambient") {
        AncMode::Transparency
    } else {
        AncMode::Anc
    }
}

/// The spatial mode a UI request asks for.
pub fn spatial_request(mode: &str) -> (r: SpatialMode)
    ensures
        r == spatial_mode_from_ui(mode@),
{
    let l = to_lowercase(mode);
    spatial_mode_for_lower(l.as_str())
}

/// Spatial mode for a lowercase UI name.
pub fn spatial_mode_for_lower(t: &str) -> (r: SpatialMode)
    ensures
        r == spatial_mode_of_lower(t@),
{
    if str_eq(t, "music") || str_eq(t, "01") {
        SpatialMode::Music
    } else if str_eq(t, "cinema") || str_eq(t, "movie") || str_eq(t, "02") {
        SpatialMode::Cinema
    } else if str_eq(t, "game") || str_eq(t, "03") {
        SpatialMode::Game
    } else {
        SpatialMode::Off
    }
}

/// Whether a device id names a simulated device.
pub open spec fn is_mock_id(id: Seq<char>) -> bool {
    id.len() >= 5 && id.subrange(0, 5) == "mock-"@
}

/// Whether a device id names a simulated device (`mock-` prefix).
pub fn mock_id(id: &str) -> (r: bool)
    ensures
        r == is_mock_id(id@),
{
    proof {
        reveal_strlit("mock-");
    }
    let cs = str_chars(id);
    let p = str_chars("mock-");
    if cs.len() < p.len() {
        return false;
    }
    let mut i: usize = 0;
    while i < p.len()
        invariant
            cs@ == id@,
            p@ == "mock-"@,
            p.len() <= cs.len(),
            i <= p.len(),
            forall|j: int| 0 <= j < i ==> cs@[j] == p@[j],
        decreases p.len() - i,
    {
        if cs[i] != p[i] {
            assert(id@.subrange(0, p.len() as int)[i as int] != "mock-"@[i as int]);
            return false;
        }
        i = i + 1;
    }
    assert(id@.subrange(0, p.len() as int) =~= "mock-"@);
    true
}

} // verus!

verus! {

/// An ASCII decimal digit.
pub open spec fn is_digit(c: char) -> bool {
    '0' <= c && c <= '9'
}

/// Numbers found so far in a version text, and the value of the digit run
/// being read, if any.
pub open spec fn scan_runs(s: Seq<char>) -> (Seq<u64>, Option<int>)
    decreases s.len(),
{
    if s.len() == 0 {
        (Seq::empty(), None)
    } else {
        let (done, cur) = scan_runs(s.drop_last());
        let c = s.last();
        if is_digit(c) {
            (done, Some(match cur {
                Some(v) => v * 10 + (c as int - 48),
                None => c as int - 48,
            }))
        } else {
            (close_run(done, cur), None)
        }
    }
}

/// Close a digit run: its value is kept when it fits in `u64`.
pub open spec fn close_run(done: Seq<u64>, cur: Option<int>) -> Seq<u64> {
    match cur {
        Some(v) => if v <= u64::MAX { done.push(v as u64) } else { done },
        None => done,
    }
}

/// The numbers of a version text: every maximal run of decimal digits that
/// fits in `u64`, in order.
pub open spec fn version_numbers(s: Seq<char>) -> Seq<u64> {
    let (done, cur) = scan_runs(s);
    close_run(done, cur)
}

/// Component `i` of a version, zero past its end.
pub open spec fn component(v: Seq<u64>, i: int) -> u64 {
    if 0 <= i < v.len() { v[i] } else { 0 }
}

/// `a` is newer than `b` from component `i` on: at the first component where
/// they differ, `a` is larger.
pub open spec fn newer_from(a: Seq<u64>, b: Seq<u64>, i: nat) -> bool
    decreases (if a.len() > b.len() { a.len() } else { b.len() }) - i,
{
    if i >= a.len() && i >= b.len() {
        false
    } else if component(a, i as int) != component(b, i as int) {
        component(a, i as int) > component(b, i as int)
    } else {
        newer_from(a, b, i + 1)
    }
}

/// The remote version is newer than the current one.
pub open spec fn remote_newer(remote: Seq<char>, current: Seq<char>) -> bool {
    newer_from(version_numbers(remote), version_numbers(current), 0)
}

fn digit_value(c: char) -> (r: u64)
    requires
        is_digit(c),
    ensures
        r == c as int - 48,
{
    ((c as u32) - 48) as u64
}

/// The numbers of a version text.
pub fn parse_version(s: &str) -> (r: Vec<u64>)
    ensures
        r@ == version_numbers(s@),
{
    let cs = str_chars(s);
    let mut done: Vec<u64> = Vec::new();
    let mut in_run = false;
    let mut val: u64 = 0;
    let mut overflow = false;
    let ghost mut cur: Option<int> = None;
    let mut i: usize = 0;
    while i < cs.len()
        invariant
            cs@ == s@,
            i <= cs.len(),
            scan_runs(s@.take(i as int)) == (done@, cur),
            in_run == (cur is Some),
            cur matches Some(v) ==> v >= 0 && (overflow <==> v > u64::MAX) && (!overflow ==> val == v),
        decreases cs.len() - i,
    {
        let c = cs[i];
        assert(s@.take(i + 1).drop_last() =~= s@.take(i as int));
        assert(s@.take(i + 1).last() == c);
        if '0' <= c && c <= '9' {
            let d = digit_value(c);
            if in_run {
                let ghost v = cur->0;
                if !overflow {
                    match val.checked_mul(10) {
                        Some(m) => match m.checked_add(d) {
                            Some(n) => {
                                val = n;
                            },
                            None => {
                                overflow = true;
                            },
                        },
                        None => {
                            overflow = true;
                        },
                    }
                }
                proof {
                    cur = Some(v * 10 + d);
                }
            } else {
                in_run = true;
                val = d;
                overflow = false;
                proof {
                    cur = Some(d as int);
                }
            }
        } else {
            if in_run && !overflow {
                done.push(val);
            }
            in_run = false;
            proof {
                cur = None;
            }
        }
        i = i + 1;
    }
    assert(s@.take(cs.len() as int) =~= s@);
    if in_run && !overflow {
        done.push(val);
    }
    done
}

/// Whether the remote version is newer than the current one, comparing
/// their numbers in order with missing ones taken as zero.
pub fn is_remote_newer(remote: &str, current: &str) -> (r: bool)
    ensures
        r == remote_newer(remote@, current@),
{
    let a = parse_version(remote);
    let b = parse_version(current);
    let n = if a.len() > b.len() { a.len() } else { b.len() };
    let mut i: usize = 0;
    while i < n
        invariant
            n == (if a.len() > b.len() { a.len() } else { b.len() }),
            i <= n,
            newer_from(a@, b@, 0) == newer_from(a@, b@, i as nat),
            a@ == version_numbers(remote@),
            b@ == version_numbers(current@),
        decreases n - i,
    {
        let x = if i < a.len() { a[i] } else { 0 };
        let y = if i < b.len() { b[i] } else { 0 };
        assert(x == component(a@, i as int));
        assert(y == component(b@, i as int));
        if x != y {
            assert(newer_from(a@, b@, i as nat) == (x > y));
            return x > y;
        }
        i = i + 1;
    }
    false
}

} // verus!

verus! {

/// What the UI is told after looking for an update.
#[derive(Debug)]
pub struct UpdateCheckResult {
    pub available: bool,
    pub current_version: String,
    pub version: Option<String>,
    pub body: Option<String>,
    pub date: Option<String>,
    pub error: Option<String>,
}

/// A signed update the updater found.
#[derive(Debug)]
pub struct UpdateInfo {
    pub version: String,
    pub body: Option<String>,
    pub date: Option<String>,
}

/// Result of the signed updater: an update found is offered with its
/// version, notes and date; none found means up to date.
pub fn from_updater(current: String, found: Option<UpdateInfo>) -> (r: UpdateCheckResult)
    ensures
        r.current_version@ == current@,
        r.error is None,
        match found {
            Some(u) => r.available && opt_text(r.version) == Some(u.version@) && opt_text(r.body) == opt_text(
                u.body,
            ) && opt_text(r.date) == opt_text(u.date),
            None => !r.available && r.version is None && r.body is None && r.date is None,
        },
{
    match found {
        Some(u) => UpdateCheckResult {
            available: true,
            current_version: current,
            version: Some(u.version),
            body: u.body,
            date: u.date,
            error: None,
        },
        None => UpdateCheckResult {
            available: false,
            current_version: current,
            version: None,
            body: None,
            date: None,
            error: None,
        },
    }
}

/// Result of the release-tag fallback: a newer tag is offered with a note to
/// download it by hand; a failed lookup is reported as the error.
pub fn from_latest_release(current: String, latest: Result<String, String>) -> (r: UpdateCheckResult)
    ensures
        r.current_version@ == current@,
        r.date is None,
        match latest {
            Ok(remote) => r.available == remote_newer(remote@, current@) && opt_text(r.version) == Some(remote@)
                && r.error is None && (if r.available {
                opt_text(r.body) == Some("Tải bản cài từ GitHub Releases (updater ký chưa sẵn sàng)."@)
            } else {
                r.body is None
            }),
            Err(e) => !r.available && r.version is None && r.body is None && opt_text(r.error) == Some(e@),
        },
{
    match latest {
        Ok(remote) => {
            let available = is_remote_newer(remote.as_str(), current.as_str());
            let body = if available {
                Some(string_of("Tải bản cài từ GitHub Releases (updater ký chưa sẵn sàng)."))
            } else {
                None
            };
            UpdateCheckResult {
                available,
                current_version: current,
                version: Some(remote),
                body,
                date: None,
                error: None,
            }
        },
        Err(e) => UpdateCheckResult {
            available: false,
            current_version: current,
            version: None,
            body: None,
            date: None,
            error: Some(e),
        },
    }
}

/// A release tag without its leading `v`s.
pub open spec fn strip_v(s: Seq<char>) -> Seq<char>
    decreases s.len(),
{
    if s.len() > 0 && s[0] == 'v' { strip_v(s.subrange(1, s.len() as int)) } else { s }
}

/// The version a release tag names: the tag without its leading `v`s.
pub fn tag_version(tag: &str) -> (r: String)
    ensures
        r@ == strip_v(tag@),
{
    let cs = str_chars(tag);
    let mut i: usize = 0;
    assert(tag@.subrange(0, tag@.len() as int) =~= tag@);
    while i < cs.len() && cs[i] == 'v'
        invariant
            cs@ == tag@,
            i <= cs.len(),
            strip_v(tag@) == strip_v(tag@.subrange(i as int, tag@.len() as int)),
        decreases cs.len() - i,
    {
        assert(tag@.subrange(i as int, tag@.len() as int).subrange(1, (tag@.len() - i) as int) =~= tag@.subrange(
            i + 1,
            tag@.len() as int,
        ));
        i = i + 1;
    }
    let rest = vstd::slice::slice_subrange(cs.as_slice(), i, cs.len());
    string_from_chars(rest)
}

} // verus!
