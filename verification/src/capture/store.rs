//! The capture journal and the operations the UI drives it with.

use vstd::prelude::*;
use super::steps::{default_guided_steps, default_steps};
use super::types::{
    CaptureEntry, CaptureSession, Direction, EntryView, GattChar, GattView, GuidedStep, SessionView,
    StepView, entry_views, gatt_views, opt_text, step_views,
};
use crate::text::{decimal, hex_encode, hex_spaced, push_decimal, push_str, str_eq, string_of};

verus! {

/// Most entries kept by recording; older ones are dropped first.
pub const MAX_ENTRIES: usize = 5000;

/// The journal: the session the UI sees, the entry limit and the next entry id.
pub struct CaptureStore {
    session: CaptureSession,
    max_entries: usize,
    next_id: u64,
}

pub struct JournalView {
    pub session: SessionView,
    pub max_entries: nat,
    pub next_id: u64,
}

impl View for CaptureStore {
    type V = JournalView;

    closed spec fn view(&self) -> JournalView {
        JournalView {
            session: self.session@,
            max_entries: self.max_entries as nat,
            next_id: self.next_id,
        }
    }
}

/// The id handed out after `id` (the counter wraps).
pub open spec fn next_after(id: u64) -> u64 {
    if id == u64::MAX { 0 } else { (id + 1) as u64 }
}

/// An entry as recorded: its hex text is the spaced uppercase hex of the bytes.
pub open spec fn entry_spec(
    id: u64,
    ts_ms: u64,
    direction: Direction,
    data: Seq<u8>,
    label: Option<Seq<char>>,
    decoded: Option<Seq<char>>,
    char_uuid: Option<Seq<char>>,
) -> EntryView {
    EntryView { id, ts_ms, direction, hex: hex_spaced(data), raw: data, label, decoded, char_uuid }
}

/// A note of the capture itself: no bytes, only a label.
pub open spec fn info_entry(id: u64, ts_ms: u64, label: Seq<char>) -> EntryView {
    entry_spec(id, ts_ms, Direction::Info, Seq::empty(), Some(label), None, None)
}

/// Index of the first step with id `id` at or after `i`.
pub open spec fn find_step_from(steps: Seq<StepView>, id: Seq<char>, i: int) -> Option<int>
    decreases steps.len() - i,
{
    if i < 0 || i >= steps.len() {
        None
    } else if steps[i].id == id {
        Some(i)
    } else {
        find_step_from(steps, id, i + 1)
    }
}

/// Index of the first step with id `id`.
pub open spec fn find_step(steps: Seq<StepView>, id: Seq<char>) -> Option<int> {
    find_step_from(steps, id, 0)
}

/// Index of the first entry with id `id` at or after `i`.
pub open spec fn find_entry_from(entries: Seq<EntryView>, id: u64, i: int) -> Option<int>
    decreases entries.len() - i,
{
    if i < 0 || i >= entries.len() {
        None
    } else if entries[i].id == id {
        Some(i)
    } else {
        find_entry_from(entries, id, i + 1)
    }
}

/// Index of the first entry with id `id`.
pub open spec fn find_entry(entries: Seq<EntryView>, id: u64) -> Option<int> {
    find_entry_from(entries, id, 0)
}

/// The title of the current step, when there is one and it is known.
pub open spec fn current_label(s: SessionView) -> Option<Seq<char>> {
    match s.current_step_id {
        Some(c) => match find_step(s.steps, c) {
            Some(k) => Some(s.steps[k].title),
            None => None,
        },
        None => None,
    }
}

/// The steps after entry `id` is attached to the current step.
pub open spec fn attach_entry(s: SessionView, id: u64) -> Seq<StepView> {
    match s.current_step_id {
        Some(c) => match find_step(s.steps, c) {
            Some(k) => s.steps.update(k, StepView { entry_ids: s.steps[k].entry_ids.push(id), ..s.steps[k] }),
            None => s.steps,
        },
        None => s.steps,
    }
}

/// The newest `max` entries.
pub open spec fn keep_newest(entries: Seq<EntryView>, max: nat) -> Seq<EntryView> {
    if entries.len() > max { entries.subrange(entries.len() - max, entries.len() as int) } else { entries }
}

/// A step with its done flag and entry list reset.
pub open spec fn reset_step(s: StepView) -> StepView {
    StepView { done: false, entry_ids: Seq::empty(), ..s }
}

/// The session after appending an entry.
pub open spec fn with_entry(s: SessionView, e: EntryView) -> SessionView {
    SessionView { entries: s.entries.push(e), ..s }
}

/// The journal after a frame is offered for recording: an inactive capture
/// keeps nothing; an active one appends the entry (labelled with the current
/// step's title), attaches it to the current step and keeps its newest
/// `max_entries` entries.
pub open spec fn recorded_view(
    v: JournalView,
    direction: Direction,
    data: Seq<u8>,
    char_uuid: Option<Seq<char>>,
    decoded: Option<Seq<char>>,
    ts_ms: u64,
) -> JournalView {
    if !v.session.active {
        v
    } else {
        JournalView {
            session: SessionView {
                entries: keep_newest(
                    v.session.entries.push(
                        entry_spec(v.next_id, ts_ms, direction, data, current_label(v.session), decoded, char_uuid),
                    ),
                    v.max_entries,
                ),
                steps: attach_entry(v.session, v.next_id),
                ..v.session
            },
            next_id: next_after(v.next_id),
            ..v
        }
    }
}

/// The journal after stopping: inactive, with a note of how many entries it
/// held.
pub open spec fn stopped_view(v: JournalView, ts_ms: u64) -> JournalView {
    JournalView {
        session: with_entry(
            SessionView { active: false, ..v.session },
            info_entry(v.next_id, ts_ms, "Capture stopped — "@ + decimal(v.session.entries.len()) + " frames"@),
        ),
        next_id: next_after(v.next_id),
        ..v
    }
}

/// A found step exists and has the id looked for.
pub proof fn lemma_find_step_range(steps: Seq<StepView>, id: Seq<char>, i: int)
    requires
        0 <= i,
    ensures
        match find_step_from(steps, id, i) {
            Some(k) => i <= k < steps.len() && steps[k].id == id,
            None => forall|j: int| i <= j < steps.len() ==> steps[j].id != id,
        },
    decreases steps.len() - i,
{
    if i < steps.len() && steps[i].id != id {
        lemma_find_step_range(steps, id, i + 1);
    }
}

/// The journal of a fresh store.
pub open spec fn fresh_journal() -> JournalView {
    JournalView {
        session: SessionView {
            active: false,
            started_at_ms: None,
            device_name: None,
            device_address: None,
            entries: Seq::empty(),
            steps: default_steps(),
            gatt_map: Seq::empty(),
            current_step_id: None,
        },
        max_entries: MAX_ENTRIES as nat,
        next_id: 1,
    }
}

/// The journal after a capture starts.
pub open spec fn started_view(v: JournalView, name: Option<Seq<char>>, address: Option<Seq<char>>, ts_ms: u64) -> JournalView {
    JournalView {
        session: SessionView {
            active: true,
            started_at_ms: Some(ts_ms),
            device_name: name,
            device_address: address,
            entries: seq![info_entry(v.next_id, ts_ms, "Capture started"@)],
            steps: default_steps(),
            gatt_map: v.session.gatt_map,
            current_step_id: Some("connect"@),
        },
        next_id: next_after(v.next_id),
        ..v
    }
}

/// The journal after clearing: no entries, every step reset.
pub open spec fn cleared_view(v: JournalView) -> JournalView {
    JournalView {
        session: SessionView {
            entries: Seq::empty(),
            steps: v.session.steps.map_values(|s: StepView| reset_step(s)),
            ..v.session
        },
        ..v
    }
}

/// The journal after new device details, each replacing the old one when given.
pub open spec fn device_info_view(v: JournalView, name: Option<Seq<char>>, address: Option<Seq<char>>) -> JournalView {
    JournalView {
        session: SessionView {
            device_name: if name is Some { name } else { v.session.device_name },
            device_address: if address is Some { address } else { v.session.device_address },
            ..v.session
        },
        ..v
    }
}

/// The journal with a new GATT map.
pub open spec fn gatt_map_view(v: JournalView, map: Seq<GattView>) -> JournalView {
    JournalView { session: SessionView { gatt_map: map, ..v.session }, ..v }
}

/// The journal after labelling entry `id` (unchanged when there is none).
pub open spec fn annotated_view(v: JournalView, id: u64, label: Seq<char>) -> JournalView {
    match find_entry(v.session.entries, id) {
        Some(k) => JournalView {
            session: SessionView {
                entries: v.session.entries.update(k, EntryView { label: Some(label), ..v.session.entries[k] }),
                ..v.session
            },
            ..v
        },
        None => v,
    }
}

/// The journal after a free-text note.
pub open spec fn noted_view(v: JournalView, text: Seq<char>, ts_ms: u64) -> JournalView {
    JournalView {
        session: with_entry(v.session, info_entry(v.next_id, ts_ms, text)),
        next_id: next_after(v.next_id),
        ..v
    }
}

/// The journal after making step `id` current (unchanged when it is unknown).
pub open spec fn step_selected_view(v: JournalView, id: Seq<char>, ts_ms: u64) -> JournalView {
    match find_step(v.session.steps, id) {
        Some(_) => JournalView {
            session: with_entry(
                SessionView { current_step_id: Some(id), ..v.session },
                info_entry(v.next_id, ts_ms, "Step → "@ + id),
            ),
            next_id: next_after(v.next_id),
            ..v
        },
        None => v,
    }
}

/// The journal after marking step `id` (unchanged when it is unknown).
pub open spec fn step_marked_view(v: JournalView, id: Seq<char>, done: bool) -> JournalView {
    match find_step(v.session.steps, id) {
        Some(k) => JournalView {
            session: SessionView {
                steps: v.session.steps.update(k, StepView { done, ..v.session.steps[k] }),
                ..v.session
            },
            ..v
        },
        None => v,
    }
}

/// An operation on the journal, with its arguments.
pub enum CaptureOp {
    Start { name: Option<Seq<char>>, address: Option<Seq<char>>, ts_ms: u64 },
    Stop { ts_ms: u64 },
    Clear,
    Record {
        direction: Direction,
        data: Seq<u8>,
        char_uuid: Option<Seq<char>>,
        decoded: Option<Seq<char>>,
        ts_ms: u64,
    },
    Annotate { entry_id: u64, label: Seq<char> },
    AddNote { text: Seq<char>, ts_ms: u64 },
    SetCurrentStep { step_id: Seq<char>, ts_ms: u64 },
    MarkStepDone { step_id: Seq<char>, done: bool },
    SetDeviceInfo { name: Option<Seq<char>>, address: Option<Seq<char>> },
    SetGattMap { map: Seq<GattView> },
}

/// The journal after one operation, as its function leaves it.
pub open spec fn capture_step(v: JournalView, op: CaptureOp) -> JournalView {
    match op {
        CaptureOp::Start { name, address, ts_ms } => started_view(v, name, address, ts_ms),
        CaptureOp::Stop { ts_ms } => stopped_view(v, ts_ms),
        CaptureOp::Clear => cleared_view(v),
        CaptureOp::Record { direction, data, char_uuid, decoded, ts_ms } => recorded_view(
            v,
            direction,
            data,
            char_uuid,
            decoded,
            ts_ms,
        ),
        CaptureOp::Annotate { entry_id, label } => annotated_view(v, entry_id, label),
        CaptureOp::AddNote { text, ts_ms } => noted_view(v, text, ts_ms),
        CaptureOp::SetCurrentStep { step_id, ts_ms } => step_selected_view(v, step_id, ts_ms),
        CaptureOp::MarkStepDone { step_id, done } => step_marked_view(v, step_id, done),
        CaptureOp::SetDeviceInfo { name, address } => device_info_view(v, name, address),
        CaptureOp::SetGattMap { map } => gatt_map_view(v, map),
    }
}

/// The journal after a sequence of operations, in order.
pub open spec fn capture_run(v: JournalView, ops: Seq<CaptureOp>) -> JournalView
    decreases ops.len(),
{
    if ops.len() == 0 { v } else { capture_step(capture_run(v, ops.drop_last()), ops.last()) }
}

/// Whether the last start or stop among `ops` was a start (`None`: neither).
pub open spec fn last_start_or_stop(ops: Seq<CaptureOp>) -> Option<bool>
    decreases ops.len(),
{
    if ops.len() == 0 {
        None
    } else {
        match ops.last() {
            CaptureOp::Start { .. } => Some(true),
            CaptureOp::Stop { .. } => Some(false),
            _ => last_start_or_stop(ops.drop_last()),
        }
    }
}

proof fn lemma_find_step_unfold(steps: Seq<StepView>, id: Seq<char>, i: int)
    requires
        0 <= i < steps.len(),
        steps[i].id != id,
    ensures
        find_step_from(steps, id, i) == find_step_from(steps, id, i + 1),
{
}

/// Position of the first step with id `id`.
fn step_index(steps: &Vec<GuidedStep>, id: &str) -> (r: Option<usize>)
    ensures
        match r {
            Some(k) => k < steps@.len() && find_step(step_views(steps@), id@) == Some(k as int),
            None => find_step(step_views(steps@), id@) is None,
        },
{
    let ghost views = step_views(steps@);
    let mut i: usize = 0;
    while i < steps.len()
        invariant
            i <= steps.len(),
            views == step_views(steps@),
            find_step_from(views, id@, 0) == find_step_from(views, id@, i as int),
        decreases steps.len() - i,
    {
        if str_eq(steps[i].id.as_str(), id) {
            return Some(i);
        }
        proof {
            lemma_find_step_unfold(views, id@, i as int);
        }
        i = i + 1;
    }
    None
}

/// Position of the first entry with id `id`.
fn entry_index(entries: &Vec<CaptureEntry>, id: u64) -> (r: Option<usize>)
    ensures
        match r {
            Some(k) => k < entries@.len() && find_entry(entry_views(entries@), id) == Some(k as int),
            None => find_entry(entry_views(entries@), id) is None,
        },
{
    let ghost views = entry_views(entries@);
    let mut i: usize = 0;
    while i < entries.len()
        invariant
            i <= entries.len(),
            views == entry_views(entries@),
            find_entry_from(views, id, 0) == find_entry_from(views, id, i as int),
        decreases entries.len() - i,
    {
        if entries[i].id == id {
            return Some(i);
        }
        assert(find_entry_from(views, id, i as int) == find_entry_from(views, id, i + 1));
        i = i + 1;
    }
    None
}

impl CaptureStore {
    /// An inactive journal with the default steps, no entries and ids from 1.
    pub fn new() -> (r: CaptureStore)
        ensures
            r@.session == (SessionView {
                active: false,
                started_at_ms: None,
                device_name: None,
                device_address: None,
                entries: Seq::empty(),
                steps: default_steps(),
                gatt_map: Seq::empty(),
                current_step_id: None,
            }),
            r@.max_entries == MAX_ENTRIES,
            r@.next_id == 1,
            r@ == fresh_journal(),
    {
        let r = CaptureStore {
            session: CaptureSession {
                active: false,
                started_at_ms: None,
                device_name: None,
                device_address: None,
                entries: Vec::new(),
                steps: default_guided_steps(),
                gatt_map: Vec::new(),
                current_step_id: None,
            },
            max_entries: MAX_ENTRIES,
            next_id: 1,
        };
        assert(entry_views(r.session.entries@) =~= Seq::<EntryView>::empty());
        assert(gatt_views(r.session.gatt_map@) =~= Seq::empty());
        r
    }

    /// The session as the UI sees it.
    pub fn session(&self) -> (r: &CaptureSession)
        ensures
            r@ == self@.session,
    {
        &self.session
    }

    /// Whether frames are being recorded.
    pub fn is_active(&self) -> (r: bool)
        ensures
            r == self@.session.active,
    {
        self.session.active
    }

    /// A new entry with the next id; the counter moves on.
    fn make_entry(
        &mut self,
        direction: Direction,
        data: &[u8],
        label: Option<String>,
        decoded: Option<String>,
        char_uuid: Option<String>,
        ts_ms: u64,
    ) -> (e: CaptureEntry)
        ensures
            e@ == entry_spec(
                old(self)@.next_id,
                ts_ms,
                direction,
                data@,
                opt_text(label),
                opt_text(decoded),
                opt_text(char_uuid),
            ),
            final(self)@ == (JournalView { next_id: next_after(old(self)@.next_id), ..old(self)@ }),
    {
        let id = self.next_id;
        self.next_id = if id == u64::MAX { 0 } else { id + 1 };
        let hex = if data.len() == 0 { String::new() } else { hex_encode(data) };
        let raw = vstd::slice::slice_to_vec(data);
        CaptureEntry { id, ts_ms, direction, hex, raw, label, decoded, char_uuid }
    }

    /// Append an entry to the session.
    fn push_entry(&mut self, e: CaptureEntry)
        ensures
            final(self)@ == (JournalView { session: with_entry(old(self)@.session, e@), ..old(self)@ }),
    {
        self.session.entries.push(e);
        assert(entry_views(self.session.entries@) =~= old(self)@.session.entries.push(e@));
    }

    /// Append a note of the capture itself.
    fn push_info(&mut self, label: String, ts_ms: u64)
        ensures
            final(self)@ == (JournalView {
                session: with_entry(old(self)@.session, info_entry(old(self)@.next_id, ts_ms, label@)),
                next_id: next_after(old(self)@.next_id),
                ..old(self)@
            }),
    {
        let e = self.make_entry(Direction::Info, &[], Some(label), None, None, ts_ms);
        assert(e@.raw =~= Seq::<u8>::empty());
        self.push_entry(e);
    }

    /// Start a capture: active, stamped, for the given device, with fresh
    /// steps, the first step current and one note.
    pub fn start(&mut self, device_name: Option<String>, device_address: Option<String>, ts_ms: u64)
        ensures
            final(self)@.session == (SessionView {
                active: true,
                started_at_ms: Some(ts_ms),
                device_name: opt_text(device_name),
                device_address: opt_text(device_address),
                entries: seq![info_entry(old(self)@.next_id, ts_ms, "Capture started"@)],
                steps: default_steps(),
                gatt_map: old(self)@.session.gatt_map,
                current_step_id: Some("connect"@),
            }),
            final(self)@.next_id == next_after(old(self)@.next_id),
            final(self)@.max_entries == old(self)@.max_entries,
            final(self)@ == started_view(old(self)@, opt_text(device_name), opt_text(device_address), ts_ms),
    {
        self.session.active = true;
        self.session.started_at_ms = Some(ts_ms);
        self.session.device_name = device_name;
        self.session.device_address = device_address;
        self.session.entries = Vec::new();
        self.session.steps = default_guided_steps();
        self.session.current_step_id = Some(string_of("connect"));
        assert(entry_views(self.session.entries@) =~= Seq::<EntryView>::empty());
        self.push_info(string_of("Capture started"), ts_ms);
        assert(self@.session.entries =~= seq![info_entry(old(self)@.next_id, ts_ms, "Capture started"@)]);
    }

    /// Stop recording and note how many entries there were.
    pub fn stop(&mut self, ts_ms: u64)
        ensures
            final(self)@ == stopped_view(old(self)@, ts_ms),
    {
        self.session.active = false;
        let mut label = string_of("Capture stopped — ");
        push_decimal(&mut label, self.session.entries.len() as u64);
        push_str(&mut label, " frames");
        self.push_info(label, ts_ms);
    }

    /// Drop every entry and reset every step.
    pub fn clear(&mut self)
        ensures
            final(self)@.session == (SessionView {
                entries: Seq::empty(),
                steps: old(self)@.session.steps.map_values(|s: StepView| reset_step(s)),
                ..old(self)@.session
            }),
            final(self)@.next_id == old(self)@.next_id,
            final(self)@.max_entries == old(self)@.max_entries,
            final(self)@ == cleared_view(old(self)@),
    {
        self.session.entries = Vec::new();
        assert(entry_views(self.session.entries@) =~= Seq::<EntryView>::empty());
        let ghost before = step_views(self.session.steps@);
        let n = self.session.steps.len();
        let mut i: usize = 0;
        while i < n
            invariant
                n == self.session.steps.len(),
                before.len() == n,
                i <= n,
                forall|j: int| 0 <= j < i ==> #[trigger] step_views(self.session.steps@)[j] == reset_step(before[j]),
                forall|j: int| i <= j < n ==> #[trigger] step_views(self.session.steps@)[j] == before[j],
                self.session.active == old(self).session.active,
                self.session.started_at_ms == old(self).session.started_at_ms,
                self.session.device_name == old(self).session.device_name,
                self.session.device_address == old(self).session.device_address,
                entry_views(self.session.entries@) == Seq::<EntryView>::empty(),
                self.session.gatt_map == old(self).session.gatt_map,
                self.session.current_step_id == old(self).session.current_step_id,
                self.next_id == old(self).next_id,
                self.max_entries == old(self).max_entries,
            decreases n - i,
        {
            let ghost prev = self.session.steps@;
            assert(step_views(prev)[i as int] == before[i as int]);
            let mut st = self.session.steps.remove(i);
            st.done = false;
            st.entry_ids = Vec::new();
            assert(st.entry_ids@ =~= Seq::<u64>::empty());
            assert(st@ == reset_step(before[i as int]));
            self.session.steps.insert(i, st);
            assert(self.session.steps@ =~= prev.update(i as int, st));
            assert(step_views(self.session.steps@) =~= step_views(prev).update(i as int, reset_step(before[i as int])));
            i = i + 1;
        }
        assert(step_views(self.session.steps@) =~= before.map_values(|s: StepView| reset_step(s)));
    }

    /// Replace the device's name and address where a new one is given.
    pub fn set_device_info(&mut self, name: Option<String>, address: Option<String>)
        ensures
            final(self)@.session == (SessionView {
                device_name: if name is Some { opt_text(name) } else { old(self)@.session.device_name },
                device_address: if address is Some { opt_text(address) } else { old(self)@.session.device_address },
                ..old(self)@.session
            }),
            final(self)@.next_id == old(self)@.next_id,
            final(self)@.max_entries == old(self)@.max_entries,
            final(self)@ == device_info_view(old(self)@, opt_text(name), opt_text(address)),
    {
        if name.is_some() {
            self.session.device_name = name;
        }
        if address.is_some() {
            self.session.device_address = address;
        }
    }

    /// Replace the GATT map.
    pub fn set_gatt_map(&mut self, map: Vec<GattChar>)
        ensures
            final(self)@.session == (SessionView { gatt_map: gatt_views(map@), ..old(self)@.session }),
            final(self)@.next_id == old(self)@.next_id,
            final(self)@.max_entries == old(self)@.max_entries,
            final(self)@ == gatt_map_view(old(self)@, gatt_views(map@)),
    {
        self.session.gatt_map = map;
    }
}

/// Drop the oldest entries until at most `max` are left.
fn keep_newest_entries(entries: &mut Vec<CaptureEntry>, max: usize)
    ensures
        entry_views(final(entries)@) == keep_newest(entry_views(old(entries)@), max as nat),
{
    let ghost full = entry_views(entries@);
    while entries.len() > max
        invariant
            full.len() == old(entries)@.len(),
            full == entry_views(old(entries)@),
            entries.len() <= full.len(),
            full.len() > max ==> entries.len() >= max,
            full.len() <= max ==> entries.len() == full.len(),
            entry_views(entries@) == full.subrange(full.len() - entries.len(), full.len() as int),
        decreases entries.len(),
    {
        let ghost prev = entries@;
        entries.remove(0);
        assert(entry_views(entries@) =~= entry_views(prev).subrange(1, prev.len() as int));
    }
    assert(entry_views(entries@) =~= keep_newest(full, max as nat));
}

impl CaptureStore {
    /// Record a frame while the capture is active: it is labelled with the
    /// current step's title, attached to that step, and the journal keeps its
    /// newest `max_entries` entries. An inactive capture is left as it is.
    pub fn record(
        &mut self,
        direction: Direction,
        data: &[u8],
        char_uuid: Option<String>,
        decoded: Option<String>,
        ts_ms: u64,
    ) -> (recorded: bool)
        ensures
            recorded == old(self)@.session.active,
            final(self)@ == recorded_view(old(self)@, direction, data@, opt_text(char_uuid), opt_text(decoded), ts_ms),
    {
        if !self.session.active {
            return false;
        }
        let idx = match &self.session.current_step_id {
            Some(c) => step_index(&self.session.steps, c.as_str()),
            None => None,
        };
        let label = match idx {
            Some(k) => Some(self.session.steps[k].title.clone()),
            None => None,
        };
        assert(opt_text(label) == current_label(old(self)@.session));
        let id = self.next_id;
        let e = self.make_entry(direction, data, label, decoded, char_uuid, ts_ms);
        if let Some(k) = idx {
            let ghost prev = self.session.steps@;
            let mut st = self.session.steps.remove(k);
            st.entry_ids.push(id);
            self.session.steps.insert(k, st);
            assert(self.session.steps@ =~= prev.update(k as int, st));
            assert(step_views(self.session.steps@) =~= attach_entry(old(self)@.session, id));
        } else {
            assert(step_views(self.session.steps@) =~= attach_entry(old(self)@.session, id));
        }
        self.session.entries.push(e);
        keep_newest_entries(&mut self.session.entries, self.max_entries);
        proof {
            assert(entry_views(old(self).session.entries@.push(e)) =~= old(self)@.session.entries.push(e@));
            assert(self@.session.steps == attach_entry(old(self)@.session, old(self)@.next_id));
            assert(self@.session.entries == keep_newest(old(self)@.session.entries.push(e@), old(self)@.max_entries));
            assert(self@.next_id == next_after(old(self)@.next_id));
        }
        true
    }

    /// Give an entry a label.
    pub fn annotate(&mut self, entry_id: u64, label: String) -> (r: Result<(), String>)
        ensures
            match find_entry(old(self)@.session.entries, entry_id) {
                Some(k) => r is Ok && final(self)@ == (JournalView {
                    session: SessionView {
                        entries: old(self)@.session.entries.update(
                            k,
                            EntryView { label: Some(label@), ..old(self)@.session.entries[k] },
                        ),
                        ..old(self)@.session
                    },
                    ..old(self)@
                }),
                None => final(self)@ == old(self)@ && (r matches Err(e) && e@ == "Entry not found"@),
            },
            final(self)@ == annotated_view(old(self)@, entry_id, label@),
    {
        match entry_index(&self.session.entries, entry_id) {
            Some(k) => {
                let ghost prev = self.session.entries@;
                let mut e = self.session.entries.remove(k);
                e.label = Some(label);
                self.session.entries.insert(k, e);
                assert(self.session.entries@ =~= prev.update(k as int, e));
                assert(entry_views(self.session.entries@) =~= old(self)@.session.entries.update(
                    k as int,
                    EntryView { label: Some(label@), ..old(self)@.session.entries[k as int] },
                ));
                Ok(())
            },
            None => Err(string_of("Entry not found")),
        }
    }

    /// Add a free-text note.
    pub fn add_note(&mut self, text: String, ts_ms: u64)
        ensures
            final(self)@ == (JournalView {
                session: with_entry(old(self)@.session, info_entry(old(self)@.next_id, ts_ms, text@)),
                next_id: next_after(old(self)@.next_id),
                ..old(self)@
            }),
            final(self)@ == noted_view(old(self)@, text@, ts_ms),
    {
        self.push_info(text, ts_ms);
    }

    /// Make a known step current and note the change; an unknown step is refused.
    pub fn set_current_step(&mut self, step_id: String, ts_ms: u64) -> (r: Result<(), String>)
        ensures
            match find_step(old(self)@.session.steps, step_id@) {
                Some(_) => r is Ok && final(self)@ == (JournalView {
                    session: with_entry(
                        SessionView { current_step_id: Some(step_id@), ..old(self)@.session },
                        info_entry(old(self)@.next_id, ts_ms, "Step → "@ + step_id@),
                    ),
                    next_id: next_after(old(self)@.next_id),
                    ..old(self)@
                }),
                None => final(self)@ == old(self)@ && (r matches Err(e) && e@ == "Unknown step: "@ + step_id@),
            },
            final(self)@ == step_selected_view(old(self)@, step_id@, ts_ms),
    {
        if step_index(&self.session.steps, step_id.as_str()).is_none() {
            let mut msg = string_of("Unknown step: ");
            push_str(&mut msg, step_id.as_str());
            return Err(msg);
        }
        let mut label = string_of("Step → ");
        push_str(&mut label, step_id.as_str());
        self.session.current_step_id = Some(step_id);
        self.push_info(label, ts_ms);
        Ok(())
    }

    /// Mark a step done or not done; an unknown step is refused.
    pub fn mark_step_done(&mut self, step_id: &str, done: bool) -> (r: Result<(), String>)
        ensures
            match find_step(old(self)@.session.steps, step_id@) {
                Some(k) => r is Ok && final(self)@ == (JournalView {
                    session: SessionView {
                        steps: old(self)@.session.steps.update(k, StepView { done, ..old(self)@.session.steps[k] }),
                        ..old(self)@.session
                    },
                    ..old(self)@
                }),
                None => final(self)@ == old(self)@ && (r matches Err(e) && e@ == "Step not found"@),
            },
            final(self)@ == step_marked_view(old(self)@, step_id@, done),
    {
        match step_index(&self.session.steps, step_id) {
            Some(k) => {
                let ghost prev = self.session.steps@;
                let mut st = self.session.steps.remove(k);
                st.done = done;
                self.session.steps.insert(k, st);
                assert(self.session.steps@ =~= prev.update(k as int, st));
                assert(step_views(self.session.steps@) =~= old(self)@.session.steps.update(
                    k as int,
                    StepView { done, ..old(self)@.session.steps[k as int] },
                ));
                Ok(())
            },
            None => Err(string_of("Step not found")),
        }
    }
}

} // verus!
