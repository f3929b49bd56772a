//! The markdown packet-table draft of a capture.

use vstd::prelude::*;
use super::store::CaptureStore;
use super::types::{
    CaptureEntry, CaptureSession, Direction, EntryView, GattChar, GattView, GuidedStep, SessionView,
    StepView, entry_views, gatt_views, step_views, texts,
};
use crate::text::{decimal, push_decimal, push_str, string_of};

verus! {

/// The text of an optional string, or `d` when there is none.
pub open spec fn or_text(o: Option<Seq<char>>, d: Seq<char>) -> Seq<char> {
    match o {
        Some(t) => t,
        None => d,
    }
}

/// Parts joined with a separator between neighbours.
pub open spec fn join(parts: Seq<Seq<char>>, sep: Seq<char>) -> Seq<char>
    decreases parts.len(),
{
    if parts.len() == 0 {
        Seq::empty()
    } else if parts.len() == 1 {
        parts[0]
    } else {
        join(parts.drop_last(), sep) + sep + parts.last()
    }
}

/// One row of the GATT table.
pub open spec fn gatt_row(c: GattView) -> Seq<char> {
    "| `"@ + c.service_uuid + "` | `"@ + c.uuid + "` | "@ + join(c.properties, ", "@) + " |\n"@
}

/// The rows of the GATT table, in order.
pub open spec fn gatt_rows(s: Seq<GattView>) -> Seq<char>
    decreases s.len(),
{
    if s.len() == 0 { Seq::empty() } else { gatt_rows(s.drop_last()) + gatt_row(s.last()) }
}

/// The GATT section: absent for an empty map.
pub open spec fn gatt_section(s: Seq<GattView>) -> Seq<char> {
    if s.len() == 0 {
        Seq::empty()
    } else {
        "## GATT map\n\n"@ + "| Service | Characteristic | Properties |\n"@
            + "|---------|----------------|------------|\n"@ + gatt_rows(s) + "\n"@
    }
}

/// The short name of a direction.
pub open spec fn dir_name(d: Direction) -> Seq<char> {
    match d {
        Direction::Tx => "TX"@,
        Direction::Rx => "RX"@,
        Direction::Info => "INFO"@,
    }
}

/// Row `n` (counted from 1) of the frames table: a note without bytes shows
/// only its label.
pub open spec fn frame_row(n: nat, e: EntryView) -> Seq<char> {
    if e.direction == Direction::Info && e.hex.len() == 0 {
        "| "@ + decimal(n) + " | INFO | — | "@ + or_text(e.label, Seq::empty()) + " | |\n"@
    } else {
        "| "@ + decimal(n) + " | "@ + dir_name(e.direction) + " | `"@ + e.hex + "` | "@
            + or_text(e.label, Seq::empty()) + " | "@ + or_text(e.decoded, Seq::empty()) + " |\n"@
    }
}

/// The rows of the frames table, numbered from 1.
pub open spec fn frame_rows(s: Seq<EntryView>) -> Seq<char>
    decreases s.len(),
{
    if s.len() == 0 { Seq::empty() } else { frame_rows(s.drop_last()) + frame_row(s.len(), s.last()) }
}

/// One checklist line of the guided steps.
pub open spec fn step_line(s: StepView) -> Seq<char> {
    "- ["@ + (if s.done { "x"@ } else { " "@ }) + "] **"@ + s.title + "** — "@ + s.instruction + " ("@
        + decimal(s.entry_ids.len()) + " frames)\n"@
}

/// The checklist of guided steps, in order.
pub open spec fn step_lines(s: Seq<StepView>) -> Seq<char>
    decreases s.len(),
{
    if s.len() == 0 { Seq::empty() } else { step_lines(s.drop_last()) + step_line(s.last()) }
}

/// The whole markdown draft of a session exported at `ts`.
pub open spec fn markdown_text(s: SessionView, ts: u64) -> Seq<char> {
    "# Capture Bundle\n\n"@ + "- **Device:** "@ + or_text(s.device_name, "Unknown"@) + "\n"@
        + "- **Address:** "@ + or_text(s.device_address, "—"@) + "\n"@ + "- **Frames:** "@
        + decimal(s.entries.len()) + "\n"@ + "- **Exported:** "@ + decimal(ts as nat) + "\n\n"@
        + gatt_section(s.gatt_map) + "## Frames\n\n"@ + "| # | Dir | Hex | Label | Decoded |\n"@
        + "|---|-----|-----|-------|----------|\n"@ + frame_rows(s.entries) + "\n## Guided steps\n\n"@
        + step_lines(s.steps) + "\n---\n*Generated by Baseus Desktop Capture Studio*\n"@
}

fn push_opt(out: &mut String, o: &Option<String>, default: &str)
    ensures
        final(out)@ == old(out)@ + or_text(super::types::opt_text(*o), default@),
{
    match o {
        Some(t) => push_str(out, t.as_str()),
        None => push_str(out, default),
    }
}

fn push_opt_or_nothing(out: &mut String, o: &Option<String>)
    ensures
        final(out)@ == old(out)@ + or_text(super::types::opt_text(*o), Seq::empty()),
{
    match o {
        Some(t) => push_str(out, t.as_str()),
        None => {
            assert(old(out)@ + Seq::<char>::empty() =~= old(out)@);
        },
    }
}

fn push_join(out: &mut String, parts: &Vec<String>, sep: &str)
    ensures
        final(out)@ == old(out)@ + join(texts(parts@), sep@),
{
    let ghost start = out@;
    let ghost all = texts(parts@);
    let mut i: usize = 0;
    while i < parts.len()
        invariant
            i <= parts.len(),
            all == texts(parts@),
            out@ == start + join(all.take(i as int), sep@),
        decreases parts.len() - i,
    {
        let ghost before = out@;
        if i > 0 {
            push_str(out, sep);
        }
        push_str(out, parts[i].as_str());
        proof {
            let t = all.take(i + 1);
            assert(t.drop_last() =~= all.take(i as int));
            assert(t.last() == parts@[i as int]@);
            if i == 0 {
                assert(t.len() == 1);
                assert(all.take(0) =~= Seq::<Seq<char>>::empty());
            }
            assert(out@ =~= start + join(t, sep@));
        }
        i = i + 1;
    }
    assert(all.take(parts.len() as int) =~= all);
}

fn push_gatt_row(out: &mut String, c: &GattChar)
    ensures
        final(out)@ == old(out)@ + gatt_row(c@),
{
    let ghost start = out@;
    push_str(out, "| `");
    push_str(out, c.service_uuid.as_str());
    push_str(out, "` | `");
    push_str(out, c.uuid.as_str());
    push_str(out, "` | ");
    push_join(out, &c.properties, ", ");
    push_str(out, " |\n");
    assert(out@ =~= start + gatt_row(c@));
}

fn push_gatt_section(out: &mut String, map: &Vec<GattChar>)
    ensures
        final(out)@ == old(out)@ + gatt_section(gatt_views(map@)),
{
    let ghost start = out@;
    let ghost all = gatt_views(map@);
    if map.len() == 0 {
        assert(out@ =~= start + gatt_section(all));
        return;
    }
    push_str(out, "## GATT map\n\n");
    push_str(out, "| Service | Characteristic | Properties |\n");
    push_str(out, "|---------|----------------|------------|\n");
    let ghost head = out@;
    let mut i: usize = 0;
    while i < map.len()
        invariant
            i <= map.len(),
            all == gatt_views(map@),
            out@ == head + gatt_rows(all.take(i as int)),
        decreases map.len() - i,
    {
        push_gatt_row(out, &map[i]);
        proof {
            let t = all.take(i + 1);
            assert(t.drop_last() =~= all.take(i as int));
            assert(out@ =~= head + gatt_rows(t));
        }
        i = i + 1;
    }
    push_str(out, "\n");
    assert(all.take(map.len() as int) =~= all);
    assert(out@ =~= start + gatt_section(all));
}

fn push_dir_name(out: &mut String, d: Direction)
    ensures
        final(out)@ == old(out)@ + dir_name(d),
{
    match d {
        Direction::Tx => push_str(out, "TX"),
        Direction::Rx => push_str(out, "RX"),
        Direction::Info => push_str(out, "INFO"),
    }
}

fn push_frame_row(out: &mut String, n: u64, e: &CaptureEntry)
    ensures
        final(out)@ == old(out)@ + frame_row(n as nat, e@),
{
    let ghost start = out@;
    push_str(out, "| ");
    push_decimal(out, n);
    if e.direction == Direction::Info && e.hex.as_str().unicode_len() == 0 {
        push_str(out, " | INFO | — | ");
        push_opt_or_nothing(out, &e.label);
        push_str(out, " | |\n");
    } else {
        push_str(out, " | ");
        push_dir_name(out, e.direction);
        push_str(out, " | `");
        push_str(out, e.hex.as_str());
        push_str(out, "` | ");
        push_opt_or_nothing(out, &e.label);
        push_str(out, " | ");
        push_opt_or_nothing(out, &e.decoded);
        push_str(out, " |\n");
    }
    assert(out@ =~= start + frame_row(n as nat, e@));
}

fn push_frame_rows(out: &mut String, entries: &Vec<CaptureEntry>)
    ensures
        final(out)@ == old(out)@ + frame_rows(entry_views(entries@)),
{
    let ghost start = out@;
    let ghost all = entry_views(entries@);
    let mut i: usize = 0;
    while i < entries.len()
        invariant
            i <= entries.len(),
            all == entry_views(entries@),
            out@ == start + frame_rows(all.take(i as int)),
        decreases entries.len() - i,
    {
        push_frame_row(out, (i as u64) + 1, &entries[i]);
        proof {
            let t = all.take(i + 1);
            assert(t.drop_last() =~= all.take(i as int));
            assert(out@ =~= start + frame_rows(t));
        }
        i = i + 1;
    }
    assert(all.take(entries.len() as int) =~= all);
}

fn push_step_line(out: &mut String, s: &GuidedStep)
    ensures
        final(out)@ == old(out)@ + step_line(s@),
{
    let ghost start = out@;
    push_str(out, "- [");
    if s.done {
        push_str(out, "x");
    } else {
        push_str(out, " ");
    }
    push_str(out, "] **");
    push_str(out, s.title.as_str());
    push_str(out, "** — ");
    push_str(out, s.instruction.as_str());
    push_str(out, " (");
    push_decimal(out, s.entry_ids.len() as u64);
    push_str(out, " frames)\n");
    assert(out@ =~= start + step_line(s@));
}

fn push_step_lines(out: &mut String, steps: &Vec<GuidedStep>)
    ensures
        final(out)@ == old(out)@ + step_lines(step_views(steps@)),
{
    let ghost start = out@;
    let ghost all = step_views(steps@);
    let mut i: usize = 0;
    while i < steps.len()
        invariant
            i <= steps.len(),
            all == step_views(steps@),
            out@ == start + step_lines(all.take(i as int)),
        decreases steps.len() - i,
    {
        push_step_line(out, &steps[i]);
        proof {
            let t = all.take(i + 1);
            assert(t.drop_last() =~= all.take(i as int));
            assert(out@ =~= start + step_lines(t));
        }
        i = i + 1;
    }
    assert(all.take(steps.len() as int) =~= all);
}

/// The markdown packet-table draft of a session exported at `exported_at_ms`.
pub fn markdown(session: &CaptureSession, exported_at_ms: u64) -> (r: String)
    ensures
        r@ == markdown_text(session@, exported_at_ms),
{
    let mut md = string_of("# Capture Bundle\n\n");
    push_str(&mut md, "- **Device:** ");
    push_opt(&mut md, &session.device_name, "Unknown");
    push_str(&mut md, "\n");
    push_str(&mut md, "- **Address:** ");
    push_opt(&mut md, &session.device_address, "—");
    push_str(&mut md, "\n");
    push_str(&mut md, "- **Frames:** ");
    push_decimal(&mut md, session.entries.len() as u64);
    push_str(&mut md, "\n");
    push_str(&mut md, "- **Exported:** ");
    push_decimal(&mut md, exported_at_ms);
    push_str(&mut md, "\n\n");
    push_gatt_section(&mut md, &session.gatt_map);
    push_str(&mut md, "## Frames\n\n");
    push_str(&mut md, "| # | Dir | Hex | Label | Decoded |\n");
    push_str(&mut md, "|---|-----|-----|-------|----------|\n");
    push_frame_rows(&mut md, &session.entries);
    push_str(&mut md, "\n## Guided steps\n\n");
    push_step_lines(&mut md, &session.steps);
    push_str(&mut md, "\n---\n*Generated by Baseus Desktop Capture Studio*\n");
    md
}

impl CaptureStore {
    /// Export the journal as a markdown packet-table draft.
    pub fn export_markdown(&self, exported_at_ms: u64) -> (r: Result<String, String>)
        ensures
            r matches Ok(md) && md@ == markdown_text(self@.session, exported_at_ms),
    {
        Ok(markdown(self.session(), exported_at_ms))
    }
}

} // verus!
