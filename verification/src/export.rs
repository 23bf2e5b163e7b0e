use vstd::prelude::*;

use crate::dur::{dur_sub, sat_sub};
use crate::splits::{Split, SplitTree};
use crate::timefmt::{format_time, time_text};
use crate::wall::clock_stamp_text;

verus! {

/// One entry of the append-only log: an outline heading of `depth` stars
/// with a wall-clock range and a duration. Depth 1 is the session itself;
/// a closed split gets depth `level + 2`.
pub struct LogRecord {
    /// Heading depth: how many stars the outline heading carries.
    pub depth: usize,
    /// Heading text: the goal or the split's name.
    pub name: String,
    /// Wall stamp (epoch milliseconds) at which the interval began.
    pub start_wall: u64,
    /// Wall stamp (epoch milliseconds) at which it ended.
    pub end_wall: u64,
    /// Length of the interval in milliseconds.
    pub duration_ms: u64,
}

/// The mathematical shape of a log record.
pub ghost struct RecModel {
    /// Heading depth.
    pub depth: int,
    /// Heading text.
    pub name: Seq<char>,
    /// Wall stamp at the start.
    pub start_wall: int,
    /// Wall stamp at the end.
    pub end_wall: int,
    /// Interval length in milliseconds.
    pub duration_ms: int,
}

impl View for LogRecord {
    type V = RecModel;

    open spec fn view(&self) -> RecModel {
        RecModel {
            depth: self.depth as int,
            name: self.name@,
            start_wall: self.start_wall as int,
            end_wall: self.end_wall as int,
            duration_ms: self.duration_ms as int,
        }
    }
}

/// The record a closed split contributes: heading depth `level + 2`, the
/// split's own wall range, and its (saturating) offset duration.
pub open spec fn rec_of_split(s: Split) -> RecModel {
    RecModel {
        depth: s.level + 2,
        name: s.name@,
        start_wall: s.start_wall as int,
        end_wall: s.end_wall.unwrap() as int,
        duration_ms: sat_sub(s.end_offset.unwrap() as int, s.start_offset as int),
    }
}

/// The records of every *closed* split of `s`, in insertion order; open
/// splits contribute nothing.
pub open spec fn closed_recs(s: Seq<Split>) -> Seq<RecModel>
    decreases s.len(),
{
    if s.len() == 0 {
        Seq::<RecModel>::empty()
    } else if s.last().is_closed() {
        closed_recs(s.drop_last()).push(rec_of_split(s.last()))
    } else {
        closed_recs(s.drop_last())
    }
}

/// The split that the `j`-th closed-split record came from.
pub open spec fn closed_index(s: Seq<Split>, j: int) -> int
    decreases s.len(),
{
    if s.len() == 0 {
        0
    } else if j < closed_recs(s.drop_last()).len() {
        closed_index(s.drop_last(), j)
    } else {
        s.len() - 1
    }
}

/// Exporting never loses a record: there are exactly as many nested records
/// as closed splits (the top-level record stands apart). Open splits at
/// export time contribute zero records.
pub proof fn lemma_export_count(s: Seq<Split>)
    ensures
        closed_recs(s).len() == crate::splits::spec_closed_count(s),
    decreases s.len(),
{
    if s.len() > 0 {
        lemma_export_count(s.drop_last());
    }
}

/// Exporting never invents a record: the `j`-th nested record is taken
/// verbatim — heading depth `level + 2` included, see `rec_of_split` —
/// from the `j`-th closed split, in insertion order.
pub proof fn lemma_export_record_source(s: Seq<Split>, j: int)
    requires
        0 <= j < closed_recs(s).len(),
    ensures
        0 <= closed_index(s, j) < s.len(),
        s[closed_index(s, j)].is_closed(),
        closed_recs(s)[j] == rec_of_split(s[closed_index(s, j)]),
        closed_recs(s)[j].depth == s[closed_index(s, j)].level + 2,
    decreases s.len(),
{
    if s.len() > 0 {
        if j < closed_recs(s.drop_last()).len() {
            lemma_export_record_source(s.drop_last(), j);
            let i = closed_index(s.drop_last(), j);
            assert(s[i] == s.drop_last()[i]);
            assert(closed_recs(s)[j] == closed_recs(s.drop_last())[j]);
        } else {
            assert(s.last().is_closed());
            assert(closed_recs(s)[j] == rec_of_split(s[s.len() - 1]));
        }
    }
}

/// Convert a finished (or paused) session into its ordered log records: the
/// top-level record for the whole session, then one record per closed
/// split, in insertion order.
pub fn export_records(
    goal: &String,
    start_wall: u64,
    end_wall: u64,
    total_ms: u64,
    tree: &SplitTree,
) -> (recs: Vec<LogRecord>)
    requires
        tree.wf(),
    ensures
        recs@.len() == 1 + closed_recs(tree.splits@).len(),
        recs@[0]@ == (RecModel {
            depth: 1,
            name: goal@,
            start_wall: start_wall as int,
            end_wall: end_wall as int,
            duration_ms: total_ms as int,
        }),
        forall|j: int|
            1 <= j < recs@.len() ==> #[trigger] recs@[j]@ == closed_recs(tree.splits@)[j - 1],
{
    let mut recs: Vec<LogRecord> = Vec::new();
    recs.push(
        LogRecord {
            depth: 1,
            name: goal.clone(),
            start_wall: start_wall,
            end_wall: end_wall,
            duration_ms: total_ms,
        },
    );
    let mut i: usize = 0;
    while i < tree.splits.len()
        invariant
            tree.wf(),
            i <= tree.splits@.len(),
            recs@.len() == 1 + closed_recs(tree.splits@.take(i as int)).len(),
            recs@[0]@ == (RecModel {
                depth: 1,
                name: goal@,
                start_wall: start_wall as int,
                end_wall: end_wall as int,
                duration_ms: total_ms as int,
            }),
            forall|j: int|
                1 <= j < recs@.len() ==> #[trigger] recs@[j]@ == closed_recs(
                    tree.splits@.take(i as int),
                )[j - 1],
        decreases tree.splits@.len() - i,
    {
        proof {
            assert(tree.splits@.take(i as int + 1).drop_last() =~= tree.splits@.take(i as int));
            assert(tree.splits@.take(i as int + 1).last() == tree.splits@[i as int]);
            assert(crate::splits::split_wf_at(tree.splits@, tree.stamp@ as int, i as int));
        }
        let s = &tree.splits[i];
        match (s.end_offset, s.end_wall) {
            (Some(end_off), Some(end_wall_ms)) => {
                recs.push(
                    LogRecord {
                        depth: s.level + 2,
                        name: s.name.clone(),
                        start_wall: s.start_wall,
                        end_wall: end_wall_ms,
                        duration_ms: dur_sub(end_off, s.start_offset),
                    },
                );
                proof {
                    assert(recs@.last()@ == rec_of_split(tree.splits@[i as int]));
                }
            },
            _ => {},
        }
        i = i + 1;
    }
    proof {
        assert(tree.splits@.take(tree.splits@.len() as int) =~= tree.splits@);
    }
    recs
}

/// A heading marker of `d` stars.
pub open spec fn stars_text(d: nat) -> Seq<char> {
    Seq::new(d, |k: int| '*')
}

/// The clock line of a record: the wall range and the duration.
pub open spec fn clock_line_text(start: Seq<char>, end: Seq<char>, dur: nat) -> Seq<char> {
    "  CLOCK: ["@ + start + "]--["@ + end + "] => "@ + time_text(dur)
}

/// Append `t` to `s`.
fn append_str(s: &mut String, t: &str)
    ensures
        final(s)@ == old(s)@ + t@,
{
    s.append(t);
}

/// Append a heading marker of `d` stars.
fn append_stars(s: &mut String, d: usize)
    ensures
        final(s)@ == old(s)@ + stars_text(d as nat),
{
    proof {
        reveal_strlit("*");
    }
    let mut k: usize = 0;
    while k < d
        invariant
            k <= d,
            s@ == old(s)@ + stars_text(k as nat),
        decreases d - k,
    {
        append_str(s, "*");
        proof {
            reveal_strlit("*");
            assert(s@ =~= old(s)@ + stars_text(k as nat + 1));
        }
        k = k + 1;
    }
}

/// Lay one record out as the five lines of its log entry, the wall range
/// having been rendered already: the heading, the drawer opener, the clock
/// line, the drawer closer, and a blank separator.
pub fn record_lines(rec: &LogRecord, start_text: &str, end_text: &str) -> (lines: Vec<String>)
    ensures
        lines@.len() == 5,
        lines@[0]@ == stars_text(rec.depth as nat) + " "@ + rec.name@,
        lines@[1]@ == "  :LOGBOOK:"@,
        lines@[2]@ == clock_line_text(start_text@, end_text@, rec.duration_ms as nat),
        lines@[3]@ == "  :END:"@,
        lines@[4]@ == Seq::<char>::empty(),
{
    proof {
        reveal_strlit(" ");
        reveal_strlit("  :LOGBOOK:");
        reveal_strlit("  CLOCK: [");
        reveal_strlit("]--[");
        reveal_strlit("] => ");
        reveal_strlit("  :END:");
    }
    let mut heading = String::new();
    append_stars(&mut heading, rec.depth);
    append_str(&mut heading, " ");
    append_str(&mut heading, rec.name.as_str());
    let mut opener = String::new();
    append_str(&mut opener, "  :LOGBOOK:");
    let mut clock = String::new();
    append_str(&mut clock, "  CLOCK: [");
    append_str(&mut clock, start_text);
    append_str(&mut clock, "]--[");
    append_str(&mut clock, end_text);
    append_str(&mut clock, "] => ");
    let dur = format_time(rec.duration_ms);
    append_str(&mut clock, dur.as_str());
    let mut closer = String::new();
    append_str(&mut closer, "  :END:");
    let blank = String::new();
    assert(heading@ =~= stars_text(rec.depth as nat) + " "@ + rec.name@);
    assert(clock@ =~= clock_line_text(start_text@, end_text@, rec.duration_ms as nat));
    let mut lines: Vec<String> = Vec::new();
    lines.push(heading);
    lines.push(opener);
    lines.push(clock);
    lines.push(closer);
    lines.push(blank);
    lines
}

/// Render one record ready for appending: its wall stamps pass through the
/// local clock rendering, everything else is laid out by `record_lines`.
pub fn render_record(rec: &LogRecord) -> (lines: Vec<String>)
    ensures
        lines@.len() == 5,
        lines@[0]@ == stars_text(rec.depth as nat) + " "@ + rec.name@,
        lines@[1]@ == "  :LOGBOOK:"@,
        lines@[3]@ == "  :END:"@,
        lines@[4]@ == Seq::<char>::empty(),
        exists|start: Seq<char>, end: Seq<char>|
            lines@[2]@ == clock_line_text(start, end, rec.duration_ms as nat),
{
    let start_text = clock_stamp_text(rec.start_wall);
    let end_text = clock_stamp_text(rec.end_wall);
    record_lines(rec, start_text.as_str(), end_text.as_str())
}

} // verus!
