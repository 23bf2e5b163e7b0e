use vstd::prelude::*;

use crate::dur::{dur_sub, sat_sub};
use crate::splits::{Split, SplitTree, MAX_SPLITS};
use crate::timefmt::{dec_text, format_time, time_text};

verus! {

/// The index column of a split row: the one-based position, right-aligned
/// to at least two characters.
pub open spec fn idx_text(n: nat) -> Seq<char> {
    if n < 10 {
        seq![' '] + dec_text(n)
    } else {
        dec_text(n)
    }
}

/// The text of one split row: `NN) start -> end = duration name`. A closed
/// split shows its frozen end and duration; an open one shows them live
/// against the current total `total`.
pub open spec fn row_text(s: Split, i: int, total: nat) -> Seq<char> {
    let end = match s.end_offset {
        Some(e) => e as nat,
        None => total,
    };
    idx_text((i + 1) as nat) + ") "@ + time_text(s.start_offset as nat) + " -> "@ + time_text(end)
        + " = "@ + time_text(sat_sub(end as int, s.start_offset as int) as nat) + " "@ + s.name@
}

/// The goal line: the goal's name, or a placeholder before the first start.
pub open spec fn goal_line_text(goal: Option<Seq<char>>) -> Seq<char> {
    "Goal  : "@ + match goal {
        Some(g) => g,
        None => "(none)"@,
    }
}

/// The total-time line.
pub open spec fn time_line_text(total: nat) -> Seq<char> {
    "Time  : "@ + time_text(total)
}

/// The split-count line.
pub open spec fn count_line_text(n: nat) -> Seq<char> {
    "Subgoals ("@ + dec_text(n) + "):"@
}

/// One row of the drawable snapshot; the renderer indents it by
/// `level * 2` columns.
pub struct DrawRow {
    /// Nesting depth of the split this row shows.
    pub level: usize,
    /// The row's full text.
    pub text: String,
}

/// A side-effect-free snapshot of everything the screen shows; the external
/// renderer paints it and nothing else.
pub struct DrawModel {
    /// The fixed banner.
    pub title: String,
    /// The goal line.
    pub goal_line: String,
    /// The total-time line.
    pub time_line: String,
    /// The split-count line.
    pub count_line: String,
    /// One row per split, in insertion order.
    pub rows: Vec<DrawRow>,
    /// The fixed controls legend.
    pub legend: String,
}

/// Append `t` to `s`.
fn append_str(s: &mut String, t: &str)
    ensures
        final(s)@ == old(s)@ + t@,
{
    s.append(t);
}

/// Append the right-aligned index column for one-based position `n`.
fn append_idx(s: &mut String, n: u64)
    ensures
        final(s)@ == old(s)@ + idx_text(n as nat),
{
    if n < 10 {
        proof {
            reveal_strlit(" ");
        }
        append_str(s, " ");
    }
    crate::timefmt::append_dec(s, n);
    assert(final(s)@ =~= old(s)@ + idx_text(n as nat));
}

/// Build the text of the row at position `i` as of elapsed total `total`.
pub fn build_row_text(s: &Split, i: usize, total: u64) -> (r: String)
    requires
        i < MAX_SPLITS,
    ensures
        r@ == row_text(*s, i as int, total as nat),
{
    let end: u64 = match s.end_offset {
        Some(e) => e,
        None => total,
    };
    let mut r = String::new();
    append_idx(&mut r, (i as u64) + 1);
    proof {
        reveal_strlit(") ");
        reveal_strlit(" -> ");
        reveal_strlit(" = ");
        reveal_strlit(" ");
    }
    append_str(&mut r, ") ");
    let t = format_time(s.start_offset);
    append_str(&mut r, t.as_str());
    append_str(&mut r, " -> ");
    let t = format_time(end);
    append_str(&mut r, t.as_str());
    append_str(&mut r, " = ");
    let t = format_time(dur_sub(end, s.start_offset));
    append_str(&mut r, t.as_str());
    append_str(&mut r, " ");
    append_str(&mut r, s.name.as_str());
    assert(r@ =~= row_text(*s, i as int, total as nat));
    r
}

/// Derive the drawable snapshot of the whole screen from the goal, the
/// current elapsed total and the split tree. Pure: repainting is the
/// external renderer's work.
pub fn build_model(goal: &Option<String>, total: u64, tree: &SplitTree) -> (m: DrawModel)
    requires
        tree.wf(),
    ensures
        m.title@ == "=== Stopwatch ==="@,
        m.goal_line@ == goal_line_text(
            match goal {
                Some(g) => Some(g@),
                None => None,
            },
        ),
        m.time_line@ == time_line_text(total as nat),
        m.count_line@ == count_line_text(tree.splits@.len()),
        m.rows@.len() == tree.splits@.len(),
        forall|j: int|
            0 <= j < m.rows@.len() ==> (#[trigger] m.rows@[j]).text@ == row_text(
                tree.splits@[j],
                j,
                total as nat,
            ) && m.rows@[j].level == tree.splits@[j].level,
        m.legend@
            == "Controls: s=start/stop r=reset c=continue g=subgoal n=nested h=stop u=up d=redraw t=save-log q=quit"@,
{
    proof {
        reveal_strlit("=== Stopwatch ===");
        reveal_strlit("Goal  : ");
        reveal_strlit("(none)");
        reveal_strlit("Time  : ");
        reveal_strlit("Subgoals (");
        reveal_strlit("):");
        reveal_strlit(
            "Controls: s=start/stop r=reset c=continue g=subgoal n=nested h=stop u=up d=redraw t=save-log q=quit",
        );
    }
    let mut title = String::new();
    append_str(&mut title, "=== Stopwatch ===");
    let mut goal_line = String::new();
    append_str(&mut goal_line, "Goal  : ");
    match goal {
        Some(g) => append_str(&mut goal_line, g.as_str()),
        None => append_str(&mut goal_line, "(none)"),
    }
    let mut time_line = String::new();
    append_str(&mut time_line, "Time  : ");
    let t = format_time(total);
    append_str(&mut time_line, t.as_str());
    let mut count_line = String::new();
    append_str(&mut count_line, "Subgoals (");
    crate::timefmt::append_dec(&mut count_line, tree.splits.len() as u64);
    append_str(&mut count_line, "):");
    let mut legend = String::new();
    append_str(
        &mut legend,
        "Controls: s=start/stop r=reset c=continue g=subgoal n=nested h=stop u=up d=redraw t=save-log q=quit",
    );
    let mut rows: Vec<DrawRow> = Vec::new();
    let mut i: usize = 0;
    while i < tree.splits.len()
        invariant
            tree.wf(),
            i <= tree.splits@.len(),
            rows@.len() == i,
            forall|j: int|
                0 <= j < i ==> (#[trigger] rows@[j]).text@ == row_text(
                    tree.splits@[j],
                    j,
                    total as nat,
                ) && rows@[j].level == tree.splits@[j].level,
        decreases tree.splits@.len() - i,
    {
        let text = build_row_text(&tree.splits[i], i, total);
        rows.push(DrawRow { level: tree.splits[i].level, text: text });
        i = i + 1;
    }
    assert(goal_line@ =~= goal_line_text(
        match goal {
            Some(g) => Some(g@),
            None => None,
        },
    ));
    assert(time_line@ =~= time_line_text(total as nat));
    assert(count_line@ =~= count_line_text(tree.splits@.len()));
    DrawModel { title, goal_line, time_line, count_line, rows, legend }
}

} // verus!
