use splitwatch::dispatch::{AppState, Command, Effect, KeyAction};
use splitwatch::dur::{dur_add, dur_sub};
use splitwatch::session::SessionTimer;
use splitwatch::splits::{SplitError, SplitTree, MAX_SPLITS};

#[test]
fn dur_sub_saturates_at_zero() {
    assert_eq!(dur_sub(3, 5), 0);
    assert_eq!(dur_sub(5, 3), 2);
}

#[test]
fn dur_add_saturates_at_max() {
    assert_eq!(dur_add(u64::MAX - 1, 5), u64::MAX);
    assert_eq!(dur_add(2, 5), 7);
}

#[test]
fn timer_pause_freezes_and_resume_continues() {
    // Pause at 3 s, wait a minute of wall time, resume, run 2 more seconds:
    // the total is 5 s, not 65 s.
    let mut t = SessionTimer::new();
    t.start("goal".to_string(), 0, 0);
    t.stop(3_000);
    assert_eq!(t.elapsed, 3_000);
    assert_eq!(t.total_elapsed(63_000), 3_000);
    t.resume(63_000);
    t.stop(65_000);
    assert_eq!(t.total_elapsed(65_000), 5_000);
    assert_eq!(t.total_elapsed(1_000_000), 5_000);
}

#[test]
fn timer_total_is_monotone_while_running() {
    let mut t = SessionTimer::new();
    t.start("goal".to_string(), 10, 0);
    let mut last = 0;
    for now in [10, 11, 50, 500, 10_000] {
        let total = t.total_elapsed(now);
        assert!(total >= last);
        last = total;
    }
}

#[test]
fn timer_double_stop_and_double_resume_do_not_double_count() {
    let mut t = SessionTimer::new();
    t.start("goal".to_string(), 0, 0);
    t.stop(1_000);
    t.stop(9_000);
    assert_eq!(t.elapsed, 1_000);
    t.resume(10_000);
    t.resume(20_000);
    t.stop(21_000);
    // the second resume was a no-op, so the segment began at 10 000
    assert_eq!(t.elapsed, 12_000);
}

#[test]
fn close_with_nothing_active_is_a_no_op() {
    let mut tree = SplitTree::new();
    assert_eq!(tree.close_active(5, 5), None);
    assert_eq!(tree.splits.len(), 0);
    assert!(tree.active.is_none());
    // and again, via the dispatcher
    let mut st = AppState::new();
    let eff = st.step(Command::CloseActive, 10, 10);
    assert_eq!(eff, Effect::Quiet);
    assert_eq!(st.tree.splits.len(), 0);
}

#[test]
fn open_nested_needs_an_active_split() {
    let mut tree = SplitTree::new();
    let r = tree.open_nested("inner".to_string(), 0, 0);
    assert_eq!(r, Err(SplitError::NoActiveSplit));
    assert_eq!(tree.splits.len(), 0);
}

#[test]
fn capacity_is_one_hundred_and_the_overflow_is_ignored() {
    let mut st = AppState::new();
    st.step(Command::Start("goal".to_string()), 0, 0);
    for k in 0..MAX_SPLITS {
        let eff = st.step(Command::OpenSplit(format!("s{}", k)), k as u64, 0);
        assert_eq!(eff, Effect::Redraw);
        // keep the chain shallow
        st.step(Command::CloseActive, k as u64, 0);
    }
    assert_eq!(st.tree.splits.len(), 100);
    let eff = st.step(Command::OpenSplit("too many".to_string()), 1_000, 0);
    assert_eq!(eff, Effect::Quiet);
    assert_eq!(st.tree.splits.len(), 100);
    // the direct operation reports the reason
    let r = st.tree.open_split("too many".to_string(), 1_000, 0);
    assert_eq!(r, Err(SplitError::CapacityExceeded));
}

#[test]
fn levels_follow_parents() {
    let mut st = AppState::new();
    st.step(Command::Start("goal".to_string()), 0, 0);
    st.step(Command::OpenSplit("a".to_string()), 0, 0);
    st.step(Command::OpenNested("b".to_string()), 1, 0);
    st.step(Command::OpenNested("c".to_string()), 2, 0);
    let s = &st.tree.splits;
    assert_eq!(s[0].parent, None);
    assert_eq!(s[0].level, 0);
    assert_eq!(s[1].parent, Some(0));
    assert_eq!(s[1].level, 1);
    assert_eq!(s[2].parent, Some(1));
    assert_eq!(s[2].level, 2);
    assert_eq!(st.tree.active, Some(2));
}

#[test]
fn ascend_moves_focus_without_closing() {
    let mut st = AppState::new();
    st.step(Command::Start("goal".to_string()), 0, 0);
    st.step(Command::OpenSplit("a".to_string()), 0, 0);
    st.step(Command::OpenNested("b".to_string()), 1, 0);
    let eff = st.step(Command::Ascend, 2, 0);
    assert_eq!(eff, Effect::Redraw);
    assert_eq!(st.tree.active, Some(0));
    // the abandoned split is still open
    assert_eq!(st.tree.splits[1].end_offset, None);
    // ascending from the top clears the focus; once more is a no-op
    st.step(Command::Ascend, 3, 0);
    assert_eq!(st.tree.active, None);
    let eff = st.step(Command::Ascend, 4, 0);
    assert_eq!(eff, Effect::Quiet);
}

#[test]
fn active_split_is_always_open() {
    let mut st = AppState::new();
    st.step(Command::Start("goal".to_string()), 0, 0);
    st.step(Command::OpenSplit("a".to_string()), 0, 0);
    st.step(Command::OpenNested("b".to_string()), 1_000, 0);
    st.step(Command::CloseActive, 2_000, 0);
    let a = st.tree.active.unwrap();
    assert!(st.tree.splits[a].end_offset.is_none());
}

#[test]
fn split_offsets_ignore_pauses() {
    let mut st = AppState::new();
    st.step(Command::Start("goal".to_string()), 0, 0);
    st.step(Command::Pause, 2_000, 0);
    // a minute of wall time passes while paused
    st.step(Command::Resume, 62_000, 0);
    st.step(Command::OpenSplit("a".to_string()), 63_000, 0);
    // the split starts at elapsed 3 s, not at 63 s
    assert_eq!(st.tree.splits[0].start_offset, 3_000);
    st.step(Command::CloseActive, 65_000, 0);
    assert_eq!(st.tree.splits[0].end_offset, Some(5_000));
}

#[test]
fn open_split_is_ignored_while_paused() {
    let mut st = AppState::new();
    st.step(Command::Start("goal".to_string()), 0, 0);
    st.step(Command::Pause, 1_000, 0);
    let eff = st.step(Command::OpenSplit("a".to_string()), 2_000, 0);
    assert_eq!(eff, Effect::Quiet);
    assert_eq!(st.tree.splits.len(), 0);
}

#[test]
fn start_discards_the_previous_session() {
    let mut st = AppState::new();
    st.step(Command::Start("first".to_string()), 0, 0);
    st.step(Command::OpenSplit("a".to_string()), 100, 0);
    st.step(Command::Start("second".to_string()), 5_000, 77);
    assert_eq!(st.tree.splits.len(), 0);
    assert_eq!(st.timer.goal.as_deref(), Some("second"));
    assert_eq!(st.timer.elapsed, 0);
    assert_eq!(st.timer.start_wall, 77);
    assert!(st.timer.running);
}

#[test]
fn reset_clears_everything() {
    let mut st = AppState::new();
    st.step(Command::Start("goal".to_string()), 0, 0);
    st.step(Command::OpenSplit("a".to_string()), 100, 0);
    let eff = st.step(Command::Reset, 200, 0);
    assert_eq!(eff, Effect::Redraw);
    assert!(st.timer.goal.is_none());
    assert!(!st.timer.running);
    assert_eq!(st.timer.elapsed, 0);
    assert_eq!(st.tree.splits.len(), 0);
}

#[test]
fn tick_redraws_only_while_running() {
    let mut st = AppState::new();
    assert_eq!(st.step(Command::Tick, 5, 0), Effect::Quiet);
    st.step(Command::Start("goal".to_string()), 10, 0);
    assert_eq!(st.step(Command::Tick, 20, 0), Effect::RedrawLive);
    st.step(Command::Pause, 30, 0);
    assert_eq!(st.step(Command::Tick, 40, 0), Effect::Quiet);
}

#[test]
fn save_log_only_when_paused_with_a_goal() {
    let mut st = AppState::new();
    assert_eq!(st.step(Command::SaveLog, 0, 0), Effect::Quiet);
    st.step(Command::Start("goal".to_string()), 0, 0);
    assert_eq!(st.step(Command::SaveLog, 1, 0), Effect::Quiet);
    st.step(Command::Pause, 2, 0);
    assert_eq!(st.step(Command::SaveLog, 3, 0), Effect::Persist);
}

#[test]
fn key_dispatch_table() {
    let mut st = AppState::new();
    assert_eq!(st.key_action('s'), KeyAction::PromptGoal);
    assert_eq!(st.key_action('g'), KeyAction::Ignore);
    assert_eq!(st.key_action('n'), KeyAction::Ignore);
    assert_eq!(st.key_action('t'), KeyAction::SaveLog);
    assert_eq!(st.key_action('q'), KeyAction::Quit);
    assert_eq!(st.key_action('x'), KeyAction::Ignore);
    st.step(Command::Start("goal".to_string()), 0, 0);
    assert_eq!(st.key_action('s'), KeyAction::Pause);
    assert_eq!(st.key_action('g'), KeyAction::PromptSplit);
    // a nested open still needs an active split
    assert_eq!(st.key_action('n'), KeyAction::Ignore);
    assert_eq!(st.key_action('t'), KeyAction::Ignore);
    st.step(Command::OpenSplit("a".to_string()), 1, 0);
    assert_eq!(st.key_action('n'), KeyAction::PromptNested);
    assert_eq!(st.key_action('h'), KeyAction::CloseActive);
    assert_eq!(st.key_action('u'), KeyAction::Ascend);
    assert_eq!(st.key_action('d'), KeyAction::Redraw);
    assert_eq!(st.key_action('c'), KeyAction::Resume);
    assert_eq!(st.key_action('r'), KeyAction::Reset);
}
