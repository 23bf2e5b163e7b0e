use vstd::prelude::*;

use crate::session::{lemma_total_monotonic, SessionTimer};
use crate::splits::{Split, SplitTree, MAX_SPLITS};

verus! {

/// A command with its text already gathered: the key dispatch below first
/// asks for a prompt where one is needed, and the resolved command then
/// reaches `step`.
pub enum Command {
    /// Begin a fresh session under this goal.
    Start(String),
    /// Pause the session timer.
    Pause,
    /// Resume a paused session timer.
    Resume,
    /// Clear goal, elapsed time and splits.
    Reset,
    /// Open a split under the active one (top-level when none is active).
    OpenSplit(String),
    /// Open a split strictly nested under the active one.
    OpenNested(String),
    /// Close the active split and focus its parent.
    CloseActive,
    /// Focus the active split's parent without closing anything.
    Ascend,
    /// Ask for a full repaint.
    Redraw,
    /// Append the finished session to the log.
    SaveLog,
    /// Leave the program.
    Quit,
    /// A periodic clock tick.
    Tick,
}

/// What the surrounding program should do after a command: the state
/// machine itself performs no I/O.
#[derive(Clone, Copy, PartialEq, Eq, Structural, Debug)]
pub enum Effect {
    /// Nothing to do.
    Quiet,
    /// Repaint the whole screen.
    Redraw,
    /// Repaint only the live (running) lines.
    RedrawLive,
    /// Append the session to the log.
    Persist,
    /// Exit the event loop.
    Terminate,
}

/// What a key asks for, before any text has been gathered.
#[derive(Clone, Copy, PartialEq, Eq, Structural, Debug)]
pub enum KeyAction {
    /// Prompt for a goal, then `Command::Start`.
    PromptGoal,
    /// Prompt for a split name, then `Command::OpenSplit`.
    PromptSplit,
    /// Prompt for a split name, then `Command::OpenNested`.
    PromptNested,
    /// `Command::Pause`.
    Pause,
    /// `Command::Resume`.
    Resume,
    /// `Command::Reset`.
    Reset,
    /// `Command::CloseActive`.
    CloseActive,
    /// `Command::Ascend`.
    Ascend,
    /// `Command::Redraw`.
    Redraw,
    /// `Command::SaveLog`.
    SaveLog,
    /// `Command::Quit`.
    Quit,
    /// The key does nothing in the current state.
    Ignore,
}

/// The whole state machine: the session timer and the split tree, which
/// only ever change together, on one logical thread, through `step`.
pub struct AppState {
    /// The overall stopwatch.
    pub timer: SessionTimer,
    /// The forest of splits.
    pub tree: SplitTree,
    /// The last monotonic reading handed to `step`; readings never go back.
    pub last_now: Ghost<u64>,
}

impl AppState {
    /// The combined invariant: the tree is well-formed and has never been
    /// stamped past the session's elapsed total.
    pub open spec fn wf(self) -> bool {
        &&& self.tree.wf()
        &&& self.tree.stamp@ <= self.timer.total_at(self.last_now@ as int)
    }

    /// A fresh, idle state.
    pub fn new() -> (s: Self)
        ensures
            s.wf(),
            s.timer == (SessionTimer {
                goal: None,
                running: false,
                elapsed: 0,
                segment_start: 0,
                start_wall: 0,
            }),
            s.tree.splits@.len() == 0,
            s.tree.active is None,
            s.last_now@ == 0,
    {
        AppState { timer: SessionTimer::new(), tree: SplitTree::new(), last_now: Ghost(0) }
    }

    /// The dispatch table of the keyboard surface: which action each key
    /// asks for in the current state. Keys whose guard fails, and keys
    /// outside the table, are ignored rather than erroring.
    pub fn key_action(&self, key: char) -> (a: KeyAction)
        ensures
            a == spec_key_action(*self, key),
    {
        if key == 's' {
            if self.timer.running {
                KeyAction::Pause
            } else {
                KeyAction::PromptGoal
            }
        } else if key == 'c' {
            KeyAction::Resume
        } else if key == 'r' {
            KeyAction::Reset
        } else if key == 'g' {
            if self.timer.running && self.tree.splits.len() < MAX_SPLITS {
                KeyAction::PromptSplit
            } else {
                KeyAction::Ignore
            }
        } else if key == 'n' {
            if self.timer.running && self.tree.active.is_some() && self.tree.splits.len()
                < MAX_SPLITS {
                KeyAction::PromptNested
            } else {
                KeyAction::Ignore
            }
        } else if key == 'h' {
            KeyAction::CloseActive
        } else if key == 'u' {
            KeyAction::Ascend
        } else if key == 'd' {
            KeyAction::Redraw
        } else if key == 't' {
            if !self.timer.running {
                KeyAction::SaveLog
            } else {
                KeyAction::Ignore
            }
        } else if key == 'q' {
            KeyAction::Quit
        } else {
            KeyAction::Ignore
        }
    }

    /// Apply one command at monotonic reading `now` and wall stamp `wall`.
    /// Pure state transition: the returned effect tells the caller what
    /// outside work (if any) to do. Commands whose guard fails leave the
    /// state unchanged.
    pub fn step(&mut self, cmd: Command, now: u64, wall: u64) -> (eff: Effect)
        requires
            old(self).wf(),
            now >= old(self).last_now@,
        ensures
            final(self).wf(),
            final(self).last_now@ == now,
            match cmd {
                Command::Tick => {
                    &&& final(self).timer == old(self).timer
                    &&& final(self).tree.splits@ == old(self).tree.splits@
                    &&& final(self).tree.active == old(self).tree.active
                    &&& eff == (if old(self).timer.running {
                        Effect::RedrawLive
                    } else {
                        Effect::Quiet
                    })
                },
                Command::Start(goal) => {
                    &&& final(self).timer == (SessionTimer {
                        goal: Some(goal),
                        running: true,
                        elapsed: 0,
                        segment_start: now,
                        start_wall: wall,
                    })
                    &&& final(self).tree.splits@.len() == 0
                    &&& final(self).tree.active is None
                    &&& eff == Effect::Redraw
                },
                Command::Pause => {
                    &&& !final(self).timer.running
                    &&& final(self).timer.goal == old(self).timer.goal
                    &&& final(self).timer.total_at(now as int) == old(self).timer.total_at(
                        now as int,
                    )
                    &&& old(self).timer.running ==> final(self).timer.elapsed == old(self).timer.total_at(now as int)
                    &&& !old(self).timer.running ==> final(self).timer == old(self).timer
                    &&& final(self).tree.splits@ == old(self).tree.splits@
                    &&& final(self).tree.active == old(self).tree.active
                    &&& eff == Effect::Redraw
                },
                Command::Resume => {
                    &&& final(self).timer.running
                    &&& final(self).timer.goal == old(self).timer.goal
                    &&& final(self).timer.elapsed == old(self).timer.elapsed
                    &&& final(self).timer.total_at(now as int) == old(self).timer.total_at(
                        now as int,
                    )
                    &&& old(self).timer.running ==> final(self).timer == old(self).timer
                    &&& final(self).tree.splits@ == old(self).tree.splits@
                    &&& final(self).tree.active == old(self).tree.active
                    &&& eff == Effect::Quiet
                },
                Command::Reset => {
                    &&& final(self).timer == (SessionTimer {
                        goal: None,
                        running: false,
                        elapsed: 0,
                        segment_start: 0,
                        start_wall: 0,
                    })
                    &&& final(self).tree.splits@.len() == 0
                    &&& final(self).tree.active is None
                    &&& eff == Effect::Redraw
                },
                Command::OpenSplit(name) => {
                    &&& final(self).timer == old(self).timer
                    &&& !old(self).timer.running ==> final(self).tree.splits@ == old(self).tree.splits@ && final(self).tree.active == old(self).tree.active && eff
                        == Effect::Quiet
                    &&& (old(self).timer.running && old(self).tree.splits@.len() < MAX_SPLITS)
                        ==> final(self).tree.splits@ == old(self).tree.splits@.push(
                        (Split {
                            name: name,
                            start_offset: old(self).timer.total_at(now as int) as u64,
                            end_offset: None,
                            start_wall: wall,
                            end_wall: None,
                            parent: old(self).tree.active,
                            level: old(self).tree.next_level() as usize,
                        }),
                    ) && final(self).tree.active == Some(old(self).tree.splits@.len() as usize)
                        && eff == Effect::Redraw
                    &&& (old(self).timer.running && old(self).tree.splits@.len() >= MAX_SPLITS)
                        ==> final(self).tree.splits@ == old(self).tree.splits@ && final(self).tree.active == old(self).tree.active && eff == Effect::Quiet
                },
                Command::OpenNested(name) => {
                    &&& final(self).timer == old(self).timer
                    &&& !(old(self).timer.running && old(self).tree.active is Some) ==> final(self).tree.splits@ == old(self).tree.splits@ && final(self).tree.active == old(self).tree.active && eff == Effect::Quiet
                    &&& (old(self).timer.running && old(self).tree.active is Some && old(self).tree.splits@.len() < MAX_SPLITS) ==> final(self).tree.splits@ == old(self).tree.splits@.push(
                        (Split {
                            name: name,
                            start_offset: old(self).timer.total_at(now as int) as u64,
                            end_offset: None,
                            start_wall: wall,
                            end_wall: None,
                            parent: old(self).tree.active,
                            level: old(self).tree.next_level() as usize,
                        }),
                    ) && final(self).tree.active == Some(old(self).tree.splits@.len() as usize)
                        && eff == Effect::Redraw
                    &&& (old(self).timer.running && old(self).tree.active is Some && old(self).tree.splits@.len() >= MAX_SPLITS) ==> final(self).tree.splits@ == old(self).tree.splits@ && final(self).tree.active == old(self).tree.active && eff
                        == Effect::Quiet
                },
                Command::CloseActive => {
                    &&& final(self).timer == old(self).timer
                    &&& old(self).tree.active is None ==> final(self).tree.splits@ == old(self).tree.splits@ && final(self).tree.active is None && eff == Effect::Quiet
                    &&& old(self).tree.active matches Some(a) ==> final(self).tree.splits@ == old(self).tree.splits@.update(
                        a as int,
                        (Split {
                            end_offset: Some(old(self).timer.total_at(now as int) as u64),
                            end_wall: Some(wall),
                            ..old(self).tree.splits@[a as int]
                        }),
                    ) && final(self).tree.active == old(self).tree.splits@[a as int].parent && eff
                        == Effect::Redraw
                },
                Command::Ascend => {
                    &&& final(self).timer == old(self).timer
                    &&& final(self).tree.splits@ == old(self).tree.splits@
                    &&& old(self).tree.active is None ==> final(self).tree.active is None && eff
                        == Effect::Quiet
                    &&& old(self).tree.active matches Some(a) ==> final(self).tree.active == old(self).tree.splits@[a as int].parent && eff == Effect::Redraw
                },
                Command::Redraw => {
                    &&& final(self).timer == old(self).timer
                    &&& final(self).tree.splits@ == old(self).tree.splits@
                    &&& final(self).tree.active == old(self).tree.active
                    &&& eff == Effect::Redraw
                },
                Command::SaveLog => {
                    &&& final(self).timer == old(self).timer
                    &&& final(self).tree.splits@ == old(self).tree.splits@
                    &&& final(self).tree.active == old(self).tree.active
                    &&& eff == (if !old(self).timer.running && old(self).timer.goal is Some {
                        Effect::Persist
                    } else {
                        Effect::Quiet
                    })
                },
                Command::Quit => {
                    &&& final(self).timer == old(self).timer
                    &&& final(self).tree.splits@ == old(self).tree.splits@
                    &&& final(self).tree.active == old(self).tree.active
                    &&& eff == Effect::Terminate
                },
            },
    {
        proof {
            lemma_total_monotonic(self.timer, self.last_now@ as int, now as int);
        }
        let eff: Effect = match cmd {
            Command::Tick => {
                if self.timer.running {
                    Effect::RedrawLive
                } else {
                    Effect::Quiet
                }
            },
            Command::Start(goal) => {
                self.tree.clear();
                self.timer.start(goal, now, wall);
                Effect::Redraw
            },
            Command::Pause => {
                self.timer.stop(now);
                Effect::Redraw
            },
            Command::Resume => {
                self.timer.resume(now);
                Effect::Quiet
            },
            Command::Reset => {
                self.timer.reset();
                self.tree.clear();
                Effect::Redraw
            },
            Command::OpenSplit(name) => {
                if self.timer.running {
                    let total: u64 = self.timer.total_elapsed(now);
                    match self.tree.open_split(name, total, wall) {
                        Ok(_) => Effect::Redraw,
                        Err(_) => Effect::Quiet,
                    }
                } else {
                    Effect::Quiet
                }
            },
            Command::OpenNested(name) => {
                if self.timer.running {
                    let total: u64 = self.timer.total_elapsed(now);
                    match self.tree.open_nested(name, total, wall) {
                        Ok(_) => Effect::Redraw,
                        Err(_) => Effect::Quiet,
                    }
                } else {
                    Effect::Quiet
                }
            },
            Command::CloseActive => {
                let total: u64 = self.timer.total_elapsed(now);
                match self.tree.close_active(total, wall) {
                    Some(_) => Effect::Redraw,
                    None => Effect::Quiet,
                }
            },
            Command::Ascend => {
                match self.tree.ascend() {
                    Some(_) => Effect::Redraw,
                    None => Effect::Quiet,
                }
            },
            Command::Redraw => Effect::Redraw,
            Command::SaveLog => {
                if !self.timer.running && self.timer.goal.is_some() {
                    Effect::Persist
                } else {
                    Effect::Quiet
                }
            },
            Command::Quit => Effect::Terminate,
        };
        self.last_now = Ghost(now);
        eff
    }
}

/// The keyboard dispatch table as a predicate, for reasoning about
/// `key_action` from outside.
pub open spec fn spec_key_action(s: AppState, key: char) -> KeyAction {
    if key == 's' {
        if s.timer.running {
            KeyAction::Pause
        } else {
            KeyAction::PromptGoal
        }
    } else if key == 'c' {
        KeyAction::Resume
    } else if key == 'r' {
        KeyAction::Reset
    } else if key == 'g' {
        if s.timer.running && s.tree.splits@.len() < MAX_SPLITS {
            KeyAction::PromptSplit
        } else {
            KeyAction::Ignore
        }
    } else if key == 'n' {
        if s.timer.running && s.tree.active is Some && s.tree.splits@.len() < MAX_SPLITS {
            KeyAction::PromptNested
        } else {
            KeyAction::Ignore
        }
    } else if key == 'h' {
        KeyAction::CloseActive
    } else if key == 'u' {
        KeyAction::Ascend
    } else if key == 'd' {
        KeyAction::Redraw
    } else if key == 't' {
        if !s.timer.running {
            KeyAction::SaveLog
        } else {
            KeyAction::Ignore
        }
    } else if key == 'q' {
        KeyAction::Quit
    } else {
        KeyAction::Ignore
    }
}

} // verus!
