//! The running state of the desktop's operation screens (backup, verify,
//! restore, prune and the integrity check): at most one run at a time, the
//! progress bar fed by the engine's reports, and how a run ends or is
//! cancelled.

use vstd::prelude::*;
use crate::operation_outcomes::{cancel_message, RunKind};

verus! {

/// What an operation screen keeps about its run. The progress bar stands at
/// `done / total` (`total` is never 0).
pub struct ScreenRun {
    pub running: bool,
    pub done: u64,
    pub total: u64,
    pub status: String,
}

/// The values of a screen's run state.
pub struct RunView {
    pub running: bool,
    pub done: u64,
    pub total: u64,
    pub status: Seq<char>,
}

impl View for ScreenRun {
    type V = RunView;

    open spec fn view(&self) -> RunView {
        RunView { running: self.running, done: self.done, total: self.total, status: self.status@ }
    }
}

/// A start pressed on the screen in state `s`: the state after it, and
/// whether a run is launched. Nothing changes and nothing is launched while
/// a run is under way; else the run starts from an empty bar showing
/// `starting`.
pub open spec fn started(s: RunView, starting: Seq<char>) -> (RunView, bool) {
    if s.running {
        (s, false)
    } else {
        (RunView { running: true, done: 0, total: 1, status: starting }, true)
    }
}

/// What the screen asks of its caller when a run may start: a fresh
/// cancellation token, no last report, and the run started in the background.
#[derive(PartialEq, Eq, Structural, Debug, Clone, Copy)]
pub enum StartAction {
    Launch,
}

/// The status shown while the integrity check starts.
pub open spec fn checking_text() -> Seq<char> {
    "🔍 Checking backup structure..."@
}

/// The status shown when the integrity check is asked for without a folder.
pub open spec fn select_folder_text() -> Seq<char> {
    "❌ Select a backup folder"@
}

impl ScreenRun {
    /// A screen that has run nothing yet and shows `ready`.
    pub fn idle(ready: &str) -> (r: ScreenRun)
        ensures
            !r.running,
            r.done == 0,
            r.total == 1,
            r.status@ == ready@,
    {
        ScreenRun { running: false, done: 0, total: 1, status: ready.to_string() }
    }

    /// The same state, copied.
    fn same(&self) -> (r: ScreenRun)
        ensures
            r.running == self.running,
            r.done == self.done,
            r.total == self.total,
            r.status@ == self.status@,
    {
        ScreenRun {
            running: self.running,
            done: self.done,
            total: self.total,
            status: self.status.clone(),
        }
    }

    /// The start button of a backup, verify, restore or prune screen was
    /// pressed: while a run is under way nothing changes and nothing starts;
    /// else the run starts from an empty progress bar, showing `starting`.
    pub fn on_start(&self, starting: &str) -> (r: (ScreenRun, Option<StartAction>))
        ensures
            r.0@ == started(self@, starting@).0,
            r.1 == (if started(self@, starting@).1 {
                Some(StartAction::Launch)
            } else {
                None
            }),
    {
        if self.running {
            (self.same(), None)
        } else {
            (
                ScreenRun { running: true, done: 0, total: 1, status: starting.to_string() },
                Some(StartAction::Launch),
            )
        }
    }

    /// The check button of the integrity screen was pressed for the folder
    /// `path`: while a check is under way nothing changes; without a folder
    /// the screen asks for one and nothing starts; else the check starts.
    pub fn on_integrity_start(&self, path: &str) -> (r: (ScreenRun, Option<StartAction>))
        ensures
            self.running ==> {
                &&& r.0.running == self.running
                &&& r.0.done == self.done
                &&& r.0.total == self.total
                &&& r.0.status@ == self.status@
                &&& r.1 is None
            },
            !self.running && path@.len() == 0 ==> {
                &&& !r.0.running
                &&& r.0.done == self.done
                &&& r.0.total == self.total
                &&& r.0.status@ == select_folder_text()
                &&& r.1 is None
            },
            !self.running && path@.len() > 0 ==> {
                &&& r.0.running
                &&& r.0.done == 0
                &&& r.0.total == 1
                &&& r.0.status@ == checking_text()
                &&& r.1 == Some(StartAction::Launch)
            },
    {
        if self.running {
            (self.same(), None)
        } else if path.unicode_len() == 0 {
            (
                ScreenRun {
                    running: false,
                    done: self.done,
                    total: self.total,
                    status: "❌ Select a backup folder".to_string(),
                },
                None,
            )
        } else {
            (
                ScreenRun {
                    running: true,
                    done: 0,
                    total: 1,
                    status: "🔍 Checking backup structure...".to_string(),
                },
                Some(StartAction::Launch),
            )
        }
    }

    /// The engine reported `current` of `total` units done, with `message`.
    /// The status becomes the message. The backup screen moves its bar only
    /// when `total` is not 0; the restore screen counts a `total` of 0 as 1;
    /// the verify screen empties its bar when `total` is 0.
    pub fn on_progress(&mut self, kind: RunKind, current: u64, total: u64, message: String)
        requires
            kind != RunKind::Prune,
        ensures
            final(self).running == old(self).running,
            final(self).status@ == message@,
            total > 0 ==> final(self).done == current && final(self).total == total,
            total == 0 && kind == RunKind::Backup ==> final(self).done == old(self).done
                && final(self).total == old(self).total,
            total == 0 && kind == RunKind::Restore ==> final(self).done == current
                && final(self).total == 1,
            total == 0 && kind == RunKind::Verify ==> final(self).done == 0 && final(self).total
                == 1,
    {
        if total > 0 {
            self.done = current;
            self.total = total;
        } else {
            match kind {
                RunKind::Backup => {},
                RunKind::Restore => {
                    self.done = current;
                    self.total = 1;
                },
                _ => {
                    self.done = 0;
                    self.total = 1;
                },
            }
        }
        self.status = message;
    }

    /// The run ended and the screen shows `status`; a run that `completed`
    /// fills the bar.
    pub fn on_finish(&mut self, completed: bool, status: String)
        ensures
            !final(self).running,
            final(self).status@ == status@,
            completed ==> final(self).done == 1 && final(self).total == 1,
            !completed ==> final(self).done == old(self).done && final(self).total == old(
                self,
            ).total,
    {
        self.running = false;
        self.status = status;
        if completed {
            self.done = 1;
            self.total = 1;
        }
    }

    /// The user cancelled the run: it stops, the bar stays, and the screen
    /// says that it was cancelled (a prune cannot be cancelled).
    pub fn on_cancel(&mut self, kind: RunKind)
        requires
            kind != RunKind::Prune,
        ensures
            !final(self).running,
            final(self).done == old(self).done,
            final(self).total == old(self).total,
            final(self).status@ == cancel_message_text(kind),
    {
        self.running = false;
        self.status = cancel_message(kind);
    }

    /// Whether the restore and verify screens show their progress bar: while
    /// a run is under way, or once some progress was made.
    pub fn shows_progress(&self) -> (r: bool)
        ensures
            r == (self.running || self.done > 0),
    {
        self.running || self.done > 0
    }
}

/// The status of a cancelled run.
pub open spec fn cancel_message_text(kind: RunKind) -> Seq<char> {
    if kind == RunKind::Backup {
        "⏹️ Backup canceled by user"@
    } else if kind == RunKind::Verify {
        "⏹️ Verificação cancelada pelo usuário"@
    } else {
        "⏹️  Restore canceled by user"@
    }
}

/// At most one run at a time: once a start has been pressed, a second start
/// launches nothing and leaves the screen as the first left it.
pub proof fn law_one_run_at_a_time(s: RunView, first: Seq<char>, second: Seq<char>)
    ensures
        !started(started(s, first).0, second).1,
        started(started(s, first).0, second).0 == started(s, first).0,
{
}

} // verus!
