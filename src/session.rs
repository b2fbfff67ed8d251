use vstd::prelude::*;
use crate::events::{Action, Event, action_for, action_of, main_label, MAIN_WINDOW};
use crate::text::same_text;

verus! {

/// How the main window stands on screen.
#[derive(Clone, Copy, Debug, PartialEq, Eq, Structural)]
pub enum WindowState {
    Visible,
    Hidden,
    Minimized,
}

/// The main window as the shell last left it.
#[derive(Clone, Copy, Debug, PartialEq, Eq, Structural)]
pub struct MainWindow {
    pub state: WindowState,
    pub focused: bool,
}

/// The shell's model of the running application: the main window, if one
/// was created, and the exit code once the process has been told to end.
#[derive(Clone, Copy, Debug, PartialEq, Eq, Structural)]
pub struct Session {
    pub main: Option<MainWindow>,
    pub exit_code: Option<i32>,
}

impl Session {
    /// The process has been told to end.
    pub open spec fn terminated(self) -> bool {
        self.exit_code is Some
    }
}

/// The main window shown, restored from the minimized state and focused.
pub open spec fn revealed() -> MainWindow {
    MainWindow { state: WindowState::Visible, focused: true }
}

/// The main window hidden; a hidden window holds no focus.
pub open spec fn hidden() -> MainWindow {
    MainWindow { state: WindowState::Hidden, focused: false }
}

/// The session after the show sequence: an absent main window stays absent.
pub open spec fn shown(s: Session) -> Session {
    Session {
        main: match s.main {
            Some(w) => Some(revealed()),
            None => None,
        },
        exit_code: s.exit_code,
    }
}

/// The session after the window labelled `label` was hidden in place of
/// being closed. Only the main window is modelled.
pub open spec fn closed(s: Session, label: Seq<char>) -> Session {
    if label == main_label() {
        Session {
            main: match s.main {
                Some(w) => Some(hidden()),
                None => None,
            },
            exit_code: s.exit_code,
        }
    } else {
        s
    }
}

/// The session after `ev` was handled.
pub open spec fn next(s: Session, ev: Event) -> Session {
    match action_of(ev) {
        Action::Nothing => s,
        Action::RevealMain => shown(s),
        Action::HideWindow => match ev {
            Event::CloseRequested { label } => closed(s, label@),
            _ => s,
        },
        Action::Exit { code } => Session { main: s.main, exit_code: Some(code) },
    }
}

/// The session after each of `evs` was handled in turn.
pub open spec fn run(s: Session, evs: Seq<Event>) -> Session
    decreases evs.len(),
{
    if evs.len() == 0 {
        s
    } else {
        next(run(s, evs.drop_last()), evs.last())
    }
}

impl Session {
    /// A session whose main window exists and is visible, or does not exist.
    pub fn new(has_main: bool) -> (s: Session)
        ensures
            s.main == (if has_main {
                Some(MainWindow { state: WindowState::Visible, focused: false })
            } else {
                None
            }),
            !s.terminated(),
    {
        Session {
            main: if has_main {
                Some(MainWindow { state: WindowState::Visible, focused: false })
            } else {
                None
            },
            exit_code: None,
        }
    }

    /// Handles one event: returns what the host framework must do, and
    /// brings the model to the state that follows.
    pub fn step(&mut self, ev: &Event) -> (a: Action)
        ensures
            a == action_of(*ev),
            *final(self) == next(*old(self), *ev),
    {
        let a = action_for(ev);
        match a {
            Action::Nothing => {},
            Action::RevealMain => {
                if self.main.is_some() {
                    self.main = Some(MainWindow { state: WindowState::Visible, focused: true });
                }
            },
            Action::HideWindow => {
                match ev {
                    Event::CloseRequested { label } => {
                        proof {
                            reveal_strlit("main");
                            assert(MAIN_WINDOW@ =~= main_label());
                        }
                        if same_text(label.as_str(), MAIN_WINDOW) && self.main.is_some() {
                            self.main = Some(MainWindow { state: WindowState::Hidden, focused: false });
                        }
                    },
                    _ => {},
                }
            },
            Action::Exit { code } => {
                self.exit_code = Some(code);
            },
        }
        a
    }
}

} // verus!
