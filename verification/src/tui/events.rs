//! What a key does to the front-end.

use crate::tui::app::{App, AppView};
use vstd::prelude::*;

verus! {

/// The keys that the front-end tells apart.
#[derive(Debug, PartialEq, Eq, Structural, Clone, Copy)]
pub enum KeyCode {
    Char(char),
    Tab,
    BackTab,
    Up,
    Down,
    Right,
    Enter,
    Backspace,
    Esc,
    /// Any other key.
    Other,
}

/// A key as it was pressed: with or without Control, with or without Shift.
#[derive(Debug, PartialEq, Eq, Structural, Clone, Copy)]
pub struct KeyPress {
    pub code: KeyCode,
    pub control: bool,
    pub shift: bool,
}

/// What the caller is to do once a key has been handled.
#[derive(Debug, PartialEq, Eq, Structural, Clone, Copy)]
pub enum Response {
    /// Nothing.
    Idle,
    /// Complete the path in the field that is being edited.
    Complete,
    /// Ask for a run.
    Execute,
}

impl AppView {
    /// The state once a key is taken in.
    pub open spec fn after_key(self, key: KeyPress) -> AppView {
        if self.is_complete {
            AppView { is_processing: false, is_complete: false, message: Seq::empty(), ..self }
        } else {
            match key.code {
                KeyCode::Char(c) => if key.control && c == 'c' {
                    AppView { running: false, ..self }
                } else if key.control && c == 'e' {
                    self
                } else {
                    self.input(c)
                },
                KeyCode::BackTab => self.next_tab(),
                KeyCode::Up => self.prev_field(),
                KeyCode::Down => self.next_field(),
                KeyCode::Enter => if key.shift {
                    self
                } else {
                    self.next_field()
                },
                KeyCode::Backspace => self.backspace(),
                KeyCode::Esc => AppView { running: false, ..self },
                KeyCode::Tab | KeyCode::Right | KeyCode::Other => self,
            }
        }
    }

    /// What the caller is to do once a key has been taken in.
    pub open spec fn response_to(self, key: KeyPress) -> Response {
        if self.is_complete {
            Response::Idle
        } else {
            match key.code {
                KeyCode::Char(c) => if key.control && (c == 'c' || c == 'e') {
                    Response::Execute
                } else {
                    Response::Idle
                },
                KeyCode::Enter => if key.shift {
                    Response::Execute
                } else {
                    Response::Idle
                },
                KeyCode::Tab | KeyCode::Right => Response::Complete,
                _ => Response::Idle,
            }
        }
    }
}

/// Takes in what the keyboard gave in this round: a key, or nothing.
///
/// After a run has completed, any key only closes its report. Otherwise
/// Control+C stops the front-end and, like Control+E and Shift+Enter, asks for
/// a run; Tab and Right ask for a completion; Shift+Tab goes to the next tab;
/// Up, Down and Enter move between the fields; Escape stops the front-end;
/// Backspace and any other character edit the field.
pub fn handle_events(app: &mut App, key: Option<KeyPress>) -> (response: Response)
    ensures
        key matches Some(k) ==> final(app)@ == old(app)@.after_key(k) && response == old(
            app,
        )@.response_to(k),
        key is None ==> final(app)@ == old(app)@ && response == Response::Idle,
{
    let key = match key {
        Some(key) => key,
        None => {
            return Response::Idle;
        },
    };
    if app.is_complete {
        app.is_processing = false;
        app.is_complete = false;
        app.message = String::new();
        return Response::Idle;
    }
    match key.code {
        KeyCode::Char(c) => {
            if key.control && c == 'c' {
                app.running = false;
                Response::Execute
            } else if key.control && c == 'e' {
                Response::Execute
            } else {
                app.input(c);
                Response::Idle
            }
        },
        KeyCode::Tab => Response::Complete,
        KeyCode::BackTab => {
            app.next_tab();
            Response::Idle
        },
        KeyCode::Up => {
            app.prev_field();
            Response::Idle
        },
        KeyCode::Down => {
            app.next_field();
            Response::Idle
        },
        KeyCode::Right => Response::Complete,
        KeyCode::Enter => {
            if key.shift {
                Response::Execute
            } else {
                app.next_field();
                Response::Idle
            }
        },
        KeyCode::Backspace => {
            app.backspace();
            Response::Idle
        },
        KeyCode::Esc => {
            app.running = false;
            Response::Idle
        },
        KeyCode::Other => Response::Idle,
    }
}

} // verus!
