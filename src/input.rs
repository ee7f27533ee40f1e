//! The key-driven session: what each key does to the session, and what the
//! outer loop must do next.
use vstd::prelude::*;
use vstd::string::StringExecFns;
use crate::catalog::CreateError;
use crate::render::selected_project;
use crate::session::{after_filter, after_move, SessionState, SessionView};
use crate::text::{pop_char, push_char, trim, trim_spec};

verus! {

/// Curses code of the down arrow.
pub const KEY_DOWN: i32 = 258;

/// Curses code of the up arrow.
pub const KEY_UP: i32 = 259;

/// Curses code of the backspace key.
pub const KEY_BACKSPACE: i32 = 263;

/// Curses code of the keypad's enter key.
pub const KEY_ENTER: i32 = 343;

/// Code of the delete character, sent by many terminals for backspace.
pub const DEL: i32 = 127;

/// Code of a line feed, sent by the return key.
pub const LINE_FEED: i32 = 10;

/// Code of the escape key.
pub const ESCAPE: i32 = 27;

/// Code of `Q`, the quit key.
pub const QUIT_CODE: i32 = 81;

/// Code of `N`, the new-project key.
pub const NEW_PROJECT_CODE: i32 = 78;

/// One input event of the browsing loop.
#[derive(Clone, Copy, Debug, PartialEq, Eq, Structural)]
pub enum Key {
    Quit,
    /// A printable character, added to the filter.
    Char(char),
    Backspace,
    Up,
    Down,
    Confirm,
    NewProject,
    Other,
}

/// What the outer loop does after a key.
#[derive(Clone, Debug, PartialEq, Eq)]
pub enum Action {
    /// Draw the screen again and wait for the next key.
    Redraw,
    /// Leave the loop.
    Exit,
    /// Hand the terminal to a shell in this directory.
    OpenShell(String),
    /// Ask for the name of a new project.
    PromptNewName,
}

/// A transient status message.
#[derive(Clone, Copy, Debug, PartialEq, Eq, Structural)]
pub enum Flash {
    OpenFailed,
    EmptyName,
    Created,
    CreateFailed,
}

/// What one key does while a line of text is being collected.
#[derive(Clone, Copy, Debug, PartialEq, Eq, Structural)]
pub enum PromptStep {
    Editing,
    Submit,
    Cancel,
}

/// Whether `code` is a printable ASCII character.
pub open spec fn printable(code: i32) -> bool {
    32 <= code <= 126
}

/// The event that a curses key code stands for while browsing.
pub open spec fn key_spec(code: i32) -> Key {
    if code == QUIT_CODE {
        Key::Quit
    } else if code == DEL || code == KEY_BACKSPACE {
        Key::Backspace
    } else if code == KEY_UP {
        Key::Up
    } else if code == KEY_DOWN {
        Key::Down
    } else if code == LINE_FEED || code == KEY_ENTER {
        Key::Confirm
    } else if code == NEW_PROJECT_CODE {
        Key::NewProject
    } else if printable(code) {
        Key::Char(code as u8 as char)
    } else {
        Key::Other
    }
}

/// The event that a curses key code stands for while browsing.
pub fn decode_key(code: i32) -> (r: Key)
    ensures
        r == key_spec(code),
{
    if code == QUIT_CODE {
        Key::Quit
    } else if code == DEL || code == KEY_BACKSPACE {
        Key::Backspace
    } else if code == KEY_UP {
        Key::Up
    } else if code == KEY_DOWN {
        Key::Down
    } else if code == LINE_FEED || code == KEY_ENTER {
        Key::Confirm
    } else if code == NEW_PROJECT_CODE {
        Key::NewProject
    } else if 32 <= code && code <= 126 {
        Key::Char(code as u8 as char)
    } else {
        Key::Other
    }
}

/// The filter text after a backspace: its last character removed, if any.
pub open spec fn without_last(t: Seq<char>) -> Seq<char> {
    if t.len() > 0 {
        t.drop_last()
    } else {
        t
    }
}

/// The session after `key`.
pub open spec fn next_state(s: SessionView, key: Key) -> SessionView {
    match key {
        Key::Char(c) => after_filter(s, s.filter_text.push(c)),
        Key::Backspace => after_filter(s, without_last(s.filter_text)),
        Key::Up => after_move(s, -1),
        Key::Down => after_move(s, 1),
        _ => s,
    }
}

/// What the loop does after `key` in session `s`.
pub open spec fn next_action(s: SessionView, key: Key, a: Action) -> bool {
    match key {
        Key::Quit => a == Action::Exit,
        Key::Confirm => if s.visible.len() == 0 {
            a == Action::Redraw
        } else {
            a is OpenShell && a->OpenShell_0@ == selected_project(s).path
        },
        Key::NewProject => a == Action::PromptNewName,
        _ => a == Action::Redraw,
    }
}

impl SessionState {
    /// Applies one browsing event and says what the loop does next.
    pub fn handle_key(&mut self, key: Key) -> (r: Action)
        requires
            old(self).wf(),
        ensures
            final(self).wf(),
            final(self)@ == next_state(old(self)@, key),
            next_action(old(self)@, key, r),
    {
        match key {
            Key::Quit => Action::Exit,
            Key::Char(c) => {
                self.push_filter_char(c);
                Action::Redraw
            },
            Key::Backspace => {
                self.pop_filter_char();
                Action::Redraw
            },
            Key::Up => {
                self.move_cursor(-1);
                Action::Redraw
            },
            Key::Down => {
                self.move_cursor(1);
                Action::Redraw
            },
            Key::Confirm => {
                match self.current_selection() {
                    Some(p) => Action::OpenShell(p.path.clone()),
                    None => Action::Redraw,
                }
            },
            Key::NewProject => Action::PromptNewName,
            Key::Other => Action::Redraw,
        }
    }
}

/// The buffer after a prompt key, and what the key does.
pub open spec fn prompt_spec(buf: Seq<char>, code: i32) -> (Seq<char>, PromptStep) {
    if code == LINE_FEED {
        (buf, PromptStep::Submit)
    } else if code == ESCAPE {
        (Seq::empty(), PromptStep::Cancel)
    } else if code == DEL || code == KEY_BACKSPACE {
        (without_last(buf), PromptStep::Editing)
    } else if printable(code) {
        (buf.push(code as u8 as char), PromptStep::Editing)
    } else {
        (buf, PromptStep::Editing)
    }
}

/// Applies one key to the text being collected by a prompt: return submits,
/// escape cancels with an empty buffer, backspace deletes, a printable
/// character is added, other keys are ignored.
pub fn prompt_key(buf: &mut String, code: i32) -> (r: PromptStep)
    ensures
        (final(buf)@, r) == prompt_spec(old(buf)@, code),
{
    if code == LINE_FEED {
        PromptStep::Submit
    } else if code == ESCAPE {
        *buf = String::new();
        PromptStep::Cancel
    } else if code == DEL || code == KEY_BACKSPACE {
        let _ = pop_char(buf);
        PromptStep::Editing
    } else if 32 <= code && code <= 126 {
        push_char(buf, code as u8 as char);
        PromptStep::Editing
    } else {
        PromptStep::Editing
    }
}

/// The name to create from a submitted prompt: the text trimmed, or the
/// empty-name message when nothing but whitespace was typed.
pub fn submit_new_name(text: &str) -> (r: Result<String, Flash>)
    ensures
        trim_spec(text@).len() == 0 ==> r == Err::<String, Flash>(Flash::EmptyName),
        trim_spec(text@).len() > 0 ==> r is Ok && r->Ok_0@ == trim_spec(text@),
{
    let t = trim(text);
    if t.as_str().unicode_len() == 0 {
        Err(Flash::EmptyName)
    } else {
        Ok(t)
    }
}

/// The message after an attempt to create a project.
pub fn creation_flash(r: Result<(), CreateError>) -> (f: Flash)
    ensures
        r is Ok ==> f == Flash::Created,
        r is Err ==> f == Flash::CreateFailed,
{
    match r {
        Ok(()) => Flash::Created,
        Err(_) => Flash::CreateFailed,
    }
}

/// The text of a message.
pub open spec fn flash_text(f: Flash) -> Seq<char> {
    match f {
        Flash::OpenFailed => "Terminal open failed"@,
        Flash::EmptyName => "Name cannot be empty"@,
        Flash::Created => "Project created"@,
        Flash::CreateFailed => "Failed to create project"@,
    }
}

/// Whether a message reports a failure.
pub open spec fn flash_is_error(f: Flash) -> bool {
    f != Flash::Created
}

impl Flash {
    /// The message's text.
    pub fn text(&self) -> (r: &'static str)
        ensures
            r@ == flash_text(*self),
    {
        match self {
            Flash::OpenFailed => "Terminal open failed",
            Flash::EmptyName => "Name cannot be empty",
            Flash::Created => "Project created",
            Flash::CreateFailed => "Failed to create project",
        }
    }

    /// Whether the message reports a failure.
    pub fn is_error(&self) -> (r: bool)
        ensures
            r == flash_is_error(*self),
    {
        match self {
            Flash::Created => false,
            _ => true,
        }
    }
}

/// The shell used when none is configured.
pub open spec fn default_shell() -> Seq<char> {
    "/bin/bash"@
}

/// The shell to hand the terminal to: the configured one, else the default.
pub fn resolve_shell(configured: Option<String>) -> (r: String)
    ensures
        configured is Some ==> r@ == configured->0@,
        configured is None ==> r@ == default_shell(),
{
    match configured {
        Some(s) => s,
        None => String::from_str("/bin/bash"),
    }
}

} // verus!
