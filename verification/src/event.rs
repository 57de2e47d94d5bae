//! What reaches the application from outside, and what it asks for in return.

use vstd::prelude::*;

verus! {

/// A key.
#[derive(Clone, Copy, PartialEq, Eq, Structural, Debug)]
pub enum Key {
    Char(char),
    Enter,
    Esc,
    Backspace,
    Up,
    Down,
    Other,
}

/// What the mouse does.
#[derive(Clone, Copy, PartialEq, Eq, Structural, Debug)]
pub enum Mouse {
    ScrollUp,
    ScrollDown,
    /// The left button goes down in this row of the screen.
    LeftDown(u16),
    Other,
}

/// What happens outside.
#[derive(Clone, Copy, PartialEq, Eq, Structural, Debug)]
pub enum Event {
    /// A key goes down.
    Press(Key),
    /// A key is held down or goes up.
    Release(Key),
    Mouse(Mouse),
    Other,
    /// Nothing, for as long as one waits for an event.
    Quiet,
}

/// What the application asks for.
#[derive(PartialEq, Eq, Debug)]
pub enum Action {
    Nothing,
    /// The application is to end.
    Quit,
    /// A scan is to be started.
    Scan,
    /// A project of this name is to be created, and a scan to be started after that.
    CreateProject { name: String, scan: bool },
    /// All repositories are to be set up to sign with this key, and a scan to be started.
    ConfigureGpg { key: String, scan: bool },
}

/// An `Action` as characters.
pub enum ActionView {
    Nothing,
    Quit,
    Scan,
    CreateProject { name: Seq<char>, scan: bool },
    ConfigureGpg { key: Seq<char>, scan: bool },
}

impl View for Action {
    type V = ActionView;

    open spec fn view(&self) -> ActionView {
        match self {
            Action::Nothing => ActionView::Nothing,
            Action::Quit => ActionView::Quit,
            Action::Scan => ActionView::Scan,
            Action::CreateProject { name, scan } => ActionView::CreateProject {
                name: name@,
                scan: *scan,
            },
            Action::ConfigureGpg { key, scan } => ActionView::ConfigureGpg {
                key: key@,
                scan: *scan,
            },
        }
    }
}

impl ActionView {
    /// Whether a scan is to be started.
    pub open spec fn starts_scan(self) -> bool {
        match self {
            ActionView::Nothing => false,
            ActionView::Quit => false,
            ActionView::Scan => true,
            ActionView::CreateProject { scan, .. } => scan,
            ActionView::ConfigureGpg { scan, .. } => scan,
        }
    }
}

impl Action {
    /// Whether a scan is to be started.
    pub fn starts_scan(&self) -> (r: bool)
        ensures
            r == self@.starts_scan(),
    {
        match self {
            Action::Nothing => false,
            Action::Quit => false,
            Action::Scan => true,
            Action::CreateProject { scan, .. } => *scan,
            Action::ConfigureGpg { scan, .. } => *scan,
        }
    }
}

} // verus!
