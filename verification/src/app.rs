//! The application: its state, and what events do to it.

use crate::brand::Brand;
use crate::event::{Action, ActionView, Event, Key, Mouse};
use crate::gpg::DEFAULT_GPG_KEY;
use crate::list::ListState;
use crate::project::Project;
use crate::text;
use crate::text::trim;
use vstd::prelude::*;
use vstd::string::StringExecFns;

verus! {

/// What keys stand for.
#[derive(Clone, Copy, PartialEq, Eq, Structural, Debug)]
pub enum InputMode {
    Normal,
    CreatingProject,
    ConfigGpgKey,
    ConfirmAction,
}

/// What is to be confirmed.
#[derive(Clone, Copy, PartialEq, Eq, Structural, Debug)]
pub enum ActionMode {
    Nothing,
    ConfigureGpg,
    TestRemotes,
}

/// A question to be confirmed or not.
pub struct ConfirmData {
    pub action: ActionMode,
    pub message: String,
    pub projects: Vec<String>,
}

/// The state of the application.
pub struct App {
    pub projects: Vec<Project>,
    pub list_state: ListState,
    pub input_mode: InputMode,
    pub input_buffer: String,
    /// Whether a scan is under way.
    pub is_loading: bool,
    pub tick: u8,
    pub brand: Brand,
    pub action_mode: ActionMode,
    pub confirm_data: Option<ConfirmData>,
    pub global_gpg_key: String,
    pub status_message: Option<String>,
}

/// A question as characters.
pub struct ConfirmView {
    pub action: ActionMode,
    pub message: Seq<char>,
    pub projects: Seq<Seq<char>>,
}

/// The state of the application as characters.
#[verifier::ext_equal]
pub struct AppView {
    pub projects: Seq<Project>,
    pub list: ListState,
    pub mode: InputMode,
    pub buffer: Seq<char>,
    pub loading: bool,
    pub tick: u8,
    pub brand: Brand,
    pub action_mode: ActionMode,
    pub confirm: Option<ConfirmView>,
    pub key: Seq<char>,
    pub message: Option<Seq<char>>,
}

impl View for ConfirmData {
    type V = ConfirmView;

    open spec fn view(&self) -> ConfirmView {
        ConfirmView {
            action: self.action,
            message: self.message@,
            projects: self.projects@.map_values(|p: String| p@),
        }
    }
}

impl View for App {
    type V = AppView;

    open spec fn view(&self) -> AppView {
        AppView {
            projects: self.projects@,
            list: self.list_state,
            mode: self.input_mode,
            buffer: self.input_buffer@,
            loading: self.is_loading,
            tick: self.tick,
            brand: self.brand,
            action_mode: self.action_mode,
            confirm: match self.confirm_data {
                Some(c) => Some(c@),
                None => None,
            },
            key: self.global_gpg_key@,
            message: match self.status_message {
                Some(m) => Some(m@),
                None => None,
            },
        }
    }
}

/// What is said while a key is being set everywhere.
pub open spec fn configuring_message(key: Seq<char>) -> Seq<char> {
    "Configuring GPG key "@ + key + " on all repos..."@
}

impl AppView {
    /// The state in which the application begins, with a scan under way.
    pub open spec fn initial(brand: Brand) -> AppView {
        AppView {
            projects: Seq::empty(),
            list: ListState { offset: 0, selected: None },
            mode: InputMode::Normal,
            buffer: Seq::empty(),
            loading: true,
            tick: 0,
            brand,
            action_mode: ActionMode::Nothing,
            confirm: None,
            key: DEFAULT_GPG_KEY@,
            message: None,
        }
    }

    /// The state with a scan under way.
    pub open spec fn scanning(self) -> AppView {
        AppView { loading: true, ..self }
    }

    /// The state in which keys stand for something else.
    pub open spec fn in_mode(self, mode: InputMode) -> AppView {
        AppView { mode, ..self }
    }

    /// The state once a scan has come back with `projects`.
    pub open spec fn received(self, projects: Seq<Project>) -> AppView {
        AppView {
            projects,
            loading: false,
            list: if self.list.selected is None && projects.len() > 0 {
                self.list.selecting(0)
            } else {
                self.list
            },
            ..self
        }
    }

    /// The state once the list has been drawn and left in the state `list`.
    pub open spec fn drawn(self, list: ListState) -> AppView {
        AppView { list, ..self }
    }

    /// The state with the next project selected.
    pub open spec fn next(self) -> AppView {
        let n = self.projects.len() as int;
        if n == 0 {
            self
        } else {
            AppView { list: self.list.selecting(self.list.following(n) as usize), ..self }
        }
    }

    /// The state with the previous project selected.
    pub open spec fn previous(self) -> AppView {
        let n = self.projects.len() as int;
        if n == 0 {
            self
        } else {
            AppView { list: self.list.selecting(self.list.preceding(n) as usize), ..self }
        }
    }

    /// The state with the project at `index` selected, where there is one.
    pub open spec fn selecting(self, index: int) -> AppView {
        if 0 <= index < self.projects.len() {
            AppView { list: self.list.selecting(index as usize), ..self }
        } else {
            self
        }
    }

    /// The state while `key` is being set everywhere.
    pub open spec fn configuring(self, key: Seq<char>) -> AppView {
        AppView { message: Some(configuring_message(key)), ..self }.scanning()
    }

    /// The state while remotes are being tested.
    pub open spec fn testing_remotes(self) -> AppView {
        AppView { message: Some("Testing remote connections..."@), ..self }.scanning()
    }

    /// The request for a scan, where none is under way.
    pub open spec fn scan_request(self) -> ActionView {
        if self.loading {
            ActionView::Nothing
        } else {
            ActionView::Scan
        }
    }

    /// What a key does while one moves about.
    pub open spec fn normal_key(self, key: Key) -> (AppView, ActionView) {
        match key {
            Key::Esc => (self, ActionView::Quit),
            Key::Down => (self.next(), ActionView::Nothing),
            Key::Up => (self.previous(), ActionView::Nothing),
            Key::Char(c) => if c == 'q' {
                (self, ActionView::Quit)
            } else if c == 'j' {
                (self.next(), ActionView::Nothing)
            } else if c == 'k' {
                (self.previous(), ActionView::Nothing)
            } else if c == 'r' {
                (self.scanning(), self.scan_request())
            } else if c == 'c' {
                (
                    AppView {
                        mode: InputMode::CreatingProject,
                        buffer: Seq::empty(),
                        ..self
                    },
                    ActionView::Nothing,
                )
            } else if c == 'g' {
                (
                    AppView { mode: InputMode::ConfigGpgKey, buffer: self.key, ..self },
                    ActionView::Nothing,
                )
            } else if c == 't' {
                (self.testing_remotes(), self.scan_request())
            } else {
                (self, ActionView::Nothing)
            },
            _ => (self, ActionView::Nothing),
        }
    }

    /// What a key other than Enter does while one types.
    pub open spec fn edit_key(self, key: Key) -> AppView {
        match key {
            Key::Char(c) => AppView { buffer: self.buffer.push(c), ..self },
            Key::Backspace => AppView {
                buffer: if self.buffer.len() > 0 {
                    self.buffer.drop_last()
                } else {
                    self.buffer
                },
                ..self
            },
            Key::Esc => self.in_mode(InputMode::Normal),
            _ => self,
        }
    }

    /// What a key does while one types the name of a project to be created.
    pub open spec fn creating_key(self, key: Key) -> (AppView, ActionView) {
        if key == Key::Enter {
            let name = text::trimmed(self.buffer);
            if name.len() > 0 {
                (
                    self.scanning().in_mode(InputMode::Normal),
                    ActionView::CreateProject { name, scan: !self.loading },
                )
            } else {
                (self.in_mode(InputMode::Normal), ActionView::Nothing)
            }
        } else {
            (self.edit_key(key), ActionView::Nothing)
        }
    }

    /// What a key does while one types a signing key.
    pub open spec fn gpg_key(self, key: Key) -> (AppView, ActionView) {
        if key == Key::Enter {
            let signing_key = text::trimmed(self.buffer);
            if signing_key.len() > 0 {
                (
                    AppView { key: signing_key, ..self }.configuring(signing_key).in_mode(
                        InputMode::Normal,
                    ),
                    ActionView::ConfigureGpg { key: signing_key, scan: !self.loading },
                )
            } else {
                (self.in_mode(InputMode::Normal), ActionView::Nothing)
            }
        } else {
            (self.edit_key(key), ActionView::Nothing)
        }
    }

    /// The state with the question out of the way.
    pub open spec fn answered(self) -> AppView {
        AppView { confirm: None, mode: InputMode::Normal, ..self }
    }

    /// What a key does while a question is open.
    pub open spec fn confirm_key(self, key: Key) -> (AppView, ActionView) {
        if key == Key::Char('y') || key == Key::Enter {
            match self.confirm {
                None => (self.answered(), ActionView::Nothing),
                Some(c) => match c.action {
                    ActionMode::ConfigureGpg => (
                        self.configuring(self.key).answered(),
                        ActionView::ConfigureGpg { key: self.key, scan: !self.loading },
                    ),
                    ActionMode::TestRemotes => (
                        self.testing_remotes().answered(),
                        self.scan_request(),
                    ),
                    ActionMode::Nothing => (self.answered(), ActionView::Nothing),
                },
            }
        } else if key == Key::Char('n') || key == Key::Esc {
            (self.answered(), ActionView::Nothing)
        } else {
            (self, ActionView::Nothing)
        }
    }

    /// The project that is shown in a row of the screen: the list begins in the third row.
    pub open spec fn clicked(self, row: u16) -> int {
        self.list.offset + (row - 2)
    }

    /// What the mouse does: nothing but while one moves about.
    pub open spec fn mouse(self, m: Mouse) -> AppView {
        if self.mode != InputMode::Normal {
            self
        } else {
            match m {
                Mouse::ScrollDown => self.next(),
                Mouse::ScrollUp => self.previous(),
                Mouse::LeftDown(row) => if row > 1 {
                    self.selecting(self.clicked(row))
                } else {
                    self
                },
                Mouse::Other => self,
            }
        }
    }

    /// What an event does to the state, and what is asked for in return.
    pub open spec fn step(self, e: Event) -> (AppView, ActionView) {
        match e {
            Event::Press(key) => match self.mode {
                InputMode::Normal => self.normal_key(key),
                InputMode::CreatingProject => self.creating_key(key),
                InputMode::ConfigGpgKey => self.gpg_key(key),
                InputMode::ConfirmAction => self.confirm_key(key),
            },
            Event::Release(_) => (self, ActionView::Nothing),
            Event::Mouse(m) => (self.mouse(m), ActionView::Nothing),
            Event::Other => (self, ActionView::Nothing),
            Event::Quiet => (
                AppView { tick: self.tick.wrapping_add(1), ..self },
                ActionView::Nothing,
            ),
        }
    }

    /// Whether the project that a click is on has an index that fits a machine word.
    pub open spec fn click_fits(self, e: Event) -> bool {
        self.mode == InputMode::Normal ==> (e matches Event::Mouse(Mouse::LeftDown(row))
            ==> self.clicked(row) <= usize::MAX)
    }
}

impl App {
    /// The application at its start. A scan is to be started: the state says that one is
    /// under way.
    pub fn new(brand: Brand) -> (r: App)
        ensures
            r@ == AppView::initial(brand),
    {
        let mut app = App {
            projects: Vec::new(),
            list_state: ListState::new(),
            input_mode: InputMode::Normal,
            input_buffer: String::new(),
            is_loading: false,
            tick: 0,
            brand,
            action_mode: ActionMode::Nothing,
            confirm_data: None,
            global_gpg_key: DEFAULT_GPG_KEY.to_string(),
            status_message: None,
        };
        app.scan_projects();
        app
    }

    /// Asks for a scan: says whether one is to be started, which is where none is under way.
    pub fn scan_projects(&mut self) -> (r: bool)
        ensures
            final(self)@ == old(self)@.scanning(),
            r == !old(self)@.loading,
    {
        if self.is_loading {
            return false;
        }
        self.is_loading = true;
        true
    }

    /// Takes in what a scan came back with.
    pub fn receive_projects(&mut self, projects: Vec<Project>)
        ensures
            final(self)@ == old(self)@.received(projects@),
    {
        self.projects = projects;
        self.is_loading = false;
        if self.list_state.selected.is_none() && !self.projects.is_empty() {
            self.list_state.select(0);
        }
    }

    /// Takes over the state that the list was drawn with: to draw a list can scroll it and
    /// move a selection that is beyond its end.
    pub fn list_drawn(&mut self, state: ListState)
        ensures
            final(self)@ == (AppView { list: state, ..old(self)@ }),
            final(self)@ == old(self)@.drawn(state),
    {
        self.list_state = state;
    }

    /// Selects the next project; the first follows the last.
    pub fn next(&mut self)
        ensures
            final(self)@ == old(self)@.next(),
    {
        if self.projects.is_empty() {
            return;
        }
        self.list_state.select_following(self.projects.len());
    }

    /// Selects the previous project; the last precedes the first.
    pub fn previous(&mut self)
        ensures
            final(self)@ == old(self)@.previous(),
    {
        if self.projects.is_empty() {
            return;
        }
        self.list_state.select_preceding(self.projects.len());
    }

    /// Selects the project at `index`, where there is one.
    pub fn select_index(&mut self, index: usize)
        ensures
            final(self)@ == old(self)@.selecting(index as int),
    {
        if index < self.projects.len() {
            self.list_state.select(index);
        }
    }

    /// Says that `key` is being set everywhere, and asks for a scan: says whether one is
    /// to be started.
    pub fn configure_gpg_all(&mut self, key: &str) -> (r: bool)
        ensures
            final(self)@ == old(self)@.configuring(key@),
            r == !old(self)@.loading,
    {
        self.status_message =
        Some("Configuring GPG key ".to_string().concat(key).concat(" on all repos..."));
        self.scan_projects()
    }

    /// Says that remotes are being tested, and asks for a scan: says whether one is to be
    /// started.
    pub fn test_remotes(&mut self) -> (r: bool)
        ensures
            final(self)@ == old(self)@.testing_remotes(),
            r == !old(self)@.loading,
    {
        self.status_message = Some("Testing remote connections...".to_string());
        self.scan_projects()
    }

    /// Whether an event can be taken: a click can where the project that it is on has an
    /// index that fits a machine word.
    pub fn can_handle(&self, e: Event) -> (r: bool)
        ensures
            r == self@.click_fits(e),
    {
        match (self.input_mode, e) {
            (InputMode::Normal, Event::Mouse(Mouse::LeftDown(row))) => row < 2
                || self.list_state.offset <= usize::MAX - (row as usize - 2),
            _ => true,
        }
    }

    /// Takes an event: changes the state and says what is to be done.
    pub fn handle_event(&mut self, e: Event) -> (r: Action)
        requires
            old(self)@.click_fits(e),
        ensures
            final(self)@ == old(self)@.step(e).0,
            r@ == old(self)@.step(e).1,
    {
        match e {
            Event::Press(key) => match self.input_mode {
                InputMode::Normal => self.handle_normal_key(key),
                InputMode::CreatingProject => self.handle_creating_key(key),
                InputMode::ConfigGpgKey => self.handle_gpg_key(key),
                InputMode::ConfirmAction => self.handle_confirm_key(key),
            },
            Event::Mouse(m) => {
                self.handle_mouse(m);
                Action::Nothing
            },
            Event::Release(_) => Action::Nothing,
            Event::Other => Action::Nothing,
            Event::Quiet => {
                self.tick = self.tick.wrapping_add(1);
                Action::Nothing
            },
        }
    }

    fn handle_normal_key(&mut self, key: Key) -> (r: Action)
        ensures
            final(self)@ == old(self)@.normal_key(key).0,
            r@ == old(self)@.normal_key(key).1,
    {
        match key {
            Key::Char('q') | Key::Esc => Action::Quit,
            Key::Char('j') | Key::Down => {
                self.next();
                Action::Nothing
            },
            Key::Char('k') | Key::Up => {
                self.previous();
                Action::Nothing
            },
            Key::Char('r') => if self.scan_projects() {
                Action::Scan
            } else {
                Action::Nothing
            },
            Key::Char('c') => {
                self.input_mode = InputMode::CreatingProject;
                self.input_buffer.clear();
                Action::Nothing
            },
            Key::Char('g') => {
                self.input_mode = InputMode::ConfigGpgKey;
                self.input_buffer = self.global_gpg_key.clone();
                Action::Nothing
            },
            Key::Char('t') => if self.test_remotes() {
                Action::Scan
            } else {
                Action::Nothing
            },
            _ => Action::Nothing,
        }
    }

    fn handle_edit_key(&mut self, key: Key)
        requires
            key != Key::Enter,
        ensures
            final(self)@ == old(self)@.edit_key(key),
    {
        match key {
            Key::Char(c) => self.input_buffer.push(c),
            Key::Backspace => {
                self.input_buffer.pop();
            },
            Key::Esc => {
                self.input_mode = InputMode::Normal;
            },
            _ => {},
        }
    }

    fn handle_creating_key(&mut self, key: Key) -> (r: Action)
        ensures
            final(self)@ == old(self)@.creating_key(key).0,
            r@ == old(self)@.creating_key(key).1,
    {
        match key {
            Key::Enter => {
                let name = trim(self.input_buffer.as_str());
                let action = if !name.as_str().is_empty() {
                    let scan = self.scan_projects();
                    Action::CreateProject { name, scan }
                } else {
                    Action::Nothing
                };
                self.input_mode = InputMode::Normal;
                action
            },
            _ => {
                self.handle_edit_key(key);
                Action::Nothing
            },
        }
    }

    fn handle_gpg_key(&mut self, key: Key) -> (r: Action)
        ensures
            final(self)@ == old(self)@.gpg_key(key).0,
            r@ == old(self)@.gpg_key(key).1,
    {
        match key {
            Key::Enter => {
                let signing_key = trim(self.input_buffer.as_str());
                let action = if !signing_key.as_str().is_empty() {
                    self.global_gpg_key = signing_key.clone();
                    let scan = self.configure_gpg_all(signing_key.as_str());
                    Action::ConfigureGpg { key: signing_key, scan }
                } else {
                    Action::Nothing
                };
                self.input_mode = InputMode::Normal;
                action
            },
            _ => {
                self.handle_edit_key(key);
                Action::Nothing
            },
        }
    }

    fn handle_confirm_key(&mut self, key: Key) -> (r: Action)
        ensures
            final(self)@ == old(self)@.confirm_key(key).0,
            r@ == old(self)@.confirm_key(key).1,
    {
        match key {
            Key::Char('y') | Key::Enter => {
                let asked = match &self.confirm_data {
                    Some(confirm) => confirm.action,
                    None => ActionMode::Nothing,
                };
                let action = match asked {
                    ActionMode::ConfigureGpg => {
                        let gpg_key = self.global_gpg_key.clone();
                        let scan = self.configure_gpg_all(gpg_key.as_str());
                        Action::ConfigureGpg { key: gpg_key, scan }
                    },
                    ActionMode::TestRemotes => if self.test_remotes() {
                        Action::Scan
                    } else {
                        Action::Nothing
                    },
                    ActionMode::Nothing => Action::Nothing,
                };
                self.confirm_data = None;
                self.input_mode = InputMode::Normal;
                action
            },
            Key::Char('n') | Key::Esc => {
                self.confirm_data = None;
                self.input_mode = InputMode::Normal;
                Action::Nothing
            },
            _ => Action::Nothing,
        }
    }

    fn handle_mouse(&mut self, m: Mouse)
        requires
            old(self)@.click_fits(Event::Mouse(m)),
        ensures
            final(self)@ == old(self)@.mouse(m),
    {
        if let InputMode::Normal = self.input_mode {
            match m {
                Mouse::ScrollDown => self.next(),
                Mouse::ScrollUp => self.previous(),
                Mouse::LeftDown(row) => {
                    let y = row as usize;
                    if y > 1 {
                        self.select_index(self.list_state.offset + (y - 2));
                    }
                },
                Mouse::Other => {},
            }
        }
    }
}

} // verus!
