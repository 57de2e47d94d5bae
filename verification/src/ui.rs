//! The screen: the status line, the list of projects and the pane beside it.
//!
//! The pane comes after the list: to draw a list can move its selection, and the pane goes
//! by the selection that the list was drawn with.

use crate::app::{App, AppView, InputMode};
use crate::changes;
use crate::details;
use crate::details::describe_project;
use crate::gpg;
use crate::gpg::{key_can_shorten, short_key};
use crate::layout;
use crate::layout::{divide, Area, ScreenAreas};
use crate::project;
use crate::project::{Project, RepoFacts};
use crate::screen;
use crate::screen::{
    plain, Line, LineView, Panel, PanelView, Screen, ScreenView, Span, SpanView, StatusLine,
    StatusView, Tone,
};
use crate::text;
use crate::text::decimal_of;
use crate::time_ago;
use crate::time_ago::current_seconds;
use vstd::prelude::*;
use vstd::string::StringExecFns;

verus! {

/// What `str::to_uppercase` makes of a string with these characters.
pub uninterp spec fn uppercase(s: Seq<char>) -> Seq<char>;

/// `str::to_uppercase`: the uppercase equivalent of a string, which depends on nothing but
/// its characters.
pub assume_specification[ str::to_uppercase ](s: &str) -> (r: String)
    ensures
        r@ == uppercase(s@),
;

/// The status line.
pub open spec fn status_of(s: AppView) -> StatusView {
    if s.loading {
        StatusView::Scanning { label: "MODE"@, value: "SCANNING"@, tick: s.tick }
    } else {
        StatusView::Bar {
            left: seq![
                ("TROPICAL_PM"@, "v0.2"@),
                ("REPOS"@, text::decimal(s.projects.len()) + " REPOS"@),
                ("GPG"@, gpg::short_key_of(s.key)),
            ],
            right: seq![
                ("R"@, "REFRESH"@),
                ("G"@, "GPG KEY"@),
                ("T"@, "TEST REMOTE"@),
                ("C"@, "CREATE"@),
                ("Q"@, "QUIT"@),
            ],
        }
    }
}

/// The sign that says how a branch stands to its upstream.
pub open spec fn sync_sign(p: Project) -> Seq<char> {
    if p.ahead > 0 && p.behind > 0 {
        " ⇅"@
    } else if p.ahead > 0 {
        " ↑"@
    } else if p.behind > 0 {
        " ↓"@
    } else {
        ""@
    }
}

/// The line of a project in the list: it is the selected one, or not.
pub open spec fn item_line(p: Project, active: bool) -> LineView {
    LineView::Spans(
        seq![
            if active {
                screen::plain_text("❯ "@, Tone::Accent)
            } else {
                screen::plain_text("  "@, Tone::TextDisabled)
            },
            SpanView::Dot { warn: p.is_dirty },
            screen::plain_text(" "@, Tone::Plain),
            screen::plain_text(
                p.name@,
                if active {
                    Tone::Accent
                } else {
                    Tone::TextDim
                },
            ),
            screen::plain_text(sync_sign(p), Tone::AccentLight),
            if p.gpg_status.is_configured {
                screen::plain_text(" ✓"@, Tone::Success)
            } else if p.gpg_status.signing_key is Some {
                screen::plain_text(" ⚠"@, Tone::Warning)
            } else {
                screen::plain_text(" ○"@, Tone::TextDisabled)
            },
            match p.remote_status {
                Some(true) => screen::plain_text(" ●"@, Tone::Success),
                Some(false) => screen::plain_text(" ◌"@, Tone::Danger),
                None => screen::plain_text(" -"@, Tone::TextDisabled),
            },
        ],
    )
}

/// The lines of the projects in the list.
pub open spec fn items_of(s: AppView) -> Seq<LineView> {
    Seq::new(
        s.projects.len(),
        |i: int| item_line(s.projects[i], s.list.selected == Some(i as usize)),
    )
}

/// The pane in which something is typed.
pub open spec fn prompt_panel(
    title: Seq<char>,
    prompt: Seq<char>,
    buffer: Seq<char>,
    tick: u8,
) -> PanelView {
    PanelView {
        title,
        title_tone: Tone::InputPrompt,
        active: true,
        wrap: false,
        lines: seq![
            LineView::Spans(
                seq![
                    screen::plain_text(prompt, Tone::Accent),
                    screen::plain_text(buffer, Tone::Text),
                    SpanView::Cursor { tick },
                ],
            ),
        ],
    }
}

/// What is said where no project is selected.
pub open spec fn placeholder_text(s: AppView) -> Seq<char> {
    if s.loading {
        "  Scanning repositories…"@
    } else if s.projects.len() == 0 {
        "  No projects found. Press [R] to refresh."@
    } else {
        "  Select a project."@
    }
}

/// The project that the pane tells about, if any: none while something is typed.
pub open spec fn shown_project(s: AppView) -> Option<Project> {
    if s.mode == InputMode::CreatingProject || s.mode == InputMode::ConfigGpgKey {
        None
    } else {
        match s.list.selected {
            Some(i) => if i < s.projects.len() {
                Some(s.projects[i as int])
            } else {
                None
            },
            None => None,
        }
    }
}

/// The pane on the right, given the title of the project that is shown and the time; there
/// is none where the selection is not on the list.
pub open spec fn pane_of(s: AppView, title: Seq<char>, now: i64) -> Option<PanelView> {
    if s.mode == InputMode::CreatingProject {
        Some(
            prompt_panel(
                " [ ENTER ] CONFIRM  [ ESC ] CANCEL "@,
                "  NEW PROJECT  ❯  "@,
                s.buffer,
                s.tick,
            ),
        )
    } else if s.mode == InputMode::ConfigGpgKey {
        Some(
            prompt_panel(
                " [ ENTER ] APPLY TO ALL  [ ESC ] CANCEL "@,
                "  GPG SIGNING KEY  ❯  "@,
                s.buffer,
                s.tick,
            ),
        )
    } else if s.list.selected is None {
        Some(
            PanelView {
                title: " DETAILS "@,
                title_tone: Tone::BlockTitle,
                active: false,
                wrap: false,
                lines: seq![
                    LineView::Spans(
                        seq![screen::plain_text(placeholder_text(s), Tone::TextDisabled)],
                    ),
                ],
            },
        )
    } else {
        match shown_project(s) {
            None => None,
            Some(p) => Some(
                PanelView {
                    title: " DETAILS "@,
                    title_tone: Tone::BlockTitle,
                    active: true,
                    wrap: true,
                    lines: details::detail_lines(p, title, now),
                },
            ),
        }
    }
}

/// What the screen holds but for the pane.
pub open spec fn screen_of(s: AppView) -> ScreenView {
    ScreenView { status: status_of(s), list_title: " PROJECTS "@, items: items_of(s) }
}

/// The title of the project that is shown: its name in upper case.
pub open spec fn title_of(s: AppView) -> Seq<char> {
    match shown_project(s) {
        Some(p) => uppercase(p.name@),
        None => ""@,
    }
}

/// Whether the status line and the list can be drawn: they cannot where the signing key
/// cannot be cut to its last eight bytes.
pub open spec fn can_draw(s: AppView) -> bool {
    gpg::can_shorten(s.key)
}

/// Whether the pane can be drawn. It cannot where a message stands while a signing key is
/// typed (there is no place for it), and where the changes of the project shown are too
/// many to be counted.
pub open spec fn can_draw_pane(s: AppView) -> bool {
    &&& !(s.mode == InputMode::ConfigGpgKey && s.message is Some)
    &&& shown_project(s) matches Some(p) ==> (p.is_dirty ==> p.countable())
}

/// The list has a line for each project, in order, and only that of the selected one is
/// marked.
pub proof fn list_mirrors_projects(s: AppView, i: int)
    requires
        0 <= i < s.projects.len() <= usize::MAX,
    ensures
        items_of(s).len() == s.projects.len(),
        items_of(s)[i]->Spans_0[0] == screen::plain_text("❯ "@, Tone::Accent) <==> s.list.selected
            == Some(i as usize),
        items_of(s)[i]->Spans_0[3]->text == s.projects[i].name@,
{
}

/// What is typed shows at once, and the list and the status line do not change with it.
pub proof fn typed_text_is_shown(s: AppView, buffer: Seq<char>, title: Seq<char>, now: i64)
    requires
        s.mode == InputMode::CreatingProject || s.mode == InputMode::ConfigGpgKey,
    ensures
        ({
            let typed = AppView { buffer, ..s };
            &&& screen_of(typed) == screen_of(s)
            &&& pane_of(typed, title, now)->0.lines[0]->Spans_0[1] == screen::plain_text(
                buffer,
                Tone::Text,
            )
        }),
{
    let typed = AppView { buffer, ..s };
    assert(items_of(typed) =~= items_of(s));
}

/// Title and time show in nothing but what is told about a project.
pub proof fn time_shows_only_in_details(
    s: AppView,
    title: Seq<char>,
    now: i64,
    other: Seq<char>,
    later: i64,
)
    requires
        shown_project(s) is None,
    ensures
        pane_of(s, title, now) == pane_of(s, other, later),
{
}

/// Once a scan has come back with projects, the pane tells about one of them, unless the
/// selection from before is beyond their end.
pub proof fn received_projects_are_told_about(s: AppView, projects: Seq<Project>)
    requires
        s.mode == InputMode::Normal,
        projects.len() > 0,
        s.list.in_range(projects.len() as int),
    ensures
        shown_project(s.received(projects)) is Some,
        s.list.selected is None ==> shown_project(s.received(projects)) == Some(projects[0]),
{
}

/// Whether a line ends a tree.
pub open spec fn ends_tree(line: LineView) -> bool {
    line matches LineView::Spans(spans) && spans.len() > 0 && spans[0] == (SpanView::Tree {
        last: true,
    })
}

/// Every change of a dirty project is accounted for: the section on its changes lists each,
/// or the most that are listed and the number of those left out; and it is the last line
/// that ends the tree, and no other.
pub proof fn changes_are_accounted_for(p: Project, facts: RepoFacts, gpg_key: Seq<char>)
    requires
        p.built_from(facts, gpg_key),
        p.is_dirty,
    ensures
        ({
            let section = details::changes_section(p);
            let total = details::total_changes(p);
            &&& total <= changes::MAX_LISTED ==> section.len() == 2 + total
            &&& total > changes::MAX_LISTED ==> section.len() == 3 + changes::MAX_LISTED
                && section.last() == details::more_line((total - changes::MAX_LISTED) as nat)
            &&& forall|i: int|
                0 <= i < section.len() ==> (ends_tree(#[trigger] section[i]) <==> i
                    == section.len() - 1)
        }),
{
    project::dirty_means_changes(p, facts, gpg_key);
    let files = changes::files_view(p.changed_files@);
    let total = details::total_changes(p);
    let section = details::changes_section(p);
    change_lines_shape(files, total, files.len() as int);
    let listed = details::change_lines(files, total, files.len() as int);
    assert forall|i: int| 0 <= i < section.len() implies (ends_tree(#[trigger] section[i]) <==> i
        == section.len() - 1) by {
        if 2 <= i < 2 + files.len() {
            assert(section[i] == listed[i - 2]);
        }
    }
}

proof fn change_lines_shape(
    files: Seq<(Seq<char>, crate::changes::FileStatusType)>,
    total: int,
    n: int,
)
    requires
        0 <= n <= files.len(),
    ensures
        details::change_lines(files, total, n).len() == n,
        forall|i: int|
            0 <= i < n ==> #[trigger] details::change_lines(files, total, n)[i]
                == details::change_line(files[i], i + 1 == files.len() && total <= files.len()),
    decreases n,
{
    if n > 0 {
        change_lines_shape(files, total, n - 1);
    }
}

fn pair(label: &str, value: &str) -> (r: (String, String))
    ensures
        r.0@ == label@,
        r.1@ == value@,
{
    (label.to_string(), value.to_string())
}

fn make_status(app: &App) -> (r: StatusLine)
    requires
        gpg::can_shorten(app@.key),
    ensures
        r@ == status_of(app@),
{
    if app.is_loading {
        StatusLine::Scanning {
            label: "MODE".to_string(),
            value: "SCANNING".to_string(),
            tick: app.tick,
        }
    } else {
        let repo_count = decimal_of(app.projects.len() as u64).concat(" REPOS");
        let key = short_key(app.global_gpg_key.as_str());
        let left: Vec<(String, String)> = vec![
            pair("TROPICAL_PM", "v0.2"),
            pair("REPOS", repo_count.as_str()),
            pair("GPG", key.as_str()),
        ];
        let right: Vec<(String, String)> = vec![
            pair("R", "REFRESH"),
            pair("G", "GPG KEY"),
            pair("T", "TEST REMOTE"),
            pair("C", "CREATE"),
            pair("Q", "QUIT"),
        ];
        let r = StatusLine::Bar { left, right };
        assert(r@->left =~= status_of(app@)->left);
        assert(r@->right =~= status_of(app@)->right);
        r
    }
}

fn make_item(p: &Project, active: bool) -> (r: Line)
    ensures
        r@ == item_line(*p, active),
{
    let (prefix, name_tone) = if active {
        (plain("❯ ", Tone::Accent), Tone::Accent)
    } else {
        (plain("  ", Tone::TextDisabled), Tone::TextDim)
    };
    let sync = if p.ahead > 0 && p.behind > 0 {
        " ⇅"
    } else if p.ahead > 0 {
        " ↑"
    } else if p.behind > 0 {
        " ↓"
    } else {
        ""
    };
    let gpg_indicator = if p.gpg_status.is_configured {
        plain(" ✓", Tone::Success)
    } else if p.gpg_status.signing_key.is_some() {
        plain(" ⚠", Tone::Warning)
    } else {
        plain(" ○", Tone::TextDisabled)
    };
    let remote_indicator = match p.remote_status {
        Some(true) => plain(" ●", Tone::Success),
        Some(false) => plain(" ◌", Tone::Danger),
        None => plain(" -", Tone::TextDisabled),
    };
    let spans: Vec<Span> = vec![
        prefix,
        Span::Dot { warn: p.is_dirty },
        plain(" ", Tone::Plain),
        plain(p.name.as_str(), name_tone),
        plain(sync, Tone::AccentLight),
        gpg_indicator,
        remote_indicator,
    ];
    let r = Line::Spans(spans);
    assert(r@->Spans_0 =~= item_line(*p, active)->Spans_0);
    r
}

fn make_items(app: &App) -> (r: Vec<Line>)
    ensures
        screen::lines_view(r@) == items_of(app@),
{
    let mut lines: Vec<Line> = Vec::new();
    let mut i: usize = 0;
    while i < app.projects.len()
        invariant
            i <= app.projects@.len(),
            lines@.len() == i,
            forall|j: int| 0 <= j < i ==> #[trigger] lines@[j]@ == items_of(app@)[j],
        decreases app.projects@.len() - i,
    {
        let active = match app.list_state.selected {
            Some(s) => s == i,
            None => false,
        };
        lines.push(make_item(&app.projects[i], active));
        i = i + 1;
    }
    assert(screen::lines_view(lines@) =~= items_of(app@));
    lines
}

fn make_prompt(title: &str, prompt: &str, buffer: &str, tick: u8) -> (r: Panel)
    ensures
        r@ == prompt_panel(title@, prompt@, buffer@, tick),
{
    let spans: Vec<Span> = vec![
        plain(prompt, Tone::Accent),
        plain(buffer, Tone::Text),
        Span::Cursor { tick },
    ];
    let line = Line::Spans(spans);
    let ghost wanted = prompt_panel(title@, prompt@, buffer@, tick);
    assert(line@->Spans_0 =~= wanted.lines[0]->Spans_0);
    let lines: Vec<Line> = vec![line];
    assert(screen::lines_view(lines@) =~= wanted.lines);
    Panel {
        title: title.to_string(),
        title_tone: Tone::InputPrompt,
        active: true,
        wrap: false,
        lines,
    }
}

fn make_placeholder(app: &App) -> (r: Panel)
    requires
        app@.mode != InputMode::CreatingProject,
        app@.mode != InputMode::ConfigGpgKey,
        app@.list.selected is None,
    ensures
        forall|title: Seq<char>, now: i64| #[trigger] pane_of(app@, title, now) == Some(r@),
{
    let msg = if app.is_loading {
        "  Scanning repositories…"
    } else if app.projects.is_empty() {
        "  No projects found. Press [R] to refresh."
    } else {
        "  Select a project."
    };
    let spans: Vec<Span> = vec![plain(msg, Tone::TextDisabled)];
    let line = Line::Spans(spans);
    let ghost wanted = pane_of(app@, seq![], 0)->0;
    assert(line@->Spans_0 =~= wanted.lines[0]->Spans_0);
    let lines: Vec<Line> = vec![line];
    assert(screen::lines_view(lines@) =~= wanted.lines);
    Panel {
        title: " DETAILS ".to_string(),
        title_tone: Tone::BlockTitle,
        active: false,
        wrap: false,
        lines,
    }
}

/// The project that the pane tells about, if any.
pub fn project_shown(app: &App) -> (r: Option<&Project>)
    ensures
        match r {
            Some(p) => shown_project(app@) == Some(*p),
            None => shown_project(app@) is None,
        },
{
    match app.input_mode {
        InputMode::CreatingProject => None,
        InputMode::ConfigGpgKey => None,
        _ => match app.list_state.selected {
            Some(i) => if i < app.projects.len() {
                Some(&app.projects[i])
            } else {
                None
            },
            None => None,
        },
    }
}

/// Whether the status line and the list can be drawn.
pub fn is_drawable(app: &App) -> (r: bool)
    ensures
        r == can_draw(app@),
{
    key_can_shorten(app.global_gpg_key.as_str())
}

/// Whether the pane can be drawn.
pub fn is_pane_drawable(app: &App) -> (r: bool)
    ensures
        r == can_draw_pane(app@),
{
    if let InputMode::ConfigGpgKey = app.input_mode {
        if app.status_message.is_some() {
            return false;
        }
    }
    match project_shown(app) {
        None => true,
        Some(p) => !p.is_dirty || match p.modified.checked_add(p.untracked) {
            None => false,
            Some(n) => n.checked_add(p.deleted).is_some(),
        },
    }
}

/// What the screen holds but for the pane, and how it is divided.
pub fn ui(app: &App, area: Area) -> (r: (Screen, ScreenAreas))
    requires
        can_draw(app@),
    ensures
        r.0@ == screen_of(app@),
        layout::is_division(area, r.1),
{
    let screen = Screen {
        status: make_status(app),
        list_title: " PROJECTS ".to_string(),
        items: make_items(app),
    };
    (screen, divide(area))
}

/// The pane on the right, given the title of the project that is shown and the time.
pub fn compose_pane(app: &App, title: &str, now: i64) -> (r: Option<Panel>)
    requires
        can_draw_pane(app@),
    ensures
        match r {
            Some(p) => pane_of(app@, title@, now) == Some(p@),
            None => pane_of(app@, title@, now) is None,
        },
{
    match app.input_mode {
        InputMode::CreatingProject => Some(
            make_prompt(
                " [ ENTER ] CONFIRM  [ ESC ] CANCEL ",
                "  NEW PROJECT  ❯  ",
                app.input_buffer.as_str(),
                app.tick,
            ),
        ),
        InputMode::ConfigGpgKey => Some(
            make_prompt(
                " [ ENTER ] APPLY TO ALL  [ ESC ] CANCEL ",
                "  GPG SIGNING KEY  ❯  ",
                app.input_buffer.as_str(),
                app.tick,
            ),
        ),
        _ => match app.list_state.selected {
            None => Some(make_placeholder(app)),
            Some(i) => if i < app.projects.len() {
                Some(
                    Panel {
                        title: " DETAILS ".to_string(),
                        title_tone: Tone::BlockTitle,
                        active: true,
                        wrap: true,
                        lines: describe_project(&app.projects[i], title, now),
                    },
                )
            } else {
                None
            },
        },
    }
}

/// The pane on the right at present.
pub fn pane(app: &App) -> (r: Option<Panel>)
    requires
        can_draw_pane(app@),
    ensures
        exists|reading: Option<u64>|
            {
                let now = #[trigger] time_ago::clock_value(reading);
                match r {
                    Some(p) => pane_of(app@, title_of(app@), now) == Some(p@),
                    None => pane_of(app@, title_of(app@), now) is None,
                }
            },
{
    let title = match project_shown(app) {
        Some(p) => p.name.as_str().to_uppercase(),
        None => "".to_string(),
    };
    let now = current_seconds();
    compose_pane(app, title.as_str(), now)
}

} // verus!
