//! What can be read off the screen: that it tells what there is, and nothing else.

use crate::app::{AppView, InputMode};
use crate::changes;
use crate::changes::FileStatusType;
use crate::details;
use crate::gpg;
use crate::project::{Project, RepoFacts};
use crate::scan;
use crate::screen::{
    Line, LineView, Panel, PanelView, Screen, Span, SpanView, StatusLine, StatusView, Tone,
};
use crate::text;
use crate::time_ago;
use crate::ui;
use vstd::prelude::*;

verus! {

/// Text in a role.
pub open spec fn says(text: Seq<char>, tone: Tone) -> SpanView {
    SpanView::Text { text, tone, bold: false }
}

/// Text in a role, in bold type.
pub open spec fn says_bold(text: Seq<char>, tone: Tone) -> SpanView {
    SpanView::Text { text, tone, bold: true }
}

/// Whether a line is made of these pieces.
pub open spec fn reads(line: LineView, spans: Seq<SpanView>) -> bool {
    line matches LineView::Spans(pieces) && pieces =~= spans
}

/// The status line tells of a scan exactly while one is under way; else it tells how many
/// projects there are and which key signs, and names the keys that can be pressed.
pub proof fn status_tells_of_scans(s: AppView)
    ensures
        s.loading ==> ui::screen_of(s).status == (StatusView::Scanning {
            label: "MODE"@,
            value: "SCANNING"@,
            tick: s.tick,
        }),
        !s.loading ==> {
            let status = ui::screen_of(s).status;
            &&& status is Bar
            &&& status->left.len() == 3
            &&& status->left[0] == ("TROPICAL_PM"@, "v0.2"@)
            &&& status->left[1] == ("REPOS"@, text::decimal(s.projects.len()) + " REPOS"@)
            &&& status->left[2] == ("GPG"@, gpg::short_key_of(s.key))
            &&& status->right.len() == 5
            &&& status->right[0] == ("R"@, "REFRESH"@)
            &&& status->right[1] == ("G"@, "GPG KEY"@)
            &&& status->right[2] == ("T"@, "TEST REMOTE"@)
            &&& status->right[3] == ("C"@, "CREATE"@)
            &&& status->right[4] == ("Q"@, "QUIT"@)
        },
{
}

/// The list has a line for each project in its place. The line tells whether the project is
/// selected, whether it is dirty, its name, whether it is ahead, behind or both, how far it is
/// set up for signing, and how its remote is.
pub proof fn list_tells_of_each_project(s: AppView, i: int)
    requires
        0 <= i < s.projects.len() <= usize::MAX,
    ensures
        ui::screen_of(s).list_title == " PROJECTS "@,
        ui::screen_of(s).items.len() == s.projects.len(),
        ui::screen_of(s).items[i] is Spans,
        ({
            let p = s.projects[i];
            let spans = ui::screen_of(s).items[i]->Spans_0;
            let selected = s.list.selected == Some(i as usize);
            &&& spans.len() == 7
            &&& selected ==> spans[0] == says("❯ "@, Tone::Accent)
            &&& !selected ==> spans[0] == says("  "@, Tone::TextDisabled)
            &&& spans[1] == (SpanView::Dot { warn: p.is_dirty })
            &&& spans[2] == says(" "@, Tone::Plain)
            &&& selected ==> spans[3] == says(p.name@, Tone::Accent)
            &&& !selected ==> spans[3] == says(p.name@, Tone::TextDim)
            &&& p.ahead > 0 && p.behind > 0 ==> spans[4] == says(" ⇅"@, Tone::AccentLight)
            &&& p.ahead > 0 && p.behind == 0 ==> spans[4] == says(" ↑"@, Tone::AccentLight)
            &&& p.ahead == 0 && p.behind > 0 ==> spans[4] == says(" ↓"@, Tone::AccentLight)
            &&& p.ahead == 0 && p.behind == 0 ==> spans[4] == says(""@, Tone::AccentLight)
            &&& p.gpg_status.is_configured ==> spans[5] == says(" ✓"@, Tone::Success)
            &&& !p.gpg_status.is_configured && p.gpg_status.signing_key is Some ==> spans[5] == says(
                " ⚠"@,
                Tone::Warning,
            )
            &&& !p.gpg_status.is_configured && p.gpg_status.signing_key is None ==> spans[5] == says(
                " ○"@,
                Tone::TextDisabled,
            )
            &&& p.remote_status == Some(true) ==> spans[6] == says(" ●"@, Tone::Success)
            &&& p.remote_status == Some(false) ==> spans[6] == says(" ◌"@, Tone::Danger)
            &&& p.remote_status is None ==> spans[6] == says(" -"@, Tone::TextDisabled)
        }),
{
}

/// While something is typed, the pane is a prompt for it that ends with the cursor.
pub proof fn prompts_show_what_is_typed(s: AppView, title: Seq<char>, now: i64)
    ensures
        s.mode == InputMode::CreatingProject || s.mode == InputMode::ConfigGpgKey ==> {
            let pane = ui::pane_of(s, title, now);
            &&& pane is Some
            &&& pane->0.title == (if s.mode == InputMode::CreatingProject {
                " [ ENTER ] CONFIRM  [ ESC ] CANCEL "@
            } else {
                " [ ENTER ] APPLY TO ALL  [ ESC ] CANCEL "@
            })
            &&& pane->0.title_tone == Tone::InputPrompt
            &&& pane->0.active && !pane->0.wrap
            &&& pane->0.lines.len() == 1
            &&& pane->0.lines[0] is Spans
            &&& pane->0.lines[0]->Spans_0.len() == 3
            &&& pane->0.lines[0]->Spans_0[0] == says(
                if s.mode == InputMode::CreatingProject {
                    "  NEW PROJECT  ❯  "@
                } else {
                    "  GPG SIGNING KEY  ❯  "@
                },
                Tone::Accent,
            )
            &&& pane->0.lines[0]->Spans_0[1] == says(s.buffer, Tone::Text)
            &&& pane->0.lines[0]->Spans_0[2] == (SpanView::Cursor { tick: s.tick })
        },
{
}

/// Where nothing is typed and nothing selected, the pane says why: a scan is under way, there
/// are no projects, or none is selected.
pub proof fn empty_panes_say_why(s: AppView, title: Seq<char>, now: i64)
    requires
        s.mode == InputMode::Normal || s.mode == InputMode::ConfirmAction,
        s.list.selected is None,
    ensures
        ({
            let pane = ui::pane_of(s, title, now);
            let why = if s.loading {
                "  Scanning repositories…"@
            } else if s.projects.len() == 0 {
                "  No projects found. Press [R] to refresh."@
            } else {
                "  Select a project."@
            };
            &&& pane is Some
            &&& pane->0.title == " DETAILS "@
            &&& pane->0.title_tone == Tone::BlockTitle
            &&& !pane->0.active && !pane->0.wrap
            &&& pane->0.lines.len() == 1
            &&& reads(pane->0.lines[0], seq![says(why, Tone::TextDisabled)])
        }),
{
}

/// Where nothing is typed, the pane tells all about the project that is selected; where the
/// selection is beyond the end of the list there is no pane.
pub proof fn panes_tell_of_the_selected_project(s: AppView, title: Seq<char>, now: i64, i: usize)
    requires
        s.mode == InputMode::Normal || s.mode == InputMode::ConfirmAction,
        s.list.selected == Some(i),
    ensures
        i >= s.projects.len() ==> ui::pane_of(s, title, now) is None && ui::shown_project(s) is None,
        i < s.projects.len() ==> {
            &&& ui::pane_of(s, title, now) == Some(
                PanelView {
                    title: " DETAILS "@,
                    title_tone: Tone::BlockTitle,
                    active: true,
                    wrap: true,
                    lines: details::detail_lines(s.projects[i as int], title, now),
                },
            )
            &&& ui::shown_project(s) == Some(s.projects[i as int])
            &&& ui::title_of(s) == ui::uppercase(s.projects[i as int].name@)
        },
{
}

/// No project is shown while something is typed, nor where none is selected.
pub proof fn no_project_behind_prompts(s: AppView)
    requires
        s.mode == InputMode::CreatingProject || s.mode == InputMode::ConfigGpgKey
            || s.list.selected is None,
    ensures
        ui::shown_project(s) is None,
        ui::title_of(s) == ""@,
{
}

/// The pane begins with the title, the project's place, its branch, and whether it is clean.
pub proof fn details_begin_with_the_place(p: Project, title: Seq<char>, now: i64)
    ensures
        ({
            let lines = details::detail_lines(p, title, now);
            &&& lines.len() > 6
            &&& lines[0] == LineView::Header(title)
            &&& reads(lines[1], Seq::empty())
            &&& reads(
                lines[2],
                seq![
                    SpanView::Tree { last: false },
                    says("PATH    "@, Tone::Label),
                    says(p.path@, Tone::TextMuted),
                ],
            )
            &&& lines[3] is Spans
            &&& lines[4] is Spans
            &&& reads(lines[5], Seq::empty())
        }),
{
}

/// The pane names the branch and tells how far it is ahead and how far behind, each exactly
/// where it is, whatever the other is; a branch that is neither is told to be synced.
pub proof fn details_tell_how_far_the_branch_is(p: Project, title: Seq<char>, now: i64)
    ensures
        ({
            let spans = details::detail_lines(p, title, now)[3]->Spans_0;
            let up = says_bold("↑"@ + text::decimal(p.ahead as nat) + " "@, Tone::GitAhead);
            let down = says_bold("↓"@ + text::decimal(p.behind as nat) + " "@, Tone::GitBehind);
            &&& spans.len() >= 4
            &&& spans[0] == (SpanView::Tree { last: false })
            &&& spans[1] == says("BRANCH  "@, Tone::Label)
            &&& spans[2] == says(p.current_branch@, Tone::BranchName)
            &&& p.ahead == 0 && p.behind == 0 ==> spans.len() == 4 && spans[3] == says(
                "  synced"@,
                Tone::TextDisabled,
            )
            &&& p.ahead > 0 || p.behind > 0 ==> spans[3] == says("  "@, Tone::TextMuted)
            &&& p.ahead > 0 && p.behind == 0 ==> spans.len() == 5 && spans[4] == up
            &&& p.ahead == 0 && p.behind > 0 ==> spans.len() == 5 && spans[4] == down
            &&& p.ahead > 0 && p.behind > 0 ==> spans.len() == 6 && spans[4] == up && spans[5] == down
        }),
{
    let lines = details::detail_lines(p, title, now);
    assert(lines[3] == details::branch_line(p));
}

/// The pane says that a project is clean, or that it is dirty and how many of its changes are
/// of which kind: a kind is named exactly where there is a change of it.
pub proof fn details_tell_how_dirty_it_is(p: Project, title: Seq<char>, now: i64)
    ensures
        ({
            let spans = details::detail_lines(p, title, now)[4]->Spans_0;
            let modified: int = if p.modified > 0 {
                1
            } else {
                0
            };
            let untracked: int = if p.untracked > 0 {
                1
            } else {
                0
            };
            let deleted: int = if p.deleted > 0 {
                1
            } else {
                0
            };
            &&& spans.len() >= 3
            &&& spans[0] == (SpanView::Tree { last: true })
            &&& spans[1] == says("STATUS  "@, Tone::Label)
            &&& !p.is_dirty ==> spans.len() == 3 && spans[2] == says_bold("CLEAN"@, Tone::GitClean)
            &&& p.is_dirty ==> {
                &&& spans.len() == 5 + modified + untracked + deleted
                &&& spans[2] == says_bold("DIRTY"@, Tone::GitDirty)
                &&& spans[3] == says("  ["@, Tone::TextMuted)
                &&& p.modified > 0 ==> spans[4] == says(
                    "~"@ + text::decimal(p.modified as nat) + " "@,
                    Tone::GitModified,
                )
                &&& p.untracked > 0 ==> spans[4 + modified] == says(
                    "+"@ + text::decimal(p.untracked as nat) + " "@,
                    Tone::GitUntracked,
                )
                &&& p.deleted > 0 ==> spans[4 + modified + untracked] == says(
                    "-"@ + text::decimal(p.deleted as nat) + " "@,
                    Tone::GitDeleted,
                )
                &&& spans.last() == says("]"@, Tone::TextMuted)
            }
        }),
{
    let lines = details::detail_lines(p, title, now);
    assert(lines[4] == details::state_line(p));
}

/// The pane tells how far the project is set up for signing, with the key where it is; and
/// whether keys are retrieved.
pub proof fn details_tell_of_signing(p: Project, title: Seq<char>, now: i64)
    ensures
        ({
            let lines = details::detail_lines(p, title, now);
            let indent = says("  "@, Tone::TextMuted);
            &&& lines.len() > 10
            &&& lines[6] == LineView::Header("GPG SIGNING"@)
            &&& p.gpg_status.is_configured ==> reads(
                lines[7],
                seq![
                    indent,
                    says_bold("✓ CONFIGURED"@, Tone::Success),
                    indent,
                    says(
                        match p.gpg_status.signing_key {
                            Some(k) => k@,
                            None => ""@,
                        },
                        Tone::TextDim,
                    ),
                ],
            )
            &&& !p.gpg_status.is_configured && p.gpg_status.signing_key is Some ==> reads(
                lines[7],
                seq![
                    indent,
                    says_bold("⚠ PARTIAL"@, Tone::Warning),
                    says("  (gpgsign not enabled)"@, Tone::TextDisabled),
                ],
            )
            &&& !p.gpg_status.is_configured && p.gpg_status.signing_key is None ==> reads(
                lines[7],
                seq![indent, says("○ NOT CONFIGURED"@, Tone::TextDisabled)],
            )
            &&& p.gpg_status.auto_retrieve ==> reads(
                lines[8],
                seq![indent, says("✓ autoKeyRetrieve enabled"@, Tone::TextDim)],
            ) && reads(lines[9], Seq::empty())
            &&& !p.gpg_status.auto_retrieve ==> reads(lines[8], Seq::empty())
        }),
{
    let lines = details::detail_lines(p, title, now);
    assert(lines[7] == details::signing_line(p));
    assert(lines[8] == details::signing_section(p)[2]);
    if p.gpg_status.auto_retrieve {
        assert(lines[9] == details::signing_section(p)[3]);
    }
}

/// In which line of the pane the section on the remote begins.
pub open spec fn remote_at(p: Project) -> int {
    if p.gpg_status.auto_retrieve {
        10
    } else {
        9
    }
}

/// The pane tells how the remote is.
pub proof fn details_tell_of_the_remote(p: Project, title: Seq<char>, now: i64)
    ensures
        ({
            let lines = details::detail_lines(p, title, now);
            let at = remote_at(p);
            let indent = says("  "@, Tone::TextMuted);
            &&& lines.len() > at + 2
            &&& lines[at] == LineView::Header("REMOTE CONNECTION"@)
            &&& p.remote_status == Some(true) ==> reads(
                lines[at + 1],
                seq![indent, says_bold("● CONNECTED"@, Tone::Success)],
            )
            &&& p.remote_status == Some(false) ==> reads(
                lines[at + 1],
                seq![indent, says_bold("◌ FAILED"@, Tone::Danger)],
            )
            &&& p.remote_status is None ==> reads(
                lines[at + 1],
                seq![indent, says("- NO REMOTE"@, Tone::TextDisabled)],
            )
            &&& reads(lines[at + 2], Seq::empty())
        }),
{
    let lines = details::detail_lines(p, title, now);
    assert(lines[remote_at(p) + 1] == details::remote_section(p)[1]);
}

/// The pane tells how long ago the last commit was and what it says, without white space at
/// its ends; or that there is none.
pub proof fn details_tell_of_the_last_commit(p: Project, title: Seq<char>, now: i64)
    ensures
        ({
            let lines = details::detail_lines(p, title, now);
            let at = remote_at(p) + 3;
            let message = match p.last_commit_msg {
                Some(m) => text::trimmed(m@),
                None => text::trimmed("no commits"@),
            };
            &&& lines.len() > at + 2
            &&& lines[at] == LineView::Header("LAST COMMIT"@)
            &&& reads(
                lines[at + 1],
                seq![
                    says("  "@, Tone::TextMuted),
                    says(time_ago::time_ago(p.last_commit_time, now), Tone::TextDim),
                ],
            )
            &&& reads(lines[at + 2], seq![says("  "@ + message, Tone::CommitMsg)])
        }),
{
    let lines = details::detail_lines(p, title, now);
    assert(lines[remote_at(p) + 4] == details::commit_section(p, now)[1]);
    assert(lines[remote_at(p) + 5] == details::commit_section(p, now)[2]);
}

/// In which line of the pane the section on the changes begins.
pub open spec fn changes_at(p: Project) -> int {
    if p.github_stats is Some {
        remote_at(p) + 10
    } else {
        remote_at(p) + 6
    }
}

/// The pane tells what GitHub says of the project, exactly where it says something: its stars,
/// forks and open issues, and its address.
pub proof fn details_tell_of_github(p: Project, title: Seq<char>, now: i64)
    ensures
        p.github_stats matches Some(gh) ==> {
            let lines = details::detail_lines(p, title, now);
            let at = remote_at(p) + 6;
            &&& lines.len() > at + 3
            &&& reads(lines[at], Seq::empty())
            &&& lines[at + 1] == LineView::Header("GITHUB"@)
            &&& reads(
                lines[at + 2],
                seq![
                    says("  ★ "@, Tone::GithubStats),
                    says_bold(text::decimal(gh.stars as nat), Tone::GithubStats),
                    says("  ⑂ "@, Tone::TextMuted),
                    says(text::decimal(gh.forks as nat), Tone::TextDim),
                    says("  ⚐ "@, Tone::TextMuted),
                    says(text::decimal(gh.open_issues as nat), Tone::TextDim),
                ],
            )
            &&& reads(
                lines[at + 3],
                seq![says("  "@, Tone::TextMuted), says(gh.url@, Tone::Link)],
            )
        },
{
    let lines = details::detail_lines(p, title, now);
    if p.github_stats is Some {
        let section = details::github_section(p.github_stats);
        assert(lines[remote_at(p) + 8] == section[2]);
        assert(lines[remote_at(p) + 9] == section[3]);
    }
}

/// The pane ends with the changes: that there are none, or those that are listed, each with
/// the sign of its kind and its path, and how many more there are, where there are more. Only
/// the last line ends the tree.
pub proof fn details_end_with_the_changes(p: Project, title: Seq<char>, now: i64, i: int)
    ensures
        ({
            let lines = details::detail_lines(p, title, now);
            let at = changes_at(p);
            let shown = p.changed_files@.len() as int;
            let total = p.modified + p.untracked + p.deleted;
            &&& lines.len() >= at + 2
            &&& reads(lines[at], Seq::empty())
            &&& !p.is_dirty ==> lines.len() == at + 2 && reads(
                lines[at + 1],
                seq![
                    says("  "@, Tone::TextMuted),
                    says_bold("✓ workspace clean"@, Tone::GitClean),
                ],
            )
            &&& p.is_dirty ==> lines[at + 1] == LineView::Header("CHANGES"@)
            &&& p.is_dirty && total <= shown ==> lines.len() == at + 2 + shown
            &&& p.is_dirty && total > shown ==> lines.len() == at + 3 + shown && reads(
                lines.last(),
                seq![
                    SpanView::Tree { last: true },
                    says(
                        "… "@ + text::decimal((total - shown) as nat) + " more"@,
                        Tone::TextDisabled,
                    ),
                ],
            )
            &&& p.is_dirty && 0 <= i < shown ==> {
                let file = p.changed_files@[i];
                reads(
                    lines[at + 2 + i],
                    seq![
                        SpanView::Tree { last: total <= shown && i == shown - 1 },
                        match file.1 {
                            FileStatusType::Modified => says_bold("~"@ + " "@, Tone::GitModified),
                            FileStatusType::Untracked => says_bold("+"@ + " "@, Tone::GitUntracked),
                            FileStatusType::Deleted => says_bold("-"@ + " "@, Tone::GitDeleted),
                        },
                        says(file.0@, Tone::TextDim),
                    ],
                )
            }
        }),
{
    let lines = details::detail_lines(p, title, now);
    let at = changes_at(p);
    let section = details::changes_section(p);
    let files = changes::files_view(p.changed_files@);
    let total = p.modified + p.untracked + p.deleted;
    let shown = files.len() as int;
    listed_line_by_line(files, total, shown);
    assert(lines.len() == at + section.len());
    assert forall|k: int| 0 <= k < section.len() implies #[trigger] section[k] == lines[at + k] by {}
    if p.is_dirty {
        let listed = details::change_lines(files, total, shown);
        assert(section[0] == lines[at]);
        assert(section[1] == lines[at + 1]);
        if 0 <= i < shown {
            assert(section[2 + i] == listed[i]);
            assert(section[2 + i] == lines[at + 2 + i]);
            assert(files[i] == (p.changed_files@[i].0@, p.changed_files@[i].1));
        }
        if total > shown {
            assert(section[2 + shown] == lines.last());
        }
    } else {
        assert(section[0] == lines[at]);
        assert(section[1] == lines[at + 1]);
    }
}

proof fn listed_line_by_line(files: Seq<(Seq<char>, FileStatusType)>, total: int, n: int)
    requires
        0 <= n <= files.len(),
    ensures
        details::change_lines(files, total, n).len() == n,
        forall|i: int|
            0 <= i < n ==> #[trigger] details::change_lines(files, total, n)[i]
                == details::change_line(files[i], i + 1 == files.len() && total <= files.len()),
    decreases n,
{
    if n > 0 {
        listed_line_by_line(files, total, n - 1);
    }
}

/// The status line and the list can be drawn with every key of ASCII characters, and with any
/// other that can be shortened, and with no other.
pub proof fn most_states_can_be_drawn(s: AppView)
    ensures
        vstd::utf8::is_ascii_chars(s.key) ==> ui::can_draw(s),
        vstd::utf8::encode_utf8(s.key).len() <= 8 ==> ui::can_draw(s),
        ui::can_draw(s) <==> gpg::can_shorten(s.key),
{
    if vstd::utf8::is_ascii_chars(s.key) {
        gpg::ascii_keys_shorten_to_last_eight(s.key);
    }
}

/// The pane can be drawn wherever no project is shown but for a message while a key is typed,
/// and for every project that a scan came back with.
pub proof fn scanned_projects_can_be_shown(
    s: AppView,
    found: Seq<RepoFacts>,
    gpg_key: Seq<char>,
)
    ensures
        s.mode == InputMode::CreatingProject ==> ui::can_draw_pane(s),
        s.mode == InputMode::ConfigGpgKey ==> (ui::can_draw_pane(s) <==> s.message is None),
        s.mode == InputMode::Normal || s.mode == InputMode::ConfirmAction ==> (s.list.selected is None
            || s.list.selected->0 >= s.projects.len() ==> ui::can_draw_pane(s)),
        scan::is_scan_of(s.projects, found, gpg_key) && s.mode != InputMode::ConfigGpgKey
            ==> ui::can_draw_pane(s),
{
    if scan::is_scan_of(s.projects, found, gpg_key) {
        scan::scan_is_faithful(s.projects, found, gpg_key);
        if let Some(p) = ui::shown_project(s) {
            let i = s.list.selected->0 as int;
            assert(s.projects[i].countable());
        }
    }
}

/// The views of what is on the screen hide nothing of it.
pub proof fn screen_views_hide_nothing(
    span: Span,
    line: Line,
    panel: Panel,
    status: StatusLine,
    screen: Screen,
)
    ensures
        span matches Span::Text { text, tone, bold } ==> span@ == (SpanView::Text {
            text: text@,
            tone,
            bold,
        }),
        span matches Span::Dot { warn } ==> span@ == (SpanView::Dot { warn }),
        span matches Span::Tree { last } ==> span@ == (SpanView::Tree { last }),
        span matches Span::Cursor { tick } ==> span@ == (SpanView::Cursor { tick }),
        line matches Line::Header(title) ==> line@ == LineView::Header(title@),
        line matches Line::Spans(spans) ==> {
            &&& line@ is Spans
            &&& line@->Spans_0.len() == spans@.len()
            &&& forall|i: int| 0 <= i < spans@.len() ==> #[trigger] line@->Spans_0[i] == spans@[i]@
        },
        panel@.title == panel.title@,
        panel@.title_tone == panel.title_tone,
        panel@.active == panel.active,
        panel@.wrap == panel.wrap,
        panel@.lines.len() == panel.lines@.len(),
        forall|i: int|
            0 <= i < panel.lines@.len() ==> #[trigger] panel@.lines[i] == panel.lines@[i]@,
        status matches StatusLine::Scanning { label, value, tick } ==> status@ == (
        StatusView::Scanning { label: label@, value: value@, tick }),
        status matches StatusLine::Bar { left, right } ==> {
            &&& status@ is Bar
            &&& status@->left.len() == left@.len()
            &&& status@->right.len() == right@.len()
            &&& forall|i: int|
                0 <= i < left@.len() ==> (#[trigger] status@->left[i]) == (
                    left@[i].0@,
                    left@[i].1@,
                )
            &&& forall|i: int|
                0 <= i < right@.len() ==> (#[trigger] status@->right[i]) == (
                    right@[i].0@,
                    right@[i].1@,
                )
        },
        screen@.status == screen.status@,
        screen@.list_title == screen.list_title@,
        screen@.items.len() == screen.items@.len(),
        forall|i: int|
            0 <= i < screen.items@.len() ==> #[trigger] screen@.items[i] == screen.items@[i]@,
{
}

} // verus!
