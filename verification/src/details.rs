//! The pane that tells all about one project.

use crate::changes;
use crate::changes::FileStatusType;
use crate::github::GitHubStats;
use crate::project::Project;
use crate::screen;
use crate::screen::{add_line, blank, bold, header, plain, Line, LineView, Span, SpanView, Tone};
use crate::text;
use crate::text::{decimal_of, trim};
use crate::time_ago;
use crate::time_ago::describe_elapsed;
use vstd::prelude::*;
use vstd::string::StringExecFns;

verus! {

/// The line with the project's place on disk.
pub open spec fn path_line(p: Project) -> LineView {
    LineView::Spans(
        seq![
            SpanView::Tree { last: false },
            screen::plain_text("PATH    "@, Tone::Label),
            screen::plain_text(p.path@, Tone::TextMuted),
        ],
    )
}

/// How the branch stands to its upstream.
pub open spec fn tracking_spans(p: Project) -> Seq<SpanView> {
    if p.ahead > 0 || p.behind > 0 {
        seq![screen::plain_text("  "@, Tone::TextMuted)] + (if p.ahead > 0 {
            seq![
                screen::bold_text("↑"@ + text::decimal(p.ahead as nat) + " "@, Tone::GitAhead),
            ]
        } else {
            seq![]
        }) + (if p.behind > 0 {
            seq![
                screen::bold_text("↓"@ + text::decimal(p.behind as nat) + " "@, Tone::GitBehind),
            ]
        } else {
            seq![]
        })
    } else {
        seq![screen::plain_text("  synced"@, Tone::TextDisabled)]
    }
}

/// The line with the project's branch.
pub open spec fn branch_line(p: Project) -> LineView {
    LineView::Spans(
        seq![
            SpanView::Tree { last: false },
            screen::plain_text("BRANCH  "@, Tone::Label),
            screen::plain_text(p.current_branch@, Tone::BranchName),
        ] + tracking_spans(p),
    )
}

/// A count with its sign, where there is something to count.
pub open spec fn count_spans(sign: Seq<char>, n: usize, tone: Tone) -> Seq<SpanView> {
    if n > 0 {
        seq![screen::plain_text(sign + text::decimal(n as nat) + " "@, tone)]
    } else {
        seq![]
    }
}

/// The line with the state of the working tree.
pub open spec fn state_line(p: Project) -> LineView {
    LineView::Spans(
        seq![
            SpanView::Tree { last: true },
            screen::plain_text("STATUS  "@, Tone::Label),
            if p.is_dirty {
                screen::bold_text("DIRTY"@, Tone::GitDirty)
            } else {
                screen::bold_text("CLEAN"@, Tone::GitClean)
            },
        ] + (if p.is_dirty {
            seq![screen::plain_text("  ["@, Tone::TextMuted)] + count_spans(
                "~"@,
                p.modified,
                Tone::GitModified,
            ) + count_spans("+"@, p.untracked, Tone::GitUntracked) + count_spans(
                "-"@,
                p.deleted,
                Tone::GitDeleted,
            ) + seq![screen::plain_text("]"@, Tone::TextMuted)]
        } else {
            seq![]
        }),
    )
}

/// The section that says where the project stands.
pub open spec fn head_section(p: Project, title: Seq<char>) -> Seq<LineView> {
    seq![
        LineView::Header(title),
        screen::blank_line(),
        path_line(p),
        branch_line(p),
        state_line(p),
        screen::blank_line(),
    ]
}

/// The line that says how far the project is set up for signing.
pub open spec fn signing_line(p: Project) -> LineView {
    let indent = screen::plain_text("  "@, Tone::TextMuted);
    if p.gpg_status.is_configured {
        LineView::Spans(
            seq![
                indent,
                screen::bold_text("✓ CONFIGURED"@, Tone::Success),
                indent,
                screen::plain_text(
                    match p.gpg_status.signing_key {
                        Some(k) => k@,
                        None => ""@,
                    },
                    Tone::TextDim,
                ),
            ],
        )
    } else if p.gpg_status.signing_key is Some {
        LineView::Spans(
            seq![
                indent,
                screen::bold_text("⚠ PARTIAL"@, Tone::Warning),
                screen::plain_text("  (gpgsign not enabled)"@, Tone::TextDisabled),
            ],
        )
    } else {
        LineView::Spans(
            seq![indent, screen::plain_text("○ NOT CONFIGURED"@, Tone::TextDisabled)],
        )
    }
}

/// The section on signing.
pub open spec fn signing_section(p: Project) -> Seq<LineView> {
    seq![LineView::Header("GPG SIGNING"@), signing_line(p)] + (if p.gpg_status.auto_retrieve {
        seq![
            LineView::Spans(
                seq![
                    screen::plain_text("  "@, Tone::TextMuted),
                    screen::plain_text("✓ autoKeyRetrieve enabled"@, Tone::TextDim),
                ],
            ),
        ]
    } else {
        seq![]
    }) + seq![screen::blank_line()]
}

/// The section on the remote.
pub open spec fn remote_section(p: Project) -> Seq<LineView> {
    seq![
        LineView::Header("REMOTE CONNECTION"@),
        LineView::Spans(
            seq![
                screen::plain_text("  "@, Tone::TextMuted),
                match p.remote_status {
                    Some(true) => screen::bold_text("● CONNECTED"@, Tone::Success),
                    Some(false) => screen::bold_text("◌ FAILED"@, Tone::Danger),
                    None => screen::plain_text("- NO REMOTE"@, Tone::TextDisabled),
                },
            ],
        ),
        screen::blank_line(),
    ]
}

/// The message of the last commit, as it is shown.
pub open spec fn message_text(p: Project) -> Seq<char> {
    "  "@ + text::trimmed(
        match p.last_commit_msg {
            Some(m) => m@,
            None => "no commits"@,
        },
    )
}

/// The section on the last commit.
pub open spec fn commit_section(p: Project, now: i64) -> Seq<LineView> {
    seq![
        LineView::Header("LAST COMMIT"@),
        LineView::Spans(
            seq![
                screen::plain_text("  "@, Tone::TextMuted),
                screen::plain_text(time_ago::time_ago(p.last_commit_time, now), Tone::TextDim),
            ],
        ),
        LineView::Spans(seq![screen::plain_text(message_text(p), Tone::CommitMsg)]),
    ]
}

/// The section on the project's place on GitHub, where it has one.
pub open spec fn github_section(stats: Option<GitHubStats>) -> Seq<LineView> {
    match stats {
        None => seq![],
        Some(gh) => seq![
            screen::blank_line(),
            LineView::Header("GITHUB"@),
            LineView::Spans(
                seq![
                    screen::plain_text("  ★ "@, Tone::GithubStats),
                    screen::bold_text(text::decimal(gh.stars as nat), Tone::GithubStats),
                    screen::plain_text("  ⑂ "@, Tone::TextMuted),
                    screen::plain_text(text::decimal(gh.forks as nat), Tone::TextDim),
                    screen::plain_text("  ⚐ "@, Tone::TextMuted),
                    screen::plain_text(text::decimal(gh.open_issues as nat), Tone::TextDim),
                ],
            ),
            LineView::Spans(
                seq![
                    screen::plain_text("  "@, Tone::TextMuted),
                    screen::plain_text(gh.url@, Tone::Link),
                ],
            ),
        ],
    }
}

/// The sign of a kind of change.
pub open spec fn change_sign(kind: FileStatusType) -> Seq<char> {
    match kind {
        FileStatusType::Modified => "~"@,
        FileStatusType::Untracked => "+"@,
        FileStatusType::Deleted => "-"@,
    }
}

/// The role of a kind of change.
pub open spec fn change_tone(kind: FileStatusType) -> Tone {
    match kind {
        FileStatusType::Modified => Tone::GitModified,
        FileStatusType::Untracked => Tone::GitUntracked,
        FileStatusType::Deleted => Tone::GitDeleted,
    }
}

/// The line of a change: the tree ends with it, or not.
pub open spec fn change_line(file: (Seq<char>, FileStatusType), last: bool) -> LineView {
    LineView::Spans(
        seq![
            SpanView::Tree { last },
            screen::bold_text(change_sign(file.1) + " "@, change_tone(file.1)),
            screen::plain_text(file.0, Tone::TextDim),
        ],
    )
}

/// The lines of the first `n` of the changes listed, out of `total`: the tree ends with the
/// last one listed where none is left out.
pub open spec fn change_lines(
    files: Seq<(Seq<char>, FileStatusType)>,
    total: int,
    n: int,
) -> Seq<LineView>
    decreases n,
{
    if n <= 0 {
        seq![]
    } else {
        change_lines(files, total, n - 1).push(
            change_line(files[n - 1], n == files.len() && total <= files.len()),
        )
    }
}

/// The line that says how many changes are left out.
pub open spec fn more_line(left_out: nat) -> LineView {
    LineView::Spans(
        seq![
            SpanView::Tree { last: true },
            screen::plain_text("… "@ + text::decimal(left_out) + " more"@, Tone::TextDisabled),
        ],
    )
}

/// The number of all changes.
pub open spec fn total_changes(p: Project) -> int {
    p.modified + p.untracked + p.deleted
}

/// The section on the changes in the working tree.
pub open spec fn changes_section(p: Project) -> Seq<LineView> {
    let files = changes::files_view(p.changed_files@);
    let total = total_changes(p);
    if p.is_dirty {
        seq![screen::blank_line(), LineView::Header("CHANGES"@)] + change_lines(
            files,
            total,
            files.len() as int,
        ) + (if total > files.len() {
            seq![more_line((total - files.len()) as nat)]
        } else {
            seq![]
        })
    } else {
        seq![
            screen::blank_line(),
            LineView::Spans(
                seq![
                    screen::plain_text("  "@, Tone::TextMuted),
                    screen::bold_text("✓ workspace clean"@, Tone::GitClean),
                ],
            ),
        ]
    }
}

/// All that is told about a project under `title`, at the time `now`.
pub open spec fn detail_lines(p: Project, title: Seq<char>, now: i64) -> Seq<LineView> {
    head_section(p, title) + signing_section(p) + remote_section(p) + commit_section(p, now)
        + github_section(p.github_stats) + changes_section(p)
}

/// Adds a piece to a line.
fn add_span(spans: &mut Vec<Span>, span: Span)
    ensures
        screen::spans_view(final(spans)@) == screen::spans_view(old(spans)@).push(span@),
{
    spans.push(span);
    assert(screen::spans_view(spans@) =~= screen::spans_view(old(spans)@).push(span@));
}

/// A line of pieces.
fn line_of(spans: Vec<Span>) -> (r: Line)
    ensures
        r@ == LineView::Spans(screen::spans_view(spans@)),
{
    Line::Spans(spans)
}

/// A line of two pieces.
fn line_of_two(a: Span, b: Span) -> (r: Line)
    ensures
        r@ == LineView::Spans(seq![a@, b@]),
{
    let spans: Vec<Span> = vec![a, b];
    assert(screen::spans_view(spans@) =~= seq![a@, b@]);
    Line::Spans(spans)
}

/// A line of three pieces.
fn line_of_three(a: Span, b: Span, c: Span) -> (r: Line)
    ensures
        r@ == LineView::Spans(seq![a@, b@, c@]),
{
    let spans: Vec<Span> = vec![a, b, c];
    assert(screen::spans_view(spans@) =~= seq![a@, b@, c@]);
    Line::Spans(spans)
}

/// A number between a sign and a text.
fn signed(sign: &str, n: usize, after: &str) -> (r: String)
    ensures
        r@ == sign@ + text::decimal(n as nat) + after@,
{
    sign.to_string().concat(decimal_of(n as u64).as_str()).concat(after)
}

fn make_branch_line(p: &Project) -> (r: Line)
    ensures
        r@ == branch_line(*p),
{
    let mut spans: Vec<Span> = Vec::new();
    assert(screen::spans_view(spans@) =~= seq![]);
    add_span(&mut spans, Span::Tree { last: false });
    add_span(&mut spans, plain("BRANCH  ", Tone::Label));
    add_span(&mut spans, plain(p.current_branch.as_str(), Tone::BranchName));
    if p.ahead > 0 || p.behind > 0 {
        add_span(&mut spans, plain("  ", Tone::TextMuted));
        if p.ahead > 0 {
            add_span(&mut spans, bold(signed("↑", p.ahead, " ").as_str(), Tone::GitAhead));
        }
        if p.behind > 0 {
            add_span(&mut spans, bold(signed("↓", p.behind, " ").as_str(), Tone::GitBehind));
        }
    } else {
        add_span(&mut spans, plain("  synced", Tone::TextDisabled));
    }
    let r = line_of(spans);
    assert(r@->Spans_0 =~= branch_line(*p)->Spans_0);
    r
}

fn add_count(spans: &mut Vec<Span>, sign: &str, n: usize, tone: Tone)
    ensures
        screen::spans_view(final(spans)@) == screen::spans_view(old(spans)@) + count_spans(
            sign@,
            n,
            tone,
        ),
{
    if n > 0 {
        add_span(spans, plain(signed(sign, n, " ").as_str(), tone));
    }
    assert(screen::spans_view(spans@) =~= screen::spans_view(old(spans)@) + count_spans(
        sign@,
        n,
        tone,
    ));
}

fn make_state_line(p: &Project) -> (r: Line)
    ensures
        r@ == state_line(*p),
{
    let mut spans: Vec<Span> = Vec::new();
    assert(screen::spans_view(spans@) =~= seq![]);
    add_span(&mut spans, Span::Tree { last: true });
    add_span(&mut spans, plain("STATUS  ", Tone::Label));
    if p.is_dirty {
        add_span(&mut spans, bold("DIRTY", Tone::GitDirty));
        add_span(&mut spans, plain("  [", Tone::TextMuted));
        add_count(&mut spans, "~", p.modified, Tone::GitModified);
        add_count(&mut spans, "+", p.untracked, Tone::GitUntracked);
        add_count(&mut spans, "-", p.deleted, Tone::GitDeleted);
        add_span(&mut spans, plain("]", Tone::TextMuted));
    } else {
        add_span(&mut spans, bold("CLEAN", Tone::GitClean));
    }
    let r = line_of(spans);
    assert(r@->Spans_0 =~= state_line(*p)->Spans_0);
    r
}

fn add_head_section(lines: &mut Vec<Line>, p: &Project, title: &str)
    ensures
        screen::lines_view(final(lines)@) == screen::lines_view(old(lines)@) + head_section(
            *p,
            title@,
        ),
{
    add_line(lines, header(title));
    add_line(lines, blank());
    add_line(
        lines,
        line_of_three(
            Span::Tree { last: false },
            plain("PATH    ", Tone::Label),
            plain(p.path.as_str(), Tone::TextMuted),
        ),
    );
    add_line(lines, make_branch_line(p));
    add_line(lines, make_state_line(p));
    add_line(lines, blank());
    assert(screen::lines_view(lines@) =~= screen::lines_view(old(lines)@) + head_section(
        *p,
        title@,
    ));
}

fn make_signing_line(p: &Project) -> (r: Line)
    ensures
        r@ == signing_line(*p),
{
    if p.gpg_status.is_configured {
        let key = match &p.gpg_status.signing_key {
            Some(k) => k.as_str(),
            None => "",
        };
        let spans: Vec<Span> = vec![
            plain("  ", Tone::TextMuted),
            bold("✓ CONFIGURED", Tone::Success),
            plain("  ", Tone::TextMuted),
            plain(key, Tone::TextDim),
        ];
        let r = line_of(spans);
        assert(r@->Spans_0 =~= signing_line(*p)->Spans_0);
        r
    } else if p.gpg_status.signing_key.is_some() {
        line_of_three(
            plain("  ", Tone::TextMuted),
            bold("⚠ PARTIAL", Tone::Warning),
            plain("  (gpgsign not enabled)", Tone::TextDisabled),
        )
    } else {
        line_of_two(plain("  ", Tone::TextMuted), plain("○ NOT CONFIGURED", Tone::TextDisabled))
    }
}

fn add_signing_section(lines: &mut Vec<Line>, p: &Project)
    ensures
        screen::lines_view(final(lines)@) == screen::lines_view(old(lines)@) + signing_section(*p),
{
    add_line(lines, header("GPG SIGNING"));
    add_line(lines, make_signing_line(p));
    if p.gpg_status.auto_retrieve {
        add_line(
            lines,
            line_of_two(
                plain("  ", Tone::TextMuted),
                plain("✓ autoKeyRetrieve enabled", Tone::TextDim),
            ),
        );
    }
    add_line(lines, blank());
    assert(screen::lines_view(lines@) =~= screen::lines_view(old(lines)@) + signing_section(*p));
}

fn add_remote_section(lines: &mut Vec<Line>, p: &Project)
    ensures
        screen::lines_view(final(lines)@) == screen::lines_view(old(lines)@) + remote_section(*p),
{
    add_line(lines, header("REMOTE CONNECTION"));
    let said = match p.remote_status {
        Some(true) => bold("● CONNECTED", Tone::Success),
        Some(false) => bold("◌ FAILED", Tone::Danger),
        None => plain("- NO REMOTE", Tone::TextDisabled),
    };
    add_line(lines, line_of_two(plain("  ", Tone::TextMuted), said));
    add_line(lines, blank());
    assert(screen::lines_view(lines@) =~= screen::lines_view(old(lines)@) + remote_section(*p));
}

fn add_commit_section(lines: &mut Vec<Line>, p: &Project, now: i64)
    ensures
        screen::lines_view(final(lines)@) == screen::lines_view(old(lines)@) + commit_section(
            *p,
            now,
        ),
{
    add_line(lines, header("LAST COMMIT"));
    let age = describe_elapsed(p.last_commit_time, now);
    add_line(
        lines,
        line_of_two(plain("  ", Tone::TextMuted), plain(age.as_str(), Tone::TextDim)),
    );
    let message = match &p.last_commit_msg {
        Some(m) => m.as_str(),
        None => "no commits",
    };
    let shown = "  ".to_string().concat(trim(message).as_str());
    let spans: Vec<Span> = vec![plain(shown.as_str(), Tone::CommitMsg)];
    assert(screen::spans_view(spans@) =~= seq![screen::plain_text(message_text(*p), Tone::CommitMsg)]);
    add_line(lines, line_of(spans));
    assert(screen::lines_view(lines@) =~= screen::lines_view(old(lines)@) + commit_section(
        *p,
        now,
    ));
}

fn add_github_section(lines: &mut Vec<Line>, stats: &Option<GitHubStats>)
    ensures
        screen::lines_view(final(lines)@) == screen::lines_view(old(lines)@) + github_section(
            *stats,
        ),
{
    if let Some(gh) = stats {
        add_line(lines, blank());
        add_line(lines, header("GITHUB"));
        let spans: Vec<Span> = vec![
            plain("  ★ ", Tone::GithubStats),
            bold(decimal_of(gh.stars as u64).as_str(), Tone::GithubStats),
            plain("  ⑂ ", Tone::TextMuted),
            plain(decimal_of(gh.forks as u64).as_str(), Tone::TextDim),
            plain("  ⚐ ", Tone::TextMuted),
            plain(decimal_of(gh.open_issues as u64).as_str(), Tone::TextDim),
        ];
        let line = line_of(spans);
        assert(line@->Spans_0 =~= github_section(*stats)[2]->Spans_0);
        add_line(lines, line);
        add_line(
            lines,
            line_of_two(plain("  ", Tone::TextMuted), plain(gh.url.as_str(), Tone::Link)),
        );
    }
    assert(screen::lines_view(lines@) =~= screen::lines_view(old(lines)@) + github_section(*stats));
}

fn make_change_line(file: &(String, FileStatusType), last: bool) -> (r: Line)
    ensures
        r@ == change_line((file.0@, file.1), last),
{
    let (sign, tone) = match file.1 {
        FileStatusType::Modified => ("~", Tone::GitModified),
        FileStatusType::Untracked => ("+", Tone::GitUntracked),
        FileStatusType::Deleted => ("-", Tone::GitDeleted),
    };
    line_of_three(
        Span::Tree { last },
        bold(sign.to_string().concat(" ").as_str(), tone),
        plain(file.0.as_str(), Tone::TextDim),
    )
}

fn add_changes_section(lines: &mut Vec<Line>, p: &Project)
    requires
        p.is_dirty ==> p.countable(),
    ensures
        screen::lines_view(final(lines)@) == screen::lines_view(old(lines)@) + changes_section(*p),
{
    add_line(lines, blank());
    if p.is_dirty {
        add_line(lines, header("CHANGES"));
        let total: usize = p.modified + p.untracked + p.deleted;
        let shown: usize = p.changed_files.len();
        let ghost files = changes::files_view(p.changed_files@);
        let ghost before = screen::lines_view(lines@);
        let mut i: usize = 0;
        assert(before + change_lines(files, total as int, 0) =~= before);
        while i < shown
            invariant
                i <= shown,
                shown == p.changed_files@.len(),
                files == changes::files_view(p.changed_files@),
                screen::lines_view(lines@) == before + change_lines(files, total as int, i as int),
            decreases shown - i,
        {
            let is_last = i == shown - 1 && total <= shown;
            add_line(lines, make_change_line(&p.changed_files[i], is_last));
            assert(screen::lines_view(lines@) =~= before + change_lines(
                files,
                total as int,
                i + 1,
            ));
            i = i + 1;
        }
        if total > shown {
            add_line(
                lines,
                line_of_two(
                    Span::Tree { last: true },
                    plain(signed("… ", total - shown, " more").as_str(), Tone::TextDisabled),
                ),
            );
        }
    } else {
        add_line(
            lines,
            line_of_two(
                plain("  ", Tone::TextMuted),
                bold("✓ workspace clean", Tone::GitClean),
            ),
        );
    }
    assert(screen::lines_view(lines@) =~= screen::lines_view(old(lines)@) + changes_section(*p));
}

/// All that is told about a project under `title`, at the time `now`.
pub fn describe_project(p: &Project, title: &str, now: i64) -> (r: Vec<Line>)
    requires
        p.is_dirty ==> p.countable(),
    ensures
        screen::lines_view(r@) == detail_lines(*p, title@, now),
{
    let mut lines: Vec<Line> = Vec::new();
    add_head_section(&mut lines, p, title);
    add_signing_section(&mut lines, p);
    add_remote_section(&mut lines, p);
    add_commit_section(&mut lines, p, now);
    add_github_section(&mut lines, &p.github_stats);
    add_changes_section(&mut lines, p);
    assert(screen::lines_view(lines@) =~= detail_lines(*p, title@, now));
    lines
}

} // verus!
