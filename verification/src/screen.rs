//! What the screen holds: text and the role of each piece of it, without colours.

use vstd::prelude::*;

verus! {

/// The role of a piece of text, which a colour scheme gives a style.
#[derive(Clone, Copy, PartialEq, Eq, Structural, Debug)]
pub enum Tone {
    Plain,
    Accent,
    AccentLight,
    Text,
    TextDim,
    TextDisabled,
    TextMuted,
    Label,
    BlockTitle,
    InputPrompt,
    BranchName,
    CommitMsg,
    GitAhead,
    GitBehind,
    GitClean,
    GitDirty,
    GitDeleted,
    GitModified,
    GitUntracked,
    GithubStats,
    Link,
    Success,
    Warning,
    Danger,
}

/// A piece of a line.
#[derive(PartialEq, Eq, Debug)]
pub enum Span {
    Text { text: String, tone: Tone, bold: bool },
    /// The dot before a project: a warning, or not.
    Dot { warn: bool },
    /// The mark before an item of a tree: its last item, or not.
    Tree { last: bool },
    /// The cursor, as it looks at this tick.
    Cursor { tick: u8 },
}

/// A line of text.
#[derive(PartialEq, Eq, Debug)]
pub enum Line {
    Spans(Vec<Span>),
    /// The header of a section.
    Header(String),
}

/// A framed pane.
#[derive(PartialEq, Eq, Debug)]
pub struct Panel {
    pub title: String,
    pub title_tone: Tone,
    /// Whether the frame is that of an active pane.
    pub active: bool,
    /// Whether long lines are wrapped.
    pub wrap: bool,
    pub lines: Vec<Line>,
}

/// The line at the top of the screen.
#[derive(PartialEq, Eq, Debug)]
pub enum StatusLine {
    /// A label and a value, with a spinner as it looks at this tick.
    Scanning { label: String, value: String, tick: u8 },
    /// Labels and values on either side.
    Bar { left: Vec<(String, String)>, right: Vec<(String, String)> },
}

/// What the screen holds but for the pane on the right.
#[derive(PartialEq, Eq, Debug)]
pub struct Screen {
    pub status: StatusLine,
    /// The list of projects, below its title.
    pub list_title: String,
    pub items: Vec<Line>,
}

/// A `Span` as characters.
pub enum SpanView {
    Text { text: Seq<char>, tone: Tone, bold: bool },
    Dot { warn: bool },
    Tree { last: bool },
    Cursor { tick: u8 },
}

/// A `Line` as characters.
pub enum LineView {
    Spans(Seq<SpanView>),
    Header(Seq<char>),
}

/// A `Panel` as characters.
pub struct PanelView {
    pub title: Seq<char>,
    pub title_tone: Tone,
    pub active: bool,
    pub wrap: bool,
    pub lines: Seq<LineView>,
}

/// A `StatusLine` as characters.
pub enum StatusView {
    Scanning { label: Seq<char>, value: Seq<char>, tick: u8 },
    Bar { left: Seq<(Seq<char>, Seq<char>)>, right: Seq<(Seq<char>, Seq<char>)> },
}

/// A `Screen` as characters.
pub struct ScreenView {
    pub status: StatusView,
    pub list_title: Seq<char>,
    pub items: Seq<LineView>,
}

impl View for Span {
    type V = SpanView;

    open spec fn view(&self) -> SpanView {
        match self {
            Span::Text { text, tone, bold } => SpanView::Text {
                text: text@,
                tone: *tone,
                bold: *bold,
            },
            Span::Dot { warn } => SpanView::Dot { warn: *warn },
            Span::Tree { last } => SpanView::Tree { last: *last },
            Span::Cursor { tick } => SpanView::Cursor { tick: *tick },
        }
    }
}

/// The pieces of a line as characters.
pub open spec fn spans_view(spans: Seq<Span>) -> Seq<SpanView> {
    spans.map_values(|s: Span| s@)
}

impl View for Line {
    type V = LineView;

    open spec fn view(&self) -> LineView {
        match self {
            Line::Spans(spans) => LineView::Spans(spans_view(spans@)),
            Line::Header(title) => LineView::Header(title@),
        }
    }
}

/// Lines as characters.
pub open spec fn lines_view(lines: Seq<Line>) -> Seq<LineView> {
    lines.map_values(|l: Line| l@)
}

/// Labels and values as characters.
pub open spec fn pairs_view(pairs: Seq<(String, String)>) -> Seq<(Seq<char>, Seq<char>)> {
    pairs.map_values(|p: (String, String)| (p.0@, p.1@))
}

impl View for Panel {
    type V = PanelView;

    open spec fn view(&self) -> PanelView {
        PanelView {
            title: self.title@,
            title_tone: self.title_tone,
            active: self.active,
            wrap: self.wrap,
            lines: lines_view(self.lines@),
        }
    }
}

impl View for StatusLine {
    type V = StatusView;

    open spec fn view(&self) -> StatusView {
        match self {
            StatusLine::Scanning { label, value, tick } => StatusView::Scanning {
                label: label@,
                value: value@,
                tick: *tick,
            },
            StatusLine::Bar { left, right } => StatusView::Bar {
                left: pairs_view(left@),
                right: pairs_view(right@),
            },
        }
    }
}

impl View for Screen {
    type V = ScreenView;

    open spec fn view(&self) -> ScreenView {
        ScreenView {
            status: self.status@,
            list_title: self.list_title@,
            items: lines_view(self.items@),
        }
    }
}

/// Text in a role.
pub open spec fn plain_text(text: Seq<char>, tone: Tone) -> SpanView {
    SpanView::Text { text, tone, bold: false }
}

/// Text in a role, in bold type.
pub open spec fn bold_text(text: Seq<char>, tone: Tone) -> SpanView {
    SpanView::Text { text, tone, bold: true }
}

/// A line without text.
pub open spec fn blank_line() -> LineView {
    LineView::Spans(Seq::empty())
}

/// Text in a role.
pub fn plain(text: &str, tone: Tone) -> (r: Span)
    ensures
        r@ == plain_text(text@, tone),
{
    Span::Text { text: text.to_string(), tone, bold: false }
}

/// Text in a role, in bold type.
pub fn bold(text: &str, tone: Tone) -> (r: Span)
    ensures
        r@ == bold_text(text@, tone),
{
    Span::Text { text: text.to_string(), tone, bold: true }
}

/// A line without text.
pub fn blank() -> (r: Line)
    ensures
        r@ == blank_line(),
{
    let r = Line::Spans(Vec::new());
    assert(r@->Spans_0 =~= Seq::empty());
    r
}

/// The header of a section.
pub fn header(title: &str) -> (r: Line)
    ensures
        r@ == LineView::Header(title@),
{
    Line::Header(title.to_string())
}

/// Adds a line below the others.
pub fn add_line(lines: &mut Vec<Line>, line: Line)
    ensures
        lines_view(final(lines)@) == lines_view(old(lines)@).push(line@),
{
    lines.push(line);
    assert(lines_view(lines@) =~= lines_view(old(lines)@).push(line@));
}

} // verus!
