use tropical_pm::app::{App, InputMode};
use tropical_pm::brand::Brand;
use tropical_pm::changes::FileStatusType;
use tropical_pm::github::GitHubStats;
use tropical_pm::gpg::GpgStatus;
use tropical_pm::layout::{divide, Area};
use tropical_pm::list::ListState;
use tropical_pm::project::Project;
use tropical_pm::screen::{Line, Screen, Span, StatusLine, Tone};
use tropical_pm::text::{contains, decimal_of, find_chars, same_text, starts_with, trim};
use tropical_pm::time_ago::{clock_seconds, current_seconds, describe_elapsed, format_time_ago};
use tropical_pm::ui::{compose_pane, is_drawable, is_pane_drawable, pane, project_shown, ui};

fn project(name: &str) -> Project {
    Project {
        name: name.to_string(),
        path: "/work/x".to_string(),
        current_branch: "main".to_string(),
        is_dirty: false,
        untracked: 0,
        modified: 0,
        deleted: 0,
        changed_files: vec![],
        ahead: 0,
        behind: 0,
        last_commit_msg: Some("  tidy up ".to_string()),
        last_commit_time: 1000,
        github_stats: None,
        gpg_status: GpgStatus { is_configured: false, signing_key: None, auto_retrieve: false },
        remote_status: None,
    }
}

fn app_with(projects: Vec<Project>) -> App {
    let mut app = App::new(Brand::Tropical);
    app.receive_projects(projects);
    app
}

fn screen_for(app: &App) -> Screen {
    ui(app, Area { x: 0, y: 0, width: 80, height: 24 }).0
}

fn text_of(line: &Line) -> String {
    match line {
        Line::Header(t) => format!("# {}", t),
        Line::Spans(spans) => {
            let mut r = String::new();
            for s in spans {
                match s {
                    Span::Text { text, .. } => r.push_str(text),
                    Span::Dot { warn } => r.push(if *warn { '!' } else { '.' }),
                    Span::Tree { last } => r.push(if *last { 'L' } else { 'T' }),
                    Span::Cursor { .. } => r.push('_'),
                }
            }
            r
        }
    }
}

fn texts(lines: &Vec<Line>) -> Vec<String> {
    lines.iter().map(text_of).collect()
}

#[test]
fn time_in_words() {
    assert_eq!(describe_elapsed(0, 99), "unknown");
    assert_eq!(describe_elapsed(100, 159), "just now");
    assert_eq!(describe_elapsed(100, 160), "1 min ago");
    assert_eq!(describe_elapsed(100, 3699), "59 min ago");
    assert_eq!(describe_elapsed(100, 3700), "1 hr ago");
    assert_eq!(describe_elapsed(100, 100 + 86399), "23 hr ago");
    assert_eq!(describe_elapsed(100, 100 + 86400), "1 days ago");
    assert_eq!(describe_elapsed(100, 100 + 2591999), "29 days ago");
    assert_eq!(describe_elapsed(100, 100 + 2592000), "1 mo ago");
    assert_eq!(describe_elapsed(100, 100 + 31535999), "12 mo ago");
    assert_eq!(describe_elapsed(100, 100 + 31536000), "1 yr ago");
    assert_eq!(describe_elapsed(-31536000, 0), "1 yr ago");
    assert_eq!(describe_elapsed(500, 100), "just now");
}

#[test]
fn older_moments_read_as_older() {
    let units = ["now", "min", "hr", "days", "mo", "yr"];
    let now = 2_000_000_000;
    let mut last = (0, 0);
    let mut span = 1;
    while span < now {
        let words = describe_elapsed(now - span, now);
        let unit = units.iter().position(|u| words.split(' ').any(|w| w == *u)).unwrap();
        let count: i64 = words.split(' ').next().unwrap().parse().unwrap_or(0);
        assert!((unit, count) >= last);
        last = (unit, count);
        span += 1 + span / 7;
    }
    assert_eq!(last.0, 5);
}

#[test]
fn time_by_the_clock() {
    assert_eq!(format_time_ago(0), "unknown");
    let now = current_seconds();
    assert!(now > 1_600_000_000);
    assert_eq!(format_time_ago(now - 7200), "2 hr ago");
    assert_eq!(format_time_ago(now + 7200), "just now");
    assert_eq!(clock_seconds(None), 0);
    assert_eq!(clock_seconds(Some(12)), 12);
}

#[test]
fn numerals() {
    for n in [0u64, 7, 10, 99, 100, 1234567890, u64::MAX] {
        assert_eq!(decimal_of(n), format!("{}", n));
    }
}

#[test]
fn texts_are_searched_and_trimmed() {
    for (s, p) in [("", ""), ("abc", ""), ("abc", "bc"), ("abc", "ac"), ("aab", "ab"), ("é", "éé")] {
        assert_eq!(contains(s, p), s.contains(p));
        assert_eq!(starts_with(s, p), s.starts_with(p));
        assert_eq!(same_text(s, p), s == p);
    }
    let chars: Vec<char> = "xxabxxab".chars().collect();
    assert_eq!(find_chars(&chars, &vec!['a', 'b']), Some(2));
    assert_eq!(find_chars(&chars, &vec!['b', 'a']), None);
    for s in ["", " ", "a", " a b\t\n", "\u{2003}x\u{85}", "\u{200b}x", "\u{180e}"] {
        assert_eq!(trim(s), s.trim());
    }
}

#[test]
fn trimming_agrees_with_std_on_every_character() {
    for v in 0..=0x10ffffu32 {
        if let Some(c) = char::from_u32(v) {
            if c.is_whitespace() {
                assert_eq!(trim(&format!("{}x{}", c, c)), "x");
            }
        }
    }
}

#[test]
fn status_while_scanning() {
    let mut app = App::new(Brand::Tropical);
    app.tick = 7;
    let s = screen_for(&app);
    assert_eq!(
        s.status,
        StatusLine::Scanning { label: "MODE".to_string(), value: "SCANNING".to_string(), tick: 7 }
    );
    assert_eq!(texts(&compose_pane(&app, "", 0).unwrap().lines), vec!["  Scanning repositories…"]);
}

#[test]
fn status_at_rest() {
    let app = app_with(vec![project("a"), project("b")]);
    let s = screen_for(&app);
    match s.status {
        StatusLine::Bar { left, right } => {
            assert_eq!(left[0], ("TROPICAL_PM".to_string(), "v0.2".to_string()));
            assert_eq!(left[1], ("REPOS".to_string(), "2 REPOS".to_string()));
            assert_eq!(left[2], ("GPG".to_string(), "FAB91318".to_string()));
            assert_eq!(right.len(), 5);
            assert_eq!(right[4], ("Q".to_string(), "QUIT".to_string()));
        }
        _ => panic!("not at rest"),
    }
}

#[test]
fn placeholders() {
    let app = app_with(vec![]);
    let right = compose_pane(&app, "", 0).unwrap();
    assert_eq!(texts(&right.lines), vec!["  No projects found. Press [R] to refresh."]);
    assert!(!right.active && !right.wrap);
    let mut app = app_with(vec![project("a")]);
    app.list_state.selected = None;
    assert_eq!(texts(&compose_pane(&app, "", 0).unwrap().lines), vec!["  Select a project."]);
    app.list_state.selected = Some(5);
    assert!(compose_pane(&app, "", 0).is_none());
    assert!(project_shown(&app).is_none());
}

#[test]
fn list_items() {
    let mut dirty = project("dirty");
    dirty.is_dirty = true;
    dirty.modified = 1;
    dirty.ahead = 1;
    dirty.behind = 2;
    dirty.gpg_status.signing_key = Some("K".to_string());
    dirty.remote_status = Some(false);
    let mut ahead = project("ahead");
    ahead.ahead = 3;
    ahead.gpg_status.is_configured = true;
    ahead.remote_status = Some(true);
    let mut behind = project("behind");
    behind.behind = 3;
    let app = app_with(vec![project("plain"), dirty, ahead, behind]);
    let s = screen_for(&app);
    assert_eq!(s.list_title, " PROJECTS ");
    assert_eq!(
        texts(&s.items),
        vec![
            "❯ . plain ○ -",
            "  ! dirty ⇅ ⚠ ◌",
            "  . ahead ↑ ✓ ●",
            "  . behind ↓ ○ -",
        ]
    );
    match &s.items[0] {
        Line::Spans(spans) => assert_eq!(
            spans[3],
            Span::Text { text: "plain".to_string(), tone: Tone::Accent, bold: false }
        ),
        _ => panic!("not a line of spans"),
    }
}

#[test]
fn prompts() {
    let mut app = app_with(vec![project("a")]);
    app.input_mode = InputMode::CreatingProject;
    app.input_buffer = "new".to_string();
    let right = compose_pane(&app, "", 0).unwrap();
    assert_eq!(right.title, " [ ENTER ] CONFIRM  [ ESC ] CANCEL ");
    assert_eq!(texts(&right.lines), vec!["  NEW PROJECT  ❯  new_"]);
    assert!(right.active);
    app.input_mode = InputMode::ConfigGpgKey;
    let right = compose_pane(&app, "", 0).unwrap();
    assert_eq!(right.title, " [ ENTER ] APPLY TO ALL  [ ESC ] CANCEL ");
    assert_eq!(texts(&right.lines), vec!["  GPG SIGNING KEY  ❯  new_"]);
}

#[test]
fn clean_project_in_detail() {
    let app = app_with(vec![project("demo")]);
    let right = compose_pane(&app, "DEMO", 1000 + 120).unwrap();
    assert!(right.active && right.wrap);
    assert_eq!(
        texts(&right.lines),
        vec![
            "# DEMO",
            "",
            "TPATH    /work/x",
            "TBRANCH  main  synced",
            "LSTATUS  CLEAN",
            "",
            "# GPG SIGNING",
            "  ○ NOT CONFIGURED",
            "",
            "# REMOTE CONNECTION",
            "  - NO REMOTE",
            "",
            "# LAST COMMIT",
            "  2 min ago",
            "  tidy up",
            "",
            "  ✓ workspace clean",
        ]
    );
}

#[test]
fn dirty_project_in_detail() {
    let mut p = project("demo");
    p.is_dirty = true;
    p.modified = 1;
    p.untracked = 2;
    p.changed_files = vec![
        ("a".to_string(), FileStatusType::Untracked),
        ("b".to_string(), FileStatusType::Untracked),
        ("c".to_string(), FileStatusType::Modified),
    ];
    p.ahead = 2;
    p.behind = 1;
    p.gpg_status = GpgStatus {
        is_configured: true,
        signing_key: Some("KEY".to_string()),
        auto_retrieve: true,
    };
    p.remote_status = Some(true);
    p.last_commit_msg = None;
    p.last_commit_time = 0;
    p.github_stats =
        Some(GitHubStats { stars: 10, forks: 0, open_issues: 3, url: "https://x".to_string() });
    let app = app_with(vec![p]);
    let right = compose_pane(&app, "DEMO", 5).unwrap();
    assert_eq!(
        texts(&right.lines),
        vec![
            "# DEMO",
            "",
            "TPATH    /work/x",
            "TBRANCH  main  ↑2 ↓1 ",
            "LSTATUS  DIRTY  [~1 +2 ]",
            "",
            "# GPG SIGNING",
            "  ✓ CONFIGURED  KEY",
            "  ✓ autoKeyRetrieve enabled",
            "",
            "# REMOTE CONNECTION",
            "  ● CONNECTED",
            "",
            "# LAST COMMIT",
            "  unknown",
            "  no commits",
            "",
            "# GITHUB",
            "  ★ 10  ⑂ 0  ⚐ 3",
            "  https://x",
            "",
            "# CHANGES",
            "T+ a",
            "T+ b",
            "L~ c",
        ]
    );
}

#[test]
fn left_out_changes_are_counted() {
    let mut p = project("demo");
    p.is_dirty = true;
    p.deleted = 20;
    for i in 0..15 {
        p.changed_files.push((format!("f{}", i), FileStatusType::Deleted));
    }
    p.gpg_status.signing_key = Some("K".to_string());
    p.remote_status = Some(false);
    let app = app_with(vec![p]);
    let lines = texts(&compose_pane(&app, "DEMO", 5).unwrap().lines);
    assert_eq!(lines[lines.len() - 1], "L… 5 more");
    assert_eq!(lines[lines.len() - 2], "T- f14");
    assert!(lines.contains(&"  ⚠ PARTIAL  (gpgsign not enabled)".to_string()));
    assert!(lines.contains(&"  ◌ FAILED".to_string()));
    assert!(lines.contains(&"LSTATUS  DIRTY  [-20 ]".to_string()));
}

#[test]
fn what_cannot_be_drawn() {
    let mut app = app_with(vec![project("a")]);
    assert!(is_drawable(&app) && is_pane_drawable(&app));
    app.input_mode = InputMode::ConfigGpgKey;
    assert!(is_pane_drawable(&app));
    app.status_message = Some("m".to_string());
    assert!(!is_pane_drawable(&app));
    app.input_mode = InputMode::Normal;
    assert!(is_pane_drawable(&app));
    app.global_gpg_key = "éééé1".to_string();
    assert!(!is_drawable(&app));
    let mut p = project("b");
    p.modified = usize::MAX;
    p.deleted = 1;
    p.is_dirty = true;
    assert!(!is_pane_drawable(&app_with(vec![p])));
}

#[test]
fn pane_at_present() {
    let app = app_with(vec![project("straße")]);
    let lines = texts(&pane(&app).unwrap().lines);
    assert_eq!(lines[0], "# STRASSE");
    assert!(lines[13].ends_with(" yr ago"));
}

#[test]
fn pane_goes_by_the_list_as_drawn() {
    let mut app = app_with(vec![project("a"), project("b")]);
    app.list_state.selected = Some(7);
    assert!(pane(&app).is_none());
    app.list_drawn(ListState { offset: 1, selected: Some(1) });
    assert_eq!(texts(&pane(&app).unwrap().lines)[0], "# B");
}

#[test]
fn screen_is_divided() {
    let areas = divide(Area { x: 2, y: 3, width: 100, height: 20 });
    assert_eq!(areas.status, Area { x: 2, y: 3, width: 100, height: 1 });
    assert_eq!(areas.body, Area { x: 2, y: 4, width: 100, height: 19 });
    assert_eq!(areas.list, Area { x: 2, y: 4, width: 35, height: 19 });
    assert_eq!(areas.right, Area { x: 37, y: 4, width: 65, height: 19 });
}

fn is_within(part: Area, whole: Area) -> bool {
    let end = |at: u16, size: u16| at as u32 + size as u32;
    part.x >= whole.x
        && part.y >= whole.y
        && end(part.x, part.width) <= end(whole.x, whole.width)
        && end(part.y, part.height) <= end(whole.y, whole.height)
}

#[test]
fn no_part_leaves_the_screen() {
    let starts = [0, 1, 7, 1000, 65534, 65535];
    let sizes = [0, 1, 2, 3, 5, 17, 80, 333, 65535];
    for (x, y) in starts.iter().flat_map(|x| starts.iter().map(move |y| (*x, *y))) {
        for (width, height) in sizes.iter().flat_map(|w| sizes.iter().map(move |h| (*w, *h))) {
            let area = Area { x, y, width, height };
            let parts = divide(area);
            assert!(is_within(parts.status, area) && is_within(parts.body, area));
            assert!(is_within(parts.list, parts.body) && is_within(parts.right, parts.body));
        }
    }
}
