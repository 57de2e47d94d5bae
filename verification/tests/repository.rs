use tropical_pm::changes::{
    collect_changes, FileStatusType, StatusEntry, INDEX_DELETED, INDEX_MODIFIED, INDEX_NEW,
    INDEX_RENAMED, WT_DELETED, WT_MODIFIED, WT_NEW, WT_RENAMED,
};
use tropical_pm::configure::ConfigureStep;
use tropical_pm::github::{github_request, github_stats, repo_path, GitHubRepoResponse, GitHubStats};
use tropical_pm::gpg::{
    check_gpg_status, gpg_settings, key_can_shorten, next_setting, short_key, SettingValue,
};
use tropical_pm::project::{build_project, CommitFacts, HeadFacts, OriginFacts, RepoFacts};
use tropical_pm::scan::{finish_scan, is_listed, MASTER_DIR, SCAN_MAX_DEPTH, SCAN_MIN_DEPTH};
use tropical_pm::sort::is_text_le;

fn entry(path: &str, status: git2::Status) -> StatusEntry {
    StatusEntry { path: path.to_string(), status: status.bits() }
}

fn facts(name: &str) -> RepoFacts {
    RepoFacts {
        name: name.to_string(),
        path: format!("/work/{}", name),
        head: None,
        statuses: None,
        origin: None,
        config: None,
    }
}

#[test]
fn status_bits_are_those_of_git2() {
    assert_eq!(INDEX_NEW, git2::Status::INDEX_NEW.bits());
    assert_eq!(INDEX_MODIFIED, git2::Status::INDEX_MODIFIED.bits());
    assert_eq!(INDEX_DELETED, git2::Status::INDEX_DELETED.bits());
    assert_eq!(INDEX_RENAMED, git2::Status::INDEX_RENAMED.bits());
    assert_eq!(WT_NEW, git2::Status::WT_NEW.bits());
    assert_eq!(WT_MODIFIED, git2::Status::WT_MODIFIED.bits());
    assert_eq!(WT_DELETED, git2::Status::WT_DELETED.bits());
    assert_eq!(WT_RENAMED, git2::Status::WT_RENAMED.bits());
}

#[test]
fn changes_are_counted_by_kind() {
    let entries = vec![
        entry("a", git2::Status::WT_NEW),
        entry("b", git2::Status::INDEX_NEW | git2::Status::WT_MODIFIED),
        entry("c", git2::Status::INDEX_RENAMED),
        entry("d", git2::Status::WT_RENAMED | git2::Status::INDEX_MODIFIED),
        entry("e", git2::Status::WT_DELETED | git2::Status::INDEX_DELETED),
        entry("f", git2::Status::IGNORED),
        entry("g", git2::Status::WT_TYPECHANGE | git2::Status::CONFLICTED),
        entry("h", git2::Status::CURRENT),
    ];
    let r = collect_changes(&entries);
    assert_eq!((r.untracked, r.modified, r.deleted), (2, 3, 1));
    let listed: Vec<(&str, FileStatusType)> =
        r.changed_files.iter().map(|f| (f.0.as_str(), f.1)).collect();
    assert!(
        listed
            == vec![
                ("a", FileStatusType::Untracked),
                ("b", FileStatusType::Untracked),
                ("b", FileStatusType::Modified),
                ("c", FileStatusType::Modified),
                ("d", FileStatusType::Modified),
                ("e", FileStatusType::Deleted),
            ]
    );
}

#[test]
fn fifteen_changes_are_listed() {
    let mut entries = vec![];
    for i in 0..20 {
        entries.push(entry(&format!("f{}", i), git2::Status::WT_NEW | git2::Status::WT_DELETED));
    }
    let r = collect_changes(&entries);
    assert_eq!((r.untracked, r.modified, r.deleted), (20, 0, 20));
    assert_eq!(r.changed_files.len(), 15);
    assert_eq!(r.changed_files[14].0, "f7");
    assert!(r.changed_files[14].1 == FileStatusType::Untracked);
    let r = collect_changes(&vec![]);
    assert_eq!(r.changed_files.len(), 0);
}

#[test]
fn project_without_anything() {
    let p = build_project(facts("bare"), "KEY");
    assert_eq!(p.name, "bare");
    assert_eq!(p.path, "/work/bare");
    assert_eq!(p.current_branch, "unknown");
    assert!(!p.is_dirty);
    assert_eq!((p.ahead, p.behind), (0, 0));
    assert_eq!(p.last_commit_msg, None);
    assert_eq!(p.last_commit_time, 0);
    assert!(p.github_stats.is_none());
    assert_eq!(p.remote_status, None);
    assert!(!p.gpg_status.is_configured);
}

fn full() -> RepoFacts {
    RepoFacts {
        head: Some(HeadFacts {
            shorthand: Some("main".to_string()),
            commit: Some(CommitFacts { time: 77, summary: Some("first".to_string()) }),
            is_branch: true,
            tracking: Some((2, 5)),
        }),
        statuses: Some(vec![entry("x", git2::Status::WT_MODIFIED)]),
        origin: Some(OriginFacts {
            stats: Some(GitHubStats { stars: 1, forks: 2, open_issues: 3, url: "u".to_string() }),
            connected: true,
        }),
        config: Some("signingkey = KEY\n gpgsign = 1".to_string()),
        ..facts("full")
    }
}

#[test]
fn project_with_everything() {
    let p = build_project(full(), "KEY");
    assert_eq!(p.current_branch, "main");
    assert_eq!((p.ahead, p.behind), (2, 5));
    assert_eq!(p.last_commit_msg.as_deref(), Some("first"));
    assert_eq!(p.last_commit_time, 77);
    assert!(p.is_dirty);
    assert_eq!(p.modified, 1);
    assert_eq!(p.github_stats.map(|s| s.forks), Some(2));
    assert_eq!(p.remote_status, Some(true));
    assert!(p.gpg_status.is_configured);
    assert_eq!(p.gpg_status.signing_key.as_deref(), Some("KEY"));
    assert!(!p.gpg_status.auto_retrieve);
}

#[test]
fn detached_head_tracks_nothing() {
    let mut f = full();
    f.head.as_mut().unwrap().is_branch = false;
    let p = build_project(f, "KEY");
    assert_eq!((p.ahead, p.behind), (0, 0));
    assert_eq!(p.current_branch, "main");
    let mut f = full();
    f.head.as_mut().unwrap().shorthand = None;
    let p = build_project(f, "KEY");
    assert_eq!((p.ahead, p.behind), (0, 0));
    assert_eq!(p.current_branch, "unknown");
    assert_eq!(p.last_commit_time, 77);
}

#[test]
fn failed_connection_is_no_status() {
    let mut f = full();
    f.origin.as_mut().unwrap().connected = false;
    let p = build_project(f, "KEY");
    assert_eq!(p.remote_status, None);
    assert!(p.github_stats.is_some());
}

#[test]
fn scans_come_back_in_order_of_names() {
    let found = vec![facts("beta"), facts("Zeta"), facts("ALPHA"), facts("Ärger"), facts("alpha")];
    let names: Vec<String> = finish_scan(found, "KEY").into_iter().map(|p| p.name).collect();
    assert_eq!(names, vec!["ALPHA", "alpha", "beta", "Zeta", "Ärger"]);
}

#[test]
fn equal_names_stay_as_they_came() {
    let mut found = vec![facts("b"), facts("Same"), facts("SAME"), facts("same"), facts("a")];
    found[1].path = "1".to_string();
    found[2].path = "2".to_string();
    found[3].path = "3".to_string();
    let paths: Vec<String> = finish_scan(found, "KEY").into_iter().map(|p| p.path).collect();
    assert_eq!(paths, vec!["/work/a", "/work/b", "1", "2", "3"]);
    assert_eq!(finish_scan(vec![], "KEY").len(), 0);
}

#[test]
fn listed_entries() {
    assert!(is_listed(true, true, true));
    assert!(!is_listed(false, true, true));
    assert!(!is_listed(true, false, true));
    assert!(!is_listed(true, true, false));
}

#[test]
fn scan_bounds() {
    assert_eq!(MASTER_DIR, "..");
    assert_eq!((SCAN_MIN_DEPTH, SCAN_MAX_DEPTH), (1, 2));
}

#[test]
fn text_order_is_that_of_strings() {
    let words = ["", "a", "ab", "b", "é", "z", "字", "\u{10ffff}"];
    for a in words {
        for b in words {
            assert_eq!(is_text_le(a, b), a <= b);
        }
    }
}

#[test]
fn repo_paths() {
    assert_eq!(repo_path("git@github.com:owner/repo.git").as_deref(), Some("owner/repo"));
    assert_eq!(repo_path("https://github.com/owner/repo.git").as_deref(), Some("owner/repo"));
    assert_eq!(repo_path("http://github.com/owner/repo").as_deref(), Some("owner/repo"));
    assert_eq!(repo_path("https://github.com/o/r.git.git").as_deref(), Some("o/r"));
    assert_eq!(repo_path("https://github.com/o/github.com/r").as_deref(), Some("o/"));
    assert_eq!(repo_path("git@github.com:2222:owner/repo.git"), None);
    assert_eq!(repo_path("git@github.com/owner/repo.git"), None);
    assert_eq!(repo_path("https://github.com"), None);
    assert_eq!(repo_path("ssh://git@github.com/owner/repo.git"), None);
    assert_eq!(repo_path("https://gitlab.com/owner/repo.git"), None);
    assert_eq!(repo_path(""), None);
}

#[test]
fn requests() {
    let q = github_request("git@github.com:o/r.git", None).unwrap();
    assert_eq!(q.url, "https://api.github.com/repos/o/r");
    assert_eq!(
        q.headers,
        vec![("User-Agent".to_string(), "Tropical-ProjectManager".to_string())]
    );
    let q = github_request("https://github.com/o/r", Some("t0k")).unwrap();
    assert_eq!(q.url, "https://api.github.com/repos/o/r");
    assert_eq!(q.headers[1], ("Authorization".to_string(), "Bearer t0k".to_string()));
    assert!(github_request("https://example.org/o/r", Some("t0k")).is_none());
}

#[test]
fn replies() {
    assert!(github_stats(None).is_none());
    let s = github_stats(Some(GitHubRepoResponse {
        stargazers_count: 4,
        forks_count: 5,
        open_issues_count: 6,
        html_url: "https://github.com/o/r".to_string(),
    }))
    .unwrap();
    assert_eq!((s.stars, s.forks, s.open_issues), (4, 5, 6));
    assert_eq!(s.url, "https://github.com/o/r");
}

#[test]
fn signing_states() {
    let none = check_gpg_status(None, "K");
    assert!(!none.is_configured && none.signing_key.is_none() && !none.auto_retrieve);
    let partial = check_gpg_status(Some("[user]\n\tsigningkey = K\n"), "K");
    assert!(!partial.is_configured);
    assert_eq!(partial.signing_key.as_deref(), Some("K"));
    let other = check_gpg_status(Some("signingkey = J\ngpgsign = 1"), "K");
    assert!(!other.is_configured && other.signing_key.is_none());
    let auto = check_gpg_status(Some("autoKeyRetrieve = true"), "K");
    assert!(auto.auto_retrieve);
    assert!(!check_gpg_status(Some("gpgsign = true"), "").is_configured);
}

#[test]
fn written_settings_are_found_again() {
    let mut content = String::new();
    let mut names = vec![];
    for s in gpg_settings("0xKEY") {
        let name = s.name.split('.').nth(1).unwrap().to_string();
        match s.value {
            SettingValue::Number(n) => content.push_str(&format!("\t{} = {}\n", name, n)),
            SettingValue::Text(t) => content.push_str(&format!("\t{} = {}\n", name, t)),
        }
        names.push(s.name);
    }
    assert_eq!(
        names,
        vec!["commit.gpgsign", "user.signingkey", "gpg.program", "gpg.autoKeyRetrieve"]
    );
    let status = check_gpg_status(Some(&content), "0xKEY");
    assert!(status.is_configured && status.auto_retrieve);
    assert_eq!(status.signing_key.as_deref(), Some("0xKEY"));
}

#[test]
fn keys_are_shortened() {
    assert_eq!(short_key("417CAB41FAB91318"), "FAB91318");
    assert_eq!(short_key("12345678"), "12345678");
    assert_eq!(short_key(""), "");
    assert_eq!(short_key("aéééé"), "éééé");
    assert!(!key_can_shorten("éééé1"));
    assert!(key_can_shorten("ééééé"));
}

#[test]
fn all_address_forms_lead_to_one_request() {
    for form in ["git@github.com:", "https://github.com/", "http://github.com/"] {
        for path in ["o/r", "o/r.git", "o/r.git.git"] {
            let q = github_request(&format!("{}{}", form, path), None).unwrap();
            assert_eq!(q.url, "https://api.github.com/repos/o/r");
        }
    }
    for url in ["https://github.com/o/github.com/r", "git@github.com:1:r", "https://github.com", "", "git"] {
        assert_eq!(repo_path(&format!("{}.git", url)), repo_path(url));
    }
}

#[test]
fn next_settings() {
    let settings = gpg_settings("K");
    assert_eq!(next_setting(&settings, 0, true), Some(0));
    assert_eq!(next_setting(&settings, 3, true), Some(3));
    assert_eq!(next_setting(&settings, 4, true), None);
    assert_eq!(next_setting(&settings, 1, false), None);
}

/// Which settings are tried on each repository: it opens or not, and takes each or not.
fn tried(repos: Vec<(bool, [bool; 4])>) -> Vec<Vec<usize>> {
    let settings = gpg_settings("K");
    let mut left = repos.into_iter();
    let mut repo = (false, [false; 4]);
    let mut all: Vec<Vec<usize>> = vec![];
    let mut step = ConfigureStep::NextRepo;
    while step != ConfigureStep::Done {
        let went_well = match step {
            ConfigureStep::NextRepo => match left.next() {
                Some(r) => {
                    repo = r;
                    all.push(vec![]);
                    true
                }
                None => false,
            },
            ConfigureStep::OpenConfig => repo.0,
            ConfigureStep::Write(i) => {
                all.last_mut().unwrap().push(i);
                repo.1[i]
            }
            ConfigureStep::Done => unreachable!(),
        };
        step = step.next(went_well, &settings);
    }
    all
}

#[test]
fn failed_writes_end_one_repository_only() {
    let all = tried(vec![
        (true, [true, false, true, true]),
        (false, [true, true, true, true]),
        (true, [true, true, true, true]),
        (true, [false, false, false, false]),
        (true, [true, true, true, false]),
    ]);
    assert_eq!(all, vec![vec![0, 1], vec![], vec![0, 1, 2, 3], vec![0], vec![0, 1, 2, 3]]);
    assert_eq!(tried(vec![]), Vec::<Vec<usize>>::new());
}

#[test]
fn configuration_steps_at_their_ends() {
    let settings = gpg_settings("K");
    assert_eq!(ConfigureStep::Done.next(true, &settings), ConfigureStep::Done);
    assert_eq!(ConfigureStep::Write(usize::MAX).next(true, &settings), ConfigureStep::NextRepo);
    assert_eq!(ConfigureStep::OpenConfig.next(true, &vec![]), ConfigureStep::NextRepo);
}
