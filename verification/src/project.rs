//! A project on disk: what is found out about its repository, and what is kept of that.

use crate::changes;
use crate::changes::{collect_changes, Changes, FileStatusType, StatusEntry};
use crate::github::GitHubStats;
use crate::gpg;
use crate::gpg::{check_gpg_status, GpgStatus};
use crate::text;
use vstd::prelude::*;

verus! {

/// What is known of a project.
pub struct Project {
    pub name: String,
    pub path: String,
    pub current_branch: String,
    pub is_dirty: bool,
    pub untracked: usize,
    pub modified: usize,
    pub deleted: usize,
    pub changed_files: Vec<(String, FileStatusType)>,
    pub ahead: usize,
    pub behind: usize,
    pub last_commit_msg: Option<String>,
    pub last_commit_time: i64,
    pub github_stats: Option<GitHubStats>,
    pub gpg_status: GpgStatus,
    pub remote_status: Option<bool>,
}

/// The last commit of a repository.
pub struct CommitFacts {
    pub time: i64,
    pub summary: Option<String>,
}

/// What a repository's head says.
pub struct HeadFacts {
    pub shorthand: Option<String>,
    pub commit: Option<CommitFacts>,
    pub is_branch: bool,
    /// How many commits the branch of that name is ahead of its upstream, and how many
    /// behind, where there is such a branch, it has an upstream, and both can be counted.
    pub tracking: Option<(usize, usize)>,
}

/// What the remote `origin` says, where it has an address.
pub struct OriginFacts {
    pub stats: Option<GitHubStats>,
    pub connected: bool,
}

/// What is found out about a repository; each part is there where it could be read.
pub struct RepoFacts {
    pub name: String,
    pub path: String,
    pub head: Option<HeadFacts>,
    pub statuses: Option<Vec<StatusEntry>>,
    pub origin: Option<OriginFacts>,
    pub config: Option<String>,
}

/// The characters of an optional string.
pub open spec fn text_view(s: Option<String>) -> Option<Seq<char>> {
    match s {
        Some(s) => Some(s@),
        None => None,
    }
}

/// The branch that is shown.
pub open spec fn branch_of(head: Option<HeadFacts>) -> Seq<char> {
    match head {
        Some(HeadFacts { shorthand: Some(name), .. }) => name@,
        _ => "unknown"@,
    }
}

/// The time of the last commit; 0 where there is none.
pub open spec fn commit_time_of(head: Option<HeadFacts>) -> i64 {
    match head {
        Some(HeadFacts { commit: Some(c), .. }) => c.time,
        _ => 0,
    }
}

/// The summary of the last commit.
pub open spec fn commit_msg_of(head: Option<HeadFacts>) -> Option<Seq<char>> {
    match head {
        Some(HeadFacts { commit: Some(c), .. }) => text_view(c.summary),
        _ => None,
    }
}

/// How far the branch is ahead of its upstream and behind it: neither where the head is
/// not a branch with a name, or nothing was counted.
pub open spec fn tracking_of(head: Option<HeadFacts>) -> (usize, usize) {
    match head {
        Some(HeadFacts { shorthand: Some(_), is_branch: true, tracking: Some(t), .. }) => t,
        _ => (0, 0),
    }
}

/// The entries of the working tree's status; none where it could not be read.
pub open spec fn entries_of(statuses: Option<Vec<StatusEntry>>) -> Seq<StatusEntry> {
    match statuses {
        Some(v) => v@,
        None => Seq::empty(),
    }
}

/// Whether the remote answered: a failure to connect is not told from a remote that
/// is not there.
pub open spec fn remote_status_of(origin: Option<OriginFacts>) -> Option<bool> {
    match origin {
        Some(OriginFacts { connected: true, .. }) => Some(true),
        _ => None,
    }
}

/// What GitHub says of the remote.
pub open spec fn stats_of(origin: Option<OriginFacts>) -> Option<GitHubStats> {
    match origin {
        Some(o) => o.stats,
        None => None,
    }
}

impl Project {
    /// Whether the number of all changes fits a machine word.
    pub open spec fn countable(self) -> bool {
        self.modified + self.untracked + self.deleted <= usize::MAX
    }

    /// What a project is, given what was found out about its repository and the key that
    /// commits are to be signed with.
    pub open spec fn built_from(self, facts: RepoFacts, gpg_key: Seq<char>) -> bool {
        let entries = entries_of(facts.statuses);
        &&& self.name@ == facts.name@
        &&& self.path@ == facts.path@
        &&& self.current_branch@ == branch_of(facts.head)
        &&& self.last_commit_time == commit_time_of(facts.head)
        &&& text_view(self.last_commit_msg) == commit_msg_of(facts.head)
        &&& (self.ahead, self.behind) == tracking_of(facts.head)
        &&& self.untracked == changes::count(entries, changes::UNTRACKED)
        &&& self.modified == changes::count(entries, changes::MODIFIED)
        &&& self.deleted == changes::count(entries, changes::DELETED)
        &&& changes::files_view(self.changed_files@) == changes::listed(
            changes::all_changes(entries),
        )
        &&& self.is_dirty == (changes::all_changes(entries).len() > 0)
        &&& self.github_stats == stats_of(facts.origin)
        &&& self.remote_status == remote_status_of(facts.origin)
        &&& self.gpg_status@ == gpg::gpg_status_of(text_view(facts.config), gpg_key)
    }
}

/// What is kept of what was found out about a repository.
pub fn build_project(facts: RepoFacts, gpg_key: &str) -> (r: Project)
    requires
        3 * entries_of(facts.statuses).len() <= usize::MAX,
    ensures
        r.built_from(facts, gpg_key@),
        r.countable(),
{
    let mut current_branch = "unknown".to_string();
    let mut last_commit_msg: Option<String> = None;
    let mut last_commit_time: i64 = 0;
    let mut ahead: usize = 0;
    let mut behind: usize = 0;
    if let Some(head) = facts.head {
        if let Some(name) = head.shorthand {
            current_branch = name;
            if head.is_branch {
                if let Some((a, b)) = head.tracking {
                    ahead = a;
                    behind = b;
                }
            }
        }
        if let Some(commit) = head.commit {
            last_commit_time = commit.time;
            last_commit_msg = commit.summary;
        }
    }
    let entries: Vec<StatusEntry> = match facts.statuses {
        Some(v) => v,
        None => Vec::new(),
    };
    proof {
        changes::counts_add_up(entries@);
    }
    let Changes { untracked, modified, deleted, changed_files } = collect_changes(&entries);
    let is_dirty = untracked + modified + deleted > 0;
    let mut github_stats: Option<GitHubStats> = None;
    let mut remote_status: Option<bool> = None;
    if let Some(origin) = facts.origin {
        github_stats = origin.stats;
        if origin.connected {
            remote_status = Some(true);
        }
    }
    let gpg_status = match &facts.config {
        Some(text) => check_gpg_status(Some(text.as_str()), gpg_key),
        None => check_gpg_status(None, gpg_key),
    };
    Project {
        name: facts.name,
        path: facts.path,
        current_branch,
        is_dirty,
        untracked,
        modified,
        deleted,
        changed_files,
        ahead,
        behind,
        last_commit_msg,
        last_commit_time,
        github_stats,
        gpg_status,
        remote_status,
    }
}

/// A branch with a name is shown with that name, and is ahead of its upstream and behind it
/// by what was counted, each whatever the other is.
pub proof fn tracked_branches_are_told(
    p: Project,
    facts: RepoFacts,
    gpg_key: Seq<char>,
    head: HeadFacts,
    name: String,
    ahead: usize,
    behind: usize,
)
    requires
        p.built_from(facts, gpg_key),
        facts.head == Some(head),
        head.shorthand == Some(name),
        head.is_branch,
        head.tracking == Some((ahead, behind)),
    ensures
        p.ahead == ahead,
        p.behind == behind,
        p.current_branch@ == name@,
{
}

/// Where nothing was counted, where the head is no branch or has no name, and where there is
/// no head, a project is neither ahead nor behind; its branch is unknown exactly where the
/// head, if any, has no name.
pub proof fn untracked_heads_are_even(p: Project, facts: RepoFacts, gpg_key: Seq<char>)
    requires
        p.built_from(facts, gpg_key),
    ensures
        facts.head is None ==> p.ahead == 0 && p.behind == 0 && p.current_branch@ == "unknown"@,
        facts.head matches Some(head) ==> {
            &&& head.tracking is None || !head.is_branch || head.shorthand is None ==> p.ahead == 0
                && p.behind == 0
            &&& head.shorthand is None ==> p.current_branch@ == "unknown"@
            &&& head.shorthand matches Some(name) ==> p.current_branch@ == name@
        },
{
}

/// The last commit is told as it was found: its time, and its summary where it has one.
pub proof fn commits_are_told(p: Project, facts: RepoFacts, gpg_key: Seq<char>)
    requires
        p.built_from(facts, gpg_key),
    ensures
        facts.head matches Some(head) ==> (head.commit matches Some(commit) ==> {
            &&& p.last_commit_time == commit.time
            &&& p.last_commit_msg is Some <==> commit.summary is Some
            &&& commit.summary matches Some(summary) ==> p.last_commit_msg->0@ == summary@
        }),
        facts.head is None || facts.head->0.commit is None ==> p.last_commit_time == 0
            && p.last_commit_msg is None,
{
}

/// A project keeps its name, its place, what GitHub says of it, and whether its remote
/// answered: a remote that did not is told as if there were none.
pub proof fn remotes_are_told(p: Project, facts: RepoFacts, gpg_key: Seq<char>)
    requires
        p.built_from(facts, gpg_key),
    ensures
        p.name@ == facts.name@,
        p.path@ == facts.path@,
        p.remote_status == Some(true) <==> facts.origin is Some && facts.origin->0.connected,
        p.remote_status != Some(true) ==> p.remote_status is None,
        facts.origin matches Some(origin) ==> p.github_stats == origin.stats,
        facts.origin is None ==> p.github_stats is None,
{
}

/// A project is dirty exactly where a file of it is new, modified, renamed or deleted, in the
/// working tree or the index.
pub proof fn dirty_by_status(p: Project, facts: RepoFacts, gpg_key: Seq<char>)
    requires
        p.built_from(facts, gpg_key),
    ensures
        facts.statuses is None ==> !p.is_dirty,
        facts.statuses matches Some(entries) ==> (p.is_dirty <==> exists|i: int|
            0 <= i < entries@.len() && (#[trigger] entries@[i]).status & 0xb8f != 0),
{
    if let Some(entries) = facts.statuses {
        dirty_where_a_status_says_so(entries@);
    }
}

proof fn dirty_where_a_status_says_so(entries: Seq<StatusEntry>)
    ensures
        changes::all_changes(entries).len() > 0 <==> exists|i: int|
            0 <= i < entries.len() && (#[trigger] entries[i]).status & 0xb8f != 0,
    decreases entries.len(),
{
    if entries.len() > 0 {
        let before = entries.drop_last();
        let status = entries.last().status;
        dirty_where_a_status_says_so(before);
        changes::kinds_by_status(status);
        assert((status & 0xb8f != 0) <==> (status & 0x80 != 0 || status & 0x1 != 0 || status & 0x100
            != 0 || status & 0x2 != 0 || status & 0x800 != 0 || status & 0x8 != 0 || status & 0x200
            != 0 || status & 0x4 != 0)) by (bit_vector);
        if exists|i: int| 0 <= i < before.len() && (#[trigger] before[i]).status & 0xb8f != 0 {
            let i = choose|i: int|
                0 <= i < before.len() && (#[trigger] before[i]).status & 0xb8f != 0;
            assert(entries[i].status & 0xb8f != 0);
        }
        if status & 0xb8f != 0 {
            assert(entries[entries.len() - 1].status & 0xb8f != 0);
        }
        if exists|i: int| 0 <= i < entries.len() && (#[trigger] entries[i]).status & 0xb8f != 0 {
            let i = choose|i: int|
                0 <= i < entries.len() && (#[trigger] entries[i]).status & 0xb8f != 0;
            if i < before.len() {
                assert(before[i].status & 0xb8f != 0);
            }
        }
    }
}

/// The changes of a project are those of its files: each kind is counted by its own bits, and
/// the first fifteen changes are listed as they come.
pub proof fn changes_are_told(p: Project, facts: RepoFacts, gpg_key: Seq<char>)
    requires
        p.built_from(facts, gpg_key),
    ensures
        ({
            let all = changes::all_changes(
                match facts.statuses {
                    Some(entries) => entries@,
                    None => Seq::empty(),
                },
            );
            let files = p.changed_files@;
            &&& p.untracked == changes::of_kind(all, FileStatusType::Untracked)
            &&& p.modified == changes::of_kind(all, FileStatusType::Modified)
            &&& p.deleted == changes::of_kind(all, FileStatusType::Deleted)
            &&& files.len() == (if all.len() < 15 {
                all.len()
            } else {
                15
            })
            &&& forall|i: int|
                0 <= i < files.len() ==> #[trigger] files[i].0@ == all[i].0 && files[i].1 == all[i].1
        }),
{
    let all = changes::all_changes(entries_of(facts.statuses));
    let files = changes::files_view(p.changed_files@);
    changes::kinds_agree_with_counts(entries_of(facts.statuses));
    changes::the_first_fifteen_are_listed(all);
    assert forall|i: int| 0 <= i < files.len() implies #[trigger] p.changed_files@[i].0@
        == all[i].0 && p.changed_files@[i].1 == all[i].1 by {
        assert(files[i] == all[i]);
    }
}

/// How far a project is set up for signing goes by what its configuration holds.
pub proof fn signing_is_told(p: Project, facts: RepoFacts, gpg_key: Seq<char>)
    requires
        p.built_from(facts, gpg_key),
    ensures
        facts.config is None ==> !p.gpg_status.is_configured && p.gpg_status.signing_key is None
            && !p.gpg_status.auto_retrieve,
        facts.config matches Some(config) ==> {
            let has_key = text::holds_text(config@, "signingkey = "@ + gpg_key);
            &&& p.gpg_status.signing_key is Some <==> has_key
            &&& p.gpg_status.signing_key matches Some(k) ==> k@ == gpg_key
            &&& p.gpg_status.is_configured <==> has_key && text::holds_text(
                config@,
                "gpgsign = 1"@,
            )
            &&& p.gpg_status.auto_retrieve <==> text::holds_text(
                config@,
                "autoKeyRetrieve = true"@,
            ) || text::holds_text(config@, "autoKeyRetrieve = 1"@)
        },
{
    assert(p.gpg_status@.is_configured == p.gpg_status.is_configured);
}

/// A project is dirty exactly where its counts say so, and the list of its changes is
/// complete or full.
pub proof fn dirty_means_changes(p: Project, facts: RepoFacts, gpg_key: Seq<char>)
    requires
        p.built_from(facts, gpg_key),
    ensures
        p.is_dirty == (p.untracked + p.modified + p.deleted > 0),
        p.is_dirty == (p.changed_files@.len() > 0),
        p.changed_files@.len() <= changes::MAX_LISTED,
        p.changed_files@.len() <= p.untracked + p.modified + p.deleted,
        p.changed_files@.len() < p.untracked + p.modified + p.deleted ==> p.changed_files@.len()
            == changes::MAX_LISTED,
{
    changes::list_is_full_or_complete(entries_of(facts.statuses));
    changes::counts_add_up(entries_of(facts.statuses));
    assert(changes::files_view(p.changed_files@).len() == p.changed_files@.len());
}

} // verus!
