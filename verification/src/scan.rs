//! What a scan of the directory of all projects yields.

use crate::project;
use crate::project::{build_project, Project, RepoFacts};
use crate::sort;
use crate::sort::sort_projects;
use vstd::prelude::*;

verus! {

/// The directory that holds all projects.
pub const MASTER_DIR: &'static str = "..";

/// How deep below that directory a repository is looked for: from here ..
pub const SCAN_MIN_DEPTH: usize = 1;

/// .. to here.
pub const SCAN_MAX_DEPTH: usize = 2;

/// Whether an entry of the directory is the repository of a project.
pub open spec fn lists(is_dir: bool, has_git: bool, opens: bool) -> bool {
    is_dir && has_git && opens
}

/// Whether the changes of a repository can be counted in machine words.
pub open spec fn countable(facts: RepoFacts) -> bool {
    3 * project::entries_of(facts.statuses).len() <= usize::MAX
}

/// Only directories are listed, only those with a `.git`, and only those that open; all of
/// these are.
pub proof fn only_repositories_are_listed(is_dir: bool, has_git: bool, opens: bool)
    ensures
        !lists(false, has_git, opens),
        !lists(is_dir, false, opens),
        !lists(is_dir, has_git, false),
        lists(true, true, true),
{
}

/// Projects are looked for in the directory above the working directory and one level below
/// that, and nowhere else.
pub proof fn projects_stand_next_to_one_another()
    ensures
        MASTER_DIR@ == ".."@,
        SCAN_MIN_DEPTH == 1,
        SCAN_MAX_DEPTH == 2,
{
}

/// Up to a third of what a machine word holds, changes can be counted; where they could not be
/// read there are none to count.
pub proof fn most_changes_can_be_counted(facts: RepoFacts)
    ensures
        facts.statuses is None ==> countable(facts),
        facts.statuses matches Some(entries) ==> (countable(facts) <==> 3 * entries@.len()
            <= usize::MAX),
{
}

/// Whether `built` are the projects of the repositories `found`, one for one.
pub open spec fn all_built(built: Seq<Project>, found: Seq<RepoFacts>, gpg_key: Seq<char>) -> bool {
    &&& built.len() == found.len()
    &&& forall|i: int|
        0 <= i < found.len() ==> #[trigger] built[i].built_from(found[i], gpg_key)
            && built[i].countable()
}

/// Whether `projects` are the projects of the repositories `found`, in the order of their
/// names.
pub open spec fn is_scan_of(
    projects: Seq<Project>,
    found: Seq<RepoFacts>,
    gpg_key: Seq<char>,
) -> bool {
    exists|built: Seq<Project>, order: Seq<int>|
        #![trigger all_built(built, found, gpg_key), sort::orders(sort::name_keys(built), order)]
        all_built(built, found, gpg_key) && sort::orders(sort::name_keys(built), order) && projects
            == sort::arranged(built, order)
}

/// A scan loses no repository and makes none up: its projects are as many as the
/// repositories that were found, and each is the project of one of them.
pub proof fn scan_is_faithful(projects: Seq<Project>, found: Seq<RepoFacts>, gpg_key: Seq<char>)
    requires
        is_scan_of(projects, found, gpg_key),
    ensures
        projects.len() == found.len(),
        forall|i: int|
            0 <= i < projects.len() ==> (#[trigger] projects[i]).countable() && exists|j: int|
                0 <= j < found.len() && projects[i].built_from(#[trigger] found[j], gpg_key),
{
    let (built, order) = choose|built: Seq<Project>, order: Seq<int>|
        #![trigger all_built(built, found, gpg_key), sort::orders(sort::name_keys(built), order)]
        all_built(built, found, gpg_key) && sort::orders(sort::name_keys(built), order) && projects
            == sort::arranged(built, order);
    assert forall|i: int| 0 <= i < projects.len() implies (#[trigger] projects[i]).countable()
        && exists|j: int|
        0 <= j < found.len() && projects[i].built_from(#[trigger] found[j], gpg_key) by {
        assert(built[order[i]].built_from(found[order[i]], gpg_key));
    }
}

/// Whether `projects` come one for one from the repositories `found`, the i-th of them from the
/// one at `from[i]`, in the order of their names without regard to case, and those of the same
/// name as they were found.
pub open spec fn comes_from(
    projects: Seq<Project>,
    found: Seq<RepoFacts>,
    gpg_key: Seq<char>,
    from: Seq<int>,
) -> bool {
    &&& projects.len() == found.len()
    &&& from.len() == found.len()
    &&& forall|i: int|
        0 <= i < from.len() ==> 0 <= #[trigger] from[i] < found.len() && projects[i].built_from(
            found[from[i]],
            gpg_key,
        )
    &&& forall|j: int| 0 <= j < found.len() ==> #[trigger] from.contains(j)
    &&& forall|i: int, j: int|
        0 <= i < j < from.len() ==> #[trigger] from[i] != #[trigger] from[j] && sort::text_le(
            sort::lowercase(projects[i].name@),
            sort::lowercase(projects[j].name@),
        ) && (sort::lowercase(projects[i].name@) == sort::lowercase(projects[j].name@) ==> from[i]
            < from[j])
}

/// A scan yields one project for each repository that was found and for no other, in the order
/// of their names, and those of the same name as they were found.
pub proof fn scans_rearrange_what_was_found(
    projects: Seq<Project>,
    found: Seq<RepoFacts>,
    gpg_key: Seq<char>,
)
    requires
        is_scan_of(projects, found, gpg_key),
    ensures
        exists|from: Seq<int>| #[trigger] comes_from(projects, found, gpg_key, from),
{
    let (built, order) = choose|built: Seq<Project>, order: Seq<int>|
        #![trigger all_built(built, found, gpg_key), sort::orders(sort::name_keys(built), order)]
        all_built(built, found, gpg_key) && sort::orders(sort::name_keys(built), order) && projects
            == sort::arranged(built, order);
    let keys = sort::name_keys(built);
    assert forall|i: int| 0 <= i < order.len() implies 0 <= #[trigger] order[i] < found.len()
        && projects[i].built_from(found[order[i]], gpg_key) by {
        assert(built[order[i]].built_from(found[order[i]], gpg_key));
    }
    assert forall|j: int| 0 <= j < found.len() implies #[trigger] order.contains(j) by {
        let i = sort::position_of(keys, order, j);
        assert(order[i] == j);
    }
    assert forall|i: int, j: int| 0 <= i < j < order.len() implies #[trigger] order[i]
        != #[trigger] order[j] && sort::text_le(
        sort::lowercase(projects[i].name@),
        sort::lowercase(projects[j].name@),
    ) && (sort::lowercase(projects[i].name@) == sort::lowercase(projects[j].name@) ==> order[i]
        < order[j]) by {
        assert(keys[order[i]] == sort::lowercase(projects[i].name@));
        assert(keys[order[j]] == sort::lowercase(projects[j].name@));
    }
    assert(comes_from(projects, found, gpg_key, order));
}

/// The repositories that were found and their order fix the projects, but for how their texts
/// are stored: two scans of the same name the same projects in the same places.
pub proof fn scans_agree(
    a: Seq<Project>,
    b: Seq<Project>,
    found: Seq<RepoFacts>,
    gpg_key: Seq<char>,
    i: int,
)
    requires
        is_scan_of(a, found, gpg_key),
        is_scan_of(b, found, gpg_key),
        0 <= i < found.len(),
    ensures
        a.len() == found.len(),
        b.len() == found.len(),
        a[i].name@ == b[i].name@,
        a[i].path@ == b[i].path@,
        exists|j: int|
            0 <= j < found.len() && a[i].built_from(#[trigger] found[j], gpg_key)
                && b[i].built_from(found[j], gpg_key),
{
    let (built_a, order_a) = choose|built: Seq<Project>, order: Seq<int>|
        #![trigger all_built(built, found, gpg_key), sort::orders(sort::name_keys(built), order)]
        all_built(built, found, gpg_key) && sort::orders(sort::name_keys(built), order) && a
            == sort::arranged(built, order);
    let (built_b, order_b) = choose|built: Seq<Project>, order: Seq<int>|
        #![trigger all_built(built, found, gpg_key), sort::orders(sort::name_keys(built), order)]
        all_built(built, found, gpg_key) && sort::orders(sort::name_keys(built), order) && b
            == sort::arranged(built, order);
    assert forall|j: int| 0 <= j < found.len() implies #[trigger] sort::name_keys(built_a)[j]
        == sort::name_keys(built_b)[j] by {
        assert(built_a[j].built_from(found[j], gpg_key));
        assert(built_b[j].built_from(found[j], gpg_key));
    }
    assert(sort::name_keys(built_a) =~= sort::name_keys(built_b));
    sort::order_is_unique(sort::name_keys(built_a), order_a, order_b);
    let j = order_a[i];
    assert(built_a[j].built_from(found[j], gpg_key));
    assert(built_b[j].built_from(found[j], gpg_key));
}

/// The projects that a scan yields are in the order of their names, without regard to
/// case.
pub proof fn scan_is_sorted(
    projects: Seq<Project>,
    found: Seq<RepoFacts>,
    gpg_key: Seq<char>,
    i: int,
    j: int,
)
    requires
        is_scan_of(projects, found, gpg_key),
        0 <= i < j < projects.len(),
    ensures
        sort::text_le(
            sort::lowercase(projects[i].name@),
            sort::lowercase(projects[j].name@),
        ),
{
    let (built, order) = choose|built: Seq<Project>, order: Seq<int>|
        #![trigger all_built(built, found, gpg_key), sort::orders(sort::name_keys(built), order)]
        all_built(built, found, gpg_key) && sort::orders(sort::name_keys(built), order) && projects
            == sort::arranged(built, order);
    let keys = sort::name_keys(built);
    assert(order[i] != order[j] && sort::text_le(keys[order[i]], keys[order[j]]));
}

/// Whether an entry of the directory is the repository of a project: it is a directory, it
/// holds a `.git`, and it opens as a repository.
pub fn is_listed(is_dir: bool, has_git: bool, opens: bool) -> (r: bool)
    ensures
        r == (is_dir && has_git && opens),
        r == lists(is_dir, has_git, opens),
{
    is_dir && has_git && opens
}

/// Whether the changes of a repository can be counted in machine words.
pub fn is_countable(facts: &RepoFacts) -> (r: bool)
    ensures
        r == countable(*facts),
{
    match &facts.statuses {
        Some(v) => v.len() <= usize::MAX / 3,
        None => true,
    }
}

/// The projects of the repositories that a scan found, in the order of their names.
pub fn finish_scan(found: Vec<RepoFacts>, gpg_key: &str) -> (r: Vec<Project>)
    requires
        forall|i: int| 0 <= i < found@.len() ==> countable(#[trigger] found@[i]),
    ensures
        is_scan_of(r@, found@, gpg_key@),
{
    let ghost all = found@;
    let mut built: Vec<Project> = Vec::new();
    for facts in it: found
        invariant
            it.seq() == all,
            forall|i: int| 0 <= i < all.len() ==> countable(#[trigger] all[i]),
            all_built(built@, all.take(it.index() as int), gpg_key@),
    {
        let ghost before = built@;
        let ghost n = it.index() as int;
        assert(countable(all[n]));
        let p = build_project(facts, gpg_key);
        built.push(p);
        assert(all_built(built@, all.take(n + 1), gpg_key@)) by {
            assert forall|i: int| 0 <= i < n + 1 implies #[trigger] built@[i].built_from(
                all.take(n + 1)[i],
                gpg_key@,
            ) && built@[i].countable() by {
                if i < n {
                    assert(before[i].built_from(all.take(n)[i], gpg_key@));
                }
            }
        }
    }
    assert(all.take(all.len() as int) =~= all);
    sort_projects(built)
}

} // verus!
