//! What is asked of the GitHub API about a remote, and what is kept of its answer.

use crate::text;
use crate::text::{char_vec, contains, find_chars, part_of, starts_with, string_of, stripped_len};
use vstd::prelude::*;
use vstd::string::StringExecFns;

verus! {

/// What is kept of a repository's entry on GitHub.
pub struct GitHubStats {
    pub stars: u32,
    pub forks: u32,
    pub open_issues: u32,
    pub url: String,
}

/// The fields of the GitHub API's answer that are read.
pub struct GitHubRepoResponse {
    pub stargazers_count: u32,
    pub forks_count: u32,
    pub open_issues_count: u32,
    pub html_url: String,
}

/// A request to the GitHub API: the address and the headers, in order.
pub struct GitHubRequest {
    pub url: String,
    pub headers: Vec<(String, String)>,
}

/// A request as characters.
#[verifier::ext_equal]
pub struct RequestView {
    pub url: Seq<char>,
    pub headers: Seq<(Seq<char>, Seq<char>)>,
}

impl View for GitHubRequest {
    type V = RequestView;

    open spec fn view(&self) -> RequestView {
        RequestView {
            url: self.url@,
            headers: self.headers@.map_values(|h: (String, String)| (h.0@, h.1@)),
        }
    }
}

/// What follows the one `mark` in `s`; nothing where `mark` stands more than once or not at all.
pub open spec fn after_only(s: Seq<char>, mark: Seq<char>) -> Option<Seq<char>> {
    match text::find(s, mark) {
        None => None,
        Some(i) => {
            let rest = s.skip(i + mark.len());
            match text::find(rest, mark) {
                None => Some(rest),
                Some(_) => None,
            }
        },
    }
}

/// What stands between the first `mark` in `s` and the one after it, or the end of `s`.
pub open spec fn segment_after(s: Seq<char>, mark: Seq<char>) -> Option<Seq<char>> {
    match text::find(s, mark) {
        None => None,
        Some(i) => {
            let rest = s.skip(i + mark.len());
            match text::find(rest, mark) {
                None => Some(rest),
                Some(j) => Some(rest.take(j)),
            }
        },
    }
}

/// The part of a remote's address that names owner and repository, with what `.git` it
/// may end with.
pub open spec fn raw_repo_path(url: Seq<char>) -> Option<Seq<char>> {
    if !text::holds_text(url, "github.com"@) {
        None
    } else if text::begins_with(url, "git@"@) {
        after_only(url, ":"@)
    } else if text::begins_with(url, "http"@) {
        segment_after(url, "github.com/"@)
    } else {
        None
    }
}

/// Owner and repository of a GitHub remote, as the API's address names them.
pub open spec fn repo_path_of(url: Seq<char>) -> Option<Seq<char>> {
    match raw_repo_path(url) {
        None => None,
        Some(p) => Some(text::strip_suffixes(p, ".git"@)),
    }
}

/// The headers of a request.
pub open spec fn request_headers(token: Option<Seq<char>>) -> Seq<(Seq<char>, Seq<char>)> {
    let agent = seq![("User-Agent"@, "Tropical-ProjectManager"@)];
    match token {
        None => agent,
        Some(t) => agent.push(("Authorization"@, "Bearer "@ + t)),
    }
}

/// The request that is sent about a remote.
pub open spec fn request_for(url: Seq<char>, token: Option<Seq<char>>) -> Option<RequestView> {
    match repo_path_of(url) {
        None => None,
        Some(path) => Some(
            RequestView {
                url: "https://api.github.com/repos/"@ + path,
                headers: request_headers(token),
            },
        ),
    }
}

/// The characters of an optional string.
pub open spec fn token_view(token: Option<&str>) -> Option<Seq<char>> {
    match token {
        None => None,
        Some(t) => Some(t@),
    }
}

/// What is kept of an answer.
pub open spec fn stats_match(r: GitHubRepoResponse, s: GitHubStats) -> bool {
    &&& s.stars == r.stargazers_count
    &&& s.forks == r.forks_count
    &&& s.open_issues == r.open_issues_count
    &&& s.url@ == r.html_url@
}

/// What is kept of an answer, where one came.
pub open spec fn keeps(reply: Option<GitHubRepoResponse>, kept: Option<GitHubStats>) -> bool {
    match (reply, kept) {
        (None, None) => true,
        (Some(reply), Some(s)) => stats_match(reply, s),
        _ => false,
    }
}

/// No path of a repository ends with `.git`.
pub proof fn repo_path_has_no_git_suffix(url: Seq<char>)
    ensures
        repo_path_of(url) matches Some(p) ==> !text::ends_with(p, ".git"@),
{
    reveal_strlit(".git");
    if let Some(p) = raw_repo_path(url) {
        text::stripped_has_no_suffix(p, ".git"@);
    }
}

/// A remote whose address does not hold `github.com` is never asked about.
pub proof fn other_hosts_are_not_asked(url: Seq<char>, token: Option<Seq<char>>)
    requires
        !text::holds_text(url, "github.com"@),
    ensures
        request_for(url, token) is None,
{
}

/// A token changes nothing about a request but for the header that carries it.
pub proof fn token_only_adds_a_header(url: Seq<char>, token: Seq<char>)
    ensures
        match (request_for(url, None), request_for(url, Some(token))) {
            (None, None) => true,
            (Some(plain), Some(signed)) => signed.url == plain.url && signed.headers
                == plain.headers.push(("Authorization"@, "Bearer "@ + token)),
            _ => false,
        },
{
}

/// All ways to write the address of a repository, `git@github.com:`,
/// `https://github.com/` and `http://github.com/`, lead to the same request. A path that
/// holds a colon or `github.com/` itself is left out: the first is refused with `git@`, the
/// second is cut short with the others.
pub proof fn address_forms_agree(path: Seq<char>, token: Option<Seq<char>>)
    requires
        !text::holds_text(path, ":"@),
        !text::holds_text(path, "github.com/"@),
    ensures
        request_for("git@github.com:"@ + path, token) == Some(
            RequestView {
                url: "https://api.github.com/repos/"@ + text::strip_suffixes(path, ".git"@),
                headers: request_headers(token),
            },
        ),
        request_for("https://github.com/"@ + path, token) == request_for(
            "git@github.com:"@ + path,
            token,
        ),
        request_for("http://github.com/"@ + path, token) == request_for(
            "git@github.com:"@ + path,
            token,
        ),
{
    reveal_strlit("git@github.com:");
    reveal_strlit("https://github.com/");
    reveal_strlit("http://github.com/");
    reveal_strlit("github.com/");
    reveal_strlit("github.com");
    reveal_strlit("git@");
    reveal_strlit(":");
    let ssh = "git@github.com:"@ + path;
    assert(ssh.subrange(4, 14) =~= "github.com"@);
    assert(text::matches_at(ssh, "github.com"@, 4));
    assert(ssh.take(4) =~= "git@"@);
    assert(ssh.subrange(14, 15) =~= ":"@);
    assert(text::matches_at(ssh, ":"@, 14));
    assert forall|j: int| 0 <= j < 14 implies !#[trigger] text::matches_at(ssh, ":"@, j) by {
        assert(ssh.subrange(j, j + 1)[0] == ssh[j]);
    }
    text::find_is_first(ssh, ":"@);
    assert(ssh.skip(15) =~= path);
    text::find_is_first(path, ":"@);

    web_path("https://"@, path);
    assert("https://github.com/"@ =~= "https://"@ + "github.com/"@) by {
        reveal_strlit("https://");
    }
    web_path("http://"@, path);
    assert("http://github.com/"@ =~= "http://"@ + "github.com/"@) by {
        reveal_strlit("http://");
    }
}

proof fn web_path(scheme: Seq<char>, path: Seq<char>)
    requires
        scheme == "https://"@ || scheme == "http://"@,
        !text::holds_text(path, "github.com/"@),
    ensures
        raw_repo_path(scheme + "github.com/"@ + path) == Some(path),
{
    reveal_strlit("https://");
    reveal_strlit("http://");
    reveal_strlit("github.com/");
    reveal_strlit("github.com");
    reveal_strlit("git@");
    reveal_strlit("http");
    let web = scheme + "github.com/"@ + path;
    let n = scheme.len() as int;
    assert(web.subrange(n, n + 10) =~= "github.com"@);
    assert(text::matches_at(web, "github.com"@, n));
    assert(web.take(4) =~= "http"@);
    assert(web.take(4)[0] != "git@"@[0]);
    assert(web.subrange(n, n + 11) =~= "github.com/"@);
    assert(text::matches_at(web, "github.com/"@, n));
    assert forall|j: int| 0 <= j < n implies !#[trigger] text::matches_at(
        web,
        "github.com/"@,
        j,
    ) by {
        assert(web.subrange(j, j + 11)[0] == web[j]);
    }
    text::find_is_first(web, "github.com/"@);
    assert(web.skip(n + 11) =~= path);
    text::find_is_first(path, "github.com/"@);
}

/// One more `.git` at the end of an address, whatever the address, changes nothing about
/// the request.
pub proof fn final_git_changes_nothing(url: Seq<char>, token: Option<Seq<char>>)
    ensures
        repo_path_of(url + ".git"@) == repo_path_of(url),
        request_for(url + ".git"@, token) == request_for(url, token),
{
    reveal_strlit(".git");
    reveal_strlit("github.com");
    reveal_strlit("github.com/");
    reveal_strlit("git@");
    reveal_strlit("http");
    reveal_strlit(":");
    let tail = ".git"@;
    text::find_ignores_tail(url, tail, "github.com"@);
    prefix_ignores_tail(url, tail, "git@"@);
    prefix_ignores_tail(url, tail, "http"@);
    segments_with_tail(url, tail, ":"@);
    segments_with_tail(url, tail, "github.com/"@);
    if let Some(p) = raw_repo_path(url) {
        text::one_more_suffix_is_stripped(p, tail);
    }
}

proof fn prefix_ignores_tail(s: Seq<char>, tail: Seq<char>, prefix: Seq<char>)
    requires
        prefix.len() > 0,
        !tail.contains(prefix.last()),
    ensures
        text::begins_with(s + tail, prefix) == text::begins_with(s, prefix),
{
    let n = prefix.len() as int;
    let long = s + tail;
    if n <= s.len() {
        assert(long.take(n) =~= s.take(n));
    } else if n <= long.len() {
        assert(long.take(n).last() == tail[n - 1 - s.len()]);
    }
}

proof fn segments_with_tail(s: Seq<char>, tail: Seq<char>, mark: Seq<char>)
    requires
        mark.len() > 0,
        !tail.contains(mark.last()),
    ensures
        after_only(s + tail, mark) == (match after_only(s, mark) {
            Some(p) => Some(p + tail),
            None => None,
        }),
        segment_after(s + tail, mark) == segment_after(s, mark) || segment_after(s + tail, mark)
            == (match segment_after(s, mark) {
            Some(p) => Some(p + tail),
            None => None,
        }),
{
    text::find_ignores_tail(s, tail, mark);
    text::find_is_first(s, mark);
    if let Some(i) = text::find(s, mark) {
        let rest = s.skip(i + mark.len());
        assert((s + tail).skip(i + mark.len()) =~= rest + tail);
        text::find_ignores_tail(rest, tail, mark);
        text::find_is_first(rest, mark);
        if let Some(j) = text::find(rest, mark) {
            assert((rest + tail).take(j) =~= rest.take(j));
        }
    }
}

/// Of a `git@` address of GitHub's, owner and repository are what follows its colon, whatever
/// stands before that; with no colon, or with more than one, there is nothing to ask about.
pub proof fn git_addresses_have_one_colon(head: Seq<char>, path: Seq<char>, more: Seq<char>)
    requires
        !text::holds_text(head, ":"@),
        !text::holds_text(path, ":"@),
    ensures
        ({
            let url = head + ":"@ + path;
            text::begins_with(url, "git@"@) && text::holds_text(url, "github.com"@)
                ==> repo_path_of(url) == Some(text::strip_suffixes(path, ".git"@))
        }),
        text::begins_with(head, "git@"@) ==> repo_path_of(head) is None,
        text::begins_with(head + ":"@ + (path + ":"@ + more), "git@"@) ==> repo_path_of(
            head + ":"@ + (path + ":"@ + more),
        ) is None,
{
    reveal_strlit(":");
    let mark = ":"@;
    text::first_mark_is_found(head, mark, path);
    assert((head + mark + path).skip(head.len() as int + 1) =~= path);
    text::find_is_first(path, mark);
    text::find_is_first(head, mark);
    let rest = path + mark + more;
    text::first_mark_is_found(head, mark, rest);
    assert((head + mark + rest).skip(head.len() as int + 1) =~= rest);
    text::first_mark_is_found(path, mark, more);
}

/// Of an `http` address, owner and repository are what follows the first `github.com/`,
/// whatever stands before that, up to the next one, if there is one; without any there is
/// nothing to ask about.
pub proof fn web_addresses_are_cut_at_the_host(head: Seq<char>, path: Seq<char>, more: Seq<char>)
    requires
        !text::holds_text(head, "github.com/"@),
        !text::holds_text(path, "github.com/"@),
    ensures
        ({
            let url = head + "github.com/"@ + path;
            text::begins_with(url, "http"@) ==> repo_path_of(url) == Some(
                text::strip_suffixes(path, ".git"@),
            )
        }),
        ({
            let url = head + "github.com/"@ + (path + "github.com/"@ + more);
            text::begins_with(url, "http"@) ==> repo_path_of(url) == Some(
                text::strip_suffixes(path, ".git"@),
            )
        }),
        text::begins_with(head, "http"@) ==> repo_path_of(head) is None,
{
    reveal_strlit("github.com/");
    let mark = "github.com/"@;
    text::first_mark_is_found(head, mark, path);
    assert((head + mark + path).skip(head.len() as int + 11) =~= path);
    text::find_is_first(path, mark);
    text::find_is_first(head, mark);
    let rest = path + mark + more;
    text::first_mark_is_found(head, mark, rest);
    assert((head + mark + rest).skip(head.len() as int + 11) =~= rest);
    text::first_mark_is_found(path, mark, more);
    assert(rest.take(path.len() as int) =~= path);
    host_is_held(head, path);
    host_is_held(head, rest);
    http_is_not_git(head + mark + path);
    http_is_not_git(head + mark + rest);
    http_is_not_git(head);
}

proof fn host_is_held(head: Seq<char>, rest: Seq<char>)
    ensures
        text::holds_text(head + "github.com/"@ + rest, "github.com"@),
{
    reveal_strlit("github.com/");
    reveal_strlit("github.com");
    let url = head + "github.com/"@ + rest;
    let n = head.len() as int;
    assert(url.subrange(n, n + 10) =~= "github.com"@);
    assert(text::matches_at(url, "github.com"@, n));
}

proof fn http_is_not_git(url: Seq<char>)
    ensures
        !(text::begins_with(url, "http"@) && text::begins_with(url, "git@"@)),
{
    reveal_strlit("http");
    reveal_strlit("git@");
    if text::begins_with(url, "http"@) {
        assert(url.take(4)[0] == 'h');
        assert("git@"@[0] == 'g');
    }
}

/// Addresses of any other kind are not asked about.
pub proof fn other_addresses_are_not_asked(url: Seq<char>, token: Option<Seq<char>>)
    requires
        !text::begins_with(url, "git@"@),
        !text::begins_with(url, "http"@),
    ensures
        repo_path_of(url) is None,
        request_for(url, token) is None,
{
}

/// A request goes to the API's address of the repository, says who asks, and carries the
/// token where there is one, and nothing else; there is one wherever there is a repository to
/// ask about.
pub proof fn requests_name_the_repository(url: Seq<char>, token: Option<Seq<char>>)
    ensures
        request_for(url, token) is Some <==> repo_path_of(url) is Some,
        request_for(url, token) matches Some(q) ==> {
            &&& q.url == "https://api.github.com/repos/"@ + repo_path_of(url)->0
            &&& q.headers.len() == (if token is Some {
                2nat
            } else {
                1nat
            })
            &&& q.headers[0] == ("User-Agent"@, "Tropical-ProjectManager"@)
            &&& token matches Some(t) ==> q.headers[1].0 == "Authorization"@ && q.headers[1].1
                == "Bearer "@ + t
        },
{
}

/// What is kept of a reply are its numbers and its address, each under its own name; something
/// is kept exactly where there was a reply.
pub proof fn replies_are_kept(reply: Option<GitHubRepoResponse>, kept: Option<GitHubStats>)
    requires
        keeps(reply, kept),
    ensures
        kept is Some <==> reply is Some,
        reply is Some ==> kept->0.stars == reply->0.stargazers_count,
        reply is Some ==> kept->0.forks == reply->0.forks_count,
        reply is Some ==> kept->0.open_issues == reply->0.open_issues_count,
        reply is Some ==> kept->0.url@ == reply->0.html_url@,
{
}

/// The view of a request hides nothing of it.
pub proof fn request_views_hide_nothing(q: GitHubRequest)
    ensures
        q@.url == q.url@,
        q@.headers.len() == q.headers@.len(),
        forall|i: int|
            0 <= i < q.headers@.len() ==> (#[trigger] q@.headers[i]).0 == q.headers@[i].0@
                && q@.headers[i].1 == q.headers@[i].1@,
{
}

/// What stands between the first `mark` and the one after it, and whether there is one after it.
fn cut_after(chars: &Vec<char>, mark: &Vec<char>) -> (r: Option<(Vec<char>, bool)>)
    ensures
        match r {
            None => segment_after(chars@, mark@) is None && after_only(chars@, mark@) is None,
            Some((part, more)) => {
                &&& segment_after(chars@, mark@) == Some(part@)
                &&& after_only(chars@, mark@) == (if more {
                    None
                } else {
                    Some(part@)
                })
            },
        },
{
    proof {
        text::find_is_first(chars@, mark@);
    }
    match find_chars(chars, mark) {
        None => None,
        Some(i) => {
            let end: usize = chars.len();
            assert(i + mark@.len() <= end);
            let rest = part_of(chars, i + mark.len(), end);
            assert(rest@ =~= chars@.skip(i + mark@.len()));
            proof {
                text::find_is_first(rest@, mark@);
            }
            match find_chars(&rest, mark) {
                None => Some((rest, false)),
                Some(j) => {
                    let part = part_of(&rest, 0, j);
                    assert(part@ =~= rest@.take(j as int));
                    Some((part, true))
                },
            }
        },
    }
}

/// Owner and repository of a GitHub remote: of `git@` addresses what follows the one
/// colon, of `http` addresses what follows `github.com/`, without any `.git` at the end.
pub fn repo_path(remote_url: &str) -> (r: Option<String>)
    ensures
        match r {
            None => repo_path_of(remote_url@) is None,
            Some(p) => repo_path_of(remote_url@) == Some(p@),
        },
{
    if !contains(remote_url, "github.com") {
        return None;
    }
    let chars = char_vec(remote_url);
    let part: Vec<char> = if starts_with(remote_url, "git@") {
        match cut_after(&chars, &char_vec(":")) {
            Some((part, false)) => part,
            _ => {
                return None;
            },
        }
    } else if starts_with(remote_url, "http") {
        match cut_after(&chars, &char_vec("github.com/")) {
            Some((part, _)) => part,
            None => {
                return None;
            },
        }
    } else {
        return None;
    };
    let suffix = char_vec(".git");
    proof {
        reveal_strlit(".git");
    }
    let end: usize = stripped_len(&part, &suffix);
    assert(part@.subrange(0, end as int) =~= part@.take(end as int));
    Some(string_of(&part, 0, end))
}

/// The request to send about the remote at `remote_url`; nothing where the remote is
/// not one of GitHub's. `token` is the access token to sign the request with, if any.
pub fn github_request(remote_url: &str, token: Option<&str>) -> (r: Option<GitHubRequest>)
    ensures
        match r {
            None => request_for(remote_url@, token_view(token)) is None,
            Some(q) => request_for(remote_url@, token_view(token)) == Some(q@),
        },
{
    match repo_path(remote_url) {
        None => None,
        Some(path) => {
            let url = "https://api.github.com/repos/".to_string().concat(path.as_str());
            let mut headers: Vec<(String, String)> = Vec::new();
            headers.push(("User-Agent".to_string(), "Tropical-ProjectManager".to_string()));
            if let Some(t) = token {
                headers.push(("Authorization".to_string(), "Bearer ".to_string().concat(t)));
            }
            let q = GitHubRequest { url, headers };
            assert(q@.headers =~= request_headers(token_view(token)));
            Some(q)
        },
    }
}

/// What is kept of the API's answer, where one came.
pub fn github_stats(reply: Option<GitHubRepoResponse>) -> (r: Option<GitHubStats>)
    ensures
        match (reply, r) {
            (None, None) => true,
            (Some(reply), Some(s)) => stats_match(reply, s),
            _ => false,
        },
        keeps(reply, r),
{
    match reply {
        None => None,
        Some(data) => Some(
            GitHubStats {
                stars: data.stargazers_count,
                forks: data.forks_count,
                open_issues: data.open_issues_count,
                url: data.html_url,
            },
        ),
    }
}

} // verus!
