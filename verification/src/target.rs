//! The merge target: the repository that PRs land on, and the local remote
//! that points at it.
//!
//! The merge-target remote is the *only* remote that is ever pushed to. PRs
//! only stack correctly when both head and base live on the same repo; pushing
//! to a fork's `origin` would silently break the stack.

use vstd::prelude::*;
use vstd::string::*;

use crate::command;
use crate::command::Error;
use crate::gh;
use crate::gh::RepoInfo;
use crate::git;
use crate::git::Remote;
use crate::step;
use crate::step::{Action, Event};
use crate::text;

verus! {

// --- the repository ---------------------------------------------------------

/// Which repository PRs should land on.
#[derive(Debug)]
pub enum MergeTarget {
    /// The repository at hand.
    Own(RepoInfo),
    /// The parent of a fork, by its `owner/name`.
    Parent(String),
}

/// The model of a [`MergeTarget`].
#[verifier::ext_equal]
pub enum MergeTargetView {
    Own(gh::RepoInfoView),
    Parent(Seq<char>),
}

impl DeepView for MergeTarget {
    type V = MergeTargetView;

    open spec fn deep_view(&self) -> MergeTargetView {
        match self {
            MergeTarget::Own(info) => MergeTargetView::Own(info.deep_view()),
            MergeTarget::Parent(name) => MergeTargetView::Parent(name@),
        }
    }
}

/// PRs land on the repository itself, and for a fork on its parent.
pub open spec fn merge_target(local: gh::RepoInfoView) -> Result<MergeTargetView, Seq<char>> {
    if !local.is_fork {
        Ok(MergeTargetView::Own(local))
    } else {
        match local.parent_name_with_owner {
            Some(parent) => Ok(MergeTargetView::Parent(parent)),
            None => Err("repository is reported as a fork but has no parent"@),
        }
    }
}

/// Decide which GitHub repo PRs should land on. For forks, that's the parent.
pub fn resolve_merge_target(local: &RepoInfo) -> (r: Result<MergeTarget, Error>)
    ensures
        command::seen(r) == merge_target(local.deep_view()),
{
    if !local.is_fork {
        return Ok(MergeTarget::Own(local.clone()));
    }
    match &local.parent_name_with_owner {
        Some(parent) => Ok(MergeTarget::Parent(parent.clone())),
        None => Err(Error::new("repository is reported as a fork but has no parent")),
    }
}

// --- the remote -------------------------------------------------------------

/// A URL as it is compared: without surrounding white space, trailing slashes
/// and one trailing `.git`, and in lower case.
pub open spec fn bare_url(url: Seq<char>) -> Seq<char> {
    text::lowercase(text::without_suffix(text::stripped_end(text::trimmed(url), "/"@), ".git"@))
}

/// The URL points at the repository `owner/name`: it ends with that name,
/// whatever the case of its letters, on a path boundary.
pub open spec fn points_at(url: Seq<char>, name_with_owner: Seq<char>) -> bool {
    let hay = bare_url(url);
    let needle = text::lowercase(name_with_owner);
    let at = hay.len() - needle.len() - 1;
    at >= 0 && text::ends(hay, needle) && (hay[at] == '/' || hay[at] == ':')
}

/// Loose URL match: strip a trailing `.git` and check whether the URL ends
/// with the canonical `owner/name`. Handles https, ssh, and git protocol.
pub fn url_points_at(url: &str, name_with_owner: &str) -> (r: bool)
    ensures
        r == points_at(url@, name_with_owner@),
{
    proof {
        reveal_strlit("/");
    }
    let trimmed = text::strip_suffix(text::trim_end_matches(text::trim(url), "/"), ".git");
    let hay = text::lower_chars(trimmed);
    let needle = text::lower_chars(name_with_owner);
    if hay.len() <= needle.len() {
        return false;
    }
    // Make sure the match is on a path boundary (so `oo/bar` doesn't match
    // `foo/bar`'s last 6 chars).
    let at: usize = hay.len() - needle.len() - 1;
    assert(hay@.skip(at + 1) == hay@.subrange(at + 1, at + 1 + needle.len()));
    text::matches_at(&hay, at + 1, &needle) && (hay[at] == '/' || hay[at] == ':')
}

/// One of the remote's URLs points at the repository.
pub open spec fn remote_points_at(r: git::RemoteView, name_with_owner: Seq<char>) -> bool {
    points_at(r.fetch_url, name_with_owner) || points_at(r.push_url, name_with_owner)
}

/// The names of the remotes that point at the repository, in their order.
pub open spec fn matching_names(remotes: Seq<git::RemoteView>, name_with_owner: Seq<char>) -> Seq<
    Seq<char>,
>
    decreases remotes.len(),
{
    if remotes.len() == 0 {
        seq![]
    } else {
        let names = matching_names(remotes.drop_last(), name_with_owner);
        if remote_points_at(remotes.last(), name_with_owner) {
            names.push(remotes.last().name)
        } else {
            names
        }
    }
}

/// The text for a repository that no remote points at.
pub open spec fn no_remote_text(target: Seq<char>) -> Seq<char> {
    "no local git remote points at `"@ + target
        + "`. Add one with:\n  git remote add upstream https://github.com/"@ + target
        + ".git\n...or set `git config stack.remote <remote-name>`."@
}

/// The text for a repository that several remotes point at, none of them under
/// a well-known name.
pub open spec fn many_remotes_text(target: Seq<char>, names: Seq<Seq<char>>) -> Seq<char> {
    "multiple remotes point at `"@ + target + "`: "@ + text::joined(names, ", "@)
        + ". Disambiguate with `git config stack.remote <name>`."@
}

/// The well-known name of the merge-target remote: `upstream` in a fork, and
/// `origin` in any other clone.
pub open spec fn usual_name(fork: bool) -> Seq<char> {
    if fork {
        "upstream"@
    } else {
        "origin"@
    }
}

/// The remote to use among those that match by URL: the only one, else the one
/// under the usual name, else the one under the other well-known name.
pub open spec fn choose_remote(target: Seq<char>, fork: bool, names: Seq<Seq<char>>) -> Result<
    Seq<char>,
    Seq<char>,
> {
    if names.len() == 0 {
        Err(no_remote_text(target))
    } else if names.len() == 1 {
        Ok(names[0])
    } else if names.contains(usual_name(fork)) {
        Ok(usual_name(fork))
    } else if names.contains(usual_name(!fork)) {
        Ok(usual_name(!fork))
    } else {
        Err(many_remotes_text(target, names))
    }
}

/// The merge-target remote: the configured one, or the one chosen by URL.
pub open spec fn target_remote(
    target: Seq<char>,
    fork: bool,
    configured: Option<Seq<char>>,
    remotes: Seq<git::RemoteView>,
) -> Result<Seq<char>, Seq<char>> {
    match configured {
        Some(name) => Ok(name),
        None => choose_remote(target, fork, matching_names(remotes, target)),
    }
}

/// Find the *local* git remote whose URL points at `target`. Honours the
/// `stack.remote` git config override; otherwise picks by URL match. Where
/// several match, `origin` is preferred, and in a fork `upstream`.
pub fn resolve_merge_target_remote(
    target: &str,
    fork: bool,
    configured: Option<String>,
    remotes: &Vec<Remote>,
) -> (r: Result<String, Error>)
    ensures
        command::seen(r) == target_remote(
            target@,
            fork,
            configured.deep_view(),
            remotes.deep_view(),
        ),
{
    if let Some(name) = configured {
        return Ok(name);
    }
    let ghost all = remotes.deep_view();
    let mut names: Vec<String> = Vec::new();
    let mut i: usize = 0;
    assert(names.deep_view() == matching_names(all.take(0), target@));
    while i < remotes.len()
        invariant
            i <= remotes.len(),
            all == remotes.deep_view(),
            names.deep_view() == matching_names(all.take(i as int), target@),
        decreases remotes.len() - i,
    {
        let r = &remotes[i];
        assert(all.take(i + 1).drop_last() == all.take(i as int));
        assert(all.take(i + 1).last() == r.deep_view());
        if url_points_at(r.fetch_url.as_str(), target) || url_points_at(
            r.push_url.as_str(),
            target,
        ) {
            command::append_arg(&mut names, r.name.as_str());
        }
        i = i + 1;
    }
    assert(all.take(i as int) == all);
    if names.len() == 0 {
        let mut message = "no local git remote points at `".to_owned();
        message.append(target);
        message.append("`. Add one with:\n  git remote add upstream https://github.com/");
        message.append(target);
        message.append(".git\n...or set `git config stack.remote <remote-name>`.");
        return Err(Error { message });
    }
    if names.len() == 1 {
        return Ok(names[0].clone());
    }
    // Prefer well-known names if they appear; otherwise refuse to guess.
    let (first, second) = if fork {
        ("upstream", "origin")
    } else {
        ("origin", "upstream")
    };
    if git::listed(&names, first) {
        return Ok(first.to_owned());
    }
    if git::listed(&names, second) {
        return Ok(second.to_owned());
    }
    let mut message = "multiple remotes point at `".to_owned();
    message.append(target);
    message.append("`: ");
    message.append(text::join(&names, ", ").as_str());
    message.append(". Disambiguate with `git config stack.remote <name>`.");
    Err(Error { message })
}

/// A search for the merge-target remote: the configuration is asked first, and
/// the remotes are listed only where it names none.
#[derive(Debug)]
pub enum RemoteQuery {
    Configured { target: String, fork: bool },
    Listed { target: String, fork: bool },
    Done(Result<String, Error>),
}

/// The model of a [`RemoteQuery`].
#[verifier::ext_equal]
pub enum RemoteQueryView {
    Configured { target: Seq<char>, fork: bool },
    Listed { target: Seq<char>, fork: bool },
    Done(Result<Seq<char>, Seq<char>>),
}

impl DeepView for RemoteQuery {
    type V = RemoteQueryView;

    open spec fn deep_view(&self) -> RemoteQueryView {
        match self {
            RemoteQuery::Configured { target, fork } => RemoteQueryView::Configured {
                target: target@,
                fork: *fork,
            },
            RemoteQuery::Listed { target, fork } => RemoteQueryView::Listed {
                target: target@,
                fork: *fork,
            },
            RemoteQuery::Done(r) => RemoteQueryView::Done(command::seen(*r)),
        }
    }
}

/// What the search waits for.
pub open spec fn remote_query_action(q: RemoteQueryView) -> Option<step::ActionView> {
    match q {
        RemoteQueryView::Configured { .. } => Some(
            step::ActionView::Run(git::config_get_command("stack.remote"@)),
        ),
        RemoteQueryView::Listed { .. } => Some(step::ActionView::Run(git::list_remotes_command())),
        RemoteQueryView::Done(_) => None,
    }
}

/// How the search goes on.
pub open spec fn remote_query_next(q: RemoteQueryView, e: step::EventView) -> RemoteQueryView {
    match (q, e) {
        (
            RemoteQueryView::Configured { target, fork },
            step::EventView::Ran(reply),
        ) => match git::configured(reply) {
            Ok(Some(name)) => RemoteQueryView::Done(Ok(name)),
            Ok(None) => RemoteQueryView::Listed { target, fork },
            Err(e) => RemoteQueryView::Done(Err(e)),
        },
        (
            RemoteQueryView::Listed { target, fork },
            step::EventView::Ran(reply),
        ) => match git::remotes_reply(reply) {
            Ok(remotes) => RemoteQueryView::Done(target_remote(target, fork, None, remotes)),
            Err(e) => RemoteQueryView::Done(Err(e)),
        },
        (RemoteQueryView::Done(r), _) => RemoteQueryView::Done(r),
        _ => RemoteQueryView::Done(Err(step::unexpected_text())),
    }
}

/// The questions left in the search.
pub open spec fn remote_questions(q: RemoteQueryView) -> int {
    match q {
        RemoteQueryView::Configured { .. } => 2,
        RemoteQueryView::Listed { .. } => 1,
        RemoteQueryView::Done(_) => 0,
    }
}

impl RemoteQuery {
    /// What the search waits for; `None` once it is done.
    pub fn action(&self) -> (r: Option<Action>)
        ensures
            r.deep_view() == remote_query_action(self.deep_view()),
    {
        match self {
            RemoteQuery::Configured { .. } => Some(Action::Run(git::config_get("stack.remote"))),
            RemoteQuery::Listed { .. } => Some(Action::Run(git::list_remotes())),
            RemoteQuery::Done(_) => None,
        }
    }

    /// Goes on with what came back.
    pub fn step(self, event: Event) -> (r: RemoteQuery)
        ensures
            r.deep_view() == remote_query_next(self.deep_view(), event.deep_view()),
    {
        match (self, event) {
            (
                RemoteQuery::Configured { target, fork },
                Event::Ran(reply),
            ) => match git::config_get_reply(&reply) {
                Ok(Some(name)) => RemoteQuery::Done(Ok(name)),
                Ok(None) => RemoteQuery::Listed { target, fork },
                Err(e) => RemoteQuery::Done(Err(e)),
            },
            (
                RemoteQuery::Listed { target, fork },
                Event::Ran(reply),
            ) => match git::list_remotes_reply(&reply) {
                Ok(remotes) => RemoteQuery::Done(
                    resolve_merge_target_remote(target.as_str(), fork, None, &remotes),
                ),
                Err(e) => RemoteQuery::Done(Err(e)),
            },
            (RemoteQuery::Done(r), _) => RemoteQuery::Done(r),
            _ => RemoteQuery::Done(Err(step::unexpected())),
        }
    }
}

// --- laws -------------------------------------------------------------------

/// Every name among the matching names is that of a remote that points at the
/// repository.
proof fn lemma_matching_names(remotes: Seq<git::RemoteView>, target: Seq<char>, name: Seq<char>)
    ensures
        matching_names(remotes, target).contains(name) <==> exists|i: int|
            0 <= i < remotes.len() && (#[trigger] remotes[i]).name == name && remote_points_at(
                remotes[i],
                target,
            ),
    decreases remotes.len(),
{
    if remotes.len() > 0 {
        let front = remotes.drop_last();
        let before = matching_names(front, target);
        let names = matching_names(remotes, target);
        lemma_matching_names(front, target, name);
        if names.contains(name) {
            let k = choose|k: int| 0 <= k < names.len() && names[k] == name;
            if k < before.len() {
                assert(before[k] == name);
                let i = choose|i: int|
                    0 <= i < front.len() && (#[trigger] front[i]).name == name && remote_points_at(
                        front[i],
                        target,
                    );
                assert(remotes[i] == front[i]);
            } else {
                assert(remotes[remotes.len() - 1].name == name);
            }
        }
        if exists|i: int|
            0 <= i < remotes.len() && (#[trigger] remotes[i]).name == name && remote_points_at(
                remotes[i],
                target,
            ) {
            let i = choose|i: int|
                0 <= i < remotes.len() && (#[trigger] remotes[i]).name == name && remote_points_at(
                    remotes[i],
                    target,
                );
            if i < front.len() {
                assert(front[i] == remotes[i]);
                assert(before.contains(name));
                let k = choose|k: int| 0 <= k < before.len() && before[k] == name;
                assert(names[k] == name);
            } else {
                assert(names[names.len() - 1] == name);
            }
        }
    }
}

/// Without an override in the configuration, the chosen remote is one whose
/// URL points at the merge target.
pub proof fn law_chosen_remote_points_at_target(
    target: Seq<char>,
    fork: bool,
    remotes: Seq<git::RemoteView>,
    name: Seq<char>,
)
    requires
        target_remote(target, fork, None, remotes) == Ok::<Seq<char>, Seq<char>>(name),
    ensures
        exists|i: int|
            0 <= i < remotes.len() && (#[trigger] remotes[i]).name == name && remote_points_at(
                remotes[i],
                target,
            ),
{
    let names = matching_names(remotes, target);
    lemma_matching_names(remotes, target, name);
    if names.len() == 1 {
        assert(names[0] == name);
    }
}

/// The configuration overrides every match by URL.
pub proof fn law_configured_remote_wins(
    target: Seq<char>,
    fork: bool,
    name: Seq<char>,
    remotes: Seq<git::RemoteView>,
)
    ensures
        target_remote(target, fork, Some(name), remotes) == Ok::<Seq<char>, Seq<char>>(name),
{
}

/// A remote is found exactly where one is configured, exactly one matches, or
/// one of several that match is named `upstream` or `origin`.
pub proof fn law_remote_is_found_iff_unambiguous(
    target: Seq<char>,
    fork: bool,
    configured: Option<Seq<char>>,
    remotes: Seq<git::RemoteView>,
)
    ensures
        target_remote(target, fork, configured, remotes) is Ok <==> {
            let names = matching_names(remotes, target);
            configured is Some || names.len() == 1 || names.contains("upstream"@)
                || names.contains("origin"@)
        },
{
}

/// A clone that is no fork uses `origin` where `origin` points at the merge
/// target, and a fork `upstream` where `upstream` does, whatever else matches.
pub proof fn law_usual_remote_is_preferred(
    target: Seq<char>,
    fork: bool,
    remotes: Seq<git::RemoteView>,
)
    requires
        matching_names(remotes, target).contains(usual_name(fork)),
    ensures
        target_remote(target, fork, None, remotes) == Ok::<Seq<char>, Seq<char>>(usual_name(fork)),
{
}

/// Leading white space is gone before the first other character.
proof fn lemma_trimmed_start_of_sum(a: Seq<char>, b: Seq<char>)
    requires
        b.len() > 0,
        !text::white_space(b[0]),
    ensures
        text::trimmed_start(a + b) == text::trimmed_start(a) + b,
    decreases a.len(),
{
    if a.len() > 0 && text::white_space(a[0]) {
        assert((a + b).skip(1) == a.skip(1) + b);
        lemma_trimmed_start_of_sum(a.skip(1), b);
    } else if a.len() == 0 {
        assert(a + b == b);
    }
}

/// What does not end with a slash is stripped of one behind it.
proof fn lemma_stripped_slash(s: Seq<char>)
    requires
        s.len() > 0,
        s.last() != '/',
    ensures
        text::stripped_end(s, "/"@) == s,
        text::stripped_end(s + "/"@, "/"@) == s,
{
    reveal_strlit("/");
    let slash = "/"@;
    assert(slash[0] == '/');
    assert(s.skip(s.len() - 1)[0] == s.last());
    assert((s + slash).skip(s.len() as int) == slash);
    assert((s + slash).take(s.len() as int) == s);
}

/// A separator in front of a name does not make a `.git` suffix.
proof fn lemma_no_git_suffix(a: Seq<char>, separator: char, name: Seq<char>)
    requires
        separator == '/' || separator == ':',
        !text::ends(name, ".git"@),
    ensures
        !text::ends(a + (seq![separator] + name), ".git"@),
{
    reveal_strlit(".git");
    let git = ".git"@;
    let x = a + (seq![separator] + name);
    if text::ends(x, git) {
        let tail = x.skip(x.len() - 4);
        if name.len() >= 4 {
            assert(name.skip(name.len() - 4) == tail);
        } else {
            let k = 3 - name.len();
            assert(tail[k] == separator);
            assert(git[k] == '.' || git[k] == 'g' || git[k] == 'i' || git[k] == 't');
        }
    }
}

/// A URL that ends with a separator and the repository's name points at the
/// repository, whatever stands before (`https://host/`, `git@host:`,
/// `ssh://git@host/`), and with `.git` or a slash behind it as well. The end of
/// the name itself must not be among what is stripped from the URL.
pub proof fn law_url_with_name_points_at_it(prefix: Seq<char>, name: Seq<char>, suffix: Seq<char>)
    requires
        prefix.len() > 0,
        prefix.last() == '/' || prefix.last() == ':',
        name.len() > 0,
        suffix == ""@ ==> !text::white_space(name.last()),
        suffix == ""@ || suffix == "/"@ ==> name.last() != '/' && !text::ends(name, ".git"@),
        suffix == ""@ || suffix == ".git"@ || suffix == "/"@ || suffix == ".git/"@,
    ensures
        points_at(prefix + name + suffix, name),
{
    reveal_strlit("");
    reveal_strlit("/");
    reveal_strlit(".git");
    reveal_strlit(".git/");
    let url = prefix + name + suffix;
    let a = prefix.drop_last();
    let core = seq![prefix.last()] + name;
    let x = text::trimmed_start(a) + core;
    assert(url == a + (core + suffix));
    assert(text::trimmed_end(url) == url);
    lemma_trimmed_start_of_sum(a, core + suffix);
    assert(text::trimmed(url) == x + suffix);
    assert(x.last() == name.last());
    let dotted = x + ".git"@;
    assert(dotted.skip(x.len() as int) == ".git"@);
    assert(dotted.take(x.len() as int) == x);
    if suffix == ""@ || suffix == "/"@ {
        assert(x + ""@ == x);
        lemma_no_git_suffix(text::trimmed_start(a), prefix.last(), name);
        lemma_stripped_slash(x);
    } else {
        assert(x + ".git/"@ == dotted + "/"@);
        lemma_stripped_slash(dotted);
    }
    let hay = text::lowercase(x);
    let needle = text::lowercase(name);
    assert(bare_url(url) == hay);
    assert(hay.skip(hay.len() - needle.len()) == needle);
    let at = hay.len() - needle.len() - 1;
    assert(x[at] == prefix.last());
}

/// Whether a URL points at a repository does not depend on the case in which
/// the repository's name is written.
pub proof fn law_url_match_ignores_case_of_name(url: Seq<char>, name: Seq<char>)
    ensures
        points_at(url, name) == points_at(url, text::lowercase(name)),
{
    assert(text::lowercase(text::lowercase(name)) == text::lowercase(name));
}

/// The whole search, whatever its two questions bring: it comes to the remote
/// that the configuration and the listed remotes determine, and fails where one
/// of them that counts cannot be had.
pub proof fn law_search_resolves_the_remote(
    target: Seq<char>,
    fork: bool,
    config: command::ReplyView,
    listing: command::ReplyView,
)
    ensures
        ({
            let asked = remote_query_next(
                RemoteQueryView::Configured { target, fork },
                step::EventView::Ran(config),
            );
            let found = remote_query_next(asked, step::EventView::Ran(listing));
            match (git::configured(config), git::remotes_reply(listing)) {
                (Err(e), _) => found == RemoteQueryView::Done(Err(e)),
                (Ok(None), Err(e)) => found == RemoteQueryView::Done(Err(e)),
                (Ok(None), Ok(remotes)) => found == RemoteQueryView::Done(
                    target_remote(target, fork, None, remotes),
                ),
                (Ok(Some(name)), _) => found == RemoteQueryView::Done(
                    target_remote(target, fork, Some(name), seq![]),
                ),
            }
        }),
{
}

} // verus!
