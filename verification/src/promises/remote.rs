//! Where PRs land, and which remote leads there.

use vstd::prelude::*;
use vstd::string::*;

use crate::command;
use crate::gh;
use crate::git;
use crate::promises;
use crate::promises::replies;
use crate::promises::words;
use crate::step;
use crate::target;
use crate::text;

verus! {

// --- the merge target -------------------------------------------------------

/// PRs of a fork land on its parent, and those of any other repository on the
/// repository itself. Only a fork without a parent has no merge target.
pub proof fn law_prs_land_on_the_parent_of_a_fork(local: gh::RepoInfoView)
    ensures
        target::merge_target(local) matches Ok(target::MergeTargetView::Own(info)) ==> info
            == local && !local.is_fork,
        target::merge_target(local) matches Ok(target::MergeTargetView::Parent(parent))
            ==> local.is_fork && local.parent_name_with_owner == Some(parent),
        target::merge_target(local) is Err <==> local.is_fork && local.parent_name_with_owner
            is None,
{
}

// --- URLs -------------------------------------------------------------------

/// Slashes alone.
pub open spec fn all_slashes(s: Seq<char>) -> bool {
    forall|i: int| 0 <= i < s.len() ==> #[trigger] s[i] == '/'
}

/// `core` is what counts of a URL: white space around it, slashes behind it and
/// one `.git` before those do not.
pub open spec fn is_core(
    core: Seq<char>,
    url: Seq<char>,
    a: Seq<char>,
    ending: Seq<char>,
    slashes: Seq<char>,
    b: Seq<char>,
) -> bool {
    &&& url == a + (core + ending + slashes) + b
    &&& words::all_blank(a)
    &&& words::all_blank(b)
    &&& words::is_bare(core + ending + slashes)
    &&& all_slashes(slashes)
    &&& (core + ending).len() > 0 ==> (core + ending).last() != '/'
    &&& ending == ".git"@ || (ending.len() == 0 && !".git"@.is_suffix_of(core))
}

/// A text that ends with a repository's name, in whatever case, behind a slash
/// or a colon.
pub open spec fn leads_to(core: Seq<char>, name: Seq<char>) -> bool {
    exists|front: Seq<char>, sep: char, found: Seq<char>|
        {
            &&& core == #[trigger] (front + seq![sep] + found)
            &&& sep == '/' || sep == ':'
            &&& promises::same_letters(found, name)
        }
}

/// A URL points at a repository if and only if what counts of it ends with the
/// repository's whole name, in whatever case, behind a slash or a colon.
pub proof fn law_url_points_at_the_name_it_ends_with(url: Seq<char>, name: Seq<char>)
    ensures
        target::points_at(url, name) <==> exists|
            core: Seq<char>,
            a: Seq<char>,
            ending: Seq<char>,
            slashes: Seq<char>,
            b: Seq<char>,
        | #[trigger] is_core(core, url, a, ending, slashes, b) && leads_to(core, name),
{
    let (core, a, ending, slashes, b) = lemma_core_of(url);
    lemma_leads_to(core, name);
    if exists|
        core: Seq<char>,
        a: Seq<char>,
        ending: Seq<char>,
        slashes: Seq<char>,
        b: Seq<char>,
    | #[trigger] is_core(core, url, a, ending, slashes, b) && leads_to(core, name) {
        let (core2, a2, ending2, slashes2, b2) = choose|
            core: Seq<char>,
            a: Seq<char>,
            ending: Seq<char>,
            slashes: Seq<char>,
            b: Seq<char>,
        | #[trigger] is_core(core, url, a, ending, slashes, b) && leads_to(core, name);
        lemma_one_core(core2, url, a2, ending2, slashes2, b2);
    }
}

/// What counts of a URL, as it is computed.
spec fn core_of(url: Seq<char>) -> Seq<char> {
    text::without_suffix(text::stripped_end(text::trimmed(url), "/"@), ".git"@)
}

proof fn lemma_leads_to(core: Seq<char>, name: Seq<char>)
    ensures
        leads_to(core, name) <==> {
            let hay = text::lowercase(core);
            let needle = text::lowercase(name);
            let at = hay.len() - needle.len() - 1;
            at >= 0 && text::ends(hay, needle) && (hay[at] == '/' || hay[at] == ':')
        },
{
    let hay = text::lowercase(core);
    let needle = text::lowercase(name);
    let at = hay.len() - needle.len() - 1;
    assert(hay.len() == core.len() && needle.len() == name.len());
    if at >= 0 {
        let front = core.take(at);
        let sep = core[at];
        let found = core.skip(at + 1);
        assert(core == front + seq![sep] + found);
        assert(hay[at] == text::lower(core[at]));
        assert(hay.skip(at + 1) == text::lowercase(found));
        promises::law_lower_case_forgets_case(found, name);
        if text::ends(hay, needle) && (hay[at] == '/' || hay[at] == ':') {
            assert(leads_to(core, name));
        }
    }
    if leads_to(core, name) {
        let (front, sep, found) = choose|front: Seq<char>, sep: char, found: Seq<char>|
            {
                &&& core == #[trigger] (front + seq![sep] + found)
                &&& sep == '/' || sep == ':'
                &&& promises::same_letters(found, name)
            };
        assert(at == front.len());
        assert(core[at] == sep);
        assert(core.skip(at + 1) == found);
    }
}

proof fn lemma_slashes_part(s: Seq<char>) -> (r: Seq<char>)
    ensures
        all_slashes(r),
        s == text::stripped_end(s, "/"@) + r,
        text::stripped_end(s, "/"@).len() > 0 ==> text::stripped_end(s, "/"@).last() != '/',
    decreases s.len(),
{
    reveal_strlit("/");
    assert("/"@ == seq!['/']);
    words::law_parts_of_a_text(s, "/"@);
    if s.len() > 0 && s.last() == '/' {
        let front = s.drop_last();
        assert(s == front + "/"@);
        words::law_all_copies_are_cut(front, "/"@);
        let r = lemma_slashes_part(front);
        let all = r.push('/');
        assert(s == text::stripped_end(front, "/"@) + all);
        all
    } else {
        if "/"@.is_suffix_of(s) {
            assert(s.subrange(s.len() - 1, s.len() as int)[0] == "/"@[0]);
        }
        words::law_all_copies_are_cut(s, "/"@);
        assert(s == s + Seq::<char>::empty());
        seq![]
    }
}

proof fn lemma_slashes_are_cut(s: Seq<char>, slashes: Seq<char>)
    requires
        all_slashes(slashes),
        s.len() > 0 ==> s.last() != '/',
    ensures
        text::stripped_end(s + slashes, "/"@) == s,
    decreases slashes.len(),
{
    reveal_strlit("/");
    assert("/"@ == seq!['/']);
    if slashes.len() > 0 {
        let front = slashes.drop_last();
        assert(slashes[slashes.len() - 1] == '/');
        assert(s + slashes == (s + front) + "/"@);
        words::law_all_copies_are_cut(s + front, "/"@);
        assert forall|i: int| 0 <= i < front.len() implies #[trigger] front[i] == '/' by {
            assert(front[i] == slashes[i]);
        }
        lemma_slashes_are_cut(s, front);
    } else {
        assert(s + slashes == s);
        if "/"@.is_suffix_of(s) {
            assert(s.subrange(s.len() - 1, s.len() as int)[0] == "/"@[0]);
        }
        words::law_all_copies_are_cut(s, "/"@);
    }
}

proof fn lemma_core_of(url: Seq<char>) -> (r: (
    Seq<char>,
    Seq<char>,
    Seq<char>,
    Seq<char>,
    Seq<char>,
))
    ensures
        r.0 == core_of(url),
        is_core(r.0, url, r.1, r.2, r.3, r.4),
{
    reveal_strlit(".git");
    let (a, b) = words::lemma_trimmed_parts(url);
    let t = text::trimmed(url);
    let slashes = lemma_slashes_part(t);
    let x = text::stripped_end(t, "/"@);
    let core = core_of(url);
    words::law_parts_of_a_text(x, ".git"@);
    if ".git"@.is_suffix_of(x) {
        assert(x == core + ".git"@);
        assert(t == core + ".git"@ + slashes);
        (core, a, ".git"@, slashes, b)
    } else {
        let none = Seq::<char>::empty();
        words::law_suffix_is_cut_once(x, ".git"@);
        assert(core + none == core);
        assert(t == core + none + slashes);
        (core, a, none, slashes, b)
    }
}

proof fn lemma_one_core(
    core: Seq<char>,
    url: Seq<char>,
    a: Seq<char>,
    ending: Seq<char>,
    slashes: Seq<char>,
    b: Seq<char>,
)
    requires
        is_core(core, url, a, ending, slashes, b),
    ensures
        core == core_of(url),
{
    words::law_trim_cuts_blanks_at_the_ends(a, core + ending + slashes, b);
    lemma_slashes_are_cut(core + ending, slashes);
    words::law_suffix_is_cut_once(core, ".git"@);
    if ending.len() == 0 {
        assert(core + ending == core);
    }
}

// --- the choice of a remote -------------------------------------------------

/// The `i`-th remote leads to the target, to fetch from or to push to.
pub open spec fn matches_at(remotes: Seq<git::RemoteView>, i: int, target: Seq<char>) -> bool {
    0 <= i < remotes.len() && (target::points_at(remotes[i].fetch_url, target)
        || target::points_at(remotes[i].push_url, target))
}

/// Some remote of this name leads to the target.
pub open spec fn is_match(
    remotes: Seq<git::RemoteView>,
    name: Seq<char>,
    target: Seq<char>,
) -> bool {
    exists|i: int| #[trigger] matches_at(remotes, i, target) && remotes[i].name == name
}

/// The only remote that leads to the target.
pub open spec fn is_only_match(
    remotes: Seq<git::RemoteView>,
    name: Seq<char>,
    target: Seq<char>,
) -> bool {
    exists|i: int|
        {
            &&& #[trigger] matches_at(remotes, i, target)
            &&& remotes[i].name == name
            &&& forall|j: int| #[trigger] matches_at(remotes, j, target) ==> j == i
        }
}

proof fn lemma_matches(remotes: Seq<git::RemoteView>, target: Seq<char>)
    ensures
        ({
            let names = target::matching_names(remotes, target);
            &&& names.len() <= remotes.len()
            &&& names.len() == 0 <==> forall|i: int| !#[trigger] matches_at(remotes, i, target)
            &&& names.len() == 1 ==> is_only_match(remotes, names[0], target)
            &&& names.len() > 1 ==> exists|i: int, j: int|
                i != j && #[trigger] matches_at(remotes, i, target) && #[trigger] matches_at(
                    remotes,
                    j,
                    target,
                )
            &&& forall|n: Seq<char>| #[trigger] names.contains(n) <==> is_match(remotes, n, target)
        }),
    decreases remotes.len(),
{
    let names = target::matching_names(remotes, target);
    if remotes.len() > 0 {
        let front = remotes.drop_last();
        let last = remotes.len() - 1;
        let before = target::matching_names(front, target);
        lemma_matches(front, target);
        let hit = matches_at(remotes, last, target);
        assert forall|i: int| matches_at(front, i, target) implies #[trigger] matches_at(
            remotes,
            i,
            target,
        ) && i != last && remotes[i] == front[i] by {}
        assert forall|i: int| #[trigger] matches_at(remotes, i, target) implies i == last
            || matches_at(front, i, target) by {}
        assert forall|n: Seq<char>| #[trigger] names.contains(n) <==> is_match(
            remotes,
            n,
            target,
        ) by {
            lemma_match_more(remotes, n, target);
            if hit {
                assert(names == before.push(remotes.last().name));
                if before.contains(n) {
                    let k = choose|k: int| 0 <= k < before.len() && before[k] == n;
                    assert(names[k] == n);
                }
                if n == remotes.last().name {
                    assert(names[names.len() - 1] == n);
                }
                if names.contains(n) {
                    let k = choose|k: int| 0 <= k < names.len() && names[k] == n;
                    if k < before.len() {
                        assert(before[k] == n);
                    }
                }
            }
        }
        if hit {
            assert(names == before.push(remotes.last().name));
            if before.len() == 0 {
                assert forall|j: int| #[trigger] matches_at(remotes, j, target) implies j == last by {
                    assert(!matches_at(front, j, target));
                }
                assert(is_only_match(remotes, names[0], target));
            } else if before.len() == 1 {
                let i = choose|i: int|
                    {
                        &&& #[trigger] matches_at(front, i, target)
                        &&& front[i].name == before[0]
                        &&& forall|j: int| #[trigger] matches_at(front, j, target) ==> j == i
                    };
                assert(matches_at(remotes, i, target) && matches_at(remotes, last, target));
            } else {
                let (i, j) = choose|i: int, j: int|
                    i != j && #[trigger] matches_at(front, i, target) && #[trigger] matches_at(
                        front,
                        j,
                        target,
                    );
                assert(matches_at(remotes, i, target) && matches_at(remotes, j, target));
            }
        } else {
            assert(names == before);
            if before.len() == 0 {
                assert forall|i: int| !#[trigger] matches_at(remotes, i, target) by {
                    assert(!matches_at(front, i, target));
                }
            } else if before.len() == 1 {
                let i = choose|i: int|
                    {
                        &&& #[trigger] matches_at(front, i, target)
                        &&& front[i].name == before[0]
                        &&& forall|j: int| #[trigger] matches_at(front, j, target) ==> j == i
                    };
                assert(matches_at(remotes, i, target) && remotes[i].name == before[0]);
                assert(is_only_match(remotes, names[0], target));
            } else {
                let (i, j) = choose|i: int, j: int|
                    i != j && #[trigger] matches_at(front, i, target) && #[trigger] matches_at(
                        front,
                        j,
                        target,
                    );
                assert(matches_at(remotes, i, target) && matches_at(remotes, j, target));
            }
        }
    }
}

proof fn lemma_match_more(remotes: Seq<git::RemoteView>, n: Seq<char>, target: Seq<char>)
    requires
        remotes.len() > 0,
    ensures
        is_match(remotes, n, target) <==> is_match(remotes.drop_last(), n, target) || (matches_at(
            remotes,
            remotes.len() - 1,
            target,
        ) && remotes.last().name == n),
{
    let front = remotes.drop_last();
    if is_match(front, n, target) {
        let i = choose|i: int| #[trigger] matches_at(front, i, target) && front[i].name == n;
        assert(matches_at(remotes, i, target) && remotes[i].name == n);
    }
    if is_match(remotes, n, target) {
        let i = choose|i: int| #[trigger] matches_at(remotes, i, target) && remotes[i].name == n;
        if i < front.len() {
            assert(matches_at(front, i, target) && front[i].name == n);
        }
    }
}

/// A configured remote is used whatever the others are. Otherwise the remote is
/// the only one that leads to the target; where several do, the one called
/// `origin`, or in a fork `upstream`; where there is none of this name, the one
/// that has the other of these names. In all other cases there is none.
pub proof fn law_choice_of_the_remote(
    target: Seq<char>,
    fork: bool,
    configured: Option<Seq<char>>,
    remotes: Seq<git::RemoteView>,
    name: Seq<char>,
)
    ensures
        configured == Some(name) ==> target::target_remote(target, fork, configured, remotes)
            == Ok::<Seq<char>, Seq<char>>(name),
        ({
            let first = if fork {
                "upstream"@
            } else {
                "origin"@
            };
            let second = if fork {
                "origin"@
            } else {
                "upstream"@
            };
            let lonely = exists|n: Seq<char>| #[trigger] is_only_match(remotes, n, target);
            let chosen = target::target_remote(target, fork, None, remotes);
            &&& chosen == Ok::<Seq<char>, Seq<char>>(name) <==> {
                ||| is_only_match(remotes, name, target)
                ||| !lonely && name == first && is_match(remotes, first, target)
                ||| !lonely && name == second && is_match(remotes, second, target) && !is_match(
                    remotes,
                    first,
                    target,
                )
            }
            &&& chosen is Err <==> !lonely && !is_match(remotes, first, target) && !is_match(
                remotes,
                second,
                target,
            )
        }),
{
    reveal_strlit("upstream");
    reveal_strlit("origin");
    assert("upstream"@.len() != "origin"@.len());
    lemma_matches(remotes, target);
    let names = target::matching_names(remotes, target);
    let first = if fork {
        "upstream"@
    } else {
        "origin"@
    };
    let second = if fork {
        "origin"@
    } else {
        "upstream"@
    };
    assert(names.contains(first) <==> is_match(remotes, first, target));
    assert(names.contains(second) <==> is_match(remotes, second, target));
    if exists|n: Seq<char>| #[trigger] is_only_match(remotes, n, target) {
        let n = choose|n: Seq<char>| #[trigger] is_only_match(remotes, n, target);
        assert(names.len() == 1);
        lemma_one_only_match(remotes, n, names[0], target);
    }
    if is_only_match(remotes, name, target) {
        assert(names.len() == 1);
        lemma_one_only_match(remotes, name, names[0], target);
    }
    if names.len() == 0 {
        assert(!is_match(remotes, first, target));
        assert(!is_match(remotes, second, target));
    }
}

proof fn lemma_one_only_match(
    remotes: Seq<git::RemoteView>,
    a: Seq<char>,
    b: Seq<char>,
    target: Seq<char>,
)
    requires
        is_only_match(remotes, a, target),
        is_only_match(remotes, b, target),
    ensures
        a == b,
{
}

/// Where no remote can be told, the error names the target. Without a match it
/// says how to add a remote; with several it names each of them.
pub proof fn law_missing_remote_is_explained(
    target: Seq<char>,
    fork: bool,
    remotes: Seq<git::RemoteView>,
    i: int,
)
    ensures
        target::target_remote(target, fork, None, remotes) matches Err(message) ==> {
            &&& promises::shows(message, target)
            &&& matches_at(remotes, i, target) ==> promises::shows(message, remotes[i].name)
            &&& promises::shows(message, "git config stack.remote"@)
            &&& (forall|j: int| !#[trigger] matches_at(remotes, j, target)) ==> promises::shows(
                message,
                "git remote add upstream https://github.com/"@ + target,
            )
        },
{
    let names = target::matching_names(remotes, target);
    lemma_matches(remotes, target);
    if names.len() == 0 {
        let a = "no local git remote points at `"@;
        let b = "`. Add one with:\n  git remote add upstream https://github.com/"@;
        let c = ".git\n...or set `git config stack.remote <remote-name>`."@;
        let message = target::no_remote_text(target);
        promises::lemma_shows(message, a, target, b + target + c);
        lemma_config_hint();
        promises::lemma_shows_more(
            message,
            a + target + b + target,
            c,
            seq![],
            "git config stack.remote"@,
        );
        lemma_add_hint();
        let lead = "`. Add one with:\n  "@;
        let hint = "git remote add upstream https://github.com/"@;
        assert(b == lead + hint);
        promises::lemma_shows(message, a + target + lead, hint + target, c);
    } else {
        let a = "multiple remotes point at `"@;
        let list = text::joined(names, ", "@);
        let c = ". Disambiguate with `git config stack.remote <name>`."@;
        let message = target::many_remotes_text(target, names);
        promises::lemma_shows(message, a, target, "`: "@ + list + c);
        lemma_config_hint();
        promises::lemma_shows_more(
            message,
            a + target + "`: "@ + list,
            c,
            seq![],
            "git config stack.remote"@,
        );
        if matches_at(remotes, i, target) {
            let n = remotes[i].name;
            assert(is_match(remotes, n, target));
            assert(names.contains(n));
            let k = choose|k: int| 0 <= k < names.len() && names[k] == n;
            lemma_joined_shows(names, ", "@, k);
            promises::lemma_shows_more(message, a + target + "`: "@, list, c, n);
        }
    }
}

proof fn lemma_add_hint()
    ensures
        "`. Add one with:\n  git remote add upstream https://github.com/"@ == "`. Add one with:\n  "@
            + "git remote add upstream https://github.com/"@,
{
    reveal_strlit("`. Add one with:\n  git remote add upstream https://github.com/");
    reveal_strlit("`. Add one with:\n  ");
    reveal_strlit("git remote add upstream https://github.com/");
}

proof fn lemma_config_hint()
    ensures
        promises::shows(
            ".git\n...or set `git config stack.remote <remote-name>`."@,
            "git config stack.remote"@,
        ),
        promises::shows(
            ". Disambiguate with `git config stack.remote <name>`."@,
            "git config stack.remote"@,
        ),
{
    reveal_strlit("git config stack.remote");
    reveal_strlit(".git\n...or set `git config stack.remote <remote-name>`.");
    reveal_strlit(". Disambiguate with `git config stack.remote <name>`.");
    let hint = "git config stack.remote"@;
    let a = ".git\n...or set `git config stack.remote <remote-name>`."@;
    let b = ". Disambiguate with `git config stack.remote <name>`."@;
    assert(a == a.take(16) + hint + a.skip(16int + hint.len()));
    assert(b == b.take(21) + hint + b.skip(21int + hint.len()));
}

proof fn lemma_joined_shows(parts: Seq<Seq<char>>, sep: Seq<char>, k: int)
    requires
        0 <= k < parts.len(),
    ensures
        promises::shows(text::joined(parts, sep), parts[k]),
    decreases parts.len(),
{
    let none = Seq::<char>::empty();
    if parts.len() == 1 {
        assert(text::joined(parts, sep) == none + parts[0] + none);
        promises::lemma_shows(text::joined(parts, sep), none, parts[0], none);
    } else {
        let front = parts.drop_last();
        let whole = text::joined(parts, sep);
        assert(whole == text::joined(front, sep) + sep + parts.last());
        if k == parts.len() - 1 {
            promises::lemma_shows(whole, text::joined(front, sep) + sep, parts.last(), none);
        } else {
            lemma_joined_shows(front, sep, k);
            promises::lemma_shows_more(
                whole,
                none,
                text::joined(front, sep),
                sep + parts.last(),
                front[k],
            );
        }
    }
}

// --- the search -------------------------------------------------------------

/// The search asks for `stack.remote` first. A configured remote ends it; where
/// none is, the remotes are listed; any other end of git fails it.
pub proof fn law_search_asks_the_configuration_first(
    target: Seq<char>,
    fork: bool,
    reply: command::ReplyView,
)
    ensures
        ({
            let q = target::RemoteQueryView::Configured { target, fork };
            let next = target::remote_query_next(q, step::EventView::Ran(reply));
            &&& target::remote_query_action(q) matches Some(step::ActionView::Run(c))
                && replies::runs_git(c, seq!["config"@, "--get"@, "stack.remote"@])
            &&& match next {
                target::RemoteQueryView::Done(Ok(name)) => replies::exit_code(reply) == Some(0i32)
                    && replies::is_text_of(name, replies::stdout_of(reply)),
                target::RemoteQueryView::Listed { target: t, fork: f } => replies::exit_code(reply)
                    == Some(1i32) && t == target && f == fork,
                target::RemoteQueryView::Done(Err(_)) => replies::exit_code(reply) != Some(0i32)
                    && replies::exit_code(reply) != Some(1i32),
                _ => false,
            }
        }),
{
    replies::law_config_by_exit_code(reply);
}

/// The listed remotes are then chosen from. The search fails if git does, and
/// otherwise ends with the choice among what git printed.
pub proof fn law_search_chooses_among_the_listed(
    target: Seq<char>,
    fork: bool,
    reply: command::ReplyView,
)
    ensures
        ({
            let q = target::RemoteQueryView::Listed { target, fork };
            let next = target::remote_query_next(q, step::EventView::Ran(reply));
            &&& target::remote_query_action(q) matches Some(step::ActionView::Run(c))
                && replies::runs_git(c, seq!["remote"@, "-v"@])
            &&& if promises::ended_well(reply) {
                exists|raw: Seq<char>|
                    {
                        &&& #[trigger] replies::is_text_of(raw, replies::stdout_of(reply))
                        &&& next == target::RemoteQueryView::Done(
                            target::target_remote(target, fork, None, git::listed_remotes(raw)),
                        )
                    }
            } else {
                next matches target::RemoteQueryView::Done(Err(_))
            }
        }),
{
    replies::law_outputs_are_trimmed(replies::stdout_of(reply));
}

// --- the list of remotes ----------------------------------------------------

/// A line of `git remote -v` is read as it is written: the name before the tab,
/// the URL behind it, blanks and all, and the use in brackets at the end.
pub proof fn law_remote_line_is_read_as_written(name: Seq<char>, url: Seq<char>, filter: Seq<char>)
    requires
        name.len() > 0,
        !name.contains('\t'),
        url.len() > 0,
        !filter.contains(' '),
    ensures
        ({
            let front = name + seq!['\t'] + url + seq![' '];
            let noted = seq![' ', '['] + filter;
            &&& git::listing(front + "(fetch)"@) == Some(git::Listing { name, url, push: false })
            &&& git::listing(front + "(push)"@) == Some(git::Listing { name, url, push: true })
            &&& git::listing(front + "(fetch)"@ + noted) == Some(
                git::Listing { name, url, push: false },
            )
            &&& git::listing(front + "(push)"@ + noted) == Some(
                git::Listing { name, url, push: true },
            )
        }),
{
    reveal_strlit("(fetch)");
    reveal_strlit("(push)");
    reveal_strlit("push");
    let fetch = "(fetch)"@;
    let push = "(push)"@;
    assert(!fetch.contains(' '));
    assert(!push.contains(' '));
    assert(fetch[0] == '(' && push[0] == '(');
    assert("push"@.len() == 4);
    assert(push.subrange(1int, 1int + "push"@.len()) == "push"@);
    assert(text::occurs(push, "push"@));
    assert(!text::occurs(fetch, "push"@)) by {
        if text::occurs(fetch, "push"@) {
            let i = choose|i: int|
                0 <= i <= fetch.len() - "push"@.len() && #[trigger] fetch.subrange(
                    i,
                    i + "push"@.len(),
                ) == "push"@;
            assert(fetch.subrange(i, i + "push"@.len())[0] == 'p');
            assert(fetch[i] == 'p');
        }
    }
    lemma_line(name, url, fetch, filter);
    lemma_line(name, url, push, filter);
}

proof fn lemma_up_to_last(a: Seq<char>, b: Seq<char>)
    requires
        !b.contains(' '),
    ensures
        text::up_to_last(a + seq![' '] + b, ' ') == a.len() + 1,
{
    let s = a + seq![' '] + b;
    words::law_last_occurrence(s, ' ');
    let n = text::up_to_last(s, ' ');
    assert(s[a.len() as int] == ' ');
    if n > a.len() + 1 {
        assert(s[n - 1] == b[n - 1 - a.len() - 1]);
        assert(b.contains(' '));
    }
}

/// What stands behind the tab, before and after the filter is cut off.
proof fn lemma_filter(rest: Seq<char>, url: Seq<char>, kind: Seq<char>, filter: Seq<char>)
    requires
        rest =~= url + seq![' '] + kind,
        !filter.contains(' '),
        !kind.contains(' '),
        kind.len() > 0,
        kind[0] == '(',
    ensures
        git::without_filter(rest) == rest,
        git::without_filter(rest + (seq![' ', '['] + filter)) == rest,
{
    reveal_strlit("[");
    assert("["@ == seq!['[']);
    lemma_up_to_last(url, kind);
    let n = url.len() as int + 1;
    assert(rest.skip(n) == kind);
    assert(!text::begins(kind, "["@)) by {
        if text::begins(kind, "["@) {
            assert(kind.take(1)[0] == "["@[0]);
        }
    }
    let tail = rest + (seq![' ', '['] + filter);
    let bracket = seq!['['] + filter;
    assert(tail == rest + seq![' '] + bracket);
    assert(!bracket.contains(' ')) by {
        if bracket.contains(' ') {
            let k = choose|k: int| 0 <= k < bracket.len() && bracket[k] == ' ';
            assert(filter[k - 1] == ' ');
        }
    }
    lemma_up_to_last(rest, bracket);
    let m = rest.len() as int + 1;
    assert(tail.skip(m) == bracket);
    assert(tail.take(m - 1) == rest);
    assert("["@.is_prefix_of(bracket));
    words::law_parts_of_a_text(bracket, "["@);
}

/// A line whose part behind the tab is known without its filter.
proof fn lemma_tabbed(
    name: Seq<char>,
    tail: Seq<char>,
    rest: Seq<char>,
    url: Seq<char>,
    kind: Seq<char>,
)
    requires
        name.len() > 0,
        !name.contains('\t'),
        url.len() > 0,
        !kind.contains(' '),
        rest =~= url + seq![' '] + kind,
        git::without_filter(tail) == rest,
    ensures
        git::listing(name + seq!['\t'] + tail) == Some(
            git::Listing { name, url, push: text::occurs(kind, "push"@) },
        ),
{
    let line = name + seq!['\t'] + tail;
    words::law_first_occurrence(name, '\t', tail);
    assert(line.take(name.len() as int) == name);
    assert(line.skip(name.len() as int + 1) == tail);
    lemma_up_to_last(url, kind);
    let n = url.len() as int + 1;
    assert(rest.skip(n) == kind);
    assert(rest.take(n - 1) == url);
}

proof fn lemma_line(name: Seq<char>, url: Seq<char>, kind: Seq<char>, filter: Seq<char>)
    requires
        name.len() > 0,
        !name.contains('\t'),
        url.len() > 0,
        !filter.contains(' '),
        !kind.contains(' '),
        kind.len() > 0,
        kind[0] == '(',
    ensures
        ({
            let line = name + seq!['\t'] + url + seq![' '] + kind;
            let read = Some(git::Listing { name, url, push: text::occurs(kind, "push"@) });
            git::listing(line) == read && git::listing(line + (seq![' ', '['] + filter)) == read
        }),
{
    let rest = url + seq![' '] + kind;
    let noted = seq![' ', '['] + filter;
    let line = name + seq!['\t'] + url + seq![' '] + kind;
    lemma_filter(rest, url, kind, filter);
    lemma_tabbed(name, rest, rest, url, kind);
    lemma_tabbed(name, rest + noted, rest, url, kind);
    assert(line == name + seq!['\t'] + rest);
    assert(line + noted == name + seq!['\t'] + (rest + noted));
}

/// The use of a URL is to push if and only if what stands behind the last blank
/// says `push`. A line without a use gives a URL to fetch from.
pub proof fn law_use_of_a_url(name: Seq<char>, url: Seq<char>, kind: Seq<char>)
    requires
        name.len() > 0,
        !name.contains('\t'),
        url.len() > 0,
        !kind.contains(' '),
        kind.len() > 0,
        kind[0] == '(',
    ensures
        git::listing(name + seq!['\t'] + url + seq![' '] + kind) == Some(
            git::Listing { name, url, push: promises::shows(kind, "push"@) },
        ),
        !url.contains(' ') ==> git::listing(name + seq!['\t'] + url) == Some(
            git::Listing { name, url, push: false },
        ),
{
    lemma_line(name, url, kind, seq![]);
    words::law_parts_of_a_text(kind, "push"@);
    if !url.contains(' ') {
        let line = name + seq!['\t'] + url;
        words::law_first_occurrence(name, '\t', url);
        assert(line.take(name.len() as int) == name);
        assert(line.skip(name.len() as int + 1) == url);
        words::law_last_occurrence(url, ' ');
        let none = Seq::<char>::empty();
        reveal_strlit("push");
        words::law_parts_of_a_text(none, "push"@);
        assert(!text::occurs(none, "push"@));
    }
}

/// A line without a tab is read word by word: name, URL and use.
pub proof fn law_line_without_tab_is_read_by_words(
    name: Seq<char>,
    url: Seq<char>,
    kind: Seq<char>,
)
    requires
        name.len() > 0,
        words::none_blank(name),
        url.len() > 0,
        words::none_blank(url),
        words::none_blank(kind),
    ensures
        kind.len() > 0 ==> git::listing(name + seq![' '] + url + seq![' '] + kind) == Some(
            git::Listing { name, url, push: promises::shows(kind, "push"@) },
        ),
        git::listing(name + seq![' '] + url) == Some(git::Listing { name, url, push: false }),
{
    lemma_by_words(name, url, seq![], None);
    assert(name + seq![' '] + url + Seq::<char>::empty() == name + seq![' '] + url);
    if kind.len() > 0 {
        let rest = seq![' '] + kind;
        lemma_by_words(name, url, rest, Some(kind));
        assert(name + seq![' '] + url + rest == name + seq![' '] + url + seq![' '] + kind);
        words::law_parts_of_a_text(kind, "push"@);
    }
}

proof fn lemma_by_words(
    name: Seq<char>,
    url: Seq<char>,
    rest: Seq<char>,
    kind: Option<Seq<char>>,
)
    requires
        name.len() > 0,
        words::none_blank(name),
        url.len() > 0,
        words::none_blank(url),
        kind matches Some(k) ==> k.len() > 0 && words::none_blank(k) && rest =~= seq![' '] + k,
        kind is None ==> rest.len() == 0,
    ensures
        git::listing(name + seq![' '] + url + rest) == Some(
            git::Listing {
                name,
                url,
                push: kind matches Some(k) && text::occurs(k, "push"@),
            },
        ),
{
    let blank = seq![' '];
    let none = Seq::<char>::empty();
    let line = name + blank + url + rest;
    assert(words::blank(' '));
    assert(words::all_blank(blank));
    assert(!line.contains('\t')) by {
        if line.contains('\t') {
            let i = choose|i: int| 0 <= i < line.len() && line[i] == '\t';
            let n = name.len() as int;
            let m = url.len() as int;
            assert(words::blank('\t'));
            if i < n {
                assert(!words::blank(name[i]));
            } else if i > n && i < n + 1 + m {
                assert(!words::blank(url[i - n - 1]));
            } else if i > n + 1 + m {
                assert(!words::blank(kind->Some_0[i - n - 2 - m]));
            }
        }
    }
    words::law_first_occurrence(line, '\t', none);
    assert(line == none + name + (blank + url + rest));
    words::law_first_word(none, name, blank + url + rest, 0);
    words::law_first_word(none, name, blank + url + rest, 1);
    words::law_first_word(blank, url, rest, 0);
    match kind {
        Some(k) => {
            assert(rest == blank + k + none);
            words::law_first_word(blank, k, none, 0);
        },
        None => {
            words::law_blanks_hold_no_word(rest, 0);
        },
    }
}

/// A line that gives no URL lists nothing.
pub proof fn law_line_without_url_lists_nothing(name: Seq<char>, blanks: Seq<char>)
    requires
        words::none_blank(name),
        words::all_blank(blanks),
        !blanks.contains('\t'),
    ensures
        git::listing(name + blanks) is None,
        git::listing(name + seq!['\t']) is None,
{
    let line = name + blanks;
    assert(!name.contains('\t')) by {
        if name.contains('\t') {
            let k = choose|k: int| 0 <= k < name.len() && name[k] == '\t';
            assert(!words::blank(name[k]));
        }
    }
    assert(!line.contains('\t')) by {
        if line.contains('\t') {
            let k = choose|k: int| 0 <= k < line.len() && line[k] == '\t';
            if k < name.len() {
                assert(name[k] == '\t');
            } else {
                assert(blanks[k - name.len()] == '\t');
            }
        }
    }
    words::law_first_occurrence(line, '\t', seq![]);
    if name.len() > 0 {
        if blanks.len() > 0 {
            assert(words::blank(blanks[0]));
        }
        words::law_first_word(seq![], name, blanks, 0);
        assert(Seq::<char>::empty() + name + blanks == line);
        words::law_blanks_hold_no_word(blanks, 0);
    } else {
        assert(line == blanks);
        words::law_blanks_hold_no_word(line, 0);
    }
    let tabbed = name + seq!['\t'];
    words::law_first_occurrence(name, '\t', seq![]);
    assert(tabbed + Seq::<char>::empty() == tabbed);
    assert(tabbed.skip(name.len() as int + 1) == Seq::<char>::empty());
    words::law_last_occurrence(seq![], ' ');
}

/// What is listed of a remote: its name is that of some line with a URL, its
/// fetch URL is the last one given to fetch from, and its push URL the last one
/// given to push to. Where no line gives one to push to, the fetch URL serves
/// for both.
pub proof fn law_listed_urls(raw: Seq<char>, i: int)
    requires
        0 <= i < git::listed_remotes(raw).len(),
    ensures
        ({
            let r = git::listed_remotes(raw)[i];
            let lines = text::line_seq(raw);
            &&& exists|k: int|
                0 <= k < lines.len() && (git::listing(#[trigger] lines[k]) matches Some(l)
                    && l.name == r.name)
            &&& has_last(lines, r.name, false, r.fetch_url) || (has_none(lines, r.name, false)
                && r.fetch_url.len() == 0)
            &&& has_last(lines, r.name, true, r.push_url) || (has_none(lines, r.name, true)
                && r.push_url == r.fetch_url)
        }),
{
    let r = git::listed_remotes(raw)[i];
    let lines = text::line_seq(raw);
    git::law_remotes_have_last_urls(raw, r.name);
    lemma_last_url(lines, r.name, false);
    lemma_last_url(lines, r.name, true);
    let fetch = git::last_url(lines, r.name, false);
    let push = git::last_url(lines, r.name, true);
    assert(git::listed_remotes(raw)[i].name == r.name);
    assert(r == git::entry_remote(git::EntryView { name: r.name, fetch, push }));
    assert(git::listed_remotes(raw).contains(r));
    if fetch is Some {
        let k = choose|k: int| gives_at(lines, k, r.name, false, fetch->Some_0) && is_last_at(
            lines,
            k,
            r.name,
            false,
        );
        assert(git::listing(lines[k]) is Some);
    } else {
        let k = choose|k: int| gives_at(lines, k, r.name, true, push->Some_0) && is_last_at(
            lines,
            k,
            r.name,
            true,
        );
        assert(git::listing(lines[k]) is Some);
    }
}

/// Every line with a URL makes its remote listed.
pub proof fn law_every_line_with_a_url_counts(raw: Seq<char>, k: int, l: git::Listing)
    requires
        0 <= k < text::line_seq(raw).len(),
        git::listing(text::line_seq(raw)[k]) == Some(l),
    ensures
        exists|i: int|
            0 <= i < git::listed_remotes(raw).len() && (#[trigger] git::listed_remotes(raw)[i]).name
                == l.name,
{
    let lines = text::line_seq(raw);
    git::law_remotes_have_last_urls(raw, l.name);
    lemma_last_url(lines, l.name, l.push);
    assert(gives_at(lines, k, l.name, l.push, l.url));
    assert(git::last_url(lines, l.name, l.push) is Some);
    let entry = git::EntryView {
        name: l.name,
        fetch: git::last_url(lines, l.name, false),
        push: git::last_url(lines, l.name, true),
    };
    let remotes = git::listed_remotes(raw);
    assert(remotes.contains(git::entry_remote(entry)));
    let i = choose|i: int| 0 <= i < remotes.len() && remotes[i] == git::entry_remote(entry);
    assert(remotes[i].name == l.name);
}

/// The `k`-th line gives this URL for this name and use.
pub open spec fn gives_at(
    lines: Seq<Seq<char>>,
    k: int,
    name: Seq<char>,
    push: bool,
    url: Seq<char>,
) -> bool {
    0 <= k < lines.len() && git::listing(lines[k]) == Some(git::Listing { name, url, push })
}

/// No line behind the `k`-th gives a URL for this name and use.
pub open spec fn is_last_at(lines: Seq<Seq<char>>, k: int, name: Seq<char>, push: bool) -> bool {
    forall|j: int, url: Seq<char>| k < j ==> !#[trigger] gives_at(lines, j, name, push, url)
}

/// The last URL that the lines give for this name and use.
pub open spec fn has_last(
    lines: Seq<Seq<char>>,
    name: Seq<char>,
    push: bool,
    url: Seq<char>,
) -> bool {
    exists|k: int|
        #[trigger] gives_at(lines, k, name, push, url) && is_last_at(lines, k, name, push)
}

/// No line gives a URL for this name and use.
pub open spec fn has_none(lines: Seq<Seq<char>>, name: Seq<char>, push: bool) -> bool {
    is_last_at(lines, -1, name, push)
}

proof fn lemma_last_url(lines: Seq<Seq<char>>, name: Seq<char>, push: bool)
    ensures
        match git::last_url(lines, name, push) {
            Some(url) => has_last(lines, name, push, url),
            None => has_none(lines, name, push),
        },
    decreases lines.len(),
{
    if lines.len() > 0 {
        let front = lines.drop_last();
        let n = lines.len() - 1;
        assert forall|j: int, url: Seq<char>| #[trigger]
            gives_at(lines, j, name, push, url) implies j == n || gives_at(
            front,
            j,
            name,
            push,
            url,
        ) by {}
        assert forall|j: int, url: Seq<char>|
            gives_at(front, j, name, push, url) implies #[trigger] gives_at(
            lines,
            j,
            name,
            push,
            url,
        ) by {}
        lemma_last_url(front, name, push);
        match git::last_url(lines, name, push) {
            Some(url) => {
                if gives_at(lines, n, name, push, url) {
                    assert(is_last_at(lines, n, name, push));
                } else {
                    let k = choose|k: int| #[trigger]
                        gives_at(front, k, name, push, url) && is_last_at(front, k, name, push);
                    assert(gives_at(lines, k, name, push, url));
                    assert(is_last_at(lines, k, name, push));
                }
            },
            None => {
                assert(is_last_at(lines, -1, name, push));
            },
        }
    }
}

} // verus!
