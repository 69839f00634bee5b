//! What is read of the working repo, and which repos are fit for a push.

use vstd::prelude::*;
use vstd::string::*;

use crate::command;
use crate::git;
use crate::git::InProgress;
use crate::promises;
use crate::promises::replies;
use crate::promises::words;
use crate::stack;
use crate::step;
use crate::text;

verus! {

// --- operations in progress -------------------------------------------------

/// A rebase or a mailbox apply has left its directory.
pub open spec fn rebase_dirs(present: Seq<Seq<char>>) -> bool {
    present.contains("rebase-merge"@) || present.contains("rebase-apply"@)
}

/// An operation is in progress if and only if one of its markers is there. A
/// rebase or a mailbox apply outranks the others, then a merge, a cherry-pick, a
/// revert and a bisection, in this order.
pub proof fn law_operation_by_its_marker(present: Seq<Seq<char>>)
    ensures
        ({
            let rebase = rebase_dirs(present);
            let mailbox = present.contains("rebase-apply/applying"@);
            let merge = present.contains("MERGE_HEAD"@);
            let pick = present.contains("CHERRY_PICK_HEAD"@);
            let revert = present.contains("REVERT_HEAD"@);
            let bisect = present.contains("BISECT_LOG"@);
            let op = git::operation(present);
            &&& op is None <==> !rebase && !merge && !pick && !revert && !bisect
            &&& op == Some(InProgress::ApplyMailbox) <==> rebase && mailbox
            &&& op == Some(InProgress::Rebase) <==> rebase && !mailbox
            &&& op == Some(InProgress::Merge) <==> merge && !rebase
            &&& op == Some(InProgress::CherryPick) <==> pick && !rebase && !merge
            &&& op == Some(InProgress::Revert) <==> revert && !rebase && !merge && !pick
            &&& op == Some(InProgress::Bisect) <==> bisect && !rebase && !merge && !pick
                && !revert
        }),
{
}

/// Every marker that can tell of an operation is looked for, in the git
/// directory.
pub proof fn law_every_marker_is_looked_for(
    git_dir: Seq<char>,
    head_sha: Seq<char>,
    branch: Option<Seq<char>>,
    upstream: Option<Seq<char>>,
    remote: Option<Seq<char>>,
)
    ensures
        git::state_read_action(
            git::StateReadView::Markers { git_dir, head_sha, branch, upstream, remote },
        ) matches Some(step::ActionView::Look { dir, names }) && {
            &&& dir == git_dir
            &&& names.contains("rebase-merge"@)
            &&& names.contains("rebase-apply"@)
            &&& names.contains("rebase-apply/applying"@)
            &&& names.contains("MERGE_HEAD"@)
            &&& names.contains("CHERRY_PICK_HEAD"@)
            &&& names.contains("REVERT_HEAD"@)
            &&& names.contains("BISECT_LOG"@)
        },
{
    let m = git::markers();
    assert(m[0] == "rebase-merge"@);
    assert(m[1] == "rebase-apply"@);
    assert(m[2] == "rebase-apply/applying"@);
    assert(m[3] == "MERGE_HEAD"@);
    assert(m[4] == "CHERRY_PICK_HEAD"@);
    assert(m[5] == "REVERT_HEAD"@);
    assert(m[6] == "BISECT_LOG"@);
}

/// A repo is fit for a push if and only if nothing is in progress and HEAD is on
/// a branch, which is then the branch to push. Nothing else counts. The refusal
/// names the operation and the way out of it.
pub proof fn law_fit_repos(state: git::RepoStateView)
    ensures
        stack::guarded(state) is Ok <==> state.in_progress is None && state.current_branch
            is Some,
        stack::guarded(state) matches Ok(branch) ==> state.current_branch == Some(branch),
        state.in_progress matches Some(op) ==> (stack::guarded(state) matches Err(e)
            && promises::shows(e, named(op)) && promises::shows(e, ended_by(op))),
        state.in_progress is None && state.current_branch is None ==> stack::guarded(state)
            == Err::<Seq<char>, Seq<char>>("HEAD is detached; check out a branch before pushing"@),
{
    match state.in_progress {
        Some(op) => {
            let a = "refusing to push: a "@;
            let b = " is in progress. Resolve it first (`git "@;
            let c = "`) and try again."@;
            let e = a + named(op) + b + ended_by(op) + c;
            assert(stack::guarded(state) == Err::<Seq<char>, Seq<char>>(e));
            promises::lemma_shows(e, a, named(op), b + ended_by(op) + c);
            promises::lemma_shows(e, a + named(op) + b, ended_by(op), c);
        },
        None => {},
    }
}

/// How the user calls an operation.
pub open spec fn named(op: InProgress) -> Seq<char> {
    match op {
        InProgress::Merge => "merge"@,
        InProgress::Revert => "revert"@,
        InProgress::Rebase => "rebase"@,
        InProgress::Bisect => "bisect"@,
        InProgress::CherryPick => "cherry-pick"@,
        InProgress::ApplyMailbox => "am (mailbox apply)"@,
    }
}

/// The commands that end an operation.
pub open spec fn ended_by(op: InProgress) -> Seq<char> {
    match op {
        InProgress::Merge => "merge --abort | commit"@,
        InProgress::Revert => "revert --abort | --continue"@,
        InProgress::Rebase => "rebase --abort | --continue"@,
        InProgress::Bisect => "bisect reset"@,
        InProgress::CherryPick => "cherry-pick --abort | --continue"@,
        InProgress::ApplyMailbox => "am --abort | --continue"@,
    }
}

// --- the reading ------------------------------------------------------------

/// `value` is what a program printed, or nothing where it failed.
pub open spec fn printed(value: Option<Seq<char>>, reply: command::ReplyView) -> bool {
    match value {
        Some(s) => promises::ended_well(reply) && replies::is_text_of(
            s,
            replies::stdout_of(reply),
        ),
        None => !promises::ended_well(reply),
    }
}

/// What the reading asks for, in its order: the git directory, the commit at
/// HEAD, the branch, its upstream, and the upstream's remote.
pub proof fn law_questions_of_the_reading(
    git_dir: Seq<char>,
    head_sha: Seq<char>,
    branch: Seq<char>,
    some_branch: Option<Seq<char>>,
    upstream: Seq<char>,
    result: Result<git::RepoStateView, Seq<char>>,
)
    ensures
        asks(git::StateReadView::GitDir, seq!["rev-parse"@, "--git-dir"@]),
        asks(git::StateReadView::Head { git_dir }, seq!["rev-parse"@, "HEAD"@]),
        asks(
            git::StateReadView::Branch { git_dir, head_sha },
            seq!["symbolic-ref"@, "--quiet"@, "--short"@, "HEAD"@],
        ),
        asks(
            git::StateReadView::Upstream { git_dir, head_sha, branch: some_branch },
            seq!["rev-parse"@, "--abbrev-ref"@, "--symbolic-full-name"@, "@{upstream}"@],
        ),
        asks(
            git::StateReadView::Remote { git_dir, head_sha, branch, upstream },
            seq!["config"@, "--get"@, "branch."@ + branch + ".remote"@],
        ),
        git::state_read_action(git::StateReadView::Done(result)) is None,
{
}

/// The reading asks git with these arguments.
pub open spec fn asks(s: git::StateReadView, args: Seq<Seq<char>>) -> bool {
    git::state_read_action(s) matches Some(step::ActionView::Run(c)) && replies::runs_git(c, args)
}

/// A reading that is over stays over, and an event that does not answer its
/// question fails it.
pub proof fn law_stray_events_fail_the_reading(s: git::StateReadView, e: step::EventView)
    ensures
        s is Done ==> git::state_read_next(s, e) == s,
        !(s is Done) && !(s is Markers) && !(e is Ran) ==> (git::state_read_next(s, e)
            matches git::StateReadView::Done(Err(_))),
        s is Markers && !(e is Present) ==> (git::state_read_next(s, e)
            matches git::StateReadView::Done(Err(_))),
{
}

/// Without a git directory or a commit the reading fails; otherwise it goes on
/// with what git printed.
pub proof fn law_reading_needs_a_repo_with_a_commit(
    git_dir: Seq<char>,
    reply: command::ReplyView,
)
    ensures
        match git::state_read_next(git::StateReadView::GitDir, step::EventView::Ran(reply)) {
            git::StateReadView::Head { git_dir } => printed(Some(git_dir), reply),
            git::StateReadView::Done(Err(_)) => !promises::ended_well(reply),
            _ => false,
        },
        match git::state_read_next(
            git::StateReadView::Head { git_dir },
            step::EventView::Ran(reply),
        ) {
            git::StateReadView::Branch { git_dir: dir, head_sha } => dir == git_dir && printed(
                Some(head_sha),
                reply,
            ),
            git::StateReadView::Done(Err(e)) => !promises::ended_well(reply) && e
                == "repository has no commits yet (HEAD is unborn)"@,
            _ => false,
        },
{
    replies::law_captured_commands(git::git_dir_command(), reply);
    replies::law_captured_commands(git::head_command(), reply);
}

/// A detached HEAD, a missing upstream or a missing remote name is no failure:
/// the reading goes on without it. The remote is asked for if and only if the
/// branch and its upstream are known.
pub proof fn law_reading_goes_on_without_branch_or_upstream(
    git_dir: Seq<char>,
    head_sha: Seq<char>,
    branch: Option<Seq<char>>,
    reply: command::ReplyView,
)
    ensures
        git::state_read_next(
            git::StateReadView::Branch { git_dir, head_sha },
            step::EventView::Ran(reply),
        ) matches git::StateReadView::Upstream { git_dir: dir, head_sha: sha, branch: b } && dir
            == git_dir && sha == head_sha && printed(b, reply),
        match git::state_read_next(
            git::StateReadView::Upstream { git_dir, head_sha, branch },
            step::EventView::Ran(reply),
        ) {
            git::StateReadView::Remote { git_dir: dir, head_sha: sha, branch: b, upstream } => {
                &&& dir == git_dir
                &&& sha == head_sha
                &&& branch == Some(b)
                &&& printed(Some(upstream), reply)
            },
            git::StateReadView::Markers {
                git_dir: dir,
                head_sha: sha,
                branch: b,
                upstream,
                remote,
            } => {
                &&& dir == git_dir
                &&& sha == head_sha
                &&& branch == b
                &&& printed(upstream, reply)
                &&& b is None || upstream is None
                &&& remote is None
            },
            _ => false,
        },
{
    replies::law_captured_commands(git::branch_command(), reply);
    replies::law_captured_commands(git::upstream_command(), reply);
}

/// The reading ends with what was found: the commit, the branch, the operation
/// of the present markers, and the upstream on the remote that git names.
pub proof fn law_reading_ends_with_what_was_found(
    git_dir: Seq<char>,
    head_sha: Seq<char>,
    branch: Seq<char>,
    upstream: Seq<char>,
    some_branch: Option<Seq<char>>,
    some_upstream: Option<Seq<char>>,
    remote: Option<Seq<char>>,
    reply: command::ReplyView,
    present: Seq<Seq<char>>,
)
    ensures
        git::state_read_next(
            git::StateReadView::Remote { git_dir, head_sha, branch, upstream },
            step::EventView::Ran(reply),
        ) matches git::StateReadView::Markers {
            git_dir: dir,
            head_sha: sha,
            branch: b,
            upstream: u,
            remote: r,
        } && dir == git_dir && sha == head_sha && b == Some(branch) && u == Some(upstream)
            && printed(r, reply),
        git::state_read_next(
            git::StateReadView::Markers {
                git_dir,
                head_sha,
                branch: some_branch,
                upstream: some_upstream,
                remote,
            },
            step::EventView::Present(present),
        ) matches git::StateReadView::Done(Ok(state)) && state.head_sha == head_sha
            && state.current_branch == some_branch && state.in_progress == git::operation(present)
            && state.upstream == git::upstream_of(some_upstream, remote),
{
    replies::law_captured_commands(
        git::config_get_command(git::remote_key(branch)),
        reply,
    );
}

// --- the upstream -----------------------------------------------------------

/// The remote that git names is the upstream's remote, whatever it is called:
/// its name may hold slashes, and so may the branch.
pub proof fn law_upstream_on_a_named_remote(remote: Seq<char>, branch: Seq<char>)
    requires
        remote.len() > 0,
        remote != "."@,
        branch.len() > 0,
    ensures
        git::upstream_of(Some(remote + seq!['/'] + branch), Some(remote)) == Some(
            (remote, branch),
        ),
{
    let s = remote + seq!['/'] + branch;
    reveal_strlit("/");
    assert(remote + "/"@ == remote + seq!['/']);
    assert((remote + "/"@).is_prefix_of(s));
    words::law_parts_of_a_text(s, remote + "/"@);
    assert(s.skip(remote.len() as int + 1) == branch);
}

/// Wherever git names a remote, that is the remote of the upstream. Where the
/// upstream does not stand under that name, its branch is what stands behind
/// the first slash, or all of it where nothing does.
pub proof fn law_upstream_elsewhere(remote: Seq<char>, first: Seq<char>, branch: Seq<char>)
    requires
        remote.len() > 0,
        remote != "."@,
        !first.contains('/'),
        branch.len() > 0,
    ensures
        !(remote + seq!['/']).is_prefix_of(first + seq!['/'] + branch) ==> git::upstream_of(
            Some(first + seq!['/'] + branch),
            Some(remote),
        ) == Some((remote, branch)),
        first.len() > 0 ==> git::upstream_of(Some(first), Some(remote)) == Some((remote, first)),
        git::upstream_of(Some(first + seq!['/']), Some(remote)) == Some(
            (remote, first + seq!['/']),
        ),
{
    let s = first + seq!['/'] + branch;
    let t = first + seq!['/'];
    let none = Seq::<char>::empty();
    let whole = remote + "/"@;
    reveal_strlit("/");
    assert(whole == remote + seq!['/']);
    words::law_first_occurrence(first, '/', branch);
    words::law_first_occurrence(first, '/', none);
    assert(t + none == t);
    words::law_parts_of_a_text(s, whole);
    words::law_parts_of_a_text(t, whole);
    words::law_parts_of_a_text(first, whole);
    assert(s.skip(first.len() as int + 1) == branch);
    assert(whole[remote.len() as int] == '/');
    if whole.is_prefix_of(t) && remote.len() < first.len() {
        assert(t[remote.len() as int] == first[remote.len() as int]);
    }
    if whole.is_prefix_of(first) {
        assert(first[remote.len() as int] == '/');
    }
}

/// An upstream within the local repository is on no remote, and without an
/// upstream there is none.
pub proof fn law_local_upstream_is_on_no_remote(
    upstream: Option<Seq<char>>,
    remote: Option<Seq<char>>,
)
    ensures
        git::upstream_of(upstream, Some("."@)) is None,
        git::upstream_of(None, remote) is None,
        git::upstream_of(Some(seq![]), remote) is None,
        upstream matches Some(s) ==> s.len() > 0 ==> (remote matches Some(r) ==> r.len() > 0 && r
            != "."@ ==> (git::upstream_of(upstream, remote) matches Some((on, _)) && on == r)),
{
    text::lemma_before(seq![], '/');
    reveal_strlit(".");
}

/// Where git names no remote, the first slash separates the remote from the
/// branch. Neither may be empty.
pub proof fn law_upstream_without_a_named_remote(first: Seq<char>, rest: Seq<char>)
    requires
        !first.contains('/'),
    ensures
        ({
            let s = first + seq!['/'] + rest;
            let parts = if first.len() > 0 && rest.len() > 0 {
                Some((first, rest))
            } else {
                None::<(Seq<char>, Seq<char>)>
            };
            &&& git::upstream_of(Some(s), None) == parts
            &&& git::upstream_of(Some(s), Some(seq![])) == parts
            &&& git::upstream_of(Some(first), None) is None
            &&& git::upstream_parts(s) == parts
            &&& git::upstream_parts(first) is None
        }),
{
    let s = first + seq!['/'] + rest;
    words::law_first_occurrence(first, '/', rest);
    assert(s.take(first.len() as int) == first);
    assert(s.skip(first.len() as int + 1) == rest);
    reveal_strlit(".");
    assert("."@.len() == 1);
}

} // verus!
