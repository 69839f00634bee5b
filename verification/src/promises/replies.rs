//! What is asked of `git` and `gh`, and what their exit codes and outputs mean.

use vstd::prelude::*;

use crate::command;
use crate::gh;
use crate::git;
use crate::promises;
use crate::promises::words;
use crate::step;
use crate::text;

verus! {

// --- exit codes -------------------------------------------------------------

/// The exit code of a program that ended by itself.
pub open spec fn exit_code(r: command::ReplyView) -> Option<i32> {
    match r {
        command::ReplyView::Exited { code, .. } => code,
        command::ReplyView::NotRun(_) => None,
    }
}

/// What a program wrote to its standard output.
pub open spec fn stdout_of(r: command::ReplyView) -> Seq<u8> {
    match r {
        command::ReplyView::Exited { stdout, .. } => stdout,
        command::ReplyView::NotRun(_) => seq![],
    }
}

/// `s` is what an output says, without the white space around it.
pub open spec fn is_text_of(s: Seq<char>, bytes: Seq<u8>) -> bool {
    &&& words::is_bare(s)
    &&& exists|a: Seq<char>, b: Seq<char>|
        words::all_blank(a) && words::all_blank(b) && command::lossy_utf8(bytes) == #[trigger] (a
            + s + b)
}

/// An output is read without the white space around it.
pub proof fn law_outputs_are_trimmed(bytes: Seq<u8>)
    ensures
        is_text_of(command::output_text(bytes), bytes),
{
    words::law_trim_leaves_no_blank_ends(command::lossy_utf8(bytes));
}

/// A command as it is typed: the program, and each argument behind a blank.
pub open spec fn typed(program: Seq<char>, args: Seq<Seq<char>>) -> Seq<char>
    decreases args.len(),
{
    if args.len() == 0 {
        program
    } else {
        typed(program, args.drop_last()) + seq![' '] + args.last()
    }
}

proof fn lemma_typed(program: Seq<char>, args: Seq<Seq<char>>)
    requires
        args.len() > 0,
    ensures
        typed(program, args) == program + " "@ + text::joined(args, " "@),
    decreases args.len(),
{
    reveal_strlit(" ");
    assert(" "@ == seq![' ']);
    if args.len() == 1 {
        assert(args.drop_last() == Seq::<Seq<char>>::empty());
        assert(typed(program, args.drop_last()) == program);
        assert(text::joined(args, " "@) == args[0]);
    } else {
        lemma_typed(program, args.drop_last());
        assert(text::joined(args, " "@) == text::joined(args.drop_last(), " "@) + " "@
            + args.last());
    }
}

/// Errors name a command as the user would type it.
pub proof fn law_commands_are_named_as_typed(c: command::CommandView)
    requires
        c.args.len() > 0,
    ensures
        command::command_line(c) == typed(
            match c.program {
                command::Program::Git => "git"@,
                command::Program::Gh => "gh"@,
            },
            c.args,
        ),
{
    lemma_typed(command::program_name(c.program), c.args);
}

/// A captured command gives its output if and only if it ended with exit code
/// zero. Its error names the command, and the cause or what was written to the
/// standard error.
pub proof fn law_captured_commands(c: command::CommandView, r: command::ReplyView)
    ensures
        command::captured(c, r) is Ok <==> promises::ended_well(r),
        command::captured(c, r) matches Ok(s) ==> is_text_of(s, stdout_of(r)),
        r matches command::ReplyView::NotRun(cause) ==> command::captured(c, r) == Err::<
            Seq<char>,
            Seq<char>,
        >("failed to invoke "@ + command::command_line(c) + ": "@ + cause),
        !promises::ended_well(r) ==> (r matches command::ReplyView::Exited { stderr, .. } ==> (
        command::captured(c, r) matches Err(e) && exists|said: Seq<char>|
            is_text_of(said, stderr) && e == #[trigger] (command::command_line(c) + " failed: "@
                + said))),
{
    match r {
        command::ReplyView::NotRun(_) => {},
        command::ReplyView::Exited { stdout, stderr, .. } => {
            law_outputs_are_trimmed(stdout);
            law_outputs_are_trimmed(stderr);
            let said = command::output_text(stderr);
            let e = command::command_line(c) + " failed: "@ + said;
            assert(is_text_of(said, stderr));
        },
    }
}

/// A command succeeds if and only if it ended with exit code zero, wherever its
/// output went.
pub proof fn law_completed_commands(c: command::CommandView, r: command::ReplyView)
    ensures
        command::inherited(c, r) is Ok <==> promises::ended_well(r),
        command::completed(c, r) is Ok <==> promises::ended_well(r),
        command::succeeded(r) <==> promises::ended_well(r),
        r matches command::ReplyView::NotRun(cause) ==> command::inherited(c, r) == Err::<
            (),
            Seq<char>,
        >("failed to invoke "@ + command::command_line(c) + ": "@ + cause),
        !(r is NotRun) && !promises::ended_well(r) ==> command::inherited(c, r) == Err::<
            (),
            Seq<char>,
        >(command::command_line(c) + " failed"@),
        c.inherit ==> command::completed(c, r) == command::inherited(c, r),
        !c.inherit ==> (command::completed(c, r) matches Err(e) ==> command::captured(c, r)
            == Err::<Seq<char>, Seq<char>>(e)),
{
}

/// A text that is no count is told apart: nothing at all, digits for a number
/// beyond `usize`, or something that is not a digit.
pub proof fn law_counts_that_cannot_be_read(s: Seq<char>)
    requires
        s.len() > 0 ==> s[0] != '+',
    ensures
        s.len() == 0 ==> git::counted(s) == Err::<usize, Seq<char>>(
            "could not parse commit count from "@ + git::quoted(s) + ": "@
                + "cannot parse integer from empty string"@,
        ),
        s.len() > 0 && words::all_digits(s) && words::number(s) > usize::MAX ==> git::counted(s)
            == Err::<usize, Seq<char>>(
            "could not parse commit count from "@ + git::quoted(s) + ": "@
                + "number too large to fit in target type"@,
        ),
        s.len() > 0 && !('0' <= s[0] <= '9') ==> git::counted(s) == Err::<usize, Seq<char>>(
            "could not parse commit count from "@ + git::quoted(s) + ": "@
                + "invalid digit found in string"@,
        ),
        s.len() > 0 && words::all_digits(s) && words::number(s) <= usize::MAX ==> git::counted(s)
            == Ok::<usize, Seq<char>>(words::number(s) as usize),
{
    words::lemma_digit_count(s);
    assert(s.take(s.len() as int) == s);
    if words::all_digits(s) {
        words::lemma_number(s);
    }
    assert(s.take(0) == Seq::<char>::empty());
}

/// `git merge-base --is-ancestor` says yes with exit code 0 and no with 1.
/// Anything else is an error, which names the code where there is one.
pub proof fn law_ancestry_by_exit_code(r: command::ReplyView)
    ensures
        git::ancestry(r) == Ok::<bool, Seq<char>>(true) <==> exit_code(r) == Some(0i32),
        git::ancestry(r) == Ok::<bool, Seq<char>>(false) <==> exit_code(r) == Some(1i32),
        git::ancestry(r) is Err <==> exit_code(r) != Some(0i32) && exit_code(r) != Some(1i32),
        exit_code(r) matches Some(c) ==> (git::ancestry(r) matches Err(e) ==> e
            == "git merge-base --is-ancestor"@ + " exited with code "@ + text::signed_decimal(c as int)),
{
}

/// `git merge-base` says with exit code 0 that there is a common ancestor, and
/// with 1 that there is none. Anything else is an error.
pub proof fn law_common_ancestor_by_exit_code(r: command::ReplyView)
    ensures
        git::shared_history(r) == Ok::<bool, Seq<char>>(true) <==> exit_code(r) == Some(0i32),
        git::shared_history(r) == Ok::<bool, Seq<char>>(false) <==> exit_code(r) == Some(1i32),
        git::shared_history(r) is Err <==> exit_code(r) != Some(0i32) && exit_code(r) != Some(
            1i32,
        ),
        exit_code(r) matches Some(c) ==> (git::shared_history(r) matches Err(e) ==> e
            == "git merge-base"@ + " exited with code "@ + text::signed_decimal(c as int)),
{
}

/// `git config --get` gives the value with exit code 0, and says with 1 that the
/// key is not set. Anything else is an error.
pub proof fn law_config_by_exit_code(r: command::ReplyView)
    ensures
        git::configured(r) matches Ok(Some(s)) ==> is_text_of(s, stdout_of(r)),
        (git::configured(r) matches Ok(Some(_))) <==> exit_code(r) == Some(0i32),
        git::configured(r) == Ok::<Option<Seq<char>>, Seq<char>>(None) <==> exit_code(r) == Some(
            1i32,
        ),
        git::configured(r) is Err <==> exit_code(r) != Some(0i32) && exit_code(r) != Some(1i32),
        exit_code(r) matches Some(c) ==> (git::configured(r) matches Err(e) ==> e
            == "git config --get"@ + " exited with code "@ + text::signed_decimal(c as int)),
{
    law_outputs_are_trimmed(stdout_of(r));
}

/// A revision resolves to what git prints with exit code 0, and to nothing with
/// any other end. Only where git cannot be run, that is an error.
pub proof fn law_resolution_by_exit_code(r: command::ReplyView)
    ensures
        git::resolved(r) is Err <==> r is NotRun,
        (git::resolved(r) matches Ok(Some(_))) <==> exit_code(r) == Some(0i32),
        git::resolved(r) matches Ok(Some(s)) ==> is_text_of(s, stdout_of(r)),
{
    law_outputs_are_trimmed(stdout_of(r));
}

/// A commit count comes back if and only if git ended with exit code 0 and
/// printed a number within `usize`; it is that number.
pub proof fn law_commit_count_is_what_git_prints(
    from: Seq<char>,
    to: Seq<char>,
    r: command::ReplyView,
    n: usize,
)
    ensures
        git::commit_count(from, to, r) == Ok::<usize, Seq<char>>(n) <==> {
            &&& exit_code(r) == Some(0i32)
            &&& exists|s: Seq<char>|
                {
                    &&& #[trigger] is_text_of(s, stdout_of(r))
                    &&& denotes(s, n as nat)
                }
        },
{
    let out = command::output_text(stdout_of(r));
    law_outputs_are_trimmed(stdout_of(r));
    lemma_denotes(out, n as nat);
    if exists|s: Seq<char>| #[trigger] is_text_of(s, stdout_of(r)) && denotes(s, n as nat) {
        let s = choose|s: Seq<char>| #[trigger]
            is_text_of(s, stdout_of(r)) && denotes(s, n as nat);
        lemma_one_text(s, out, stdout_of(r));
    }
}

/// Decimal digits, with or without a plus sign before them, that denote `n`.
pub open spec fn denotes(s: Seq<char>, n: nat) -> bool {
    let digits = if s.len() > 0 && s[0] == '+' {
        s.skip(1)
    } else {
        s
    };
    digits.len() > 0 && words::all_digits(digits) && words::number(digits) == n
}

proof fn lemma_denotes(s: Seq<char>, n: nat)
    requires
        n <= usize::MAX,
    ensures
        text::count_of(s) == Ok::<nat, text::CountError>(n) <==> denotes(s, n),
        text::count_of(s) matches Ok(m) ==> m <= usize::MAX,
{
    let part = text::unsigned_part(s);
    words::lemma_digit_count(part);
    assert(part.take(part.len() as int) == part);
    if s.len() > 0 && s[0] == '+' {
        let d = s.skip(1);
        assert(s == seq!['+'] + d);
        if d.len() > 0 && d[0] == '+' {
            assert(!words::all_digits(d));
            assert(text::digit_count(d) == 0);
        } else {
            words::law_counts_are_decimal_digits(d);
        }
    } else {
        words::law_counts_are_decimal_digits(s);
    }
}

/// An output says one thing.
pub proof fn lemma_one_text(s: Seq<char>, t: Seq<char>, bytes: Seq<u8>)
    requires
        is_text_of(s, bytes),
        is_text_of(t, bytes),
    ensures
        s == t,
        s == command::output_text(bytes),
{
    let (a, b) = choose|a: Seq<char>, b: Seq<char>|
        words::all_blank(a) && words::all_blank(b) && command::lossy_utf8(bytes) == #[trigger] (a
            + s + b);
    words::law_trim_cuts_blanks_at_the_ends(a, s, b);
    let (c, d) = choose|c: Seq<char>, d: Seq<char>|
        words::all_blank(c) && words::all_blank(d) && command::lossy_utf8(bytes) == #[trigger] (c
            + t + d);
    words::law_trim_cuts_blanks_at_the_ends(c, t, d);
}

// --- commands ---------------------------------------------------------------

/// A captured run of `git` with these arguments.
pub open spec fn runs_git(c: command::CommandView, args: Seq<Seq<char>>) -> bool {
    c.program == command::Program::Git && !c.inherit && c.args == args
}

/// A captured run of `gh` with these arguments.
pub open spec fn runs_gh(c: command::CommandView, args: Seq<Seq<char>>) -> bool {
    c.program == command::Program::Gh && !c.inherit && c.args == args
}

/// What git is asked about the working repo.
pub proof fn law_questions_about_the_repo(branch: Seq<char>)
    ensures
        runs_git(git::git_dir_command(), seq!["rev-parse"@, "--git-dir"@]),
        runs_git(git::head_command(), seq!["rev-parse"@, "HEAD"@]),
        runs_git(git::branch_command(), seq!["symbolic-ref"@, "--quiet"@, "--short"@, "HEAD"@]),
        runs_git(
            git::upstream_command(),
            seq!["rev-parse"@, "--abbrev-ref"@, "--symbolic-full-name"@, "@{upstream}"@],
        ),
        runs_git(git::list_remotes_command(), seq!["remote"@, "-v"@]),
        runs_git(
            git::config_get_command(git::remote_key(branch)),
            seq!["config"@, "--get"@, "branch."@ + branch + ".remote"@],
        ),
{
}

/// What git is asked about the history: in which direction, and of what.
pub proof fn law_questions_about_the_history(a: Seq<char>, b: Seq<char>)
    ensures
        git::is_ancestor_command(a, b) == (command::CommandView {
            program: command::Program::Git,
            args: seq!["merge-base"@, "--is-ancestor"@, a, b],
            inherit: true,
        }),
        runs_git(git::common_ancestor_command(a, b), seq!["merge-base"@, a, b]),
        runs_git(
            git::commits_between_command(a, b),
            seq!["rev-list"@, "--count"@, a + ".."@ + b],
        ),
        runs_git(
            git::resolve_command(a),
            seq!["rev-parse"@, "--verify"@, "--quiet"@, a + "^{object}"@],
        ),
        runs_git(git::config_get_command(a), seq!["config"@, "--get"@, a]),
{
}

/// The fetch names its remote and nothing else; `--verbose` is passed on only
/// where git's output is streamed with it.
pub proof fn law_fetch_names_its_remote(remote: Seq<char>, verbose: bool)
    ensures
        runs_git(
            git::fetch_command(remote, git::GitOutput::Quiet),
            seq!["fetch"@, remote],
        ),
        git::fetch_command(remote, git::GitOutput::Stream { verbose }) == (command::CommandView {
            program: command::Program::Git,
            args: if verbose {
                seq!["fetch"@, "--verbose"@, remote]
            } else {
                seq!["fetch"@, remote]
            },
            inherit: true,
        }),
{
    let c = git::fetch_command(remote, git::GitOutput::Stream { verbose });
    if verbose {
        assert(c.args == seq!["fetch"@, "--verbose"@, remote]);
    } else {
        assert(c.args == seq!["fetch"@, remote]);
    }
    assert(git::fetch_command(remote, git::GitOutput::Quiet).args == seq!["fetch"@, remote]);
}

/// What GitHub is asked, and what is changed there.
pub proof fn law_questions_to_github(repo: Seq<char>, url: Seq<char>, body: Seq<char>)
    ensures
        runs_gh(
            gh::repo_info_command(None),
            seq![
                "repo"@,
                "view"@,
                "--json"@,
                "nameWithOwner,defaultBranchRef,isFork,parent,deleteBranchOnMerge,viewerCanAdminister"@,
            ],
        ),
        runs_gh(
            gh::repo_info_command(Some(repo)),
            seq![
                "repo"@,
                "view"@,
                repo,
                "--json"@,
                "nameWithOwner,defaultBranchRef,isFork,parent,deleteBranchOnMerge,viewerCanAdminister"@,
            ],
        ),
        runs_gh(
            gh::list_open_prs_command(repo),
            seq![
                "pr"@,
                "list"@,
                "--repo"@,
                repo,
                "--state"@,
                "open"@,
                "--limit"@,
                "2147483647"@,
                "--json"@,
                "number,headRefName,headRefOid,baseRefName,headRepositoryOwner,url,isCrossRepository"@,
            ],
        ),
        runs_gh(
            gh::set_delete_branch_on_merge_command(repo),
            seq!["api"@, "-X"@, "PATCH"@, "/repos/"@ + repo, "-F"@, "delete_branch_on_merge=true"@],
        ),
        runs_gh(
            gh::pr_body_command(url),
            seq!["pr"@, "view"@, url, "--json"@, "body"@, "--jq"@, ".body"@],
        ),
        runs_gh(gh::set_pr_body_command(url, body), seq!["pr"@, "edit"@, url, "--body"@, body]),
{
    assert(gh::repo_info_command(None).args == seq![
        "repo"@,
        "view"@,
        "--json"@,
        "nameWithOwner,defaultBranchRef,isFork,parent,deleteBranchOnMerge,viewerCanAdminister"@,
    ]);
    assert(gh::repo_info_command(Some(repo)).args == seq![
        "repo"@,
        "view"@,
        repo,
        "--json"@,
        "nameWithOwner,defaultBranchRef,isFork,parent,deleteBranchOnMerge,viewerCanAdminister"@,
    ]);
}

// --- the lookup of a repository ---------------------------------------------

/// A lookup asks `gh` about the repository by its name, or about the one at hand
/// without one, decodes what `gh` printed, and ends with what was decoded. It
/// fails if and only if `gh` fails or the output cannot be decoded.
pub proof fn law_lookup_ends_with_what_was_decoded(
    name: Option<Seq<char>>,
    reply: command::ReplyView,
    decoded: Result<gh::RepoInfoView, Seq<char>>,
)
    ensures
        ({
            let ask = gh::RepoQueryView::Ask { name };
            let next = gh::repo_query_next(ask, step::EventView::Ran(reply));
            let end = gh::repo_query_next(next, step::EventView::Repo(decoded));
            &&& gh::repo_query_action(ask) == Some(
                step::ActionView::Run(gh::repo_info_command(name)),
            )
            &&& promises::ended_well(reply) <==> !(next is Done)
            &&& !promises::ended_well(reply) ==> (next matches gh::RepoQueryView::Done(Err(_)))
            &&& promises::ended_well(reply) ==> {
                &&& next matches gh::RepoQueryView::Decode { text } && is_text_of(
                    text,
                    stdout_of(reply),
                )
                &&& gh::repo_query_action(next) == Some(
                    step::ActionView::DecodeRepo(command::output_text(stdout_of(reply))),
                )
                &&& match decoded {
                    Ok(info) => end == gh::RepoQueryView::Done(Ok(info)),
                    Err(cause) => end == gh::RepoQueryView::Done(
                        Err(
                            "could not parse `"@ + "gh repo view"@ + "` output: "@
                                + command::output_text(stdout_of(reply)) + ": "@ + cause,
                        ),
                    ),
                }
            }
        }),
{
    law_outputs_are_trimmed(stdout_of(reply));
}

} // verus!
