//! What `doctor` checks, in which order, and when it is content.

use vstd::prelude::*;

use crate::command;
use crate::command::Program;
use crate::doctor;
use crate::gh;
use crate::git;
use crate::promises;
use crate::promises::replies;
use crate::promises::repo;
use crate::promises::words;
use crate::report;
use crate::report::Status;
use crate::step;
use crate::target;
use crate::text;
use crate::ui;

verus! {

// --- verdicts ---------------------------------------------------------------

/// A tool passes if and only if it answers with exit code zero. Its version is
/// the first line of what it prints, without the white space around it. A tool
/// that is not there is told apart from one that fails; both fail.
pub proof fn law_tool_passes_iff_it_answers(p: Program, r: command::ReplyView)
    ensures
        ({
            let o = doctor::tool_outcome(p, r);
            let name = match p {
                Program::Git => "git"@,
                Program::Gh => "gh"@,
            };
            &&& o.status == if promises::ended_well(r) {
                Status::Pass
            } else {
                Status::Fail
            }
            &&& r is NotRun ==> o.detail == Some(
                "`"@ + name + "` not found on PATH. Install it and retry."@,
            )
            &&& !(r is NotRun) && !promises::ended_well(r) ==> o.detail == Some(
                "`"@ + name + " --version` exited non-zero"@,
            )
            &&& promises::ended_well(r) ==> o.detail is None
        }),
{
}

/// The version that is shown is the first line of the output.
pub proof fn law_version_is_the_first_line(
    a: Seq<char>,
    version: Seq<char>,
    b: Seq<char>,
    rest: Seq<char>,
)
    requires
        words::all_blank(a),
        words::is_bare(version),
        words::all_blank(b),
        words::is_line(a + version + b),
    ensures
        doctor::version_outcome(a + version + b + seq!['\n'] + rest).status is Pass,
        doctor::version_outcome(a + version + b + seq!['\n'] + rest).inline == if version.len()
            == 0 {
            None
        } else {
            Some(version)
        },
        doctor::version_outcome(seq![]).status is Pass,
        doctor::version_outcome(seq![]).inline is None,
{
    let line = a + version + b;
    words::law_first_line(line, rest);
    words::law_last_line(seq![]);
    words::law_trim_cuts_blanks_at_the_ends(a, version, b);
    assert((seq![line] + text::line_seq(rest))[0] == line);
}

/// `gh` is authenticated if and only if it says so with exit code zero. The
/// failure tells how to mend it, below what `gh` had to say.
pub proof fn law_authentication_by_exit_code(r: command::ReplyView)
    ensures
        ({
            let o = doctor::auth_outcome(r);
            &&& o.status == if promises::ended_well(r) {
                Status::Pass
            } else {
                Status::Fail
            }
            &&& r matches command::ReplyView::NotRun(cause) ==> o.detail == Some(
                "could not invoke `gh auth status`: "@ + cause,
            )
            &&& !promises::ended_well(r) ==> (r matches command::ReplyView::Exited { stderr, .. }
                ==> exists|said: Seq<char>|
                #[trigger] replies::is_text_of(said, stderr) && o.detail == Some(
                    (if said.len() == 0 {
                        "not authenticated"@
                    } else {
                        said
                    }) + "\nFix: gh auth login"@,
                ))
        }),
{
    match r {
        command::ReplyView::Exited { stderr, .. } => {
            replies::law_outputs_are_trimmed(stderr);
        },
        command::ReplyView::NotRun(_) => {},
    }
}

/// The checks of the working repo: it is one if git says so with exit code zero,
/// no operation may be in progress, and HEAD must be on a branch, which is
/// named. Each of them fails otherwise.
pub proof fn law_repo_verdicts(r: command::ReplyView, state: git::RepoStateView)
    ensures
        doctor::in_repo_outcome(r).status == if promises::ended_well(r) {
            Status::Pass
        } else {
            Status::Fail
        },
        doctor::in_progress_outcome(state).status == if state.in_progress is None {
            Status::Pass
        } else {
            Status::Fail
        },
        state.in_progress matches Some(op) ==> doctor::in_progress_outcome(state).detail == Some(
            "a "@ + repo::named(op) + " is in progress; resolve it before running `push`"@,
        ),
        doctor::branch_outcome(state).status == if state.current_branch is Some {
            Status::Pass
        } else {
            Status::Fail
        },
        doctor::branch_outcome(state).inline == state.current_branch,
        !promises::ended_well(r) ==> doctor::in_repo_outcome(r).detail == Some(
            "not inside a git working tree (run from a clone)"@,
        ),
        state.current_branch is None ==> doctor::branch_outcome(state).detail == Some(
            "HEAD is detached; `push` requires a named branch. Check out (or create) a branch first."@,
        ),
{
}

/// The checks on GitHub: a setting that is off is warned of with the command
/// that switches it on; a remote that cannot be told fails.
pub proof fn law_github_verdicts(
    t: gh::RepoInfoView,
    resolved: Result<Seq<char>, Seq<char>>,
)
    ensures
        doctor::delete_on_merge_outcome(t).status == if t.delete_branch_on_merge {
            Status::Pass
        } else {
            Status::Warn
        },
        !t.delete_branch_on_merge ==> doctor::delete_on_merge_outcome(t).detail == Some(
            "off on "@ + t.name_with_owner
                + "; once a stack PR merges, the next PR will not auto-retarget. Enable with:\n  gh api -X PATCH /repos/"@
                + t.name_with_owner + " -f delete_branch_on_merge=true"@,
        ),
        match resolved {
            Ok(name) => doctor::target_remote_outcome(resolved).status is Pass
                && doctor::target_remote_outcome(resolved).inline == Some(name),
            Err(e) => doctor::target_remote_outcome(resolved).status is Fail
                && doctor::target_remote_outcome(resolved).detail == Some(e),
        },
{
}

/// The checks of the branch: it passes if and only if it is not the default
/// branch, and its upstream passes if and only if there is none, or it is on the
/// merge-target remote. Otherwise they warn; neither ever fails.
pub proof fn law_branch_verdicts(
    state: git::RepoStateView,
    t: gh::RepoInfoView,
    resolved: Result<Seq<char>, Seq<char>>,
)
    ensures
        doctor::not_default_outcome(state, t).status == if state.current_branch is Some
            && state.current_branch != Some(t.default_branch) {
            Status::Pass
        } else {
            Status::Warn
        },
        state.current_branch matches Some(branch) ==> branch != t.default_branch
            ==> doctor::not_default_outcome(state, t).inline == Some(branch),
        state.current_branch == Some(t.default_branch) ==> doctor::not_default_outcome(
            state,
            t,
        ).detail == Some(
            "current branch `"@ + t.default_branch + "` is the default branch of "@
                + t.name_with_owner
                + "; `push` would refuse to run here. Create a feature branch first."@,
        ),
        resolved matches Ok(remote) ==> (state.upstream matches Some((actual, _)) ==> actual
            != remote ==> doctor::upstream_outcome(state, resolved).detail == Some(
            "branch tracks `"@ + actual + "` but merge target is `"@ + remote
                + "`. `push` will offer a wrong-remote rescue."@,
        )),
        doctor::upstream_outcome(state, resolved).status == if resolved matches Ok(remote) && (
        state.upstream is None || state.upstream->Some_0.0 == remote) {
            Status::Pass
        } else {
            Status::Warn
        },
        resolved matches Ok(remote) ==> (state.upstream matches Some((actual, _)) ==> (
        doctor::upstream_outcome(state, resolved).inline == if actual == remote {
            Some("tracks `"@ + actual + "`"@)
        } else {
            None
        })),
{
}

// --- the order of the checks ------------------------------------------------

/// The report goes on with one more check.
pub open spec fn adds(
    s: doctor::DoctorView,
    next: report::ReportView,
    label: Seq<char>,
    o: report::OutcomeView,
) -> bool {
    &&& next.palette == s.report.palette
    &&& next.text == report::check_text(s.report.palette, label, o)
    &&& next.pass == s.report.pass + (if o.status is Pass {
        1int
    } else {
        0
    })
    &&& next.warn == s.report.warn + (if o.status is Warn {
        1int
    } else {
        0
    })
    &&& next.fail == s.report.fail + (if o.status is Fail {
        1int
    } else {
        0
    })
}

/// There is room for the checks of one step.
pub open spec fn countable(s: doctor::DoctorView) -> bool {
    s.report.pass < 100 && s.report.warn < 100 && s.report.fail < 100
}

/// The checkup is over, and failed if and only if a check did. The numbers are
/// those of the checks.
pub open spec fn is_over(next: doctor::DoctorView, r: report::ReportView) -> bool {
    &&& next.phase == (doctor::PhaseView::Finished { failed: r.fail > 0 })
    &&& next.report.pass == r.pass && next.report.warn == r.warn && next.report.fail == r.fail
    &&& next.report.text == r.text + "\n"@ + report::summary_text(r)
}

/// A checkup begins with the tools, and nothing is counted yet.
pub proof fn law_checkup_begins_with_the_tools(p: ui::Palette)
    ensures
        ({
            let s = doctor::doctor_start(p);
            &&& s.phase is GitTool
            &&& s.report.pass == 0 && s.report.warn == 0 && s.report.fail == 0
            &&& s.report.palette == p
            &&& promises::shows(s.report.text, "stackymcstackface doctor"@)
            &&& promises::shows(s.report.text, ui::section_text(p, "Tools"@))
        }),
{
    let s = doctor::doctor_start(p);
    let bold = ui::bold_of(p);
    let section = ui::section_text(p, "Tools"@);
    promises::lemma_shows(
        s.report.text,
        ui::style_codes(bold),
        "stackymcstackface doctor"@,
        ui::reset_codes(bold) + "\n"@ + section,
    );
    promises::lemma_shows(
        s.report.text,
        ui::styled(bold, "stackymcstackface doctor"@) + "\n"@,
        section,
        seq![],
    );
}

/// `git` is checked first, then `gh`. Authentication is checked if and only if
/// `gh` is there.
pub proof fn law_tools_are_checked_in_turn(
    s: doctor::DoctorView,
    git_ok: bool,
    reply: command::ReplyView,
)
    requires
        countable(s),
    ensures
        ({
            let next = doctor::doctor_next(s, step::EventView::Ran(reply));
            let o = doctor::tool_outcome(Program::Git, reply);
            s.phase is GitTool ==> {
                &&& doctor::doctor_action(s) == Some(
                    step::ActionView::Run(
                        command::CommandView {
                            program: Program::Git,
                            args: seq!["--version"@],
                            inherit: false,
                        },
                    ),
                )
                &&& next.phase == (doctor::PhaseView::GhTool {
                    git_ok: promises::ended_well(reply),
                })
                &&& adds(s, next.report, "`git` on PATH"@, o)
            }
        }),
        ({
            let next = doctor::doctor_next(s, step::EventView::Ran(reply));
            let o = doctor::tool_outcome(Program::Gh, reply);
            s.phase == (doctor::PhaseView::GhTool { git_ok }) ==> {
                &&& doctor::doctor_action(s) == Some(
                    step::ActionView::Run(
                        command::CommandView {
                            program: Program::Gh,
                            args: seq!["--version"@],
                            inherit: false,
                        },
                    ),
                )
                &&& promises::ended_well(reply) ==> next.phase == (doctor::PhaseView::GhAuth {
                    git_ok,
                }) && adds(s, next.report, "`gh` on PATH"@, o)
                &&& !promises::ended_well(reply) ==> exists|r: report::ReportView|
                    #[trigger] adds(s, r, "`gh` on PATH"@, o) && goes_on(next, r, git_ok)
            }
        }),
        ({
            let next = doctor::doctor_next(s, step::EventView::Ran(reply));
            let o = doctor::auth_outcome(reply);
            s.phase == (doctor::PhaseView::GhAuth { git_ok }) ==> {
                &&& doctor::doctor_action(s) matches Some(step::ActionView::Run(c))
                    && replies::runs_gh(c, seq!["auth"@, "status"@])
                &&& exists|r: report::ReportView| #[trigger]
                    adds(s, r, "`gh` authenticated"@, o) && goes_on(next, r, git_ok)
            }
        }),
{
    reveal(doctor::on_git_tool);
    reveal(doctor::on_gh_tool);
    reveal(doctor::on_gh_auth);
    reveal(doctor::after_tools);
    reveal(doctor::at_end);
    let r = doctor::shown(s.report);
    let none = Seq::<char>::empty();
    assert forall|x: Seq<char>| #[trigger] (none + x) == x by {}
    let gh = doctor::tool_outcome(Program::Gh, reply);
    let auth = doctor::auth_outcome(reply);
    assert(adds(s, report::checked(r, "`gh` on PATH"@, gh), "`gh` on PATH"@, gh));
    assert(adds(s, report::checked(r, "`gh` authenticated"@, auth), "`gh` authenticated"@, auth));
}

/// Once the tools are checked, the checkup goes on with the repository if `git`
/// is there, and is over otherwise.
pub open spec fn goes_on(next: doctor::DoctorView, r: report::ReportView, git_ok: bool) -> bool {
    if git_ok {
        &&& next.phase is InRepo
        &&& next.report.pass == r.pass && next.report.warn == r.warn && next.report.fail == r.fail
        &&& next.report.text == r.text + ui::section_text(r.palette, "Repository"@)
    } else {
        is_over(next, r)
    }
}

/// Outside a git repository the checkup is over; inside one it is read.
pub proof fn law_repo_is_read_where_there_is_one(s: doctor::DoctorView, reply: command::ReplyView)
    requires
        countable(s),
        s.phase is InRepo,
    ensures
        ({
            let next = doctor::doctor_next(s, step::EventView::Ran(reply));
            let o = doctor::in_repo_outcome(reply);
            &&& doctor::doctor_action(s) matches Some(step::ActionView::Run(c))
                && replies::runs_git(c, seq!["rev-parse"@, "--git-dir"@])
            &&& if promises::ended_well(reply) {
                &&& next.phase == doctor::PhaseView::State(git::StateReadView::GitDir)
                &&& adds(s, next.report, "inside a git repository"@, o)
            } else {
                exists|r: report::ReportView| #[trigger]
                    adds(s, r, "inside a git repository"@, o) && is_over(next, r)
            }
        }),
{
    reveal(doctor::on_in_repo);
    reveal(doctor::at_end);
    let o = doctor::in_repo_outcome(reply);
    let r = report::checked(doctor::shown(s.report), "inside a git repository"@, o);
    assert(adds(s, r, "inside a git repository"@, o));
}

/// Numbers and palette go on from `r` to `next` by three checks, whose lines are
/// added in their order.
pub open spec fn adds_three(
    s: doctor::DoctorView,
    next: report::ReportView,
    commits: report::OutcomeView,
    operation: report::OutcomeView,
    branch: report::OutcomeView,
) -> bool {
    let p = s.report.palette;
    &&& next.palette == p
    &&& next.text == report::check_text(p, "repository has commits"@, commits)
        + report::check_text(p, "no long-running git operation"@, operation) + report::check_text(
        p,
        "HEAD is on a branch (not detached)"@,
        branch,
    ) + ui::section_text(p, "GitHub"@)
    &&& next.pass + next.warn + next.fail == s.report.pass + s.report.warn + s.report.fail + 3
    &&& next.warn == s.report.warn
    &&& next.fail == s.report.fail + (if operation.status is Fail {
        1int
    } else {
        0
    }) + (if branch.status is Fail {
        1int
    } else {
        0
    })
}

/// A repository that cannot be read has no commits, and the checkup is over. One
/// that can be read is looked up on GitHub, whatever its state.
pub proof fn law_read_repo_is_looked_up(
    s: doctor::DoctorView,
    read: git::StateReadView,
    e: step::EventView,
)
    requires
        countable(s),
        s.phase == doctor::PhaseView::State(read),
    ensures
        ({
            let next = doctor::doctor_next(s, e);
            match git::state_read_next(read, e) {
                git::StateReadView::Done(Ok(state)) => {
                    &&& next.phase == (doctor::PhaseView::Local {
                        state,
                        query: gh::RepoQueryView::Ask { name: None },
                    })
                    &&& exists|commits: report::OutcomeView| #[trigger]
                        adds_three(
                            s,
                            next.report,
                            commits,
                            doctor::in_progress_outcome(state),
                            doctor::branch_outcome(state),
                        ) && commits.status is Pass
                },
                git::StateReadView::Done(Err(cause)) => exists|
                    r: report::ReportView,
                    o: report::OutcomeView,
                | #[trigger]
                    adds(s, r, "repository has commits"@, o) && is_over(next, r) && o.status is Fail
                        && o.detail == Some(cause),
                reading => next.phase == doctor::PhaseView::State(reading) && next.report.fail
                    == s.report.fail,
            }
        }),
{
    reveal(doctor::on_state);
    reveal(doctor::at_end);
    let shown = doctor::shown(s.report);
    match git::state_read_next(read, e) {
        git::StateReadView::Done(Ok(state)) => {
            let next = doctor::doctor_next(s, e);
            assert(next.report.text == Seq::<char>::empty() + report::check_text(
                s.report.palette,
                "repository has commits"@,
                report::pass(),
            ) + report::check_text(
                s.report.palette,
                "no long-running git operation"@,
                doctor::in_progress_outcome(state),
            ) + report::check_text(
                s.report.palette,
                "HEAD is on a branch (not detached)"@,
                doctor::branch_outcome(state),
            ) + ui::section_text(s.report.palette, "GitHub"@));
            assert(adds_three(
                s,
                next.report,
                report::pass(),
                doctor::in_progress_outcome(state),
                doctor::branch_outcome(state),
            ));
        },
        git::StateReadView::Done(Err(cause)) => {
            let o = report::fail(cause);
            let r = report::checked(shown, "repository has commits"@, o);
            assert(adds(s, r, "repository has commits"@, o));
        },
        _ => {},
    }
}

/// The merge target is known: it is named, and its setting is checked. Then its
/// remote is looked for.
pub open spec fn checks_target(
    next: doctor::DoctorView,
    before: report::ReportView,
    state: git::RepoStateView,
    t: gh::RepoInfoView,
    fork: bool,
) -> bool {
    let p = before.palette;
    let o = doctor::delete_on_merge_outcome(t);
    &&& next.phase == (doctor::PhaseView::Remote {
        state,
        target: t,
        fork,
        query: target::RemoteQueryView::Configured { target: t.name_with_owner, fork },
    })
    &&& next.report.palette == p
    &&& next.report.fail == before.fail
    &&& next.report.warn == before.warn + (if t.delete_branch_on_merge {
        0int
    } else {
        1
    })
    &&& next.report.pass == before.pass + (if t.delete_branch_on_merge {
        2int
    } else {
        1
    })
    &&& exists|found: report::OutcomeView|
        {
            &&& found.status is Pass
            &&& found.detail is None
            &&& found.inline == Some(
                if fork {
                    t.name_with_owner + " (this clone is a fork)"@
                } else {
                    t.name_with_owner
                },
            )
            &&& next.report.text == before.text + #[trigger] report::check_text(
                p,
                "merge target identified"@,
                found,
            ) + report::check_text(p, "`delete_branch_on_merge` enabled on merge target"@, o)
        }
}

proof fn lemma_checks_target(
    r: report::ReportView,
    state: git::RepoStateView,
    t: gh::RepoInfoView,
    fork: bool,
)
    requires
        r.pass < 1000,
        r.warn < 1000,
        r.fail < 1000,
    ensures
        checks_target(doctor::at_target(r, state, fork, t), r, state, t, fork),
{
    reveal(doctor::at_target);
    let found = report::pass_with(
        if fork {
            t.name_with_owner + " (this clone is a fork)"@
        } else {
            t.name_with_owner
        },
    );
    let line = report::check_text(r.palette, "merge target identified"@, found);
    assert(doctor::at_target(r, state, fork, t).report.text == r.text + line + report::check_text(
        r.palette,
        "`delete_branch_on_merge` enabled on merge target"@,
        doctor::delete_on_merge_outcome(t),
    ));
}

/// The repository at hand is the merge target unless it is a fork, whose parent
/// is looked up by its name. A failed lookup, or a fork without a parent, fails
/// and ends the checkup.
pub proof fn law_merge_target_is_identified(
    s: doctor::DoctorView,
    state: git::RepoStateView,
    query: gh::RepoQueryView,
    e: step::EventView,
)
    requires
        countable(s),
        s.phase == (doctor::PhaseView::Local { state, query }),
    ensures
        ({
            let next = doctor::doctor_next(s, e);
            let label = "`gh repo view` succeeds (GitHub remote configured)"@;
            match gh::repo_query_next(query, e) {
                gh::RepoQueryView::Done(Ok(local)) => exists|
                    r: report::ReportView,
                    o: report::OutcomeView,
                | #[trigger]
                    adds(s, r, label, o) && o.status is Pass && o.inline == Some(
                        local.name_with_owner,
                    ) && (if !local.is_fork {
                        checks_target(next, r, state, local, false)
                    } else {
                        match local.parent_name_with_owner {
                            Some(parent) => next.report == r && next.phase == (
                            doctor::PhaseView::Fork {
                                state,
                                parent,
                                query: gh::RepoQueryView::Ask { name: Some(parent) },
                            }),
                            None => next.phase == (doctor::PhaseView::Finished { failed: true }),
                        }
                    }),
                gh::RepoQueryView::Done(Err(cause)) => exists|
                    r: report::ReportView,
                    o: report::OutcomeView,
                | #[trigger]
                    adds(s, r, label, o) && is_over(next, r) && o.status is Fail && o.detail
                        == Some(cause),
                asking => next.phase == (doctor::PhaseView::Local { state, query: asking }),
            }
        }),
{
    reveal(doctor::on_local);
    reveal(doctor::at_end);
    let shown = doctor::shown(s.report);
    let label = "`gh repo view` succeeds (GitHub remote configured)"@;
    match gh::repo_query_next(query, e) {
        gh::RepoQueryView::Done(Ok(local)) => {
            let o = report::pass_with(local.name_with_owner);
            let r = report::checked(shown, label, o);
            lemma_checks_target(r, state, local, false);
            assert(adds(s, r, label, o));
        },
        gh::RepoQueryView::Done(Err(cause)) => {
            let o = report::fail(cause);
            let r = report::checked(shown, label, o);
            assert(adds(s, r, label, o));
        },
        _ => {},
    }
}

/// The parent of a fork is the fork's merge target. A failed lookup fails and
/// ends the checkup.
pub proof fn law_parent_of_a_fork_is_identified(
    s: doctor::DoctorView,
    state: git::RepoStateView,
    parent: Seq<char>,
    query: gh::RepoQueryView,
    e: step::EventView,
)
    requires
        countable(s),
        s.phase == (doctor::PhaseView::Fork { state, parent, query }),
    ensures
        ({
            let next = doctor::doctor_next(s, e);
            match gh::repo_query_next(query, e) {
                gh::RepoQueryView::Done(Ok(info)) => checks_target(
                    next,
                    (report::ReportView { text: seq![], ..s.report }),
                    state,
                    info,
                    true,
                ),
                gh::RepoQueryView::Done(Err(cause)) => exists|
                    r: report::ReportView,
                    o: report::OutcomeView,
                | #[trigger]
                    adds(s, r, "merge target identified"@, o) && is_over(next, r) && o.status
                        is Fail && (o.detail matches Some(why) && promises::shows(why, cause)),
                asking => next.phase == (doctor::PhaseView::Fork { state, parent, query: asking }),
            }
        }),
{
    reveal(doctor::on_fork);
    reveal(doctor::at_end);
    let shown = doctor::shown(s.report);
    match gh::repo_query_next(query, e) {
        gh::RepoQueryView::Done(Ok(info)) => {
            lemma_checks_target(shown, state, info, true);
        },
        gh::RepoQueryView::Done(Err(cause)) => {
            let front = crate::stack::fork_context(parent) + ": "@;
            let why = command::in_context(crate::stack::fork_context(parent), cause);
            promises::lemma_shows(why, front, cause, seq![]);
            let o = report::fail(why);
            let r = report::checked(shown, "merge target identified"@, o);
            assert(adds(s, r, "merge target identified"@, o));
        },
        _ => {},
    }
}

/// The remote is checked. The branch is checked after it if and only if there is
/// one, and its upstream after that; otherwise the checkup is over.
pub proof fn law_branch_is_checked_where_there_is_one(
    s: doctor::DoctorView,
    state: git::RepoStateView,
    t: gh::RepoInfoView,
    fork: bool,
    query: target::RemoteQueryView,
    e: step::EventView,
)
    requires
        countable(s),
        s.phase == (doctor::PhaseView::Remote { state, target: t, fork, query }),
    ensures
        ({
            let next = doctor::doctor_next(s, e);
            let label = "merge-target remote uniquely resolvable"@;
            match target::remote_query_next(query, e) {
                target::RemoteQueryView::Done(resolved) => {
                    let o = doctor::target_remote_outcome(resolved);
                    exists|r: report::ReportView| #[trigger]
                        adds(s, r, label, o) && (if state.current_branch is Some {
                            let b = doctor::not_default_outcome(state, t);
                            &&& next.phase == (doctor::PhaseView::Upstream {
                                state,
                                query: target::RemoteQueryView::Configured {
                                    target: t.name_with_owner,
                                    fork,
                                },
                            })
                            &&& next.report.text == r.text + ui::section_text(
                                r.palette,
                                "Current branch"@,
                            ) + report::check_text(
                                r.palette,
                                "on a feature branch (not the default branch)"@,
                                b,
                            )
                            &&& next.report.pass == r.pass + (if b.status is Pass {
                                1int
                            } else {
                                0
                            })
                            &&& next.report.warn == r.warn + (if b.status is Warn {
                                1int
                            } else {
                                0
                            })
                            &&& next.report.fail == r.fail
                        } else {
                            is_over(next, r)
                        })
                },
                asking => next.phase == (doctor::PhaseView::Remote {
                    state,
                    target: t,
                    fork,
                    query: asking,
                }),
            }
        }),
{
    reveal(doctor::on_remote);
    reveal(doctor::at_end);
    let shown = doctor::shown(s.report);
    let label = "merge-target remote uniquely resolvable"@;
    match target::remote_query_next(query, e) {
        target::RemoteQueryView::Done(resolved) => {
            let o = doctor::target_remote_outcome(resolved);
            let r = report::checked(shown, label, o);
            assert(adds(s, r, label, o));
        },
        _ => {},
    }
}

/// The upstream is checked last, and the checkup is over.
pub proof fn law_upstream_is_checked_last(
    s: doctor::DoctorView,
    state: git::RepoStateView,
    query: target::RemoteQueryView,
    e: step::EventView,
)
    requires
        countable(s),
        s.phase == (doctor::PhaseView::Upstream { state, query }),
    ensures
        ({
            let next = doctor::doctor_next(s, e);
            let label = "upstream tracks the merge-target remote"@;
            match target::remote_query_next(query, e) {
                target::RemoteQueryView::Done(resolved) => exists|r: report::ReportView|
                    #[trigger] adds(s, r, label, doctor::upstream_outcome(state, resolved))
                        && is_over(next, r),
                asking => next.phase == (doctor::PhaseView::Upstream { state, query: asking }),
            }
        }),
{
    reveal(doctor::on_upstream);
    reveal(doctor::at_end);
    let shown = doctor::shown(s.report);
    let label = "upstream tracks the merge-target remote"@;
    match target::remote_query_next(query, e) {
        target::RemoteQueryView::Done(resolved) => {
            let o = doctor::upstream_outcome(state, resolved);
            let r = report::checked(shown, label, o);
            assert(adds(s, r, label, o));
        },
        _ => {},
    }
}

/// While something is read, looked up or searched, the checkup asks what the
/// reading, the lookup or the search asks.
pub proof fn law_checkup_asks_what_is_pending(s: doctor::DoctorView)
    ensures
        s.phase matches doctor::PhaseView::State(read) ==> doctor::doctor_action(s)
            == git::state_read_action(read),
        s.phase matches doctor::PhaseView::Local { query, .. } ==> doctor::doctor_action(s)
            == gh::repo_query_action(query),
        s.phase matches doctor::PhaseView::Fork { query, .. } ==> doctor::doctor_action(s)
            == gh::repo_query_action(query),
        s.phase matches doctor::PhaseView::Remote { query, .. } ==> doctor::doctor_action(s)
            == target::remote_query_action(query),
        s.phase matches doctor::PhaseView::Upstream { query, .. } ==> doctor::doctor_action(s)
            == target::remote_query_action(query),
{
}

/// A checkup that is over stays over, with the same result; a missing reply
/// counts as a tool that could not be run.
pub proof fn law_checkup_stays_over(s: doctor::DoctorView, e: step::EventView, failed: bool)
    ensures
        s.phase == (doctor::PhaseView::Finished { failed }) ==> doctor::doctor_next(s, e).phase
            == s.phase && doctor::doctor_action(s) is None,
        !(e is Ran) ==> (doctor::reply_in(e) is NotRun),
        e matches step::EventView::Ran(reply) ==> doctor::reply_in(e) == reply,
{
}

} // verus!
