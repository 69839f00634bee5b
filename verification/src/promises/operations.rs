//! The promises as they stand for the operations themselves: what every result
//! that an operation can return has to do with its arguments.

use vstd::prelude::*;

use crate::command;
use crate::command::{Command, Error, Program, Reply};
use crate::doctor;
use crate::gh;
use crate::gh::{CreatePrOpts, OpenPr, RepoInfo};
use crate::git;
use crate::git::{GitOutput, InProgress, Remote, RepoState};
use crate::parent;
use crate::parent::Parent;
use crate::plan;
use crate::plan::AutoDelete;
use crate::promises;
use crate::promises::base;
use crate::promises::checkup;
use crate::promises::flow;
use crate::promises::new_pr;
use crate::promises::push;
use crate::promises::remote;
use crate::promises::replies;
use crate::promises::repo;
use crate::report::Outcome;
use crate::stack;
use crate::stack::{Push, StackOpts};
use crate::step;
use crate::step::{Action, Event};
use crate::target;
use crate::target::MergeTarget;
use crate::text;

verus! {

// --- the push ---------------------------------------------------------------

/// No option is set by default.
pub proof fn law_no_option_by_default(r: StackOpts)
    requires
        call_ensures(<StackOpts as Default>::default, (), r),
    ensures
        r.title is None,
        r.body is None,
        !r.draft,
        !r.web,
        !r.force_with_lease,
        !r.yes,
        r.verbose == 0,
{
    let v = r.deep_view();
    assert(v.title is None && v.body is None);
}

/// A new PR gets no option by default.
pub proof fn law_no_pr_option_by_default(r: CreatePrOpts<'_>)
    requires
        call_ensures(<CreatePrOpts<'_> as Default>::default, (), r),
    ensures
        r.title is None,
        r.body is None,
        !r.draft,
        !r.web,
{
}

/// A repo is accepted if and only if nothing is in progress and HEAD is on a
/// branch, which is the one returned.
pub proof fn law_guard(state: RepoState, r: Result<String, Error>)
    requires
        call_ensures(stack::guard_state, (&state,), r),
    ensures
        r is Ok <==> state.deep_view().in_progress is None && state.deep_view().current_branch
            is Some,
        r matches Ok(branch) ==> state.deep_view().current_branch == Some(branch@),
{
    repo::law_fit_repos(state.deep_view());
}

/// The pushing command pushes the branch to the remote and sets the upstream. It
/// forces if and only if it is told to.
pub proof fn law_push(
    remote: &str,
    branch: &str,
    force_with_lease: bool,
    out: GitOutput,
    r: Command,
)
    requires
        call_ensures(git::push, (remote, branch, force_with_lease, out), r),
    ensures
        ({
            let c = r.deep_view();
            let n = c.args.len() as int;
            let verbose = out == (GitOutput::Stream { verbose: true });
            &&& c.program == Program::Git
            &&& c.inherit <==> !(out is Quiet)
            &&& n == 4 + (if force_with_lease {
                1int
            } else {
                0
            }) + (if verbose {
                1int
            } else {
                0
            })
            &&& c.args[0] == "push"@
            &&& c.args[1] == "--set-upstream"@
            &&& force_with_lease ==> c.args[2] == "--force-with-lease"@
            &&& verbose ==> c.args[n - 3] == "--verbose"@
            &&& c.args[n - 2] == remote@
            &&& c.args[n - 1] == branch@
        }),
{
}

/// The action of a run in its push phase pushes its branch to its remote, and
/// forces if and only if the user asked for that.
pub proof fn law_pushing_run(s: Push, p: stack::PlanView, r: Option<Action>)
    requires
        call_ensures(Push::action, (&s,), r),
        s.deep_view().phase == stack::PhaseView::Push(p),
    ensures
        r matches Some(Action::Run(c)) && {
            let args = c.deep_view().args;
            &&& args[0] == "push"@
            &&& args[args.len() - 2] == p.aim.remote
            &&& args[args.len() - 1] == p.aim.here.branch
            &&& s.setup.opts.force_with_lease <==> exists|i: int|
                0 <= i < args.len() - 2 && #[trigger] args[i] == "--force-with-lease"@
        },
{
    reveal_strlit("push");
    reveal_strlit("--set-upstream");
    reveal_strlit("--verbose");
    reveal_strlit("--force-with-lease");
    assert("push"@.len() != "--force-with-lease"@.len());
    assert("--set-upstream"@.len() != "--force-with-lease"@.len());
    assert("--verbose"@.len() != "--force-with-lease"@.len());
    push::law_push_forces_only_on_request(s.deep_view(), p);
    let a = r.deep_view();
    assert(a == stack::push_action(s.deep_view()));
    let args = a->Some_0->Run_0.args;
    assert(args[0] == "push"@);
    if s.setup.opts.force_with_lease {
        assert(args[2] == "--force-with-lease"@);
    }
}

/// A step of a run follows the promises on how a run goes on: after a successful
/// push of a branch whose PR is open, the run is over; without an open PR, one
/// is created.
pub proof fn law_step_after_the_push(s: Push, e: Event, p: stack::PlanView, r: Push)
    requires
        call_ensures(Push::step, (s, e), r),
        s.deep_view().phase == stack::PhaseView::Push(p),
    ensures
        e.deep_view() matches step::EventView::Ran(reply) ==> {
            let next = r.deep_view().phase;
            if !promises::ended_well(reply) {
                next matches stack::PhaseView::Finished(Err(_))
            } else if p.existing is Some {
                next == stack::PhaseView::Finished(Ok(()))
            } else {
                next == stack::PhaseView::Create(p)
            }
        },
{
    match e.deep_view() {
        step::EventView::Ran(reply) => {
            flow::law_failed_push_ends_the_run(s.deep_view(), p, reply);
            reveal(stack::on_pushed);
        },
        _ => {},
    }
}

/// The step that settles the remote warns of a branch that is astray, and asks
/// before it is pushed elsewhere, unless prompts are skipped.
pub proof fn law_step_to_the_remote(s: Push, e: Event, r: Push)
    requires
        call_ensures(Push::step, (s, e), r),
        crate::laws::push_ok(s.deep_view()),
        push::remote_is_settled(s.deep_view(), r.deep_view()),
    ensures
        ({
            let aim = crate::laws::aim_of(r.deep_view())->Some_0;
            &&& r.deep_view().phase == stack::PhaseView::OfferRescue(aim) <==> push::is_astray(
                aim,
            ) && !s.deep_view().setup.opts.yes
            &&& r.deep_view().phase == stack::PhaseView::Fetch(aim) <==> !push::is_astray(aim)
                || s.deep_view().setup.opts.yes
            &&& push::is_astray(aim) ==> promises::shows(
                r.deep_view().output,
                crate::ui::warn_text(s.deep_view().setup.console, push::astray_text(aim)),
            )
        }),
{
    push::law_branch_astray_is_warned_of_and_confirmed(s.deep_view(), e.deep_view());
}

// --- the new PR -------------------------------------------------------------

/// The creating command holds every option that is given, and no other.
pub proof fn law_create(
    on: &str,
    into: &str,
    head: &str,
    opts: CreatePrOpts<'_>,
    r: Command,
)
    requires
        call_ensures(gh::create_pr, (on, into, head, &opts), r),
    ensures
        r.deep_view().program == Program::Gh,
        !r.deep_view().inherit,
        push::creates(
            r.deep_view().args,
            on@,
            into@,
            head@,
            opts.title.deep_view(),
            opts.body.deep_view(),
            opts.draft,
            opts.web,
        ),
{
    push::law_creation_holds_every_option(
        on@,
        into@,
        head@,
        opts.title.deep_view(),
        opts.body.deep_view(),
        opts.draft,
        opts.web,
    );
}

/// A PR can be a parent if and only if its head lives on the merge target and is
/// not the branch itself.
pub proof fn law_eligible(pr: OpenPr, target: &str, branch: &str, r: bool)
    requires
        call_ensures(parent::is_eligible, (&pr, target, branch), r),
    ensures
        r <==> base::lives_on(pr.deep_view(), target@, branch@),
{
    base::law_candidates_live_on_the_target(pr.deep_view(), target@, branch@);
}

/// The picked parent is the first of those PRs that are closest; there is none
/// if and only if no PR has a distance.
pub proof fn law_pick(prs: Vec<OpenPr>, distances: Vec<Option<usize>>, r: Option<Parent>)
    requires
        call_ensures(parent::pick_parent, (&prs, &distances), r),
        prs.len() == distances.len(),
    ensures
        r is None <==> forall|i: int|
            0 <= i < distances.len() ==> (#[trigger] distances@[i]) is None,
        r matches Some(p) ==> exists|i: int|
            {
                &&& 0 <= i < distances.len()
                &&& #[trigger] distances@[i] matches Some(d)
                &&& p.deep_view() == (parent::ParentView::Pr {
                    branch: prs.deep_view()[i].head_ref_name,
                    number: prs.deep_view()[i].number,
                    url: prs.deep_view()[i].url,
                    distance: d,
                })
                &&& forall|j: int|
                    0 <= j < distances.len() ==> ((#[trigger] distances@[j]) matches Some(e) ==> d
                        <= e && (j < i ==> d < e))
            },
{
    let all = prs.deep_view();
    parent::law_picked_parent_is_closest(all, distances@);
    match r.deep_view() {
        Some(p) => {
            let i = choose|i: int| #[trigger]
                parent::is_first_closest(all, distances@, all.len() as int, i, p);
            assert(distances@[i] is Some);
        },
        None => {},
    }
}

/// The merged description keeps what it said and ends with the footer.
pub proof fn law_merge(current: &str, footer: &str, r: String)
    requires
        call_ensures(plan::merge_body_with_footer, (current, footer), r),
    ensures
        new_pr::has_footer(r@, current@, footer@),
{
    new_pr::lemma_has_footer(current@, footer@);
}

/// The footer names the parent's number and branch.
pub proof fn law_footer(number: u64, branch: &str, r: String)
    requires
        call_ensures(plan::stack_footer, (number, branch), r),
    ensures
        r@ == "Stacked on #"@ + text::decimal(number as nat) + " (`"@ + branch@
            + "`) by [stackymcstackface](https://github.com/cjrh/stackymcstackface) ❤️"@,
{
}

/// The sentence says whether commits are pushed to an open PR or a new one is
/// opened, and on which base.
pub proof fn law_sentence(
    parent: Parent,
    existing: Option<OpenPr>,
    branch: &str,
    r: (String, Option<String>),
)
    requires
        call_ensures(
            plan::plan_sentence,
            (
                &parent,
                match existing {
                    Some(pr) => Some(&pr),
                    None => None,
                },
                branch,
            ),
            r,
        ),
    ensures
        existing matches Some(pr) ==> r.0@ == "push new commits to "@ + branch@
            && r.1.deep_view() == Some(
            "PR #"@ + text::decimal(pr.deep_view().number as nat) + " already open"@,
        ),
        existing is None ==> match parent.deep_view() {
            parent::ParentView::Default { branch: into } => r.0@ == "push "@ + branch@
                + " and open a PR with base "@ + into && r.1 is None,
            parent::ParentView::Pr { branch: into, number, url, .. } => r.0@ == "push "@ + branch@
                + " and open a stacked PR with base "@ + into && r.1.deep_view() == Some(
                "parent: #"@ + text::decimal(number as nat) + " "@ + url,
            ),
        },
{
    let v = r.deep_view();
    assert(v.0 == r.0@ && v.1 == r.1.deep_view());
}

// --- the setting and the rescue ---------------------------------------------

/// What is done about the setting: nothing if and only if it is on; a warning
/// alone if and only if the user may not change it; otherwise it is switched on
/// with prompts skipped, and offered without.
pub proof fn law_auto_delete(target: RepoInfo, assume_yes: bool, r: AutoDelete)
    requires
        call_ensures(plan::plan_auto_delete, (&target, assume_yes), r),
    ensures
        r is Keep <==> target.delete_branch_on_merge,
        r is Warn <==> !target.delete_branch_on_merge && !target.viewer_can_administer,
        r is Enable <==> !target.delete_branch_on_merge && target.viewer_can_administer
            && assume_yes,
        r is Offer <==> !target.delete_branch_on_merge && target.viewer_can_administer
            && !assume_yes,
{
}

/// A rescue is due if and only if the branch has an upstream on another remote;
/// the warning names both.
pub proof fn law_rescue(upstream: Option<(String, String)>, remote: &str, r: Option<String>)
    requires
        call_ensures(plan::rescue_wrong_remote, (&upstream, remote), r),
    ensures
        r is Some <==> (upstream matches Some((actual, _)) && actual@ != remote@),
        upstream matches Some((actual, _)) ==> (r matches Some(warning) ==> warning@
            == "current branch tracks `"@ + actual@ + "/...` but the merge target is `"@ + remote@
            + "`.\nStacked PRs only work when the branch lives on the merge-target remote."@),
{
}

// --- the merge target -------------------------------------------------------

/// The merge target of a fork is its parent, and of any other repository itself.
pub proof fn law_merge_target(local: RepoInfo, r: Result<MergeTarget, Error>)
    requires
        call_ensures(target::resolve_merge_target, (&local,), r),
    ensures
        r is Err <==> local.is_fork && local.deep_view().parent_name_with_owner is None,
        r matches Ok(MergeTarget::Own(info)) ==> !local.is_fork && info.deep_view()
            == local.deep_view(),
        r matches Ok(MergeTarget::Parent(parent)) ==> local.is_fork
            && local.deep_view().parent_name_with_owner == Some(parent@),
{
    let v = command::seen(r);
    remote::law_prs_land_on_the_parent_of_a_fork(local.deep_view());
    assert(v == target::merge_target(local.deep_view()));
    match r {
        Ok(t) => {
            assert(v->Ok_0 == t.deep_view());
        },
        Err(_) => {},
    }
}

/// A URL points at a repository if and only if what counts of it ends with the
/// repository's name behind a slash or a colon.
pub proof fn law_url(url: &str, name: &str, r: bool)
    requires
        call_ensures(target::url_points_at, (url, name), r),
    ensures
        r <==> exists|
            core: Seq<char>,
            a: Seq<char>,
            ending: Seq<char>,
            slashes: Seq<char>,
            b: Seq<char>,
        | #[trigger]
            remote::is_core(core, url@, a, ending, slashes, b) && remote::leads_to(core, name@),
{
    remote::law_url_points_at_the_name_it_ends_with(url@, name@);
}

/// A configured remote is used as it is. Otherwise the remote leads to the
/// target, and in a fork `upstream`, elsewhere `origin` is preferred among
/// several.
pub proof fn law_remote(
    on: &str,
    fork: bool,
    configured: Option<String>,
    remotes: Vec<Remote>,
    r: Result<String, Error>,
)
    requires
        call_ensures(target::resolve_merge_target_remote, (on, fork, configured, &remotes), r),
    ensures
        configured matches Some(name) ==> (r matches Ok(chosen) && chosen@ == name@),
        configured is None ==> (r matches Ok(chosen) ==> remote::is_match(
            remotes.deep_view(),
            chosen@,
            on@,
        )),
        configured is None && (forall|i: int|
            !#[trigger] remote::matches_at(remotes.deep_view(), i, on@)) ==> r is Err,
        configured is None && remote::is_match(
            remotes.deep_view(),
            if fork {
                "upstream"@
            } else {
                "origin"@
            },
            on@,
        ) ==> (r matches Ok(chosen) && (chosen@ == (if fork {
            "upstream"@
        } else {
            "origin"@
        }) || remote::is_only_match(remotes.deep_view(), chosen@, on@))),
{
    let all = remotes.deep_view();
    let v = command::seen(r);
    match configured {
        Some(name) => {
            remote::law_choice_of_the_remote(on@, fork, Some(name@), all, name@);
        },
        None => {
            match r {
                Ok(chosen) => {
                    assert(v == Ok::<Seq<char>, Seq<char>>(chosen@));
                    remote::law_choice_of_the_remote(on@, fork, None, all, chosen@);
                },
                Err(_) => {
                    remote::law_choice_of_the_remote(on@, fork, None, all, seq![]);
                },
            }
        },
    }
}

// --- git --------------------------------------------------------------------

/// An operation is in progress if and only if one of its markers is present.
pub proof fn law_operation(present: Vec<String>, r: Option<InProgress>)
    requires
        call_ensures(git::detect_in_progress, (&present,), r),
    ensures
        ({
            let p = present.deep_view();
            r is None <==> !repo::rebase_dirs(p) && !p.contains("MERGE_HEAD"@) && !p.contains(
                "CHERRY_PICK_HEAD"@,
            ) && !p.contains("REVERT_HEAD"@) && !p.contains("BISECT_LOG"@)
        }),
        r is Some ==> (r->Some_0 is ApplyMailbox <==> repo::rebase_dirs(present.deep_view())
            && present.deep_view().contains("rebase-apply/applying"@)),
{
    repo::law_operation_by_its_marker(present.deep_view());
}

/// An upstream is split at its first slash, and neither part is empty.
pub proof fn law_split(s: &str, r: Option<(String, String)>, first: Seq<char>, rest: Seq<char>)
    requires
        call_ensures(git::split_upstream, (s,), r),
        s@ == first + seq!['/'] + rest,
        !first.contains('/'),
    ensures
        r is Some <==> first.len() > 0 && rest.len() > 0,
        r matches Some((a, b)) ==> a@ == first && b@ == rest,
{
    repo::law_upstream_without_a_named_remote(first, rest);
    match r {
        Some((a, b)) => {
            assert(r.deep_view() == Some((a@, b@)));
        },
        None => {},
    }
}

/// A captured command gives its output if and only if it ended with exit code
/// zero.
pub proof fn law_capture(c: Command, reply: Reply, r: Result<String, Error>)
    requires
        call_ensures(command::run_capture, (&c, &reply), r),
    ensures
        r is Ok <==> promises::ended_well(reply.deep_view()),
        r matches Ok(s) ==> replies::is_text_of(s@, replies::stdout_of(reply.deep_view())),
{
    replies::law_captured_commands(c.deep_view(), reply.deep_view());
    match r {
        Ok(s) => {
            assert(command::seen(r) == Ok::<Seq<char>, Seq<char>>(s@));
        },
        Err(_) => {},
    }
}

/// The answers of git, by its exit code.
pub proof fn law_answers(
    reply: Reply,
    ancestor: Result<bool, Error>,
    common: Result<bool, Error>,
    value: Result<Option<String>, Error>,
    sha: Result<Option<String>, Error>,
)
    requires
        call_ensures(git::is_ancestor_reply, (&reply,), ancestor),
        call_ensures(git::common_ancestor_reply, (&reply,), common),
        call_ensures(git::config_get_reply, (&reply,), value),
        call_ensures(git::resolve_reply, (&reply,), sha),
    ensures
        ({
            let code = replies::exit_code(reply.deep_view());
            &&& ancestor is Ok <==> code == Some(0i32) || code == Some(1i32)
            &&& ancestor matches Ok(yes) ==> (yes <==> code == Some(0i32))
            &&& common is Ok <==> code == Some(0i32) || code == Some(1i32)
            &&& common matches Ok(yes) ==> (yes <==> code == Some(0i32))
            &&& value is Ok <==> code == Some(0i32) || code == Some(1i32)
            &&& value matches Ok(found) ==> (found is Some <==> code == Some(0i32))
            &&& sha is Err <==> reply.deep_view() is NotRun
            &&& sha matches Ok(found) ==> (found is Some <==> code == Some(0i32))
        }),
{
    let v = reply.deep_view();
    replies::law_ancestry_by_exit_code(v);
    replies::law_common_ancestor_by_exit_code(v);
    replies::law_config_by_exit_code(v);
    replies::law_resolution_by_exit_code(v);
    assert(command::seen(ancestor) == git::ancestry(v));
    assert(command::seen(common) == git::shared_history(v));
    assert(command::seen(value) == git::configured(v));
    assert(command::seen(sha) == git::resolved(v));
    match value {
        Ok(found) => {
            assert(command::seen(value) == Ok::<Option<Seq<char>>, Seq<char>>(found.deep_view()));
        },
        Err(_) => {},
    }
    match sha {
        Ok(found) => {
            assert(command::seen(sha) == Ok::<Option<Seq<char>>, Seq<char>>(found.deep_view()));
        },
        Err(_) => {},
    }
}

// --- the checkup ------------------------------------------------------------

/// The verdicts of the single checks.
pub proof fn law_probes(
    program: Program,
    reply: Reply,
    state: RepoState,
    info: RepoInfo,
    tool: Outcome,
    auth: Outcome,
    in_repo: Outcome,
    in_progress: Outcome,
    branch: Outcome,
    setting: Outcome,
    feature: Outcome,
)
    requires
        call_ensures(doctor::probe_tool, (program, &reply), tool),
        call_ensures(doctor::probe_gh_auth, (&reply,), auth),
        call_ensures(doctor::probe_in_repo, (&reply,), in_repo),
        call_ensures(doctor::probe_in_progress, (&state,), in_progress),
        call_ensures(doctor::probe_branch, (&state,), branch),
        call_ensures(doctor::probe_delete_on_merge, (&info,), setting),
        call_ensures(doctor::probe_not_default, (&state, &info), feature),
    ensures
        ({
            let ok = promises::ended_well(reply.deep_view());
            let s = state.deep_view();
            let t = info.deep_view();
            &&& tool.status is Pass <==> ok
            &&& tool.status is Fail <==> !ok
            &&& auth.status is Pass <==> ok
            &&& auth.status is Fail <==> !ok
            &&& in_repo.status is Pass <==> ok
            &&& in_repo.status is Fail <==> !ok
            &&& in_progress.status is Pass <==> s.in_progress is None
            &&& in_progress.status is Fail <==> s.in_progress is Some
            &&& branch.status is Pass <==> s.current_branch is Some
            &&& branch.status is Fail <==> s.current_branch is None
            &&& setting.status is Pass <==> t.delete_branch_on_merge
            &&& setting.status is Warn <==> !t.delete_branch_on_merge
            &&& feature.status is Pass <==> (s.current_branch matches Some(b) && b
                != t.default_branch)
            &&& !(feature.status is Fail)
        }),
{
    let s = state.deep_view();
    let t = info.deep_view();
    let v = reply.deep_view();
    checkup::law_tool_passes_iff_it_answers(program, v);
    checkup::law_authentication_by_exit_code(v);
    checkup::law_repo_verdicts(v, s);
    checkup::law_github_verdicts(t, Ok(seq![]));
    checkup::law_branch_verdicts(s, t, Ok(seq![]));
    assert(tool.deep_view().status == tool.status);
    assert(auth.deep_view().status == auth.status);
    assert(in_repo.deep_view().status == in_repo.status);
    assert(in_progress.deep_view().status == in_progress.status);
    assert(branch.deep_view().status == branch.status);
    assert(setting.deep_view().status == setting.status);
    assert(feature.deep_view().status == feature.status);
}

/// The check of the upstream passes if and only if the remote is known, and the
/// branch has no upstream or has it there. Otherwise it warns.
pub proof fn law_probe_upstream(state: RepoState, resolved: Result<String, Error>, r: Outcome)
    requires
        call_ensures(doctor::probe_upstream, (&state, &resolved), r),
    ensures
        r.status is Pass <==> (resolved matches Ok(remote) && (
        state.deep_view().upstream is None || state.deep_view().upstream->Some_0.0 == remote@)),
        !(r.status is Fail),
{
    let v = command::seen(resolved);
    checkup::law_branch_verdicts(
        state.deep_view(),
        gh::RepoInfoView {
            name_with_owner: seq![],
            default_branch: seq![],
            is_fork: false,
            parent_name_with_owner: None,
            delete_branch_on_merge: false,
            viewer_can_administer: false,
        },
        v,
    );
    assert(r.deep_view().status == r.status);
    match resolved {
        Ok(remote) => {
            assert(v == Ok::<Seq<char>, Seq<char>>(remote@));
        },
        Err(_) => {},
    }
}

} // verus!
