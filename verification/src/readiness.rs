//! What holds of every run of the `doctor` command, and what its verdict tells
//! about `push`.

use vstd::prelude::*;

use crate::command;
use crate::doctor;
use crate::gh;
use crate::git;
use crate::laws;
use crate::plan;
use crate::report;
use crate::stack;
use crate::step;
use crate::target;
use crate::ui;

verus! {

// --- runs -------------------------------------------------------------------

/// The command after a series of events.
pub open spec fn doctor_after(
    s: doctor::DoctorView,
    events: Seq<step::EventView>,
) -> doctor::DoctorView
    decreases events.len(),
{
    if events.len() == 0 {
        s
    } else {
        doctor::doctor_next(doctor_after(s, events.drop_last()), events.last())
    }
}

/// What holds in every phase that a run can reach: the checks are counted, a
/// finished run failed where a check did, and a question is pending otherwise.
pub open spec fn doctor_ok(s: doctor::DoctorView) -> bool {
    &&& doctor::doctor_wf(s)
    &&& match s.phase {
        doctor::PhaseView::State(read) => !(read is Done),
        doctor::PhaseView::Local { query, .. } => !(query is Done),
        doctor::PhaseView::Fork { query, .. } => !(query is Done),
        doctor::PhaseView::Remote { query, .. } => !(query is Done),
        doctor::PhaseView::Upstream { query, .. } => !(query is Done),
        doctor::PhaseView::Finished { failed } => failed == (s.report.fail > 0),
        _ => true,
    }
}

/// The number of phases that can still follow.
pub open spec fn phases_left(p: doctor::PhaseView) -> nat {
    match p {
        doctor::PhaseView::GitTool => 9,
        doctor::PhaseView::GhTool { .. } => 8,
        doctor::PhaseView::GhAuth { .. } => 7,
        doctor::PhaseView::InRepo => 6,
        doctor::PhaseView::State(_) => 5,
        doctor::PhaseView::Local { .. } => 4,
        doctor::PhaseView::Fork { .. } => 3,
        doctor::PhaseView::Remote { .. } => 2,
        doctor::PhaseView::Upstream { .. } => 1,
        doctor::PhaseView::Finished { .. } => 0,
    }
}

/// The questions still to come within a phase.
pub open spec fn questions_left(p: doctor::PhaseView) -> int {
    match p {
        doctor::PhaseView::State(read) => git::state_questions(read),
        doctor::PhaseView::Local { query, .. } => gh::repo_questions(query),
        doctor::PhaseView::Fork { query, .. } => gh::repo_questions(query),
        doctor::PhaseView::Remote { query, .. } => target::remote_questions(query),
        doctor::PhaseView::Upstream { query, .. } => target::remote_questions(query),
        _ => 0,
    }
}

/// A later phase, or the same with fewer questions left.
pub open spec fn nearer_to_end(s: doctor::PhaseView, next: doctor::PhaseView) -> bool {
    &&& 0 <= questions_left(next)
    &&& phases_left(next) < phases_left(s) || (phases_left(next) == phases_left(s)
        && questions_left(next) < questions_left(s)) || (s is Finished && next == s)
}

/// A step keeps what holds of a run, takes no verdict back, and brings the run
/// nearer to its end.
spec fn step_ok(s: doctor::DoctorView, next: doctor::DoctorView) -> bool {
    &&& doctor_ok(next)
    &&& s.report.fail <= next.report.fail
    &&& s.report.warn <= next.report.warn
    &&& nearer_to_end(s.phase, next.phase)
}

proof fn lemma_tools_ok(s: doctor::DoctorView, e: step::EventView)
    requires
        doctor_ok(s),
        s.phase is GitTool || s.phase is GhTool || s.phase is GhAuth,
    ensures
        step_ok(s, doctor::doctor_next(s, e)),
{
    reveal(doctor::at_end);
    reveal(doctor::after_tools);
    reveal(doctor::on_git_tool);
    reveal(doctor::on_gh_tool);
    reveal(doctor::on_gh_auth);
}

proof fn lemma_repo_ok(s: doctor::DoctorView, e: step::EventView)
    requires
        doctor_ok(s),
        s.phase is InRepo || s.phase is State,
    ensures
        step_ok(s, doctor::doctor_next(s, e)),
{
    reveal(doctor::at_end);
    reveal(doctor::on_in_repo);
    reveal(doctor::on_state);
}

proof fn lemma_github_ok(s: doctor::DoctorView, e: step::EventView)
    requires
        doctor_ok(s),
        s.phase is Local || s.phase is Fork,
    ensures
        step_ok(s, doctor::doctor_next(s, e)),
{
    reveal(doctor::at_end);
    reveal(doctor::at_target);
    reveal(doctor::on_local);
    reveal(doctor::on_fork);
}

proof fn lemma_branch_ok(s: doctor::DoctorView, e: step::EventView)
    requires
        doctor_ok(s),
        s.phase is Remote || s.phase is Upstream,
    ensures
        step_ok(s, doctor::doctor_next(s, e)),
{
    reveal(doctor::at_end);
    reveal(doctor::on_remote);
    reveal(doctor::on_upstream);
}

/// Every step keeps what holds of a run.
proof fn lemma_doctor_next_ok(s: doctor::DoctorView, e: step::EventView)
    requires
        doctor_ok(s),
    ensures
        step_ok(s, doctor::doctor_next(s, e)),
{
    match s.phase {
        doctor::PhaseView::GitTool
        | doctor::PhaseView::GhTool { .. }
        | doctor::PhaseView::GhAuth { .. } => {
            lemma_tools_ok(s, e);
        },
        doctor::PhaseView::InRepo | doctor::PhaseView::State(_) => {
            lemma_repo_ok(s, e);
        },
        doctor::PhaseView::Local { .. } | doctor::PhaseView::Fork { .. } => {
            lemma_github_ok(s, e);
        },
        doctor::PhaseView::Remote { .. } | doctor::PhaseView::Upstream { .. } => {
            lemma_branch_ok(s, e);
        },
        doctor::PhaseView::Finished { .. } => {},
    }
}

/// What holds of a run holds after any events.
pub proof fn lemma_doctor_ok(p: ui::Palette, events: Seq<step::EventView>)
    ensures
        doctor_ok(doctor_after(doctor::doctor_start(p), events)),
    decreases events.len(),
{
    if events.len() > 0 {
        lemma_doctor_ok(p, events.drop_last());
        lemma_doctor_next_ok(
            doctor_after(doctor::doctor_start(p), events.drop_last()),
            events.last(),
        );
    }
}

/// Every event brings a run nearer to its end, whatever it reports. So every
/// run ends; and only a finished run waits for nothing.
pub proof fn law_every_checkup_ends(
    p: ui::Palette,
    events: Seq<step::EventView>,
    e: step::EventView,
)
    ensures
        ({
            let s = doctor_after(doctor::doctor_start(p), events);
            let next = doctor_after(doctor::doctor_start(p), events.push(e));
            &&& nearer_to_end(s.phase, next.phase)
            &&& s.phase is Finished <==> doctor::doctor_action(s) is None
        }),
{
    lemma_doctor_ok(p, events);
    assert(events.push(e).drop_last() == events);
    lemma_doctor_next_ok(doctor_after(doctor::doctor_start(p), events), e);
}

/// A check that failed is not forgotten, and the command fails if and only if a
/// check failed. Warnings do not count.
pub proof fn law_checkup_fails_iff_a_check_failed(
    p: ui::Palette,
    events: Seq<step::EventView>,
    i: int,
)
    requires
        0 <= i <= events.len(),
    ensures
        ({
            let earlier = doctor_after(doctor::doctor_start(p), events.take(i));
            let s = doctor_after(doctor::doctor_start(p), events);
            &&& earlier.report.fail <= s.report.fail
            &&& s.phase matches doctor::PhaseView::Finished { failed } ==> failed == (s.report.fail
                > 0)
        }),
    decreases events.len(),
{
    let start = doctor::doctor_start(p);
    lemma_doctor_ok(p, events);
    if i < events.len() {
        let front = events.drop_last();
        law_checkup_fails_iff_a_check_failed(p, front, i);
        assert(front.take(i) == events.take(i));
        lemma_doctor_ok(p, front);
        lemma_doctor_next_ok(doctor_after(start, front), events.last());
    } else {
        assert(events.take(i) == events);
    }
}

// --- read-only --------------------------------------------------------------

/// An action that changes nothing outside the local clone, does not fetch
/// either, and asks the user nothing.
pub open spec fn only_reads(a: step::ActionView) -> bool {
    match a {
        step::ActionView::Run(c) => laws::reads(c) && !(c.program == command::Program::Git
            && c.args[0] == "fetch"@),
        step::ActionView::Confirm(_) => false,
        _ => true,
    }
}

/// The commands that a checkup runs only read.
proof fn lemma_checkup_commands()
    ensures
        only_reads(step::ActionView::Run(doctor::version_command(command::Program::Git))),
        only_reads(step::ActionView::Run(doctor::version_command(command::Program::Gh))),
        only_reads(step::ActionView::Run(doctor::auth_command())),
        forall|key: Seq<char>|
            only_reads(step::ActionView::Run(#[trigger] git::config_get_command(key))),
        only_reads(step::ActionView::Run(git::list_remotes_command())),
        only_reads(step::ActionView::Run(git::git_dir_command())),
        only_reads(step::ActionView::Run(git::head_command())),
        only_reads(step::ActionView::Run(git::branch_command())),
        only_reads(step::ActionView::Run(git::upstream_command())),
        forall|name: Option<Seq<char>>|
            only_reads(step::ActionView::Run(#[trigger] gh::repo_info_command(name))),
{
    reveal_strlit("fetch");
    reveal_strlit("--version");
    reveal_strlit("rev-parse");
    reveal_strlit("config");
    reveal_strlit("remote");
    reveal_strlit("symbolic-ref");
    assert("fetch"@[0] == 'f');
    assert("--version"@[0] == '-');
    assert("rev-parse"@[0] == 'r');
    assert("config"@[0] == 'c');
    assert("remote"@[0] == 'r');
    assert("symbolic-ref"@[0] == 's');
}

/// A checkup does not fetch, push, or change anything on GitHub, and asks the
/// user nothing, whatever its actions bring.
pub proof fn law_checkup_only_reads(p: ui::Palette, events: Seq<step::EventView>)
    ensures
        doctor::doctor_action(doctor_after(doctor::doctor_start(p), events)) matches Some(a)
            ==> only_reads(a),
{
    lemma_checkup_commands();
}

// --- single checks ----------------------------------------------------------

/// The checks of the working repo pass if and only if `push` accepts it.
pub proof fn law_repo_checks_agree_with_push(state: git::RepoStateView)
    ensures
        doctor::in_progress_outcome(state).status == report::Status::Pass
            && doctor::branch_outcome(state).status == report::Status::Pass <==> stack::guarded(
            state,
        ) is Ok,
{
}

/// The check of the setting passes if and only if `push` leaves the setting as
/// it is without a word.
pub proof fn law_setting_check_agrees_with_push(target: gh::RepoInfoView, yes: bool)
    ensures
        doctor::delete_on_merge_outcome(target).status == report::Status::Pass
            <==> plan::auto_delete(target, yes) == plan::AutoDelete::Keep,
{
}

/// The check of the branch warns if and only if `push` refuses the branch.
pub proof fn law_branch_check_agrees_with_push(
    x: stack::SetupView,
    here: stack::HereView,
    target: gh::RepoInfoView,
    fork: bool,
)
    requires
        here.state.current_branch == Some(here.branch),
    ensures
        doctor::not_default_outcome(here.state, target).status != report::Status::Pass <==> (
        stack::at_target(x, here, target, fork).phase matches stack::PhaseView::Finished(Err(_))),
{
    reveal(stack::at_target);
}

/// The check of the upstream passes if and only if `push` finds a remote and
/// has nothing to rescue.
pub proof fn law_upstream_check_agrees_with_push(
    state: git::RepoStateView,
    resolved: Result<Seq<char>, Seq<char>>,
)
    ensures
        doctor::upstream_outcome(state, resolved).status == report::Status::Pass <==> (
        resolved matches Ok(remote) && !plan::wrong_remote(state.upstream, remote)),
{
}

// --- the verdict ------------------------------------------------------------

/// What every action brings, as long as nothing changes in between.
pub open spec fn brings(
    w: spec_fn(step::ActionView) -> step::EventView,
    a: Option<step::ActionView>,
) -> step::EventView {
    w(a.unwrap())
}

/// A checkup after `n` actions.
pub open spec fn doctor_in(
    w: spec_fn(step::ActionView) -> step::EventView,
    p: ui::Palette,
    n: nat,
) -> doctor::DoctorView
    decreases n,
{
    if n == 0 {
        doctor::doctor_start(p)
    } else {
        let s = doctor_in(w, p, (n - 1) as nat);
        match doctor::doctor_action(s) {
            Some(a) => doctor::doctor_next(s, w(a)),
            None => s,
        }
    }
}

/// A push after `n` actions.
pub open spec fn push_in(
    w: spec_fn(step::ActionView) -> step::EventView,
    x: stack::SetupView,
    n: nat,
) -> stack::PushView
    decreases n,
{
    if n == 0 {
        stack::push_start(x)
    } else {
        let s = push_in(w, x, (n - 1) as nat);
        match stack::push_action(s) {
            Some(a) => stack::push_next(s, w(a)),
            None => s,
        }
    }
}

/// What the reading of the working repo comes to from here on.
#[verifier::opaque]
spec fn state_from(
    w: spec_fn(step::ActionView) -> step::EventView,
    read: git::StateReadView,
) -> Result<git::RepoStateView, Seq<char>>
    decreases git::state_questions(read),
{
    match read {
        git::StateReadView::Done(r) => r,
        _ => state_from(
            w,
            git::state_read_next(read, brings(w, git::state_read_action(read))),
        ),
    }
}

/// What the lookup of a repository comes to from here on.
#[verifier::opaque]
spec fn repo_from(
    w: spec_fn(step::ActionView) -> step::EventView,
    query: gh::RepoQueryView,
) -> Result<gh::RepoInfoView, Seq<char>>
    decreases gh::repo_questions(query),
{
    match query {
        gh::RepoQueryView::Done(r) => r,
        _ => repo_from(w, gh::repo_query_next(query, brings(w, gh::repo_query_action(query)))),
    }
}

/// What the search for the merge-target remote comes to from here on.
#[verifier::opaque]
spec fn remote_from(
    w: spec_fn(step::ActionView) -> step::EventView,
    query: target::RemoteQueryView,
) -> Result<Seq<char>, Seq<char>>
    decreases target::remote_questions(query),
{
    match query {
        target::RemoteQueryView::Done(r) => r,
        _ => remote_from(
            w,
            target::remote_query_next(query, brings(w, target::remote_query_action(query))),
        ),
    }
}

/// A question more or less does not change what the reading comes to.
proof fn lemma_state_step(
    w: spec_fn(step::ActionView) -> step::EventView,
    read: git::StateReadView,
)
    requires
        !(read is Done),
    ensures
        ({
            let next = git::state_read_next(read, brings(w, git::state_read_action(read)));
            &&& state_from(w, next) == state_from(w, read)
            &&& next matches git::StateReadView::Done(r) ==> r == state_from(w, read)
        }),
{
    reveal_with_fuel(state_from, 2);
}

/// A question more or less does not change what the lookup comes to.
proof fn lemma_repo_step(
    w: spec_fn(step::ActionView) -> step::EventView,
    query: gh::RepoQueryView,
)
    requires
        !(query is Done),
    ensures
        ({
            let next = gh::repo_query_next(query, brings(w, gh::repo_query_action(query)));
            &&& repo_from(w, next) == repo_from(w, query)
            &&& next matches gh::RepoQueryView::Done(r) ==> r == repo_from(w, query)
        }),
{
    reveal_with_fuel(repo_from, 2);
}

/// A question more or less does not change what the search comes to.
proof fn lemma_remote_step(
    w: spec_fn(step::ActionView) -> step::EventView,
    query: target::RemoteQueryView,
)
    requires
        !(query is Done),
    ensures
        ({
            let next = target::remote_query_next(
                query,
                brings(w, target::remote_query_action(query)),
            );
            &&& remote_from(w, next) == remote_from(w, query)
            &&& next matches target::RemoteQueryView::Done(r) ==> r == remote_from(w, query)
        }),
{
    reveal_with_fuel(remote_from, 2);
}

/// The working repo.
spec fn state_in(
    w: spec_fn(step::ActionView) -> step::EventView,
) -> Result<git::RepoStateView, Seq<char>> {
    state_from(w, git::StateReadView::GitDir)
}

/// A repository on GitHub.
spec fn repo_in(
    w: spec_fn(step::ActionView) -> step::EventView,
    name: Option<Seq<char>>,
) -> Result<gh::RepoInfoView, Seq<char>> {
    repo_from(w, gh::RepoQueryView::Ask { name })
}

/// The remote that points at a merge target.
spec fn remote_in(
    w: spec_fn(step::ActionView) -> step::EventView,
    target: gh::RepoInfoView,
    fork: bool,
) -> Result<Seq<char>, Seq<char>> {
    remote_from(w, target::RemoteQueryView::Configured { target: target.name_with_owner, fork })
}

/// The local repository and the merge target belong together.
spec fn target_in(
    w: spec_fn(step::ActionView) -> step::EventView,
    local: gh::RepoInfoView,
    target: gh::RepoInfoView,
) -> bool {
    &&& repo_in(w, None) == Ok::<gh::RepoInfoView, Seq<char>>(local)
    &&& match target::merge_target(local) {
        Ok(target::MergeTargetView::Own(info)) => info == target,
        Ok(target::MergeTargetView::Parent(parent)) => repo_in(w, Some(parent)) == Ok::<
            gh::RepoInfoView,
            Seq<char>,
        >(target),
        Err(_) => false,
    }
}

/// `push` has nothing to object to.
spec fn ready(
    w: spec_fn(step::ActionView) -> step::EventView,
    state: git::RepoStateView,
    local: gh::RepoInfoView,
    target: gh::RepoInfoView,
    remote: Seq<char>,
) -> bool {
    &&& state_in(w) == Ok::<git::RepoStateView, Seq<char>>(state)
    &&& stack::guarded(state) is Ok
    &&& target_in(w, local, target)
    &&& remote_in(w, target, local.is_fork) == Ok::<Seq<char>, Seq<char>>(remote)
    &&& state.current_branch != Some(target.default_branch)
    &&& target.delete_branch_on_merge
    &&& !plan::wrong_remote(state.upstream, remote)
}

/// No check has had anything to object to.
pub open spec fn all_clear(r: report::ReportView) -> bool {
    r.warn == 0 && r.fail == 0
}

/// What a checkup has found out by a phase.
spec fn found_out(
    w: spec_fn(step::ActionView) -> step::EventView,
    s: doctor::DoctorView,
) -> bool {
    match s.phase {
        doctor::PhaseView::GhTool { git_ok } => !git_ok ==> !all_clear(s.report),
        doctor::PhaseView::GhAuth { git_ok } => !git_ok ==> !all_clear(s.report),
        doctor::PhaseView::State(read) => state_from(w, read) == state_in(w),
        doctor::PhaseView::Local { state, query } => {
            &&& state_in(w) == Ok::<git::RepoStateView, Seq<char>>(state)
            &&& all_clear(s.report) ==> stack::guarded(state) is Ok
            &&& repo_from(w, query) == repo_in(w, None)
        },
        doctor::PhaseView::Fork { state, parent, query } => {
            &&& state_in(w) == Ok::<git::RepoStateView, Seq<char>>(state)
            &&& all_clear(s.report) ==> stack::guarded(state) is Ok
            &&& repo_in(w, None) matches Ok(local) && target::merge_target(local) == Ok::<
                target::MergeTargetView,
                Seq<char>,
            >(target::MergeTargetView::Parent(parent))
            &&& repo_from(w, query) == repo_in(w, Some(parent))
        },
        doctor::PhaseView::Remote { state, target, fork, query } => {
            &&& state_in(w) == Ok::<git::RepoStateView, Seq<char>>(state)
            &&& all_clear(s.report) ==> stack::guarded(state) is Ok && target.delete_branch_on_merge
            &&& exists|local: gh::RepoInfoView| #[trigger]
                target_in(w, local, target) && local.is_fork == fork
            &&& remote_from(w, query) == remote_in(w, target, fork)
        },
        doctor::PhaseView::Upstream { state, query } => {
            &&& state_in(w) == Ok::<git::RepoStateView, Seq<char>>(state)
            &&& exists|local: gh::RepoInfoView, target: gh::RepoInfoView|
                {
                    &&& #[trigger] target_in(w, local, target)
                    &&& all_clear(s.report) ==> stack::guarded(state) is Ok
                        && target.delete_branch_on_merge && state.current_branch != Some(
                        target.default_branch,
                    )
                    &&& remote_from(w, query) == remote_in(w, target, local.is_fork)
                }
        },
        doctor::PhaseView::Finished { .. } => all_clear(s.report) ==> exists|
            state: git::RepoStateView,
            local: gh::RepoInfoView,
            target: gh::RepoInfoView,
            remote: Seq<char>,
        | ready(w, state, local, target, remote),
        _ => true,
    }
}

/// Asking for the tools brings a checkup to the right findings.
proof fn lemma_tools_found(
    w: spec_fn(step::ActionView) -> step::EventView,
    s: doctor::DoctorView,
)
    requires
        doctor_ok(s),
        found_out(w, s),
        s.phase is GitTool || s.phase is GhTool || s.phase is GhAuth,
    ensures
        found_out(w, doctor::doctor_next(s, brings(w, doctor::doctor_action(s)))),
{
    reveal(doctor::at_end);
    reveal(doctor::after_tools);
    reveal(doctor::on_git_tool);
    reveal(doctor::on_gh_tool);
    reveal(doctor::on_gh_auth);
}

/// Reading the working repo brings a checkup to the right findings.
proof fn lemma_state_found(
    w: spec_fn(step::ActionView) -> step::EventView,
    s: doctor::DoctorView,
)
    requires
        doctor_ok(s),
        found_out(w, s),
        s.phase is InRepo || s.phase is State,
    ensures
        found_out(w, doctor::doctor_next(s, brings(w, doctor::doctor_action(s)))),
{
    reveal(doctor::at_end);
    reveal(doctor::on_in_repo);
    reveal(doctor::on_state);
    match s.phase {
        doctor::PhaseView::State(read) => {
            lemma_state_step(w, read);
        },
        _ => {},
    }
}

/// Looking the local repository up brings a checkup to the right findings.
proof fn lemma_local_found(
    w: spec_fn(step::ActionView) -> step::EventView,
    s: doctor::DoctorView,
)
    requires
        doctor_ok(s),
        found_out(w, s),
        s.phase is Local,
    ensures
        found_out(w, doctor::doctor_next(s, brings(w, doctor::doctor_action(s)))),
{
    reveal(doctor::at_end);
    reveal(doctor::at_target);
    reveal(doctor::on_local);
    match s.phase {
        doctor::PhaseView::Local { query, .. } => {
            lemma_repo_step(w, query);
        },
        _ => {},
    }
    match doctor::doctor_next(s, brings(w, doctor::doctor_action(s))).phase {
        doctor::PhaseView::Remote { target, .. } => {
            assert(target_in(w, repo_in(w, None)->Ok_0, target));
        },
        _ => {},
    }
}

/// Looking the parent of a fork up brings a checkup to the right findings.
proof fn lemma_fork_found(
    w: spec_fn(step::ActionView) -> step::EventView,
    s: doctor::DoctorView,
)
    requires
        doctor_ok(s),
        found_out(w, s),
        s.phase is Fork,
    ensures
        found_out(w, doctor::doctor_next(s, brings(w, doctor::doctor_action(s)))),
{
    reveal(doctor::at_end);
    reveal(doctor::at_target);
    reveal(doctor::on_fork);
    match s.phase {
        doctor::PhaseView::Fork { query, .. } => {
            lemma_repo_step(w, query);
        },
        _ => {},
    }
    match doctor::doctor_next(s, brings(w, doctor::doctor_action(s))).phase {
        doctor::PhaseView::Remote { target, .. } => {
            assert(target_in(w, repo_in(w, None)->Ok_0, target));
        },
        _ => {},
    }
}

/// Looking for the remote brings a checkup to the right findings.
proof fn lemma_remote_found(
    w: spec_fn(step::ActionView) -> step::EventView,
    s: doctor::DoctorView,
)
    requires
        doctor_ok(s),
        found_out(w, s),
        s.phase is Remote,
    ensures
        found_out(w, doctor::doctor_next(s, brings(w, doctor::doctor_action(s)))),
{
    reveal(doctor::at_end);
    reveal(doctor::on_remote);
    match s.phase {
        doctor::PhaseView::Remote { target, fork, query, .. } => {
            lemma_remote_step(w, query);
            let local = choose|local: gh::RepoInfoView| #[trigger]
                target_in(w, local, target) && local.is_fork == fork;
            assert(target_in(w, local, target));
        },
        _ => {},
    }
}

/// Comparing the upstream brings a checkup to the right verdict.
proof fn lemma_upstream_found(
    w: spec_fn(step::ActionView) -> step::EventView,
    s: doctor::DoctorView,
)
    requires
        doctor_ok(s),
        found_out(w, s),
        s.phase is Upstream,
    ensures
        found_out(w, doctor::doctor_next(s, brings(w, doctor::doctor_action(s)))),
{
    reveal(doctor::at_end);
    reveal(doctor::on_upstream);
    match s.phase {
        doctor::PhaseView::Upstream { state, query } => {
            lemma_remote_step(w, query);
            let (local, target) = choose|local: gh::RepoInfoView, target: gh::RepoInfoView|
                {
                    &&& #[trigger] target_in(w, local, target)
                    &&& all_clear(s.report) ==> stack::guarded(state) is Ok
                        && target.delete_branch_on_merge && state.current_branch != Some(
                        target.default_branch,
                    )
                    &&& remote_from(w, query) == remote_in(w, target, local.is_fork)
                };
            let next = doctor::doctor_next(s, brings(w, doctor::doctor_action(s)));
            if next.phase is Finished && all_clear(next.report) {
                assert(ready(w, state, local, target, remote_in(w, target, local.is_fork)->Ok_0));
            }
            assert(target_in(w, local, target));
        },
        _ => {},
    }
}

/// Every action brings a checkup to the right findings.
proof fn lemma_found_out(
    w: spec_fn(step::ActionView) -> step::EventView,
    p: ui::Palette,
    n: nat,
)
    ensures
        doctor_ok(doctor_in(w, p, n)),
        found_out(w, doctor_in(w, p, n)),
    decreases n,
{
    if n > 0 {
        let s = doctor_in(w, p, (n - 1) as nat);
        lemma_found_out(w, p, (n - 1) as nat);
        match doctor::doctor_action(s) {
            Some(a) => {
                lemma_doctor_next_ok(s, w(a));
                match s.phase {
                    doctor::PhaseView::InRepo | doctor::PhaseView::State(_) => {
                        lemma_state_found(w, s);
                    },
                    doctor::PhaseView::Local { .. } => {
                        lemma_local_found(w, s);
                    },
                    doctor::PhaseView::Fork { .. } => {
                        lemma_fork_found(w, s);
                    },
                    doctor::PhaseView::Remote { .. } => {
                        lemma_remote_found(w, s);
                    },
                    doctor::PhaseView::Upstream { .. } => {
                        lemma_upstream_found(w, s);
                    },
                    _ => {
                        lemma_tools_found(w, s);
                    },
                }
            },
            None => {},
        }
    }
}

/// A push on its way to the fetch.
spec fn on_the_way(
    w: spec_fn(step::ActionView) -> step::EventView,
    state: git::RepoStateView,
    local: gh::RepoInfoView,
    target: gh::RepoInfoView,
    s: stack::PushView,
) -> bool {
    match s.phase {
        stack::PhaseView::State(read) => state_from(w, read) == state_in(w),
        stack::PhaseView::Local { here, query } => {
            &&& here.state == state
            &&& laws::passed_guard(here)
            &&& repo_from(w, query) == repo_in(w, None)
        },
        stack::PhaseView::Fork { here, parent, query } => {
            &&& here.state == state
            &&& laws::passed_guard(here)
            &&& target::merge_target(local) == Ok::<target::MergeTargetView, Seq<char>>(
                target::MergeTargetView::Parent(parent),
            )
            &&& repo_from(w, query) == repo_in(w, Some(parent))
        },
        stack::PhaseView::Remote { here, target: t, query } => {
            &&& here.state == state
            &&& laws::passed_guard(here)
            &&& t == target
            &&& remote_from(w, query) == remote_in(w, target, local.is_fork)
        },
        stack::PhaseView::Fetch(_) => true,
        _ => false,
    }
}

/// The reading of the working repo stays on the way.
proof fn lemma_state_on_the_way(
    w: spec_fn(step::ActionView) -> step::EventView,
    state: git::RepoStateView,
    local: gh::RepoInfoView,
    target: gh::RepoInfoView,
    remote: Seq<char>,
    s: stack::PushView,
)
    requires
        ready(w, state, local, target, remote),
        on_the_way(w, state, local, target, s),
        laws::push_ok(s),
        s.phase is State,
    ensures
        on_the_way(
            w,
            state,
            local,
            target,
            stack::push_next(s, brings(w, stack::push_action(s))),
        ),
{
    reveal(stack::on_state);
    match s.phase {
        stack::PhaseView::State(read) => {
            lemma_state_step(w, read);
        },
        _ => {},
    }
}

/// The lookup of the repositories stays on the way.
proof fn lemma_repo_on_the_way(
    w: spec_fn(step::ActionView) -> step::EventView,
    state: git::RepoStateView,
    local: gh::RepoInfoView,
    target: gh::RepoInfoView,
    remote: Seq<char>,
    s: stack::PushView,
)
    requires
        ready(w, state, local, target, remote),
        on_the_way(w, state, local, target, s),
        laws::push_ok(s),
        s.phase is Local || s.phase is Fork,
    ensures
        on_the_way(
            w,
            state,
            local,
            target,
            stack::push_next(s, brings(w, stack::push_action(s))),
        ),
{
    reveal(stack::on_local);
    reveal(stack::on_fork);
    reveal(stack::at_target);
    match s.phase {
        stack::PhaseView::Local { query, .. } => {
            lemma_repo_step(w, query);
        },
        stack::PhaseView::Fork { query, .. } => {
            lemma_repo_step(w, query);
        },
        _ => {},
    }
}

/// The search for the remote stays on the way.
proof fn lemma_remote_on_the_way(
    w: spec_fn(step::ActionView) -> step::EventView,
    state: git::RepoStateView,
    local: gh::RepoInfoView,
    target: gh::RepoInfoView,
    remote: Seq<char>,
    s: stack::PushView,
)
    requires
        ready(w, state, local, target, remote),
        on_the_way(w, state, local, target, s),
        laws::push_ok(s),
        s.phase is Remote,
    ensures
        on_the_way(
            w,
            state,
            local,
            target,
            stack::push_next(s, brings(w, stack::push_action(s))),
        ),
{
    reveal(stack::on_remote);
    reveal(stack::at_auto_delete);
    reveal(stack::at_rescue);
    reveal(stack::at_fetch);
    match s.phase {
        stack::PhaseView::Remote { query, .. } => {
            lemma_remote_step(w, query);
        },
        _ => {},
    }
}

/// Where a checkup ends with nothing to object to, a push under the same
/// circumstances is not refused: it is over only after it has come to the fetch
/// of the merge-target remote, and it comes there without a question.
pub proof fn law_clean_checkup_lets_push_go_ahead(
    w: spec_fn(step::ActionView) -> step::EventView,
    p: ui::Palette,
    n: nat,
    x: stack::SetupView,
    m: nat,
)
    requires
        doctor_in(w, p, n).phase is Finished,
        all_clear(doctor_in(w, p, n).report),
        ({
            let phase = push_in(w, x, m).phase;
            phase is Finished || phase is OfferDelete || phase is OfferRescue
        }),
    ensures
        exists|k: nat| k < m && (#[trigger] push_in(w, x, k)).phase is Fetch,
{
    lemma_found_out(w, p, n);
    let (state, local, target, remote) = choose|
        state: git::RepoStateView,
        local: gh::RepoInfoView,
        target: gh::RepoInfoView,
        remote: Seq<char>,
    | ready(w, state, local, target, remote);
    lemma_comes_to_fetch(w, state, local, target, remote, x, m);
}

proof fn lemma_comes_to_fetch(
    w: spec_fn(step::ActionView) -> step::EventView,
    state: git::RepoStateView,
    local: gh::RepoInfoView,
    target: gh::RepoInfoView,
    remote: Seq<char>,
    x: stack::SetupView,
    m: nat,
)
    requires
        ready(w, state, local, target, remote),
    ensures
        (laws::push_ok(push_in(w, x, m)) && on_the_way(
            w,
            state,
            local,
            target,
            push_in(w, x, m),
        )) || exists|k: nat| k < m && (#[trigger] push_in(w, x, k)).phase is Fetch,
    decreases m,
{
    if m > 0 {
        let s = push_in(w, x, (m - 1) as nat);
        lemma_comes_to_fetch(w, state, local, target, remote, x, (m - 1) as nat);
        if laws::push_ok(s) && on_the_way(w, state, local, target, s) {
            match s.phase {
                stack::PhaseView::State(_) => {
                    lemma_state_on_the_way(w, state, local, target, remote, s);
                },
                stack::PhaseView::Local { .. } | stack::PhaseView::Fork { .. } => {
                    lemma_repo_on_the_way(w, state, local, target, remote, s);
                },
                stack::PhaseView::Remote { .. } => {
                    lemma_remote_on_the_way(w, state, local, target, remote, s);
                },
                _ => {},
            }
            if !(s.phase is Fetch) {
                laws::lemma_push_next_ok(s, brings(w, stack::push_action(s)));
            }
        }
    }
}

} // verus!
