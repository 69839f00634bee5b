//! What holds of every run of the `push` command, whatever its actions bring.

use vstd::prelude::*;

use crate::command;
use crate::gh;
use crate::git;
use crate::parent;
use crate::plan;
use crate::stack;
use crate::step;
use crate::target;
use crate::text;
use crate::ui;

verus! {

// --- runs -------------------------------------------------------------------

/// The command after a series of events.
pub open spec fn push_after(s: stack::PushView, events: Seq<step::EventView>) -> stack::PushView
    decreases events.len(),
{
    if events.len() == 0 {
        s
    } else {
        stack::push_next(push_after(s, events.drop_last()), events.last())
    }
}

/// A command that changes nothing outside the local clone: it asks git or GitHub
/// for something, or fetches.
pub open spec fn reads(c: command::CommandView) -> bool {
    match c.program {
        command::Program::Git => {
            ||| c.args == seq!["--version"@]
            ||| c.args[0] == "rev-parse"@
            ||| c.args[0] == "merge-base"@
            ||| c.args[0] == "rev-list"@
            ||| c.args[0] == "fetch"@
            ||| c == git::branch_command()
            ||| c == git::list_remotes_command()
            ||| c.args.len() == 3 && c.args[0] == "config"@ && c.args[1] == "--get"@
        },
        command::Program::Gh => {
            ||| c.args == seq!["--version"@]
            ||| c.args == seq!["auth"@, "status"@]
            ||| c.args[0] == "repo"@ && c.args[1] == "view"@
            ||| c.args[0] == "pr"@ && c.args[1] == "list"@
            ||| c.args[0] == "pr"@ && c.args[1] == "view"@
        },
    }
}

/// An action that may change something outside the local clone.
pub open spec fn changes(a: step::ActionView) -> bool {
    a matches step::ActionView::Run(c) && !reads(c)
}

/// The branch is the one that the guard let pass: no operation is in progress,
/// and HEAD is on the branch.
pub open spec fn passed_guard(here: stack::HereView) -> bool {
    stack::guarded(here.state) == Ok::<Seq<char>, Seq<char>>(here.branch)
}

/// The branch may go to the target: it passed the guard, and is not the default
/// branch. The target's setting is changed only where it is off and the user
/// may change it.
pub open spec fn aim_ok(aim: stack::AimView) -> bool {
    &&& passed_guard(aim.here)
    &&& aim.here.branch != aim.target.default_branch
    &&& aim.enable ==> !aim.target.delete_branch_on_merge && aim.target.viewer_can_administer
}

/// A new PR is based on the default branch or on another branch's PR, never on
/// itself.
pub open spec fn plan_ok(p: stack::PlanView) -> bool {
    &&& aim_ok(p.aim)
    &&& parent::parent_branch(p.parent) != p.aim.here.branch
    &&& p.parent is Default ==> parent::parent_branch(p.parent) == p.aim.target.default_branch
}

/// Only eligible PRs count in a search, and it is about the aim.
pub open spec fn search_ok(aim: stack::AimView, s: parent::SearchView) -> bool {
    &&& s.scope == stack::aim_scope(aim, s.scope.prs)
    &&& s.distances.len() <= s.scope.prs.len()
    &&& parent::search_wf(s)
    &&& forall|i: int|
        0 <= i < s.distances.len() && (#[trigger] s.distances[i]) is Some ==> parent::eligible(
            s.scope.prs[i],
            s.scope.target,
            s.scope.branch,
        )
    &&& s.stage matches parent::StageView::Resolve { .. } ==> parent::eligible(
        s.scope.prs[s.distances.len() as int],
        s.scope.target,
        s.scope.branch,
    )
    &&& s.stage matches parent::StageView::Ancestry { .. } ==> parent::eligible(
        s.scope.prs[s.distances.len() as int],
        s.scope.target,
        s.scope.branch,
    )
    &&& s.stage matches parent::StageView::Count { .. } ==> parent::eligible(
        s.scope.prs[s.distances.len() as int],
        s.scope.target,
        s.scope.branch,
    )
    &&& s.stage matches parent::StageView::Done(Ok(p)) ==> parent::parent_branch(p)
        != s.scope.branch && (p is Default ==> parent::parent_branch(p) == s.scope.default_branch)
}

/// What holds in every phase that a run can reach.
pub open spec fn push_ok(s: stack::PushView) -> bool {
    let x = s.setup;
    match s.phase {
        stack::PhaseView::State(read) => !(read is Done),
        stack::PhaseView::Local { here, query } => passed_guard(here) && !(query is Done),
        stack::PhaseView::Fork { here, query, .. } => passed_guard(here) && !(query is Done),
        stack::PhaseView::Remote { here, target, query } => passed_guard(here) && here.branch
            != target.default_branch && !(query is Done),
        stack::PhaseView::OfferDelete(aim) => aim_ok(aim) && !x.opts.yes && !aim.enable
            && !aim.target.delete_branch_on_merge && aim.target.viewer_can_administer,
        stack::PhaseView::OfferRescue(aim) => aim_ok(aim) && !x.opts.yes && plan::wrong_remote(
            aim.here.state.upstream,
            aim.remote,
        ),
        stack::PhaseView::Fetch(aim) => aim_ok(aim),
        stack::PhaseView::ListPrs(aim) => aim_ok(aim),
        stack::PhaseView::DecodePrs { aim, .. } => aim_ok(aim),
        stack::PhaseView::Search { aim, search } => aim_ok(aim) && search_ok(aim, search) && !(
        search.stage is Done),
        stack::PhaseView::Enable(p) => plan_ok(p) && p.aim.enable,
        stack::PhaseView::Push(p) => plan_ok(p),
        stack::PhaseView::Create(p) => plan_ok(p) && p.existing is None,
        stack::PhaseView::Body { plan, created } => plan_ok(plan) && plan.existing is None
            && stack::wants_footer(x, plan, created),
        stack::PhaseView::SetBody { plan, created, .. } => plan_ok(plan) && plan.existing is None
            && stack::wants_footer(x, plan, created),
        stack::PhaseView::Finished(_) => true,
    }
}

/// Going on in a search keeps to eligible PRs.
proof fn lemma_advanced_ok(
    aim: stack::AimView,
    scope: parent::ScopeView,
    distances: Seq<Option<usize>>,
)
    requires
        aim_ok(aim),
        scope == stack::aim_scope(aim, scope.prs),
        distances.len() <= scope.prs.len(),
        forall|i: int|
            0 <= i < distances.len() && (#[trigger] distances[i]) is Some ==> parent::eligible(
                scope.prs[i],
                scope.target,
                scope.branch,
            ),
    ensures
        search_ok(aim, parent::advanced(scope, distances)),
    decreases scope.prs.len() - distances.len(),
{
    let i = distances.len() as int;
    if i >= scope.prs.len() {
        match parent::picked(scope.prs, distances) {
            Some(p) => {
                parent::law_picked_parent_is_closest(scope.prs, distances);
                let j = choose|j: int| #[trigger]
                    parent::is_first_closest(scope.prs, distances, scope.prs.len() as int, j, p);
                assert(distances[j] is Some);
            },
            None => {},
        }
    } else if !parent::eligible(scope.prs[i], scope.target, scope.branch) {
        lemma_advanced_ok(aim, scope, distances.push(None));
    }
}

/// A step of a search keeps to eligible PRs.
proof fn lemma_search_next_ok(
    aim: stack::AimView,
    s: parent::SearchView,
    e: step::EventView,
)
    requires
        aim_ok(aim),
        search_ok(aim, s),
        !(s.stage is Done),
    ensures
        search_ok(aim, parent::search_next(s, e)),
{
    if s.stage is Resolve || s.stage is Ancestry || s.stage is Count {
        lemma_advanced_ok(aim, s.scope, s.distances.push(None));
        match (s.stage, e) {
            (parent::StageView::Count { oid }, step::EventView::Ran(reply)) => {
                match git::commit_count(oid, s.scope.head_sha, reply) {
                    Ok(d) => {
                        lemma_advanced_ok(aim, s.scope, s.distances.push(Some(d)));
                    },
                    Err(_) => {},
                }
            },
            _ => {},
        }
    }
}

/// A later phase, or the same with fewer questions left.
pub open spec fn nearer_to_end(s: stack::PhaseView, next: stack::PhaseView) -> bool {
    &&& 0 <= questions_left(next)
    &&& phases_left(next) < phases_left(s) || (phases_left(next) == phases_left(s)
        && questions_left(next) < questions_left(s)) || (s is Finished && next == s)
}

/// A step keeps the setup and what holds of a run, and brings the run nearer to
/// its end. An aim comes from the search for the remote, and its branch, target
/// and remote stay as they are. The setting is to be switched on only where
/// prompts are skipped or the user agrees.
pub open spec fn step_ok(s: stack::PushView, e: step::EventView, next: stack::PushView) -> bool {
    &&& push_ok(next)
    &&& next.setup == s.setup
    &&& nearer_to_end(s.phase, next.phase)
    &&& aim_of(next) matches Some(aim) ==> match s.phase {
        stack::PhaseView::Remote { here, target, query } => here == aim.here && target
            == aim.target && target::remote_query_next(query, e) == target::RemoteQueryView::Done(
            Ok(aim.remote),
        ) && (aim.enable ==> s.setup.opts.yes),
        _ => aim_of(s) matches Some(a) && a.here == aim.here && a.target == aim.target && a.remote
            == aim.remote && (a.enable == aim.enable || (s.phase is OfferDelete && e
            == step::EventView::Answer(aim.enable))),
    }
}

/// Where a fetch begins.
proof fn lemma_at_fetch(x: stack::SetupView, aim: stack::AimView, output: Seq<char>)
    ensures
        stack::at_fetch(x, aim, output).setup == x,
        stack::at_fetch(x, aim, output).phase == stack::PhaseView::Fetch(aim),
{
    reveal(stack::at_fetch);
}

/// The phases that looking after the remote leads to.
spec fn rescued(x: stack::SetupView, aim: stack::AimView, next: stack::PushView) -> bool {
    &&& next.setup == x
    &&& next.phase == stack::PhaseView::Fetch(aim) || (next.phase == stack::PhaseView::OfferRescue(
        aim,
    ) && !x.opts.yes && plan::wrong_remote(aim.here.state.upstream, aim.remote))
}

proof fn lemma_at_rescue(x: stack::SetupView, aim: stack::AimView, output: Seq<char>)
    ensures
        rescued(x, aim, stack::at_rescue(x, aim, output)),
{
    reveal(stack::at_rescue);
    match aim.here.state.upstream {
        Some((actual, _)) => {
            lemma_at_fetch(x, aim, output);
            lemma_at_fetch(
                x,
                aim,
                output + ui::warn_text(
                    x.console,
                    plan::wrong_remote_text(actual, aim.remote),
                ),
            );
        },
        None => {
            lemma_at_fetch(x, aim, output);
        },
    }
}

proof fn lemma_on_state(s: stack::PushView, e: step::EventView)
    requires
        push_ok(s),
        s.phase is State,
    ensures
        step_ok(s, e, stack::push_next(s, e)),
{
    reveal(stack::on_state);
}

/// Where a known merge target leads to.
spec fn aimed(x: stack::SetupView, next: stack::PushView) -> bool {
    &&& push_ok(next)
    &&& aim_of(next) is None
    &&& next.setup == x
    &&& next.phase is Remote || next.phase is Finished
    &&& questions_left(next.phase) >= 0
}

proof fn lemma_at_target(
    x: stack::SetupView,
    here: stack::HereView,
    target: gh::RepoInfoView,
    fork: bool,
)
    requires
        passed_guard(here),
    ensures
        aimed(x, stack::at_target(x, here, target, fork)),
{
    reveal(stack::at_target);
}

proof fn lemma_on_repo(s: stack::PushView, e: step::EventView)
    requires
        push_ok(s),
        s.phase is Local || s.phase is Fork,
    ensures
        step_ok(s, e, stack::push_next(s, e)),
{
    reveal(stack::on_local);
    reveal(stack::on_fork);
    let here = match s.phase {
        stack::PhaseView::Local { here, .. } => here,
        stack::PhaseView::Fork { here, .. } => here,
        _ => arbitrary(),
    };
    assert forall|info: gh::RepoInfoView, fork: bool| aimed(
        s.setup,
        #[trigger] stack::at_target(s.setup, here, info, fork),
    ) by {
        lemma_at_target(s.setup, here, info, fork);
    }
}

proof fn lemma_at_auto_delete(x: stack::SetupView, aim: stack::AimView, output: Seq<char>)
    requires
        aim_ok(aim),
    ensures
        ({
            let next = stack::at_auto_delete(x, aim, output);
            &&& push_ok(next)
            &&& next.setup == x
            &&& phases_left(next.phase) < 12
            &&& questions_left(next.phase) == 0
            &&& aim_of(next) matches Some(a) ==> a.here == aim.here && a.target == aim.target
                && a.remote == aim.remote && (a.enable ==> x.opts.yes)
        }),
{
    reveal(stack::at_auto_delete);
    assert forall|enable: bool, out: Seq<char>| rescued(
        x,
        stack::with_enable(aim, enable),
        #[trigger] stack::at_rescue(x, stack::with_enable(aim, enable), out),
    ) by {
        lemma_at_rescue(x, stack::with_enable(aim, enable), out);
    }
}

proof fn lemma_on_remote(s: stack::PushView, e: step::EventView)
    requires
        push_ok(s),
        s.phase is Remote,
    ensures
        step_ok(s, e, stack::push_next(s, e)),
{
    reveal(stack::on_remote);
    match s.phase {
        stack::PhaseView::Remote { here, target, query } => {
            match target::remote_query_next(query, e) {
                target::RemoteQueryView::Done(Ok(remote)) => {
                    lemma_at_auto_delete(
                        s.setup,
                        stack::AimView { here, target, remote, enable: false },
                        ui::field_text(stack::summary_text(target, remote)),
                    );
                },
                _ => {},
            }
        },
        _ => {},
    }
}

proof fn lemma_on_answer(s: stack::PushView, e: step::EventView)
    requires
        push_ok(s),
        s.phase is OfferDelete || s.phase is OfferRescue,
    ensures
        step_ok(s, e, stack::push_next(s, e)),
{
    reveal(stack::on_delete_answer);
    reveal(stack::on_rescue_answer);
    match (s.phase, e) {
        (stack::PhaseView::OfferDelete(aim), step::EventView::Answer(yes)) => {
            lemma_at_rescue(
                s.setup,
                stack::with_enable(aim, yes),
                ui::only_if(
                    !yes,
                    ui::dim_text(
                        s.setup.console,
                        plan::declined_auto_delete_text(aim.target),
                    ),
                ),
            );
        },
        (stack::PhaseView::OfferRescue(aim), step::EventView::Answer(yes)) => {
            lemma_at_fetch(s.setup, aim, seq![]);
        },
        _ => {},
    }
}

proof fn lemma_on_listing(s: stack::PushView, e: step::EventView)
    requires
        push_ok(s),
        s.phase is Fetch || s.phase is ListPrs,
    ensures
        step_ok(s, e, stack::push_next(s, e)),
{
    reveal(stack::on_fetched);
    reveal(stack::on_listed);
}

/// Where the plan stands.
proof fn lemma_at_plan(x: stack::SetupView, p: stack::PlanView)
    ensures
        stack::at_plan(x, p).setup == x,
        stack::at_plan(x, p).phase == if p.aim.enable {
            stack::PhaseView::Enable(p)
        } else {
            stack::PhaseView::Push(p)
        },
{
    reveal(stack::at_plan);
    reveal(stack::at_push);
}

/// Where a search leads to.
proof fn lemma_on_search(x: stack::SetupView, aim: stack::AimView, search: parent::SearchView)
    ensures
        ({
            let next = stack::on_search(x, aim, search);
            &&& next.setup == x
            &&& match search.stage {
                parent::StageView::Done(Ok(parent)) => {
                    let p = stack::PlanView {
                        aim,
                        parent,
                        existing: stack::own_pr(search.scope.prs, aim.here.branch),
                    };
                    next.phase == if aim.enable {
                        stack::PhaseView::Enable(p)
                    } else {
                        stack::PhaseView::Push(p)
                    }
                },
                parent::StageView::Done(Err(e)) => next.phase == stack::PhaseView::Finished(Err(e)),
                _ => next.phase == (stack::PhaseView::Search { aim, search }),
            }
        }),
{
    reveal(stack::on_search);
    match search.stage {
        parent::StageView::Done(Ok(parent)) => {
            lemma_at_plan(
                x,
                stack::PlanView {
                    aim,
                    parent,
                    existing: stack::own_pr(search.scope.prs, aim.here.branch),
                },
            );
        },
        _ => {},
    }
}

/// Where the decoded PRs lead to.
proof fn lemma_on_prs(
    x: stack::SetupView,
    aim: stack::AimView,
    json: Seq<char>,
    prs: Result<Seq<gh::OpenPrView>, Seq<char>>,
)
    ensures
        prs matches Ok(v) ==> stack::on_prs(x, aim, json, prs) == stack::on_search(
            x,
            aim,
            parent::advanced(stack::aim_scope(aim, v), seq![]),
        ),
        prs is Err ==> stack::on_prs(x, aim, json, prs).phase is Finished && stack::on_prs(
            x,
            aim,
            json,
            prs,
        ).setup == x,
{
    reveal(stack::on_prs);
}

proof fn lemma_on_parent(s: stack::PushView, e: step::EventView)
    requires
        push_ok(s),
        s.phase is DecodePrs || s.phase is Search,
    ensures
        step_ok(s, e, stack::push_next(s, e)),
{
    match (s.phase, e) {
        (stack::PhaseView::DecodePrs { aim, json }, step::EventView::Prs(prs)) => {
            lemma_on_prs(s.setup, aim, json, prs);
            match prs {
                Ok(v) => {
                    let scope = stack::aim_scope(aim, v);
                    lemma_advanced_ok(aim, scope, seq![]);
                    parent::lemma_advanced_bound(scope, seq![]);
                    lemma_on_search(s.setup, aim, parent::advanced(scope, seq![]));
                },
                Err(_) => {},
            }
        },
        (stack::PhaseView::Search { aim, search }, _) => {
            lemma_search_next_ok(aim, search, e);
            parent::law_search_ends(search, e);
            lemma_on_search(s.setup, aim, parent::search_next(search, e));
        },
        _ => {},
    }
}

/// Where the change of the setting leads to.
proof fn lemma_on_enabled(x: stack::SetupView, p: stack::PlanView, reply: command::ReplyView)
    ensures
        stack::on_enabled(x, p, reply).setup == x,
        stack::on_enabled(x, p, reply).phase == stack::PhaseView::Push(p),
{
    reveal(stack::on_enabled);
    reveal(stack::at_push);
}

/// Where the push leads to.
proof fn lemma_on_pushed(x: stack::SetupView, p: stack::PlanView, reply: command::ReplyView)
    ensures
        stack::on_pushed(x, p, reply).setup == x,
        stack::on_pushed(x, p, reply).phase is Finished || (stack::on_pushed(x, p, reply).phase
            == stack::PhaseView::Create(p) && p.existing is None),
{
    reveal(stack::on_pushed);
}

/// Where the creation of the PR leads to.
proof fn lemma_on_created(x: stack::SetupView, p: stack::PlanView, reply: command::ReplyView)
    ensures
        stack::on_created(x, p, reply).setup == x,
        stack::on_created(x, p, reply).phase is Finished || (stack::on_created(
            x,
            p,
            reply,
        ).phase matches stack::PhaseView::Body { plan, created } && plan == p
            && stack::wants_footer(x, p, created)),
{
    reveal(stack::on_created);
    reveal(stack::at_end);
}

/// Where the new PR's description leads to.
proof fn lemma_on_body(
    x: stack::SetupView,
    p: stack::PlanView,
    created: Seq<char>,
    reply: command::ReplyView,
)
    ensures
        stack::on_body(x, p, created, reply).setup == x,
        stack::on_body(x, p, created, reply).phase == stack::PhaseView::Finished(Ok(())) || (
        stack::on_body(x, p, created, reply).phase matches stack::PhaseView::SetBody {
            plan,
            created: c,
            ..
        } && plan == p && c == created),
{
    reveal(stack::on_body);
    reveal(stack::at_end);
}

/// Where the change of the description leads to.
proof fn lemma_on_body_set(
    x: stack::SetupView,
    p: stack::PlanView,
    created: Seq<char>,
    body: Seq<char>,
    reply: command::ReplyView,
)
    ensures
        stack::on_body_set(x, p, created, body, reply).setup == x,
        stack::on_body_set(x, p, created, body, reply).phase == stack::PhaseView::Finished(Ok(())),
{
    reveal(stack::on_body_set);
    reveal(stack::at_end);
}

proof fn lemma_on_execution(s: stack::PushView, e: step::EventView)
    requires
        push_ok(s),
        plan_of(s) is Some,
    ensures
        step_ok(s, e, stack::push_next(s, e)),
{
    match (s.phase, e) {
        (stack::PhaseView::Enable(p), step::EventView::Ran(reply)) => {
            lemma_on_enabled(s.setup, p, reply);
        },
        (stack::PhaseView::Push(p), step::EventView::Ran(reply)) => {
            lemma_on_pushed(s.setup, p, reply);
        },
        (stack::PhaseView::Create(p), step::EventView::Ran(reply)) => {
            lemma_on_created(s.setup, p, reply);
        },
        (stack::PhaseView::Body { plan, created }, step::EventView::Ran(reply)) => {
            lemma_on_body(s.setup, plan, created, reply);
        },
        (stack::PhaseView::SetBody { plan, created, body }, step::EventView::Ran(reply)) => {
            lemma_on_body_set(s.setup, plan, created, body, reply);
        },
        _ => {},
    }
}

/// Every step keeps what holds of a run.
pub proof fn lemma_push_next_ok(s: stack::PushView, e: step::EventView)
    requires
        push_ok(s),
    ensures
        step_ok(s, e, stack::push_next(s, e)),
{
    match s.phase {
        stack::PhaseView::State(_) => {
            lemma_on_state(s, e);
        },
        stack::PhaseView::Local { .. } | stack::PhaseView::Fork { .. } => {
            lemma_on_repo(s, e);
        },
        stack::PhaseView::Remote { .. } => {
            lemma_on_remote(s, e);
        },
        stack::PhaseView::OfferDelete(_) | stack::PhaseView::OfferRescue(_) => {
            lemma_on_answer(s, e);
        },
        stack::PhaseView::Fetch(_) | stack::PhaseView::ListPrs(_) => {
            lemma_on_listing(s, e);
        },
        stack::PhaseView::DecodePrs { .. } | stack::PhaseView::Search { .. } => {
            lemma_on_parent(s, e);
        },
        stack::PhaseView::Finished(_) => {},
        _ => {
            lemma_on_execution(s, e);
        },
    }
}

/// What holds of a run holds after any events.
pub proof fn lemma_push_ok(x: stack::SetupView, events: Seq<step::EventView>)
    ensures
        push_ok(push_after(stack::push_start(x), events)),
        push_after(stack::push_start(x), events).setup == x,
    decreases events.len(),
{
    if events.len() > 0 {
        lemma_push_ok(x, events.drop_last());
        lemma_push_next_ok(push_after(stack::push_start(x), events.drop_last()), events.last());
    }
}

// --- what a run may do ------------------------------------------------------

/// The plan that a run is carrying out.
pub open spec fn plan_of(s: stack::PushView) -> Option<stack::PlanView> {
    match s.phase {
        stack::PhaseView::Enable(p) => Some(p),
        stack::PhaseView::Push(p) => Some(p),
        stack::PhaseView::Create(p) => Some(p),
        stack::PhaseView::Body { plan, .. } => Some(plan),
        stack::PhaseView::SetBody { plan, .. } => Some(plan),
        _ => None,
    }
}

/// A change that a plan allows: switching the target's setting on, pushing the
/// branch to the merge-target remote, opening its PR on the parent, or giving
/// the new PR its footer. The base of a PR that exists is not among them.
pub open spec fn allowed(x: stack::SetupView, p: stack::PlanView, a: step::ActionView) -> bool {
    ||| a == step::ActionView::Run(stack::plan_enable(p)) && p.aim.enable
    ||| a == step::ActionView::Run(stack::plan_push(x, p))
    ||| a == step::ActionView::Run(stack::plan_create(x, p)) && p.existing is None
    ||| p.existing is None && p.parent is Pr && exists|url: Seq<char>, body: Seq<char>|
        a == step::ActionView::Run(#[trigger] gh::set_pr_body_command(url, body))
}

/// The commands that only read change nothing.
proof fn lemma_reading_commands()
    ensures
        forall|rev: Seq<char>|
            !changes(step::ActionView::Run(#[trigger] git::resolve_command(rev))),
        forall|a: Seq<char>, b: Seq<char>|
            !changes(step::ActionView::Run(#[trigger] git::is_ancestor_command(a, b))),
        forall|a: Seq<char>, b: Seq<char>|
            !changes(step::ActionView::Run(#[trigger] git::common_ancestor_command(a, b))),
        forall|a: Seq<char>, b: Seq<char>|
            !changes(step::ActionView::Run(#[trigger] git::commits_between_command(a, b))),
        forall|key: Seq<char>|
            !changes(step::ActionView::Run(#[trigger] git::config_get_command(key))),
        forall|remote: Seq<char>, out: git::GitOutput|
            !changes(step::ActionView::Run(#[trigger] git::fetch_command(remote, out))),
        !changes(step::ActionView::Run(git::list_remotes_command())),
        !changes(step::ActionView::Run(git::git_dir_command())),
        !changes(step::ActionView::Run(git::head_command())),
        !changes(step::ActionView::Run(git::branch_command())),
        !changes(step::ActionView::Run(git::upstream_command())),
        forall|name: Option<Seq<char>>|
            !changes(step::ActionView::Run(#[trigger] gh::repo_info_command(name))),
        forall|repo: Seq<char>|
            !changes(step::ActionView::Run(#[trigger] gh::list_open_prs_command(repo))),
        forall|url: Seq<char>|
            !changes(step::ActionView::Run(#[trigger] gh::pr_body_command(url))),
{
}

/// A run changes something only to carry out a plan: no operation is in
/// progress, HEAD is on a branch that is not the default branch, and the change
/// is one that the plan allows. In every other state it only reads and asks.
pub proof fn law_changes_carry_out_a_plan(x: stack::SetupView, events: Seq<step::EventView>)
    ensures
        ({
            let s = push_after(stack::push_start(x), events);
            stack::push_action(s) matches Some(a) ==> changes(a) ==> (plan_of(s) matches Some(p)
                && plan_ok(p) && allowed(x, p, a))
        }),
{
    let s = push_after(stack::push_start(x), events);
    lemma_push_ok(x, events);
    lemma_reading_commands();
    match s.phase {
        stack::PhaseView::SetBody { plan, created, body } => {
            assert(stack::push_action(s) == Some(
                step::ActionView::Run(gh::set_pr_body_command(text::trimmed(created), body)),
            ));
        },
        _ => {},
    }
}

/// With prompts skipped the user is never asked.
pub proof fn law_yes_skips_prompts(x: stack::SetupView, events: Seq<step::EventView>)
    requires
        x.opts.yes,
    ensures
        !(stack::push_action(push_after(stack::push_start(x), events)) matches Some(
            step::ActionView::Confirm(_),
        )),
{
    lemma_push_ok(x, events);
}

/// The user is asked to confirm a push to another remote only where the branch
/// tracks another remote; where the answer is no, the run ends without a change.
pub proof fn law_declined_rescue_ends(
    x: stack::SetupView,
    events: Seq<step::EventView>,
    aim: stack::AimView,
)
    requires
        push_after(stack::push_start(x), events).phase == stack::PhaseView::OfferRescue(aim),
    ensures
        plan::wrong_remote(aim.here.state.upstream, aim.remote),
        stack::push_next(
            push_after(stack::push_start(x), events),
            step::EventView::Answer(false),
        ).phase matches stack::PhaseView::Finished(Err(_)),
{
    lemma_push_ok(x, events);
    reveal(stack::on_rescue_answer);
}

/// A repo with an operation in progress or a detached HEAD is refused as soon
/// as it is read; uncommitted changes do not matter, as they are not even asked
/// for.
pub proof fn law_unfit_repo_is_refused(x: stack::SetupView, state: git::RepoStateView)
    ensures
        state.in_progress is Some || state.current_branch is None <==> (stack::on_state(
            x,
            git::StateReadView::Done(Ok(state)),
        ).phase matches stack::PhaseView::Finished(Err(_))),
{
    reveal(stack::on_state);
}

/// The default branch is refused, whichever repository is the merge target.
pub proof fn law_default_branch_is_refused(
    x: stack::SetupView,
    here: stack::HereView,
    target: gh::RepoInfoView,
    fork: bool,
)
    ensures
        here.branch == target.default_branch <==> (stack::at_target(
            x,
            here,
            target,
            fork,
        ).phase matches stack::PhaseView::Finished(Err(_))),
{
    reveal(stack::at_target);
}

/// While `delete_branch_on_merge` is off on the merge target, every run warns of
/// it, whatever its options and the user's rights: as soon as the remote is
/// known, the warning follows the summary of the target.
pub proof fn law_missing_setting_is_reported(
    x: stack::SetupView,
    here: stack::HereView,
    target: gh::RepoInfoView,
    remote: Seq<char>,
)
    requires
        !target.delete_branch_on_merge,
    ensures
        ({
            let next = stack::on_remote(
                x,
                here,
                target,
                target::RemoteQueryView::Done(Ok(remote)),
            );
            let warning = if target.viewer_can_administer {
                plan::offer_auto_delete_text(target)
            } else {
                plan::no_auto_delete_text(target)
            };
            text::begins(
                next.output,
                ui::field_text(stack::summary_text(target, remote)) + ui::warn_text(
                    x.console,
                    warning,
                ),
            )
        }),
{
    reveal(stack::on_remote);
    reveal(stack::at_auto_delete);
    reveal(stack::at_rescue);
    reveal(stack::at_fetch);
    let next = stack::on_remote(x, here, target, target::RemoteQueryView::Done(Ok(remote)));
    let warning = if target.viewer_can_administer {
        plan::offer_auto_delete_text(target)
    } else {
        plan::no_auto_delete_text(target)
    };
    let warned = ui::field_text(stack::summary_text(target, remote)) + ui::warn_text(
        x.console,
        warning,
    );
    assert(next.output.take(warned.len() as int) == warned);
}

/// A failure to switch the target's setting on does not stop the push.
pub proof fn law_setting_failure_does_not_stop_push(
    s: stack::PushView,
    p: stack::PlanView,
    reply: command::ReplyView,
)
    requires
        s.phase == stack::PhaseView::Enable(p),
    ensures
        stack::push_next(s, step::EventView::Ran(reply)).phase == stack::PhaseView::Push(p),
{
    lemma_on_enabled(s.setup, p, reply);
}

/// A failure to note the parent in the description does not fail the run.
pub proof fn law_footer_failure_does_not_fail(s: stack::PushView, reply: command::ReplyView)
    requires
        s.phase is Body || s.phase is SetBody,
    ensures
        ({
            let next = stack::push_next(s, step::EventView::Ran(reply)).phase;
            next is SetBody || next == stack::PhaseView::Finished(Ok(()))
        }),
{
    match s.phase {
        stack::PhaseView::Body { plan, created } => {
            lemma_on_body(s.setup, plan, created, reply);
        },
        stack::PhaseView::SetBody { plan, created, body } => {
            lemma_on_body_set(s.setup, plan, created, body, reply);
        },
        _ => {},
    }
}

// --- the remote -------------------------------------------------------------

/// The aim of a run, once it has one.
pub open spec fn aim_of(s: stack::PushView) -> Option<stack::AimView> {
    match s.phase {
        stack::PhaseView::OfferDelete(aim) => Some(aim),
        stack::PhaseView::OfferRescue(aim) => Some(aim),
        stack::PhaseView::Fetch(aim) => Some(aim),
        stack::PhaseView::ListPrs(aim) => Some(aim),
        stack::PhaseView::DecodePrs { aim, .. } => Some(aim),
        stack::PhaseView::Search { aim, .. } => Some(aim),
        _ => match plan_of(s) {
            Some(p) => Some(p.aim),
            None => None,
        },
    }
}

/// At the `k`-th event the search for the remote of this target ended with this
/// remote.
pub open spec fn remote_found_at(
    x: stack::SetupView,
    events: Seq<step::EventView>,
    k: int,
    target: gh::RepoInfoView,
    remote: Seq<char>,
) -> bool {
    &&& 0 <= k < events.len()
    &&& push_after(
        stack::push_start(x),
        events.take(k),
    ).phase matches stack::PhaseView::Remote { target: t, query, .. }
    &&& t == target
    &&& target::remote_query_next(query, events[k]) == target::RemoteQueryView::Done(Ok(remote))
}

/// The remote that a run fetches from and pushes to is the one that the search
/// for the merge-target remote ended with, and no other.
pub proof fn law_only_the_merge_target_remote_is_used(
    x: stack::SetupView,
    events: Seq<step::EventView>,
)
    ensures
        aim_of(push_after(stack::push_start(x), events)) matches Some(aim) ==> exists|k: int|
            remote_found_at(x, events, k, aim.target, aim.remote),
    decreases events.len(),
{
    let start = stack::push_start(x);
    if events.len() > 0 {
        let front = events.drop_last();
        let n = front.len() as int;
        let prev = push_after(start, front);
        let s = push_after(start, events);
        law_only_the_merge_target_remote_is_used(x, front);
        assert(events.take(n) == front);
        lemma_push_ok(x, front);
        lemma_push_next_ok(prev, events.last());
        match aim_of(s) {
            Some(aim) => {
                match prev.phase {
                    stack::PhaseView::Remote { .. } => {
                        assert(remote_found_at(x, events, n, aim.target, aim.remote));
                    },
                    _ => {
                        assert(aim_of(prev) matches Some(a) && a.target == aim.target && a.remote
                            == aim.remote);
                        let k = choose|k: int|
                            remote_found_at(x, front, k, aim.target, aim.remote);
                        assert(front.take(k) == events.take(k));
                        assert(remote_found_at(x, events, k, aim.target, aim.remote));
                    },
                }
            },
            None => {},
        }
    }
}

// --- the PR -----------------------------------------------------------------

/// A run from the decoded list of open PRs on: what its search and its plan are
/// about, with the search's questions answered by a history.
spec fn follows(
    h: parent::History,
    aim: stack::AimView,
    prs: Seq<gh::OpenPrView>,
    s: stack::PushView,
) -> bool {
    let scope = stack::aim_scope(aim, prs);
    match s.phase {
        stack::PhaseView::Search { aim: a, search } => a == aim && parent::consistent(
            h,
            scope,
            search,
        ),
        stack::PhaseView::Finished(_) => true,
        _ => plan_of(s) matches Some(p) && p.aim == aim && p.existing == stack::own_pr(
            prs,
            aim.here.branch,
        ) && Ok::<parent::ParentView, Seq<char>>(p.parent) == parent::parent_in(h, scope),
    }
}

/// Each question of the search, at whatever state it comes, is answered by the
/// history.
pub open spec fn search_answered(
    h: parent::History,
    s: stack::PushView,
    events: Seq<step::EventView>,
) -> bool {
    forall|i: int|
        0 <= i < events.len() ==> ((#[trigger] push_after(s, events.take(i))).phase
            matches stack::PhaseView::Search { search, .. } ==> (parent::search_action(search)
            matches Some(a) ==> parent::answers(h, a, events[i])))
}

/// One step of a run that follows a history.
proof fn lemma_follows_next(
    h: parent::History,
    aim: stack::AimView,
    prs: Seq<gh::OpenPrView>,
    s: stack::PushView,
    e: step::EventView,
)
    requires
        follows(h, aim, prs, s),
        s.phase matches stack::PhaseView::Search { search, .. } ==> (parent::search_action(search)
            matches Some(a) ==> parent::answers(h, a, e)),
    ensures
        follows(h, aim, prs, stack::push_next(s, e)),
{
    match s.phase {
        stack::PhaseView::Search { search, .. } => {
            if search.stage is Done {
            } else {
                parent::lemma_search_next_consistent(h, stack::aim_scope(aim, prs), search, e);
            }
            lemma_on_search(s.setup, aim, parent::search_next(search, e));
        },
        stack::PhaseView::Finished(_) => {},
        _ => {
            lemma_execution_keeps_plan(s, e);
        },
    }
}

/// A plan stays as it is until the run is over.
proof fn lemma_execution_keeps_plan(s: stack::PushView, e: step::EventView)
    requires
        plan_of(s) is Some,
    ensures
        stack::push_next(s, e).phase is Finished || plan_of(stack::push_next(s, e)) == plan_of(s),
        stack::push_next(s, e).phase is Create ==> s.phase is Push && plan_of(
            s,
        ).unwrap().existing is None,
        stack::push_next(s, e).phase is Body ==> s.phase is Create,
        stack::push_next(s, e).phase is SetBody ==> s.phase is Body,
        !(stack::push_next(s, e).phase is Search),
{
    match (s.phase, e) {
        (stack::PhaseView::Enable(p), step::EventView::Ran(reply)) => {
            lemma_on_enabled(s.setup, p, reply);
        },
        (stack::PhaseView::Push(p), step::EventView::Ran(reply)) => {
            lemma_on_pushed(s.setup, p, reply);
        },
        (stack::PhaseView::Create(p), step::EventView::Ran(reply)) => {
            lemma_on_created(s.setup, p, reply);
        },
        (stack::PhaseView::Body { plan, created }, step::EventView::Ran(reply)) => {
            lemma_on_body(s.setup, plan, created, reply);
        },
        (stack::PhaseView::SetBody { plan, created, body }, step::EventView::Ran(reply)) => {
            lemma_on_body_set(s.setup, plan, created, body, reply);
        },
        _ => {},
    }
}

/// From the moment the open PRs are known, what a run does is settled by them
/// and by the history. It plans with the closest open PR whose head is a proper
/// ancestor of HEAD as the parent, and with the default branch only where there
/// is none; and it knows the open PR of the branch itself, if there is one.
pub proof fn law_plan_follows_prs_and_history(
    h: parent::History,
    s: stack::PushView,
    aim: stack::AimView,
    json: Seq<char>,
    prs: Seq<gh::OpenPrView>,
    events: Seq<step::EventView>,
)
    requires
        s.phase == (stack::PhaseView::DecodePrs { aim, json }),
        search_answered(h, stack::push_next(s, step::EventView::Prs(Ok(prs))), events),
    ensures
        plan_of(push_after(stack::push_next(s, step::EventView::Prs(Ok(prs))), events)) matches Some(
            p,
        ) ==> p.aim == aim && p.existing == stack::own_pr(prs, aim.here.branch) && Ok::<
            parent::ParentView,
            Seq<char>,
        >(p.parent) == parent::parent_in(h, stack::aim_scope(aim, prs)),
{
    lemma_follows(h, s, aim, json, prs, events);
}

proof fn lemma_follows(
    h: parent::History,
    s: stack::PushView,
    aim: stack::AimView,
    json: Seq<char>,
    prs: Seq<gh::OpenPrView>,
    events: Seq<step::EventView>,
)
    requires
        s.phase == (stack::PhaseView::DecodePrs { aim, json }),
        search_answered(h, stack::push_next(s, step::EventView::Prs(Ok(prs))), events),
    ensures
        follows(
            h,
            aim,
            prs,
            push_after(stack::push_next(s, step::EventView::Prs(Ok(prs))), events),
        ),
    decreases events.len(),
{
    let start = stack::push_next(s, step::EventView::Prs(Ok(prs)));
    if events.len() == 0 {
        let scope = stack::aim_scope(aim, prs);
        parent::lemma_advanced_consistent(h, scope, seq![]);
        lemma_on_prs(s.setup, aim, json, Ok(prs));
        lemma_on_search(s.setup, aim, parent::advanced(scope, seq![]));
    } else {
        let front = events.drop_last();
        assert forall|i: int| 0 <= i < front.len() implies ((#[trigger] push_after(
            start,
            front.take(i),
        )).phase matches stack::PhaseView::Search { search, .. } ==> (parent::search_action(search)
            matches Some(a) ==> parent::answers(h, a, front[i]))) by {
            assert(front.take(i) == events.take(i));
            let same = push_after(start, events.take(i));
        }
        lemma_follows(h, s, aim, json, prs, front);
        assert(events.take(events.len() - 1) == front);
        lemma_follows_next(h, aim, prs, push_after(start, front), events.last());
    }
}

/// A branch that already has an open PR gets no second one: whatever comes
/// after the list of open PRs, no PR is created.
pub proof fn law_open_pr_is_not_recreated(
    s: stack::PushView,
    aim: stack::AimView,
    json: Seq<char>,
    prs: Seq<gh::OpenPrView>,
    events: Seq<step::EventView>,
)
    requires
        s.phase == (stack::PhaseView::DecodePrs { aim, json }),
        stack::own_pr(prs, aim.here.branch) is Some,
    ensures
        ({
            let next = push_after(stack::push_next(s, step::EventView::Prs(Ok(prs))), events);
            !(next.phase is Create) && !(next.phase is Body) && !(next.phase is SetBody)
        }),
{
    lemma_keeps_own_pr(s, aim, json, prs, events);
}

/// The run knows the open PR of its branch.
pub open spec fn knows_own_pr(
    aim: stack::AimView,
    prs: Seq<gh::OpenPrView>,
    s: stack::PushView,
) -> bool {
    match s.phase {
        stack::PhaseView::Search { aim: a, search } => a == aim && search.scope
            == stack::aim_scope(aim, prs),
        stack::PhaseView::Finished(_) => true,
        _ => plan_of(s) matches Some(p) && p.existing == stack::own_pr(prs, aim.here.branch) && (
        s.phase is Create || s.phase is Body || s.phase is SetBody ==> p.existing is None),
    }
}

/// Going on in a search keeps its scope.
proof fn lemma_advanced_scope(scope: parent::ScopeView, distances: Seq<Option<usize>>)
    ensures
        parent::advanced(scope, distances).scope == scope,
    decreases scope.prs.len() - distances.len(),
{
    let i = distances.len() as int;
    if i < scope.prs.len() && !parent::eligible(scope.prs[i], scope.target, scope.branch) {
        lemma_advanced_scope(scope, distances.push(None));
    }
}

/// A step of a search keeps its scope.
proof fn lemma_search_next_scope(s: parent::SearchView, e: step::EventView)
    ensures
        parent::search_next(s, e).scope == s.scope,
{
    lemma_advanced_scope(s.scope, s.distances.push(None));
    match (s.stage, e) {
        (parent::StageView::Count { oid }, step::EventView::Ran(reply)) => {
            match git::commit_count(oid, s.scope.head_sha, reply) {
                Ok(d) => {
                    lemma_advanced_scope(s.scope, s.distances.push(Some(d)));
                },
                Err(_) => {},
            }
        },
        _ => {},
    }
}

pub proof fn lemma_keeps_own_pr(
    s: stack::PushView,
    aim: stack::AimView,
    json: Seq<char>,
    prs: Seq<gh::OpenPrView>,
    events: Seq<step::EventView>,
)
    requires
        s.phase == (stack::PhaseView::DecodePrs { aim, json }),
    ensures
        knows_own_pr(
            aim,
            prs,
            push_after(stack::push_next(s, step::EventView::Prs(Ok(prs))), events),
        ),
    decreases events.len(),
{
    let start = stack::push_next(s, step::EventView::Prs(Ok(prs)));
    if events.len() == 0 {
        let scope = stack::aim_scope(aim, prs);
        lemma_advanced_scope(scope, seq![]);
        lemma_on_prs(s.setup, aim, json, Ok(prs));
        lemma_on_search(s.setup, aim, parent::advanced(scope, seq![]));
    } else {
        let prev = push_after(start, events.drop_last());
        lemma_keeps_own_pr(s, aim, json, prs, events.drop_last());
        match prev.phase {
            stack::PhaseView::Search { search, .. } => {
                lemma_search_next_scope(search, events.last());
                lemma_on_search(prev.setup, aim, parent::search_next(search, events.last()));
            },
            stack::PhaseView::Finished(_) => {},
            _ => {
                lemma_execution_keeps_plan(prev, events.last());
            },
        }
    }
}

// --- the end ----------------------------------------------------------------

/// The number of phases that can still follow.
pub open spec fn phases_left(p: stack::PhaseView) -> nat {
    match p {
        stack::PhaseView::State(_) => 15,
        stack::PhaseView::Local { .. } => 14,
        stack::PhaseView::Fork { .. } => 13,
        stack::PhaseView::Remote { .. } => 12,
        stack::PhaseView::OfferDelete(_) => 11,
        stack::PhaseView::OfferRescue(_) => 10,
        stack::PhaseView::Fetch(_) => 9,
        stack::PhaseView::ListPrs(_) => 8,
        stack::PhaseView::DecodePrs { .. } => 7,
        stack::PhaseView::Search { .. } => 6,
        stack::PhaseView::Enable(_) => 5,
        stack::PhaseView::Push(_) => 4,
        stack::PhaseView::Create(_) => 3,
        stack::PhaseView::Body { .. } => 2,
        stack::PhaseView::SetBody { .. } => 1,
        stack::PhaseView::Finished(_) => 0,
    }
}

/// An upper bound of the questions still to come within a phase.
pub open spec fn questions_left(p: stack::PhaseView) -> int {
    match p {
        stack::PhaseView::State(read) => git::state_questions(read),
        stack::PhaseView::Local { query, .. } => gh::repo_questions(query),
        stack::PhaseView::Fork { query, .. } => gh::repo_questions(query),
        stack::PhaseView::Remote { query, .. } => target::remote_questions(query),
        stack::PhaseView::Search { search, .. } => parent::questions_left(search),
        _ => 0,
    }
}

/// Every event brings a run nearer to its end, whatever it reports: it leads to
/// a later phase, or leaves fewer questions in the same one. So every run ends.
pub proof fn law_every_run_ends(
    x: stack::SetupView,
    events: Seq<step::EventView>,
    e: step::EventView,
)
    ensures
        ({
            let s = push_after(stack::push_start(x), events).phase;
            let next = push_after(stack::push_start(x), events.push(e)).phase;
            &&& nearer_to_end(s, next)
            &&& s is Finished <==> stack::push_action(push_after(stack::push_start(x), events)) is None
        }),
{
    lemma_push_ok(x, events);
    assert(events.push(e).drop_last() == events);
    lemma_push_next_ok(push_after(stack::push_start(x), events), e);
}

/// The phases of a run never come back to an earlier one.
proof fn lemma_phases_go_on(x: stack::SetupView, events: Seq<step::EventView>, i: int, j: int)
    requires
        0 <= i <= j <= events.len(),
    ensures
        phases_left(push_after(stack::push_start(x), events.take(j)).phase) <= phases_left(
            push_after(stack::push_start(x), events.take(i)).phase,
        ),
    decreases j - i,
{
    if i < j {
        lemma_phases_go_on(x, events, i, j - 1);
        law_every_run_ends(x, events.take(j - 1), events[j - 1]);
        assert(events.take(j - 1).push(events[j - 1]) == events.take(j));
    }
}

/// A run pushes at most once, and creates at most one PR.
pub proof fn law_pushes_and_creates_at_most_once(
    x: stack::SetupView,
    events: Seq<step::EventView>,
    i: int,
    j: int,
)
    requires
        0 <= i < j <= events.len(),
    ensures
        ({
            let a = push_after(stack::push_start(x), events.take(i)).phase;
            let b = push_after(stack::push_start(x), events.take(j)).phase;
            !(a is Push && b is Push) && !(a is Create && b is Create)
        }),
{
    let start = stack::push_start(x);
    law_every_run_ends(x, events.take(i), events[i]);
    assert(events.take(i).push(events[i]) == events.take(i + 1));
    lemma_phases_go_on(x, events, i + 1, j);
    lemma_push_ok(x, events.take(i + 1));
}

} // verus!
