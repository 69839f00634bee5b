//! The `push` command: push the current branch to the merge-target remote
//! and open a PR whose base is either the default branch (regular PR) or the
//! closest ancestor branch with an open PR (stacked PR).
//!
//! The command is a series of decisions between outside actions. [`run`] begins
//! it; while it has an [`action`](Push::action), the caller prints the
//! [`output`](Push::output), performs the action and [`step`](Push::step)s with
//! what came of it.

use vstd::prelude::*;
use vstd::string::*;

use crate::command;
use crate::command::{Command, Error};
use crate::gh;
use crate::gh::{CreatePrOpts, OpenPr, RepoInfo, RepoQuery};
use crate::git;
use crate::git::{GitOutput, InProgress, RepoState, StateRead};
use crate::parent;
use crate::parent::{Parent, Scope, Search, Stage};
use crate::plan;
use crate::plan::AutoDelete;
use crate::step;
use crate::step::{Action, Event};
use crate::target;
use crate::target::{MergeTarget, RemoteQuery};
use crate::text;
use crate::ui;
use crate::ui::Console;

verus! {

// --- options ----------------------------------------------------------------

/// User-facing options for `push`. Kept tiny on purpose; the goal is to
/// match the manual workflow, not to grow flags.
#[derive(Debug)]
pub struct StackOpts {
    pub title: Option<String>,
    pub body: Option<String>,
    pub draft: bool,
    pub web: bool,
    /// Use `--force-with-lease` when pushing. Useful after a local rebase.
    pub force_with_lease: bool,
    /// Skip interactive prompts; assume "yes" for the wrong-remote rescue
    /// and bail (rather than prompt) for ambiguous situations.
    pub yes: bool,
    /// Verbosity for git output: 0 hides fetch/push behind a spinner, 1
    /// streams raw git output, 2+ also passes git its own `--verbose`.
    pub verbose: u8,
}

/// The model of [`StackOpts`].
#[verifier::ext_equal]
pub struct StackOptsView {
    pub title: Option<Seq<char>>,
    pub body: Option<Seq<char>>,
    pub draft: bool,
    pub web: bool,
    pub force_with_lease: bool,
    pub yes: bool,
    pub verbose: u8,
}

impl DeepView for StackOpts {
    type V = StackOptsView;

    open spec fn deep_view(&self) -> StackOptsView {
        StackOptsView {
            title: self.title.deep_view(),
            body: self.body.deep_view(),
            draft: self.draft,
            web: self.web,
            force_with_lease: self.force_with_lease,
            yes: self.yes,
            verbose: self.verbose,
        }
    }
}

impl Default for StackOpts {
    /// No option is given.
    fn default() -> (r: Self)
        ensures
            r.deep_view() == (StackOptsView {
                title: None,
                body: None,
                draft: false,
                web: false,
                force_with_lease: false,
                yes: false,
                verbose: 0,
            }),
    {
        StackOpts {
            title: None,
            body: None,
            draft: false,
            web: false,
            force_with_lease: false,
            yes: false,
            verbose: 0,
        }
    }
}

// --- state guards -----------------------------------------------------------

/// How a user can end an operation in progress.
pub open spec fn way_out(op: InProgress) -> Seq<char> {
    match op {
        InProgress::Rebase => "rebase --abort | --continue"@,
        InProgress::Merge => "merge --abort | commit"@,
        InProgress::CherryPick => "cherry-pick --abort | --continue"@,
        InProgress::Revert => "revert --abort | --continue"@,
        InProgress::Bisect => "bisect reset"@,
        InProgress::ApplyMailbox => "am --abort | --continue"@,
    }
}

/// The current branch, where the repo is in a state in which stacking makes
/// sense: no operation is in progress, and HEAD is not detached.
pub open spec fn guarded(state: git::RepoStateView) -> Result<Seq<char>, Seq<char>> {
    match state.in_progress {
        Some(op) => Err(
            "refusing to push: a "@ + git::operation_label(op)
                + " is in progress. Resolve it first (`git "@ + way_out(op) + "`) and try again."@,
        ),
        None => match state.current_branch {
            Some(branch) => Ok(branch),
            None => Err("HEAD is detached; check out a branch before pushing"@),
        },
    }
}

/// Validate that the repo is in a state where stacking makes sense, and
/// return the current branch name.
pub fn guard_state(state: &RepoState) -> (r: Result<String, Error>)
    ensures
        command::seen(r) == guarded(state.deep_view()),
{
    if let Some(op) = state.in_progress {
        let mut message = "refusing to push: a ".to_owned();
        message.append(op.label());
        message.append(" is in progress. Resolve it first (`git ");
        message.append(
            match op {
                InProgress::Rebase => "rebase --abort | --continue",
                InProgress::Merge => "merge --abort | commit",
                InProgress::CherryPick => "cherry-pick --abort | --continue",
                InProgress::Revert => "revert --abort | --continue",
                InProgress::Bisect => "bisect reset",
                InProgress::ApplyMailbox => "am --abort | --continue",
            },
        );
        message.append("`) and try again.");
        return Err(Error { message });
    }
    match &state.current_branch {
        Some(branch) => Ok(branch.clone()),
        None => Err(Error::new("HEAD is detached; check out a branch before pushing")),
    }
}

// --- what is known along the way --------------------------------------------

/// The command's options and its console.
#[derive(Debug)]
pub struct Setup {
    pub opts: StackOpts,
    pub console: Console,
}

/// The model of a [`Setup`].
#[verifier::ext_equal]
pub struct SetupView {
    pub opts: StackOptsView,
    pub console: Console,
}

impl DeepView for Setup {
    type V = SetupView;

    open spec fn deep_view(&self) -> SetupView {
        SetupView { opts: self.opts.deep_view(), console: self.console }
    }
}

/// The working repo, and the branch to push.
#[derive(Debug)]
pub struct Here {
    pub state: RepoState,
    pub branch: String,
}

/// The model of a [`Here`].
#[verifier::ext_equal]
pub struct HereView {
    pub state: git::RepoStateView,
    pub branch: Seq<char>,
}

impl DeepView for Here {
    type V = HereView;

    open spec fn deep_view(&self) -> HereView {
        HereView { state: self.state.deep_view(), branch: self.branch@ }
    }
}

/// Where the branch goes: the merge target and the remote that points at it,
/// and whether to switch `delete_branch_on_merge` on.
#[derive(Debug)]
pub struct Aim {
    pub here: Here,
    pub target: RepoInfo,
    pub remote: String,
    pub enable: bool,
}

/// The model of an [`Aim`].
#[verifier::ext_equal]
pub struct AimView {
    pub here: HereView,
    pub target: gh::RepoInfoView,
    pub remote: Seq<char>,
    pub enable: bool,
}

impl DeepView for Aim {
    type V = AimView;

    open spec fn deep_view(&self) -> AimView {
        AimView {
            here: self.here.deep_view(),
            target: self.target.deep_view(),
            remote: self.remote@,
            enable: self.enable,
        }
    }
}

/// What is going to be done: the parent that a new PR is based on, and the PR
/// that the branch already has.
#[derive(Debug)]
pub struct Plan {
    pub aim: Aim,
    pub parent: Parent,
    pub existing: Option<OpenPr>,
}

/// The model of a [`Plan`].
#[verifier::ext_equal]
pub struct PlanView {
    pub aim: AimView,
    pub parent: parent::ParentView,
    pub existing: Option<gh::OpenPrView>,
}

impl DeepView for Plan {
    type V = PlanView;

    open spec fn deep_view(&self) -> PlanView {
        PlanView {
            aim: self.aim.deep_view(),
            parent: self.parent.deep_view(),
            existing: self.existing.deep_view(),
        }
    }
}

/// How far the command has come, and what it waits for.
#[derive(Debug)]
#[allow(inconsistent_fields)]
pub enum Phase {
    /// The working repo is read.
    State(StateRead),
    /// The local repository is looked up on GitHub.
    Local { here: Here, query: RepoQuery },
    /// The parent of a fork is looked up on GitHub.
    Fork { here: Here, parent: String, query: RepoQuery },
    /// The merge-target remote is looked for.
    Remote { here: Here, target: RepoInfo, query: RemoteQuery },
    /// The user is asked whether to switch `delete_branch_on_merge` on.
    OfferDelete(Aim),
    /// The user is asked whether to push to the merge-target remote instead.
    OfferRescue(Aim),
    /// The merge-target remote is fetched.
    Fetch(Aim),
    /// The open PRs are listed.
    ListPrs(Aim),
    /// The list of open PRs is decoded.
    DecodePrs { aim: Aim, json: String },
    /// The parent is looked for.
    Search { aim: Aim, search: Search },
    /// `delete_branch_on_merge` is switched on.
    Enable(Plan),
    /// The branch is pushed.
    Push(Plan),
    /// The PR is created.
    Create(Plan),
    /// The new PR's description is read.
    Body { plan: Plan, created: String },
    /// The new PR's description is replaced.
    SetBody { plan: Plan, created: String, body: String },
    /// The command is over.
    Finished(Result<(), Error>),
}

/// The model of a [`Phase`].
#[verifier::ext_equal]
#[allow(inconsistent_fields)]
pub enum PhaseView {
    State(git::StateReadView),
    Local { here: HereView, query: gh::RepoQueryView },
    Fork { here: HereView, parent: Seq<char>, query: gh::RepoQueryView },
    Remote { here: HereView, target: gh::RepoInfoView, query: target::RemoteQueryView },
    OfferDelete(AimView),
    OfferRescue(AimView),
    Fetch(AimView),
    ListPrs(AimView),
    DecodePrs { aim: AimView, json: Seq<char> },
    Search { aim: AimView, search: parent::SearchView },
    Enable(PlanView),
    Push(PlanView),
    Create(PlanView),
    Body { plan: PlanView, created: Seq<char> },
    SetBody { plan: PlanView, created: Seq<char>, body: Seq<char> },
    Finished(Result<(), Seq<char>>),
}

impl DeepView for Phase {
    type V = PhaseView;

    open spec fn deep_view(&self) -> PhaseView {
        match self {
            Phase::State(read) => PhaseView::State(read.deep_view()),
            Phase::Local { here, query } => PhaseView::Local {
                here: here.deep_view(),
                query: query.deep_view(),
            },
            Phase::Fork { here, parent, query } => PhaseView::Fork {
                here: here.deep_view(),
                parent: parent@,
                query: query.deep_view(),
            },
            Phase::Remote { here, target, query } => PhaseView::Remote {
                here: here.deep_view(),
                target: target.deep_view(),
                query: query.deep_view(),
            },
            Phase::OfferDelete(aim) => PhaseView::OfferDelete(aim.deep_view()),
            Phase::OfferRescue(aim) => PhaseView::OfferRescue(aim.deep_view()),
            Phase::Fetch(aim) => PhaseView::Fetch(aim.deep_view()),
            Phase::ListPrs(aim) => PhaseView::ListPrs(aim.deep_view()),
            Phase::DecodePrs { aim, json } => PhaseView::DecodePrs {
                aim: aim.deep_view(),
                json: json@,
            },
            Phase::Search { aim, search } => PhaseView::Search {
                aim: aim.deep_view(),
                search: search.deep_view(),
            },
            Phase::Enable(plan) => PhaseView::Enable(plan.deep_view()),
            Phase::Push(plan) => PhaseView::Push(plan.deep_view()),
            Phase::Create(plan) => PhaseView::Create(plan.deep_view()),
            Phase::Body { plan, created } => PhaseView::Body {
                plan: plan.deep_view(),
                created: created@,
            },
            Phase::SetBody { plan, created, body } => PhaseView::SetBody {
                plan: plan.deep_view(),
                created: created@,
                body: body@,
            },
            Phase::Finished(r) => PhaseView::Finished(command::seen(*r)),
        }
    }
}

/// The `push` command under way.
#[derive(Debug)]
pub struct Push {
    pub setup: Setup,
    pub phase: Phase,
    /// The text to print before the pending action is performed.
    pub output: String,
}

/// The model of a [`Push`].
#[verifier::ext_equal]
pub struct PushView {
    pub setup: SetupView,
    pub phase: PhaseView,
    pub output: Seq<char>,
}

impl DeepView for Push {
    type V = PushView;

    open spec fn deep_view(&self) -> PushView {
        PushView {
            setup: self.setup.deep_view(),
            phase: self.phase.deep_view(),
            output: self.output@,
        }
    }
}

// --- git step framing -------------------------------------------------------

/// Where git's output goes: hidden without verbosity, streamed with it.
pub open spec fn git_output(verbose: u8) -> GitOutput {
    if verbose >= 1 {
        GitOutput::Stream { verbose: verbose >= 2 }
    } else {
        GitOutput::Quiet
    }
}

/// The dim lead-in of a git step, which stands before git's own output.
pub open spec fn lead_in(x: SetupView, lead: Seq<char>) -> Seq<char> {
    ui::only_if(x.opts.verbose >= 1, ui::dim_text(x.console, lead))
}

/// Frame a git step, honouring verbosity. Quiet (verbose 0) hides the work
/// behind a spinner; verbose streams git's raw output to the terminal under a
/// dim lead-in so it is available for troubleshooting. Returns the lead-in and
/// where git's output goes.
pub fn git_step(console: &Console, verbose: u8, lead: &str) -> (r: (String, GitOutput))
    ensures
        r.0@ == ui::only_if(verbose >= 1, ui::dim_text(*console, lead@)),
        r.1 == git_output(verbose),
{
    if verbose >= 1 {
        (console.dim_line(lead), GitOutput::Stream { verbose: verbose >= 2 })
    } else {
        (String::new(), GitOutput::Quiet)
    }
}

// --- decisions --------------------------------------------------------------

/// The command in a phase.
pub open spec fn in_phase(x: SetupView, phase: PhaseView, output: Seq<char>) -> PushView {
    PushView { setup: x, phase, output }
}

/// The command fails.
pub open spec fn failed(x: SetupView, message: Seq<char>) -> PushView {
    in_phase(x, PhaseView::Finished(Err(message)), seq![])
}

/// The fetch of the merge-target remote begins.
#[verifier::opaque]
pub open spec fn at_fetch(x: SetupView, aim: AimView, output: Seq<char>) -> PushView {
    in_phase(x, PhaseView::Fetch(aim), output + lead_in(x, "fetching "@ + aim.remote))
}

/// A branch that tracks the wrong remote is rescued first: with prompts skipped
/// at once, otherwise when the user agrees.
#[verifier::opaque]
pub open spec fn at_rescue(x: SetupView, aim: AimView, output: Seq<char>) -> PushView {
    match aim.here.state.upstream {
        Some((actual, _)) => if actual == aim.remote {
            at_fetch(x, aim, output)
        } else {
            let warned = output + ui::warn_text(
                x.console,
                plan::wrong_remote_text(actual, aim.remote),
            );
            if x.opts.yes {
                at_fetch(x, aim, warned)
            } else {
                in_phase(x, PhaseView::OfferRescue(aim), warned)
            }
        },
        None => at_fetch(x, aim, output),
    }
}

/// An aim with the decision on `delete_branch_on_merge` taken.
pub open spec fn with_enable(aim: AimView, enable: bool) -> AimView {
    AimView { enable, ..aim }
}

/// `delete_branch_on_merge` is looked after.
#[verifier::opaque]
pub open spec fn at_auto_delete(x: SetupView, aim: AimView, output: Seq<char>) -> PushView {
    match plan::auto_delete(aim.target, x.opts.yes) {
        AutoDelete::Keep => at_rescue(x, with_enable(aim, false), output),
        AutoDelete::Warn => at_rescue(
            x,
            with_enable(aim, false),
            output + ui::warn_text(x.console, plan::no_auto_delete_text(aim.target)),
        ),
        AutoDelete::Enable => at_rescue(
            x,
            with_enable(aim, true),
            output + ui::warn_text(x.console, plan::offer_auto_delete_text(aim.target)),
        ),
        AutoDelete::Offer => in_phase(
            x,
            PhaseView::OfferDelete(with_enable(aim, false)),
            output + ui::warn_text(x.console, plan::offer_auto_delete_text(aim.target)),
        ),
    }
}

/// The merge-target summary.
pub open spec fn summary_text(target: gh::RepoInfoView, remote: Seq<char>) -> Seq<char> {
    target.name_with_owner + " · default "@ + target.default_branch + " · remote "@ + remote
}

/// The text for a push of the default branch.
pub open spec fn on_default_text(branch: Seq<char>, target: gh::RepoInfoView) -> Seq<char> {
    "current branch `"@ + branch + "` is the default branch of "@ + target.name_with_owner
        + "; create a feature branch first."@
}

/// The merge target is known; the default branch is not pushed.
#[verifier::opaque]
pub open spec fn at_target(
    x: SetupView,
    here: HereView,
    target: gh::RepoInfoView,
    fork: bool,
) -> PushView {
    if here.branch == target.default_branch {
        failed(x, on_default_text(here.branch, target))
    } else {
        in_phase(
            x,
            PhaseView::Remote {
                here,
                target,
                query: target::RemoteQueryView::Configured {
                    target: target.name_with_owner,
                    fork,
                },
            },
            seq![],
        )
    }
}

/// The context of a failed lookup of the local repository.
pub open spec fn local_context() -> Seq<char> {
    "`gh repo view` failed; is this a GitHub repository and is `gh` authenticated?"@
}

/// The reading of the working repo has gone on.
#[verifier::opaque]
pub open spec fn on_state(x: SetupView, read: git::StateReadView) -> PushView {
    match read {
        git::StateReadView::Done(Ok(state)) => match guarded(state) {
            Ok(branch) => in_phase(
                x,
                PhaseView::Local {
                    here: HereView { state, branch },
                    query: gh::RepoQueryView::Ask { name: None },
                },
                ui::section_text(x.console.palette, "PLAN"@),
            ),
            Err(e) => failed(x, e),
        },
        git::StateReadView::Done(Err(e)) => failed(
            x,
            command::in_context("could not read git state"@, e),
        ),
        _ => in_phase(x, PhaseView::State(read), seq![]),
    }
}

/// The lookup of the local repository has gone on.
#[verifier::opaque]
pub open spec fn on_local(x: SetupView, here: HereView, query: gh::RepoQueryView) -> PushView {
    match query {
        gh::RepoQueryView::Done(Ok(local)) => match target::merge_target(local) {
            Ok(target::MergeTargetView::Own(info)) => at_target(x, here, info, false),
            Ok(target::MergeTargetView::Parent(parent)) => in_phase(
                x,
                PhaseView::Fork {
                    here,
                    parent,
                    query: gh::RepoQueryView::Ask { name: Some(parent) },
                },
                seq![],
            ),
            Err(e) => failed(x, e),
        },
        gh::RepoQueryView::Done(Err(e)) => failed(x, command::in_context(local_context(), e)),
        _ => in_phase(x, PhaseView::Local { here, query }, seq![]),
    }
}

/// The context of a failed lookup of a fork's parent.
pub open spec fn fork_context(parent: Seq<char>) -> Seq<char> {
    "could not load merge-target repo `"@ + parent + "`"@
}

/// The lookup of a fork's parent has gone on.
#[verifier::opaque]
pub open spec fn on_fork(
    x: SetupView,
    here: HereView,
    parent: Seq<char>,
    query: gh::RepoQueryView,
) -> PushView {
    match query {
        gh::RepoQueryView::Done(Ok(info)) => at_target(x, here, info, true),
        gh::RepoQueryView::Done(Err(e)) => failed(x, command::in_context(fork_context(parent), e)),
        _ => in_phase(x, PhaseView::Fork { here, parent, query }, seq![]),
    }
}

/// The search for the merge-target remote has gone on.
#[verifier::opaque]
pub open spec fn on_remote(
    x: SetupView,
    here: HereView,
    target: gh::RepoInfoView,
    query: target::RemoteQueryView,
) -> PushView {
    match query {
        target::RemoteQueryView::Done(Ok(remote)) => at_auto_delete(
            x,
            AimView { here, target, remote, enable: false },
            ui::field_text(summary_text(target, remote)),
        ),
        target::RemoteQueryView::Done(Err(e)) => failed(x, e),
        _ => in_phase(x, PhaseView::Remote { here, target, query }, seq![]),
    }
}

/// The user has answered the offer to switch `delete_branch_on_merge` on.
#[verifier::opaque]
pub open spec fn on_delete_answer(x: SetupView, aim: AimView, yes: bool) -> PushView {
    at_rescue(
        x,
        with_enable(aim, yes),
        ui::only_if(!yes, ui::dim_text(x.console, plan::declined_auto_delete_text(aim.target))),
    )
}

/// The user has answered the offer to push to the merge-target remote.
#[verifier::opaque]
pub open spec fn on_rescue_answer(x: SetupView, aim: AimView, yes: bool) -> PushView {
    if yes {
        at_fetch(x, aim, seq![])
    } else {
        failed(x, "aborting: branch must live on `"@ + aim.remote + "` for stacking"@)
    }
}

/// The command that fetches the merge-target remote.
pub open spec fn aim_fetch(x: SetupView, aim: AimView) -> command::CommandView {
    git::fetch_command(aim.remote, git_output(x.opts.verbose))
}

/// The fetch has ended.
#[verifier::opaque]
pub open spec fn on_fetched(x: SetupView, aim: AimView, reply: command::ReplyView) -> PushView {
    match command::completed(aim_fetch(x, aim), reply) {
        Ok(()) => in_phase(x, PhaseView::ListPrs(aim), seq![]),
        Err(e) => failed(
            x,
            command::in_context("git fetch "@ + aim.remote + " failed"@, e),
        ),
    }
}

/// The context of a failed listing of the open PRs.
pub open spec fn prs_context() -> Seq<char> {
    "could not list open PRs on the merge target"@
}

/// The listing of the open PRs has ended.
#[verifier::opaque]
pub open spec fn on_listed(x: SetupView, aim: AimView, reply: command::ReplyView) -> PushView {
    match command::captured(gh::list_open_prs_command(aim.target.name_with_owner), reply) {
        Ok(json) => in_phase(x, PhaseView::DecodePrs { aim, json }, seq![]),
        Err(e) => failed(x, command::in_context(prs_context(), e)),
    }
}

/// What the search for the parent of an aim is about.
pub open spec fn aim_scope(aim: AimView, prs: Seq<gh::OpenPrView>) -> parent::ScopeView {
    parent::ScopeView {
        prs,
        target: aim.target.name_with_owner,
        default_branch: aim.target.default_branch,
        remote: aim.remote,
        branch: aim.here.branch,
        head_sha: aim.here.state.head_sha,
    }
}

/// The open PRs have been decoded.
#[verifier::opaque]
pub open spec fn on_prs(
    x: SetupView,
    aim: AimView,
    json: Seq<char>,
    prs: Result<Seq<gh::OpenPrView>, Seq<char>>,
) -> PushView {
    match prs {
        Ok(prs) => on_search(x, aim, parent::advanced(aim_scope(aim, prs), seq![])),
        Err(cause) => failed(
            x,
            command::in_context(prs_context(), gh::undecodable("gh pr list"@, json, cause)),
        ),
    }
}

/// The open PR that the branch already has: the first whose head it is, and
/// whose head lives on the merge-target repo.
pub open spec fn own_pr(prs: Seq<gh::OpenPrView>, branch: Seq<char>) -> Option<gh::OpenPrView>
    decreases prs.len(),
{
    if prs.len() == 0 {
        None
    } else if prs[0].head_ref_name == branch && !prs[0].is_cross_repository {
        Some(prs[0])
    } else {
        own_pr(prs.skip(1), branch)
    }
}

/// The search for the parent has gone on.
#[verifier::opaque]
pub open spec fn on_search(x: SetupView, aim: AimView, search: parent::SearchView) -> PushView {
    match search.stage {
        parent::StageView::Done(Ok(parent)) => at_plan(
            x,
            PlanView {
                aim,
                parent,
                existing: own_pr(search.scope.prs, aim.here.branch),
            },
        ),
        parent::StageView::Done(Err(e)) => failed(x, e),
        _ => in_phase(x, PhaseView::Search { aim, search }, seq![]),
    }
}

/// The plan stands: it is shown, and then carried out.
#[verifier::opaque]
pub open spec fn at_plan(x: SetupView, p: PlanView) -> PushView {
    let words = plan::plan_words(p.parent, p.existing, p.aim.here.branch);
    let shown = ui::plan_text(x.console, words.0, words.1) + ui::section_text(
        x.console.palette,
        "EXECUTE"@,
    );
    if p.aim.enable {
        in_phase(x, PhaseView::Enable(p), shown)
    } else {
        at_push(x, p, shown)
    }
}

/// The push begins.
#[verifier::opaque]
pub open spec fn at_push(x: SetupView, p: PlanView, output: Seq<char>) -> PushView {
    in_phase(x, PhaseView::Push(p), output + lead_in(x, push_lead(p)))
}

/// The lead-in of the push.
pub open spec fn push_lead(p: PlanView) -> Seq<char> {
    "pushing "@ + p.aim.here.branch + " → "@ + p.aim.remote
}

/// The command that switches `delete_branch_on_merge` on.
pub open spec fn plan_enable(p: PlanView) -> command::CommandView {
    gh::set_delete_branch_on_merge_command(p.aim.target.name_with_owner)
}

/// The setting has been changed, or not: the push goes on either way.
#[verifier::opaque]
pub open spec fn on_enabled(x: SetupView, p: PlanView, reply: command::ReplyView) -> PushView {
    match command::captured(plan_enable(p), reply) {
        Ok(_) => at_push(x, p, ui::done_text(x.console, "enabled delete_branch_on_merge"@)),
        Err(e) => at_push(
            x,
            p,
            ui::warn_text(
                x.console,
                command::in_context("could not enable delete_branch_on_merge"@, e),
            ),
        ),
    }
}

/// The command that pushes the branch.
pub open spec fn plan_push(x: SetupView, p: PlanView) -> command::CommandView {
    git::push_command(
        p.aim.remote,
        p.aim.here.branch,
        x.opts.force_with_lease,
        git_output(x.opts.verbose),
    )
}

/// The push has ended. A branch with an open PR needs no more; otherwise a PR
/// is created.
#[verifier::opaque]
pub open spec fn on_pushed(x: SetupView, p: PlanView, reply: command::ReplyView) -> PushView {
    let branch = p.aim.here.branch;
    let remote = p.aim.remote;
    match command::completed(plan_push(x, p), reply) {
        Ok(()) => {
            let pushed = ui::done_text(x.console, "pushed "@ + branch + " to "@ + remote);
            match p.existing {
                Some(pr) => in_phase(
                    x,
                    PhaseView::Finished(Ok(())),
                    pushed + ui::url_text(x.console, pr.url) + ui::dim_text(
                        x.console,
                        "base on GitHub: "@ + pr.base_ref_name,
                    ),
                ),
                None => in_phase(x, PhaseView::Create(p), pushed),
            }
        },
        Err(e) => failed(
            x,
            command::in_context(
                "git push "@ + remote + " "@ + branch
                    + " failed -- if you rebased, retry with --force-with-lease"@,
                e,
            ),
        ),
    }
}

/// The command that creates the PR.
pub open spec fn plan_create(x: SetupView, p: PlanView) -> command::CommandView {
    gh::create_pr_command(
        p.aim.target.name_with_owner,
        parent::parent_branch(p.parent),
        p.aim.here.branch,
        x.opts.title,
        x.opts.body,
        x.opts.draft,
        x.opts.web,
    )
}

/// The command is over, with the new PR's URL as its headline. In the browser
/// there is no URL to show.
#[verifier::opaque]
pub open spec fn at_end(x: SetupView, created: Seq<char>, output: Seq<char>) -> PushView {
    in_phase(
        x,
        PhaseView::Finished(Ok(())),
        output + if created.len() == 0 {
            ui::dim_text(x.console, "opened in your browser"@)
        } else {
            ui::url_text(x.console, text::trimmed(created))
        },
    )
}

/// The new PR gets a footer: it is stacked, was not created in the browser, and
/// `gh` has printed its URL.
pub open spec fn wants_footer(x: SetupView, p: PlanView, created: Seq<char>) -> bool {
    !x.opts.web && p.parent is Pr && text::begins(text::trimmed(created), "https://"@)
}

/// The creation of the PR has ended.
#[verifier::opaque]
pub open spec fn on_created(x: SetupView, p: PlanView, reply: command::ReplyView) -> PushView {
    match command::captured(plan_create(x, p), reply) {
        Ok(created) => {
            let opened = ui::done_text(x.console, "opened pull request"@);
            if wants_footer(x, p, created) {
                in_phase(x, PhaseView::Body { plan: p, created }, opened)
            } else {
                at_end(x, created, opened)
            }
        },
        Err(e) => failed(x, command::in_context("`gh pr create` failed"@, e)),
    }
}

/// The warning for a description that could not be changed.
pub open spec fn no_footer_text(x: SetupView, e: Seq<char>) -> Seq<char> {
    ui::warn_text(x.console, command::in_context("could not update PR description"@, e))
}

/// The number and the branch of the PR that a plan stacks on.
pub open spec fn stacked_on(p: PlanView) -> (u64, Seq<char>) {
    match p.parent {
        parent::ParentView::Pr { number, branch, .. } => (number, branch),
        parent::ParentView::Default { branch } => (0, branch),
    }
}

/// The new PR's description has been read.
#[verifier::opaque]
pub open spec fn on_body(
    x: SetupView,
    p: PlanView,
    created: Seq<char>,
    reply: command::ReplyView,
) -> PushView {
    match command::captured(gh::pr_body_command(text::trimmed(created)), reply) {
        Ok(current) => in_phase(
            x,
            PhaseView::SetBody {
                plan: p,
                created,
                body: plan::body_with_footer(
                    current,
                    plan::footer_text(stacked_on(p).0, stacked_on(p).1),
                ),
            },
            seq![],
        ),
        Err(e) => at_end(x, created, no_footer_text(x, e)),
    }
}

/// The new PR's description has been replaced, or not: the PR stands either
/// way.
#[verifier::opaque]
pub open spec fn on_body_set(
    x: SetupView,
    p: PlanView,
    created: Seq<char>,
    body: Seq<char>,
    reply: command::ReplyView,
) -> PushView {
    match command::captured(gh::set_pr_body_command(text::trimmed(created), body), reply) {
        Ok(_) => at_end(
            x,
            created,
            ui::done_text(
                x.console,
                "noted parent #"@ + text::decimal(stacked_on(p).0 as nat) + " in description"@,
            ),
        ),
        Err(e) => at_end(x, created, no_footer_text(x, e)),
    }
}

// --- the command ------------------------------------------------------------

/// The command at its beginning.
pub open spec fn push_start(x: SetupView) -> PushView {
    in_phase(x, PhaseView::State(git::StateReadView::GitDir), ui::banner_text(x.console))
}

/// What the command waits for.
pub open spec fn push_action(s: PushView) -> Option<step::ActionView> {
    let x = s.setup;
    match s.phase {
        PhaseView::State(read) => git::state_read_action(read),
        PhaseView::Local { query, .. } => gh::repo_query_action(query),
        PhaseView::Fork { query, .. } => gh::repo_query_action(query),
        PhaseView::Remote { query, .. } => target::remote_query_action(query),
        PhaseView::OfferDelete(_) => Some(
            step::ActionView::Confirm("Enable `delete_branch_on_merge` now?"@),
        ),
        PhaseView::OfferRescue(aim) => Some(
            step::ActionView::Confirm(
                "Re-push to `"@ + aim.remote + "` and switch tracking?"@,
            ),
        ),
        PhaseView::Fetch(aim) => Some(step::ActionView::Run(aim_fetch(x, aim))),
        PhaseView::ListPrs(aim) => Some(
            step::ActionView::Run(gh::list_open_prs_command(aim.target.name_with_owner)),
        ),
        PhaseView::DecodePrs { json, .. } => Some(step::ActionView::DecodePrs(json)),
        PhaseView::Search { search, .. } => parent::search_action(search),
        PhaseView::Enable(p) => Some(step::ActionView::Run(plan_enable(p))),
        PhaseView::Push(p) => Some(step::ActionView::Run(plan_push(x, p))),
        PhaseView::Create(p) => Some(step::ActionView::Run(plan_create(x, p))),
        PhaseView::Body { created, .. } => Some(
            step::ActionView::Run(gh::pr_body_command(text::trimmed(created))),
        ),
        PhaseView::SetBody { created, body, .. } => Some(
            step::ActionView::Run(gh::set_pr_body_command(text::trimmed(created), body)),
        ),
        PhaseView::Finished(_) => None,
    }
}

/// The label of the spinner that stands in for the pending action.
pub open spec fn push_pending(s: PushView) -> Option<Seq<char>> {
    let quiet = s.setup.opts.verbose == 0;
    match s.phase {
        PhaseView::Local { .. } | PhaseView::Fork { .. } => Some("resolving merge target"@),
        PhaseView::Fetch(aim) => if quiet {
            Some("fetching "@ + aim.remote)
        } else {
            None
        },
        PhaseView::ListPrs(_) | PhaseView::DecodePrs { .. } => Some(
            "scanning open pull requests"@,
        ),
        PhaseView::Enable(_) => Some("enabling delete_branch_on_merge"@),
        PhaseView::Push(p) => if quiet {
            Some(push_lead(p))
        } else {
            None
        },
        PhaseView::Create(_) => Some("creating pull request"@),
        PhaseView::Body { .. } | PhaseView::SetBody { .. } => Some(
            "noting parent in PR description"@,
        ),
        _ => None,
    }
}

/// How the command goes on. An event that does not answer the pending action
/// ends it.
pub open spec fn push_next(s: PushView, e: step::EventView) -> PushView {
    let x = s.setup;
    match (s.phase, e) {
        (PhaseView::State(read), _) => on_state(x, git::state_read_next(read, e)),
        (PhaseView::Local { here, query }, _) => on_local(x, here, gh::repo_query_next(query, e)),
        (PhaseView::Fork { here, parent, query }, _) => on_fork(
            x,
            here,
            parent,
            gh::repo_query_next(query, e),
        ),
        (PhaseView::Remote { here, target, query }, _) => on_remote(
            x,
            here,
            target,
            target::remote_query_next(query, e),
        ),
        (PhaseView::OfferDelete(aim), step::EventView::Answer(yes)) => on_delete_answer(
            x,
            aim,
            yes,
        ),
        (PhaseView::OfferRescue(aim), step::EventView::Answer(yes)) => on_rescue_answer(
            x,
            aim,
            yes,
        ),
        (PhaseView::Fetch(aim), step::EventView::Ran(reply)) => on_fetched(x, aim, reply),
        (PhaseView::ListPrs(aim), step::EventView::Ran(reply)) => on_listed(x, aim, reply),
        (PhaseView::DecodePrs { aim, json }, step::EventView::Prs(prs)) => on_prs(
            x,
            aim,
            json,
            prs,
        ),
        (PhaseView::Search { aim, search }, _) => on_search(
            x,
            aim,
            parent::search_next(search, e),
        ),
        (PhaseView::Enable(p), step::EventView::Ran(reply)) => on_enabled(x, p, reply),
        (PhaseView::Push(p), step::EventView::Ran(reply)) => on_pushed(x, p, reply),
        (PhaseView::Create(p), step::EventView::Ran(reply)) => on_created(x, p, reply),
        (PhaseView::Body { plan, created }, step::EventView::Ran(reply)) => on_body(
            x,
            plan,
            created,
            reply,
        ),
        (PhaseView::SetBody { plan, created, body }, step::EventView::Ran(reply)) => on_body_set(
            x,
            plan,
            created,
            body,
            reply,
        ),
        (PhaseView::Finished(r), _) => in_phase(x, PhaseView::Finished(r), seq![]),
        _ => failed(x, step::unexpected_text()),
    }
}

/// Begin the `push` command.
pub fn run(opts: StackOpts, console: Console) -> (r: Push)
    ensures
        r.deep_view() == push_start(SetupView { opts: opts.deep_view(), console }),
{
    let output = console.banner();
    Push { setup: Setup { opts, console }, phase: Phase::State(StateRead::GitDir), output }
}

/// The open PR that the branch already has.
fn find_own_pr(prs: &Vec<OpenPr>, branch: &str) -> (r: Option<OpenPr>)
    ensures
        r.deep_view() == own_pr(prs.deep_view(), branch@),
{
    let ghost all = prs.deep_view();
    let mut i: usize = 0;
    assert(all.skip(0) == all);
    while i < prs.len()
        invariant
            i <= prs.len(),
            all == prs.deep_view(),
            own_pr(all.skip(i as int), branch@) == own_pr(all, branch@),
        decreases prs.len() - i,
    {
        let pr = &prs[i];
        assert(all.skip(i as int)[0] == pr.deep_view());
        if text::same(pr.head_ref_name.as_str(), branch) && !pr.is_cross_repository {
            return Some(pr.clone());
        }
        assert(all.skip(i as int).skip(1) == all.skip(i + 1));
        i = i + 1;
    }
    None
}

impl Setup {
    /// The command in a phase.
    fn enter(self, phase: Phase, output: String) -> (r: Push)
        ensures
            r.deep_view() == in_phase(self.deep_view(), phase.deep_view(), output@),
    {
        Push { setup: self, phase, output }
    }

    /// The command fails.
    fn fail(self, error: Error) -> (r: Push)
        ensures
            r.deep_view() == failed(self.deep_view(), error.message@),
    {
        self.enter(Phase::Finished(Err(error)), String::new())
    }

    /// The command in a phase that adds nothing to the output.
    fn quietly(self, phase: Phase) -> (r: Push)
        ensures
            r.deep_view() == in_phase(self.deep_view(), phase.deep_view(), seq![]),
    {
        self.enter(phase, String::new())
    }

    fn fetch_command(&self, aim: &Aim) -> (r: Command)
        ensures
            r.deep_view() == aim_fetch(self.deep_view(), aim.deep_view()),
    {
        let framed = git_step(&self.console, self.opts.verbose, "");
        git::fetch(aim.remote.as_str(), framed.1)
    }

    fn push_command(&self, p: &Plan) -> (r: Command)
        ensures
            r.deep_view() == plan_push(self.deep_view(), p.deep_view()),
    {
        let framed = git_step(&self.console, self.opts.verbose, "");
        git::push(
            p.aim.remote.as_str(),
            p.aim.here.branch.as_str(),
            self.opts.force_with_lease,
            framed.1,
        )
    }

    fn create_command(&self, p: &Plan) -> (r: Command)
        ensures
            r.deep_view() == plan_create(self.deep_view(), p.deep_view()),
    {
        let opts = CreatePrOpts {
            title: match &self.opts.title {
                Some(t) => Some(t.as_str()),
                None => None,
            },
            body: match &self.opts.body {
                Some(b) => Some(b.as_str()),
                None => None,
            },
            draft: self.opts.draft,
            web: self.opts.web,
        };
        gh::create_pr(
            p.aim.target.name_with_owner.as_str(),
            p.parent.branch_name(),
            p.aim.here.branch.as_str(),
            &opts,
        )
    }

    fn to_fetch(self, aim: Aim, output: String) -> (r: Push)
        ensures
            r.deep_view() == at_fetch(self.deep_view(), aim.deep_view(), output@),
    {
        proof {
            reveal(at_fetch);
        }
        let mut lead = "fetching ".to_owned();
        lead.append(aim.remote.as_str());
        let framed = git_step(&self.console, self.opts.verbose, lead.as_str());
        let mut output = output;
        output.append(framed.0.as_str());
        self.enter(Phase::Fetch(aim), output)
    }

    fn to_rescue(self, aim: Aim, output: String) -> (r: Push)
        ensures
            r.deep_view() == at_rescue(self.deep_view(), aim.deep_view(), output@),
    {
        proof {
            reveal(at_rescue);
        }
        match plan::rescue_wrong_remote(&aim.here.state.upstream, aim.remote.as_str()) {
            None => self.to_fetch(aim, output),
            Some(warning) => {
                let mut output = output;
                output.append(self.console.warn(warning.as_str()).as_str());
                if self.opts.yes {
                    self.to_fetch(aim, output)
                } else {
                    self.enter(Phase::OfferRescue(aim), output)
                }
            },
        }
    }

    fn to_auto_delete(self, aim: Aim, output: String) -> (r: Push)
        ensures
            r.deep_view() == at_auto_delete(self.deep_view(), aim.deep_view(), output@),
    {
        proof {
            reveal(at_auto_delete);
        }
        let mut aim = aim;
        let mut output = output;
        match plan::plan_auto_delete(&aim.target, self.opts.yes) {
            AutoDelete::Keep => {
                aim.enable = false;
                self.to_rescue(aim, output)
            },
            AutoDelete::Warn => {
                aim.enable = false;
                output.append(
                    self.console.warn(plan::warn_no_auto_delete(&aim.target).as_str()).as_str(),
                );
                self.to_rescue(aim, output)
            },
            AutoDelete::Enable => {
                aim.enable = true;
                output.append(
                    self.console.warn(plan::offer_auto_delete(&aim.target).as_str()).as_str(),
                );
                self.to_rescue(aim, output)
            },
            AutoDelete::Offer => {
                aim.enable = false;
                output.append(
                    self.console.warn(plan::offer_auto_delete(&aim.target).as_str()).as_str(),
                );
                self.enter(Phase::OfferDelete(aim), output)
            },
        }
    }

    fn to_target(self, here: Here, target: RepoInfo, fork: bool) -> (r: Push)
        ensures
            r.deep_view() == at_target(
                self.deep_view(),
                here.deep_view(),
                target.deep_view(),
                fork,
            ),
    {
        proof {
            reveal(at_target);
        }
        if text::same(here.branch.as_str(), target.default_branch.as_str()) {
            let mut message = "current branch `".to_owned();
            message.append(here.branch.as_str());
            message.append("` is the default branch of ");
            message.append(target.name_with_owner.as_str());
            message.append("; create a feature branch first.");
            return self.fail(Error { message });
        }
        let query = RemoteQuery::Configured { target: target.name_with_owner.clone(), fork };
        self.quietly(Phase::Remote { here, target, query })
    }

    fn after_state(self, read: StateRead) -> (r: Push)
        ensures
            r.deep_view() == on_state(self.deep_view(), read.deep_view()),
    {
        proof {
            reveal(on_state);
        }
        match read {
            StateRead::Done(Ok(state)) => match guard_state(&state) {
                Ok(branch) => {
                    let output = self.console.section("PLAN");
                    let query = RepoQuery::Ask { name: None };
                    self.enter(Phase::Local { here: Here { state, branch }, query }, output)
                },
                Err(e) => self.fail(e),
            },
            StateRead::Done(Err(e)) => self.fail(e.context("could not read git state")),
            other => self.quietly(Phase::State(other)),
        }
    }

    fn after_local(self, here: Here, query: RepoQuery) -> (r: Push)
        ensures
            r.deep_view() == on_local(self.deep_view(), here.deep_view(), query.deep_view()),
    {
        proof {
            reveal(on_local);
        }
        match query {
            RepoQuery::Done(Ok(local)) => match target::resolve_merge_target(&local) {
                Ok(MergeTarget::Own(info)) => self.to_target(here, info, false),
                Ok(MergeTarget::Parent(parent)) => {
                    let query = RepoQuery::Ask { name: Some(parent.clone()) };
                    self.quietly(Phase::Fork { here, parent, query })
                },
                Err(e) => self.fail(e),
            },
            RepoQuery::Done(Err(e)) => self.fail(
                e.context(
                    "`gh repo view` failed; is this a GitHub repository and is `gh` authenticated?",
                ),
            ),
            other => self.quietly(Phase::Local { here, query: other }),
        }
    }

    fn after_fork(self, here: Here, parent: String, query: RepoQuery) -> (r: Push)
        ensures
            r.deep_view() == on_fork(
                self.deep_view(),
                here.deep_view(),
                parent@,
                query.deep_view(),
            ),
    {
        proof {
            reveal(on_fork);
        }
        match query {
            RepoQuery::Done(Ok(info)) => self.to_target(here, info, true),
            RepoQuery::Done(Err(e)) => {
                let mut context = "could not load merge-target repo `".to_owned();
                context.append(parent.as_str());
                context.append("`");
                self.fail(e.context(context.as_str()))
            },
            other => self.quietly(Phase::Fork { here, parent, query: other }),
        }
    }

    fn after_remote(self, here: Here, target: RepoInfo, query: RemoteQuery) -> (r: Push)
        ensures
            r.deep_view() == on_remote(
                self.deep_view(),
                here.deep_view(),
                target.deep_view(),
                query.deep_view(),
            ),
    {
        proof {
            reveal(on_remote);
        }
        match query {
            RemoteQuery::Done(Ok(remote)) => {
                let mut summary = target.name_with_owner.clone();
                summary.append(" · default ");
                summary.append(target.default_branch.as_str());
                summary.append(" · remote ");
                summary.append(remote.as_str());
                let output = self.console.field(summary.as_str());
                self.to_auto_delete(Aim { here, target, remote, enable: false }, output)
            },
            RemoteQuery::Done(Err(e)) => self.fail(e),
            other => self.quietly(Phase::Remote { here, target, query: other }),
        }
    }

    fn after_delete_answer(self, aim: Aim, yes: bool) -> (r: Push)
        ensures
            r.deep_view() == on_delete_answer(self.deep_view(), aim.deep_view(), yes),
    {
        proof {
            reveal(on_delete_answer);
        }
        let mut aim = aim;
        aim.enable = yes;
        let output = if yes {
            String::new()
        } else {
            self.console.dim_line(plan::declined_auto_delete(&aim.target).as_str())
        };
        self.to_rescue(aim, output)
    }

    fn after_rescue_answer(self, aim: Aim, yes: bool) -> (r: Push)
        ensures
            r.deep_view() == on_rescue_answer(self.deep_view(), aim.deep_view(), yes),
    {
        proof {
            reveal(on_rescue_answer);
        }
        if yes {
            return self.to_fetch(aim, String::new());
        }
        let mut message = "aborting: branch must live on `".to_owned();
        message.append(aim.remote.as_str());
        message.append("` for stacking");
        self.fail(Error { message })
    }

    fn after_fetch(self, aim: Aim, reply: command::Reply) -> (r: Push)
        ensures
            r.deep_view() == on_fetched(self.deep_view(), aim.deep_view(), reply.deep_view()),
    {
        proof {
            reveal(on_fetched);
        }
        match command::complete(&self.fetch_command(&aim), &reply) {
            Ok(_) => self.quietly(Phase::ListPrs(aim)),
            Err(e) => {
                let mut context = "git fetch ".to_owned();
                context.append(aim.remote.as_str());
                context.append(" failed");
                self.fail(e.context(context.as_str()))
            },
        }
    }

    fn after_list(self, aim: Aim, reply: command::Reply) -> (r: Push)
        ensures
            r.deep_view() == on_listed(self.deep_view(), aim.deep_view(), reply.deep_view()),
    {
        proof {
            reveal(on_listed);
        }
        match command::run_capture(
            &gh::list_open_prs(aim.target.name_with_owner.as_str()),
            &reply,
        ) {
            Ok(json) => self.quietly(Phase::DecodePrs { aim, json }),
            Err(e) => self.fail(e.context("could not list open PRs on the merge target")),
        }
    }

    fn after_prs(self, aim: Aim, json: String, prs: Result<Vec<OpenPr>, String>) -> (r: Push)
        ensures
            r.deep_view() == on_prs(
                self.deep_view(),
                aim.deep_view(),
                json@,
                match prs {
                    Ok(v) => Ok(v.deep_view()),
                    Err(cause) => Err(cause@),
                },
            ),
    {
        proof {
            reveal(on_prs);
        }
        match prs {
            Ok(prs) => {
                let scope = Scope {
                    prs,
                    target: aim.target.name_with_owner.clone(),
                    default_branch: aim.target.default_branch.clone(),
                    remote: aim.remote.clone(),
                    branch: aim.here.branch.clone(),
                    head_sha: aim.here.state.head_sha.clone(),
                };
                self.after_search(aim, Search::start(scope))
            },
            Err(cause) => self.fail(
                gh::decode_error("gh pr list", json.as_str(), cause.as_str()).context(
                    "could not list open PRs on the merge target",
                ),
            ),
        }
    }

    fn after_search(self, aim: Aim, search: Search) -> (r: Push)
        ensures
            r.deep_view() == on_search(self.deep_view(), aim.deep_view(), search.deep_view()),
    {
        proof {
            reveal(on_search);
        }
        match search.stage {
            Stage::Done(Ok(parent)) => {
                let existing = find_own_pr(&search.scope.prs, aim.here.branch.as_str());
                self.to_plan(Plan { aim, parent, existing })
            },
            Stage::Done(Err(e)) => self.fail(e),
            stage => self.quietly(
                Phase::Search {
                    aim,
                    search: Search { scope: search.scope, distances: search.distances, stage },
                },
            ),
        }
    }

    fn to_plan(self, p: Plan) -> (r: Push)
        ensures
            r.deep_view() == at_plan(self.deep_view(), p.deep_view()),
    {
        proof {
            reveal(at_plan);
        }
        let words = plan::plan_sentence(&p.parent, p.existing.as_ref(), p.aim.here.branch.as_str());
        let note = match &words.1 {
            Some(n) => Some(n.as_str()),
            None => None,
        };
        let mut output = self.console.plan(words.0.as_str(), note);
        output.append(self.console.section("EXECUTE").as_str());
        if p.aim.enable {
            self.enter(Phase::Enable(p), output)
        } else {
            self.to_push(p, output)
        }
    }

    fn to_push(self, p: Plan, output: String) -> (r: Push)
        ensures
            r.deep_view() == at_push(self.deep_view(), p.deep_view(), output@),
    {
        proof {
            reveal(at_push);
        }
        let lead = p.lead();
        let framed = git_step(&self.console, self.opts.verbose, lead.as_str());
        let mut output = output;
        output.append(framed.0.as_str());
        self.enter(Phase::Push(p), output)
    }

    fn after_enable(self, p: Plan, reply: command::Reply) -> (r: Push)
        ensures
            r.deep_view() == on_enabled(self.deep_view(), p.deep_view(), reply.deep_view()),
    {
        proof {
            reveal(on_enabled);
        }
        let command = gh::set_delete_branch_on_merge(p.aim.target.name_with_owner.as_str());
        let output = match command::run_capture(&command, &reply) {
            Ok(_) => self.console.done("enabled delete_branch_on_merge"),
            // Non-fatal: the push and PR are the user's actual goal, and the
            // setting only matters at the *next* merge. Warn and carry on.
            Err(e) => self.console.warn(
                e.context("could not enable delete_branch_on_merge").message.as_str(),
            ),
        };
        self.to_push(p, output)
    }

    fn after_push(self, p: Plan, reply: command::Reply) -> (r: Push)
        ensures
            r.deep_view() == on_pushed(self.deep_view(), p.deep_view(), reply.deep_view()),
    {
        proof {
            reveal(on_pushed);
        }
        match command::complete(&self.push_command(&p), &reply) {
            Ok(_) => {
                let mut pushed = "pushed ".to_owned();
                pushed.append(p.aim.here.branch.as_str());
                pushed.append(" to ");
                pushed.append(p.aim.remote.as_str());
                let mut output = self.console.done(pushed.as_str());
                match &p.existing {
                    Some(pr) => {
                        let mut base = "base on GitHub: ".to_owned();
                        base.append(pr.base_ref_name.as_str());
                        output.append(self.console.url(pr.url.as_str()).as_str());
                        output.append(self.console.dim_line(base.as_str()).as_str());
                        self.enter(Phase::Finished(Ok(())), output)
                    },
                    None => self.enter(Phase::Create(p), output),
                }
            },
            Err(e) => {
                let mut context = "git push ".to_owned();
                context.append(p.aim.remote.as_str());
                context.append(" ");
                context.append(p.aim.here.branch.as_str());
                context.append(" failed -- if you rebased, retry with --force-with-lease");
                self.fail(e.context(context.as_str()))
            },
        }
    }

    fn to_end(self, created: String, output: String) -> (r: Push)
        ensures
            r.deep_view() == at_end(self.deep_view(), created@, output@),
    {
        proof {
            reveal(at_end);
        }
        let mut output = output;
        if created.as_str().is_empty() {
            output.append(self.console.dim_line("opened in your browser").as_str());
        } else {
            output.append(self.console.url(text::trim(created.as_str())).as_str());
        }
        self.enter(Phase::Finished(Ok(())), output)
    }

    fn after_create(self, p: Plan, reply: command::Reply) -> (r: Push)
        ensures
            r.deep_view() == on_created(self.deep_view(), p.deep_view(), reply.deep_view()),
    {
        proof {
            reveal(on_created);
        }
        match command::run_capture(&self.create_command(&p), &reply) {
            Ok(created) => {
                let output = self.console.done("opened pull request");
                // For stacked PRs, point the new PR's body at the parent.
                // `--web` skips create-from-CLI, so there's no URL to edit yet;
                // let the user handle the body in the browser in that case.
                let stacked = match &p.parent {
                    Parent::Pr { .. } => true,
                    Parent::Default { .. } => false,
                };
                if !self.opts.web && stacked && text::starts_with(
                    text::trim(created.as_str()),
                    "https://",
                ) {
                    self.enter(Phase::Body { plan: p, created }, output)
                } else {
                    self.to_end(created, output)
                }
            },
            Err(e) => self.fail(e.context("`gh pr create` failed")),
        }
    }

    fn without_footer(self, created: String, e: Error) -> (r: Push)
        ensures
            r.deep_view() == at_end(
                self.deep_view(),
                created@,
                no_footer_text(self.deep_view(), e.message@),
            ),
    {
        let output = self.console.warn(
            e.context("could not update PR description").message.as_str(),
        );
        self.to_end(created, output)
    }

    /// Append a "Stacked on #N" footer to a freshly-created stacked PR's body,
    /// separated from whatever `--fill` (or the user) put there by a `---`
    /// horizontal rule. Failures are non-fatal: the PR is already created with
    /// the correct base, so the worst case is a missing footer.
    fn append_stack_footer(self, p: Plan, created: String, reply: command::Reply) -> (r: Push)
        ensures
            r.deep_view() == on_body(
                self.deep_view(),
                p.deep_view(),
                created@,
                reply.deep_view(),
            ),
    {
        proof {
            reveal(on_body);
        }
        match command::run_capture(&gh::pr_body(text::trim(created.as_str())), &reply) {
            Ok(current) => {
                let footer = plan::stack_footer(p.parent_number(), p.parent.branch_name());
                let body = plan::merge_body_with_footer(current.as_str(), footer.as_str());
                self.quietly(Phase::SetBody { plan: p, created, body })
            },
            Err(e) => self.without_footer(created, e),
        }
    }

    fn after_body_set(
        self,
        p: Plan,
        created: String,
        body: String,
        reply: command::Reply,
    ) -> (r: Push)
        ensures
            r.deep_view() == on_body_set(
                self.deep_view(),
                p.deep_view(),
                created@,
                body@,
                reply.deep_view(),
            ),
    {
        proof {
            reveal(on_body_set);
        }
        let command = gh::set_pr_body(text::trim(created.as_str()), body.as_str());
        match command::run_capture(&command, &reply) {
            Ok(_) => {
                let mut noted = "noted parent #".to_owned();
                noted.append(text::decimal_text(p.parent_number()).as_str());
                noted.append(" in description");
                let output = self.console.done(noted.as_str());
                self.to_end(created, output)
            },
            Err(e) => self.without_footer(created, e),
        }
    }
}

impl Plan {
    /// The lead-in of the push.
    fn lead(&self) -> (r: String)
        ensures
            r@ == push_lead(self.deep_view()),
    {
        let mut lead = "pushing ".to_owned();
        lead.append(self.aim.here.branch.as_str());
        lead.append(" → ");
        lead.append(self.aim.remote.as_str());
        lead
    }

    /// The number of the PR that the plan stacks on.
    fn parent_number(&self) -> (r: u64)
        ensures
            r == stacked_on(self.deep_view()).0,
    {
        match &self.parent {
            Parent::Pr { number, .. } => *number,
            Parent::Default { .. } => 0,
        }
    }
}

impl Push {
    /// What the command waits for; `None` once it is over.
    pub fn action(&self) -> (r: Option<Action>)
        ensures
            r.deep_view() == push_action(self.deep_view()),
    {
        match &self.phase {
            Phase::State(read) => read.action(),
            Phase::Local { query, .. } => query.action(),
            Phase::Fork { query, .. } => query.action(),
            Phase::Remote { query, .. } => query.action(),
            Phase::OfferDelete(_) => Some(
                Action::Confirm("Enable `delete_branch_on_merge` now?".to_owned()),
            ),
            Phase::OfferRescue(aim) => {
                let mut prompt = "Re-push to `".to_owned();
                prompt.append(aim.remote.as_str());
                prompt.append("` and switch tracking?");
                Some(Action::Confirm(prompt))
            },
            Phase::Fetch(aim) => Some(Action::Run(self.setup.fetch_command(aim))),
            Phase::ListPrs(aim) => Some(
                Action::Run(gh::list_open_prs(aim.target.name_with_owner.as_str())),
            ),
            Phase::DecodePrs { json, .. } => Some(Action::DecodePrs(json.clone())),
            Phase::Search { search, .. } => search.action(),
            Phase::Enable(p) => Some(
                Action::Run(
                    gh::set_delete_branch_on_merge(p.aim.target.name_with_owner.as_str()),
                ),
            ),
            Phase::Push(p) => Some(Action::Run(self.setup.push_command(p))),
            Phase::Create(p) => Some(Action::Run(self.setup.create_command(p))),
            Phase::Body { created, .. } => Some(
                Action::Run(gh::pr_body(text::trim(created.as_str()))),
            ),
            Phase::SetBody { created, body, .. } => Some(
                Action::Run(gh::set_pr_body(text::trim(created.as_str()), body.as_str())),
            ),
            Phase::Finished(_) => None,
        }
    }

    /// The label of the spinner that stands in for the pending action.
    pub fn pending(&self) -> (r: Option<String>)
        ensures
            r.deep_view() == push_pending(self.deep_view()),
    {
        match &self.phase {
            Phase::Local { .. } => Some("resolving merge target".to_owned()),
            Phase::Fork { .. } => Some("resolving merge target".to_owned()),
            Phase::Fetch(aim) => {
                if self.setup.opts.verbose == 0 {
                    let mut lead = "fetching ".to_owned();
                    lead.append(aim.remote.as_str());
                    Some(lead)
                } else {
                    None
                }
            },
            Phase::ListPrs(_) => Some("scanning open pull requests".to_owned()),
            Phase::DecodePrs { .. } => Some("scanning open pull requests".to_owned()),
            Phase::Enable(_) => Some("enabling delete_branch_on_merge".to_owned()),
            Phase::Push(p) => {
                if self.setup.opts.verbose == 0 {
                    Some(p.lead())
                } else {
                    None
                }
            },
            Phase::Create(_) => Some("creating pull request".to_owned()),
            Phase::Body { .. } => Some("noting parent in PR description".to_owned()),
            Phase::SetBody { .. } => Some("noting parent in PR description".to_owned()),
            _ => None,
        }
    }

    /// Goes on with what came back.
    pub fn step(self, event: Event) -> (r: Push)
        ensures
            r.deep_view() == push_next(self.deep_view(), event.deep_view()),
    {
        let x = self.setup;
        match (self.phase, event) {
            (Phase::State(read), e) => x.after_state(read.step(e)),
            (Phase::Local { here, query }, e) => x.after_local(here, query.step(e)),
            (Phase::Fork { here, parent, query }, e) => x.after_fork(here, parent, query.step(e)),
            (Phase::Remote { here, target, query }, e) => x.after_remote(
                here,
                target,
                query.step(e),
            ),
            (Phase::OfferDelete(aim), Event::Answer(yes)) => x.after_delete_answer(aim, yes),
            (Phase::OfferRescue(aim), Event::Answer(yes)) => x.after_rescue_answer(aim, yes),
            (Phase::Fetch(aim), Event::Ran(reply)) => x.after_fetch(aim, reply),
            (Phase::ListPrs(aim), Event::Ran(reply)) => x.after_list(aim, reply),
            (Phase::DecodePrs { aim, json }, Event::Prs(prs)) => x.after_prs(aim, json, prs),
            (Phase::Search { aim, search }, e) => x.after_search(aim, search.step(e)),
            (Phase::Enable(p), Event::Ran(reply)) => x.after_enable(p, reply),
            (Phase::Push(p), Event::Ran(reply)) => x.after_push(p, reply),
            (Phase::Create(p), Event::Ran(reply)) => x.after_create(p, reply),
            (Phase::Body { plan, created }, Event::Ran(reply)) => x.append_stack_footer(
                plan,
                created,
                reply,
            ),
            (Phase::SetBody { plan, created, body }, Event::Ran(reply)) => x.after_body_set(
                plan,
                created,
                body,
                reply,
            ),
            (Phase::Finished(r), _) => x.quietly(Phase::Finished(r)),
            _ => x.fail(step::unexpected()),
        }
    }
}

} // verus!
