//! `doctor` -- read-only environment check for the `push` workflow.
//!
//! Walks the prerequisites that `push` would otherwise hit one at a time
//! during a real run, and reports them up front as Pass / Warn / Fail.
//! Does not fetch, push, or mutate anything on GitHub. The command fails if
//! any check failed; warnings are advisory.

use vstd::prelude::*;
use vstd::string::*;

use crate::command;
use crate::command::{Command, Error, Program, Reply};
use crate::gh;
use crate::gh::{RepoInfo, RepoQuery};
use crate::git;
use crate::git::{RepoState, StateRead};
use crate::report;
use crate::report::{Outcome, Report};
use crate::stack;
use crate::step;
use crate::step::{Action, Event};
use crate::target;
use crate::target::{MergeTarget, RemoteQuery};
use crate::text;
use crate::ui;
use crate::ui::Palette;

verus! {

// --- probes -----------------------------------------------------------------

/// The version line that a tool prints: its first line, trimmed.
pub open spec fn version_of(out: Seq<char>) -> Seq<char> {
    let lines = text::line_seq(out);
    if lines.len() == 0 {
        seq![]
    } else {
        text::trimmed(lines[0])
    }
}

/// The verdict on a tool that printed its version.
pub open spec fn version_outcome(out: Seq<char>) -> report::OutcomeView {
    if version_of(out).len() == 0 {
        report::pass()
    } else {
        report::pass_with(version_of(out))
    }
}

/// The verdict on a tool, by what came of asking for its version.
pub open spec fn tool_outcome(p: Program, r: command::ReplyView) -> report::OutcomeView {
    match r {
        command::ReplyView::Exited { code: Some(0), stdout, .. } => version_outcome(
            command::lossy_utf8(stdout),
        ),
        command::ReplyView::Exited { .. } => report::fail(
            "`"@ + command::program_name(p) + " --version` exited non-zero"@,
        ),
        command::ReplyView::NotRun(_) => report::fail(
            "`"@ + command::program_name(p) + "` not found on PATH. Install it and retry."@,
        ),
    }
}

/// The verdict on a tool that printed `out` as its version.
pub fn probe_version(out: &str) -> (r: Outcome)
    ensures
        r.deep_view() == version_outcome(out@),
{
    let lines = text::lines(out);
    if lines.len() == 0 {
        return Outcome::pass();
    }
    assert(lines.deep_view()[0] == lines@[0]@);
    let line = text::trim(lines[0].as_str());
    if line.is_empty() {
        Outcome::pass()
    } else {
        Outcome::pass_with(line)
    }
}

/// The verdict on a tool, by what came of asking for its version.
pub fn probe_tool(program: Program, reply: &Reply) -> (r: Outcome)
    ensures
        r.deep_view() == tool_outcome(program, reply.deep_view()),
{
    match reply {
        Reply::Exited { stdout, .. } => {
            if reply.success() {
                let out = command::text_of_bytes(stdout);
                probe_version(out.as_str())
            } else {
                let mut detail = "`".to_owned();
                detail.append(program.name());
                detail.append(" --version` exited non-zero");
                Outcome::fail(detail.as_str())
            }
        },
        Reply::NotRun(_) => {
            let mut detail = "`".to_owned();
            detail.append(program.name());
            detail.append("` not found on PATH. Install it and retry.");
            Outcome::fail(detail.as_str())
        },
    }
}

/// The verdict on `gh`'s authentication.
pub open spec fn auth_outcome(r: command::ReplyView) -> report::OutcomeView {
    match r {
        command::ReplyView::NotRun(cause) => report::fail(
            "could not invoke `gh auth status`: "@ + cause,
        ),
        command::ReplyView::Exited { code: Some(0), .. } => report::pass(),
        command::ReplyView::Exited { stderr, .. } => {
            let said = command::output_text(stderr);
            report::fail(
                (if said.len() == 0 {
                    "not authenticated"@
                } else {
                    said
                }) + "\nFix: gh auth login"@,
            )
        },
    }
}

/// The verdict on `gh`'s authentication, by what came of `gh auth status`.
pub fn probe_gh_auth(reply: &Reply) -> (r: Outcome)
    ensures
        r.deep_view() == auth_outcome(reply.deep_view()),
{
    match reply {
        Reply::NotRun(cause) => {
            let mut detail = "could not invoke `gh auth status`: ".to_owned();
            detail.append(cause.as_str());
            Outcome::fail(detail.as_str())
        },
        Reply::Exited { stderr, .. } => {
            if reply.success() {
                return Outcome::pass();
            }
            let said = command::read_output(stderr);
            let mut detail = if said.as_str().is_empty() {
                "not authenticated".to_owned()
            } else {
                said
            };
            detail.append("\nFix: gh auth login");
            Outcome::fail(detail.as_str())
        },
    }
}

/// The verdict on the working directory.
pub open spec fn in_repo_outcome(r: command::ReplyView) -> report::OutcomeView {
    if command::succeeded(r) {
        report::pass()
    } else {
        report::fail("not inside a git working tree (run from a clone)"@)
    }
}

/// The verdict on the working directory, by what came of asking for its git
/// directory.
pub fn probe_in_repo(reply: &Reply) -> (r: Outcome)
    ensures
        r.deep_view() == in_repo_outcome(reply.deep_view()),
{
    if reply.success() {
        Outcome::pass()
    } else {
        Outcome::fail("not inside a git working tree (run from a clone)")
    }
}

/// The verdict on operations in progress.
pub open spec fn in_progress_outcome(state: git::RepoStateView) -> report::OutcomeView {
    match state.in_progress {
        None => report::pass(),
        Some(op) => report::fail(
            "a "@ + git::operation_label(op)
                + " is in progress; resolve it before running `push`"@,
        ),
    }
}

/// The verdict on operations in progress.
pub fn probe_in_progress(state: &RepoState) -> (r: Outcome)
    ensures
        r.deep_view() == in_progress_outcome(state.deep_view()),
{
    match state.in_progress {
        None => Outcome::pass(),
        Some(op) => {
            let mut detail = "a ".to_owned();
            detail.append(op.label());
            detail.append(" is in progress; resolve it before running `push`");
            Outcome::fail(detail.as_str())
        },
    }
}

/// The verdict on the current branch.
pub open spec fn branch_outcome(state: git::RepoStateView) -> report::OutcomeView {
    match state.current_branch {
        Some(b) => report::pass_with(b),
        None => report::fail(
            "HEAD is detached; `push` requires a named branch. Check out (or create) a branch first."@,
        ),
    }
}

/// The verdict on the current branch.
pub fn probe_branch(state: &RepoState) -> (r: Outcome)
    ensures
        r.deep_view() == branch_outcome(state.deep_view()),
{
    match &state.current_branch {
        Some(b) => Outcome::pass_with(b.as_str()),
        None => Outcome::fail(
            "HEAD is detached; `push` requires a named branch. Check out (or create) a branch first.",
        ),
    }
}

/// The verdict on the merge target's setting.
pub open spec fn delete_on_merge_outcome(t: gh::RepoInfoView) -> report::OutcomeView {
    if t.delete_branch_on_merge {
        report::pass()
    } else {
        report::warn(
            "off on "@ + t.name_with_owner
                + "; once a stack PR merges, the next PR will not auto-retarget. Enable with:\n  gh api -X PATCH /repos/"@
                + t.name_with_owner + " -f delete_branch_on_merge=true"@,
        )
    }
}

/// The verdict on the merge target's setting.
pub fn probe_delete_on_merge(target: &RepoInfo) -> (r: Outcome)
    ensures
        r.deep_view() == delete_on_merge_outcome(target.deep_view()),
{
    if target.delete_branch_on_merge {
        return Outcome::pass();
    }
    let mut detail = "off on ".to_owned();
    detail.append(target.name_with_owner.as_str());
    detail.append(
        "; once a stack PR merges, the next PR will not auto-retarget. Enable with:\n  gh api -X PATCH /repos/",
    );
    detail.append(target.name_with_owner.as_str());
    detail.append(" -f delete_branch_on_merge=true");
    Outcome::warn(detail.as_str())
}

/// The verdict on the merge-target remote.
pub open spec fn target_remote_outcome(
    resolved: Result<Seq<char>, Seq<char>>,
) -> report::OutcomeView {
    match resolved {
        Ok(name) => report::pass_with(name),
        Err(e) => report::fail(e),
    }
}

/// The verdict on the merge-target remote.
pub fn probe_target_remote(resolved: &Result<String, Error>) -> (r: Outcome)
    ensures
        r.deep_view() == target_remote_outcome(command::seen(*resolved)),
{
    match resolved {
        Ok(name) => Outcome::pass_with(name.as_str()),
        Err(e) => Outcome::fail(e.message.as_str()),
    }
}

/// The verdict on the branch being a feature branch.
pub open spec fn not_default_outcome(
    state: git::RepoStateView,
    t: gh::RepoInfoView,
) -> report::OutcomeView {
    match state.current_branch {
        None => report::warn("HEAD is detached (see above)"@),
        Some(branch) => if branch == t.default_branch {
            report::warn(
                "current branch `"@ + branch + "` is the default branch of "@ + t.name_with_owner
                    + "; `push` would refuse to run here. Create a feature branch first."@,
            )
        } else {
            report::pass_with(branch)
        },
    }
}

/// The verdict on the branch being a feature branch.
pub fn probe_not_default(state: &RepoState, target: &RepoInfo) -> (r: Outcome)
    ensures
        r.deep_view() == not_default_outcome(state.deep_view(), target.deep_view()),
{
    match &state.current_branch {
        // Already reported as Fail by the detached-HEAD check; suppress here.
        None => Outcome::warn("HEAD is detached (see above)"),
        Some(branch) => {
            if text::same(branch.as_str(), target.default_branch.as_str()) {
                let mut detail = "current branch `".to_owned();
                detail.append(branch.as_str());
                detail.append("` is the default branch of ");
                detail.append(target.name_with_owner.as_str());
                detail.append(
                    "; `push` would refuse to run here. Create a feature branch first.",
                );
                Outcome::warn(detail.as_str())
            } else {
                Outcome::pass_with(branch.as_str())
            }
        },
    }
}

/// The verdict on the branch's upstream.
pub open spec fn upstream_outcome(
    state: git::RepoStateView,
    resolved: Result<Seq<char>, Seq<char>>,
) -> report::OutcomeView {
    match resolved {
        Err(_) => report::warn("merge-target remote unresolved (see above)"@),
        Ok(target_remote) => match state.upstream {
            None => report::pass_with("no upstream set yet (fresh branch)"@),
            Some((remote, _)) => if remote == target_remote {
                report::pass_with("tracks `"@ + remote + "`"@)
            } else {
                report::warn(
                    "branch tracks `"@ + remote + "` but merge target is `"@ + target_remote
                        + "`. `push` will offer a wrong-remote rescue."@,
                )
            },
        },
    }
}

/// The verdict on the branch's upstream.
pub fn probe_upstream(state: &RepoState, resolved: &Result<String, Error>) -> (r: Outcome)
    ensures
        r.deep_view() == upstream_outcome(state.deep_view(), command::seen(*resolved)),
{
    match resolved {
        Err(_) => Outcome::warn("merge-target remote unresolved (see above)"),
        Ok(target_remote) => match &state.upstream {
            None => Outcome::pass_with("no upstream set yet (fresh branch)"),
            Some((remote, _)) => {
                if text::same(remote.as_str(), target_remote.as_str()) {
                    let mut inline = "tracks `".to_owned();
                    inline.append(remote.as_str());
                    inline.append("`");
                    Outcome::pass_with(inline.as_str())
                } else {
                    let mut detail = "branch tracks `".to_owned();
                    detail.append(remote.as_str());
                    detail.append("` but merge target is `");
                    detail.append(target_remote.as_str());
                    detail.append("`. `push` will offer a wrong-remote rescue.");
                    Outcome::warn(detail.as_str())
                }
            },
        },
    }
}

// --- the command under way --------------------------------------------------

/// How far the command has come, and what it waits for.
#[derive(Debug)]
#[allow(inconsistent_fields)]
pub enum Phase {
    /// `git` is asked for its version.
    GitTool,
    /// `gh` is asked for its version.
    GhTool { git_ok: bool },
    /// `gh` is asked whether it is authenticated.
    GhAuth { git_ok: bool },
    /// `git` is asked for the git directory.
    InRepo,
    /// The working repo is read.
    State(StateRead),
    /// The local repository is looked up on GitHub.
    Local { state: RepoState, query: RepoQuery },
    /// The parent of a fork is looked up on GitHub.
    Fork { state: RepoState, parent: String, query: RepoQuery },
    /// The merge-target remote is looked for.
    Remote { state: RepoState, target: RepoInfo, fork: bool, query: RemoteQuery },
    /// The merge-target remote is looked for again, to compare the upstream.
    Upstream { state: RepoState, query: RemoteQuery },
    /// The command is over; it failed where a check failed.
    Finished { failed: bool },
}

/// The model of a [`Phase`].
#[verifier::ext_equal]
#[allow(inconsistent_fields)]
pub enum PhaseView {
    GitTool,
    GhTool { git_ok: bool },
    GhAuth { git_ok: bool },
    InRepo,
    State(git::StateReadView),
    Local { state: git::RepoStateView, query: gh::RepoQueryView },
    Fork { state: git::RepoStateView, parent: Seq<char>, query: gh::RepoQueryView },
    Remote {
        state: git::RepoStateView,
        target: gh::RepoInfoView,
        fork: bool,
        query: target::RemoteQueryView,
    },
    Upstream { state: git::RepoStateView, query: target::RemoteQueryView },
    Finished { failed: bool },
}

impl DeepView for Phase {
    type V = PhaseView;

    open spec fn deep_view(&self) -> PhaseView {
        match self {
            Phase::GitTool => PhaseView::GitTool,
            Phase::GhTool { git_ok } => PhaseView::GhTool { git_ok: *git_ok },
            Phase::GhAuth { git_ok } => PhaseView::GhAuth { git_ok: *git_ok },
            Phase::InRepo => PhaseView::InRepo,
            Phase::State(read) => PhaseView::State(read.deep_view()),
            Phase::Local { state, query } => PhaseView::Local {
                state: state.deep_view(),
                query: query.deep_view(),
            },
            Phase::Fork { state, parent, query } => PhaseView::Fork {
                state: state.deep_view(),
                parent: parent@,
                query: query.deep_view(),
            },
            Phase::Remote { state, target, fork, query } => PhaseView::Remote {
                state: state.deep_view(),
                target: target.deep_view(),
                fork: *fork,
                query: query.deep_view(),
            },
            Phase::Upstream { state, query } => PhaseView::Upstream {
                state: state.deep_view(),
                query: query.deep_view(),
            },
            Phase::Finished { failed } => PhaseView::Finished { failed: *failed },
        }
    }
}

/// The `doctor` command under way. The report's text is what to print before
/// the pending action is performed.
#[derive(Debug)]
pub struct Doctor {
    pub report: Report,
    pub phase: Phase,
}

/// The model of a [`Doctor`].
#[verifier::ext_equal]
pub struct DoctorView {
    pub report: report::ReportView,
    pub phase: PhaseView,
}

impl DeepView for Doctor {
    type V = DoctorView;

    open spec fn deep_view(&self) -> DoctorView {
        DoctorView { report: self.report.deep_view(), phase: self.phase.deep_view() }
    }
}

// --- commands ---------------------------------------------------------------

/// The command that asks a tool for its version.
pub open spec fn version_command(p: Program) -> command::CommandView {
    command::CommandView { program: p, args: seq!["--version"@], inherit: false }
}

/// Asks a tool for its version.
fn version(program: Program) -> (r: Command)
    ensures
        r.deep_view() == version_command(program),
{
    Command { program, args: command::words(&["--version"]), inherit: false }
}

/// The command that asks whether `gh` is authenticated.
pub open spec fn auth_command() -> command::CommandView {
    command::gh(seq!["auth"@, "status"@])
}

/// Asks whether `gh` is authenticated.
fn auth_status() -> (r: Command)
    ensures
        r.deep_view() == auth_command(),
{
    Command::gh(command::words(&["auth", "status"]))
}

// --- check groups -----------------------------------------------------------

/// The command is over: the report is summed up, and fails where a check did.
#[verifier::opaque]
pub open spec fn at_end(r: report::ReportView) -> DoctorView {
    DoctorView {
        report: report::summed_up(r),
        phase: PhaseView::Finished { failed: r.fail > 0 },
    }
}

/// The tools are checked; without `git` there is nothing more to check.
#[verifier::opaque]
pub open spec fn after_tools(r: report::ReportView, git_ok: bool) -> DoctorView {
    if git_ok {
        DoctorView { report: report::sectioned(r, "Repository"@), phase: PhaseView::InRepo }
    } else {
        at_end(r)
    }
}

/// `git` has answered.
#[verifier::opaque]
pub open spec fn on_git_tool(r: report::ReportView, reply: command::ReplyView) -> DoctorView {
    let o = tool_outcome(Program::Git, reply);
    DoctorView {
        report: report::checked(r, "`git` on PATH"@, o),
        phase: PhaseView::GhTool { git_ok: o.status == report::Status::Pass },
    }
}

/// `gh` has answered; only where it is there, its authentication is checked.
#[verifier::opaque]
pub open spec fn on_gh_tool(
    r: report::ReportView,
    git_ok: bool,
    reply: command::ReplyView,
) -> DoctorView {
    let o = tool_outcome(Program::Gh, reply);
    let next = report::checked(r, "`gh` on PATH"@, o);
    if o.status == report::Status::Pass {
        DoctorView { report: next, phase: PhaseView::GhAuth { git_ok } }
    } else {
        after_tools(next, git_ok)
    }
}

/// `gh auth status` has answered.
#[verifier::opaque]
pub open spec fn on_gh_auth(
    r: report::ReportView,
    git_ok: bool,
    reply: command::ReplyView,
) -> DoctorView {
    after_tools(report::checked(r, "`gh` authenticated"@, auth_outcome(reply)), git_ok)
}

/// The question for the git directory has been answered.
#[verifier::opaque]
pub open spec fn on_in_repo(r: report::ReportView, reply: command::ReplyView) -> DoctorView {
    let o = in_repo_outcome(reply);
    let next = report::checked(r, "inside a git repository"@, o);
    if o.status == report::Status::Pass {
        DoctorView { report: next, phase: PhaseView::State(git::StateReadView::GitDir) }
    } else {
        at_end(next)
    }
}

/// The reading of the working repo has gone on.
#[verifier::opaque]
pub open spec fn on_state(r: report::ReportView, read: git::StateReadView) -> DoctorView {
    match read {
        git::StateReadView::Done(Ok(state)) => {
            let commits = report::checked(r, "repository has commits"@, report::pass());
            let operation = report::checked(
                commits,
                "no long-running git operation"@,
                in_progress_outcome(state),
            );
            let branch = report::checked(
                operation,
                "HEAD is on a branch (not detached)"@,
                branch_outcome(state),
            );
            DoctorView {
                report: report::sectioned(branch, "GitHub"@),
                phase: PhaseView::Local { state, query: gh::RepoQueryView::Ask { name: None } },
            }
        },
        git::StateReadView::Done(Err(e)) => at_end(
            report::checked(r, "repository has commits"@, report::fail(e)),
        ),
        _ => DoctorView { report: r, phase: PhaseView::State(read) },
    }
}

/// The label of the check of the local repository.
pub open spec fn local_label() -> Seq<char> {
    "`gh repo view` succeeds (GitHub remote configured)"@
}

/// The label of the check of the merge target.
pub open spec fn target_label() -> Seq<char> {
    "merge target identified"@
}

/// The merge target is known.
#[verifier::opaque]
pub open spec fn at_target(
    r: report::ReportView,
    state: git::RepoStateView,
    is_fork: bool,
    t: gh::RepoInfoView,
) -> DoctorView {
    let inline = if is_fork {
        t.name_with_owner + " (this clone is a fork)"@
    } else {
        t.name_with_owner
    };
    let identified = report::checked(r, target_label(), report::pass_with(inline));
    DoctorView {
        report: report::checked(
            identified,
            "`delete_branch_on_merge` enabled on merge target"@,
            delete_on_merge_outcome(t),
        ),
        phase: PhaseView::Remote {
            state,
            target: t,
            fork: is_fork,
            query: target::RemoteQueryView::Configured {
                target: t.name_with_owner,
                fork: is_fork,
            },
        },
    }
}

/// The lookup of the local repository has gone on.
#[verifier::opaque]
pub open spec fn on_local(
    r: report::ReportView,
    state: git::RepoStateView,
    query: gh::RepoQueryView,
) -> DoctorView {
    match query {
        gh::RepoQueryView::Done(Ok(local)) => {
            let found = report::checked(
                r,
                local_label(),
                report::pass_with(local.name_with_owner),
            );
            match target::merge_target(local) {
                Ok(target::MergeTargetView::Own(info)) => at_target(found, state, false, info),
                Ok(target::MergeTargetView::Parent(parent)) => DoctorView {
                    report: found,
                    phase: PhaseView::Fork {
                        state,
                        parent,
                        query: gh::RepoQueryView::Ask { name: Some(parent) },
                    },
                },
                Err(e) => at_end(report::checked(found, target_label(), report::fail(e))),
            }
        },
        gh::RepoQueryView::Done(Err(e)) => at_end(
            report::checked(r, local_label(), report::fail(e)),
        ),
        _ => DoctorView { report: r, phase: PhaseView::Local { state, query } },
    }
}

/// The lookup of a fork's parent has gone on.
#[verifier::opaque]
pub open spec fn on_fork(
    r: report::ReportView,
    state: git::RepoStateView,
    parent: Seq<char>,
    query: gh::RepoQueryView,
) -> DoctorView {
    match query {
        gh::RepoQueryView::Done(Ok(info)) => at_target(r, state, true, info),
        gh::RepoQueryView::Done(Err(e)) => at_end(
            report::checked(
                r,
                target_label(),
                report::fail(command::in_context(stack::fork_context(parent), e)),
            ),
        ),
        _ => DoctorView { report: r, phase: PhaseView::Fork { state, parent, query } },
    }
}

/// The search for the merge-target remote has gone on. The branch is checked
/// only where there is one.
#[verifier::opaque]
pub open spec fn on_remote(
    r: report::ReportView,
    state: git::RepoStateView,
    t: gh::RepoInfoView,
    fork: bool,
    query: target::RemoteQueryView,
) -> DoctorView {
    match query {
        target::RemoteQueryView::Done(resolved) => {
            let remote = report::checked(
                r,
                "merge-target remote uniquely resolvable"@,
                target_remote_outcome(resolved),
            );
            if state.current_branch is Some {
                DoctorView {
                    report: report::checked(
                        report::sectioned(remote, "Current branch"@),
                        "on a feature branch (not the default branch)"@,
                        not_default_outcome(state, t),
                    ),
                    phase: PhaseView::Upstream {
                        state,
                        query: target::RemoteQueryView::Configured {
                            target: t.name_with_owner,
                            fork,
                        },
                    },
                }
            } else {
                at_end(remote)
            }
        },
        _ => DoctorView { report: r, phase: PhaseView::Remote { state, target: t, fork, query } },
    }
}

/// The second search for the merge-target remote has gone on.
#[verifier::opaque]
pub open spec fn on_upstream(
    r: report::ReportView,
    state: git::RepoStateView,
    query: target::RemoteQueryView,
) -> DoctorView {
    match query {
        target::RemoteQueryView::Done(resolved) => at_end(
            report::checked(
                r,
                "upstream tracks the merge-target remote"@,
                upstream_outcome(state, resolved),
            ),
        ),
        _ => DoctorView { report: r, phase: PhaseView::Upstream { state, query } },
    }
}

// --- the command ------------------------------------------------------------

/// The command at its beginning.
pub open spec fn doctor_start(p: Palette) -> DoctorView {
    DoctorView {
        report: report::sectioned(
            report::ReportView {
                palette: p,
                pass: 0,
                warn: 0,
                fail: 0,
                text: ui::styled(ui::bold_of(p), "stackymcstackface doctor"@) + "\n"@,
            },
            "Tools"@,
        ),
        phase: PhaseView::GitTool,
    }
}

/// What the command waits for.
pub open spec fn doctor_action(s: DoctorView) -> Option<step::ActionView> {
    match s.phase {
        PhaseView::GitTool => Some(step::ActionView::Run(version_command(Program::Git))),
        PhaseView::GhTool { .. } => Some(step::ActionView::Run(version_command(Program::Gh))),
        PhaseView::GhAuth { .. } => Some(step::ActionView::Run(auth_command())),
        PhaseView::InRepo => Some(step::ActionView::Run(git::git_dir_command())),
        PhaseView::State(read) => git::state_read_action(read),
        PhaseView::Local { query, .. } => gh::repo_query_action(query),
        PhaseView::Fork { query, .. } => gh::repo_query_action(query),
        PhaseView::Remote { query, .. } => target::remote_query_action(query),
        PhaseView::Upstream { query, .. } => target::remote_query_action(query),
        PhaseView::Finished { .. } => None,
    }
}

/// The reply that an event carries; any other event counts as a program that
/// could not be run.
pub open spec fn reply_in(e: step::EventView) -> command::ReplyView {
    match e {
        step::EventView::Ran(reply) => reply,
        _ => command::ReplyView::NotRun(step::unexpected_text()),
    }
}

/// The report once its text has been shown.
pub open spec fn shown(r: report::ReportView) -> report::ReportView {
    report::ReportView { text: seq![], ..r }
}

/// How the command goes on.
pub open spec fn doctor_next(s: DoctorView, e: step::EventView) -> DoctorView {
    let r = shown(s.report);
    match s.phase {
        PhaseView::GitTool => on_git_tool(r, reply_in(e)),
        PhaseView::GhTool { git_ok } => on_gh_tool(r, git_ok, reply_in(e)),
        PhaseView::GhAuth { git_ok } => on_gh_auth(r, git_ok, reply_in(e)),
        PhaseView::InRepo => on_in_repo(r, reply_in(e)),
        PhaseView::State(read) => on_state(r, git::state_read_next(read, e)),
        PhaseView::Local { state, query } => on_local(r, state, gh::repo_query_next(query, e)),
        PhaseView::Fork { state, parent, query } => on_fork(
            r,
            state,
            parent,
            gh::repo_query_next(query, e),
        ),
        PhaseView::Remote { state, target, fork, query } => on_remote(
            r,
            state,
            target,
            fork,
            target::remote_query_next(query, e),
        ),
        PhaseView::Upstream { state, query } => on_upstream(
            r,
            state,
            target::remote_query_next(query, e),
        ),
        PhaseView::Finished { failed } => DoctorView {
            report: r,
            phase: PhaseView::Finished { failed },
        },
    }
}

/// The checks that can have been made when a phase is reached.
pub open spec fn checks_before(p: PhaseView) -> int {
    match p {
        PhaseView::GitTool => 0,
        PhaseView::GhTool { .. } => 1,
        PhaseView::GhAuth { .. } => 2,
        PhaseView::InRepo => 3,
        PhaseView::State(_) => 4,
        PhaseView::Local { .. } => 7,
        PhaseView::Fork { .. } => 8,
        PhaseView::Remote { .. } => 10,
        PhaseView::Upstream { .. } => 12,
        PhaseView::Finished { .. } => 13,
    }
}

/// No more checks have been counted than there are before the phase.
pub open spec fn doctor_wf(s: DoctorView) -> bool {
    report::checks_made(s.report) <= checks_before(s.phase)
}

/// Begin the `doctor` command.
pub fn run(palette: Palette) -> (r: Doctor)
    ensures
        r.deep_view() == doctor_start(palette),
        doctor_wf(r.deep_view()),
{
    let mut report = Report::new(palette);
    report.text = palette.bold().apply("stackymcstackface doctor");
    report.text.append("\n");
    report.section("Tools");
    Doctor { report, phase: Phase::GitTool }
}

/// The command is over.
fn finish(report: Report) -> (r: Doctor)
    ensures
        r.deep_view() == at_end(report.deep_view()),
{
    proof {
        reveal(at_end);
    }
    let mut report = report;
    let failed = report.has_fail();
    report.print_summary();
    Doctor { report, phase: Phase::Finished { failed } }
}

/// What follows the tool checks.
fn leave_tools(report: Report, git_ok: bool) -> (r: Doctor)
    ensures
        r.deep_view() == after_tools(report.deep_view(), git_ok),
{
    proof {
        reveal(after_tools);
    }
    if !git_ok {
        return finish(report);
    }
    let mut report = report;
    report.section("Repository");
    Doctor { report, phase: Phase::InRepo }
}

/// The checks of the tools. Whether `git` is on PATH gates everything else;
/// the other tool checks always run, because their failure mode is informative
/// on its own.
pub fn run_tool_checks(report: Report, phase: Phase, reply: &Reply) -> (r: Doctor)
    requires
        report::has_room(report.deep_view(), 1),
        phase is GitTool || phase is GhTool || phase is GhAuth,
    ensures
        r.deep_view() == match phase {
            Phase::GhTool { git_ok } => on_gh_tool(report.deep_view(), git_ok, reply.deep_view()),
            Phase::GhAuth { git_ok } => on_gh_auth(report.deep_view(), git_ok, reply.deep_view()),
            _ => on_git_tool(report.deep_view(), reply.deep_view()),
        },
{
    proof {
        reveal(on_git_tool);
        reveal(on_gh_tool);
        reveal(on_gh_auth);
    }
    let mut report = report;
    match phase {
        Phase::GhTool { git_ok } => {
            if report.check("`gh` on PATH", probe_tool(Program::Gh, reply)) {
                Doctor { report, phase: Phase::GhAuth { git_ok } }
            } else {
                leave_tools(report, git_ok)
            }
        },
        Phase::GhAuth { git_ok } => {
            report.check("`gh` authenticated", probe_gh_auth(reply));
            leave_tools(report, git_ok)
        },
        _ => {
            let git_ok = report.check("`git` on PATH", probe_tool(Program::Git, reply));
            Doctor { report, phase: Phase::GhTool { git_ok } }
        },
    }
}

/// The check of the working directory.
fn run_in_repo_check(report: Report, reply: &Reply) -> (r: Doctor)
    requires
        report::has_room(report.deep_view(), 1),
    ensures
        r.deep_view() == on_in_repo(report.deep_view(), reply.deep_view()),
{
    proof {
        reveal(on_in_repo);
    }
    let mut report = report;
    if report.check("inside a git repository", probe_in_repo(reply)) {
        Doctor { report, phase: Phase::State(StateRead::GitDir) }
    } else {
        finish(report)
    }
}

/// The checks of the working repo, once it is read.
pub fn run_repo_checks(report: Report, read: StateRead) -> (r: Doctor)
    requires
        report::has_room(report.deep_view(), 3),
    ensures
        r.deep_view() == on_state(report.deep_view(), read.deep_view()),
{
    proof {
        reveal(on_state);
    }
    let mut report = report;
    match read {
        StateRead::Done(Ok(state)) => {
            report.check("repository has commits", Outcome::pass());
            report.check("no long-running git operation", probe_in_progress(&state));
            report.check("HEAD is on a branch (not detached)", probe_branch(&state));
            report.section("GitHub");
            Doctor { report, phase: Phase::Local { state, query: RepoQuery::Ask { name: None } } }
        },
        StateRead::Done(Err(e)) => {
            report.check("repository has commits", Outcome::fail(e.message.as_str()));
            finish(report)
        },
        other => Doctor { report, phase: Phase::State(other) },
    }
}

/// The merge target is known.
fn reach_target(report: Report, state: RepoState, is_fork: bool, target: RepoInfo) -> (r: Doctor)
    requires
        report::has_room(report.deep_view(), 2),
    ensures
        r.deep_view() == at_target(
            report.deep_view(),
            state.deep_view(),
            is_fork,
            target.deep_view(),
        ),
{
    proof {
        reveal(at_target);
    }
    let mut report = report;
    let mut inline = target.name_with_owner.clone();
    if is_fork {
        inline.append(" (this clone is a fork)");
    }
    report.check("merge target identified", Outcome::pass_with(inline.as_str()));
    report.check(
        "`delete_branch_on_merge` enabled on merge target",
        probe_delete_on_merge(&target),
    );
    let query = RemoteQuery::Configured {
        target: target.name_with_owner.clone(),
        fork: is_fork,
    };
    Doctor { report, phase: Phase::Remote { state, target, fork: is_fork, query } }
}

/// The checks on GitHub, as far as the local repository has been looked up.
pub fn run_github_checks(report: Report, state: RepoState, query: RepoQuery) -> (r: Doctor)
    requires
        report::has_room(report.deep_view(), 3),
    ensures
        r.deep_view() == on_local(report.deep_view(), state.deep_view(), query.deep_view()),
{
    proof {
        reveal(on_local);
    }
    let mut report = report;
    match query {
        RepoQuery::Done(Ok(local)) => {
            report.check(
                "`gh repo view` succeeds (GitHub remote configured)",
                Outcome::pass_with(local.name_with_owner.as_str()),
            );
            match target::resolve_merge_target(&local) {
                Ok(MergeTarget::Own(info)) => reach_target(report, state, false, info),
                Ok(MergeTarget::Parent(parent)) => {
                    let query = RepoQuery::Ask { name: Some(parent.clone()) };
                    Doctor { report, phase: Phase::Fork { state, parent, query } }
                },
                Err(e) => {
                    report.check("merge target identified", Outcome::fail(e.message.as_str()));
                    finish(report)
                },
            }
        },
        RepoQuery::Done(Err(e)) => {
            report.check(
                "`gh repo view` succeeds (GitHub remote configured)",
                Outcome::fail(e.message.as_str()),
            );
            finish(report)
        },
        other => Doctor { report, phase: Phase::Local { state, query: other } },
    }
}

/// The checks on GitHub, as far as the parent of a fork has been looked up.
fn run_fork_checks(report: Report, state: RepoState, parent: String, query: RepoQuery) -> (r: Doctor)
    requires
        report::has_room(report.deep_view(), 2),
    ensures
        r.deep_view() == on_fork(
            report.deep_view(),
            state.deep_view(),
            parent@,
            query.deep_view(),
        ),
{
    proof {
        reveal(on_fork);
    }
    match query {
        RepoQuery::Done(Ok(info)) => reach_target(report, state, true, info),
        RepoQuery::Done(Err(e)) => {
            let mut report = report;
            let mut context = "could not load merge-target repo `".to_owned();
            context.append(parent.as_str());
            context.append("`");
            let e = e.context(context.as_str());
            report.check("merge target identified", Outcome::fail(e.message.as_str()));
            finish(report)
        },
        other => Doctor { report, phase: Phase::Fork { state, parent, query: other } },
    }
}

/// The check of the merge-target remote, and the first of the current branch.
fn run_remote_check(
    report: Report,
    state: RepoState,
    target: RepoInfo,
    fork: bool,
    query: RemoteQuery,
) -> (r: Doctor)
    requires
        report::has_room(report.deep_view(), 2),
    ensures
        r.deep_view() == on_remote(
            report.deep_view(),
            state.deep_view(),
            target.deep_view(),
            fork,
            query.deep_view(),
        ),
{
    proof {
        reveal(on_remote);
    }
    let mut report = report;
    match query {
        RemoteQuery::Done(resolved) => {
            report.check(
                "merge-target remote uniquely resolvable",
                probe_target_remote(&resolved),
            );
            if state.current_branch.is_none() {
                return finish(report);
            }
            report.section("Current branch");
            report.check(
                "on a feature branch (not the default branch)",
                probe_not_default(&state, &target),
            );
            let query = RemoteQuery::Configured { target: target.name_with_owner, fork };
            Doctor { report, phase: Phase::Upstream { state, query } }
        },
        other => Doctor { report, phase: Phase::Remote { state, target, fork, query: other } },
    }
}

/// The last check of the current branch.
pub fn run_branch_checks(report: Report, state: RepoState, query: RemoteQuery) -> (r: Doctor)
    requires
        report::has_room(report.deep_view(), 1),
    ensures
        r.deep_view() == on_upstream(report.deep_view(), state.deep_view(), query.deep_view()),
{
    proof {
        reveal(on_upstream);
    }
    match query {
        RemoteQuery::Done(resolved) => {
            let mut report = report;
            report.check(
                "upstream tracks the merge-target remote",
                probe_upstream(&state, &resolved),
            );
            finish(report)
        },
        other => Doctor { report, phase: Phase::Upstream { state, query: other } },
    }
}

/// The reply that an event carries.
fn into_reply(event: Event) -> (r: Reply)
    ensures
        r.deep_view() == reply_in(event.deep_view()),
{
    match event {
        Event::Ran(reply) => reply,
        _ => Reply::NotRun(step::unexpected().message),
    }
}

impl Doctor {
    /// What the command waits for; `None` once it is over.
    pub fn action(&self) -> (r: Option<Action>)
        ensures
            r.deep_view() == doctor_action(self.deep_view()),
    {
        match &self.phase {
            Phase::GitTool => Some(Action::Run(version(Program::Git))),
            Phase::GhTool { .. } => Some(Action::Run(version(Program::Gh))),
            Phase::GhAuth { .. } => Some(Action::Run(auth_status())),
            Phase::InRepo => Some(Action::Run(git::git_dir())),
            Phase::State(read) => read.action(),
            Phase::Local { query, .. } => query.action(),
            Phase::Fork { query, .. } => query.action(),
            Phase::Remote { query, .. } => query.action(),
            Phase::Upstream { query, .. } => query.action(),
            Phase::Finished { .. } => None,
        }
    }

    /// Goes on with what came back.
    pub fn step(self, event: Event) -> (r: Doctor)
        requires
            doctor_wf(self.deep_view()),
        ensures
            r.deep_view() == doctor_next(self.deep_view(), event.deep_view()),
            doctor_wf(r.deep_view()),
    {
        proof {
            lemma_doctor_wf(self.deep_view(), event.deep_view());
        }
        let mut report = self.report;
        report.text = String::new();
        match self.phase {
            Phase::State(read) => run_repo_checks(report, read.step(event)),
            Phase::Local { state, query } => run_github_checks(report, state, query.step(event)),
            Phase::Fork { state, parent, query } => run_fork_checks(
                report,
                state,
                parent,
                query.step(event),
            ),
            Phase::Remote { state, target, fork, query } => run_remote_check(
                report,
                state,
                target,
                fork,
                query.step(event),
            ),
            Phase::Upstream { state, query } => run_branch_checks(
                report,
                state,
                query.step(event),
            ),
            Phase::InRepo => run_in_repo_check(report, &into_reply(event)),
            Phase::Finished { failed } => Doctor { report, phase: Phase::Finished { failed } },
            phase => run_tool_checks(report, phase, &into_reply(event)),
        }
    }
}

/// Every step keeps to the number of checks.
proof fn lemma_doctor_wf(s: DoctorView, e: step::EventView)
    requires
        doctor_wf(s),
    ensures
        doctor_wf(doctor_next(s, e)),
{
    reveal(at_end);
    reveal(after_tools);
    reveal(on_git_tool);
    reveal(on_gh_tool);
    reveal(on_gh_auth);
    reveal(on_in_repo);
    reveal(on_state);
    reveal(at_target);
    reveal(on_local);
    reveal(on_fork);
    reveal(on_remote);
    reveal(on_upstream);
}

} // verus!
