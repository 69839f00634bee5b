//! What the workflow asks of `git`, and what `git`'s replies mean.
//!
//! Each operation has a function that gives the command to run and, where the
//! reply says more than success or failure, one that interprets it.

use vstd::prelude::*;
use vstd::string::*;

use crate::command;
use crate::command::{Command, Error, Reply};
use crate::step;
use crate::step::{Action, Event};
use crate::text;

verus! {

// --- data -------------------------------------------------------------------

/// One remote configured in the repository.
#[derive(Debug)]
pub struct Remote {
    pub name: String,
    pub fetch_url: String,
    pub push_url: String,
}

/// The model of a [`Remote`].
#[verifier::ext_equal]
pub struct RemoteView {
    pub name: Seq<char>,
    pub fetch_url: Seq<char>,
    pub push_url: Seq<char>,
}

impl DeepView for Remote {
    type V = RemoteView;

    open spec fn deep_view(&self) -> RemoteView {
        RemoteView { name: self.name@, fetch_url: self.fetch_url@, push_url: self.push_url@ }
    }
}

impl Clone for Remote {
    fn clone(&self) -> (r: Self)
        ensures
            r.deep_view() == self.deep_view(),
    {
        Remote {
            name: self.name.clone(),
            fetch_url: self.fetch_url.clone(),
            push_url: self.push_url.clone(),
        }
    }
}

/// A long-running operation that prevents safe stacking.
#[derive(Clone, Copy, Debug, PartialEq, Eq, Structural)]
pub enum InProgress {
    Rebase,
    Merge,
    CherryPick,
    Revert,
    Bisect,
    ApplyMailbox,
}

/// The name of an operation, as shown to the user.
pub open spec fn operation_label(op: InProgress) -> Seq<char> {
    match op {
        InProgress::Rebase => "rebase"@,
        InProgress::Merge => "merge"@,
        InProgress::CherryPick => "cherry-pick"@,
        InProgress::Revert => "revert"@,
        InProgress::Bisect => "bisect"@,
        InProgress::ApplyMailbox => "am (mailbox apply)"@,
    }
}

impl InProgress {
    /// The name of the operation, as shown to the user.
    pub fn label(self) -> (r: &'static str)
        ensures
            r@ == operation_label(self),
    {
        match self {
            InProgress::Rebase => "rebase",
            InProgress::Merge => "merge",
            InProgress::CherryPick => "cherry-pick",
            InProgress::Revert => "revert",
            InProgress::Bisect => "bisect",
            InProgress::ApplyMailbox => "am (mailbox apply)",
        }
    }
}

/// A snapshot of the things `push` needs to know about the working repo.
#[derive(Debug)]
pub struct RepoState {
    /// Current branch, or `None` if HEAD is detached.
    pub current_branch: Option<String>,
    /// In-progress operation, if any. Stacking should refuse to proceed.
    pub in_progress: Option<InProgress>,
    /// SHA at HEAD.
    pub head_sha: String,
    /// Configured upstream of the current branch as `(remote, branch)`,
    /// when one is set.
    pub upstream: Option<(String, String)>,
}

/// The model of a [`RepoState`].
#[verifier::ext_equal]
pub struct RepoStateView {
    pub current_branch: Option<Seq<char>>,
    pub in_progress: Option<InProgress>,
    pub head_sha: Seq<char>,
    pub upstream: Option<(Seq<char>, Seq<char>)>,
}

impl DeepView for RepoState {
    type V = RepoStateView;

    open spec fn deep_view(&self) -> RepoStateView {
        RepoStateView {
            current_branch: self.current_branch.deep_view(),
            in_progress: self.in_progress,
            head_sha: self.head_sha@,
            upstream: self.upstream.deep_view(),
        }
    }
}

impl Clone for RepoState {
    fn clone(&self) -> (r: Self)
        ensures
            r.deep_view() == self.deep_view(),
    {
        RepoState {
            current_branch: match &self.current_branch {
                Some(b) => Some(b.clone()),
                None => None,
            },
            in_progress: self.in_progress,
            head_sha: self.head_sha.clone(),
            upstream: match &self.upstream {
                Some((remote, branch)) => Some((remote.clone(), branch.clone())),
                None => None,
            },
        }
    }
}

/// Where the output of `fetch` and `push` goes.
#[derive(Clone, Copy, Debug, PartialEq, Eq, Structural)]
pub enum GitOutput {
    /// Captured, so that a spinner can stand in for it.
    Quiet,
    /// Streamed to the user's terminal, with git's own `--verbose` or without.
    Stream { verbose: bool },
}

// --- the working repo -------------------------------------------------------

/// Splits an upstream such as `origin/feature/x` into remote and branch. Branch
/// names may hold slashes, so the first slash separates; neither part may be
/// empty.
pub open spec fn upstream_parts(s: Seq<char>) -> Option<(Seq<char>, Seq<char>)> {
    let n = text::before(s, '/');
    if 0 < n < s.len() - 1 {
        Some((s.take(n), s.skip(n + 1)))
    } else {
        None
    }
}

/// Splits an upstream such as `origin/feature/x` into remote and branch.
pub fn split_upstream(s: &str) -> (r: Option<(String, String)>)
    ensures
        r.deep_view() == upstream_parts(s@),
        r matches Some((remote, branch)) ==> remote@ + "/"@ + branch@ == s@,
{
    proof {
        text::lemma_before(s@, '/');
        reveal_strlit("/");
        assert("/"@ == seq!['/']);
    }
    match text::split_once(s, '/') {
        None => None,
        Some((remote, branch)) => {
            if remote.is_empty() || branch.is_empty() {
                None
            } else {
                Some((remote.to_owned(), branch.to_owned()))
            }
        },
    }
}

/// The files and directories, relative to the git directory, whose presence
/// tells of an operation in progress.
pub open spec fn markers() -> Seq<Seq<char>> {
    seq![
        "rebase-merge"@,
        "rebase-apply"@,
        "rebase-apply/applying"@,
        "MERGE_HEAD"@,
        "CHERRY_PICK_HEAD"@,
        "REVERT_HEAD"@,
        "BISECT_LOG"@,
    ]
}

/// The names to look for in the git directory.
pub fn marker_names() -> (r: Vec<String>)
    ensures
        r.deep_view() == markers(),
{
    command::words(
        &[
            "rebase-merge",
            "rebase-apply",
            "rebase-apply/applying",
            "MERGE_HEAD",
            "CHERRY_PICK_HEAD",
            "REVERT_HEAD",
            "BISECT_LOG",
        ],
    )
}

/// The operation that the present markers tell of. `rebase-apply` also serves
/// `git am`, which marks itself inside it.
pub open spec fn operation(present: Seq<Seq<char>>) -> Option<InProgress> {
    if present.contains("rebase-merge"@) || present.contains("rebase-apply"@) {
        if present.contains("rebase-apply/applying"@) {
            Some(InProgress::ApplyMailbox)
        } else {
            Some(InProgress::Rebase)
        }
    } else if present.contains("MERGE_HEAD"@) {
        Some(InProgress::Merge)
    } else if present.contains("CHERRY_PICK_HEAD"@) {
        Some(InProgress::CherryPick)
    } else if present.contains("REVERT_HEAD"@) {
        Some(InProgress::Revert)
    } else if present.contains("BISECT_LOG"@) {
        Some(InProgress::Bisect)
    } else {
        None
    }
}

/// Whether `name` is among `names`.
pub fn listed(names: &Vec<String>, name: &str) -> (r: bool)
    ensures
        r == names.deep_view().contains(name@),
{
    let mut i: usize = 0;
    while i < names.len()
        invariant
            i <= names.len(),
            forall|j: int| 0 <= j < i ==> names@[j]@ != name@,
        decreases names.len() - i,
    {
        if text::same(names[i].as_str(), name) {
            assert(names.deep_view()[i as int] == name@);
            return true;
        }
        i = i + 1;
    }
    false
}

/// The operation in progress, given which of the [`marker_names`] exist in the
/// git directory.
pub fn detect_in_progress(present: &Vec<String>) -> (r: Option<InProgress>)
    ensures
        r == operation(present.deep_view()),
{
    if listed(present, "rebase-merge") || listed(present, "rebase-apply") {
        if listed(present, "rebase-apply/applying") {
            return Some(InProgress::ApplyMailbox);
        }
        return Some(InProgress::Rebase);
    }
    if listed(present, "MERGE_HEAD") {
        return Some(InProgress::Merge);
    }
    if listed(present, "CHERRY_PICK_HEAD") {
        return Some(InProgress::CherryPick);
    }
    if listed(present, "REVERT_HEAD") {
        return Some(InProgress::Revert);
    }
    if listed(present, "BISECT_LOG") {
        return Some(InProgress::Bisect);
    }
    None
}

/// The full name of an upstream begins with its remote's name and a slash. It
/// need not: a fetch refspec can put the branches of a remote elsewhere.
pub open spec fn is_under(s: Seq<char>, remote: Seq<char>) -> bool {
    text::begins(s, remote + "/"@) && remote.len() + 1 < s.len()
}

/// The branch of an upstream on `remote`. A remote's name may hold slashes, so
/// it is cut off as a whole where the upstream is under it. Elsewhere the branch
/// stands behind the first slash, and is all of the name where nothing does.
pub open spec fn branch_on(s: Seq<char>, remote: Seq<char>) -> Seq<char> {
    let n = text::before(s, '/');
    if is_under(s, remote) {
        s.skip((remote.len() + 1) as int)
    } else if n + 1 < s.len() {
        s.skip(n + 1)
    } else {
        s
    }
}

/// The branch of an upstream on `remote`.
pub fn branch_behind<'a>(s: &'a str, remote: &str) -> (r: &'a str)
    ensures
        r@ == branch_on(s@, remote@),
        is_under(s@, remote@) ==> remote@ + "/"@ + r@ == s@,
{
    let mut lead = remote.to_owned();
    lead.append("/");
    proof {
        reveal_strlit("/");
        text::lemma_before(s@, '/');
    }
    let all = text::chars_of(s);
    let n = text::chars_of(lead.as_str()).len();
    if text::starts_with(s, lead.as_str()) && n < all.len() {
        let branch = s.substring_char(n, all.len());
        assert(branch@ == s@.skip(n as int));
        assert(lead@ + branch@ == s@);
        return branch;
    }
    match text::split_once(s, '/') {
        Some((_, branch)) => if branch.is_empty() {
            s
        } else {
            branch
        },
        None => s,
    }
}

/// The upstream as remote and branch, given its full name and, where git names
/// it, its remote. The remote `.` stands for the local repository: such an
/// upstream is on no remote. Without a name the first slash separates the two.
pub open spec fn upstream_of(upstream: Option<Seq<char>>, remote: Option<Seq<char>>) -> Option<
    (Seq<char>, Seq<char>),
> {
    match (upstream, remote) {
        (Some(s), Some(remote)) => if remote == "."@ || s.len() == 0 {
            None
        } else if remote.len() == 0 {
            upstream_parts(s)
        } else {
            Some((remote, branch_on(s, remote)))
        },
        (Some(s), None) => upstream_parts(s),
        (None, _) => None,
    }
}

/// The upstream as remote and branch.
fn name_upstream(s: &str, remote: Option<&str>) -> (r: Option<(String, String)>)
    ensures
        r.deep_view() == upstream_of(Some(s@), remote.deep_view()),
{
    match remote {
        Some(remote) => {
            if text::same(remote, ".") || s.is_empty() {
                None
            } else if remote.is_empty() {
                split_upstream(s)
            } else {
                Some((remote.to_owned(), branch_behind(s, remote).to_owned()))
            }
        },
        None => split_upstream(s),
    }
}

/// The state that the answers of git describe.
pub open spec fn repo_state(
    head_sha: Seq<char>,
    branch: Option<Seq<char>>,
    upstream: Option<Seq<char>>,
    remote: Option<Seq<char>>,
    present: Seq<Seq<char>>,
) -> RepoStateView {
    RepoStateView {
        current_branch: branch,
        in_progress: operation(present),
        head_sha,
        upstream: upstream_of(upstream, remote),
    }
}

/// Puts together the state of the working repo: the SHA at HEAD, the current
/// branch, the full name of its upstream and the upstream's remote where git
/// names them, and which of the [`marker_names`] exist.
pub fn read_state(
    head_sha: String,
    branch: Option<String>,
    upstream: Option<String>,
    remote: Option<String>,
    present: &Vec<String>,
) -> (r: RepoState)
    ensures
        r.deep_view() == repo_state(
            head_sha@,
            branch.deep_view(),
            upstream.deep_view(),
            remote.deep_view(),
            present.deep_view(),
        ),
        r.upstream matches Some((name, branch)) ==> (upstream matches Some(s) && (is_under(
            s@,
            name@,
        ) ==> s@ == name@ + "/"@ + branch@) && (remote matches Some(known) ==> known@.len() > 0
            ==> known@ == name@)),
{
    proof {
        law_upstream_is_remote_and_branch(upstream.deep_view(), remote.deep_view());
    }
    let known = match &remote {
        Some(name) => Some(name.as_str()),
        None => None,
    };
    RepoState {
        current_branch: branch,
        in_progress: detect_in_progress(present),
        head_sha,
        upstream: match &upstream {
            Some(s) => name_upstream(s.as_str(), known),
            None => None,
        },
    }
}

/// The command that names the git directory.
pub open spec fn git_dir_command() -> command::CommandView {
    command::git(seq!["rev-parse"@, "--git-dir"@])
}

/// The command that names the commit at HEAD.
pub open spec fn head_command() -> command::CommandView {
    command::git(seq!["rev-parse"@, "HEAD"@])
}

/// The command that names the current branch.
pub open spec fn branch_command() -> command::CommandView {
    command::git(seq!["symbolic-ref"@, "--quiet"@, "--short"@, "HEAD"@])
}

/// The command that names the upstream of the current branch.
pub open spec fn upstream_command() -> command::CommandView {
    command::git(seq!["rev-parse"@, "--abbrev-ref"@, "--symbolic-full-name"@, "@{upstream}"@])
}

/// The config key that names the remote of a branch's upstream.
pub open spec fn remote_key(branch: Seq<char>) -> Seq<char> {
    "branch."@ + branch + ".remote"@
}

/// Asks for the git directory.
pub fn git_dir() -> (r: Command)
    ensures
        r.deep_view() == git_dir_command(),
{
    Command::git(command::words(&["rev-parse", "--git-dir"]))
}

/// Asks for the commit at HEAD.
fn head() -> (r: Command)
    ensures
        r.deep_view() == head_command(),
{
    Command::git(command::words(&["rev-parse", "HEAD"]))
}

/// Asks for the current branch.
fn current_branch() -> (r: Command)
    ensures
        r.deep_view() == branch_command(),
{
    Command::git(command::words(&["symbolic-ref", "--quiet", "--short", "HEAD"]))
}

/// Asks for the upstream of the current branch.
fn upstream_name() -> (r: Command)
    ensures
        r.deep_view() == upstream_command(),
{
    Command::git(
        command::words(&["rev-parse", "--abbrev-ref", "--symbolic-full-name", "@{upstream}"]),
    )
}

/// Asks for the remote of a branch's upstream.
fn upstream_remote(branch: &str) -> (r: Command)
    ensures
        r.deep_view() == config_get_command(remote_key(branch@)),
{
    let mut key = "branch.".to_owned();
    key.append(branch);
    key.append(".remote");
    config_get(key.as_str())
}

/// A reading of the working repo, one question at a time.
#[derive(Debug)]
#[allow(inconsistent_fields)]
pub enum StateRead {
    GitDir,
    Head { git_dir: String },
    Branch { git_dir: String, head_sha: String },
    Upstream { git_dir: String, head_sha: String, branch: Option<String> },
    /// Asked only where the branch has an upstream.
    Remote { git_dir: String, head_sha: String, branch: String, upstream: String },
    Markers {
        git_dir: String,
        head_sha: String,
        branch: Option<String>,
        upstream: Option<String>,
        remote: Option<String>,
    },
    Done(Result<RepoState, Error>),
}

/// The model of a [`StateRead`].
#[verifier::ext_equal]
#[allow(inconsistent_fields)]
pub enum StateReadView {
    GitDir,
    Head { git_dir: Seq<char> },
    Branch { git_dir: Seq<char>, head_sha: Seq<char> },
    Upstream { git_dir: Seq<char>, head_sha: Seq<char>, branch: Option<Seq<char>> },
    Remote { git_dir: Seq<char>, head_sha: Seq<char>, branch: Seq<char>, upstream: Seq<char> },
    Markers {
        git_dir: Seq<char>,
        head_sha: Seq<char>,
        branch: Option<Seq<char>>,
        upstream: Option<Seq<char>>,
        remote: Option<Seq<char>>,
    },
    Done(Result<RepoStateView, Seq<char>>),
}

impl DeepView for StateRead {
    type V = StateReadView;

    open spec fn deep_view(&self) -> StateReadView {
        match self {
            StateRead::GitDir => StateReadView::GitDir,
            StateRead::Head { git_dir } => StateReadView::Head { git_dir: git_dir@ },
            StateRead::Branch { git_dir, head_sha } => StateReadView::Branch {
                git_dir: git_dir@,
                head_sha: head_sha@,
            },
            StateRead::Upstream { git_dir, head_sha, branch } => StateReadView::Upstream {
                git_dir: git_dir@,
                head_sha: head_sha@,
                branch: branch.deep_view(),
            },
            StateRead::Remote { git_dir, head_sha, branch, upstream } => StateReadView::Remote {
                git_dir: git_dir@,
                head_sha: head_sha@,
                branch: branch@,
                upstream: upstream@,
            },
            StateRead::Markers {
                git_dir,
                head_sha,
                branch,
                upstream,
                remote,
            } => StateReadView::Markers {
                git_dir: git_dir@,
                head_sha: head_sha@,
                branch: branch.deep_view(),
                upstream: upstream.deep_view(),
                remote: remote.deep_view(),
            },
            StateRead::Done(r) => StateReadView::Done(command::seen(*r)),
        }
    }
}

/// The text for a repository without a commit.
pub open spec fn no_commits_text() -> Seq<char> {
    "repository has no commits yet (HEAD is unborn)"@
}

/// The value of a captured command, where it has one.
pub open spec fn captured_ok(c: command::CommandView, r: command::ReplyView) -> Option<Seq<char>> {
    match command::captured(c, r) {
        Ok(s) => Some(s),
        Err(_) => None,
    }
}

/// What the reading waits for.
pub open spec fn state_read_action(s: StateReadView) -> Option<step::ActionView> {
    match s {
        StateReadView::GitDir => Some(step::ActionView::Run(git_dir_command())),
        StateReadView::Head { .. } => Some(step::ActionView::Run(head_command())),
        StateReadView::Branch { .. } => Some(step::ActionView::Run(branch_command())),
        StateReadView::Upstream { .. } => Some(step::ActionView::Run(upstream_command())),
        StateReadView::Remote { branch, .. } => Some(
            step::ActionView::Run(config_get_command(remote_key(branch))),
        ),
        StateReadView::Markers { git_dir, .. } => Some(
            step::ActionView::Look { dir: git_dir, names: markers() },
        ),
        StateReadView::Done(_) => None,
    }
}

/// How the reading goes on. Without a git directory or a commit it fails; a
/// detached HEAD or a missing upstream is no failure.
pub open spec fn state_read_next(s: StateReadView, e: step::EventView) -> StateReadView {
    match (s, e) {
        (StateReadView::GitDir, step::EventView::Ran(reply)) => match command::captured(
            git_dir_command(),
            reply,
        ) {
            Ok(git_dir) => StateReadView::Head { git_dir },
            Err(e) => StateReadView::Done(Err(e)),
        },
        (StateReadView::Head { git_dir }, step::EventView::Ran(reply)) => match captured_ok(
            head_command(),
            reply,
        ) {
            Some(head_sha) => StateReadView::Branch { git_dir, head_sha },
            None => StateReadView::Done(Err(no_commits_text())),
        },
        (
            StateReadView::Branch { git_dir, head_sha },
            step::EventView::Ran(reply),
        ) => StateReadView::Upstream {
            git_dir,
            head_sha,
            branch: captured_ok(branch_command(), reply),
        },
        (
            StateReadView::Upstream { git_dir, head_sha, branch },
            step::EventView::Ran(reply),
        ) => match (branch, captured_ok(upstream_command(), reply)) {
            (Some(branch), Some(upstream)) => StateReadView::Remote {
                git_dir,
                head_sha,
                branch,
                upstream,
            },
            (branch, upstream) => StateReadView::Markers {
                git_dir,
                head_sha,
                branch,
                upstream,
                remote: None,
            },
        },
        (
            StateReadView::Remote { git_dir, head_sha, branch, upstream },
            step::EventView::Ran(reply),
        ) => StateReadView::Markers {
            git_dir,
            head_sha,
            branch: Some(branch),
            upstream: Some(upstream),
            remote: captured_ok(config_get_command(remote_key(branch)), reply),
        },
        (
            StateReadView::Markers { head_sha, branch, upstream, remote, .. },
            step::EventView::Present(present),
        ) => StateReadView::Done(Ok(repo_state(head_sha, branch, upstream, remote, present))),
        (StateReadView::Done(r), _) => StateReadView::Done(r),
        _ => StateReadView::Done(Err(step::unexpected_text())),
    }
}

/// The questions left in the reading.
pub open spec fn state_questions(s: StateReadView) -> int {
    match s {
        StateReadView::GitDir => 6,
        StateReadView::Head { .. } => 5,
        StateReadView::Branch { .. } => 4,
        StateReadView::Upstream { .. } => 3,
        StateReadView::Remote { .. } => 2,
        StateReadView::Markers { .. } => 1,
        StateReadView::Done(_) => 0,
    }
}

/// The value of a captured command, where it has one.
fn capture_ok(command: &Command, reply: &Reply) -> (r: Option<String>)
    ensures
        r.deep_view() == captured_ok(command.deep_view(), reply.deep_view()),
{
    match command::run_capture(command, reply) {
        Ok(s) => Some(s),
        Err(_) => None,
    }
}

impl StateRead {
    /// What the reading waits for; `None` once it is done.
    pub fn action(&self) -> (r: Option<Action>)
        ensures
            r.deep_view() == state_read_action(self.deep_view()),
    {
        match self {
            StateRead::GitDir => Some(Action::Run(git_dir())),
            StateRead::Head { .. } => Some(Action::Run(head())),
            StateRead::Branch { .. } => Some(Action::Run(current_branch())),
            StateRead::Upstream { .. } => Some(Action::Run(upstream_name())),
            StateRead::Remote { branch, .. } => Some(
                Action::Run(upstream_remote(branch.as_str())),
            ),
            StateRead::Markers { git_dir, .. } => Some(
                Action::Look { dir: git_dir.clone(), names: marker_names() },
            ),
            StateRead::Done(_) => None,
        }
    }

    /// Goes on with what came back.
    pub fn step(self, event: Event) -> (r: StateRead)
        ensures
            r.deep_view() == state_read_next(self.deep_view(), event.deep_view()),
    {
        match (self, event) {
            (StateRead::GitDir, Event::Ran(reply)) => match command::run_capture(
                &git_dir(),
                &reply,
            ) {
                Ok(git_dir) => StateRead::Head { git_dir },
                Err(e) => StateRead::Done(Err(e)),
            },
            (StateRead::Head { git_dir }, Event::Ran(reply)) => match capture_ok(&head(), &reply) {
                Some(head_sha) => StateRead::Branch { git_dir, head_sha },
                None => StateRead::Done(
                    Err(Error::new("repository has no commits yet (HEAD is unborn)")),
                ),
            },
            (StateRead::Branch { git_dir, head_sha }, Event::Ran(reply)) => {
                let branch = capture_ok(&current_branch(), &reply);
                StateRead::Upstream { git_dir, head_sha, branch }
            },
            (StateRead::Upstream { git_dir, head_sha, branch }, Event::Ran(reply)) => {
                let upstream = capture_ok(&upstream_name(), &reply);
                match (branch, upstream) {
                    (Some(branch), Some(upstream)) => StateRead::Remote {
                        git_dir,
                        head_sha,
                        branch,
                        upstream,
                    },
                    (branch, upstream) => StateRead::Markers {
                        git_dir,
                        head_sha,
                        branch,
                        upstream,
                        remote: None,
                    },
                }
            },
            (StateRead::Remote { git_dir, head_sha, branch, upstream }, Event::Ran(reply)) => {
                let remote = capture_ok(&upstream_remote(branch.as_str()), &reply);
                StateRead::Markers {
                    git_dir,
                    head_sha,
                    branch: Some(branch),
                    upstream: Some(upstream),
                    remote,
                }
            },
            (
                StateRead::Markers { head_sha, branch, upstream, remote, .. },
                Event::Present(present),
            ) => StateRead::Done(Ok(read_state(head_sha, branch, upstream, remote, &present))),
            (StateRead::Done(r), _) => StateRead::Done(r),
            _ => StateRead::Done(Err(step::unexpected())),
        }
    }
}

/// The whole reading, whatever its questions bring. A repo without a git
/// directory or without commits cannot be read; a missing branch or upstream is
/// no error, and then the upstream's remote is not asked for.
pub proof fn law_reading_assembles_the_state(
    git_dir: command::ReplyView,
    head: command::ReplyView,
    branch: command::ReplyView,
    upstream: command::ReplyView,
    remote: command::ReplyView,
    present: Seq<Seq<char>>,
)
    ensures
        ({
            let in_dir = state_read_next(StateReadView::GitDir, step::EventView::Ran(git_dir));
            let at_head = state_read_next(in_dir, step::EventView::Ran(head));
            let on_branch = state_read_next(at_head, step::EventView::Ran(branch));
            let following = state_read_next(on_branch, step::EventView::Ran(upstream));
            let named = if following is Remote {
                state_read_next(following, step::EventView::Ran(remote))
            } else {
                following
            };
            let read = state_read_next(named, step::EventView::Present(present));
            let on = captured_ok(branch_command(), branch);
            let full = captured_ok(upstream_command(), upstream);
            match (
                command::captured(git_dir_command(), git_dir),
                captured_ok(head_command(), head),
            ) {
                (Err(e), _) => read == StateReadView::Done(Err(e)),
                (Ok(_), None) => read == StateReadView::Done(Err(no_commits_text())),
                (Ok(_), Some(head_sha)) => {
                    &&& following is Remote <==> on is Some && full is Some
                    &&& read == StateReadView::Done(
                        Ok(
                            repo_state(
                                head_sha,
                                on,
                                full,
                                match (on, full) {
                                    (Some(b), Some(_)) => captured_ok(
                                        config_get_command(remote_key(b)),
                                        remote,
                                    ),
                                    _ => None,
                                },
                                present,
                            ),
                        ),
                    )
                },
            }
        }),
{
}

/// The upstream is read as its remote and its branch. The remote is the one that
/// git names, if it names one, wherever that remote's branches are kept. Where
/// the full name stands under the remote, it is the two with a slash between
/// them, and any such name is read back. An upstream on a named remote is never
/// passed over.
pub proof fn law_upstream_is_remote_and_branch(
    upstream: Option<Seq<char>>,
    remote: Option<Seq<char>>,
)
    ensures
        upstream_of(upstream, remote) matches Some((name, branch)) ==> name.len() > 0
            && branch.len() > 0 && (remote matches Some(known) ==> known.len() > 0 ==> known == name)
            && (upstream matches Some(s) && (is_under(s, name) ==> s == name + "/"@ + branch)),
        forall|name: Seq<char>, branch: Seq<char>|
            name.len() > 0 && name != "."@ && branch.len() > 0 ==> #[trigger] upstream_of(
                Some(name + "/"@ + branch),
                Some(name),
            ) == Some((name, branch)),
        (remote matches Some(known) && known.len() > 0 && known != "."@) && (upstream matches Some(s)
            && s.len() > 0) ==> upstream_of(upstream, remote) is Some,
{
    reveal_strlit("/");
    assert("/"@ == seq!['/']);
    match upstream {
        Some(s) => {
            text::lemma_before(s, '/');
            match upstream_of(upstream, remote) {
                Some((name, branch)) => {
                    if is_under(s, name) {
                        assert(s == (name + "/"@) + s.skip((name.len() + 1) as int));
                        if remote is None || remote->Some_0.len() == 0 {
                            assert(s == name + "/"@ + branch);
                        }
                    }
                },
                None => {},
            }
        },
        None => {},
    }
    assert forall|name: Seq<char>, branch: Seq<char>|
        name.len() > 0 && name != "."@ && branch.len() > 0 implies #[trigger] upstream_of(
        Some(name + "/"@ + branch),
        Some(name),
    ) == Some((name, branch)) by {
        let s = name + "/"@ + branch;
        assert(s.take((name + "/"@).len() as int) == name + "/"@);
        assert(s.skip((name.len() + 1) as int) == branch);
    }
}

// --- fetch and push ---------------------------------------------------------

/// `git` with its output where `out` says.
pub open spec fn git_to(out: GitOutput, args: Seq<Seq<char>>) -> command::CommandView {
    match out {
        GitOutput::Quiet => command::git(args),
        GitOutput::Stream { .. } => command::git_inherit(args),
    }
}

/// A flag as a list of arguments: empty where it is not set.
pub open spec fn flag(set: bool, name: Seq<char>) -> Seq<Seq<char>> {
    if set {
        seq![name]
    } else {
        seq![]
    }
}

/// The command that fetches from `remote`.
pub open spec fn fetch_command(remote: Seq<char>, out: GitOutput) -> command::CommandView {
    git_to(
        out,
        seq!["fetch"@] + flag(out == (GitOutput::Stream { verbose: true }), "--verbose"@)
            + seq![remote],
    )
}

/// The command that pushes `branch` to `remote` and makes it the upstream.
pub open spec fn push_command(
    remote: Seq<char>,
    branch: Seq<char>,
    force_with_lease: bool,
    out: GitOutput,
) -> command::CommandView {
    git_to(
        out,
        seq!["push"@, "--set-upstream"@] + flag(force_with_lease, "--force-with-lease"@) + flag(
            out == (GitOutput::Stream { verbose: true }),
            "--verbose"@,
        ) + seq![remote, branch],
    )
}

/// `git` with its output where `out` says.
fn git_with_output(args: Vec<String>, out: GitOutput) -> (r: Command)
    ensures
        r.deep_view() == git_to(out, args.deep_view()),
{
    match out {
        GitOutput::Quiet => Command::git(args),
        GitOutput::Stream { .. } => Command::git_inherit(args),
    }
}

/// `git fetch <remote>`.
pub fn fetch(remote: &str, out: GitOutput) -> (r: Command)
    ensures
        r.deep_view() == fetch_command(remote@, out),
{
    let mut args = command::words(&["fetch"]);
    if let GitOutput::Stream { verbose: true } = out {
        command::append_arg(&mut args, "--verbose");
    }
    command::append_arg(&mut args, remote);
    proof {
        let v = out == (GitOutput::Stream { verbose: true });
        assert(args.deep_view() == seq!["fetch"@] + flag(v, "--verbose"@) + seq![remote@]);
    }
    git_with_output(args, out)
}

/// Push `branch` to `remote`, setting upstream tracking. Optionally use
/// `--force-with-lease` for safe re-pushes after a local rebase.
pub fn push(remote: &str, branch: &str, force_with_lease: bool, out: GitOutput) -> (r: Command)
    ensures
        r.deep_view() == push_command(remote@, branch@, force_with_lease, out),
{
    let mut args = command::words(&["push", "--set-upstream"]);
    if force_with_lease {
        command::append_arg(&mut args, "--force-with-lease");
    }
    if let GitOutput::Stream { verbose: true } = out {
        command::append_arg(&mut args, "--verbose");
    }
    command::append_arg(&mut args, remote);
    command::append_arg(&mut args, branch);
    proof {
        let v = out == (GitOutput::Stream { verbose: true });
        assert(args.deep_view() == seq!["push"@, "--set-upstream"@] + flag(
            force_with_lease,
            "--force-with-lease"@,
        ) + flag(v, "--verbose"@) + seq![remote@, branch@]);
    }
    git_with_output(args, out)
}

// --- revisions --------------------------------------------------------------

/// The command that asks whether `ancestor` is an ancestor of `descendant`.
pub open spec fn is_ancestor_command(
    ancestor: Seq<char>,
    descendant: Seq<char>,
) -> command::CommandView {
    command::git_inherit(seq!["merge-base"@, "--is-ancestor"@, ancestor, descendant])
}

/// Asks whether `ancestor` is an ancestor of (or equal to) `descendant`.
pub fn is_ancestor(ancestor: &str, descendant: &str) -> (r: Command)
    ensures
        r.deep_view() == is_ancestor_command(ancestor@, descendant@),
{
    Command::git_inherit(command::words(&["merge-base", "--is-ancestor", ancestor, descendant]))
}

/// The text for an exit code that an operation does not know.
pub open spec fn exit_text(operation: Seq<char>, code: i32) -> Seq<char> {
    operation + " exited with code "@ + text::signed_decimal(code as int)
}

/// The text for an operation that a signal ended.
pub open spec fn killed_text(operation: Seq<char>) -> Seq<char> {
    operation + " was killed by a signal"@
}

/// The error for an operation that ended with another exit code than it may,
/// or with none.
fn exit_error(operation: &str, code: Option<i32>) -> (r: Error)
    ensures
        code matches Some(c) ==> r.message@ == exit_text(operation@, c),
        code is None ==> r.message@ == killed_text(operation@),
{
    let mut message = operation.to_owned();
    match code {
        Some(c) => {
            message.append(" exited with code ");
            message.append(text::signed_decimal_text(c).as_str());
        },
        None => {
            message.append(" was killed by a signal");
        },
    }
    Error { message }
}

/// What `git merge-base --is-ancestor` answers: exit code 0 for yes, 1 for no.
pub open spec fn ancestry(r: command::ReplyView) -> Result<bool, Seq<char>> {
    match r {
        command::ReplyView::NotRun(cause) => Err(
            command::in_context("failed to invoke git merge-base"@, cause),
        ),
        command::ReplyView::Exited { code: Some(c), .. } => if c == 0 {
            Ok(true)
        } else if c == 1 {
            Ok(false)
        } else {
            Err(exit_text("git merge-base --is-ancestor"@, c))
        },
        command::ReplyView::Exited { code: None, .. } => Err(
            killed_text("git merge-base --is-ancestor"@),
        ),
    }
}

/// The answer to [`is_ancestor`].
pub fn is_ancestor_reply(reply: &Reply) -> (r: Result<bool, Error>)
    ensures
        command::seen(r) == ancestry(reply.deep_view()),
{
    match reply {
        Reply::NotRun(cause) => Err(
            Error::new(cause.as_str()).context("failed to invoke git merge-base"),
        ),
        Reply::Exited { code, .. } => match *code {
            Some(0) => Ok(true),
            Some(1) => Ok(false),
            other => Err(exit_error("git merge-base --is-ancestor", other)),
        },
    }
}

/// The command that asks for a common ancestor of `a` and `b`.
pub open spec fn common_ancestor_command(a: Seq<char>, b: Seq<char>) -> command::CommandView {
    command::git(seq!["merge-base"@, a, b])
}

/// Asks whether `a` and `b` share history.
pub fn common_ancestor(a: &str, b: &str) -> (r: Command)
    ensures
        r.deep_view() == common_ancestor_command(a@, b@),
{
    Command::git(command::words(&["merge-base", a, b]))
}

/// What `git merge-base` answers: exit code 0 where there is a common ancestor,
/// 1 where there is none.
pub open spec fn shared_history(r: command::ReplyView) -> Result<bool, Seq<char>> {
    match r {
        command::ReplyView::NotRun(cause) => Err(
            command::in_context("failed to invoke git merge-base"@, cause),
        ),
        command::ReplyView::Exited { code: Some(c), .. } => if c == 0 {
            Ok(true)
        } else if c == 1 {
            Ok(false)
        } else {
            Err(exit_text("git merge-base"@, c))
        },
        command::ReplyView::Exited { code: None, .. } => Err(killed_text("git merge-base"@)),
    }
}

/// The answer to [`common_ancestor`].
pub fn common_ancestor_reply(reply: &Reply) -> (r: Result<bool, Error>)
    ensures
        command::seen(r) == shared_history(reply.deep_view()),
{
    match reply {
        Reply::NotRun(cause) => Err(
            Error::new(cause.as_str()).context("failed to invoke git merge-base"),
        ),
        Reply::Exited { code, .. } => match *code {
            Some(0) => Ok(true),
            Some(1) => Ok(false),
            other => Err(exit_error("git merge-base", other)),
        },
    }
}

/// The command that counts the commits in `from..to`.
pub open spec fn commits_between_command(from: Seq<char>, to: Seq<char>) -> command::CommandView {
    command::git(seq!["rev-list"@, "--count"@, from + ".."@ + to])
}

/// Asks for the number of commits in `from..to` (commits reachable from `to`
/// but not `from`).
pub fn commits_between(from: &str, to: &str) -> (r: Command)
    ensures
        r.deep_view() == commits_between_command(from@, to@),
{
    let mut range = from.to_owned();
    range.append("..");
    range.append(to);
    Command::git(command::words(&["rev-list", "--count", range.as_str()]))
}

/// A text in quotes, escaped as `{:?}` shows it.
pub uninterp spec fn quoted(s: Seq<char>) -> Seq<char>;

/// Shows a text as `format!("{:?}")` does. Nothing is proved of that macro:
/// its result is named [`quoted`], and which characters it escapes is left
/// unsaid.
#[verifier::external_body]
fn quote(s: &str) -> (r: String)
    ensures
        r@ == quoted(s@),
{
    format!("{:?}", s)
}

/// Why a text is not a count, in words.
pub open spec fn count_error_text(e: text::CountError) -> Seq<char> {
    match e {
        text::CountError::Empty => "cannot parse integer from empty string"@,
        text::CountError::InvalidDigit => "invalid digit found in string"@,
        text::CountError::TooLarge => "number too large to fit in target type"@,
    }
}

/// The count that an output holds.
pub open spec fn counted(out: Seq<char>) -> Result<usize, Seq<char>> {
    match text::count_of(out) {
        Ok(n) => Ok(n as usize),
        Err(e) => Err(
            command::in_context(
                "could not parse commit count from "@ + quoted(out),
                count_error_text(e),
            ),
        ),
    }
}

/// The error for an output, shown in quotes, that holds no commit count.
pub fn count_error(shown: &str, e: text::CountError) -> (r: Error)
    ensures
        r.message@ == command::in_context(
            "could not parse commit count from "@ + shown@,
            count_error_text(e),
        ),
{
    let cause = match e {
        text::CountError::Empty => "cannot parse integer from empty string",
        text::CountError::InvalidDigit => "invalid digit found in string",
        text::CountError::TooLarge => "number too large to fit in target type",
    };
    let mut context = "could not parse commit count from ".to_owned();
    context.append(shown);
    Error::new(cause).context(context.as_str())
}

/// Reads a commit count from an output.
pub fn read_count(out: &str) -> (r: Result<usize, Error>)
    ensures
        command::seen(r) == counted(out@),
{
    match text::parse_count(out) {
        Ok(n) => Ok(n),
        Err(e) => Err(count_error(quote(out).as_str(), e)),
    }
}

/// What `git rev-list --count` answers.
pub open spec fn commit_count(
    from: Seq<char>,
    to: Seq<char>,
    r: command::ReplyView,
) -> Result<usize, Seq<char>> {
    match command::captured(commits_between_command(from, to), r) {
        Ok(out) => counted(out),
        Err(e) => Err(e),
    }
}

/// The answer to [`commits_between`].
pub fn commits_between_reply(from: &str, to: &str, reply: &Reply) -> (r: Result<usize, Error>)
    ensures
        command::seen(r) == commit_count(from@, to@, reply.deep_view()),
{
    match command::run_capture(&commits_between(from, to), reply) {
        Ok(out) => read_count(out.as_str()),
        Err(e) => Err(e),
    }
}

/// The command that resolves a revision to a SHA. `^{object}` has git look the
/// object up, without dereferencing it; otherwise git would echo any full SHA,
/// whether it exists or not.
pub open spec fn resolve_command(rev: Seq<char>) -> command::CommandView {
    command::git(seq!["rev-parse"@, "--verify"@, "--quiet"@, rev + "^{object}"@])
}

/// Asks for the SHA of a revision.
pub fn resolve(rev: &str) -> (r: Command)
    ensures
        r.deep_view() == resolve_command(rev@),
{
    let mut object = rev.to_owned();
    object.append("^{object}");
    Command::git(command::words(&["rev-parse", "--verify", "--quiet", object.as_str()]))
}

/// What `git rev-parse --verify` answers: a SHA, or nothing where the revision
/// does not exist locally.
pub open spec fn resolved(r: command::ReplyView) -> Result<Option<Seq<char>>, Seq<char>> {
    match r {
        command::ReplyView::NotRun(cause) => Err(
            command::in_context("failed to invoke git rev-parse"@, cause),
        ),
        command::ReplyView::Exited { code: Some(0), stdout, .. } => Ok(
            Some(command::output_text(stdout)),
        ),
        command::ReplyView::Exited { .. } => Ok(None),
    }
}

/// The answer to [`resolve`].
pub fn resolve_reply(reply: &Reply) -> (r: Result<Option<String>, Error>)
    ensures
        command::seen(r) == resolved(reply.deep_view()),
{
    match reply {
        Reply::NotRun(cause) => Err(
            Error::new(cause.as_str()).context("failed to invoke git rev-parse"),
        ),
        Reply::Exited { stdout, .. } => if reply.success() {
            Ok(Some(command::read_output(stdout)))
        } else {
            Ok(None)
        },
    }
}

// --- configuration ----------------------------------------------------------

/// The command that looks up a config value.
pub open spec fn config_get_command(key: Seq<char>) -> command::CommandView {
    command::git(seq!["config"@, "--get"@, key])
}

/// Asks for a single git config value.
pub fn config_get(key: &str) -> (r: Command)
    ensures
        r.deep_view() == config_get_command(key@),
{
    Command::git(command::words(&["config", "--get", key]))
}

/// What `git config --get` answers: exit code 1 says that the key is not set.
pub open spec fn configured(r: command::ReplyView) -> Result<Option<Seq<char>>, Seq<char>> {
    match r {
        command::ReplyView::NotRun(cause) => Err(
            command::in_context("failed to invoke git config"@, cause),
        ),
        command::ReplyView::Exited { code: Some(c), stdout, .. } => if c == 0 {
            Ok(Some(command::output_text(stdout)))
        } else if c == 1 {
            Ok(None)
        } else {
            Err(exit_text("git config --get"@, c))
        },
        command::ReplyView::Exited { code: None, .. } => Err(killed_text("git config --get"@)),
    }
}

/// The answer to [`config_get`]: `None` if the key is unset.
pub fn config_get_reply(reply: &Reply) -> (r: Result<Option<String>, Error>)
    ensures
        command::seen(r) == configured(reply.deep_view()),
{
    match reply {
        Reply::NotRun(cause) => Err(
            Error::new(cause.as_str()).context("failed to invoke git config"),
        ),
        Reply::Exited { code, stdout, .. } => match *code {
            Some(0) => Ok(Some(command::read_output(stdout))),
            Some(1) => Ok(None),
            other => Err(exit_error("git config --get", other)),
        },
    }
}

// --- remotes ----------------------------------------------------------------

/// The URLs gathered so far for one remote name.
#[derive(Debug)]
struct Entry {
    name: String,
    fetch: Option<String>,
    push: Option<String>,
}

/// The URLs gathered so far for one remote name.
#[verifier::ext_equal]
pub struct EntryView {
    pub name: Seq<char>,
    pub fetch: Option<Seq<char>>,
    pub push: Option<Seq<char>>,
}

impl DeepView for Entry {
    type V = EntryView;

    closed spec fn deep_view(&self) -> EntryView {
        EntryView {
            name: self.name@,
            fetch: self.fetch.deep_view(),
            push: self.push.deep_view(),
        }
    }
}

/// What one line of `git remote -v` says.
#[verifier::ext_equal]
pub struct Listing {
    pub name: Seq<char>,
    pub url: Seq<char>,
    pub push: bool,
}

/// The entry of a name, a URL and a kind; none without a name or a URL.
pub open spec fn listing_of(name: Seq<char>, url: Seq<char>, kind: Seq<char>) -> Option<Listing> {
    if name.len() == 0 || url.len() == 0 {
        None
    } else {
        Some(Listing { name, url, push: text::occurs(kind, "push"@) })
    }
}

/// What stands behind the tab, without the filter that git notes in square
/// brackets at the end for a partial clone.
pub open spec fn without_filter(s: Seq<char>) -> Seq<char> {
    let n = text::up_to_last(s, ' ');
    if n > 0 && text::begins(s.skip(n), "["@) {
        s.take(n - 1)
    } else {
        s
    }
}

/// Reads one line of `git remote -v`: `<name>\t<url> (<fetch|push>)`. The name
/// stands before the first tab, the kind behind the last blank, and the URL is
/// everything between. A line without a tab is read word by word.
pub open spec fn listing(line: Seq<char>) -> Option<Listing> {
    let tab = text::before(line, '\t');
    if tab < line.len() {
        let rest = without_filter(line.skip(tab + 1));
        let blank = text::up_to_last(rest, ' ');
        if blank > 0 {
            listing_of(line.take(tab), rest.take(blank - 1), rest.skip(blank))
        } else {
            listing_of(line.take(tab), rest, seq![])
        }
    } else {
        match (text::word(line, 0), text::word(line, 1)) {
            (Some(name), Some(url)) => Some(
                Listing {
                    name,
                    url,
                    push: text::word(line, 2) matches Some(kind) && text::occurs(kind, "push"@),
                },
            ),
            _ => None,
        }
    }
}

/// The number of entries that stand before the place of `name`.
pub open spec fn place(table: Seq<EntryView>, name: Seq<char>) -> int
    decreases table.len(),
{
    if table.len() > 0 && text::precedes(table[0].name, name) {
        1 + place(table.skip(1), name)
    } else {
        0
    }
}

/// An entry with the URL of one listing set.
pub open spec fn with_url(entry: EntryView, l: Listing) -> EntryView {
    if l.push {
        EntryView { push: Some(l.url), ..entry }
    } else {
        EntryView { fetch: Some(l.url), ..entry }
    }
}

/// The table with one listing entered: names stay in order, and a later URL
/// replaces an earlier one of the same name and kind.
pub open spec fn entered(table: Seq<EntryView>, l: Listing) -> Seq<EntryView> {
    let k = place(table, l.name);
    if 0 <= k < table.len() && table[k].name == l.name {
        table.update(k, with_url(table[k], l))
    } else {
        table.insert(k, with_url(EntryView { name: l.name, fetch: None, push: None }, l))
    }
}

/// The table that the lines of `git remote -v` give.
pub open spec fn remote_table(lines: Seq<Seq<char>>) -> Seq<EntryView>
    decreases lines.len(),
{
    if lines.len() == 0 {
        seq![]
    } else {
        let table = remote_table(lines.drop_last());
        match listing(lines.last()) {
            Some(l) => entered(table, l),
            None => table,
        }
    }
}

/// The remote that an entry describes: without a push URL the fetch URL serves
/// for both.
pub open spec fn entry_remote(e: EntryView) -> RemoteView {
    let fetch_url = match e.fetch {
        Some(u) => u,
        None => seq![],
    };
    RemoteView {
        name: e.name,
        fetch_url,
        push_url: match e.push {
            Some(u) => u,
            None => fetch_url,
        },
    }
}

/// The remotes that the output of `git remote -v` lists, in the order of their
/// names.
pub open spec fn listed_remotes(raw: Seq<char>) -> Seq<RemoteView> {
    remote_table(text::line_seq(raw)).map_values(|e: EntryView| entry_remote(e))
}

/// Enters one URL into the table.
fn enter(table: &mut Vec<Entry>, name: &str, url: &str, push: bool)
    ensures
        final(table).deep_view() == entered(
            old(table).deep_view(),
            Listing { name: name@, url: url@, push },
        ),
{
    let ghost l = Listing { name: name@, url: url@, push };
    let ghost prior = table.deep_view();
    let mut k: usize = 0;
    assert(prior.skip(0) == prior);
    while k < table.len() && text::is_before(table[k].name.as_str(), name)
        invariant
            k <= table.len(),
            table.deep_view() == prior,
            place(prior, name@) == k + place(prior.skip(k as int), name@),
        decreases table.len() - k,
    {
        assert(prior.skip(k as int)[0] == table@[k as int].deep_view());
        assert(prior.skip(k as int).skip(1) == prior.skip(k + 1));
        k = k + 1;
    }
    assert(k < table.len() ==> prior.skip(k as int)[0] == table@[k as int].deep_view());
    assert(place(prior, name@) == k);
    if k < table.len() && text::same(table[k].name.as_str(), name) {
        assert(prior[k as int] == table@[k as int].deep_view());
        if push {
            table[k].push = Some(url.to_owned());
        } else {
            table[k].fetch = Some(url.to_owned());
        }
        assert(table.deep_view() == entered(prior, l));
    } else {
        assert(k < prior.len() ==> prior[k as int] == table@[k as int].deep_view());
        let entry = if push {
            Entry { name: name.to_owned(), fetch: None, push: Some(url.to_owned()) }
        } else {
            Entry { name: name.to_owned(), fetch: Some(url.to_owned()), push: None }
        };
        table.insert(k, entry);
        assert(table.deep_view() == entered(prior, l));
    }
}

/// Reads one line of `git remote -v`: a name, a URL, and whether the URL is for
/// pushing.
pub fn read_listing<'a>(line: &'a str) -> (r: Option<(&'a str, &'a str, bool)>)
    ensures
        r is Some <==> listing(line@) is Some,
        r matches Some((name, url, push)) ==> listing(line@) == Some(
            Listing { name: name@, url: url@, push },
        ),
{
    proof {
        text::lemma_before(line@, '\t');
        reveal_strlit("");
        reveal_strlit("push");
    }
    match text::split_once(line, '\t') {
        Some((name, behind)) => {
            let rest = match text::rsplit_once(behind, ' ') {
                Some((front, note)) => if text::starts_with(note, "[") {
                    front
                } else {
                    behind
                },
                None => behind,
            };
            assert(rest@ == without_filter(behind@));
            let (url, kind) = match text::rsplit_once(rest, ' ') {
                Some((url, kind)) => (url, kind),
                None => (rest, ""),
            };
            assert(""@ == Seq::<char>::empty());
            if name.is_empty() || url.is_empty() {
                None
            } else {
                Some((name, url, text::contains(kind, "push")))
            }
        },
        None => match (text::nth_word(line, 0), text::nth_word(line, 1)) {
            (Some(name), Some(url)) => {
                let push = match text::nth_word(line, 2) {
                    Some(kind) => text::contains(kind, "push"),
                    None => false,
                };
                Some((name, url, push))
            },
            _ => None,
        },
    }
}

/// Reads the output of `git remote -v`.
pub fn parse_remotes(raw: &str) -> (r: Vec<Remote>)
    ensures
        r.deep_view() == listed_remotes(raw@),
{
    let lines = text::lines(raw);
    let ghost all = lines.deep_view();
    let mut table: Vec<Entry> = Vec::new();
    let mut i: usize = 0;
    assert(table.deep_view() == remote_table(all.take(0)));
    while i < lines.len()
        invariant
            i <= lines.len(),
            all == lines.deep_view(),
            table.deep_view() == remote_table(all.take(i as int)),
        decreases lines.len() - i,
    {
        let line = lines[i].as_str();
        assert(all.take(i + 1).drop_last() == all.take(i as int));
        assert(all.take(i + 1).last() == line@);
        match read_listing(line) {
            Some((name, url, push)) => {
                enter(&mut table, name, url, push);
            },
            None => {},
        }
        i = i + 1;
    }
    assert(all.take(i as int) == all);
    let ghost entries = table.deep_view();
    let mut r: Vec<Remote> = Vec::new();
    let mut j: usize = 0;
    while j < table.len()
        invariant
            j <= table.len(),
            table.deep_view() == entries,
            r.len() == j,
            forall|k: int| 0 <= k < j ==> (#[trigger] r@[k]).deep_view() == entry_remote(entries[k]),
        decreases table.len() - j,
    {
        let e = &table[j];
        assert(entries[j as int] == e.deep_view());
        let fetch_url = match &e.fetch {
            Some(u) => u.clone(),
            None => String::new(),
        };
        let push_url = match &e.push {
            Some(u) => u.clone(),
            None => fetch_url.clone(),
        };
        r.push(Remote { name: e.name.clone(), fetch_url, push_url });
        j = j + 1;
    }
    assert(r.deep_view() == listed_remotes(raw@));
    r
}

/// The command that lists the remotes.
pub open spec fn list_remotes_command() -> command::CommandView {
    command::git(seq!["remote"@, "-v"@])
}

/// Asks for all configured remotes.
pub fn list_remotes() -> (r: Command)
    ensures
        r.deep_view() == list_remotes_command(),
{
    Command::git(command::words(&["remote", "-v"]))
}

/// What `git remote -v` answers.
pub open spec fn remotes_reply(r: command::ReplyView) -> Result<Seq<RemoteView>, Seq<char>> {
    match command::captured(list_remotes_command(), r) {
        Ok(raw) => Ok(listed_remotes(raw)),
        Err(e) => Err(e),
    }
}

/// All configured remotes with their fetch and push URLs.
pub fn list_remotes_reply(reply: &Reply) -> (r: Result<Vec<Remote>, Error>)
    ensures
        command::seen(r) == remotes_reply(reply.deep_view()),
{
    match command::run_capture(&list_remotes(), reply) {
        Ok(raw) => Ok(parse_remotes(raw.as_str())),
        Err(e) => Err(e),
    }
}

// --- laws of the remotes ----------------------------------------------------

/// The names of a table stand in strictly increasing order.
pub open spec fn in_order(table: Seq<EntryView>) -> bool {
    forall|i: int, j: int|
        0 <= i < j < table.len() ==> text::precedes(
            (#[trigger] table[i]).name,
            (#[trigger] table[j]).name,
        )
}

/// The last URL of one kind that the lines give for a remote name.
pub open spec fn last_url(lines: Seq<Seq<char>>, name: Seq<char>, push: bool) -> Option<Seq<char>>
    decreases lines.len(),
{
    if lines.len() == 0 {
        None
    } else {
        match listing(lines.last()) {
            Some(l) => if l.name == name && l.push == push {
                Some(l.url)
            } else {
                last_url(lines.drop_last(), name, push)
            },
            None => last_url(lines.drop_last(), name, push),
        }
    }
}

/// The entries before the place of a name precede it; the one at the place
/// does not.
proof fn lemma_place(table: Seq<EntryView>, name: Seq<char>)
    ensures
        0 <= place(table, name) <= table.len(),
        forall|i: int|
            0 <= i < place(table, name) ==> text::precedes((#[trigger] table[i]).name, name),
        place(table, name) < table.len() ==> !text::precedes(
            table[place(table, name)].name,
            name,
        ),
    decreases table.len(),
{
    if table.len() > 0 && text::precedes(table[0].name, name) {
        let rest = table.skip(1);
        lemma_place(rest, name);
        assert forall|i: int| 0 <= i < place(table, name) implies text::precedes(
            (#[trigger] table[i]).name,
            name,
        ) by {
            if i > 0 {
                assert(rest[i - 1] == table[i]);
            }
        }
        assert(place(table, name) < table.len() ==> rest[place(rest, name)] == table[place(
            table,
            name,
        )]);
    }
}

/// Entering a listing keeps the names in order.
proof fn lemma_entered_in_order(table: Seq<EntryView>, l: Listing)
    requires
        in_order(table),
    ensures
        in_order(entered(table, l)),
{
    lemma_place(table, l.name);
    let k = place(table, l.name);
    let after = entered(table, l);
    if k < table.len() {
        text::lemma_precedes_total(table[k].name, l.name);
    }
    if k < table.len() && table[k].name == l.name {
        assert forall|i: int, j: int| 0 <= i < j < after.len() implies text::precedes(
            (#[trigger] after[i]).name,
            (#[trigger] after[j]).name,
        ) by {
            assert(after[i].name == table[i].name && after[j].name == table[j].name);
        }
    } else {
        assert forall|i: int, j: int| 0 <= i < j < after.len() implies text::precedes(
            (#[trigger] after[i]).name,
            (#[trigger] after[j]).name,
        ) by {
            if i == k {
                assert(after[j] == table[j - 1]);
                assert(after[i].name == l.name);
                if j - 1 > k {
                    assert(text::precedes(table[k].name, table[j - 1].name));
                    text::lemma_precedes_transitive(l.name, table[k].name, table[j - 1].name);
                }
            } else if j == k {
                assert(after[i] == table[i]);
                assert(after[j].name == l.name);
            } else {
                let a = if i < k {
                    i
                } else {
                    i - 1
                };
                let b = if j < k {
                    j
                } else {
                    j - 1
                };
                assert(after[i] == table[a] && after[j] == table[b]);
            }
        }
    }
}

/// The table of a listing is in order.
proof fn lemma_remote_table_in_order(lines: Seq<Seq<char>>)
    ensures
        in_order(remote_table(lines)),
    decreases lines.len(),
{
    if lines.len() > 0 {
        lemma_remote_table_in_order(lines.drop_last());
        match listing(lines.last()) {
            Some(l) => {
                lemma_entered_in_order(remote_table(lines.drop_last()), l);
            },
            None => {},
        }
    }
}

/// What a table holds for `name`: an entry with these URLs, or no entry where
/// there is neither.
pub open spec fn holds(
    table: Seq<EntryView>,
    name: Seq<char>,
    fetch: Option<Seq<char>>,
    push: Option<Seq<char>>,
) -> bool {
    &&& forall|i: int|
        0 <= i < table.len() && (#[trigger] table[i]).name == name ==> table[i] == (EntryView {
            name,
            fetch,
            push,
        }) && (fetch is Some || push is Some)
    &&& fetch is Some || push is Some ==> exists|i: int|
        0 <= i < table.len() && (#[trigger] table[i]).name == name
}

/// Entering a listing sets its URL, and leaves what the table holds for other
/// names.
proof fn lemma_entered_holds(
    table: Seq<EntryView>,
    l: Listing,
    name: Seq<char>,
    fetch: Option<Seq<char>>,
    push: Option<Seq<char>>,
)
    requires
        in_order(table),
        holds(table, name, fetch, push),
    ensures
        l.name != name ==> holds(entered(table, l), name, fetch, push),
        l.name == name && l.push ==> holds(entered(table, l), name, fetch, Some(l.url)),
        l.name == name && !l.push ==> holds(entered(table, l), name, Some(l.url), push),
{
    let after = entered(table, l);
    let k = place(table, l.name);
    lemma_place(table, l.name);
    lemma_entered_in_order(table, l);
    let known = k < table.len() && table[k].name == l.name;
    assert(after[k].name == l.name);
    assert forall|i: int| 0 <= i < after.len() && i != k implies (#[trigger] after[i]).name
        != l.name by {
        text::lemma_precedes_total(after[i].name, l.name);
        assert(text::precedes(after[i].name, after[k].name) || text::precedes(
            after[k].name,
            after[i].name,
        ));
    }
    assert forall|i: int| 0 <= i < after.len() && i != k implies (#[trigger] after[i])
        == table[if known || i < k {
        i
    } else {
        i - 1
    }] by {}
    if l.name == name {
        if !known {
            assert forall|j: int| 0 <= j < table.len() implies (#[trigger] table[j]).name
                != name by {
                let i = if j < k {
                    j
                } else {
                    j + 1
                };
                assert(after[i] == table[j]);
            }
            assert(fetch is None && push is None);
        }
    } else {
        if fetch is Some || push is Some {
            let j = choose|j: int| 0 <= j < table.len() && (#[trigger] table[j]).name == name;
            let i = if known || j < k {
                j
            } else {
                j + 1
            };
            assert(after[i].name == name);
        }
    }
}

/// The table of a listing holds the last URLs of every name.
proof fn lemma_remote_table_holds(lines: Seq<Seq<char>>, name: Seq<char>)
    ensures
        holds(
            remote_table(lines),
            name,
            last_url(lines, name, false),
            last_url(lines, name, true),
        ),
    decreases lines.len(),
{
    if lines.len() > 0 {
        let front = lines.drop_last();
        lemma_remote_table_holds(front, name);
        lemma_remote_table_in_order(front);
        match listing(lines.last()) {
            Some(l) => {
                lemma_entered_holds(
                    remote_table(front),
                    l,
                    name,
                    last_url(front, name, false),
                    last_url(front, name, true),
                );
            },
            None => {},
        }
    }
}

/// The remotes are listed in strictly increasing order of their names, so no
/// name occurs twice.
pub proof fn law_remotes_in_name_order(raw: Seq<char>)
    ensures
        forall|i: int, j: int|
            0 <= i < j < listed_remotes(raw).len() ==> text::precedes(
                (#[trigger] listed_remotes(raw)[i]).name,
                (#[trigger] listed_remotes(raw)[j]).name,
            ),
{
    lemma_remote_table_in_order(text::line_seq(raw));
}

/// A remote is listed for exactly the names that some line gives a URL for. Its
/// fetch URL is the last one given, and empty where there is none; its push URL
/// is the last one given, and the fetch URL where there is none.
pub proof fn law_remotes_have_last_urls(raw: Seq<char>, name: Seq<char>)
    ensures
        ({
            let lines = text::line_seq(raw);
            let fetch = last_url(lines, name, false);
            let push = last_url(lines, name, true);
            let entry = EntryView { name, fetch, push };
            &&& (fetch is Some || push is Some) <==> listed_remotes(raw).contains(
                entry_remote(entry),
            )
            &&& forall|i: int|
                0 <= i < listed_remotes(raw).len() && (#[trigger] listed_remotes(raw)[i]).name
                    == name ==> listed_remotes(raw)[i] == entry_remote(entry)
        }),
{
    let lines = text::line_seq(raw);
    let table = remote_table(lines);
    let fetch = last_url(lines, name, false);
    let push = last_url(lines, name, true);
    let entry = EntryView { name, fetch, push };
    let remotes = listed_remotes(raw);
    lemma_remote_table_holds(lines, name);
    assert forall|i: int| 0 <= i < remotes.len() && (#[trigger] remotes[i]).name == name implies
        remotes[i] == entry_remote(entry) && (fetch is Some || push is Some) by {
        assert(remotes[i] == entry_remote(table[i]));
        assert(table[i] == entry);
    }
    if fetch is Some || push is Some {
        let i = choose|i: int| 0 <= i < table.len() && (#[trigger] table[i]).name == name;
        assert(remotes[i] == entry_remote(table[i]));
        assert(remotes[i].name == name);
    }
    if remotes.contains(entry_remote(entry)) {
        let i = choose|i: int| 0 <= i < remotes.len() && remotes[i] == entry_remote(entry);
        assert(remotes[i].name == name);
    }
}

} // verus!
