//! What the workflow asks of `gh`, and what `gh`'s replies mean.
//!
//! Each operation corresponds to exactly one `gh` invocation.

use vstd::prelude::*;
use vstd::string::*;

use crate::command;
use crate::command::{Command, Error};
use crate::git;
use crate::step;
use crate::step::{Action, Event};

verus! {

// --- data -------------------------------------------------------------------

/// Information about a repository hosted on GitHub, scoped to what `push`
/// needs to pick the right merge target.
#[derive(Debug)]
pub struct RepoInfo {
    /// `owner/name`, e.g. `octocat/hello-world`.
    pub name_with_owner: String,
    /// The repo's default branch name (`main`, `master`, ...).
    pub default_branch: String,
    /// True when this repo is a fork of another.
    pub is_fork: bool,
    /// `owner/name` of the parent when `is_fork` is true.
    pub parent_name_with_owner: Option<String>,
    /// True if "Automatically delete head branches" is enabled on the repo.
    /// When false, dependent stack PRs do not auto-retarget after the
    /// parent merges, because GitHub only retargets when the head branch
    /// is deleted through the merge flow.
    pub delete_branch_on_merge: bool,
    /// True when the user may change the repo's settings.
    pub viewer_can_administer: bool,
}

/// The model of a [`RepoInfo`].
#[verifier::ext_equal]
pub struct RepoInfoView {
    pub name_with_owner: Seq<char>,
    pub default_branch: Seq<char>,
    pub is_fork: bool,
    pub parent_name_with_owner: Option<Seq<char>>,
    pub delete_branch_on_merge: bool,
    pub viewer_can_administer: bool,
}

impl DeepView for RepoInfo {
    type V = RepoInfoView;

    open spec fn deep_view(&self) -> RepoInfoView {
        RepoInfoView {
            name_with_owner: self.name_with_owner@,
            default_branch: self.default_branch@,
            is_fork: self.is_fork,
            parent_name_with_owner: self.parent_name_with_owner.deep_view(),
            delete_branch_on_merge: self.delete_branch_on_merge,
            viewer_can_administer: self.viewer_can_administer,
        }
    }
}

impl Clone for RepoInfo {
    fn clone(&self) -> (r: Self)
        ensures
            r.deep_view() == self.deep_view(),
    {
        RepoInfo {
            name_with_owner: self.name_with_owner.clone(),
            default_branch: self.default_branch.clone(),
            is_fork: self.is_fork,
            parent_name_with_owner: match &self.parent_name_with_owner {
                Some(p) => Some(p.clone()),
                None => None,
            },
            delete_branch_on_merge: self.delete_branch_on_merge,
            viewer_can_administer: self.viewer_can_administer,
        }
    }
}

impl RepoInfo {
    /// Whether the user may change the repo's settings.
    pub fn viewer_is_admin(&self) -> (r: bool)
        ensures
            r == self.deep_view().viewer_can_administer,
    {
        self.viewer_can_administer
    }
}

/// One open pull request, as far as `push` cares.
#[derive(Debug)]
pub struct OpenPr {
    pub number: u64,
    pub head_ref_name: String,
    pub head_ref_oid: String,
    pub base_ref_name: String,
    pub head_repository_owner: String,
    pub url: String,
    pub is_cross_repository: bool,
}

/// The model of an [`OpenPr`].
#[verifier::ext_equal]
pub struct OpenPrView {
    pub number: u64,
    pub head_ref_name: Seq<char>,
    pub head_ref_oid: Seq<char>,
    pub base_ref_name: Seq<char>,
    pub head_repository_owner: Seq<char>,
    pub url: Seq<char>,
    pub is_cross_repository: bool,
}

impl DeepView for OpenPr {
    type V = OpenPrView;

    open spec fn deep_view(&self) -> OpenPrView {
        OpenPrView {
            number: self.number,
            head_ref_name: self.head_ref_name@,
            head_ref_oid: self.head_ref_oid@,
            base_ref_name: self.base_ref_name@,
            head_repository_owner: self.head_repository_owner@,
            url: self.url@,
            is_cross_repository: self.is_cross_repository,
        }
    }
}

impl Clone for OpenPr {
    fn clone(&self) -> (r: Self)
        ensures
            r.deep_view() == self.deep_view(),
    {
        OpenPr {
            number: self.number,
            head_ref_name: self.head_ref_name.clone(),
            head_ref_oid: self.head_ref_oid.clone(),
            base_ref_name: self.base_ref_name.clone(),
            head_repository_owner: self.head_repository_owner.clone(),
            url: self.url.clone(),
            is_cross_repository: self.is_cross_repository,
        }
    }
}

/// Options for creating a PR. Title/body default to gh's `--fill` behaviour
/// when both are absent.
#[derive(Debug)]
pub struct CreatePrOpts<'a> {
    pub title: Option<&'a str>,
    pub body: Option<&'a str>,
    pub draft: bool,
    pub web: bool,
}

impl<'a> Default for CreatePrOpts<'a> {
    /// No option is given.
    fn default() -> (r: Self)
        ensures
            r.title is None,
            r.body is None,
            !r.draft,
            !r.web,
    {
        CreatePrOpts { title: None, body: None, draft: false, web: false }
    }
}

// --- commands ---------------------------------------------------------------

/// The command that asks about a repository. Without a name, `gh` infers the
/// repository from the git remotes.
pub open spec fn repo_info_command(name_with_owner: Option<Seq<char>>) -> command::CommandView {
    command::gh(
        seq!["repo"@, "view"@] + (match name_with_owner {
            Some(name) => seq![name],
            None => seq![],
        }) + seq![
            "--json"@,
            "nameWithOwner,defaultBranchRef,isFork,parent,deleteBranchOnMerge,viewerCanAdminister"@,
        ],
    )
}

/// Asks about a repo. Pass `None` to use whatever `gh` infers from the current
/// working directory's git remotes.
pub fn repo_info(name_with_owner: Option<&str>) -> (r: Command)
    ensures
        r.deep_view() == repo_info_command(name_with_owner.deep_view()),
{
    let mut args = command::words(&["repo", "view"]);
    if let Some(name) = name_with_owner {
        command::append_arg(&mut args, name);
    }
    command::append_arg(&mut args, "--json");
    command::append_arg(
        &mut args,
        "nameWithOwner,defaultBranchRef,isFork,parent,deleteBranchOnMerge,viewerCanAdminister",
    );
    Command::gh(args)
}

/// The command that lists the open PRs of a repository.
pub open spec fn list_open_prs_command(repo: Seq<char>) -> command::CommandView {
    command::gh(
        seq![
            "pr"@,
            "list"@,
            "--repo"@,
            repo,
            "--state"@,
            "open"@,
            "--limit"@,
            "2147483647"@,
            "--json"@,
            "number,headRefName,headRefOid,baseRefName,headRepositoryOwner,url,isCrossRepository"@,
        ],
    )
}

/// Asks for all open PRs on `repo` (`owner/name`). The default cap is small
/// enough to surprise, so a cap is requested that no repository reaches.
pub fn list_open_prs(repo: &str) -> (r: Command)
    ensures
        r.deep_view() == list_open_prs_command(repo@),
{
    Command::gh(
        command::words(
            &[
                "pr",
                "list",
                "--repo",
                repo,
                "--state",
                "open",
                "--limit",
                "2147483647",
                "--json",
                "number,headRefName,headRefOid,baseRefName,headRepositoryOwner,url,isCrossRepository",
            ],
        ),
    )
}

/// The arguments for a PR's title and body: what is not given, `--fill` takes
/// from the commits.
pub open spec fn title_and_body(title: Option<Seq<char>>, body: Option<Seq<char>>) -> Seq<
    Seq<char>,
> {
    (match title {
        Some(t) => seq!["--title"@, t],
        None => seq![],
    }) + (match body {
        Some(b) => seq!["--body"@, b],
        None => seq![],
    }) + git::flag(title is None || body is None, "--fill"@)
}

/// The command that creates a PR on `repo` from `head` into `base`.
pub open spec fn create_pr_command(
    repo: Seq<char>,
    base: Seq<char>,
    head: Seq<char>,
    title: Option<Seq<char>>,
    body: Option<Seq<char>>,
    draft: bool,
    web: bool,
) -> command::CommandView {
    command::gh(
        seq!["pr"@, "create"@, "--repo"@, repo, "--base"@, base, "--head"@, head] + title_and_body(
            title,
            body,
        ) + git::flag(draft, "--draft"@) + git::flag(web, "--web"@),
    )
}

/// Create a PR on `repo` from `head` into `base`. `gh` prints the new PR's URL.
pub fn create_pr(repo: &str, base: &str, head: &str, opts: &CreatePrOpts<'_>) -> (r: Command)
    ensures
        r.deep_view() == create_pr_command(
            repo@,
            base@,
            head@,
            opts.title.deep_view(),
            opts.body.deep_view(),
            opts.draft,
            opts.web,
        ),
{
    let mut args = command::words(
        &["pr", "create", "--repo", repo, "--base", base, "--head", head],
    );
    let ghost start = args.deep_view();
    if let Some(t) = opts.title {
        command::append_arg(&mut args, "--title");
        command::append_arg(&mut args, t);
    }
    if let Some(b) = opts.body {
        command::append_arg(&mut args, "--body");
        command::append_arg(&mut args, b);
    }
    if opts.title.is_none() || opts.body.is_none() {
        command::append_arg(&mut args, "--fill");
    }
    assert(args.deep_view() == start + title_and_body(
        opts.title.deep_view(),
        opts.body.deep_view(),
    ));
    if opts.draft {
        command::append_arg(&mut args, "--draft");
    }
    if opts.web {
        command::append_arg(&mut args, "--web");
    }
    Command::gh(args)
}

/// The command that switches `delete_branch_on_merge` on.
pub open spec fn set_delete_branch_on_merge_command(repo: Seq<char>) -> command::CommandView {
    command::gh(
        seq!["api"@, "-X"@, "PATCH"@, "/repos/"@ + repo, "-F"@, "delete_branch_on_merge=true"@],
    )
}

/// Switch `delete_branch_on_merge` on for `repo`.
pub fn set_delete_branch_on_merge(repo: &str) -> (r: Command)
    ensures
        r.deep_view() == set_delete_branch_on_merge_command(repo@),
{
    let mut path = "/repos/".to_owned();
    path.append(repo);
    Command::gh(
        command::words(&["api", "-X", "PATCH", path.as_str(), "-F", "delete_branch_on_merge=true"]),
    )
}

/// The command that shows a PR's description.
pub open spec fn pr_body_command(url: Seq<char>) -> command::CommandView {
    command::gh(seq!["pr"@, "view"@, url, "--json"@, "body"@, "--jq"@, ".body"@])
}

/// Asks for the description of the PR at `url`.
pub fn pr_body(url: &str) -> (r: Command)
    ensures
        r.deep_view() == pr_body_command(url@),
{
    Command::gh(command::words(&["pr", "view", url, "--json", "body", "--jq", ".body"]))
}

/// The command that replaces a PR's description.
pub open spec fn set_pr_body_command(url: Seq<char>, body: Seq<char>) -> command::CommandView {
    command::gh(seq!["pr"@, "edit"@, url, "--body"@, body])
}

/// Replace the description of the PR at `url`.
pub fn set_pr_body(url: &str, body: &str) -> (r: Command)
    ensures
        r.deep_view() == set_pr_body_command(url@, body@),
{
    Command::gh(command::words(&["pr", "edit", url, "--body", body]))
}

// --- looking up a repository ------------------------------------------------

/// A lookup of one repository: `gh` is run, then its JSON is decoded.
#[derive(Debug)]
pub enum RepoQuery {
    Ask { name: Option<String> },
    Decode { text: String },
    Done(Result<RepoInfo, Error>),
}

/// The model of a [`RepoQuery`].
#[verifier::ext_equal]
pub enum RepoQueryView {
    Ask { name: Option<Seq<char>> },
    Decode { text: Seq<char> },
    Done(Result<RepoInfoView, Seq<char>>),
}

impl DeepView for RepoQuery {
    type V = RepoQueryView;

    open spec fn deep_view(&self) -> RepoQueryView {
        match self {
            RepoQuery::Ask { name } => RepoQueryView::Ask { name: name.deep_view() },
            RepoQuery::Decode { text } => RepoQueryView::Decode { text: text@ },
            RepoQuery::Done(r) => RepoQueryView::Done(command::seen(*r)),
        }
    }
}

/// The text for JSON that does not have the expected shape.
pub open spec fn undecodable(what: Seq<char>, json: Seq<char>, cause: Seq<char>) -> Seq<char> {
    command::in_context("could not parse `"@ + what + "` output: "@ + json, cause)
}

/// The error for JSON that does not have the expected shape.
pub fn decode_error(what: &str, json: &str, cause: &str) -> (r: Error)
    ensures
        r.message@ == undecodable(what@, json@, cause@),
{
    let mut context = "could not parse `".to_owned();
    context.append(what);
    context.append("` output: ");
    context.append(json);
    Error::new(cause).context(context.as_str())
}

/// What the lookup waits for.
pub open spec fn repo_query_action(q: RepoQueryView) -> Option<step::ActionView> {
    match q {
        RepoQueryView::Ask { name } => Some(step::ActionView::Run(repo_info_command(name))),
        RepoQueryView::Decode { text } => Some(step::ActionView::DecodeRepo(text)),
        RepoQueryView::Done(_) => None,
    }
}

/// How the lookup goes on.
pub open spec fn repo_query_next(q: RepoQueryView, e: step::EventView) -> RepoQueryView {
    match q {
        RepoQueryView::Ask { name } => match e {
            step::EventView::Ran(reply) => match command::captured(repo_info_command(name), reply) {
                Ok(text) => RepoQueryView::Decode { text },
                Err(e) => RepoQueryView::Done(Err(e)),
            },
            _ => RepoQueryView::Done(Err(step::unexpected_text())),
        },
        RepoQueryView::Decode { text } => match e {
            step::EventView::Repo(Ok(info)) => RepoQueryView::Done(Ok(info)),
            step::EventView::Repo(Err(cause)) => RepoQueryView::Done(
                Err(undecodable("gh repo view"@, text, cause)),
            ),
            _ => RepoQueryView::Done(Err(step::unexpected_text())),
        },
        RepoQueryView::Done(r) => RepoQueryView::Done(r),
    }
}

/// The questions left in the lookup.
pub open spec fn repo_questions(q: RepoQueryView) -> int {
    match q {
        RepoQueryView::Ask { .. } => 2,
        RepoQueryView::Decode { .. } => 1,
        RepoQueryView::Done(_) => 0,
    }
}

impl RepoQuery {
    /// What the lookup waits for; `None` once it is done.
    pub fn action(&self) -> (r: Option<Action>)
        ensures
            r.deep_view() == repo_query_action(self.deep_view()),
    {
        match self {
            RepoQuery::Ask { name } => {
                let name = match name {
                    Some(n) => Some(n.as_str()),
                    None => None,
                };
                Some(Action::Run(repo_info(name)))
            },
            RepoQuery::Decode { text } => Some(Action::DecodeRepo(text.clone())),
            RepoQuery::Done(_) => None,
        }
    }

    /// Goes on with what came back.
    pub fn step(self, event: Event) -> (r: RepoQuery)
        ensures
            r.deep_view() == repo_query_next(self.deep_view(), event.deep_view()),
    {
        match self {
            RepoQuery::Ask { name } => match event {
                Event::Ran(reply) => {
                    let name = match &name {
                        Some(n) => Some(n.as_str()),
                        None => None,
                    };
                    match command::run_capture(&repo_info(name), &reply) {
                        Ok(text) => RepoQuery::Decode { text },
                        Err(e) => RepoQuery::Done(Err(e)),
                    }
                },
                _ => RepoQuery::Done(Err(step::unexpected())),
            },
            RepoQuery::Decode { text } => match event {
                Event::Repo(Ok(info)) => RepoQuery::Done(Ok(info)),
                Event::Repo(Err(cause)) => RepoQuery::Done(
                    Err(decode_error("gh repo view", text.as_str(), cause.as_str())),
                ),
                _ => RepoQuery::Done(Err(step::unexpected())),
            },
            RepoQuery::Done(r) => RepoQuery::Done(r),
        }
    }
}

} // verus!
