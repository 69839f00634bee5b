use stackymcstackface::command::{words, Reply};
use stackymcstackface::gh::{OpenPr, RepoInfo};
use stackymcstackface::stack::{run, Phase, Push, StackOpts};
use stackymcstackface::step::{Action, Event};
use stackymcstackface::ui::Console;

const REPO_VIEW: &str = "gh repo view --json \
    nameWithOwner,defaultBranchRef,isFork,parent,deleteBranchOnMerge,viewerCanAdminister";
const PARENT_VIEW: &str = "gh repo view octocat/widgets --json \
    nameWithOwner,defaultBranchRef,isFork,parent,deleteBranchOnMerge,viewerCanAdminister";
const PR_LIST: &str = "gh pr list --repo octocat/widgets --state open --limit 2147483647 --json \
    number,headRefName,headRefOid,baseRefName,headRepositoryOwner,url,isCrossRepository";
const REMOTES: &str = "origin\tgit@github.com:octocat/widgets.git (fetch)\n\
    origin\tgit@github.com:octocat/widgets.git (push)\n";

fn said(stdout: &str) -> Event {
    Event::Ran(Reply::Exited {
        code: Some(0),
        stdout: stdout.as_bytes().to_vec(),
        stderr: Vec::new(),
    })
}

fn exited(code: i32) -> Event {
    Event::Ran(Reply::Exited {
        code: Some(code),
        stdout: Vec::new(),
        stderr: b"why\n".to_vec(),
    })
}

fn repo() -> RepoInfo {
    RepoInfo {
        name_with_owner: "octocat/widgets".to_string(),
        default_branch: "main".to_string(),
        is_fork: false,
        parent_name_with_owner: None,
        delete_branch_on_merge: true,
        viewer_can_administer: false,
    }
}

fn pr(number: u64, head: &str, oid: &str) -> OpenPr {
    OpenPr {
        number,
        head_ref_name: head.to_string(),
        head_ref_oid: oid.to_string(),
        base_ref_name: "main".to_string(),
        head_repository_owner: "octocat".to_string(),
        url: format!("https://github.com/octocat/widgets/pull/{number}"),
        is_cross_repository: false,
    }
}

fn shown(action: &Action) -> String {
    match action {
        Action::Run(c) => c.line(),
        Action::Look { dir, .. } => format!("look in {dir}"),
        Action::DecodeRepo(json) => format!("decode repo {json}"),
        Action::DecodePrs(json) => format!("decode prs {json}"),
        Action::Confirm(prompt) => format!("confirm {prompt}"),
    }
}

/// Goes on with a run, holding each action against the expected one, and
/// collects what it prints.
fn go_on(mut push: Push, printed: &mut String, script: Vec<(&str, Event)>) -> Push {
    for (action, event) in script {
        match push.action() {
            Some(a) => assert_eq!(shown(&a), action),
            None => panic!("{} was expected, but the run is over: {:?}", action, push.phase),
        }
        push = push.step(event);
        printed.push_str(&push.output);
    }
    push
}

fn start(opts: StackOpts, printed: &mut String) -> Push {
    let push = run(opts, Console::detect(false, false));
    printed.push_str(&push.output);
    push
}

fn reading(upstream: Event) -> Vec<(&'static str, Event)> {
    vec![
        ("git rev-parse --git-dir", said(".git\n")),
        ("git rev-parse HEAD", said("head\n")),
        ("git symbolic-ref --quiet --short HEAD", said("feat\n")),
        (
            "git rev-parse --abbrev-ref --symbolic-full-name @{upstream}",
            upstream,
        ),
        ("look in .git", Event::Present(Vec::new())),
    ]
}

/// The reading of a branch that tracks a branch of `remote`.
fn reading_upstream(upstream: &str, remote: &str) -> Vec<(&'static str, Event)> {
    let mut script = reading(said(upstream));
    script.insert(4, ("git config --get branch.feat.remote", said(remote)));
    script
}

fn resolving(info: RepoInfo) -> Vec<(&'static str, Event)> {
    vec![
        (REPO_VIEW, said("{}\n")),
        ("decode repo {}", Event::Repo(Ok(info))),
        ("git config --get stack.remote", exited(1)),
        ("git remote -v", said(REMOTES)),
    ]
}

fn listing(prs: Vec<OpenPr>) -> Vec<(&'static str, Event)> {
    vec![
        ("git fetch origin", said("")),
        (PR_LIST, said("[]\n")),
        ("decode prs []", Event::Prs(Ok(prs))),
    ]
}

fn default_base() -> Vec<(&'static str, Event)> {
    vec![
        (
            "git rev-parse --verify --quiet refs/remotes/origin/main^{object}",
            said("m0"),
        ),
        ("git merge-base m0 head", said("")),
    ]
}

fn stacked_base() -> Vec<(&'static str, Event)> {
    vec![
        ("git rev-parse --verify --quiet o421^{object}", said("o421")),
        ("git merge-base --is-ancestor o421 head", said("")),
        ("git rev-list --count o421..head", said("3")),
    ]
}

/// A run up to its plan, for a branch without upstream.
fn planned(opts: StackOpts, prs: Vec<OpenPr>, base: Vec<(&str, Event)>) -> (Push, String) {
    let mut printed = String::new();
    let push = start(opts, &mut printed);
    let push = go_on(push, &mut printed, reading(exited(128)));
    let push = go_on(push, &mut printed, resolving(repo()));
    let push = go_on(push, &mut printed, listing(prs));
    let push = go_on(push, &mut printed, base);
    (push, printed)
}

fn succeeded(push: &Push) {
    assert!(push.action().is_none());
    assert!(matches!(push.phase, Phase::Finished(Ok(()))), "{:?}", push.phase);
}

fn error_of(push: Push) -> String {
    assert!(push.action().is_none());
    match push.phase {
        Phase::Finished(Err(e)) => e.message,
        other => panic!("an error is expected, not {:?}", other),
    }
}

#[test]
fn regular_pr_off_main() {
    let (push, mut printed) = planned(StackOpts::default(), Vec::new(), default_base());
    let push = go_on(
        push,
        &mut printed,
        vec![
            ("git push --set-upstream origin feat", said("")),
            (
                "gh pr create --repo octocat/widgets --base main --head feat --fill",
                said("https://github.com/octocat/widgets/pull/421\n"),
            ),
        ],
    );
    succeeded(&push);
    assert_eq!(
        printed,
        "stackymcstackface\n\
         \nPLAN\n\
         \x20 octocat/widgets · default main · remote origin\n\
         \x20 push feat and open a PR with base main\n\
         \nEXECUTE\n\
         \x20 ✔ pushed feat to origin\n\
         \x20 ✔ opened pull request\n\
         \n  https://github.com/octocat/widgets/pull/421\n"
    );
}

#[test]
fn stacked_pr_gets_a_footer() {
    let (push, mut printed) = planned(
        StackOpts::default(),
        vec![pr(421, "base", "o421")],
        stacked_base(),
    );
    let body = "Body\n\n---\n\nStacked on #421 (`base`) by \
                [stackymcstackface](https://github.com/cjrh/stackymcstackface) ❤️";
    let edit = format!("gh pr edit https://github.com/octocat/widgets/pull/422 --body {body}");
    let push = go_on(
        push,
        &mut printed,
        vec![
            ("git push --set-upstream origin feat", said("")),
            (
                "gh pr create --repo octocat/widgets --base base --head feat --fill",
                said("https://github.com/octocat/widgets/pull/422\n"),
            ),
            (
                "gh pr view https://github.com/octocat/widgets/pull/422 --json body --jq .body",
                said("Body\n\n"),
            ),
            (&edit, said("")),
        ],
    );
    succeeded(&push);
    assert_eq!(
        printed,
        "stackymcstackface\n\
         \nPLAN\n\
         \x20 octocat/widgets · default main · remote origin\n\
         \x20 push feat and open a stacked PR with base base\n\
         \x20   parent: #421 https://github.com/octocat/widgets/pull/421\n\
         \nEXECUTE\n\
         \x20 ✔ pushed feat to origin\n\
         \x20 ✔ opened pull request\n\
         \x20 ✔ noted parent #421 in description\n\
         \n  https://github.com/octocat/widgets/pull/422\n"
    );
}

#[test]
fn footer_failures_only_warn() {
    let created = vec![
        ("git push --set-upstream origin feat", said("")),
        (
            "gh pr create --repo octocat/widgets --base base --head feat --fill",
            said("https://x/422"),
        ),
    ];
    let (push, mut printed) = planned(
        StackOpts::default(),
        vec![pr(421, "base", "o421")],
        stacked_base(),
    );
    let push = go_on(push, &mut printed, created);
    let push = go_on(
        push,
        &mut printed,
        vec![("gh pr view https://x/422 --json body --jq .body", exited(1))],
    );
    succeeded(&push);
    assert!(printed.ends_with(
        "  ✔ opened pull request\n\
         \x20 ⚠ could not update PR description: gh pr view https://x/422 --json body --jq .body \
         failed: why\n\
         \n  https://x/422\n"
    ));
}

#[test]
fn stacked_pr_in_the_browser_has_no_footer() {
    let opts = StackOpts {
        web: true,
        ..StackOpts::default()
    };
    let (push, mut printed) = planned(opts, vec![pr(421, "base", "o421")], stacked_base());
    let push = go_on(
        push,
        &mut printed,
        vec![
            ("git push --set-upstream origin feat", said("")),
            (
                "gh pr create --repo octocat/widgets --base base --head feat --fill --web",
                said("\n"),
            ),
        ],
    );
    succeeded(&push);
    assert!(printed.ends_with("  ✔ opened pull request\n  opened in your browser\n"));
}

#[test]
fn existing_pr_is_only_pushed() {
    let (push, mut printed) = planned(
        StackOpts {
            force_with_lease: true,
            ..StackOpts::default()
        },
        vec![pr(421, "base", "o421"), pr(422, "feat", "o422")],
        stacked_base(),
    );
    let push = go_on(
        push,
        &mut printed,
        vec![(
            "git push --set-upstream --force-with-lease origin feat",
            said(""),
        )],
    );
    succeeded(&push);
    assert!(printed.ends_with(
        "  push new commits to feat\n    PR #422 already open\n\
         \nEXECUTE\n  ✔ pushed feat to origin\n\
         \n  https://github.com/octocat/widgets/pull/422\n  base on GitHub: main\n"
    ));
}

#[test]
fn same_branch_name_on_a_fork_is_another_pr() {
    let mut foreign = pr(9, "feat", "o9");
    foreign.is_cross_repository = true;
    let (push, mut printed) = planned(StackOpts::default(), vec![foreign], default_base());
    let push = go_on(
        push,
        &mut printed,
        vec![("git push --set-upstream origin feat", said(""))],
    );
    assert!(matches!(push.phase, Phase::Create(_)));
}

#[test]
fn title_body_and_draft_are_handed_on() {
    let (push, mut printed) = planned(
        StackOpts {
            title: Some("T".to_string()),
            body: Some("B".to_string()),
            draft: true,
            ..StackOpts::default()
        },
        Vec::new(),
        default_base(),
    );
    let push = go_on(
        push,
        &mut printed,
        vec![
            ("git push --set-upstream origin feat", said("")),
            (
                "gh pr create --repo octocat/widgets --base main --head feat --title T --body B \
                 --draft",
                said("https://x/1"),
            ),
        ],
    );
    succeeded(&push);
}

#[test]
fn fork_pushes_to_its_parent() {
    let mut printed = String::new();
    let push = start(StackOpts::default(), &mut printed);
    let push = go_on(push, &mut printed, reading(exited(128)));
    let fork = RepoInfo {
        name_with_owner: "you/widgets".to_string(),
        is_fork: true,
        parent_name_with_owner: Some("octocat/widgets".to_string()),
        ..repo()
    };
    let push = go_on(
        push,
        &mut printed,
        vec![
            (REPO_VIEW, said("{1}")),
            ("decode repo {1}", Event::Repo(Ok(fork))),
            (PARENT_VIEW, said("{2}")),
            ("decode repo {2}", Event::Repo(Ok(repo()))),
            ("git config --get stack.remote", exited(1)),
            (
                "git remote -v",
                said(
                    "origin\thttps://github.com/octocat/widgets (fetch)\n\
                     mine\tgit@github.com:you/widgets.git (fetch)\n\
                     upstream\tgit@github.com:octocat/widgets.git (fetch)\n",
                ),
            ),
            ("git fetch upstream", said("")),
        ],
    );
    assert!(matches!(push.phase, Phase::ListPrs(_)));
    assert!(printed.ends_with("  octocat/widgets · default main · remote upstream\n"));
}

#[test]
fn wrong_remote_is_rescued_on_request() {
    let mut printed = String::new();
    let push = start(StackOpts::default(), &mut printed);
    let push = go_on(push, &mut printed, reading_upstream("mine/feat\n", "mine\n"));
    let push = go_on(push, &mut printed, resolving(repo()));
    assert!(printed.ends_with(
        "  ⚠ current branch tracks `mine/...` but the merge target is `origin`.\n\
         \x20   Stacked PRs only work when the branch lives on the merge-target remote.\n"
    ));
    let push = go_on(
        push,
        &mut printed,
        vec![
            (
                "confirm Re-push to `origin` and switch tracking?",
                Event::Answer(true),
            ),
            ("git fetch origin", said("")),
        ],
    );
    assert!(matches!(push.phase, Phase::ListPrs(_)));
}

#[test]
fn remote_name_with_a_slash_is_no_wrong_remote() {
    let mut printed = String::new();
    let push = start(StackOpts::default(), &mut printed);
    let push = go_on(
        push,
        &mut printed,
        reading_upstream("team/origin/feat", "team/origin"),
    );
    let push = go_on(
        push,
        &mut printed,
        vec![
            (REPO_VIEW, said("{}")),
            ("decode repo {}", Event::Repo(Ok(repo()))),
            ("git config --get stack.remote", said("team/origin")),
            ("git fetch team/origin", said("")),
        ],
    );
    assert!(matches!(push.phase, Phase::ListPrs(_)));
    assert!(!printed.contains("⚠"));
}

#[test]
fn clone_that_is_no_fork_prefers_origin() {
    let mut printed = String::new();
    let push = start(StackOpts::default(), &mut printed);
    let push = go_on(push, &mut printed, reading(exited(128)));
    let push = go_on(
        push,
        &mut printed,
        vec![
            (REPO_VIEW, said("{}")),
            ("decode repo {}", Event::Repo(Ok(repo()))),
            ("git config --get stack.remote", exited(1)),
            (
                "git remote -v",
                said(
                    "origin\tgit@github.com:octocat/widgets.git (fetch)\n\
                     upstream\thttps://github.com/octocat/widgets (fetch)\n",
                ),
            ),
            ("git fetch origin", said("")),
        ],
    );
    assert!(matches!(push.phase, Phase::ListPrs(_)));
}

#[test]
fn declined_rescue_ends_the_run() {
    let mut printed = String::new();
    let push = start(StackOpts::default(), &mut printed);
    let push = go_on(push, &mut printed, reading_upstream("mine/feat\n", "mine\n"));
    let push = go_on(push, &mut printed, resolving(repo()));
    let push = go_on(
        push,
        &mut printed,
        vec![(
            "confirm Re-push to `origin` and switch tracking?",
            Event::Answer(false),
        )],
    );
    assert_eq!(
        error_of(push),
        "aborting: branch must live on `origin` for stacking"
    );
}

#[test]
fn yes_skips_the_prompts() {
    let mut printed = String::new();
    let opts = StackOpts {
        yes: true,
        ..StackOpts::default()
    };
    let push = start(opts, &mut printed);
    let push = go_on(push, &mut printed, reading_upstream("mine/feat\n", "mine\n"));
    let off = RepoInfo {
        delete_branch_on_merge: false,
        viewer_can_administer: true,
        ..repo()
    };
    let push = go_on(push, &mut printed, resolving(off));
    let push = go_on(push, &mut printed, listing(Vec::new()));
    let push = go_on(push, &mut printed, default_base());
    let push = go_on(
        push,
        &mut printed,
        vec![(
            "gh api -X PATCH /repos/octocat/widgets -F delete_branch_on_merge=true",
            said("{}"),
        )],
    );
    assert!(matches!(push.phase, Phase::Push(_)));
    assert!(printed.ends_with("\nEXECUTE\n  ✔ enabled delete_branch_on_merge\n"));
}

#[test]
fn yes_does_not_silence_the_setting() {
    let mut printed = String::new();
    let opts = StackOpts {
        yes: true,
        ..StackOpts::default()
    };
    let push = start(opts, &mut printed);
    let push = go_on(push, &mut printed, reading(exited(128)));
    let off = RepoInfo {
        delete_branch_on_merge: false,
        viewer_can_administer: true,
        ..repo()
    };
    let push = go_on(push, &mut printed, resolving(off));
    match push.phase {
        Phase::Fetch(aim) => assert!(aim.enable),
        other => panic!("unexpected phase: {:?}", other),
    }
    assert!(printed.ends_with(
        "  octocat/widgets · default main · remote origin\n\
         \x20 ⚠ `delete_branch_on_merge` is OFF on octocat/widgets. After a stack PR merges, \
         GitHub will not delete the head branch and the next PR will not auto-retarget to `main`.\n"
    ));
}

#[test]
fn wrong_remote_is_noticed_under_another_name() {
    let mut printed = String::new();
    let push = start(StackOpts::default(), &mut printed);
    let push = go_on(push, &mut printed, reading_upstream("mirror/feat", "mine"));
    let push = go_on(push, &mut printed, resolving(repo()));
    assert!(matches!(push.phase, Phase::OfferRescue(_)));
    assert!(printed.contains(
        "  ⚠ current branch tracks `mine/...` but the merge target is `origin`.\n"
    ));
}

#[test]
fn setting_is_offered_to_admins() {
    let mut printed = String::new();
    let push = start(StackOpts::default(), &mut printed);
    let push = go_on(push, &mut printed, reading(exited(128)));
    let off = RepoInfo {
        delete_branch_on_merge: false,
        viewer_can_administer: true,
        ..repo()
    };
    let push = go_on(push, &mut printed, resolving(off));
    assert!(printed.ends_with(
        "  octocat/widgets · default main · remote origin\n\
         \x20 ⚠ `delete_branch_on_merge` is OFF on octocat/widgets. After a stack PR merges, \
         GitHub will not delete the head branch and the next PR will not auto-retarget to `main`.\n"
    ));
    let push = go_on(
        push,
        &mut printed,
        vec![(
            "confirm Enable `delete_branch_on_merge` now?",
            Event::Answer(false),
        )],
    );
    assert!(printed.ends_with(
        "  leaving it off — enable later with: \
         gh api -X PATCH /repos/octocat/widgets -F delete_branch_on_merge=true\n"
    ));
    assert!(matches!(push.phase, Phase::Fetch(_)));
}

#[test]
fn setting_failure_does_not_stop_the_push() {
    let mut printed = String::new();
    let push = start(StackOpts::default(), &mut printed);
    let push = go_on(push, &mut printed, reading(exited(128)));
    let off = RepoInfo {
        delete_branch_on_merge: false,
        viewer_can_administer: true,
        ..repo()
    };
    let push = go_on(push, &mut printed, resolving(off));
    let push = go_on(
        push,
        &mut printed,
        vec![(
            "confirm Enable `delete_branch_on_merge` now?",
            Event::Answer(true),
        )],
    );
    let push = go_on(push, &mut printed, listing(Vec::new()));
    let push = go_on(push, &mut printed, default_base());
    let push = go_on(
        push,
        &mut printed,
        vec![
            (
                "gh api -X PATCH /repos/octocat/widgets -F delete_branch_on_merge=true",
                exited(1),
            ),
            ("git push --set-upstream origin feat", said("")),
        ],
    );
    assert!(matches!(push.phase, Phase::Create(_)));
    assert!(printed.contains(
        "  ⚠ could not enable delete_branch_on_merge: \
         gh api -X PATCH /repos/octocat/widgets -F delete_branch_on_merge=true failed: why\n"
    ));
}

#[test]
fn setting_is_only_a_warning_for_others() {
    let mut printed = String::new();
    let push = start(StackOpts::default(), &mut printed);
    let push = go_on(push, &mut printed, reading(exited(128)));
    let off = RepoInfo {
        delete_branch_on_merge: false,
        ..repo()
    };
    let push = go_on(push, &mut printed, resolving(off));
    assert!(matches!(push.phase, Phase::Fetch(_)));
    assert!(printed.ends_with(
        "Ask an admin to enable it:\n    \
         gh api -X PATCH /repos/octocat/widgets -F delete_branch_on_merge=true\n"
    ));
}

#[test]
fn verbose_streams_git_output() {
    let mut printed = String::new();
    let opts = StackOpts {
        verbose: 2,
        ..StackOpts::default()
    };
    let push = start(opts, &mut printed);
    let push = go_on(push, &mut printed, reading_upstream("origin/feat", "origin"));
    let push = go_on(push, &mut printed, resolving(repo()));
    assert!(printed.ends_with("  fetching origin\n"));
    match push.action() {
        Some(Action::Run(c)) => {
            assert_eq!(c.line(), "git fetch --verbose origin");
            assert!(c.inherit);
        }
        other => panic!("unexpected action: {:?}", other),
    }
    assert_eq!(push.pending(), None);
    let push = go_on(
        push,
        &mut printed,
        vec![
            ("git fetch --verbose origin", said("")),
            (PR_LIST, said("[]")),
            ("decode prs []", Event::Prs(Ok(Vec::new()))),
        ],
    );
    let push = go_on(push, &mut printed, default_base());
    assert!(printed.ends_with("\nEXECUTE\n  pushing feat → origin\n"));
    assert_eq!(push.pending(), None);
}

#[test]
fn spinner_labels() {
    let label = |push: &Push| push.pending().unwrap_or_default();
    let mut printed = String::new();
    let push = start(StackOpts::default(), &mut printed);
    assert_eq!(push.pending(), None);
    let push = go_on(push, &mut printed, reading(exited(128)));
    assert_eq!(label(&push), "resolving merge target");
    let push = go_on(push, &mut printed, resolving(repo()));
    assert_eq!(label(&push), "fetching origin");
    let push = go_on(push, &mut printed, vec![("git fetch origin", said(""))]);
    assert_eq!(label(&push), "scanning open pull requests");
    let push = go_on(
        push,
        &mut printed,
        vec![
            (PR_LIST, said("[]")),
            (
                "decode prs []",
                Event::Prs(Ok(vec![pr(421, "base", "o421")])),
            ),
        ],
    );
    assert_eq!(push.pending(), None);
    let push = go_on(push, &mut printed, stacked_base());
    assert_eq!(label(&push), "pushing feat → origin");
    let push = go_on(
        push,
        &mut printed,
        vec![("git push --set-upstream origin feat", said(""))],
    );
    assert_eq!(label(&push), "creating pull request");
    let push = go_on(
        push,
        &mut printed,
        vec![(
            "gh pr create --repo octocat/widgets --base base --head feat --fill",
            said("https://x/1"),
        )],
    );
    assert_eq!(label(&push), "noting parent in PR description");
}

#[test]
fn unfit_states_are_refused() {
    let mut printed = String::new();
    let not_a_repo = go_on(
        start(StackOpts::default(), &mut printed),
        &mut printed,
        vec![("git rev-parse --git-dir", exited(128))],
    );
    assert_eq!(
        error_of(not_a_repo),
        "could not read git state: git rev-parse --git-dir failed: why"
    );

    let mut script = reading(exited(128));
    script[4].1 = Event::Present(words(&["rebase-merge"]));
    let rebasing = go_on(start(StackOpts::default(), &mut printed), &mut printed, script);
    assert_eq!(
        error_of(rebasing),
        "refusing to push: a rebase is in progress. Resolve it first \
         (`git rebase --abort | --continue`) and try again."
    );

    let mut script = reading(exited(128));
    script[2].1 = exited(1);
    let detached = go_on(start(StackOpts::default(), &mut printed), &mut printed, script);
    assert_eq!(
        error_of(detached),
        "HEAD is detached; check out a branch before pushing"
    );
    // Nothing but the banner has been printed.
    assert_eq!(printed, "stackymcstackface\n".repeat(3));
}

#[test]
fn github_failures_are_named() {
    let ready = || {
        let mut printed = String::new();
        let push = start(StackOpts::default(), &mut printed);
        go_on(push, &mut printed, reading(exited(128)))
    };
    let mut printed = String::new();
    let push = go_on(ready(), &mut printed, vec![(REPO_VIEW, exited(4))]);
    assert_eq!(
        error_of(push),
        format!(
            "`gh repo view` failed; is this a GitHub repository and is `gh` authenticated?: \
             {REPO_VIEW} failed: why"
        )
    );
    let push = go_on(
        ready(),
        &mut printed,
        vec![
            (REPO_VIEW, said("{")),
            ("decode repo {", Event::Repo(Err("eof".to_string()))),
        ],
    );
    assert_eq!(
        error_of(push),
        "`gh repo view` failed; is this a GitHub repository and is `gh` authenticated?: \
         could not parse `gh repo view` output: {: eof"
    );
    let fork = || RepoInfo {
        is_fork: true,
        parent_name_with_owner: Some("octocat/widgets".to_string()),
        ..repo()
    };
    let push = go_on(
        ready(),
        &mut printed,
        vec![
            (REPO_VIEW, said("{}")),
            ("decode repo {}", Event::Repo(Ok(fork()))),
            (PARENT_VIEW, exited(1)),
        ],
    );
    assert_eq!(
        error_of(push),
        format!("could not load merge-target repo `octocat/widgets`: {PARENT_VIEW} failed: why")
    );
    let orphan = RepoInfo {
        parent_name_with_owner: None,
        ..fork()
    };
    let push = go_on(
        ready(),
        &mut printed,
        vec![
            (REPO_VIEW, said("{}")),
            ("decode repo {}", Event::Repo(Ok(orphan))),
        ],
    );
    assert_eq!(
        error_of(push),
        "repository is reported as a fork but has no parent"
    );
}

#[test]
fn default_branch_is_refused() {
    let mut printed = String::new();
    let push = start(StackOpts::default(), &mut printed);
    let push = go_on(push, &mut printed, reading(exited(128)));
    let info = RepoInfo {
        default_branch: "feat".to_string(),
        ..repo()
    };
    let push = go_on(
        push,
        &mut printed,
        vec![
            (REPO_VIEW, said("{}")),
            ("decode repo {}", Event::Repo(Ok(info))),
        ],
    );
    assert_eq!(
        error_of(push),
        "current branch `feat` is the default branch of octocat/widgets; \
         create a feature branch first."
    );
}

#[test]
fn later_failures_are_named() {
    let fetching = || {
        let mut printed = String::new();
        let push = start(StackOpts::default(), &mut printed);
        let push = go_on(push, &mut printed, reading(exited(128)));
        go_on(push, &mut printed, resolving(repo()))
    };
    let mut printed = String::new();
    let push = go_on(fetching(), &mut printed, vec![("git fetch origin", exited(1))]);
    assert_eq!(
        error_of(push),
        "git fetch origin failed: git fetch origin failed: why"
    );
    let push = go_on(
        fetching(),
        &mut printed,
        vec![("git fetch origin", said("")), (PR_LIST, exited(1))],
    );
    assert_eq!(
        error_of(push),
        format!("could not list open PRs on the merge target: {PR_LIST} failed: why")
    );
    let push = go_on(
        fetching(),
        &mut printed,
        vec![
            ("git fetch origin", said("")),
            (PR_LIST, said("[")),
            ("decode prs [", Event::Prs(Err("eof".to_string()))),
        ],
    );
    assert_eq!(
        error_of(push),
        "could not list open PRs on the merge target: \
         could not parse `gh pr list` output: [: eof"
    );
    let (push, _) = planned(StackOpts::default(), Vec::new(), default_base());
    let push = go_on(
        push,
        &mut printed,
        vec![("git push --set-upstream origin feat", exited(1))],
    );
    assert_eq!(
        error_of(push),
        "git push origin feat failed -- if you rebased, retry with --force-with-lease: \
         git push --set-upstream origin feat failed: why"
    );
    let (push, _) = planned(StackOpts::default(), Vec::new(), default_base());
    let push = go_on(
        push,
        &mut printed,
        vec![
            ("git push --set-upstream origin feat", said("")),
            (
                "gh pr create --repo octocat/widgets --base main --head feat --fill",
                exited(1),
            ),
        ],
    );
    assert_eq!(
        error_of(push),
        "`gh pr create` failed: gh pr create --repo octocat/widgets --base main --head feat \
         --fill failed: why"
    );
}

#[test]
fn events_out_of_turn_end_the_run() {
    let mut printed = String::new();
    let push = start(StackOpts::default(), &mut printed);
    let push = go_on(push, &mut printed, reading(exited(128)));
    let push = go_on(push, &mut printed, resolving(repo()));
    let push = push.step(Event::Answer(true));
    assert!(push.action().is_none());
    // A run that is over stays as it is.
    assert_eq!(
        error_of(push.step(said(""))),
        "internal error: the event does not answer the pending action"
    );
}
