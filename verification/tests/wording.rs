use stackymcstackface::command::{Error, Reply};
use stackymcstackface::gh::{
    create_pr, decode_error, list_open_prs, pr_body, repo_info, set_delete_branch_on_merge,
    set_pr_body, CreatePrOpts, OpenPr, RepoInfo, RepoQuery,
};
use stackymcstackface::git::{GitOutput, InProgress, RepoState};
use stackymcstackface::parent::Parent;
use stackymcstackface::plan::{
    declined_auto_delete, merge_body_with_footer, offer_auto_delete, plan_auto_delete,
    plan_sentence, rescue_wrong_remote, stack_footer, warn_no_auto_delete, AutoDelete,
};
use stackymcstackface::stack::{git_step, guard_state, StackOpts};
use stackymcstackface::step::{Action, Event};
use stackymcstackface::ui::Console;

#[test]
fn footer_appends_with_separator() {
    let merged = merge_body_with_footer("Some PR body.", "Stacked on #5.");
    assert_eq!(merged, "Some PR body.\n\n---\n\nStacked on #5.");
}

#[test]
fn footer_trims_trailing_whitespace_before_separator() {
    let merged = merge_body_with_footer("Body with trailing newline.\n\n", "Stacked on #5.");
    assert_eq!(
        merged,
        "Body with trailing newline.\n\n---\n\nStacked on #5."
    );
}

#[test]
fn footer_replaces_empty_body() {
    assert_eq!(
        merge_body_with_footer("", "Stacked on #5."),
        "Stacked on #5."
    );
    assert_eq!(
        merge_body_with_footer("   \n\n", "Stacked on #5."),
        "Stacked on #5."
    );
}

#[test]
fn footer_keeps_leading_whitespace() {
    assert_eq!(
        merge_body_with_footer("  indented\u{a0}\u{2028}", "f"),
        "  indented\n\n---\n\nf"
    );
}

#[test]
fn footer_names_the_parent() {
    assert_eq!(
        stack_footer(421, "feat/parser-cleanup"),
        "Stacked on #421 (`feat/parser-cleanup`) by \
         [stackymcstackface](https://github.com/cjrh/stackymcstackface) ❤️"
    );
    assert_eq!(
        stack_footer(u64::MAX, "b"),
        "Stacked on #18446744073709551615 (`b`) by \
         [stackymcstackface](https://github.com/cjrh/stackymcstackface) ❤️"
    );
}

fn open_pr(number: u64, base: &str) -> OpenPr {
    OpenPr {
        number,
        head_ref_name: "feat".into(),
        head_ref_oid: "deadbeef".into(),
        base_ref_name: base.into(),
        head_repository_owner: "octocat".into(),
        url: format!("https://example/pull/{number}"),
        is_cross_repository: false,
    }
}

#[test]
fn plan_existing_pr_takes_precedence_over_parent() {
    let parent = Parent::Default {
        branch: "main".into(),
    };
    let existing = open_pr(7, "main");
    let (headline, note) = plan_sentence(&parent, Some(&existing), "feat");
    assert_eq!(headline, "push new commits to feat");
    assert_eq!(note.as_deref(), Some("PR #7 already open"));
}

#[test]
fn plan_regular_pr_has_no_note() {
    let parent = Parent::Default {
        branch: "main".into(),
    };
    let (headline, note) = plan_sentence(&parent, None, "feat");
    assert_eq!(headline, "push feat and open a PR with base main");
    assert_eq!(note, None);
}

#[test]
fn plan_stacked_pr_names_parent() {
    let parent = Parent::Pr {
        branch: "feat-base".into(),
        number: 3,
        url: "https://example/pull/3".into(),
        distance: 1,
    };
    let (headline, note) = plan_sentence(&parent, None, "feat");
    assert_eq!(
        headline,
        "push feat and open a stacked PR with base feat-base"
    );
    assert_eq!(note.as_deref(), Some("parent: #3 https://example/pull/3"));
}

fn target(on: bool, admin: bool) -> RepoInfo {
    RepoInfo {
        name_with_owner: "octocat/widgets".to_string(),
        default_branch: "main".to_string(),
        is_fork: false,
        parent_name_with_owner: None,
        delete_branch_on_merge: on,
        viewer_can_administer: admin,
    }
}

#[test]
fn setting_is_looked_after() {
    assert_eq!(plan_auto_delete(&target(true, true), false), AutoDelete::Keep);
    assert_eq!(plan_auto_delete(&target(true, false), true), AutoDelete::Keep);
    assert_eq!(plan_auto_delete(&target(false, false), true), AutoDelete::Warn);
    assert_eq!(plan_auto_delete(&target(false, false), false), AutoDelete::Warn);
    assert_eq!(plan_auto_delete(&target(false, true), true), AutoDelete::Enable);
    assert_eq!(plan_auto_delete(&target(false, true), false), AutoDelete::Offer);
    assert!(target(false, true).viewer_is_admin());
    assert!(!target(false, false).viewer_is_admin());
}

#[test]
fn setting_warnings() {
    let t = target(false, false);
    assert_eq!(
        warn_no_auto_delete(&t),
        "`delete_branch_on_merge` is OFF on octocat/widgets and you lack admin rights to \
         change it. After a stack PR merges, GitHub will not delete the head \
         branch and the next PR will not auto-retarget to `main`. Ask an \
         admin to enable it:\n\
         gh api -X PATCH /repos/octocat/widgets -F delete_branch_on_merge=true"
    );
    assert_eq!(
        offer_auto_delete(&t),
        "`delete_branch_on_merge` is OFF on octocat/widgets. After a stack PR merges, \
         GitHub will not delete the head branch and the next PR will not \
         auto-retarget to `main`."
    );
    assert_eq!(
        declined_auto_delete(&t),
        "leaving it off — enable later with: \
         gh api -X PATCH /repos/octocat/widgets -F delete_branch_on_merge=true"
    );
}

#[test]
fn wrong_remote_warning() {
    let upstream = Some(("origin".to_string(), "feat".to_string()));
    assert_eq!(
        rescue_wrong_remote(&upstream, "upstream").as_deref(),
        Some(
            "current branch tracks `origin/...` but the merge target is `upstream`.\n\
             Stacked PRs only work when the branch lives on the merge-target remote."
        )
    );
    assert_eq!(rescue_wrong_remote(&upstream, "origin"), None);
    assert_eq!(rescue_wrong_remote(&None, "upstream"), None);
}

fn state(branch: Option<&str>, op: Option<InProgress>) -> RepoState {
    RepoState {
        current_branch: branch.map(|b| b.to_string()),
        in_progress: op,
        head_sha: "abc".to_string(),
        upstream: None,
    }
}

fn refusal(r: Result<String, Error>) -> String {
    match r {
        Ok(b) => panic!("{} was accepted", b),
        Err(e) => e.message,
    }
}

#[test]
fn fit_repo_is_accepted() {
    match guard_state(&state(Some("feat"), None)) {
        Ok(branch) => assert_eq!(branch, "feat"),
        Err(e) => panic!("refused: {}", e.message),
    }
}

#[test]
fn unfit_repo_is_refused() {
    let ways = [
        (InProgress::Rebase, "rebase", "rebase --abort | --continue"),
        (InProgress::Merge, "merge", "merge --abort | commit"),
        (
            InProgress::CherryPick,
            "cherry-pick",
            "cherry-pick --abort | --continue",
        ),
        (InProgress::Revert, "revert", "revert --abort | --continue"),
        (InProgress::Bisect, "bisect", "bisect reset"),
        (
            InProgress::ApplyMailbox,
            "am (mailbox apply)",
            "am --abort | --continue",
        ),
    ];
    for (op, label, way) in ways {
        assert_eq!(
            refusal(guard_state(&state(Some("feat"), Some(op)))),
            format!(
                "refusing to push: a {label} is in progress. Resolve it first (`git {way}`) \
                 and try again."
            )
        );
    }
    assert_eq!(
        refusal(guard_state(&state(None, None))),
        "HEAD is detached; check out a branch before pushing"
    );
}

#[test]
fn git_steps_by_verbosity() {
    let plain = Console::detect(false, false);
    assert_eq!(
        git_step(&plain, 0, "fetching origin"),
        (String::new(), GitOutput::Quiet)
    );
    assert_eq!(
        git_step(&plain, 1, "fetching origin"),
        (
            "  fetching origin\n".to_string(),
            GitOutput::Stream { verbose: false }
        )
    );
    assert_eq!(
        git_step(&plain, 255, "fetching origin"),
        (
            "  fetching origin\n".to_string(),
            GitOutput::Stream { verbose: true }
        )
    );
}

#[test]
fn options_default_to_nothing() {
    let opts = StackOpts::default();
    assert_eq!(opts.title, None);
    assert_eq!(opts.body, None);
    assert!(!opts.draft && !opts.web && !opts.force_with_lease && !opts.yes);
    assert_eq!(opts.verbose, 0);
}

#[test]
fn questions_to_github() {
    assert_eq!(
        repo_info(None).args,
        vec![
            "repo",
            "view",
            "--json",
            "nameWithOwner,defaultBranchRef,isFork,parent,deleteBranchOnMerge,viewerCanAdminister",
        ]
    );
    assert_eq!(repo_info(Some("octocat/widgets")).args[2], "octocat/widgets");
    assert_eq!(repo_info(Some("octocat/widgets")).args.len(), 5);
    assert_eq!(
        list_open_prs("octocat/widgets").line(),
        "gh pr list --repo octocat/widgets --state open --limit 2147483647 --json \
         number,headRefName,headRefOid,baseRefName,headRepositoryOwner,url,isCrossRepository"
    );
    assert_eq!(
        pr_body("https://example/pull/3").line(),
        "gh pr view https://example/pull/3 --json body --jq .body"
    );
}

#[test]
fn changes_on_github() {
    assert_eq!(
        set_delete_branch_on_merge("octocat/widgets").line(),
        "gh api -X PATCH /repos/octocat/widgets -F delete_branch_on_merge=true"
    );
    assert_eq!(
        set_pr_body("https://example/pull/3", "new body").args,
        vec!["pr", "edit", "https://example/pull/3", "--body", "new body"]
    );
}

#[test]
fn pr_creation_arguments() {
    let create = |title, body, draft, web| {
        create_pr(
            "o/r",
            "base",
            "head",
            &CreatePrOpts {
                title,
                body,
                draft,
                web,
            },
        )
        .line()
    };
    let start = "gh pr create --repo o/r --base base --head head";
    assert_eq!(
        create(Some("T"), Some("B"), false, false),
        format!("{start} --title T --body B")
    );
    assert_eq!(
        create(Some("T"), None, false, false),
        format!("{start} --title T --fill")
    );
    assert_eq!(
        create(None, Some("B"), true, false),
        format!("{start} --body B --fill --draft")
    );
    assert_eq!(
        create(None, None, true, true),
        format!("{start} --fill --draft --web")
    );
    assert_eq!(
        create_pr("o/r", "base", "head", &CreatePrOpts::default()).line(),
        format!("{start} --fill")
    );
}

#[test]
fn repository_lookup() {
    let ask = RepoQuery::Ask {
        name: Some("octocat/widgets".to_string()),
    };
    match ask.action() {
        Some(Action::Run(c)) => assert!(c.line().starts_with("gh repo view octocat/widgets ")),
        other => panic!("unexpected action: {:?}", other),
    }
    let decode = ask.step(Event::Ran(Reply::Exited {
        code: Some(0),
        stdout: b"{}\n".to_vec(),
        stderr: Vec::new(),
    }));
    match decode.action() {
        Some(Action::DecodeRepo(json)) => assert_eq!(json, "{}"),
        other => panic!("unexpected action: {:?}", other),
    }
    match decode.step(Event::Repo(Err("missing field".to_string()))) {
        RepoQuery::Done(Err(e)) => assert_eq!(
            e.message,
            "could not parse `gh repo view` output: {}: missing field"
        ),
        other => panic!("unexpected end: {:?}", other),
    }
    let found = RepoQuery::Decode {
        text: "{}".to_string(),
    }
    .step(Event::Repo(Ok(target(true, false))));
    assert!(found.action().is_none());
    match found {
        RepoQuery::Done(Ok(info)) => assert_eq!(info.name_with_owner, "octocat/widgets"),
        other => panic!("unexpected end: {:?}", other),
    }
    match (RepoQuery::Ask { name: None }).step(Event::Answer(true)) {
        RepoQuery::Done(Err(e)) => assert_eq!(
            e.message,
            "internal error: the event does not answer the pending action"
        ),
        other => panic!("unexpected end: {:?}", other),
    }
    assert_eq!(
        decode_error("gh pr list", "[", "eof").message,
        "could not parse `gh pr list` output: [: eof"
    );
}
