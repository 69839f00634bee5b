use stackymcstackface::command::{words, Error, Program, Reply};
use stackymcstackface::doctor::{
    probe_branch, probe_delete_on_merge, probe_gh_auth, probe_in_progress, probe_in_repo,
    probe_not_default, probe_target_remote, probe_tool, probe_upstream, probe_version, run,
    Doctor, Phase,
};
use stackymcstackface::gh::RepoInfo;
use stackymcstackface::git::{InProgress, RepoState};
use stackymcstackface::report::{Outcome, Status};
use stackymcstackface::step::{Action, Event};
use stackymcstackface::ui::Palette;

const REPO_VIEW: &str = "gh repo view --json \
    nameWithOwner,defaultBranchRef,isFork,parent,deleteBranchOnMerge,viewerCanAdminister";
const PARENT_VIEW: &str = "gh repo view octocat/widgets --json \
    nameWithOwner,defaultBranchRef,isFork,parent,deleteBranchOnMerge,viewerCanAdminister";
const REMOTES: &str = "origin\tgit@github.com:octocat/widgets.git (fetch)\n\
    origin\tgit@github.com:octocat/widgets.git (push)\n";

fn reply(code: i32, stdout: &str, stderr: &str) -> Reply {
    Reply::Exited {
        code: Some(code),
        stdout: stdout.as_bytes().to_vec(),
        stderr: stderr.as_bytes().to_vec(),
    }
}

fn said(stdout: &str) -> Event {
    Event::Ran(reply(0, stdout, ""))
}

fn exited(code: i32) -> Event {
    Event::Ran(reply(code, "", "why\n"))
}

fn missing() -> Event {
    Event::Ran(Reply::NotRun("No such file or directory".to_string()))
}

fn repo() -> RepoInfo {
    RepoInfo {
        name_with_owner: "octocat/widgets".to_string(),
        default_branch: "main".to_string(),
        is_fork: false,
        parent_name_with_owner: None,
        delete_branch_on_merge: true,
        viewer_can_administer: false,
    }
}

fn state(branch: Option<&str>, upstream: Option<&str>) -> RepoState {
    RepoState {
        current_branch: branch.map(|b| b.to_string()),
        in_progress: None,
        head_sha: "head".to_string(),
        upstream: upstream.map(|u| (u.to_string(), "feat".to_string())),
    }
}

fn verdict(o: Outcome) -> (Status, String) {
    let text = match (o.inline, o.detail) {
        (Some(i), None) => i,
        (None, Some(d)) => d,
        (None, None) => String::new(),
        both => panic!("unexpected: {:?}", both),
    };
    (o.status, text)
}

fn is(status: Status, text: &str) -> (Status, String) {
    (status, text.to_string())
}

#[test]
fn tool_probe() {
    assert_eq!(
        verdict(probe_tool(Program::Git, &reply(0, "git version 2.45.0\nmore\n", ""))),
        is(Status::Pass, "git version 2.45.0")
    );
    assert_eq!(
        verdict(probe_tool(Program::Gh, &reply(0, "", ""))),
        is(Status::Pass, "")
    );
    // Only the first line counts, though it be blank.
    assert_eq!(verdict(probe_version("  \nx")), is(Status::Pass, ""));
    assert_eq!(verdict(probe_version("  v1 \r\nx")), is(Status::Pass, "v1"));
    assert_eq!(
        verdict(probe_tool(Program::Gh, &reply(1, "gh 2", ""))),
        is(Status::Fail, "`gh --version` exited non-zero")
    );
    assert_eq!(
        verdict(probe_tool(Program::Git, &Reply::NotRun("x".to_string()))),
        is(
            Status::Fail,
            "`git` not found on PATH. Install it and retry."
        )
    );
    // What is not UTF-8 is replaced.
    assert_eq!(
        verdict(probe_tool(
            Program::Gh,
            &Reply::Exited {
                code: Some(0),
                stdout: vec![b'v', 0xc3],
                stderr: Vec::new(),
            }
        )),
        is(Status::Pass, "v\u{fffd}")
    );
}

#[test]
fn auth_probe() {
    assert_eq!(
        verdict(probe_gh_auth(&reply(0, "", "logged in"))),
        is(Status::Pass, "")
    );
    assert_eq!(
        verdict(probe_gh_auth(&reply(1, "", " not logged in \n"))),
        is(Status::Fail, "not logged in\nFix: gh auth login")
    );
    assert_eq!(
        verdict(probe_gh_auth(&reply(1, "", ""))),
        is(Status::Fail, "not authenticated\nFix: gh auth login")
    );
    assert_eq!(
        verdict(probe_gh_auth(&Reply::NotRun("gone".to_string()))),
        is(Status::Fail, "could not invoke `gh auth status`: gone")
    );
}

#[test]
fn repo_probes() {
    assert_eq!(
        verdict(probe_in_repo(&reply(0, ".git", ""))),
        is(Status::Pass, "")
    );
    let outside = is(
        Status::Fail,
        "not inside a git working tree (run from a clone)",
    );
    assert_eq!(verdict(probe_in_repo(&reply(128, "", "fatal"))), outside);
    assert_eq!(
        verdict(probe_in_repo(&Reply::NotRun("x".to_string()))),
        outside
    );
    assert_eq!(
        verdict(probe_in_progress(&state(Some("feat"), None))),
        is(Status::Pass, "")
    );
    let mut bisecting = state(Some("feat"), None);
    bisecting.in_progress = Some(InProgress::Bisect);
    assert_eq!(
        verdict(probe_in_progress(&bisecting)),
        is(
            Status::Fail,
            "a bisect is in progress; resolve it before running `push`"
        )
    );
    assert_eq!(
        verdict(probe_branch(&state(Some("feat"), None))),
        is(Status::Pass, "feat")
    );
    assert_eq!(
        verdict(probe_branch(&state(None, None))),
        is(
            Status::Fail,
            "HEAD is detached; `push` requires a named branch. \
             Check out (or create) a branch first."
        )
    );
}

#[test]
fn target_probes() {
    assert_eq!(verdict(probe_delete_on_merge(&repo())), is(Status::Pass, ""));
    let mut off = repo();
    off.delete_branch_on_merge = false;
    assert_eq!(
        verdict(probe_delete_on_merge(&off)),
        is(
            Status::Warn,
            "off on octocat/widgets; once a stack PR merges, the next PR will not \
             auto-retarget. Enable with:\n  \
             gh api -X PATCH /repos/octocat/widgets -f delete_branch_on_merge=true"
        )
    );
    assert_eq!(
        verdict(probe_target_remote(&Ok("origin".to_string()))),
        is(Status::Pass, "origin")
    );
    assert_eq!(
        verdict(probe_target_remote(&Err(Error::new("none")))),
        is(Status::Fail, "none")
    );
}

#[test]
fn branch_probes() {
    assert_eq!(
        verdict(probe_not_default(&state(Some("feat"), None), &repo())),
        is(Status::Pass, "feat")
    );
    assert_eq!(
        verdict(probe_not_default(&state(Some("main"), None), &repo())),
        is(
            Status::Warn,
            "current branch `main` is the default branch of octocat/widgets; \
             `push` would refuse to run here. Create a feature branch first."
        )
    );
    assert_eq!(
        verdict(probe_not_default(&state(None, None), &repo())),
        is(Status::Warn, "HEAD is detached (see above)")
    );
    let origin = Ok("origin".to_string());
    assert_eq!(
        verdict(probe_upstream(&state(Some("feat"), None), &origin)),
        is(Status::Pass, "no upstream set yet (fresh branch)")
    );
    assert_eq!(
        verdict(probe_upstream(&state(Some("feat"), Some("origin")), &origin)),
        is(Status::Pass, "tracks `origin`")
    );
    assert_eq!(
        verdict(probe_upstream(&state(Some("feat"), Some("fork")), &origin)),
        is(
            Status::Warn,
            "branch tracks `fork` but merge target is `origin`. \
             `push` will offer a wrong-remote rescue."
        )
    );
    assert_eq!(
        verdict(probe_upstream(
            &state(Some("feat"), None),
            &Err(Error::new("none"))
        )),
        is(Status::Warn, "merge-target remote unresolved (see above)")
    );
}

fn shown(action: &Action) -> String {
    match action {
        Action::Run(c) => {
            assert!(!c.inherit);
            c.line()
        }
        Action::Look { dir, .. } => format!("look in {dir}"),
        Action::DecodeRepo(json) => format!("decode repo {json}"),
        other => panic!("unexpected action: {:?}", other),
    }
}

/// Goes through a checkup, holding each action against the expected one, and
/// collects what it prints.
fn checked(script: Vec<(&str, Event)>) -> (Doctor, String) {
    let mut doctor = run(Palette::detect(false, false));
    let mut printed = doctor.report.text.clone();
    for (action, event) in script {
        match doctor.action() {
            Some(a) => assert_eq!(shown(&a), action),
            None => panic!("{} was expected, but the checkup is over", action),
        }
        doctor = doctor.step(event);
        printed.push_str(&doctor.report.text);
    }
    (doctor, printed)
}

fn failed(doctor: &Doctor) -> bool {
    assert!(doctor.action().is_none());
    match doctor.phase {
        Phase::Finished { failed } => failed,
        _ => panic!("not over: {:?}", doctor.phase),
    }
}

fn tools() -> Vec<(&'static str, Event)> {
    vec![
        ("git --version", said("git version 2.45.0\n")),
        ("gh --version", said("gh version 2.50.0\n")),
        ("gh auth status", said("")),
        ("git rev-parse --git-dir", said(".git\n")),
    ]
}

fn reading(upstream: Event) -> Vec<(&'static str, Event)> {
    vec![
        ("git rev-parse --git-dir", said(".git\n")),
        ("git rev-parse HEAD", said("head\n")),
        ("git symbolic-ref --quiet --short HEAD", said("feat\n")),
        (
            "git rev-parse --abbrev-ref --symbolic-full-name @{upstream}",
            upstream,
        ),
        ("look in .git", Event::Present(Vec::new())),
    ]
}

/// The reading of a branch that tracks a branch of `remote`.
fn reading_upstream(
    upstream: &str,
    question: &'static str,
    remote: &str,
) -> Vec<(&'static str, Event)> {
    let mut script = reading(said(upstream));
    script.insert(4, (question, said(remote)));
    script
}

fn remote() -> Vec<(&'static str, Event)> {
    vec![
        ("git config --get stack.remote", exited(1)),
        ("git remote -v", said(REMOTES)),
    ]
}

#[test]
fn clean_checkup() {
    let mut script = tools();
    script.extend(reading_upstream(
        "origin/feat\n",
        "git config --get branch.feat.remote",
        "origin\n",
    ));
    script.push((REPO_VIEW, said("{}\n")));
    script.push(("decode repo {}", Event::Repo(Ok(repo()))));
    script.extend(remote());
    script.extend(remote());
    let (doctor, printed) = checked(script);
    assert!(!failed(&doctor));
    assert_eq!(
        (doctor.report.pass, doctor.report.warn, doctor.report.fail),
        (13, 0, 0)
    );
    assert_eq!(
        printed,
        "stackymcstackface doctor\n\
         \nTools\n\
         \x20 ✔ `git` on PATH (git version 2.45.0)\n\
         \x20 ✔ `gh` on PATH (gh version 2.50.0)\n\
         \x20 ✔ `gh` authenticated\n\
         \nRepository\n\
         \x20 ✔ inside a git repository\n\
         \x20 ✔ repository has commits\n\
         \x20 ✔ no long-running git operation\n\
         \x20 ✔ HEAD is on a branch (not detached) (feat)\n\
         \nGitHub\n\
         \x20 ✔ `gh repo view` succeeds (GitHub remote configured) (octocat/widgets)\n\
         \x20 ✔ merge target identified (octocat/widgets)\n\
         \x20 ✔ `delete_branch_on_merge` enabled on merge target\n\
         \x20 ✔ merge-target remote uniquely resolvable (origin)\n\
         \nCurrent branch\n\
         \x20 ✔ on a feature branch (not the default branch) (feat)\n\
         \x20 ✔ upstream tracks the merge-target remote (tracks `origin`)\n\
         \nSummary: 13 passed, 0 warning(s), 0 failed.\n"
    );
}

#[test]
fn checkup_without_git() {
    let (doctor, printed) = checked(vec![
        ("git --version", missing()),
        ("gh --version", missing()),
    ]);
    assert!(failed(&doctor));
    assert_eq!(
        printed,
        "stackymcstackface doctor\n\
         \nTools\n\
         \x20 ✗ `git` on PATH\n      `git` not found on PATH. Install it and retry.\n\
         \x20 ✗ `gh` on PATH\n      `gh` not found on PATH. Install it and retry.\n\
         \nSummary: 0 passed, 0 warning(s), 2 failed.\n"
    );
}

#[test]
fn checkup_goes_on_without_gh() {
    let (doctor, printed) = checked(vec![
        ("git --version", said("git version 2.45.0")),
        ("gh --version", missing()),
        ("git rev-parse --git-dir", exited(128)),
    ]);
    assert!(failed(&doctor));
    assert!(printed.ends_with(
        "\nRepository\n\
         \x20 ✗ inside a git repository\n      not inside a git working tree (run from a clone)\n\
         \nSummary: 1 passed, 0 warning(s), 2 failed.\n"
    ));
}

#[test]
fn failed_auth_is_remembered() {
    let mut script = tools();
    script[2].1 = exited(1);
    script.extend(reading(exited(128)));
    script.push((REPO_VIEW, said("{}")));
    script.push(("decode repo {}", Event::Repo(Ok(repo()))));
    script.extend(remote());
    script.extend(remote());
    let (doctor, printed) = checked(script);
    assert!(failed(&doctor));
    assert!(printed.contains(
        "  ✗ `gh` authenticated\n      why\n      Fix: gh auth login\n"
    ));
    assert!(printed.ends_with("\nSummary: 12 passed, 0 warning(s), 1 failed.\n"));
}

#[test]
fn unborn_head_ends_the_checkup() {
    let mut script = tools();
    script.push(("git rev-parse --git-dir", said(".git")));
    script.push(("git rev-parse HEAD", exited(128)));
    let (doctor, printed) = checked(script);
    assert!(failed(&doctor));
    assert!(printed.contains(
        "  ✗ repository has commits\n      repository has no commits yet (HEAD is unborn)\n"
    ));
}

#[test]
fn detached_head_skips_the_branch_checks() {
    let mut script = tools();
    let mut read = reading(exited(128));
    read[2].1 = exited(1);
    read[4].1 = Event::Present(words(&["MERGE_HEAD"]));
    script.extend(read);
    script.push((REPO_VIEW, said("{}")));
    script.push(("decode repo {}", Event::Repo(Ok(repo()))));
    script.extend(remote());
    let (doctor, printed) = checked(script);
    assert!(failed(&doctor));
    assert!(!printed.contains("Current branch"));
    assert!(printed.ends_with("\nSummary: 9 passed, 0 warning(s), 2 failed.\n"));
}

#[test]
fn warnings_do_not_fail_a_checkup() {
    let mut script = tools();
    let mut read = reading_upstream(
        "fork/main",
        "git config --get branch.main.remote",
        "fork",
    );
    read[2].1 = said("main");
    script.extend(read);
    let mut off = repo();
    off.delete_branch_on_merge = false;
    script.push((REPO_VIEW, said("{}")));
    script.push(("decode repo {}", Event::Repo(Ok(off))));
    script.extend(remote());
    script.extend(remote());
    let (doctor, printed) = checked(script);
    assert!(!failed(&doctor));
    assert!(printed.ends_with("\nSummary: 10 passed, 3 warning(s), 0 failed.\n"));
}

#[test]
fn fork_is_checked_by_its_parent() {
    let fork = || RepoInfo {
        name_with_owner: "you/widgets".to_string(),
        is_fork: true,
        parent_name_with_owner: Some("octocat/widgets".to_string()),
        ..repo()
    };
    let begin = || {
        let mut script = tools();
        script.extend(reading(exited(128)));
        script.push((REPO_VIEW, said("{1}")));
        script
    };
    let mut script = begin();
    script.push(("decode repo {1}", Event::Repo(Ok(fork()))));
    script.push((PARENT_VIEW, said("{2}")));
    script.push(("decode repo {2}", Event::Repo(Ok(repo()))));
    script.extend(remote());
    script.extend(remote());
    let (doctor, printed) = checked(script);
    assert!(!failed(&doctor));
    assert!(printed.contains(
        "  ✔ merge target identified (octocat/widgets (this clone is a fork))\n"
    ));

    let mut script = begin();
    script.push(("decode repo {1}", Event::Repo(Ok(fork()))));
    script.push((PARENT_VIEW, exited(1)));
    let (doctor, printed) = checked(script);
    assert!(failed(&doctor));
    assert!(printed.contains(&format!(
        "  ✗ merge target identified\n      could not load merge-target repo \
         `octocat/widgets`: {PARENT_VIEW} failed: why\n"
    )));

    let mut script = begin();
    let orphan = RepoInfo {
        parent_name_with_owner: None,
        ..fork()
    };
    script.push(("decode repo {1}", Event::Repo(Ok(orphan))));
    let (doctor, printed) = checked(script);
    assert!(failed(&doctor));
    assert!(printed.contains("repository is reported as a fork but has no parent"));

    let mut script = begin();
    script.push(("decode repo {1}", Event::Repo(Err("eof".to_string()))));
    let (doctor, printed) = checked(script);
    assert!(failed(&doctor));
    assert!(printed.contains(
        "  ✗ `gh repo view` succeeds (GitHub remote configured)\n      \
         could not parse `gh repo view` output: {1}: eof\n"
    ));
}

#[test]
fn fork_prefers_upstream() {
    let fork = RepoInfo {
        is_fork: true,
        parent_name_with_owner: Some("octocat/widgets".to_string()),
        ..repo()
    };
    let both = "origin\thttps://github.com/octocat/widgets (fetch)\n\
                upstream\thttps://github.com/octocat/widgets (fetch)\n";
    let mut script = tools();
    script.extend(reading(exited(128)));
    script.push((REPO_VIEW, said("{1}")));
    script.push(("decode repo {1}", Event::Repo(Ok(fork))));
    script.push((PARENT_VIEW, said("{2}")));
    script.push(("decode repo {2}", Event::Repo(Ok(repo()))));
    for _ in 0..2 {
        script.push(("git config --get stack.remote", exited(1)));
        script.push(("git remote -v", said(both)));
    }
    let (doctor, printed) = checked(script);
    assert!(!failed(&doctor));
    assert!(printed.contains("  ✔ merge-target remote uniquely resolvable (upstream)\n"));
}

#[test]
fn unresolved_remote_fails_once_and_warns_once() {
    let mut script = tools();
    script.extend(reading(exited(128)));
    script.push((REPO_VIEW, said("{}")));
    script.push(("decode repo {}", Event::Repo(Ok(repo()))));
    for _ in 0..2 {
        script.push(("git config --get stack.remote", exited(1)));
        script.push(("git remote -v", said("")));
    }
    let (doctor, printed) = checked(script);
    assert!(failed(&doctor));
    assert!(printed.contains("  ✗ merge-target remote uniquely resolvable\n"));
    assert!(printed.contains("      merge-target remote unresolved (see above)\n"));
    assert!(printed.ends_with("\nSummary: 11 passed, 1 warning(s), 1 failed.\n"));
}

#[test]
fn checkup_stays_over() {
    let (doctor, _) = checked(vec![
        ("git --version", missing()),
        ("gh --version", Event::Answer(true)),
    ]);
    let doctor = doctor.step(said("more"));
    assert!(failed(&doctor));
    assert_eq!(doctor.report.text, "");
    assert_eq!(doctor.report.fail, 2);
}
