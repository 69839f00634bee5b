use stackymcstackface::command::Reply;
use stackymcstackface::doctor;
use stackymcstackface::gh::RepoInfo;
use stackymcstackface::stack::{self, Phase, StackOpts};
use stackymcstackface::step::{Action, Event};
use stackymcstackface::ui::{Console, Palette};

/// What every action brings in a repo where the branch tracks `upstream`.
fn brings(action: Action, upstream: &str) -> Event {
    let said = |code: i32, stdout: &str| {
        Event::Ran(Reply::Exited {
            code: Some(code),
            stdout: stdout.as_bytes().to_vec(),
            stderr: Vec::new(),
        })
    };
    match action {
        Action::Run(c) => match c.line().as_str() {
            "git rev-parse --git-dir" => said(0, ".git"),
            "git rev-parse HEAD" => said(0, "head"),
            "git symbolic-ref --quiet --short HEAD" => said(0, "feat"),
            "git rev-parse --abbrev-ref --symbolic-full-name @{upstream}" => said(0, upstream),
            "git config --get branch.feat.remote" => {
                said(0, upstream.strip_suffix("/feat").unwrap())
            }
            "git config --get stack.remote" => said(1, ""),
            "git remote -v" => said(0, "origin https://github.com/octocat/widgets (fetch)"),
            "git --version" | "gh --version" | "gh auth status" => said(0, "fine"),
            line if line.starts_with("gh repo view ") => said(0, "{}"),
            line => panic!("unexpected command: {}", line),
        },
        Action::Look { .. } => Event::Present(Vec::new()),
        Action::DecodeRepo(_) => Event::Repo(Ok(RepoInfo {
            name_with_owner: "octocat/widgets".to_string(),
            default_branch: "main".to_string(),
            is_fork: false,
            parent_name_with_owner: None,
            delete_branch_on_merge: true,
            viewer_can_administer: true,
        })),
        other => panic!("unexpected action: {:?}", other),
    }
}

/// The warnings and failures of a checkup.
fn objections(upstream: &str) -> (u32, u32) {
    let mut doctor = doctor::run(Palette::detect(false, false));
    while let Some(action) = doctor.action() {
        doctor = doctor.step(brings(action, upstream));
    }
    (doctor.report.warn, doctor.report.fail)
}

/// Whether a push gets to the fetch without a question.
fn gets_to_fetch(upstream: &str) -> bool {
    let mut push = stack::run(StackOpts::default(), Console::detect(false, false));
    loop {
        match push.phase {
            Phase::Fetch(_) => return true,
            Phase::Finished(_) | Phase::OfferDelete(_) | Phase::OfferRescue(_) => return false,
            _ => {}
        }
        let action = push.action().unwrap();
        push = push.step(brings(action, upstream));
    }
}

#[test]
fn clean_checkup_lets_push_go_ahead() {
    assert_eq!(objections("origin/feat"), (0, 0));
    assert!(gets_to_fetch("origin/feat"));
}

#[test]
fn checkup_warns_of_a_question() {
    assert_eq!(objections("fork/feat"), (1, 0));
    assert!(!gets_to_fetch("fork/feat"));
}
