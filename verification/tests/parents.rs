use stackymcstackface::command::Reply;
use stackymcstackface::gh::OpenPr;
use stackymcstackface::parent::{closer, is_eligible, pick_parent, Parent, Scope, Search, Stage};
use stackymcstackface::step::{Action, Event};

fn pr(number: u64, head: &str, oid: &str) -> OpenPr {
    OpenPr {
        number,
        head_ref_name: head.to_string(),
        head_ref_oid: oid.to_string(),
        base_ref_name: "main".to_string(),
        head_repository_owner: "octocat".to_string(),
        url: format!("https://github.com/octocat/widgets/pull/{number}"),
        is_cross_repository: false,
    }
}

fn scope(prs: Vec<OpenPr>) -> Scope {
    Scope {
        prs,
        target: "Octocat/widgets".to_string(),
        default_branch: "main".to_string(),
        remote: "upstream".to_string(),
        branch: "feat".to_string(),
        head_sha: "head".to_string(),
    }
}

fn said(stdout: &str) -> Event {
    Event::Ran(Reply::Exited {
        code: Some(0),
        stdout: stdout.as_bytes().to_vec(),
        stderr: Vec::new(),
    })
}

fn exited(code: i32) -> Event {
    Event::Ran(Reply::Exited {
        code: Some(code),
        stdout: Vec::new(),
        stderr: b"why".to_vec(),
    })
}

/// Goes through a search, holding each question against the expected one.
fn searched(prs: Vec<OpenPr>, script: Vec<(&str, Event)>) -> Result<Parent, String> {
    let mut search = Search::start(scope(prs));
    for (question, answer) in script {
        match search.action() {
            Some(Action::Run(c)) => assert_eq!(c.line(), question),
            other => panic!("{} was expected, not {:?}", question, other),
        }
        search = search.step(answer);
    }
    assert!(search.action().is_none());
    match search.stage {
        Stage::Done(Ok(parent)) => Ok(parent),
        Stage::Done(Err(e)) => Err(e.message),
        other => panic!("not done: {:?}", other),
    }
}

fn shown(p: &Parent) -> String {
    match p {
        Parent::Default { branch } => format!("default {branch}"),
        Parent::Pr {
            branch,
            number,
            url,
            distance,
        } => format!("#{number} {branch} {url} at {distance}"),
    }
}

fn at(number: u64, distance: usize) -> Parent {
    Parent::Pr {
        branch: format!("b{number}"),
        number,
        url: "u".to_string(),
        distance,
    }
}

#[test]
fn closer_parent_wins() {
    assert_eq!(closer(at(1, 5), at(2, 3)).branch_name(), "b2");
    assert_eq!(closer(at(1, 3), at(2, 5)).branch_name(), "b1");
    // The first of two equals stays.
    assert_eq!(closer(at(1, 3), at(2, 3)).branch_name(), "b1");
    let main = Parent::Default {
        branch: "main".to_string(),
    };
    assert_eq!(closer(main.clone(), at(2, 3)).branch_name(), "b2");
    assert_eq!(closer(at(1, usize::MAX), main).branch_name(), "b1");
}

#[test]
fn closest_pr_is_picked() {
    let prs = vec![pr(1, "a", "o1"), pr(2, "b", "o2"), pr(3, "c", "o3"), pr(4, "d", "o4")];
    let picked = pick_parent(&prs, &vec![Some(4), None, Some(2), Some(2)]);
    assert_eq!(
        shown(&picked.unwrap()),
        "#3 c https://github.com/octocat/widgets/pull/3 at 2"
    );
    assert!(pick_parent(&prs, &vec![None, None, None, None]).is_none());
    assert!(pick_parent(&Vec::new(), &Vec::new()).is_none());
}

#[test]
fn only_heads_on_the_target_are_eligible() {
    assert!(is_eligible(&pr(1, "base", "o"), "OCTOCAT/widgets", "feat"));
    assert!(!is_eligible(&pr(1, "feat", "o"), "octocat/widgets", "feat"));
    assert!(!is_eligible(&pr(1, "base", "o"), "octo/widgets", "feat"));
    let mut cross = pr(1, "base", "o");
    cross.is_cross_repository = true;
    assert!(!is_eligible(&cross, "octocat/widgets", "feat"));
}

#[test]
fn search_finds_the_closest_ancestor() {
    let parent = searched(
        vec![pr(1, "far", "o1"), pr(2, "feat", "o2"), pr(3, "near", "o3")],
        vec![
            ("git rev-parse --verify --quiet o1^{object}", said("o1")),
            ("git merge-base --is-ancestor o1 head", said("")),
            ("git rev-list --count o1..head", said("9")),
            ("git rev-parse --verify --quiet o3^{object}", said("o3")),
            ("git merge-base --is-ancestor o3 head", said("")),
            ("git rev-list --count o3..head", said("2")),
        ],
    );
    assert_eq!(
        shown(&parent.unwrap()),
        "#3 near https://github.com/octocat/widgets/pull/3 at 2"
    );
}

#[test]
fn search_skips_what_does_not_qualify() {
    let parent = searched(
        vec![pr(1, "gone", "o1"), pr(2, "twin", "head"), pr(3, "aside", "o3")],
        vec![
            // Not there locally.
            ("git rev-parse --verify --quiet o1^{object}", exited(1)),
            // HEAD itself.
            ("git rev-parse --verify --quiet head^{object}", said("head")),
            // Not an ancestor.
            ("git rev-parse --verify --quiet o3^{object}", said("o3")),
            ("git merge-base --is-ancestor o3 head", exited(1)),
            (
                "git rev-parse --verify --quiet refs/remotes/upstream/main^{object}",
                said("m0\n"),
            ),
            ("git merge-base m0 head", said("")),
        ],
    );
    assert_eq!(shown(&parent.unwrap()), "default main");
}

#[test]
fn search_needs_a_default_branch() {
    let parent = searched(
        Vec::new(),
        vec![(
            "git rev-parse --verify --quiet refs/remotes/upstream/main^{object}",
            exited(1),
        )],
    );
    assert_eq!(
        parent.unwrap_err(),
        "could not resolve `refs/remotes/upstream/main` after fetching; is `main` \
         really the default branch on the merge target?"
    );
}

#[test]
fn branch_behind_the_default_branch_is_based_on_it() {
    // The tip of the default branch is no ancestor of HEAD, but the two share
    // history.
    let parent = searched(
        vec![pr(1, "moved", "o1")],
        vec![
            ("git rev-parse --verify --quiet o1^{object}", said("o1")),
            ("git merge-base --is-ancestor o1 head", exited(1)),
            (
                "git rev-parse --verify --quiet refs/remotes/upstream/main^{object}",
                said("m9"),
            ),
            ("git merge-base m9 head", said("m0\n")),
        ],
    );
    assert_eq!(shown(&parent.unwrap()), "default main");
}

#[test]
fn search_needs_common_history() {
    let parent = searched(
        Vec::new(),
        vec![
            (
                "git rev-parse --verify --quiet refs/remotes/upstream/main^{object}",
                said("m0"),
            ),
            ("git merge-base m0 head", exited(1)),
        ],
    );
    assert_eq!(
        parent.unwrap_err(),
        "current branch shares no history with `main`; cannot determine a PR base"
    );
}

#[test]
fn search_fails_where_git_does() {
    let one = || vec![pr(1, "a", "o1")];
    let resolve = "git rev-parse --verify --quiet o1^{object}";
    let ancestry = "git merge-base --is-ancestor o1 head";
    let count = "git rev-list --count o1..head";
    assert_eq!(
        searched(
            one(),
            vec![(resolve, Event::Ran(Reply::NotRun("gone".to_string())))]
        )
        .unwrap_err(),
        "failed to invoke git rev-parse: gone"
    );
    assert_eq!(
        searched(one(), vec![(resolve, said("o1")), (ancestry, exited(128))]).unwrap_err(),
        "git merge-base --is-ancestor exited with code 128"
    );
    assert_eq!(
        searched(
            one(),
            vec![(resolve, said("o1")), (ancestry, said("")), (count, said("x"))]
        )
        .unwrap_err(),
        "could not parse commit count from \"x\": invalid digit found in string"
    );
    assert_eq!(
        searched(
            one(),
            vec![(resolve, said("o1")), (ancestry, said("")), (count, exited(128))]
        )
        .unwrap_err(),
        "git rev-list --count o1..head failed: why"
    );
    assert_eq!(
        searched(
            Vec::new(),
            vec![
                (
                    "git rev-parse --verify --quiet refs/remotes/upstream/main^{object}",
                    said("m0")
                ),
                ("git merge-base m0 head", exited(128)),
            ]
        )
        .unwrap_err(),
        "git merge-base exited with code 128"
    );
    assert_eq!(
        searched(one(), vec![(resolve, Event::Answer(true))]).unwrap_err(),
        "internal error: the event does not answer the pending action"
    );
}
