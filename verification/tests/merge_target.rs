use stackymcstackface::command::{Error, Reply};
use stackymcstackface::gh::RepoInfo;
use stackymcstackface::git::Remote;
use stackymcstackface::step::{Action, Event};
use stackymcstackface::target::{
    resolve_merge_target, resolve_merge_target_remote, url_points_at, MergeTarget, RemoteQuery,
};

fn remote(name: &str, url: &str) -> Remote {
    Remote {
        name: name.to_string(),
        fetch_url: url.to_string(),
        push_url: url.to_string(),
    }
}

fn repo(name: &str, is_fork: bool, parent: Option<&str>) -> RepoInfo {
    RepoInfo {
        name_with_owner: name.to_string(),
        default_branch: "main".to_string(),
        is_fork,
        parent_name_with_owner: parent.map(|p| p.to_string()),
        delete_branch_on_merge: true,
        viewer_can_administer: false,
    }
}

fn message<T>(r: Result<T, Error>) -> String {
    match r {
        Ok(_) => panic!("an error is expected"),
        Err(e) => e.message,
    }
}

fn value<T>(r: Result<T, Error>) -> T {
    match r {
        Ok(v) => v,
        Err(e) => panic!("unexpected error: {}", e.message),
    }
}

#[test]
fn url_match_https() {
    assert!(url_points_at("https://github.com/foo/bar", "foo/bar"));
    assert!(url_points_at("https://github.com/foo/bar.git", "foo/bar"));
    assert!(url_points_at("https://github.com/Foo/Bar.git", "foo/bar"));
}

#[test]
fn url_match_ssh() {
    assert!(url_points_at("git@github.com:foo/bar.git", "foo/bar"));
    assert!(url_points_at("ssh://git@github.com/foo/bar", "foo/bar"));
}

#[test]
fn url_match_path_boundary() {
    // 'oo/bar' must not match the suffix of 'foo/bar'.
    assert!(!url_points_at("https://github.com/foo/bar", "oo/bar"));
    assert!(!url_points_at("https://github.com/zfoo/bar", "foo/bar"));
}

#[test]
fn url_match_negative() {
    assert!(!url_points_at("https://github.com/other/repo", "foo/bar"));
    assert!(!url_points_at("", "foo/bar"));
}

#[test]
fn url_match_ignores_decoration() {
    assert!(url_points_at("  https://github.com/foo/bar///\n", "foo/bar"));
    assert!(url_points_at("https://github.com/foo/bar.git/", "FOO/BAR"));
    // At most one `.git` is stripped.
    assert!(!url_points_at("https://github.com/foo/bar.git.git", "foo/bar"));
    assert!(url_points_at("https://github.com/foo/bar.git.git", "foo/bar.git"));
    // The suffix is looked for only where it is spelled in lower case.
    assert!(!url_points_at("https://github.com/foo/bar.GIT", "foo/bar"));
    // A slash inside the suffix stays.
    assert!(!url_points_at("https://github.com/foo/bar/.git", "foo/bar"));
    // Nothing stands before the name.
    assert!(!url_points_at("foo/bar", "foo/bar"));
    assert!(!url_points_at("ar", "foo/bar"));
}

#[test]
fn own_repository_is_the_target() {
    match value(resolve_merge_target(&repo("octocat/widgets", false, None))) {
        MergeTarget::Own(info) => {
            assert_eq!(info.name_with_owner, "octocat/widgets");
            assert_eq!(info.default_branch, "main");
            assert!(info.delete_branch_on_merge);
        }
        MergeTarget::Parent(_) => panic!("not a fork"),
    }
}

#[test]
fn parent_of_a_fork_is_the_target() {
    match value(resolve_merge_target(&repo(
        "you/widgets",
        true,
        Some("octocat/widgets"),
    ))) {
        MergeTarget::Parent(name) => assert_eq!(name, "octocat/widgets"),
        MergeTarget::Own(_) => panic!("a fork"),
    }
    assert_eq!(
        message(resolve_merge_target(&repo("you/widgets", true, None))),
        "repository is reported as a fork but has no parent"
    );
}

#[test]
fn only_matching_remote_is_used() {
    let remotes = vec![
        remote("origin", "git@github.com:you/widgets.git"),
        remote("theirs", "git@github.com:octocat/widgets.git"),
    ];
    assert_eq!(
        value(resolve_merge_target_remote("octocat/widgets", false, None, &remotes)),
        "theirs"
    );
}

#[test]
fn push_url_counts_too() {
    let remotes = vec![Remote {
        name: "mirror".to_string(),
        fetch_url: "https://mirror.example/x".to_string(),
        push_url: "https://github.com/octocat/widgets".to_string(),
    }];
    assert_eq!(
        value(resolve_merge_target_remote("octocat/widgets", false, None, &remotes)),
        "mirror"
    );
}

#[test]
fn configured_remote_wins() {
    let remotes = vec![remote("theirs", "git@github.com:octocat/widgets.git")];
    assert_eq!(
        value(resolve_merge_target_remote(
            "octocat/widgets",
            true,
            Some("mine".to_string()),
            &remotes
        )),
        "mine"
    );
}

#[test]
fn well_known_names_break_ties() {
    let url = "https://github.com/octocat/widgets.git";
    let three = vec![remote("a", url), remote("origin", url), remote("upstream", url)];
    assert_eq!(
        value(resolve_merge_target_remote("octocat/widgets", false, None, &three)),
        "origin"
    );
    assert_eq!(
        value(resolve_merge_target_remote("octocat/widgets", true, None, &three)),
        "upstream"
    );
    let two = vec![remote("a", url), remote("origin", url)];
    assert_eq!(
        value(resolve_merge_target_remote("octocat/widgets", true, None, &two)),
        "origin"
    );
    let two = vec![remote("a", url), remote("upstream", url)];
    assert_eq!(
        value(resolve_merge_target_remote("octocat/widgets", false, None, &two)),
        "upstream"
    );
}

#[test]
fn other_ties_are_refused() {
    let url = "https://github.com/octocat/widgets.git";
    let two = vec![
        remote("a", url),
        remote("origin", "https://github.com/you/widgets"),
        remote("b", url),
    ];
    assert_eq!(
        message(resolve_merge_target_remote("octocat/widgets", false, None, &two)),
        "multiple remotes point at `octocat/widgets`: a, b. Disambiguate with \
         `git config stack.remote <name>`."
    );
}

#[test]
fn no_matching_remote() {
    assert_eq!(
        message(resolve_merge_target_remote("octocat/widgets", false, None, &Vec::new())),
        "no local git remote points at `octocat/widgets`. Add one with:\n  \
         git remote add upstream https://github.com/octocat/widgets.git\n\
         ...or set `git config stack.remote <remote-name>`."
    );
}

fn ran(code: i32, stdout: &str) -> Event {
    Event::Ran(Reply::Exited {
        code: Some(code),
        stdout: stdout.as_bytes().to_vec(),
        stderr: b"why".to_vec(),
    })
}

fn start() -> RemoteQuery {
    RemoteQuery::Configured {
        target: "octocat/widgets".to_string(),
        fork: false,
    }
}

fn asked(q: &RemoteQuery) -> String {
    match q.action() {
        Some(Action::Run(c)) => c.line(),
        Some(other) => panic!("unexpected action: {:?}", other),
        None => "nothing".to_string(),
    }
}

fn found(q: RemoteQuery) -> Result<String, String> {
    match q {
        RemoteQuery::Done(Ok(name)) => Ok(name),
        RemoteQuery::Done(Err(e)) => Err(e.message),
        other => panic!("not done: {:?}", other),
    }
}

#[test]
fn configuration_is_asked_first() {
    let q = start();
    assert_eq!(asked(&q), "git config --get stack.remote");
    let q = q.step(ran(0, "upstream\n"));
    assert_eq!(asked(&q), "nothing");
    assert_eq!(found(q), Ok("upstream".to_string()));
}

#[test]
fn remotes_are_listed_where_nothing_is_configured() {
    let q = start().step(ran(1, ""));
    assert_eq!(asked(&q), "git remote -v");
    let q = q.step(ran(
        0,
        "origin\tgit@github.com:octocat/widgets.git (fetch)\n\
         origin\tgit@github.com:octocat/widgets.git (push)\n",
    ));
    assert_eq!(found(q), Ok("origin".to_string()));
}

#[test]
fn failures_of_the_search() {
    assert_eq!(
        found(start().step(ran(2, ""))),
        Err("git config --get exited with code 2".to_string())
    );
    assert_eq!(
        found(start().step(ran(1, "")).step(ran(128, ""))),
        Err("git remote -v failed: why".to_string())
    );
    assert_eq!(
        found(start().step(Event::Answer(true))),
        Err("internal error: the event does not answer the pending action".to_string())
    );
    // A search that is over stays as it is.
    assert_eq!(
        found(start().step(ran(0, "mine")).step(ran(0, "yours"))),
        Ok("mine".to_string())
    );
}
