use stackymcstackface::command::{
    append_arg, complete, read_output, run_capture, run_inherit, words, Command, Error, Program,
    Reply,
};
use stackymcstackface::git::{
    branch_behind, commits_between, commits_between_reply, common_ancestor, common_ancestor_reply, config_get,
    config_get_reply, count_error, detect_in_progress, fetch, git_dir, is_ancestor,
    is_ancestor_reply, list_remotes, list_remotes_reply, listed, marker_names, parse_remotes,
    push, read_count, read_listing, read_state, resolve, resolve_reply, split_upstream,
    GitOutput, InProgress, StateRead,
};
use stackymcstackface::step::{Action, Event};
use stackymcstackface::text::CountError;

fn said(stdout: &str) -> Reply {
    Reply::Exited {
        code: Some(0),
        stdout: stdout.as_bytes().to_vec(),
        stderr: Vec::new(),
    }
}

fn failed(code: i32, stderr: &str) -> Reply {
    Reply::Exited {
        code: Some(code),
        stdout: b"ignored".to_vec(),
        stderr: stderr.as_bytes().to_vec(),
    }
}

fn killed() -> Reply {
    Reply::Exited {
        code: None,
        stdout: Vec::new(),
        stderr: Vec::new(),
    }
}

fn not_run() -> Reply {
    Reply::NotRun("No such file or directory (os error 2)".to_string())
}

fn message<T>(r: Result<T, Error>) -> String {
    match r {
        Ok(_) => panic!("an error is expected"),
        Err(e) => e.message,
    }
}

fn value<T>(r: Result<T, Error>) -> T {
    match r {
        Ok(v) => v,
        Err(e) => panic!("unexpected error: {}", e.message),
    }
}

#[test]
fn upstream_split() {
    assert_eq!(
        split_upstream("origin/main"),
        Some(("origin".into(), "main".into()))
    );
    // Branch names may contain slashes; only the first split matters.
    assert_eq!(
        split_upstream("origin/feature/foo"),
        Some(("origin".into(), "feature/foo".into()))
    );
    assert_eq!(split_upstream("noslash"), None);
    assert_eq!(split_upstream(""), None);
}

#[test]
fn upstream_needs_both_parts() {
    assert_eq!(split_upstream("/main"), None);
    assert_eq!(split_upstream("origin/"), None);
    assert_eq!(split_upstream("/"), None);
    assert_eq!(
        split_upstream("ürsprung/ß"),
        Some(("ürsprung".into(), "ß".into()))
    );
}

#[test]
fn operation_labels() {
    assert_eq!(InProgress::Rebase.label(), "rebase");
    assert_eq!(InProgress::Merge.label(), "merge");
    assert_eq!(InProgress::CherryPick.label(), "cherry-pick");
    assert_eq!(InProgress::Revert.label(), "revert");
    assert_eq!(InProgress::Bisect.label(), "bisect");
    assert_eq!(InProgress::ApplyMailbox.label(), "am (mailbox apply)");
}

#[test]
fn operations_by_marker() {
    assert_eq!(detect_in_progress(&words(&[])), None);
    assert_eq!(detect_in_progress(&words(&["HEAD"])), None);
    assert_eq!(
        detect_in_progress(&words(&["rebase-merge"])),
        Some(InProgress::Rebase)
    );
    assert_eq!(
        detect_in_progress(&words(&["rebase-apply"])),
        Some(InProgress::Rebase)
    );
    assert_eq!(
        detect_in_progress(&words(&["rebase-apply", "rebase-apply/applying"])),
        Some(InProgress::ApplyMailbox)
    );
    assert_eq!(
        detect_in_progress(&words(&["MERGE_HEAD"])),
        Some(InProgress::Merge)
    );
    assert_eq!(
        detect_in_progress(&words(&["CHERRY_PICK_HEAD"])),
        Some(InProgress::CherryPick)
    );
    assert_eq!(
        detect_in_progress(&words(&["REVERT_HEAD"])),
        Some(InProgress::Revert)
    );
    assert_eq!(
        detect_in_progress(&words(&["BISECT_LOG"])),
        Some(InProgress::Bisect)
    );
    // A rebase outranks everything else.
    assert_eq!(
        detect_in_progress(&words(&["BISECT_LOG", "MERGE_HEAD", "rebase-merge"])),
        Some(InProgress::Rebase)
    );
    assert_eq!(
        detect_in_progress(&words(&["BISECT_LOG", "REVERT_HEAD", "CHERRY_PICK_HEAD"])),
        Some(InProgress::CherryPick)
    );
}

#[test]
fn markers_are_looked_for() {
    assert_eq!(
        marker_names(),
        vec![
            "rebase-merge",
            "rebase-apply",
            "rebase-apply/applying",
            "MERGE_HEAD",
            "CHERRY_PICK_HEAD",
            "REVERT_HEAD",
            "BISECT_LOG",
        ]
    );
    assert!(listed(&marker_names(), "MERGE_HEAD"));
    assert!(!listed(&marker_names(), "merge_head"));
}

#[test]
fn state_is_put_together() {
    let state = read_state(
        "abc123".to_string(),
        Some("feat".to_string()),
        Some("origin/feat".to_string()),
        Some("origin".to_string()),
        &words(&["MERGE_HEAD"]),
    );
    assert_eq!(state.head_sha, "abc123");
    assert_eq!(state.current_branch.as_deref(), Some("feat"));
    assert_eq!(state.upstream, Some(("origin".into(), "feat".into())));
    assert_eq!(state.in_progress, Some(InProgress::Merge));
    let copy = state.clone();
    assert_eq!(copy.head_sha, "abc123");
    assert_eq!(copy.upstream, Some(("origin".into(), "feat".into())));

    let detached = read_state("abc123".to_string(), None, None, None, &Vec::new());
    assert_eq!(detached.current_branch, None);
    assert_eq!(detached.upstream, None);
    assert_eq!(detached.in_progress, None);
}

#[test]
fn upstream_is_cut_at_its_remote() {
    let upstream = |full: &str, remote: Option<&str>| {
        read_state(
            "abc123".to_string(),
            Some("feat".to_string()),
            Some(full.to_string()),
            remote.map(|r| r.to_string()),
            &Vec::new(),
        )
        .upstream
    };
    let pair = |remote: &str, branch: &str| Some((remote.to_string(), branch.to_string()));
    assert_eq!(
        upstream("team/origin/main", Some("team/origin")),
        pair("team/origin", "main")
    );
    assert_eq!(
        upstream("origin/feature/foo", Some("origin")),
        pair("origin", "feature/foo")
    );
    // A local branch is on no remote.
    assert_eq!(upstream("feature/foo", Some(".")), None);
    assert_eq!(upstream("main", Some(".")), None);
    // Without a name the first slash separates.
    assert_eq!(upstream("origin/feature/foo", None), pair("origin", "feature/foo"));
    assert_eq!(upstream("origin/foo", Some("")), pair("origin", "foo"));
    // A fetch refspec keeps the remote's branches under another name.
    assert_eq!(upstream("mirror/main", Some("origin")), pair("origin", "main"));
    assert_eq!(upstream("main", Some("origin")), pair("origin", "main"));
    assert_eq!(upstream("", Some("origin")), None);
    assert_eq!(branch_behind("origin/feature/foo", "origin"), "feature/foo");
    assert_eq!(branch_behind("origins/x", "origin"), "x");
    assert_eq!(branch_behind("origin/", "origin"), "origin/");
}

fn asked(read: &StateRead) -> String {
    match read.action() {
        Some(Action::Run(c)) => c.line(),
        Some(Action::Look { dir, names }) => format!("look for {} names in {}", names.len(), dir),
        Some(other) => panic!("unexpected action: {:?}", other),
        None => "nothing".to_string(),
    }
}

#[test]
fn state_is_read_question_by_question() {
    let read = StateRead::GitDir;
    assert_eq!(asked(&read), "git rev-parse --git-dir");
    let read = read.step(Event::Ran(said(".git\n")));
    assert_eq!(asked(&read), "git rev-parse HEAD");
    let read = read.step(Event::Ran(said("abc123\n")));
    assert_eq!(asked(&read), "git symbolic-ref --quiet --short HEAD");
    let read = read.step(Event::Ran(said("feat\n")));
    assert_eq!(
        asked(&read),
        "git rev-parse --abbrev-ref --symbolic-full-name @{upstream}"
    );
    let read = read.step(Event::Ran(said("origin/feat\n")));
    assert_eq!(asked(&read), "git config --get branch.feat.remote");
    let read = read.step(Event::Ran(said("origin\n")));
    assert_eq!(asked(&read), "look for 7 names in .git");
    let read = read.step(Event::Present(words(&["REVERT_HEAD"])));
    assert_eq!(asked(&read), "nothing");
    match read {
        StateRead::Done(Ok(state)) => {
            assert_eq!(state.head_sha, "abc123");
            assert_eq!(state.current_branch.as_deref(), Some("feat"));
            assert_eq!(state.upstream, Some(("origin".into(), "feat".into())));
            assert_eq!(state.in_progress, Some(InProgress::Revert));
        }
        other => panic!("unexpected end: {:?}", other),
    }
}

#[test]
fn state_without_branch_or_upstream_is_no_error() {
    let read = StateRead::GitDir
        .step(Event::Ran(said(".git")))
        .step(Event::Ran(said("abc123")))
        .step(Event::Ran(failed(1, "")))
        .step(Event::Ran(failed(128, "fatal: no upstream")))
        .step(Event::Present(Vec::new()));
    match read {
        StateRead::Done(Ok(state)) => {
            assert_eq!(state.current_branch, None);
            assert_eq!(state.upstream, None);
            assert_eq!(state.in_progress, None);
        }
        other => panic!("unexpected end: {:?}", other),
    }
}

#[test]
fn state_with_an_upstream_of_no_named_remote() {
    let read = StateRead::GitDir
        .step(Event::Ran(said(".git")))
        .step(Event::Ran(said("abc123")))
        .step(Event::Ran(said("feat")))
        .step(Event::Ran(said("origin/feat")))
        .step(Event::Ran(failed(1, "")))
        .step(Event::Present(Vec::new()));
    match read {
        StateRead::Done(Ok(state)) => {
            assert_eq!(state.upstream, Some(("origin".into(), "feat".into())))
        }
        other => panic!("unexpected end: {:?}", other),
    }
}

#[test]
fn state_needs_a_repo_with_commits() {
    match StateRead::GitDir.step(Event::Ran(failed(128, "fatal: not a git repository\n"))) {
        StateRead::Done(Err(e)) => assert_eq!(
            e.message,
            "git rev-parse --git-dir failed: fatal: not a git repository"
        ),
        other => panic!("unexpected end: {:?}", other),
    }
    match StateRead::GitDir.step(Event::Ran(not_run())) {
        StateRead::Done(Err(e)) => assert_eq!(
            e.message,
            "failed to invoke git rev-parse --git-dir: No such file or directory (os error 2)"
        ),
        other => panic!("unexpected end: {:?}", other),
    }
    let unborn = StateRead::GitDir
        .step(Event::Ran(said(".git")))
        .step(Event::Ran(failed(128, "fatal: ambiguous argument 'HEAD'")));
    match unborn {
        StateRead::Done(Err(e)) => {
            assert_eq!(e.message, "repository has no commits yet (HEAD is unborn)")
        }
        other => panic!("unexpected end: {:?}", other),
    }
    match StateRead::GitDir.step(Event::Answer(true)) {
        StateRead::Done(Err(e)) => assert_eq!(
            e.message,
            "internal error: the event does not answer the pending action"
        ),
        other => panic!("unexpected end: {:?}", other),
    }
}

#[test]
fn fetch_and_push_commands() {
    let quiet = fetch("upstream", GitOutput::Quiet);
    assert_eq!(quiet.line(), "git fetch upstream");
    assert!(!quiet.inherit);
    let streamed = fetch("upstream", GitOutput::Stream { verbose: false });
    assert_eq!(streamed.line(), "git fetch upstream");
    assert!(streamed.inherit);
    let verbose = fetch("upstream", GitOutput::Stream { verbose: true });
    assert_eq!(verbose.line(), "git fetch --verbose upstream");
    assert!(verbose.inherit);

    let quiet = push("upstream", "feat", false, GitOutput::Quiet);
    assert_eq!(quiet.line(), "git push --set-upstream upstream feat");
    assert!(!quiet.inherit);
    let forced = push(
        "upstream",
        "feat",
        true,
        GitOutput::Stream { verbose: true },
    );
    assert_eq!(
        forced.args,
        vec![
            "push",
            "--set-upstream",
            "--force-with-lease",
            "--verbose",
            "upstream",
            "feat"
        ]
    );
    assert!(forced.inherit);
}

#[test]
fn questions_about_revisions() {
    assert_eq!(git_dir().line(), "git rev-parse --git-dir");
    assert_eq!(
        is_ancestor("a1", "b2").line(),
        "git merge-base --is-ancestor a1 b2"
    );
    assert_eq!(commits_between("a1", "b2").line(), "git rev-list --count a1..b2");
    assert_eq!(
        resolve("refs/remotes/origin/main").line(),
        "git rev-parse --verify --quiet refs/remotes/origin/main^{object}"
    );
    assert_eq!(config_get("stack.remote").line(), "git config --get stack.remote");
    assert_eq!(list_remotes().line(), "git remote -v");
}

#[test]
fn ancestry_by_exit_code() {
    assert!(value(is_ancestor_reply(&said(""))));
    assert!(!value(is_ancestor_reply(&failed(1, ""))));
    assert_eq!(
        message(is_ancestor_reply(&failed(128, ""))),
        "git merge-base --is-ancestor exited with code 128"
    );
    assert_eq!(
        message(is_ancestor_reply(&failed(-1, ""))),
        "git merge-base --is-ancestor exited with code -1"
    );
    assert_eq!(
        message(is_ancestor_reply(&failed(i32::MIN, ""))),
        "git merge-base --is-ancestor exited with code -2147483648"
    );
    assert_eq!(
        message(is_ancestor_reply(&killed())),
        "git merge-base --is-ancestor was killed by a signal"
    );
    assert_eq!(
        message(is_ancestor_reply(&not_run())),
        "failed to invoke git merge-base: No such file or directory (os error 2)"
    );
}

#[test]
fn shared_history_by_exit_code() {
    let question = common_ancestor("a1", "b2");
    assert_eq!(question.line(), "git merge-base a1 b2");
    assert!(!question.inherit);
    assert!(value(common_ancestor_reply(&said("c3\n"))));
    assert!(!value(common_ancestor_reply(&failed(1, ""))));
    assert_eq!(
        message(common_ancestor_reply(&failed(128, ""))),
        "git merge-base exited with code 128"
    );
    assert_eq!(
        message(common_ancestor_reply(&killed())),
        "git merge-base was killed by a signal"
    );
    assert_eq!(
        message(common_ancestor_reply(&not_run())),
        "failed to invoke git merge-base: No such file or directory (os error 2)"
    );
}

#[test]
fn commit_counts() {
    assert_eq!(value(commits_between_reply("a", "b", &said("42\n"))), 42);
    assert_eq!(value(commits_between_reply("a", "b", &said("0"))), 0);
    assert_eq!(value(read_count("+7")), 7);
    assert_eq!(value(read_count("007")), 7);
    assert_eq!(value(read_count("18446744073709551615")), usize::MAX);
    assert_eq!(
        message(read_count("18446744073709551616")),
        "could not parse commit count from \"18446744073709551616\": \
         number too large to fit in target type"
    );
    assert_eq!(
        message(read_count("")),
        "could not parse commit count from \"\": cannot parse integer from empty string"
    );
    assert_eq!(
        message(read_count("+")),
        "could not parse commit count from \"+\": invalid digit found in string"
    );
    assert_eq!(
        message(read_count("-3")),
        "could not parse commit count from \"-3\": invalid digit found in string"
    );
    // The text is quoted with its escapes.
    assert_eq!(
        message(commits_between_reply("a", "b", &said("4\t\"x\""))),
        "could not parse commit count from \"4\\t\\\"x\\\"\": invalid digit found in string"
    );
    assert_eq!(
        message(commits_between_reply("a", "b", &failed(128, "fatal: bad revision"))),
        "git rev-list --count a..b failed: fatal: bad revision"
    );
}

#[test]
fn count_errors() {
    assert_eq!(
        count_error("<x>", CountError::InvalidDigit).message,
        "could not parse commit count from <x>: invalid digit found in string"
    );
    assert_eq!(
        count_error("", CountError::Empty).message,
        "could not parse commit count from : cannot parse integer from empty string"
    );
}

#[test]
fn counts_parse_as_std_does() {
    for s in [
        "0", "1", "00", "+0", "+", "-", "-0", "", " 1", "1 ", "12a", "99999999999999999999",
        "18446744073709551615", "18446744073709551616", "٣",
    ] {
        match (read_count(s), s.parse::<usize>()) {
            (Ok(n), Ok(m)) => assert_eq!(n, m),
            (Err(e), Err(std)) => assert_eq!(
                e.message,
                format!("could not parse commit count from {:?}: {}", s, std)
            ),
            (a, b) => panic!("{:?}: {:?} and {:?} differ", s, a, b),
        }
    }
}

#[test]
fn revisions_that_do_not_exist() {
    assert_eq!(
        value(resolve_reply(&said("abc123\n"))).as_deref(),
        Some("abc123")
    );
    assert_eq!(value(resolve_reply(&failed(1, ""))), None);
    assert_eq!(value(resolve_reply(&killed())), None);
    assert_eq!(
        message(resolve_reply(&not_run())),
        "failed to invoke git rev-parse: No such file or directory (os error 2)"
    );
}

#[test]
fn config_values() {
    assert_eq!(
        value(config_get_reply(&said(" upstream \n"))).as_deref(),
        Some("upstream")
    );
    assert_eq!(value(config_get_reply(&failed(1, ""))), None);
    assert_eq!(
        message(config_get_reply(&failed(3, ""))),
        "git config --get exited with code 3"
    );
    assert_eq!(
        message(config_get_reply(&killed())),
        "git config --get was killed by a signal"
    );
    assert_eq!(
        message(config_get_reply(&not_run())),
        "failed to invoke git config: No such file or directory (os error 2)"
    );
}

#[test]
fn remotes_are_listed_by_name() {
    let raw = "upstream\tgit@github.com:octocat/widgets.git (fetch)\n\
               upstream\tgit@github.com:octocat/widgets.git (push)\n\
               origin\thttps://github.com/you/widgets (fetch)\n\
               origin\thttps://push.example/you/widgets (push)\n";
    let remotes = parse_remotes(raw);
    assert_eq!(remotes.len(), 2);
    assert_eq!(remotes[0].name, "origin");
    assert_eq!(remotes[0].fetch_url, "https://github.com/you/widgets");
    assert_eq!(remotes[0].push_url, "https://push.example/you/widgets");
    assert_eq!(remotes[1].name, "upstream");
    assert_eq!(remotes[1].push_url, "git@github.com:octocat/widgets.git");
    assert_eq!(remotes[1].clone().fetch_url, "git@github.com:octocat/widgets.git");
}

#[test]
fn urls_may_hold_blanks() {
    let raw = "origin\t/srv/my repo (fetch)\norigin\t/srv/my repo (push)";
    let remotes = parse_remotes(raw);
    assert_eq!(remotes.len(), 1);
    assert_eq!(remotes[0].name, "origin");
    assert_eq!(remotes[0].fetch_url, "/srv/my repo");
    assert_eq!(remotes[0].push_url, "/srv/my repo");
    let remotes = parse_remotes("o\t/a b (fetch)\no\t/c push d (push)\n");
    assert_eq!(remotes[0].fetch_url, "/a b");
    assert_eq!(remotes[0].push_url, "/c push d");
}

#[test]
fn listing_lines() {
    assert_eq!(read_listing("o\tu (fetch)"), Some(("o", "u", false)));
    assert_eq!(read_listing("o\tu (push)"), Some(("o", "u", true)));
    // A partial clone notes its filter.
    assert_eq!(
        read_listing("o\thttps://x/y (fetch) [blob:none]"),
        Some(("o", "https://x/y", false))
    );
    assert_eq!(read_listing("o\tu"), Some(("o", "u", false)));
    assert_eq!(read_listing("o\t"), None);
    assert_eq!(read_listing("\tu (fetch)"), None);
    assert_eq!(read_listing("o  u (push)"), Some(("o", "u", true)));
    assert_eq!(read_listing("lonely"), None);
    assert_eq!(read_listing(""), None);
}

#[test]
fn remotes_keep_their_last_urls() {
    let raw = "b u1 (fetch)\r\n\r\n  lonely\nb u2 (fetch)\na p (push)\nc f\nb p1 (push)\nb p2 (push)";
    let remotes = parse_remotes(raw);
    let shown: Vec<String> = remotes
        .iter()
        .map(|r| format!("{} {} {}", r.name, r.fetch_url, r.push_url))
        .collect();
    // A push URL alone leaves the fetch URL empty; without one the fetch URL
    // serves for both.
    assert_eq!(shown, vec!["a  p", "b u2 p2", "c f f"]);
    assert_eq!(parse_remotes("").len(), 0);
}

#[test]
fn remotes_sort_as_strings_do() {
    let names = ["zeta", "Zeta", "a-b", "a", "ab", "é", "e", "𝄞", "\u{fffd}"];
    let mut raw = String::new();
    for n in names {
        raw.push_str(&format!("{n}\turl (fetch)\n"));
    }
    let mut sorted: Vec<String> = names.iter().map(|n| n.to_string()).collect();
    sorted.sort();
    let listed: Vec<String> = parse_remotes(&raw).into_iter().map(|r| r.name).collect();
    assert_eq!(listed, sorted);
}

#[test]
fn remote_listing_replies() {
    assert_eq!(value(list_remotes_reply(&said("o u (fetch)\n"))).len(), 1);
    assert_eq!(
        message(list_remotes_reply(&failed(128, "fatal: nope"))),
        "git remote -v failed: fatal: nope"
    );
}

#[test]
fn captured_commands() {
    let gh = Command::gh(words(&["repo", "view"]));
    assert_eq!(gh.program, Program::Gh);
    assert_eq!(value(run_capture(&gh, &said("  text \n"))), "text");
    assert_eq!(
        message(run_capture(&gh, &failed(4, " login first \n"))),
        "gh repo view failed: login first"
    );
    assert_eq!(message(run_capture(&gh, &killed())), "gh repo view failed: ");
    assert_eq!(
        message(run_capture(&gh, &not_run())),
        "failed to invoke gh repo view: No such file or directory (os error 2)"
    );
    assert!(complete(&gh, &said("x")).is_ok());
    assert_eq!(
        message(complete(&gh, &failed(1, "no"))),
        "gh repo view failed: no"
    );
}

#[test]
fn inherited_commands() {
    let fetch = Command::git_inherit(words(&["fetch", "origin"]));
    assert!(run_inherit(&fetch, &said("")).is_ok());
    assert_eq!(
        message(run_inherit(&fetch, &failed(1, "not captured"))),
        "git fetch origin failed"
    );
    assert_eq!(
        message(complete(&fetch, &killed())),
        "git fetch origin failed"
    );
    assert_eq!(
        message(complete(&fetch, &not_run())),
        "failed to invoke git fetch origin: No such file or directory (os error 2)"
    );
}

#[test]
fn command_lines() {
    let mut args = words(&["a"]);
    append_arg(&mut args, "b c");
    assert_eq!(Command::git(args).line(), "git a b c");
    assert_eq!(Command::gh(Vec::new()).line(), "gh ");
    let e = Error::new("cause").context("inner").context("outer");
    assert_eq!(e.message, "outer: inner: cause");
}

#[test]
fn outputs_are_decoded_and_trimmed() {
    assert_eq!(read_output(&" grüße \u{2003}\n".as_bytes().to_vec()), "grüße");
    // What is not UTF-8 is replaced.
    assert_eq!(read_output(&vec![b'a', 0xff, b'b', b'\n']), "a\u{fffd}b");
    assert_eq!(read_output(&Vec::new()), "");
}
