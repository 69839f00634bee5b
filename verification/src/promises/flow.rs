//! In which order a run goes about its work, what it asks the user, and what
//! ends it.

use vstd::prelude::*;

use crate::command;
use crate::gh;
use crate::git;
use crate::laws;
use crate::parent;
use crate::plan;
use crate::promises;
use crate::promises::replies;
use crate::stack;
use crate::step;
use crate::target;
use crate::ui;

verus! {

// --- from the repo to the merge target --------------------------------------

/// A run begins with the reading of the working repo.
pub proof fn law_run_begins_with_the_repo(x: stack::SetupView)
    ensures
        stack::push_start(x).phase == stack::PhaseView::State(git::StateReadView::GitDir),
        stack::push_start(x).setup == x,
        promises::shows(stack::push_start(x).output, "stackymcstackface"@),
{
    let style = ui::bold_of(x.console.palette);
    promises::lemma_shows(
        stack::push_start(x).output,
        ui::style_codes(style),
        "stackymcstackface"@,
        ui::reset_codes(style) + "\n"@,
    );
}

/// Once the repo is read, a fit one is looked up on GitHub by what git knows of
/// it. An unfit or an unreadable one ends the run, with the cause.
pub proof fn law_fit_repo_is_looked_up(
    s: stack::PushView,
    read: git::StateReadView,
    e: step::EventView,
)
    requires
        s.phase == stack::PhaseView::State(read),
    ensures
        ({
            let next = stack::push_next(s, e);
            match git::state_read_next(read, e) {
                git::StateReadView::Done(Ok(state)) => match (
                    state.in_progress,
                    state.current_branch,
                ) {
                    (None, Some(branch)) => next.phase == (stack::PhaseView::Local {
                        here: stack::HereView { state, branch },
                        query: gh::RepoQueryView::Ask { name: None },
                    }) && next.output == ui::section_text(s.setup.console.palette, "PLAN"@),
                    _ => next.phase matches stack::PhaseView::Finished(Err(_)),
                },
                git::StateReadView::Done(Err(cause)) => next.phase
                    == stack::PhaseView::Finished(
                    Err("could not read git state"@ + ": "@ + cause),
                ),
                reading => next.phase == stack::PhaseView::State(reading),
            }
        }),
{
    reveal(stack::on_state);
}

/// The run goes on to the search for the remote of this target, or refuses
/// where the branch is the target's default branch.
pub open spec fn heads_for(
    next: stack::PhaseView,
    here: stack::HereView,
    target: gh::RepoInfoView,
    fork: bool,
) -> bool {
    if here.branch == target.default_branch {
        next matches stack::PhaseView::Finished(Err(message)) && promises::shows(
            message,
            here.branch,
        ) && promises::shows(message, target.name_with_owner)
    } else {
        next == (stack::PhaseView::Remote {
            here,
            target,
            query: target::RemoteQueryView::Configured { target: target.name_with_owner, fork },
        })
    }
}

proof fn lemma_heads_for(
    x: stack::SetupView,
    here: stack::HereView,
    target: gh::RepoInfoView,
    fork: bool,
)
    ensures
        heads_for(stack::at_target(x, here, target, fork).phase, here, target, fork),
{
    reveal(stack::at_target);
    let a = "current branch `"@;
    let b = "` is the default branch of "@;
    let c = "; create a feature branch first."@;
    let message = stack::on_default_text(here.branch, target);
    promises::lemma_shows(message, a, here.branch, b + target.name_with_owner + c);
    promises::lemma_shows(message, a + here.branch + b, target.name_with_owner, c);
}

/// The repository at hand is the merge target unless it is a fork. The parent of
/// a fork is looked up by its name. A fork without a parent, or a failed lookup,
/// ends the run.
pub proof fn law_merge_target_of_the_repo(
    s: stack::PushView,
    here: stack::HereView,
    query: gh::RepoQueryView,
    e: step::EventView,
)
    requires
        s.phase == (stack::PhaseView::Local { here, query }),
    ensures
        ({
            let next = stack::push_next(s, e).phase;
            match gh::repo_query_next(query, e) {
                gh::RepoQueryView::Done(Ok(info)) => if !info.is_fork {
                    heads_for(next, here, info, false)
                } else {
                    match info.parent_name_with_owner {
                        Some(parent) => next == (stack::PhaseView::Fork {
                            here,
                            parent,
                            query: gh::RepoQueryView::Ask { name: Some(parent) },
                        }),
                        None => next matches stack::PhaseView::Finished(Err(_)),
                    }
                },
                gh::RepoQueryView::Done(Err(cause)) => next == stack::PhaseView::Finished(
                    Err(
                        "`gh repo view` failed; is this a GitHub repository and is `gh` authenticated?"@
                            + ": "@ + cause,
                    ),
                ),
                asking => next == (stack::PhaseView::Local { here, query: asking }),
            }
        }),
{
    reveal(stack::on_local);
    match gh::repo_query_next(query, e) {
        gh::RepoQueryView::Done(Ok(info)) => {
            lemma_heads_for(s.setup, here, info, false);
        },
        _ => {},
    }
}

/// The parent of a fork is the merge target of the fork.
pub proof fn law_merge_target_of_a_fork(
    s: stack::PushView,
    here: stack::HereView,
    parent: Seq<char>,
    query: gh::RepoQueryView,
    e: step::EventView,
)
    requires
        s.phase == (stack::PhaseView::Fork { here, parent, query }),
    ensures
        ({
            let next = stack::push_next(s, e).phase;
            match gh::repo_query_next(query, e) {
                gh::RepoQueryView::Done(Ok(info)) => heads_for(next, here, info, true),
                gh::RepoQueryView::Done(Err(cause)) => next matches stack::PhaseView::Finished(
                    Err(message),
                ) && promises::shows(message, cause) && promises::shows(message, parent),
                asking => next == (stack::PhaseView::Fork { here, parent, query: asking }),
            }
        }),
{
    reveal(stack::on_fork);
    match gh::repo_query_next(query, e) {
        gh::RepoQueryView::Done(Ok(info)) => {
            lemma_heads_for(s.setup, here, info, true);
        },
        gh::RepoQueryView::Done(Err(cause)) => {
            let a = "could not load merge-target repo `"@;
            let message = command::in_context(stack::fork_context(parent), cause);
            promises::lemma_shows(message, a + parent + "`"@ + ": "@, cause, seq![]);
            promises::lemma_shows(message, a, parent, "`"@ + ": "@ + cause);
        },
        _ => {},
    }
}

// --- the setting ------------------------------------------------------------

/// The setting is to be switched on at once: it is off, the user may change it,
/// and prompts are skipped.
pub open spec fn switched_on_at_once(x: stack::SetupView, target: gh::RepoInfoView) -> bool {
    !target.delete_branch_on_merge && target.viewer_can_administer && x.opts.yes
}

/// The user is asked about the setting: it is off, the user may change it, and
/// prompts are not skipped.
pub open spec fn asked_about(x: stack::SetupView, target: gh::RepoInfoView) -> bool {
    !target.delete_branch_on_merge && target.viewer_can_administer && !x.opts.yes
}

/// The remote is known: the run aims at the target through it, and a summary of
/// both is shown. The user is asked about the setting if and only if it is off,
/// the user may change it, and prompts are not skipped; with prompts skipped it
/// is then switched on. Otherwise it is left alone.
pub proof fn law_known_remote_settles_the_aim(
    s: stack::PushView,
    here: stack::HereView,
    target: gh::RepoInfoView,
    query: target::RemoteQueryView,
    e: step::EventView,
    remote: Seq<char>,
)
    requires
        s.phase == (stack::PhaseView::Remote { here, target, query }),
        target::remote_query_next(query, e) == target::RemoteQueryView::Done(Ok(remote)),
    ensures
        ({
            let next = stack::push_next(s, e);
            let aim = stack::AimView {
                here,
                target,
                remote,
                enable: switched_on_at_once(s.setup, target),
            };
            &&& laws::aim_of(next) == Some(aim)
            &&& next.phase == stack::PhaseView::OfferDelete(aim) <==> asked_about(s.setup, target)
            &&& !asked_about(s.setup, target) ==> next.phase is OfferRescue || next.phase is Fetch
            &&& promises::shows(
                next.output,
                target.name_with_owner + " · default "@ + target.default_branch + " · remote "@
                    + remote,
            )
        }),
{
    let aim = stack::AimView { here, target, remote, enable: false };
    let line = stack::summary_text(target, remote);
    let output = ui::field_text(line);
    reveal(stack::on_remote);
    lemma_auto_delete(s.setup, aim, output);
    promises::lemma_shows(output, "  "@, line, "\n"@);
    let next = stack::push_next(s, e);
    assert(output.is_prefix_of(next.output));
    let rest = next.output.skip(output.len() as int);
    promises::lemma_shows_more(next.output, seq![], output, rest, line);
}

/// A failed search for the remote ends the run with its cause.
pub proof fn law_missing_remote_ends_the_run(
    s: stack::PushView,
    here: stack::HereView,
    target: gh::RepoInfoView,
    query: target::RemoteQueryView,
    e: step::EventView,
)
    requires
        s.phase == (stack::PhaseView::Remote { here, target, query }),
    ensures
        match target::remote_query_next(query, e) {
            target::RemoteQueryView::Done(Ok(_)) => true,
            target::RemoteQueryView::Done(Err(cause)) => stack::push_next(s, e).phase
                == stack::PhaseView::Finished(Err(cause)),
            asking => stack::push_next(s, e).phase == (stack::PhaseView::Remote {
                here,
                target,
                query: asking,
            }),
        },
{
    reveal(stack::on_remote);
}

proof fn lemma_rescue(x: stack::SetupView, aim: stack::AimView, output: Seq<char>)
    ensures
        ({
            let next = stack::at_rescue(x, aim, output);
            &&& output.is_prefix_of(next.output)
            &&& next.phase == stack::PhaseView::OfferRescue(aim) || next.phase
                == stack::PhaseView::Fetch(aim)
        }),
{
    reveal(stack::at_rescue);
    reveal(stack::at_fetch);
}

proof fn lemma_auto_delete(x: stack::SetupView, aim: stack::AimView, output: Seq<char>)
    requires
        !aim.enable,
    ensures
        ({
            let next = stack::at_auto_delete(x, aim, output);
            let decided = stack::AimView {
                enable: switched_on_at_once(x, aim.target),
                ..aim
            };
            &&& output.is_prefix_of(next.output)
            &&& if asked_about(x, aim.target) {
                next.phase == stack::PhaseView::OfferDelete(aim)
            } else {
                next.phase == stack::PhaseView::OfferRescue(decided) || next.phase
                    == stack::PhaseView::Fetch(decided)
            }
        }),
{
    reveal(stack::at_auto_delete);
    let on = stack::with_enable(aim, true);
    let off = stack::with_enable(aim, false);
    assert(off == aim);
    let none = ui::warn_text(x.console, plan::no_auto_delete_text(aim.target));
    let some = ui::warn_text(x.console, plan::offer_auto_delete_text(aim.target));
    lemma_rescue(x, off, output);
    lemma_rescue(x, off, output + none);
    lemma_rescue(x, on, output + some);
}

/// While the setting is off, its warning is shown as soon as the remote is
/// known, whatever the options. It names the repository and its default branch,
/// and says what is missed. A user who cannot change the setting is told how an
/// admin can.
pub proof fn law_setting_that_is_off_is_warned_of(
    s: stack::PushView,
    here: stack::HereView,
    target: gh::RepoInfoView,
    query: target::RemoteQueryView,
    e: step::EventView,
    remote: Seq<char>,
)
    requires
        s.phase == (stack::PhaseView::Remote { here, target, query }),
        target::remote_query_next(query, e) == target::RemoteQueryView::Done(Ok(remote)),
        !target.delete_branch_on_merge,
    ensures
        promises::shows(
            stack::push_next(s, e).output,
            ui::warn_text(
                s.setup.console,
                if target.viewer_can_administer {
                    "`delete_branch_on_merge` is OFF on "@ + target.name_with_owner
                        + ". After a stack PR merges, GitHub will not delete the head branch and the next PR will not auto-retarget to `"@
                        + target.default_branch + "`."@
                } else {
                    "`delete_branch_on_merge` is OFF on "@ + target.name_with_owner
                        + " and you lack admin rights to change it. After a stack PR merges, GitHub will not delete the head branch and the next PR will not auto-retarget to `"@
                        + target.default_branch + "`. Ask an admin to enable it:\n"@ + (
                    "gh api -X PATCH /repos/"@ + target.name_with_owner
                        + " -F delete_branch_on_merge=true"@)
                },
            ),
        ),
{
    laws::law_missing_setting_is_reported(s.setup, here, target, remote);
    let next = stack::push_next(s, e);
    let line = ui::field_text(stack::summary_text(target, remote));
    let warning = ui::warn_text(
        s.setup.console,
        if target.viewer_can_administer {
            plan::offer_auto_delete_text(target)
        } else {
            plan::no_auto_delete_text(target)
        },
    );
    let front = line + warning;
    promises::words::law_parts_of_a_text(next.output, front);
    let rest = next.output.skip(front.len() as int);
    promises::lemma_shows(next.output, line, warning, rest);
}

/// The answer decides about the setting, and nothing else about the aim. A user
/// who declines is told how to switch it on later.
pub proof fn law_answer_decides_about_the_setting(
    s: stack::PushView,
    aim: stack::AimView,
    yes: bool,
)
    requires
        s.phase == stack::PhaseView::OfferDelete(aim),
    ensures
        stack::push_action(s) == Some(
            step::ActionView::Confirm("Enable `delete_branch_on_merge` now?"@),
        ),
        ({
            let next = stack::push_next(s, step::EventView::Answer(yes));
            let decided = stack::AimView { enable: yes, ..aim };
            &&& next.phase == stack::PhaseView::OfferRescue(decided) || next.phase
                == stack::PhaseView::Fetch(decided)
            &&& !yes ==> promises::shows(
                next.output,
                "gh api -X PATCH /repos/"@ + aim.target.name_with_owner
                    + " -F delete_branch_on_merge=true"@,
            )
        }),
{
    reveal(stack::on_delete_answer);
    let decided = stack::with_enable(aim, yes);
    let note = ui::dim_text(s.setup.console, plan::declined_auto_delete_text(aim.target));
    lemma_rescue(s.setup, decided, ui::only_if(!yes, note));
    if !yes {
        let hint = plan::enable_hint(aim.target.name_with_owner);
        let style = ui::dim_of(s.setup.console.palette);
        let next = stack::push_next(s, step::EventView::Answer(yes));
        let rest = next.output.skip(note.len() as int);
        promises::lemma_shows(
            note,
            "  "@ + ui::style_codes(style) + "leaving it off — enable later with: "@,
            hint,
            ui::reset_codes(style) + "\n"@,
        );
        promises::lemma_shows_more(next.output, seq![], note, rest, hint);
    }
}

/// The setting has been agreed to at the `k`-th event.
pub open spec fn setting_agreed_at(
    x: stack::SetupView,
    events: Seq<step::EventView>,
    k: int,
) -> bool {
    &&& 0 <= k < events.len()
    &&& laws::push_after(stack::push_start(x), events.take(k)).phase is OfferDelete
    &&& events[k] == step::EventView::Answer(true)
}

/// The target's setting is changed only where it is off and the user may change
/// it, and only with consent: `--yes` was given, or the user was asked and said
/// yes.
pub proof fn law_setting_is_changed_only_with_consent(
    x: stack::SetupView,
    events: Seq<step::EventView>,
    aim: stack::AimView,
)
    requires
        laws::aim_of(laws::push_after(stack::push_start(x), events)) == Some(aim),
        aim.enable,
    ensures
        !aim.target.delete_branch_on_merge,
        aim.target.viewer_can_administer,
        x.opts.yes || exists|k: int| setting_agreed_at(x, events, k),
    decreases events.len(),
{
    let start = stack::push_start(x);
    if events.len() > 0 {
        let front = events.drop_last();
        let n = front.len() as int;
        let prev = laws::push_after(start, front);
        let e = events.last();
        assert(events.take(n) == front);
        laws::lemma_push_ok(x, front);
        laws::lemma_push_ok(x, events);
        laws::lemma_push_next_ok(prev, e);
        match prev.phase {
            stack::PhaseView::Remote { .. } => {},
            _ => {
                let before = laws::aim_of(prev)->Some_0;
                if before.enable {
                    law_setting_is_changed_only_with_consent(x, front, before);
                    if !x.opts.yes {
                        let k = choose|k: int| setting_agreed_at(x, front, k);
                        assert(front.take(k) == events.take(k));
                        assert(setting_agreed_at(x, events, k));
                    }
                } else {
                    assert(setting_agreed_at(x, events, n));
                }
            },
        }
    }
}

/// The setting is switched on before the push if and only if that was decided;
/// the command changes the setting of the merge target. Whatever comes of it,
/// the push follows, and the user is told.
pub proof fn law_setting_is_switched_on_before_the_push(
    s: stack::PushView,
    p: stack::PlanView,
    reply: command::ReplyView,
)
    requires
        s.phase == stack::PhaseView::Enable(p),
    ensures
        stack::push_action(s) matches Some(step::ActionView::Run(c)) && replies::runs_gh(
            c,
            seq![
                "api"@,
                "-X"@,
                "PATCH"@,
                "/repos/"@ + p.aim.target.name_with_owner,
                "-F"@,
                "delete_branch_on_merge=true"@,
            ],
        ),
        ({
            let next = stack::push_next(s, step::EventView::Ran(reply));
            &&& next.phase == stack::PhaseView::Push(p)
            &&& promises::ended_well(reply) ==> ui::done_text(
                s.setup.console,
                "enabled delete_branch_on_merge"@,
            ).is_prefix_of(next.output)
            &&& !promises::ended_well(reply) ==> exists|cause: Seq<char>|
                #[trigger] ui::warn_text(
                    s.setup.console,
                    "could not enable delete_branch_on_merge"@ + ": "@ + cause,
                ).is_prefix_of(next.output)
        }),
{
    reveal(stack::on_enabled);
    reveal(stack::at_push);
    match command::captured(stack::plan_enable(p), reply) {
        Ok(_) => {},
        Err(cause) => {
            let next = stack::push_next(s, step::EventView::Ran(reply));
            let warning = ui::warn_text(
                s.setup.console,
                "could not enable delete_branch_on_merge"@ + ": "@ + cause,
            );
            assert(warning.is_prefix_of(next.output));
        },
    }
}

// --- the rescue -------------------------------------------------------------

/// The re-push goes on with a yes and ends the run with a no.
pub proof fn law_answer_decides_about_the_re_push(
    s: stack::PushView,
    aim: stack::AimView,
    yes: bool,
)
    requires
        s.phase == stack::PhaseView::OfferRescue(aim),
    ensures
        ({
            let next = stack::push_next(s, step::EventView::Answer(yes)).phase;
            if yes {
                next == stack::PhaseView::Fetch(aim)
            } else {
                next == stack::PhaseView::Finished(
                    Err("aborting: branch must live on `"@ + aim.remote + "` for stacking"@),
                )
            }
        }),
{
    reveal(stack::on_rescue_answer);
    reveal(stack::at_fetch);
}

// --- from the fetch to the plan ---------------------------------------------

/// The remote is fetched first, before the open PRs are listed. A failed fetch
/// ends the run.
pub proof fn law_fetch_comes_before_the_listing(
    s: stack::PushView,
    aim: stack::AimView,
    reply: command::ReplyView,
)
    requires
        s.phase == stack::PhaseView::Fetch(aim),
    ensures
        stack::push_action(s) == Some(
            step::ActionView::Run(
                command::CommandView {
                    program: command::Program::Git,
                    args: if s.setup.opts.verbose >= 2 {
                        seq!["fetch"@, "--verbose"@, aim.remote]
                    } else {
                        seq!["fetch"@, aim.remote]
                    },
                    inherit: s.setup.opts.verbose >= 1,
                },
            ),
        ),
        ({
            let next = stack::push_next(s, step::EventView::Ran(reply)).phase;
            if promises::ended_well(reply) {
                next == stack::PhaseView::ListPrs(aim)
            } else {
                next matches stack::PhaseView::Finished(Err(message)) && (
                "git fetch "@ + aim.remote + " failed"@ + ": "@).is_prefix_of(message)
            }
        }),
{
    reveal(stack::on_fetched);
    replies::law_fetch_names_its_remote(aim.remote, s.setup.opts.verbose >= 2);
    replies::law_completed_commands(stack::aim_fetch(s.setup, aim), reply);
}

/// The open PRs of the merge target are listed, and what `gh` printed is
/// decoded. Where either fails, the run ends.
pub proof fn law_open_prs_of_the_target_are_listed(
    s: stack::PushView,
    aim: stack::AimView,
    reply: command::ReplyView,
)
    requires
        s.phase == stack::PhaseView::ListPrs(aim),
    ensures
        stack::push_action(s) == Some(
            step::ActionView::Run(gh::list_open_prs_command(aim.target.name_with_owner)),
        ),
        ({
            let next = stack::push_next(s, step::EventView::Ran(reply));
            if promises::ended_well(reply) {
                next.phase matches stack::PhaseView::DecodePrs { aim: a, json } && a == aim
                    && replies::is_text_of(json, replies::stdout_of(reply))
                    && stack::push_action(next) == Some(step::ActionView::DecodePrs(json))
            } else {
                next.phase matches stack::PhaseView::Finished(Err(message)) && (
                "could not list open PRs on the merge target"@ + ": "@).is_prefix_of(message)
            }
        }),
{
    reveal(stack::on_listed);
    let c = gh::list_open_prs_command(aim.target.name_with_owner);
    replies::law_captured_commands(c, reply);
}

/// A list that cannot be decoded ends the run.
pub proof fn law_undecodable_prs_end_the_run(
    s: stack::PushView,
    aim: stack::AimView,
    json: Seq<char>,
    cause: Seq<char>,
)
    requires
        s.phase == (stack::PhaseView::DecodePrs { aim, json }),
    ensures
        stack::push_next(s, step::EventView::Prs(Err(cause))).phase
            matches stack::PhaseView::Finished(Err(message)) && promises::shows(message, cause)
            && promises::shows(message, json),
{
    reveal(stack::on_prs);
    let a = "could not list open PRs on the merge target"@ + ": "@ + ("could not parse `"@
        + "gh pr list"@ + "` output: "@);
    let message = command::in_context(
        stack::prs_context(),
        gh::undecodable("gh pr list"@, json, cause),
    );
    promises::lemma_shows(message, a, json, ": "@ + cause);
    promises::lemma_shows(message, a + json + ": "@, cause, seq![]);
}

/// The search is about the target, the remote, the branch and the commit that
/// the run aims with. It ends with a plan for that aim and the parent that was
/// found; a failed search ends the run. The plan is carried out from the
/// setting on where that is to be changed, and from the push on otherwise.
pub proof fn law_found_parent_is_planned_with(
    s: stack::PushView,
    aim: stack::AimView,
    search: parent::SearchView,
    e: step::EventView,
)
    requires
        s.phase == (stack::PhaseView::Search { aim, search }),
    ensures
        ({
            let next = stack::push_next(s, e).phase;
            let found = parent::search_next(search, e);
            match found.stage {
                parent::StageView::Done(Ok(parent)) => {
                    let p = stack::PlanView {
                        aim,
                        parent,
                        existing: stack::own_pr(found.scope.prs, aim.here.branch),
                    };
                    if aim.enable {
                        next == stack::PhaseView::Enable(p)
                    } else {
                        next == stack::PhaseView::Push(p)
                    }
                },
                parent::StageView::Done(Err(cause)) => next == stack::PhaseView::Finished(
                    Err(cause),
                ),
                _ => next == (stack::PhaseView::Search { aim, search: found }),
            }
        }),
        forall|prs: Seq<gh::OpenPrView>|
            {
                let scope = #[trigger] stack::aim_scope(aim, prs);
                &&& scope.prs == prs
                &&& scope.target == aim.target.name_with_owner
                &&& scope.default_branch == aim.target.default_branch
                &&& scope.remote == aim.remote
                &&& scope.branch == aim.here.branch
                &&& scope.head_sha == aim.here.state.head_sha
            },
{
    reveal(stack::on_search);
    reveal(stack::at_plan);
    reveal(stack::at_push);
}

// --- the push ---------------------------------------------------------------

/// A failed push ends the run: nothing is created, and the user is told how to
/// go on after a rebase. After a successful push the user is told so.
pub proof fn law_failed_push_ends_the_run(
    s: stack::PushView,
    p: stack::PlanView,
    reply: command::ReplyView,
)
    requires
        s.phase == stack::PhaseView::Push(p),
    ensures
        ({
            let next = stack::push_next(s, step::EventView::Ran(reply));
            if promises::ended_well(reply) {
                &&& next.phase == stack::PhaseView::Create(p) || next.phase
                    == stack::PhaseView::Finished(Ok(()))
                &&& ui::done_text(
                    s.setup.console,
                    "pushed "@ + p.aim.here.branch + " to "@ + p.aim.remote,
                ).is_prefix_of(next.output)
            } else {
                next.phase matches stack::PhaseView::Finished(Err(message)) && (
                "git push "@ + p.aim.remote + " "@ + p.aim.here.branch
                    + " failed -- if you rebased, retry with --force-with-lease"@
                    + ": "@).is_prefix_of(message)
            }
        }),
{
    reveal(stack::on_pushed);
    replies::law_completed_commands(stack::plan_push(s.setup, p), reply);
}

/// While something is read, looked up or searched, the run asks what the
/// reading, the lookup or the search asks.
pub proof fn law_run_asks_what_is_pending(s: stack::PushView)
    ensures
        s.phase matches stack::PhaseView::State(read) ==> stack::push_action(s)
            == git::state_read_action(read),
        s.phase matches stack::PhaseView::Local { query, .. } ==> stack::push_action(s)
            == gh::repo_query_action(query),
        s.phase matches stack::PhaseView::Fork { query, .. } ==> stack::push_action(s)
            == gh::repo_query_action(query),
        s.phase matches stack::PhaseView::Remote { query, .. } ==> stack::push_action(s)
            == target::remote_query_action(query),
        s.phase matches stack::PhaseView::Search { search, .. } ==> stack::push_action(s)
            == parent::search_action(search),
{
}

/// A run that is over stays over, and an event that does not answer the pending
/// action ends it.
pub proof fn law_stray_events_end_the_run(s: stack::PushView, e: step::EventView)
    ensures
        s.phase matches stack::PhaseView::Finished(r) ==> stack::push_next(s, e).phase
            == stack::PhaseView::Finished(r) && stack::push_action(s) is None,
        (s.phase is OfferDelete || s.phase is OfferRescue) && !(e is Answer) ==> (
        stack::push_next(s, e).phase matches stack::PhaseView::Finished(Err(_))),
        (s.phase is Fetch || s.phase is ListPrs || s.phase is Enable || s.phase is Push || s.phase
            is Create || s.phase is Body || s.phase is SetBody) && !(e is Ran) ==> (
        stack::push_next(s, e).phase matches stack::PhaseView::Finished(Err(_))),
        s.phase is DecodePrs && !(e is Prs) ==> (stack::push_next(s, e).phase
            matches stack::PhaseView::Finished(Err(_))),
{
}

// --- spinners ---------------------------------------------------------------

/// A spinner stands in for whatever is captured, and for the fetch and the push
/// where git's output is hidden. Nothing spins while git writes to the terminal
/// or the user is asked.
pub proof fn law_spinner_stands_in_for_hidden_output(s: stack::PushView)
    ensures
        ({
            let quiet = s.setup.opts.verbose == 0;
            match s.phase {
                stack::PhaseView::Fetch(aim) => stack::push_pending(s) == if quiet {
                    Some("fetching "@ + aim.remote)
                } else {
                    None
                },
                stack::PhaseView::Push(p) => stack::push_pending(s) == if quiet {
                    Some("pushing "@ + p.aim.here.branch + " → "@ + p.aim.remote)
                } else {
                    None
                },
                stack::PhaseView::OfferDelete(_)
                | stack::PhaseView::OfferRescue(_)
                | stack::PhaseView::Finished(_) => stack::push_pending(s) is None,
                stack::PhaseView::Local { .. } | stack::PhaseView::Fork { .. } =>
                    stack::push_pending(s) == Some("resolving merge target"@),
                stack::PhaseView::ListPrs(_) | stack::PhaseView::DecodePrs { .. } =>
                    stack::push_pending(s) == Some("scanning open pull requests"@),
                stack::PhaseView::Enable(_) => stack::push_pending(s) == Some(
                    "enabling delete_branch_on_merge"@,
                ),
                stack::PhaseView::Create(_) => stack::push_pending(s) == Some(
                    "creating pull request"@,
                ),
                stack::PhaseView::Body { .. } | stack::PhaseView::SetBody { .. } =>
                    stack::push_pending(s) == Some("noting parent in PR description"@),
                stack::PhaseView::State(_)
                | stack::PhaseView::Remote { .. }
                | stack::PhaseView::Search { .. } => stack::push_pending(s) is None,
            }
        }),
{
}

/// The steps that show nothing: those between the plan's heading and the plan
/// that do not concern the target, the reading of a description, and a failure,
/// whose error the caller shows.
pub open spec fn is_silent(s: stack::PushView, next: stack::PushView) -> bool {
    &&& s.phase is Fetch ==> next.output.len() == 0
    &&& s.phase is ListPrs ==> next.output.len() == 0
    &&& next.phase is Search ==> next.output.len() == 0
    &&& next.phase is Local && s.phase is Local ==> next.output.len() == 0
    &&& next.phase is Fork || next.phase is Remote || next.phase is State ==> next.output.len()
        == 0
    &&& next.phase is SetBody ==> next.output.len() == 0
    &&& next.phase matches stack::PhaseView::Finished(Err(_)) ==> next.output.len() == 0
}

/// A run shows nothing where it has nothing to say.
pub proof fn law_silent_steps(s: stack::PushView, e: step::EventView)
    ensures
        is_silent(s, stack::push_next(s, e)),
{
    lemma_silent_lookups(s, e);
    lemma_silent_answers(s, e);
    lemma_silent_search(s, e);
    lemma_silent_execution(s, e);
}

proof fn lemma_silent_lookups(s: stack::PushView, e: step::EventView)
    ensures
        s.phase is State || s.phase is Local || s.phase is Fork || s.phase is Finished
            ==> is_silent(s, stack::push_next(s, e)),
{
    reveal(stack::on_state);
    reveal(stack::on_local);
    reveal(stack::on_fork);
    reveal(stack::at_target);
}

proof fn lemma_silent_answers(s: stack::PushView, e: step::EventView)
    ensures
        s.phase is Remote || s.phase is OfferDelete || s.phase is OfferRescue || s.phase is Fetch
            || s.phase is ListPrs ==> is_silent(s, stack::push_next(s, e)),
{
    reveal(stack::on_rescue_answer);
    reveal(stack::at_fetch);
    reveal(stack::on_fetched);
    reveal(stack::on_listed);
    match s.phase {
        stack::PhaseView::Remote { here, target, query } => {
            reveal(stack::on_remote);
            match target::remote_query_next(query, e) {
                target::RemoteQueryView::Done(Ok(remote)) => {
                    lemma_auto_delete(
                        s.setup,
                        stack::AimView { here, target, remote, enable: false },
                        ui::field_text(stack::summary_text(target, remote)),
                    );
                },
                _ => {},
            }
        },
        stack::PhaseView::OfferDelete(aim) => {
            reveal(stack::on_delete_answer);
            match e {
                step::EventView::Answer(yes) => {
                    lemma_rescue(
                        s.setup,
                        stack::with_enable(aim, yes),
                        ui::only_if(
                            !yes,
                            ui::dim_text(
                                s.setup.console,
                                plan::declined_auto_delete_text(aim.target),
                            ),
                        ),
                    );
                },
                _ => {},
            }
        },
        _ => {},
    }
}

proof fn lemma_silent_search(s: stack::PushView, e: step::EventView)
    ensures
        s.phase is DecodePrs || s.phase is Search ==> is_silent(s, stack::push_next(s, e)),
{
    reveal(stack::on_prs);
    reveal(stack::on_search);
    reveal(stack::at_plan);
    reveal(stack::at_push);
}

proof fn lemma_silent_execution(s: stack::PushView, e: step::EventView)
    ensures
        s.phase is Enable || s.phase is Push || s.phase is Create || s.phase is Body || s.phase
            is SetBody ==> is_silent(s, stack::push_next(s, e)),
{
    reveal(stack::on_enabled);
    reveal(stack::at_push);
    reveal(stack::on_pushed);
    reveal(stack::on_created);
    reveal(stack::on_body);
    reveal(stack::on_body_set);
    reveal(stack::at_end);
}

/// Git's own output is hidden without `-v`, streamed with it, and verbose from
/// the second on.
pub proof fn law_verbosity(verbose: u8)
    ensures
        stack::git_output(verbose) is Quiet <==> verbose == 0,
        stack::git_output(verbose) == (git::GitOutput::Stream { verbose: false }) <==> verbose
            == 1,
        stack::git_output(verbose) == (git::GitOutput::Stream { verbose: true }) <==> verbose >= 2,
{
}

} // verus!
