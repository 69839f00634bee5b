//! What a run does to the branch and its PR, and when it asks first.

use vstd::prelude::*;

use crate::command;
use crate::gh;
use crate::laws;
use crate::parent;
use crate::promises;
use crate::stack;
use crate::step;
use crate::target;
use crate::ui;

verus! {

// --- the PR of the branch ---------------------------------------------------

/// An open PR of the branch, whose head lives on the merge-target repo.
pub open spec fn is_pr_of(pr: gh::OpenPrView, branch: Seq<char>) -> bool {
    pr.head_ref_name == branch && !pr.is_cross_repository
}

/// A branch has an open PR if and only if the head of a listed PR is that very
/// branch, on the merge-target repo; the first such PR counts.
pub proof fn law_own_pr_is_the_first_with_the_branch(
    prs: Seq<gh::OpenPrView>,
    branch: Seq<char>,
)
    ensures
        stack::own_pr(prs, branch) is None <==> forall|i: int|
            0 <= i < prs.len() ==> !is_pr_of(#[trigger] prs[i], branch),
        stack::own_pr(prs, branch) matches Some(pr) ==> exists|i: int|
            {
                &&& 0 <= i < prs.len()
                &&& #[trigger] prs[i] == pr
                &&& is_pr_of(pr, branch)
                &&& forall|j: int| 0 <= j < i ==> !is_pr_of(#[trigger] prs[j], branch)
            },
    decreases prs.len(),
{
    if prs.len() > 0 {
        if is_pr_of(prs[0], branch) {
            assert(prs[0] == stack::own_pr(prs, branch)->Some_0);
        } else {
            let rest = prs.skip(1);
            law_own_pr_is_the_first_with_the_branch(rest, branch);
            assert forall|i: int| 0 <= i < rest.len() implies rest[i] == #[trigger] prs[i + 1] by {}
            match stack::own_pr(prs, branch) {
                Some(pr) => {
                    let i = choose|i: int|
                        {
                            &&& 0 <= i < rest.len()
                            &&& #[trigger] rest[i] == pr
                            &&& is_pr_of(pr, branch)
                            &&& forall|j: int| 0 <= j < i ==> !is_pr_of(#[trigger] rest[j], branch)
                        };
                    assert(prs[i + 1] == pr);
                    assert forall|j: int| 0 <= j < i + 1 implies !is_pr_of(
                        #[trigger] prs[j],
                        branch,
                    ) by {
                        if j > 0 {
                            assert(rest[j - 1] == prs[j]);
                        }
                    }
                },
                None => {
                    assert forall|i: int| 0 <= i < prs.len() implies !is_pr_of(
                        #[trigger] prs[i],
                        branch,
                    ) by {
                        if i > 0 {
                            assert(rest[i - 1] == prs[i]);
                        }
                    }
                },
            }
        }
    }
}

/// After a successful push a PR is created if and only if no listed PR is one of
/// the branch. Otherwise the run is over, and shows the URL of the first such
/// PR.
pub proof fn law_pr_is_created_iff_there_is_none(
    s: stack::PushView,
    aim: stack::AimView,
    json: Seq<char>,
    prs: Seq<gh::OpenPrView>,
    events: Seq<step::EventView>,
    p: stack::PlanView,
    reply: command::ReplyView,
)
    requires
        s.phase == (stack::PhaseView::DecodePrs { aim, json }),
        laws::push_after(stack::push_next(s, step::EventView::Prs(Ok(prs))), events).phase
            == stack::PhaseView::Push(p),
        promises::ended_well(reply),
    ensures
        ({
            let pushing = laws::push_after(
                stack::push_next(s, step::EventView::Prs(Ok(prs))),
                events,
            );
            let next = stack::push_next(pushing, step::EventView::Ran(reply));
            if exists|i: int| 0 <= i < prs.len() && is_pr_of(#[trigger] prs[i], aim.here.branch) {
                &&& next.phase == stack::PhaseView::Finished(Ok(()))
                &&& exists|i: int|
                    {
                        &&& 0 <= i < prs.len()
                        &&& is_pr_of(#[trigger] prs[i], aim.here.branch)
                        &&& promises::shows(next.output, prs[i].url)
                        &&& promises::shows(next.output, prs[i].base_ref_name)
                    }
            } else {
                next.phase == stack::PhaseView::Create(p)
            }
        }),
{
    let start = stack::push_next(s, step::EventView::Prs(Ok(prs)));
    let pushing = laws::push_after(start, events);
    laws::lemma_keeps_own_pr(s, aim, json, prs, events);
    law_own_pr_is_the_first_with_the_branch(prs, aim.here.branch);
    match p.existing {
        Some(pr) => {
            lemma_pushed_output(pushing.setup, p, pr, reply);
            let i = choose|i: int|
                {
                    &&& 0 <= i < prs.len()
                    &&& #[trigger] prs[i] == pr
                    &&& is_pr_of(pr, aim.here.branch)
                };
            assert(is_pr_of(prs[i], aim.here.branch));
        },
        None => {
            lemma_pushed_without_pr(pushing.setup, p, reply);
        },
    }
}

/// What is shown after the push of a branch with an open PR.
proof fn lemma_pushed_output(
    x: stack::SetupView,
    p: stack::PlanView,
    pr: gh::OpenPrView,
    reply: command::ReplyView,
)
    requires
        p.existing == Some(pr),
        promises::ended_well(reply),
    ensures
        stack::on_pushed(x, p, reply).phase == stack::PhaseView::Finished(Ok(())),
        promises::shows(stack::on_pushed(x, p, reply).output, pr.url),
        promises::shows(stack::on_pushed(x, p, reply).output, pr.base_ref_name),
{
    reveal(stack::on_pushed);
    let done = ui::done_text(x.console, "pushed "@ + p.aim.here.branch + " to "@ + p.aim.remote);
    let url = ui::url_text(x.console, pr.url);
    let base = ui::dim_text(x.console, "base on GitHub: "@ + pr.base_ref_name);
    let output = stack::on_pushed(x, p, reply).output;
    assert(output == done + url + base);
    lemma_url_shows(x.console, pr.url);
    lemma_dim_shows(x.console, "base on GitHub: "@, pr.base_ref_name);
    promises::lemma_shows_more(output, done, url, base, pr.url);
    assert(output == (done + url) + base + seq![]);
    promises::lemma_shows_more(output, done + url, base, seq![], pr.base_ref_name);
}

proof fn lemma_pushed_without_pr(
    x: stack::SetupView,
    p: stack::PlanView,
    reply: command::ReplyView,
)
    requires
        p.existing is None,
        promises::ended_well(reply),
    ensures
        stack::on_pushed(x, p, reply).phase == stack::PhaseView::Create(p),
{
    reveal(stack::on_pushed);
}

/// A headline shows its URL.
proof fn lemma_url_shows(c: ui::Console, url: Seq<char>)
    ensures
        promises::shows(ui::url_text(c, url), url),
{
    let style = ui::bold_of(c.palette);
    promises::lemma_shows(
        ui::url_text(c, url),
        "\n  "@ + ui::style_codes(style),
        url,
        ui::reset_codes(style) + "\n"@,
    );
}

/// A dim line shows its end.
proof fn lemma_dim_shows(c: ui::Console, front: Seq<char>, part: Seq<char>)
    ensures
        promises::shows(ui::dim_text(c, front + part), part),
{
    let style = ui::dim_of(c.palette);
    promises::lemma_shows(
        ui::dim_text(c, front + part),
        "  "@ + ui::style_codes(style) + front,
        part,
        ui::reset_codes(style) + "\n"@,
    );
}

// --- the wrong remote -------------------------------------------------------

/// The branch tracks a branch of another remote than the merge target's.
pub open spec fn is_astray(aim: stack::AimView) -> bool {
    aim.here.state.upstream matches Some((remote, _)) && remote != aim.remote
}

/// The warning for a branch that is astray, as a text of two lines.
pub open spec fn astray_text(aim: stack::AimView) -> Seq<char> {
    "current branch tracks `"@ + aim.here.state.upstream->Some_0.0
        + "/...` but the merge target is `"@ + aim.remote
        + "`.\nStacked PRs only work when the branch lives on the merge-target remote."@
}

/// The remote is known and the setting is dealt with: the run has just left the
/// search for the remote, or the offer to change the setting.
pub open spec fn remote_is_settled(s: stack::PushView, next: stack::PushView) -> bool {
    &&& s.phase is Remote || s.phase is OfferDelete
    &&& laws::aim_of(next) is Some
    &&& !(next.phase is OfferDelete)
}

/// Once the remote is known and the setting is dealt with, a branch that is
/// astray brings a warning, whatever the options. Without `--yes` the pending
/// action is then the confirmation of the re-push. In all other cases the fetch
/// is pending at once.
pub proof fn law_branch_astray_is_warned_of_and_confirmed(s: stack::PushView, e: step::EventView)
    requires
        laws::push_ok(s),
        remote_is_settled(s, stack::push_next(s, e)),
    ensures
        ({
            let next = stack::push_next(s, e);
            let aim = laws::aim_of(next)->Some_0;
            &&& is_astray(aim) ==> promises::shows(
                next.output,
                ui::warn_text(s.setup.console, astray_text(aim)),
            )
            &&& if is_astray(aim) && !s.setup.opts.yes {
                &&& next.phase == stack::PhaseView::OfferRescue(aim)
                &&& stack::push_action(next) == Some(
                    step::ActionView::Confirm(
                        "Re-push to `"@ + aim.remote + "` and switch tracking?"@,
                    ),
                )
            } else {
                next.phase == stack::PhaseView::Fetch(aim)
            }
        }),
{
    laws::lemma_push_next_ok(s, e);
    match s.phase {
        stack::PhaseView::Remote { here, target, query } => {
            match target::remote_query_next(query, e) {
                target::RemoteQueryView::Done(Ok(remote)) => {
                    reveal(stack::on_remote);
                    lemma_auto_delete(
                        s.setup,
                        stack::AimView { here, target, remote, enable: false },
                        ui::field_text(stack::summary_text(target, remote)),
                    );
                },
                _ => {
                    reveal(stack::on_remote);
                },
            }
        },
        stack::PhaseView::OfferDelete(aim) => {
            match e {
                step::EventView::Answer(yes) => {
                    reveal(stack::on_delete_answer);
                    lemma_rescue(
                        s.setup,
                        stack::with_enable(aim, yes),
                        ui::only_if(
                            !yes,
                            ui::dim_text(
                                s.setup.console,
                                crate::plan::declined_auto_delete_text(aim.target),
                            ),
                        ),
                    );
                },
                _ => {},
            }
        },
        _ => {},
    }
}

/// What is promised of a known remote.
spec fn rescued(x: stack::SetupView, aim: stack::AimView, next: stack::PushView) -> bool {
    &&& is_astray(aim) ==> promises::shows(
        next.output,
        ui::warn_text(x.console, astray_text(aim)),
    )
    &&& next.setup == x
    &&& if is_astray(aim) && !x.opts.yes {
        next.phase == stack::PhaseView::OfferRescue(aim)
    } else {
        next.phase == stack::PhaseView::Fetch(aim)
    }
}

proof fn lemma_rescue(x: stack::SetupView, aim: stack::AimView, output: Seq<char>)
    ensures
        rescued(x, aim, stack::at_rescue(x, aim, output)),
{
    reveal(stack::at_rescue);
    reveal(stack::at_fetch);
    let next = stack::at_rescue(x, aim, output);
    if is_astray(aim) {
        let warning = ui::warn_text(x.console, astray_text(aim));
        let rest = next.output.skip((output + warning).len() as int);
        assert(next.output == output + warning + rest);
    }
}

proof fn lemma_auto_delete(x: stack::SetupView, aim: stack::AimView, output: Seq<char>)
    ensures
        ({
            let next = stack::at_auto_delete(x, aim, output);
            next.phase is OfferDelete || exists|enable: bool|
                rescued(x, #[trigger] stack::with_enable(aim, enable), next)
        }),
{
    reveal(stack::at_auto_delete);
    assert forall|enable: bool, out: Seq<char>| rescued(
        x,
        stack::with_enable(aim, enable),
        #[trigger] stack::at_rescue(x, stack::with_enable(aim, enable), out),
    ) by {
        lemma_rescue(x, stack::with_enable(aim, enable), out);
    }
}

/// The user has agreed to the re-push at the `k`-th event.
pub open spec fn agreed_at(
    x: stack::SetupView,
    events: Seq<step::EventView>,
    k: int,
    aim: stack::AimView,
) -> bool {
    &&& 0 <= k < events.len()
    &&& laws::push_after(stack::push_start(x), events.take(k)).phase
        matches stack::PhaseView::OfferRescue(a)
    &&& a.here == aim.here
    &&& a.remote == aim.remote
    &&& events[k] == step::EventView::Answer(true)
}

/// Without `--yes` nothing is fetched for, pushed to or opened on the
/// merge-target remote while the branch is astray, unless the user was asked and
/// said yes.
pub proof fn law_no_push_astray_without_consent(
    x: stack::SetupView,
    events: Seq<step::EventView>,
    aim: stack::AimView,
)
    requires
        !x.opts.yes,
        laws::aim_of(laws::push_after(stack::push_start(x), events)) == Some(aim),
        !(laws::push_after(stack::push_start(x), events).phase is OfferDelete),
        !(laws::push_after(stack::push_start(x), events).phase is OfferRescue),
        is_astray(aim),
    ensures
        exists|k: int| agreed_at(x, events, k, aim),
    decreases events.len(),
{
    let start = stack::push_start(x);
    if events.len() > 0 {
        let front = events.drop_last();
        let n = front.len() as int;
        let prev = laws::push_after(start, front);
        let e = events.last();
        assert(events.take(n) == front);
        laws::lemma_push_ok(x, front);
        laws::lemma_push_next_ok(prev, e);
        let next = stack::push_next(prev, e);
        if prev.phase is Remote || prev.phase is OfferDelete {
            law_branch_astray_is_warned_of_and_confirmed(prev, e);
        } else if prev.phase is OfferRescue {
            reveal(stack::on_rescue_answer);
            assert(agreed_at(x, events, n, aim));
        } else {
            let before = laws::aim_of(prev)->Some_0;
            law_no_push_astray_without_consent(x, front, before);
            let k = choose|k: int| agreed_at(x, front, k, before);
            assert(front.take(k) == events.take(k));
            assert(agreed_at(x, events, k, aim));
        }
    }
}

// --- the push ---------------------------------------------------------------

/// The command pending in the push phase pushes the current branch to the
/// merge-target remote and makes it the upstream. It forces, with lease, if and
/// only if the user asked for that, and never otherwise. It does not depend on
/// the parent, on an open PR or on the setting.
pub proof fn law_push_forces_only_on_request(s: stack::PushView, p: stack::PlanView)
    requires
        s.phase == stack::PhaseView::Push(p),
    ensures
        stack::push_action(s) matches Some(step::ActionView::Run(c)) && {
            let n = c.args.len() as int;
            let forced = s.setup.opts.force_with_lease;
            let verbose = s.setup.opts.verbose >= 2;
            &&& c.program == command::Program::Git
            &&& c.inherit == (s.setup.opts.verbose >= 1)
            &&& n == 4 + (if forced {
                1int
            } else {
                0
            }) + (if verbose {
                1int
            } else {
                0
            })
            &&& c.args[0] == "push"@
            &&& c.args[1] == "--set-upstream"@
            &&& forced ==> c.args[2] == "--force-with-lease"@
            &&& verbose ==> c.args[n - 3] == "--verbose"@
            &&& c.args[n - 2] == p.aim.remote
            &&& c.args[n - 1] == p.aim.here.branch
        },
{
}

/// Two runs with the same options that push the same branch to the same remote
/// run the same command, whatever else they plan.
pub proof fn law_push_depends_on_branch_and_remote_alone(
    s: stack::PushView,
    t: stack::PushView,
    p: stack::PlanView,
    q: stack::PlanView,
)
    requires
        s.phase == stack::PhaseView::Push(p),
        t.phase == stack::PhaseView::Push(q),
        s.setup.opts.force_with_lease == t.setup.opts.force_with_lease,
        s.setup.opts.verbose == t.setup.opts.verbose,
        p.aim.remote == q.aim.remote,
        p.aim.here.branch == q.aim.here.branch,
    ensures
        stack::push_action(s) == stack::push_action(t),
{
}

// --- the new PR -------------------------------------------------------------

/// The arguments of a creating command: the repository, base and head first,
/// then the title and the body where they are given, `--fill` where one of them
/// is not, and `--draft` and `--web` each if and only if it is asked for.
pub open spec fn creates(
    args: Seq<Seq<char>>,
    repo: Seq<char>,
    base: Seq<char>,
    head: Seq<char>,
    title: Option<Seq<char>>,
    body: Option<Seq<char>>,
    draft: bool,
    web: bool,
) -> bool {
    let t = if title is Some {
        2int
    } else {
        0
    };
    let b = if body is Some {
        2int
    } else {
        0
    };
    let f = if title is None || body is None {
        1int
    } else {
        0
    };
    let d = if draft {
        1int
    } else {
        0
    };
    let w = if web {
        1int
    } else {
        0
    };
    &&& args.len() == 8 + t + b + f + d + w
    &&& args[0] == "pr"@
    &&& args[1] == "create"@
    &&& args[2] == "--repo"@
    &&& args[3] == repo
    &&& args[4] == "--base"@
    &&& args[5] == base
    &&& args[6] == "--head"@
    &&& args[7] == head
    &&& title matches Some(text) ==> args[8] == "--title"@ && args[9] == text
    &&& body matches Some(text) ==> args[8 + t] == "--body"@ && args[9 + t] == text
    &&& title is None || body is None ==> args[8 + t + b] == "--fill"@
    &&& draft ==> args[8 + t + b + f] == "--draft"@
    &&& web ==> args[8 + t + b + f + d] == "--web"@
}

/// The creating command holds what it is given, each option independently of
/// the others.
pub proof fn law_creation_holds_every_option(
    repo: Seq<char>,
    base: Seq<char>,
    head: Seq<char>,
    title: Option<Seq<char>>,
    body: Option<Seq<char>>,
    draft: bool,
    web: bool,
)
    ensures
        ({
            let c = gh::create_pr_command(repo, base, head, title, body, draft, web);
            &&& c.program == command::Program::Gh
            &&& !c.inherit
            &&& creates(c.args, repo, base, head, title, body, draft, web)
        }),
{
}

/// The command pending in the creation phase opens the PR on the merge target,
/// from the branch into the planned base, with the user's options unchanged.
pub proof fn law_creation_passes_the_options_on(s: stack::PushView, p: stack::PlanView)
    requires
        s.phase == stack::PhaseView::Create(p),
    ensures
        stack::push_action(s) matches Some(step::ActionView::Run(c)) && c.program
            == command::Program::Gh && !c.inherit && creates(
            c.args,
            p.aim.target.name_with_owner,
            match p.parent {
                parent::ParentView::Default { branch } => branch,
                parent::ParentView::Pr { branch, .. } => branch,
            },
            p.aim.here.branch,
            s.setup.opts.title,
            s.setup.opts.body,
            s.setup.opts.draft,
            s.setup.opts.web,
        ),
{
    law_creation_holds_every_option(
        p.aim.target.name_with_owner,
        parent::parent_branch(p.parent),
        p.aim.here.branch,
        s.setup.opts.title,
        s.setup.opts.body,
        s.setup.opts.draft,
        s.setup.opts.web,
    );
}

} // verus!
