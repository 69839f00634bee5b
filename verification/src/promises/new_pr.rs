//! What becomes of the new PR: its URL, and the footer that names its parent.

use vstd::prelude::*;

use crate::command;
use crate::gh;
use crate::parent;
use crate::plan;
use crate::promises;
use crate::promises::replies;
use crate::promises::words;
use crate::stack;
use crate::step;
use crate::text;
use crate::ui;

verus! {

// --- the plan in words ------------------------------------------------------

/// The plan says what it is going to do. A branch with an open PR gets its
/// commits pushed, and the PR's number is noted. Any other is pushed and gets a
/// PR whose base is named; a stacked one has its parent's number and URL noted.
pub proof fn law_plan_says_what_it_does(
    base: Seq<char>,
    pr: gh::OpenPrView,
    branch: Seq<char>,
    any: parent::ParentView,
)
    ensures
        ({
            let known = plan::plan_words(any, Some(pr), branch);
            &&& known.0 == "push new commits to "@ + branch
            &&& known.1 == Some(
                "PR #"@ + text::decimal(pr.number as nat) + " already open"@,
            )
        }),
        ({
            let plain = plan::plan_words(
                parent::ParentView::Default { branch: base },
                None,
                branch,
            );
            &&& plain.0 == "push "@ + branch + " and open a PR with base "@ + base
            &&& plain.1 is None
        }),
        any matches parent::ParentView::Pr { branch: base, number, url, .. } ==> {
            let stacked = plan::plan_words(any, None, branch);
            &&& stacked.0 == "push "@ + branch + " and open a stacked PR with base "@ + base
            &&& stacked.1 == Some("parent: #"@ + text::decimal(number as nat) + " "@ + url)
        },
{
}

/// The plan is shown before anything is carried out.
pub proof fn law_plan_is_shown_first(x: stack::SetupView, p: stack::PlanView)
    ensures
        ({
            let next = stack::at_plan(x, p);
            let words = plan::plan_words(p.parent, p.existing, p.aim.here.branch);
            &&& next.phase == stack::PhaseView::Enable(p) || next.phase
                == stack::PhaseView::Push(p)
            &&& next.phase == stack::PhaseView::Enable(p) <==> p.aim.enable
            &&& ("  "@ + words.0 + "\n"@).is_prefix_of(next.output)
            &&& words.1 matches Some(note) ==> promises::shows(next.output, note)
            &&& promises::shows(next.output, "EXECUTE"@)
        }),
{
    reveal(stack::at_plan);
    reveal(stack::at_push);
    let next = stack::at_plan(x, p);
    let words = plan::plan_words(p.parent, p.existing, p.aim.here.branch);
    let head = ui::field_text(words.0);
    let shown = ui::plan_text(x.console, words.0, words.1);
    let section = ui::section_text(x.console.palette, "EXECUTE"@);
    let rest = next.output.skip((shown + section).len() as int);
    assert(next.output == shown + section + rest);
    let bold = ui::bold_of(x.console.palette);
    promises::lemma_shows(
        section,
        "\n"@ + ui::style_codes(bold),
        "EXECUTE"@,
        ui::reset_codes(bold) + "\n"@,
    );
    promises::lemma_shows_more(next.output, shown, section, rest, "EXECUTE"@);
    match words.1 {
        Some(note) => {
            let dim = ui::dim_of(x.console.palette);
            promises::lemma_shows(
                shown,
                head + "    "@ + ui::style_codes(dim),
                note,
                ui::reset_codes(dim) + "\n"@,
            );
            promises::lemma_shows_more(next.output, seq![], shown, section + rest, note);
        },
        None => {},
    }
}

// --- after the creation -----------------------------------------------------

/// The run ends well and shows what `gh` printed; where that is nothing, that
/// the PR was opened in the browser.
pub open spec fn ends_with(next: stack::PushView, created: Seq<char>) -> bool {
    &&& next.phase == stack::PhaseView::Finished(Ok(()))
    &&& created.len() == 0 ==> promises::shows(next.output, "opened in your browser"@)
    &&& created.len() > 0 ==> promises::shows(next.output, created)
}

proof fn lemma_bare(s: Seq<char>)
    requires
        words::is_bare(s),
    ensures
        text::trimmed(s) == s,
{
    let none = Seq::<char>::empty();
    assert(none + s + none == s);
    words::law_trim_cuts_blanks_at_the_ends(none, s, none);
}

proof fn lemma_at_end(x: stack::SetupView, created: Seq<char>, output: Seq<char>)
    requires
        words::is_bare(created),
    ensures
        ends_with(stack::at_end(x, created, output), created),
        output.is_prefix_of(stack::at_end(x, created, output).output),
{
    reveal(stack::at_end);
    lemma_bare(created);
    let next = stack::at_end(x, created, output);
    if created.len() == 0 {
        let style = ui::dim_of(x.console.palette);
        promises::lemma_shows(
            next.output,
            output + "  "@ + ui::style_codes(style),
            "opened in your browser"@,
            ui::reset_codes(style) + "\n"@,
        );
    } else {
        let style = ui::bold_of(x.console.palette);
        promises::lemma_shows(
            next.output,
            output + "\n  "@ + ui::style_codes(style),
            created,
            ui::reset_codes(style) + "\n"@,
        );
    }
}

/// A created PR is noted in its description as stacked if and only if it is
/// stacked, was not created in the browser, and `gh` printed its URL. Otherwise
/// the run ends with the URL. A failed creation ends the run with its cause.
pub proof fn law_stacked_prs_get_a_footer(
    s: stack::PushView,
    p: stack::PlanView,
    reply: command::ReplyView,
)
    requires
        s.phase == stack::PhaseView::Create(p),
    ensures
        ({
            let next = stack::push_next(s, step::EventView::Ran(reply));
            if promises::ended_well(reply) {
                exists|created: Seq<char>|
                    {
                        &&& #[trigger] replies::is_text_of(created, replies::stdout_of(reply))
                        &&& ui::done_text(
                            s.setup.console,
                            "opened pull request"@,
                        ).is_prefix_of(next.output)
                        &&& if p.parent is Pr && !s.setup.opts.web && "https://"@.is_prefix_of(
                            created,
                        ) {
                            next.phase == (stack::PhaseView::Body { plan: p, created })
                        } else {
                            ends_with(next, created)
                        }
                    }
            } else {
                next.phase matches stack::PhaseView::Finished(Err(message)) && (
                "`gh pr create` failed"@ + ": "@).is_prefix_of(message)
            }
        }),
{
    reveal(stack::on_created);
    let c = stack::plan_create(s.setup, p);
    replies::law_captured_commands(c, reply);
    match command::captured(c, reply) {
        Ok(created) => {
            lemma_bare(created);
            words::law_parts_of_a_text(created, "https://"@);
            lemma_at_end(
                s.setup,
                created,
                ui::done_text(s.setup.console, "opened pull request"@),
            );
            assert(replies::is_text_of(created, replies::stdout_of(reply)));
        },
        Err(_) => {},
    }
}

/// The footer of a PR that is stacked on this one.
pub open spec fn footer_of(p: parent::ParentView) -> Seq<char> {
    match p {
        parent::ParentView::Pr { branch, number, .. } => "Stacked on #"@ + text::decimal(
            number as nat,
        ) + " (`"@ + branch
            + "`) by [stackymcstackface](https://github.com/cjrh/stackymcstackface) ❤️"@,
        parent::ParentView::Default { .. } => seq![],
    }
}

/// A description with a footer: what it said stays, without trailing white
/// space, and the footer follows behind a rule. Where it said nothing, the
/// footer stands alone.
pub open spec fn has_footer(body: Seq<char>, said: Seq<char>, footer: Seq<char>) -> bool {
    exists|kept: Seq<char>, blanks: Seq<char>|
        {
            &&& said == #[trigger] (kept + blanks)
            &&& words::all_blank(blanks)
            &&& kept.len() > 0 ==> !words::blank(kept.last())
            &&& body == if kept.len() == 0 {
                footer
            } else {
                kept + "\n\n---\n\n"@ + footer
            }
        }
}

/// Merging gives a description its footer.
pub proof fn lemma_has_footer(said: Seq<char>, footer: Seq<char>)
    ensures
        has_footer(plan::body_with_footer(said, footer), said, footer),
{
    let (kept, blanks) = words::lemma_end_parts(said);
    assert(said == kept + blanks);
}

/// The description is read by the PR's URL, and then replaced by the same text
/// with a footer that names the parent. Where it cannot be read, the run ends
/// well all the same, with the URL.
pub proof fn law_footer_is_added_to_the_description(
    s: stack::PushView,
    p: stack::PlanView,
    created: Seq<char>,
    reply: command::ReplyView,
)
    requires
        s.phase == (stack::PhaseView::Body { plan: p, created }),
        words::is_bare(created),
        p.parent is Pr,
    ensures
        stack::push_action(s) matches Some(step::ActionView::Run(c)) && replies::runs_gh(
            c,
            seq!["pr"@, "view"@, created, "--json"@, "body"@, "--jq"@, ".body"@],
        ),
        ({
            let next = stack::push_next(s, step::EventView::Ran(reply));
            if promises::ended_well(reply) {
                &&& next.phase matches stack::PhaseView::SetBody {
                    plan: q,
                    created: url,
                    body,
                }
                &&& q == p
                &&& url == created
                &&& exists|said: Seq<char>|
                    #[trigger] replies::is_text_of(said, replies::stdout_of(reply)) && has_footer(
                        body,
                        said,
                        footer_of(p.parent),
                    )
            } else {
                &&& ends_with(next, created)
                &&& exists|cause: Seq<char>|
                    #[trigger] ui::warn_text(
                        s.setup.console,
                        "could not update PR description"@ + ": "@ + cause,
                    ).is_prefix_of(next.output)
            }
        }),
{
    reveal(stack::on_body);
    lemma_bare(created);
    let c = gh::pr_body_command(created);
    replies::law_captured_commands(c, reply);
    match command::captured(c, reply) {
        Ok(said) => {
            lemma_has_footer(said, footer_of(p.parent));
        },
        Err(e) => {
            let warning = ui::warn_text(
                s.setup.console,
                "could not update PR description"@ + ": "@ + e,
            );
            assert(warning == stack::no_footer_text(s.setup, e));
            lemma_at_end(s.setup, created, warning);
            let next = stack::push_next(s, step::EventView::Ran(reply));
            assert(warning.is_prefix_of(next.output));
        },
    }
}

/// The new description is set by the PR's URL. Whatever comes of it, the run
/// ends well, with the URL; where it worked, the parent's number is named.
pub proof fn law_run_ends_with_the_url(
    s: stack::PushView,
    p: stack::PlanView,
    created: Seq<char>,
    body: Seq<char>,
    reply: command::ReplyView,
)
    requires
        s.phase == (stack::PhaseView::SetBody { plan: p, created, body }),
        words::is_bare(created),
    ensures
        stack::push_action(s) matches Some(step::ActionView::Run(c)) && replies::runs_gh(
            c,
            seq!["pr"@, "edit"@, created, "--body"@, body],
        ),
        ({
            let next = stack::push_next(s, step::EventView::Ran(reply));
            &&& ends_with(next, created)
            &&& promises::ended_well(reply) ==> (p.parent matches parent::ParentView::Pr {
                number,
                ..
            } ==> ui::done_text(
                s.setup.console,
                "noted parent #"@ + text::decimal(number as nat) + " in description"@,
            ).is_prefix_of(next.output))
            &&& !promises::ended_well(reply) ==> exists|cause: Seq<char>|
                #[trigger] ui::warn_text(
                    s.setup.console,
                    "could not update PR description"@ + ": "@ + cause,
                ).is_prefix_of(next.output)
        }),
{
    reveal(stack::on_body_set);
    lemma_bare(created);
    let c = gh::set_pr_body_command(created, body);
    replies::law_captured_commands(c, reply);
    match command::captured(c, reply) {
        Ok(_) => {
            lemma_at_end(
                s.setup,
                created,
                ui::done_text(
                    s.setup.console,
                    "noted parent #"@ + text::decimal(stack::stacked_on(p).0 as nat)
                        + " in description"@,
                ),
            );
        },
        Err(e) => {
            let warning = ui::warn_text(
                s.setup.console,
                "could not update PR description"@ + ": "@ + e,
            );
            assert(warning == stack::no_footer_text(s.setup, e));
            lemma_at_end(s.setup, created, warning);
            let next = stack::push_next(s, step::EventView::Ran(reply));
            assert(warning.is_prefix_of(next.output));
        },
    }
}

} // verus!
