//! The wording of the plan, the warnings and offers that go with it, and the
//! footer of a stacked PR.

use vstd::prelude::*;
use vstd::string::*;

use crate::gh;
use crate::gh::{OpenPr, RepoInfo};
use crate::parent;
use crate::parent::Parent;
use crate::text;

verus! {

// --- the plan ---------------------------------------------------------------

/// The plan's headline and its note: a branch with an open PR gets its new
/// commits pushed, any other a PR on the parent.
pub open spec fn plan_words(
    p: parent::ParentView,
    existing: Option<gh::OpenPrView>,
    branch: Seq<char>,
) -> (Seq<char>, Option<Seq<char>>) {
    match existing {
        Some(pr) => (
            "push new commits to "@ + branch,
            Some("PR #"@ + text::decimal(pr.number as nat) + " already open"@),
        ),
        None => match p {
            parent::ParentView::Default { branch: base } => (
                "push "@ + branch + " and open a PR with base "@ + base,
                None,
            ),
            parent::ParentView::Pr { branch: base, number, url, .. } => (
                "push "@ + branch + " and open a stacked PR with base "@ + base,
                Some("parent: #"@ + text::decimal(number as nat) + " "@ + url),
            ),
        },
    }
}

/// Build the PLAN section's wording for the situation we resolved to: a
/// headline sentence plus an optional dim follow-on (the existing PR number,
/// or the parent a stacked PR will sit on).
pub fn plan_sentence(parent: &Parent, existing: Option<&OpenPr>, branch: &str) -> (r: (
    String,
    Option<String>,
))
    ensures
        r.deep_view() == plan_words(parent.deep_view(), existing.deep_view(), branch@),
{
    match existing {
        Some(pr) => {
            let mut headline = "push new commits to ".to_owned();
            headline.append(branch);
            let mut note = "PR #".to_owned();
            note.append(text::decimal_text(pr.number).as_str());
            note.append(" already open");
            (headline, Some(note))
        },
        None => {
            let mut headline = "push ".to_owned();
            headline.append(branch);
            match parent {
                Parent::Default { branch: base } => {
                    headline.append(" and open a PR with base ");
                    headline.append(base.as_str());
                    (headline, None)
                },
                Parent::Pr { branch: base, number, url, .. } => {
                    headline.append(" and open a stacked PR with base ");
                    headline.append(base.as_str());
                    let mut note = "parent: #".to_owned();
                    note.append(text::decimal_text(*number).as_str());
                    note.append(" ");
                    note.append(url.as_str());
                    (headline, Some(note))
                },
            }
        },
    }
}

// --- stack footer -----------------------------------------------------------

/// The footer that points a stacked PR at its parent.
pub open spec fn footer_text(number: u64, branch: Seq<char>) -> Seq<char> {
    "Stacked on #"@ + text::decimal(number as nat) + " (`"@ + branch
        + "`) by [stackymcstackface](https://github.com/cjrh/stackymcstackface) ❤️"@
}

/// The footer that points a stacked PR at its parent.
pub fn stack_footer(number: u64, branch: &str) -> (r: String)
    ensures
        r@ == footer_text(number, branch@),
{
    let mut r = "Stacked on #".to_owned();
    r.append(text::decimal_text(number).as_str());
    r.append(" (`");
    r.append(branch);
    r.append("`) by [stackymcstackface](https://github.com/cjrh/stackymcstackface) ❤️");
    r
}

/// A PR body with a footer below it, set off by a horizontal rule; the footer
/// alone where the body is blank.
pub open spec fn body_with_footer(body: Seq<char>, footer: Seq<char>) -> Seq<char> {
    let kept = text::trimmed_end(body);
    if kept.len() == 0 {
        footer
    } else {
        kept + "\n\n---\n\n"@ + footer
    }
}

/// Combine an existing PR body with a new footer. Trims trailing whitespace
/// from the body so the `---` separator lands on its own line, and skips the
/// separator entirely when the body is empty.
pub fn merge_body_with_footer(current: &str, footer: &str) -> (r: String)
    ensures
        r@ == body_with_footer(current@, footer@),
{
    let trimmed = text::trim_end(current);
    if trimmed.is_empty() {
        footer.to_owned()
    } else {
        let mut r = trimmed.to_owned();
        r.append("\n\n---\n\n");
        r.append(footer);
        r
    }
}

// --- the repo setting -------------------------------------------------------

/// What to do about a merge target that lacks `delete_branch_on_merge`.
#[derive(Clone, Copy, Debug, PartialEq, Eq, Structural)]
pub enum AutoDelete {
    /// Nothing: the setting is on.
    Keep,
    /// Warn: it is off, and the user may not change it.
    Warn,
    /// Warn, and switch it on without asking.
    Enable,
    /// Warn, and offer to switch it on.
    Offer,
}

/// While the setting is off the user is warned. With admin rights it is offered
/// as well, or enabled where prompts are skipped.
pub open spec fn auto_delete(target: gh::RepoInfoView, assume_yes: bool) -> AutoDelete {
    if target.delete_branch_on_merge {
        AutoDelete::Keep
    } else if !target.viewer_can_administer {
        AutoDelete::Warn
    } else if assume_yes {
        AutoDelete::Enable
    } else {
        AutoDelete::Offer
    }
}

/// Decide what to do about a merge target that lacks `delete_branch_on_merge`.
///
/// The setting matters because GitHub only retargets dependent stack PRs after
/// the parent merges when the parent's head branch is deleted through the merge
/// flow -- which only happens with this on. So the stack breaks at the first
/// merge without it. Checked every run rather than once because the setting can
/// change behind our back.
pub fn plan_auto_delete(target: &RepoInfo, assume_yes: bool) -> (r: AutoDelete)
    ensures
        r == auto_delete(target.deep_view(), assume_yes),
{
    if target.delete_branch_on_merge {
        return AutoDelete::Keep;
    }
    if !target.viewer_is_admin() {
        return AutoDelete::Warn;
    }
    if assume_yes {
        return AutoDelete::Enable;
    }
    AutoDelete::Offer
}

/// The command that a user can run to switch the setting on.
pub open spec fn enable_hint(repo: Seq<char>) -> Seq<char> {
    "gh api -X PATCH /repos/"@ + repo + " -F delete_branch_on_merge=true"@
}

/// The warning for a user who cannot change the setting.
pub open spec fn no_auto_delete_text(target: gh::RepoInfoView) -> Seq<char> {
    "`delete_branch_on_merge` is OFF on "@ + target.name_with_owner
        + " and you lack admin rights to change it. After a stack PR merges, GitHub will not delete the head branch and the next PR will not auto-retarget to `"@
        + target.default_branch + "`. Ask an admin to enable it:\n"@ + enable_hint(
        target.name_with_owner,
    )
}

/// The warning for a user who can change the setting.
pub open spec fn offer_auto_delete_text(target: gh::RepoInfoView) -> Seq<char> {
    "`delete_branch_on_merge` is OFF on "@ + target.name_with_owner
        + ". After a stack PR merges, GitHub will not delete the head branch and the next PR will not auto-retarget to `"@
        + target.default_branch + "`."@
}

/// The note for a user who declines the offer.
pub open spec fn declined_auto_delete_text(target: gh::RepoInfoView) -> Seq<char> {
    "leaving it off — enable later with: "@ + enable_hint(target.name_with_owner)
}

/// The command that a user can run to switch the setting on.
fn hint(repo: &str) -> (r: String)
    ensures
        r@ == enable_hint(repo@),
{
    let mut r = "gh api -X PATCH /repos/".to_owned();
    r.append(repo);
    r.append(" -F delete_branch_on_merge=true");
    r
}

/// Warn that `delete_branch_on_merge` is off and the viewer cannot change it,
/// handing over the command for someone who can.
pub fn warn_no_auto_delete(target: &RepoInfo) -> (r: String)
    ensures
        r@ == no_auto_delete_text(target.deep_view()),
{
    let mut r = "`delete_branch_on_merge` is OFF on ".to_owned();
    r.append(target.name_with_owner.as_str());
    r.append(
        " and you lack admin rights to change it. After a stack PR merges, GitHub will not delete the head branch and the next PR will not auto-retarget to `",
    );
    r.append(target.default_branch.as_str());
    r.append("`. Ask an admin to enable it:\n");
    r.append(hint(target.name_with_owner.as_str()).as_str());
    r
}

/// Warn a user who can switch `delete_branch_on_merge` on that it is off.
pub fn offer_auto_delete(target: &RepoInfo) -> (r: String)
    ensures
        r@ == offer_auto_delete_text(target.deep_view()),
{
    let mut r = "`delete_branch_on_merge` is OFF on ".to_owned();
    r.append(target.name_with_owner.as_str());
    r.append(
        ". After a stack PR merges, GitHub will not delete the head branch and the next PR will not auto-retarget to `",
    );
    r.append(target.default_branch.as_str());
    r.append("`.");
    r
}

/// The note for a user who declines the offer.
pub fn declined_auto_delete(target: &RepoInfo) -> (r: String)
    ensures
        r@ == declined_auto_delete_text(target.deep_view()),
{
    let mut r = "leaving it off — enable later with: ".to_owned();
    r.append(hint(target.name_with_owner.as_str()).as_str());
    r
}

// --- wrong-remote rescue ----------------------------------------------------

/// The branch tracks another remote than the merge target's.
pub open spec fn wrong_remote(upstream: Option<(Seq<char>, Seq<char>)>, remote: Seq<char>) -> bool {
    upstream matches Some((actual, _)) && actual != remote
}

/// The warning for a branch that tracks another remote.
pub open spec fn wrong_remote_text(actual: Seq<char>, remote: Seq<char>) -> Seq<char> {
    "current branch tracks `"@ + actual + "/...` but the merge target is `"@ + remote
        + "`.\nStacked PRs only work when the branch lives on the merge-target remote."@
}

/// If the current branch tracks a different remote than the merge target,
/// the user has likely pushed to (e.g.) `origin` of a fork. This is the warning
/// for that case, and `None` where there is nothing to rescue.
pub fn rescue_wrong_remote(upstream: &Option<(String, String)>, remote: &str) -> (r: Option<String>)
    ensures
        r is Some <==> wrong_remote(upstream.deep_view(), remote@),
        r matches Some(warning) ==> (upstream.deep_view() matches Some((actual, _)) && warning@
            == wrong_remote_text(actual, remote@)),
{
    match upstream {
        None => None,
        Some((actual, _)) => {
            if text::same(actual.as_str(), remote) {
                None
            } else {
                let mut r = "current branch tracks `".to_owned();
                r.append(actual.as_str());
                r.append("/...` but the merge target is `");
                r.append(remote);
                r.append(
                    "`.\nStacked PRs only work when the branch lives on the merge-target remote.",
                );
                Some(r)
            }
        },
    }
}

// --- laws -------------------------------------------------------------------

/// Whatever stands in the body, the merged text ends with the footer.
pub proof fn law_merged_body_ends_with_footer(body: Seq<char>, footer: Seq<char>)
    ensures
        text::ends(body_with_footer(body, footer), footer),
{
    let merged = body_with_footer(body, footer);
    assert(merged.skip(merged.len() - footer.len()) == footer);
}

/// The body is kept up to its trailing white space, and stands before the
/// footer.
pub proof fn law_merged_body_keeps_body(body: Seq<char>, footer: Seq<char>)
    ensures
        text::begins(body_with_footer(body, footer), text::trimmed_end(body)),
        text::begins(body, text::trimmed_end(body)),
        forall|i: int|
            text::trimmed_end(body).len() <= i < body.len() ==> text::white_space(
                #[trigger] body[i],
            ),
{
    let kept = text::trimmed_end(body);
    let merged = body_with_footer(body, footer);
    lemma_trimmed_end(body);
    assert(merged.take(kept.len() as int) == kept);
}

/// What is trimmed from the end is white space.
proof fn lemma_trimmed_end(s: Seq<char>)
    ensures
        text::begins(s, text::trimmed_end(s)),
        forall|i: int|
            text::trimmed_end(s).len() <= i < s.len() ==> text::white_space(#[trigger] s[i]),
        text::trimmed_end(s).len() > 0 ==> !text::white_space(text::trimmed_end(s).last()),
    decreases s.len(),
{
    if s.len() > 0 && text::white_space(s.last()) {
        let front = s.drop_last();
        lemma_trimmed_end(front);
        let kept = text::trimmed_end(s);
        assert(s.take(kept.len() as int) == front.take(kept.len() as int));
        assert forall|i: int| kept.len() <= i < s.len() implies text::white_space(#[trigger] s[i])
            by {
            if i < front.len() {
                assert(front[i] == s[i]);
            }
        }
    } else {
        assert(s.take(s.len() as int) == s);
    }
}

/// Trailing white space of the body makes no difference.
pub proof fn law_merge_ignores_trailing_white_space(body: Seq<char>, footer: Seq<char>)
    ensures
        body_with_footer(text::trimmed_end(body), footer) == body_with_footer(body, footer),
{
    lemma_trimmed_end(body);
}

/// With prompts skipped nothing is offered.
pub proof fn law_no_offer_without_prompts(target: gh::RepoInfoView)
    ensures
        auto_delete(target, true) != AutoDelete::Offer,
{
}

} // verus!
