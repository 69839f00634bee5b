//! The base of a new PR: the closest open PR whose head is an ancestor of HEAD,
//! at any level of the stack, else the default branch.

use vstd::prelude::*;

use crate::command;
use crate::gh;
use crate::git;
use crate::laws;
use crate::parent;
use crate::promises;
use crate::promises::replies;
use crate::stack;
use crate::step;
use crate::text;

verus! {

/// The head of the PR lives on the repository `target`, and is another branch
/// than `branch`.
pub open spec fn lives_on(pr: gh::OpenPrView, target: Seq<char>, branch: Seq<char>) -> bool {
    &&& !pr.is_cross_repository
    &&& pr.head_ref_name != branch
    &&& exists|owner: Seq<char>| #[trigger]
        promises::is_owner(owner, target) && promises::same_letters(
            pr.head_repository_owner,
            owner,
        )
}

/// The head of the PR is at hand, and a proper ancestor of `head`.
pub open spec fn lies_below(h: parent::History, pr: gh::OpenPrView, head: Seq<char>) -> bool {
    &&& (h.resolves)(pr.head_ref_oid) is Some
    &&& pr.head_ref_oid != head
    &&& (h.ancestor)(pr.head_ref_oid, head)
}

/// A PR that a branch can be stacked on.
pub open spec fn can_be_base(
    h: parent::History,
    pr: gh::OpenPrView,
    target: Seq<char>,
    branch: Seq<char>,
    head: Seq<char>,
) -> bool {
    lives_on(pr, target, branch) && lies_below(h, pr, head)
}

/// The PR at `i` can be the base; no other that can is closer, and none before
/// it in the list is as close.
pub open spec fn is_closest(
    h: parent::History,
    prs: Seq<gh::OpenPrView>,
    target: Seq<char>,
    branch: Seq<char>,
    head: Seq<char>,
    i: int,
) -> bool {
    &&& 0 <= i < prs.len()
    &&& can_be_base(h, prs[i], target, branch, head)
    &&& forall|j: int|
        0 <= j < prs.len() && can_be_base(h, #[trigger] prs[j], target, branch, head) ==> {
            let d = (h.commits)(prs[i].head_ref_oid, head);
            let e = (h.commits)(prs[j].head_ref_oid, head);
            d <= e && (j < i ==> d < e)
        }
}

/// The right base of a branch: the closest PR, and the default branch where no
/// PR can be the base, if it is at hand and shares history with `head`.
pub open spec fn is_right_base(
    h: parent::History,
    prs: Seq<gh::OpenPrView>,
    target: gh::RepoInfoView,
    remote: Seq<char>,
    branch: Seq<char>,
    head: Seq<char>,
    base: Result<parent::ParentView, Seq<char>>,
) -> bool {
    let name = target.name_with_owner;
    let default = (h.resolves)("refs/remotes/"@ + remote + "/"@ + target.default_branch);
    let none = forall|j: int|
        0 <= j < prs.len() ==> !can_be_base(h, #[trigger] prs[j], name, branch, head);
    match base {
        Ok(parent::ParentView::Pr { branch: b, number, url, distance }) => exists|i: int|
            {
                &&& #[trigger] is_closest(h, prs, name, branch, head, i)
                &&& b == prs[i].head_ref_name
                &&& number == prs[i].number
                &&& url == prs[i].url
                &&& distance == (h.commits)(prs[i].head_ref_oid, head)
            },
        Ok(parent::ParentView::Default { branch: b }) => {
            &&& none
            &&& b == target.default_branch
            &&& default matches Some(oid) && (h.related)(oid, head)
        },
        Err(_) => none && (default matches Some(oid) ==> !(h.related)(oid, head)),
    }
}

/// A PR is a candidate if and only if its head lives on the merge target, in a
/// repository of the target's owner, and is not the branch itself.
pub proof fn law_candidates_live_on_the_target(
    pr: gh::OpenPrView,
    target: Seq<char>,
    branch: Seq<char>,
)
    ensures
        parent::eligible(pr, target, branch) <==> lives_on(pr, target, branch),
{
    let owner = target.take(text::before(target, '/'));
    promises::lemma_owner(target);
    promises::law_lower_case_forgets_case(pr.head_repository_owner, owner);
    if lives_on(pr, target, branch) {
        let o = choose|o: Seq<char>| #[trigger]
            promises::is_owner(o, target) && promises::same_letters(pr.head_repository_owner, o);
        promises::lemma_one_owner(o, owner, target);
    }
}

/// Whether a PR is a candidate does not depend on its own base, its number, its
/// URL or its commits: two PRs with the same head branch and owner are both
/// candidates, or neither is. So a stack can be of any height.
pub proof fn law_candidacy_ignores_the_base(
    a: gh::OpenPrView,
    b: gh::OpenPrView,
    target: Seq<char>,
    branch: Seq<char>,
)
    requires
        a.head_ref_name == b.head_ref_name,
        a.head_repository_owner == b.head_repository_owner,
        a.is_cross_repository == b.is_cross_repository,
    ensures
        parent::eligible(a, target, branch) == parent::eligible(b, target, branch),
{
}

/// What the history says of the parent is the right base.
proof fn lemma_parent_in(
    h: parent::History,
    prs: Seq<gh::OpenPrView>,
    target: gh::RepoInfoView,
    remote: Seq<char>,
    branch: Seq<char>,
    head: Seq<char>,
    scope: parent::ScopeView,
)
    requires
        scope == (parent::ScopeView {
            prs,
            target: target.name_with_owner,
            default_branch: target.default_branch,
            remote,
            branch,
            head_sha: head,
        }),
    ensures
        is_right_base(h, prs, target, remote, branch, head, parent::parent_in(h, scope)),
{
    let name = target.name_with_owner;
    let distances = parent::distances_in(h, scope);
    assert forall|j: int| 0 <= j < prs.len() implies (distances[j] is Some <==> can_be_base(
        h,
        #[trigger] prs[j],
        name,
        branch,
        head,
    )) && (distances[j] matches Some(d) ==> d == (h.commits)(prs[j].head_ref_oid, head)) by {
        law_candidates_live_on_the_target(prs[j], name, branch);
    }
    parent::law_picked_parent_is_closest(prs, distances);
    match parent::picked(prs, distances) {
        Some(p) => {
            let i = choose|i: int| #[trigger]
                parent::is_first_closest(prs, distances, prs.len() as int, i, p);
            assert(distances[i] is Some);
            assert forall|j: int|
                0 <= j < prs.len() && can_be_base(
                    h,
                    #[trigger] prs[j],
                    name,
                    branch,
                    head,
                ) implies {
                let d = (h.commits)(prs[i].head_ref_oid, head);
                let e = (h.commits)(prs[j].head_ref_oid, head);
                d <= e && (j < i ==> d < e)
            } by {
                assert(distances[j] is Some);
            }
            assert(is_closest(h, prs, name, branch, head, i));
        },
        None => {
            assert forall|j: int| 0 <= j < prs.len() implies !can_be_base(
                h,
                #[trigger] prs[j],
                name,
                branch,
                head,
            ) by {
                assert(!(distances[j] is Some));
            }
        },
    }
}

/// A search whose questions are answered by a history ends with the right base:
/// the PR of least distance among all those whose head lives on the merge
/// target, is at hand, is not HEAD and is an ancestor of HEAD, at whatever level
/// of a stack it stands.
pub proof fn law_search_ends_with_the_right_base(
    h: parent::History,
    prs: Seq<gh::OpenPrView>,
    target: gh::RepoInfoView,
    remote: Seq<char>,
    branch: Seq<char>,
    head: Seq<char>,
    events: Seq<step::EventView>,
)
    requires
        parent::all_answered(
            h,
            parent::advanced(
                parent::ScopeView {
                    prs,
                    target: target.name_with_owner,
                    default_branch: target.default_branch,
                    remote,
                    branch,
                    head_sha: head,
                },
                seq![],
            ),
            events,
        ),
    ensures
        parent::search_after(
            parent::advanced(
                parent::ScopeView {
                    prs,
                    target: target.name_with_owner,
                    default_branch: target.default_branch,
                    remote,
                    branch,
                    head_sha: head,
                },
                seq![],
            ),
            events,
        ).stage matches parent::StageView::Done(base) ==> is_right_base(
            h,
            prs,
            target,
            remote,
            branch,
            head,
            base,
        ),
{
    let scope = parent::ScopeView {
        prs,
        target: target.name_with_owner,
        default_branch: target.default_branch,
        remote,
        branch,
        head_sha: head,
    };
    parent::law_search_finds_closest_ancestor(h, scope, events);
    lemma_parent_in(h, prs, target, remote, branch, head, scope);
}

/// The base that a run plans with is the right one for its branch and its HEAD,
/// given the open PRs of the merge target and the history.
pub proof fn law_run_plans_with_the_right_base(
    h: parent::History,
    s: stack::PushView,
    aim: stack::AimView,
    json: Seq<char>,
    prs: Seq<gh::OpenPrView>,
    events: Seq<step::EventView>,
)
    requires
        s.phase == (stack::PhaseView::DecodePrs { aim, json }),
        laws::search_answered(h, stack::push_next(s, step::EventView::Prs(Ok(prs))), events),
    ensures
        laws::plan_of(
            laws::push_after(stack::push_next(s, step::EventView::Prs(Ok(prs))), events),
        ) matches Some(p) ==> p.aim == aim && is_right_base(
            h,
            prs,
            aim.target,
            aim.remote,
            aim.here.branch,
            aim.here.state.head_sha,
            Ok(p.parent),
        ),
{
    laws::law_plan_follows_prs_and_history(h, s, aim, json, prs, events);
    lemma_parent_in(
        h,
        prs,
        aim.target,
        aim.remote,
        aim.here.branch,
        aim.here.state.head_sha,
        stack::aim_scope(aim, prs),
    );
}

/// Of two parents the one with fewer commits in between is closer, and the first
/// where there are as many. The default branch is never closer than a PR.
pub proof fn law_closer_parent(a: parent::ParentView, b: parent::ParentView)
    ensures
        parent::closer_of(a, b) == a || parent::closer_of(a, b) == b,
        a is Default && b is Default ==> parent::closer_of(a, b) == a,
        b is Default ==> parent::closer_of(a, b) == a,
        a is Default ==> (b matches parent::ParentView::Pr { distance, .. } ==> distance
            < usize::MAX ==> parent::closer_of(a, b) == b),
        a matches parent::ParentView::Pr { distance: d, .. } ==> (
        b matches parent::ParentView::Pr { distance: e, .. } ==> parent::closer_of(a, b) == if e
            < d {
            b
        } else {
            a
        }),
{
}

/// A parent's name is that of its branch.
pub proof fn law_branch_of_a_parent(branch: Seq<char>, number: u64, url: Seq<char>, distance: usize)
    ensures
        parent::parent_branch(parent::ParentView::Default { branch }) == branch,
        parent::parent_branch(parent::ParentView::Pr { branch, number, url, distance }) == branch,
{
}

// --- the steps of the search ------------------------------------------------

/// The search has dealt with one more PR, at this distance or without one.
pub open spec fn is_passed(
    s: parent::SearchView,
    next: parent::SearchView,
    distance: Option<usize>,
) -> bool {
    &&& next.scope == s.scope
    &&& s.distances.push(distance).is_prefix_of(next.distances)
    &&& forall|i: int|
        s.distances.len() < i < next.distances.len() ==> (#[trigger] next.distances[i]) is None
}

proof fn lemma_passed(scope: parent::ScopeView, distances: Seq<Option<usize>>)
    ensures
        ({
            let next = parent::advanced(scope, distances);
            &&& next.scope == scope
            &&& distances.is_prefix_of(next.distances)
            &&& forall|i: int|
                distances.len() <= i < next.distances.len() ==> (#[trigger] next.distances[i])
                    is None
        }),
    decreases scope.prs.len() - distances.len(),
{
    let n = distances.len() as int;
    if n < scope.prs.len() && !parent::eligible(scope.prs[n], scope.target, scope.branch) {
        lemma_passed(scope, distances.push(None));
        let next = parent::advanced(scope, distances);
        assert(distances.push(None).is_prefix_of(next.distances));
        assert(next.distances[n] == distances.push(None)[n]);
        assert(distances.is_prefix_of(next.distances));
    }
}

/// Each question about a PR settles it or leads to the next question. A head
/// that is not at hand, is HEAD or is no ancestor rules the PR out; the number
/// of commits is its distance. Any other end of git fails the search.
pub proof fn law_questions_about_a_pr(
    s: parent::SearchView,
    oid: Seq<char>,
    reply: command::ReplyView,
)
    ensures
        ({
            let next = parent::search_next(s, step::EventView::Ran(reply));
            let code = replies::exit_code(reply);
            &&& s.stage == (parent::StageView::Resolve { oid }) ==> {
                &&& parent::search_action(s) == Some(
                    step::ActionView::Run(git::resolve_command(oid)),
                )
                &&& reply is NotRun ==> (next.stage matches parent::StageView::Done(Err(_)))
                &&& !(reply is NotRun) ==> if code == Some(0i32) && oid != s.scope.head_sha {
                    next == (parent::SearchView {
                        stage: parent::StageView::Ancestry { oid },
                        ..s
                    })
                } else {
                    is_passed(s, next, None)
                }
            }
            &&& s.stage == (parent::StageView::Ancestry { oid }) ==> {
                &&& parent::search_action(s) == Some(
                    step::ActionView::Run(git::is_ancestor_command(oid, s.scope.head_sha)),
                )
                &&& if code == Some(0i32) {
                    next == (parent::SearchView { stage: parent::StageView::Count { oid }, ..s })
                } else if code == Some(1i32) {
                    is_passed(s, next, None)
                } else {
                    next.stage matches parent::StageView::Done(Err(_))
                }
            }
            &&& s.stage == (parent::StageView::Count { oid }) ==> {
                &&& parent::search_action(s) == Some(
                    step::ActionView::Run(git::commits_between_command(oid, s.scope.head_sha)),
                )
                &&& match git::commit_count(oid, s.scope.head_sha, reply) {
                    Ok(d) => is_passed(s, next, Some(d)),
                    Err(cause) => next.stage == parent::StageView::Done(Err(cause)),
                }
            }
        }),
{
    assert forall|d: Option<usize>| is_passed(
        s,
        #[trigger] parent::advanced(s.scope, s.distances.push(d)),
        d,
    ) by {
        lemma_passed(s.scope, s.distances.push(d));
    }
}

/// Where no PR qualifies, the default branch on the remote is looked up by its
/// full name, and must share history with HEAD. Otherwise the search fails with
/// the reason.
pub proof fn law_questions_about_the_default_branch(
    s: parent::SearchView,
    oid: Seq<char>,
    reply: command::ReplyView,
)
    ensures
        ({
            let next = parent::search_next(s, step::EventView::Ran(reply));
            let code = replies::exit_code(reply);
            let name = "refs/remotes/"@ + s.scope.remote + "/"@ + s.scope.default_branch;
            &&& s.stage is DefaultRef ==> {
                &&& parent::search_action(s) == Some(
                    step::ActionView::Run(git::resolve_command(name)),
                )
                &&& if code == Some(0i32) {
                    next.stage matches parent::StageView::DefaultHistory { oid }
                        && replies::is_text_of(oid, replies::stdout_of(reply))
                } else {
                    next.stage matches parent::StageView::Done(Err(message)) && (!(reply is NotRun)
                        ==> promises::shows(message, name))
                }
            }
            &&& s.stage == (parent::StageView::DefaultHistory { oid }) ==> {
                &&& parent::search_action(s) == Some(
                    step::ActionView::Run(git::common_ancestor_command(oid, s.scope.head_sha)),
                )
                &&& if code == Some(0i32) {
                    next.stage == parent::StageView::Done(
                        Ok(parent::ParentView::Default { branch: s.scope.default_branch }),
                    )
                } else {
                    next.stage matches parent::StageView::Done(Err(message)) && (code == Some(1i32)
                        ==> promises::shows(message, s.scope.default_branch))
                }
            }
        }),
{
    replies::law_resolution_by_exit_code(reply);
    let name = "refs/remotes/"@ + s.scope.remote + "/"@ + s.scope.default_branch;
    promises::lemma_shows(
        parent::unresolved_text(s.scope),
        "could not resolve `"@,
        name,
        "` after fetching; is `"@ + s.scope.default_branch
            + "` really the default branch on the merge target?"@,
    );
    promises::lemma_shows(
        parent::no_history_text(s.scope),
        "current branch shares no history with `"@,
        s.scope.default_branch,
        "`; cannot determine a PR base"@,
    );
}

/// A search that is over stays over; an event that does not answer the question
/// fails it.
pub proof fn law_stray_events_fail_the_search(s: parent::SearchView, e: step::EventView)
    ensures
        s.stage is Done ==> parent::search_next(s, e) == s && parent::search_action(s) is None,
        !(s.stage is Done) && !(e is Ran) ==> (parent::search_next(s, e).stage
            matches parent::StageView::Done(Err(_))),
{
}

} // verus!
