//! Where a PR is based: on the closest ancestor branch with an open PR, or on
//! the default branch.
//!
//! No local state is kept. The "stack" is reconstructed each time by asking git
//! ("which of these PR head SHAs is an ancestor of HEAD?") about the open PRs
//! on the merge-target repo.

use vstd::prelude::*;
use vstd::string::*;

use crate::command;
use crate::command::Error;
use crate::gh;
use crate::gh::OpenPr;
use crate::git;
use crate::step;
use crate::step::{Action, Event};
use crate::text;

verus! {

// --- parents ----------------------------------------------------------------

/// Where a stacked PR should be based.
#[derive(Debug)]
pub enum Parent {
    /// Stack on the default branch (a "regular" PR).
    Default { branch: String },
    /// Stack on top of an existing PR.
    Pr { branch: String, number: u64, url: String, distance: usize },
}

/// The model of a [`Parent`].
#[verifier::ext_equal]
pub enum ParentView {
    Default { branch: Seq<char> },
    Pr { branch: Seq<char>, number: u64, url: Seq<char>, distance: usize },
}

impl DeepView for Parent {
    type V = ParentView;

    open spec fn deep_view(&self) -> ParentView {
        match self {
            Parent::Default { branch } => ParentView::Default { branch: branch@ },
            Parent::Pr { branch, number, url, distance } => ParentView::Pr {
                branch: branch@,
                number: *number,
                url: url@,
                distance: *distance,
            },
        }
    }
}

impl Clone for Parent {
    fn clone(&self) -> (r: Self)
        ensures
            r.deep_view() == self.deep_view(),
    {
        match self {
            Parent::Default { branch } => Parent::Default { branch: branch.clone() },
            Parent::Pr { branch, number, url, distance } => Parent::Pr {
                branch: branch.clone(),
                number: *number,
                url: url.clone(),
                distance: *distance,
            },
        }
    }
}

/// The branch that a parent stands for.
pub open spec fn parent_branch(p: ParentView) -> Seq<char> {
    match p {
        ParentView::Default { branch } => branch,
        ParentView::Pr { branch, .. } => branch,
    }
}

/// How far away a parent is; the default branch is further than any PR.
pub open spec fn parent_distance(p: ParentView) -> usize {
    match p {
        ParentView::Pr { distance, .. } => distance,
        ParentView::Default { .. } => usize::MAX,
    }
}

impl Parent {
    /// The branch that the parent stands for.
    pub fn branch_name(&self) -> (r: &str)
        ensures
            r@ == parent_branch(self.deep_view()),
    {
        match self {
            Parent::Default { branch } => branch.as_str(),
            Parent::Pr { branch, .. } => branch.as_str(),
        }
    }

    /// How far away the parent is.
    fn reach(&self) -> (r: usize)
        ensures
            r == parent_distance(self.deep_view()),
    {
        match self {
            Parent::Pr { distance, .. } => *distance,
            Parent::Default { .. } => usize::MAX,
        }
    }
}

/// The closer of two parents: the second only where it is strictly closer.
pub open spec fn closer_of(a: ParentView, b: ParentView) -> ParentView {
    if parent_distance(b) < parent_distance(a) {
        b
    } else {
        a
    }
}

/// The closer of two parents; the first where both are equally close.
pub fn closer(a: Parent, b: Parent) -> (r: Parent)
    ensures
        r.deep_view() == closer_of(a.deep_view(), b.deep_view()),
{
    if b.reach() < a.reach() {
        b
    } else {
        a
    }
}

/// The parent that an open PR makes at a given distance.
pub open spec fn pr_parent(pr: gh::OpenPrView, distance: usize) -> ParentView {
    ParentView::Pr { branch: pr.head_ref_name, number: pr.number, url: pr.url, distance }
}

/// The closest of the first `k` PRs, where `distances` says how far each is
/// from HEAD, and `None` which of them do not qualify.
pub open spec fn closest(prs: Seq<gh::OpenPrView>, distances: Seq<Option<usize>>, k: int) -> Option<
    ParentView,
>
    decreases k,
{
    if k <= 0 {
        None
    } else {
        let best = closest(prs, distances, k - 1);
        match distances[k - 1] {
            Some(d) => {
                let candidate = pr_parent(prs[k - 1], d);
                match best {
                    Some(prev) => Some(closer_of(prev, candidate)),
                    None => Some(candidate),
                }
            },
            None => best,
        }
    }
}

/// The lesser of two lengths.
pub open spec fn lesser(a: nat, b: nat) -> int {
    if a < b {
        a as int
    } else {
        b as int
    }
}

/// The closest of the PRs at the given distances.
pub open spec fn picked(prs: Seq<gh::OpenPrView>, distances: Seq<Option<usize>>) -> Option<
    ParentView,
> {
    closest(prs, distances, lesser(prs.len(), distances.len()))
}

/// Among the open PRs on the merge-target repo, find the one whose head SHA is
/// the *closest* ancestor of the current HEAD. `distances` holds, for each PR,
/// the number of commits between its head and HEAD, and `None` where it does
/// not qualify.
pub fn pick_parent(prs: &Vec<OpenPr>, distances: &Vec<Option<usize>>) -> (r: Option<Parent>)
    ensures
        r.deep_view() == picked(prs.deep_view(), distances@),
{
    let mut best: Option<Parent> = None;
    let mut i: usize = 0;
    while i < prs.len() && i < distances.len()
        invariant
            i <= prs.len(),
            i <= distances.len(),
            best.deep_view() == closest(prs.deep_view(), distances@, i as int),
        decreases prs.len() - i,
    {
        let pr = &prs[i];
        assert(prs.deep_view()[i as int] == pr.deep_view());
        match distances[i] {
            Some(distance) => {
                let candidate = Parent::Pr {
                    branch: pr.head_ref_name.clone(),
                    number: pr.number,
                    url: pr.url.clone(),
                    distance,
                };
                best = Some(
                    match best {
                        None => candidate,
                        Some(prev) => closer(prev, candidate),
                    },
                );
            },
            None => {},
        }
        i = i + 1;
    }
    best
}

// --- candidates -------------------------------------------------------------

/// The owner part of an `owner/name`.
pub open spec fn owner_of(name_with_owner: Seq<char>) -> Seq<char> {
    name_with_owner.take(text::before(name_with_owner, '/'))
}

/// A PR that can be a parent by what GitHub says of it: its head lives on the
/// merge-target repo, and it is not the PR of the branch being pushed.
pub open spec fn eligible(pr: gh::OpenPrView, target: Seq<char>, branch: Seq<char>) -> bool {
    &&& !pr.is_cross_repository
    &&& text::lowercase(pr.head_repository_owner) == text::lowercase(owner_of(target))
    &&& pr.head_ref_name != branch
}

/// Whether a PR can be a parent by what GitHub says of it. A cross-repo PR's
/// head SHA may not even exist locally; the PR of the current branch is us,
/// not our parent.
pub fn is_eligible(pr: &OpenPr, target: &str, branch: &str) -> (r: bool)
    ensures
        r == eligible(pr.deep_view(), target@, branch@),
{
    !pr.is_cross_repository && text::same_ignoring_case(
        pr.head_repository_owner.as_str(),
        text::up_to(target, '/'),
    ) && !text::same(pr.head_ref_name.as_str(), branch)
}

// --- the search -------------------------------------------------------------

/// What the search for a parent is about.
#[derive(Debug)]
pub struct Scope {
    /// The open PRs on the merge target.
    pub prs: Vec<OpenPr>,
    /// The merge target's `owner/name`.
    pub target: String,
    /// The merge target's default branch.
    pub default_branch: String,
    /// The merge-target remote.
    pub remote: String,
    /// The branch being pushed.
    pub branch: String,
    /// SHA at HEAD.
    pub head_sha: String,
}

/// The model of a [`Scope`].
#[verifier::ext_equal]
pub struct ScopeView {
    pub prs: Seq<gh::OpenPrView>,
    pub target: Seq<char>,
    pub default_branch: Seq<char>,
    pub remote: Seq<char>,
    pub branch: Seq<char>,
    pub head_sha: Seq<char>,
}

impl DeepView for Scope {
    type V = ScopeView;

    open spec fn deep_view(&self) -> ScopeView {
        ScopeView {
            prs: self.prs.deep_view(),
            target: self.target@,
            default_branch: self.default_branch@,
            remote: self.remote@,
            branch: self.branch@,
            head_sha: self.head_sha@,
        }
    }
}

/// The question that the search waits for. `oid` is the head SHA of the PR in
/// question.
#[derive(Debug)]
pub enum Stage {
    /// Does the PR's head exist locally?
    Resolve { oid: String },
    /// Is the PR's head an ancestor of HEAD?
    Ancestry { oid: String },
    /// How many commits lie between the PR's head and HEAD?
    Count { oid: String },
    /// No PR qualifies; where is the default branch?
    DefaultRef,
    /// Does HEAD share history with the default branch?
    DefaultHistory { oid: String },
    /// The search is over.
    Done(Result<Parent, Error>),
}

/// The model of a [`Stage`].
#[verifier::ext_equal]
pub enum StageView {
    Resolve { oid: Seq<char> },
    Ancestry { oid: Seq<char> },
    Count { oid: Seq<char> },
    DefaultRef,
    DefaultHistory { oid: Seq<char> },
    Done(Result<ParentView, Seq<char>>),
}

impl DeepView for Stage {
    type V = StageView;

    open spec fn deep_view(&self) -> StageView {
        match self {
            Stage::Resolve { oid } => StageView::Resolve { oid: oid@ },
            Stage::Ancestry { oid } => StageView::Ancestry { oid: oid@ },
            Stage::Count { oid } => StageView::Count { oid: oid@ },
            Stage::DefaultRef => StageView::DefaultRef,
            Stage::DefaultHistory { oid } => StageView::DefaultHistory { oid: oid@ },
            Stage::Done(r) => StageView::Done(command::seen(*r)),
        }
    }
}

/// A search for the parent of a branch. The PRs are gone through in order;
/// `distances` holds what was found of those already settled.
#[derive(Debug)]
pub struct Search {
    pub scope: Scope,
    pub distances: Vec<Option<usize>>,
    pub stage: Stage,
}

/// The model of a [`Search`].
#[verifier::ext_equal]
pub struct SearchView {
    pub scope: ScopeView,
    pub distances: Seq<Option<usize>>,
    pub stage: StageView,
}

impl DeepView for Search {
    type V = SearchView;

    open spec fn deep_view(&self) -> SearchView {
        SearchView {
            scope: self.scope.deep_view(),
            distances: self.distances@,
            stage: self.stage.deep_view(),
        }
    }
}

/// The search goes on with the next eligible PR. After the last one it ends
/// with the closest, and asks for the default branch where there is none.
pub open spec fn advanced(scope: ScopeView, distances: Seq<Option<usize>>) -> SearchView
    decreases scope.prs.len() - distances.len(),
{
    let i = distances.len() as int;
    if i >= scope.prs.len() {
        match picked(scope.prs, distances) {
            Some(parent) => SearchView { scope, distances, stage: StageView::Done(Ok(parent)) },
            None => SearchView { scope, distances, stage: StageView::DefaultRef },
        }
    } else if eligible(scope.prs[i], scope.target, scope.branch) {
        SearchView {
            scope,
            distances,
            stage: StageView::Resolve { oid: scope.prs[i].head_ref_oid },
        }
    } else {
        advanced(scope, distances.push(None))
    }
}

/// The full name of the default branch on the remote.
pub open spec fn default_ref(scope: ScopeView) -> Seq<char> {
    "refs/remotes/"@ + scope.remote + "/"@ + scope.default_branch
}

/// The text for a default branch that is not there after fetching.
pub open spec fn unresolved_text(scope: ScopeView) -> Seq<char> {
    "could not resolve `"@ + default_ref(scope) + "` after fetching; is `"@ + scope.default_branch
        + "` really the default branch on the merge target?"@
}

/// The text for a branch without common history.
pub open spec fn no_history_text(scope: ScopeView) -> Seq<char> {
    "current branch shares no history with `"@ + scope.default_branch
        + "`; cannot determine a PR base"@
}

/// What the search waits for.
pub open spec fn search_action(s: SearchView) -> Option<step::ActionView> {
    match s.stage {
        StageView::Resolve { oid } => Some(step::ActionView::Run(git::resolve_command(oid))),
        StageView::Ancestry { oid } => Some(
            step::ActionView::Run(git::is_ancestor_command(oid, s.scope.head_sha)),
        ),
        StageView::Count { oid } => Some(
            step::ActionView::Run(git::commits_between_command(oid, s.scope.head_sha)),
        ),
        StageView::DefaultRef => Some(
            step::ActionView::Run(git::resolve_command(default_ref(s.scope))),
        ),
        StageView::DefaultHistory { oid } => Some(
            step::ActionView::Run(git::common_ancestor_command(oid, s.scope.head_sha)),
        ),
        StageView::Done(_) => None,
    }
}

/// The search with another question.
pub open spec fn at_stage(s: SearchView, stage: StageView) -> SearchView {
    SearchView { stage, ..s }
}

/// The search ends with an error.
pub open spec fn search_failed(s: SearchView, message: Seq<char>) -> SearchView {
    at_stage(s, StageView::Done(Err(message)))
}

/// How the search goes on. A PR whose head does not exist locally, is HEAD
/// itself or is no ancestor of HEAD does not qualify.
pub open spec fn search_next(s: SearchView, e: step::EventView) -> SearchView {
    match (s.stage, e) {
        (StageView::Resolve { oid }, step::EventView::Ran(reply)) => match git::resolved(reply) {
            Ok(Some(_)) => if oid == s.scope.head_sha {
                advanced(s.scope, s.distances.push(None))
            } else {
                at_stage(s, StageView::Ancestry { oid })
            },
            Ok(None) => advanced(s.scope, s.distances.push(None)),
            Err(e) => search_failed(s, e),
        },
        (StageView::Ancestry { oid }, step::EventView::Ran(reply)) => match git::ancestry(reply) {
            Ok(true) => at_stage(s, StageView::Count { oid }),
            Ok(false) => advanced(s.scope, s.distances.push(None)),
            Err(e) => search_failed(s, e),
        },
        (StageView::Count { oid }, step::EventView::Ran(reply)) => match git::commit_count(
            oid,
            s.scope.head_sha,
            reply,
        ) {
            Ok(d) => advanced(s.scope, s.distances.push(Some(d))),
            Err(e) => search_failed(s, e),
        },
        (StageView::DefaultRef, step::EventView::Ran(reply)) => match git::resolved(reply) {
            Ok(Some(oid)) => at_stage(s, StageView::DefaultHistory { oid }),
            Ok(None) => search_failed(s, unresolved_text(s.scope)),
            Err(e) => search_failed(s, e),
        },
        (
            StageView::DefaultHistory { .. },
            step::EventView::Ran(reply),
        ) => match git::shared_history(reply) {
            Ok(true) => at_stage(
                s,
                StageView::Done(Ok(ParentView::Default { branch: s.scope.default_branch })),
            ),
            Ok(false) => search_failed(s, no_history_text(s.scope)),
            Err(e) => search_failed(s, e),
        },
        (StageView::Done(_), _) => s,
        _ => search_failed(s, step::unexpected_text()),
    }
}

impl Search {
    /// Begins a search.
    pub fn start(scope: Scope) -> (r: Search)
        ensures
            r.deep_view() == advanced(scope.deep_view(), seq![]),
    {
        let distances: Vec<Option<usize>> = Vec::new();
        assert(distances@ == Seq::<Option<usize>>::empty());
        Search::advance(scope, distances)
    }

    /// Goes on with the next eligible PR.
    fn advance(scope: Scope, distances: Vec<Option<usize>>) -> (r: Search)
        ensures
            r.deep_view() == advanced(scope.deep_view(), distances@),
    {
        let ghost s = scope.deep_view();
        let ghost d = distances@;
        let mut distances = distances;
        #[verifier::loop_isolation(false)]
        while distances.len() < scope.prs.len()
            invariant
                s == scope.deep_view(),
                advanced(s, distances@) == advanced(s, d),
            decreases scope.prs.len() - distances.len(),
        {
            let pr = &scope.prs[distances.len()];
            assert(s.prs[distances.len() as int] == pr.deep_view());
            if is_eligible(pr, scope.target.as_str(), scope.branch.as_str()) {
                let oid = pr.head_ref_oid.clone();
                return Search { scope, distances, stage: Stage::Resolve { oid } };
            }
            distances.push(None);
        }
        match pick_parent(&scope.prs, &distances) {
            Some(parent) => Search { scope, distances, stage: Stage::Done(Ok(parent)) },
            None => Search { scope, distances, stage: Stage::DefaultRef },
        }
    }

    /// The PR in question is settled: it is this far away, or does not qualify.
    fn settle(self, distance: Option<usize>) -> (r: Search)
        ensures
            r.deep_view() == advanced(
                self.deep_view().scope,
                self.deep_view().distances.push(distance),
            ),
    {
        let mut distances = self.distances;
        distances.push(distance);
        Search::advance(self.scope, distances)
    }

    /// The search with another question.
    fn at(self, stage: Stage) -> (r: Search)
        ensures
            r.deep_view() == at_stage(self.deep_view(), stage.deep_view()),
    {
        Search { scope: self.scope, distances: self.distances, stage }
    }

    /// The full name of the default branch on the remote.
    fn default_ref(&self) -> (r: String)
        ensures
            r@ == default_ref(self.deep_view().scope),
    {
        let mut r = "refs/remotes/".to_owned();
        r.append(self.scope.remote.as_str());
        r.append("/");
        r.append(self.scope.default_branch.as_str());
        r
    }

    /// What the search waits for; `None` once it is done.
    pub fn action(&self) -> (r: Option<Action>)
        ensures
            r.deep_view() == search_action(self.deep_view()),
    {
        let head = self.scope.head_sha.as_str();
        match &self.stage {
            Stage::Resolve { oid } => Some(Action::Run(git::resolve(oid.as_str()))),
            Stage::Ancestry { oid } => Some(Action::Run(git::is_ancestor(oid.as_str(), head))),
            Stage::Count { oid } => Some(Action::Run(git::commits_between(oid.as_str(), head))),
            Stage::DefaultRef => Some(Action::Run(git::resolve(self.default_ref().as_str()))),
            Stage::DefaultHistory { oid } => Some(
                Action::Run(git::common_ancestor(oid.as_str(), head)),
            ),
            Stage::Done(_) => None,
        }
    }

    /// Goes on with what came back.
    pub fn step(self, event: Event) -> (r: Search)
        ensures
            r.deep_view() == search_next(self.deep_view(), event.deep_view()),
    {
        let reply = match (&self.stage, event) {
            (Stage::Done(_), _) => {
                return self;
            },
            (_, Event::Ran(reply)) => reply,
            _ => {
                return self.at(Stage::Done(Err(step::unexpected())));
            },
        };
        match &self.stage {
            Stage::Resolve { oid } => match git::resolve_reply(&reply) {
                Ok(Some(_)) => {
                    // Exact match: someone else's PR points at our HEAD. Don't
                    // stack on top of ourselves; skip.
                    if text::same(oid.as_str(), self.scope.head_sha.as_str()) {
                        return self.settle(None);
                    }
                    let oid = oid.clone();
                    self.at(Stage::Ancestry { oid })
                },
                Ok(None) => self.settle(None),
                Err(e) => self.at(Stage::Done(Err(e))),
            },
            Stage::Ancestry { oid } => match git::is_ancestor_reply(&reply) {
                Ok(true) => {
                    let oid = oid.clone();
                    self.at(Stage::Count { oid })
                },
                Ok(false) => self.settle(None),
                Err(e) => self.at(Stage::Done(Err(e))),
            },
            Stage::Count { oid } => match git::commits_between_reply(
                oid.as_str(),
                self.scope.head_sha.as_str(),
                &reply,
            ) {
                Ok(d) => self.settle(Some(d)),
                Err(e) => self.at(Stage::Done(Err(e))),
            },
            Stage::DefaultRef => match git::resolve_reply(&reply) {
                Ok(Some(oid)) => self.at(Stage::DefaultHistory { oid }),
                Ok(None) => {
                    let mut message = "could not resolve `".to_owned();
                    message.append(self.default_ref().as_str());
                    message.append("` after fetching; is `");
                    message.append(self.scope.default_branch.as_str());
                    message.append("` really the default branch on the merge target?");
                    self.at(Stage::Done(Err(Error { message })))
                },
                Err(e) => self.at(Stage::Done(Err(e))),
            },
            Stage::DefaultHistory { .. } => match git::common_ancestor_reply(&reply) {
                Ok(true) => {
                    let branch = self.scope.default_branch.clone();
                    self.at(Stage::Done(Ok(Parent::Default { branch })))
                },
                Ok(false) => {
                    let mut message = "current branch shares no history with `".to_owned();
                    message.append(self.scope.default_branch.as_str());
                    message.append("`; cannot determine a PR base");
                    self.at(Stage::Done(Err(Error { message })))
                },
                Err(e) => self.at(Stage::Done(Err(e))),
            },
            Stage::Done(_) => self,
        }
    }
}

// --- laws -------------------------------------------------------------------

/// The closest of the first `k` PRs is a candidate, no candidate is closer, and
/// those before it are further away.
proof fn lemma_closest(prs: Seq<gh::OpenPrView>, distances: Seq<Option<usize>>, k: int)
    ensures
        closest(prs, distances, k) is None <==> forall|j: int|
            0 <= j < k ==> (#[trigger] distances[j]) is None,
        closest(prs, distances, k) matches Some(p) ==> exists|i: int| #[trigger]
            is_first_closest(prs, distances, k, i, p),
    decreases k,
{
    if k > 0 {
        lemma_closest(prs, distances, k - 1);
        let best = closest(prs, distances, k - 1);
        match distances[k - 1] {
            Some(d) => {
                let candidate = pr_parent(prs[k - 1], d);
                match best {
                    Some(prev) => {
                        let i = choose|i: int| #[trigger]
                            is_first_closest(prs, distances, k - 1, i, prev);
                        if d < parent_distance(prev) {
                            assert(is_first_closest(prs, distances, k, k - 1, candidate));
                        } else {
                            assert(is_first_closest(prs, distances, k, i, prev));
                        }
                        assert(!(forall|j: int| 0 <= j < k ==> (#[trigger] distances[j]) is None))
                            by {
                            assert(distances[k - 1] is Some);
                        }
                    },
                    None => {
                        assert(is_first_closest(prs, distances, k, k - 1, candidate));
                        assert(distances[k - 1] is Some);
                    },
                }
            },
            None => {
                match best {
                    Some(prev) => {
                        let i = choose|i: int| #[trigger]
                            is_first_closest(prs, distances, k - 1, i, prev);
                        assert(is_first_closest(prs, distances, k, i, prev));
                        assert(distances[i] is Some);
                    },
                    None => {},
                }
            },
        }
    }
}

/// `p` is the PR at `i`; among the first `k` PRs none is closer, and none before
/// it is as close.
pub open spec fn is_first_closest(
    prs: Seq<gh::OpenPrView>,
    distances: Seq<Option<usize>>,
    k: int,
    i: int,
    p: ParentView,
) -> bool {
    &&& 0 <= i < k
    &&& distances[i] matches Some(d) && p == pr_parent(prs[i], d)
    &&& forall|j: int|
        0 <= j < k ==> ((#[trigger] distances[j]) matches Some(e) ==> parent_distance(p) <= e && (j
            < i ==> parent_distance(p) < e))
}

/// A PR is picked exactly where one qualifies. The picked one is the closest,
/// and the first in the list of those that are equally close.
pub proof fn law_picked_parent_is_closest(
    prs: Seq<gh::OpenPrView>,
    distances: Seq<Option<usize>>,
)
    requires
        distances.len() == prs.len(),
    ensures
        picked(prs, distances) is Some <==> exists|j: int|
            0 <= j < distances.len() && (#[trigger] distances[j]) is Some,
        picked(prs, distances) matches Some(p) ==> exists|i: int| #[trigger]
            is_first_closest(prs, distances, prs.len() as int, i, p),
{
    lemma_closest(prs, distances, prs.len() as int);
}

/// What git knows of the repository's history.
pub struct History {
    /// The SHA of a revision that exists locally.
    pub resolves: spec_fn(Seq<char>) -> Option<Seq<char>>,
    /// Whether the first revision is an ancestor of the second.
    pub ancestor: spec_fn(Seq<char>, Seq<char>) -> bool,
    /// Whether the two revisions have a common ancestor.
    pub related: spec_fn(Seq<char>, Seq<char>) -> bool,
    /// The number of commits reachable from the second revision but not from
    /// the first.
    pub commits: spec_fn(Seq<char>, Seq<char>) -> usize,
}

/// The event reports what the history says in answer to the action.
pub open spec fn answers(h: History, a: step::ActionView, e: step::EventView) -> bool {
    &&& a matches step::ActionView::Run(c)
    &&& e matches step::EventView::Ran(reply)
    &&& forall|rev: Seq<char>|
        c == #[trigger] git::resolve_command(rev) ==> git::resolved(reply) == Ok::<
            Option<Seq<char>>,
            Seq<char>,
        >((h.resolves)(rev))
    &&& forall|x: Seq<char>, y: Seq<char>|
        c == #[trigger] git::is_ancestor_command(x, y) ==> git::ancestry(reply) == Ok::<
            bool,
            Seq<char>,
        >((h.ancestor)(x, y))
    &&& forall|x: Seq<char>, y: Seq<char>|
        c == #[trigger] git::common_ancestor_command(x, y) ==> git::shared_history(reply) == Ok::<
            bool,
            Seq<char>,
        >((h.related)(x, y))
    &&& forall|x: Seq<char>, y: Seq<char>|
        c == #[trigger] git::commits_between_command(x, y) ==> git::commit_count(x, y, reply)
            == Ok::<usize, Seq<char>>((h.commits)(x, y))
}

/// How far a PR is from HEAD; `None` where it cannot be a parent: where GitHub
/// rules it out, its head does not exist locally, is HEAD, or is no ancestor of
/// HEAD.
pub open spec fn distance_in(h: History, scope: ScopeView, pr: gh::OpenPrView) -> Option<usize> {
    let oid = pr.head_ref_oid;
    if eligible(pr, scope.target, scope.branch) && (h.resolves)(oid) is Some && oid
        != scope.head_sha && (h.ancestor)(oid, scope.head_sha) {
        Some((h.commits)(oid, scope.head_sha))
    } else {
        None
    }
}

/// The distances of all PRs.
pub open spec fn distances_in(h: History, scope: ScopeView) -> Seq<Option<usize>> {
    Seq::new(scope.prs.len(), |i: int| distance_in(h, scope, scope.prs[i]))
}

/// The parent by the history: the closest PR; without one, the default branch
/// where it exists and shares history with HEAD.
pub open spec fn parent_in(h: History, scope: ScopeView) -> Result<ParentView, Seq<char>> {
    match picked(scope.prs, distances_in(h, scope)) {
        Some(p) => Ok(p),
        None => match (h.resolves)(default_ref(scope)) {
            Some(oid) => if (h.related)(oid, scope.head_sha) {
                Ok(ParentView::Default { branch: scope.default_branch })
            } else {
                Err(no_history_text(scope))
            },
            None => Err(unresolved_text(scope)),
        },
    }
}

/// A search after a series of events.
pub open spec fn search_after(s: SearchView, events: Seq<step::EventView>) -> SearchView
    decreases events.len(),
{
    if events.len() == 0 {
        s
    } else {
        search_next(search_after(s, events.drop_last()), events.last())
    }
}

/// Each event answers the action that was pending when it came.
pub open spec fn all_answered(h: History, s: SearchView, events: Seq<step::EventView>) -> bool {
    forall|i: int|
        0 <= i < events.len() ==> (search_action(search_after(s, #[trigger] events.take(i)))
            matches Some(a) && answers(h, a, events[i]))
}

/// What a search has found so far is what the history says.
pub open spec fn consistent(h: History, scope: ScopeView, s: SearchView) -> bool {
    let n = s.distances.len() as int;
    let open = n < scope.prs.len() && eligible(scope.prs[n], scope.target, scope.branch);
    &&& s.scope == scope
    &&& n <= scope.prs.len()
    &&& forall|i: int|
        0 <= i < n ==> (#[trigger] s.distances[i]) == distance_in(h, scope, scope.prs[i])
    &&& match s.stage {
        StageView::Resolve { oid } => open && oid == scope.prs[n].head_ref_oid,
        StageView::Ancestry { oid } => open && oid == scope.prs[n].head_ref_oid && (h.resolves)(
            oid,
        ) is Some && oid != scope.head_sha,
        StageView::Count { oid } => open && oid == scope.prs[n].head_ref_oid && (h.resolves)(
            oid,
        ) is Some && oid != scope.head_sha && (h.ancestor)(oid, scope.head_sha),
        StageView::DefaultRef => picked(scope.prs, distances_in(h, scope)) is None,
        StageView::DefaultHistory { oid } => picked(scope.prs, distances_in(h, scope)) is None && (
        h.resolves)(default_ref(scope)) == Some(oid),
        StageView::Done(r) => r == parent_in(h, scope),
    }
}

/// Going on to the next PR keeps what was found.
pub proof fn lemma_advanced_consistent(h: History, scope: ScopeView, distances: Seq<Option<usize>>)
    requires
        distances.len() <= scope.prs.len(),
        forall|i: int|
            0 <= i < distances.len() ==> (#[trigger] distances[i]) == distance_in(
                h,
                scope,
                scope.prs[i],
            ),
    ensures
        consistent(h, scope, advanced(scope, distances)),
    decreases scope.prs.len() - distances.len(),
{
    let i = distances.len() as int;
    if i >= scope.prs.len() {
        assert(distances == distances_in(h, scope));
    } else if !eligible(scope.prs[i], scope.target, scope.branch) {
        lemma_advanced_consistent(h, scope, distances.push(None));
    }
}

/// A true answer keeps what was found.
pub proof fn lemma_search_next_consistent(
    h: History,
    scope: ScopeView,
    s: SearchView,
    e: step::EventView,
)
    requires
        consistent(h, scope, s),
        search_action(s) matches Some(a) && answers(h, a, e),
    ensures
        consistent(h, scope, search_next(s, e)),
{
    let n = s.distances.len() as int;
    match s.stage {
        StageView::Resolve { oid } => {
            if (h.resolves)(oid) is None || oid == scope.head_sha {
                lemma_advanced_consistent(h, scope, s.distances.push(None));
            }
        },
        StageView::Ancestry { oid } => {
            if !(h.ancestor)(oid, scope.head_sha) {
                lemma_advanced_consistent(h, scope, s.distances.push(None));
            }
        },
        StageView::Count { oid } => {
            lemma_advanced_consistent(
                h,
                scope,
                s.distances.push(Some((h.commits)(oid, scope.head_sha))),
            );
        },
        _ => {},
    }
}

/// The search ends with the parent by the history, if its questions are
/// answered by that history: the closest open PR whose head is a proper
/// ancestor of HEAD and lives on the merge target, and the default branch only
/// where there is none.
pub proof fn law_search_finds_closest_ancestor(
    h: History,
    scope: ScopeView,
    events: Seq<step::EventView>,
)
    requires
        all_answered(h, advanced(scope, seq![]), events),
    ensures
        search_after(advanced(scope, seq![]), events).stage matches StageView::Done(r) ==> r
            == parent_in(h, scope),
{
    lemma_search_consistent(h, scope, events);
}

/// A search whose questions are answered by a history stays true to it.
proof fn lemma_search_consistent(h: History, scope: ScopeView, events: Seq<step::EventView>)
    requires
        all_answered(h, advanced(scope, seq![]), events),
    ensures
        consistent(h, scope, search_after(advanced(scope, seq![]), events)),
    decreases events.len(),
{
    let s = advanced(scope, seq![]);
    if events.len() == 0 {
        lemma_advanced_consistent(h, scope, seq![]);
    } else {
        let front = events.drop_last();
        assert forall|i: int| 0 <= i < front.len() implies (search_action(
            search_after(s, #[trigger] front.take(i)),
        ) matches Some(a) && answers(h, a, front[i])) by {
            assert(front.take(i) == events.take(i));
        }
        lemma_search_consistent(h, scope, front);
        assert(events.take(events.len() - 1) == front);
        lemma_search_next_consistent(h, scope, search_after(s, front), events.last());
    }
}

/// A PR is in question only while there is one.
pub open spec fn search_wf(s: SearchView) -> bool {
    s.stage is Resolve || s.stage is Ancestry || s.stage is Count ==> s.distances.len()
        < s.scope.prs.len()
}

/// An upper bound of the questions still to come.
pub open spec fn questions_left(s: SearchView) -> int {
    let m = s.scope.prs.len() - s.distances.len();
    match s.stage {
        StageView::Resolve { .. } => 3 * m + 2,
        StageView::Ancestry { .. } => 3 * m + 1,
        StageView::Count { .. } => 3 * m,
        StageView::DefaultRef => 2,
        StageView::DefaultHistory { .. } => 1,
        StageView::Done(_) => 0,
    }
}

/// Going on leaves at most three questions for each PR and two for the default
/// branch.
pub proof fn lemma_advanced_bound(scope: ScopeView, distances: Seq<Option<usize>>)
    requires
        distances.len() <= scope.prs.len(),
    ensures
        search_wf(advanced(scope, distances)),
        advanced(scope, distances).scope == scope,
        advanced(scope, distances).distances.len() >= distances.len(),
        0 <= questions_left(advanced(scope, distances)) <= 3 * (scope.prs.len() - distances.len())
            + 2,
    decreases scope.prs.len() - distances.len(),
{
    let i = distances.len() as int;
    if i < scope.prs.len() && !eligible(scope.prs[i], scope.target, scope.branch) {
        lemma_advanced_bound(scope, distances.push(None));
    }
}

/// Every event brings the search nearer to its end, whatever it reports.
pub proof fn law_search_ends(s: SearchView, e: step::EventView)
    requires
        search_wf(s),
        !(s.stage is Done),
    ensures
        search_wf(search_next(s, e)),
        search_next(s, e).scope == s.scope,
        0 <= questions_left(search_next(s, e)) < questions_left(s),
{
    if s.stage is Resolve || s.stage is Ancestry || s.stage is Count {
        lemma_advanced_bound(s.scope, s.distances.push(None));
        match (s.stage, e) {
            (StageView::Count { oid }, step::EventView::Ran(reply)) => {
                match git::commit_count(oid, s.scope.head_sha, reply) {
                    Ok(d) => {
                        lemma_advanced_bound(s.scope, s.distances.push(Some(d)));
                    },
                    Err(_) => {},
                }
            },
            _ => {},
        }
    }
}

} // verus!
