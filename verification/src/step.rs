//! What the workflow asks its caller to do next, and what the caller reports.
//!
//! The workflow is a series of decisions between outside actions. A caller
//! performs the pending [`Action`] and hands back the [`Event`] that answers it.

use vstd::prelude::*;

use crate::command;
use crate::command::{Command, Error, Reply};
use crate::gh;
use crate::gh::{OpenPr, RepoInfo};

verus! {

/// Something to do outside the library.
#[derive(Debug)]
pub enum Action {
    /// Run a program; answered by [`Event::Ran`].
    Run(Command),
    /// See which of `names` exist in the directory `dir`; answered by
    /// [`Event::Present`].
    Look { dir: String, names: Vec<String> },
    /// Decode the JSON of `gh repo view`; answered by [`Event::Repo`].
    DecodeRepo(String),
    /// Decode the JSON of `gh pr list`; answered by [`Event::Prs`].
    DecodePrs(String),
    /// Ask the user a yes/no question; answered by [`Event::Answer`].
    Confirm(String),
}

/// The model of an [`Action`].
#[verifier::ext_equal]
pub enum ActionView {
    Run(command::CommandView),
    Look { dir: Seq<char>, names: Seq<Seq<char>> },
    DecodeRepo(Seq<char>),
    DecodePrs(Seq<char>),
    Confirm(Seq<char>),
}

impl DeepView for Action {
    type V = ActionView;

    open spec fn deep_view(&self) -> ActionView {
        match self {
            Action::Run(c) => ActionView::Run(c.deep_view()),
            Action::Look { dir, names } => ActionView::Look {
                dir: dir@,
                names: names.deep_view(),
            },
            Action::DecodeRepo(json) => ActionView::DecodeRepo(json@),
            Action::DecodePrs(json) => ActionView::DecodePrs(json@),
            Action::Confirm(prompt) => ActionView::Confirm(prompt@),
        }
    }
}

/// What came of an [`Action`].
#[derive(Debug)]
pub enum Event {
    /// A program was run, or could not be.
    Ran(Reply),
    /// The names, among those looked for, that exist.
    Present(Vec<String>),
    /// The decoded repository, or why the JSON is not one.
    Repo(Result<RepoInfo, String>),
    /// The decoded list of PRs, or why the JSON is not one.
    Prs(Result<Vec<OpenPr>, String>),
    /// The user's answer; no answer counts as no.
    Answer(bool),
}

/// The model of an [`Event`].
#[verifier::ext_equal]
pub enum EventView {
    Ran(command::ReplyView),
    Present(Seq<Seq<char>>),
    Repo(Result<gh::RepoInfoView, Seq<char>>),
    Prs(Result<Seq<gh::OpenPrView>, Seq<char>>),
    Answer(bool),
}

impl DeepView for Event {
    type V = EventView;

    open spec fn deep_view(&self) -> EventView {
        match self {
            Event::Ran(r) => EventView::Ran(r.deep_view()),
            Event::Present(names) => EventView::Present(names.deep_view()),
            Event::Repo(Ok(info)) => EventView::Repo(Ok(info.deep_view())),
            Event::Repo(Err(cause)) => EventView::Repo(Err(cause@)),
            Event::Prs(Ok(prs)) => EventView::Prs(Ok(prs.deep_view())),
            Event::Prs(Err(cause)) => EventView::Prs(Err(cause@)),
            Event::Answer(yes) => EventView::Answer(*yes),
        }
    }
}

/// The text for an event that does not answer the pending action.
pub open spec fn unexpected_text() -> Seq<char> {
    "internal error: the event does not answer the pending action"@
}

/// The error for an event that does not answer the pending action.
pub fn unexpected() -> (r: Error)
    ensures
        r.message@ == unexpected_text(),
{
    Error::new("internal error: the event does not answer the pending action")
}

} // verus!
