//! The domain-level outcome of an operation, as the orchestrator hands
//! it to the transport layer. This is not an HTTP status: the mapping
//! to a response is the transport's business.

use vstd::prelude::*;

use crate::common::{Task, TaskView};

verus! {

/// Abstract value of an [`Outcome`].
pub ghost enum OutcomeView {
    Created(Seq<char>),
    Conflict(Seq<char>),
    NotFound(Seq<char>),
    Found(TaskView),
    Updated(Seq<char>),
    Deleted(Seq<char>),
    StoreFailure,
}

/// What an operation reports back: the terminal outcome of its state
/// machine. `StoreFailure` covers any store-level failure — transport
/// error, malformed reply, or a record missing an expected field.
#[derive(Debug, PartialEq, Eq)]
pub enum Outcome {
    Created(String),
    Conflict(String),
    NotFound(String),
    Found(Task),
    Updated(String),
    Deleted(String),
    StoreFailure,
}

impl View for Outcome {
    type V = OutcomeView;

    open spec fn view(&self) -> OutcomeView {
        match self {
            Outcome::Created(id) => OutcomeView::Created(id@),
            Outcome::Conflict(id) => OutcomeView::Conflict(id@),
            Outcome::NotFound(id) => OutcomeView::NotFound(id@),
            Outcome::Found(task) => OutcomeView::Found(task@),
            Outcome::Updated(id) => OutcomeView::Updated(id@),
            Outcome::Deleted(id) => OutcomeView::Deleted(id@),
            Outcome::StoreFailure => OutcomeView::StoreFailure,
        }
    }
}

} // verus!
