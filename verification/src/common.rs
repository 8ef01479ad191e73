//! The task record and the transient values that travel with it.

use vstd::prelude::*;

verus! {

/// Abstract value of an optional string: the character sequence, if the
/// string is there.
pub open spec fn opt_str_view(v: Option<String>) -> Option<Seq<char>> {
    match v {
        Some(s) => Some(s@),
        None => None,
    }
}

/// Abstract value of a [`Task`]: each field as a character sequence.
pub ghost struct TaskView {
    pub id: Seq<char>,
    pub title: Seq<char>,
    pub author: Seq<char>,
    pub description: Seq<char>,
}

/// A task record: a caller-assigned id and three named string fields.
#[derive(Clone, Debug, PartialEq, Eq)]
pub struct Task {
    pub id: String,
    pub title: String,
    pub author: String,
    pub description: String,
}

impl View for Task {
    type V = TaskView;

    open spec fn view(&self) -> TaskView {
        TaskView {
            id: self.id@,
            title: self.title@,
            author: self.author@,
            description: self.description@,
        }
    }
}

/// Abstract value of an [`UpdateTask`] request.
pub ghost struct UpdateTaskView {
    pub title: Option<Seq<char>>,
    pub author: Option<Seq<char>>,
    pub description: Option<Seq<char>>,
}

/// A partial-update request: each field may be supplied or left out.
/// A field that is left out, or supplied as the empty string, asks for
/// no change to that field.
#[derive(Clone, Debug, PartialEq, Eq)]
pub struct UpdateTask {
    pub title: Option<String>,
    pub author: Option<String>,
    pub description: Option<String>,
}

impl View for UpdateTask {
    type V = UpdateTaskView;

    open spec fn view(&self) -> UpdateTaskView {
        UpdateTaskView {
            title: opt_str_view(self.title),
            author: opt_str_view(self.author),
            description: opt_str_view(self.description),
        }
    }
}

/// A human-readable message body, as the transport layer renders one.
#[derive(Clone, Debug, PartialEq, Eq)]
pub struct Message {
    pub message: String,
}

} // verus!
