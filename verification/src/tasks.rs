//! The resource orchestrator: the four operation state machines over
//! the field store. Each operation has the shape guard → branch → act
//! → outcome: an explicit three-way match over the guard's outcome
//! decides whether to stop with a terminal outcome or to go on to the
//! store action, and the reply to that action decides the rest. No
//! error value is ever used to signal a non-error continuation.
//!
//! The branch decisions and reply classifications are plain functions
//! from values to values, so a caller that drives a remote store can
//! make every decision through them; the operations here compose the
//! same functions with the in-memory store.

use vstd::prelude::*;

use crate::common::{Task, TaskView, UpdateTask, UpdateTaskView};
use crate::guard::{check, Existence};
use crate::merge::{merge_update, spec_merge};
use crate::outcome::{Outcome, OutcomeView};
use crate::store::{spec_write, FieldStore, Fields, FieldsView};

verus! {

/// The contents of a store: each held key's fields.
pub type StoreView = Map<Seq<char>, FieldsView>;

/// The write-set that creation stores: all three fields of the task.
pub open spec fn full_fields(t: TaskView) -> FieldsView {
    FieldsView { title: Some(t.title), author: Some(t.author), description: Some(t.description) }
}

/// What creating a task returns and leaves in the store: a conflict
/// on a present id, with nothing changed; otherwise the record is
/// written whole and the creation reported.
pub open spec fn spec_create(m: StoreView, t: TaskView) -> (OutcomeView, StoreView) {
    if m.contains_key(t.id) {
        (OutcomeView::Conflict(t.id), m)
    } else {
        (OutcomeView::Created(t.id), m.insert(t.id, full_fields(t)))
    }
}

/// What reading an id returns: not found on an absent id; the whole
/// record where all three fields are held; a store failure where the
/// record is missing a field — no partial reconstruction is
/// attempted.
pub open spec fn spec_read(m: StoreView, id: Seq<char>) -> OutcomeView {
    if !m.contains_key(id) {
        OutcomeView::NotFound(id)
    } else {
        match (m[id].title, m[id].author, m[id].description) {
            (Some(t), Some(a), Some(d)) => OutcomeView::Found(
                TaskView { id, title: t, author: a, description: d },
            ),
            _ => OutcomeView::StoreFailure,
        }
    }
}

/// What updating an id returns and leaves in the store: not found on
/// an absent id, with nothing changed; otherwise the merged write-set
/// is written over the record — possibly a no-op — and the update
/// reported.
pub open spec fn spec_update(m: StoreView, id: Seq<char>, u: UpdateTaskView) -> (
    OutcomeView,
    StoreView,
) {
    if !m.contains_key(id) {
        (OutcomeView::NotFound(id), m)
    } else {
        (OutcomeView::Updated(id), spec_write(m, id, spec_merge(u)))
    }
}

/// What deleting an id returns and leaves in the store: the record is
/// removed and the deletion reported, or the absence reported with
/// nothing changed.
pub open spec fn spec_delete(m: StoreView, id: Seq<char>) -> (OutcomeView, StoreView) {
    if m.contains_key(id) {
        (OutcomeView::Deleted(id), m.remove(id))
    } else {
        (OutcomeView::NotFound(id), m)
    }
}

/// The branch step of a write-bearing operation: either stop here with
/// a terminal outcome, or go on and write this field-set.
pub enum Plan {
    Finish(Outcome),
    Write(Fields),
}

/// The branch step of the read operation: either stop here with a
/// terminal outcome, or go on and fetch the record's fields.
pub enum ReadPlan {
    Finish(Outcome),
    Fetch,
}

/// Creation's reading of the guard: a present id is a conflict, a
/// guard failure is a store failure, and only an absent id goes on to
/// the write of the whole record.
pub fn create_plan(guard: &Existence, task: &Task) -> (r: Plan)
    ensures
        *guard == Existence::Present ==> (r matches Plan::Finish(o) && o@
            == OutcomeView::Conflict(task.id@)),
        *guard == Existence::StoreError ==> (r matches Plan::Finish(o) && o@
            == OutcomeView::StoreFailure),
        *guard == Existence::Absent ==> (r matches Plan::Write(w) && w@ == full_fields(task@)),
{
    match guard {
        Existence::Present => Plan::Finish(Outcome::Conflict(task.id.clone())),
        Existence::StoreError => Plan::Finish(Outcome::StoreFailure),
        Existence::Absent => Plan::Write(
            Fields {
                title: Some(task.title.clone()),
                author: Some(task.author.clone()),
                description: Some(task.description.clone()),
            },
        ),
    }
}

/// Reading's reading of the guard: an absent id is not found, a guard
/// failure is a store failure, and only a present id goes on to the
/// fetch.
pub fn read_plan(guard: &Existence, id: &String) -> (r: ReadPlan)
    ensures
        *guard == Existence::Absent ==> (r matches ReadPlan::Finish(o) && o@
            == OutcomeView::NotFound(id@)),
        *guard == Existence::StoreError ==> (r matches ReadPlan::Finish(o) && o@
            == OutcomeView::StoreFailure),
        *guard == Existence::Present ==> r is Fetch,
{
    match guard {
        Existence::Absent => ReadPlan::Finish(Outcome::NotFound(id.clone())),
        Existence::StoreError => ReadPlan::Finish(Outcome::StoreFailure),
        Existence::Present => ReadPlan::Fetch,
    }
}

/// Updating's reading of the guard: an absent id is not found, a
/// guard failure is a store failure, and only a present id goes on to
/// the write of the merged field-set.
pub fn update_plan(guard: &Existence, id: &String, task: &UpdateTask) -> (r: Plan)
    ensures
        *guard == Existence::Absent ==> (r matches Plan::Finish(o) && o@
            == OutcomeView::NotFound(id@)),
        *guard == Existence::StoreError ==> (r matches Plan::Finish(o) && o@
            == OutcomeView::StoreFailure),
        *guard == Existence::Present ==> (r matches Plan::Write(w) && w@ == spec_merge(task@)),
{
    match guard {
        Existence::Absent => Plan::Finish(Outcome::NotFound(id.clone())),
        Existence::StoreError => Plan::Finish(Outcome::StoreFailure),
        Existence::Present => Plan::Write(merge_update(task)),
    }
}

/// Whether a raw reply to a multi-field write reports success: the
/// store answers a plain "OK" when it accepted the write, and anything
/// else — no reply, or a reply of another shape — is a failure.
pub fn classify_write_reply(reply: &Option<String>) -> (r: bool)
    ensures
        r == (reply matches Some(s) && s@ == "OK"@),
{
    match reply {
        Some(s) => {
            let ok: String = "OK".to_owned();
            *s == ok
        },
        None => false,
    }
}

/// The last step of creation: a successful write means the record was
/// created; a failed one is a store failure.
pub fn finish_create(write_ok: bool, id: &String) -> (r: Outcome)
    ensures
        write_ok ==> r@ == OutcomeView::Created(id@),
        !write_ok ==> r@ == OutcomeView::StoreFailure,
{
    if write_ok {
        Outcome::Created(id.clone())
    } else {
        Outcome::StoreFailure
    }
}

/// The last step of an update: a successful write means the record
/// was updated; a failed one is a store failure.
pub fn finish_update(write_ok: bool, id: &String) -> (r: Outcome)
    ensures
        write_ok ==> r@ == OutcomeView::Updated(id@),
        !write_ok ==> r@ == OutcomeView::StoreFailure,
{
    if write_ok {
        Outcome::Updated(id.clone())
    } else {
        Outcome::StoreFailure
    }
}

/// Abstract value of an optional field-set reply.
pub open spec fn opt_fields_view(f: Option<Fields>) -> Option<FieldsView> {
    match f {
        Some(v) => Some(v@),
        None => None,
    }
}

/// What the read reply yields: no reply is a store failure; a reply
/// with all three fields is the whole record; one missing any field is
/// a store failure, with no partial reconstruction.
pub open spec fn spec_read_reply(id: Seq<char>, f: Option<FieldsView>) -> OutcomeView {
    match f {
        None => OutcomeView::StoreFailure,
        Some(f) => match (f.title, f.author, f.description) {
            (Some(t), Some(a), Some(d)) => OutcomeView::Found(
                TaskView { id, title: t, author: a, description: d },
            ),
            _ => OutcomeView::StoreFailure,
        },
    }
}

/// The last step of a read: builds the outcome from the fetched
/// fields, `None` standing for a reply that never came or came
/// malformed.
pub fn read_reply_outcome(id: &String, reply: Option<Fields>) -> (r: Outcome)
    ensures
        r@ == spec_read_reply(id@, opt_fields_view(reply)),
{
    match reply {
        None => Outcome::StoreFailure,
        Some(f) => match (f.title, f.author, f.description) {
            (Some(t), Some(a), Some(d)) => Outcome::Found(
                Task { id: id.clone(), title: t, author: a, description: d },
            ),
            _ => Outcome::StoreFailure,
        },
    }
}

/// What the delete reply yields: no reply is a store failure; a count
/// of zero means there was nothing to delete; any other count reports
/// the deletion.
pub open spec fn spec_delete_reply(id: Seq<char>, count: Option<i64>) -> OutcomeView {
    match count {
        None => OutcomeView::StoreFailure,
        Some(n) => if n == 0 {
            OutcomeView::NotFound(id)
        } else {
            OutcomeView::Deleted(id)
        },
    }
}

/// The last step of a delete: builds the outcome from the removed
/// count, `None` standing for a reply that never came or came
/// malformed.
pub fn delete_outcome(id: &String, count: &Option<i64>) -> (r: Outcome)
    ensures
        r@ == spec_delete_reply(id@, *count),
{
    match count {
        None => Outcome::StoreFailure,
        Some(n) => if *n == 0 {
            Outcome::NotFound(id.clone())
        } else {
            Outcome::Deleted(id.clone())
        },
    }
}

/// Creates a task under its caller-assigned id: guarded on existence,
/// a present id is a conflict and changes nothing; an absent id has
/// all three fields written and the creation reported.
pub fn create_task(store: &mut FieldStore, task: &Task) -> (r: Outcome)
    requires
        old(store).wf(),
    ensures
        final(store).wf(),
        r@ == spec_create(old(store)@, task@).0,
        final(store)@ == spec_create(old(store)@, task@).1,
{
    let guard = check(store, &task.id);
    match create_plan(&guard, task) {
        Plan::Finish(o) => o,
        Plan::Write(w) => {
            let ok = store.write_fields(&task.id, w);
            finish_create(ok, &task.id)
        },
    }
}

/// Reads the record under an id: guarded on existence, an absent id
/// is not found; a present one has its three fields fetched and
/// returned whole, or reports a store failure if any is missing.
pub fn read_task(store: &FieldStore, id: &String) -> (r: Outcome)
    requires
        store.wf(),
    ensures
        r@ == spec_read(store@, id@),
{
    let guard = check(store, id);
    match read_plan(&guard, id) {
        ReadPlan::Finish(o) => o,
        ReadPlan::Fetch => {
            let f = store.read_fields(id);
            read_reply_outcome(id, Some(f))
        },
    }
}

/// Updates the record under an id: guarded on existence, an absent id
/// is not found and changes nothing; a present one has the merged
/// write-set stored — a request that supplies no usable field is a
/// successful no-op — and the update reported.
pub fn update_task(store: &mut FieldStore, id: &String, task: &UpdateTask) -> (r: Outcome)
    requires
        old(store).wf(),
    ensures
        final(store).wf(),
        r@ == spec_update(old(store)@, id@, task@).0,
        final(store)@ == spec_update(old(store)@, id@, task@).1,
{
    let guard = check(store, id);
    match update_plan(&guard, id, task) {
        Plan::Finish(o) => o,
        Plan::Write(w) => {
            let ok = store.write_fields(id, w);
            finish_update(ok, id)
        },
    }
}

/// Deletes the record under an id: one delete-and-report round-trip,
/// no separate guard — the count says whether anything was there.
pub fn delete_task(store: &mut FieldStore, id: &String) -> (r: Outcome)
    requires
        old(store).wf(),
    ensures
        final(store).wf(),
        r@ == spec_delete(old(store)@, id@).0,
        final(store)@ == spec_delete(old(store)@, id@).1,
{
    let removed = store.delete(id);
    let count: Option<i64> = Some(
        if removed {
            1
        } else {
            0
        },
    );
    delete_outcome(id, &count)
}

} // verus!
