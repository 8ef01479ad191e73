//! The laws of the orchestrator, proved once and for all over the
//! operations' specifications: what any caller may rely on across
//! calls, for every store and every input.

use vstd::prelude::*;

use crate::common::{TaskView, UpdateTaskView};
use crate::outcome::OutcomeView;
use crate::tasks::{spec_create, spec_delete, spec_read, spec_update, StoreView};

verus! {

/// Create/read round-trip: creating a task under an id not yet used
/// reports the creation, and reading that id afterwards yields the
/// whole task back.
pub proof fn lemma_create_read_round_trip(m: StoreView, t: TaskView)
    requires
        !m.contains_key(t.id),
    ensures
        spec_create(m, t).0 == OutcomeView::Created(t.id),
        spec_read(spec_create(m, t).1, t.id) == OutcomeView::Found(t),
{
    let m2 = spec_create(m, t).1;
    assert(m2[t.id].title == Some(t.title));
    assert(spec_read(m2, t.id) == OutcomeView::Found(
        TaskView { id: t.id, title: t.title, author: t.author, description: t.description },
    ));
}

/// Creation is existence-gated: creating under an id already present
/// yields a conflict and leaves the store — the existing record
/// included — exactly as it was.
pub proof fn lemma_create_conflict_changes_nothing(m: StoreView, t: TaskView)
    requires
        m.contains_key(t.id),
    ensures
        spec_create(m, t).0 == OutcomeView::Conflict(t.id),
        spec_create(m, t).1 == m,
{
}

/// Deletion reports idempotently: the first delete of a present id
/// reports the deletion and removes the record; an immediate second
/// delete of the same id reports that nothing was found.
pub proof fn lemma_delete_reports_idempotently(m: StoreView, id: Seq<char>)
    requires
        m.contains_key(id),
    ensures
        spec_delete(m, id).0 == OutcomeView::Deleted(id),
        !spec_delete(m, id).1.contains_key(id),
        spec_delete(spec_delete(m, id).1, id).0 == OutcomeView::NotFound(id),
{
}

/// A blank field means no-op: an update that supplies the title as
/// the empty string leaves the title exactly as it was, whatever else
/// the request carries.
pub proof fn lemma_update_blank_leaves_field(m: StoreView, id: Seq<char>, u: UpdateTaskView)
    requires
        m.contains_key(id),
        u.title == Some(Seq::<char>::empty()),
    ensures
        spec_update(m, id, u).1.contains_key(id),
        spec_update(m, id, u).1[id].title == m[id].title,
{
    lemma_update_changes_only_supplied(m, id, u);
}

/// What one field of a record holds after an update: the supplied
/// value where the request usably supplies one — present and
/// non-empty — and the held value otherwise.
pub open spec fn updated_field(supplied: Option<Seq<char>>, held: Option<Seq<char>>) -> Option<
    Seq<char>,
> {
    match supplied {
        Some(v) => if v.len() > 0 {
            Some(v)
        } else {
            held
        },
        None => held,
    }
}

/// An update changes exactly the fields it usably supplies: each
/// schema field supplied with a non-empty value takes that value,
/// every other field of the record keeps its old value, and no other
/// record is touched.
pub proof fn lemma_update_changes_only_supplied(m: StoreView, id: Seq<char>, u: UpdateTaskView)
    requires
        m.contains_key(id),
    ensures
        spec_update(m, id, u).0 == OutcomeView::Updated(id),
        spec_update(m, id, u).1.contains_key(id),
        spec_update(m, id, u).1[id].title == updated_field(u.title, m[id].title),
        spec_update(m, id, u).1[id].author == updated_field(u.author, m[id].author),
        spec_update(m, id, u).1[id].description == updated_field(u.description, m[id].description),
        forall|k: Seq<char>|
            k != id ==> #[trigger] spec_update(m, id, u).1.contains_key(k) == m.contains_key(k),
        forall|k: Seq<char>|
            k != id && m.contains_key(k) ==> #[trigger] spec_update(m, id, u).1[k] == m[k],
{
}

/// Updating or reading an absent id both report that nothing was
/// found, and an update of an absent id changes nothing.
pub proof fn lemma_absent_id_not_found(m: StoreView, id: Seq<char>, u: UpdateTaskView)
    requires
        !m.contains_key(id),
    ensures
        spec_update(m, id, u).0 == OutcomeView::NotFound(id),
        spec_update(m, id, u).1 == m,
        spec_read(m, id) == OutcomeView::NotFound(id),
{
}

} // verus!
