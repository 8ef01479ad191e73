//! The existence guard: the precondition check in front of each
//! operation, turning a store existence query into a three-way outcome
//! that the operation then branches on.

use vstd::prelude::*;

use crate::store::FieldStore;

verus! {

/// The three-way outcome of the existence guard: the target key is
/// absent, it is present, or the store could not answer.
#[derive(Clone, Copy, Debug, PartialEq, Eq, Structural)]
pub enum Existence {
    Absent,
    Present,
    StoreError,
}

/// What the guard makes of a raw existence-count reply: no reply (a
/// transport failure or a malformed answer) is a store error; a count
/// of zero means the key is absent; any other count means present.
pub open spec fn spec_classify_exists(reply: Option<i64>) -> Existence {
    match reply {
        None => Existence::StoreError,
        Some(n) => if n == 0 {
            Existence::Absent
        } else {
            Existence::Present
        },
    }
}

/// Maps the store's raw reply to an existence query into the guard's
/// three-way outcome. `None` stands for a store-level failure — a
/// transport error or a reply of the wrong shape — which is kept
/// distinct from an ordinary "key not found" count of zero.
pub fn classify_exists_reply(reply: &Option<i64>) -> (r: Existence)
    ensures
        r == spec_classify_exists(*reply),
{
    match reply {
        None => Existence::StoreError,
        Some(n) => if *n == 0 {
            Existence::Absent
        } else {
            Existence::Present
        },
    }
}

/// The guard itself: one existence round-trip to the store, no
/// mutation. The in-memory store always answers, so the outcome here
/// is never a store error.
pub fn check(store: &FieldStore, id: &String) -> (r: Existence)
    requires
        store.wf(),
    ensures
        r == (if store@.contains_key(id@) {
            Existence::Present
        } else {
            Existence::Absent
        }),
{
    let present = store.has_key(id);
    let reply: Option<i64> = Some(
        if present {
            1
        } else {
            0
        },
    );
    classify_exists_reply(&reply)
}

} // verus!
