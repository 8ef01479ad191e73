//! The update merger: turns a partial-update request into the minimal
//! write-set, applying the blank-means-no-op rule. A field the request
//! leaves out, or supplies as the empty string, is omitted from the
//! write-set and so left unchanged — a caller cannot blank a field out
//! through an update.

use vstd::prelude::*;

use crate::common::{opt_str_view, UpdateTask, UpdateTaskView};
use crate::store::{Fields, FieldsView};

verus! {

/// What the merger does to one field: a supplied, non-empty value is
/// kept for writing; an omitted or empty value asks for no change.
pub open spec fn spec_merge_field(f: Option<Seq<char>>) -> Option<Seq<char>> {
    match f {
        Some(v) => if v.len() > 0 {
            Some(v)
        } else {
            None
        },
        None => None,
    }
}

/// The write-set that a partial-update request denotes: each schema
/// field that the request supplies with a non-empty value, and no
/// other.
pub open spec fn spec_merge(u: UpdateTaskView) -> FieldsView {
    FieldsView {
        title: spec_merge_field(u.title),
        author: spec_merge_field(u.author),
        description: spec_merge_field(u.description),
    }
}

fn merge_field(f: &Option<String>) -> (r: Option<String>)
    ensures
        opt_str_view(r) == spec_merge_field(opt_str_view(*f)),
{
    match f {
        Some(v) => if v.as_str().is_empty() {
            None
        } else {
            Some(v.clone())
        },
        None => None,
    }
}

/// Computes the minimal write-set for a partial-update request. The
/// result may supply no field at all; the caller must still treat the
/// ensuing no-field write as a success.
pub fn merge_update(u: &UpdateTask) -> (r: Fields)
    ensures
        r@ == spec_merge(u@),
{
    Fields {
        title: merge_field(&u.title),
        author: merge_field(&u.author),
        description: merge_field(&u.description),
    }
}

} // verus!
