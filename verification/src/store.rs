//! An in-memory field store: records addressed by a single string key,
//! each holding the fixed schema of named string fields. It offers the
//! minimal capability set the orchestrator needs — an existence query,
//! a multi-field read, a multi-field write and a delete that reports
//! whether a record was removed — and is specified by the map from key
//! to fields that it holds.

use vstd::prelude::*;

use crate::common::opt_str_view;

verus! {

/// Abstract value of [`Fields`]: each schema field present or absent.
pub ghost struct FieldsView {
    pub title: Option<Seq<char>>,
    pub author: Option<Seq<char>>,
    pub description: Option<Seq<char>>,
}

impl FieldsView {
    /// No field present.
    pub open spec fn empty() -> FieldsView {
        FieldsView { title: None, author: None, description: None }
    }

    /// Does this value carry no field at all?
    pub open spec fn is_empty(self) -> bool {
        self.title is None && self.author is None && self.description is None
    }

    /// Are all three schema fields present?
    pub open spec fn is_full(self) -> bool {
        self.title is Some && self.author is Some && self.description is Some
    }
}

/// The fields held under one key, or a write-set of fields to store:
/// each of the three schema fields present or absent.
#[derive(Clone, Debug, PartialEq, Eq)]
pub struct Fields {
    pub title: Option<String>,
    pub author: Option<String>,
    pub description: Option<String>,
}

impl View for Fields {
    type V = FieldsView;

    open spec fn view(&self) -> FieldsView {
        FieldsView {
            title: opt_str_view(self.title),
            author: opt_str_view(self.author),
            description: opt_str_view(self.description),
        }
    }
}

impl Fields {
    /// A value with no field present.
    pub fn none() -> (r: Fields)
        ensures
            r@ == FieldsView::empty(),
    {
        Fields { title: None, author: None, description: None }
    }

    /// An owned copy of this value.
    pub fn duplicate(&self) -> (r: Fields)
        ensures
            r@ == self@,
    {
        Fields {
            title: duplicate_opt(&self.title),
            author: duplicate_opt(&self.author),
            description: duplicate_opt(&self.description),
        }
    }
}

fn duplicate_opt(v: &Option<String>) -> (r: Option<String>)
    ensures
        opt_str_view(r) == opt_str_view(*v),
{
    match v {
        Some(s) => Some(s.clone()),
        None => None,
    }
}

/// The result of writing `w` over `base`: a field that the write-set
/// supplies is replaced, every other field keeps its old value.
pub open spec fn apply_writes(base: FieldsView, w: FieldsView) -> FieldsView {
    FieldsView {
        title: if w.title is Some {
            w.title
        } else {
            base.title
        },
        author: if w.author is Some {
            w.author
        } else {
            base.author
        },
        description: if w.description is Some {
            w.description
        } else {
            base.description
        },
    }
}

/// What a multi-field write leaves in the store: a write-set with no
/// field is a no-op (the store is asked to change nothing and does
/// not); otherwise the key afterwards holds its old fields (or none,
/// if the key was absent) overwritten by the write-set.
pub open spec fn spec_write(
    m: Map<Seq<char>, FieldsView>,
    k: Seq<char>,
    w: FieldsView,
) -> Map<Seq<char>, FieldsView> {
    if w.is_empty() {
        m
    } else if m.contains_key(k) {
        m.insert(k, apply_writes(m[k], w))
    } else {
        m.insert(k, apply_writes(FieldsView::empty(), w))
    }
}

struct Entry {
    key: String,
    fields: Fields,
}

/// Are the keys of the entries pairwise distinct?
spec fn unique_keys(s: Seq<Entry>) -> bool {
    forall|i: int, j: int| 0 <= i < j < s.len() ==> s[i].key@ != s[j].key@
}

/// The map that a sequence of entries denotes; a later entry for the
/// same key would win, though well-formed stores never hold two.
spec fn map_of(s: Seq<Entry>) -> Map<Seq<char>, FieldsView>
    decreases s.len(),
{
    if s.len() == 0 {
        Map::empty()
    } else {
        map_of(s.drop_last()).insert(s.last().key@, s.last().fields@)
    }
}

proof fn lemma_map_of_contains(s: Seq<Entry>, k: Seq<char>)
    ensures
        map_of(s).contains_key(k) <==> exists|i: int| 0 <= i < s.len() && s[i].key@ == k,
    decreases s.len(),
{
    if s.len() > 0 {
        lemma_map_of_contains(s.drop_last(), k);
        if s.last().key@ == k {
            assert(s[s.len() - 1].key@ == k);
        } else {
            if exists|i: int| 0 <= i < s.drop_last().len() && s.drop_last()[i].key@ == k {
                let i = choose|i: int| 0 <= i < s.drop_last().len() && s.drop_last()[i].key@ == k;
                assert(s[i].key@ == k);
            }
            if exists|i: int| 0 <= i < s.len() && s[i].key@ == k {
                let i = choose|i: int| 0 <= i < s.len() && s[i].key@ == k;
                assert(i < s.len() - 1);
                assert(s.drop_last()[i].key@ == k);
            }
        }
    }
}

proof fn lemma_map_of_get(s: Seq<Entry>, i: int)
    requires
        unique_keys(s),
        0 <= i < s.len(),
    ensures
        map_of(s).contains_key(s[i].key@),
        map_of(s)[s[i].key@] == s[i].fields@,
    decreases s.len(),
{
    if i == s.len() - 1 {
    } else {
        assert(s.drop_last()[i] == s[i]);
        lemma_map_of_get(s.drop_last(), i);
        assert(s[i].key@ != s.last().key@);
    }
}

proof fn lemma_map_of_push(s: Seq<Entry>, e: Entry)
    ensures
        map_of(s.push(e)) == map_of(s).insert(e.key@, e.fields@),
{
    assert(s.push(e).drop_last() =~= s);
    assert(s.push(e).last() == e);
}

proof fn lemma_map_of_remove(s: Seq<Entry>, i: int)
    requires
        unique_keys(s),
        0 <= i < s.len(),
    ensures
        map_of(s.remove(i)) =~= map_of(s).remove(s[i].key@),
    decreases s.len(),
{
    let k = s[i].key@;
    if i == s.len() - 1 {
        assert(s.remove(i) =~= s.drop_last());
        lemma_map_of_contains(s.drop_last(), k);
        assert(forall|j: int| 0 <= j < s.drop_last().len() ==> s.drop_last()[j].key@ != k);
        assert(map_of(s.drop_last()) =~= map_of(s.drop_last()).remove(k));
    } else {
        assert(s.remove(i).drop_last() =~= s.drop_last().remove(i));
        assert(s.remove(i).last() == s.last());
        assert(s.drop_last()[i] == s[i]);
        lemma_map_of_remove(s.drop_last(), i);
        assert(s.last().key@ != k);
    }
}

proof fn lemma_unique_remove(s: Seq<Entry>, i: int)
    requires
        unique_keys(s),
        0 <= i < s.len(),
    ensures
        unique_keys(s.remove(i)),
{
    assert forall|a: int, b: int|
        0 <= a < b < s.remove(i).len() implies s.remove(i)[a].key@ != s.remove(i)[b].key@ by {
        let a2 = if a < i {
            a
        } else {
            a + 1
        };
        let b2 = if b < i {
            b
        } else {
            b + 1
        };
        assert(s.remove(i)[a] == s[a2]);
        assert(s.remove(i)[b] == s[b2]);
    }
}

proof fn lemma_unique_push(s: Seq<Entry>, e: Entry)
    requires
        unique_keys(s),
        forall|j: int| 0 <= j < s.len() ==> s[j].key@ != e.key@,
    ensures
        unique_keys(s.push(e)),
{
    assert forall|a: int, b: int|
        0 <= a < b < s.push(e).len() implies s.push(e)[a].key@ != s.push(e)[b].key@ by {
        assert(s.push(e)[a] == s[a]);
        if b < s.len() {
            assert(s.push(e)[b] == s[b]);
        } else {
            assert(s.push(e)[b] == e);
        }
    }
}

/// An in-memory field store, specified by the key-to-fields map it
/// holds. Every operation is total: this client has no transport to
/// fail over.
pub struct FieldStore {
    entries: Vec<Entry>,
}

impl View for FieldStore {
    type V = Map<Seq<char>, FieldsView>;

    closed spec fn view(&self) -> Map<Seq<char>, FieldsView> {
        map_of(self.entries@)
    }
}

impl FieldStore {
    /// Well-formed: no key is held twice.
    pub closed spec fn wf(&self) -> bool {
        unique_keys(self.entries@)
    }

    /// A store with no record in it.
    pub fn new() -> (r: FieldStore)
        ensures
            r.wf(),
            r@ == Map::<Seq<char>, FieldsView>::empty(),
    {
        FieldStore { entries: Vec::new() }
    }

    /// Where the key sits in the entry list, if it does.
    fn position_of(&self, key: &String) -> (r: Option<usize>)
        ensures
            match r {
                Some(i) => i < self.entries@.len() && self.entries@[i as int].key@ == key@,
                None => forall|j: int|
                    0 <= j < self.entries@.len() ==> self.entries@[j].key@ != key@,
            },
    {
        let mut idx: usize = 0;
        while idx < self.entries.len()
            invariant
                idx <= self.entries@.len(),
                forall|j: int| 0 <= j < idx ==> self.entries@[j].key@ != key@,
            decreases self.entries@.len() - idx,
        {
            if self.entries[idx].key == *key {
                return Some(idx);
            }
            idx += 1;
        }
        None
    }

    /// The store's existence query: is a record held under this key?
    pub fn has_key(&self, key: &String) -> (r: bool)
        requires
            self.wf(),
        ensures
            r == self@.contains_key(key@),
    {
        let r = self.position_of(key);
        proof {
            lemma_map_of_contains(self.entries@, key@);
        }
        match r {
            Some(_) => true,
            None => false,
        }
    }

    /// The store's multi-field read: each schema field held under the
    /// key, or no field at all where the key is absent.
    pub fn read_fields(&self, key: &String) -> (r: Fields)
        requires
            self.wf(),
        ensures
            self@.contains_key(key@) ==> r@ == self@[key@],
            !self@.contains_key(key@) ==> r@ == FieldsView::empty(),
    {
        proof {
            lemma_map_of_contains(self.entries@, key@);
        }
        match self.position_of(key) {
            Some(i) => {
                proof {
                    lemma_map_of_get(self.entries@, i as int);
                }
                self.entries[i].fields.duplicate()
            },
            None => Fields::none(),
        }
    }

    /// The store's multi-field write: the fields that the write-set
    /// supplies are stored under the key, creating the record if the
    /// key was absent; fields the write-set leaves out keep their old
    /// values. A write-set with no field changes nothing and still
    /// succeeds.
    pub fn write_fields(&mut self, key: &String, writes: Fields) -> (r: bool)
        requires
            old(self).wf(),
        ensures
            final(self).wf(),
            r == true,
            final(self)@ == spec_write(old(self)@, key@, writes@),
    {
        let ghost w = writes@;
        let Fields { title: wt, author: wa, description: wd } = writes;
        if wt.is_none() && wa.is_none() && wd.is_none() {
            return true;
        }
        proof {
            lemma_map_of_contains(self.entries@, key@);
        }
        match self.position_of(key) {
            Some(i) => {
                let ghost s0 = self.entries@;
                proof {
                    lemma_map_of_get(s0, i as int);
                    lemma_map_of_remove(s0, i as int);
                    lemma_unique_remove(s0, i as int);
                }
                let entry = self.entries.remove(i);
                let ghost base = entry.fields@;
                let mut fields = entry.fields;
                if let Some(v) = wt {
                    fields.title = Some(v);
                }
                if let Some(v) = wa {
                    fields.author = Some(v);
                }
                if let Some(v) = wd {
                    fields.description = Some(v);
                }
                assert(fields@ == apply_writes(base, w));
                let new_entry = Entry { key: entry.key, fields };
                proof {
                    let s1 = self.entries@;
                    lemma_map_of_contains(s1, key@);
                    assert(forall|j: int| 0 <= j < s1.len() ==> s1[j].key@ != key@);
                    lemma_unique_push(s1, new_entry);
                    lemma_map_of_push(s1, new_entry);
                }
                self.entries.push(new_entry);
                proof {
                    assert(self@ =~= spec_write(old(self)@, key@, w));
                }
                true
            },
            None => {
                let mut fields = Fields::none();
                if let Some(v) = wt {
                    fields.title = Some(v);
                }
                if let Some(v) = wa {
                    fields.author = Some(v);
                }
                if let Some(v) = wd {
                    fields.description = Some(v);
                }
                assert(fields@ == apply_writes(FieldsView::empty(), w));
                let new_entry = Entry { key: key.clone(), fields };
                proof {
                    lemma_unique_push(self.entries@, new_entry);
                    lemma_map_of_push(self.entries@, new_entry);
                }
                self.entries.push(new_entry);
                true
            },
        }
    }

    /// The store's delete: removes the record held under the key, if
    /// any, and reports whether one was removed.
    pub fn delete(&mut self, key: &String) -> (r: bool)
        requires
            old(self).wf(),
        ensures
            final(self).wf(),
            r == old(self)@.contains_key(key@),
            final(self)@ == old(self)@.remove(key@),
    {
        proof {
            lemma_map_of_contains(self.entries@, key@);
        }
        match self.position_of(key) {
            Some(i) => {
                proof {
                    lemma_map_of_remove(self.entries@, i as int);
                    lemma_unique_remove(self.entries@, i as int);
                }
                self.entries.remove(i);
                true
            },
            None => {
                proof {
                    assert(self@ =~= self@.remove(key@));
                }
                false
            },
        }
    }
}

} // verus!
