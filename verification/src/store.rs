//! The semantic model of the document store, and the `ModelManager` handle
//! that owns it.
//!
//! The store keeps, per tenant database and collection name, a finite
//! sequence of documents. Every operation of the CRUD engine is verified
//! against this model: what an insert appends, which document a filter
//! selects, what an update may and may not touch, and that no operation ever
//! reaches past its own tenant.

use vstd::prelude::*;

use crate::error::Error;
use crate::oid::ObjectId;
use crate::value::{
    clone_doc, doc_matches, lemma_lookup_concat, lookup, satisfies,
    store_id_field_name, string_eq, Doc, DocV, ValV, Value,
};

verus! {

/// The shapes of a sequence of documents.
pub open spec fn docs_view(ds: Seq<Doc>) -> Seq<DocV> {
    ds.map_values(|d: Doc| d@)
}

/// The first document of `docs` that satisfies `f`, if any.
pub open spec fn first_match(docs: Seq<DocV>, f: DocV) -> Option<DocV>
    decreases docs.len(),
{
    if docs.len() == 0 {
        None
    } else {
        let front = first_match(docs.drop_last(), f);
        if front is Some {
            front
        } else if satisfies(f, docs.last()) {
            Some(docs.last())
        } else {
            None
        }
    }
}

/// Every document of `docs` that satisfies `f`, in order.
pub open spec fn matching(docs: Seq<DocV>, f: DocV) -> Seq<DocV>
    decreases docs.len(),
{
    if docs.len() == 0 {
        Seq::empty()
    } else {
        matching(docs.drop_last(), f) + if satisfies(f, docs.last()) {
            seq![docs.last()]
        } else {
            Seq::<DocV>::empty()
        }
    }
}

/// `docs` with the fields of `set` appended to the first document that
/// satisfies `f` (so they shadow its old values); unchanged when nothing
/// satisfies `f`.
pub open spec fn apply_update(docs: Seq<DocV>, f: DocV, set: DocV) -> Seq<DocV>
    decreases docs.len(),
{
    if docs.len() == 0 {
        Seq::empty()
    } else if first_match(docs.drop_last(), f) is Some {
        apply_update(docs.drop_last(), f, set).push(docs.last())
    } else if satisfies(f, docs.last()) {
        docs.drop_last().push(docs.last() + set)
    } else {
        apply_update(docs.drop_last(), f, set).push(docs.last())
    }
}

/// `docs` without the first document that satisfies `f`; unchanged when
/// nothing satisfies `f`.
pub open spec fn remove_first(docs: Seq<DocV>, f: DocV) -> Seq<DocV>
    decreases docs.len(),
{
    if docs.len() == 0 {
        Seq::empty()
    } else if first_match(docs.drop_last(), f) is Some {
        remove_first(docs.drop_last(), f).push(docs.last())
    } else if satisfies(f, docs.last()) {
        docs.drop_last()
    } else {
        remove_first(docs.drop_last(), f).push(docs.last())
    }
}

/// When nothing in `docs` satisfies `f`, a lookup finds nothing, an update
/// and a delete change nothing, and the matching sub-sequence is empty.
pub proof fn lemma_no_match(docs: Seq<DocV>, f: DocV, set: DocV)
    requires
        forall|j: int| 0 <= j < docs.len() ==> !satisfies(f, #[trigger] docs[j]),
    ensures
        first_match(docs, f) is None,
        apply_update(docs, f, set) == docs,
        remove_first(docs, f) == docs,
        matching(docs, f) == Seq::<DocV>::empty(),
    decreases docs.len(),
{
    if docs.len() > 0 {
        lemma_no_match(docs.drop_last(), f, set);
        assert(apply_update(docs, f, set) =~= docs);
        assert(remove_first(docs, f) =~= docs);
        assert(matching(docs, f) =~= Seq::<DocV>::empty());
    } else {
        assert(apply_update(docs, f, set) =~= docs);
        assert(remove_first(docs, f) =~= docs);
    }
}

/// When position `i` holds the first document satisfying `f`: a lookup finds
/// it, an update rewrites exactly it, and a delete removes exactly it.
pub proof fn lemma_first_match_at(docs: Seq<DocV>, f: DocV, set: DocV, i: int)
    requires
        0 <= i < docs.len(),
        satisfies(f, docs[i]),
        forall|j: int| 0 <= j < i ==> !satisfies(f, #[trigger] docs[j]),
    ensures
        first_match(docs, f) == Some(docs[i]),
        apply_update(docs, f, set) == docs.update(i, docs[i] + set),
        remove_first(docs, f) == docs.remove(i),
    decreases docs.len(),
{
    if i == docs.len() - 1 {
        lemma_no_match(docs.drop_last(), f, set);
        assert(apply_update(docs, f, set) =~= docs.update(i, docs[i] + set));
        assert(remove_first(docs, f) =~= docs.remove(i));
    } else {
        lemma_first_match_at(docs.drop_last(), f, set, i);
        assert(apply_update(docs, f, set) =~= docs.update(i, docs[i] + set));
        assert(remove_first(docs, f) =~= docs.remove(i));
    }
}

/// Whether `d` carries a store-assigned identifier below `bound`.
pub open spec fn id_bounded(d: DocV, bound: u64) -> bool {
    exists|m: u64| m < bound && lookup(d, "_id"@) == Some(ValV::Id(ObjectId::of_counter(m)))
}

/// An identifier bound only grows.
pub proof fn lemma_id_bound_mono(d: DocV, b1: u64, b2: u64)
    requires
        id_bounded(d, b1),
        b1 <= b2,
    ensures
        id_bounded(d, b2),
{
    let m = choose|m: u64|
        m < b1 && lookup(d, "_id"@) == Some(ValV::Id(ObjectId::of_counter(m)));
    assert(m < b2 && lookup(d, "_id"@) == Some(ValV::Id(ObjectId::of_counter(m))));
}

/// The in-memory document store: per tenant database and collection name, a
/// finite sequence of documents, and the counter from which store-assigned
/// identifiers are minted.
#[derive(Debug)]
pub struct Store {
    pub collections: Vec<((String, String), Vec<Doc>)>,
    pub next_id: u64,
}

/// The documents of the collection named `c` in the tenant database `t`.
pub open spec fn col_of(cs: Seq<((String, String), Vec<Doc>)>, t: Seq<char>, c: Seq<char>) -> Seq<
    DocV,
>
    decreases cs.len(),
{
    if cs.len() == 0 {
        Seq::empty()
    } else if cs.last().0.0@ == t && cs.last().0.1@ == c {
        docs_view(cs.last().1@)
    } else {
        col_of(cs.drop_last(), t, c)
    }
}

impl Store {
    /// The documents currently in tenant `t`'s collection `c`.
    pub open spec fn collection(self, t: Seq<char>, c: Seq<char>) -> Seq<DocV> {
        col_of(self.collections@, t, c)
    }

    /// Every stored document carries a store-assigned identifier minted
    /// below the current counter.
    pub open spec fn wf(self) -> bool {
        forall|t: Seq<char>, c: Seq<char>, i: int|
            0 <= i < self.collection(t, c).len() ==> id_bounded(
                #[trigger] self.collection(t, c)[i],
                self.next_id,
            )
    }

    /// Whether a fresh identifier can still be minted.
    pub open spec fn can_assign_id(self) -> bool {
        self.next_id < u64::MAX
    }

    /// An empty store.
    pub fn new() -> (r: Store)
        ensures
            r.next_id == 0,
            forall|t: Seq<char>, c: Seq<char>| #[trigger] r.collection(t, c) == Seq::<DocV>::empty(),
            r.wf(),
    {
        let r = Store { collections: Vec::new(), next_id: 0 };
        proof {
            assert(forall|t: Seq<char>, c: Seq<char>| #[trigger]
                r.collection(t, c) == Seq::<DocV>::empty());
        }
        r
    }

    /// The documents of tenant `t`'s collection `c`, as a fresh copy.
    fn read_collection(&self, t: &String, c: &String) -> (r: Vec<Doc>)
        ensures
            docs_view(r@) == self.collection(t@, c@),
    {
        let n = self.collections.len();
        let mut i: usize = n;
        proof {
            assert(self.collections@.take(i as int) =~= self.collections@);
        }
        while i > 0
            invariant
                0 <= i <= n,
                n == self.collections@.len(),
                self.collection(t@, c@) == col_of(self.collections@.take(i as int), t@, c@),
            decreases i,
        {
            proof {
                assert(self.collections@.take(i as int).drop_last() =~= self.collections@.take(
                    i as int - 1,
                ));
                assert(self.collections@.take(i as int).last() == self.collections@[i as int - 1]);
            }
            if string_eq(&self.collections[i - 1].0.0, t) && string_eq(
                &self.collections[i - 1].0.1,
                c,
            ) {
                return clone_docs(&self.collections[i - 1].1);
            }
            i = i - 1;
        }
        proof {
            assert(self.collections@.take(0) =~= Seq::<((String, String), Vec<Doc>)>::empty());
            assert(docs_view(Seq::<Doc>::empty()) =~= Seq::<DocV>::empty());
        }
        Vec::new()
    }

    /// Records `docs` as the new contents of tenant `t`'s collection `c`.
    fn write_collection(&mut self, t: &String, c: &String, docs: Vec<Doc>)
        ensures
            final(self).collection(t@, c@) == docs_view(docs@),
            forall|t2: Seq<char>, c2: Seq<char>|
                t2 != t@ || c2 != c@ ==> #[trigger] final(self).collection(t2, c2) == old(
                    self,
                ).collection(t2, c2),
            final(self).next_id == old(self).next_id,
    {
        let ghost docsv = docs@;
        self.collections.push(((t.clone(), c.clone()), docs));
        proof {
            assert(self.collections@.drop_last() =~= old(self).collections@);
            assert(self.collections@.last().0.0@ == t@);
            assert(self.collections@.last().0.1@ == c@);
            assert(self.collections@.last().1@ == docsv);
            assert(self.collection(t@, c@) == docs_view(docsv));
            assert forall|t2: Seq<char>, c2: Seq<char>| t2 != t@ || c2 != c@ implies #[trigger] self
                .collection(t2, c2) == old(self).collection(t2, c2) by {
                assert(self.collections@.last().0.0@ == t@);
                assert(self.collections@.last().0.1@ == c@);
            }
        }
    }

    /// Inserts `doc` into tenant `t`'s collection `c`, assigning it a fresh
    /// store-native identifier, which is returned. No other collection, of
    /// this tenant or of any other, is touched.
    pub fn insert_one(&mut self, t: &String, c: &String, doc: Doc) -> (r: ObjectId)
        requires
            old(self).wf(),
            old(self).can_assign_id(),
        ensures
            r@ == ObjectId::of_counter(old(self).next_id),
            final(self).next_id == old(self).next_id + 1,
            final(self).collection(t@, c@) == old(self).collection(t@, c@).push(
                doc@.push(("_id"@, ValV::Id(r@))),
            ),
            forall|t2: Seq<char>, c2: Seq<char>|
                t2 != t@ || c2 != c@ ==> #[trigger] final(self).collection(t2, c2) == old(
                    self,
                ).collection(t2, c2),
            final(self).wf(),
    {
        let ghost oldself = *self;
        let oid = ObjectId::from_counter(self.next_id);
        let mut docs = self.read_collection(t, c);
        let mut stored = doc;
        stored.insert(store_id_field_name(), Value::Id(oid.duplicate()));
        docs.push(stored);
        self.next_id = self.next_id + 1;
        self.write_collection(t, c, docs);
        proof {
            let fresh = ObjectId::of_counter(oldself.next_id);
            assert(docs_view(docs@) =~= oldself.collection(t@, c@).push(
                doc@.push(("_id"@, ValV::Id(fresh))),
            ));
            assert forall|t2: Seq<char>, c2: Seq<char>, i: int|
                0 <= i < self.collection(t2, c2).len() implies id_bounded(
                #[trigger] self.collection(t2, c2)[i],
                self.next_id,
            ) by {
                if t2 == t@ && c2 == c@ {
                    if i < oldself.collection(t@, c@).len() {
                        assert(id_bounded(oldself.collection(t2, c2)[i], oldself.next_id));
                        lemma_id_bound_mono(self.collection(t2, c2)[i], oldself.next_id,
                            self.next_id);
                    } else {
                        let stored_v = doc@.push(("_id"@, ValV::Id(fresh)));
                        assert(lookup(stored_v, "_id"@) == Some(ValV::Id(fresh)));
                        assert(oldself.next_id < self.next_id && lookup(stored_v, "_id"@) == Some(
                            ValV::Id(ObjectId::of_counter(oldself.next_id)),
                        ));
                    }
                } else {
                    assert(id_bounded(oldself.collection(t2, c2)[i], oldself.next_id));
                    lemma_id_bound_mono(self.collection(t2, c2)[i], oldself.next_id, self.next_id);
                }
            }
        }
        oid
    }

    /// The first document of tenant `t`'s collection `c` that satisfies the
    /// filter, if any.
    pub fn find_one(&self, t: &String, c: &String, f: &Doc) -> (r: Option<Doc>)
        ensures
            match r {
                Some(d) => first_match(self.collection(t@, c@), f@) == Some(d@),
                None => first_match(self.collection(t@, c@), f@) is None,
            },
    {
        let docs = self.read_collection(t, c);
        let ghost dv = self.collection(t@, c@);
        let n = docs.len();
        let mut i: usize = 0;
        while i < n
            invariant
                0 <= i <= n,
                n == docs@.len(),
                docs_view(docs@) == dv,
                dv.len() == n,
                dv == self.collection(t@, c@),
                forall|j: int| 0 <= j < i ==> !satisfies(f@, #[trigger] dv[j]),
            decreases n - i,
        {
            if doc_matches(f, &docs[i]) {
                let found = clone_doc(&docs[i]);
                proof {
                    assert(docs_view(docs@)[i as int] == docs@[i as int]@);
                    assert(dv[i as int] == docs@[i as int]@);
                    assert(satisfies(f@, dv[i as int]));
                    lemma_first_match_at(dv, f@, Seq::empty(), i as int);
                    assert(first_match(dv, f@) == Some(dv[i as int]));
                    assert(found@ == dv[i as int]);
                }
                return Some(found);
            }
            i = i + 1;
        }
        proof {
            lemma_no_match(dv, f@, Seq::empty());
        }
        None
    }

    /// Every document of tenant `t`'s collection `c` that satisfies the
    /// filter, in stored order, as fresh copies.
    pub fn find_all(&self, t: &String, c: &String, f: &Doc) -> (r: Vec<Doc>)
        ensures
            docs_view(r@) == matching(self.collection(t@, c@), f@),
    {
        let docs = self.read_collection(t, c);
        let ghost dv = self.collection(t@, c@);
        let n = docs.len();
        let mut out: Vec<Doc> = Vec::new();
        let mut i: usize = 0;
        proof {
            assert(dv.take(0) =~= Seq::<DocV>::empty());
            assert(docs_view(out@) =~= matching(dv.take(0), f@));
        }
        while i < n
            invariant
                0 <= i <= n,
                n == docs@.len(),
                docs_view(docs@) == dv,
                dv.len() == n,
                docs_view(out@) == matching(dv.take(i as int), f@),
            decreases n - i,
        {
            proof {
                assert(dv.take(i as int + 1).drop_last() =~= dv.take(i as int));
                assert(dv.take(i as int + 1).last() == dv[i as int]);
            }
            if doc_matches(f, &docs[i]) {
                out.push(clone_doc(&docs[i]));
            }
            proof {
                assert(docs_view(out@) =~= matching(dv.take(i as int + 1), f@));
            }
            i = i + 1;
        }
        proof {
            assert(dv.take(n as int) =~= dv);
        }
        out
    }

    /// Applies the fields of `set` to the first document of tenant `t`'s
    /// collection `c` that satisfies the filter: those fields replace the
    /// document's values; every field the update does not mention is left
    /// untouched, and so is every other document. Applying a filter nothing
    /// satisfies changes nothing (a zero-match update is not an error).
    pub fn update_one(&mut self, t: &String, c: &String, f: &Doc, set: &Doc)
        requires
            old(self).wf(),
            lookup(set@, "_id"@) is None,
        ensures
            final(self).collection(t@, c@) == apply_update(
                old(self).collection(t@, c@),
                f@,
                set@,
            ),
            forall|t2: Seq<char>, c2: Seq<char>|
                t2 != t@ || c2 != c@ ==> #[trigger] final(self).collection(t2, c2) == old(
                    self,
                ).collection(t2, c2),
            final(self).next_id == old(self).next_id,
            final(self).wf(),
    {
        let ghost oldself = *self;
        let docs = self.read_collection(t, c);
        let ghost dv = self.collection(t@, c@);
        let n = docs.len();
        let mut i: usize = 0;
        while i < n
            invariant
                0 <= i <= n,
                n == docs@.len(),
                docs_view(docs@) == dv,
                dv.len() == n,
                *self == *old(self),
                oldself == *old(self),
                oldself.wf(),
                dv == oldself.collection(t@, c@),
                lookup(set@, "_id"@) is None,
                forall|j: int| 0 <= j < i ==> !satisfies(f@, #[trigger] dv[j]),
            decreases n - i,
        {
            if doc_matches(f, &docs[i]) {
                proof {
                    assert(dv[i as int] == docs@[i as int]@);
                    lemma_first_match_at(dv, f@, set@, i as int);
                }
                let mut updated = clone_doc(&docs[i]);
                updated.extend_with(set);
                let mut out: Vec<Doc> = Vec::new();
                let m = docs.len();
                let mut j: usize = 0;
                while j < m
                    invariant
                        0 <= j <= m,
                        m == docs@.len(),
                        docs_view(docs@) == dv,
                        dv.len() == m,
                        i < m,
                        updated@ == dv[i as int] + set@,
                        out@.len() == j,
                        forall|jj: int|
                            0 <= jj < j ==> (#[trigger] out@[jj])@ == dv.update(
                                i as int,
                                dv[i as int] + set@,
                            )[jj],
                    decreases m - j,
                {
                    if j == i {
                        out.push(clone_doc(&updated));
                        proof {
                            assert(out@[j as int]@ == updated@);
                        }
                    } else {
                        out.push(clone_doc(&docs[j]));
                        proof {
                            assert(out@[j as int]@ == docs@[j as int]@);
                            assert(dv[j as int] == docs@[j as int]@);
                        }
                    }
                    proof {
                        assert(out@[j as int]@ == dv.update(
                            i as int,
                            dv[i as int] + set@,
                        )[j as int]);
                    }
                    j = j + 1;
                }
                proof {
                    assert(docs_view(out@) =~= dv.update(i as int, dv[i as int] + set@));
                }
                self.write_collection(t, c, out);
                proof {
                    assert forall|t2: Seq<char>, c2: Seq<char>, k: int|
                        0 <= k < self.collection(t2, c2).len() implies id_bounded(
                        #[trigger] self.collection(t2, c2)[k],
                        self.next_id,
                    ) by {
                        if t2 == t@ && c2 == c@ {
                            assert(id_bounded(oldself.collection(t2, c2)[k], oldself.next_id));
                            if k == i as int {
                                lemma_lookup_concat(dv[i as int], set@, "_id"@);
                                let m0 = choose|m0: u64|
                                    m0 < oldself.next_id && lookup(dv[i as int], "_id"@) == Some(
                                        ValV::Id(ObjectId::of_counter(m0)),
                                    );
                                assert(lookup(dv[i as int] + set@, "_id"@) == Some(
                                    ValV::Id(ObjectId::of_counter(m0)),
                                ));
                            }
                        } else {
                            assert(id_bounded(oldself.collection(t2, c2)[k], oldself.next_id));
                        }
                    }
                }
                return ;
            }
            i = i + 1;
        }
        proof {
            lemma_no_match(dv, f@, set@);
        }
    }

    /// Deletes the first document of tenant `t`'s collection `c` that
    /// satisfies the filter. Deleting zero matches is not distinguished from
    /// deleting one; no other document or collection is touched.
    pub fn delete_one(&mut self, t: &String, c: &String, f: &Doc)
        requires
            old(self).wf(),
        ensures
            final(self).collection(t@, c@) == remove_first(old(self).collection(t@, c@), f@),
            forall|t2: Seq<char>, c2: Seq<char>|
                t2 != t@ || c2 != c@ ==> #[trigger] final(self).collection(t2, c2) == old(
                    self,
                ).collection(t2, c2),
            final(self).next_id == old(self).next_id,
            final(self).wf(),
    {
        let ghost oldself = *self;
        let docs = self.read_collection(t, c);
        let ghost dv = self.collection(t@, c@);
        let n = docs.len();
        let mut i: usize = 0;
        while i < n
            invariant
                0 <= i <= n,
                n == docs@.len(),
                docs_view(docs@) == dv,
                dv.len() == n,
                *self == *old(self),
                oldself == *old(self),
                oldself.wf(),
                dv == oldself.collection(t@, c@),
                forall|j: int| 0 <= j < i ==> !satisfies(f@, #[trigger] dv[j]),
            decreases n - i,
        {
            if doc_matches(f, &docs[i]) {
                proof {
                    assert(dv[i as int] == docs@[i as int]@);
                    lemma_first_match_at(dv, f@, Seq::empty(), i as int);
                }
                let mut out: Vec<Doc> = Vec::new();
                let m = docs.len();
                let mut j: usize = 0;
                while j < m
                    invariant
                        0 <= j <= m,
                        m == docs@.len(),
                        docs_view(docs@) == dv,
                        dv.len() == m,
                        i < m,
                        out@.len() == if j <= i {
                            j as int
                        } else {
                            j - 1
                        },
                        forall|jj: int|
                            0 <= jj < out@.len() ==> (#[trigger] out@[jj])@ == dv.remove(
                                i as int,
                            )[jj],
                    decreases m - j,
                {
                    if j != i {
                        out.push(clone_doc(&docs[j]));
                        proof {
                            let ghost last: int = out@.len() - 1;
                            assert(out@[last]@ == docs@[j as int]@);
                            assert(dv[j as int] == docs@[j as int]@);
                            assert(dv.remove(i as int)[last] == dv[j as int]);
                        }
                    }
                    j = j + 1;
                }
                proof {
                    assert(docs_view(out@) =~= dv.remove(i as int));
                }
                self.write_collection(t, c, out);
                proof {
                    assert forall|t2: Seq<char>, c2: Seq<char>, k: int|
                        0 <= k < self.collection(t2, c2).len() implies id_bounded(
                        #[trigger] self.collection(t2, c2)[k],
                        self.next_id,
                    ) by {
                        if t2 == t@ && c2 == c@ {
                            if k < i as int {
                                assert(self.collection(t2, c2)[k] == oldself.collection(t2, c2)[k]);
                                assert(id_bounded(oldself.collection(t2, c2)[k], oldself.next_id));
                            } else {
                                assert(self.collection(t2, c2)[k] == oldself.collection(t2, c2)[k
                                    + 1]);
                                assert(id_bounded(
                                    oldself.collection(t2, c2)[k + 1],
                                    oldself.next_id,
                                ));
                            }
                        } else {
                            assert(id_bounded(oldself.collection(t2, c2)[k], oldself.next_id));
                        }
                    }
                }
                return ;
            }
            i = i + 1;
        }
        proof {
            lemma_no_match(dv, f@, Seq::empty());
        }
    }
}

/// Fresh copies of a document sequence.
fn clone_docs(ds: &Vec<Doc>) -> (r: Vec<Doc>)
    ensures
        docs_view(r@) == docs_view(ds@),
{
    let mut out: Vec<Doc> = Vec::new();
    let n = ds.len();
    let mut i: usize = 0;
    while i < n
        invariant
            0 <= i <= n,
            n == ds@.len(),
            out@.len() == i,
            forall|j: int| 0 <= j < i ==> out@[j]@ == ds@[j]@,
        decreases n - i,
    {
        out.push(clone_doc(&ds[i]));
        i = i + 1;
    }
    proof {
        assert(docs_view(out@) =~= docs_view(ds@));
    }
    out
}

/// The process-scoped handle to the store. Constructed once, it owns the
/// model store that every operation of this layer reads and writes; it
/// carries no per-request state.
#[derive(Debug)]
pub struct ModelManager {
    pub store: Store,
}

impl ModelManager {
    /// The documents of tenant `t`'s collection `c`.
    pub open spec fn collection(self, t: Seq<char>, c: Seq<char>) -> Seq<DocV> {
        self.store.collection(t, c)
    }

    pub open spec fn wf(self) -> bool {
        self.store.wf()
    }

    pub open spec fn can_assign_id(self) -> bool {
        self.store.can_assign_id()
    }

    /// The counter the next created document's identifier is minted from.
    pub open spec fn next_id_spec(self) -> u64 {
        self.store.next_id
    }

    /// A fresh manager over an empty store. The model store needs no
    /// connection, so construction always succeeds.
    pub fn new() -> (r: Result<ModelManager, Error>)
        ensures
            r matches Ok(m) ==> {
                &&& m.wf()
                &&& m.can_assign_id()
                &&& m.next_id_spec() == 0
                &&& forall|t: Seq<char>, c: Seq<char>| #[trigger]
                    m.collection(t, c) == Seq::<DocV>::empty()
            },
            r is Ok,
    {
        Ok(ModelManager { store: Store::new() })
    }

    /// Transactional sessions are an explicit unimplemented stub: every call
    /// reports that no session can be begun.
    pub fn new_with_txn(&self) -> (r: Result<&ModelManager, Error>)
        ensures
            r matches Err(e) && e is SessionError,
    {
        Err(Error::SessionError)
    }
}

} // verus!
