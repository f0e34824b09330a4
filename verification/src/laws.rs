//! The guarantees of the data-access layer, stated and proved as laws over
//! the same specification functions the operations' contracts use.

use vstd::prelude::*;

use crate::base::filter_shape;
use crate::dummy::{lemma_dummy_doc_lookups, DummyData, DummyDataV};
use crate::example::{Example, ExampleV};
use crate::rpc::example_id_filter_v;
use crate::base::Record;
use crate::oid::{hex_encode, lemma_hex_round_trip, ObjectId};
use crate::store::{first_match, id_bounded, lemma_first_match_at};
use crate::value::{
    convert_entry, convert_ids, dot_free, flat, flatten_entry, flatten_with, lemma_flatten_push,
    lemma_lookup_concat, lemma_lookup_flat, lemma_lookup_push, lookup, satisfies, translate_entry,
    translate_ids, DocV, ValV,
};

verus! {

/// Update field isolation: applying a "set these fields" update leaves every
/// field the update does not mention exactly as it was, and gives every
/// field it does mention the update's value. No field is ever nulled by
/// omission.
pub proof fn lemma_update_field_isolation(d: DocV, set: DocV, k: Seq<char>)
    ensures
        lookup(set, k) is None ==> lookup(d + set, k) == lookup(d, k),
        lookup(set, k) is Some ==> lookup(d + set, k) == lookup(set, k),
{
    lemma_lookup_concat(d, set, k);
}

/// Filter null-drop: a null field of a filter record is dropped entirely by
/// filter shaping, so it imposes no constraint at all — the shaped filter is
/// exactly the one of the record without that field.
pub proof fn lemma_filter_null_drop(d: DocV, k: Seq<char>)
    ensures
        filter_shape(d.push((k, ValV::Null))) == filter_shape(d),
{
    lemma_flatten_push(d, k, ValV::Null, Seq::empty());
    assert(flat(d.push((k, ValV::Null))) =~= flat(d));
}

/// Filter flattening: a filter with a nested sub-record field denotes
/// exactly the flat filter on the dot-joined path, so the two select the
/// same documents.
pub proof fn lemma_filter_flattening(a: Seq<char>, b: Seq<char>, v: ValV)
    requires
        !(v is Sub),
        !(v is Null),
    ensures
        flat(seq![(a, ValV::Sub(seq![(b, v)]))]) == seq![(a + "."@ + b, v)],
        forall|doc: DocV| #[trigger]
            satisfies(flat(seq![(a, ValV::Sub(seq![(b, v)]))]), doc) == satisfies(
                seq![(a + "."@ + b, v)],
                doc,
            ),
{
    reveal_with_fuel(flatten_with, 3);
    let nested = seq![(a, ValV::Sub(seq![(b, v)]))];
    let pfx2 = Seq::<char>::empty() + a + "."@;
    assert(nested.drop_last() =~= Seq::<(Seq<char>, ValV)>::empty());
    assert(flat(nested) =~= flatten_entry(a, ValV::Sub(seq![(b, v)]), Seq::empty()));
    let inner = seq![(b, v)];
    assert(inner.drop_last() =~= Seq::<(Seq<char>, ValV)>::empty());
    assert(flatten_with(inner, pfx2) =~= flatten_entry(b, v, pfx2));
    assert(flatten_entry(b, v, pfx2) =~= seq![(pfx2 + b, v)]);
    assert(pfx2 + b =~= a + "."@ + b);
    assert(flat(nested) =~= seq![(a + "."@ + b, v)]);
}

/// Tenant isolation: every write operation leaves every collection of every
/// other tenant exactly as it was (the frame clause each of create, update
/// and delete ensures), and what a read under a tenant returns is a function
/// of that tenant's collection alone — so documents created under one tenant
/// are never returned, nor touched, by operations issued under another.
pub proof fn lemma_tenant_isolation(
    before: crate::store::ModelManager,
    after: crate::store::ModelManager,
    t1: Seq<char>,
    t2: Seq<char>,
    c: Seq<char>,
    f: DocV,
)
    requires
        t1 != t2,
        forall|tx: Seq<char>, cx: Seq<char>|
            tx != t1 ==> #[trigger] after.collection(tx, cx) == before.collection(tx, cx),
    ensures
        after.collection(t2, c) == before.collection(t2, c),
        first_match(after.collection(t2, c), f) == first_match(before.collection(t2, c), f),
        crate::store::matching(after.collection(t2, c), f) == crate::store::matching(
            before.collection(t2, c),
            f,
        ),
{
}

/// The example record read back after a round trip: the original, with the
/// identifier field populated.
pub open spec fn example_with_id(v: ExampleV, id: Seq<char>) -> ExampleV {
    ExampleV { id: Some(id), name: v.name, description: v.description, skills: v.skills }
}

/// The shape of the record that filters for one identifier string.
pub open spec fn dummy_id_filter_v(id: Seq<char>) -> DummyDataV {
    DummyDataV { id: Some(id), name: None, age: None }
}

/// The record read back after a round trip: the original, with the
/// identifier field populated.
pub open spec fn dummy_with_id(v: DummyDataV, id: Seq<char>) -> DummyDataV {
    DummyDataV { id: Some(id), name: v.name, age: v.age }
}

/// The shaped form of an identifier filter is the single store-native
/// identifier constraint.
proof fn lemma_dummy_id_filter_shape(b: Seq<u8>)
    requires
        b.len() == 12,
    ensures
        filter_shape(DummyData::doc_of(dummy_id_filter_v(hex_encode(b)))) == seq![
            ("_id"@, ValV::Id(b)),
        ],
{
    broadcast use lemma_lookup_push;

    reveal_with_fuel(flatten_with, 3);
    lemma_hex_round_trip(b);
    let id_s = hex_encode(b);
    let fdoc = DummyData::doc_of(dummy_id_filter_v(id_s));
    assert(fdoc =~= seq![("id"@, ValV::Str(id_s))]);
    assert(fdoc.drop_last() =~= Seq::<(Seq<char>, ValV)>::empty());
    assert(flat(fdoc) =~= seq![(Seq::<char>::empty() + "id"@, ValV::Str(id_s))]);
    assert(Seq::<char>::empty() + "id"@ =~= "id"@);
    assert(flat(fdoc) =~= seq![("id"@, ValV::Str(id_s))]);
    assert(convert_entry(("id"@, ValV::Str(id_s))) == ("_id"@, ValV::Id(b)));
    assert(convert_ids(flat(fdoc)) =~= seq![("_id"@, ValV::Id(b))]);
}

/// A stored document translates back to the record it was shaped from, with
/// the identifier field populated by the store-assigned identifier.
proof fn lemma_dummy_translate_back(v: DummyDataV, b: Seq<u8>)
    requires
        v.id is None,
        b.len() == 12,
    ensures
        DummyData::of_doc(
            translate_ids(DummyData::doc_of(v).push(("_id"@, ValV::Id(b)))),
        ) == Some(dummy_with_id(v, hex_encode(b))),
{
    broadcast use lemma_lookup_push;

    reveal_strlit("_id");
    reveal_strlit("id");
    reveal_strlit("name");
    reveal_strlit("age");
    assert("_id"@.len() == 3);
    assert("id"@.len() == 2);
    assert("name"@.len() == 4);
    assert("age"@.len() == 3);
    assert("age"@[0] == 'a' && "_id"@[0] == '_');
    let dd = DummyData::doc_of(v);
    let stored = dd.push(("_id"@, ValV::Id(b)));
    let id_s = hex_encode(b);
    // The shaped record itself carries no store-native identifier field, so
    // result translation touches only the appended one.
    assert(translate_ids(dd) =~= dd) by {
        let d0 = Seq::<(Seq<char>, ValV)>::empty();
        let d1 = if v.name is Some {
            d0.push(("name"@, ValV::Str(v.name->0)))
        } else {
            d0
        };
        assert(dd == if v.age is Some {
            d1.push(("age"@, ValV::Int(v.age->0 as i64)))
        } else {
            d1
        });
        assert forall|j: int| 0 <= j < dd.len() implies translate_entry(#[trigger] dd[j]) == dd[j]
        by {
            assert(dd[j].0 == "name"@ || dd[j].0 == "age"@);
        }
    }
    assert(translate_ids(stored) =~= dd.push(("id"@, ValV::Str(id_s)))) by {
        assert(translate_entry(("_id"@, ValV::Id(b))) == ("id"@, ValV::Str(id_s)));
        assert forall|j: int|
            0 <= j < stored.len() implies translate_ids(stored)[j] == dd.push(
            ("id"@, ValV::Str(id_s)),
        )[j] by {
            if j < dd.len() {
                assert(translate_entry(stored[j]) == translate_entry(dd[j]));
                assert(translate_entry(dd[j]) == translate_ids(dd)[j]);
            }
        }
    }
    let td = dd.push(("id"@, ValV::Str(id_s)));
    lemma_dummy_doc_lookups(v);
    assert(lookup(td, "id"@) == Some(ValV::Str(id_s)));
    assert(lookup(td, "name"@) == lookup(dd, "name"@));
    assert(lookup(td, "age"@) == lookup(dd, "age"@));
}

/// The shaped form of an identifier filter on the example entity is the
/// single store-native identifier constraint.
proof fn lemma_example_id_filter_shape(b: Seq<u8>)
    requires
        b.len() == 12,
    ensures
        filter_shape(Example::doc_of(example_id_filter_v(hex_encode(b)))) == seq![
            ("_id"@, ValV::Id(b)),
        ],
{
    broadcast use lemma_lookup_push;

    reveal_with_fuel(flatten_with, 3);
    lemma_hex_round_trip(b);
    let id_s = hex_encode(b);
    let fdoc = Example::doc_of(example_id_filter_v(id_s));
    assert(fdoc =~= seq![("id"@, ValV::Str(id_s))]);
    assert(fdoc.drop_last() =~= Seq::<(Seq<char>, ValV)>::empty());
    assert(flat(fdoc) =~= seq![(Seq::<char>::empty() + "id"@, ValV::Str(id_s))]);
    assert(Seq::<char>::empty() + "id"@ =~= "id"@);
    assert(flat(fdoc) =~= seq![("id"@, ValV::Str(id_s))]);
    assert(convert_entry(("id"@, ValV::Str(id_s))) == ("_id"@, ValV::Id(b)));
    assert(convert_ids(flat(fdoc)) =~= seq![("_id"@, ValV::Id(b))]);
}

/// A stored example document translates back to the record it was shaped
/// from, with the identifier field populated.
proof fn lemma_example_translate_back(v: ExampleV, b: Seq<u8>)
    requires
        v.id is None,
        b.len() == 12,
    ensures
        Example::of_doc(translate_ids(Example::doc_of(v).push(("_id"@, ValV::Id(b)))))
            == Some(example_with_id(v, hex_encode(b))),
{
    broadcast use lemma_lookup_push;

    reveal_strlit("_id");
    reveal_strlit("id");
    reveal_strlit("name");
    reveal_strlit("description");
    reveal_strlit("skills");
    assert("_id"@.len() == 3);
    assert("id"@.len() == 2);
    assert("name"@.len() == 4);
    assert("description"@.len() == 11);
    assert("skills"@.len() == 6);
    let dd = Example::doc_of(v);
    let stored = dd.push(("_id"@, ValV::Id(b)));
    let id_s = hex_encode(b);
    assert(translate_ids(dd) =~= dd) by {
        let d0 = Seq::<(Seq<char>, ValV)>::empty();
        let d1 = if v.name is Some {
            d0.push(("name"@, ValV::Str(v.name->0)))
        } else {
            d0
        };
        let d2 = if v.description is Some {
            d1.push(("description"@, ValV::Str(v.description->0)))
        } else {
            d1
        };
        assert(dd == if v.skills is Some {
            d2.push(("skills"@, ValV::StrList(v.skills->0)))
        } else {
            d2
        });
        assert forall|j: int| 0 <= j < dd.len() implies translate_entry(#[trigger] dd[j]) == dd[j]
        by {
            assert(dd[j].0 == "name"@ || dd[j].0 == "description"@ || dd[j].0 == "skills"@);
        }
    }
    assert(translate_ids(stored) =~= dd.push(("id"@, ValV::Str(id_s)))) by {
        assert(translate_entry(("_id"@, ValV::Id(b))) == ("id"@, ValV::Str(id_s)));
        assert forall|j: int|
            0 <= j < stored.len() implies translate_ids(stored)[j] == dd.push(
            ("id"@, ValV::Str(id_s)),
        )[j] by {
            if j < dd.len() {
                assert(translate_entry(stored[j]) == translate_entry(dd[j]));
                assert(translate_entry(dd[j]) == translate_ids(dd)[j]);
            }
        }
    }
    let td = dd.push(("id"@, ValV::Str(id_s)));
    crate::example::lemma_example_doc_lookups(v);
    assert(lookup(td, "id"@) == Some(ValV::Str(id_s)));
    assert(lookup(td, "name"@) == lookup(dd, "name"@));
    assert(lookup(td, "description"@) == lookup(dd, "description"@));
    assert(lookup(td, "skills"@) == lookup(dd, "skills"@));
}

/// Round trip for the generated example entity: as below, but for the
/// entity the schema rules derive.
pub proof fn lemma_create_get_round_trip_example(col: Seq<DocV>, v: ExampleV, n: u64, bound: u64)
    requires
        v.id is None,
        forall|i: int| 0 <= i < col.len() ==> id_bounded(#[trigger] col[i], bound),
        bound <= n,
    ensures
        ({
            let id_s = hex_encode(ObjectId::of_counter(n));
            let stored = Example::doc_of(v).push(("_id"@, ValV::Id(ObjectId::of_counter(n))));
            let filt = filter_shape(Example::doc_of(example_id_filter_v(id_s)));
            &&& first_match(col.push(stored), filt) == Some(stored)
            &&& Example::of_doc(translate_ids(stored)) == Some(example_with_id(v, id_s))
        }),
{
    broadcast use lemma_lookup_push;

    reveal_strlit("_id");
    assert("_id"@.len() == 3);
    assert("_id"@[0] == '_' && "_id"@[1] == 'i' && "_id"@[2] == 'd');
    assert(dot_free("_id"@));
    let fresh = ObjectId::of_counter(n);
    let id_s = hex_encode(fresh);
    let stored = Example::doc_of(v).push(("_id"@, ValV::Id(fresh)));
    let filt = filter_shape(Example::doc_of(example_id_filter_v(id_s)));
    lemma_example_id_filter_shape(fresh);
    assert(filt == seq![("_id"@, ValV::Id(fresh))]);
    assert(lookup(stored, "_id"@) == Some(ValV::Id(fresh)));
    lemma_lookup_flat(stored, "_id"@);
    assert(lookup(flat(stored), "_id"@) == Some(ValV::Id(fresh)));
    assert(satisfies(filt, stored));
    assert forall|i: int| 0 <= i < col.len() implies !satisfies(filt, #[trigger] col[i]) by {
        let m = choose|m: u64|
            m < bound && lookup(col[i], "_id"@) == Some(ValV::Id(ObjectId::of_counter(m)));
        lemma_lookup_flat(col[i], "_id"@);
        assert(lookup(flat(col[i]), "_id"@) == Some(ValV::Id(ObjectId::of_counter(m))));
        if ObjectId::of_counter(m) == ObjectId::of_counter(n) {
            crate::oid::lemma_of_counter_injective(m, n);
        }
        assert(lookup(flat(col[i]), "_id"@) != Some(filt[0].1));
    }
    lemma_first_match_at(col.push(stored), filt, Seq::empty(), col.len() as int);
    assert(col.push(stored)[col.len() as int] == stored);
    lemma_example_translate_back(v, fresh);
}

/// Round trip: a record without a pre-set identifier, created into any
/// well-formed collection contents, is selected by the filter on its
/// returned identifier string — and by nothing else stored before it — and
/// reads back structurally equal to the original, except for the populated
/// identifier field.
pub proof fn lemma_create_get_round_trip(col: Seq<DocV>, v: DummyDataV, n: u64, bound: u64)
    requires
        v.id is None,
        forall|i: int| 0 <= i < col.len() ==> id_bounded(#[trigger] col[i], bound),
        bound <= n,
    ensures
        ({
            let id_s = hex_encode(ObjectId::of_counter(n));
            let stored = DummyData::doc_of(v).push(
                ("_id"@, ValV::Id(ObjectId::of_counter(n))),
            );
            let filt = filter_shape(DummyData::doc_of(dummy_id_filter_v(id_s)));
            &&& first_match(col.push(stored), filt) == Some(stored)
            &&& DummyData::of_doc(translate_ids(stored)) == Some(dummy_with_id(v, id_s))
        }),
{
    broadcast use lemma_lookup_push;

    reveal_strlit("_id");
    assert("_id"@.len() == 3);
    assert("_id"@[0] == '_' && "_id"@[1] == 'i' && "_id"@[2] == 'd');
    assert(dot_free("_id"@));
    let fresh = ObjectId::of_counter(n);
    let id_s = hex_encode(fresh);
    let stored = DummyData::doc_of(v).push(("_id"@, ValV::Id(fresh)));
    let filt = filter_shape(DummyData::doc_of(dummy_id_filter_v(id_s)));
    lemma_dummy_id_filter_shape(fresh);
    assert(filt == seq![("_id"@, ValV::Id(fresh))]);
    // The created document satisfies the identifier filter.
    assert(lookup(stored, "_id"@) == Some(ValV::Id(fresh)));
    lemma_lookup_flat(stored, "_id"@);
    assert(lookup(flat(stored), "_id"@) == Some(ValV::Id(fresh)));
    assert(satisfies(filt, stored));
    // Nothing stored before it does: every earlier identifier was minted
    // below the new one.
    assert forall|i: int| 0 <= i < col.len() implies !satisfies(filt, #[trigger] col[i]) by {
        let m = choose|m: u64|
            m < bound && lookup(col[i], "_id"@) == Some(ValV::Id(ObjectId::of_counter(m)));
        lemma_lookup_flat(col[i], "_id"@);
        assert(lookup(flat(col[i]), "_id"@) == Some(ValV::Id(ObjectId::of_counter(m))));
        if ObjectId::of_counter(m) == ObjectId::of_counter(n) {
            crate::oid::lemma_of_counter_injective(m, n);
        }
        assert(lookup(flat(col[i]), "_id"@) != Some(filt[0].1));
    }
    lemma_first_match_at(col.push(stored), filt, Seq::empty(), col.len() as int);
    assert(col.push(stored)[col.len() as int] == stored);
    lemma_dummy_translate_back(v, ObjectId::of_counter(n));
}

} // verus!
