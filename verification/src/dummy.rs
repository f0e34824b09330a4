//! A minimal flat entity and controller, used by the test suite to exercise
//! the CRUD engine directly.

use vstd::prelude::*;

use crate::base::{DbBmc, Record};
use crate::value::{
    lookup, opt_view, read_str_field, read_u32_field, str_field, str_field_ok, u32_field,
    u32_field_ok, Doc, DocV, ValV, Value,
};

verus! {

/// The shape of a test record.
pub struct DummyDataV {
    pub id: Option<Seq<char>>,
    pub name: Option<Seq<char>>,
    pub age: Option<u32>,
}

/// A minimal flat entity: a name and an age, plus the identifier the store
/// assigns.
#[derive(Debug)]
pub struct DummyData {
    pub id: Option<String>,
    pub name: Option<String>,
    pub age: Option<u32>,
}

impl View for DummyData {
    type V = DummyDataV;

    open spec fn view(&self) -> DummyDataV {
        DummyDataV { id: opt_view(self.id), name: opt_view(self.name), age: self.age }
    }
}

impl Default for DummyData {
    fn default() -> (r: Self)
        ensures
            r@ == (DummyDataV { id: None, name: None, age: None }),
    {
        DummyData { id: None, name: None, age: None }
    }
}

impl Record for DummyData {
    open spec fn doc_of(v: DummyDataV) -> DocV {
        let d0 = Seq::<(Seq<char>, ValV)>::empty();
        let d1 = if v.id is Some {
            d0.push(("id"@, ValV::Str(v.id->0)))
        } else {
            d0
        };
        let d2 = if v.name is Some {
            d1.push(("name"@, ValV::Str(v.name->0)))
        } else {
            d1
        };
        if v.age is Some {
            d2.push(("age"@, ValV::Int(v.age->0 as i64)))
        } else {
            d2
        }
    }

    open spec fn of_doc(d: DocV) -> Option<DummyDataV> {
        if str_field_ok(lookup(d, "id"@)) && str_field_ok(lookup(d, "name"@)) && u32_field_ok(
            lookup(d, "age"@),
        ) {
            Some(
                DummyDataV {
                    id: str_field(lookup(d, "id"@)),
                    name: str_field(lookup(d, "name"@)),
                    age: u32_field(lookup(d, "age"@)),
                },
            )
        } else {
            None
        }
    }

    fn to_doc(&self) -> (r: Doc) {
        let mut r = Doc::new();
        if let Some(s) = &self.id {
            r.insert("id".to_owned(), Value::Str(s.clone()));
        }
        if let Some(s) = &self.name {
            r.insert("name".to_owned(), Value::Str(s.clone()));
        }
        if let Some(a) = &self.age {
            r.insert("age".to_owned(), Value::Int(*a as i64));
        }
        proof {
            assert(r@ =~= Self::doc_of(self@));
        }
        r
    }

    fn from_doc(d: &Doc) -> (r: Option<Self>) {
        let id = match read_str_field(d, &"id".to_owned()) {
            Some(o) => o,
            None => { return None; },
        };
        let name = match read_str_field(d, &"name".to_owned()) {
            Some(o) => o,
            None => { return None; },
        };
        let age = match read_u32_field(d, &"age".to_owned()) {
            Some(o) => o,
            None => { return None; },
        };
        Some(DummyData { id, name, age })
    }

    proof fn lemma_no_store_id(v: DummyDataV) {
        lemma_dummy_doc_lookups(v);
    }
}

/// What each field of a test-record document looks up to.
pub proof fn lemma_dummy_doc_lookups(v: DummyDataV)
    ensures
        lookup(DummyData::doc_of(v), "id"@) == match v.id {
            Some(s) => Some(ValV::Str(s)),
            None => None::<ValV>,
        },
        lookup(DummyData::doc_of(v), "name"@) == match v.name {
            Some(s) => Some(ValV::Str(s)),
            None => None::<ValV>,
        },
        lookup(DummyData::doc_of(v), "age"@) == match v.age {
            Some(a) => Some(ValV::Int(a as i64)),
            None => None::<ValV>,
        },
        lookup(DummyData::doc_of(v), "_id"@) is None,
{
    broadcast use crate::value::lemma_lookup_push;

    reveal_strlit("_id");
    reveal_strlit("id");
    reveal_strlit("name");
    reveal_strlit("age");
    assert("_id"@.len() == 3);
    assert("id"@.len() == 2);
    assert("name"@.len() == 4);
    assert("age"@.len() == 3);
    assert("age"@[0] == 'a' && "_id"@[0] == '_');
}

/// The controller the test records run under.
pub struct DummyMC;

impl DbBmc for DummyMC {
    open spec fn table_spec() -> Seq<char> {
        "dummy_collection_for_testing"@
    }

    fn table_ref() -> (r: String) {
        "dummy_collection_for_testing".to_owned()
    }

    fn has_owner_id() -> bool {
        true
    }
}

} // verus!
