//! The example entity, with the record family the schema rules derive from
//! it: `ExampleForCreate` and `ExampleForUpdate` (every field optional, the
//! identifier excluded), `ExampleFilter` (every field optional, the
//! identifier kept), conversions of each into the full entity, and the
//! controller binding the entity to its collection.

use vstd::prelude::*;

use crate::base::{create, delete, get, list, update, DbBmc, Record};
use crate::ctx::Ctx;
use crate::error::Error;
use crate::oid::hex_encode;
use crate::oid::is_oid_string;
use crate::oid::ObjectId;
use crate::store::{apply_update, first_match, matching, remove_first, ModelManager};
use crate::value::{
    list_field, list_field_ok, lookup, opt_list_view, opt_view, read_list_field,
    read_str_field, str_field, str_field_ok, translate_ids, Doc, DocV, ValV, Value,
};
use crate::base::filter_shape;
use crate::base::id_filter;

verus! {

/// The shape of an example record: each attribute present or absent.
pub struct ExampleV {
    pub id: Option<Seq<char>>,
    pub name: Option<Seq<char>>,
    pub description: Option<Seq<char>>,
    pub skills: Option<Seq<Seq<char>>>,
}

/// The example entity. The identifier is absent before creation and carries
/// the store-assigned identifier string after.
#[derive(Debug)]
pub struct Example {
    pub id: Option<String>,
    pub name: Option<String>,
    pub description: Option<String>,
    pub skills: Option<Vec<String>>,
}

impl View for Example {
    type V = ExampleV;

    open spec fn view(&self) -> ExampleV {
        ExampleV {
            id: opt_view(self.id),
            name: opt_view(self.name),
            description: opt_view(self.description),
            skills: opt_list_view(self.skills),
        }
    }
}

impl Default for Example {
    fn default() -> (r: Self)
        ensures
            r@ == (ExampleV {
                id: None,
                name: None,
                description: None,
                skills: None,
            }),
    {
        Example { id: None, name: None, description: None, skills: None }
    }
}

impl Record for Example {
    open spec fn doc_of(v: ExampleV) -> DocV {
        let d0 = Seq::<(Seq<char>, ValV)>::empty();
        let d1 = if v.id is Some {
            d0.push(("id"@, ValV::Str(v.id->0)))
        } else {
            d0
        };
        let d2 = if v.name is Some {
            d1.push(("name"@, ValV::Str(v.name->0)))
        } else {
            d1
        };
        let d3 = if v.description is Some {
            d2.push(("description"@, ValV::Str(v.description->0)))
        } else {
            d2
        };
        if v.skills is Some {
            d3.push(("skills"@, ValV::StrList(v.skills->0)))
        } else {
            d3
        }
    }

    open spec fn of_doc(d: DocV) -> Option<ExampleV> {
        if str_field_ok(lookup(d, "id"@)) && str_field_ok(lookup(d, "name"@)) && str_field_ok(
            lookup(d, "description"@),
        ) && list_field_ok(lookup(d, "skills"@)) {
            Some(
                ExampleV {
                    id: str_field(lookup(d, "id"@)),
                    name: str_field(lookup(d, "name"@)),
                    description: str_field(lookup(d, "description"@)),
                    skills: list_field(lookup(d, "skills"@)),
                },
            )
        } else {
            None
        }
    }

    fn to_doc(&self) -> (r: Doc) {
        let mut r = Doc::new();
        if let Some(s) = &self.id {
            r.insert("id".to_owned(), Value::Str(s.clone()));
        }
        if let Some(s) = &self.name {
            r.insert("name".to_owned(), Value::Str(s.clone()));
        }
        if let Some(s) = &self.description {
            r.insert("description".to_owned(), Value::Str(s.clone()));
        }
        if let Some(l) = &self.skills {
            r.insert("skills".to_owned(), Value::StrList(clone_skills(l)));
        }
        proof {
            assert(r@ =~= Self::doc_of(self@));
        }
        r
    }

    fn from_doc(d: &Doc) -> (r: Option<Self>) {
        let id = match read_str_field(d, &"id".to_owned()) {
            Some(o) => o,
            None => { return None; },
        };
        let name = match read_str_field(d, &"name".to_owned()) {
            Some(o) => o,
            None => { return None; },
        };
        let description = match read_str_field(d, &"description".to_owned()) {
            Some(o) => o,
            None => { return None; },
        };
        let skills = match read_list_field(d, &"skills".to_owned()) {
            Some(o) => o,
            None => { return None; },
        };
        Some(Example { id, name, description, skills })
    }

    proof fn lemma_no_store_id(v: ExampleV) {
        reveal_strlit("_id");
        reveal_strlit("id");
        reveal_strlit("name");
        reveal_strlit("description");
        reveal_strlit("skills");
        lemma_example_doc_lookups(v);
    }
}

/// What each field of an example document looks up to.
pub(crate) proof fn lemma_example_doc_lookups(v: ExampleV)
    ensures
        lookup(Example::doc_of(v), "id"@) == match v.id {
            Some(s) => Some(ValV::Str(s)),
            None => None::<ValV>,
        },
        lookup(Example::doc_of(v), "name"@) == match v.name {
            Some(s) => Some(ValV::Str(s)),
            None => None::<ValV>,
        },
        lookup(Example::doc_of(v), "description"@) == match v.description {
            Some(s) => Some(ValV::Str(s)),
            None => None::<ValV>,
        },
        lookup(Example::doc_of(v), "skills"@) == match v.skills {
            Some(l) => Some(ValV::StrList(l)),
            None => None::<ValV>,
        },
        lookup(Example::doc_of(v), "_id"@) is None,
{
    broadcast use crate::value::lemma_lookup_push;

    reveal_strlit("_id");
    reveal_strlit("id");
    reveal_strlit("name");
    reveal_strlit("description");
    reveal_strlit("skills");
    assert("id"@.len() == 2);
    assert("name"@.len() == 4);
    assert("description"@.len() == 11);
    assert("skills"@.len() == 6);
    assert("_id"@.len() == 3);
    assert("id"@ != "name"@ && "id"@ != "description"@ && "id"@ != "skills"@ && "id"@ != "_id"@);
    assert("name"@ != "description"@ && "name"@ != "skills"@ && "name"@ != "_id"@);
    assert("description"@ != "skills"@ && "description"@ != "_id"@);
    assert("skills"@ != "_id"@);
    let d0 = Seq::<(Seq<char>, ValV)>::empty();
    let d1 = if v.id is Some {
        d0.push(("id"@, ValV::Str(v.id->0)))
    } else {
        d0
    };
    let d2 = if v.name is Some {
        d1.push(("name"@, ValV::Str(v.name->0)))
    } else {
        d1
    };
    let d3 = if v.description is Some {
        d2.push(("description"@, ValV::Str(v.description->0)))
    } else {
        d2
    };
    let d4 = if v.skills is Some {
        d3.push(("skills"@, ValV::StrList(v.skills->0)))
    } else {
        d3
    };
    assert(Example::doc_of(v) == d4);
    assert(lookup(d4, "id"@) == lookup(d1, "id"@));
    assert(lookup(d4, "name"@) == lookup(d2, "name"@));
    assert(lookup(d4, "description"@) == lookup(d3, "description"@));
    assert(lookup(d1, "id"@) == (match v.id {
        Some(s) => Some(ValV::Str(s)),
        None => None::<ValV>,
    }));
    assert(lookup(d2, "name"@) == (match v.name {
        Some(s) => Some(ValV::Str(s)),
        None => None::<ValV>,
    }));
    assert(lookup(d3, "description"@) == (match v.description {
        Some(s) => Some(ValV::Str(s)),
        None => None::<ValV>,
    }));
    assert(lookup(d4, "skills"@) == (match v.skills {
        Some(l) => Some(ValV::StrList(l)),
        None => None::<ValV>,
    }));
    assert(lookup(d4, "_id"@) is None);
}

/// The record supplied to create an example: every entity field except the
/// identifier, optional. Absent fields are never written.
#[derive(Debug)]
pub struct ExampleForCreate {
    pub name: Option<String>,
    pub description: Option<String>,
    pub skills: Option<Vec<String>>,
}

/// The record supplied to update an example: every entity field except the
/// identifier, optional. Supplied fields replace stored values; absent
/// fields are left untouched.
#[derive(Debug)]
pub struct ExampleForUpdate {
    pub name: Option<String>,
    pub description: Option<String>,
    pub skills: Option<Vec<String>>,
}

/// The record used to select examples: every entity field optional, the
/// identifier included. Absent fields impose no constraint.
#[derive(Debug)]
pub struct ExampleFilter {
    pub id: Option<String>,
    pub name: Option<String>,
    pub description: Option<String>,
    pub skills: Option<Vec<String>>,
}

impl View for ExampleForCreate {
    type V = ExampleV;

    open spec fn view(&self) -> ExampleV {
        ExampleV {
            id: None,
            name: opt_view(self.name),
            description: opt_view(self.description),
            skills: opt_list_view(self.skills),
        }
    }
}

impl View for ExampleForUpdate {
    type V = ExampleV;

    open spec fn view(&self) -> ExampleV {
        ExampleV {
            id: None,
            name: opt_view(self.name),
            description: opt_view(self.description),
            skills: opt_list_view(self.skills),
        }
    }
}

impl View for ExampleFilter {
    type V = ExampleV;

    open spec fn view(&self) -> ExampleV {
        ExampleV {
            id: opt_view(self.id),
            name: opt_view(self.name),
            description: opt_view(self.description),
            skills: opt_list_view(self.skills),
        }
    }
}

impl Default for ExampleForCreate {
    fn default() -> (r: Self)
        ensures
            r@ == (ExampleV { id: None, name: None, description: None, skills: None }),
    {
        ExampleForCreate { name: None, description: None, skills: None }
    }
}

impl Default for ExampleForUpdate {
    fn default() -> (r: Self)
        ensures
            r@ == (ExampleV { id: None, name: None, description: None, skills: None }),
    {
        ExampleForUpdate { name: None, description: None, skills: None }
    }
}

impl Default for ExampleFilter {
    fn default() -> (r: Self)
        ensures
            r@ == (ExampleV { id: None, name: None, description: None, skills: None }),
    {
        ExampleFilter { id: None, name: None, description: None, skills: None }
    }
}

impl ExampleForCreate {
    /// Converts into the full entity: every field not present in this record
    /// becomes absent.
    pub fn into_entity(self) -> (r: Example)
        ensures
            r@ == self@,
    {
        Example { id: None, name: self.name, description: self.description, skills: self.skills }
    }
}

impl ExampleForUpdate {
    /// Converts into the full entity: every field not present in this record
    /// becomes absent.
    pub fn into_entity(self) -> (r: Example)
        ensures
            r@ == self@,
    {
        Example { id: None, name: self.name, description: self.description, skills: self.skills }
    }
}

impl ExampleFilter {
    /// Converts into the full entity shape used for matching.
    pub fn into_entity(self) -> (r: Example)
        ensures
            r@ == self@,
    {
        Example {
            id: self.id,
            name: self.name,
            description: self.description,
            skills: self.skills,
        }
    }
}

/// The shape an absent filter argument defaults to: it matches everything.
pub open spec fn example_filter_default() -> ExampleV {
    ExampleV { id: None, name: None, description: None, skills: None }
}

/// The shape a filter argument denotes: the given filter, or the default.
pub open spec fn example_filter_view(o: Option<ExampleFilter>) -> ExampleV {
    match o {
        Some(f) => f@,
        None => example_filter_default(),
    }
}

/// The controller of the example entity: stateless, it binds the entity to
/// its collection and exposes the typed CRUD operations.
pub struct ExampleBmc;

impl DbBmc for ExampleBmc {
    open spec fn table_spec() -> Seq<char> {
        "ExampleController"@
    }

    fn table_ref() -> (r: String) {
        "ExampleController".to_owned()
    }
}

impl ExampleBmc {
    /// Converts the partial record into the full entity and creates it in
    /// the tenant's collection; returns the store-assigned identifier.
    pub fn create(ctx: &Ctx, mm: &mut ModelManager, input: ExampleForCreate) -> (r: Result<
        String,
        Error,
    >)
        requires
            old(mm).wf(),
            old(mm).can_assign_id(),
        ensures
            final(mm).wf(),
            r is Ok,
            r matches Ok(id) ==> {
                &&& id@ == hex_encode(ObjectId::of_counter(old(mm).next_id_spec()))
                &&& final(mm).collection(ctx.tenant_id_spec(), Self::table_spec()) == old(mm).collection(ctx.tenant_id_spec(), Self::table_spec()).push(
                    Example::doc_of(input@).push(
                        ("_id"@, ValV::Id(ObjectId::of_counter(old(mm).next_id_spec()))),
                    ),
                )
                &&& final(mm).next_id_spec() == old(mm).next_id_spec() + 1
            },
            forall|t2: Seq<char>, c2: Seq<char>|
                t2 != ctx.tenant_id_spec() || c2 != Self::table_spec() ==> #[trigger] final(mm).collection(t2, c2) == old(mm).collection(t2, c2),
    {
        let entity = input.into_entity();
        create::<Self, Example>(ctx, mm, entity)
    }

    /// Converts the partial record into the full entity and applies it as an
    /// update to the document with the given identifier.
    pub fn update(ctx: &Ctx, mm: &mut ModelManager, id: &String, input: ExampleForUpdate) -> (r:
        Result<(), Error>)
        requires
            old(mm).wf(),
        ensures
            final(mm).wf(),
            r is Err <==> !is_oid_string(id@),
            r matches Err(e) ==> e is ObIdError && *final(mm) == *old(mm),
            r is Ok ==> {
                &&& final(mm).collection(ctx.tenant_id_spec(), Self::table_spec()) == apply_update(
                    old(mm).collection(ctx.tenant_id_spec(), Self::table_spec()),
                    id_filter(id@),
                    Example::doc_of(input@),
                )
                &&& final(mm).next_id_spec() == old(mm).next_id_spec()
            },
            forall|t2: Seq<char>, c2: Seq<char>|
                t2 != ctx.tenant_id_spec() || c2 != Self::table_spec() ==> #[trigger] final(mm).collection(t2, c2) == old(mm).collection(t2, c2),
    {
        let entity = input.into_entity();
        update::<Self, Example>(ctx, mm, id, entity)
    }

    /// Fetches the first example matching the filter (or any example at all
    /// when no filter is given). Fails with `ReadError` exactly when nothing
    /// matches or the stored document does not read back.
    pub fn get(ctx: &Ctx, mm: &ModelManager, filter: Option<ExampleFilter>) -> (r: Result<
        Example,
        Error,
    >)
        ensures
            ({
                let found = first_match(
                    mm.collection(ctx.tenant_id_spec(), Self::table_spec()),
                    filter_shape(Example::doc_of(example_filter_view(filter))),
                );
                match found {
                    None => r matches Err(e) && e is ReadError,
                    Some(d) => match Example::of_doc(translate_ids(d)) {
                        Some(v) => r matches Ok(x) && x@ == v,
                        None => r matches Err(e) && e is ReadError,
                    },
                }
            }),
    {
        let stru = match filter {
            Some(f) => f,
            None => ExampleFilter::default(),
        };
        let entity = stru.into_entity();
        get::<Self, Example>(ctx, mm, entity)
    }

    /// Fetches every example matching the filter (or every example at all
    /// when no filter is given), in stored order.
    pub fn list(ctx: &Ctx, mm: &ModelManager, filter: Option<ExampleFilter>) -> (r: Result<
        Vec<Example>,
        Error,
    >)
        ensures
            ({
                let sel = matching(
                    mm.collection(ctx.tenant_id_spec(), Self::table_spec()),
                    filter_shape(Example::doc_of(example_filter_view(filter))),
                );
                match r {
                    Ok(v) => {
                        &&& v@.len() == sel.len()
                        &&& forall|i: int|
                            0 <= i < sel.len() ==> Example::of_doc(translate_ids(sel[i])) == Some(
                                (#[trigger] v@[i])@,
                            )
                    },
                    Err(e) => e is QueryError,
                }
            }),
    {
        let stru = match filter {
            Some(f) => f,
            None => ExampleFilter::default(),
        };
        let entity = stru.into_entity();
        list::<Self, Example>(ctx, mm, entity)
    }

    /// Deletes the first example matching the filter (or the first example
    /// at all when no filter is given).
    pub fn delete(ctx: &Ctx, mm: &mut ModelManager, filter: Option<ExampleFilter>) -> (r: Result<
        (),
        Error,
    >)
        requires
            old(mm).wf(),
        ensures
            final(mm).wf(),
            r is Ok,
            final(mm).collection(ctx.tenant_id_spec(), Self::table_spec()) == remove_first(
                old(mm).collection(ctx.tenant_id_spec(), Self::table_spec()),
                filter_shape(Example::doc_of(example_filter_view(filter))),
            ),
            final(mm).next_id_spec() == old(mm).next_id_spec(),
            forall|t2: Seq<char>, c2: Seq<char>|
                t2 != ctx.tenant_id_spec() || c2 != Self::table_spec() ==> #[trigger] final(mm).collection(t2, c2) == old(mm).collection(t2, c2),
    {
        let stru = match filter {
            Some(f) => f,
            None => ExampleFilter::default(),
        };
        let entity = stru.into_entity();
        delete::<Self, Example>(ctx, mm, entity)
    }
}

/// Deep copy of a skills list.
fn clone_skills(l: &Vec<String>) -> (r: Vec<String>)
    ensures
        r@.map_values(|s: String| s@) == l@.map_values(|s: String| s@),
{
    let mut out: Vec<String> = Vec::new();
    let n = l.len();
    let mut i: usize = 0;
    while i < n
        invariant
            0 <= i <= n,
            n == l@.len(),
            out@.len() == i,
            forall|j: int| 0 <= j < i ==> out@[j]@ == l@[j]@,
        decreases n - i,
    {
        out.push(l[i].clone());
        i = i + 1;
    }
    proof {
        assert(out@.map_values(|s: String| s@) =~= l@.map_values(|s: String| s@));
    }
    out
}

} // verus!
