//! The generic CRUD engine: create, get, update, list and delete over any
//! entity type implementing the serialization contract, bound to a
//! collection by a controller type.
//!
//! Every operation resolves the tenant database from the request context's
//! tenant identifier at call time; that routing is the sole isolation
//! mechanism, and each contract states that no other tenant's data is read
//! or written.

use vstd::prelude::*;

use crate::ctx::Ctx;
use crate::error::Error;
use crate::oid::{hex_decode, hex_encode, is_oid_string, ObjectId};
use crate::store::{
    apply_update, docs_view, first_match, matching, remove_first, ModelManager,
};
use crate::value::{
    convert_ids, flat, lookup, translate_ids, convert_filter_ids, make_filter_doc,
    store_id_field_name, translate_result_ids, Doc, DocV, ValV, Value,
};

verus! {

/// Binds a controller type to the store collection it manages.
pub trait DbBmc {
    /// The collection name, as a mathematical string.
    spec fn table_spec() -> Seq<char>;

    /// The collection name this controller operates on.
    fn table_ref() -> (r: String)
        ensures
            r@ == Self::table_spec(),
    ;

    /// Whether the managed collection carries an owner column to be set on
    /// create.
    fn has_owner_id() -> bool {
        false
    }
}

/// The serialization contract of a record type: how a value is shaped into
/// a store document (absent fields omitted), and how a fetched document is
/// read back.
pub trait Record: View + Sized {
    /// The document shape of a value: one field per present attribute.
    spec fn doc_of(v: Self::V) -> DocV;

    /// The value a fetched document reads back to, if it reads back at all.
    spec fn of_doc(d: DocV) -> Option<Self::V>;

    /// Shapes the record into its store document, omitting absent fields.
    fn to_doc(&self) -> (r: Doc)
        ensures
            r@ == Self::doc_of(self@),
    ;

    /// Reads a record back from a fetched document.
    fn from_doc(d: &Doc) -> (r: Option<Self>)
        ensures
            match r {
                Some(x) => Self::of_doc(d@) == Some(x@),
                None => Self::of_doc(d@) is None,
            },
    ;

    /// A record never shapes into the store-native identifier field: `_id`
    /// is assigned by the store alone.
    proof fn lemma_no_store_id(v: Self::V)
        ensures
            lookup(Self::doc_of(v), "_id"@) is None,
    ;
}

/// The "set these fields" envelope an update is shipped in.
pub open spec fn update_envelope(d: DocV) -> DocV {
    seq![("$set"@, ValV::Sub(d))]
}

/// The shape a filter record denotes against the store: absent fields
/// omitted, nested records flattened to dotted paths with nulls dropped,
/// and a caller-facing identifier translated to the store-native form.
pub open spec fn filter_shape(d: DocV) -> DocV {
    convert_ids(flat(d))
}

/// The filter selecting exactly the document with the store-native
/// identifier that `s` decodes to.
pub open spec fn id_filter(s: Seq<char>) -> DocV {
    seq![("_id"@, ValV::Id(hex_decode(s)))]
}

/// Update shaping: the record's document (absent fields omitted), wrapped in
/// the "set these fields" envelope. A field the record leaves absent never
/// appears in the envelope, so it can never be nulled by an update.
pub struct Update<S> {
    pub set: S,
}

impl<S: Record> Update<S> {
    pub fn doc(set: S) -> (r: Doc)
        ensures
            r@ == update_envelope(S::doc_of(set@)),
    {
        let mut r = Doc::new();
        r.insert(set_field_name(), Value::Sub(set.to_doc()));
        proof {
            assert(r@ =~= update_envelope(S::doc_of(set@)));
        }
        r
    }
}

/// Insert shaping: the record's document as-is, with absent fields omitted.
pub struct Query<S> {
    pub set: S,
}

impl<S: Record> Query<S> {
    pub fn doc(set: S) -> (r: Self)
        ensures
            r.set == set,
    {
        Self { set }
    }
}

/// Filter shaping: absent fields omitted, nested records flattened into
/// dotted path keys with null fields dropped, and the caller-facing
/// identifier field converted to the store-native form.
pub struct Filter<S> {
    pub set: S,
}

impl<S: Record> Filter<S> {
    pub fn doc(set: S) -> (r: Doc)
        ensures
            r@ == filter_shape(S::doc_of(set@)),
    {
        let d = set.to_doc();
        let flattened = make_filter_doc(&d);
        convert_filter_ids(&flattened)
    }
}

/// The name of the update envelope's single field.
fn set_field_name() -> (r: String)
    ensures
        r@ == "$set"@,
{
    "$set".to_owned()
}

/// Shapes `data` and inserts it into the collection of `MC` within the
/// database of `ctx`'s tenant; returns the store-assigned identifier in its
/// caller-facing string form. The model store accepts every insert, so the
/// call always succeeds; no other collection, of this tenant or any other,
/// is touched.
pub fn create<MC: DbBmc, D: Record>(ctx: &Ctx, mm: &mut ModelManager, data: D) -> (r: Result<
    String,
    Error,
>)
    requires
        old(mm).wf(),
        old(mm).can_assign_id(),
    ensures
        final(mm).wf(),
        r is Ok,
        r matches Ok(id) ==> {
            &&& id@ == hex_encode(ObjectId::of_counter(old(mm).next_id_spec()))
            &&& final(mm).collection(ctx.tenant_id_spec(), MC::table_spec()) == old(mm).collection(ctx.tenant_id_spec(), MC::table_spec()).push(
                D::doc_of(data@).push(
                    ("_id"@, ValV::Id(ObjectId::of_counter(old(mm).next_id_spec()))),
                ),
            )
            &&& final(mm).next_id_spec() == old(mm).next_id_spec() + 1
        },
        forall|t2: Seq<char>, c2: Seq<char>|
            t2 != ctx.tenant_id_spec() || c2 != MC::table_spec() ==> #[trigger] final(mm).collection(t2, c2) == old(mm).collection(t2, c2),
{
    let q = Query::doc(data);
    let doc = q.set.to_doc();
    let tenant = ctx.tenant_id();
    let table = MC::table_ref();
    let oid = mm.store.insert_one(&tenant, &table, doc);
    Ok(oid.to_hex())
}

/// Parses `id` into the store-native identifier form (`ObIdError` exactly
/// when the string is not 24 hexadecimal digits), shapes `data` into a
/// "set these fields" update, and applies it to the document with that
/// identifier in the tenant's database. Fields the update does not mention
/// are never touched, and neither is any other document or collection.
/// An update matching no document is not reported as an error.
pub fn update<MC: DbBmc, D: Record>(
    ctx: &Ctx,
    mm: &mut ModelManager,
    id: &String,
    data: D,
) -> (r: Result<(), Error>)
    requires
        old(mm).wf(),
    ensures
        final(mm).wf(),
        r is Err <==> !is_oid_string(id@),
        r matches Err(e) ==> e is ObIdError && *final(mm) == *old(mm),
        r is Ok ==> {
            &&& final(mm).collection(ctx.tenant_id_spec(), MC::table_spec()) == apply_update(
                old(mm).collection(ctx.tenant_id_spec(), MC::table_spec()),
                id_filter(id@),
                D::doc_of(data@),
            )
            &&& final(mm).next_id_spec() == old(mm).next_id_spec()
        },
        forall|t2: Seq<char>, c2: Seq<char>|
            t2 != ctx.tenant_id_spec() || c2 != MC::table_spec() ==> #[trigger] final(mm).collection(t2, c2) == old(mm).collection(t2, c2),
{
    let object_id = match ObjectId::parse_str(id) {
        Some(o) => o,
        None => { return Err(Error::ObIdError); },
    };
    let mut filter = Doc::new();
    filter.insert(store_id_field_name(), Value::Id(object_id));
    proof {
        assert(filter@ =~= id_filter(id@));
        D::lemma_no_store_id(data@);
    }
    let set_doc = data.to_doc();
    let tenant = ctx.tenant_id();
    let table = MC::table_ref();
    mm.store.update_one(&tenant, &table, &filter, &set_doc);
    Ok(())
}

/// Shapes `filter` and deletes the first matching document of the tenant's
/// collection. Deleting zero matches is not distinguished from deleting
/// one; no other document or collection is touched.
pub fn delete<MC: DbBmc, T: Record>(ctx: &Ctx, mm: &mut ModelManager, filter: T) -> (r: Result<
    (),
    Error,
>)
    requires
        old(mm).wf(),
    ensures
        final(mm).wf(),
        r is Ok,
        final(mm).collection(ctx.tenant_id_spec(), MC::table_spec()) == remove_first(
            old(mm).collection(ctx.tenant_id_spec(), MC::table_spec()),
            filter_shape(T::doc_of(filter@)),
        ),
        final(mm).next_id_spec() == old(mm).next_id_spec(),
        forall|t2: Seq<char>, c2: Seq<char>|
            t2 != ctx.tenant_id_spec() || c2 != MC::table_spec() ==> #[trigger] final(mm).collection(t2, c2) == old(mm).collection(t2, c2),
{
    let fdoc = Filter::doc(filter);
    let tenant = ctx.tenant_id();
    let table = MC::table_ref();
    mm.store.delete_one(&tenant, &table, &fdoc);
    Ok(())
}

/// Shapes `filter`, fetches the first matching document of the tenant's
/// collection, translates its store-native identifier back into the
/// caller-facing string form, and reads it into a record. Fails with
/// `ReadError` exactly when no document matches or the matching document
/// does not read back.
pub fn get<MC: DbBmc, T: Record>(ctx: &Ctx, mm: &ModelManager, filter: T) -> (r: Result<T, Error>)
    ensures
        ({
            let found = first_match(
                mm.collection(ctx.tenant_id_spec(), MC::table_spec()),
                filter_shape(T::doc_of(filter@)),
            );
            match found {
                None => r matches Err(e) && e is ReadError,
                Some(d) => match T::of_doc(translate_ids(d)) {
                    Some(v) => r matches Ok(x) && x@ == v,
                    None => r matches Err(e) && e is ReadError,
                },
            }
        }),
{
    let fdoc = Filter::doc(filter);
    let tenant = ctx.tenant_id();
    let table = MC::table_ref();
    match mm.store.find_one(&tenant, &table, &fdoc) {
        None => Err(Error::ReadError),
        Some(d) => {
            let td = translate_result_ids(&d);
            match T::from_doc(&td) {
                Some(x) => Ok(x),
                None => Err(Error::ReadError),
            }
        },
    }
}

/// Shapes `filter`, fetches every matching document of the tenant's
/// collection in stored order, translates each identifier, and reads each
/// document into a record. A single document that does not read back fails
/// the whole call with `QueryError`; there is no partial result.
pub fn list<MC: DbBmc, T: Record>(ctx: &Ctx, mm: &ModelManager, filter: T) -> (r: Result<
    Vec<T>,
    Error,
>)
    ensures
        ({
            let sel = matching(
                mm.collection(ctx.tenant_id_spec(), MC::table_spec()),
                filter_shape(T::doc_of(filter@)),
            );
            match r {
                Ok(v) => {
                    &&& v@.len() == sel.len()
                    &&& forall|i: int|
                        0 <= i < sel.len() ==> T::of_doc(translate_ids(sel[i])) == Some(
                            (#[trigger] v@[i])@,
                        )
                },
                Err(e) => {
                    &&& e is QueryError
                    &&& exists|i: int|
                        0 <= i < sel.len() && T::of_doc(translate_ids(#[trigger] sel[i])) is None
                },
            }
        }),
{
    let fdoc = Filter::doc(filter);
    let tenant = ctx.tenant_id();
    let table = MC::table_ref();
    let docs = mm.store.find_all(&tenant, &table, &fdoc);
    let ghost sel = matching(
        mm.collection(ctx.tenant_id_spec(), MC::table_spec()),
        filter_shape(T::doc_of(filter@)),
    );
    let n = docs.len();
    let mut res: Vec<T> = Vec::new();
    let mut i: usize = 0;
    while i < n
        invariant
            0 <= i <= n,
            n == docs@.len(),
            docs_view(docs@) == sel,
            sel == matching(
                mm.collection(ctx.tenant_id_spec(), MC::table_spec()),
                filter_shape(T::doc_of(filter@)),
            ),
            sel.len() == n,
            res@.len() == i,
            forall|j: int|
                0 <= j < i ==> T::of_doc(translate_ids(sel[j])) == Some((#[trigger] res@[j])@),
        decreases n - i,
    {
        proof {
            assert(docs@[i as int]@ == sel[i as int]);
        }
        let td = translate_result_ids(&docs[i]);
        match T::from_doc(&td) {
            Some(x) => {
                res.push(x);
            },
            None => {
                proof {
                    assert(T::of_doc(translate_ids(sel[i as int])) is None);
                }
                return Err(Error::QueryError);
            },
        }
        i = i + 1;
    }
    Ok(res)
}

} // verus!
