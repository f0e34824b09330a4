//! The RPC surface: the parameter envelopes handlers accept, the five
//! request handlers of the example entity, and the router builder that
//! names them. The outer transport is a collaborator's concern; handlers
//! here take a context and a manager and delegate to the controller.

use vstd::prelude::*;

use crate::ctx::Ctx;
use crate::error::Error;
use crate::example::{
    example_filter_view, Example, ExampleBmc, ExampleFilter, ExampleForCreate, ExampleForUpdate,
    ExampleV,
};
use crate::base::{filter_shape, id_filter, DbBmc, Record};
use crate::oid::{hex_encode, is_oid_string, ObjectId};
use crate::store::{apply_update, first_match, matching, remove_first, ModelManager};
use crate::value::{translate_ids, ValV};

verus! {

/// The "create with payload" parameter envelope.
#[derive(Debug)]
pub struct ParamsForCreate<D> {
    pub data: D,
}

/// The "lookup by identifier" parameter envelope.
#[derive(Debug)]
pub struct ParamsIded {
    pub id: String,
}

/// The "list with optional filter" parameter envelope.
#[derive(Debug)]
pub struct ParamsList<F> {
    pub filter: Option<F>,
}

/// The "update by identifier with payload" parameter envelope.
#[derive(Debug)]
pub struct ParamsForUpdate<D> {
    pub id: String,
    pub data: D,
}

/// The uniform success wrapper every handler returns.
#[derive(Debug)]
pub struct DataRpcResult<T> {
    pub data: T,
}

/// The shape of the filter selecting an example by identifier string.
pub open spec fn example_id_filter_v(id: Seq<char>) -> ExampleV {
    ExampleV { id: Some(id), name: None, description: None, skills: None }
}

/// What a fetch by the given identifier string returns out of the given
/// collection contents: the first matching document, read back, or nothing.
pub open spec fn fetched_by_id(col: Seq<crate::value::DocV>, id: Seq<char>) -> Option<ExampleV> {
    match first_match(col, filter_shape(Example::doc_of(example_id_filter_v(id)))) {
        None => None,
        Some(d) => Example::of_doc(translate_ids(d)),
    }
}

/// Creates the example and returns the post-creation entity state, fetched
/// back by the new identifier.
pub fn create_example(ctx: &Ctx, mm: &mut ModelManager, params: ParamsForCreate<
    ExampleForCreate,
>) -> (r: Result<DataRpcResult<Example>, Error>)
    requires
        old(mm).wf(),
        old(mm).can_assign_id(),
    ensures
        final(mm).wf(),
        final(mm).collection(ctx.tenant_id_spec(), ExampleBmc::table_spec()) == old(mm).collection(
            ctx.tenant_id_spec(),
            ExampleBmc::table_spec(),
        ).push(
            Example::doc_of(params.data@).push(
                ("_id"@, ValV::Id(ObjectId::of_counter(old(mm).next_id_spec()))),
            ),
        ),
        forall|t2: Seq<char>, c2: Seq<char>|
            t2 != ctx.tenant_id_spec() || c2 != ExampleBmc::table_spec()
                ==> #[trigger] final(mm).collection(t2, c2) == old(mm).collection(t2, c2),
        ({
            let id_s = hex_encode(ObjectId::of_counter(old(mm).next_id_spec()));
            let fetched = fetched_by_id(
                final(mm).collection(ctx.tenant_id_spec(), ExampleBmc::table_spec()),
                id_s,
            );
            match r {
                Ok(out) => fetched == Some(out.data@),
                Err(e) => e is ReadError && fetched is None,
            }
        }),
{
    let ParamsForCreate { data } = params;
    let id = match ExampleBmc::create(ctx, mm, data) {
        Ok(id) => id,
        Err(e) => { return Err(e); },
    };
    let mut filter = ExampleFilter::default();
    filter.id = Some(id);
    let entity = match ExampleBmc::get(ctx, mm, Some(filter)) {
        Ok(e) => e,
        Err(e) => { return Err(e); },
    };
    Ok(DataRpcResult { data: entity })
}

/// Fetches the example with the given identifier string.
pub fn get_example(ctx: &Ctx, mm: &ModelManager, params: ParamsIded) -> (r: Result<
    DataRpcResult<Example>,
    Error,
>)
    ensures
        ({
            let fetched = fetched_by_id(
                mm.collection(ctx.tenant_id_spec(), ExampleBmc::table_spec()),
                params.id@,
            );
            match r {
                Ok(out) => fetched == Some(out.data@),
                Err(e) => e is ReadError && fetched is None,
            }
        }),
{
    let ParamsIded { id } = params;
    let mut filter = ExampleFilter::default();
    filter.id = Some(id);
    let entity = match ExampleBmc::get(ctx, mm, Some(filter)) {
        Ok(e) => e,
        Err(e) => { return Err(e); },
    };
    Ok(DataRpcResult { data: entity })
}

/// Lists every example matching the optional filter.
pub fn list_examples(ctx: &Ctx, mm: &ModelManager, params: ParamsList<ExampleFilter>) -> (r:
    Result<DataRpcResult<Vec<Example>>, Error>)
    ensures
        ({
            let sel = matching(
                mm.collection(ctx.tenant_id_spec(), ExampleBmc::table_spec()),
                filter_shape(Example::doc_of(example_filter_view(params.filter))),
            );
            match r {
                Ok(out) => {
                    &&& out.data@.len() == sel.len()
                    &&& forall|i: int|
                        0 <= i < sel.len() ==> Example::of_doc(translate_ids(sel[i])) == Some(
                            (#[trigger] out.data@[i])@,
                        )
                },
                Err(e) => e is QueryError,
            }
        }),
{
    let ParamsList { filter } = params;
    let entities = match ExampleBmc::list(ctx, mm, filter) {
        Ok(v) => v,
        Err(e) => { return Err(e); },
    };
    Ok(DataRpcResult { data: entities })
}

/// Applies the update to the example with the given identifier, then
/// returns the post-update entity state, fetched back by that identifier.
pub fn update_example(ctx: &Ctx, mm: &mut ModelManager, params: ParamsForUpdate<
    ExampleForUpdate,
>) -> (r: Result<DataRpcResult<Example>, Error>)
    requires
        old(mm).wf(),
    ensures
        final(mm).wf(),
        !is_oid_string(params.id@) ==> (r matches Err(e) && e is ObIdError && *final(mm) == *old(
            mm,
        )),
        is_oid_string(params.id@) ==> final(mm).collection(
            ctx.tenant_id_spec(),
            ExampleBmc::table_spec(),
        ) == apply_update(
            old(mm).collection(ctx.tenant_id_spec(), ExampleBmc::table_spec()),
            id_filter(params.id@),
            Example::doc_of(params.data@),
        ),
        forall|t2: Seq<char>, c2: Seq<char>|
            t2 != ctx.tenant_id_spec() || c2 != ExampleBmc::table_spec()
                ==> #[trigger] final(mm).collection(t2, c2) == old(mm).collection(t2, c2),
        is_oid_string(params.id@) ==> ({
            let fetched = fetched_by_id(
                final(mm).collection(ctx.tenant_id_spec(), ExampleBmc::table_spec()),
                params.id@,
            );
            match r {
                Ok(out) => fetched == Some(out.data@),
                Err(e) => e is ReadError && fetched is None,
            }
        }),
{
    let ParamsForUpdate { id, data } = params;
    match ExampleBmc::update(ctx, mm, &id, data) {
        Ok(_) => (),
        Err(e) => { return Err(e); },
    }
    let mut filter = ExampleFilter::default();
    filter.id = Some(id);
    let entity = match ExampleBmc::get(ctx, mm, Some(filter)) {
        Ok(e) => e,
        Err(e) => { return Err(e); },
    };
    Ok(DataRpcResult { data: entity })
}

/// Fetches the example with the given identifier (the pre-deletion
/// snapshot), deletes it, and returns the snapshot. When nothing matches,
/// nothing is deleted and the call fails with `ReadError`.
pub fn delete_example(ctx: &Ctx, mm: &mut ModelManager, params: ParamsIded) -> (r: Result<
    DataRpcResult<Example>,
    Error,
>)
    requires
        old(mm).wf(),
    ensures
        final(mm).wf(),
        ({
            let fetched = fetched_by_id(
                old(mm).collection(ctx.tenant_id_spec(), ExampleBmc::table_spec()),
                params.id@,
            );
            match r {
                Ok(out) => {
                    &&& fetched == Some(out.data@)
                    &&& final(mm).collection(ctx.tenant_id_spec(), ExampleBmc::table_spec())
                        == remove_first(
                        old(mm).collection(ctx.tenant_id_spec(), ExampleBmc::table_spec()),
                        filter_shape(Example::doc_of(example_id_filter_v(params.id@))),
                    )
                },
                Err(e) => e is ReadError && fetched is None && *final(mm) == *old(mm),
            }
        }),
        forall|t2: Seq<char>, c2: Seq<char>|
            t2 != ctx.tenant_id_spec() || c2 != ExampleBmc::table_spec()
                ==> #[trigger] final(mm).collection(t2, c2) == old(mm).collection(t2, c2),
{
    let ParamsIded { id } = params;
    let mut filter = ExampleFilter::default();
    filter.id = Some(id.clone());
    let entity = match ExampleBmc::get(ctx, mm, Some(filter)) {
        Ok(e) => e,
        Err(e) => { return Err(e); },
    };
    let mut filter2 = ExampleFilter::default();
    filter2.id = Some(id);
    match ExampleBmc::delete(ctx, mm, Some(filter2)) {
        Ok(_) => (),
        Err(e) => { return Err(e); },
    }
    Ok(DataRpcResult { data: entity })
}

/// A router under construction: the names of the request handlers
/// registered so far, in registration order.
#[derive(Debug)]
pub struct RouterBuilder {
    pub methods: Vec<String>,
}

/// The router's entry point.
#[derive(Debug)]
pub struct Router;

impl Router {
    /// An empty builder.
    pub fn builder() -> (r: RouterBuilder)
        ensures
            r.methods@.len() == 0,
    {
        RouterBuilder { methods: Vec::new() }
    }
}

impl RouterBuilder {
    /// Registers every handler of `other` after the ones already here.
    pub fn extend(self, other: RouterBuilder) -> (r: RouterBuilder)
        ensures
            r.methods@ == self.methods@ + other.methods@,
    {
        let mut methods = self.methods;
        let mut rest = other.methods;
        methods.append(&mut rest);
        RouterBuilder { methods }
    }
}

/// The router builder of the example entity: its five request handlers,
/// under their registered names.
pub fn rpc_router_builder() -> (r: RouterBuilder)
    ensures
        r.methods@.len() == 5,
        r.methods@[0]@ == "create_example"@,
        r.methods@[1]@ == "get_example"@,
        r.methods@[2]@ == "list_examples"@,
        r.methods@[3]@ == "update_example"@,
        r.methods@[4]@ == "delete_example"@,
{
    let mut methods: Vec<String> = Vec::new();
    methods.push("create_example".to_owned());
    methods.push("get_example".to_owned());
    methods.push("list_examples".to_owned());
    methods.push("update_example".to_owned());
    methods.push("delete_example".to_owned());
    RouterBuilder { methods }
}

/// The router builder of the whole service: every entity's handlers.
pub fn all_rpc_router_builder() -> (r: RouterBuilder)
    ensures
        r.methods@.len() == 5,
        r.methods@[0]@ == "create_example"@,
        r.methods@[1]@ == "get_example"@,
        r.methods@[2]@ == "list_examples"@,
        r.methods@[3]@ == "update_example"@,
        r.methods@[4]@ == "delete_example"@,
{
    let base = Router::builder();
    let ghost base_methods = base.methods@;
    let built = rpc_router_builder();
    let ghost built_methods = built.methods@;
    let r = base.extend(built);
    proof {
        assert(base_methods =~= Seq::<String>::empty());
        assert(r.methods@ =~= built_methods);
    }
    r
}

} // verus!
