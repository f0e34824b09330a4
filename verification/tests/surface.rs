use lib_core::ctx::{Ctx, Error as CtxError};
use lib_core::error::Error;
use lib_core::example::{ExampleFilter, ExampleForCreate, ExampleForUpdate};
use lib_core::rpc::{
    all_rpc_router_builder, create_example, delete_example, get_example, list_examples,
    rpc_router_builder, update_example, ParamsForCreate, ParamsForUpdate, ParamsIded, ParamsList,
};
use lib_core::schema::{crud, has_skip_attribute, is_option, wrap_in_option, EntityDecl, FieldDecl};
use lib_core::store::ModelManager;
use lib_core::user::{QUser, QUserForCreate, UserBmc};

#[test]
fn ctx_construction_rules() {
    let root = Ctx::root_ctx();
    assert_eq!(root.user_id(), "0000");
    assert_eq!(root.tenant_id(), "d1UuaOAUBRL2glq1eawbyKHqBgc");
    assert!(root.conv_id().is_none());

    let denied = Ctx::new("".to_string());
    assert!(matches!(denied, Err(CtxError::CtxCannotNewRootCtx)));

    let user = Ctx::new("u-17".to_string()).expect("non-empty user id constructs");
    assert_eq!(user.user_id(), "u-17");
    let with_conv = user.add_conv_id("c-1".to_string());
    assert_eq!(with_conv.conv_id(), Some("c-1".to_string()));
    let moved = with_conv.add_tenant_id("tenant-b".to_string());
    assert_eq!(moved.tenant_id(), "tenant-b");
    assert_eq!(moved.user_id(), "u-17");
}

#[test]
fn example_rpc_lifecycle() {
    let ctx = Ctx::root_ctx();
    let mut mm = ModelManager::new().expect("manager");

    let created = create_example(
        &ctx,
        &mut mm,
        ParamsForCreate {
            data: ExampleForCreate {
                name: Some("thing".to_string()),
                description: Some("a thing".to_string()),
                skills: Some(vec!["one".to_string(), "two".to_string()]),
            },
        },
    )
    .expect("create_example failed");
    let id = created.data.id.clone().expect("created entity carries its identifier");
    assert_eq!(created.data.name, Some("thing".to_string()));

    let got = get_example(&ctx, &mm, ParamsIded { id: id.clone() }).expect("get_example failed");
    assert_eq!(got.data.description, Some("a thing".to_string()));
    assert_eq!(got.data.skills, Some(vec!["one".to_string(), "two".to_string()]));

    let updated = update_example(
        &ctx,
        &mut mm,
        ParamsForUpdate {
            id: id.clone(),
            data: ExampleForUpdate {
                name: None,
                description: Some("updated".to_string()),
                skills: None,
            },
        },
    )
    .expect("update_example failed");
    assert_eq!(updated.data.name, Some("thing".to_string()));
    assert_eq!(updated.data.description, Some("updated".to_string()));

    let listed =
        list_examples(&ctx, &mm, ParamsList { filter: None }).expect("list_examples failed");
    assert_eq!(listed.data.len(), 1);

    let snapshot =
        delete_example(&ctx, &mut mm, ParamsIded { id: id.clone() }).expect("delete failed");
    assert_eq!(snapshot.data.description, Some("updated".to_string()));

    let gone = get_example(&ctx, &mm, ParamsIded { id });
    assert!(matches!(gone, Err(Error::ReadError)));

    let by_filter = list_examples(
        &ctx,
        &mm,
        ParamsList {
            filter: Some(ExampleFilter {
                id: None,
                name: Some("thing".to_string()),
                description: None,
                skills: None,
            }),
        },
    )
    .expect("list_examples failed");
    assert!(by_filter.data.is_empty());
}

#[test]
fn router_builder_names_the_five_handlers() {
    let rb = rpc_router_builder();
    let names: Vec<&str> = rb.methods.iter().map(|s| s.as_str()).collect();
    assert_eq!(
        names,
        vec!["create_example", "get_example", "list_examples", "update_example", "delete_example"]
    );
    let all = all_rpc_router_builder();
    assert_eq!(all.methods.len(), 5);
    assert_eq!(all.methods[0], "create_example");
}

#[test]
fn schema_compiler_derives_the_record_family() {
    let decl = EntityDecl {
        name: "Example".to_string(),
        fields: vec![
            FieldDecl {
                name: "id".to_string(),
                optional: true,
                skip_create: false,
                skip_update: false,
                skip_filter: false,
            },
            FieldDecl {
                name: "name".to_string(),
                optional: false,
                skip_create: false,
                skip_update: false,
                skip_filter: false,
            },
            FieldDecl {
                name: "secret".to_string(),
                optional: false,
                skip_create: false,
                skip_update: true,
                skip_filter: true,
            },
        ],
    };
    let schema = crud(&decl);
    assert_eq!(schema.table_name, "ExampleController");

    let create_names: Vec<&str> = schema.create_fields.iter().map(|f| f.name.as_str()).collect();
    assert_eq!(create_names, vec!["name", "secret"]);
    let update_names: Vec<&str> = schema.update_fields.iter().map(|f| f.name.as_str()).collect();
    assert_eq!(update_names, vec!["name"]);
    let filter_names: Vec<&str> = schema.filter_fields.iter().map(|f| f.name.as_str()).collect();
    assert_eq!(filter_names, vec!["id", "name"]);
    assert!(schema.create_fields.iter().all(|f| f.optional));

    // Identical declarations generate identical schemas.
    let again = crud(&decl);
    assert_eq!(again.table_name, schema.table_name);
    assert_eq!(again.create_fields.len(), schema.create_fields.len());

    let f = &decl.fields[1];
    assert!(!is_option(f));
    assert!(is_option(&wrap_in_option(f)));
    assert!(!has_skip_attribute(f, &"skip_update".to_string()));
    assert!(has_skip_attribute(&decl.fields[2], &"skip_update".to_string()));
    assert!(!has_skip_attribute(&decl.fields[2], &"unknown".to_string()));
}

#[test]
fn user_lifecycle_with_nested_login() {
    let ctx = Ctx::root_ctx();
    let mut mm = ModelManager::new().expect("manager");

    let input = QUserForCreate { username: "alice".to_string(), pwd_clear: "secret".to_string() };
    let salt = "5f8b1c2e-aaaa-bbbb-cccc-0123456789ab".to_string();
    let hashed = "hash-of-secret".to_string();
    let id = UserBmc::create(&ctx, &mut mm, input, salt.clone(), hashed.clone())
        .expect("user create failed");

    let by_name =
        UserBmc::get_user_by_name(&ctx, &mm, &"alice".to_string()).expect("get by name failed");
    assert_eq!(by_name.id, Some(id.clone()));
    assert_eq!(by_name.active, Some(true));

    let for_login = UserBmc::get_user_for_login(&ctx, &mm, &"alice".to_string())
        .expect("get for login failed");
    assert_eq!(for_login.id, id);
    assert_eq!(for_login.username, "alice");
    assert_eq!(for_login.pwd, Some(hashed));
    assert_eq!(for_login.pwd_salt, salt.clone());

    let for_auth =
        UserBmc::get_user_for_auth(&ctx, &mm, &"alice".to_string()).expect("get for auth failed");
    assert_eq!(for_auth.pwd_salt, salt);

    UserBmc::update_pwd(&ctx, &mut mm, &id, "hash-of-new").expect("update pwd failed");
    let again = UserBmc::get_user_for_login(&ctx, &mm, &"alice".to_string())
        .expect("get for login failed");
    assert_eq!(again.pwd, Some("hash-of-new".to_string()));
    assert_eq!(again.username, "alice");

    let all = UserBmc::list(&ctx, &mm, None).expect("list failed");
    assert_eq!(all.len(), 1);

    UserBmc::delete(&ctx, &mut mm, &id).expect("delete failed");
    let gone = UserBmc::get(&ctx, &mm, &id);
    assert!(matches!(gone, Err(Error::ReadError)));
}

#[test]
fn update_pwd_without_login_record_fails() {
    let u = QUser { id: None, active: Some(true), login: None, metadata: None };
    let r = u.update_pwd("hash".to_string());
    assert!(matches!(r, Err(Error::UpdateError)));
}

#[test]
fn transactional_sessions_are_a_stub() {
    let mm = ModelManager::new().expect("manager");
    assert!(matches!(mm.new_with_txn(), Err(Error::SessionError)));
    assert!(matches!(
        ModelManager::new().expect("manager").new_with_txn(),
        Err(Error::SessionError)
    ));
}
