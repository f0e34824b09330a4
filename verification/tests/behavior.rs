use lib_core::base::{create, delete, get, list, update};
use lib_core::ctx::Ctx;
use lib_core::dummy::{DummyData, DummyMC};
use lib_core::error::Error;
use lib_core::oid::ObjectId;
use lib_core::store::ModelManager;
use lib_core::value::{doc_matches, make_filter_doc, Doc, Value};

fn doc_of(entries: Vec<(&str, Value)>) -> Doc {
    let mut d = Doc::new();
    for (k, v) in entries {
        d.insert(k.to_string(), v);
    }
    d
}

#[test]
fn scenario_name_age_lifecycle() {
    // Create {name: "Alice", age: 30}; get by name returns age 30; update
    // supplying only {age: 31} leaves the name unchanged; delete by name,
    // then get by the same name fails with ReadError.
    let ctx = Ctx::root_ctx();
    let mut mm = ModelManager::new().expect("manager");

    let data = DummyData { id: None, name: Some("Alice".to_string()), age: Some(30) };
    let id = create::<DummyMC, DummyData>(&ctx, &mut mm, data).expect("create failed");

    let by_name = DummyData { id: None, name: Some("Alice".to_string()), age: None };
    let fetched = get::<DummyMC, DummyData>(&ctx, &mm, by_name).expect("get failed");
    assert_eq!(fetched.age, Some(30));
    assert_eq!(fetched.id, Some(id.clone()));

    let only_age = DummyData { id: None, name: None, age: Some(31) };
    update::<DummyMC, DummyData>(&ctx, &mut mm, &id, only_age).expect("update failed");

    let by_name = DummyData { id: None, name: Some("Alice".to_string()), age: None };
    let fetched = get::<DummyMC, DummyData>(&ctx, &mm, by_name).expect("get after update failed");
    assert_eq!(fetched.name, Some("Alice".to_string()));
    assert_eq!(fetched.age, Some(31));

    let by_name = DummyData { id: None, name: Some("Alice".to_string()), age: None };
    delete::<DummyMC, DummyData>(&ctx, &mut mm, by_name).expect("delete failed");

    let by_name = DummyData { id: None, name: Some("Alice".to_string()), age: None };
    let gone = get::<DummyMC, DummyData>(&ctx, &mm, by_name);
    assert!(matches!(gone, Err(Error::ReadError)));
}

#[test]
fn tenant_isolation() {
    // Documents created under one tenant are invisible to another tenant's
    // context, for an otherwise matching filter.
    let ctx1 = Ctx::root_ctx();
    let ctx2 = Ctx::root_ctx().add_tenant_id("other_tenant".to_string());
    let mut mm = ModelManager::new().expect("manager");

    let data = DummyData { id: None, name: Some("Alice".to_string()), age: Some(30) };
    create::<DummyMC, DummyData>(&ctx1, &mut mm, data).expect("create failed");

    let by_name = DummyData { id: None, name: Some("Alice".to_string()), age: None };
    let other = get::<DummyMC, DummyData>(&ctx2, &mm, by_name);
    assert!(matches!(other, Err(Error::ReadError)));

    let all = list::<DummyMC, DummyData>(&ctx2, &mm, DummyData::default()).expect("list failed");
    assert!(all.is_empty());

    let by_name = DummyData { id: None, name: Some("Alice".to_string()), age: None };
    let own = get::<DummyMC, DummyData>(&ctx1, &mm, by_name);
    assert!(own.is_ok());
}

#[test]
fn filter_null_drop_selects_on_present_fields_only() {
    // A filter with some fields absent selects exactly on the present ones.
    let ctx = Ctx::root_ctx();
    let mut mm = ModelManager::new().expect("manager");

    let a = DummyData { id: None, name: Some("Dave".to_string()), age: Some(20) };
    let b = DummyData { id: None, name: Some("Dave".to_string()), age: Some(99) };
    let c = DummyData { id: None, name: Some("Eve".to_string()), age: Some(20) };
    create::<DummyMC, DummyData>(&ctx, &mut mm, a).expect("create failed");
    create::<DummyMC, DummyData>(&ctx, &mut mm, b).expect("create failed");
    create::<DummyMC, DummyData>(&ctx, &mut mm, c).expect("create failed");

    let by_name = DummyData { id: None, name: Some("Dave".to_string()), age: None };
    let daves = list::<DummyMC, DummyData>(&ctx, &mm, by_name).expect("list failed");
    assert_eq!(daves.len(), 2);

    let by_age = DummyData { id: None, name: None, age: Some(20) };
    let twenties = list::<DummyMC, DummyData>(&ctx, &mm, by_age).expect("list failed");
    assert_eq!(twenties.len(), 2);
}

#[test]
fn filter_flattening_matches_dotted_path() {
    // A nested filter {a: {b: "x"}} matches the same documents as the flat
    // filter on the path "a.b".
    let stored = doc_of(vec![(
        "a",
        Value::Sub(doc_of(vec![("b", Value::Str("x".to_string()))])),
    )]);

    let nested_filter = make_filter_doc(&doc_of(vec![(
        "a",
        Value::Sub(doc_of(vec![("b", Value::Str("x".to_string()))])),
    )]));
    let flat_filter = doc_of(vec![("a.b", Value::Str("x".to_string()))]);

    assert!(doc_matches(&nested_filter, &stored));
    assert!(doc_matches(&flat_filter, &stored));

    let other = doc_of(vec![(
        "a",
        Value::Sub(doc_of(vec![("b", Value::Str("y".to_string()))])),
    )]);
    assert!(!doc_matches(&nested_filter, &other));
    assert!(!doc_matches(&flat_filter, &other));
}

#[test]
fn null_filter_field_is_dropped() {
    // A null-valued filter field is "don't filter on this", never
    // "match absent".
    let stored = doc_of(vec![("name", Value::Str("Alice".to_string()))]);
    let filter_with_null = make_filter_doc(&doc_of(vec![
        ("name", Value::Str("Alice".to_string())),
        ("age", Value::Null),
    ]));
    assert!(doc_matches(&filter_with_null, &stored));
}

#[test]
fn identifier_translation_determinism() {
    // The identifier returned by create resolves to the same document
    // through get, update and delete.
    let ctx = Ctx::root_ctx();
    let mut mm = ModelManager::new().expect("manager");

    let one = DummyData { id: None, name: Some("One".to_string()), age: Some(1) };
    let two = DummyData { id: None, name: Some("Two".to_string()), age: Some(2) };
    let id1 = create::<DummyMC, DummyData>(&ctx, &mut mm, one).expect("create failed");
    let id2 = create::<DummyMC, DummyData>(&ctx, &mut mm, two).expect("create failed");
    assert_ne!(id1, id2);

    let by_id = DummyData { id: Some(id1.clone()), name: None, age: None };
    let fetched = get::<DummyMC, DummyData>(&ctx, &mm, by_id).expect("get by id failed");
    assert_eq!(fetched.name, Some("One".to_string()));

    update::<DummyMC, DummyData>(
        &ctx,
        &mut mm,
        &id2,
        DummyData { id: None, name: None, age: Some(22) },
    )
    .expect("update by id failed");
    let by_id2 = DummyData { id: Some(id2.clone()), name: None, age: None };
    let fetched2 = get::<DummyMC, DummyData>(&ctx, &mm, by_id2).expect("get by id failed");
    assert_eq!(fetched2.name, Some("Two".to_string()));
    assert_eq!(fetched2.age, Some(22));

    let by_id1 = DummyData { id: Some(id1.clone()), name: None, age: None };
    delete::<DummyMC, DummyData>(&ctx, &mut mm, by_id1).expect("delete failed");
    let by_id1 = DummyData { id: Some(id1), name: None, age: None };
    assert!(get::<DummyMC, DummyData>(&ctx, &mm, by_id1).is_err());
    let by_id2 = DummyData { id: Some(id2), name: None, age: None };
    assert!(get::<DummyMC, DummyData>(&ctx, &mm, by_id2).is_ok());
}

#[test]
fn malformed_identifier_fails_before_the_store() {
    let ctx = Ctx::root_ctx();
    let mut mm = ModelManager::new().expect("manager");
    let r = update::<DummyMC, DummyData>(
        &ctx,
        &mut mm,
        &"not-a-valid-identifier".to_string(),
        DummyData { id: None, name: None, age: Some(1) },
    );
    assert!(matches!(r, Err(Error::ObIdError)));

    assert!(ObjectId::parse_str(&"zzzz".to_string()).is_none());
    assert!(ObjectId::parse_str(&"00112233445566778899aabb".to_string()).is_some());
    assert!(ObjectId::parse_str(&"00112233445566778899aabbcc".to_string()).is_none());
}

#[test]
fn identifier_hex_round_trip() {
    let o = ObjectId::from_counter(7);
    let hex = o.to_hex();
    assert_eq!(hex, "000000000700000000000000");
    let parsed = ObjectId::parse_str(&hex).expect("fresh identifiers must parse");
    assert!(parsed.eq_bytes(&o));

    let upper = ObjectId::parse_str(&"00112233445566778899AABB".to_string())
        .expect("uppercase digits parse");
    assert_eq!(upper.to_hex(), "00112233445566778899aabb");
}

#[test]
fn list_fails_whole_call_on_one_bad_document() {
    // One stored document that does not read back fails the whole list call.
    let ctx = Ctx::root_ctx();
    let mut mm = ModelManager::new().expect("manager");

    let good = DummyData { id: None, name: Some("Good".to_string()), age: Some(1) };
    create::<DummyMC, DummyData>(&ctx, &mut mm, good).expect("create failed");

    // Plant a document whose name field has the wrong type.
    let bad = doc_of(vec![("name", Value::Int(13))]);
    let tenant = ctx.tenant_id();
    let coll = "dummy_collection_for_testing".to_string();
    let mut docs = Vec::new();
    for ((t, c), ds) in &mm.store.collections {
        if *t == tenant && *c == coll {
            docs = ds.iter().map(lib_core::value::clone_doc).collect();
        }
    }
    docs.push(bad);
    mm.store.collections.push(((tenant, coll), docs));

    let r = list::<DummyMC, DummyData>(&ctx, &mm, DummyData::default());
    assert!(matches!(r, Err(Error::QueryError)));
}
