use lib_core::base::{create, delete, get, list, update};
use lib_core::ctx::Ctx;
use lib_core::dummy::{DummyData, DummyMC};
use lib_core::store::ModelManager;

#[test]
fn crud_fns_test_create_and_get() {
    let ctx = Ctx::root_ctx();
    let mut mm = ModelManager::new().expect("manager");

    let data = DummyData { id: None, name: Some("Alice".to_string()), age: Some(30) };

    let id = create::<DummyMC, DummyData>(&ctx, &mut mm, data).expect("create failed");
    assert!(!id.is_empty(), "Die zurückgegebene ID darf nicht leer sein");

    let filter = DummyData { id: None, name: Some("Alice".to_string()), age: None };
    let fetched: DummyData = get::<DummyMC, DummyData>(&ctx, &mm, filter).expect("get failed");
    assert_eq!(fetched.name, Some("Alice".to_string()));
    assert_eq!(fetched.age, Some(30));
}

#[test]
fn crud_fns_test_update() {
    let ctx = Ctx::root_ctx();
    let mut mm = ModelManager::new().expect("manager");

    let data = DummyData { id: None, name: Some("Bob".to_string()), age: Some(25) };

    let id = create::<DummyMC, DummyData>(&ctx, &mut mm, data).expect("create failed");

    let update_data = DummyData { id: None, name: Some("Robert".to_string()), age: Some(26) };

    update::<DummyMC, DummyData>(&ctx, &mut mm, &id, update_data).expect("update failed");

    let filter = DummyData { id: None, name: Some("Robert".to_string()), age: None };

    let fetched: DummyData =
        get::<DummyMC, DummyData>(&ctx, &mm, filter).expect("get after update failed");
    assert_eq!(fetched.name, Some("Robert".to_string()));
    assert_eq!(fetched.age, Some(26));
}

#[test]
fn crud_fns_test_delete() {
    let ctx = Ctx::root_ctx();
    let mut mm = ModelManager::new().expect("manager");

    let data = DummyData { id: None, name: Some("Charlie".to_string()), age: Some(40) };

    let _id = create::<DummyMC, DummyData>(&ctx, &mut mm, data).expect("create failed");

    let filter = DummyData { id: None, name: Some("Charlie".to_string()), age: None };

    delete::<DummyMC, DummyData>(&ctx, &mut mm, filter).expect("delete failed");

    let filter = DummyData { id: None, name: Some("Charlie".to_string()), age: None };
    let result = get::<DummyMC, DummyData>(&ctx, &mm, filter);
    assert!(result.is_err(), "Das Dokument sollte nicht mehr existieren");
}

#[test]
fn crud_fns_test_list() {
    let ctx = Ctx::root_ctx();
    let mut mm = ModelManager::new().expect("manager");

    let data1 = DummyData { id: None, name: Some("Dave".to_string()), age: Some(20) };
    let data2 = DummyData { id: None, name: Some("Eve".to_string()), age: Some(22) };

    create::<DummyMC, DummyData>(&ctx, &mut mm, data1).expect("create for data1 failed");
    create::<DummyMC, DummyData>(&ctx, &mut mm, data2).expect("create for data2 failed");

    let l = list::<DummyMC, DummyData>(&ctx, &mm, DummyData::default()).expect("list failed");
    println!("{:?}", l);
    assert_eq!(l.len(), 2);
    assert_eq!(l[0].name, Some("Dave".to_string()));
    assert_eq!(l[1].name, Some("Eve".to_string()));
}

#[test]
fn user_test_create_and_get() {
    let ctx = Ctx::root_ctx();
    let mut mm = ModelManager::new().expect("manager");

    let data = DummyData { id: None, name: Some("Alice".to_string()), age: Some(30) };

    let id = create::<DummyMC, DummyData>(&ctx, &mut mm, data).expect("create failed");
    assert!(!id.is_empty(), "Die zurückgegebene ID darf nicht leer sein");

    let filter = DummyData { id: None, name: Some("Alice".to_string()), age: None };
    let fetched: DummyData = get::<DummyMC, DummyData>(&ctx, &mm, filter).expect("get failed");
    assert_eq!(fetched.name, Some("Alice".to_string()));
    assert_eq!(fetched.age, Some(30));
}

#[test]
fn user_test_update() {
    let ctx = Ctx::root_ctx();
    let mut mm = ModelManager::new().expect("manager");

    let data = DummyData { id: None, name: Some("Bob".to_string()), age: Some(25) };

    let id = create::<DummyMC, DummyData>(&ctx, &mut mm, data).expect("create failed");

    let update_data = DummyData { id: None, name: Some("Robert".to_string()), age: Some(26) };

    update::<DummyMC, DummyData>(&ctx, &mut mm, &id, update_data).expect("update failed");

    let filter = DummyData { id: None, name: Some("Robert".to_string()), age: None };

    let fetched: DummyData =
        get::<DummyMC, DummyData>(&ctx, &mm, filter).expect("get after update failed");
    assert_eq!(fetched.name, Some("Robert".to_string()));
    assert_eq!(fetched.age, Some(26));
}

#[test]
fn user_test_delete() {
    let ctx = Ctx::root_ctx();
    let mut mm = ModelManager::new().expect("manager");

    let data = DummyData { id: None, name: Some("Charlie".to_string()), age: Some(40) };

    let _id = create::<DummyMC, DummyData>(&ctx, &mut mm, data).expect("create failed");

    let filter = DummyData { id: None, name: Some("Charlie".to_string()), age: None };

    delete::<DummyMC, DummyData>(&ctx, &mut mm, filter).expect("delete failed");

    let filter = DummyData { id: None, name: Some("Charlie".to_string()), age: None };
    let result = get::<DummyMC, DummyData>(&ctx, &mm, filter);
    assert!(result.is_err(), "Das Dokument sollte nicht mehr existieren");
}

#[test]
fn user_test_list() {
    let ctx = Ctx::root_ctx();
    let mut mm = ModelManager::new().expect("manager");

    let data1 = DummyData { id: None, name: Some("Dave".to_string()), age: Some(20) };
    let data2 = DummyData { id: None, name: Some("Eve".to_string()), age: Some(22) };

    create::<DummyMC, DummyData>(&ctx, &mut mm, data1).expect("create for data1 failed");
    create::<DummyMC, DummyData>(&ctx, &mut mm, data2).expect("create for data2 failed");

    let list_result =
        list::<DummyMC, DummyData>(&ctx, &mm, DummyData::default()).expect("list failed");
    println!("{:?}", list_result);
    assert_eq!(list_result.len(), 2);
}
