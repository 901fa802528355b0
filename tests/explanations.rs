use vmback::{
    Address, CreateExplainationDto, Database, DeleteResult, ExplainationService, FieldError,
    ServiceError, StoreError, UpdateResult, parse_object_id,
};

fn addr(d: &str) -> String {
    format!("0x{}", d.repeat(64))
}

fn request(pkg: &str, module: &str, function: &str, owner: &str, content: &str) -> CreateExplainationDto {
    CreateExplainationDto {
        package_id: Address::new(pkg).unwrap(),
        module_name: module.to_string(),
        function_name: function.to_string(),
        owner: Address::new(owner).unwrap(),
        content: content.to_string(),
    }
}

fn service() -> ExplainationService {
    ExplainationService::new(Database::new())
}

#[test]
fn create_then_get_round_trips() {
    let mut s = service();
    let id = s.create_explaination(request(&addr("1"), "coin", "transfer", &addr("2"), "moves coins")).unwrap();
    let e = s.get_explanation_by_id(&id).unwrap();
    assert_eq!(e.id.as_deref(), Some(id.as_str()));
    assert_eq!(e.package_id.as_str(), addr("1"));
    assert_eq!(e.module_name, "coin");
    assert_eq!(e.function_name, "transfer");
    assert_eq!(e.owner.as_str(), addr("2"));
    assert_eq!(e.content, "moves coins");
}

#[test]
fn generated_ids_are_distinct_object_ids() {
    let mut s = service();
    let a = s.create_explaination(request(&addr("1"), "m", "f", &addr("2"), "x")).unwrap();
    let b = s.create_explaination(request(&addr("1"), "m", "f", &addr("2"), "x")).unwrap();
    assert_ne!(a, b);
    assert_eq!(a.len(), 24);
    assert!(a.chars().all(|c| c.is_ascii_digit() || ('a'..='f').contains(&c)));
}

#[test]
fn update_content_changes_only_content() {
    let mut s = service();
    let id = s.create_explaination(request(&addr("a"), "pool", "swap", &addr("b"), "old")).unwrap();
    let u = s.update_explaination_content(&id, "new text").unwrap();
    assert_eq!(u, UpdateResult { matched_count: 1, modified_count: 1 });
    let e = s.get_explanation_by_id(&id).unwrap();
    assert_eq!(e.package_id.as_str(), addr("a"));
    assert_eq!(e.module_name, "pool");
    assert_eq!(e.function_name, "swap");
    assert_eq!(e.owner.as_str(), addr("b"));
    assert_eq!(e.content, "new text");
    let again = s.update_explaination_content(&id, "new text").unwrap();
    assert_eq!(again, UpdateResult { matched_count: 1, modified_count: 0 });
}

#[test]
fn update_with_empty_content_is_rejected() {
    let mut s = service();
    let id = s.create_explaination(request(&addr("a"), "pool", "swap", &addr("b"), "old")).unwrap();
    assert_eq!(
        s.update_explaination_content(&id, "").unwrap_err(),
        ServiceError::Field(FieldError::EmptyContent)
    );
    assert_eq!(s.get_explanation_by_id(&id).unwrap().content, "old");
}

#[test]
fn get_unknown_id_is_not_found() {
    let s = service();
    assert_eq!(
        s.get_explanation_by_id("65f0a1b2c3d4e5f60718293a").unwrap_err(),
        ServiceError::NotFound
    );
}

#[test]
fn get_malformed_id_fails() {
    let s = service();
    assert_eq!(
        s.get_explanation_by_id("not-an-id").unwrap_err(),
        ServiceError::Store(StoreError::MalformedId)
    );
}

#[test]
fn delete_then_get_is_not_found() {
    let mut s = service();
    let id = s.create_explaination(request(&addr("c"), "m", "f", &addr("d"), "x")).unwrap();
    assert_eq!(s.delete_explaination(&id).unwrap(), DeleteResult { deleted_count: 1 });
    assert_eq!(s.get_explanation_by_id(&id).unwrap_err(), ServiceError::NotFound);
    assert_eq!(s.delete_explaination(&id).unwrap_err(), ServiceError::NotFound);
    assert_eq!(s.update_explaination_content(&id, "y").unwrap_err(), ServiceError::NotFound);
}

#[test]
fn get_by_owner_lists_exactly_the_owners_records() {
    let mut s = service();
    let a = s.create_explaination(request(&addr("1"), "m1", "f", &addr("e"), "x")).unwrap();
    let _b = s.create_explaination(request(&addr("1"), "m2", "f", &addr("f"), "x")).unwrap();
    let c = s.create_explaination(request(&addr("1"), "m3", "f", &addr("e"), "x")).unwrap();
    let found = s.get_explanation_by_owner(&addr("e"));
    let mut ids: Vec<String> = found.iter().map(|e| e.id.clone().unwrap()).collect();
    ids.sort();
    let mut expected = vec![a, c];
    expected.sort();
    assert_eq!(ids, expected);
    assert!(s.get_explanation_by_owner(&addr("E")).is_empty());
}

#[test]
fn create_rejects_empty_fields() {
    let mut s = service();
    assert_eq!(
        s.create_explaination(request(&addr("1"), "", "f", &addr("2"), "x")).unwrap_err(),
        ServiceError::Field(FieldError::EmptyModuleName)
    );
    assert_eq!(
        s.create_explaination(request(&addr("1"), "m", "", &addr("2"), "x")).unwrap_err(),
        ServiceError::Field(FieldError::EmptyFunctionName)
    );
    assert_eq!(
        s.create_explaination(request(&addr("1"), "m", "f", &addr("2"), "")).unwrap_err(),
        ServiceError::Field(FieldError::EmptyContent)
    );
}

#[test]
fn store_checks_addresses_and_ids() {
    let mut db = Database::new();
    assert_eq!(
        db.create_explaination("0x12", "m", "f", &addr("2"), "x").unwrap_err(),
        StoreError::InvalidPackageId
    );
    assert_eq!(
        db.create_explaination(&addr("1"), "m", "f", "owner", "x").unwrap_err(),
        StoreError::InvalidOwner
    );
    assert_eq!(
        db.create_explaination_with_id("xyz", &addr("1"), "m", "f", &addr("2"), "x").unwrap_err(),
        StoreError::MalformedId
    );
    assert_eq!(db.delete_explaination("12").unwrap_err(), StoreError::MalformedId);
}

#[test]
fn store_ids_ignore_case() {
    let mut db = Database::new();
    let k = db
        .create_explaination_with_id("65F0A1B2C3D4E5F60718293A", &addr("1"), "m", "f", &addr("2"), "x")
        .unwrap();
    assert_eq!(k, "65f0a1b2c3d4e5f60718293a");
    assert!(db.get_explanation_by_id("65f0a1b2c3d4e5f60718293A").unwrap().is_some());
    assert_eq!(
        db.create_explaination_with_id(&k, &addr("1"), "m", "f", &addr("2"), "x").unwrap_err(),
        StoreError::DuplicateId
    );
    assert_eq!(parse_object_id("ABCDEF0123456789abcdef01").unwrap(), "abcdef0123456789abcdef01");
    assert!(parse_object_id("ABCDEF0123456789abcdef0").is_none());
}

#[test]
fn store_update_and_delete_of_missing_id_match_nothing() {
    let mut db = Database::new();
    let id = "65f0a1b2c3d4e5f60718293a";
    assert_eq!(
        db.update_explaination(id, &addr("1"), "m", "f", &addr("2"), "x").unwrap(),
        UpdateResult { matched_count: 0, modified_count: 0 }
    );
    assert_eq!(db.delete_explaination(id).unwrap(), DeleteResult { deleted_count: 0 });
    assert!(db.get_explanation_by_id(id).unwrap().is_none());
}

#[test]
fn store_update_replaces_every_field() {
    let mut db = Database::new();
    let id = db.create_explaination(&addr("1"), "m", "f", &addr("2"), "x").unwrap();
    let u = db.update_explaination(&id, &addr("3"), "m2", "f2", &addr("4"), "y").unwrap();
    assert_eq!(u, UpdateResult { matched_count: 1, modified_count: 1 });
    let e = db.get_explanation_by_id(&id).unwrap().unwrap();
    assert_eq!(e.package_id.as_str(), addr("3"));
    assert_eq!(e.module_name, "m2");
    assert_eq!(e.function_name, "f2");
    assert_eq!(e.owner.as_str(), addr("4"));
    assert_eq!(e.content, "y");
    assert_eq!(
        db.update_explaination(&id, "bad", "m", "f", &addr("4"), "y").unwrap_err(),
        StoreError::InvalidPackageId
    );
}
