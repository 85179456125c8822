use user_federation::error::{ErrorResponse, ErrorResponseType};
use user_federation::federation::{
    UserFederation, AMBIGUOUS_MESSAGE, CONFLICT_MESSAGE, DELETE_BY_USER_SQL, DELETE_SQL,
    INSERT_SQL, NOT_FOUND_MESSAGE, SELECT_BY_FEDERATION_ID_SQL, SELECT_FOR_USER_SQL,
};
use user_federation::memory::MemoryTable;

fn link(u: &str, p: &str, f: &str) -> UserFederation {
    UserFederation::new(u.to_string(), p.to_string(), f.to_string())
}

fn create(table: &mut MemoryTable, u: &str, p: &str, f: &str) -> Result<UserFederation, ErrorResponse> {
    let l = link(u, p, f);
    let res = table.insert(&l);
    UserFederation::create(l, res)
}

fn find_by_federation_id(table: &MemoryTable, p: &str, f: &str) -> Result<UserFederation, ErrorResponse> {
    UserFederation::find_by_federation_id(Ok(table.select_by_federation_id(p, f)))
}

fn find_for_user(table: &MemoryTable, u: &str) -> Result<Vec<UserFederation>, ErrorResponse> {
    UserFederation::find_for_user(Ok(table.select_for_user(u)))
}

#[test]
fn test_map_unique_violation() {
    let err = ErrorResponse::new(ErrorResponseType::Database, "UNIQUE constraint failed");
    let mapped = UserFederation::map_unique_violation(err);
    assert_eq!(mapped.error, ErrorResponseType::NotAccepted);
    assert_eq!(
        mapped.message,
        "Upstream user id is already linked to another account"
    );
}

#[test]
fn test_map_unique_violation_passthrough() {
    let err = ErrorResponse::new(ErrorResponseType::Database, "some other db error");
    let mapped = UserFederation::map_unique_violation(err.clone());
    assert_eq!(mapped, err);
}

#[test]
fn classifier_finds_marker_inside_message() {
    let err = ErrorResponse::new(
        ErrorResponseType::Connection,
        "error returned from database: duplicate, UNIQUE violation on user_federations",
    );
    let mapped = UserFederation::map_unique_violation(err);
    assert_eq!(mapped.error, ErrorResponseType::NotAccepted);
    assert_eq!(mapped.message, CONFLICT_MESSAGE);
}

#[test]
fn classifier_is_case_sensitive_and_keeps_kind() {
    let err = ErrorResponse::new(ErrorResponseType::Internal, "unique index broken: UNIQU");
    let mapped = UserFederation::map_unique_violation(err.clone());
    assert_eq!(mapped.error, ErrorResponseType::Internal);
    assert_eq!(mapped, err);
    let empty = ErrorResponse::new(ErrorResponseType::Database, "");
    assert_eq!(UserFederation::map_unique_violation(empty.clone()), empty);
}

#[test]
fn round_trip_create_then_find() {
    let mut table = MemoryTable::new();
    let created = create(&mut table, "u1", "idp", "x").unwrap();
    assert_eq!(created.user_id, "u1");
    let found = find_by_federation_id(&table, "idp", "x").unwrap();
    assert_eq!(found.user_id, "u1");
    assert_eq!(found.provider_id, "idp");
    assert_eq!(found.federation_uid, "x");
}

#[test]
fn same_identity_for_another_user_conflicts() {
    let mut table = MemoryTable::new();
    create(&mut table, "u1", "idp", "x").unwrap();
    let err = create(&mut table, "u2", "idp", "x").unwrap_err();
    assert_eq!(err.error, ErrorResponseType::NotAccepted);
    assert_eq!(err.message, CONFLICT_MESSAGE);
    assert_eq!(find_for_user(&table, "u2").unwrap().len(), 0);
}

#[test]
fn second_link_with_same_provider_conflicts() {
    let mut table = MemoryTable::new();
    create(&mut table, "u1", "idp", "x").unwrap();
    let err = create(&mut table, "u1", "idp", "y").unwrap_err();
    assert_eq!(err.error, ErrorResponseType::NotAccepted);
    assert_eq!(err.message, CONFLICT_MESSAGE);
    assert_eq!(find_for_user(&table, "u1").unwrap().len(), 1);
}

#[test]
fn same_subject_at_other_provider_is_accepted() {
    let mut table = MemoryTable::new();
    create(&mut table, "u1", "idp", "x").unwrap();
    create(&mut table, "u2", "other", "x").unwrap();
    assert_eq!(find_by_federation_id(&table, "other", "x").unwrap().user_id, "u2");
}

#[test]
fn unknown_user_has_no_links() {
    let mut table = MemoryTable::new();
    assert_eq!(find_for_user(&table, "unknown").unwrap().len(), 0);
    create(&mut table, "u1", "idp", "x").unwrap();
    assert_eq!(find_for_user(&table, "unknown").unwrap().len(), 0);
}

#[test]
fn find_for_user_returns_every_link() {
    let mut table = MemoryTable::new();
    for i in 0..15 {
        create(&mut table, "u1", &format!("idp{}", i), "x").unwrap();
    }
    create(&mut table, "u2", "idp0", "y").unwrap();
    let links = find_for_user(&table, "u1").unwrap();
    assert_eq!(links.len(), 15);
    assert!(links.iter().all(|l| l.user_id == "u1"));
}

#[test]
fn delete_then_find_is_not_found() {
    let mut table = MemoryTable::new();
    let l = create(&mut table, "u1", "idp", "x").unwrap();
    let removed = table.delete("u1", "idp");
    assert_eq!(removed, 1);
    assert_eq!(l.delete(Ok(removed)), Ok(()));
    let err = find_by_federation_id(&table, "idp", "x").unwrap_err();
    assert_eq!(err.error, ErrorResponseType::NotFound);
    assert_eq!(err.message, NOT_FOUND_MESSAGE);
}

#[test]
fn delete_of_missing_link_succeeds() {
    let mut table = MemoryTable::new();
    create(&mut table, "u1", "idp", "x").unwrap();
    let missing = link("u1", "other", "x");
    let removed = table.delete("u1", "other");
    assert_eq!(removed, 0);
    assert_eq!(missing.delete(Ok(removed)), Ok(()));
    assert_eq!(find_for_user(&table, "u1").unwrap().len(), 1);
}

#[test]
fn delete_by_user_id_removes_all_links() {
    let mut table = MemoryTable::new();
    create(&mut table, "u1", "a", "1").unwrap();
    create(&mut table, "u1", "b", "2").unwrap();
    create(&mut table, "u1", "c", "3").unwrap();
    create(&mut table, "u2", "a", "4").unwrap();
    let removed = table.delete_by_user_id("u1");
    assert_eq!(removed, 3);
    assert_eq!(UserFederation::delete_by_user_id(Ok(removed)), Ok(()));
    assert_eq!(find_for_user(&table, "u1").unwrap().len(), 0);
    assert_eq!(find_for_user(&table, "u2").unwrap().len(), 1);
    assert_eq!(table.delete_by_user_id("u1"), 0);
}

#[test]
fn several_matches_are_an_internal_error() {
    let rows = vec![link("u1", "idp", "x"), link("u2", "idp", "x")];
    let err = UserFederation::find_by_federation_id(Ok(rows)).unwrap_err();
    assert_eq!(err.error, ErrorResponseType::Internal);
    assert_eq!(err.message, AMBIGUOUS_MESSAGE);
}

#[test]
fn storage_errors_pass_through() {
    let err = ErrorResponse::new(ErrorResponseType::Connection, "connection refused");
    let create_err = UserFederation::create(link("u", "p", "f"), Err(err.clone())).unwrap_err();
    assert_eq!(create_err, err);
    let find_err = UserFederation::find_by_federation_id(Err(err.clone())).unwrap_err();
    assert_eq!(find_err, err);
    assert_eq!(UserFederation::find_for_user(Err(err.clone())).unwrap_err(), err);
    assert_eq!(link("u", "p", "f").delete(Err(err.clone())), Err(err.clone()));
    assert_eq!(UserFederation::delete_by_user_id(Err(err.clone())), Err(err));
}

#[test]
fn statements_carry_their_parameters() {
    let l = link("u1", "idp", "x");
    let s = l.insert_statement();
    assert_eq!(s.sql, INSERT_SQL);
    assert_eq!(s.params, vec!["u1".to_string(), "idp".to_string(), "x".to_string()]);
    let s = UserFederation::select_for_user_statement("u1");
    assert_eq!(s.sql, SELECT_FOR_USER_SQL);
    assert_eq!(s.params, vec!["u1".to_string()]);
    let s = UserFederation::select_by_federation_id_statement("idp", "x");
    assert_eq!(s.sql, SELECT_BY_FEDERATION_ID_SQL);
    assert_eq!(s.params, vec!["idp".to_string(), "x".to_string()]);
    let s = l.delete_statement();
    assert_eq!(s.sql, DELETE_SQL);
    assert_eq!(s.params, vec!["u1".to_string(), "idp".to_string()]);
    let s = UserFederation::delete_by_user_id_statement("u1");
    assert_eq!(s.sql, DELETE_BY_USER_SQL);
    assert_eq!(s.params, vec!["u1".to_string()]);
}
