use rusthacking::models::{RepoError, Service};
use rusthacking::{convert_rows, interpret_row_read, interpret_table_read, normalize_catalog};
use rusthacking::{RowRead, TableRead};

fn svc(id: u32, name: &str, description: &str, versions: u32) -> Service {
    Service { id, name: name.to_string(), description: description.to_string(), versions }
}

#[test]
fn convert_rows_decodes_in_order() {
    let rows = vec![
        (5u32, "five".to_string(), "fifth".to_string(), 1u32),
        (9u32, "nine".to_string(), "ninth".to_string(), 4u32),
    ];
    let services = convert_rows(rows);
    assert_eq!(services, vec![svc(5, "five", "fifth", 1), svc(9, "nine", "ninth", 4)]);
}

#[test]
fn normalize_keeps_first_record_of_each_id() {
    let services = vec![
        svc(1, "first", "kept", 1),
        svc(2, "second", "kept", 1),
        svc(1, "first again", "dropped", 7),
    ];
    let normalized = normalize_catalog(services);
    assert_eq!(normalized, vec![svc(1, "first", "kept", 1), svc(2, "second", "kept", 1)]);
}

#[test]
fn normalize_leaves_distinct_catalog_unchanged() {
    let services = vec![svc(1, "a", "x", 0), svc(2, "b", "y", 0), svc(3, "c", "z", 0)];
    let normalized = normalize_catalog(services.clone());
    assert_eq!(normalized, services);
}

#[test]
fn row_lookup_mapping_is_exact() {
    let row = (4u32, "match".to_string(), "found".to_string(), 2u32);
    assert_eq!(interpret_row_read(RowRead::Row(row), 4), Ok(svc(4, "match", "found", 2)));

    let stray = (5u32, "stray".to_string(), "wrong id".to_string(), 2u32);
    assert_eq!(interpret_row_read(RowRead::Row(stray), 4), Err(RepoError::ServerError));

    assert_eq!(interpret_row_read(RowRead::NoRow, 4), Err(RepoError::Missing));
    assert_eq!(interpret_row_read(RowRead::Unavailable, 4), Err(RepoError::ServerError));
}

#[test]
fn table_read_mapping_is_exact() {
    assert_eq!(interpret_table_read(TableRead::Unavailable), Err(RepoError::ServerError));

    let rows = vec![
        (1u32, "one".to_string(), "first".to_string(), 3u32),
        (1u32, "one again".to_string(), "dropped".to_string(), 8u32),
        (2u32, "two".to_string(), "second".to_string(), 2u32),
    ];
    let listed = interpret_table_read(TableRead::Rows(rows)).expect("rows decode");
    assert_eq!(listed, vec![svc(1, "one", "first", 3), svc(2, "two", "second", 2)]);
}
