use quotes_api::config::{bind_address, load_config, ConfigError, MAX_CONNECTIONS};
use quotes_api::handlers::health;
use quotes_api::quote::{CreateQuote, Quote};
use quotes_api::quotes::{create, delete, get, get_all, parse_id, revision, update};
use quotes_api::reply::{Status, StoreError};

fn version_of(id: u128) -> u128 {
    (id >> 76) & 0xf
}

fn variant_of(id: u128) -> u128 {
    (id >> 62) & 0x3
}

fn record(id: u128, book: &str, text: &str, at: i64) -> Quote {
    Quote {
        id,
        book: book.to_string(),
        quote: text.to_string(),
        inserted_at: at,
        updated_at: at,
    }
}

#[test]
fn create_returns_created_record() {
    let q = Quote::new("B".to_string(), "Q".to_string());
    let r = create(q.clone(), Ok(1));
    match r {
        Ok((status, made)) => {
            assert_eq!(status, Status::Created);
            assert_eq!(status.code(), 201);
            assert_eq!(made, q);
            assert_eq!(made.book, "B");
            assert_eq!(made.quote, "Q");
            assert_eq!(made.inserted_at, made.updated_at);
            assert_eq!(version_of(made.id), 4);
            assert_eq!(variant_of(made.id), 2);
            let parsed = uuid::Uuid::from_u128(made.id);
            assert_eq!(parsed.get_version_num(), 4);
        }
        Err(_) => panic!("create should succeed"),
    }
}

#[test]
fn create_from_body_keeps_text() {
    let body = CreateQuote { book: "Dune".to_string(), quote: "Fear is the mind-killer.".to_string() };
    let q = body.into_quote();
    assert_eq!(q.book, "Dune");
    assert_eq!(q.quote, "Fear is the mind-killer.");
    assert_eq!(q.inserted_at, q.updated_at);
}

#[test]
fn create_accepts_empty_text() {
    let q = Quote::new(String::new(), String::new());
    assert!(matches!(create(q, Ok(1)), Ok((Status::Created, _))));
}

#[test]
fn create_storage_failure_is_500() {
    let q = Quote::new("B".to_string(), "Q".to_string());
    let r = create(q, Err(StoreError));
    assert_eq!(r.map(|(s, _)| s), Err(Status::InternalServerError));
    assert_eq!(Status::InternalServerError.code(), 500);
}

#[test]
fn new_quote_has_current_time() {
    let q = Quote::new("B".to_string(), "Q".to_string());
    // 2020-01-01T00:00:00Z in microseconds.
    assert!(q.inserted_at > 1_577_836_800_000_000);
}

#[test]
fn get_all_passes_rows_in_statement_order() {
    let rows = vec![record(3, "c", "3", 300), record(2, "b", "2", 200), record(1, "a", "1", 100)];
    let r = get_all(Ok(rows.clone())).unwrap();
    assert_eq!(r, rows);
    let ats: Vec<i64> = r.iter().map(|q| q.inserted_at).collect();
    assert_eq!(ats, vec![300, 200, 100]);
}

#[test]
fn get_all_empty_is_empty_list() {
    assert_eq!(get_all(Ok(Vec::new())), Ok(Vec::new()));
}

#[test]
fn get_all_storage_failure_is_500() {
    assert_eq!(get_all(Err(StoreError)), Err(Status::InternalServerError));
}

#[test]
fn get_unknown_id_is_404() {
    assert_eq!(get(Ok(None)), Err(Status::NotFound));
    assert_eq!(Status::NotFound.code(), 404);
}

#[test]
fn get_found_row_is_returned() {
    let q = Quote::new("B".to_string(), "Q".to_string());
    let r = get(Ok(Some(q.clone()))).unwrap();
    assert_eq!(r.book, q.book);
    assert_eq!(r.quote, q.quote);
    assert_eq!(r, q);
    assert_eq!(Status::Success.code(), 200);
}

#[test]
fn get_storage_failure_is_500() {
    assert_eq!(get(Err(StoreError)), Err(Status::InternalServerError));
}

#[test]
fn malformed_id_is_client_error() {
    let r = parse_id("not-a-uuid");
    assert_eq!(r, Err(Status::BadRequest));
    assert_eq!(Status::BadRequest.code(), 400);
    assert!(Status::BadRequest.is_client_error());
    assert_eq!(parse_id(""), Err(Status::BadRequest));
}

#[test]
fn well_formed_id_is_read() {
    let r = parse_id("550e8400-e29b-41d4-a716-446655440000");
    assert_eq!(r, Ok(0x550e8400_e29b_41d4_a716_446655440000));
    let simple = parse_id("550e8400e29b41d4a716446655440000");
    assert_eq!(simple, Ok(0x550e8400_e29b_41d4_a716_446655440000));
}

#[test]
fn delete_absent_id_is_204() {
    assert_eq!(delete(Ok(0)), Ok(Status::NoContent));
    assert_eq!(delete(Ok(1)), Ok(Status::NoContent));
    assert_eq!(Status::NoContent.code(), 204);
}

#[test]
fn delete_storage_failure_is_500() {
    assert_eq!(delete(Err(StoreError)), Err(Status::InternalServerError));
}

#[test]
fn deleted_id_then_get_is_404() {
    assert_eq!(delete(Ok(1)), Ok(Status::NoContent));
    assert_eq!(get(Ok(None)), Err(Status::NotFound));
}

#[test]
fn update_writes_text_to_path_row() {
    let path_id: u128 = 0x550e8400_e29b_41d4_a716_446655440000;
    let q = CreateQuote { book: "New".to_string(), quote: "Text".to_string() }.into_quote();
    let rev = revision(path_id, &q);
    assert_eq!(rev.id, path_id);
    assert_ne!(rev.id, q.id);
    assert_eq!(rev.book, "New");
    assert_eq!(rev.quote, "Text");
    assert_eq!(rev.updated_at, q.updated_at);
}

#[test]
fn update_echoes_built_record() {
    let q = Quote::new("New".to_string(), "Text".to_string());
    assert_eq!(update(q.clone(), Ok(0)), Ok(q.clone()));
    assert_eq!(update(q, Err(StoreError)), Err(Status::InternalServerError));
}

#[test]
fn created_ids_are_distinct() {
    let n: usize = MAX_CONNECTIONS as usize;
    let ids: Vec<u128> = (0..n).map(|_| Quote::new("B".to_string(), "Q".to_string()).id).collect();
    for i in 0..n {
        for j in (i + 1)..n {
            assert_ne!(ids[i], ids[j]);
        }
    }
}

#[test]
fn health_is_200() {
    assert_eq!(health(), Status::Success);
    assert_eq!(health().code(), 200);
    assert!(!health().is_client_error());
}

#[test]
fn default_bind_address() {
    assert_eq!(bind_address(None), "0.0.0.0:3000");
    assert_eq!(bind_address(Some("8080".to_string())), "0.0.0.0:8080");
}

#[test]
fn config_needs_database_url() {
    let r = load_config(Some("4000".to_string()), None);
    assert!(matches!(r, Err(ConfigError::MissingDatabaseUrl)));
}

#[test]
fn config_with_database_url() {
    let c = load_config(None, Some("postgres://localhost/quotes".to_string())).ok().unwrap();
    assert_eq!(c.addr, "0.0.0.0:3000");
    assert_eq!(c.database_url, "postgres://localhost/quotes");
    assert_eq!(c.max_connections, 5);
}
