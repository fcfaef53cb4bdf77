use ledger_store::doc::JsonValue;
use ledger_store::doc::get_field;
use ledger_store::store::get_all_recorrentes;
use ledger_store::store::get_all_transacoes;
use ledger_store::store::get_config;
use ledger_store::store::migrate;
use ledger_store::store::put_transacao;
use ledger_store::store::set_config;
use ledger_store::sync::SyncError;
use ledger_store::sync::apply_pull;
use ledger_store::sync::apply_restore;
use ledger_store::sync::finish_push;
use ledger_store::sync::pull_plan;
use ledger_store::sync::push_plan;
use ledger_store::sync::restore_plan;

fn fresh() -> rusqlite::Connection {
    let mut c = rusqlite::Connection::open_in_memory().unwrap();
    migrate(&mut c).unwrap();
    c
}

fn s(x: &str) -> JsonValue {
    JsonValue::Str(x.to_string())
}

fn obj(fields: Vec<(&str, JsonValue)>) -> JsonValue {
    JsonValue::Obj(fields.into_iter().map(|(k, v)| (k.to_string(), v)).collect())
}

fn cursor_text(c: &rusqlite::Connection) -> Option<String> {
    match get_field(&get_config(c), "lastSyncedAt") {
        Some(JsonValue::Str(t)) => Some(t.clone()),
        _ => None,
    }
}

#[test]
fn pull_without_remote_is_a_no_op() {
    let mut c = fresh();
    put_transacao(&mut c, &obj(vec![("id", s("keep")), ("date", s("2024-01-01"))])).unwrap();
    assert!(pull_plan(&c, "").is_none());
    assert_eq!(get_all_transacoes(&c).unwrap().len(), 1);
    assert_eq!(cursor_text(&c), None);
}

#[test]
fn pull_url_carries_encoded_cursor() {
    let mut c = fresh();
    let p = pull_plan(&c, "http://remote.test/").unwrap();
    assert_eq!(p.url, "http://remote.test/sync");
    assert_eq!(p.timeout_secs, 15);
    set_config(&mut c, "lastSyncedAt", "17 000/x").unwrap();
    let p = pull_plan(&c, "http://remote.test/").unwrap();
    assert_eq!(p.url, "http://remote.test/sync?since=17%20000%2Fx");
}

#[test]
fn pull_applies_received_entries() {
    let mut c = fresh();
    let body = "{\"transacoes\":[{\"id\":\"t1\",\"date\":\"2024-04-01\",\"value\":7}],\"recorrentes\":[],\"config\":{}}";
    apply_pull(&mut c, 200, body).unwrap();
    let docs = get_all_transacoes(&c).unwrap();
    assert_eq!(docs.len(), 1);
    assert_eq!(get_field(&docs[0], "id"), Some(&s("t1")));
    assert_eq!(get_field(&docs[0], "value"), Some(&JsonValue::Int(7)));
    assert_eq!(get_all_recorrentes(&c).unwrap().len(), 0);
    let cur = cursor_text(&c).unwrap();
    assert!(!cur.is_empty());
    assert!(cur.chars().all(|ch| ch.is_ascii_digit()));
}

#[test]
fn pull_overwrites_config_lists() {
    let mut c = fresh();
    set_config(&mut c, "categorias", "[\"old\"]").unwrap();
    let body = "{\"transacoes\":[],\"recorrentes\":[],\"config\":{\"categorias\":[\"a\",\"b\"]}}";
    apply_pull(&mut c, 200, body).unwrap();
    let cfg = get_config(&c);
    assert_eq!(get_field(&cfg, "categorias"), Some(&JsonValue::Arr(vec![s("a"), s("b")])));
}

#[test]
fn pull_fails_on_status_and_leaves_store() {
    let mut c = fresh();
    put_transacao(&mut c, &obj(vec![("id", s("keep")), ("date", s("2024-01-01"))])).unwrap();
    assert_eq!(apply_pull(&mut c, 500, "{}"), Err(SyncError::HttpStatus(500)));
    assert_eq!(get_all_transacoes(&c).unwrap().len(), 1);
    assert_eq!(cursor_text(&c), None);
}

#[test]
fn pull_fails_on_malformed_body() {
    let mut c = fresh();
    assert_eq!(apply_pull(&mut c, 200, "{oops"), Err(SyncError::BadBody));
    assert_eq!(cursor_text(&c), None);
}

#[test]
fn restore_without_remote_fails_and_keeps_store() {
    let mut c = fresh();
    put_transacao(&mut c, &obj(vec![("id", s("keep")), ("date", s("2024-01-01"))])).unwrap();
    match restore_plan("") {
        Err(SyncError::NoRemote) => {},
        other => panic!("unexpected plan outcome: {:?}", other),
    }
    assert_eq!(get_all_transacoes(&c).unwrap().len(), 1);
}

#[test]
fn restore_truncates_to_remote_state() {
    let mut c = fresh();
    put_transacao(&mut c, &obj(vec![("id", s("a")), ("date", s("2024-01-01"))])).unwrap();
    put_transacao(&mut c, &obj(vec![("id", s("b")), ("date", s("2024-01-02"))])).unwrap();
    let body = "{\"transacoes\":[],\"recorrentes\":[],\"config\":{}}";
    apply_restore(&mut c, 200, body).unwrap();
    assert_eq!(get_all_transacoes(&c).unwrap().len(), 0);
    assert!(cursor_text(&c).is_some());
}

#[test]
fn restore_keeps_store_on_bad_status() {
    let mut c = fresh();
    put_transacao(&mut c, &obj(vec![("id", s("a")), ("date", s("2024-01-01"))])).unwrap();
    assert_eq!(apply_restore(&mut c, 404, "{}"), Err(SyncError::HttpStatus(404)));
    assert_eq!(get_all_transacoes(&c).unwrap().len(), 1);
}

#[test]
fn restore_plan_uses_long_timeout() {
    let p = restore_plan("http://remote.test").unwrap();
    assert_eq!(p.url, "http://remote.test/sync");
    assert_eq!(p.timeout_secs, 30);
}

#[test]
fn push_without_remote_plans_nothing() {
    let c = fresh();
    assert!(push_plan(&c, "").unwrap().is_none());
}

#[test]
fn push_body_is_the_full_snapshot() {
    let mut c = fresh();
    put_transacao(
        &mut c,
        &obj(vec![
            ("id", s("t1")),
            ("date", s("2024-01-01")),
            ("value", JsonValue::Num("9.5".to_string())),
        ]),
    )
    .unwrap();
    set_config(&mut c, "categorias", "[\"x\"]").unwrap();
    let p = push_plan(&c, "http://remote.test").unwrap().unwrap();
    assert_eq!(p.url, "http://remote.test/sync");
    assert_eq!(p.timeout_secs, 15);
    let body: serde_json::Value = serde_json::from_str(&p.body).unwrap();
    assert_eq!(body["transacoes"][0]["id"], serde_json::Value::String("t1".to_string()));
    assert_eq!(body["transacoes"][0]["value"].as_f64(), Some(9.5));
    assert_eq!(body["recorrentes"].as_array().unwrap().len(), 0);
    assert_eq!(body["config"]["categorias"][0], serde_json::Value::String("x".to_string()));
    assert_eq!(body["config"]["contas"].as_array().unwrap().len(), 0);
}

#[test]
fn finish_push_stamps_cursor_only_on_success() {
    let mut c = fresh();
    assert_eq!(finish_push(&mut c, 500), Err(SyncError::HttpStatus(500)));
    assert_eq!(cursor_text(&c), None);
    finish_push(&mut c, 204).unwrap();
    assert!(cursor_text(&c).is_some());
}
