use ledger_store::doc::JsonValue;
use ledger_store::doc::get_field;
use ledger_store::mapper::Amount;
use ledger_store::mapper::doc_of_tx;
use ledger_store::mapper::tx_of_doc;
use ledger_store::store::delete_transacao;
use ledger_store::store::get_all_recorrentes;
use ledger_store::store::get_all_transacoes;
use ledger_store::store::get_config;
use ledger_store::store::migrate;
use ledger_store::store::put_recorrencia;
use ledger_store::store::put_recorrentes;
use ledger_store::store::put_transacao;
use ledger_store::store::set_auth_token;
use ledger_store::store::set_config;

fn fresh() -> rusqlite::Connection {
    let mut c = rusqlite::Connection::open_in_memory().unwrap();
    migrate(&mut c).unwrap();
    c
}

fn s(x: &str) -> JsonValue {
    JsonValue::Str(x.to_string())
}

fn obj(fields: Vec<(&str, JsonValue)>) -> JsonValue {
    JsonValue::Obj(fields.into_iter().map(|(k, v)| (k.to_string(), v)).collect())
}

#[test]
fn upsert_replaces_all_fields() {
    let mut c = fresh();
    put_transacao(
        &mut c,
        &obj(vec![
            ("id", s("a")),
            ("date", s("2024-01-01")),
            ("description", s("old words")),
            ("value", JsonValue::Int(10)),
            ("status", s("pago")),
        ]),
    )
    .unwrap();
    put_transacao(
        &mut c,
        &obj(vec![("id", s("a")), ("date", s("2024-02-02")), ("value", JsonValue::Int(20))]),
    )
    .unwrap();
    let docs = get_all_transacoes(&c).unwrap();
    assert_eq!(docs.len(), 1);
    let d = &docs[0];
    assert_eq!(get_field(d, "id"), Some(&s("a")));
    assert_eq!(get_field(d, "date"), Some(&s("2024-02-02")));
    assert_eq!(get_field(d, "description"), Some(&JsonValue::Null));
    assert_eq!(get_field(d, "status"), Some(&JsonValue::Null));
    assert_eq!(get_field(d, "value"), Some(&JsonValue::Int(20)));
    assert_eq!(get_field(d, "type"), Some(&s("saida")));
    assert_eq!(get_field(d, "deleted"), Some(&JsonValue::Bool(false)));
}

#[test]
fn mapper_round_trip_preserves_fields() {
    let fields: Vec<(String, JsonValue)> = vec![
        ("id".to_string(), s("t9")),
        ("date".to_string(), s("2024-05-06")),
        ("description".to_string(), s("monthly fee")),
        ("client".to_string(), s("acme")),
        ("value".to_string(), JsonValue::Num("12.55".to_string())),
        ("type".to_string(), s("entrada")),
        ("contexto".to_string(), s("ops")),
        ("contraparte".to_string(), s("bank")),
        ("category".to_string(), s("fees")),
        ("account".to_string(), s("main")),
        ("metodoPagamento".to_string(), s("pix")),
        ("status".to_string(), s("pago")),
        ("deleted".to_string(), JsonValue::Bool(true)),
        ("recorrenciaId".to_string(), s("r1")),
    ];
    let row = tx_of_doc(&fields, "1700000000");
    assert_eq!(row.id, "t9");
    assert_eq!(row.value, Amount::Text("12.55".to_string()));
    let doc = doc_of_tx(&row);
    let expected: Vec<(String, JsonValue)> = vec![
        ("id".to_string(), s("t9")),
        ("date".to_string(), s("2024-05-06")),
        ("description".to_string(), s("monthly fee")),
        ("client".to_string(), s("acme")),
        ("value".to_string(), JsonValue::Num("12.55".to_string())),
        ("type".to_string(), s("entrada")),
        ("contexto".to_string(), s("ops")),
        ("contraparte".to_string(), s("bank")),
        ("category".to_string(), s("fees")),
        ("account".to_string(), s("main")),
        ("metodoPagamento".to_string(), s("pix")),
        ("status".to_string(), s("pago")),
        ("deleted".to_string(), JsonValue::Bool(true)),
        ("recorrenciaId".to_string(), s("r1")),
        ("updatedAt".to_string(), s("1700000000")),
    ];
    assert_eq!(doc, JsonValue::Obj(expected));
}

#[test]
fn list_orders_dates_descending() {
    let mut c = fresh();
    for (id, date) in [("t1", "2024-01-01"), ("t2", "2024-03-01"), ("t3", "2024-02-01")] {
        put_transacao(&mut c, &obj(vec![("id", s(id)), ("date", s(date))])).unwrap();
    }
    let docs = get_all_transacoes(&c).unwrap();
    let dates: Vec<&JsonValue> = docs.iter().map(|d| get_field(d, "date").unwrap()).collect();
    assert_eq!(dates, vec![&s("2024-03-01"), &s("2024-02-01"), &s("2024-01-01")]);
}

#[test]
fn get_config_on_empty_store() {
    let c = fresh();
    let cfg = get_config(&c);
    let empty = JsonValue::Arr(vec![]);
    assert_eq!(get_field(&cfg, "categorias"), Some(&empty));
    assert_eq!(get_field(&cfg, "contas"), Some(&empty));
    assert_eq!(get_field(&cfg, "contasInvestimento"), Some(&empty));
    assert_eq!(get_field(&cfg, "lastSyncedAt"), Some(&JsonValue::Null));
}

#[test]
fn get_config_parses_stored_lists() {
    let mut c = fresh();
    set_config(&mut c, "categorias", "[\"x\",\"y\"]").unwrap();
    set_config(&mut c, "contas", "not json at all").unwrap();
    let cfg = get_config(&c);
    assert_eq!(get_field(&cfg, "categorias"), Some(&JsonValue::Arr(vec![s("x"), s("y")])));
    assert_eq!(get_field(&cfg, "contas"), Some(&JsonValue::Arr(vec![])));
}

#[test]
fn delete_removes_and_tolerates_absent() {
    let mut c = fresh();
    put_transacao(&mut c, &obj(vec![("id", s("a")), ("date", s("2024-01-01"))])).unwrap();
    delete_transacao(&mut c, "a").unwrap();
    assert_eq!(get_all_transacoes(&c).unwrap().len(), 0);
    delete_transacao(&mut c, "a").unwrap();
    assert_eq!(get_all_transacoes(&c).unwrap().len(), 0);
}

#[test]
fn put_transacao_rejects_non_object() {
    let mut c = fresh();
    let got = put_transacao(&mut c, &s("not a record"));
    assert_eq!(got, Err("expected object".to_string()));
    assert_eq!(get_all_transacoes(&c).unwrap().len(), 0);
}

#[test]
fn recurring_defaults_and_storage_names() {
    let mut c = fresh();
    put_recorrencia(
        &mut c,
        &obj(vec![
            ("id", s("r1")),
            ("titulo", s("rent")),
            ("metodoPagamento", s("pix")),
            ("diaVencimento", JsonValue::Int(15)),
        ]),
    )
    .unwrap();
    let docs = get_all_recorrentes(&c).unwrap();
    assert_eq!(docs.len(), 1);
    let d = &docs[0];
    assert_eq!(get_field(d, "titulo"), Some(&s("rent")));
    assert_eq!(get_field(d, "metodo_pagamento"), Some(&s("pix")));
    assert_eq!(get_field(d, "dia_vencimento"), Some(&JsonValue::Int(15)));
    assert_eq!(get_field(d, "ativo"), Some(&JsonValue::Bool(true)));
    assert_eq!(get_field(d, "valor"), Some(&JsonValue::Int(0)));
    assert_eq!(get_field(d, "metodoPagamento"), None);
}

#[test]
fn batch_skips_malformed_template() {
    let mut c = fresh();
    let items = vec![
        obj(vec![("id", s("r1")), ("titulo", s("one"))]),
        s("malformed"),
        obj(vec![("id", s("r3")), ("titulo", s("three"))]),
    ];
    put_recorrentes(&mut c, &items).unwrap();
    assert_eq!(get_all_recorrentes(&c).unwrap().len(), 2);
}

#[test]
fn numeric_text_survives_the_store() {
    let mut c = fresh();
    put_transacao(
        &mut c,
        &obj(vec![
            ("id", s("n1")),
            ("date", s("2024-01-01")),
            ("value", JsonValue::Num("12.55".to_string())),
        ]),
    )
    .unwrap();
    let docs = get_all_transacoes(&c).unwrap();
    assert_eq!(get_field(&docs[0], "value"), Some(&JsonValue::Num("12.55".to_string())));
}

#[test]
fn auth_token_is_stored() {
    let mut c = fresh();
    set_auth_token(&mut c, Some("tok-12345")).unwrap();
    let got: String = c
        .query_row("SELECT value FROM config WHERE key = 'authToken'", [], |r| r.get(0))
        .unwrap();
    assert_eq!(got, "tok-12345");
    set_auth_token(&mut c, None).unwrap();
    let got: String = c
        .query_row("SELECT value FROM config WHERE key = 'authToken'", [], |r| r.get(0))
        .unwrap();
    assert_eq!(got, "");
}
