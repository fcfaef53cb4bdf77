//! The entity store: schema management and the operations over the three
//! tables of the single-file relational store, specified against abstract
//! table contents.

use vstd::prelude::*;
use crate::doc::JsonValue;
use crate::doc::SpecJson;
use crate::doc::spec_fields_of;
use crate::doc::spec_json_of;
use crate::json::spec_parse_json;
use crate::json::parse_json;
use crate::mapper::Amount;
use crate::mapper::TxRow;
use crate::mapper::TxRowV;
use crate::mapper::RecRow;
use crate::mapper::RecRowV;
use crate::mapper::spec_tx_of_doc;
use crate::mapper::spec_rec_of_doc;
use crate::mapper::spec_doc_of_tx;
use crate::mapper::spec_doc_of_rec;
use crate::mapper::tx_of_doc;
use crate::mapper::rec_of_doc;
use crate::mapper::doc_of_tx;
use crate::mapper::doc_of_rec;

verus! {

#[verifier::external_type_specification]
#[verifier::external_body]
pub struct ExConnection(rusqlite::Connection);

#[verifier::external_type_specification]
#[verifier::external_body]
pub struct ExRusqliteError(rusqlite::Error);

#[verifier::external_type_specification]
#[verifier::external_body]
pub struct ExRow<'a>(rusqlite::Row<'a>);

#[verifier::external_type_specification]
#[verifier::external_body]
pub struct ExSqlValue(rusqlite::types::Value);

/// Converts a stored numeric or text column value into an amount, one arm
/// per variant; other storage classes never occur under this schema.
#[verifier::external_body]
fn amount_from_sql(v: rusqlite::types::Value) -> Amount {
    match v {
        rusqlite::types::Value::Integer(n) => Amount::Int(n),
        rusqlite::types::Value::Text(s) => Amount::Text(s),
        _ => Amount::Int(0),
    }
}

/// Converts one row of the transaction table, column by column.
#[verifier::external_body]
fn tx_from_row(w: &rusqlite::Row<'_>) -> Result<TxRow, rusqlite::Error> {
    Ok(TxRow {
        id: w.get(0)?, date: w.get(1)?, description: w.get(2)?, client: w.get(3)?,
        value: amount_from_sql(w.get(4)?), tipo: w.get(5)?, contexto: w.get(6)?,
        contraparte: w.get(7)?, category: w.get(8)?, account: w.get(9)?,
        metodo_pagamento: w.get(10)?, status: w.get(11)?, deleted: w.get(12)?,
        recorrencia_id: w.get(13)?, updated_at: w.get(14)?,
    })
}

/// Converts one row of the recurring-template table, column by column.
#[verifier::external_body]
fn rec_from_row(w: &rusqlite::Row<'_>) -> Result<RecRow, rusqlite::Error> {
    Ok(RecRow {
        id: w.get(0)?, titulo: w.get(1)?, valor: amount_from_sql(w.get(2)?),
        tipo: w.get(3)?, categoria: w.get(4)?, conta: w.get(5)?,
        metodo_pagamento: w.get(6)?, dia_vencimento: w.get(7)?, ativo: w.get(8)?,
        updated_at: w.get(9)?,
    })
}

/// The rows of the transaction table, keyed by identifier; a table that does
/// not exist reads as empty.
pub uninterp spec fn tx_table(c: rusqlite::Connection) -> Map<Seq<char>, TxRowV>;

/// The rows of the recurring-template table, keyed by identifier.
pub uninterp spec fn rec_table(c: rusqlite::Connection) -> Map<Seq<char>, RecRowV>;

/// The key/value entries of the config table; a row whose value is null
/// reads as absent.
pub uninterp spec fn cfg_table(c: rusqlite::Connection) -> Map<Seq<char>, Seq<char>>;

/// Code-point order on text, the order the store's BINARY collation gives
/// UTF-8 encoded text.
pub open spec fn spec_str_le(a: Seq<char>, b: Seq<char>) -> bool
    decreases a.len(),
{
    if a.len() == 0 {
        true
    } else if b.len() == 0 {
        false
    } else if (a[0] as u32) < (b[0] as u32) {
        true
    } else if (a[0] as u32) > (b[0] as u32) {
        false
    } else {
        spec_str_le(a.skip(1), b.skip(1))
    }
}

/// `rows` lists exactly the rows of table `m`, each under its identifier,
/// no identifier twice.
pub open spec fn spec_tx_listing(rows: Seq<TxRowV>, m: Map<Seq<char>, TxRowV>) -> bool {
    &&& forall|i: int|
        0 <= i < rows.len() ==> m.contains_key(#[trigger] rows[i].id) && m[rows[i].id] == rows[i]
    &&& forall|i: int, j: int|
        0 <= i < j < rows.len() ==> #[trigger] rows[i].id != #[trigger] rows[j].id
    &&& forall|k: Seq<char>|
        #[trigger] m.contains_key(k) ==> exists|i: int|
            0 <= i < rows.len() && (#[trigger] rows[i].id) == k
}

pub open spec fn spec_rec_listing(rows: Seq<RecRowV>, m: Map<Seq<char>, RecRowV>) -> bool {
    &&& forall|i: int|
        0 <= i < rows.len() ==> m.contains_key(#[trigger] rows[i].id) && m[rows[i].id] == rows[i]
    &&& forall|i: int, j: int|
        0 <= i < j < rows.len() ==> #[trigger] rows[i].id != #[trigger] rows[j].id
    &&& forall|k: Seq<char>|
        #[trigger] m.contains_key(k) ==> exists|i: int|
            0 <= i < rows.len() && (#[trigger] rows[i].id) == k
}

/// Dates never increase along the listing.
pub open spec fn spec_dates_desc(rows: Seq<TxRowV>) -> bool {
    forall|i: int, j: int|
        0 <= i <= j < rows.len() ==> spec_str_le(#[trigger] rows[j].date, #[trigger] rows[i].date)
}

/// The models of a list of documents.
pub open spec fn doc_views(items: Seq<JsonValue>) -> Seq<SpecJson> {
    Seq::new(items.len(), |i: int| items[i]@)
}

pub open spec fn tx_views(rows: Seq<TxRow>) -> Seq<TxRowV> {
    Seq::new(rows.len(), |i: int| rows[i]@)
}

pub open spec fn rec_views(rows: Seq<RecRow>) -> Seq<RecRowV> {
    Seq::new(rows.len(), |i: int| rows[i]@)
}

/// Decimal digits only, at least one.
pub open spec fn spec_all_digits(s: Seq<char>) -> bool {
    s.len() >= 1 && forall|i: int|
        0 <= i < s.len() ==> ('0' as u32) <= (#[trigger] s[i] as u32) <= ('9' as u32)
}

/// Relies on rusqlite's `Connection::execute_batch` running three
/// `CREATE TABLE IF NOT EXISTS` statements: existing tables and their rows
/// are never altered, and an absent table reads as empty before and after.
#[verifier::external_body]
pub fn migrate(conn: &mut rusqlite::Connection) -> (r: Result<(), rusqlite::Error>)
    ensures
        tx_table(*final(conn)) == tx_table(*old(conn)),
        rec_table(*final(conn)) == rec_table(*old(conn)),
        cfg_table(*final(conn)) == cfg_table(*old(conn)),
{
    conn.execute_batch(
        "CREATE TABLE IF NOT EXISTS transacoes (
            id TEXT PRIMARY KEY, data TEXT NOT NULL, description TEXT, client TEXT,
            value NOT NULL, type TEXT NOT NULL, contexto TEXT, contraparte TEXT,
            category TEXT, account TEXT, metodo_pagamento TEXT, status TEXT,
            deleted INTEGER NOT NULL DEFAULT 0, recorrencia_id TEXT, updated_at TEXT
        );
        CREATE TABLE IF NOT EXISTS recorrentes (
            id TEXT PRIMARY KEY, titulo TEXT, valor, tipo TEXT, categoria TEXT,
            conta TEXT, metodo_pagamento TEXT, dia_vencimento INTEGER, ativo INTEGER,
            updated_at TEXT
        );
        CREATE TABLE IF NOT EXISTS config (
            key TEXT PRIMARY KEY, value TEXT, updated_at TEXT
        );",
    )
}

/// Relies on rusqlite's `Connection::execute` running `INSERT OR REPLACE INTO
/// transacoes ...`: the row keyed by the bound identifier is created or fully
/// overwritten, nothing else changes; on an error nothing changes.
#[verifier::external_body]
fn put_tx_row(conn: &mut rusqlite::Connection, t: &TxRow) -> (r: Result<(), String>)
    ensures
        match r {
            Ok(_) => tx_table(*final(conn)) == tx_table(*old(conn)).insert(t.id@, t@),
            Err(_) => tx_table(*final(conn)) == tx_table(*old(conn)),
        },
        rec_table(*final(conn)) == rec_table(*old(conn)),
        cfg_table(*final(conn)) == cfg_table(*old(conn)),
{
    let v = match &t.value {
        Amount::Int(n) => rusqlite::types::Value::Integer(*n),
        Amount::Text(s) => rusqlite::types::Value::Text(s.clone()),
    };
    conn.execute(
        "INSERT OR REPLACE INTO transacoes (id, data, description, client, value, type, contexto, contraparte, category, account, metodo_pagamento, status, deleted, recorrencia_id, updated_at) VALUES (?1,?2,?3,?4,?5,?6,?7,?8,?9,?10,?11,?12,?13,?14,?15)",
        (&t.id, &t.date, &t.description, &t.client, v, &t.tipo, &t.contexto, &t.contraparte,
        &t.category, &t.account, &t.metodo_pagamento, &t.status, t.deleted, &t.recorrencia_id,
        &t.updated_at),
    ).map_err(|e| e.to_string())?;
    Ok(())
}

/// Relies on rusqlite's `Connection::execute` running `INSERT OR REPLACE INTO
/// recorrentes ...`, as for the transaction table.
#[verifier::external_body]
fn put_rec_row(conn: &mut rusqlite::Connection, t: &RecRow) -> (r: Result<(), String>)
    ensures
        match r {
            Ok(_) => rec_table(*final(conn)) == rec_table(*old(conn)).insert(t.id@, t@),
            Err(_) => rec_table(*final(conn)) == rec_table(*old(conn)),
        },
        tx_table(*final(conn)) == tx_table(*old(conn)),
        cfg_table(*final(conn)) == cfg_table(*old(conn)),
{
    let v = match &t.valor {
        Amount::Int(n) => rusqlite::types::Value::Integer(*n),
        Amount::Text(s) => rusqlite::types::Value::Text(s.clone()),
    };
    conn.execute(
        "INSERT OR REPLACE INTO recorrentes (id, titulo, valor, tipo, categoria, conta, metodo_pagamento, dia_vencimento, ativo, updated_at) VALUES (?1,?2,?3,?4,?5,?6,?7,?8,?9,?10)",
        (&t.id, &t.titulo, v, &t.tipo, &t.categoria, &t.conta, &t.metodo_pagamento,
        &t.dia_vencimento, t.ativo, &t.updated_at),
    ).map_err(|e| e.to_string())?;
    Ok(())
}

/// Relies on rusqlite's `Connection::execute` running `DELETE FROM transacoes
/// WHERE id = ?1`: the row with that identifier is removed if present.
#[verifier::external_body]
fn del_tx_row(conn: &mut rusqlite::Connection, id: &str) -> (r: Result<(), String>)
    ensures
        match r {
            Ok(_) => tx_table(*final(conn)) == tx_table(*old(conn)).remove(id@),
            Err(_) => tx_table(*final(conn)) == tx_table(*old(conn)),
        },
        rec_table(*final(conn)) == rec_table(*old(conn)),
        cfg_table(*final(conn)) == cfg_table(*old(conn)),
{
    conn.execute("DELETE FROM transacoes WHERE id = ?1", (id,)).map_err(|e| e.to_string())?;
    Ok(())
}

/// Relies on rusqlite's `Connection::execute` running `DELETE FROM
/// transacoes`: every row of the table is removed.
#[verifier::external_body]
pub(crate) fn clear_tx_rows(conn: &mut rusqlite::Connection) -> (r: Result<(), String>)
    ensures
        match r {
            Ok(_) => tx_table(*final(conn)) == Map::<Seq<char>, TxRowV>::empty(),
            Err(_) => tx_table(*final(conn)) == tx_table(*old(conn)),
        },
        rec_table(*final(conn)) == rec_table(*old(conn)),
        cfg_table(*final(conn)) == cfg_table(*old(conn)),
{
    conn.execute("DELETE FROM transacoes", ()).map_err(|e| e.to_string())?;
    Ok(())
}

/// Relies on rusqlite's `Connection::execute` running `DELETE FROM
/// recorrentes`.
#[verifier::external_body]
pub(crate) fn clear_rec_rows(conn: &mut rusqlite::Connection) -> (r: Result<(), String>)
    ensures
        match r {
            Ok(_) => rec_table(*final(conn)) == Map::<Seq<char>, RecRowV>::empty(),
            Err(_) => rec_table(*final(conn)) == rec_table(*old(conn)),
        },
        tx_table(*final(conn)) == tx_table(*old(conn)),
        cfg_table(*final(conn)) == cfg_table(*old(conn)),
{
    conn.execute("DELETE FROM recorrentes", ()).map_err(|e| e.to_string())?;
    Ok(())
}

/// Relies on rusqlite's `prepare`/`query_map` over `SELECT ... FROM
/// transacoes ORDER BY data DESC`: every row of the table comes back exactly
/// once, dates never increasing (SQLite's BINARY collation on UTF-8 text is
/// code-point order).
#[verifier::external_body]
fn select_tx_rows(conn: &rusqlite::Connection) -> (r: Result<Vec<TxRow>, String>)
    ensures
        match r {
            Ok(v) => spec_tx_listing(tx_views(v@), tx_table(*conn)) && spec_dates_desc(
                tx_views(v@),
            ),
            Err(_) => true,
        },
{
    let mut st = conn.prepare("SELECT id, data, description, client, value, type, contexto, contraparte, category, account, metodo_pagamento, status, deleted, recorrencia_id, updated_at FROM transacoes ORDER BY data DESC").map_err(|e| e.to_string())?;
    let it = st.query_map([], |w| tx_from_row(w)).map_err(|e| e.to_string())?;
    let mut out = Vec::new();
    for x in it {
        out.push(x.map_err(|e| e.to_string())?);
    }
    Ok(out)
}

/// Relies on rusqlite's `prepare`/`query_map` over `SELECT ... FROM
/// recorrentes`: every row of the table comes back exactly once.
#[verifier::external_body]
fn select_rec_rows(conn: &rusqlite::Connection) -> (r: Result<Vec<RecRow>, String>)
    ensures
        match r {
            Ok(v) => spec_rec_listing(rec_views(v@), rec_table(*conn)),
            Err(_) => true,
        },
{
    let mut st = conn.prepare("SELECT id, titulo, valor, tipo, categoria, conta, metodo_pagamento, dia_vencimento, ativo, updated_at FROM recorrentes").map_err(|e| e.to_string())?;
    let it = st.query_map([], |w| rec_from_row(w)).map_err(|e| e.to_string())?;
    let mut out = Vec::new();
    for x in it {
        out.push(x.map_err(|e| e.to_string())?);
    }
    Ok(out)
}

/// Relies on rusqlite's `Connection::query_row` over `SELECT value FROM
/// config WHERE key = ?1`: the stored text when such a row exists, `None`
/// when none matches (any failure reads as absent, as a null value does).
#[verifier::external_body]
pub(crate) fn cfg_get(conn: &rusqlite::Connection, key: &str) -> (r: Option<String>)
    ensures
        match r {
            Some(s) => cfg_table(*conn).contains_key(key@) && cfg_table(*conn)[key@] == s@,
            None => !cfg_table(*conn).contains_key(key@),
        },
{
    let got: Result<String, rusqlite::Error> = conn.query_row(
        "SELECT value FROM config WHERE key = ?1",
        (key,),
        |w| w.get(0),
    );
    got.ok()
}

/// Relies on rusqlite's `Connection::execute` running `INSERT OR REPLACE
/// INTO config ...`: the entry keyed by `key` is created or overwritten.
#[verifier::external_body]
fn cfg_put(conn: &mut rusqlite::Connection, key: &str, value: &str, now: &str) -> (r: Result<
    (),
    String,
>)
    ensures
        match r {
            Ok(_) => cfg_table(*final(conn)) == cfg_table(*old(conn)).insert(key@, value@),
            Err(_) => cfg_table(*final(conn)) == cfg_table(*old(conn)),
        },
        tx_table(*final(conn)) == tx_table(*old(conn)),
        rec_table(*final(conn)) == rec_table(*old(conn)),
{
    conn.execute(
        "INSERT OR REPLACE INTO config (key, value, updated_at) VALUES (?1, ?2, ?3)",
        (key, value, now),
    ).map_err(|e| e.to_string())?;
    Ok(())
}

/// Relies on std's `SystemTime`: the wall clock's seconds since the epoch,
/// rendered in decimal; "0" when the clock reads before the epoch.
#[verifier::external_body]
pub fn now_string() -> (r: String)
    ensures
        spec_all_digits(r@),
{
    std::time::SystemTime::now()
        .duration_since(std::time::UNIX_EPOCH)
        .ok()
        .map(|d| d.as_secs().to_string())
        .unwrap_or_else(|| "0".to_string())
}

/// The row an upsert writes for document `d` stamped `now`, applied to table
/// `m` when the write went through (`ok`); a document that is not an object
/// writes nothing.
pub open spec fn spec_tx_upsert(
    m: Map<Seq<char>, TxRowV>,
    d: SpecJson,
    now: Seq<char>,
    ok: bool,
) -> Map<Seq<char>, TxRowV> {
    match d {
        SpecJson::Obj(fs) => if ok {
            m.insert(spec_tx_of_doc(fs, now).id, spec_tx_of_doc(fs, now))
        } else {
            m
        },
        _ => m,
    }
}

pub open spec fn spec_rec_upsert(
    m: Map<Seq<char>, RecRowV>,
    d: SpecJson,
    now: Seq<char>,
    ok: bool,
) -> Map<Seq<char>, RecRowV> {
    match d {
        SpecJson::Obj(fs) => if ok {
            m.insert(spec_rec_of_doc(fs, now).id, spec_rec_of_doc(fs, now))
        } else {
            m
        },
        _ => m,
    }
}

/// A best-effort sequence of upserts: item `i` is applied when `oks[i]`
/// holds; a failed or ill-shaped item leaves the table as it was.
pub open spec fn spec_tx_batch(
    m: Map<Seq<char>, TxRowV>,
    items: Seq<SpecJson>,
    now: Seq<char>,
    oks: Seq<bool>,
) -> Map<Seq<char>, TxRowV>
    decreases items.len(),
{
    if items.len() == 0 {
        m
    } else {
        spec_tx_batch(spec_tx_upsert(m, items[0], now, oks[0]), items.skip(1), now, oks.skip(1))
    }
}

pub open spec fn spec_rec_batch(
    m: Map<Seq<char>, RecRowV>,
    items: Seq<SpecJson>,
    now: Seq<char>,
    oks: Seq<bool>,
) -> Map<Seq<char>, RecRowV>
    decreases items.len(),
{
    if items.len() == 0 {
        m
    } else {
        spec_rec_batch(spec_rec_upsert(m, items[0], now, oks[0]), items.skip(1), now, oks.skip(1))
    }
}

pub proof fn lemma_tx_batch_snoc(
    m: Map<Seq<char>, TxRowV>,
    items: Seq<SpecJson>,
    x: SpecJson,
    now: Seq<char>,
    oks: Seq<bool>,
    b: bool,
)
    requires
        items.len() == oks.len(),
    ensures
        spec_tx_batch(m, items.push(x), now, oks.push(b)) == spec_tx_upsert(
            spec_tx_batch(m, items, now, oks),
            x,
            now,
            b,
        ),
    decreases items.len(),
{
    reveal_with_fuel(spec_tx_batch, 3);
    reveal_with_fuel(spec_rec_batch, 3);
    if items.len() == 0 {
        assert(items.push(x)[0] == x);
        assert(oks.push(b)[0] == b);
        assert(items.push(x).skip(1) =~= Seq::<SpecJson>::empty());
        assert(oks.push(b).skip(1) =~= Seq::<bool>::empty());
    } else {
        assert(items.push(x)[0] == items[0]);
        assert(oks.push(b)[0] == oks[0]);
        assert(items.push(x).skip(1) =~= items.skip(1).push(x));
        assert(oks.push(b).skip(1) =~= oks.skip(1).push(b));
        lemma_tx_batch_snoc(
            spec_tx_upsert(m, items[0], now, oks[0]),
            items.skip(1),
            x,
            now,
            oks.skip(1),
            b,
        );
    }
}

pub proof fn lemma_rec_batch_snoc(
    m: Map<Seq<char>, RecRowV>,
    items: Seq<SpecJson>,
    x: SpecJson,
    now: Seq<char>,
    oks: Seq<bool>,
    b: bool,
)
    requires
        items.len() == oks.len(),
    ensures
        spec_rec_batch(m, items.push(x), now, oks.push(b)) == spec_rec_upsert(
            spec_rec_batch(m, items, now, oks),
            x,
            now,
            b,
        ),
    decreases items.len(),
{
    reveal_with_fuel(spec_tx_batch, 3);
    reveal_with_fuel(spec_rec_batch, 3);
    if items.len() == 0 {
        assert(items.push(x)[0] == x);
        assert(oks.push(b)[0] == b);
        assert(items.push(x).skip(1) =~= Seq::<SpecJson>::empty());
        assert(oks.push(b).skip(1) =~= Seq::<bool>::empty());
    } else {
        assert(items.push(x)[0] == items[0]);
        assert(oks.push(b)[0] == oks[0]);
        assert(items.push(x).skip(1) =~= items.skip(1).push(x));
        assert(oks.push(b).skip(1) =~= oks.skip(1).push(b));
        lemma_rec_batch_snoc(
            spec_rec_upsert(m, items[0], now, oks[0]),
            items.skip(1),
            x,
            now,
            oks.skip(1),
            b,
        );
    }
}

/// Writes the transaction document, stamped with the given last-modified
/// value; a document that is not an object is rejected and nothing changes.
pub fn put_transacao_at(conn: &mut rusqlite::Connection, tx: &JsonValue, now: &str) -> (r: Result<
    (),
    String,
>)
    ensures
        rec_table(*final(conn)) == rec_table(*old(conn)),
        cfg_table(*final(conn)) == cfg_table(*old(conn)),
        !(tx@ is Obj) ==> (r matches Err(m) && m@ == "expected object"@ && tx_table(
            *final(conn),
        ) == tx_table(*old(conn))),
        tx@ matches SpecJson::Obj(fs) ==> match r {
            Ok(_) => tx_table(*final(conn)) == tx_table(*old(conn)).insert(
                spec_tx_of_doc(fs, now@).id,
                spec_tx_of_doc(fs, now@),
            ),
            Err(_) => tx_table(*final(conn)) == tx_table(*old(conn)),
        },
{
    match tx {
        JsonValue::Obj(fs) => {
            let row = tx_of_doc(fs, now);
            proof {
                assert(tx@ matches SpecJson::Obj(g) && g =~= spec_fields_of(fs@));
            }
            put_tx_row(conn, &row)
        },
        _ => Err(String::from_str("expected object")),
    }
}

/// Writes the transaction document, stamping the wall clock as its
/// last-modified value.
pub fn put_transacao(conn: &mut rusqlite::Connection, tx: &JsonValue) -> (r: Result<(), String>)
    ensures
        rec_table(*final(conn)) == rec_table(*old(conn)),
        cfg_table(*final(conn)) == cfg_table(*old(conn)),
        !(tx@ is Obj) ==> (r matches Err(m) && m@ == "expected object"@ && tx_table(
            *final(conn),
        ) == tx_table(*old(conn))),
        tx@ matches SpecJson::Obj(fs) ==> match r {
            Ok(_) => exists|now: Seq<char>|
                #[trigger] spec_all_digits(now) && tx_table(*final(conn)) == tx_table(
                    *old(conn),
                ).insert(spec_tx_of_doc(fs, now).id, spec_tx_of_doc(fs, now)),
            Err(_) => tx_table(*final(conn)) == tx_table(*old(conn)),
        },
{
    let now = now_string();
    put_transacao_at(conn, tx, now.as_str())
}

/// Removes the transaction with the given identifier; removing an absent one
/// changes nothing and succeeds.
pub fn delete_transacao(conn: &mut rusqlite::Connection, id: &str) -> (r: Result<(), String>)
    ensures
        rec_table(*final(conn)) == rec_table(*old(conn)),
        cfg_table(*final(conn)) == cfg_table(*old(conn)),
        match r {
            Ok(_) => tx_table(*final(conn)) == tx_table(*old(conn)).remove(id@),
            Err(_) => tx_table(*final(conn)) == tx_table(*old(conn)),
        },
{
    del_tx_row(conn, id)
}

/// Lists every transaction as a document, soft-deleted rows included, dates
/// never increasing along the list.
pub fn get_all_transacoes(conn: &rusqlite::Connection) -> (r: Result<Vec<JsonValue>, String>)
    ensures
        match r {
            Ok(docs) => exists|rows: Seq<TxRowV>|
                {
                    &&& #[trigger] spec_tx_listing(rows, tx_table(*conn))
                    &&& spec_dates_desc(rows)
                    &&& docs@.len() == rows.len()
                    &&& forall|i: int|
                        0 <= i < rows.len() ==> (#[trigger] docs@[i])@ == spec_doc_of_tx(rows[i])
                },
            Err(_) => true,
        },
{
    let rows = select_tx_rows(conn)?;
    let ghost grows = tx_views(rows@);
    let mut docs: Vec<JsonValue> = Vec::new();
    let mut i: usize = 0;
    while i < rows.len()
        invariant
            grows == tx_views(rows@),
            spec_tx_listing(grows, tx_table(*conn)),
            spec_dates_desc(grows),
            0 <= i <= rows.len(),
            docs@.len() == i,
            forall|j: int| 0 <= j < i ==> (#[trigger] docs@[j])@ == spec_doc_of_tx(grows[j]),
        decreases rows.len() - i,
    {
        docs.push(doc_of_tx(&rows[i]));
        i = i + 1;
    }
    Ok(docs)
}

/// Writes the recurring-template document, stamped with the given
/// last-modified value.
pub fn put_recorrencia_at(conn: &mut rusqlite::Connection, d: &JsonValue, now: &str) -> (r: Result<
    (),
    String,
>)
    ensures
        tx_table(*final(conn)) == tx_table(*old(conn)),
        cfg_table(*final(conn)) == cfg_table(*old(conn)),
        !(d@ is Obj) ==> (r matches Err(m) && m@ == "expected object"@ && rec_table(
            *final(conn),
        ) == rec_table(*old(conn))),
        d@ matches SpecJson::Obj(fs) ==> match r {
            Ok(_) => rec_table(*final(conn)) == rec_table(*old(conn)).insert(
                spec_rec_of_doc(fs, now@).id,
                spec_rec_of_doc(fs, now@),
            ),
            Err(_) => rec_table(*final(conn)) == rec_table(*old(conn)),
        },
{
    match d {
        JsonValue::Obj(fs) => {
            let row = rec_of_doc(fs, now);
            proof {
                assert(d@ matches SpecJson::Obj(g) && g =~= spec_fields_of(fs@));
            }
            put_rec_row(conn, &row)
        },
        _ => Err(String::from_str("expected object")),
    }
}

/// Writes the recurring-template document, stamping the wall clock.
pub fn put_recorrencia(conn: &mut rusqlite::Connection, d: &JsonValue) -> (r: Result<(), String>)
    ensures
        tx_table(*final(conn)) == tx_table(*old(conn)),
        cfg_table(*final(conn)) == cfg_table(*old(conn)),
        !(d@ is Obj) ==> (r matches Err(m) && m@ == "expected object"@ && rec_table(
            *final(conn),
        ) == rec_table(*old(conn))),
        d@ matches SpecJson::Obj(fs) ==> match r {
            Ok(_) => exists|now: Seq<char>|
                #[trigger] spec_all_digits(now) && rec_table(*final(conn)) == rec_table(
                    *old(conn),
                ).insert(spec_rec_of_doc(fs, now).id, spec_rec_of_doc(fs, now)),
            Err(_) => rec_table(*final(conn)) == rec_table(*old(conn)),
        },
{
    let now = now_string();
    put_recorrencia_at(conn, d, now.as_str())
}

/// Writes a batch of recurring-template documents, best effort: one failed
/// or ill-shaped item is skipped and never aborts the rest.
pub fn put_recorrentes(conn: &mut rusqlite::Connection, items: &Vec<JsonValue>) -> (r: Result<
    (),
    String,
>)
    ensures
        tx_table(*final(conn)) == tx_table(*old(conn)),
        cfg_table(*final(conn)) == cfg_table(*old(conn)),
        r is Ok,
        exists|now: Seq<char>, oks: Seq<bool>|
            oks.len() == items@.len() && spec_all_digits(now) && rec_table(*final(conn))
                == #[trigger] spec_rec_batch(rec_table(*old(conn)), doc_views(items@), now, oks),
{
    let now = now_string();
    let ghost items_v = doc_views(items@);
    let ghost m0 = rec_table(*conn);
    let ghost mut oks: Seq<bool> = Seq::empty();
    let mut i: usize = 0;
    while i < items.len()
        invariant
            items_v == doc_views(items@),
            tx_table(*conn) == tx_table(*old(conn)),
            cfg_table(*conn) == cfg_table(*old(conn)),
            m0 == rec_table(*old(conn)),
            0 <= i <= items.len(),
            oks.len() == i,
            rec_table(*conn) == spec_rec_batch(m0, items_v.take(i as int), now@, oks),
        decreases items.len() - i,
    {
        let got = put_recorrencia_at(conn, &items[i], now.as_str());
        proof {
            let b = got is Ok;
            lemma_rec_batch_snoc(m0, items_v.take(i as int), items_v[i as int], now@, oks, b);
            assert(items_v.take(i as int).push(items_v[i as int]) =~= items_v.take(i + 1 as int));
            oks = oks.push(b);
        }
        i = i + 1;
    }
    proof {
        assert(items_v.take(items@.len() as int) =~= items_v);
    }
    Ok(())
}

/// Lists every recurring template as a document.
pub fn get_all_recorrentes(conn: &rusqlite::Connection) -> (r: Result<Vec<JsonValue>, String>)
    ensures
        match r {
            Ok(docs) => exists|rows: Seq<RecRowV>|
                {
                    &&& #[trigger] spec_rec_listing(rows, rec_table(*conn))
                    &&& docs@.len() == rows.len()
                    &&& forall|i: int|
                        0 <= i < rows.len() ==> (#[trigger] docs@[i])@ == spec_doc_of_rec(rows[i])
                },
            Err(_) => true,
        },
{
    let rows = select_rec_rows(conn)?;
    let ghost grows = rec_views(rows@);
    let mut docs: Vec<JsonValue> = Vec::new();
    let mut i: usize = 0;
    while i < rows.len()
        invariant
            grows == rec_views(rows@),
            spec_rec_listing(grows, rec_table(*conn)),
            0 <= i <= rows.len(),
            docs@.len() == i,
            forall|j: int| 0 <= j < i ==> (#[trigger] docs@[j])@ == spec_doc_of_rec(grows[j]),
        decreases rows.len() - i,
    {
        docs.push(doc_of_rec(&rows[i]));
        i = i + 1;
    }
    Ok(docs)
}

/// The value `get_config` reads back for one of the three list keys: the
/// stored entry parsed as JSON, an empty list when absent or unparsable.
pub open spec fn spec_cfg_list_val(m: Map<Seq<char>, Seq<char>>, k: Seq<char>) -> SpecJson {
    if m.contains_key(k) {
        match spec_parse_json(m[k]) {
            Some(v) => v,
            None => SpecJson::Arr(Seq::empty()),
        }
    } else {
        SpecJson::Arr(Seq::empty())
    }
}

/// The document `get_config` assembles: the three list keys and the raw
/// synchronization cursor, null when no cursor was ever stamped.
pub open spec fn spec_cfg_doc(m: Map<Seq<char>, Seq<char>>) -> SpecJson {
    SpecJson::Obj(
        seq![
            ("categorias"@, spec_cfg_list_val(m, "categorias"@)),
            ("contas"@, spec_cfg_list_val(m, "contas"@)),
            ("contasInvestimento"@, spec_cfg_list_val(m, "contasInvestimento"@)),
            (
                "lastSyncedAt"@,
                if m.contains_key("lastSyncedAt"@) {
                    SpecJson::Str(m["lastSyncedAt"@])
                } else {
                    SpecJson::Null
                },
            ),
        ],
    )
}

fn empty_list() -> (r: JsonValue)
    ensures
        r@ == SpecJson::Arr(Seq::<SpecJson>::empty()),
{
    let v: Vec<JsonValue> = Vec::new();
    let d = JsonValue::Arr(v);
    proof {
        assert(d@ matches SpecJson::Arr(g) && g =~= Seq::<SpecJson>::empty());
    }
    d
}

pub(crate) fn cfg_list_val(conn: &rusqlite::Connection, key: &str) -> (r: JsonValue)
    ensures
        r@ == spec_cfg_list_val(cfg_table(*conn), key@),
{
    match cfg_get(conn, key) {
        Some(s) => match parse_json(s.as_str()) {
            Some(v) => v,
            None => empty_list(),
        },
        None => empty_list(),
    }
}

/// Assembles the configuration document: the three preference lists, each
/// defaulting to an empty list, and the raw synchronization cursor.
pub fn get_config(conn: &rusqlite::Connection) -> (r: JsonValue)
    ensures
        r@ == spec_cfg_doc(cfg_table(*conn)),
{
    let mut fs: Vec<(String, JsonValue)> = Vec::new();
    fs.push((String::from_str("categorias"), cfg_list_val(conn, "categorias")));
    fs.push((String::from_str("contas"), cfg_list_val(conn, "contas")));
    fs.push((String::from_str("contasInvestimento"), cfg_list_val(conn, "contasInvestimento")));
    let cursor = match cfg_get(conn, "lastSyncedAt") {
        Some(s) => JsonValue::Str(s),
        None => JsonValue::Null,
    };
    fs.push((String::from_str("lastSyncedAt"), cursor));
    let d = JsonValue::Obj(fs);
    proof {
        assert(fs@.len() == 4);
        let w = match spec_cfg_doc(cfg_table(*conn)) {
            SpecJson::Obj(g) => g,
            _ => Seq::empty(),
        };
        assert(fs@[0].0@ == w[0].0 && spec_json_of(fs@[0].1) == w[0].1);
        assert(fs@[1].0@ == w[1].0 && spec_json_of(fs@[1].1) == w[1].1);
        assert(fs@[2].0@ == w[2].0 && spec_json_of(fs@[2].1) == w[2].1);
        assert(fs@[3].0@ == w[3].0 && spec_json_of(fs@[3].1) == w[3].1);
        assert(d@ matches SpecJson::Obj(g) && g =~~= w);
        assert(d@ =~~= spec_cfg_doc(cfg_table(*conn)));
    }
    d
}

/// Writes a configuration entry, overwriting any entry under the same key.
pub fn set_config(conn: &mut rusqlite::Connection, key: &str, value: &str) -> (r: Result<
    (),
    String,
>)
    ensures
        tx_table(*final(conn)) == tx_table(*old(conn)),
        rec_table(*final(conn)) == rec_table(*old(conn)),
        match r {
            Ok(_) => cfg_table(*final(conn)) == cfg_table(*old(conn)).insert(key@, value@),
            Err(_) => cfg_table(*final(conn)) == cfg_table(*old(conn)),
        },
{
    let now = now_string();
    cfg_put(conn, key, value, now.as_str())
}

/// Stores the authentication token under its configuration key; clearing
/// the token stores the empty text.
pub fn set_auth_token(conn: &mut rusqlite::Connection, token: Option<&str>) -> (r: Result<
    (),
    String,
>)
    ensures
        tx_table(*final(conn)) == tx_table(*old(conn)),
        rec_table(*final(conn)) == rec_table(*old(conn)),
        match r {
            Ok(_) => cfg_table(*final(conn)) == cfg_table(*old(conn)).insert(
                "authToken"@,
                match token {
                    Some(t) => t@,
                    None => ""@,
                },
            ),
            Err(_) => cfg_table(*final(conn)) == cfg_table(*old(conn)),
        },
{
    match token {
        Some(t) => set_config(conn, "authToken", t),
        None => set_config(conn, "authToken", ""),
    }
}

/// Law: an upsert keyed by an identifier fully replaces the row under that
/// identifier. The row afterwards, and the document it reads back as, are
/// determined by the written document and the stamp alone: no field of any
/// previously stored row survives, whatever table the write met.
pub proof fn lemma_upsert_replaces_all_fields(
    m: Map<Seq<char>, TxRowV>,
    fs: Seq<(Seq<char>, SpecJson)>,
    now: Seq<char>,
)
    ensures
        ({
            let t = spec_tx_of_doc(fs, now);
            let m2 = m.insert(t.id, t);
            &&& m2.contains_key(t.id)
            &&& m2[t.id] == t
            &&& spec_doc_of_tx(m2[t.id]) == spec_doc_of_tx(t)
            &&& forall|m1: Map<Seq<char>, TxRowV>| (#[trigger] m1.insert(t.id, t))[t.id] == m2[t.id]
        }),
{
}

} // verus!
