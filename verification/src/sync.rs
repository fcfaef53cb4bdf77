//! The synchronization engine: the decisions of the pull, push and
//! full-restore flows against the remote "sync" endpoint. Building the
//! request is separated from applying the response, so the network exchange
//! itself stays outside the library; a caller performs the planned fetch and
//! hands the status and body back.

use vstd::prelude::*;
use vstd::string::StrSliceExecFns;
use vstd::string::StringExecFns;
use crate::doc::JsonValue;
use crate::doc::SpecJson;
use crate::doc::spec_lookup;
use crate::doc::spec_json_of;
use crate::doc::get_field;
use crate::json::spec_parse_json;
use crate::json::spec_render_json;
use crate::json::parse_json;
use crate::json::render_json;
use crate::mapper::TxRowV;
use crate::mapper::RecRowV;
use crate::mapper::spec_doc_of_tx;
use crate::mapper::spec_doc_of_rec;
use crate::store::tx_table;
use crate::store::rec_table;
use crate::store::cfg_table;
use crate::store::spec_tx_listing;
use crate::store::spec_rec_listing;
use crate::store::spec_dates_desc;
use crate::store::spec_all_digits;
use crate::store::spec_tx_batch;
use crate::store::spec_rec_batch;
use crate::store::lemma_tx_batch_snoc;
use crate::store::lemma_rec_batch_snoc;
use crate::store::spec_cfg_list_val;
use crate::store::doc_views;
use crate::store::now_string;
use crate::store::set_config;
use crate::store::get_all_transacoes;
use crate::store::get_all_recorrentes;
use crate::store::put_transacao_at;
use crate::store::put_recorrencia_at;
use crate::store::cfg_get;
use crate::store::cfg_list_val;
use crate::store::clear_tx_rows;
use crate::store::clear_rec_rows;

verus! {

/// Why a synchronization flow failed.
#[derive(Debug, PartialEq)]
pub enum SyncError {
    /// No remote base URL is configured; only restore treats this as an error.
    NoRemote,
    /// The remote answered with a status outside the success range.
    HttpStatus(u16),
    /// The response body was not well-formed JSON.
    BadBody,
    /// A store operation failed with the given message.
    Store(String),
}

/// A planned GET against the remote.
#[derive(Debug)]
pub struct FetchPlan {
    pub url: String,
    pub timeout_secs: u64,
}

/// A planned POST of a full-state snapshot.
#[derive(Debug)]
pub struct PushPlan {
    pub url: String,
    pub body: String,
    pub timeout_secs: u64,
}

/// The base URL with its trailing slashes removed.
pub open spec fn spec_trim_slashes(s: Seq<char>) -> Seq<char>
    decreases s.len(),
{
    if s.len() > 0 && s[s.len() - 1] == '/' {
        spec_trim_slashes(s.drop_last())
    } else {
        s
    }
}

pub open spec fn spec_unreserved(c: char) -> bool {
    ||| ('a' as u32) <= (c as u32) <= ('z' as u32)
    ||| ('A' as u32) <= (c as u32) <= ('Z' as u32)
    ||| ('0' as u32) <= (c as u32) <= ('9' as u32)
    ||| c == '-'
    ||| c == '.'
    ||| c == '_'
    ||| c == '~'
}

pub open spec fn spec_hex_digit(n: int) -> char {
    seq!['0', '1', '2', '3', '4', '5', '6', '7', '8', '9', 'A', 'B', 'C', 'D', 'E', 'F'][n]
}

pub open spec fn spec_enc_char(c: char) -> Seq<char> {
    if spec_unreserved(c) {
        seq![c]
    } else {
        seq!['%', spec_hex_digit((c as u32) as int / 16), spec_hex_digit((c as u32) as int % 16)]
    }
}

pub open spec fn spec_ascii(s: Seq<char>) -> bool {
    forall|i: int| 0 <= i < s.len() ==> (#[trigger] s[i] as u32) < 128
}

/// Character-wise percent-encoding, the form the encoder takes on ASCII text.
pub open spec fn spec_url_encode(s: Seq<char>) -> Seq<char> {
    Seq::new(s.len(), |i: int| spec_enc_char(s[i])).flatten()
}

/// What the URL encoder returns; a function of the text alone.
pub uninterp spec fn url_encoded(s: Seq<char>) -> Seq<char>;

/// Relies on urlencoding::encode: every byte outside A-Z a-z 0-9 - . _ ~ is
/// written as % and two uppercase hex digits; on ASCII text that is exactly
/// the character-wise encoding.
#[verifier::external_body]
fn url_encode(s: &str) -> (r: String)
    ensures
        r@ == url_encoded(s@),
        spec_ascii(s@) ==> r@ == spec_url_encode(s@),
{
    urlencoding::encode(s).into_owned()
}

/// Removes the trailing slashes of the base URL.
fn trim_trailing_slashes(s: &str) -> (r: String)
    ensures
        r@ == spec_trim_slashes(s@),
{
    let mut end: usize = s.unicode_len();
    proof {
        assert(s@.take(s@.len() as int) =~= s@);
    }
    while end > 0 && s.get_char(end - 1) == '/'
        invariant
            0 <= end <= s@.len(),
            spec_trim_slashes(s@) == spec_trim_slashes(s@.take(end as int)),
        decreases end,
    {
        proof {
            assert(s@.take(end as int).drop_last() =~= s@.take(end - 1 as int));
        }
        end = end - 1;
    }
    proof {
        if end > 0 {
            assert(spec_trim_slashes(s@.take(end as int)) == s@.take(end as int));
        } else {
            assert(s@.take(0) =~= Seq::<char>::empty());
        }
    }
    s.substring_char(0, end).to_owned()
}

/// The endpoint under a configured base URL.
pub open spec fn spec_sync_url(base: Seq<char>) -> Seq<char> {
    spec_trim_slashes(base) + "/sync"@
}

/// The pull URL: the endpoint, with the cursor as an encoded query parameter
/// when one is stored and non-empty.
pub open spec fn spec_pull_url(base: Seq<char>, cursor: Option<Seq<char>>) -> Seq<char> {
    match cursor {
        Some(c) => if c.len() == 0 {
            spec_sync_url(base)
        } else {
            spec_sync_url(base) + "?since="@ + url_encoded(c)
        },
        None => spec_sync_url(base),
    }
}

/// The stored synchronization cursor.
pub open spec fn spec_cursor(m: Map<Seq<char>, Seq<char>>) -> Option<Seq<char>> {
    if m.contains_key("lastSyncedAt"@) {
        Some(m["lastSyncedAt"@])
    } else {
        None
    }
}

/// Plans a pull. With no remote base URL configured the pull is a no-op and
/// no fetch is planned; the store is left untouched either way.
pub fn pull_plan(conn: &rusqlite::Connection, base_url: &str) -> (r: Option<FetchPlan>)
    ensures
        base_url@.len() == 0 ==> r is None,
        base_url@.len() > 0 ==> (r matches Some(p) && p.url@ == spec_pull_url(
            base_url@,
            spec_cursor(cfg_table(*conn)),
        ) && p.timeout_secs == 15),
{
    if base_url.is_empty() {
        return None;
    }
    let mut url = trim_trailing_slashes(base_url);
    url.append("/sync");
    match cfg_get(conn, "lastSyncedAt") {
        Some(c) => {
            if !c.as_str().is_empty() {
                let enc = url_encode(c.as_str());
                url.append("?since=");
                url.append(enc.as_str());
                proof {
                    assert(url@ =~= spec_pull_url(base_url@, spec_cursor(cfg_table(*conn))));
                }
            }
        },
        None => {},
    }
    Some(FetchPlan { url, timeout_secs: 15 })
}

/// Plans a restore. A restore without a configured remote is an error, and
/// nothing is touched.
pub fn restore_plan(base_url: &str) -> (r: Result<FetchPlan, SyncError>)
    ensures
        base_url@.len() == 0 ==> r matches Err(SyncError::NoRemote),
        base_url@.len() > 0 ==> (r matches Ok(p) && p.url@ == spec_sync_url(base_url@)
            && p.timeout_secs == 30),
{
    if base_url.is_empty() {
        return Err(SyncError::NoRemote);
    }
    let mut url = trim_trailing_slashes(base_url);
    url.append("/sync");
    Ok(FetchPlan { url, timeout_secs: 30 })
}

/// The entry list under key `k` of a response payload; anything but an
/// object holding a list there contributes nothing.
pub open spec fn spec_payload_items(d: SpecJson, k: Seq<char>) -> Seq<SpecJson> {
    match d {
        SpecJson::Obj(fs) => match spec_lookup(fs, k) {
            Some(SpecJson::Arr(xs)) => xs,
            _ => Seq::empty(),
        },
        _ => Seq::empty(),
    }
}

/// The value under config key `k` of a response payload, when present.
pub open spec fn spec_payload_cfg_val(d: SpecJson, k: Seq<char>) -> Option<SpecJson> {
    match d {
        SpecJson::Obj(fs) => match spec_lookup(fs, "config"@) {
            Some(SpecJson::Obj(cf)) => spec_lookup(cf, k),
            _ => None,
        },
        _ => None,
    }
}

/// One config list overwritten from the payload, when present and when the
/// write went through.
pub open spec fn spec_apply_cfg_key(
    m: Map<Seq<char>, Seq<char>>,
    d: SpecJson,
    k: Seq<char>,
    ok: bool,
) -> Map<Seq<char>, Seq<char>> {
    match spec_payload_cfg_val(d, k) {
        Some(v) => if ok {
            m.insert(k, spec_render_json(v))
        } else {
            m
        },
        None => m,
    }
}

/// The cursor stamped with `now`, when the write went through.
pub open spec fn spec_stamp(m: Map<Seq<char>, Seq<char>>, now: Seq<char>, ok: bool) -> Map<
    Seq<char>,
    Seq<char>,
> {
    if ok {
        m.insert("lastSyncedAt"@, now)
    } else {
        m
    }
}

/// The config table after a payload is applied: the three lists overwritten
/// where the payload carries them, then the cursor stamped.
pub open spec fn spec_pull_cfg(
    m: Map<Seq<char>, Seq<char>>,
    d: SpecJson,
    now: Seq<char>,
    oks: Seq<bool>,
) -> Map<Seq<char>, Seq<char>> {
    spec_stamp(
        spec_apply_cfg_key(
            spec_apply_cfg_key(
                spec_apply_cfg_key(m, d, "categorias"@, oks[0]),
                d,
                "contas"@,
                oks[1],
            ),
            d,
            "contasInvestimento"@,
            oks[2],
        ),
        now,
        oks[3],
    )
}

fn apply_tx_items(conn: &mut rusqlite::Connection, data: &JsonValue, now: &str)
    ensures
        rec_table(*final(conn)) == rec_table(*old(conn)),
        cfg_table(*final(conn)) == cfg_table(*old(conn)),
        exists|toks: Seq<bool>|
            toks.len() == spec_payload_items(data@, "transacoes"@).len() && tx_table(*final(conn))
                == #[trigger] spec_tx_batch(
                tx_table(*old(conn)),
                spec_payload_items(data@, "transacoes"@),
                now@,
                toks,
            ),
{
    let ghost m0 = tx_table(*conn);
    let ghost items = spec_payload_items(data@, "transacoes"@);
    match get_field(data, "transacoes") {
        Some(v) => match v {
            JsonValue::Arr(xs) => {
                proof {
                    assert(items =~= doc_views(xs@));
                }
                let ghost mut toks: Seq<bool> = Seq::empty();
                let mut i: usize = 0;
                while i < xs.len()
                    invariant
                        items == doc_views(xs@),
                        rec_table(*conn) == rec_table(*old(conn)),
                        cfg_table(*conn) == cfg_table(*old(conn)),
                        m0 == tx_table(*old(conn)),
                        0 <= i <= xs.len(),
                        toks.len() == i,
                        tx_table(*conn) == spec_tx_batch(m0, items.take(i as int), now@, toks),
                    decreases xs.len() - i,
                {
                    let got = put_transacao_at(conn, &xs[i], now);
                    proof {
                        let b = got is Ok;
                        lemma_tx_batch_snoc(m0, items.take(i as int), items[i as int], now@, toks, b);
                        assert(items.take(i as int).push(items[i as int]) =~= items.take(
                            i + 1 as int,
                        ));
                        toks = toks.push(b);
                    }
                    i = i + 1;
                }
                proof {
                    assert(items.take(xs@.len() as int) =~= items);
                }
            },
            _ => {
                proof {
                    assert(items =~= Seq::<SpecJson>::empty());
                    assert(tx_table(*conn) == spec_tx_batch(m0, items, now@, Seq::empty()));
                }
            },
        },
        None => {
            proof {
                assert(items =~= Seq::<SpecJson>::empty());
                assert(tx_table(*conn) == spec_tx_batch(m0, items, now@, Seq::empty()));
            }
        },
    }
}

fn apply_rec_items(conn: &mut rusqlite::Connection, data: &JsonValue, now: &str)
    ensures
        tx_table(*final(conn)) == tx_table(*old(conn)),
        cfg_table(*final(conn)) == cfg_table(*old(conn)),
        exists|roks: Seq<bool>|
            roks.len() == spec_payload_items(data@, "recorrentes"@).len() && rec_table(
                *final(conn),
            ) == #[trigger] spec_rec_batch(
                rec_table(*old(conn)),
                spec_payload_items(data@, "recorrentes"@),
                now@,
                roks,
            ),
{
    let ghost m0 = rec_table(*conn);
    let ghost items = spec_payload_items(data@, "recorrentes"@);
    match get_field(data, "recorrentes") {
        Some(v) => match v {
            JsonValue::Arr(xs) => {
                proof {
                    assert(items =~= doc_views(xs@));
                }
                let ghost mut roks: Seq<bool> = Seq::empty();
                let mut i: usize = 0;
                while i < xs.len()
                    invariant
                        items == doc_views(xs@),
                        tx_table(*conn) == tx_table(*old(conn)),
                        cfg_table(*conn) == cfg_table(*old(conn)),
                        m0 == rec_table(*old(conn)),
                        0 <= i <= xs.len(),
                        roks.len() == i,
                        rec_table(*conn) == spec_rec_batch(m0, items.take(i as int), now@, roks),
                    decreases xs.len() - i,
                {
                    let got = put_recorrencia_at(conn, &xs[i], now);
                    proof {
                        let b = got is Ok;
                        lemma_rec_batch_snoc(m0, items.take(i as int), items[i as int], now@, roks, b);
                        assert(items.take(i as int).push(items[i as int]) =~= items.take(
                            i + 1 as int,
                        ));
                        roks = roks.push(b);
                    }
                    i = i + 1;
                }
                proof {
                    assert(items.take(xs@.len() as int) =~= items);
                }
            },
            _ => {
                proof {
                    assert(items =~= Seq::<SpecJson>::empty());
                    assert(rec_table(*conn) == spec_rec_batch(m0, items, now@, Seq::empty()));
                }
            },
        },
        None => {
            proof {
                assert(items =~= Seq::<SpecJson>::empty());
                assert(rec_table(*conn) == spec_rec_batch(m0, items, now@, Seq::empty()));
            }
        },
    }
}

fn apply_cfg_key(conn: &mut rusqlite::Connection, data: &JsonValue, key: &str) -> (ok: Ghost<bool>)
    ensures
        tx_table(*final(conn)) == tx_table(*old(conn)),
        rec_table(*final(conn)) == rec_table(*old(conn)),
        cfg_table(*final(conn)) == spec_apply_cfg_key(cfg_table(*old(conn)), data@, key@, ok@),
{
    match get_field(data, "config") {
        Some(c) => match get_field(c, key) {
            Some(sub) => {
                let txt = render_json(sub);
                let got = set_config(conn, key, txt.as_str());
                Ghost(got is Ok)
            },
            None => Ghost(true),
        },
        None => Ghost(true),
    }
}

/// Applies a decoded response payload: upserts every transaction and
/// recurring-template entry best effort, overwrites the config lists the
/// payload carries, and stamps the cursor with `now`.
fn apply_payload(conn: &mut rusqlite::Connection, data: &JsonValue, now: &str)
    ensures
        exists|toks: Seq<bool>, roks: Seq<bool>, coks: Seq<bool>|
            #![trigger spec_tx_batch(tx_table(*old(conn)), spec_payload_items(data@, "transacoes"@), now@, toks), spec_rec_batch(rec_table(*old(conn)), spec_payload_items(data@, "recorrentes"@), now@, roks), spec_pull_cfg(cfg_table(*old(conn)), data@, now@, coks)]
            {
                &&& toks.len() == spec_payload_items(data@, "transacoes"@).len()
                &&& roks.len() == spec_payload_items(data@, "recorrentes"@).len()
                &&& coks.len() == 4
                &&& tx_table(*final(conn)) == spec_tx_batch(
                    tx_table(*old(conn)),
                    spec_payload_items(data@, "transacoes"@),
                    now@,
                    toks,
                )
                &&& rec_table(*final(conn)) == spec_rec_batch(
                    rec_table(*old(conn)),
                    spec_payload_items(data@, "recorrentes"@),
                    now@,
                    roks,
                )
                &&& cfg_table(*final(conn)) == spec_pull_cfg(
                    cfg_table(*old(conn)),
                    data@,
                    now@,
                    coks,
                )
            },
{
    apply_tx_items(conn, data, now);
    apply_rec_items(conn, data, now);
    let ok1 = apply_cfg_key(conn, data, "categorias");
    let ok2 = apply_cfg_key(conn, data, "contas");
    let ok3 = apply_cfg_key(conn, data, "contasInvestimento");
    let got = set_config(conn, "lastSyncedAt", now);
    proof {
        let coks = seq![ok1@, ok2@, ok3@, got is Ok];
        assert(cfg_table(*conn) == spec_pull_cfg(cfg_table(*old(conn)), data@, now@, coks));
    }
}

/// Applies a pull response. A status outside the success range fails with
/// that status and changes nothing; an undecodable body fails and changes
/// nothing; otherwise every entry the payload carries is applied best
/// effort and the cursor is stamped.
pub fn apply_pull(conn: &mut rusqlite::Connection, status: u16, body: &str) -> (r: Result<
    (),
    SyncError,
>)
    ensures
        !(200 <= status < 300) ==> (r matches Err(SyncError::HttpStatus(st)) && st == status
            && tx_table(*final(conn)) == tx_table(*old(conn)) && rec_table(*final(conn))
            == rec_table(*old(conn)) && cfg_table(*final(conn)) == cfg_table(*old(conn))),
        (200 <= status < 300 && spec_parse_json(body@) is None) ==> (r matches Err(
            SyncError::BadBody,
        ) && tx_table(*final(conn)) == tx_table(*old(conn)) && rec_table(*final(conn)) == rec_table(
            *old(conn),
        ) && cfg_table(*final(conn)) == cfg_table(*old(conn))),
        200 <= status < 300 ==> (spec_parse_json(body@) matches Some(d) ==> (r is Ok && exists|
            now: Seq<char>,
            toks: Seq<bool>,
            roks: Seq<bool>,
            coks: Seq<bool>,
        |
            #![trigger spec_tx_batch(tx_table(*old(conn)), spec_payload_items(d, "transacoes"@), now, toks), spec_rec_batch(rec_table(*old(conn)), spec_payload_items(d, "recorrentes"@), now, roks), spec_pull_cfg(cfg_table(*old(conn)), d, now, coks)]
            {
                &&& spec_all_digits(now)
                &&& toks.len() == spec_payload_items(d, "transacoes"@).len()
                &&& roks.len() == spec_payload_items(d, "recorrentes"@).len()
                &&& coks.len() == 4
                &&& tx_table(*final(conn)) == spec_tx_batch(
                    tx_table(*old(conn)),
                    spec_payload_items(d, "transacoes"@),
                    now,
                    toks,
                )
                &&& rec_table(*final(conn)) == spec_rec_batch(
                    rec_table(*old(conn)),
                    spec_payload_items(d, "recorrentes"@),
                    now,
                    roks,
                )
                &&& cfg_table(*final(conn)) == spec_pull_cfg(cfg_table(*old(conn)), d, now, coks)
            })),
{
    if !(status >= 200 && status < 300) {
        return Err(SyncError::HttpStatus(status));
    }
    match parse_json(body) {
        None => Err(SyncError::BadBody),
        Some(data) => {
            let now = now_string();
            apply_payload(conn, &data, now.as_str());
            Ok(())
        },
    }
}

/// Applies a restore response. On a success status with a well-formed body,
/// both entity tables are emptied first, so the store afterwards holds
/// exactly what the payload carried; the prior local state is discarded.
pub fn apply_restore(conn: &mut rusqlite::Connection, status: u16, body: &str) -> (r: Result<
    (),
    SyncError,
>)
    ensures
        !(200 <= status < 300) ==> (r matches Err(SyncError::HttpStatus(st)) && st == status
            && tx_table(*final(conn)) == tx_table(*old(conn)) && rec_table(*final(conn))
            == rec_table(*old(conn)) && cfg_table(*final(conn)) == cfg_table(*old(conn))),
        (200 <= status < 300 && spec_parse_json(body@) is None) ==> (r matches Err(
            SyncError::BadBody,
        ) && tx_table(*final(conn)) == tx_table(*old(conn)) && rec_table(*final(conn)) == rec_table(
            *old(conn),
        ) && cfg_table(*final(conn)) == cfg_table(*old(conn))),
        r matches Err(SyncError::Store(_)) ==> (cfg_table(*final(conn)) == cfg_table(*old(conn))
            && rec_table(*final(conn)) == rec_table(*old(conn)) && (tx_table(*final(conn))
            == tx_table(*old(conn)) || tx_table(*final(conn)) == Map::<Seq<char>, TxRowV>::empty())),
        200 <= status < 300 ==> (spec_parse_json(body@) matches Some(d) ==> match r {
            Ok(_) => exists|now: Seq<char>, toks: Seq<bool>, roks: Seq<bool>, coks: Seq<bool>|
                #![trigger spec_tx_batch(Map::<Seq<char>, TxRowV>::empty(), spec_payload_items(d, "transacoes"@), now, toks), spec_rec_batch(Map::<Seq<char>, RecRowV>::empty(), spec_payload_items(d, "recorrentes"@), now, roks), spec_pull_cfg(cfg_table(*old(conn)), d, now, coks)]
                {
                    &&& spec_all_digits(now)
                    &&& toks.len() == spec_payload_items(d, "transacoes"@).len()
                    &&& roks.len() == spec_payload_items(d, "recorrentes"@).len()
                    &&& coks.len() == 4
                    &&& tx_table(*final(conn)) == spec_tx_batch(
                        Map::<Seq<char>, TxRowV>::empty(),
                        spec_payload_items(d, "transacoes"@),
                        now,
                        toks,
                    )
                    &&& rec_table(*final(conn)) == spec_rec_batch(
                        Map::<Seq<char>, RecRowV>::empty(),
                        spec_payload_items(d, "recorrentes"@),
                        now,
                        roks,
                    )
                    &&& cfg_table(*final(conn)) == spec_pull_cfg(
                        cfg_table(*old(conn)),
                        d,
                        now,
                        coks,
                    )
                },
            Err(e) => e is Store,
        }),
{
    if !(status >= 200 && status < 300) {
        return Err(SyncError::HttpStatus(status));
    }
    match parse_json(body) {
        None => Err(SyncError::BadBody),
        Some(data) => {
            match clear_tx_rows(conn) {
                Ok(_) => {},
                Err(m) => {
                    return Err(SyncError::Store(m));
                },
            }
            match clear_rec_rows(conn) {
                Ok(_) => {},
                Err(m) => {
                    return Err(SyncError::Store(m));
                },
            }
            let now = now_string();
            apply_payload(conn, &data, now.as_str());
            Ok(())
        },
    }
}

/// The full-state snapshot pushed to the remote: every transaction (dates
/// never increasing), every recurring template, and the three config lists.
pub open spec fn spec_push_payload(
    txs: Seq<TxRowV>,
    recs: Seq<RecRowV>,
    m: Map<Seq<char>, Seq<char>>,
) -> SpecJson {
    SpecJson::Obj(
        seq![
            ("transacoes"@, SpecJson::Arr(Seq::new(txs.len(), |i: int| spec_doc_of_tx(txs[i])))),
            ("recorrentes"@, SpecJson::Arr(Seq::new(recs.len(), |i: int| spec_doc_of_rec(recs[i])))),
            (
                "config"@,
                SpecJson::Obj(
                    seq![
                        ("categorias"@, spec_cfg_list_val(m, "categorias"@)),
                        ("contas"@, spec_cfg_list_val(m, "contas"@)),
                        ("contasInvestimento"@, spec_cfg_list_val(m, "contasInvestimento"@)),
                    ],
                ),
            ),
        ],
    )
}

/// Plans a push. With no remote base URL configured the push is a no-op and
/// nothing is planned; otherwise the body is the rendered full-state
/// snapshot of the store.
pub fn push_plan(conn: &rusqlite::Connection, base_url: &str) -> (r: Result<
    Option<PushPlan>,
    SyncError,
>)
    ensures
        base_url@.len() == 0 ==> (r matches Ok(p) && p is None),
        base_url@.len() > 0 ==> match r {
            Ok(opt) => opt matches Some(p) && p.timeout_secs == 15 && p.url@ == spec_sync_url(
                base_url@,
            ) && exists|txs: Seq<TxRowV>, recs: Seq<RecRowV>|
                #![trigger spec_tx_listing(txs, tx_table(*conn)), spec_rec_listing(recs, rec_table(*conn))]
                {
                    &&& spec_tx_listing(txs, tx_table(*conn))
                    &&& spec_dates_desc(txs)
                    &&& spec_rec_listing(recs, rec_table(*conn))
                    &&& p.body@ == spec_render_json(
                        spec_push_payload(txs, recs, cfg_table(*conn)),
                    )
                },
            Err(e) => e is Store,
        },
{
    if base_url.is_empty() {
        return Ok(None);
    }
    let tx_docs = match get_all_transacoes(conn) {
        Ok(v) => v,
        Err(m) => {
            return Err(SyncError::Store(m));
        },
    };
    let rec_docs = match get_all_recorrentes(conn) {
        Ok(v) => v,
        Err(m) => {
            return Err(SyncError::Store(m));
        },
    };
    let ghost txs = choose|rows: Seq<TxRowV>|
        {
            &&& #[trigger] spec_tx_listing(rows, tx_table(*conn))
            &&& spec_dates_desc(rows)
            &&& tx_docs@.len() == rows.len()
            &&& forall|i: int|
                0 <= i < rows.len() ==> (#[trigger] tx_docs@[i])@ == spec_doc_of_tx(rows[i])
        };
    let ghost recs = choose|rows: Seq<RecRowV>|
        {
            &&& #[trigger] spec_rec_listing(rows, rec_table(*conn))
            &&& rec_docs@.len() == rows.len()
            &&& forall|i: int|
                0 <= i < rows.len() ==> (#[trigger] rec_docs@[i])@ == spec_doc_of_rec(rows[i])
        };
    let mut cfg_fields: Vec<(String, JsonValue)> = Vec::new();
    cfg_fields.push((String::from_str("categorias"), cfg_list_val(conn, "categorias")));
    cfg_fields.push((String::from_str("contas"), cfg_list_val(conn, "contas")));
    cfg_fields.push(
        (String::from_str("contasInvestimento"), cfg_list_val(conn, "contasInvestimento")),
    );
    let mut fields: Vec<(String, JsonValue)> = Vec::new();
    fields.push((String::from_str("transacoes"), JsonValue::Arr(tx_docs)));
    fields.push((String::from_str("recorrentes"), JsonValue::Arr(rec_docs)));
    fields.push((String::from_str("config"), JsonValue::Obj(cfg_fields)));
    let payload = JsonValue::Obj(fields);
    proof {
        let w = spec_push_payload(txs, recs, cfg_table(*conn));
        let wf = match w {
            SpecJson::Obj(g) => g,
            _ => Seq::empty(),
        };
        assert(cfg_fields@.len() == 3);
        assert(fields@.len() == 3);
        assert(fields@[0].0@ == wf[0].0);
        assert(spec_json_of(fields@[0].1) matches SpecJson::Arr(a) && a =~= Seq::new(
            txs.len(),
            |i: int| spec_doc_of_tx(txs[i]),
        ));
        assert(fields@[1].0@ == wf[1].0);
        assert(spec_json_of(fields@[1].1) matches SpecJson::Arr(a) && a =~= Seq::new(
            recs.len(),
            |i: int| spec_doc_of_rec(recs[i]),
        ));
        assert(fields@[2].0@ == wf[2].0);
        let wc = match wf[2].1 {
            SpecJson::Obj(g) => g,
            _ => Seq::empty(),
        };
        assert(cfg_fields@[0].0@ == wc[0].0 && spec_json_of(cfg_fields@[0].1) == wc[0].1);
        assert(cfg_fields@[1].0@ == wc[1].0 && spec_json_of(cfg_fields@[1].1) == wc[1].1);
        assert(cfg_fields@[2].0@ == wc[2].0 && spec_json_of(cfg_fields@[2].1) == wc[2].1);
        assert(spec_json_of(fields@[2].1) matches SpecJson::Obj(g) && g =~= wc);
        assert(payload@ matches SpecJson::Obj(g) && g =~~= wf);
        assert(payload@ =~~= w);
    }
    let body = render_json(&payload);
    let mut url = trim_trailing_slashes(base_url);
    url.append("/sync");
    Ok(Some(PushPlan { url, body, timeout_secs: 15 }))
}

/// Finishes a push after the remote answered: a status outside the success
/// range fails with that status and changes nothing; on success the cursor
/// is stamped with the wall clock.
pub fn finish_push(conn: &mut rusqlite::Connection, status: u16) -> (r: Result<(), SyncError>)
    ensures
        tx_table(*final(conn)) == tx_table(*old(conn)),
        rec_table(*final(conn)) == rec_table(*old(conn)),
        !(200 <= status < 300) ==> (r matches Err(SyncError::HttpStatus(st)) && st == status
            && cfg_table(*final(conn)) == cfg_table(*old(conn))),
        (200 <= status < 300) ==> r is Ok && exists|now: Seq<char>, ok: bool|
            spec_all_digits(now) && cfg_table(*final(conn)) == #[trigger] spec_stamp(
                cfg_table(*old(conn)),
                now,
                ok,
            ),
{
    if !(status >= 200 && status < 300) {
        return Err(SyncError::HttpStatus(status));
    }
    let now = now_string();
    let got = set_config(conn, "lastSyncedAt", now.as_str());
    proof {
        let ok = got is Ok;
        assert(cfg_table(*conn) == spec_stamp(cfg_table(*old(conn)), now@, ok));
    }
    Ok(())
}

} // verus!
