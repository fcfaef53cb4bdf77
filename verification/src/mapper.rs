//! The document mapper: converts between the generic document shape and the
//! typed rows of the two entity tables, applying the documented defaults on
//! the way in and the fixed field-name translation on the way out.

use vstd::prelude::*;
use crate::doc::JsonValue;
use crate::doc::SpecJson;
use crate::doc::spec_fields_of;
use crate::doc::spec_lookup;
use crate::doc::spec_lookup_from;
use crate::doc::spec_str_opt;
use crate::doc::spec_int_opt;
use crate::doc::spec_bool_opt;
use crate::doc::lookup_field;
use crate::doc::spec_json_of;

verus! {

/// A monetary amount as it crosses the store: a machine integer, or the
/// decimal text of a number that is not one.
#[derive(Debug, PartialEq)]
pub enum Amount {
    Int(i64),
    Text(String),
}

#[verifier::ext_equal]
pub enum AmountV {
    Int(int),
    Text(Seq<char>),
}

impl View for Amount {
    type V = AmountV;

    open spec fn view(&self) -> AmountV {
        match self {
            Amount::Int(n) => AmountV::Int(*n as int),
            Amount::Text(s) => AmountV::Text(s@),
        }
    }
}

/// A row of the transaction table.
pub struct TxRow {
    pub id: String,
    pub date: String,
    pub description: Option<String>,
    pub client: Option<String>,
    pub value: Amount,
    pub tipo: String,
    pub contexto: Option<String>,
    pub contraparte: Option<String>,
    pub category: Option<String>,
    pub account: Option<String>,
    pub metodo_pagamento: Option<String>,
    pub status: Option<String>,
    pub deleted: bool,
    pub recorrencia_id: Option<String>,
    pub updated_at: Option<String>,
}

#[verifier::ext_equal]
pub struct TxRowV {
    pub id: Seq<char>,
    pub date: Seq<char>,
    pub description: Option<Seq<char>>,
    pub client: Option<Seq<char>>,
    pub value: AmountV,
    pub tipo: Seq<char>,
    pub contexto: Option<Seq<char>>,
    pub contraparte: Option<Seq<char>>,
    pub category: Option<Seq<char>>,
    pub account: Option<Seq<char>>,
    pub metodo_pagamento: Option<Seq<char>>,
    pub status: Option<Seq<char>>,
    pub deleted: bool,
    pub recorrencia_id: Option<Seq<char>>,
    pub updated_at: Option<Seq<char>>,
}

pub open spec fn opt_str_view(o: Option<String>) -> Option<Seq<char>> {
    match o {
        Some(s) => Some(s@),
        None => None,
    }
}

impl View for TxRow {
    type V = TxRowV;

    open spec fn view(&self) -> TxRowV {
        TxRowV {
            id: self.id@,
            date: self.date@,
            description: opt_str_view(self.description),
            client: opt_str_view(self.client),
            value: self.value@,
            tipo: self.tipo@,
            contexto: opt_str_view(self.contexto),
            contraparte: opt_str_view(self.contraparte),
            category: opt_str_view(self.category),
            account: opt_str_view(self.account),
            metodo_pagamento: opt_str_view(self.metodo_pagamento),
            status: opt_str_view(self.status),
            deleted: self.deleted,
            recorrencia_id: opt_str_view(self.recorrencia_id),
            updated_at: opt_str_view(self.updated_at),
        }
    }
}

/// A row of the recurring-template table.
pub struct RecRow {
    pub id: String,
    pub titulo: Option<String>,
    pub valor: Amount,
    pub tipo: Option<String>,
    pub categoria: Option<String>,
    pub conta: Option<String>,
    pub metodo_pagamento: Option<String>,
    pub dia_vencimento: Option<i64>,
    pub ativo: bool,
    pub updated_at: Option<String>,
}

#[verifier::ext_equal]
pub struct RecRowV {
    pub id: Seq<char>,
    pub titulo: Option<Seq<char>>,
    pub valor: AmountV,
    pub tipo: Option<Seq<char>>,
    pub categoria: Option<Seq<char>>,
    pub conta: Option<Seq<char>>,
    pub metodo_pagamento: Option<Seq<char>>,
    pub dia_vencimento: Option<int>,
    pub ativo: bool,
    pub updated_at: Option<Seq<char>>,
}

impl View for RecRow {
    type V = RecRowV;

    open spec fn view(&self) -> RecRowV {
        RecRowV {
            id: self.id@,
            titulo: opt_str_view(self.titulo),
            valor: self.valor@,
            tipo: opt_str_view(self.tipo),
            categoria: opt_str_view(self.categoria),
            conta: opt_str_view(self.conta),
            metodo_pagamento: opt_str_view(self.metodo_pagamento),
            dia_vencimento: match self.dia_vencimento {
                Some(n) => Some(n as int),
                None => None,
            },
            ativo: self.ativo,
            updated_at: opt_str_view(self.updated_at),
        }
    }
}

pub open spec fn spec_str_field(fs: Seq<(Seq<char>, SpecJson)>, k: Seq<char>) -> Option<Seq<char>> {
    spec_str_opt(spec_lookup(fs, k))
}

pub open spec fn spec_str_field_or(
    fs: Seq<(Seq<char>, SpecJson)>,
    k: Seq<char>,
    d: Seq<char>,
) -> Seq<char> {
    match spec_str_field(fs, k) {
        Some(s) => s,
        None => d,
    }
}

pub open spec fn spec_bool_field_or(fs: Seq<(Seq<char>, SpecJson)>, k: Seq<char>, d: bool) -> bool {
    match spec_bool_opt(spec_lookup(fs, k)) {
        Some(b) => b,
        None => d,
    }
}

/// The amount read from a field: an integer or numeric-text document value,
/// anything else giving the default of zero.
pub open spec fn spec_amount_field(fs: Seq<(Seq<char>, SpecJson)>, k: Seq<char>) -> AmountV {
    match spec_lookup(fs, k) {
        Some(SpecJson::Int(n)) => AmountV::Int(n),
        Some(SpecJson::Num(s)) => AmountV::Text(s),
        _ => AmountV::Int(0),
    }
}

/// The transaction row written for a document with fields `fs`, stamped `now`.
pub open spec fn spec_tx_of_doc(fs: Seq<(Seq<char>, SpecJson)>, now: Seq<char>) -> TxRowV {
    TxRowV {
        id: spec_str_field_or(fs, "id"@, ""@),
        date: spec_str_field_or(fs, "date"@, ""@),
        description: spec_str_field(fs, "description"@),
        client: spec_str_field(fs, "client"@),
        value: spec_amount_field(fs, "value"@),
        tipo: spec_str_field_or(fs, "type"@, "saida"@),
        contexto: spec_str_field(fs, "contexto"@),
        contraparte: spec_str_field(fs, "contraparte"@),
        category: spec_str_field(fs, "category"@),
        account: spec_str_field(fs, "account"@),
        metodo_pagamento: spec_str_field(fs, "metodoPagamento"@),
        status: spec_str_field(fs, "status"@),
        deleted: spec_bool_field_or(fs, "deleted"@, false),
        recorrencia_id: spec_str_field(fs, "recorrenciaId"@),
        updated_at: Some(now),
    }
}

/// The recurring-template row written for a document with fields `fs`.
pub open spec fn spec_rec_of_doc(fs: Seq<(Seq<char>, SpecJson)>, now: Seq<char>) -> RecRowV {
    RecRowV {
        id: spec_str_field_or(fs, "id"@, ""@),
        titulo: spec_str_field(fs, "titulo"@),
        valor: spec_amount_field(fs, "valor"@),
        tipo: spec_str_field(fs, "tipo"@),
        categoria: spec_str_field(fs, "categoria"@),
        conta: spec_str_field(fs, "conta"@),
        metodo_pagamento: spec_str_field(fs, "metodoPagamento"@),
        dia_vencimento: spec_int_opt(spec_lookup(fs, "diaVencimento"@)),
        ativo: spec_bool_field_or(fs, "ativo"@, true),
        updated_at: Some(now),
    }
}

pub open spec fn spec_jv_of_opt(o: Option<Seq<char>>) -> SpecJson {
    match o {
        Some(s) => SpecJson::Str(s),
        None => SpecJson::Null,
    }
}

pub open spec fn spec_jv_of_amount(a: AmountV) -> SpecJson {
    match a {
        AmountV::Int(n) => SpecJson::Int(n),
        AmountV::Text(s) => SpecJson::Num(s),
    }
}

/// The field list of the document read back for a transaction row.
pub open spec fn spec_tx_fields(t: TxRowV) -> Seq<(Seq<char>, SpecJson)> {
    seq![
        ("id"@, SpecJson::Str(t.id)),
        ("date"@, SpecJson::Str(t.date)),
        ("description"@, spec_jv_of_opt(t.description)),
        ("client"@, spec_jv_of_opt(t.client)),
        ("value"@, spec_jv_of_amount(t.value)),
        ("type"@, SpecJson::Str(t.tipo)),
        ("contexto"@, spec_jv_of_opt(t.contexto)),
        ("contraparte"@, spec_jv_of_opt(t.contraparte)),
        ("category"@, spec_jv_of_opt(t.category)),
        ("account"@, spec_jv_of_opt(t.account)),
        ("metodoPagamento"@, spec_jv_of_opt(t.metodo_pagamento)),
        ("status"@, spec_jv_of_opt(t.status)),
        ("deleted"@, SpecJson::Bool(t.deleted)),
        ("recorrenciaId"@, spec_jv_of_opt(t.recorrencia_id)),
        ("updatedAt"@, spec_jv_of_opt(t.updated_at)),
    ]
}

pub open spec fn spec_doc_of_tx(t: TxRowV) -> SpecJson {
    SpecJson::Obj(spec_tx_fields(t))
}

/// The field list of the document read back for a recurring-template row;
/// the names follow the storage naming, as the reading side of the store does.
pub open spec fn spec_rec_fields(r: RecRowV) -> Seq<(Seq<char>, SpecJson)> {
    seq![
        ("id"@, SpecJson::Str(r.id)),
        ("titulo"@, spec_jv_of_opt(r.titulo)),
        ("valor"@, spec_jv_of_amount(r.valor)),
        ("tipo"@, spec_jv_of_opt(r.tipo)),
        ("categoria"@, spec_jv_of_opt(r.categoria)),
        ("conta"@, spec_jv_of_opt(r.conta)),
        ("metodo_pagamento"@, spec_jv_of_opt(r.metodo_pagamento)),
        (
            "dia_vencimento"@,
            match r.dia_vencimento {
                Some(n) => SpecJson::Int(n),
                None => SpecJson::Null,
            },
        ),
        ("ativo"@, SpecJson::Bool(r.ativo)),
        ("updated_at"@, spec_jv_of_opt(r.updated_at)),
    ]
}

pub open spec fn spec_doc_of_rec(r: RecRowV) -> SpecJson {
    SpecJson::Obj(spec_rec_fields(r))
}

fn get_str(fs: &Vec<(String, JsonValue)>, k: &str) -> (r: Option<String>)
    ensures
        opt_str_view(r) == spec_str_field(spec_fields_of(fs@), k@),
{
    match lookup_field(fs, k) {
        Some(JsonValue::Str(s)) => Some(s.clone()),
        _ => None,
    }
}

fn get_str_or(fs: &Vec<(String, JsonValue)>, k: &str, d: &str) -> (r: String)
    ensures
        r@ == spec_str_field_or(spec_fields_of(fs@), k@, d@),
{
    match get_str(fs, k) {
        Some(s) => s,
        None => String::from_str(d),
    }
}

fn get_bool_or(fs: &Vec<(String, JsonValue)>, k: &str, d: bool) -> (r: bool)
    ensures
        r == spec_bool_field_or(spec_fields_of(fs@), k@, d),
{
    match lookup_field(fs, k) {
        Some(JsonValue::Bool(b)) => *b,
        _ => d,
    }
}

fn get_amount(fs: &Vec<(String, JsonValue)>, k: &str) -> (r: Amount)
    ensures
        r@ == spec_amount_field(spec_fields_of(fs@), k@),
{
    match lookup_field(fs, k) {
        Some(JsonValue::Int(n)) => Amount::Int(*n),
        Some(JsonValue::Num(s)) => Amount::Text(s.clone()),
        _ => Amount::Int(0),
    }
}

fn get_int(fs: &Vec<(String, JsonValue)>, k: &str) -> (r: Option<i64>)
    ensures
        match r {
            Some(n) => spec_int_opt(spec_lookup(spec_fields_of(fs@), k@)) == Some(n as int),
            None => spec_int_opt(spec_lookup(spec_fields_of(fs@), k@)) is None,
        },
{
    match lookup_field(fs, k) {
        Some(JsonValue::Int(n)) => Some(*n),
        _ => None,
    }
}

/// Builds the transaction row for a document's fields, stamping `now` as the
/// last-modified value; absent or ill-typed optional fields take their
/// documented defaults.
pub fn tx_of_doc(fs: &Vec<(String, JsonValue)>, now: &str) -> (t: TxRow)
    ensures
        t@ == spec_tx_of_doc(spec_fields_of(fs@), now@),
{
    let t = TxRow {
        id: get_str_or(fs, "id", ""),
        date: get_str_or(fs, "date", ""),
        description: get_str(fs, "description"),
        client: get_str(fs, "client"),
        value: get_amount(fs, "value"),
        tipo: get_str_or(fs, "type", "saida"),
        contexto: get_str(fs, "contexto"),
        contraparte: get_str(fs, "contraparte"),
        category: get_str(fs, "category"),
        account: get_str(fs, "account"),
        metodo_pagamento: get_str(fs, "metodoPagamento"),
        status: get_str(fs, "status"),
        deleted: get_bool_or(fs, "deleted", false),
        recorrencia_id: get_str(fs, "recorrenciaId"),
        updated_at: Some(String::from_str(now)),
    };
    proof {
        assert(t@ =~~= spec_tx_of_doc(spec_fields_of(fs@), now@));
    }
    t
}

/// Builds the recurring-template row for a document's fields.
pub fn rec_of_doc(fs: &Vec<(String, JsonValue)>, now: &str) -> (t: RecRow)
    ensures
        t@ == spec_rec_of_doc(spec_fields_of(fs@), now@),
{
    let t = RecRow {
        id: get_str_or(fs, "id", ""),
        titulo: get_str(fs, "titulo"),
        valor: get_amount(fs, "valor"),
        tipo: get_str(fs, "tipo"),
        categoria: get_str(fs, "categoria"),
        conta: get_str(fs, "conta"),
        metodo_pagamento: get_str(fs, "metodoPagamento"),
        dia_vencimento: get_int(fs, "diaVencimento"),
        ativo: get_bool_or(fs, "ativo", true),
        updated_at: Some(String::from_str(now)),
    };
    proof {
        assert(t@ =~~= spec_rec_of_doc(spec_fields_of(fs@), now@));
    }
    t
}

fn jv_of_opt(o: &Option<String>) -> (r: JsonValue)
    ensures
        r@ == spec_jv_of_opt(opt_str_view(*o)),
{
    match o {
        Some(s) => JsonValue::Str(s.clone()),
        None => JsonValue::Null,
    }
}

fn jv_of_amount(a: &Amount) -> (r: JsonValue)
    ensures
        r@ == spec_jv_of_amount(a@),
{
    match a {
        Amount::Int(n) => JsonValue::Int(*n),
        Amount::Text(s) => JsonValue::Num(s.clone()),
    }
}

/// Reads a transaction row back as a document.
pub fn doc_of_tx(t: &TxRow) -> (d: JsonValue)
    ensures
        d@ == spec_doc_of_tx(t@),
{
    let mut fs: Vec<(String, JsonValue)> = Vec::new();
    fs.push((String::from_str("id"), JsonValue::Str(t.id.clone())));
    fs.push((String::from_str("date"), JsonValue::Str(t.date.clone())));
    fs.push((String::from_str("description"), jv_of_opt(&t.description)));
    fs.push((String::from_str("client"), jv_of_opt(&t.client)));
    fs.push((String::from_str("value"), jv_of_amount(&t.value)));
    fs.push((String::from_str("type"), JsonValue::Str(t.tipo.clone())));
    fs.push((String::from_str("contexto"), jv_of_opt(&t.contexto)));
    fs.push((String::from_str("contraparte"), jv_of_opt(&t.contraparte)));
    fs.push((String::from_str("category"), jv_of_opt(&t.category)));
    fs.push((String::from_str("account"), jv_of_opt(&t.account)));
    fs.push((String::from_str("metodoPagamento"), jv_of_opt(&t.metodo_pagamento)));
    fs.push((String::from_str("status"), jv_of_opt(&t.status)));
    fs.push((String::from_str("deleted"), JsonValue::Bool(t.deleted)));
    fs.push((String::from_str("recorrenciaId"), jv_of_opt(&t.recorrencia_id)));
    fs.push((String::from_str("updatedAt"), jv_of_opt(&t.updated_at)));
    let d = JsonValue::Obj(fs);
    proof {
        assert(fs@.len() == 15);
        let ghost w = spec_tx_fields(t@);
        assert(fs@[0].0@ == w[0].0 && spec_json_of(fs@[0].1) == w[0].1);
        assert(fs@[1].0@ == w[1].0 && spec_json_of(fs@[1].1) == w[1].1);
        assert(fs@[2].0@ == w[2].0 && spec_json_of(fs@[2].1) == w[2].1);
        assert(fs@[3].0@ == w[3].0 && spec_json_of(fs@[3].1) == w[3].1);
        assert(fs@[4].0@ == w[4].0 && spec_json_of(fs@[4].1) == w[4].1);
        assert(fs@[5].0@ == w[5].0 && spec_json_of(fs@[5].1) == w[5].1);
        assert(fs@[6].0@ == w[6].0 && spec_json_of(fs@[6].1) == w[6].1);
        assert(fs@[7].0@ == w[7].0 && spec_json_of(fs@[7].1) == w[7].1);
        assert(fs@[8].0@ == w[8].0 && spec_json_of(fs@[8].1) == w[8].1);
        assert(fs@[9].0@ == w[9].0 && spec_json_of(fs@[9].1) == w[9].1);
        assert(fs@[10].0@ == w[10].0 && spec_json_of(fs@[10].1) == w[10].1);
        assert(fs@[11].0@ == w[11].0 && spec_json_of(fs@[11].1) == w[11].1);
        assert(fs@[12].0@ == w[12].0 && spec_json_of(fs@[12].1) == w[12].1);
        assert(fs@[13].0@ == w[13].0 && spec_json_of(fs@[13].1) == w[13].1);
        assert(fs@[14].0@ == w[14].0 && spec_json_of(fs@[14].1) == w[14].1);
        assert(d@ matches SpecJson::Obj(g) && g =~~= spec_tx_fields(t@));
        assert(d@ =~~= spec_doc_of_tx(t@));
    }
    d
}

/// Reads a recurring-template row back as a document.
pub fn doc_of_rec(t: &RecRow) -> (d: JsonValue)
    ensures
        d@ == spec_doc_of_rec(t@),
{
    let mut fs: Vec<(String, JsonValue)> = Vec::new();
    fs.push((String::from_str("id"), JsonValue::Str(t.id.clone())));
    fs.push((String::from_str("titulo"), jv_of_opt(&t.titulo)));
    fs.push((String::from_str("valor"), jv_of_amount(&t.valor)));
    fs.push((String::from_str("tipo"), jv_of_opt(&t.tipo)));
    fs.push((String::from_str("categoria"), jv_of_opt(&t.categoria)));
    fs.push((String::from_str("conta"), jv_of_opt(&t.conta)));
    fs.push((String::from_str("metodo_pagamento"), jv_of_opt(&t.metodo_pagamento)));
    let dia = match t.dia_vencimento {
        Some(n) => JsonValue::Int(n),
        None => JsonValue::Null,
    };
    fs.push((String::from_str("dia_vencimento"), dia));
    fs.push((String::from_str("ativo"), JsonValue::Bool(t.ativo)));
    fs.push((String::from_str("updated_at"), jv_of_opt(&t.updated_at)));
    let d = JsonValue::Obj(fs);
    proof {
        assert(fs@.len() == 10);
        let ghost w = spec_rec_fields(t@);
        assert(fs@[0].0@ == w[0].0 && spec_json_of(fs@[0].1) == w[0].1);
        assert(fs@[1].0@ == w[1].0 && spec_json_of(fs@[1].1) == w[1].1);
        assert(fs@[2].0@ == w[2].0 && spec_json_of(fs@[2].1) == w[2].1);
        assert(fs@[3].0@ == w[3].0 && spec_json_of(fs@[3].1) == w[3].1);
        assert(fs@[4].0@ == w[4].0 && spec_json_of(fs@[4].1) == w[4].1);
        assert(fs@[5].0@ == w[5].0 && spec_json_of(fs@[5].1) == w[5].1);
        assert(fs@[6].0@ == w[6].0 && spec_json_of(fs@[6].1) == w[6].1);
        assert(fs@[7].0@ == w[7].0 && spec_json_of(fs@[7].1) == w[7].1);
        assert(fs@[8].0@ == w[8].0 && spec_json_of(fs@[8].1) == w[8].1);
        assert(fs@[9].0@ == w[9].0 && spec_json_of(fs@[9].1) == w[9].1);
        assert(d@ matches SpecJson::Obj(g) && g =~~= spec_rec_fields(t@));
        assert(d@ =~~= spec_doc_of_rec(t@));
    }
    d
}

/// Law: reading a transaction row back as a document and writing that
/// document again reproduces the row, when the write is stamped with the
/// row's own last-modified value. No field is lost or renamed in either
/// direction.
pub proof fn lemma_tx_mapper_round_trip(t: TxRowV, now: Seq<char>)
    requires
        t.updated_at == Some(now),
    ensures
        spec_tx_of_doc(spec_tx_fields(t), now) == t,
{
    reveal_strlit("id");
    reveal_strlit("date");
    reveal_strlit("description");
    reveal_strlit("client");
    reveal_strlit("value");
    reveal_strlit("type");
    reveal_strlit("contexto");
    reveal_strlit("contraparte");
    reveal_strlit("category");
    reveal_strlit("account");
    reveal_strlit("metodoPagamento");
    reveal_strlit("status");
    reveal_strlit("deleted");
    reveal_strlit("recorrenciaId");
    reveal_strlit("updatedAt");
    reveal_with_fuel(spec_lookup_from, 17);
    assert("id"@.len() == 2);
    assert("date"@.len() == 4 && "date"@[0] == 'd');
    assert("description"@.len() == 11 && "description"@[0] == 'd');
    assert("client"@.len() == 6 && "client"@[0] == 'c');
    assert("value"@.len() == 5);
    assert("type"@.len() == 4 && "type"@[0] == 't');
    assert("contexto"@.len() == 8 && "contexto"@[1] == 'o');
    assert("contraparte"@.len() == 11 && "contraparte"@[0] == 'c');
    assert("category"@.len() == 8 && "category"@[1] == 'a');
    assert("account"@.len() == 7 && "account"@[0] == 'a');
    assert("metodoPagamento"@.len() == 15);
    assert("status"@.len() == 6 && "status"@[0] == 's');
    assert("deleted"@.len() == 7 && "deleted"@[0] == 'd');
    assert("recorrenciaId"@.len() == 13);
    assert("updatedAt"@.len() == 9);
    let w = spec_tx_fields(t);
    assert(spec_lookup(w, "id"@) == Some(SpecJson::Str(t.id)));
    assert(spec_lookup(w, "date"@) == Some(SpecJson::Str(t.date)));
    assert(spec_lookup(w, "description"@) == Some(spec_jv_of_opt(t.description)));
    assert(spec_lookup(w, "client"@) == Some(spec_jv_of_opt(t.client)));
    assert(spec_lookup(w, "value"@) == Some(spec_jv_of_amount(t.value)));
    assert(spec_lookup(w, "type"@) == Some(SpecJson::Str(t.tipo)));
    assert(spec_lookup(w, "contexto"@) == Some(spec_jv_of_opt(t.contexto)));
    assert(spec_lookup(w, "contraparte"@) == Some(spec_jv_of_opt(t.contraparte)));
    assert(spec_lookup(w, "category"@) == Some(spec_jv_of_opt(t.category)));
    assert(spec_lookup(w, "account"@) == Some(spec_jv_of_opt(t.account)));
    assert(spec_lookup(w, "metodoPagamento"@) == Some(spec_jv_of_opt(t.metodo_pagamento)));
    assert(spec_lookup(w, "status"@) == Some(spec_jv_of_opt(t.status)));
    assert(spec_lookup(w, "deleted"@) == Some(SpecJson::Bool(t.deleted)));
    assert(spec_lookup(w, "recorrenciaId"@) == Some(spec_jv_of_opt(t.recorrencia_id)));
    assert(spec_tx_of_doc(spec_tx_fields(t), now) =~~= t);
}

} // verus!
