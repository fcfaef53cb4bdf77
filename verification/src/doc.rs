//! The loosely typed document shape exchanged with callers and with the
//! remote service: a tagged value (null, boolean, number, string, sequence,
//! mapping). Numbers that are not machine integers are carried as their
//! decimal text, so the store's logic stays exact.

use vstd::prelude::*;

verus! {

/// A generic document value.
#[derive(Debug, PartialEq)]
pub enum JsonValue {
    Null,
    Bool(bool),
    Int(i64),
    Num(String),
    Str(String),
    Arr(Vec<JsonValue>),
    Obj(Vec<(String, JsonValue)>),
}

/// The mathematical model of a document value.
#[verifier::ext_equal]
pub enum SpecJson {
    Null,
    Bool(bool),
    Int(int),
    Num(Seq<char>),
    Str(Seq<char>),
    Arr(Seq<SpecJson>),
    Obj(Seq<(Seq<char>, SpecJson)>),
}

/// The model of a field list of a document object.
pub open spec fn spec_fields_of(fs: Seq<(String, JsonValue)>) -> Seq<(Seq<char>, SpecJson)> {
    Seq::new(fs.len(), |i: int| (fs[i].0@, spec_json_of(fs[i].1)))
}

pub open spec fn spec_json_of(v: JsonValue) -> SpecJson
    decreases v,
{
    match v {
        JsonValue::Null => SpecJson::Null,
        JsonValue::Bool(b) => SpecJson::Bool(b),
        JsonValue::Int(n) => SpecJson::Int(n as int),
        JsonValue::Num(s) => SpecJson::Num(s@),
        JsonValue::Str(s) => SpecJson::Str(s@),
        JsonValue::Arr(xs) => SpecJson::Arr(
            Seq::new(
                xs@.len(),
                |i: int| if 0 <= i < xs@.len() { spec_json_of(xs[i]) } else { SpecJson::Null },
            ),
        ),
        JsonValue::Obj(fs) => SpecJson::Obj(
            Seq::new(
                fs@.len(),
                |i: int|
                    if 0 <= i < fs@.len() {
                        (fs[i].0@, spec_json_of(fs[i].1))
                    } else {
                        (Seq::empty(), SpecJson::Null)
                    },
            ),
        ),
    }
}

impl View for JsonValue {
    type V = SpecJson;

    open spec fn view(&self) -> SpecJson {
        spec_json_of(*self)
    }
}

/// First binding of `k` in a field list, scanning from index `i`.
pub open spec fn spec_lookup_from(
    fs: Seq<(Seq<char>, SpecJson)>,
    k: Seq<char>,
    i: int,
) -> Option<SpecJson>
    decreases fs.len() - i,
{
    if i < 0 || i >= fs.len() {
        None
    } else if fs[i].0 == k {
        Some(fs[i].1)
    } else {
        spec_lookup_from(fs, k, i + 1)
    }
}

/// First binding of `k` in a field list.
pub open spec fn spec_lookup(fs: Seq<(Seq<char>, SpecJson)>, k: Seq<char>) -> Option<SpecJson> {
    spec_lookup_from(fs, k, 0)
}

/// The string content of a field, when the field is a string.
pub open spec fn spec_str_opt(v: Option<SpecJson>) -> Option<Seq<char>> {
    match v {
        Some(SpecJson::Str(s)) => Some(s),
        _ => None,
    }
}

/// The machine-integer content of a field, when it is one.
pub open spec fn spec_int_opt(v: Option<SpecJson>) -> Option<int> {
    match v {
        Some(SpecJson::Int(n)) => Some(n),
        _ => None,
    }
}

/// The boolean content of a field, when the field is a boolean.
pub open spec fn spec_bool_opt(v: Option<SpecJson>) -> Option<bool> {
    match v {
        Some(SpecJson::Bool(b)) => Some(b),
        _ => None,
    }
}

/// Looks up the first binding of `k` in a field list.
pub fn lookup_field<'a>(fs: &'a Vec<(String, JsonValue)>, k: &str) -> (r: Option<&'a JsonValue>)
    ensures
        match r {
            Some(x) => spec_lookup(spec_fields_of(fs@), k@) == Some(x@),
            None => spec_lookup(spec_fields_of(fs@), k@) is None,
        },
{
    let ghost gfs = spec_fields_of(fs@);
    let ks = String::from_str(k);
    let mut i: usize = 0;
    while i < fs.len()
        invariant
            0 <= i <= fs.len(),
            gfs == spec_fields_of(fs@),
            ks@ == k@,
            spec_lookup(gfs, k@) == spec_lookup_from(gfs, k@, i as int),
        decreases fs.len() - i,
    {
        if fs[i].0 == ks {
            assert(gfs[i as int].0 == k@);
            return Some(&fs[i].1);
        }
        assert(gfs[i as int].0 != k@);
        i = i + 1;
    }
    None
}

/// Looks up field `k` of a document, when the document is an object.
pub fn get_field<'a>(v: &'a JsonValue, k: &str) -> (r: Option<&'a JsonValue>)
    ensures
        match v@ {
            SpecJson::Obj(gfs) => match r {
                Some(x) => spec_lookup(gfs, k@) == Some(x@),
                None => spec_lookup(gfs, k@) is None,
            },
            _ => r is None,
        },
{
    match v {
        JsonValue::Obj(fs) => {
            proof {
                assert(v@ matches SpecJson::Obj(gfs) && gfs =~= spec_fields_of(fs@));
            }
            lookup_field(fs, k)
        },
        _ => None,
    }
}

} // verus!
