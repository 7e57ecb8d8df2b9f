//! A plain representation of JSON values, its mathematical model, and the
//! trusted boundary to the `serde_json` codec.

use vstd::prelude::*;

verus! {

/// A JSON value held as plain data.
///
/// Numbers that fit in `u64` are kept as integers (the service's identifiers
/// are unsigned 64-bit values); any other number is kept in `Num` as the
/// codec's canonical text for it, so it can be carried through a
/// decode/encode cycle unchanged.
#[derive(Debug)]
pub enum JsonValue {
    Null,
    Bool(bool),
    UInt(u64),
    Num(String),
    Str(String),
    Arr(Vec<JsonValue>),
    Obj(Vec<(String, JsonValue)>),
}

/// The mathematical model of a JSON value.
#[verifier::ext_equal]
pub enum JsonModel {
    Null,
    Bool(bool),
    UInt(u64),
    Num(Seq<char>),
    Str(Seq<char>),
    Arr(Seq<JsonModel>),
    Obj(Seq<(Seq<char>, JsonModel)>),
}

/// The model of a sequence of JSON values.
pub open spec fn arr_model(s: Seq<JsonValue>) -> Seq<JsonModel>
    decreases s,
{
    Seq::new(
        s.len(),
        |i: int|
            if 0 <= i < s.len() {
                json_model(s[i])
            } else {
                JsonModel::Null
            },
    )
}

/// The model of an object's entry list.
pub open spec fn obj_entries_model(s: Seq<(String, JsonValue)>) -> Seq<(Seq<char>, JsonModel)>
    decreases s,
{
    Seq::new(
        s.len(),
        |i: int|
            if 0 <= i < s.len() {
                (s[i].0@, json_model(s[i].1))
            } else {
                (Seq::empty(), JsonModel::Null)
            },
    )
}

/// The model of a JSON value.
pub open spec fn json_model(v: JsonValue) -> JsonModel
    decreases v,
{
    match v {
        JsonValue::Null => JsonModel::Null,
        JsonValue::Bool(b) => JsonModel::Bool(b),
        JsonValue::UInt(u) => JsonModel::UInt(u),
        JsonValue::Num(t) => JsonModel::Num(t@),
        JsonValue::Str(s) => JsonModel::Str(s@),
        JsonValue::Arr(a) => JsonModel::Arr(arr_model(a@)),
        JsonValue::Obj(o) => JsonModel::Obj(obj_entries_model(o@)),
    }
}

impl View for JsonValue {
    type V = JsonModel;

    open spec fn view(&self) -> JsonModel {
        json_model(*self)
    }
}

/// One unfolding step of `json_model`, available wherever the model of a
/// value of known shape is needed.
pub broadcast proof fn lemma_json_model_unfold(v: JsonValue)
    ensures
        #[trigger] json_model(v) == (match v {
            JsonValue::Null => JsonModel::Null,
            JsonValue::Bool(b) => JsonModel::Bool(b),
            JsonValue::UInt(u) => JsonModel::UInt(u),
            JsonValue::Num(t) => JsonModel::Num(t@),
            JsonValue::Str(s) => JsonModel::Str(s@),
            JsonValue::Arr(a) => JsonModel::Arr(arr_model(a@)),
            JsonValue::Obj(o) => JsonModel::Obj(obj_entries_model(o@)),
        }),
{
}

/// The model of a value sequence has the same length.
pub broadcast proof fn lemma_arr_model_len(s: Seq<JsonValue>)
    ensures
        (#[trigger] arr_model(s)).len() == s.len(),
{
}

/// The model of a value sequence holds each element's model.
pub broadcast proof fn lemma_arr_model_index(s: Seq<JsonValue>, i: int)
    requires
        0 <= i < s.len(),
    ensures
        #[trigger] arr_model(s)[i] == json_model(s[i]),
{
}

/// The model of an entry list has the same length.
pub broadcast proof fn lemma_obj_entries_model_len(s: Seq<(String, JsonValue)>)
    ensures
        (#[trigger] obj_entries_model(s)).len() == s.len(),
{
}

/// The model of an entry list holds each entry's key view and value model.
pub broadcast proof fn lemma_obj_entries_model_index(s: Seq<(String, JsonValue)>, i: int)
    requires
        0 <= i < s.len(),
    ensures
        #[trigger] obj_entries_model(s)[i] == (s[i].0@, json_model(s[i].1)),
{
}

impl JsonValue {
    /// A deep copy with the same model.
    #[verifier::loop_isolation(false)]
    pub fn duplicate(&self) -> (r: JsonValue)
        ensures
            r@ == self@,
        decreases *self,
    {
        broadcast use lemma_json_model_unfold, lemma_arr_model_len, lemma_arr_model_index, lemma_obj_entries_model_len, lemma_obj_entries_model_index;

        match self {
            JsonValue::Null => JsonValue::Null,
            JsonValue::Bool(b) => JsonValue::Bool(*b),
            JsonValue::UInt(u) => JsonValue::UInt(*u),
            JsonValue::Num(t) => JsonValue::Num(t.clone()),
            JsonValue::Str(s) => JsonValue::Str(s.clone()),
            JsonValue::Arr(a) => {
                let mut out: Vec<JsonValue> = Vec::new();
                let mut i: usize = 0;
                while i < a.len()
                    invariant
                        0 <= i <= a.len(),
                        out@.len() == i,
                        forall|j: int|
                            0 <= j < i ==> json_model(#[trigger] out@[j]) == json_model(a@[j]),
                    decreases a.len() - i,
                {
                    out.push(a[i].duplicate());
                    i = i + 1;
                }
                let r = JsonValue::Arr(out);
                proof {
                    assert(arr_model(out@) =~= arr_model(a@));
                }
                r
            },
            JsonValue::Obj(o) => {
                let mut out: Vec<(String, JsonValue)> = Vec::new();
                let mut i: usize = 0;
                while i < o.len()
                    invariant
                        0 <= i <= o.len(),
                        out@.len() == i,
                        forall|j: int|
                            0 <= j < i ==> (#[trigger] out@[j]).0@ == o@[j].0@ && json_model(
                                out@[j].1,
                            ) == json_model(o@[j].1),
                    decreases o.len() - i,
                {
                    let entry = (o[i].0.clone(), o[i].1.duplicate());
                    out.push(entry);
                    i = i + 1;
                }
                let r = JsonValue::Obj(out);
                proof {
                    assert(obj_entries_model(out@) =~= obj_entries_model(o@));
                }
                r
            },
        }
    }
}

/// The value under the first entry of `o` whose key is `k`, if any.
pub open spec fn obj_get(o: Seq<(Seq<char>, JsonModel)>, k: Seq<char>) -> Option<JsonModel>
    decreases o.len(),
{
    if o.len() == 0 {
        None
    } else if o[0].0 == k {
        Some(o[0].1)
    } else {
        obj_get(o.drop_first(), k)
    }
}

/// Whether `o` has an entry under the key `k`.
pub open spec fn obj_has(o: Seq<(Seq<char>, JsonModel)>, k: Seq<char>) -> bool {
    obj_get(o, k) is Some
}

/// Looking a key up in the concatenation of two entry lists reads the first
/// list, and falls through to the second only where the first lacks the key.
pub proof fn lemma_obj_get_append(
    a: Seq<(Seq<char>, JsonModel)>,
    b: Seq<(Seq<char>, JsonModel)>,
    k: Seq<char>,
)
    ensures
        obj_get(a + b, k) == if obj_has(a, k) {
            obj_get(a, k)
        } else {
            obj_get(b, k)
        },
    decreases a.len(),
{
    if a.len() == 0 {
        assert(a + b =~= b);
    } else {
        assert((a + b).drop_first() =~= a.drop_first() + b);
        lemma_obj_get_append(a.drop_first(), b, k);
    }
}

/// The pointwise form of `lemma_obj_get_append`, over every key at once.
pub proof fn lemma_obj_get_append_all(
    a: Seq<(Seq<char>, JsonModel)>,
    b: Seq<(Seq<char>, JsonModel)>,
)
    ensures
        forall|k: Seq<char>| #[trigger] obj_get(a + b, k) == (if obj_has(a, k) {
            obj_get(a, k)
        } else {
            obj_get(b, k)
        }),
{
    assert forall|k: Seq<char>| #[trigger] obj_get(a + b, k) == (if obj_has(a, k) {
        obj_get(a, k)
    } else {
        obj_get(b, k)
    }) by {
        lemma_obj_get_append(a, b, k);
    }
}

/// Finds the first entry of `o` under the key `k`.
pub fn obj_lookup<'a>(o: &'a Vec<(String, JsonValue)>, k: &String) -> (r: Option<&'a JsonValue>)
    ensures
        match r {
            Some(v) => obj_get(obj_entries_model(o@), k@) == Some(json_model(*v)),
            None => obj_get(obj_entries_model(o@), k@) is None,
        },
{
    let ghost m = obj_entries_model(o@);
    proof {
        assert(m.skip(0) =~= m);
    }
    let mut i: usize = 0;
    while i < o.len()
        invariant
            0 <= i <= o.len(),
            m == obj_entries_model(o@),
            obj_get(m, k@) == obj_get(m.skip(i as int), k@),
        decreases o.len() - i,
    {
        if o[i].0.eq(k) {
            proof {
                assert(m.skip(i as int)[0] == m[i as int]);
            }
            return Some(&o[i].1);
        }
        proof {
            assert(m.skip(i as int)[0] == m[i as int]);
            assert(m.skip(i as int).drop_first() =~= m.skip(i + 1));
        }
        i = i + 1;
    }
    proof {
        assert(m.skip(o.len() as int) =~= Seq::empty());
    }
    None
}

#[verifier::external_type_specification]
#[verifier::external_body]
pub struct ExSerdeValue(serde_json::Value);

/// The value that the JSON codec reads out of a text, if any: parsing is a
/// function of the text alone.
pub uninterp spec fn parsed_json(s: Seq<char>) -> Option<JsonModel>;

/// Relies on `serde_json::from_str`: it decodes a JSON text into a value, or
/// fails; the outcome depends on the text alone.
#[verifier::external_body]
pub fn parse_json(s: &str) -> (r: Option<JsonValue>)
    ensures
        match r {
            Some(v) => parsed_json(s@) == Some(json_model(v)),
            None => parsed_json(s@) is None,
        },
{
    match serde_json::from_str::<serde_json::Value>(s) {
        Ok(v) => Some(lift_value(v)),
        Err(_) => None,
    }
}

/// Carries a `serde_json` value over into the library's own representation,
/// variant by variant; used only by `parse_json`.
#[verifier::external_body]
fn lift_value(v: serde_json::Value) -> JsonValue {
    match v {
        serde_json::Value::Null => JsonValue::Null,
        serde_json::Value::Bool(b) => JsonValue::Bool(b),
        serde_json::Value::Number(n) => match n.as_u64() {
            Some(u) => JsonValue::UInt(u),
            None => JsonValue::Num(n.to_string()),
        },
        serde_json::Value::String(s) => JsonValue::Str(s),
        serde_json::Value::Array(a) => JsonValue::Arr(a.into_iter().map(lift_value).collect()),
        serde_json::Value::Object(o) => JsonValue::Obj(
            o.into_iter().map(|(k, x)| (k, lift_value(x))).collect(),
        ),
    }
}

/// The text that the JSON codec writes for a value: rendering is a function
/// of the value alone.
pub uninterp spec fn rendered_json(v: JsonModel) -> Seq<char>;

/// Relies on `serde_json::to_string`: it writes a JSON text for a value, and
/// the text depends on the value alone.
#[verifier::external_body]
pub fn render_json(v: &JsonValue) -> (r: String)
    ensures
        r@ == rendered_json(json_model(*v)),
{
    let w = lower_value(v);
    serde_json::to_string(&w).unwrap_or_default()
}

/// Carries a value of the library's representation over to `serde_json`,
/// variant by variant; used only by `render_json`.  A `Num` holding text
/// that is no JSON number renders as null.
#[verifier::external_body]
fn lower_value(v: &JsonValue) -> serde_json::Value {
    match v {
        JsonValue::Null => serde_json::Value::Null,
        JsonValue::Bool(b) => serde_json::Value::Bool(*b),
        JsonValue::UInt(u) => serde_json::Value::Number(serde_json::Number::from(*u)),
        JsonValue::Num(t) => serde_json::from_str::<serde_json::Value>(t).unwrap_or(
            serde_json::Value::Null,
        ),
        JsonValue::Str(s) => serde_json::Value::String(s.clone()),
        JsonValue::Arr(a) => serde_json::Value::Array(a.iter().map(lower_value).collect()),
        JsonValue::Obj(o) => serde_json::Value::Object(
            o.iter().map(|(k, x)| (k.clone(), lower_value(x))).collect(),
        ),
    }
}

} // verus!
