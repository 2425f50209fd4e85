//! A JSON document tree held as plain values: the structured content of spec
//! sections and the reports that the planning tool returns.
use vstd::prelude::*;

verus! {

/// A JSON value. Numbers keep the text that represents them.
#[derive(Debug)]
pub enum JsonValue {
    Null,
    Bool(bool),
    Number(String),
    Text(String),
    Array(Vec<JsonValue>),
    Object(Vec<(String, JsonValue)>),
}

/// The mathematical form of a JSON value.
pub enum JsonModel {
    Null,
    Bool(bool),
    Number(Seq<char>),
    Text(Seq<char>),
    Array(Seq<JsonModel>),
    Object(Seq<(Seq<char>, JsonModel)>),
}

impl JsonValue {
    /// The mathematical form of this value.
    pub open spec fn model(&self) -> JsonModel
        decreases self,
    {
        match self {
            JsonValue::Null => JsonModel::Null,
            JsonValue::Bool(b) => JsonModel::Bool(*b),
            JsonValue::Number(n) => JsonModel::Number(n@),
            JsonValue::Text(s) => JsonModel::Text(s@),
            JsonValue::Array(items) => JsonModel::Array(
                Seq::new(
                    items@.len(),
                    |i: int|
                        if 0 <= i < items@.len() {
                            items@[i].model()
                        } else {
                            JsonModel::Null
                        },
                ),
            ),
            JsonValue::Object(fields) => JsonModel::Object(
                Seq::new(
                    fields@.len(),
                    |i: int|
                        if 0 <= i < fields@.len() {
                            (fields@[i].0@, fields@[i].1.model())
                        } else {
                            (Seq::empty(), JsonModel::Null)
                        },
                ),
            ),
        }
    }
}

/// A JSON array of texts.
pub open spec fn texts_json(items: Seq<Seq<char>>) -> JsonModel {
    JsonModel::Array(Seq::new(items.len(), |i: int| JsonModel::Text(items[i])))
}

/// A JSON array of texts.
pub fn text_array(items: &Vec<String>) -> (v: JsonValue)
    ensures
        v.model() == texts_json(items.deep_view()),
{
    let mut out: Vec<JsonValue> = Vec::new();
    let mut i: usize = 0;
    while i < items.len()
        invariant
            i <= items@.len(),
            out@.len() == i,
            forall|j: int| 0 <= j < i ==> #[trigger] out@[j].model() == JsonModel::Text(items@[j]@),
        decreases items.len() - i,
    {
        out.push(JsonValue::Text(items[i].clone()));
        i = i + 1;
    }
    let ghost target = texts_json(items.deep_view())->Array_0;
    let v = JsonValue::Array(out);
    proof {
        match v.model() {
            JsonModel::Array(s) => {
                assert(s.len() == target.len());
                assert forall|i: int| 0 <= i < s.len() implies s[i] == target[i] by {
                    assert(v->Array_0@[i] == out@[i]);
                    assert(s[i] == out@[i].model());
                    assert(out@[i].model() == JsonModel::Text(items@[i]@));
                    assert(items.deep_view()[i] == items@[i]@);
                }
                assert(s =~= target);
            },
            _ => {},
        }
    }
    v
}

} // verus!
