use vstd::prelude::*;
use crate::json::{JsonValue, JsonView};
use crate::decode_root::spec_decode;
use crate::model::{CodecPolicy, DecodeError, DecodeErrorView, DevContainer};

verus! {

// ---------------------------------------------------------------------------
// The text boundary. Turning JSON text into a JSON value and back is the
// work of the serde_json crate. The reading and the rendering are each one
// trusted item whose result is named, not described: `parsed_doc` and
// `rendered_doc` stand for what serde_json computes, and the contracts of
// `decode_text` and `encode_text` are exact relative to those names.
// Everything decoded from the value the reader hands over is checked by the
// verified codec, whatever that value is.
//
// One consequence of reading through serde_json's value parser: an object
// with a duplicate key reaches the decoder as a single member, the last
// occurrence winning, so a duplicate recognized field is not refused the
// way a reader of the raw text could refuse it.
// ---------------------------------------------------------------------------

#[verifier::external_type_specification]
#[verifier::external_body]
pub struct ExValue(serde_json::Value);

/// What reading a JSON text document yields: the parsed value of `s` under
/// the number conversion below, or nothing when `s` is not valid JSON text.
pub uninterp spec fn parsed_doc(s: Seq<char>) -> Option<JsonView>;

/// What rendering a JSON value as text yields.
pub uninterp spec fn rendered_doc(v: JsonView) -> Seq<char>;

/// Relies on the variants of serde_json::Value and on
/// serde_json::Number::as_i64: each member of the outside value moves to
/// the matching variant of this library's value; a number beyond the
/// signed 64-bit integers keeps only its decimal rendering.
#[verifier::external_body]
fn from_value(v: &serde_json::Value) -> JsonValue {
    match v {
        serde_json::Value::Null => JsonValue::Null,
        serde_json::Value::Bool(b) => JsonValue::Bool(*b),
        serde_json::Value::Number(n) => match n.as_i64() {
            Some(i) => JsonValue::Int(i),
            None => JsonValue::NumText(n.to_string()),
        },
        serde_json::Value::String(s) => JsonValue::Str(s.clone()),
        serde_json::Value::Array(a) => JsonValue::Arr(a.iter().map(from_value).collect()),
        serde_json::Value::Object(m) => JsonValue::Obj(
            m.iter().map(|kv| (kv.0.clone(), from_value(kv.1))).collect(),
        ),
    }
}

/// Relies on the variants of serde_json::Value and on the FromStr impl of
/// serde_json::Number: each variant of this library's value moves to the
/// matching outside variant; a held number text that Number cannot read
/// back becomes a JSON null.
#[verifier::external_body]
fn to_value(v: &JsonValue) -> serde_json::Value {
    match v {
        JsonValue::Null => serde_json::Value::Null,
        JsonValue::Bool(b) => serde_json::Value::Bool(*b),
        JsonValue::Int(i) => serde_json::Value::from(*i),
        JsonValue::NumText(s) => match s.parse::<serde_json::Number>() {
            Ok(n) => serde_json::Value::Number(n),
            Err(_) => serde_json::Value::Null,
        },
        JsonValue::Str(s) => serde_json::Value::String(s.clone()),
        JsonValue::Arr(a) => serde_json::Value::Array(a.iter().map(to_value).collect()),
        JsonValue::Obj(m) => serde_json::Value::Object(
            m.iter().map(|kv| (kv.0.clone(), to_value(&kv.1))).collect(),
        ),
    }
}

/// Relies on serde_json::from_str: the result depends on the text alone,
/// and there is one exactly when the text is valid JSON.
#[verifier::external_body]
fn read_doc(s: &str) -> (r: Option<JsonValue>)
    ensures
        r.deep_view() == parsed_doc(s@),
{
    match serde_json::from_str::<serde_json::Value>(s) {
        Ok(v) => Some(from_value(&v)),
        Err(_) => None,
    }
}

/// Relies on serde_json::to_string, which cannot fail on a
/// serde_json::Value and depends on the value alone.
#[verifier::external_body]
fn render_doc(v: &JsonValue) -> (r: String)
    ensures
        r@ == rendered_doc(v.deep_view()),
{
    serde_json::to_string(&to_value(v)).unwrap_or_default()
}

impl DevContainer {
    /// Decodes a JSON text document under the policy `p`.
    ///
    /// Text that is not valid JSON is refused as a malformed document.
    /// Valid text is read into a JSON value by serde_json and decoded
    /// exactly as `decode` decodes that value.
    pub fn decode_text(p: CodecPolicy, s: &str) -> (r: Result<DevContainer, DecodeError>)
        ensures
            crate::util::res_view(r) == (match parsed_doc(s@) {
                None => Err(DecodeErrorView::MalformedDocument),
                Some(j) => spec_decode(p, j),
            }),
    {
        match read_doc(s) {
            None => Err(DecodeError::MalformedDocument),
            Some(j) => Self::decode(p, j),
        }
    }

    /// Encodes this configuration as JSON text: the serde_json rendering
    /// of the document value that `encode` yields, so exactly the present
    /// fields appear, in the declaration order of the schema.
    pub fn encode_text(self) -> (r: String)
        ensures
            r@ == rendered_doc(crate::encode::spec_encode(self.deep_view())),
    {
        let v = self.encode();
        render_doc(&v)
    }
}

} // verus!
