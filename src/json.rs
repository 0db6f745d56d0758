use vstd::prelude::*;

verus! {

/// `serde_json`'s error type, carried through opaque.
#[verifier::external_type_specification]
#[verifier::external_body]
pub struct ExJsonError(serde_json::Error);

/// What the decoder reads of one member's value in a JSON object.
#[derive(Debug, Clone, PartialEq, Eq)]
pub enum JsonItem {
    /// A string.
    Text(String),
    /// A number, with its value where it is a non-negative integer that fits in `u64`.
    Number(Option<u64>),
    /// `null`, a boolean, an array or an object.
    Other,
}

/// The model of a [`JsonItem`].
pub enum JsonItemView {
    Text(Seq<char>),
    Number(Option<u64>),
    Other,
}

impl View for JsonItem {
    type V = JsonItemView;

    open spec fn view(&self) -> JsonItemView {
        match self {
            JsonItem::Text(s) => JsonItemView::Text(s@),
            JsonItem::Number(n) => JsonItemView::Number(*n),
            JsonItem::Other => JsonItemView::Other,
        }
    }
}

/// One member of a JSON object: its key and what its value holds.
#[derive(Debug, Clone, PartialEq, Eq)]
pub struct JsonField {
    pub key: String,
    pub item: JsonItem,
}

impl View for JsonField {
    type V = (Seq<char>, JsonItemView);

    open spec fn view(&self) -> (Seq<char>, JsonItemView) {
        (self.key@, self.item@)
    }
}

/// The members of a list of fields, as models.
pub open spec fn fields_view(v: Seq<JsonField>) -> Seq<(Seq<char>, JsonItemView)> {
    v.map_values(|f: JsonField| f@)
}

/// The members of the JSON object that `text` holds, or `None` where `text`
/// is not a JSON object.
pub uninterp spec fn json_object_members(text: Seq<char>) -> Option<Seq<(Seq<char>, JsonItemView)>>;

/// The JSON string literal, quotes and escapes included, that denotes `s`.
pub uninterp spec fn json_string_literal(s: Seq<char>) -> Seq<char>;

/// Relies on `serde_json::from_str` into a `serde_json::Map`: it parses
/// `text` as one JSON object, and fails where `text` is not one. Each member
/// is then taken apart by its value's variant.
#[verifier::external_body]
pub(crate) fn parse_object(text: &str) -> (r: Result<Vec<JsonField>, serde_json::Error>)
    ensures
        r is Err <==> json_object_members(text@) is None,
        r matches Ok(v) ==> json_object_members(text@) == Some(fields_view(v@)),
{
    let map = serde_json::from_str::<serde_json::Map<String, serde_json::Value>>(text)?;
    Ok(map.into_iter().map(|(key, value)| {
        let item = match value {
            serde_json::Value::String(s) => JsonItem::Text(s),
            serde_json::Value::Number(n) => JsonItem::Number(n.as_u64()),
            serde_json::Value::Null
            | serde_json::Value::Bool(_)
            | serde_json::Value::Array(_)
            | serde_json::Value::Object(_) => JsonItem::Other,
        };
        JsonField { key, item }
    }).collect())
}

/// Relies on the `Display` of `serde_json::Value::String`: it writes the
/// string as a quoted JSON literal, escaping what JSON requires.
#[verifier::external_body]
pub(crate) fn quote(s: &String) -> (r: String)
    ensures
        r@ == json_string_literal(s@),
{
    serde_json::Value::String(s.clone()).to_string()
}

} // verus!
