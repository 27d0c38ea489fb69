use vstd::prelude::*;

verus! {

/// The mathematical content of a parsed JSON value, as far as the knowledge
/// loaders read it: strings, arrays, objects. Numbers, booleans and null are
/// never read by any loader, so they share one constructor.
pub ghost enum JsonData {
    Str(Seq<char>),
    Arr(Seq<JsonData>),
    Obj(Map<Seq<char>, JsonData>),
    Other,
}

/// What `serde_json::from_str` yields on a given text: `Some` exactly when
/// the parser accepts the text, and then the parsed value. The parse depends
/// on the text alone.
pub uninterp spec fn json_of(text: Seq<char>) -> Option<JsonData>;

/// The content of a `serde_json::Value`, determined by the value itself.
pub uninterp spec fn json_model(v: serde_json::Value) -> JsonData;

#[verifier::external_type_specification]
#[verifier::external_body]
pub struct ExValue(serde_json::Value);

/// Relies on `serde_json::from_str::<Value>`: `Some` exactly on text the
/// parser accepts, and then the parsed value.
#[verifier::external_body]
pub(crate) fn parse_json_value(text: &str) -> (r: Option<serde_json::Value>)
    ensures
        r is Some <==> json_of(text@) is Some,
        r is Some ==> json_model(r->0) == json_of(text@)->0,
{
    serde_json::from_str::<serde_json::Value>(text).ok()
}

/// Relies on `serde_json::Value::as_str`: `Some` exactly on a JSON string,
/// and then the string itself.
#[verifier::external_body]
pub(crate) fn value_as_string(v: &serde_json::Value) -> (r: Option<String>)
    ensures
        r is Some <==> json_model(*v) is Str,
        r is Some ==> r->0@ == json_model(*v)->Str_0,
{
    v.as_str().map(|s| s.to_string())
}

/// Relies on `serde_json::Value::as_array`: `Some` exactly on a JSON array,
/// and then the elements in order.
#[verifier::external_body]
pub(crate) fn value_as_array(v: &serde_json::Value) -> (r: Option<&Vec<serde_json::Value>>)
    ensures
        r is Some <==> json_model(*v) is Arr,
        r is Some ==> {
            &&& r->0@.len() == json_model(*v)->Arr_0.len()
            &&& forall|i: int|
                0 <= i < r->0@.len() ==> json_model(#[trigger] r->0@[i]) == json_model(
                    *v,
                )->Arr_0[i]
        },
{
    v.as_array()
}

/// Relies on `serde_json::Value::get` with a string index: on a JSON object it
/// looks the field up, on anything else it returns `None`.
#[verifier::external_body]
pub(crate) fn value_get<'a>(v: &'a serde_json::Value, key: &str) -> (r: Option<
    &'a serde_json::Value,
>)
    ensures
        json_model(*v) is Obj ==> (r is Some <==> json_model(*v)->Obj_0.contains_key(key@)),
        json_model(*v) is Obj && r is Some ==> json_model(*r->0) == json_model(*v)->Obj_0[key@],
        !(json_model(*v) is Obj) ==> r is None,
{
    v.get(key)
}

} // verus!
