use vstd::prelude::*;
use crate::strings_view;

verus! {

/// The array of strings under a given top-level key of a JSON document;
/// `None` when the text is not a JSON document whose key holds an array of
/// strings.
pub uninterp spec fn json_strings_of(text: Seq<char>, key: Seq<char>) -> Option<Seq<Seq<char>>>;

/// The sequence of strings under a given top-level key of a YAML document;
/// `None` when the text is not a YAML document whose key holds a sequence
/// of strings.
pub uninterp spec fn yaml_strings_of(text: Seq<char>, key: Seq<char>) -> Option<Seq<Seq<char>>>;

/// Relies on serde_json::from_str on serde_json::Value together with
/// Value::get, Value::as_array and Value::as_str: what a JSON document
/// holds under a top-level key is a function of the text and the key
/// alone, and `None` comes exactly when the text is not a JSON document
/// whose key holds an array of strings.
#[verifier::external_body]
pub(crate) fn json_strings_under(text: &str, key: &str) -> (r: Option<Vec<String>>)
    ensures
        r is Some <==> json_strings_of(text@, key@) is Some,
        r is Some ==> strings_view(r.unwrap()@) == json_strings_of(text@, key@).unwrap(),
{
    let doc: serde_json::Value = match serde_json::from_str(text) {
        Ok(v) => v,
        Err(_) => return None,
    };
    let entries = doc.get(key)?.as_array()?;
    entries.iter().map(|e| e.as_str().map(|s| s.to_owned())).collect()
}

/// Relies on serde_yaml::from_str on serde_yaml::Value together with
/// Value::get, Value::as_sequence and Value::as_str: what a YAML document
/// holds under a top-level key is a function of the text and the key
/// alone, and `None` comes exactly when the text is not a YAML document
/// whose key holds a sequence of strings.
#[verifier::external_body]
pub(crate) fn yaml_strings_under(text: &str, key: &str) -> (r: Option<Vec<String>>)
    ensures
        r is Some <==> yaml_strings_of(text@, key@) is Some,
        r is Some ==> strings_view(r.unwrap()@) == yaml_strings_of(text@, key@).unwrap(),
{
    let doc: serde_yaml::Value = match serde_yaml::from_str(text) {
        Ok(v) => v,
        Err(_) => return None,
    };
    let entries = doc.get(key)?.as_sequence()?;
    entries.iter().map(|e| e.as_str().map(|s| s.to_owned())).collect()
}

} // verus!
