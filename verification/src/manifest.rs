use vstd::prelude::*;

verus! {

/// `toml::Value`, a parsed TOML value; opaque here.
#[verifier::external_type_specification]
#[verifier::external_body]
pub struct ExTomlValue(toml::Value);

/// `toml::de::Error`, the error of the TOML parser; opaque here.
#[verifier::external_type_specification]
#[verifier::external_body]
pub struct ExTomlError(toml::de::Error);

/// What `toml::from_str` gives for `text`: the document that it reads, or
/// the parser's error.
pub uninterp spec fn toml_parse(text: Seq<char>) -> Result<toml::Value, toml::de::Error>;

/// The message of a parser error, as its `to_string` gives it.
pub uninterp spec fn toml_error_message(e: toml::de::Error) -> Seq<char>;

/// What `toml::Value::get` finds in `v` under the string key `key`.
pub uninterp spec fn toml_member(v: toml::Value, key: Seq<char>) -> Option<toml::Value>;

/// The text of `v` where it is a string, as `toml::Value::as_str` gives it.
pub uninterp spec fn toml_text(v: toml::Value) -> Option<Seq<char>>;

/// The items of `v` where it is an array, as `toml::Value::as_array` gives them.
pub uninterp spec fn toml_items(v: toml::Value) -> Option<Seq<toml::Value>>;

/// `toml::from_str` into a `toml::Value`: the document read from `text`,
/// or the parser's error where it reads none; named `toml_parse`.
#[verifier::external_body]
pub(crate) fn parse_toml(text: &str) -> (r: Result<toml::Value, toml::de::Error>)
    ensures
        r == toml_parse(text@),
{
    toml::from_str::<toml::Value>(text)
}

/// The `to_string` of a `toml::de::Error`: the parser's own message,
/// named `toml_error_message`.
#[verifier::external_body]
pub(crate) fn toml_error_text(e: &toml::de::Error) -> (r: String)
    ensures
        r@ == toml_error_message(*e),
{
    e.to_string()
}

/// `toml::Value::get` with a string key: the entry of a table under that
/// key, named `toml_member`; nothing where `v` is no table or has no such key.
#[verifier::external_body]
pub(crate) fn value_get<'a>(v: &'a toml::Value, key: &str) -> (r: Option<&'a toml::Value>)
    ensures
        match r {
            Some(x) => toml_member(*v, key@) == Some(*x),
            None => toml_member(*v, key@) is None,
        },
{
    v.get(key)
}

/// `toml::Value::as_str`: the text of a string value, named `toml_text`.
#[verifier::external_body]
pub(crate) fn value_as_str<'a>(v: &'a toml::Value) -> (r: Option<&'a str>)
    ensures
        match r {
            Some(s) => toml_text(*v) == Some(s@),
            None => toml_text(*v) is None,
        },
{
    v.as_str()
}

/// `toml::Value::as_array`: the items of an array value, named `toml_items`.
#[verifier::external_body]
pub(crate) fn value_as_array<'a>(v: &'a toml::Value) -> (r: Option<&'a Vec<toml::Value>>)
    ensures
        match r {
            Some(items) => toml_items(*v) == Some(items@),
            None => toml_items(*v) is None,
        },
{
    v.as_array()
}

} // verus!
