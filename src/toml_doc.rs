//! The parts of the `toml` crate that configuration resolution relies on.
//!
//! A parsed document is an opaque `toml::Table`. What the library reads
//! from it is given names: the entries of a table, and the integer, string
//! or table that a value holds.

use vstd::prelude::*;

verus! {

#[verifier::external_type_specification]
#[verifier::external_body]
#[verifier::reject_recursive_types(K)]
#[verifier::reject_recursive_types(V)]
pub struct ExTomlMap<K, V>(toml::map::Map<K, V>);

#[verifier::external_type_specification]
#[verifier::external_body]
pub struct ExTomlValue(toml::Value);

#[verifier::external_type_specification]
#[verifier::external_body]
pub struct ExTomlError(toml::de::Error);

/// The table that `toml::from_str` makes of a text, or `None` where the
/// text is not a TOML document.
pub uninterp spec fn parsed_table(text: Seq<char>) -> Option<toml::Table>;

/// The entries of a table, by key.
pub uninterp spec fn table_entries(t: toml::Table) -> Map<Seq<char>, toml::Value>;

/// The integer that a value holds, if it is an integer.
pub uninterp spec fn integer_of(v: toml::Value) -> Option<i64>;

/// The string that a value holds, if it is a string.
pub uninterp spec fn str_of(v: toml::Value) -> Option<Seq<char>>;

/// The table that a value holds, if it is a table.
pub uninterp spec fn table_of(v: toml::Value) -> Option<toml::Table>;

/// The entry of `t` under `key`, if there is one.
pub open spec fn entry(t: toml::Table, key: Seq<char>) -> Option<toml::Value> {
    if table_entries(t).contains_key(key) {
        Some(table_entries(t)[key])
    } else {
        None
    }
}

/// Relies on `toml::from_str` (as a `toml::Table`): the outcome depends on
/// the text alone.
#[verifier::external_body]
pub(crate) fn parse_table(text: &str) -> (r: Result<toml::Table, toml::de::Error>)
    ensures
        match r {
            Ok(t) => parsed_table(text@) == Some(t),
            Err(_) => parsed_table(text@) is None,
        },
{
    toml::from_str(text)
}

/// Relies on the `Display` impl of `toml::de::Error`, for a diagnostic.
#[verifier::external_body]
pub(crate) fn error_text(e: &toml::de::Error) -> String {
    e.to_string()
}

/// Relies on `toml::map::Map::get`: the value stored under `key`.
#[verifier::external_body]
pub(crate) fn lookup<'a>(t: &'a toml::Table, key: &str) -> (r: Option<&'a toml::Value>)
    ensures
        match r {
            Some(v) => table_entries(*t).contains_key(key@) && table_entries(*t)[key@] == *v,
            None => !table_entries(*t).contains_key(key@),
        },
{
    t.get(key)
}

/// `toml::Value::as_integer`: the integer of an `Integer` value.
pub assume_specification[ toml::Value::as_integer ](v: &toml::Value) -> (r: Option<i64>)
    ensures
        r == integer_of(*v),
;

/// `toml::Value::as_str`: the string of a `String` value.
pub assume_specification<'a>[ toml::Value::as_str ](v: &'a toml::Value) -> (r: Option<&'a str>)
    ensures
        match r {
            Some(s) => str_of(*v) == Some(s@),
            None => str_of(*v) is None,
        },
;

/// `toml::Value::as_table`: the table of a `Table` value.
pub assume_specification<'a>[ toml::Value::as_table ](v: &'a toml::Value) -> (r: Option<&'a toml::Table>)
    ensures
        match r {
            Some(t) => table_of(*v) == Some(*t),
            None => table_of(*v) is None,
        },
;

} // verus!
