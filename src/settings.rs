//! Reading the project's `Cargo.toml` through the `toml` crate.
//!
//! A parsed document is kept as the `toml` crate's own table; what the
//! library reads of it is described by [`TomlItem`].
use vstd::prelude::*;

verus! {

/// The `toml` crate's value type, carried through without looking inside.
#[verifier::external_type_specification]
#[verifier::external_body]
pub struct ExTomlValue(toml::Value);

/// The `toml` crate's table type; its entries are read through [`table_items`].
#[verifier::external_type_specification]
#[verifier::external_body]
#[verifier::reject_recursive_types(K)]
#[verifier::reject_recursive_types(V)]
pub struct ExTomlMap<K, V>(toml::map::Map<K, V>);

/// The `toml` crate's parse error, carried through to be described.
#[verifier::external_type_specification]
#[verifier::external_body]
pub struct ExTomlError(toml::de::Error);

/// What a TOML value holds, as far as the library reads it.
pub enum TomlItem {
    /// A string, with its contents.
    Text(Seq<char>),
    /// An array, with its elements.
    List(Seq<TomlItem>),
    /// A table, with its entries.
    Group(Map<Seq<char>, TomlItem>),
    /// An integer, float, boolean or date, with the text that TOML writes for it.
    Scalar(Seq<char>),
}

/// The entries of a TOML table, by key.
pub uninterp spec fn table_items(t: toml::map::Map<String, toml::Value>) -> Map<Seq<char>, TomlItem>;

/// The entries of the document that a text parses to, if it is valid TOML.
pub uninterp spec fn parsed_document(s: Seq<char>) -> Option<Map<Seq<char>, TomlItem>>;

/// The string stored under `key`, if there is one.
pub open spec fn text_at(m: Map<Seq<char>, TomlItem>, key: Seq<char>) -> Option<Seq<char>> {
    if m.contains_key(key) && m[key] is Text {
        Some(m[key]->Text_0)
    } else {
        None
    }
}

/// The table stored under `key`, if there is one.
pub open spec fn group_at(m: Map<Seq<char>, TomlItem>, key: Seq<char>) -> Option<Map<Seq<char>, TomlItem>> {
    if m.contains_key(key) && m[key] is Group {
        Some(m[key]->Group_0)
    } else {
        None
    }
}

/// The array stored under `key`, if there is one.
pub open spec fn list_at(m: Map<Seq<char>, TomlItem>, key: Seq<char>) -> Option<Seq<TomlItem>> {
    if m.contains_key(key) && m[key] is List {
        Some(m[key]->List_0)
    } else {
        None
    }
}

/// The text that a property value stands for: a string's contents, or how TOML
/// writes an integer, float, boolean or date.
pub open spec fn item_text(i: TomlItem) -> Option<Seq<char>> {
    match i {
        TomlItem::Text(s) => Some(s),
        TomlItem::Scalar(s) => Some(s),
        _ => None,
    }
}

/// Relies on `<toml::Table as FromStr>::from_str`: the document that a text
/// parses to depends on the text alone.
#[verifier::external_body]
pub(crate) fn parse_table(text: &str) -> (r: Result<toml::Table, toml::de::Error>)
    ensures
        r is Ok <==> parsed_document(text@) is Some,
        r is Ok ==> table_items(r->Ok_0) == parsed_document(text@)->Some_0,
{
    text.parse::<toml::Table>()
}

/// Relies on `Display` for `toml::de::Error`, to describe why a text is not TOML.
#[verifier::external_body]
pub(crate) fn describe_error(e: &toml::de::Error) -> String {
    e.to_string()
}

/// A value of a TOML table, as the library reads it.
pub enum TomlEntry {
    /// A string.
    Text(String),
    /// A table.
    Table(toml::Table),
    /// An array, with the contents of each of its strings.
    Array(Vec<Option<String>>),
    /// An integer, float, boolean or date.
    Other,
}

/// `e` is what the library reads of the value `i`.
pub open spec fn entry_matches(e: TomlEntry, i: TomlItem) -> bool {
    match e {
        TomlEntry::Text(s) => i == TomlItem::Text(s@),
        TomlEntry::Table(g) => i is Group && table_items(g) == i->Group_0,
        TomlEntry::Array(l) => i is List && l@.len() == i->List_0.len() && forall|j: int| 0 <= j < l@.len() ==> {
            &&& (#[trigger] l@[j] is Some <==> i->List_0[j] is Text)
            &&& l@[j] is Some ==> l@[j]->Some_0@ == i->List_0[j]->Text_0
        },
        TomlEntry::Other => i is Scalar,
    }
}

/// Relies on `toml::map::Map::get`: the value stored under `key`, if any.
#[verifier::external_body]
pub(crate) fn table_get(t: &toml::Table, key: &str) -> (r: Option<TomlEntry>)
    ensures
        r is Some <==> table_items(*t).contains_key(key@),
        r is Some ==> entry_matches(r->Some_0, table_items(*t)[key@]),
{
    t.get(key).map(|v| match v {
        toml::Value::String(s) => TomlEntry::Text(s.clone()),
        toml::Value::Table(g) => TomlEntry::Table(g.clone()),
        toml::Value::Array(items) => TomlEntry::Array(items.iter().map(|i| match i {
            toml::Value::String(s) => Some(s.clone()),
            _ => None,
        }).collect()),
        _ => TomlEntry::Other,
    })
}

/// Whether the table has an entry under `key`.
pub(crate) fn table_contains(t: &toml::Table, key: &str) -> (r: bool)
    ensures
        r == table_items(*t).contains_key(key@),
{
    table_get(t, key).is_some()
}

/// The string stored under `key`, if there is one.
pub(crate) fn table_text(t: &toml::Table, key: &str) -> (r: Option<String>)
    ensures
        r is Some <==> text_at(table_items(*t), key@) is Some,
        r is Some ==> r->Some_0@ == text_at(table_items(*t), key@)->Some_0,
{
    match table_get(t, key) {
        Some(TomlEntry::Text(s)) => Some(s),
        _ => None,
    }
}

/// The table stored under `key`, if there is one.
pub(crate) fn table_group(t: &toml::Table, key: &str) -> (r: Option<toml::Table>)
    ensures
        r is Some <==> group_at(table_items(*t), key@) is Some,
        r is Some ==> table_items(r->Some_0) == group_at(table_items(*t), key@)->Some_0,
{
    match table_get(t, key) {
        Some(TomlEntry::Table(g)) => Some(g),
        _ => None,
    }
}

/// The array stored under `key`, if there is one, with the contents of each of
/// its strings.
pub(crate) fn table_text_list(t: &toml::Table, key: &str) -> (r: Option<Vec<Option<String>>>)
    ensures
        r is Some <==> list_at(table_items(*t), key@) is Some,
        r is Some ==> {
            let items = list_at(table_items(*t), key@)->Some_0;
            &&& r->Some_0@.len() == items.len()
            &&& forall|i: int| 0 <= i < items.len() ==> {
                &&& (#[trigger] r->Some_0@[i] is Some <==> items[i] is Text)
                &&& r->Some_0@[i] is Some ==> r->Some_0@[i]->Some_0@ == items[i]->Text_0
            }
        },
{
    match table_get(t, key) {
        Some(TomlEntry::Array(items)) => Some(items),
        _ => None,
    }
}

/// Relies on `toml::map::Map::iter` and on `Display` for `toml::Value`: each
/// entry once, a string by its contents and any other value as TOML writes it.
#[verifier::external_body]
pub(crate) fn table_entries(t: &toml::Table) -> (r: Vec<(String, String)>)
    ensures
        forall|i: int| 0 <= i < r@.len() ==> table_items(*t).contains_key(#[trigger] r@[i].0@),
        forall|i: int| 0 <= i < r@.len() ==> item_text(table_items(*t)[#[trigger] r@[i].0@]) is Some
            ==> r@[i].1@ == item_text(table_items(*t)[r@[i].0@])->Some_0,
        forall|i: int, j: int| 0 <= i < j < r@.len() ==> r@[i].0@ != r@[j].0@,
        forall|k: Seq<char>| #[trigger] table_items(*t).contains_key(k) ==> exists|i: int| 0 <= i < r@.len() && r@[i].0@ == k,
{
    t.iter().map(|(k, v)| (k.clone(), match v {
        toml::Value::String(s) => s.clone(),
        other => other.to_string(),
    })).collect()
}

} // verus!
