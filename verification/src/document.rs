//! TOML documents as the `toml` crate holds them. A document stays a
//! `toml::Value`; what it holds is spoken of through `tree_of`.

use vstd::prelude::*;

verus! {

/// `toml::Value`. Verified code reaches into a value through the functions
/// below only.
#[verifier::external_type_specification]
#[verifier::external_body]
pub struct ExValue(toml::Value);

/// `toml::de::Error`, opaque here: a value is carried, never looked into.
#[verifier::external_type_specification]
#[verifier::external_body]
pub struct ExParseError(toml::de::Error);

/// `toml::ser::Error`, opaque here: a value is carried, never looked into.
#[verifier::external_type_specification]
#[verifier::external_body]
pub struct ExRenderError(toml::ser::Error);

/// What a TOML value holds, as far as this library looks into it: tables by
/// key, arrays by position, strings by their characters, date-times by the
/// text they are written as. Every other value stands for itself.
pub enum Tree {
    Table(Map<Seq<char>, Tree>),
    List(Seq<Tree>),
    Text(Seq<char>),
    Datetime(Seq<char>),
    Other(toml::Value),
}

/// What `v` holds.
pub uninterp spec fn tree_of(v: toml::Value) -> Tree;

/// The document that `source` parses to, where it is TOML.
pub uninterp spec fn toml_parsed(source: Seq<char>) -> Option<Tree>;

/// The text that `toml::to_string` writes for a document.
pub uninterp spec fn toml_rendered(doc: Tree) -> Option<Seq<char>>;

/// The text that `toml::to_string_pretty` writes for a document.
pub uninterp spec fn toml_rendered_pretty(doc: Tree) -> Option<Seq<char>>;

/// The characters of a string or of a date-time as written; nothing for
/// tables, arrays and the other scalars.
pub open spec fn text_of(t: Tree) -> Option<Seq<char>> {
    match t {
        Tree::Text(s) => Some(s),
        Tree::Datetime(s) => Some(s),
        _ => None,
    }
}

/// Calls `toml::from_str` for a table and wraps it as `Value::Table`. The
/// contract names the document; a document is always a table.
#[verifier::external_body]
pub(crate) fn parse_document(source: &str) -> (out: Result<toml::Value, toml::de::Error>)
    ensures
        match out {
            Ok(doc) => toml_parsed(source@) == Some(tree_of(doc)) && tree_of(doc) is Table,
            Err(_) => toml_parsed(source@) is None,
        },
{
    match toml::from_str::<toml::value::Table>(source) {
        Ok(table) => Ok(toml::Value::Table(table)),
        Err(err) => Err(err),
    }
}

/// Calls `toml::to_string`. The contract names the text.
#[verifier::external_body]
pub(crate) fn render(doc: &toml::Value) -> (out: Result<String, toml::ser::Error>)
    ensures
        match out {
            Ok(text) => toml_rendered(tree_of(*doc)) == Some(text@),
            Err(_) => toml_rendered(tree_of(*doc)) is None,
        },
{
    toml::to_string(doc)
}

/// Calls `toml::to_string_pretty`. The contract names the text.
#[verifier::external_body]
pub(crate) fn render_pretty(doc: &toml::Value) -> (out: Result<String, toml::ser::Error>)
    ensures
        match out {
            Ok(text) => toml_rendered_pretty(tree_of(*doc)) == Some(text@),
            Err(_) => toml_rendered_pretty(tree_of(*doc)) is None,
        },
{
    toml::to_string_pretty(doc)
}

/// Calls `Value::is_table`.
#[verifier::external_body]
pub(crate) fn is_table(v: &toml::Value) -> (b: bool)
    ensures
        b == (tree_of(*v) is Table),
{
    v.is_table()
}

/// Calls `Value::as_table` and `Map::get`: the value under `key`, where `v`
/// is a table that has the key.
#[verifier::external_body]
pub(crate) fn table_get<'a>(v: &'a toml::Value, key: &str) -> (out: Option<&'a toml::Value>)
    ensures
        match out {
            Some(child) => tree_of(*v) is Table && tree_of(*v)->Table_0.contains_key(key@)
                && tree_of(*child) == tree_of(*v)->Table_0[key@],
            None => !(tree_of(*v) is Table && tree_of(*v)->Table_0.contains_key(key@)),
        },
{
    match v.as_table() {
        Some(table) => table.get(key),
        None => None,
    }
}

/// Calls `Value::as_table_mut` and `Map::remove`: the key leaves the table,
/// and what stood under it is handed out.
#[verifier::external_body]
pub(crate) fn table_remove(v: &mut toml::Value, key: &str) -> (out: Option<toml::Value>)
    requires
        tree_of(*old(v)) is Table,
    ensures
        tree_of(*final(v)) == Tree::Table(tree_of(*old(v))->Table_0.remove(key@)),
        match out {
            Some(child) => tree_of(*old(v))->Table_0.contains_key(key@) && tree_of(child) == tree_of(
                *old(v),
            )->Table_0[key@],
            None => !tree_of(*old(v))->Table_0.contains_key(key@),
        },
{
    match v.as_table_mut() {
        Some(table) => table.remove(key),
        None => None,
    }
}

/// Calls `Value::as_table_mut` and `Map::insert`: `item` stands under `key`
/// afterwards, in place of what stood there.
#[verifier::external_body]
pub(crate) fn table_insert(v: &mut toml::Value, key: &str, item: toml::Value)
    requires
        tree_of(*old(v)) is Table,
    ensures
        tree_of(*final(v)) == Tree::Table(tree_of(*old(v))->Table_0.insert(key@, tree_of(item))),
{
    if let Some(table) = v.as_table_mut() {
        table.insert(key.to_string(), item);
    }
}

/// Calls `Value::as_table` and `Map::is_empty`.
#[verifier::external_body]
pub(crate) fn table_is_empty(v: &toml::Value) -> (b: bool)
    requires
        tree_of(*v) is Table,
    ensures
        b == (tree_of(*v)->Table_0 == Map::<Seq<char>, Tree>::empty()),
{
    match v.as_table() {
        Some(table) => table.is_empty(),
        None => false,
    }
}

/// Calls `Map::new` and wraps it as `Value::Table`.
#[verifier::external_body]
pub(crate) fn new_table() -> (v: toml::Value)
    ensures
        tree_of(v) == Tree::Table(Map::<Seq<char>, Tree>::empty()),
{
    toml::Value::Table(toml::map::Map::new())
}

/// Builds `Value::String`.
#[verifier::external_body]
pub(crate) fn text_value(s: &str) -> (v: toml::Value)
    ensures
        tree_of(v) == Tree::Text(s@),
{
    toml::Value::String(s.to_string())
}

/// Tells the variants of `Value` apart: a string gives its characters, a
/// date-time the text it is written as (`Datetime`'s `to_string`), any other
/// value nothing.
#[verifier::external_body]
pub(crate) fn scalar_text(v: &toml::Value) -> (out: Option<String>)
    ensures
        match out {
            Some(s) => text_of(tree_of(*v)) == Some(s@),
            None => text_of(tree_of(*v)) is None,
        },
{
    match v {
        toml::Value::String(s) => Some(s.clone()),
        toml::Value::Datetime(d) => Some(d.to_string()),
        _ => None,
    }
}

/// Calls `Value::as_array`: the items of an array, in order.
#[verifier::external_body]
pub(crate) fn list_items(v: &toml::Value) -> (out: Option<&Vec<toml::Value>>)
    ensures
        match out {
            Some(items) => tree_of(*v) == Tree::List(items@.map_values(|x: toml::Value| tree_of(x))),
            None => !(tree_of(*v) is List),
        },
{
    v.as_array()
}

} // verus!
