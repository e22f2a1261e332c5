//! The metadata document: TOML text parsed by the `toml` crate, and a
//! mathematical model of what was parsed.

use vstd::prelude::*;

verus! {

/// `toml::Value`: a parsed TOML value. Nothing is seen of it but through
/// `node_of`.
#[verifier::external_type_specification]
#[verifier::external_body]
pub struct ExValue(toml::Value);

/// `toml::map::Map`: a parsed TOML table. Nothing is seen of it but through
/// `table_of`.
#[verifier::external_type_specification]
#[verifier::external_body]
#[verifier::reject_recursive_types(K)]
#[verifier::reject_recursive_types(V)]
pub struct ExTable<K, V>(toml::map::Map<K, V>);

/// `toml::de::Error`: why a text was refused. It is only passed on.
#[verifier::external_type_specification]
#[verifier::external_body]
pub struct ExDocumentError(toml::de::Error);

/// A TOML value as the decoder sees it. Floats, booleans and datetimes are
/// all `Other`: the decoder accepts none of them anywhere.
pub enum Node {
    Text(Seq<char>),
    Integer(i64),
    Array(Seq<Node>),
    Table(Map<Seq<char>, Node>),
    Other,
}

/// What a parsed value holds.
pub uninterp spec fn node_of(value: toml::Value) -> Node;

/// What a parsed table holds, by key.
pub uninterp spec fn table_of(table: toml::value::Table) -> Map<Seq<char>, Node>;

/// The document that `bytes` spell, or `None` where they are no TOML.
pub uninterp spec fn toml_document(bytes: Seq<u8>) -> Option<Node>;

/// `toml::from_slice`, asked for a `toml::Value`: the whole document as one
/// value, or an error where `bytes` are not UTF-8 or not TOML.
///
/// Which document the bytes spell is the parser's business: the contract
/// only gives it a name. The parser goes one call deeper for each level of
/// nested arrays and inline tables and sets itself no limit, so a text nested
/// deeper than the stack allows ends the process, as want of memory would.
#[verifier::external_body]
pub(crate) fn parse_document(bytes: &[u8]) -> (parsed: Result<toml::Value, toml::de::Error>)
    ensures
        match parsed {
            Ok(value) => toml_document(bytes@) == Some(node_of(value)),
            Err(_) => toml_document(bytes@) is None,
        },
{
    toml::from_slice::<toml::Value>(bytes)
}

/// `toml::Value::as_integer`: the number of an integer, `None` of anything
/// else.
pub assume_specification[ toml::Value::as_integer ](value: &toml::Value) -> (number: Option<i64>)
    ensures
        number == match node_of(*value) {
            Node::Integer(i) => Some(i),
            _ => None,
        },
;

/// `toml::Value::as_str`: the text of a string, `None` of anything else.
pub assume_specification<'a>[ toml::Value::as_str ](value: &'a toml::Value) -> (text: Option<
    &'a str,
>)
    ensures
        match node_of(*value) {
            Node::Text(s) => text matches Some(t) && t@ == s,
            _ => text is None,
        },
;

/// `toml::Value::as_array`: the items of an array, in order, `None` of
/// anything else.
pub assume_specification<'a>[ toml::Value::as_array ](value: &'a toml::Value) -> (items: Option<
    &'a Vec<toml::Value>,
>)
    ensures
        match node_of(*value) {
            Node::Array(nodes) => items matches Some(v) && v@.len() == nodes.len() && forall|
                i: int,
            |
                0 <= i < nodes.len() ==> node_of(#[trigger] v@[i]) == nodes[i],
            _ => items is None,
        },
;

/// `toml::Value::as_table`: the table of a table value, `None` of anything
/// else.
pub assume_specification<'a>[ toml::Value::as_table ](value: &'a toml::Value) -> (table: Option<
    &'a toml::value::Table,
>)
    ensures
        match node_of(*value) {
            Node::Table(entries) => table matches Some(t) && table_of(*t) == entries,
            _ => table is None,
        },
;

/// `toml::map::Map::get` with a string key: the value under `key`, if the
/// table has that key.
#[verifier::external_body]
pub(crate) fn table_get<'a>(table: &'a toml::value::Table, key: &str) -> (value: Option<
    &'a toml::Value,
>)
    ensures
        match value {
            Some(v) => table_of(*table).dom().contains(key@) && table_of(*table)[key@] == node_of(
                *v,
            ),
            None => !table_of(*table).dom().contains(key@),
        },
{
    table.get(key)
}

/// `toml::map::Map::keys`, each key cloned: every key of the table, once.
/// The order is the map's own and is not stated.
#[verifier::external_body]
pub(crate) fn table_keys(table: &toml::value::Table) -> (keys: Vec<String>)
    ensures
        forall|i: int, j: int| 0 <= i < j < keys@.len() ==> keys@[i]@ != keys@[j]@,
        forall|i: int|
            0 <= i < keys@.len() ==> table_of(*table).dom().contains(#[trigger] keys@[i]@),
        forall|k: Seq<char>|
            table_of(*table).dom().contains(k) ==> exists|i: int|
                0 <= i < keys@.len() && #[trigger] keys@[i]@ == k,
{
    table.keys().cloned().collect()
}

/// `toml::Value::from` of a `String`: the string value that holds the text.
#[verifier::external_body]
pub(crate) fn text_value(text: String) -> (value: toml::Value)
    ensures
        node_of(value) == Node::Text(text@),
{
    toml::Value::from(text)
}

/// `toml::Value::from` of an `i32`: the integer value of that number.
#[verifier::external_body]
pub(crate) fn integer_value(number: i32) -> (value: toml::Value)
    ensures
        node_of(value) == Node::Integer(number as i64),
{
    toml::Value::from(number)
}

/// `toml::Value::from` of a `Vec` of values: the array of these values, in
/// their order.
#[verifier::external_body]
pub(crate) fn array_value(items: Vec<toml::Value>) -> (value: toml::Value)
    ensures
        node_of(value) == Node::Array(Seq::new(items@.len(), |i: int| node_of(items@[i]))),
{
    toml::Value::from(items)
}

/// `toml::Value::from` of a table: the table value that holds it.
#[verifier::external_body]
pub(crate) fn table_value(table: toml::value::Table) -> (value: toml::Value)
    ensures
        node_of(value) == Node::Table(table_of(table)),
{
    toml::Value::from(table)
}

/// The table without entries.
pub open spec fn no_entries() -> Map<Seq<char>, Node> {
    Map::empty()
}

/// `toml::map::Map::new`: a table without entries.
#[verifier::external_body]
pub(crate) fn new_table() -> (table: toml::value::Table)
    ensures
        table_of(table) == no_entries(),
{
    toml::map::Map::new()
}

/// `toml::map::Map::insert`: the table then holds `value` under `key`,
/// whatever it held there before; its other entries stay.
#[verifier::external_body]
pub(crate) fn table_insert(table: &mut toml::value::Table, key: String, value: toml::Value)
    ensures
        table_of(*final(table)) == table_of(*old(table)).insert(key@, node_of(value)),
{
    table.insert(key, value);
}

} // verus!
