//! Access to `Cargo.toml` documents through `toml_edit`.
//!
//! A document is seen as a map from key paths to entries: the items reached
//! by looking keys up from the root, through tables and inline tables.
//! Arrays are seen through their elements; arrays of tables through the
//! string fields of their tables. Parsing, rendering and editing are
//! `toml_edit`'s; the functions here state what each edit does to the map.
use vstd::prelude::*;

use toml_edit::{Array, ArrayOfTables, DocumentMut, InlineTable, Item, Table, Value};

verus! {

#[verifier::external_type_specification]
#[verifier::external_body]
pub struct ExDocumentMut(DocumentMut);

#[verifier::external_type_specification]
#[verifier::external_body]
pub struct ExItem(Item);

/// A key path from the document root.
pub type TomlPath = Seq<Seq<char>>;

/// The entries of a document, by key path.
pub type Entries = Map<TomlPath, TomlEntry>;

/// An element of an array.
pub enum TomlValue {
    Str(Seq<char>),
    /// An inline table, by its string fields in order.
    InlineTable(Seq<(Seq<char>, Seq<char>)>),
    Other,
}

/// What stands at a key path.
pub enum TomlEntry {
    Table,
    InlineTable,
    Str(Seq<char>),
    Array(Seq<TomlValue>),
    /// An array of tables, by the string fields of each table in order.
    TableArray(Seq<Seq<(Seq<char>, Seq<char>)>>),
    Other,
}

/// The kind of item at a key path.
#[derive(Clone, Copy, Debug, PartialEq, Eq, Structural)]
pub enum NodeKind {
    Table,
    InlineTable,
    TableArray,
    Value,
}

/// The entries of a document.
pub uninterp spec fn toml_entries(doc: DocumentMut) -> Map<TomlPath, TomlEntry>;

/// The entries of the document `toml_edit` parses from a text, or `None`
/// when it rejects the text.
pub uninterp spec fn toml_parse(text: Seq<char>) -> Option<Map<TomlPath, TomlEntry>>;

/// The text `toml_edit` renders for a document.
pub uninterp spec fn toml_render(doc: DocumentMut) -> Seq<char>;

/// The entries of a detached item: its own entry at the empty path, and
/// those below it.
pub uninterp spec fn toml_item_entries(item: Item) -> Map<TomlPath, TomlEntry>;

/// `q` lies strictly below `p`.
pub open spec fn below(p: TomlPath, q: TomlPath) -> bool {
    q.len() > p.len() && q.subrange(0, p.len() as int) == p
}

/// `q` is `p` or lies below it.
pub open spec fn at_or_below(p: TomlPath, q: TomlPath) -> bool {
    q == p || below(p, q)
}

/// The entries without anything strictly below `p`.
pub open spec fn prune_below(m: Map<TomlPath, TomlEntry>, p: TomlPath) -> Map<TomlPath, TomlEntry> {
    m.restrict(m.dom().filter(|q: TomlPath| !below(p, q)))
}

/// The entries without `p` and anything below it.
pub open spec fn prune(m: Map<TomlPath, TomlEntry>, p: TomlPath) -> Map<TomlPath, TomlEntry> {
    m.restrict(m.dom().filter(|q: TomlPath| !at_or_below(p, q)))
}

/// The entries after storing `e` at `p`, replacing what stood there.
pub open spec fn put(m: Map<TomlPath, TomlEntry>, p: TomlPath, e: TomlEntry) -> Map<
    TomlPath,
    TomlEntry,
> {
    prune_below(m, p).insert(p, e)
}

/// The entries at and below `p`, re-rooted at `p`.
pub open spec fn subtree(m: Map<TomlPath, TomlEntry>, p: TomlPath) -> Map<TomlPath, TomlEntry> {
    Map::new(|q: TomlPath| m.contains_key(p + q), |q: TomlPath| m[p + q])
}

/// The entries with the tree `t` placed at `p` (over what was removed).
pub open spec fn graft(m: Map<TomlPath, TomlEntry>, p: TomlPath, t: Map<TomlPath, TomlEntry>) -> Map<
    TomlPath,
    TomlEntry,
> {
    Map::new(
        |q: TomlPath|
            if at_or_below(p, q) {
                t.contains_key(q.skip(p.len() as int))
            } else {
                m.contains_key(q)
            },
        |q: TomlPath|
            if at_or_below(p, q) {
                t[q.skip(p.len() as int)]
            } else {
                m[q]
            },
    )
}

/// The kind of an entry.
pub open spec fn entry_kind(e: TomlEntry) -> NodeKind {
    match e {
        TomlEntry::Table => NodeKind::Table,
        TomlEntry::InlineTable => NodeKind::InlineTable,
        TomlEntry::TableArray(_) => NodeKind::TableArray,
        _ => NodeKind::Value,
    }
}

/// The kind of what stands at `p`, if anything.
pub open spec fn kind_at(m: Map<TomlPath, TomlEntry>, p: TomlPath) -> Option<NodeKind> {
    if m.contains_key(p) {
        Some(entry_kind(m[p]))
    } else {
        None
    }
}

/// `p` holds a table or an inline table.
pub open spec fn table_like_at(m: Map<TomlPath, TomlEntry>, p: TomlPath) -> bool {
    m.contains_key(p) && (m[p] == TomlEntry::Table || m[p] == TomlEntry::InlineTable)
}

/// The string at `p`, if a string stands there.
pub open spec fn str_at(m: Map<TomlPath, TomlEntry>, p: TomlPath) -> Option<Seq<char>> {
    if m.contains_key(p) {
        match m[p] {
            TomlEntry::Str(s) => Some(s),
            _ => None,
        }
    } else {
        None
    }
}

/// The elements of the array at `p` as strings (`None` for other elements),
/// if an array stands there.
pub open spec fn array_at(m: Map<TomlPath, TomlEntry>, p: TomlPath) -> Option<Seq<Option<Seq<char>>>> {
    if m.contains_key(p) {
        match m[p] {
            TomlEntry::Array(vs) => Some(
                vs.map_values(
                    |v: TomlValue|
                        match v {
                            TomlValue::Str(s) => Some(s),
                            _ => None,
                        },
                ),
            ),
            _ => None,
        }
    } else {
        None
    }
}

/// Strings as array elements.
pub open spec fn str_values(vals: Seq<Seq<char>>) -> Seq<TomlValue> {
    vals.map_values(|v: Seq<char>| TomlValue::Str(v))
}

/// Rows of string fields, as a model.
pub open spec fn rows_model(rows: Seq<Vec<(String, String)>>) -> Seq<Seq<(Seq<char>, Seq<char>)>> {
    rows.map_values(|r: Vec<(String, String)>| r.deep_view())
}

/// The keys of each row are distinct.
pub open spec fn rows_keys_distinct(rows: Seq<Vec<(String, String)>>) -> bool {
    forall|i: int, a: int, b: int|
        0 <= i < rows.len() && 0 <= a < b < rows[i]@.len() ==> rows[i]@[a].0@ != rows[i]@[b].0@
}

/// Parses a TOML document (`str::parse::<DocumentMut>`).
/// Claimed: success exactly when the named parse of the text succeeds, with
/// the named entries; the error carries `toml_edit`'s message.
#[verifier::external_body]
pub(crate) fn parse_document(text: &str) -> (r: Result<DocumentMut, String>)
    ensures
        match toml_parse(text@) {
            Some(m) => r matches Ok(d) && toml_entries(d) == m,
            None => r is Err,
        },
{
    text.parse::<DocumentMut>().map_err(|e| e.to_string())
}

/// Renders a document (`DocumentMut::to_string`).
/// Claimed: the result is the named rendering of the document.
#[verifier::external_body]
pub(crate) fn render_document(doc: &DocumentMut) -> (r: String)
    ensures
        r@ == toml_render(*doc),
{
    doc.to_string()
}

/// The kind of item at `[k1]` (`DocumentMut::get`, then the item's variant).
/// Claimed: `None` when nothing stands there, else the kind of the entry.
#[verifier::external_body]
pub(crate) fn kind1(doc: &DocumentMut, k1: &str) -> (r: Option<NodeKind>)
    ensures
        r == kind_at(toml_entries(*doc), seq![k1@]),
{
    match doc.get(k1)? {
        Item::Table(_) => Some(NodeKind::Table),
        Item::ArrayOfTables(_) => Some(NodeKind::TableArray),
        Item::Value(Value::InlineTable(_)) => Some(NodeKind::InlineTable),
        _ => Some(NodeKind::Value),
    }
}

/// The kind of item at `[k1, k2]` (`get` on the document, then on the item).
/// Claimed: `None` when nothing stands there, else the kind of the entry.
#[verifier::external_body]
pub(crate) fn kind2(doc: &DocumentMut, k1: &str, k2: &str) -> (r: Option<NodeKind>)
    ensures
        r == kind_at(toml_entries(*doc), seq![k1@, k2@]),
{
    match doc.get(k1)?.get(k2)? {
        Item::Table(_) => Some(NodeKind::Table),
        Item::ArrayOfTables(_) => Some(NodeKind::TableArray),
        Item::Value(Value::InlineTable(_)) => Some(NodeKind::InlineTable),
        _ => Some(NodeKind::Value),
    }
}

/// The kind of item at `[k1, k2, k3]`.
/// Claimed: `None` when nothing stands there, else the kind of the entry.
#[verifier::external_body]
pub(crate) fn kind3(doc: &DocumentMut, k1: &str, k2: &str, k3: &str) -> (r: Option<NodeKind>)
    ensures
        r == kind_at(toml_entries(*doc), seq![k1@, k2@, k3@]),
{
    match doc.get(k1)?.get(k2)?.get(k3)? {
        Item::Table(_) => Some(NodeKind::Table),
        Item::ArrayOfTables(_) => Some(NodeKind::TableArray),
        Item::Value(Value::InlineTable(_)) => Some(NodeKind::InlineTable),
        _ => Some(NodeKind::Value),
    }
}

/// The kind of item at `[k1, k2, k3, k4]`.
/// Claimed: `None` when nothing stands there, else the kind of the entry.
#[verifier::external_body]
pub(crate) fn kind4(doc: &DocumentMut, k1: &str, k2: &str, k3: &str, k4: &str) -> (r: Option<NodeKind>)
    ensures
        r == kind_at(toml_entries(*doc), seq![k1@, k2@, k3@, k4@]),
{
    match doc.get(k1)?.get(k2)?.get(k3)?.get(k4)? {
        Item::Table(_) => Some(NodeKind::Table),
        Item::ArrayOfTables(_) => Some(NodeKind::TableArray),
        Item::Value(Value::InlineTable(_)) => Some(NodeKind::InlineTable),
        _ => Some(NodeKind::Value),
    }
}

/// The string at `[k1, k2]` (`get`, `get`, `as_str`).
/// Claimed: the string standing there, if any.
#[verifier::external_body]
pub(crate) fn get_str(doc: &DocumentMut, k1: &str, k2: &str) -> (r: Option<String>)
    ensures
        r.deep_view() == str_at(toml_entries(*doc), seq![k1@, k2@]),
{
    doc.get(k1)?.get(k2)?.as_str().map(String::from)
}

/// The elements of the array at `[k1, k2]` as strings (`as_array`, then
/// `as_str` on each element).
/// Claimed: the elements in order, `None` for non-string elements.
#[verifier::external_body]
pub(crate) fn get_array(doc: &DocumentMut, k1: &str, k2: &str) -> (r: Option<Vec<Option<String>>>)
    ensures
        r.deep_view() == array_at(toml_entries(*doc), seq![k1@, k2@]),
{
    Some(doc.get(k1)?.get(k2)?.as_array()?.iter().map(|v| v.as_str().map(String::from)).collect())
}

/// Inserts an empty table at top-level key `k1` (`Table::insert`).
/// Claimed: the entry is added and nothing else changes.
#[verifier::external_body]
pub(crate) fn insert_table1(doc: &mut DocumentMut, k1: &str)
    requires
        !toml_entries(*old(doc)).contains_key(seq![k1@]),
    ensures
        toml_entries(*final(doc)) == toml_entries(*old(doc)).insert(seq![k1@], TomlEntry::Table),
{
    doc.insert(k1, Item::Table(Table::new()));
}

/// Inserts an empty table at `[k1, k2]` into the table at `[k1]`.
/// Claimed: the entry is added and nothing else changes.
#[verifier::external_body]
pub(crate) fn insert_table2(doc: &mut DocumentMut, k1: &str, k2: &str)
    requires
        toml_entries(*old(doc)).contains_key(seq![k1@]),
        toml_entries(*old(doc))[seq![k1@]] == TomlEntry::Table,
        !toml_entries(*old(doc)).contains_key(seq![k1@, k2@]),
    ensures
        toml_entries(*final(doc)) == toml_entries(*old(doc)).insert(
            seq![k1@, k2@],
            TomlEntry::Table,
        ),
{
    if let Some(t) = doc.get_mut(k1).and_then(Item::as_table_mut) {
        t.insert(k2, Item::Table(Table::new()));
    }
}

/// Inserts an empty table at `[k1, k2, k3]` into the table at `[k1, k2]`.
/// Claimed: the entry is added and nothing else changes.
#[verifier::external_body]
pub(crate) fn insert_table3(doc: &mut DocumentMut, k1: &str, k2: &str, k3: &str)
    requires
        toml_entries(*old(doc)).contains_key(seq![k1@]),
        toml_entries(*old(doc))[seq![k1@]] == TomlEntry::Table,
        toml_entries(*old(doc)).contains_key(seq![k1@, k2@]),
        toml_entries(*old(doc))[seq![k1@, k2@]] == TomlEntry::Table,
        !toml_entries(*old(doc)).contains_key(seq![k1@, k2@, k3@]),
    ensures
        toml_entries(*final(doc)) == toml_entries(*old(doc)).insert(
            seq![k1@, k2@, k3@],
            TomlEntry::Table,
        ),
{
    if let Some(t) = doc.get_mut(k1).and_then(|t| t.get_mut(k2)).and_then(Item::as_table_mut) {
        t.insert(k3, Item::Table(Table::new()));
    }
}

/// Stores a string at `[k1, k2]` (`doc[k1][k2] = value(v)`).
/// Claimed: the string replaces what stood there; nothing else changes.
#[verifier::external_body]
pub(crate) fn set_str2(doc: &mut DocumentMut, k1: &str, k2: &str, v: &str)
    requires
        table_like_at(toml_entries(*old(doc)), seq![k1@]),
    ensures
        toml_entries(*final(doc)) == put(
            toml_entries(*old(doc)),
            seq![k1@, k2@],
            TomlEntry::Str(v@),
        ),
{
    doc[k1][k2] = toml_edit::value(v);
}

/// Stores a string at `[k1, k2, k3, k4]` (`doc[k1][k2][k3][k4] = value(v)`).
/// Claimed: the string replaces what stood there; nothing else changes.
#[verifier::external_body]
pub(crate) fn set_str4(doc: &mut DocumentMut, k1: &str, k2: &str, k3: &str, k4: &str, v: &str)
    requires
        table_like_at(toml_entries(*old(doc)), seq![k1@]),
        table_like_at(toml_entries(*old(doc)), seq![k1@, k2@]),
        table_like_at(toml_entries(*old(doc)), seq![k1@, k2@, k3@]),
    ensures
        toml_entries(*final(doc)) == put(
            toml_entries(*old(doc)),
            seq![k1@, k2@, k3@, k4@],
            TomlEntry::Str(v@),
        ),
{
    doc[k1][k2][k3][k4] = toml_edit::value(v);
}

/// Stores an array of strings at `[k1, k2]`.
/// Claimed: the array replaces what stood there; nothing else changes.
#[verifier::external_body]
pub(crate) fn set_str_array2(doc: &mut DocumentMut, k1: &str, k2: &str, vals: &Vec<String>)
    requires
        table_like_at(toml_entries(*old(doc)), seq![k1@]),
    ensures
        toml_entries(*final(doc)) == put(
            toml_entries(*old(doc)),
            seq![k1@, k2@],
            TomlEntry::Array(str_values(vals.deep_view())),
        ),
{
    let mut array = Array::new();
    for v in vals {
        array.push(v.as_str());
    }
    doc[k1][k2] = toml_edit::value(array);
}

/// Stores an array of inline tables of strings at `[k1, k2, k3, k4]`.
/// Claimed: the array replaces what stood there; nothing else changes.
#[verifier::external_body]
pub(crate) fn set_inline_rows4(
    doc: &mut DocumentMut,
    k1: &str,
    k2: &str,
    k3: &str,
    k4: &str,
    rows: &Vec<Vec<(String, String)>>,
)
    requires
        table_like_at(toml_entries(*old(doc)), seq![k1@]),
        table_like_at(toml_entries(*old(doc)), seq![k1@, k2@]),
        table_like_at(toml_entries(*old(doc)), seq![k1@, k2@, k3@]),
        rows_keys_distinct(rows@),
    ensures
        toml_entries(*final(doc)) == put(
            toml_entries(*old(doc)),
            seq![k1@, k2@, k3@, k4@],
            TomlEntry::Array(
                rows_model(rows@).map_values(
                    |r: Seq<(Seq<char>, Seq<char>)>| TomlValue::InlineTable(r),
                ),
            ),
        ),
{
    let mut array = Array::new();
    for row in rows {
        let mut t = InlineTable::new();
        for (key, val) in row {
            t.insert(key.as_str(), val.as_str().into());
        }
        array.push(t);
    }
    doc[k1][k2][k3][k4] = toml_edit::value(array);
}

/// Stores an array of tables of strings at top-level key `k1`.
/// Claimed: the array is added and nothing else changes.
#[verifier::external_body]
pub(crate) fn insert_table_rows1(doc: &mut DocumentMut, k1: &str, rows: &Vec<Vec<(String, String)>>)
    requires
        !toml_entries(*old(doc)).contains_key(seq![k1@]),
        rows_keys_distinct(rows@),
    ensures
        toml_entries(*final(doc)) == toml_entries(*old(doc)).insert(
            seq![k1@],
            TomlEntry::TableArray(rows_model(rows@)),
        ),
{
    let mut aot = ArrayOfTables::new();
    for row in rows {
        let mut t = Table::new();
        for (key, val) in row {
            t.insert(key, toml_edit::value(val.as_str()));
        }
        aot.push(t);
    }
    doc.insert(k1, Item::ArrayOfTables(aot));
}

/// Removes top-level key `k1` (`Table::remove`).
/// Claimed: the entry and everything below it are gone; the removed item,
/// if any, holds what stood there.
#[verifier::external_body]
pub(crate) fn remove1(doc: &mut DocumentMut, k1: &str) -> (r: Option<Item>)
    ensures
        toml_entries(*final(doc)) == prune(toml_entries(*old(doc)), seq![k1@]),
        toml_entries(*old(doc)).contains_key(seq![k1@]) ==> r is Some,
        r matches Some(it) ==> toml_item_entries(it) == subtree(
            toml_entries(*old(doc)),
            seq![k1@],
        ),
{
    doc.remove(k1)
}

/// Inserts an item at top-level key `k1` (`Table::insert`).
/// Claimed: the item's entries now stand at and below `k1`, replacing what
/// stood there; nothing else changes.
#[verifier::external_body]
pub(crate) fn insert_item1(doc: &mut DocumentMut, k1: &str, item: Item)
    ensures
        toml_entries(*final(doc)) == graft(
            prune(toml_entries(*old(doc)), seq![k1@]),
            seq![k1@],
            toml_item_entries(item),
        ),
{
    doc.insert(k1, item);
}

} // verus!
