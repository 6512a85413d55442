//! TOML documents as `toml_edit` holds them, seen as trees of key paths: the
//! calls into `toml_edit` that the config logic makes, with what each does
//! to the tree.
use vstd::prelude::*;
use crate::config_text::opt_view;

verus! {

#[verifier::external_type_specification]
#[verifier::external_body]
pub struct ExDocumentMut(toml_edit::DocumentMut);

#[verifier::external_type_specification]
#[verifier::external_body]
pub struct ExItem(toml_edit::Item);

#[verifier::external_type_specification]
#[verifier::external_body]
pub struct ExTable(toml_edit::Table);

#[verifier::external_type_specification]
#[verifier::external_body]
pub struct ExTomlError(toml_edit::TomlError);

/// What kind of item stands at a key path.
pub enum TomlNode {
    /// a string value, with its text
    Text(Seq<char>),
    /// an integer value
    Int(int),
    /// a boolean value
    Bool(bool),
    /// a standard table (`[name]` or implicit)
    Table,
    /// an inline table (`{ ... }`)
    InlineTable,
    /// any other value (float, date-time, array), an array of tables, or an
    /// empty item
    Other,
}

/// A path of keys.
pub type KeyPath = Seq<Seq<char>>;

/// A tree of items by key path.
pub type TomlMap = Map<KeyPath, TomlNode>;

/// What a document holds: every non-empty path of keys that `get` follows
/// from the root table (a table yields its entries that are not empty
/// items, an inline table all its entries), mapped to the kind of item
/// found there.
pub uninterp spec fn toml_doc(doc: toml_edit::DocumentMut) -> TomlMap;

/// The text that `Display` renders a document as.
pub uninterp spec fn toml_render(doc: toml_edit::DocumentMut) -> Seq<char>;

/// What an item holds, as `toml_doc` says of a document, with the empty
/// path mapped to the item itself.
pub uninterp spec fn toml_item(item: toml_edit::Item) -> TomlMap;

/// What a table holds, as `toml_doc` says of a document.
pub uninterp spec fn toml_table(t: toml_edit::Table) -> TomlMap;

/// The document that `str::parse::<DocumentMut>` makes of a text, or
/// `None` when the text is not TOML.
pub uninterp spec fn toml_parsed(raw: Seq<char>) -> Option<toml_edit::DocumentMut>;

/// The document after `doc[key] = value(v)` on the root table.
pub uninterp spec fn toml_assigned(doc: toml_edit::DocumentMut, key: Seq<char>, v: TomlNode) -> toml_edit::DocumentMut;

/// The document after `doc[key] = Item::Table(table)` on the root table.
pub uninterp spec fn toml_table_set(doc: toml_edit::DocumentMut, key: Seq<char>, table: toml_edit::Table) -> toml_edit::DocumentMut;

/// The document after `remove(key)` on the root table.
pub uninterp spec fn toml_removed(doc: toml_edit::DocumentMut, key: Seq<char>) -> toml_edit::DocumentMut;

/// The document after `remove(key)` on the standard table under `table`.
pub uninterp spec fn toml_entry_removed(doc: toml_edit::DocumentMut, table: Seq<char>, key: Seq<char>) -> toml_edit::DocumentMut;

/// The table after `table[key] = value(v)`.
pub uninterp spec fn table_assigned(t: toml_edit::Table, key: Seq<char>, v: TomlNode) -> toml_edit::Table;

/// The table after `table[key] = Item::Table(child)`.
pub uninterp spec fn table_nested(t: toml_edit::Table, key: Seq<char>, child: toml_edit::Table) -> toml_edit::Table;

/// The table after `set_implicit(true)`.
pub uninterp spec fn table_implicit(t: toml_edit::Table) -> toml_edit::Table;

/// What `str::parse::<DocumentMut>` makes of a text: the document's tree,
/// or `None` when the text is not TOML.
pub open spec fn toml_text(raw: Seq<char>) -> Option<TomlMap> {
    match toml_parsed(raw) {
        Some(d) => Some(toml_doc(d)),
        None => None,
    }
}

/// A document as `DocumentMut::new` makes it: nothing in it, nothing
/// rendered.
pub open spec fn fresh_doc(d: toml_edit::DocumentMut) -> bool {
    toml_doc(d) == empty_tree() && toml_render(d).len() == 0
}

/// A table as `Table::new` makes it: nothing in it.
pub open spec fn fresh_table(t: toml_edit::Table) -> bool {
    toml_table(t) == empty_tree()
}

/// The tree with nothing in it.
pub open spec fn empty_tree() -> TomlMap {
    Map::empty()
}

/// Whether `p` begins with `pre`.
pub open spec fn has_prefix(q: KeyPath, pre: KeyPath) -> bool {
    pre.len() <= q.len() && q.take(pre.len() as int) == pre
}

/// The tree without `p` and everything below it.
pub open spec fn without(m: TomlMap, p: KeyPath) -> TomlMap {
    Map::new(|q: KeyPath| m.contains_key(q) && !has_prefix(q, p), |q: KeyPath| m[q])
}

/// The tree with a leaf at `p`, replacing what stood there.
pub open spec fn with_leaf(m: TomlMap, p: KeyPath, n: TomlNode) -> TomlMap {
    without(m, p).insert(p, n)
}

/// The part of a tree under `pre`, with `pre` itself at the empty path.
pub open spec fn below(m: TomlMap, pre: KeyPath) -> TomlMap {
    Map::new(|q: KeyPath| m.contains_key(pre + q), |q: KeyPath| m[pre + q])
}

/// The tree with a table at `p` that holds `child`.
pub open spec fn with_table(m: TomlMap, p: KeyPath, child: TomlMap) -> TomlMap {
    Map::new(
        |q: KeyPath|
            (without(m, p).contains_key(q)) || q == p || (has_prefix(q, p) && q.len() > p.len()
                && child.contains_key(q.skip(p.len() as int))),
        |q: KeyPath|
            if q == p {
                TomlNode::Table
            } else if has_prefix(q, p) {
                child[q.skip(p.len() as int)]
            } else {
                m[q]
            },
    )
}

/// The text of the string at `p`, if a string stands there.
pub open spec fn text_at(m: TomlMap, p: KeyPath) -> Option<Seq<char>> {
    if m.contains_key(p) {
        match m[p] {
            TomlNode::Text(s) => Some(s),
            _ => None,
        }
    } else {
        None
    }
}

/// Whether a table has no entries.
pub open spec fn no_entries(m: TomlMap, p: KeyPath) -> bool {
    forall|k: Seq<char>| !m.contains_key(#[trigger] p.push(k))
}

/// `str::parse::<DocumentMut>`: parses a TOML text.
#[verifier::external_body]
pub(crate) fn toml_parse(raw: &str) -> (r: Result<toml_edit::DocumentMut, toml_edit::TomlError>)
    ensures
        match r {
            Ok(d) => toml_parsed(raw@) == Some(d),
            Err(_) => toml_parsed(raw@) is None,
        },
{
    raw.parse::<toml_edit::DocumentMut>()
}

/// `DocumentMut::new`: an empty document.
#[verifier::external_body]
pub(crate) fn doc_new() -> (r: toml_edit::DocumentMut)
    ensures
        fresh_doc(r),
{
    toml_edit::DocumentMut::new()
}

/// `Display` of a document: its TOML text.
#[verifier::external_body]
pub(crate) fn doc_render(doc: &toml_edit::DocumentMut) -> (r: String)
    ensures
        r@ == toml_render(*doc),
{
    doc.to_string()
}

/// `DocumentMut::get` (through the root table): the item under a key, when
/// it is not an empty item.
#[verifier::external_body]
pub(crate) fn doc_get<'a>(doc: &'a toml_edit::DocumentMut, key: &str) -> (r: Option<&'a toml_edit::Item>)
    ensures
        r is Some <==> toml_doc(*doc).contains_key(seq![key@]),
        r matches Some(i) ==> toml_item(*i) == below(toml_doc(*doc), seq![key@]),
        r is None ==> forall|q: KeyPath| !toml_doc(*doc).contains_key(seq![key@] + q),
{
    doc.get(key)
}

/// `DocumentMut::contains_key` (through the root table).
#[verifier::external_body]
pub(crate) fn doc_contains_key(doc: &toml_edit::DocumentMut, key: &str) -> (r: bool)
    ensures
        r == toml_doc(*doc).contains_key(seq![key@]),
{
    doc.contains_key(key)
}

/// `Item::as_str`: the text of a string value.
#[verifier::external_body]
pub(crate) fn item_as_str(item: &toml_edit::Item) -> (r: Option<String>)
    ensures
        opt_view(r) == text_at(toml_item(*item), Seq::<Seq<char>>::empty()),
{
    item.as_str().map(|s| s.to_string())
}

/// `Item::as_table_like` followed by `TableLike::get`: the entry under a key
/// of a table or inline table.
#[verifier::external_body]
pub(crate) fn item_table_get<'a>(item: &'a toml_edit::Item, key: &str) -> (r: Option<&'a toml_edit::Item>)
    ensures
        r is Some <==> toml_item(*item).contains_key(seq![key@]),
        r matches Some(c) ==> toml_item(*c) == below(toml_item(*item), seq![key@]),
        r is None ==> forall|q: KeyPath| !toml_item(*item).contains_key(seq![key@] + q),
{
    item.as_table_like().and_then(|t| t.get(key))
}

/// `doc[key] = value(text)`: a string under a key of the root table.
#[verifier::external_body]
pub(crate) fn doc_set_str(doc: &mut toml_edit::DocumentMut, key: &str, text: &str)
    ensures
        *final(doc) == toml_assigned(*old(doc), key@, TomlNode::Text(text@)),
        toml_doc(*final(doc)) == with_leaf(toml_doc(*old(doc)), seq![key@], TomlNode::Text(text@)),
{
    doc[key] = toml_edit::value(text);
}

/// `doc[key] = value(flag)`: a boolean under a key of the root table.
#[verifier::external_body]
pub(crate) fn doc_set_bool(doc: &mut toml_edit::DocumentMut, key: &str, flag: bool)
    ensures
        *final(doc) == toml_assigned(*old(doc), key@, TomlNode::Bool(flag)),
        toml_doc(*final(doc)) == with_leaf(toml_doc(*old(doc)), seq![key@], TomlNode::Bool(flag)),
{
    doc[key] = toml_edit::value(flag);
}

/// `doc[key] = value(number)`: an integer under a key of the root table.
#[verifier::external_body]
pub(crate) fn doc_set_int(doc: &mut toml_edit::DocumentMut, key: &str, number: i64)
    ensures
        *final(doc) == toml_assigned(*old(doc), key@, TomlNode::Int(number as int)),
        toml_doc(*final(doc)) == with_leaf(
            toml_doc(*old(doc)),
            seq![key@],
            TomlNode::Int(number as int),
        ),
{
    doc[key] = toml_edit::value(number);
}

/// `doc[key] = Item::Table(table)`: a table under a key of the root table.
#[verifier::external_body]
pub(crate) fn doc_set_table(doc: &mut toml_edit::DocumentMut, key: &str, table: toml_edit::Table)
    ensures
        *final(doc) == toml_table_set(*old(doc), key@, table),
        toml_doc(*final(doc)) == with_table(toml_doc(*old(doc)), seq![key@], toml_table(table)),
{
    doc[key] = toml_edit::Item::Table(table);
}

/// `DocumentMut::remove` (through the root table): drops a key and what
/// stands below it.
#[verifier::external_body]
pub(crate) fn doc_remove(doc: &mut toml_edit::DocumentMut, key: &str)
    ensures
        *final(doc) == toml_removed(*old(doc), key@),
        toml_doc(*final(doc)) == without(toml_doc(*old(doc)), seq![key@]),
{
    doc.remove(key);
}

/// `doc.get_mut(table).and_then(Item::as_table_mut)` then `Table::remove`:
/// drops an entry of a standard table under a key of the root; tells
/// whether a standard table stood there.
#[verifier::external_body]
pub(crate) fn doc_table_remove(doc: &mut toml_edit::DocumentMut, table: &str, key: &str) -> (r: bool)
    ensures
        r == (toml_doc(*old(doc)).contains_key(seq![table@]) && toml_doc(*old(doc))[seq![table@]]
            == TomlNode::Table),
        r ==> *final(doc) == toml_entry_removed(*old(doc), table@, key@),
        r ==> toml_doc(*final(doc)) == without(toml_doc(*old(doc)), seq![table@, key@]),
        !r ==> *final(doc) == *old(doc),
{
    match doc.get_mut(table).and_then(toml_edit::Item::as_table_mut) {
        Some(t) => {
            t.remove(key);
            true
        },
        None => false,
    }
}

/// `doc.get(table).and_then(Item::as_table)` then `Table::is_empty`:
/// whether the standard table under a key of the root has no entries.
#[verifier::external_body]
pub(crate) fn doc_table_is_empty(doc: &toml_edit::DocumentMut, table: &str) -> (r: Option<bool>)
    ensures
        r is Some == (toml_doc(*doc).contains_key(seq![table@]) && toml_doc(*doc)[seq![table@]]
            == TomlNode::Table),
        r matches Some(b) ==> b == no_entries(toml_doc(*doc), seq![table@]),
{
    doc.get(table).and_then(toml_edit::Item::as_table).map(|t| t.is_empty())
}

/// `Table::new`: an empty table.
#[verifier::external_body]
pub(crate) fn table_new() -> (r: toml_edit::Table)
    ensures
        fresh_table(r),
{
    toml_edit::Table::new()
}

/// `Table::set_implicit(true)`: the table is not rendered with a header of
/// its own; what it holds is unchanged.
#[verifier::external_body]
pub(crate) fn table_set_implicit(t: &mut toml_edit::Table)
    ensures
        *final(t) == table_implicit(*old(t)),
        toml_table(*final(t)) == toml_table(*old(t)),
{
    t.set_implicit(true);
}

/// `table[key] = value(text)`: a string under a key of a table.
#[verifier::external_body]
pub(crate) fn table_set_str(t: &mut toml_edit::Table, key: &str, text: &str)
    ensures
        *final(t) == table_assigned(*old(t), key@, TomlNode::Text(text@)),
        toml_table(*final(t)) == with_leaf(toml_table(*old(t)), seq![key@], TomlNode::Text(text@)),
{
    t[key] = toml_edit::value(text);
}

/// `table[key] = value(flag)`: a boolean under a key of a table.
#[verifier::external_body]
pub(crate) fn table_set_bool(t: &mut toml_edit::Table, key: &str, flag: bool)
    ensures
        *final(t) == table_assigned(*old(t), key@, TomlNode::Bool(flag)),
        toml_table(*final(t)) == with_leaf(toml_table(*old(t)), seq![key@], TomlNode::Bool(flag)),
{
    t[key] = toml_edit::value(flag);
}

/// `table[key] = Item::Table(child)`: a table under a key of a table.
#[verifier::external_body]
pub(crate) fn table_set_table(t: &mut toml_edit::Table, key: &str, child: toml_edit::Table)
    ensures
        *final(t) == table_nested(*old(t), key@, child),
        toml_table(*final(t)) == with_table(toml_table(*old(t)), seq![key@], toml_table(child)),
{
    t[key] = toml_edit::Item::Table(child);
}

} // verus!
