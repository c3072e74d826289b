//! Codex's `config.toml`, edited in place with `toml_edit` so that comments,
//! formatting and unrelated sections survive.
//!
//! A document is viewed as a map from key paths to entries: `[k]` for a
//! top-level key, `[model_providers, id]` for a provider and
//! `[model_providers, id, k]` for a key of a provider.  A path lies below
//! another only through standard tables; what an inline table or an array
//! holds is not part of the map.  Every operation that the launcher performs
//! on a document is one of the functions below, and each states its effect
//! on that map.
use vstd::prelude::*;

use toml_edit::{DocumentMut, Item, Table};

verus! {

#[verifier::external_type_specification]
#[verifier::external_body]
pub struct ExDocumentMut(DocumentMut);

/// What a key path leads to.
pub enum TomlEntry {
    Str(Seq<char>),
    Bool(bool),
    Table,
    /// Any other value: a number, a date, an array, an inline table.
    Other,
}

/// The entries of a document, by key path (see the module documentation).
pub uninterp spec fn toml_items(doc: DocumentMut) -> Map<Seq<Seq<char>>, TomlEntry>;

/// The entries that parsing `text` gives, or `None` when `text` is not TOML.
pub uninterp spec fn parsed_toml(text: Seq<char>) -> Option<Map<Seq<Seq<char>>, TomlEntry>>;

pub open spec fn providers_key() -> Seq<char> {
    "model_providers"@
}

pub open spec fn root_path(k: Seq<char>) -> Seq<Seq<char>> {
    seq![k]
}

pub open spec fn provider_path(id: Seq<char>) -> Seq<Seq<char>> {
    seq![providers_key(), id]
}

pub open spec fn provider_key_path(id: Seq<char>, k: Seq<char>) -> Seq<Seq<char>> {
    seq![providers_key(), id, k]
}

/// Whether `q` is `p` or lies below it.
pub open spec fn at_or_below(p: Seq<Seq<char>>, q: Seq<Seq<char>>) -> bool {
    p.len() <= q.len() && q.subrange(0, p.len() as int) == p
}

/// Paths that differ at the first key lie apart.
pub proof fn lemma_apart_at_first_key(p: Seq<Seq<char>>, q: Seq<Seq<char>>)
    requires
        p.len() > 0,
        q.len() > 0,
        p[0] != q[0],
    ensures
        !at_or_below(p, q),
        !at_or_below(q, p),
{
    if at_or_below(p, q) {
        assert(q.subrange(0, p.len() as int)[0] == p[0]);
    }
    if at_or_below(q, p) {
        assert(p.subrange(0, q.len() as int)[0] == q[0]);
    }
}

/// `m` without `p` and everything below it.
pub open spec fn without(m: Map<Seq<Seq<char>>, TomlEntry>, p: Seq<Seq<char>>) -> Map<
    Seq<Seq<char>>,
    TomlEntry,
> {
    Map::new(|q: Seq<Seq<char>>| m.dom().contains(q) && !at_or_below(p, q), |q: Seq<Seq<char>>| m[q])
}

/// `m` with `p` set to `e`, and nothing below `p`.
pub open spec fn with_entry(m: Map<Seq<Seq<char>>, TomlEntry>, p: Seq<Seq<char>>, e: TomlEntry) -> Map<
    Seq<Seq<char>>,
    TomlEntry,
> {
    without(m, p).insert(p, e)
}

pub open spec fn is_table_at(m: Map<Seq<Seq<char>>, TomlEntry>, p: Seq<Seq<char>>) -> bool {
    m.dom().contains(p) && m[p] is Table
}

/// Whether `p` is free or a standard table.
pub open spec fn absent_or_table(m: Map<Seq<Seq<char>>, TomlEntry>, p: Seq<Seq<char>>) -> bool {
    !m.dom().contains(p) || m[p] is Table
}

/// The string at the top-level key `k`.
pub open spec fn root_str_spec(m: Map<Seq<Seq<char>>, TomlEntry>, k: Seq<char>) -> Option<Seq<char>> {
    if m.dom().contains(root_path(k)) && m[root_path(k)] is Str {
        Some(m[root_path(k)]->Str_0)
    } else {
        None
    }
}

/// Whether the `model_providers` table and the table of provider `id` are
/// there.
pub open spec fn provider_table(m: Map<Seq<Seq<char>>, TomlEntry>, id: Seq<char>) -> bool {
    is_table_at(m, root_path(providers_key())) && is_table_at(m, provider_path(id))
}

/// The entry at key `k` of provider `id`, when the provider is a table.
pub open spec fn provider_entry(m: Map<Seq<Seq<char>>, TomlEntry>, id: Seq<char>, k: Seq<char>) -> Option<
    TomlEntry,
> {
    if provider_table(m, id) && m.dom().contains(provider_key_path(id, k)) {
        Some(m[provider_key_path(id, k)])
    } else {
        None
    }
}

/// The ids of the providers in the `model_providers` table.
pub open spec fn provider_ids_spec(m: Map<Seq<Seq<char>>, TomlEntry>) -> Set<Seq<char>> {
    if is_table_at(m, root_path(providers_key())) {
        Set::new(|id: Seq<char>| m.dom().contains(provider_path(id)))
    } else {
        Set::empty()
    }
}

pub open spec fn no_items() -> Map<Seq<Seq<char>>, TomlEntry> {
    Map::empty()
}

/// `m` with the `model_providers` table and the table of provider `id`
/// added, empty, where they are missing.
pub open spec fn ensure_provider_spec(m: Map<Seq<Seq<char>>, TomlEntry>, id: Seq<char>) -> Map<
    Seq<Seq<char>>,
    TomlEntry,
> {
    let m1 = if m.dom().contains(root_path(providers_key())) {
        m
    } else {
        with_entry(m, root_path(providers_key()), TomlEntry::Table)
    };
    if m1.dom().contains(provider_path(id)) {
        m1
    } else {
        with_entry(m1, provider_path(id), TomlEntry::Table)
    }
}

/// After `ensure_provider_spec` the provider is a table.
pub proof fn lemma_ensure_provider(m: Map<Seq<Seq<char>>, TomlEntry>, id: Seq<char>)
    requires
        absent_or_table(m, root_path(providers_key())),
        is_table_at(m, root_path(providers_key())) ==> absent_or_table(m, provider_path(id)),
    ensures
        provider_table(ensure_provider_spec(m, id), id),
{
    let mp = root_path(providers_key());
    let pp = provider_path(id);
    assert(!at_or_below(pp, mp));
    let m1 = if m.dom().contains(mp) {
        m
    } else {
        with_entry(m, mp, TomlEntry::Table)
    };
    assert(is_table_at(m1, mp));
    if !m.dom().contains(mp) {
        assert(at_or_below(mp, pp)) by {
            assert(pp.subrange(0, 1) =~= mp);
        }
        assert(!m1.dom().contains(pp));
    }
    assert(absent_or_table(m1, pp));
}

/// Calls `DocumentMut::new`: an empty document.
#[verifier::external_body]
pub(crate) fn toml_new() -> (doc: DocumentMut)
    ensures
        toml_items(doc) == no_items(),
{
    DocumentMut::new()
}

/// Calls `str::parse::<DocumentMut>`.  The entries of the document are
/// `parsed_toml(text)`, a function of the text alone; a parse error comes
/// back as its message.
#[verifier::external_body]
pub(crate) fn toml_parse(text: &str) -> (r: Result<DocumentMut, String>)
    ensures
        match r {
            Ok(d) => parsed_toml(text@) == Some(toml_items(d)),
            Err(_) => parsed_toml(text@) is None,
        },
{
    text.parse::<DocumentMut>().map_err(|e| e.to_string())
}

/// Calls `DocumentMut::to_string` (its `Display`).  Nothing is stated of the
/// text: the documentation of `toml_edit` does not say what reading it back
/// gives for a document that was edited.
#[verifier::external_body]
pub(crate) fn toml_to_text(doc: &DocumentMut) -> (r: String) {
    doc.to_string()
}

/// Reads the top-level key `k` with `Table::get` and `Item::as_str`.
#[verifier::external_body]
pub(crate) fn toml_root_str(doc: &DocumentMut, k: &str) -> (r: Option<String>)
    ensures
        match r {
            Some(s) => root_str_spec(toml_items(*doc), k@) == Some(s@),
            None => root_str_spec(toml_items(*doc), k@) is None,
        },
{
    doc.as_table().get(k).and_then(|item| item.as_str()).map(|s| s.to_string())
}

/// Removes the top-level key `k` with `Table::remove`.
#[verifier::external_body]
pub(crate) fn toml_root_remove(doc: &mut DocumentMut, k: &str)
    ensures
        toml_items(*final(doc)) == without(toml_items(*old(doc)), root_path(k@)),
{
    doc.as_table_mut().remove(k);
}

/// Sets the top-level key `k` to the string `v` (`doc[k] = value(v)`).
#[verifier::external_body]
pub(crate) fn toml_root_set_str(doc: &mut DocumentMut, k: &str, v: &str)
    ensures
        toml_items(*final(doc)) == with_entry(toml_items(*old(doc)), root_path(k@), TomlEntry::Str(v@)),
{
    doc[k] = toml_edit::value(v);
}

/// The keys of the `model_providers` table (`Table::iter`), none when it is
/// not a table; each key once.
#[verifier::external_body]
pub(crate) fn toml_provider_ids(doc: &DocumentMut) -> (r: Vec<String>)
    ensures
        forall|i: int| 0 <= i < r.len() ==> #[trigger] provider_ids_spec(toml_items(*doc)).contains(r@[i]@),
        forall|id: Seq<char>| #[trigger] provider_ids_spec(toml_items(*doc)).contains(id) ==> exists|i: int| 0 <= i < r.len() && r@[i]@ == id,
        forall|i: int, j: int| 0 <= i < j < r.len() ==> r@[i]@ != r@[j]@,
{
    match doc.get("model_providers").and_then(|item| item.as_table()) {
        Some(t) => t.iter().map(|(k, _)| k.to_string()).collect(),
        None => Vec::new(),
    }
}

/// Reads key `k` of provider `id` as a string.
#[verifier::external_body]
pub(crate) fn toml_provider_str(doc: &DocumentMut, id: &str, k: &str) -> (r: Option<String>)
    ensures
        match r {
            Some(s) => provider_entry(toml_items(*doc), id@, k@) == Some(TomlEntry::Str(s@)),
            None => !(provider_entry(toml_items(*doc), id@, k@) matches Some(TomlEntry::Str(_))),
        },
{
    let providers = doc.get("model_providers").and_then(|item| item.as_table());
    let provider = providers.and_then(|t| t.get(id)).and_then(|item| item.as_table());
    provider.and_then(|t| t.get(k)).and_then(|item| item.as_str()).map(|s| s.to_string())
}

/// Reads key `k` of provider `id` as a boolean.
#[verifier::external_body]
pub(crate) fn toml_provider_bool(doc: &DocumentMut, id: &str, k: &str) -> (r: Option<bool>)
    ensures
        match r {
            Some(b) => provider_entry(toml_items(*doc), id@, k@) == Some(TomlEntry::Bool(b)),
            None => !(provider_entry(toml_items(*doc), id@, k@) matches Some(TomlEntry::Bool(_))),
        },
{
    let providers = doc.get("model_providers").and_then(|item| item.as_table());
    let provider = providers.and_then(|t| t.get(id)).and_then(|item| item.as_table());
    provider.and_then(|t| t.get(k)).and_then(|item| item.as_bool())
}

/// Whether provider `id` is a table that has key `k` (`Table::contains_key`).
#[verifier::external_body]
pub(crate) fn toml_provider_has(doc: &DocumentMut, id: &str, k: &str) -> (r: bool)
    ensures
        r == (provider_entry(toml_items(*doc), id@, k@) is Some),
{
    let providers = doc.get("model_providers").and_then(|item| item.as_table());
    let provider = providers.and_then(|t| t.get(id)).and_then(|item| item.as_table());
    provider.map(|t| t.contains_key(k)).unwrap_or(false)
}

/// Whether provider `id` is there as a standard table.
#[verifier::external_body]
pub(crate) fn toml_provider_is_table(doc: &DocumentMut, id: &str) -> (r: bool)
    ensures
        r == provider_table(toml_items(*doc), id@),
{
    let providers = doc.get("model_providers").and_then(|item| item.as_table());
    providers.and_then(|t| t.get(id)).map(|item| item.is_table()).unwrap_or(false)
}

/// Whether the top-level key `k` is there (`Table::contains_key`).
#[verifier::external_body]
pub(crate) fn toml_root_has(doc: &DocumentMut, k: &str) -> (r: bool)
    ensures
        r == toml_items(*doc).dom().contains(root_path(k@)),
{
    doc.as_table().contains_key(k)
}

/// Whether the top-level key `k` is a standard table (`Table::contains_table`).
#[verifier::external_body]
pub(crate) fn toml_root_is_table(doc: &DocumentMut, k: &str) -> (r: bool)
    ensures
        r == is_table_at(toml_items(*doc), root_path(k@)),
{
    doc.as_table().contains_table(k)
}

/// Whether the `model_providers` table holds provider `id`
/// (`Table::contains_key`).
#[verifier::external_body]
pub(crate) fn toml_providers_has(doc: &DocumentMut, id: &str) -> (r: bool)
    ensures
        r == provider_ids_spec(toml_items(*doc)).contains(id@),
{
    let providers = doc.get("model_providers").and_then(|item| item.as_table());
    providers.map(|t| t.contains_key(id)).unwrap_or(false)
}

/// Makes sure that `model_providers` and provider `id` are tables
/// (`Item::or_insert` with a new `Table`, each).
#[verifier::external_body]
pub(crate) fn toml_ensure_provider(doc: &mut DocumentMut, id: &str)
    requires
        absent_or_table(toml_items(*old(doc)), root_path(providers_key())),
        is_table_at(toml_items(*old(doc)), root_path(providers_key())) ==> absent_or_table(
            toml_items(*old(doc)),
            provider_path(id@),
        ),
    ensures
        toml_items(*final(doc)) == ensure_provider_spec(toml_items(*old(doc)), id@),
{
    let providers = doc["model_providers"].or_insert(Item::Table(Table::new()));
    providers[id].or_insert(Item::Table(Table::new()));
}

/// Sets key `k` of provider `id` to the string `v`.
#[verifier::external_body]
pub(crate) fn toml_provider_set_str(doc: &mut DocumentMut, id: &str, k: &str, v: &str)
    requires
        provider_table(toml_items(*old(doc)), id@),
    ensures
        toml_items(*final(doc)) == with_entry(
            toml_items(*old(doc)),
            provider_key_path(id@, k@),
            TomlEntry::Str(v@),
        ),
{
    doc["model_providers"][id][k] = toml_edit::value(v);
}

/// Sets key `k` of provider `id` to the boolean `v`.
#[verifier::external_body]
pub(crate) fn toml_provider_set_bool(doc: &mut DocumentMut, id: &str, k: &str, v: bool)
    requires
        provider_table(toml_items(*old(doc)), id@),
    ensures
        toml_items(*final(doc)) == with_entry(
            toml_items(*old(doc)),
            provider_key_path(id@, k@),
            TomlEntry::Bool(v),
        ),
{
    doc["model_providers"][id][k] = toml_edit::value(v);
}

/// Removes key `k` of provider `id` (`Table::remove`).
#[verifier::external_body]
pub(crate) fn toml_provider_remove_key(doc: &mut DocumentMut, id: &str, k: &str)
    requires
        provider_table(toml_items(*old(doc)), id@),
    ensures
        toml_items(*final(doc)) == without(toml_items(*old(doc)), provider_key_path(id@, k@)),
{
    if let Some(t) = doc["model_providers"][id].as_table_mut() {
        t.remove(k);
    }
}

/// Removes provider `id` from the `model_providers` table, when that is a
/// table (`Table::remove`).
#[verifier::external_body]
pub(crate) fn toml_providers_remove(doc: &mut DocumentMut, id: &str)
    ensures
        toml_items(*final(doc)) == if is_table_at(toml_items(*old(doc)), root_path(providers_key())) {
            without(toml_items(*old(doc)), provider_path(id@))
        } else {
            toml_items(*old(doc))
        },
{
    if let Some(t) = doc["model_providers"].as_table_mut() {
        t.remove(id);
    }
}

/// Whether `model_providers` is a table with no provider in it
/// (`Table::is_empty`); `None` when it is not a table.
#[verifier::external_body]
pub(crate) fn toml_providers_empty(doc: &DocumentMut) -> (r: Option<bool>)
    ensures
        match r {
            Some(e) => is_table_at(toml_items(*doc), root_path(providers_key())) && e == provider_ids_spec(toml_items(*doc)).is_empty(),
            None => !is_table_at(toml_items(*doc), root_path(providers_key())),
        },
{
    doc.get("model_providers").and_then(|item| item.as_table()).map(|t| t.is_empty())
}

} // verus!
