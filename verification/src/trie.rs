//! The prefix tree: `trie_rs` behind contracts.
//!
//! Verus does not read `trie_rs`. Each function here makes one call into it and
//! carries a contract that is taken on trust; the contracts are stated over the
//! map from label paths to values that a trie stands for.
use trie_rs::inc_search::{Answer, IncSearch, Position};
use trie_rs::map::{Trie, TrieBuilder};
use vstd::prelude::*;

verus! {

/// `trie_rs::map::Trie`, a built trie: opaque here.
#[verifier::external_type_specification]
#[verifier::external_body]
#[verifier::reject_recursive_types(Label)]
#[verifier::reject_recursive_types(Value)]
pub struct ExTrie<Label, Value>(Trie<Label, Value>);

/// `trie_rs::map::TrieBuilder`, a trie in the making: opaque here.
#[verifier::external_type_specification]
#[verifier::external_body]
#[verifier::reject_recursive_types(Label)]
#[verifier::reject_recursive_types(Value)]
pub struct ExTrieBuilder<Label, Value>(TrieBuilder<Label, Value>);

/// `trie_rs::inc_search::IncSearch`, a search that walks a trie it borrows:
/// opaque here.
#[verifier::external_type_specification]
#[verifier::external_body]
#[verifier::reject_recursive_types(Label)]
#[verifier::reject_recursive_types(Value)]
pub struct ExIncSearch<'a, Label, Value>(IncSearch<'a, Label, Value>);

/// `trie_rs::inc_search::Answer`, with its three variants: what a node is to
/// the query that reached it.
#[verifier::external_type_specification]
pub struct ExAnswer(Answer);

/// The entries pushed into a builder so far.
pub uninterp spec fn builder_entries(builder: TrieBuilder<u64, usize>) -> Map<Seq<u64>, usize>;

/// The entries of a built trie.
pub uninterp spec fn trie_entries(trie: Trie<u64, usize>) -> Map<Seq<u64>, usize>;

/// The entries of the trie that a search walks.
pub uninterp spec fn search_entries(search: IncSearch<u64, usize>) -> Map<Seq<u64>, usize>;

/// The labels from the root to the node a search stands on.
pub uninterp spec fn search_prefix(search: IncSearch<u64, usize>) -> Seq<u64>;

/// The labels from the root to the node numbered `node` in the trie that holds
/// exactly the keys `keys`, or `None` where that trie has no such node.
pub uninterp spec fn node_prefix(keys: Set<Seq<u64>>, node: u64) -> Option<Seq<u64>>;

/// Some key of `entries` strictly extends `path`.
pub open spec fn extends(entries: Map<Seq<u64>, usize>, path: Seq<u64>) -> bool {
    exists|key: Seq<u64>| #[trigger]
        entries.contains_key(key) && path.is_prefix_of(key) && path.len() < key.len()
}

/// What a trie with these entries answers for the node reached by `path`:
/// nothing where no key starts with `path`.
pub open spec fn answer(entries: Map<Seq<u64>, usize>, path: Seq<u64>) -> Option<Answer> {
    if extends(entries, path) {
        if entries.contains_key(path) {
            Some(Answer::PrefixAndMatch)
        } else {
            Some(Answer::Prefix)
        }
    } else {
        if entries.contains_key(path) {
            Some(Answer::Match)
        } else {
            None
        }
    }
}

/// `TrieBuilder::new`: a builder without entries.
#[verifier::external_body]
pub(crate) fn builder_new() -> (builder: TrieBuilder<u64, usize>)
    ensures
        builder_entries(builder) == (Map::<Seq<u64>, usize>::empty()),
{
    TrieBuilder::new()
}

/// `TrieBuilder::insert`: adds the entry, replacing the value of an equal key.
/// It panics on an empty key, which `requires` leaves out.
#[verifier::external_body]
pub(crate) fn builder_insert(builder: &mut TrieBuilder<u64, usize>, key: Vec<u64>, value: usize)
    requires
        key@.len() > 0,
    ensures
        builder_entries(*final(builder)) == builder_entries(*old(builder)).insert(key@, value),
{
    builder.insert(key, value)
}

/// `TrieBuilder::build`: the trie holds the builder's entries.
#[verifier::external_body]
pub(crate) fn builder_build(builder: TrieBuilder<u64, usize>) -> (trie: Trie<u64, usize>)
    ensures
        trie_entries(trie) == builder_entries(builder),
{
    builder.build()
}

/// `Trie::inc_search`: a search that stands on the root.
#[verifier::external_body]
pub(crate) fn search_new<'a>(trie: &'a Trie<u64, usize>) -> (search: IncSearch<'a, u64, usize>)
    ensures
        search_entries(search) == trie_entries(*trie),
        search_prefix(search) == Seq::<u64>::empty(),
{
    trie.inc_search()
}

/// `IncSearch::resume`: a search that stands on the node numbered `node`.
/// A later query on a number that the trie lacks panics, so `requires` asks
/// for a node of this trie.
#[verifier::external_body]
pub(crate) fn search_resume<'a>(trie: &'a Trie<u64, usize>, node: u64) -> (search: IncSearch<
    'a,
    u64,
    usize,
>)
    requires
        node_prefix(trie_entries(*trie).dom(), node) is Some,
    ensures
        search_entries(search) == trie_entries(*trie),
        Some(search_prefix(search)) == node_prefix(trie_entries(*trie).dom(), node),
{
    IncSearch::resume(trie, Position { 0: node })
}

/// `Position::from`: the number of the node the search stands on.
#[verifier::external_body]
pub(crate) fn search_position(search: IncSearch<u64, usize>) -> (node: u64)
    ensures
        node_prefix(search_entries(search).dom(), node) == Some(search_prefix(search)),
{
    Position::from(search).0
}

/// `IncSearch::query`: steps to the child labelled `label` where there is one
/// and says what that node is; stays and answers nothing where there is none.
#[verifier::external_body]
pub(crate) fn search_query(search: &mut IncSearch<u64, usize>, label: u64) -> (found: Option<
    Answer,
>)
    ensures
        search_entries(*final(search)) == search_entries(*old(search)),
        found == answer(search_entries(*old(search)), search_prefix(*old(search)).push(label)),
        search_prefix(*final(search)) == if found is Some {
            search_prefix(*old(search)).push(label)
        } else {
            search_prefix(*old(search))
        },
{
    search.query(&label)
}

/// `IncSearch::value`: the value of the key that ends on this node, if one does.
#[verifier::external_body]
pub(crate) fn search_value(search: &IncSearch<u64, usize>) -> (value: Option<usize>)
    ensures
        value == if search_entries(*search).contains_key(search_prefix(*search)) {
            Some(search_entries(*search)[search_prefix(*search)])
        } else {
            None
        },
{
    search.value().copied()
}

/// `IncSearch::prefix_len`: how many labels lead to this node.
#[verifier::external_body]
pub(crate) fn search_prefix_len(search: &IncSearch<u64, usize>) -> (len: usize)
    ensures
        len == search_prefix(*search).len(),
{
    search.prefix_len()
}

/// `IncSearch::reset`: back to the root.
#[verifier::external_body]
pub(crate) fn search_reset(search: &mut IncSearch<u64, usize>)
    ensures
        search_entries(*final(search)) == search_entries(*old(search)),
        search_prefix(*final(search)) == Seq::<u64>::empty(),
{
    search.reset()
}

} // verus!
