//! The cache for button sequences: one context for each controller.
use crate::cache::InputSequenceCache;
use crate::input_sequence::{views, InputSequence, InputSequenceView};
use crate::trie::{search_entries, search_prefix, trie_entries};
use trie_rs::inc_search::IncSearch;
use trie_rs::map::Trie;
use vstd::prelude::*;

verus! {

/// The trie for button sequences and, for each controller, the position of its
/// search.
pub struct ButtonSequenceCache(pub InputSequenceCache);

impl ButtonSequenceCache {
    /// The trie: the one that stands, or, where none does, one built from
    /// `sequences`, which then stands until the next `reset`.
    pub fn trie(&mut self, sequences: &Vec<InputSequence>) -> (trie: &Trie<u64, usize>)
        ensures
            final(self).0.is_built(),
            final(self).0.records() == if old(self).0.is_built() {
                old(self).0.records()
            } else {
                views(sequences@)
            },
            forall|key: u64| final(self).0.cursor(key) == old(self).0.cursor(key),
            trie_entries(*trie) == final(self).0.entries(),
    {
        self.0.trie(sequences)
    }

    /// Stores the position of the search of the controller `key`.
    pub fn store(&mut self, key: u64, position: u64)
        requires
            old(self).0.accepts(position),
        ensures
            final(self).0.is_built(),
            final(self).0.records() == old(self).0.records(),
            final(self).0.cursor(key) == old(self).0.lands(position),
            forall|other: u64|
                other != key ==> final(self).0.cursor(other) == old(self).0.cursor(other),
    {
        self.0.store(key, position)
    }

    /// The search of the controller `key`, resumed where it was stored, or at
    /// the root where nothing was. Builds the trie first where none stands.
    pub fn recall<'a>(&'a mut self, key: u64, sequences: &Vec<InputSequence>) -> (search: IncSearch<
        'a,
        u64,
        usize,
    >)
        ensures
            final(self).0.is_built(),
            final(self).0.records() == if old(self).0.is_built() {
                old(self).0.records()
            } else {
                views(sequences@)
            },
            forall|key: u64| final(self).0.cursor(key) == old(self).0.cursor(key),
            search_entries(search) == final(self).0.entries(),
            search_prefix(search) == old(self).0.cursor(key),
    {
        self.0.recall(key, sequences)
    }

    /// Forgets the trie and every position.
    pub fn reset(&mut self)
        ensures
            !final(self).0.is_built(),
            final(self).0.records() == Seq::<InputSequenceView>::empty(),
            forall|key: u64| final(self).0.cursor(key) == Seq::<u64>::empty(),
    {
        self.0.reset()
    }
}

impl Default for ButtonSequenceCache {
    fn default() -> (cache: ButtonSequenceCache)
        ensures
            !cache.0.is_built(),
            cache.0.records() == Seq::<InputSequenceView>::empty(),
            forall|key: u64| cache.0.cursor(key) == Seq::<u64>::empty(),
    {
        ButtonSequenceCache(InputSequenceCache::new())
    }
}

} // verus!
