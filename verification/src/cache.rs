//! The cache: the trie over the registered sequences, and where each context's
//! search stands in it.
use crate::act::{codes, Act};
use crate::input_sequence::{views, InputSequence, InputSequenceView};
use crate::model::{entries_of, path};
use crate::trie::{
    builder_build, builder_insert, builder_new, node_prefix, search_entries, search_new,
    search_prefix, search_resume, trie_entries,
};
use std::collections::HashMap;
use trie_rs::inc_search::IncSearch;
use trie_rs::map::Trie;
use vstd::prelude::*;

pub mod button;
pub mod key;

verus! {

/// The trie for a set of input sequences, built when first asked for, with the
/// sequences it was built from and the position of the search of each context.
pub struct InputSequenceCache {
    trie: Option<Trie<u64, usize>>,
    sequences: Vec<InputSequence>,
    position: HashMap<u64, u64>,
}

/// The codes of the acts, one for one.
pub fn act_codes(acts: &Vec<Act>) -> (labels: Vec<u64>)
    ensures
        labels@ == codes(acts@),
{
    let mut labels: Vec<u64> = Vec::new();
    let mut i: usize = 0;
    while i < acts.len()
        invariant
            i <= acts@.len(),
            labels@ == codes(acts@.take(i as int)),
        decreases acts@.len() - i,
    {
        labels.push(acts[i].to_code());
        assert(labels@ =~= codes(acts@.take(i + 1)));
        i += 1;
    }
    assert(acts@.take(i as int) == acts@);
    labels
}

/// A trie over the paths of the sequences, each with the place of the last
/// sequence that has it, and a copy of the sequences.
fn build(sequences: &Vec<InputSequence>) -> (built: (Trie<u64, usize>, Vec<InputSequence>))
    ensures
        trie_entries(built.0) == entries_of(views(sequences@)),
        views(built.1@) == views(sequences@),
{
    let mut builder = builder_new();
    let mut copies: Vec<InputSequence> = Vec::new();
    let ghost records = views(sequences@);
    let mut i: usize = 0;
    while i < sequences.len()
        invariant
            i <= sequences@.len(),
            records == views(sequences@),
            crate::trie::builder_entries(builder) == entries_of(records.take(i as int)),
            views(copies@) == records.take(i as int),
        decreases sequences@.len() - i,
    {
        let sequence = &sequences[i];
        let labels = act_codes(sequence.acts());
        assert(records.take(i + 1).drop_last() == records.take(i as int));
        assert(records.take(i + 1).last() == sequence@);
        builder_insert(&mut builder, labels, i);
        copies.push(sequence.clone());
        assert(views(copies@) =~= records.take(i + 1));
        i += 1;
    }
    assert(records.take(i as int) == records);
    (builder_build(builder), copies)
}

impl InputSequenceCache {
    #[verifier::type_invariant]
    spec fn sound(&self) -> bool {
        match self.trie {
            None => self.sequences@.len() == 0 && self.position@.dom() == Set::<u64>::empty(),
            Some(trie) => {
                &&& trie_entries(trie) == entries_of(views(self.sequences@))
                &&& forall|key: u64| #[trigger]
                    self.position@.contains_key(key) ==> node_prefix(
                        trie_entries(trie).dom(),
                        self.position@[key],
                    ) is Some
            },
        }
    }

    /// The trie stands.
    pub closed spec fn is_built(&self) -> bool {
        self.trie is Some
    }

    /// The sequences the trie was built from; none while it does not stand.
    pub closed spec fn records(&self) -> Seq<InputSequenceView> {
        views(self.sequences@)
    }

    /// The inputs that still count for the context `key`: the path from the
    /// root to the position stored for it, the empty path where none is.
    pub closed spec fn cursor(&self, key: u64) -> Seq<u64> {
        if self.trie is Some && self.position@.contains_key(key) {
            node_prefix(trie_entries(self.trie->0).dom(), self.position@[key])->0
        } else {
            Seq::empty()
        }
    }

    /// The index over the sequences the trie was built from.
    pub open spec fn entries(&self) -> Map<Seq<u64>, usize> {
        entries_of(self.records())
    }

    /// `position` is one of the trie that stands.
    pub open spec fn accepts(&self, position: u64) -> bool {
        self.is_built() && node_prefix(self.entries().dom(), position) is Some
    }

    /// The path from the root to `position`.
    pub open spec fn lands(&self, position: u64) -> Seq<u64> {
        node_prefix(self.entries().dom(), position)->0
    }

    /// A cache without a trie and without positions.
    pub fn new() -> (cache: InputSequenceCache)
        ensures
            !cache.is_built(),
            cache.records() == Seq::<InputSequenceView>::empty(),
            forall|key: u64| cache.cursor(key) == Seq::<u64>::empty(),
    {
        InputSequenceCache { trie: None, sequences: Vec::new(), position: HashMap::new() }
    }

    fn prepare(&mut self, sequences: &Vec<InputSequence>)
        ensures
            final(self).trie is Some,
            final(self).position@ == old(self).position@,
            old(self).trie is Some ==> final(self).trie == old(self).trie,
            old(self).trie is Some ==> final(self).sequences@ == old(self).sequences@,
            old(self).trie is None ==> views(final(self).sequences@) == views(sequences@),
    {
        proof {
            use_type_invariant(&*self);
        }
        if self.trie.is_none() {
            let built = build(sequences);
            let ghost before = self.position@;
            assert(before =~= Map::<u64, u64>::empty());
            *self = InputSequenceCache {
                trie: Some(built.0),
                sequences: built.1,
                position: HashMap::new(),
            };
        }
    }

    /// The trie: the one that stands, or, where none does, one built from
    /// `sequences`, which then stands until the next `reset`.
    pub fn trie(&mut self, sequences: &Vec<InputSequence>) -> (trie: &Trie<u64, usize>)
        ensures
            final(self).is_built(),
            final(self).records() == if old(self).is_built() {
                old(self).records()
            } else {
                views(sequences@)
            },
            forall|key: u64| final(self).cursor(key) == old(self).cursor(key),
            trie_entries(*trie) == final(self).entries(),
    {
        proof {
            use_type_invariant(&*self);
        }
        self.prepare(sequences);
        proof {
            use_type_invariant(&*self);
        }
        self.trie.as_ref().unwrap()
    }

    /// The sequences the trie was built from.
    pub fn sequences(&self) -> (sequences: &Vec<InputSequence>)
        ensures
            views(sequences@) == self.records(),
    {
        &self.sequences
    }

    /// Stores the position of the search of the context `key`.
    pub fn store(&mut self, key: u64, position: u64)
        requires
            old(self).accepts(position),
        ensures
            final(self).is_built(),
            final(self).records() == old(self).records(),
            final(self).cursor(key) == old(self).lands(position),
            forall|other: u64| other != key ==> final(self).cursor(other) == old(self).cursor(other),
    {
        proof {
            use_type_invariant(&*self);
        }
        let mut positions: HashMap<u64, u64> = HashMap::new();
        std::mem::swap(&mut self.position, &mut positions);
        positions.insert(key, position);
        std::mem::swap(&mut self.position, &mut positions);
    }

    /// The search of the context `key`, resumed where it was stored, or at the
    /// root where nothing was. Builds the trie first where none stands.
    pub fn recall<'a>(&'a mut self, key: u64, sequences: &Vec<InputSequence>) -> (search: IncSearch<
        'a,
        u64,
        usize,
    >)
        ensures
            final(self).is_built(),
            final(self).records() == if old(self).is_built() {
                old(self).records()
            } else {
                views(sequences@)
            },
            forall|key: u64| final(self).cursor(key) == old(self).cursor(key),
            search_entries(search) == final(self).entries(),
            search_prefix(search) == old(self).cursor(key),
    {
        proof {
            use_type_invariant(&*self);
        }
        let position = match self.position.get(&key) {
            Some(node) => Some(*node),
            None => None,
        };
        self.prepare(sequences);
        proof {
            use_type_invariant(&*self);
        }
        let trie = self.trie.as_ref().unwrap();
        match position {
            Some(node) => search_resume(trie, node),
            None => search_new(trie),
        }
    }

    /// Forgets the trie and every position: the next `recall` builds the trie
    /// anew and starts at the root.
    pub fn reset(&mut self)
        ensures
            !final(self).is_built(),
            final(self).records() == Seq::<InputSequenceView>::empty(),
            forall|key: u64| final(self).cursor(key) == Seq::<u64>::empty(),
    {
        *self = InputSequenceCache::new();
    }
}

impl Default for InputSequenceCache {
    fn default() -> (cache: InputSequenceCache)
        ensures
            !cache.is_built(),
            cache.records() == Seq::<InputSequenceView>::empty(),
            forall|key: u64| cache.cursor(key) == Seq::<u64>::empty(),
    {
        InputSequenceCache::new()
    }
}

} // verus!
