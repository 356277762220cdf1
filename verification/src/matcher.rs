//! The matcher as one value: the registered sequences, the cache over them,
//! and the time stamps of each context.
use crate::act::{codes, Act};
use crate::cache::InputSequenceCache;
use crate::frame_time::FrameTime;
use crate::input_sequence::{views, InputSequence, InputSequenceView};
use crate::model::step;
use crate::plugin::{match_inputs, queue_of};
use std::collections::HashMap;
use std::collections::VecDeque;
use vstd::prelude::*;

verus! {

/// The registered sequences and the state of every context. A sequence that is
/// registered or taken back marks the cache stale; the next frame then starts
/// every context afresh over the sequences as they stand.
pub struct SequenceMatcher {
    sequences: Vec<InputSequence>,
    ids: Vec<u64>,
    issued: u64,
    changed: bool,
    cache: InputSequenceCache,
    last_times: HashMap<u64, VecDeque<FrameTime>>,
}

impl SequenceMatcher {
    #[verifier::type_invariant]
    spec fn sound(&self) -> bool {
        &&& self.ids@.len() == self.sequences@.len()
        &&& forall|i: int| 0 <= i < self.ids@.len() ==> #[trigger] self.ids@[i] < self.issued
        &&& forall|i: int, j: int|
            0 <= i < j < self.ids@.len() ==> #[trigger] self.ids@[i] != #[trigger] self.ids@[j]
        &&& !self.changed && self.cache.is_built() ==> self.cache.records() == views(
            self.sequences@,
        )
    }

    /// The registered sequences, in the order of their registration.
    pub closed spec fn records(&self) -> Seq<InputSequenceView> {
        views(self.sequences@)
    }

    /// The identifiers of the registered sequences, one for one.
    pub closed spec fn ids(&self) -> Seq<u64> {
        self.ids@
    }

    /// How many identifiers were handed out.
    pub closed spec fn issued(&self) -> u64 {
        self.issued
    }

    /// The inputs that still count for a context; none once the sequences
    /// have changed.
    pub closed spec fn cursor(&self, context: u64) -> Seq<u64> {
        if self.changed {
            Seq::empty()
        } else {
            self.cache.cursor(context)
        }
    }

    /// The time stamps of those inputs.
    pub closed spec fn times(&self, context: u64) -> Seq<FrameTime> {
        if self.changed {
            Seq::empty()
        } else {
            queue_of(self.last_times@, context)
        }
    }

    /// Every context is fresh: at the root, with no stamp kept.
    pub open spec fn is_fresh(&self) -> bool {
        forall|context: u64|
            #![trigger self.cursor(context)]
            #![trigger self.times(context)]
            self.cursor(context) == Seq::<u64>::empty() && self.times(context) == Seq::<
                FrameTime,
            >::empty()
    }

    /// A matcher without sequences.
    pub fn new() -> (matcher: SequenceMatcher)
        ensures
            matcher.records() == Seq::<InputSequenceView>::empty(),
            matcher.ids() == Seq::<u64>::empty(),
            matcher.issued() == 0,
            matcher.is_fresh(),
    {
        let matcher = SequenceMatcher {
            sequences: Vec::new(),
            ids: Vec::new(),
            issued: 0,
            changed: true,
            cache: InputSequenceCache::new(),
            last_times: HashMap::new(),
        };
        assert(views(matcher.sequences@) =~= Seq::<InputSequenceView>::empty());
        matcher
    }

    /// Whether one more sequence can be registered: the identifiers are not
    /// used up.
    pub fn has_room(&self) -> (room: bool)
        ensures
            room == (self.issued() < u64::MAX),
    {
        self.issued < u64::MAX
    }

    /// Registers a sequence and returns its identifier, which no sequence had
    /// before. Every context starts afresh.
    pub fn register(&mut self, sequence: InputSequence) -> (id: u64)
        requires
            old(self).issued() < u64::MAX,
        ensures
            final(self).records() == old(self).records().push(sequence@),
            final(self).ids() == old(self).ids().push(id),
            !old(self).ids().contains(id),
            id == old(self).issued(),
            final(self).issued() == old(self).issued() + 1,
            final(self).is_fresh(),
    {
        proof {
            use_type_invariant(&*self);
        }
        let id = self.issued;
        let mut taken = SequenceMatcher::new();
        std::mem::swap(self, &mut taken);
        let mut sequences = taken.sequences;
        let mut ids = taken.ids;
        sequences.push(sequence);
        ids.push(id);
        assert(views(sequences@) =~= old(self).records().push(sequence@));
        *self = SequenceMatcher {
            sequences,
            ids,
            issued: id + 1,
            changed: true,
            cache: InputSequenceCache::new(),
            last_times: HashMap::new(),
        };
        id
    }

    /// Takes back the sequence with this identifier, if there is one, and says
    /// whether there was. Every context then starts afresh.
    pub fn unregister(&mut self, id: u64) -> (found: bool)
        ensures
            found == old(self).ids().contains(id),
            final(self).issued() == old(self).issued(),
            !found ==> final(self).records() == old(self).records() && final(self).ids() == old(
                self,
            ).ids() && forall|context: u64|
                #![trigger final(self).cursor(context)]
                #![trigger final(self).times(context)]
                final(self).cursor(context) == old(self).cursor(context) && final(self).times(
                    context,
                ) == old(self).times(context),
            found ==> final(self).is_fresh() && final(self).ids() == old(self).ids().remove(
                old(self).ids().index_of(id),
            ) && final(self).records() == old(self).records().remove(
                old(self).ids().index_of(id),
            ),
    {
        proof {
            use_type_invariant(&*self);
        }
        let mut at: usize = 0;
        while at < self.ids.len() && self.ids[at] != id
            invariant
                at <= self.ids@.len(),
                *self == *old(self),
                forall|k: int| 0 <= k < at ==> self.ids@[k] != id,
            decreases self.ids@.len() - at,
        {
            at += 1;
        }
        if at == self.ids.len() {
            return false;
        }
        proof {
            let found_at = old(self).ids().index_of(id);
            assert(old(self).ids()[at as int] == id);
            assert(old(self).ids().contains(id));
            assert(found_at == at) by {
                if found_at != at {
                    assert(old(self).ids()[found_at] == id);
                }
            }
        }
        let mut taken = SequenceMatcher::new();
        std::mem::swap(self, &mut taken);
        let mut sequences = taken.sequences;
        let mut ids = taken.ids;
        let issued = taken.issued;
        let _ = sequences.remove(at);
        let _ = ids.remove(at);
        assert(views(sequences@) =~= old(self).records().remove(at as int));
        *self = SequenceMatcher {
            sequences,
            ids,
            issued,
            changed: true,
            cache: InputSequenceCache::new(),
            last_times: HashMap::new(),
        };
        true
    }

    /// One frame of one context: feeds it the acts of the frame and returns
    /// the systems to run, in order. Where the sequences have changed since the
    /// last frame, the trie is built anew first.
    pub fn step(&mut self, context: u64, now: FrameTime, input: &Vec<Act>) -> (systems: Vec<u64>)
        ensures
            final(self).records() == old(self).records(),
            final(self).ids() == old(self).ids(),
            final(self).issued() == old(self).issued(),
            forall|other: u64|
                #![trigger final(self).cursor(other)]
                #![trigger final(self).times(other)]
                other != context ==> final(self).cursor(other) == old(self).cursor(other)
                    && final(self).times(other) == old(self).times(other),
            final(self).cursor(context) == step(
                old(self).records(),
                old(self).cursor(context),
                old(self).times(context),
                now,
                codes(input@),
            ).prefix,
            final(self).times(context) == step(
                old(self).records(),
                old(self).cursor(context),
                old(self).times(context),
                now,
                codes(input@),
            ).times,
            systems@ == step(
                old(self).records(),
                old(self).cursor(context),
                old(self).times(context),
                now,
                codes(input@),
            ).fired,
    {
        proof {
            use_type_invariant(&*self);
        }
        let mut taken = SequenceMatcher::new();
        std::mem::swap(self, &mut taken);
        let sequences = taken.sequences;
        let ids = taken.ids;
        let issued = taken.issued;
        let mut cache = taken.cache;
        let mut last_times = taken.last_times;
        if taken.changed {
            cache.reset();
            last_times.clear();
        }
        let ghost held = last_times@;
        let mut queue = match last_times.remove(&context) {
            Some(queue) => queue,
            None => VecDeque::new(),
        };
        let systems = match_inputs(&mut cache, context, &sequences, now, input, &mut queue);
        last_times.insert(context, queue);
        *self = SequenceMatcher { sequences, ids, issued, changed: false, cache, last_times };
        assert forall|other: u64| other != context implies #[trigger] final(self).times(other)
            == old(self).times(other) by {
            assert(queue_of(final(self).last_times@, other) == queue_of(held, other));
        }
        systems
    }
}

impl Default for SequenceMatcher {
    fn default() -> (matcher: SequenceMatcher)
        ensures
            matcher.records() == Seq::<InputSequenceView>::empty(),
            matcher.ids() == Seq::<u64>::empty(),
            matcher.is_fresh(),
    {
        SequenceMatcher::new()
    }
}

} // verus!
