//! Input sequences: what is registered to be matched.
use crate::act::Act;
use crate::time_limit::TimeLimit;
use vstd::prelude::*;

verus! {

/// An input sequence: a series of acts, never empty, that runs a system when
/// the inputs match it within the time limit.
#[derive(Debug)]
pub struct InputSequence {
    system_id: u64,
    acts: Vec<Act>,
    time_limit: Option<TimeLimit>,
}

/// What an input sequence holds.
pub struct InputSequenceView {
    /// The system to run on a match.
    pub system_id: u64,
    /// The acts to match, in order.
    pub acts: Seq<Act>,
    /// The time allowed from the first act to the last.
    pub time_limit: Option<TimeLimit>,
}

impl View for InputSequence {
    type V = InputSequenceView;

    closed spec fn view(&self) -> InputSequenceView {
        InputSequenceView {
            system_id: self.system_id,
            acts: self.acts@,
            time_limit: self.time_limit,
        }
    }
}

/// What the sequences of a list hold, one for one.
pub open spec fn views(sequences: Seq<InputSequence>) -> Seq<InputSequenceView> {
    Seq::new(sequences.len(), |i: int| sequences[i]@)
}

/// A sequence without acts was asked for.
#[derive(Clone, Copy, Debug, PartialEq, Eq, Structural)]
pub struct EmptySequence;

impl InputSequence {
    #[verifier::type_invariant]
    spec fn not_empty(&self) -> bool {
        self.acts@.len() > 0
    }

    /// Starts a sequence of these acts that runs `system`.
    #[allow(clippy::new_ret_no_self)]
    pub fn new(system: u64, acts: Vec<Act>) -> (builder: InputSequenceBuilder)
        ensures
            builder.system == system,
            builder.acts@ == acts@,
            builder.time_limit is None,
    {
        let mut builder = InputSequenceBuilder::new(system);
        builder.acts = acts;
        builder
    }

    /// The system to run on a match.
    pub fn system_id(&self) -> (id: u64)
        ensures
            id == self@.system_id,
    {
        self.system_id
    }

    /// The acts to match: at least one.
    pub fn acts(&self) -> (acts: &Vec<Act>)
        ensures
            acts@ == self@.acts,
            acts@.len() > 0,
    {
        proof {
            use_type_invariant(self);
        }
        &self.acts
    }

    /// The time allowed from the first act to the last.
    pub fn time_limit(&self) -> (limit: Option<TimeLimit>)
        ensures
            limit == self@.time_limit,
    {
        self.time_limit
    }
}

impl Clone for InputSequence {
    fn clone(&self) -> (copy: InputSequence)
        ensures
            copy@ == self@,
    {
        proof {
            use_type_invariant(self);
        }
        let mut acts: Vec<Act> = Vec::new();
        let mut i: usize = 0;
        while i < self.acts.len()
            invariant
                i <= self.acts@.len(),
                acts@ == self.acts@.take(i as int),
            decreases self.acts@.len() - i,
        {
            acts.push(self.acts[i]);
            i += 1;
        }
        assert(acts@ == self.acts@);
        InputSequence { system_id: self.system_id, acts, time_limit: self.time_limit }
    }
}

/// An input sequence in the making.
#[derive(Debug)]
pub struct InputSequenceBuilder {
    /// The system to run when the sequence matches.
    pub system: u64,
    /// The acts to match, in order.
    pub acts: Vec<Act>,
    /// The time allowed from the first act to the last.
    pub time_limit: Option<TimeLimit>,
}

impl InputSequenceBuilder {
    /// A builder for a sequence that runs `system`: no acts yet, no time limit.
    pub fn new(system: u64) -> (builder: InputSequenceBuilder)
        ensures
            builder.system == system,
            builder.acts@ == Seq::<Act>::empty(),
            builder.time_limit is None,
    {
        InputSequenceBuilder { system, acts: Vec::new(), time_limit: None }
    }

    /// Sets the time allowed from the first matching input to the last.
    pub fn time_limit(self, time_limit: TimeLimit) -> (builder: InputSequenceBuilder)
        ensures
            builder.system == self.system,
            builder.acts@ == self.acts@,
            builder.time_limit == Some(time_limit),
    {
        let mut builder = self;
        builder.time_limit = Some(time_limit);
        builder
    }

    /// The sequence, or the refusal of one without acts.
    pub fn build(self) -> (built: Result<InputSequence, EmptySequence>)
        ensures
            built is Ok <==> self.acts@.len() > 0,
            built is Ok ==> built->Ok_0@ == (InputSequenceView {
                system_id: self.system,
                acts: self.acts@,
                time_limit: self.time_limit,
            }),
    {
        if self.acts.len() == 0 {
            Err(EmptySequence)
        } else {
            Ok(
                InputSequence {
                    system_id: self.system,
                    acts: self.acts,
                    time_limit: self.time_limit,
                },
            )
        }
    }
}

} // verus!
