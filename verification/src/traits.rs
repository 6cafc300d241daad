//! The agent-model interface: what any agent of the simulation offers, and
//! what any world model offers to a driver loop.

use vstd::prelude::*;

use crate::academia::Academia;
use crate::codec::enc_academia;
use crate::codec::enc_researcher;
use crate::codec::push_researcher;
use crate::researcher::Researcher;
use crate::rng::RandomDrawService;
use crate::MAX_ADMISSIONS_PER_STEP;

verus! {

/// An agent of the simulation: it has an identity, a per-step behavior (a
/// no-op by default), and a serialized form.
pub trait Agent {
    /// The agent's identity.
    spec fn spec_id(&self) -> u32;

    /// The view of this agent's serialized form.
    spec fn spec_serialized(&self) -> Seq<i64>;

    fn get_id(&self) -> (r: u32)
        ensures
            r == self.spec_id(),
    ;

    fn step(&mut self) {
    }

    fn serialize(&self) -> (r: Vec<i64>)
        ensures
            r@ == self.spec_serialized(),
    ;
}

impl Agent for Researcher {
    open spec fn spec_id(&self) -> u32 {
        self.id
    }

    open spec fn spec_serialized(&self) -> Seq<i64> {
        enc_researcher(*self)
    }

    fn get_id(&self) -> (r: u32) {
        self.id
    }

    fn serialize(&self) -> (r: Vec<i64>) {
        let mut out: Vec<i64> = Vec::new();
        push_researcher(&mut out, self);
        out
    }
}

/// A world model a driver loop can run: initialization, one step per call,
/// and a serialized form of the full state.
pub trait Model: Sized {
    /// The model's own well-formedness, maintained by every operation.
    spec fn model_wf(&self) -> bool;

    /// The view of the model's serialized form.
    spec fn spec_serialized(&self) -> Seq<i64>;

    /// The model's clock.
    spec fn model_time(&self) -> u32;

    /// How many agents the model holds.
    spec fn model_population(&self) -> int;

    /// Whether the id space can take `count` more agents.
    spec fn admission_headroom(&self, count: u32) -> bool;

    /// Whether the clock and the id spaces allow one more step.
    spec fn step_headroom(&self) -> bool;

    /// Admits `count` more agents, exactly when the id space can take them;
    /// `false` reports exhaustion, with nothing changed.
    fn init(&mut self, count: u32, rng: &mut RandomDrawService) -> (r: bool)
        requires
            old(self).model_wf(),
        ensures
            final(self).model_wf(),
            r == old(self).admission_headroom(count),
            r ==> final(self).model_population() == old(self).model_population() + count
                && final(self).model_time() == old(self).model_time(),
            !r ==> *final(self) == *old(self),
    ;

    /// Runs one step, exactly when the clock and the id spaces have
    /// headroom, advancing the clock by one tick; `false` reports
    /// exhaustion, with nothing changed.
    fn step(&mut self, rng: &mut RandomDrawService) -> (r: bool)
        requires
            old(self).model_wf(),
        ensures
            final(self).model_wf(),
            r == old(self).step_headroom(),
            r ==> final(self).model_time() == old(self).model_time() + 1,
            !r ==> *final(self) == *old(self),
    ;

    fn serialize(&self) -> (r: Vec<i64>)
        requires
            self.model_wf(),
        ensures
            r@ == self.spec_serialized(),
    ;
}

impl Model for Academia {
    open spec fn model_wf(&self) -> bool {
        self.wf()
    }

    open spec fn spec_serialized(&self) -> Seq<i64> {
        enc_academia(self@)
    }

    open spec fn model_time(&self) -> u32 {
        self.time
    }

    open spec fn model_population(&self) -> int {
        self.researchers@.len() as int
    }

    open spec fn admission_headroom(&self, count: u32) -> bool {
        self.researchers@.len() + count <= u32::MAX
    }

    open spec fn step_headroom(&self) -> bool {
        &&& self.time < u32::MAX
        &&& self.researchers@.len() + MAX_ADMISSIONS_PER_STEP <= u32::MAX
        &&& self.studies@.len() + self.researchers@.len() + MAX_ADMISSIONS_PER_STEP <= u32::MAX
    }

    fn init(&mut self, count: u32, rng: &mut RandomDrawService) -> (r: bool) {
        if count as u64 + self.researchers.len() as u64 <= u32::MAX as u64 {
            Academia::init(self, count, rng);
            true
        } else {
            false
        }
    }

    fn step(&mut self, rng: &mut RandomDrawService) -> (r: bool) {
        let headroom = MAX_ADMISSIONS_PER_STEP as u64;
        if self.time < u32::MAX && self.researchers.len() as u64 + headroom <= u32::MAX as u64
            && self.studies.len() as u64 + self.researchers.len() as u64 + headroom <= u32::MAX as u64 {
            Academia::step(self, rng);
            true
        } else {
            false
        }
    }

    fn serialize(&self) -> (r: Vec<i64>) {
        Academia::serialize(self)
    }
}

} // verus!
