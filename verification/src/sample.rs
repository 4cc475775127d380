//! Position samples and the collector that gathers them.

use vstd::prelude::*;
use crate::frame::{ActorId, Position, Scalar};
use crate::role::Role;

verus! {

/// Where one tracked actor was at one time.
#[derive(Clone, Copy, Debug, PartialEq, Eq, Structural)]
pub struct Sample {
    pub time: Scalar,
    pub role: Role,
    pub actor: ActorId,
    pub position: Position,
}

/// Gathers samples in the order in which they arrive.
pub struct SampleCollector {
    samples: Vec<Sample>,
}

impl View for SampleCollector {
    type V = Seq<Sample>;

    closed spec fn view(&self) -> Seq<Sample> {
        self.samples@
    }
}

impl SampleCollector {
    /// A collector that holds no sample.
    pub fn new() -> (c: SampleCollector)
        ensures
            c@ == Seq::<Sample>::empty(),
    {
        SampleCollector { samples: Vec::new() }
    }

    /// Adds `sample` behind all samples gathered so far.
    pub fn append(&mut self, sample: Sample)
        ensures
            final(self)@ == old(self)@.push(sample),
    {
        self.samples.push(sample);
    }

    /// Hands out the samples, in the order in which they arrived.
    pub fn finalize(self) -> (samples: Vec<Sample>)
        ensures
            samples@ == self@,
    {
        self.samples
    }
}

} // verus!
