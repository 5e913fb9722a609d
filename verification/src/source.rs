//! The raw bit source: a capability that hands out uniformly random bit
//! patterns at two native granularities, and a deterministic replay source
//! used to drive the sampler from a recorded sequence of draws.

use vstd::prelude::*;

verus! {

/// A supplier of raw random bit patterns at two granularities: whole 32-bit
/// words and whole 64-bit words.
///
/// For specification purposes a source is modelled by the two sequences of
/// draws it will hand out, one per granularity; `next_u32` and `next_u64`
/// each consume exactly the head of their own sequence and leave the other
/// untouched. Statistical quality (uniformity, independence) is the
/// implementor's business and is not stated here: the sampler's guarantees
/// are about the mapping from draws to values, which holds for every
/// sequence of draws.
pub trait RandomSource {
    /// The 32-bit draws this source will hand out, in order.
    spec fn draws32(&self) -> Seq<u32>;

    /// The 64-bit draws this source will hand out, in order.
    spec fn draws64(&self) -> Seq<u64>;

    /// Hand out the next 32-bit draw.
    fn next_u32(&mut self) -> (r: u32)
        requires
            old(self).draws32().len() > 0,
        ensures
            r == old(self).draws32()[0],
            final(self).draws32() == old(self).draws32().drop_first(),
            final(self).draws64() == old(self).draws64(),
    ;

    /// Hand out the next 64-bit draw.
    fn next_u64(&mut self) -> (r: u64)
        requires
            old(self).draws64().len() > 0,
        ensures
            r == old(self).draws64()[0],
            final(self).draws64() == old(self).draws64().drop_first(),
            final(self).draws32() == old(self).draws32(),
    ;
}

/// A deterministic source that replays two recorded queues of draws, one per
/// granularity. Replaying the same queues yields the same draws in the same
/// order, so it doubles as the reference source for reproducibility checks.
pub struct ReplaySource {
    queue32: Vec<u32>,
    queue64: Vec<u64>,
}

impl ReplaySource {
    /// A source that will hand out exactly the given draws, in order.
    pub fn new(draws32: Vec<u32>, draws64: Vec<u64>) -> (s: ReplaySource)
        ensures
            s.draws32() == draws32@,
            s.draws64() == draws64@,
    {
        ReplaySource { queue32: draws32, queue64: draws64 }
    }

    /// How many 32-bit draws are still queued.
    pub fn remaining32(&self) -> (n: usize)
        ensures
            n == self.draws32().len(),
    {
        self.queue32.len()
    }

    /// How many 64-bit draws are still queued.
    pub fn remaining64(&self) -> (n: usize)
        ensures
            n == self.draws64().len(),
    {
        self.queue64.len()
    }
}

impl RandomSource for ReplaySource {
    closed spec fn draws32(&self) -> Seq<u32> {
        self.queue32@
    }

    closed spec fn draws64(&self) -> Seq<u64> {
        self.queue64@
    }

    fn next_u32(&mut self) -> (r: u32) {
        let r = self.queue32.remove(0);
        proof {
            assert(self.queue32@ =~= old(self).queue32@.drop_first());
        }
        r
    }

    fn next_u64(&mut self) -> (r: u64) {
        let r = self.queue64.remove(0);
        proof {
            assert(self.queue64@ =~= old(self).queue64@.drop_first());
        }
        r
    }
}

} // verus!
