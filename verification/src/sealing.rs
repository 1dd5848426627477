//! The search for a nonce, one step at a time.
//!
//! A search alternates decisions with work that the library cannot do:
//! writing a nonce to a log, fetching a batch from the remote service. The
//! decisions are [`Blockchain::proof_of_work`](crate::Blockchain::proof_of_work):
//! it takes the outcome of the work it asked for last as a [`SealEvent`] and
//! answers with the next [`SealAction`].

use crate::block::{Block, BlockView};
use crate::entropy::EntropySource;
use crate::error::SealError;
use vstd::prelude::*;

verus! {

/// A record on its way to being sealed.
#[derive(Debug)]
pub struct Sealing {
    /// The candidate record. It carries the nonce tried last.
    pub block: Block,
    /// Where the nonce candidates come from.
    pub source: EntropySource,
    /// How many nonces were tried so far. The count stops at `u32::MAX`.
    pub iterations: u32,
}

/// What a [`Sealing`] holds, the record by its view.
pub struct SealingView {
    pub block: BlockView,
    pub source: EntropySource,
    pub iterations: u32,
}

impl View for Sealing {
    type V = SealingView;

    open spec fn view(&self) -> SealingView {
        SealingView { block: self.block@, source: self.source, iterations: self.iterations }
    }
}

/// What the driver reports to the engine.
#[derive(Debug)]
pub enum SealEvent {
    /// Nothing to report: the search starts, or the nonce handed out last
    /// has been written to its log.
    Resume,
    /// The batch that a fetch brought, in the order of the reply.
    Entropy(Vec<u64>),
    /// The work asked for last has failed.
    Failed(SealError),
}

/// What the engine asks the driver to do next.
#[derive(Debug, Clone, Copy, PartialEq, Eq, Structural)]
pub enum SealAction {
    /// A nonce was tried. The driver writes it to the log of the search's
    /// source and reports `Resume`, or `Failed` if the log cannot be written.
    Record { nonce: u64 },
    /// The pool is used up. The driver waits as the rate limiter says,
    /// fetches `batch_size` numbers and reports `Entropy`, or `Failed`.
    Fetch { batch_size: usize },
    /// The record's digest meets the difficulty: the search is over after
    /// `iterations` tries.
    Sealed { iterations: u32 },
    /// The search is given up; the record is to be thrown away.
    Abort(SealError),
}

impl SealingView {
    /// The search after one more try, with `nonce`.
    pub open spec fn attempted(self, nonce: u64) -> SealingView {
        SealingView {
            block: self.block.with_nonce(nonce),
            source: self.source,
            iterations: if self.iterations < u32::MAX {
                (self.iterations + 1) as u32
            } else {
                self.iterations
            },
        }
    }
}

impl Sealing {
    /// Starts a search on `block`: no nonce tried yet.
    pub fn new(block: Block, source: EntropySource) -> (sealing: Sealing)
        ensures
            sealing@ == (SealingView { block: block@, source, iterations: 0 }),
    {
        Sealing { block, source, iterations: 0 }
    }

    /// Tries `nonce`: installs it in the record, recomputes the record's
    /// digest and counts the try.
    pub fn attempt(&mut self, nonce: u64)
        ensures
            final(self)@ == old(self)@.attempted(nonce),
    {
        self.block.set_nonce(nonce);
        if self.iterations < u32::MAX {
            self.iterations = self.iterations + 1;
        }
    }
}

} // verus!
