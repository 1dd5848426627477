//! The sealing engine: what one step of a search does.

use crate::block::has_leading_zeros;
use crate::chain::{Blockchain, ChainView};
use crate::entropy::{local_candidate, EntropySource, BATCH_SIZE, LOCAL_RANGE};
use crate::error::SealError;
use crate::sealing::{SealAction, SealEvent, Sealing, SealingView};
use vstd::prelude::*;

verus! {

/// The state after a step and the action that the step asks for.
#[verifier::ext_equal]
pub struct Step {
    pub ledger: ChainView,
    pub sealing: SealingView,
    pub action: SealAction,
}

/// One try, or the end of the search, on a ledger whose pool already holds
/// what the driver reported.
///
/// A record whose digest meets the difficulty is sealed, and nothing
/// changes. Otherwise one nonce is tried: `drawn` for the local source, the
/// oldest number of the pool, which leaves the pool, for the remote one.
/// With the remote source and an empty pool nothing is tried and a fetch is
/// asked for.
pub open spec fn search(ledger: ChainView, sealing: SealingView, drawn: u64) -> Step {
    if sealing.block.sealed(ledger.difficulty) {
        Step { ledger, sealing, action: SealAction::Sealed { iterations: sealing.iterations } }
    } else {
        match sealing.source {
            EntropySource::Local => Step {
                ledger,
                sealing: sealing.attempted(drawn),
                action: SealAction::Record { nonce: drawn },
            },
            EntropySource::Remote => if ledger.pool.len() == 0 {
                Step { ledger, sealing, action: SealAction::Fetch { batch_size: BATCH_SIZE } }
            } else {
                Step {
                    ledger: ChainView { pool: ledger.pool.drop_first(), ..ledger },
                    sealing: sealing.attempted(ledger.pool[0]),
                    action: SealAction::Record { nonce: ledger.pool[0] },
                }
            },
        }
    }
}

/// One step of the engine on the report `event`, where `drawn` is what the
/// local source gives if it is asked.
///
/// A failure ends the search at once, with nothing changed. A batch goes to
/// the end of the pool, in its order, before the search goes on.
pub open spec fn step(
    ledger: ChainView,
    sealing: SealingView,
    event: SealEvent,
    drawn: u64,
) -> Step {
    match event {
        SealEvent::Failed(error) => Step { ledger, sealing, action: SealAction::Abort(error) },
        SealEvent::Entropy(batch) => search(
            ChainView { pool: ledger.pool + batch@, ..ledger },
            sealing,
            drawn,
        ),
        SealEvent::Resume => search(ledger, sealing, drawn),
    }
}

/// The step asks the local source for a number: the search is on the local
/// source, no failure was reported, and the record is not sealed yet.
pub open spec fn draws_locally(ledger: ChainView, sealing: SealingView, event: SealEvent) -> bool {
    &&& sealing.source == EntropySource::Local
    &&& !(event is Failed)
    &&& !sealing.block.sealed(ledger.difficulty)
}

impl Blockchain {
    /// Takes one step of the search `sealing`, given the driver's report and
    /// the number `drawn` that stands for the local source's next draw.
    /// `drawn` is read only where the step draws locally.
    ///
    /// The records of the ledger never change in a search, only the pool.
    pub fn proof_of_work_with(
        &mut self,
        sealing: &mut Sealing,
        event: SealEvent,
        drawn: u64,
    ) -> (action: SealAction)
        ensures
            (Step { ledger: final(self)@, sealing: final(sealing)@, action }) == step(
                old(self)@,
                old(sealing)@,
                event,
                drawn,
            ),
            final(self)@.records == old(self)@.records,
            final(self)@.difficulty == old(self)@.difficulty,
            action is Sealed ==> final(sealing)@.block.sealed(final(self)@.difficulty),
            old(self)@.wf() ==> final(self)@.wf(),
            old(self)@.awaits(old(sealing)@.block) ==> final(self)@.awaits(final(sealing)@.block),
    {
        match event {
            SealEvent::Failed(error) => {
                return SealAction::Abort(error);
            },
            SealEvent::Entropy(batch) => {
                let mut batch = batch;
                self.qrng_numbers.append(&mut batch);
            },
            SealEvent::Resume => {},
        }
        if sealing.block.is_sealed(self.difficulty) {
            return SealAction::Sealed { iterations: sealing.iterations };
        }
        match sealing.source {
            EntropySource::Local => {
                sealing.attempt(drawn);
                SealAction::Record { nonce: drawn }
            },
            EntropySource::Remote => {
                if self.qrng_numbers.len() == 0 {
                    SealAction::Fetch { batch_size: BATCH_SIZE }
                } else {
                    let nonce: u64 = self.qrng_numbers.remove(0);
                    sealing.attempt(nonce);
                    SealAction::Record { nonce }
                }
            },
        }
    }

    /// Tells whether the next step of `sealing` on the report `event` asks
    /// the local source for a number.
    pub fn wants_local_draw(&self, sealing: &Sealing, event: &SealEvent) -> (wanted: bool)
        ensures
            wanted == draws_locally(self@, sealing@, *event),
    {
        match sealing.source {
            EntropySource::Remote => false,
            EntropySource::Local => match event {
                SealEvent::Failed(_) => false,
                _ => !sealing.block.is_sealed(self.difficulty),
            },
        }
    }

    /// Takes one step of the search `sealing`, given the driver's report.
    ///
    /// The step is [`step`]. Where it draws locally, the number drawn is one
    /// that the local source gave, below 65536, and is the nonce of the
    /// record after the step; which number it is depends on chance. Where it
    /// does not, no number is drawn.
    pub fn proof_of_work(&mut self, sealing: &mut Sealing, event: SealEvent) -> (action: SealAction)
        ensures
            (Step { ledger: final(self)@, sealing: final(sealing)@, action }) == step(
                old(self)@,
                old(sealing)@,
                event,
                final(sealing)@.block.nonce,
            ),
            draws_locally(old(self)@, old(sealing)@, event) ==> final(sealing)@.block.nonce
                < LOCAL_RANGE,
            final(self)@.records == old(self)@.records,
            final(self)@.difficulty == old(self)@.difficulty,
            action is Sealed ==> final(sealing)@.block.sealed(final(self)@.difficulty),
            old(self)@.wf() ==> final(self)@.wf(),
            old(self)@.awaits(old(sealing)@.block) ==> final(self)@.awaits(final(sealing)@.block),
    {
        let drawn: u64 = if self.wants_local_draw(sealing, &event) {
            local_candidate()
        } else {
            0
        };
        self.proof_of_work_with(sealing, event, drawn)
    }
}

/// A step that does not draw locally is the same whatever the local source
/// would have given; one that does installs the number drawn as the nonce.
pub proof fn lemma_step_reads_local_draws_only(
    ledger: ChainView,
    sealing: SealingView,
    event: SealEvent,
    drawn: u64,
    other: u64,
)
    ensures
        !draws_locally(ledger, sealing, event) ==> step(ledger, sealing, event, drawn) == step(
            ledger,
            sealing,
            event,
            other,
        ),
        draws_locally(ledger, sealing, event) ==> step(
            ledger,
            sealing,
            event,
            drawn,
        ).sealing.block.nonce == drawn,
{
}

/// A search ends only on a record whose digest has the leading zeros that
/// the difficulty asks for.
pub proof fn lemma_sealed_meets_difficulty(
    ledger: ChainView,
    sealing: SealingView,
    event: SealEvent,
    drawn: u64,
)
    requires
        step(ledger, sealing, event, drawn).action is Sealed,
    ensures
        has_leading_zeros(
            step(ledger, sealing, event, drawn).sealing.block.hash,
            step(ledger, sealing, event, drawn).ledger.difficulty,
        ),
{
}

/// With difficulty zero a search is over at its first step: no nonce is
/// tried and nothing changes.
pub proof fn lemma_zero_difficulty_seals_at_once(
    ledger: ChainView,
    sealing: SealingView,
    drawn: u64,
)
    requires
        ledger.difficulty == 0,
    ensures
        step(ledger, sealing, SealEvent::Resume, drawn) == (Step {
            ledger,
            sealing,
            action: SealAction::Sealed { iterations: sealing.iterations },
        }),
{
}

/// A search on the remote source that finds the pool empty asks for one
/// fetch and tries nothing. Once the batch is in, the next step tries the
/// batch's first number and asks for no further fetch; the rest of the batch
/// is the pool.
pub proof fn lemma_empty_pool_fetches_once(
    ledger: ChainView,
    sealing: SealingView,
    batch: Vec<u64>,
    drawn: u64,
)
    requires
        sealing.source == EntropySource::Remote,
        !sealing.block.sealed(ledger.difficulty),
        ledger.pool.len() == 0,
        batch@.len() > 0,
    ensures
        step(ledger, sealing, SealEvent::Resume, drawn) == (Step {
            ledger,
            sealing,
            action: SealAction::Fetch { batch_size: BATCH_SIZE },
        }),
        step(ledger, sealing, SealEvent::Entropy(batch), drawn) == (Step {
            ledger: ChainView { pool: batch@.drop_first(), ..ledger },
            sealing: sealing.attempted(batch@[0]),
            action: SealAction::Record { nonce: batch@[0] },
        }),
{
}

/// The pool is used up oldest first: a step on the remote source that tries
/// a nonce tries the first number of the pool and leaves the others in
/// their order.
pub proof fn lemma_pool_is_first_in_first_out(
    ledger: ChainView,
    sealing: SealingView,
    drawn: u64,
)
    requires
        sealing.source == EntropySource::Remote,
        !sealing.block.sealed(ledger.difficulty),
        ledger.pool.len() > 0,
    ensures
        step(ledger, sealing, SealEvent::Resume, drawn).action == (SealAction::Record {
            nonce: ledger.pool[0],
        }),
        step(ledger, sealing, SealEvent::Resume, drawn).ledger.pool == ledger.pool.subrange(
            1,
            ledger.pool.len() as int,
        ),
{
}

/// A reported failure ends the search whatever its state: the answer is to
/// give up with that failure, with ledger and record untouched. There is no
/// second try and no change of source.
pub proof fn lemma_failure_aborts(
    ledger: ChainView,
    sealing: SealingView,
    error: SealError,
    drawn: u64,
)
    ensures
        step(ledger, sealing, SealEvent::Failed(error), drawn) == (Step {
            ledger,
            sealing,
            action: SealAction::Abort(error),
        }),
{
}

/// No step touches the records or the difficulty of the ledger, or the
/// source of the search; and the record keeps its index, timestamp, payload
/// and link.
pub proof fn lemma_step_keeps_the_ledger(
    ledger: ChainView,
    sealing: SealingView,
    event: SealEvent,
    drawn: u64,
)
    ensures
        step(ledger, sealing, event, drawn).ledger.records == ledger.records,
        step(ledger, sealing, event, drawn).ledger.difficulty == ledger.difficulty,
        step(ledger, sealing, event, drawn).sealing.source == sealing.source,
        step(ledger, sealing, event, drawn).sealing.block.index == sealing.block.index,
        step(ledger, sealing, event, drawn).sealing.block.timestamp == sealing.block.timestamp,
        step(ledger, sealing, event, drawn).sealing.block.data == sealing.block.data,
        step(ledger, sealing, event, drawn).sealing.block.previous_hash
            == sealing.block.previous_hash,
        ledger.wf() ==> step(ledger, sealing, event, drawn).ledger.wf(),
{
}

/// A candidate for the next record stays one through every step of its
/// search, and once the search says that it is sealed, the ledger accepts
/// it.
pub proof fn lemma_sealed_candidate_is_accepted(
    ledger: ChainView,
    sealing: SealingView,
    event: SealEvent,
    drawn: u64,
)
    requires
        ledger.awaits(sealing.block),
    ensures
        step(ledger, sealing, event, drawn).ledger.awaits(
            step(ledger, sealing, event, drawn).sealing.block,
        ),
        step(ledger, sealing, event, drawn).action is Sealed ==> step(
            ledger,
            sealing,
            event,
            drawn,
        ).ledger.accepts(step(ledger, sealing, event, drawn).sealing.block),
{
}

} // verus!
