//! The ledger: its records, its validator, and the sealing of new records.

use crate::block::{Block, BlockView};
use crate::digest::{
    lemma_digest_tells_texts_apart, lemma_preimage_tells_nonces_apart,
    lemma_preimage_tells_payloads_apart, sha256_collision,
};
use crate::entropy::EntropySource;
use crate::error::SealError;
use crate::sealing::{Sealing, SealingView};
use vstd::prelude::*;
use vstd::utf8::encode_utf8;

verus! {

/// The ledger. Records are only ever added at the end, by
/// [`Blockchain::add_block`].
pub struct Blockchain {
    /// The records; the first is the genesis record.
    pub chain: Vec<Block>,
    /// How many leading `'0'` characters a sealed digest must have.
    pub difficulty: usize,
    /// The pool of the remote source: fetched numbers not yet tried, oldest
    /// first.
    pub qrng_numbers: Vec<u64>,
}

/// What a [`Blockchain`] holds, as sequences.
#[verifier::ext_equal]
pub struct ChainView {
    pub records: Seq<BlockView>,
    pub difficulty: nat,
    pub pool: Seq<u64>,
}

impl View for Blockchain {
    type V = ChainView;

    open spec fn view(&self) -> ChainView {
        ChainView {
            records: Seq::new(self.chain@.len(), |i: int| self.chain@[i]@),
            difficulty: self.difficulty as nat,
            pool: self.qrng_numbers@,
        }
    }
}

/// The payload of every ledger's first record.
pub open spec fn genesis_data() -> Seq<char> {
    "Dr. Kogge buys Ancient Aliens Live T-shirt for 20 USD."@
}

/// What the first record names as its predecessor's digest.
pub open spec fn genesis_link() -> Seq<char> {
    "0"@
}

/// The difficulty of a new ledger.
pub const INITIAL_DIFFICULTY: usize = 2;

/// The genesis record that was stamped at `timestamp`.
pub open spec fn genesis_record(timestamp: u64) -> BlockView {
    BlockView::fresh(0, timestamp, genesis_data(), genesis_link())
}

/// Record `i` carries the digest of its own fields and names the digest of
/// the record before it.
pub open spec fn linked(records: Seq<BlockView>, i: int) -> bool {
    &&& records[i].consistent()
    &&& records[i].previous_hash == records[i - 1].hash
}

impl ChainView {
    /// What the validator checks: every record but the first carries the
    /// digest of its fields and the digest of its predecessor. A ledger of
    /// one record, or of none, passes.
    pub open spec fn valid(self) -> bool {
        forall|i: int| 1 <= i < self.records.len() ==> #[trigger] linked(self.records, i)
    }

    /// A new ledger: the genesis record stamped at `timestamp` and nothing
    /// else, the initial difficulty, and `pool` as the pool.
    pub open spec fn initial(timestamp: u64, pool: Seq<u64>) -> ChainView {
        ChainView {
            records: seq![genesis_record(timestamp)],
            difficulty: INITIAL_DIFFICULTY as nat,
            pool,
        }
    }

    /// The record that a search for the next record starts on: the next
    /// index, `timestamp`, `data` as the payload, the digest of the last
    /// record as the link, nonce zero.
    pub open spec fn candidate(self, timestamp: u64, data: Seq<char>) -> BlockView {
        BlockView::fresh(self.records.len() as u32, timestamp, data, self.records.last().hash)
    }

    /// A candidate for the next record: it is the next by index, names the
    /// digest of the last record and carries the digest of its own fields.
    pub open spec fn awaits(self, block: BlockView) -> bool {
        &&& self.records.len() >= 1
        &&& block.index == self.records.len()
        &&& block.previous_hash == self.records.last().hash
        &&& block.consistent()
    }

    /// A record that may be added: a candidate for the next record whose
    /// digest meets the difficulty.
    pub open spec fn accepts(self, block: BlockView) -> bool {
        &&& self.awaits(block)
        &&& block.sealed(self.difficulty)
    }

    /// The ledger with `block` added at the end.
    pub open spec fn appended(self, block: BlockView) -> ChainView {
        ChainView { records: self.records.push(block), ..self }
    }

    /// What holds of a ledger that was made by [`Blockchain::new`] and grew
    /// by [`Blockchain::add_block`] alone: it starts with the genesis
    /// record, the indices count up from zero, every record carries its own
    /// digest, every record after the first names its predecessor's digest
    /// and meets the difficulty.
    pub open spec fn wf(self) -> bool {
        &&& self.records.len() >= 1
        &&& self.records[0].data == genesis_data()
        &&& self.records[0].previous_hash == genesis_link()
        &&& forall|i: int| 0 <= i < self.records.len() ==> (#[trigger] self.records[i]).index == i
        &&& forall|i: int|
            0 <= i < self.records.len() ==> (#[trigger] self.records[i]).consistent()
        &&& forall|i: int|
            1 <= i < self.records.len() ==> (#[trigger] self.records[i]).previous_hash
                == self.records[i - 1].hash
        &&& forall|i: int|
            1 <= i < self.records.len() ==> (#[trigger] self.records[i]).sealed(self.difficulty)
    }
}

impl Blockchain {
    /// A ledger that holds the genesis record only, stamped with the current
    /// time, with difficulty 2 and `qrng_numbers` as the pool of the remote
    /// source. Where the clock stands before the epoch there is no
    /// timestamp and no ledger.
    pub fn new(qrng_numbers: Vec<u64>) -> (ledger: Option<Blockchain>)
        ensures
            ledger matches Some(made) ==> made@ == ChainView::initial(
                made@.records[0].timestamp,
                qrng_numbers@,
            ),
            ledger matches Some(made) ==> made@.wf(),
    {
        match Blockchain::create_genesis_block() {
            Some(genesis) => Some(Blockchain::with_genesis(genesis, qrng_numbers)),
            None => None,
        }
    }

    /// The ledger that [`Blockchain::new`] makes when the clock reads
    /// `timestamp`.
    pub fn new_at(qrng_numbers: Vec<u64>, timestamp: u64) -> (ledger: Blockchain)
        ensures
            ledger@ == ChainView::initial(timestamp, qrng_numbers@),
            ledger@.wf(),
    {
        Blockchain::with_genesis(Blockchain::genesis_block_at(timestamp), qrng_numbers)
    }

    fn with_genesis(genesis: Block, qrng_numbers: Vec<u64>) -> (ledger: Blockchain)
        requires
            genesis@ == genesis_record(genesis@.timestamp),
        ensures
            ledger@ == ChainView::initial(genesis@.timestamp, qrng_numbers@),
            ledger@.wf(),
    {
        let mut chain: Vec<Block> = Vec::new();
        chain.push(genesis);
        let ledger = Blockchain { chain, difficulty: INITIAL_DIFFICULTY, qrng_numbers };
        assert(ledger@.records =~= seq![genesis@]);
        ledger
    }

    /// The genesis record: index zero, the fixed payload, `"0"` for the
    /// predecessor, stamped with the current time. Where the clock stands
    /// before the epoch there is no record.
    pub fn create_genesis_block() -> (block: Option<Block>)
        ensures
            block matches Some(made) ==> made@ == genesis_record(made@.timestamp),
    {
        Block::new(
            0,
            String::from_str("Dr. Kogge buys Ancient Aliens Live T-shirt for 20 USD."),
            String::from_str("0"),
        )
    }

    /// The genesis record stamped at `timestamp`.
    pub fn genesis_block_at(timestamp: u64) -> (block: Block)
        ensures
            block@ == genesis_record(timestamp),
    {
        Block::with_timestamp(
            0,
            timestamp,
            String::from_str("Dr. Kogge buys Ancient Aliens Live T-shirt for 20 USD."),
            String::from_str("0"),
        )
    }

    /// Walks the records after the first and recomputes each digest: true if
    /// every one of them carries the digest of its own fields and names the
    /// digest of the record before it.
    pub fn is_valid(&self) -> (valid: bool)
        ensures
            valid == self@.valid(),
    {
        let mut i: usize = 1;
        while i < self.chain.len()
            invariant
                1 <= i,
                forall|k: int|
                    1 <= k < i && k < self@.records.len() ==> #[trigger] linked(self@.records, k),
            decreases self.chain.len() - i,
        {
            let current = &self.chain[i];
            let previous = &self.chain[i - 1];
            let recomputed = current.calculate_hash();
            if !(current.hash == recomputed) {
                assert(!linked(self@.records, i as int));
                return false;
            }
            if !(current.previous_hash == previous.hash) {
                assert(!linked(self@.records, i as int));
                return false;
            }
            i += 1;
        }
        true
    }

    /// Makes the candidate for the next record and starts a search on it:
    /// the record gets the next index, the current time, `data` as its
    /// payload and the digest of the last record as its link. Where the clock
    /// stands before the epoch there is no timestamp and no search.
    ///
    /// The ledger must hold a record, and no more than a `u32` can count.
    pub fn start_sealing(&self, data: String, source: EntropySource) -> (sealing: Option<Sealing>)
        requires
            0 < self@.records.len() <= u32::MAX,
        ensures
            sealing matches Some(search) ==> search@ == (SealingView {
                block: self@.candidate(search@.block.timestamp, data@),
                source,
                iterations: 0,
            }),
            sealing matches Some(search) ==> self@.awaits(search@.block),
    {
        let n: usize = self.chain.len();
        let previous_hash = self.chain[n - 1].hash.clone();
        match Block::new(n as u32, data, previous_hash) {
            Some(block) => Some(Sealing::new(block, source)),
            None => None,
        }
    }

    /// The search that [`Blockchain::start_sealing`] starts when the clock
    /// reads `timestamp`.
    ///
    /// The ledger must hold a record, and no more than a `u32` can count.
    pub fn start_sealing_at(&self, data: String, source: EntropySource, timestamp: u64) -> (sealing:
        Sealing)
        requires
            0 < self@.records.len() <= u32::MAX,
        ensures
            sealing@ == (SealingView {
                block: self@.candidate(timestamp, data@),
                source,
                iterations: 0,
            }),
            self@.awaits(sealing@.block),
    {
        let n: usize = self.chain.len();
        let previous_hash = self.chain[n - 1].hash.clone();
        Sealing::new(Block::with_timestamp(n as u32, timestamp, data, previous_hash), source)
    }

    /// Adds `block` at the end of the ledger if it extends it, and refuses it
    /// otherwise. Nothing is taken on trust: the index and the link are
    /// compared with the ledger, the digest is recomputed, the leading zeros
    /// are counted. A refused record leaves the ledger as it was.
    pub fn add_block(&mut self, block: Block) -> (result: Result<(), SealError>)
        ensures
            result is Ok <==> old(self)@.accepts(block@),
            result is Ok ==> final(self)@ == old(self)@.appended(block@),
            result is Err ==> final(self)@ == old(self)@,
            result is Err ==> result == Err::<(), SealError>(SealError::BlockRejected),
            old(self)@.wf() ==> final(self)@.wf(),
    {
        let n: usize = self.chain.len();
        if n == 0 || n > u32::MAX as usize {
            return Err(SealError::BlockRejected);
        }
        if block.index != n as u32 {
            return Err(SealError::BlockRejected);
        }
        if !(block.previous_hash == self.chain[n - 1].hash) {
            return Err(SealError::BlockRejected);
        }
        let recomputed = block.calculate_hash();
        if !(block.hash == recomputed) {
            return Err(SealError::BlockRejected);
        }
        if !block.is_sealed(self.difficulty) {
            return Err(SealError::BlockRejected);
        }
        self.chain.push(block);
        assert(self@.records =~= old(self)@.records.push(block@));
        Ok(())
    }

    /// Ends the append of a sealed record, once the driver has tried to write
    /// its line of the metrics log. A line that could not be written ends the
    /// append with that failure and the ledger untouched; else the record is
    /// added as [`Blockchain::add_block`] adds it.
    pub fn finish_sealing(&mut self, sealing: Sealing, metrics_written: bool) -> (result: Result<
        (),
        SealError,
    >)
        ensures
            !metrics_written ==> result == Err::<(), SealError>(SealError::LogWriteFailed),
            metrics_written ==> (result is Ok <==> old(self)@.accepts(sealing@.block)),
            metrics_written && result is Err ==> result == Err::<(), SealError>(
                SealError::BlockRejected,
            ),
            result is Ok ==> final(self)@ == old(self)@.appended(sealing@.block),
            result is Err ==> final(self)@ == old(self)@,
            old(self)@.wf() ==> final(self)@.wf(),
    {
        if !metrics_written {
            return Err(SealError::LogWriteFailed);
        }
        self.add_block(sealing.block)
    }
}

/// A ledger that was made by [`Blockchain::new`] and grew by
/// [`Blockchain::add_block`] alone passes the validator.
pub proof fn lemma_built_ledger_is_valid(ledger: ChainView)
    requires
        ledger.wf(),
    ensures
        ledger.valid(),
{
}

/// In such a ledger the indices are 0, 1, 2 and so on, without a gap.
pub proof fn lemma_indices_count_up(ledger: ChainView, i: int)
    requires
        ledger.wf(),
        0 <= i < ledger.records.len(),
    ensures
        ledger.records[i].index == i,
{
}

/// A ledger that passes the validator fails it once the link of any record
/// but the first is changed.
pub proof fn lemma_changed_link_is_detected(ledger: ChainView, i: int, forged: BlockView)
    requires
        ledger.valid(),
        1 <= i < ledger.records.len(),
        forged.previous_hash != ledger.records[i].previous_hash,
    ensures
        !(ChainView { records: ledger.records.update(i, forged), ..ledger }).valid(),
{
    let changed = ChainView { records: ledger.records.update(i, forged), ..ledger };
    assert(linked(ledger.records, i));
    assert(!linked(changed.records, i));
}

/// A ledger that passes the validator fails it once the payload of any
/// record but the first is changed, unless the old and the new preimage are a
/// collision of SHA-256.
pub proof fn lemma_changed_payload_is_detected(ledger: ChainView, i: int, data: Seq<char>)
    requires
        ledger.valid(),
        1 <= i < ledger.records.len(),
        data != ledger.records[i].data,
        !sha256_collision(
            encode_utf8(ledger.records[i].preimage()),
            encode_utf8((BlockView { data, ..ledger.records[i] }).preimage()),
        ),
    ensures
        !(ChainView {
            records: ledger.records.update(i, BlockView { data, ..ledger.records[i] }),
            ..ledger
        }).valid(),
{
    let record = ledger.records[i];
    let forged = BlockView { data, ..record };
    lemma_preimage_tells_payloads_apart(
        record.index,
        record.timestamp,
        record.data,
        data,
        record.previous_hash,
        record.nonce,
    );
    lemma_digest_tells_texts_apart(record.preimage(), forged.preimage());
    lemma_changed_fields_are_detected(ledger, i, forged);
}

/// A ledger that passes the validator fails it once the nonce of any record
/// but the first is changed, unless the old and the new preimage are a
/// collision of SHA-256.
pub proof fn lemma_changed_nonce_is_detected(ledger: ChainView, i: int, nonce: u64)
    requires
        ledger.valid(),
        1 <= i < ledger.records.len(),
        nonce != ledger.records[i].nonce,
        !sha256_collision(
            encode_utf8(ledger.records[i].preimage()),
            encode_utf8((BlockView { nonce, ..ledger.records[i] }).preimage()),
        ),
    ensures
        !(ChainView {
            records: ledger.records.update(i, BlockView { nonce, ..ledger.records[i] }),
            ..ledger
        }).valid(),
{
    let record = ledger.records[i];
    let forged = BlockView { nonce, ..record };
    lemma_preimage_tells_nonces_apart(
        record.index,
        record.timestamp,
        record.data,
        record.previous_hash,
        record.nonce,
        nonce,
    );
    lemma_digest_tells_texts_apart(record.preimage(), forged.preimage());
    lemma_changed_fields_are_detected(ledger, i, forged);
}

/// A ledger that passes the validator fails it once any record but the
/// first is replaced by one that keeps the stored digest while its fields
/// give another.
pub proof fn lemma_changed_fields_are_detected(ledger: ChainView, i: int, forged: BlockView)
    requires
        ledger.valid(),
        1 <= i < ledger.records.len(),
        forged.hash == ledger.records[i].hash,
        forged.digest() != ledger.records[i].digest(),
    ensures
        !(ChainView { records: ledger.records.update(i, forged), ..ledger }).valid(),
{
    let changed = ChainView { records: ledger.records.update(i, forged), ..ledger };
    assert(linked(ledger.records, i));
    assert(!linked(changed.records, i));
}

} // verus!
