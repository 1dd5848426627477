//! Records of the ledger.

use crate::clock::{now, timestamp_of_reading};
use crate::digest::{digest, digest_text, preimage};
use crate::hex::is_lower_hex;
use vstd::prelude::*;

verus! {

/// One record: a payload linked to its predecessor by that record's digest.
///
/// `hash` is meant to be the digest of the other five fields. Nothing
/// enforces this on a value, whose fields anyone may set:
/// [`Blockchain::is_valid`](crate::Blockchain::is_valid) recomputes it.
#[derive(Debug)]
pub struct Block {
    /// Position in the ledger; the genesis record has index 0.
    pub index: u32,
    /// Seconds since the Unix epoch at which the record was made.
    pub timestamp: u64,
    /// The payload.
    pub data: String,
    /// The predecessor's digest; `"0"` in the genesis record.
    pub previous_hash: String,
    /// The number searched for while the record is sealed.
    pub nonce: u64,
    /// The digest of the five fields above.
    pub hash: String,
}

/// What a [`Block`] holds, with its texts as sequences of characters.
pub struct BlockView {
    pub index: u32,
    pub timestamp: u64,
    pub data: Seq<char>,
    pub previous_hash: Seq<char>,
    pub nonce: u64,
    pub hash: Seq<char>,
}

impl View for Block {
    type V = BlockView;

    open spec fn view(&self) -> BlockView {
        BlockView {
            index: self.index,
            timestamp: self.timestamp,
            data: self.data@,
            previous_hash: self.previous_hash@,
            nonce: self.nonce,
            hash: self.hash@,
        }
    }
}

/// True if `hash` starts with at least `difficulty` characters `'0'`.
pub open spec fn has_leading_zeros(hash: Seq<char>, difficulty: nat) -> bool {
    &&& difficulty <= hash.len()
    &&& forall|i: int| 0 <= i < difficulty ==> hash[i] == '0'
}

impl BlockView {
    /// The text of the five fields other than `hash`, which is what is
    /// hashed.
    pub open spec fn preimage(self) -> Seq<char> {
        preimage(self.index, self.timestamp, self.data, self.previous_hash, self.nonce)
    }

    /// The digest that the five fields other than `hash` give.
    pub open spec fn digest(self) -> Seq<char> {
        digest_text(self.index, self.timestamp, self.data, self.previous_hash, self.nonce)
    }

    /// The stored digest is the digest of the fields.
    pub open spec fn consistent(self) -> bool {
        self.hash == self.digest()
    }

    /// The stored digest meets `difficulty`.
    pub open spec fn sealed(self, difficulty: nat) -> bool {
        has_leading_zeros(self.hash, difficulty)
    }

    /// A record as it is first made: nonce zero, digest computed.
    pub open spec fn fresh(
        index: u32,
        timestamp: u64,
        data: Seq<char>,
        previous_hash: Seq<char>,
    ) -> BlockView {
        BlockView {
            index,
            timestamp,
            data,
            previous_hash,
            nonce: 0,
            hash: digest_text(index, timestamp, data, previous_hash, 0),
        }
    }

    /// The record with another nonce and the digest that goes with it.
    pub open spec fn with_nonce(self, nonce: u64) -> BlockView {
        BlockView {
            nonce,
            hash: digest_text(self.index, self.timestamp, self.data, self.previous_hash, nonce),
            ..self
        }
    }
}

impl Block {
    /// Makes a record stamped with the current time, with nonce zero and its
    /// digest computed. The timestamp is whatever the clock gave; where the
    /// clock stands before the epoch there is no timestamp and no record.
    pub fn new(index: u32, data: String, previous_hash: String) -> (block: Option<Block>)
        ensures
            block matches Some(made) ==> made@ == BlockView::fresh(
                index,
                made@.timestamp,
                data@,
                previous_hash@,
            ),
    {
        let reading = now();
        match reading {
            Some(_) => Some(
                Block::with_timestamp(index, timestamp_of_reading(reading), data, previous_hash),
            ),
            None => None,
        }
    }

    /// Makes a record with the given timestamp, nonce zero and its digest
    /// computed.
    pub fn with_timestamp(
        index: u32,
        timestamp: u64,
        data: String,
        previous_hash: String,
    ) -> (block: Block)
        ensures
            block@ == BlockView::fresh(index, timestamp, data@, previous_hash@),
    {
        let hash = digest(index, timestamp, data.as_str(), previous_hash.as_str(), 0);
        Block { index, timestamp, data, previous_hash, nonce: 0, hash }
    }

    /// Recomputes the digest from the record's fields. The stored `hash` is
    /// neither read nor changed.
    pub fn calculate_hash(&self) -> (hash: String)
        ensures
            hash@ == self@.digest(),
            hash@.len() == 64,
            forall|i: int| 0 <= i < 64 ==> is_lower_hex(#[trigger] hash@[i]),
    {
        digest(
            self.index,
            self.timestamp,
            self.data.as_str(),
            self.previous_hash.as_str(),
            self.nonce,
        )
    }

    /// Installs `nonce` and recomputes the stored digest.
    pub fn set_nonce(&mut self, nonce: u64)
        ensures
            final(self)@ == old(self)@.with_nonce(nonce),
    {
        self.nonce = nonce;
        self.hash = self.calculate_hash();
    }

    /// Tells whether the stored digest starts with at least `difficulty`
    /// characters `'0'`.
    pub fn is_sealed(&self, difficulty: usize) -> (sealed: bool)
        ensures
            sealed == self@.sealed(difficulty as nat),
    {
        let hash = self.hash.as_str();
        if difficulty > hash.unicode_len() {
            return false;
        }
        let mut i: usize = 0;
        while i < difficulty
            invariant
                i <= difficulty <= hash@.len(),
                hash@ == self.hash@,
                forall|k: int| 0 <= k < i ==> hash@[k] == '0',
            decreases difficulty - i,
        {
            if hash.get_char(i) != '0' {
                return false;
            }
            i += 1;
        }
        true
    }
}

/// The digest is a function of the five fields alone: records that agree on
/// index, timestamp, payload, previous digest and nonce have the same digest,
/// whatever else differs.
pub proof fn lemma_digest_deterministic(a: BlockView, b: BlockView)
    requires
        a.index == b.index,
        a.timestamp == b.timestamp,
        a.data == b.data,
        a.previous_hash == b.previous_hash,
        a.nonce == b.nonce,
    ensures
        a.digest() == b.digest(),
{
}

/// Every digest meets difficulty zero.
pub proof fn lemma_zero_difficulty(hash: Seq<char>)
    ensures
        has_leading_zeros(hash, 0),
{
}

} // verus!
