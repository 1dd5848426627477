//! Where nonce candidates come from.

use rand::Rng;
use vstd::prelude::*;

verus! {

/// Local draws lie below this bound: they are sixteen-bit values.
pub const LOCAL_RANGE: u64 = 65536;

/// How many numbers one request to the remote service asks for.
pub const BATCH_SIZE: usize = 500;

/// The two providers of nonce candidates. One is chosen for each append.
#[derive(Debug, Clone, Copy, PartialEq, Eq, Structural)]
pub enum EntropySource {
    /// The process's own random number generator: never fails, never waits.
    Local,
    /// The pool of numbers fetched from the remote service, used up in the
    /// order of arrival and refilled by a fetch when it runs empty.
    Remote,
}

impl EntropySource {
    /// The name of the source in the metrics log.
    pub open spec fn spec_label(self) -> Seq<char> {
        match self {
            EntropySource::Local => "Classical"@,
            EntropySource::Remote => "Quantum"@,
        }
    }

    /// The file that receives the nonces tried with this source.
    pub open spec fn spec_nonce_log(self) -> Seq<char> {
        match self {
            EntropySource::Local => "classical_nonces.csv"@,
            EntropySource::Remote => "quantum_nonces.csv"@,
        }
    }

    /// The name of the source in the metrics log.
    pub fn label(&self) -> (name: &'static str)
        ensures
            name@ == self.spec_label(),
    {
        match self {
            EntropySource::Local => "Classical",
            EntropySource::Remote => "Quantum",
        }
    }

    /// The file that receives the nonces tried with this source.
    pub fn nonce_log(&self) -> (name: &'static str)
        ensures
            name@ == self.spec_nonce_log(),
    {
        match self {
            EntropySource::Local => "classical_nonces.csv",
            EntropySource::Remote => "quantum_nonces.csv",
        }
    }
}

/// Calls `gen_range` of `rand::Rng` on the thread's generator with the range
/// from zero up to, not including, `bound`. Trusted: the number lies in that
/// range. Which number it is depends on chance. `gen_range` panics on an
/// empty range, which the precondition rules out.
#[verifier::external_body]
fn draw_below(bound: u64) -> (n: u64)
    requires
        bound > 0,
    ensures
        n < bound,
{
    rand::thread_rng().gen_range(0..bound)
}

/// One candidate from the local source.
pub fn local_candidate() -> (n: u64)
    ensures
        n < LOCAL_RANGE,
{
    draw_below(LOCAL_RANGE)
}

/// Draws `batch_size` candidates from the local source.
pub fn generate_classical_random_numbers(batch_size: usize) -> (numbers: Vec<u64>)
    ensures
        numbers@.len() == batch_size,
        forall|i: int| 0 <= i < numbers@.len() ==> numbers@[i] < LOCAL_RANGE,
{
    let mut numbers: Vec<u64> = Vec::new();
    let mut i: usize = 0;
    while i < batch_size
        invariant
            i <= batch_size,
            numbers@.len() == i,
            forall|k: int| 0 <= k < numbers@.len() ==> numbers@[k] < LOCAL_RANGE,
        decreases batch_size - i,
    {
        numbers.push(local_candidate());
        i += 1;
    }
    numbers
}

} // verus!
