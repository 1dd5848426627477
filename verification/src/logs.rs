//! The lines of the nonce logs and of the metrics log.
//!
//! The library writes no file. It says what each line holds; the driver
//! appends the text to the file.

use crate::decimal::{append_decimal, decimal_text};
use crate::entropy::EntropySource;
use crate::sealing::Sealing;
use vstd::prelude::*;

verus! {

/// A line of a nonce log: the nonce in decimal.
pub open spec fn nonce_line(nonce: u64) -> Seq<char> {
    decimal_text(nonce as nat).push('\n')
}

/// A line that names the source before the nonce, with a comma between.
pub open spec fn tagged_nonce_line(source: Seq<char>, nonce: u64) -> Seq<char> {
    (source.push(',') + decimal_text(nonce as nat)).push('\n')
}

/// One tagged line for each nonce, in order.
pub open spec fn tagged_nonce_lines(source: Seq<char>, nonces: Seq<u64>) -> Seq<char>
    decreases nonces.len(),
{
    if nonces.len() == 0 {
        Seq::empty()
    } else {
        tagged_nonce_lines(source, nonces.drop_last()) + tagged_nonce_line(source, nonces.last())
    }
}

/// A line of the metrics log: index, name of the source, number of tries
/// and the time taken, with commas between.
pub open spec fn metrics_line(
    index: u32,
    source: EntropySource,
    iterations: u32,
    duration: Seq<char>,
) -> Seq<char> {
    (((decimal_text(index as nat).push(',') + source.spec_label()).push(',') + decimal_text(
        iterations as nat,
    )).push(',') + duration).push('\n')
}

/// The line that records one tried nonce.
pub fn nonce_entry(nonce: u64) -> (line: String)
    ensures
        line@ == nonce_line(nonce),
{
    let mut line = String::new();
    append_decimal(&mut line, nonce);
    line.append("\n");
    proof {
        reveal_strlit("\n");
    }
    line
}

/// The lines that record `nonces` as drawn from `source`, one line for each
/// nonce, in order.
pub fn nonce_data_entries(nonces: &[u64], source: &str) -> (lines: String)
    ensures
        lines@ == tagged_nonce_lines(source@, nonces@),
{
    let mut lines = String::new();
    let mut i: usize = 0;
    while i < nonces.len()
        invariant
            i <= nonces.len(),
            lines@ == tagged_nonce_lines(source@, nonces@.take(i as int)),
        decreases nonces.len() - i,
    {
        lines.append(source);
        lines.append(",");
        append_decimal(&mut lines, nonces[i]);
        lines.append("\n");
        proof {
            reveal_strlit(",");
            reveal_strlit("\n");
            assert(nonces@.take(i + 1).drop_last() =~= nonces@.take(i as int));
        }
        i += 1;
    }
    assert(nonces@.take(i as int) =~= nonces@);
    lines
}

/// The line that records a sealed record: its index, the source, the number
/// of tries, and `duration` as the driver has written it.
pub fn metrics_entry(
    index: u32,
    source: EntropySource,
    iterations: u32,
    duration: &str,
) -> (line: String)
    ensures
        line@ == metrics_line(index, source, iterations, duration@),
{
    let mut line = String::new();
    append_decimal(&mut line, index as u64);
    line.append(",");
    line.append(source.label());
    line.append(",");
    append_decimal(&mut line, iterations as u64);
    line.append(",");
    line.append(duration);
    line.append("\n");
    proof {
        reveal_strlit(",");
        reveal_strlit("\n");
    }
    line
}

/// The line of the metrics log for the record that `sealing` has sealed:
/// the record's index, the source of the search and its number of tries,
/// with `duration` as the driver has written it.
pub fn sealed_metrics_entry(sealing: &Sealing, duration: &str) -> (line: String)
    ensures
        line@ == metrics_line(
            sealing@.block.index,
            sealing@.source,
            sealing@.iterations,
            duration@,
        ),
{
    metrics_entry(sealing.block.index, sealing.source, sealing.iterations, duration)
}

} // verus!
