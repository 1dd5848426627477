//! An append-only, hash-linked ledger of text records sealed by proof of work.
//!
//! Every record after the genesis record carries a nonce that makes its
//! SHA-256 digest start with a required number of `'0'` characters. Nonce
//! candidates come either from a local generator or from a pool of numbers
//! fetched in batches from a remote entropy service.
//!
//! The library decides and computes; it performs no input or output. A
//! driver runs the sealing loop: it calls [`Blockchain::proof_of_work`],
//! carries out the [`SealAction`] it gets back (write a nonce to a log, fetch
//! a batch), and reports the outcome as the next [`SealEvent`]. Once the
//! record is sealed, the driver writes its line of the metrics log and hands
//! the outcome to [`Blockchain::finish_sealing`], which adds the record.

pub mod block;
pub mod chain;
pub mod clock;
pub mod decimal;
pub mod digest;
pub mod engine;
pub mod entropy;
pub mod error;
pub mod hex;
pub mod limiter;
pub mod logs;
pub mod remote;
pub mod sealing;

pub use block::{Block, BlockView};
pub use chain::{Blockchain, ChainView};
pub use clock::now;
pub use entropy::{generate_classical_random_numbers, EntropySource};
pub use error::SealError;
pub use limiter::{FetchPermit, RateLimiter};
pub use logs::{metrics_entry, nonce_data_entries, nonce_entry, sealed_metrics_entry};
pub use remote::{entropy_request_url, parse_entropy_reply};
pub use sealing::{SealAction, SealEvent, Sealing};
