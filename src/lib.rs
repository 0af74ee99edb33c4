//! Client-side access to an Esplora block-explorer HTTP API: the retry
//! policy, the retry state machine, the response decoders and the client
//! configuration, each with its contract. Sending requests and pausing are
//! left to the caller, which hands each reply to the library.
pub mod chain;
pub mod client;
pub mod decode;
pub mod endpoints;
pub mod error;
pub mod hex;
pub mod policy;
pub mod retry;

pub use client::{AsyncClient, Builder, DefaultSleeper};
pub use decode::{check_status, optional, read_optional_response, read_response, Payload, Strategy};
pub use error::Error;
pub use policy::{backoff_delay_millis, is_status_retryable, BASE_BACKOFF_MILLIS, DEFAULT_MAX_RETRIES};
pub use retry::{run_retries, Reply, RetryState, RetryStep, RunOutcome};
