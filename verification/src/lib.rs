//! Quote retrieval for a remote market-data endpoint, written without I/O.
//!
//! The crate decides; its caller performs. [`fetch::QuoteFetch`] is the
//! state machine of one fetch: it says which cache lookup, network request or
//! credential operation comes next, and is told what came back. [`request`]
//! builds the URL that a fetch asks for, [`error`] maps a status to its error,
//! and [`run`] proves what holds of every run of the machine. The functions
//! of [`quotes`] and [`quote`] turn a delivered body into wire records, raw
//! documents or a normalized [`quote::Quote`].

pub mod error;
pub mod fetch;
pub mod json;
pub mod quote;
pub mod quotes;
pub mod request;
pub mod run;
pub mod text;
