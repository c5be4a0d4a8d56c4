//! Stock-quote retrieval core: turns what a market-data provider hands back
//! into canonical quote records and into the reply an HTTP endpoint sends.
//!
//! The crate performs no I/O. A caller asks the provider itself, passes the
//! provider's reply in, and sends out the [`response::Response`] it gets back.

pub mod quote;
pub mod timestamp;
pub mod normalize;
pub mod error;
pub mod provider;
pub mod retrieval;
pub mod response;
