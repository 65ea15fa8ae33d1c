//! Decision logic of a price poller: on a fixed cadence it asks a quote API for
//! the buy, sell and spot price of one asset, joins the three answers into one
//! record and hands the record, as a line-protocol line, to a time-series sink.
//!
//! The library performs no network traffic itself. Its caller runs the
//! requests; every rule that says what is requested, what is emitted and when
//! the poller stops lives here, with a contract.

pub mod aggregate;
pub mod clock;
pub mod decimal;
pub mod error;
pub mod poller;
pub mod price_type;
pub mod quote;
pub mod record;
pub mod request;
pub mod schedule;
pub mod settings;
pub mod sink;
