//! Self-trade prevention, errors and metrics of a limit order book.
//!
//! - [`stp`] decides how a match goes on at a price level that holds orders of
//!   the taker's own user.
//! - [`error`] holds the errors of the book and of the book manager, with
//!   their messages.
//! - [`metrics`] decides which counters and gauges an event of the book
//!   updates.
//! - [`order`], [`price_level`] and [`reject_reason`] hold the values these
//!   speak of, [`level`] reads the orders of the matching engine, [`text`]
//!   writes numbers, and [`debug`] stands before the formatters of `std`.

pub mod debug;
pub mod error;
pub mod level;
pub mod metrics;
pub mod order;
pub mod price_level;
pub mod reject_reason;
pub mod stp;
pub mod text;
