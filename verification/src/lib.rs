//! Type adaptation, error taxonomy and the connection/cursor protocol of a
//! driver for an embedded SQL engine.
//!
//! - `calendar`: the proleptic Gregorian calendar, and Unix timestamps in it.
//! - `text`: the text in which numbers, dates and times are written.
//! - `chrono_api`: the calls into `chrono` and `chrono_tz`, each with the
//!   contract that the rest of the library builds on.
//! - `zone`: time zones, and what a local time resolves to.
//! - `error`: the kinds of error, and the mapping of engine failures.
//! - `types`: dates, times, timestamps and binary data as SQL parameters.
//! - `stored`: reading a stored timestamp back.
//! - `params`: the parameters of a statement, bound in order.
//! - `connection`, `cursor`, `rows`: the state of a connection and of a
//!   cursor, the protocol of `execute`, and the shape of rows.
//! - `laws`: what holds of all of these for every input.

pub mod calendar;
pub mod chrono_api;
pub mod connection;
pub mod cursor;
pub mod error;
pub mod laws;
pub mod params;
pub mod rows;
pub mod stored;
pub mod text;
pub mod types;
pub mod zone;

use vstd::prelude::*;

verus! {

/// The level of the database interface that the driver follows.
pub const APILEVEL: &'static str = "2.0";

/// How far threads may share the driver: not at all, not even the module.
pub const THREADSAFETY: u8 = 0;

/// The style of the parameter markers: a question mark for each, bound by
/// position.
pub const PARAMSTYLE: &'static str = "qmark";

} // verus!
