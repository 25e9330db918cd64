//! Staking-reward tax reports: reward timestamps are turned into one-minute
//! price lookups, the exchange's answers are validated, and per-row and total
//! fiat gains are computed with exact decimal arithmetic.
//!
//! Everything in this crate is free of I/O. A caller reads the input text,
//! performs the HTTP requests that [`lookup::Lookup`] asks for, and writes
//! the text that [`output::write_output`] renders.

pub mod decimal;
pub mod input;
pub mod lookup;
pub mod output;
pub mod price;
pub mod report;
pub mod text;
pub mod time;
