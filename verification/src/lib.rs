//! Runs untrusted code in single-use containers and collects what it prints.
//!
//! The crate holds the decisions of one run and leaves the socket to its
//! caller. [`lifecycle`] is the machine that says what is to be done next and
//! takes in how it went. [`docker`] decodes the frames of the daemon's
//! multiplexed stream, [`demux`] routes them to their channels under the
//! output's ceiling, and [`run`] holds the limits, the errors and the decoding
//! of the result. [`api`] shapes the answer for whoever asked. [`json`] and
//! [`text`] hold what is taken on trust from `serde_json` and `std`.

pub mod api;
pub mod demux;
pub mod docker;
pub mod json;
pub mod lifecycle;
pub mod run;
pub mod text;
