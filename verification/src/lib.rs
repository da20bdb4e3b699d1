//! Request signing for a cloud edge-service API, and the pipeline that
//! archives a zone's exported log segments day by day.
//!
//! The crate computes and decides; it performs no I/O. A caller sends the
//! requests and writes the files, and tells the pipeline what came of it.
//!
//! - `signer` turns an action's payload, a timestamp and credentials into an
//!   authenticated request.
//! - `api` holds the one query that the pipeline sends, and its answer.
//! - `segment` turns a fetched segment into the record that is archived.
//! - `archive` names a day's archive, collects its records and compresses it.
//! - `pipeline` is the state machine of one day.
//! - `calendar`, `clock`, `digest`, `json` and `text` serve the others.
//!
//! The functions are verified with Verus against the contracts they carry.
//! Calls into other crates are confined to small private functions whose
//! contracts are assumed; each of them says so in its documentation.

pub mod api;
pub mod archive;
pub mod calendar;
pub mod clock;
pub mod digest;
pub mod json;
pub mod pipeline;
pub mod segment;
pub mod signer;
pub mod text;
