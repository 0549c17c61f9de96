//! Automates a study platform's internal web API: it resolves the signed
//! content of a course section, fabricates a plausible completed-session
//! report for each content item, and prepares every request the
//! surrounding program sends. The synthesis of identifiers and timestamp
//! schedules, the course-URL fingerprint extraction, the report payloads,
//! the reply interpretation and the assignment selection rules all live
//! here, each under a contract; the surrounding program only prompts,
//! moves bytes and performs the HTTP calls.

pub mod client;
pub mod extract;
pub mod hex;
pub mod keys;
pub mod report;
pub mod select;
pub mod strutil;
pub mod times;
