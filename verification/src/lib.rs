//! Search for private projects on a hosting service by name.
//!
//! The crate builds the search address for a name, hands it to a transport
//! that the caller supplies, and turns the JSON text that comes back into a
//! list of project records. JSON text is read by `serde_json`; which documents
//! count as a list of projects, and what each record then holds, is decided
//! here and proved against a mathematical model of a JSON document.

pub mod args;
pub mod error;
pub mod json;
pub mod project;
pub mod request;
pub mod token;
