//! Log search over a document search backend: query parameters with their
//! defaults, the backend query document built from them, and the mapping of
//! backend hits into the response reported to clients.

pub mod common;
pub mod services;
pub mod views;
