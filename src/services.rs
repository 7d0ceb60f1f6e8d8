pub mod query;
pub mod search;
