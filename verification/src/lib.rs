//! A typed, transport-free client core for the Todoist REST API: it builds the
//! requests for the fixed resource endpoints, renders listing parameters into
//! query strings, and turns what the server answered into typed records.

pub mod api;
pub mod label;
pub mod params;
pub mod project;
pub mod section;
pub mod task;
pub mod text;
pub mod todoist_date_format;
pub mod urls;
