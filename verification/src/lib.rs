//! Activity logging for RustBasic applications: a builder for activity
//! records, the row it stores, the record an HTTP request leaves, and the
//! edits that install the activity-log migration and model into a project.

pub mod text;
pub mod scaffold;
pub mod json;
pub mod clock;
pub mod service;
pub mod middleware;
