//! The decisions of a file search server.
pub mod fields;
pub mod find;
pub mod grep;
pub mod multi_grep;
pub mod number;
pub mod options;
pub mod params;
pub mod paths;
pub mod query;
pub mod server;
pub mod text;
pub mod walk;
