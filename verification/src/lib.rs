pub mod document;
pub mod engine;
pub mod error;
pub mod report;
pub mod schema;
pub mod version;
pub mod util;
pub mod cli;
pub mod completions;
