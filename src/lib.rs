pub mod laws;
pub mod lines;
pub mod query;
pub mod search;
pub mod text;

pub use lines::split_lines;
pub use query::{matches_all, Query};
pub use search::{render, search, Config, SearchMode};
