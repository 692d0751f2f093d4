//! Resolving the source of a recording: a local path is taken as it is, a
//! URL is fetched into a temporary file, following one link of a landing
//! page where the server answers with HTML.

pub mod content;
pub mod error;
pub mod fetch;
pub mod link;
pub mod resolve;
pub mod text;
pub mod worker;

pub use resolve::get_local_path;
pub use worker::JoinHandle;
