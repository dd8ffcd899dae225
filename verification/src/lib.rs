//! Snippet manager core: the snippet store with identifier recycling,
//! substring search over names and tags, the selection cursor of the
//! filtered list, and the modal input machine that ties them together.

pub mod app;
pub mod config;
pub mod indent;
pub mod keys;
pub mod layout;
pub mod list;
pub mod machine;
pub mod search;
pub mod snippet;
pub mod store;
pub mod text;

pub use config::SnippyConfig;
pub use list::StatefulList;
