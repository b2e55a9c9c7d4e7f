pub mod error;
pub mod fetch;
pub mod launcher;
pub mod paths;
pub mod stash;
