//! Planning logic of the compatibility-list updater: it turns the JSON that the
//! issue tracker and the image services answer into the list of issues, the
//! image work to do, the skip list and the statistics file.

pub mod text;
pub mod json;
pub mod config;
pub mod sections;
pub mod issue;
pub mod update;
pub mod codec;
pub mod artwork;
pub mod homebrew;
pub mod stats;
pub mod github;
