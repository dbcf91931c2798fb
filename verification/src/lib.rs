//! Inspect ZIP archives held in memory: list entry names in
//! central-directory order, look an entry up by name, and read one
//! entry's decompressed bytes, with the archive parsing itself done by
//! the `zip` crate behind a small trusted boundary.

pub mod archive;
pub mod backend;
pub mod directory;
pub mod messages;
pub mod model;

pub use archive::Archive;
pub use archive::ArchiveError;
pub use archive::CatError;
