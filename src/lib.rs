//! Release versioning: classify commit messages as Conventional Commits,
//! resolve the bump level they imply, compute the next semantic version and
//! render release notes.

pub mod changelog;
pub mod commit;
pub mod release;
pub mod tag;
pub mod text;
pub mod version;
