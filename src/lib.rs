//! Permanent links to a file in a Git repository, on the service that hosts
//! the repository's remote.
//!
//! `reference` finds the position that HEAD stands for (a branch of the
//! remote, a tag or a commit), `repo` reads what that needs from a
//! repository, and `link` turns a remote's URL, a position, a path and a
//! range of lines into a link, with the formats of `services`.

pub mod text;
pub mod services;
pub mod reference;
pub mod link;
pub mod repo;
