//! Resolves a repository reference (a URL or a `provider/owner/repo`
//! shorthand) to a workspace directory under a base directory, deciding when
//! to clone and what to clean up when a clone fails.

pub mod text;
pub mod locator;
pub mod reference;
pub mod workspace;
pub mod cli;
