//! Policy-guarded access to a file tree: glob-based allow/deny policy
//! evaluation, confined path resolution under a root directory, the
//! decisions of a file-backed principal store, and per-entry metadata.

pub mod authorizor;
pub mod files;
pub mod guards;
pub mod hook;
pub mod meta;
pub mod policy;
pub mod session;
pub mod store;
