//! A cluster's namespaces and pods as a read-only tree of inodes.
//!
//! The crate holds the filesystem's core: how a resource gets its inode,
//! the store that maps inodes to resources and directories to their
//! children, and the translation of each filesystem request into a reply
//! value. Listing the cluster and talking to the kernel are left to the
//! caller, which hands listings in and carries replies out.

pub mod laws;
pub mod protocol;
pub mod resource;
pub mod store;
pub mod tree;
