//! A minimal content-addressed object store in the style of a version-control
//! backing store: objects are typed byte payloads, encoded in a canonical
//! `name length\0content` record, addressed by the SHA-1 digest of that
//! record, compressed with zlib, and placed under a repository's metadata
//! directory.

pub mod commands;
pub mod compression;
pub mod config;
pub mod decimal;
pub mod decoding;
pub mod encoding;
pub mod git_object;
pub mod hashing;
pub mod sorted_dict;
pub mod store;
pub mod git_repository;
