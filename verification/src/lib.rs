//! Repository registry of a page server.
//!
//! A page server reconstructs database pages from write-ahead log records and
//! stored page images. Everything that serves pages works on one repository,
//! which is built once, at startup, from the server's configuration. This
//! crate holds the part that decides which repository is built and that keeps
//! the shared handle to it.

pub mod config;
pub mod page_cache;
pub mod repository;
