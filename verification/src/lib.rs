//! Core of a self-hosted video gallery: the invalidate-on-write caches in
//! front of the catalog and session queries, and the upload pipeline that
//! turns a received byte stream into a registered video with a thumbnail.
//!
//! Everything here is sequential and free of I/O. The surrounding server
//! performs the file, process and database work that the pipeline asks for
//! and reports back what happened.

pub mod admin;
pub mod assets;
pub mod auth;
pub mod cache;
pub mod coherence;
pub mod drive;
pub mod error;
pub mod extract;
pub mod ids;
pub mod ingest;
pub mod login;
pub mod names;
pub mod response;
pub mod routes;
pub mod sniff;
pub mod text;
pub mod thumbnail;
pub mod world;
