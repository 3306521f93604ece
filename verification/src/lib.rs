//! A remote build-cache gateway core: artifact blobs are addressed by a
//! `(team, artifact id)` pair, guarded by a shared-secret bearer token, and
//! stored through an interchangeable storage backend.
//!
//! This crate holds the verified core: storage-key derivation with its
//! parameter-precedence policy, the authentication guard, the artifact
//! service semantics, and the in-memory storage backend. The HTTP boundary
//! and the cloud/filesystem backends are asynchronous I/O and live in the
//! embedding application, which drives them with the decisions made here.

pub mod auth;
pub mod config;
pub mod handlers;
pub mod helpers;
pub mod laws;
pub mod storage;
pub mod turborepo;
