//! A disk-backed image fetch-and-cache engine for a media-server client.
//!
//! The library covers the acquisition pipeline that decouples display from
//! network transfer: naming cache entries (`key`), the cache store model
//! (`store`), the single-slot completion signal (`channel`), and the
//! concurrency-bounded, retrying fetch coordinator (`coordinator`).
//! Configuration data and the platform directories it is read from live in
//! `config`; plain media metadata records live in `items`.

pub mod channel;
pub mod config;
pub mod coordinator;
pub mod items;
pub mod key;
pub mod store;
