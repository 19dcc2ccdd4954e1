//! Core model of workers, shards, promises and blob bodies, with verified
//! contracts for the text forms, hashes and conversions they use.

pub mod blobstore;
pub mod ids;
pub mod metadata;
pub mod proto;
pub mod shard;
pub mod template_store;
pub mod text;
pub mod worker;
