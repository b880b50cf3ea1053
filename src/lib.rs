//! A remote object store adapter for S3-compatible storage, with its
//! decisions (how a listing prefix is split, which byte range a read asks
//! for, how a provider's answer becomes a result) stated and proved.

pub mod config;
pub mod counter;
pub mod error;
pub mod path;
pub mod range;
pub mod reader;
pub mod store;
