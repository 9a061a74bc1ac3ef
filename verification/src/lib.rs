//! A private package registry that doubles as a cache of an upstream one.
//!
//! The library holds the decisions of such a registry, each with its
//! contract: what a record of a crate is ([`entry`], [`package`],
//! [`version`]), how a version is published, yanked and unyanked
//! ([`lifecycle`]), how a record is changed while others change it too
//! ([`mutator`]), when a name is served from the store and when it is read
//! from upstream ([`mirror`], [`reads`], [`shard`]), how an upload is taken
//! apart ([`decoder`], [`digest`], [`lines`]), and who may change anything
//! at all ([`token`], [`auth`]).
//!
//! The store, the network and the clock's owner are not here. Where a
//! decision needs them, it is written as a small machine that says what to
//! ask next and is told what came of it.

pub mod auth;
pub mod catalog;
pub mod content;
pub mod decoder;
pub mod digest;
pub mod entropy;
pub mod entry;
pub mod error;
pub mod lifecycle;
pub mod lines;
pub mod mirror;
pub mod mutator;
pub mod package;
pub mod reads;
pub mod schema;
pub mod shard;
pub mod text;
pub mod time;
pub mod token;
pub mod version;

pub use content::crate_path;
pub use shard::crate_prefix;
