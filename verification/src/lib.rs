//! Content-addressed cache backend for a package manager: path addressing,
//! removal accounting and garbage collection over the cache root, a
//! bounded-concurrency fetch scheduler, and a nested-archive installer.

use vstd::prelude::*;

pub mod bucket;
pub mod cache;
pub mod digest;
pub mod error;
pub mod entry;
pub mod fetch;
pub mod fsio;
pub mod install;
pub mod paths;
pub mod removal;
pub mod remover;
pub mod sched;
pub mod strutil;

pub use bucket::CacheBucket;
pub use cache::Cache;
pub use digest::cache_digest;
pub use entry::{CacheEntry, CacheShard};
pub use error::Error;
pub use fetch::{CiArgs, Downloaded, GemSection, GemVersion, Manifest};
pub use removal::Removal;
pub use remover::{rm_rf, CleanReporter, NoReporter};

verus! {

} // verus!
