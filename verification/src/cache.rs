//! The cache itself: a root path, persistent or process-lifetime-ephemeral,
//! with bucket/shard/entry addressing, initialization, whole-cache clear and
//! stale-bucket prune.

use vstd::prelude::*;

use crate::bucket::{bucket_name, is_bucket_name, CacheBucket};
use crate::entry::{CacheEntry, CacheShard};
use crate::fsio::{canonicalize, create_dir_all, create_file_exclusive, list_dir, stat,
    temp_dir_create, FsStat};
use crate::paths::{join_paths, join_spec};
use crate::removal::Removal;
use crate::remover::{rm_rf, rm_rf_with, CleanReporter};
use crate::strutil::str_eq;

verus! {

/// The name of the marker file that initialization writes into the root.
pub open spec fn marker_name() -> Seq<char> {
    ".gitignore"@
}

/// Whether `prune` leaves a top-level child of the root alone: only the
/// marker file and recognized bucket directories stay.
pub open spec fn prune_keeps_spec(name: Seq<char>, is_dir: bool) -> bool {
    name == marker_name() || (is_dir && is_bucket_name(name))
}

/// The prune decision for one top-level child of the root.
pub fn prune_keeps(name: &str, is_dir: bool) -> (r: bool)
    ensures
        r == prune_keeps_spec(name@, is_dir),
{
    if str_eq(name, ".gitignore") {
        true
    } else if is_dir {
        crate::bucket::recognized_bucket(name)
    } else {
        false
    }
}

/// The main cache abstraction: a root directory holding one marker file and
/// one versioned directory per recognized bucket.
#[derive(Debug, Clone)]
pub struct Cache {
    /// The cache root directory.
    root: String,
    /// The backing temporary directory of an ephemeral cache.  Shared by
    /// reference count across every handle; the directory is deleted when
    /// the last handle is dropped.
    temp_dir: Option<std::sync::Arc<tempfile::TempDir>>,
}

impl Cache {
    /// The root path of the cache.
    pub closed spec fn spec_root(&self) -> Seq<char> {
        self.root@
    }

    /// Whether the cache is ephemeral.
    pub closed spec fn spec_is_temporary(&self) -> bool {
        self.temp_dir is Some
    }

    /// A persistent cache rooted at `root`.
    pub fn from_path(root: &str) -> (r: Cache)
        ensures
            r.spec_root() == root@,
            !r.spec_is_temporary(),
    {
        Cache { root: String::from_str(root), temp_dir: None }
    }

    /// An ephemeral cache backed by a fresh temporary directory, which lives
    /// until the last handle to this cache is dropped.
    pub fn temp() -> (r: Result<Cache, std::io::Error>)
        ensures
            r matches Ok(c) ==> c.spec_is_temporary(),
    {
        let (dir, path) = match temp_dir_create() {
            Ok(p) => p,
            Err(e) => {
                return Err(e);
            },
        };
        Ok(Cache { root: path, temp_dir: Some(dir) })
    }

    /// The root of the cache.
    pub fn root(&self) -> (r: &str)
        ensures
            r@ == self.spec_root(),
    {
        self.root.as_str()
    }

    /// The directory of a bucket: `<root>/<bucket>-v<N>`.
    pub fn bucket(&self, cache_bucket: CacheBucket) -> (r: String)
        ensures
            r@ == join_spec(self.spec_root(), bucket_name(cache_bucket)),
    {
        join_paths(self.root.as_str(), cache_bucket.to_str())
    }

    /// The shard `dir` inside a bucket: `<root>/<bucket>/<dir>`.
    pub fn shard(&self, cache_bucket: CacheBucket, dir: &str) -> (r: CacheShard)
        ensures
            r@ == join_spec(join_spec(self.spec_root(), bucket_name(cache_bucket)), dir@),
    {
        let b = self.bucket(cache_bucket);
        CacheShard::from_path(join_paths(b.as_str(), dir).as_str())
    }

    /// The entry `file` in the shard `dir` of a bucket:
    /// `<root>/<bucket>/<dir>/<file>`.
    pub fn entry(&self, cache_bucket: CacheBucket, dir: &str, file: &str) -> (r: CacheEntry)
        ensures
            r@ == join_spec(
                join_spec(join_spec(self.spec_root(), bucket_name(cache_bucket)), dir@),
                file@,
            ),
    {
        let b = self.bucket(cache_bucket);
        CacheEntry::new(join_paths(b.as_str(), dir).as_str(), file)
    }

    /// Whether the cache is ephemeral.
    pub fn is_temporary(&self) -> (r: bool)
        ensures
            r == self.spec_is_temporary(),
    {
        self.temp_dir.is_some()
    }

    /// Initialize the cache: create the root if missing, write the marker
    /// file (`.gitignore` holding `*`) only if absent, and canonicalize the
    /// root.  Idempotent: a second call neither fails nor rewrites an
    /// existing marker.
    pub fn init(self) -> (r: Result<Cache, std::io::Error>)
        ensures
            r matches Ok(c) ==> c.spec_is_temporary() == self.spec_is_temporary(),
    {
        create_dir_all(self.root.as_str())?;
        let marker = join_paths(self.root.as_str(), ".gitignore");
        create_file_exclusive(marker.as_str(), "*".as_bytes())?;
        let root = canonicalize(self.root.as_str())?;
        Ok(Cache { root, temp_dir: self.temp_dir })
    }

    /// Clear the cache: remove the whole root, marker included, reporting
    /// each removed object and one completion to `reporter`.
    pub fn clear<R: CleanReporter>(&self, reporter: Box<R>) -> (r: Result<
        Removal,
        std::io::Error,
    >)
    {
        rm_rf_with(self.root.as_str(), &*reporter)
    }

    /// Single-level structural garbage collection: remove every top-level
    /// child of the root that [`prune_keeps`] rejects — unrecognized
    /// directories (orphaned buckets of an earlier on-disk format) and stray
    /// files other than the marker.  Recognized buckets are not descended
    /// into.  Any I/O failure aborts the whole call.
    pub fn prune(&self) -> (r: Result<Removal, std::io::Error>)
    {
        let mut summary = Removal::empty();
        let names = list_dir(self.root.as_str())?;
        let mut i: usize = 0;
        while i < names.len()
            invariant
                i <= names@.len(),
            decreases names@.len() - i,
        {
            let name = &names[i];
            let path = join_paths(self.root.as_str(), name.as_str());
            let is_dir = match stat(path.as_str())? {
                FsStat::Dir => true,
                _ => false,
            };
            if !prune_keeps(name.as_str(), is_dir) {
                let removed = rm_rf(path.as_str())?;
                summary.combine_assign(removed);
            }
            i += 1;
        }
        Ok(summary)
    }
}

} // verus!
