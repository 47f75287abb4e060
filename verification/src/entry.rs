//! Locations inside the cache: a shard is a namespace directory under a
//! bucket, an entry is a concrete file location inside a shard.  Both are
//! plain path values and carry no I/O state.

use vstd::prelude::*;

use crate::paths::{has_parent, join_paths, join_spec, parent_of, parent_path};

verus! {

/// A cache entry: a file location that may or may not exist yet.
#[derive(Debug, Clone)]
pub struct CacheEntry {
    path: String,
}

impl View for CacheEntry {
    type V = Seq<char>;

    closed spec fn view(&self) -> Seq<char> {
        self.path@
    }
}

impl CacheEntry {
    /// An entry for `file` inside the directory `dir`.
    pub fn new(dir: &str, file: &str) -> (r: CacheEntry)
        ensures
            r@ == join_spec(dir@, file@),
    {
        CacheEntry { path: join_paths(dir, file) }
    }

    /// An entry at the given path.
    pub fn from_path(path: &str) -> (r: CacheEntry)
        ensures
            r@ == path@,
    {
        CacheEntry { path: String::from_str(path) }
    }

    /// The shard that owns this entry.
    pub fn shard(&self) -> (r: CacheShard)
        requires
            has_parent(self@),
        ensures
            r@ == parent_of(self@),
    {
        CacheShard { path: self.dir() }
    }

    /// Give up the entry for its path.
    pub fn into_path_buf(self) -> (r: String)
        ensures
            r@ == self@,
    {
        self.path
    }

    /// The path of the entry.
    pub fn path(&self) -> (r: &str)
        ensures
            r@ == self@,
    {
        self.path.as_str()
    }

    /// The entry's parent directory.
    pub fn dir(&self) -> (r: String)
        requires
            has_parent(self@),
        ensures
            r@ == parent_of(self@),
    {
        let p = parent_path(self.path.as_str());
        match p {
            Some(d) => d,
            None => {
                proof {
                    assert(false);
                }
                String::new()
            },
        }
    }

    /// A sibling entry, in the same directory, for the given file name.
    pub fn with_file(&self, file: &str) -> (r: CacheEntry)
        requires
            has_parent(self@),
        ensures
            r@ == join_spec(parent_of(self@), file@),
    {
        let d = self.dir();
        CacheEntry { path: join_paths(d.as_str(), file) }
    }
}

/// A namespace directory inside the cache.
#[derive(Debug, Clone)]
pub struct CacheShard {
    path: String,
}

impl View for CacheShard {
    type V = Seq<char>;

    closed spec fn view(&self) -> Seq<char> {
        self.path@
    }
}

impl CacheShard {
    /// A shard at the given path.
    pub fn from_path(path: &str) -> (r: CacheShard)
        ensures
            r@ == path@,
    {
        CacheShard { path: String::from_str(path) }
    }

    /// An entry for `file` inside this shard.
    pub fn entry(&self, file: &str) -> (r: CacheEntry)
        ensures
            r@ == join_spec(self@, file@),
    {
        CacheEntry::new(self.path.as_str(), file)
    }

    /// A nested shard inside this shard.
    pub fn shard(&self, dir: &str) -> (r: CacheShard)
        ensures
            r@ == join_spec(self@, dir@),
    {
        CacheShard { path: join_paths(self.path.as_str(), dir) }
    }

    /// The path of the shard.
    pub fn as_str(&self) -> (r: &str)
        ensures
            r@ == self@,
    {
        self.path.as_str()
    }

    /// Give up the shard for its path.
    pub fn into_path_buf(self) -> (r: String)
        ensures
            r@ == self@,
    {
        self.path
    }
}

} // verus!
