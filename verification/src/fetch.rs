//! Acquisition of gem archives: composing the download URL of a package
//! record, addressing its cache entry by a digest of that URL, and the
//! cache-aside read and write around the network fetch.  The network call
//! itself is asynchronous I/O and lives with the driver; everything decided
//! around it is here.

use vstd::prelude::*;

use crate::bucket::{bucket_name, CacheBucket};
use crate::cache::Cache;
use crate::digest::{cache_digest, digest_spec};
use crate::error::Error;
use crate::fsio::{create_dir_all, path_exists, read_file, write_file};
use crate::paths::{join_spec, parent_path};
use crate::strutil::concat_str;

verus! {

/// The ceiling on concurrently fetched source sections, independent of user
/// configuration.
pub const OUTER_CONCURRENT_SOURCES: usize = 10;

/// The default ceiling on concurrently fetched package records per source.
pub const DEFAULT_MAX_CONCURRENT_REQUESTS: usize = 10;

/// Options of the acquisition run.
#[derive(Debug, Clone, Copy)]
pub struct CiArgs {
    /// Maximum number of downloads that can be in flight at once.
    pub max_concurrent_requests: usize,
}

impl Default for CiArgs {
    fn default() -> (r: CiArgs)
        ensures
            r.max_concurrent_requests == DEFAULT_MAX_CONCURRENT_REQUESTS,
    {
        CiArgs { max_concurrent_requests: DEFAULT_MAX_CONCURRENT_REQUESTS }
    }
}

/// One package record of the manifest: a name and an exact version.
#[derive(Debug, Clone)]
pub struct GemVersion {
    /// The package name.
    pub name: String,
    /// The resolved version.
    pub version: String,
}

/// One source section of the manifest: a remote plus its package records.
#[derive(Debug, Clone)]
pub struct GemSection {
    /// The base URL of the source.
    pub remote: String,
    /// The package records served by this source.
    pub records: Vec<GemVersion>,
}

/// The already-resolved manifest, as handed over by the external parser.
#[derive(Debug, Clone)]
pub struct Manifest {
    /// The source sections, in manifest order.
    pub sources: Vec<GemSection>,
}

/// A fetched byte payload paired with its originating package identity,
/// consumed exactly once by the installer.
#[derive(Debug)]
pub struct Downloaded {
    /// The raw bytes of the gem archive.
    pub contents: Vec<u8>,
    /// The package the bytes belong to.
    pub gem_version: GemVersion,
}

/// The request path of a package record relative to its source remote.
pub open spec fn gem_path_spec(name: Seq<char>, version: Seq<char>) -> Seq<char> {
    "gems/"@ + name + "-"@ + version + ".gem"@
}

/// `gems/<name>-<version>.gem`, the path of a record under its remote.
pub fn gem_request_path(name: &str, version: &str) -> (r: String)
    ensures
        r@ == gem_path_spec(name@, version@),
{
    let mut s = String::from_str("gems/");
    s.append(name);
    s.append("-");
    s.append(version);
    s.append(".gem");
    proof {
        assert(s@ =~= gem_path_spec(name@, version@));
    }
    s
}

/// Which of the two URL composition steps failed.
#[derive(Debug, Clone, Copy, PartialEq, Eq, Structural)]
pub enum UrlFault {
    /// The remote itself does not parse as a URL.
    BadBase,
    /// The remote parses, but joining the request path onto it fails.
    BadJoin,
}

/// What resolving `path` against the base URL `remote` yields.
pub uninterp spec fn gem_url_of(remote: Seq<char>, path: Seq<char>) -> Result<Seq<char>, UrlFault>;

/// Relies on url::Url::parse and url::Url::join: the absolute URL of
/// `path` resolved against the base `remote`, which step failed otherwise.
#[verifier::external_body]
fn resolve_url(remote: &str, path: &str) -> (r: Result<String, UrlFault>)
    ensures
        match r {
            Ok(u) => gem_url_of(remote@, path@) == Ok::<Seq<char>, UrlFault>(u@),
            Err(f) => gem_url_of(remote@, path@) == Err::<Seq<char>, UrlFault>(f),
        },
{
    match url::Url::parse(remote) {
        Err(_) => Err(UrlFault::BadBase),
        Ok(base) => match base.join(path) {
            Err(_) => Err(UrlFault::BadJoin),
            Ok(u) => Ok(u.as_str().to_owned()),
        },
    }
}

/// The fully-qualified download URL of a package record: its request path
/// resolved against the source's remote.  An unparsable remote is reported
/// with the offending string; a failing join is a malformed composed URL.
pub fn url_for_spec(remote: &str, gem: &GemVersion) -> (r: Result<String, Error>)
    ensures
        match gem_url_of(remote@, gem_path_spec(gem.name@, gem.version@)) {
            Ok(u) => r matches Ok(s) && s@ == u,
            Err(UrlFault::BadBase) => r matches Err(Error::BadRemote { remote: s }) && s@
                == remote@,
            Err(UrlFault::BadJoin) => r matches Err(Error::UrlError),
        },
{
    let path = gem_request_path(gem.name.as_str(), gem.version.as_str());
    match resolve_url(remote, path.as_str()) {
        Ok(u) => Ok(u),
        Err(UrlFault::BadBase) => Err(Error::BadRemote { remote: String::from_str(remote) }),
        Err(UrlFault::BadJoin) => Err(Error::UrlError),
    }
}

/// Where the download of `url` is cached: the `gems` shard of the gem
/// bucket, keyed by the digest of the URL, with the `.gem` extension.
pub open spec fn gem_cache_path_spec(root: Seq<char>, url: Seq<char>) -> Seq<char> {
    join_spec(
        join_spec(join_spec(root, bucket_name(CacheBucket::Gem)), "gems"@),
        digest_spec(url) + ".gem"@,
    )
}

/// The cache entry path of a download URL.
pub fn gem_cache_path(cache: &Cache, url: &str) -> (r: String)
    ensures
        r@ == gem_cache_path_spec(cache.spec_root(), url@),
{
    let shard = cache.shard(CacheBucket::Gem, "gems");
    let key = cache_digest(url);
    let file = concat_str(key.as_str(), ".gem");
    shard.entry(file.as_str()).into_path_buf()
}

/// The cache-aside read: the full contents of the cache entry if it exists,
/// `None` if it does not (the caller must then fetch and store).  No
/// integrity re-check is performed on a hit.
pub fn lookup_gem(cache_path: &str) -> (r: Result<Option<Vec<u8>>, std::io::Error>) {
    if path_exists(cache_path) {
        let data = read_file(cache_path)?;
        Ok(Some(data))
    } else {
        Ok(None)
    }
}

/// The cache-aside write: create any missing ancestor directories of the
/// entry and write the fetched bytes verbatim.
pub fn store_gem(cache_path: &str, contents: &[u8]) -> (r: Result<(), std::io::Error>) {
    let parent = parent_path(cache_path);
    if let Some(dir) = parent {
        create_dir_all(dir.as_str())?;
    }
    write_file(cache_path, contents)
}

} // verus!
