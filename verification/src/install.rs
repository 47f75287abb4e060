//! The nested-archive installer.  A gem archive is an outer, uncompressed
//! tar stream whose entries are matched by exact name: the gzipped metadata
//! descriptor is written under `specifications/`, the gzipped inner data tar
//! is unpacked under `gems/<name>-<version>/`, checksum and signature
//! entries are recognized but intentionally not validated, and anything else
//! is skipped.  Entry paths of the inner archive are rejected unless they
//! stay inside the install root.

use vstd::prelude::*;

use crate::error::Error;
use crate::fsio::{create_dir_all, write_file};
use crate::paths::{join_paths, join_spec, parent_path};
use crate::strutil::{concat_str, str_eq};

verus! {

/// One entry of a tar archive, as plain values: its path inside the archive
/// and its raw contents.
#[derive(Debug, Clone)]
pub struct TarEntry {
    /// The entry's path inside the archive.
    pub path: String,
    /// The entry's raw bytes.
    pub data: Vec<u8>,
}

/// What a parse of a tar stream yields: its entries as (path, contents)
/// pairs, or nothing where the stream is malformed.
pub uninterp spec fn tar_entries_of(bytes: Seq<u8>) -> Option<Seq<(Seq<char>, Seq<u8>)>>;

/// Relies on tar::Archive::entries and tar::Entry::path: every entry of the
/// archive `bytes`, with its path and contents read out as plain values.
/// An entry name that is not UTF-8 is an error on every platform, so the
/// named result depends on the bytes alone.
#[verifier::external_body]
pub fn tar_entries(bytes: &[u8]) -> (r: Result<Vec<TarEntry>, std::io::Error>)
    ensures
        match r {
            Ok(v) => tar_entries_of(bytes@) == Some(
                v@.map_values(|e: TarEntry| (e.path@, e.data@)),
            ),
            Err(_) => tar_entries_of(bytes@) is None,
        },
{
    let mut out = Vec::new();
    let mut archive = tar::Archive::new(std::io::Cursor::new(bytes));
    for entry in archive.entries()? {
        let mut entry = entry?;
        let raw = entry.path()?;
        let path = raw
            .to_str()
            .ok_or(std::io::Error::new(std::io::ErrorKind::InvalidData, "Invalid UTF-8 path"))?
            .to_owned();
        let mut data = Vec::new();
        std::io::Read::read_to_end(&mut entry, &mut data)?;
        out.push(TarEntry { path, data });
    }
    Ok(out)
}

/// What decompressing a gzip stream yields, or nothing where the stream is
/// malformed.
pub uninterp spec fn gunzip_of(bytes: Seq<u8>) -> Option<Seq<u8>>;

/// Relies on flate2::read::GzDecoder: the decompressed form of `bytes`.
#[verifier::external_body]
pub fn gunzip(bytes: &[u8]) -> (r: Result<Vec<u8>, std::io::Error>)
    ensures
        match r {
            Ok(v) => gunzip_of(bytes@) == Some(v@),
            Err(_) => gunzip_of(bytes@) is None,
        },
{
    let mut decoder = flate2::read::GzDecoder::new(bytes);
    let mut out = Vec::new();
    std::io::Read::read_to_end(&mut decoder, &mut out)?;
    Ok(out)
}

/// How the installer treats an outer archive entry, matched by exact name.
#[derive(Debug, Clone, Copy, PartialEq, Eq, Structural)]
pub enum EntryKind {
    /// `metadata.gz`: the gzipped gemspec descriptor.
    Metadata,
    /// `data.tar.gz`: the gzipped inner data archive.
    DataArchive,
    /// `checksums.yaml.gz`: recognized, intentionally not validated.
    Checksums,
    /// A `.sig` variant: recognized, intentionally not validated.
    Signature,
    /// Anything else: non-fatal, skipped.
    Unknown,
}

/// The classification of an outer archive entry name.
pub open spec fn classify_spec(name: Seq<char>) -> EntryKind {
    if name == "metadata.gz"@ {
        EntryKind::Metadata
    } else if name == "data.tar.gz"@ {
        EntryKind::DataArchive
    } else if name == "checksums.yaml.gz"@ {
        EntryKind::Checksums
    } else if name == "data.tar.gz.sig"@ || name == "metadata.gz.sig"@ || name
        == "checksums.yaml.gz.sig"@ {
        EntryKind::Signature
    } else {
        EntryKind::Unknown
    }
}

/// Classify an outer archive entry by its exact name.
pub fn classify_entry(name: &str) -> (r: EntryKind)
    ensures
        r == classify_spec(name@),
{
    if str_eq(name, "metadata.gz") {
        EntryKind::Metadata
    } else if str_eq(name, "data.tar.gz") {
        EntryKind::DataArchive
    } else if str_eq(name, "checksums.yaml.gz") {
        EntryKind::Checksums
    } else if str_eq(name, "data.tar.gz.sig") || str_eq(name, "metadata.gz.sig") || str_eq(
        name,
        "checksums.yaml.gz.sig",
    ) {
        EntryKind::Signature
    } else {
        EntryKind::Unknown
    }
}

/// Whether a `..` component starts at index `i` of `p`.
pub open spec fn dotdot_at(p: Seq<char>, i: int) -> bool {
    &&& 0 <= i
    &&& i + 2 <= p.len()
    &&& p[i] == '.'
    &&& p[i + 1] == '.'
    &&& (i == 0 || p[i - 1] == '/')
    &&& (i + 2 == p.len() || p[i + 2] == '/')
}

/// Whether an archive entry path is safe to join under the install root:
/// nonempty, relative, and free of `..` components.
pub open spec fn safe_entry_path(p: Seq<char>) -> bool {
    &&& p.len() > 0
    &&& p[0] != '/'
    &&& !(exists|i: int| dotdot_at(p, i))
}

/// Check that an archive entry path cannot escape the install root.
pub fn is_safe_entry_path(p: &str) -> (r: bool)
    ensures
        r == safe_entry_path(p@),
{
    let n = p.unicode_len();
    if n == 0 {
        return false;
    }
    if p.get_char(0) == '/' {
        return false;
    }
    let mut i: usize = 0;
    while i < n
        invariant
            n == p@.len(),
            i <= n,
            forall|j: int| j < i ==> !dotdot_at(p@, j),
        decreases n - i,
    {
        let at_boundary = i == 0 || p.get_char(i - 1) == '/';
        if at_boundary && i + 1 < n && p.get_char(i) == '.' && p.get_char(i + 1) == '.' && (i + 2
            == n || p.get_char(i + 2) == '/') {
            proof {
                assert(dotdot_at(p@, i as int));
            }
            return false;
        }
        proof {
            assert(!dotdot_at(p@, i as int));
        }
        i += 1;
    }
    proof {
        assert forall|j: int| !dotdot_at(p@, j) by {
            if j >= n {
                assert(!dotdot_at(p@, j));
            }
        }
    }
    true
}

/// `<name>-<version>`, the directory and descriptor stem of a package.
pub fn name_version(name: &str, version: &str) -> (r: String)
    ensures
        r@ == name@ + "-"@ + version@,
{
    let mut s = String::from_str(name);
    s.append("-");
    s.append(version);
    s
}

/// Where the decompressed metadata descriptor of a package is written:
/// `<root>/specifications/<name>-<version>.gemspec`.
pub open spec fn metadata_dest_spec(root: Seq<char>, nameversion: Seq<char>) -> Seq<char> {
    join_spec(join_spec(root, "specifications"@), nameversion + ".gemspec"@)
}

/// Where the inner data archive of a package is unpacked:
/// `<root>/gems/<name>-<version>`.
pub open spec fn data_dir_spec(root: Seq<char>, nameversion: Seq<char>) -> Seq<char> {
    join_spec(join_spec(root, "gems"@), nameversion)
}

/// Whether the installer writes anything for an outer entry of this name:
/// only the metadata descriptor and the inner data archive do.
pub open spec fn entry_writes(name: Seq<char>) -> bool {
    classify_spec(name) == EntryKind::Metadata || classify_spec(name) == EntryKind::DataArchive
}

/// Whether no entry of the archive asks the installer to write anything.
pub open spec fn writes_nothing(entries: Seq<(Seq<char>, Seq<u8>)>) -> bool {
    forall|k: int| 0 <= k < entries.len() ==> !entry_writes(#[trigger] entries[k].0)
}

/// Whether unpacking this archive has nothing to write: the outer stream
/// parses, and every entry of it is skipped.
pub open spec fn archive_skippable(contents: Seq<u8>) -> bool {
    tar_entries_of(contents) matches Some(es) && writes_nothing(es)
}

/// Whether an outer entry is the inner data archive and carries, once
/// decompressed and parsed, an entry whose path would escape the install
/// root.
pub open spec fn data_entry_escapes(name: Seq<char>, data: Seq<u8>) -> bool {
    &&& classify_spec(name) == EntryKind::DataArchive
    &&& gunzip_of(data) matches Some(ib) && tar_entries_of(ib) matches Some(inner) && (exists|
        m: int,
    | 0 <= m < inner.len() && !safe_entry_path(#[trigger] inner[m].0))
}

/// Unpack one fetched gem archive into the install root.
///
/// The outer stream's entries are dispatched by [`classify_entry`]; the
/// metadata descriptor and every inner data entry are written under the
/// paths [`metadata_dest_spec`] and [`data_dir_spec`] describe, creating
/// intermediate directories lazily.  An inner entry whose path would escape
/// the install root aborts with [`Error::InvalidTarballPath`]; an unknown
/// outer entry is skipped.  A malformed outer stream always fails; a
/// well-formed one whose entries are all skipped always succeeds; one whose
/// data archive hides an escaping path always fails.
pub fn unpack_tarball(contents: &[u8], name: &str, version: &str, install_root: &str) -> (r: Result<
    (),
    Error,
>)
    ensures
        tar_entries_of(contents@) is None ==> r is Err,
        archive_skippable(contents@) ==> r is Ok,
        (tar_entries_of(contents@) matches Some(es) && (exists|k: int|
            0 <= k < es.len() && #[trigger] data_entry_escapes(es[k].0, es[k].1))) ==> r is Err,
{
    let nameversion = name_version(name, version);
    let entries = match tar_entries(contents) {
        Ok(v) => v,
        Err(e) => {
            return Err(Error::Io(e));
        },
    };
    let ghost es = entries@.map_values(|e: TarEntry| (e.path@, e.data@));
    let mut i: usize = 0;
    while i < entries.len()
        invariant
            i <= entries@.len(),
            es == entries@.map_values(|e: TarEntry| (e.path@, e.data@)),
            tar_entries_of(contents@) == Some(es),
            forall|k: int| 0 <= k < i ==> !(#[trigger] data_entry_escapes(es[k].0, es[k].1)),
        decreases entries@.len() - i,
    {
        let entry = &entries[i];
        proof {
            assert(es[i as int] == (entries@[i as int].path@, entries@[i as int].data@));
        }
        match classify_entry(entry.path.as_str()) {
            EntryKind::Metadata => {
                proof {
                    assert(entry_writes(es[i as int].0));
                    assert(!data_entry_escapes(es[i as int].0, es[i as int].1));
                }
                let metadata_dir = join_paths(install_root, "specifications");
                create_dir_all(metadata_dir.as_str())?;
                let filename = concat_str(nameversion.as_str(), ".gemspec");
                let dst = join_paths(metadata_dir.as_str(), filename.as_str());
                let unzipped = gunzip(entry.data.as_slice())?;
                write_file(dst.as_str(), unzipped.as_slice())?;
            },
            EntryKind::DataArchive => {
                proof {
                    assert(entry_writes(es[i as int].0));
                    assert(!writes_nothing(es));
                }
                let data_dir = join_paths(join_paths(install_root, "gems").as_str(),
                    nameversion.as_str());
                create_dir_all(data_dir.as_str())?;
                let inner_bytes = gunzip(entry.data.as_slice())?;
                let inner = tar_entries(inner_bytes.as_slice())?;
                let mut j: usize = 0;
                while j < inner.len()
                    invariant
                        j <= inner@.len(),
                        tar_entries_of(contents@) == Some(es),
                        !writes_nothing(es),
                        gunzip_of(entries@[i as int].data@) == Some(inner_bytes@),
                        tar_entries_of(inner_bytes@) == Some(
                            inner@.map_values(|e: TarEntry| (e.path@, e.data@)),
                        ),
                        forall|m: int| 0 <= m < j ==> safe_entry_path(#[trigger] inner@[m].path@),
                    decreases inner@.len() - j,
                {
                    unpack_inner_entry(data_dir.as_str(), &inner[j])?;
                    proof {
                        assert(safe_entry_path(inner@[j as int].path@));
                    }
                    j += 1;
                }
                proof {
                    let inner_es = inner@.map_values(|e: TarEntry| (e.path@, e.data@));
                    assert forall|m: int| 0 <= m < inner_es.len() implies safe_entry_path(
                        inner_es[m].0,
                    ) by {
                        assert(inner_es[m] == (inner@[m].path@, inner@[m].data@));
                    }
                    assert(!data_entry_escapes(es[i as int].0, es[i as int].1));
                }
            },
            EntryKind::Checksums => {
                proof {
                    assert(!data_entry_escapes(es[i as int].0, es[i as int].1));
                }
            },
            EntryKind::Signature => {
                proof {
                    assert(!data_entry_escapes(es[i as int].0, es[i as int].1));
                }
            },
            EntryKind::Unknown => {
                proof {
                    assert(!data_entry_escapes(es[i as int].0, es[i as int].1));
                }
            },
        }
        i += 1;
    }
    Ok(())
}

/// Unpack every fetched gem into the install root handed over by the
/// external install-path resolver, in submission order.  The first failing
/// unpack aborts the whole run and later downloads are not unpacked.  An
/// empty batch succeeds; a batch whose archives all parse and ask for no
/// writes succeeds; a batch whose first write-bearing archive is preceded
/// only by skippable ones and does not parse fails.
pub fn install_gems(downloaded: Vec<crate::fetch::Downloaded>, bundle_path: &str) -> (r: Result<
    (),
    Error,
>)
    ensures
        downloaded@.len() == 0 ==> r is Ok,
        (forall|k: int|
            0 <= k < downloaded@.len() ==> archive_skippable(
                #[trigger] downloaded@[k].contents@,
            )) ==> r is Ok,
        (exists|k: int|
            0 <= k < downloaded@.len() && tar_entries_of(#[trigger] downloaded@[k].contents@)
                is None && (forall|j: int|
                0 <= j < k ==> archive_skippable(downloaded@[j].contents@))) ==> r is Err,
{
    let mut i: usize = 0;
    while i < downloaded.len()
        invariant
            i <= downloaded@.len(),
            forall|j: int|
                0 <= j < i ==> !(tar_entries_of(#[trigger] downloaded@[j].contents@) is None),
        decreases downloaded@.len() - i,
    {
        let d = &downloaded[i];
        let unpacked = unpack_tarball(
            d.contents.as_slice(),
            d.gem_version.name.as_str(),
            d.gem_version.version.as_str(),
            bundle_path,
        );
        match unpacked {
            Ok(_) => {
                proof {
                    assert(!(tar_entries_of(downloaded@[i as int].contents@) is None));
                }
            },
            Err(e) => {
                proof {
                    assert(!archive_skippable(downloaded@[i as int].contents@));
                }
                return Err(e);
            },
        }
        i += 1;
    }
    Ok(())
}

/// Write one entry of the inner data archive under `data_dir`, creating its
/// parent directories first; a directory entry (a path ending in `/`) only
/// creates the directory.  An unsafe path is rejected.
fn unpack_inner_entry(data_dir: &str, entry: &TarEntry) -> (r: Result<(), Error>)
    ensures
        !safe_entry_path(entry.path@) ==> (r matches Err(Error::InvalidTarballPath(p)) && p@
            == entry.path@),
{
    if !is_safe_entry_path(entry.path.as_str()) {
        return Err(Error::InvalidTarballPath(String::from_str(entry.path.as_str())));
    }
    let dst = join_paths(data_dir, entry.path.as_str());
    let n = entry.path.as_str().unicode_len();
    if entry.path.as_str().get_char(n - 1) == '/' {
        create_dir_all(dst.as_str())?;
        return Ok(());
    }
    let parent = parent_path(dst.as_str());
    if let Some(dir) = parent {
        create_dir_all(dir.as_str())?;
    }
    write_file(dst.as_str(), entry.data.as_slice())?;
    Ok(())
}

} // verus!
