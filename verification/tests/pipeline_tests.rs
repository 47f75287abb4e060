use rv_core::cache::prune_keeps;
use rv_core::cache_digest;
use rv_core::fetch::{gem_cache_path, gem_request_path, lookup_gem, store_gem, url_for_spec,
    CiArgs, GemVersion, DEFAULT_MAX_CONCURRENT_REQUESTS, OUTER_CONCURRENT_SOURCES};
use rv_core::install::{classify_entry, install_gems, is_safe_entry_path, name_version,
    unpack_tarball, EntryKind};
use rv_core::paths::{join_paths, parent_path};
use rv_core::remover::{removal_of_sweep, FsObject};
use rv_core::sched::BoundedBatch;
use rv_core::{rm_rf, Cache, CacheEntry, CacheShard, Downloaded, Error, Removal};

use std::io::Write;

#[test]
fn digest_is_deterministic_and_exact() {
    // FNV-1a 64 of the empty string is the offset basis.
    assert_eq!(cache_digest(""), "cbf29ce484222325");
    // One round over a single character.
    assert_eq!(cache_digest("a"), "af63dc4c8601ec8c");
    // The same URL always keys the same entry.
    assert_eq!(
        cache_digest("https://rubygems.org/gems/demo-1.0.gem"),
        cache_digest("https://rubygems.org/gems/demo-1.0.gem")
    );
    // Different URLs key different entries.
    assert_ne!(
        cache_digest("https://a.example/gems/demo-1.0.gem"),
        cache_digest("https://b.example/gems/demo-1.0.gem")
    );
}

#[test]
fn removal_rendering_edges() {
    assert_eq!(
        Removal::new(0, u64::MAX).to_string(),
        "Removed 18446744073709551615 bytes"
    );
    assert_eq!(Removal::new(1, 1).to_string(), "Removed 1 directories (1 bytes)");
}

#[test]
fn removal_combine_saturates() {
    let sum = Removal::new(u64::MAX, 1).combine(Removal::new(1, u64::MAX));
    assert_eq!(sum.dirs, u64::MAX);
    assert_eq!(sum.bytes, u64::MAX);
}

#[test]
fn removal_combine_identity_and_commutes() {
    let a = Removal::new(7, 900);
    let id = Removal::new(0, 0);
    let left = a.combine(id);
    assert_eq!((left.dirs, left.bytes), (7, 900));
    let right = id.combine(a);
    assert_eq!((right.dirs, right.bytes), (7, 900));
    let b = Removal::new(2, 100);
    let ab = a.combine(b);
    let ba = b.combine(a);
    assert_eq!((ab.dirs, ab.bytes), (ba.dirs, ba.bytes));
}

#[test]
fn sweep_accounting_is_exact() {
    let objects = vec![
        FsObject::File { size: 10 },
        FsObject::Dir,
        FsObject::File { size: 5 },
        FsObject::Dir,
    ];
    let removal = removal_of_sweep(&objects);
    assert_eq!(removal.dirs, 2);
    assert_eq!(removal.bytes, 15);
}

#[test]
fn rm_rf_exact_tree_tally() {
    let temp = tempfile::tempdir().unwrap();
    let root = temp.path().join("tree");
    fs_err::create_dir(&root).unwrap();
    fs_err::write(root.join("a.bin"), [0u8; 8]).unwrap();
    let sub = root.join("sub");
    fs_err::create_dir(&sub).unwrap();
    fs_err::write(sub.join("b.bin"), [0u8; 8]).unwrap();

    let removal = rm_rf(root.to_str().unwrap()).unwrap();
    // Two directories (the root of the tree and `sub`), sixteen bytes.
    assert_eq!(removal.dirs, 2);
    assert_eq!(removal.bytes, 16);
    assert!(!root.exists());
}

#[test]
fn init_twice_never_fails() {
    let temp = tempfile::tempdir().unwrap();
    let root = temp.path().join("cache");
    let root_str = root.to_str().unwrap();
    let cache = Cache::from_path(root_str).init().unwrap();
    let again = Cache::from_path(root_str).init().unwrap();
    assert_eq!(cache.root(), again.root());
    let contents = fs_err::read_to_string(root.join(".gitignore")).unwrap();
    assert_eq!(contents, "*");
}

#[test]
fn path_join_cases() {
    assert_eq!(join_paths("/base", "file"), "/base/file");
    assert_eq!(join_paths("/base/", "file"), "/base/file");
    assert_eq!(join_paths("", "file"), "file");
    // An absolute component replaces the base.
    assert_eq!(join_paths("/base", "/abs"), "/abs");
}

#[test]
fn path_parent_cases() {
    assert_eq!(parent_path(""), None);
    assert_eq!(parent_path("/"), None);
    assert_eq!(parent_path("a"), Some(String::new()));
    assert_eq!(parent_path("/a"), Some("/".to_string()));
    assert_eq!(parent_path("/a/b"), Some("/a".to_string()));
    assert_eq!(parent_path("/a/b/"), Some("/a".to_string()));
    assert_eq!(parent_path("a//b"), Some("a".to_string()));
}

#[test]
fn entry_path_sanitizer() {
    assert!(is_safe_entry_path("lib/foo.rb"));
    assert!(is_safe_entry_path("a..b"));
    assert!(is_safe_entry_path("..a/b"));
    assert!(is_safe_entry_path("a/..b/c"));
    assert!(!is_safe_entry_path(""));
    assert!(!is_safe_entry_path("/etc/passwd"));
    assert!(!is_safe_entry_path(".."));
    assert!(!is_safe_entry_path("../x"));
    assert!(!is_safe_entry_path("a/../b"));
    assert!(!is_safe_entry_path("a/.."));
}

#[test]
fn archive_entry_classification() {
    assert_eq!(classify_entry("metadata.gz"), EntryKind::Metadata);
    assert_eq!(classify_entry("data.tar.gz"), EntryKind::DataArchive);
    assert_eq!(classify_entry("checksums.yaml.gz"), EntryKind::Checksums);
    assert_eq!(classify_entry("metadata.gz.sig"), EntryKind::Signature);
    assert_eq!(classify_entry("data.tar.gz.sig"), EntryKind::Signature);
    assert_eq!(classify_entry("checksums.yaml.gz.sig"), EntryKind::Signature);
    assert_eq!(classify_entry("something-else"), EntryKind::Unknown);
}

#[test]
fn url_composition() {
    let gem = GemVersion {
        name: "demo".to_string(),
        version: "1.0".to_string(),
    };
    assert_eq!(gem_request_path("demo", "1.0"), "gems/demo-1.0.gem");
    let url = url_for_spec("https://rubygems.org/", &gem).unwrap();
    assert_eq!(url, "https://rubygems.org/gems/demo-1.0.gem");

    let err = url_for_spec("not a url at all", &gem).unwrap_err();
    match err {
        Error::BadRemote { remote } => assert_eq!(remote, "not a url at all"),
        other => panic!("unexpected error: {:?}", other),
    }
}

#[test]
fn gem_cache_path_layout() {
    let cache = Cache::from_path("/cache/root");
    let url = "https://rubygems.org/gems/demo-1.0.gem";
    let path = gem_cache_path(&cache, url);
    let expected = format!("/cache/root/gem-v0/gems/{}.gem", cache_digest(url));
    assert_eq!(path, expected);
}

#[test]
fn cache_aside_roundtrip() {
    let temp = tempfile::tempdir().unwrap();
    let cache = Cache::from_path(temp.path().to_str().unwrap()).init().unwrap();
    let url = "https://rubygems.org/gems/demo-1.0.gem";
    let entry = gem_cache_path(&cache, url);

    // First run: a miss, so the driver would fetch over the network.
    assert_eq!(lookup_gem(&entry).unwrap(), None);
    store_gem(&entry, b"gem bytes").unwrap();

    // Second run: a hit with the stored bytes, so no network request is
    // needed for the same cache key.
    assert_eq!(lookup_gem(&entry).unwrap(), Some(b"gem bytes".to_vec()));
}

#[test]
fn batch_respects_limit_and_order() {
    let mut batch: BoundedBatch<String> = BoundedBatch::new(5, 2);

    // Admission stops at the ceiling.
    assert!(batch.can_start());
    let t0 = batch.start();
    let t1 = batch.start();
    assert_eq!((t0, t1), (0, 1));
    assert!(!batch.can_start());

    // A completion frees a slot; completions may arrive out of order.
    batch.complete(1, "one".to_string());
    assert!(batch.can_start());
    let t2 = batch.start();
    assert_eq!(t2, 2);
    batch.complete(2, "two".to_string());
    batch.complete(0, "zero".to_string());
    let t3 = batch.start();
    let t4 = batch.start();
    assert!(!batch.can_start());
    batch.complete(4, "four".to_string());
    batch.complete(3, "three".to_string());
    assert_eq!((t3, t4), (3, 4));
    assert!(batch.is_done());

    // Outputs come back in submission order, not completion order.
    let results = batch.into_results();
    assert_eq!(results, vec!["zero", "one", "two", "three", "four"]);
}

#[test]
fn batch_default_ceilings() {
    assert_eq!(OUTER_CONCURRENT_SOURCES, 10);
    assert_eq!(DEFAULT_MAX_CONCURRENT_REQUESTS, 10);
    let args = CiArgs::default();
    assert_eq!(args.max_concurrent_requests, 10);
}

fn gzip(data: &[u8]) -> Vec<u8> {
    let mut enc = flate2::write::GzEncoder::new(Vec::new(), flate2::Compression::default());
    enc.write_all(data).unwrap();
    enc.finish().unwrap()
}

fn tar_of(entries: &[(&str, &[u8])]) -> Vec<u8> {
    let mut builder = tar::Builder::new(Vec::new());
    for (path, data) in entries {
        let mut header = tar::Header::new_gnu();
        header.set_size(data.len() as u64);
        header.set_mode(0o644);
        header.set_cksum();
        builder.append_data(&mut header, path, *data).unwrap();
    }
    builder.into_inner().unwrap()
}

fn count_files(dir: &std::path::Path) -> usize {
    let mut n = 0;
    for entry in fs_err::read_dir(dir).unwrap() {
        let entry = entry.unwrap();
        if entry.metadata().unwrap().is_dir() {
            n += count_files(&entry.path());
        } else {
            n += 1;
        }
    }
    n
}

#[test]
fn unpack_synthetic_archive() {
    let metadata = b"--- gemspec for demo" as &[u8];
    let inner_file = b"puts 'foo'" as &[u8];

    let inner_tar = tar_of(&[("lib/foo.rb", inner_file)]);
    let outer = tar_of(&[
        ("metadata.gz", gzip(metadata).as_slice()),
        ("data.tar.gz", gzip(&inner_tar).as_slice()),
    ]);

    let temp = tempfile::tempdir().unwrap();
    let root = temp.path().to_str().unwrap();
    unpack_tarball(&outer, "demo", "1.0", root).unwrap();

    let spec_path = temp.path().join("specifications/demo-1.0.gemspec");
    let data_path = temp.path().join("gems/demo-1.0/lib/foo.rb");
    assert_eq!(fs_err::read(&spec_path).unwrap(), metadata);
    assert_eq!(fs_err::read(&data_path).unwrap(), inner_file);
    // Exactly those two files and nothing else.
    assert_eq!(count_files(temp.path()), 2);
}

/// Builds a tar whose single entry carries a path the builder itself would
/// refuse, by writing the header's name field directly.
fn raw_tar_of(name: &str, data: &[u8]) -> Vec<u8> {
    let mut builder = tar::Builder::new(Vec::new());
    let mut header = tar::Header::new_gnu();
    header.as_old_mut().name[..name.len()].copy_from_slice(name.as_bytes());
    header.set_size(data.len() as u64);
    header.set_mode(0o644);
    header.set_cksum();
    builder.append(&header, data).unwrap();
    builder.into_inner().unwrap()
}

#[test]
fn unpack_rejects_traversal() {
    let inner_tar = raw_tar_of("../escape.rb", b"nope");
    let outer = tar_of(&[("data.tar.gz", gzip(&inner_tar).as_slice())]);

    let temp = tempfile::tempdir().unwrap();
    let root = temp.path().to_str().unwrap();
    let err = unpack_tarball(&outer, "demo", "1.0", root).unwrap_err();
    match err {
        Error::InvalidTarballPath(p) => assert_eq!(p, "../escape.rb"),
        other => panic!("unexpected error: {:?}", other),
    }
}

#[test]
fn unpack_skips_unknown_entries() {
    let outer = tar_of(&[("mystery.bin", b"???" as &[u8])]);
    let temp = tempfile::tempdir().unwrap();
    unpack_tarball(&outer, "demo", "1.0", temp.path().to_str().unwrap()).unwrap();
    assert_eq!(count_files(temp.path()), 0);
}

#[test]
fn install_gems_unpacks_each_download() {
    let metadata = b"--- gemspec" as &[u8];
    let inner_tar = tar_of(&[("lib/a.rb", b"a" as &[u8])]);
    let outer = tar_of(&[
        ("metadata.gz", gzip(metadata).as_slice()),
        ("data.tar.gz", gzip(&inner_tar).as_slice()),
    ]);

    let temp = tempfile::tempdir().unwrap();
    let downloads = vec![Downloaded {
        contents: outer,
        gem_version: GemVersion {
            name: "alpha".to_string(),
            version: "2.1".to_string(),
        },
    }];
    install_gems(downloads, temp.path().to_str().unwrap()).unwrap();
    assert!(temp.path().join("specifications/alpha-2.1.gemspec").exists());
    assert!(temp.path().join("gems/alpha-2.1/lib/a.rb").exists());
}

#[test]
fn install_gems_empty_batch_succeeds() {
    let temp = tempfile::tempdir().unwrap();
    install_gems(Vec::new(), temp.path().to_str().unwrap()).unwrap();
    assert_eq!(count_files(temp.path()), 0);
}

#[test]
fn install_gems_skippable_batch_succeeds() {
    // Archives that parse but carry nothing to write.
    let outer = tar_of(&[("checksums.yaml.gz", b"ignored" as &[u8])]);
    let temp = tempfile::tempdir().unwrap();
    let downloads = vec![Downloaded {
        contents: outer,
        gem_version: GemVersion {
            name: "noop".to_string(),
            version: "0.1".to_string(),
        },
    }];
    install_gems(downloads, temp.path().to_str().unwrap()).unwrap();
    assert_eq!(count_files(temp.path()), 0);
}

#[test]
fn install_gems_fails_fast_on_malformed_archive() {
    let good = tar_of(&[("mystery.bin", b"???" as &[u8])]);
    let temp = tempfile::tempdir().unwrap();
    let downloads = vec![
        Downloaded {
            contents: good,
            gem_version: GemVersion {
                name: "ok".to_string(),
                version: "1.0".to_string(),
            },
        },
        Downloaded {
            contents: vec![1, 2, 3],
            gem_version: GemVersion {
                name: "broken".to_string(),
                version: "1.0".to_string(),
            },
        },
    ];
    let err = install_gems(downloads, temp.path().to_str().unwrap()).unwrap_err();
    assert!(matches!(err, Error::Io(_)));
}

#[test]
fn name_version_stem() {
    assert_eq!(name_version("demo", "1.0"), "demo-1.0");
}

#[test]
fn prune_decision_rule() {
    // The marker is always kept, whatever kind of object carries the name.
    assert!(prune_keeps(".gitignore", false));
    assert!(prune_keeps(".gitignore", true));
    // Recognized bucket directories stay; files of the same name do not.
    assert!(prune_keeps("ruby-v0", true));
    assert!(prune_keeps("gem-v0", true));
    assert!(!prune_keeps("ruby-v0", false));
    // Everything else goes.
    assert!(!prune_keeps("ruby-v1", true));
    assert!(!prune_keeps("ruby-v-0", true));
    assert!(!prune_keeps("random.txt", false));
}

#[test]
fn entry_and_shard_paths() {
    let entry = CacheEntry::from_path("/base/dir/file.json");
    assert_eq!(entry.path(), "/base/dir/file.json");
    assert_eq!(entry.clone().into_path_buf(), "/base/dir/file.json");
    let shard = CacheShard::from_path("/base/dir");
    assert_eq!(shard.clone().into_path_buf(), "/base/dir");
}

#[test]
fn unpack_bad_gzip_is_io_error() {
    // A metadata entry whose contents are not a gzip stream.
    let outer = tar_of(&[("metadata.gz", b"not gzip" as &[u8])]);
    let temp = tempfile::tempdir().unwrap();
    let err = unpack_tarball(&outer, "demo", "1.0", temp.path().to_str().unwrap()).unwrap_err();
    assert!(matches!(err, Error::Io(_)));
}

#[test]
fn unpack_truncated_outer_is_io_error() {
    let temp = tempfile::tempdir().unwrap();
    let err = unpack_tarball(&[1, 2, 3], "demo", "1.0", temp.path().to_str().unwrap())
        .unwrap_err();
    assert!(matches!(err, Error::Io(_)));
}

#[test]
fn url_join_failure() {
    let gem = GemVersion {
        name: "demo".to_string(),
        version: "1.0".to_string(),
    };
    // The remote parses, but a relative path cannot be joined onto it.
    let err = url_for_spec("mailto:user@example.com", &gem).unwrap_err();
    assert!(matches!(err, Error::UrlError));
}
