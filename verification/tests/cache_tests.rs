use tempfile::tempdir;

use rv_core::{rm_rf, Cache, CacheBucket, CacheEntry, CacheShard, CleanReporter, Removal};

/// Test reporter that tracks cleanup operations
#[derive(Default, Debug)]
struct TestReporter {
    cleaned: std::sync::Arc<std::sync::atomic::AtomicUsize>,
    completed: std::sync::Arc<std::sync::atomic::AtomicBool>,
}

impl TestReporter {
    fn new() -> Self {
        Self::default()
    }

    fn cleaned_count(&self) -> usize {
        self.cleaned.load(std::sync::atomic::Ordering::SeqCst)
    }

    fn is_completed(&self) -> bool {
        self.completed.load(std::sync::atomic::Ordering::SeqCst)
    }
}

impl CleanReporter for TestReporter {
    fn on_clean(&self) {
        self.cleaned
            .fetch_add(1, std::sync::atomic::Ordering::SeqCst);
    }

    fn on_complete(&self) {
        self.completed
            .store(true, std::sync::atomic::Ordering::SeqCst);
    }
}

#[test]
fn test_cache_bucket_display() {
    assert_eq!(CacheBucket::Ruby.to_string(), "ruby-v0");
}

#[test]
fn test_cache_bucket_iteration() {
    let buckets: Vec<_> = CacheBucket::iter();
    assert_eq!(buckets.len(), 2);
    assert!(buckets.contains(&CacheBucket::Ruby));
}

#[test]
fn test_cache_entry_creation() {
    let entry = CacheEntry::new("/base/path", "file.json");
    assert_eq!(entry.path(), "/base/path/file.json");
    assert_eq!(entry.dir(), "/base/path");
}

#[test]
fn test_cache_entry_with_file() {
    let entry = CacheEntry::new("/base/path", "file.json");
    let new_entry = entry.with_file("other.json");
    assert_eq!(new_entry.path(), "/base/path/other.json");
}

#[test]
fn test_cache_entry_shard() {
    let entry = CacheEntry::new("/base/path/subdir", "file.json");
    let shard = entry.shard();
    assert_eq!(shard.as_str(), "/base/path/subdir");
}

#[test]
fn test_cache_shard_operations() {
    let shard = CacheShard::from_path("/base/cache");

    let entry = shard.entry("file.json");
    assert_eq!(entry.path(), "/base/cache/file.json");

    let sub_shard = shard.shard("subdir");
    assert_eq!(sub_shard.as_str(), "/base/cache/subdir");
}

#[test]
fn test_cache_from_path() {
    let cache = Cache::from_path("/test/cache");
    assert_eq!(cache.root(), "/test/cache");
    assert!(!cache.is_temporary());
}

#[test]
fn test_cache_temp() {
    let cache = Cache::temp().unwrap();
    assert!(cache.is_temporary());
    // Temp cache should have a valid root path
    assert!(!cache.root().is_empty());
}

#[test]
fn test_cache_bucket_paths() {
    let cache = Cache::from_path("/test/cache");

    assert_eq!(cache.bucket(CacheBucket::Ruby), "/test/cache/ruby-v0");
}

#[test]
fn test_cache_entry_operations() {
    let cache = Cache::from_path("/test/cache");

    let entry = cache.entry(CacheBucket::Ruby, "interpreters", "ruby-3.3.0.json");
    assert_eq!(
        entry.path(),
        "/test/cache/ruby-v0/interpreters/ruby-3.3.0.json"
    );
}

#[test]
fn test_cache_initialization() {
    let temp_dir = tempdir().unwrap();
    let cache_path = temp_dir.path().join("cache");
    let cache_path_utf8 = camino::Utf8PathBuf::from(cache_path.to_str().unwrap());
    let _cache = Cache::from_path(cache_path_utf8.as_str()).init().unwrap();

    // Cache directory should be created
    assert!(cache_path.exists());
    assert!(cache_path.is_dir());

    // .gitignore should be created
    let gitignore_path = cache_path.join(".gitignore");
    assert!(gitignore_path.exists());

    // .gitignore should contain "*"
    let contents = fs_err::read_to_string(&gitignore_path).unwrap();
    assert_eq!(contents, "*");
}

#[test]
fn test_cache_initialization_existing_gitignore() {
    let temp_dir = tempdir().unwrap();
    let cache_path = temp_dir.path().join("cache");
    let cache_path_utf8 = camino::Utf8PathBuf::from(cache_path.to_str().unwrap());
    fs_err::create_dir_all(&cache_path).unwrap();

    // Pre-create .gitignore
    let gitignore_path = cache_path.join(".gitignore");
    fs_err::write(&gitignore_path, "existing content").unwrap();

    let _cache = Cache::from_path(cache_path_utf8.as_str()).init().unwrap();

    // .gitignore content should be preserved
    let contents = fs_err::read_to_string(&gitignore_path).unwrap();
    assert_eq!(contents, "existing content");
}

#[test]
fn test_cache_clear() {
    let temp_dir = tempdir().unwrap();
    let cache_path = temp_dir.path().join("cache");
    let cache_path_utf8 = camino::Utf8PathBuf::from(cache_path.to_str().unwrap());
    let cache = Cache::from_path(cache_path_utf8.as_str()).init().unwrap();

    // Create some test files
    let test_file = cache_path.join("test.txt");
    fs_err::write(&test_file, "test content").unwrap();

    let test_dir = cache_path.join("subdir");
    fs_err::create_dir(&test_dir).unwrap();
    fs_err::write(test_dir.join("file.txt"), "content").unwrap();

    let reporter = TestReporter::new();
    let removal = cache.clear(Box::new(reporter)).unwrap();

    assert!(!removal.is_empty());
    assert!(removal.bytes > 0);
}

#[test]
fn test_cache_prune() {
    let temp_dir = tempdir().unwrap();
    let cache_path = temp_dir.path().join("cache");
    let cache_path_utf8 = camino::Utf8PathBuf::from(cache_path.to_str().unwrap());
    let cache = Cache::from_path(cache_path_utf8.as_str()).init().unwrap();

    // Create a valid bucket directory
    let valid_bucket = cache_path.join("ruby-v0");
    fs_err::create_dir(&valid_bucket).unwrap();
    fs_err::write(valid_bucket.join("test.json"), "{}").unwrap();

    // Create an invalid bucket directory (old version)
    let invalid_bucket = cache_path.join("ruby-v-0");
    fs_err::create_dir(&invalid_bucket).unwrap();
    fs_err::write(invalid_bucket.join("old.json"), "{}").unwrap();

    // Create a random file (should be removed)
    fs_err::write(cache_path.join("random.txt"), "content").unwrap();

    let removal = cache.prune().unwrap();

    // Valid bucket should remain
    assert!(valid_bucket.exists());

    // Invalid bucket should be removed
    assert!(!invalid_bucket.exists());

    // Random file should be removed
    assert!(!cache_path.join("random.txt").exists());

    // .gitignore should remain
    assert!(cache_path.join(".gitignore").exists());

    assert!(!removal.is_empty());
}

#[test]
fn test_removal_display() {
    let removal = Removal::new(0, 0);
    assert_eq!(removal.to_string(), "No cache entries removed");

    let removal = Removal::new(0, 1024);
    assert_eq!(removal.to_string(), "Removed 1024 bytes");

    let removal = Removal::new(5, 0);
    assert_eq!(removal.to_string(), "Removed 5 directories");

    let removal = Removal::new(3, 2048);
    assert_eq!(removal.to_string(), "Removed 3 directories (2048 bytes)");
}

#[test]
fn test_removal_operations() {
    let mut removal1 = Removal::new(2, 1000);
    let removal2 = Removal::new(3, 2000);

    // Combining sums both tallies
    let sum = removal1.clone().combine(removal2.clone());
    assert_eq!(sum.dirs, 5);
    assert_eq!(sum.bytes, 3000);

    // Combining in place agrees
    removal1.combine_assign(removal2);
    assert_eq!(removal1.dirs, 5);
    assert_eq!(removal1.bytes, 3000);

    // Test is_empty
    assert!(!removal1.is_empty());

    let empty = Removal::new(0, 0);
    assert!(empty.is_empty());
}

#[test]
fn test_rm_rf_nonexistent_path() {
    let removal = rm_rf("/nonexistent/path").unwrap();
    assert!(removal.is_empty());
}

#[test]
fn test_rm_rf_file() {
    let temp_dir = tempdir().unwrap();
    let file_path = temp_dir.path().join("test.txt");
    fs_err::write(&file_path, "test content").unwrap();

    let utf8_path = camino::Utf8PathBuf::from(file_path.to_str().unwrap());
    let removal = rm_rf(utf8_path.as_str()).unwrap();

    assert!(!file_path.exists());
    assert_eq!(removal.dirs, 0);
    assert!(removal.bytes > 0); // Should have removed some bytes
}

#[test]
fn test_rm_rf_directory() {
    let temp_dir = tempdir().unwrap();
    let dir_path = temp_dir.path().join("test_dir");
    fs_err::create_dir(&dir_path).unwrap();

    // Create nested content
    fs_err::write(dir_path.join("file1.txt"), "content1").unwrap();

    let subdir = dir_path.join("subdir");
    fs_err::create_dir(&subdir).unwrap();
    fs_err::write(subdir.join("file2.txt"), "content2").unwrap();

    let utf8_path = camino::Utf8PathBuf::from(dir_path.to_str().unwrap());
    let removal = rm_rf(utf8_path.as_str()).unwrap();

    assert!(!dir_path.exists());
    assert!(removal.dirs > 0); // Should have removed directories
    assert!(removal.bytes > 0); // Should have removed some bytes
}

#[test]
fn test_test_reporter() {
    let reporter = TestReporter::new();

    assert_eq!(reporter.cleaned_count(), 0);
    assert!(!reporter.is_completed());

    reporter.on_clean();
    reporter.on_clean();
    assert_eq!(reporter.cleaned_count(), 2);

    reporter.on_complete();
    assert!(reporter.is_completed());
}
