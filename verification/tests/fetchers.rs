//! Tests of model identifiers, adapter errors and the fetchers' settings
//! and decisions.

use agi4::adapters::{AdapterError, ModelId};
use agi4::evidence::SourceUrl;
use sha2::Digest;
use agi4::fetchers::{
    backoff_ms, join_path, CachingFetcher, CachingFetcherError, HttpFetcher, HttpFetcherError,
    InMemoryFetcher, InMemoryFetcherError, RetryStep, DEFAULT_CACHE_TTL_SECS,
};

fn assert_send_sync<T: Send + Sync>() {}

fn url(s: &str) -> SourceUrl {
    SourceUrl::parse(s).unwrap()
}

fn user_cache_root() -> String {
    dirs::cache_dir()
        .map(|d| d.to_string_lossy().into_owned())
        .unwrap_or_else(|| "/tmp".to_string())
}

#[test]
fn model_id_new_and_as_str() {
    let model = ModelId::new("example-model-v1");
    assert_eq!(model.as_str(), "example-model-v1");
}

#[test]
fn model_id_from_string() {
    let s = "test-model".to_string();
    let model = ModelId::new(s);
    assert_eq!(model.as_str(), "test-model");
}

#[test]
fn model_id_equality() {
    let m1 = ModelId::new("model-a");
    let m2 = ModelId::new("model-a");
    let m3 = ModelId::new("model-b");
    assert_eq!(m1, m2);
    assert_ne!(m1, m3);
}

#[test]
fn adapter_error_new_and_message() {
    let err = AdapterError::new("arc-agi-3", "failed to parse JSON");
    assert_eq!(err.message(), "failed to parse JSON");
    assert!(err.to_string().contains("arc-agi-3"));
}

#[test]
fn adapter_error_display() {
    let err = AdapterError::new("metr", "network timeout");
    let display_str = err.to_string();
    assert!(display_str.contains("metr"));
    assert!(display_str.contains("network timeout"));
}

#[test]
fn adapter_error_display_is_exact() {
    let err = AdapterError::new("metr", "network timeout");
    assert_eq!(err.to_string(), "adapter error [metr]: network timeout");
}

#[test]
fn in_memory_fetcher_new() {
    let fetcher = InMemoryFetcher::new();
    assert!(matches!(fetcher.fetch(&url("http://example.com")), Err(InMemoryFetcherError { .. })));
}

#[test]
fn in_memory_fetcher_default() {
    let fetcher = InMemoryFetcher::default();
    assert!(matches!(fetcher.fetch(&url("http://example.com")), Err(InMemoryFetcherError { .. })));
}

#[test]
fn in_memory_fetcher_insert_and_fetch() {
    let mut fetcher = InMemoryFetcher::new();
    let u = "http://example.com/data.json";
    let data = r#"{"value": 42}"#;
    fetcher.insert(u, data);
    let result = fetcher.fetch(&url(u)).expect("should fetch inserted data");
    assert_eq!(result, data);
}

#[test]
fn in_memory_fetcher_with_data() {
    let entries = vec![
        ("http://arc.org/data".to_string(), "arc data".to_string()),
        ("http://metr.org/data".to_string(), "metr data".to_string()),
    ];
    let fetcher = InMemoryFetcher::new().with_data(entries);

    let result1 = fetcher.fetch(&url("http://arc.org/data")).expect("should fetch arc data");
    assert_eq!(result1, "arc data");

    let result2 = fetcher.fetch(&url("http://metr.org/data")).expect("should fetch metr data");
    assert_eq!(result2, "metr data");
}

#[test]
fn in_memory_fetcher_missing_url_error() {
    let fetcher = InMemoryFetcher::new();
    let err = fetcher
        .fetch(&url("http://nonexistent.com/data"))
        .expect_err("should error for missing URL");
    assert!(err.to_string().contains("nonexistent.com"));
}

#[test]
fn in_memory_fetcher_clone() {
    let mut fetcher1 = InMemoryFetcher::new();
    fetcher1.insert("http://test.com/data", "test data");
    let fetcher2 = fetcher1.clone();
    let result = fetcher2.fetch(&url("http://test.com/data")).expect("clone should have data");
    assert_eq!(result, "test data");
}

#[test]
fn in_memory_fetcher_multiple_urls() {
    let mut fetcher = InMemoryFetcher::new();
    fetcher.insert("http://source-a.com/api", "data-a");
    fetcher.insert("http://source-b.com/api", "data-b");
    fetcher.insert("http://source-c.com/api", "data-c");

    assert_eq!(fetcher.fetch(&url("http://source-a.com/api")).unwrap(), "data-a");
    assert_eq!(fetcher.fetch(&url("http://source-b.com/api")).unwrap(), "data-b");
    assert_eq!(fetcher.fetch(&url("http://source-c.com/api")).unwrap(), "data-c");
}

#[test]
fn in_memory_fetcher_later_insert_replaces() {
    let mut fetcher = InMemoryFetcher::new();
    fetcher.insert("http://source-a.com/api", "old");
    fetcher.insert("http://source-a.com/api", "new");
    assert_eq!(fetcher.fetch(&url("http://source-a.com/api")).unwrap(), "new");
}

#[test]
fn in_memory_fetcher_missing_url_message_is_exact() {
    let fetcher = InMemoryFetcher::new();
    let err = fetcher.fetch(&url("http://nonexistent.com/data")).unwrap_err();
    assert_eq!(err.to_string(), "fixture not found for URL: http://nonexistent.com/data");
}

#[test]
fn in_memory_fetcher_error_is_send_sync() {
    assert_send_sync::<InMemoryFetcherError>();
}

#[test]
fn in_memory_fetcher_is_send_sync() {
    assert_send_sync::<InMemoryFetcher>();
}

#[test]
fn http_fetcher_new() {
    let fetcher = HttpFetcher::new();
    assert_eq!(fetcher.timeout_secs(), 30);
    assert_eq!(fetcher.max_retries(), 3);
}

#[test]
fn http_fetcher_default() {
    let fetcher = HttpFetcher::default();
    assert_eq!(fetcher.timeout_secs(), 30);
    assert_eq!(fetcher.max_retries(), 3);
}

#[test]
fn http_fetcher_with_config() {
    let fetcher = HttpFetcher::with_config(60, 5);
    assert_eq!(fetcher.timeout_secs(), 60);
    assert_eq!(fetcher.max_retries(), 5);
}

#[test]
fn http_fetcher_error_display() {
    let err = HttpFetcherError::new("https://example.com", "connection refused".to_string());
    assert!(err.to_string().contains("example.com"));
    assert!(err.to_string().contains("connection refused"));
}

#[test]
fn http_fetcher_is_send_sync() {
    assert_send_sync::<HttpFetcher>();
}

#[test]
fn http_fetcher_backoff_doubles() {
    assert_eq!(backoff_ms(0), 100);
    assert_eq!(backoff_ms(1), 200);
    assert_eq!(backoff_ms(2), 400);
    assert_eq!(backoff_ms(10), 102_400);
}

#[test]
fn http_fetcher_retries_then_gives_up() {
    let fetcher = HttpFetcher::new();
    assert_eq!(fetcher.after_failure(0), RetryStep::Retry { wait_ms: 100 });
    assert_eq!(fetcher.after_failure(1), RetryStep::Retry { wait_ms: 200 });
    assert_eq!(fetcher.after_failure(2), RetryStep::Retry { wait_ms: 400 });
    assert_eq!(fetcher.after_failure(3), RetryStep::GiveUp);
}

#[test]
fn http_fetcher_no_retries_gives_up_at_once() {
    let fetcher = HttpFetcher::with_config(30, 0);
    assert_eq!(fetcher.after_failure(0), RetryStep::GiveUp);
}

#[test]
fn http_fetcher_exhausted_message() {
    let fetcher = HttpFetcher::new();
    assert_eq!(
        fetcher.exhausted_message("timed out"),
        "request failed after 3 retries: timed out"
    );
}

#[test]
fn caching_fetcher_new() {
    let cf = CachingFetcher::under_cache_root(&user_cache_root());
    assert!(cf.cache_dir().ends_with("agi4"));
}

#[test]
fn caching_fetcher_default() {
    let fetcher = CachingFetcher::under_cache_root(&user_cache_root());
    assert!(fetcher.cache_dir().ends_with("agi4"));
    assert_eq!(fetcher.cache_ttl_secs(), 86400);
    assert_eq!(DEFAULT_CACHE_TTL_SECS, 86400);
}

#[test]
fn caching_fetcher_cache_path() {
    let fetcher = CachingFetcher::under_cache_root(&user_cache_root());
    let url1 = url("http://example.com/data");
    let url2 = url("http://example.com/data");
    let url3 = url("http://other.com/data");
    let path1 = fetcher.cache_path(&url1);
    let path2 = fetcher.cache_path(&url2);
    let path3 = fetcher.cache_path(&url3);
    // Same URL should produce same cache path
    assert_eq!(path1, path2);
    // Different URL should produce different cache path
    assert_ne!(path1, path3);
}

#[test]
fn caching_fetcher_cache_path_is_sha256_hex() {
    let fetcher = CachingFetcher::with_config(HttpFetcher::new(), "/cache/agi4".to_string(), 60);
    let path = fetcher.cache_path(&url("http://example.com/data"));
    let name = path.strip_prefix("/cache/agi4/").expect("inside the cache directory");
    assert_eq!(name.len(), 64);
    assert!(name.chars().all(|c| c.is_ascii_hexdigit() && !c.is_ascii_uppercase()));
    // the digest of the URL's serialization
    let digest = sha2::Sha256::digest("http://example.com/data".as_bytes());
    assert_eq!(name, format!("{:x}", digest));
}

#[test]
fn caching_fetcher_freshness() {
    let fetcher = CachingFetcher::with_config(HttpFetcher::new(), "/tmp/x".to_string(), 3600);
    assert!(fetcher.is_fresh(0));
    assert!(fetcher.is_fresh(3599));
    assert!(!fetcher.is_fresh(3600));
    assert!(!fetcher.is_fresh(200000));
}

#[test]
fn caching_fetcher_with_config() {
    let temp_dir = std::path::Path::new("/tmp").join("agi4-test-cache");
    let http_fetcher = HttpFetcher::with_config(60, 5);
    let cf = CachingFetcher::with_config(
        http_fetcher,
        temp_dir.to_string_lossy().into_owned(),
        3600,
    );
    assert_eq!(cf.cache_ttl_secs(), 3600);
    assert_eq!(cf.http_fetcher().max_retries(), 5);
}

#[test]
fn caching_fetcher_in_memory_fetch_with_mock() {
    // Use in-memory fetcher instead of HTTP for testing
    let mut in_memory = InMemoryFetcher::new();
    in_memory.insert("http://test.local/api", r#"{"test": "data"}"#);
    let result = in_memory.fetch(&url("http://test.local/api"));
    assert_eq!(result.unwrap(), r#"{"test": "data"}"#);
}

#[test]
fn caching_fetcher_error_display() {
    let err = CachingFetcherError::new("https://example.com", "cache write failed".to_string());
    let display = err.to_string();
    assert!(display.contains("example.com"));
    assert!(display.contains("cache write failed"));
}

#[test]
fn caching_fetcher_is_send_sync() {
    assert_send_sync::<CachingFetcher>();
}

#[test]
fn join_path_separators() {
    assert_eq!(join_path("/a/b", "c"), "/a/b/c");
    assert_eq!(join_path("/a/b/", "c"), "/a/b/c");
    assert_eq!(join_path("", "c"), "c");
}

#[test]
fn source_url_parse_normalizes() {
    assert_eq!(url("http://example.com").as_str(), "http://example.com/");
    assert!(SourceUrl::parse("not a url").is_err());
}
