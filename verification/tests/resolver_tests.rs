use truss_transfer::config::{
    cache_enabled, get_cleanup_threshold_hours, parse_u64, resolve_truss_transfer_download_dir,
    DEFAULT_CLEANUP_HOURS, TRUSS_TRANSFER_DOWNLOAD_DIR_FALLBACK,
};
use truss_transfer::coordinator::{cache_dir_outcome, manifest_load_outcome};
use truss_transfer::error::TransferError;
use truss_transfer::manifest::{
    build_resolution_map, build_resolution_map_at, current_hashes_from_manifest, BasetenPointer,
    BasetenPointerManifest, Resolution,
};

fn pointer(url: &str, expiration_timestamp: i64) -> BasetenPointer {
    BasetenPointer {
        resolution: Resolution {
            url: url.to_string(),
            expiration_timestamp,
        },
        uid: "123".to_string(),
        file_name: "file.txt".to_string(),
        hashtype: "sha256".to_string(),
        hash: "abcdef".to_string(),
        size: 1024,
    }
}

#[test]
fn test_resolve_truss_transfer_download_dir_with_arg() {
    // If an argument is provided, it should take precedence.
    let dir = "my/download/dir".to_string();
    let result = resolve_truss_transfer_download_dir(Some(dir.clone()), None);
    assert_eq!(result, dir);
}

#[test]
fn test_resolve_truss_transfer_download_dir_from_env() {
    // With no argument, the environment's value is used.
    let test_dir = "env_download_dir".to_string();
    let result = resolve_truss_transfer_download_dir(None, Some(test_dir.clone()));
    assert_eq!(result, test_dir);
}

#[test]
fn test_resolve_truss_transfer_download_dir_fallback() {
    // Ensure that when no arg and no env var are provided, the fallback is returned.
    let result = resolve_truss_transfer_download_dir(None, None);
    assert_eq!(result, TRUSS_TRANSFER_DOWNLOAD_DIR_FALLBACK.to_string());
}

#[test]
fn test_resolve_download_dir_arg_beats_env() {
    let result = resolve_truss_transfer_download_dir(
        Some("my/download/dir".to_string()),
        Some("env_download_dir".to_string()),
    );
    assert_eq!(result, "my/download/dir".to_string());
}

#[test]
fn test_build_resolution_map_valid() {
    // Create a pointer with an expiration timestamp in the future.
    let future_timestamp = chrono::Utc::now().timestamp() + 3600; // one hour in the future
    let manifest = BasetenPointerManifest {
        pointers: vec![pointer("http://example.com/file", future_timestamp)],
    };
    let result = build_resolution_map(&manifest);
    assert!(result.is_ok());
    let map = result.unwrap();
    assert_eq!(map.len(), 1);
    assert_eq!(map[0].file_name, "file.txt");
    assert_eq!(map[0].url, "http://example.com/file");
    assert_eq!(map[0].hash, "abcdef");
    assert_eq!(map[0].size, 1024);
}

#[test]
fn test_build_resolution_map_expired() {
    // Create a pointer that has already expired.
    let past_timestamp = chrono::Utc::now().timestamp() - 3600; // one hour in the past
    let manifest = BasetenPointerManifest {
        pointers: vec![pointer("http://example.com/file", past_timestamp)],
    };
    let result = build_resolution_map(&manifest);
    assert!(result.is_err());
}

#[test]
fn test_expiration_gate_rejects_whole_manifest() {
    // One expired entry rejects the manifest; the fresh entry yields no target.
    let now: i64 = 1_000_000;
    let manifest = BasetenPointerManifest {
        pointers: vec![
            pointer("http://example.com/fresh", now + 3600),
            pointer("http://example.com/stale", now - 1),
        ],
    };
    let result = build_resolution_map_at(&manifest, now);
    assert_eq!(result.unwrap_err(), TransferError::ManifestExpired);
}

#[test]
fn test_expiration_boundary_is_not_expired() {
    // An entry expiring exactly now is still accepted (rejection is strict).
    let now: i64 = 1_000_000;
    let manifest = BasetenPointerManifest {
        pointers: vec![pointer("http://example.com/file", now)],
    };
    assert!(build_resolution_map_at(&manifest, now).is_ok());
}

#[test]
fn test_build_resolution_map_empty_manifest() {
    let manifest = BasetenPointerManifest { pointers: vec![] };
    let result = build_resolution_map_at(&manifest, 0);
    assert_eq!(result.unwrap().len(), 0);
}

#[test]
fn test_current_hashes_from_manifest() {
    let now: i64 = 1_000_000;
    let mut a = pointer("http://example.com/a", now + 10);
    a.hash = "aaa".to_string();
    let mut b = pointer("http://example.com/b", now + 10);
    b.hash = "bbb".to_string();
    let manifest = BasetenPointerManifest {
        pointers: vec![a, b],
    };
    let hashes = current_hashes_from_manifest(&manifest);
    assert_eq!(hashes, vec!["aaa".to_string(), "bbb".to_string()]);
}

#[test]
fn test_parse_u64_values() {
    assert_eq!(parse_u64("0"), Some(0));
    assert_eq!(parse_u64("336"), Some(336));
    assert_eq!(parse_u64("+42"), Some(42));
    assert_eq!(parse_u64("18446744073709551615"), Some(u64::MAX));
}

#[test]
fn test_parse_u64_rejects() {
    assert_eq!(parse_u64(""), None);
    assert_eq!(parse_u64("+"), None);
    assert_eq!(parse_u64("12a"), None);
    assert_eq!(parse_u64("-1"), None);
    assert_eq!(parse_u64(" 7"), None);
    assert_eq!(parse_u64("18446744073709551616"), None);
}

#[test]
fn test_cleanup_threshold_hours() {
    assert_eq!(get_cleanup_threshold_hours(None), DEFAULT_CLEANUP_HOURS);
    assert_eq!(get_cleanup_threshold_hours(None), 336);
    assert_eq!(get_cleanup_threshold_hours(Some("100")), 100);
    assert_eq!(get_cleanup_threshold_hours(Some("junk")), 336);
}

#[test]
fn test_cache_enabled_flag() {
    assert!(!cache_enabled(None));
    assert!(cache_enabled(Some("1")));
    assert!(cache_enabled(Some("true")));
    assert!(cache_enabled(Some("TRUE")));
    assert!(cache_enabled(Some("TrUe")));
    assert!(!cache_enabled(Some("false")));
    assert!(!cache_enabled(Some("0")));
    assert!(!cache_enabled(Some("yes")));
    assert!(!cache_enabled(Some("")));
    assert!(!cache_enabled(Some("true ")));
}

#[test]
fn test_manifest_load_outcome() {
    let manifest = BasetenPointerManifest { pointers: vec![] };
    assert_eq!(
        manifest_load_outcome(false, None).unwrap_err(),
        TransferError::ManifestNotFound
    );
    assert_eq!(
        manifest_load_outcome(true, None).unwrap_err(),
        TransferError::ManifestMalformed
    );
    assert!(manifest_load_outcome(true, Some(manifest)).is_ok());
}

#[test]
fn test_cache_dir_outcome() {
    assert!(cache_dir_outcome(true).is_ok());
    assert_eq!(
        cache_dir_outcome(false).unwrap_err(),
        TransferError::CacheUnavailable
    );
}
