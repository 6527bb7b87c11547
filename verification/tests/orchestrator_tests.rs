use truss_transfer::error::TransferError;
use truss_transfer::manifest::{
    build_resolution_map_at, BasetenPointer, BasetenPointerManifest, Resolution,
};
use truss_transfer::orchestrator::{
    classify_fetch, entry_step, first_error, EntryEvent, EntryState,
};
use truss_transfer::cache::CommitOutcome;

#[test]
fn test_idempotent_rerun_skips_download() {
    // Destination already present with the declared size: resolved at the
    // first probe, with no link, fetch or cache mutation requested.
    let s = entry_step(
        EntryState::Probing,
        EntryEvent::Observed {
            dest_len: Some(1024),
            cache_len: None,
        },
        1024,
        true,
    );
    assert_eq!(s, EntryState::Resolved);
}

#[test]
fn test_cache_hit_links_without_fetch() {
    // A cache entry of the declared size is linked, not fetched.
    let s = entry_step(
        EntryState::Probing,
        EntryEvent::Observed {
            dest_len: None,
            cache_len: Some(1024),
        },
        1024,
        true,
    );
    assert_eq!(s, EntryState::Linking);
    let s = entry_step(s, EntryEvent::LinkAttempted { ok: true }, 1024, true);
    assert_eq!(s, EntryState::Resolved);
}

#[test]
fn test_mismatched_cache_entry_not_linked() {
    // A cache entry of the wrong length is rejected; the entry is fetched.
    let s = entry_step(
        EntryState::Probing,
        EntryEvent::Observed {
            dest_len: None,
            cache_len: Some(999),
        },
        1024,
        true,
    );
    assert_eq!(s, EntryState::Fetching);
}

#[test]
fn test_caching_disabled_ignores_cache() {
    // With caching off the cache is never linked, whatever it holds.
    let s = entry_step(
        EntryState::Probing,
        EntryEvent::Observed {
            dest_len: None,
            cache_len: Some(1024),
        },
        1024,
        false,
    );
    assert_eq!(s, EntryState::Fetching);
}

#[test]
fn test_failed_link_falls_back_to_fetch() {
    let s = entry_step(
        EntryState::Linking,
        EntryEvent::LinkAttempted { ok: false },
        1024,
        true,
    );
    assert_eq!(s, EntryState::Fetching);
}

#[test]
fn test_fetch_success_commits_when_caching() {
    let s = entry_step(
        EntryState::Fetching,
        EntryEvent::FetchFinished {
            status: Some(200),
            written: Some(1024),
        },
        1024,
        true,
    );
    assert_eq!(s, EntryState::Committing);
    let s = entry_step(
        s,
        EntryEvent::CommitFinished {
            outcome: CommitOutcome::KeptLocal,
        },
        1024,
        true,
    );
    assert_eq!(s, EntryState::Resolved);
}

#[test]
fn test_commit_failure_fails_entry() {
    let s = entry_step(
        EntryState::Committing,
        EntryEvent::CommitFinished {
            outcome: CommitOutcome::Failed,
        },
        1024,
        true,
    );
    assert_eq!(
        s,
        EntryState::Failed {
            error: TransferError::CacheCommitFailed
        }
    );
}

#[test]
fn test_classify_fetch_outcomes() {
    assert_eq!(
        classify_fetch(None, None, 1024).unwrap_err(),
        TransferError::NetworkFailure
    );
    assert_eq!(
        classify_fetch(Some(404), None, 1024).unwrap_err(),
        TransferError::HttpStatus { status: 404 }
    );
    assert_eq!(
        classify_fetch(Some(500), Some(1024), 1024).unwrap_err(),
        TransferError::HttpStatus { status: 500 }
    );
    assert_eq!(
        classify_fetch(Some(200), None, 1024).unwrap_err(),
        TransferError::NetworkFailure
    );
    assert_eq!(
        classify_fetch(Some(200), Some(512), 1024).unwrap_err(),
        TransferError::SizeMismatch {
            expected: 1024,
            actual: 512
        }
    );
    assert!(classify_fetch(Some(200), Some(1024), 1024).is_ok());
    assert!(classify_fetch(Some(299), Some(0), 0).is_ok());
}

#[test]
fn test_first_error_all_ok() {
    let results: Vec<Result<(), TransferError>> = vec![Ok(()), Ok(()), Ok(())];
    assert!(first_error(&results).is_ok());
    let empty: Vec<Result<(), TransferError>> = vec![];
    assert!(first_error(&empty).is_ok());
}

#[test]
fn test_first_error_reports_first_failure() {
    // Fail-fast: the first failure in task order is the run's error;
    // later outcomes, failures included, are drained and discarded.
    let results: Vec<Result<(), TransferError>> = vec![
        Ok(()),
        Err(TransferError::HttpStatus { status: 500 }),
        Err(TransferError::NetworkFailure),
        Ok(()),
    ];
    assert_eq!(
        first_error(&results).unwrap_err(),
        TransferError::HttpStatus { status: 500 }
    );
}

#[test]
fn test_end_to_end_single_entry_no_cache() {
    // One fresh entry, caching disabled: validation derives the target and
    // the machine fetches it to the destination, 1024 bytes, then stops.
    let now: i64 = 1_700_000_000;
    let manifest = BasetenPointerManifest {
        pointers: vec![BasetenPointer {
            resolution: Resolution {
                url: "https://example/model.bin".to_string(),
                expiration_timestamp: now + 3600,
            },
            uid: "1".to_string(),
            file_name: "model.bin".to_string(),
            hashtype: "sha256".to_string(),
            hash: "abc123".to_string(),
            size: 1024,
        }],
    };
    let targets = build_resolution_map_at(&manifest, now).unwrap();
    assert_eq!(targets.len(), 1);
    let t = &targets[0];
    assert_eq!(t.file_name, "model.bin");
    assert_eq!(t.url, "https://example/model.bin");
    assert_eq!(t.hash, "abc123");
    assert_eq!(t.size, 1024);

    let s = entry_step(
        EntryState::Probing,
        EntryEvent::Observed {
            dest_len: None,
            cache_len: None,
        },
        t.size,
        false,
    );
    assert_eq!(s, EntryState::Fetching);
    let s = entry_step(
        s,
        EntryEvent::FetchFinished {
            status: Some(200),
            written: Some(1024),
        },
        t.size,
        false,
    );
    // Caching is off: the entry resolves as a plain file of 1024 bytes,
    // with no cache commit.
    assert_eq!(s, EntryState::Resolved);

    let results: Vec<Result<(), TransferError>> = vec![Ok(())];
    assert!(first_error(&results).is_ok());
}

#[test]
fn test_interrupted_commit_is_recoverable() {
    // A run interrupted between the verified copy and the rename leaves no
    // cache entry; the next run simply misses the cache and fetches.
    let s = entry_step(
        EntryState::Probing,
        EntryEvent::Observed {
            dest_len: None,
            cache_len: None,
        },
        1024,
        true,
    );
    assert_eq!(s, EntryState::Fetching);
}
