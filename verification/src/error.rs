//! The error taxonomy of a resolution run.

use vstd::prelude::*;

verus! {

/// Why a resolution run, or one of its tasks, failed.
///
/// The manifest errors and `CacheUnavailable` are pre-flight: they are raised
/// before any download is attempted. `HttpStatus`, `NetworkFailure` and
/// `SizeMismatch` are per-task errors; the first one observed becomes the
/// run's error. Cache-commit anomalies are otherwise non-fatal — they keep
/// the plain downloaded file; `CacheCommitFailed` covers only the one step
/// that cannot: the link back to a destination whose plain file was already
/// removed.
#[derive(Clone, Copy, Debug, PartialEq, Eq, Structural)]
pub enum TransferError {
    /// No manifest file exists at the well-known path.
    ManifestNotFound,
    /// The manifest file exists but cannot be parsed.
    ManifestMalformed,
    /// At least one manifest entry's resolution has expired.
    ManifestExpired,
    /// The cache directory cannot be created.
    CacheUnavailable,
    /// A fetch answered with a non-success HTTP status.
    HttpStatus { status: u16 },
    /// A fetch failed below the HTTP layer (connect, read, write).
    NetworkFailure,
    /// A fetched file's length differs from the declared size.
    SizeMismatch { expected: u64, actual: u64 },
    /// The symlink back to the destination could not be created after the
    /// plain downloaded file was removed in favour of the cache entry.
    CacheCommitFailed,
}

} // verus!
