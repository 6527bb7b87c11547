//! Pre-flight decisions of a resolution run: how the manifest's presence
//! and parse result, and the cache directory's creation, decide between
//! proceeding and which fatal error to report.

use vstd::prelude::*;

use crate::error::TransferError;
use crate::manifest::BasetenPointerManifest;

verus! {

/// The well-known path of the manifest file.
pub const LAZY_DATA_RESOLVER_PATH: &'static str = "/bptr/bptr-manifest";

/// The shared cache directory.
pub const CACHE_DIR: &'static str = "/cache/org/artifacts";

/// How many fetches may be in flight at once.
pub const TRUSS_TRANSFER_NUM_WORKERS_DEFAULT: usize = 64;

/// The whole-transfer timeout for one fetch, in seconds: sized generously
/// (six hours) for very large blobs.
pub const BLOB_DOWNLOAD_TIMEOUT_SECS: u64 = 21600;

/// Judges the manifest's loading: a missing file is `ManifestNotFound`, a
/// file that would not read or parse is `ManifestMalformed`, and both are
/// fatal before any work is attempted.
pub fn manifest_load_outcome(present: bool, parsed: Option<BasetenPointerManifest>) -> (r: Result<
    BasetenPointerManifest,
    TransferError,
>)
    ensures
        !present ==> r == Err::<BasetenPointerManifest, TransferError>(
            TransferError::ManifestNotFound,
        ),
        present && parsed is None ==> r == Err::<BasetenPointerManifest, TransferError>(
            TransferError::ManifestMalformed,
        ),
        present ==> (parsed matches Some(m) ==> r == Ok::<BasetenPointerManifest, TransferError>(
            m,
        )),
{
    if !present {
        Err(TransferError::ManifestNotFound)
    } else {
        match parsed {
            None => Err(TransferError::ManifestMalformed),
            Some(m) => Ok(m),
        }
    }
}

/// Judges the cache directory's creation: failure to create it is the
/// fatal `CacheUnavailable`; every other cache-store failure later in the
/// run degrades gracefully instead.
pub fn cache_dir_outcome(create_ok: bool) -> (r: Result<(), TransferError>)
    ensures
        r == if create_ok {
            Ok::<(), TransferError>(())
        } else {
            Err::<(), TransferError>(TransferError::CacheUnavailable)
        },
{
    if create_ok {
        Ok(())
    } else {
        Err(TransferError::CacheUnavailable)
    }
}

} // verus!
