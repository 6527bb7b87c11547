//! The manifest data model and its validation: every entry's resolution must
//! still be in force, and validation is all-or-nothing — one expired entry
//! rejects the whole manifest.

use vstd::prelude::*;

use crate::error::TransferError;

verus! {

/// The time-boxed authorization to fetch one blob.
#[derive(Debug)]
pub struct Resolution {
    pub url: String,
    pub expiration_timestamp: i64,
}

/// One blob to materialize: its destination name, content hash, declared
/// byte length, and resolution.
#[derive(Debug)]
pub struct BasetenPointer {
    pub resolution: Resolution,
    pub uid: String,
    pub file_name: String,
    pub hashtype: String,
    pub hash: String,
    pub size: u64,
}

/// The declared list of blobs, in manifest order.
#[derive(Debug)]
pub struct BasetenPointerManifest {
    pub pointers: Vec<BasetenPointer>,
}

/// What the downloader works from, per entry: destination name, URL, cache
/// key and declared size.
#[derive(Debug)]
pub struct ResolutionTarget {
    pub file_name: String,
    pub url: String,
    pub hash: String,
    pub size: u64,
}

/// Whether one entry's resolution has expired at time `now`.
pub open spec fn entry_expired(p: BasetenPointer, now: int) -> bool {
    p.resolution.expiration_timestamp < now
}

/// Whether any entry of the manifest has expired at time `now`.
pub open spec fn any_expired(m: BasetenPointerManifest, now: int) -> bool {
    exists|i: int| 0 <= i < m.pointers@.len() && entry_expired(m.pointers@[i], now)
}

/// The target derived from one manifest entry.
pub open spec fn target_of(p: BasetenPointer) -> ResolutionTarget {
    ResolutionTarget { file_name: p.file_name, url: p.resolution.url, hash: p.hash, size: p.size }
}

/// Whether `r` is the validation outcome the manifest owes at time `now`:
/// rejection exactly when some entry has expired, otherwise one target per
/// entry in manifest order.
pub open spec fn resolution_map_outcome(
    m: BasetenPointerManifest,
    now: int,
    r: Result<Vec<ResolutionTarget>, TransferError>,
) -> bool {
    &&& (r is Err <==> any_expired(m, now))
    &&& (r matches Err(e) ==> e == TransferError::ManifestExpired)
    &&& (r matches Ok(v) ==> {
        &&& v@.len() == m.pointers@.len()
        &&& forall|i: int| 0 <= i < v@.len() ==> v@[i] == target_of(m.pointers@[i])
    })
}

/// Validates the manifest against an explicit time and derives the targets.
pub fn build_resolution_map_at(m: &BasetenPointerManifest, now: i64) -> (r: Result<
    Vec<ResolutionTarget>,
    TransferError,
>)
    ensures
        resolution_map_outcome(*m, now as int, r),
{
    let mut out: Vec<ResolutionTarget> = Vec::new();
    let mut i: usize = 0;
    while i < m.pointers.len()
        invariant
            0 <= i <= m.pointers@.len(),
            out@.len() == i,
            forall|j: int| 0 <= j < i ==> out@[j] == target_of(m.pointers@[j]),
            forall|j: int| 0 <= j < i ==> !entry_expired(m.pointers@[j], now as int),
        decreases m.pointers@.len() - i,
    {
        let p = &m.pointers[i];
        if p.resolution.expiration_timestamp < now {
            return Err(TransferError::ManifestExpired);
        }
        out.push(ResolutionTarget {
            file_name: p.file_name.clone(),
            url: p.resolution.url.clone(),
            hash: p.hash.clone(),
            size: p.size,
        });
        i = i + 1;
    }
    Ok(out)
}

/// Relies on chrono: `Utc::now().timestamp()`, the current moment as Unix
/// seconds. Nothing is assumed of the clock's value.
#[verifier::external_body]
fn now_unix() -> (t: i64) {
    chrono::Utc::now().timestamp()
}

/// Validates the manifest against the clock's present time. Whatever moment
/// the clock answered, the result is the outcome owed at that moment.
pub fn build_resolution_map(m: &BasetenPointerManifest) -> (r: Result<
    Vec<ResolutionTarget>,
    TransferError,
>)
    ensures
        exists|now: int|
            i64::MIN <= now <= i64::MAX && resolution_map_outcome(*m, now, r),
        r matches Err(e) ==> e == TransferError::ManifestExpired,
        r matches Ok(v) ==> {
            &&& v@.len() == m.pointers@.len()
            &&& forall|i: int| 0 <= i < v@.len() ==> v@[i] == target_of(m.pointers@[i])
        },
{
    let now = now_unix();
    let r = build_resolution_map_at(m, now);
    proof {
        assert(resolution_map_outcome(*m, now as int, r));
    }
    r
}

/// Expiration gate: a manifest with even one expired entry is rejected
/// whole — validation yields `ManifestExpired` and produces no target at
/// all, so no entry, expired or not, ever reaches the downloader.
pub proof fn lemma_expiration_gate(
    m: BasetenPointerManifest,
    now: int,
    r: Result<Vec<ResolutionTarget>, TransferError>,
    i: int,
)
    requires
        0 <= i < m.pointers@.len(),
        entry_expired(m.pointers@[i], now),
        resolution_map_outcome(m, now, r),
    ensures
        r == Err::<Vec<ResolutionTarget>, TransferError>(TransferError::ManifestExpired),
{
    assert(any_expired(m, now));
}

/// The hashes the manifest currently references, one per entry, in order.
pub fn current_hashes_from_manifest(m: &BasetenPointerManifest) -> (r: Vec<String>)
    ensures
        r@.len() == m.pointers@.len(),
        forall|i: int| 0 <= i < r@.len() ==> r@[i] == m.pointers@[i].hash,
{
    let mut out: Vec<String> = Vec::new();
    let mut i: usize = 0;
    while i < m.pointers.len()
        invariant
            0 <= i <= m.pointers@.len(),
            out@.len() == i,
            forall|j: int| 0 <= j < i ==> out@[j] == m.pointers@[j].hash,
        decreases m.pointers@.len() - i,
    {
        out.push(m.pointers[i].hash.clone());
        i = i + 1;
    }
    out
}

} // verus!
