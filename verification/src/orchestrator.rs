//! The per-entry download state machine and the run's result aggregation.
//!
//! For each resolution target the machine decides, from what the driver
//! observed, whether the entry is already resolved, can be linked from the
//! cache, or must be fetched — and, after a fetch, whether to promote the
//! file into the cache. The driver performs the filesystem and network
//! actions and feeds their results back as events.

use vstd::prelude::*;

use crate::cache::{CacheSlotModel, CommitOutcome, CommitState, commit_inv};
use crate::error::TransferError;

verus! {

/// The per-entry states. Each non-terminal state names the action the
/// driver must perform next.
#[derive(Clone, Copy, Debug, PartialEq, Eq, Structural)]
pub enum EntryState {
    /// Stat the destination file and the cache entry.
    Probing,
    /// Create a symlink from the cache entry to the destination.
    Linking,
    /// Download the URL to the destination, then sync it.
    Fetching,
    /// Run the cache-commit protocol on the downloaded file.
    Committing,
    /// The entry is resolved; nothing remains to do.
    Resolved,
    /// The entry failed; its error becomes the run's error.
    Failed { error: TransferError },
}

/// What the driver observed while performing the pending action.
#[derive(Clone, Copy, Debug, PartialEq, Eq)]
pub enum EntryEvent {
    /// The destination's and the cache entry's observed lengths (`None`:
    /// absent or unreadable; the cache length is `None` when caching is
    /// off, since the cache is then never consulted).
    Observed { dest_len: Option<u64>, cache_len: Option<u64> },
    /// Whether the symlink was created (an already-present destination
    /// counts as success).
    LinkAttempted { ok: bool },
    /// The HTTP status the fetch answered with (`None`: no response), and
    /// the written file's length (`None`: streaming or writing failed).
    FetchFinished { status: Option<u16>, written: Option<u64> },
    /// How the commit protocol ended.
    CommitFinished { outcome: CommitOutcome },
}

/// Whether `e` is the kind of event the pending action of `s` reports.
pub open spec fn entry_event_fits(s: EntryState, e: EntryEvent) -> bool {
    match s {
        EntryState::Probing => e is Observed,
        EntryState::Linking => e is LinkAttempted,
        EntryState::Fetching => e is FetchFinished,
        EntryState::Committing => e is CommitFinished,
        EntryState::Resolved => false,
        EntryState::Failed { .. } => false,
    }
}

/// How a finished fetch is judged: no response is a network failure, a
/// non-2xx status is fatal, and a written length other than the declared
/// size is a size mismatch. Success is owed exactly when the response was
/// 2xx and the declared number of bytes was written.
pub open spec fn fetch_result_spec(status: Option<u16>, written: Option<u64>, size: u64) -> Result<
    (),
    TransferError,
> {
    match status {
        None => Err(TransferError::NetworkFailure),
        Some(st) => if !(200 <= st < 300) {
            Err(TransferError::HttpStatus { status: st })
        } else {
            match written {
                None => Err(TransferError::NetworkFailure),
                Some(w) => if w != size {
                    Err(TransferError::SizeMismatch { expected: size, actual: w })
                } else {
                    Ok(())
                },
            }
        },
    }
}

/// Judges a finished fetch (the decision at the end of a download: status
/// check, then size verification).
pub fn classify_fetch(status: Option<u16>, written: Option<u64>, size: u64) -> (r: Result<
    (),
    TransferError,
>)
    ensures
        r == fetch_result_spec(status, written, size),
{
    match status {
        None => Err(TransferError::NetworkFailure),
        Some(st) => if st < 200 || st >= 300 {
            Err(TransferError::HttpStatus { status: st })
        } else {
            match written {
                None => Err(TransferError::NetworkFailure),
                Some(w) => if w != size {
                    Err(TransferError::SizeMismatch { expected: size, actual: w })
                } else {
                    Ok(())
                },
            }
        },
    }
}

/// The per-entry transition relation, for a target of declared length
/// `size` with the cache switched on or off by `caching`.
///
/// From `Probing`: a destination already of the declared size resolves the
/// entry outright (the idempotent short-circuit); otherwise a cache entry
/// of the declared size is linked when caching is on; otherwise the entry
/// is fetched. A cache entry whose length differs is never linked. A failed
/// link falls back to fetching. A successful fetch is committed to the
/// cache exactly when caching is on.
pub open spec fn entry_step_spec(s: EntryState, e: EntryEvent, size: u64, caching: bool) -> EntryState {
    match (s, e) {
        (EntryState::Probing, EntryEvent::Observed { dest_len, cache_len }) => if dest_len == Some(
            size,
        ) {
            EntryState::Resolved
        } else if caching && cache_len == Some(size) {
            EntryState::Linking
        } else {
            EntryState::Fetching
        },
        (EntryState::Linking, EntryEvent::LinkAttempted { ok }) => if ok {
            EntryState::Resolved
        } else {
            EntryState::Fetching
        },
        (EntryState::Fetching, EntryEvent::FetchFinished { status, written }) => match fetch_result_spec(
            status,
            written,
            size,
        ) {
            Ok(_) => if caching {
                EntryState::Committing
            } else {
                EntryState::Resolved
            },
            Err(e) => EntryState::Failed { error: e },
        },
        (EntryState::Committing, EntryEvent::CommitFinished { outcome }) => match outcome {
            CommitOutcome::Failed => EntryState::Failed { error: TransferError::CacheCommitFailed },
            _ => EntryState::Resolved,
        },
        _ => s,
    }
}

/// Advances one entry's resolution by one observed event.
pub fn entry_step(s: EntryState, e: EntryEvent, size: u64, caching: bool) -> (next: EntryState)
    requires
        entry_event_fits(s, e),
    ensures
        next == entry_step_spec(s, e, size, caching),
{
    match (s, e) {
        (EntryState::Probing, EntryEvent::Observed { dest_len, cache_len }) => {
            if crate::cache::check_metadata_size(dest_len, size) {
                EntryState::Resolved
            } else if caching && crate::cache::check_metadata_size(cache_len, size) {
                EntryState::Linking
            } else {
                EntryState::Fetching
            }
        },
        (EntryState::Linking, EntryEvent::LinkAttempted { ok }) => {
            if ok {
                EntryState::Resolved
            } else {
                EntryState::Fetching
            }
        },
        (EntryState::Fetching, EntryEvent::FetchFinished { status, written }) => {
            match classify_fetch(status, written, size) {
                Ok(_) => if caching {
                    EntryState::Committing
                } else {
                    EntryState::Resolved
                },
                Err(e) => EntryState::Failed { error: e },
            }
        },
        (EntryState::Committing, EntryEvent::CommitFinished { outcome }) => {
            match outcome {
                CommitOutcome::Failed => EntryState::Failed {
                    error: TransferError::CacheCommitFailed,
                },
                _ => EntryState::Resolved,
            }
        },
        _ => s,
    }
}

/// Idempotence: when the destination already has the declared size, one
/// probe resolves the entry — the machine reaches its terminal state
/// without ever requesting a link, a fetch, or a cache commit.
pub proof fn lemma_idempotent_skip(
    dest_len: Option<u64>,
    cache_len: Option<u64>,
    size: u64,
    caching: bool,
)
    requires
        dest_len == Some(size),
    ensures
        entry_step_spec(
            EntryState::Probing,
            EntryEvent::Observed { dest_len, cache_len },
            size,
            caching,
        ) == EntryState::Resolved,
{
}

/// Cache round-trip: once a commit has promoted a blob, a later entry that
/// declares the same hash and size and finds no destination is sent to
/// link from the cache — not to fetch.
pub proof fn lemma_cache_round_trip(fs: CacheSlotModel, size: u64, init_entry: Option<u64>)
    requires
        commit_inv(
            CommitState::Done { outcome: CommitOutcome::Promoted },
            fs,
            size,
            init_entry,
        ),
    ensures
        entry_step_spec(
            EntryState::Probing,
            EntryEvent::Observed { dest_len: None, cache_len: fs.entry_len },
            size,
            true,
        ) == EntryState::Linking,
{
}

/// Size-mismatch rejection: a cache entry whose observed length differs
/// from the declared size is never linked; the machine proceeds to fetch.
pub proof fn lemma_mismatched_cache_not_linked(
    dest_len: Option<u64>,
    cache_len: Option<u64>,
    size: u64,
    caching: bool,
)
    requires
        dest_len != Some(size),
        cache_len != Some(size),
    ensures
        entry_step_spec(
            EntryState::Probing,
            EntryEvent::Observed { dest_len, cache_len },
            size,
            caching,
        ) == EntryState::Fetching,
{
}

// ---------------------------------------------------------------------------
// Result aggregation
// ---------------------------------------------------------------------------

/// Whether every task succeeded.
pub open spec fn all_ok(rs: Seq<Result<(), TransferError>>) -> bool {
    forall|i: int| 0 <= i < rs.len() ==> rs[i] is Ok
}

/// The run's aggregate result: success only if every task succeeded,
/// otherwise the first error in task order.
pub open spec fn first_error_spec(rs: Seq<Result<(), TransferError>>) -> Result<
    (),
    TransferError,
>
    decreases rs.len(),
{
    if rs.len() == 0 {
        Ok(())
    } else if rs.first() is Err {
        rs.first()
    } else {
        first_error_spec(rs.drop_first())
    }
}

/// Aggregates the drained task results: `Ok` exactly when every task
/// succeeded, otherwise the first error encountered, later outcomes
/// discarded.
pub fn first_error(results: &Vec<Result<(), TransferError>>) -> (r: Result<(), TransferError>)
    ensures
        r == first_error_spec(results@),
        r is Ok <==> all_ok(results@),
        r matches Err(e) ==> exists|k: int|
            0 <= k < results@.len() && results@[k] == Err::<(), TransferError>(e) && (forall|j: int|
                0 <= j < k ==> results@[j] is Ok),
{
    let mut i: usize = 0;
    proof {
        assert(results@.skip(0) =~= results@);
    }
    while i < results.len()
        invariant
            0 <= i <= results@.len(),
            forall|j: int| 0 <= j < i ==> results@[j] is Ok,
            first_error_spec(results@) == first_error_spec(results@.skip(i as int)),
        decreases results@.len() - i,
    {
        let ghost pre = results@.skip(i as int);
        proof {
            assert(pre.first() == results@[i as int]);
            assert(pre.drop_first() =~= results@.skip(i + 1));
        }
        match &results[i] {
            Err(e) => {
                return Err(*e);
            },
            Ok(_) => {},
        }
        i = i + 1;
    }
    proof {
        assert(results@.skip(results@.len() as int) =~= Seq::<
            Result<(), TransferError>,
        >::empty());
    }
    Ok(())
}

/// Fail-fast: if any task failed, the run's aggregate result is an error —
/// the run never reports success.
pub proof fn lemma_fail_fast(rs: Seq<Result<(), TransferError>>, k: int)
    requires
        0 <= k < rs.len(),
        rs[k] is Err,
    ensures
        first_error_spec(rs) is Err,
    decreases rs.len(),
{
    if rs.first() is Err {
    } else {
        lemma_fail_fast(rs.drop_first(), k - 1);
    }
}

} // verus!
