//! The content-addressed cache store: the size-consistency check, eviction
//! planning, and the atomic commit protocol that promotes a finished
//! download into the cache.
//!
//! The store's on-disk actions (stat, copy, rename, unlink, symlink) are
//! performed by the caller; this module decides each next action and proves
//! that the protocol can never leave a partially written cache entry behind.

use vstd::prelude::*;

verus! {

/// Whether an observed file length (`None`: no file, or unreadable
/// metadata) equals the declared size. This is the consistency test both
/// for a destination file and for a cache entry.
pub fn check_metadata_size(observed_len: Option<u64>, size: u64) -> (r: bool)
    ensures
        r == (observed_len == Some(size)),
{
    match observed_len {
        Some(l) => l == size,
        None => false,
    }
}

/// What a link attempt does about the destination.
#[derive(Clone, Copy, Debug, PartialEq, Eq, Structural)]
pub enum LinkStep {
    /// The destination already exists: count the attempt as success,
    /// idempotently, without re-linking.
    SkipExisting,
    /// The destination is absent: create the symlink.
    CreateLink,
}

/// Decides a link attempt from the destination's presence: an existing
/// destination is left untouched and counts as success; only an absent one
/// gets the symlink.
pub fn plan_symlink(dest_exists: bool) -> (r: LinkStep)
    ensures
        r == if dest_exists {
            LinkStep::SkipExisting
        } else {
            LinkStep::CreateLink
        },
{
    if dest_exists {
        LinkStep::SkipExisting
    } else {
        LinkStep::CreateLink
    }
}

// ---------------------------------------------------------------------------
// Eviction
// ---------------------------------------------------------------------------

/// One top-level entry of the cache directory, as the caller listed it:
/// its file name (the hash it stands for), whether it is a regular file,
/// and its last-access time in Unix seconds.
#[derive(Debug)]
pub struct CacheDirEntry {
    pub name: String,
    pub is_file: bool,
    pub atime: i64,
}

/// Whether some hash in `hs` reads as `n`.
pub open spec fn contains_hash(hs: Seq<String>, n: Seq<char>) -> bool {
    exists|i: int| 0 <= i < hs.len() && hs[i]@ == n
}

/// Whether one cache entry is due for eviction: a regular file, unaccessed
/// for longer than the threshold, and not referenced by the current
/// manifest.
pub open spec fn should_evict(
    e: CacheDirEntry,
    current: Seq<String>,
    now: int,
    threshold_hours: int,
) -> bool {
    &&& e.is_file
    &&& now - e.atime > threshold_hours * 3600
    &&& !contains_hash(current, e.name@)
}

/// The names due for eviction, in directory order.
pub open spec fn evict_plan_spec(
    es: Seq<CacheDirEntry>,
    current: Seq<String>,
    now: int,
    threshold_hours: int,
) -> Seq<String>
    decreases es.len(),
{
    if es.len() == 0 {
        Seq::empty()
    } else {
        let rest = evict_plan_spec(es.drop_last(), current, now, threshold_hours);
        if should_evict(es.last(), current, now, threshold_hours) {
            rest.push(es.last().name)
        } else {
            rest
        }
    }
}

/// Whether some listed hash reads as `n` — the executable membership test.
pub fn hashes_contain(hashes: &Vec<String>, name: &String) -> (r: bool)
    ensures
        r == contains_hash(hashes@, name@),
{
    let mut i: usize = 0;
    while i < hashes.len()
        invariant
            0 <= i <= hashes@.len(),
            forall|j: int| 0 <= j < i ==> hashes@[j]@ != name@,
        decreases hashes@.len() - i,
    {
        if hashes[i] == *name {
            return true;
        }
        i = i + 1;
    }
    false
}

/// Plans one eviction sweep over the listed cache directory: returns the
/// names to delete — regular files unaccessed for more than the threshold
/// whose name no current hash matches — in directory order. Files the
/// current manifest references are never in the plan, whatever their age.
pub fn plan_eviction(
    entries: &Vec<CacheDirEntry>,
    current_hashes: &Vec<String>,
    now: i64,
    threshold_hours: u64,
) -> (r: Vec<String>)
    ensures
        r@ == evict_plan_spec(entries@, current_hashes@, now as int, threshold_hours as int),
{
    let mut out: Vec<String> = Vec::new();
    let mut i: usize = 0;
    while i < entries.len()
        invariant
            0 <= i <= entries@.len(),
            out@ == evict_plan_spec(
                entries@.take(i as int),
                current_hashes@,
                now as int,
                threshold_hours as int,
            ),
        decreases entries@.len() - i,
    {
        let e = &entries[i];
        let stale: bool = (now as i128) - (e.atime as i128) > (threshold_hours as i128) * 3600;
        if e.is_file && stale && !hashes_contain(current_hashes, &e.name) {
            out.push(e.name.clone());
        }
        proof {
            assert(entries@.take(i + 1).drop_last() =~= entries@.take(i as int));
            assert(entries@.take(i + 1).last() == entries@[i as int]);
        }
        i = i + 1;
    }
    proof {
        assert(entries@.take(entries@.len() as int) =~= entries@);
    }
    out
}

/// Every entry due for eviction has its name in the plan.
pub proof fn lemma_evict_plan_complete(
    es: Seq<CacheDirEntry>,
    current: Seq<String>,
    now: int,
    threshold_hours: int,
    i: int,
)
    requires
        0 <= i < es.len(),
        should_evict(es[i], current, now, threshold_hours),
    ensures
        evict_plan_spec(es, current, now, threshold_hours).contains(es[i].name),
    decreases es.len(),
{
    let plan = evict_plan_spec(es, current, now, threshold_hours);
    let rest = evict_plan_spec(es.drop_last(), current, now, threshold_hours);
    if i == es.len() - 1 {
        assert(plan == rest.push(es.last().name));
        assert(plan[plan.len() - 1] == es[i].name);
    } else {
        lemma_evict_plan_complete(es.drop_last(), current, now, threshold_hours, i);
        let j = choose|j: int| 0 <= j < rest.len() && rest[j] == es[i].name;
        assert(plan[j] == es[i].name);
    }
}

/// Every name in the plan is the name of some entry due for eviction; in
/// particular, no name a current hash matches, and no recently accessed
/// file, is ever planned for deletion.
pub proof fn lemma_evict_plan_sound(
    es: Seq<CacheDirEntry>,
    current: Seq<String>,
    now: int,
    threshold_hours: int,
    n: String,
)
    requires
        evict_plan_spec(es, current, now, threshold_hours).contains(n),
    ensures
        exists|i: int|
            0 <= i < es.len() && es[i].name == n && should_evict(es[i], current, now, threshold_hours),
        !contains_hash(current, n@),
    decreases es.len(),
{
    let plan = evict_plan_spec(es, current, now, threshold_hours);
    let rest = evict_plan_spec(es.drop_last(), current, now, threshold_hours);
    if es.len() > 0 && should_evict(es.last(), current, now, threshold_hours) && n == es.last().name {
        assert(es[es.len() - 1].name == n);
    } else {
        let j = choose|j: int| 0 <= j < plan.len() && plan[j] == n;
        assert(rest.contains(n)) by {
            if es.len() > 0 {
                if should_evict(es.last(), current, now, threshold_hours) {
                    assert(plan == rest.push(es.last().name));
                    assert(j < rest.len());
                    assert(rest[j] == n);
                }
            }
        }
        lemma_evict_plan_sound(es.drop_last(), current, now, threshold_hours, n);
        let i = choose|i: int|
            0 <= i < es.drop_last().len() && es.drop_last()[i].name == n && should_evict(
                es.drop_last()[i],
                current,
                now,
                threshold_hours,
            );
        assert(es[i].name == n && should_evict(es[i], current, now, threshold_hours));
    }
}

/// Eviction respects the current manifest: a name that reads as any hash
/// the manifest currently references is never planned for deletion,
/// whatever its age.
pub proof fn lemma_eviction_spares_current(
    es: Seq<CacheDirEntry>,
    current: Seq<String>,
    now: int,
    threshold_hours: int,
    n: String,
)
    requires
        contains_hash(current, n@),
    ensures
        !evict_plan_spec(es, current, now, threshold_hours).contains(n),
{
    if evict_plan_spec(es, current, now, threshold_hours).contains(n) {
        lemma_evict_plan_sound(es, current, now, threshold_hours, n);
    }
}

/// Entries accessed within the threshold are retained regardless of
/// manifest membership. (A directory lists each name once, hence the
/// distinctness hypothesis.)
pub proof fn lemma_eviction_retains_recent(
    es: Seq<CacheDirEntry>,
    current: Seq<String>,
    now: int,
    threshold_hours: int,
    i: int,
)
    requires
        0 <= i < es.len(),
        now - es[i].atime <= threshold_hours * 3600,
        forall|a: int, b: int|
            0 <= a < es.len() && 0 <= b < es.len() && a != b ==> es[a].name@ != es[b].name@,
    ensures
        !evict_plan_spec(es, current, now, threshold_hours).contains(es[i].name),
{
    if evict_plan_spec(es, current, now, threshold_hours).contains(es[i].name) {
        lemma_evict_plan_sound(es, current, now, threshold_hours, es[i].name);
        let j = choose|j: int|
            0 <= j < es.len() && es[j].name == es[i].name && should_evict(
                es[j],
                current,
                now,
                threshold_hours,
            );
        assert(j == i);
    }
}

// ---------------------------------------------------------------------------
// Commit
// ---------------------------------------------------------------------------

/// How a finished commit left things. Commit anomalies are non-fatal:
/// every failure while the plain downloaded file is still present degrades
/// to keeping that file as the final artifact.
#[derive(Clone, Copy, Debug, PartialEq, Eq, Structural)]
pub enum CommitOutcome {
    /// The blob was not promoted (the copy failed or raced, a temp file
    /// would not clear, or the rename or local cleanup failed), but the
    /// destination still holds a complete artifact: the plain downloaded
    /// file — or, past a successful rename, the cache entry besides it.
    /// Benign.
    KeptLocal,
    /// The blob is in the cache and the destination is a symlink to it.
    Promoted,
    /// The symlink back to the destination could not be created after the
    /// plain file was already removed — the one failure that cannot keep
    /// the plain file. Fatal for the run.
    Failed,
}

/// The commit protocol's states. Each non-terminal state names the one
/// filesystem action the driver must perform next; the action's result
/// comes back as a [`CommitEvent`].
#[derive(Clone, Copy, Debug, PartialEq, Eq, Structural)]
pub enum CommitState {
    /// Ask whether a stale `<hash>.incomplete` file is present.
    ProbeIncomplete,
    /// Remove the stale `<hash>.incomplete` file.
    RemovingStale,
    /// Copy the downloaded file to `<hash>.incomplete`.
    Copying,
    /// Remove the `<hash>.incomplete` file whose length did not match.
    Discarding,
    /// Atomically rename `<hash>.incomplete` to the final `<hash>`.
    Renaming,
    /// Remove the plain downloaded file.
    RemovingLocal,
    /// Create the symlink from the cache entry back to the destination.
    Linking,
    /// The protocol is over.
    Done { outcome: CommitOutcome },
}

/// What the driver observed while performing the pending action.
#[derive(Clone, Copy, Debug, PartialEq, Eq, Structural)]
pub enum CommitEvent {
    IncompleteProbed { exists: bool },
    StaleRemoved { ok: bool },
    /// The copy's resulting length, or `None` if the copy failed outright.
    CopyFinished { copied_len: Option<u64> },
    IncompleteDiscarded { ok: bool },
    Renamed { ok: bool },
    LocalRemoved { ok: bool },
    LinkCreated { ok: bool },
}

/// Whether `e` is the kind of event the pending action of `s` reports.
pub open spec fn commit_event_fits(s: CommitState, e: CommitEvent) -> bool {
    match s {
        CommitState::ProbeIncomplete => e is IncompleteProbed,
        CommitState::RemovingStale => e is StaleRemoved,
        CommitState::Copying => e is CopyFinished,
        CommitState::Discarding => e is IncompleteDiscarded,
        CommitState::Renaming => e is Renamed,
        CommitState::RemovingLocal => e is LocalRemoved,
        CommitState::Linking => e is LinkCreated,
        CommitState::Done { .. } => false,
    }
}

/// The commit protocol's transition relation. `size` is the length of the
/// downloaded file, read before the protocol starts.
///
/// Failures degrade gracefully: a failed copy, a size race, a temp file
/// that would not clear, a failed rename and a failed removal of the plain
/// file all end the commit with the plain file kept and the run unharmed.
/// Only a failed link back — after the plain file was removed — is fatal.
pub open spec fn commit_step_spec(s: CommitState, e: CommitEvent, size: u64) -> CommitState {
    match (s, e) {
        (CommitState::ProbeIncomplete, CommitEvent::IncompleteProbed { exists }) => if exists {
            CommitState::RemovingStale
        } else {
            CommitState::Copying
        },
        // A failure to remove the stale file is only logged; the copy that
        // follows overwrites it.
        (CommitState::RemovingStale, CommitEvent::StaleRemoved { .. }) => CommitState::Copying,
        (CommitState::Copying, CommitEvent::CopyFinished { copied_len }) => match copied_len {
            None => CommitState::Done { outcome: CommitOutcome::KeptLocal },
            Some(l) => if l == size {
                CommitState::Renaming
            } else {
                CommitState::Discarding
            },
        },
        // Whether or not the mismatched temp file could be deleted, the
        // plain downloaded file remains the artifact.
        (CommitState::Discarding, CommitEvent::IncompleteDiscarded { .. }) => CommitState::Done {
            outcome: CommitOutcome::KeptLocal,
        },
        (CommitState::Renaming, CommitEvent::Renamed { ok }) => if ok {
            CommitState::RemovingLocal
        } else {
            CommitState::Done { outcome: CommitOutcome::KeptLocal }
        },
        (CommitState::RemovingLocal, CommitEvent::LocalRemoved { ok }) => if ok {
            CommitState::Linking
        } else {
            CommitState::Done { outcome: CommitOutcome::KeptLocal }
        },
        (CommitState::Linking, CommitEvent::LinkCreated { ok }) => if ok {
            CommitState::Done { outcome: CommitOutcome::Promoted }
        } else {
            CommitState::Done { outcome: CommitOutcome::Failed }
        },
        _ => s,
    }
}

/// Advances the commit protocol by one observed event.
pub fn commit_step(s: CommitState, e: CommitEvent, size: u64) -> (next: CommitState)
    requires
        commit_event_fits(s, e),
    ensures
        next == commit_step_spec(s, e, size),
{
    match (s, e) {
        (CommitState::ProbeIncomplete, CommitEvent::IncompleteProbed { exists }) => if exists {
            CommitState::RemovingStale
        } else {
            CommitState::Copying
        },
        (CommitState::RemovingStale, CommitEvent::StaleRemoved { .. }) => CommitState::Copying,
        (CommitState::Copying, CommitEvent::CopyFinished { copied_len }) => match copied_len {
            None => CommitState::Done { outcome: CommitOutcome::KeptLocal },
            Some(l) => if l == size {
                CommitState::Renaming
            } else {
                CommitState::Discarding
            },
        },
        (CommitState::Discarding, CommitEvent::IncompleteDiscarded { .. }) => CommitState::Done {
            outcome: CommitOutcome::KeptLocal,
        },
        (CommitState::Renaming, CommitEvent::Renamed { ok }) => if ok {
            CommitState::RemovingLocal
        } else {
            CommitState::Done { outcome: CommitOutcome::KeptLocal }
        },
        (CommitState::RemovingLocal, CommitEvent::LocalRemoved { ok }) => if ok {
            CommitState::Linking
        } else {
            CommitState::Done { outcome: CommitOutcome::KeptLocal }
        },
        (CommitState::Linking, CommitEvent::LinkCreated { ok }) => if ok {
            CommitState::Done { outcome: CommitOutcome::Promoted }
        } else {
            CommitState::Done { outcome: CommitOutcome::Failed }
        },
        _ => s,
    }
}

/// A model of the one cache slot the protocol touches: the final entry's
/// length, the `.incomplete` sibling's length (`None`: absent), and whether
/// the plain downloaded file is still present.
pub struct CacheSlotModel {
    pub entry_len: Option<u64>,
    pub incomplete_len: Option<u64>,
    pub local_present: bool,
}

/// What each observed event does to the modeled slot. A failed action
/// leaves the slot as it was; a failed copy may leave any `.incomplete`
/// junk behind, which the model keeps as absent since its length was never
/// verified and it is never renamed.
pub open spec fn commit_effect(fs: CacheSlotModel, s: CommitState, e: CommitEvent) -> CacheSlotModel {
    match (s, e) {
        (CommitState::RemovingStale, CommitEvent::StaleRemoved { ok }) => if ok {
            CacheSlotModel { incomplete_len: None, ..fs }
        } else {
            fs
        },
        (CommitState::Copying, CommitEvent::CopyFinished { copied_len }) => CacheSlotModel {
            incomplete_len: copied_len,
            ..fs
        },
        (CommitState::Discarding, CommitEvent::IncompleteDiscarded { ok }) => if ok {
            CacheSlotModel { incomplete_len: None, ..fs }
        } else {
            fs
        },
        (CommitState::Renaming, CommitEvent::Renamed { ok }) => if ok {
            CacheSlotModel { entry_len: fs.incomplete_len, incomplete_len: None, ..fs }
        } else {
            fs
        },
        (CommitState::RemovingLocal, CommitEvent::LocalRemoved { ok }) => if ok {
            CacheSlotModel { local_present: false, ..fs }
        } else {
            fs
        },
        _ => fs,
    }
}

/// The protocol's inductive invariant over the modeled slot: the final
/// cache entry is, at every moment, either untouched or the complete blob —
/// never a partial write — and a rename is only ever pending on a verified
/// `.incomplete` file.
pub open spec fn commit_inv(
    s: CommitState,
    fs: CacheSlotModel,
    size: u64,
    init_entry: Option<u64>,
) -> bool {
    &&& (fs.entry_len == init_entry || fs.entry_len == Some(size))
    &&& (s is Renaming ==> fs.incomplete_len == Some(size))
    &&& (s is RemovingLocal || s is Linking ==> fs.entry_len == Some(size))
    &&& ((s matches CommitState::Done { outcome } && outcome is Promoted) ==> fs.entry_len == Some(
        size,
    ))
}

/// Atomic commit: however far the protocol has run — including a crash
/// between any two actions — the final cache entry is only ever its prior
/// content or the complete, size-verified blob; and once the protocol
/// reports `Promoted`, the entry is the complete blob.
pub proof fn lemma_commit_atomic(
    s: CommitState,
    e: CommitEvent,
    fs: CacheSlotModel,
    size: u64,
    init_entry: Option<u64>,
)
    requires
        commit_event_fits(s, e),
        commit_inv(s, fs, size, init_entry),
    ensures
        commit_inv(commit_step_spec(s, e, size), commit_effect(fs, s, e), size, init_entry),
{
}

/// The protocol's first state satisfies its invariant: starting a commit
/// asserts nothing about the slot beyond what is there.
pub proof fn lemma_commit_init(fs: CacheSlotModel, size: u64)
    ensures
        commit_inv(CommitState::ProbeIncomplete, fs, size, fs.entry_len),
{
}

/// The state and modeled slot after a sequence of observed events.
pub open spec fn commit_run(
    s: CommitState,
    fs: CacheSlotModel,
    events: Seq<CommitEvent>,
    size: u64,
) -> (CommitState, CacheSlotModel)
    decreases events.len(),
{
    if events.len() == 0 {
        (s, fs)
    } else {
        commit_run(
            commit_step_spec(s, events.first(), size),
            commit_effect(fs, s, events.first()),
            events.drop_first(),
            size,
        )
    }
}

/// Whether each event of the sequence fits the state it meets.
pub open spec fn commit_run_fits(s: CommitState, events: Seq<CommitEvent>, size: u64) -> bool
    decreases events.len(),
{
    events.len() == 0 || (commit_event_fits(s, events.first()) && commit_run_fits(
        commit_step_spec(s, events.first(), size),
        events.drop_first(),
        size,
    ))
}

/// Crash safety over a whole commit: after any valid sequence of observed
/// events — in particular the prefix at which an interrupted process died —
/// the final cache entry is only ever its prior content or the complete,
/// size-verified blob.
pub proof fn lemma_commit_run_atomic(
    s: CommitState,
    fs: CacheSlotModel,
    events: Seq<CommitEvent>,
    size: u64,
    init_entry: Option<u64>,
)
    requires
        commit_inv(s, fs, size, init_entry),
        commit_run_fits(s, events, size),
    ensures
        commit_inv(commit_run(s, fs, events, size).0, commit_run(s, fs, events, size).1, size, init_entry),
    decreases events.len(),
{
    if events.len() > 0 {
        lemma_commit_atomic(s, events.first(), fs, size, init_entry);
        lemma_commit_run_atomic(
            commit_step_spec(s, events.first(), size),
            commit_effect(fs, s, events.first()),
            events.drop_first(),
            size,
            init_entry,
        );
    }
}

} // verus!
