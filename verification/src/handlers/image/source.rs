//! Loading a request's source image, as a state machine.
//!
//! The source is looked for in the cache under the requested version first.
//! On a miss (or bytes that do not decode, which are deleted) the source lock
//! is tried: held elsewhere, the other loader's bytes are awaited; taken, the
//! cache is looked at again. Failing that the object is fetched from storage;
//! its version is cached, the cache is looked at under that version when it
//! differs from the one requested, the bytes are stored under it (and under
//! the requested one when they differ) and decoded. A loader that holds the
//! lock finishes only after releasing it.
use crate::handlers::image::flow::{plan_after_fetch, unknown_version_spec};
use vstd::prelude::*;

verus! {

/// Where a load stands: the event it waits for.
#[derive(Clone, Copy, PartialEq, Eq, Structural)]
pub enum SourcePhase {
    FirstLookup,
    FirstDecode,
    FirstDelete,
    AwaitLock,
    WaitLookup,
    WaitDecode,
    WaitDelete,
    SecondLookup,
    SecondDecode,
    SecondDelete,
    AwaitFetch,
    AfterCacheVersion,
    OtherLookup,
    OtherDecode,
    OtherDelete,
    AfterStoreVersion,
    AfterStoreRequested,
    FinalDecode,
    AwaitRelease,
    Done,
}

/// The state of a source load.
pub struct SourceLoadState {
    pub phase: SourcePhase,
    /// Whether the loader holds the source lock.
    pub lock_held: bool,
    /// The version the request resolved.
    pub requested: String,
    /// The version of the fetched bytes.
    pub version: String,
    /// Whether the fetched bytes are also stored under the requested version.
    pub store_under_requested: bool,
    /// Whether the cache is looked at under the fetched version.
    pub check_other_version: bool,
    /// The outcome given once the lock is released.
    pub pending: Option<Result<String, String>>,
}

/// The view of a load's state.
pub struct SourceStateView {
    pub phase: SourcePhase,
    pub lock_held: bool,
    pub requested: Seq<char>,
    pub version: Seq<char>,
    pub store_under_requested: bool,
    pub check_other_version: bool,
    pub pending: Option<Result<Seq<char>, Seq<char>>>,
}

/// The view of an outcome.
pub open spec fn outcome_view(r: Result<String, String>) -> Result<Seq<char>, Seq<char>> {
    match r {
        Ok(v) => Ok(v@),
        Err(m) => Err(m@),
    }
}

impl View for SourceLoadState {
    type V = SourceStateView;

    open spec fn view(&self) -> SourceStateView {
        SourceStateView {
            phase: self.phase,
            lock_held: self.lock_held,
            requested: self.requested@,
            version: self.version@,
            store_under_requested: self.store_under_requested,
            check_other_version: self.check_other_version,
            pending: match self.pending {
                Some(r) => Some(outcome_view(r)),
                None => None,
            },
        }
    }
}

/// What came of the last action.
pub enum SourceEvent {
    /// A cache lookup or wait for source bytes: whether bytes were found.
    SourceBytes(bool),
    /// The bytes were decoded, or failed with a message.
    Decoded(Option<String>),
    /// The cached bytes were deleted.
    Deleted,
    /// Whether the source lock was acquired.
    LockReply(bool),
    /// The object was fetched with the version the store gave, if any, or
    /// the fetch failed with a message.
    Fetched(Result<Option<String>, String>),
    /// The fetched version was cached as the object's version.
    VersionCached,
    /// The fetched bytes were stored.
    SourceStored,
    /// The lock was released.
    Released,
}

/// The view of an event.
pub enum SourceEventView {
    SourceBytes(bool),
    Decoded(Option<Seq<char>>),
    Deleted,
    LockReply(bool),
    Fetched(Result<Option<Seq<char>>, Seq<char>>),
    VersionCached,
    SourceStored,
    Released,
}

impl View for SourceEvent {
    type V = SourceEventView;

    open spec fn view(&self) -> SourceEventView {
        match self {
            SourceEvent::SourceBytes(b) => SourceEventView::SourceBytes(*b),
            SourceEvent::Decoded(e) => SourceEventView::Decoded(
                match e {
                    Some(m) => Some(m@),
                    None => None,
                },
            ),
            SourceEvent::Deleted => SourceEventView::Deleted,
            SourceEvent::LockReply(b) => SourceEventView::LockReply(*b),
            SourceEvent::Fetched(r) => SourceEventView::Fetched(
                match r {
                    Ok(Some(v)) => Ok(Some(v@)),
                    Ok(None) => Ok(None),
                    Err(m) => Err(m@),
                },
            ),
            SourceEvent::VersionCached => SourceEventView::VersionCached,
            SourceEvent::SourceStored => SourceEventView::SourceStored,
            SourceEvent::Released => SourceEventView::Released,
        }
    }
}

/// What the loader does next.
pub enum SourceLoadAction {
    /// Look the source bytes of a version up in the cache.
    GetSource(String),
    /// Decode the bytes just found in the cache.
    DecodeCached,
    /// Delete the cached bytes of a version, which did not decode.
    DeleteSource(String),
    TryLock,
    /// Wait for the lock holder's bytes of the requested version.
    WaitForSource,
    /// Fetch the object from storage.
    FetchObject,
    /// Cache a version as the object's version.
    CacheVersion(String),
    /// Store the fetched bytes under a version.
    StoreSource(String),
    /// Decode the fetched bytes.
    DecodeFetched,
    /// Release the source lock.
    Release,
    /// The load is over: the image is loaded at a version, or failed.
    Finish(Result<String, String>),
    /// The event was not the one awaited; nothing to do.
    Idle,
}

/// The view of an action.
pub enum SourceActionView {
    GetSource(Seq<char>),
    DecodeCached,
    DeleteSource(Seq<char>),
    TryLock,
    WaitForSource,
    FetchObject,
    CacheVersion(Seq<char>),
    StoreSource(Seq<char>),
    DecodeFetched,
    Release,
    Finish(Result<Seq<char>, Seq<char>>),
    Idle,
}

impl View for SourceLoadAction {
    type V = SourceActionView;

    open spec fn view(&self) -> SourceActionView {
        match self {
            SourceLoadAction::GetSource(v) => SourceActionView::GetSource(v@),
            SourceLoadAction::DecodeCached => SourceActionView::DecodeCached,
            SourceLoadAction::DeleteSource(v) => SourceActionView::DeleteSource(v@),
            SourceLoadAction::TryLock => SourceActionView::TryLock,
            SourceLoadAction::WaitForSource => SourceActionView::WaitForSource,
            SourceLoadAction::FetchObject => SourceActionView::FetchObject,
            SourceLoadAction::CacheVersion(v) => SourceActionView::CacheVersion(v@),
            SourceLoadAction::StoreSource(v) => SourceActionView::StoreSource(v@),
            SourceLoadAction::DecodeFetched => SourceActionView::DecodeFetched,
            SourceLoadAction::Release => SourceActionView::Release,
            SourceLoadAction::Finish(r) => SourceActionView::Finish(outcome_view(*r)),
            SourceLoadAction::Idle => SourceActionView::Idle,
        }
    }
}

/// Ends the load: at once when no lock is held, else after releasing it.
pub open spec fn source_finish_spec(s: SourceStateView, outcome: Result<Seq<char>, Seq<char>>) -> (
    SourceStateView,
    SourceActionView,
) {
    if s.lock_held {
        (
            SourceStateView { phase: SourcePhase::AwaitRelease, pending: Some(outcome), ..s },
            SourceActionView::Release,
        )
    } else {
        (
            SourceStateView { phase: SourcePhase::Done, pending: None, ..s },
            SourceActionView::Finish(outcome),
        )
    }
}

/// Moves to a phase with an action.
pub open spec fn source_next_spec(s: SourceStateView, phase: SourcePhase, action: SourceActionView) -> (
    SourceStateView,
    SourceActionView,
) {
    (SourceStateView { phase, ..s }, action)
}

/// Stores the fetched bytes under their version.
pub open spec fn store_fetched_spec(s: SourceStateView) -> (SourceStateView, SourceActionView) {
    source_next_spec(s, SourcePhase::AfterStoreVersion, SourceActionView::StoreSource(s.version))
}

/// After the version is cached: the cache under the fetched version when it
/// may hold the bytes already, else the store.
pub open spec fn after_version_spec(s: SourceStateView) -> (SourceStateView, SourceActionView) {
    if s.check_other_version {
        source_next_spec(s, SourcePhase::OtherLookup, SourceActionView::GetSource(s.version))
    } else {
        store_fetched_spec(s)
    }
}

/// One step of a source load; see the module's description.
pub open spec fn source_load_step_spec(s: SourceStateView, e: SourceEventView) -> (
    SourceStateView,
    SourceActionView,
) {
    match (s.phase, e) {
        (SourcePhase::FirstLookup, SourceEventView::SourceBytes(found)) => if found {
            source_next_spec(s, SourcePhase::FirstDecode, SourceActionView::DecodeCached)
        } else {
            source_next_spec(s, SourcePhase::AwaitLock, SourceActionView::TryLock)
        },
        (SourcePhase::FirstDecode, SourceEventView::Decoded(err)) => match err {
            None => source_finish_spec(s, Ok(s.requested)),
            Some(_) => source_next_spec(
                s,
                SourcePhase::FirstDelete,
                SourceActionView::DeleteSource(s.requested),
            ),
        },
        (SourcePhase::FirstDelete, SourceEventView::Deleted) => source_next_spec(
            s,
            SourcePhase::AwaitLock,
            SourceActionView::TryLock,
        ),
        (SourcePhase::AwaitLock, SourceEventView::LockReply(acquired)) => if acquired {
            (
                SourceStateView { phase: SourcePhase::SecondLookup, lock_held: true, ..s },
                SourceActionView::GetSource(s.requested),
            )
        } else {
            source_next_spec(s, SourcePhase::WaitLookup, SourceActionView::WaitForSource)
        },
        (SourcePhase::WaitLookup, SourceEventView::SourceBytes(found)) => if found {
            source_next_spec(s, SourcePhase::WaitDecode, SourceActionView::DecodeCached)
        } else {
            source_next_spec(s, SourcePhase::AwaitFetch, SourceActionView::FetchObject)
        },
        (SourcePhase::WaitDecode, SourceEventView::Decoded(err)) => match err {
            None => source_finish_spec(s, Ok(s.requested)),
            Some(_) => source_next_spec(
                s,
                SourcePhase::WaitDelete,
                SourceActionView::DeleteSource(s.requested),
            ),
        },
        (SourcePhase::WaitDelete, SourceEventView::Deleted) => source_next_spec(
            s,
            SourcePhase::AwaitFetch,
            SourceActionView::FetchObject,
        ),
        (SourcePhase::SecondLookup, SourceEventView::SourceBytes(found)) => if found {
            source_next_spec(s, SourcePhase::SecondDecode, SourceActionView::DecodeCached)
        } else {
            source_next_spec(s, SourcePhase::AwaitFetch, SourceActionView::FetchObject)
        },
        (SourcePhase::SecondDecode, SourceEventView::Decoded(err)) => match err {
            None => source_finish_spec(s, Ok(s.requested)),
            Some(_) => source_next_spec(
                s,
                SourcePhase::SecondDelete,
                SourceActionView::DeleteSource(s.requested),
            ),
        },
        (SourcePhase::SecondDelete, SourceEventView::Deleted) => source_next_spec(
            s,
            SourcePhase::AwaitFetch,
            SourceActionView::FetchObject,
        ),
        (SourcePhase::AwaitFetch, SourceEventView::Fetched(fetched)) => match fetched {
            Err(m) => source_finish_spec(s, Err(m)),
            Ok(object_version) => {
                let version = match object_version {
                    Some(v) => v,
                    None => s.requested,
                };
                let known = version != unknown_version_spec();
                let planned = SourceStateView {
                    version,
                    store_under_requested: version != s.requested,
                    check_other_version: version != s.requested && known,
                    ..s
                };
                if known {
                    source_next_spec(
                        planned,
                        SourcePhase::AfterCacheVersion,
                        SourceActionView::CacheVersion(version),
                    )
                } else {
                    after_version_spec(planned)
                }
            },
        },
        (SourcePhase::AfterCacheVersion, SourceEventView::VersionCached) => after_version_spec(s),
        (SourcePhase::OtherLookup, SourceEventView::SourceBytes(found)) => if found {
            source_next_spec(s, SourcePhase::OtherDecode, SourceActionView::DecodeCached)
        } else {
            store_fetched_spec(s)
        },
        (SourcePhase::OtherDecode, SourceEventView::Decoded(err)) => match err {
            None => source_finish_spec(s, Ok(s.version)),
            Some(_) => source_next_spec(
                s,
                SourcePhase::OtherDelete,
                SourceActionView::DeleteSource(s.version),
            ),
        },
        (SourcePhase::OtherDelete, SourceEventView::Deleted) => store_fetched_spec(s),
        (SourcePhase::AfterStoreVersion, SourceEventView::SourceStored) => if s.store_under_requested {
            source_next_spec(
                s,
                SourcePhase::AfterStoreRequested,
                SourceActionView::StoreSource(s.requested),
            )
        } else {
            source_next_spec(s, SourcePhase::FinalDecode, SourceActionView::DecodeFetched)
        },
        (SourcePhase::AfterStoreRequested, SourceEventView::SourceStored) => source_next_spec(
            s,
            SourcePhase::FinalDecode,
            SourceActionView::DecodeFetched,
        ),
        (SourcePhase::FinalDecode, SourceEventView::Decoded(err)) => match err {
            None => source_finish_spec(s, Ok(s.version)),
            Some(m) => source_finish_spec(s, Err(m)),
        },
        (SourcePhase::AwaitRelease, SourceEventView::Released) => match s.pending {
            Some(r) => (
                SourceStateView { phase: SourcePhase::Done, lock_held: false, pending: None, ..s },
                SourceActionView::Finish(r),
            ),
            None => (s, SourceActionView::Idle),
        },
        _ => (s, SourceActionView::Idle),
    }
}

impl SourceLoadState {
    /// A load of the source at the requested version; the first action is
    /// `GetSource` of that version.
    pub fn new(requested: &str) -> (res: (Self, SourceLoadAction))
        ensures
            res.0@ == (SourceStateView {
                phase: SourcePhase::FirstLookup,
                lock_held: false,
                requested: requested@,
                version: requested@,
                store_under_requested: false,
                check_other_version: false,
                pending: None,
            }),
            res.1@ == SourceActionView::GetSource(requested@),
    {
        let s = SourceLoadState {
            phase: SourcePhase::FirstLookup,
            lock_held: false,
            requested: requested.to_owned(),
            version: requested.to_owned(),
            store_under_requested: false,
            check_other_version: false,
            pending: None,
        };
        (s, SourceLoadAction::GetSource(requested.to_owned()))
    }
}

fn source_finish(s: SourceLoadState, outcome: Result<String, String>) -> (res: (
    SourceLoadState,
    SourceLoadAction,
))
    ensures
        (res.0@, res.1@) == source_finish_spec(s@, outcome_view(outcome)),
{
    if s.lock_held {
        (
            SourceLoadState { phase: SourcePhase::AwaitRelease, pending: Some(outcome), ..s },
            SourceLoadAction::Release,
        )
    } else {
        (
            SourceLoadState { phase: SourcePhase::Done, pending: None, ..s },
            SourceLoadAction::Finish(outcome),
        )
    }
}

fn source_next(s: SourceLoadState, phase: SourcePhase, action: SourceLoadAction) -> (res: (
    SourceLoadState,
    SourceLoadAction,
))
    ensures
        (res.0@, res.1@) == source_next_spec(s@, phase, action@),
{
    (SourceLoadState { phase, ..s }, action)
}

fn store_fetched(s: SourceLoadState) -> (res: (SourceLoadState, SourceLoadAction))
    ensures
        (res.0@, res.1@) == store_fetched_spec(s@),
{
    let v = s.version.clone();
    source_next(s, SourcePhase::AfterStoreVersion, SourceLoadAction::StoreSource(v))
}

fn after_version(s: SourceLoadState) -> (res: (SourceLoadState, SourceLoadAction))
    ensures
        (res.0@, res.1@) == after_version_spec(s@),
{
    if s.check_other_version {
        let v = s.version.clone();
        source_next(s, SourcePhase::OtherLookup, SourceLoadAction::GetSource(v))
    } else {
        store_fetched(s)
    }
}

/// Decides what a source load does after an event; see
/// `source_load_step_spec`.
pub fn source_load_step(state: SourceLoadState, event: SourceEvent) -> (res: (
    SourceLoadState,
    SourceLoadAction,
))
    ensures
        (res.0@, res.1@) == source_load_step_spec(state@, event@),
{
    let s = state;
    match (s.phase, event) {
        (SourcePhase::FirstLookup, SourceEvent::SourceBytes(found)) => if found {
            source_next(s, SourcePhase::FirstDecode, SourceLoadAction::DecodeCached)
        } else {
            source_next(s, SourcePhase::AwaitLock, SourceLoadAction::TryLock)
        },
        (SourcePhase::FirstDecode, SourceEvent::Decoded(err)) => {
            let r = s.requested.clone();
            match err {
                None => source_finish(s, Ok(r)),
                Some(_) => source_next(s, SourcePhase::FirstDelete, SourceLoadAction::DeleteSource(r)),
            }
        },
        (SourcePhase::FirstDelete, SourceEvent::Deleted) => source_next(
            s,
            SourcePhase::AwaitLock,
            SourceLoadAction::TryLock,
        ),
        (SourcePhase::AwaitLock, SourceEvent::LockReply(acquired)) => if acquired {
            let r = s.requested.clone();
            (
                SourceLoadState { phase: SourcePhase::SecondLookup, lock_held: true, ..s },
                SourceLoadAction::GetSource(r),
            )
        } else {
            source_next(s, SourcePhase::WaitLookup, SourceLoadAction::WaitForSource)
        },
        (SourcePhase::WaitLookup, SourceEvent::SourceBytes(found)) => if found {
            source_next(s, SourcePhase::WaitDecode, SourceLoadAction::DecodeCached)
        } else {
            source_next(s, SourcePhase::AwaitFetch, SourceLoadAction::FetchObject)
        },
        (SourcePhase::WaitDecode, SourceEvent::Decoded(err)) => {
            let r = s.requested.clone();
            match err {
                None => source_finish(s, Ok(r)),
                Some(_) => source_next(s, SourcePhase::WaitDelete, SourceLoadAction::DeleteSource(r)),
            }
        },
        (SourcePhase::WaitDelete, SourceEvent::Deleted) => source_next(
            s,
            SourcePhase::AwaitFetch,
            SourceLoadAction::FetchObject,
        ),
        (SourcePhase::SecondLookup, SourceEvent::SourceBytes(found)) => if found {
            source_next(s, SourcePhase::SecondDecode, SourceLoadAction::DecodeCached)
        } else {
            source_next(s, SourcePhase::AwaitFetch, SourceLoadAction::FetchObject)
        },
        (SourcePhase::SecondDecode, SourceEvent::Decoded(err)) => {
            let r = s.requested.clone();
            match err {
                None => source_finish(s, Ok(r)),
                Some(_) => source_next(
                    s,
                    SourcePhase::SecondDelete,
                    SourceLoadAction::DeleteSource(r),
                ),
            }
        },
        (SourcePhase::SecondDelete, SourceEvent::Deleted) => source_next(
            s,
            SourcePhase::AwaitFetch,
            SourceLoadAction::FetchObject,
        ),
        (SourcePhase::AwaitFetch, SourceEvent::Fetched(fetched)) => match fetched {
            Err(m) => source_finish(s, Err(m)),
            Ok(object_version) => {
                let plan = plan_after_fetch(object_version, s.requested.as_str());
                let known = plan.cache_version;
                let v = plan.version_token.clone();
                let planned = SourceLoadState {
                    version: plan.version_token,
                    store_under_requested: plan.store_under_requested,
                    check_other_version: plan.check_other_version,
                    ..s
                };
                if known {
                    source_next(
                        planned,
                        SourcePhase::AfterCacheVersion,
                        SourceLoadAction::CacheVersion(v),
                    )
                } else {
                    after_version(planned)
                }
            },
        },
        (SourcePhase::AfterCacheVersion, SourceEvent::VersionCached) => after_version(s),
        (SourcePhase::OtherLookup, SourceEvent::SourceBytes(found)) => if found {
            source_next(s, SourcePhase::OtherDecode, SourceLoadAction::DecodeCached)
        } else {
            store_fetched(s)
        },
        (SourcePhase::OtherDecode, SourceEvent::Decoded(err)) => {
            let v = s.version.clone();
            match err {
                None => source_finish(s, Ok(v)),
                Some(_) => source_next(s, SourcePhase::OtherDelete, SourceLoadAction::DeleteSource(v)),
            }
        },
        (SourcePhase::OtherDelete, SourceEvent::Deleted) => store_fetched(s),
        (SourcePhase::AfterStoreVersion, SourceEvent::SourceStored) => if s.store_under_requested {
            let r = s.requested.clone();
            source_next(s, SourcePhase::AfterStoreRequested, SourceLoadAction::StoreSource(r))
        } else {
            source_next(s, SourcePhase::FinalDecode, SourceLoadAction::DecodeFetched)
        },
        (SourcePhase::AfterStoreRequested, SourceEvent::SourceStored) => source_next(
            s,
            SourcePhase::FinalDecode,
            SourceLoadAction::DecodeFetched,
        ),
        (SourcePhase::FinalDecode, SourceEvent::Decoded(err)) => {
            let v = s.version.clone();
            match err {
                None => source_finish(s, Ok(v)),
                Some(m) => source_finish(s, Err(m)),
            }
        },
        (SourcePhase::AwaitRelease, SourceEvent::Released) => {
            let SourceLoadState {
                phase,
                lock_held,
                requested,
                version,
                store_under_requested,
                check_other_version,
                pending,
            } = s;
            match pending {
                Some(r) => (
                    SourceLoadState {
                        phase: SourcePhase::Done,
                        lock_held: false,
                        requested,
                        version,
                        store_under_requested,
                        check_other_version,
                        pending: None,
                    },
                    SourceLoadAction::Finish(r),
                ),
                None => (
                    SourceLoadState {
                        phase,
                        lock_held,
                        requested,
                        version,
                        store_under_requested,
                        check_other_version,
                        pending: None,
                    },
                    SourceLoadAction::Idle,
                ),
            }
        },
        (_, _) => (s, SourceLoadAction::Idle),
    }
}

// ---------------------------------------------------------------------------
// The lock is released before the load finishes
// ---------------------------------------------------------------------------

/// The state after the first `n` events.
pub open spec fn source_state_after(s: SourceStateView, events: Seq<SourceEventView>, n: int) -> SourceStateView
    decreases n,
{
    if n <= 0 {
        s
    } else {
        source_load_step_spec(source_state_after(s, events, n - 1), events[n - 1]).0
    }
}

/// The action decided on event `n`.
pub open spec fn source_action_at(s: SourceStateView, events: Seq<SourceEventView>, n: int) -> SourceActionView {
    source_load_step_spec(source_state_after(s, events, n), events[n]).1
}

proof fn lemma_source_step_facts(s: SourceStateView, e: SourceEventView)
    ensures
        s.phase == SourcePhase::Done ==> source_load_step_spec(s, e) == (s, SourceActionView::Idle),
        s.lock_held && !source_load_step_spec(s, e).0.lock_held ==> source_load_step_spec(
            s,
            e,
        ).0.phase == SourcePhase::Done,
        s.lock_held && source_load_step_spec(s, e).1 is Finish ==> s.phase
            == SourcePhase::AwaitRelease,
        s.phase != SourcePhase::AwaitRelease && source_load_step_spec(s, e).0.phase
            == SourcePhase::AwaitRelease ==> source_load_step_spec(s, e).1 is Release,
{
}

proof fn lemma_source_done_stays(s: SourceStateView, events: Seq<SourceEventView>, m: int, n: int)
    requires
        0 <= m <= n <= events.len(),
        source_state_after(s, events, m).phase == SourcePhase::Done,
    ensures
        source_state_after(s, events, n).phase == SourcePhase::Done,
    decreases n - m,
{
    if m < n {
        lemma_source_step_facts(source_state_after(s, events, m), events[m]);
        lemma_source_done_stays(s, events, m + 1, n);
    }
}

proof fn lemma_source_held_until_release(
    s: SourceStateView,
    events: Seq<SourceEventView>,
    i: int,
    m: int,
)
    requires
        0 <= i < m <= events.len(),
        source_state_after(s, events, i).phase == SourcePhase::AwaitLock,
        events[i] == SourceEventView::LockReply(true),
        source_state_after(s, events, m).phase != SourcePhase::Done,
    ensures
        source_state_after(s, events, m).lock_held,
        source_state_after(s, events, m).phase == SourcePhase::AwaitRelease ==> exists|k: int|
            i < k < m && #[trigger] source_action_at(s, events, k) is Release,
    decreases m - i,
{
    if m > i + 1 {
        let prev = source_state_after(s, events, m - 1);
        if prev.phase == SourcePhase::Done {
            lemma_source_done_stays(s, events, m - 1, m);
        }
        lemma_source_held_until_release(s, events, i, m - 1);
        lemma_source_step_facts(prev, events[m - 1]);
        if source_state_after(s, events, m).phase == SourcePhase::AwaitRelease && prev.phase
            != SourcePhase::AwaitRelease {
            assert(source_action_at(s, events, m - 1) is Release);
        }
    }
}

/// Once a loader has taken the source lock, it finishes only after a release
/// of that lock: if the lock is acquired on event `i`, a `Finish` decided on a
/// later event `j` is preceded by a `Release` decided on an event between them.
pub proof fn lemma_source_finish_after_release(
    s: SourceStateView,
    events: Seq<SourceEventView>,
    i: int,
    j: int,
)
    requires
        0 <= i < j < events.len(),
        source_state_after(s, events, i).phase == SourcePhase::AwaitLock,
        events[i] == SourceEventView::LockReply(true),
        source_action_at(s, events, j) is Finish,
    ensures
        exists|k: int| i < k < j && #[trigger] source_action_at(s, events, k) is Release,
{
    let sj = source_state_after(s, events, j);
    lemma_source_step_facts(sj, events[j]);
    lemma_source_held_until_release(s, events, i, j);
}

} // verus!
