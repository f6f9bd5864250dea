//! The image request as a state machine.
//!
//! A request parses its parameters, checks its key, connects to storage and
//! to the cache, resolves the object's version and looks the result up in the cache. On a
//! miss it takes the result lock, looks again, waits for a transform permit,
//! loads the source, transforms it, stores the result, releases the lock and
//! answers. The caller performs each action and reports what came of it as
//! the next event; `image_request_step` decides what follows. A request that
//! holds the lock answers only after releasing it.
use crate::handlers::image::flow::{
    error_response, error_response_spec, result_store_policy, result_store_policy_spec,
    RequestError,
};
use crate::observability::metrics::registry::Metrics;
use crate::observability::metrics::request::{record_request_finished, request_finished_spec};
use vstd::prelude::*;

verus! {

/// The body of an answer.
pub enum ResponseBody {
    /// WebP image bytes.
    Webp(Vec<u8>),
    /// A plain-text message.
    Text(String),
}

/// The view of an answer's body.
pub enum BodyView {
    Webp(Seq<u8>),
    Text(Seq<char>),
}

/// An answer: its status and body.
pub struct Reply {
    pub status: u16,
    pub body: ResponseBody,
}

/// The view of an answer.
pub struct ReplyView {
    pub status: u16,
    pub body: BodyView,
}

impl View for Reply {
    type V = ReplyView;

    open spec fn view(&self) -> ReplyView {
        ReplyView {
            status: self.status,
            body: match self.body {
                ResponseBody::Webp(b) => BodyView::Webp(b@),
                ResponseBody::Text(t) => BodyView::Text(t@),
            },
        }
    }
}

/// Where a request stands: the event it waits for.
#[derive(Clone, Copy, PartialEq, Eq, Structural)]
pub enum ImagePhase {
    AwaitQuery,
    AwaitKey,
    AwaitStorage,
    AwaitCache,
    AwaitVersion,
    AwaitFirstLookup,
    AwaitLock,
    AwaitWait,
    AwaitSecondLookup,
    AwaitPermit,
    AwaitLoad,
    AwaitTransform,
    AwaitStore,
    AwaitRelease,
    Done,
}

/// The state of an image request.
pub struct ImageRequestState {
    pub phase: ImagePhase,
    /// Whether the request holds the result lock.
    pub lock_held: bool,
    /// The time to live of results of an unknown version.
    pub unknown_ttl_secs: u64,
    /// Whether the result is stored under its key, once the source is loaded.
    pub store_result: bool,
    /// The time to live that overrides the result layer's.
    pub ttl_override: Option<u64>,
    /// The answer given once the lock is released.
    pub pending: Option<Reply>,
}

/// The view of a request's state.
pub struct ImageStateView {
    pub phase: ImagePhase,
    pub lock_held: bool,
    pub unknown_ttl_secs: u64,
    pub store_result: bool,
    pub ttl_override: Option<u64>,
    pub pending: Option<ReplyView>,
}

impl View for ImageRequestState {
    type V = ImageStateView;

    open spec fn view(&self) -> ImageStateView {
        ImageStateView {
            phase: self.phase,
            lock_held: self.lock_held,
            unknown_ttl_secs: self.unknown_ttl_secs,
            store_result: self.store_result,
            ttl_override: self.ttl_override,
            pending: match self.pending {
                Some(r) => Some(r@),
                None => None,
            },
        }
    }
}

/// What came of the last action.
pub enum ImageEvent {
    /// The query was parsed: its error message, if it was refused.
    QueryParsed(Option<String>),
    /// The object key was checked: its error message, if it was refused.
    KeyChecked(Option<String>),
    /// Whether the storage client is available.
    StorageReady(bool),
    /// The cache client is ready; its time to live for results of an
    /// unknown version.
    CacheReady(u64),
    /// The object's version was resolved.
    VersionResolved,
    /// A lookup of the result: the bytes, if found.
    ResultFound(Option<Vec<u8>>),
    /// Whether the result lock was acquired.
    LockReply(bool),
    /// A wait for another request's result: the bytes, if they appeared.
    WaitedForResult(Option<Vec<u8>>),
    /// Whether a transform permit was granted.
    PermitGranted(bool),
    /// The source was loaded at a version, or failed with a message.
    SourceLoaded(Result<String, String>),
    /// The transform's WebP bytes, or `None` when the task failed.
    Transformed(Option<Vec<u8>>),
    /// The result was stored.
    Stored,
    /// The lock was released.
    Released,
}

/// The view of an event.
pub enum ImageEventView {
    QueryParsed(Option<Seq<char>>),
    KeyChecked(Option<Seq<char>>),
    StorageReady(bool),
    CacheReady(u64),
    VersionResolved,
    ResultFound(Option<Seq<u8>>),
    LockReply(bool),
    WaitedForResult(Option<Seq<u8>>),
    PermitGranted(bool),
    SourceLoaded(Result<Seq<char>, Seq<char>>),
    Transformed(Option<Seq<u8>>),
    Stored,
    Released,
}

impl View for ImageEvent {
    type V = ImageEventView;

    open spec fn view(&self) -> ImageEventView {
        match self {
            ImageEvent::QueryParsed(e) => ImageEventView::QueryParsed(
                match e {
                    Some(m) => Some(m@),
                    None => None,
                },
            ),
            ImageEvent::KeyChecked(e) => ImageEventView::KeyChecked(
                match e {
                    Some(m) => Some(m@),
                    None => None,
                },
            ),
            ImageEvent::StorageReady(b) => ImageEventView::StorageReady(*b),
            ImageEvent::CacheReady(t) => ImageEventView::CacheReady(*t),
            ImageEvent::VersionResolved => ImageEventView::VersionResolved,
            ImageEvent::ResultFound(r) => ImageEventView::ResultFound(
                match r {
                    Some(b) => Some(b@),
                    None => None,
                },
            ),
            ImageEvent::LockReply(b) => ImageEventView::LockReply(*b),
            ImageEvent::WaitedForResult(r) => ImageEventView::WaitedForResult(
                match r {
                    Some(b) => Some(b@),
                    None => None,
                },
            ),
            ImageEvent::PermitGranted(b) => ImageEventView::PermitGranted(*b),
            ImageEvent::SourceLoaded(r) => ImageEventView::SourceLoaded(
                match r {
                    Ok(v) => Ok(v@),
                    Err(m) => Err(m@),
                },
            ),
            ImageEvent::Transformed(r) => ImageEventView::Transformed(
                match r {
                    Some(b) => Some(b@),
                    None => None,
                },
            ),
            ImageEvent::Stored => ImageEventView::Stored,
            ImageEvent::Released => ImageEventView::Released,
        }
    }
}

/// What the caller does next.
pub enum ImageAction {
    CheckKey,
    ConnectStorage,
    ConnectCache,
    ResolveVersion,
    LookupResult,
    TryLock,
    WaitForResult,
    AcquirePermit,
    LoadSource,
    Transform,
    /// Store the result: under its key when `store_result`, with the time to
    /// live override; and under the loaded version's key when that differs.
    Store { store_result: bool, ttl_override: Option<u64> },
    /// Release the result lock.
    Release,
    /// Answer the request; it is over.
    Respond(Reply),
    /// The event was not the one awaited; nothing to do.
    Idle,
}

/// The view of an action.
pub enum ImageActionView {
    CheckKey,
    ConnectStorage,
    ConnectCache,
    ResolveVersion,
    LookupResult,
    TryLock,
    WaitForResult,
    AcquirePermit,
    LoadSource,
    Transform,
    Store { store_result: bool, ttl_override: Option<u64> },
    Release,
    Respond(ReplyView),
    Idle,
}

impl View for ImageAction {
    type V = ImageActionView;

    open spec fn view(&self) -> ImageActionView {
        match self {
            ImageAction::CheckKey => ImageActionView::CheckKey,
            ImageAction::ConnectStorage => ImageActionView::ConnectStorage,
            ImageAction::ConnectCache => ImageActionView::ConnectCache,
            ImageAction::ResolveVersion => ImageActionView::ResolveVersion,
            ImageAction::LookupResult => ImageActionView::LookupResult,
            ImageAction::TryLock => ImageActionView::TryLock,
            ImageAction::WaitForResult => ImageActionView::WaitForResult,
            ImageAction::AcquirePermit => ImageActionView::AcquirePermit,
            ImageAction::LoadSource => ImageActionView::LoadSource,
            ImageAction::Transform => ImageActionView::Transform,
            ImageAction::Store { store_result, ttl_override } => ImageActionView::Store {
                store_result: *store_result,
                ttl_override: *ttl_override,
            },
            ImageAction::Release => ImageActionView::Release,
            ImageAction::Respond(r) => ImageActionView::Respond(r@),
            ImageAction::Idle => ImageActionView::Idle,
        }
    }
}

/// The answer with a WebP image.
pub open spec fn image_reply(bytes: Seq<u8>) -> ReplyView {
    ReplyView { status: 200, body: BodyView::Webp(bytes) }
}

/// The answer to a failure.
pub open spec fn error_reply(e: RequestError) -> ReplyView {
    ReplyView { status: error_response_spec(e).0, body: BodyView::Text(error_response_spec(e).1) }
}

/// The answer with a message and status.
pub open spec fn text_reply(status: u16, message: Seq<char>) -> ReplyView {
    ReplyView { status, body: BodyView::Text(message) }
}

/// Ends the request with an answer: at once when no lock is held, else after
/// releasing the lock.
pub open spec fn finish_spec(s: ImageStateView, reply: ReplyView) -> (ImageStateView, ImageActionView) {
    if s.lock_held {
        (
            ImageStateView { phase: ImagePhase::AwaitRelease, pending: Some(reply), ..s },
            ImageActionView::Release,
        )
    } else {
        (
            ImageStateView { phase: ImagePhase::Done, pending: None, ..s },
            ImageActionView::Respond(reply),
        )
    }
}

/// Moves to a phase with an action.
pub open spec fn next_spec(s: ImageStateView, phase: ImagePhase, action: ImageActionView) -> (
    ImageStateView,
    ImageActionView,
) {
    (ImageStateView { phase, ..s }, action)
}

/// One step of the image request.
///
/// - A refused query or key is answered 400 with its message; storage that
///   cannot be reached 500.
/// - A cached result is answered at once. On a miss the lock is tried: held
///   by another request, its result is awaited and answered, or 503 when it
///   does not appear; taken, the cache is looked at again.
/// - Then a permit (503 when the limiter is closed), the source (500 with the
///   loader's message), the transform (500 when it fails), and the store.
/// - Every answer given while the lock is held waits for its release.
pub open spec fn image_request_step_spec(s: ImageStateView, e: ImageEventView) -> (
    ImageStateView,
    ImageActionView,
) {
    match (s.phase, e) {
        (ImagePhase::AwaitQuery, ImageEventView::QueryParsed(err)) => match err {
            Some(m) => finish_spec(s, text_reply(400, m)),
            None => next_spec(s, ImagePhase::AwaitKey, ImageActionView::CheckKey),
        },
        (ImagePhase::AwaitKey, ImageEventView::KeyChecked(err)) => match err {
            Some(m) => finish_spec(s, text_reply(400, m)),
            None => next_spec(s, ImagePhase::AwaitStorage, ImageActionView::ConnectStorage),
        },
        (ImagePhase::AwaitStorage, ImageEventView::StorageReady(ok)) => if ok {
            next_spec(s, ImagePhase::AwaitCache, ImageActionView::ConnectCache)
        } else {
            finish_spec(s, error_reply(RequestError::StorageUnavailable))
        },
        (ImagePhase::AwaitCache, ImageEventView::CacheReady(ttl)) => (
            ImageStateView { phase: ImagePhase::AwaitVersion, unknown_ttl_secs: ttl, ..s },
            ImageActionView::ResolveVersion,
        ),
        (ImagePhase::AwaitVersion, ImageEventView::VersionResolved) => next_spec(
            s,
            ImagePhase::AwaitFirstLookup,
            ImageActionView::LookupResult,
        ),
        (ImagePhase::AwaitFirstLookup, ImageEventView::ResultFound(found)) => match found {
            Some(b) => finish_spec(s, image_reply(b)),
            None => next_spec(s, ImagePhase::AwaitLock, ImageActionView::TryLock),
        },
        (ImagePhase::AwaitLock, ImageEventView::LockReply(acquired)) => if acquired {
            (
                ImageStateView { phase: ImagePhase::AwaitSecondLookup, lock_held: true, ..s },
                ImageActionView::LookupResult,
            )
        } else {
            next_spec(s, ImagePhase::AwaitWait, ImageActionView::WaitForResult)
        },
        (ImagePhase::AwaitWait, ImageEventView::WaitedForResult(found)) => match found {
            Some(b) => finish_spec(s, image_reply(b)),
            None => finish_spec(s, error_reply(RequestError::InProgress)),
        },
        (ImagePhase::AwaitSecondLookup, ImageEventView::ResultFound(found)) => match found {
            Some(b) => finish_spec(s, image_reply(b)),
            None => next_spec(s, ImagePhase::AwaitPermit, ImageActionView::AcquirePermit),
        },
        (ImagePhase::AwaitPermit, ImageEventView::PermitGranted(ok)) => if ok {
            next_spec(s, ImagePhase::AwaitLoad, ImageActionView::LoadSource)
        } else {
            finish_spec(s, error_reply(RequestError::LimiterUnavailable))
        },
        (ImagePhase::AwaitLoad, ImageEventView::SourceLoaded(loaded)) => match loaded {
            Ok(v) => {
                let policy = result_store_policy_spec(v, s.unknown_ttl_secs);
                (
                    ImageStateView {
                        phase: ImagePhase::AwaitTransform,
                        store_result: policy.0,
                        ttl_override: policy.1,
                        ..s
                    },
                    ImageActionView::Transform,
                )
            },
            Err(m) => finish_spec(
                s,
                text_reply(500, "failed to load source image: "@ + m),
            ),
        },
        (ImagePhase::AwaitTransform, ImageEventView::Transformed(out)) => match out {
            Some(b) => (
                ImageStateView {
                    phase: ImagePhase::AwaitStore,
                    pending: Some(image_reply(b)),
                    ..s
                },
                ImageActionView::Store { store_result: s.store_result, ttl_override: s.ttl_override },
            ),
            None => finish_spec(s, error_reply(RequestError::Processing)),
        },
        (ImagePhase::AwaitStore, ImageEventView::Stored) => match s.pending {
            Some(r) => finish_spec(s, r),
            None => (s, ImageActionView::Idle),
        },
        (ImagePhase::AwaitRelease, ImageEventView::Released) => match s.pending {
            Some(r) => (
                ImageStateView { phase: ImagePhase::Done, lock_held: false, pending: None, ..s },
                ImageActionView::Respond(r),
            ),
            None => (s, ImageActionView::Idle),
        },
        _ => (s, ImageActionView::Idle),
    }
}

impl ImageRequestState {
    /// A request that has done nothing yet; its first event is `QueryParsed`.
    pub fn new() -> (s: Self)
        ensures
            s@ == (ImageStateView {
                phase: ImagePhase::AwaitQuery,
                lock_held: false,
                unknown_ttl_secs: 0,
                store_result: false,
                ttl_override: None,
                pending: None,
            }),
    {
        ImageRequestState {
            phase: ImagePhase::AwaitQuery,
            lock_held: false,
            unknown_ttl_secs: 0,
            store_result: false,
            ttl_override: None,
            pending: None,
        }
    }
}

fn text_of(e: RequestError) -> (r: Reply)
    ensures
        r@ == error_reply(e),
{
    let (status, message) = error_response(e);
    Reply { status, body: ResponseBody::Text(message) }
}

fn finish(s: ImageRequestState, reply: Reply) -> (res: (ImageRequestState, ImageAction))
    ensures
        (res.0@, res.1@) == finish_spec(s@, reply@),
{
    if s.lock_held {
        (ImageRequestState { phase: ImagePhase::AwaitRelease, pending: Some(reply), ..s }, ImageAction::Release)
    } else {
        (ImageRequestState { phase: ImagePhase::Done, pending: None, ..s }, ImageAction::Respond(reply))
    }
}

fn next(s: ImageRequestState, phase: ImagePhase, action: ImageAction) -> (res: (
    ImageRequestState,
    ImageAction,
))
    ensures
        (res.0@, res.1@) == next_spec(s@, phase, action@),
{
    (ImageRequestState { phase, ..s }, action)
}

/// Decides what an image request does after an event; see
/// `image_request_step_spec`.
pub fn image_request_step(state: ImageRequestState, event: ImageEvent) -> (res: (
    ImageRequestState,
    ImageAction,
))
    ensures
        (res.0@, res.1@) == image_request_step_spec(state@, event@),
{
    let s = state;
    match (s.phase, event) {
        (ImagePhase::AwaitQuery, ImageEvent::QueryParsed(err)) => match err {
            Some(m) => finish(s, text_of(RequestError::InvalidParams(m))),
            None => next(s, ImagePhase::AwaitKey, ImageAction::CheckKey),
        },
        (ImagePhase::AwaitKey, ImageEvent::KeyChecked(err)) => match err {
            Some(m) => finish(s, text_of(RequestError::InvalidKey(m))),
            None => next(s, ImagePhase::AwaitStorage, ImageAction::ConnectStorage),
        },
        (ImagePhase::AwaitStorage, ImageEvent::StorageReady(ok)) => if ok {
            next(s, ImagePhase::AwaitCache, ImageAction::ConnectCache)
        } else {
            finish(s, text_of(RequestError::StorageUnavailable))
        },
        (ImagePhase::AwaitCache, ImageEvent::CacheReady(ttl)) => (
            ImageRequestState { phase: ImagePhase::AwaitVersion, unknown_ttl_secs: ttl, ..s },
            ImageAction::ResolveVersion,
        ),
        (ImagePhase::AwaitVersion, ImageEvent::VersionResolved) => next(
            s,
            ImagePhase::AwaitFirstLookup,
            ImageAction::LookupResult,
        ),
        (ImagePhase::AwaitFirstLookup, ImageEvent::ResultFound(found)) => match found {
            Some(b) => finish(s, Reply { status: 200, body: ResponseBody::Webp(b) }),
            None => next(s, ImagePhase::AwaitLock, ImageAction::TryLock),
        },
        (ImagePhase::AwaitLock, ImageEvent::LockReply(acquired)) => if acquired {
            (
                ImageRequestState { phase: ImagePhase::AwaitSecondLookup, lock_held: true, ..s },
                ImageAction::LookupResult,
            )
        } else {
            next(s, ImagePhase::AwaitWait, ImageAction::WaitForResult)
        },
        (ImagePhase::AwaitWait, ImageEvent::WaitedForResult(found)) => match found {
            Some(b) => finish(s, Reply { status: 200, body: ResponseBody::Webp(b) }),
            None => finish(s, text_of(RequestError::InProgress)),
        },
        (ImagePhase::AwaitSecondLookup, ImageEvent::ResultFound(found)) => match found {
            Some(b) => finish(s, Reply { status: 200, body: ResponseBody::Webp(b) }),
            None => next(s, ImagePhase::AwaitPermit, ImageAction::AcquirePermit),
        },
        (ImagePhase::AwaitPermit, ImageEvent::PermitGranted(ok)) => if ok {
            next(s, ImagePhase::AwaitLoad, ImageAction::LoadSource)
        } else {
            finish(s, text_of(RequestError::LimiterUnavailable))
        },
        (ImagePhase::AwaitLoad, ImageEvent::SourceLoaded(loaded)) => match loaded {
            Ok(v) => {
                let policy = result_store_policy(v.as_str(), s.unknown_ttl_secs);
                (
                    ImageRequestState {
                        phase: ImagePhase::AwaitTransform,
                        store_result: policy.0,
                        ttl_override: policy.1,
                        ..s
                    },
                    ImageAction::Transform,
                )
            },
            Err(m) => finish(s, text_of(RequestError::SourceLoad(m))),
        },
        (ImagePhase::AwaitTransform, ImageEvent::Transformed(out)) => match out {
            Some(b) => {
                let action = ImageAction::Store {
                    store_result: s.store_result,
                    ttl_override: s.ttl_override,
                };
                (
                    ImageRequestState {
                        phase: ImagePhase::AwaitStore,
                        pending: Some(Reply { status: 200, body: ResponseBody::Webp(b) }),
                        ..s
                    },
                    action,
                )
            },
            None => finish(s, text_of(RequestError::Processing)),
        },
        (ImagePhase::AwaitStore, ImageEvent::Stored) => {
            let ImageRequestState {
                phase,
                lock_held,
                unknown_ttl_secs,
                store_result,
                ttl_override,
                pending,
            } = s;
            match pending {
                Some(r) => finish(
                    ImageRequestState {
                        phase,
                        lock_held,
                        unknown_ttl_secs,
                        store_result,
                        ttl_override,
                        pending: None,
                    },
                    r,
                ),
                None => (
                    ImageRequestState {
                        phase,
                        lock_held,
                        unknown_ttl_secs,
                        store_result,
                        ttl_override,
                        pending: None,
                    },
                    ImageAction::Idle,
                ),
            }
        },
        (ImagePhase::AwaitRelease, ImageEvent::Released) => {
            let ImageRequestState {
                phase,
                lock_held,
                unknown_ttl_secs,
                store_result,
                ttl_override,
                pending,
            } = s;
            match pending {
                Some(r) => (
                    ImageRequestState {
                        phase: ImagePhase::Done,
                        lock_held: false,
                        unknown_ttl_secs,
                        store_result,
                        ttl_override,
                        pending: None,
                    },
                    ImageAction::Respond(r),
                ),
                None => (
                    ImageRequestState {
                        phase,
                        lock_held,
                        unknown_ttl_secs,
                        store_result,
                        ttl_override,
                        pending: None,
                    },
                    ImageAction::Idle,
                ),
            }
        },
        (_, _) => (s, ImageAction::Idle),
    }
}

// ---------------------------------------------------------------------------
// The lock is released before every answer
// ---------------------------------------------------------------------------

/// The state after the first `n` events.
pub open spec fn image_state_after(s: ImageStateView, events: Seq<ImageEventView>, n: int) -> ImageStateView
    decreases n,
{
    if n <= 0 {
        s
    } else {
        image_request_step_spec(image_state_after(s, events, n - 1), events[n - 1]).0
    }
}

/// The action decided on event `n`.
pub open spec fn image_action_at(s: ImageStateView, events: Seq<ImageEventView>, n: int) -> ImageActionView {
    image_request_step_spec(image_state_after(s, events, n), events[n]).1
}

proof fn lemma_image_step_facts(s: ImageStateView, e: ImageEventView)
    ensures
        s.phase == ImagePhase::Done ==> image_request_step_spec(s, e) == (s, ImageActionView::Idle),
        s.lock_held && !image_request_step_spec(s, e).0.lock_held ==> image_request_step_spec(
            s,
            e,
        ).0.phase == ImagePhase::Done,
        s.lock_held && image_request_step_spec(s, e).1 is Respond ==> s.phase
            == ImagePhase::AwaitRelease,
        s.phase != ImagePhase::AwaitRelease && image_request_step_spec(s, e).0.phase
            == ImagePhase::AwaitRelease ==> image_request_step_spec(s, e).1 is Release,
{
}

proof fn lemma_image_done_stays(s: ImageStateView, events: Seq<ImageEventView>, m: int, n: int)
    requires
        0 <= m <= n <= events.len(),
        image_state_after(s, events, m).phase == ImagePhase::Done,
    ensures
        image_state_after(s, events, n).phase == ImagePhase::Done,
    decreases n - m,
{
    if m < n {
        lemma_image_step_facts(image_state_after(s, events, m), events[m]);
        lemma_image_done_stays(s, events, m + 1, n);
    }
}

proof fn lemma_image_held_until_release(
    s: ImageStateView,
    events: Seq<ImageEventView>,
    i: int,
    m: int,
)
    requires
        0 <= i < m <= events.len(),
        image_state_after(s, events, i).phase == ImagePhase::AwaitLock,
        events[i] == ImageEventView::LockReply(true),
        image_state_after(s, events, m).phase != ImagePhase::Done,
    ensures
        image_state_after(s, events, m).lock_held,
        image_state_after(s, events, m).phase == ImagePhase::AwaitRelease ==> exists|k: int|
            i < k < m && #[trigger] image_action_at(s, events, k) is Release,
    decreases m - i,
{
    if m > i + 1 {
        let prev = image_state_after(s, events, m - 1);
        if prev.phase == ImagePhase::Done {
            lemma_image_done_stays(s, events, m - 1, m);
        }
        lemma_image_held_until_release(s, events, i, m - 1);
        lemma_image_step_facts(prev, events[m - 1]);
        if image_state_after(s, events, m).phase == ImagePhase::AwaitRelease && prev.phase
            != ImagePhase::AwaitRelease {
            assert(image_action_at(s, events, m - 1) is Release);
        }
    }
}

/// Once a request has taken the result lock, every answer it gives comes
/// after a release of that lock: for a run of events from any state, if the
/// lock is acquired on event `i`, an answer decided on a later event `j` is
/// preceded by a `Release` decided on an event between them.
pub proof fn lemma_image_respond_after_release(
    s: ImageStateView,
    events: Seq<ImageEventView>,
    i: int,
    j: int,
)
    requires
        0 <= i < j < events.len(),
        image_state_after(s, events, i).phase == ImagePhase::AwaitLock,
        events[i] == ImageEventView::LockReply(true),
        image_action_at(s, events, j) is Respond,
    ensures
        exists|k: int| i < k < j && #[trigger] image_action_at(s, events, k) is Release,
{
    let sj = image_state_after(s, events, j);
    lemma_image_step_facts(sj, events[j]);
    lemma_image_held_until_release(s, events, i, j);
}

// ---------------------------------------------------------------------------
// Each run answers once, and the answer is counted by its status
// ---------------------------------------------------------------------------

/// The content type of an answer: WebP for an image, plain text for a message.
pub open spec fn content_type_spec(r: ReplyView) -> Seq<char> {
    match r.body {
        BodyView::Webp(_) => "image/webp"@,
        BodyView::Text(_) => "text/plain; charset=utf-8"@,
    }
}

/// The content type with which an answer is sent.
pub fn content_type(reply: &Reply) -> (t: &'static str)
    ensures
        t@ == content_type_spec(reply@),
{
    match reply.body {
        ResponseBody::Webp(_) => "image/webp",
        ResponseBody::Text(_) => "text/plain; charset=utf-8",
    }
}

/// Counts an answered request: once, as a failure exactly when its status is
/// not 200, with its latency.
pub fn record_reply(metrics: &mut Metrics, reply: &Reply, millis: u64)
    requires
        old(metrics)@.wf(),
    ensures
        final(metrics)@ == request_finished_spec(old(metrics)@, millis, reply.status == 200),
{
    record_request_finished(metrics, millis, reply.status == 200);
}

/// An answer is a success (200) exactly when it carries an image; a message
/// goes with a failure status: 400, 500 or 503.
pub open spec fn reply_consistent(r: ReplyView) -> bool {
    &&& (r.status == 200) == (r.body is Webp)
    &&& (r.status == 200 || r.status == 400 || r.status == 500 || r.status == 503)
}

/// The invariant of a request's state: a pending answer is consistent.
pub open spec fn image_state_inv(s: ImageStateView) -> bool {
    match s.pending {
        Some(r) => reply_consistent(r),
        None => true,
    }
}

/// Every answer the request decides is consistent: status 200 with a WebP
/// image, and otherwise a message with a failure status (400, 500 or 503);
/// the invariant is kept.
pub proof fn lemma_image_answers_consistent(s: ImageStateView, e: ImageEventView)
    requires
        image_state_inv(s),
    ensures
        image_state_inv(image_request_step_spec(s, e).0),
        image_request_step_spec(s, e).1 matches ImageActionView::Respond(r) ==> reply_consistent(r),
{
    reveal_strlit("failed to initialize object storage client");
}

proof fn lemma_image_respond_ends(s: ImageStateView, e: ImageEventView)
    ensures
        image_request_step_spec(s, e).1 is Respond ==> image_request_step_spec(s, e).0.phase
            == ImagePhase::Done,
{
}

/// A request answers at most once: after the event on which an answer is
/// decided, every later event decides nothing.
pub proof fn lemma_image_answers_once(s: ImageStateView, events: Seq<ImageEventView>, i: int, j: int)
    requires
        0 <= i < j < events.len(),
        image_action_at(s, events, i) is Respond,
    ensures
        image_action_at(s, events, j) is Idle,
{
    lemma_image_respond_ends(image_state_after(s, events, i), events[i]);
    lemma_image_done_stays(s, events, i + 1, j);
    lemma_image_step_facts(image_state_after(s, events, j), events[j]);
}

/// Found results are served: when a lookup of the result, or a wait for
/// another request's result, delivers bytes, the request answers with exactly
/// those bytes as a WebP image with status 200, never with a failure. It
/// answers at once when it holds no lock, and otherwise releases the lock
/// first, keeping that answer for after the release. The event is acted on
/// whenever the request is waiting for it.
pub proof fn lemma_found_results_are_served(s: ImageStateView, b: Seq<u8>, found_by_wait: bool)
    ensures
        ({
            let e = if found_by_wait {
                ImageEventView::WaitedForResult(Some(b))
            } else {
                ImageEventView::ResultFound(Some(b))
            };
            let served = ReplyView { status: 200, body: BodyView::Webp(b) };
            let next = image_request_step_spec(s, e).0;
            let action = image_request_step_spec(s, e).1;
            &&& action is Idle || (!s.lock_held && action == ImageActionView::Respond(served)) || (
            s.lock_held && action is Release && next.pending == Some(served))
            &&& (action matches ImageActionView::Respond(r) ==> r.status == 200)
            &&& (found_by_wait && s.phase == ImagePhase::AwaitWait ==> !(action is Idle))
            &&& (!found_by_wait && (s.phase == ImagePhase::AwaitFirstLookup || s.phase
                == ImagePhase::AwaitSecondLookup) ==> !(action is Idle))
        }),
{
}

/// A request waits for a release only while it holds the lock, and the
/// answer it keeps while storing a result is that result (status 200). A new
/// request satisfies this, and every step keeps it so.
pub open spec fn release_awaited_with_lock(s: ImageStateView) -> bool {
    &&& s.phase == ImagePhase::AwaitRelease ==> s.lock_held
    &&& s.phase == ImagePhase::AwaitStore ==> (s.pending matches Some(r) && r.status == 200)
}

/// Every step keeps `release_awaited_with_lock`.
pub proof fn lemma_release_awaited_with_lock(s: ImageStateView, e: ImageEventView)
    requires
        release_awaited_with_lock(s),
    ensures
        release_awaited_with_lock(image_request_step_spec(s, e).0),
{
}

/// A request that could not take the lock answers `503` only when its wait
/// for the other request's result found nothing.
pub proof fn lemma_busy_only_when_nothing_found(s: ImageStateView, e: ImageEventView)
    requires
        release_awaited_with_lock(s),
        !s.lock_held,
    ensures
        image_request_step_spec(s, e).1 == ImageActionView::Respond(
            error_reply(RequestError::InProgress),
        ) ==> e == ImageEventView::WaitedForResult(None),
{
    reveal_strlit("transform in progress; retry shortly");
    reveal_strlit("transform concurrency limiter unavailable");
    reveal_strlit("failed to initialize object storage client");
    reveal_strlit("failed to process image");
    reveal_strlit("failed to load source image: ");
    assert("transform in progress; retry shortly"@[0] == 't');
    assert("transform concurrency limiter unavailable"@[10] == 'c');
    assert("transform in progress; retry shortly"@[10] == 'i');
}

} // verus!
