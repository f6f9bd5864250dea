use imagik::observability::metrics::export::render_prometheus;
use imagik::caching::external::config::CacheConfig;
use imagik::caching::external::ExternalCache;
use imagik::config::env::EnvVars;
use imagik::handlers::image::flow::{
    canonical_result_key, error_response, note_resolved_version, plan_after_fetch,
    result_store_policy, settle_version_fetch, version_hint, RequestError, VersionFetch,
};
use imagik::observability::metrics::labels::ExternalCacheLayer;
use imagik::observability::metrics::registry::Metrics;

#[test]
fn error_responses() {
    assert_eq!(
        error_response(RequestError::InvalidParams("bad width".to_string())),
        (400, "bad width".to_string())
    );
    assert_eq!(
        error_response(RequestError::StorageUnavailable),
        (500, "failed to initialize object storage client".to_string())
    );
    assert_eq!(
        error_response(RequestError::InProgress),
        (503, "transform in progress; retry shortly".to_string())
    );
    assert_eq!(
        error_response(RequestError::LimiterUnavailable),
        (503, "transform concurrency limiter unavailable".to_string())
    );
    assert_eq!(
        error_response(RequestError::SourceLoad("boom".to_string())),
        (500, "failed to load source image: boom".to_string())
    );
    assert_eq!(
        error_response(RequestError::Processing),
        (500, "failed to process image".to_string())
    );
    assert_eq!(
        error_response(RequestError::MissingKey),
        (400, "missing object key (expected /image/{object_key})".to_string())
    );
}

#[test]
fn unknown_versions_are_counted_and_stored_briefly() {
    let mut metrics = Metrics::new();
    assert!(note_resolved_version(&mut metrics, "unknown"));
    assert!(!note_resolved_version(&mut metrics, "v1"));
    assert_eq!(metrics.unknown_version_total, 1);
    assert_eq!(result_store_policy("unknown", 5), (true, Some(5)));
    assert_eq!(result_store_policy("unknown", 0), (false, None));
    assert_eq!(result_store_policy("v1", 0), (true, None));
    assert_eq!(version_hint("unknown"), None);
    assert_eq!(version_hint("v2"), Some("v2"));
}

#[test]
fn version_fetches_settle() {
    let mut metrics = Metrics::new();
    let v = ExternalCacheLayer::Version.as_index();
    assert_eq!(
        settle_version_fetch(&mut metrics, VersionFetch::Found("v3".to_string()), 2),
        ("v3".to_string(), true)
    );
    assert_eq!(
        settle_version_fetch(&mut metrics, VersionFetch::NoVersion, 2),
        ("unknown".to_string(), false)
    );
    assert_eq!(
        settle_version_fetch(&mut metrics, VersionFetch::Failed, 2),
        ("unknown".to_string(), false)
    );
    assert_eq!(metrics.cache_misses[v], 1);
    assert_eq!(metrics.cache_errors[v], 1);
    assert_eq!(metrics.cache_get_hists[v].iter().sum::<u64>(), 3);
}

#[test]
fn fetch_plans() {
    let p = plan_after_fetch(Some("v2".to_string()), "v1");
    assert_eq!(p.version_token, "v2");
    assert!(p.cache_version && p.check_other_version && p.store_under_requested);
    let p = plan_after_fetch(None, "v1");
    assert_eq!(p.version_token, "v1");
    assert!(p.cache_version && !p.check_other_version && !p.store_under_requested);
    let p = plan_after_fetch(None, "unknown");
    assert!(!p.cache_version && !p.check_other_version && !p.store_under_requested);
    let p = plan_after_fetch(Some("unknown".to_string()), "v1");
    assert!(!p.cache_version && !p.check_other_version && p.store_under_requested);
}

#[test]
fn canonical_keys_only_for_other_versions() {
    let cache = ExternalCache::new(CacheConfig::from_env(&EnvVars { vars: Vec::new() }));
    assert_eq!(canonical_result_key(&cache, "o", "v", "v", "s"), None);
    assert_eq!(
        canonical_result_key(&cache, "o", "v2", "v", "s"),
        Some(cache.build_result_cache_key("o", "v2", "s"))
    );
}

use imagik::handlers::image::request::{
    content_type, record_reply, Reply,
    image_request_step, ImageAction, ImageEvent, ImageRequestState, ResponseBody,
};
use imagik::handlers::image::source::{
    source_load_step, SourceEvent, SourceLoadAction, SourceLoadState,
};

fn image_run(events: Vec<ImageEvent>) -> Vec<ImageAction> {
    let mut state = ImageRequestState::new();
    let mut actions = Vec::new();
    for e in events {
        let (next, action) = image_request_step(state, e);
        state = next;
        actions.push(action);
    }
    actions
}

fn names(actions: &[ImageAction]) -> Vec<&'static str> {
    actions
        .iter()
        .map(|a| match a {
            ImageAction::CheckKey => "check_key",
            ImageAction::ConnectStorage => "connect_storage",
            ImageAction::ConnectCache => "connect_cache",
            ImageAction::ResolveVersion => "resolve",
            ImageAction::LookupResult => "lookup",
            ImageAction::TryLock => "try_lock",
            ImageAction::WaitForResult => "wait",
            ImageAction::AcquirePermit => "permit",
            ImageAction::LoadSource => "load",
            ImageAction::Transform => "transform",
            ImageAction::Store { .. } => "store",
            ImageAction::Release => "release",
            ImageAction::Respond(_) => "respond",
            ImageAction::Idle => "idle",
        })
        .collect()
}

fn reply_of(a: &ImageAction) -> (u16, String) {
    match a {
        ImageAction::Respond(r) => match &r.body {
            ResponseBody::Webp(b) => (r.status, format!("webp:{}", b.len())),
            ResponseBody::Text(t) => (r.status, t.clone()),
        },
        _ => panic!("not an answer"),
    }
}

#[test]
fn image_request_full_run_releases_before_answering() {
    let actions = image_run(vec![
        ImageEvent::QueryParsed(None),
        ImageEvent::KeyChecked(None),
        ImageEvent::StorageReady(true),
        ImageEvent::CacheReady(5),
        ImageEvent::VersionResolved,
        ImageEvent::ResultFound(None),
        ImageEvent::LockReply(true),
        ImageEvent::ResultFound(None),
        ImageEvent::PermitGranted(true),
        ImageEvent::SourceLoaded(Ok("unknown".to_string())),
        ImageEvent::Transformed(Some(vec![1, 2, 3])),
        ImageEvent::Stored,
        ImageEvent::Released,
    ]);
    assert_eq!(
        names(&actions),
        vec![
            "check_key", "connect_storage", "connect_cache", "resolve", "lookup", "try_lock",
            "lookup", "permit", "load", "transform", "store", "release", "respond"
        ]
    );
    match &actions[10] {
        ImageAction::Store { store_result, ttl_override } => {
            assert!(*store_result);
            assert_eq!(*ttl_override, Some(5));
        }
        _ => panic!("expected a store"),
    }
    assert_eq!(reply_of(&actions[12]), (200, "webp:3".to_string()));
}

#[test]
fn image_request_failures_get_their_answers() {
    let a = image_run(vec![ImageEvent::QueryParsed(Some("width must be between 1 and 8192".to_string()))]);
    assert_eq!(reply_of(&a[0]), (400, "width must be between 1 and 8192".to_string()));
    let a = image_run(vec![ImageEvent::QueryParsed(None), ImageEvent::KeyChecked(None), ImageEvent::StorageReady(false)]);
    assert_eq!(reply_of(&a[2]), (500, "failed to initialize object storage client".to_string()));
    let a = image_run(vec![
        ImageEvent::QueryParsed(None),
        ImageEvent::KeyChecked(None),
        ImageEvent::StorageReady(true),
        ImageEvent::CacheReady(0),
        ImageEvent::VersionResolved,
        ImageEvent::ResultFound(None),
        ImageEvent::LockReply(false),
        ImageEvent::WaitedForResult(None),
    ]);
    assert_eq!(reply_of(&a[7]), (503, "transform in progress; retry shortly".to_string()));
    let a = image_run(vec![
        ImageEvent::QueryParsed(None),
        ImageEvent::KeyChecked(None),
        ImageEvent::StorageReady(true),
        ImageEvent::CacheReady(0),
        ImageEvent::VersionResolved,
        ImageEvent::ResultFound(None),
        ImageEvent::LockReply(true),
        ImageEvent::ResultFound(None),
        ImageEvent::PermitGranted(true),
        ImageEvent::SourceLoaded(Err("not found".to_string())),
        ImageEvent::Released,
    ]);
    assert_eq!(names(&a)[9], "release");
    assert_eq!(reply_of(&a[10]), (500, "failed to load source image: not found".to_string()));
    // An answer is not given before the release is reported.
    let a = image_run(vec![
        ImageEvent::QueryParsed(None),
        ImageEvent::KeyChecked(None),
        ImageEvent::StorageReady(true),
        ImageEvent::CacheReady(0),
        ImageEvent::VersionResolved,
        ImageEvent::ResultFound(None),
        ImageEvent::LockReply(true),
        ImageEvent::ResultFound(Some(vec![9])),
        ImageEvent::Stored,
    ]);
    assert_eq!(names(&a)[7..].to_vec(), vec!["release", "idle"]);
}

fn source_run(requested: &str, events: Vec<SourceEvent>) -> Vec<String> {
    let (mut state, first) = SourceLoadState::new(requested);
    let describe = |a: &SourceLoadAction| match a {
        SourceLoadAction::GetSource(v) => format!("get:{v}"),
        SourceLoadAction::DecodeCached => "decode_cached".to_string(),
        SourceLoadAction::DeleteSource(v) => format!("delete:{v}"),
        SourceLoadAction::TryLock => "try_lock".to_string(),
        SourceLoadAction::WaitForSource => "wait".to_string(),
        SourceLoadAction::FetchObject => "fetch".to_string(),
        SourceLoadAction::CacheVersion(v) => format!("cache_version:{v}"),
        SourceLoadAction::StoreSource(v) => format!("store:{v}"),
        SourceLoadAction::DecodeFetched => "decode_fetched".to_string(),
        SourceLoadAction::Release => "release".to_string(),
        SourceLoadAction::Finish(Ok(v)) => format!("finish:ok:{v}"),
        SourceLoadAction::Finish(Err(e)) => format!("finish:err:{e}"),
        SourceLoadAction::Idle => "idle".to_string(),
    };
    let mut out = vec![describe(&first)];
    for e in events {
        let (next, action) = source_load_step(state, e);
        state = next;
        out.push(describe(&action));
    }
    out
}

#[test]
fn source_load_fetches_stores_under_both_versions_and_releases() {
    let steps = source_run(
        "unknown",
        vec![
            SourceEvent::SourceBytes(false),
            SourceEvent::LockReply(true),
            SourceEvent::SourceBytes(false),
            SourceEvent::Fetched(Ok(Some("v2".to_string()))),
            SourceEvent::VersionCached,
            SourceEvent::SourceBytes(false),
            SourceEvent::SourceStored,
            SourceEvent::SourceStored,
            SourceEvent::Decoded(None),
            SourceEvent::Released,
        ],
    );
    assert_eq!(
        steps,
        vec![
            "get:unknown", "try_lock", "get:unknown", "fetch", "cache_version:v2", "get:v2",
            "store:v2", "store:unknown", "decode_fetched", "release", "finish:ok:v2"
        ]
    );
}

#[test]
fn source_load_without_the_lock_finishes_without_release() {
    let steps = source_run(
        "v1",
        vec![
            SourceEvent::SourceBytes(true),
            SourceEvent::Decoded(Some("bad bytes".to_string())),
            SourceEvent::Deleted,
            SourceEvent::LockReply(false),
            SourceEvent::SourceBytes(false),
            SourceEvent::Fetched(Err("object not found".to_string())),
        ],
    );
    assert_eq!(
        steps,
        vec![
            "get:v1", "decode_cached", "delete:v1", "try_lock", "wait", "fetch",
            "finish:err:object not found"
        ]
    );
}

#[test]
fn answers_are_counted_by_status_and_typed_by_body() {
    let mut m = Metrics::new();
    let image = Reply { status: 200, body: ResponseBody::Webp(vec![1]) };
    let refused = Reply { status: 503, body: ResponseBody::Text("busy".to_string()) };
    assert_eq!(content_type(&image), "image/webp");
    assert_eq!(content_type(&refused), "text/plain; charset=utf-8");
    record_reply(&mut m, &image, 3);
    record_reply(&mut m, &refused, 3);
    let out = render_prometheus(&m);
    assert!(out.contains("imagik_requests_total 2\n"));
    assert!(out.contains("imagik_requests_errors_total 1\n"));
}

#[test]
fn a_request_answers_once() {
    let actions = image_run(vec![
        ImageEvent::QueryParsed(Some("bad".to_string())),
        ImageEvent::KeyChecked(None),
        ImageEvent::Released,
    ]);
    assert_eq!(names(&actions), vec!["respond", "idle", "idle"]);
}
