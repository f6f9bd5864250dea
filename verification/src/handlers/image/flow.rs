//! The decisions of the image request.
//!
//! A request parses its parameters and key, resolves the object's version,
//! looks the result up, takes a lock, loads the source, transforms it and
//! stores the result. The awaits happen around the library; these functions
//! decide, from what each step returned, what the request does next.
use vstd::prelude::*;
use crate::caching::external::ExternalCache;
use crate::caching::external::keys::blake3_hex;
use crate::observability::metrics::cache::{
    after_error, after_get_latency, after_miss, record_cache_error, record_cache_get_latency,
    record_cache_miss, record_unknown_version,
};
use crate::observability::metrics::labels::ExternalCacheLayer;
use crate::observability::metrics::latency::bump;
use crate::observability::metrics::registry::{Metrics, MetricsView};
use crate::text::{join, opt_seq, push_str, str_eq};

verus! {

/// The version token used when an object's version is unknown.
pub open spec fn unknown_version_spec() -> Seq<char> {
    "unknown"@
}

/// The version token used when an object's version is unknown.
pub fn unknown_version_token() -> (t: &'static str)
    ensures
        t@ == unknown_version_spec(),
{
    "unknown"
}

/// Why an image request failed.
pub enum RequestError {
    /// The parameters did not parse; the parser's message.
    InvalidParams(String),
    /// The object key was refused; the validator's message.
    InvalidKey(String),
    /// The storage client could not be built.
    StorageUnavailable,
    /// Another request holds the lock and the result did not appear in time.
    InProgress,
    /// The transform limiter is closed.
    LimiterUnavailable,
    /// The source could not be loaded; the loader's message.
    SourceLoad(String),
    /// The transform task failed.
    Processing,
    /// The path named no object.
    MissingKey,
}

/// The status and message of a failed request.
pub open spec fn error_response_spec(e: RequestError) -> (u16, Seq<char>) {
    match e {
        RequestError::InvalidParams(m) => (400, m@),
        RequestError::InvalidKey(m) => (400, m@),
        RequestError::StorageUnavailable => (500, "failed to initialize object storage client"@),
        RequestError::InProgress => (503, "transform in progress; retry shortly"@),
        RequestError::LimiterUnavailable => (503, "transform concurrency limiter unavailable"@),
        RequestError::SourceLoad(m) => (500, "failed to load source image: "@ + m@),
        RequestError::Processing => (500, "failed to process image"@),
        RequestError::MissingKey => (400, "missing object key (expected /image/{object_key})"@),
    }
}

/// The status and message with which a failed request is answered.
pub fn error_response(e: RequestError) -> (res: (u16, String))
    ensures
        res.0 == error_response_spec(e).0,
        res.1@ == error_response_spec(e).1,
{
    match e {
        RequestError::InvalidParams(m) => (400, m),
        RequestError::InvalidKey(m) => (400, m),
        RequestError::StorageUnavailable => (
            500,
            "failed to initialize object storage client".to_owned(),
        ),
        RequestError::InProgress => (503, "transform in progress; retry shortly".to_owned()),
        RequestError::LimiterUnavailable => (
            503,
            "transform concurrency limiter unavailable".to_owned(),
        ),
        RequestError::SourceLoad(m) => {
            let mut msg = String::new();
            push_str(&mut msg, "failed to load source image: ");
            push_str(&mut msg, m.as_str());
            (500, msg)
        },
        RequestError::Processing => (500, "failed to process image".to_owned()),
        RequestError::MissingKey => (
            400,
            "missing object key (expected /image/{object_key})".to_owned(),
        ),
    }
}

/// Notes the version a request resolved: whether it is unknown, which is
/// counted.
pub fn note_resolved_version(metrics: &mut Metrics, version: &str) -> (unknown: bool)
    ensures
        unknown == (version@ == unknown_version_spec()),
        final(metrics)@ == if unknown {
            MetricsView { unknown_version_total: bump(old(metrics)@.unknown_version_total), ..old(metrics)@ }
        } else {
            old(metrics)@
        },
{
    let unknown = str_eq(version, unknown_version_token());
    if unknown {
        record_unknown_version(metrics);
    }
    unknown
}

/// How a result is stored once computed: whether it is stored under its key,
/// and the time to live that overrides the layer's (the unknown-version one
/// when the version is unknown and that is not zero). A result of an unknown
/// version is not stored when that time to live is zero.
pub open spec fn result_store_policy_spec(effective_version: Seq<char>, unknown_ttl: u64) -> (bool, Option<u64>) {
    let unknown = effective_version == unknown_version_spec();
    (!unknown || unknown_ttl != 0, if unknown && unknown_ttl > 0 {
        Some(unknown_ttl)
    } else {
        None
    })
}

/// Decides how a computed result is stored.
pub fn result_store_policy(effective_version: &str, unknown_ttl: u64) -> (res: (bool, Option<u64>))
    ensures
        res == result_store_policy_spec(effective_version@, unknown_ttl),
{
    let unknown = str_eq(effective_version, unknown_version_token());
    let ttl = if unknown && unknown_ttl > 0 {
        Some(unknown_ttl)
    } else {
        None
    };
    (!unknown || unknown_ttl != 0, ttl)
}

/// The key under which a result is also stored when loading the source found
/// another version than the one resolved: the result key of that version.
pub fn canonical_result_key(
    cache: &ExternalCache,
    object_key: &str,
    effective_version: &str,
    resolved_version: &str,
    transform_signature: &str,
) -> (key: Option<String>)
    ensures
        match key {
            Some(k) => effective_version@ != resolved_version@ && k@ == join(
                seq![
                    cache.config.prefix@,
                    "result"@,
                    blake3_hex(object_key@),
                    blake3_hex(effective_version@),
                    blake3_hex(transform_signature@),
                ],
                ':',
            ),
            None => effective_version@ == resolved_version@,
        },
{
    if str_eq(effective_version, resolved_version) {
        None
    } else {
        Some(cache.build_result_cache_key(object_key, effective_version, transform_signature))
    }
}

/// What a version lookup in storage gave.
pub enum VersionFetch {
    /// The object's version token.
    Found(String),
    /// The store gives no version.
    NoVersion,
    /// The lookup failed.
    Failed,
}

/// Settles a version lookup in storage that took `millis`: its latency is
/// recorded; a version found is used and cached (`true`); otherwise the
/// unknown token is used, and a miss or an error recorded.
pub fn settle_version_fetch(metrics: &mut Metrics, fetched: VersionFetch, millis: u64) -> (res: (
    String,
    bool,
))
    requires
        old(metrics)@.wf(),
    ensures
        ({
            let timed = after_get_latency(old(metrics)@, ExternalCacheLayer::Version, millis);
            match fetched {
                VersionFetch::Found(v) => res.0@ == v@ && res.1 && final(metrics)@ == timed,
                VersionFetch::NoVersion => res.0@ == unknown_version_spec() && !res.1
                    && final(metrics)@ == after_miss(timed, ExternalCacheLayer::Version),
                VersionFetch::Failed => res.0@ == unknown_version_spec() && !res.1
                    && final(metrics)@ == after_error(timed, ExternalCacheLayer::Version),
            }
        }),
{
    record_cache_get_latency(metrics, ExternalCacheLayer::Version, millis);
    match fetched {
        VersionFetch::Found(v) => (v, true),
        VersionFetch::NoVersion => {
            record_cache_miss(metrics, ExternalCacheLayer::Version);
            (unknown_version_token().to_owned(), false)
        },
        VersionFetch::Failed => {
            record_cache_error(metrics, ExternalCacheLayer::Version);
            (unknown_version_token().to_owned(), false)
        },
    }
}

/// The version to ask storage for: none when the requested one is unknown.
pub fn version_hint<'a>(requested: &'a str) -> (hint: Option<&'a str>)
    ensures
        match hint {
            Some(h) => h@ == requested@ && requested@ != unknown_version_spec(),
            None => requested@ == unknown_version_spec(),
        },
{
    if str_eq(requested, unknown_version_token()) {
        None
    } else {
        Some(requested)
    }
}

/// What follows a fetch of source bytes from storage.
pub struct FetchedPlan {
    /// The version of the bytes: the one the store gave, else the one requested.
    pub version_token: String,
    /// Whether that version is cached as the object's version (it is known).
    pub cache_version: bool,
    /// Whether the cache may hold bytes of that version already (it is known
    /// and not the one requested).
    pub check_other_version: bool,
    /// Whether the bytes are also stored under the requested version.
    pub store_under_requested: bool,
}

/// Plans the steps after a fetch, from the version the store gave and the one requested.
pub fn plan_after_fetch(object_version: Option<String>, requested: &str) -> (plan: FetchedPlan)
    ensures
        plan.version_token@ == match opt_seq(object_version) {
            Some(v) => v,
            None => requested@,
        },
        plan.cache_version == (plan.version_token@ != unknown_version_spec()),
        plan.check_other_version == (plan.version_token@ != requested@ && plan.version_token@
            != unknown_version_spec()),
        plan.store_under_requested == (plan.version_token@ != requested@),
{
    let version_token = match object_version {
        Some(v) => v,
        None => requested.to_owned(),
    };
    let known = !str_eq(version_token.as_str(), unknown_version_token());
    let differs = !str_eq(version_token.as_str(), requested);
    FetchedPlan {
        version_token,
        cache_version: known,
        check_other_version: differs && known,
        store_under_requested: differs,
    }
}

} // verus!
