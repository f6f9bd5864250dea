//! Fetching source objects: the settings that the fetches use and the
//! decisions of their retry loops.
//!
//! The requests themselves (HTTP or S3) are sent around the library; after
//! each response the library says whether to read it, retry or fail.
use vstd::prelude::*;
use crate::storage::object::client::{cache_namespace, namespace_spec};
use crate::storage::object::config::{ModeSettings, StorageSettings, StorageView};
use crate::storage::object::disk_cache::DiskCache;
use crate::storage::object::key::{storage_key, storage_key_spec};
use crate::storage::object::retry::{
    backoff_delay, backoff_spec, is_retryable_status, retryable_status_spec,
};
use crate::text::{decimal, opt_seq, push_char, push_decimal, push_str};

verus! {

/// The bytes of a source object and its version token, when the store gave one.
pub struct SourceObject {
    pub bytes: Vec<u8>,
    pub version_token: Option<String>,
}

/// What the fetches need besides the storage clients.
pub struct ObjectStorageSource {
    pub retry_attempts: u32,
    pub retry_backoff_ms: u64,
    pub max_object_bytes: usize,
    pub cache: Option<DiskCache>,
    pub cache_namespace: String,
    pub key_prefix: Option<String>,
}

impl ObjectStorageSource {
    /// Splits storage settings into what the fetches need and the access mode
    /// that the clients are built from; the cache namespace comes from the mode.
    pub fn from_settings(settings: StorageSettings) -> (res: (ObjectStorageSource, ModeSettings))
        ensures
            res.0.retry_attempts == settings@.retry_attempts,
            res.0.retry_backoff_ms == settings@.retry_backoff_ms,
            res.0.max_object_bytes == settings@.max_object_bytes,
            res.0.cache_namespace@ == namespace_spec(settings@.mode),
            opt_seq(res.0.key_prefix) == settings@.key_prefix,
            res.1@ == settings@.mode,
            match res.0.cache {
                Some(c) => settings@.cache == Some((c.dir@, c.ttl_secs, c.max_bytes))
                    && c.next_eviction_scan_ms == 0,
                None => settings@.cache is None,
            },
    {
        let ns = cache_namespace(&settings.mode);
        let cache = match settings.cache {
            Some(c) => Some(DiskCache::from_settings(c)),
            None => None,
        };
        (
            ObjectStorageSource {
                retry_attempts: settings.retry_attempts,
                retry_backoff_ms: settings.retry_backoff_ms,
                max_object_bytes: settings.max_object_bytes,
                cache,
                cache_namespace: ns,
                key_prefix: settings.key_prefix,
            },
            settings.mode,
        )
    }

    /// Applies the configured key prefix to an object key.
    pub fn storage_key(&self, object_key: &str) -> (key: String)
        ensures
            key@ == storage_key_spec(opt_seq(self.key_prefix), object_key@),
    {
        storage_key(&self.key_prefix, object_key)
    }

    /// The disk cache key of an object: the namespace, `:` and the storage
    /// key, then `:` and the version when one is known.
    pub fn source_cache_key(&self, storage_key: &str, version_hint: Option<&str>) -> (key: String)
        ensures
            key@ == source_cache_key_spec(
                self.cache_namespace@,
                storage_key@,
                match version_hint {
                    Some(v) => Some(v@),
                    None => None,
                },
            ),
    {
        let mut key = String::new();
        push_str(&mut key, self.cache_namespace.as_str());
        push_char(&mut key, ':');
        push_str(&mut key, storage_key);
        match version_hint {
            Some(v) => {
                push_char(&mut key, ':');
                push_str(&mut key, v);
            },
            None => {},
        }
        assert(key@ =~= source_cache_key_spec(
            self.cache_namespace@,
            storage_key@,
            match version_hint {
                Some(v) => Some(v@),
                None => None,
            },
        ));
        key
    }

    /// Whether another attempt follows attempt `attempt` (counted from 0) when
    /// it failed for a retryable reason.
    pub fn has_attempts_left(&self, attempt: u32) -> (res: bool)
        ensures
            res == (attempt < self.retry_attempts),
    {
        attempt < self.retry_attempts
    }

    /// What follows attempt `attempt` (counted from 0) of an S3 `HEAD` request
    /// for an object's version: its result is used when it succeeded; a
    /// failure with attempts left is retried after the backoff; the last
    /// failure gives up with its error.
    pub fn head_object_step(&self, attempt: u32, succeeded: bool) -> (step: HeadObjectStep)
        ensures
            step == head_object_step_spec(
                attempt,
                succeeded,
                self.retry_attempts,
                self.retry_backoff_ms,
            ),
    {
        if succeeded {
            HeadObjectStep::UseResult
        } else if attempt < self.retry_attempts {
            HeadObjectStep::RetryAfter(backoff_delay(self.retry_backoff_ms, attempt))
        } else {
            HeadObjectStep::GiveUp
        }
    }

    /// What to do with the status of a `HEAD` request for version headers.
    pub fn classify_head_status(&self, status: u16, attempt: u32) -> (action: HeadAction)
        ensures
            action == head_action_spec(status, attempt, self.retry_attempts),
    {
        if 200 <= status && status <= 299 {
            HeadAction::UseHeaders
        } else if status == 405 {
            HeadAction::NoHeaders
        } else if attempt < self.retry_attempts && is_retryable_status(status) {
            HeadAction::RetryAfterBackoff
        } else {
            HeadAction::TryAgainNow
        }
    }

    /// What to do with the status of a `GET` request for object bytes.
    pub fn classify_get_status(&self, status: u16, attempt: u32) -> (action: GetAction)
        ensures
            action == get_action_spec(status, attempt, self.retry_attempts),
    {
        if 200 <= status && status <= 299 {
            GetAction::ReadBody
        } else if attempt < self.retry_attempts && is_retryable_status(status) {
            GetAction::RetryAfterBackoff
        } else {
            GetAction::Fail
        }
    }

    /// Whether an object whose announced length is `length` is larger than
    /// the configured maximum.
    pub fn content_length_exceeds(&self, length: i64) -> (res: bool)
        ensures
            res == (length > self.max_object_bytes),
    {
        if self.max_object_bytes as u128 > i64::MAX as u128 {
            false
        } else {
            length > self.max_object_bytes as i64
        }
    }

    /// Whether a body of `len` bytes read so far is larger than the maximum.
    pub fn body_exceeds(&self, len: usize) -> (res: bool)
        ensures
            res == (len > self.max_object_bytes),
    {
        len > self.max_object_bytes
    }

    /// The error of an object that is larger than the maximum.
    pub fn too_large_message(&self) -> (msg: String)
        ensures
            msg@ == too_large_message_spec(self.max_object_bytes),
    {
        let mut msg = String::new();
        push_str(&mut msg, "object exceeded max configured size (");
        push_decimal(&mut msg, self.max_object_bytes as u64);
        push_str(&mut msg, " bytes)");
        msg
    }
}

/// The disk cache key of an object version.
pub open spec fn source_cache_key_spec(
    namespace: Seq<char>,
    storage_key: Seq<char>,
    version: Option<Seq<char>>,
) -> Seq<char> {
    match version {
        Some(v) => namespace.push(':') + storage_key.push(':') + v,
        None => namespace.push(':') + storage_key,
    }
}

/// The message of an object larger than `max` bytes.
pub open spec fn too_large_message_spec(max: usize) -> Seq<char> {
    "object exceeded max configured size ("@ + decimal(max as nat) + " bytes)"@
}

/// What follows the status of a version-header request.
#[derive(PartialEq, Eq, Structural)]
pub enum HeadAction {
    /// A success: read the version from the headers.
    UseHeaders,
    /// `405 Method Not Allowed`: the store gives no headers; no version.
    NoHeaders,
    /// A retryable failure with attempts left: wait for the backoff, try again.
    RetryAfterBackoff,
    /// Another failure: record it and go on to the next attempt at once.
    TryAgainNow,
}

pub open spec fn head_action_spec(status: u16, attempt: u32, retry_attempts: u32) -> HeadAction {
    if 200 <= status && status <= 299 {
        HeadAction::UseHeaders
    } else if status == 405 {
        HeadAction::NoHeaders
    } else if attempt < retry_attempts && retryable_status_spec(status) {
        HeadAction::RetryAfterBackoff
    } else {
        HeadAction::TryAgainNow
    }
}

/// What follows the status of an object request.
#[derive(PartialEq, Eq, Structural)]
pub enum GetAction {
    /// A success: read the body.
    ReadBody,
    /// A retryable failure (429 or 5xx) with attempts left: wait for the
    /// backoff, then send the request again.
    RetryAfterBackoff,
    /// Any other failure: fail at once.
    Fail,
}

pub open spec fn get_action_spec(status: u16, attempt: u32, retry_attempts: u32) -> GetAction {
    if 200 <= status && status <= 299 {
        GetAction::ReadBody
    } else if attempt < retry_attempts && retryable_status_spec(status) {
        GetAction::RetryAfterBackoff
    } else {
        GetAction::Fail
    }
}

/// What follows an attempt of an S3 `HEAD` request.
#[derive(PartialEq, Eq, Structural)]
pub enum HeadObjectStep {
    /// The request succeeded: read the version from its answer.
    UseResult,
    /// It failed with attempts left: wait this many milliseconds, send again.
    RetryAfter(u128),
    /// The last attempt failed: give up with its error.
    GiveUp,
}

pub open spec fn head_object_step_spec(
    attempt: u32,
    succeeded: bool,
    retry_attempts: u32,
    backoff_ms: u64,
) -> HeadObjectStep {
    if succeeded {
        HeadObjectStep::UseResult
    } else if attempt < retry_attempts {
        HeadObjectStep::RetryAfter(backoff_spec(backoff_ms, attempt) as u128)
    } else {
        HeadObjectStep::GiveUp
    }
}

/// The requests sent and the retries waited for from attempt `attempt` on,
/// when every request fails.
pub open spec fn failing_head_run(attempt: u32, retry_attempts: u32, backoff_ms: u64) -> (nat, nat)
    decreases retry_attempts - attempt,
{
    match head_object_step_spec(attempt, false, retry_attempts, backoff_ms) {
        HeadObjectStep::RetryAfter(_) => {
            let rest = failing_head_run((attempt + 1) as u32, retry_attempts, backoff_ms);
            (rest.0 + 1, rest.1 + 1)
        },
        _ => (1, 0),
    }
}

/// When storage keeps failing, the version request is sent `retry_attempts + 1`
/// times, with a backoff wait between each two, and then gives up.
pub proof fn lemma_failing_head_run(retry_attempts: u32, backoff_ms: u64, attempt: u32)
    requires
        attempt <= retry_attempts,
    ensures
        failing_head_run(attempt, retry_attempts, backoff_ms) == (
            (retry_attempts - attempt + 1) as nat,
            (retry_attempts - attempt) as nat,
        ),
    decreases retry_attempts - attempt,
{
    if attempt < retry_attempts {
        lemma_failing_head_run(retry_attempts, backoff_ms, (attempt + 1) as u32);
    }
}

} // verus!
