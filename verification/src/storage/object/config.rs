//! Object storage settings read from the environment.
//!
//! Each setting is read under its `IMAGIK_STORAGE_*` name, then under its
//! older `IMAGIK_OBJECT_*` name. The access mode is chosen explicitly or
//! detected from what is configured (a signed URL template or an S3 bucket).
use vstd::prelude::*;
use crate::config::env::{env_lookup, EnvVars};
use crate::storage::object::key::{normalize_key_prefix, normalize_key_prefix_spec};
use crate::text::{
    chars_eq_str, chars_of, is_truthy, lower_seq, opt_seq, parse_u32_spec, parse_u64_spec,
    parse_usize_spec, string_of, to_ascii_lowercase, trim, trim_ws, truthy,
};
use crate::text;

verus! {

pub const DEFAULT_TIMEOUT_MS: u64 = 5_000;

pub const DEFAULT_CONNECT_TIMEOUT_MS: u64 = 1_500;

pub const DEFAULT_MAX_RETRIES: u32 = 3;

pub const DEFAULT_RETRY_BACKOFF_MS: u64 = 150;

pub const DEFAULT_MAX_OBJECT_BYTES: usize = 67_108_864;

pub const DEFAULT_CACHE_TTL_SECS: u64 = 600;

pub const DEFAULT_CACHE_MAX_BYTES: usize = 536_870_912;

/// The views of a list of variable names.
pub open spec fn keys_view(keys: Seq<&str>) -> Seq<Seq<char>> {
    keys.map_values(|k: &str| k@)
}

/// The first of `keys[i..]` that is set to something other than white space,
/// trimmed.
pub open spec fn string_any_from(vars: Seq<(Seq<char>, Seq<char>)>, keys: Seq<Seq<char>>, i: int) -> Option<
    Seq<char>,
>
    decreases keys.len() - i,
{
    if i < 0 || i >= keys.len() {
        None
    } else {
        match env_lookup(vars, keys[i]) {
            Some(v) => if trim_ws(v).len() > 0 {
                Some(trim_ws(v))
            } else {
                string_any_from(vars, keys, i + 1)
            },
            None => string_any_from(vars, keys, i + 1),
        }
    }
}

/// The first of `keys` that is set to something other than white space, trimmed.
pub open spec fn env_string_any(vars: Seq<(Seq<char>, Seq<char>)>, keys: Seq<Seq<char>>) -> Option<
    Seq<char>,
> {
    string_any_from(vars, keys, 0)
}

/// `env_string_any` read as a `u32`, else `default`.
pub open spec fn env_u32_any(vars: Seq<(Seq<char>, Seq<char>)>, keys: Seq<Seq<char>>, default: u32) -> u32 {
    match env_string_any(vars, keys) {
        Some(v) => match parse_u32_spec(v) {
            Some(n) => n as u32,
            None => default,
        },
        None => default,
    }
}

/// `env_string_any` read as a `u64`, else `default`.
pub open spec fn env_u64_any(vars: Seq<(Seq<char>, Seq<char>)>, keys: Seq<Seq<char>>, default: u64) -> u64 {
    match env_string_any(vars, keys) {
        Some(v) => match parse_u64_spec(v) {
            Some(n) => n as u64,
            None => default,
        },
        None => default,
    }
}

/// `env_string_any` read as a `usize`, else `default`.
pub open spec fn env_usize_any(
    vars: Seq<(Seq<char>, Seq<char>)>,
    keys: Seq<Seq<char>>,
    default: usize,
) -> usize {
    match env_string_any(vars, keys) {
        Some(v) => match parse_usize_spec(v) {
            Some(n) => n as usize,
            None => default,
        },
        None => default,
    }
}

/// `env_string_any` read as a flag, else `default`.
pub open spec fn env_bool_any(vars: Seq<(Seq<char>, Seq<char>)>, keys: Seq<Seq<char>>, default: bool) -> bool {
    match env_string_any(vars, keys) {
        Some(v) => is_truthy(lower_seq(v)),
        None => default,
    }
}

/// `env_string_any` as a path, `None` when it is empty after trimming.
pub open spec fn env_path_any(vars: Seq<(Seq<char>, Seq<char>)>, keys: Seq<Seq<char>>) -> Option<Seq<char>> {
    match env_string_any(vars, keys) {
        Some(v) => if trim_ws(v).len() == 0 {
            None
        } else {
            Some(trim_ws(v))
        },
        None => None,
    }
}

/// Reads the first of `keys` that is set to something other than white space.
pub fn parse_env_optional_string_any(env: &EnvVars, keys: &[&str]) -> (res: Option<String>)
    ensures
        opt_seq(res) == env_string_any(env@, keys_view(keys@)),
{
    let ghost kv = keys_view(keys@);
    let mut i: usize = 0;
    while i < keys.len()
        invariant
            i <= keys@.len(),
            kv == keys_view(keys@),
            env_string_any(env@, kv) == string_any_from(env@, kv, i as int),
        decreases keys.len() - i,
    {
        assert(kv[i as int] == keys@[i as int]@);
        match env.get(keys[i]) {
            Some(v) => {
                let chars = chars_of(v.as_str());
                let t = trim(chars.as_slice());
                if t.len() > 0 {
                    return Some(string_of(t.as_slice()));
                }
            },
            None => {},
        }
        i = i + 1;
    }
    None
}

/// Reads the first of `keys` as a `u32`, with a default.
pub fn parse_env_u32_any(env: &EnvVars, keys: &[&str], default: u32) -> (v: u32)
    ensures
        v == env_u32_any(env@, keys_view(keys@), default),
{
    match parse_env_optional_string_any(env, keys) {
        Some(s) => {
            let chars = chars_of(s.as_str());
            match text::parse_u32(chars.as_slice()) {
                Some(n) => n,
                None => default,
            }
        },
        None => default,
    }
}

/// Reads the first of `keys` as a `u64`, with a default.
pub fn parse_env_u64_any(env: &EnvVars, keys: &[&str], default: u64) -> (v: u64)
    ensures
        v == env_u64_any(env@, keys_view(keys@), default),
{
    match parse_env_optional_string_any(env, keys) {
        Some(s) => {
            let chars = chars_of(s.as_str());
            match text::parse_u64(chars.as_slice()) {
                Some(n) => n,
                None => default,
            }
        },
        None => default,
    }
}

/// Reads the first of `keys` as a `usize`, with a default.
pub fn parse_env_usize_any(env: &EnvVars, keys: &[&str], default: usize) -> (v: usize)
    ensures
        v == env_usize_any(env@, keys_view(keys@), default),
{
    match parse_env_optional_string_any(env, keys) {
        Some(s) => {
            let chars = chars_of(s.as_str());
            match text::parse_usize(chars.as_slice()) {
                Some(n) => n,
                None => default,
            }
        },
        None => default,
    }
}

/// Reads the first of `keys` as a flag (`1`, `true`, `yes` or `on`, in any
/// case), with a default.
pub fn parse_env_bool_any(env: &EnvVars, keys: &[&str], default: bool) -> (v: bool)
    ensures
        v == env_bool_any(env@, keys_view(keys@), default),
{
    match parse_env_optional_string_any(env, keys) {
        Some(s) => {
            let chars = chars_of(s.as_str());
            let lower = to_ascii_lowercase(chars.as_slice());
            truthy(lower.as_slice())
        },
        None => default,
    }
}

/// Reads the first of `keys` as a path.
pub fn parse_env_optional_path_any(env: &EnvVars, keys: &[&str]) -> (res: Option<String>)
    ensures
        opt_seq(res) == env_path_any(env@, keys_view(keys@)),
{
    match parse_env_optional_string_any(env, keys) {
        Some(s) => {
            let chars = chars_of(s.as_str());
            let t = trim(chars.as_slice());
            if t.len() == 0 {
                None
            } else {
                Some(string_of(t.as_slice()))
            }
        },
        None => None,
    }
}

/// Static credentials for S3 access.
pub struct StaticCredentials {
    pub access_key: String,
    pub secret_key: String,
    pub session_token: Option<String>,
}

/// The access mode and its settings.
pub enum ModeSettings {
    SignedUrl { template: String, timeout_ms: u64, connect_timeout_ms: u64 },
    S3 {
        bucket: String,
        region: String,
        endpoint: Option<String>,
        force_path_style: bool,
        connect_timeout_ms: u64,
        timeout_ms: u64,
        credentials: Option<StaticCredentials>,
    },
}

/// The mathematical value of `ModeSettings`: strings as character sequences,
/// credentials as access key, secret key and session token.
pub enum ModeView {
    SignedUrl { template: Seq<char>, timeout_ms: u64, connect_timeout_ms: u64 },
    S3 {
        bucket: Seq<char>,
        region: Seq<char>,
        endpoint: Option<Seq<char>>,
        force_path_style: bool,
        connect_timeout_ms: u64,
        timeout_ms: u64,
        credentials: Option<(Seq<char>, Seq<char>, Option<Seq<char>>)>,
    },
}

impl View for ModeSettings {
    type V = ModeView;

    open spec fn view(&self) -> ModeView {
        match self {
            ModeSettings::SignedUrl { template, timeout_ms, connect_timeout_ms } => ModeView::SignedUrl {
                template: template@,
                timeout_ms: *timeout_ms,
                connect_timeout_ms: *connect_timeout_ms,
            },
            ModeSettings::S3 {
                bucket,
                region,
                endpoint,
                force_path_style,
                connect_timeout_ms,
                timeout_ms,
                credentials,
            } => ModeView::S3 {
                bucket: bucket@,
                region: region@,
                endpoint: opt_seq(*endpoint),
                force_path_style: *force_path_style,
                connect_timeout_ms: *connect_timeout_ms,
                timeout_ms: *timeout_ms,
                credentials: match credentials {
                    Some(c) => Some((c.access_key@, c.secret_key@, opt_seq(c.session_token))),
                    None => None,
                },
            },
        }
    }
}

pub open spec fn timeout_keys() -> Seq<Seq<char>> {
    seq!["IMAGIK_STORAGE_TIMEOUT_MS"@, "IMAGIK_OBJECT_TIMEOUT_MS"@]
}

pub open spec fn connect_timeout_keys() -> Seq<Seq<char>> {
    seq!["IMAGIK_STORAGE_CONNECT_TIMEOUT_MS"@, "IMAGIK_OBJECT_CONNECT_TIMEOUT_MS"@]
}

/// Whether the lower-cased mode names the signed URL mode.
pub open spec fn is_signed_mode_name(mode: Seq<char>) -> bool {
    mode == "signed"@ || mode == "signed_url"@ || mode == "signed-url"@
}

/// The access mode that the environment configures, or the message that says
/// what is wrong with it.
pub open spec fn parse_mode_spec(vars: Seq<(Seq<char>, Seq<char>)>) -> Result<ModeView, Seq<char>> {
    let mode = lower_seq(
        match env_string_any(vars, seq!["IMAGIK_STORAGE_MODE"@]) {
            Some(m) => m,
            None => "auto"@,
        },
    );
    let template = env_string_any(
        vars,
        seq!["IMAGIK_STORAGE_SIGNED_URL_TEMPLATE"@, "IMAGIK_OBJECT_SIGNED_URL"@],
    );
    if !(is_signed_mode_name(mode) || mode == "s3"@ || mode == "auto"@) {
        Err("invalid IMAGIK_STORAGE_MODE (expected auto, s3, or signed_url)"@)
    } else if is_signed_mode_name(mode) || (mode == "auto"@ && template is Some) {
        match template {
            Some(t) => Ok(
                ModeView::SignedUrl {
                    template: t,
                    timeout_ms: env_u64_any(vars, timeout_keys(), DEFAULT_TIMEOUT_MS),
                    connect_timeout_ms: env_u64_any(
                        vars,
                        connect_timeout_keys(),
                        DEFAULT_CONNECT_TIMEOUT_MS,
                    ),
                },
            ),
            None => Err("missing signed-url config: set IMAGIK_STORAGE_SIGNED_URL_TEMPLATE"@),
        }
    } else {
        s3_mode_spec(vars)
    }
}

/// The S3 access mode that the environment configures, or the message that
/// says what is missing.
pub open spec fn s3_mode_spec(vars: Seq<(Seq<char>, Seq<char>)>) -> Result<ModeView, Seq<char>> {
    match env_string_any(vars, seq!["IMAGIK_STORAGE_BUCKET"@, "IMAGIK_OBJECT_BUCKET"@]) {
        None => Err(
            "missing object storage config: set IMAGIK_STORAGE_BUCKET (or IMAGIK_OBJECT_BUCKET)"@,
        ),
        Some(bucket) => {
            let access = env_string_any(
                vars,
                seq!["IMAGIK_STORAGE_ACCESS_KEY_ID"@, "IMAGIK_OBJECT_ACCESS_KEY_ID"@],
            );
            let secret = env_string_any(
                vars,
                seq!["IMAGIK_STORAGE_SECRET_ACCESS_KEY"@, "IMAGIK_OBJECT_SECRET_ACCESS_KEY"@],
            );
            let session = env_string_any(
                vars,
                seq!["IMAGIK_STORAGE_SESSION_TOKEN"@, "IMAGIK_OBJECT_SESSION_TOKEN"@],
            );
            if access.is_some() != secret.is_some() {
                Err(
                    "invalid object storage credentials: both access key and secret are required"@,
                )
            } else {
                Ok(
                    ModeView::S3 {
                        bucket,
                        region: match env_string_any(
                            vars,
                            seq!["IMAGIK_STORAGE_REGION"@, "IMAGIK_OBJECT_REGION"@],
                        ) {
                            Some(r) => r,
                            None => "auto"@,
                        },
                        endpoint: env_string_any(
                            vars,
                            seq!["IMAGIK_STORAGE_ENDPOINT"@, "IMAGIK_OBJECT_ENDPOINT"@],
                        ),
                        force_path_style: env_bool_any(
                            vars,
                            seq![
                                "IMAGIK_STORAGE_FORCE_PATH_STYLE"@,
                                "IMAGIK_OBJECT_FORCE_PATH_STYLE"@,
                            ],
                            true,
                        ),
                        connect_timeout_ms: env_u64_any(
                            vars,
                            connect_timeout_keys(),
                            DEFAULT_CONNECT_TIMEOUT_MS,
                        ),
                        timeout_ms: env_u64_any(vars, timeout_keys(), DEFAULT_TIMEOUT_MS),
                        credentials: match (access, secret) {
                            (Some(a), Some(s)) => Some((a, s, session)),
                            _ => None,
                        },
                    },
                )
            }
        },
    }
}

/// Reads the access mode from the environment: signed URLs or S3, chosen by
/// `IMAGIK_STORAGE_MODE` (`auto`, `s3` or `signed_url`; `auto` when unset, and
/// then signed URLs exactly when a template is configured).
pub fn parse_mode(env: &EnvVars) -> (res: Result<ModeSettings, String>)
    ensures
        match res {
            Ok(m) => parse_mode_spec(env@) == Ok::<ModeView, Seq<char>>(m@),
            Err(msg) => parse_mode_spec(env@) == Err::<ModeView, Seq<char>>(msg@),
        },
{
    let mode_keys: [&str; 1] = ["IMAGIK_STORAGE_MODE"];
    let raw_mode = match parse_env_optional_string_any(env, &mode_keys) {
        Some(m) => m,
        None => "auto".to_owned(),
    };
    let mode_chars = chars_of(raw_mode.as_str());
    let mode = to_ascii_lowercase(mode_chars.as_slice());
    let template_keys: [&str; 2] = ["IMAGIK_STORAGE_SIGNED_URL_TEMPLATE", "IMAGIK_OBJECT_SIGNED_URL"];
    let template = parse_env_optional_string_any(env, &template_keys);
    proof {
        assert(keys_view(mode_keys@) =~= seq!["IMAGIK_STORAGE_MODE"@]);
        assert(keys_view(template_keys@) =~= seq![
            "IMAGIK_STORAGE_SIGNED_URL_TEMPLATE"@,
            "IMAGIK_OBJECT_SIGNED_URL"@,
        ]);
    }
    proof {
        reveal_strlit("auto");
        reveal_strlit("s3");
        reveal_strlit("signed");
        reveal_strlit("signed_url");
        reveal_strlit("signed-url");
    }
    let signed_name = chars_eq_str(mode.as_slice(), "signed") || chars_eq_str(
        mode.as_slice(),
        "signed_url",
    ) || chars_eq_str(mode.as_slice(), "signed-url");
    let use_signed_url = if signed_name {
        true
    } else if chars_eq_str(mode.as_slice(), "s3") {
        false
    } else if chars_eq_str(mode.as_slice(), "auto") {
        template.is_some()
    } else {
        return Err("invalid IMAGIK_STORAGE_MODE (expected auto, s3, or signed_url)".to_owned());
    };
    let timeout_keys_arr: [&str; 2] = ["IMAGIK_STORAGE_TIMEOUT_MS", "IMAGIK_OBJECT_TIMEOUT_MS"];
    let connect_keys_arr: [&str; 2] = [
        "IMAGIK_STORAGE_CONNECT_TIMEOUT_MS",
        "IMAGIK_OBJECT_CONNECT_TIMEOUT_MS",
    ];
    proof {
        assert(keys_view(timeout_keys_arr@) =~= timeout_keys());
        assert(keys_view(connect_keys_arr@) =~= connect_timeout_keys());
    }
    if use_signed_url {
        let template = match template {
            Some(t) => t,
            None => {
                return Err(
                    "missing signed-url config: set IMAGIK_STORAGE_SIGNED_URL_TEMPLATE".to_owned(),
                );
            },
        };
        let timeout_ms = parse_env_u64_any(env, &timeout_keys_arr, DEFAULT_TIMEOUT_MS);
        let connect_timeout_ms = parse_env_u64_any(
            env,
            &connect_keys_arr,
            DEFAULT_CONNECT_TIMEOUT_MS,
        );
        return Ok(ModeSettings::SignedUrl { template, timeout_ms, connect_timeout_ms });
    }
    assert(mode@ == lower_seq(
        match env_string_any(env@, seq!["IMAGIK_STORAGE_MODE"@]) {
            Some(m) => m,
            None => "auto"@,
        },
    ));
    assert(opt_seq(template) == env_string_any(
        env@,
        seq!["IMAGIK_STORAGE_SIGNED_URL_TEMPLATE"@, "IMAGIK_OBJECT_SIGNED_URL"@],
    ));
    assert(parse_mode_spec(env@) == s3_mode_spec(env@));
    parse_s3_mode(env)
}

/// Reads the S3 access settings from the environment.
fn parse_s3_mode(env: &EnvVars) -> (res: Result<ModeSettings, String>)
    ensures
        match res {
            Ok(m) => s3_mode_spec(env@) == Ok::<ModeView, Seq<char>>(m@),
            Err(msg) => s3_mode_spec(env@) == Err::<ModeView, Seq<char>>(msg@),
        },
{
    let timeout_keys_arr: [&str; 2] = ["IMAGIK_STORAGE_TIMEOUT_MS", "IMAGIK_OBJECT_TIMEOUT_MS"];
    let connect_keys_arr: [&str; 2] = [
        "IMAGIK_STORAGE_CONNECT_TIMEOUT_MS",
        "IMAGIK_OBJECT_CONNECT_TIMEOUT_MS",
    ];
    proof {
        assert(keys_view(timeout_keys_arr@) =~= timeout_keys());
        assert(keys_view(connect_keys_arr@) =~= connect_timeout_keys());
    }
    let bucket_keys: [&str; 2] = ["IMAGIK_STORAGE_BUCKET", "IMAGIK_OBJECT_BUCKET"];
    let region_keys: [&str; 2] = ["IMAGIK_STORAGE_REGION", "IMAGIK_OBJECT_REGION"];
    let endpoint_keys: [&str; 2] = ["IMAGIK_STORAGE_ENDPOINT", "IMAGIK_OBJECT_ENDPOINT"];
    let path_style_keys: [&str; 2] = [
        "IMAGIK_STORAGE_FORCE_PATH_STYLE",
        "IMAGIK_OBJECT_FORCE_PATH_STYLE",
    ];
    let access_keys: [&str; 2] = ["IMAGIK_STORAGE_ACCESS_KEY_ID", "IMAGIK_OBJECT_ACCESS_KEY_ID"];
    let secret_keys: [&str; 2] = [
        "IMAGIK_STORAGE_SECRET_ACCESS_KEY",
        "IMAGIK_OBJECT_SECRET_ACCESS_KEY",
    ];
    let session_keys: [&str; 2] = ["IMAGIK_STORAGE_SESSION_TOKEN", "IMAGIK_OBJECT_SESSION_TOKEN"];
    proof {
        assert(keys_view(bucket_keys@) =~= seq!["IMAGIK_STORAGE_BUCKET"@, "IMAGIK_OBJECT_BUCKET"@]);
        assert(keys_view(region_keys@) =~= seq!["IMAGIK_STORAGE_REGION"@, "IMAGIK_OBJECT_REGION"@]);
        assert(keys_view(endpoint_keys@) =~= seq![
            "IMAGIK_STORAGE_ENDPOINT"@,
            "IMAGIK_OBJECT_ENDPOINT"@,
        ]);
        assert(keys_view(path_style_keys@) =~= seq![
            "IMAGIK_STORAGE_FORCE_PATH_STYLE"@,
            "IMAGIK_OBJECT_FORCE_PATH_STYLE"@,
        ]);
        assert(keys_view(access_keys@) =~= seq![
            "IMAGIK_STORAGE_ACCESS_KEY_ID"@,
            "IMAGIK_OBJECT_ACCESS_KEY_ID"@,
        ]);
        assert(keys_view(secret_keys@) =~= seq![
            "IMAGIK_STORAGE_SECRET_ACCESS_KEY"@,
            "IMAGIK_OBJECT_SECRET_ACCESS_KEY"@,
        ]);
        assert(keys_view(session_keys@) =~= seq![
            "IMAGIK_STORAGE_SESSION_TOKEN"@,
            "IMAGIK_OBJECT_SESSION_TOKEN"@,
        ]);
    }
    let bucket = match parse_env_optional_string_any(env, &bucket_keys) {
        Some(b) => b,
        None => {
            return Err(
                "missing object storage config: set IMAGIK_STORAGE_BUCKET (or IMAGIK_OBJECT_BUCKET)".to_owned(),
            );
        },
    };
    let region = match parse_env_optional_string_any(env, &region_keys) {
        Some(r) => r,
        None => "auto".to_owned(),
    };
    let endpoint = parse_env_optional_string_any(env, &endpoint_keys);
    let force_path_style = parse_env_bool_any(env, &path_style_keys, true);
    let connect_timeout_ms = parse_env_u64_any(env, &connect_keys_arr, DEFAULT_CONNECT_TIMEOUT_MS);
    let timeout_ms = parse_env_u64_any(env, &timeout_keys_arr, DEFAULT_TIMEOUT_MS);
    let access_key = parse_env_optional_string_any(env, &access_keys);
    let secret_key = parse_env_optional_string_any(env, &secret_keys);
    let session_token = parse_env_optional_string_any(env, &session_keys);
    let credentials = match (access_key, secret_key) {
        (Some(access), Some(secret)) => Some(
            StaticCredentials { access_key: access, secret_key: secret, session_token },
        ),
        (None, None) => None,
        _ => {
            return Err(
                "invalid object storage credentials: both access key and secret are required".to_owned(),
            );
        },
    };
    Ok(
        ModeSettings::S3 {
            bucket,
            region,
            endpoint,
            force_path_style,
            connect_timeout_ms,
            timeout_ms,
            credentials,
        },
    )
}


/// Settings of the local disk cache of source bytes.
pub struct DiskCacheSettings {
    /// The directory that holds the cache files.
    pub dir: String,
    /// Seconds a cached file stays fresh.
    pub ttl_secs: u64,
    /// Bytes the cache may hold before eviction.
    pub max_bytes: usize,
}

/// Object storage settings.
pub struct StorageSettings {
    pub retry_attempts: u32,
    pub retry_backoff_ms: u64,
    pub max_object_bytes: usize,
    pub cache: Option<DiskCacheSettings>,
    pub key_prefix: Option<String>,
    pub mode: ModeSettings,
}

/// The mathematical value of `StorageSettings`; the disk cache settings as
/// directory, seconds to live and byte limit.
pub struct StorageView {
    pub retry_attempts: u32,
    pub retry_backoff_ms: u64,
    pub max_object_bytes: usize,
    pub cache: Option<(Seq<char>, u64, usize)>,
    pub key_prefix: Option<Seq<char>>,
    pub mode: ModeView,
}

impl View for StorageSettings {
    type V = StorageView;

    open spec fn view(&self) -> StorageView {
        StorageView {
            retry_attempts: self.retry_attempts,
            retry_backoff_ms: self.retry_backoff_ms,
            max_object_bytes: self.max_object_bytes,
            cache: match self.cache {
                Some(c) => Some((c.dir@, c.ttl_secs, c.max_bytes)),
                None => None,
            },
            key_prefix: opt_seq(self.key_prefix),
            mode: self.mode@,
        }
    }
}

/// The storage settings that the environment configures, or the message of
/// the access mode's error.
pub open spec fn storage_settings_spec(vars: Seq<(Seq<char>, Seq<char>)>) -> Result<StorageView, Seq<char>> {
    match parse_mode_spec(vars) {
        Err(e) => Err(e),
        Ok(mode) => {
            let retries = env_u32_any(
                vars,
                seq!["IMAGIK_STORAGE_MAX_RETRIES"@, "IMAGIK_OBJECT_MAX_RETRIES"@],
                DEFAULT_MAX_RETRIES,
            );
            let max_object = env_usize_any(
                vars,
                seq!["IMAGIK_STORAGE_MAX_OBJECT_BYTES"@, "IMAGIK_OBJECT_MAX_BYTES"@],
                DEFAULT_MAX_OBJECT_BYTES,
            );
            Ok(
                StorageView {
                    retry_attempts: if retries < 1 {
                        1
                    } else {
                        retries
                    },
                    retry_backoff_ms: env_u64_any(
                        vars,
                        seq!["IMAGIK_STORAGE_RETRY_BACKOFF_MS"@, "IMAGIK_OBJECT_RETRY_BACKOFF_MS"@],
                        DEFAULT_RETRY_BACKOFF_MS,
                    ),
                    max_object_bytes: if max_object < 1024 {
                        1024
                    } else {
                        max_object
                    },
                    cache: match env_path_any(
                        vars,
                        seq!["IMAGIK_STORAGE_CACHE_DIR"@, "IMAGIK_OBJECT_CACHE_DIR"@],
                    ) {
                        Some(dir) => Some(
                            (
                                dir,
                                env_u64_any(
                                    vars,
                                    seq![
                                        "IMAGIK_STORAGE_CACHE_TTL_SECS"@,
                                        "IMAGIK_OBJECT_CACHE_TTL_SECS"@,
                                    ],
                                    DEFAULT_CACHE_TTL_SECS,
                                ),
                                env_usize_any(
                                    vars,
                                    seq![
                                        "IMAGIK_STORAGE_CACHE_MAX_BYTES"@,
                                        "IMAGIK_OBJECT_CACHE_MAX_BYTES"@,
                                    ],
                                    DEFAULT_CACHE_MAX_BYTES,
                                ),
                            ),
                        ),
                        None => None,
                    },
                    key_prefix: match env_string_any(vars, seq!["IMAGIK_STORAGE_KEY_PREFIX"@]) {
                        Some(v) => normalize_key_prefix_spec(v),
                        None => None,
                    },
                    mode,
                },
            )
        },
    }
}

impl StorageSettings {
    /// Reads the object storage settings from the environment. Fails exactly
    /// when the access mode is misconfigured, with the message of
    /// `parse_mode`.
    pub fn from_env(env: &EnvVars) -> (res: Result<StorageSettings, String>)
        ensures
            match res {
                Ok(s) => storage_settings_spec(env@) == Ok::<StorageView, Seq<char>>(s@),
                Err(msg) => storage_settings_spec(env@) == Err::<StorageView, Seq<char>>(msg@),
            },
    {
        let retry_keys: [&str; 2] = ["IMAGIK_STORAGE_MAX_RETRIES", "IMAGIK_OBJECT_MAX_RETRIES"];
        let backoff_keys: [&str; 2] = [
            "IMAGIK_STORAGE_RETRY_BACKOFF_MS",
            "IMAGIK_OBJECT_RETRY_BACKOFF_MS",
        ];
        let max_keys: [&str; 2] = ["IMAGIK_STORAGE_MAX_OBJECT_BYTES", "IMAGIK_OBJECT_MAX_BYTES"];
        let dir_keys: [&str; 2] = ["IMAGIK_STORAGE_CACHE_DIR", "IMAGIK_OBJECT_CACHE_DIR"];
        let ttl_keys: [&str; 2] = ["IMAGIK_STORAGE_CACHE_TTL_SECS", "IMAGIK_OBJECT_CACHE_TTL_SECS"];
        let cache_max_keys: [&str; 2] = [
            "IMAGIK_STORAGE_CACHE_MAX_BYTES",
            "IMAGIK_OBJECT_CACHE_MAX_BYTES",
        ];
        let prefix_keys: [&str; 1] = ["IMAGIK_STORAGE_KEY_PREFIX"];
        proof {
            assert(keys_view(retry_keys@) =~= seq![
                "IMAGIK_STORAGE_MAX_RETRIES"@,
                "IMAGIK_OBJECT_MAX_RETRIES"@,
            ]);
            assert(keys_view(backoff_keys@) =~= seq![
                "IMAGIK_STORAGE_RETRY_BACKOFF_MS"@,
                "IMAGIK_OBJECT_RETRY_BACKOFF_MS"@,
            ]);
            assert(keys_view(max_keys@) =~= seq![
                "IMAGIK_STORAGE_MAX_OBJECT_BYTES"@,
                "IMAGIK_OBJECT_MAX_BYTES"@,
            ]);
            assert(keys_view(dir_keys@) =~= seq![
                "IMAGIK_STORAGE_CACHE_DIR"@,
                "IMAGIK_OBJECT_CACHE_DIR"@,
            ]);
            assert(keys_view(ttl_keys@) =~= seq![
                "IMAGIK_STORAGE_CACHE_TTL_SECS"@,
                "IMAGIK_OBJECT_CACHE_TTL_SECS"@,
            ]);
            assert(keys_view(cache_max_keys@) =~= seq![
                "IMAGIK_STORAGE_CACHE_MAX_BYTES"@,
                "IMAGIK_OBJECT_CACHE_MAX_BYTES"@,
            ]);
            assert(keys_view(prefix_keys@) =~= seq!["IMAGIK_STORAGE_KEY_PREFIX"@]);
        }
        let retries = parse_env_u32_any(env, &retry_keys, DEFAULT_MAX_RETRIES);
        let retry_attempts: u32 = if retries < 1 {
            1
        } else {
            retries
        };
        let retry_backoff_ms = parse_env_u64_any(env, &backoff_keys, DEFAULT_RETRY_BACKOFF_MS);
        let max_object = parse_env_usize_any(env, &max_keys, DEFAULT_MAX_OBJECT_BYTES);
        let max_object_bytes: usize = if max_object < 1024 {
            1024
        } else {
            max_object
        };
        let cache = match parse_env_optional_path_any(env, &dir_keys) {
            Some(dir) => Some(
                DiskCacheSettings {
                    dir,
                    ttl_secs: parse_env_u64_any(env, &ttl_keys, DEFAULT_CACHE_TTL_SECS),
                    max_bytes: parse_env_usize_any(env, &cache_max_keys, DEFAULT_CACHE_MAX_BYTES),
                },
            ),
            None => None,
        };
        let key_prefix = match parse_env_optional_string_any(env, &prefix_keys) {
            Some(v) => normalize_key_prefix(v.as_str()),
            None => None,
        };
        let mode = match parse_mode(env) {
            Ok(m) => m,
            Err(e) => {
                return Err(e);
            },
        };
        let settings = StorageSettings {
            retry_attempts,
            retry_backoff_ms,
            max_object_bytes,
            cache,
            key_prefix,
            mode,
        };
        assert(settings@.key_prefix == match env_string_any(
            env@,
            seq!["IMAGIK_STORAGE_KEY_PREFIX"@],
        ) {
            Some(v) => normalize_key_prefix_spec(v),
            None => None,
        });
        Ok(settings)
    }
}

} // verus!
