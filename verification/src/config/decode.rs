//! Image decode limits and their validation.
//!
//! Bounds on dimensions, pixel count and decode memory keep a hostile image
//! from exhausting memory. The limits come from the environment, with defaults.
use vstd::prelude::*;
use crate::config::env::{env_u64, env_usize, parse_u64, parse_usize, EnvVars};
use crate::text::{decimal, push_decimal, push_str};

verus! {

pub const DEFAULT_MAX_DECODE_PIXELS: u64 = 128_000_000;

pub const DEFAULT_MAX_DECODE_DIMENSION: u32 = 16_384;

pub const DEFAULT_MAX_DECODE_ALLOC_BYTES: u64 = 536_870_912;

/// Limits on the images that may be decoded.
#[derive(Clone, Copy)]
pub struct DecodeLimits {
    /// Largest total pixel count (width times height).
    pub pixels: u64,
    /// Largest width or height.
    pub dimension: u32,
    /// Largest number of bytes a decoded image may take.
    pub alloc_bytes: u64,
}

/// The limits that `decode_limits` reads from the environment `vars`.
pub open spec fn decode_limits_spec(vars: Seq<(Seq<char>, Seq<char>)>) -> DecodeLimits {
    let max_dimension = env_usize(
        vars,
        "IMAGIK_MAX_DECODE_DIMENSION"@,
        DEFAULT_MAX_DECODE_DIMENSION as usize,
        1,
    );
    DecodeLimits {
        pixels: env_u64(vars, "IMAGIK_MAX_DECODE_PIXELS"@, DEFAULT_MAX_DECODE_PIXELS, 1),
        dimension: if max_dimension <= u32::MAX {
            max_dimension as u32
        } else {
            u32::MAX
        },
        alloc_bytes: env_u64(
            vars,
            "IMAGIK_MAX_DECODE_ALLOC_BYTES"@,
            DEFAULT_MAX_DECODE_ALLOC_BYTES,
            1024,
        ),
    }
}

/// Reads the decode limits from the environment.
///
/// `IMAGIK_MAX_DECODE_DIMENSION` (at least 1, default 16384, capped at the
/// largest `u32`), `IMAGIK_MAX_DECODE_PIXELS` (at least 1, default 128 million)
/// and `IMAGIK_MAX_DECODE_ALLOC_BYTES` (at least 1024, default 512 MiB).
pub fn decode_limits(env: &EnvVars) -> (limits: DecodeLimits)
    ensures
        limits == decode_limits_spec(env@),
{
    let max_dimension = parse_usize(
        env,
        "IMAGIK_MAX_DECODE_DIMENSION",
        DEFAULT_MAX_DECODE_DIMENSION as usize,
        1,
    );
    let dimension: u32 = if max_dimension <= u32::MAX as usize {
        max_dimension as u32
    } else {
        u32::MAX
    };
    DecodeLimits {
        pixels: parse_u64(env, "IMAGIK_MAX_DECODE_PIXELS", DEFAULT_MAX_DECODE_PIXELS, 1),
        dimension,
        alloc_bytes: parse_u64(
            env,
            "IMAGIK_MAX_DECODE_ALLOC_BYTES",
            DEFAULT_MAX_DECODE_ALLOC_BYTES,
            1024,
        ),
    }
}

/// The decode limits, read once: a remembered value is returned unchanged;
/// otherwise the limits are read from the environment and remembered, so
/// every later call returns what the first one read.
pub fn decode_limits_memo(memo: &mut Option<DecodeLimits>, env: &EnvVars) -> (limits: DecodeLimits)
    ensures
        match *old(memo) {
            Some(first) => limits == first && *final(memo) == Some(first),
            None => limits == decode_limits_spec(env@) && *final(memo) == Some(limits),
        },
{
    match *memo {
        Some(first) => first,
        None => {
            let limits = decode_limits(env);
            *memo = Some(limits);
            limits
        },
    }
}

/// Every limit read is at least its floor: 1 pixel, 1 pixel of width or
/// height, 1024 bytes; a variable that is unset, unreadable or below its floor
/// gives the default.
pub proof fn lemma_decode_limits_floors(vars: Seq<(Seq<char>, Seq<char>)>)
    ensures
        decode_limits_spec(vars).pixels >= 1,
        decode_limits_spec(vars).dimension >= 1,
        decode_limits_spec(vars).alloc_bytes >= 1024,
{
}

/// The bytes that decoding a `pixels`-pixel image takes, four per pixel.
pub open spec fn decode_alloc_bytes(pixels: int) -> int {
    pixels * 4
}

/// The outcome of `validate_decode_bounds`: `Ok` when the image may be
/// decoded, else the message that says which limit it breaks.
pub open spec fn decode_bounds_spec(width: u32, height: u32, limits: DecodeLimits) -> Result<
    (),
    Seq<char>,
> {
    if width == 0 || height == 0 {
        Err("image has invalid dimensions"@)
    } else if width > limits.dimension || height > limits.dimension {
        Err(
            "image dimensions exceed configured limit ("@ + decimal(limits.dimension as nat) + "x"@
                + decimal(limits.dimension as nat) + ")"@,
        )
    } else if width * height > limits.pixels {
        Err("image pixel count exceeds configured limit ("@ + decimal(limits.pixels as nat) + ")"@)
    } else if decode_alloc_bytes(width * height) > limits.alloc_bytes {
        Err(
            "image decode allocation exceeds configured limit ("@ + decimal(
                limits.alloc_bytes as nat,
            ) + " bytes)"@,
        )
    } else {
        Ok(())
    }
}

/// Checks an image's dimensions against the decode limits.
pub fn validate_decode_bounds(width: u32, height: u32, limits: DecodeLimits) -> (r: Result<
    (),
    String,
>)
    ensures
        match r {
            Ok(_) => decode_bounds_spec(width, height, limits) is Ok,
            Err(msg) => decode_bounds_spec(width, height, limits) == Err::<(), Seq<char>>(msg@),
        },
{
    if width == 0 || height == 0 {
        let mut msg = String::new();
        push_str(&mut msg, "image has invalid dimensions");
        return Err(msg);
    }
    if width > limits.dimension || height > limits.dimension {
        let mut msg = String::new();
        push_str(&mut msg, "image dimensions exceed configured limit (");
        push_decimal(&mut msg, limits.dimension as u64);
        push_str(&mut msg, "x");
        push_decimal(&mut msg, limits.dimension as u64);
        push_str(&mut msg, ")");
        return Err(msg);
    }
    assert((width as int) * (height as int) <= u32::MAX as int * u32::MAX as int) by (nonlinear_arith)
        requires
            width <= u32::MAX,
            height <= u32::MAX,
    ;
    let pixels: u64 = (width as u64) * (height as u64);
    if pixels > limits.pixels {
        let mut msg = String::new();
        push_str(&mut msg, "image pixel count exceeds configured limit (");
        push_decimal(&mut msg, limits.pixels);
        push_str(&mut msg, ")");
        return Err(msg);
    }
    let too_large = match pixels.checked_mul(4) {
        Some(b) => b > limits.alloc_bytes,
        None => true,
    };
    if too_large {
        let mut msg = String::new();
        push_str(&mut msg, "image decode allocation exceeds configured limit (");
        push_decimal(&mut msg, limits.alloc_bytes);
        push_str(&mut msg, " bytes)");
        return Err(msg);
    }
    Ok(())
}

} // verus!
