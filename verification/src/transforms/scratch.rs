//! The retention policy of the scratch buffers that the chromatic
//! aberration effect reuses across requests.
//!
//! A buffer grows to what a request needs; afterwards it is kept, shrunk or
//! released depending on how large it is for the workload, whether it is over
//! a ceiling, and whether it has been idle for long.
use vstd::prelude::*;

verus! {

/// The size a buffer in use is never shrunk below.
pub const ACTIVE_FLOOR_BYTES: usize = 262_144;

/// The size an idle buffer is released to.
pub const OPTIONAL_IDLE_RETAIN_BYTES: usize = 0;

/// Buffers above this capacity are shrunk.
pub const RETAIN_CEILING_BYTES: usize = 33_554_432;

/// A buffer at least this many times larger than needed is oversized.
pub const RETAIN_DOWNSHIFT_FACTOR: usize = 4;

/// After this many requests without growth a buffer decays.
pub const DECAY_REQUEST_WINDOW: u64 = 128;

/// After this many seconds without growth a buffer decays.
pub const DECAY_IDLE_SECONDS: u64 = 20;

/// When a buffer last grew: the request, and the time in nanoseconds on the
/// caller's monotonic clock.
#[derive(Clone, Copy)]
pub struct BufferMeta {
    pub last_growth_request: u64,
    pub last_growth_at_nanos: Option<u64>,
}

impl BufferMeta {
    /// A buffer that never grew.
    pub fn new() -> (m: Self)
        ensures
            m.last_growth_request == 0,
            m.last_growth_at_nanos is None,
    {
        BufferMeta { last_growth_request: 0, last_growth_at_nanos: None }
    }

    /// Notes that the buffer grew during request `request_index` at `now_nanos`.
    pub fn note_growth(&mut self, request_index: u64, now_nanos: u64)
        ensures
            final(self).last_growth_request == request_index,
            final(self).last_growth_at_nanos == Some(now_nanos),
    {
        self.last_growth_request = request_index;
        self.last_growth_at_nanos = Some(now_nanos);
    }
}

/// Whether a buffer decays: at least `DECAY_REQUEST_WINDOW` requests, or
/// `DECAY_IDLE_SECONDS` seconds, since it last grew (both saturating at zero).
pub open spec fn should_decay_spec(meta: BufferMeta, request_index: u64, now_nanos: u64) -> bool {
    (if request_index < meta.last_growth_request {
        0
    } else {
        request_index - meta.last_growth_request
    }) >= DECAY_REQUEST_WINDOW || match meta.last_growth_at_nanos {
        Some(t) => (if now_nanos < t {
            0
        } else {
            now_nanos - t
        }) >= DECAY_IDLE_SECONDS * 1_000_000_000,
        None => false,
    }
}

/// Decides whether a buffer decays.
pub fn should_decay(meta: BufferMeta, request_index: u64, now_nanos: u64) -> (res: bool)
    ensures
        res == should_decay_spec(meta, request_index, now_nanos),
{
    if request_index.saturating_sub(meta.last_growth_request) >= DECAY_REQUEST_WINDOW {
        return true;
    }
    match meta.last_growth_at_nanos {
        Some(t) => now_nanos.saturating_sub(t) >= DECAY_IDLE_SECONDS * 1_000_000_000,
        None => false,
    }
}

/// What to do with a buffer after a request.
#[derive(Clone, Copy, PartialEq, Eq, Structural)]
pub enum TrimPlan {
    /// Leave it as it is.
    Keep,
    /// Empty it and shrink its capacity towards `retain`.
    Release { retain: usize },
    /// Cut it to at most `retain` bytes and shrink its capacity towards that.
    Shrink { retain: usize },
}

/// The retention decision for a buffer of `capacity` bytes that this request
/// needed `needed_len` bytes of (zero: unused).
///
/// An unused buffer is released to `idle_retain` when that is allowed and it
/// holds more. A used one is shrunk to `max(needed_len, active_floor)` when it
/// holds more than that and it is oversized for the workload (at least four
/// times the need, saturating), over the ceiling, or due to decay.
pub open spec fn trim_plan_spec(
    capacity: usize,
    needed_len: usize,
    active_floor: usize,
    idle_retain: usize,
    release_when_idle: bool,
    decay_due: bool,
) -> TrimPlan {
    if needed_len == 0 {
        if release_when_idle && capacity > idle_retain {
            TrimPlan::Release { retain: idle_retain }
        } else {
            TrimPlan::Keep
        }
    } else {
        let retain = if needed_len < active_floor {
            active_floor
        } else {
            needed_len
        };
        let scaled = if needed_len * RETAIN_DOWNSHIFT_FACTOR > usize::MAX {
            usize::MAX as int
        } else {
            needed_len * RETAIN_DOWNSHIFT_FACTOR
        };
        let oversized = scaled <= capacity;
        let above_ceiling = capacity > RETAIN_CEILING_BYTES;
        if !(oversized || above_ceiling || decay_due) || capacity <= retain {
            TrimPlan::Keep
        } else {
            TrimPlan::Shrink { retain }
        }
    }
}

/// Decides what to do with a buffer after a request.
pub fn trim_plan(
    capacity: usize,
    needed_len: usize,
    active_floor: usize,
    idle_retain: usize,
    release_when_idle: bool,
    decay_due: bool,
) -> (plan: TrimPlan)
    ensures
        plan == trim_plan_spec(
            capacity,
            needed_len,
            active_floor,
            idle_retain,
            release_when_idle,
            decay_due,
        ),
{
    if needed_len == 0 {
        if release_when_idle && capacity > idle_retain {
            return TrimPlan::Release { retain: idle_retain };
        }
        return TrimPlan::Keep;
    }
    let retain = if needed_len < active_floor {
        active_floor
    } else {
        needed_len
    };
    let scaled = match needed_len.checked_mul(RETAIN_DOWNSHIFT_FACTOR) {
        Some(v) => v,
        None => usize::MAX,
    };
    let oversized = scaled <= capacity;
    let above_ceiling = capacity > RETAIN_CEILING_BYTES;
    if !(oversized || above_ceiling || decay_due) || capacity <= retain {
        TrimPlan::Keep
    } else {
        TrimPlan::Shrink { retain }
    }
}

/// `Vec::capacity`. What the allocator gave is not claimed.
#[verifier::external_body]
fn vec_capacity(buf: &Vec<u8>) -> (cap: usize) {
    buf.capacity()
}

/// Lengthens a buffer to `len` bytes with zeros; a buffer already that long
/// is left as it is. Returns whether its capacity grew, which the allocator
/// decides; a buffer already long enough did not grow.
pub fn ensure_len(buf: &mut Vec<u8>, len: usize) -> (grew: bool)
    ensures
        old(buf)@.len() >= len ==> final(buf)@ == old(buf)@ && !grew,
        old(buf)@.len() < len ==> final(buf)@.len() == len && final(buf)@.take(old(buf)@.len() as int)
            == old(buf)@ && forall|i: int|
            old(buf)@.len() <= i < len ==> #[trigger] final(buf)@[i] == 0,
{
    let ghost start = buf@;
    if buf.len() >= len {
        return false;
    }
    let old_capacity = vec_capacity(buf);
    while buf.len() < len
        invariant
            start.len() <= buf@.len() || start.len() >= len,
            start.len() >= len ==> buf@ == start,
            start.len() < len ==> buf@.len() <= len && buf@.take(start.len() as int) == start
                && forall|i: int| start.len() <= i < buf@.len() ==> #[trigger] buf@[i] == 0,
        decreases len - buf.len(),
    {
        buf.push(0);
        proof {
            assert(buf@.take(start.len() as int) =~= start);
        }
    }
    vec_capacity(buf) > old_capacity
}

} // verus!
