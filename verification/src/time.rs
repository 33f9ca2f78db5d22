use vstd::prelude::*;

verus! {

/// Numerator of the time base the encoder is configured with.
pub const ENCODER_TIME_BASE_NUM: i32 = 1;

/// Denominator of the time base the encoder is configured with.
pub const ENCODER_TIME_BASE_DEN: i32 = 25;

/// Frames per second of synthetic content. This is the rate at which frames
/// are produced; it is independent of the encoder's time base, which only
/// fixes the unit of timestamps.
pub const SYNTHETIC_FRAME_RATE: u64 = 24;

/// A rational number of seconds that serves as the unit of timestamps.
#[derive(Clone, Copy, Debug, PartialEq, Eq, Structural)]
pub struct TimeBase {
    /// The numerator of the fraction.
    pub num: i32,
    /// The denominator of the fraction.
    pub den: i32,
}

/// A presentation timestamp: `value` ticks of `base`.
#[derive(Clone, Copy, Debug, PartialEq, Eq, Structural)]
pub struct Timestamp {
    /// The number of ticks.
    pub value: i64,
    /// The length of one tick.
    pub base: TimeBase,
}

impl Timestamp {
    /// Whether this timestamp lies `numer / denom` seconds after zero, as an
    /// equation between fractions with positive denominators.
    pub open spec fn is_seconds(self, numer: int, denom: int) -> bool {
        &&& self.base.den > 0
        &&& denom > 0
        &&& self.value * self.base.num * denom == numer * self.base.den
    }
}

/// The time base of the encoder: one twenty-fifth of a second.
pub open spec fn encoder_time_base_spec() -> TimeBase {
    TimeBase { num: 1, den: 25 }
}

/// The timestamp of the frame at position `index` of a frame source: `index`
/// ticks of the encoder's time base.
pub open spec fn frame_timestamp_spec(index: int) -> Timestamp {
    Timestamp { value: index as i64, base: encoder_time_base_spec() }
}

/// The time base of the encoder.
#[verifier::when_used_as_spec(encoder_time_base_spec)]
pub fn encoder_time_base() -> (base: TimeBase)
    ensures
        base == encoder_time_base_spec(),
        base.num == ENCODER_TIME_BASE_NUM,
        base.den == ENCODER_TIME_BASE_DEN,
{
    TimeBase { num: ENCODER_TIME_BASE_NUM, den: ENCODER_TIME_BASE_DEN }
}

/// The timestamp with which the frame at position `index` is stamped, or
/// `None` where the index is beyond what a timestamp can count.
pub fn frame_timestamp(index: u64) -> (stamp: Option<Timestamp>)
    ensures
        index <= i64::MAX ==> stamp == Some(frame_timestamp_spec(index as int)),
        index > i64::MAX ==> stamp.is_none(),
{
    if index <= i64::MAX as u64 {
        Some(Timestamp { value: index as i64, base: encoder_time_base() })
    } else {
        None
    }
}

/// The number of frames of synthetic content that last `seconds` seconds, or
/// `None` where that number cannot be counted.
pub fn synthetic_frame_count(seconds: u64) -> (count: Option<usize>)
    ensures
        SYNTHETIC_FRAME_RATE * seconds <= usize::MAX ==> count == Some(
            (SYNTHETIC_FRAME_RATE * seconds) as usize,
        ),
        SYNTHETIC_FRAME_RATE * seconds > usize::MAX ==> count.is_none(),
{
    let limit: u64 = usize::MAX as u64 / SYNTHETIC_FRAME_RATE;
    if seconds <= limit {
        Some((SYNTHETIC_FRAME_RATE * seconds) as usize)
    } else {
        None
    }
}

/// The frame at position `index` is stamped `index / 25` seconds, and
/// timestamps never decrease along a frame source.
pub proof fn lemma_frame_timestamps(index: int, later: int)
    requires
        0 <= index <= later <= i64::MAX,
    ensures
        frame_timestamp_spec(index).is_seconds(index, 25),
        frame_timestamp_spec(index).base == frame_timestamp_spec(later).base,
        frame_timestamp_spec(index).value <= frame_timestamp_spec(later).value,
        index < later ==> frame_timestamp_spec(index).value < frame_timestamp_spec(later).value,
{
}

} // verus!
