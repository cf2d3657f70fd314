//! The conversion engine: checked translations between any two of the
//! quantity types and between a quantity and a [`Duration`], all driven by
//! the derived facts of the shared [`System`].
//!
//! Every function here is total over its inputs and reports overflow as an
//! explicit [`OverflowError`]; the quantity types layer a convenience tier on
//! top whose preconditions rule the overflowing inputs out. The duration
//! directions work at millisecond granularity on purpose: both truncate, so
//! a round trip through a duration can shrink a count that does not fall on
//! a whole millisecond (see [`lemma_duration_round_trip`]).

use vstd::arithmetic::div_mod::lemma_div_by_multiple;
use vstd::arithmetic::div_mod::lemma_div_is_ordered;
use vstd::arithmetic::div_mod::lemma_div_multiples_vanish;
use vstd::arithmetic::div_mod::lemma_div_nonincreasing;
use vstd::arithmetic::div_mod::lemma_div_pos_is_pos;
use vstd::arithmetic::div_mod::lemma_fundamental_div_mod;
use vstd::arithmetic::div_mod::lemma_mod_bound;
use vstd::arithmetic::div_mod::lemma_mod_multiples_basic;
use vstd::arithmetic::mul::lemma_mul_is_commutative;
use vstd::prelude::*;

use crate::bytes::Bytes;
use crate::duration::Duration;
use crate::frames::Frames;
use crate::samples::Samples;
use crate::system::System;
use crate::OverflowError;

verus! {

/// Frames to samples: one sample per channel per frame.
pub open spec fn spec_frames_to_samples(count: int, sys: System) -> int {
    count * sys.spec_channels()
}

/// Samples to frames: exact on counts divisible by the channel count.
pub open spec fn spec_samples_to_frames(count: int, sys: System) -> int {
    count / (sys.spec_channels() as int)
}

/// Frames to bytes: one frame occupies `frame_size` bytes.
pub open spec fn spec_frames_to_bytes(count: int, sys: System) -> int {
    count * sys.spec_frame_size()
}

/// Bytes to frames: exact on counts divisible by the frame size.
pub open spec fn spec_bytes_to_frames(count: int, sys: System) -> int {
    count / sys.spec_frame_size()
}

/// Samples to bytes: one sample occupies `byte_depth` bytes.
pub open spec fn spec_samples_to_bytes(count: int, sys: System) -> int {
    count * sys.spec_byte_depth()
}

/// Bytes to samples: exact on counts divisible by the byte depth, which the
/// frame-size invariant of [`Bytes`] guarantees.
pub open spec fn spec_bytes_to_samples(count: int, sys: System) -> int {
    count / (sys.spec_byte_depth() as int)
}

/// Frames to whole milliseconds, truncating: multiply before dividing, so
/// that only the final division discards information.
pub open spec fn spec_frames_to_millis(count: int, sys: System) -> int {
    count * 1000 / (sys.spec_sample_rate() as int)
}

/// Whole milliseconds to frames, truncating: multiply before dividing, so
/// that only the final division discards information.
pub open spec fn spec_millis_to_frames(ms: int, sys: System) -> int {
    ms * sys.spec_sample_rate() / 1000
}

/// Bytes to frames, exact by the divisibility invariant of [`Bytes`].
pub fn bytes_to_frames(value: Bytes) -> (r: Frames)
    ensures
        r.spec_system() == value.spec_system(),
        r.spec_count() == spec_bytes_to_frames(value.spec_count(), value.spec_system()),
{
    let sys = value.system();
    let fs = sys.frame_size();
    Frames::new(value.get() / (fs as usize), sys)
}

/// Frames to bytes; overflow of the byte count is reported, never wrapped.
pub fn frames_to_bytes(value: Frames) -> (r: Result<Bytes, OverflowError>)
    ensures
        r is Ok <==> spec_frames_to_bytes(value.spec_count(), value.spec_system()) <= usize::MAX,
        r is Ok ==> r.unwrap().spec_system() == value.spec_system(),
        r is Ok ==> r.unwrap().spec_count() == spec_frames_to_bytes(
            value.spec_count(),
            value.spec_system(),
        ),
{
    let sys = value.system();
    let fs = sys.frame_size();
    match value.get().checked_mul(fs as usize) {
        Some(n) => {
            proof {
                lemma_mod_multiples_basic(value.spec_count(), sys.spec_frame_size());
            }
            Ok(Bytes::new(n, sys).unwrap())
        },
        None => Err(OverflowError),
    }
}

/// Samples to frames, exact by the divisibility invariant of [`Samples`].
pub fn samples_to_frames(value: Samples) -> (r: Frames)
    ensures
        r.spec_system() == value.spec_system(),
        r.spec_count() == spec_samples_to_frames(value.spec_count(), value.spec_system()),
{
    let sys = value.system();
    let c = sys.channel_layout.channels();
    Frames::new(value.get() / (c as usize), sys)
}

/// Frames to samples; overflow of the sample count is reported, never
/// wrapped.
pub fn frames_to_samples(value: Frames) -> (r: Result<Samples, OverflowError>)
    ensures
        r is Ok <==> spec_frames_to_samples(value.spec_count(), value.spec_system())
            <= usize::MAX,
        r is Ok ==> r.unwrap().spec_system() == value.spec_system(),
        r is Ok ==> r.unwrap().spec_count() == spec_frames_to_samples(
            value.spec_count(),
            value.spec_system(),
        ),
{
    let sys = value.system();
    let c = sys.channel_layout.channels();
    match value.get().checked_mul(c as usize) {
        Some(n) => {
            proof {
                lemma_mod_multiples_basic(value.spec_count(), sys.spec_channels() as int);
            }
            Ok(Samples::new(n, sys).unwrap())
        },
        None => Err(OverflowError),
    }
}

/// Bytes to samples, exact: the byte count is a multiple of the frame size,
/// hence of the byte depth.
pub fn bytes_to_samples(value: Bytes) -> (r: Samples)
    ensures
        r.spec_system() == value.spec_system(),
        r.spec_count() == spec_bytes_to_samples(value.spec_count(), value.spec_system()),
{
    let sys = value.system();
    let d = sys.sample_type.byte_depth();
    let n = value.get() / (d as usize);
    proof {
        let b = value.spec_count();
        let c = sys.spec_channels() as int;
        let dd = sys.spec_byte_depth() as int;
        let fs = sys.spec_frame_size();
        assert(1 <= fs <= 32) by (nonlinear_arith)
            requires
                fs == c * dd,
                1 <= c <= 2,
                1 <= dd <= 16,
        ;
        lemma_div_pos_is_pos(b, fs);
        let m = b / fs;
        lemma_fundamental_div_mod(b, fs);
        assert(fs * m == (c * m) * dd) by (nonlinear_arith)
            requires
                fs == c * dd,
        ;
        lemma_div_by_multiple(c * m, dd);
        assert(b / dd == c * m);
        lemma_mod_multiples_basic(m, c);
        lemma_mul_is_commutative(c, m);
        assert((b / dd) % c == 0);
    }
    Samples::new(n, sys).unwrap()
}

/// Samples to bytes; overflow of the byte count is reported, never wrapped.
pub fn samples_to_bytes(value: Samples) -> (r: Result<Bytes, OverflowError>)
    ensures
        r is Ok <==> spec_samples_to_bytes(value.spec_count(), value.spec_system())
            <= usize::MAX,
        r is Ok ==> r.unwrap().spec_system() == value.spec_system(),
        r is Ok ==> r.unwrap().spec_count() == spec_samples_to_bytes(
            value.spec_count(),
            value.spec_system(),
        ),
{
    let sys = value.system();
    let d = sys.sample_type.byte_depth();
    match value.get().checked_mul(d as usize) {
        Some(n) => {
            proof {
                let s = value.spec_count();
                let c = sys.spec_channels() as int;
                let dd = sys.spec_byte_depth() as int;
                let fs = sys.spec_frame_size();
                assert(1 <= fs <= 32) by (nonlinear_arith)
                    requires
                        fs == c * dd,
                        1 <= c <= 2,
                        1 <= dd <= 16,
                ;
                lemma_div_pos_is_pos(s, c);
                let q = s / c;
                lemma_fundamental_div_mod(s, c);
                assert((c * q) * dd == q * fs) by (nonlinear_arith)
                    requires
                        fs == c * dd,
                ;
                lemma_mod_multiples_basic(q, fs);
                lemma_mul_is_commutative(q, fs);
                assert((s * dd) % fs == 0);
            }
            Ok(Bytes::new(n, sys).unwrap())
        },
        None => Err(OverflowError),
    }
}

/// A duration to the frames it lasts in format `system`, truncated to whole
/// milliseconds first; a frame count beyond the working integer is reported
/// as overflow.
pub fn duration_to_frames(value: Duration, system: System) -> (r: Result<Frames, OverflowError>)
    ensures
        r is Ok <==> spec_millis_to_frames(value.spec_millis(), system) <= usize::MAX,
        r is Ok ==> r.unwrap().spec_system() == system,
        r is Ok ==> r.unwrap().spec_count() == spec_millis_to_frames(
            value.spec_millis(),
            system,
        ),
{
    let ms: u128 = value.as_millis();
    let rate: u32 = system.sample_rate.get();
    proof {
        assert(ms * rate <= (u64::MAX * 1000 + 999) * u32::MAX) by (nonlinear_arith)
            requires
                0 <= ms <= u64::MAX * 1000 + 999,
                0 <= rate <= u32::MAX,
        ;
    }
    let prod: u128 = ms * (rate as u128);
    let n: u128 = prod / 1000;
    proof {
        lemma_div_pos_is_pos(prod as int, 1000);
    }
    if n <= usize::MAX as u128 {
        Ok(Frames::new(n as usize, system))
    } else {
        Err(OverflowError)
    }
}

/// Frames to the duration they last, truncated to whole milliseconds; a
/// millisecond count whose scaling step leaves the working integer is
/// reported as overflow.
pub fn frames_to_duration(value: Frames) -> (r: Result<Duration, OverflowError>)
    ensures
        r is Ok <==> value.spec_count() * 1000 <= usize::MAX,
        r is Ok ==> r.unwrap() == Duration::spec_from_millis(
            spec_frames_to_millis(value.spec_count(), value.spec_system()),
        ),
{
    let sys = value.system();
    let rate: u32 = sys.sample_rate.get();
    match value.get().checked_mul(1000) {
        Some(n) => {
            let ms = n / (rate as usize);
            proof {
                lemma_div_pos_is_pos(n as int, rate as int);
                lemma_div_nonincreasing(n as int, rate as int);
            }
            Ok(Duration::from_millis(ms as u64))
        },
        None => Err(OverflowError),
    }
}

/// A duration to the samples it lasts in format `system`, composed through
/// frames: the lossy truncation happens once, in the frame step.
pub fn duration_to_samples(value: Duration, system: System) -> (r: Result<Samples, OverflowError>)
    ensures
        ({
            let f = spec_millis_to_frames(value.spec_millis(), system);
            &&& (r is Ok <==> f <= usize::MAX && spec_frames_to_samples(f, system) <= usize::MAX)
            &&& (r is Ok ==> r.unwrap().spec_system() == system)
            &&& (r is Ok ==> r.unwrap().spec_count() == spec_frames_to_samples(f, system))
        }),
{
    match duration_to_frames(value, system) {
        Ok(frames) => frames_to_samples(frames),
        Err(e) => Err(e),
    }
}

/// Samples to the duration they last, composed through frames: the exact
/// frame step first, then the lossy millisecond truncation.
pub fn samples_to_duration(value: Samples) -> (r: Result<Duration, OverflowError>)
    ensures
        ({
            let f = spec_samples_to_frames(value.spec_count(), value.spec_system());
            &&& (r is Ok <==> f * 1000 <= usize::MAX)
            &&& (r is Ok ==> r.unwrap() == Duration::spec_from_millis(
                spec_frames_to_millis(f, value.spec_system()),
            ))
        }),
{
    frames_to_duration(samples_to_frames(value))
}

/// A duration to the bytes it occupies in format `system`, composed through
/// samples, which compose through frames.
pub fn duration_to_bytes(value: Duration, system: System) -> (r: Result<Bytes, OverflowError>)
    ensures
        ({
            let f = spec_millis_to_frames(value.spec_millis(), system);
            let s = spec_frames_to_samples(f, system);
            &&& (r is Ok <==> f <= usize::MAX && s <= usize::MAX && spec_samples_to_bytes(
                s,
                system,
            ) <= usize::MAX)
            &&& (r is Ok ==> r.unwrap().spec_system() == system)
            &&& (r is Ok ==> r.unwrap().spec_count() == spec_samples_to_bytes(s, system))
        }),
{
    match duration_to_samples(value, system) {
        Ok(samples) => samples_to_bytes(samples),
        Err(e) => Err(e),
    }
}

/// Bytes to the duration they store, composed through samples, which compose
/// through frames.
pub fn bytes_to_duration(value: Bytes) -> (r: Result<Duration, OverflowError>)
    ensures
        ({
            let s = spec_bytes_to_samples(value.spec_count(), value.spec_system());
            let f = spec_samples_to_frames(s, value.spec_system());
            &&& (r is Ok <==> f * 1000 <= usize::MAX)
            &&& (r is Ok ==> r.unwrap() == Duration::spec_from_millis(
                spec_frames_to_millis(f, value.spec_system()),
            ))
        }),
{
    samples_to_duration(bytes_to_samples(value))
}

/// Round-trip exactness for the integer-only conversions: frames through
/// samples and back, or through bytes and back, recover the original count,
/// and converting frames to bytes directly agrees with going through
/// samples, in either direction. The preconditions only restate the
/// validity of the descriptor: every constructed [`SampleType`] has a
/// positive byte width.
pub proof fn lemma_frames_round_trip(f: Frames)
    requires
        f.spec_system().spec_byte_depth() >= 1,
    ensures
        spec_samples_to_frames(
            spec_frames_to_samples(f.spec_count(), f.spec_system()),
            f.spec_system(),
        ) == f.spec_count(),
        spec_bytes_to_frames(
            spec_frames_to_bytes(f.spec_count(), f.spec_system()),
            f.spec_system(),
        ) == f.spec_count(),
        spec_samples_to_bytes(
            spec_frames_to_samples(f.spec_count(), f.spec_system()),
            f.spec_system(),
        ) == spec_frames_to_bytes(f.spec_count(), f.spec_system()),
        spec_bytes_to_samples(
            spec_frames_to_bytes(f.spec_count(), f.spec_system()),
            f.spec_system(),
        ) == spec_frames_to_samples(f.spec_count(), f.spec_system()),
{
    let n = f.spec_count();
    let sys = f.spec_system();
    let c = sys.spec_channels() as int;
    let dd = sys.spec_byte_depth() as int;
    let fs = sys.spec_frame_size();
    assert(1 <= fs) by (nonlinear_arith)
        requires
            fs == c * dd,
            1 <= c,
            1 <= dd,
    ;
    lemma_mul_is_commutative(n, c);
    lemma_div_multiples_vanish(n, c);
    lemma_mul_is_commutative(n, fs);
    lemma_div_multiples_vanish(n, fs);
    assert((n * c) * dd == n * fs) by (nonlinear_arith)
        requires
            fs == c * dd,
    ;
    assert((n * fs) / dd == n * c) by {
        assert(n * fs == (n * c) * dd);
        lemma_mul_is_commutative(n * c, dd);
        lemma_div_multiples_vanish(n * c, dd);
    }
}

/// The duration round trip never grows a frame count, and it is exact
/// precisely on counts that fall on a whole millisecond: when the sample
/// rate divides `count * 1000`, converting frames to a duration and back
/// recovers the count; any sub-millisecond remainder is discarded. The
/// precondition on the rate only restates the validity of the descriptor:
/// every constructed [`SampleRate`](crate::SampleRate) is positive.
pub proof fn lemma_duration_round_trip(f: Frames)
    requires
        0 <= f.spec_count(),
        f.spec_count() * 1000 <= usize::MAX,
        f.spec_system().spec_sample_rate() >= 1,
    ensures
        ({
            let sys = f.spec_system();
            let ms = spec_frames_to_millis(f.spec_count(), sys);
            let back = spec_millis_to_frames(
                Duration::spec_from_millis(ms).spec_millis(),
                sys,
            );
            &&& back <= f.spec_count()
            &&& (f.spec_count() * 1000) % (sys.spec_sample_rate() as int) == 0 ==> back
                == f.spec_count()
        }),
{
    let n = f.spec_count();
    let sys = f.spec_system();
    let rate = sys.spec_sample_rate() as int;
    let ms = spec_frames_to_millis(n, sys);
    lemma_div_pos_is_pos(n * 1000, rate);
    lemma_div_nonincreasing(n * 1000, rate);
    crate::duration::lemma_from_millis_millis(ms);
    assert(Duration::spec_from_millis(ms).spec_millis() == ms);
    lemma_fundamental_div_mod(n * 1000, rate);
    lemma_mod_bound(n * 1000, rate);
    assert(rate * ms <= n * 1000);
    lemma_mul_is_commutative(rate, ms);
    lemma_div_is_ordered(ms * rate, n * 1000, 1000);
    lemma_mul_is_commutative(n, 1000);
    lemma_div_multiples_vanish(n, 1000);
    assert(spec_millis_to_frames(ms, sys) <= n);
    if (n * 1000) % rate == 0 {
        assert(rate * ms == n * 1000);
        assert(spec_millis_to_frames(ms, sys) == n);
    }
}

} // verus!
