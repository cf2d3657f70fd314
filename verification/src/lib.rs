//! Convert audio time spans between their discrete representations — a count
//! of frames, of samples, or of bytes — and a wall-clock duration, relative to
//! one fixed format descriptor (sampling rate, channel layout and per-sample
//! encoding).
//!
//! A [`System`] describes the format once; [`Frames`], [`Samples`] and
//! [`Bytes`] each carry the count together with the `System` they are bound
//! to, so that quantities of different formats cannot be mixed. The checked
//! conversion functions ([`frames_to_bytes`], [`duration_to_frames`] and the
//! rest) report overflow explicitly; the methods on the quantity types are a
//! convenience tier layered on top of them, whose preconditions rule the
//! overflowing inputs out.

use vstd::prelude::*;

mod bytes;
mod channel_layout;
mod convert;
mod duration;
mod frames;
mod sample;
mod sample_rate;
mod samples;
mod system;

pub use bytes::Bytes;
pub use channel_layout::ChannelLayout;
pub use convert::bytes_to_duration;
pub use convert::bytes_to_frames;
pub use convert::bytes_to_samples;
pub use convert::duration_to_bytes;
pub use convert::duration_to_frames;
pub use convert::duration_to_samples;
pub use convert::frames_to_bytes;
pub use convert::frames_to_duration;
pub use convert::frames_to_samples;
pub use convert::lemma_duration_round_trip;
pub use convert::lemma_frames_round_trip;
pub use convert::samples_to_bytes;
pub use convert::samples_to_duration;
pub use convert::samples_to_frames;
pub use convert::spec_bytes_to_frames;
pub use convert::spec_bytes_to_samples;
pub use convert::spec_frames_to_bytes;
pub use convert::spec_frames_to_millis;
pub use convert::spec_frames_to_samples;
pub use convert::spec_millis_to_frames;
pub use convert::spec_samples_to_bytes;
pub use convert::spec_samples_to_frames;
pub use duration::lemma_duration_parts;
pub use duration::lemma_from_millis_millis;
pub use duration::Duration;
pub use frames::Frames;
pub use sample::lemma_sample_type_identity;
pub use sample::lemma_type_id_injective;
pub use sample::Sample;
pub use sample::SampleEncoding;
pub use sample::SampleType;
pub use sample::TypeId;
pub use sample_rate::SampleRate;
pub use samples::Samples;
pub use system::audio_cd;
pub use system::System;

verus! {

/// An arithmetic step would exceed the representable range of the working
/// integer: a unit expansion overflowed, or a duration holds more frames than
/// the target count can express.
#[derive(Clone, Copy, Debug, PartialEq, Eq, Structural)]
pub struct OverflowError;

} // verus!
