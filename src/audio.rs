use vstd::prelude::*;

verus! {

/// The sample rate the device produces audio at.
pub const AUDIO_SAMPLE_RATE: u32 = 44100;

/// The number of interleaved channels in each audio stream.
pub const AUDIO_CHANNELS: u16 = 2;

/// The number of independent audio streams, one per device audio channel.
pub const AUDIO_STREAMS: usize = 4;

/// An output format that the audio backend offers: a channel count and a
/// range of sample rates.
#[derive(Clone, Copy, Debug, PartialEq, Eq, Structural)]
pub struct FormatRange {
    pub channels: u16,
    pub min_sample_rate: u32,
    pub max_sample_rate: u32,
}

/// The format the streams are built with.
#[derive(Clone, Copy, Debug, PartialEq, Eq, Structural)]
pub struct StreamFormat {
    /// Index of the chosen range among those offered.
    pub index: usize,
    pub channels: u16,
    pub sample_rate: u32,
}

#[derive(Clone, Copy, Debug, PartialEq, Eq, Structural)]
pub enum AudioError {
    /// No offered format has both the sample rate and the channel count.
    NoMatchingFormat,
}

pub open spec fn offers(f: FormatRange, sample_rate: u32, channels: u16) -> bool {
    f.min_sample_rate <= sample_rate <= f.max_sample_rate && f.channels == channels
}

/// Picks the first offered format with exactly the sample rate and the
/// channel count asked for; fails if none has both.
pub fn audio_setup(offered: &[FormatRange], sample_rate: u32, channels: u16) -> (r: Result<
    StreamFormat,
    AudioError,
>)
    ensures
        r is Err <==> forall|j: int| 0 <= j < offered@.len() ==> !offers(#[trigger] offered@[j], sample_rate, channels),
        r is Err ==> r == Err::<StreamFormat, AudioError>(AudioError::NoMatchingFormat),
        r is Ok ==> {
            let f = r->Ok_0;
            &&& f.index < offered@.len()
            &&& offers(offered@[f.index as int], sample_rate, channels)
            &&& forall|j: int| 0 <= j < f.index ==> !offers(#[trigger] offered@[j], sample_rate, channels)
            &&& f.channels == channels
            &&& f.sample_rate == sample_rate
        },
{
    let mut i: usize = 0;
    while i < offered.len()
        invariant
            i <= offered@.len(),
            forall|j: int| 0 <= j < i ==> !offers(#[trigger] offered@[j], sample_rate, channels),
        decreases offered@.len() - i,
    {
        let f = offered[i];
        if f.min_sample_rate <= sample_rate && sample_rate <= f.max_sample_rate && f.channels
            == channels {
            return Ok(StreamFormat { index: i, channels, sample_rate });
        }
        i = i + 1;
    }
    Err(AudioError::NoMatchingFormat)
}

} // verus!
