//! What the container reader exposes about its streams, and the choice of
//! the stream to transcode.

use crate::error::Error;
use crate::timebase::Rational;
use vstd::prelude::*;

verus! {

/// The kind of media that a stream carries.
#[derive(Debug, Clone, Copy, PartialEq, Eq, Structural)]
pub enum MediaKind {
    Audio,
    Video,
    Other,
}

/// One stream of an input container, as far as stream selection needs it.
#[derive(Debug, Clone, Copy, PartialEq, Eq, Structural)]
pub struct StreamInfo {
    pub kind: MediaKind,
    /// Estimated bit rate in bits per second; 0 when the container gives none.
    pub bit_rate: u64,
}

/// Whether stream `i` of `streams` is the best audio stream: an audio stream
/// whose bit rate no audio stream exceeds, and that every earlier audio stream
/// falls short of.
pub open spec fn is_best_audio(streams: Seq<StreamInfo>, i: int) -> bool {
    &&& 0 <= i < streams.len()
    &&& streams[i].kind == MediaKind::Audio
    &&& forall|j: int|
        0 <= j < streams.len() && streams[j].kind == MediaKind::Audio
            ==> #[trigger] streams[j].bit_rate <= streams[i].bit_rate
    &&& forall|j: int|
        0 <= j < i && streams[j].kind == MediaKind::Audio
            ==> #[trigger] streams[j].bit_rate < streams[i].bit_rate
}

/// Whether `streams` holds at least one audio stream.
pub open spec fn has_audio(streams: Seq<StreamInfo>) -> bool {
    exists|j: int| 0 <= j < streams.len() && #[trigger] streams[j].kind == MediaKind::Audio
}

/// Picks the audio stream with the highest bit rate, the first one seen on a
/// tie. Fails with `NoAudioStream` when the container has no audio stream.
pub fn best_audio_stream(streams: &Vec<StreamInfo>) -> (r: Result<usize, Error>)
    ensures
        r.is_ok() <==> has_audio(streams@),
        r.is_ok() ==> is_best_audio(streams@, r.unwrap() as int),
        r.is_err() ==> r == Err::<usize, Error>(Error::NoAudioStream),
{
    let mut best: Option<usize> = None;
    let mut i: usize = 0;
    while i < streams.len()
        invariant
            i <= streams.len(),
            best.is_none() ==> forall|j: int|
                0 <= j < i ==> #[trigger] streams@[j].kind != MediaKind::Audio,
            best.is_some() ==> {
                let b = best.unwrap() as int;
                &&& 0 <= b < i
                &&& streams@[b].kind == MediaKind::Audio
                &&& forall|j: int|
                    0 <= j < i && streams@[j].kind == MediaKind::Audio
                        ==> #[trigger] streams@[j].bit_rate <= streams@[b].bit_rate
                &&& forall|j: int|
                    0 <= j < b && streams@[j].kind == MediaKind::Audio
                        ==> #[trigger] streams@[j].bit_rate < streams@[b].bit_rate
            },
        decreases streams.len() - i,
    {
        let s = streams[i];
        if s.kind == MediaKind::Audio {
            match best {
                None => {
                    best = Some(i);
                },
                Some(b) => {
                    if s.bit_rate > streams[b].bit_rate {
                        best = Some(i);
                    }
                },
            }
        }
        i = i + 1;
    }
    match best {
        Some(b) => Ok(b),
        None => Err(Error::NoAudioStream),
    }
}

/// The parameters of an audio stream that the stages are built from.
#[derive(Debug, Clone, PartialEq, Eq)]
pub struct StreamDescriptor {
    /// Unit of the stream's timestamps.
    pub time_base: Rational,
    /// Samples per second.
    pub rate: u32,
    /// Name of the sample format (bit depth and planarity), such as `fltp`.
    pub format: String,
    /// Channel layout of the samples.
    pub layout: ChannelLayout,
    /// Average bit rate in bits per second.
    pub bit_rate: u64,
    /// Bit-rate ceiling in bits per second; 0 when there is none.
    pub max_bit_rate: u64,
}

impl StreamDescriptor {
    /// A copy of the descriptor, field for field.
    pub fn duplicate(&self) -> (r: StreamDescriptor)
        ensures
            r == *self,
    {
        StreamDescriptor {
            time_base: self.time_base,
            rate: self.rate,
            format: self.format.clone(),
            layout: self.layout,
            bit_rate: self.bit_rate,
            max_bit_rate: self.max_bit_rate,
        }
    }
}

/// A channel layout: the mask of speaker positions and the number of channels.
#[derive(Debug, Clone, Copy, PartialEq, Eq, Structural)]
pub struct ChannelLayout {
    pub bits: u64,
    pub channels: u32,
}

/// Speaker mask of the front-center position.
pub const FRONT_CENTER: u64 = 0x4;

/// Speaker mask of the front-left and front-right positions.
pub const FRONT_LEFT_RIGHT: u64 = 0x3;

impl ChannelLayout {
    /// The one-channel layout.
    pub open spec fn spec_mono() -> ChannelLayout {
        ChannelLayout { bits: FRONT_CENTER, channels: 1 }
    }

    /// The two-channel layout.
    pub open spec fn spec_stereo() -> ChannelLayout {
        ChannelLayout { bits: FRONT_LEFT_RIGHT, channels: 2 }
    }

    /// The one-channel layout.
    pub fn mono() -> (r: ChannelLayout)
        ensures
            r == ChannelLayout::spec_mono(),
    {
        ChannelLayout { bits: FRONT_CENTER, channels: 1 }
    }

    /// The two-channel layout.
    pub fn stereo() -> (r: ChannelLayout)
        ensures
            r == ChannelLayout::spec_stereo(),
    {
        ChannelLayout { bits: FRONT_LEFT_RIGHT, channels: 2 }
    }
}

} // verus!
