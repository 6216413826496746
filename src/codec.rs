//! Configuration of the encode and filter stages from the decoder's stream
//! and what the target codec supports.

use crate::error::Error;
use crate::stream::{ChannelLayout, StreamDescriptor};
use crate::timebase::Rational;
use vstd::prelude::*;

verus! {

/// Whether `r` is the layout to encode with, among the `layouts` that the
/// codec advertises, for a decoder with `max` channels: the layout with the
/// most channels not exceeding `max` (the first such on a tie), provided it
/// has more than one channel; mono otherwise.
pub open spec fn is_best_layout(layouts: Seq<ChannelLayout>, max: int, r: ChannelLayout) -> bool {
    if exists|i: int|
        0 <= i < layouts.len() && 1 < #[trigger] layouts[i].channels <= max {
        exists|i: int|
            0 <= i < layouts.len() && r == #[trigger] layouts[i] && 1 < r.channels <= max
                && (forall|j: int|
                0 <= j < layouts.len() && layouts[j].channels <= max
                    ==> #[trigger] layouts[j].channels <= r.channels) && (forall|j: int|
                0 <= j < i && layouts[j].channels <= max ==> #[trigger] layouts[j].channels
                    < r.channels)
    } else {
        r == ChannelLayout::spec_mono()
    }
}

/// Picks the layout to encode with among those the codec advertises, for a
/// decoder with `max` channels (see [`is_best_layout`]).
pub fn best_layout(layouts: &Vec<ChannelLayout>, max: u32) -> (r: ChannelLayout)
    ensures
        is_best_layout(layouts@, max as int, r),
{
    let mut acc = ChannelLayout::mono();
    let ghost mut at: int = -1;
    let mut i: usize = 0;
    while i < layouts.len()
        invariant
            i <= layouts.len(),
            -1 <= at < i,
            at == -1 ==> acc == ChannelLayout::spec_mono(),
            at == -1 ==> forall|j: int| 0 <= j < i ==> !(1 < #[trigger] layouts@[j].channels <= max),
            at >= 0 ==> acc == layouts@[at] && 1 < acc.channels <= max,
            at >= 0 ==> forall|j: int|
                0 <= j < i && layouts@[j].channels <= max ==> #[trigger] layouts@[j].channels
                    <= acc.channels,
            at >= 0 ==> forall|j: int|
                0 <= j < at && layouts@[j].channels <= max ==> #[trigger] layouts@[j].channels
                    < acc.channels,
        decreases layouts.len() - i,
    {
        let cur = layouts[i];
        if cur.channels > acc.channels && cur.channels <= max {
            acc = cur;
            proof {
                at = i as int;
            }
        }
        i = i + 1;
    }
    proof {
        if at >= 0 {
            assert(layouts@[at].channels <= max);
        }
    }
    acc
}

/// Everything the encoder is opened with.
#[derive(Debug, Clone, PartialEq, Eq)]
pub struct EncoderSettings {
    /// Samples per second, equal to the decoder's.
    pub rate: i32,
    /// Channel layout the encoder receives.
    pub layout: ChannelLayout,
    /// Name of the sample format the encoder receives.
    pub format: String,
    /// Average bit rate, copied from the source.
    pub bit_rate: u64,
    /// Bit-rate ceiling, copied from the source.
    pub max_bit_rate: u64,
    /// Unit of the encoder's timestamps: one sample.
    pub time_base: Rational,
    /// Whether the codec must put its headers in the container's header.
    pub global_header: bool,
}

/// Configures the encoder for a decoder described by `source`. The sample
/// format is the first one the codec supports; the layout is the best of
/// those it advertises for the decoder's channel count, or stereo when it
/// advertises none. Rate and bit rates are copied from the source, and the
/// time base is one sample. `global_header` is set when the output container
/// asks for it.
///
/// Fails with `UnsupportedFormatConversion` when the codec lists no sample
/// format, and with `EncodeRejected` when the source rate is zero or does
/// not fit in an `i32`.
pub fn configure_encoder(
    source: &StreamDescriptor,
    formats: Option<&Vec<String>>,
    layouts: Option<&Vec<ChannelLayout>>,
    global_header: bool,
) -> (r: Result<EncoderSettings, Error>)
    ensures
        (formats.is_none() || formats.unwrap()@.len() == 0) ==> r == Err::<EncoderSettings, Error>(
            Error::UnsupportedFormatConversion,
        ),
        formats.is_some() && formats.unwrap()@.len() > 0 && !(0 < source.rate <= i32::MAX) ==> r
            == Err::<EncoderSettings, Error>(Error::EncodeRejected),
        formats.is_some() && formats.unwrap()@.len() > 0 && 0 < source.rate <= i32::MAX ==> {
            &&& r.is_ok()
            &&& r.unwrap().rate == source.rate
            &&& r.unwrap().format@ == formats.unwrap()@[0]@
            &&& (layouts.is_none() ==> r.unwrap().layout == ChannelLayout::spec_stereo())
            &&& (layouts.is_some() ==> is_best_layout(
                layouts.unwrap()@,
                source.layout.channels as int,
                r.unwrap().layout,
            ))
            &&& r.unwrap().bit_rate == source.bit_rate
            &&& r.unwrap().max_bit_rate == source.max_bit_rate
            &&& r.unwrap().time_base == Rational { num: 1, den: source.rate as i32 }
            &&& r.unwrap().global_header == global_header
        },
{
    let format = match formats {
        Some(list) => {
            if list.len() == 0 {
                return Err(Error::UnsupportedFormatConversion);
            }
            list[0].clone()
        },
        None => {
            return Err(Error::UnsupportedFormatConversion);
        },
    };
    if source.rate == 0 || source.rate > 0x7fff_ffff {
        return Err(Error::EncodeRejected);
    }
    let rate = source.rate as i32;
    let layout = match layouts {
        Some(list) => best_layout(list, source.layout.channels),
        None => ChannelLayout::stereo(),
    };
    Ok(
        EncoderSettings {
            rate,
            layout,
            format,
            bit_rate: source.bit_rate,
            max_bit_rate: source.max_bit_rate,
            time_base: Rational::new(1, rate),
            global_header,
        },
    )
}

/// The filter graph's two ends: the source takes the decoder's frames, the
/// sink hands out frames as the encoder takes them.
#[derive(Debug, Clone, PartialEq, Eq)]
pub struct FilterSettings {
    /// What the source node is told about incoming frames.
    pub source: StreamDescriptor,
    /// Sample format the sink emits.
    pub sink_format: String,
    /// Channel layout the sink emits.
    pub sink_layout: ChannelLayout,
    /// Sample rate the sink emits.
    pub sink_rate: i32,
    /// Samples per emitted frame, where the encoder needs a fixed frame size.
    pub frame_size: Option<u32>,
}

/// Configures the filter between the decoder described by `source` and the
/// encoder. Where the encoder cannot take frames of varying size, the sink
/// emits frames of `encoder_frame_size` samples, which must then be positive
/// (`FilterConfigInvalid` otherwise).
pub fn configure_filter(
    source: &StreamDescriptor,
    encoder: &EncoderSettings,
    variable_frame_size: bool,
    encoder_frame_size: u32,
) -> (r: Result<FilterSettings, Error>)
    ensures
        !variable_frame_size && encoder_frame_size == 0 ==> r == Err::<FilterSettings, Error>(
            Error::FilterConfigInvalid,
        ),
        variable_frame_size || encoder_frame_size > 0 ==> {
            &&& r.is_ok()
            &&& r.unwrap().source == *source
            &&& r.unwrap().sink_format@ == encoder.format@
            &&& r.unwrap().sink_layout == encoder.layout
            &&& r.unwrap().sink_rate == encoder.rate
            &&& r.unwrap().frame_size == if variable_frame_size {
                None
            } else {
                Some(encoder_frame_size)
            }
        },
{
    let frame_size = if variable_frame_size {
        None
    } else if encoder_frame_size == 0 {
        return Err(Error::FilterConfigInvalid);
    } else {
        Some(encoder_frame_size)
    };
    Ok(
        FilterSettings {
            source: source.duplicate(),
            sink_format: encoder.format.clone(),
            sink_layout: encoder.layout,
            sink_rate: encoder.rate,
            frame_size,
        },
    )
}

} // verus!
