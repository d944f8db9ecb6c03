//! Stream descriptors: what the engine knows of each input stream.

use vstd::prelude::*;
use crate::timestamp::{Rational, rescale_spec, rescale_ts};

verus! {

/// The codecs the engine tells apart; any other codec is carried by its
/// numeric codec id.
#[derive(Clone, Copy, Debug, PartialEq, Eq, Structural)]
pub enum CodecKind {
    H264,
    Hevc,
    Vp8,
    Vp9,
    Av1,
    Mpeg2Video,
    Mpeg4,
    /// Packets hold raw pixels.
    RawVideo,
    /// Packets wrap already decoded frames.
    WrappedFrame,
    Other(i32),
}

/// The medium of a stream.
#[derive(Clone, Copy, Debug, PartialEq, Eq, Structural)]
pub enum Medium {
    Video,
    Audio,
    Other,
}

/// Pixel formats the engine tells apart; any other is carried by its number.
#[derive(Clone, Copy, Debug, PartialEq, Eq, Structural)]
pub enum PixelFormat {
    Undefined,
    Yuv420p,
    Nv12,
    Rgb24,
    Bgr24,
    Other(i32),
}

/// One input stream as discovered when the input is opened. Width, height and
/// pixel format are those the codec parameters declare (zero and `Undefined`
/// when they declare none).
#[derive(Clone, Copy, Debug, PartialEq, Eq, Structural)]
pub struct StreamDescriptor {
    pub index: usize,
    pub medium: Medium,
    pub codec: CodecKind,
    pub time_base: Rational,
    pub rate: Rational,
    pub width: u32,
    pub height: u32,
    pub pixel_format: PixelFormat,
}

/// The position of the first stream of `streams` that satisfies `pred`.
pub open spec fn first_index_where(
    streams: Seq<StreamDescriptor>,
    pred: spec_fn(StreamDescriptor) -> bool,
) -> Option<int>
    decreases streams.len(),
{
    if streams.len() == 0 {
        None
    } else if pred(streams[0]) {
        Some(0)
    } else {
        match first_index_where(streams.drop_first(), pred) {
            Some(k) => Some(k + 1),
            None => None,
        }
    }
}

proof fn lemma_first_index_found(
    streams: Seq<StreamDescriptor>,
    pred: spec_fn(StreamDescriptor) -> bool,
    i: int,
)
    requires
        0 <= i < streams.len(),
        pred(streams[i]),
        forall|j: int| 0 <= j < i ==> !pred(#[trigger] streams[j]),
    ensures
        first_index_where(streams, pred) == Some(i),
    decreases i,
{
    if i > 0 {
        let rest = streams.drop_first();
        assert forall|j: int| 0 <= j < i - 1 implies !pred(#[trigger] rest[j]) by {
            assert(rest[j] == streams[j + 1]);
        }
        assert(rest[i - 1] == streams[i]);
        lemma_first_index_found(rest, pred, i - 1);
        assert(!pred(streams[0]));
    }
}

/// Whether stream `s` has the given medium.
pub open spec fn has_medium(m: Medium) -> spec_fn(StreamDescriptor) -> bool {
    |s: StreamDescriptor| s.medium == m
}

/// Whether stream `s` has the given index.
pub open spec fn has_index(i: usize) -> spec_fn(StreamDescriptor) -> bool {
    |s: StreamDescriptor| s.index == i
}

/// The first stream of the given medium.
pub fn find_by_medium(streams: &Vec<StreamDescriptor>, m: Medium) -> (r: Option<usize>)
    ensures
        match first_index_where(streams@, has_medium(m)) {
            Some(k) => r.is_some() && r.unwrap() as int == k,
            None => r.is_none(),
        },
        r.is_some() ==> r.unwrap() < streams@.len(),
{
    let mut i: usize = 0;
    while i < streams.len()
        invariant
            i <= streams@.len(),
            forall|j: int| 0 <= j < i ==> !has_medium(m)(#[trigger] streams@[j]),
        decreases streams.len() - i,
    {
        if streams[i].medium == m {
            proof {
                lemma_first_index_found(streams@, has_medium(m), i as int);
            }
            return Some(i);
        }
        i = i + 1;
    }
    proof {
        lemma_first_index_none(streams@, has_medium(m));
    }
    None
}

/// The first stream with the given stream index.
pub fn find_by_index(streams: &Vec<StreamDescriptor>, index: usize) -> (r: Option<usize>)
    ensures
        match first_index_where(streams@, has_index(index)) {
            Some(k) => r.is_some() && r.unwrap() as int == k,
            None => r.is_none(),
        },
        r.is_some() ==> r.unwrap() < streams@.len(),
{
    let mut i: usize = 0;
    while i < streams.len()
        invariant
            i <= streams@.len(),
            forall|j: int| 0 <= j < i ==> !has_index(index)(#[trigger] streams@[j]),
        decreases streams.len() - i,
    {
        if streams[i].index == index {
            proof {
                lemma_first_index_found(streams@, has_index(index), i as int);
            }
            return Some(i);
        }
        i = i + 1;
    }
    proof {
        lemma_first_index_none(streams@, has_index(index));
    }
    None
}

proof fn lemma_first_index_none(streams: Seq<StreamDescriptor>, pred: spec_fn(StreamDescriptor) -> bool)
    requires
        forall|j: int| 0 <= j < streams.len() ==> !pred(#[trigger] streams[j]),
    ensures
        first_index_where(streams, pred).is_none(),
    decreases streams.len(),
{
    if streams.len() > 0 {
        let rest = streams.drop_first();
        assert forall|j: int| 0 <= j < rest.len() implies !pred(#[trigger] rest[j]) by {
            assert(rest[j] == streams[j + 1]);
        }
        lemma_first_index_none(rest, pred);
        assert(!pred(streams[0]));
    }
}

/// The stream that an encoder fed from `input` produces: the same stream with
/// codec `codec`.
pub fn for_encoder_output(input: &StreamDescriptor, codec: CodecKind) -> (r: StreamDescriptor)
    ensures
        r == (StreamDescriptor { codec, ..*input }),
{
    StreamDescriptor { codec, ..*input }
}

/// A timestamp rescaled when present; `None` stays `None`, and so does one
/// that cannot be rescaled.
pub open spec fn rescale_opt_spec(t: Option<i64>, from: Rational, to: Rational) -> Option<i64> {
    match t {
        Some(v) => rescale_spec(v, from, to),
        None => None,
    }
}

fn rescale_opt(t: Option<i64>, from: Rational, to: Rational) -> (r: Option<i64>)
    ensures
        r == rescale_opt_spec(t, from, to),
{
    match t {
        Some(v) => rescale_ts(v, from, to),
        None => None,
    }
}

/// What a decoder bound to stream `stream_index` does with a packet of
/// stream `packet_index` stamped `(pts, dts)` in time base `from`: packets of
/// other streams are dropped (`None`); the others are submitted with their
/// timestamps rescaled into the decoder's time base `to`.
pub fn decoder_packet_timing(
    stream_index: usize,
    packet_index: usize,
    pts: Option<i64>,
    dts: Option<i64>,
    from: Rational,
    to: Rational,
) -> (r: Option<(Option<i64>, Option<i64>)>)
    ensures
        packet_index != stream_index ==> r.is_none(),
        packet_index == stream_index ==> r == Some(
            (rescale_opt_spec(pts, from, to), rescale_opt_spec(dts, from, to)),
        ),
{
    if packet_index != stream_index {
        return None;
    }
    Some((rescale_opt(pts, from, to), rescale_opt(dts, from, to)))
}

/// Why a decoder or a raw-pixel frame cannot be set up.
#[derive(Clone, Copy, Debug, PartialEq, Eq, Structural)]
pub enum ParamsError {
    /// A video stream without pixel format or size.
    MissingVideoParameters,
    /// Neither video nor audio.
    UnsupportedMedium,
}

/// Whether a decoder can be built for a stream of medium `medium` whose
/// decoder reports the given size and pixel format: video needs a defined
/// pixel format and a non-zero size; audio needs nothing more; other media
/// are not decoded.
pub fn check_decoder_params(medium: Medium, width: u32, height: u32, pixel_format: PixelFormat) -> (r:
    Result<(), ParamsError>)
    ensures
        medium == Medium::Video ==> (r.is_ok() <==> (pixel_format != PixelFormat::Undefined
            && width > 0 && height > 0)),
        medium == Medium::Video && r.is_err() ==> r == Err::<(), ParamsError>(
            ParamsError::MissingVideoParameters,
        ),
        medium == Medium::Audio ==> r.is_ok(),
        medium == Medium::Other ==> r == Err::<(), ParamsError>(ParamsError::UnsupportedMedium),
{
    match medium {
        Medium::Video => {
            if pixel_format == PixelFormat::Undefined || width == 0 || height == 0 {
                Err(ParamsError::MissingVideoParameters)
            } else {
                Ok(())
            }
        },
        Medium::Audio => Ok(()),
        Medium::Other => Err(ParamsError::UnsupportedMedium),
    }
}

/// Whether raw pixels can be laid into a frame of this size and format
/// (the packet-to-frame converter of raw-video inputs), and how many bytes of
/// a `packet_len`-byte packet fill a frame plane of `plane_len` bytes: all
/// that fit.
pub fn raw_frame_copy_len(width: u32, height: u32, pixel_format: PixelFormat, packet_len: usize, plane_len: usize) -> (r:
    Result<usize, ParamsError>)
    ensures
        (width == 0 || height == 0 || pixel_format == PixelFormat::Undefined) ==> r
            == Err::<usize, ParamsError>(ParamsError::MissingVideoParameters),
        !(width == 0 || height == 0 || pixel_format == PixelFormat::Undefined) ==> r == Ok::<
            usize,
            ParamsError,
        >(if packet_len < plane_len { packet_len } else { plane_len }),
{
    if width == 0 || height == 0 || pixel_format == PixelFormat::Undefined {
        return Err(ParamsError::MissingVideoParameters);
    }
    Ok(if packet_len < plane_len { packet_len } else { plane_len })
}

} // verus!
