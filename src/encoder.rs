//! Encoder worker policy: frame timestamps and key-frame hints, the bounded
//! input queue with its drop policy, packet durations, pixel formats and the
//! choice of encoder implementation.

use vstd::prelude::*;
use crate::stream::{CodecKind, PixelFormat};
use crate::text::{contains_spec, contains_text, same_text};
use crate::timestamp::{Rational, rescale_spec, rescale_ts};

verus! {

/// How often a key-frame hint is set when none is configured.
pub const DEFAULT_KEYFRAME_HINT_INTERVAL: i64 = 5;

/// Depth of the queue between the frame receiver and the encode loop.
pub const FRAME_QUEUE_BOUND: usize = 128;

/// Every how many dropped frames a drop is reported.
pub const DROP_LOG_INTERVAL: u64 = 120;

/// Timestamp and key-frame hint given to a frame before it is encoded.
#[derive(Clone, Copy, Debug, PartialEq, Eq, Structural)]
pub struct FrameStamp {
    pub pts: i64,
    pub key_hint: bool,
    /// Whether `pts` was synthesised from the frame index.
    pub synthesized: bool,
}

/// The encoder's frame counter. Frame `n` (counting from zero) gets a
/// key-frame hint when `n` is a multiple of the hint interval; a frame
/// without a usable timestamp is stamped with `n`.
pub struct FrameClock {
    frame_index: i64,
    keyframe_interval: i64,
}

/// The stamp frame number `index` gets, given its own timestamp `pts` in the
/// stream time base `from`, under encoder time base `to` and hint interval `k`.
pub open spec fn frame_stamp_spec(
    index: i64,
    k: i64,
    pts: Option<i64>,
    from: Rational,
    to: Rational,
) -> FrameStamp {
    let rescaled = match pts {
        Some(p) => rescale_spec(p, from, to),
        None => None,
    };
    match rescaled {
        Some(v) => FrameStamp { pts: v, key_hint: index % k == 0, synthesized: false },
        None => FrameStamp { pts: index, key_hint: index % k == 0, synthesized: true },
    }
}

impl FrameClock {
    /// Number of frames stamped so far.
    pub closed spec fn index(&self) -> i64 {
        self.frame_index
    }

    /// The key-frame hint interval.
    pub closed spec fn interval(&self) -> i64 {
        self.keyframe_interval
    }

    pub closed spec fn wf(&self) -> bool {
        self.frame_index >= 0 && self.keyframe_interval > 0
    }

    /// A clock at frame zero with the given hint interval; `None` selects the
    /// default interval, as does a non-positive one.
    pub fn new(keyframe_interval: Option<i64>) -> (r: FrameClock)
        ensures
            r.wf(),
            r.index() == 0,
            r.interval() == match keyframe_interval {
                Some(k) if k > 0 => k,
                _ => DEFAULT_KEYFRAME_HINT_INTERVAL,
            },
    {
        let k = match keyframe_interval {
            Some(k) if k > 0 => k,
            _ => DEFAULT_KEYFRAME_HINT_INTERVAL,
        };
        FrameClock { frame_index: 0, keyframe_interval: k }
    }

    /// Stamps the next frame. A frame whose timestamp rescales from the stream
    /// time base `from` into the encoder time base `to` keeps it; any other is
    /// stamped with the frame index. `None` once the counter is exhausted.
    pub fn next_frame(&mut self, pts: Option<i64>, from: Rational, to: Rational) -> (r: Option<
        FrameStamp,
    >)
        requires
            old(self).wf(),
        ensures
            final(self).wf(),
            final(self).interval() == old(self).interval(),
            old(self).index() == i64::MAX ==> r.is_none() && final(self).index() == old(
                self,
            ).index(),
            old(self).index() < i64::MAX ==> r == Some(
                frame_stamp_spec(old(self).index(), old(self).interval(), pts, from, to),
            ) && final(self).index() == old(self).index() + 1,
    {
        if self.frame_index == i64::MAX {
            return None;
        }
        let index = self.frame_index;
        let key_hint = index % self.keyframe_interval == 0;
        let rescaled = match pts {
            Some(p) => rescale_ts(p, from, to),
            None => None,
        };
        let stamp = match rescaled {
            Some(v) => FrameStamp { pts: v, key_hint, synthesized: false },
            None => FrameStamp { pts: index, key_hint, synthesized: true },
        };
        self.frame_index = index + 1;
        Some(stamp)
    }
}

/// The stamps that a clock at frame `start` gives to frames arriving with
/// timestamps `pts`, one after the other.
pub open spec fn clock_run(
    start: i64,
    k: i64,
    pts: Seq<Option<i64>>,
    from: Rational,
    to: Rational,
) -> Seq<FrameStamp>
    recommends
        start + pts.len() <= i64::MAX,
{
    Seq::new(pts.len(), |n: int| frame_stamp_spec((start + n) as i64, k, pts[n], from, to))
}

/// Frames that reach the encoder without a usable timestamp get strictly
/// increasing timestamps: of any two such frames, the later one is stamped
/// later.
pub proof fn lemma_synthesized_pts_increase(
    start: i64,
    k: i64,
    pts: Seq<Option<i64>>,
    from: Rational,
    to: Rational,
    a: int,
    b: int,
)
    requires
        start >= 0,
        start + pts.len() <= i64::MAX,
        0 <= a < b < pts.len(),
        clock_run(start, k, pts, from, to)[a].synthesized,
        clock_run(start, k, pts, from, to)[b].synthesized,
    ensures
        clock_run(start, k, pts, from, to)[a].pts < clock_run(start, k, pts, from, to)[b].pts,
{
}

/// What happens to a frame offered to the encoder's input queue.
#[derive(Clone, Copy, Debug, PartialEq, Eq, Structural)]
pub enum Admission {
    /// Queue it now.
    Enqueue,
    /// The queue is full: drop the frame.
    Drop,
    /// End of stream on a full queue: wait for room, never drop it.
    Wait,
}

/// The drop policy of the encoder's bounded input queue: a data frame is
/// dropped when the queue is full, end of stream is never dropped.
pub fn admit_frame(queue_len: usize, capacity: usize, is_eof: bool) -> (r: Admission)
    ensures
        queue_len < capacity ==> r == Admission::Enqueue,
        queue_len >= capacity && !is_eof ==> r == Admission::Drop,
        queue_len >= capacity && is_eof ==> r == Admission::Wait,
{
    if queue_len < capacity {
        Admission::Enqueue
    } else if is_eof {
        Admission::Wait
    } else {
        Admission::Drop
    }
}

/// Counts frames dropped at the encoder's input queue.
pub struct DropCounter {
    dropped: u64,
}

impl DropCounter {
    pub closed spec fn count(&self) -> u64 {
        self.dropped
    }

    pub fn new() -> (r: DropCounter)
        ensures
            r.count() == 0,
    {
        DropCounter { dropped: 0 }
    }

    /// Counts one more dropped frame (the count stops at `u64::MAX`); returns
    /// whether this drop is to be reported, which is the case for the first
    /// drop and then every `DROP_LOG_INTERVAL`-th.
    pub fn record_drop(&mut self) -> (r: bool)
        ensures
            old(self).count() < u64::MAX ==> final(self).count() == old(self).count() + 1,
            old(self).count() == u64::MAX ==> final(self).count() == u64::MAX,
            r == (final(self).count() % DROP_LOG_INTERVAL == 1 && old(self).count() < u64::MAX),
    {
        if self.dropped == u64::MAX {
            return false;
        }
        self.dropped = self.dropped + 1;
        self.dropped % DROP_LOG_INTERVAL == 1
    }
}

/// Duration of one encoded packet in microseconds at frame rate `rate`
/// (frames per second as `num / den`), when the rate is known.
pub fn packet_duration_us(rate: Rational) -> (r: Option<i64>)
    ensures
        rate.num > 0 && rate.den > 0 ==> r == Some((1_000_000 * (rate.den as int) / (rate.num as int)) as i64),
        !(rate.num > 0 && rate.den > 0) ==> r.is_none(),
{
    if rate.num > 0 && rate.den > 0 {
        let n: i64 = 1_000_000i64 * (rate.den as i64);
        Some(n / (rate.num as i64))
    } else {
        None
    }
}

/// Whether an encoder name designates a hardware encoder.
pub open spec fn is_hw_encoder_name(name: Seq<char>) -> bool {
    contains_spec(name, "nvenc"@) || contains_spec(name, "vaapi"@) || contains_spec(name, "qsv"@)
        || contains_spec(name, "v4l2m2m"@)
}

/// The pixel format an encoder is fed from source format `source`: RGB and
/// BGR sources become NV12 for hardware encoders and YUV420P otherwise; any
/// other source format is kept.
pub open spec fn encoder_pixel_format_spec(source: PixelFormat, hw: bool) -> PixelFormat {
    match source {
        PixelFormat::Rgb24 | PixelFormat::Bgr24 => if hw {
            PixelFormat::Nv12
        } else {
            PixelFormat::Yuv420p
        },
        _ => source,
    }
}

fn encoder_pixel_format(source: PixelFormat, hw: bool) -> (r: PixelFormat)
    ensures
        r == encoder_pixel_format_spec(source, hw),
{
    match source {
        PixelFormat::Rgb24 | PixelFormat::Bgr24 => if hw {
            PixelFormat::Nv12
        } else {
            PixelFormat::Yuv420p
        },
        _ => source,
    }
}

/// The pixel format to feed encoder `codec_name` from source format `source`.
pub fn pixel_format_for_encoder(source: PixelFormat, codec_name: &str) -> (r: PixelFormat)
    ensures
        r == encoder_pixel_format_spec(source, is_hw_encoder_name(codec_name@)),
{
    let hw = contains_text(codec_name, "nvenc") || contains_text(codec_name, "vaapi")
        || contains_text(codec_name, "qsv") || contains_text(codec_name, "v4l2m2m");
    encoder_pixel_format(source, hw)
}

/// The pixel format to feed the software H.264 encoder from `source`.
pub fn pixel_format_for_libx264(source: PixelFormat) -> (r: PixelFormat)
    ensures
        r == encoder_pixel_format_spec(source, false),
{
    encoder_pixel_format(source, false)
}

/// Hardware encoders to try, in order, before software encoder `name`.
pub open spec fn hw_encoder_table(name: Seq<char>) -> Seq<Seq<char>> {
    if name == "libx264"@ || name == "h264"@ {
        seq!["h264_nvenc"@, "h264_vaapi"@, "h264_qsv"@, "h264_v4l2m2m"@]
    } else if name == "libx265"@ || name == "hevc"@ || name == "h265"@ {
        seq!["hevc_nvenc"@, "hevc_vaapi"@, "hevc_qsv"@, "hevc_v4l2m2m"@]
    } else if name == "libvpx"@ || name == "libvpx-vp9"@ || name == "vp9"@ {
        seq!["vp9_vaapi"@, "vp9_qsv"@]
    } else if name == "libaom-av1"@ || name == "libsvtav1"@ || name == "av1"@ {
        seq!["av1_nvenc"@, "av1_vaapi"@, "av1_qsv"@]
    } else {
        seq![]
    }
}

/// The views of a list of strings.
pub open spec fn texts(v: Seq<String>) -> Seq<Seq<char>> {
    v.map_values(|s: String| s@)
}

fn text_list(items: &[&str]) -> (r: Vec<String>)
    ensures
        r@.len() == items@.len(),
        forall|i: int| 0 <= i < items@.len() ==> #[trigger] r@[i]@ == items@[i]@,
{
    let mut r: Vec<String> = Vec::new();
    let mut i: usize = 0;
    while i < items.len()
        invariant
            i <= items@.len(),
            r@.len() == i,
            forall|j: int| 0 <= j < i ==> #[trigger] r@[j]@ == items@[j]@,
        decreases items.len() - i,
    {
        r.push(items[i].to_owned());
        i = i + 1;
    }
    r
}

/// Hardware encoders to try, in order, before the software encoder `codec_name`.
pub fn hw_encoder_candidates(codec_name: &str) -> (r: Vec<String>)
    ensures
        texts(r@) == hw_encoder_table(codec_name@),
{
    let items: &[&str] = if same_text(codec_name, "libx264") || same_text(codec_name, "h264") {
        &["h264_nvenc", "h264_vaapi", "h264_qsv", "h264_v4l2m2m"]
    } else if same_text(codec_name, "libx265") || same_text(codec_name, "hevc") || same_text(
        codec_name,
        "h265",
    ) {
        &["hevc_nvenc", "hevc_vaapi", "hevc_qsv", "hevc_v4l2m2m"]
    } else if same_text(codec_name, "libvpx") || same_text(codec_name, "libvpx-vp9") || same_text(
        codec_name,
        "vp9",
    ) {
        &["vp9_vaapi", "vp9_qsv"]
    } else if same_text(codec_name, "libaom-av1") || same_text(codec_name, "libsvtav1")
        || same_text(codec_name, "av1") {
        &["av1_nvenc", "av1_vaapi", "av1_qsv"]
    } else {
        &[]
    };
    let r = text_list(items);
    assert(texts(r@) =~= hw_encoder_table(codec_name@));
    r
}

/// The encoder to retry with after the first one failed to open: when the
/// first was a hardware encoder picked for the requested software encoder
/// `requested`, retry with `requested` (and the same options); otherwise
/// there is nothing to fall back to.
pub fn encoder_fallback(requested: Option<&str>, opened: &str) -> (r: Option<String>)
    ensures
        match requested {
            Some(c) => if c@ != opened@ {
                r.is_some() && r.unwrap()@ == c@
            } else {
                r.is_none()
            },
            None => r.is_none(),
        },
{
    match requested {
        Some(c) => if same_text(c, opened) {
            None
        } else {
            Some(c.to_owned())
        },
        None => None,
    }
}

/// Codec options an encoder opens with when its output gives none:
/// the fastest preset, tuned for zero latency.
pub fn default_encoder_options() -> (r: Vec<(String, String)>)
    ensures
        r@.len() == 2,
        r@[0].0@ == "preset"@ && r@[0].1@ == "ultrafast"@,
        r@[1].0@ == "tune"@ && r@[1].1@ == "zerolatency"@,
{
    let mut v: Vec<(String, String)> = Vec::new();
    v.push(("preset".to_owned(), "ultrafast".to_owned()));
    v.push(("tune".to_owned(), "zerolatency".to_owned()));
    v
}

/// Encoder construction parameters.
#[derive(Clone, Debug)]
pub struct Settings {
    pub width: u32,
    pub height: u32,
    pub keyframe_interval: u64,
    /// Every how many frames a key-frame hint is set (see [`FrameClock`]).
    pub key_hint_interval: i64,
    /// Encoder name; `None` lets the codec library pick.
    pub codec: Option<String>,
    pub pixel_format: PixelFormat,
}

impl Default for Settings {
    /// 1920x1080 YUV420P through libx264, a key frame every 25 frames, a
    /// key-frame hint every `DEFAULT_KEYFRAME_HINT_INTERVAL` frames.
    fn default() -> (r: Settings)
        ensures
            r.width == 1920,
            r.height == 1080,
            r.keyframe_interval == 25,
            r.key_hint_interval == DEFAULT_KEYFRAME_HINT_INTERVAL,
            r.codec.is_some() && r.codec.unwrap()@ == "libx264"@,
            r.pixel_format == PixelFormat::Yuv420p,
    {
        Settings {
            width: 1920,
            height: 1080,
            keyframe_interval: 25,
            key_hint_interval: DEFAULT_KEYFRAME_HINT_INTERVAL,
            codec: Some("libx264".to_owned()),
            pixel_format: PixelFormat::Yuv420p,
        }
    }
}

/// Width used when a stream declares none.
pub const FALLBACK_WIDTH: u32 = 320;

/// Height used when a stream declares none.
pub const FALLBACK_HEIGHT: u32 = 240;

/// The declared size, with the fallback for a zero dimension.
pub open spec fn video_dimensions_spec(width: u32, height: u32) -> (u32, u32) {
    (if width == 0 { FALLBACK_WIDTH } else { width }, if height == 0 { FALLBACK_HEIGHT } else { height })
}

/// Replaces a zero width or height (as wrapped-frame sources report before
/// their first frame) with the fallback size.
pub fn ensure_video_dimensions(width: u32, height: u32) -> (r: (u32, u32))
    ensures
        r == video_dimensions_spec(width, height),
        r.0 > 0 && r.1 > 0,
{
    let w = if width == 0 { FALLBACK_WIDTH } else { width };
    let h = if height == 0 { FALLBACK_HEIGHT } else { height };
    (w, h)
}

/// Hardware decoders to try, in order, for codec `codec`.
pub open spec fn hw_decoder_table(codec: CodecKind) -> Seq<Seq<char>> {
    match codec {
        CodecKind::H264 => seq!["h264_cuvid"@, "h264_qsv"@, "h264_v4l2m2m"@],
        CodecKind::Hevc => seq!["hevc_cuvid"@, "hevc_qsv"@, "hevc_v4l2m2m"@],
        CodecKind::Vp8 => seq!["vp8_cuvid"@, "vp8_qsv"@, "vp8_v4l2m2m"@],
        CodecKind::Vp9 => seq!["vp9_cuvid"@, "vp9_qsv"@, "vp9_v4l2m2m"@],
        CodecKind::Av1 => seq!["av1_cuvid"@, "av1_qsv"@],
        CodecKind::Mpeg2Video => seq!["mpeg2_cuvid"@, "mpeg2_qsv"@, "mpeg2_v4l2m2m"@],
        CodecKind::Mpeg4 => seq!["mpeg4_cuvid"@, "mpeg4_v4l2m2m"@],
        _ => seq![],
    }
}

/// Hardware decoders to try, in order, for codec `codec`.
pub fn hw_decoder_candidates(codec: CodecKind) -> (r: Vec<String>)
    ensures
        texts(r@) == hw_decoder_table(codec),
{
    let items: &[&str] = match codec {
        CodecKind::H264 => &["h264_cuvid", "h264_qsv", "h264_v4l2m2m"],
        CodecKind::Hevc => &["hevc_cuvid", "hevc_qsv", "hevc_v4l2m2m"],
        CodecKind::Vp8 => &["vp8_cuvid", "vp8_qsv", "vp8_v4l2m2m"],
        CodecKind::Vp9 => &["vp9_cuvid", "vp9_qsv", "vp9_v4l2m2m"],
        CodecKind::Av1 => &["av1_cuvid", "av1_qsv"],
        CodecKind::Mpeg2Video => &["mpeg2_cuvid", "mpeg2_qsv", "mpeg2_v4l2m2m"],
        CodecKind::Mpeg4 => &["mpeg4_cuvid", "mpeg4_v4l2m2m"],
        _ => &[],
    };
    let r = text_list(items);
    assert(texts(r@) =~= hw_decoder_table(codec));
    r
}

} // verus!
