//! The output muxer's bookkeeping: which output stream an input stream goes
//! to, when the header and the trailer are due, and the per-stream DTS clamp.

use vstd::prelude::*;
use crate::stream::CodecKind;
use crate::text::same_text;
use crate::bus::option_texts;
use crate::timestamp::{
    Rational, rescale_spec, rescale_ts, normalize_spec, normalize_timestamps,
    lemma_rescale_monotone,
};

verus! {

/// Why a packet cannot be written.
#[derive(Clone, Copy, Debug, PartialEq, Eq, Structural)]
pub enum MuxError {
    /// No output stream was added for this input stream index.
    StreamNotFound(usize),
    /// A timestamp does not survive rescaling or the DTS clamp.
    TimestampOutOfRange,
    /// The muxer has no stream yet.
    NoStreamAdded,
}

/// How a muxer that reads the whole input takes one packet.
#[derive(Clone, Copy, Debug, PartialEq, Eq, Structural)]
pub enum Route {
    /// The packet belongs to a stream this muxer does not carry: nothing is
    /// written and nothing changes.
    Skip,
    /// Write it on output stream `out_index`, writing the header first when
    /// `write_header` is set.
    Write { out_index: usize, write_header: bool },
}

/// The position of the last occurrence of `x` in `s`.
pub open spec fn last_index_of(s: Seq<usize>, x: usize) -> Option<int>
    decreases s.len(),
{
    if s.len() == 0 {
        None
    } else if s.last() == x {
        Some(s.len() - 1)
    } else {
        last_index_of(s.drop_last(), x)
    }
}

/// Timestamps of one packet once rescaled and clamped, and where it goes.
#[derive(Clone, Copy, Debug, PartialEq, Eq, Structural)]
pub struct StampedPacket {
    pub out_index: usize,
    pub pts: i64,
    pub dts: i64,
}

/// The DTS clamp: a DTS at or below the last one written on the stream is
/// raised to one past it, and the PTS is raised to the new DTS if it would
/// fall below it; `None` when the raised DTS would not fit.
pub open spec fn clamp_spec(last: Option<i64>, pts: i64, dts: i64) -> Option<(i64, i64)> {
    match last {
        Some(l) if dts <= l => if l == i64::MAX {
            None
        } else {
            let nd = (l + 1) as i64;
            Some((if pts < nd { nd } else { pts }, nd))
        },
        _ => Some((pts, dts)),
    }
}

/// What writing a packet stamped `(pts, dts)` in time base `from` to an output
/// stream of time base `to`, whose last DTS is `last`, puts on the wire:
/// fill in missing timestamps, rescale both, then clamp the DTS.
pub open spec fn stamp_spec(
    last: Option<i64>,
    pts: Option<i64>,
    dts: Option<i64>,
    from: Rational,
    to: Rational,
) -> Option<(i64, i64)> {
    let (p, d) = normalize_spec(pts, dts);
    match (rescale_spec(p, from, to), rescale_spec(d, from, to)) {
        (Some(rp), Some(rd)) => clamp_spec(last, rp, rd),
        _ => None,
    }
}

/// Muxer bookkeeping. Output stream `k` carries input stream `stream_map[k]`;
/// `last_dts[k]` is the DTS last written on it.
pub struct MuxState {
    stream_map: Vec<usize>,
    last_dts: Vec<Option<i64>>,
    header_written: bool,
    trailer_written: bool,
}

impl MuxState {
    /// One DTS slot per output stream.
    pub open spec fn wf(&self) -> bool {
        self.streams().len() == self.dts_log().len()
    }

    /// Input stream index of each output stream, by output index.
    pub closed spec fn streams(&self) -> Seq<usize> {
        self.stream_map@
    }

    /// Last DTS written on each output stream, by output index.
    pub closed spec fn dts_log(&self) -> Seq<Option<i64>> {
        self.last_dts@
    }

    pub closed spec fn header_done(&self) -> bool {
        self.header_written
    }

    pub closed spec fn trailer_done(&self) -> bool {
        self.trailer_written
    }

    /// A muxer with no streams, no header and no trailer written.
    pub fn new() -> (r: MuxState)
        ensures
            r.wf(),
            r.streams() == Seq::<usize>::empty(),
            !r.header_done(),
            !r.trailer_done(),
    {
        MuxState {
            stream_map: Vec::new(),
            last_dts: Vec::new(),
            header_written: false,
            trailer_written: false,
        }
    }

    /// Records a new output stream carrying input stream `input_index`; returns
    /// its output index (streams are numbered in the order they are added).
    pub fn add_stream(&mut self, input_index: usize) -> (r: usize)
        requires
            old(self).wf(),
        ensures
            final(self).wf(),
            r == old(self).streams().len(),
            final(self).streams() == old(self).streams().push(input_index),
            final(self).dts_log() == old(self).dts_log().push(None),
            final(self).header_done() == old(self).header_done(),
            final(self).trailer_done() == old(self).trailer_done(),
    {
        let r = self.stream_map.len();
        self.stream_map.push(input_index);
        self.last_dts.push(None);
        r
    }

    /// The output stream that carries input stream `input_index` (the one
    /// added last, if it was added more than once).
    pub fn output_index(&self, input_index: usize) -> (r: Option<usize>)
        ensures
            match last_index_of(self.streams(), input_index) {
                Some(k) => r.is_some() && r.unwrap() as int == k,
                None => r.is_none(),
            },
    {
        let mut k: usize = self.stream_map.len();
        assert(self.stream_map@.subrange(0, k as int) == self.stream_map@);
        while k > 0
            invariant
                k <= self.stream_map@.len(),
                last_index_of(self.stream_map@, input_index) == last_index_of(
                    self.stream_map@.subrange(0, k as int),
                    input_index,
                ),
            decreases k,
        {
            let ghost pre = self.stream_map@.subrange(0, k as int);
            assert(pre.drop_last() == self.stream_map@.subrange(0, k - 1));
            if self.stream_map[k - 1] == input_index {
                return Some(k - 1);
            }
            k = k - 1;
        }
        None
    }

    /// Starts writing a packet of input stream `input_index`: finds its output
    /// stream and says whether the header must be written first (it is written
    /// lazily, before the first packet).
    pub fn begin_write(&mut self, input_index: usize) -> (r: Result<(usize, bool), MuxError>)
        requires
            old(self).wf(),
        ensures
            final(self).wf(),
            final(self).streams() == old(self).streams(),
            final(self).dts_log() == old(self).dts_log(),
            final(self).trailer_done() == old(self).trailer_done(),
            match last_index_of(old(self).streams(), input_index) {
                Some(k) => r.is_ok() && r.unwrap().0 as int == k && r.unwrap().1 == !old(
                    self,
                ).header_done() && final(self).header_done(),
                None => r == Err::<(usize, bool), MuxError>(MuxError::StreamNotFound(input_index))
                    && final(self).header_done() == old(self).header_done(),
            },
    {
        match self.output_index(input_index) {
            None => Err(MuxError::StreamNotFound(input_index)),
            Some(k) => {
                let first = !self.header_written;
                self.header_written = true;
                Ok((k, first))
            },
        }
    }

    /// Routes a packet of input stream `input_index` on a muxer that is fed
    /// the whole input (every stream's packets): packets of streams it does
    /// not carry are skipped, leaving it unchanged; a muxer with no stream yet
    /// refuses every packet.
    pub fn route_packet(&mut self, input_index: usize) -> (r: Result<Route, MuxError>)
        requires
            old(self).wf(),
        ensures
            final(self).wf(),
            final(self).streams() == old(self).streams(),
            final(self).dts_log() == old(self).dts_log(),
            final(self).trailer_done() == old(self).trailer_done(),
            old(self).streams().len() == 0 ==> r == Err::<Route, MuxError>(MuxError::NoStreamAdded)
                && *final(self) == *old(self),
            old(self).streams().len() > 0 ==> match last_index_of(old(self).streams(), input_index) {
                None => r == Ok::<Route, MuxError>(Route::Skip) && *final(self) == *old(self),
                Some(k) => r.is_ok() && (r.unwrap() matches Route::Write { out_index, write_header }
                    && out_index as int == k && write_header == !old(self).header_done())
                    && final(self).header_done(),
            },
    {
        if self.stream_map.len() == 0 {
            return Err(MuxError::NoStreamAdded);
        }
        match self.output_index(input_index) {
            None => Ok(Route::Skip),
            Some(k) => {
                let first = !self.header_written;
                self.header_written = true;
                Ok(Route::Write { out_index: k, write_header: first })
            },
        }
    }

    /// Stamps a packet for output stream `out_index`: fills in missing
    /// timestamps, rescales them from the packet's time base `from` into the
    /// stream's time base `to`, and clamps the DTS so that it rises strictly on
    /// the stream. Records the DTS written.
    pub fn stamp(
        &mut self,
        out_index: usize,
        pts: Option<i64>,
        dts: Option<i64>,
        from: Rational,
        to: Rational,
    ) -> (r: Result<StampedPacket, MuxError>)
        requires
            old(self).wf(),
            out_index < old(self).streams().len(),
        ensures
            final(self).wf(),
            final(self).streams() == old(self).streams(),
            final(self).header_done() == old(self).header_done(),
            final(self).trailer_done() == old(self).trailer_done(),
            match stamp_spec(old(self).dts_log()[out_index as int], pts, dts, from, to) {
                Some((p, d)) => r == Ok::<StampedPacket, MuxError>(
                    StampedPacket { out_index, pts: p, dts: d },
                ) && final(self).dts_log() == old(self).dts_log().update(out_index as int, Some(d)),
                None => r == Err::<StampedPacket, MuxError>(MuxError::TimestampOutOfRange)
                    && final(self).dts_log() == old(self).dts_log(),
            },
            r.is_ok() ==> match old(self).dts_log()[out_index as int] {
                Some(l) => l < r.unwrap().dts,
                None => true,
            },
            r.is_ok() && normalize_spec(pts, dts).1 <= normalize_spec(pts, dts).0 ==> r.unwrap().dts
                <= r.unwrap().pts,
    {
        let (p, d) = normalize_timestamps(pts, dts);
        let rp = rescale_ts(p, from, to);
        let rd = rescale_ts(d, from, to);
        let (p, d) = match (rp, rd) {
            (Some(p), Some(d)) => (p, d),
            _ => {
                return Err(MuxError::TimestampOutOfRange);
            },
        };
        proof {
            let (np, nd) = normalize_spec(pts, dts);
            if nd <= np {
                lemma_rescale_monotone(nd, np, from, to);
            }
        }
        let last = self.last_dts[out_index];
        let (p, d) = match last {
            Some(l) if d <= l => {
                if l == i64::MAX {
                    return Err(MuxError::TimestampOutOfRange);
                }
                let nd = l + 1;
                (if p < nd {
                    nd
                } else {
                    p
                }, nd)
            },
            _ => (p, d),
        };
        self.last_dts.set(out_index, Some(d));
        Ok(StampedPacket { out_index, pts: p, dts: d })
    }

    /// Finishes the output: returns whether the trailer must be written now.
    /// It is due once, and only after the header was written.
    pub fn finish(&mut self) -> (r: bool)
        requires
            old(self).wf(),
        ensures
            final(self).wf(),
            final(self).streams() == old(self).streams(),
            final(self).dts_log() == old(self).dts_log(),
            final(self).header_done() == old(self).header_done(),
            r == (old(self).header_done() && !old(self).trailer_done()),
            final(self).trailer_done() == (old(self).trailer_done() || r),
    {
        if self.header_written && !self.trailer_written {
            self.trailer_written = true;
            true
        } else {
            false
        }
    }
}

/// One call on a muxer: a packet written (`MuxState::begin_write` that found
/// its stream) or `MuxState::finish`.
#[derive(Clone, Copy, Debug, PartialEq, Eq, Structural)]
pub enum MuxEvent {
    Write,
    Finish,
}

/// How many times the trailer is written over `events`, from a muxer whose
/// header and trailer flags are `header` and `trailer`, following the flag
/// updates that `begin_write` and `finish` state.
pub open spec fn trailer_writes(header: bool, trailer: bool, events: Seq<MuxEvent>) -> nat
    decreases events.len(),
{
    if events.len() == 0 {
        0
    } else {
        let rest = events.drop_first();
        match events[0] {
            MuxEvent::Write => trailer_writes(true, trailer, rest),
            MuxEvent::Finish => if header && !trailer {
                1 + trailer_writes(header, true, rest)
            } else {
                trailer_writes(header, trailer, rest)
            },
        }
    }
}

proof fn lemma_trailer_writes_bound(header: bool, trailer: bool, events: Seq<MuxEvent>)
    ensures
        trailer_writes(header, trailer, events) <= 1,
        trailer ==> trailer_writes(header, trailer, events) == 0,
    decreases events.len(),
{
    if events.len() > 0 {
        let rest = events.drop_first();
        lemma_trailer_writes_bound(true, trailer, rest);
        lemma_trailer_writes_bound(header, true, rest);
        lemma_trailer_writes_bound(header, trailer, rest);
    }
}

proof fn lemma_trailer_after_header(events: Seq<MuxEvent>, j: int)
    requires
        0 <= j < events.len(),
        events[j] == MuxEvent::Finish,
    ensures
        trailer_writes(true, false, events) == 1,
    decreases events.len(),
{
    let rest = events.drop_first();
    if events[0] == MuxEvent::Finish {
        lemma_trailer_writes_bound(true, true, rest);
    } else {
        assert(rest[j - 1] == events[j]);
        lemma_trailer_after_header(rest, j - 1);
    }
}

/// The trailer is written exactly once on every output that received a packet
/// and was finished afterwards, however the writes and finishes interleave;
/// and never more than once on any output.
pub proof fn lemma_trailer_written_once(events: Seq<MuxEvent>, i: int, j: int)
    requires
        0 <= i < j < events.len(),
        events[i] == MuxEvent::Write,
        events[j] == MuxEvent::Finish,
    ensures
        trailer_writes(false, false, events) == 1,
    decreases i,
{
    let rest = events.drop_first();
    assert(rest[j - 1] == events[j]);
    if i == 0 {
        lemma_trailer_after_header(rest, j - 1);
    } else {
        assert(rest[i - 1] == events[i]);
        if events[0] == MuxEvent::Write {
            lemma_trailer_after_header(rest, j - 1);
        } else {
            lemma_trailer_written_once(rest, i - 1, j - 1);
        }
    }
}

/// Whatever the calls, a fresh muxer writes its trailer at most once.
pub proof fn lemma_trailer_at_most_once(events: Seq<MuxEvent>)
    ensures
        trailer_writes(false, false, events) <= 1,
{
    lemma_trailer_writes_bound(false, false, events);
}

/// Muxer IO buffer size for in-memory outputs of other formats.
pub const MUX_PACKET_SIZE: usize = 1024;

/// Muxer IO buffer size for raw H.264, large enough that a NAL unit is not
/// split across messages.
pub const MUX_PACKET_SIZE_H264: usize = 262144;

/// Capacity of the channel that carries in-memory mux messages.
pub const MUX_OUTPUT_CHAN_CAP: usize = 256;

/// The IO buffer size of an in-memory muxer for container `format`.
pub fn mux_buffer_size(format: &str) -> (r: usize)
    ensures
        r == if format@ == "h264"@ {
            MUX_PACKET_SIZE_H264
        } else {
            MUX_PACKET_SIZE
        },
{
    if same_text(format, "h264") {
        MUX_PACKET_SIZE_H264
    } else {
        MUX_PACKET_SIZE
    }
}

/// Whether an in-memory muxer for `format` needs fragmented-MP4 flags
/// (`movflags=frag_keyframe+empty_moov`) to write without seeking.
pub fn needs_fragmented_mp4(format: &str) -> (r: bool)
    ensures
        r == (format@ == "mp4"@),
{
    same_text(format, "mp4")
}

/// Whether a network output of `format` is allocated without opening its URL
/// (RTSP: the muxer opens it when the header is written).
pub fn is_rtsp_format(format: Option<&str>) -> (r: bool)
    ensures
        r == (format.is_some() && format.unwrap()@ == "rtsp"@),
{
    match format {
        Some(f) => same_text(f, "rtsp"),
        None => false,
    }
}

/// Muxer options of a network output of `format`: RTSP is sent over TCP;
/// other formats take none.
pub fn net_output_options(format: Option<&str>) -> (r: Option<Vec<(String, String)>>)
    ensures
        (format.is_some() && format.unwrap()@ == "rtsp"@) ==> r.is_some() && option_texts(
            r.unwrap()@,
        ) == seq![("rtsp_transport"@, "tcp"@)],
        !(format.is_some() && format.unwrap()@ == "rtsp"@) ==> r.is_none(),
{
    if is_rtsp_format(format) {
        let mut v: Vec<(String, String)> = Vec::new();
        v.push(("rtsp_transport".to_owned(), "tcp".to_owned()));
        assert(option_texts(v@) =~= seq![("rtsp_transport"@, "tcp"@)]);
        Some(v)
    } else {
        None
    }
}

/// The codec that encoder packets muxed as `format` carry: H.264 for "h264",
/// HEVC for "hevc" and "h265"; other formats cannot carry them.
pub fn encoder_mux_codec(format: &str) -> (r: Option<CodecKind>)
    ensures
        format@ == "h264"@ ==> r == Some(CodecKind::H264),
        format@ != "h264"@ && (format@ == "hevc"@ || format@ == "h265"@) ==> r == Some(
            CodecKind::Hevc,
        ),
        !(format@ == "h264"@ || format@ == "hevc"@ || format@ == "h265"@) ==> r.is_none(),
{
    if same_text(format, "h264") {
        Some(CodecKind::H264)
    } else if same_text(format, "hevc") || same_text(format, "h265") {
        Some(CodecKind::Hevc)
    } else {
        None
    }
}

} // verus!
