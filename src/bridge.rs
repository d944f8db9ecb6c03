//! The bridge from encoded video frames to an embedded streaming server:
//! one-time track setup, one-time framing detection, Annex-B payloads and
//! millisecond timestamps.

use vstd::prelude::*;
use crate::bsf::{
    annexb_join, avcc_nalus, convert_avcc_to_annexb, is_annexb_packet, is_annexb_spec,
};
use crate::timestamp::Rational;

verus! {

/// A timestamp in ticks of `tb`, in whole milliseconds (rounded down;
/// negative timestamps count as zero; a zero numerator gives zero); `None`
/// for an unusable time base (a negative numerator, or a denominator that is
/// not positive) or a value beyond `u64`.
pub open spec fn to_millis_spec(ts: i64, tb: Rational) -> Option<u64> {
    if tb.num < 0 || tb.den <= 0 {
        None
    } else {
        let t = if ts < 0 { 0 } else { ts as int };
        let ms = t * tb.num * 1000 / tb.den as int;
        if ms <= u64::MAX {
            Some(ms as u64)
        } else {
            None
        }
    }
}

/// Converts timestamp `ts` in time base `tb` to milliseconds.
pub fn to_millis(ts: i64, tb: Rational) -> (r: Option<u64>)
    ensures
        r == to_millis_spec(ts, tb),
{
    if tb.num < 0 || tb.den <= 0 {
        return None;
    }
    let t: u128 = if ts < 0 {
        0
    } else {
        ts as u128
    };
    let num: u128 = tb.num as u128;
    assert(t * num <= 0x8000_0000_0000_0000_0000_0000u128) by (nonlinear_arith)
        requires
            t <= 0x8000_0000_0000_0000u128,
            num <= 0x8000_0000u128,
    ;
    let ms: u128 = t * num * 1000 / (tb.den as u128);
    if ms > 0xffff_ffff_ffff_ffffu128 {
        None
    } else {
        Some(ms as u64)
    }
}

/// Track parameters announced to the server before the first frame.
#[derive(Clone, Copy, Debug, PartialEq, Eq, Structural)]
pub struct TrackInit {
    pub width: u32,
    pub height: u32,
    /// Frames per second, as `num / den`.
    pub fps: Rational,
}

/// A frame ready for the server: Annex-B payload, millisecond timestamps.
#[derive(Clone, Debug)]
pub struct ServerFrame {
    pub data: Vec<u8>,
    pub pts_ms: u64,
    pub dts_ms: u64,
    pub is_key: bool,
}

/// Bridge state for one output stream.
pub struct ServerBridge {
    default_width: u32,
    default_height: u32,
    fps: Rational,
    time_base: Rational,
    track_initialized: bool,
    needs_conversion: bool,
}

impl ServerBridge {
    pub closed spec fn initialized(&self) -> bool {
        self.track_initialized
    }

    /// Whether payloads are converted from AVCC (decided on the first frame).
    pub closed spec fn converting(&self) -> bool {
        self.needs_conversion
    }

    pub closed spec fn defaults(&self) -> (u32, u32, Rational, Rational) {
        (self.default_width, self.default_height, self.fps, self.time_base)
    }

    /// A bridge for a stream of the given declared size, frame rate and time
    /// base.
    pub fn new(width: u32, height: u32, fps: Rational, time_base: Rational) -> (r: ServerBridge)
        ensures
            !r.initialized(),
            r.defaults() == (width, height, fps, time_base),
    {
        ServerBridge {
            default_width: width,
            default_height: height,
            fps,
            time_base,
            track_initialized: false,
            needs_conversion: false,
        }
    }

    /// Handles one frame. On the first frame it returns the track to announce
    /// (the frame's size where known, else the stream's) and decides once
    /// whether the stream is AVCC, by whether that frame is Annex-B. The
    /// payload is converted to Annex-B when the stream is AVCC and passed on
    /// untouched otherwise. `None` for the frame when a timestamp cannot be
    /// expressed in milliseconds (see [`to_millis_spec`]: a negative
    /// numerator, a denominator that is not positive, or a value beyond
    /// `u64`); such a frame is dropped, though it still counts as the first
    /// frame for the track and framing decisions.
    pub fn on_frame(
        &mut self,
        data: &[u8],
        width: u32,
        height: u32,
        pts: i64,
        dts: i64,
        is_key: bool,
    ) -> (r: (Option<TrackInit>, Option<ServerFrame>))
        ensures
            final(self).initialized(),
            final(self).defaults() == old(self).defaults(),
            old(self).initialized() ==> r.0.is_none() && final(self).converting() == old(
                self,
            ).converting(),
            !old(self).initialized() ==> r.0 == Some(
                TrackInit {
                    width: if width > 0 { width } else { old(self).defaults().0 },
                    height: if height > 0 { height } else { old(self).defaults().1 },
                    fps: old(self).defaults().2,
                },
            ) && final(self).converting() == !is_annexb_spec(data@),
            match (
                to_millis_spec(pts, old(self).defaults().3),
                to_millis_spec(dts, old(self).defaults().3),
            ) {
                (Some(p), Some(d)) => r.1.is_some() && r.1.unwrap().pts_ms == p
                    && r.1.unwrap().dts_ms == d && r.1.unwrap().is_key == is_key && r.1.unwrap().data@
                    == if final(self).converting() {
                    annexb_join(avcc_nalus(data@))
                } else {
                    data@
                },
                _ => r.1.is_none(),
            },
    {
        let mut init: Option<TrackInit> = None;
        if !self.track_initialized {
            init = Some(
                TrackInit {
                    width: if width > 0 { width } else { self.default_width },
                    height: if height > 0 { height } else { self.default_height },
                    fps: self.fps,
                },
            );
            self.track_initialized = true;
            self.needs_conversion = !is_annexb_packet(data);
        }
        let pts_ms = to_millis(pts, self.time_base);
        let dts_ms = to_millis(dts, self.time_base);
        let frame = match (pts_ms, dts_ms) {
            (Some(p), Some(d)) => {
                let payload = if self.needs_conversion {
                    convert_avcc_to_annexb(data)
                } else {
                    vstd::slice::slice_to_vec(data)
                };
                Some(ServerFrame { data: payload, pts_ms: p, dts_ms: d, is_key })
            },
            _ => None,
        };
        (init, frame)
    }
}

} // verus!
