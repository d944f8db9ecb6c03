//! Plain media records handed across the library's boundary.

use vstd::prelude::*;
use crate::text::decimal_spec;
use crate::text::u64_to_decimal;
use crate::timestamp::Rational;

verus! {

/// A decoded video frame.
#[derive(Clone, Debug)]
pub struct DecodedFrame {
    pub width: u32,
    pub height: u32,
    /// Pixel format number of the codec library.
    pub format: i32,
    pub data: Vec<u8>,
    pub linesize: [i32; 4],
    pub pts: i64,
}

/// An encoded packet.
#[derive(Clone, Debug)]
pub struct EncodedPacket {
    pub data: Vec<u8>,
    pub pts: i64,
    pub dts: i64,
    pub is_key: bool,
}

/// One message of a muxer writing into memory: the bytes of one write and
/// what is known of the packet being written.
#[derive(Clone, Debug)]
pub struct MuxMessage {
    pub data: Vec<u8>,
    pub pts: Option<i64>,
    pub dts: Option<i64>,
    pub is_key: bool,
    pub codec_id: i32,
    pub width: u32,
    pub height: u32,
}

/// The input of a pipe.
#[derive(Clone, Debug)]
pub enum PipeInput {
    Network(String),
}

/// Per-stream information, as a prober reports it.
#[derive(Clone, Debug)]
pub struct StreamInfo {
    pub index: usize,
    /// "video", "audio", "subtitle", ...
    pub codec_type: String,
    /// "h264", "aac", ...
    pub codec_name: String,
    /// Time base as "num/den".
    pub time_base: String,
    /// Duration in time-base units, when known.
    pub duration_ts: Option<i64>,
    /// Frame or sample rate as "num/den".
    pub rate: String,
    pub width: Option<u32>,
    pub height: Option<u32>,
    pub sample_rate: Option<u32>,
    pub channels: Option<u32>,
}

/// The decimal form of an integer, with a leading '-' when negative.
pub open spec fn signed_decimal_spec(n: int) -> Seq<char> {
    if n < 0 {
        seq!['-'] + decimal_spec((-n) as nat)
    } else {
        decimal_spec(n as nat)
    }
}

fn i32_to_decimal(n: i32) -> (r: String)
    ensures
        r@ == signed_decimal_spec(n as int),
{
    if n < 0 {
        let m: u64 = (-(n as i64)) as u64;
        let mut s = "-".to_owned();
        let digits = u64_to_decimal(m);
        s.append(digits.as_str());
        proof {
            reveal_strlit("-");
        }
        assert(s@ =~= seq!['-'] + decimal_spec((-n) as nat));
        s
    } else {
        u64_to_decimal(n as u64)
    }
}

/// A rational as text, "num/den".
pub fn rational_text(r: Rational) -> (t: String)
    ensures
        t@ == signed_decimal_spec(r.num as int) + "/"@ + signed_decimal_spec(r.den as int),
{
    let mut t = i32_to_decimal(r.num);
    t.append("/");
    let d = i32_to_decimal(r.den);
    t.append(d.as_str());
    t
}

/// An error reported by the control surface, with its message.
#[derive(Clone, Debug)]
pub struct ApiError {
    pub message: String,
}

impl ApiError {
    pub fn new(message: &str) -> (r: ApiError)
        ensures
            r.message@ == message@,
    {
        ApiError { message: message.to_owned() }
    }
}

} // verus!
