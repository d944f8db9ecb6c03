//! The bus controller: pipeline state, the decisions of the command loop, and
//! the per-output plan that carries the two-phase start.
//!
//! Each command is handled by methods that decide from the state and return
//! what to do; the caller performs the work (opening the input, starting
//! workers, building outputs) in the order a plan lists and reports back.

use vstd::prelude::*;
use crate::encoder::{
    Settings, encoder_pixel_format_spec, ensure_video_dimensions, pixel_format_for_libx264,
    video_dimensions_spec,
};
use crate::stream::{
    CodecKind, Medium, PixelFormat, StreamDescriptor, find_by_medium, first_index_where,
    has_medium,
};
use crate::text::{same_text, u64_to_decimal, decimal_spec};

verus! {

/// Where the input comes from.
#[derive(Clone, Debug)]
pub enum InputConfig {
    Net { url: String },
    File { path: String },
    /// A capture device: `display` is the device-specific input (a device
    /// path, a filter graph), `format` its input format ("v4l2", "lavfi", ...).
    Device { display: String, format: String },
}

/// Which medium of the input an output takes.
#[derive(Clone, Copy, Debug, PartialEq, Eq, Structural)]
pub enum OutputAvType {
    Video,
    Audio,
}

/// Where an output goes.
#[derive(Clone, Debug)]
pub enum OutputDest {
    /// A live network stream; `format` is the container ("rtsp", "flv"), or
    /// `None` to infer it from the URL.
    Net { url: String, format: Option<String> },
    /// A seekable file.
    File { path: String },
    /// Decoded frames.
    Raw,
    /// Container bytes in packetised messages.
    Mux { format: String },
    /// Encoded packets.
    Encoded,
}

/// Encoding parameters of an output.
#[derive(Clone, Debug, Hash)]
pub struct EncodeConfig {
    /// "h264", "hevc", "rawvideo".
    pub codec: String,
    /// `None` keeps the source width.
    pub width: Option<u32>,
    /// `None` keeps the source height.
    pub height: Option<u32>,
    /// Bits per second.
    pub bitrate: Option<u64>,
    /// "ultrafast", "medium", ...
    pub preset: Option<String>,
    /// "yuv420p", "rgb24", ...
    pub pixel_format: Option<String>,
}

/// Whether two optional strings are equal.
pub open spec fn opt_text_eq_spec(a: Option<String>, b: Option<String>) -> bool {
    match (a, b) {
        (Some(x), Some(y)) => x@ == y@,
        (None, None) => true,
        _ => false,
    }
}

fn opt_text_eq(a: &Option<String>, b: &Option<String>) -> (r: bool)
    ensures
        r == opt_text_eq_spec(*a, *b),
{
    match (a, b) {
        (Some(x), Some(y)) => same_text(x.as_str(), y.as_str()),
        (None, None) => true,
        _ => false,
    }
}

impl EncodeConfig {
    /// Field-by-field equality.
    pub open spec fn same_as(&self, o: &EncodeConfig) -> bool {
        &&& self.codec@ == o.codec@
        &&& self.width == o.width
        &&& self.height == o.height
        &&& self.bitrate == o.bitrate
        &&& opt_text_eq_spec(self.preset, o.preset)
        &&& opt_text_eq_spec(self.pixel_format, o.pixel_format)
    }
}

impl PartialEq for EncodeConfig {
    fn eq(&self, o: &EncodeConfig) -> (r: bool)
        ensures
            r == self.same_as(o),
    {
        let w = match (self.width, o.width) {
            (Some(a), Some(b)) => a == b,
            (None, None) => true,
            _ => false,
        };
        let h = match (self.height, o.height) {
            (Some(a), Some(b)) => a == b,
            (None, None) => true,
            _ => false,
        };
        let b = match (self.bitrate, o.bitrate) {
            (Some(a), Some(b)) => a == b,
            (None, None) => true,
            _ => false,
        };
        same_text(self.codec.as_str(), o.codec.as_str()) && w && h && b && opt_text_eq(
            &self.preset,
            &o.preset,
        ) && opt_text_eq(&self.pixel_format, &o.pixel_format)
    }
}

impl vstd::std_specs::cmp::PartialEqSpecImpl for EncodeConfig {
    open spec fn obeys_eq_spec() -> bool {
        true
    }

    open spec fn eq_spec(&self, o: &EncodeConfig) -> bool {
        self.same_as(o)
    }
}

impl Eq for EncodeConfig {

}

impl Default for EncodeConfig {
    /// H.264 with every other parameter left to the source.
    fn default() -> (r: EncodeConfig)
        ensures
            r.codec@ == "h264"@,
            r.width.is_none(),
            r.height.is_none(),
            r.bitrate.is_none(),
            r.preset.is_none(),
            r.pixel_format.is_none(),
    {
        EncodeConfig {
            codec: "h264".to_owned(),
            width: None,
            height: None,
            bitrate: None,
            preset: None,
            pixel_format: None,
        }
    }
}

/// Codec options for an encoder serving an output with encode configuration
/// `encode`: the preset ("ultrafast" when none is given), zero-latency tuning,
/// and the bit rate when one is given.
pub open spec fn encoder_options_spec(encode: EncodeConfig) -> Seq<(Seq<char>, Seq<char>)> {
    let preset = match encode.preset {
        Some(p) => p@,
        None => "ultrafast"@,
    };
    let base = seq![("preset"@, preset), ("tune"@, "zerolatency"@)];
    match encode.bitrate {
        Some(b) => base.push(("b"@, decimal_spec(b as nat))),
        None => base,
    }
}

/// The views of a list of key/value options.
pub open spec fn option_texts(v: Seq<(String, String)>) -> Seq<(Seq<char>, Seq<char>)> {
    v.map_values(|kv: (String, String)| (kv.0@, kv.1@))
}

/// Builds encoder codec options from an output's encode configuration;
/// `None` when the output has none.
pub fn encoder_options_from_config(encode: Option<&EncodeConfig>) -> (r: Option<
    Vec<(String, String)>,
>)
    ensures
        match encode {
            Some(e) => r.is_some() && option_texts(r.unwrap()@) == encoder_options_spec(*e),
            None => r.is_none(),
        },
{
    let e = match encode {
        Some(e) => e,
        None => {
            return None;
        },
    };
    let preset = match &e.preset {
        Some(p) => p.clone(),
        None => "ultrafast".to_owned(),
    };
    let mut opts: Vec<(String, String)> = Vec::new();
    opts.push(("preset".to_owned(), preset));
    opts.push(("tune".to_owned(), "zerolatency".to_owned()));
    if let Some(b) = e.bitrate {
        opts.push(("b".to_owned(), u64_to_decimal(b)));
    }
    assert(option_texts(opts@) =~= encoder_options_spec(*e));
    Some(opts)
}

/// One output of the bus.
#[derive(Clone, Debug)]
pub struct OutputConfig {
    pub id: String,
    pub dest: OutputDest,
    pub av_type: OutputAvType,
    pub encode: Option<EncodeConfig>,
}

impl OutputConfig {
    /// An output without encode configuration.
    pub fn new(id: String, av_type: OutputAvType, dest: OutputDest) -> (r: OutputConfig)
        ensures
            r.id == id,
            r.av_type == av_type,
            r.dest == dest,
            r.encode.is_none(),
    {
        OutputConfig { id, dest, av_type, encode: None }
    }

    /// The same output with encode configuration `encode`.
    pub fn with_encode(self, encode: EncodeConfig) -> (r: OutputConfig)
        ensures
            r.id == self.id,
            r.av_type == self.av_type,
            r.dest == self.dest,
            r.encode == Some(encode),
    {
        OutputConfig { encode: Some(encode), ..self }
    }
}

/// Whether an output of destination `dest`, with encode configuration present
/// or not, needs an encoder on an input stream of codec `codec`.
pub open spec fn need_encoder_spec(codec: CodecKind, dest: OutputDest, has_encode: bool) -> bool {
    match dest {
        OutputDest::Raw => false,
        _ => {
            if codec == CodecKind::RawVideo || codec == CodecKind::WrappedFrame {
                true
            } else {
                match dest {
                    OutputDest::Encoded => true,
                    OutputDest::Mux { format } => if format@ == "h264"@ {
                        codec != CodecKind::H264 || has_encode
                    } else if format@ == "hevc"@ || format@ == "h265"@ {
                        codec != CodecKind::Hevc || has_encode
                    } else {
                        has_encode
                    },
                    _ => has_encode,
                }
            }
        },
    }
}

/// Whether an output needs a decoder on an input stream of codec `codec`.
/// Raw pixels never go through a decoder; a file output remuxes; a muxed
/// output decodes only wrapped frames or what it re-encodes.
pub open spec fn need_decoder_spec(codec: CodecKind, dest: OutputDest, has_encode: bool) -> bool {
    if codec == CodecKind::RawVideo {
        false
    } else {
        match dest {
            OutputDest::Raw => true,
            OutputDest::File { .. } => false,
            OutputDest::Mux { .. } => codec == CodecKind::WrappedFrame || need_encoder_spec(
                codec,
                dest,
                has_encode,
            ),
            OutputDest::Net { .. } => true,
            OutputDest::Encoded => true,
        }
    }
}

/// Decides whether `output` needs an encoder on a stream of codec `codec`.
pub fn try_encoder(codec: CodecKind, output: &OutputConfig) -> (r: bool)
    ensures
        r == need_encoder_spec(codec, output.dest, output.encode.is_some()),
{
    if let OutputDest::Raw = output.dest {
        return false;
    }
    if codec == CodecKind::RawVideo || codec == CodecKind::WrappedFrame {
        return true;
    }
    if let OutputDest::Encoded = output.dest {
        return true;
    }
    if let OutputDest::Mux { format } = &output.dest {
        let need = if same_text(format.as_str(), "h264") {
            codec != CodecKind::H264
        } else if same_text(format.as_str(), "hevc") || same_text(format.as_str(), "h265") {
            codec != CodecKind::Hevc
        } else {
            false
        };
        if need {
            return true;
        }
    }
    output.encode.is_some()
}

/// Decides whether `output` needs a decoder on a stream of codec `codec`.
pub fn try_decoder(codec: CodecKind, output: &OutputConfig) -> (r: bool)
    ensures
        r == need_decoder_spec(codec, output.dest, output.encode.is_some()),
{
    if codec == CodecKind::RawVideo {
        return false;
    }
    match &output.dest {
        OutputDest::Raw => true,
        OutputDest::File { .. } => false,
        OutputDest::Mux { .. } => codec == CodecKind::WrappedFrame || try_encoder(codec, output),
        OutputDest::Net { .. } => true,
        OutputDest::Encoded => true,
    }
}

/// The input reader task: not created, created with its channel ready but not
/// reading (two-phase start), or reading.
#[derive(Clone, Copy, Debug, PartialEq, Eq, Structural)]
pub enum InputTask {
    Absent,
    Prepared,
    Running,
}

/// Why a command fails. Each is answered on the command's reply and leaves
/// the state unchanged.
#[derive(Clone, Copy, Debug, PartialEq, Eq, Structural)]
pub enum BusError {
    InputAlreadyExists,
    OutputAlreadyExists,
    /// The input has no stream of the medium the output asks for.
    StreamNotFound,
    /// The output needs decoded frames from a stream that is not decoded.
    DecoderNotFound,
    /// Encoded packets can be muxed only as "h264", "hevc" or "h265".
    UnsupportedMuxFormat,
}

impl BusError {
    /// A short description of the error.
    pub fn message(&self) -> (r: &'static str)
        ensures
            r@ == match self {
                BusError::InputAlreadyExists => "input already exists"@,
                BusError::OutputAlreadyExists => "output already exists"@,
                BusError::StreamNotFound => "stream not found"@,
                BusError::DecoderNotFound => "decoder task not found"@,
                BusError::UnsupportedMuxFormat => "unsupported mux format for encoder output"@,
            },
    {
        match self {
            BusError::InputAlreadyExists => "input already exists",
            BusError::OutputAlreadyExists => "output already exists",
            BusError::StreamNotFound => "stream not found",
            BusError::DecoderNotFound => "decoder task not found",
            BusError::UnsupportedMuxFormat => "unsupported mux format for encoder output",
        }
    }
}

/// How an output's stream is produced.
#[derive(Clone, Copy, Debug, PartialEq, Eq, Structural)]
pub enum Builder {
    /// Decoded frames from the stream's decoder.
    DecodedFrames,
    /// Frames made from raw-pixel input packets (no decoder involved).
    FramesFromPackets,
    /// Input packets remuxed into a file.
    FileMux,
    /// Input packets remuxed to a network URL.
    NetMux,
    /// Encoder packets muxed into container bytes.
    MuxFromEncoder,
    /// Input packets muxed into container bytes.
    MuxOfInput,
    /// Encoder packets as they are.
    EncodedPackets,
}

/// The builder for destination `dest`, given whether an encoder is needed
/// and the input codec (raw-pixel input reaches a frame output through the
/// packet-to-frame converter, not a decoder).
pub open spec fn builder_spec(dest: OutputDest, need_encoder: bool, codec: CodecKind) -> Builder {
    match dest {
        OutputDest::Raw => if codec == CodecKind::RawVideo {
            Builder::FramesFromPackets
        } else {
            Builder::DecodedFrames
        },
        OutputDest::File { .. } => Builder::FileMux,
        OutputDest::Net { .. } => Builder::NetMux,
        OutputDest::Mux { .. } => if need_encoder {
            Builder::MuxFromEncoder
        } else {
            Builder::MuxOfInput
        },
        OutputDest::Encoded => Builder::EncodedPackets,
    }
}

/// Whether encoder packets can be muxed in format `format`.
pub open spec fn encoder_mux_format_ok(dest: OutputDest) -> bool {
    match dest {
        OutputDest::Mux { format } => format@ == "h264"@ || format@ == "hevc"@ || format@
            == "h265"@,
        _ => true,
    }
}

/// The medium an output type selects.
pub open spec fn medium_of(t: OutputAvType) -> Medium {
    match t {
        OutputAvType::Video => Medium::Video,
        OutputAvType::Audio => Medium::Audio,
    }
}

/// How to start an encoder for an output.
#[derive(Clone, Debug)]
pub struct EncoderPlan {
    pub settings: Settings,
    pub options: Option<Vec<(String, String)>>,
    /// Feed it frames made from raw-pixel input packets rather than from the
    /// stream's decoder.
    pub from_packets: bool,
}

/// Encoder settings for stream `s`: raw-pixel and wrapped-frame streams are
/// encoded at their declared size (with the fallback for zero) in a pixel
/// format libx264 takes; other streams take the default settings.
pub open spec fn encoder_settings_ok(s: StreamDescriptor, st: Settings) -> bool {
    &&& st.codec.is_some() && st.codec.unwrap()@ == "libx264"@
    &&& st.keyframe_interval == 25
    &&& st.key_hint_interval == crate::encoder::DEFAULT_KEYFRAME_HINT_INTERVAL
    &&& if s.codec == CodecKind::RawVideo || s.codec == CodecKind::WrappedFrame {
        (st.width, st.height) == video_dimensions_spec(s.width, s.height) && st.pixel_format
            == encoder_pixel_format_spec(s.pixel_format, false)
    } else {
        st.width == 1920 && st.height == 1080 && st.pixel_format == PixelFormat::Yuv420p
    }
}

/// What to do, in this order, to add an output: start a decoder on the
/// stream, start an encoder on it, build the output (which subscribes it),
/// and only then begin reading a prepared input, so that no packet is
/// published before the output listens.
#[derive(Clone, Debug)]
pub struct OutputPlan {
    pub stream: StreamDescriptor,
    pub start_decoder: bool,
    pub encoder: Option<EncoderPlan>,
    pub builder: Builder,
    pub begin_reading: bool,
}

/// The pipeline state owned by the command loop.
pub struct BusState {
    input_config: Option<InputConfig>,
    input_options: Option<Vec<(String, String)>>,
    outputs: Vec<OutputConfig>,
    input_task: InputTask,
    input_streams: Vec<StreamDescriptor>,
    decoders: Vec<usize>,
    encoders: Vec<usize>,
}

/// Whether no value occurs twice in `s`.
pub open spec fn distinct<T>(s: Seq<T>) -> bool {
    forall|i: int, j: int| 0 <= i < j < s.len() ==> s[i] != s[j]
}

impl BusState {
    pub closed spec fn input(&self) -> Option<InputConfig> {
        self.input_config
    }

    pub closed spec fn input_opts(&self) -> Option<Vec<(String, String)>> {
        self.input_options
    }

    /// The outputs added, in order.
    pub closed spec fn outputs(&self) -> Seq<OutputConfig> {
        self.outputs@
    }

    /// The ids of the outputs added, in order.
    pub open spec fn output_ids(&self) -> Seq<Seq<char>> {
        self.outputs().map_values(|o: OutputConfig| o.id@)
    }

    pub closed spec fn task(&self) -> InputTask {
        self.input_task
    }

    /// The streams of the open input, in input order.
    pub closed spec fn streams(&self) -> Seq<StreamDescriptor> {
        self.input_streams@
    }

    /// Stream indices with a running decoder.
    pub closed spec fn decoders(&self) -> Seq<usize> {
        self.decoders@
    }

    /// Stream indices with a running encoder.
    pub closed spec fn encoders(&self) -> Seq<usize> {
        self.encoders@
    }

    /// Output ids are unique; at most one decoder and one encoder per stream;
    /// streams are known only while a reader exists.
    pub open spec fn wf(&self) -> bool {
        &&& distinct(self.output_ids())
        &&& (self.streams().len() > 0 ==> self.task() != InputTask::Absent)
        &&& distinct(self.decoders())
        &&& distinct(self.encoders())
    }

    /// An empty pipeline.
    pub fn new() -> (r: BusState)
        ensures
            r.wf(),
            r.input().is_none(),
            r.input_opts().is_none(),
            r.outputs().len() == 0,
            r.task() == InputTask::Absent,
            r.streams().len() == 0,
            r.decoders().len() == 0,
            r.encoders().len() == 0,
    {
        let r = BusState {
            input_config: None,
            input_options: None,
            outputs: Vec::new(),
            input_task: InputTask::Absent,
            input_streams: Vec::new(),
            decoders: Vec::new(),
            encoders: Vec::new(),
        };
        assert(r.output_ids() =~= Seq::<Seq<char>>::empty());
        r
    }
}

/// The outcome of `AddInput` on state `s0`: it fails, changing nothing, when
/// an input is already configured; otherwise it records the input, and asks
/// for the input to be opened and started at once when outputs wait for it
/// and no reader exists.
pub open spec fn add_input_post(
    s0: BusState,
    input: InputConfig,
    options: Option<Vec<(String, String)>>,
    s1: BusState,
    r: Result<bool, BusError>,
) -> bool {
    if s0.input().is_some() {
        r == Err::<bool, BusError>(BusError::InputAlreadyExists) && s1 == s0
    } else {
        &&& r == Ok::<bool, BusError>(s0.outputs().len() > 0 && s0.task() == InputTask::Absent)
        &&& s1.input() == Some(input)
        &&& s1.input_opts() == options
        &&& s1.outputs() == s0.outputs()
        &&& s1.task() == s0.task()
        &&& s1.streams() == s0.streams()
        &&& s1.decoders() == s0.decoders()
        &&& s1.encoders() == s0.encoders()
    }
}

/// Adding an input twice in a row succeeds the first time and fails with
/// "input already exists" the second time, leaving the state as the first
/// call left it.
pub proof fn lemma_add_input_twice(
    s0: BusState,
    s1: BusState,
    s2: BusState,
    a: InputConfig,
    a_opts: Option<Vec<(String, String)>>,
    b: InputConfig,
    b_opts: Option<Vec<(String, String)>>,
    r1: Result<bool, BusError>,
    r2: Result<bool, BusError>,
)
    requires
        s0.input().is_none(),
        add_input_post(s0, a, a_opts, s1, r1),
        add_input_post(s1, b, b_opts, s2, r2),
    ensures
        r1.is_ok(),
        r2 == Err::<bool, BusError>(BusError::InputAlreadyExists),
        s2 == s1,
{
}

fn contains_index(v: &Vec<usize>, x: usize) -> (r: bool)
    ensures
        r == v@.contains(x),
{
    let mut i: usize = 0;
    while i < v.len()
        invariant
            i <= v@.len(),
            forall|j: int| 0 <= j < i ==> v@[j] != x,
        decreases v.len() - i,
    {
        if v[i] == x {
            assert(v@[i as int] == x);
            return true;
        }
        i = i + 1;
    }
    false
}

fn contains_id(outputs: &Vec<OutputConfig>, id: &str) -> (r: bool)
    ensures
        r == outputs@.map_values(|o: OutputConfig| o.id@).contains(id@),
{
    let ghost ids = outputs@.map_values(|o: OutputConfig| o.id@);
    let mut i: usize = 0;
    while i < outputs.len()
        invariant
            i <= outputs@.len(),
            ids == outputs@.map_values(|o: OutputConfig| o.id@),
            forall|j: int| 0 <= j < i ==> ids[j] != id@,
        decreases outputs.len() - i,
    {
        if same_text(outputs[i].id.as_str(), id) {
            assert(ids[i as int] == id@);
            return true;
        }
        i = i + 1;
    }
    false
}

impl BusState {
    /// The input configuration, if one is recorded.
    pub fn input_config(&self) -> (r: Option<&InputConfig>)
        ensures
            match self.input() {
                Some(c) => r == Some(&c),
                None => r.is_none(),
            },
    {
        self.input_config.as_ref()
    }

    /// The input options, if any were given.
    pub fn input_options(&self) -> (r: Option<&Vec<(String, String)>>)
        ensures
            match self.input_opts() {
                Some(o) => r == Some(&o),
                None => r.is_none(),
            },
    {
        self.input_options.as_ref()
    }

    /// `AddInput`: records the input configuration. `Ok(true)` asks the caller
    /// to open the input (then [`BusState::input_opened`]) and start reading
    /// at once (then [`BusState::input_started`]).
    pub fn add_input(&mut self, input: InputConfig, options: Option<Vec<(String, String)>>) -> (r:
        Result<bool, BusError>)
        requires
            old(self).wf(),
        ensures
            final(self).wf(),
            add_input_post(*old(self), input, options, *final(self), r),
    {
        if self.input_config.is_some() {
            return Err(BusError::InputAlreadyExists);
        }
        self.input_config = Some(input);
        self.input_options = options;
        Ok(self.outputs.len() > 0 && self.input_task == InputTask::Absent)
    }

    /// `RemoveInput`: forgets the input and its streams; returns whether a
    /// reader task exists and must be stopped. Decoders, encoders and outputs
    /// stay; they see their upstream close.
    pub fn remove_input(&mut self) -> (r: bool)
        requires
            old(self).wf(),
        ensures
            final(self).wf(),
            r == (old(self).task() != InputTask::Absent),
            final(self).input().is_none(),
            final(self).input_opts().is_none(),
            final(self).task() == InputTask::Absent,
            final(self).streams().len() == 0,
            final(self).outputs() == old(self).outputs(),
            final(self).decoders() == old(self).decoders(),
            final(self).encoders() == old(self).encoders(),
    {
        let r = self.input_task != InputTask::Absent;
        self.input_task = InputTask::Absent;
        self.input_config = None;
        self.input_options = None;
        self.input_streams = Vec::new();
        r
    }

    /// First step of `AddOutput`: fails if the id is taken; otherwise says
    /// whether the input must be opened first (prepared, not yet reading).
    pub fn begin_add_output(&self, id: &str) -> (r: Result<bool, BusError>)
        ensures
            self.output_ids().contains(id@) ==> r == Err::<bool, BusError>(
                BusError::OutputAlreadyExists,
            ),
            !self.output_ids().contains(id@) ==> r == Ok::<bool, BusError>(
                self.task() == InputTask::Absent && self.input().is_some(),
            ),
    {
        if contains_id(&self.outputs, id) {
            return Err(BusError::OutputAlreadyExists);
        }
        Ok(self.input_task == InputTask::Absent && self.input_config.is_some())
    }

    /// The input was opened with these streams: its reader is prepared and
    /// does not read yet.
    pub fn input_opened(&mut self, streams: Vec<StreamDescriptor>)
        requires
            old(self).wf(),
        ensures
            final(self).wf(),
            final(self).task() == InputTask::Prepared,
            final(self).streams() == streams@,
            final(self).input() == old(self).input(),
            final(self).input_opts() == old(self).input_opts(),
            final(self).outputs() == old(self).outputs(),
            final(self).decoders() == old(self).decoders(),
            final(self).encoders() == old(self).encoders(),
    {
        self.input_streams = streams;
        self.input_task = InputTask::Prepared;
    }

    /// A prepared reader began reading.
    pub fn input_started(&mut self)
        requires
            old(self).wf(),
        ensures
            final(self).wf(),
            final(self).task() == (if old(self).task() == InputTask::Prepared {
                InputTask::Running
            } else {
                old(self).task()
            }),
            final(self).streams() == old(self).streams(),
            final(self).input() == old(self).input(),
            final(self).input_opts() == old(self).input_opts(),
            final(self).outputs() == old(self).outputs(),
            final(self).decoders() == old(self).decoders(),
            final(self).encoders() == old(self).encoders(),
    {
        if self.input_task == InputTask::Prepared {
            self.input_task = InputTask::Running;
        }
    }

    /// Releases a prepared reader that will not start (the output it was
    /// opened for failed).
    pub fn abort_prepared_input(&mut self)
        requires
            old(self).wf(),
        ensures
            final(self).wf(),
            old(self).task() == InputTask::Prepared ==> final(self).task() == InputTask::Absent
                && final(self).streams().len() == 0,
            old(self).task() != InputTask::Prepared ==> final(self).task() == old(self).task()
                && final(self).streams() == old(self).streams(),
            final(self).input() == old(self).input(),
            final(self).input_opts() == old(self).input_opts(),
            final(self).outputs() == old(self).outputs(),
            final(self).decoders() == old(self).decoders(),
            final(self).encoders() == old(self).encoders(),
    {
        if self.input_task == InputTask::Prepared {
            self.input_task = InputTask::Absent;
            self.input_streams = Vec::new();
        }
    }

    /// A decoder now runs on stream `index`.
    pub fn decoder_started(&mut self, index: usize)
        requires
            old(self).wf(),
        ensures
            final(self).wf(),
            final(self).decoders() == (if old(self).decoders().contains(index) {
                old(self).decoders()
            } else {
                old(self).decoders().push(index)
            }),
            final(self).task() == old(self).task(),
            final(self).streams() == old(self).streams(),
            final(self).input() == old(self).input(),
            final(self).input_opts() == old(self).input_opts(),
            final(self).outputs() == old(self).outputs(),
            final(self).encoders() == old(self).encoders(),
    {
        if !contains_index(&self.decoders, index) {
            self.decoders.push(index);
        }
    }

    /// An encoder now runs on stream `index`.
    pub fn encoder_started(&mut self, index: usize)
        requires
            old(self).wf(),
        ensures
            final(self).wf(),
            final(self).encoders() == (if old(self).encoders().contains(index) {
                old(self).encoders()
            } else {
                old(self).encoders().push(index)
            }),
            final(self).task() == old(self).task(),
            final(self).streams() == old(self).streams(),
            final(self).input() == old(self).input(),
            final(self).input_opts() == old(self).input_opts(),
            final(self).outputs() == old(self).outputs(),
            final(self).decoders() == old(self).decoders(),
    {
        if !contains_index(&self.encoders, index) {
            self.encoders.push(index);
        }
    }

    /// Last step of `AddOutput`: the output was built; record it.
    pub fn commit_output(&mut self, output: OutputConfig) -> (r: Result<(), BusError>)
        requires
            old(self).wf(),
        ensures
            final(self).wf(),
            old(self).output_ids().contains(output.id@) ==> r == Err::<(), BusError>(
                BusError::OutputAlreadyExists,
            ) && *final(self) == *old(self),
            !old(self).output_ids().contains(output.id@) ==> r == Ok::<(), BusError>(())
                && final(self).outputs() == old(self).outputs().push(output),
            final(self).task() == old(self).task(),
            final(self).streams() == old(self).streams(),
            final(self).input() == old(self).input(),
            final(self).input_opts() == old(self).input_opts(),
            final(self).decoders() == old(self).decoders(),
            final(self).encoders() == old(self).encoders(),
    {
        if contains_id(&self.outputs, output.id.as_str()) {
            return Err(BusError::OutputAlreadyExists);
        }
        let ghost ids0 = self.output_ids();
        let ghost id = output.id@;
        self.outputs.push(output);
        assert(self.output_ids() =~= ids0.push(id));
        Ok(())
    }
}

/// The stream an output takes from the input: the first of its medium.
pub open spec fn chosen_stream(st: BusState, output: OutputConfig) -> Option<int> {
    first_index_where(st.streams(), has_medium(medium_of(output.av_type)))
}

/// Facts of adding `output` on stream `s` in state `st`: (needs an encoder,
/// starts a decoder, a decoder is available, starts an encoder, builder).
pub open spec fn plan_facts(st: BusState, output: OutputConfig, s: StreamDescriptor) -> (
    bool,
    bool,
    bool,
    bool,
    Builder,
) {
    let has_encode = output.encode.is_some();
    let need_dec = need_decoder_spec(s.codec, output.dest, has_encode);
    let need_enc = need_encoder_spec(s.codec, output.dest, has_encode);
    let start_dec = need_dec && !st.decoders().contains(s.index);
    let dec_avail = start_dec || st.decoders().contains(s.index);
    let start_enc = need_enc && !st.encoders().contains(s.index);
    (need_enc, start_dec, dec_avail, start_enc, builder_spec(output.dest, need_enc, s.codec))
}

/// Why adding `output` in state `st` fails, if it does.
pub open spec fn plan_error(st: BusState, output: OutputConfig) -> Option<BusError> {
    match chosen_stream(st, output) {
        None => Some(BusError::StreamNotFound),
        Some(k) => {
            let s = st.streams()[k];
            let (need_enc, start_dec, dec_avail, start_enc, b) = plan_facts(st, output, s);
            let from_packets = s.codec == CodecKind::RawVideo;
            if start_enc && !from_packets && !dec_avail {
                Some(BusError::DecoderNotFound)
            } else if b == Builder::DecodedFrames && !dec_avail {
                Some(BusError::DecoderNotFound)
            } else if b == Builder::MuxFromEncoder && !encoder_mux_format_ok(output.dest) {
                Some(BusError::UnsupportedMuxFormat)
            } else {
                None
            }
        },
    }
}

/// Whether `p` is the plan for adding `output` in state `st` (when
/// `plan_error` is `None`).
pub open spec fn plan_ok(st: BusState, output: OutputConfig, p: OutputPlan) -> bool {
    let k = chosen_stream(st, output).unwrap();
    let s = st.streams()[k];
    let (need_enc, start_dec, dec_avail, start_enc, b) = plan_facts(st, output, s);
    &&& p.stream == s
    &&& p.start_decoder == start_dec
    &&& p.builder == b
    &&& p.begin_reading == (st.task() == InputTask::Prepared)
    &&& start_enc == p.encoder.is_some()
    &&& start_enc ==> {
        let e = p.encoder.unwrap();
        &&& e.from_packets == (s.codec == CodecKind::RawVideo)
        &&& encoder_settings_ok(s, e.settings)
        &&& match output.encode {
            Some(c) => e.options.is_some() && option_texts(e.options.unwrap()@)
                == encoder_options_spec(c),
            None => e.options.is_none(),
        }
    }
}

fn encoder_settings_for(s: &StreamDescriptor) -> (r: Settings)
    ensures
        encoder_settings_ok(*s, r),
{
    if s.codec == CodecKind::RawVideo || s.codec == CodecKind::WrappedFrame {
        let (width, height) = ensure_video_dimensions(s.width, s.height);
        Settings {
            width,
            height,
            pixel_format: pixel_format_for_libx264(s.pixel_format),
            ..Settings::default()
        }
    } else {
        Settings::default()
    }
}

fn mux_format_ok(dest: &OutputDest) -> (r: bool)
    ensures
        r == encoder_mux_format_ok(*dest),
{
    match dest {
        OutputDest::Mux { format } => same_text(format.as_str(), "h264") || same_text(
            format.as_str(),
            "hevc",
        ) || same_text(format.as_str(), "h265"),
        _ => true,
    }
}

fn builder_for(dest: &OutputDest, need_encoder: bool, codec: CodecKind) -> (r: Builder)
    ensures
        r == builder_spec(*dest, need_encoder, codec),
{
    match dest {
        OutputDest::Raw => if codec == CodecKind::RawVideo {
            Builder::FramesFromPackets
        } else {
            Builder::DecodedFrames
        },
        OutputDest::File { .. } => Builder::FileMux,
        OutputDest::Net { .. } => Builder::NetMux,
        OutputDest::Mux { .. } => if need_encoder {
            Builder::MuxFromEncoder
        } else {
            Builder::MuxOfInput
        },
        OutputDest::Encoded => Builder::EncodedPackets,
    }
}

impl BusState {
    /// Second step of `AddOutput` (after the input is opened if
    /// [`BusState::begin_add_output`] asked for it): picks the input stream of
    /// the output's medium and decides which workers to start and how to build
    /// the output. The returned plan lists the work in the order it must be
    /// done; the reader of a prepared input starts last.
    pub fn plan_output(&self, output: &OutputConfig) -> (r: Result<OutputPlan, BusError>)
        requires
            self.wf(),
        ensures
            match plan_error(*self, *output) {
                Some(e) => r.is_err() && r.unwrap_err() == e,
                None => r.is_ok() && plan_ok(*self, *output, r.unwrap()),
            },
    {
        let medium = match output.av_type {
            OutputAvType::Video => Medium::Video,
            OutputAvType::Audio => Medium::Audio,
        };
        let k = match find_by_medium(&self.input_streams, medium) {
            Some(k) => k,
            None => {
                return Err(BusError::StreamNotFound);
            },
        };
        let s = self.input_streams[k];
        let need_dec = try_decoder(s.codec, output);
        let need_enc = try_encoder(s.codec, output);
        let has_dec = contains_index(&self.decoders, s.index);
        let start_dec = need_dec && !has_dec;
        let dec_avail = start_dec || has_dec;
        let start_enc = need_enc && !contains_index(&self.encoders, s.index);
        let builder = builder_for(&output.dest, need_enc, s.codec);
        let from_packets = s.codec == CodecKind::RawVideo;
        if start_enc && !from_packets && !dec_avail {
            return Err(BusError::DecoderNotFound);
        }
        if builder == Builder::DecodedFrames && !dec_avail {
            return Err(BusError::DecoderNotFound);
        }
        if builder == Builder::MuxFromEncoder && !mux_format_ok(&output.dest) {
            return Err(BusError::UnsupportedMuxFormat);
        }
        let encoder = if start_enc {
            Some(
                EncoderPlan {
                    settings: encoder_settings_for(&s),
                    options: encoder_options_from_config(output.encode.as_ref()),
                    from_packets,
                },
            )
        } else {
            None
        };
        let r = OutputPlan {
                stream: s,
                start_decoder: start_dec,
                encoder,
                builder,
                begin_reading: self.input_task == InputTask::Prepared,
            };
        Ok(r)
    }
}

/// One step of adding an output, once its plan is made.
#[derive(Clone, Copy, Debug, PartialEq, Eq, Structural)]
pub enum OutputStep {
    /// Start the stream's decoder (it subscribes to the input).
    StartDecoder,
    /// Start the stream's encoder (it subscribes to the decoder or input).
    StartEncoder,
    /// Build the output (it subscribes to its source).
    Build,
    /// Start the prepared input reader.
    BeginReading,
    /// Record the output.
    Commit,
}

/// The steps for a plan that starts a decoder or not, an encoder or not, and
/// begins reading a prepared input or not, in the order they are taken.
pub open spec fn output_steps_spec(start_decoder: bool, start_encoder: bool, begin_reading: bool) -> Seq<
    OutputStep,
> {
    (if start_decoder {
        seq![OutputStep::StartDecoder]
    } else {
        seq![]
    }) + (if start_encoder {
        seq![OutputStep::StartEncoder]
    } else {
        seq![]
    }) + seq![OutputStep::Build] + (if begin_reading {
        seq![OutputStep::BeginReading]
    } else {
        seq![]
    }) + seq![OutputStep::Commit]
}

/// Whether a step registers a subscriber.
pub open spec fn subscribes(st: OutputStep) -> bool {
    st == OutputStep::StartDecoder || st == OutputStep::StartEncoder || st == OutputStep::Build
}

/// The steps that carry out `plan`, in order: workers, then the output, then
/// the reader of a prepared input, then the record.
pub fn output_steps(plan: &OutputPlan) -> (r: Vec<OutputStep>)
    ensures
        r@ == output_steps_spec(plan.start_decoder, plan.encoder.is_some(), plan.begin_reading),
{
    let mut v: Vec<OutputStep> = Vec::new();
    if plan.start_decoder {
        v.push(OutputStep::StartDecoder);
    }
    if plan.encoder.is_some() {
        v.push(OutputStep::StartEncoder);
    }
    v.push(OutputStep::Build);
    if plan.begin_reading {
        v.push(OutputStep::BeginReading);
    }
    v.push(OutputStep::Commit);
    assert(v@ =~= output_steps_spec(plan.start_decoder, plan.encoder.is_some(), plan.begin_reading));
    v
}

/// Two-phase start: the reader of a prepared input is started once, after
/// every subscription the new output needs is registered (its decoder, its
/// encoder and the output itself), so that the output sees the first packet
/// read; the output is built exactly once, and the record comes last.
pub proof fn lemma_reading_after_subscriptions(sd: bool, se: bool, br: bool)
    ensures
        ({
            let steps = output_steps_spec(sd, se, br);
            &&& forall|i: int, j: int|
                #![trigger steps[i], steps[j]]
                0 <= i < steps.len() && 0 <= j < steps.len() && subscribes(steps[i])
                    && steps[j] == OutputStep::BeginReading ==> i < j
            &&& (exists|j: int| 0 <= j < steps.len() && steps[j] == OutputStep::BeginReading) == br
            &&& forall|i: int, j: int|
                #![trigger steps[i], steps[j]]
                0 <= i < steps.len() && 0 <= j < steps.len() && steps[i] == OutputStep::Build
                    && steps[j] == OutputStep::Build ==> i == j
            &&& steps.last() == OutputStep::Commit
        }),
{
    let steps = output_steps_spec(sd, se, br);
    let a: int = if sd { 1 } else { 0 };
    let b: int = if se { 1 } else { 0 };
    let c: int = if br { 1 } else { 0 };
    assert(steps.len() == a + b + 2 + c);
    assert forall|k: int| 0 <= k < steps.len() implies #[trigger] steps[k] == (if k < a {
        OutputStep::StartDecoder
    } else if k < a + b {
        OutputStep::StartEncoder
    } else if k == a + b {
        OutputStep::Build
    } else if k < a + b + 1 + c {
        OutputStep::BeginReading
    } else {
        OutputStep::Commit
    }) by {}
    if br {
        assert(steps[a + b + 1] == OutputStep::BeginReading);
    }
}

} // verus!
