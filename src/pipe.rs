//! The pipe façade: recorder-level pipeline configuration and its mapping
//! onto bus inputs and outputs.

use vstd::prelude::*;
use crate::bus::{EncodeConfig, OutputAvType, option_texts};
use crate::text::{decimal_spec, u64_to_decimal};
use crate::bus;

verus! {

/// Where a pipe reads from.
#[derive(Clone, Debug)]
pub enum InputConfig {
    Network { url: String },
    File { path: String },
    Device { display: String, format: String },
}

/// Where a pipe output goes. The frame and packet sinks themselves are held
/// by the host, keyed by output id.
#[derive(Clone, Debug)]
pub enum OutputDest {
    /// Network streaming (RTSP, RTMP, ...) in container `format`.
    Network { url: String, format: String },
    /// Decoded frames.
    RawFrame,
    /// Encoded packets.
    RawPacket,
    /// The embedded streaming server (H.264 elementary stream).
    Zlm,
}

/// One pipe output.
#[derive(Clone, Debug)]
pub struct OutputConfig {
    /// Unique id; `None` lets the bus mapping pick a fresh one.
    pub id: Option<String>,
    pub dest: OutputDest,
    /// `None` remuxes without re-encoding.
    pub encode: Option<EncodeConfig>,
}

/// Relies on `uuid::Uuid::new_v4` and its hyphenated text form, which is 36
/// characters long.
#[verifier::external_body]
fn new_output_id() -> (r: String)
    ensures
        r@.len() == 36,
{
    uuid::Uuid::new_v4().to_string()
}

impl OutputConfig {
    /// An output with a fresh random id.
    pub fn new(dest: OutputDest, encode: Option<EncodeConfig>) -> (r: OutputConfig)
        ensures
            r.id.is_some() && r.id.unwrap()@.len() == 36,
            r.dest == dest,
            r.encode == encode,
    {
        OutputConfig { id: Some(new_output_id()), dest, encode }
    }

    /// An output with id `id`.
    pub fn new_with_id(id: &str, dest: OutputDest, encode: Option<EncodeConfig>) -> (r:
        OutputConfig)
        ensures
            r.id.is_some() && r.id.unwrap()@ == id@,
            r.dest == dest,
            r.encode == encode,
    {
        OutputConfig { id: Some(id.to_owned()), dest, encode }
    }
}

/// A pipe: one input, many outputs.
pub struct PipeConfig {
    pub input: InputConfig,
    pub outputs: Vec<OutputConfig>,
}

impl PipeConfig {
    pub fn builder() -> (r: PipeConfigBuilder)
        ensures
            r.input.is_none(),
            r.outputs@.len() == 0,
    {
        PipeConfigBuilder { input: None, outputs: Vec::new() }
    }
}

/// Builds a [`PipeConfig`] step by step.
pub struct PipeConfigBuilder {
    pub input: Option<InputConfig>,
    pub outputs: Vec<OutputConfig>,
}

impl PipeConfigBuilder {
    /// Reads from network URL `url`.
    pub fn input_url(self, url: &str) -> (r: PipeConfigBuilder)
        ensures
            r.input matches Some(InputConfig::Network { url: u }) && u@ == url@,
            r.outputs == self.outputs,
    {
        PipeConfigBuilder { input: Some(InputConfig::Network { url: url.to_owned() }), ..self }
    }

    /// Reads from file `path`.
    pub fn input_file(self, path: &str) -> (r: PipeConfigBuilder)
        ensures
            r.input matches Some(InputConfig::File { path: p }) && p@ == path@,
            r.outputs == self.outputs,
    {
        PipeConfigBuilder { input: Some(InputConfig::File { path: path.to_owned() }), ..self }
    }

    fn push_output(self, o: OutputConfig) -> (r: PipeConfigBuilder)
        ensures
            r.input == self.input,
            r.outputs@ == self.outputs@.push(o),
    {
        let mut outputs = self.outputs;
        outputs.push(o);
        PipeConfigBuilder { input: self.input, outputs }
    }

    /// Adds an RTSP output re-encoded with `encode`.
    pub fn add_rtsp_output(self, url: &str, encode: EncodeConfig) -> (r: PipeConfigBuilder)
        ensures
            r.input == self.input,
            r.outputs@.len() == self.outputs@.len() + 1,
            r.outputs@.drop_last() == self.outputs@,
            r.outputs@.last().dest matches OutputDest::Network { url: u, format: f } && u@ == url@
                && f@ == "rtsp"@,
            r.outputs@.last().encode == Some(encode),
    {
        let o = OutputConfig::new(
            OutputDest::Network { url: url.to_owned(), format: "rtsp".to_owned() },
            Some(encode),
        );
        let r = self.push_output(o);
        assert(r.outputs@.drop_last() =~= self.outputs@);
        r
    }

    /// Adds a network output remuxed into container `format`.
    pub fn add_remux_output(self, url: &str, format: &str) -> (r: PipeConfigBuilder)
        ensures
            r.input == self.input,
            r.outputs@.len() == self.outputs@.len() + 1,
            r.outputs@.drop_last() == self.outputs@,
            r.outputs@.last().dest matches OutputDest::Network { url: u, format: f } && u@ == url@
                && f@ == format@,
            r.outputs@.last().encode.is_none(),
    {
        let o = OutputConfig::new(
            OutputDest::Network { url: url.to_owned(), format: format.to_owned() },
            None,
        );
        let r = self.push_output(o);
        assert(r.outputs@.drop_last() =~= self.outputs@);
        r
    }

    /// Adds a decoded-frame output.
    pub fn add_raw_frame_output(self) -> (r: PipeConfigBuilder)
        ensures
            r.input == self.input,
            r.outputs@.len() == self.outputs@.len() + 1,
            r.outputs@.drop_last() == self.outputs@,
            r.outputs@.last().dest == OutputDest::RawFrame,
            r.outputs@.last().encode.is_none(),
    {
        let r = self.push_output(OutputConfig::new(OutputDest::RawFrame, None));
        assert(r.outputs@.drop_last() =~= self.outputs@);
        r
    }

    /// Adds an encoded-packet output with encoding `encode`.
    pub fn add_raw_packet_output(self, encode: EncodeConfig) -> (r: PipeConfigBuilder)
        ensures
            r.input == self.input,
            r.outputs@.len() == self.outputs@.len() + 1,
            r.outputs@.drop_last() == self.outputs@,
            r.outputs@.last().dest == OutputDest::RawPacket,
            r.outputs@.last().encode == Some(encode),
    {
        let r = self.push_output(OutputConfig::new(OutputDest::RawPacket, Some(encode)));
        assert(r.outputs@.drop_last() =~= self.outputs@);
        r
    }

    /// Adds a streaming-server output.
    pub fn add_zlm_output(self) -> (r: PipeConfigBuilder)
        ensures
            r.input == self.input,
            r.outputs@.len() == self.outputs@.len() + 1,
            r.outputs@.drop_last() == self.outputs@,
            r.outputs@.last().dest == OutputDest::Zlm,
            r.outputs@.last().encode.is_none(),
    {
        let r = self.push_output(OutputConfig::new(OutputDest::Zlm, None));
        assert(r.outputs@.drop_last() =~= self.outputs@);
        r
    }

    /// The configuration; an input must have been set.
    pub fn build(self) -> (r: PipeConfig)
        requires
            self.input.is_some(),
        ensures
            r.input == self.input.unwrap(),
            r.outputs == self.outputs,
    {
        PipeConfig { input: self.input.expect("input is required"), outputs: self.outputs }
    }
}

/// The bus input a pipe input stands for.
pub fn to_bus_input(input: InputConfig) -> (r: bus::InputConfig)
    ensures
        match input {
            InputConfig::Network { url } => r == bus::InputConfig::Net { url },
            InputConfig::File { path } => r == bus::InputConfig::File { path },
            InputConfig::Device { display, format } => r == bus::InputConfig::Device {
                display,
                format,
            },
        },
{
    match input {
        InputConfig::Network { url } => bus::InputConfig::Net { url },
        InputConfig::File { path } => bus::InputConfig::File { path },
        InputConfig::Device { display, format } => bus::InputConfig::Device { display, format },
    }
}

fn copy_text(s: &String) -> (r: String)
    ensures
        r@ == s@,
{
    s.as_str().to_owned()
}

fn copy_opt_text(s: &Option<String>) -> (r: Option<String>)
    ensures
        r.is_some() == s.is_some(),
        r.is_some() ==> r.unwrap()@ == s.unwrap()@,
{
    match s {
        Some(t) => Some(copy_text(t)),
        None => None,
    }
}

/// A field-for-field copy of encode configuration `e` for the bus.
pub fn to_fb_encode_config(e: &EncodeConfig) -> (r: EncodeConfig)
    ensures
        r.same_as(e),
{
    EncodeConfig {
        codec: copy_text(&e.codec),
        width: e.width,
        height: e.height,
        bitrate: e.bitrate,
        preset: copy_opt_text(&e.preset),
        pixel_format: copy_opt_text(&e.pixel_format),
    }
}

/// The bus destination a pipe destination stands for: network outputs keep
/// their URL and format, frame sinks take decoded frames, packet sinks take
/// encoded packets, and the streaming server takes an H.264 elementary stream.
pub open spec fn bus_dest_ok(d: OutputDest, b: bus::OutputDest) -> bool {
    match d {
        OutputDest::Network { url, format } => b matches bus::OutputDest::Net {
            url: u,
            format: f,
        } && u@ == url@ && f.is_some() && f.unwrap()@ == format@,
        OutputDest::RawFrame => b == bus::OutputDest::Raw,
        OutputDest::RawPacket => b == bus::OutputDest::Encoded,
        OutputDest::Zlm => b matches bus::OutputDest::Mux { format: f } && f@ == "h264"@,
    }
}

/// The bus output a pipe output stands for: a video output with the same id
/// (a fresh 36-character one when it has none), the matching destination,
/// and a copy of its encoding.
pub fn to_fb_output(config: &OutputConfig) -> (r: bus::OutputConfig)
    ensures
        r.av_type == OutputAvType::Video,
        match config.id {
            Some(id) => r.id@ == id@,
            None => r.id@.len() == 36,
        },
        bus_dest_ok(config.dest, r.dest),
        r.encode.is_some() == config.encode.is_some(),
        r.encode.is_some() ==> r.encode.unwrap().same_as(&config.encode.unwrap()),
{
    let dest = match &config.dest {
        OutputDest::Network { url, format } => bus::OutputDest::Net {
            url: copy_text(url),
            format: Some(copy_text(format)),
        },
        OutputDest::RawFrame => bus::OutputDest::Raw,
        OutputDest::RawPacket => bus::OutputDest::Encoded,
        OutputDest::Zlm => bus::OutputDest::Mux { format: "h264".to_owned() },
    };
    let id = match &config.id {
        Some(id) => copy_text(id),
        None => new_output_id(),
    };
    let fb = bus::OutputConfig::new(id, OutputAvType::Video, dest);
    match &config.encode {
        Some(e) => fb.with_encode(to_fb_encode_config(e)),
        None => fb,
    }
}

/// Codec options of an output encoded with `e`: its bit rate, then its
/// preset, each when given.
pub open spec fn output_codec_options_spec(e: EncodeConfig) -> Seq<(Seq<char>, Seq<char>)> {
    let b = match e.bitrate {
        Some(v) => seq![("b"@, decimal_spec(v as nat))],
        None => seq![],
    };
    let p = match e.preset {
        Some(v) => seq![("preset"@, v@)],
        None => seq![],
    };
    b + p
}

/// The video codec and codec options an output encoded with `e` is opened with.
pub fn apply_encode_config(e: &EncodeConfig) -> (r: (String, Vec<(String, String)>))
    ensures
        r.0@ == e.codec@,
        option_texts(r.1@) == output_codec_options_spec(*e),
{
    let mut opts: Vec<(String, String)> = Vec::new();
    if let Some(b) = e.bitrate {
        opts.push(("b".to_owned(), u64_to_decimal(b)));
    }
    if let Some(p) = &e.preset {
        opts.push(("preset".to_owned(), copy_text(p)));
    }
    assert(option_texts(opts@) =~= output_codec_options_spec(*e));
    (copy_text(&e.codec), opts)
}

/// What carries an output's stream to its consumer once the bus serves it.
#[derive(Clone, Copy, Debug, PartialEq, Eq, Structural)]
pub enum ForwardKind {
    /// The bus itself writes to the network; nothing to forward.
    Direct,
    /// Frames or packets go to the output's sink.
    Sink,
    /// Packets go through the streaming-server bridge.
    ServerBridge,
}

/// The forwarding an output destination needs.
pub fn forward_kind(dest: &OutputDest) -> (r: ForwardKind)
    ensures
        r == match dest {
            OutputDest::Network { .. } => ForwardKind::Direct,
            OutputDest::RawFrame | OutputDest::RawPacket => ForwardKind::Sink,
            OutputDest::Zlm => ForwardKind::ServerBridge,
        },
{
    match dest {
        OutputDest::Network { .. } => ForwardKind::Direct,
        OutputDest::RawFrame | OutputDest::RawPacket => ForwardKind::Sink,
        OutputDest::Zlm => ForwardKind::ServerBridge,
    }
}

/// A name for an output destination, for logs.
pub fn dest_name(dest: &OutputDest) -> (r: String)
    ensures
        match dest {
            OutputDest::Network { url, .. } => r@ == url@,
            OutputDest::RawFrame => r@ == "RawFrame"@,
            OutputDest::RawPacket => r@ == "RawPacket"@,
            OutputDest::Zlm => r@ == "Zlm"@,
        },
{
    match dest {
        OutputDest::Network { url, .. } => copy_text(url),
        OutputDest::RawFrame => "RawFrame".to_owned(),
        OutputDest::RawPacket => "RawPacket".to_owned(),
        OutputDest::Zlm => "Zlm".to_owned(),
    }
}

/// The outputs among the first `n` whose encoding equals `key`, in order.
pub open spec fn indices_with(outs: Seq<OutputConfig>, key: EncodeConfig, n: int) -> Seq<usize>
    decreases n,
{
    if n <= 0 {
        seq![]
    } else {
        let earlier = indices_with(outs, key, n - 1);
        match outs[n - 1].encode {
            Some(c) => if c.same_as(&key) {
                earlier.push((n - 1) as usize)
            } else {
                earlier
            },
            None => earlier,
        }
    }
}

proof fn lemma_indices_with_empty(outs: Seq<OutputConfig>, key: EncodeConfig, n: int)
    requires
        0 <= n <= outs.len(),
        forall|i: int|
            0 <= i < n ==> !(#[trigger] outs[i].encode matches Some(c) && c.same_as(&key)),
    ensures
        indices_with(outs, key, n) == Seq::<usize>::empty(),
    decreases n,
{
    if n > 0 {
        lemma_indices_with_empty(outs, key, n - 1);
    }
}

/// What a pipe's outputs need: whether frames must be decoded, whether input
/// packets are remuxed as they are, and the outputs grouped by encoding (one
/// encoder per group).
pub struct OutputAnalysis {
    pub need_decode: bool,
    pub need_raw_packet: bool,
    /// Distinct encodings, in order of first use.
    pub encode_keys: Vec<EncodeConfig>,
    /// For each encoding, the outputs that use it, in order.
    pub encode_members: Vec<Vec<usize>>,
}

fn push_copy(v: &Vec<usize>, x: usize) -> (r: Vec<usize>)
    ensures
        r@ == v@.push(x),
{
    let mut r: Vec<usize> = Vec::new();
    let mut i: usize = 0;
    while i < v.len()
        invariant
            i <= v@.len(),
            r@ == v@.subrange(0, i as int),
        decreases v.len() - i,
    {
        r.push(v[i]);
        assert(v@.subrange(0, i + 1) == v@.subrange(0, i as int).push(v@[i as int]));
        i = i + 1;
    }
    assert(v@.subrange(0, v@.len() as int) == v@);
    r.push(x);
    r
}

/// Decides the stages a pipe needs for `outputs`: decoding for frame
/// outputs and for every re-encoded output, remuxing for every output kept
/// as it is, and one encoder per distinct encoding.
pub fn analyze_outputs(outputs: &Vec<OutputConfig>) -> (r: OutputAnalysis)
    ensures
        r.need_decode == exists|i: int|
            0 <= i < outputs@.len() && ((#[trigger] outputs@[i]).dest == OutputDest::RawFrame
                || outputs@[i].encode.is_some()),
        r.need_raw_packet == exists|i: int|
            0 <= i < outputs@.len() && (#[trigger] outputs@[i]).encode.is_none(),
        r.encode_keys@.len() == r.encode_members@.len(),
        forall|a: int, b: int|
            #![trigger r.encode_keys@[a], r.encode_keys@[b]]
            0 <= a < b < r.encode_keys@.len() ==> !r.encode_keys@[a].same_as(&r.encode_keys@[b]),
        forall|g: int|
            0 <= g < r.encode_keys@.len() ==> (#[trigger] r.encode_members@[g])@ == indices_with(
                outputs@,
                r.encode_keys@[g],
                outputs@.len() as int,
            ),
        forall|i: int|
            0 <= i < outputs@.len() && (#[trigger] outputs@[i]).encode.is_some() ==> exists|g: int|
                0 <= g < r.encode_keys@.len() && (#[trigger] r.encode_keys@[g]).same_as(
                    &outputs@[i].encode.unwrap(),
                ),
        forall|g: int|
            0 <= g < r.encode_keys@.len() ==> {
                &&& (#[trigger] r.encode_members@[g])@.len() > 0
                &&& r.encode_members@[g]@[0] < outputs@.len()
                &&& outputs@[r.encode_members@[g]@[0] as int].encode.is_some()
                &&& r.encode_keys@[g].same_as(
                    &outputs@[r.encode_members@[g]@[0] as int].encode.unwrap(),
                )
            },
        forall|a: int, b: int|
            #![trigger r.encode_members@[a], r.encode_members@[b]]
            0 <= a < b < r.encode_members@.len() ==> r.encode_members@[a]@[0]
                < r.encode_members@[b]@[0],
{
    let mut need_decode = false;
    let mut need_raw_packet = false;
    let mut keys: Vec<EncodeConfig> = Vec::new();
    let mut members: Vec<Vec<usize>> = Vec::new();
    let n = outputs.len();
    let mut i: usize = 0;
    while i < n
        invariant
            n == outputs@.len(),
            i <= n,
            need_decode == exists|k: int|
                0 <= k < i && ((#[trigger] outputs@[k]).dest == OutputDest::RawFrame
                    || outputs@[k].encode.is_some()),
            need_raw_packet == exists|k: int| 0 <= k < i && (#[trigger] outputs@[k]).encode.is_none(),
            keys@.len() == members@.len(),
            forall|a: int, b: int|
                #![trigger keys@[a], keys@[b]]
                0 <= a < b < keys@.len() ==> !keys@[a].same_as(&keys@[b]),
            forall|g: int|
                0 <= g < keys@.len() ==> (#[trigger] members@[g])@ == indices_with(
                    outputs@,
                    keys@[g],
                    i as int,
                ),
            forall|k: int|
                0 <= k < i && (#[trigger] outputs@[k]).encode.is_some() ==> exists|g: int|
                    0 <= g < keys@.len() && (#[trigger] keys@[g]).same_as(
                        &outputs@[k].encode.unwrap(),
                    ),
            forall|g: int|
                0 <= g < keys@.len() ==> {
                    &&& (#[trigger] members@[g])@.len() > 0
                    &&& members@[g]@[0] < i
                    &&& outputs@[members@[g]@[0] as int].encode.is_some()
                    &&& keys@[g].same_as(&outputs@[members@[g]@[0] as int].encode.unwrap())
                },
            forall|a: int, b: int|
                #![trigger members@[a], members@[b]]
                0 <= a < b < members@.len() ==> members@[a]@[0] < members@[b]@[0],
        decreases n - i,
    {
        let o = &outputs[i];
        if let OutputDest::RawFrame = o.dest {
            need_decode = true;
        }
        match &o.encode {
            None => {
                need_raw_packet = true;
                assert forall|g: int| 0 <= g < keys@.len() implies (#[trigger] members@[g])@
                    == indices_with(outputs@, keys@[g], i + 1) by {}
            },
            Some(c) => {
                need_decode = true;
                let mut j: usize = 0;
                while j < keys.len()
                    invariant
                        j <= keys@.len(),
                        forall|g: int| 0 <= g < j ==> !(#[trigger] keys@[g]).same_as(c),
                    ensures
                        j <= keys@.len(),
                        forall|g: int| 0 <= g < j ==> !(#[trigger] keys@[g]).same_as(c),
                        j < keys@.len() ==> keys@[j as int].same_as(c),
                    decreases keys.len() - j,
                {
                    if keys[j].eq(c) {
                        break ;
                    }
                    j = j + 1;
                }
                if j < keys.len() {
                    assert(keys@[j as int].same_as(c));
                    let grown = push_copy(&members[j], i);
                    let ghost old_keys = keys@;
                    let ghost old_members = members@;
                    members.set(j, grown);
                    assert(keys@[j as int].same_as(&outputs@[i as int].encode.unwrap()));
                    assert forall|g: int| 0 <= g < keys@.len() implies (#[trigger] members@[g])@
                        == indices_with(outputs@, keys@[g], i + 1) by {
                        if g != j {
                            assert(!keys@[g].same_as(c)) by {
                                if keys@[g].same_as(c) {
                                    assert(keys@[g].same_as(&keys@[j as int]));
                                    if g < j {
                                        assert(!keys@[g].same_as(&keys@[j as int]));
                                    } else {
                                        assert(!keys@[j as int].same_as(&keys@[g]));
                                    }
                                }
                            }
                        }
                    }
                } else {
                    let key = to_fb_encode_config(c);
                    proof {
                        assert forall|k: int|
                            0 <= k < i implies !(#[trigger] outputs@[k].encode matches Some(e)
                            && e.same_as(&key)) by {
                            if outputs@[k].encode matches Some(e) && e.same_as(&key) {
                                let g = choose|g: int|
                                    0 <= g < keys@.len() && (#[trigger] keys@[g]).same_as(
                                        &outputs@[k].encode.unwrap(),
                                    );
                                assert(keys@[g].same_as(c));
                            }
                        }
                        lemma_indices_with_empty(outputs@, key, i as int);
                    }
                    let mut first: Vec<usize> = Vec::new();
                    first.push(i);
                    let ghost old_keys = keys@;
                    keys.push(key);
                    members.push(first);
                    assert(keys@[keys@.len() - 1].same_as(&outputs@[i as int].encode.unwrap()));
                    assert forall|k: int|
                        0 <= k < i && (#[trigger] outputs@[k]).encode.is_some() implies exists|g: int|
                            0 <= g < keys@.len() && (#[trigger] keys@[g]).same_as(
                                &outputs@[k].encode.unwrap(),
                            ) by {
                        let g = choose|g: int|
                            0 <= g < old_keys.len() && (#[trigger] old_keys[g]).same_as(
                                &outputs@[k].encode.unwrap(),
                            );
                        assert(keys@[g] == old_keys[g]);
                    }
                    assert forall|g: int| 0 <= g < keys@.len() implies (#[trigger] members@[g])@
                        == indices_with(outputs@, keys@[g], i + 1) by {
                        if g < keys@.len() - 1 {
                            assert(!keys@[g].same_as(c));
                        } else {
                            assert(members@[g]@ =~= seq![i]);
                        }
                    }
                }
            },
        }
        i = i + 1;
    }
    assert forall|k: int|
        0 <= k < outputs@.len() && (#[trigger] outputs@[k]).encode.is_some() implies exists|g: int|
            0 <= g < keys@.len() && (#[trigger] keys@[g]).same_as(&outputs@[k].encode.unwrap()) by {
        assert(k < i);
    }
    OutputAnalysis { need_decode, need_raw_packet, encode_keys: keys, encode_members: members }
}

} // verus!
