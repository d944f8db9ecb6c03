//! Capture input formats and the `-i` values each one offers.

use vstd::prelude::*;
use crate::text::{contains_spec, contains_text, occurs_at, same_text, starts_with_text};

verus! {

/// A capture input format with the inputs it can open.
#[derive(Clone, Debug)]
pub struct VideoInputSpec {
    /// Format name for `-f` (e.g. "v4l2", "lavfi").
    pub format: String,
    /// Description of this input format.
    pub description: String,
    /// Possible values for `-i` (device path, filter graph, ...); empty when
    /// they cannot be listed.
    pub inputs: Vec<String>,
}

impl VideoInputSpec {
    pub fn format(&self) -> (r: &str)
        ensures
            r@ == self.format@,
    {
        self.format.as_str()
    }

    pub fn description(&self) -> (r: &str)
        ensures
            r@ == self.description@,
    {
        self.description.as_str()
    }

    pub fn inputs(&self) -> (r: &[String])
        ensures
            r@ == self.inputs@,
    {
        self.inputs.as_slice()
    }
}

/// The views of a list of strings.
pub open spec fn views(v: Seq<String>) -> Seq<Seq<char>> {
    v.map_values(|s: String| s@)
}

/// The `-i` values offered for input format `format`: the video device paths
/// for "v4l2", two test sources for "lavfi", none otherwise.
pub open spec fn inputs_for_format_spec(format: Seq<char>, v4l2_paths: Seq<Seq<char>>) -> Seq<
    Seq<char>,
> {
    if format == "v4l2"@ {
        v4l2_paths
    } else if format == "lavfi"@ {
        seq!["color=c=blue:s=1280x720"@, "testsrc=duration=5"@]
    } else {
        seq![]
    }
}

fn copy_texts(v: &Vec<String>) -> (r: Vec<String>)
    ensures
        views(r@) == views(v@),
{
    let mut r: Vec<String> = Vec::new();
    let mut i: usize = 0;
    while i < v.len()
        invariant
            i <= v@.len(),
            r@.len() == i,
            forall|j: int| 0 <= j < i ==> #[trigger] r@[j]@ == v@[j]@,
        decreases v.len() - i,
    {
        let s: String = v[i].clone();
        r.push(s);
        i = i + 1;
    }
    assert(views(r@) =~= views(v@));
    r
}

/// The `-i` values for input format `format_name`; `v4l2_paths` are the video
/// device paths present on the machine.
pub fn inputs_for_format(format_name: &str, v4l2_paths: &Vec<String>) -> (r: Vec<String>)
    ensures
        views(r@) == inputs_for_format_spec(format_name@, views(v4l2_paths@)),
{
    if same_text(format_name, "v4l2") {
        copy_texts(v4l2_paths)
    } else if same_text(format_name, "lavfi") {
        let mut r: Vec<String> = Vec::new();
        r.push("color=c=blue:s=1280x720".to_owned());
        r.push("testsrc=duration=5".to_owned());
        assert(views(r@) =~= seq!["color=c=blue:s=1280x720"@, "testsrc=duration=5"@]);
        r
    } else {
        let r: Vec<String> = Vec::new();
        assert(views(r@) =~= Seq::<Seq<char>>::empty());
        r
    }
}

/// The spec of input format `name` (described by `description`).
pub fn input_spec(name: &str, description: &str, v4l2_paths: &Vec<String>) -> (r: VideoInputSpec)
    ensures
        r.format@ == name@,
        r.description@ == description@,
        views(r.inputs@) == inputs_for_format_spec(name@, views(v4l2_paths@)),
{
    VideoInputSpec {
        format: name.to_owned(),
        description: description.to_owned(),
        inputs: inputs_for_format(name, v4l2_paths),
    }
}

/// The specs of the capture input formats `devices` (name, description), in
/// order.
pub fn input_video_specs(devices: &Vec<(String, String)>, v4l2_paths: &Vec<String>) -> (r: Vec<
    VideoInputSpec,
>)
    ensures
        r@.len() == devices@.len(),
        forall|i: int|
            0 <= i < devices@.len() ==> {
                &&& (#[trigger] r@[i]).format@ == devices@[i].0@
                &&& r@[i].description@ == devices@[i].1@
                &&& views(r@[i].inputs@) == inputs_for_format_spec(
                    devices@[i].0@,
                    views(v4l2_paths@),
                )
            },
{
    let mut r: Vec<VideoInputSpec> = Vec::new();
    let mut i: usize = 0;
    while i < devices.len()
        invariant
            i <= devices@.len(),
            r@.len() == i,
            forall|j: int|
                0 <= j < i ==> {
                    &&& (#[trigger] r@[j]).format@ == devices@[j].0@
                    &&& r@[j].description@ == devices@[j].1@
                    &&& views(r@[j].inputs@) == inputs_for_format_spec(
                        devices@[j].0@,
                        views(v4l2_paths@),
                    )
                },
        decreases devices.len() - i,
    {
        let d = &devices[i];
        r.push(input_spec(d.0.as_str(), d.1.as_str(), v4l2_paths));
        i = i + 1;
    }
    r
}

/// Whether a `/dev` entry named `file_name` is a video capture device.
pub fn is_video_device_name(file_name: &str) -> (r: bool)
    ensures
        r == occurs_at(file_name@, "video"@, 0),
{
    starts_with_text(file_name, "video")
}

/// The X displays offered for screen capture, given the value of `DISPLAY`
/// with surrounding white space removed: that display, and its first screen
/// when it names none; ":0" when there is no display.
pub open spec fn x11grab_displays_spec(display: Option<Seq<char>>) -> Seq<Seq<char>> {
    match display {
        Some(d) if d.len() > 0 => if contains_spec(d, "."@) {
            seq![d]
        } else {
            seq![d, d + ".0"@]
        },
        _ => seq![":0"@],
    }
}

/// The X displays offered for screen capture (see [`x11grab_displays_spec`]).
pub fn x11grab_displays(display: Option<&str>) -> (r: Vec<String>)
    ensures
        views(r@) == x11grab_displays_spec(
            match display {
                Some(d) => Some(d@),
                None => None,
            },
        ),
{
    let mut list: Vec<String> = Vec::new();
    if let Some(d) = display {
        if d.unicode_len() > 0 {
            list.push(d.to_owned());
            if !contains_text(d, ".") {
                let mut s = d.to_owned();
                s.append(".0");
                list.push(s);
            }
        }
    }
    if list.len() == 0 {
        list.push(":0".to_owned());
    }
    assert(views(list@) =~= x11grab_displays_spec(
        match display {
            Some(d) => Some(d@),
            None => None,
        },
    ));
    list
}

} // verus!
