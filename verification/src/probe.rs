use vstd::prelude::*;
use crate::command::opt_view;
use crate::text::owned;

verus! {

/// The `format` object of ffprobe's JSON report.
#[derive(Debug, PartialEq, Eq)]
pub struct ProbeFormat {
    pub format_name: Option<String>,
    pub duration: Option<String>,
}

/// One entry of the `streams` array of ffprobe's JSON report.
#[derive(Debug, PartialEq, Eq)]
pub struct ProbeStream {
    pub codec_type: String,
    pub codec_name: Option<String>,
    pub width: Option<u32>,
    pub height: Option<u32>,
    pub r_frame_rate: Option<String>,
    pub channels: Option<u32>,
}

/// ffprobe's JSON report: container and streams.
#[derive(Debug, PartialEq, Eq)]
pub struct ProbeOutput {
    pub format: ProbeFormat,
    pub streams: Vec<ProbeStream>,
}

/// What the editor keeps of a probed source. The frame rate and duration are
/// left as ffprobe's text (a rational such as `30000/1001`, and seconds).
#[derive(Debug, PartialEq, Eq)]
pub struct SourceInfo {
    pub container: String,
    pub video_codec: String,
    pub width: u32,
    pub height: u32,
    pub frame_rate: Option<String>,
    pub duration: Option<String>,
    pub audio_codec: Option<String>,
    pub audio_channels: Option<u32>,
}

/// Why a probed file cannot be edited.
#[derive(Clone, Copy, Debug, PartialEq, Eq)]
pub enum ProbeError {
    /// The file has no video stream.
    NoVideoStream,
}

/// Index of the first stream whose `codec_type` is `kind`; `streams.len()`
/// when there is none.
pub open spec fn first_of_kind(streams: Seq<ProbeStream>, kind: Seq<char>) -> nat
    decreases streams.len(),
{
    if streams.len() == 0 {
        0
    } else if streams[0].codec_type@ == kind {
        0
    } else {
        1 + first_of_kind(streams.drop_first(), kind)
    }
}

/// A string's view, or the empty text for `None`.
pub open spec fn view_or_empty(o: Option<String>) -> Seq<char> {
    match o {
        Some(s) => s@,
        None => Seq::empty(),
    }
}

/// The first stream of a kind is the earliest one: it has that kind and no
/// earlier stream has.
pub proof fn lemma_first_of_kind(streams: Seq<ProbeStream>, kind: Seq<char>)
    ensures
        first_of_kind(streams, kind) <= streams.len(),
        first_of_kind(streams, kind) < streams.len() ==> streams[first_of_kind(
            streams,
            kind,
        ) as int].codec_type@ == kind,
        forall|j: int|
            0 <= j < first_of_kind(streams, kind) ==> #[trigger] streams[j].codec_type@ != kind,
    decreases streams.len(),
{
    if streams.len() > 0 && streams[0].codec_type@ != kind {
        let rest = streams.drop_first();
        lemma_first_of_kind(rest, kind);
        assert forall|j: int| 0 <= j < first_of_kind(streams, kind) implies #[trigger] streams[j].codec_type@
            != kind by {
            if j > 0 {
                assert(streams[j] == rest[j - 1]);
            }
        }
    }
}

fn clone_opt(o: &Option<String>) -> (r: Option<String>)
    ensures
        r == *o,
{
    match o {
        Some(s) => Some(s.clone()),
        None => None,
    }
}

/// Find the first stream of `kind`, returning its index or `streams.len()`.
fn find_stream(streams: &Vec<ProbeStream>, kind: &str) -> (i: usize)
    ensures
        i == first_of_kind(streams@, kind@),
{
    let k = owned(kind);
    let mut i: usize = 0;
    proof {
        lemma_first_of_kind(streams@, kind@);
    }
    while i < streams.len()
        invariant
            i <= streams@.len(),
            k@ == kind@,
            forall|j: int| 0 <= j < i ==> #[trigger] streams@[j].codec_type@ != kind@,
            first_of_kind(streams@, kind@) <= streams@.len(),
            first_of_kind(streams@, kind@) < streams@.len() ==> streams@[first_of_kind(
                streams@,
                kind@,
            ) as int].codec_type@ == kind@,
            forall|j: int|
                0 <= j < first_of_kind(streams@, kind@) ==> #[trigger] streams@[j].codec_type@
                    != kind@,
        decreases streams.len() - i,
    {
        if streams[i].codec_type == k {
            return i;
        }
        i = i + 1;
    }
    i
}

/// Read the editing metadata out of ffprobe's report: the first video stream
/// gives codec, size and frame rate (missing values become empty or `0`), the
/// first audio stream, if any, gives the audio codec and channel count, and
/// the format gives container name and duration. A report without a video
/// stream is refused.
pub fn source_info(report: &ProbeOutput) -> (r: Result<SourceInfo, ProbeError>)
    ensures
        ({
            let streams = report.streams@;
            let vi = first_of_kind(streams, "video"@);
            let ai = first_of_kind(streams, "audio"@);
            if vi >= streams.len() {
                r == Err::<SourceInfo, ProbeError>(ProbeError::NoVideoStream)
            } else {
                let v = streams[vi as int];
                &&& r is Ok
                &&& r->Ok_0.container@ == view_or_empty(report.format.format_name)
                &&& r->Ok_0.video_codec@ == view_or_empty(v.codec_name)
                &&& r->Ok_0.width == v.width.unwrap_or(0)
                &&& r->Ok_0.height == v.height.unwrap_or(0)
                &&& opt_view(r->Ok_0.frame_rate) == opt_view(v.r_frame_rate)
                &&& opt_view(r->Ok_0.duration) == opt_view(report.format.duration)
                &&& if ai < streams.len() {
                    &&& opt_view(r->Ok_0.audio_codec) == opt_view(streams[ai as int].codec_name)
                    &&& r->Ok_0.audio_channels == streams[ai as int].channels
                } else {
                    &&& r->Ok_0.audio_codec is None
                    &&& r->Ok_0.audio_channels is None
                }
            }
        }),
{
    let vi = find_stream(&report.streams, "video");
    if vi >= report.streams.len() {
        return Err(ProbeError::NoVideoStream);
    }
    let ai = find_stream(&report.streams, "audio");
    let video = &report.streams[vi];
    let container = match &report.format.format_name {
        Some(s) => s.clone(),
        None => String::new(),
    };
    let video_codec = match &video.codec_name {
        Some(s) => s.clone(),
        None => String::new(),
    };
    let (audio_codec, audio_channels) = if ai < report.streams.len() {
        (clone_opt(&report.streams[ai].codec_name), report.streams[ai].channels)
    } else {
        (None, None)
    };
    Ok(
        SourceInfo {
            container,
            video_codec,
            width: match video.width {
                Some(w) => w,
                None => 0,
            },
            height: match video.height {
                Some(h) => h,
                None => 0,
            },
            frame_rate: clone_opt(&video.r_frame_rate),
            duration: clone_opt(&report.format.duration),
            audio_codec,
            audio_channels,
        },
    )
}

} // verus!
