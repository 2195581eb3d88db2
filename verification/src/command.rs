use vstd::prelude::*;
use crate::crop::CropRect;
use crate::preview::{preview_height, preview_size, PREVIEW_WIDTH};
use crate::text::{decimal, owned, push_decimal, push_signed, signed_decimal, views};

verus! {

/// The character view of an optional string.
pub open spec fn opt_view(o: Option<String>) -> Option<Seq<char>> {
    match o {
        Some(s) => Some(s@),
        None => None,
    }
}

/// The program to run for a tool: the path given in the environment if there
/// is one, else the tool's bare name (with `.exe` on Windows).
pub open spec fn tool_program(env_path: Option<Seq<char>>, name: Seq<char>) -> Seq<char> {
    match env_path {
        Some(p) => p,
        None => name,
    }
}

/// Program used to probe sources: `env_path` (the value of `CLIPPER_FFPROBE`,
/// when set) or `ffprobe` / `ffprobe.exe`.
pub fn find_ffprobe(env_path: Option<String>, windows: bool) -> (r: String)
    ensures
        r@ == tool_program(
            opt_view(env_path),
            if windows { "ffprobe.exe"@ } else { "ffprobe"@ },
        ),
{
    match env_path {
        Some(p) => p,
        None => if windows { owned("ffprobe.exe") } else { owned("ffprobe") },
    }
}

/// Program used to decode and encode: `env_path` (the value of
/// `CLIPPER_FFMPEG`, when set) or `ffmpeg` / `ffmpeg.exe`.
pub fn find_ffmpeg(env_path: Option<String>, windows: bool) -> (r: String)
    ensures
        r@ == tool_program(
            opt_view(env_path),
            if windows { "ffmpeg.exe"@ } else { "ffmpeg"@ },
        ),
{
    match env_path {
        Some(p) => p,
        None => if windows { owned("ffmpeg.exe") } else { owned("ffmpeg") },
    }
}

/// Options that make ffprobe print the container and all streams as JSON,
/// with only errors on standard error (so that a failure can be reported);
/// the source path follows them on the command line.
pub fn probe_options() -> (r: Vec<String>)
    ensures
        views(r@) == seq!["-v"@, "error"@, "-print_format"@, "json"@, "-show_format"@, "-show_streams"@],
{
    let mut r: Vec<String> = Vec::new();
    r.push(owned("-v"));
    r.push(owned("error"));
    r.push(owned("-print_format"));
    r.push(owned("json"));
    r.push(owned("-show_format"));
    r.push(owned("-show_streams"));
    assert(views(r@) =~= seq!["-v"@, "error"@, "-print_format"@, "json"@, "-show_format"@, "-show_streams"@]);
    r
}

/// The scale filter `scale=W:H` of the preview pipeline.
pub open spec fn scale_filter_text(source_w: int, source_h: int) -> Seq<char> {
    "scale="@ + decimal(PREVIEW_WIDTH as nat) + ":"@ + decimal(
        preview_height(source_w, source_h) as nat,
    )
}

/// The filter that scales a `source_w` x `source_h` source down to the preview size.
pub fn preview_scale_filter(source_w: u32, source_h: u32) -> (r: String)
    ensures
        r@ == scale_filter_text(source_w as int, source_h as int),
{
    let (pw, ph) = preview_size(source_w, source_h);
    let mut s = owned("scale=");
    push_decimal(&mut s, pw as u64);
    s.append(":");
    push_decimal(&mut s, ph as u64);
    s
}

/// Arguments that extract one PNG frame at `seek` seconds of `input`, scaled
/// to the preview size, onto standard output.
pub fn frame_args(seek: String, input: String, source_w: u32, source_h: u32) -> (r: Vec<String>)
    ensures
        views(r@) == seq![
            "-v"@, "error"@, "-ss"@, seek@, "-i"@, input@, "-frames:v"@, "1"@, "-vf"@,
            scale_filter_text(source_w as int, source_h as int), "-f"@, "image2pipe"@,
            "-vcodec"@, "png"@, "-"@,
        ],
{
    let ghost seek_v = seek@;
    let ghost input_v = input@;
    let mut r: Vec<String> = Vec::new();
    r.push(owned("-v"));
    r.push(owned("error"));
    r.push(owned("-ss"));
    r.push(seek);
    r.push(owned("-i"));
    r.push(input);
    r.push(owned("-frames:v"));
    r.push(owned("1"));
    r.push(owned("-vf"));
    r.push(preview_scale_filter(source_w, source_h));
    r.push(owned("-f"));
    r.push(owned("image2pipe"));
    r.push(owned("-vcodec"));
    r.push(owned("png"));
    r.push(owned("-"));
    assert(views(r@) =~= seq![
        "-v"@, "error"@, "-ss"@, seek_v, "-i"@, input_v, "-frames:v"@, "1"@, "-vf"@,
        scale_filter_text(source_w as int, source_h as int), "-f"@, "image2pipe"@,
        "-vcodec"@, "png"@, "-"@,
    ]);
    r
}

/// Arguments that decode `input` from `from` to `to` seconds as raw RGBA
/// frames of the preview size onto standard output.
pub fn stream_args(from: String, to: String, input: String, source_w: u32, source_h: u32) -> (r:
    Vec<String>)
    ensures
        views(r@) == seq![
            "-v"@, "error"@, "-ss"@, from@, "-to"@, to@, "-i"@, input@, "-vf"@,
            scale_filter_text(source_w as int, source_h as int), "-f"@, "rawvideo"@,
            "-pix_fmt"@, "rgba"@, "-"@,
        ],
{
    let ghost from_v = from@;
    let ghost to_v = to@;
    let ghost input_v = input@;
    let mut r: Vec<String> = Vec::new();
    r.push(owned("-v"));
    r.push(owned("error"));
    r.push(owned("-ss"));
    r.push(from);
    r.push(owned("-to"));
    r.push(to);
    r.push(owned("-i"));
    r.push(input);
    r.push(owned("-vf"));
    r.push(preview_scale_filter(source_w, source_h));
    r.push(owned("-f"));
    r.push(owned("rawvideo"));
    r.push(owned("-pix_fmt"));
    r.push(owned("rgba"));
    r.push(owned("-"));
    assert(views(r@) =~= seq![
        "-v"@, "error"@, "-ss"@, from_v, "-to"@, to_v, "-i"@, input_v, "-vf"@,
        scale_filter_text(source_w as int, source_h as int), "-f"@, "rawvideo"@,
        "-pix_fmt"@, "rgba"@, "-"@,
    ]);
    r
}

/// The export filter graph: crop the window out of the source, scale it to
/// 1080x1920 with square pixels, in yuv420p.
pub open spec fn crop_filter_text(crop: CropRect) -> Seq<char> {
    "crop="@ + decimal(crop.w as nat) + ":"@ + decimal(crop.h as nat) + ":"@ + signed_decimal(
        crop.x as int,
    ) + ":"@ + signed_decimal(crop.y as int) + ",scale=1080:1920,setsar=1,format=yuv420p"@
}

/// The export filter graph for `crop`.
pub fn crop_filter(crop: CropRect) -> (r: String)
    ensures
        r@ == crop_filter_text(crop),
{
    let mut s = owned("crop=");
    push_decimal(&mut s, crop.w as u64);
    s.append(":");
    push_decimal(&mut s, crop.h as u64);
    s.append(":");
    push_signed(&mut s, crop.x);
    s.append(":");
    push_signed(&mut s, crop.y);
    s.append(",scale=1080:1920,setsar=1,format=yuv420p");
    s
}

/// The export options before the output path: overwrite, report progress on
/// standard output, cut `from`..`to` of `input`, crop and scale, H.264 at
/// CRF 23, then AAC at 128 kb/s when the source has audio (else no audio
/// stream), and a streamable MP4.
pub open spec fn export_args_text(
    from: Seq<char>,
    to: Seq<char>,
    input: Seq<char>,
    crop: CropRect,
    has_audio: bool,
) -> Seq<Seq<char>> {
    seq![
        "-y"@, "-v"@, "error"@, "-progress"@, "pipe:1"@, "-ss"@, from, "-to"@, to, "-i"@, input,
        "-vf"@, crop_filter_text(crop), "-c:v"@, "libx264"@, "-preset"@, "medium"@, "-crf"@,
        "23"@,
    ] + (if has_audio {
        seq!["-c:a"@, "aac"@, "-b:a"@, "128k"@]
    } else {
        seq!["-an"@]
    }) + seq!["-movflags"@, "+faststart"@]
}

/// Arguments of an export run; the output path follows them.
pub fn export_args(from: String, to: String, input: String, crop: CropRect, has_audio: bool) -> (r:
    Vec<String>)
    ensures
        views(r@) == export_args_text(from@, to@, input@, crop, has_audio),
{
    let ghost from_v = from@;
    let ghost to_v = to@;
    let ghost input_v = input@;
    let mut r: Vec<String> = Vec::new();
    r.push(owned("-y"));
    r.push(owned("-v"));
    r.push(owned("error"));
    r.push(owned("-progress"));
    r.push(owned("pipe:1"));
    r.push(owned("-ss"));
    r.push(from);
    r.push(owned("-to"));
    r.push(to);
    r.push(owned("-i"));
    r.push(input);
    r.push(owned("-vf"));
    r.push(crop_filter(crop));
    r.push(owned("-c:v"));
    r.push(owned("libx264"));
    r.push(owned("-preset"));
    r.push(owned("medium"));
    r.push(owned("-crf"));
    r.push(owned("23"));
    if has_audio {
        r.push(owned("-c:a"));
        r.push(owned("aac"));
        r.push(owned("-b:a"));
        r.push(owned("128k"));
    } else {
        r.push(owned("-an"));
    }
    r.push(owned("-movflags"));
    r.push(owned("+faststart"));
    assert(views(r@) =~= export_args_text(from_v, to_v, input_v, crop, has_audio));
    r
}

} // verus!
