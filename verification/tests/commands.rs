use clipper::command::{
    crop_filter, export_args, find_ffmpeg, find_ffprobe, frame_args, preview_scale_filter,
    probe_options, stream_args,
};
use clipper::progress::{classify_progress_line, ProgressLine};
use clipper::timeline::timecode_label;
use clipper::CropRect;

fn s(v: &[&str]) -> Vec<String> {
    v.iter().map(|x| x.to_string()).collect()
}

#[test]
fn tool_programs_default_and_override() {
    assert_eq!(find_ffprobe(None, false), "ffprobe");
    assert_eq!(find_ffprobe(None, true), "ffprobe.exe");
    assert_eq!(find_ffmpeg(None, false), "ffmpeg");
    assert_eq!(find_ffmpeg(None, true), "ffmpeg.exe");
    assert_eq!(find_ffmpeg(Some("/opt/ff/ffmpeg".to_string()), true), "/opt/ff/ffmpeg");
    assert_eq!(find_ffprobe(Some("probe".to_string()), false), "probe");
}

#[test]
fn probe_options_print_json() {
    assert_eq!(
        probe_options(),
        s(&["-v", "error", "-print_format", "json", "-show_format", "-show_streams"])
    );
}

#[test]
fn crop_filter_scales_to_shorts_size() {
    let c = CropRect { x: 656, y: 0, w: 608, h: 1080 };
    assert_eq!(crop_filter(c), "crop=608:1080:656:0,scale=1080:1920,setsar=1,format=yuv420p");
    let n = CropRect { x: -5, y: i32::MIN, w: 1, h: u32::MAX };
    assert_eq!(
        crop_filter(n),
        "crop=1:4294967295:-5:-2147483648,scale=1080:1920,setsar=1,format=yuv420p"
    );
}

#[test]
fn export_with_audio() {
    let c = CropRect { x: 656, y: 0, w: 608, h: 1080 };
    let args = export_args("30.000".into(), "45.000".into(), "/v/in.mp4".into(), c, true);
    assert_eq!(
        args,
        s(&[
            "-y", "-v", "error", "-progress", "pipe:1", "-ss", "30.000", "-to", "45.000", "-i",
            "/v/in.mp4", "-vf", "crop=608:1080:656:0,scale=1080:1920,setsar=1,format=yuv420p",
            "-c:v", "libx264", "-preset", "medium", "-crf", "23", "-c:a", "aac", "-b:a", "128k",
            "-movflags", "+faststart",
        ])
    );
}

#[test]
fn export_without_audio_drops_audio_stream() {
    let c = CropRect { x: 0, y: 0, w: 405, h: 720 };
    let args = export_args("0.000".into(), "1.500".into(), "a.mov".into(), c, false);
    assert!(args.contains(&"-an".to_string()));
    assert!(!args.contains(&"-c:a".to_string()));
    assert_eq!(args[args.len() - 2..], s(&["-movflags", "+faststart"])[..]);
    assert_eq!(args.len(), 22);
}

#[test]
fn frame_and_stream_arguments() {
    assert_eq!(preview_scale_filter(1920, 1080), "scale=720:404");
    assert_eq!(
        frame_args("12.345".into(), "in.mkv".into(), 1920, 1080),
        s(&[
            "-v", "error", "-ss", "12.345", "-i", "in.mkv", "-frames:v", "1", "-vf",
            "scale=720:404", "-f", "image2pipe", "-vcodec", "png", "-",
        ])
    );
    assert_eq!(
        stream_args("1.000".into(), "2.000".into(), "in.mkv".into(), 1080, 1920),
        s(&[
            "-v", "error", "-ss", "1.000", "-to", "2.000", "-i", "in.mkv", "-vf",
            "scale=720:1280", "-f", "rawvideo", "-pix_fmt", "rgba", "-",
        ])
    );
}

#[test]
fn progress_lines() {
    assert_eq!(
        classify_progress_line("out_time_ms=1500000"),
        ProgressLine::OutTime("1500000".to_string())
    );
    assert_eq!(classify_progress_line("out_time_ms="), ProgressLine::OutTime(String::new()));
    assert_eq!(classify_progress_line("progress=end"), ProgressLine::End);
    assert_eq!(classify_progress_line("progress=end\r"), ProgressLine::End);
    assert_eq!(classify_progress_line("progress=continue"), ProgressLine::Other);
    assert_eq!(classify_progress_line("out_time=00:00:01.5"), ProgressLine::Other);
    assert_eq!(classify_progress_line(""), ProgressLine::Other);
}

#[test]
fn timecode_labels() {
    assert_eq!(timecode_label(0), "0:00:00");
    assert_eq!(timecode_label(59), "0:00:59");
    assert_eq!(timecode_label(3725), "1:02:05");
    assert_eq!(timecode_label(45 * 60 + 12), "0:45:12");
    assert_eq!(timecode_label(36000), "10:00:00");
}
