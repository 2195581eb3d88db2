use clipper::probe::{source_info, ProbeError, ProbeFormat, ProbeOutput, ProbeStream, SourceInfo};

fn stream(kind: &str, codec: Option<&str>) -> ProbeStream {
    ProbeStream {
        codec_type: kind.to_string(),
        codec_name: codec.map(|c| c.to_string()),
        width: None,
        height: None,
        r_frame_rate: None,
        channels: None,
    }
}

fn format(name: Option<&str>, duration: Option<&str>) -> ProbeFormat {
    ProbeFormat {
        format_name: name.map(|s| s.to_string()),
        duration: duration.map(|s| s.to_string()),
    }
}

#[test]
fn video_and_audio_source() {
    let mut v = stream("video", Some("h264"));
    v.width = Some(1920);
    v.height = Some(1080);
    v.r_frame_rate = Some("30000/1001".to_string());
    let mut a = stream("audio", Some("aac"));
    a.channels = Some(2);
    let report = ProbeOutput {
        format: format(Some("mov,mp4,m4a,3gp,3g2,mj2"), Some("2712.000000")),
        streams: vec![v, a],
    };
    let info = source_info(&report).unwrap();
    assert_eq!(
        info,
        SourceInfo {
            container: "mov,mp4,m4a,3gp,3g2,mj2".to_string(),
            video_codec: "h264".to_string(),
            width: 1920,
            height: 1080,
            frame_rate: Some("30000/1001".to_string()),
            duration: Some("2712.000000".to_string()),
            audio_codec: Some("aac".to_string()),
            audio_channels: Some(2),
        }
    );
}

#[test]
fn video_only_source_has_no_audio() {
    let report = ProbeOutput {
        format: format(None, None),
        streams: vec![stream("data", None), stream("video", None)],
    };
    let info = source_info(&report).unwrap();
    assert_eq!(info.container, "");
    assert_eq!(info.video_codec, "");
    assert_eq!((info.width, info.height), (0, 0));
    assert_eq!(info.frame_rate, None);
    assert_eq!(info.duration, None);
    assert_eq!(info.audio_codec, None);
    assert_eq!(info.audio_channels, None);
}

#[test]
fn first_stream_of_each_kind_wins() {
    let mut a1 = stream("audio", Some("opus"));
    a1.channels = Some(6);
    let a2 = stream("audio", Some("aac"));
    let mut v1 = stream("video", Some("vp9"));
    v1.width = Some(640);
    let v2 = stream("video", Some("h264"));
    let report = ProbeOutput { format: format(Some("webm"), None), streams: vec![a1, v1, a2, v2] };
    let info = source_info(&report).unwrap();
    assert_eq!(info.video_codec, "vp9");
    assert_eq!(info.width, 640);
    assert_eq!(info.audio_codec, Some("opus".to_string()));
    assert_eq!(info.audio_channels, Some(6));
}

#[test]
fn audio_only_file_is_refused() {
    let report = ProbeOutput {
        format: format(Some("mp3"), Some("10.0")),
        streams: vec![stream("audio", Some("mp3"))],
    };
    assert_eq!(source_info(&report), Err(ProbeError::NoVideoStream));
    let empty = ProbeOutput { format: format(None, None), streams: vec![] };
    assert_eq!(source_info(&empty), Err(ProbeError::NoVideoStream));
}
