use clipper::playback::{poll_frame_step, PreviewEvent, PreviewStep};

fn some(s: &str) -> Option<String> {
    Some(s.to_string())
}

#[test]
fn frame_with_diagnostic_shows_it() {
    assert_eq!(
        poll_frame_step(some("old"), true, PreviewEvent::Frame(some("ffmpeg: bad input"))),
        PreviewStep { error: some("ffmpeg: bad input"), playing: true, keep_listening: true }
    );
    assert_eq!(
        poll_frame_step(some("old"), true, PreviewEvent::Frame(None)),
        PreviewStep { error: some("old"), playing: true, keep_listening: true }
    );
}

#[test]
fn done_and_empty() {
    assert_eq!(
        poll_frame_step(None, true, PreviewEvent::Done),
        PreviewStep { error: None, playing: false, keep_listening: false }
    );
    assert_eq!(
        poll_frame_step(None, false, PreviewEvent::Empty),
        PreviewStep { error: None, playing: false, keep_listening: true }
    );
}

#[test]
fn lost_stream_reports_playback_ended() {
    assert_eq!(
        poll_frame_step(None, true, PreviewEvent::Disconnected),
        PreviewStep { error: some("playback ended"), playing: false, keep_listening: false }
    );
    assert_eq!(
        poll_frame_step(some("ffmpeg: x"), true, PreviewEvent::Disconnected),
        PreviewStep { error: some("ffmpeg: x"), playing: false, keep_listening: false }
    );
}
