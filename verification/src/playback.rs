use vstd::prelude::*;
use crate::command::opt_view;
use crate::text::owned;

verus! {

/// What the preview channel delivered on one poll.
#[derive(Debug, PartialEq, Eq)]
pub enum PreviewEvent {
    /// A frame arrived, with ffmpeg's first diagnostic line if it printed one.
    Frame(Option<String>),
    /// The producer said no more frames are coming.
    Done,
    /// Nothing has arrived yet.
    Empty,
    /// The producer went away without saying it was done.
    Disconnected,
}

/// The preview state after a poll: the notice shown, whether playback is
/// running, and whether to keep listening on the channel.
#[derive(Debug, PartialEq, Eq)]
pub struct PreviewStep {
    pub error: Option<String>,
    pub playing: bool,
    pub keep_listening: bool,
}

/// `playback ended`, the notice for a stream that stopped without a reason.
pub open spec fn playback_ended_text() -> Seq<char> {
    "playback ended"@
}

/// How one poll of the preview channel changes the notice and the playing
/// flag: a frame with a diagnostic shows it; a finished stream stops
/// playback; a lost stream stops playback and keeps the current notice, or
/// says that playback ended when there is none.
pub fn poll_frame_step(error: Option<String>, playing: bool, event: PreviewEvent) -> (r:
    PreviewStep)
    ensures
        match event {
            PreviewEvent::Frame(msg) => {
                &&& opt_view(r.error) == (if msg is Some {
                    opt_view(msg)
                } else {
                    opt_view(error)
                })
                &&& r.playing == playing
                &&& r.keep_listening
            },
            PreviewEvent::Done => {
                &&& opt_view(r.error) == opt_view(error)
                &&& !r.playing
                &&& !r.keep_listening
            },
            PreviewEvent::Empty => {
                &&& opt_view(r.error) == opt_view(error)
                &&& r.playing == playing
                &&& r.keep_listening
            },
            PreviewEvent::Disconnected => {
                &&& opt_view(r.error) == Some(
                    if error is Some {
                        error->Some_0@
                    } else {
                        playback_ended_text()
                    },
                )
                &&& !r.playing
                &&& !r.keep_listening
            },
        },
{
    match event {
        PreviewEvent::Frame(msg) => {
            let error = match msg {
                Some(m) => Some(m),
                None => error,
            };
            PreviewStep { error, playing, keep_listening: true }
        },
        PreviewEvent::Done => PreviewStep { error, playing: false, keep_listening: false },
        PreviewEvent::Empty => PreviewStep { error, playing, keep_listening: true },
        PreviewEvent::Disconnected => {
            let error = match error {
                Some(e) => Some(e),
                None => Some(owned("playback ended")),
            };
            PreviewStep { error, playing: false, keep_listening: false }
        },
    }
}

} // verus!
