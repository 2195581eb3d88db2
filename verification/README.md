# clipper

A desktop editor that cuts 9:16 vertical clips (1080x1920 H.264/AAC MP4) out of
landscape videos with ffmpeg. The decision logic is a Verus-verified library;
the window, the dialogs, the ffmpeg child processes and all floating-point time
handling live in the application around it.

- `src/crop.rs` — the crop window in source pixels: the largest centred 9:16
  default window, fitting into the frame (scaling down with the aspect kept),
  dragging; laws on staying inside the frame and keeping the aspect.
- `src/preview.rs` — preview frame size (fixed width, aspect kept, even height).
- `src/naming.rs` — `short_NNN.mp4` output names: reading numbers back from a
  directory listing, choosing the next free one.
- `src/command.rs` — ffprobe/ffmpeg program choice and argument lists for
  probing, frame extraction, playback streaming and export.
- `src/probe.rs` — choosing the video and audio streams of an ffprobe report.
- `src/progress.rs` — reading ffmpeg's `-progress` lines.
- `src/batch.rs` — the clip list and the batch-export state machine, with laws
  on exporting every clip in order, cancelling and the progress position.
- `src/frame.rs` — decoding extracted preview frames with the `image` crate
  and building playback frames from raw RGBA bytes.
- `src/playback.rs` — how one poll of the preview channel changes the notice
  and the playing state.
- `src/timeline.rs`, `src/text.rs` — time labels, decimal text and `u32` parsing.
- `app/` — the eframe application that drives the library.
