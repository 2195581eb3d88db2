use clipper::batch::{
    position_label, remove_clip, saved_message, selection_after_removal, BatchRefusal,
    ExportBatch, NextClip, StartBatch,
};

#[test]
fn batch_of_three_exports_each_clip_in_order() {
    let clips = vec![(30u32, 60u32), (134, 164), (902, 932)];
    let mut b = ExportBatch::new();
    assert!(!b.is_running());
    assert_eq!(b.start(&clips, true, true, true), StartBatch::Started(NextClip::Spawn((30, 60))));
    b.export_started();
    assert_eq!(b.position(), Some((1, 3)));
    assert_eq!(b.export_finished(true), NextClip::Spawn((134, 164)));
    b.export_started();
    assert_eq!(b.position(), Some((2, 3)));
    assert_eq!(b.export_finished(true), NextClip::Spawn((902, 932)));
    b.export_started();
    assert_eq!(b.position(), Some((3, 3)));
    assert_eq!(b.export_finished(true), NextClip::Finished(3));
    assert!(!b.is_running());
    assert!(!b.in_progress());
    assert_eq!(b.position(), None);
    assert_eq!(saved_message(3), "Saved 3 clips");
    // the clip list itself is untouched
    assert_eq!(clips.len(), 3);
}

#[test]
fn progress_shows_second_of_five() {
    let clips = vec![1u8, 2, 3, 4, 5];
    let mut b = ExportBatch::new();
    b.start(&clips, true, true, true);
    b.export_started();
    assert_eq!(b.export_finished(true), NextClip::Spawn(2));
    b.export_started();
    let (cur, total) = b.position().unwrap();
    assert_eq!(position_label(cur, total), "Exporting clip 2 / 5");
}

#[test]
fn position_between_exports_shows_next_number() {
    let clips = vec![1u8, 2];
    let mut b = ExportBatch::new();
    b.start(&clips, true, true, true);
    assert_eq!(b.export_index(), 2);
    assert_eq!(b.last_export_count(), 2);
    assert_eq!(b.position(), Some((2, 2)));
}

#[test]
fn start_is_refused_or_ignored() {
    let mut b: ExportBatch<u8> = ExportBatch::new();
    assert_eq!(b.start(&vec![], true, true, true), StartBatch::Ignored);
    let clips = vec![1u8];
    assert_eq!(b.start(&clips, false, true, true), StartBatch::Refused(BatchRefusal::NoSource));
    assert_eq!(b.start(&clips, true, false, true), StartBatch::Refused(BatchRefusal::InvalidClip));
    assert_eq!(b.start(&clips, true, true, false), StartBatch::NeedOutputDir);
    assert!(!b.is_running());
    assert_eq!(BatchRefusal::NoSource.message(), "Open a video first");
    assert_eq!(
        BatchRefusal::InvalidClip.message(),
        "Cannot start batch: every clip must have IN < OUT"
    );
    // a running batch ignores a second request
    assert!(matches!(b.start(&clips, true, true, true), StartBatch::Started(NextClip::Spawn(1))));
    assert_eq!(b.start(&clips, true, true, true), StartBatch::Ignored);
}

#[test]
fn cancel_drops_batch_and_retry_starts_over() {
    let clips = vec![10u16, 20, 30, 40, 50];
    let mut b = ExportBatch::new();
    b.start(&clips, true, true, true);
    b.export_started();
    b.export_finished(true);
    b.export_started();
    b.cancel();
    assert!(!b.is_running());
    assert!(!b.in_progress());
    assert_eq!(b.export_index(), 0);
    assert_eq!(clips, vec![10, 20, 30, 40, 50]);
    assert_eq!(b.start(&clips, true, true, true), StartBatch::Started(NextClip::Spawn(10)));
}

#[test]
fn source_gone_drops_batch() {
    let clips = vec![1u8, 2];
    let mut b = ExportBatch::new();
    b.start(&clips, true, true, true);
    b.export_started();
    assert_eq!(b.export_finished(false), NextClip::SourceGone);
    assert!(!b.is_running());
    assert_eq!(b.export_index(), 0);
}

#[test]
fn clip_taken_while_export_runs_is_skipped() {
    let clips = vec![1u8, 2, 3];
    let mut b = ExportBatch::new();
    b.start(&clips, true, true, true);
    b.export_started();
    assert_eq!(b.spawn_next(true), NextClip::Skipped);
    assert_eq!(b.export_finished(true), NextClip::Spawn(3));
    b.export_started();
    assert_eq!(b.export_finished(true), NextClip::Finished(3));
}

#[test]
fn lost_export_keeps_batch() {
    let clips = vec![1u8, 2];
    let mut b = ExportBatch::new();
    b.start(&clips, true, true, true);
    b.export_started();
    b.export_lost();
    assert!(!b.in_progress());
    assert!(b.is_running());
    assert_eq!(b.export_finished(true), NextClip::Spawn(2));
}

#[test]
fn idle_batch_has_nothing_to_do() {
    let mut b: ExportBatch<u8> = ExportBatch::new();
    assert_eq!(b.spawn_next(true), NextClip::Idle);
    assert_eq!(b.export_finished(true), NextClip::Idle);
}

#[test]
fn removing_middle_clip_keeps_first_and_third() {
    let mut clips = vec![(30u32, 60u32), (134, 164), (902, 932)];
    remove_clip(&mut clips, 1);
    assert_eq!(clips, vec![(30, 60), (902, 932)]);
    remove_clip(&mut clips, 5);
    assert_eq!(clips, vec![(30, 60), (902, 932)]);
}

#[test]
fn selection_follows_removed_clip() {
    assert_eq!(selection_after_removal(Some(1), 1), None);
    assert_eq!(selection_after_removal(Some(2), 1), Some(1));
    assert_eq!(selection_after_removal(Some(0), 1), Some(0));
    assert_eq!(selection_after_removal(None, 0), None);
}
