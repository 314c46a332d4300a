use lrcphile::decision::{
    bucket_of, classify_status, plan_save, should_fetch, track_outcome, FetchResult, SavePlan,
    SidecarState, StatusClass, TrackOutcome,
};
use lrcphile::marker::is_instrumental_content;
use lrcphile::record::LyricsRecord;
use lrcphile::stats::{tally, Bucket, ProcessingStats};

fn bare() -> SidecarState {
    SidecarState { instrumental_marked: false, lrc_exists: false, txt_exists: false }
}

fn record(
    instrumental: bool,
    plain: Option<&str>,
    synced: Option<&str>,
) -> LyricsRecord {
    LyricsRecord {
        track_name: "Hello".to_string(),
        artist_name: "World".to_string(),
        album_name: "Album".to_string(),
        duration_secs: 61,
        instrumental,
        plain_lyrics: plain.map(String::from),
        synced_lyrics: synced.map(String::from),
    }
}

#[test]
fn bare_track_always_fetches() {
    assert!(should_fetch(&bare(), false));
    assert!(should_fetch(&bare(), true));
}

#[test]
fn existing_sidecar_fetches_only_under_override() {
    let s = SidecarState { instrumental_marked: false, lrc_exists: true, txt_exists: false };
    assert!(!should_fetch(&s, false));
    assert!(should_fetch(&s, true));
    let t = SidecarState { instrumental_marked: false, lrc_exists: false, txt_exists: true };
    assert!(!should_fetch(&t, false));
    assert!(should_fetch(&t, true));
}

#[test]
fn marker_beats_override() {
    let s = SidecarState { instrumental_marked: true, lrc_exists: true, txt_exists: false };
    assert!(!should_fetch(&s, false));
    assert!(!should_fetch(&s, true));
    assert_eq!(
        track_outcome(&s, true, &FetchResult::NotFound, true),
        TrackOutcome::Skipped
    );
}

#[test]
fn status_classification() {
    assert_eq!(classify_status(200), StatusClass::Success);
    assert_eq!(classify_status(204), StatusClass::Success);
    assert_eq!(classify_status(404), StatusClass::NotFound);
    assert_eq!(classify_status(500), StatusClass::Error);
    assert_eq!(classify_status(301), StatusClass::Error);
}

#[test]
fn instrumental_record_plans_marker_file() {
    let rec = record(true, None, None);
    match plan_save(&rec) {
        SavePlan::Instrumental { content } => {
            assert_eq!(
                content,
                "[ti: Hello]\n[ar: World]\n[al: Album]\n[length: 01:01]\n[by: lrcphile]\n[instrumental]"
            );
            assert!(is_instrumental_content(&content));
        }
        other => panic!("unexpected plan: {:?}", other),
    }
}

#[test]
fn synced_lyrics_preferred_over_plain() {
    let rec = record(false, Some("plain words"), Some("[00:01.00]Hello"));
    match plan_save(&rec) {
        SavePlan::Synced { content } => {
            assert_eq!(
                content,
                "[ti: Hello]\n[ar: World]\n[al: Album]\n[length: 01:01]\n[by: lrcphile]\n[00:01.00]Hello"
            );
        }
        other => panic!("unexpected plan: {:?}", other),
    }
}

#[test]
fn plain_lyrics_written_when_no_synced() {
    let rec = record(false, Some("plain words"), None);
    match plan_save(&rec) {
        SavePlan::Plain { content } => {
            assert!(content.ends_with("\nplain words"));
        }
        other => panic!("unexpected plan: {:?}", other),
    }
}

#[test]
fn no_lyrics_at_all_is_nothing_to_save() {
    let rec = record(false, None, None);
    match plan_save(&rec) {
        SavePlan::NoLyrics => {}
        other => panic!("unexpected plan: {:?}", other),
    }
    assert_eq!(
        track_outcome(&bare(), false, &FetchResult::Found(rec), true),
        TrackOutcome::NoUsableLyrics
    );
}

#[test]
fn lookup_miss_is_a_failure_without_write() {
    let o = track_outcome(&bare(), false, &FetchResult::NotFound, true);
    assert_eq!(o, TrackOutcome::NotFound);
    assert_eq!(bucket_of(&o), Bucket::Failed);
}

#[test]
fn transport_error_is_a_failure() {
    let o = track_outcome(&bare(), false, &FetchResult::TransportError(Some(500)), true);
    assert_eq!(o, TrackOutcome::FetchFailed);
    assert_eq!(bucket_of(&o), Bucket::Failed);
}

#[test]
fn fresh_instrumental_track_succeeds() {
    let rec = record(true, None, None);
    let o = track_outcome(&bare(), false, &FetchResult::Found(rec), true);
    assert_eq!(o, TrackOutcome::SavedInstrumental);
    assert_eq!(bucket_of(&o), Bucket::Success);
}

#[test]
fn second_run_skips_after_success() {
    let rec = record(false, None, Some("[00:01.00]Hello"));
    let o = track_outcome(&bare(), false, &FetchResult::Found(rec.clone()), true);
    assert_eq!(o, TrackOutcome::SavedSynced);
    // The written lrc sidecar now exists; rerun without override.
    let after = SidecarState {
        instrumental_marked: false,
        lrc_exists: true,
        txt_exists: false,
    };
    let o2 = track_outcome(&after, false, &FetchResult::Found(rec), true);
    assert_eq!(o2, TrackOutcome::Skipped);
}

#[test]
fn failed_write_is_a_failure() {
    let rec = record(true, None, None);
    let o = track_outcome(&bare(), false, &FetchResult::Found(rec), false);
    assert_eq!(o, TrackOutcome::WriteFailed);
    assert_eq!(bucket_of(&o), Bucket::Failed);
}

#[test]
fn stats_count_each_bucket_once() {
    let mut s = ProcessingStats::new(3);
    s.record(Bucket::Success);
    s.record(Bucket::Failed);
    s.record(Bucket::Skipped);
    assert_eq!(s.success, 1);
    assert_eq!(s.failed, 1);
    assert_eq!(s.skipped, 1);
    assert_eq!(s.total, 3);
    assert_eq!(s.success + s.failed + s.skipped, s.total);
}

#[test]
fn increments_touch_one_counter() {
    let mut s = ProcessingStats::new(5);
    s.increment_success();
    s.increment_success();
    s.increment_failed();
    s.increment_skipped();
    assert_eq!((s.success, s.failed, s.skipped, s.total), (2, 1, 1, 5));
}

#[test]
fn tally_of_empty_run_is_all_zero() {
    let s = tally(&Vec::new());
    assert_eq!((s.success, s.failed, s.skipped, s.total), (0, 0, 0, 0));
}

#[test]
fn tally_sums_to_total() {
    let outcomes = vec![
        Bucket::Success,
        Bucket::Skipped,
        Bucket::Failed,
        Bucket::Success,
        Bucket::Skipped,
    ];
    let s = tally(&outcomes);
    assert_eq!((s.success, s.failed, s.skipped, s.total), (2, 1, 2, 5));
}

#[test]
fn summary_lines_spell_out_counts() {
    let s = ProcessingStats { success: 2, failed: 1, skipped: 3, total: 6 };
    let lines = s.summary_lines();
    assert_eq!(
        lines,
        vec![
            "Processed: 6 files".to_string(),
            "Successful: 2 files".to_string(),
            "Failed: 1 files".to_string(),
            "Skipped (existing/instrumental): 3 files".to_string(),
        ]
    );
}
