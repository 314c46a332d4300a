//! The per-track synchronizer: the skip/fetch decision, classification of
//! the lookup response, the sidecar content to write, and the terminal
//! outcome of one track.
//!
//! Everything here is a pure function of the track's observable state; the
//! caller performs the surrounding I/O (reading tags, the HTTP request, the
//! file write) and feeds the results back in.

use vstd::prelude::*;
use vstd::string::StringExecFns;
use crate::record::{LyricsRecord, header_spec};
use crate::marker::spec_is_instrumental_content;
use crate::text::{contains_seq, occurs_at};
use crate::stats::Bucket;

verus! {

/// What a track's two sidecar slots look like before a run: does the lrc
/// sidecar carry the instrumental marker, and does either sidecar exist.
#[derive(Clone, Copy, Debug, PartialEq, Eq, Structural)]
pub struct SidecarState {
    pub instrumental_marked: bool,
    pub lrc_exists: bool,
    pub txt_exists: bool,
}

/// The skip/fetch decision: a marked track is never fetched; an existing
/// sidecar is refetched only under override; a bare track always fetches.
pub open spec fn spec_should_fetch(state: SidecarState, override_files: bool) -> bool {
    if state.instrumental_marked {
        false
    } else if state.lrc_exists || state.txt_exists {
        override_files
    } else {
        true
    }
}

/// Decide whether to query the lookup service for a track in `state`.
pub fn should_fetch(state: &SidecarState, override_files: bool) -> (r: bool)
    ensures
        r == spec_should_fetch(*state, override_files),
{
    if state.instrumental_marked {
        false
    } else if state.lrc_exists || state.txt_exists {
        override_files
    } else {
        true
    }
}

/// What the lookup service answered for one track.
#[derive(Clone, Debug)]
pub enum FetchResult {
    /// An HTTP success whose body parsed into a record.
    Found(LyricsRecord),
    /// HTTP 404: the database knows no lyrics for this track.
    NotFound,
    /// A network failure, a non-success non-404 status (carrying that
    /// status), or an unparsable body.
    TransportError(Option<u16>),
}

/// How an HTTP status is to be treated.
#[derive(Clone, Copy, Debug, PartialEq, Eq, Structural)]
pub enum StatusClass {
    /// 2xx: read and parse the body.
    Success,
    /// 404: no lyrics exist; not a transport error.
    NotFound,
    /// Anything else: a transport error carrying the status.
    Error,
}

/// Classify an HTTP status code from the lookup service.
pub fn classify_status(status: u16) -> (r: StatusClass)
    ensures
        r == StatusClass::Success <==> 200 <= status < 300,
        r == StatusClass::NotFound <==> status == 404,
        r == StatusClass::Error <==> !(200 <= status < 300) && status != 404,
{
    if 200 <= status && status < 300 {
        StatusClass::Success
    } else if status == 404 {
        StatusClass::NotFound
    } else {
        StatusClass::Error
    }
}

/// The file write a fetched record calls for, with the full content.
#[derive(Clone, Debug)]
pub enum SavePlan {
    /// Write the lrc sidecar: header plus the instrumental marker line.
    Instrumental { content: String },
    /// Write the lrc sidecar: header plus the synced lyrics body.
    Synced { content: String },
    /// Write the txt sidecar: header plus the plain lyrics body.
    Plain { content: String },
    /// Nothing usable: not instrumental, yet no lyrics body at all.
    NoLyrics,
}

/// Content of the lrc sidecar of a confirmed-instrumental track: the
/// header plus the marker line, no body.
pub open spec fn instrumental_content_spec(rec: LyricsRecord) -> Seq<char> {
    header_spec(rec) + "\n[instrumental]"@
}

/// Content of a lyrics sidecar: the header, a newline, then the body.
pub open spec fn lyrics_content_spec(rec: LyricsRecord, body: Seq<char>) -> Seq<char> {
    header_spec(rec) + "\n"@ + body
}

/// Which save the record calls for: an instrumental record writes the
/// marker file; otherwise synced lyrics are preferred over plain; with
/// neither body present there is nothing to write.
pub open spec fn spec_save_plan(rec: LyricsRecord, p: SavePlan) -> bool {
    if rec.instrumental {
        p matches SavePlan::Instrumental { content } && content@ == instrumental_content_spec(rec)
    } else if rec.synced_lyrics is Some {
        p matches SavePlan::Synced { content } && content@ == lyrics_content_spec(
            rec,
            rec.synced_lyrics.unwrap()@,
        )
    } else if rec.plain_lyrics is Some {
        p matches SavePlan::Plain { content } && content@ == lyrics_content_spec(
            rec,
            rec.plain_lyrics.unwrap()@,
        )
    } else {
        p matches SavePlan::NoLyrics
    }
}

/// Plan the sidecar write for a fetched record.
pub fn plan_save(rec: &LyricsRecord) -> (p: SavePlan)
    ensures
        spec_save_plan(*rec, p),
{
    let header = rec.generate_header();
    if rec.instrumental {
        let mut content = header;
        content.append("\n[instrumental]");
        SavePlan::Instrumental { content }
    } else if let Some(body) = &rec.synced_lyrics {
        let mut content = header;
        content.append("\n");
        content.append(body.as_str());
        proof {
            assert(content@ =~= lyrics_content_spec(*rec, rec.synced_lyrics.unwrap()@));
        }
        SavePlan::Synced { content }
    } else if let Some(body) = &rec.plain_lyrics {
        let mut content = header;
        content.append("\n");
        content.append(body.as_str());
        proof {
            assert(content@ =~= lyrics_content_spec(*rec, rec.plain_lyrics.unwrap()@));
        }
        SavePlan::Plain { content }
    } else {
        SavePlan::NoLyrics
    }
}

/// Terminal classification of one track, as the statistics see it.
#[derive(Clone, Copy, Debug, PartialEq, Eq, Structural)]
pub enum TrackOutcome {
    /// The decision said not to fetch.
    Skipped,
    /// An instrumental marker file was written.
    SavedInstrumental,
    /// Synced lyrics were written to the lrc sidecar.
    SavedSynced,
    /// Plain lyrics were written to the txt sidecar.
    SavedPlain,
    /// The lookup service failed (network, status, or body).
    FetchFailed,
    /// The lookup service knows no lyrics for the track.
    NotFound,
    /// The record was not instrumental and carried no lyrics body.
    NoUsableLyrics,
    /// The sidecar write failed.
    WriteFailed,
    /// The track's metadata could not be read.
    MetadataFailed,
}

/// The statistics bucket of a terminal outcome.
pub open spec fn spec_bucket_of(o: TrackOutcome) -> Bucket {
    match o {
        TrackOutcome::Skipped => Bucket::Skipped,
        TrackOutcome::SavedInstrumental => Bucket::Success,
        TrackOutcome::SavedSynced => Bucket::Success,
        TrackOutcome::SavedPlain => Bucket::Success,
        TrackOutcome::FetchFailed => Bucket::Failed,
        TrackOutcome::NotFound => Bucket::Failed,
        TrackOutcome::NoUsableLyrics => Bucket::Failed,
        TrackOutcome::WriteFailed => Bucket::Failed,
        TrackOutcome::MetadataFailed => Bucket::Failed,
    }
}

/// Map a terminal outcome to its statistics bucket.
pub fn bucket_of(o: &TrackOutcome) -> (b: Bucket)
    ensures
        b == spec_bucket_of(*o),
{
    match o {
        TrackOutcome::Skipped => Bucket::Skipped,
        TrackOutcome::SavedInstrumental => Bucket::Success,
        TrackOutcome::SavedSynced => Bucket::Success,
        TrackOutcome::SavedPlain => Bucket::Success,
        TrackOutcome::FetchFailed => Bucket::Failed,
        TrackOutcome::NotFound => Bucket::Failed,
        TrackOutcome::NoUsableLyrics => Bucket::Failed,
        TrackOutcome::WriteFailed => Bucket::Failed,
        TrackOutcome::MetadataFailed => Bucket::Failed,
    }
}

/// The terminal outcome of one track with readable metadata, as a function
/// of its sidecar state, the override flag, what the lookup service would
/// answer, and whether the file write would succeed.
pub open spec fn spec_track_outcome(
    state: SidecarState,
    override_files: bool,
    fetch: FetchResult,
    write_ok: bool,
) -> TrackOutcome {
    if !spec_should_fetch(state, override_files) {
        TrackOutcome::Skipped
    } else {
        match fetch {
            FetchResult::NotFound => TrackOutcome::NotFound,
            FetchResult::TransportError(_) => TrackOutcome::FetchFailed,
            FetchResult::Found(rec) => {
                if rec.instrumental {
                    if write_ok {
                        TrackOutcome::SavedInstrumental
                    } else {
                        TrackOutcome::WriteFailed
                    }
                } else if rec.synced_lyrics is Some {
                    if write_ok {
                        TrackOutcome::SavedSynced
                    } else {
                        TrackOutcome::WriteFailed
                    }
                } else if rec.plain_lyrics is Some {
                    if write_ok {
                        TrackOutcome::SavedPlain
                    } else {
                        TrackOutcome::WriteFailed
                    }
                } else {
                    TrackOutcome::NoUsableLyrics
                }
            },
        }
    }
}

/// One track's terminal outcome.  `fetch` is what the lookup service
/// answers when asked and `write_ok` whether the planned sidecar write
/// succeeds; neither is consulted unless the decision calls for it.
pub fn track_outcome(
    state: &SidecarState,
    override_files: bool,
    fetch: &FetchResult,
    write_ok: bool,
) -> (o: TrackOutcome)
    ensures
        o == spec_track_outcome(*state, override_files, *fetch, write_ok),
{
    if !should_fetch(state, override_files) {
        TrackOutcome::Skipped
    } else {
        match fetch {
            FetchResult::NotFound => TrackOutcome::NotFound,
            FetchResult::TransportError(_) => TrackOutcome::FetchFailed,
            FetchResult::Found(rec) => {
                if rec.instrumental {
                    if write_ok {
                        TrackOutcome::SavedInstrumental
                    } else {
                        TrackOutcome::WriteFailed
                    }
                } else if rec.synced_lyrics.is_some() {
                    if write_ok {
                        TrackOutcome::SavedSynced
                    } else {
                        TrackOutcome::WriteFailed
                    }
                } else if rec.plain_lyrics.is_some() {
                    if write_ok {
                        TrackOutcome::SavedPlain
                    } else {
                        TrackOutcome::WriteFailed
                    }
                } else {
                    TrackOutcome::NoUsableLyrics
                }
            },
        }
    }
}

/// The sidecar state after an outcome: a saved instrumental marker sets
/// the marker and the lrc slot; saved synced lyrics fill the lrc slot
/// (whether the new text happens to look marked is `lrc_marked_after`);
/// saved plain lyrics fill the txt slot; nothing else changes the state.
pub open spec fn spec_state_after(
    state: SidecarState,
    o: TrackOutcome,
    lrc_marked_after: bool,
) -> SidecarState {
    match o {
        TrackOutcome::SavedInstrumental => SidecarState {
            instrumental_marked: true,
            lrc_exists: true,
            txt_exists: state.txt_exists,
        },
        TrackOutcome::SavedSynced => SidecarState {
            instrumental_marked: lrc_marked_after,
            lrc_exists: true,
            txt_exists: state.txt_exists,
        },
        TrackOutcome::SavedPlain => SidecarState {
            instrumental_marked: state.instrumental_marked,
            lrc_exists: state.lrc_exists,
            txt_exists: true,
        },
        _ => state,
    }
}

/// The written instrumental sidecar is detected as a marker: its content
/// carries both the authorship tag and the marker line, so later runs
/// recognize the track as confirmed instrumental.
pub proof fn lemma_instrumental_marker_detected(rec: LyricsRecord)
    ensures
        spec_is_instrumental_content(instrumental_content_spec(rec)),
{
    let s = instrumental_content_spec(rec);
    let h = header_spec(rec);
    reveal_strlit("\n[instrumental]");
    reveal_strlit("[instrumental]");
    reveal_strlit("[by: lrcphile]");
    reveal_strlit("]\n[by: lrcphile]");
    assert(s.subrange(s.len() - 14, s.len() as int) =~= "[instrumental]"@);
    assert(occurs_at(s, "[instrumental]"@, s.len() - 14));
    let tail = "]\n[by: lrcphile]"@;
    let i = h.len() - 14;
    assert(h == "[ti: "@ + rec.track_name@ + "]\n[ar: "@ + rec.artist_name@ + "]\n[al: "@
        + rec.album_name@ + "]\n[length: "@ + crate::numfmt::duration_display(
        rec.duration_secs as int,
    ) + "]\n[by: lrcphile]"@);
    assert(s.subrange(i, i + 14) =~= "[by: lrcphile]"@);
    assert(occurs_at(s, "[by: lrcphile]"@, i));
}

/// The instrumental marker is authoritative: a marked track is skipped on
/// every run, override or not, and the lookup service is never consulted.
pub proof fn lemma_marker_authoritative(
    state: SidecarState,
    override_files: bool,
    fetch: FetchResult,
    write_ok: bool,
)
    requires
        state.instrumental_marked,
    ensures
        !spec_should_fetch(state, override_files),
        spec_track_outcome(state, override_files, fetch, write_ok) == TrackOutcome::Skipped,
{
}

/// A second run is idempotent: when a first run on a track ends in success
/// (a sidecar was written) or the track was already marked instrumental,
/// the next run with override off skips the track, whatever the lookup
/// service would answer and however its write would go.
pub proof fn lemma_second_run_skips(
    state: SidecarState,
    override_files: bool,
    fetch: FetchResult,
    write_ok: bool,
    lrc_marked_after: bool,
    fetch2: FetchResult,
    write_ok2: bool,
)
    requires
        spec_bucket_of(spec_track_outcome(state, override_files, fetch, write_ok))
            == Bucket::Success || state.instrumental_marked,
    ensures
        spec_track_outcome(
            spec_state_after(
                state,
                spec_track_outcome(state, override_files, fetch, write_ok),
                lrc_marked_after,
            ),
            false,
            fetch2,
            write_ok2,
        ) == TrackOutcome::Skipped,
{
}

} // verus!
