//! The value types of the pipeline: a track's embedded metadata and the
//! lookup service's lyrics record, with the sidecar header built from the
//! record.

use vstd::prelude::*;
use vstd::string::StringExecFns;
use crate::numfmt::{duration_display, format_duration};

verus! {

/// Embedded metadata of one audio track, as the tag reader hands it over.
/// All three name fields must be present and nonempty.
#[derive(Clone, Debug)]
pub struct TrackMetadata {
    pub track_name: String,
    pub artist_name: String,
    pub album_name: String,
    pub duration_secs: u64,
}

impl TrackMetadata {
    /// Well-formed metadata has no empty field.
    pub open spec fn wf(self) -> bool {
        self.track_name@.len() > 0 && self.artist_name@.len() > 0 && self.album_name@.len() > 0
    }
}

/// Reading a track's metadata failed: a required field is missing or empty.
#[derive(Clone, Copy, Debug, PartialEq, Eq, Structural)]
pub enum MetadataError {
    MissingField,
}

/// Assemble track metadata from the fields the tag reader extracted.
/// Succeeds exactly when title, artist and album are all present and
/// nonempty; a missing or empty field is a terminal per-track error.
pub fn metadata_from_parts(
    track_name: Option<String>,
    artist_name: Option<String>,
    album_name: Option<String>,
    duration_secs: u64,
) -> (r: Result<TrackMetadata, MetadataError>)
    ensures
        match r {
            Ok(m) => {
                &&& track_name matches Some(t) && t@ == m.track_name@ && t@.len() > 0
                &&& artist_name matches Some(a) && a@ == m.artist_name@ && a@.len() > 0
                &&& album_name matches Some(al) && al@ == m.album_name@ && al@.len() > 0
                &&& m.duration_secs == duration_secs
                &&& m.wf()
            },
            Err(e) => {
                &&& e == MetadataError::MissingField
                &&& {
                    ||| track_name matches None
                    ||| artist_name matches None
                    ||| album_name matches None
                    ||| (track_name matches Some(t) && t@.len() == 0)
                    ||| (artist_name matches Some(a) && a@.len() == 0)
                    ||| (album_name matches Some(al) && al@.len() == 0)
                }
            },
        },
{
    match (track_name, artist_name, album_name) {
        (Some(t), Some(a), Some(al)) => {
            if t.as_str().unicode_len() == 0 || a.as_str().unicode_len() == 0
                || al.as_str().unicode_len() == 0 {
                Err(MetadataError::MissingField)
            } else {
                Ok(
                    TrackMetadata {
                        track_name: t,
                        artist_name: a,
                        album_name: al,
                        duration_secs,
                    },
                )
            }
        },
        _ => Err(MetadataError::MissingField),
    }
}

/// One record from the lyrics database: track identity, whether the track
/// is instrumental, and the optional plain and synced lyrics bodies.
#[derive(Clone, Debug)]
pub struct LyricsRecord {
    pub track_name: String,
    pub artist_name: String,
    pub album_name: String,
    pub duration_secs: u64,
    pub instrumental: bool,
    pub plain_lyrics: Option<String>,
    pub synced_lyrics: Option<String>,
}

/// The five-line sidecar header: title, artist, album, `MM:SS` duration,
/// and the fixed authorship tag, joined by newlines.
pub open spec fn header_spec(rec: LyricsRecord) -> Seq<char> {
    "[ti: "@ + rec.track_name@ + "]\n[ar: "@ + rec.artist_name@ + "]\n[al: "@ + rec.album_name@
        + "]\n[length: "@ + duration_display(rec.duration_secs as int) + "]\n[by: lrcphile]"@
}

impl LyricsRecord {
    /// Build the sidecar header for this record.
    pub fn generate_header(&self) -> (r: String)
        ensures
            r@ == header_spec(*self),
    {
        let mut out = String::new();
        out.append("[ti: ");
        out.append(self.track_name.as_str());
        out.append("]\n[ar: ");
        out.append(self.artist_name.as_str());
        out.append("]\n[al: ");
        out.append(self.album_name.as_str());
        out.append("]\n[length: ");
        let dur = format_duration(self.duration_secs);
        out.append(dur.as_str());
        out.append("]\n[by: lrcphile]");
        proof {
            assert(out@ =~= header_spec(*self));
        }
        out
    }
}

} // verus!
