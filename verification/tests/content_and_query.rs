use lrcphile::marker::is_instrumental_content;
use lrcphile::numfmt::format_duration;
use lrcphile::query::build_api_url;
use lrcphile::record::{metadata_from_parts, LyricsRecord, MetadataError, TrackMetadata};

fn record(
    instrumental: bool,
    plain: Option<&str>,
    synced: Option<&str>,
) -> LyricsRecord {
    LyricsRecord {
        track_name: "Hello".to_string(),
        artist_name: "World".to_string(),
        album_name: "Album".to_string(),
        duration_secs: 125,
        instrumental,
        plain_lyrics: plain.map(String::from),
        synced_lyrics: synced.map(String::from),
    }
}

#[test]
fn duration_is_zero_padded() {
    assert_eq!(format_duration(125), "02:05");
    assert_eq!(format_duration(0), "00:00");
    assert_eq!(format_duration(59), "00:59");
    assert_eq!(format_duration(60), "01:00");
}

#[test]
fn fractional_duration_truncates() {
    let secs = 125.7_f64 as u64;
    assert_eq!(format_duration(secs), "02:05");
}

#[test]
fn long_duration_keeps_all_minute_digits() {
    assert_eq!(format_duration(6000), "100:00");
}

#[test]
fn header_has_five_lines() {
    let rec = record(false, None, Some("[00:01.00]Hello"));
    let header = rec.generate_header();
    assert_eq!(
        header,
        "[ti: Hello]\n[ar: World]\n[al: Album]\n[length: 02:05]\n[by: lrcphile]"
    );
}

#[test]
fn marker_needs_both_tags() {
    assert!(is_instrumental_content(
        "[by: lrcphile]\n[instrumental]"
    ));
    assert!(!is_instrumental_content("[instrumental]"));
    assert!(!is_instrumental_content("[by: lrcphile]"));
    assert!(!is_instrumental_content(""));
    assert!(!is_instrumental_content("la la la"));
}

#[test]
fn marker_found_anywhere_in_text() {
    let text = "prefix [by: lrcphile] middle [instrumental] suffix";
    assert!(is_instrumental_content(text));
}

#[test]
fn metadata_requires_all_fields() {
    let ok = metadata_from_parts(
        Some("T".to_string()),
        Some("A".to_string()),
        Some("L".to_string()),
        10,
    )
    .unwrap();
    assert_eq!(ok.track_name, "T");
    assert_eq!(ok.artist_name, "A");
    assert_eq!(ok.album_name, "L");
    assert_eq!(ok.duration_secs, 10);
    let missing = metadata_from_parts(Some("T".to_string()), None, Some("L".to_string()), 10);
    assert_eq!(missing.unwrap_err(), MetadataError::MissingField);
    let empty = metadata_from_parts(
        Some("".to_string()),
        Some("A".to_string()),
        Some("L".to_string()),
        10,
    );
    assert_eq!(empty.unwrap_err(), MetadataError::MissingField);
}

#[test]
fn api_url_encodes_query_parameters() {
    let m = TrackMetadata {
        track_name: "Hello World".to_string(),
        artist_name: "A&B".to_string(),
        album_name: "Café".to_string(),
        duration_secs: 125,
    };
    let url = build_api_url("https://lrclib.net/", &m);
    assert_eq!(
        url,
        "https://lrclib.net/api/get?track_name=Hello%20World&artist_name=A%26B&album_name=Caf%C3%A9&duration=125"
    );
}

#[test]
fn api_url_trims_trailing_slashes_only() {
    let m = TrackMetadata {
        track_name: "T".to_string(),
        artist_name: "A".to_string(),
        album_name: "L".to_string(),
        duration_secs: 1,
    };
    let url = build_api_url("http://host///", &m);
    assert_eq!(
        url,
        "http://host/api/get?track_name=T&artist_name=A&album_name=L&duration=1"
    );
    let url2 = build_api_url("http://host", &m);
    assert!(url2.starts_with("http://host/api/get?"));
}
