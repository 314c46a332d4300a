use lrcphile::ext::is_audio_path;
use lrcphile::paths::{get_lyrics_file_path, PathError};
use lrcphile::scan::{partition_entries, sort_paths, EntryKind, ScanEntry};

fn entry(path: &str, kind: EntryKind) -> ScanEntry {
    ScanEntry { path: String::from(path), kind }
}

#[test]
fn uppercase_extension_is_audio() {
    assert!(is_audio_path("track.MP3"));
    assert!(is_audio_path("track.FlAc"));
}

#[test]
fn non_audio_extension_is_rejected() {
    assert!(!is_audio_path("track.txt"));
    assert!(!is_audio_path("track.lrc"));
}

#[test]
fn every_allowed_extension_matches() {
    for e in [
        "mp3", "flac", "wav", "ogg", "m4a", "aac", "opus", "wma", "ape", "dsf", "dff",
    ] {
        assert!(is_audio_path(&format!("song.{}", e)), "{}", e);
    }
}

#[test]
fn path_without_extension_is_rejected() {
    assert!(!is_audio_path("track"));
    assert!(!is_audio_path(""));
}

#[test]
fn hidden_file_has_no_extension() {
    assert!(!is_audio_path(".mp3"));
    assert!(!is_audio_path("dir/.mp3"));
}

#[test]
fn dot_in_directory_is_not_an_extension() {
    assert!(!is_audio_path("dir.mp3/song"));
    assert!(is_audio_path("dir.ogg/song.mp3"));
}

#[test]
fn sidecar_path_replaces_extension() {
    assert_eq!(get_lyrics_file_path("a/b.mp3", "lrc").unwrap(), "a/b.lrc");
    assert_eq!(get_lyrics_file_path("a/b.mp3", "txt").unwrap(), "a/b.txt");
}

#[test]
fn sidecar_path_without_directory() {
    assert_eq!(get_lyrics_file_path("song.flac", "lrc").unwrap(), "song.lrc");
}

#[test]
fn sidecar_path_keeps_inner_dots() {
    assert_eq!(get_lyrics_file_path("/x/y.z.mp3", "lrc").unwrap(), "/x/y.z.lrc");
}

#[test]
fn sidecar_path_for_hidden_file_appends() {
    // A lone leading dot is no extension, so the whole name is the stem.
    assert_eq!(get_lyrics_file_path("a/.mp3", "lrc").unwrap(), "a/.mp3.lrc");
}

#[test]
fn sidecar_path_rejects_malformed() {
    assert_eq!(get_lyrics_file_path("", "lrc"), Err(PathError::NoFileStem));
    assert_eq!(get_lyrics_file_path("a/", "lrc"), Err(PathError::NoFileStem));
    assert_eq!(get_lyrics_file_path(".", "lrc"), Err(PathError::NoFileStem));
    assert_eq!(get_lyrics_file_path("..", "lrc"), Err(PathError::NoFileStem));
    assert_eq!(get_lyrics_file_path("a/..", "lrc"), Err(PathError::NoFileStem));
}

#[test]
fn partition_keeps_audio_files_in_order() {
    let entries = vec![
        entry("d/z.mp3", EntryKind::File),
        entry("d/notes.txt", EntryKind::File),
        entry("d/sub", EntryKind::Dir),
        entry("d/a.flac", EntryKind::File),
        entry("d/link", EntryKind::Other),
    ];
    let (files, dirs) = partition_entries(&entries, true);
    assert_eq!(files, vec!["d/z.mp3".to_string(), "d/a.flac".to_string()]);
    assert_eq!(dirs, vec!["d/sub".to_string()]);
}

#[test]
fn partition_ignores_directories_when_not_recursive() {
    let entries = vec![
        entry("d/sub", EntryKind::Dir),
        entry("d/a.mp3", EntryKind::File),
    ];
    let (files, dirs) = partition_entries(&entries, false);
    assert_eq!(files, vec!["d/a.mp3".to_string()]);
    assert!(dirs.is_empty());
}

#[test]
fn partition_of_empty_directory_is_empty() {
    let entries: Vec<ScanEntry> = Vec::new();
    let (files, dirs) = partition_entries(&entries, false);
    assert!(files.is_empty());
    assert!(dirs.is_empty());
}

#[test]
fn sort_paths_orders_lexicographically() {
    let mut v = vec![
        "d/b.mp3".to_string(),
        "d/a.mp3".to_string(),
        "a/z.mp3".to_string(),
        "d/a.mp3".to_string(),
    ];
    sort_paths(&mut v);
    assert_eq!(
        v,
        vec![
            "a/z.mp3".to_string(),
            "d/a.mp3".to_string(),
            "d/a.mp3".to_string(),
            "d/b.mp3".to_string(),
        ]
    );
}

#[test]
fn unreadable_subdirectory_does_not_block_siblings() {
    // The walk hands each readable directory's entries over; a directory
    // that fails to read contributes nothing, and its siblings' files
    // still make the final, sorted list.
    let root = vec![
        entry("r/bad", EntryKind::Dir),
        entry("r/good", EntryKind::Dir),
        entry("r/top.mp3", EntryKind::File),
    ];
    let (mut files, dirs) = partition_entries(&root, true);
    assert_eq!(dirs, vec!["r/bad".to_string(), "r/good".to_string()]);
    for d in dirs {
        if d == "r/bad" {
            continue; // reading it failed: warn and move on
        }
        let sub = vec![entry("r/good/inner.flac", EntryKind::File)];
        let (sub_files, sub_dirs) = partition_entries(&sub, true);
        assert!(sub_dirs.is_empty());
        files.extend(sub_files);
    }
    sort_paths(&mut files);
    assert_eq!(
        files,
        vec!["r/good/inner.flac".to_string(), "r/top.mp3".to_string()]
    );
}
