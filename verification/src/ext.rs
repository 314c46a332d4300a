//! Extension filter: classifies a path as a candidate audio file by its
//! extension, case-insensitively, against a fixed allow-list.

use vstd::prelude::*;
use crate::text::{find_last, last_pos, lower_seq, eq_lowercased};

verus! {

/// Start of the final path component: one past the last '/' (0 if none).
pub open spec fn file_name_start(path: Seq<char>) -> int {
    last_pos(path, '/') + 1
}

/// The extension of `path`, if any: the characters after the last '.',
/// provided that dot lies inside the final path component and is not its
/// first character (a leading dot marks a hidden file, not an extension).
pub open spec fn extension_of(path: Seq<char>) -> Option<Seq<char>> {
    let dot = last_pos(path, '.');
    if dot >= file_name_start(path) + 1 {
        Some(path.subrange(dot + 1, path.len() as int))
    } else {
        None
    }
}

/// The fixed allow-list of audio extensions, all lowercase.
pub open spec fn is_allowed_extension(e: Seq<char>) -> bool {
    ||| e == "mp3"@
    ||| e == "flac"@
    ||| e == "wav"@
    ||| e == "ogg"@
    ||| e == "m4a"@
    ||| e == "aac"@
    ||| e == "opus"@
    ||| e == "wma"@
    ||| e == "ape"@
    ||| e == "dsf"@
    ||| e == "dff"@
}

/// A path is a candidate audio file iff it has an extension whose
/// lowercased form is on the allow-list.
pub open spec fn spec_is_audio_path(path: Seq<char>) -> bool {
    match extension_of(path) {
        Some(e) => is_allowed_extension(lower_seq(e)),
        None => false,
    }
}

/// Decide whether `path` names a candidate audio file.
pub fn is_audio_path(path: &str) -> (r: bool)
    ensures
        r == spec_is_audio_path(path@),
{
    let n = path.unicode_len();
    proof {
        crate::text::lemma_last_pos_bounds(path@, '.');
        crate::text::lemma_last_pos_bounds(path@, '/');
    }
    let start: usize = match find_last(path, '/') {
        Some(i) => i + 1,
        None => 0,
    };
    let dot: usize = match find_last(path, '.') {
        Some(i) => i,
        None => {
            return false;
        },
    };
    if dot <= start {
        return false;
    }
    let ext = path.substring_char(dot + 1, n);
    proof {
        assert(ext@ =~= extension_of(path@).unwrap());
    }
    if eq_lowercased(ext, "mp3") {
        return true;
    }
    if eq_lowercased(ext, "flac") {
        return true;
    }
    if eq_lowercased(ext, "wav") {
        return true;
    }
    if eq_lowercased(ext, "ogg") {
        return true;
    }
    if eq_lowercased(ext, "m4a") {
        return true;
    }
    if eq_lowercased(ext, "aac") {
        return true;
    }
    if eq_lowercased(ext, "opus") {
        return true;
    }
    if eq_lowercased(ext, "wma") {
        return true;
    }
    if eq_lowercased(ext, "ape") {
        return true;
    }
    if eq_lowercased(ext, "dsf") {
        return true;
    }
    if eq_lowercased(ext, "dff") {
        return true;
    }
    false
}

} // verus!
