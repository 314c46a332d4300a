//! Sidecar path derivation: the lyrics file lives beside the audio file,
//! sharing its stem, with the extension replaced.

use vstd::prelude::*;
use vstd::string::StringExecFns;
use crate::text::{find_last, last_pos};
use crate::ext::file_name_start;

verus! {

/// The final component of `path` (everything after the last '/').
pub open spec fn file_name_of(path: Seq<char>) -> Seq<char> {
    path.subrange(file_name_start(path), path.len() as int)
}

/// A sidecar path can be derived only when the final component is a real
/// file name: nonempty and neither of the relative-directory names.
pub open spec fn has_file_stem(path: Seq<char>) -> bool {
    let name = file_name_of(path);
    name.len() > 0 && name != "."@ && name != ".."@
}

/// End of the file stem within `path`: the last '.' when it lies inside the
/// final component and is not its first character, else the end of `path`.
pub open spec fn stem_end(path: Seq<char>) -> int {
    let dot = last_pos(path, '.');
    if dot >= file_name_start(path) + 1 {
        dot
    } else {
        path.len() as int
    }
}

/// The derived sidecar path: directory prefix and stem unchanged, then a
/// dot and the requested extension.
pub open spec fn sidecar_path(path: Seq<char>, ext: Seq<char>) -> Seq<char> {
    path.subrange(0, stem_end(path)) + "."@ + ext
}

/// A malformed audio path from which no sidecar path can be derived.
#[derive(Clone, Copy, Debug, PartialEq, Eq, Structural)]
pub enum PathError {
    NoFileStem,
}

/// Derive the path of the lyrics file for `audio_file_path` with the given
/// `extension` ("lrc" or "txt"): same directory, same stem.  Fails exactly
/// on paths without a file stem.
pub fn get_lyrics_file_path(audio_file_path: &str, extension: &str) -> (r: Result<
    String,
    PathError,
>)
    ensures
        match r {
            Ok(p) => has_file_stem(audio_file_path@) && p@ == sidecar_path(
                audio_file_path@,
                extension@,
            ),
            Err(e) => !has_file_stem(audio_file_path@) && e == PathError::NoFileStem,
        },
{
    let n = audio_file_path.unicode_len();
    proof {
        crate::text::lemma_last_pos_bounds(audio_file_path@, '/');
        crate::text::lemma_last_pos_bounds(audio_file_path@, '.');
        reveal_strlit(".");
        reveal_strlit("..");
    }
    let start: usize = match find_last(audio_file_path, '/') {
        Some(i) => i + 1,
        None => 0,
    };
    if n == start {
        return Err(PathError::NoFileStem);
    }
    if n == start + 1 {
        let c0 = audio_file_path.get_char(start);
        if c0 == '.' {
            proof {
                assert(file_name_of(audio_file_path@) =~= "."@);
            }
            return Err(PathError::NoFileStem);
        }
        proof {
            assert(file_name_of(audio_file_path@)[0] == c0);
            assert(file_name_of(audio_file_path@) != "."@);
            assert(file_name_of(audio_file_path@).len() != 2);
        }
    } else if n == start + 2 {
        let c0 = audio_file_path.get_char(start);
        let c1 = audio_file_path.get_char(start + 1);
        if c0 == '.' && c1 == '.' {
            proof {
                assert(file_name_of(audio_file_path@) =~= ".."@);
            }
            return Err(PathError::NoFileStem);
        }
        proof {
            assert(file_name_of(audio_file_path@)[0] == c0);
            assert(file_name_of(audio_file_path@)[1] == c1);
            assert(file_name_of(audio_file_path@) != "."@);
            assert(file_name_of(audio_file_path@) != ".."@);
        }
    } else {
        proof {
            let name = file_name_of(audio_file_path@);
            assert(name.len() != 1 && name.len() != 2);
        }
    }
    let end: usize = match find_last(audio_file_path, '.') {
        Some(d) => if d >= start + 1 {
            d
        } else {
            n
        },
        None => n,
    };
    let mut out = String::new();
    out.append(audio_file_path.substring_char(0, end));
    out.append(".");
    out.append(extension);
    proof {
        assert(out@ =~= sidecar_path(audio_file_path@, extension@));
    }
    Ok(out)
}

} // verus!
