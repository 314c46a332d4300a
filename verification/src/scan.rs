//! Directory scanning core: pick the candidate audio files and the
//! subdirectories to descend into out of one directory's entries, and sort
//! the collected paths for a deterministic run order.
//!
//! The caller walks the filesystem (one listing per directory, a work
//! stack for recursion) and hands each directory's entries over as plain
//! values; an unreadable subdirectory simply contributes no entries.

use vstd::prelude::*;
use crate::ext::{is_audio_path, spec_is_audio_path};
use crate::text::{lex_le, str_le, lemma_lex_le_total};

verus! {

broadcast use vstd::seq_lib::group_seq_properties;

/// What kind of directory entry a path names.
#[derive(Clone, Copy, Debug, PartialEq, Eq, Structural)]
pub enum EntryKind {
    File,
    Dir,
    Other,
}

/// One directory entry, as the filesystem walk reports it.
#[derive(Clone, Debug)]
pub struct ScanEntry {
    pub path: String,
    pub kind: EntryKind,
}

/// Is this entry a candidate audio file?
pub open spec fn is_audio_entry(e: ScanEntry) -> bool {
    e.kind == EntryKind::File && spec_is_audio_path(e.path@)
}

/// The paths of the candidate audio files among `s`, in order.
pub open spec fn audio_file_paths(s: Seq<ScanEntry>) -> Seq<Seq<char>>
    decreases s.len(),
{
    if s.len() == 0 {
        Seq::empty()
    } else if is_audio_entry(s.last()) {
        audio_file_paths(s.drop_last()).push(s.last().path@)
    } else {
        audio_file_paths(s.drop_last())
    }
}

/// The paths of the subdirectories among `s`, in order.
pub open spec fn subdir_paths(s: Seq<ScanEntry>) -> Seq<Seq<char>>
    decreases s.len(),
{
    if s.len() == 0 {
        Seq::empty()
    } else if s.last().kind == EntryKind::Dir {
        subdir_paths(s.drop_last()).push(s.last().path@)
    } else {
        subdir_paths(s.drop_last())
    }
}

/// The views of a vector of path strings.
pub open spec fn path_views(s: Seq<String>) -> Seq<Seq<char>> {
    s.map_values(|p: String| p@)
}

/// Split one directory listing into the candidate audio files and, when
/// recursing, the subdirectories to scan next.  Regular files pass the
/// extension filter; anything else is ignored.
pub fn partition_entries(entries: &Vec<ScanEntry>, recursive: bool) -> (r: (
    Vec<String>,
    Vec<String>,
))
    ensures
        path_views(r.0@) == audio_file_paths(entries@),
        recursive ==> path_views(r.1@) == subdir_paths(entries@),
        !recursive ==> r.1@.len() == 0,
{
    let mut files: Vec<String> = Vec::new();
    let mut dirs: Vec<String> = Vec::new();
    let mut i: usize = 0;
    while i < entries.len()
        invariant
            i <= entries@.len(),
            path_views(files@) == audio_file_paths(entries@.take(i as int)),
            recursive ==> path_views(dirs@) == subdir_paths(entries@.take(i as int)),
            !recursive ==> dirs@.len() == 0,
        decreases entries@.len() - i,
    {
        let e = &entries[i];
        proof {
            assert(entries@.take(i + 1).drop_last() =~= entries@.take(i as int));
            assert(entries@.take(i + 1).last() == entries@[i as int]);
        }
        let is_file = match e.kind {
            EntryKind::File => true,
            _ => false,
        };
        if is_file && is_audio_path(e.path.as_str()) {
            let ghost before = files@;
            files.push(e.path.clone());
            proof {
                assert(path_views(files@) =~= path_views(before).push(entries@[i as int].path@));
            }
        } else {
            let is_dir = match e.kind {
                EntryKind::Dir => true,
                _ => false,
            };
            if is_dir && recursive {
                let ghost before = dirs@;
                dirs.push(e.path.clone());
                proof {
                    assert(path_views(dirs@) =~= path_views(before).push(entries@[i as int].path@));
                }
            }
        }
        i = i + 1;
    }
    proof {
        assert(entries@.take(entries@.len() as int) =~= entries@);
    }
    (files, dirs)
}

/// The paths are in lexicographic order.
pub open spec fn sorted_paths(s: Seq<String>) -> bool {
    forall|i: int, j: int| 0 <= i < j < s.len() ==> #[trigger] lex_le(s[i]@, s[j]@)
}

/// Sort the collected file paths lexicographically by code point, keeping
/// exactly the same paths: the run order is deterministic and reproducible.
pub fn sort_paths(v: &mut Vec<String>)
    ensures
        sorted_paths(final(v)@),
        final(v)@.to_multiset() == old(v)@.to_multiset(),
{
    broadcast use vstd::seq_lib::to_multiset_remove;
    broadcast use vstd::seq_lib::to_multiset_insert;
    broadcast use vstd::seq_lib::to_multiset_contains;
    broadcast use vstd::multiset::group_multiset_axioms;

    let mut i: usize = 1;
    while i < v.len()
        invariant
            1 <= i,
            v@.len() == old(v)@.len(),
            v@.to_multiset() == old(v)@.to_multiset(),
            forall|a: int, b: int| 0 <= a < b < i && b < v@.len() ==> #[trigger] lex_le(
                v@[a]@,
                v@[b]@,
            ),
        decreases v@.len() - i,
    {
        let ghost v0 = v@;
        let x = v.remove(i);
        proof {
            assert(v@ == v0.remove(i as int));
            assert(v@.to_multiset().insert(x) == v0.to_multiset());
        }
        let mut pos: usize = 0;
        while pos < i && str_le(v[pos].as_str(), x.as_str())
            invariant
                pos <= i,
                i < v0.len(),
                v@ == v0.remove(i as int),
                forall|k: int| 0 <= k < pos ==> #[trigger] lex_le(v@[k]@, x@),
            decreases i - pos,
        {
            pos = pos + 1;
        }
        proof {
            if pos < i {
                lemma_lex_le_total(v@[pos as int]@, x@);
                assert(lex_le(x@, v@[pos as int]@));
            }
        }
        let ghost v1 = v@;
        v.insert(pos, x);
        proof {
            assert(v@ == v1.insert(pos as int, x));
            assert(v@.to_multiset() == v1.to_multiset().insert(x));
            assert(v@.to_multiset() == old(v)@.to_multiset());
            assert forall|a: int, b: int|
                0 <= a < b < i + 1 && b < v@.len() implies #[trigger] lex_le(v@[a]@, v@[b]@) by {
                lemma_sorted_after_insert(v0, v1, v@, x, pos as int, i as int, a, b);
            }
        }
        i = i + 1;
    }
}

/// After removing the element at `i` of a run whose first `i` elements are
/// sorted and reinserting it at `pos`, the first `i + 1` elements are
/// sorted.
proof fn lemma_sorted_after_insert(
    v0: Seq<String>,
    v1: Seq<String>,
    v2: Seq<String>,
    x: String,
    pos: int,
    i: int,
    a: int,
    b: int,
)
    requires
        0 < i < v0.len(),
        v1 == v0.remove(i),
        0 <= pos <= i,
        v2 == v1.insert(pos, x),
        x == v0[i],
        forall|p: int, q: int| 0 <= p < q < i ==> #[trigger] lex_le(v0[p]@, v0[q]@),
        forall|k: int| 0 <= k < pos ==> #[trigger] lex_le(v1[k]@, x@),
        pos < i ==> lex_le(x@, v1[pos]@),
        0 <= a < b < i + 1,
        b < v2.len(),
    ensures
        lex_le(v2[a]@, v2[b]@),
{
    assert(forall|k: int| 0 <= k < i ==> v1[k] == v0[k]);
    assert(forall|k: int| 0 <= k < pos ==> v2[k] == v1[k]);
    assert(v2[pos] == x);
    assert(forall|k: int| pos < k <= i ==> v2[k] == v1[k - 1]);
    if b < pos {
        assert(lex_le(v2[a]@, v2[b]@));
    } else if b == pos {
        assert(lex_le(v1[a]@, x@));
    } else {
        // b > pos
        if a < pos {
            assert(v2[a] == v0[a]);
            assert(v2[b] == v0[b - 1]);
            assert(lex_le(v0[a]@, v0[b - 1]@));
        } else if a == pos {
            assert(v2[a] == x);
            assert(v2[b] == v0[b - 1]);
            if b - 1 == pos {
                assert(lex_le(x@, v1[pos]@));
            } else {
                assert(lex_le(x@, v1[pos]@));
                assert(lex_le(v0[pos]@, v0[b - 1]@));
                crate::text::lemma_lex_le_trans(x@, v0[pos]@, v0[b - 1]@);
            }
        } else {
            assert(v2[a] == v0[a - 1]);
            assert(v2[b] == v0[b - 1]);
            assert(lex_le(v0[a - 1]@, v0[b - 1]@));
        }
    }
}

} // verus!
