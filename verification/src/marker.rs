//! The instrumental negative-cache marker.
//!
//! An existing `.lrc` sidecar whose text carries both the authorship tag
//! and the instrumental marker line means "checked before, confirmed
//! instrumental": every later run must skip the track without querying the
//! lookup service again.

use vstd::prelude::*;
use crate::text::{contains_seq, contains_str};

verus! {

/// Does sidecar text mark the track as confirmed instrumental?  It must
/// carry both the authorship tag and the instrumental marker line.
pub open spec fn spec_is_instrumental_content(s: Seq<char>) -> bool {
    contains_seq(s, "[by: lrcphile]"@) && contains_seq(s, "[instrumental]"@)
}

/// Decide whether existing sidecar `content` is an instrumental marker.
/// The caller reads the sidecar file and passes its text; an unreadable
/// sidecar counts as unmarked, so it never passes text at all.
pub fn is_instrumental_content(content: &str) -> (r: bool)
    ensures
        r == spec_is_instrumental_content(content@),
{
    contains_str(content, "[by: lrcphile]") && contains_str(content, "[instrumental]")
}

} // verus!
