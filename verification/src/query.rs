//! The lookup request URL: `{base}/api/get` with the URL-encoded track
//! identity as query parameters.

use vstd::prelude::*;
use vstd::string::StringExecFns;
use crate::record::TrackMetadata;
use crate::numfmt::dec_str;

verus! {

/// What `urlencoding::encode` returns for a given character sequence.
pub uninterp spec fn url_encoded_of(s: Seq<char>) -> Seq<char>;

/// Relies on urlencoding::encode: percent-encodes every byte except ASCII
/// alphanumerics and '-', '_', '.', '~'.  The result is a function of the
/// input characters alone, and an empty input encodes to an empty output.
#[verifier::external_body]
fn encode_component(s: &str) -> (r: String)
    ensures
        r@ == url_encoded_of(s@),
        s@.len() == 0 ==> r@.len() == 0,
{
    urlencoding::encode(s).into_owned()
}

/// `s` with every trailing '/' removed.
pub open spec fn trim_slashes_end(s: Seq<char>) -> Seq<char>
    decreases s.len(),
{
    if s.len() > 0 && s.last() == '/' {
        trim_slashes_end(s.drop_last())
    } else {
        s
    }
}

/// Strip trailing slashes from the service base URL.
pub fn trim_base(base: &str) -> (r: String)
    ensures
        r@ == trim_slashes_end(base@),
{
    let n = base.unicode_len();
    let mut end: usize = n;
    proof {
        assert(base@.take(n as int) =~= base@);
    }
    while end > 0 && base.get_char(end - 1) == '/'
        invariant
            end <= n,
            n == base@.len(),
            trim_slashes_end(base@) == trim_slashes_end(base@.take(end as int)),
        decreases end,
    {
        proof {
            assert(base@.take(end as int).drop_last() =~= base@.take(end - 1));
        }
        end = end - 1;
    }
    let out = String::from_str(base.substring_char(0, end));
    proof {
        if end > 0 {
            assert(base@.take(end as int).last() != '/');
        }
        assert(out@ == trim_slashes_end(base@));
    }
    out
}

/// The full lookup URL for a track: the trimmed base, the fixed endpoint,
/// and the URL-encoded title, artist and album with the duration in whole
/// seconds.
pub open spec fn api_url_spec(base: Seq<char>, m: TrackMetadata) -> Seq<char> {
    trim_slashes_end(base) + "/api/get?track_name="@ + url_encoded_of(m.track_name@)
        + "&artist_name="@ + url_encoded_of(m.artist_name@) + "&album_name="@ + url_encoded_of(
        m.album_name@,
    ) + "&duration="@ + dec_str(m.duration_secs as int)
}

/// Build the lookup request URL for `metadata` against `base`.
pub fn build_api_url(base: &str, metadata: &TrackMetadata) -> (r: String)
    ensures
        r@ == api_url_spec(base@, *metadata),
{
    let mut out = trim_base(base);
    out.append("/api/get?track_name=");
    let enc_track = encode_component(metadata.track_name.as_str());
    out.append(enc_track.as_str());
    out.append("&artist_name=");
    let enc_artist = encode_component(metadata.artist_name.as_str());
    out.append(enc_artist.as_str());
    out.append("&album_name=");
    let enc_album = encode_component(metadata.album_name.as_str());
    out.append(enc_album.as_str());
    out.append("&duration=");
    crate::numfmt::push_decimal(&mut out, metadata.duration_secs);
    proof {
        assert(out@ =~= api_url_spec(base@, *metadata));
    }
    out
}

} // verus!
