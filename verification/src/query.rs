//! Classification of a user query before any provider is contacted.
//!
//! The dispatch policy, evaluated in order: a direct link into a
//! playlist goes to that provider's playlist endpoint, a direct link
//! to a single track is resolved directly, and anything else is a
//! free-text search on the default provider.

use vstd::prelude::*;
use vstd::string::StrSliceExecFns;
use vstd::string::StringExecFns;

use crate::text::contains_seq;
use crate::text::contains_str;

verus! {

/// What a query asks for, decided from the query text alone.
#[derive(Clone, Copy, Debug, PartialEq, Eq, Structural)]
pub enum QueryClass {
    /// A link into a playlist hosted on the dedicated playlist provider.
    SpotifyPlaylist,
    /// A link into a playlist on the default (video) provider.
    YoutubePlaylist,
    /// A direct link to a single track.
    DirectTrack,
    /// Free text, resolved via search on the default provider.
    Search,
}

/// The dispatch policy: a link is anything carrying an `https://`
/// scheme; among links, `playlist` selects the playlist endpoint, and
/// `spotify` selects the dedicated playlist provider.
pub open spec fn classify_spec(q: Seq<char>) -> QueryClass {
    if contains_seq(q, "https://"@) {
        if contains_seq(q, "playlist"@) {
            if contains_seq(q, "spotify"@) {
                QueryClass::SpotifyPlaylist
            } else {
                QueryClass::YoutubePlaylist
            }
        } else {
            QueryClass::DirectTrack
        }
    } else {
        QueryClass::Search
    }
}

/// Classifies a query according to the dispatch policy.
pub fn classify(q: &str) -> (c: QueryClass)
    ensures
        c == classify_spec(q@),
{
    if contains_str(q, "https://") {
        if contains_str(q, "playlist") {
            if contains_str(q, "spotify") {
                QueryClass::SpotifyPlaylist
            } else {
                QueryClass::YoutubePlaylist
            }
        } else {
            QueryClass::DirectTrack
        }
    } else {
        QueryClass::Search
    }
}

/// The characters after the last occurrence of `c` in `q`; all of `q`
/// when `c` does not occur.
pub open spec fn suffix_after_last(q: Seq<char>, c: char) -> Seq<char>
    decreases q.len(),
{
    if q.len() == 0 {
        q
    } else if q[q.len() - 1] == c {
        Seq::empty()
    } else {
        suffix_after_last(q.drop_last(), c).push(q[q.len() - 1])
    }
}

/// The playlist identifier inside a playlist link: the path segment
/// after the last slash.
pub fn playlist_id(q: &str) -> (id: String)
    ensures
        id@ == suffix_after_last(q@, '/'),
{
    let len: usize = q.unicode_len();
    let mut cut: usize = 0;
    let mut i: usize = 0;
    while i < len
        invariant
            len == q@.len(),
            cut <= i <= len,
            q@.subrange(cut as int, i as int) == suffix_after_last(
                q@.subrange(0, i as int),
                '/',
            ),
        decreases len - i,
    {
        proof {
            assert(q@.subrange(0, i + 1).drop_last() =~= q@.subrange(0, i as int));
            assert(q@.subrange(0, i + 1)[i as int] == q@[i as int]);
        }
        if q.get_char(i) == '/' {
            cut = i + 1;
            proof {
                assert(q@.subrange(cut as int, i + 1) =~= Seq::<char>::empty());
            }
        } else {
            proof {
                assert(q@.subrange(cut as int, i + 1) =~= q@.subrange(cut as int, i as int).push(
                    q@[i as int],
                ));
            }
        }
        i = i + 1;
    }
    proof {
        assert(q@.subrange(0, len as int) =~= q@);
    }
    q.substring_char(cut, len).to_owned()
}

/// The metadata endpoint for a playlist on the dedicated playlist
/// provider, asking only for each track's name and artist names.
pub open spec fn spotify_endpoint_spec(id: Seq<char>) -> Seq<char> {
    "https://api.spotify.com/v1/playlists/"@ + id
        + "?market=PL&fields=tracks.items(track.name%2C%20track.artists.name)"@
}

/// Builds the playlist metadata request URL for a playlist identifier.
pub fn spotify_endpoint(id: &str) -> (url: String)
    ensures
        url@ == spotify_endpoint_spec(id@),
{
    let url = String::from_str("https://api.spotify.com/v1/playlists/").concat(id).concat(
        "?market=PL&fields=tracks.items(track.name%2C%20track.artists.name)",
    );
    proof {
        assert(url@ =~= spotify_endpoint_spec(id@));
    }
    url
}

} // verus!
