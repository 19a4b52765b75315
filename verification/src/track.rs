//! Track descriptors: the immutable metadata a provider lookup
//! resolves a query into, and the validation that turns a provider's
//! raw metadata into a descriptor.

use vstd::prelude::*;
use vstd::string::StringExecFns;

use crate::errors::PlaybackError;

verus! {

/// The provider a track was resolved on.
#[derive(Clone, Copy, Debug, PartialEq, Eq, Structural)]
pub enum ProviderKind {
    /// The default (video) provider; also resolves free-text searches.
    Youtube,
    /// The dedicated playlist provider.
    Spotify,
}

/// What a provider lookup reports about a track, before validation.
/// Every field a provider may omit is optional here.
pub struct RawTrackMetadata {
    pub title: Option<String>,
    pub artist: Option<String>,
    pub channel: Option<String>,
    pub duration_secs: Option<u64>,
    pub thumbnail: Option<String>,
    pub source_url: String,
}

/// A resolved track: immutable once built. The performer is the
/// artist when the provider reported one, else the channel name.
#[derive(Debug)]
pub struct TrackDescriptor {
    pub title: String,
    pub performer: String,
    pub duration_secs: Option<u64>,
    pub thumbnail: Option<String>,
    pub source_url: String,
    pub provider: ProviderKind,
}

impl TrackDescriptor {
    /// The duration used by displays; an unknown duration reads as zero.
    pub open spec fn spec_duration_or_zero(&self) -> u64 {
        match self.duration_secs {
            Some(d) => d,
            None => 0,
        }
    }

    /// Returns the duration, or zero when the provider reported none.
    pub fn duration_or_zero(&self) -> (d: u64)
        ensures
            d == self.spec_duration_or_zero(),
    {
        match self.duration_secs {
            Some(d) => d,
            None => 0,
        }
    }
}

/// Raw metadata carries everything a descriptor needs: a title, and
/// a performer (an artist, or failing that a channel name).
pub open spec fn metadata_complete(m: RawTrackMetadata) -> bool {
    m.title is Some && (m.artist is Some || m.channel is Some)
}

/// `d` is the descriptor that validation of `m` produces: the title
/// as reported, the artist as performer when present and otherwise
/// the channel name, and everything else carried over unchanged.
pub open spec fn is_descriptor_of(m: RawTrackMetadata, provider: ProviderKind, d: TrackDescriptor) -> bool {
    &&& m.title matches Some(t) && d.title == t
    &&& {
        ||| m.artist matches Some(a) && d.performer == a
        ||| (m.artist is None && (m.channel matches Some(c) && d.performer == c))
    }
    &&& d.duration_secs == m.duration_secs
    &&& d.thumbnail == m.thumbnail
    &&& d.source_url == m.source_url
    &&& d.provider == provider
}

/// Validates raw provider metadata. The title is required, and so is
/// a performer: the artist when present, else the channel name.
/// Anything missing is a metadata error; nothing else is rejected.
pub fn descriptor_from_metadata(m: RawTrackMetadata, provider: ProviderKind) -> (r: Result<
    TrackDescriptor,
    PlaybackError,
>)
    ensures
        match r {
            Ok(d) => metadata_complete(m) && is_descriptor_of(m, provider, d),
            Err(e) => e == PlaybackError::MetadataError && !metadata_complete(m),
        },
{
    let title = match m.title {
        Some(t) => t,
        None => {
            return Err(PlaybackError::MetadataError);
        },
    };
    let performer = match m.artist {
        Some(a) => a,
        None => match m.channel {
            Some(c) => c,
            None => {
                return Err(PlaybackError::MetadataError);
            },
        },
    };
    Ok(
        TrackDescriptor {
            title,
            performer,
            duration_secs: m.duration_secs,
            thumbnail: m.thumbnail,
            source_url: m.source_url,
            provider,
        },
    )
}

/// The confirmation shown after a track is enqueued:
/// `<user> added `<title>` by `<performer>``.
pub open spec fn added_message_spec(user: Seq<char>, title: Seq<char>, performer: Seq<char>) -> Seq<
    char,
> {
    user + " added `"@ + title + "` by `"@ + performer + "`"@
}

/// Builds the enqueue confirmation for a track.
pub fn added_message(user: &str, d: &TrackDescriptor) -> (s: String)
    ensures
        s@ == added_message_spec(user@, d.title@, d.performer@),
{
    let s = String::from_str(user).concat(" added `").concat(d.title.as_str()).concat(
        "` by `",
    ).concat(d.performer.as_str()).concat("`");
    proof {
        assert(s@ =~= added_message_spec(user@, d.title@, d.performer@));
    }
    s
}

/// The heading of the now-playing display: `` `<title>` by `<performer>` ``.
pub open spec fn title_line_spec(title: Seq<char>, performer: Seq<char>) -> Seq<char> {
    "`"@ + title + "` by `"@ + performer + "`"@
}

/// Builds the now-playing heading for a track.
pub fn title_line(d: &TrackDescriptor) -> (s: String)
    ensures
        s@ == title_line_spec(d.title@, d.performer@),
{
    let s = String::from_str("`").concat(d.title.as_str()).concat("` by `").concat(
        d.performer.as_str(),
    ).concat("`");
    proof {
        assert(s@ =~= title_line_spec(d.title@, d.performer@));
    }
    s
}

} // verus!
