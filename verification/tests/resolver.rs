use jukebox::errors::PlaybackError;
use jukebox::query::classify;
use jukebox::query::playlist_id;
use jukebox::query::spotify_endpoint;
use jukebox::query::QueryClass;
use jukebox::text::contains_str;
use jukebox::track::added_message;
use jukebox::track::descriptor_from_metadata;
use jukebox::track::title_line;
use jukebox::track::ProviderKind;
use jukebox::track::RawTrackMetadata;

fn raw(title: Option<&str>, artist: Option<&str>, channel: Option<&str>) -> RawTrackMetadata {
    RawTrackMetadata {
        title: title.map(str::to_string),
        artist: artist.map(str::to_string),
        channel: channel.map(str::to_string),
        duration_secs: Some(90),
        thumbnail: None,
        source_url: "https://example/v".to_string(),
    }
}

#[test]
fn playlist_links_dispatch_by_provider() {
    assert_eq!(
        classify("https://open.spotify.com/playlist/37i9dQZF1DXcBWIGoYBM5M"),
        QueryClass::SpotifyPlaylist
    );
    assert_eq!(
        classify("https://www.youtube.com/playlist?list=PL123"),
        QueryClass::YoutubePlaylist
    );
}

#[test]
fn track_links_resolve_directly_and_text_searches() {
    assert_eq!(classify("https://www.youtube.com/watch?v=abc"), QueryClass::DirectTrack);
    assert_eq!(classify("never gonna give you up"), QueryClass::Search);
    assert_eq!(classify("spotify playlist of mine"), QueryClass::Search);
}

#[test]
fn substring_search_finds_needles() {
    assert!(contains_str("https://x/playlist/1", "playlist"));
    assert!(!contains_str("https://x/album/1", "playlist"));
    assert!(contains_str("abc", ""));
    assert!(!contains_str("ab", "abc"));
    assert!(contains_str("ananas", "nas"));
}

#[test]
fn playlist_id_is_the_last_path_segment() {
    assert_eq!(playlist_id("https://open.spotify.com/playlist/123"), "123");
    assert_eq!(playlist_id("no-slash-here"), "no-slash-here");
    assert_eq!(playlist_id("trailing/slash/"), "");
}

#[test]
fn spotify_endpoint_asks_for_names_and_artists() {
    assert_eq!(
        spotify_endpoint("123"),
        "https://api.spotify.com/v1/playlists/123?market=PL&fields=tracks.items(track.name%2C%20track.artists.name)"
    );
}

#[test]
fn artist_wins_over_channel_as_performer() {
    let d = descriptor_from_metadata(raw(Some("T"), Some("A"), Some("C")), ProviderKind::Youtube)
        .unwrap();
    assert_eq!(d.performer, "A");
}

#[test]
fn channel_stands_in_for_a_missing_artist() {
    let d = descriptor_from_metadata(raw(Some("T"), None, Some("C")), ProviderKind::Youtube)
        .unwrap();
    assert_eq!(d.performer, "C");
}

#[test]
fn missing_title_or_performer_is_a_metadata_error() {
    let e = descriptor_from_metadata(raw(None, Some("A"), None), ProviderKind::Youtube)
        .unwrap_err();
    assert_eq!(e, PlaybackError::MetadataError);
    let e = descriptor_from_metadata(raw(Some("T"), None, None), ProviderKind::Youtube)
        .unwrap_err();
    assert_eq!(e, PlaybackError::MetadataError);
}

#[test]
fn enqueue_confirmation_quotes_title_and_performer() {
    let d = descriptor_from_metadata(raw(Some("Song"), Some("Band"), None), ProviderKind::Youtube)
        .unwrap();
    assert_eq!(added_message("alice", &d), "alice added `Song` by `Band`");
    assert_eq!(title_line(&d), "`Song` by `Band`");
}
