use jukebox::playlist::entry_links;
use jukebox::playlist::item_queries;
use jukebox::playlist::IngestProgress;
use jukebox::playlist::PlaylistEntry;
use jukebox::playlist::PlaylistItem;
use jukebox::query::classify;
use jukebox::query::QueryClass;
use jukebox::session::QueueEntry;
use jukebox::session::SessionState;
use jukebox::source::RestartableSource;
use jukebox::track::ProviderKind;
use jukebox::track::RawTrackMetadata;

fn item(name: Option<&str>, artists: &[&str]) -> PlaylistItem {
    PlaylistItem {
        name: name.map(str::to_string),
        artists: artists.iter().map(|a| a.to_string()).collect(),
    }
}

#[test]
fn item_queries_join_name_and_first_artist() {
    let items = vec![
        item(Some("Song A"), &["X", "Y"]),
        item(None, &["X"]),
        item(Some("Song B"), &[]),
        item(Some("Song C"), &["Z"]),
    ];
    assert_eq!(item_queries(&items), vec!["Song A - X", "Song C - Z"]);
}

#[test]
fn entry_links_skip_entries_without_one() {
    let entries = vec![
        PlaylistEntry { link: Some("https://t/1".to_string()) },
        PlaylistEntry { link: None },
        PlaylistEntry { link: Some("https://t/3".to_string()) },
    ];
    assert_eq!(entry_links(&entries), vec!["https://t/1", "https://t/3"]);
}

#[test]
fn counters_report_successes_and_failures() {
    let mut p = IngestProgress::new(5);
    for resolved in [true, false, true, true, false] {
        p.step(resolved);
    }
    assert_eq!(p.done, 5);
    assert_eq!(p.ok, 3);
    assert_eq!(p.failed, 2);
}

#[test]
fn one_failing_item_of_three_gives_the_documented_progression() {
    let query = "https://provider/playlist/123";
    assert_eq!(classify(query), QueryClass::YoutubePlaylist);

    let mut session = SessionState::new();
    let mut progress = IngestProgress::new(3);
    let mut statuses: Vec<String> = Vec::new();

    for (i, resolves) in [true, false, true].iter().enumerate() {
        let resolved = if *resolves {
            let mut src = RestartableSource::new(format!("https://provider/track/{i}"));
            let m = RawTrackMetadata {
                title: Some(format!("track {i}")),
                artist: Some("someone".to_string()),
                channel: None,
                duration_secs: Some(60),
                thumbnail: None,
                source_url: format!("https://provider/track/{i}"),
            };
            src.lazy_init(m, ProviderKind::Youtube).is_ok() && {
                session.join_and_enqueue(42, QueueEntry::new(src));
                true
            }
        } else {
            false
        };
        progress.step(resolved);
        statuses.push(progress.status_message());
    }

    assert_eq!(
        statuses,
        vec![
            "`Loading... 1/3`\n`Ok: 1 | Failed: 0`",
            "`Loading... 2/3`\n`Ok: 1 | Failed: 1`",
            "`Loading... 3/3`\n`Ok: 2 | Failed: 1`",
        ]
    );
    assert_eq!(session.queue.len(), 2);
}

#[test]
fn ingestion_enqueues_exactly_the_resolved_tracks() {
    let outcomes = [true, true, false, true, false, false, true];
    let failures = outcomes.iter().filter(|o| !**o).count() as u64;
    let k = outcomes.len() as u64;

    let mut session = SessionState::new();
    let mut progress = IngestProgress::new(k);
    for (i, resolved) in outcomes.iter().enumerate() {
        if *resolved {
            let mut src = RestartableSource::new(format!("q{i}"));
            let m = RawTrackMetadata {
                title: Some(format!("t{i}")),
                artist: Some("a".to_string()),
                channel: None,
                duration_secs: None,
                thumbnail: None,
                source_url: format!("u{i}"),
            };
            src.lazy_init(m, ProviderKind::Youtube).unwrap();
            session.join_and_enqueue(1, QueueEntry::new(src));
        }
        progress.step(*resolved);
    }
    assert_eq!(progress.ok, k - failures);
    assert_eq!(progress.failed, failures);
    assert_eq!(session.queue.len() as u64, k - failures);
}
