use jukebox::errors::PlaybackError;
use jukebox::source::Codec;
use jukebox::source::Container;
use jukebox::source::RestartableSource;
use jukebox::source::SourceState;
use jukebox::source::seek_stamp;
use jukebox::track::ProviderKind;
use jukebox::track::RawTrackMetadata;

fn full_metadata() -> RawTrackMetadata {
    RawTrackMetadata {
        title: Some("Title".to_string()),
        artist: Some("Artist".to_string()),
        channel: Some("Channel".to_string()),
        duration_secs: Some(200),
        thumbnail: Some("thumb".to_string()),
        source_url: "https://example/v".to_string(),
    }
}

fn live_pipelines(s: &RestartableSource) -> usize {
    s.pipelines.iter().filter(|live| **live).count()
}

#[test]
fn restart_always_leaves_exactly_one_live_pipeline() {
    let mut s = RestartableSource::new("https://example/v".to_string());
    assert_eq!(live_pipelines(&s), 0);
    s.restart("https://stream/1".to_string(), None);
    assert_eq!(live_pipelines(&s), 1);
    s.restart("https://stream/2".to_string(), Some(4_000));
    s.restart("https://stream/3".to_string(), Some(8_000));
    s.restart("https://stream/4".to_string(), Some(9_500));
    assert_eq!(live_pipelines(&s), 1);
    assert_eq!(s.pipelines.len(), 4);
    assert!(matches!(s.state, SourceState::Active { pipeline: 3 }));
    assert!(s.pipelines[3]);
}

#[test]
fn restart_without_offset_omits_the_seek() {
    let mut s = RestartableSource::new("https://example/v".to_string());
    let req = s.restart("https://stream/raw".to_string(), None);
    assert_eq!(req.fetch_locator, "https://stream/raw");
    assert_eq!(
        req.transcode_args,
        vec!["-i", "-", "-f", "s16le", "-ac", "2", "-ar", "48000", "-acodec", "pcm_f32le", "-"]
    );
}

#[test]
fn restart_with_offset_seeks_first() {
    let mut s = RestartableSource::new("https://example/v".to_string());
    let req = s.restart("https://stream/raw".to_string(), Some(12_345));
    assert_eq!(
        req.transcode_args,
        vec![
            "-ss", "12.345", "-i", "-", "-f", "s16le", "-ac", "2", "-ar", "48000", "-acodec",
            "pcm_f32le", "-"
        ]
    );
}

#[test]
fn seek_stamps_pad_milliseconds_to_three_digits() {
    assert_eq!(seek_stamp(0), "0.000");
    assert_eq!(seek_stamp(999), "0.999");
    assert_eq!(seek_stamp(12_345), "12.345");
    assert_eq!(seek_stamp(61_000), "61.000");
    assert_eq!(seek_stamp(5_007), "5.007");
    assert_eq!(seek_stamp(5_070), "5.070");
}

#[test]
fn spawn_failure_ends_only_this_track() {
    let mut s = RestartableSource::new("https://example/v".to_string());
    s.restart("https://stream/1".to_string(), None);
    let e = s.spawn_failed();
    assert_eq!(e, PlaybackError::PipelineSpawnError);
    assert!(matches!(s.state, SourceState::Ended));
    assert_eq!(live_pipelines(&s), 0);
}

#[test]
fn end_tears_every_pipeline_down() {
    let mut s = RestartableSource::new("term".to_string());
    s.restart("https://stream/1".to_string(), None);
    s.restart("https://stream/2".to_string(), Some(1_000));
    s.end();
    assert!(matches!(s.state, SourceState::Ended));
    assert_eq!(live_pipelines(&s), 0);
}

#[test]
fn lazy_init_reports_the_fixed_stream_format() {
    let mut s = RestartableSource::new("https://example/v".to_string());
    let f = s.lazy_init(full_metadata(), ProviderKind::Youtube).unwrap();
    assert_eq!(f.codec, Codec::FloatPcm);
    assert_eq!(f.container, Container::Raw);
    let d = s.descriptor.as_ref().unwrap();
    assert_eq!(d.title, "Title");
    assert_eq!(d.performer, "Artist");
    assert_eq!(d.duration_secs, Some(200));
    assert_eq!(d.provider, ProviderKind::Youtube);
}

#[test]
fn lazy_init_without_title_is_a_metadata_error() {
    let mut s = RestartableSource::new("https://example/v".to_string());
    let mut m = full_metadata();
    m.title = None;
    let r = s.lazy_init(m, ProviderKind::Youtube);
    assert_eq!(r.unwrap_err(), PlaybackError::MetadataError);
    assert!(s.descriptor.is_none());
}

#[test]
fn search_queries_are_resolved_by_search() {
    let by_link = RestartableSource::new("https://example/v".to_string());
    assert!(!by_link.by_search);
    let by_text = RestartableSource::new("some song name".to_string());
    assert!(by_text.by_search);
}
