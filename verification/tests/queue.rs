use jukebox::commands::pause_command;
use jukebox::commands::repeat_command;
use jukebox::commands::resume_command;
use jukebox::commands::skip_command;
use jukebox::commands::stop_command;
use jukebox::commands::PauseReply;
use jukebox::commands::RepeatReply;
use jukebox::commands::SkipReply;
use jukebox::commands::StopReply;
use jukebox::session::QueueEntry;
use jukebox::session::SessionState;
use jukebox::session::TrackEndAdvance;
use jukebox::source::RestartableSource;
use jukebox::source::SourceState;
use jukebox::track::ProviderKind;
use jukebox::track::RawTrackMetadata;

fn metadata(title: &str) -> RawTrackMetadata {
    RawTrackMetadata {
        title: Some(title.to_string()),
        artist: Some("Artist".to_string()),
        channel: None,
        duration_secs: Some(125),
        thumbnail: Some("thumb".to_string()),
        source_url: "https://example/track".to_string(),
    }
}

fn entry(title: &str) -> QueueEntry {
    let mut src = RestartableSource::new(format!("https://example/{title}"));
    src.lazy_init(metadata(title), ProviderKind::Youtube).unwrap();
    QueueEntry::new(src)
}

fn entry_title(e: &QueueEntry) -> String {
    e.source.descriptor.as_ref().unwrap().title.clone()
}

#[test]
fn queue_grows_by_one_per_enqueue_in_insertion_order() {
    let mut s = SessionState::new();
    assert_eq!(s.queue.len(), 0);
    for (i, title) in ["a", "b", "c", "d"].iter().enumerate() {
        let started = s.join_and_enqueue(42, entry(title));
        assert_eq!(started, i == 0);
        assert_eq!(s.queue.len(), i + 1);
    }
    let titles: Vec<String> = s.queue.iter().map(entry_title).collect();
    assert_eq!(titles, vec!["a", "b", "c", "d"]);
    assert_eq!(s.channel, Some(42));
}

#[test]
fn skip_makes_next_entry_current() {
    let mut s = SessionState::new();
    s.join_and_enqueue(42, entry("first"));
    s.join_and_enqueue(42, entry("second"));
    let ended = s.skip_current().unwrap();
    assert_eq!(entry_title(&ended), "first");
    assert!(matches!(ended.source.state, SourceState::Ended));
    assert_eq!(s.queue.len(), 1);
    assert_eq!(entry_title(&s.queue[0]), "second");
}

#[test]
fn skip_on_last_entry_goes_idle() {
    let mut s = SessionState::new();
    s.join_and_enqueue(42, entry("only"));
    assert!(s.skip_current().is_some());
    assert_eq!(s.queue.len(), 0);
    assert_eq!(s.channel, Some(42));
}

#[test]
fn skip_on_idle_session_changes_no_state() {
    let mut s = SessionState::new();
    assert!(s.skip_current().is_none());
    assert_eq!(s.queue.len(), 0);
    assert_eq!(s.channel, None);
}

#[test]
fn stop_clears_queue_and_stays_connected() {
    let mut s = SessionState::new();
    s.join_and_enqueue(42, entry("a"));
    s.join_and_enqueue(42, entry("b"));
    s.join_and_enqueue(42, entry("c"));
    let ended = s.stop_and_clear();
    assert_eq!(ended.len(), 3);
    for e in &ended {
        assert!(matches!(e.source.state, SourceState::Ended));
    }
    assert_eq!(s.queue.len(), 0);
    assert_eq!(s.channel, Some(42));
}

#[test]
fn pause_then_resume_keeps_pipeline_identity() {
    let mut s = SessionState::new();
    let mut e = entry("playing");
    let link = "https://stream/1".to_string();
    e.source.restart(link, None);
    let state_before = e.source.state;
    let pipelines_before = e.source.pipelines.clone();
    s.join_and_enqueue(42, e);

    assert!(s.pause_current());
    assert!(s.queue[0].paused);
    assert!(s.resume_current());
    assert!(!s.queue[0].paused);

    assert_eq!(s.queue[0].source.state, state_before);
    assert_eq!(s.queue[0].source.pipelines, pipelines_before);
    assert!(matches!(s.queue[0].source.state, SourceState::Active { pipeline: 0 }));
}

#[test]
fn pause_with_nothing_playing_fails() {
    let mut s = SessionState::new();
    assert!(!s.pause_current());
    assert!(!s.resume_current());
}

#[test]
fn looped_track_end_replays_head_instead_of_advancing() {
    let mut s = SessionState::new();
    s.join_and_enqueue(42, entry("looped"));
    s.join_and_enqueue(42, entry("next"));
    assert_eq!(s.toggle_loop_current(), Some(true));
    match s.advance_after_end() {
        TrackEndAdvance::Replay => {}
        _ => panic!("expected the looped head to be replayed"),
    }
    assert_eq!(s.queue.len(), 2);
    assert_eq!(entry_title(&s.queue[0]), "looped");
}

#[test]
fn unlooped_track_end_advances_to_next() {
    let mut s = SessionState::new();
    s.join_and_enqueue(42, entry("first"));
    s.join_and_enqueue(42, entry("second"));
    match s.advance_after_end() {
        TrackEndAdvance::Advance { ended } => {
            assert_eq!(entry_title(&ended), "first");
            assert!(matches!(ended.source.state, SourceState::Ended));
        }
        _ => panic!("expected the queue to advance"),
    }
    assert_eq!(entry_title(&s.queue[0]), "second");
}

#[test]
fn track_end_on_idle_session_is_a_no_op() {
    let mut s = SessionState::new();
    assert!(matches!(s.advance_after_end(), TrackEndAdvance::Idle));
}

#[test]
fn toggle_loop_flips_both_ways() {
    let mut s = SessionState::new();
    s.join_and_enqueue(42, entry("t"));
    assert_eq!(s.toggle_loop_current(), Some(true));
    assert_eq!(s.toggle_loop_current(), Some(false));
    let mut idle = SessionState::new();
    assert_eq!(idle.toggle_loop_current(), None);
}

#[test]
fn skip_command_rejects_user_in_other_channel() {
    let mut s = SessionState::new();
    s.join_and_enqueue(42, entry("t"));
    let (reply, ended) = skip_command(&mut s, Some(7));
    assert_eq!(reply, SkipReply::NotWithBot);
    assert!(ended.is_none());
    assert_eq!(s.queue.len(), 1);
}

#[test]
fn skip_command_requires_a_voice_channel() {
    let mut s = SessionState::new();
    s.join_and_enqueue(42, entry("t"));
    let (reply, _) = skip_command(&mut s, None);
    assert_eq!(reply, SkipReply::UserNotInVoice);
    assert_eq!(s.queue.len(), 1);
}

#[test]
fn skip_command_in_right_channel_skips() {
    let mut s = SessionState::new();
    s.join_and_enqueue(42, entry("t"));
    let (reply, ended) = skip_command(&mut s, Some(42));
    assert_eq!(reply, SkipReply::Skipped);
    assert!(ended.is_some());
    assert_eq!(s.queue.len(), 0);
    let (reply, _) = skip_command(&mut s, Some(42));
    assert_eq!(reply, SkipReply::NothingToSkip);
}

#[test]
fn stop_command_gates_on_channels() {
    let mut s = SessionState::new();
    s.join_and_enqueue(42, entry("t"));
    let (reply, ended) = stop_command(&mut s, Some(7));
    assert_eq!(reply, StopReply::NotWithBot);
    assert!(ended.is_empty());
    let (reply, ended) = stop_command(&mut s, Some(42));
    assert_eq!(reply, StopReply::Cleared);
    assert_eq!(ended.len(), 1);
    let mut unconnected = SessionState::new();
    let (reply, _) = stop_command(&mut unconnected, Some(42));
    assert_eq!(reply, StopReply::BotNotInVoice);
    let (reply, _) = stop_command(&mut unconnected, None);
    assert_eq!(reply, StopReply::UserNotInVoice);
}

#[test]
fn pause_and_resume_commands_follow_the_gate() {
    let mut s = SessionState::new();
    s.join_and_enqueue(42, entry("t"));
    assert_eq!(pause_command(&mut s, Some(42)), PauseReply::Done);
    assert!(s.queue[0].paused);
    assert_eq!(resume_command(&mut s, Some(42)), PauseReply::Done);
    assert!(!s.queue[0].paused);
    assert_eq!(pause_command(&mut s, Some(9)), PauseReply::NotWithBot);
    assert_eq!(pause_command(&mut s, None), PauseReply::UserNotInVoice);
    let mut idle = SessionState::new();
    idle.join_and_enqueue(42, entry("t"));
    idle.skip_current();
    assert_eq!(pause_command(&mut idle, Some(42)), PauseReply::NothingPlaying);
}

#[test]
fn repeat_command_reports_the_new_flag() {
    let mut s = SessionState::new();
    s.join_and_enqueue(42, entry("t"));
    assert_eq!(repeat_command(&mut s, Some(42)), RepeatReply::Enabled);
    assert_eq!(repeat_command(&mut s, Some(42)), RepeatReply::Disabled);
    assert_eq!(repeat_command(&mut s, Some(1)), RepeatReply::NotWithBot);
    let mut idle = SessionState::new();
    idle.channel = Some(42);
    assert_eq!(repeat_command(&mut idle, Some(42)), RepeatReply::NothingToLoop);
}
