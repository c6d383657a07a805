use listenbrainz_mpv::cache::CacheStore;
use listenbrainz_mpv::scrobbler::{Event, Feedback, FeedbackError, ListenbrainzData, LoadStep, Phase};
use listenbrainz_mpv::wire::ListenType;

fn tags() -> Vec<(String, String)> {
    vec![
        ("ARTIST".to_string(), "Artist".to_string()),
        ("TITLE".to_string(), "Song".to_string()),
        ("ALBUM".to_string(), "Album".to_string()),
    ]
}

fn tracking(online: bool, now: u64) -> ListenbrainzData {
    let mut d = ListenbrainzData::new(online, false);
    assert_eq!(d.begin_load(None, &tags(), "song.flac"), LoadStep::NeedsLookup);
    assert_eq!(d.phase, Phase::Loading);
    d.finish_load(None, 200_000, 1000, now);
    d
}

#[test]
fn load_arms_deadline_and_announces() {
    let mut d = ListenbrainzData::new(true, false);
    d.begin_load(Some(0), &tags(), "song.flac");
    let notice = d.finish_load(None, 200_000, 1000, 5_000).unwrap();
    assert_eq!(d.phase, Phase::Tracking);
    assert_eq!(d.scrobble_deadline, 105_000);
    assert_eq!(d.timer.armed_at(), Some(105_000));
    assert_eq!(notice.listen_type, ListenType::PlayingNow);
    assert_eq!(notice.listened_at, None);
    let body = String::from_utf8(notice.request()).unwrap();
    assert!(body.starts_with(r#"{"listen_type":"playing_now","payload":[{"track_metadata":"#));
}

#[test]
fn offline_load_sends_no_notice() {
    let mut d = ListenbrainzData::new(false, false);
    d.begin_load(None, &tags(), "song.flac");
    assert!(d.finish_load(None, 200_000, 1000, 0).is_none());
    assert_eq!(d.phase, Phase::Tracking);
}

#[test]
fn resumed_playback_keeps_session() {
    let mut d = tracking(true, 0);
    assert_eq!(d.begin_load(Some(12), &Vec::new(), "other.flac"), LoadStep::Ignored);
    assert_eq!(d.phase, Phase::Tracking);
    assert_eq!(d.payload.track_metadata.track_name, "Song");
}

#[test]
fn untagged_file_is_not_eligible() {
    let mut d = ListenbrainzData::new(true, false);
    let t = vec![("TITLE".to_string(), "song.flac".to_string())];
    d.begin_load(None, &t, "song.flac");
    assert!(d.finish_load(None, 200_000, 1000, 0).is_none());
    assert_eq!(d.phase, Phase::NotEligible);
    assert_eq!(d.timer.armed_at(), None);
    let a = d.handle(Event::DeadlineReached { wall_secs: 10 });
    assert!(a.submission.is_none());
}

#[test]
fn tagged_recording_needs_no_lookup() {
    let mut d = ListenbrainzData::new(true, false);
    let mut t = tags();
    t.push(("MUSICBRAINZ_TRACKID".to_string(), "rec-0".to_string()));
    assert_eq!(d.begin_load(None, &t, "song.flac"), LoadStep::Ready);
    d.finish_load(Some("ignored".to_string()), 200_000, 1000, 0);
    assert_eq!(d.payload.track_metadata.additional_info.recording_mbid, "rec-0");
}

#[test]
fn lookup_fills_recording_id() {
    let mut d = ListenbrainzData::new(true, false);
    d.begin_load(None, &tags(), "song.flac");
    d.finish_load(Some("rec-1".to_string()), 200_000, 1000, 0);
    assert_eq!(d.payload.track_metadata.additional_info.recording_mbid, "rec-1");
}

#[test]
fn finish_outside_load_changes_nothing() {
    let mut d = ListenbrainzData::new(true, false);
    assert!(d.finish_load(None, 200_000, 1000, 0).is_none());
    assert_eq!(d.phase, Phase::Idle);
}

#[test]
fn deadline_of_200_second_track_submits_final_listen() {
    let mut d = tracking(true, 0);
    assert_eq!(d.scrobble_deadline, 100_000);
    let a = d.handle(Event::DeadlineReached { wall_secs: 1_700_000_000 });
    let sub = a.submission.unwrap();
    assert_eq!(sub.listen_type, ListenType::Single);
    assert_eq!(sub.listened_at, Some(1_700_000_000));
    assert!(sub.send);
    let body = String::from_utf8(sub.request()).unwrap();
    assert!(body.starts_with(r#"{"listen_type":"single","payload":[{"listened_at":1700000000,"#));
    assert!(body.contains(r#""duration_ms":200000"#));
    assert_eq!(d.phase, Phase::Finalized);
    assert_eq!(d.timer.armed_at(), None);
}

#[test]
fn short_track_deadline() {
    let mut d = ListenbrainzData::new(false, false);
    d.begin_load(None, &tags(), "song.flac");
    d.finish_load(None, 30_000, 1000, 0);
    assert_eq!(d.scrobble_deadline, 29_000);
}

#[test]
fn one_final_listen_per_session() {
    let mut d = tracking(true, 0);
    let first = d.handle(Event::DeadlineReached { wall_secs: 50 });
    assert!(first.submission.is_some());
    let events = [
        Event::Pause { now: 1 },
        Event::Resume { now: 2 },
        Event::SpeedChange { speed: 2000, duration_ms: 200_000, position_ms: 0, now: 3 },
        Event::Seek { position_secs: 0, duration_ms: 200_000, speed: 1000, now: 4 },
        Event::DeadlineReached { wall_secs: 60 },
        Event::DeadlineReached { wall_secs: 70 },
    ];
    for e in events {
        let a = d.handle(e);
        assert!(a.submission.is_none());
        assert_eq!(d.phase, Phase::Finalized);
    }
}

#[test]
fn pause_and_resume_shift_deadline() {
    let mut d = tracking(true, 0);
    d.handle(Event::Pause { now: 10_000 });
    assert_eq!(d.phase, Phase::Paused);
    assert_eq!(d.timer.armed_at(), None);
    assert!(d.handle(Event::DeadlineReached { wall_secs: 9 }).submission.is_none());
    d.handle(Event::Resume { now: 25_000 });
    assert_eq!(d.phase, Phase::Tracking);
    assert_eq!(d.scrobble_deadline, 115_000);
    assert_eq!(d.timer.armed_at(), Some(115_000));
    d.handle(Event::Pause { now: 30_000 });
    d.handle(Event::Resume { now: 30_000 });
    assert_eq!(d.scrobble_deadline, 115_000);
}

#[test]
fn resume_without_pause_does_nothing() {
    let mut d = tracking(true, 0);
    d.handle(Event::Resume { now: 50_000 });
    assert_eq!(d.scrobble_deadline, 100_000);
}

#[test]
fn speed_change_recomputes_from_position() {
    let mut d = tracking(true, 0);
    d.handle(Event::SpeedChange { speed: 2000, duration_ms: 200_000, position_ms: 20_000, now: 20_000 });
    assert_eq!(d.scrobble_deadline, 50_000);
    assert_eq!(d.timer.armed_at(), Some(50_000));
}

#[test]
fn seek_to_start_restarts_window() {
    let mut d = tracking(true, 0);
    d.handle(Event::Seek { position_secs: 30, duration_ms: 200_000, speed: 1000, now: 40_000 });
    assert_eq!(d.scrobble_deadline, 100_000);
    d.handle(Event::Seek { position_secs: 0, duration_ms: 200_000, speed: 1000, now: 40_000 });
    assert_eq!(d.scrobble_deadline, 140_000);
    assert_eq!(d.timer.armed_at(), Some(140_000));
}

#[test]
fn offline_deadline_caches_then_reconciles_on_reconnect() {
    let mut d = tracking(false, 0);
    let sub = d.handle(Event::DeadlineReached { wall_secs: 1_700_000_123 }).submission.unwrap();
    assert!(!sub.send);
    let direct = sub.request();
    let pending = sub.fallback(false).unwrap();
    assert_eq!(pending.name, b"1700000123.json".to_vec());
    let mut store = CacheStore::new();
    store.persist(pending);
    let a = d.handle(Event::Connectivity { online: true });
    assert!(a.reconcile);
    assert!(a.submission.is_none());
    let body = store.reconcile_request().unwrap();
    assert_eq!(body, direct);
    assert!(String::from_utf8(body).unwrap().starts_with(r#"{"listen_type":"single","#));
    assert_eq!(store.settle(true), vec![b"1700000123.json".to_vec()]);
    assert_eq!(store.len(), 0);
}

#[test]
fn reconnect_while_tracking_announces() {
    let mut d = tracking(false, 0);
    let a = d.handle(Event::Connectivity { online: true });
    assert!(a.reconcile);
    assert_eq!(a.submission.unwrap().listen_type, ListenType::PlayingNow);
    let b = d.handle(Event::Connectivity { online: false });
    assert!(!b.reconcile);
    assert!(b.submission.is_none());
    assert!(!d.online);
}

#[test]
fn feedback_needs_recording_and_connection() {
    let mut d = tracking(true, 0);
    assert_eq!(d.feedback(Feedback::Love), Err(FeedbackError::UnknownRecording));
    d.payload.track_metadata.additional_info.recording_mbid = "rec".to_string();
    assert_eq!(d.feedback(Feedback::Hate).unwrap(), br#"{"recording_mbid":"rec","score":-1}"#.to_vec());
    d.handle(Event::Connectivity { online: false });
    assert_eq!(d.feedback(Feedback::Unrate), Err(FeedbackError::Offline));
}

#[test]
fn client_messages() {
    let msg = |a: &str, b: &str| vec![a.to_string(), b.to_string()];
    assert_eq!(Feedback::from_client_message(&msg("key-binding", "listenbrainz-love")), Some(Feedback::Love));
    assert_eq!(Feedback::from_client_message(&msg("key-binding", "listenbrainz-hate")), Some(Feedback::Hate));
    assert_eq!(Feedback::from_client_message(&msg("key-binding", "listenbrainz-unrate")), Some(Feedback::Unrate));
    assert_eq!(Feedback::from_client_message(&msg("key-binding", "other")), None);
    assert_eq!(Feedback::from_client_message(&msg("other", "listenbrainz-love")), None);
    assert_eq!(Feedback::from_client_message(&vec!["key-binding".to_string()]), None);
    assert_eq!(Feedback::Hate.score(), -1);
}
