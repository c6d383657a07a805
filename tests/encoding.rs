use listenbrainz_mpv::cache::pending_file_name;
use listenbrainz_mpv::listen::{AdditionalInfo, Payload, TrackMetadata};
use listenbrainz_mpv::wire::{encode_feedback, encode_listens, encode_payload, same_bytes, ListenType};

fn sample(listened_at: Option<u64>) -> Payload {
    Payload {
        listened_at,
        track_metadata: TrackMetadata {
            additional_info: AdditionalInfo {
                release_mbid: String::new(),
                artist_mbids: Vec::new(),
                recording_mbid: String::new(),
                duration_ms: 200_000,
            },
            artist_name: "Artist".to_string(),
            track_name: "Song".to_string(),
            release_name: "Album".to_string(),
        },
    }
}

const CLIENT: &str = r#"{"additional_info":{"media_player":"mpv","submission_client":"mpv ListenBrainz Rust","submission_client_version":"0.1.0""#;

#[test]
fn payload_omits_empty_fields() {
    let bytes = encode_payload(&sample(None)).unwrap();
    let expected = format!(
        r#"{{"track_metadata":{},"duration_ms":200000}},"artist_name":"Artist","track_name":"Song","release_name":"Album"}}}}"#,
        CLIENT
    );
    assert_eq!(String::from_utf8(bytes).unwrap(), expected);
}

#[test]
fn payload_with_every_field() {
    let mut p = sample(Some(1_700_000_000));
    p.track_metadata.additional_info.release_mbid = "rel".to_string();
    p.track_metadata.additional_info.artist_mbids = vec!["a1".to_string(), "a2".to_string()];
    p.track_metadata.additional_info.recording_mbid = "rec".to_string();
    let bytes = encode_payload(&p).unwrap();
    let expected = format!(
        r#"{{"listened_at":1700000000,"track_metadata":{},"release_mbid":"rel","artist_mbids":["a1","a2"],"recording_mbid":"rec","duration_ms":200000}},"artist_name":"Artist","track_name":"Song","release_name":"Album"}}}}"#,
        CLIENT
    );
    assert_eq!(String::from_utf8(bytes).unwrap(), expected);
}

#[test]
fn payload_escapes_strings() {
    let mut p = sample(None);
    p.track_metadata.track_name = "Say \"Hi\"\n".to_string();
    let text = String::from_utf8(encode_payload(&p).unwrap()).unwrap();
    assert!(text.contains(r#""track_name":"Say \"Hi\"\n""#));
}

#[test]
fn single_listen_envelope() {
    let body = encode_listens(ListenType::Single, &vec![b"{}".to_vec()]);
    assert_eq!(body, br#"{"listen_type":"single","payload":[{}]}"#.to_vec());
}

#[test]
fn import_envelope_keeps_order() {
    let body = encode_listens(ListenType::Import, &vec![b"{\"a\":1}".to_vec(), b"{\"b\":2}".to_vec()]);
    assert_eq!(body, br#"{"listen_type":"import","payload":[{"a":1},{"b":2}]}"#.to_vec());
}

#[test]
fn playing_now_envelope() {
    let body = encode_listens(ListenType::PlayingNow, &vec![b"{}".to_vec()]);
    assert_eq!(body, br#"{"listen_type":"playing_now","payload":[{}]}"#.to_vec());
}

#[test]
fn feedback_bodies() {
    assert_eq!(encode_feedback("abc", 1).unwrap(), br#"{"recording_mbid":"abc","score":1}"#.to_vec());
    assert_eq!(encode_feedback("abc", -1).unwrap(), br#"{"recording_mbid":"abc","score":-1}"#.to_vec());
    assert_eq!(encode_feedback("abc", 0).unwrap(), br#"{"recording_mbid":"abc","score":0}"#.to_vec());
}

#[test]
fn cache_file_names() {
    assert_eq!(pending_file_name(1_700_000_000), b"1700000000.json".to_vec());
    assert_eq!(pending_file_name(0), b"0.json".to_vec());
    assert_eq!(pending_file_name(u64::MAX), b"18446744073709551615.json".to_vec());
}

#[test]
fn byte_comparison() {
    assert!(same_bytes(b"abc", b"abc"));
    assert!(!same_bytes(b"abc", b"abd"));
    assert!(!same_bytes(b"ab", b"abc"));
}
