use listenbrainz_mpv::cache::{pending_file_name, CacheStore, PendingListen};
use listenbrainz_mpv::delivery::Submission;
use listenbrainz_mpv::wire::ListenType;

fn pending(name: &str, contents: &str) -> PendingListen {
    PendingListen { name: name.as_bytes().to_vec(), contents: contents.as_bytes().to_vec() }
}

#[test]
fn empty_cache_sends_nothing() {
    let store = CacheStore::new();
    assert_eq!(store.reconcile_request(), None);
}

#[test]
fn failed_reconciliation_keeps_every_file() {
    let mut store = CacheStore::new();
    store.persist(pending("1.json", "{\"a\":1}"));
    store.persist(pending("2.json", "{\"b\":2}"));
    store.persist(pending("3.json", "{\"c\":3}"));
    assert!(store.reconcile_request().is_some());
    let deleted = store.settle(false);
    assert!(deleted.is_empty());
    assert_eq!(store.len(), 3);
}

#[test]
fn successful_reconciliation_removes_every_file() {
    let mut store = CacheStore::new();
    store.persist(pending("1.json", "{\"a\":1}"));
    store.persist(pending("2.json", "{\"b\":2}"));
    store.persist(pending("3.json", "{\"c\":3}"));
    let deleted = store.settle(true);
    assert_eq!(deleted, vec![b"1.json".to_vec(), b"2.json".to_vec(), b"3.json".to_vec()]);
    assert_eq!(store.len(), 0);
    assert_eq!(store.reconcile_request(), None);
}

#[test]
fn same_name_is_overwritten() {
    let mut store = CacheStore::new();
    store.persist(pending("1.json", "{\"a\":1}"));
    store.persist(pending("2.json", "{\"b\":2}"));
    store.persist(pending("1.json", "{\"a\":9}"));
    assert_eq!(store.len(), 2);
    assert_eq!(
        store.reconcile_request().unwrap(),
        br#"{"listen_type":"import","payload":[{"a":9},{"b":2}]}"#.to_vec()
    );
}

#[test]
fn two_cached_listens_go_as_one_import() {
    let mut store = CacheStore::new();
    store.persist(pending("100.json", "{\"x\":1}"));
    store.persist(pending("200.json", "{\"y\":2}"));
    assert_eq!(
        store.reconcile_request().unwrap(),
        br#"{"listen_type":"import","payload":[{"x":1},{"y":2}]}"#.to_vec()
    );
    assert!(store.settle(false).is_empty());
    assert_eq!(store.len(), 2);
    assert_eq!(store.settle(true).len(), 2);
    assert_eq!(store.len(), 0);
}

#[test]
fn cached_listen_round_trips_byte_for_byte() {
    let sub = Submission {
        listen_type: ListenType::Single,
        payload: b"{\"listened_at\":42}".to_vec(),
        listened_at: Some(42),
        send: false,
    };
    let direct = sub.request();
    let cached = sub.fallback(false).unwrap();
    assert_eq!(cached.name, pending_file_name(42));
    assert_eq!(cached.name, b"42.json".to_vec());
    let mut store = CacheStore::new();
    store.persist(cached);
    assert_eq!(store.reconcile_request().unwrap(), direct);
}

#[test]
fn delivered_or_notice_is_not_cached() {
    let sent = Submission {
        listen_type: ListenType::Single,
        payload: b"{}".to_vec(),
        listened_at: Some(7),
        send: true,
    };
    assert!(sent.fallback(true).is_none());
    assert!(sent.fallback(false).is_some());
    let notice = Submission {
        listen_type: ListenType::PlayingNow,
        payload: b"{}".to_vec(),
        listened_at: None,
        send: true,
    };
    assert!(notice.fallback(false).is_none());
}
