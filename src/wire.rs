//! The JSON bodies sent to the ListenBrainz endpoints, built as bytes.
//!
//! Field order and omission follow the submit-listens schema: optional
//! identifiers are left out entirely when empty, and `listened_at` is left
//! out of a notice that a track is playing now.

use vstd::prelude::*;
use vstd::string::StringSliceAdditionalSpecFns;
use crate::listen::{Payload, string_views};

verus! {

/// The JSON string literal that serde_json writes for `s`, or `None` where it
/// reports an error.
pub uninterp spec fn json_string_of(s: Seq<char>) -> Option<Seq<u8>>;

/// Relies on `serde_json::to_vec` applied to a `str`: the quoted and escaped
/// JSON string literal, which depends on the characters alone.
#[verifier::external_body]
fn json_string(s: &str) -> (r: Option<Vec<u8>>)
    ensures
        match r {
            Some(b) => json_string_of(s@) == Some(b@),
            None => json_string_of(s@) == None::<Seq<u8>>,
        },
{
    serde_json::to_vec(s).ok()
}

/// The bytes of `s` as a JSON string literal (empty where it has none).
pub open spec fn quoted(s: Seq<char>) -> Seq<u8> {
    match json_string_of(s) {
        Some(b) => b,
        None => Seq::empty(),
    }
}

/// `n` in decimal, without leading zeros.
pub open spec fn decimal(n: nat) -> Seq<u8>
    decreases n,
{
    if n < 10 {
        seq![(48 + n) as u8]
    } else {
        decimal(n / 10).push((48 + n % 10) as u8)
    }
}

/// `n` in decimal with a leading minus sign when negative.
pub open spec fn signed_decimal(n: int) -> Seq<u8> {
    if n < 0 {
        seq![45u8] + decimal((-n) as nat)
    } else {
        decimal(n as nat)
    }
}

/// The items separated by commas.
pub open spec fn comma_joined(items: Seq<Seq<u8>>) -> Seq<u8>
    decreases items.len(),
{
    if items.len() == 0 {
        Seq::empty()
    } else if items.len() == 1 {
        items[0]
    } else {
        comma_joined(items.drop_last()) + seq![44u8] + items.last()
    }
}

/// Whether two byte strings are equal.
pub fn same_bytes(a: &[u8], b: &[u8]) -> (r: bool)
    ensures
        r == (a@ == b@),
{
    if a.len() != b.len() {
        return false;
    }
    let mut i: usize = 0;
    while i < a.len()
        invariant
            i <= a@.len(),
            a@.len() == b@.len(),
            forall|j: int| 0 <= j < i ==> a@[j] == b@[j],
        decreases a@.len() - i,
    {
        if a[i] != b[i] {
            return false;
        }
        i += 1;
    }
    assert(a@ =~= b@);
    true
}

/// Appends the UTF-8 bytes of `s`.
pub(crate) fn push_text(out: &mut Vec<u8>, s: &str)
    ensures
        final(out)@ == old(out)@ + s.spec_bytes(),
{
    out.extend_from_slice(s.as_bytes());
}

/// Appends `n` in decimal.
pub(crate) fn push_decimal(out: &mut Vec<u8>, n: u64)
    ensures
        final(out)@ == old(out)@ + decimal(n as nat),
    decreases n,
{
    if n >= 10 {
        push_decimal(out, n / 10);
    }
    let d: u8 = (n % 10) as u8;
    out.push(48u8 + d);
    assert(final(out)@ =~= old(out)@ + decimal(n as nat));
}

/// Appends `s` as a JSON string literal; false, with `out` in some state,
/// where serde_json refuses it.
fn push_quoted(out: &mut Vec<u8>, s: &str) -> (ok: bool)
    ensures
        ok == (json_string_of(s@) is Some),
        ok ==> final(out)@ == old(out)@ + quoted(s@),
{
    match json_string(s) {
        Some(b) => {
            out.extend_from_slice(b.as_slice());
            true
        },
        None => false,
    }
}

/// Appends the items separated by commas.
fn push_joined(out: &mut Vec<u8>, items: &Vec<Vec<u8>>)
    ensures
        final(out)@ == old(out)@ + comma_joined(items@.map_values(|b: Vec<u8>| b@)),
{
    let ghost start = out@;
    let ghost all = items@.map_values(|b: Vec<u8>| b@);
    let mut i: usize = 0;
    while i < items.len()
        invariant
            i <= items.len(),
            all == items@.map_values(|b: Vec<u8>| b@),
            out@ == start + comma_joined(all.take(i as int)),
        decreases items.len() - i,
    {
        let ghost before = out@;
        if i > 0 {
            out.push(44u8);
        }
        out.extend_from_slice(items[i].as_slice());
        proof {
            let next = all.take(i + 1);
            assert(next.drop_last() =~= all.take(i as int));
            if i == 0 {
                assert(all.take(0) =~= Seq::<Seq<u8>>::empty());
                assert(out@ =~= start + comma_joined(next));
            } else {
                assert(out@ =~= start + comma_joined(next));
            }
        }
        i += 1;
    }
    assert(all.take(items.len() as int) =~= all);
}

/// The kinds of submission the submit-listens endpoint accepts.
#[derive(Clone, Copy, Debug, PartialEq, Eq, Structural)]
pub enum ListenType {
    /// One final listen.
    Single,
    /// A notice that a track is playing now; never final.
    PlayingNow,
    /// Several final listens at once.
    Import,
}

/// The opening of a submission of the given kind, up to its first payload.
pub open spec fn envelope_head(kind: ListenType) -> Seq<u8> {
    match kind {
        ListenType::Single => "{\"listen_type\":\"single\",\"payload\":[".spec_bytes(),
        ListenType::PlayingNow => "{\"listen_type\":\"playing_now\",\"payload\":[".spec_bytes(),
        ListenType::Import => "{\"listen_type\":\"import\",\"payload\":[".spec_bytes(),
    }
}

/// A submission of the given kind whose payload array holds `payloads`.
pub open spec fn listen_request(kind: ListenType, payloads: Seq<Seq<u8>>) -> Seq<u8> {
    envelope_head(kind) + comma_joined(payloads) + "]}".spec_bytes()
}

/// The views of a list of byte vectors.
pub open spec fn byte_views(v: Seq<Vec<u8>>) -> Seq<Seq<u8>> {
    v.map_values(|b: Vec<u8>| b@)
}

/// The submission of `kind` that carries the already encoded `payloads`, in
/// their order.
pub fn encode_listens(kind: ListenType, payloads: &Vec<Vec<u8>>) -> (r: Vec<u8>)
    ensures
        r@ == listen_request(kind, byte_views(payloads@)),
{
    let mut out: Vec<u8> = Vec::new();
    let head = match kind {
        ListenType::Single => "{\"listen_type\":\"single\",\"payload\":[",
        ListenType::PlayingNow => "{\"listen_type\":\"playing_now\",\"payload\":[",
        ListenType::Import => "{\"listen_type\":\"import\",\"payload\":[",
    };
    push_text(&mut out, head);
    assert(out@ =~= envelope_head(kind));
    push_joined(&mut out, payloads);
    push_text(&mut out, "]}");
    out
}

/// The opening of a payload, with `listened_at` where it is known.
pub open spec fn listened_at_json(listened_at: Option<u64>) -> Seq<u8> {
    match listened_at {
        Some(t) => "{\"listened_at\":".spec_bytes() + decimal(t as nat)
            + ",\"track_metadata\":".spec_bytes(),
        None => "{\"track_metadata\":".spec_bytes(),
    }
}

/// The fixed start of `additional_info`, naming the player and this client.
pub open spec fn client_json() -> Seq<u8> {
    "{\"additional_info\":{\"media_player\":\"mpv\",\"submission_client\":\"mpv ListenBrainz Rust\",\"submission_client_version\":\"0.1.0\"".spec_bytes()
}

/// A string field, left out when the string is empty.
pub open spec fn optional_field(name: Seq<u8>, value: Seq<char>) -> Seq<u8> {
    if value.len() > 0 {
        name + quoted(value)
    } else {
        Seq::empty()
    }
}

/// The quoted strings, in order.
pub open spec fn quoted_all(items: Seq<Seq<char>>) -> Seq<Seq<u8>> {
    items.map_values(|s: Seq<char>| quoted(s))
}

/// The artist identifiers, left out when there are none.
pub open spec fn artist_ids_json(ids: Seq<Seq<char>>) -> Seq<u8> {
    if ids.len() > 0 {
        ",\"artist_mbids\":[".spec_bytes() + comma_joined(quoted_all(ids)) + "]".spec_bytes()
    } else {
        Seq::empty()
    }
}

/// The JSON object of one listen.
pub open spec fn payload_json(p: Payload) -> Seq<u8> {
    let m = p.track_metadata;
    let info = m.additional_info;
    listened_at_json(p.listened_at) + client_json() + optional_field(
        ",\"release_mbid\":".spec_bytes(),
        info.release_mbid@,
    ) + artist_ids_json(string_views(info.artist_mbids@)) + optional_field(
        ",\"recording_mbid\":".spec_bytes(),
        info.recording_mbid@,
    ) + ",\"duration_ms\":".spec_bytes() + decimal(info.duration_ms as nat)
        + "},\"artist_name\":".spec_bytes() + quoted(m.artist_name@)
        + ",\"track_name\":".spec_bytes() + quoted(m.track_name@)
        + ",\"release_name\":".spec_bytes() + quoted(m.release_name@) + "}}".spec_bytes()
}

/// serde_json accepts the string.
pub open spec fn encodes(s: Seq<char>) -> bool {
    json_string_of(s) is Some
}

/// serde_json accepts every string of the listen that is written out.
pub open spec fn payload_encodable(p: Payload) -> bool {
    let m = p.track_metadata;
    let info = m.additional_info;
    &&& info.release_mbid@.len() > 0 ==> encodes(info.release_mbid@)
    &&& forall|i: int|
        0 <= i < info.artist_mbids@.len() ==> #[trigger] encodes(info.artist_mbids@[i]@)
    &&& info.recording_mbid@.len() > 0 ==> encodes(info.recording_mbid@)
    &&& encodes(m.artist_name@)
    &&& encodes(m.track_name@)
    &&& encodes(m.release_name@)
}

/// Each string as a JSON string literal, or `None` where one is refused.
fn quote_each(items: &Vec<String>) -> (r: Option<Vec<Vec<u8>>>)
    ensures
        r is Some <==> forall|i: int| 0 <= i < items@.len() ==> #[trigger] encodes(items@[i]@),
        r matches Some(v) ==> byte_views(v@) == quoted_all(string_views(items@)),
{
    let mut out: Vec<Vec<u8>> = Vec::new();
    let mut i: usize = 0;
    while i < items.len()
        invariant
            i <= items.len(),
            forall|j: int| 0 <= j < i ==> #[trigger] encodes(items@[j]@),
            byte_views(out@) =~= quoted_all(string_views(items@.take(i as int))),
        decreases items.len() - i,
    {
        let mut one: Vec<u8> = Vec::new();
        if !push_quoted(&mut one, items[i].as_str()) {
            assert(!encodes(items@[i as int]@));
            return None;
        }
        assert(one@ =~= quoted(items@[i as int]@));
        let ghost prev = out@;
        out.push(one);
        proof {
            let head = items@.take(i as int);
            assert(items@.take(i + 1) =~= head.push(items@[i as int]));
            assert(string_views(head.push(items@[i as int])) =~= string_views(head).push(
                items@[i as int]@,
            ));
            assert(quoted_all(string_views(head).push(items@[i as int]@)) =~= quoted_all(
                string_views(head),
            ).push(quoted(items@[i as int]@)));
            assert(byte_views(out@) =~= byte_views(prev).push(one@));
        }
        i += 1;
    }
    assert(items@.take(items.len() as int) =~= items@);
    Some(out)
}

/// The JSON object of one listen, as stored in the cache and sent in a
/// submission's payload array; `None` where serde_json refuses a string.
pub fn encode_payload(p: &Payload) -> (r: Option<Vec<u8>>)
    ensures
        r is Some <==> payload_encodable(*p),
        r matches Some(b) ==> b@ == payload_json(*p),
{
    let m = &p.track_metadata;
    let info = &m.additional_info;
    let mut out: Vec<u8> = Vec::new();
    match p.listened_at {
        Some(t) => {
            push_text(&mut out, "{\"listened_at\":");
            push_decimal(&mut out, t);
            push_text(&mut out, ",\"track_metadata\":");
        },
        None => {
            push_text(&mut out, "{\"track_metadata\":");
        },
    }
    assert(out@ =~= listened_at_json(p.listened_at));
    push_text(
        &mut out,
        "{\"additional_info\":{\"media_player\":\"mpv\",\"submission_client\":\"mpv ListenBrainz Rust\",\"submission_client_version\":\"0.1.0\"",
    );
    let ghost before = out@;
    if !info.release_mbid.as_str().is_empty() {
        push_text(&mut out, ",\"release_mbid\":");
        if !push_quoted(&mut out, info.release_mbid.as_str()) {
            return None;
        }
    }
    assert(out@ =~= before + optional_field(",\"release_mbid\":".spec_bytes(), info.release_mbid@));
    let ghost before = out@;
    if info.artist_mbids.len() > 0 {
        match quote_each(&info.artist_mbids) {
            Some(items) => {
                push_text(&mut out, ",\"artist_mbids\":[");
                push_joined(&mut out, &items);
                push_text(&mut out, "]");
            },
            None => {
                return None;
            },
        }
    }
    assert(out@ =~= before + artist_ids_json(string_views(info.artist_mbids@)));
    let ghost before = out@;
    if !info.recording_mbid.as_str().is_empty() {
        push_text(&mut out, ",\"recording_mbid\":");
        if !push_quoted(&mut out, info.recording_mbid.as_str()) {
            return None;
        }
    }
    assert(out@ =~= before + optional_field(",\"recording_mbid\":".spec_bytes(), info.recording_mbid@));
    push_text(&mut out, ",\"duration_ms\":");
    push_decimal(&mut out, info.duration_ms);
    push_text(&mut out, "},\"artist_name\":");
    if !push_quoted(&mut out, m.artist_name.as_str()) {
        return None;
    }
    push_text(&mut out, ",\"track_name\":");
    if !push_quoted(&mut out, m.track_name.as_str()) {
        return None;
    }
    push_text(&mut out, ",\"release_name\":");
    if !push_quoted(&mut out, m.release_name.as_str()) {
        return None;
    }
    push_text(&mut out, "}}");
    Some(out)
}

/// The body of a love, hate or unrate of a recording.
pub open spec fn feedback_json(recording_mbid: Seq<char>, score: int) -> Seq<u8> {
    "{\"recording_mbid\":".spec_bytes() + quoted(recording_mbid) + ",\"score\":".spec_bytes()
        + signed_decimal(score) + "}".spec_bytes()
}

/// The feedback body for `recording_mbid` and `score`; `None` where
/// serde_json refuses the identifier.
pub fn encode_feedback(recording_mbid: &str, score: i32) -> (r: Option<Vec<u8>>)
    ensures
        r is Some <==> encodes(recording_mbid@),
        r matches Some(b) ==> b@ == feedback_json(recording_mbid@, score as int),
{
    let mut out: Vec<u8> = Vec::new();
    push_text(&mut out, "{\"recording_mbid\":");
    if !push_quoted(&mut out, recording_mbid) {
        return None;
    }
    push_text(&mut out, ",\"score\":");
    let ghost before = out@;
    if score < 0 {
        out.push(45u8);
        let magnitude: u64 = (0i64 - score as i64) as u64;
        push_decimal(&mut out, magnitude);
    } else {
        push_decimal(&mut out, score as u64);
    }
    assert(out@ =~= before + signed_decimal(score as int));
    push_text(&mut out, "}");
    Some(out)
}

} // verus!
