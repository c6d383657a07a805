//! Reading a track's tags, and deciding whether the track can be scrobbled.

use vstd::prelude::*;
use vstd::string::StringSliceAdditionalSpecFns;
use vstd::utf8::{encode_utf8, encode_utf8_decode_utf8};
use crate::listen::{AdditionalInfo, TrackMetadata, string_views};
use crate::wire::same_bytes;

verus! {

/// Where `needle` first occurs in `haystack`.
pub open spec fn byte_position(haystack: Seq<u8>, needle: u8) -> Option<int>
    decreases haystack.len(),
{
    if haystack.len() == 0 {
        None
    } else if haystack[0] == needle {
        Some(0)
    } else {
        match byte_position(haystack.drop_first(), needle) {
            Some(i) => Some(i + 1),
            None => None,
        }
    }
}

/// A position found is that of the first occurrence.
pub proof fn lemma_byte_position(haystack: Seq<u8>, needle: u8)
    ensures
        match byte_position(haystack, needle) {
            Some(i) => 0 <= i < haystack.len() && haystack[i] == needle && forall|j: int|
                0 <= j < i ==> haystack[j] != needle,
            None => forall|j: int| 0 <= j < haystack.len() ==> haystack[j] != needle,
        },
    decreases haystack.len(),
{
    if haystack.len() > 0 {
        lemma_byte_position(haystack.drop_first(), needle);
        assert forall|j: int| 1 <= j < haystack.len() implies haystack[j] == haystack.drop_first()[j
            - 1] by {}
    }
}

/// Relies on `memchr::memchr`: the index of the first occurrence of `needle`.
pub assume_specification[ memchr::memchr ](needle: u8, haystack: &[u8]) -> (r: Option<usize>)
    ensures
        match r {
            Some(i) => byte_position(haystack@, needle) == Some(i as int),
            None => byte_position(haystack@, needle) == None::<int>,
        },
;

/// The pieces of `s` between occurrences of `sep`, in order: one empty piece
/// for an empty string, and an empty piece on each side of a leading or
/// trailing separator.
pub open spec fn split_pieces(s: Seq<char>, sep: char) -> Seq<Seq<char>>
    decreases s.len(),
{
    if s.len() == 0 {
        seq![Seq::empty()]
    } else {
        let rest = split_pieces(s.drop_last(), sep);
        if s.last() == sep {
            rest.push(Seq::empty())
        } else {
            rest.update(rest.len() - 1, rest.last().push(s.last()))
        }
    }
}

/// Relies on `str::split` with a `char` pattern: the pieces between the
/// separators, each copied into a `String`.
#[verifier::external_body]
fn split_on(s: &str, sep: char) -> (r: Vec<String>)
    ensures
        string_views(r@) == split_pieces(s@, sep),
{
    s.split(sep).map(|p| p.to_string()).collect()
}

/// What `str::trim` leaves of a string.
pub uninterp spec fn trimmed(s: Seq<char>) -> Seq<char>;

/// Relies on `str::trim`: the string without leading and trailing white
/// space, which depends on the characters alone.
#[verifier::external_body]
fn trim(s: &str) -> (r: &str)
    ensures
        r@ == trimmed(s@),
{
    s.trim()
}

/// Whether two strings are equal.
pub fn same_text(a: &str, b: &str) -> (r: bool)
    ensures
        r == (a@ == b@),
{
    proof {
        encode_utf8_decode_utf8(a@);
        encode_utf8_decode_utf8(b@);
    }
    same_bytes(a.as_bytes(), b.as_bytes())
}

/// The separator of a list of artist identifiers: `;` where the value holds
/// one, `/` otherwise.
pub open spec fn artist_separator(value: Seq<char>) -> char {
    if byte_position(encode_utf8(value), 59u8) is Some {
        ';'
    } else {
        '/'
    }
}

/// The artist identifiers in a tag value, each trimmed.
pub open spec fn artist_ids_of(value: Seq<char>) -> Seq<Seq<char>> {
    split_pieces(value, artist_separator(value)).map_values(|p: Seq<char>| trimmed(p))
}

/// Splits a list of artist identifiers.
pub fn artist_ids(value: &str) -> (r: Vec<String>)
    ensures
        string_views(r@) == artist_ids_of(value@),
{
    let sep = if memchr::memchr(59u8, value.as_bytes()).is_some() {
        ';'
    } else {
        '/'
    };
    let pieces = split_on(value, sep);
    let ghost all = split_pieces(value@, sep);
    let mut out: Vec<String> = Vec::new();
    let mut i: usize = 0;
    while i < pieces.len()
        invariant
            i <= pieces@.len(),
            string_views(pieces@) == all,
            all == split_pieces(value@, sep),
            sep == artist_separator(value@),
            string_views(out@) =~= all.take(i as int).map_values(|p: Seq<char>| trimmed(p)),
        decreases pieces@.len() - i,
    {
        assert(all[i as int] == pieces@[i as int]@);
        let t = trim(pieces[i].as_str()).to_owned();
        let ghost prev = out@;
        out.push(t);
        assert(string_views(out@) =~= string_views(prev).push(t@));
        assert(all.take(i + 1) =~= all.take(i as int).push(all[i as int]));
        i += 1;
    }
    assert(all.take(pieces@.len() as int) =~= all);
    out
}

/// The fields a tag can fill.
#[derive(Clone, Copy, Debug, PartialEq, Eq, Structural)]
pub enum TagField {
    ReleaseMbid,
    ArtistMbids,
    RecordingMbid,
    Artist,
    Title,
    Album,
}

/// The field a tag of the given name fills, if any; names are matched as
/// Vorbis comments and ID3 frames write them.
pub open spec fn field_of_key(key: Seq<char>) -> Option<TagField> {
    if key == "MUSICBRAINZ_ALBUMID"@ || key == "MusicBrainz Album Id"@ {
        Some(TagField::ReleaseMbid)
    } else if key == "MUSICBRAINZ_ARTISTID"@ || key == "MusicBrainz Artist Id"@ {
        Some(TagField::ArtistMbids)
    } else if key == "MUSICBRAINZ_TRACKID"@ || key == "http://musicbrainz.org"@ {
        Some(TagField::RecordingMbid)
    } else if key == "ARTIST"@ || key == "artist"@ {
        Some(TagField::Artist)
    } else if key == "TITLE"@ || key == "title"@ {
        Some(TagField::Title)
    } else if key == "ALBUM"@ || key == "album"@ {
        Some(TagField::Album)
    } else {
        None
    }
}

/// The field a tag of the given name fills.
pub fn tag_field(key: &str) -> (r: Option<TagField>)
    ensures
        r == field_of_key(key@),
{
    if same_text(key, "MUSICBRAINZ_ALBUMID") || same_text(key, "MusicBrainz Album Id") {
        Some(TagField::ReleaseMbid)
    } else if same_text(key, "MUSICBRAINZ_ARTISTID") || same_text(key, "MusicBrainz Artist Id") {
        Some(TagField::ArtistMbids)
    } else if same_text(key, "MUSICBRAINZ_TRACKID") || same_text(key, "http://musicbrainz.org") {
        Some(TagField::RecordingMbid)
    } else if same_text(key, "ARTIST") || same_text(key, "artist") {
        Some(TagField::Artist)
    } else if same_text(key, "TITLE") || same_text(key, "title") {
        Some(TagField::Title)
    } else if same_text(key, "ALBUM") || same_text(key, "album") {
        Some(TagField::Album)
    } else {
        None
    }
}

/// What the tags say of a track.
pub struct TagView {
    pub release_mbid: Seq<char>,
    pub artist_mbids: Seq<Seq<char>>,
    pub recording_mbid: Seq<char>,
    pub artist_name: Seq<char>,
    pub track_name: Seq<char>,
    pub release_name: Seq<char>,
}

impl TrackMetadata {
    /// The tag-derived fields.
    pub open spec fn tag_view(&self) -> TagView {
        TagView {
            release_mbid: self.additional_info.release_mbid@,
            artist_mbids: string_views(self.additional_info.artist_mbids@),
            recording_mbid: self.additional_info.recording_mbid@,
            artist_name: self.artist_name@,
            track_name: self.track_name@,
            release_name: self.release_name@,
        }
    }
}

/// Nothing known.
pub open spec fn blank_tags() -> TagView {
    TagView {
        release_mbid: Seq::empty(),
        artist_mbids: Seq::empty(),
        recording_mbid: Seq::empty(),
        artist_name: Seq::empty(),
        track_name: Seq::empty(),
        release_name: Seq::empty(),
    }
}

/// `t` after one tag: a known name replaces its field, any other changes
/// nothing.
pub open spec fn with_tag(t: TagView, key: Seq<char>, value: Seq<char>) -> TagView {
    match field_of_key(key) {
        Some(TagField::ReleaseMbid) => TagView { release_mbid: value, ..t },
        Some(TagField::ArtistMbids) => TagView { artist_mbids: artist_ids_of(value), ..t },
        Some(TagField::RecordingMbid) => TagView { recording_mbid: value, ..t },
        Some(TagField::Artist) => TagView { artist_name: value, ..t },
        Some(TagField::Title) => TagView { track_name: value, ..t },
        Some(TagField::Album) => TagView { release_name: value, ..t },
        None => t,
    }
}

/// What the tags say, read in order so that a later tag wins.
pub open spec fn tags_read(tags: Seq<(String, String)>) -> TagView
    decreases tags.len(),
{
    if tags.len() == 0 {
        blank_tags()
    } else {
        with_tag(tags_read(tags.drop_last()), tags.last().0@, tags.last().1@)
    }
}

/// The metadata of a track whose player reports `tags` (name and value, in
/// the player's order); its duration is not known yet.
pub fn read_tags(tags: &Vec<(String, String)>) -> (r: TrackMetadata)
    ensures
        r.tag_view() == tags_read(tags@),
        r.additional_info.duration_ms == 0,
{
    let mut m = TrackMetadata::default();
    assert(string_views(m.additional_info.artist_mbids@) =~= Seq::<Seq<char>>::empty());
    assert(m.additional_info.release_mbid@ =~= Seq::<char>::empty());
    assert(m.additional_info.recording_mbid@ =~= Seq::<char>::empty());
    assert(m.artist_name@ =~= Seq::<char>::empty());
    assert(m.track_name@ =~= Seq::<char>::empty());
    assert(m.release_name@ =~= Seq::<char>::empty());
    assert(m.tag_view() == blank_tags());
    let mut i: usize = 0;
    while i < tags.len()
        invariant
            i <= tags@.len(),
            m.tag_view() == tags_read(tags@.take(i as int)),
            m.additional_info.duration_ms == 0,
        decreases tags@.len() - i,
    {
        let key = tags[i].0.as_str();
        let value = &tags[i].1;
        assert(tags@.take(i + 1).drop_last() =~= tags@.take(i as int));
        match tag_field(key) {
            Some(TagField::ReleaseMbid) => {
                m.additional_info.release_mbid = value.clone();
            },
            Some(TagField::ArtistMbids) => {
                m.additional_info.artist_mbids = artist_ids(value.as_str());
            },
            Some(TagField::RecordingMbid) => {
                m.additional_info.recording_mbid = value.clone();
            },
            Some(TagField::Artist) => {
                m.artist_name = value.clone();
            },
            Some(TagField::Title) => {
                m.track_name = value.clone();
            },
            Some(TagField::Album) => {
                m.release_name = value.clone();
            },
            None => {},
        }
        assert(m.tag_view() =~= tags_read(tags@.take(i + 1)));
        i += 1;
    }
    assert(tags@.take(tags@.len() as int) =~= tags@);
    m
}

/// A track counts only when the player found real tags: its title is not
/// just the file name, and artist, title and album are all known; the strict
/// mode also wants the release identifier.
pub open spec fn eligible(filename: Seq<char>, t: TagView, require_release_mbid: bool) -> bool {
    &&& filename != t.track_name
    &&& t.artist_name.len() > 0
    &&& t.track_name.len() > 0
    &&& t.release_name.len() > 0
    &&& require_release_mbid ==> t.release_mbid.len() > 0
}

/// A track whose artist, title or album is empty is never eligible, nor one
/// whose title is its file name; with the three known and the title distinct
/// from the file name, it is eligible unless the strict mode lacks a release
/// identifier.
pub proof fn lemma_eligibility_fields(filename: Seq<char>, t: TagView, require_release_mbid: bool)
    ensures
        t.artist_name.len() == 0 ==> !eligible(filename, t, require_release_mbid),
        t.track_name.len() == 0 ==> !eligible(filename, t, require_release_mbid),
        t.release_name.len() == 0 ==> !eligible(filename, t, require_release_mbid),
        filename == t.track_name ==> !eligible(filename, t, require_release_mbid),
        filename != t.track_name && t.artist_name.len() > 0 && t.track_name.len() > 0
            && t.release_name.len() > 0 ==> eligible(filename, t, false),
{
}

/// Whether the track of `meta`, loaded from `filename`, can be scrobbled.
pub fn is_eligible(filename: &str, meta: &TrackMetadata, require_release_mbid: bool) -> (r: bool)
    ensures
        r == eligible(filename@, meta.tag_view(), require_release_mbid),
{
    !same_text(filename, meta.track_name.as_str()) && !meta.artist_name.as_str().is_empty()
        && !meta.track_name.as_str().is_empty() && !meta.release_name.as_str().is_empty() && (
    !require_release_mbid || !meta.additional_info.release_mbid.as_str().is_empty())
}

} // verus!
