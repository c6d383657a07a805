//! Finding a MusicBrainz recording identifier among a file's ID3 frames,
//! for tracks whose player reported none.

use vstd::prelude::*;
use vstd::slice::{slice_subrange, slice_to_vec};
use vstd::string::StringSliceAdditionalSpecFns;
use vstd::utf8::{decode_utf8, valid_utf8};
use crate::metadata::{byte_position, lemma_byte_position, same_text};
use crate::wire::same_bytes;

verus! {

/// What an ID3 frame holds, as far as identifiers are concerned.
pub enum FrameContent {
    /// The frame's raw bytes, as the decoder left them.
    Unparsed(Vec<u8>),
    /// A decoded unique file identifier: its owner and the identifier bytes.
    FileIdentifier { owner: String, identifier: Vec<u8> },
    /// Anything else.
    Other,
}

/// One ID3 frame: its four-letter identifier and its content.
pub struct TagFrame {
    pub id: String,
    pub content: FrameContent,
}

/// Relies on `String::from_utf8`: the text that the bytes encode, or `None`
/// where they are not UTF-8.
#[verifier::external_body]
fn utf8_text(bytes: Vec<u8>) -> (r: Option<String>)
    ensures
        r is Some <==> valid_utf8(bytes@),
        r matches Some(s) ==> s@ == decode_utf8(bytes@),
{
    String::from_utf8(bytes).ok()
}

/// The text of `bytes`, where they are UTF-8.
pub open spec fn text_of(bytes: Seq<u8>) -> Option<Seq<char>> {
    if valid_utf8(bytes) {
        Some(decode_utf8(bytes))
    } else {
        None
    }
}

/// The recording identifier a frame carries: a unique file identifier owned
/// by MusicBrainz whose identifier is UTF-8 text. Raw frame bytes hold the
/// owner up to the first zero byte and the identifier after it.
pub open spec fn frame_recording(f: TagFrame) -> Option<Seq<char>> {
    if f.id@ != "UFID"@ {
        None
    } else {
        match f.content {
            FrameContent::Unparsed(data) => match byte_position(data@, 0u8) {
                Some(p) => if data@.take(p) == "http://musicbrainz.org".spec_bytes() {
                    text_of(data@.skip(p + 1))
                } else {
                    None
                },
                None => None,
            },
            FrameContent::FileIdentifier { owner, identifier } => {
                if owner@ == "http://musicbrainz.org"@ {
                    text_of(identifier@)
                } else {
                    None
                }
            },
            FrameContent::Other => None,
        }
    }
}

/// The identifier of the first frame that carries one.
pub open spec fn frames_recording(frames: Seq<TagFrame>) -> Option<Seq<char>>
    decreases frames.len(),
{
    if frames.len() == 0 {
        None
    } else {
        match frame_recording(frames[0]) {
            Some(r) => Some(r),
            None => frames_recording(frames.drop_first()),
        }
    }
}

/// The recording identifier that one frame carries.
fn recording_in_frame(f: &TagFrame) -> (r: Option<String>)
    ensures
        match r {
            Some(s) => frame_recording(*f) == Some(s@),
            None => frame_recording(*f) == None::<Seq<char>>,
        },
{
    if !same_text(f.id.as_str(), "UFID") {
        return None;
    }
    match &f.content {
        FrameContent::Unparsed(data) => {
            let d = data.as_slice();
            match memchr::memchr(0u8, d) {
                Some(p) => {
                    proof {
                        lemma_byte_position(data@, 0u8);
                    }
                    let owner = slice_subrange(d, 0, p);
                    assert(owner@ == data@.take(p as int));
                    if same_bytes(owner, "http://musicbrainz.org".as_bytes()) {
                        let n = d.len();
                        assert(p < n);
                        let rest = slice_subrange(d, p + 1, n);
                        assert(rest@ == data@.skip(p + 1));
                        utf8_text(slice_to_vec(rest))
                    } else {
                        None
                    }
                },
                None => None,
            }
        },
        FrameContent::FileIdentifier { owner, identifier } => {
            if same_text(owner.as_str(), "http://musicbrainz.org") {
                utf8_text(slice_to_vec(identifier.as_slice()))
            } else {
                None
            }
        },
        FrameContent::Other => None,
    }
}

/// The recording identifier of the first frame, in order, that carries one.
pub fn read_recording_id(frames: &Vec<TagFrame>) -> (r: Option<String>)
    ensures
        match r {
            Some(s) => frames_recording(frames@) == Some(s@),
            None => frames_recording(frames@) == None::<Seq<char>>,
        },
{
    let mut i: usize = 0;
    assert(frames@.skip(0) =~= frames@);
    while i < frames.len()
        invariant
            i <= frames@.len(),
            frames_recording(frames@) == frames_recording(frames@.skip(i as int)),
        decreases frames@.len() - i,
    {
        assert(frames@.skip(i as int)[0] == frames@[i as int]);
        assert(frames@.skip(i as int).drop_first() =~= frames@.skip(i + 1));
        match recording_in_frame(&frames[i]) {
            Some(s) => {
                return Some(s);
            },
            None => {},
        }
        i += 1;
    }
    None
}

} // verus!
