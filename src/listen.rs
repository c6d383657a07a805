//! The listen that is reported for the current track.

use vstd::prelude::*;

verus! {

/// Identifiers and facts that enrich a listen.
pub struct AdditionalInfo {
    /// MusicBrainz identifier of the release; empty when unknown.
    pub release_mbid: String,
    /// MusicBrainz identifiers of the artists, in tag order.
    pub artist_mbids: Vec<String>,
    /// MusicBrainz identifier of the recording; empty when unknown.
    pub recording_mbid: String,
    /// Length of the track in milliseconds.
    pub duration_ms: u64,
}

/// What is known of the track being played.
pub struct TrackMetadata {
    pub additional_info: AdditionalInfo,
    pub artist_name: String,
    pub track_name: String,
    pub release_name: String,
}

/// One listen: the track and, once it is final, when it was listened to.
pub struct Payload {
    /// Seconds since the Unix epoch; never zero. `None` for a notice that the
    /// track is playing now.
    pub listened_at: Option<u64>,
    pub track_metadata: TrackMetadata,
}

/// The views of a list of strings.
pub open spec fn string_views(v: Seq<String>) -> Seq<Seq<char>> {
    v.map_values(|s: String| s@)
}

impl AdditionalInfo {
    /// Nothing known yet.
    pub open spec fn is_blank(&self) -> bool {
        &&& self.release_mbid@.len() == 0
        &&& self.artist_mbids@.len() == 0
        &&& self.recording_mbid@.len() == 0
        &&& self.duration_ms == 0
    }
}

impl TrackMetadata {
    /// Nothing known yet.
    pub open spec fn is_blank(&self) -> bool {
        &&& self.additional_info.is_blank()
        &&& self.artist_name@.len() == 0
        &&& self.track_name@.len() == 0
        &&& self.release_name@.len() == 0
    }
}

impl Payload {
    /// A listen of a track of which nothing is known yet.
    pub open spec fn is_blank(&self) -> bool {
        &&& self.listened_at is None
        &&& self.track_metadata.is_blank()
    }
}

impl Default for AdditionalInfo {
    fn default() -> (r: Self)
        ensures
            r.is_blank(),
    {
        AdditionalInfo {
            release_mbid: String::new(),
            artist_mbids: Vec::new(),
            recording_mbid: String::new(),
            duration_ms: 0,
        }
    }
}

impl Default for TrackMetadata {
    fn default() -> (r: Self)
        ensures
            r.is_blank(),
    {
        TrackMetadata {
            additional_info: AdditionalInfo::default(),
            artist_name: String::new(),
            track_name: String::new(),
            release_name: String::new(),
        }
    }
}

impl Default for Payload {
    fn default() -> (r: Self)
        ensures
            r.is_blank(),
    {
        Payload { listened_at: None, track_metadata: TrackMetadata::default() }
    }
}

} // verus!
