//! The scrobble state machine: playback and connectivity events in, the
//! next state and the submissions to make out.
//!
//! A session starts when a file loads from its beginning. Its tags decide
//! once whether it can be scrobbled; if so a deadline is armed, suspended
//! while paused and moved on speed changes and restarts, and when it is
//! reached the listen is made final exactly once.

use vstd::prelude::*;
use crate::deadline::{
    DeadlineScheduler, deadline_from, instant_after, shift_by_pause, span_between, threshold,
};
use crate::delivery::Submission;
use crate::listen::Payload;
use crate::listen::string_views;
use crate::metadata::{eligible, is_eligible, read_tags, same_text, tags_read};
use crate::wire::{
    ListenType, encode_feedback, encode_payload, encodes, feedback_json, payload_encodable,
    payload_json,
};

verus! {

/// Where the current session stands.
#[derive(Clone, Copy, Debug, PartialEq, Eq, Structural)]
pub enum Phase {
    /// No file loaded yet.
    Idle,
    /// A file is loading: its tags are read, the identifier lookup may be
    /// pending.
    Loading,
    /// Eligible, with the deadline armed.
    Tracking,
    /// Eligible and paused: the deadline is suspended.
    Paused,
    /// The track cannot be scrobbled; nothing happens until the next load.
    NotEligible,
    /// The listen was made final; nothing happens until the next load.
    Finalized,
}

/// Events other than a file load.
#[derive(Clone, Copy, Debug, PartialEq, Eq, Structural)]
pub enum Event {
    /// Playback paused at `now`.
    Pause { now: u64 },
    /// Playback resumed at `now`.
    Resume { now: u64 },
    /// The speed changed to `speed` (thousandths) at `now`, with
    /// `position_ms` of a `duration_ms` track played.
    SpeedChange { speed: u64, duration_ms: u64, position_ms: u64, now: u64 },
    /// A seek to `position_secs` at `now`.
    Seek { position_secs: i64, duration_ms: u64, speed: u64, now: u64 },
    /// The armed deadline was reached when the wall clock read `wall_secs`
    /// seconds since the Unix epoch.
    DeadlineReached { wall_secs: u64 },
    /// The service became reachable or unreachable.
    Connectivity { online: bool },
}

impl Event {
    /// Speeds are positive.
    pub open spec fn valid(&self) -> bool {
        match *self {
            Event::SpeedChange { speed, .. } => speed > 0,
            Event::Seek { speed, .. } => speed > 0,
            _ => true,
        }
    }
}

/// What a love, hate or unrate key binding asks for.
#[derive(Clone, Copy, Debug, PartialEq, Eq, Structural)]
pub enum Feedback {
    Love,
    Hate,
    Unrate,
}

/// The score sent for a feedback.
pub open spec fn score_of(f: Feedback) -> int {
    match f {
        Feedback::Love => 1,
        Feedback::Hate => -1,
        Feedback::Unrate => 0,
    }
}

impl Feedback {
    /// `1` for love, `-1` for hate, `0` to clear.
    pub fn score(&self) -> (r: i32)
        ensures
            r == score_of(*self),
    {
        match self {
            Feedback::Love => 1,
            Feedback::Hate => -1,
            Feedback::Unrate => 0,
        }
    }
}

/// The feedback that a client message asks for: the words `key-binding`
/// and the name of one of the plugin's bindings.
pub open spec fn feedback_of_message(args: Seq<Seq<char>>) -> Option<Feedback> {
    if args.len() >= 2 && args[0] == "key-binding"@ {
        if args[1] == "listenbrainz-love"@ {
            Some(Feedback::Love)
        } else if args[1] == "listenbrainz-hate"@ {
            Some(Feedback::Hate)
        } else if args[1] == "listenbrainz-unrate"@ {
            Some(Feedback::Unrate)
        } else {
            None
        }
    } else {
        None
    }
}

impl Feedback {
    /// Reads a client message sent to the plugin.
    pub fn from_client_message(args: &Vec<String>) -> (r: Option<Feedback>)
        ensures
            r == feedback_of_message(string_views(args@)),
    {
        if args.len() < 2 || !same_text(args[0].as_str(), "key-binding") {
            return None;
        }
        let name = args[1].as_str();
        if same_text(name, "listenbrainz-love") {
            Some(Feedback::Love)
        } else if same_text(name, "listenbrainz-hate") {
            Some(Feedback::Hate)
        } else if same_text(name, "listenbrainz-unrate") {
            Some(Feedback::Unrate)
        } else {
            None
        }
    }
}

/// Why feedback was not sent.
#[derive(Clone, Copy, Debug, PartialEq, Eq, Structural)]
pub enum FeedbackError {
    /// The current track has no recording identifier.
    UnknownRecording,
    /// The service is not reachable.
    Offline,
    /// The identifier could not be encoded.
    Encoding,
}

/// How a file load went on.
#[derive(Clone, Copy, Debug, PartialEq, Eq, Structural)]
pub enum LoadStep {
    /// Playback resumed mid-file: the session goes on unchanged.
    Ignored,
    /// A new session is loading and wants the file's recording identifier.
    NeedsLookup,
    /// A new session is loading and has its recording identifier.
    Ready,
}

/// What the machine asks for after an event.
pub struct Actions {
    /// A listen to send (or, for a final one made offline, to cache).
    pub submission: Option<Submission>,
    /// Whether to reconcile the cache.
    pub reconcile: bool,
}

/// The parts of the state that events change.
pub struct SessionView {
    pub phase: Phase,
    pub deadline: u64,
    pub paused_at: u64,
    pub online: bool,
    pub listened_at: Option<u64>,
    pub duration_ms: u64,
}

/// The state after an event.
pub open spec fn step(s: SessionView, e: Event) -> SessionView {
    match e {
        Event::Pause { now } => if s.phase == Phase::Tracking {
            SessionView { phase: Phase::Paused, paused_at: now, ..s }
        } else {
            s
        },
        Event::Resume { now } => if s.phase == Phase::Paused {
            SessionView {
                phase: Phase::Tracking,
                deadline: instant_after(s.deadline as nat, span_between(s.paused_at as nat, now as nat)),
                ..s
            }
        } else {
            s
        },
        Event::SpeedChange { speed, duration_ms, position_ms, now } => if s.phase == Phase::Tracking {
            SessionView {
                deadline: instant_after(
                    now as nat,
                    span_between(position_ms as nat, threshold(duration_ms as nat, speed as nat)),
                ),
                duration_ms,
                ..s
            }
        } else {
            s
        },
        Event::Seek { position_secs, duration_ms, speed, now } => if position_secs == 0 && (s.phase
            == Phase::Tracking || s.phase == Phase::Paused) {
            SessionView {
                deadline: instant_after(now as nat, threshold(duration_ms as nat, speed as nat)),
                paused_at: if s.phase == Phase::Paused { now } else { s.paused_at },
                duration_ms,
                ..s
            }
        } else {
            s
        },
        Event::DeadlineReached { wall_secs } => if s.phase == Phase::Tracking {
            SessionView {
                phase: Phase::Finalized,
                listened_at: if wall_secs > 0 { Some(wall_secs) } else { None },
                ..s
            }
        } else {
            s
        },
        Event::Connectivity { online } => SessionView { online, ..s },
    }
}

/// The event makes the session's listen final.
pub open spec fn final_attempt(s: SessionView, e: Event) -> bool {
    s.phase == Phase::Tracking && e is DeadlineReached
}

/// The event asks for a now-playing notice: the service became reachable
/// while an eligible track plays.
pub open spec fn notice_due(s: SessionView, e: Event) -> bool {
    match e {
        Event::Connectivity { online } => online && (s.phase == Phase::Tracking || s.phase
            == Phase::Paused),
        _ => false,
    }
}

/// The event asks for the cache to be reconciled.
pub open spec fn reconcile_due(e: Event) -> bool {
    match e {
        Event::Connectivity { online } => online,
        _ => false,
    }
}

/// How many events of a run make the session's listen final.
pub open spec fn final_attempts(s: SessionView, events: Seq<Event>) -> nat
    decreases events.len(),
{
    if events.len() == 0 {
        0
    } else {
        (if final_attempt(s, events[0]) {
            1nat
        } else {
            0nat
        }) + final_attempts(step(s, events[0]), events.drop_first())
    }
}

/// Within a session, that is a run of events without a file load, at most
/// one listen is made final: none when the session is not eligible, not yet
/// decided, or already final.
pub proof fn lemma_at_most_one_final_listen(s: SessionView, events: Seq<Event>)
    ensures
        final_attempts(s, events) <= if s.phase == Phase::Tracking || s.phase == Phase::Paused {
            1nat
        } else {
            0nat
        },
    decreases events.len(),
{
    if events.len() > 0 {
        lemma_at_most_one_final_listen(step(s, events[0]), events.drop_first());
    }
}

/// When the deadline of a tracked session is reached its listen is made
/// final, and no later event of the session, however many, makes another.
pub proof fn lemma_deadline_final_once(s: SessionView, wall_secs: u64, events: Seq<Event>)
    requires
        s.phase == Phase::Tracking,
    ensures
        final_attempt(s, Event::DeadlineReached { wall_secs }),
        step(s, Event::DeadlineReached { wall_secs }).phase == Phase::Finalized,
        final_attempts(step(s, Event::DeadlineReached { wall_secs }), events) == 0,
{
    lemma_at_most_one_final_listen(step(s, Event::DeadlineReached { wall_secs }), events);
}

/// Pausing at `t` and resuming `p` later moves the deadline exactly `p`
/// later and changes nothing else but the recorded pause instant; with no
/// time paused the deadline stays where it was.
pub proof fn lemma_pause_resume_shift(s: SessionView, t: u64, p: u64)
    requires
        s.phase == Phase::Tracking,
        t + p <= u64::MAX,
        s.deadline + p <= u64::MAX,
    ensures
        step(step(s, Event::Pause { now: t }), Event::Resume { now: (t + p) as u64 }) == (
        SessionView { deadline: (s.deadline + p) as u64, paused_at: t, ..s }),
{
}

/// Everything the machine holds between events.
pub struct ListenbrainzData {
    /// The current listen.
    pub payload: Payload,
    pub phase: Phase,
    /// Whether the current track can be scrobbled, decided when it loads.
    pub eligible: bool,
    /// Whether the service is reachable.
    pub online: bool,
    /// Also require a release identifier to scrobble.
    pub require_release_mbid: bool,
    /// When the listen becomes final, while eligible.
    pub scrobble_deadline: u64,
    /// When playback was last paused.
    pub pause_instant: u64,
    pub timer: DeadlineScheduler,
}

impl ListenbrainzData {
    /// The timer is armed, at the deadline, exactly while tracking; only a
    /// final listen has a `listened_at`.
    pub open spec fn wf(&self) -> bool {
        &&& self.timer@ == if self.phase == Phase::Tracking {
            Some(self.scrobble_deadline)
        } else {
            None
        }
        &&& self.phase != Phase::Finalized ==> self.payload.listened_at is None
    }

    pub open spec fn session(&self) -> SessionView {
        SessionView {
            phase: self.phase,
            deadline: self.scrobble_deadline,
            paused_at: self.pause_instant,
            online: self.online,
            listened_at: self.payload.listened_at,
            duration_ms: self.payload.track_metadata.additional_info.duration_ms,
        }
    }

    /// The listen with the given session facts.
    pub open spec fn listen_after(&self, s: SessionView) -> Payload {
        Payload {
            listened_at: s.listened_at,
            track_metadata: crate::listen::TrackMetadata {
                additional_info: crate::listen::AdditionalInfo {
                    duration_ms: s.duration_ms,
                    ..self.payload.track_metadata.additional_info
                },
                ..self.payload.track_metadata
            },
        }
    }

    /// No session yet.
    pub fn new(online: bool, require_release_mbid: bool) -> (r: Self)
        ensures
            r.wf(),
            r.phase == Phase::Idle,
            r.online == online,
            r.require_release_mbid == require_release_mbid,
            r.payload.is_blank(),
    {
        ListenbrainzData {
            payload: Payload::default(),
            phase: Phase::Idle,
            eligible: false,
            online,
            require_release_mbid,
            scrobble_deadline: 0,
            pause_instant: 0,
            timer: DeadlineScheduler::new(),
        }
    }

    /// Handles one event.
    pub fn handle(&mut self, e: Event) -> (r: Actions)
        requires
            old(self).wf(),
            e.valid(),
        ensures
            final(self).wf(),
            final(self).session() == step(old(self).session(), e),
            final(self).payload == old(self).listen_after(final(self).session()),
            final(self).eligible == old(self).eligible,
            final(self).require_release_mbid == old(self).require_release_mbid,
            r.reconcile == reconcile_due(e),
            final_attempt(old(self).session(), e) ==> match r.submission {
                Some(sub) => payload_encodable(final(self).payload) && sub == (Submission {
                    listen_type: ListenType::Single,
                    payload: sub.payload,
                    listened_at: final(self).payload.listened_at,
                    send: old(self).online,
                }) && sub.payload@ == payload_json(final(self).payload),
                None => !payload_encodable(final(self).payload),
            },
            notice_due(old(self).session(), e) ==> match r.submission {
                Some(sub) => payload_encodable(final(self).payload) && sub == (Submission {
                    listen_type: ListenType::PlayingNow,
                    payload: sub.payload,
                    listened_at: None,
                    send: true,
                }) && sub.payload@ == payload_json(final(self).payload),
                None => !payload_encodable(final(self).payload),
            },
            !final_attempt(old(self).session(), e) && !notice_due(old(self).session(), e)
                ==> r.submission is None,
    {
        let ghost before = self.session();
        let mut actions = Actions { submission: None, reconcile: false };
        match e {
            Event::Pause { now } => {
                if self.phase == Phase::Tracking {
                    self.pause_instant = now;
                    self.timer.cancel();
                    self.phase = Phase::Paused;
                }
            },
            Event::Resume { now } => {
                if self.phase == Phase::Paused {
                    self.scrobble_deadline = shift_by_pause(
                        self.scrobble_deadline,
                        self.pause_instant,
                        now,
                    );
                    self.timer.arm(self.scrobble_deadline);
                    self.phase = Phase::Tracking;
                }
            },
            Event::SpeedChange { speed, duration_ms, position_ms, now } => {
                if self.phase == Phase::Tracking {
                    self.scrobble_deadline = deadline_from(now, duration_ms, speed, position_ms);
                    self.payload.track_metadata.additional_info.duration_ms = duration_ms;
                    self.timer.reschedule(self.scrobble_deadline);
                }
            },
            Event::Seek { position_secs, duration_ms, speed, now } => {
                if position_secs == 0 && (self.phase == Phase::Tracking || self.phase
                    == Phase::Paused) {
                    self.scrobble_deadline = deadline_from(now, duration_ms, speed, 0);
                    self.payload.track_metadata.additional_info.duration_ms = duration_ms;
                    if self.phase == Phase::Tracking {
                        self.timer.reschedule(self.scrobble_deadline);
                    } else {
                        self.pause_instant = now;
                    }
                }
            },
            Event::DeadlineReached { wall_secs } => {
                if self.phase == Phase::Tracking {
                    self.timer.cancel();
                    self.phase = Phase::Finalized;
                    self.payload.listened_at = if wall_secs > 0 {
                        Some(wall_secs)
                    } else {
                        None
                    };
                    actions.submission = match encode_payload(&self.payload) {
                        Some(bytes) => Some(
                            Submission {
                                listen_type: ListenType::Single,
                                payload: bytes,
                                listened_at: self.payload.listened_at,
                                send: self.online,
                            },
                        ),
                        None => None,
                    };
                }
            },
            Event::Connectivity { online } => {
                self.online = online;
                if online {
                    actions.reconcile = true;
                    if self.phase == Phase::Tracking || self.phase == Phase::Paused {
                        actions.submission = match encode_payload(&self.payload) {
                            Some(bytes) => Some(
                                Submission {
                                    listen_type: ListenType::PlayingNow,
                                    payload: bytes,
                                    listened_at: None,
                                    send: true,
                                },
                            ),
                            None => None,
                        };
                    }
                }
            },
        }
        assert(self.payload == old(self).listen_after(self.session()));
        actions
    }

    /// A file was loaded, or playback restarted, with the audio clock at
    /// `audio_pts` seconds (`None` where the player could not tell). Unless
    /// playback resumed mid-file, a new session starts: the armed deadline
    /// is cancelled, the listen is read afresh from `tags`, and eligibility
    /// is decided from it and the file's name.
    pub fn begin_load(&mut self, audio_pts: Option<i64>, tags: &Vec<(String, String)>, filename: &str) -> (r:
        LoadStep)
        requires
            old(self).wf(),
        ensures
            final(self).wf(),
            final(self).online == old(self).online,
            final(self).require_release_mbid == old(self).require_release_mbid,
            audio_pts matches Some(p) && p >= 1 ==> r == LoadStep::Ignored && *final(self) == *old(self),
            !(audio_pts matches Some(p) && p >= 1) ==> {
                &&& final(self).phase == Phase::Loading
                &&& final(self).payload.listened_at is None
                &&& final(self).payload.track_metadata.tag_view() == tags_read(tags@)
                &&& final(self).payload.track_metadata.additional_info.duration_ms == 0
                &&& final(self).eligible == eligible(
                    filename@,
                    tags_read(tags@),
                    old(self).require_release_mbid,
                )
                &&& r == if tags_read(tags@).recording_mbid.len() == 0 {
                    LoadStep::NeedsLookup
                } else {
                    LoadStep::Ready
                }
            },
    {
        match audio_pts {
            Some(p) => {
                if p >= 1 {
                    return LoadStep::Ignored;
                }
            },
            None => {},
        }
        self.timer.cancel();
        let meta = read_tags(tags);
        self.eligible = is_eligible(filename, &meta, self.require_release_mbid);
        self.payload = Payload { listened_at: None, track_metadata: meta };
        self.phase = Phase::Loading;
        if self.payload.track_metadata.additional_info.recording_mbid.as_str().is_empty() {
            LoadStep::NeedsLookup
        } else {
            LoadStep::Ready
        }
    }

    /// Completes a load with the recording identifier found in the file, if
    /// one was looked for, and the track's duration and speed at `now`. An
    /// eligible track arms its deadline, `threshold` after `now`, and, when
    /// online, asks for a now-playing notice; any other becomes inert.
    /// Outside a load nothing happens.
    pub fn finish_load(&mut self, found: Option<String>, duration_ms: u64, speed: u64, now: u64) -> (r:
        Option<Submission>)
        requires
            old(self).wf(),
            speed > 0,
        ensures
            final(self).wf(),
            final(self).online == old(self).online,
            final(self).eligible == old(self).eligible,
            final(self).require_release_mbid == old(self).require_release_mbid,
            old(self).phase != Phase::Loading ==> *final(self) == *old(self) && r is None,
            old(self).phase == Phase::Loading ==> {
                &&& final(self).payload.listened_at is None
                &&& final(self).payload.track_metadata.artist_name
                    == old(self).payload.track_metadata.artist_name
                &&& final(self).payload.track_metadata.track_name
                    == old(self).payload.track_metadata.track_name
                &&& final(self).payload.track_metadata.release_name
                    == old(self).payload.track_metadata.release_name
                &&& final(self).payload.track_metadata.additional_info.release_mbid
                    == old(self).payload.track_metadata.additional_info.release_mbid
                &&& final(self).payload.track_metadata.additional_info.artist_mbids
                    == old(self).payload.track_metadata.additional_info.artist_mbids
                &&& final(self).payload.track_metadata.additional_info.recording_mbid@ == if old(
                    self,
                ).payload.track_metadata.additional_info.recording_mbid@.len() == 0 && found is Some {
                    found.unwrap()@
                } else {
                    old(self).payload.track_metadata.additional_info.recording_mbid@
                }
            },
            old(self).phase == Phase::Loading && old(self).eligible ==> {
                &&& final(self).phase == Phase::Tracking
                &&& final(self).scrobble_deadline == instant_after(
                    now as nat,
                    threshold(duration_ms as nat, speed as nat),
                )
                &&& final(self).timer@ == Some(final(self).scrobble_deadline)
                &&& final(self).payload.track_metadata.additional_info.duration_ms == duration_ms
                &&& old(self).online ==> match r {
                    Some(sub) => payload_encodable(final(self).payload) && sub == (Submission {
                        listen_type: ListenType::PlayingNow,
                        payload: sub.payload,
                        listened_at: None,
                        send: true,
                    }) && sub.payload@ == payload_json(final(self).payload),
                    None => !payload_encodable(final(self).payload),
                }
                &&& !old(self).online ==> r is None
            },
            old(self).phase == Phase::Loading && !old(self).eligible ==> {
                &&& final(self).phase == Phase::NotEligible
                &&& final(self).payload.track_metadata.additional_info.duration_ms
                    == old(self).payload.track_metadata.additional_info.duration_ms
                &&& r is None
            },
    {
        if self.phase != Phase::Loading {
            return None;
        }
        if self.payload.track_metadata.additional_info.recording_mbid.as_str().is_empty() {
            match found {
                Some(id) => {
                    self.payload.track_metadata.additional_info.recording_mbid = id;
                },
                None => {},
            }
        }
        if !self.eligible {
            self.phase = Phase::NotEligible;
            return None;
        }
        self.payload.track_metadata.additional_info.duration_ms = duration_ms;
        self.scrobble_deadline = deadline_from(now, duration_ms, speed, 0);
        self.timer.arm(self.scrobble_deadline);
        self.phase = Phase::Tracking;
        if !self.online {
            return None;
        }
        match encode_payload(&self.payload) {
            Some(bytes) => Some(
                Submission {
                    listen_type: ListenType::PlayingNow,
                    payload: bytes,
                    listened_at: None,
                    send: true,
                },
            ),
            None => None,
        }
    }

    /// The feedback body to send for the current track: refused when the
    /// track has no recording identifier, then when the service is not
    /// reachable.
    pub fn feedback(&self, rating: Feedback) -> (r: Result<Vec<u8>, FeedbackError>)
        ensures
            self.payload.track_metadata.additional_info.recording_mbid@.len() == 0 ==> r
                == Err::<Vec<u8>, FeedbackError>(FeedbackError::UnknownRecording),
            self.payload.track_metadata.additional_info.recording_mbid@.len() > 0 && !self.online
                ==> r == Err::<Vec<u8>, FeedbackError>(FeedbackError::Offline),
            self.payload.track_metadata.additional_info.recording_mbid@.len() > 0 && self.online
                ==> match r {
                Ok(body) => encodes(self.payload.track_metadata.additional_info.recording_mbid@)
                    && body@ == feedback_json(
                    self.payload.track_metadata.additional_info.recording_mbid@,
                    score_of(rating),
                ),
                Err(e) => e == FeedbackError::Encoding && !encodes(
                    self.payload.track_metadata.additional_info.recording_mbid@,
                ),
            },
    {
        let id = self.payload.track_metadata.additional_info.recording_mbid.as_str();
        if id.is_empty() {
            return Err(FeedbackError::UnknownRecording);
        }
        if !self.online {
            return Err(FeedbackError::Offline);
        }
        match encode_feedback(id, rating.score()) {
            Some(body) => Ok(body),
            None => Err(FeedbackError::Encoding),
        }
    }
}

} // verus!
