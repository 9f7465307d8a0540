//! The playback coordinator: owner of the catalog, the selected track
//! index, the one live session and the id counter. Every transport command
//! mutates this state, pushes the events the front end is owed, and is
//! specified exactly by a transition predicate; the laws relating the
//! commands are proved below them.
//!
//! The caller performs the device work a command decides on — opening an
//! output stream, starting a streaming task — and reports its outcome back
//! through `playback_failed`, `stream_ended` and `mark_drained`.

use vstd::prelude::*;

use crate::catalog::{
    FileEntry, Track, find_index, find_track, lemma_find_index_char, lemma_scan_track_ids,
    lemma_scan_tracks_len, scan_tracks, collect_tracks,
};
use crate::state::{MonitorStep, PlaybackStatus, PlayerError, PlayerEvent, Session, fresh_session};
use crate::urlcheck::{scheme_verdict, url_scheme, validate_stream_url};

verus! {

/// Volume a new session starts at, in percent of full scale.
pub const DEFAULT_VOLUME_PERCENT: u32 = 80;

/// Volume a snapshot reports when no session is live.
pub const FULL_VOLUME_PERCENT: u32 = 100;

/// What a successful `play` asks of the caller: open the device for this
/// path and start a monitor for the track at this index.
#[derive(Debug)]
pub struct PlayAction {
    pub index: usize,
    pub path: String,
}

/// The read-only projection handed to a front end on demand.
#[derive(Debug)]
pub struct PlayerStateSnapshot {
    pub status: PlaybackStatus,
    pub playlist: Vec<Track>,
    pub current_track_index: Option<usize>,
    pub current_position_secs: u64,
    pub volume_percent: u32,
    pub is_initialized: bool,
}

/// The coordinator's whole mutable state.
pub struct Coordinator {
    /// The current catalog, replaced wholesale by a rescan.
    pub playlist: Vec<Track>,
    /// Index into `playlist`; reset whenever the catalog is replaced.
    pub current_track_index: Option<usize>,
    /// Coordinator-visible transport status.
    pub status: PlaybackStatus,
    /// The one live session's transport state, if any.
    pub session: Option<Session>,
    /// Next track id to issue; increases monotonically, never reset.
    pub next_track_id: u32,
    /// Bumped each time the session slot is installed or cleared; a
    /// monitor holds the value it was started under and stops once the
    /// coordinator has moved past it.
    pub session_generation: u64,
    /// Set once the library has been initialized.
    pub initialized: bool,
    /// Events owed to the front end, in the order they were emitted.
    pub events: Vec<PlayerEvent>,
}

impl Coordinator {
    /// Internal consistency: issued ids stay below the counter and are
    /// strictly increasing across the catalog, and the selected index
    /// points into the catalog.
    pub open spec fn wf(self) -> bool {
        &&& 1 <= self.next_track_id
        &&& forall|k: int|
            0 <= k < self.playlist@.len() ==> (#[trigger] self.playlist@[k]).id
                < self.next_track_id
        &&& forall|k1: int, k2: int|
            0 <= k1 < k2 < self.playlist@.len() ==> self.playlist@[k1].id
                < self.playlist@[k2].id
        &&& match self.current_track_index {
            Some(i) => i < self.playlist@.len(),
            None => true,
        }
    }
}

/// Everything but the event outbox is as it was.
pub open spec fn same_state(pre: Coordinator, post: Coordinator) -> bool {
    &&& post.playlist@ == pre.playlist@
    &&& post.current_track_index == pre.current_track_index
    &&& post.status == pre.status
    &&& post.session == pre.session
    &&& post.next_track_id == pre.next_track_id
    &&& post.session_generation == pre.session_generation
    &&& post.initialized == pre.initialized
}

/// The fields a command may never touch.
pub open spec fn same_library(pre: Coordinator, post: Coordinator) -> bool {
    &&& post.playlist@ == pre.playlist@
    &&& post.next_track_id == pre.next_track_id
    &&& post.initialized == pre.initialized
}

/// What a library scan does to the coordinator: the catalog is replaced
/// wholesale, ids continue from the counter, the stale index is dropped,
/// the status returns to Stopped — and the session, if one is sounding,
/// is left alone.
pub open spec fn ingest_post(pre: Coordinator, post: Coordinator, entries: Seq<FileEntry>) -> bool {
    &&& post.playlist@ == scan_tracks(entries, pre.next_track_id)
    &&& post.next_track_id == pre.next_track_id + scan_tracks(entries, pre.next_track_id).len()
    &&& post.current_track_index is None
    &&& post.status == PlaybackStatus::Stopped
    &&& post.session == pre.session
    &&& post.session_generation == pre.session_generation
    &&& post.initialized == true
}

/// A snapshot reports the coordinator's state as it stands; without a live
/// session the position is zero and the volume reads full.
pub open spec fn snapshot_matches(c: Coordinator, s: PlayerStateSnapshot) -> bool {
    &&& s.status == c.status
    &&& s.playlist@ == c.playlist@
    &&& s.current_track_index == c.current_track_index
    &&& s.current_position_secs == (match c.session {
        Some(ss) => ss.position_secs,
        None => 0u64,
    })
    &&& s.volume_percent == (match c.session {
        Some(ss) => ss.volume_percent,
        None => FULL_VOLUME_PERCENT,
    })
    &&& s.is_initialized == c.initialized
}

impl Coordinator {
    /// A coordinator that has scanned nothing yet: empty catalog, id
    /// counter at one, no session, no events owed.
    pub fn new() -> (c: Coordinator)
        ensures
            c.wf(),
            c.playlist@ == Seq::<Track>::empty(),
            c.current_track_index is None,
            c.status == PlaybackStatus::Stopped,
            c.session is None,
            c.next_track_id == 1,
            c.session_generation == 0,
            c.initialized == false,
            c.events@ == Seq::<PlayerEvent>::empty(),
    {
        Coordinator {
            playlist: Vec::new(),
            current_track_index: None,
            status: PlaybackStatus::Stopped,
            session: None,
            next_track_id: 1,
            session_generation: 0,
            initialized: false,
            events: Vec::new(),
        }
    }

    fn clone_playlist(&self) -> (r: Vec<Track>)
        ensures
            r@ == self.playlist@,
    {
        let mut out: Vec<Track> = Vec::new();
        let mut i: usize = 0;
        while i < self.playlist.len()
            invariant
                i <= self.playlist@.len(),
                out@ == self.playlist@.subrange(0, i as int),
            decreases self.playlist@.len() - i,
        {
            out.push(self.playlist[i].clone());
            proof {
                assert(out@ =~= self.playlist@.subrange(0, i as int + 1));
            }
            i += 1;
        }
        proof {
            assert(self.playlist@.subrange(0, self.playlist@.len() as int) =~= self.playlist@);
        }
        out
    }

    /// The read-only projection of the current state.
    pub fn snapshot(&self) -> (r: PlayerStateSnapshot)
        ensures
            snapshot_matches(*self, r),
    {
        let (position_secs, volume_percent) = match &self.session {
            Some(s) => (s.position_secs, s.volume_percent),
            None => (0u64, FULL_VOLUME_PERCENT),
        };
        PlayerStateSnapshot {
            status: self.status,
            playlist: self.clone_playlist(),
            current_track_index: self.current_track_index,
            current_position_secs: position_secs,
            volume_percent,
            is_initialized: self.initialized,
        }
    }

    fn ingest(&mut self, entries: Vec<FileEntry>)
        requires
            old(self).wf(),
            old(self).next_track_id + entries@.len() <= u32::MAX,
        ensures
            final(self).wf(),
            ingest_post(*old(self), *final(self), entries@),
            final(self).events@ == old(self).events@,
    {
        let (tracks, counter) = collect_tracks(&entries, self.next_track_id);
        proof {
            lemma_scan_track_ids(entries@, self.next_track_id);
            lemma_scan_tracks_len(entries@, self.next_track_id);
        }
        self.playlist = tracks;
        self.next_track_id = counter;
        self.current_track_index = None;
        self.status = PlaybackStatus::Stopped;
        self.initialized = true;
    }

    /// First scan: install the catalog built from the walked entries and
    /// hand back a snapshot of the fresh, stopped state.
    pub fn initialize_library(&mut self, entries: Vec<FileEntry>) -> (r: PlayerStateSnapshot)
        requires
            old(self).wf(),
            old(self).next_track_id + entries@.len() <= u32::MAX,
        ensures
            final(self).wf(),
            ingest_post(*old(self), *final(self), entries@),
            final(self).events@ == old(self).events@,
            snapshot_matches(*final(self), r),
    {
        self.ingest(entries);
        self.snapshot()
    }

    /// Rescan: replace the catalog wholesale, drop the stale index, return
    /// to Stopped, and tell the front end the playlist changed. A session
    /// still sounding is not stopped — but the old index must no longer be
    /// relied on.
    pub fn rescan_library(&mut self, entries: Vec<FileEntry>) -> (r: PlayerStateSnapshot)
        requires
            old(self).wf(),
            old(self).next_track_id + entries@.len() <= u32::MAX,
        ensures
            final(self).wf(),
            ingest_post(*old(self), *final(self), entries@),
            final(self).events@ == old(self).events@ + seq![PlayerEvent::PlaylistUpdated],
            snapshot_matches(*final(self), r),
    {
        self.ingest(entries);
        self.events.push(PlayerEvent::PlaylistUpdated);
        self.snapshot()
    }
}

/// What `play` does. An absent id fails with `TrackNotFound` and changes
/// nothing. A present id resolves to its position, installs a fresh
/// session at the default volume under a new generation, selects that
/// position, and emits `TrackChanged` then `StateChanged{Playing}`, in
/// that order, before the call returns.
pub open spec fn play_post(
    pre: Coordinator,
    post: Coordinator,
    track_id: u32,
    r: Result<PlayAction, PlayerError>,
) -> bool {
    match find_index(pre.playlist@, track_id) {
        None => {
            &&& r == Err::<PlayAction, PlayerError>(PlayerError::TrackNotFound)
            &&& same_state(pre, post)
            &&& post.events@ == pre.events@
        },
        Some(i) => {
            &&& r is Ok
            &&& r->Ok_0.index == i
            &&& r->Ok_0.path == pre.playlist@[i].path
            &&& same_library(pre, post)
            &&& post.current_track_index == Some(i as usize)
            &&& post.status == PlaybackStatus::Playing
            &&& post.session == Some(fresh_session(DEFAULT_VOLUME_PERCENT))
            &&& post.session_generation == pre.session_generation + 1
            &&& post.events@ == pre.events@ + seq![
                PlayerEvent::TrackChanged { index: i as usize, track_id },
                PlayerEvent::StateChanged { status: PlaybackStatus::Playing },
            ]
        },
    }
}

/// What `play_url` does. A URL that does not parse, or whose scheme is
/// not `http` or `https`, is rejected before anything starts and changes
/// nothing. An accepted URL installs a fresh streaming session under a
/// new generation and emits `StateChanged{Playing}` at once; the end of
/// the stream is reported later through `stream_ended` or
/// `playback_failed`.
pub open spec fn play_url_post(
    pre: Coordinator,
    post: Coordinator,
    url: Seq<char>,
    r: Result<(), PlayerError>,
) -> bool {
    match scheme_verdict(url_scheme(url)) {
        Err(e) => {
            &&& r == Err::<(), PlayerError>(e)
            &&& same_state(pre, post)
            &&& post.events@ == pre.events@
        },
        Ok(_) => {
            &&& r == Ok::<(), PlayerError>(())
            &&& same_library(pre, post)
            &&& post.current_track_index == pre.current_track_index
            &&& post.status == PlaybackStatus::Playing
            &&& post.session == Some(fresh_session(DEFAULT_VOLUME_PERCENT))
            &&& post.session_generation == pre.session_generation + 1
            &&& post.events@ == pre.events@ + seq![
                PlayerEvent::StateChanged { status: PlaybackStatus::Playing },
            ]
        },
    }
}

/// What `pause` does: with no session it fails with `NoActivePlayback`
/// and alters nothing; with one it sets the paused flag, moves the status
/// to Paused and emits the change.
pub open spec fn pause_post(pre: Coordinator, post: Coordinator, r: Result<(), PlayerError>) -> bool {
    match pre.session {
        None => {
            &&& r == Err::<(), PlayerError>(PlayerError::NoActivePlayback)
            &&& same_state(pre, post)
            &&& post.events@ == pre.events@
        },
        Some(s) => {
            &&& r == Ok::<(), PlayerError>(())
            &&& same_library(pre, post)
            &&& post.current_track_index == pre.current_track_index
            &&& post.status == PlaybackStatus::Paused
            &&& post.session == Some(Session {
                paused: true,
                volume_percent: s.volume_percent,
                position_secs: s.position_secs,
                drained: s.drained,
            })
            &&& post.session_generation == pre.session_generation
            &&& post.events@ == pre.events@ + seq![
                PlayerEvent::StateChanged { status: PlaybackStatus::Paused },
            ]
        },
    }
}

/// What `resume` does: the mirror of `pause`, back to Playing.
pub open spec fn resume_post(pre: Coordinator, post: Coordinator, r: Result<(), PlayerError>) -> bool {
    match pre.session {
        None => {
            &&& r == Err::<(), PlayerError>(PlayerError::NoActivePlayback)
            &&& same_state(pre, post)
            &&& post.events@ == pre.events@
        },
        Some(s) => {
            &&& r == Ok::<(), PlayerError>(())
            &&& same_library(pre, post)
            &&& post.current_track_index == pre.current_track_index
            &&& post.status == PlaybackStatus::Playing
            &&& post.session == Some(Session {
                paused: false,
                volume_percent: s.volume_percent,
                position_secs: s.position_secs,
                drained: s.drained,
            })
            &&& post.session_generation == pre.session_generation
            &&& post.events@ == pre.events@ + seq![
                PlayerEvent::StateChanged { status: PlaybackStatus::Playing },
            ]
        },
    }
}

/// What the progress monitor decides on one tick, for the generation it
/// was started under: stop when the session is gone, replaced or drained;
/// stay silent while it is paused; report otherwise.
pub open spec fn monitor_step(c: Coordinator, bound_generation: u64) -> MonitorStep {
    match c.session {
        None => MonitorStep::Stop,
        Some(s) => if c.session_generation != bound_generation {
            MonitorStep::Stop
        } else if s.paused {
            MonitorStep::Hold
        } else if s.drained {
            MonitorStep::Stop
        } else {
            MonitorStep::Report
        },
    }
}

impl Coordinator {
    /// Start playing the catalog track carrying this id. On success the
    /// caller must open the device for the returned path and run a
    /// monitor under the new generation.
    pub fn play(&mut self, track_id: u32) -> (r: Result<PlayAction, PlayerError>)
        requires
            old(self).wf(),
            old(self).session_generation < u64::MAX,
        ensures
            final(self).wf(),
            play_post(*old(self), *final(self), track_id, r),
    {
        proof {
            lemma_find_index_char(self.playlist@, track_id);
        }
        match find_track(&self.playlist, track_id) {
            None => Err(PlayerError::TrackNotFound),
            Some(i) => {
                let path = self.playlist[i].path.clone();
                self.session = Some(Session::fresh(DEFAULT_VOLUME_PERCENT));
                self.session_generation = self.session_generation + 1;
                self.current_track_index = Some(i);
                self.status = PlaybackStatus::Playing;
                self.events.push(PlayerEvent::TrackChanged { index: i, track_id });
                self.events.push(
                    PlayerEvent::StateChanged { status: PlaybackStatus::Playing },
                );
                proof {
                    assert(self.events@ =~= old(self).events@ + seq![
                        PlayerEvent::TrackChanged { index: i, track_id },
                        PlayerEvent::StateChanged { status: PlaybackStatus::Playing },
                    ]);
                }
                Ok(PlayAction { index: i, path })
            },
        }
    }

    /// Validate a URL and, when it passes, install a streaming session.
    /// The caller starts the streaming task only on `Ok` and reports how
    /// it ended.
    pub fn play_url(&mut self, url: &str) -> (r: Result<(), PlayerError>)
        requires
            old(self).wf(),
            old(self).session_generation < u64::MAX,
        ensures
            final(self).wf(),
            play_url_post(*old(self), *final(self), url@, r),
    {
        match validate_stream_url(url) {
            Err(e) => Err(e),
            Ok(_) => {
                self.session = Some(Session::fresh(DEFAULT_VOLUME_PERCENT));
                self.session_generation = self.session_generation + 1;
                self.status = PlaybackStatus::Playing;
                self.events.push(
                    PlayerEvent::StateChanged { status: PlaybackStatus::Playing },
                );
                proof {
                    assert(self.events@ =~= old(self).events@ + seq![
                        PlayerEvent::StateChanged { status: PlaybackStatus::Playing },
                    ]);
                }
                Ok(())
            },
        }
    }

    /// Pause the live session, if any.
    pub fn pause(&mut self) -> (r: Result<(), PlayerError>)
        requires
            old(self).wf(),
        ensures
            final(self).wf(),
            pause_post(*old(self), *final(self), r),
    {
        match &self.session {
            None => Err(PlayerError::NoActivePlayback),
            Some(s) => {
                self.session = Some(Session {
                    paused: true,
                    volume_percent: s.volume_percent,
                    position_secs: s.position_secs,
                    drained: s.drained,
                });
                self.status = PlaybackStatus::Paused;
                self.events.push(
                    PlayerEvent::StateChanged { status: PlaybackStatus::Paused },
                );
                proof {
                    assert(self.events@ =~= old(self).events@ + seq![
                        PlayerEvent::StateChanged { status: PlaybackStatus::Paused },
                    ]);
                }
                Ok(())
            },
        }
    }

    /// Resume the live session, if any.
    pub fn resume(&mut self) -> (r: Result<(), PlayerError>)
        requires
            old(self).wf(),
        ensures
            final(self).wf(),
            resume_post(*old(self), *final(self), r),
    {
        match &self.session {
            None => Err(PlayerError::NoActivePlayback),
            Some(s) => {
                self.session = Some(Session {
                    paused: false,
                    volume_percent: s.volume_percent,
                    position_secs: s.position_secs,
                    drained: s.drained,
                });
                self.status = PlaybackStatus::Playing;
                self.events.push(
                    PlayerEvent::StateChanged { status: PlaybackStatus::Playing },
                );
                proof {
                    assert(self.events@ =~= old(self).events@ + seq![
                        PlayerEvent::StateChanged { status: PlaybackStatus::Playing },
                    ]);
                }
                Ok(())
            },
        }
    }

    /// Move the live session to this position. Whether the device seeks,
    /// or treats it as a well-defined no-op, is the backend's affair; the
    /// coordinator records the requested position either way.
    pub fn seek(&mut self, position_secs: u64) -> (r: Result<(), PlayerError>)
        requires
            old(self).wf(),
        ensures
            final(self).wf(),
            match old(self).session {
                None => {
                    &&& r == Err::<(), PlayerError>(PlayerError::NoActivePlayback)
                    &&& same_state(*old(self), *final(self))
                    &&& final(self).events@ == old(self).events@
                },
                Some(s) => {
                    &&& r == Ok::<(), PlayerError>(())
                    &&& same_library(*old(self), *final(self))
                    &&& final(self).current_track_index == old(self).current_track_index
                    &&& final(self).status == old(self).status
                    &&& final(self).session == Some(Session {
                        paused: s.paused,
                        volume_percent: s.volume_percent,
                        position_secs,
                        drained: s.drained,
                    })
                    &&& final(self).session_generation == old(self).session_generation
                    &&& final(self).events@ == old(self).events@
                },
            },
    {
        match &self.session {
            None => Err(PlayerError::NoActivePlayback),
            Some(s) => {
                self.session = Some(Session {
                    paused: s.paused,
                    volume_percent: s.volume_percent,
                    position_secs,
                    drained: s.drained,
                });
                Ok(())
            },
        }
    }

    /// Set the live session's volume, in percent of full scale. No hard
    /// clamping is applied; callers are expected to stay in `0..=100`.
    pub fn set_volume(&mut self, volume_percent: u32) -> (r: Result<(), PlayerError>)
        requires
            old(self).wf(),
        ensures
            final(self).wf(),
            match old(self).session {
                None => {
                    &&& r == Err::<(), PlayerError>(PlayerError::NoActivePlayback)
                    &&& same_state(*old(self), *final(self))
                    &&& final(self).events@ == old(self).events@
                },
                Some(s) => {
                    &&& r == Ok::<(), PlayerError>(())
                    &&& same_library(*old(self), *final(self))
                    &&& final(self).current_track_index == old(self).current_track_index
                    &&& final(self).status == old(self).status
                    &&& final(self).session == Some(Session {
                        paused: s.paused,
                        volume_percent,
                        position_secs: s.position_secs,
                        drained: s.drained,
                    })
                    &&& final(self).session_generation == old(self).session_generation
                    &&& final(self).events@ == old(self).events@
                },
            },
    {
        match &self.session {
            None => Err(PlayerError::NoActivePlayback),
            Some(s) => {
                self.session = Some(Session {
                    paused: s.paused,
                    volume_percent,
                    position_secs: s.position_secs,
                    drained: s.drained,
                });
                Ok(())
            },
        }
    }

    /// Resolve a track id to the path whose metadata holds the album art.
    /// Reading the picture itself is the caller's short-lived metadata
    /// open; playback state is not touched.
    pub fn get_album_art(&self, track_id: u32) -> (r: Option<String>)
        ensures
            match find_index(self.playlist@, track_id) {
                Some(i) => r is Some && r->Some_0 == self.playlist@[i].path,
                None => r is None,
            },
    {
        proof {
            lemma_find_index_char(self.playlist@, track_id);
        }
        match find_track(&self.playlist, track_id) {
            Some(i) => Some(self.playlist[i].path.clone()),
            None => None,
        }
    }

    /// One monitor tick, for the generation the monitor was started
    /// under.
    pub fn monitor_tick(&self, bound_generation: u64) -> (t: MonitorStep)
        ensures
            t == monitor_step(*self, bound_generation),
    {
        match &self.session {
            None => MonitorStep::Stop,
            Some(s) => {
                if self.session_generation != bound_generation {
                    MonitorStep::Stop
                } else if s.paused {
                    MonitorStep::Hold
                } else if s.drained {
                    MonitorStep::Stop
                } else {
                    MonitorStep::Report
                }
            },
        }
    }

    /// Record the position the monitor sampled and emit `progress`.
    pub fn report_progress(&mut self, position_secs: u64)
        requires
            old(self).wf(),
        ensures
            final(self).wf(),
            same_library(*old(self), *final(self)),
            final(self).current_track_index == old(self).current_track_index,
            final(self).status == old(self).status,
            final(self).session_generation == old(self).session_generation,
            final(self).session == (match old(self).session {
                Some(s) => Some(Session {
                    paused: s.paused,
                    volume_percent: s.volume_percent,
                    position_secs,
                    drained: s.drained,
                }),
                None => None::<Session>,
            }),
            final(self).events@ == old(self).events@ + seq![
                PlayerEvent::Progress { position_secs },
            ],
    {
        match &self.session {
            None => {},
            Some(s) => {
                self.session = Some(Session {
                    paused: s.paused,
                    volume_percent: s.volume_percent,
                    position_secs,
                    drained: s.drained,
                });
            },
        }
        self.events.push(PlayerEvent::Progress { position_secs });
        proof {
            assert(self.events@ =~= old(self).events@ + seq![
                PlayerEvent::Progress { position_secs },
            ]);
        }
    }

    /// The caller observed the session drain: decoding finished naturally
    /// and nothing remains to output.
    pub fn mark_drained(&mut self)
        requires
            old(self).wf(),
        ensures
            final(self).wf(),
            same_library(*old(self), *final(self)),
            final(self).current_track_index == old(self).current_track_index,
            final(self).status == old(self).status,
            final(self).session_generation == old(self).session_generation,
            final(self).events@ == old(self).events@,
            final(self).session == (match old(self).session {
                Some(s) => Some(Session {
                    paused: s.paused,
                    volume_percent: s.volume_percent,
                    position_secs: s.position_secs,
                    drained: true,
                }),
                None => None::<Session>,
            }),
    {
        match &self.session {
            None => {},
            Some(s) => {
                self.session = Some(Session {
                    paused: s.paused,
                    volume_percent: s.volume_percent,
                    position_secs: s.position_secs,
                    drained: true,
                });
            },
        }
    }

    /// The streaming task ended normally: release the session slot and
    /// tell the front end playback stopped.
    pub fn stream_ended(&mut self)
        requires
            old(self).wf(),
            old(self).session_generation < u64::MAX,
        ensures
            final(self).wf(),
            same_library(*old(self), *final(self)),
            final(self).current_track_index == old(self).current_track_index,
            final(self).status == PlaybackStatus::Stopped,
            final(self).session is None,
            final(self).session_generation == old(self).session_generation + 1,
            final(self).events@ == old(self).events@ + seq![
                PlayerEvent::StateChanged { status: PlaybackStatus::Stopped },
            ],
    {
        self.session = None;
        self.session_generation = self.session_generation + 1;
        self.status = PlaybackStatus::Stopped;
        self.events.push(PlayerEvent::StateChanged { status: PlaybackStatus::Stopped });
        proof {
            assert(self.events@ =~= old(self).events@ + seq![
                PlayerEvent::StateChanged { status: PlaybackStatus::Stopped },
            ]);
        }
    }

    /// Background playback failed — the device could not be opened, or
    /// the streaming task broke off. The session slot is released, the
    /// status returns to Stopped, and the failure is reported as an
    /// event, never as a crash.
    pub fn playback_failed(&mut self, message: String)
        requires
            old(self).wf(),
            old(self).session_generation < u64::MAX,
        ensures
            final(self).wf(),
            same_library(*old(self), *final(self)),
            final(self).current_track_index == old(self).current_track_index,
            final(self).status == PlaybackStatus::Stopped,
            final(self).session is None,
            final(self).session_generation == old(self).session_generation + 1,
            final(self).events@ == old(self).events@ + seq![
                PlayerEvent::PlaybackError { message },
            ],
    {
        self.session = None;
        self.session_generation = self.session_generation + 1;
        self.status = PlaybackStatus::Stopped;
        self.events.push(PlayerEvent::PlaybackError { message });
        proof {
            assert(self.events@ =~= old(self).events@ + seq![
                PlayerEvent::PlaybackError { message },
            ]);
        }
    }

    /// Hand the owed events over, oldest first, leaving the outbox empty.
    pub fn take_events(&mut self) -> (r: Vec<PlayerEvent>)
        ensures
            same_state(*old(self), *final(self)),
            r@ == old(self).events@,
            final(self).events@ == Seq::<PlayerEvent>::empty(),
    {
        let mut out: Vec<PlayerEvent> = Vec::new();
        core::mem::swap(&mut out, &mut self.events);
        out
    }
}

/// After any scan, the installed catalog holds only files whose extension
/// is in the accepted audio set, and its ids are strictly increasing —
/// unique within the catalog.
pub proof fn lemma_installed_catalog_sound(pre: Coordinator, post: Coordinator, entries: Seq<FileEntry>)
    requires
        ingest_post(pre, post, entries),
        pre.next_track_id + entries.len() <= u32::MAX,
    ensures
        forall|k: int|
            0 <= k < post.playlist@.len() ==> crate::catalog::has_audio_ext(
                (#[trigger] post.playlist@[k]).filename@,
            ),
        forall|k1: int, k2: int|
            0 <= k1 < k2 < post.playlist@.len() ==> post.playlist@[k1].id
                < post.playlist@[k2].id,
{
    crate::catalog::lemma_scan_catalog_sound(entries, pre.next_track_id);
}

/// A rescan issues only fresh ids: every track of the new catalog carries
/// an id at or above where the counter stood, so none collides with any
/// id the coordinator issued before — in the catalog being replaced, or
/// in any earlier one, since every issued id stays below the counter.
/// Chained over the run, no id is ever repeated within one process.
pub proof fn lemma_rescan_never_reuses_ids(pre: Coordinator, post: Coordinator, entries: Seq<FileEntry>)
    requires
        pre.wf(),
        ingest_post(pre, post, entries),
        pre.next_track_id + entries.len() <= u32::MAX,
    ensures
        forall|j: int|
            0 <= j < post.playlist@.len() ==> (#[trigger] post.playlist@[j]).id
                >= pre.next_track_id,
        forall|i: int, j: int|
            0 <= i < pre.playlist@.len() && 0 <= j < post.playlist@.len()
                ==> (#[trigger] pre.playlist@[i]).id != (#[trigger] post.playlist@[j]).id,
{
    lemma_scan_track_ids(entries, pre.next_track_id);
    lemma_scan_tracks_len(entries, pre.next_track_id);
}

/// A successful `play` emits exactly two events, `trackChanged` first and
/// `stateChanged{Playing}` second, before it returns.
pub proof fn lemma_play_emits_in_order(
    pre: Coordinator,
    post: Coordinator,
    track_id: u32,
    r: Result<PlayAction, PlayerError>,
)
    requires
        play_post(pre, post, track_id, r),
        r is Ok,
    ensures
        post.events@.len() == pre.events@.len() + 2,
        post.events@[post.events@.len() - 2] == (PlayerEvent::TrackChanged {
            index: r->Ok_0.index,
            track_id,
        }),
        post.events@[post.events@.len() - 1] == (PlayerEvent::StateChanged {
            status: PlaybackStatus::Playing,
        }),
{
}

/// With no session, `pause` answers `NoActivePlayback` and the status —
/// indeed the whole state — stands as it was.
pub proof fn lemma_pause_without_session(
    pre: Coordinator,
    post: Coordinator,
    r: Result<(), PlayerError>,
)
    requires
        pre.session is None,
        pause_post(pre, post, r),
    ensures
        r == Err::<(), PlayerError>(PlayerError::NoActivePlayback),
        post.status == pre.status,
        post.current_track_index == pre.current_track_index,
{
}

/// `pause` followed by `resume` restores `Playing`, and neither touches
/// the selected track index.
pub proof fn lemma_pause_then_resume(s0: Coordinator, s1: Coordinator, s2: Coordinator)
    requires
        pause_post(s0, s1, Ok(())),
        resume_post(s1, s2, Ok(())),
    ensures
        s2.status == PlaybackStatus::Playing,
        s2.current_track_index == s0.current_track_index,
{
}

/// After a successful `play`, a rescan returns the status to Stopped and
/// clears the track index — whether or not audio is still sounding.
pub proof fn lemma_play_then_rescan(
    s0: Coordinator,
    s1: Coordinator,
    s2: Coordinator,
    track_id: u32,
    r: Result<PlayAction, PlayerError>,
    entries: Seq<FileEntry>,
)
    requires
        play_post(s0, s1, track_id, r),
        r is Ok,
        ingest_post(s1, s2, entries),
    ensures
        s2.status == PlaybackStatus::Stopped,
        s2.current_track_index is None,
{
}

/// While the bound session is paused, a monitor tick never reports.
pub proof fn lemma_monitor_silent_while_paused(c: Coordinator, bound_generation: u64)
    requires
        c.session is Some,
        c.session->Some_0.paused,
    ensures
        monitor_step(c, bound_generation) != MonitorStep::Report,
{
}

/// The first tick after a successful `resume` reports again, as long as
/// the session has not drained and is still the one the monitor watches.
pub proof fn lemma_monitor_reports_after_resume(s0: Coordinator, s1: Coordinator, bound_generation: u64)
    requires
        resume_post(s0, s1, Ok(())),
        s1.session_generation == bound_generation,
        !s0.session->Some_0.drained,
    ensures
        monitor_step(s1, bound_generation) == MonitorStep::Report,
{
}

/// A monitor left over from before a successful `play` is stale: bound to
/// the old generation, its next tick stops, so no progress for the old
/// session is emitted once the replacement is visible.
pub proof fn lemma_stale_monitor_stops(
    s0: Coordinator,
    s1: Coordinator,
    track_id: u32,
    r: Result<PlayAction, PlayerError>,
)
    requires
        play_post(s0, s1, track_id, r),
        r is Ok,
        s0.session_generation < u64::MAX,
    ensures
        monitor_step(s1, s0.session_generation) == MonitorStep::Stop,
{
}

} // verus!
