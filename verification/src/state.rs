//! Shared vocabulary of the playback controller: the playback status, the
//! error taxonomy, the events pushed to a front end, the session model and
//! the snapshot handed out on demand.

use vstd::prelude::*;

verus! {

/// Coordinator-visible playback status.
#[derive(Clone, Copy, Debug, PartialEq, Eq, Structural)]
pub enum PlaybackStatus {
    Playing,
    Paused,
    Stopped,
}

/// Every way a command can fail.
#[derive(Clone, Copy, Debug, PartialEq, Eq, Structural)]
pub enum PlayerError {
    /// The requested track id is absent from the current catalog.
    TrackNotFound,
    /// A transport operation needs a live session and none is present.
    NoActivePlayback,
    /// The output device could not be acquired.
    DeviceOpenFailure,
    /// The URL handed to `play_url` could not be parsed at all.
    InvalidUrl,
    /// The URL parsed, but its scheme is neither `http` nor `https`.
    UnsupportedScheme,
    /// A metadata read failed on an explicit single-file request.
    MetadataReadFailure,
    /// Shared state could not be locked; aborts the current operation only.
    LockUnavailable,
}

impl PlayerError {
    /// The wording a front end shows for this failure.
    pub fn message(&self) -> (r: String)
        ensures
            r@ == (match *self {
                PlayerError::TrackNotFound => "track not found"@,
                PlayerError::NoActivePlayback => "no active playback"@,
                PlayerError::DeviceOpenFailure => "failed to open audio device"@,
                PlayerError::InvalidUrl => "invalid URL"@,
                PlayerError::UnsupportedScheme => "only HTTP and HTTPS URLs are supported"@,
                PlayerError::MetadataReadFailure => "failed to read metadata"@,
                PlayerError::LockUnavailable => "failed to lock playback state"@,
            }),
    {
        match *self {
            PlayerError::TrackNotFound => "track not found".to_owned(),
            PlayerError::NoActivePlayback => "no active playback".to_owned(),
            PlayerError::DeviceOpenFailure => "failed to open audio device".to_owned(),
            PlayerError::InvalidUrl => "invalid URL".to_owned(),
            PlayerError::UnsupportedScheme => "only HTTP and HTTPS URLs are supported".to_owned(),
            PlayerError::MetadataReadFailure => "failed to read metadata".to_owned(),
            PlayerError::LockUnavailable => "failed to lock playback state".to_owned(),
        }
    }
}

/// An event pushed to whichever front end issued the command.
#[derive(Clone, Debug)]
pub enum PlayerEvent {
    /// The catalog was replaced wholesale by a rescan.
    PlaylistUpdated,
    /// A new track was installed; `index` points into the current catalog.
    TrackChanged { index: usize, track_id: u32 },
    /// The transport status changed.
    StateChanged { status: PlaybackStatus },
    /// The monitor sampled the playing position.
    Progress { position_secs: u64 },
    /// Background playback failed; the process carries on.
    PlaybackError { message: String },
}

/// The coordinator's model of the one live audio session: the mutable
/// transport state of the open device. The device handle itself lives with
/// the caller; these fields are what the commands read and write.
#[derive(Clone, Copy, Debug, PartialEq, Eq, Structural)]
pub struct Session {
    /// Paused flag; flipped by `pause` / `resume`.
    pub paused: bool,
    /// Volume in hundredths of full scale, nominally `0..=100`.
    pub volume_percent: u32,
    /// Last position handed to `seek`, in seconds.
    pub position_secs: u64,
    /// Terminal condition: decoding finished naturally, nothing remains.
    pub drained: bool,
}

/// The session installed the moment playback starts: running, at the
/// given volume, at the start of the source.
pub open spec fn fresh_session(volume_percent: u32) -> Session {
    Session { paused: false, volume_percent, position_secs: 0, drained: false }
}

impl Session {
    /// A fresh session: running, at the given volume, at the start.
    pub fn fresh(volume_percent: u32) -> (s: Session)
        ensures
            s == fresh_session(volume_percent),
    {
        Session { paused: false, volume_percent, position_secs: 0, drained: false }
    }

    /// Raise the paused flag; everything else stands.
    pub fn pause(&mut self)
        ensures
            *final(self) == (Session { paused: true, ..*old(self) }),
    {
        self.paused = true;
    }

    /// Clear the paused flag; everything else stands.
    pub fn resume(&mut self)
        ensures
            *final(self) == (Session { paused: false, ..*old(self) }),
    {
        self.paused = false;
    }

    pub fn is_paused(&self) -> (b: bool)
        ensures
            b == self.paused,
    {
        self.paused
    }

    /// Has decoding finished naturally, with nothing left to output?
    pub fn is_empty(&self) -> (b: bool)
        ensures
            b == self.drained,
    {
        self.drained
    }

    pub fn get_volume(&self) -> (v: u32)
        ensures
            v == self.volume_percent,
    {
        self.volume_percent
    }

    /// Builder form: the session at another volume.
    pub fn set_volume(self, volume_percent: u32) -> (s: Session)
        ensures
            s == (Session { volume_percent, ..self }),
    {
        Session { volume_percent, ..self }
    }

    pub fn set_volume_mut(&mut self, volume_percent: u32)
        ensures
            *final(self) == (Session { volume_percent, ..*old(self) }),
    {
        self.volume_percent = volume_percent;
    }

    /// Record the requested position. Whether the backend honours it or
    /// treats seeking as a well-defined no-op is the device's affair.
    pub fn seek(&mut self, position_secs: u64)
        ensures
            *final(self) == (Session { position_secs, ..*old(self) }),
    {
        self.position_secs = position_secs;
    }

    /// Last recorded position; a backend that cannot report positions
    /// leaves this at its stable placeholder rather than failing.
    pub fn get_pos(&self) -> (p: u64)
        ensures
            p == self.position_secs,
    {
        self.position_secs
    }
}

/// What the progress monitor should do on one tick.
#[derive(Clone, Copy, Debug, PartialEq, Eq, Structural)]
pub enum MonitorStep {
    /// The bound session is gone, replaced or drained: terminate, emit
    /// nothing further.
    Stop,
    /// The session is paused: emit nothing this tick, keep looping.
    Hold,
    /// The session is running: sample the position and emit progress.
    Report,
}

} // verus!
