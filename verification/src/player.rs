//! The transport: what is loaded, whether it plays, and how far it has
//! played.
//!
//! The elapsed time is kept without asking the audio device. The player
//! adds up the finished segments of playback and remembers when the running
//! segment began; the caller hands in the reading of a monotonic clock, in
//! milliseconds, with every call that needs one.

use crate::load_album_and_track_lists::Track;
use vstd::prelude::*;

verus! {

/// The loudest gain that can be set, in percent of unity gain.
pub const MAX_VOLUME: u16 = 200;

/// The gain of a new player, in percent of unity gain.
pub const DEFAULT_VOLUME: u16 = 75;

/// Whether anything is loaded, and whether it is playing.
#[derive(Debug, Clone, Copy, PartialEq, Eq, Structural)]
pub enum PlaybackState {
    Empty,
    Playing,
    Paused,
}

/// Why the audio session could not start a file.
#[derive(Debug, Clone, Copy, PartialEq, Eq, Structural)]
pub enum DecodeError {
    /// There is no file at the track's path.
    FileNotFound,
    /// The file is in no format that the decoder reads.
    UnsupportedFormat,
}

/// Why a track was not loaded.
#[derive(Debug, Clone, Copy, PartialEq, Eq, Structural)]
pub enum PlaybackError {
    /// No output device was found at startup; playback stays switched off.
    DeviceUnavailable,
    /// The audio session rejected the file.
    Decode(DecodeError),
}

/// What the caller has to do to the audio session after a transport
/// command.
#[derive(Debug, Clone, Copy, PartialEq, Eq, Structural)]
pub enum SessionCommand {
    Nothing,
    Resume,
    Pause,
}

/// The transport state.
pub struct Player {
    available: bool,
    state: PlaybackState,
    current_track: Option<Track>,
    current_pos: u64,
    last_start_time: Option<u64>,
    volume: u16,
}

/// What a player is, mathematically. Times are in milliseconds.
pub struct PlayerView {
    /// Whether there is an output device to play on.
    pub available: bool,
    pub state: PlaybackState,
    /// The loaded track.
    pub track: Option<Track>,
    /// The length of the finished segments of playback, added up.
    pub accumulated: nat,
    /// The clock reading at which the running segment began.
    pub segment_start: Option<nat>,
    /// The gain in percent.
    pub volume: nat,
}

/// The gain that a request for `percent` sets: `percent` itself where it
/// lies between silence and the maximum, else the nearer of the two.
pub open spec fn clamp_volume(percent: int) -> nat {
    if percent < 0 {
        0
    } else if percent > MAX_VOLUME as int {
        MAX_VOLUME as nat
    } else {
        percent as nat
    }
}

/// The sum of two spans of time, held at the largest span that the player
/// can store.
pub open spec fn bounded_sum(a: nat, b: nat) -> nat {
    if a + b > u64::MAX as nat {
        u64::MAX as nat
    } else {
        a + b
    }
}

impl PlayerView {
    /// The state is `Empty` exactly when no track is loaded, a segment runs
    /// exactly while `Playing`, nothing is ever loaded without a device, and
    /// the stored quantities are within their limits.
    pub open spec fn wf(self) -> bool {
        &&& self.state is Empty <==> self.track is None
        &&& self.state is Playing <==> self.segment_start is Some
        &&& !self.available ==> self.state is Empty
        &&& self.state is Empty ==> self.accumulated == 0
        &&& self.accumulated <= u64::MAX as nat
        &&& self.volume <= MAX_VOLUME as nat
    }

    /// How long the running segment has lasted at clock reading `now`.
    pub open spec fn segment_elapsed(self, now: nat) -> nat {
        match self.segment_start {
            Some(start) => if self.state is Playing && now >= start {
                (now - start) as nat
            } else {
                0
            },
            None => 0,
        }
    }

    /// The elapsed playing time at clock reading `now`: the finished
    /// segments, and the running one while playing.
    pub open spec fn position(self, now: nat) -> nat {
        bounded_sum(self.accumulated, self.segment_elapsed(now))
    }

    /// A new player: nothing loaded, the default gain.
    pub open spec fn initial(available: bool) -> PlayerView {
        PlayerView {
            available,
            state: PlaybackState::Empty,
            track: None,
            accumulated: 0,
            segment_start: None,
            volume: DEFAULT_VOLUME as nat,
        }
    }

    /// The player after the session started `track` at clock reading `now`.
    pub open spec fn loaded(self, track: Track, now: nat) -> PlayerView {
        PlayerView {
            state: PlaybackState::Playing,
            track: Some(track),
            accumulated: 0,
            segment_start: Some(now),
            ..self
        }
    }

    /// The player after the session failed to start a track.
    pub open spec fn unloaded(self) -> PlayerView {
        PlayerView {
            state: PlaybackState::Empty,
            track: None,
            accumulated: 0,
            segment_start: None,
            ..self
        }
    }

    /// The player after play/pause was pressed at clock reading `now`.
    pub open spec fn toggled(self, now: nat) -> PlayerView {
        match self.state {
            PlaybackState::Empty => self,
            PlaybackState::Playing => PlayerView {
                state: PlaybackState::Paused,
                accumulated: self.position(now),
                segment_start: None,
                ..self
            },
            PlaybackState::Paused => PlayerView {
                state: PlaybackState::Playing,
                segment_start: Some(now),
                ..self
            },
        }
    }

    /// What the session is told when play/pause is pressed.
    pub open spec fn toggle_command(self) -> SessionCommand {
        match self.state {
            PlaybackState::Empty => SessionCommand::Nothing,
            PlaybackState::Playing => SessionCommand::Pause,
            PlaybackState::Paused => SessionCommand::Resume,
        }
    }

    /// The player after play/pause was pressed once at each of `times`, in
    /// their order.
    pub open spec fn toggled_at_each(self, times: Seq<nat>) -> PlayerView
        decreases times.len(),
    {
        if times.len() == 0 {
            self
        } else {
            self.toggled_at_each(times.drop_last()).toggled(times.last())
        }
    }
}

impl View for Player {
    type V = PlayerView;

    /// With nothing loaded, what the fields still hold of an earlier track
    /// does not count; nor does the start of a segment that is not running.
    closed spec fn view(&self) -> PlayerView {
        PlayerView {
            available: self.available,
            state: self.state,
            track: if self.state is Empty {
                None
            } else {
                self.current_track
            },
            accumulated: if self.state is Empty {
                0
            } else {
                self.current_pos as nat
            },
            segment_start: match self.last_start_time {
                Some(start) => if self.state is Playing {
                    Some(start as nat)
                } else {
                    None
                },
                None => None,
            },
            volume: self.volume as nat,
        }
    }
}

impl Player {
    /// What is loaded goes with the state, and nothing is ever loaded
    /// without a device, in every player there is.
    #[verifier::type_invariant]
    spec fn parts_agree(self) -> bool {
        &&& !(self.state is Empty) ==> self.current_track is Some
        &&& self.state is Playing ==> self.last_start_time is Some
        &&& !self.available ==> self.state is Empty
        &&& self.volume <= MAX_VOLUME
    }

    /// A player with nothing loaded. `device_available` tells whether an
    /// output device was opened; without one, playback stays switched off.
    pub fn new(device_available: bool) -> (p: Self)
        ensures
            p@ == PlayerView::initial(device_available),
            p@.wf(),
    {
        Player {
            available: device_available,
            state: PlaybackState::Empty,
            current_track: None,
            current_pos: 0,
            last_start_time: None,
            volume: DEFAULT_VOLUME,
        }
    }

    /// Records what became of handing `track` to the audio session at clock
    /// reading `now`. Where the session started it, the track is current and
    /// plays from zero. Where the session failed, nothing is loaded any more
    /// and the failure is passed on. Without a device nothing changes.
    pub fn load_track(
        &mut self,
        track: Track,
        outcome: Result<(), DecodeError>,
        now: u64,
    ) -> (r: Result<(), PlaybackError>)
        ensures
            final(self)@.wf(),
            !old(self)@.available ==> {
                &&& r == Err::<(), PlaybackError>(PlaybackError::DeviceUnavailable)
                &&& final(self)@ == old(self)@
            },
            old(self)@.available && outcome is Ok ==> {
                &&& r is Ok
                &&& final(self)@ == old(self)@.loaded(track, now as nat)
            },
            old(self)@.available && outcome is Err ==> {
                &&& r == Err::<(), PlaybackError>(PlaybackError::Decode(outcome->Err_0))
                &&& final(self)@ == old(self)@.unloaded()
            },
    {
        proof {
            use_type_invariant(&*self);
        }
        if !self.available {
            return Err(PlaybackError::DeviceUnavailable);
        }
        match outcome {
            Ok(()) => {
                self.current_track = Some(track);
                self.current_pos = 0;
                self.last_start_time = Some(now);
                self.state = PlaybackState::Playing;
                Ok(())
            },
            Err(e) => {
                self.state = PlaybackState::Empty;
                self.current_track = None;
                self.current_pos = 0;
                self.last_start_time = None;
                Err(PlaybackError::Decode(e))
            },
        }
    }

    /// Play/pause at clock reading `now`. A playing track is paused and the
    /// running segment is added to the elapsed time; a paused track resumes
    /// and a new segment begins at `now`. With nothing loaded nothing
    /// happens. The result tells what the audio session has to do.
    pub fn toggle_play(&mut self, now: u64) -> (command: SessionCommand)
        ensures
            final(self)@.wf(),
            final(self)@ == old(self)@.toggled(now as nat),
            command == old(self)@.toggle_command(),
    {
        proof {
            use_type_invariant(&*self);
        }
        match self.state {
            PlaybackState::Empty => SessionCommand::Nothing,
            PlaybackState::Playing => {
                self.current_pos = self.position(now);
                self.state = PlaybackState::Paused;
                self.last_start_time = None;
                SessionCommand::Pause
            },
            PlaybackState::Paused => {
                self.last_start_time = Some(now);
                self.state = PlaybackState::Playing;
                SessionCommand::Resume
            },
        }
    }

    /// The gain in percent of unity gain.
    pub fn get_volume(&self) -> (volume: u16)
        ensures
            volume == self@.volume,
            volume <= MAX_VOLUME,
    {
        proof {
            use_type_invariant(self);
        }
        self.volume
    }

    /// Sets the gain to `percent`, held between silence and the maximum,
    /// and returns the gain that the audio session is to apply.
    pub fn set_volume(&mut self, percent: i64) -> (applied: u16)
        ensures
            final(self)@.wf(),
            applied == clamp_volume(percent as int),
            final(self)@ == (PlayerView { volume: clamp_volume(percent as int), ..old(self)@ }),
    {
        proof {
            use_type_invariant(&*self);
        }
        let applied: u16 = if percent < 0 {
            0
        } else if percent > MAX_VOLUME as i64 {
            MAX_VOLUME
        } else {
            percent as u16
        };
        self.volume = applied;
        applied
    }

    /// A copy of the loaded track, if any.
    pub fn current_track(&self) -> (track: Option<Track>)
        ensures
            track == self@.track,
            track is None <==> self@.state is Empty,
    {
        proof {
            use_type_invariant(self);
        }
        match self.state {
            PlaybackState::Empty => None,
            _ => match &self.current_track {
                Some(t) => Some(t.clone()),
                None => None,
            },
        }
    }

    /// Whether anything is loaded, and whether it is playing.
    pub fn state(&self) -> (state: PlaybackState)
        ensures
            state == self@.state,
    {
        self.state
    }

    /// The elapsed playing time of the loaded track at clock reading `now`.
    pub fn position(&self, now: u64) -> (elapsed: u64)
        ensures
            elapsed == self@.position(now as nat),
    {
        proof {
            use_type_invariant(self);
        }
        match self.state {
            PlaybackState::Playing => match self.last_start_time {
                Some(start) => self.current_pos.saturating_add(now.saturating_sub(start)),
                None => self.current_pos,
            },
            PlaybackState::Paused => self.current_pos,
            PlaybackState::Empty => 0,
        }
    }
}

/// Pausing and resuming never moves the elapsed time backwards: read at a
/// later clock reading, or read after play/pause was pressed in between, the
/// position is at least what it was.
pub proof fn lemma_position_never_decreases(p: PlayerView, earlier: nat, later: nat)
    requires
        p.wf(),
        earlier <= later,
    ensures
        p.position(earlier) <= p.position(later),
        p.position(earlier) <= p.toggled(earlier).position(later),
        p.toggled(earlier).wf(),
        p.toggled(earlier).track == p.track,
{
}

/// However often play/pause is pressed, at clock readings `times` that do
/// not run backwards, the position read afterwards is at least the position
/// read before, and the same track is loaded.
pub proof fn lemma_position_monotone_over_toggles(
    p: PlayerView,
    before: nat,
    times: Seq<nat>,
    after: nat,
)
    requires
        p.wf(),
        before <= after,
        forall|i: int| 0 <= i < times.len() ==> before <= #[trigger] times[i] <= after,
        forall|i: int, j: int| 0 <= i <= j < times.len() ==> times[i] <= times[j],
    ensures
        p.toggled_at_each(times).wf(),
        p.toggled_at_each(times).track == p.track,
        p.position(before) <= p.toggled_at_each(times).position(after),
    decreases times.len(),
{
    if times.len() == 0 {
        lemma_position_never_decreases(p, before, after);
    } else {
        let init = times.drop_last();
        let last = times.last();
        lemma_position_monotone_over_toggles(p, before, init, last);
        lemma_position_never_decreases(p.toggled_at_each(init), last, after);
    }
}

/// A track that was loaded is the current track and stands at position
/// zero, whatever was loaded or playing before.
pub proof fn lemma_load_resets(p: PlayerView, track: Track, now: nat)
    requires
        p.wf(),
        p.available,
    ensures
        p.loaded(track, now).wf(),
        p.loaded(track, now).position(now) == 0,
        p.loaded(track, now).track == Some(track),
        p.loaded(track, now).state == PlaybackState::Playing,
        p.unloaded().wf(),
        p.unloaded().state == PlaybackState::Empty,
        p.unloaded().track is None,
{
}

/// Whatever gain is asked for, the gain that is set lies between silence
/// and the maximum, and a request within that range is met exactly.
pub proof fn lemma_volume_stays_in_range(percent: int)
    ensures
        clamp_volume(percent) <= MAX_VOLUME,
        0 <= percent <= MAX_VOLUME ==> clamp_volume(percent) == percent,
        percent < 0 ==> clamp_volume(percent) == 0,
        percent > MAX_VOLUME ==> clamp_volume(percent) == MAX_VOLUME,
{
}

} // verus!
