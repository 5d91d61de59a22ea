//! The state of the user interface: the panels with their selections, the
//! queue, the player, and the commands that the keys are bound to.
//!
//! A command that makes a track current returns that track. The caller
//! hands it to the audio session and reports the outcome with
//! [`App::load_track`].

use crate::load_album_and_track_lists::{Album, Track};
use crate::player::{DecodeError, PlaybackError, Player};
use crate::queue::{Queue, QueueView};
use crate::sorting::{key_texts, sort_by_keys, sorted_by_keys};
use crate::text::{
    char_text, clock_text, contains_text, format_clock, lowercase, lowercase_of, occurs_in,
    repeated, slice_of,
};
use vstd::prelude::*;

verus! {

/// The order in which the album and track panels are listed.
#[derive(Debug, Clone, Copy, PartialEq, Eq, Structural)]
pub enum SortState {
    AZ,
    ZA,
}

/// The panel that has the focus.
#[derive(Debug, Clone, Copy, PartialEq, Eq, Structural)]
pub enum ActivePanel {
    Albums,
    Tracks,
    Queue,
}

/// Whether keys are commands or text for the find field.
#[derive(Debug, Clone, Copy, PartialEq, Eq, Structural)]
pub enum InputMode {
    Normal,
    Find,
}

/// A highlight colour. `Other` stands for every colour that is not one of
/// the eleven that the highlight cycles through.
#[derive(Debug, Clone, Copy, PartialEq, Eq, Structural)]
pub enum Color {
    Red,
    LightRed,
    Blue,
    LightBlue,
    Cyan,
    LightCyan,
    Magenta,
    LightMagenta,
    Yellow,
    Green,
    LightGreen,
    Other,
}

/// The colour that a stored code stands for; an unknown code stands for
/// blue.
pub open spec fn color_of_code(code: u8) -> Color {
    match code {
        0 => Color::Red,
        1 => Color::LightRed,
        2 => Color::Blue,
        3 => Color::LightBlue,
        4 => Color::Cyan,
        5 => Color::LightCyan,
        6 => Color::Magenta,
        7 => Color::LightMagenta,
        8 => Color::Yellow,
        9 => Color::Green,
        10 => Color::LightGreen,
        _ => Color::Blue,
    }
}

/// The code that a colour is stored under; a colour outside the cycle is
/// stored as blue.
pub open spec fn code_of_color(color: Color) -> u8 {
    match color {
        Color::Red => 0,
        Color::LightRed => 1,
        Color::Blue => 2,
        Color::LightBlue => 3,
        Color::Cyan => 4,
        Color::LightCyan => 5,
        Color::Magenta => 6,
        Color::LightMagenta => 7,
        Color::Yellow => 8,
        Color::Green => 9,
        Color::LightGreen => 10,
        Color::Other => 2,
    }
}

/// The colour that follows `color` in the highlight cycle; a colour outside
/// the cycle is followed by its first colour.
pub open spec fn next_color(color: Color) -> Color {
    match color {
        Color::Red => Color::LightRed,
        Color::LightRed => Color::Blue,
        Color::Blue => Color::LightBlue,
        Color::LightBlue => Color::Cyan,
        Color::Cyan => Color::LightCyan,
        Color::LightCyan => Color::Magenta,
        Color::Magenta => Color::LightMagenta,
        Color::LightMagenta => Color::Yellow,
        Color::Yellow => Color::Green,
        Color::Green => Color::LightGreen,
        Color::LightGreen => Color::Red,
        Color::Other => Color::Red,
    }
}

/// The display preference that outlives the process.
#[derive(Debug, Clone, Copy, PartialEq, Eq, Structural)]
pub struct AppConfig {
    highlight_color: u8,
}

impl AppConfig {
    /// The code that the preference is stored as.
    pub closed spec fn spec_code(&self) -> u8 {
        self.highlight_color
    }

    /// The preference with the stored code `code`.
    pub fn from_code(code: u8) -> (config: Self)
        ensures
            config.spec_code() == code,
    {
        AppConfig { highlight_color: code }
    }

    /// The code to store.
    pub fn code(&self) -> (code: u8)
        ensures
            code == self.spec_code(),
    {
        self.highlight_color
    }

    /// The highlight colour that the preference names.
    pub fn get_color(&self) -> (color: Color)
        ensures
            color == color_of_code(self.spec_code()),
    {
        match self.highlight_color {
            0 => Color::Red,
            1 => Color::LightRed,
            2 => Color::Blue,
            3 => Color::LightBlue,
            4 => Color::Cyan,
            5 => Color::LightCyan,
            6 => Color::Magenta,
            7 => Color::LightMagenta,
            8 => Color::Yellow,
            9 => Color::Green,
            10 => Color::LightGreen,
            _ => Color::Blue,
        }
    }

    /// Makes `color` the preferred highlight colour.
    pub fn set_color(&mut self, color: Color)
        ensures
            final(self).spec_code() == code_of_color(color),
    {
        self.highlight_color = match color {
            Color::Red => 0,
            Color::LightRed => 1,
            Color::Blue => 2,
            Color::LightBlue => 3,
            Color::Cyan => 4,
            Color::LightCyan => 5,
            Color::Magenta => 6,
            Color::LightMagenta => 7,
            Color::Yellow => 8,
            Color::Green => 9,
            Color::LightGreen => 10,
            Color::Other => 2,
        }
    }
}

impl Default for AppConfig {
    /// The preference of a first start: code zero.
    fn default() -> (config: Self)
        ensures
            config.spec_code() == 0,
    {
        AppConfig { highlight_color: 0 }
    }
}

/// A colour of the cycle that is stored and read back comes back
/// unchanged, and the cycle returns to each of its colours after eleven
/// steps and not before the first.
pub proof fn lemma_color_codes_round_trip(color: Color)
    requires
        color != Color::Other,
    ensures
        color_of_code(code_of_color(color)) == color,
        next_color(color) != color,
        next_color(color) != Color::Other,
        next_color(
            next_color(
                next_color(
                    next_color(
                        next_color(
                            next_color(
                                next_color(next_color(next_color(next_color(next_color(color))))),
                            ),
                        ),
                    ),
                ),
            ),
        ) == color,
{
}

/// The selection one row further down in a list of `len` rows: it stops at
/// the last row, and starts at the first where nothing was selected.
pub open spec fn step_down(selected: Option<usize>, len: nat) -> Option<usize> {
    match selected {
        Some(i) => if i + 1 < len {
            Some((i + 1) as usize)
        } else {
            Some(i)
        },
        None => Some(0usize),
    }
}

/// The selection one row further up: it stops at the first row, and starts
/// there where nothing was selected.
pub open spec fn step_up(selected: Option<usize>) -> Option<usize> {
    match selected {
        Some(i) => if i > 0 {
            Some((i - 1) as usize)
        } else {
            Some(i)
        },
        None => Some(0usize),
    }
}

/// The last row of a list of `len` rows; the first row of an empty list.
pub open spec fn last_row(len: nat) -> usize {
    if len == 0 {
        0usize
    } else {
        (len - 1) as usize
    }
}

/// The row that a queue cursor selects.
pub open spec fn row_of(cursor: Option<nat>) -> Option<usize> {
    match cursor {
        Some(i) => Some(i as usize),
        None => None,
    }
}

/// Whether two lists of albums hold the same albums in the same order.
pub open spec fn same_albums(a: Seq<Album>, b: Seq<Album>) -> bool {
    &&& a.len() == b.len()
    &&& forall|i: int|
        0 <= i < a.len() ==> {
            &&& (#[trigger] a[i]).artist == b[i].artist
            &&& a[i].name == b[i].name
            &&& a[i].tracks@ == b[i].tracks@
        }
}

/// Everything that the user interface remembers between two frames.
pub struct App {
    pub active_panel: ActivePanel,
    /// The albums and tracks that the panels list, after filtering.
    pub albums: Vec<Album>,
    pub tracks: Vec<Track>,
    /// The whole catalogue.
    pub all_albums: Vec<Album>,
    pub all_tracks: Vec<Track>,
    pub queue: Queue,
    /// The selected row of each panel.
    pub album_state: Option<usize>,
    pub track_state: Option<usize>,
    pub queue_state: Option<usize>,
    pub sort_state: SortState,
    pub player: Player,
    pub input: String,
    pub input_mode: InputMode,
    pub find_term: String,
    pub find_char_index: usize,
    pub highlight_color: Color,
}

impl App {
    /// Whether `self` equals `before` but for the queue and the selection
    /// in the queue panel.
    pub open spec fn differs_in_queue_only(&self, before: &App) -> bool {
        *self == (App { queue: self.queue, queue_state: self.queue_state, ..*before })
    }

    /// The state at startup: the catalogue listed in full, the first row of
    /// each panel selected, an empty queue, nothing loaded.
    pub fn new(
        albums: Vec<Album>,
        tracks: Vec<Track>,
        highlight_color: Color,
        device_available: bool,
    ) -> (app: Self)
        ensures
            app.active_panel == ActivePanel::Albums,
            app.albums == albums,
            app.tracks == tracks,
            same_albums(app.all_albums@, albums@),
            app.all_tracks@ == tracks@,
            app.queue@ == QueueView::cleared(),
            app.album_state == Some(0usize),
            app.track_state == Some(0usize),
            app.queue_state == Some(0usize),
            app.sort_state == SortState::AZ,
            app.player@ == crate::player::PlayerView::initial(device_available),
            app.input@.len() == 0,
            app.find_term@.len() == 0,
            app.input_mode == InputMode::Normal,
            app.find_char_index == 0,
            app.highlight_color == highlight_color,
    {
        let all_albums: Vec<Album> = albums.clone();
        let all_tracks: Vec<Track> = tracks.clone();
        assert(all_tracks@ =~= tracks@);
        App {
            active_panel: ActivePanel::Albums,
            albums,
            tracks,
            all_albums,
            all_tracks,
            queue: Queue::new(),
            album_state: Some(0),
            track_state: Some(0),
            queue_state: Some(0),
            sort_state: SortState::AZ,
            player: Player::new(device_available),
            input: String::new(),
            input_mode: InputMode::Normal,
            find_term: String::new(),
            find_char_index: 0,
            highlight_color,
        }
    }

    /// Moves the highlight to the next colour of the cycle.
    pub fn rotate_hl_color(&mut self)
        ensures
            *final(self) == (App {
                highlight_color: next_color(old(self).highlight_color),
                ..*old(self)
            }),
    {
        self.highlight_color = match self.highlight_color {
            Color::Red => Color::LightRed,
            Color::LightRed => Color::Blue,
            Color::Blue => Color::LightBlue,
            Color::LightBlue => Color::Cyan,
            Color::Cyan => Color::LightCyan,
            Color::LightCyan => Color::Magenta,
            Color::Magenta => Color::LightMagenta,
            Color::LightMagenta => Color::Yellow,
            Color::Yellow => Color::Green,
            Color::Green => Color::LightGreen,
            Color::LightGreen => Color::Red,
            Color::Other => Color::Red,
        };
    }

    /// Moves the focus one panel to the left; it stops at the albums.
    pub fn move_left(&mut self)
        ensures
            *final(self) == (App {
                active_panel: match old(self).active_panel {
                    ActivePanel::Albums => ActivePanel::Albums,
                    ActivePanel::Tracks => ActivePanel::Albums,
                    ActivePanel::Queue => ActivePanel::Tracks,
                },
                ..*old(self)
            }),
    {
        self.active_panel = match self.active_panel {
            ActivePanel::Albums => ActivePanel::Albums,
            ActivePanel::Tracks => ActivePanel::Albums,
            ActivePanel::Queue => ActivePanel::Tracks,
        }
    }

    /// Moves the focus one panel to the right; it stops at the queue.
    pub fn move_right(&mut self)
        ensures
            *final(self) == (App {
                active_panel: match old(self).active_panel {
                    ActivePanel::Albums => ActivePanel::Tracks,
                    ActivePanel::Tracks => ActivePanel::Queue,
                    ActivePanel::Queue => ActivePanel::Queue,
                },
                ..*old(self)
            }),
    {
        self.active_panel = match self.active_panel {
            ActivePanel::Albums => ActivePanel::Tracks,
            ActivePanel::Tracks => ActivePanel::Queue,
            ActivePanel::Queue => ActivePanel::Queue,
        }
    }

    /// Moves the selection of the focused panel one row down.
    pub fn move_down(&mut self)
        ensures
            *final(self) == match old(self).active_panel {
                ActivePanel::Albums => App {
                    album_state: step_down(old(self).album_state, old(self).albums@.len()),
                    ..*old(self)
                },
                ActivePanel::Tracks => App {
                    track_state: step_down(old(self).track_state, old(self).tracks@.len()),
                    ..*old(self)
                },
                ActivePanel::Queue => App {
                    queue_state: step_down(old(self).queue_state, old(self).queue@.tracks.len()),
                    ..*old(self)
                },
            },
    {
        match self.active_panel {
            ActivePanel::Albums => {
                self.album_state = row_below(self.album_state, self.albums.len());
            },
            ActivePanel::Tracks => {
                self.track_state = row_below(self.track_state, self.tracks.len());
            },
            ActivePanel::Queue => {
                self.queue_state = row_below(self.queue_state, self.queue.len());
            },
        }
    }

    /// Moves the selection of the focused panel one row up.
    pub fn move_up(&mut self)
        ensures
            *final(self) == match old(self).active_panel {
                ActivePanel::Albums => App {
                    album_state: step_up(old(self).album_state),
                    ..*old(self)
                },
                ActivePanel::Tracks => App {
                    track_state: step_up(old(self).track_state),
                    ..*old(self)
                },
                ActivePanel::Queue => App {
                    queue_state: step_up(old(self).queue_state),
                    ..*old(self)
                },
            },
    {
        match self.active_panel {
            ActivePanel::Albums => {
                self.album_state = row_above(self.album_state);
            },
            ActivePanel::Tracks => {
                self.track_state = row_above(self.track_state);
            },
            ActivePanel::Queue => {
                self.queue_state = row_above(self.queue_state);
            },
        }
    }
}

/// The selection one row further down in a list of `len` rows.
fn row_below(selected: Option<usize>, len: usize) -> (row: Option<usize>)
    ensures
        row == step_down(selected, len as nat),
{
    let last: usize = len.saturating_sub(1);
    match selected {
        Some(i) => if i < last {
            Some(i + 1)
        } else {
            Some(i)
        },
        None => Some(0),
    }
}

/// The selection one row further up.
fn row_above(selected: Option<usize>) -> (row: Option<usize>)
    ensures
        row == step_up(selected),
{
    match selected {
        Some(i) => Some(i.saturating_sub(1)),
        None => Some(0),
    }
}

impl App {
    /// The queue after the main action of the focused panel, before
    /// anything is started: the selected album or track is appended, or the
    /// selected queue entry is removed. A selection that names no row
    /// changes nothing.
    pub open spec fn queue_after_main_action(&self) -> QueueView {
        match self.active_panel {
            ActivePanel::Albums => match self.album_state {
                Some(i) => if i < self.albums@.len() {
                    self.queue@.append(self.albums@[i as int].tracks@)
                } else {
                    self.queue@
                },
                None => self.queue@,
            },
            ActivePanel::Tracks => match self.track_state {
                Some(i) => if i < self.tracks@.len() {
                    self.queue@.enqueue_back(self.tracks@[i as int])
                } else {
                    self.queue@
                },
                None => self.queue@,
            },
            ActivePanel::Queue => match self.queue_state {
                Some(i) => if i < self.queue@.tracks.len() {
                    self.queue@.remove(i as nat)
                } else {
                    self.queue@
                },
                None => self.queue@,
            },
        }
    }

    /// Whether the selection of the focused panel names a row.
    pub open spec fn selection_is_valid(&self) -> bool {
        match self.active_panel {
            ActivePanel::Albums => self.album_state matches Some(i) && i < self.albums@.len(),
            ActivePanel::Tracks => self.track_state matches Some(i) && i < self.tracks@.len(),
            ActivePanel::Queue => self.queue_state matches Some(i) && i < self.queue@.tracks.len(),
        }
    }

    /// Whether adding to the queue starts playback: only where nothing is
    /// loaded and the queue then holds a track.
    pub open spec fn starts_playback(&self, queue: QueueView) -> bool {
        self.player@.track is None && queue.tracks.len() > 0
    }

    /// The row selected in the queue panel after the main action.
    pub open spec fn queue_row_after_main_action(&self) -> Option<usize> {
        let queue = self.queue_after_main_action();
        if self.active_panel is Queue {
            if !self.selection_is_valid() {
                self.queue_state
            } else if queue.tracks.len() == 0 {
                None
            } else if self.queue_state->Some_0 >= queue.tracks.len() {
                Some(last_row(queue.tracks.len()))
            } else {
                self.queue_state
            }
        } else if self.starts_playback(queue) {
            Some(0usize)
        } else if self.selection_is_valid() {
            Some(last_row(queue.tracks.len()))
        } else {
            self.queue_state
        }
    }

    /// The main action of the focused panel. In the album and track panels
    /// it appends the selection to the queue and, where nothing is loaded,
    /// puts the cursor on the first entry and returns that track to be
    /// loaded. In the queue panel it removes the selected entry.
    pub fn main_action(&mut self) -> (to_load: Option<Track>)
        ensures
            final(self).differs_in_queue_only(old(self)),
            final(self).queue_state == old(self).queue_row_after_main_action(),
            old(self).active_panel is Queue ==> {
                &&& to_load is None
                &&& final(self).queue@ == old(self).queue_after_main_action()
            },
            !(old(self).active_panel is Queue) && old(self).starts_playback(
                old(self).queue_after_main_action(),
            ) ==> {
                &&& to_load == Some(old(self).queue_after_main_action().tracks[0])
                &&& final(self).queue@ == old(self).queue_after_main_action().start_at(0)
            },
            !(old(self).active_panel is Queue) && !old(self).starts_playback(
                old(self).queue_after_main_action(),
            ) ==> {
                &&& to_load is None
                &&& final(self).queue@ == old(self).queue_after_main_action()
            },
    {
        match self.active_panel {
            ActivePanel::Albums => {
                match self.album_state {
                    Some(i) => {
                        if i < self.albums.len() {
                            self.queue.enqueue_all_back(&self.albums[i].tracks);
                            self.queue_state = Some(self.queue.len().saturating_sub(1));
                        }
                    },
                    None => {},
                }
                self.start_if_idle()
            },
            ActivePanel::Tracks => {
                match self.track_state {
                    Some(i) => {
                        if i < self.tracks.len() {
                            self.queue.enqueue_back(self.tracks[i].clone());
                            self.queue_state = Some(self.queue.len().saturating_sub(1));
                        }
                    },
                    None => {},
                }
                self.start_if_idle()
            },
            ActivePanel::Queue => {
                match self.queue_state {
                    Some(i) => {
                        if self.queue.remove(i).is_ok() {
                            if self.queue.is_empty() {
                                self.queue_state = None;
                            } else if i >= self.queue.len() {
                                self.queue_state = Some(self.queue.len() - 1);
                            }
                        }
                    },
                    None => {},
                }
                None
            },
        }
    }

    /// Where nothing is loaded, puts the cursor on the first entry of the
    /// queue and returns that track to be loaded.
    fn start_if_idle(&mut self) -> (to_load: Option<Track>)
        ensures
            final(self).differs_in_queue_only(old(self)),
            old(self).starts_playback(old(self).queue@) ==> {
                &&& to_load == Some(old(self).queue@.tracks[0])
                &&& final(self).queue@ == old(self).queue@.start_at(0)
                &&& final(self).queue_state == Some(0usize)
            },
            !old(self).starts_playback(old(self).queue@) ==> {
                &&& to_load is None
                &&& final(self).queue@ == old(self).queue@
                &&& final(self).queue_state == old(self).queue_state
            },
    {
        if self.player.current_track().is_none() {
            self.start_play_at(0)
        } else {
            None
        }
    }

    /// The queue after the second action of the focused panel: the
    /// selected album or track is put before the first entry, or the
    /// selected queue entry is moved there. A selection that names no row
    /// changes nothing.
    pub open spec fn queue_after_aux_action(&self) -> QueueView {
        match self.active_panel {
            ActivePanel::Albums => match self.album_state {
                Some(i) => if i < self.albums@.len() {
                    self.queue@.prepend(self.albums@[i as int].tracks@)
                } else {
                    self.queue@
                },
                None => self.queue@,
            },
            ActivePanel::Tracks => match self.track_state {
                Some(i) => if i < self.tracks@.len() {
                    self.queue@.enqueue_front(self.tracks@[i as int])
                } else {
                    self.queue@
                },
                None => self.queue@,
            },
            ActivePanel::Queue => match self.queue_state {
                Some(i) => if i < self.queue@.tracks.len() {
                    self.queue@.remove(i as nat).enqueue_front(self.queue@.tracks[i as int])
                } else {
                    self.queue@
                },
                None => self.queue@,
            },
        }
    }

    /// The second action of the focused panel ("play next"): puts the
    /// selection at the head of the queue and selects the first row of the
    /// queue panel.
    pub fn aux_main_action(&mut self)
        ensures
            final(self).differs_in_queue_only(old(self)),
            final(self).queue@ == old(self).queue_after_aux_action(),
            final(self).queue_state == if old(self).selection_is_valid() {
                Some(0usize)
            } else {
                old(self).queue_state
            },
    {
        match self.active_panel {
            ActivePanel::Albums => {
                match self.album_state {
                    Some(i) => {
                        if i < self.albums.len() {
                            self.queue.enqueue_all_front(&self.albums[i].tracks);
                            self.queue_state = Some(0);
                        }
                    },
                    None => {},
                }
            },
            ActivePanel::Tracks => {
                match self.track_state {
                    Some(i) => {
                        if i < self.tracks.len() {
                            self.queue.enqueue_front(self.tracks[i].clone());
                            self.queue_state = Some(0);
                        }
                    },
                    None => {},
                }
            },
            ActivePanel::Queue => {
                match self.queue_state {
                    Some(i) => {
                        match self.queue.track_at(i) {
                            Some(track) => {
                                let _ = self.queue.remove(i);
                                self.queue.enqueue_front(track);
                                self.queue_state = Some(0);
                            },
                            None => {},
                        }
                    },
                    None => {},
                }
            },
        }
    }

    /// Appends every listed track to the queue, selects the last row of the
    /// queue panel and, where nothing is loaded, puts the cursor on the
    /// first entry and returns that track to be loaded.
    pub fn add_all_tracks_to_queue(&mut self) -> (to_load: Option<Track>)
        ensures
            final(self).differs_in_queue_only(old(self)),
            old(self).starts_playback(old(self).queue@.append(old(self).tracks@)) ==> {
                &&& to_load == Some(old(self).queue@.append(old(self).tracks@).tracks[0])
                &&& final(self).queue@ == old(self).queue@.append(old(self).tracks@).start_at(0)
                &&& final(self).queue_state == Some(0usize)
            },
            !old(self).starts_playback(old(self).queue@.append(old(self).tracks@)) ==> {
                &&& to_load is None
                &&& final(self).queue@ == old(self).queue@.append(old(self).tracks@)
                &&& final(self).queue_state == Some(
                    last_row(old(self).queue@.tracks.len() + old(self).tracks@.len()),
                )
            },
    {
        self.queue.enqueue_all_back(&self.tracks);
        self.queue_state = Some(self.queue.len().saturating_sub(1));
        self.start_if_idle()
    }

    /// Empties the queue and drops the selection in the queue panel.
    pub fn clear_queue(&mut self)
        ensures
            final(self).differs_in_queue_only(old(self)),
            final(self).queue@ == QueueView::cleared(),
            final(self).queue_state is None,
    {
        self.queue.clear();
        self.queue_state = None;
    }

    /// Reorders the queue at random. A queue that holds anything then has
    /// its cursor and the selection on the first row.
    pub fn shuffle_queue(&mut self)
        ensures
            final(self).differs_in_queue_only(old(self)),
            final(self).queue@.shuffled_from(old(self).queue@),
            final(self).queue_state == row_of(final(self).queue@.current),
    {
        self.queue.shuffle();
        self.queue_state = self.queue.current_index();
    }

    /// Puts the cursor and the selection on the queue entry `index` and
    /// returns that track to be loaded; an index behind the last entry
    /// changes nothing.
    pub fn start_play_at(&mut self, index: usize) -> (to_load: Option<Track>)
        ensures
            final(self).differs_in_queue_only(old(self)),
            final(self).queue@ == old(self).queue@.start_at(index as nat),
            index < old(self).queue@.tracks.len() ==> {
                &&& to_load == Some(old(self).queue@.tracks[index as int])
                &&& final(self).queue_state == Some(index)
            },
            index >= old(self).queue@.tracks.len() ==> {
                &&& to_load is None
                &&& final(self).queue_state == old(self).queue_state
            },
    {
        let started: Option<Track> = self.queue.start_at(index);
        if started.is_some() {
            self.queue_state = Some(index);
        }
        started
    }

    /// The step taken once per frame. Where the audio session reports that
    /// its stream has drained, the cursor moves to the next queue entry and
    /// that track is returned to be loaded; behind the last entry the
    /// cursor and the selection are cleared and the player is left as it
    /// is. While the stream runs nothing changes.
    pub fn load_next_track_if_current_ends(&mut self, stream_finished: bool) -> (to_load:
        Option<Track>)
        ensures
            !stream_finished ==> *final(self) == *old(self) && to_load is None,
            stream_finished ==> {
                &&& final(self).differs_in_queue_only(old(self))
                &&& final(self).queue@ == old(self).queue@.advance()
                &&& to_load == final(self).queue@.current_track()
                &&& final(self).queue_state == row_of(final(self).queue@.current)
            },
    {
        if stream_finished {
            self.next_track()
        } else {
            None
        }
    }

    /// The user's "next track": the cursor moves to the next queue entry
    /// and that track is returned to be loaded; behind the last entry the
    /// cursor and the selection are cleared.
    pub fn next_track(&mut self) -> (to_load: Option<Track>)
        ensures
            final(self).differs_in_queue_only(old(self)),
            final(self).queue@ == old(self).queue@.advance(),
            to_load == final(self).queue@.current_track(),
            final(self).queue_state == row_of(final(self).queue@.current),
    {
        let next: Option<Track> = self.queue.skip_forward();
        self.queue_state = self.queue.current_index();
        next
    }

    /// The user's "previous track": the cursor moves back by one entry and
    /// that track is returned to be loaded. At the first entry, and without
    /// a cursor, the first track is returned, to be started afresh. With an
    /// empty queue nothing changes.
    pub fn prev_track(&mut self) -> (to_load: Option<Track>)
        ensures
            final(self).differs_in_queue_only(old(self)),
            final(self).queue@ == old(self).queue@.skip_backward(),
            to_load == final(self).queue@.current_track(),
            old(self).queue@.tracks.len() == 0 ==> *final(self) == *old(self),
            old(self).queue@.tracks.len() > 0 ==> final(self).queue_state == row_of(
                final(self).queue@.current,
            ),
    {
        if self.queue.is_empty() {
            return None;
        }
        let previous: Option<Track> = self.queue.skip_backward();
        self.queue_state = self.queue.current_index();
        previous
    }

    /// Records what became of handing `track` to the audio session at clock
    /// reading `now`. A track that started is current in the player and
    /// plays from zero. After a failure nothing is loaded: the player is
    /// empty, the queue keeps its entries and loses its cursor, and the
    /// failure is passed on.
    pub fn load_track(
        &mut self,
        track: Track,
        outcome: Result<(), DecodeError>,
        now: u64,
    ) -> (r: Result<(), PlaybackError>)
        ensures
            *final(self) == (App {
                queue: final(self).queue,
                player: final(self).player,
                ..*old(self)
            }),
            r is Ok <==> old(self).player@.available && outcome is Ok,
            r is Ok ==> {
                &&& final(self).player@ == old(self).player@.loaded(track, now as nat)
                &&& final(self).queue@ == old(self).queue@
            },
            r is Err ==> {
                &&& final(self).queue@ == (QueueView { current: None, ..old(self).queue@ })
                &&& r->Err_0 == if old(self).player@.available {
                    PlaybackError::Decode(outcome->Err_0)
                } else {
                    PlaybackError::DeviceUnavailable
                }
                &&& final(self).player@ == if old(self).player@.available {
                    old(self).player@.unloaded()
                } else {
                    old(self).player@
                }
            },
    {
        let r: Result<(), PlaybackError> = self.player.load_track(track, outcome, now);
        if r.is_err() {
            self.queue.clear_current();
        }
        r
    }
}

/// The cursor position `position`, held inside a text of `len` characters.
pub open spec fn clamp_to(position: nat, len: nat) -> nat {
    if position > len {
        len
    } else {
        position
    }
}

/// `text` with `c` put in before the character at `position`, and behind
/// the last where `position` lies behind the text.
pub open spec fn with_char(text: Seq<char>, position: nat, c: char) -> Seq<char> {
    text.insert(clamp_to(position, text.len()) as int, c)
}

/// `text` without the character before `position`; nothing is missing
/// where no character stands there.
pub open spec fn without_char_before(text: Seq<char>, position: nat) -> Seq<char> {
    if 0 < position <= text.len() {
        text.remove(position - 1)
    } else {
        text
    }
}

/// Whether an album or a track with the title `title` by `artist` is shown
/// while `term` is searched for: where one of the two holds the term,
/// upper and lower case taken as the same.
pub open spec fn matches_term(title: Seq<char>, artist: Seq<char>, term: Seq<char>) -> bool {
    ||| occurs_in(lowercase_of(term), lowercase_of(title))
    ||| occurs_in(lowercase_of(term), lowercase_of(artist))
}

/// Whether `term` occurs in `title` or in `artist`, all three taken as they
/// are.
pub fn holds_term(title: &str, artist: &str, term: &str) -> (found: bool)
    ensures
        found == (occurs_in(term@, title@) || occurs_in(term@, artist@)),
{
    contains_text(title, term) || contains_text(artist, term)
}

/// The tracks among `all` that are listed while `term` is searched for:
/// all of them for the empty term.
pub open spec fn found_tracks(all: Seq<Track>, term: Seq<char>) -> Seq<Track> {
    if term.len() == 0 {
        all
    } else {
        all.filter(|t: Track| matches_term(t.track_name@, t.artist@, term))
    }
}

/// The albums among `all` that are listed while `term` is searched for:
/// all of them for the empty term.
pub open spec fn found_albums(all: Seq<Album>, term: Seq<char>) -> Seq<Album> {
    if term.len() == 0 {
        all
    } else {
        all.filter(|a: Album| matches_term(a.name@, a.artist@, term))
    }
}

/// How many cells of a bar of `width` cells are filled when `elapsed` of
/// `total` seconds have played: the elapsed share of the width, rounded
/// down, and never more than the width. A track without a length fills
/// nothing.
pub open spec fn timeline_progress(elapsed: nat, total: nat, width: nat) -> nat {
    if total == 0 {
        0
    } else if elapsed * width / total > width {
        width
    } else {
        elapsed * width / total
    }
}

/// A bar of `filled` full cells followed by `rest` light cells.
pub open spec fn bar_of(filled: nat, rest: nat) -> Seq<char> {
    Seq::new(filled, |i: int| '\u{2588}') + Seq::new(rest, |i: int| '\u{2591}')
}

impl App {
    /// The cursor position `new_cursor_pos`, held inside the find field's
    /// text.
    fn clamp_cursor(&self, new_cursor_pos: usize) -> (position: usize)
        ensures
            position == clamp_to(new_cursor_pos as nat, self.input@.len()),
    {
        let len: usize = self.input.as_str().unicode_len();
        if new_cursor_pos > len {
            len
        } else {
            new_cursor_pos
        }
    }

    /// Puts the cursor of the find field before its first character.
    fn reset_cursor(&mut self)
        ensures
            *final(self) == (App { find_char_index: 0, ..*old(self) }),
    {
        self.find_char_index = 0;
    }

    /// Moves the cursor of the find field one character to the left.
    pub fn move_cursor_left(&mut self)
        ensures
            *final(self) == (App {
                find_char_index: clamp_to(
                    if old(self).find_char_index == 0 {
                        0nat
                    } else {
                        (old(self).find_char_index - 1) as nat
                    },
                    old(self).input@.len(),
                ) as usize,
                ..*old(self)
            }),
    {
        let cursor_moved_left: usize = self.find_char_index.saturating_sub(1);
        self.find_char_index = self.clamp_cursor(cursor_moved_left);
    }

    /// Moves the cursor of the find field one character to the right; it
    /// stops behind the last character.
    pub fn move_cursor_right(&mut self)
        ensures
            *final(self) == (App {
                find_char_index: clamp_to(
                    if old(self).find_char_index == usize::MAX {
                        usize::MAX as nat
                    } else {
                        (old(self).find_char_index + 1) as nat
                    },
                    old(self).input@.len(),
                ) as usize,
                ..*old(self)
            }),
    {
        let cursor_moved_right: usize = self.find_char_index.saturating_add(1);
        self.find_char_index = self.clamp_cursor(cursor_moved_right);
    }

    /// Types `new_char` into the find field at the cursor, and moves the
    /// cursor behind it.
    pub fn enter_char(&mut self, new_char: char)
        ensures
            final(self).input@ == with_char(
                old(self).input@,
                old(self).find_char_index as nat,
                new_char,
            ),
            final(self).find_char_index == clamp_to(
                if old(self).find_char_index == usize::MAX {
                    usize::MAX as nat
                } else {
                    (old(self).find_char_index + 1) as nat
                },
                final(self).input@.len(),
            ),
            *final(self) == (App {
                input: final(self).input,
                find_char_index: final(self).find_char_index,
                ..*old(self)
            }),
    {
        let len: usize = self.input.as_str().unicode_len();
        let at: usize = self.clamp_cursor(self.find_char_index);
        let mut text: String = slice_of(&self.input, 0, at);
        let typed: String = char_text(new_char);
        text.append(typed.as_str());
        let tail: String = slice_of(&self.input, at, len);
        text.append(tail.as_str());
        assert(text@ =~= with_char(self.input@, self.find_char_index as nat, new_char));
        self.input = text;
        self.move_cursor_right();
    }

    /// Deletes the character before the cursor of the find field, and moves
    /// the cursor one character to the left. At the start of the field
    /// nothing happens.
    pub fn delete_char(&mut self)
        ensures
            final(self).input@ == without_char_before(
                old(self).input@,
                old(self).find_char_index as nat,
            ),
            final(self).find_char_index == clamp_to(
                if old(self).find_char_index == 0 {
                    0nat
                } else {
                    (old(self).find_char_index - 1) as nat
                },
                final(self).input@.len(),
            ),
            old(self).find_char_index == 0 ==> *final(self) == *old(self),
            *final(self) == (App {
                input: final(self).input,
                find_char_index: final(self).find_char_index,
                ..*old(self)
            }),
    {
        let is_not_cursor_leftmost: bool = self.find_char_index != 0;
        if is_not_cursor_leftmost {
            let len: usize = self.input.as_str().unicode_len();
            if self.find_char_index <= len {
                let mut text: String = slice_of(&self.input, 0, self.find_char_index - 1);
                let tail: String = slice_of(&self.input, self.find_char_index, len);
                text.append(tail.as_str());
                assert(text@ =~= without_char_before(
                    self.input@,
                    self.find_char_index as nat,
                ));
                self.input = text;
            }
            self.move_cursor_left();
        }
    }

    /// Takes the text of the find field as the search term, and goes back
    /// to command mode with the cursor at the start of the field.
    pub fn submit_find(&mut self)
        ensures
            final(self).find_term == old(self).input,
            *final(self) == (App {
                find_term: final(self).find_term,
                input_mode: InputMode::Normal,
                find_char_index: 0,
                ..*old(self)
            }),
    {
        self.find_term = self.input.clone();
        self.input_mode = InputMode::Normal;
        self.reset_cursor();
    }

    /// Lists the albums whose title or artist holds the search term, and
    /// selects the first row of the album panel.
    pub fn find_albums(&mut self)
        ensures
            same_albums(
                final(self).albums@,
                found_albums(old(self).all_albums@, old(self).find_term@),
            ),
            final(self).album_state == Some(0usize),
            *final(self) == (App {
                albums: final(self).albums,
                album_state: final(self).album_state,
                ..*old(self)
            }),
    {
        if self.find_term.as_str().unicode_len() == 0 {
            self.albums = copy_of_albums(&self.all_albums);
        } else {
            let term: String = lowercase(self.find_term.as_str());
            let ghost wanted = |a: Album| matches_term(a.name@, a.artist@, self.find_term@);
            let mut found: Vec<Album> = Vec::new();
            let mut done: usize = 0;
            while done < self.all_albums.len()
                invariant
                    done <= self.all_albums.len(),
                    term@ == lowercase_of(self.find_term@),
                    wanted == |a: Album| matches_term(a.name@, a.artist@, self.find_term@),
                    same_albums(found@, self.all_albums@.subrange(0, done as int).filter(wanted)),
                decreases self.all_albums.len() - done,
            {
                let ghost seen = self.all_albums@.subrange(0, done as int);
                let ghost next = self.all_albums@.subrange(0, done as int + 1);
                let album: &Album = &self.all_albums[done];
                proof {
                    assert(next.drop_last() =~= seen);
                    assert(next.last() == *album);
                    reveal_with_fuel(Seq::filter, 2);
                }
                let title: String = lowercase(album.name.as_str());
                let artist: String = lowercase(album.artist.as_str());
                if holds_term(title.as_str(), artist.as_str(), term.as_str()) {
                    found.push(album.clone());
                    assert(next.filter(wanted) == seen.filter(wanted).push(*album));
                } else {
                    assert(next.filter(wanted) == seen.filter(wanted));
                }
                done += 1;
            }
            assert(self.all_albums@.subrange(0, done as int) =~= self.all_albums@);
            self.albums = found;
        }
        self.album_state = Some(0);
    }

    /// Lists the tracks whose title or artist holds the search term, and
    /// selects the first row of the track panel.
    pub fn find_tracks(&mut self)
        ensures
            final(self).tracks@ == found_tracks(old(self).all_tracks@, old(self).find_term@),
            final(self).track_state == Some(0usize),
            *final(self) == (App {
                tracks: final(self).tracks,
                track_state: final(self).track_state,
                ..*old(self)
            }),
    {
        if self.find_term.as_str().unicode_len() == 0 {
            let all: Vec<Track> = self.all_tracks.clone();
            assert(all@ =~= self.all_tracks@);
            self.tracks = all;
        } else {
            let term: String = lowercase(self.find_term.as_str());
            let ghost wanted = |t: Track| matches_term(t.track_name@, t.artist@, self.find_term@);
            let mut found: Vec<Track> = Vec::new();
            let mut done: usize = 0;
            while done < self.all_tracks.len()
                invariant
                    done <= self.all_tracks.len(),
                    term@ == lowercase_of(self.find_term@),
                    wanted == |t: Track| matches_term(t.track_name@, t.artist@, self.find_term@),
                    found@ == self.all_tracks@.subrange(0, done as int).filter(wanted),
                decreases self.all_tracks.len() - done,
            {
                let ghost seen = self.all_tracks@.subrange(0, done as int);
                let ghost next = self.all_tracks@.subrange(0, done as int + 1);
                let track: &Track = &self.all_tracks[done];
                proof {
                    assert(next.drop_last() =~= seen);
                    assert(next.last() == *track);
                    reveal_with_fuel(Seq::filter, 2);
                }
                let title: String = lowercase(track.track_name.as_str());
                let artist: String = lowercase(track.artist.as_str());
                if holds_term(title.as_str(), artist.as_str(), term.as_str()) {
                    found.push(track.clone());
                    assert(next.filter(wanted) == seen.filter(wanted).push(*track));
                } else {
                    assert(next.filter(wanted) == seen.filter(wanted));
                }
                done += 1;
            }
            assert(self.all_tracks@.subrange(0, done as int) =~= self.all_tracks@);
            self.tracks = found;
        }
        self.track_state = Some(0);
    }

    /// Empties the find field and the search term, lists the whole
    /// catalogue again and selects the first row of both panels.
    pub fn clear_find(&mut self)
        ensures
            final(self).input@.len() == 0,
            final(self).find_term@.len() == 0,
            same_albums(final(self).albums@, old(self).all_albums@),
            final(self).tracks@ == old(self).all_tracks@,
            final(self).album_state == Some(0usize),
            final(self).track_state == Some(0usize),
            *final(self) == (App {
                input: final(self).input,
                find_term: final(self).find_term,
                albums: final(self).albums,
                tracks: final(self).tracks,
                album_state: final(self).album_state,
                track_state: final(self).track_state,
                ..*old(self)
            }),
    {
        self.input = String::new();
        self.find_term = String::new();
        self.albums = copy_of_albums(&self.all_albums);
        let all: Vec<Track> = self.all_tracks.clone();
        assert(all@ =~= self.all_tracks@);
        self.tracks = all;
        self.album_state = Some(0);
        self.track_state = Some(0);
    }

    /// The progress bar, `width` cells wide, of the loaded track at clock
    /// reading `now`: full cells for the share that has played, light cells
    /// for the rest. With nothing loaded the bar is empty text.
    pub fn update_player_timeline(&self, width: u16, now: u64) -> (bar: String)
        ensures
            match self.player@.track {
                Some(track) => {
                    let filled = timeline_progress(
                        self.player@.position(now as nat) / 1000,
                        track.length as nat,
                        width as nat,
                    );
                    bar@ == bar_of(filled, (width - filled) as nat)
                },
                None => bar@.len() == 0,
            },
    {
        match self.player.current_track() {
            Some(track) => {
                let elapsed: u64 = self.player.position(now) / 1000;
                let filled: u16 = progress_cells(elapsed, track.length, width);
                let mut bar: String = repeated('\u{2588}', filled as usize);
                let rest: String = repeated('\u{2591}', (width - filled) as usize);
                bar.append(rest.as_str());
                bar
            },
            None => String::new(),
        }
    }

    /// Elapsed and total time of the loaded track at clock reading `now`,
    /// as `mm:ss / mm:ss`; both zero with nothing loaded.
    pub fn current_track_time(&self, now: u64) -> (text: String)
        ensures
            match self.player@.track {
                Some(track) => {
                    let elapsed = self.player@.position(now as nat) / 1000;
                    text@ == clock_text(
                        elapsed / 60,
                        elapsed % 60,
                        track.length as nat / 60,
                        track.length as nat % 60,
                    )
                },
                None => text@ == clock_text(0, 0, 0, 0),
            },
    {
        match self.player.current_track() {
            Some(track) => {
                let elapsed: u64 = self.player.position(now) / 1000;
                format_clock(elapsed / 60, elapsed % 60, track.length / 60, track.length % 60)
            },
            None => format_clock(0, 0, 0, 0),
        }
    }
}

/// How many cells of a bar of `width` cells are filled when `elapsed` of
/// `total` seconds have played.
pub fn progress_cells(elapsed: u64, total: u64, width: u16) -> (filled: u16)
    ensures
        filled == timeline_progress(elapsed as nat, total as nat, width as nat),
        filled <= width,
{
    if total == 0 {
        return 0;
    }
    assert(elapsed * width <= 0xffff_ffff_ffff_ffff * 0xffff) by (nonlinear_arith)
        requires
            elapsed <= 0xffff_ffff_ffff_ffff,
            width <= 0xffff,
    ;
    let share: u128 = (elapsed as u128) * (width as u128) / (total as u128);
    if share > width as u128 {
        width
    } else {
        share as u16
    }
}

/// A copy of `albums`: the same albums in the same order.
fn copy_of_albums(albums: &Vec<Album>) -> (copy: Vec<Album>)
    ensures
        same_albums(copy@, albums@),
{
    albums.clone()
}

/// The keys that albums are sorted by: their artists in lower case.
pub open spec fn artist_keys(albums: Seq<Album>) -> Seq<Seq<char>> {
    Seq::new(albums.len(), |i: int| lowercase_of(albums[i].artist@))
}

/// The keys that tracks are sorted by: their titles in lower case.
pub open spec fn title_keys(tracks: Seq<Track>) -> Seq<Seq<char>> {
    Seq::new(tracks.len(), |i: int| lowercase_of(tracks[i].track_name@))
}

/// The artist of each album in lower case.
fn lowercase_artists(albums: &Vec<Album>) -> (keys: Vec<String>)
    ensures
        keys@.len() == albums@.len(),
        key_texts(keys@) == artist_keys(albums@),
{
    let mut keys: Vec<String> = Vec::new();
    let mut done: usize = 0;
    while done < albums.len()
        invariant
            done <= albums.len(),
            keys@.len() == done,
            forall|i: int|
                0 <= i < done ==> (#[trigger] keys@[i])@ == lowercase_of(albums@[i].artist@),
        decreases albums.len() - done,
    {
        keys.push(lowercase(albums[done].artist.as_str()));
        done += 1;
    }
    assert(key_texts(keys@) =~= artist_keys(albums@));
    keys
}

/// The title of each track in lower case.
fn lowercase_titles(tracks: &Vec<Track>) -> (keys: Vec<String>)
    ensures
        keys@.len() == tracks@.len(),
        key_texts(keys@) == title_keys(tracks@),
{
    let mut keys: Vec<String> = Vec::new();
    let mut done: usize = 0;
    while done < tracks.len()
        invariant
            done <= tracks.len(),
            keys@.len() == done,
            forall|i: int|
                0 <= i < done ==> (#[trigger] keys@[i])@ == lowercase_of(tracks@[i].track_name@),
        decreases tracks.len() - done,
    {
        keys.push(lowercase(tracks[done].track_name.as_str()));
        done += 1;
    }
    assert(key_texts(keys@) =~= title_keys(tracks@));
    keys
}

impl App {
    /// Turns the sort order round and sorts both lists anew.
    pub fn toggle_sort(&mut self)
        ensures
            final(self).sort_state == match old(self).sort_state {
                SortState::AZ => SortState::ZA,
                SortState::ZA => SortState::AZ,
            },
            final(self).albums@ == sorted_by_keys(
                old(self).albums@,
                artist_keys(old(self).albums@),
                final(self).sort_state,
            ),
            final(self).tracks@ == sorted_by_keys(
                old(self).tracks@,
                title_keys(old(self).tracks@),
                final(self).sort_state,
            ),
            final(self).album_state == Some(0usize),
            final(self).track_state == Some(0usize),
            *final(self) == (App {
                sort_state: final(self).sort_state,
                albums: final(self).albums,
                tracks: final(self).tracks,
                album_state: final(self).album_state,
                track_state: final(self).track_state,
                ..*old(self)
            }),
    {
        self.sort_state = match self.sort_state {
            SortState::AZ => SortState::ZA,
            SortState::ZA => SortState::AZ,
        };
        self.sort_lists();
    }

    /// Sorts the listed albums by artist and the listed tracks by title, in
    /// the current order and without regard to case; entries with equal
    /// keys keep their order. The first row of both panels is selected.
    pub fn sort_lists(&mut self)
        ensures
            final(self).albums@ == sorted_by_keys(
                old(self).albums@,
                artist_keys(old(self).albums@),
                old(self).sort_state,
            ),
            final(self).tracks@ == sorted_by_keys(
                old(self).tracks@,
                title_keys(old(self).tracks@),
                old(self).sort_state,
            ),
            final(self).album_state == Some(0usize),
            final(self).track_state == Some(0usize),
            *final(self) == (App {
                albums: final(self).albums,
                tracks: final(self).tracks,
                album_state: final(self).album_state,
                track_state: final(self).track_state,
                ..*old(self)
            }),
    {
        let mut artists: Vec<String> = lowercase_artists(&self.albums);
        sort_by_keys(&mut self.albums, &mut artists, self.sort_state);
        let mut titles: Vec<String> = lowercase_titles(&self.tracks);
        sort_by_keys(&mut self.tracks, &mut titles, self.sort_state);
        self.album_state = Some(0);
        self.track_state = Some(0);
    }
}

} // verus!
