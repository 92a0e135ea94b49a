use vstd::prelude::*;

use crate::controller::PlaylistController;
use crate::message::{InputTarget, Response};
use crate::queue::TrackQueue;

verus! {

/// Which part of the screen has the keyboard.
#[derive(Clone, Copy, Debug, PartialEq, Eq)]
pub enum FocusedArea {
    Playlist,
    Queue,
    Player,
}

/// What key presses mean at the moment.
#[derive(Debug, PartialEq, Eq)]
pub enum InputMode {
    /// Keys are commands.
    Commands,
    /// Keys edit a line of text: the prompt, and what the line is for.
    Insert(String, InputTarget),
    /// Keys answer a yes/no question.
    Confirmation,
}

/// What the player has played: the track it plays now, by its path, and the
/// paths of those it played before, oldest first.
#[derive(Debug, PartialEq, Eq)]
pub struct Player {
    pub current: Option<String>,
    pub previous: Vec<String>,
}

/// The lines the user has entered, the last one last.
#[derive(Debug, PartialEq, Eq)]
pub struct UserInput {
    pub input_history: Vec<String>,
}

/// The answer to the last yes/no question, until a command uses it.
#[derive(Debug, PartialEq, Eq)]
pub struct UserConfirmation {
    pub response: Option<Response>,
}

/// Work that the surroundings of the player do for a command, because it
/// needs a dialog or the audio device.
#[derive(Clone, Copy, Debug, PartialEq, Eq)]
pub enum Effect {
    /// Open the file dialog for audio files; the chosen files that exist go
    /// to `add_tracks`.
    ChooseTracksForPlaylist,
    /// Open the directory dialog; the audio files found in the chosen
    /// directories go to `add_dir`.
    ChooseDirsForPlaylist,
    /// Open the file dialog for audio files; the chosen files go to
    /// `queue_files_with_file_dialog`.
    ChooseFilesForQueue,
    /// Open the directory dialog; the audio files of each chosen directory go
    /// to `queue_dirs_with_file_dialog`.
    ChooseDirsForQueue,
    /// Play the next track of the queue.
    PlayNextTrack,
}

/// The whole state of the player, with the work that commands asked of its
/// surroundings and that is not done yet, oldest first.
#[derive(Debug, PartialEq, Eq)]
pub struct App {
    pub playlist_ctl: PlaylistController,
    pub queue: TrackQueue,
    pub player: Player,
    pub user_input: UserInput,
    pub user_confirmation: UserConfirmation,
    pub input_mode: InputMode,
    pub focused_view_area: FocusedArea,
    pub effects: Vec<Effect>,
}

/// `new` is `old` with the effect `e` asked for when `when`, and nothing else
/// changed.
pub open spec fn effect_requested(old: App, new: App, e: Effect, when: bool) -> bool {
    &&& new.effects@ == (if when { old.effects@.push(e) } else { old.effects@ })
    &&& new.playlist_ctl == old.playlist_ctl
    &&& new.queue == old.queue
    &&& new.player == old.player
    &&& new.user_input == old.user_input
    &&& new.user_confirmation == old.user_confirmation
    &&& new.input_mode == old.input_mode
    &&& new.focused_view_area == old.focused_view_area
}

impl App {
    /// The playlist view and the queue are well formed.
    pub open spec fn wf(&self) -> bool {
        self.playlist_ctl.wf() && self.queue.wf()
    }

    /// Whether the playlist view and the queue are well formed.
    pub fn is_well_formed(&self) -> (r: bool)
        ensures
            r == self.wf(),
    {
        self.playlist_ctl.is_well_formed() && self.queue.is_well_formed()
    }

    /// No playlists, an empty queue, nothing played, no input, keys are
    /// commands for the playlist view.
    pub fn new() -> (r: App)
        ensures
            r.wf(),
            r.playlist_ctl.playlists().len() == 0,
            r.queue.tracks@.len() == 0,
            r.player.current is None,
            r.player.previous@.len() == 0,
            r.user_input.input_history@.len() == 0,
            r.user_confirmation.response is None,
            r.input_mode == InputMode::Commands,
            r.focused_view_area == FocusedArea::Playlist,
            r.effects@.len() == 0,
    {
        App {
            playlist_ctl: PlaylistController::new(),
            queue: TrackQueue::new(),
            player: Player { current: None, previous: Vec::new() },
            user_input: UserInput { input_history: Vec::new() },
            user_confirmation: UserConfirmation { response: None },
            input_mode: InputMode::Commands,
            focused_view_area: FocusedArea::Playlist,
            effects: Vec::new(),
        }
    }
}

} // verus!
