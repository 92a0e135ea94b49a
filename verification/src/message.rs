use vstd::prelude::*;

use crate::track::{MiniMetadata, MiniTrack};

verus! {

/// A direction of cursor movement.
#[derive(Clone, Copy, Debug, PartialEq, Eq)]
pub enum Direction {
    Up,
    Down,
    Left,
    Right,
}

/// The answer to a yes/no question put to the user.
#[derive(Clone, Copy, Debug, PartialEq, Eq)]
pub enum Response {
    Yes,
    No,
}

/// What a line of user input will be used for.
#[derive(Clone, Copy, Debug, PartialEq, Eq)]
pub enum InputTarget {
    /// The new name of the playlist at this index.
    PlaylistName(usize),
}

/// Step, in percent of full volume, by which the volume keys change it.
pub const DEFAULT_VOLUME_CHANGE_AMOUNT: u8 = 5;

/// Messages for the line editor.
#[derive(Clone, Debug, PartialEq, Eq)]
pub enum UserInputMessage {
    /// Open the editor with this prompt, for this target.
    EnterEditMode(String, InputTarget),
    /// Leave the editor after the input was used.
    Exit,
    /// Hand the edited line to its target.
    Submit(InputTarget),
    Insert(char),
    Delete,
    MoveCursorLeft,
    MoveCursorRight,
    /// Leave the editor without using the input.
    ExitEarly(InputTarget),
}

/// Messages for the player.
#[derive(Clone, Debug, PartialEq, Eq)]
pub enum PlayerMessage {
    TogglePlay,
    Next,
    PreviousTrack,
    ToggleLoop,
    LoadNow,
    IncreaseVolume(u8),
    DecreaseVolume(u8),
    Seek(Option<u64>),
    Rewind(Option<u64>),
}

/// Messages for the playlist view.
#[derive(Debug, PartialEq, Eq)]
pub enum PlaylistMessage {
    Create,
    AddTracks,
    Enqueue,
    PrependQueue,
    Navigate(Direction),
    AddDir,
    Delete,
    RemoveTrack,
    Rename,
    SaveSelected,
    ToggleArrangeTracks,
    /// Ask whether to save the selected playlist, then go on with the message.
    AskToSave(Box<Option<Message>>),
    ScrollToStart,
    ScrollToEnd,
    /// The metadata loader found the metadata of a track of the playlist at this index.
    LoadedMetadata(usize, MiniMetadata),
}

/// Messages related to the track queue.
#[derive(Clone, Debug, PartialEq, Eq)]
pub enum QueueMessage {
    ToggleArrange,
    MoveUp,
    MoveDown,
    QueueFilesWithFileDialog,
    QueueDirsWithFileDialog,
    QueuePaths(Vec<String>),
    Shuffle,
    Clear,
    ScrollToStart,
    ScrollToEnd,
    RemoveSelected,
    CreatedMiniTrack(MiniTrack),
    SkipToSelected,
    /// Save the tracks that are still to come as a playlist.
    SaveCurrentAsPlaylist,
    /// Save the played tracks and those still to come as a playlist.
    SaveFullAsPlaylist,
}

/// Every message that the parts of the player send one another.
#[derive(Debug, PartialEq, Eq)]
pub enum Message {
    Quit,
    ShowHelp,
    CycleTabs,
    Playlist(PlaylistMessage),
    Queue(QueueMessage),
    Player(PlayerMessage),
    UserInput(UserInputMessage),
    /// The user's answer to the question asked last.
    Confirm(Response),
    /// Ask the user this question; on an answer, handle the message.
    AskConfirmation(String, Box<Message>),
    DisplayInfoMsg(String),
}

/// `m` opens the line editor with prompt `prompt`, to name the playlist at `index`.
pub open spec fn is_edit_name_msg(m: Option<Message>, prompt: Seq<char>, index: usize) -> bool {
    m matches Some(Message::UserInput(UserInputMessage::EnterEditMode(p, InputTarget::PlaylistName(i))))
        && p@ == prompt && i == index
}

/// `m` asks the question `question` and then handles `then`.
pub open spec fn is_confirmation_msg(m: Option<Message>, question: Seq<char>, then: Message) -> bool {
    m matches Some(Message::AskConfirmation(q, b)) && q@ == question && *b == then
}

/// The message that asks whether to save the selected playlist before `to_resume`.
pub open spec fn ask_to_save_msg(to_resume: Option<Message>) -> Message {
    Message::Playlist(PlaylistMessage::AskToSave(Box::new(to_resume)))
}

} // verus!
