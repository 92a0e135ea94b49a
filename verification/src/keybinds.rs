use vstd::prelude::*;

use crate::message::{
    Direction, Message, PlayerMessage, PlaylistMessage, QueueMessage, Response, UserInputMessage,
    DEFAULT_VOLUME_CHANGE_AMOUNT,
};
use crate::state::{App, FocusedArea, InputMode};

verus! {

/// A key of the keyboard, as far as the key bindings tell keys apart.
#[derive(Clone, Copy, Debug, PartialEq, Eq)]
pub enum KeyCode {
    Esc,
    Enter,
    Delete,
    Backspace,
    Tab,
    Home,
    End,
    Up,
    Down,
    Left,
    Right,
    /// A key that types this character.
    Char(char),
    /// The function key with this number.
    F(u8),
    /// Any other key; no binding uses it.
    Other,
}

/// A key press.
#[derive(Clone, Copy, Debug, PartialEq, Eq)]
pub struct KeyEvent {
    pub code: KeyCode,
}

/// Commands bound to keys while the playlist view has the keyboard.
pub open spec fn playlist_key(code: KeyCode) -> Option<Message> {
    match code {
        KeyCode::Esc => Some(Message::Quit),
        KeyCode::Char('a') => Some(Message::Playlist(PlaylistMessage::ToggleArrangeTracks)),
        KeyCode::Char('n') => Some(Message::Playlist(PlaylistMessage::Create)),
        KeyCode::Char('W') => Some(Message::Playlist(PlaylistMessage::AddDir)),
        KeyCode::Char('w') => Some(Message::Playlist(PlaylistMessage::AddTracks)),
        KeyCode::Char('s') => Some(Message::Player(PlayerMessage::Next)),
        KeyCode::Char('p') => Some(Message::Player(PlayerMessage::PreviousTrack)),
        KeyCode::Char('l') => Some(Message::Player(PlayerMessage::ToggleLoop)),
        KeyCode::Char('q') => Some(Message::Queue(QueueMessage::QueueFilesWithFileDialog)),
        KeyCode::Char('Q') => Some(Message::Queue(QueueMessage::QueueDirsWithFileDialog)),
        KeyCode::Char(' ') => Some(Message::Player(PlayerMessage::TogglePlay)),
        KeyCode::Char('=') => Some(Message::Player(PlayerMessage::IncreaseVolume(DEFAULT_VOLUME_CHANGE_AMOUNT))),
        KeyCode::Char('\\') => Some(Message::Playlist(PlaylistMessage::PrependQueue)),
        KeyCode::Char('-') => Some(Message::Player(PlayerMessage::DecreaseVolume(DEFAULT_VOLUME_CHANGE_AMOUNT))),
        KeyCode::Enter => Some(Message::Playlist(PlaylistMessage::Enqueue)),
        KeyCode::Delete => Some(Message::Playlist(PlaylistMessage::RemoveTrack)),
        KeyCode::Right => Some(Message::Playlist(PlaylistMessage::Navigate(Direction::Right))),
        KeyCode::Left => Some(Message::Playlist(PlaylistMessage::Navigate(Direction::Left))),
        KeyCode::Up => Some(Message::Playlist(PlaylistMessage::Navigate(Direction::Up))),
        KeyCode::Down => Some(Message::Playlist(PlaylistMessage::Navigate(Direction::Down))),
        KeyCode::F(2) => Some(Message::Playlist(PlaylistMessage::Rename)),
        KeyCode::F(9) => Some(Message::Playlist(PlaylistMessage::Delete)),
        KeyCode::F(5) => Some(Message::Playlist(PlaylistMessage::SaveSelected)),
        KeyCode::Home => Some(Message::Playlist(PlaylistMessage::ScrollToStart)),
        KeyCode::End => Some(Message::Playlist(PlaylistMessage::ScrollToEnd)),
        KeyCode::Char('h') => Some(Message::ShowHelp),
        KeyCode::Tab => Some(Message::CycleTabs),
        _ => None,
    }
}

/// Commands bound to keys while the queue or the player has the keyboard.
pub open spec fn queue_key(code: KeyCode) -> Option<Message> {
    match code {
        KeyCode::Esc => Some(Message::Quit),
        KeyCode::Char('n') => Some(Message::Player(PlayerMessage::LoadNow)),
        KeyCode::Char(' ') => Some(Message::Player(PlayerMessage::TogglePlay)),
        KeyCode::Char('=') => Some(Message::Player(PlayerMessage::IncreaseVolume(DEFAULT_VOLUME_CHANGE_AMOUNT))),
        KeyCode::Char('-') => Some(Message::Player(PlayerMessage::DecreaseVolume(DEFAULT_VOLUME_CHANGE_AMOUNT))),
        KeyCode::Right => Some(Message::Player(PlayerMessage::Seek(None))),
        KeyCode::Left => Some(Message::Player(PlayerMessage::Rewind(None))),
        KeyCode::Char('l') => Some(Message::Player(PlayerMessage::ToggleLoop)),
        KeyCode::Char('q') => Some(Message::Queue(QueueMessage::QueueFilesWithFileDialog)),
        KeyCode::Char('Q') => Some(Message::Queue(QueueMessage::QueueDirsWithFileDialog)),
        KeyCode::Up => Some(Message::Queue(QueueMessage::MoveUp)),
        KeyCode::Down => Some(Message::Queue(QueueMessage::MoveDown)),
        KeyCode::Char('a') => Some(Message::Queue(QueueMessage::ToggleArrange)),
        KeyCode::Char('s') => Some(Message::Player(PlayerMessage::Next)),
        KeyCode::Char('p') => Some(Message::Player(PlayerMessage::PreviousTrack)),
        KeyCode::Char('m') => Some(Message::Queue(QueueMessage::Shuffle)),
        KeyCode::Char('h') => Some(Message::ShowHelp),
        KeyCode::Enter => Some(Message::Queue(QueueMessage::SkipToSelected)),
        KeyCode::Delete => Some(Message::Queue(QueueMessage::RemoveSelected)),
        KeyCode::Backspace => Some(Message::Queue(QueueMessage::Clear)),
        KeyCode::Home => Some(Message::Queue(QueueMessage::ScrollToStart)),
        KeyCode::End => Some(Message::Queue(QueueMessage::ScrollToEnd)),
        KeyCode::Tab => Some(Message::CycleTabs),
        KeyCode::F(5) => Some(Message::Queue(QueueMessage::SaveCurrentAsPlaylist)),
        KeyCode::F(6) => Some(Message::Queue(QueueMessage::SaveFullAsPlaylist)),
        _ => None,
    }
}

/// What a key press means in mode `mode` with `area` holding the keyboard.
pub open spec fn key_message(code: KeyCode, mode: InputMode, area: FocusedArea) -> Option<Message> {
    match mode {
        InputMode::Commands => match area {
            FocusedArea::Playlist => playlist_key(code),
            _ => queue_key(code),
        },
        InputMode::Insert(_, to_edit) => match code {
            KeyCode::Enter => Some(Message::UserInput(UserInputMessage::Submit(to_edit))),
            KeyCode::Char(c) => Some(Message::UserInput(UserInputMessage::Insert(c))),
            KeyCode::Backspace => Some(Message::UserInput(UserInputMessage::Delete)),
            KeyCode::Left => Some(Message::UserInput(UserInputMessage::MoveCursorLeft)),
            KeyCode::Right => Some(Message::UserInput(UserInputMessage::MoveCursorRight)),
            KeyCode::Esc => Some(Message::UserInput(UserInputMessage::ExitEarly(to_edit))),
            _ => None,
        },
        InputMode::Confirmation => match code {
            KeyCode::Char('y') => Some(Message::Confirm(Response::Yes)),
            KeyCode::Char('n') => Some(Message::Confirm(Response::No)),
            KeyCode::Enter => Some(Message::Confirm(Response::Yes)),
            KeyCode::Esc => Some(Message::Confirm(Response::No)),
            _ => None,
        },
    }
}

/// The message that a key press stands for, given what has the keyboard and
/// in which mode; `None` for a key without a binding.
pub fn handle_key_inputs(key_event: KeyEvent, app: &App) -> (r: Option<Message>)
    ensures
        r == key_message(key_event.code, app.input_mode, app.focused_view_area),
        // With keys as commands, the arrow keys move in their own direction: in
        // the playlist view they navigate, elsewhere up and down move the queue's
        // cursor, and left and right seek back and forth.
        app.input_mode is Commands ==> (if app.focused_view_area == FocusedArea::Playlist {
            &&& key_event.code == KeyCode::Up ==> r == Some(Message::Playlist(PlaylistMessage::Navigate(Direction::Up)))
            &&& key_event.code == KeyCode::Down ==> r == Some(Message::Playlist(PlaylistMessage::Navigate(Direction::Down)))
            &&& key_event.code == KeyCode::Left ==> r == Some(Message::Playlist(PlaylistMessage::Navigate(Direction::Left)))
            &&& key_event.code == KeyCode::Right ==> r == Some(Message::Playlist(PlaylistMessage::Navigate(Direction::Right)))
            &&& key_event.code == KeyCode::Home ==> r == Some(Message::Playlist(PlaylistMessage::ScrollToStart))
            &&& key_event.code == KeyCode::End ==> r == Some(Message::Playlist(PlaylistMessage::ScrollToEnd))
            &&& key_event.code == KeyCode::Enter ==> r == Some(Message::Playlist(PlaylistMessage::Enqueue))
            &&& key_event.code == KeyCode::Char('\\') ==> r == Some(Message::Playlist(PlaylistMessage::PrependQueue))
            &&& key_event.code == KeyCode::Delete ==> r == Some(Message::Playlist(PlaylistMessage::RemoveTrack))
            &&& key_event.code == KeyCode::Char('n') ==> r == Some(Message::Playlist(PlaylistMessage::Create))
            &&& key_event.code == KeyCode::Char('w') ==> r == Some(Message::Playlist(PlaylistMessage::AddTracks))
            &&& key_event.code == KeyCode::Char('W') ==> r == Some(Message::Playlist(PlaylistMessage::AddDir))
            &&& key_event.code == KeyCode::Char('a') ==> r == Some(Message::Playlist(PlaylistMessage::ToggleArrangeTracks))
            &&& key_event.code == KeyCode::F(2) ==> r == Some(Message::Playlist(PlaylistMessage::Rename))
            &&& key_event.code == KeyCode::F(5) ==> r == Some(Message::Playlist(PlaylistMessage::SaveSelected))
            &&& key_event.code == KeyCode::F(9) ==> r == Some(Message::Playlist(PlaylistMessage::Delete))
        } else {
            &&& key_event.code == KeyCode::Up ==> r == Some(Message::Queue(QueueMessage::MoveUp))
            &&& key_event.code == KeyCode::Down ==> r == Some(Message::Queue(QueueMessage::MoveDown))
            &&& key_event.code == KeyCode::Left ==> r == Some(Message::Player(PlayerMessage::Rewind(None)))
            &&& key_event.code == KeyCode::Right ==> r == Some(Message::Player(PlayerMessage::Seek(None)))
            &&& key_event.code == KeyCode::Home ==> r == Some(Message::Queue(QueueMessage::ScrollToStart))
            &&& key_event.code == KeyCode::End ==> r == Some(Message::Queue(QueueMessage::ScrollToEnd))
            &&& key_event.code == KeyCode::Enter ==> r == Some(Message::Queue(QueueMessage::SkipToSelected))
            &&& key_event.code == KeyCode::Delete ==> r == Some(Message::Queue(QueueMessage::RemoveSelected))
            &&& key_event.code == KeyCode::Backspace ==> r == Some(Message::Queue(QueueMessage::Clear))
            &&& key_event.code == KeyCode::Char('m') ==> r == Some(Message::Queue(QueueMessage::Shuffle))
            &&& key_event.code == KeyCode::Char('a') ==> r == Some(Message::Queue(QueueMessage::ToggleArrange))
            &&& key_event.code == KeyCode::F(5) ==> r == Some(Message::Queue(QueueMessage::SaveCurrentAsPlaylist))
            &&& key_event.code == KeyCode::F(6) ==> r == Some(Message::Queue(QueueMessage::SaveFullAsPlaylist))
        }),
        // Keys that do the same in every view.
        app.input_mode is Commands ==> {
            &&& key_event.code == KeyCode::Esc ==> r == Some(Message::Quit)
            &&& key_event.code == KeyCode::Tab ==> r == Some(Message::CycleTabs)
            &&& key_event.code == KeyCode::Char('h') ==> r == Some(Message::ShowHelp)
            &&& key_event.code == KeyCode::Char(' ') ==> r == Some(Message::Player(PlayerMessage::TogglePlay))
            &&& key_event.code == KeyCode::Char('s') ==> r == Some(Message::Player(PlayerMessage::Next))
            &&& key_event.code == KeyCode::Char('p') ==> r == Some(Message::Player(PlayerMessage::PreviousTrack))
            &&& key_event.code == KeyCode::Char('l') ==> r == Some(Message::Player(PlayerMessage::ToggleLoop))
            &&& key_event.code == KeyCode::Char('q') ==> r == Some(Message::Queue(QueueMessage::QueueFilesWithFileDialog))
            &&& key_event.code == KeyCode::Char('Q') ==> r == Some(Message::Queue(QueueMessage::QueueDirsWithFileDialog))
            &&& key_event.code == KeyCode::Char('=') ==> r == Some(Message::Player(PlayerMessage::IncreaseVolume(DEFAULT_VOLUME_CHANGE_AMOUNT)))
            &&& key_event.code == KeyCode::Char('-') ==> r == Some(Message::Player(PlayerMessage::DecreaseVolume(DEFAULT_VOLUME_CHANGE_AMOUNT)))
        },
        // While a line is edited, character keys type, Enter hands the line
        // over and Esc leaves without it.
        app.input_mode is Insert ==> {
            &&& key_event.code is Char ==> r == Some(Message::UserInput(UserInputMessage::Insert(key_event.code->Char_0)))
            &&& key_event.code == KeyCode::Enter ==> r == Some(Message::UserInput(UserInputMessage::Submit(app.input_mode->Insert_1)))
            &&& key_event.code == KeyCode::Esc ==> r == Some(Message::UserInput(UserInputMessage::ExitEarly(app.input_mode->Insert_1)))
            &&& key_event.code == KeyCode::Backspace ==> r == Some(Message::UserInput(UserInputMessage::Delete))
            &&& key_event.code == KeyCode::Left ==> r == Some(Message::UserInput(UserInputMessage::MoveCursorLeft))
            &&& key_event.code == KeyCode::Right ==> r == Some(Message::UserInput(UserInputMessage::MoveCursorRight))
        },
        // When a question is asked, y and Enter say yes, n and Esc say no.
        app.input_mode is Confirmation ==> {
            &&& (key_event.code == KeyCode::Char('y') || key_event.code == KeyCode::Enter) ==> r == Some(Message::Confirm(Response::Yes))
            &&& (key_event.code == KeyCode::Char('n') || key_event.code == KeyCode::Esc) ==> r == Some(Message::Confirm(Response::No))
        },
{
    match &app.input_mode {
        InputMode::Commands => match app.focused_view_area {
            FocusedArea::Playlist => match key_event.code {
                KeyCode::Esc => Some(Message::Quit),
                KeyCode::Char('a') => Some(Message::Playlist(PlaylistMessage::ToggleArrangeTracks)),
                KeyCode::Char('n') => Some(Message::Playlist(PlaylistMessage::Create)),
                KeyCode::Char('W') => Some(Message::Playlist(PlaylistMessage::AddDir)),
                KeyCode::Char('w') => Some(Message::Playlist(PlaylistMessage::AddTracks)),
                KeyCode::Char('s') => Some(Message::Player(PlayerMessage::Next)),
                KeyCode::Char('p') => Some(Message::Player(PlayerMessage::PreviousTrack)),
                KeyCode::Char('l') => Some(Message::Player(PlayerMessage::ToggleLoop)),
                KeyCode::Char('q') => Some(Message::Queue(QueueMessage::QueueFilesWithFileDialog)),
                KeyCode::Char('Q') => Some(Message::Queue(QueueMessage::QueueDirsWithFileDialog)),
                KeyCode::Char(' ') => Some(Message::Player(PlayerMessage::TogglePlay)),
                KeyCode::Char('=') => Some(Message::Player(PlayerMessage::IncreaseVolume(
                    DEFAULT_VOLUME_CHANGE_AMOUNT,
                ))),
                KeyCode::Char('\\') => Some(Message::Playlist(PlaylistMessage::PrependQueue)),
                KeyCode::Char('-') => Some(Message::Player(PlayerMessage::DecreaseVolume(
                    DEFAULT_VOLUME_CHANGE_AMOUNT,
                ))),
                KeyCode::Enter => Some(Message::Playlist(PlaylistMessage::Enqueue)),
                KeyCode::Delete => Some(Message::Playlist(PlaylistMessage::RemoveTrack)),
                KeyCode::Right => Some(Message::Playlist(PlaylistMessage::Navigate(Direction::Right))),
                KeyCode::Left => Some(Message::Playlist(PlaylistMessage::Navigate(Direction::Left))),
                KeyCode::Up => Some(Message::Playlist(PlaylistMessage::Navigate(Direction::Up))),
                KeyCode::Down => Some(Message::Playlist(PlaylistMessage::Navigate(Direction::Down))),
                KeyCode::F(2) => Some(Message::Playlist(PlaylistMessage::Rename)),
                KeyCode::F(9) => Some(Message::Playlist(PlaylistMessage::Delete)),
                KeyCode::F(5) => Some(Message::Playlist(PlaylistMessage::SaveSelected)),
                KeyCode::Home => Some(Message::Playlist(PlaylistMessage::ScrollToStart)),
                KeyCode::End => Some(Message::Playlist(PlaylistMessage::ScrollToEnd)),
                KeyCode::Char('h') => Some(Message::ShowHelp),
                KeyCode::Tab => Some(Message::CycleTabs),
                _ => None,
            },
            _ => match key_event.code {
                KeyCode::Esc => Some(Message::Quit),
                KeyCode::Char('n') => Some(Message::Player(PlayerMessage::LoadNow)),
                KeyCode::Char(' ') => Some(Message::Player(PlayerMessage::TogglePlay)),
                KeyCode::Char('=') => Some(Message::Player(PlayerMessage::IncreaseVolume(
                    DEFAULT_VOLUME_CHANGE_AMOUNT,
                ))),
                KeyCode::Char('-') => Some(Message::Player(PlayerMessage::DecreaseVolume(
                    DEFAULT_VOLUME_CHANGE_AMOUNT,
                ))),
                KeyCode::Right => Some(Message::Player(PlayerMessage::Seek(None))),
                KeyCode::Left => Some(Message::Player(PlayerMessage::Rewind(None))),
                KeyCode::Char('l') => Some(Message::Player(PlayerMessage::ToggleLoop)),
                KeyCode::Char('q') => Some(Message::Queue(QueueMessage::QueueFilesWithFileDialog)),
                KeyCode::Char('Q') => Some(Message::Queue(QueueMessage::QueueDirsWithFileDialog)),
                KeyCode::Up => Some(Message::Queue(QueueMessage::MoveUp)),
                KeyCode::Down => Some(Message::Queue(QueueMessage::MoveDown)),
                KeyCode::Char('a') => Some(Message::Queue(QueueMessage::ToggleArrange)),
                KeyCode::Char('s') => Some(Message::Player(PlayerMessage::Next)),
                KeyCode::Char('p') => Some(Message::Player(PlayerMessage::PreviousTrack)),
                KeyCode::Char('m') => Some(Message::Queue(QueueMessage::Shuffle)),
                KeyCode::Char('h') => Some(Message::ShowHelp),
                KeyCode::Enter => Some(Message::Queue(QueueMessage::SkipToSelected)),
                KeyCode::Delete => Some(Message::Queue(QueueMessage::RemoveSelected)),
                KeyCode::Backspace => Some(Message::Queue(QueueMessage::Clear)),
                KeyCode::Home => Some(Message::Queue(QueueMessage::ScrollToStart)),
                KeyCode::End => Some(Message::Queue(QueueMessage::ScrollToEnd)),
                KeyCode::Tab => Some(Message::CycleTabs),
                KeyCode::F(5) => Some(Message::Queue(QueueMessage::SaveCurrentAsPlaylist)),
                KeyCode::F(6) => Some(Message::Queue(QueueMessage::SaveFullAsPlaylist)),
                _ => None,
            },
        },
        InputMode::Insert(_, to_edit) => match key_event.code {
            KeyCode::Enter => Some(Message::UserInput(UserInputMessage::Submit(*to_edit))),
            KeyCode::Char(c) => Some(Message::UserInput(UserInputMessage::Insert(c))),
            KeyCode::Backspace => Some(Message::UserInput(UserInputMessage::Delete)),
            KeyCode::Left => Some(Message::UserInput(UserInputMessage::MoveCursorLeft)),
            KeyCode::Right => Some(Message::UserInput(UserInputMessage::MoveCursorRight)),
            KeyCode::Esc => Some(Message::UserInput(UserInputMessage::ExitEarly(*to_edit))),
            _ => None,
        },
        InputMode::Confirmation => match key_event.code {
            KeyCode::Char('y') => Some(Message::Confirm(Response::Yes)),
            KeyCode::Char('n') => Some(Message::Confirm(Response::No)),
            KeyCode::Enter => Some(Message::Confirm(Response::Yes)),
            KeyCode::Esc => Some(Message::Confirm(Response::No)),
            _ => None,
        },
    }
}

} // verus!
