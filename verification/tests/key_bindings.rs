use musicbox::keybinds::{handle_key_inputs, KeyCode, KeyEvent};
use musicbox::message::{
    Direction, InputTarget, Message, PlayerMessage, PlaylistMessage, QueueMessage, Response,
    UserInputMessage, DEFAULT_VOLUME_CHANGE_AMOUNT,
};
use musicbox::state::{App, FocusedArea, InputMode};

fn key(code: KeyCode) -> KeyEvent {
    KeyEvent { code }
}

fn app_in(mode: InputMode, area: FocusedArea) -> App {
    let mut app = App::new();
    app.input_mode = mode;
    app.focused_view_area = area;
    app
}

#[test]
fn playlist_view_bindings() {
    let app = app_in(InputMode::Commands, FocusedArea::Playlist);
    let cases = vec![
        (KeyCode::Esc, Some(Message::Quit)),
        (KeyCode::Char('n'), Some(Message::Playlist(PlaylistMessage::Create))),
        (KeyCode::Char('W'), Some(Message::Playlist(PlaylistMessage::AddDir))),
        (KeyCode::Char('w'), Some(Message::Playlist(PlaylistMessage::AddTracks))),
        (KeyCode::Char('\\'), Some(Message::Playlist(PlaylistMessage::PrependQueue))),
        (KeyCode::Char('='), Some(Message::Player(PlayerMessage::IncreaseVolume(DEFAULT_VOLUME_CHANGE_AMOUNT)))),
        (KeyCode::Up, Some(Message::Playlist(PlaylistMessage::Navigate(Direction::Up)))),
        (KeyCode::Right, Some(Message::Playlist(PlaylistMessage::Navigate(Direction::Right)))),
        (KeyCode::F(2), Some(Message::Playlist(PlaylistMessage::Rename))),
        (KeyCode::F(9), Some(Message::Playlist(PlaylistMessage::Delete))),
        (KeyCode::F(5), Some(Message::Playlist(PlaylistMessage::SaveSelected))),
        (KeyCode::Enter, Some(Message::Playlist(PlaylistMessage::Enqueue))),
        (KeyCode::Tab, Some(Message::CycleTabs)),
        (KeyCode::F(6), None),
        (KeyCode::Char('m'), None),
        (KeyCode::Other, None),
    ];
    for (code, expected) in cases {
        assert_eq!(handle_key_inputs(key(code), &app), expected, "{code:?}");
    }
}

#[test]
fn queue_view_bindings() {
    for area in [FocusedArea::Queue, FocusedArea::Player] {
        let app = app_in(InputMode::Commands, area);
        let cases = vec![
            (KeyCode::Esc, Some(Message::Quit)),
            (KeyCode::Char('n'), Some(Message::Player(PlayerMessage::LoadNow))),
            (KeyCode::Right, Some(Message::Player(PlayerMessage::Seek(None)))),
            (KeyCode::Left, Some(Message::Player(PlayerMessage::Rewind(None)))),
            (KeyCode::Up, Some(Message::Queue(QueueMessage::MoveUp))),
            (KeyCode::Char('m'), Some(Message::Queue(QueueMessage::Shuffle))),
            (KeyCode::Backspace, Some(Message::Queue(QueueMessage::Clear))),
            (KeyCode::Enter, Some(Message::Queue(QueueMessage::SkipToSelected))),
            (KeyCode::F(5), Some(Message::Queue(QueueMessage::SaveCurrentAsPlaylist))),
            (KeyCode::F(6), Some(Message::Queue(QueueMessage::SaveFullAsPlaylist))),
            (KeyCode::F(2), None),
            (KeyCode::Char('w'), None),
        ];
        for (code, expected) in cases {
            assert_eq!(handle_key_inputs(key(code), &app), expected, "{code:?}");
        }
    }
}

#[test]
fn insert_mode_bindings() {
    let target = InputTarget::PlaylistName(3);
    let app = app_in(InputMode::Insert("Playlist".to_string(), target), FocusedArea::Playlist);
    assert_eq!(handle_key_inputs(key(KeyCode::Char('q')), &app), Some(Message::UserInput(UserInputMessage::Insert('q'))));
    assert_eq!(handle_key_inputs(key(KeyCode::Enter), &app), Some(Message::UserInput(UserInputMessage::Submit(target))));
    assert_eq!(handle_key_inputs(key(KeyCode::Esc), &app), Some(Message::UserInput(UserInputMessage::ExitEarly(target))));
    assert_eq!(handle_key_inputs(key(KeyCode::Backspace), &app), Some(Message::UserInput(UserInputMessage::Delete)));
    assert_eq!(handle_key_inputs(key(KeyCode::Left), &app), Some(Message::UserInput(UserInputMessage::MoveCursorLeft)));
    assert_eq!(handle_key_inputs(key(KeyCode::Up), &app), None);
}

#[test]
fn confirmation_bindings() {
    let app = app_in(InputMode::Confirmation, FocusedArea::Queue);
    assert_eq!(handle_key_inputs(key(KeyCode::Char('y')), &app), Some(Message::Confirm(Response::Yes)));
    assert_eq!(handle_key_inputs(key(KeyCode::Enter), &app), Some(Message::Confirm(Response::Yes)));
    assert_eq!(handle_key_inputs(key(KeyCode::Char('n')), &app), Some(Message::Confirm(Response::No)));
    assert_eq!(handle_key_inputs(key(KeyCode::Esc), &app), Some(Message::Confirm(Response::No)));
    assert_eq!(handle_key_inputs(key(KeyCode::Char('x')), &app), None);
}
