use musicbox::controller::{PlaylistController, PlaylistTabFocus};
use musicbox::message::{
    Direction, InputTarget, Message, PlaylistMessage, Response, UserInputMessage,
};
use musicbox::playlist::Playlist;
use musicbox::playlist_cmd::{
    add_dir, add_tracks, append_metadata, ask_to_save, create_playlist, delete_playlist,
    enqueue, move_cursor, name_playlist, navigate_playlists, navigate_tracks,
    playlist_save_confirm_then_resume, prepend_queue, remove_selected_track, rename_playlist,
    save_selected_playlist, scroll_to_end, scroll_to_start, toggle_arrange, update_playlist,
};
use musicbox::state::{App, Effect};
use musicbox::queue::TrackQueue;
use musicbox::track::MiniMetadata;

fn paths(v: &[&str]) -> Vec<String> {
    v.iter().map(|s| s.to_string()).collect()
}

fn track_paths(p: &Playlist) -> Vec<String> {
    p.mini_tracks.iter().map(|t| t.path.clone()).collect()
}

fn edit_msg(prompt: &str, index: usize) -> Option<Message> {
    Some(Message::UserInput(UserInputMessage::EnterEditMode(
        prompt.to_string(),
        InputTarget::PlaylistName(index),
    )))
}

/// A controller with one saved playlist holding `a`, `b`, `c`, selected.
fn one_playlist() -> PlaylistController {
    let mut ctl = PlaylistController::new();
    create_playlist(&mut ctl);
    add_tracks(&mut ctl, Some(paths(&["a", "b", "c"])));
    ctl.playlist_coll.playlists[0].save();
    ctl
}

#[test]
fn create_playlist_selects_it_and_asks_for_a_name() {
    let mut ctl = PlaylistController::new();
    assert_eq!(create_playlist(&mut ctl), edit_msg("Playlist", 0));
    assert_eq!(create_playlist(&mut ctl), edit_msg("Playlist", 1));
    assert_eq!(ctl.playlist_coll.len(), 2);
    assert_eq!(ctl.selected_playlist, Some(1));
    assert!(ctl.playlist_coll.playlists[1].name.is_none());
}

#[test]
fn create_playlist_asks_to_save_a_dirty_selection() {
    let mut ctl = PlaylistController::new();
    create_playlist(&mut ctl);
    add_tracks(&mut ctl, Some(paths(&["a"])));
    let r = create_playlist(&mut ctl);
    assert_eq!(
        r,
        Some(Message::Playlist(PlaylistMessage::AskToSave(Box::new(Some(Message::Playlist(
            PlaylistMessage::Create
        ))))))
    );
    assert_eq!(ctl.playlist_coll.len(), 1);
}

#[test]
fn save_confirm_only_for_dirty_selection() {
    let mut ctl = one_playlist();
    assert_eq!(playlist_save_confirm_then_resume(Message::Quit, &mut ctl), None);
    ctl.playlist_coll.playlists[0].dirty = true;
    assert_eq!(
        playlist_save_confirm_then_resume(Message::Quit, &mut ctl),
        Some(Message::Playlist(PlaylistMessage::AskToSave(Box::new(Some(Message::Quit)))))
    );
}

#[test]
fn add_tracks_appends_and_requests_metadata() {
    let mut ctl = PlaylistController::new();
    create_playlist(&mut ctl);
    assert_eq!(add_tracks(&mut ctl, Some(paths(&["x", "y"]))), None);
    let p = &ctl.playlist_coll.playlists[0];
    assert_eq!(track_paths(p), paths(&["x", "y"]));
    assert!(p.dirty);
    assert_eq!(
        ctl.playlist_coll.metadata_requests,
        vec![(0, paths(&["x"])), (0, paths(&["y"]))]
    );
}

#[test]
fn add_tracks_without_selection_or_choice_does_nothing() {
    let mut ctl = PlaylistController::new();
    add_tracks(&mut ctl, Some(paths(&["x"])));
    assert_eq!(ctl, PlaylistController::new());
    let mut ctl = one_playlist();
    add_dir(&mut ctl, None);
    assert_eq!(ctl, one_playlist());
}

#[test]
fn name_playlist_uses_last_input() {
    let mut app = App::new();
    create_playlist(&mut app.playlist_ctl);
    app.user_input.input_history = paths(&["old", "Rock"]);
    assert_eq!(name_playlist(0, &mut app), Some(Message::UserInput(UserInputMessage::Exit)));
    assert_eq!(app.playlist_ctl.playlist_coll.playlists[0].name, Some("Rock".to_string()));
    assert_eq!(app.user_input.input_history, paths(&["old"]));
}

#[test]
fn name_playlist_refuses_a_taken_name() {
    let mut app = App::new();
    create_playlist(&mut app.playlist_ctl);
    create_playlist(&mut app.playlist_ctl);
    app.playlist_ctl.playlist_coll.playlists[0].name = Some("Rock".to_string());
    app.user_input.input_history = paths(&["Rock"]);
    assert_eq!(name_playlist(1, &mut app), edit_msg("Playlist - Name Taken", 1));
    assert!(app.playlist_ctl.playlist_coll.playlists[1].name.is_none());
    assert!(app.user_input.input_history.is_empty());
    // without input, or for a missing playlist
    assert_eq!(name_playlist(1, &mut app), edit_msg("Playlist - Name Taken", 1));
    app.user_input.input_history = paths(&["Jazz"]);
    assert_eq!(name_playlist(7, &mut app), edit_msg("Playlist - Name Taken", 7));
}

#[test]
fn remove_selected_track_moves_focus_back_when_empty() {
    let mut ctl = PlaylistController::new();
    create_playlist(&mut ctl);
    add_tracks(&mut ctl, Some(paths(&["a", "b"])));
    ctl.tab_focus = PlaylistTabFocus::Tracks;
    ctl.playlist_coll.playlists[0].selected_track = Some(1);
    remove_selected_track(&mut ctl);
    assert_eq!(track_paths(&ctl.playlist_coll.playlists[0]), paths(&["a"]));
    assert_eq!(ctl.playlist_coll.playlists[0].selected_track, Some(0));
    assert_eq!(ctl.tab_focus, PlaylistTabFocus::Tracks);
    remove_selected_track(&mut ctl);
    assert!(ctl.playlist_coll.playlists[0].mini_tracks.is_empty());
    assert_eq!(ctl.playlist_coll.playlists[0].selected_track, None);
    assert_eq!(ctl.tab_focus, PlaylistTabFocus::Playlists);
}

#[test]
fn remove_selected_track_needs_track_focus() {
    let mut ctl = one_playlist();
    ctl.playlist_coll.playlists[0].selected_track = Some(0);
    remove_selected_track(&mut ctl);
    assert_eq!(ctl.playlist_coll.playlists[0].mini_tracks.len(), 3);
}

#[test]
fn enqueue_whole_playlist_or_selected_track() {
    let mut app = App::new();
    app.playlist_ctl = one_playlist();
    enqueue(&mut app);
    let q: Vec<String> = app.queue.tracks.iter().map(|t| t.path.clone()).collect();
    assert_eq!(q, paths(&["a", "b", "c"]));
    app.playlist_ctl.tab_focus = PlaylistTabFocus::Tracks;
    app.playlist_ctl.playlist_coll.playlists[0].selected_track = Some(1);
    enqueue(&mut app);
    let q: Vec<String> = app.queue.tracks.iter().map(|t| t.path.clone()).collect();
    assert_eq!(q, paths(&["a", "b", "c", "b"]));
}

#[test]
fn prepend_queue_keeps_queue_cursor_on_its_track() {
    let mut app = App::new();
    app.playlist_ctl = one_playlist();
    app.queue.enqueue_paths(paths(&["z"]));
    app.queue.selected_index = Some(0);
    prepend_queue(&mut app);
    let q: Vec<String> = app.queue.tracks.iter().map(|t| t.path.clone()).collect();
    assert_eq!(q, paths(&["a", "b", "c", "z"]));
    assert_eq!(app.queue.selected_index, Some(3));
}

#[test]
fn navigate_playlists_moves_and_stops_at_ends() {
    let mut ctl = PlaylistController::new();
    create_playlist(&mut ctl);
    create_playlist(&mut ctl);
    create_playlist(&mut ctl);
    assert_eq!(navigate_playlists(Direction::Down, &mut ctl), None);
    assert_eq!(ctl.selected_playlist, Some(2));
    navigate_playlists(Direction::Up, &mut ctl);
    navigate_playlists(Direction::Up, &mut ctl);
    navigate_playlists(Direction::Up, &mut ctl);
    assert_eq!(ctl.selected_playlist, Some(0));
    navigate_playlists(Direction::Left, &mut ctl);
    assert_eq!(ctl.selected_playlist, Some(0));
}

#[test]
fn navigate_playlists_asks_before_leaving_unsaved_changes() {
    let mut ctl = one_playlist();
    create_playlist(&mut ctl);
    add_tracks(&mut ctl, Some(paths(&["q"])));
    let r = navigate_playlists(Direction::Up, &mut ctl);
    assert_eq!(
        r,
        Some(Message::Playlist(PlaylistMessage::AskToSave(Box::new(Some(Message::Playlist(
            PlaylistMessage::Navigate(Direction::Up)
        ))))))
    );
    assert_eq!(ctl.selected_playlist, Some(1));
}

#[test]
fn navigate_tracks_in_arrange_mode_moves_the_track() {
    let mut ctl = one_playlist();
    ctl.tab_focus = PlaylistTabFocus::Tracks;
    navigate_tracks(Direction::Down, &mut ctl);
    assert_eq!(ctl.playlist_coll.playlists[0].selected_track, Some(0));
    ctl.arrange_mode = true;
    navigate_tracks(Direction::Down, &mut ctl);
    let p = &ctl.playlist_coll.playlists[0];
    assert_eq!(track_paths(p), paths(&["b", "a", "c"]));
    assert_eq!(p.selected_track, Some(1));
    assert!(p.dirty);
    navigate_tracks(Direction::Up, &mut ctl);
    let p = &ctl.playlist_coll.playlists[0];
    assert_eq!(track_paths(p), paths(&["a", "b", "c"]));
    assert_eq!(p.selected_track, Some(0));
}

#[test]
fn move_cursor_switches_halves() {
    let mut ctl = PlaylistController::new();
    assert_eq!(move_cursor(Direction::Right, &mut ctl), None);
    assert_eq!(ctl.tab_focus, PlaylistTabFocus::Playlists);
    let mut ctl = one_playlist();
    move_cursor(Direction::Right, &mut ctl);
    assert_eq!(ctl.tab_focus, PlaylistTabFocus::Tracks);
    move_cursor(Direction::Down, &mut ctl);
    assert_eq!(ctl.playlist_coll.playlists[0].selected_track, Some(0));
    move_cursor(Direction::Left, &mut ctl);
    assert_eq!(ctl.tab_focus, PlaylistTabFocus::Playlists);
    // right onto an empty playlist keeps the cursor on the playlists
    create_playlist(&mut ctl);
    move_cursor(Direction::Right, &mut ctl);
    assert_eq!(ctl.tab_focus, PlaylistTabFocus::Playlists);
}

#[test]
fn delete_playlist_asks_then_deletes_on_yes() {
    let mut ctl = one_playlist();
    create_playlist(&mut ctl);
    let mut answer = None;
    let r = delete_playlist(&mut answer, &mut ctl);
    assert_eq!(
        r,
        Some(Message::AskConfirmation(
            "Delete?".to_string(),
            Box::new(Message::Playlist(PlaylistMessage::Delete))
        ))
    );
    assert_eq!(ctl.playlist_coll.len(), 2);
    answer = Some(Response::No);
    assert_eq!(delete_playlist(&mut answer, &mut ctl), None);
    assert_eq!(answer, None);
    assert_eq!(ctl.playlist_coll.len(), 2);
    answer = Some(Response::Yes);
    assert_eq!(delete_playlist(&mut answer, &mut ctl), None);
    assert_eq!(ctl.playlist_coll.len(), 1);
    assert_eq!(ctl.selected_playlist, Some(0));
}

#[test]
fn delete_playlist_without_selection_keeps_the_answer() {
    let mut ctl = PlaylistController::new();
    let mut answer = Some(Response::Yes);
    assert_eq!(delete_playlist(&mut answer, &mut ctl), None);
    assert_eq!(answer, Some(Response::Yes));
}

#[test]
fn rename_playlist_targets_index_or_selection() {
    let mut ctl = one_playlist();
    assert_eq!(rename_playlist("Rename Playlist", None, &mut ctl), edit_msg("Rename Playlist", 0));
    assert_eq!(rename_playlist("Name", Some(0), &mut ctl), edit_msg("Name", 0));
    assert_eq!(rename_playlist("Name", Some(4), &mut ctl), None);
    let mut empty = PlaylistController::new();
    assert_eq!(rename_playlist("Name", None, &mut empty), None);
}

#[test]
fn save_selected_playlist_marks_saved() {
    let mut ctl = PlaylistController::new();
    create_playlist(&mut ctl);
    add_tracks(&mut ctl, Some(paths(&["a"])));
    let r = save_selected_playlist(&mut ctl);
    assert_eq!(r, Some(Message::DisplayInfoMsg("Saved successfully".to_string())));
    assert!(!ctl.playlist_coll.playlists[0].dirty);
    assert_eq!(ctl.playlist_coll.playlists[0].saved_paths, paths(&["a"]));
    assert_eq!(playlist_save_confirm_then_resume(Message::Quit, &mut ctl), None);
}

#[test]
fn toggle_arrange_twice_is_identity() {
    let mut ctl = one_playlist();
    toggle_arrange(&mut ctl);
    assert!(ctl.arrange_mode);
    toggle_arrange(&mut ctl);
    assert_eq!(ctl, one_playlist());
}

#[test]
fn ask_to_save_asks_then_saves_on_yes() {
    let mut ctl = one_playlist();
    add_tracks(&mut ctl, Some(paths(&["d"])));
    let mut answer = None;
    let r = ask_to_save(&mut answer, Some(Message::Quit), &mut ctl);
    assert_eq!(
        r,
        Some(Message::AskConfirmation(
            "Save? (discard if not)".to_string(),
            Box::new(Message::Playlist(PlaylistMessage::AskToSave(Box::new(Some(Message::Quit)))))
        ))
    );
    answer = Some(Response::Yes);
    assert_eq!(ask_to_save(&mut answer, Some(Message::Quit), &mut ctl), Some(Message::Quit));
    assert_eq!(answer, None);
    assert!(!ctl.playlist_coll.playlists[0].dirty);
    assert_eq!(ctl.playlist_coll.playlists[0].saved_paths, paths(&["a", "b", "c", "d"]));
}

#[test]
fn ask_to_save_discards_on_no() {
    let mut ctl = one_playlist();
    add_tracks(&mut ctl, Some(paths(&["d"])));
    let requests = ctl.playlist_coll.metadata_requests.len();
    let mut answer = Some(Response::No);
    assert_eq!(ask_to_save(&mut answer, None, &mut ctl), None);
    let p = &ctl.playlist_coll.playlists[0];
    assert_eq!(track_paths(p), paths(&["a", "b", "c"]));
    assert!(!p.dirty);
    assert_eq!(ctl.playlist_coll.metadata_requests.len(), requests + 1);
    assert_eq!(ctl.playlist_coll.metadata_requests[requests], (0, paths(&["a", "b", "c"])));
}

#[test]
fn ask_to_save_on_clean_playlist_does_nothing() {
    let mut ctl = one_playlist();
    let mut answer = Some(Response::Yes);
    assert_eq!(ask_to_save(&mut answer, Some(Message::Quit), &mut ctl), None);
    assert_eq!(answer, Some(Response::Yes));
}

#[test]
fn scroll_to_ends_of_playlists_and_tracks() {
    let mut ctl = one_playlist();
    create_playlist(&mut ctl);
    scroll_to_start(&mut ctl);
    assert_eq!(ctl.selected_playlist, Some(0));
    scroll_to_end(&mut ctl);
    assert_eq!(ctl.selected_playlist, Some(1));
    scroll_to_start(&mut ctl);
    ctl.tab_focus = PlaylistTabFocus::Tracks;
    scroll_to_end(&mut ctl);
    assert_eq!(ctl.playlist_coll.playlists[0].selected_track, Some(2));
    scroll_to_start(&mut ctl);
    assert_eq!(ctl.playlist_coll.playlists[0].selected_track, Some(0));
}

fn meta(t: &str) -> MiniMetadata {
    MiniMetadata { title: t.to_string(), artist: "x".to_string(), duration_secs: 60 }
}

#[test]
fn append_metadata_fills_first_track_without_it() {
    let mut ctl = one_playlist();
    let mut queue = TrackQueue::new();
    append_metadata(0, meta("one"), &mut ctl, &mut queue);
    append_metadata(0, meta("two"), &mut ctl, &mut queue);
    let p = &ctl.playlist_coll.playlists[0];
    assert_eq!(p.mini_tracks[0].metadata, Some(meta("one")));
    assert_eq!(p.mini_tracks[1].metadata, Some(meta("two")));
    assert_eq!(p.mini_tracks[2].metadata, None);
    assert_eq!(track_paths(p), paths(&["a", "b", "c"]));
    // an unknown playlist changes nothing
    let before = one_playlist();
    let mut ctl = one_playlist();
    append_metadata(5, meta("z"), &mut ctl, &mut queue);
    assert_eq!(ctl, before);
    assert!(queue.tracks.is_empty());
}

#[test]
fn loaded_metadata_reaches_shared_copies() {
    let mut app = App::new();
    app.playlist_ctl = one_playlist();
    enqueue(&mut app);
    // the queue now shares the playlist's tracks
    append_metadata(0, meta("one"), &mut app.playlist_ctl, &mut app.queue);
    assert_eq!(app.queue.tracks[0].metadata, Some(meta("one")));
    assert_eq!(app.queue.tracks[1].metadata, None);
    // a track with the same path but made anew is another track
    app.queue.enqueue_paths(paths(&["b"]));
    append_metadata(0, meta("two"), &mut app.playlist_ctl, &mut app.queue);
    assert_eq!(app.queue.tracks[1].metadata, Some(meta("two")));
    assert_eq!(app.queue.tracks[3].path, "b");
    assert_eq!(app.queue.tracks[3].metadata, None);
    assert_eq!(app.playlist_ctl.playlist_coll.playlists[0].mini_tracks[1].metadata, Some(meta("two")));
}

#[test]
fn reloaded_tracks_are_no_longer_shared() {
    let mut app = App::new();
    app.playlist_ctl = one_playlist();
    enqueue(&mut app);
    add_tracks(&mut app.playlist_ctl, Some(paths(&["d"])));
    let mut answer = Some(Response::No);
    ask_to_save(&mut answer, None, &mut app.playlist_ctl);
    append_metadata(0, meta("one"), &mut app.playlist_ctl, &mut app.queue);
    assert_eq!(app.playlist_ctl.playlist_coll.playlists[0].mini_tracks[0].metadata, Some(meta("one")));
    assert_eq!(app.queue.tracks[0].metadata, None);
}

#[test]
fn update_playlist_dispatches() {
    let mut app = App::new();
    assert_eq!(update_playlist(&mut app, PlaylistMessage::Create), edit_msg("Playlist", 0));
    assert_eq!(update_playlist(&mut app, PlaylistMessage::Rename), edit_msg("Rename Playlist", 0));
    assert_eq!(update_playlist(&mut app, PlaylistMessage::ToggleArrangeTracks), None);
    assert!(app.playlist_ctl.arrange_mode);
    add_tracks(&mut app.playlist_ctl, Some(paths(&["a"])));
    app.user_confirmation.response = Some(Response::Yes);
    let r = update_playlist(&mut app, PlaylistMessage::AskToSave(Box::new(Some(Message::ShowHelp))));
    assert_eq!(r, Some(Message::ShowHelp));
    assert_eq!(app.user_confirmation.response, None);
    update_playlist(&mut app, PlaylistMessage::Enqueue);
    assert_eq!(app.queue.tracks, app.playlist_ctl.playlist_coll.playlists[0].mini_tracks);
    assert_eq!(app.queue.tracks[0].path, "a");
}

#[test]
fn create_then_delete_gives_back_the_playlists() {
    let mut ctl = one_playlist();
    create_playlist(&mut ctl);
    let mut answer = Some(Response::Yes);
    delete_playlist(&mut answer, &mut ctl);
    assert_eq!(ctl.playlist_coll, one_playlist().playlist_coll);
    assert_eq!(ctl.selected_playlist, Some(0));
}

#[test]
fn added_tracks_are_new_tracks() {
    let mut ctl = one_playlist();
    add_tracks(&mut ctl, Some(paths(&["a", "d"])));
    let ids: Vec<_> = ctl.playlist_coll.playlists[0].mini_tracks.iter().map(|t| t.id).collect();
    for i in 0..ids.len() {
        for j in 0..ids.len() {
            if i != j {
                assert_ne!(ids[i], ids[j]);
            }
        }
    }
    assert_eq!(ctl.playlist_coll.next_serial, 5);
}

#[test]
fn add_messages_ask_for_a_dialog_when_a_playlist_is_selected() {
    let mut app = App::new();
    assert_eq!(update_playlist(&mut app, PlaylistMessage::AddTracks), None);
    assert!(app.effects.is_empty());
    create_playlist(&mut app.playlist_ctl);
    assert_eq!(update_playlist(&mut app, PlaylistMessage::AddTracks), None);
    assert_eq!(update_playlist(&mut app, PlaylistMessage::AddDir), None);
    assert_eq!(app.effects, vec![Effect::ChooseTracksForPlaylist, Effect::ChooseDirsForPlaylist]);
    assert!(app.playlist_ctl.playlist_coll.playlists[0].mini_tracks.is_empty());
}
