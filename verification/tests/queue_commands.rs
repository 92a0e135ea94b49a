use musicbox::controller::PlaylistTabFocus;
use musicbox::message::{InputTarget, Message, QueueMessage, UserInputMessage};
use musicbox::queue::{QueueError, TrackQueue};
use musicbox::queue_cmd::{
    clear, move_queue_down, move_queue_up, queue_dirs_with_file_dialog,
    queue_files_with_file_dialog, queue_mini_track, queue_paths, remove_selected,
    save_current_as_playlist, save_full_as_playlist, scroll_to_end, scroll_to_start, shuffle,
    skip_to_selected, toggle_arrange, update_queue,
};
use musicbox::state::{App, Effect, Player};
use musicbox::track::{MiniTrack, TrackId, TrackOrigin};

fn paths(v: &[&str]) -> Vec<String> {
    v.iter().map(|s| s.to_string()).collect()
}

fn queue_paths_of(q: &TrackQueue) -> Vec<String> {
    q.tracks.iter().map(|t| t.path.clone()).collect()
}

fn queue_of(v: &[&str]) -> TrackQueue {
    let mut q = TrackQueue::new();
    q.enqueue_paths(paths(v));
    q
}

#[test]
fn queue_files_plays_first_file_at_once_when_idle() {
    let mut q = TrackQueue::new();
    let mut player = Player { current: None, previous: Vec::new() };
    assert_eq!(queue_files_with_file_dialog(&mut q, &mut player, Some(paths(&["a", "b", "c"]))), None);
    assert_eq!(queue_paths_of(&q), paths(&["a"]));
    assert_eq!(q.to_process, vec![paths(&["b", "c"])]);
}

#[test]
fn queue_files_hands_all_to_worker_when_busy() {
    let mut q = queue_of(&["x"]);
    let mut player = Player { current: None, previous: Vec::new() };
    queue_files_with_file_dialog(&mut q, &mut player, Some(paths(&["a", "b"])));
    assert_eq!(queue_paths_of(&q), paths(&["x"]));
    assert_eq!(q.to_process, vec![paths(&["a", "b"])]);
    let mut q = TrackQueue::new();
    let mut player = Player { current: Some("now".to_string()), previous: Vec::new() };
    queue_files_with_file_dialog(&mut q, &mut player, Some(paths(&["a"])));
    assert!(q.tracks.is_empty());
    assert_eq!(q.to_process, vec![paths(&["a"])]);
    // an empty or cancelled choice changes nothing
    queue_files_with_file_dialog(&mut q, &mut player, Some(Vec::new()));
    queue_files_with_file_dialog(&mut q, &mut player, None);
    assert_eq!(q.to_process.len(), 1);
}

#[test]
fn queue_dirs_sends_one_list_per_directory() {
    let mut q = TrackQueue::new();
    queue_dirs_with_file_dialog(&mut q, Some(vec![paths(&["a", "b"]), paths(&["c"])]));
    assert_eq!(q.to_process, vec![paths(&["a", "b"]), paths(&["c"])]);
    assert!(q.tracks.is_empty());
}

#[test]
fn queue_paths_makes_first_track_now() {
    let mut q = queue_of(&["x"]);
    queue_paths(paths(&["notes.txt", "a.mp3", "cover.jpg", "b.FLAC", ".ogg"]), &mut q);
    assert_eq!(queue_paths_of(&q), paths(&["x", "a.mp3"]));
    assert_eq!(q.to_process, vec![paths(&["b.FLAC"])]);
    // only paths of audio files count
    queue_paths(paths(&["readme", "dir/.mp3"]), &mut q);
    assert_eq!(q.to_process.len(), 1);
    queue_paths(Vec::new(), &mut q);
    assert_eq!(q.to_process.len(), 1);
}

#[test]
fn queue_mini_track_appends() {
    let mut q = queue_of(&["x"]);
    let id = TrackId { origin: TrackOrigin::Playlists, serial: 0 };
    queue_mini_track(MiniTrack::new(id, "y".to_string()), &mut q);
    assert_eq!(queue_paths_of(&q), paths(&["x", "y"]));
    // it is a new track of the queue
    assert_eq!(q.tracks[1].id, TrackId { origin: TrackOrigin::Queue, serial: 1 });
    assert_ne!(q.tracks[0].id, q.tracks[1].id);
}

#[test]
fn move_selected_errors() {
    let mut q = TrackQueue::new();
    assert_eq!(q.move_selected_up(), Err(QueueError::Empty));
    assert_eq!(q.move_selected_down(), Err(QueueError::Empty));
    let mut q = queue_of(&["a", "b"]);
    assert_eq!(q.move_selected_down(), Ok(()));
    assert_eq!(q.selected_index, Some(0));
    assert_eq!(q.move_selected_up(), Err(QueueError::AtTop));
    assert_eq!(q.move_selected_down(), Ok(()));
    assert_eq!(q.move_selected_down(), Err(QueueError::AtBottom));
    assert_eq!(q.selected_index, Some(1));
}

#[test]
fn move_queue_in_arrange_mode_round_trips() {
    let mut q = queue_of(&["a", "b", "c"]);
    q.selected_index = Some(0);
    toggle_arrange(&mut q);
    move_queue_down(&mut q);
    assert_eq!(queue_paths_of(&q), paths(&["b", "a", "c"]));
    assert_eq!(q.selected_index, Some(1));
    move_queue_up(&mut q);
    assert_eq!(queue_paths_of(&q), paths(&["a", "b", "c"]));
    assert_eq!(q.selected_index, Some(0));
    toggle_arrange(&mut q);
    move_queue_down(&mut q);
    assert_eq!(queue_paths_of(&q), paths(&["a", "b", "c"]));
    assert_eq!(q.selected_index, Some(1));
}

#[test]
fn shuffle_keeps_the_tracks_and_changes_the_order() {
    let names: Vec<String> = (0..40).map(|i| format!("t{i:02}")).collect();
    let mut q = TrackQueue::new();
    q.enqueue_paths(names.clone());
    q.selected_index = Some(3);
    shuffle(&mut q);
    let mut after = queue_paths_of(&q);
    assert_ne!(after, names);
    after.sort();
    assert_eq!(after, names);
    assert_eq!(q.selected_index, Some(3));
}

#[test]
fn clear_remove_scroll_skip() {
    let mut q = queue_of(&["a", "b", "c", "d"]);
    scroll_to_end(&mut q);
    assert_eq!(q.selected_index, Some(3));
    remove_selected(&mut q);
    assert_eq!(queue_paths_of(&q), paths(&["a", "b", "c"]));
    assert_eq!(q.selected_index, Some(2));
    scroll_to_start(&mut q);
    assert_eq!(q.selected_index, Some(0));
    clear(&mut q);
    assert!(q.tracks.is_empty());
    assert_eq!(q.selected_index, None);
    scroll_to_end(&mut q);
    assert_eq!(q.selected_index, None);
}

fn app_with_queue() -> App {
    let mut app = App::new();
    app.queue.enqueue_paths(paths(&["q1", "q2"]));
    app.player.previous = paths(&["p1"]);
    app
}

#[test]
fn save_current_as_playlist_holds_current_then_queue() {
    let mut app = app_with_queue();
    app.player.current = Some("now".to_string());
    let r = save_current_as_playlist(&mut app);
    assert_eq!(
        r,
        Some(Message::UserInput(UserInputMessage::EnterEditMode(
            "Name Your Playlist".to_string(),
            InputTarget::PlaylistName(0)
        )))
    );
    let p = &app.playlist_ctl.playlist_coll.playlists[0];
    let got: Vec<String> = p.mini_tracks.iter().map(|t| t.path.clone()).collect();
    assert_eq!(got, paths(&["now", "q1", "q2"]));
    assert_eq!(p.selected_track, Some(0));
    assert!(!p.dirty);
    assert_eq!(app.playlist_ctl.selected_playlist, Some(0));
}

#[test]
fn save_full_as_playlist_holds_played_then_current_then_queue() {
    let mut app = app_with_queue();
    app.player.current = Some("now".to_string());
    save_full_as_playlist(&mut app);
    let p = &app.playlist_ctl.playlist_coll.playlists[0];
    let got: Vec<String> = p.mini_tracks.iter().map(|t| t.path.clone()).collect();
    assert_eq!(got, paths(&["p1", "now", "q1", "q2"]));
    // without a current track, no cursor is set
    let mut app = app_with_queue();
    save_full_as_playlist(&mut app);
    let p = &app.playlist_ctl.playlist_coll.playlists[0];
    let got: Vec<String> = p.mini_tracks.iter().map(|t| t.path.clone()).collect();
    assert_eq!(got, paths(&["p1", "q1", "q2"]));
    assert_eq!(p.selected_track, None);
}

#[test]
fn save_queue_as_playlist_needs_a_queue() {
    let mut app = App::new();
    assert_eq!(save_current_as_playlist(&mut app), None);
    assert_eq!(save_full_as_playlist(&mut app), None);
    assert_eq!(app, App::new());
}

#[test]
fn update_queue_dispatches() {
    let mut app = app_with_queue();
    assert_eq!(update_queue(&mut app, QueueMessage::ScrollToEnd), None);
    assert_eq!(app.queue.selected_index, Some(1));
    assert_eq!(update_queue(&mut app, QueueMessage::SkipToSelected), None);
    assert_eq!(queue_paths_of(&app.queue), paths(&["q2"]));
    assert_eq!(app.effects, vec![Effect::PlayNextTrack]);
    update_queue(&mut app, QueueMessage::QueuePaths(paths(&["n1.mp3", "n2.wav", "n3.doc"])));
    assert_eq!(queue_paths_of(&app.queue), paths(&["q2", "n1.mp3"]));
    assert_eq!(app.queue.to_process, vec![paths(&["n2.wav"])]);
    update_queue(&mut app, QueueMessage::Clear);
    assert!(app.queue.tracks.is_empty());
    assert_eq!(update_queue(&mut app, QueueMessage::SaveCurrentAsPlaylist), None);
    assert_eq!(app.playlist_ctl.tab_focus, PlaylistTabFocus::Playlists);
}

#[test]
fn saved_playlist_shares_the_queue_tracks() {
    let mut app = app_with_queue();
    app.player.current = Some("now".to_string());
    save_full_as_playlist(&mut app);
    let p = &app.playlist_ctl.playlist_coll.playlists[0];
    assert_eq!(p.mini_tracks[2], app.queue.tracks[0]);
    assert_eq!(p.mini_tracks[3], app.queue.tracks[1]);
    assert_eq!(p.mini_tracks[0].id.origin, TrackOrigin::Playlists);
    assert_ne!(p.mini_tracks[0].id, p.mini_tracks[1].id);
}

#[test]
fn skip_to_selected_drops_earlier_tracks_and_asks_to_play() {
    let mut app = App::new();
    app.queue.enqueue_paths(paths(&["a", "b", "c"]));
    app.queue.selected_index = Some(1);
    assert_eq!(skip_to_selected(&mut app), None);
    assert_eq!(queue_paths_of(&app.queue), paths(&["b", "c"]));
    assert_eq!(app.queue.selected_index, Some(0));
    assert_eq!(app.effects, vec![Effect::PlayNextTrack]);
}

#[test]
fn dialog_messages_ask_for_the_dialog() {
    let mut app = App::new();
    assert_eq!(update_queue(&mut app, QueueMessage::QueueFilesWithFileDialog), None);
    assert_eq!(update_queue(&mut app, QueueMessage::QueueDirsWithFileDialog), None);
    assert_eq!(app.effects, vec![Effect::ChooseFilesForQueue, Effect::ChooseDirsForQueue]);
    assert!(app.queue.tracks.is_empty());
}
