use vstd::prelude::*;

use crate::controller::{PlaylistTabFocus, deleted_selected, saved_selected, changed_only_at, created_playlist, lemma_changed_only_at_keeps_wf, name_in_use, renamed, PlaylistController};
use crate::message::{Response, is_confirmation_msg, ask_to_save_msg, is_edit_name_msg, InputTarget, Message, PlaylistMessage, UserInputMessage};
use crate::message::Direction;
use crate::playlist::{Playlist, paths_of, reloaded, next_selection, prev_selection, removed_selected, stepped_down, stepped_up, tracks_from_paths};
use crate::laws::{cursor_moves_as_pressed, scrolled_to, took_from_view};
use crate::track::{advance, set_metadata, with_metadata, MiniMetadata, MiniTrack, TrackId, TrackOrigin};
use crate::queue::TrackQueue;
use crate::state::{effect_requested, App, Effect};

verus! {

broadcast use vstd::string::to_string_from_display_ensures_for_str;

/// Where the selected playlist has unsaved changes, answers the message that
/// asks whether to save it and then goes on with `to_resume`; else `None`.
pub fn playlist_save_confirm_then_resume(
    to_resume: Message,
    playlist_ctl: &mut PlaylistController,
) -> (r: Option<Message>)
    requires
        old(playlist_ctl).wf(),
    ensures
        *final(playlist_ctl) == *old(playlist_ctl),
        r == (if old(playlist_ctl).selected_is_dirty() {
            Some(ask_to_save_msg(Some(to_resume)))
        } else {
            None
        }),
{
    if playlist_ctl.selected_is_dirty_exec() {
        return Some(Message::Playlist(PlaylistMessage::AskToSave(Box::new(Some(to_resume)))));
    }
    None
}

/// What `create_playlist` does: where the selected playlist has unsaved
/// changes, nothing but ask whether to save it first; else add a new
/// playlist, select it, and open the line editor to name it.
pub open spec fn create_playlist_post(old: PlaylistController, new: PlaylistController, r: Option<Message>) -> bool {
    if old.selected_is_dirty() {
        new == old && r == Some(ask_to_save_msg(Some(Message::Playlist(PlaylistMessage::Create))))
    } else {
        created_playlist(old, new) && is_edit_name_msg(r, "Playlist"@, old.playlists().len() as usize)
    }
}

/// Adds a new playlist and asks for its name, unless the selected playlist
/// has unsaved changes, in which case it asks whether to save them first.
pub fn create_playlist(playlist_ctl: &mut PlaylistController) -> (r: Option<Message>)
    requires
        old(playlist_ctl).wf(),
    ensures
        final(playlist_ctl).wf(),
        create_playlist_post(*old(playlist_ctl), *final(playlist_ctl), r),
{
    if let Some(to_resume) = playlist_save_confirm_then_resume(
        Message::Playlist(PlaylistMessage::Create),
        playlist_ctl,
    ) {
        return Some(to_resume);
    }
    let index = playlist_ctl.create_playlist();
    Some(Message::UserInput(UserInputMessage::EnterEditMode(
        "Playlist".to_string(),
        InputTarget::PlaylistName(index),
    )))
}

/// The parts of `new` that are not the playlist view are those of `old`.
pub open spec fn same_outside_playlists(old: App, new: App) -> bool {
    &&& new.queue == old.queue
    &&& new.player == old.player
    &&& new.user_input == old.user_input
    &&& new.user_confirmation == old.user_confirmation
    &&& new.input_mode == old.input_mode
    &&& new.focused_view_area == old.focused_view_area
    &&& new.effects == old.effects
}

/// What `name_playlist` does: it takes the last line the user entered; where
/// there was one, there is a playlist at `index`, and no playlist has that
/// name yet, the playlist gets it and the editor closes; else the editor
/// opens again to say that the name is taken.
pub open spec fn name_playlist_post(index: usize, old: App, new: App, r: Option<Message>) -> bool {
    let history = old.user_input.input_history@;
    let ok = history.len() > 0 && index < old.playlist_ctl.playlists().len()
        && !name_in_use(old.playlist_ctl.playlists(), history.last()@);
    &&& new.user_input.input_history@ == (if history.len() > 0 { history.drop_last() } else { history })
    &&& new.queue == old.queue
    &&& new.player == old.player
    &&& new.user_confirmation == old.user_confirmation
    &&& new.input_mode == old.input_mode
    &&& new.focused_view_area == old.focused_view_area
    &&& new.effects == old.effects
    &&& if ok {
        &&& changed_only_at(old.playlist_ctl.playlists(), new.playlist_ctl.playlists(), index as int)
        &&& renamed(
            old.playlist_ctl.playlists()[index as int],
            new.playlist_ctl.playlists()[index as int],
            history.last(),
        )
        &&& new.playlist_ctl.playlist_coll.metadata_requests == old.playlist_ctl.playlist_coll.metadata_requests
        &&& new.playlist_ctl.playlist_coll.next_serial == old.playlist_ctl.playlist_coll.next_serial
        &&& new.playlist_ctl.selected_playlist == old.playlist_ctl.selected_playlist
        &&& new.playlist_ctl.tab_focus == old.playlist_ctl.tab_focus
        &&& new.playlist_ctl.arrange_mode == old.playlist_ctl.arrange_mode
        &&& r == Some(Message::UserInput(UserInputMessage::Exit))
    } else {
        &&& new.playlist_ctl == old.playlist_ctl
        &&& is_edit_name_msg(r, "Playlist - Name Taken"@, index)
    }
}

/// Names the playlist at `index` with the line the user entered last, unless
/// another playlist has that name already.
pub fn name_playlist(index: usize, app: &mut App) -> (r: Option<Message>)
    requires
        old(app).wf(),
    ensures
        final(app).wf(),
        name_playlist_post(index, *old(app), *final(app), r),
{
    if let Some(name) = app.user_input.input_history.pop() {
        if index < app.playlist_ctl.playlist_coll.len() && !app.playlist_ctl.name_taken(&name) {
            app.playlist_ctl.rename_playlist_at(index, name);
            return Some(Message::UserInput(UserInputMessage::Exit));
        }
    }
    Some(Message::UserInput(UserInputMessage::EnterEditMode(
        "Playlist - Name Taken".to_string(),
        InputTarget::PlaylistName(index),
    )))
}

/// `new` is `old` with new tracks for `paths` appended to the playlist at
/// `i`, and a request to the metadata loader for each of them.
pub open spec fn added_paths(old: PlaylistController, new: PlaylistController, i: int, paths: Seq<String>) -> bool {
    let before = old.playlists()[i];
    let after = new.playlists()[i];
    let reqs = old.playlist_coll.metadata_requests@;
    let new_reqs = new.playlist_coll.metadata_requests@;
    &&& changed_only_at(old.playlists(), new.playlists(), i)
    &&& after.mini_tracks@ == before.mini_tracks@ + tracks_from_paths(
        paths,
        TrackOrigin::Playlists,
        old.playlist_coll.next_serial,
    )
    &&& new.playlist_coll.next_serial == advance(old.playlist_coll.next_serial, paths.len() as int)
    &&& after.dirty == (before.dirty || paths.len() > 0)
    &&& after.name == before.name
    &&& after.selected_track == before.selected_track
    &&& after.saved_paths == before.saved_paths
    &&& new_reqs.len() == reqs.len() + paths.len()
    &&& new_reqs.take(reqs.len() as int) == reqs
    &&& forall|k: int| 0 <= k < paths.len() ==> (#[trigger] new_reqs[reqs.len() + k]).0 == i
        && new_reqs[reqs.len() + k].1@ == seq![paths[k]]
    &&& new.selected_playlist == old.selected_playlist
    &&& new.tab_focus == old.tab_focus
    &&& new.arrange_mode == old.arrange_mode
}

/// Appends tracks for `paths` to the playlist at `index`.
fn add_paths(playlist_ctl: &mut PlaylistController, paths: Vec<String>, index: usize)
    requires
        old(playlist_ctl).wf(),
        index < old(playlist_ctl).playlists().len(),
    ensures
        final(playlist_ctl).wf(),
        added_paths(*old(playlist_ctl), *final(playlist_ctl), index as int, paths@),
{
    let n = paths.len();
    let ghost reqs = old(playlist_ctl).playlist_coll.metadata_requests@;
    proof {
        let ps = old(playlist_ctl).playlists();
        assert(ps == ps.update(index as int, ps[index as int]));
        assert(paths@.take(0) =~= Seq::<String>::empty());
        assert(ps[index as int].mini_tracks@ + tracks_from_paths(
            paths@.take(0),
            TrackOrigin::Playlists,
            old(playlist_ctl).playlist_coll.next_serial,
        ) =~= ps[index as int].mini_tracks@);
        assert(reqs.take(reqs.len() as int) =~= reqs);
    }
    for k in 0..n
        invariant
            n == paths@.len(),
            index < old(playlist_ctl).playlists().len(),
            reqs == old(playlist_ctl).playlist_coll.metadata_requests@,
            playlist_ctl.wf(),
            added_paths(*old(playlist_ctl), *playlist_ctl, index as int, paths@.take(k as int)),
    {
        let ghost before = *playlist_ctl;
        playlist_ctl.playlist_coll.add_tracks_to_playlist(paths[k].clone(), index);
        assert(paths@.take(k + 1) == paths@.take(k as int).push(paths@[k as int]));
        proof {
            let ps0 = old(playlist_ctl).playlists();
            let ps1 = playlist_ctl.playlists();
            assert(ps1 =~= ps0.update(index as int, ps1[index as int]));
            assert(ps1[index as int].mini_tracks@ =~= ps0[index as int].mini_tracks@ + tracks_from_paths(
                paths@.take(k + 1),
                TrackOrigin::Playlists,
                old(playlist_ctl).playlist_coll.next_serial,
            ));
        }
        assert(playlist_ctl.playlist_coll.metadata_requests@.take(reqs.len() as int) =~= reqs) by {
            assert forall|j: int| 0 <= j < reqs.len() implies playlist_ctl.playlist_coll.metadata_requests@[j] == reqs[j] by {
                assert(playlist_ctl.playlist_coll.metadata_requests@[j] == before.playlist_coll.metadata_requests@[j]);
                assert(before.playlist_coll.metadata_requests@.take(reqs.len() as int)[j] == reqs[j]);
            }
        }
        assert forall|j: int| 0 <= j < k + 1 implies (#[trigger] playlist_ctl.playlist_coll.metadata_requests@[reqs.len() + j]).0 == index
            && playlist_ctl.playlist_coll.metadata_requests@[reqs.len() + j].1@ == seq![paths@.take(k + 1)[j]] by {
            if j < k {
                assert(playlist_ctl.playlist_coll.metadata_requests@[reqs.len() + j] == before.playlist_coll.metadata_requests@[reqs.len() + j]);
            }
        }
    }
    assert(paths@.take(n as int) == paths@);
}

/// What `add_tracks` and `add_dir` do: where a playlist is selected and
/// files were chosen, append tracks for them to the selected playlist.
pub open spec fn add_tracks_post(old: PlaylistController, chosen: Option<Vec<String>>, new: PlaylistController) -> bool {
    match (old.selected_playlist, chosen) {
        (Some(i), Some(paths)) => added_paths(old, new, i as int, paths@),
        _ => new == old,
    }
}

/// Appends the chosen audio files to the selected playlist. `chosen` is the
/// answer to the effect `ChooseTracksForPlaylist`: the chosen paths that name
/// files, or `None` when the dialog was cancelled.
pub fn add_tracks(playlist_ctl: &mut PlaylistController, chosen: Option<Vec<String>>) -> (r: Option<Message>)
    requires
        old(playlist_ctl).wf(),
    ensures
        final(playlist_ctl).wf(),
        add_tracks_post(*old(playlist_ctl), chosen, *final(playlist_ctl)),
        r is None,
{
    if let Some(selected) = playlist_ctl.selected_playlist {
        if let Some(paths) = chosen {
            add_paths(playlist_ctl, paths, selected);
        }
    }
    None
}

/// Appends the audio files found in the chosen directories to the selected
/// playlist. `chosen` is the answer to the effect `ChooseDirsForPlaylist`:
/// in order, the paths of the audio files found in each chosen directory that
/// could be read, or `None` when the dialog was cancelled.
pub fn add_dir(playlist_ctl: &mut PlaylistController, chosen: Option<Vec<String>>) -> (r: Option<Message>)
    requires
        old(playlist_ctl).wf(),
    ensures
        final(playlist_ctl).wf(),
        add_tracks_post(*old(playlist_ctl), chosen, *final(playlist_ctl)),
        r is None,
{
    add_tracks(playlist_ctl, chosen)
}

/// `new` is `old` with at most the playlist at `i` changed; the requests, the
/// selection and arrange mode stay.
pub open spec fn only_playlist_changed(old: PlaylistController, new: PlaylistController, i: int) -> bool {
    &&& changed_only_at(old.playlists(), new.playlists(), i)
    &&& new.playlist_coll.metadata_requests == old.playlist_coll.metadata_requests
    &&& new.playlist_coll.next_serial == old.playlist_coll.next_serial
    &&& new.selected_playlist == old.selected_playlist
    &&& new.arrange_mode == old.arrange_mode
}

/// What `remove_selected_track` does: with the cursor on the tracks of the
/// selected playlist, remove the selected track; when no track is left, the
/// cursor goes back to the list of playlists.
pub open spec fn remove_selected_track_post(old: PlaylistController, new: PlaylistController) -> bool {
    if old.tab_focus == PlaylistTabFocus::Tracks && old.selected_playlist is Some {
        let i = old.selected_playlist.unwrap() as int;
        &&& only_playlist_changed(old, new, i)
        &&& removed_selected(old.playlists()[i], new.playlists()[i])
        &&& new.tab_focus == (if new.playlists()[i].mini_tracks@.len() == 0 {
            PlaylistTabFocus::Playlists
        } else {
            PlaylistTabFocus::Tracks
        })
    } else {
        new == old
    }
}

/// Removes the selected track of the selected playlist, when the cursor is
/// on the tracks.
pub fn remove_selected_track(playlist_ctl: &mut PlaylistController) -> (r: Option<Message>)
    requires
        old(playlist_ctl).wf(),
    ensures
        final(playlist_ctl).wf(),
        remove_selected_track_post(*old(playlist_ctl), *final(playlist_ctl)),
        r is None,
{
    if let PlaylistTabFocus::Tracks = playlist_ctl.tab_focus {
        if let Some(i) = playlist_ctl.selected_playlist {
            playlist_ctl.playlist_coll.playlists[i].remove_selected();
            proof {
                lemma_changed_only_at_keeps_wf(*old(playlist_ctl), *playlist_ctl, i as int);
            }
            if playlist_ctl.playlist_coll.playlists[i].is_empty() {
                playlist_ctl.tab_focus = PlaylistTabFocus::Playlists;
            }
        }
    }
    None
}

/// The tracks that enqueueing takes from the playlist view: with the cursor
/// on the playlists, every track of the selected playlist; with the cursor on
/// the tracks, the selected track.
pub open spec fn tracks_to_enqueue(ctl: PlaylistController) -> Seq<MiniTrack> {
    match ctl.selected() {
        Some(p) => match ctl.tab_focus {
            PlaylistTabFocus::Playlists => p.mini_tracks@,
            PlaylistTabFocus::Tracks => match p.selected_track {
                Some(j) => seq![p.mini_tracks@[j as int]],
                None => Seq::empty(),
            },
        },
        None => Seq::empty(),
    }
}

/// The parts of `new` that are not the queue's tracks and cursor are those of `old`.
pub open spec fn same_outside_queue(old: App, new: App) -> bool {
    &&& new.playlist_ctl == old.playlist_ctl
    &&& new.queue.arrange_mode == old.queue.arrange_mode
    &&& new.queue.to_process == old.queue.to_process
    &&& new.queue.next_serial == old.queue.next_serial
    &&& new.player == old.player
    &&& new.user_input == old.user_input
    &&& new.user_confirmation == old.user_confirmation
    &&& new.input_mode == old.input_mode
    &&& new.focused_view_area == old.focused_view_area
    &&& new.effects == old.effects
}

/// Copies of the tracks of the playlist at `i`, in order.
fn copy_tracks(playlist_ctl: &PlaylistController, i: usize) -> (r: Vec<MiniTrack>)
    requires
        i < playlist_ctl.playlists().len(),
    ensures
        r@ == playlist_ctl.playlists()[i as int].mini_tracks@,
{
    let tracks = &playlist_ctl.playlist_coll.playlists[i].mini_tracks;
    let mut r: Vec<MiniTrack> = Vec::new();
    let n = tracks.len();
    for k in 0..n
        invariant
            n == tracks@.len(),
            r@ == tracks@.take(k as int),
    {
        r.push(tracks[k].duplicate());
        assert(tracks@.take(k + 1) == tracks@.take(k as int).push(tracks@[k as int]));
    }
    assert(tracks@.take(n as int) == tracks@);
    r
}

/// Copies of the tracks that enqueueing takes from the playlist view.
fn collect_tracks_to_enqueue(playlist_ctl: &PlaylistController) -> (r: Vec<MiniTrack>)
    requires
        playlist_ctl.wf(),
    ensures
        r@ == tracks_to_enqueue(*playlist_ctl),
{
    let mut r: Vec<MiniTrack> = Vec::new();
    if let Some(i) = playlist_ctl.selected_playlist {
        match playlist_ctl.tab_focus {
            PlaylistTabFocus::Playlists => {
                r = copy_tracks(playlist_ctl, i);
            },
            PlaylistTabFocus::Tracks => {
                let p = &playlist_ctl.playlist_coll.playlists[i];
                if let Some(j) = p.selected_track {
                    r.push(p.mini_tracks[j].duplicate());
                }
            },
        }
    }
    assert(r@ =~= tracks_to_enqueue(*playlist_ctl));
    r
}

/// What `enqueue` does: append to the queue the tracks that the playlist
/// view points at.
pub open spec fn enqueue_post(old: App, new: App) -> bool {
    &&& new.queue.tracks@ == old.queue.tracks@ + tracks_to_enqueue(old.playlist_ctl)
    &&& new.queue.selected_index == old.queue.selected_index
    &&& same_outside_queue(old, new)
}

/// Appends to the queue the selected playlist, or, with the cursor on the
/// tracks, the selected track.
pub fn enqueue(app: &mut App) -> (r: Option<Message>)
    requires
        old(app).wf(),
    ensures
        final(app).wf(),
        enqueue_post(*old(app), *final(app)),
        took_from_view(*old(app), *final(app), false),
        r is None,
{
    let tracks = collect_tracks_to_enqueue(&app.playlist_ctl);
    let n = tracks.len();
    for k in 0..n
        invariant
            n == tracks@.len(),
            tracks@ == tracks_to_enqueue(old(app).playlist_ctl),
            app.wf(),
            app.queue.tracks@ == old(app).queue.tracks@ + tracks@.take(k as int),
            app.queue.selected_index == old(app).queue.selected_index,
            same_outside_queue(*old(app), *app),
    {
        app.queue.enqueue_mini_track_ref(tracks[k].duplicate());
        assert(tracks@.take(k + 1) == tracks@.take(k as int).push(tracks@[k as int]));
        assert(app.queue.tracks@ =~= old(app).queue.tracks@ + tracks@.take(k + 1));
    }
    assert(tracks@.take(n as int) == tracks@);
    None
}

/// What `prepend_queue` does: put in front of the queue the tracks that the
/// playlist view points at; the queue's cursor stays on its track.
pub open spec fn prepend_queue_post(old: App, new: App) -> bool {
    let front = tracks_to_enqueue(old.playlist_ctl);
    &&& new.queue.tracks@ == front + old.queue.tracks@
    &&& new.queue.selected_index == (match old.queue.selected_index {
        Some(i) => Some((i + front.len()) as usize),
        None => None,
    })
    &&& same_outside_queue(old, new)
}

/// Puts in front of the queue the selected playlist, or, with the cursor on
/// the tracks, the selected track.
pub fn prepend_queue(app: &mut App) -> (r: Option<Message>)
    requires
        old(app).wf(),
    ensures
        final(app).wf(),
        prepend_queue_post(*old(app), *final(app)),
        took_from_view(*old(app), *final(app), true),
        r is None,
{
    let tracks = collect_tracks_to_enqueue(&app.playlist_ctl);
    app.queue.prepend_mini_track_refs(tracks);
    None
}

/// What `navigate_playlists` does: with the cursor on the playlists, up and
/// down move the selection, unless the selected playlist has unsaved
/// changes, in which case it asks whether to save them first.
pub open spec fn navigate_playlists_post(
    direction: Direction,
    old: PlaylistController,
    new: PlaylistController,
    r: Option<Message>,
) -> bool {
    let moves = old.tab_focus == PlaylistTabFocus::Playlists && (direction == Direction::Up
        || direction == Direction::Down);
    if !moves {
        new == old && r is None
    } else if old.selected_is_dirty() {
        new == old && r == Some(ask_to_save_msg(Some(Message::Playlist(PlaylistMessage::Navigate(direction)))))
    } else {
        let len = old.playlists().len();
        &&& new.selected_playlist == (if direction == Direction::Up {
            prev_selection(old.selected_playlist, len)
        } else {
            next_selection(old.selected_playlist, len)
        })
        &&& new.playlist_coll == old.playlist_coll
        &&& new.tab_focus == old.tab_focus
        &&& new.arrange_mode == old.arrange_mode
        &&& r is None
    }
}

/// Moves the selection of playlists up or down.
pub fn navigate_playlists(direction: Direction, playlist_ctl: &mut PlaylistController) -> (r: Option<Message>)
    requires
        old(playlist_ctl).wf(),
    ensures
        final(playlist_ctl).wf(),
        navigate_playlists_post(direction, *old(playlist_ctl), *final(playlist_ctl), r),
{
    if let PlaylistTabFocus::Tracks = playlist_ctl.tab_focus {
        return None;
    }
    match direction {
        Direction::Up => {
            if let Some(to_resume) = playlist_save_confirm_then_resume(
                Message::Playlist(PlaylistMessage::Navigate(direction)),
                playlist_ctl,
            ) {
                return Some(to_resume);
            }
            playlist_ctl.prev_playlist();
        },
        Direction::Down => {
            if let Some(to_resume) = playlist_save_confirm_then_resume(
                Message::Playlist(PlaylistMessage::Navigate(direction)),
                playlist_ctl,
            ) {
                return Some(to_resume);
            }
            playlist_ctl.next_playlist();
        },
        _ => {},
    }
    None
}

/// What `navigate_tracks` does: with the cursor on the tracks, up and down
/// move the cursor of the selected playlist, and the selected track with it
/// in arrange mode.
pub open spec fn navigate_tracks_post(direction: Direction, old: PlaylistController, new: PlaylistController) -> bool {
    if old.tab_focus == PlaylistTabFocus::Tracks && old.selected_playlist is Some && (direction
        == Direction::Up || direction == Direction::Down) {
        let i = old.selected_playlist.unwrap() as int;
        &&& only_playlist_changed(old, new, i)
        &&& new.tab_focus == old.tab_focus
        &&& if direction == Direction::Up {
            stepped_up(old.playlists()[i], new.playlists()[i], old.arrange_mode)
        } else {
            stepped_down(old.playlists()[i], new.playlists()[i], old.arrange_mode)
        }
    } else {
        new == old
    }
}

/// Moves the cursor of the selected playlist's tracks up or down.
pub fn navigate_tracks(direction: Direction, playlist_ctl: &mut PlaylistController)
    requires
        old(playlist_ctl).wf(),
    ensures
        final(playlist_ctl).wf(),
        navigate_tracks_post(direction, *old(playlist_ctl), *final(playlist_ctl)),
{
    if let PlaylistTabFocus::Playlists = playlist_ctl.tab_focus {
        return;
    }
    let arrange_mode = playlist_ctl.arrange_mode;
    if let Some(i) = playlist_ctl.selected_playlist {
        match direction {
            Direction::Up => {
                playlist_ctl.playlist_coll.playlists[i].select_prev_track(arrange_mode);
                proof {
                    lemma_changed_only_at_keeps_wf(*old(playlist_ctl), *playlist_ctl, i as int);
                }
            },
            Direction::Down => {
                playlist_ctl.playlist_coll.playlists[i].select_next_track(arrange_mode);
                proof {
                    lemma_changed_only_at_keeps_wf(*old(playlist_ctl), *playlist_ctl, i as int);
                }
            },
            _ => {},
        }
    }
}

/// What `move_cursor` does: nothing without playlists; left puts the cursor
/// on the playlists, right on the tracks of the selected playlist where it
/// has any; up and down move within the half that has the cursor.
pub open spec fn move_cursor_post(
    direction: Direction,
    old: PlaylistController,
    new: PlaylistController,
    r: Option<Message>,
) -> bool {
    if old.playlists().len() == 0 {
        new == old && r is None
    } else if direction == Direction::Left {
        new == (PlaylistController { tab_focus: PlaylistTabFocus::Playlists, ..old }) && r is None
    } else if direction == Direction::Right {
        &&& new == (if old.selected() matches Some(p) && p.mini_tracks@.len() > 0 {
            PlaylistController { tab_focus: PlaylistTabFocus::Tracks, ..old }
        } else {
            old
        })
        &&& r is None
    } else if old.tab_focus == PlaylistTabFocus::Playlists {
        navigate_playlists_post(direction, old, new, r)
    } else {
        navigate_tracks_post(direction, old, new) && r is None
    }
}

/// Moves the cursor of the playlist view.
pub fn move_cursor(direction: Direction, playlist_ctl: &mut PlaylistController) -> (r: Option<Message>)
    requires
        old(playlist_ctl).wf(),
    ensures
        final(playlist_ctl).wf(),
        move_cursor_post(direction, *old(playlist_ctl), *final(playlist_ctl), r),
        cursor_moves_as_pressed(direction, *old(playlist_ctl), *final(playlist_ctl), r),
{
    if playlist_ctl.playlist_coll.is_empty() {
        return None;
    }
    match direction {
        Direction::Left => {
            playlist_ctl.tab_focus = PlaylistTabFocus::Playlists;
        },
        Direction::Right => {
            if let Some(i) = playlist_ctl.selected_playlist {
                if !playlist_ctl.playlist_coll.playlists[i].is_empty() {
                    playlist_ctl.tab_focus = PlaylistTabFocus::Tracks;
                }
            }
        },
        _ => match playlist_ctl.tab_focus {
            PlaylistTabFocus::Playlists => return navigate_playlists(direction, playlist_ctl),
            PlaylistTabFocus::Tracks => navigate_tracks(direction, playlist_ctl),
        },
    }
    None
}

/// What `delete_playlist` does: with a playlist selected, use up the user's
/// answer: on yes, delete the selected playlist; on no, nothing; without an
/// answer yet, ask "Delete?" and come back with the same command.
pub open spec fn delete_playlist_post(
    old_answer: Option<Response>,
    new_answer: Option<Response>,
    old: PlaylistController,
    new: PlaylistController,
    r: Option<Message>,
) -> bool {
    if old.selected() is Some {
        &&& new_answer is None
        &&& match old_answer {
            Some(Response::Yes) => deleted_selected(old, new) && r is None,
            Some(Response::No) => new == old && r is None,
            None => new == old && is_confirmation_msg(
                r,
                "Delete?"@,
                Message::Playlist(PlaylistMessage::Delete),
            ),
        }
    } else {
        new_answer == old_answer && new == old && r is None
    }
}

/// Deletes the selected playlist once the user has said yes.
pub fn delete_playlist(confirmation: &mut Option<Response>, playlist_ctl: &mut PlaylistController) -> (r: Option<Message>)
    requires
        old(playlist_ctl).wf(),
    ensures
        final(playlist_ctl).wf(),
        delete_playlist_post(*old(confirmation), *final(confirmation), *old(playlist_ctl), *final(playlist_ctl), r),
{
    if playlist_ctl.selected_playlist.is_some() {
        if let Some(confirm) = confirmation.take() {
            match confirm {
                Response::Yes => {
                    playlist_ctl.delete_selected_playlist();
                },
                Response::No => {},
            }
        } else {
            return Some(Message::AskConfirmation(
                "Delete?".to_string(),
                Box::new(Message::Playlist(PlaylistMessage::Delete)),
            ));
        }
    }
    None
}

/// The playlist that renaming is about: the one at `index` when given, else
/// the selected one; `None` when there is no such playlist.
pub open spec fn playlist_to_rename(index: Option<usize>, ctl: PlaylistController) -> Option<usize> {
    let idx = match index {
        Some(i) => Some(i),
        None => ctl.selected_playlist,
    };
    match idx {
        Some(i) => if i < ctl.playlists().len() { Some(i) } else { None },
        None => None,
    }
}

/// Opens the line editor, with prompt `ui_message`, to rename the playlist at
/// `index`, or the selected playlist when no index is given; `None` when
/// there is no such playlist.
pub fn rename_playlist(ui_message: &str, index: Option<usize>, playlist_ctl: &mut PlaylistController) -> (r: Option<Message>)
    ensures
        *final(playlist_ctl) == *old(playlist_ctl),
        match playlist_to_rename(index, *old(playlist_ctl)) {
            Some(i) => is_edit_name_msg(r, ui_message@, i),
            None => r is None,
        },
{
    let idx = match index {
        Some(i) => Some(i),
        None => playlist_ctl.selected_playlist,
    };
    match idx {
        Some(i) => {
            if i < playlist_ctl.playlist_coll.len() {
                Some(Message::UserInput(UserInputMessage::EnterEditMode(
                    ui_message.to_string(),
                    InputTarget::PlaylistName(i),
                )))
            } else {
                None
            }
        },
        None => None,
    }
}

/// Saves the selected playlist and says so.
pub fn save_selected_playlist(playlist_ctl: &mut PlaylistController) -> (r: Option<Message>)
    requires
        old(playlist_ctl).wf(),
    ensures
        final(playlist_ctl).wf(),
        saved_selected(*old(playlist_ctl), *final(playlist_ctl)),
        r matches Some(Message::DisplayInfoMsg(s)) && s@ == "Saved successfully"@,
{
    playlist_ctl.save_selected();
    Some(Message::DisplayInfoMsg("Saved successfully".to_string()))
}

/// `ctl` with arrange mode flipped.
pub open spec fn arrange_toggled(ctl: PlaylistController) -> PlaylistController {
    PlaylistController { arrange_mode: !ctl.arrange_mode, ..ctl }
}

/// Turns arrange mode of the playlist view on or off.
pub fn toggle_arrange(playlist_ctl: &mut PlaylistController) -> (r: Option<Message>)
    requires
        old(playlist_ctl).wf(),
    ensures
        final(playlist_ctl).wf(),
        *final(playlist_ctl) == arrange_toggled(*old(playlist_ctl)),
        r is None,
{
    playlist_ctl.arrange_mode = !playlist_ctl.arrange_mode;
    None
}

/// What `ask_to_save` does: where the selected playlist has unsaved changes,
/// use up the user's answer: on yes, save it; on no, put back the saved
/// tracks, as new tracks, and ask the metadata loader for their metadata;
/// either way go on
/// with `then_call`. Without an answer yet, ask and come back with the same
/// command. Where nothing needs saving: nothing, and `None`.
pub open spec fn ask_to_save_post(
    old_answer: Option<Response>,
    new_answer: Option<Response>,
    then_call: Option<Message>,
    old: PlaylistController,
    new: PlaylistController,
    r: Option<Message>,
) -> bool {
    if old.selected_is_dirty() {
        let i = old.selected_playlist.unwrap() as int;
        &&& new_answer is None
        &&& match old_answer {
            Some(Response::Yes) => saved_selected(old, new) && r == then_call,
            Some(Response::No) => {
                let reqs = old.playlist_coll.metadata_requests@;
                let new_reqs = new.playlist_coll.metadata_requests@;
                &&& changed_only_at(old.playlists(), new.playlists(), i)
                &&& reloaded(old.playlists()[i], new.playlists()[i], old.playlist_coll.next_serial)
                &&& new.playlist_coll.next_serial == advance(
                    old.playlist_coll.next_serial,
                    old.playlists()[i].saved_paths@.len() as int,
                )
                &&& new_reqs.len() == reqs.len() + 1
                &&& new_reqs.drop_last() == reqs
                &&& new_reqs.last().0 == i
                &&& new_reqs.last().1@ == old.playlists()[i].saved_paths@
                &&& new.selected_playlist == old.selected_playlist
                &&& new.tab_focus == old.tab_focus
                &&& new.arrange_mode == old.arrange_mode
                &&& r == then_call
            },
            None => new == old && is_confirmation_msg(
                r,
                "Save? (discard if not)"@,
                ask_to_save_msg(then_call),
            ),
        }
    } else {
        new_answer == old_answer && new == old && r is None
    }
}

/// Asks whether to save the selected playlist's changes, then goes on with
/// `then_call`.
pub fn ask_to_save(
    confirmation: &mut Option<Response>,
    then_call: Option<Message>,
    playlist_ctl: &mut PlaylistController,
) -> (r: Option<Message>)
    requires
        old(playlist_ctl).wf(),
    ensures
        final(playlist_ctl).wf(),
        ask_to_save_post(*old(confirmation), *final(confirmation), then_call, *old(playlist_ctl), *final(playlist_ctl), r),
{
    if !playlist_ctl.selected_is_dirty_exec() {
        return None;
    }
    let i = playlist_ctl.selected_playlist.unwrap();
    if let Some(confirm) = confirmation.take() {
        match confirm {
            Response::Yes => {
                playlist_ctl.save_selected();
                then_call
            },
            Response::No => {
                let start = playlist_ctl.playlist_coll.next_serial;
                let counter = playlist_ctl.playlist_coll.playlists[i].reload(start);
                playlist_ctl.playlist_coll.next_serial = counter;
                proof {
                    lemma_changed_only_at_keeps_wf(*old(playlist_ctl), *playlist_ctl, i as int);
                }
                let paths = playlist_ctl.playlist_coll.playlists[i].get_path_vec();
                proof {
                    let saved = old(playlist_ctl).playlists()[i as int].saved_paths@;
                    assert(paths_of(tracks_from_paths(saved, TrackOrigin::Playlists, start)) =~= saved);
                }
                playlist_ctl.playlist_coll.metadata_requests.push((i, paths));
                assert(playlist_ctl.playlist_coll.metadata_requests@.drop_last() == old(playlist_ctl).playlist_coll.metadata_requests@);
                then_call
            },
        }
    } else {
        Some(Message::AskConfirmation(
            "Save? (discard if not)".to_string(),
            Box::new(Message::Playlist(PlaylistMessage::AskToSave(Box::new(then_call)))),
        ))
    }
}

/// What `scroll_to_end` (`to_end`) or `scroll_to_start` does: the cursor of
/// the half of the view that has it goes to its last (first) item.
pub open spec fn scroll_post(to_end: bool, old: PlaylistController, new: PlaylistController) -> bool {
    match old.tab_focus {
        PlaylistTabFocus::Playlists => {
            let n = old.playlists().len();
            new == (if n > 0 {
                PlaylistController {
                    selected_playlist: Some((if to_end { n - 1 } else { 0 }) as usize),
                    ..old
                }
            } else {
                old
            })
        },
        PlaylistTabFocus::Tracks => {
            if old.selected() is Some && old.selected().unwrap().mini_tracks@.len() > 0 {
                let i = old.selected_playlist.unwrap() as int;
                let p = old.selected().unwrap();
                let m = p.mini_tracks@.len();
                &&& only_playlist_changed(old, new, i)
                &&& new.tab_focus == old.tab_focus
                &&& new.playlists()[i] == (Playlist {
                    selected_track: Some((if to_end { m - 1 } else { 0 }) as usize),
                    ..p
                })
            } else {
                new == old
            }
        },
    }
}

/// Moves the cursor to the last playlist, or to the last track of the
/// selected playlist.
pub fn scroll_to_end(playlist_ctl: &mut PlaylistController) -> (r: Option<Message>)
    requires
        old(playlist_ctl).wf(),
    ensures
        final(playlist_ctl).wf(),
        scroll_post(true, *old(playlist_ctl), *final(playlist_ctl)),
        scrolled_to(true, *old(playlist_ctl), *final(playlist_ctl)),
        r is None,
{
    match playlist_ctl.tab_focus {
        PlaylistTabFocus::Playlists => {
            if !playlist_ctl.playlist_coll.is_empty() {
                playlist_ctl.selected_playlist = Some(playlist_ctl.playlist_coll.len() - 1);
            }
        },
        PlaylistTabFocus::Tracks => {
            if let Some(i) = playlist_ctl.selected_playlist {
                if !playlist_ctl.playlist_coll.playlists[i].is_empty() {
                    let m = playlist_ctl.playlist_coll.playlists[i].len();
                    playlist_ctl.playlist_coll.playlists[i].selected_track = Some(m - 1);
                    proof {
                        lemma_changed_only_at_keeps_wf(*old(playlist_ctl), *playlist_ctl, i as int);
                    }
                }
            }
        },
    }
    None
}

/// Moves the cursor to the first playlist, or to the first track of the
/// selected playlist.
pub fn scroll_to_start(playlist_ctl: &mut PlaylistController) -> (r: Option<Message>)
    requires
        old(playlist_ctl).wf(),
    ensures
        final(playlist_ctl).wf(),
        scroll_post(false, *old(playlist_ctl), *final(playlist_ctl)),
        scrolled_to(false, *old(playlist_ctl), *final(playlist_ctl)),
        r is None,
{
    match playlist_ctl.tab_focus {
        PlaylistTabFocus::Playlists => {
            if !playlist_ctl.playlist_coll.is_empty() {
                playlist_ctl.selected_playlist = Some(0);
            }
        },
        PlaylistTabFocus::Tracks => {
            if let Some(i) = playlist_ctl.selected_playlist {
                if !playlist_ctl.playlist_coll.playlists[i].is_empty() {
                    playlist_ctl.playlist_coll.playlists[i].selected_track = Some(0);
                    proof {
                        lemma_changed_only_at_keeps_wf(*old(playlist_ctl), *playlist_ctl, i as int);
                    }
                }
            }
        },
    }
    None
}

/// The track at `k` is the first of `tracks` without metadata.
pub open spec fn first_unloaded(tracks: Seq<MiniTrack>, k: int) -> bool {
    &&& 0 <= k < tracks.len()
    &&& tracks[k].metadata is None
    &&& forall|j: int| 0 <= j < k ==> (#[trigger] tracks[j]).metadata is Some
}

/// The playlists `new` are `old` with the metadata `meta` on every track of
/// identity `id`, and otherwise unchanged.
pub open spec fn playlists_with_metadata(old: Seq<Playlist>, new: Seq<Playlist>, id: TrackId, meta: MiniMetadata) -> bool {
    &&& new.len() == old.len()
    &&& forall|i: int| 0 <= i < old.len() ==> {
        &&& (#[trigger] new[i]).mini_tracks@ == with_metadata(old[i].mini_tracks@, id, meta)
        &&& new[i].name == old[i].name
        &&& new[i].selected_track == old[i].selected_track
        &&& new[i].saved_paths == old[i].saved_paths
        &&& new[i].dirty == old[i].dirty
    }
}

/// What `append_metadata` does: the first track without metadata of the
/// playlist at `index` gets `meta`, and so does every copy of that track,
/// in any playlist and in the queue, since they are the same track; nothing
/// else changes.
pub open spec fn append_metadata_post(
    index: usize,
    meta: MiniMetadata,
    old: PlaylistController,
    new: PlaylistController,
    old_queue: TrackQueue,
    new_queue: TrackQueue,
) -> bool {
    if index < old.playlists().len() && exists|k: int| first_unloaded(old.playlists()[index as int].mini_tracks@, k) {
        let p = old.playlists()[index as int];
        &&& forall|k: int| #[trigger] first_unloaded(p.mini_tracks@, k) ==> {
            let id = p.mini_tracks@[k].id;
            &&& playlists_with_metadata(old.playlists(), new.playlists(), id, meta)
            &&& new_queue.tracks@ == with_metadata(old_queue.tracks@, id, meta)
        }
        &&& new.playlist_coll.metadata_requests == old.playlist_coll.metadata_requests
        &&& new.playlist_coll.next_serial == old.playlist_coll.next_serial
        &&& new.selected_playlist == old.selected_playlist
        &&& new.tab_focus == old.tab_focus
        &&& new.arrange_mode == old.arrange_mode
        &&& new_queue.selected_index == old_queue.selected_index
        &&& TrackQueue::same_settings(old_queue, new_queue)
    } else {
        new == old && new_queue == old_queue
    }
}

/// The index of the first of `tracks` without metadata, if any.
fn first_unloaded_index(tracks: &Vec<MiniTrack>) -> (r: Option<usize>)
    ensures
        r matches Some(k) ==> first_unloaded(tracks@, k as int),
        r is None ==> forall|k: int| !first_unloaded(tracks@, k),
{
    let n = tracks.len();
    for k in 0..n
        invariant
            n == tracks@.len(),
            forall|j: int| 0 <= j < k ==> (#[trigger] tracks@[j]).metadata is Some,
    {
        if tracks[k].metadata.is_none() {
            return Some(k);
        }
    }
    assert forall|k: int| !first_unloaded(tracks@, k) by {
        if 0 <= k < tracks@.len() {
            assert(tracks@[k].metadata is Some);
        }
    }
    None
}

/// Gives the metadata that the loader found to the first track of the
/// playlist at `index` that has none yet: to that track wherever it is
/// held, in the playlists and in the queue.
pub fn append_metadata(
    index: usize,
    mini_metadata: MiniMetadata,
    playlist_ctl: &mut PlaylistController,
    queue: &mut TrackQueue,
) -> (r: Option<Message>)
    requires
        old(playlist_ctl).wf(),
        old(queue).wf(),
    ensures
        final(playlist_ctl).wf(),
        final(queue).wf(),
        append_metadata_post(index, mini_metadata, *old(playlist_ctl), *final(playlist_ctl), *old(queue), *final(queue)),
        r is None,
{
    if index >= playlist_ctl.playlist_coll.len() {
        return None;
    }
    let found = first_unloaded_index(&playlist_ctl.playlist_coll.playlists[index].mini_tracks);
    let k = match found {
        Some(k) => k,
        None => return None,
    };
    let id = playlist_ctl.playlist_coll.playlists[index].mini_tracks[k].id;
    let ghost p = old(playlist_ctl).playlists()[index as int];
    proof {
        assert forall|k2: int| first_unloaded(p.mini_tracks@, k2) implies k2 == k by {
            if k2 < k {
                assert(p.mini_tracks@[k2].metadata is Some);
            } else if k2 > k {
                assert(p.mini_tracks@[k as int].metadata is Some);
            }
        }
    }
    let n = playlist_ctl.playlist_coll.playlists.len();
    for i in 0..n
        invariant
            n == old(playlist_ctl).playlists().len(),
            n == playlist_ctl.playlists().len(),
            old(playlist_ctl).wf(),
            playlist_ctl.playlist_coll.metadata_requests == old(playlist_ctl).playlist_coll.metadata_requests,
            playlist_ctl.playlist_coll.next_serial == old(playlist_ctl).playlist_coll.next_serial,
            playlist_ctl.selected_playlist == old(playlist_ctl).selected_playlist,
            playlist_ctl.tab_focus == old(playlist_ctl).tab_focus,
            playlist_ctl.arrange_mode == old(playlist_ctl).arrange_mode,
            forall|j: int| 0 <= j < i ==> {
                &&& (#[trigger] playlist_ctl.playlists()[j]).mini_tracks@ == with_metadata(
                    old(playlist_ctl).playlists()[j].mini_tracks@,
                    id,
                    mini_metadata,
                )
                &&& playlist_ctl.playlists()[j].name == old(playlist_ctl).playlists()[j].name
                &&& playlist_ctl.playlists()[j].selected_track == old(playlist_ctl).playlists()[j].selected_track
                &&& playlist_ctl.playlists()[j].saved_paths == old(playlist_ctl).playlists()[j].saved_paths
                &&& playlist_ctl.playlists()[j].dirty == old(playlist_ctl).playlists()[j].dirty
            },
            forall|j: int| i <= j < n ==> #[trigger] playlist_ctl.playlists()[j] == old(playlist_ctl).playlists()[j],
    {
        set_metadata(&mut playlist_ctl.playlist_coll.playlists[i].mini_tracks, id, &mini_metadata);
    }
    set_metadata(&mut queue.tracks, id, &mini_metadata);
    proof {
        assert forall|j: int| 0 <= j < n implies (#[trigger] playlist_ctl.playlists()[j]).wf() by {
            assert(old(playlist_ctl).playlists()[j].wf());
        }
    }
    None
}

/// What `update_playlist` does with `msg`: the command that the message
/// names. Adding tracks or a directory starts with a dialog: with a playlist
/// selected, the dialog is asked for as an effect, whose answer then goes to
/// `add_tracks` or `add_dir`; without one, nothing happens.
pub open spec fn update_playlist_post(msg: PlaylistMessage, old: App, new: App, r: Option<Message>) -> bool {
    let c0 = old.playlist_ctl;
    let c1 = new.playlist_ctl;
    match msg {
        PlaylistMessage::Enqueue => enqueue_post(old, new) && r is None,
        PlaylistMessage::PrependQueue => prepend_queue_post(old, new) && r is None,
        PlaylistMessage::Delete => {
            &&& delete_playlist_post(old.user_confirmation.response, new.user_confirmation.response, c0, c1, r)
            &&& new.queue == old.queue
            &&& new.player == old.player
            &&& new.user_input == old.user_input
            &&& new.input_mode == old.input_mode
            &&& new.focused_view_area == old.focused_view_area
            &&& new.effects == old.effects
        },
        PlaylistMessage::LoadedMetadata(i, m) => {
            &&& append_metadata_post(i, m, c0, c1, old.queue, new.queue)
            &&& r is None
            &&& new.player == old.player
            &&& new.user_input == old.user_input
            &&& new.user_confirmation == old.user_confirmation
            &&& new.input_mode == old.input_mode
            &&& new.focused_view_area == old.focused_view_area
            &&& new.effects == old.effects
        },
        PlaylistMessage::AddTracks => {
            &&& effect_requested(old, new, Effect::ChooseTracksForPlaylist, c0.selected_playlist is Some)
            &&& r is None
        },
        PlaylistMessage::AddDir => {
            &&& effect_requested(old, new, Effect::ChooseDirsForPlaylist, c0.selected_playlist is Some)
            &&& r is None
        },
        PlaylistMessage::AskToSave(then_call) => {
            &&& ask_to_save_post(old.user_confirmation.response, new.user_confirmation.response, *then_call, c0, c1, r)
            &&& new.queue == old.queue
            &&& new.player == old.player
            &&& new.user_input == old.user_input
            &&& new.input_mode == old.input_mode
            &&& new.focused_view_area == old.focused_view_area
            &&& new.effects == old.effects
        },
        _ => {
            &&& same_outside_playlists(old, new)
            &&& match msg {
                PlaylistMessage::Create => create_playlist_post(c0, c1, r),
                PlaylistMessage::Navigate(d) => move_cursor_post(d, c0, c1, r),
                PlaylistMessage::RemoveTrack => remove_selected_track_post(c0, c1) && r is None,
                PlaylistMessage::Rename => c1 == c0 && match playlist_to_rename(None, c0) {
                    Some(i) => is_edit_name_msg(r, "Rename Playlist"@, i),
                    None => r is None,
                },
                PlaylistMessage::SaveSelected => saved_selected(c0, c1)
                    && (r matches Some(Message::DisplayInfoMsg(m)) && m@ == "Saved successfully"@),
                PlaylistMessage::ToggleArrangeTracks => c1 == arrange_toggled(c0) && r is None,
                PlaylistMessage::ScrollToStart => scroll_post(false, c0, c1) && r is None,
                PlaylistMessage::ScrollToEnd => scroll_post(true, c0, c1) && r is None,
                _ => true,
            }
        },
    }
}

/// Handles a message for the playlist view.
pub fn update_playlist(app: &mut App, msg: PlaylistMessage) -> (r: Option<Message>)
    requires
        old(app).wf(),
    ensures
        final(app).wf(),
        update_playlist_post(msg, *old(app), *final(app), r),
        msg is ScrollToStart ==> scrolled_to(false, old(app).playlist_ctl, final(app).playlist_ctl),
        msg is ScrollToEnd ==> scrolled_to(true, old(app).playlist_ctl, final(app).playlist_ctl),
        msg matches PlaylistMessage::Navigate(d) ==> cursor_moves_as_pressed(
            d,
            old(app).playlist_ctl,
            final(app).playlist_ctl,
            r,
        ),
        msg is Enqueue ==> took_from_view(*old(app), *final(app), false),
        msg is PrependQueue ==> took_from_view(*old(app), *final(app), true),
        msg is ToggleArrangeTracks ==> final(app).playlist_ctl.arrange_mode == !old(app).playlist_ctl.arrange_mode,
{
    match msg {
        PlaylistMessage::Create => create_playlist(&mut app.playlist_ctl),
        PlaylistMessage::AddTracks => {
            if app.playlist_ctl.selected_playlist.is_some() {
                app.effects.push(Effect::ChooseTracksForPlaylist);
            }
            None
        },
        PlaylistMessage::Enqueue => enqueue(app),
        PlaylistMessage::PrependQueue => prepend_queue(app),
        PlaylistMessage::Navigate(direction) => move_cursor(direction, &mut app.playlist_ctl),
        PlaylistMessage::AddDir => {
            if app.playlist_ctl.selected_playlist.is_some() {
                app.effects.push(Effect::ChooseDirsForPlaylist);
            }
            None
        },
        PlaylistMessage::Delete => delete_playlist(&mut app.user_confirmation.response, &mut app.playlist_ctl),
        PlaylistMessage::RemoveTrack => remove_selected_track(&mut app.playlist_ctl),
        PlaylistMessage::Rename => rename_playlist("Rename Playlist", None, &mut app.playlist_ctl),
        PlaylistMessage::SaveSelected => save_selected_playlist(&mut app.playlist_ctl),
        PlaylistMessage::ToggleArrangeTracks => toggle_arrange(&mut app.playlist_ctl),
        PlaylistMessage::AskToSave(then_call) => ask_to_save(
            &mut app.user_confirmation.response,
            *then_call,
            &mut app.playlist_ctl,
        ),
        PlaylistMessage::ScrollToStart => scroll_to_start(&mut app.playlist_ctl),
        PlaylistMessage::ScrollToEnd => scroll_to_end(&mut app.playlist_ctl),
        PlaylistMessage::LoadedMetadata(index, mini_metadata) => append_metadata(
            index,
            mini_metadata,
            &mut app.playlist_ctl,
            &mut app.queue,
        ),
    }
}

} // verus!
