use vstd::prelude::*;

use crate::audio::{audio_only, filter_paths_for_audio_files};
use crate::message::{is_edit_name_msg, Message, QueueMessage};
use crate::playlist::{selection_after_removal, tracks_from_paths};
use crate::playlist_cmd::rename_playlist;
use crate::queue::{moved_down, moved_up, TrackQueue};
use crate::state::{effect_requested, App, Effect, Player};
use crate::laws::{lemma_saved_queue_paths, queue_cursor_stepped, queue_scrolled_to, saved_queue_paths};
use crate::track::{advance, next_serial, MiniTrack, TrackId, TrackOrigin};

verus! {

/// Hands the audio files found in each chosen directory to the worker that
/// turns paths into tracks, one list per directory. `chosen` is the answer to
/// the effect `ChooseDirsForQueue`: those lists, or `None` when the dialog was
/// cancelled.
pub fn queue_dirs_with_file_dialog(queue: &mut TrackQueue, chosen: Option<Vec<Vec<String>>>) -> (r: Option<Message>)
    requires
        old(queue).wf(),
    ensures
        final(queue).wf(),
        match chosen {
            Some(dirs) => {
                &&& final(queue).to_process@ == old(queue).to_process@ + dirs@
                &&& final(queue).tracks == old(queue).tracks
                &&& final(queue).selected_index == old(queue).selected_index
                &&& final(queue).arrange_mode == old(queue).arrange_mode
                &&& final(queue).next_serial == old(queue).next_serial
            },
            None => *final(queue) == *old(queue),
        },
        r is None,
{
    if let Some(mut dirs) = chosen {
        queue.to_process.append(&mut dirs);
    }
    None
}

/// What queueing a non-empty list of paths does: the first path becomes a
/// new track at once when `direct`, and the worker gets the other paths; else the
/// worker gets them all.
pub open spec fn queued_paths(old: TrackQueue, new: TrackQueue, paths: Seq<String>, direct: bool) -> bool {
    &&& new.selected_index == old.selected_index
    &&& new.arrange_mode == old.arrange_mode
    &&& new.to_process@.drop_last() == old.to_process@
    &&& new.to_process@.len() == old.to_process@.len() + 1
    &&& if direct {
        &&& new.tracks@ == old.tracks@ + tracks_from_paths(paths.take(1), TrackOrigin::Queue, old.next_serial)
        &&& new.next_serial == advance(old.next_serial, 1)
        &&& new.to_process@.last()@ == paths.drop_first()
    } else {
        &&& new.tracks == old.tracks
        &&& new.next_serial == old.next_serial
        &&& new.to_process@.last()@ == paths
    }
}

/// Makes a track of the first path at once and hands the others to the worker.
fn queue_first_now(queue: &mut TrackQueue, paths: Vec<String>)
    requires
        old(queue).wf(),
        paths@.len() > 0,
    ensures
        final(queue).wf(),
        queued_paths(*old(queue), *final(queue), paths@, true),
{
    let mut rest = paths;
    let first = rest.remove(0);
    let mut one: Vec<String> = Vec::new();
    one.push(first);
    assert(one@ == paths@.take(1));
    queue.enqueue_paths(one);
    assert(rest@ == paths@.drop_first());
    queue.send_to_worker(rest);
    assert(queue.to_process@.drop_last() =~= old(queue).to_process@);
}

/// Queues the chosen audio files: when nothing plays and the queue is empty,
/// the first file becomes a track at once, so that playing can start; the
/// worker gets the rest. `chosen` is the answer to the effect
/// `ChooseFilesForQueue`: the chosen paths, or `None` when the dialog was
/// cancelled.
pub fn queue_files_with_file_dialog(
    queue: &mut TrackQueue,
    player: &mut Player,
    chosen: Option<Vec<String>>,
) -> (r: Option<Message>)
    requires
        old(queue).wf(),
    ensures
        final(queue).wf(),
        *final(player) == *old(player),
        match chosen {
            Some(paths) => if paths@.len() > 0 {
                queued_paths(
                    *old(queue),
                    *final(queue),
                    paths@,
                    old(player).current is None && old(queue).tracks@.len() == 0,
                )
            } else {
                *final(queue) == *old(queue)
            },
            None => *final(queue) == *old(queue),
        },
        r is None,
{
    if let Some(path_vec) = chosen {
        if path_vec.len() > 0 {
            if player.current.is_none() && queue.is_empty() {
                queue_first_now(queue, path_vec);
            } else {
                queue.send_to_worker(path_vec);
                assert(queue.to_process@.drop_last() =~= old(queue).to_process@);
            }
        }
    }
    None
}

/// Queues the paths that name audio files: the first becomes a track at
/// once, the worker gets the rest.
pub fn queue_paths(paths: Vec<String>, queue: &mut TrackQueue) -> (r: Option<Message>)
    requires
        old(queue).wf(),
    ensures
        final(queue).wf(),
        if audio_only(paths@).len() > 0 {
            queued_paths(*old(queue), *final(queue), audio_only(paths@), true)
        } else {
            *final(queue) == *old(queue)
        },
        r is None,
{
    let valid_paths = filter_paths_for_audio_files(paths);
    if valid_paths.len() > 0 {
        queue_first_now(queue, valid_paths);
    }
    None
}

/// `new` is `old` with the track that the worker made appended as a new
/// track, with a new identity.
pub open spec fn queued_new_track(old: TrackQueue, new: TrackQueue, t: MiniTrack) -> bool {
    &&& new.tracks@ == old.tracks@.push(
        MiniTrack { id: TrackId { origin: TrackOrigin::Queue, serial: old.next_serial }, ..t },
    )
    &&& new.selected_index == old.selected_index
    &&& TrackQueue::made_tracks(old, new, 1)
}

/// Appends a track that the worker made, as a new track.
pub fn queue_mini_track(mini_track: MiniTrack, queue: &mut TrackQueue) -> (r: Option<Message>)
    requires
        old(queue).wf(),
    ensures
        final(queue).wf(),
        queued_new_track(*old(queue), *final(queue), mini_track),
        r is None,
{
    queue.enqueue_mini_track(mini_track);
    None
}

/// Moves the queue's cursor up, with the selected track in arrange mode;
/// where it cannot move, nothing changes.
pub fn move_queue_up(queue: &mut TrackQueue) -> (r: Option<Message>)
    requires
        old(queue).wf(),
    ensures
        final(queue).wf(),
        moved_up(*old(queue), *final(queue)),
        queue_cursor_stepped(true, *old(queue), *final(queue)),
        r is None,
{
    let _ = queue.move_selected_up();
    None
}

/// Moves the queue's cursor down, with the selected track in arrange mode;
/// where it cannot move, nothing changes.
pub fn move_queue_down(queue: &mut TrackQueue) -> (r: Option<Message>)
    requires
        old(queue).wf(),
    ensures
        final(queue).wf(),
        moved_down(*old(queue), *final(queue)),
        queue_cursor_stepped(false, *old(queue), *final(queue)),
        r is None,
{
    let _ = queue.move_selected_down();
    None
}

/// `q` with arrange mode flipped.
pub open spec fn queue_arrange_toggled(q: TrackQueue) -> TrackQueue {
    TrackQueue { arrange_mode: !q.arrange_mode, ..q }
}

/// Turns the queue's arrange mode on or off.
pub fn toggle_arrange(queue: &mut TrackQueue) -> (r: Option<Message>)
    requires
        old(queue).wf(),
    ensures
        final(queue).wf(),
        *final(queue) == queue_arrange_toggled(*old(queue)),
        r is None,
{
    queue.toggle_arrange();
    None
}

/// `new` holds the tracks of `old` in some order, with the same cursor.
pub open spec fn shuffled(old: TrackQueue, new: TrackQueue) -> bool {
    &&& new.tracks@.to_multiset() == old.tracks@.to_multiset()
    &&& new.tracks@.len() == old.tracks@.len()
    &&& new.selected_index == old.selected_index
    &&& TrackQueue::same_settings(old, new)
}

/// Puts the queue in a random order.
pub fn shuffle(queue: &mut TrackQueue) -> (r: Option<Message>)
    requires
        old(queue).wf(),
    ensures
        final(queue).wf(),
        shuffled(*old(queue), *final(queue)),
        r is None,
{
    queue.shuffle();
    None
}

/// `new` is `old` without tracks and cursor.
pub open spec fn cleared(old: TrackQueue, new: TrackQueue) -> bool {
    new.tracks@.len() == 0 && new.selected_index is None && TrackQueue::same_settings(old, new)
}

/// Empties the queue.
pub fn clear(queue: &mut TrackQueue) -> (r: Option<Message>)
    requires
        old(queue).wf(),
    ensures
        final(queue).wf(),
        cleared(*old(queue), *final(queue)),
        r is None,
{
    queue.clear();
    None
}

/// `new` is `old` without its selected track, if it had one; the cursor stays
/// in place or goes to the new last track.
pub open spec fn removed_selected_track(old: TrackQueue, new: TrackQueue) -> bool {
    &&& TrackQueue::same_settings(old, new)
    &&& match old.selected_index {
        Some(i) => {
            &&& new.tracks@ == old.tracks@.remove(i as int)
            &&& new.selected_index == selection_after_removal(i, new.tracks@.len())
        },
        None => new.tracks == old.tracks && new.selected_index is None,
    }
}

/// Removes the selected track from the queue.
pub fn remove_selected(queue: &mut TrackQueue) -> (r: Option<Message>)
    requires
        old(queue).wf(),
    ensures
        final(queue).wf(),
        removed_selected_track(*old(queue), *final(queue)),
        r is None,
{
    queue.remove_selected();
    None
}

/// `new` is `old` with the cursor on its first (`to_end` false) or last
/// track; an empty queue stays as it is.
pub open spec fn queue_scrolled(to_end: bool, old: TrackQueue, new: TrackQueue) -> bool {
    let n = old.tracks@.len();
    new == (if n > 0 {
        TrackQueue { selected_index: Some((if to_end { n - 1 } else { 0 }) as usize), ..old }
    } else {
        old
    })
}

/// Moves the queue's cursor to its first track.
pub fn scroll_to_start(queue: &mut TrackQueue) -> (r: Option<Message>)
    requires
        old(queue).wf(),
    ensures
        final(queue).wf(),
        queue_scrolled(false, *old(queue), *final(queue)),
        queue_scrolled_to(false, *old(queue), *final(queue)),
        r is None,
{
    if !queue.is_empty() {
        queue.selected_index = Some(0);
    }
    None
}

/// Moves the queue's cursor to its last track.
pub fn scroll_to_end(queue: &mut TrackQueue) -> (r: Option<Message>)
    requires
        old(queue).wf(),
    ensures
        final(queue).wf(),
        queue_scrolled(true, *old(queue), *final(queue)),
        queue_scrolled_to(true, *old(queue), *final(queue)),
        r is None,
{
    if !queue.is_empty() {
        queue.selected_index = Some(queue.len() - 1);
    }
    None
}

/// `new` is `old` from its selected track on, with the cursor on the first
/// track; without a cursor nothing changes.
pub open spec fn skipped_to_selected(old: TrackQueue, new: TrackQueue) -> bool {
    &&& TrackQueue::same_settings(old, new)
    &&& match old.selected_index {
        Some(i) => new.tracks@ == old.tracks@.skip(i as int) && new.selected_index == Some(0usize),
        None => new.tracks == old.tracks && new.selected_index is None,
    }
}

/// Drops the tracks before the selected one, which then comes first, and
/// asks for the next track of the queue to be played.
pub fn skip_to_selected(app: &mut App) -> (r: Option<Message>)
    requires
        old(app).wf(),
    ensures
        final(app).wf(),
        skipped_to_selected(old(app).queue, final(app).queue),
        final(app).effects@ == old(app).effects@.push(Effect::PlayNextTrack),
        final(app).playlist_ctl == old(app).playlist_ctl,
        final(app).player == old(app).player,
        final(app).user_input == old(app).user_input,
        final(app).user_confirmation == old(app).user_confirmation,
        final(app).input_mode == old(app).input_mode,
        final(app).focused_view_area == old(app).focused_view_area,
        r is None,
{
    app.queue.skip_to_selected();
    app.effects.push(Effect::PlayNextTrack);
    None
}

/// The paths of `played`, then that of the track that the player plays now,
/// if any.
pub open spec fn player_paths(played: Seq<String>, player: Player) -> Seq<String> {
    match player.current {
        Some(p) => played.push(p),
        None => played,
    }
}

/// What saving the queue as a playlist does: nothing for an empty queue;
/// else a new playlist, selected, holds new tracks for `played` and for the
/// track playing now, then the queue's tracks, shared with the queue; its
/// cursor is on the first track when a track plays now; and the line editor
/// opens to name it. The tracks go straight into the new playlist's list, so
/// the playlist is not marked as changed.
pub open spec fn saved_queue_as_playlist(old: App, new: App, played: Seq<String>, r: Option<Message>) -> bool {
    let index = old.playlist_ctl.playlists().len();
    let start = old.playlist_ctl.playlist_coll.next_serial;
    let made = player_paths(played, old.player);
    if old.queue.tracks@.len() == 0 {
        new == old && r is None
    } else {
        let p = new.playlist_ctl.playlists()[index as int];
        &&& new.playlist_ctl.playlists().len() == index + 1
        &&& new.playlist_ctl.playlists().drop_last() == old.playlist_ctl.playlists()
        &&& p.name is None
        &&& p.mini_tracks@ == tracks_from_paths(made, TrackOrigin::Playlists, start) + old.queue.tracks@
        &&& p.selected_track == (if old.player.current is Some { Some(0usize) } else { None })
        &&& p.saved_paths@.len() == 0
        &&& !p.dirty
        &&& new.playlist_ctl.selected_playlist == Some(index as usize)
        &&& new.playlist_ctl.playlist_coll.metadata_requests == old.playlist_ctl.playlist_coll.metadata_requests
        &&& new.playlist_ctl.playlist_coll.next_serial == advance(start, made.len() as int)
        &&& new.playlist_ctl.tab_focus == old.playlist_ctl.tab_focus
        &&& new.playlist_ctl.arrange_mode == old.playlist_ctl.arrange_mode
        &&& new.queue == old.queue
        &&& new.player == old.player
        &&& new.user_input == old.user_input
        &&& new.user_confirmation == old.user_confirmation
        &&& new.input_mode == old.input_mode
        &&& new.focused_view_area == old.focused_view_area
        &&& new.effects == old.effects
        &&& is_edit_name_msg(r, "Name Your Playlist"@, index as usize)
    }
}

/// Copies of `tracks`, shared with their holder, after `front`.
fn append_copies(front: &mut Vec<MiniTrack>, tracks: &Vec<MiniTrack>)
    ensures
        final(front)@ == old(front)@ + tracks@,
{
    let n = tracks.len();
    for k in 0..n
        invariant
            n == tracks@.len(),
            front@ == old(front)@ + tracks@.take(k as int),
    {
        front.push(tracks[k].duplicate());
        assert(tracks@.take(k + 1) == tracks@.take(k as int).push(tracks@[k as int]));
        assert(front@ =~= old(front)@ + tracks@.take(k + 1));
    }
    assert(tracks@.take(n as int) == tracks@);
}

/// New tracks for `paths`, with the identities that the playlists' counter
/// hands out from `start` on; answers them and the counter after them.
fn new_playlist_tracks(paths: &Vec<String>, start: u64) -> (r: (Vec<MiniTrack>, u64))
    ensures
        r.0@ == tracks_from_paths(paths@, TrackOrigin::Playlists, start),
        r.1 == advance(start, paths@.len() as int),
{
    let mut tracks: Vec<MiniTrack> = Vec::new();
    let mut counter = start;
    let n = paths.len();
    for k in 0..n
        invariant
            n == paths@.len(),
            counter == advance(start, k as int),
            tracks@ == tracks_from_paths(paths@.take(k as int), TrackOrigin::Playlists, start),
    {
        let id = TrackId { origin: TrackOrigin::Playlists, serial: counter };
        tracks.push(MiniTrack::new(id, paths[k].clone()));
        counter = next_serial(counter);
        assert(tracks@ =~= tracks_from_paths(paths@.take(k + 1), TrackOrigin::Playlists, start));
    }
    assert(paths@.take(n as int) == paths@);
    (tracks, counter)
}

/// Saves the queue as a new playlist, after the played tracks when
/// `with_played`.
fn save_queue_as_playlist(app: &mut App, with_played: bool) -> (r: Option<Message>)
    requires
        old(app).wf(),
    ensures
        final(app).wf(),
        saved_queue_as_playlist(
            *old(app),
            *final(app),
            if with_played { old(app).player.previous@ } else { Seq::empty() },
            r,
        ),
{
    if app.queue.is_empty() {
        return None;
    }
    let mut paths: Vec<String> = Vec::new();
    if with_played {
        let n = app.player.previous.len();
        for k in 0..n
            invariant
                n == app.player.previous@.len(),
                paths@ == app.player.previous@.take(k as int),
        {
            paths.push(app.player.previous[k].clone());
            assert(paths@ =~= app.player.previous@.take(k + 1));
        }
        assert(app.player.previous@.take(n as int) == app.player.previous@);
    }
    let ghost played = paths@;
    let mut selected_track: Option<usize> = None;
    if let Some(current) = &app.player.current {
        paths.push(current.clone());
        selected_track = Some(0);
    }
    assert(paths@ == player_paths(played, old(app).player));
    let (mut tracks, counter) = new_playlist_tracks(&paths, app.playlist_ctl.playlist_coll.next_serial);
    append_copies(&mut tracks, &app.queue.tracks);
    let index = app.playlist_ctl.create_playlist();
    app.playlist_ctl.playlist_coll.playlists[index].mini_tracks = tracks;
    app.playlist_ctl.playlist_coll.playlists[index].selected_track = selected_track;
    app.playlist_ctl.playlist_coll.next_serial = counter;
    proof {
        let ps = app.playlist_ctl.playlists();
        assert(ps.drop_last() =~= old(app).playlist_ctl.playlists());
        assert forall|j: int| 0 <= j < ps.len() implies (#[trigger] ps[j]).wf() by {
            if j < index {
                assert(ps[j] == ps.drop_last()[j]);
            }
        }
    }
    rename_playlist("Name Your Playlist", Some(index), &mut app.playlist_ctl)
}

/// Saves the tracks still to come, after the one playing now, as a new
/// playlist, and asks for its name.
pub fn save_current_as_playlist(app: &mut App) -> (r: Option<Message>)
    requires
        old(app).wf(),
    ensures
        final(app).wf(),
        saved_queue_as_playlist(*old(app), *final(app), Seq::empty(), r),
        saved_queue_paths(*old(app), *final(app), false),
{
    let r = save_queue_as_playlist(app, false);
    proof {
        lemma_saved_queue_paths(*old(app), *app, r, false);
    }
    r
}

/// Saves the tracks played before, the one playing now and those still to
/// come as a new playlist, and asks for its name.
pub fn save_full_as_playlist(app: &mut App) -> (r: Option<Message>)
    requires
        old(app).wf(),
    ensures
        final(app).wf(),
        saved_queue_as_playlist(*old(app), *final(app), old(app).player.previous@, r),
        saved_queue_paths(*old(app), *final(app), true),
{
    let r = save_queue_as_playlist(app, true);
    proof {
        lemma_saved_queue_paths(*old(app), *app, r, true);
    }
    r
}

/// The parts of `new` that are not the queue are those of `old`.
pub open spec fn same_outside_the_queue(old: App, new: App) -> bool {
    &&& new.playlist_ctl == old.playlist_ctl
    &&& new.player == old.player
    &&& new.user_input == old.user_input
    &&& new.user_confirmation == old.user_confirmation
    &&& new.input_mode == old.input_mode
    &&& new.focused_view_area == old.focused_view_area
    &&& new.effects == old.effects
}

/// What `update_queue` does with `msg`: the command that the message names.
/// Queueing with a file or directory dialog starts with the dialog, which is
/// asked for as an effect, whose answer then goes to
/// `queue_files_with_file_dialog` or `queue_dirs_with_file_dialog`.
pub open spec fn update_queue_post(msg: QueueMessage, old: App, new: App, r: Option<Message>) -> bool {
    let q0 = old.queue;
    let q1 = new.queue;
    match msg {
        QueueMessage::SaveCurrentAsPlaylist => saved_queue_as_playlist(old, new, Seq::empty(), r),
        QueueMessage::SaveFullAsPlaylist => saved_queue_as_playlist(old, new, old.player.previous@, r),
        QueueMessage::SkipToSelected => {
            &&& skipped_to_selected(q0, q1)
            &&& new.effects@ == old.effects@.push(Effect::PlayNextTrack)
            &&& new.playlist_ctl == old.playlist_ctl
            &&& new.player == old.player
            &&& new.user_input == old.user_input
            &&& new.user_confirmation == old.user_confirmation
            &&& new.input_mode == old.input_mode
            &&& new.focused_view_area == old.focused_view_area
            &&& r is None
        },
        QueueMessage::QueueFilesWithFileDialog => {
            effect_requested(old, new, Effect::ChooseFilesForQueue, true) && r is None
        },
        QueueMessage::QueueDirsWithFileDialog => {
            effect_requested(old, new, Effect::ChooseDirsForQueue, true) && r is None
        },
        _ => {
            &&& same_outside_the_queue(old, new)
            &&& r is None
            &&& match msg {
                QueueMessage::Clear => cleared(q0, q1),
                QueueMessage::MoveDown => moved_down(q0, q1),
                QueueMessage::MoveUp => moved_up(q0, q1),
                QueueMessage::QueuePaths(paths) => if audio_only(paths@).len() > 0 {
                    queued_paths(q0, q1, audio_only(paths@), true)
                } else {
                    q1 == q0
                },
                QueueMessage::RemoveSelected => removed_selected_track(q0, q1),
                QueueMessage::ScrollToEnd => queue_scrolled(true, q0, q1),
                QueueMessage::ScrollToStart => queue_scrolled(false, q0, q1),
                QueueMessage::Shuffle => shuffled(q0, q1),
                QueueMessage::ToggleArrange => q1 == queue_arrange_toggled(q0),
                QueueMessage::CreatedMiniTrack(t) => queued_new_track(q0, q1, t),
                _ => true,
            }
        },
    }
}

/// Handles a message for the queue.
pub fn update_queue(app: &mut App, msg: QueueMessage) -> (r: Option<Message>)
    requires
        old(app).wf(),
    ensures
        final(app).wf(),
        update_queue_post(msg, *old(app), *final(app), r),
        msg is SaveFullAsPlaylist ==> saved_queue_paths(*old(app), *final(app), true),
        msg is SaveCurrentAsPlaylist ==> saved_queue_paths(*old(app), *final(app), false),
        msg is MoveUp ==> queue_cursor_stepped(true, old(app).queue, final(app).queue),
        msg is MoveDown ==> queue_cursor_stepped(false, old(app).queue, final(app).queue),
        msg is ScrollToStart ==> queue_scrolled_to(false, old(app).queue, final(app).queue),
        msg is ScrollToEnd ==> queue_scrolled_to(true, old(app).queue, final(app).queue),
        msg is Clear ==> final(app).queue.tracks@.len() == 0,
        msg is ToggleArrange ==> final(app).queue.arrange_mode == !old(app).queue.arrange_mode,
        msg is SkipToSelected ==> final(app).effects@.last() == Effect::PlayNextTrack,
{
    match msg {
        QueueMessage::Clear => clear(&mut app.queue),
        QueueMessage::MoveDown => move_queue_down(&mut app.queue),
        QueueMessage::MoveUp => move_queue_up(&mut app.queue),
        QueueMessage::QueueDirsWithFileDialog => {
            app.effects.push(Effect::ChooseDirsForQueue);
            None
        },
        QueueMessage::QueuePaths(paths) => queue_paths(paths, &mut app.queue),
        QueueMessage::QueueFilesWithFileDialog => {
            app.effects.push(Effect::ChooseFilesForQueue);
            None
        },
        QueueMessage::RemoveSelected => remove_selected(&mut app.queue),
        QueueMessage::ScrollToEnd => scroll_to_end(&mut app.queue),
        QueueMessage::ScrollToStart => scroll_to_start(&mut app.queue),
        QueueMessage::Shuffle => shuffle(&mut app.queue),
        QueueMessage::ToggleArrange => toggle_arrange(&mut app.queue),
        QueueMessage::CreatedMiniTrack(mini_track) => queue_mini_track(mini_track, &mut app.queue),
        QueueMessage::SkipToSelected => skip_to_selected(app),
        QueueMessage::SaveCurrentAsPlaylist => save_current_as_playlist(app),
        QueueMessage::SaveFullAsPlaylist => save_full_as_playlist(app),
    }
}

} // verus!
