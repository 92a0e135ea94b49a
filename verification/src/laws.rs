use vstd::prelude::*;

use crate::controller::{created_playlist, deleted_selected, name_in_use, saved_selected, PlaylistController};
use crate::keybinds::{key_message, KeyCode};
use crate::message::{InputTarget, Message, QueueMessage, Response, UserInputMessage};
use crate::playlist::{next_selection, paths_of, prev_selection, reloaded, stepped_down, stepped_up, tracks_from_paths, Playlist};
use crate::playlist_cmd::{move_cursor_post, prepend_queue_post, update_playlist_post, add_tracks_post, enqueue_post, first_unloaded, tracks_to_enqueue, append_metadata_post, arrange_toggled, create_playlist_post, name_playlist_post, navigate_playlists_post};
use crate::queue::{moved_down, moved_up, queue_down_result, queue_up_result, TrackQueue};
use crate::queue_cmd::{update_queue_post, player_paths, queue_arrange_toggled, saved_queue_as_playlist};
use crate::state::{App, FocusedArea, InputMode};
use crate::track::{with_metadata, MiniMetadata, MiniTrack, TrackId, TrackOrigin};
use crate::message::PlaylistMessage;
use crate::controller::PlaylistTabFocus;
use crate::message::Direction;

verus! {

/// No two playlists carry the same name.
pub open spec fn names_distinct(ps: Seq<Playlist>) -> bool {
    forall|i: int, j: int|
        0 <= i < ps.len() && 0 <= j < ps.len() && i != j && (#[trigger] ps[i]).name is Some
            && (#[trigger] ps[j]).name is Some ==> ps[i].name.unwrap()@ != ps[j].name.unwrap()@
}

/// Toggling arrange mode twice gives back the playlist view and the queue
/// unchanged.
pub proof fn lemma_toggle_arrange_twice(ctl: PlaylistController, q: TrackQueue)
    ensures
        arrange_toggled(arrange_toggled(ctl)) == ctl,
        queue_arrange_toggled(queue_arrange_toggled(q)) == q,
{
}

/// Selecting the next playlist and then the previous one comes back to the
/// playlist where the selection started, unless it started on the last one.
pub proof fn lemma_playlist_selection_round_trip(i: usize, len: nat)
    requires
        i + 1 < len <= usize::MAX,
    ensures
        prev_selection(next_selection(Some(i), len), len) == Some(i),
{
}

/// Moving a playlist's cursor down and then up gives back the same tracks in
/// the same order and the same cursor, in arrange mode too, unless the
/// cursor started on the last track.
pub proof fn lemma_track_cursor_round_trip(p0: Playlist, p1: Playlist, p2: Playlist, arrange: bool)
    requires
        p0.wf(),
        p0.selected_track is Some,
        p0.selected_track.unwrap() + 1 < p0.mini_tracks@.len(),
        stepped_down(p0, p1, arrange),
        stepped_up(p1, p2, arrange),
    ensures
        p2.mini_tracks@ == p0.mini_tracks@,
        p2.selected_track == p0.selected_track,
{
    if arrange {
        assert(p2.mini_tracks@ =~= p0.mini_tracks@);
    }
}

/// Moving the queue's cursor down and then up gives back the same queue,
/// in arrange mode too, when the move down succeeded from a selected track.
pub proof fn lemma_queue_move_round_trip(q0: TrackQueue, q1: TrackQueue, q2: TrackQueue)
    requires
        q0.wf(),
        q0.selected_index is Some,
        q0.tracks@.len() <= usize::MAX,
        queue_down_result(q0) is Ok,
        moved_down(q0, q1),
        moved_up(q1, q2),
    ensures
        q2.tracks@ == q0.tracks@,
        q2.selected_index == q0.selected_index,
        q2.arrange_mode == q0.arrange_mode,
        q2.to_process == q0.to_process,
{
    let i = q0.selected_index.unwrap() as int;
    assert(q1.selected_index == Some((i + 1) as usize));
    assert(queue_up_result(q1) is Ok);
    if q0.arrange_mode {
        assert(q2.tracks@ =~= q0.tracks@);
    }
}

/// Deleting the playlist just created gives back the playlists as they were.
pub proof fn lemma_create_then_delete(c0: PlaylistController, c1: PlaylistController, c2: PlaylistController)
    requires
        c0.playlists().len() < usize::MAX,
        created_playlist(c0, c1),
        deleted_selected(c1, c2),
    ensures
        c2.playlists() == c0.playlists(),
        c2.playlist_coll.metadata_requests == c0.playlist_coll.metadata_requests,
        c2.playlist_coll.next_serial == c0.playlist_coll.next_serial,
{
    let n = c0.playlists().len();
    assert(c1.selected_playlist == Some(n as usize));
    assert(c2.playlists() == c1.playlists().remove(n as int));
    assert forall|j: int| 0 <= j < n implies c2.playlists()[j] == c0.playlists()[j] by {
        assert(c1.playlists().drop_last()[j] == c1.playlists()[j]);
    }
    assert(c2.playlists() =~= c0.playlists());
}

/// A selected playlist with unsaved changes is never left without asking:
/// creating a playlist or moving the selection then changes nothing.
pub proof fn lemma_unsaved_playlist_is_kept(
    c0: PlaylistController,
    c1: PlaylistController,
    r1: Option<Message>,
    c2: PlaylistController,
    r2: Option<Message>,
    direction: Direction,
)
    requires
        c0.selected_is_dirty(),
        c0.tab_focus == crate::controller::PlaylistTabFocus::Playlists,
        create_playlist_post(c0, c1, r1),
        navigate_playlists_post(direction, c0, c2, r2),
    ensures
        c1 == c0,
        c2 == c0,
{
}

/// Once the selected playlist is saved, nothing is left to save: the
/// question before leaving it is no longer asked.
pub proof fn lemma_saved_is_clean(c0: PlaylistController, c1: PlaylistController)
    requires
        c0.wf(),
        saved_selected(c0, c1),
    ensures
        !c1.selected_is_dirty(),
{
}

/// Reloading a playlist gives back, as new tracks without metadata, the
/// tracks that the last save recorded.
pub proof fn lemma_reload_gives_back_save(p0: Playlist, p1: Playlist, p2: Playlist, start: u64)
    requires
        p1.saved_paths@ == paths_of(p0.mini_tracks@),
        reloaded(p1, p2, start),
    ensures
        paths_of(p2.mini_tracks@) == paths_of(p0.mini_tracks@),
        p2.mini_tracks@ == tracks_from_paths(paths_of(p0.mini_tracks@), TrackOrigin::Playlists, start),
        !p2.dirty,
{
    assert(paths_of(p2.mini_tracks@) =~= paths_of(p0.mini_tracks@));
}

/// Naming a playlist keeps the names of the playlists distinct.
pub proof fn lemma_naming_keeps_names_distinct(index: usize, a0: App, a1: App, r: Option<Message>)
    requires
        names_distinct(a0.playlist_ctl.playlists()),
        name_playlist_post(index, a0, a1, r),
    ensures
        names_distinct(a1.playlist_ctl.playlists()),
{
    let ps0 = a0.playlist_ctl.playlists();
    let ps1 = a1.playlist_ctl.playlists();
    let history = a0.user_input.input_history@;
    if history.len() > 0 && index < ps0.len() && !name_in_use(ps0, history.last()@) {
        assert forall|i: int, j: int|
            0 <= i < ps1.len() && 0 <= j < ps1.len() && i != j && (#[trigger] ps1[i]).name is Some
                && (#[trigger] ps1[j]).name is Some implies ps1[i].name.unwrap()@ != ps1[j].name.unwrap()@ by {
            assert(ps1[i] == ps0.update(index as int, ps1[index as int])[i]);
            assert(ps1[j] == ps0.update(index as int, ps1[index as int])[j]);
            if i == index {
                assert(!crate::controller::has_name(ps0[j], history.last()@));
            } else if j == index {
                assert(!crate::controller::has_name(ps0[i], history.last()@));
            } else {
                assert(ps1[i] == ps0[i] && ps1[j] == ps0[j]);
            }
        }
    }
}

/// Creating a playlist keeps the names of the playlists distinct: the new one
/// has no name.
pub proof fn lemma_creating_keeps_names_distinct(c0: PlaylistController, c1: PlaylistController, r: Option<Message>)
    requires
        names_distinct(c0.playlists()),
        create_playlist_post(c0, c1, r),
    ensures
        names_distinct(c1.playlists()),
{
    if !c0.selected_is_dirty() {
        let ps0 = c0.playlists();
        let ps1 = c1.playlists();
        assert forall|i: int, j: int|
            0 <= i < ps1.len() && 0 <= j < ps1.len() && i != j && (#[trigger] ps1[i]).name is Some
                && (#[trigger] ps1[j]).name is Some implies ps1[i].name.unwrap()@ != ps1[j].name.unwrap()@ by {
            assert(i < ps0.len() && j < ps0.len());
            assert(ps1[i] == ps1.drop_last()[i] && ps1[j] == ps1.drop_last()[j]);
        }
    }
}

/// Loading metadata never changes which tracks the playlists and the queue
/// hold, nor their order.
pub proof fn lemma_metadata_keeps_paths(
    index: usize,
    meta: MiniMetadata,
    c0: PlaylistController,
    c1: PlaylistController,
    q0: TrackQueue,
    q1: TrackQueue,
)
    requires
        append_metadata_post(index, meta, c0, c1, q0, q1),
    ensures
        c1.playlists().len() == c0.playlists().len(),
        forall|i: int| 0 <= i < c0.playlists().len() ==> paths_of((#[trigger] c1.playlists()[i]).mini_tracks@)
            == paths_of(c0.playlists()[i].mini_tracks@),
        paths_of(q1.tracks@) == paths_of(q0.tracks@),
{
    if index < c0.playlists().len() && exists|k: int| first_unloaded(c0.playlists()[index as int].mini_tracks@, k) {
        let k = choose|k: int| first_unloaded(c0.playlists()[index as int].mini_tracks@, k);
        let id = c0.playlists()[index as int].mini_tracks@[k].id;
        assert forall|i: int| 0 <= i < c0.playlists().len() implies paths_of((#[trigger] c1.playlists()[i]).mini_tracks@)
            == paths_of(c0.playlists()[i].mini_tracks@) by {
            assert(c1.playlists()[i].mini_tracks@ == with_metadata(c0.playlists()[i].mini_tracks@, id, meta));
            assert(paths_of(c1.playlists()[i].mini_tracks@) =~= paths_of(c0.playlists()[i].mini_tracks@));
        }
        assert(paths_of(q1.tracks@) =~= paths_of(q0.tracks@));
    }
}

/// Enqueueing a playlist shares its tracks with the queue: metadata loaded
/// afterwards for the first track of the playlist without it reaches that
/// track's copy in the queue too.
pub proof fn lemma_enqueued_tracks_get_loaded_metadata(a0: App, a1: App, meta: MiniMetadata, c2: PlaylistController, q2: TrackQueue, k: int)
    requires
        a0.wf(),
        a0.playlist_ctl.tab_focus == crate::controller::PlaylistTabFocus::Playlists,
        a0.playlist_ctl.selected_playlist is Some,
        enqueue_post(a0, a1),
        first_unloaded(a0.playlist_ctl.playlists()[a0.playlist_ctl.selected_playlist.unwrap() as int].mini_tracks@, k),
        append_metadata_post(a0.playlist_ctl.selected_playlist.unwrap(), meta, a1.playlist_ctl, c2, a1.queue, q2),
    ensures
        q2.tracks@[a0.queue.tracks@.len() + k].metadata == Some(meta),
        c2.playlists()[a0.playlist_ctl.selected_playlist.unwrap() as int].mini_tracks@[k].metadata == Some(meta),
{
    let i = a0.playlist_ctl.selected_playlist.unwrap() as int;
    let p = a0.playlist_ctl.playlists()[i];
    assert(tracks_to_enqueue(a0.playlist_ctl) == p.mini_tracks@);
    assert(a1.queue.tracks@[a0.queue.tracks@.len() + k] == p.mini_tracks@[k]);
}

/// When a question is asked, "y" and Enter answer yes, "n" and Esc answer no.
pub proof fn lemma_confirmation_keys(area: FocusedArea)
    ensures
        key_message(KeyCode::Char('y'), InputMode::Confirmation, area) == Some(Message::Confirm(Response::Yes)),
        key_message(KeyCode::Enter, InputMode::Confirmation, area) == Some(Message::Confirm(Response::Yes)),
        key_message(KeyCode::Char('n'), InputMode::Confirmation, area) == Some(Message::Confirm(Response::No)),
        key_message(KeyCode::Esc, InputMode::Confirmation, area) == Some(Message::Confirm(Response::No)),
{
}

/// While a line is edited, every character key types its character, Enter
/// hands the line to its target and Esc leaves without using it.
pub proof fn lemma_editing_keys(c: char, prompt: String, target: InputTarget, area: FocusedArea)
    ensures
        key_message(KeyCode::Char(c), InputMode::Insert(prompt, target), area)
            == Some(Message::UserInput(UserInputMessage::Insert(c))),
        key_message(KeyCode::Enter, InputMode::Insert(prompt, target), area)
            == Some(Message::UserInput(UserInputMessage::Submit(target))),
        key_message(KeyCode::Esc, InputMode::Insert(prompt, target), area)
            == Some(Message::UserInput(UserInputMessage::ExitEarly(target))),
{
}

/// Esc quits wherever keys are commands.
pub proof fn lemma_escape_quits(area: FocusedArea)
    ensures
        key_message(KeyCode::Esc, InputMode::Commands, area) == Some(Message::Quit),
{
}


/// The identity `id` was handed out before by the counters of `app`.
pub open spec fn id_handed_out(id: TrackId, app: App) -> bool {
    match id.origin {
        TrackOrigin::Playlists => id.serial < app.playlist_ctl.playlist_coll.next_serial,
        TrackOrigin::Queue => id.serial < app.queue.next_serial,
    }
}

/// Every track that `app` holds has an identity that its counters handed out.
pub open spec fn identities_handed_out(app: App) -> bool {
    &&& forall|i: int, j: int|
        0 <= i < app.playlist_ctl.playlists().len() && 0 <= j < app.playlist_ctl.playlists()[i].mini_tracks@.len()
            ==> id_handed_out(#[trigger] app.playlist_ctl.playlists()[i].mini_tracks@[j].id, app)
    &&& forall|j: int| 0 <= j < app.queue.tracks@.len() ==> id_handed_out(#[trigger] app.queue.tracks@[j].id, app)
}

/// Adding tracks makes new tracks: while the counters have not run out, none
/// of them shares its identity with a track held before, in any playlist or
/// in the queue.
pub proof fn lemma_added_tracks_are_new(a0: App, c1: PlaylistController, paths: Seq<String>, chosen: Option<Vec<String>>, k: int)
    requires
        identities_handed_out(a0),
        chosen matches Some(v) && v@ == paths,
        a0.playlist_ctl.selected_playlist is Some,
        a0.playlist_ctl.playlist_coll.next_serial + paths.len() < u64::MAX,
        add_tracks_post(a0.playlist_ctl, chosen, c1),
        0 <= k < paths.len(),
    ensures
        ({
            let i = a0.playlist_ctl.selected_playlist.unwrap() as int;
            let t = c1.playlists()[i].mini_tracks@[a0.playlist_ctl.playlists()[i].mini_tracks@.len() + k];
            &&& t.path == paths[k]
            &&& forall|i2: int, j: int|
                0 <= i2 < a0.playlist_ctl.playlists().len() && 0 <= j < a0.playlist_ctl.playlists()[i2].mini_tracks@.len()
                    ==> #[trigger] a0.playlist_ctl.playlists()[i2].mini_tracks@[j].id != t.id
            &&& forall|j: int| 0 <= j < a0.queue.tracks@.len() ==> #[trigger] a0.queue.tracks@[j].id != t.id
        }),
{
    let i = a0.playlist_ctl.selected_playlist.unwrap() as int;
    let n0 = a0.playlist_ctl.playlists()[i].mini_tracks@.len();
    let start = a0.playlist_ctl.playlist_coll.next_serial;
    let t = c1.playlists()[i].mini_tracks@[n0 + k];
    assert(t == tracks_from_paths(paths, TrackOrigin::Playlists, start)[k]);
    assert(t.id.serial >= start);
}


/// The cursor keys of the playlist view do what they say, when there are
/// playlists: left puts the cursor on the playlists; on the tracks, up and
/// down move the selected playlist's cursor one track; on the playlists, up
/// and down move the selection one playlist, unless the selected playlist has
/// unsaved changes, in which case nothing changes and the answer asks to save
/// it first.
pub open spec fn cursor_moves_as_pressed(
    direction: Direction,
    old: PlaylistController,
    new: PlaylistController,
    r: Option<Message>,
) -> bool {
    let n = old.playlists().len();
    &&& (n > 0 && direction == Direction::Left) ==> new.tab_focus == PlaylistTabFocus::Playlists
    &&& (n > 0 && old.tab_focus == PlaylistTabFocus::Tracks && old.selected_playlist is Some) ==> {
        let i = old.selected_playlist.unwrap() as int;
        let t0 = old.playlists()[i].selected_track;
        let t1 = new.playlists()[i].selected_track;
        let m = old.playlists()[i].mini_tracks@.len();
        &&& (direction == Direction::Up && t0 is Some && t0.unwrap() > 0) ==> t1 == Some((t0.unwrap() - 1) as usize)
        &&& (direction == Direction::Down && t0 is Some && t0.unwrap() + 1 < m) ==> t1 == Some(
            (t0.unwrap() + 1) as usize,
        )
    }
    &&& (n > 0 && old.tab_focus == PlaylistTabFocus::Playlists && old.selected_playlist is Some && (direction
        == Direction::Up || direction == Direction::Down)) ==> {
        let i = old.selected_playlist.unwrap();
        if old.playlists()[i as int].dirty {
            &&& new == old
            &&& r == Some(
                Message::Playlist(
                    PlaylistMessage::AskToSave(
                        Box::new(Some(Message::Playlist(PlaylistMessage::Navigate(direction)))),
                    ),
                ),
            )
        } else {
            &&& (direction == Direction::Up && i > 0) ==> new.selected_playlist == Some((i - 1) as usize)
            &&& (direction == Direction::Down && i + 1 < n) ==> new.selected_playlist == Some((i + 1) as usize)
        }
    }
}

/// Scrolling puts the cursor of the half of the playlist view that has it on
/// its first item, or on its last (`to_end`).
pub open spec fn scrolled_to(to_end: bool, old: PlaylistController, new: PlaylistController) -> bool {
    let n = old.playlists().len();
    &&& (old.tab_focus == PlaylistTabFocus::Playlists && n > 0) ==> new.selected_playlist == Some(
        (if to_end { n - 1 } else { 0 }) as usize,
    )
    &&& (old.tab_focus == PlaylistTabFocus::Tracks && old.selected_playlist is Some
        && old.selected_playlist.unwrap() < n) ==> {
        let i = old.selected_playlist.unwrap() as int;
        let m = old.playlists()[i].mini_tracks@.len();
        m > 0 ==> new.playlists()[i].selected_track == Some((if to_end { m - 1 } else { 0 }) as usize)
    }
}

/// Enqueueing takes from the playlist view what the cursor points at: with
/// the cursor on the playlists, all of the selected playlist; with the cursor
/// on the tracks, the selected track only. It goes behind the queue, or in
/// front of it (`to_front`).
pub open spec fn took_from_view(old: App, new: App, to_front: bool) -> bool {
    let c = old.playlist_ctl;
    let q0 = old.queue.tracks@;
    let q1 = new.queue.tracks@;
    if c.selected_playlist is Some && c.selected_playlist.unwrap() < c.playlists().len() {
        let p = c.playlists()[c.selected_playlist.unwrap() as int];
        if c.tab_focus == PlaylistTabFocus::Playlists {
            q1 == (if to_front { p.mini_tracks@ + q0 } else { q0 + p.mini_tracks@ })
        } else if p.selected_track is Some {
            let t = p.mini_tracks@[p.selected_track.unwrap() as int];
            q1 == (if to_front { seq![t] + q0 } else { q0 + seq![t] })
        } else {
            q1 == q0
        }
    } else {
        q1 == q0
    }
}

/// Saving the queue as a playlist, when the queue has tracks, adds one
/// playlist, which holds, in order, the paths played before (when
/// `with_played`), the path playing now, if any, and the queue's paths.
pub open spec fn saved_queue_paths(old: App, new: App, with_played: bool) -> bool {
    old.queue.tracks@.len() > 0 ==> {
        &&& new.playlist_ctl.playlists().len() == old.playlist_ctl.playlists().len() + 1
        &&& paths_of(new.playlist_ctl.playlists().last().mini_tracks@) == (if with_played {
            old.player.previous@
        } else {
            Seq::empty()
        }) + (match old.player.current {
            Some(c) => seq![c],
            None => Seq::<String>::empty(),
        }) + paths_of(old.queue.tracks@)
    }
}

/// Moving the queue's cursor up (`up`) or down steps one track, where there
/// is a track to step to.
pub open spec fn queue_cursor_stepped(up: bool, old: TrackQueue, new: TrackQueue) -> bool {
    let s = old.selected_index;
    &&& (up && s is Some && s.unwrap() > 0) ==> new.selected_index == Some((s.unwrap() - 1) as usize)
    &&& (!up && s is Some && s.unwrap() + 1 < old.tracks@.len()) ==> new.selected_index == Some(
        (s.unwrap() + 1) as usize,
    )
}

/// Scrolling the queue puts its cursor on its first track, or on its last
/// (`to_end`), when it has tracks.
pub open spec fn queue_scrolled_to(to_end: bool, old: TrackQueue, new: TrackQueue) -> bool {
    let n = old.tracks@.len();
    n > 0 ==> new.selected_index == Some((if to_end { n - 1 } else { 0 }) as usize)
}

/// The paths of `a + b` are those of `a`, then those of `b`; the paths of
/// tracks made for paths are those paths.
pub proof fn lemma_paths_of(a: Seq<MiniTrack>, b: Seq<MiniTrack>, ps: Seq<String>, origin: TrackOrigin, start: u64)
    ensures
        paths_of(a + b) == paths_of(a) + paths_of(b),
        paths_of(tracks_from_paths(ps, origin, start)) == ps,
{
    assert(paths_of(a + b) =~= paths_of(a) + paths_of(b));
    assert(paths_of(tracks_from_paths(ps, origin, start)) =~= ps);
}


/// Saving the whole queue holds the played paths first, then the one playing
/// now, then the queue; saving what is still to come leaves the played paths
/// out.
pub proof fn lemma_saved_queue_paths(old: App, new: App, r: Option<Message>, with_played: bool)
    requires
        saved_queue_as_playlist(
            old,
            new,
            if with_played { old.player.previous@ } else { Seq::empty() },
            r,
        ),
    ensures
        saved_queue_paths(old, new, with_played),
{
    if old.queue.tracks@.len() > 0 {
        let played = if with_played { old.player.previous@ } else { Seq::<String>::empty() };
        let made = player_paths(played, old.player);
        let start = old.playlist_ctl.playlist_coll.next_serial;
        let p = new.playlist_ctl.playlists().last();
        lemma_paths_of(tracks_from_paths(made, TrackOrigin::Playlists, start), old.queue.tracks@, made, TrackOrigin::Playlists, start);
        let cur = match old.player.current {
            Some(c) => seq![c],
            None => Seq::<String>::empty(),
        };
        assert(made =~= played + cur);
        assert(paths_of(p.mini_tracks@) =~= played + cur + paths_of(old.queue.tracks@));
    }
}

/// The whole queue saved as a playlist holds more than what is still to come
/// saved alone, by the tracks played before.
pub proof fn lemma_save_full_and_current_differ(old: App, full: App, r1: Option<Message>, current: App, r2: Option<Message>)
    requires
        old.queue.tracks@.len() > 0,
        saved_queue_as_playlist(old, full, old.player.previous@, r1),
        saved_queue_as_playlist(old, current, Seq::empty(), r2),
    ensures
        full.playlist_ctl.playlists().last().mini_tracks@.len() == current.playlist_ctl.playlists().last().mini_tracks@.len()
            + old.player.previous@.len(),
        paths_of(full.playlist_ctl.playlists().last().mini_tracks@).take(old.player.previous@.len() as int)
            == old.player.previous@,
{
    lemma_saved_queue_paths(old, full, r1, true);
    lemma_saved_queue_paths(old, current, r2, false);
    let pf = paths_of(full.playlist_ctl.playlists().last().mini_tracks@);
    let pc = paths_of(current.playlist_ctl.playlists().last().mini_tracks@);
    assert(pf.len() == full.playlist_ctl.playlists().last().mini_tracks@.len());
    assert(pc.len() == current.playlist_ctl.playlists().last().mini_tracks@.len());
    assert(pf.take(old.player.previous@.len() as int) =~= old.player.previous@);
}


/// The arrow key for a direction.
pub open spec fn arrow_key(d: Direction) -> KeyCode {
    match d {
        Direction::Up => KeyCode::Up,
        Direction::Down => KeyCode::Down,
        Direction::Left => KeyCode::Left,
        Direction::Right => KeyCode::Right,
    }
}

/// In the playlist view, each arrow key navigates in its own direction, so
/// that up and down never mean the same; in the queue, up and down move its
/// cursor up and down.
pub proof fn lemma_arrow_keys_follow_direction(d: Direction, area: FocusedArea)
    ensures
        key_message(arrow_key(d), InputMode::Commands, FocusedArea::Playlist) == Some(
            Message::Playlist(PlaylistMessage::Navigate(d)),
        ),
        key_message(KeyCode::Up, InputMode::Commands, area) != key_message(KeyCode::Down, InputMode::Commands, area),
        area != FocusedArea::Playlist ==> {
            &&& key_message(KeyCode::Up, InputMode::Commands, area) == Some(Message::Queue(QueueMessage::MoveUp))
            &&& key_message(KeyCode::Down, InputMode::Commands, area) == Some(Message::Queue(QueueMessage::MoveDown))
        },
{
}

/// Moving the playlist view's cursor does what the key says (see
/// `cursor_moves_as_pressed`); in particular up and down on a track in the
/// middle of a playlist end on different tracks.
pub proof fn lemma_move_cursor_as_pressed(direction: Direction, c0: PlaylistController, c1: PlaylistController, r: Option<Message>)
    requires
        c0.wf(),
        move_cursor_post(direction, c0, c1, r),
    ensures
        cursor_moves_as_pressed(direction, c0, c1, r),
{
    let n = c0.playlists().len();
    if n > 0 && c0.selected_playlist is Some {
        let i = c0.selected_playlist.unwrap() as int;
        assert(c0.playlists()[i].wf());
    }
}

/// The dispatcher moves the cursor as the key says.
pub proof fn lemma_update_playlist_navigates(d: Direction, a0: App, a1: App, r: Option<Message>)
    requires
        a0.wf(),
        update_playlist_post(PlaylistMessage::Navigate(d), a0, a1, r),
    ensures
        cursor_moves_as_pressed(d, a0.playlist_ctl, a1.playlist_ctl, r),
{
    lemma_move_cursor_as_pressed(d, a0.playlist_ctl, a1.playlist_ctl, r);
}

/// Scrolling to the start puts the cursor on the first item and scrolling to
/// the end on the last: with two playlists or more, they end on different
/// playlists.
pub proof fn lemma_update_playlist_scrolls(a0: App, a1: App, r1: Option<Message>, a2: App, r2: Option<Message>)
    requires
        a0.wf(),
        update_playlist_post(PlaylistMessage::ScrollToStart, a0, a1, r1),
        update_playlist_post(PlaylistMessage::ScrollToEnd, a0, a2, r2),
    ensures
        scrolled_to(false, a0.playlist_ctl, a1.playlist_ctl),
        scrolled_to(true, a0.playlist_ctl, a2.playlist_ctl),
        (a0.playlist_ctl.tab_focus == PlaylistTabFocus::Playlists && 2 <= a0.playlist_ctl.playlists().len()
            <= usize::MAX) ==> a1.playlist_ctl.selected_playlist != a2.playlist_ctl.selected_playlist,
{
}

/// Putting in front of the queue takes exactly the tracks that enqueueing
/// appends: the whole selected playlist with the cursor on the playlists, the
/// selected track alone with the cursor on the tracks.
pub proof fn lemma_prepend_takes_what_enqueue_takes(a0: App, a1: App, a2: App)
    requires
        a0.wf(),
        enqueue_post(a0, a1),
        prepend_queue_post(a0, a2),
    ensures
        took_from_view(a0, a1, false),
        took_from_view(a0, a2, true),
        a1.queue.tracks@.len() == a2.queue.tracks@.len(),
        a2.queue.tracks@.take(a2.queue.tracks@.len() - a0.queue.tracks@.len()) == a1.queue.tracks@.skip(
            a0.queue.tracks@.len() as int,
        ),
{
    let x = tracks_to_enqueue(a0.playlist_ctl);
    assert(a2.queue.tracks@.take(x.len() as int) =~= x);
    assert(a1.queue.tracks@.skip(a0.queue.tracks@.len() as int) =~= x);
    let c = a0.playlist_ctl;
    if c.selected_playlist is Some {
        let p = c.playlists()[c.selected_playlist.unwrap() as int];
        assert(p.wf());
    }
}

/// Saving the whole queue from the dispatcher holds the played paths first
/// (`SaveFullAsPlaylist`); saving what is to come leaves them out
/// (`SaveCurrentAsPlaylist`).
pub proof fn lemma_update_queue_saves(a0: App, a1: App, r1: Option<Message>, a2: App, r2: Option<Message>)
    requires
        update_queue_post(QueueMessage::SaveFullAsPlaylist, a0, a1, r1),
        update_queue_post(QueueMessage::SaveCurrentAsPlaylist, a0, a2, r2),
    ensures
        saved_queue_paths(a0, a1, true),
        saved_queue_paths(a0, a2, false),
{
    lemma_saved_queue_paths(a0, a1, r1, true);
    lemma_saved_queue_paths(a0, a2, r2, false);
}

/// The queue's cursor keys and scrolling, through the dispatcher, go the way
/// they say.
pub proof fn lemma_update_queue_moves(a0: App, up: App, r1: Option<Message>, down: App, r2: Option<Message>, start: App, r3: Option<Message>, end: App, r4: Option<Message>)
    requires
        a0.wf(),
        update_queue_post(QueueMessage::MoveUp, a0, up, r1),
        update_queue_post(QueueMessage::MoveDown, a0, down, r2),
        update_queue_post(QueueMessage::ScrollToStart, a0, start, r3),
        update_queue_post(QueueMessage::ScrollToEnd, a0, end, r4),
    ensures
        queue_cursor_stepped(true, a0.queue, up.queue),
        queue_cursor_stepped(false, a0.queue, down.queue),
        queue_scrolled_to(false, a0.queue, start.queue),
        queue_scrolled_to(true, a0.queue, end.queue),
{
}

} // verus!
