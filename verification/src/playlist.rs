use vstd::prelude::*;

use crate::track::{advance, fresh_id, next_serial, MiniTrack, TrackId, TrackOrigin};

verus! {

/// The paths of `tracks`, in order.
pub open spec fn paths_of(tracks: Seq<MiniTrack>) -> Seq<String> {
    tracks.map_values(|t: MiniTrack| t.path)
}

/// New tracks, without metadata, for `paths`, in order, with the identities
/// that `origin`'s counter hands out from `start` on.
pub open spec fn tracks_from_paths(paths: Seq<String>, origin: TrackOrigin, start: u64) -> Seq<MiniTrack> {
    Seq::new(paths.len(), |k: int| MiniTrack { id: fresh_id(origin, start, k), path: paths[k], metadata: None })
}

/// `s` with the items at `i` and `j` exchanged.
pub open spec fn swapped<T>(s: Seq<T>, i: int, j: int) -> Seq<T> {
    s.update(i, s[j]).update(j, s[i])
}

/// The cursor one step further down a list of `len` items: it stops at
/// the last item, and an empty cursor goes to the first item.
pub open spec fn next_selection(sel: Option<usize>, len: nat) -> Option<usize> {
    match sel {
        Some(i) => if i + 1 < len { Some((i + 1) as usize) } else { Some(i) },
        None => if len > 0 { Some(0) } else { None },
    }
}

/// The cursor one step further up a list of `len` items: it stops at the
/// first item, and an empty cursor goes to the first item.
pub open spec fn prev_selection(sel: Option<usize>, len: nat) -> Option<usize> {
    match sel {
        Some(i) => if i > 0 { Some((i - 1) as usize) } else { Some(i) },
        None => if len > 0 { Some(0) } else { None },
    }
}

/// The cursor after the item at `i` was removed, leaving `new_len` items:
/// it stays at `i`, or goes to the new last item, or goes away with the
/// last item.
pub open spec fn selection_after_removal(i: usize, new_len: nat) -> Option<usize> {
    if new_len == 0 {
        None
    } else if i < new_len {
        Some(i)
    } else {
        Some((new_len - 1) as usize)
    }
}

/// The cursor stands on an item that has one below it.
pub open spec fn can_step_down(sel: Option<usize>, len: nat) -> bool {
    sel matches Some(i) && i + 1 < len
}

/// The cursor stands on an item that has one above it.
pub open spec fn can_step_up(sel: Option<usize>, len: nat) -> bool {
    sel matches Some(i) && 0 < i < len
}

/// `new` is `old` with the cursor one step down; in arrange mode the
/// selected track goes down with it, which leaves the playlist unsaved.
pub open spec fn stepped_down(old: Playlist, new: Playlist, arrange: bool) -> bool {
    let len = old.mini_tracks@.len();
    &&& new.name == old.name
    &&& new.saved_paths == old.saved_paths
    &&& new.selected_track == next_selection(old.selected_track, len)
    &&& if arrange && can_step_down(old.selected_track, len) {
        let i = old.selected_track.unwrap() as int;
        new.mini_tracks@ == swapped(old.mini_tracks@, i, i + 1) && new.dirty
    } else {
        new.mini_tracks@ == old.mini_tracks@ && new.dirty == old.dirty
    }
}

/// `new` is `old` with the cursor one step up; in arrange mode the
/// selected track goes up with it, which leaves the playlist unsaved.
pub open spec fn stepped_up(old: Playlist, new: Playlist, arrange: bool) -> bool {
    let len = old.mini_tracks@.len();
    &&& new.name == old.name
    &&& new.saved_paths == old.saved_paths
    &&& new.selected_track == prev_selection(old.selected_track, len)
    &&& if arrange && can_step_up(old.selected_track, len) {
        let i = old.selected_track.unwrap() as int;
        new.mini_tracks@ == swapped(old.mini_tracks@, i - 1, i) && new.dirty
    } else {
        new.mini_tracks@ == old.mini_tracks@ && new.dirty == old.dirty
    }
}

/// `new` is `old` without its selected track, if it had one: the cursor
/// stays in place or goes to the new last track, and the playlist is unsaved.
pub open spec fn removed_selected(old: Playlist, new: Playlist) -> bool {
    match old.selected_track {
        Some(i) => {
            &&& new.mini_tracks@ == old.mini_tracks@.remove(i as int)
            &&& new.selected_track == selection_after_removal(i, new.mini_tracks@.len())
            &&& new.dirty
            &&& new.name == old.name
            &&& new.saved_paths == old.saved_paths
        },
        None => new == old,
    }
}

/// `new` is `old` with new tracks, as they were last saved, without metadata,
/// whose identities the playlists' counter hands out from `start` on; the
/// cursor stays where it still stands on a track.
pub open spec fn reloaded(old: Playlist, new: Playlist, start: u64) -> bool {
    &&& new.mini_tracks@ == tracks_from_paths(old.saved_paths@, TrackOrigin::Playlists, start)
    &&& new.selected_track == (match old.selected_track {
        Some(i) => if i < old.saved_paths@.len() { Some(i) } else { None },
        None => None,
    })
    &&& !new.dirty
    &&& new.name == old.name
    &&& new.saved_paths == old.saved_paths
}

/// A playlist: a named list of tracks with a cursor, and the list of paths
/// as it was last saved. `dirty` says that it changed since it was saved.
#[derive(Debug, PartialEq, Eq)]
pub struct Playlist {
    pub name: Option<String>,
    pub mini_tracks: Vec<MiniTrack>,
    pub selected_track: Option<usize>,
    pub saved_paths: Vec<String>,
    pub dirty: bool,
}

impl Playlist {
    /// The cursor, where there is one, stands on a track.
    pub open spec fn wf(&self) -> bool {
        self.selected_track matches Some(i) ==> i < self.mini_tracks.len()
    }

    /// Whether the cursor, where there is one, stands on a track.
    pub fn is_well_formed(&self) -> (r: bool)
        ensures
            r == self.wf(),
    {
        match self.selected_track {
            Some(i) => i < self.mini_tracks.len(),
            None => true,
        }
    }

    /// An unnamed, empty, saved playlist.
    pub fn new() -> (r: Playlist)
        ensures
            r.wf(),
            r.name is None,
            r.mini_tracks@.len() == 0,
            r.selected_track is None,
            r.saved_paths@.len() == 0,
            !r.dirty,
    {
        Playlist {
            name: None,
            mini_tracks: Vec::new(),
            selected_track: None,
            saved_paths: Vec::new(),
            dirty: false,
        }
    }

    pub fn len(&self) -> (r: usize)
        ensures
            r == self.mini_tracks@.len(),
    {
        self.mini_tracks.len()
    }

    pub fn is_empty(&self) -> (r: bool)
        ensures
            r == (self.mini_tracks@.len() == 0),
    {
        self.mini_tracks.len() == 0
    }

    pub fn is_dirty(&self) -> (r: bool)
        ensures
            r == self.dirty,
    {
        self.dirty
    }

    /// The paths of the tracks, in order.
    pub fn get_path_vec(&self) -> (r: Vec<String>)
        ensures
            r@ == paths_of(self.mini_tracks@),
    {
        let mut r: Vec<String> = Vec::new();
        let n = self.mini_tracks.len();
        for i in 0..n
            invariant
                n == self.mini_tracks@.len(),
                r@ == paths_of(self.mini_tracks@.take(i as int)),
        {
            r.push(self.mini_tracks[i].path.clone());
            assert(self.mini_tracks@.take(i + 1) == self.mini_tracks@.take(i as int).push(
                self.mini_tracks@[i as int],
            ));
        }
        assert(self.mini_tracks@.take(n as int) == self.mini_tracks@);
        r
    }

    /// Gives the playlist a new name.
    pub fn rename(&mut self, name: String)
        ensures
            final(self).name == Some(name),
            final(self).mini_tracks == old(self).mini_tracks,
            final(self).selected_track == old(self).selected_track,
            final(self).saved_paths == old(self).saved_paths,
            final(self).dirty == old(self).dirty,
    {
        self.name = Some(name);
    }

    /// Appends a new track of identity `id` without metadata for `path`; the
    /// playlist is then unsaved.
    pub fn add_track(&mut self, id: TrackId, path: String)
        requires
            old(self).wf(),
        ensures
            final(self).wf(),
            final(self).mini_tracks@ == old(self).mini_tracks@.push(
                MiniTrack { id, path, metadata: None },
            ),
            final(self).dirty,
            final(self).name == old(self).name,
            final(self).selected_track == old(self).selected_track,
            final(self).saved_paths == old(self).saved_paths,
    {
        self.mini_tracks.push(MiniTrack::new(id, path));
        self.dirty = true;
    }
    /// Moves the cursor one step down; in arrange mode the selected track
    /// moves down with it.
    pub fn select_next_track(&mut self, arrange_mode: bool)
        requires
            old(self).wf(),
        ensures
            final(self).wf(),
            stepped_down(*old(self), *final(self), arrange_mode),
    {
        let len = self.mini_tracks.len();
        match self.selected_track {
            Some(i) => {
                if i + 1 < len {
                    if arrange_mode {
                        let t = self.mini_tracks.remove(i);
                        self.mini_tracks.insert(i + 1, t);
                        self.dirty = true;
                        assert(self.mini_tracks@ == swapped(old(self).mini_tracks@, i as int, i + 1));
                    }
                    self.selected_track = Some(i + 1);
                }
            },
            None => {
                if len > 0 {
                    self.selected_track = Some(0);
                }
            },
        }
    }

    /// Moves the cursor one step up; in arrange mode the selected track
    /// moves up with it.
    pub fn select_prev_track(&mut self, arrange_mode: bool)
        requires
            old(self).wf(),
        ensures
            final(self).wf(),
            stepped_up(*old(self), *final(self), arrange_mode),
    {
        let len = self.mini_tracks.len();
        match self.selected_track {
            Some(i) => {
                if i > 0 {
                    if arrange_mode {
                        let t = self.mini_tracks.remove(i);
                        self.mini_tracks.insert(i - 1, t);
                        self.dirty = true;
                        assert(self.mini_tracks@ == swapped(old(self).mini_tracks@, i - 1, i as int));
                    }
                    self.selected_track = Some(i - 1);
                }
            },
            None => {
                if len > 0 {
                    self.selected_track = Some(0);
                }
            },
        }
    }

    /// Removes the selected track, if there is one; the cursor stays in
    /// place or goes to the new last track, and the playlist is then unsaved.
    pub fn remove_selected(&mut self)
        requires
            old(self).wf(),
        ensures
            final(self).wf(),
            removed_selected(*old(self), *final(self)),
    {
        if let Some(i) = self.selected_track {
            self.mini_tracks.remove(i);
            let n = self.mini_tracks.len();
            self.selected_track = if n == 0 {
                None
            } else if i < n {
                Some(i)
            } else {
                Some(n - 1)
            };
            self.dirty = true;
        }
    }

    /// Records the current tracks as the saved ones; the playlist is then
    /// saved.
    pub fn save(&mut self)
        requires
            old(self).wf(),
        ensures
            final(self).wf(),
            final(self).saved_paths@ == paths_of(old(self).mini_tracks@),
            !final(self).dirty,
            final(self).name == old(self).name,
            final(self).mini_tracks == old(self).mini_tracks,
            final(self).selected_track == old(self).selected_track,
    {
        self.saved_paths = self.get_path_vec();
        self.dirty = false;
    }

    /// Puts back new tracks as they were last saved, without metadata, with
    /// the identities that the playlists' counter hands out from `start` on;
    /// the cursor stays where it still stands on a track. Answers the counter
    /// after them.
    pub fn reload(&mut self, start: u64) -> (counter: u64)
        requires
            old(self).wf(),
        ensures
            final(self).wf(),
            reloaded(*old(self), *final(self), start),
            counter == advance(start, old(self).saved_paths@.len() as int),
    {
        let mut tracks: Vec<MiniTrack> = Vec::new();
        let n = self.saved_paths.len();
        let mut counter = start;
        for i in 0..n
            invariant
                n == self.saved_paths@.len(),
                counter == advance(start, i as int),
                tracks@ == tracks_from_paths(self.saved_paths@.take(i as int), TrackOrigin::Playlists, start),
        {
            let id = TrackId { origin: TrackOrigin::Playlists, serial: counter };
            tracks.push(MiniTrack::new(id, self.saved_paths[i].clone()));
            counter = next_serial(counter);
            assert(tracks@ =~= tracks_from_paths(self.saved_paths@.take(i + 1), TrackOrigin::Playlists, start));
        }
        assert(self.saved_paths@.take(n as int) == self.saved_paths@);
        self.mini_tracks = tracks;
        self.selected_track = match self.selected_track {
            Some(i) => if i < n { Some(i) } else { None },
            None => None,
        };
        self.dirty = false;
        counter
    }
}

} // verus!
