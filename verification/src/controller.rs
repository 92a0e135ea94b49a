use vstd::prelude::*;

use crate::track::{advance, next_serial, MiniTrack, TrackId, TrackOrigin};
use crate::playlist::{next_selection, prev_selection, selection_after_removal, paths_of, Playlist};

verus! {

/// Which half of the playlist view has the cursor.
#[derive(Clone, Copy, Debug, PartialEq, Eq)]
pub enum PlaylistTabFocus {
    Playlists,
    Tracks,
}

/// `new` is `old` with at most the playlist at `i` changed.
pub open spec fn changed_only_at(old: Seq<Playlist>, new: Seq<Playlist>, i: int) -> bool {
    new == old.update(i, new[i])
}

/// Every playlist; the requests for the metadata loader: for each, the
/// index of a playlist and the paths whose metadata it should load; and the
/// counter from which new tracks of the playlists get their identities.
#[derive(Debug, PartialEq, Eq)]
pub struct PlaylistCollection {
    pub playlists: Vec<Playlist>,
    pub metadata_requests: Vec<(usize, Vec<String>)>,
    pub next_serial: u64,
}

impl PlaylistCollection {
    pub open spec fn wf(&self) -> bool {
        forall|i: int| 0 <= i < self.playlists@.len() ==> (#[trigger] self.playlists@[i]).wf()
    }

    /// No playlists and no requests.
    pub fn new() -> (r: PlaylistCollection)
        ensures
            r.wf(),
            r.playlists@.len() == 0,
            r.metadata_requests@.len() == 0,
            r.next_serial == 0,
    {
        PlaylistCollection { playlists: Vec::new(), metadata_requests: Vec::new(), next_serial: 0 }
    }

    pub fn len(&self) -> (r: usize)
        ensures
            r == self.playlists@.len(),
    {
        self.playlists.len()
    }

    pub fn is_empty(&self) -> (r: bool)
        ensures
            r == (self.playlists@.len() == 0),
    {
        self.playlists.len() == 0
    }

    /// Appends a new track for `path` to the playlist at `index`, where there
    /// is one, and asks the metadata loader for its metadata.
    pub fn add_tracks_to_playlist(&mut self, path: String, index: usize)
        requires
            old(self).wf(),
        ensures
            final(self).wf(),
            index < old(self).playlists@.len() ==> {
                &&& changed_only_at(old(self).playlists@, final(self).playlists@, index as int)
                &&& final(self).playlists@[index as int].mini_tracks@ == old(
                    self,
                ).playlists@[index as int].mini_tracks@.push(
                    MiniTrack {
                        id: TrackId { origin: TrackOrigin::Playlists, serial: old(self).next_serial },
                        path,
                        metadata: None,
                    },
                )
                &&& final(self).next_serial == advance(old(self).next_serial, 1)
                &&& final(self).playlists@[index as int].dirty
                &&& final(self).playlists@[index as int].name == old(self).playlists@[index as int].name
                &&& final(self).playlists@[index as int].selected_track == old(
                    self,
                ).playlists@[index as int].selected_track
                &&& final(self).playlists@[index as int].saved_paths == old(
                    self,
                ).playlists@[index as int].saved_paths
                &&& final(self).metadata_requests@.len() == old(self).metadata_requests@.len() + 1
                &&& final(self).metadata_requests@.drop_last() == old(self).metadata_requests@
                &&& final(self).metadata_requests@.last().0 == index
                &&& final(self).metadata_requests@.last().1@ == seq![path]
            },
            index >= old(self).playlists@.len() ==> *final(self) == *old(self),
    {
        if index < self.playlists.len() {
            let mut paths: Vec<String> = Vec::new();
            paths.push(path.clone());
            let id = TrackId { origin: TrackOrigin::Playlists, serial: self.next_serial };
            self.playlists[index].add_track(id, path);
            self.next_serial = next_serial(self.next_serial);
            self.metadata_requests.push((index, paths));
            assert(self.playlists@ == old(self).playlists@.update(index as int, self.playlists@[index as int]));
            assert forall|i: int| 0 <= i < self.playlists@.len() implies (#[trigger] self.playlists@[i]).wf() by {
                if i != index {
                    assert(self.playlists@[i] == old(self).playlists@[i]);
                }
            }
        }
    }
}

/// The playlist view: the playlists, which one is selected, which half of
/// the view has the cursor, and whether moving a track's cursor moves the
/// track too (arrange mode).
#[derive(Debug, PartialEq, Eq)]
pub struct PlaylistController {
    pub playlist_coll: PlaylistCollection,
    pub selected_playlist: Option<usize>,
    pub tab_focus: PlaylistTabFocus,
    pub arrange_mode: bool,
}

impl PlaylistController {
    /// Every playlist is well formed and the selection, where there is one,
    /// stands on a playlist.
    pub open spec fn wf(&self) -> bool {
        &&& self.playlist_coll.wf()
        &&& self.selected_playlist matches Some(i) ==> i < self.playlist_coll.playlists@.len()
    }

    /// Whether every playlist is well formed and the selection stands on one.
    pub fn is_well_formed(&self) -> (r: bool)
        ensures
            r == self.wf(),
    {
        let n = self.playlist_coll.playlists.len();
        for i in 0..n
            invariant
                n == self.playlists().len(),
                forall|j: int| 0 <= j < i ==> (#[trigger] self.playlists()[j]).wf(),
        {
            if !self.playlist_coll.playlists[i].is_well_formed() {
                return false;
            }
        }
        match self.selected_playlist {
            Some(i) => i < n,
            None => true,
        }
    }

    pub open spec fn playlists(&self) -> Seq<Playlist> {
        self.playlist_coll.playlists@
    }

    /// The selected playlist, where one is selected.
    pub open spec fn selected(&self) -> Option<Playlist> {
        match self.selected_playlist {
            Some(i) => if i < self.playlists().len() { Some(self.playlists()[i as int]) } else { None },
            None => None,
        }
    }

    /// A playlist is selected and has changes that were not saved.
    pub open spec fn selected_is_dirty(&self) -> bool {
        self.selected() matches Some(p) && p.dirty
    }

    /// No playlists, the cursor on the list of playlists, arrange mode off.
    pub fn new() -> (r: PlaylistController)
        ensures
            r.wf(),
            r.playlists().len() == 0,
            r.playlist_coll.metadata_requests@.len() == 0,
            r.playlist_coll.next_serial == 0,
            r.selected_playlist is None,
            r.tab_focus == PlaylistTabFocus::Playlists,
            !r.arrange_mode,
    {
        PlaylistController {
            playlist_coll: PlaylistCollection::new(),
            selected_playlist: None,
            tab_focus: PlaylistTabFocus::Playlists,
            arrange_mode: false,
        }
    }

    /// Whether the selected playlist has unsaved changes; false when none is
    /// selected.
    pub fn selected_is_dirty_exec(&self) -> (r: bool)
        requires
            self.wf(),
        ensures
            r == self.selected_is_dirty(),
    {
        match self.selected_playlist {
            Some(i) => self.playlist_coll.playlists[i].is_dirty(),
            None => false,
        }
    }
    /// Adds a new, empty, unnamed playlist at the end and selects it;
    /// answers its index.
    pub fn create_playlist(&mut self) -> (index: usize)
        requires
            old(self).wf(),
        ensures
            final(self).wf(),
            index == old(self).playlists().len(),
            created_playlist(*old(self), *final(self)),
    {
        let index = self.playlist_coll.playlists.len();
        self.playlist_coll.playlists.push(Playlist::new());
        self.selected_playlist = Some(index);
        assert(self.playlists().drop_last() == old(self).playlists());
        assert forall|i: int| 0 <= i < self.playlists().len() implies (#[trigger] self.playlists()[i]).wf() by {
            if i < index {
                assert(self.playlists()[i] == old(self).playlists()[i]);
            }
        }
        index
    }

    /// Selects the playlist above the selected one; the selection stops at
    /// the first playlist.
    pub fn prev_playlist(&mut self)
        requires
            old(self).wf(),
        ensures
            final(self).wf(),
            final(self).selected_playlist == prev_selection(
                old(self).selected_playlist,
                old(self).playlists().len(),
            ),
            final(self).playlist_coll == old(self).playlist_coll,
            final(self).tab_focus == old(self).tab_focus,
            final(self).arrange_mode == old(self).arrange_mode,
    {
        let len = self.playlist_coll.playlists.len();
        self.selected_playlist = match self.selected_playlist {
            Some(i) => if i > 0 { Some(i - 1) } else { Some(i) },
            None => if len > 0 { Some(0) } else { None },
        };
    }

    /// Selects the playlist below the selected one; the selection stops at
    /// the last playlist.
    pub fn next_playlist(&mut self)
        requires
            old(self).wf(),
        ensures
            final(self).wf(),
            final(self).selected_playlist == next_selection(
                old(self).selected_playlist,
                old(self).playlists().len(),
            ),
            final(self).playlist_coll == old(self).playlist_coll,
            final(self).tab_focus == old(self).tab_focus,
            final(self).arrange_mode == old(self).arrange_mode,
    {
        let len = self.playlist_coll.playlists.len();
        self.selected_playlist = match self.selected_playlist {
            Some(i) => if i + 1 < len { Some(i + 1) } else { Some(i) },
            None => if len > 0 { Some(0) } else { None },
        };
    }

    /// Removes the selected playlist, if one is selected; the selection stays
    /// in place or goes to the new last playlist.
    pub fn delete_selected_playlist(&mut self)
        requires
            old(self).wf(),
        ensures
            final(self).wf(),
            deleted_selected(*old(self), *final(self)),
    {
        if let Some(i) = self.selected_playlist {
            self.playlist_coll.playlists.remove(i);
            let n = self.playlist_coll.playlists.len();
            self.selected_playlist = if n == 0 {
                None
            } else if i < n {
                Some(i)
            } else {
                Some(n - 1)
            };
            assert forall|j: int| 0 <= j < self.playlists().len() implies (#[trigger] self.playlists()[j]).wf() by {
                if j < i {
                    assert(self.playlists()[j] == old(self).playlists()[j]);
                } else {
                    assert(self.playlists()[j] == old(self).playlists()[j + 1]);
                }
            }
        }
    }

    /// Saves the selected playlist, if one is selected.
    pub fn save_selected(&mut self)
        requires
            old(self).wf(),
        ensures
            final(self).wf(),
            saved_selected(*old(self), *final(self)),
    {
        if let Some(i) = self.selected_playlist {
            self.playlist_coll.playlists[i].save();
            proof {
                lemma_changed_only_at_keeps_wf(*old(self), *self, i as int);
            }
        }
    }

    /// Whether some playlist is named `name`.
    pub fn name_taken(&self, name: &String) -> (r: bool)
        ensures
            r == name_in_use(self.playlists(), name@),
    {
        let n = self.playlist_coll.playlists.len();
        for j in 0..n
            invariant
                n == self.playlists().len(),
                forall|k: int| 0 <= k < j ==> !has_name(#[trigger] self.playlists()[k], name@),
        {
            match &self.playlist_coll.playlists[j].name {
                Some(s) => {
                    if *s == *name {
                        return true;
                    }
                },
                None => {},
            }
        }
        false
    }

    /// Renames the playlist at `index`, where there is one.
    pub fn rename_playlist_at(&mut self, index: usize, name: String)
        requires
            old(self).wf(),
        ensures
            final(self).wf(),
            index < old(self).playlists().len() ==> {
                &&& changed_only_at(old(self).playlists(), final(self).playlists(), index as int)
                &&& renamed(old(self).playlists()[index as int], final(self).playlists()[index as int], name)
            },
            index >= old(self).playlists().len() ==> final(self).playlist_coll == old(self).playlist_coll,
            final(self).playlist_coll.metadata_requests == old(self).playlist_coll.metadata_requests,
            final(self).playlist_coll.next_serial == old(self).playlist_coll.next_serial,
            final(self).selected_playlist == old(self).selected_playlist,
            final(self).tab_focus == old(self).tab_focus,
            final(self).arrange_mode == old(self).arrange_mode,
    {
        if index < self.playlist_coll.playlists.len() {
            self.playlist_coll.playlists[index].rename(name);
            proof {
                lemma_changed_only_at_keeps_wf(*old(self), *self, index as int);
            }
        }
    }
}

/// `new` is `old` with a new playlist at the end, which is selected.
pub open spec fn created_playlist(old: PlaylistController, new: PlaylistController) -> bool {
    let index = old.playlists().len();
    &&& new.playlists().len() == index + 1
    &&& new.playlists().drop_last() == old.playlists()
    &&& is_fresh(new.playlists()[index as int])
    &&& new.selected_playlist == Some(index as usize)
    &&& new.playlist_coll.metadata_requests == old.playlist_coll.metadata_requests
    &&& new.playlist_coll.next_serial == old.playlist_coll.next_serial
    &&& new.tab_focus == old.tab_focus
    &&& new.arrange_mode == old.arrange_mode
}

/// `new` is `old` without its selected playlist, if one was selected; the
/// selection stays in place or goes to the new last playlist.
pub open spec fn deleted_selected(old: PlaylistController, new: PlaylistController) -> bool {
    match old.selected_playlist {
        Some(i) => {
            &&& new.playlists() == old.playlists().remove(i as int)
            &&& new.selected_playlist == selection_after_removal(i, new.playlists().len())
            &&& new.playlist_coll.metadata_requests == old.playlist_coll.metadata_requests
            &&& new.playlist_coll.next_serial == old.playlist_coll.next_serial
            &&& new.tab_focus == old.tab_focus
            &&& new.arrange_mode == old.arrange_mode
        },
        None => new == old,
    }
}

/// `new` is `old` with its selected playlist, if one was selected, saved.
pub open spec fn saved_selected(old: PlaylistController, new: PlaylistController) -> bool {
    &&& match old.selected_playlist {
        Some(i) => saved_at(old.playlists(), new.playlists(), i as int),
        None => new.playlist_coll == old.playlist_coll,
    }
    &&& new.playlist_coll.metadata_requests == old.playlist_coll.metadata_requests
    &&& new.playlist_coll.next_serial == old.playlist_coll.next_serial
    &&& new.selected_playlist == old.selected_playlist
    &&& new.tab_focus == old.tab_focus
    &&& new.arrange_mode == old.arrange_mode
}

/// The playlist was just made: unnamed, empty, saved, without a cursor.
pub open spec fn is_fresh(p: Playlist) -> bool {
    &&& p.name is None
    &&& p.mini_tracks@.len() == 0
    &&& p.selected_track is None
    &&& p.saved_paths@.len() == 0
    &&& !p.dirty
}

/// The playlist is named `name`.
pub open spec fn has_name(p: Playlist, name: Seq<char>) -> bool {
    p.name matches Some(n) && n@ == name
}

/// Some playlist is named `name`.
pub open spec fn name_in_use(ps: Seq<Playlist>, name: Seq<char>) -> bool {
    exists|k: int| 0 <= k < ps.len() && has_name(#[trigger] ps[k], name)
}

/// `new` is `old` with the name `name` and nothing else changed.
pub open spec fn renamed(old: Playlist, new: Playlist, name: String) -> bool {
    &&& new.name == Some(name)
    &&& new.mini_tracks == old.mini_tracks
    &&& new.selected_track == old.selected_track
    &&& new.saved_paths == old.saved_paths
    &&& new.dirty == old.dirty
}

/// The playlist at `i` of `new` is that of `old`, saved; the others are unchanged.
pub open spec fn saved_at(old: Seq<Playlist>, new: Seq<Playlist>, i: int) -> bool {
    &&& changed_only_at(old, new, i)
    &&& new[i].saved_paths@ == paths_of(old[i].mini_tracks@)
    &&& !new[i].dirty
    &&& new[i].name == old[i].name
    &&& new[i].mini_tracks == old[i].mini_tracks
    &&& new[i].selected_track == old[i].selected_track
}

/// Changing one well-formed playlist, and nothing else that the well-formedness
/// speaks of, keeps the controller well formed.
pub proof fn lemma_changed_only_at_keeps_wf(old: PlaylistController, new: PlaylistController, i: int)
    requires
        old.wf(),
        0 <= i < old.playlists().len(),
        changed_only_at(old.playlists(), new.playlists(), i),
        new.playlists()[i].wf(),
        new.selected_playlist == old.selected_playlist,
    ensures
        new.wf(),
{
    assert forall|j: int| 0 <= j < new.playlists().len() implies (#[trigger] new.playlists()[j]).wf() by {
        if j != i {
            assert(new.playlists()[j] == old.playlists()[j]);
        }
    }
}

} // verus!
