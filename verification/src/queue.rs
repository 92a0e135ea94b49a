use vstd::prelude::*;

use rand::seq::SliceRandom;

use crate::playlist::{next_selection, prev_selection, selection_after_removal, swapped, tracks_from_paths};
use crate::track::{advance, next_serial, MiniTrack, TrackId, TrackOrigin};

verus! {

/// Why the selected track of the queue could not move.
#[derive(Clone, Copy, Debug, PartialEq, Eq)]
pub enum QueueError {
    /// The queue holds no track.
    Empty,
    /// The selected track is the first one.
    AtTop,
    /// The selected track is the last one.
    AtBottom,
}

/// The tracks still to play, a cursor, the arrange mode (moving the cursor
/// moves the selected track too), the lists of paths waiting for the worker
/// that turns paths into tracks, and the counter from which tracks that the
/// queue makes get their identities.
#[derive(Debug, PartialEq, Eq)]
pub struct TrackQueue {
    pub tracks: Vec<MiniTrack>,
    pub selected_index: Option<usize>,
    pub arrange_mode: bool,
    pub to_process: Vec<Vec<String>>,
    pub next_serial: u64,
}

/// Exchanges the tracks in a random order: calls rand's `SliceRandom::shuffle`
/// with the thread-local generator. That function only swaps items of the
/// slice, so the same tracks come out as went in; which order comes out is
/// chance and is not stated.
#[verifier::external_body]
fn shuffle_tracks(tracks: &mut Vec<MiniTrack>)
    ensures
        final(tracks)@.to_multiset() == old(tracks)@.to_multiset(),
{
    tracks.shuffle(&mut rand::rng());
}

impl TrackQueue {
    /// The cursor, where there is one, stands on a track.
    pub open spec fn wf(&self) -> bool {
        self.selected_index matches Some(i) ==> i < self.tracks@.len()
    }

    /// Whether the cursor, where there is one, stands on a track.
    pub fn is_well_formed(&self) -> (r: bool)
        ensures
            r == self.wf(),
    {
        match self.selected_index {
            Some(i) => i < self.tracks.len(),
            None => true,
        }
    }

    /// `new` holds what `old` holds, but maybe other tracks and another cursor.
    pub open spec fn same_settings(old: TrackQueue, new: TrackQueue) -> bool {
        &&& new.arrange_mode == old.arrange_mode
        &&& new.to_process == old.to_process
        &&& new.next_serial == old.next_serial
    }

    /// `new` is `old` with `n` more tracks made: the counter moved on by `n`;
    /// the mode and the worker's lists stay.
    pub open spec fn made_tracks(old: TrackQueue, new: TrackQueue, n: int) -> bool {
        &&& new.arrange_mode == old.arrange_mode
        &&& new.to_process == old.to_process
        &&& new.next_serial == advance(old.next_serial, n)
    }

    /// An empty queue, arrange mode off, nothing waiting for the worker.
    pub fn new() -> (r: TrackQueue)
        ensures
            r.wf(),
            r.tracks@.len() == 0,
            r.selected_index is None,
            !r.arrange_mode,
            r.to_process@.len() == 0,
            r.next_serial == 0,
    {
        TrackQueue {
            tracks: Vec::new(),
            selected_index: None,
            arrange_mode: false,
            to_process: Vec::new(),
            next_serial: 0,
        }
    }

    pub fn len(&self) -> (r: usize)
        ensures
            r == self.tracks@.len(),
    {
        self.tracks.len()
    }

    pub fn is_empty(&self) -> (r: bool)
        ensures
            r == (self.tracks@.len() == 0),
    {
        self.tracks.len() == 0
    }

    /// Appends a new track without metadata for each path, in order.
    pub fn enqueue_paths(&mut self, paths: Vec<String>)
        requires
            old(self).wf(),
        ensures
            final(self).wf(),
            final(self).tracks@ == old(self).tracks@ + tracks_from_paths(
                paths@,
                TrackOrigin::Queue,
                old(self).next_serial,
            ),
            final(self).selected_index == old(self).selected_index,
            Self::made_tracks(*old(self), *final(self), paths@.len() as int),
    {
        let n = paths.len();
        for k in 0..n
            invariant
                n == paths@.len(),
                self.tracks@ == old(self).tracks@ + tracks_from_paths(
                    paths@.take(k as int),
                    TrackOrigin::Queue,
                    old(self).next_serial,
                ),
                self.selected_index == old(self).selected_index,
                Self::made_tracks(*old(self), *self, k as int),
                self.wf(),
        {
            let id = TrackId { origin: TrackOrigin::Queue, serial: self.next_serial };
            self.tracks.push(MiniTrack::new(id, paths[k].clone()));
            self.next_serial = next_serial(self.next_serial);
            assert(self.tracks@ =~= old(self).tracks@ + tracks_from_paths(
                paths@.take(k + 1),
                TrackOrigin::Queue,
                old(self).next_serial,
            ));
        }
        assert(paths@.take(n as int) == paths@);
    }

    /// Appends `track` as a new track: it gets a new identity.
    pub fn enqueue_mini_track(&mut self, track: MiniTrack)
        requires
            old(self).wf(),
        ensures
            final(self).wf(),
            final(self).tracks@ == old(self).tracks@.push(
                MiniTrack { id: TrackId { origin: TrackOrigin::Queue, serial: old(self).next_serial }, ..track },
            ),
            final(self).selected_index == old(self).selected_index,
            Self::made_tracks(*old(self), *final(self), 1),
    {
        let mut track = track;
        track.id = TrackId { origin: TrackOrigin::Queue, serial: self.next_serial };
        self.tracks.push(track);
        self.next_serial = next_serial(self.next_serial);
    }

    /// Appends `track`, shared with whoever holds it: it keeps its identity.
    pub fn enqueue_mini_track_ref(&mut self, track: MiniTrack)
        requires
            old(self).wf(),
        ensures
            final(self).wf(),
            final(self).tracks@ == old(self).tracks@.push(track),
            final(self).selected_index == old(self).selected_index,
            Self::same_settings(*old(self), *final(self)),
    {
        self.tracks.push(track);
    }

    /// Puts `tracks` in front of the queue, in their order, shared with whoever
    /// holds them; the cursor stays on the track it stood on.
    pub fn prepend_mini_track_refs(&mut self, tracks: Vec<MiniTrack>)
        requires
            old(self).wf(),
        ensures
            final(self).wf(),
            final(self).tracks@ == tracks@ + old(self).tracks@,
            final(self).selected_index == (match old(self).selected_index {
                Some(i) => Some((i + tracks@.len()) as usize),
                None => None,
            }),
            Self::same_settings(*old(self), *final(self)),
    {
        let k = tracks.len();
        let mut front = tracks;
        front.append(&mut self.tracks);
        self.tracks = front;
        let total = self.tracks.len();
        assert(total == k + old(self).tracks@.len());
        self.selected_index = match self.selected_index {
            Some(i) => Some(i + k),
            None => None,
        };
    }

    /// Turns arrange mode on or off.
    pub fn toggle_arrange(&mut self)
        ensures
            final(self).arrange_mode == !old(self).arrange_mode,
            final(self).tracks == old(self).tracks,
            final(self).selected_index == old(self).selected_index,
            final(self).to_process == old(self).to_process,
            final(self).next_serial == old(self).next_serial,
    {
        self.arrange_mode = !self.arrange_mode;
    }

    /// Moves the cursor one track up; in arrange mode the selected track
    /// moves with it. Fails on an empty queue and at the first track.
    pub fn move_selected_up(&mut self) -> (r: Result<(), QueueError>)
        requires
            old(self).wf(),
        ensures
            final(self).wf(),
            Self::same_settings(*old(self), *final(self)),
            r == queue_up_result(*old(self)),
            moved_up(*old(self), *final(self)),
    {
        let len = self.tracks.len();
        match self.selected_index {
            None => {
                if len == 0 {
                    Err(QueueError::Empty)
                } else {
                    self.selected_index = Some(0);
                    Ok(())
                }
            },
            Some(i) => {
                if i == 0 {
                    Err(QueueError::AtTop)
                } else {
                    if self.arrange_mode {
                        let t = self.tracks.remove(i);
                        self.tracks.insert(i - 1, t);
                        assert(self.tracks@ == swapped(old(self).tracks@, i - 1, i as int));
                    }
                    self.selected_index = Some(i - 1);
                    Ok(())
                }
            },
        }
    }

    /// Moves the cursor one track down; in arrange mode the selected track
    /// moves with it. Fails on an empty queue and at the last track.
    pub fn move_selected_down(&mut self) -> (r: Result<(), QueueError>)
        requires
            old(self).wf(),
        ensures
            final(self).wf(),
            Self::same_settings(*old(self), *final(self)),
            r == queue_down_result(*old(self)),
            moved_down(*old(self), *final(self)),
    {
        let len = self.tracks.len();
        match self.selected_index {
            None => {
                if len == 0 {
                    Err(QueueError::Empty)
                } else {
                    self.selected_index = Some(0);
                    Ok(())
                }
            },
            Some(i) => {
                if i + 1 >= len {
                    Err(QueueError::AtBottom)
                } else {
                    if self.arrange_mode {
                        let t = self.tracks.remove(i);
                        self.tracks.insert(i + 1, t);
                        assert(self.tracks@ == swapped(old(self).tracks@, i as int, i + 1));
                    }
                    self.selected_index = Some(i + 1);
                    Ok(())
                }
            },
        }
    }

    /// Puts the tracks in a random order; the cursor keeps its position.
    pub fn shuffle(&mut self)
        requires
            old(self).wf(),
        ensures
            final(self).wf(),
            final(self).tracks@.to_multiset() == old(self).tracks@.to_multiset(),
            final(self).tracks@.len() == old(self).tracks@.len(),
            final(self).selected_index == old(self).selected_index,
            Self::same_settings(*old(self), *final(self)),
    {
        shuffle_tracks(&mut self.tracks);
        proof {
            self.tracks@.to_multiset_ensures();
            old(self).tracks@.to_multiset_ensures();
        }
    }

    /// Removes every track and the cursor.
    pub fn clear(&mut self)
        ensures
            final(self).wf(),
            final(self).tracks@.len() == 0,
            final(self).selected_index is None,
            Self::same_settings(*old(self), *final(self)),
    {
        self.tracks.clear();
        self.selected_index = None;
    }

    /// Removes the selected track, if there is one; the cursor stays in place
    /// or goes to the new last track.
    pub fn remove_selected(&mut self)
        requires
            old(self).wf(),
        ensures
            final(self).wf(),
            Self::same_settings(*old(self), *final(self)),
            match old(self).selected_index {
                Some(i) => {
                    &&& final(self).tracks@ == old(self).tracks@.remove(i as int)
                    &&& final(self).selected_index == selection_after_removal(i, final(self).tracks@.len())
                },
                None => final(self).tracks == old(self).tracks && final(self).selected_index is None,
            },
    {
        if let Some(i) = self.selected_index {
            self.tracks.remove(i);
            let n = self.tracks.len();
            self.selected_index = if n == 0 {
                None
            } else if i < n {
                Some(i)
            } else {
                Some(n - 1)
            };
        }
    }

    /// Drops the tracks before the selected one, which then comes first.
    pub fn skip_to_selected(&mut self)
        requires
            old(self).wf(),
        ensures
            final(self).wf(),
            Self::same_settings(*old(self), *final(self)),
            match old(self).selected_index {
                Some(i) => {
                    &&& final(self).tracks@ == old(self).tracks@.skip(i as int)
                    &&& final(self).selected_index == Some(0usize)
                },
                None => final(self).tracks == old(self).tracks && final(self).selected_index is None,
            },
    {
        if let Some(i) = self.selected_index {
            let rest = self.tracks.split_off(i);
            self.tracks = rest;
            self.selected_index = Some(0);
        }
    }

    /// Hands a list of paths to the worker that turns paths into tracks.
    pub fn send_to_worker(&mut self, paths: Vec<String>)
        ensures
            final(self).to_process@ == old(self).to_process@.push(paths),
            final(self).tracks == old(self).tracks,
            final(self).selected_index == old(self).selected_index,
            final(self).arrange_mode == old(self).arrange_mode,
            final(self).next_serial == old(self).next_serial,
    {
        self.to_process.push(paths);
    }
}

/// `new` is `old` after moving the cursor up: where that succeeds, the cursor
/// moves and, in arrange mode, the selected track with it; else nothing changes.
pub open spec fn moved_up(old: TrackQueue, new: TrackQueue) -> bool {
    &&& TrackQueue::same_settings(old, new)
    &&& if queue_up_result(old) is Ok {
        &&& new.selected_index == prev_selection(old.selected_index, old.tracks@.len())
        &&& if old.arrange_mode && old.selected_index is Some {
            let i = old.selected_index.unwrap() as int;
            new.tracks@ == swapped(old.tracks@, i - 1, i)
        } else {
            new.tracks@ == old.tracks@
        }
    } else {
        new.selected_index == old.selected_index && new.tracks@ == old.tracks@
    }
}

/// What moving the cursor of `q` up answers.
pub open spec fn queue_up_result(q: TrackQueue) -> Result<(), QueueError> {
    match q.selected_index {
        None => if q.tracks@.len() == 0 { Err(QueueError::Empty) } else { Ok(()) },
        Some(i) => if i == 0 { Err(QueueError::AtTop) } else { Ok(()) },
    }
}

/// `new` is `old` after moving the cursor down: where that succeeds, the cursor
/// moves and, in arrange mode, the selected track with it; else nothing changes.
pub open spec fn moved_down(old: TrackQueue, new: TrackQueue) -> bool {
    &&& TrackQueue::same_settings(old, new)
    &&& if queue_down_result(old) is Ok {
        &&& new.selected_index == next_selection(old.selected_index, old.tracks@.len())
        &&& if old.arrange_mode && old.selected_index is Some {
            let i = old.selected_index.unwrap() as int;
            new.tracks@ == swapped(old.tracks@, i, i + 1)
        } else {
            new.tracks@ == old.tracks@
        }
    } else {
        new.selected_index == old.selected_index && new.tracks@ == old.tracks@
    }
}

/// What moving the cursor of `q` down answers.
pub open spec fn queue_down_result(q: TrackQueue) -> Result<(), QueueError> {
    match q.selected_index {
        None => if q.tracks@.len() == 0 { Err(QueueError::Empty) } else { Ok(()) },
        Some(i) => if i + 1 >= q.tracks@.len() { Err(QueueError::AtBottom) } else { Ok(()) },
    }
}

} // verus!
