use vstd::prelude::*;

verus! {

/// Which part of the player made a track.
#[derive(Clone, Copy, Debug, PartialEq, Eq, Structural)]
pub enum TrackOrigin {
    Playlists,
    Queue,
}

/// The identity of a track. Playlists and the queue share a track by holding
/// copies with the same identity: metadata that arrives for one of them
/// reaches them all. A new track gets a new identity.
#[derive(Clone, Copy, Debug, PartialEq, Eq, Structural)]
pub struct TrackId {
    pub origin: TrackOrigin,
    pub serial: u64,
}

/// The counter `start` after `n` tracks were made: it counts up and stops at
/// the largest serial.
pub open spec fn advance(start: u64, n: int) -> u64 {
    if start + n <= u64::MAX {
        (start + n) as u64
    } else {
        u64::MAX
    }
}

/// The identity of the `k`-th track made from `origin`'s counter at `start`.
pub open spec fn fresh_id(origin: TrackOrigin, start: u64, k: int) -> TrackId {
    TrackId { origin, serial: advance(start, k) }
}

/// The counter after one more track was made.
pub fn next_serial(counter: u64) -> (r: u64)
    ensures
        r == advance(counter, 1),
{
    if counter < u64::MAX {
        counter + 1
    } else {
        counter
    }
}

/// What the metadata loader found out about a track.
#[derive(Clone, Debug, PartialEq, Eq)]
pub struct MiniMetadata {
    pub title: String,
    pub artist: String,
    pub duration_secs: u64,
}

impl MiniMetadata {
    /// A field-by-field copy of the metadata.
    pub fn duplicate(&self) -> (r: MiniMetadata)
        ensures
            r == *self,
    {
        MiniMetadata {
            title: self.title.clone(),
            artist: self.artist.clone(),
            duration_secs: self.duration_secs,
        }
    }
}

/// A track as playlists and the queue hold it: its identity, its path and,
/// once loaded, its metadata.
#[derive(Clone, Debug, PartialEq, Eq)]
pub struct MiniTrack {
    pub id: TrackId,
    pub path: String,
    pub metadata: Option<MiniMetadata>,
}

impl MiniTrack {
    /// A track with identity `id` for `path`, whose metadata is not loaded yet.
    pub fn new(id: TrackId, path: String) -> (r: MiniTrack)
        ensures
            r.id == id,
            r.path == path,
            r.metadata is None,
    {
        MiniTrack { id, path, metadata: None }
    }

    /// A copy of the track with the same identity: the same track, shared.
    pub fn duplicate(&self) -> (r: MiniTrack)
        ensures
            r == *self,
    {
        let metadata = match &self.metadata {
            Some(m) => Some(m.duplicate()),
            None => None,
        };
        MiniTrack { id: self.id, path: self.path.clone(), metadata }
    }
}

/// `tracks` with the metadata `meta` on every track of identity `id`.
pub open spec fn with_metadata(tracks: Seq<MiniTrack>, id: TrackId, meta: MiniMetadata) -> Seq<MiniTrack> {
    tracks.map_values(|t: MiniTrack| if t.id == id { MiniTrack { metadata: Some(meta), ..t } } else { t })
}

/// Gives the metadata `meta` to every track of identity `id` in `tracks`.
pub fn set_metadata(tracks: &mut Vec<MiniTrack>, id: TrackId, meta: &MiniMetadata)
    ensures
        final(tracks)@ == with_metadata(old(tracks)@, id, *meta),
{
    let n = tracks.len();
    for k in 0..n
        invariant
            n == tracks@.len(),
            n == old(tracks)@.len(),
            forall|j: int| 0 <= j < k ==> tracks@[j] == with_metadata(old(tracks)@, id, *meta)[j],
            forall|j: int| k <= j < n ==> tracks@[j] == old(tracks)@[j],
    {
        if tracks[k].id == id {
            tracks[k].metadata = Some(meta.duplicate());
        }
    }
    assert(tracks@ =~= with_metadata(old(tracks)@, id, *meta));
}

} // verus!
