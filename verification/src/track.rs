//! Per-track reference data.
//!
//! A track reference is resolved once per play request from the catalog
//! collaborator — identifier, direct download URL, codec tag and bitrate —
//! and is immutable once resolved.

use vstd::prelude::*;

verus! {

/// What the player knows about one track of the list.
pub struct TrackInfo {
    /// Catalog identifier, used to resolve the download URL.
    pub id: i32,
    /// Track title, when the catalog reports one.
    pub title: Option<String>,
    /// Artist names, each when the catalog reports one.
    pub artists: Vec<Option<String>>,
}

/// Two references describe the same track: same identifier, same title,
/// same artist list.
pub open spec fn same_track(a: TrackInfo, b: TrackInfo) -> bool {
    a.id == b.id && a.title == b.title && a.artists@ == b.artists@
}

impl TrackInfo {
    /// A track known only by its identifier.
    pub fn from_id(id: i32) -> (r: TrackInfo)
        ensures
            r.id == id,
            r.title is None,
            r.artists@.len() == 0,
    {
        TrackInfo { id, title: None, artists: Vec::new() }
    }
}

impl Clone for TrackInfo {
    /// An exact copy of the reference.
    fn clone(&self) -> (r: TrackInfo)
        ensures
            same_track(r, *self),
    {
        let mut artists: Vec<Option<String>> = Vec::new();
        let mut i: usize = 0;
        while i < self.artists.len()
            invariant
                i <= self.artists@.len(),
                artists@ == self.artists@.subrange(0, i as int),
            decreases self.artists@.len() - i,
        {
            let a: Option<String> = match &self.artists[i] {
                Some(name) => Some(name.clone()),
                None => None,
            };
            artists.push(a);
            proof {
                assert(artists@ =~= self.artists@.subrange(0, i + 1 as int));
            }
            i = i + 1;
        }
        proof {
            assert(artists@ =~= self.artists@);
        }
        TrackInfo {
            id: self.id,
            title: match &self.title {
                Some(t) => Some(t.clone()),
                None => None,
            },
            artists,
        }
    }
}

/// Which download variant a track's catalog entry selects: the last entry
/// carrying the highest bitrate — the same choice as a fold that keeps
/// the later of two equal keys. `None` only for an empty list.
pub fn pick_highest_bitrate(bitrates: &Vec<u32>) -> (r: Option<usize>)
    ensures
        (r is Some) <==> bitrates@.len() > 0,
        r matches Some(i) ==> i < bitrates@.len() && (forall|j: int|
            0 <= j < bitrates@.len() ==> (#[trigger] bitrates@[j]) <= bitrates@[i as int]) && (
        forall|j: int| i < j < bitrates@.len() ==> (#[trigger] bitrates@[j]) < bitrates@[i as int]),
{
    if bitrates.len() == 0 {
        return None;
    }
    let mut best: usize = 0;
    let mut i: usize = 1;
    while i < bitrates.len()
        invariant
            1 <= i <= bitrates@.len(),
            best < i,
            forall|j: int| 0 <= j < i ==> (#[trigger] bitrates@[j]) <= bitrates@[best as int],
            forall|j: int| best < j < i ==> (#[trigger] bitrates@[j]) < bitrates@[best as int],
        decreases bitrates@.len() - i,
    {
        if bitrates[i] >= bitrates[best] {
            best = i;
        }
        i += 1;
    }
    Some(best)
}

/// The data the catalog client resolves for one play request: the direct
/// download URL, the codec tag and the bitrate in kilobits per second.
pub struct ResolvedTrack {
    /// Direct download URL for plain HTTP range requests.
    pub url: String,
    /// Codec tag, e.g. `"mp3"` or `"aac"`.
    pub codec: String,
    /// Bitrate in kilobits per second.
    pub bitrate_kbps: i32,
}

} // verus!
