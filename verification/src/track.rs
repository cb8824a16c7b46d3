//! Track records, track aggregates, and the plain records that describe
//! changes to them and searches over them.

use crate::vibe::{distinct_ids, TrackID, Vibe, VibeRef};
use vstd::prelude::*;

verus! {

/// The largest value of a single vote.
pub const MAX_VOTE: u8 = 255;

/// A track record: one audio file and its statistics.
#[derive(Debug, Default, PartialEq, Eq)]
pub struct Track {
    pub id: TrackID,
    pub path: String,
    pub title: Option<String>,
    pub author: Option<String>,
    pub genre: Option<String>,
    pub duration: Option<i32>,
    pub vote_count: i32,
    pub total_rating: i64,
    pub download_count: i32,
}

impl Clone for Track {
    fn clone(&self) -> (copy: Self)
        ensures
            copy == *self,
    {
        Track {
            id: self.id,
            path: self.path.clone(),
            title: self.title.clone(),
            author: self.author.clone(),
            genre: self.genre.clone(),
            duration: self.duration,
            vote_count: self.vote_count,
            total_rating: self.total_rating,
            download_count: self.download_count,
        }
    }
}

/// A track aggregate: a track record and the vibes attached to it.
#[derive(Debug, Default, Clone, PartialEq, Eq)]
pub struct TrackFull {
    pub track: Track,
    pub vibes: Vec<Vibe>,
}

/// A sparse set of changes to a track aggregate. An absent field means "no
/// change".
#[derive(Debug, Default, Clone, PartialEq, Eq)]
pub struct TrackFullPatch {
    pub path: Option<String>,
    pub title: Option<String>,
    pub author: Option<String>,
    pub genre: Option<String>,
    pub duration: Option<i32>,
    /// A new vote to record.
    pub new_vote: Option<u8>,
    /// Whether to record one download.
    pub new_download: bool,
    /// Vibes to attach.
    pub add_vibes: Option<Vec<VibeRef>>,
    /// Vibes to detach.
    pub remove_vibes: Option<Vec<VibeRef>>,
}

/// What a new track is created from.
#[derive(Debug, Default, Clone, PartialEq, Eq)]
pub struct TrackMetadata {
    pub path: String,
    pub title: Option<String>,
    pub author: Option<String>,
    pub genre: Option<String>,
    pub duration: Option<i32>,
}

/// Criteria for listing tracks.
#[derive(Debug, Default, Clone, PartialEq, Eq)]
pub struct TrackFilter {
    /// Matched without regard to case against title or author, as a
    /// substring.
    pub pattern: Option<String>,
    /// Matched exactly against the author.
    pub author: Option<String>,
    /// Names of vibes; a track matches if it carries at least one of them.
    pub vibes: Option<Vec<String>>,
    /// The largest number of tracks to return.
    pub limit: Option<i32>,
    /// The sort key; see [`crate::filter::OrderKey`].
    pub order_by: Option<String>,
}

/// A request for one page of a filtered listing.
#[derive(Debug, Default, Clone, PartialEq, Eq)]
pub struct TrackPaginationParams {
    /// The page wanted, counted from 1.
    pub page_num: i32,
    /// The number of tracks on a full page.
    pub page_size: i32,
    pub filter: TrackFilter,
}

impl Track {
    /// Whether the statistics are consistent: no counter is negative, and
    /// the sum of ratings is what at most `vote_count` votes of at most
    /// [`MAX_VOTE`] each can add up to.
    pub open spec fn wf(self) -> bool {
        &&& 0 <= self.vote_count
        &&& 0 <= self.download_count
        &&& 0 <= self.total_rating <= MAX_VOTE * self.vote_count
    }

    /// Whether the statistics are consistent.
    pub fn is_well_formed(&self) -> (yes: bool)
        ensures
            yes == self.wf(),
    {
        0 <= self.vote_count && 0 <= self.download_count && 0 <= self.total_rating
            && self.total_rating <= (MAX_VOTE as i64) * (self.vote_count as i64)
    }

    /// The average rating, rounded down: the sum of ratings divided by the
    /// number of votes, or 0 where nobody has voted yet.
    pub open spec fn average(self) -> int {
        if self.vote_count > 0 && self.total_rating >= 0 {
            self.total_rating as int / self.vote_count as int
        } else {
            0
        }
    }

    /// The average rating, rounded down; 0 where nobody has voted yet.
    pub fn average_rating(&self) -> (average: i64)
        ensures
            average == self.average(),
            self.wf() ==> 0 <= average <= MAX_VOTE,
    {
        if self.vote_count > 0 && self.total_rating >= 0 {
            let votes = self.vote_count as i64;
            proof {
                let t = self.total_rating as int;
                let n = self.vote_count as int;
                assert(0 <= t / n <= t) by (nonlinear_arith)
                    requires
                        0 <= t,
                        n > 0,
                ;
                assert(0 <= t <= 255 * n ==> t / n <= 255) by (nonlinear_arith)
                    requires
                        n > 0,
                ;
            }
            self.total_rating / votes
        } else {
            0
        }
    }
}

impl TrackFull {
    /// Whether the aggregate is consistent: the record's statistics are,
    /// and no vibe is attached twice.
    pub open spec fn wf(self) -> bool {
        self.track.wf() && distinct_ids(self.vibes@)
    }

    /// Whether the aggregate is consistent.
    pub fn is_well_formed(&self) -> (yes: bool)
        ensures
            yes == self.wf(),
    {
        if !self.track.is_well_formed() {
            return false;
        }
        let mut j: usize = 0;
        while j < self.vibes.len()
            invariant
                j <= self.vibes.len(),
                self.track.wf(),
                forall|a: int, b: int|
                    0 <= a < b < j ==> (#[trigger] self.vibes@[a]).id != (
                    #[trigger] self.vibes@[b]).id,
            decreases self.vibes.len() - j,
        {
            let mut i: usize = 0;
            while i < j
                invariant
                    i <= j < self.vibes.len(),
                    forall|a: int| 0 <= a < i ==> (#[trigger] self.vibes@[a]).id != self.vibes@[j as int].id,
                decreases j - i,
            {
                if self.vibes[i].id == self.vibes[j].id {
                    return false;
                }
                i += 1;
            }
            j += 1;
        }
        true
    }
}

} // verus!
