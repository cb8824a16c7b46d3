//! The plain records that requests arrive in and answers leave in, and how
//! they turn into the records of the catalog.

use crate::error::DatabaseError;
use crate::track::{
    TrackFilter, TrackFullPatch, TrackMetadata, TrackPaginationParams, MAX_VOTE,
};
use crate::vibe::{TrackID, Vibe, VibeRef};
use vstd::prelude::*;
use vstd::std_specs::convert::FromSpecImpl;

verus! {

/// A vibe as it is shown: the name of its group and its own name.
#[derive(Debug, Default, Clone, PartialEq, Eq)]
pub struct ResponseVibe {
    pub group_name: String,
    pub name: String,
}

impl From<Vibe> for ResponseVibe {
    fn from(vibe: Vibe) -> (shown: ResponseVibe) {
        ResponseVibe { group_name: vibe.group_name, name: vibe.name }
    }
}

impl FromSpecImpl<Vibe> for ResponseVibe {
    open spec fn obeys_from_spec() -> bool {
        true
    }

    open spec fn from_spec(vibe: Vibe) -> ResponseVibe {
        ResponseVibe { group_name: vibe.group_name, name: vibe.name }
    }
}

/// The vibes `vibes` as they are shown, in order.
pub open spec fn shown(vibes: Seq<Vibe>) -> Seq<ResponseVibe> {
    vibes.map_values(|v: Vibe| ResponseVibe { group_name: v.group_name, name: v.name })
}

/// The vibes `vibes` as they are shown, in order.
pub fn response_vibes(vibes: &Vec<Vibe>) -> (list: Vec<ResponseVibe>)
    ensures
        list@ == shown(vibes@),
{
    let mut list: Vec<ResponseVibe> = Vec::new();
    let mut i: usize = 0;
    while i < vibes.len()
        invariant
            i <= vibes.len(),
            list@ == shown(vibes@.take(i as int)),
        decreases vibes.len() - i,
    {
        proof {
            assert(shown(vibes@.take(i + 1)) =~= shown(vibes@.take(i as int)).push(
                ResponseVibe { group_name: vibes@[i as int].group_name, name: vibes@[i as int].name },
            ));
        }
        list.push(
            ResponseVibe { group_name: vibes[i].group_name.clone(), name: vibes[i].name.clone() },
        );
        i += 1;
    }
    proof {
        assert(vibes@.take(i as int) =~= vibes@);
    }
    list
}

/// A request for one page of a filtered listing, as it arrives.
#[derive(Debug, Default, Clone, PartialEq, Eq)]
pub struct PageFilterQuery {
    pub pattern: Option<String>,
    pub author: Option<String>,
    pub vibes: Option<Vec<String>>,
    pub limit: Option<i32>,
    pub order_by: Option<String>,
    pub page: i32,
    pub size: i32,
}

impl From<PageFilterQuery> for TrackPaginationParams {
    fn from(query: PageFilterQuery) -> (params: TrackPaginationParams) {
        TrackPaginationParams {
            page_num: query.page,
            page_size: query.size,
            filter: TrackFilter {
                pattern: query.pattern,
                author: query.author,
                vibes: query.vibes,
                limit: query.limit,
                order_by: query.order_by,
            },
        }
    }
}

impl FromSpecImpl<PageFilterQuery> for TrackPaginationParams {
    open spec fn obeys_from_spec() -> bool {
        true
    }

    open spec fn from_spec(query: PageFilterQuery) -> TrackPaginationParams {
        TrackPaginationParams {
            page_num: query.page,
            page_size: query.size,
            filter: TrackFilter {
                pattern: query.pattern,
                author: query.author,
                vibes: query.vibes,
                limit: query.limit,
                order_by: query.order_by,
            },
        }
    }
}

/// A request to change a track, as it arrives. Vibes are named by the name
/// of their group and their own name, in this order.
#[derive(Debug, Default, Clone, PartialEq, Eq)]
pub struct TrackPatchQuery {
    pub id: TrackID,
    pub path: Option<String>,
    pub title: Option<String>,
    pub author: Option<String>,
    pub genre: Option<String>,
    pub duration: Option<i32>,
    pub rating: Option<u8>,
    pub add_vibes: Option<Vec<(String, String)>>,
    pub remove_vibes: Option<Vec<(String, String)>>,
}

/// The references that name the vibes `pairs`.
pub open spec fn named_refs(pairs: Seq<(String, String)>) -> Seq<VibeRef> {
    pairs.map_values(|p: (String, String)| VibeRef::Named { group_name: p.0, name: p.1 })
}

/// The references that name the vibes `pairs`, where there are any.
pub open spec fn named_refs_of(pairs: Option<Vec<(String, String)>>) -> Option<Seq<VibeRef>> {
    match pairs {
        Some(p) => Some(named_refs(p@)),
        None => None,
    }
}

/// The references that name the vibes `pairs`.
pub fn refs_from_names(pairs: &Vec<(String, String)>) -> (refs: Vec<VibeRef>)
    ensures
        refs@ == named_refs(pairs@),
{
    let mut refs: Vec<VibeRef> = Vec::new();
    let mut i: usize = 0;
    while i < pairs.len()
        invariant
            i <= pairs.len(),
            refs@ == named_refs(pairs@.take(i as int)),
        decreases pairs.len() - i,
    {
        proof {
            assert(named_refs(pairs@.take(i + 1)) =~= named_refs(pairs@.take(i as int)).push(
                VibeRef::Named { group_name: pairs@[i as int].0, name: pairs@[i as int].1 },
            ));
        }
        refs.push(VibeRef::Named { group_name: pairs[i].0.clone(), name: pairs[i].1.clone() });
        i += 1;
    }
    proof {
        assert(pairs@.take(i as int) =~= pairs@);
    }
    refs
}

impl TrackPatchQuery {
    /// The track that the request addresses and the patch that it asks
    /// for: every field as given, the rating as a new vote, no download,
    /// and the vibes by their names.
    pub open spec fn asks_for(self, target: TrackID, patch: TrackFullPatch) -> bool {
        &&& target == self.id
        &&& patch.path == self.path
        &&& patch.title == self.title
        &&& patch.author == self.author
        &&& patch.genre == self.genre
        &&& patch.duration == self.duration
        &&& patch.new_vote == self.rating
        &&& !patch.new_download
        &&& match patch.add_vibes {
            Some(refs) => named_refs_of(self.add_vibes) == Some(refs@),
            None => self.add_vibes is None,
        }
        &&& match patch.remove_vibes {
            Some(refs) => named_refs_of(self.remove_vibes) == Some(refs@),
            None => self.remove_vibes is None,
        }
    }

    /// The track that the request addresses and the patch that it asks for.
    pub fn into_patch(self) -> (r: (TrackID, TrackFullPatch))
        ensures
            self.asks_for(r.0, r.1),
    {
        let add_vibes = match &self.add_vibes {
            Some(pairs) => Some(refs_from_names(pairs)),
            None => None,
        };
        let remove_vibes = match &self.remove_vibes {
            Some(pairs) => Some(refs_from_names(pairs)),
            None => None,
        };
        (
            self.id,
            TrackFullPatch {
                path: self.path,
                title: self.title,
                author: self.author,
                genre: self.genre,
                duration: self.duration,
                new_vote: self.rating,
                new_download: false,
                add_vibes,
                remove_vibes,
            },
        )
    }
}

impl From<TrackPatchQuery> for (TrackID, TrackFullPatch) {
    /// The track that the request addresses and the patch that it asks for.
    fn from(query: TrackPatchQuery) -> (r: (TrackID, TrackFullPatch))
        ensures
            query.asks_for(r.0, r.1),
    {
        query.into_patch()
    }
}

impl FromSpecImpl<TrackPatchQuery> for (TrackID, TrackFullPatch) {
    open spec fn obeys_from_spec() -> bool {
        false
    }

    open spec fn from_spec(query: TrackPatchQuery) -> (TrackID, TrackFullPatch) {
        choose|r: (TrackID, TrackFullPatch)| query.asks_for(r.0, r.1)
    }
}

/// One vote of a user on a track.
#[derive(Debug, Default, Clone, Copy, PartialEq, Eq)]
pub struct UserVote {
    pub track_id: TrackID,
    pub rating: u8,
}

/// The vote that the number `value` stands for. A number outside the range
/// of a vote, 0 to 255, is a validation error; it is never cut to fit.
pub fn checked_vote(value: i64) -> (r: Result<u8, DatabaseError>)
    ensures
        match r {
            Ok(vote) => 0 <= value <= MAX_VOTE && vote == value,
            Err(e) => !(0 <= value <= MAX_VOTE) && e == DatabaseError::ValidationError,
        },
{
    if 0 <= value && value <= MAX_VOTE as i64 {
        Ok(value as u8)
    } else {
        Err(DatabaseError::ValidationError)
    }
}

impl UserVote {
    /// The patch that records the vote and changes nothing else.
    pub fn into_patch(self) -> (patch: TrackFullPatch)
        ensures
            patch.new_vote == Some(self.rating),
            !patch.new_download,
            patch.path is None && patch.title is None && patch.author is None && patch.genre
                is None && patch.duration is None,
            patch.add_vibes is None && patch.remove_vibes is None,
    {
        TrackFullPatch {
            path: None,
            title: None,
            author: None,
            genre: None,
            duration: None,
            new_vote: Some(self.rating),
            new_download: false,
            add_vibes: None,
            remove_vibes: None,
        }
    }
}

impl TrackFullPatch {
    /// The patch that counts one download and changes nothing else.
    pub fn download() -> (patch: TrackFullPatch)
        ensures
            patch.new_download,
            patch.new_vote is None,
            patch.path is None && patch.title is None && patch.author is None && patch.genre
                is None && patch.duration is None,
            patch.add_vibes is None && patch.remove_vibes is None,
    {
        TrackFullPatch {
            path: None,
            title: None,
            author: None,
            genre: None,
            duration: None,
            new_vote: None,
            new_download: true,
            add_vibes: None,
            remove_vibes: None,
        }
    }
}

/// A request to download the file of a track.
#[derive(Debug, Default, Clone, Copy, PartialEq, Eq)]
pub struct DownloadQuery {
    pub track_id: TrackID,
}

/// A request to stream the file of a track, from its start or from a given
/// second on.
#[derive(Debug, Default, Clone, Copy, PartialEq, Eq)]
pub struct MusicStreamQuery {
    pub track_id: TrackID,
    pub start_at: Option<i32>,
}

/// The state of a stream: the track, whether it is playing, and the seconds
/// played so far.
#[derive(Debug, Default, Clone, Copy, PartialEq, Eq)]
pub struct ResponseMusicStream {
    pub track_id: TrackID,
    pub is_playing: bool,
    pub ellapsed_time: i32,
}

/// What the service is configured with: the directory that audio files are
/// taken in from, and the port that it listens on.
#[derive(Debug, Default, Clone, PartialEq, Eq)]
pub struct Configuration {
    pub resource_dir: String,
    pub port: u16,
}

/// A request to delete a track, named by its identifier or by its title.
#[derive(Debug, Default, Clone, PartialEq, Eq)]
pub struct DeleteTrack {
    pub id: Option<TrackID>,
    pub title: Option<String>,
}

/// The track that a request to delete names.
#[derive(Debug, Clone, PartialEq, Eq)]
pub enum DeleteTarget {
    ById(TrackID),
    ByTitle(String),
}

impl DeleteTrack {
    /// The track that the request names: by identifier where it gives one,
    /// else by title where it gives one; a request that gives neither names
    /// nothing.
    pub fn target(self) -> (target: Option<DeleteTarget>)
        ensures
            target == match (self.id, self.title) {
                (Some(id), _) => Some(DeleteTarget::ById(id)),
                (None, Some(title)) => Some(DeleteTarget::ByTitle(title)),
                (None, None) => None::<DeleteTarget>,
            },
    {
        match self.id {
            Some(id) => Some(DeleteTarget::ById(id)),
            None => match self.title {
                Some(title) => Some(DeleteTarget::ByTitle(title)),
                None => None,
            },
        }
    }
}

impl TrackMetadata {
    /// The metadata with every field that it lacks taken from `found`, the
    /// metadata read from the file itself. The path stays.
    pub fn or_defaults(self, found: TrackMetadata) -> (merged: TrackMetadata)
        ensures
            merged.path == self.path,
            merged.title == crate::patch::replaced(found.title, self.title),
            merged.author == crate::patch::replaced(found.author, self.author),
            merged.genre == crate::patch::replaced(found.genre, self.genre),
            merged.duration == crate::patch::replaced(found.duration, self.duration),
    {
        TrackMetadata {
            path: self.path,
            title: match self.title {
                Some(title) => Some(title),
                None => found.title,
            },
            author: match self.author {
                Some(author) => Some(author),
                None => found.author,
            },
            genre: match self.genre {
                Some(genre) => Some(genre),
                None => found.genre,
            },
            duration: match self.duration {
                Some(duration) => Some(duration),
                None => found.duration,
            },
        }
    }
}

/// Why a request failed, with a message where there is one.
#[derive(Debug, Clone, PartialEq, Eq)]
pub enum AppError {
    AudioTagError(String),
    DatabaseError(String),
    IoError(String),
}

impl AppError {
    /// Whether the error is a database error without a message.
    pub open spec fn is_blank_database_error(self) -> bool {
        self matches AppError::DatabaseError(message) && message@ == Seq::<char>::empty()
    }
}

impl From<DatabaseError> for AppError {
    /// A failure of the catalog as a failure of a request: a database error
    /// without a message, whatever the failure was.
    fn from(error: DatabaseError) -> (mapped: AppError)
        ensures
            mapped.is_blank_database_error(),
    {
        AppError::DatabaseError(String::new())
    }
}

impl FromSpecImpl<DatabaseError> for AppError {
    open spec fn obeys_from_spec() -> bool {
        false
    }

    open spec fn from_spec(error: DatabaseError) -> AppError {
        choose|mapped: AppError| mapped.is_blank_database_error()
    }
}

} // verus!
