//! Track aggregates in the store: the statements that create, read, count
//! and remove them, and the functions that put the store's rows together.

use crate::error::DatabaseError;
use crate::statement::{
    begin, draft_of, ints_fit, opt_text_can_bind, opt_text_fits, opt_text_of, push_bind_int,
    push_bind_opt_int, push_bind_opt_text, push_bind_text, push_sql, text_can_bind, text_fits,
    Bind, Draft, Statement,
};
use crate::track::{Track, TrackFull, TrackMetadata};
use crate::vibe::{
    join, joined, lemma_joined, lemma_joined_distinct, lemma_unlinked, lemma_vibes_of_distinct,
    linked, links_draft, vibes_of, TrackID, Vibe, VibeLink,
};
use std::collections::HashMap;
use vstd::prelude::*;

verus! {

/// The columns of a track record, read from the `tracks` relation.
pub const SELECT_TRACKS: &'static str =
    "SELECT track_id AS id, path, title, author, genre, duration, vote_count, total_rating, download_count FROM tracks";

/// The start of the statement that creates a track record.
pub const INSERT_TRACK: &'static str =
    "INSERT INTO tracks (path, title, author, genre, duration) VALUES (";

/// The end of the statement that creates a track record: it hands back the
/// record as the store holds it, identifier and counters included.
pub const RETURNING_TRACK: &'static str =
    ") RETURNING track_id AS id, path, title, author, genre, duration, vote_count, total_rating, download_count";

/// The number of track records.
pub const COUNT_TRACKS: &'static str = "SELECT COUNT(*) AS tracks_count FROM tracks";

/// The start of the statement that deletes a track record.
pub const DELETE_TRACK: &'static str = "DELETE FROM tracks WHERE track_id = ";

/// The start of the statement that deletes the associations of a track.
pub const DELETE_TRACK_LINKS: &'static str = "DELETE FROM tracks_with_vibes WHERE track = ";

/// What an operation of several steps wants next: a statement run, or
/// nothing more.
pub enum Step<T> {
    /// Run the statement and come back with its rows.
    Ask(Statement),
    /// The operation is over, with this result.
    Done(T),
}

impl TrackMetadata {
    /// Whether every text of the metadata is short enough to be bound.
    pub open spec fn fits(self) -> bool {
        &&& text_fits(self.path@)
        &&& opt_text_fits(self.title)
        &&& opt_text_fits(self.author)
        &&& opt_text_fits(self.genre)
    }

    /// The statement that creates a track record from the metadata.
    pub open spec fn creation(self) -> Draft {
        Draft::start(INSERT_TRACK@).bind(Bind::Text(self.path@)).sql(", "@).bind(
            Bind::OptText(opt_text_of(self.title)),
        ).sql(", "@).bind(Bind::OptText(opt_text_of(self.author))).sql(
            ", "@,
        ).bind(Bind::OptText(opt_text_of(self.genre))).sql(", "@).bind(
            Bind::OptInt(self.duration),
        ).sql(RETURNING_TRACK@)
    }
}

/// The identifiers of `tracks`, in order.
pub open spec fn ids_of(tracks: Seq<Track>) -> Seq<TrackID> {
    tracks.map_values(|t: Track| t.id)
}

/// The identifiers of `tracks`, in order.
pub fn track_ids(tracks: &Vec<Track>) -> (ids: Vec<TrackID>)
    ensures
        ids@ == ids_of(tracks@),
{
    let mut ids: Vec<TrackID> = Vec::new();
    let mut i: usize = 0;
    while i < tracks.len()
        invariant
            i <= tracks.len(),
            ids@ == ids_of(tracks@.take(i as int)),
        decreases tracks.len() - i,
    {
        proof {
            assert(ids_of(tracks@.take(i + 1)) =~= ids_of(tracks@.take(i as int)).push(
                tracks@[i as int].id,
            ));
        }
        ids.push(tracks[i].id);
        i += 1;
    }
    proof {
        assert(tracks@.take(i as int) =~= tracks@);
    }
    ids
}

/// The vibes that `map` holds for `track`; none where it holds no entry.
pub open spec fn vibes_in(map: Map<TrackID, Vec<Vibe>>, track: TrackID) -> Seq<Vibe> {
    if map.contains_key(track) {
        map[track]@
    } else {
        Seq::empty()
    }
}

/// Whether `full` are the aggregates of `tracks`, in order, each with the
/// vibes that `map` holds for it, each identifier once.
pub open spec fn assembled(
    full: Seq<TrackFull>,
    tracks: Seq<Track>,
    map: Map<TrackID, Vec<Vibe>>,
) -> bool {
    &&& full.len() == tracks.len()
    &&& forall|i: int|
        0 <= i < full.len() ==> (#[trigger] full[i]).track == tracks[i] && full[i].vibes@
            == joined(Seq::empty(), vibes_in(map, tracks[i].id))
}

impl TrackFull {
    /// The statement that creates a track record from `metadata`. A text
    /// too long to be bound is a validation error.
    pub fn create_from(metadata: &TrackMetadata) -> (r: Result<Statement, DatabaseError>)
        ensures
            match r {
                Ok(q) => metadata.fits() && draft_of(q) == metadata.creation(),
                Err(e) => !metadata.fits() && e == DatabaseError::ValidationError,
            },
    {
        if !(text_can_bind(metadata.path.as_str()) && opt_text_can_bind(&metadata.title)
            && opt_text_can_bind(&metadata.author) && opt_text_can_bind(&metadata.genre)) {
            return Err(DatabaseError::ValidationError);
        }
        let mut q = begin(INSERT_TRACK);
        push_bind_text(&mut q, metadata.path.as_str());
        push_sql(&mut q, ", ");
        push_bind_opt_text(&mut q, &metadata.title);
        push_sql(&mut q, ", ");
        push_bind_opt_text(&mut q, &metadata.author);
        push_sql(&mut q, ", ");
        push_bind_opt_text(&mut q, &metadata.genre);
        push_sql(&mut q, ", ");
        push_bind_opt_int(&mut q, metadata.duration);
        push_sql(&mut q, RETURNING_TRACK);
        Ok(q)
    }

    /// The aggregate of a record that was just created: no vibe is
    /// attached to it yet.
    pub fn created(track: Track) -> (full: TrackFull)
        ensures
            full.track == track,
            full.vibes@ == Seq::<Vibe>::empty(),
            track.wf() ==> full.wf(),
    {
        TrackFull { track, vibes: Vec::new() }
    }

    /// The statement that reads the track record with identifier `id`.
    pub fn get_by_id(id: TrackID) -> (q: Statement)
        ensures
            draft_of(q) == Draft::start(SELECT_TRACKS@).sql(" WHERE track_id = "@).bind(
                Bind::Int(id),
            ),
    {
        let mut q = begin(SELECT_TRACKS);
        push_sql(&mut q, " WHERE track_id = ");
        push_bind_int(&mut q, id);
        q
    }

    /// The statement that reads the track record titled `title`. A title
    /// too long to be bound is a validation error.
    pub fn get_by_title(title: &str) -> (r: Result<Statement, DatabaseError>)
        ensures
            match r {
                Ok(q) => text_fits(title@) && draft_of(q) == Draft::start(SELECT_TRACKS@).sql(
                    " WHERE title = "@,
                ).bind(Bind::Text(title@)),
                Err(e) => !text_fits(title@) && e == DatabaseError::ValidationError,
            },
    {
        if !text_can_bind(title) {
            return Err(DatabaseError::ValidationError);
        }
        let mut q = begin(SELECT_TRACKS);
        push_sql(&mut q, " WHERE title = ");
        push_bind_text(&mut q, title);
        Ok(q)
    }

    /// The statement that reads every track record.
    pub fn get_all() -> (q: Statement)
        ensures
            draft_of(q) == Draft::start(SELECT_TRACKS@),
    {
        begin(SELECT_TRACKS)
    }

    /// The statement that counts the track records.
    pub fn count() -> (q: Statement)
        ensures
            draft_of(q) == Draft::start(COUNT_TRACKS@),
    {
        begin(COUNT_TRACKS)
    }

    /// The number of track records that the store reported, or -1 where it
    /// reported none.
    pub fn counted(reported: Option<i64>) -> (n: i64)
        ensures
            n == match reported {
                Some(c) => c,
                None => -1i64,
            },
    {
        match reported {
            Some(c) => c,
            None => -1,
        }
    }

    /// The aggregate of `track` and the vibes that the store found attached
    /// to it, each identifier once.
    pub fn with_vibes(track: Track, vibes: &Vec<Vibe>) -> (full: TrackFull)
        ensures
            full.track == track,
            full.vibes@ == joined(Seq::empty(), vibes@),
            track.wf() ==> full.wf(),
    {
        let mut attached: Vec<Vibe> = Vec::new();
        proof {
            lemma_joined(attached@, vibes@);
        }
        join(&mut attached, vibes);
        TrackFull { track, vibes: attached }
    }

    /// What to do once the records `tracks` are read: with no record there
    /// is nothing to look up and the result is empty; otherwise the vibes
    /// of all the records are looked up in one go. More records than one
    /// array can name cannot be looked up.
    pub fn load(tracks: &Vec<Track>) -> (r: Result<Step<Vec<TrackFull>>, DatabaseError>)
        ensures
            match r {
                Ok(Step::Done(full)) => tracks@.len() == 0 && full@.len() == 0,
                Ok(Step::Ask(q)) => tracks@.len() > 0 && ints_fit(tracks@.len()) && draft_of(q)
                    == links_draft(ids_of(tracks@)),
                Err(e) => tracks@.len() > 0 && !ints_fit(tracks@.len()) && e
                    == DatabaseError::DatabaseError,
            },
    {
        if tracks.len() == 0 {
            return Ok(Step::Done(Vec::new()));
        }
        let ids = track_ids(tracks);
        match Vibe::get_by_track_ids(&ids) {
            Ok(q) => Ok(Step::Ask(q)),
            Err(e) => Err(e),
        }
    }

    /// The aggregates of `tracks`, in order, each with the vibes that `map`
    /// holds for it.
    pub fn assemble(tracks: &Vec<Track>, map: &HashMap<TrackID, Vec<Vibe>>) -> (full: Vec<
        TrackFull,
    >)
        ensures
            assembled(full@, tracks@, map@),
    {
        broadcast use vstd::std_specs::hash::group_hash_axioms;

        let mut full: Vec<TrackFull> = Vec::new();
        let mut i: usize = 0;
        while i < tracks.len()
            invariant
                i <= tracks.len(),
                assembled(full@, tracks@.take(i as int), map@),
            decreases tracks.len() - i,
        {
            let track = tracks[i].clone();
            let one = match map.get(&track.id) {
                Some(vibes) => TrackFull::with_vibes(track, vibes),
                None => TrackFull::created(track),
            };
            full.push(one);
            i += 1;
        }
        proof {
            assert(tracks@.take(i as int) =~= tracks@);
        }
        full
    }

    /// The aggregates of `tracks`, in order, each with the vibes that the
    /// rows `links` of the bulk lookup attach to it.
    pub fn attach_links(tracks: &Vec<Track>, links: &Vec<VibeLink>) -> (full: Vec<TrackFull>)
        ensures
            full@.len() == tracks@.len(),
            forall|i: int|
                0 <= i < full@.len() ==> (#[trigger] full@[i]).track == tracks@[i] && full@[i].vibes@
                    == vibes_of(links@, tracks@[i].id),
            forall|i: int|
                0 <= i < full@.len() && tracks@[i].wf() ==> (#[trigger] full@[i]).wf(),
    {
        let map = Vibe::group_by_track(links);
        let full = TrackFull::assemble(tracks, &map);
        proof {
            assert forall|i: int| 0 <= i < full@.len() implies (#[trigger] full@[i]).vibes@
                == vibes_of(links@, tracks@[i].id) by {
                let t = tracks@[i].id;
                lemma_vibes_of_distinct(links@, t);
                lemma_joined_distinct(vibes_of(links@, t));
                if !linked(links@, t) {
                    lemma_unlinked(links@, t);
                }
            }
            assert forall|i: int|
                0 <= i < full@.len() && tracks@[i].wf() implies (#[trigger] full@[i]).wf() by {
                lemma_vibes_of_distinct(links@, tracks@[i].id);
            }
        }
        full
    }

    /// Starts the removal of the aggregate. The aggregate is given up: it
    /// cannot be used once its removal has begun.
    pub fn remove(self) -> (removal: Removal)
        ensures
            removal.id == self.track.id,
            removal.stage == RemovalStage::Begun,
    {
        Removal { id: self.track.id, stage: RemovalStage::Begun }
    }
}

/// How far the removal of a track has come.
#[derive(Debug, Clone, Copy, PartialEq, Eq, Structural)]
pub enum RemovalStage {
    /// Nothing was asked of the store yet.
    Begun,
    /// The deletion of the record is under way.
    DeletingTrack,
    /// The record is deleted; the deletion of its associations is under way.
    DeletingLinks,
    /// Both deletions went through; the commit is under way.
    Committing,
    /// The removal is over, committed or abandoned.
    Over,
}

/// The removal of one track and of every association that refers to it, as
/// one unit: the transaction is committed only after both deletions went
/// through, and abandoned at the first failure.
#[derive(Debug, PartialEq, Eq)]
pub struct Removal {
    pub id: TrackID,
    pub stage: RemovalStage,
}

/// What the removal wants next from the caller, who holds the transaction.
pub enum RemovalStep {
    /// Run the statement inside the transaction.
    Run(Statement),
    /// Commit the transaction.
    Commit,
    /// Stop. After an error the transaction is to be rolled back; nothing
    /// of the removal is then kept.
    Done(Result<(), DatabaseError>),
}

/// The statement that deletes the record `id`.
pub open spec fn delete_track_draft(id: TrackID) -> Draft {
    Draft::start(DELETE_TRACK@).bind(Bind::Int(id))
}

/// The statement that deletes every association of the track `id`.
pub open spec fn delete_links_draft(id: TrackID) -> Draft {
    Draft::start(DELETE_TRACK_LINKS@).bind(Bind::Int(id))
}

impl Removal {
    /// The stage that follows `stage` when the step under way went through.
    pub open spec fn following(stage: RemovalStage) -> RemovalStage {
        match stage {
            RemovalStage::Begun => RemovalStage::DeletingTrack,
            RemovalStage::DeletingTrack => RemovalStage::DeletingLinks,
            RemovalStage::DeletingLinks => RemovalStage::Committing,
            RemovalStage::Committing => RemovalStage::Over,
            RemovalStage::Over => RemovalStage::Over,
        }
    }

    /// The stage that follows `stage` when the step under way ended with a
    /// failure, if `failed`, and with success otherwise. Before the first
    /// step and after the last there is no step under way, and the stage
    /// moves on or stays whatever is reported.
    pub open spec fn next(stage: RemovalStage, failed: bool) -> RemovalStage {
        if failed && stage != RemovalStage::Begun && stage != RemovalStage::Over {
            RemovalStage::Over
        } else {
            Self::following(stage)
        }
    }

    /// Whether the removal asks for `step` on entering `stage`.
    pub open spec fn asks(self, stage: RemovalStage, step: RemovalStep) -> bool {
        match stage {
            RemovalStage::Begun => false,
            RemovalStage::DeletingTrack => step matches RemovalStep::Run(q) && draft_of(q)
                == delete_track_draft(self.id),
            RemovalStage::DeletingLinks => step matches RemovalStep::Run(q) && draft_of(q)
                == delete_links_draft(self.id),
            RemovalStage::Committing => step is Commit,
            RemovalStage::Over => step matches RemovalStep::Done(Ok(_)),
        }
    }

    /// Takes the outcome of the step under way, `None` for success and the
    /// error otherwise, and says what comes next. At the start there is no
    /// step under way and the outcome is not looked at.
    ///
    /// After a failure the removal is over, with the error of the step that
    /// failed. After a success it moves one stage on: delete the record,
    /// delete its associations, commit, done.
    pub fn advance(&mut self, outcome: Option<DatabaseError>) -> (step: RemovalStep)
        ensures
            final(self).id == old(self).id,
            final(self).stage == Self::next(old(self).stage, outcome is Some),
            match outcome {
                Some(error) if old(self).stage != RemovalStage::Begun && old(self).stage
                    != RemovalStage::Over => step == RemovalStep::Done(Err(error)),
                _ => final(self).asks(final(self).stage, step),
            },
    {
        let failed = match self.stage {
            RemovalStage::Begun => false,
            RemovalStage::Over => false,
            _ => outcome.is_some(),
        };
        if failed {
            self.stage = RemovalStage::Over;
            match outcome {
                Some(error) => RemovalStep::Done(Err(error)),
                None => RemovalStep::Done(Ok(())),
            }
        } else {
            match self.stage {
                RemovalStage::Begun => {
                    self.stage = RemovalStage::DeletingTrack;
                    let mut q = begin(DELETE_TRACK);
                    push_bind_int(&mut q, self.id);
                    RemovalStep::Run(q)
                },
                RemovalStage::DeletingTrack => {
                    self.stage = RemovalStage::DeletingLinks;
                    let mut q = begin(DELETE_TRACK_LINKS);
                    push_bind_int(&mut q, self.id);
                    RemovalStep::Run(q)
                },
                RemovalStage::DeletingLinks => {
                    self.stage = RemovalStage::Committing;
                    RemovalStep::Commit
                },
                RemovalStage::Committing => {
                    self.stage = RemovalStage::Over;
                    RemovalStep::Done(Ok(()))
                },
                RemovalStage::Over => RemovalStep::Done(Ok(())),
            }
        }
    }
}

} // verus!
