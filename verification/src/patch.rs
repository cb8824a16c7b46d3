//! The patch engine: what a patch does to a track aggregate in memory, and
//! the statements that do the same to the store.
//!
//! A patch is applied in three steps, in this order: the fields and
//! counters of the record, the vibes to detach, the vibes to attach. Each
//! step is one statement of its own, so a failure halfway leaves the
//! earlier steps applied. Detaching comes before attaching, so that a vibe
//! named in both lists ends up attached.

use crate::error::DatabaseError;
use crate::statement::{
    begin, draft_of, opt_text_can_bind, opt_text_fits, push_bind_int, push_bind_long,
    push_bind_text, push_sql, statement_open, Bind, Draft, Statement,
};
use crate::track::{Track, TrackFull, TrackFullPatch};
use crate::vibe::{
    drop_refs, join, joined, lemma_joined, lemma_without, push_refs, refs_can_bind, refs_clause,
    refs_fit, without, TrackID, Vibe, VibeRef, SELECT_REFERRED,
};
use vstd::prelude::*;

verus! {

/// The start of the statement that changes a record.
pub const UPDATE_TRACK: &'static str = "UPDATE tracks SET ";

/// The start of the statement that detaches vibes from a track.
pub const DELETE_LINKS: &'static str = "DELETE FROM tracks_with_vibes WHERE track = ";

/// The start of the statement that attaches vibes to a track.
pub const INSERT_LINKS: &'static str = "INSERT INTO tracks_with_vibes (track, vibe) SELECT ";

/// The vibes that a list of references ranges over; the condition starts
/// out false and each reference adds an alternative.
pub const REFERRED_IDS: &'static str = "SELECT vb.vibe_id FROM vibes vb WHERE FALSE";

/// `new` where it is given, `old` otherwise.
pub open spec fn replaced<T>(old: Option<T>, new: Option<T>) -> Option<T> {
    match new {
        Some(v) => Some(v),
        None => old,
    }
}

impl Track {
    /// The record after one vote of value `vote`: one vote more, and the
    /// sum of ratings larger by exactly `vote`.
    pub open spec fn voted(self, vote: u8) -> Track {
        Track {
            vote_count: (self.vote_count + 1) as i32,
            total_rating: (self.total_rating + vote) as i64,
            ..self
        }
    }

    /// The record after one download.
    pub open spec fn downloaded(self) -> Track {
        Track { download_count: (self.download_count + 1) as i32, ..self }
    }

    /// Whether one more vote of value `vote` can be counted.
    pub open spec fn can_vote(self, vote: u8) -> bool {
        self.vote_count < i32::MAX && self.total_rating + vote <= i64::MAX
    }

    /// Whether one more download can be counted.
    pub open spec fn can_download(self) -> bool {
        self.download_count < i32::MAX
    }
}

impl TrackFullPatch {
    /// Whether the patch changes the record itself: a field, the vote
    /// statistics or the download counter.
    pub open spec fn touches_record(self) -> bool {
        self.path is Some || self.title is Some || self.author is Some || self.genre is Some
            || self.duration is Some || self.new_vote is Some || self.new_download
    }

    /// Whether the counters of `track` have room for what the patch adds.
    pub open spec fn admissible(self, track: Track) -> bool {
        &&& self.new_vote matches Some(vote) ==> track.can_vote(vote)
        &&& self.new_download ==> track.can_download()
    }

    /// Whether every text of the patch is short enough to be bound.
    pub open spec fn fits(self) -> bool {
        &&& opt_text_fits(self.path)
        &&& opt_text_fits(self.title)
        &&& opt_text_fits(self.author)
        &&& opt_text_fits(self.genre)
        &&& self.add_vibes matches Some(refs) ==> refs_fit(refs@)
        &&& self.remove_vibes matches Some(refs) ==> refs_fit(refs@)
    }

    /// The vibes to detach; none where the list is absent.
    pub open spec fn removals(self) -> Seq<VibeRef> {
        match self.remove_vibes {
            Some(refs) => refs@,
            None => Seq::empty(),
        }
    }

    /// The vibes to attach; none where the list is absent.
    pub open spec fn additions(self) -> Seq<VibeRef> {
        match self.add_vibes {
            Some(refs) => refs@,
            None => Seq::empty(),
        }
    }

    /// The record `track` with the patch applied: each field that the patch
    /// gives is replaced, a vote is counted and a download is counted;
    /// everything else, the identifier first of all, stays.
    pub open spec fn record(self, track: Track) -> Track {
        let fields = Track {
            id: track.id,
            path: match self.path {
                Some(path) => path,
                None => track.path,
            },
            title: replaced(track.title, self.title),
            author: replaced(track.author, self.author),
            genre: replaced(track.genre, self.genre),
            duration: replaced(track.duration, self.duration),
            vote_count: track.vote_count,
            total_rating: track.total_rating,
            download_count: track.download_count,
        };
        let voted = match self.new_vote {
            Some(vote) => fields.voted(vote),
            None => fields,
        };
        if self.new_download {
            voted.downloaded()
        } else {
            voted
        }
    }

    /// The vibes `vibes` with the patch applied: first every vibe that a
    /// removal denotes is dropped; then, where the patch attaches anything,
    /// the vibes `resolved` that the store found for the additions are
    /// appended, each identifier at most once.
    pub open spec fn attached(self, vibes: Seq<Vibe>, resolved: Seq<Vibe>) -> Seq<Vibe> {
        let kept = without(vibes, self.removals());
        if self.additions().len() > 0 {
            joined(kept, resolved)
        } else {
            kept
        }
    }

    /// Whether the counters of `track` have room for what the patch adds.
    pub fn is_admissible(&self, track: &Track) -> (yes: bool)
        ensures
            yes == self.admissible(*track),
    {
        let vote_fits = match self.new_vote {
            Some(vote) => track.vote_count < i32::MAX && track.total_rating <= i64::MAX
                - vote as i64,
            None => true,
        };
        vote_fits && (!self.new_download || track.download_count < i32::MAX)
    }

    /// Whether every text of the patch is short enough to be bound.
    pub fn can_bind(&self) -> (yes: bool)
        ensures
            yes == self.fits(),
    {
        opt_text_can_bind(&self.path) && opt_text_can_bind(&self.title) && opt_text_can_bind(
            &self.author,
        ) && opt_text_can_bind(&self.genre) && match &self.add_vibes {
            Some(refs) => refs_can_bind(refs),
            None => true,
        } && match &self.remove_vibes {
            Some(refs) => refs_can_bind(refs),
            None => true,
        }
    }
}

impl TrackFull {
    /// Applies `patch` to the aggregate in memory, once the store has taken
    /// it: `resolved` are the vibes that the store found for the additions.
    ///
    /// The patch is refused, with a validation error, exactly where a
    /// counter has no room for what the patch adds. Otherwise the record
    /// and the vibes are those of [`TrackFullPatch::record`] and
    /// [`TrackFullPatch::attached`]. A consistent aggregate stays
    /// consistent.
    pub fn apply_patch(self, patch: TrackFullPatch, resolved: Vec<Vibe>) -> (r: Result<
        TrackFull,
        DatabaseError,
    >)
        ensures
            match r {
                Ok(patched) => {
                    &&& patch.admissible(self.track)
                    &&& patched.track == patch.record(self.track)
                    &&& patched.vibes@ == patch.attached(self.vibes@, resolved@)
                    &&& self.wf() ==> patched.wf()
                },
                Err(e) => !patch.admissible(self.track) && e == DatabaseError::ValidationError,
            },
    {
        if !patch.is_admissible(&self.track) {
            return Err(DatabaseError::ValidationError);
        }
        let TrackFull { track, vibes } = self;
        let TrackFullPatch {
            path,
            title,
            author,
            genre,
            duration,
            new_vote,
            new_download,
            add_vibes,
            remove_vibes,
        } = patch;
        let mut record = Track {
            id: track.id,
            path: match path {
                Some(path) => path,
                None => track.path,
            },
            title: match title {
                Some(title) => Some(title),
                None => track.title,
            },
            author: match author {
                Some(author) => Some(author),
                None => track.author,
            },
            genre: match genre {
                Some(genre) => Some(genre),
                None => track.genre,
            },
            duration: match duration {
                Some(duration) => Some(duration),
                None => track.duration,
            },
            vote_count: track.vote_count,
            total_rating: track.total_rating,
            download_count: track.download_count,
        };
        match new_vote {
            Some(vote) => {
                record.vote_count = record.vote_count + 1;
                record.total_rating = record.total_rating + vote as i64;
            },
            None => {},
        }
        if new_download {
            record.download_count = record.download_count + 1;
        }
        let mut kept = match &remove_vibes {
            Some(refs) => drop_refs(&vibes, refs),
            None => {
                proof {
                    lemma_without_nothing(vibes@);
                }
                vibes
            },
        };
        proof {
            lemma_without(vibes@, patch.removals());
            lemma_joined(kept@, resolved@);
        }
        let attaches = match &add_vibes {
            Some(refs) => refs.len() > 0,
            None => false,
        };
        if attaches {
            join(&mut kept, &resolved);
        }
        Ok(TrackFull { track: record, vibes: kept })
    }
}

/// With no reference to drop, every vibe stays.
pub proof fn lemma_without_nothing(vibes: Seq<Vibe>)
    ensures
        without(vibes, Seq::empty()) == vibes,
    decreases vibes.len(),
{
    if vibes.len() > 0 {
        lemma_without_nothing(vibes.drop_last());
        assert(vibes.drop_last().push(vibes.last()) =~= vibes);
    }
}

/// The statements that carry one patch to the store, in the order in which
/// they are to be run. An absent statement means that the step has nothing
/// to do and is skipped.
pub struct PatchPlan {
    /// Changes the record: fields, vote statistics, download counter.
    pub update: Option<Statement>,
    /// Detaches vibes.
    pub remove: Option<Statement>,
    /// Attaches vibes; one that is attached already stays as it is.
    pub attach: Option<Statement>,
    /// Reads the vibes that were to be attached. Its rows are the
    /// `resolved` of [`TrackFull::apply_patch`].
    pub resolve: Option<Statement>,
}

/// The statement `d` with a comma appended where an assignment precedes.
pub open spec fn separated(d: Draft, any: bool) -> Draft {
    if any {
        d.sql(", "@)
    } else {
        d
    }
}

/// The statement `d` with the assignment of a text to `column` appended,
/// where there is a text.
pub open spec fn set_text(d: Draft, any: bool, column: Seq<char>, value: Option<String>) -> Draft {
    match value {
        Some(v) => separated(d, any).sql(column).bind(Bind::Text(v@)),
        None => d,
    }
}

/// The statement `d` with the assignment of a number to `column` appended,
/// where there is a number.
pub open spec fn set_int(d: Draft, any: bool, column: Seq<char>, value: Option<i32>) -> Draft {
    match value {
        Some(v) => separated(d, any).sql(column).bind(Bind::Int(v)),
        None => d,
    }
}

/// The statement `d` with the counting of one vote appended, where there
/// is a vote. Both statistics are incremented in the store, from the values
/// that the store holds, never from a copy in memory.
pub open spec fn set_vote(d: Draft, any: bool, vote: Option<u8>) -> Draft {
    match vote {
        Some(v) => separated(d, any).sql("vote_count = vote_count + 1"@).sql(
            ", total_rating = total_rating + "@,
        ).bind(Bind::Long(v as i64)),
        None => d,
    }
}

/// The statement `d` with the counting of one download appended, where one
/// is to be counted. The counter is incremented in the store.
pub open spec fn set_download(d: Draft, any: bool, download: bool) -> Draft {
    if download {
        separated(d, any).sql("download_count = download_count + 1"@)
    } else {
        d
    }
}

impl TrackFullPatch {
    /// The statement that changes the record `id`: one assignment for each
    /// field that the patch gives, in the order path, title, author, genre,
    /// duration, then the vote and the download, separated by commas.
    pub open spec fn update_draft(self, id: TrackID) -> Draft {
        let any1 = self.path is Some;
        let any2 = any1 || self.title is Some;
        let any3 = any2 || self.author is Some;
        let any4 = any3 || self.genre is Some;
        let any5 = any4 || self.duration is Some;
        let any6 = any5 || self.new_vote is Some;
        let d0 = Draft::start(UPDATE_TRACK@);
        let d1 = set_text(d0, false, "path = "@, self.path);
        let d2 = set_text(d1, any1, "title = "@, self.title);
        let d3 = set_text(d2, any2, "author = "@, self.author);
        let d4 = set_text(d3, any3, "genre = "@, self.genre);
        let d5 = set_int(d4, any4, "duration = "@, self.duration);
        let d6 = set_vote(d5, any5, self.new_vote);
        let d7 = set_download(d6, any6, self.new_download);
        d7.sql(" WHERE track_id = "@).bind(Bind::Int(id))
    }
}

/// The statement that detaches from the track `id` the vibes that `refs`
/// denote.
pub open spec fn remove_draft(id: TrackID, refs: Seq<VibeRef>) -> Draft {
    refs_clause(
        Draft::start(DELETE_LINKS@).bind(Bind::Int(id)).sql(" AND vibe IN ("@).sql(REFERRED_IDS@),
        refs,
    ).sql(")"@)
}

/// The statement that attaches to the track `id` the vibes that `refs`
/// denote, leaving alone those that are attached already.
pub open spec fn attach_draft(id: TrackID, refs: Seq<VibeRef>) -> Draft {
    refs_clause(
        Draft::start(INSERT_LINKS@).bind(Bind::Int(id)).sql(
            ", vb.vibe_id FROM vibes vb WHERE FALSE"@,
        ),
        refs,
    ).sql(" ON CONFLICT DO NOTHING"@)
}

/// The statement that reads the vibes that `refs` denote.
pub open spec fn resolve_draft(refs: Seq<VibeRef>) -> Draft {
    refs_clause(Draft::start(SELECT_REFERRED@), refs)
}

/// Whether `step` is the statement `draft` where `present`, and absent
/// otherwise.
pub open spec fn step_is(step: Option<Statement>, present: bool, draft: Draft) -> bool {
    match step {
        Some(q) => present && draft_of(q) == draft,
        None => !present,
    }
}

/// Appends a comma where an assignment precedes.
fn push_separator(q: &mut Statement, any: bool)
    requires
        statement_open(*old(q)),
    ensures
        statement_open(*final(q)),
        draft_of(*final(q)) == separated(draft_of(*old(q)), any),
{
    if any {
        push_sql(q, ", ");
    }
}

/// Appends the assignment of a text to `column`, where there is a text,
/// and says whether an assignment precedes what comes next.
fn assign_text(q: &mut Statement, any: bool, column: &str, value: &Option<String>) -> (now: bool)
    requires
        statement_open(*old(q)),
        opt_text_fits(*value),
    ensures
        statement_open(*final(q)),
        draft_of(*final(q)) == set_text(draft_of(*old(q)), any, column@, *value),
        now == (any || *value is Some),
{
    match value {
        Some(v) => {
            push_separator(q, any);
            push_sql(q, column);
            push_bind_text(q, v.as_str());
            true
        },
        None => any,
    }
}

impl TrackFull {
    /// The statements that carry `patch` to the store.
    ///
    /// The patch is refused, with a validation error, exactly where a
    /// counter has no room for what the patch adds or a text is too long to
    /// be bound. Otherwise: the record is changed where the patch touches
    /// it, vibes are detached where the patch names any, and vibes are
    /// attached and read back where the patch names any.
    pub fn patch_statements(&self, patch: &TrackFullPatch) -> (r: Result<PatchPlan, DatabaseError>)
        ensures
            match r {
                Ok(plan) => {
                    &&& patch.admissible(self.track) && patch.fits()
                    &&& step_is(
                        plan.update,
                        patch.touches_record(),
                        patch.update_draft(self.track.id),
                    )
                    &&& step_is(
                        plan.remove,
                        patch.removals().len() > 0,
                        remove_draft(self.track.id, patch.removals()),
                    )
                    &&& step_is(
                        plan.attach,
                        patch.additions().len() > 0,
                        attach_draft(self.track.id, patch.additions()),
                    )
                    &&& step_is(
                        plan.resolve,
                        patch.additions().len() > 0,
                        resolve_draft(patch.additions()),
                    )
                },
                Err(e) => !(patch.admissible(self.track) && patch.fits()) && e
                    == DatabaseError::ValidationError,
            },
    {
        if !patch.is_admissible(&self.track) || !patch.can_bind() {
            return Err(DatabaseError::ValidationError);
        }
        let id = self.track.id;
        let touches = patch.path.is_some() || patch.title.is_some() || patch.author.is_some()
            || patch.genre.is_some() || patch.duration.is_some() || patch.new_vote.is_some()
            || patch.new_download;
        let update = if touches {
            let mut q = begin(UPDATE_TRACK);
            let any = assign_text(&mut q, false, "path = ", &patch.path);
            let any = assign_text(&mut q, any, "title = ", &patch.title);
            let any = assign_text(&mut q, any, "author = ", &patch.author);
            let any = assign_text(&mut q, any, "genre = ", &patch.genre);
            let any = match patch.duration {
                Some(duration) => {
                    push_separator(&mut q, any);
                    push_sql(&mut q, "duration = ");
                    push_bind_int(&mut q, duration);
                    true
                },
                None => any,
            };
            let any = match patch.new_vote {
                Some(vote) => {
                    push_separator(&mut q, any);
                    push_sql(&mut q, "vote_count = vote_count + 1");
                    push_sql(&mut q, ", total_rating = total_rating + ");
                    push_bind_long(&mut q, vote as i64);
                    true
                },
                None => any,
            };
            if patch.new_download {
                push_separator(&mut q, any);
                push_sql(&mut q, "download_count = download_count + 1");
            }
            push_sql(&mut q, " WHERE track_id = ");
            push_bind_int(&mut q, id);
            Some(q)
        } else {
            None
        };
        let remove = match &patch.remove_vibes {
            Some(refs) => if refs.len() > 0 {
                let mut q = begin(DELETE_LINKS);
                push_bind_int(&mut q, id);
                push_sql(&mut q, " AND vibe IN (");
                push_sql(&mut q, REFERRED_IDS);
                push_refs(&mut q, refs);
                push_sql(&mut q, ")");
                Some(q)
            } else {
                None
            },
            None => None,
        };
        let (attach, resolve) = match &patch.add_vibes {
            Some(refs) => if refs.len() > 0 {
                let mut q = begin(INSERT_LINKS);
                push_bind_int(&mut q, id);
                push_sql(&mut q, ", vb.vibe_id FROM vibes vb WHERE FALSE");
                push_refs(&mut q, refs);
                push_sql(&mut q, " ON CONFLICT DO NOTHING");
                match Vibe::get_by_refs(refs) {
                    Ok(lookup) => (Some(q), Some(lookup)),
                    Err(e) => {
                        return Err(e);
                    },
                }
            } else {
                (None, None)
            },
            None => (None, None),
        };
        Ok(PatchPlan { update, remove, attach, resolve })
    }
}

/// How far the statements of a patch have come.
#[derive(Debug, Clone, Copy, PartialEq, Eq, Structural)]
pub enum PatchStage {
    /// Nothing was asked of the store yet.
    Begun,
    /// The change of the record is under way.
    Updating,
    /// The detaching of vibes is under way.
    Detaching,
    /// The attaching of vibes is under way.
    Attaching,
    /// The reading of the attached vibes is under way.
    Resolving,
    /// Every statement has run, or one has failed.
    Over,
}

/// What a patch wants next from the caller, who holds the connection.
pub enum PatchStep {
    /// Run the statement.
    Run(Statement),
    /// Run the statement and keep its rows: they are the `resolved` of
    /// [`TrackFull::apply_patch`].
    Resolve(Statement),
    /// Stop. After `Ok` the patch is to be applied in memory; after an
    /// error the statements that ran before it stay applied in the store.
    Done(Result<(), DatabaseError>),
}

/// The statements of one patch on their way to the store: they run one
/// after the other, in the order change, detach, attach, read back, and the
/// first failure ends the run.
pub struct Patching {
    pub plan: PatchPlan,
    pub stage: PatchStage,
}

impl PatchStage {
    /// The place of the stage in the order of the run.
    pub open spec fn rank(self) -> nat {
        match self {
            PatchStage::Begun => 0,
            PatchStage::Updating => 1,
            PatchStage::Detaching => 2,
            PatchStage::Attaching => 3,
            PatchStage::Resolving => 4,
            PatchStage::Over => 5,
        }
    }
}

impl PatchPlan {
    /// The statement of the stage `stage`, where the plan has one.
    pub open spec fn statement_at(self, stage: PatchStage) -> Option<Statement> {
        match stage {
            PatchStage::Updating => self.update,
            PatchStage::Detaching => self.remove,
            PatchStage::Attaching => self.attach,
            PatchStage::Resolving => self.resolve,
            _ => None,
        }
    }

    /// The first stage from `stage` on that has a statement; the end of the
    /// run where none has.
    pub open spec fn first_from(self, stage: PatchStage) -> PatchStage
        decreases 5 - stage.rank(),
    {
        match stage {
            PatchStage::Begun => self.first_from(PatchStage::Updating),
            PatchStage::Updating => if self.update is Some {
                stage
            } else {
                self.first_from(PatchStage::Detaching)
            },
            PatchStage::Detaching => if self.remove is Some {
                stage
            } else {
                self.first_from(PatchStage::Attaching)
            },
            PatchStage::Attaching => if self.attach is Some {
                stage
            } else {
                self.first_from(PatchStage::Resolving)
            },
            PatchStage::Resolving => if self.resolve is Some {
                stage
            } else {
                PatchStage::Over
            },
            PatchStage::Over => PatchStage::Over,
        }
    }

    /// The stage that follows `stage` when the statement under way went
    /// through: the next one in the order of the run that has a statement.
    pub open spec fn following(self, stage: PatchStage) -> PatchStage {
        match stage {
            PatchStage::Begun => self.first_from(PatchStage::Updating),
            PatchStage::Updating => self.first_from(PatchStage::Detaching),
            PatchStage::Detaching => self.first_from(PatchStage::Attaching),
            PatchStage::Attaching => self.first_from(PatchStage::Resolving),
            PatchStage::Resolving => PatchStage::Over,
            PatchStage::Over => PatchStage::Over,
        }
    }

    /// The plan once the statement of the stage `stage` was handed out.
    pub open spec fn without_statement(self, stage: PatchStage) -> PatchPlan {
        match stage {
            PatchStage::Updating => PatchPlan { update: None, ..self },
            PatchStage::Detaching => PatchPlan { remove: None, ..self },
            PatchStage::Attaching => PatchPlan { attach: None, ..self },
            PatchStage::Resolving => PatchPlan { resolve: None, ..self },
            _ => self,
        }
    }

    /// Starts the run of the statements.
    pub fn run(self) -> (patching: Patching)
        ensures
            patching.plan == self,
            patching.stage == PatchStage::Begun,
    {
        Patching { plan: self, stage: PatchStage::Begun }
    }
}

impl Patching {
    /// Whether a statement is under way, so that an outcome is looked at.
    pub open spec fn running(stage: PatchStage) -> bool {
        stage != PatchStage::Begun && stage != PatchStage::Over
    }

    /// Whether `step` is what the run asks for on entering `stage`, with the
    /// statements that `plan` holds.
    pub open spec fn asks(plan: PatchPlan, stage: PatchStage, step: PatchStep) -> bool {
        match stage {
            PatchStage::Begun => false,
            PatchStage::Updating => step matches PatchStep::Run(q) && plan.update == Some(q),
            PatchStage::Detaching => step matches PatchStep::Run(q) && plan.remove == Some(q),
            PatchStage::Attaching => step matches PatchStep::Run(q) && plan.attach == Some(q),
            PatchStage::Resolving => step matches PatchStep::Resolve(q) && plan.resolve == Some(q),
            PatchStage::Over => step matches PatchStep::Done(Ok(_)),
        }
    }

    /// Takes the outcome of the statement under way, `None` for success and
    /// the error otherwise, and says what comes next. At the start there is
    /// no statement under way and the outcome is not looked at.
    ///
    /// After a failure the run is over, with the error of the statement
    /// that failed; no later statement is handed out. After a success the
    /// run moves on to the next stage that has a statement and hands that
    /// statement out, or ends with `Ok` where no stage is left.
    pub fn advance(&mut self, outcome: Option<DatabaseError>) -> (step: PatchStep)
        ensures
            match outcome {
                Some(error) if Self::running(old(self).stage) => {
                    &&& final(self).stage == PatchStage::Over
                    &&& final(self).plan == old(self).plan
                    &&& step == PatchStep::Done(Err(error))
                },
                _ => {
                    &&& final(self).stage == old(self).plan.following(old(self).stage)
                    &&& Self::asks(old(self).plan, final(self).stage, step)
                    &&& final(self).plan == old(self).plan.without_statement(final(self).stage)
                },
            },
    {
        let failed = match self.stage {
            PatchStage::Begun => false,
            PatchStage::Over => false,
            _ => outcome.is_some(),
        };
        if failed {
            self.stage = PatchStage::Over;
            return match outcome {
                Some(error) => PatchStep::Done(Err(error)),
                None => PatchStep::Done(Ok(())),
            };
        }
        let rank: u8 = match self.stage {
            PatchStage::Begun => 0,
            PatchStage::Updating => 1,
            PatchStage::Detaching => 2,
            PatchStage::Attaching => 3,
            PatchStage::Resolving => 4,
            PatchStage::Over => 5,
        };
        if rank < 1 {
            match self.plan.update.take() {
                Some(q) => {
                    self.stage = PatchStage::Updating;
                    return PatchStep::Run(q);
                },
                None => {},
            }
        }
        if rank < 2 {
            match self.plan.remove.take() {
                Some(q) => {
                    self.stage = PatchStage::Detaching;
                    return PatchStep::Run(q);
                },
                None => {},
            }
        }
        if rank < 3 {
            match self.plan.attach.take() {
                Some(q) => {
                    self.stage = PatchStage::Attaching;
                    return PatchStep::Run(q);
                },
                None => {},
            }
        }
        if rank < 4 {
            match self.plan.resolve.take() {
                Some(q) => {
                    self.stage = PatchStage::Resolving;
                    return PatchStep::Resolve(q);
                },
                None => {},
            }
        }
        self.stage = PatchStage::Over;
        PatchStep::Done(Ok(()))
    }
}

} // verus!
