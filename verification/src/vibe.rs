//! The tag catalog: vibes, references to them, and the statements that look
//! them up.

use crate::error::DatabaseError;
use crate::statement::{
    begin, draft_of, ints_can_bind, ints_fit, push_bind_int, push_bind_ints, push_bind_text,
    push_sql, statement_open, text_can_bind, text_fits, Bind, Draft, Statement,
};
use crate::text::same_text;
use std::collections::HashMap;
use vstd::prelude::*;

verus! {

/// Identifier of a track.
pub type TrackID = i32;

/// Identifier of a vibe.
pub type VibeID = i32;

/// A vibe: a named attribute that belongs to exactly one group.
///
/// The name of the owning group is carried along, so that a vibe can be
/// shown without a second lookup.
#[derive(Debug, Default, PartialEq, Eq)]
pub struct Vibe {
    pub id: VibeID,
    pub name: String,
    pub group_name: String,
}

impl Clone for Vibe {
    fn clone(&self) -> (copy: Self)
        ensures
            copy == *self,
    {
        Vibe { id: self.id, name: self.name.clone(), group_name: self.group_name.clone() }
    }
}

/// A reference to a vibe: by its identifier, or by the name of its group
/// and its own name where the identifier is not known.
#[derive(Debug, PartialEq, Eq)]
pub enum VibeRef {
    Id(VibeID),
    Named { group_name: String, name: String },
}

impl Clone for VibeRef {
    fn clone(&self) -> (copy: Self)
        ensures
            copy == *self,
    {
        match self {
            VibeRef::Id(id) => VibeRef::Id(*id),
            VibeRef::Named { group_name, name } => VibeRef::Named {
                group_name: group_name.clone(),
                name: name.clone(),
            },
        }
    }
}

/// One row of the bulk lookup of vibes by track: a vibe and the track that
/// carries it.
#[derive(Debug, PartialEq, Eq)]
pub struct VibeLink {
    pub track_id: TrackID,
    pub vibe: Vibe,
}

impl Clone for VibeLink {
    fn clone(&self) -> (copy: Self)
        ensures
            copy == *self,
    {
        VibeLink { track_id: self.track_id, vibe: self.vibe.clone() }
    }
}

impl VibeRef {
    /// Whether the reference denotes `vibe`.
    pub open spec fn refers_to(self, vibe: Vibe) -> bool {
        match self {
            VibeRef::Id(id) => vibe.id == id,
            VibeRef::Named { group_name, name } => vibe.group_name@ == group_name@ && vibe.name@
                == name@,
        }
    }

    /// Whether the reference denotes `vibe`.
    pub fn matches(&self, vibe: &Vibe) -> (yes: bool)
        ensures
            yes == self.refers_to(*vibe),
    {
        match self {
            VibeRef::Id(id) => vibe.id == *id,
            VibeRef::Named { group_name, name } => same_text(
                vibe.group_name.as_str(),
                group_name.as_str(),
            ) && same_text(vibe.name.as_str(), name.as_str()),
        }
    }

    /// Whether the texts of the reference are short enough to be bound.
    pub open spec fn fits(self) -> bool {
        match self {
            VibeRef::Id(_) => true,
            VibeRef::Named { group_name, name } => text_fits(group_name@) && text_fits(name@),
        }
    }

    /// Whether the texts of the reference are short enough to be bound.
    pub fn can_bind(&self) -> (yes: bool)
        ensures
            yes == self.fits(),
    {
        match self {
            VibeRef::Id(_) => true,
            VibeRef::Named { group_name, name } => text_can_bind(group_name.as_str())
                && text_can_bind(name.as_str()),
        }
    }
}

/// Whether some reference in `refs` denotes `vibe`.
pub open spec fn refers_any(refs: Seq<VibeRef>, vibe: Vibe) -> bool {
    exists|i: int| 0 <= i < refs.len() && (#[trigger] refs[i]).refers_to(vibe)
}

/// Whether some reference in `refs` denotes `vibe`.
pub fn matches_any(refs: &Vec<VibeRef>, vibe: &Vibe) -> (yes: bool)
    ensures
        yes == refers_any(refs@, *vibe),
{
    let mut i: usize = 0;
    while i < refs.len()
        invariant
            i <= refs.len(),
            forall|j: int| 0 <= j < i ==> !(#[trigger] refs@[j]).refers_to(*vibe),
        decreases refs.len() - i,
    {
        if refs[i].matches(vibe) {
            return true;
        }
        i += 1;
    }
    false
}

/// Whether every reference in `refs` is short enough to be bound.
pub open spec fn refs_fit(refs: Seq<VibeRef>) -> bool {
    forall|i: int| 0 <= i < refs.len() ==> (#[trigger] refs[i]).fits()
}

/// Whether every reference in `refs` is short enough to be bound.
pub fn refs_can_bind(refs: &Vec<VibeRef>) -> (yes: bool)
    ensures
        yes == refs_fit(refs@),
{
    let mut i: usize = 0;
    while i < refs.len()
        invariant
            i <= refs.len(),
            forall|j: int| 0 <= j < i ==> (#[trigger] refs@[j]).fits(),
        decreases refs.len() - i,
    {
        if !refs[i].can_bind() {
            return false;
        }
        i += 1;
    }
    true
}

/// Whether a vibe with identifier `id` occurs in `vibes`.
pub open spec fn has_id(vibes: Seq<Vibe>, id: VibeID) -> bool {
    exists|i: int| 0 <= i < vibes.len() && (#[trigger] vibes[i]).id == id
}

/// Whether no identifier occurs twice in `vibes`.
pub open spec fn distinct_ids(vibes: Seq<Vibe>) -> bool {
    forall|i: int, j: int|
        0 <= i < j < vibes.len() ==> (#[trigger] vibes[i]).id != (#[trigger] vibes[j]).id
}

/// Whether a vibe with identifier `id` occurs in `vibes`.
pub fn contains_id(vibes: &Vec<Vibe>, id: VibeID) -> (yes: bool)
    ensures
        yes == has_id(vibes@, id),
{
    let mut i: usize = 0;
    while i < vibes.len()
        invariant
            i <= vibes.len(),
            forall|j: int| 0 <= j < i ==> (#[trigger] vibes@[j]).id != id,
        decreases vibes.len() - i,
    {
        if vibes[i].id == id {
            return true;
        }
        i += 1;
    }
    false
}

/// `vibes` extended by those of `added` whose identifier is not present
/// yet, in the order of `added`.
pub open spec fn joined(vibes: Seq<Vibe>, added: Seq<Vibe>) -> Seq<Vibe>
    decreases added.len(),
{
    if added.len() == 0 {
        vibes
    } else {
        let before = joined(vibes, added.drop_last());
        if has_id(before, added.last().id) {
            before
        } else {
            before.push(added.last())
        }
    }
}

/// Those of `vibes` that no reference in `refs` denotes, in their order.
pub open spec fn without(vibes: Seq<Vibe>, refs: Seq<VibeRef>) -> Seq<Vibe>
    decreases vibes.len(),
{
    if vibes.len() == 0 {
        vibes
    } else {
        let before = without(vibes.drop_last(), refs);
        if refers_any(refs, vibes.last()) {
            before
        } else {
            before.push(vibes.last())
        }
    }
}

/// Extends `vibes` by those of `added` whose identifier is not present yet.
pub fn join(vibes: &mut Vec<Vibe>, added: &Vec<Vibe>)
    ensures
        final(vibes)@ == joined(old(vibes)@, added@),
{
    let mut i: usize = 0;
    while i < added.len()
        invariant
            i <= added.len(),
            vibes@ == joined(old(vibes)@, added@.take(i as int)),
        decreases added.len() - i,
    {
        proof {
            assert(added@.take(i + 1).drop_last() =~= added@.take(i as int));
        }
        if !contains_id(vibes, added[i].id) {
            vibes.push(added[i].clone());
        }
        i += 1;
    }
    proof {
        assert(added@.take(i as int) =~= added@);
    }
}

/// Keeps those of `vibes` that no reference in `refs` denotes.
pub fn drop_refs(vibes: &Vec<Vibe>, refs: &Vec<VibeRef>) -> (kept: Vec<Vibe>)
    ensures
        kept@ == without(vibes@, refs@),
{
    let mut kept: Vec<Vibe> = Vec::new();
    let mut i: usize = 0;
    while i < vibes.len()
        invariant
            i <= vibes.len(),
            kept@ == without(vibes@.take(i as int), refs@),
        decreases vibes.len() - i,
    {
        proof {
            assert(vibes@.take(i + 1).drop_last() =~= vibes@.take(i as int));
        }
        if !matches_any(refs, &vibes[i]) {
            kept.push(vibes[i].clone());
        }
        i += 1;
    }
    proof {
        assert(vibes@.take(i as int) =~= vibes@);
    }
    kept
}

/// Everything kept by [`without`] was there before, in the same order, and
/// nothing that a reference denotes is left.
pub proof fn lemma_without(vibes: Seq<Vibe>, refs: Seq<VibeRef>)
    ensures
        without(vibes, refs).len() <= vibes.len(),
        forall|i: int|
            0 <= i < without(vibes, refs).len() ==> !refers_any(
                refs,
                #[trigger] without(vibes, refs)[i],
            ),
        forall|id: VibeID| #[trigger] has_id(without(vibes, refs), id) ==> has_id(vibes, id),
        forall|i: int|
            0 <= i < vibes.len() && !refers_any(refs, #[trigger] vibes[i]) ==> without(
                vibes,
                refs,
            ).contains(vibes[i]),
        distinct_ids(vibes) ==> distinct_ids(without(vibes, refs)),
    decreases vibes.len(),
{
    if vibes.len() > 0 {
        let front = vibes.drop_last();
        let before = without(front, refs);
        let kept = without(vibes, refs);
        lemma_without(front, refs);
        assert forall|id: VibeID| #[trigger] has_id(kept, id) implies has_id(vibes, id) by {
            let i = choose|i: int| 0 <= i < kept.len() && (#[trigger] kept[i]).id == id;
            if i < before.len() {
                assert(has_id(before, id));
                let j = choose|j: int| 0 <= j < front.len() && (#[trigger] front[j]).id == id;
                assert(vibes[j].id == id);
            } else {
                assert(vibes[vibes.len() - 1].id == id);
            }
        }
        assert forall|i: int|
            0 <= i < vibes.len() && !refers_any(refs, #[trigger] vibes[i]) implies kept.contains(
            vibes[i],
        ) by {
            if i < front.len() {
                assert(front[i] == vibes[i]);
                assert(before.contains(front[i]));
                let j = choose|j: int| 0 <= j < before.len() && before[j] == front[i];
                assert(kept[j] == vibes[i]);
            } else {
                assert(kept[kept.len() - 1] == vibes[i]);
            }
        }
        if distinct_ids(vibes) {
            assert(distinct_ids(front)) by {
                assert forall|i: int, j: int| 0 <= i < j < front.len() implies (
                #[trigger] front[i]).id != (#[trigger] front[j]).id by {
                    assert(vibes[i].id != vibes[j].id);
                }
            }
            if !refers_any(refs, vibes.last()) {
                assert forall|i: int, j: int| 0 <= i < j < kept.len() implies (
                #[trigger] kept[i]).id != (#[trigger] kept[j]).id by {
                    if j == kept.len() - 1 {
                        assert(has_id(before, before[i].id));
                        let k = choose|k: int|
                            0 <= k < front.len() && (#[trigger] front[k]).id == before[i].id;
                        assert(vibes[k].id != vibes[vibes.len() - 1].id);
                    }
                }
            }
        }
    }
}

/// Vibes that carry each identifier once are what [`joined`] makes of them
/// from nothing.
pub proof fn lemma_joined_distinct(vibes: Seq<Vibe>)
    requires
        distinct_ids(vibes),
    ensures
        joined(Seq::empty(), vibes) == vibes,
    decreases vibes.len(),
{
    if vibes.len() > 0 {
        let front = vibes.drop_last();
        assert(distinct_ids(front)) by {
            assert forall|i: int, j: int| 0 <= i < j < front.len() implies (#[trigger] front[i]).id
                != (#[trigger] front[j]).id by {
                assert(vibes[i].id != vibes[j].id);
            }
        }
        lemma_joined_distinct(front);
        if has_id(front, vibes.last().id) {
            let i = choose|i: int| 0 <= i < front.len() && (#[trigger] front[i]).id == vibes.last().id;
            assert(vibes[i].id != vibes[vibes.len() - 1].id);
        }
        assert(front.push(vibes.last()) =~= vibes);
    } else {
        assert(vibes =~= Seq::<Vibe>::empty());
    }
}

/// [`joined`] keeps what was there, in place, adds every new identifier of
/// `added` and no other, and attaches no identifier twice.
pub proof fn lemma_joined(vibes: Seq<Vibe>, added: Seq<Vibe>)
    ensures
        vibes.len() <= joined(vibes, added).len(),
        forall|i: int| 0 <= i < vibes.len() ==> #[trigger] joined(vibes, added)[i] == vibes[i],
        forall|i: int|
            vibes.len() <= i < joined(vibes, added).len() ==> added.contains(
                #[trigger] joined(vibes, added)[i],
            ),
        forall|i: int| 0 <= i < added.len() ==> has_id(joined(vibes, added), #[trigger] added[i].id),
        distinct_ids(vibes) ==> distinct_ids(joined(vibes, added)),
    decreases added.len(),
{
    if added.len() > 0 {
        let front = added.drop_last();
        let before = joined(vibes, front);
        let all = joined(vibes, added);
        lemma_joined(vibes, front);
        assert forall|i: int| vibes.len() <= i < all.len() implies added.contains(
            #[trigger] all[i],
        ) by {
            if i < before.len() {
                assert(front.contains(before[i]));
                let j = choose|j: int| 0 <= j < front.len() && front[j] == before[i];
                assert(added[j] == all[i]);
            } else {
                assert(added[added.len() - 1] == all[i]);
            }
        }
        assert forall|i: int| 0 <= i < added.len() implies has_id(all, #[trigger] added[i].id) by {
            if i < front.len() {
                assert(front[i] == added[i]);
                assert(has_id(before, front[i].id));
                let j = choose|j: int|
                    0 <= j < before.len() && (#[trigger] before[j]).id == front[i].id;
                assert(all[j].id == added[i].id);
            } else {
                if has_id(before, added.last().id) {
                } else {
                    assert(all[all.len() - 1].id == added[i].id);
                }
            }
        }
        if distinct_ids(vibes) && !has_id(before, added.last().id) {
            assert forall|i: int, j: int| 0 <= i < j < all.len() implies (#[trigger] all[i]).id != (
            #[trigger] all[j]).id by {
                if j == all.len() - 1 {
                    assert(before[i].id != added.last().id);
                }
            }
        }
    }
}

/// The columns of a vibe, read from the `vibes` relation.
pub const SELECT_VIBES: &'static str = "SELECT vibe_id AS id, name, group_name FROM vibes";

/// The columns of a vibe, read through the association with tracks.
pub const SELECT_VIBES_OF_TRACKS: &'static str =
    "SELECT vb.vibe_id AS id, vb.name, vb.group_name FROM vibes AS vb JOIN tracks_with_vibes AS twv ON vb.vibe_id = twv.vibe";

/// The columns of a vibe and the track that carries it.
pub const SELECT_LINKS: &'static str =
    "SELECT twv.track AS track_id, vb.vibe_id AS id, vb.name AS name, vb.group_name FROM vibes AS vb JOIN tracks_with_vibes AS twv ON vb.vibe_id = twv.vibe";

/// The columns of a vibe, read for a list of references. The condition
/// starts out false; each reference adds an alternative.
pub const SELECT_REFERRED: &'static str =
    "SELECT vb.vibe_id AS id, vb.name, vb.group_name FROM vibes vb WHERE FALSE";

/// The number of vibes.
pub const COUNT_VIBES: &'static str = "SELECT COUNT(*) AS vibes_count FROM vibes";

/// The statement `d` with the alternative for one reference appended. A
/// vibe whose group the store does not name is compared as a vibe of the
/// group with the empty name, which is how [`Vibe::from_columns`] reads it:
/// a reference denotes the same vibes in the store as in memory.
pub open spec fn ref_clause(d: Draft, r: VibeRef) -> Draft {
    match r {
        VibeRef::Id(id) => d.sql(" OR vb.vibe_id = "@).bind(Bind::Int(id)),
        VibeRef::Named { group_name, name } => d.sql(" OR (COALESCE(vb.group_name, '') = "@).bind(
            Bind::Text(group_name@),
        ).sql(" AND vb.name = "@).bind(Bind::Text(name@)).sql(")"@),
    }
}

/// The statement `d` with one alternative appended for each reference, in
/// order.
pub open spec fn refs_clause(d: Draft, refs: Seq<VibeRef>) -> Draft
    decreases refs.len(),
{
    if refs.len() == 0 {
        d
    } else {
        ref_clause(refs_clause(d, refs.drop_last()), refs.last())
    }
}

/// Appends one alternative for each reference to a condition over `vibes
/// vb`.
pub(crate) fn push_refs(q: &mut Statement, refs: &Vec<VibeRef>)
    requires
        statement_open(*old(q)),
        refs_fit(refs@),
    ensures
        statement_open(*final(q)),
        draft_of(*final(q)) == refs_clause(draft_of(*old(q)), refs@),
{
    let mut i: usize = 0;
    while i < refs.len()
        invariant
            i <= refs.len(),
            refs_fit(refs@),
            statement_open(*q),
            draft_of(*q) == refs_clause(draft_of(*old(q)), refs@.take(i as int)),
        decreases refs.len() - i,
    {
        proof {
            assert(refs@.take(i + 1).drop_last() =~= refs@.take(i as int));
            assert(refs@[i as int].fits());
        }
        match &refs[i] {
            VibeRef::Id(id) => {
                push_sql(q, " OR vb.vibe_id = ");
                push_bind_int(q, *id);
            },
            VibeRef::Named { group_name, name } => {
                push_sql(q, " OR (COALESCE(vb.group_name, '') = ");
                push_bind_text(q, group_name.as_str());
                push_sql(q, " AND vb.name = ");
                push_bind_text(q, name.as_str());
                push_sql(q, ")");
            },
        }
        i += 1;
    }
    proof {
        assert(refs@.take(i as int) =~= refs@);
    }
}

/// The statement that reads, in one go, the vibes attached to any of the
/// tracks `ids`, each with its track.
pub open spec fn links_draft(ids: Seq<TrackID>) -> Draft {
    Draft::start(SELECT_LINKS@).sql(" WHERE twv.track = ANY("@).bind(Bind::Ints(ids)).sql(")"@)
}

/// The vibes that `links` attach to `track`, each identifier once, in the
/// order of `links`.
pub open spec fn vibes_of(links: Seq<VibeLink>, track: TrackID) -> Seq<Vibe>
    decreases links.len(),
{
    if links.len() == 0 {
        Seq::empty()
    } else {
        let before = vibes_of(links.drop_last(), track);
        if links.last().track_id == track && !has_id(before, links.last().vibe.id) {
            before.push(links.last().vibe)
        } else {
            before
        }
    }
}

/// Whether some link in `links` belongs to `track`.
pub open spec fn linked(links: Seq<VibeLink>, track: TrackID) -> bool {
    exists|i: int| 0 <= i < links.len() && (#[trigger] links[i]).track_id == track
}

/// A track without links has no vibes.
pub proof fn lemma_unlinked(links: Seq<VibeLink>, track: TrackID)
    requires
        !linked(links, track),
    ensures
        vibes_of(links, track) == Seq::<Vibe>::empty(),
    decreases links.len(),
{
    if links.len() > 0 {
        assert(links[links.len() - 1].track_id != track);
        assert(!linked(links.drop_last(), track)) by {
            if linked(links.drop_last(), track) {
                let i = choose|i: int|
                    0 <= i < links.drop_last().len() && (#[trigger] links.drop_last()[i]).track_id
                        == track;
                assert(links[i].track_id == track);
            }
        }
        lemma_unlinked(links.drop_last(), track);
    }
}

/// The vibes of a track carry each identifier once.
pub proof fn lemma_vibes_of_distinct(links: Seq<VibeLink>, track: TrackID)
    ensures
        distinct_ids(vibes_of(links, track)),
    decreases links.len(),
{
    if links.len() > 0 {
        lemma_vibes_of_distinct(links.drop_last(), track);
        let before = vibes_of(links.drop_last(), track);
        let all = vibes_of(links, track);
        if links.last().track_id == track && !has_id(before, links.last().vibe.id) {
            assert forall|i: int, j: int| 0 <= i < j < all.len() implies (#[trigger] all[i]).id != (
            #[trigger] all[j]).id by {
                if j == all.len() - 1 {
                    assert(before[i].id != links.last().vibe.id);
                }
            }
        }
    }
}

impl Vibe {
    /// The vibe that a row of the store describes. A row without the name of
    /// a group describes a vibe whose group has the empty name.
    pub fn from_columns(id: VibeID, name: String, group_name: Option<String>) -> (vibe: Vibe)
        ensures
            vibe.id == id,
            vibe.name == name,
            match group_name {
                Some(group) => vibe.group_name == group,
                None => vibe.group_name@ == Seq::<char>::empty(),
            },
    {
        Vibe {
            id,
            name,
            group_name: match group_name {
                Some(group) => group,
                None => String::new(),
            },
        }
    }

    /// The statement that reads the vibe with identifier `id`.
    pub fn get_by_id(id: VibeID) -> (q: Statement)
        ensures
            draft_of(q) == Draft::start(SELECT_VIBES@).sql(" WHERE vibe_id = "@).bind(
                Bind::Int(id),
            ),
    {
        let mut q = begin(SELECT_VIBES);
        push_sql(&mut q, " WHERE vibe_id = ");
        push_bind_int(&mut q, id);
        q
    }

    /// The statement that reads the vibe named `name`. A name too long to
    /// be bound is a validation error.
    pub fn get_by_name(name: &str) -> (r: Result<Statement, DatabaseError>)
        ensures
            match r {
                Ok(q) => text_fits(name@) && draft_of(q) == Draft::start(SELECT_VIBES@).sql(
                    " WHERE name = "@,
                ).bind(Bind::Text(name@)),
                Err(e) => !text_fits(name@) && e == DatabaseError::ValidationError,
            },
    {
        if !text_can_bind(name) {
            return Err(DatabaseError::ValidationError);
        }
        let mut q = begin(SELECT_VIBES);
        push_sql(&mut q, " WHERE name = ");
        push_bind_text(&mut q, name);
        Ok(q)
    }

    /// The statement that reads every vibe.
    pub fn get_all() -> (q: Statement)
        ensures
            draft_of(q) == Draft::start(SELECT_VIBES@),
    {
        begin(SELECT_VIBES)
    }

    /// The statement that reads the vibes attached to the track `id`.
    pub fn get_by_track_id(id: TrackID) -> (q: Statement)
        ensures
            draft_of(q) == Draft::start(SELECT_VIBES_OF_TRACKS@).sql(" WHERE twv.track = "@).bind(
                Bind::Int(id),
            ),
    {
        let mut q = begin(SELECT_VIBES_OF_TRACKS);
        push_sql(&mut q, " WHERE twv.track = ");
        push_bind_int(&mut q, id);
        q
    }

    /// The statement that reads, in one go, the vibes attached to any of
    /// the tracks `ids`, each with its track. An array of identifiers too
    /// long to be bound cannot be sent to the store.
    pub fn get_by_track_ids(ids: &Vec<TrackID>) -> (r: Result<Statement, DatabaseError>)
        ensures
            match r {
                Ok(q) => ints_fit(ids@.len()) && draft_of(q) == links_draft(ids@),
                Err(e) => !ints_fit(ids@.len()) && e == DatabaseError::DatabaseError,
            },
    {
        if !ints_can_bind(ids) {
            return Err(DatabaseError::DatabaseError);
        }
        let mut q = begin(SELECT_LINKS);
        push_sql(&mut q, " WHERE twv.track = ANY(");
        push_bind_ints(&mut q, ids);
        push_sql(&mut q, ")");
        Ok(q)
    }

    /// The statement that reads the vibes that `refs` denote. A reference
    /// whose texts are too long to be bound is a validation error.
    pub fn get_by_refs(refs: &Vec<VibeRef>) -> (r: Result<Statement, DatabaseError>)
        ensures
            match r {
                Ok(q) => refs_fit(refs@) && draft_of(q) == refs_clause(
                    Draft::start(SELECT_REFERRED@),
                    refs@,
                ),
                Err(e) => !refs_fit(refs@) && e == DatabaseError::ValidationError,
            },
    {
        if !refs_can_bind(refs) {
            return Err(DatabaseError::ValidationError);
        }
        let mut q = begin(SELECT_REFERRED);
        push_refs(&mut q, refs);
        Ok(q)
    }

    /// The statement that counts the vibes.
    pub fn count() -> (q: Statement)
        ensures
            draft_of(q) == Draft::start(COUNT_VIBES@),
    {
        begin(COUNT_VIBES)
    }

    /// Sorts the rows of the bulk lookup by track: each track that occurs
    /// in `links` is mapped to its vibes, each identifier once, in the
    /// order of the rows.
    pub fn group_by_track(links: &Vec<VibeLink>) -> (map: HashMap<TrackID, Vec<Vibe>>)
        ensures
            forall|t: TrackID| #[trigger] map@.contains_key(t) <==> linked(links@, t),
            forall|t: TrackID| #[trigger]
                map@.contains_key(t) ==> map@[t]@ == vibes_of(links@, t),
    {
        broadcast use vstd::std_specs::hash::group_hash_axioms;

        let mut map: HashMap<TrackID, Vec<Vibe>> = HashMap::new();
        let mut i: usize = 0;
        while i < links.len()
            invariant
                i <= links.len(),
                forall|t: TrackID| #[trigger]
                    map@.contains_key(t) <==> linked(links@.take(i as int), t),
                forall|t: TrackID| #[trigger]
                    map@.contains_key(t) ==> map@[t]@ == vibes_of(links@.take(i as int), t),
            decreases links.len() - i,
        {
            let link = &links[i];
            let ghost before = links@.take(i as int);
            let ghost after = links@.take(i + 1);
            let ghost old_map = map@;
            proof {
                assert(after.drop_last() =~= before);
                assert(after.last() == links@[i as int]);
                if !linked(before, link.track_id) {
                    lemma_unlinked(before, link.track_id);
                }
            }
            let mut bucket = match map.remove(&link.track_id) {
                Some(found) => found,
                None => Vec::new(),
            };
            assert(bucket@ == vibes_of(before, link.track_id));
            if !contains_id(&bucket, link.vibe.id) {
                bucket.push(link.vibe.clone());
            }
            assert(bucket@ == vibes_of(after, link.track_id));
            map.insert(link.track_id, bucket);
            proof {
                assert forall|t: TrackID| #[trigger]
                    map@.contains_key(t) <==> linked(after, t) by {
                    if linked(after, t) {
                        let j = choose|j: int|
                            0 <= j < after.len() && (#[trigger] after[j]).track_id == t;
                        if j < i {
                            assert(before[j].track_id == t);
                        }
                    }
                    if linked(before, t) {
                        let j = choose|j: int|
                            0 <= j < before.len() && (#[trigger] before[j]).track_id == t;
                        assert(after[j].track_id == t);
                    }
                    if t == link.track_id {
                        assert(after[i as int].track_id == t);
                    }
                }
                assert forall|t: TrackID| #[trigger] map@.contains_key(t) implies map@[t]@
                    == vibes_of(after, t) by {
                    if t != link.track_id {
                        assert(old_map.contains_key(t));
                    }
                }
            }
            i += 1;
        }
        proof {
            assert(links@.take(i as int) =~= links@);
        }
        map
    }

    /// The number of vibes that the store reported, or -1 where it reported
    /// none.
    pub fn counted(reported: Option<i64>) -> (n: i64)
        ensures
            n == match reported {
                Some(c) => c,
                None => -1i64,
            },
    {
        match reported {
            Some(c) => c,
            None => -1,
        }
    }
}

} // verus!
