//! Laws of the catalog: what holds of every patch, every filter and every
//! removal, proved from the definitions that the contracts of the
//! operations are stated in.

use crate::aggregate::{Removal, RemovalStage};
use crate::error::{DatabaseError, FailureView};
use crate::filter::{escaped, is_wildcard, FILTERED_END, SELECT_FILTERED};
use crate::page::{page_refusal, pages, pages_capped, Page};
use crate::patch::{
    attach_draft, remove_draft, resolve_draft, PatchPlan, PatchStage, DELETE_LINKS, INSERT_LINKS,
    REFERRED_IDS,
};
use crate::statement::{Bind, Draft};
use crate::track::{
    Track, TrackFilter, TrackFull, TrackFullPatch, TrackPaginationParams, MAX_VOTE,
};
use crate::vibe::{
    has_id, joined, lemma_joined, lemma_without, refers_any, refs_clause, without, TrackID, Vibe,
    VibeID, VibeRef, SELECT_REFERRED,
};
use vstd::prelude::*;

verus! {

/// A patch with a vote, applied to a record that has room for it, counts
/// exactly one vote more and adds exactly the value of the vote to the sum
/// of ratings, whatever else the patch holds.
pub proof fn law_vote_is_counted_once(track: Track, patch: TrackFullPatch, vote: u8)
    requires
        patch.new_vote == Some(vote),
        patch.admissible(track),
    ensures
        patch.record(track).vote_count == track.vote_count + 1,
        patch.record(track).total_rating == track.total_rating + vote,
{
}

/// A patch without a vote leaves the vote statistics as they are.
pub proof fn law_no_vote_no_change(track: Track, patch: TrackFullPatch)
    requires
        patch.new_vote is None,
    ensures
        patch.record(track).vote_count == track.vote_count,
        patch.record(track).total_rating == track.total_rating,
{
}

/// A patch with the download flag, applied to a record that has room for
/// it, counts exactly one download more, whatever else the patch holds; a
/// patch without the flag counts none.
pub proof fn law_download_is_counted_once(track: Track, patch: TrackFullPatch)
    requires
        patch.admissible(track),
    ensures
        patch.new_download ==> patch.record(track).download_count == track.download_count + 1,
        !patch.new_download ==> patch.record(track).download_count == track.download_count,
{
}

/// No patch changes the identifier of a record, and no patch lowers a
/// counter.
pub proof fn law_patch_keeps_identity(track: Track, patch: TrackFullPatch)
    requires
        patch.admissible(track),
    ensures
        patch.record(track).id == track.id,
        patch.record(track).vote_count >= track.vote_count,
        patch.record(track).total_rating >= track.total_rating,
        patch.record(track).download_count >= track.download_count,
        track.wf() ==> patch.record(track).wf(),
{
}

/// The sum of the votes `votes`.
pub open spec fn sum_of(votes: Seq<u8>) -> int
    decreases votes.len(),
{
    if votes.len() == 0 {
        0
    } else {
        sum_of(votes.drop_last()) + votes.last()
    }
}

/// The record `track` after the votes `votes`, counted one after the other.
pub open spec fn after_votes(track: Track, votes: Seq<u8>) -> Track
    decreases votes.len(),
{
    if votes.len() == 0 {
        track
    } else {
        after_votes(track, votes.drop_last()).voted(votes.last())
    }
}

/// The votes `votes` add up to at most [`MAX_VOTE`] each.
pub proof fn lemma_sum_bounds(votes: Seq<u8>)
    ensures
        0 <= sum_of(votes) <= MAX_VOTE * votes.len(),
    decreases votes.len(),
{
    if votes.len() > 0 {
        lemma_sum_bounds(votes.drop_last());
    }
}

/// After N votes on a record that nobody had voted on, the record counts N
/// votes, its sum of ratings is the sum of the votes, and its average
/// rating is that sum divided by N.
pub proof fn law_average_after_votes(track: Track, votes: Seq<u8>)
    requires
        track.vote_count == 0,
        track.total_rating == 0,
        votes.len() <= i32::MAX,
    ensures
        after_votes(track, votes).vote_count == votes.len(),
        after_votes(track, votes).total_rating == sum_of(votes),
        votes.len() > 0 ==> after_votes(track, votes).average() == sum_of(votes) / (
        votes.len() as int),
        votes.len() == 0 ==> after_votes(track, votes).average() == 0,
    decreases votes.len(),
{
    if votes.len() > 0 {
        law_average_after_votes(track, votes.drop_last());
        lemma_sum_bounds(votes.drop_last());
        lemma_sum_bounds(votes);
    }
}

/// Counting a vote through a patch is counting it on the record.
pub proof fn law_vote_patch_votes(track: Track, patch: TrackFullPatch, vote: u8)
    requires
        patch.new_vote == Some(vote),
        !patch.new_download,
        patch.path is None && patch.title is None && patch.author is None && patch.genre is None
            && patch.duration is None,
    ensures
        patch.record(track) == track.voted(vote),
{
}

/// A vibe that a patch both detaches and attaches is attached in the end:
/// detaching comes first. `resolved` is what the store found for the
/// additions; it holds the vibe, since the patch names it.
pub proof fn law_added_after_removed(
    vibes: Seq<Vibe>,
    patch: TrackFullPatch,
    resolved: Seq<Vibe>,
    id: VibeID,
)
    requires
        patch.removals().contains(VibeRef::Id(id)),
        patch.additions().contains(VibeRef::Id(id)),
        has_id(resolved, id),
    ensures
        has_id(patch.attached(vibes, resolved), id),
{
    let kept = without(vibes, patch.removals());
    lemma_joined(kept, resolved);
    let i = choose|i: int| 0 <= i < resolved.len() && (#[trigger] resolved[i]).id == id;
    assert(has_id(joined(kept, resolved), resolved[i].id));
}

/// A vibe that a patch detaches and does not attach again is gone, and a
/// vibe that the patch does not name stays.
pub proof fn law_removed_is_gone(
    vibes: Seq<Vibe>,
    patch: TrackFullPatch,
    resolved: Seq<Vibe>,
    id: VibeID,
)
    requires
        crate::vibe::distinct_ids(vibes),
        patch.removals().contains(VibeRef::Id(id)),
        !has_id(resolved, id) || patch.additions().len() == 0,
    ensures
        !has_id(patch.attached(vibes, resolved), id),
{
    let removals = patch.removals();
    let kept = without(vibes, removals);
    lemma_without(vibes, removals);
    let k = choose|k: int| 0 <= k < removals.len() && removals[k] == VibeRef::Id(id);
    assert(!has_id(kept, id)) by {
        if has_id(kept, id) {
            let i = choose|i: int| 0 <= i < kept.len() && (#[trigger] kept[i]).id == id;
            assert(removals[k].refers_to(kept[i]));
            assert(refers_any(removals, kept[i]));
        }
    }
    if patch.additions().len() > 0 {
        lemma_joined(kept, resolved);
        let all = joined(kept, resolved);
        if has_id(all, id) {
            let i = choose|i: int| 0 <= i < all.len() && (#[trigger] all[i]).id == id;
            if i < kept.len() {
                assert(kept[i].id == id);
            } else {
                assert(resolved.contains(all[i]));
                let j = choose|j: int| 0 <= j < resolved.len() && resolved[j] == all[i];
                assert(resolved[j].id == id);
            }
        }
    }
}

/// The vibes of an aggregate after a patch, as a set of identifiers: an
/// identifier is attached afterwards exactly if a vibe with it was attached
/// before and no removal denotes that vibe, or if the patch attaches
/// anything and the store found a vibe with the identifier for the
/// additions.
pub proof fn law_attached_identifiers(
    vibes: Seq<Vibe>,
    patch: TrackFullPatch,
    resolved: Seq<Vibe>,
    id: VibeID,
)
    ensures
        has_id(patch.attached(vibes, resolved), id) <==> (exists|i: int|
            0 <= i < vibes.len() && (#[trigger] vibes[i]).id == id && !refers_any(
                patch.removals(),
                vibes[i],
            )) || (patch.additions().len() > 0 && has_id(resolved, id)),
{
    let removals = patch.removals();
    let kept = without(vibes, removals);
    lemma_without(vibes, removals);
    lemma_joined(kept, resolved);
    let all = joined(kept, resolved);
    let stays = exists|i: int|
        0 <= i < vibes.len() && (#[trigger] vibes[i]).id == id && !refers_any(removals, vibes[i]);
    if has_id(kept, id) {
        let k = choose|k: int| 0 <= k < kept.len() && (#[trigger] kept[k]).id == id;
        lemma_kept_was_there(vibes, removals, k);
        assert(stays);
        assert(all[k].id == id);
    }
    if stays {
        let i = choose|i: int|
            0 <= i < vibes.len() && (#[trigger] vibes[i]).id == id && !refers_any(
                removals,
                vibes[i],
            );
        assert(kept.contains(vibes[i]));
        let k = choose|k: int| 0 <= k < kept.len() && kept[k] == vibes[i];
        assert(kept[k].id == id);
    }
    if has_id(all, id) && !has_id(kept, id) {
        let k = choose|k: int| 0 <= k < all.len() && (#[trigger] all[k]).id == id;
        assert(k >= kept.len()) by {
            if k < kept.len() {
                assert(kept[k].id == id);
            }
        }
        assert(resolved.contains(all[k]));
        let j = choose|j: int| 0 <= j < resolved.len() && resolved[j] == all[k];
        assert(resolved[j].id == id);
    }
    if has_id(resolved, id) {
        let j = choose|j: int| 0 <= j < resolved.len() && (#[trigger] resolved[j]).id == id;
        assert(has_id(all, resolved[j].id));
    }
}

/// Every vibe that [`without`] keeps is one of the vibes it was given.
pub proof fn lemma_kept_was_there(vibes: Seq<Vibe>, refs: Seq<VibeRef>, k: int)
    requires
        0 <= k < without(vibes, refs).len(),
    ensures
        exists|i: int|
            0 <= i < vibes.len() && #[trigger] vibes[i] == without(vibes, refs)[k] && !refers_any(
                refs,
                vibes[i],
            ),
    decreases vibes.len(),
{
    let front = vibes.drop_last();
    let before = without(front, refs);
    if k < before.len() {
        lemma_kept_was_there(front, refs, k);
        let i = choose|i: int|
            0 <= i < front.len() && #[trigger] front[i] == before[k] && !refers_any(refs, front[i]);
        assert(vibes[i] == without(vibes, refs)[k]);
    } else {
        assert(vibes[vibes.len() - 1] == without(vibes, refs)[k]);
    }
}

/// Attaching is idempotent: attaching the same vibes a second time changes
/// nothing.
pub proof fn law_attaching_twice(vibes: Seq<Vibe>, added: Seq<Vibe>)
    ensures
        joined(joined(vibes, added), added) == joined(vibes, added),
{
    lemma_joined(vibes, added);
    lemma_rejoined(joined(vibes, added), added, added.len() as int);
    assert(added.take(added.len() as int) =~= added);
}

/// Vibes whose identifiers are all present already add nothing.
pub proof fn lemma_rejoined(vibes: Seq<Vibe>, added: Seq<Vibe>, n: int)
    requires
        0 <= n <= added.len(),
        forall|i: int| 0 <= i < added.len() ==> has_id(vibes, #[trigger] added[i].id),
    ensures
        joined(vibes, added.take(n)) == vibes,
    decreases n,
{
    if n > 0 {
        lemma_rejoined(vibes, added, n - 1);
        assert(added.take(n).drop_last() =~= added.take(n - 1));
        assert(added.take(n).last() == added[n - 1]);
    }
}

/// Detaching is idempotent: detaching the same vibes a second time changes
/// nothing.
pub proof fn law_detaching_twice(vibes: Seq<Vibe>, refs: Seq<VibeRef>)
    ensures
        without(without(vibes, refs), refs) == without(vibes, refs),
{
    lemma_without(vibes, refs);
    let kept = without(vibes, refs);
    lemma_nothing_to_detach(kept, refs, kept.len() as int);
    assert(kept.take(kept.len() as int) =~= kept);
}

/// Vibes that no reference denotes all stay.
pub proof fn lemma_nothing_to_detach(vibes: Seq<Vibe>, refs: Seq<VibeRef>, n: int)
    requires
        0 <= n <= vibes.len(),
        forall|i: int| 0 <= i < vibes.len() ==> !refers_any(refs, #[trigger] vibes[i]),
    ensures
        without(vibes.take(n), refs) == vibes.take(n),
    decreases n,
{
    if n > 0 {
        lemma_nothing_to_detach(vibes, refs, n - 1);
        assert(vibes.take(n).drop_last() =~= vibes.take(n - 1));
        assert(vibes.take(n).last() == vibes[n - 1]);
        assert(vibes.take(n - 1).push(vibes[n - 1]) =~= vibes.take(n));
    } else {
        assert(vibes.take(0) =~= Seq::<Vibe>::empty());
    }
}

/// Whatever a patch does to the vibes of a consistent aggregate, no
/// identifier is attached twice afterwards.
pub proof fn law_no_vibe_twice(vibes: Seq<Vibe>, patch: TrackFullPatch, resolved: Seq<Vibe>)
    requires
        crate::vibe::distinct_ids(vibes),
    ensures
        crate::vibe::distinct_ids(patch.attached(vibes, resolved)),
{
    lemma_without(vibes, patch.removals());
    lemma_joined(without(vibes, patch.removals()), resolved);
}

/// A filter without pattern, author, vibes, sort key and limit selects
/// without any condition: its listing is the bare selection of all tracks
/// and binds nothing.
pub proof fn law_empty_filter_selects_everything(filter: TrackFilter)
    requires
        filter.unconstrained(),
        filter.order_by is None,
        filter.limit is None,
    ensures
        filter.valid(),
        filter.listing() == Draft::start(SELECT_FILTERED@).sql(" WHERE TRUE"@).sql(FILTERED_END@),
        filter.listing().binds.len() == 0,
{
    assert(crate::statement::texts_of(filter.named()) =~= Seq::<Seq<char>>::empty());
}

/// No value of a filter reaches the text of its statements: two filters
/// that give the same fields, name vibes or not alike, and ask for the same
/// accepted sort key have statements of the same text, whatever the values.
pub proof fn law_filter_text_ignores_values(a: TrackFilter, b: TrackFilter)
    requires
        a.pattern is Some <==> b.pattern is Some,
        a.author is Some <==> b.author is Some,
        a.named().len() > 0 <==> b.named().len() > 0,
        a.limit is Some <==> b.limit is Some,
        a.order() == b.order(),
    ensures
        a.listing().text == b.listing().text,
        a.counting().text == b.counting().text,
        a.listing().binds.len() == b.listing().binds.len(),
        a.counting().binds.len() == b.counting().binds.len(),
{
}

/// Whether the pattern `pattern` holds no character that stands for
/// anything but itself: read from the front, every `\` is followed by a
/// character that it takes the meaning from, and no `%` or `_` stands
/// alone.
pub open spec fn literal(pattern: Seq<char>) -> bool
    decreases pattern.len(),
{
    if pattern.len() == 0 {
        true
    } else if pattern[0] == '\\' {
        pattern.len() >= 2 && literal(pattern.skip(2))
    } else {
        !is_wildcard(pattern[0]) && literal(pattern.skip(1))
    }
}

/// The text that a literal pattern stands for.
pub open spec fn denoted(pattern: Seq<char>) -> Seq<char>
    decreases pattern.len(),
{
    if pattern.len() == 0 {
        Seq::empty()
    } else if pattern[0] == '\\' {
        if pattern.len() >= 2 {
            seq![pattern[1]] + denoted(pattern.skip(2))
        } else {
            Seq::empty()
        }
    } else {
        seq![pattern[0]] + denoted(pattern.skip(1))
    }
}

/// A literal pattern followed by a literal pattern is a literal pattern,
/// and it stands for the one text followed by the other.
pub proof fn lemma_literal_concat(a: Seq<char>, b: Seq<char>)
    requires
        literal(a),
        literal(b),
    ensures
        literal(a + b),
        denoted(a + b) == denoted(a) + denoted(b),
    decreases a.len(),
{
    if a.len() == 0 {
        assert(a + b =~= b);
        assert(denoted(a) + denoted(b) =~= denoted(b));
    } else if a[0] == '\\' {
        lemma_literal_concat(a.skip(2), b);
        assert((a + b).skip(2) =~= a.skip(2) + b);
        assert(seq![a[1]] + (denoted(a.skip(2)) + denoted(b)) =~= (seq![a[1]] + denoted(a.skip(2)))
            + denoted(b));
    } else {
        lemma_literal_concat(a.skip(1), b);
        assert((a + b).skip(1) =~= a.skip(1) + b);
        assert(seq![a[0]] + (denoted(a.skip(1)) + denoted(b)) =~= (seq![a[0]] + denoted(a.skip(1)))
            + denoted(b));
    }
}

/// A text pattern is matched as a substring: whatever the text holds, the
/// pattern made of it has no character that stands for anything but
/// itself, and stands for exactly the text.
pub proof fn law_pattern_is_literal(text: Seq<char>)
    ensures
        literal(escaped(text)),
        denoted(escaped(text)) == text,
    decreases text.len(),
{
    if text.len() > 0 {
        let front = text.drop_last();
        let c = text.last();
        law_pattern_is_literal(front);
        let piece = if is_wildcard(c) {
            seq!['\\', c]
        } else {
            seq![c]
        };
        assert(escaped(text) =~= escaped(front) + piece);
        assert(literal(piece) && denoted(piece) =~= seq![c]) by {
            if is_wildcard(c) {
                assert(piece.skip(2) =~= Seq::<char>::empty());
                assert(literal(piece.skip(2)));
                assert(denoted(piece.skip(2)) =~= Seq::<char>::empty());
            } else {
                assert(piece.skip(1) =~= Seq::<char>::empty());
                assert(literal(piece.skip(1)));
                assert(denoted(piece.skip(1)) =~= Seq::<char>::empty());
            }
        }
        lemma_literal_concat(escaped(front), piece);
        assert(front + seq![c] =~= text);
    }
}

/// Whether two lists of references have the same shape: the same length,
/// and at each place either two identifiers or two names.
pub open spec fn same_shape(a: Seq<VibeRef>, b: Seq<VibeRef>) -> bool {
    &&& a.len() == b.len()
    &&& forall|i: int| 0 <= i < a.len() ==> ((#[trigger] a[i]) is Id <==> (#[trigger] b[i]) is Id)
}

/// No value of a reference reaches the text of a statement: lists of
/// references of the same shape, appended to statements of the same text
/// and as many bound values, give statements of the same text.
pub proof fn lemma_refs_text_ignores_values(c: Draft, d: Draft, a: Seq<VibeRef>, b: Seq<VibeRef>)
    requires
        same_shape(a, b),
        c.text == d.text,
        c.binds.len() == d.binds.len(),
    ensures
        refs_clause(c, a).text == refs_clause(d, b).text,
        refs_clause(c, a).binds.len() == refs_clause(d, b).binds.len(),
    decreases a.len(),
{
    if a.len() > 0 {
        assert(same_shape(a.drop_last(), b.drop_last())) by {
            assert forall|i: int| 0 <= i < a.drop_last().len() implies ((
            #[trigger] a.drop_last()[i]) is Id <==> (#[trigger] b.drop_last()[i]) is Id) by {
                assert(a[i] is Id <==> b[i] is Id);
            }
        }
        lemma_refs_text_ignores_values(c, d, a.drop_last(), b.drop_last());
        assert(a[a.len() - 1] is Id <==> b[b.len() - 1] is Id);
    }
}

/// No value of a patch reaches the text of its statements: two patches
/// that give the same fields and name vibes of the same shape have
/// statements of the same text, whatever the values and whatever the track.
pub proof fn law_patch_text_ignores_values(
    a: TrackFullPatch,
    b: TrackFullPatch,
    track_a: TrackID,
    track_b: TrackID,
)
    requires
        a.path is Some <==> b.path is Some,
        a.title is Some <==> b.title is Some,
        a.author is Some <==> b.author is Some,
        a.genre is Some <==> b.genre is Some,
        a.duration is Some <==> b.duration is Some,
        a.new_vote is Some <==> b.new_vote is Some,
        a.new_download <==> b.new_download,
        same_shape(a.removals(), b.removals()),
        same_shape(a.additions(), b.additions()),
    ensures
        a.update_draft(track_a).text == b.update_draft(track_b).text,
        remove_draft(track_a, a.removals()).text == remove_draft(track_b, b.removals()).text,
        attach_draft(track_a, a.additions()).text == attach_draft(track_b, b.additions()).text,
        resolve_draft(a.additions()).text == resolve_draft(b.additions()).text,
{
    let remove_a = Draft::start(DELETE_LINKS@).bind(Bind::Int(track_a)).sql(" AND vibe IN ("@).sql(
        REFERRED_IDS@,
    );
    let remove_b = Draft::start(DELETE_LINKS@).bind(Bind::Int(track_b)).sql(" AND vibe IN ("@).sql(
        REFERRED_IDS@,
    );
    lemma_refs_text_ignores_values(remove_a, remove_b, a.removals(), b.removals());
    let attach_a = Draft::start(INSERT_LINKS@).bind(Bind::Int(track_a)).sql(
        ", vb.vibe_id FROM vibes vb WHERE FALSE"@,
    );
    let attach_b = Draft::start(INSERT_LINKS@).bind(Bind::Int(track_b)).sql(
        ", vb.vibe_id FROM vibes vb WHERE FALSE"@,
    );
    lemma_refs_text_ignores_values(attach_a, attach_b, a.additions(), b.additions());
    lemma_refs_text_ignores_values(
        Draft::start(SELECT_REFERRED@),
        Draft::start(SELECT_REFERRED@),
        a.additions(),
        b.additions(),
    );
}

/// Neither the sort key nor the limit of a filter changes which tracks are
/// counted: the count of a listing depends on pattern, author and vibes
/// alone.
pub proof fn law_count_ignores_order_and_limit(a: TrackFilter, b: TrackFilter)
    requires
        a.pattern == b.pattern,
        a.author == b.author,
        a.vibes == b.vibes,
    ensures
        a.counting() == b.counting(),
{
}

/// Pages are counted from one: a page that carries the number and the size
/// of a request within the accepted domain is never page 0 and never of
/// size 0, whether the listing holds anything or not.
pub proof fn law_pages_are_counted_from_one(
    params: TrackPaginationParams,
    total: i64,
    page: Page<TrackFull>,
)
    requires
        page_refusal(params, total) is None,
        page.page_num == params.page_num,
        page.page_size == params.page_size,
    ensures
        page.page_num >= 1,
        page.page_size >= 1,
        total == 0 ==> pages_capped(total as int, params.page_size as int) == 0,
{
}

/// An empty listing has no pages, and a listing that is not empty has at
/// least one; the pages of a listing hold all its items, and one page fewer
/// would not.
pub proof fn law_pages_cover(total: int, size: int)
    requires
        total >= 0,
        size >= 1,
    ensures
        total == 0 <==> pages(total, size) == 0,
        pages(total, size) * size >= total,
        (pages(total, size) - 1) * size < total || total == 0,
        pages_capped(total, size) <= pages(total, size),
{
    vstd::arithmetic::div_mod::lemma_fundamental_div_mod(total, size);
    vstd::arithmetic::div_mod::lemma_mod_bound(total, size);
    vstd::arithmetic::div_mod::lemma_div_pos_is_pos(total, size);
    let q = total / size;
    let r = total % size;
    assert(q * size == size * q) by (nonlinear_arith);
    assert((q + 1) * size == q * size + size) by (nonlinear_arith);
    assert((q - 1) * size == q * size - size) by (nonlinear_arith);
    if total > 0 && r == 0 {
        assert(q >= 1) by (nonlinear_arith)
            requires
                total == size * q,
                total > 0,
                size >= 1,
        ;
    }
}

/// The statements of a patch run in one order: change the record, detach
/// vibes, attach vibes, read the attached vibes back. Each step of the run
/// moves forward in that order, lands on a stage that has a statement or at
/// the end, and passes over no stage that has one. So vibes are never
/// attached before the vibes to detach are detached.
pub proof fn law_patch_steps_in_order(plan: PatchPlan, stage: PatchStage)
    ensures
        stage != PatchStage::Over ==> plan.following(stage).rank() > stage.rank(),
        plan.following(stage) != PatchStage::Over ==> plan.statement_at(plan.following(stage))
            is Some,
        forall|passed: PatchStage|
            stage.rank() < passed.rank() < plan.following(stage).rank() ==> (
            #[trigger] plan.statement_at(passed)) is None,
{
    reveal_with_fuel(PatchPlan::first_from, 6);
    assert forall|passed: PatchStage|
        stage.rank() < passed.rank() < plan.following(stage).rank() implies (
    #[trigger] plan.statement_at(passed)) is None by {
        match passed {
            PatchStage::Begun => {},
            PatchStage::Updating => {},
            PatchStage::Detaching => {},
            PatchStage::Attaching => {},
            PatchStage::Resolving => {},
            PatchStage::Over => {},
        }
    }
}

/// A failure of the store is reported as a persistence error, with one
/// exception: a statement that was to return a row and returned none is
/// reported as not found. No failure of the store is reported as a
/// validation error.
pub proof fn law_store_failures(failure: FailureView)
    ensures
        failure is RowNotFound <==> DatabaseError::of_failure(failure) == DatabaseError::NotFound,
        !(failure is RowNotFound) <==> DatabaseError::of_failure(failure).persistence(),
        DatabaseError::of_failure(failure) != DatabaseError::ValidationError,
{
}

/// The stage that a removal has reached after the outcomes `failed`, one
/// for each time it was advanced; the first is not looked at.
pub open spec fn stage_after(failed: Seq<bool>) -> RemovalStage
    decreases failed.len(),
{
    if failed.len() == 0 {
        RemovalStage::Begun
    } else {
        Removal::next(stage_after(failed.drop_last()), failed.last())
    }
}

/// A removal is all or nothing. It asks for the commit only after the
/// record and its associations were both deleted without failure, and it
/// asks for the deletion of the associations only after that of the record
/// went through.
pub proof fn law_removal_is_atomic(failed: Seq<bool>)
    ensures
        stage_after(failed) == RemovalStage::Begun <==> failed.len() == 0,
        stage_after(failed) == RemovalStage::DeletingTrack <==> failed.len() == 1,
        stage_after(failed) == RemovalStage::DeletingLinks <==> failed.len() == 2 && !failed[1],
        stage_after(failed) == RemovalStage::Committing <==> failed.len() == 3 && !failed[1]
            && !failed[2],
    decreases failed.len(),
{
    if failed.len() > 0 {
        let front = failed.drop_last();
        law_removal_is_atomic(front);
        if front.len() >= 2 {
            assert(front[1] == failed[1]);
        }
        if front.len() >= 3 {
            assert(front[2] == failed[2]);
        }
    }
}

} // verus!
