use sqlx::{Arguments, Execute};
use vibing_storage::error::DatabaseError;
use vibing_storage::patch::{PatchStage, PatchStep, Patching};
use vibing_storage::statement::Statement;
use vibing_storage::track::{Track, TrackFull, TrackFullPatch};
use vibing_storage::vibe::{Vibe, VibeRef};

fn sql(q: &Statement) -> String {
    q.builder.sql().as_str().to_string()
}

fn bound(mut q: Statement) -> usize {
    let mut query = q.builder.build();
    match query.take_arguments() {
        Ok(Some(arguments)) => arguments.len(),
        _ => 0,
    }
}

fn vibe(id: i32, group: &str, name: &str) -> Vibe {
    Vibe { id, name: String::from(name), group_name: String::from(group) }
}

fn named(group: &str, name: &str) -> VibeRef {
    VibeRef::Named { group_name: String::from(group), name: String::from(name) }
}

fn song() -> TrackFull {
    TrackFull::created(Track {
        id: 1,
        path: String::from("a.mp3"),
        title: Some(String::from("Song")),
        ..Track::default()
    })
}

#[test]
fn a_vote_counts_once_and_adds_its_value() {
    let mut track = song();
    track.track.vote_count = 4;
    track.track.total_rating = 700;
    let patch = TrackFullPatch { new_vote: Some(200), ..TrackFullPatch::default() };
    let patched = track.apply_patch(patch, Vec::new()).unwrap();
    assert_eq!(patched.track.vote_count, 5);
    assert_eq!(patched.track.total_rating, 900);
    assert_eq!(patched.track.download_count, 0);
    assert_eq!(patched.track.average_rating(), 180);
}

#[test]
fn votes_of_zero_and_of_the_maximum_are_taken() {
    let patched = song()
        .apply_patch(TrackFullPatch { new_vote: Some(0), ..TrackFullPatch::default() }, Vec::new())
        .unwrap();
    assert_eq!((patched.track.vote_count, patched.track.total_rating), (1, 0));
    let patched = patched
        .apply_patch(TrackFullPatch { new_vote: Some(255), ..TrackFullPatch::default() }, Vec::new())
        .unwrap();
    assert_eq!((patched.track.vote_count, patched.track.total_rating), (2, 255));
    assert_eq!(patched.track.average_rating(), 127);
}

#[test]
fn average_after_votes_is_their_sum_over_their_number() {
    let votes: [u8; 5] = [10, 20, 30, 255, 1];
    let mut track = song();
    for v in votes {
        let patch = TrackFullPatch { new_vote: Some(v), ..TrackFullPatch::default() };
        track = track.apply_patch(patch, Vec::new()).unwrap();
    }
    assert_eq!(track.track.vote_count, 5);
    assert_eq!(track.track.total_rating, 316);
    assert_eq!(track.track.average_rating(), 316 / 5);
}

#[test]
fn a_track_without_votes_is_rated_zero() {
    assert_eq!(song().track.average_rating(), 0);
}

#[test]
fn a_download_counts_once_whatever_else_changes() {
    let patch = TrackFullPatch {
        title: Some(String::from("Other")),
        new_vote: Some(9),
        new_download: true,
        ..TrackFullPatch::default()
    };
    let patched = song().apply_patch(patch, Vec::new()).unwrap();
    assert_eq!(patched.track.download_count, 1);
    assert_eq!(patched.track.title, Some(String::from("Other")));
    let patched = patched.apply_patch(TrackFullPatch::download(), Vec::new()).unwrap();
    assert_eq!(patched.track.download_count, 2);
    assert_eq!(patched.track.vote_count, 1);
    assert_eq!(patched.track.title, Some(String::from("Other")));
}

#[test]
fn absent_fields_change_nothing() {
    let before = song();
    let after = song().apply_patch(TrackFullPatch::default(), Vec::new()).unwrap();
    assert_eq!(after, before);
}

#[test]
fn present_fields_replace_the_old_values() {
    let patch = TrackFullPatch {
        path: Some(String::from("b.mp3")),
        author: Some(String::from("Band")),
        genre: Some(String::from("jazz")),
        duration: Some(61),
        ..TrackFullPatch::default()
    };
    let patched = song().apply_patch(patch, Vec::new()).unwrap();
    assert_eq!(patched.track.id, 1);
    assert_eq!(patched.track.path, "b.mp3");
    assert_eq!(patched.track.title, Some(String::from("Song")));
    assert_eq!(patched.track.author, Some(String::from("Band")));
    assert_eq!(patched.track.genre, Some(String::from("jazz")));
    assert_eq!(patched.track.duration, Some(61));
}

#[test]
fn adding_a_named_vibe_attaches_exactly_that_vibe() {
    let patch = TrackFullPatch {
        add_vibes: Some(vec![named("mood", "chill")]),
        ..TrackFullPatch::default()
    };
    let resolved = vec![vibe(3, "mood", "chill")];
    let patched = song().apply_patch(patch, resolved).unwrap();
    assert_eq!(patched.vibes.len(), 1);
    assert_eq!(patched.vibes[0].name, "chill");
    assert_eq!(patched.vibes[0].group_name, "mood");
}

#[test]
fn removing_then_adding_the_same_vibe_leaves_it_attached() {
    let mut track = song();
    track.vibes = vec![vibe(3, "mood", "chill"), vibe(4, "mood", "dark")];
    let patch = TrackFullPatch {
        remove_vibes: Some(vec![VibeRef::Id(3)]),
        add_vibes: Some(vec![VibeRef::Id(3)]),
        ..TrackFullPatch::default()
    };
    let patched = track.apply_patch(patch, vec![vibe(3, "mood", "chill")]).unwrap();
    let ids: Vec<i32> = patched.vibes.iter().map(|v| v.id).collect();
    assert_eq!(ids, vec![4, 3]);
}

#[test]
fn removal_by_identifier_and_by_name() {
    let mut track = song();
    track.vibes = vec![vibe(3, "mood", "chill"), vibe(4, "mood", "dark"), vibe(5, "tempo", "fast")];
    let patch = TrackFullPatch {
        remove_vibes: Some(vec![VibeRef::Id(5), named("mood", "chill"), named("tempo", "dark")]),
        ..TrackFullPatch::default()
    };
    let patched = track.apply_patch(patch, Vec::new()).unwrap();
    assert_eq!(patched.vibes, vec![vibe(4, "mood", "dark")]);
}

#[test]
fn a_vibe_that_is_attached_already_is_not_attached_twice() {
    let mut track = song();
    track.vibes = vec![vibe(3, "mood", "chill")];
    let patch = TrackFullPatch {
        add_vibes: Some(vec![VibeRef::Id(3), VibeRef::Id(4)]),
        ..TrackFullPatch::default()
    };
    let resolved = vec![vibe(3, "mood", "chill"), vibe(4, "mood", "dark"), vibe(4, "mood", "dark")];
    let patched = track.apply_patch(patch, resolved).unwrap();
    let ids: Vec<i32> = patched.vibes.iter().map(|v| v.id).collect();
    assert_eq!(ids, vec![3, 4]);
}

#[test]
fn resolved_vibes_are_ignored_where_nothing_is_added() {
    let patch = TrackFullPatch { add_vibes: Some(Vec::new()), ..TrackFullPatch::default() };
    let patched = song().apply_patch(patch, vec![vibe(3, "mood", "chill")]).unwrap();
    assert!(patched.vibes.is_empty());
    let patched = song()
        .apply_patch(TrackFullPatch::default(), vec![vibe(3, "mood", "chill")])
        .unwrap();
    assert!(patched.vibes.is_empty());
}

#[test]
fn a_full_counter_refuses_the_patch() {
    let mut track = song();
    track.track.vote_count = i32::MAX;
    let vote = TrackFullPatch { new_vote: Some(1), ..TrackFullPatch::default() };
    assert_eq!(track.clone().apply_patch(vote.clone(), Vec::new()), Err(DatabaseError::ValidationError));
    assert!(matches!(track.patch_statements(&vote), Err(DatabaseError::ValidationError)));
    let mut track = song();
    track.track.download_count = i32::MAX;
    assert_eq!(
        track.clone().apply_patch(TrackFullPatch::download(), Vec::new()),
        Err(DatabaseError::ValidationError)
    );
    let mut track = song();
    track.track.total_rating = i64::MAX - 10;
    let vote = TrackFullPatch { new_vote: Some(11), ..TrackFullPatch::default() };
    assert_eq!(track.clone().apply_patch(vote, Vec::new()), Err(DatabaseError::ValidationError));
    let vote = TrackFullPatch { new_vote: Some(10), ..TrackFullPatch::default() };
    assert_eq!(track.apply_patch(vote, Vec::new()).unwrap().track.total_rating, i64::MAX);
}

#[test]
fn an_empty_patch_asks_nothing_of_the_store() {
    let plan = song().patch_statements(&TrackFullPatch::default()).unwrap();
    assert!(plan.update.is_none());
    assert!(plan.remove.is_none());
    assert!(plan.attach.is_none());
    assert!(plan.resolve.is_none());
    let empty_lists = TrackFullPatch {
        add_vibes: Some(Vec::new()),
        remove_vibes: Some(Vec::new()),
        ..TrackFullPatch::default()
    };
    let plan = song().patch_statements(&empty_lists).unwrap();
    assert!(plan.update.is_none() && plan.remove.is_none());
    assert!(plan.attach.is_none() && plan.resolve.is_none());
}

#[test]
fn the_update_lists_the_given_fields_in_order() {
    let patch = TrackFullPatch {
        title: Some(String::from("T")),
        duration: Some(10),
        new_vote: Some(7),
        new_download: true,
        ..TrackFullPatch::default()
    };
    let plan = song().patch_statements(&patch).unwrap();
    let update = plan.update.unwrap();
    assert_eq!(
        sql(&update),
        "UPDATE tracks SET title = $1, duration = $2, vote_count = vote_count + 1, total_rating = total_rating + $3, download_count = download_count + 1 WHERE track_id = $4"
    );
    assert_eq!(bound(update), 4);
}

#[test]
fn the_update_of_one_field_has_no_comma() {
    let patch = TrackFullPatch { path: Some(String::from("b.mp3")), ..TrackFullPatch::default() };
    let update = song().patch_statements(&patch).unwrap().update.unwrap();
    assert_eq!(sql(&update), "UPDATE tracks SET path = $1 WHERE track_id = $2");
    let update = song().patch_statements(&TrackFullPatch::download()).unwrap().update.unwrap();
    assert_eq!(sql(&update), "UPDATE tracks SET download_count = download_count + 1 WHERE track_id = $1");
    let vote = TrackFullPatch { new_vote: Some(3), ..TrackFullPatch::default() };
    let update = song().patch_statements(&vote).unwrap().update.unwrap();
    assert_eq!(
        sql(&update),
        "UPDATE tracks SET vote_count = vote_count + 1, total_rating = total_rating + $1 WHERE track_id = $2"
    );
}

#[test]
fn all_fields_at_once() {
    let patch = TrackFullPatch {
        path: Some(String::from("p")),
        title: Some(String::from("t")),
        author: Some(String::from("a")),
        genre: Some(String::from("g")),
        duration: Some(1),
        ..TrackFullPatch::default()
    };
    let update = song().patch_statements(&patch).unwrap().update.unwrap();
    assert_eq!(
        sql(&update),
        "UPDATE tracks SET path = $1, title = $2, author = $3, genre = $4, duration = $5 WHERE track_id = $6"
    );
    assert_eq!(bound(update), 6);
}

#[test]
fn vibes_are_detached_and_attached_by_reference() {
    let patch = TrackFullPatch {
        remove_vibes: Some(vec![VibeRef::Id(3)]),
        add_vibes: Some(vec![named("mood", "chill"), VibeRef::Id(8)]),
        ..TrackFullPatch::default()
    };
    let plan = song().patch_statements(&patch).unwrap();
    assert!(plan.update.is_none());
    let remove = plan.remove.unwrap();
    assert_eq!(
        sql(&remove),
        "DELETE FROM tracks_with_vibes WHERE track = $1 AND vibe IN (SELECT vb.vibe_id FROM vibes vb WHERE FALSE OR vb.vibe_id = $2)"
    );
    assert_eq!(bound(remove), 2);
    let attach = plan.attach.unwrap();
    assert_eq!(
        sql(&attach),
        "INSERT INTO tracks_with_vibes (track, vibe) SELECT $1, vb.vibe_id FROM vibes vb WHERE FALSE OR (COALESCE(vb.group_name, '') = $2 AND vb.name = $3) OR vb.vibe_id = $4 ON CONFLICT DO NOTHING"
    );
    assert_eq!(bound(attach), 4);
    let resolve = plan.resolve.unwrap();
    assert_eq!(
        sql(&resolve),
        "SELECT vb.vibe_id AS id, vb.name, vb.group_name FROM vibes vb WHERE FALSE OR (COALESCE(vb.group_name, '') = $1 AND vb.name = $2) OR vb.vibe_id = $3"
    );
    assert_eq!(bound(resolve), 3);
}

#[test]
fn consistency_of_records_is_checked() {
    assert!(song().track.is_well_formed());
    let mut track = song().track;
    track.vote_count = 1;
    track.total_rating = 256;
    assert!(!track.is_well_formed());
    track.total_rating = 255;
    assert!(track.is_well_formed());
    track.download_count = -1;
    assert!(!track.is_well_formed());
}

#[test]
fn an_aggregate_with_a_vibe_twice_is_not_consistent() {
    let mut track = song();
    assert!(track.is_well_formed());
    track.vibes = vec![vibe(3, "mood", "chill"), vibe(4, "mood", "dark")];
    assert!(track.is_well_formed());
    track.vibes.push(vibe(3, "mood", "other"));
    assert!(!track.is_well_formed());
    let mut track = song();
    track.track.vote_count = -1;
    assert!(!track.is_well_formed());
}

#[test]
fn attaching_and_detaching_twice_changes_nothing() {
    let mut track = song();
    track.vibes = vec![vibe(3, "mood", "chill")];
    let add = TrackFullPatch {
        add_vibes: Some(vec![VibeRef::Id(4), VibeRef::Id(5)]),
        ..TrackFullPatch::default()
    };
    let resolved = vec![vibe(4, "mood", "dark"), vibe(5, "tempo", "fast")];
    let once = track.apply_patch(add.clone(), resolved.clone()).unwrap();
    let twice = once.clone().apply_patch(add, resolved).unwrap();
    assert_eq!(once, twice);
    let remove = TrackFullPatch {
        remove_vibes: Some(vec![VibeRef::Id(4), named("mood", "chill")]),
        ..TrackFullPatch::default()
    };
    let once = twice.apply_patch(remove.clone(), Vec::new()).unwrap();
    let twice = once.clone().apply_patch(remove, Vec::new()).unwrap();
    assert_eq!(once, twice);
    assert_eq!(once.vibes, vec![vibe(5, "tempo", "fast")]);
}

#[test]
fn the_text_of_the_statements_does_not_depend_on_the_values() {
    let one = TrackFullPatch {
        title: Some(String::from("x")),
        new_vote: Some(1),
        remove_vibes: Some(vec![named("a", "b")]),
        ..TrackFullPatch::default()
    };
    let other = TrackFullPatch {
        title: Some(String::from("'; DROP TABLE tracks; --")),
        new_vote: Some(255),
        remove_vibes: Some(vec![named("$1", "' OR TRUE")]),
        ..TrackFullPatch::default()
    };
    let plan_one = song().patch_statements(&one).unwrap();
    let plan_other = song().patch_statements(&other).unwrap();
    assert_eq!(sql(&plan_one.update.unwrap()), sql(&plan_other.update.unwrap()));
    assert_eq!(sql(&plan_one.remove.unwrap()), sql(&plan_other.remove.unwrap()));
}

fn everything() -> TrackFullPatch {
    TrackFullPatch {
        title: Some(String::from("T")),
        remove_vibes: Some(vec![VibeRef::Id(3)]),
        add_vibes: Some(vec![VibeRef::Id(4)]),
        ..TrackFullPatch::default()
    }
}

fn started(patch: &TrackFullPatch) -> Patching {
    song().patch_statements(patch).unwrap().run()
}

fn handed_out(step: PatchStep) -> (bool, String) {
    match step {
        PatchStep::Run(q) => (false, sql(&q)),
        PatchStep::Resolve(q) => (true, sql(&q)),
        PatchStep::Done(_) => panic!("a statement was expected"),
    }
}

#[test]
fn the_statements_of_a_patch_run_in_order() {
    let mut patching = started(&everything());
    assert_eq!(patching.stage, PatchStage::Begun);
    let (keep, text) = handed_out(patching.advance(None));
    assert!(!keep && text.starts_with("UPDATE tracks SET "));
    assert_eq!(patching.stage, PatchStage::Updating);
    let (keep, text) = handed_out(patching.advance(None));
    assert!(!keep && text.starts_with("DELETE FROM tracks_with_vibes "));
    assert_eq!(patching.stage, PatchStage::Detaching);
    let (keep, text) = handed_out(patching.advance(None));
    assert!(!keep && text.starts_with("INSERT INTO tracks_with_vibes "));
    assert_eq!(patching.stage, PatchStage::Attaching);
    let (keep, text) = handed_out(patching.advance(None));
    assert!(keep && text.starts_with("SELECT vb.vibe_id AS id"));
    assert_eq!(patching.stage, PatchStage::Resolving);
    assert!(matches!(patching.advance(None), PatchStep::Done(Ok(()))));
    assert_eq!(patching.stage, PatchStage::Over);
    assert!(matches!(patching.advance(None), PatchStep::Done(Ok(()))));
}

#[test]
fn steps_without_work_are_passed_over() {
    let only_vibes = TrackFullPatch {
        add_vibes: Some(vec![VibeRef::Id(4)]),
        ..TrackFullPatch::default()
    };
    let mut patching = started(&only_vibes);
    let (keep, text) = handed_out(patching.advance(None));
    assert!(!keep && text.starts_with("INSERT INTO tracks_with_vibes "));
    assert_eq!(patching.stage, PatchStage::Attaching);
    let (keep, _) = handed_out(patching.advance(None));
    assert!(keep);
    assert!(matches!(patching.advance(None), PatchStep::Done(Ok(()))));

    let mut patching = started(&TrackFullPatch::default());
    assert!(matches!(patching.advance(None), PatchStep::Done(Ok(()))));
    assert_eq!(patching.stage, PatchStage::Over);

    let mut patching = started(&TrackFullPatch::download());
    let (keep, text) = handed_out(patching.advance(None));
    assert!(!keep && text.starts_with("UPDATE tracks SET download_count"));
    assert!(matches!(patching.advance(None), PatchStep::Done(Ok(()))));
}

#[test]
fn the_first_failure_ends_the_run() {
    let mut patching = started(&everything());
    handed_out(patching.advance(None));
    handed_out(patching.advance(None));
    let step = patching.advance(Some(DatabaseError::QueryTimeout));
    assert!(matches!(step, PatchStep::Done(Err(DatabaseError::QueryTimeout))));
    assert_eq!(patching.stage, PatchStage::Over);
    assert!(patching.plan.attach.is_some());
    assert!(matches!(patching.advance(None), PatchStep::Done(Ok(()))));
    assert!(patching.plan.attach.is_some());

    let mut patching = started(&everything());
    handed_out(patching.advance(Some(DatabaseError::DatabaseError)));
    assert_eq!(patching.stage, PatchStage::Updating);
    let step = patching.advance(Some(DatabaseError::DatabaseConnectionError));
    assert!(matches!(step, PatchStep::Done(Err(DatabaseError::DatabaseConnectionError))));
}
