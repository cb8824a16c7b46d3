use sqlx::{Arguments, Execute};
use vibing_storage::aggregate::{Removal, RemovalStage, RemovalStep, Step};
use vibing_storage::error::DatabaseError;
use vibing_storage::statement::Statement;
use vibing_storage::track::{Track, TrackFull};
use vibing_storage::vibe::Vibe;
use vibing_storage::vibe_group::{VibeGroup, VibeGroupFull};

fn sql(q: &Statement) -> String {
    q.builder.sql().as_str().to_string()
}

fn bound(mut q: Statement) -> usize {
    let mut query = q.builder.build();
    match query.take_arguments() {
        Ok(Some(arguments)) => arguments.len(),
        _ => 0,
    }
}

fn vibe(id: i32, group: &str, name: &str) -> Vibe {
    Vibe { id, name: String::from(name), group_name: String::from(group) }
}

fn group(id: i32, name: &str) -> VibeGroup {
    VibeGroup { id, name: String::from(name) }
}

fn doomed() -> Removal {
    TrackFull::with_vibes(
        Track { id: 42, path: String::from("a.mp3"), ..Track::default() },
        &vec![vibe(1, "mood", "chill")],
    )
    .remove()
}

fn run(step: RemovalStep) -> Statement {
    match step {
        RemovalStep::Run(q) => q,
        _ => panic!("a statement was expected"),
    }
}

#[test]
fn a_removal_deletes_the_record_then_its_associations_then_commits() {
    let mut removal = doomed();
    assert_eq!(removal.stage, RemovalStage::Begun);
    let first = run(removal.advance(None));
    assert_eq!(sql(&first), "DELETE FROM tracks WHERE track_id = $1");
    assert_eq!(bound(first), 1);
    let second = run(removal.advance(None));
    assert_eq!(sql(&second), "DELETE FROM tracks_with_vibes WHERE track = $1");
    assert_eq!(bound(second), 1);
    assert!(matches!(removal.advance(None), RemovalStep::Commit));
    assert!(matches!(removal.advance(None), RemovalStep::Done(Ok(()))));
    assert_eq!(removal.stage, RemovalStage::Over);
    assert_eq!(removal.id, 42);
}

#[test]
fn a_failed_deletion_ends_the_removal_without_a_commit() {
    let mut removal = doomed();
    run(removal.advance(None));
    let step = removal.advance(Some(DatabaseError::from(sqlx::Error::PoolTimedOut)));
    assert!(matches!(step, RemovalStep::Done(Err(DatabaseError::DatabaseConnectionError))));
    assert_eq!(removal.stage, RemovalStage::Over);

    let mut removal = doomed();
    run(removal.advance(None));
    run(removal.advance(None));
    let step = removal.advance(Some(DatabaseError::QueryTimeout));
    assert!(matches!(step, RemovalStep::Done(Err(DatabaseError::QueryTimeout))));
    assert_eq!(removal.stage, RemovalStage::Over);
}

#[test]
fn a_failed_commit_is_a_failed_removal() {
    let mut removal = doomed();
    run(removal.advance(None));
    run(removal.advance(None));
    assert!(matches!(removal.advance(None), RemovalStep::Commit));
    let step = removal.advance(Some(DatabaseError::DatabaseError));
    assert!(matches!(step, RemovalStep::Done(Err(DatabaseError::DatabaseError))));
}

#[test]
fn the_first_outcome_is_not_looked_at() {
    let mut removal = doomed();
    let first = run(removal.advance(Some(DatabaseError::DatabaseConnectionError)));
    assert_eq!(sql(&first), "DELETE FROM tracks WHERE track_id = $1");
    assert_eq!(removal.stage, RemovalStage::DeletingTrack);
}

#[test]
fn a_lookup_after_removal_finds_nothing() {
    let lookup = TrackFull::get_by_id(42);
    assert!(sql(&lookup).ends_with(" FROM tracks WHERE track_id = $1"));
    assert_eq!(DatabaseError::from(sqlx::Error::RowNotFound), DatabaseError::NotFound);
}

#[test]
fn vibes_attached_twice_are_kept_once() {
    let full = TrackFull::with_vibes(
        Track::default(),
        &vec![vibe(1, "mood", "chill"), vibe(2, "mood", "dark"), vibe(1, "mood", "chill")],
    );
    assert_eq!(full.vibes, vec![vibe(1, "mood", "chill"), vibe(2, "mood", "dark")]);
}

#[test]
fn a_group_takes_the_vibes_that_carry_its_name() {
    let vibes = vec![
        vibe(1, "mood", "chill"),
        vibe(2, "tempo", "fast"),
        vibe(3, "mood", "dark"),
        vibe(1, "mood", "chill"),
    ];
    let full = VibeGroupFull::with_vibes(group(10, "mood"), &vibes);
    assert_eq!(full.group, group(10, "mood"));
    assert_eq!(full.vibes, vec![vibe(1, "mood", "chill"), vibe(3, "mood", "dark")]);
    let all = VibeGroupFull::assemble(&vec![group(11, "tempo"), group(10, "mood"), group(12, "era")], &vibes);
    assert_eq!(all.len(), 3);
    assert_eq!(all[0].vibes, vec![vibe(2, "tempo", "fast")]);
    assert_eq!(all[1].vibes.len(), 2);
    assert!(all[2].vibes.is_empty());
}

#[test]
fn groups_are_loaded_with_one_lookup() {
    match VibeGroupFull::load(&Vec::new()) {
        Ok(Step::Done(full)) => assert!(full.is_empty()),
        _ => panic!("no group needs no lookup"),
    }
    match VibeGroupFull::load(&vec![group(1, "mood"), group(2, "tempo")]) {
        Ok(Step::Ask(q)) => {
            assert!(sql(&q).ends_with(" WHERE vg.vibe_group_id = ANY($1)"));
            assert_eq!(bound(q), 1);
        },
        _ => panic!("two groups need one lookup"),
    }
}
