use sqlx::{Arguments, Execute};
use vibing_storage::aggregate::{Step, SELECT_TRACKS};
use vibing_storage::error::DatabaseError;
use vibing_storage::statement::Statement;
use vibing_storage::track::{Track, TrackFull, TrackMetadata};
use vibing_storage::vibe::{Vibe, VibeRef};
use vibing_storage::vibe_group::VibeGroupFull;

fn sql(q: &Statement) -> String {
    q.builder.sql().as_str().to_string()
}

fn bound(mut q: Statement) -> usize {
    let mut query = q.builder.build();
    match query.take_arguments() {
        Ok(Some(arguments)) => arguments.len(),
        _ => 0,
    }
}

fn track(id: i32) -> Track {
    Track { id, path: format!("{}.mp3", id), ..Track::default() }
}

#[test]
fn vibe_by_id_binds_the_identifier() {
    let q = Vibe::get_by_id(7);
    assert_eq!(sql(&q), "SELECT vibe_id AS id, name, group_name FROM vibes WHERE vibe_id = $1");
    assert_eq!(bound(q), 1);
}

#[test]
fn vibe_by_name_binds_the_name() {
    let q = Vibe::get_by_name("chill'; DROP TABLE vibes; --").unwrap();
    assert_eq!(sql(&q), "SELECT vibe_id AS id, name, group_name FROM vibes WHERE name = $1");
    assert_eq!(bound(q), 1);
}

#[test]
fn vibe_listing_and_count_bind_nothing() {
    let q = Vibe::get_all();
    assert_eq!(sql(&q), "SELECT vibe_id AS id, name, group_name FROM vibes");
    assert_eq!(bound(q), 0);
    let q = Vibe::count();
    assert_eq!(sql(&q), "SELECT COUNT(*) AS vibes_count FROM vibes");
    assert_eq!(bound(q), 0);
}

#[test]
fn vibes_of_one_track() {
    let q = Vibe::get_by_track_id(3);
    assert_eq!(
        sql(&q),
        "SELECT vb.vibe_id AS id, vb.name, vb.group_name FROM vibes AS vb JOIN tracks_with_vibes AS twv ON vb.vibe_id = twv.vibe WHERE twv.track = $1"
    );
    assert_eq!(bound(q), 1);
}

#[test]
fn vibes_of_many_tracks_take_one_array() {
    let q = Vibe::get_by_track_ids(&vec![1, 2, 3]).unwrap();
    assert_eq!(
        sql(&q),
        "SELECT twv.track AS track_id, vb.vibe_id AS id, vb.name AS name, vb.group_name FROM vibes AS vb JOIN tracks_with_vibes AS twv ON vb.vibe_id = twv.vibe WHERE twv.track = ANY($1)"
    );
    assert_eq!(bound(q), 1);
}

#[test]
fn vibes_by_reference_number_their_placeholders() {
    let refs = vec![
        VibeRef::Id(4),
        VibeRef::Named { group_name: String::from("mood"), name: String::from("chill") },
        VibeRef::Id(9),
    ];
    let q = Vibe::get_by_refs(&refs).unwrap();
    assert_eq!(
        sql(&q),
        "SELECT vb.vibe_id AS id, vb.name, vb.group_name FROM vibes vb WHERE FALSE OR vb.vibe_id = $1 OR (COALESCE(vb.group_name, '') = $2 AND vb.name = $3) OR vb.vibe_id = $4"
    );
    assert_eq!(bound(q), 4);
}

#[test]
fn placeholders_go_past_nine() {
    let refs: Vec<VibeRef> = (0..12).map(VibeRef::Id).collect();
    let q = Vibe::get_by_refs(&refs).unwrap();
    let text = sql(&q);
    assert!(text.ends_with(" OR vb.vibe_id = $10 OR vb.vibe_id = $11 OR vb.vibe_id = $12"));
    assert_eq!(bound(q), 12);
}

#[test]
fn track_creation_binds_every_field() {
    let metadata = TrackMetadata {
        path: String::from("a.mp3"),
        title: Some(String::from("Song")),
        author: None,
        genre: None,
        duration: Some(180),
    };
    let q = TrackFull::create_from(&metadata).unwrap();
    assert_eq!(
        sql(&q),
        "INSERT INTO tracks (path, title, author, genre, duration) VALUES ($1, $2, $3, $4, $5) RETURNING track_id AS id, path, title, author, genre, duration, vote_count, total_rating, download_count"
    );
    assert_eq!(bound(q), 5);
}

#[test]
fn track_lookups() {
    let q = TrackFull::get_by_id(5);
    assert_eq!(sql(&q), format!("{} WHERE track_id = $1", SELECT_TRACKS));
    assert_eq!(bound(q), 1);
    let q = TrackFull::get_by_title("Song").unwrap();
    assert_eq!(sql(&q), format!("{} WHERE title = $1", SELECT_TRACKS));
    assert_eq!(bound(q), 1);
    let q = TrackFull::get_all();
    assert_eq!(sql(&q), SELECT_TRACKS);
    assert_eq!(bound(q), 0);
    let q = TrackFull::count();
    assert_eq!(sql(&q), "SELECT COUNT(*) AS tracks_count FROM tracks");
}

#[test]
fn missing_count_is_minus_one() {
    assert_eq!(TrackFull::counted(Some(12)), 12);
    assert_eq!(TrackFull::counted(None), -1);
    assert_eq!(Vibe::counted(Some(0)), 0);
    assert_eq!(Vibe::counted(None), -1);
    assert_eq!(VibeGroupFull::counted(Some(3)), 3);
    assert_eq!(VibeGroupFull::counted(None), -1);
}

#[test]
fn loading_no_records_asks_nothing() {
    match TrackFull::load(&Vec::new()) {
        Ok(Step::Done(full)) => assert!(full.is_empty()),
        _ => panic!("an empty listing needs no lookup"),
    }
}

#[test]
fn loading_records_asks_for_their_vibes_at_once() {
    match TrackFull::load(&vec![track(1), track(2)]) {
        Ok(Step::Ask(q)) => {
            assert!(sql(&q).ends_with(" WHERE twv.track = ANY($1)"));
            assert_eq!(bound(q), 1);
        },
        _ => panic!("two records need one lookup"),
    }
}

#[test]
fn group_lookups() {
    let lookup = VibeGroupFull::get_by_id(2);
    assert_eq!(
        sql(&lookup.group),
        "SELECT vibe_group_id AS id, name FROM vibe_groups WHERE vibe_group_id = $1"
    );
    assert_eq!(
        sql(&lookup.vibes),
        "SELECT vb.vibe_id AS id, vb.name AS name, vg.name AS group_name FROM vibe_groups AS vg JOIN vibes AS vb ON vg.vibe_group_id = vb.vibe_group WHERE vg.vibe_group_id = $1"
    );
    let lookup = VibeGroupFull::get_by_name("mood").unwrap();
    assert_eq!(sql(&lookup.group), "SELECT vibe_group_id AS id, name FROM vibe_groups WHERE name = $1");
    assert!(sql(&lookup.vibes).ends_with(" WHERE vg.name = $1"));
    assert_eq!(bound(lookup.vibes), 1);
    assert_eq!(sql(&VibeGroupFull::get_all()), "SELECT vibe_group_id AS id, name FROM vibe_groups");
    assert_eq!(sql(&VibeGroupFull::count()), "SELECT COUNT(*) AS groups_count FROM vibe_groups");
}

#[test]
fn validation_error_is_the_only_refusal_of_a_lookup() {
    assert!(Vibe::get_by_name("").is_ok());
    assert!(TrackFull::get_by_title("").is_ok());
    assert_ne!(DatabaseError::ValidationError, DatabaseError::NotFound);
}

#[test]
fn a_row_without_a_group_gives_a_vibe_with_an_empty_group_name() {
    let vibe = Vibe::from_columns(5, String::from("chill"), Some(String::from("mood")));
    assert_eq!(vibe, Vibe { id: 5, name: String::from("chill"), group_name: String::from("mood") });
    let vibe = Vibe::from_columns(6, String::from("dark"), None);
    assert_eq!(vibe, Vibe { id: 6, name: String::from("dark"), group_name: String::new() });
}
