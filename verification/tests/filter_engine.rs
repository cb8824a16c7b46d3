use sqlx::{Arguments, Execute};
use vibing_storage::error::DatabaseError;
use vibing_storage::filter::{escape, wrap, OrderKey, FILTERED_END, SELECT_FILTERED};
use vibing_storage::statement::Statement;
use vibing_storage::track::{Track, TrackFilter, TrackFull};
use vibing_storage::vibe::{Vibe, VibeLink};

fn sql(q: &Statement) -> String {
    q.builder.sql().as_str().to_string()
}

fn bound(mut q: Statement) -> usize {
    let mut query = q.builder.build();
    match query.take_arguments() {
        Ok(Some(arguments)) => arguments.len(),
        _ => 0,
    }
}

fn vibe(id: i32, group: &str, name: &str) -> Vibe {
    Vibe { id, name: String::from(name), group_name: String::from(group) }
}

fn link(track_id: i32, vibe: Vibe) -> VibeLink {
    VibeLink { track_id, vibe }
}

fn track(id: i32, downloads: i32) -> Track {
    Track { id, path: format!("{}.mp3", id), download_count: downloads, ..Track::default() }
}

#[test]
fn an_empty_filter_selects_every_track() {
    let q = TrackFull::get_by_filter(&TrackFilter::default()).unwrap();
    assert_eq!(sql(&q), format!("{} WHERE TRUE{}", SELECT_FILTERED, FILTERED_END));
    assert_eq!(bound(q), 0);
}

#[test]
fn every_track_comes_with_its_own_vibes() {
    let tracks = vec![track(1, 0), track(2, 0), track(3, 0)];
    let links = vec![
        link(2, vibe(7, "mood", "chill")),
        link(1, vibe(8, "mood", "dark")),
        link(2, vibe(8, "mood", "dark")),
        link(2, vibe(7, "mood", "chill")),
        link(9, vibe(7, "mood", "chill")),
    ];
    let full = TrackFull::attach_links(&tracks, &links);
    assert_eq!(full.len(), 3);
    assert_eq!(full[0].track, tracks[0]);
    assert_eq!(full[0].vibes, vec![vibe(8, "mood", "dark")]);
    assert_eq!(full[1].track, tracks[1]);
    assert_eq!(full[1].vibes, vec![vibe(7, "mood", "chill"), vibe(8, "mood", "dark")]);
    assert_eq!(full[2].track, tracks[2]);
    assert!(full[2].vibes.is_empty());
}

#[test]
fn rows_are_grouped_by_track() {
    let links = vec![
        link(2, vibe(7, "mood", "chill")),
        link(1, vibe(8, "mood", "dark")),
        link(2, vibe(8, "mood", "dark")),
    ];
    let map = Vibe::group_by_track(&links);
    assert_eq!(map.len(), 2);
    assert_eq!(map[&1], vec![vibe(8, "mood", "dark")]);
    assert_eq!(map[&2], vec![vibe(7, "mood", "chill"), vibe(8, "mood", "dark")]);
    assert!(Vibe::group_by_track(&Vec::new()).is_empty());
}

#[test]
fn most_downloaded_orders_by_downloads_descending() {
    let filter = TrackFilter { order_by: Some(String::from("most-downloaded")), ..TrackFilter::default() };
    let q = TrackFull::get_by_filter(&filter).unwrap();
    assert_eq!(
        sql(&q),
        format!("{} WHERE TRUE{} ORDER BY t.download_count DESC", SELECT_FILTERED, FILTERED_END)
    );
    // The store hands the rows back in that order; they are put together
    // without being moved.
    let rows = vec![track(3, 9), track(1, 5), track(2, 1)];
    let full = TrackFull::attach_links(&rows, &Vec::new());
    let downloads: Vec<i32> = full.iter().map(|t| t.track.download_count).collect();
    assert_eq!(downloads, vec![9, 5, 1]);
}

#[test]
fn rating_orders_by_average_without_dividing_by_zero() {
    let filter = TrackFilter { order_by: Some(String::from("rating")), ..TrackFilter::default() };
    let q = TrackFull::get_by_filter(&filter).unwrap();
    assert!(sql(&q).ends_with(
        ") t ORDER BY (CASE WHEN t.vote_count > 0 THEN t.total_rating::FLOAT / t.vote_count ELSE 0 END) DESC"
    ));
}

#[test]
fn an_unknown_sort_key_is_ignored_and_never_reaches_the_text() {
    for key in ["title; DROP TABLE tracks", "most download", "Rating", "", "rating "] {
        let filter = TrackFilter { order_by: Some(String::from(key)), ..TrackFilter::default() };
        let q = TrackFull::get_by_filter(&filter).unwrap();
        assert_eq!(sql(&q), format!("{} WHERE TRUE{}", SELECT_FILTERED, FILTERED_END));
        assert_eq!(bound(q), 0);
    }
}

#[test]
fn sort_keys_are_spelled_exactly() {
    assert_eq!(OrderKey::parse("rating"), Some(OrderKey::Rating));
    assert_eq!(OrderKey::parse("most-downloaded"), Some(OrderKey::MostDownloaded));
    assert_eq!(OrderKey::parse("downloads"), None);
    assert_eq!(OrderKey::parse("RATING"), None);
}

#[test]
fn every_condition_binds_its_value() {
    let filter = TrackFilter {
        pattern: Some(String::from("love")),
        author: Some(String::from("Band")),
        vibes: Some(vec![String::from("chill"), String::from("dark")]),
        limit: Some(10),
        order_by: Some(String::from("rating")),
    };
    let q = TrackFull::get_by_filter(&filter).unwrap();
    let text = sql(&q);
    assert!(text.starts_with(SELECT_FILTERED));
    assert!(text.contains(
        " FROM tracks t JOIN tracks_with_vibes twv ON t.track_id = twv.track JOIN vibes vb ON twv.vibe = vb.vibe_id WHERE TRUE AND (t.title ILIKE $1 OR t.author ILIKE $2) AND t.author = $3 AND vb.name = ANY($4)) t ORDER BY "
    ));
    assert!(text.ends_with(" DESC LIMIT $5"));
    assert!(!text.contains("love") && !text.contains("Band") && !text.contains("chill"));
    assert_eq!(bound(q), 5);
}

#[test]
fn no_join_without_vibes() {
    let filter = TrackFilter { vibes: Some(Vec::new()), author: Some(String::from("B")), ..TrackFilter::default() };
    let q = TrackFull::get_by_filter(&filter).unwrap();
    assert_eq!(sql(&q), format!("{} WHERE TRUE AND t.author = $1{}", SELECT_FILTERED, FILTERED_END));
}

#[test]
fn a_negative_limit_is_a_validation_error() {
    let filter = TrackFilter { limit: Some(-1), ..TrackFilter::default() };
    assert!(matches!(TrackFull::get_by_filter(&filter), Err(DatabaseError::ValidationError)));
    let filter = TrackFilter { limit: Some(0), ..TrackFilter::default() };
    let q = TrackFull::get_by_filter(&filter).unwrap();
    assert!(sql(&q).ends_with(") t LIMIT $1"));
    assert!(filter.is_valid());
}

#[test]
fn a_pattern_matches_as_a_substring() {
    assert_eq!(wrap("love"), "%love%");
    assert_eq!(wrap(""), "%%");
    assert_eq!(wrap("ünï"), "%ünï%");
}

#[test]
fn wildcards_in_a_pattern_are_taken_literally() {
    assert_eq!(escape("100%"), "100\\%");
    assert_eq!(escape("a_b"), "a\\_b");
    assert_eq!(escape("back\\slash"), "back\\\\slash");
    assert_eq!(escape("%_\\"), "\\%\\_\\\\");
    assert_eq!(escape("plain"), "plain");
    assert_eq!(escape(""), "");
    assert_eq!(wrap("50%_off"), "%50\\%\\_off%");
}
