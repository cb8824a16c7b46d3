//! Track catalog core: the aggregate of a track and its vibes, the patch
//! engine, the filter and pagination engine, and the statements that carry
//! them to a PostgreSQL store.
//!
//! Nothing here talks to the store. Each operation is split into the
//! statement it wants run and the function that turns the store's answer
//! into the operation's result; the caller runs the statement in between.
//!
//! - A lookup is one statement: [`track::TrackFull::get_by_id`] gives it,
//!   the caller fetches the row, and [`track::TrackFull::with_vibes`] puts
//!   the aggregate together.
//! - A listing is two: the records first, then, through
//!   [`track::TrackFull::load`], the vibes of all of them at once.
//! - A page is three: [`track::TrackFull::page`] counts,
//!   [`track::TrackFull::page_counted`] reads the records of the page, and
//!   [`track::TrackFull::page_of`] makes the page.
//! - A patch is up to four statements, given by
//!   [`track::TrackFull::patch_statements`] and handed out in their order by
//!   [`patch::Patching`]; once they have run,
//!   [`track::TrackFull::apply_patch`] does the same to the aggregate in
//!   memory.
//! - A removal is a transaction that [`aggregate::Removal`] steers.
//!
//! The statements are built with `sqlx`; what is taken on trust of it is
//! stated in [`statement`]. Everything else is proved, and [`laws`] holds
//! what follows for every patch, filter and removal.

pub mod aggregate;
pub mod api;
pub mod error;
pub mod filter;
pub mod laws;
pub mod media;
pub mod page;
pub mod patch;
pub mod statement;
pub mod text;
pub mod track;
pub mod vibe;
pub mod vibe_group;
