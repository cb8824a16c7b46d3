//! The filter engine: from a filter to the statements that select and
//! count the tracks it admits.
//!
//! Every value that a caller supplies is bound to a placeholder; the text
//! of a statement is put together from constant fragments alone. The sort
//! key is looked up in a fixed list, and a key that is not in the list
//! leaves the selection unordered.

use crate::error::DatabaseError;
use crate::statement::{
    begin, draft_of, push_bind_long, push_bind_text, push_bind_texts, push_sql, statement_open,
    text_can_bind, text_fits, texts_can_bind, texts_fit, texts_of, Bind, Draft, Statement,
};
use crate::text::{push_char, same_text};
use crate::track::{TrackFilter, TrackFull};
use vstd::prelude::*;

verus! {

/// The start of the selection of tracks by a filter. The selection proper
/// is distinct by track and stands in parentheses, so that it can be
/// ordered by an expression that is not among its columns.
pub const SELECT_FILTERED: &'static str =
    "SELECT t.id, t.path, t.title, t.author, t.genre, t.duration, t.vote_count, t.total_rating, t.download_count FROM (SELECT DISTINCT t.track_id AS id, t.path, t.title, t.author, t.genre, t.duration, t.vote_count, t.total_rating, t.download_count FROM tracks t";

/// The end of the selection proper.
pub const FILTERED_END: &'static str = ") t";

/// The start of the count of the tracks that a filter admits.
pub const COUNT_FILTERED: &'static str = "SELECT COUNT(DISTINCT t.track_id) AS count FROM tracks t";

/// The join with the vibes of a track; present only where the filter names
/// vibes.
pub const JOIN_VIBES: &'static str =
    " JOIN tracks_with_vibes twv ON t.track_id = twv.track JOIN vibes vb ON twv.vibe = vb.vibe_id";

/// Orders by average rating, highest first; a track without votes counts
/// as rated 0 and nothing is divided by zero.
pub const ORDER_BY_RATING: &'static str =
    " ORDER BY (CASE WHEN t.vote_count > 0 THEN t.total_rating::FLOAT / t.vote_count ELSE 0 END) DESC";

/// Orders by number of downloads, highest first.
pub const ORDER_BY_DOWNLOADS: &'static str = " ORDER BY t.download_count DESC";

/// The sort key that orders by average rating.
pub const KEY_RATING: &'static str = "rating";

/// The sort key that orders by number of downloads.
pub const KEY_MOST_DOWNLOADED: &'static str = "most-downloaded";

/// The sort keys that a listing accepts.
#[derive(Debug, Clone, Copy, PartialEq, Eq, Structural)]
pub enum OrderKey {
    Rating,
    MostDownloaded,
}

impl OrderKey {
    /// The sort key that `key` spells, if any.
    pub open spec fn of_text(key: Seq<char>) -> Option<OrderKey> {
        if key == KEY_RATING@ {
            Some(OrderKey::Rating)
        } else if key == KEY_MOST_DOWNLOADED@ {
            Some(OrderKey::MostDownloaded)
        } else {
            None
        }
    }

    /// The sort key that `key` spells, if any.
    pub fn parse(key: &str) -> (parsed: Option<OrderKey>)
        ensures
            parsed == Self::of_text(key@),
    {
        if same_text(key, KEY_RATING) {
            Some(OrderKey::Rating)
        } else if same_text(key, KEY_MOST_DOWNLOADED) {
            Some(OrderKey::MostDownloaded)
        } else {
            None
        }
    }

    /// The clause that orders a selection by this key.
    pub open spec fn clause(self) -> Seq<char> {
        match self {
            OrderKey::Rating => ORDER_BY_RATING@,
            OrderKey::MostDownloaded => ORDER_BY_DOWNLOADS@,
        }
    }
}

/// Whether `c` has a meaning of its own in a pattern: `%` stands for any
/// text, `_` for any character, and `\` takes the meaning from the
/// character that follows.
pub open spec fn is_wildcard(c: char) -> bool {
    c == '%' || c == '_' || c == '\\'
}

/// The text `text` as a pattern that stands for exactly that text: every
/// character with a meaning of its own is preceded by `\`.
pub open spec fn escaped(text: Seq<char>) -> Seq<char>
    decreases text.len(),
{
    if text.len() == 0 {
        Seq::empty()
    } else if is_wildcard(text.last()) {
        escaped(text.drop_last()).push('\\').push(text.last())
    } else {
        escaped(text.drop_last()).push(text.last())
    }
}

/// The pattern that matches every text that holds `text` somewhere: `text`
/// taken literally, between two `%`.
pub open spec fn wrapped(text: Seq<char>) -> Seq<char> {
    "%"@ + escaped(text) + "%"@
}

/// The text `text` as a pattern that stands for exactly that text.
pub fn escape(text: &str) -> (pattern: String)
    ensures
        pattern@ == escaped(text@),
{
    let mut pattern = String::new();
    for c in it: text.chars()
        invariant
            it.seq() == text@,
            pattern@ == escaped(text@.take(it.index() as int)),
    {
        proof {
            assert(text@.take(it.index() + 1).drop_last() =~= text@.take(it.index() as int));
        }
        if c == '%' || c == '_' || c == '\\' {
            push_char(&mut pattern, '\\');
        }
        push_char(&mut pattern, c);
    }
    proof {
        assert(text@.take(text@.len() as int) =~= text@);
    }
    pattern
}

impl TrackFilter {
    /// The names of the vibes that the filter asks for; none where the list
    /// is absent.
    pub open spec fn named(self) -> Seq<String> {
        match self.vibes {
            Some(names) => names@,
            None => Seq::empty(),
        }
    }

    /// The sort key that the filter asks for, where it is one of those that
    /// a listing accepts.
    pub open spec fn order(self) -> Option<OrderKey> {
        match self.order_by {
            Some(key) => OrderKey::of_text(key@),
            None => None,
        }
    }

    /// Whether every text of the filter is short enough to be bound.
    pub open spec fn fits(self) -> bool {
        &&& self.pattern matches Some(p) ==> text_fits(wrapped(p@))
        &&& self.author matches Some(a) ==> text_fits(a@)
        &&& texts_fit(texts_of(self.named()))
    }

    /// Whether the filter is within the accepted domain: its texts can be
    /// bound and its limit is not negative.
    pub open spec fn valid(self) -> bool {
        &&& self.fits()
        &&& self.limit matches Some(limit) ==> limit >= 0
    }

    /// Whether the filter admits every track: it has no pattern, no author
    /// and names no vibe.
    pub open spec fn unconstrained(self) -> bool {
        self.pattern is None && self.author is None && self.named().len() == 0
    }

    /// The statement `d` with the join appended that the filter needs.
    pub open spec fn joins(self, d: Draft) -> Draft {
        if self.named().len() > 0 {
            d.sql(JOIN_VIBES@)
        } else {
            d
        }
    }

    /// The statement `d` with the conditions of the filter appended: the
    /// pattern against title or author, the author, and the vibes.
    pub open spec fn conditions(self, d: Draft) -> Draft {
        let d0 = d.sql(" WHERE TRUE"@);
        let d1 = match self.pattern {
            Some(p) => d0.sql(" AND (t.title ILIKE "@).bind(Bind::Text(wrapped(p@))).sql(
                " OR t.author ILIKE "@,
            ).bind(Bind::Text(wrapped(p@))).sql(")"@),
            None => d0,
        };
        let d2 = match self.author {
            Some(a) => d1.sql(" AND t.author = "@).bind(Bind::Text(a@)),
            None => d1,
        };
        if self.named().len() > 0 {
            d2.sql(" AND vb.name = ANY("@).bind(Bind::Texts(texts_of(self.named()))).sql(")"@)
        } else {
            d2
        }
    }

    /// The statement that counts the tracks that the filter admits, each
    /// track once.
    pub open spec fn counting(self) -> Draft {
        self.conditions(self.joins(Draft::start(COUNT_FILTERED@)))
    }

    /// The statement that selects the tracks that the filter admits, each
    /// track once, in no particular order.
    pub open spec fn selection(self) -> Draft {
        self.conditions(self.joins(Draft::start(SELECT_FILTERED@))).sql(FILTERED_END@)
    }

    /// The statement `d` with the ordering appended that the filter asks
    /// for. A sort key that no listing accepts orders nothing.
    pub open spec fn ordered(self, d: Draft) -> Draft {
        match self.order() {
            Some(key) => d.sql(key.clause()),
            None => d,
        }
    }

    /// The statement that lists the tracks that the filter admits, ordered
    /// and limited as the filter asks.
    pub open spec fn listing(self) -> Draft {
        let d = self.ordered(self.selection());
        match self.limit {
            Some(limit) => d.sql(" LIMIT "@).bind(Bind::Long(limit as i64)),
            None => d,
        }
    }

    /// Whether the filter is within the accepted domain.
    pub fn is_valid(&self) -> (yes: bool)
        ensures
            yes == self.valid(),
    {
        let pattern_fits = match &self.pattern {
            Some(p) => {
                let w = wrap(p.as_str());
                text_can_bind(w.as_str())
            },
            None => true,
        };
        let author_fits = match &self.author {
            Some(a) => text_can_bind(a.as_str()),
            None => true,
        };
        let names_fit = match &self.vibes {
            Some(names) => texts_can_bind(names),
            None => {
                proof {
                    assert(texts_of(self.named()) =~= Seq::<Seq<char>>::empty());
                }
                true
            },
        };
        let limit_fits = match self.limit {
            Some(limit) => limit >= 0,
            None => true,
        };
        pattern_fits && author_fits && names_fit && limit_fits
    }
}

/// The pattern that matches every text that holds `text` somewhere.
pub fn wrap(text: &str) -> (pattern: String)
    ensures
        pattern@ == wrapped(text@),
{
    let literal = escape(text);
    let pattern = String::from_str("%");
    let pattern = pattern.concat(literal.as_str());
    pattern.concat("%")
}

/// Appends the join that `filter` needs.
pub(crate) fn push_joins(q: &mut Statement, filter: &TrackFilter)
    requires
        statement_open(*old(q)),
    ensures
        statement_open(*final(q)),
        draft_of(*final(q)) == filter.joins(draft_of(*old(q))),
{
    match &filter.vibes {
        Some(names) => {
            if names.len() > 0 {
                push_sql(q, JOIN_VIBES);
            }
        },
        None => {},
    }
}

/// Appends the conditions of `filter`.
pub(crate) fn push_conditions(q: &mut Statement, filter: &TrackFilter)
    requires
        statement_open(*old(q)),
        filter.fits(),
    ensures
        statement_open(*final(q)),
        draft_of(*final(q)) == filter.conditions(draft_of(*old(q))),
{
    push_sql(q, " WHERE TRUE");
    match &filter.pattern {
        Some(p) => {
            let w = wrap(p.as_str());
            push_sql(q, " AND (t.title ILIKE ");
            push_bind_text(q, w.as_str());
            push_sql(q, " OR t.author ILIKE ");
            push_bind_text(q, w.as_str());
            push_sql(q, ")");
        },
        None => {},
    }
    match &filter.author {
        Some(a) => {
            push_sql(q, " AND t.author = ");
            push_bind_text(q, a.as_str());
        },
        None => {},
    }
    match &filter.vibes {
        Some(names) => {
            if names.len() > 0 {
                push_sql(q, " AND vb.name = ANY(");
                push_bind_texts(q, names);
                push_sql(q, ")");
            }
        },
        None => {},
    }
}

/// Appends the ordering that `filter` asks for.
pub(crate) fn push_ordering(q: &mut Statement, filter: &TrackFilter)
    requires
        statement_open(*old(q)),
    ensures
        statement_open(*final(q)),
        draft_of(*final(q)) == filter.ordered(draft_of(*old(q))),
{
    match &filter.order_by {
        Some(key) => match OrderKey::parse(key.as_str()) {
            Some(OrderKey::Rating) => push_sql(q, ORDER_BY_RATING),
            Some(OrderKey::MostDownloaded) => push_sql(q, ORDER_BY_DOWNLOADS),
            None => {},
        },
        None => {},
    }
}

/// Starts the selection of the tracks that `filter` admits.
pub(crate) fn select_filtered(filter: &TrackFilter) -> (q: Statement)
    requires
        filter.fits(),
    ensures
        statement_open(q),
        draft_of(q) == filter.selection(),
{
    let mut q = begin(SELECT_FILTERED);
    push_joins(&mut q, filter);
    push_conditions(&mut q, filter);
    push_sql(&mut q, FILTERED_END);
    q
}

impl TrackFull {
    /// The statement that lists the tracks that `filter` admits, without
    /// pages. A filter outside the accepted domain is a validation error.
    pub fn get_by_filter(filter: &TrackFilter) -> (r: Result<Statement, DatabaseError>)
        ensures
            match r {
                Ok(q) => filter.valid() && draft_of(q) == filter.listing(),
                Err(e) => !filter.valid() && e == DatabaseError::ValidationError,
            },
    {
        if !filter.is_valid() {
            return Err(DatabaseError::ValidationError);
        }
        let mut q = select_filtered(filter);
        push_ordering(&mut q, filter);
        match filter.limit {
            Some(limit) => {
                push_sql(&mut q, " LIMIT ");
                push_bind_long(&mut q, limit as i64);
            },
            None => {},
        }
        Ok(q)
    }
}

} // verus!
