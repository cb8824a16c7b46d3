//! Statements under construction.
//!
//! A statement is SQL text with numbered placeholders plus the values bound
//! to them. Text and values are kept apart from the first fragment on, so
//! that no value supplied by a caller is ever spliced into the text.
//!
//! The builder is `sqlx::QueryBuilder`. What it does is taken on trust and
//! written down in the contracts of the small functions below; everything
//! else in the crate is proved from those contracts.

use crate::text::{decimal, utf8_len};
use sqlx::Postgres;
use sqlx::QueryBuilder;
use vstd::prelude::*;

verus! {

/// A statement under construction: a `sqlx::QueryBuilder` for PostgreSQL.
///
/// Its text and bound values are private to `sqlx`; contracts speak of them
/// through [`statement_text`] and [`statement_binds`]. The caller that runs
/// the statement takes the builder out of `builder`.
#[verifier::external_body]
pub struct Statement {
    pub builder: QueryBuilder<Postgres>,
}

/// A value bound to a placeholder.
pub enum Bind {
    /// A 32-bit integer.
    Int(i32),
    /// A 64-bit integer.
    Long(i64),
    /// A text.
    Text(Seq<char>),
    /// A 32-bit integer, or `NULL`.
    OptInt(Option<i32>),
    /// A text, or `NULL`.
    OptText(Option<Seq<char>>),
    /// An array of 32-bit integers.
    Ints(Seq<i32>),
    /// An array of texts.
    Texts(Seq<Seq<char>>),
}

/// The SQL text accumulated in the builder.
pub uninterp spec fn statement_text(q: Statement) -> Seq<char>;

/// The values bound so far, in placeholder order.
pub uninterp spec fn statement_binds(q: Statement) -> Seq<Bind>;

/// Whether the builder still takes fragments and values: it has not been
/// turned into a query yet, and nobody else holds its text.
pub uninterp spec fn statement_open(q: Statement) -> bool;

/// The placeholder that PostgreSQL reads as "the `n`-th bound value".
pub open spec fn placeholder(n: nat) -> Seq<char> {
    seq!['$'] + decimal(n)
}

/// The largest number of bytes that one bound value may take on the wire.
pub const MAX_VALUE_BYTES: usize = 0x7fff_ffff;

/// The bytes that precede the elements of an array on the wire.
pub const ARRAY_HEADER_BYTES: usize = 20;

/// The bytes that precede each element of an array on the wire.
pub const ELEMENT_HEADER_BYTES: usize = 4;

/// Whether a text is short enough to be bound.
pub open spec fn text_fits(value: Seq<char>) -> bool {
    utf8_len(value) <= MAX_VALUE_BYTES
}

/// The text held by an optional string.
pub open spec fn opt_text_of(value: Option<String>) -> Option<Seq<char>> {
    match value {
        Some(v) => Some(v@),
        None => None,
    }
}

/// Whether an optional text is absent or short enough to be bound.
pub open spec fn opt_text_fits(value: Option<String>) -> bool {
    value matches Some(v) ==> text_fits(v@)
}

/// Whether an array of `n` 32-bit integers is short enough to be bound.
pub open spec fn ints_fit(n: nat) -> bool {
    ARRAY_HEADER_BYTES + (ELEMENT_HEADER_BYTES + 4) * n <= MAX_VALUE_BYTES
}

/// The bytes that the elements of an array of texts take on the wire.
pub open spec fn texts_bytes(values: Seq<Seq<char>>) -> nat
    decreases values.len(),
{
    if values.len() == 0 {
        0
    } else {
        texts_bytes(values.drop_last()) + ELEMENT_HEADER_BYTES as nat + utf8_len(values.last())
    }
}

/// Whether an array of texts is short enough to be bound.
pub open spec fn texts_fit(values: Seq<Seq<char>>) -> bool {
    ARRAY_HEADER_BYTES + texts_bytes(values) <= MAX_VALUE_BYTES
}

/// The texts held by a vector of strings.
pub open spec fn texts_of(values: Seq<String>) -> Seq<Seq<char>> {
    values.map_values(|s: String| s@)
}

/// The content of a statement: its text and the values bound to its
/// placeholders.
pub struct Draft {
    pub text: Seq<char>,
    pub binds: Seq<Bind>,
}

impl Draft {
    /// A statement that consists of the fragment `sql`.
    pub open spec fn start(sql: Seq<char>) -> Draft {
        Draft { text: sql, binds: Seq::empty() }
    }

    /// The statement with the fragment `sql` appended.
    pub open spec fn sql(self, sql: Seq<char>) -> Draft {
        Draft { text: self.text + sql, binds: self.binds }
    }

    /// The statement with `value` bound to a fresh placeholder at the end
    /// of the text.
    pub open spec fn bind(self, value: Bind) -> Draft {
        Draft {
            text: self.text + placeholder(self.binds.len() + 1),
            binds: self.binds.push(value),
        }
    }
}

/// The content of the statement held by a builder.
pub open spec fn draft_of(q: Statement) -> Draft {
    Draft { text: statement_text(q), binds: statement_binds(q) }
}

/// Starts a statement through `QueryBuilder::new`: the text is the given
/// fragment, nothing is bound yet, and the builder is open.
#[verifier::external_body]
pub(crate) fn begin(init: &str) -> (q: Statement)
    ensures
        statement_open(q),
        statement_text(q) == init@,
        statement_binds(q) == Seq::<Bind>::empty(),
{
    Statement { builder: QueryBuilder::new(init) }
}

/// Appends a fragment through `QueryBuilder::push`: the text grows by the
/// fragment and the bound values stay. An open builder does not panic.
#[verifier::external_body]
pub(crate) fn push_sql(q: &mut Statement, sql: &str)
    requires
        statement_open(*old(q)),
    ensures
        statement_open(*final(q)),
        statement_text(*final(q)) == statement_text(*old(q)) + sql@,
        statement_binds(*final(q)) == statement_binds(*old(q)),
{
    q.builder.push(sql);
}

/// Binds a 32-bit integer through `QueryBuilder::push_bind`: the value is
/// added to the bound values and its placeholder, `$` and the new number of
/// bound values, is appended to the text.
#[verifier::external_body]
pub(crate) fn push_bind_int(q: &mut Statement, value: i32)
    requires
        statement_open(*old(q)),
    ensures
        statement_open(*final(q)),
        statement_text(*final(q)) == statement_text(*old(q)) + placeholder(
            statement_binds(*old(q)).len() + 1,
        ),
        statement_binds(*final(q)) == statement_binds(*old(q)).push(Bind::Int(value)),
{
    q.builder.push_bind(value);
}

/// Binds a 64-bit integer through `QueryBuilder::push_bind`, as
/// [`push_bind_int`] does for a 32-bit one.
#[verifier::external_body]
pub(crate) fn push_bind_long(q: &mut Statement, value: i64)
    requires
        statement_open(*old(q)),
    ensures
        statement_open(*final(q)),
        statement_text(*final(q)) == statement_text(*old(q)) + placeholder(
            statement_binds(*old(q)).len() + 1,
        ),
        statement_binds(*final(q)) == statement_binds(*old(q)).push(Bind::Long(value)),
{
    q.builder.push_bind(value);
}

/// Binds a text through `QueryBuilder::push_bind`. The builder panics on a
/// text of more than `i32::MAX` bytes, which the precondition leaves out.
#[verifier::external_body]
pub(crate) fn push_bind_text(q: &mut Statement, value: &str)
    requires
        statement_open(*old(q)),
        text_fits(value@),
    ensures
        statement_open(*final(q)),
        statement_text(*final(q)) == statement_text(*old(q)) + placeholder(
            statement_binds(*old(q)).len() + 1,
        ),
        statement_binds(*final(q)) == statement_binds(*old(q)).push(Bind::Text(value@)),
{
    q.builder.push_bind(value);
}

/// Binds a 32-bit integer or, for `None`, `NULL` through
/// `QueryBuilder::push_bind`.
#[verifier::external_body]
pub(crate) fn push_bind_opt_int(q: &mut Statement, value: Option<i32>)
    requires
        statement_open(*old(q)),
    ensures
        statement_open(*final(q)),
        statement_text(*final(q)) == statement_text(*old(q)) + placeholder(
            statement_binds(*old(q)).len() + 1,
        ),
        statement_binds(*final(q)) == statement_binds(*old(q)).push(Bind::OptInt(value)),
{
    q.builder.push_bind(value);
}

/// Binds a text or, for `None`, `NULL` through `QueryBuilder::push_bind`.
/// The builder panics on a text of more than `i32::MAX` bytes, which the
/// precondition leaves out.
#[verifier::external_body]
pub(crate) fn push_bind_opt_text(q: &mut Statement, value: &Option<String>)
    requires
        statement_open(*old(q)),
        opt_text_fits(*value),
    ensures
        statement_open(*final(q)),
        statement_text(*final(q)) == statement_text(*old(q)) + placeholder(
            statement_binds(*old(q)).len() + 1,
        ),
        statement_binds(*final(q)) == statement_binds(*old(q)).push(
            Bind::OptText(opt_text_of(*value)),
        ),
{
    q.builder.push_bind(value.as_deref());
}

/// Binds an array of 32-bit integers through `QueryBuilder::push_bind`. The
/// builder panics on an array whose encoding, a header of 20 bytes and 8
/// bytes for each element, exceeds `i32::MAX` bytes.
#[verifier::external_body]
pub(crate) fn push_bind_ints(q: &mut Statement, values: &Vec<i32>)
    requires
        statement_open(*old(q)),
        ints_fit(values@.len()),
    ensures
        statement_open(*final(q)),
        statement_text(*final(q)) == statement_text(*old(q)) + placeholder(
            statement_binds(*old(q)).len() + 1,
        ),
        statement_binds(*final(q)) == statement_binds(*old(q)).push(Bind::Ints(values@)),
{
    q.builder.push_bind(values.as_slice());
}

/// Binds an array of texts through `QueryBuilder::push_bind`. The builder
/// panics on an array whose encoding, a header of 20 bytes and for each
/// element 4 bytes and its UTF-8 bytes, exceeds `i32::MAX` bytes.
#[verifier::external_body]
pub(crate) fn push_bind_texts(q: &mut Statement, values: &Vec<String>)
    requires
        statement_open(*old(q)),
        texts_fit(texts_of(values@)),
    ensures
        statement_open(*final(q)),
        statement_text(*final(q)) == statement_text(*old(q)) + placeholder(
            statement_binds(*old(q)).len() + 1,
        ),
        statement_binds(*final(q)) == statement_binds(*old(q)).push(Bind::Texts(texts_of(values@))),
{
    q.builder.push_bind(values.as_slice());
}

/// Whether `value` is short enough to be bound.
pub fn text_can_bind(value: &str) -> (fits: bool)
    ensures
        fits == text_fits(value@),
{
    value.as_bytes().len() <= MAX_VALUE_BYTES
}

/// Whether `value` is absent or short enough to be bound.
pub fn opt_text_can_bind(value: &Option<String>) -> (fits: bool)
    ensures
        fits == opt_text_fits(*value),
{
    match value {
        Some(v) => text_can_bind(v.as_str()),
        None => true,
    }
}

/// Whether an array of `values.len()` integers is short enough to be bound.
pub fn ints_can_bind(values: &Vec<i32>) -> (fits: bool)
    ensures
        fits == ints_fit(values@.len()),
{
    values.len() <= (MAX_VALUE_BYTES - ARRAY_HEADER_BYTES) / (ELEMENT_HEADER_BYTES + 4)
}

/// Adding a text to an array only adds bytes.
pub proof fn lemma_texts_bytes_grow(values: Seq<Seq<char>>, n: int)
    requires
        0 <= n <= values.len(),
    ensures
        texts_bytes(values.take(n)) <= texts_bytes(values),
    decreases values.len() - n,
{
    if n < values.len() {
        lemma_texts_bytes_grow(values, n + 1);
        assert(values.take(n + 1).drop_last() =~= values.take(n));
    } else {
        assert(values.take(n) =~= values);
    }
}

/// Whether the array of texts `values` is short enough to be bound.
pub fn texts_can_bind(values: &Vec<String>) -> (fits: bool)
    ensures
        fits == texts_fit(texts_of(values@)),
{
    let ghost all = texts_of(values@);
    let mut total: usize = ARRAY_HEADER_BYTES;
    let mut i: usize = 0;
    while i < values.len()
        invariant
            i <= values.len(),
            all == texts_of(values@),
            total == ARRAY_HEADER_BYTES + texts_bytes(all.take(i as int)),
            total <= MAX_VALUE_BYTES,
        decreases values.len() - i,
    {
        let size = values[i].as_str().as_bytes().len();
        proof {
            assert(all.take(i + 1).drop_last() =~= all.take(i as int));
            assert(all.take(i + 1).last() == values@[i as int]@);
            lemma_texts_bytes_grow(all, i + 1);
        }
        if size > MAX_VALUE_BYTES - ELEMENT_HEADER_BYTES || total > MAX_VALUE_BYTES
            - ELEMENT_HEADER_BYTES - size {
            return false;
        }
        total = total + ELEMENT_HEADER_BYTES + size;
        i += 1;
    }
    proof {
        assert(all.take(i as int) =~= all);
    }
    true
}

} // verus!
