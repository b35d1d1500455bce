//! The persistence store of saved photos.
//!
//! The store is a single collection of records, one per saved photo, each
//! holding the photo's URL. Records are only ever appended: nothing
//! updates, deduplicates or deletes them. The collection may live in
//! memory for the process lifetime, or be mirrored to an append-only
//! line-delimited log file whose encoding is specified here.

use vstd::prelude::*;
use crate::errors::AppError;

verus! {

/// The collection of saved photo records, in save order.
pub struct DogStore {
    records: Vec<String>,
}

impl View for DogStore {
    type V = Seq<Seq<char>>;

    closed spec fn view(&self) -> Seq<Seq<char>> {
        self.records@.map_values(|s: String| s@)
    }
}

impl DogStore {
    /// An empty store, as schema definition leaves it.
    pub fn new() -> (s: DogStore)
        ensures
            s@ == Seq::<Seq<char>>::empty(),
    {
        DogStore { records: Vec::new() }
    }

    /// How many photos have been saved.
    pub fn len(&self) -> (n: usize)
        ensures
            n == self@.len(),
    {
        self.records.len()
    }

    /// The URL of the `i`-th saved photo, in save order.
    pub fn get(&self, i: usize) -> (r: &str)
        requires
            i < self@.len(),
        ensures
            r@ == self@[i as int],
    {
        self.records[i].as_str()
    }

    /// Saves a photo URL into the in-memory store.
    ///
    /// An empty URL is rejected with a persistence error and the store is
    /// untouched; any other URL is appended as one new record, after all
    /// existing ones, which are never changed.
    pub fn save_dog(&mut self, image: String) -> (r: Result<(), AppError>)
        ensures
            image@.len() == 0 ==> (r matches Err(e)
                && e matches AppError::DatabaseOpError(d)
                && d@ == "cannot save an empty photo URL"@
                && final(self)@ == old(self)@),
            image@.len() > 0 ==> (r is Ok && final(self)@ == old(self)@.push(image@)),
    {
        match validate_save(image.as_str()) {
            Ok(_) => {
                self.records.push(image);
                Ok(())
            },
            Err(e) => Err(e),
        }
    }

    /// Records the outcome of a durable backing write of one photo URL,
    /// made by the caller after `validate_save` accepted the URL.
    ///
    /// A successful write appends the record; a failed write, reported by
    /// the backend with its own text, leaves the store exactly as it was —
    /// no partial record becomes visible — and comes back as a persistence
    /// error carrying that text.
    pub fn commit_save(&mut self, image: String, write: Result<(), String>) -> (r: Result<
        (),
        AppError,
    >)
        requires
            image@.len() > 0,
        ensures
            write is Ok ==> (r is Ok && final(self)@ == old(self)@.push(image@)),
            write matches Err(m) ==> (r matches Err(e)
                && e matches AppError::DatabaseOpError(d)
                && d@ == m@
                && final(self)@ == old(self)@),
    {
        match write {
            Ok(_) => {
                self.records.push(image);
                Ok(())
            },
            Err(m) => Err(AppError::DatabaseOpError(m)),
        }
    }
}

/// Decides whether a URL may be saved: only a non-empty URL is accepted,
/// an empty one is rejected with a persistence error.
pub fn validate_save(image: &str) -> (r: Result<(), AppError>)
    ensures
        image@.len() > 0 ==> r is Ok,
        image@.len() == 0 ==> (r matches Err(e)
            && e matches AppError::DatabaseOpError(d)
            && d@ == "cannot save an empty photo URL"@),
{
    if image.is_empty() {
        Err(AppError::DatabaseOpError(String::from_str("cannot save an empty photo URL")))
    } else {
        Ok(())
    }
}

/// One line of the log file: the URL followed by a newline.
pub open spec fn log_line(url: Seq<char>) -> Seq<char> {
    url + seq!['\n']
}

/// The whole log file for a sequence of saved URLs: their lines, in save
/// order.
pub open spec fn log_encoding(rs: Seq<Seq<char>>) -> Seq<char>
    decreases rs.len(),
{
    if rs.len() == 0 {
        Seq::<char>::empty()
    } else {
        log_encoding(rs.drop_last()) + log_line(rs.last())
    }
}

/// The line the caller appends to the log file for one saved URL.
pub fn encode_line(url: &str) -> (r: String)
    ensures
        r@ == log_line(url@),
{
    proof {
        reveal_strlit("\n");
    }
    let r = String::from_str(url).concat("\n");
    proof {
        assert(r@ =~= log_line(url@));
    }
    r
}

/// Whether a URL is free of newlines, so that it fits on one log line.
pub open spec fn newline_free(u: Seq<char>) -> bool {
    forall|j: int| 0 <= j < u.len() ==> u[j] != '\n'
}

/// The newline-terminated lines of a log, split on the newlines; text
/// after the last newline forms no line. `cur` carries the characters of
/// the line being read.
pub open spec fn split_lines_from(s: Seq<char>, cur: Seq<char>) -> Seq<Seq<char>>
    decreases s.len(),
{
    if s.len() == 0 {
        Seq::<Seq<char>>::empty()
    } else if s[0] == '\n' {
        seq![cur] + split_lines_from(s.drop_first(), Seq::<char>::empty())
    } else {
        split_lines_from(s.drop_first(), cur.push(s[0]))
    }
}

/// The newline-terminated lines of a log file.
pub open spec fn split_lines(s: Seq<char>) -> Seq<Seq<char>> {
    split_lines_from(s, Seq::<char>::empty())
}

/// How many times a character occurs in a sequence.
pub open spec fn count_char(s: Seq<char>, c: char) -> int
    decreases s.len(),
{
    if s.len() == 0 {
        0
    } else {
        count_char(s.drop_last(), c) + (if s.last() == c {
            1int
        } else {
            0int
        })
    }
}

/// Character counts add up over concatenation.
pub proof fn lemma_count_char_add(a: Seq<char>, b: Seq<char>, c: char)
    ensures
        count_char(a + b, c) == count_char(a, c) + count_char(b, c),
    decreases b.len(),
{
    if b.len() == 0 {
        assert(a + b =~= a);
    } else {
        assert((a + b).drop_last() =~= a + b.drop_last());
        assert((a + b).last() == b.last());
        lemma_count_char_add(a, b.drop_last(), c);
    }
}

/// Append-only durability of the log file: saving one more URL appends
/// exactly that URL's line after the existing contents, which stay in
/// place unchanged — the old file is a prefix of the new one, so no line
/// is ever modified or removed by any save.
pub proof fn lemma_log_append_only(rs: Seq<Seq<char>>, url: Seq<char>)
    ensures
        log_encoding(rs.push(url)) == log_encoding(rs) + log_line(url),
        log_encoding(rs).is_prefix_of(log_encoding(rs.push(url))),
{
    assert(rs.push(url).drop_last() =~= rs);
    assert(rs.push(url).last() == url);
}

/// Splitting a log that starts with one newline-free line yields that
/// line — with whatever was already read before it — and then the lines
/// of the rest.
proof fn lemma_split_one_line(url: Seq<char>, rest: Seq<char>, cur: Seq<char>)
    requires
        newline_free(url),
    ensures
        split_lines_from(url + seq!['\n'] + rest, cur) == seq![cur + url] + split_lines_from(
            rest,
            Seq::<char>::empty(),
        ),
    decreases url.len(),
{
    let s = url + seq!['\n'] + rest;
    if url.len() == 0 {
        assert(s[0] == '\n');
        assert(s.drop_first() =~= rest);
        assert(cur + url =~= cur);
    } else {
        assert(s[0] == url[0]);
        assert(s.drop_first() =~= url.drop_first() + seq!['\n'] + rest);
        lemma_split_one_line(url.drop_first(), rest, cur.push(url[0]));
        assert(cur.push(url[0]) + url.drop_first() =~= cur + url);
    }
}

/// The log of at least one record is its first record's line followed by
/// the log of the remaining records.
proof fn lemma_log_encoding_first(rs: Seq<Seq<char>>)
    requires
        rs.len() > 0,
    ensures
        log_encoding(rs) == log_line(rs.first()) + log_encoding(rs.drop_first()),
    decreases rs.len(),
{
    if rs.len() == 1 {
        assert(rs.drop_last() =~= Seq::<Seq<char>>::empty());
        assert(rs.drop_first() =~= Seq::<Seq<char>>::empty());
        assert(rs.last() == rs.first());
        assert(log_line(rs.first()) + log_encoding(rs.drop_first()) =~= log_line(rs.first()));
    } else {
        let head = rs.drop_last();
        lemma_log_encoding_first(head);
        assert(head.drop_first() =~= rs.drop_first().drop_last());
        assert(head.first() == rs.first());
        assert(rs.drop_first().last() == rs.last());
        assert(log_encoding(rs) == (log_line(rs.first()) + log_encoding(
            rs.drop_first().drop_last(),
        )) + log_line(rs.last()));
        assert((log_line(rs.first()) + log_encoding(rs.drop_first().drop_last())) + log_line(
            rs.last(),
        ) =~= log_line(rs.first()) + (log_encoding(rs.drop_first().drop_last()) + log_line(
            rs.last(),
        )));
    }
}

/// The log file reads back as exactly the saved URLs: splitting the
/// encoding of N newline-free URLs yields N lines, the i-th line equal to
/// the i-th URL saved — every record is present, unmodified, in save
/// order, and nothing else is in the file.
pub proof fn lemma_log_round_trip(rs: Seq<Seq<char>>)
    requires
        forall|i: int| 0 <= i < rs.len() ==> newline_free(#[trigger] rs[i]),
    ensures
        split_lines(log_encoding(rs)) == rs,
    decreases rs.len(),
{
    if rs.len() == 0 {
        assert(split_lines(log_encoding(rs)) =~= rs);
    } else {
        lemma_log_encoding_first(rs);
        assert(log_line(rs.first()) + log_encoding(rs.drop_first()) =~= rs.first() + seq!['\n']
            + log_encoding(rs.drop_first()));
        lemma_split_one_line(rs.first(), log_encoding(rs.drop_first()), Seq::<char>::empty());
        assert(forall|i: int|
            0 <= i < rs.drop_first().len() ==> #[trigger] rs.drop_first()[i] == rs[i + 1]);
        lemma_log_round_trip(rs.drop_first());
        assert(Seq::<char>::empty() + rs.first() =~= rs.first());
        assert(seq![rs.first()] + rs.drop_first() =~= rs);
    }
}

/// A character absent from a sequence is counted zero times.
proof fn lemma_count_char_zero(s: Seq<char>, c: char)
    requires
        forall|j: int| 0 <= j < s.len() ==> s[j] != c,
    ensures
        count_char(s, c) == 0,
    decreases s.len(),
{
    if s.len() > 0 {
        assert(forall|j: int|
            0 <= j < s.drop_last().len() ==> #[trigger] s.drop_last()[j] == s[j]);
        lemma_count_char_zero(s.drop_last(), c);
    }
}

/// Saving N URLs, none containing a newline, yields a log file with
/// exactly N newline-terminated lines: the line count of the encoding
/// equals the number of records saved.
pub proof fn lemma_log_line_count(rs: Seq<Seq<char>>)
    requires
        forall|i: int| 0 <= i < rs.len() ==> newline_free(#[trigger] rs[i]),
    ensures
        count_char(log_encoding(rs), '\n') == rs.len(),
    decreases rs.len(),
{
    if rs.len() == 0 {
    } else {
        let head = rs.drop_last();
        let last = rs.last();
        assert(forall|i: int| 0 <= i < head.len() ==> #[trigger] head[i] == rs[i]);
        lemma_log_line_count(head);
        lemma_count_char_add(log_encoding(head), log_line(last), '\n');
        lemma_count_char_zero(last, '\n');
        assert(log_line(last).drop_last() =~= last);
        assert(log_line(last).last() == '\n');
        assert(count_char(log_line(last), '\n') == 1);
    }
}

} // verus!
