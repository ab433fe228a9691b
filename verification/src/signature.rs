//! Signature tables: ordered lists of known values, and the three ways in
//! which the strings observed on a host are held against them.

use crate::text::{
    agrees_at, begins_with, chars_of, contains, holds, lemma_occurs_at_pointwise, occurs_at,
    rows_from, rows_of, same_chars, starts_with, views_of,
};
use vstd::prelude::*;

verus! {

/// How an observed string is compared with a pattern of a table.
#[derive(Clone, Copy, Debug, PartialEq, Eq)]
pub enum MatchMode {
    /// The observed string is the pattern.
    Exact,
    /// The pattern stands somewhere in the observed string.
    Substring,
    /// The observed string begins with the pattern.
    Prefix,
}

/// `subject` matches `pattern` in the given mode.
pub open spec fn mode_matches(mode: MatchMode, subject: Seq<char>, pattern: Seq<char>) -> bool {
    match mode {
        MatchMode::Exact => subject == pattern,
        MatchMode::Substring => contains(subject, pattern),
        MatchMode::Prefix => starts_with(subject, pattern),
    }
}

/// One of `subjects` matches `pattern`.
pub open spec fn observed(mode: MatchMode, subjects: Seq<Seq<char>>, pattern: Seq<char>) -> bool {
    exists|j: int| 0 <= j < subjects.len() && mode_matches(mode, #[trigger] subjects[j], pattern)
}

/// One of `subjects` matches one of `patterns`.
pub open spec fn any_observed(
    mode: MatchMode,
    subjects: Seq<Seq<char>>,
    patterns: Seq<Seq<char>>,
) -> bool {
    exists|i: int| 0 <= i < patterns.len() && observed(mode, subjects, #[trigger] patterns[i])
}

/// Whether `subject` matches `pattern` in the given mode.
pub fn mode_check(mode: MatchMode, subject: &Vec<char>, pattern: &Vec<char>) -> (found: bool)
    ensures
        found == mode_matches(mode, subject@, pattern@),
{
    match mode {
        MatchMode::Exact => same_chars(subject, pattern),
        MatchMode::Substring => holds(subject, pattern),
        MatchMode::Prefix => begins_with(subject, pattern),
    }
}

/// Whether one of `subjects` matches `pattern`.
pub fn observed_among(
    mode: MatchMode,
    subjects: &Vec<Vec<char>>,
    pattern: &Vec<char>,
) -> (found: bool)
    ensures
        found == observed(mode, rows_of(subjects@), pattern@),
{
    let mut j: usize = 0;
    while j < subjects.len()
        invariant
            j <= subjects.len(),
            forall|k: int|
                0 <= k < j ==> !mode_matches(mode, #[trigger] rows_of(subjects@)[k], pattern@),
        decreases subjects.len() - j,
    {
        if mode_check(mode, &subjects[j], pattern) {
            assert(mode_matches(mode, rows_of(subjects@)[j as int], pattern@));
            return true;
        }
        j += 1;
    }
    false
}

/// An ordered list of known values. Its view is the list of their characters.
#[derive(Clone, Debug)]
pub struct SignatureTable {
    patterns: Vec<String>,
}

impl View for SignatureTable {
    type V = Seq<Seq<char>>;

    closed spec fn view(&self) -> Seq<Seq<char>> {
        views_of(self.patterns@)
    }
}

impl SignatureTable {
    /// The table without patterns.
    pub fn new() -> (table: Self)
        ensures
            table@ == Seq::<Seq<char>>::empty(),
    {
        let table = SignatureTable { patterns: Vec::new() };
        assert(table@ =~= Seq::<Seq<char>>::empty());
        table
    }

    /// The table that holds `patterns`, in their order.
    pub fn from_patterns(patterns: Vec<String>) -> (table: Self)
        ensures
            table@ == views_of(patterns@),
    {
        SignatureTable { patterns }
    }

    /// Adds `pattern` at the end.
    pub fn push(&mut self, pattern: &str)
        ensures
            final(self)@ == old(self)@.push(pattern@),
    {
        self.patterns.push(pattern.to_owned());
        assert(self@ =~= old(self)@.push(pattern@));
    }

    /// The number of patterns.
    pub fn len(&self) -> (n: usize)
        ensures
            n == self@.len(),
    {
        self.patterns.len()
    }

    /// Whether the table holds no pattern.
    pub fn is_empty(&self) -> (empty: bool)
        ensures
            empty == (self@.len() == 0),
    {
        self.patterns.len() == 0
    }

    /// The pattern at position `i`, if the table has that many.
    pub fn pattern(&self, i: usize) -> (found: Option<&str>)
        ensures
            i < self@.len() ==> (found matches Some(p) && p@ == self@[i as int]),
            i >= self@.len() ==> found is None,
    {
        if i < self.patterns.len() {
            Some(self.patterns[i].as_str())
        } else {
            None
        }
    }

    /// Whether one of the rows `subjects` matches a pattern of the table.
    pub fn any_observed_among(&self, mode: MatchMode, subjects: &Vec<Vec<char>>) -> (found: bool)
        ensures
            found == any_observed(mode, rows_of(subjects@), self@),
    {
        let mut i: usize = 0;
        while i < self.patterns.len()
            invariant
                i <= self.patterns.len(),
                forall|k: int|
                    0 <= k < i ==> !observed(mode, rows_of(subjects@), #[trigger] self@[k]),
            decreases self.patterns.len() - i,
        {
            let pattern = chars_of(self.patterns[i].as_str());
            if observed_among(mode, subjects, &pattern) {
                assert(observed(mode, rows_of(subjects@), self@[i as int]));
                return true;
            }
            i += 1;
        }
        false
    }

    /// Whether one of `subjects` matches a pattern of the table.
    pub fn matches_any(&self, mode: MatchMode, subjects: &Vec<String>) -> (found: bool)
        ensures
            found == any_observed(mode, views_of(subjects@), self@),
    {
        let rows = rows_from(subjects);
        self.any_observed_among(mode, &rows)
    }

    /// Whether `subject` matches a pattern of the table.
    pub fn matches(&self, mode: MatchMode, subject: &str) -> (found: bool)
        ensures
            found == any_observed(mode, seq![subject@], self@),
    {
        let mut rows: Vec<Vec<char>> = Vec::new();
        rows.push(chars_of(subject));
        assert(rows_of(rows@) =~= seq![subject@]);
        self.any_observed_among(mode, &rows)
    }
}

/// A table without patterns matches nothing, whatever is observed and in
/// whatever mode.
pub proof fn law_empty_table_matches_nothing(
    mode: MatchMode,
    subjects: Seq<Seq<char>>,
    patterns: Seq<Seq<char>>,
)
    requires
        patterns.len() == 0,
    ensures
        !any_observed(mode, subjects, patterns),
{
}

/// Where nothing is observed, nothing matches.
pub proof fn law_nothing_observed_matches_nothing(
    mode: MatchMode,
    subjects: Seq<Seq<char>>,
    patterns: Seq<Seq<char>>,
)
    requires
        subjects.len() == 0,
    ensures
        !any_observed(mode, subjects, patterns),
{
}

/// One of `subjects` matches one of `patterns` exactly when some pair of them
/// matches.
pub proof fn lemma_observed_pairs(
    mode: MatchMode,
    subjects: Seq<Seq<char>>,
    patterns: Seq<Seq<char>>,
)
    ensures
        any_observed(mode, subjects, patterns) <==> exists|i: int, j: int|
            0 <= i < patterns.len() && 0 <= j < subjects.len() && mode_matches(
                mode,
                #[trigger] subjects[j],
                #[trigger] patterns[i],
            ),
{
    if any_observed(mode, subjects, patterns) {
        let i = choose|i: int|
            0 <= i < patterns.len() && observed(mode, subjects, #[trigger] patterns[i]);
        let j = choose|j: int|
            0 <= j < subjects.len() && mode_matches(mode, #[trigger] subjects[j], patterns[i]);
        assert(mode_matches(mode, subjects[j], patterns[i]));
    }
    if exists|i: int, j: int|
        0 <= i < patterns.len() && 0 <= j < subjects.len() && mode_matches(
            mode,
            #[trigger] subjects[j],
            #[trigger] patterns[i],
        ) {
        let (i, j) = choose|i: int, j: int|
            0 <= i < patterns.len() && 0 <= j < subjects.len() && mode_matches(
                mode,
                #[trigger] subjects[j],
                #[trigger] patterns[i],
            );
        assert(observed(mode, subjects, patterns[i]));
    }
}

/// Every string of `fewer` is among `more`.
pub open spec fn all_kept(fewer: Seq<Seq<char>>, more: Seq<Seq<char>>) -> bool {
    forall|j: int| 0 <= j < fewer.len() ==> more.contains(#[trigger] fewer[j])
}

/// Evidence only adds: where every observed string stays observed, a match
/// stays a match.
pub proof fn law_more_observed_keeps_match(
    mode: MatchMode,
    fewer: Seq<Seq<char>>,
    more: Seq<Seq<char>>,
    patterns: Seq<Seq<char>>,
)
    requires
        all_kept(fewer, more),
    ensures
        any_observed(mode, fewer, patterns) ==> any_observed(mode, more, patterns),
{
    if any_observed(mode, fewer, patterns) {
        let i = choose|i: int|
            0 <= i < patterns.len() && observed(mode, fewer, #[trigger] patterns[i]);
        let j = choose|j: int|
            0 <= j < fewer.len() && mode_matches(mode, #[trigger] fewer[j], patterns[i]);
        let k = choose|k: int| 0 <= k < more.len() && more[k] == fewer[j];
        assert(mode_matches(mode, more[k], patterns[i]));
        assert(observed(mode, more, patterns[i]));
    }
}

/// What each mode compares: an exact match is equality of the two strings, a
/// substring match finds the pattern at some position of the observed string,
/// and a prefix match finds it at the first position. The characters are
/// compared as they are, so that a difference of case is a difference.
pub proof fn law_match_modes(subject: Seq<char>, pattern: Seq<char>)
    ensures
        mode_matches(MatchMode::Exact, subject, pattern) <==> subject.len() == pattern.len()
            && agrees_at(subject, pattern, 0),
        mode_matches(MatchMode::Prefix, subject, pattern) <==> agrees_at(subject, pattern, 0),
        mode_matches(MatchMode::Substring, subject, pattern) <==> exists|at: int| #[trigger]
            agrees_at(subject, pattern, at),
        mode_matches(MatchMode::Exact, subject, pattern) ==> mode_matches(
            MatchMode::Prefix,
            subject,
            pattern,
        ),
        mode_matches(MatchMode::Prefix, subject, pattern) ==> mode_matches(
            MatchMode::Substring,
            subject,
            pattern,
        ),
{
    lemma_occurs_at_pointwise(subject, pattern, 0);
    if subject.len() == pattern.len() {
        assert(subject.subrange(0, subject.len() as int) =~= subject);
    }
    if mode_matches(MatchMode::Substring, subject, pattern) {
        let at = choose|at: int| occurs_at(subject, pattern, at);
        lemma_occurs_at_pointwise(subject, pattern, at);
    }
    if exists|at: int| #[trigger] agrees_at(subject, pattern, at) {
        let at = choose|at: int| #[trigger] agrees_at(subject, pattern, at);
        lemma_occurs_at_pointwise(subject, pattern, at);
    }
}

} // verus!
