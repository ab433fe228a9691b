//! Matching primitives over sequences of characters.
//!
//! Every comparison in this crate is made on characters, one for one and with
//! regard to case. The specifications speak of `Seq<char>`, the view of a
//! string; the executable functions work on `Vec<char>`.

use vstd::prelude::*;

verus! {

/// `needle` stands in `hay` at position `at`.
pub open spec fn occurs_at(hay: Seq<char>, needle: Seq<char>, at: int) -> bool {
    &&& 0 <= at
    &&& at + needle.len() <= hay.len()
    &&& hay.subrange(at, at + needle.len()) == needle
}

/// `hay` begins with `needle`.
pub open spec fn starts_with(hay: Seq<char>, needle: Seq<char>) -> bool {
    occurs_at(hay, needle, 0)
}

/// `needle` stands somewhere in `hay`.
pub open spec fn contains(hay: Seq<char>, needle: Seq<char>) -> bool {
    exists|at: int| occurs_at(hay, needle, at)
}

/// The characters with the Unicode property `White_Space`.
pub open spec fn is_white_space(c: char) -> bool {
    let u = c as u32;
    ||| 0x09 <= u <= 0x0D
    ||| u == 0x20
    ||| u == 0x85
    ||| u == 0xA0
    ||| u == 0x1680
    ||| 0x2000 <= u <= 0x200A
    ||| u == 0x2028
    ||| u == 0x2029
    ||| u == 0x202F
    ||| u == 0x205F
    ||| u == 0x3000
}

/// How many characters of white space `s` begins with.
pub open spec fn leading_white_space(s: Seq<char>) -> nat
    decreases s.len(),
{
    if s.len() > 0 && is_white_space(s[0]) {
        1 + leading_white_space(s.drop_first())
    } else {
        0
    }
}

/// How many characters of white space `s` ends with.
pub open spec fn trailing_white_space(s: Seq<char>) -> nat
    decreases s.len(),
{
    if s.len() > 0 && is_white_space(s.last()) {
        1 + trailing_white_space(s.drop_last())
    } else {
        0
    }
}

/// `s` without the white space it begins with.
pub open spec fn trim_start(s: Seq<char>) -> Seq<char> {
    s.skip(leading_white_space(s) as int)
}

/// `s` without the white space it ends with.
pub open spec fn trim_end(s: Seq<char>) -> Seq<char> {
    s.take(s.len() - trailing_white_space(s))
}

/// `s` without the white space on either side.
pub open spec fn trim(s: Seq<char>) -> Seq<char> {
    trim_end(trim_start(s))
}

/// The position of the first `c` in `s`, or the length of `s` if it holds
/// none.
pub open spec fn position_of(s: Seq<char>, c: char) -> nat
    decreases s.len(),
{
    if s.len() == 0 || s[0] == c {
        0
    } else {
        1 + position_of(s.drop_first(), c)
    }
}

/// `line` without one carriage return at its end.
pub open spec fn strip_carriage_return(line: Seq<char>) -> Seq<char> {
    if line.len() > 0 && line.last() == '\r' {
        line.drop_last()
    } else {
        line
    }
}

/// The lines of `s`. A line ends at a line feed, or at a carriage return
/// directly followed by one; the terminator belongs to no line. What follows
/// the last line feed is a line only if it is not empty, and keeps a carriage
/// return at its end.
pub open spec fn lines(s: Seq<char>) -> Seq<Seq<char>>
    decreases s.len(),
{
    if s.len() == 0 {
        Seq::empty()
    } else {
        let n = position_of(s, '\n') as int;
        if n >= s.len() {
            seq![s]
        } else {
            seq![strip_carriage_return(s.take(n))] + lines(s.skip(n + 1))
        }
    }
}

/// The views of `strings`, in order.
pub open spec fn views_of(strings: Seq<String>) -> Seq<Seq<char>> {
    Seq::new(strings.len(), |i: int| strings[i]@)
}

/// The views of `rows`, in order.
pub open spec fn rows_of(rows: Seq<Vec<char>>) -> Seq<Seq<char>> {
    Seq::new(rows.len(), |i: int| rows[i]@)
}

/// The white space that `s` begins with ends at the first character that is
/// none.
pub proof fn lemma_leading_white_space(s: Seq<char>)
    ensures
        leading_white_space(s) <= s.len(),
        forall|k: int| 0 <= k < leading_white_space(s) ==> is_white_space(s[k]),
        leading_white_space(s) < s.len() ==> !is_white_space(s[leading_white_space(s) as int]),
    decreases s.len(),
{
    if s.len() > 0 && is_white_space(s[0]) {
        let rest = s.drop_first();
        lemma_leading_white_space(rest);
        assert forall|k: int| 0 <= k < leading_white_space(s) implies is_white_space(s[k]) by {
            if k > 0 {
                assert(s[k] == rest[k - 1]);
            }
        }
        if leading_white_space(s) < s.len() {
            assert(s[leading_white_space(s) as int] == rest[leading_white_space(rest) as int]);
        }
    }
}

/// The white space that `s` ends with begins after the last character that is
/// none.
pub proof fn lemma_trailing_white_space(s: Seq<char>)
    ensures
        trailing_white_space(s) <= s.len(),
        forall|k: int| s.len() - trailing_white_space(s) <= k < s.len() ==> is_white_space(s[k]),
        trailing_white_space(s) < s.len() ==> !is_white_space(
            s[s.len() - trailing_white_space(s) - 1],
        ),
    decreases s.len(),
{
    if s.len() > 0 && is_white_space(s.last()) {
        let rest = s.drop_last();
        lemma_trailing_white_space(rest);
        assert forall|k: int|
            s.len() - trailing_white_space(s) <= k < s.len() implies is_white_space(s[k]) by {
            if k < s.len() - 1 {
                assert(s[k] == rest[k]);
            }
        }
        if trailing_white_space(s) < s.len() {
            assert(s[s.len() - trailing_white_space(s) - 1] == rest[rest.len()
                - trailing_white_space(rest) - 1]);
        }
    }
}

/// What trimming leaves: a piece of `s` with nothing but white space before
/// and after it that, unless it is empty, neither begins nor ends with white
/// space. It is empty exactly when `s` holds nothing but white space.
pub proof fn law_trim(s: Seq<char>)
    ensures
        exists|from: int, to: int|
            {
                &&& 0 <= from <= to <= s.len()
                &&& trim(s) == #[trigger] s.subrange(from, to)
                &&& forall|k: int| 0 <= k < from ==> is_white_space(s[k])
                &&& forall|k: int| to <= k < s.len() ==> is_white_space(s[k])
            },
        trim(s).len() > 0 ==> !is_white_space(trim(s).first()) && !is_white_space(trim(s).last()),
        trim(s).len() == 0 <==> forall|k: int| 0 <= k < s.len() ==> is_white_space(s[k]),
{
    lemma_leading_white_space(s);
    let from = leading_white_space(s) as int;
    let kept = trim_start(s);
    lemma_trailing_white_space(kept);
    let to = s.len() - trailing_white_space(kept);
    assert(trim(s) =~= s.subrange(from, to));
    assert forall|k: int| to <= k < s.len() implies is_white_space(s[k]) by {
        assert(s[k] == kept[k - from]);
    }
    if trim(s).len() > 0 {
        assert(trim(s).first() == s[from]);
        assert(trim(s).last() == kept[kept.len() - trailing_white_space(kept) - 1]);
    }
    if forall|k: int| 0 <= k < s.len() ==> is_white_space(s[k]) {
        if trim(s).len() > 0 {
            assert(is_white_space(s[from]));
        }
    }
}

/// Where the first `c` of `s` stands, no `c` stands before it.
pub proof fn lemma_position_of(s: Seq<char>, c: char)
    ensures
        position_of(s, c) <= s.len(),
        position_of(s, c) < s.len() ==> s[position_of(s, c) as int] == c,
        forall|k: int| 0 <= k < position_of(s, c) ==> s[k] != c,
    decreases s.len(),
{
    if !(s.len() == 0 || s[0] == c) {
        let rest = s.drop_first();
        lemma_position_of(rest, c);
        assert forall|k: int| 0 <= k < position_of(s, c) implies s[k] != c by {
            if k > 0 {
                assert(s[k] == rest[k - 1]);
            }
        }
        if position_of(s, c) < s.len() {
            assert(s[position_of(s, c) as int] == rest[position_of(rest, c) as int]);
        }
    }
}

/// No line holds a line feed, and a text without a line feed is its own only
/// line, unless it is empty and has none.
pub proof fn law_lines(s: Seq<char>)
    ensures
        forall|l: int, k: int|
            0 <= l < lines(s).len() && 0 <= k < lines(s)[l].len() ==> (#[trigger] lines(
                s,
            )[l][k]) != '\n',
        s.len() == 0 ==> lines(s).len() == 0,
        s.len() > 0 && (forall|k: int| 0 <= k < s.len() ==> s[k] != '\n') ==> lines(s) == seq![s],
    decreases s.len(),
{
    lemma_position_of(s, '\n');
    if s.len() > 0 {
        let n = position_of(s, '\n') as int;
        if n < s.len() {
            let head = strip_carriage_return(s.take(n));
            let rest = s.skip(n + 1);
            law_lines(rest);
            assert forall|l: int, k: int|
                0 <= l < lines(s).len() && 0 <= k < lines(s)[l].len() implies (#[trigger] lines(
                s,
            )[l][k]) != '\n' by {
                if l == 0 {
                    assert(lines(s)[0] == head);
                    assert(head[k] == s[k]);
                } else {
                    assert(lines(s)[l] == lines(rest)[l - 1]);
                }
            }
        }
    }
}

/// `needle` fits into `hay` at position `at`, and each of its characters
/// equals the one of `hay` at its place.
pub open spec fn agrees_at(hay: Seq<char>, needle: Seq<char>, at: int) -> bool {
    &&& 0 <= at <= hay.len() - needle.len()
    &&& forall|k: int| 0 <= k < needle.len() ==> hay[at + k] == needle[k]
}

/// To stand at a position is to agree there, character by character.
pub proof fn lemma_occurs_at_pointwise(hay: Seq<char>, needle: Seq<char>, at: int)
    ensures
        occurs_at(hay, needle, at) <==> agrees_at(hay, needle, at),
{
    if 0 <= at <= hay.len() - needle.len() {
        let part = hay.subrange(at, at + needle.len());
        if part == needle {
            assert forall|k: int| 0 <= k < needle.len() implies hay[at + k] == needle[k] by {
                assert(part[k] == hay[at + k]);
            }
        }
        if agrees_at(hay, needle, at) {
            assert(part =~= needle);
        }
    }
}

/// The characters of `s`, in order.
pub fn chars_of(s: &str) -> (out: Vec<char>)
    ensures
        out@ == s@,
{
    let mut out: Vec<char> = Vec::new();
    for c in it: s.chars()
        invariant
            out@ == it.seq().take(it.index()),
    {
        out.push(c);
    }
    out
}

/// The characters of `v` from `from` up to `to`.
pub(crate) fn copy_range(v: &Vec<char>, from: usize, to: usize) -> (out: Vec<char>)
    requires
        from <= to <= v.len(),
    ensures
        out@ == v@.subrange(from as int, to as int),
{
    let mut out: Vec<char> = Vec::new();
    let mut i: usize = from;
    while i < to
        invariant
            from <= i <= to <= v.len(),
            out@ == v@.subrange(from as int, i as int),
        decreases to - i,
    {
        out.push(v[i]);
        i += 1;
    }
    out
}

/// Whether `c` is white space.
pub fn white_space(c: char) -> (b: bool)
    ensures
        b == is_white_space(c),
{
    let u: u32 = c as u32;
    (0x09 <= u && u <= 0x0D) || u == 0x20 || u == 0x85 || u == 0xA0 || u == 0x1680 || (0x2000 <= u
        && u <= 0x200A) || u == 0x2028 || u == 0x2029 || u == 0x202F || u == 0x205F || u == 0x3000
}

/// Whether `needle` stands in `hay` at position `at`.
pub fn matches_at(hay: &Vec<char>, needle: &Vec<char>, at: usize) -> (found: bool)
    ensures
        found == occurs_at(hay@, needle@, at as int),
{
    if needle.len() > hay.len() || at > hay.len() - needle.len() {
        return false;
    }
    let mut k: usize = 0;
    while k < needle.len()
        invariant
            at + needle.len() <= hay.len(),
            k <= needle.len(),
            forall|j: int| 0 <= j < k ==> hay@[at + j] == needle@[j],
        decreases needle.len() - k,
    {
        if hay[at + k] != needle[k] {
            assert(hay@.subrange(at as int, at + needle@.len())[k as int] == hay@[at + k]);
            return false;
        }
        k += 1;
    }
    assert(hay@.subrange(at as int, at + needle@.len()) =~= needle@);
    true
}

/// Whether `hay` begins with `needle`.
pub fn begins_with(hay: &Vec<char>, needle: &Vec<char>) -> (found: bool)
    ensures
        found == starts_with(hay@, needle@),
{
    matches_at(hay, needle, 0)
}

/// Whether `hay` and `other` hold the same characters.
pub fn same_chars(hay: &Vec<char>, other: &Vec<char>) -> (same: bool)
    ensures
        same == (hay@ == other@),
{
    if hay.len() != other.len() {
        return false;
    }
    let found = matches_at(hay, other, 0);
    proof {
        assert(hay@.subrange(0, hay@.len() as int) =~= hay@);
    }
    found
}

/// The first position at which `needle` stands in `hay`, if there is one.
pub fn find(hay: &Vec<char>, needle: &Vec<char>) -> (at: Option<usize>)
    ensures
        at is Some <==> contains(hay@, needle@),
        at matches Some(i) ==> occurs_at(hay@, needle@, i as int) && forall|j: int|
            0 <= j < i ==> !occurs_at(hay@, needle@, j),
{
    if needle.len() > hay.len() {
        return None;
    }
    let last: usize = hay.len() - needle.len();
    let mut i: usize = 0;
    loop
        invariant
            last == hay.len() - needle.len(),
            i <= last,
            forall|j: int| 0 <= j < i ==> !occurs_at(hay@, needle@, j),
        decreases last - i,
    {
        if matches_at(hay, needle, i) {
            return Some(i);
        }
        if i == last {
            return None;
        }
        i += 1;
    }
}

/// Whether `needle` stands somewhere in `hay`.
pub fn holds(hay: &Vec<char>, needle: &Vec<char>) -> (found: bool)
    ensures
        found == contains(hay@, needle@),
{
    find(hay, needle).is_some()
}

/// `v` without the white space on either side.
pub fn trimmed(v: &Vec<char>) -> (out: Vec<char>)
    ensures
        out@ == trim(v@),
{
    let n: usize = v.len();
    let mut a: usize = 0;
    proof {
        assert(v@.skip(0) =~= v@);
    }
    while a < n && white_space(v[a])
        invariant
            n == v.len(),
            a <= n,
            leading_white_space(v@) == a + leading_white_space(v@.skip(a as int)),
        decreases n - a,
    {
        proof {
            let rest = v@.skip(a as int);
            assert(rest[0] == v@[a as int]);
            assert(rest.drop_first() =~= v@.skip(a + 1));
        }
        a += 1;
    }
    proof {
        let rest = v@.skip(a as int);
        if a < n {
            assert(rest[0] == v@[a as int]);
        }
        assert(leading_white_space(rest) == 0);
    }
    let ghost kept = v@.skip(a as int);
    let mut b: usize = n;
    proof {
        assert(kept.take(n - a) =~= kept);
    }
    while b > a && white_space(v[b - 1])
        invariant
            n == v.len(),
            a <= b <= n,
            kept == v@.skip(a as int),
            trailing_white_space(kept) == (n - b) + trailing_white_space(kept.take(b - a)),
        decreases b,
    {
        proof {
            let head = kept.take(b - a);
            assert(head.last() == v@[b - 1]);
            assert(head.drop_last() =~= kept.take(b - 1 - a));
        }
        b -= 1;
    }
    proof {
        let head = kept.take(b - a);
        if b > a {
            assert(head.last() == v@[b - 1]);
        }
        assert(trailing_white_space(head) == 0);
        assert(kept.take(kept.len() - trailing_white_space(kept)) =~= v@.subrange(
            a as int,
            b as int,
        ));
    }
    copy_range(v, a, b)
}

/// The position of the first `c` in `v` at or after `from`, or the length of
/// `v` if none follows.
pub fn scan_to(v: &Vec<char>, from: usize, c: char) -> (end: usize)
    ensures
        from <= v.len() ==> from <= end <= v.len() && end == from + position_of(
            v@.skip(from as int),
            c,
        ),
        from > v.len() ==> end == v.len(),
{
    let n: usize = v.len();
    if from > n {
        return n;
    }
    let mut end: usize = from;
    while end < n && v[end] != c
        invariant
            n == v.len(),
            from <= end <= n,
            position_of(v@.skip(from as int), c) == (end - from) + position_of(
                v@.skip(end as int),
                c,
            ),
        decreases n - end,
    {
        proof {
            let tail = v@.skip(end as int);
            assert(tail[0] == v@[end as int]);
            assert(tail.drop_first() =~= v@.skip(end + 1));
        }
        end += 1;
    }
    proof {
        let tail = v@.skip(end as int);
        if end < n {
            assert(tail[0] == v@[end as int]);
        }
        assert(position_of(tail, c) == 0);
    }
    end
}

/// The lines of `v`.
pub fn split_lines(v: &Vec<char>) -> (out: Vec<Vec<char>>)
    ensures
        rows_of(out@) == lines(v@),
{
    let n: usize = v.len();
    let mut out: Vec<Vec<char>> = Vec::new();
    let mut pos: usize = 0;
    proof {
        assert(v@.skip(0) =~= v@);
        assert(rows_of(out@) + lines(v@) =~= lines(v@));
    }
    while pos < n
        invariant
            n == v.len(),
            pos <= n,
            lines(v@) == rows_of(out@) + lines(v@.skip(pos as int)),
        decreases n - pos,
    {
        let ghost rest = v@.skip(pos as int);
        let ghost before = rows_of(out@);
        let end: usize = scan_to(v, pos, '\n');
        proof {
            assert(rest.take(end - pos) =~= v@.subrange(pos as int, end as int));
        }
        if end == n {
            let line = copy_range(v, pos, end);
            proof {
                assert(line@ =~= rest);
                assert(lines(rest) =~= seq![rest]);
                assert(v@.skip(n as int).len() == 0);
            }
            out.push(line);
            pos = n;
            proof {
                assert(rows_of(out@) =~= before.push(rest));
                assert(lines(v@) =~= rows_of(out@) + lines(v@.skip(pos as int)));
            }
        } else {
            let mut stop: usize = end;
            if stop > pos && v[stop - 1] == '\r' {
                stop -= 1;
            }
            let line = copy_range(v, pos, stop);
            proof {
                let whole = rest.take(end - pos);
                if end > pos {
                    assert(whole.last() == v@[end - 1]);
                }
                assert(line@ =~= strip_carriage_return(whole));
                assert(rest.skip(end - pos + 1) =~= v@.skip(end + 1));
                assert(lines(rest) =~= seq![line@] + lines(v@.skip(end + 1)));
            }
            out.push(line);
            pos = end + 1;
            proof {
                assert(rows_of(out@) =~= before.push(line@));
                assert(lines(v@) =~= rows_of(out@) + lines(v@.skip(pos as int)));
            }
        }
    }
    proof {
        assert(v@.skip(pos as int).len() == 0);
        assert(lines(v@) =~= rows_of(out@));
    }
    out
}

/// The characters of each of `strings`, in order.
pub fn rows_from(strings: &Vec<String>) -> (out: Vec<Vec<char>>)
    ensures
        rows_of(out@) == views_of(strings@),
{
    let mut out: Vec<Vec<char>> = Vec::new();
    let mut i: usize = 0;
    while i < strings.len()
        invariant
            i <= strings.len(),
            out@.len() == i,
            forall|k: int| 0 <= k < i ==> (#[trigger] out@[k])@ == strings@[k]@,
        decreases strings.len() - i,
    {
        out.push(chars_of(strings[i].as_str()));
        i += 1;
    }
    assert(rows_of(out@) =~= views_of(strings@));
    out
}

} // verus!
