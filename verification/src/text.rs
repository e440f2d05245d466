//! Text utilities over `&str`, specified on the characters of the string.
//!
//! Every function here says what it returns as a function of the view of its
//! arguments, a `Seq<char>`.

use vstd::prelude::*;
use vstd::string::*;

verus! {

/// The characters that Unicode gives the property `White_Space`.
pub open spec fn is_whitespace(c: char) -> bool {
    let n = c as u32;
    (0x09 <= n && n <= 0x0D) || n == 0x20 || n == 0x85 || n == 0xA0 || n == 0x1680 || (0x2000 <= n
        && n <= 0x200A) || n == 0x2028 || n == 0x2029 || n == 0x202F || n == 0x205F || n == 0x3000
}

/// A set of characters that text is trimmed of or split at.
#[derive(Clone, Copy, Debug)]
pub enum CharSet {
    /// The white space of Unicode.
    Whitespace,
    /// One character.
    One(char),
    /// Any of three characters.
    Three(char, char, char),
}

impl CharSet {
    pub open spec fn has(self, c: char) -> bool {
        match self {
            CharSet::Whitespace => is_whitespace(c),
            CharSet::One(a) => c == a,
            CharSet::Three(a, b, d) => c == a || c == b || c == d,
        }
    }

    pub fn contains(&self, c: char) -> (r: bool)
        ensures
            r == self.has(c),
    {
        match self {
            CharSet::Whitespace => {
                let n: u32 = c as u32;
                (0x09 <= n && n <= 0x0D) || n == 0x20 || n == 0x85 || n == 0xA0 || n == 0x1680 || (
                0x2000 <= n && n <= 0x200A) || n == 0x2028 || n == 0x2029 || n == 0x202F || n
                    == 0x205F || n == 0x3000
            },
            CharSet::One(a) => c == *a,
            CharSet::Three(a, b, d) => c == *a || c == *b || c == *d,
        }
    }
}

/// `s` without its longest prefix of characters in `set`.
pub open spec fn skip_leading(s: Seq<char>, set: CharSet) -> Seq<char>
    decreases s.len(),
{
    if s.len() > 0 && set.has(s[0]) {
        skip_leading(s.skip(1), set)
    } else {
        s
    }
}

/// `s` without its longest suffix of characters in `set`.
pub open spec fn skip_trailing(s: Seq<char>, set: CharSet) -> Seq<char>
    decreases s.len(),
{
    if s.len() > 0 && set.has(s.last()) {
        skip_trailing(s.drop_last(), set)
    } else {
        s
    }
}

/// `s` without white space at either end.
pub open spec fn trimmed(s: Seq<char>) -> Seq<char> {
    skip_trailing(skip_leading(s, CharSet::Whitespace), CharSet::Whitespace)
}

/// Whether `s` holds nothing but white space.
pub open spec fn is_blank(s: Seq<char>) -> bool {
    trimmed(s).len() == 0
}

/// The index of the first character of `s` in `set`.
pub open spec fn first_in(s: Seq<char>, set: CharSet) -> Option<int>
    decreases s.len(),
{
    if s.len() == 0 {
        None
    } else if set.has(s[0]) {
        Some(0)
    } else {
        match first_in(s.skip(1), set) {
            Some(i) => Some(i + 1),
            None => None,
        }
    }
}

/// The index of the last character of `s` in `set`.
pub open spec fn last_in(s: Seq<char>, set: CharSet) -> Option<int>
    decreases s.len(),
{
    if s.len() == 0 {
        None
    } else if set.has(s.last()) {
        Some(s.len() - 1)
    } else {
        last_in(s.drop_last(), set)
    }
}

/// The parts of `s` before and after its first character in `set`.
pub open spec fn split_first(s: Seq<char>, set: CharSet) -> Option<(Seq<char>, Seq<char>)> {
    match first_in(s, set) {
        Some(i) => Some((s.take(i), s.skip(i + 1))),
        None => None,
    }
}

/// The parts of `s` before and after its last character in `set`.
pub open spec fn split_last(s: Seq<char>, set: CharSet) -> Option<(Seq<char>, Seq<char>)> {
    match last_in(s, set) {
        Some(i) => Some((s.take(i), s.skip(i + 1))),
        None => None,
    }
}

/// What `first_in` finds: the least index of a character in `set`.
pub proof fn lemma_first_in(s: Seq<char>, set: CharSet)
    ensures
        match first_in(s, set) {
            Some(i) => 0 <= i < s.len() && set.has(s[i]) && forall|j: int|
                0 <= j < i ==> !set.has(#[trigger] s[j]),
            None => forall|j: int| 0 <= j < s.len() ==> !set.has(#[trigger] s[j]),
        },
    decreases s.len(),
{
    if s.len() > 0 && !set.has(s[0]) {
        let rest = s.skip(1);
        lemma_first_in(rest, set);
        match first_in(rest, set) {
            Some(i) => {
                assert forall|j: int| 0 <= j < i + 1 implies !set.has(#[trigger] s[j]) by {
                    if j > 0 {
                        assert(s[j] == rest[j - 1]);
                    }
                }
            },
            None => {
                assert forall|j: int| 0 <= j < s.len() implies !set.has(#[trigger] s[j]) by {
                    if j > 0 {
                        assert(s[j] == rest[j - 1]);
                    }
                }
            },
        }
    }
}

/// What `last_in` finds: the greatest index of a character in `set`.
pub proof fn lemma_last_in(s: Seq<char>, set: CharSet)
    ensures
        match last_in(s, set) {
            Some(i) => 0 <= i < s.len() && set.has(s[i]) && forall|j: int|
                i < j < s.len() ==> !set.has(#[trigger] s[j]),
            None => forall|j: int| 0 <= j < s.len() ==> !set.has(#[trigger] s[j]),
        },
    decreases s.len(),
{
    if s.len() > 0 && !set.has(s.last()) {
        let init = s.drop_last();
        lemma_last_in(init, set);
        match last_in(init, set) {
            Some(i) => {
                assert forall|j: int| i < j < s.len() implies !set.has(#[trigger] s[j]) by {
                    if j < s.len() - 1 {
                        assert(s[j] == init[j]);
                    }
                }
            },
            None => {
                assert forall|j: int| 0 <= j < s.len() implies !set.has(#[trigger] s[j]) by {
                    if j < s.len() - 1 {
                        assert(s[j] == init[j]);
                    }
                }
            },
        }
    }
}

/// An index that is the least one of a character in `set` is what `first_in` finds.
pub proof fn lemma_first_in_is(s: Seq<char>, set: CharSet, i: int)
    requires
        0 <= i < s.len(),
        set.has(s[i]),
        forall|j: int| 0 <= j < i ==> !set.has(#[trigger] s[j]),
    ensures
        first_in(s, set) == Some(i),
{
    lemma_first_in(s, set);
}

/// Where no character is in `set`, `first_in` and `last_in` find nothing.
pub proof fn lemma_none_in(s: Seq<char>, set: CharSet)
    requires
        forall|j: int| 0 <= j < s.len() ==> !set.has(#[trigger] s[j]),
    ensures
        first_in(s, set) is None,
        last_in(s, set) is None,
{
    lemma_first_in(s, set);
    lemma_last_in(s, set);
}

/// An index that is the greatest one of a character in `set` is what `last_in` finds.
pub proof fn lemma_last_in_is(s: Seq<char>, set: CharSet, i: int)
    requires
        0 <= i < s.len(),
        set.has(s[i]),
        forall|j: int| i < j < s.len() ==> !set.has(#[trigger] s[j]),
    ensures
        last_in(s, set) == Some(i),
{
    lemma_last_in(s, set);
}

/// The characters of a string.
pub fn to_chars(s: &str) -> (v: Vec<char>)
    ensures
        v@ == s@,
{
    let mut v: Vec<char> = Vec::new();
    for c in it: s.chars()
        invariant
            v@ == it.seq().take(it.index() as int),
            it.seq() == s@,
    {
        v.push(c);
    }
    v
}

/// Whether two strings hold the same characters.
pub fn str_eq(a: &str, b: &str) -> (r: bool)
    ensures
        r == (a@ == b@),
{
    let x = to_chars(a);
    let y = to_chars(b);
    if x.len() != y.len() {
        return false;
    }
    let mut i: usize = 0;
    while i < x.len()
        invariant
            i <= x.len(),
            x.len() == y.len(),
            x@ == a@,
            y@ == b@,
            forall|j: int| 0 <= j < i ==> x@[j] == y@[j],
        decreases x.len() - i,
    {
        if x[i] != y[i] {
            assert(a@[i as int] != b@[i as int]);
            return false;
        }
        i += 1;
    }
    assert(x@ =~= y@);
    true
}

/// `s` without the characters of `set` at its start: the end of `s` that begins with its
/// first character outside `set`.
pub fn trim_start_of<'a>(s: &'a str, set: CharSet) -> (r: &'a str)
    ensures
        r@ == skip_leading(s@, set),
        r@.len() <= s@.len(),
        r@ == s@.skip(s@.len() - r@.len()),
        forall|j: int| 0 <= j < s@.len() - r@.len() ==> set.has(#[trigger] s@[j]),
        r@.len() > 0 ==> !set.has(r@[0]),
{
    let cs = to_chars(s);
    let mut i: usize = 0;
    assert(s@.skip(0) =~= s@);
    while i < cs.len() && set.contains(cs[i])
        invariant
            i <= cs.len(),
            cs@ == s@,
            skip_leading(s@, set) == skip_leading(s@.skip(i as int), set),
            forall|j: int| 0 <= j < i ==> set.has(#[trigger] s@[j]),
        decreases cs.len() - i,
    {
        assert(s@.skip(i as int).skip(1) =~= s@.skip(i + 1));
        i += 1;
    }
    assert(s@.subrange(i as int, cs.len() as int) =~= s@.skip(i as int));
    s.substring_char(i, cs.len())
}

/// `s` without the characters of `set` at its end: the start of `s` that ends with its
/// last character outside `set`.
pub fn trim_end_of<'a>(s: &'a str, set: CharSet) -> (r: &'a str)
    ensures
        r@ == skip_trailing(s@, set),
        r@.len() <= s@.len(),
        r@ == s@.take(r@.len() as int),
        forall|j: int| r@.len() <= j < s@.len() ==> set.has(#[trigger] s@[j]),
        r@.len() > 0 ==> !set.has(r@.last()),
{
    let cs = to_chars(s);
    let mut n: usize = cs.len();
    assert(s@.take(cs.len() as int) =~= s@);
    while n > 0 && set.contains(cs[n - 1])
        invariant
            n <= cs.len(),
            cs@ == s@,
            skip_trailing(s@, set) == skip_trailing(s@.take(n as int), set),
            forall|j: int| n <= j < cs.len() ==> set.has(#[trigger] s@[j]),
        decreases n,
    {
        assert(s@.take(n as int).drop_last() =~= s@.take(n - 1));
        n -= 1;
    }
    assert(s@.subrange(0, n as int) =~= s@.take(n as int));
    s.substring_char(0, n)
}

/// `s` without white space at either end: what is left neither begins nor ends with
/// white space.
pub fn trim<'a>(s: &'a str) -> (r: &'a str)
    ensures
        r@ == trimmed(s@),
        r@.len() <= s@.len(),
        r@.len() > 0 ==> !is_whitespace(r@[0]) && !is_whitespace(r@.last()),
{
    let start = trim_start_of(s, CharSet::Whitespace);
    let r = trim_end_of(start, CharSet::Whitespace);
    assert(r@.len() > 0 ==> r@[0] == start@[0]);
    r
}

/// The parts of `s` before and after its first character in `set`, if it has one: the
/// first part holds no character of `set`, and the two parts with that character between
/// them are `s`.
pub fn split_once<'a>(s: &'a str, set: CharSet) -> (r: Option<(&'a str, &'a str)>)
    ensures
        r.deep_view() == split_first(s@, set),
        match r {
            Some((head, tail)) => head@.len() + 1 + tail@.len() == s@.len() && set.has(
                s@[head@.len() as int],
            ) && s@ == head@ + seq![s@[head@.len() as int]] + tail@ && forall|j: int|
                0 <= j < head@.len() ==> !set.has(#[trigger] head@[j]),
            None => forall|j: int| 0 <= j < s@.len() ==> !set.has(#[trigger] s@[j]),
        },
{
    let cs = to_chars(s);
    let mut i: usize = 0;
    while i < cs.len()
        invariant
            i <= cs.len(),
            cs@ == s@,
            forall|j: int| 0 <= j < i ==> !set.has(#[trigger] s@[j]),
        decreases cs.len() - i,
    {
        if set.contains(cs[i]) {
            proof {
                lemma_first_in_is(s@, set, i as int);
                assert(s@.subrange(0, i as int) =~= s@.take(i as int));
                assert(s@.subrange(i + 1, cs.len() as int) =~= s@.skip(i + 1));
                assert(s@ =~= s@.take(i as int) + seq![s@[i as int]] + s@.skip(i + 1));
            }
            return Some((s.substring_char(0, i), s.substring_char(i + 1, cs.len())));
        }
        i += 1;
    }
    proof {
        lemma_none_in(s@, set);
    }
    None
}

/// The parts of `s` before and after its last character in `set`, if it has one: the
/// second part holds no character of `set`, and the two parts with that character between
/// them are `s`.
pub fn rsplit_once<'a>(s: &'a str, set: CharSet) -> (r: Option<(&'a str, &'a str)>)
    ensures
        r.deep_view() == split_last(s@, set),
        match r {
            Some((head, tail)) => head@.len() + 1 + tail@.len() == s@.len() && set.has(
                s@[head@.len() as int],
            ) && s@ == head@ + seq![s@[head@.len() as int]] + tail@ && forall|j: int|
                0 <= j < tail@.len() ==> !set.has(#[trigger] tail@[j]),
            None => forall|j: int| 0 <= j < s@.len() ==> !set.has(#[trigger] s@[j]),
        },
{
    let cs = to_chars(s);
    let mut n: usize = cs.len();
    while n > 0
        invariant
            n <= cs.len(),
            cs@ == s@,
            forall|j: int| n <= j < cs.len() ==> !set.has(#[trigger] s@[j]),
        decreases n,
    {
        if set.contains(cs[n - 1]) {
            proof {
                lemma_last_in_is(s@, set, n - 1);
                assert(s@.subrange(0, n - 1) =~= s@.take(n - 1));
                assert(s@.subrange(n as int, cs.len() as int) =~= s@.skip(n as int));
                assert(s@ =~= s@.take(n - 1) + seq![s@[n - 1]] + s@.skip(n as int));
                assert forall|j: int| 0 <= j < s@.skip(n as int).len() implies !set.has(
                    #[trigger] s@.skip(n as int)[j],
                ) by {
                    assert(s@.skip(n as int)[j] == s@[n + j]);
                }
            }
            return Some((s.substring_char(0, n - 1), s.substring_char(n, cs.len())));
        }
        n -= 1;
    }
    proof {
        lemma_none_in(s@, set);
    }
    None
}

/// Whether `s` begins with `p`.
pub open spec fn starts_with(s: Seq<char>, p: Seq<char>) -> bool {
    p.len() <= s.len() && s.take(p.len() as int) == p
}

/// Whether `s` ends with `p`.
pub open spec fn ends_with(s: Seq<char>, p: Seq<char>) -> bool {
    p.len() <= s.len() && s.skip(s.len() - p.len()) == p
}

/// What follows `p` in `s`, where `s` begins with `p`.
pub open spec fn without_prefix(s: Seq<char>, p: Seq<char>) -> Option<Seq<char>> {
    if starts_with(s, p) {
        Some(s.skip(p.len() as int))
    } else {
        None
    }
}

/// What precedes `p` in `s`, where `s` ends with `p`.
pub open spec fn without_suffix(s: Seq<char>, p: Seq<char>) -> Option<Seq<char>> {
    if ends_with(s, p) {
        Some(s.take(s.len() - p.len()))
    } else {
        None
    }
}

/// `s` without every copy of `p` that it begins with. An empty `p` leaves `s` as it is.
pub open spec fn skip_prefixes(s: Seq<char>, p: Seq<char>) -> Seq<char>
    decreases s.len(),
{
    if p.len() > 0 && starts_with(s, p) {
        skip_prefixes(s.skip(p.len() as int), p)
    } else {
        s
    }
}

/// `s` without every copy of `p` that it ends with. An empty `p` leaves `s` as it is.
pub open spec fn skip_suffixes(s: Seq<char>, p: Seq<char>) -> Seq<char>
    decreases s.len(),
{
    if p.len() > 0 && ends_with(s, p) {
        skip_suffixes(s.take(s.len() - p.len()), p)
    } else {
        s
    }
}

/// `s` with each copy of `from`, found from the left and not overlapping, replaced by `to`.
/// An empty `from` leaves `s` as it is.
pub open spec fn replaced(s: Seq<char>, from: Seq<char>, to: Seq<char>) -> Seq<char>
    decreases s.len(),
{
    if s.len() == 0 {
        s
    } else if from.len() > 0 && starts_with(s, from) {
        to + replaced(s.skip(from.len() as int), from, to)
    } else {
        seq![s[0]] + replaced(s.skip(1), from, to)
    }
}

/// Whether `p` stands in `s` at index `at`.
pub open spec fn occurs_at(s: Seq<char>, at: int, p: Seq<char>) -> bool {
    0 <= at && at + p.len() <= s.len() && s.subrange(at, at + p.len()) == p
}

fn matches_at(cs: &Vec<char>, at: usize, p: &Vec<char>) -> (r: bool)
    ensures
        r == occurs_at(cs@, at as int, p@),
{
    if at > cs.len() || p.len() > cs.len() - at {
        return false;
    }
    let mut i: usize = 0;
    while i < p.len()
        invariant
            i <= p.len(),
            at + p.len() <= cs.len(),
            forall|j: int| 0 <= j < i ==> cs@[at + j] == p@[j],
        decreases p.len() - i,
    {
        if cs[at + i] != p[i] {
            assert(cs@.subrange(at as int, at + p.len())[i as int] != p@[i as int]);
            return false;
        }
        i += 1;
    }
    assert(cs@.subrange(at as int, at + p.len()) =~= p@);
    true
}

proof fn lemma_occurs_at_start(s: Seq<char>, at: int, p: Seq<char>)
    requires
        0 <= at <= s.len(),
    ensures
        occurs_at(s, at, p) == starts_with(s.skip(at), p),
{
    if at + p.len() <= s.len() {
        assert(s.skip(at).take(p.len() as int) =~= s.subrange(at, at + p.len()));
    }
}

proof fn lemma_occurs_at_end(s: Seq<char>, n: int, p: Seq<char>)
    requires
        0 <= n <= s.len(),
    ensures
        ends_with(s.take(n), p) == (p.len() <= n && occurs_at(s, n - p.len(), p)),
{
    if p.len() <= n {
        assert(s.take(n).skip(n - p.len()) =~= s.subrange(n - p.len(), n));
    }
}

/// What follows `p` in `s`, if `s` begins with `p`.
pub fn strip_prefix<'a>(s: &'a str, p: &str) -> (r: Option<&'a str>)
    ensures
        r.deep_view() == without_prefix(s@, p@),
{
    let cs = to_chars(s);
    let ps = to_chars(p);
    proof {
        lemma_occurs_at_start(s@, 0, p@);
        assert(s@.skip(0) =~= s@);
    }
    if matches_at(&cs, 0, &ps) {
        assert(s@.subrange(ps.len() as int, cs.len() as int) =~= s@.skip(p@.len() as int));
        Some(s.substring_char(ps.len(), cs.len()))
    } else {
        None
    }
}

/// What precedes `p` in `s`, if `s` ends with `p`.
pub fn strip_suffix<'a>(s: &'a str, p: &str) -> (r: Option<&'a str>)
    ensures
        r.deep_view() == without_suffix(s@, p@),
{
    let cs = to_chars(s);
    let ps = to_chars(p);
    proof {
        lemma_occurs_at_end(s@, s@.len() as int, p@);
        assert(s@.take(s@.len() as int) =~= s@);
    }
    if ps.len() <= cs.len() && matches_at(&cs, cs.len() - ps.len(), &ps) {
        assert(s@.subrange(0, cs.len() - ps.len()) =~= s@.take(s@.len() - p@.len()));
        Some(s.substring_char(0, cs.len() - ps.len()))
    } else {
        None
    }
}

/// `s` without every copy of `p` that it begins with.
pub fn trim_start_matches<'a>(s: &'a str, p: &str) -> (r: &'a str)
    ensures
        r@ == skip_prefixes(s@, p@),
{
    let cs = to_chars(s);
    let ps = to_chars(p);
    let mut i: usize = 0;
    assert(s@.skip(0) =~= s@);
    if ps.len() > 0 {
        loop
            invariant
                i <= cs.len(),
                cs@ == s@,
                ps@ == p@,
                ps.len() > 0,
                skip_prefixes(s@, p@) == skip_prefixes(s@.skip(i as int), p@),
            ensures
                i <= cs.len(),
                skip_prefixes(s@, p@) == s@.skip(i as int),
            decreases cs.len() - i,
        {
            proof {
                lemma_occurs_at_start(s@, i as int, p@);
            }
            if !matches_at(&cs, i, &ps) {
                break ;
            }
            assert(s@.skip(i as int).skip(p@.len() as int) =~= s@.skip(i + p@.len()));
            i += ps.len();
        }
    }
    assert(s@.subrange(i as int, cs.len() as int) =~= s@.skip(i as int));
    s.substring_char(i, cs.len())
}

/// `s` without every copy of `p` that it ends with.
pub fn trim_end_matches<'a>(s: &'a str, p: &str) -> (r: &'a str)
    ensures
        r@ == skip_suffixes(s@, p@),
{
    let cs = to_chars(s);
    let ps = to_chars(p);
    let mut n: usize = cs.len();
    assert(s@.take(cs.len() as int) =~= s@);
    if ps.len() > 0 {
        loop
            invariant
                n <= cs.len(),
                cs@ == s@,
                ps@ == p@,
                ps.len() > 0,
                skip_suffixes(s@, p@) == skip_suffixes(s@.take(n as int), p@),
            ensures
                n <= cs.len(),
                skip_suffixes(s@, p@) == s@.take(n as int),
            decreases n,
        {
            proof {
                lemma_occurs_at_end(s@, n as int, p@);
            }
            if ps.len() > n || !matches_at(&cs, n - ps.len(), &ps) {
                break ;
            }
            assert(s@.take(n as int).take(n - p@.len()) =~= s@.take(n - p@.len()));
            n -= ps.len();
        }
    }
    assert(s@.subrange(0, n as int) =~= s@.take(n as int));
    s.substring_char(0, n)
}

/// `s` with each copy of `from` replaced by `to`.
pub fn replace(s: &str, from: &str, to: &str) -> (r: String)
    ensures
        r@ == replaced(s@, from@, to@),
{
    let cs = to_chars(s);
    let fs = to_chars(from);
    let mut out = String::new();
    let mut i: usize = 0;
    assert(s@.skip(0) =~= s@);
    while i < cs.len()
        invariant
            i <= cs.len(),
            cs@ == s@,
            fs@ == from@,
            replaced(s@, from@, to@) == out@ + replaced(s@.skip(i as int), from@, to@),
        decreases cs.len() - i,
    {
        let ghost rest = s@.skip(i as int);
        proof {
            lemma_occurs_at_start(s@, i as int, from@);
        }
        if fs.len() > 0 && matches_at(&cs, i, &fs) {
            assert(rest.skip(from@.len() as int) =~= s@.skip(i + from@.len()));
            assert(out@ + (to@ + replaced(rest.skip(from@.len() as int), from@, to@)) =~= (out@
                + to@) + replaced(rest.skip(from@.len() as int), from@, to@));
            out.append(to);
            i += fs.len();
        } else {
            assert(rest.skip(1) =~= s@.skip(i + 1));
            assert(s@.subrange(i as int, i + 1) =~= seq![rest[0]]);
            assert(out@ + (seq![rest[0]] + replaced(rest.skip(1), from@, to@)) =~= (out@
                + seq![rest[0]]) + replaced(rest.skip(1), from@, to@));
            out.append(s.substring_char(i, i + 1));
            i += 1;
        }
    }
    assert(out@ + Seq::<char>::empty() =~= out@);
    out
}

/// Whether `s` begins with the character `c`.
pub open spec fn begins_with(s: Seq<char>, c: char) -> bool {
    s.len() > 0 && s[0] == c
}

/// Whether `s` begins with the character `c`.
pub fn starts_with_char(s: &str, c: char) -> (r: bool)
    ensures
        r == begins_with(s@, c),
{
    let cs = to_chars(s);
    cs.len() > 0 && cs[0] == c
}

/// What stands before the first character of `s` in `set`: all of `s` where it has none.
pub open spec fn head_before(s: Seq<char>, set: CharSet) -> Seq<char> {
    match split_first(s, set) {
        Some((head, _)) => head,
        None => s,
    }
}

/// What stands before the first character of `s` in `set`: all of `s` where it has none.
pub fn before_first<'a>(s: &'a str, set: CharSet) -> (r: &'a str)
    ensures
        r@ == head_before(s@, set),
{
    match split_once(s, set) {
        Some((head, _)) => head,
        None => s,
    }
}

/// The empty text.
pub fn empty() -> (r: &'static str)
    ensures
        r@ == Seq::<char>::empty(),
{
    proof {
        reveal_strlit("");
    }
    let r = "";
    assert(r@ =~= Seq::<char>::empty());
    r
}

/// The text that is there, and the empty text where none is.
pub open spec fn or_empty(s: Option<Seq<char>>) -> Seq<char> {
    match s {
        Some(s) => s,
        None => Seq::empty(),
    }
}

/// The text that is there, and the empty text where none is.
pub fn unwrap_or_empty<'a>(s: Option<&'a str>) -> (r: &'a str)
    ensures
        r@ == or_empty(s.deep_view()),
{
    match s {
        Some(s) => s,
        None => empty(),
    }
}

} // verus!
