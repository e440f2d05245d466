//! Decimal numbers in text: reading them and writing them.

use crate::text::to_chars;
use vstd::prelude::*;
use vstd::string::*;

verus! {

/// Whether `c` is one of the ten ASCII digits.
pub open spec fn is_digit(c: char) -> bool {
    '0' <= c && c <= '9'
}

/// The number that a digit stands for.
pub open spec fn digit_value(c: char) -> nat {
    (c as u32 - '0' as u32) as nat
}

/// Whether every character of `s` is a digit.
pub open spec fn all_digits(s: Seq<char>) -> bool {
    forall|i: int| 0 <= i < s.len() ==> is_digit(#[trigger] s[i])
}

/// The number that a run of digits stands for, read in base ten.
pub open spec fn digits_value(s: Seq<char>) -> nat
    decreases s.len(),
{
    if s.len() == 0 {
        0
    } else {
        digits_value(s.drop_last()) * 10 + digit_value(s.last())
    }
}

/// The number that `s` stands for: one or more digits, which a `+` may precede.
pub open spec fn unsigned_value(s: Seq<char>) -> Option<nat> {
    let digits = if s.len() > 0 && s[0] == '+' {
        s.skip(1)
    } else {
        s
    };
    if digits.len() > 0 && all_digits(digits) {
        Some(digits_value(digits))
    } else {
        None
    }
}

/// The number that `s` stands for: one or more digits, which a `+` or a `-` may precede.
pub open spec fn signed_value(s: Seq<char>) -> Option<int> {
    if s.len() > 0 && s[0] == '-' {
        if s.len() > 1 && all_digits(s.skip(1)) {
            Some(-(digits_value(s.skip(1)) as int))
        } else {
            None
        }
    } else {
        match unsigned_value(s) {
            Some(v) => Some(v as int),
            None => None,
        }
    }
}

/// `s` read as a `u64`: nothing where it is no number or the number does not fit.
pub open spec fn parsed_u64(s: Seq<char>) -> Option<u64> {
    match unsigned_value(s) {
        Some(v) => if v <= u64::MAX {
            Some(v as u64)
        } else {
            None
        },
        None => None,
    }
}

/// `s` read as a `u32`.
pub open spec fn parsed_u32(s: Seq<char>) -> Option<u32> {
    match unsigned_value(s) {
        Some(v) => if v <= u32::MAX {
            Some(v as u32)
        } else {
            None
        },
        None => None,
    }
}

/// `s` read as a `u8`.
pub open spec fn parsed_u8(s: Seq<char>) -> Option<u8> {
    match unsigned_value(s) {
        Some(v) => if v <= u8::MAX {
            Some(v as u8)
        } else {
            None
        },
        None => None,
    }
}

/// `s` read as the number of a week. Weeks are counted from 1: `0` names none.
pub open spec fn parsed_week(s: Seq<char>) -> Option<u8> {
    match parsed_u8(s) {
        Some(week) => if week >= 1 {
            Some(week)
        } else {
            None
        },
        None => None,
    }
}

/// `s` read as an `i32`.
pub open spec fn parsed_i32(s: Seq<char>) -> Option<i32> {
    match signed_value(s) {
        Some(v) => if i32::MIN <= v && v <= i32::MAX {
            Some(v as i32)
        } else {
            None
        },
        None => None,
    }
}

/// A run of digits stands for no less than any run that it begins with.
pub proof fn lemma_digits_value_grows(s: Seq<char>, i: int)
    requires
        0 <= i <= s.len(),
    ensures
        digits_value(s.take(i)) <= digits_value(s),
    decreases s.len() - i,
{
    if i < s.len() {
        lemma_digits_value_grows(s, i + 1);
        assert(s.take(i + 1).drop_last() =~= s.take(i));
    } else {
        assert(s.take(i) =~= s);
    }
}

/// The value of the digits of `cs` from `from` on, if they are digits, at least one, and
/// the value fits.
fn read_digits(cs: &Vec<char>, from: usize) -> (r: Option<u64>)
    requires
        from <= cs.len(),
    ensures
        r == (if cs@.skip(from as int).len() > 0 && all_digits(cs@.skip(from as int))
            && digits_value(cs@.skip(from as int)) <= u64::MAX {
            Some(digits_value(cs@.skip(from as int)) as u64)
        } else {
            None
        }),
{
    let ghost digits = cs@.skip(from as int);
    if from == cs.len() {
        return None;
    }
    let mut acc: u64 = 0;
    let mut i: usize = from;
    assert(digits.take(0) =~= Seq::<char>::empty());
    while i < cs.len()
        invariant
            from <= i <= cs.len(),
            digits == cs@.skip(from as int),
            all_digits(digits.take(i - from)),
            acc == digits_value(digits.take(i - from)),
        decreases cs.len() - i,
    {
        let c = cs[i];
        assert(digits[i - from] == c);
        if !('0' <= c && c <= '9') {
            return None;
        }
        let d: u64 = (c as u32 - '0' as u32) as u64;
        proof {
            assert(digits.take(i - from + 1).drop_last() =~= digits.take(i - from));
            assert(digits.take(i - from + 1).last() == c);
            assert forall|j: int| 0 <= j < i - from + 1 implies is_digit(
                #[trigger] digits.take(i - from + 1)[j],
            ) by {
                if j < i - from {
                    assert(digits.take(i - from)[j] == digits[j]);
                }
            }
        }
        if acc > (u64::MAX - d) / 10 {
            proof {
                lemma_digits_value_grows(digits, i - from + 1);
            }
            return None;
        }
        acc = acc * 10 + d;
        i += 1;
    }
    assert(digits.take(i - from) =~= digits);
    Some(acc)
}

/// Reads a `u64` in base ten.
pub fn parse_u64(s: &str) -> (r: Option<u64>)
    ensures
        r == parsed_u64(s@),
{
    let cs = to_chars(s);
    if cs.len() > 0 && cs[0] == '+' {
        read_digits(&cs, 1)
    } else {
        assert(cs@.skip(0) =~= cs@);
        read_digits(&cs, 0)
    }
}

/// Reads a `u32` in base ten.
pub fn parse_u32(s: &str) -> (r: Option<u32>)
    ensures
        r == parsed_u32(s@),
{
    match parse_u64(s) {
        Some(v) => if v <= 0xFFFF_FFFF {
            Some(v as u32)
        } else {
            None
        },
        None => None,
    }
}

/// Reads a `u8` in base ten.
pub fn parse_u8(s: &str) -> (r: Option<u8>)
    ensures
        r == parsed_u8(s@),
{
    match parse_u64(s) {
        Some(v) => if v <= 0xFF {
            Some(v as u8)
        } else {
            None
        },
        None => None,
    }
}

/// Reads the number of a week, which is 1 at least.
pub fn parse_week(s: &str) -> (r: Option<u8>)
    ensures
        r == parsed_week(s@),
        r matches Some(week) ==> week >= 1,
{
    match parse_u8(s) {
        Some(week) => if week >= 1 {
            Some(week)
        } else {
            None
        },
        None => None,
    }
}

/// Reads an `i32` in base ten.
pub fn parse_i32(s: &str) -> (r: Option<i32>)
    ensures
        r == parsed_i32(s@),
{
    let cs = to_chars(s);
    if cs.len() > 0 && cs[0] == '-' {
        match read_digits(&cs, 1) {
            Some(v) => if v <= 0x8000_0000 {
                Some((-(v as i64)) as i32)
            } else {
                None
            },
            None => None,
        }
    } else {
        match parse_u64(s) {
            Some(v) => if v <= 0x7FFF_FFFF {
                Some(v as i32)
            } else {
                None
            },
            None => None,
        }
    }
}

/// The digit that stands for a number under ten.
pub open spec fn digit_of(n: nat) -> char {
    if n == 0 {
        '0'
    } else if n == 1 {
        '1'
    } else if n == 2 {
        '2'
    } else if n == 3 {
        '3'
    } else if n == 4 {
        '4'
    } else if n == 5 {
        '5'
    } else if n == 6 {
        '6'
    } else if n == 7 {
        '7'
    } else if n == 8 {
        '8'
    } else {
        '9'
    }
}

/// `n` written in base ten, without leading zeros.
pub open spec fn decimal(n: nat) -> Seq<char>
    decreases n,
{
    if n < 10 {
        seq![digit_of(n)]
    } else {
        decimal(n / 10).push(digit_of(n % 10))
    }
}

/// `n` written in base ten, with `-` before it where it is negative.
pub open spec fn signed_decimal(n: int) -> Seq<char> {
    if n < 0 {
        seq!['-'] + decimal((-n) as nat)
    } else {
        decimal(n as nat)
    }
}

fn digit_text(d: u64) -> (r: &'static str)
    requires
        d < 10,
    ensures
        r@ == seq![digit_of(d as nat)],
{
    proof {
        reveal_strlit("0");
        reveal_strlit("1");
        reveal_strlit("2");
        reveal_strlit("3");
        reveal_strlit("4");
        reveal_strlit("5");
        reveal_strlit("6");
        reveal_strlit("7");
        reveal_strlit("8");
        reveal_strlit("9");
    }
    let r = if d == 0 {
        "0"
    } else if d == 1 {
        "1"
    } else if d == 2 {
        "2"
    } else if d == 3 {
        "3"
    } else if d == 4 {
        "4"
    } else if d == 5 {
        "5"
    } else if d == 6 {
        "6"
    } else if d == 7 {
        "7"
    } else if d == 8 {
        "8"
    } else {
        "9"
    };
    assert(r@ =~= seq![digit_of(d as nat)]);
    r
}

/// Appends `n`, written in base ten, to `out`.
pub fn push_decimal(out: &mut String, n: u64)
    ensures
        final(out)@ == old(out)@ + decimal(n as nat),
    decreases n,
{
    if n >= 10 {
        push_decimal(out, n / 10);
    }
    out.append(digit_text(n % 10));
    proof {
        if n >= 10 {
            assert(old(out)@ + decimal((n / 10) as nat) + seq![digit_of((n % 10) as nat)] =~= old(
                out,
            )@ + decimal((n / 10) as nat).push(digit_of((n % 10) as nat)));
        }
    }
}

/// Appends `n`, written in base ten with its sign where it is negative, to `out`.
pub fn push_signed_decimal(out: &mut String, n: i32)
    ensures
        final(out)@ == old(out)@ + signed_decimal(n as int),
{
    if n < 0 {
        proof {
            reveal_strlit("-");
            assert("-"@ =~= seq!['-']);
        }
        out.append("-");
        let magnitude: u64 = (-(n as i64)) as u64;
        push_decimal(out, magnitude);
        assert(old(out)@ + seq!['-'] + decimal(magnitude as nat) =~= old(out)@ + (seq!['-']
            + decimal(magnitude as nat)));
    } else {
        push_decimal(out, n as u64);
    }
}

/// The number of digits that `s` begins with.
pub open spec fn leading_digits(s: Seq<char>) -> nat
    decreases s.len(),
{
    if s.len() > 0 && is_digit(s[0]) {
        1 + leading_digits(s.skip(1))
    } else {
        0
    }
}

/// `s` without the sign that it may begin with.
pub open spec fn unsigned_part(s: Seq<char>) -> Seq<char> {
    if s.len() > 0 && (s[0] == '+' || s[0] == '-') {
        s.skip(1)
    } else {
        s
    }
}

/// The code of `c`, and that of its small letter where `c` is a capital of ASCII.
pub open spec fn lower_code(c: char) -> u32 {
    if 'A' <= c && c <= 'Z' {
        (c as u32 + 32) as u32
    } else {
        c as u32
    }
}

/// Whether `s` is `word`, which is in small letters, in letters of either case.
pub open spec fn is_word(s: Seq<char>, word: Seq<char>) -> bool {
    s.len() == word.len() && forall|i: int|
        0 <= i < s.len() ==> lower_code(#[trigger] s[i]) == word[i] as u32
}

/// Whether `e` is an exponent: `e` or `E`, a sign or none, and digits.
pub open spec fn is_exponent(e: Seq<char>) -> bool {
    e.len() > 0 && lower_code(e[0]) == 'e' as u32 && unsigned_part(e.skip(1)).len() > 0
        && all_digits(unsigned_part(e.skip(1)))
}

/// Whether `b` is digits with at most one point among them and at least one digit, and
/// an exponent or none behind them.
pub open spec fn is_number(b: Seq<char>) -> bool {
    let whole = leading_digits(b) as int;
    let rest = b.skip(whole);
    if rest.len() > 0 && rest[0] == '.' {
        let fraction = leading_digits(rest.skip(1)) as int;
        let tail = rest.skip(1 + fraction);
        whole + fraction >= 1 && (tail.len() == 0 || is_exponent(tail))
    } else {
        whole >= 1 && (rest.len() == 0 || is_exponent(rest))
    }
}

/// Whether `s` is a number with a fraction, as Rust reads them from text: a sign or none,
/// and then `inf`, `infinity` or `nan` in letters of either case, or digits with at most
/// one point and an exponent or none.
pub open spec fn is_decimal_text(s: Seq<char>) -> bool {
    let b = unsigned_part(s);
    is_word(b, seq!['i', 'n', 'f']) || is_word(
        b,
        seq!['i', 'n', 'f', 'i', 'n', 'i', 't', 'y'],
    ) || is_word(b, seq!['n', 'a', 'n']) || is_number(b)
}

fn lower(c: char) -> (r: u32)
    ensures
        r == lower_code(c),
{
    if 'A' <= c && c <= 'Z' {
        c as u32 + 32
    } else {
        c as u32
    }
}

fn spells(cs: &Vec<char>, from: usize, word: &Vec<char>) -> (r: bool)
    requires
        from <= cs.len(),
    ensures
        r == is_word(cs@.skip(from as int), word@),
{
    let ghost s = cs@.skip(from as int);
    if cs.len() - from != word.len() {
        return false;
    }
    let mut i: usize = 0;
    while i < word.len()
        invariant
            i <= word.len(),
            from + word.len() == cs.len(),
            s == cs@.skip(from as int),
            forall|j: int| 0 <= j < i ==> lower_code(#[trigger] s[j]) == word@[j] as u32,
        decreases word.len() - i,
    {
        assert(s[i as int] == cs@[from + i]);
        if lower(cs[from + i]) != word[i] as u32 {
            return false;
        }
        i += 1;
    }
    true
}

fn count_digits(cs: &Vec<char>, from: usize) -> (n: usize)
    requires
        from <= cs.len(),
    ensures
        n == leading_digits(cs@.skip(from as int)),
        from + n <= cs.len(),
{
    let mut i: usize = from;
    assert(cs@.skip(from as int) =~= cs@.skip(i as int));
    while i < cs.len() && '0' <= cs[i] && cs[i] <= '9'
        invariant
            from <= i <= cs.len(),
            leading_digits(cs@.skip(from as int)) == (i - from) + leading_digits(
                cs@.skip(i as int),
            ),
        decreases cs.len() - i,
    {
        assert(cs@.skip(i as int).skip(1) =~= cs@.skip(i + 1));
        assert(cs@.skip(i as int)[0] == cs@[i as int]);
        i += 1;
    }
    proof {
        if i < cs.len() {
            assert(cs@.skip(i as int)[0] == cs@[i as int]);
        }
    }
    i - from
}

fn all_digits_from(cs: &Vec<char>, from: usize) -> (r: bool)
    requires
        from <= cs.len(),
    ensures
        r == all_digits(cs@.skip(from as int)),
{
    let ghost s = cs@.skip(from as int);
    let mut i: usize = from;
    while i < cs.len()
        invariant
            from <= i <= cs.len(),
            s == cs@.skip(from as int),
            forall|j: int| 0 <= j < i - from ==> is_digit(#[trigger] s[j]),
        decreases cs.len() - i,
    {
        assert(s[i - from] == cs@[i as int]);
        if !('0' <= cs[i] && cs[i] <= '9') {
            return false;
        }
        i += 1;
    }
    true
}

fn exponent_at(cs: &Vec<char>, from: usize) -> (r: bool)
    requires
        from <= cs.len(),
    ensures
        r == is_exponent(cs@.skip(from as int)),
{
    let ghost e = cs@.skip(from as int);
    if from == cs.len() {
        return false;
    }
    assert(e[0] == cs@[from as int]);
    if lower(cs[from]) != 'e' as u32 {
        return false;
    }
    assert(e.skip(1) =~= cs@.skip(from + 1));
    let digits: usize = if from + 1 < cs.len() && (cs[from + 1] == '+' || cs[from + 1] == '-') {
        assert(e.skip(1)[0] == cs@[from + 1]);
        assert(e.skip(1).skip(1) =~= cs@.skip(from + 2));
        from + 2
    } else {
        proof {
            if from + 1 < cs.len() {
                assert(e.skip(1)[0] == cs@[from + 1]);
            }
        }
        from + 1
    };
    digits < cs.len() && all_digits_from(cs, digits)
}

fn number_at(cs: &Vec<char>, from: usize) -> (r: bool)
    requires
        from <= cs.len(),
    ensures
        r == is_number(cs@.skip(from as int)),
{
    let ghost b = cs@.skip(from as int);
    let whole = count_digits(cs, from);
    let at = from + whole;
    assert(b.skip(whole as int) =~= cs@.skip(at as int));
    if at < cs.len() && cs[at] == '.' {
        assert(cs@.skip(at as int)[0] == cs@[at as int]);
        assert(cs@.skip(at as int).skip(1) =~= cs@.skip(at + 1));
        let fraction = count_digits(cs, at + 1);
        let tail = at + 1 + fraction;
        assert(cs@.skip(at as int).skip(1 + fraction) =~= cs@.skip(tail as int));
        whole + fraction >= 1 && (tail == cs.len() || exponent_at(cs, tail))
    } else {
        proof {
            if at < cs.len() {
                assert(cs@.skip(at as int)[0] == cs@[at as int]);
            }
        }
        whole >= 1 && (at == cs.len() || exponent_at(cs, at))
    }
}

/// Whether `s` is a number with a fraction, as Rust reads them from text.
pub fn is_decimal(s: &str) -> (r: bool)
    ensures
        r == is_decimal_text(s@),
{
    let cs = to_chars(s);
    let from: usize = if cs.len() > 0 && (cs[0] == '+' || cs[0] == '-') {
        1
    } else {
        assert(cs@.skip(0) =~= cs@);
        0
    };
    let inf = vec!['i', 'n', 'f'];
    let infinity = vec!['i', 'n', 'f', 'i', 'n', 'i', 't', 'y'];
    let nan = vec!['n', 'a', 'n'];
    assert(inf@ =~= seq!['i', 'n', 'f']);
    assert(infinity@ =~= seq!['i', 'n', 'f', 'i', 'n', 'i', 't', 'y']);
    assert(nan@ =~= seq!['n', 'a', 'n']);
    spells(&cs, from, &inf) || spells(&cs, from, &infinity) || spells(&cs, from, &nan)
        || number_at(&cs, from)
}

} // verus!
