use ugc_scraper::number::{is_decimal, parse_i32, parse_u32, parse_u64, parse_u8};
use ugc_scraper::text::{
    before_first, replace, rsplit_once, split_once, starts_with_char, str_eq, strip_prefix,
    strip_suffix, to_chars, trim, trim_end_matches, trim_end_of, trim_start_matches,
    trim_start_of, CharSet,
};

/// Texts over a small alphabet, in a fixed order that looks shuffled.
struct Texts {
    state: u64,
    alphabet: Vec<char>,
    longest: usize,
}

impl Texts {
    fn new(alphabet: &str, longest: usize) -> Self {
        Texts { state: 0x2545F4914F6CDD1D, alphabet: alphabet.chars().collect(), longest }
    }

    fn number(&mut self, below: usize) -> usize {
        self.state = self.state.wrapping_mul(6364136223846793005).wrapping_add(1442695040888963407);
        ((self.state >> 33) as usize) % below
    }

    fn text(&mut self) -> String {
        let length = self.number(self.longest + 1);
        let mut text = String::new();
        for _ in 0..length {
            let at = self.number(self.alphabet.len());
            text.push(self.alphabet[at]);
        }
        text
    }
}

const MARKS: &str = " \n\t\u{a0}a-=()*é/S";

#[test]
fn trimming_agrees_with_the_standard_library() {
    let mut texts = Texts::new(MARKS, 8);
    for _ in 0..4000 {
        let s = texts.text();
        assert_eq!(trim(&s), s.trim(), "{:?}", s);
        assert_eq!(trim_start_of(&s, CharSet::Whitespace), s.trim_start(), "{:?}", s);
        assert_eq!(trim_end_of(&s, CharSet::Whitespace), s.trim_end(), "{:?}", s);
        assert_eq!(trim_start_of(&s, CharSet::One('(')), s.trim_start_matches('('), "{:?}", s);
        assert_eq!(trim_end_of(&s, CharSet::One(')')), s.trim_end_matches(')'), "{:?}", s);
        let marks = CharSet::Three('*', '(', ')');
        assert_eq!(
            trim_end_of(trim_start_of(&s, marks), marks),
            s.trim_matches(['*', '(', ')']),
            "{:?}",
            s
        );
        assert_eq!(starts_with_char(&s, '('), s.starts_with('('), "{:?}", s);
        assert_eq!(to_chars(&s), s.chars().collect::<Vec<char>>());
    }
}

#[test]
fn splitting_agrees_with_the_standard_library() {
    let mut texts = Texts::new(MARKS, 8);
    for _ in 0..4000 {
        let s = texts.text();
        assert_eq!(split_once(&s, CharSet::One('-')), s.split_once('-'), "{:?}", s);
        assert_eq!(split_once(&s, CharSet::One('é')), s.split_once('é'), "{:?}", s);
        assert_eq!(rsplit_once(&s, CharSet::One('=')), s.rsplit_once('='), "{:?}", s);
        assert_eq!(
            rsplit_once(&s, CharSet::Three('\n', ' ', '\t')),
            s.rsplit_once(['\n', ' ', '\t']),
            "{:?}",
            s
        );
        assert_eq!(before_first(&s, CharSet::One('\n')), s.split('\n').next().unwrap(), "{:?}", s);
        assert_eq!(before_first(&s, CharSet::One('/')), s.split('/').next().unwrap(), "{:?}", s);
    }
}

#[test]
fn patterns_agree_with_the_standard_library() {
    let mut texts = Texts::new("ab /", 9);
    let mut patterns = Texts::new("ab /", 3);
    for _ in 0..4000 {
        let s = texts.text();
        let p = patterns.text();
        let q = patterns.text();
        assert_eq!(strip_prefix(&s, &p), s.strip_prefix(p.as_str()), "{:?} {:?}", s, p);
        assert_eq!(strip_suffix(&s, &p), s.strip_suffix(p.as_str()), "{:?} {:?}", s, p);
        assert_eq!(str_eq(&s, &p), s == p);
        assert!(str_eq(&s, &s.clone()));
        if !p.is_empty() {
            assert_eq!(
                trim_start_matches(&s, &p),
                s.trim_start_matches(p.as_str()),
                "{:?} {:?}",
                s,
                p
            );
            assert_eq!(trim_end_matches(&s, &p), s.trim_end_matches(p.as_str()), "{:?} {:?}", s, p);
            assert_eq!(replace(&s, &p, &q), s.replace(p.as_str(), &q), "{:?} {:?} {:?}", s, p, q);
        } else {
            assert_eq!(trim_start_matches(&s, &p), s);
            assert_eq!(trim_end_matches(&s, &p), s);
            assert_eq!(replace(&s, &p, &q), s);
        }
    }
}

#[test]
fn numbers_agree_with_the_standard_library() {
    let mut texts = Texts::new("0123456789+- ", 12);
    let mut long = Texts::new("0129", 24);
    for round in 0..6000 {
        let s = if round % 3 == 0 { long.text() } else { texts.text() };
        assert_eq!(parse_u8(&s), s.parse::<u8>().ok(), "{:?}", s);
        assert_eq!(parse_u32(&s), s.parse::<u32>().ok(), "{:?}", s);
        assert_eq!(parse_u64(&s), s.parse::<u64>().ok(), "{:?}", s);
        assert_eq!(parse_i32(&s), s.parse::<i32>().ok(), "{:?}", s);
    }
    for n in [0u64, 9, 10, 255, 256, 4294967295, 4294967296, u64::MAX] {
        let s = n.to_string();
        assert_eq!(parse_u64(&s), Some(n));
        assert_eq!(parse_u32(&s), u32::try_from(n).ok());
        assert_eq!(parse_u8(&s), u8::try_from(n).ok());
    }
    for n in [i32::MIN, -1, 0, 1, i32::MAX] {
        assert_eq!(parse_i32(&n.to_string()), Some(n));
    }
}

#[test]
fn decimal_numbers_agree_with_the_standard_library() {
    let mut texts = Texts::new("0123456789..eE+-infaNy ", 7);
    for _ in 0..12000 {
        let s = texts.text();
        assert_eq!(is_decimal(&s), s.parse::<f32>().is_ok(), "{:?}", s);
    }
}
