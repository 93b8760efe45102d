use vstd::prelude::*;

use crate::text::{trim_text, trimmed};

verus! {

/// The two kinds of tracker record that a pull request title can name.
#[derive(Clone, Copy, Debug, PartialEq, Eq, Structural)]
pub enum RecordKind {
    Feature,
    Requirement,
}

/// A tracker key found at the start of a text, with the kind of record it names.
#[derive(Clone, Debug)]
pub struct IdentifierMatch {
    pub kind: RecordKind,
    pub key: String,
}

impl View for IdentifierMatch {
    type V = (RecordKind, Seq<char>);

    open spec fn view(&self) -> (RecordKind, Seq<char>) {
        (self.kind, self.key@)
    }
}

/// The view of an optional match.
pub open spec fn match_view(m: Option<IdentifierMatch>) -> Option<(RecordKind, Seq<char>)> {
    match m {
        Some(x) => Some(x@),
        None => None,
    }
}

pub open spec fn is_upper(c: char) -> bool {
    'A' <= c && c <= 'Z'
}

pub open spec fn is_digit(c: char) -> bool {
    '0' <= c && c <= '9'
}

/// The end of the longest run of upper-case letters that starts at `i`.
pub open spec fn upper_end(s: Seq<char>, i: int) -> int
    decreases s.len() - i,
{
    if 0 <= i < s.len() && is_upper(s[i]) {
        upper_end(s, i + 1)
    } else {
        i
    }
}

/// The end of the longest run of decimal digits that starts at `i`.
pub open spec fn digit_end(s: Seq<char>, i: int) -> int
    decreases s.len() - i,
{
    if 0 <= i < s.len() && is_digit(s[i]) {
        digit_end(s, i + 1)
    } else {
        i
    }
}

/// Where a dash followed by at least one digit, starting at `i`, ends.
pub open spec fn dash_number_end(s: Seq<char>, i: int) -> Option<int> {
    if 0 <= i < s.len() && s[i] == '-' && digit_end(s, i + 1) > i + 1 {
        Some(digit_end(s, i + 1))
    } else {
        None
    }
}

/// Length of the feature key (`ENG-123`) at the start of `s`, if there is one.
pub open spec fn feature_key_end(s: Seq<char>) -> Option<int> {
    if upper_end(s, 0) > 0 {
        dash_number_end(s, upper_end(s, 0))
    } else {
        None
    }
}

/// Length of the requirement key (`ENG-123-4`) at the start of `s`, if there is one.
pub open spec fn requirement_key_end(s: Seq<char>) -> Option<int> {
    match feature_key_end(s) {
        Some(b) => dash_number_end(s, b),
        None => None,
    }
}

/// The key at the start of `s`: a requirement key where one stands there,
/// else a feature key, else none.
pub open spec fn identify(s: Seq<char>) -> Option<(RecordKind, Seq<char>)> {
    match requirement_key_end(s) {
        Some(c) => Some((RecordKind::Requirement, s.subrange(0, c))),
        None => match feature_key_end(s) {
            Some(b) => Some((RecordKind::Feature, s.subrange(0, b))),
            None => None,
        },
    }
}

proof fn lemma_upper_end_bounds(s: Seq<char>, i: int)
    requires
        0 <= i <= s.len(),
    ensures
        i <= upper_end(s, i) <= s.len(),
    decreases s.len() - i,
{
    if i < s.len() && is_upper(s[i]) {
        lemma_upper_end_bounds(s, i + 1);
    }
}

proof fn lemma_digit_end_bounds(s: Seq<char>, i: int)
    requires
        0 <= i <= s.len(),
    ensures
        i <= digit_end(s, i) <= s.len(),
    decreases s.len() - i,
{
    if i < s.len() && is_digit(s[i]) {
        lemma_digit_end_bounds(s, i + 1);
    }
}

fn scan_upper(s: &str, n: usize, start: usize) -> (r: usize)
    requires
        n == s@.len(),
        start <= n,
    ensures
        r == upper_end(s@, start as int),
        start <= r <= n,
{
    proof {
        lemma_upper_end_bounds(s@, start as int);
    }
    let mut i = start;
    while i < n
        invariant
            n == s@.len(),
            start <= i <= n,
            upper_end(s@, i as int) == upper_end(s@, start as int),
        decreases n - i,
    {
        let c = s.get_char(i);
        if !('A' <= c && c <= 'Z') {
            return i;
        }
        i = i + 1;
    }
    i
}

fn scan_digits(s: &str, n: usize, start: usize) -> (r: usize)
    requires
        n == s@.len(),
        start <= n,
    ensures
        r == digit_end(s@, start as int),
        start <= r <= n,
{
    proof {
        lemma_digit_end_bounds(s@, start as int);
    }
    let mut i = start;
    while i < n
        invariant
            n == s@.len(),
            start <= i <= n,
            digit_end(s@, i as int) == digit_end(s@, start as int),
        decreases n - i,
    {
        let c = s.get_char(i);
        if !('0' <= c && c <= '9') {
            return i;
        }
        i = i + 1;
    }
    i
}

fn scan_dash_number(s: &str, n: usize, start: usize) -> (r: Option<usize>)
    requires
        n == s@.len(),
        start <= n,
    ensures
        match r {
            Some(e) => dash_number_end(s@, start as int) == Some(e as int) && e <= n,
            None => dash_number_end(s@, start as int).is_none(),
        },
{
    if start < n && s.get_char(start) == '-' {
        let e = scan_digits(s, n, start + 1);
        if e > start + 1 {
            Some(e)
        } else {
            None
        }
    } else {
        None
    }
}

/// Finds the tracker key at the start of `text`, without trimming it first.
pub fn match_key(text: &str) -> (r: Option<IdentifierMatch>)
    ensures
        match_view(r) == identify(text@),
{
    let n = text.unicode_len();
    let a = scan_upper(text, n, 0);
    if a == 0 {
        return None;
    }
    match scan_dash_number(text, n, a) {
        None => None,
        Some(b) => {
            match scan_dash_number(text, n, b) {
                Some(c) => Some(
                    IdentifierMatch {
                        kind: RecordKind::Requirement,
                        key: String::from_str(text.substring_char(0, c)),
                    },
                ),
                None => Some(
                    IdentifierMatch {
                        kind: RecordKind::Feature,
                        key: String::from_str(text.substring_char(0, b)),
                    },
                ),
            }
        },
    }
}

/// Finds the tracker key at the start of a pull request title, once the
/// title is trimmed of surrounding white space.
pub fn match_identifier(title: &str) -> (r: Option<IdentifierMatch>)
    ensures
        match_view(r) == identify(trimmed(title@)),
{
    match_key(trim_text(title))
}

} // verus!
