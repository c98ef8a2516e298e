//! Card identifiers of the form `SERIES-SET-NUMBER-RARITY`.
//!
//! The rarity is split off at the last hyphen; what is left splits at its first
//! two hyphens into series, set and number (the number keeps any later hyphen).

use vstd::prelude::*;
use vstd::string::*;

verus! {

/// The four segments of a card identifier.
#[derive(Clone, Debug, PartialEq, Eq)]
pub struct CardIdentifier {
    pub series_code: String,
    pub set_code: String,
    pub number_in_set: String,
    pub rarity_code: String,
}

/// Index of the first hyphen of `s` at or after `i`, or -1.
pub open spec fn hyphen_from(s: Seq<char>, i: int) -> int
    decreases s.len() - i,
{
    if i < 0 || i >= s.len() {
        -1
    } else if s[i] == '-' {
        i
    } else {
        hyphen_from(s, i + 1)
    }
}

/// Index of the last hyphen of `s` before `j`, or -1.
pub open spec fn hyphen_before(s: Seq<char>, j: int) -> int
    decreases j,
{
    if j <= 0 || j > s.len() {
        -1
    } else if s[j - 1] == '-' {
        j - 1
    } else {
        hyphen_before(s, j - 1)
    }
}

/// Series, set, number and rarity of `s`, or `None` where `s` is malformed.
pub open spec fn split_identifier(s: Seq<char>) -> Option<(Seq<char>, Seq<char>, Seq<char>, Seq<char>)> {
    let r = hyphen_before(s, s.len() as int);
    let i = hyphen_from(s.subrange(0, r), 0);
    let j = hyphen_from(s.subrange(0, r), i + 1);
    if r < 0 || i < 0 || j < 0 {
        None
    } else {
        Some((s.subrange(0, i), s.subrange(i + 1, j), s.subrange(j + 1, r), s.subrange(r + 1, s.len() as int)))
    }
}

impl CardIdentifier {
    pub open spec fn segments(&self) -> (Seq<char>, Seq<char>, Seq<char>, Seq<char>) {
        (self.series_code@, self.set_code@, self.number_in_set@, self.rarity_code@)
    }
}

/// First hyphen of `s` in `[from, to)`, or `to`.
fn find_hyphen(s: &str, from: usize, to: usize) -> (r: usize)
    requires
        from <= to <= s@.len(),
    ensures
        from <= r <= to,
        r < to ==> hyphen_from(s@.subrange(0, to as int), from as int) == r,
        r == to ==> hyphen_from(s@.subrange(0, to as int), from as int) == -1,
{
    let ghost t = s@.subrange(0, to as int);
    let mut k = from;
    while k < to
        invariant
            from <= k <= to,
            to <= s@.len(),
            t == s@.subrange(0, to as int),
            hyphen_from(t, from as int) == hyphen_from(t, k as int),
        decreases to - k,
    {
        if s.get_char(k) == '-' {
            return k;
        }
        k = k + 1;
    }
    k
}

/// Splits a card identifier into its four segments.
pub fn parse_identifier(s: &str) -> (r: Option<CardIdentifier>)
    ensures
        match r {
            Some(id) => split_identifier(s@) == Some(id.segments()),
            None => split_identifier(s@) is None,
        },
{
    let n = s.unicode_len();
    let mut r = n;
    while r > 0 && s.get_char(r - 1) != '-'
        invariant
            r <= n,
            n == s@.len(),
            hyphen_before(s@, n as int) == hyphen_before(s@, r as int),
        decreases r,
    {
        r = r - 1;
    }
    if r == 0 {
        return None;
    }
    let r = r - 1;
    let i = find_hyphen(s, 0, r);
    if i == r {
        return None;
    }
    let j = find_hyphen(s, i + 1, r);
    if j == r {
        return None;
    }
    let ghost p = s@.subrange(0, r as int);
    assert(s@.subrange(0, i as int) =~= p.subrange(0, i as int));
    Some(CardIdentifier {
        series_code: s.substring_char(0, i).to_owned(),
        set_code: s.substring_char(i + 1, j).to_owned(),
        number_in_set: s.substring_char(j + 1, r).to_owned(),
        rarity_code: s.substring_char(r + 1, n).to_owned(),
    })
}

} // verus!
