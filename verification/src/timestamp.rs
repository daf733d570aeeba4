//! Time markers of the form `H:MM:SS[.fraction]`, counted in microseconds.
//!
//! A marker arrives as three pieces of text: hours, minutes and seconds. A
//! piece that is not a plain decimal number, or whose whole part does not fit
//! in 32 bits, counts as zero: malformed markers never stop progress tracking.

use vstd::prelude::*;

verus! {

pub const MICROS_PER_SECOND: u64 = 1_000_000;

pub const MICROS_PER_MINUTE: u64 = 60_000_000;

pub const MICROS_PER_HOUR: u64 = 3_600_000_000;

/// How many digits after the decimal point are kept; the rest is cut off.
pub const FRACTION_DIGITS: usize = 6;

/// One of the characters `0` to `9`.
pub open spec fn is_digit(c: char) -> bool {
    48 <= c as u32 <= 57
}

/// What a digit is worth; zero for any other character.
pub open spec fn digit(c: char) -> nat {
    if is_digit(c) {
        (c as u32 - 48) as nat
    } else {
        0
    }
}

/// A text that holds nothing but digits.
pub open spec fn digits_only(s: Seq<char>) -> bool {
    forall|i: int| 0 <= i < s.len() ==> is_digit(#[trigger] s[i])
}

/// The number that a string of digits denotes in base ten.
pub open spec fn decimal(s: Seq<char>) -> nat
    decreases s.len(),
{
    if s.len() == 0 {
        0
    } else {
        decimal(s.drop_last()) * 10 + digit(s.last())
    }
}

/// A whole number written in digits that fits in 32 bits.
pub open spec fn is_count(text: Seq<char>) -> bool {
    text.len() > 0 && digits_only(text) && decimal(text) <= u32::MAX
}

/// What a piece of hours or minutes counts for.
pub open spec fn count(text: Seq<char>) -> nat {
    if is_count(text) {
        decimal(text)
    } else {
        0
    }
}

/// The digits after the decimal point, brought to exactly six places: the
/// first six, with zeros standing for those that are missing.
pub open spec fn six_places(frac: Seq<char>) -> Seq<char> {
    Seq::new(
        FRACTION_DIGITS as nat,
        |i: int|
            if i < frac.len() {
                frac[i]
            } else {
                '0'
            },
    )
}

/// What a piece of seconds counts for, in microseconds: a count, or a count
/// and, after one `.`, at least one digit.
pub open spec fn seconds_micros(text: Seq<char>) -> nat {
    match text.index_of_first('.') {
        None => count(text) * MICROS_PER_SECOND as nat,
        Some(dot) => {
            let whole = text.take(dot);
            let frac = text.skip(dot + 1);
            if is_count(whole) && frac.len() > 0 && digits_only(frac) {
                decimal(whole) * MICROS_PER_SECOND as nat + decimal(six_places(frac))
            } else {
                0
            }
        },
    }
}

/// The text of the three pieces of a marker.
pub struct MarkerText {
    pub hours: Seq<char>,
    pub minutes: Seq<char>,
    pub seconds: Seq<char>,
}

impl MarkerText {
    /// `hours * 3600 + minutes * 60 + seconds`, in microseconds.
    pub open spec fn micros(self) -> nat {
        count(self.hours) * MICROS_PER_HOUR as nat + count(self.minutes) * MICROS_PER_MINUTE as nat
            + seconds_micros(self.seconds)
    }
}

/// The three pieces of a time marker, as they stood in a line.
#[derive(Clone, Debug)]
pub struct Marker {
    pub hours: Vec<char>,
    pub minutes: Vec<char>,
    pub seconds: Vec<char>,
}

impl View for Marker {
    type V = MarkerText;

    open spec fn view(&self) -> MarkerText {
        MarkerText { hours: self.hours@, minutes: self.minutes@, seconds: self.seconds@ }
    }
}

/// A longer string of digits denotes no smaller a number.
pub proof fn lemma_decimal_grows(s: Seq<char>, n: int)
    requires
        0 <= n <= s.len(),
    ensures
        decimal(s.take(n)) <= decimal(s),
    decreases s.len() - n,
{
    if n == s.len() {
        assert(s.take(n) == s);
    } else {
        lemma_decimal_grows(s, n + 1);
        assert(s.take(n + 1).drop_last() == s.take(n));
    }
}

/// Six digits stay below a million.
pub proof fn lemma_six_places_bound(frac: Seq<char>)
    ensures
        decimal(six_places(frac)) < MICROS_PER_SECOND,
{
    let s = six_places(frac);
    assert(s.take(0).len() == 0);
    assert(decimal(s.take(0)) == 0);
    lemma_decimal_step(s, 0);
    lemma_decimal_step(s, 1);
    lemma_decimal_step(s, 2);
    lemma_decimal_step(s, 3);
    lemma_decimal_step(s, 4);
    lemma_decimal_step(s, 5);
    assert(s.take(6) == s);
}

/// Reading one more character multiplies by ten and adds what it is worth.
pub proof fn lemma_decimal_step(s: Seq<char>, n: int)
    requires
        0 <= n < s.len(),
    ensures
        decimal(s.take(n + 1)) == decimal(s.take(n)) * 10 + digit(s[n]),
        digit(s[n]) <= 9,
{
    assert(s.take(n + 1).drop_last() == s.take(n));
    assert(s.take(n + 1).last() == s[n]);
}

/// What `c` is worth as a digit, or `None` where it is no digit.
pub fn digit_of(c: char) -> (d: Option<u64>)
    ensures
        d is Some <==> is_digit(c),
        d matches Some(v) ==> v == digit(c) && v <= 9,
{
    let code: u32 = c as u32;
    if 48 <= code && code <= 57 {
        Some((code - 48) as u64)
    } else {
        None
    }
}

/// The count written in `text[from..to]`, or `None` where that stretch is no
/// count.
pub fn parse_count_in(text: &[char], from: usize, to: usize) -> (r: Option<u32>)
    requires
        from <= to <= text@.len(),
    ensures
        r is Some <==> is_count(text@.subrange(from as int, to as int)),
        r matches Some(v) ==> v == decimal(text@.subrange(from as int, to as int)),
{
    let ghost piece = text@.subrange(from as int, to as int);
    if from == to {
        return None;
    }
    let mut value: u64 = 0;
    let mut i: usize = from;
    while i < to
        invariant
            from <= i <= to <= text@.len(),
            piece == text@.subrange(from as int, to as int),
            value == decimal(piece.take(i - from)),
            value <= u32::MAX,
            digits_only(piece.take(i - from)),
        decreases to - i,
    {
        proof {
            lemma_decimal_step(piece, i - from);
            lemma_decimal_grows(piece, i - from + 1);
        }
        match digit_of(text[i]) {
            None => {
                assert(!is_digit(piece[i - from]));
                return None;
            },
            Some(d) => {
                value = value * 10 + d;
                if value > u32::MAX as u64 {
                    return None;
                }
                assert forall|k: int| 0 <= k < i - from + 1 implies is_digit(
                    #[trigger] piece.take(i - from + 1)[k],
                ) by {
                    if k < i - from {
                        assert(piece.take(i - from)[k] == piece[k]);
                    }
                }
            },
        }
        i = i + 1;
    }
    assert(piece.take(to - from) == piece);
    Some(value as u32)
}

/// What a piece of hours or minutes counts for.
pub fn parse_count(text: &[char]) -> (n: u32)
    ensures
        n == count(text@),
{
    assert(text@.subrange(0, text@.len() as int) == text@);
    match parse_count_in(text, 0, text.len()) {
        Some(v) => v,
        None => 0,
    }
}

/// Where the first `.` of `text` stands, if it has one.
pub fn find_dot(text: &[char]) -> (r: Option<usize>)
    ensures
        match r {
            Some(i) => text@.index_of_first('.') == Some(i as int) && i < text@.len(),
            None => text@.index_of_first('.') is None,
        },
{
    let mut i: usize = 0;
    while i < text.len()
        invariant
            i <= text@.len(),
            forall|j: int| 0 <= j < i ==> text@[j] != '.',
        decreases text@.len() - i,
    {
        if text[i] == '.' {
            proof {
                text@.index_of_first_ensures('.');
                assert(text@.contains('.'));
            }
            return Some(i);
        }
        i = i + 1;
    }
    proof {
        text@.index_of_first_ensures('.');
    }
    None
}

/// The microseconds written after the decimal point in `text[from..]`, or
/// `None` where that stretch is empty or holds anything but digits.
pub fn parse_fraction_in(text: &[char], from: usize) -> (r: Option<u64>)
    requires
        from <= text@.len(),
    ensures
        r is Some <==> text@.skip(from as int).len() > 0 && digits_only(text@.skip(from as int)),
        r matches Some(v) ==> v == decimal(six_places(text@.skip(from as int))) && v
            < MICROS_PER_SECOND,
{
    let ghost frac = text@.skip(from as int);
    let ghost places = six_places(frac);
    if from == text.len() {
        return None;
    }
    let mut i: usize = from;
    while i < text.len()
        invariant
            from <= i <= text@.len(),
            frac == text@.skip(from as int),
            forall|k: int| 0 <= k < i - from ==> is_digit(#[trigger] frac[k]),
        decreases text@.len() - i,
    {
        if digit_of(text[i]).is_none() {
            assert(!is_digit(frac[i - from]));
            return None;
        }
        i = i + 1;
    }
    let mut value: u64 = 0;
    let mut k: usize = 0;
    while k < FRACTION_DIGITS
        invariant
            k <= FRACTION_DIGITS,
            from <= text@.len(),
            frac == text@.skip(from as int),
            places == six_places(frac),
            digits_only(frac),
            value == decimal(places.take(k as int)),
            value < 1_000_000,
        decreases FRACTION_DIGITS - k,
    {
        proof {
            lemma_decimal_step(places, k as int);
            lemma_decimal_grows(places, k + 1);
            lemma_six_places_bound(frac);
        }
        let d: u64 = if k < text.len() - from {
            match digit_of(text[from + k]) {
                Some(v) => v,
                None => 0,
            }
        } else {
            0
        };
        assert(d == digit(places[k as int]));
        value = value * 10 + d;
        k = k + 1;
    }
    assert(places.take(FRACTION_DIGITS as int) == places);
    Some(value)
}

/// What a piece of seconds counts for, in microseconds.
pub fn parse_seconds(text: &[char]) -> (m: u64)
    ensures
        m == seconds_micros(text@),
        m < (u32::MAX as u64 + 1) * MICROS_PER_SECOND,
{
    match find_dot(text) {
        None => {
            let whole: u32 = parse_count(text);
            (whole as u64) * MICROS_PER_SECOND
        },
        Some(dot) => {
            assert(text@.subrange(0, dot as int) == text@.take(dot as int));
            assert(dot < text.len());
            match parse_count_in(text, 0, dot) {
                None => 0,
                Some(whole) => match parse_fraction_in(text, dot + 1) {
                    None => 0,
                    Some(frac) => (whole as u64) * MICROS_PER_SECOND + frac,
                },
            }
        },
    }
}

impl Marker {
    /// The time of the marker: `hours * 3600 + minutes * 60 + seconds`, in
    /// microseconds.
    pub fn micros(&self) -> (m: u64)
        ensures
            m == self@.micros(),
    {
        let hours: u32 = parse_count(self.hours.as_slice());
        let minutes: u32 = parse_count(self.minutes.as_slice());
        let seconds: u64 = parse_seconds(self.seconds.as_slice());
        (hours as u64) * MICROS_PER_HOUR + (minutes as u64) * MICROS_PER_MINUTE + seconds
    }
}

} // verus!
