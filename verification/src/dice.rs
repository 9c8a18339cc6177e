//! Dice notation: `NdM` asks for `N` dice of `M` sides, `dM` for one die.
//!
//! A notation is found anywhere in the text: the first place, from the left,
//! where an optional run of digits, the letter `d` and a run of digits stand,
//! each run taken whole.

use vstd::prelude::*;

use crate::text::{
    all_digits, decimal, decimal_value, is_ascii_digit, lemma_decimal_reads_back, lemma_decimal_value_prefix,
    text_chars,
};

verus! {

/// The end of the run of digits that starts at `i` (that is `i` itself when `s[i]` is no digit).
pub open spec fn digit_run_end(s: Seq<char>, i: int) -> int
    decreases s.len() - i,
{
    if 0 <= i < s.len() && is_ascii_digit(s[i]) {
        digit_run_end(s, i + 1)
    } else {
        i
    }
}

/// The spans of a notation: the count's digits, when written, and the sides' digits.
pub type DiceSpans = (Option<(int, int)>, (int, int));

/// The notation that starts at `i`, if one does: a whole run of digits (or none),
/// then `d`, then a whole run of at least one digit.
pub open spec fn dice_match_at(s: Seq<char>, i: int) -> Option<DiceSpans> {
    let j = digit_run_end(s, i);
    if 0 <= i < s.len() && j > i {
        if j < s.len() && s.len() - j > 1 && s[j] == 'd' && is_ascii_digit(s[j + 1]) {
            Some((Some((i, j)), (j + 1, digit_run_end(s, j + 1))))
        } else {
            None
        }
    } else if 0 <= i && i + 1 < s.len() && s[i] == 'd' && is_ascii_digit(s[i + 1]) {
        Some((None, (i + 1, digit_run_end(s, i + 1))))
    } else {
        None
    }
}

/// The first notation that starts at `i` or after it.
pub open spec fn dice_search(s: Seq<char>, i: int) -> Option<DiceSpans>
    decreases s.len() - i,
{
    if i < 0 || i >= s.len() {
        None
    } else if dice_match_at(s, i) is Some {
        dice_match_at(s, i)
    } else {
        dice_search(s, i + 1)
    }
}

/// The notation found in `s`: the leftmost one.
pub open spec fn find_dice_spec(s: Seq<char>) -> Option<DiceSpans> {
    dice_search(s, 0)
}

/// What a dice notation asks for.
#[derive(Clone, Copy, Debug, PartialEq, Eq, Structural)]
pub enum DiceParse {
    /// No notation stands in the text.
    Invalid,
    /// The number of sides does not fit in 32 bits.
    SidesTooLarge,
    /// The number of dice is above `i32::MAX`.
    CountTooLarge,
    /// Roll `count` dice with `sides` sides each.
    Roll { count: u32, sides: u32 },
}

/// The reading of a notation: the count defaults to one die; the sides must fit in
/// a `u32`, the count in an `i32`; the sides are read first.
pub open spec fn parse_dice_spec(s: Seq<char>) -> DiceParse {
    match find_dice_spec(s) {
        None => DiceParse::Invalid,
        Some((count, (a, b))) => {
            let sides = decimal_value(s.subrange(a, b));
            if sides > u32::MAX {
                DiceParse::SidesTooLarge
            } else {
                match count {
                    None => DiceParse::Roll { count: 1, sides: sides as u32 },
                    Some((c, d)) => {
                        let n = decimal_value(s.subrange(c, d));
                        if n > i32::MAX {
                            DiceParse::CountTooLarge
                        } else {
                            DiceParse::Roll { count: n as u32, sides: sides as u32 }
                        }
                    },
                }
            }
        },
    }
}

/// The run of digits from `i` is all digits, and it ends at the end of `s` or before a non-digit.
pub proof fn lemma_digit_run(s: Seq<char>, i: int)
    requires
        0 <= i <= s.len(),
    ensures
        i <= digit_run_end(s, i) <= s.len(),
        all_digits(s.subrange(i, digit_run_end(s, i))),
        digit_run_end(s, i) == s.len() || !is_ascii_digit(s[digit_run_end(s, i)]),
    decreases s.len() - i,
{
    if i < s.len() && is_ascii_digit(s[i]) {
        lemma_digit_run(s, i + 1);
        let e = digit_run_end(s, i);
        assert forall|k: int| 0 <= k < s.subrange(i, e).len() implies is_ascii_digit(
            #[trigger] s.subrange(i, e)[k],
        ) by {
            if k > 0 {
                assert(s.subrange(i, e)[k] == s.subrange(i + 1, e)[k - 1]);
            }
        }
    }
}

/// A found notation is well placed: its spans lie in `s` and hold digits only,
/// the sides' run is not empty and follows a `d`, and a written count ends at that `d`.
pub proof fn lemma_found_dice_shape(s: Seq<char>, i: int)
    requires
        0 <= i,
        dice_search(s, i) is Some,
    ensures
        ({
            let (count, (a, b)) = dice_search(s, i)->0;
            &&& 1 <= a < b <= s.len()
            &&& s[a - 1] == 'd'
            &&& all_digits(s.subrange(a, b))
            &&& (b == s.len() || !is_ascii_digit(s[b]))
            &&& match count {
                None => true,
                Some((c, d)) => 0 <= c < d && d == a - 1 && all_digits(s.subrange(c, d)),
            }
        }),
    decreases s.len() - i,
{
    if dice_match_at(s, i) is Some {
        lemma_digit_run(s, i);
        let j = digit_run_end(s, i);
        if j > i {
            lemma_digit_run(s, j + 1);
        } else {
            lemma_digit_run(s, i + 1);
        }
    } else {
        lemma_found_dice_shape(s, i + 1);
    }
}

/// A run of digits from `i` that stops at `e` ends at `e`.
proof fn lemma_run_ends_at(s: Seq<char>, i: int, e: int)
    requires
        0 <= i <= e <= s.len(),
        forall|k: int| i <= k < e ==> is_ascii_digit(#[trigger] s[k]),
        e == s.len() || !is_ascii_digit(s[e]),
    ensures
        digit_run_end(s, i) == e,
    decreases e - i,
{
    if i < e {
        lemma_run_ends_at(s, i + 1, e);
    }
}

/// Writing a notation and reading it back gives what was written: `<c>d<n>` asks
/// for `c` dice of `n` sides, and `d<n>` for one die of `n` sides, for every count
/// up to `i32::MAX` and every number of sides up to `u32::MAX`.
pub proof fn lemma_written_notation_reads_back(count: nat, sides: nat)
    requires
        count <= i32::MAX,
        sides <= u32::MAX,
    ensures
        parse_dice_spec(decimal(count) + "d"@ + decimal(sides)) == (DiceParse::Roll {
            count: count as u32,
            sides: sides as u32,
        }),
        parse_dice_spec("d"@ + decimal(sides)) == (DiceParse::Roll { count: 1, sides: sides as u32 }),
{
    reveal_strlit("d");
    lemma_decimal_reads_back(count);
    lemma_decimal_reads_back(sides);
    let c = decimal(count);
    let n = decimal(sides);
    let l = c.len() as int;

    let s = c + "d"@ + n;
    assert(s[l] == 'd');
    assert forall|k: int| 0 <= k < l implies is_ascii_digit(#[trigger] s[k]) by {
        assert(s[k] == c[k]);
    }
    assert forall|k: int| l + 1 <= k < s.len() implies is_ascii_digit(#[trigger] s[k]) by {
        assert(s[k] == n[k - l - 1]);
    }
    lemma_run_ends_at(s, 0, l);
    lemma_run_ends_at(s, l + 1, s.len() as int);
    assert(is_ascii_digit(s[l + 1]));
    assert(dice_match_at(s, 0) == Some::<DiceSpans>((Some((0, l)), (l + 1, s.len() as int))));
    assert(s.subrange(0, l) =~= c);
    assert(s.subrange(l + 1, s.len() as int) =~= n);

    let t = "d"@ + n;
    assert(t[0] == 'd');
    assert forall|k: int| 1 <= k < t.len() implies is_ascii_digit(#[trigger] t[k]) by {
        assert(t[k] == n[k - 1]);
    }
    lemma_run_ends_at(t, 0, 0);
    lemma_run_ends_at(t, 1, t.len() as int);
    assert(is_ascii_digit(t[1]));
    assert(dice_match_at(t, 0) == Some::<DiceSpans>((None, (1, t.len() as int))));
    assert(t.subrange(1, t.len() as int) =~= n);
}

/// The notation found is the leftmost one: it starts at some `i` where a notation
/// starts, and none starts before `i`; and nothing is found only when no notation
/// starts anywhere.
pub proof fn lemma_find_dice_leftmost(s: Seq<char>)
    ensures
        find_dice_spec(s) is None <==> forall|i: int|
            0 <= i < s.len() ==> #[trigger] dice_match_at(s, i) is None,
        find_dice_spec(s) is Some ==> exists|i: int|
            0 <= i < s.len() && #[trigger] dice_match_at(s, i) == find_dice_spec(s) && forall|k: int|
                0 <= k < i ==> #[trigger] dice_match_at(s, k) is None,
{
    lemma_dice_search_from(s, 0);
}

proof fn lemma_dice_search_from(s: Seq<char>, from: int)
    requires
        0 <= from,
    ensures
        dice_search(s, from) is None <==> forall|i: int|
            from <= i < s.len() ==> #[trigger] dice_match_at(s, i) is None,
        dice_search(s, from) is Some ==> exists|i: int|
            from <= i < s.len() && #[trigger] dice_match_at(s, i) == dice_search(s, from)
                && forall|k: int| from <= k < i ==> #[trigger] dice_match_at(s, k) is None,
    decreases s.len() - from,
{
    if from < s.len() {
        lemma_dice_search_from(s, from + 1);
        if dice_match_at(s, from) is Some {
            assert(dice_match_at(s, from) == dice_search(s, from));
        } else if dice_search(s, from + 1) is Some {
            let i = choose|i: int|
                from + 1 <= i < s.len() && #[trigger] dice_match_at(s, i) == dice_search(s, from + 1)
                    && forall|k: int| from + 1 <= k < i ==> #[trigger] dice_match_at(s, k) is None;
            assert forall|k: int| from <= k < i implies #[trigger] dice_match_at(s, k) is None by {}
        }
    }
}

/// Where the notation found in a text stands, as character positions.
#[derive(Clone, Copy, Debug)]
pub struct DiceMatch {
    /// The count's digits `[start, end)`, when the count is written.
    pub count_digits: Option<(usize, usize)>,
    /// The sides' digits `[start, end)`.
    pub sides_digits: (usize, usize),
}

impl DiceMatch {
    pub open spec fn spans(self) -> DiceSpans {
        (
            match self.count_digits {
                Some((a, b)) => Some((a as int, b as int)),
                None => None,
            },
            (self.sides_digits.0 as int, self.sides_digits.1 as int),
        )
    }
}

fn is_digit_char(c: char) -> (r: bool)
    ensures
        r == is_ascii_digit(c),
{
    '0' <= c && c <= '9'
}

fn run_end(s: &Vec<char>, i: usize) -> (j: usize)
    requires
        i <= s@.len(),
    ensures
        j == digit_run_end(s@, i as int),
{
    let mut j = i;
    while j < s.len() && is_digit_char(s[j])
        invariant
            i <= j <= s@.len(),
            digit_run_end(s@, i as int) == digit_run_end(s@, j as int),
        decreases s@.len() - j,
    {
        j += 1;
    }
    j
}

fn match_at(s: &Vec<char>, i: usize) -> (r: Option<DiceMatch>)
    requires
        i < s@.len(),
    ensures
        match r {
            Some(m) => dice_match_at(s@, i as int) == Some(m.spans()),
            None => dice_match_at(s@, i as int) is None,
        },
{
    proof { lemma_digit_run(s@, i as int); }
    let j = run_end(s, i);
    if j > i {
        if j < s.len() && s.len() - j > 1 && s[j] == 'd' && is_digit_char(s[j + 1]) {
            proof { lemma_digit_run(s@, j + 1); }
            let e = run_end(s, j + 1);
            Some(DiceMatch { count_digits: Some((i, j)), sides_digits: (j + 1, e) })
        } else {
            None
        }
    } else if s.len() - i > 1 && s[i] == 'd' && is_digit_char(s[i + 1]) {
        proof { lemma_digit_run(s@, i + 1); }
        let e = run_end(s, i + 1);
        Some(DiceMatch { count_digits: None, sides_digits: (i + 1, e) })
    } else {
        None
    }
}

fn find_in_chars(s: &Vec<char>) -> (r: Option<DiceMatch>)
    ensures
        match r {
            Some(m) => find_dice_spec(s@) == Some(m.spans()),
            None => find_dice_spec(s@) is None,
        },
{
    let mut i: usize = 0;
    while i < s.len()
        invariant
            i <= s@.len(),
            find_dice_spec(s@) == dice_search(s@, i as int),
        decreases s@.len() - i,
    {
        let m = match_at(s, i);
        if m.is_some() {
            return m;
        }
        i += 1;
    }
    None
}

/// Finds the leftmost dice notation in `text`, as character positions.
pub fn find_dice(text: &str) -> (r: Option<DiceMatch>)
    ensures
        match r {
            Some(m) => find_dice_spec(text@) == Some(m.spans()),
            None => find_dice_spec(text@) is None,
        },
{
    let s = text_chars(text);
    find_in_chars(&s)
}

/// The value of the digits `s[start..end)`, when it is at most `limit`.
fn digits_value(s: &Vec<char>, start: usize, end: usize, limit: u64) -> (r: Option<u64>)
    requires
        start <= end <= s@.len(),
        all_digits(s@.subrange(start as int, end as int)),
        limit <= u32::MAX,
    ensures
        match r {
            Some(v) => v == decimal_value(s@.subrange(start as int, end as int)) && v <= limit,
            None => decimal_value(s@.subrange(start as int, end as int)) > limit,
        },
{
    let ghost whole = s@.subrange(start as int, end as int);
    let mut acc: u64 = 0;
    let mut k = start;
    assert(s@.subrange(start as int, start as int) =~= Seq::<char>::empty());
    while k < end
        invariant
            start <= k <= end <= s@.len(),
            whole == s@.subrange(start as int, end as int),
            all_digits(whole),
            limit <= u32::MAX,
            acc == decimal_value(s@.subrange(start as int, k as int)),
            acc <= limit,
        decreases end - k,
    {
        let c = s[k];
        assert(whole[k - start] == c);
        let d = (c as u32 - '0' as u32) as u64;
        let ghost prefix = s@.subrange(start as int, k + 1);
        assert(prefix.drop_last() =~= s@.subrange(start as int, k as int));
        assert(prefix.last() == c);
        acc = acc * 10 + d;
        k += 1;
        if acc > limit {
            proof {
                assert(whole.take(k - start) =~= prefix);
                lemma_decimal_value_prefix(whole, k - start);
            }
            return None;
        }
    }
    Some(acc)
}

/// Reads the dice notation in `text`: how many dice, and how many sides.
pub fn parse_dice(text: &str) -> (r: DiceParse)
    ensures
        r == parse_dice_spec(text@),
{
    let s = text_chars(text);
    match find_in_chars(&s) {
        None => DiceParse::Invalid,
        Some(m) => {
            proof { lemma_found_dice_shape(s@, 0); }
            let (a, b) = m.sides_digits;
            match digits_value(&s, a, b, u32::MAX as u64) {
                None => DiceParse::SidesTooLarge,
                Some(sides) => match m.count_digits {
                    None => DiceParse::Roll { count: 1, sides: sides as u32 },
                    Some((c, d)) => match digits_value(&s, c, d, i32::MAX as u64) {
                        None => DiceParse::CountTooLarge,
                        Some(n) => DiceParse::Roll { count: n as u32, sides: sides as u32 },
                    },
                },
            }
        },
    }
}

} // verus!
