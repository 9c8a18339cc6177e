use admiral::dice::{find_dice, parse_dice, DiceParse};
use regex::Regex;

fn roll(count: u32, sides: u32) -> DiceParse {
    DiceParse::Roll { count, sides }
}

#[test]
fn documented_examples_are_valid() {
    assert_eq!(parse_dice("2d20"), roll(2, 20));
    assert_eq!(parse_dice("d7"), roll(1, 7));
    assert_eq!(parse_dice("14d28"), roll(14, 28));
}

#[test]
fn default_dice_is_one_twenty_sided_die() {
    assert_eq!(parse_dice("d20"), roll(1, 20));
}

#[test]
fn text_without_notation_is_invalid() {
    assert_eq!(parse_dice(""), DiceParse::Invalid);
    assert_eq!(parse_dice("abc"), DiceParse::Invalid);
    assert_eq!(parse_dice("d"), DiceParse::Invalid);
    assert_eq!(parse_dice("12d"), DiceParse::Invalid);
    assert_eq!(parse_dice("2D6"), DiceParse::Invalid);
    assert_eq!(parse_dice("20"), DiceParse::Invalid);
}

#[test]
fn notation_is_found_anywhere_leftmost_first() {
    assert_eq!(parse_dice("roll 3d6 please"), roll(3, 6));
    assert_eq!(parse_dice("dd6"), roll(1, 6));
    assert_eq!(parse_dice("1a2d5"), roll(2, 5));
    assert_eq!(parse_dice("3d4 and 5d6"), roll(3, 4));
    assert_eq!(parse_dice("d4 2d8"), roll(1, 4));
    assert_eq!(parse_dice("12dx3d9"), roll(3, 9));
    assert_eq!(parse_dice("é2d6"), roll(2, 6));
}

#[test]
fn runs_of_digits_are_taken_whole() {
    assert_eq!(parse_dice("007d010"), roll(7, 10));
    assert_eq!(parse_dice("2d20x"), roll(2, 20));
    assert_eq!(parse_dice("0d0"), roll(0, 0));
}

#[test]
fn number_limits() {
    assert_eq!(parse_dice("2147483647d6"), roll(2147483647, 6));
    assert_eq!(parse_dice("2147483648d6"), DiceParse::CountTooLarge);
    assert_eq!(parse_dice("d4294967295"), roll(1, 4294967295));
    assert_eq!(parse_dice("d4294967296"), DiceParse::SidesTooLarge);
    assert_eq!(parse_dice("99999999999d99999999999"), DiceParse::SidesTooLarge);
    assert_eq!(parse_dice("99999999999d6"), DiceParse::CountTooLarge);
}

#[test]
fn spans_of_the_match() {
    let m = find_dice("xx12d34y").unwrap();
    assert_eq!(m.count_digits, Some((2, 4)));
    assert_eq!(m.sides_digits, (5, 7));
    let m = find_dice("zd9").unwrap();
    assert_eq!(m.count_digits, None);
    assert_eq!(m.sides_digits, (2, 3));
    assert!(find_dice("nothing here").is_none());
}

/// The spans agree with the pattern `([0-9]+)?d([0-9]+)` as the regex crate reads it.
#[test]
fn agrees_with_the_regex_crate() {
    let pattern = Regex::new("([0-9]+)?d([0-9]+)").unwrap();
    let samples = [
        "", "d", "d1", "1d1", "2d20", "d7", "14d28", "dd6", "12d", "12d3", "a1d2", "1a2d5",
        "3d4 and 5d6", "x9d", "9d9d9", "d0", "0d0", "00d00", "12dx3d9", "ddd", "1234", "d12d34",
        "é2d6ö", "2 d6", "2dd6", "5d6x7d8", "d4 2d8",
    ];
    for text in samples.iter() {
        let ours = find_dice(text);
        let theirs = pattern.captures(text);
        let chars: Vec<char> = text.chars().collect();
        let cut = |(a, b): (usize, usize)| chars[a..b].iter().collect::<String>();
        match (ours, theirs) {
            (None, None) => {}
            (Some(m), Some(c)) => {
                assert_eq!(cut(m.sides_digits), c.get(2).unwrap().as_str(), "{}", text);
                assert_eq!(m.count_digits.map(cut), c.get(1).map(|g| g.as_str().to_string()), "{}", text);
                let start = m.count_digits.map(|s| s.0).unwrap_or(m.sides_digits.0 - 1);
                let byte_start = text.char_indices().nth(start).map(|(b, _)| b).unwrap();
                assert_eq!(byte_start, c.get(0).unwrap().start(), "{}", text);
            }
            (ours, theirs) => panic!("{}: {:?} against {:?}", text, ours, theirs.is_some()),
        }
    }
}
