use admiral::rolls::{roll_dice, roll_reply, sort_highest_first, RollAbort};

#[test]
fn rolls_are_listed_highest_first() {
    let r = roll_reply(42, None, 6, vec![2, 6, 4], false).unwrap();
    assert_eq!(r, "<@42> is rolling:\n\t\t6 out of 6\n\t\t4 out of 6\n\t\t2 out of 6\n");
}

#[test]
fn action_and_sum() {
    let r = roll_reply(7, Some("attack"), 20, vec![3, 17, 3], true).unwrap();
    assert_eq!(
        r,
        "<@7> is rolling for attack:\n\t\t17 out of 20\n\t\t3 out of 20\n\t\t3 out of 20\n\nSum: 23"
    );
}

#[test]
fn no_rolls_sum_to_zero() {
    let r = roll_reply(1, None, 0, vec![], true).unwrap();
    assert_eq!(r, "<@1> is rolling:\n\nSum: 0");
}

#[test]
fn sum_must_fit() {
    assert_eq!(roll_reply(1, None, u32::MAX, vec![u32::MAX, 1], true), Err(RollAbort::SumOverflow));
    let r = roll_reply(1, None, u32::MAX, vec![1, u32::MAX], false).unwrap();
    assert_eq!(r, "<@1> is rolling:\n\t\t4294967295 out of 4294967295\n\t\t1 out of 4294967295\n");
    let r = roll_reply(1, None, u32::MAX, vec![u32::MAX, 0], true).unwrap();
    assert!(r.ends_with("\nSum: 4294967295"));
}

#[test]
fn sorting_keeps_the_values() {
    let mut v = vec![3, 9, 1, 9, 0, 4];
    sort_highest_first(&mut v);
    assert_eq!(v, vec![9, 9, 4, 3, 1, 0]);
    let mut e: Vec<u32> = vec![];
    sort_highest_first(&mut e);
    assert!(e.is_empty());
}

#[test]
fn drawn_rolls_fit_the_die() {
    let rolls = roll_dice(200, 6);
    assert_eq!(rolls.len(), 200);
    assert!(rolls.iter().all(|r| (1..=6).contains(r)));
    assert!(roll_dice(0, 0).is_empty());
    assert_eq!(roll_dice(3, 1), vec![1, 1, 1]);
}

#[test]
fn abort_messages() {
    assert_eq!(RollAbort::EmptyRange.message(), "cannot sample empty range");
    assert_eq!(RollAbort::SumOverflow.message(), "attempt to add with overflow");
    assert_eq!(
        RollAbort::SidesTooLarge.message(),
        "Only will error if a masive number is put in: ParseIntError { kind: PosOverflow }"
    );
    assert_eq!(
        RollAbort::CountTooLarge.message(),
        "Logically, this will always work: ParseIntError { kind: PosOverflow }"
    );
}
