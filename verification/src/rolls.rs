//! Rolling dice and writing out the result.

use vstd::prelude::*;

use crate::chance::random_in_range;
use crate::text::{all_digits, decimal, decimal_value, lemma_decimal_reads_back, push_decimal};

verus! {

/// Why the roll command gives up: the bot then stops with a panic carrying `message`.
#[derive(Clone, Copy, Debug, PartialEq, Eq, Structural)]
pub enum RollAbort {
    /// The number of sides does not fit in a `u32`.
    SidesTooLarge,
    /// The number of dice does not fit in an `i32`.
    CountTooLarge,
    /// At least one die with no sides was asked for: there is nothing to draw from.
    EmptyRange,
    /// The sum of the rolls does not fit in a `u32`.
    SumOverflow,
}

impl RollAbort {
    /// The panic message the bot stops with.
    pub fn message(&self) -> (r: &'static str)
        ensures
            r@ == roll_abort_message(*self),
    {
        match self {
            RollAbort::SidesTooLarge => "Only will error if a masive number is put in: ParseIntError { kind: PosOverflow }",
            RollAbort::CountTooLarge => "Logically, this will always work: ParseIntError { kind: PosOverflow }",
            RollAbort::EmptyRange => "cannot sample empty range",
            RollAbort::SumOverflow => "attempt to add with overflow",
        }
    }
}

pub open spec fn roll_abort_message(a: RollAbort) -> Seq<char> {
    match a {
        RollAbort::SidesTooLarge => "Only will error if a masive number is put in: ParseIntError { kind: PosOverflow }"@,
        RollAbort::CountTooLarge => "Logically, this will always work: ParseIntError { kind: PosOverflow }"@,
        RollAbort::EmptyRange => "cannot sample empty range"@,
        RollAbort::SumOverflow => "attempt to add with overflow"@,
    }
}

/// The order in which rolls are shown: the highest first.
pub open spec fn highest_first() -> spec_fn(u32, u32) -> bool {
    |a: u32, b: u32| a >= b
}

/// The rolls in the order they are shown.
pub open spec fn shown_order(rolls: Seq<u32>) -> Seq<u32> {
    rolls.sort_by(highest_first())
}

/// The sum of the rolls.
pub open spec fn total(rolls: Seq<u32>) -> nat
    decreases rolls.len(),
{
    if rolls.len() == 0 {
        0
    } else {
        total(rolls.drop_last()) + rolls.last() as nat
    }
}

/// Each roll lies between 1 and `sides`, and there are `count` of them.
pub open spec fn rolls_fit(rolls: Seq<u32>, count: u32, sides: u32) -> bool {
    &&& rolls.len() == count
    &&& forall|i: int| 0 <= i < rolls.len() ==> 1 <= #[trigger] rolls[i] <= sides
}

/// The first line of a roll message: who rolls, and what for.
pub open spec fn roll_header(user: u64, action: Option<Seq<char>>) -> Seq<char> {
    match action {
        None => "<@"@ + decimal(user as nat) + "> is rolling:\n"@,
        Some(a) => "<@"@ + decimal(user as nat) + "> is rolling for "@ + a + ":\n"@,
    }
}

/// One line per roll, in the order given.
pub open spec fn roll_lines(rolls: Seq<u32>, sides: u32) -> Seq<char>
    decreases rolls.len(),
{
    if rolls.len() == 0 {
        Seq::empty()
    } else {
        roll_lines(rolls.drop_last(), sides) + "\t\t"@ + decimal(rolls.last() as nat) + " out of "@
            + decimal(sides as nat) + "\n"@
    }
}

/// The message for `rolls` of dice with `sides` sides: the header, the rolls highest
/// first, and, when asked for, the sum, which must fit in a `u32`.
pub open spec fn roll_text(
    user: u64,
    action: Option<Seq<char>>,
    sides: u32,
    rolls: Seq<u32>,
    with_sum: bool,
) -> Result<Seq<char>, RollAbort> {
    if with_sum && total(rolls) > u32::MAX {
        Err(RollAbort::SumOverflow)
    } else {
        let body = roll_header(user, action) + roll_lines(shown_order(rolls), sides);
        if with_sum {
            Ok(body + "\nSum: "@ + decimal(total(rolls)))
        } else {
            Ok(body)
        }
    }
}

/// Every roll message starts by mentioning the user in full: `<@`, then a run of
/// digits that reads back as the user's id (any `u64`, none cut off), then `>`.
pub proof fn lemma_roll_message_mentions_user(
    user: u64,
    action: Option<Seq<char>>,
    sides: u32,
    rolls: Seq<u32>,
    with_sum: bool,
)
    ensures
        roll_text(user, action, sides, rolls, with_sum) matches Ok(t) ==> {
            let d = decimal(user as nat);
            &&& all_digits(d)
            &&& decimal_value(d) == user
            &&& d.len() >= 1
            &&& t.len() > 2 + d.len()
            &&& t[0] == '<' && t[1] == '@'
            &&& t.subrange(2, 2 + d.len() as int) == d
            &&& t[2 + d.len() as int] == '>'
        },
{
    reveal_strlit("<@");
    reveal_strlit("> is rolling:\n");
    reveal_strlit("> is rolling for ");
    lemma_decimal_reads_back(user as nat);
    let d = decimal(user as nat);
    if let Ok(t) = roll_text(user, action, sides, rolls, with_sum) {
        assert(t.subrange(2, 2 + d.len() as int) =~= d);
    }
}

/// The roll lines are written roll by roll, in order: one roll gives the line
/// `\t\t<roll> out of <sides>\n`, and the lines of two runs of rolls are the lines
/// of the first followed by those of the second.
pub proof fn lemma_roll_lines_per_roll(first: Seq<u32>, second: Seq<u32>, roll: u32, sides: u32)
    ensures
        roll_lines(seq![roll], sides) == "\t\t"@ + decimal(roll as nat) + " out of "@ + decimal(sides as nat) + "\n"@,
        roll_lines(first + second, sides) == roll_lines(first, sides) + roll_lines(second, sides),
    decreases second.len(),
{
    assert(seq![roll].drop_last() =~= Seq::<u32>::empty());
    assert(roll_lines(Seq::<u32>::empty(), sides) =~= Seq::<char>::empty());
    assert(Seq::<char>::empty() + "\t\t"@ =~= "\t\t"@);
    if second.len() == 0 {
        assert(first + second =~= first);
        assert(roll_lines(first, sides) + roll_lines(second, sides) =~= roll_lines(first, sides));
    } else {
        lemma_roll_lines_per_roll(first, second.drop_last(), roll, sides);
        assert((first + second).drop_last() =~= first + second.drop_last());
        assert((first + second).last() == second.last());
        let line = "\t\t"@ + decimal(second.last() as nat) + " out of "@ + decimal(sides as nat) + "\n"@;
        assert(roll_lines(first + second, sides) =~= roll_lines(first, sides) + roll_lines(second.drop_last(), sides) + line);
    }
}

/// The view of a reply that may abort.
pub open spec fn reply_view(r: Result<String, RollAbort>) -> Result<Seq<char>, RollAbort> {
    match r {
        Ok(s) => Ok(s@),
        Err(e) => Err(e),
    }
}

proof fn lemma_highest_first_total_order()
    ensures
        vstd::relations::total_ordering(highest_first()),
{
    assert(vstd::relations::reflexive(highest_first()));
    assert(vstd::relations::antisymmetric(highest_first()));
    assert(vstd::relations::transitive(highest_first()));
    assert(vstd::relations::strongly_connected(highest_first()));
}

/// Removing one roll takes exactly that roll off the sum.
proof fn lemma_total_remove(s: Seq<u32>, k: int)
    requires
        0 <= k < s.len(),
    ensures
        total(s) == total(s.remove(k)) + s[k],
    decreases s.len(),
{
    if k == s.len() - 1 {
        assert(s.remove(k) =~= s.drop_last());
    } else {
        lemma_total_remove(s.drop_last(), k);
        assert(s.remove(k).drop_last() =~= s.drop_last().remove(k));
        assert(s.remove(k).last() == s.last());
    }
}

/// Rolls holding the same values, whatever their order, have the same sum.
pub proof fn lemma_total_depends_on_values_only(a: Seq<u32>, b: Seq<u32>)
    requires
        a.to_multiset() == b.to_multiset(),
    ensures
        total(a) == total(b),
    decreases a.len(),
{
    broadcast use vstd::seq_lib::group_to_multiset_ensures;
    broadcast use vstd::multiset::group_multiset_axioms;
    vstd::seq_lib::to_multiset_len(a);
    vstd::seq_lib::to_multiset_len(b);
    if a.len() > 0 {
        let x = a.last();
        let rest = a.drop_last();
        assert(a =~= rest.push(x));
        vstd::seq_lib::to_multiset_build(rest, x);
        vstd::seq_lib::to_multiset_contains(a, x);
        assert(a.contains(x)) by {
            assert(a[a.len() - 1] == x);
        }
        vstd::seq_lib::to_multiset_contains(b, x);
        let k = choose|k: int| 0 <= k < b.len() && b[k] == x;
        vstd::seq_lib::to_multiset_remove(b, k);
        lemma_total_remove(b, k);
        assert(rest.to_multiset() =~= b.remove(k).to_multiset());
        lemma_total_depends_on_values_only(rest, b.remove(k));
    }
}

/// The rolls are shown highest first, as a reordering of the rolls drawn: the same
/// values, each as often, and so the same sum.
pub proof fn lemma_shown_order(rolls: Seq<u32>)
    ensures
        vstd::relations::sorted_by(shown_order(rolls), highest_first()),
        forall|i: int, j: int|
            0 <= i < j < shown_order(rolls).len() ==> shown_order(rolls)[i] >= shown_order(rolls)[j],
        shown_order(rolls).to_multiset() == rolls.to_multiset(),
        shown_order(rolls).len() == rolls.len(),
        total(shown_order(rolls)) == total(rolls),
{
    lemma_highest_first_total_order();
    rolls.lemma_sort_by_ensures(highest_first());
    vstd::seq_lib::to_multiset_len(rolls);
    vstd::seq_lib::to_multiset_len(shown_order(rolls));
    lemma_total_depends_on_values_only(shown_order(rolls), rolls);
    assert forall|i: int, j: int|
        0 <= i < j < shown_order(rolls).len() implies shown_order(rolls)[i] >= shown_order(rolls)[j] by {
        assert(highest_first()(shown_order(rolls)[i], shown_order(rolls)[j]));
    }
}

/// Sorts `v` so that the highest roll comes first.
pub fn sort_highest_first(v: &mut Vec<u32>)
    ensures
        final(v)@ == shown_order(old(v)@),
{
    broadcast use vstd::seq_lib::group_to_multiset_ensures;
    let ghost unsorted = v@;
    let n = v.len();
    let mut i: usize = 1;
    if n == 0 {
        proof {
            lemma_highest_first_total_order();
            unsorted.lemma_sort_by_ensures(highest_first());
            vstd::seq_lib::lemma_sorted_unique(v@, shown_order(unsorted), highest_first());
        }
        return;
    }
    while i < n
        invariant
            1 <= i <= n,
            n == v@.len(),
            v@.to_multiset() == unsorted.to_multiset(),
            forall|a: int, b: int| 0 <= a < b < i ==> v@[a] >= v@[b],
        decreases n - i,
    {
        let mut j = i;
        while j > 0 && v[j - 1] < v[j]
            invariant
                0 <= j <= i < n,
                n == v@.len(),
                v@.to_multiset() == unsorted.to_multiset(),
                forall|a: int, b: int| 0 <= a < b <= i && b != j ==> v@[a] >= v@[b],
            decreases j,
        {
            let ghost before = v@;
            let x = v[j - 1];
            let y = v[j];
            v.set(j - 1, y);
            v.set(j, x);
            proof {
                broadcast use vstd::multiset::group_multiset_axioms;
                let mid = before.update(j - 1, y);
                vstd::seq_lib::to_multiset_update(before, j - 1, y);
                vstd::seq_lib::to_multiset_update(mid, j as int, x);
                assert(v@ == mid.update(j as int, x));
                assert(mid[j as int] == y);
                vstd::seq_lib::to_multiset_contains(before, x);
                assert(before[j - 1] == x);
                assert(before.to_multiset().count(x) > 0);
                let m = before.to_multiset();
                assert(m.insert(y).remove(x).insert(x).remove(y) =~= m);
            }
            j -= 1;
        }
        i += 1;
    }
    proof {
        lemma_highest_first_total_order();
        unsorted.lemma_sort_by_ensures(highest_first());
        assert(vstd::relations::sorted_by(v@, highest_first()));
        vstd::seq_lib::lemma_sorted_unique(v@, shown_order(unsorted), highest_first());
    }
}

/// Draws `count` rolls of a die with `sides` sides.
pub fn roll_dice(count: u32, sides: u32) -> (rolls: Vec<u32>)
    requires
        count > 0 ==> sides >= 1,
    ensures
        rolls_fit(rolls@, count, sides),
{
    let mut rolls: Vec<u32> = Vec::new();
    let mut k: u32 = 0;
    while k < count
        invariant
            k <= count,
            count > 0 ==> sides >= 1,
            rolls_fit(rolls@, k, sides),
        decreases count - k,
    {
        let r = random_in_range(1, sides);
        rolls.push(r);
        k += 1;
    }
    rolls
}

/// The sum of `rolls`, when it fits in a `u32`.
fn checked_total(rolls: &Vec<u32>) -> (r: Option<u32>)
    ensures
        match r {
            Some(t) => t == total(rolls@),
            None => total(rolls@) > u32::MAX,
        },
{
    let mut acc: u64 = 0;
    let mut i: usize = 0;
    while i < rolls.len()
        invariant
            i <= rolls@.len(),
            acc == total(rolls@.take(i as int)),
            acc <= u32::MAX,
        decreases rolls@.len() - i,
    {
        assert(rolls@.take(i + 1).drop_last() =~= rolls@.take(i as int));
        acc = acc + rolls[i] as u64;
        i += 1;
        if acc > u32::MAX as u64 {
            proof { lemma_total_prefix(rolls@, i as int); }
            return None;
        }
    }
    assert(rolls@.take(i as int) =~= rolls@);
    Some(acc as u32)
}

/// A prefix of the rolls sums to no more than all of them.
proof fn lemma_total_prefix(s: Seq<u32>, k: int)
    requires
        0 <= k <= s.len(),
    ensures
        total(s.take(k)) <= total(s),
    decreases s.len(),
{
    if k == s.len() {
        assert(s.take(k) =~= s);
    } else {
        lemma_total_prefix(s.drop_last(), k);
        assert(s.drop_last().take(k) =~= s.take(k));
    }
}

/// Writes the message for `rolls`: the header, each roll highest first as
/// "`roll` out of `sides`", and the sum when `with_sum` is set.
pub fn roll_reply(
    user: u64,
    action: Option<&str>,
    sides: u32,
    rolls: Vec<u32>,
    with_sum: bool,
) -> (r: Result<String, RollAbort>)
    ensures
        reply_view(r) == roll_text(
            user,
            match action {
                Some(a) => Some(a@),
                None => None,
            },
            sides,
            rolls@,
            with_sum,
        ),
{
    let ghost drawn = rolls@;
    let sum = checked_total(&rolls);
    if with_sum && sum.is_none() {
        return Err(RollAbort::SumOverflow);
    }
    let mut shown = rolls;
    sort_highest_first(&mut shown);
    let mut out = String::new();
    out.append("<@");
    push_decimal(&mut out, user);
    match action {
        None => {
            out.append("> is rolling:\n");
        },
        Some(a) => {
            out.append("> is rolling for ");
            out.append(a);
            out.append(":\n");
        },
    }
    let ghost header = out@;
    let mut i: usize = 0;
    while i < shown.len()
        invariant
            i <= shown@.len(),
            out@ == header + roll_lines(shown@.take(i as int), sides),
        decreases shown@.len() - i,
    {
        assert(shown@.take(i + 1).drop_last() =~= shown@.take(i as int));
        out.append("\t\t");
        push_decimal(&mut out, shown[i] as u64);
        out.append(" out of ");
        push_decimal(&mut out, sides as u64);
        out.append("\n");
        i += 1;
        assert(out@ =~= header + roll_lines(shown@.take(i as int), sides));
    }
    assert(shown@.take(i as int) =~= shown@);
    if with_sum {
        match sum {
            Some(t) => {
                out.append("\nSum: ");
                push_decimal(&mut out, t as u64);
            },
            None => {},
        }
    }
    Ok(out)
}

} // verus!
