//! Namespaces that do not collide: the namespaces that one operation enters
//! are distinct from one another, and an operation none of whose namespaces
//! was entered before leaves a synthesis without collisions as it was.
use crate::arithmetic::{
    division_closing, division_opening, division_purposes, division_round, division_rounds,
};
use crate::integer::{ArithmeticOperation, binary_label, divides, entered, IntegerView, nested};
use crate::span::Span;
use crate::text::{decimal_digits, lemma_digits_read_back};
use vstd::prelude::*;

verus! {

/// The purposes of a round of a signed division, each as it stands before the
/// number of the round.
pub open spec fn round_purposes() -> Seq<Seq<char>> {
    seq![
        "shift_left_"@,
        "set_remainder_bit_"@,
        "increment_or_remainder_"@,
        "compare_remainder_"@,
        "subtract_divisor_"@,
        "subtract_or_same_"@,
        "set_bit_or_same_"@,
    ]
}

/// The purposes of a signed division that carry no number.
pub open spec fn plain_purposes() -> Seq<Seq<char>> {
    division_opening() + division_closing()
}

/// Texts that begin alike and are equal end alike.
pub proof fn lemma_same_beginning(a: Seq<char>, x: Seq<char>, y: Seq<char>)
    requires
        a + x == a + y,
    ensures
        x == y,
{
    assert(x =~= (a + x).subrange(a.len() as int, (a + x).len() as int));
    assert(y =~= (a + y).subrange(a.len() as int, (a + y).len() as int));
}

/// The length of a text, its first letter and its last.
pub open spec fn ends(s: Seq<char>) -> (nat, char, char) {
    (s.len(), s[0], s[s.len() - 1])
}

/// The first letter of a text and its tenth.
pub open spec fn stamp(s: Seq<char>) -> (char, char) {
    (s[0], s[9])
}

/// What tells the purposes of a signed division apart: those without a number
/// by their length, their first letter and their last; those of a round by
/// their first letter and their tenth, which also tell them from every purpose
/// without a number that is long enough to begin with one of them.
pub proof fn lemma_purposes_spelled()
    ensures
        plain_purposes().len() == 23,
        round_purposes().len() == 7,
        forall|f: int, g: int|
            0 <= f < 23 && 0 <= g < 23 && f != g ==> ends(#[trigger] plain_purposes()[f]) != ends(
                #[trigger] plain_purposes()[g],
            ),
        forall|k: int| 0 <= k < 7 ==> (#[trigger] round_purposes()[k]).len() >= 11,
        forall|k: int, l: int|
            0 <= k < 7 && 0 <= l < 7 && k != l ==> stamp(#[trigger] round_purposes()[k]) != stamp(
                #[trigger] round_purposes()[l],
            ),
        forall|f: int, k: int|
            0 <= f < 23 && 0 <= k < 7 ==> (#[trigger] plain_purposes()[f]).len() < 12 || stamp(
                plain_purposes()[f],
            ) != stamp(#[trigger] round_purposes()[k]),
{
    reveal_strlit("true");
    reveal_strlit("constant_or_allocated_true");
    reveal_strlit("one");
    reveal_strlit("constant_or_allocated_1");
    reveal_strlit("zero");
    reveal_strlit("constant_or_allocated_0");
    reveal_strlit("other_min_check");
    reveal_strlit("self_min_check");
    reveal_strlit("both_min");
    reveal_strlit("allocated_one");
    reveal_strlit("a_valid");
    reveal_strlit("a_set");
    reveal_strlit("b_set");
    reveal_strlit("compare_msb");
    reveal_strlit("a_neg");
    reveal_strlit("a_abs");
    reveal_strlit("b_neg");
    reveal_strlit("b_abs");
    reveal_strlit("negate");
    reveal_strlit("positive or negative");
    reveal_strlit("fraction");
    reveal_strlit("one_result");
    reveal_strlit("self_or_quotient");
    reveal_strlit("shift_left_");
    reveal_strlit("set_remainder_bit_");
    reveal_strlit("increment_or_remainder_");
    reveal_strlit("compare_remainder_");
    reveal_strlit("subtract_divisor_");
    reveal_strlit("subtract_or_same_");
    reveal_strlit("set_bit_or_same_");
    assert(ends(plain_purposes()[0]) == (4nat, 't', 'e'));
    assert(ends(plain_purposes()[1]) == (26nat, 'c', 'e'));
    assert(stamp(plain_purposes()[1]) == ('c', 'o'));
    assert(ends(plain_purposes()[2]) == (3nat, 'o', 'e'));
    assert(ends(plain_purposes()[3]) == (23nat, 'c', '1'));
    assert(stamp(plain_purposes()[3]) == ('c', 'o'));
    assert(ends(plain_purposes()[4]) == (4nat, 'z', 'o'));
    assert(ends(plain_purposes()[5]) == (23nat, 'c', '0'));
    assert(stamp(plain_purposes()[5]) == ('c', 'o'));
    assert(ends(plain_purposes()[6]) == (15nat, 'o', 'k'));
    assert(stamp(plain_purposes()[6]) == ('o', '_'));
    assert(ends(plain_purposes()[7]) == (14nat, 's', 'k'));
    assert(stamp(plain_purposes()[7]) == ('s', 'c'));
    assert(ends(plain_purposes()[8]) == (8nat, 'b', 'n'));
    assert(ends(plain_purposes()[9]) == (13nat, 'a', 'e'));
    assert(stamp(plain_purposes()[9]) == ('a', '_'));
    assert(ends(plain_purposes()[10]) == (7nat, 'a', 'd'));
    assert(ends(plain_purposes()[11]) == (5nat, 'a', 't'));
    assert(ends(plain_purposes()[12]) == (5nat, 'b', 't'));
    assert(ends(plain_purposes()[13]) == (11nat, 'c', 'b'));
    assert(ends(plain_purposes()[14]) == (5nat, 'a', 'g'));
    assert(ends(plain_purposes()[15]) == (5nat, 'a', 's'));
    assert(ends(plain_purposes()[16]) == (5nat, 'b', 'g'));
    assert(ends(plain_purposes()[17]) == (5nat, 'b', 's'));
    assert(ends(plain_purposes()[18]) == (6nat, 'n', 'e'));
    assert(ends(plain_purposes()[19]) == (20nat, 'p', 'e'));
    assert(stamp(plain_purposes()[19]) == ('p', 'o'));
    assert(ends(plain_purposes()[20]) == (8nat, 'f', 'n'));
    assert(ends(plain_purposes()[21]) == (10nat, 'o', 't'));
    assert(ends(plain_purposes()[22]) == (16nat, 's', 't'));
    assert(stamp(plain_purposes()[22]) == ('s', 'u'));
    assert(round_purposes()[0].len() == 11);
    assert(stamp(round_purposes()[0]) == ('s', 't'));
    assert(round_purposes()[1].len() == 18);
    assert(stamp(round_purposes()[1]) == ('s', 'n'));
    assert(round_purposes()[2].len() == 23);
    assert(stamp(round_purposes()[2]) == ('i', '_'));
    assert(round_purposes()[3].len() == 18);
    assert(stamp(round_purposes()[3]) == ('c', 'e'));
    assert(round_purposes()[4].len() == 17);
    assert(stamp(round_purposes()[4]) == ('s', 'd'));
    assert(round_purposes()[5].len() == 17);
    assert(stamp(round_purposes()[5]) == ('s', 'o'));
    assert(round_purposes()[6].len() == 16);
    assert(stamp(round_purposes()[6]) == ('s', 'r'));
}

/// A round of a signed division enters its seven purposes, each with the
/// number of the round.
pub proof fn lemma_round_spelled(i: nat, k: int)
    requires
        0 <= k < 7,
    ensures
        division_round(i).len() == 7,
        division_round(i)[k] == round_purposes()[k] + decimal_digits(i),
{
}

/// The rounds of a signed division enter seven namespaces each.
pub proof fn lemma_rounds_counted(width: nat, count: nat)
    requires
        count <= width,
    ensures
        division_rounds(width, count).len() == 7 * count,
    decreases count,
{
    if count > 0 {
        lemma_rounds_counted(width, (count - 1) as nat);
        lemma_round_spelled((width - count) as nat, 0);
    }
}

/// The namespace at the place `j` of the rounds of a signed division: the
/// rounds run from the highest bit down, and each enters its purposes in order.
pub proof fn lemma_round_at(width: nat, count: nat, j: int)
    requires
        count <= width,
        0 <= j < 7 * count,
    ensures
        division_rounds(width, count).len() == 7 * count,
        division_rounds(width, count)[j] == round_purposes()[j % 7] + decimal_digits(
            (width - 1 - j / 7) as nat,
        ),
    decreases count,
{
    lemma_rounds_counted(width, count);
    lemma_rounds_counted(width, (count - 1) as nat);
    let before = division_rounds(width, (count - 1) as nat);
    if j < 7 * (count - 1) {
        lemma_round_at(width, (count - 1) as nat, j);
        assert(division_rounds(width, count)[j] == before[j]);
    } else {
        let k = j - 7 * (count - 1);
        lemma_round_spelled((width - count) as nat, k);
        assert(division_rounds(width, count)[j] == division_round((width - count) as nat)[k]);
        assert(j / 7 == count - 1);
        assert(j % 7 == k);
    }
}

/// A purpose of a round with a number is none of the purposes without one.
pub proof fn lemma_round_is_not_plain(f: int, k: int, n: nat)
    requires
        0 <= f < 23,
        0 <= k < 7,
    ensures
        plain_purposes()[f] != round_purposes()[k] + decimal_digits(n),
{
    lemma_purposes_spelled();
    lemma_digits_read_back(n);
    let round = round_purposes()[k] + decimal_digits(n);
    assert(round[0] == round_purposes()[k][0]);
    assert(round[9] == round_purposes()[k][9]);
    assert(round.len() >= 12);
    assert(stamp(round) == stamp(round_purposes()[k]));
}

/// Two purposes of rounds with their numbers differ where the purposes or the
/// numbers do.
pub proof fn lemma_rounds_differ(k: int, n: nat, l: int, m: nat)
    requires
        0 <= k < 7,
        0 <= l < 7,
        k != l || n != m,
    ensures
        round_purposes()[k] + decimal_digits(n) != round_purposes()[l] + decimal_digits(m),
{
    lemma_purposes_spelled();
    lemma_digits_read_back(n);
    lemma_digits_read_back(m);
    let first = round_purposes()[k] + decimal_digits(n);
    let second = round_purposes()[l] + decimal_digits(m);
    if k != l {
        assert(first[0] == round_purposes()[k][0]);
        assert(first[9] == round_purposes()[k][9]);
        assert(second[0] == round_purposes()[l][0]);
        assert(second[9] == round_purposes()[l][9]);
        assert(stamp(first) == stamp(round_purposes()[k]));
        assert(stamp(second) == stamp(round_purposes()[l]));
    } else if first == second {
        lemma_same_beginning(round_purposes()[k], decimal_digits(n), decimal_digits(m));
    }
}

/// The namespaces that a signed division enters are distinct from one another.
pub proof fn lemma_division_purposes_are_distinct(width: nat)
    ensures
        division_purposes(width).no_duplicates(),
{
    let all = division_purposes(width);
    let rounds = division_rounds(width, width);
    lemma_purposes_spelled();
    lemma_rounds_counted(width, width);
    assert(division_opening().len() == 18);
    assert(division_closing().len() == 5);
    assert forall|i: int, j: int| 0 <= i < all.len() && 0 <= j < all.len() && i != j implies all[i]
        != all[j] by {
        let plain_i = i < 18 || i >= 18 + 7 * width;
        let plain_j = j < 18 || j >= 18 + 7 * width;
        let f = if i < 18 { i } else { i - 7 * width };
        let g = if j < 18 { j } else { j - 7 * width };
        if plain_i {
            assert(all[i] == plain_purposes()[f]);
        } else {
            lemma_round_at(width, width, i - 18);
            assert(all[i] == rounds[i - 18]);
        }
        if plain_j {
            assert(all[j] == plain_purposes()[g]);
        } else {
            lemma_round_at(width, width, j - 18);
            assert(all[j] == rounds[j - 18]);
        }
        if plain_i && plain_j {
            assert(ends(plain_purposes()[f]) != ends(plain_purposes()[g]));
        } else if plain_i {
            lemma_round_is_not_plain(f, (j - 18) % 7, (width - 1 - (j - 18) / 7) as nat);
        } else if plain_j {
            lemma_round_is_not_plain(g, (i - 18) % 7, (width - 1 - (i - 18) / 7) as nat);
        } else {
            lemma_rounds_differ(
                (i - 18) % 7,
                (width - 1 - (i - 18) / 7) as nat,
                (j - 18) % 7,
                (width - 1 - (j - 18) / 7) as nat,
            );
        }
    }
}

/// The namespaces that one operation enters are distinct from one another.
pub proof fn lemma_operation_enters_distinct_namespaces(
    a: IntegerView,
    operation: ArithmeticOperation,
    b: IntegerView,
    span: Span,
)
    ensures
        entered(Seq::empty(), a, operation, b, span).no_duplicates(),
{
    let outer = binary_label(a, operation, b, span);
    let all = entered(Seq::empty(), a, operation, b, span);
    if divides(a, operation, b) {
        let purposes = division_purposes(a.kind.width());
        let within = nested(outer, purposes);
        lemma_division_purposes_are_distinct(a.kind.width());
        reveal_strlit("/");
        assert forall|i: int, j: int| 0 <= i < all.len() && 0 <= j < all.len() && i != j implies all[i]
            != all[j] by {
            if i == 0 {
                assert(all[j] == within[j - 1]);
                assert(all[j].len() > outer.len());
            } else if j == 0 {
                assert(all[i] == within[i - 1]);
                assert(all[i].len() > outer.len());
            } else {
                assert(all[i] == outer + "/"@ + purposes[i - 1]);
                assert(all[j] == outer + "/"@ + purposes[j - 1]);
                if all[i] == all[j] {
                    lemma_same_beginning(outer + "/"@, purposes[i - 1], purposes[j - 1]);
                }
            }
        }
    }
}

/// An operation none of whose namespaces was entered before leaves a list of
/// distinct namespaces a list of distinct namespaces.
pub proof fn lemma_fresh_operation_keeps_namespaces_distinct(
    labels: Seq<Seq<char>>,
    a: IntegerView,
    operation: ArithmeticOperation,
    b: IntegerView,
    span: Span,
)
    requires
        labels.no_duplicates(),
        forall|i: int|
            0 <= i < entered(Seq::empty(), a, operation, b, span).len() ==> !labels.contains(
                #[trigger] entered(Seq::empty(), a, operation, b, span)[i],
            ),
    ensures
        entered(labels, a, operation, b, span).no_duplicates(),
{
    let fresh = entered(Seq::empty(), a, operation, b, span);
    let all = entered(labels, a, operation, b, span);
    lemma_operation_enters_distinct_namespaces(a, operation, b, span);
    assert(all =~= labels + fresh);
    assert forall|i: int, j: int| 0 <= i < all.len() && 0 <= j < all.len() && i != j implies all[i]
        != all[j] by {
        if i < labels.len() && j >= labels.len() {
            assert(all[j] == fresh[j - labels.len()]);
            assert(labels.contains(labels[i]));
        } else if j < labels.len() && i >= labels.len() {
            assert(all[i] == fresh[i - labels.len()]);
            assert(labels.contains(labels[j]));
        } else if i >= labels.len() {
            assert(all[i] == fresh[i - labels.len()]);
            assert(all[j] == fresh[j - labels.len()]);
        }
    }
}

} // verus!
