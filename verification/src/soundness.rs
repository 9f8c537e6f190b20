//! What holds of the arithmetic of the integer domain on known values.
use crate::arithmetic::{
    division_closing, division_opening, division_purposes, division_round, division_rounds,
    exponent, magnitude, quotient, signed_quotient, truncated_quotient,
};
use crate::errors::IntegerErrorView;
use crate::integer::{
    arithmetic, ArithmeticOperation, binary_label, divides, entered, IntegerView, negation_label,
    nested, parse_integer, place, printable,
};
use crate::text::{
    all_ascii, ascii, decimal_digits, decimal_text, lemma_all_ascii_joined, lemma_ascii_joined,
    lemma_decimal_reads_back, lemma_digits_read_back,
};
use crate::integer_type::IntegerType;
use crate::span::Span;
use vstd::arithmetic::div_mod::*;
use vstd::arithmetic::power::pow;
use vstd::prelude::*;

verus! {

/// The result of an operation on the mathematical integers: sum, difference
/// and product; the quotient rounded toward zero; the power by the exponent
/// that the bits of `y` stand for.
pub open spec fn native(operation: ArithmeticOperation, kind: IntegerType, x: int, y: int) -> int {
    match operation {
        ArithmeticOperation::Add => x + y,
        ArithmeticOperation::Sub => x - y,
        ArithmeticOperation::Mul => x * y,
        ArithmeticOperation::Div => truncated_quotient(x, y),
        ArithmeticOperation::Pow => pow(x, exponent(kind, y)),
    }
}

/// Unless the least value is divided by another value, the division of signed
/// values rounds the quotient toward zero.
pub proof fn lemma_signed_quotient_truncates(min: int, n: int, d: int)
    requires
        min < 0,
        min <= n < -min,
        min <= d < -min,
        d != 0,
        n != min || d == min,
    ensures
        signed_quotient(min, n, d) == truncated_quotient(n, d),
{
    if n == 0 {
        lemma_div_basics(magnitude(d));
    } else if d == min {
        if n == min {
            lemma_div_basics(magnitude(d));
        } else {
            lemma_basic_div(magnitude(n), magnitude(d));
        }
    }
}

/// The division of unsigned values rounds the quotient toward zero.
pub proof fn lemma_unsigned_quotient_truncates(x: int, y: int)
    requires
        0 <= x,
        0 < y,
    ensures
        x / y == truncated_quotient(x, y),
{
}

/// On two constants of one kind every operation gives a constant of that kind
/// whose value is the result on the mathematical integers, or fails: with a
/// division by zero where the divisor is zero, with an overflow otherwise.
/// The one exception is the least value of a signed kind divided by another
/// value, which is left out here.
pub proof fn lemma_constant_arithmetic(
    operation: ArithmeticOperation,
    a: IntegerView,
    b: IntegerView,
    span: Span,
)
    requires
        a.wf(),
        b.wf(),
        a.constant,
        b.constant,
        a.kind == b.kind,
        !(operation == ArithmeticOperation::Div && a.kind.signed() && a.value == Some(a.kind.min())
            && b.value != Some(a.kind.min())),
    ensures
        match arithmetic(operation, a, b, span) {
            Ok(r) => r.constant && r.kind == a.kind && r.value == Some(
                native(operation, a.kind, a.value->0, b.value->0),
            ),
            Err(e) => if operation == ArithmeticOperation::Div {
                b.value == Some(0int) && e == (IntegerErrorView::DivisionByZero { span })
            } else {
                e == (IntegerErrorView::Overflow { span })
            },
        },
{
    let x = a.value->0;
    let y = b.value->0;
    if operation == ArithmeticOperation::Div && y != 0 {
        if a.kind.signed() {
            lemma_signed_quotient_truncates(a.kind.min(), x, y);
        } else {
            lemma_unsigned_quotient_truncates(x, y);
        }
    }
}

/// The special cases of the division of signed values: a division by zero
/// fails; the least value divided by itself is one; any other value divided by
/// the least value is zero; zero divided by a value other than zero is zero.
pub proof fn lemma_division_specials(a: IntegerView, b: IntegerView, span: Span)
    requires
        a.wf(),
        b.wf(),
        a.kind == b.kind,
        a.kind.signed(),
        a.value is Some,
        b.value is Some,
    ensures
        b.value == Some(0int) ==> arithmetic(ArithmeticOperation::Div, a, b, span) == Err::<
            IntegerView,
            IntegerErrorView,
        >(IntegerErrorView::DivisionByZero { span }),
        a.value == Some(a.kind.min()) && b.value == Some(a.kind.min()) ==> arithmetic(
            ArithmeticOperation::Div,
            a,
            b,
            span,
        ) == Ok::<IntegerView, IntegerErrorView>(
            IntegerView { kind: a.kind, value: Some(1int), constant: a.constant && b.constant },
        ),
        a.value != Some(a.kind.min()) && b.value == Some(a.kind.min()) ==> arithmetic(
            ArithmeticOperation::Div,
            a,
            b,
            span,
        ) == Ok::<IntegerView, IntegerErrorView>(
            IntegerView { kind: a.kind, value: Some(0int), constant: a.constant && b.constant },
        ),
        a.value == Some(0int) && b.value != Some(0int) ==> arithmetic(
            ArithmeticOperation::Div,
            a,
            b,
            span,
        ) == Ok::<IntegerView, IntegerErrorView>(
            IntegerView { kind: a.kind, value: Some(0int), constant: a.constant && b.constant },
        ),
{
}

/// The value of every result is a value of its kind.
pub proof fn lemma_arithmetic_stays_in_kind(
    operation: ArithmeticOperation,
    a: IntegerView,
    b: IntegerView,
    span: Span,
)
    requires
        a.wf(),
        b.wf(),
    ensures
        arithmetic(operation, a, b, span) matches Ok(r) ==> r.wf() && r.kind == a.kind,
{
    if a.kind == b.kind && a.value is Some && b.value is Some && operation
        == ArithmeticOperation::Div && b.value != Some(0int) {
        let x = a.value->0;
        let y = b.value->0;
        if a.kind.signed() {
            let min = a.kind.min();
            if x != 0 && y != min {
                let n = if x == min {
                    min + 1
                } else {
                    x
                };
                lemma_fundamental_div_mod(magnitude(n), magnitude(y));
                lemma_mod_pos_bound(magnitude(n), magnitude(y));
                lemma_div_pos_is_pos(magnitude(n), magnitude(y));
                assert(magnitude(n) / magnitude(y) <= magnitude(n)) by (nonlinear_arith)
                    requires
                        magnitude(n) == magnitude(y) * (magnitude(n) / magnitude(y)) + (magnitude(n)
                            % magnitude(y)),
                        0 <= magnitude(n) % magnitude(y),
                        1 <= magnitude(y),
                        0 <= magnitude(n) / magnitude(y),
                ;
            }
        } else {
            lemma_fundamental_div_mod(x, y);
            lemma_mod_pos_bound(x, y);
            lemma_div_pos_is_pos(x, y);
            assert(x / y <= x) by (nonlinear_arith)
                requires
                    x == y * (x / y) + (x % y),
                    0 <= x % y,
                    1 <= y,
                    0 <= x / y,
            ;
        }
    }
}

/// Synthesis is determined by what is synthesized: the same operation on the
/// same operands, after the same namespaces, gives the same result and enters
/// the same namespaces.
pub proof fn lemma_synthesis_is_determined(
    first: Seq<Seq<char>>,
    second: Seq<Seq<char>>,
    operation: ArithmeticOperation,
    a: IntegerView,
    b: IntegerView,
    span: Span,
)
    requires
        first == second,
    ensures
        entered(first, a, operation, b, span) == entered(second, a, operation, b, span),
        first.is_prefix_of(entered(first, a, operation, b, span)),
{
}

/// The decimal text of a value of a kind reads back as that value.
pub proof fn lemma_value_reads_back(kind: IntegerType, v: int)
    requires
        kind.holds(v),
    ensures
        parse_integer(decimal_text(v), kind) == Some(v),
{
    lemma_decimal_reads_back(v, kind.signed());
}

/// The name of every kind is ASCII.
pub proof fn lemma_kind_name_is_ascii(kind: IntegerType)
    ensures
        ascii(kind.name()),
{
    reveal_strlit("u8");
    reveal_strlit("u16");
    reveal_strlit("u32");
    reveal_strlit("u64");
    reveal_strlit("u128");
    reveal_strlit("i8");
    reveal_strlit("i16");
    reveal_strlit("i32");
    reveal_strlit("i64");
    reveal_strlit("i128");
}

/// An integer is written in ASCII.
pub proof fn lemma_printable_is_ascii(i: IntegerView)
    ensures
        ascii(printable(i)),
{
    match i.value {
        Some(v) => {
            lemma_decimal_reads_back(v, true);
        },
        None => {
            reveal_strlit("[input]");
            lemma_kind_name_is_ascii(i.kind);
            lemma_ascii_joined("[input]"@, i.kind.name());
        },
    }
}

/// A place is written in ASCII.
pub proof fn lemma_place_is_ascii(span: Span)
    ensures
        ascii(place(span)),
{
    reveal_strlit(":");
    lemma_digits_read_back(span.line_start as nat);
    lemma_digits_read_back(span.col_start as nat);
    lemma_ascii_joined(decimal_digits(span.line_start as nat), ":"@);
    lemma_ascii_joined(
        decimal_digits(span.line_start as nat) + ":"@,
        decimal_digits(span.col_start as nat),
    );
}

/// The namespace of every operation is ASCII: the word `enforce`, the
/// operands as they are written with the sign of the operation between them,
/// and the place, with single blanks between.
pub proof fn lemma_labels_are_ascii(
    a: IntegerView,
    operation: ArithmeticOperation,
    b: IntegerView,
    span: Span,
)
    ensures
        ascii(binary_label(a, operation, b, span)),
        ascii(negation_label(a, span)),
{
    reveal_strlit("enforce ");
    reveal_strlit("enforce -");
    reveal_strlit(" ");
    reveal_strlit("+");
    reveal_strlit("-");
    reveal_strlit("*");
    reveal_strlit("div");
    reveal_strlit("**");
    lemma_printable_is_ascii(a);
    lemma_printable_is_ascii(b);
    lemma_place_is_ascii(span);
    let sign = operation.symbol();
    assert(ascii(sign));
    lemma_ascii_joined("enforce "@, printable(a));
    lemma_ascii_joined("enforce "@ + printable(a), " "@);
    lemma_ascii_joined("enforce "@ + printable(a) + " "@, sign);
    lemma_ascii_joined("enforce "@ + printable(a) + " "@ + sign, " "@);
    lemma_ascii_joined("enforce "@ + printable(a) + " "@ + sign + " "@, printable(b));
    lemma_ascii_joined("enforce "@ + printable(a) + " "@ + sign + " "@ + printable(b), " "@);
    lemma_ascii_joined(
        "enforce "@ + printable(a) + " "@ + sign + " "@ + printable(b) + " "@,
        place(span),
    );
    lemma_ascii_joined("enforce -"@, printable(a));
    lemma_ascii_joined("enforce -"@ + printable(a), " "@);
    lemma_ascii_joined("enforce -"@ + printable(a) + " "@, place(span));
}

/// The namespaces of a round of a signed division are ASCII.
pub proof fn lemma_division_round_is_ascii(i: nat)
    ensures
        all_ascii(division_round(i)),
{
    reveal_strlit("shift_left_");
    reveal_strlit("set_remainder_bit_");
    reveal_strlit("increment_or_remainder_");
    reveal_strlit("compare_remainder_");
    reveal_strlit("subtract_divisor_");
    reveal_strlit("subtract_or_same_");
    reveal_strlit("set_bit_or_same_");
    lemma_digits_read_back(i);
    lemma_ascii_joined("shift_left_"@, decimal_digits(i));
    lemma_ascii_joined("set_remainder_bit_"@, decimal_digits(i));
    lemma_ascii_joined("increment_or_remainder_"@, decimal_digits(i));
    lemma_ascii_joined("compare_remainder_"@, decimal_digits(i));
    lemma_ascii_joined("subtract_divisor_"@, decimal_digits(i));
    lemma_ascii_joined("subtract_or_same_"@, decimal_digits(i));
    lemma_ascii_joined("set_bit_or_same_"@, decimal_digits(i));
}

/// The namespaces of the rounds of a signed division are ASCII.
pub proof fn lemma_division_rounds_are_ascii(width: nat, count: nat)
    ensures
        all_ascii(division_rounds(width, count)),
    decreases count,
{
    if count == 0 || count > width {
    } else {
        lemma_division_rounds_are_ascii(width, (count - 1) as nat);
        lemma_division_round_is_ascii((width - count) as nat);
        lemma_all_ascii_joined(
            division_rounds(width, (count - 1) as nat),
            division_round((width - count) as nat),
        );
    }
}

/// The namespaces that a signed division enters are ASCII.
pub proof fn lemma_division_purposes_are_ascii(width: nat)
    ensures
        all_ascii(division_purposes(width)),
{
    reveal_strlit("true");
    reveal_strlit("constant_or_allocated_true");
    reveal_strlit("one");
    reveal_strlit("constant_or_allocated_1");
    reveal_strlit("zero");
    reveal_strlit("constant_or_allocated_0");
    reveal_strlit("other_min_check");
    reveal_strlit("self_min_check");
    reveal_strlit("both_min");
    reveal_strlit("allocated_one");
    reveal_strlit("a_valid");
    reveal_strlit("a_set");
    reveal_strlit("b_set");
    reveal_strlit("compare_msb");
    reveal_strlit("a_neg");
    reveal_strlit("a_abs");
    reveal_strlit("b_neg");
    reveal_strlit("b_abs");
    reveal_strlit("negate");
    reveal_strlit("positive or negative");
    reveal_strlit("fraction");
    reveal_strlit("one_result");
    reveal_strlit("self_or_quotient");
    assert(all_ascii(division_opening()));
    assert(all_ascii(division_closing()));
    lemma_division_rounds_are_ascii(width, width);
    lemma_all_ascii_joined(division_opening(), division_rounds(width, width));
    lemma_all_ascii_joined(
        division_opening() + division_rounds(width, width),
        division_closing(),
    );
}

/// Every namespace that an operation enters is ASCII: where the namespaces
/// entered before are ASCII, they still are after the operation.
pub proof fn lemma_entered_labels_are_ascii(
    labels: Seq<Seq<char>>,
    a: IntegerView,
    operation: ArithmeticOperation,
    b: IntegerView,
    span: Span,
)
    requires
        all_ascii(labels),
    ensures
        all_ascii(entered(labels, a, operation, b, span)),
{
    let outer = binary_label(a, operation, b, span);
    lemma_labels_are_ascii(a, operation, b, span);
    assert(all_ascii(seq![outer]));
    lemma_all_ascii_joined(labels, seq![outer]);
    assert(labels.push(outer) =~= labels + seq![outer]);
    if divides(a, operation, b) {
        let purposes = division_purposes(a.kind.width());
        lemma_division_purposes_are_ascii(a.kind.width());
        reveal_strlit("/");
        assert forall|i: int| 0 <= i < nested(outer, purposes).len() implies ascii(
            #[trigger] nested(outer, purposes)[i],
        ) by {
            lemma_ascii_joined(outer, "/"@);
            assert(ascii(purposes[i]));
            lemma_ascii_joined(outer + "/"@, purposes[i]);
        }
        lemma_all_ascii_joined(labels.push(outer), nested(outer, purposes));
    }
}

} // verus!
