//! Decimal text: how numbers are written into labels and read from inputs.
use vstd::prelude::*;
use vstd::string::*;

verus! {

/// The character that stands for the digit `d`, for `d` below ten.
pub open spec fn digit_char(d: nat) -> char {
    if d == 0 {
        '0'
    } else if d == 1 {
        '1'
    } else if d == 2 {
        '2'
    } else if d == 3 {
        '3'
    } else if d == 4 {
        '4'
    } else if d == 5 {
        '5'
    } else if d == 6 {
        '6'
    } else if d == 7 {
        '7'
    } else if d == 8 {
        '8'
    } else {
        '9'
    }
}

/// The digit that a character stands for, if it is a decimal digit.
pub open spec fn digit_value(c: char) -> Option<nat> {
    if c == '0' {
        Some(0nat)
    } else if c == '1' {
        Some(1nat)
    } else if c == '2' {
        Some(2nat)
    } else if c == '3' {
        Some(3nat)
    } else if c == '4' {
        Some(4nat)
    } else if c == '5' {
        Some(5nat)
    } else if c == '6' {
        Some(6nat)
    } else if c == '7' {
        Some(7nat)
    } else if c == '8' {
        Some(8nat)
    } else if c == '9' {
        Some(9nat)
    } else {
        None
    }
}

/// The decimal digits of `n`, most significant first, without leading zeros.
pub open spec fn decimal_digits(n: nat) -> Seq<char>
    decreases n,
{
    if n < 10 {
        seq![digit_char(n)]
    } else {
        decimal_digits(n / 10).push(digit_char(n % 10))
    }
}

/// The decimal text of an integer: a minus sign for a negative one, then its digits.
pub open spec fn decimal_text(v: int) -> Seq<char> {
    if v < 0 {
        seq!['-'] + decimal_digits((-v) as nat)
    } else {
        decimal_digits(v as nat)
    }
}

/// True if every character of `s` is a decimal digit.
pub open spec fn all_digits(s: Seq<char>) -> bool {
    forall|i: int| 0 <= i < s.len() ==> (#[trigger] digit_value(s[i])) is Some
}

/// The number that a sequence of decimal digits denotes (zero for the empty one).
pub open spec fn digits_value(s: Seq<char>) -> nat
    decreases s.len(),
{
    if s.len() == 0 {
        0
    } else {
        digits_value(s.drop_last()) * 10 + match digit_value(s.last()) {
            Some(d) => d,
            None => 0,
        }
    }
}

/// The integer that a decimal text denotes: an optional `+`, or for a signed
/// reading an optional `-`, followed by one or more digits and nothing else.
pub open spec fn parse_decimal(s: Seq<char>, signed: bool) -> Option<int> {
    if s.len() == 0 {
        None
    } else if s[0] == '+' {
        let rest = s.subrange(1, s.len() as int);
        if rest.len() > 0 && all_digits(rest) {
            Some(digits_value(rest) as int)
        } else {
            None
        }
    } else if s[0] == '-' && signed {
        let rest = s.subrange(1, s.len() as int);
        if rest.len() > 0 && all_digits(rest) {
            Some(-(digits_value(rest) as int))
        } else {
            None
        }
    } else if all_digits(s) {
        Some(digits_value(s) as int)
    } else {
        None
    }
}

/// The digit of a character, as a machine number.
pub fn char_digit(c: char) -> (r: Option<u8>)
    ensures
        match r {
            Some(d) => digit_value(c) == Some(d as nat),
            None => digit_value(c) is None,
        },
{
    if c == '0' {
        Some(0u8)
    } else if c == '1' {
        Some(1u8)
    } else if c == '2' {
        Some(2u8)
    } else if c == '3' {
        Some(3u8)
    } else if c == '4' {
        Some(4u8)
    } else if c == '5' {
        Some(5u8)
    } else if c == '6' {
        Some(6u8)
    } else if c == '7' {
        Some(7u8)
    } else if c == '8' {
        Some(8u8)
    } else if c == '9' {
        Some(9u8)
    } else {
        None
    }
}

/// The outcome of reading a run of digits.
pub enum Digits {
    /// Some character is no digit.
    Malformed,
    /// The digits denote a number above `u128::MAX`.
    TooLarge,
    /// The number that the digits denote.
    Value(u128),
}

/// Reads the characters of `text` from `start` on as decimal digits.
pub fn read_digits(text: &str, start: usize) -> (r: Digits)
    requires
        start <= text@.len(),
    ensures
        match r {
            Digits::Malformed => !all_digits(text@.subrange(start as int, text@.len() as int)),
            Digits::TooLarge => all_digits(text@.subrange(start as int, text@.len() as int))
                && digits_value(text@.subrange(start as int, text@.len() as int)) > u128::MAX,
            Digits::Value(v) => all_digits(text@.subrange(start as int, text@.len() as int))
                && digits_value(text@.subrange(start as int, text@.len() as int)) == v,
        },
{
    let len = text.unicode_len();
    let ghost digits = text@.subrange(start as int, len as int);
    let mut acc: u128 = 0;
    let mut overflow = false;
    let mut i: usize = start;
    while i < len
        invariant
            start <= i <= len,
            len == text@.len(),
            digits == text@.subrange(start as int, len as int),
            all_digits(digits.take(i - start)),
            !overflow ==> digits_value(digits.take(i - start)) == acc,
            overflow ==> digits_value(digits.take(i - start)) > u128::MAX,
        decreases len - i,
    {
        let c = text.get_char(i);
        let ghost before = digits.take(i - start);
        let ghost after = digits.take(i + 1 - start);
        proof {
            assert(after.drop_last() =~= before);
            assert(after.last() == c);
        }
        match char_digit(c) {
            None => {
                proof {
                    assert(digits[i - start] == c);
                }
                return Digits::Malformed;
            },
            Some(d) => {
                proof {
                    assert forall|j: int| 0 <= j < after.len() implies (#[trigger] digit_value(
                        after[j],
                    )) is Some by {
                        if j < before.len() {
                            assert(before[j] == after[j]);
                        }
                    }
                }
                if !overflow {
                    match acc.checked_mul(10) {
                        None => {
                            overflow = true;
                        },
                        Some(shifted) => match shifted.checked_add(d as u128) {
                            None => {
                                overflow = true;
                            },
                            Some(next) => {
                                acc = next;
                            },
                        },
                    }
                }
            },
        }
        i = i + 1;
    }
    proof {
        assert(digits.take(len - start) =~= digits);
    }
    if overflow {
        Digits::TooLarge
    } else {
        Digits::Value(acc)
    }
}

/// The text of one decimal digit.
pub fn digit_str(d: u8) -> (r: &'static str)
    requires
        d < 10,
    ensures
        r@ == seq![digit_char(d as nat)],
{
    proof {
        reveal_strlit("0");
        reveal_strlit("1");
        reveal_strlit("2");
        reveal_strlit("3");
        reveal_strlit("4");
        reveal_strlit("5");
        reveal_strlit("6");
        reveal_strlit("7");
        reveal_strlit("8");
        reveal_strlit("9");
    }
    let r = if d == 0 {
        "0"
    } else if d == 1 {
        "1"
    } else if d == 2 {
        "2"
    } else if d == 3 {
        "3"
    } else if d == 4 {
        "4"
    } else if d == 5 {
        "5"
    } else if d == 6 {
        "6"
    } else if d == 7 {
        "7"
    } else if d == 8 {
        "8"
    } else {
        "9"
    };
    assert(r@ =~= seq![digit_char(d as nat)]);
    r
}

/// Appends the decimal digits of `n` to `out`.
pub fn push_decimal(out: &mut String, n: u128)
    ensures
        final(out)@ == old(out)@ + decimal_digits(n as nat),
    decreases n,
{
    if n < 10 {
        out.append(digit_str(n as u8));
    } else {
        push_decimal(out, n / 10);
        out.append(digit_str((n % 10) as u8));
        assert(final(out)@ =~= old(out)@ + decimal_digits(n as nat));
    }
}

/// Appends the decimal text of a signed number to `out`.
pub fn push_signed_decimal(out: &mut String, v: i128)
    ensures
        final(out)@ == old(out)@ + decimal_text(v as int),
{
    if v < 0 {
        proof {
            reveal_strlit("-");
        }
        out.append("-");
        let magnitude: u128 = if v == i128::MIN {
            0x8000_0000_0000_0000_0000_0000_0000_0000u128
        } else {
            (-v) as u128
        };
        push_decimal(out, magnitude);
        assert(final(out)@ =~= old(out)@ + decimal_text(v as int));
    } else {
        push_decimal(out, v as u128);
    }
}

/// True if every character of `s` is a character of ASCII.
pub open spec fn ascii(s: Seq<char>) -> bool {
    forall|i: int| 0 <= i < s.len() ==> (#[trigger] s[i]) as u32 <= 127
}

/// The text of two ASCII texts one after the other is ASCII.
pub proof fn lemma_ascii_joined(a: Seq<char>, b: Seq<char>)
    requires
        ascii(a),
        ascii(b),
    ensures
        ascii(a + b),
{
    assert forall|i: int| 0 <= i < (a + b).len() implies (#[trigger] (a + b)[i]) as u32 <= 127 by {
        if i < a.len() {
            assert((a + b)[i] == a[i]);
        } else {
            assert((a + b)[i] == b[i - a.len()]);
        }
    }
}

/// True if every text of `texts` is ASCII.
pub open spec fn all_ascii(texts: Seq<Seq<char>>) -> bool {
    forall|i: int| 0 <= i < texts.len() ==> ascii(#[trigger] texts[i])
}

/// Two lists of ASCII texts one after the other are a list of ASCII texts.
pub proof fn lemma_all_ascii_joined(a: Seq<Seq<char>>, b: Seq<Seq<char>>)
    requires
        all_ascii(a),
        all_ascii(b),
    ensures
        all_ascii(a + b),
{
    assert forall|i: int| 0 <= i < (a + b).len() implies ascii(#[trigger] (a + b)[i]) by {
        if i < a.len() {
            assert((a + b)[i] == a[i]);
        } else {
            assert((a + b)[i] == b[i - a.len()]);
        }
    }
}

/// The digits of a number are digits, they are ASCII, and they denote the number.
pub proof fn lemma_digits_read_back(n: nat)
    ensures
        decimal_digits(n).len() > 0,
        all_digits(decimal_digits(n)),
        ascii(decimal_digits(n)),
        digits_value(decimal_digits(n)) == n,
        digit_value(decimal_digits(n)[0]) is Some,
    decreases n,
{
    let text = decimal_digits(n);
    if n < 10 {
        assert(text =~= seq![digit_char(n)]);
        assert(text.drop_last() =~= Seq::<char>::empty());
        assert(digit_value(digit_char(n)) == Some(n));
        assert(digits_value(text.drop_last()) == 0);
    } else {
        lemma_digits_read_back(n / 10);
        let head = decimal_digits(n / 10);
        let last = digit_char(n % 10);
        assert(text == head.push(last));
        assert(text.drop_last() =~= head);
        assert(text.last() == last);
        assert(digit_value(last) == Some(n % 10));
        assert(text[0] == head[0]);
        assert forall|i: int| 0 <= i < text.len() implies (#[trigger] digit_value(text[i])) is Some by {
            if i < head.len() {
                assert(text[i] == head[i]);
            }
        }
        assert forall|i: int| 0 <= i < text.len() implies (#[trigger] text[i]) as u32 <= 127 by {
            if i < head.len() {
                assert(text[i] == head[i]);
            }
        }
    }
}

/// The decimal text of a number is ASCII and reads back as the number, in a
/// signed reading always and in an unsigned one where the number is not
/// negative.
pub proof fn lemma_decimal_reads_back(v: int, signed: bool)
    ensures
        ascii(decimal_text(v)),
        v >= 0 || signed ==> parse_decimal(decimal_text(v), signed) == Some(v),
{
    let text = decimal_text(v);
    if v < 0 {
        let digits = decimal_digits((-v) as nat);
        lemma_digits_read_back((-v) as nat);
        assert(text == seq!['-'] + digits);
        assert(text[0] == '-');
        assert(text.subrange(1, text.len() as int) =~= digits);
        assert(ascii(seq!['-']));
        lemma_ascii_joined(seq!['-'], digits);
    } else {
        lemma_digits_read_back(v as nat);
        assert(digit_value(text[0]) is Some);
    }
}

} // verus!
