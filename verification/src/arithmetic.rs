//! Arithmetic on the numbers of the integer domain: what each operation gives,
//! and the bitwise algorithms that compute it.
use crate::integer_type::IntegerType;
use crate::synthesis::label_texts;
use crate::text::{decimal_digits, push_decimal};
use vstd::arithmetic::div_mod::*;
use vstd::arithmetic::mul::*;
use vstd::arithmetic::power::*;
use vstd::arithmetic::power2::*;
use vstd::prelude::*;
use vstd::string::*;

verus! {

/// The number held by an integer: unsigned kinds in `u128`, signed kinds in `i128`.
#[derive(Clone, Copy, Debug, PartialEq, Eq, Structural)]
pub enum Number {
    Unsigned(u128),
    Signed(i128),
}

impl Number {
    /// The number as a mathematical integer.
    pub open spec fn as_int(self) -> int {
        match self {
            Number::Unsigned(v) => v as int,
            Number::Signed(v) => v as int,
        }
    }

    /// True if this number is a value of `kind`, held as that kind holds it.
    pub open spec fn of(self, kind: IntegerType) -> bool {
        match self {
            Number::Unsigned(v) => !kind.signed() && v <= kind.max(),
            Number::Signed(v) => kind.signed() && kind.min() <= v <= kind.max(),
        }
    }
}

/// The absolute value of `v`.
pub open spec fn magnitude(v: int) -> int {
    if v < 0 {
        -v
    } else {
        v
    }
}

/// The quotient of `n` by `d`, rounded toward zero.
pub open spec fn truncated_quotient(n: int, d: int) -> int {
    if (n < 0) == (d < 0) {
        magnitude(n) / magnitude(d)
    } else {
        -(magnitude(n) / magnitude(d))
    }
}

/// What the division of signed values gives, for a divisor other than zero,
/// where `min` is the least value of the kind. Zero divided by anything is
/// zero. A division by `min` gives one for `min` and zero for every other
/// numerator. Otherwise the least value is divided as if it were one greater,
/// and the quotient is rounded toward zero.
pub open spec fn signed_quotient(min: int, n: int, d: int) -> int {
    if n == 0 {
        0
    } else if d == min {
        if n == min {
            1
        } else {
            0
        }
    } else {
        truncated_quotient(
            if n == min {
                min + 1
            } else {
                n
            },
            d,
        )
    }
}

/// Two to the power 128.
pub proof fn lemma_pow2_128()
    ensures
        pow2(128) == 0x1_0000_0000_0000_0000_0000_0000_0000_0000,
        pow2(127) == 0x8000_0000_0000_0000_0000_0000_0000_0000,
{
    lemma2_to64();
    lemma2_to64_rest();
    lemma_pow2_adds(64, 64);
    lemma_pow2_adds(64, 63);
    assert(0x1_0000_0000_0000_0000int * 0x1_0000_0000_0000_0000int
        == 0x1_0000_0000_0000_0000_0000_0000_0000_0000int) by (nonlinear_arith);
    assert(0x1_0000_0000_0000_0000int * 0x8000_0000_0000_0000int
        == 0x8000_0000_0000_0000_0000_0000_0000_0000int) by (nonlinear_arith);
}

/// Two to the power `e`.
pub fn two_to(e: u32) -> (r: u128)
    requires
        e < 128,
    ensures
        r == pow2(e as nat),
{
    let mut r: u128 = 1;
    let mut k: u32 = 0;
    proof {
        lemma2_to64();
    }
    while k < e
        invariant
            k <= e,
            e < 128,
            r == pow2(k as nat),
        decreases e - k,
    {
        proof {
            lemma_pow2_unfold((k + 1) as nat);
            lemma_pow2_128();
            if k + 1 < 127 {
                lemma_pow2_strictly_increases((k + 1) as nat, 127);
            }
        }
        r = r * 2;
        k = k + 1;
    }
    r
}

/// One step of long division: the quotient and remainder of `2 * h + bit` from
/// those of `h`.
proof fn lemma_division_step(h: int, qh: int, r: int, b: int, bit: int)
    requires
        0 <= qh,
        0 <= r < b,
        h == qh * b + r,
        0 <= bit <= 1,
    ensures
        2 * r + bit >= b ==> 2 * h + bit == (2 * qh + 1) * b + (2 * r + bit - b),
        2 * r + bit < b ==> 2 * h + bit == (2 * qh) * b + (2 * r + bit),
        2 * qh + 1 <= 2 * h + bit || 2 * r + bit < b,
        2 * qh <= 2 * h + bit,
{
    assert((2 * qh + 1) * b == 2 * (qh * b) + b) by (nonlinear_arith);
    assert((2 * qh) * b == 2 * (qh * b)) by (nonlinear_arith);
    assert(qh * b >= qh) by (nonlinear_arith)
        requires
            0 <= qh,
            1 <= b,
    ;
}

/// The quotient of `a` by `b`, by long division over the `bits` low bits of
/// `a`: from the highest bit down, the remainder is doubled, takes in the next
/// bit of `a`, and gives up `b` where it can, which sets that bit of the
/// quotient.
pub fn long_division(a: u128, b: u128, bits: u32) -> (q: u128)
    requires
        0 < b <= 0x8000_0000_0000_0000_0000_0000_0000_0000,
        1 <= bits <= 128,
        a < pow2(bits as nat),
    ensures
        q == a / b,
{
    let mut q: u128 = 0;
    let mut r: u128 = 0;
    let mut i: u32 = bits;
    let ghost mut qh: int = 0;
    proof {
        lemma_pow2_pos(bits as nat);
        lemma_fundamental_div_mod_converse(a as int, pow2(bits as nat) as int, 0, a as int);
    }
    while i > 0
        invariant
            i <= bits <= 128,
            0 < b <= 0x8000_0000_0000_0000_0000_0000_0000_0000,
            0 <= qh,
            r < b,
            q == qh * pow2(i as nat),
            a as int / (pow2(i as nat) as int) == qh * b + r,
        decreases i,
    {
        let ghost h = a as int / (pow2(i as nat) as int);
        i = i - 1;
        let p = two_to(i);
        proof {
            lemma_pow2_pos(i as nat);
            lemma_pow2_unfold((i + 1) as nat);
            lemma_div_denominator(a as int, p as int, 2);
            lemma_fundamental_div_mod(a as int / (p as int), 2);
            lemma_fundamental_div_mod(a as int, p as int);
            lemma_mod_pos_bound(a as int, p as int);
            lemma_mod_pos_bound(a as int / (p as int), 2);
        }
        let top = a / p;
        let bit = top % 2 == 1;
        let ghost bit_value: int = if bit {
            1
        } else {
            0
        };
        assert(top == 2 * h + bit_value);
        proof {
            lemma_division_step(h, qh, r as int, b as int, bit_value);
        }
        r = r + r;
        if bit {
            r = r + 1;
        }
        if r >= b {
            r = r - b;
            proof {
                assert((2 * qh + 1) * p == 2 * (qh * p) + p) by (nonlinear_arith);
                assert((2 * qh + 1) * p <= top * p) by (nonlinear_arith)
                    requires
                        2 * qh + 1 <= top,
                        0 <= p,
                ;
                assert(top * p == p * top) by (nonlinear_arith);
                assert(qh * (2 * p) == 2 * (qh * p)) by (nonlinear_arith);
                qh = 2 * qh + 1;
            }
            q = q + p;
        } else {
            proof {
                assert((2 * qh) * p == qh * (2 * p)) by (nonlinear_arith);
                qh = 2 * qh;
            }
        }
    }
    proof {
        lemma2_to64();
        assert(a as int / 1 == a);
        assert(q == qh) by (nonlinear_arith)
            requires
                q == qh * 1,
        ;
        assert(a == q * b + r);
        lemma_fundamental_div_mod_converse(a as int, b as int, q as int, r as int);
    }
    q
}

/// Divides `n` by `d`, both values of a signed kind `bits` wide with least
/// value `min`. The signs are set aside, the magnitudes divided by long
/// division, and the sign put back; the least value, whose magnitude the kind
/// cannot hold, is first replaced: as numerator by its successor, as divisor by
/// minus one, and the results that this would spoil are then set by hand.
pub fn signed_division(min: i128, bits: u32, n: i128, d: i128) -> (q: i128)
    requires
        2 <= bits <= 128,
        min == -pow2((bits - 1) as nat),
        min <= n <= -min - 1,
        min <= d <= -min - 1,
        d != 0,
    ensures
        q == signed_quotient(min as int, n as int, d as int),
        min <= q <= -min - 1,
{
    proof {
        lemma_pow2_128();
        lemma_pow2_pos((bits - 1) as nat);
        lemma_pow2_unfold(bits as nat);
        lemma_pow2_unfold((bits - 1) as nat);
        lemma_pow2_pos((bits - 2) as nat);
        if bits < 128 {
            lemma_pow2_strictly_increases((bits - 1) as nat, 127);
        }
    }
    let positive = (n < 0) == (d < 0);
    let d_is_min = d == min;
    let n_is_min = n == min;
    let both_min = n_is_min && d_is_min;
    let n_is_zero = n == 0;
    let a_set = if n_is_min {
        min + 1
    } else {
        n
    };
    let b_set = if d_is_min {
        -1
    } else {
        d
    };
    let a: u128 = if a_set < 0 {
        (-a_set) as u128
    } else {
        a_set as u128
    };
    let b: u128 = if b_set < 0 {
        (-b_set) as u128
    } else {
        b_set as u128
    };
    let quotient = long_division(a, b, bits);
    proof {
        lemma_fundamental_div_mod(a as int, b as int);
        lemma_mod_pos_bound(a as int, b as int);
        assert(quotient <= a) by (nonlinear_arith)
            requires
                a == b * quotient + (a as int % b as int),
                0 <= a as int % b as int,
                1 <= b,
                0 <= quotient,
        ;
    }
    let q = if positive {
        quotient as i128
    } else {
        -(quotient as i128)
    };
    let q = if d_is_min {
        0
    } else {
        q
    };
    let q = if both_min {
        1
    } else {
        q
    };
    if n_is_zero {
        n
    } else {
        q
    }
}

/// `v` where it is a value of `kind`, nothing where it is not.
pub open spec fn checked(kind: IntegerType, v: int) -> Option<int> {
    if kind.holds(v) {
        Some(v)
    } else {
        None
    }
}

/// What subtraction gives. A signed subtrahend is negated and added, so the
/// least value cannot be subtracted.
pub open spec fn difference(kind: IntegerType, x: int, y: int) -> Option<int> {
    if kind.signed() && y == kind.min() {
        None
    } else {
        checked(kind, x - y)
    }
}

/// What division gives, for a divisor other than zero.
pub open spec fn quotient(kind: IntegerType, x: int, y: int) -> int {
    if kind.signed() {
        signed_quotient(kind.min(), x, y)
    } else {
        x / y
    }
}

/// The exponent that `y` stands for: its bits read as an unsigned number.
pub open spec fn exponent(kind: IntegerType, y: int) -> nat {
    if y < 0 {
        (y + 2 * (kind.max() + 1)) as nat
    } else {
        y as nat
    }
}

/// True if `r` holds the number `expected`, as `kind` holds it, or both are nothing.
pub open spec fn agrees(r: Option<Number>, kind: IntegerType, expected: Option<int>) -> bool {
    match (r, expected) {
        (Some(n), Some(v)) => n.of(kind) && n.as_int() == v,
        (None, None) => true,
        _ => false,
    }
}

/// The sum of two numbers of `kind`, where the kind holds it.
pub fn add_numbers(kind: &IntegerType, x: Number, y: Number) -> (r: Option<Number>)
    requires
        x.of(*kind),
        y.of(*kind),
    ensures
        agrees(r, *kind, checked(*kind, x.as_int() + y.as_int())),
{
    match (x, y) {
        (Number::Unsigned(a), Number::Unsigned(b)) => match a.checked_add(b) {
            Some(sum) => if sum <= kind.max_value() {
                Some(Number::Unsigned(sum))
            } else {
                None
            },
            None => None,
        },
        (Number::Signed(a), Number::Signed(b)) => match a.checked_add(b) {
            Some(sum) => if kind.min_value() <= sum && sum <= kind.max_value() as i128 {
                Some(Number::Signed(sum))
            } else {
                None
            },
            None => None,
        },
        _ => None,
    }
}

/// The negative of a number of a signed `kind`, where the kind holds it.
pub fn negate_number(kind: &IntegerType, x: Number) -> (r: Option<Number>)
    requires
        x.of(*kind),
        kind.signed(),
    ensures
        agrees(r, *kind, checked(*kind, -x.as_int())),
{
    match x {
        Number::Signed(a) => if a == kind.min_value() {
            None
        } else {
            Some(Number::Signed(-a))
        },
        Number::Unsigned(_) => None,
    }
}

/// The difference of two numbers of `kind`: for a signed kind the sum of the
/// first and the negative of the second.
pub fn subtract_numbers(kind: &IntegerType, x: Number, y: Number) -> (r: Option<Number>)
    requires
        x.of(*kind),
        y.of(*kind),
    ensures
        agrees(r, *kind, difference(*kind, x.as_int(), y.as_int())),
{
    match (x, y) {
        (Number::Unsigned(a), Number::Unsigned(b)) => if a >= b {
            Some(Number::Unsigned(a - b))
        } else {
            None
        },
        (Number::Signed(_), Number::Signed(_)) => match negate_number(kind, y) {
            Some(negated) => add_numbers(kind, x, negated),
            None => None,
        },
        _ => None,
    }
}

/// The product of two numbers of `kind`, where the kind holds it.
pub fn multiply_numbers(kind: &IntegerType, x: Number, y: Number) -> (r: Option<Number>)
    requires
        x.of(*kind),
        y.of(*kind),
    ensures
        agrees(r, *kind, checked(*kind, x.as_int() * y.as_int())),
{
    match (x, y) {
        (Number::Unsigned(a), Number::Unsigned(b)) => match a.checked_mul(b) {
            Some(product) => if product <= kind.max_value() {
                Some(Number::Unsigned(product))
            } else {
                None
            },
            None => None,
        },
        (Number::Signed(a), Number::Signed(b)) => match a.checked_mul(b) {
            Some(product) => if kind.min_value() <= product && product <= kind.max_value() as i128 {
                Some(Number::Signed(product))
            } else {
                None
            },
            None => None,
        },
        _ => None,
    }
}

/// The least value of each signed kind is minus two to the power of its width less one.
pub proof fn lemma_kind_bounds(kind: IntegerType)
    ensures
        kind.signed() ==>
            kind.min() == -pow2((kind.width() - 1) as nat) && kind.max() == -kind.min()
            - 1,
        !kind.signed() ==> kind.max() == pow2(kind.width()) - 1,
        kind.max() >= 127,
{
    lemma2_to64();
    lemma2_to64_rest();
    lemma_pow2_128();
}

/// The quotient of two numbers of `kind`, the second of them not zero.
pub fn divide_numbers(kind: &IntegerType, x: Number, y: Number) -> (r: Number)
    requires
        x.of(*kind),
        y.of(*kind),
        y.as_int() != 0,
    ensures
        r.of(*kind),
        r.as_int() == quotient(*kind, x.as_int(), y.as_int()),
{
    proof {
        lemma_kind_bounds(*kind);
    }
    match (x, y) {
        (Number::Signed(a), Number::Signed(b)) => Number::Signed(
            signed_division(kind.min_value(), kind.bits(), a, b),
        ),
        (Number::Unsigned(a), Number::Unsigned(b)) => {
            proof {
                lemma_fundamental_div_mod(a as int, b as int);
                lemma_mod_pos_bound(a as int, b as int);
                assert(a as int / b as int <= a) by (nonlinear_arith)
                    requires
                        a == b * (a as int / b as int) + (a as int % b as int),
                        0 <= a as int % b as int,
                        1 <= b,
                        0 <= a,
                ;
            }
            Number::Unsigned(a / b)
        },
        _ => x,
    }
}

/// The magnitude of a product is the product of the magnitudes.
proof fn lemma_magnitude_of_product(a: int, b: int)
    ensures
        magnitude(a * b) == magnitude(a) * magnitude(b),
{
    assert(magnitude(a * b) == magnitude(a) * magnitude(b)) by (nonlinear_arith)
        requires
            magnitude(a) == if a < 0 {
                -a
            } else {
                a
            },
            magnitude(b) == if b < 0 {
                -b
            } else {
                b
            },
            magnitude(a * b) == if a * b < 0 {
                -(a * b)
            } else {
                a * b
            },
    ;
}

/// A power of a number of magnitude at most one has magnitude at most one;
/// a power of any other number, with an exponent above zero, has magnitude at
/// least two.
proof fn lemma_magnitude_of_power(x: int, k: nat)
    ensures
        magnitude(x) <= 1 ==> magnitude(pow(x, k)) <= 1,
        magnitude(x) >= 2 && k >= 1 ==> magnitude(pow(x, k)) >= 2,
        magnitude(x) >= 2 ==> magnitude(pow(x, k)) >= 1,
    decreases k,
{
    reveal(pow);
    if k > 0 {
        lemma_magnitude_of_power(x, (k - 1) as nat);
        lemma_magnitude_of_product(x, pow(x, (k - 1) as nat));
        let m = magnitude(x);
        let n = magnitude(pow(x, (k - 1) as nat));
        assert(m <= 1 && n <= 1 ==> m * n <= 1) by (nonlinear_arith)
            requires
                0 <= m,
                0 <= n,
        ;
        assert(m >= 2 && n >= 1 ==> m * n >= 2) by (nonlinear_arith);
    }
}

/// Once a power leaves the kind, every higher power stays outside it.
pub proof fn lemma_power_leaves_kind(kind: IntegerType, x: int, j: nat, e: nat)
    requires
        j <= e,
        kind.holds(x),
        !kind.holds(pow(x, j)),
    ensures
        !kind.holds(pow(x, e)),
{
    if j < e {
        lemma_pow_adds(x, j, (e - j) as nat);
        lemma_magnitude_of_product(pow(x, j), pow(x, (e - j) as nat));
        lemma_magnitude_of_power(x, j);
        lemma_magnitude_of_power(x, (e - j) as nat);
        lemma_kind_bounds(kind);
        if x > 0 {
            lemma_pow_positive(x, j);
            lemma_pow_positive(x, e);
        }
        if x == 0 {
            lemma_pow0(x);
            if j > 0 {
                lemma0_pow(j);
            }
        }
        let a = magnitude(pow(x, j));
        let b = magnitude(pow(x, (e - j) as nat));
        assert(magnitude(x) >= 2);
        assert(a * b >= 2 * a) by (nonlinear_arith)
            requires
                b >= 2,
                a >= 0,
        ;
    }
}

/// The power of a number of `kind` by another, where the kind holds it, by
/// squaring and multiplying over the bits of the exponent from the highest down.
pub fn power_numbers(kind: &IntegerType, x: Number, y: Number) -> (r: Option<Number>)
    requires
        x.of(*kind),
        y.of(*kind),
    ensures
        agrees(r, *kind, checked(*kind, pow(x.as_int(), exponent(*kind, y.as_int())))),
{
    proof {
        lemma_kind_bounds(*kind);
        lemma_pow2_128();
    }
    let e: u128 = match y {
        Number::Unsigned(v) => v,
        Number::Signed(v) => if v >= 0 {
            v as u128
        } else {
            let mask: u128 = kind.max_value() * 2 + 1;
            mask - ((-(v + 1)) as u128)
        },
    };
    assert(e == exponent(*kind, y.as_int()));
    let mut acc: Number = match x {
        Number::Unsigned(_) => Number::Unsigned(1),
        Number::Signed(_) => Number::Signed(1),
    };
    let mut i: u32 = 128;
    let ghost mut pre: nat = 0;
    proof {
        lemma_pow0(x.as_int());
        lemma_fundamental_div_mod_converse(e as int, pow2(128) as int, 0, e as int);
    }
    while i > 0
        invariant
            i <= 128,
            x.of(*kind),
            acc.of(*kind),
            acc.as_int() == pow(x.as_int(), pre),
            pre == e as int / (pow2(i as nat) as int),
            e == exponent(*kind, y.as_int()),
        decreases i,
    {
        i = i - 1;
        let p = two_to(i);
        proof {
            lemma_pow2_pos(i as nat);
        }
        let top = e / p;
        let bit = top % 2 == 1;
        let ghost bit_value: nat = if bit {
            1
        } else {
            0
        };
        proof {
            lemma_pow2_unfold((i + 1) as nat);
            lemma_div_denominator(e as int, p as int, 2);
            lemma_fundamental_div_mod(e as int / (p as int), 2);
            lemma_fundamental_div_mod(e as int, p as int);
            lemma_mod_pos_bound(e as int, p as int);
            assert(top == 2 * pre + bit_value);
            assert(top <= e) by (nonlinear_arith)
                requires
                    e == p * top + (e as int % p as int),
                    0 <= e as int % p as int,
                    1 <= p,
                    0 <= top,
            ;
            lemma_pow_adds(x.as_int(), pre, pre);
            lemma_pow_adds(x.as_int(), 2 * pre, 1);
            lemma_pow1(x.as_int());
        }
        acc = match multiply_numbers(kind, acc, acc) {
            Some(square) => square,
            None => {
                proof {
                    lemma_power_leaves_kind(*kind, x.as_int(), 2 * pre, e as nat);
                }
                return None;
            },
        };
        if bit {
            acc = match multiply_numbers(kind, acc, x) {
                Some(product) => product,
                None => {
                    proof {
                        lemma_power_leaves_kind(*kind, x.as_int(), 2 * pre + 1, e as nat);
                    }
                    return None;
                },
            };
        }
        proof {
            pre = 2 * pre + bit_value;
        }
    }
    proof {
        lemma2_to64();
        assert(e as int / 1 == e);
    }
    Some(acc)
}

/// The bit of weight two to the `i` in the two's complement of `v`.
pub open spec fn bit_of(v: int, i: nat) -> bool {
    (v / (pow2(i) as int)) % 2 == 1
}

/// Adding two to a power above `i` changes no bit up to `i`.
pub proof fn lemma_bit_of_pattern(v: int, width: nat, i: nat)
    requires
        i < width,
    ensures
        bit_of(v + pow2(width), i) == bit_of(v, i),
{
    let p = pow2(i) as int;
    let k = pow2((width - i) as nat) as int;
    lemma_pow2_pos(i);
    lemma_pow2_adds((width - i) as nat, i);
    lemma_pow2_unfold((width - i) as nat);
    lemma_hoist_over_denominator(v, k, p as nat);
    assert((v + k * p) / p == v / p + k);
    let half = pow2((width - i - 1) as nat) as int;
    assert(k == 2 * half);
    lemma_mod_multiples_vanish(half, v / p, 2);
    assert((2 * half + v / p) % 2 == (v / p) % 2);
}

/// The bits of a number of `kind`, lowest first: the two's complement of the
/// number in as many bits as the kind is wide.
pub fn bits_of(kind: &IntegerType, x: Number) -> (r: Vec<bool>)
    requires
        x.of(*kind),
    ensures
        r.len() == kind.width(),
        forall|i: int| 0 <= i < r.len() ==> r[i] == bit_of(x.as_int(), i as nat),
{
    proof {
        lemma_kind_bounds(*kind);
        lemma_pow2_128();
    }
    let width = kind.bits();
    let pattern: u128 = match x {
        Number::Unsigned(v) => v,
        Number::Signed(v) => if v >= 0 {
            v as u128
        } else {
            let mask: u128 = kind.max_value() * 2 + 1;
            mask - ((-(v + 1)) as u128)
        },
    };
    proof {
        lemma_pow2_unfold(kind.width());
        assert(x.as_int() < 0 ==> pattern == x.as_int() + pow2(kind.width()));
        assert(x.as_int() >= 0 ==> pattern == x.as_int());
    }
    let mut out: Vec<bool> = Vec::new();
    let mut i: u32 = 0;
    while i < width
        invariant
            i <= width,
            width == kind.width(),
            width <= 128,
            out.len() == i,
            x.as_int() < 0 ==> pattern == x.as_int() + pow2(kind.width()),
            x.as_int() >= 0 ==> pattern == x.as_int(),
            forall|j: int| 0 <= j < i ==> out[j] == bit_of(x.as_int(), j as nat),
        decreases width - i,
    {
        let p = two_to(i);
        proof {
            lemma_pow2_pos(i as nat);
            if x.as_int() < 0 {
                lemma_bit_of_pattern(x.as_int(), kind.width(), i as nat);
            }
        }
        let bit = (pattern / p) % 2 == 1;
        assert(bit == bit_of(x.as_int(), i as nat));
        out.push(bit);
        i = i + 1;
    }
    out
}

/// The namespaces that a signed division enters before its rounds, in order:
/// one for each value that it prepares.
pub open spec fn division_opening() -> Seq<Seq<char>> {
    seq![
        "true"@,
        "constant_or_allocated_true"@,
        "one"@,
        "constant_or_allocated_1"@,
        "zero"@,
        "constant_or_allocated_0"@,
        "other_min_check"@,
        "self_min_check"@,
        "both_min"@,
        "allocated_one"@,
        "a_valid"@,
        "a_set"@,
        "b_set"@,
        "compare_msb"@,
        "a_neg"@,
        "a_abs"@,
        "b_neg"@,
        "b_abs"@,
    ]
}

/// The namespaces that the round of a signed division for the bit of weight
/// two to the `i` enters, in order: each is a purpose and the number `i`.
pub open spec fn division_round(i: nat) -> Seq<Seq<char>> {
    seq![
        "shift_left_"@ + decimal_digits(i),
        "set_remainder_bit_"@ + decimal_digits(i),
        "increment_or_remainder_"@ + decimal_digits(i),
        "compare_remainder_"@ + decimal_digits(i),
        "subtract_divisor_"@ + decimal_digits(i),
        "subtract_or_same_"@ + decimal_digits(i),
        "set_bit_or_same_"@ + decimal_digits(i),
    ]
}

/// The namespaces of the first `count` rounds of a signed division of `width`
/// bits: the rounds run from the highest bit down.
pub open spec fn division_rounds(width: nat, count: nat) -> Seq<Seq<char>>
    decreases count,
{
    if count == 0 || count > width {
        Seq::empty()
    } else {
        division_rounds(width, (count - 1) as nat) + division_round((width - count) as nat)
    }
}

/// The namespaces that a signed division enters after its rounds, in order.
pub open spec fn division_closing() -> Seq<Seq<char>> {
    seq![
        "negate"@,
        "positive or negative"@,
        "fraction"@,
        "one_result"@,
        "self_or_quotient"@,
    ]
}

/// The namespaces that a signed division of `width` bits enters, in order:
/// every intermediate value has its own.
pub open spec fn division_purposes(width: nat) -> Seq<Seq<char>> {
    division_opening() + division_rounds(width, width) + division_closing()
}

/// Appends the label `text`.
fn push_purpose(out: &mut Vec<String>, text: &str)
    ensures
        label_texts(final(out)@) == label_texts(old(out)@).push(text@),
{
    let ghost before = label_texts(out@);
    out.push(String::from_str(text));
    assert(label_texts(out@) =~= before.push(text@));
}

/// Appends the label made of `purpose` and the number `i`.
fn push_numbered(out: &mut Vec<String>, purpose: &str, i: u32)
    ensures
        label_texts(final(out)@) ==
            label_texts(old(out)@).push(purpose@ + decimal_digits(i as nat)),
{
    let ghost before = label_texts(out@);
    let mut label = String::from_str(purpose);
    push_decimal(&mut label, i as u128);
    out.push(label);
    assert(label_texts(out@) =~= before.push(purpose@ + decimal_digits(i as nat)));
}

/// The namespaces that a signed division of `bits` bits enters, in order.
pub fn division_namespaces(bits: u32) -> (r: Vec<String>)
    ensures
        label_texts(r@) == division_purposes(bits as nat),
{
    let mut out: Vec<String> = Vec::new();
    assert(label_texts(out@) =~= Seq::<Seq<char>>::empty());
    push_purpose(&mut out, "true");
    push_purpose(&mut out, "constant_or_allocated_true");
    push_purpose(&mut out, "one");
    push_purpose(&mut out, "constant_or_allocated_1");
    push_purpose(&mut out, "zero");
    push_purpose(&mut out, "constant_or_allocated_0");
    push_purpose(&mut out, "other_min_check");
    push_purpose(&mut out, "self_min_check");
    push_purpose(&mut out, "both_min");
    push_purpose(&mut out, "allocated_one");
    push_purpose(&mut out, "a_valid");
    push_purpose(&mut out, "a_set");
    push_purpose(&mut out, "b_set");
    push_purpose(&mut out, "compare_msb");
    push_purpose(&mut out, "a_neg");
    push_purpose(&mut out, "a_abs");
    push_purpose(&mut out, "b_neg");
    push_purpose(&mut out, "b_abs");
    assert(label_texts(out@) =~= division_opening());
    let mut count: u32 = 0;
    assert(division_opening() + division_rounds(bits as nat, 0) =~= division_opening());
    while count < bits
        invariant
            count <= bits,
            label_texts(out@) == division_opening() + division_rounds(bits as nat, count as nat),
        decreases bits - count,
    {
        count = count + 1;
        let i = bits - count;
        let ghost before = label_texts(out@);
        push_numbered(&mut out, "shift_left_", i);
        push_numbered(&mut out, "set_remainder_bit_", i);
        push_numbered(&mut out, "increment_or_remainder_", i);
        push_numbered(&mut out, "compare_remainder_", i);
        push_numbered(&mut out, "subtract_divisor_", i);
        push_numbered(&mut out, "subtract_or_same_", i);
        push_numbered(&mut out, "set_bit_or_same_", i);
        assert(label_texts(out@) =~= before + division_round(i as nat));
        assert(division_opening() + division_rounds(bits as nat, (count - 1) as nat) + division_round(
            i as nat,
        ) =~= division_opening() + (division_rounds(bits as nat, (count - 1) as nat)
            + division_round(i as nat)));
    }
    let ghost before = label_texts(out@);
    push_purpose(&mut out, "negate");
    push_purpose(&mut out, "positive or negative");
    push_purpose(&mut out, "fraction");
    push_purpose(&mut out, "one_result");
    push_purpose(&mut out, "self_or_quotient");
    assert(label_texts(out@) =~= before + division_closing());
    out
}

} // verus!
