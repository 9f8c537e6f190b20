use leo_core::errors::{IntegerError, SynthesisError};
use leo_core::integer::{Boolean, Integer};
use leo_core::integer_type::{ConstInt, IntegerType};
use leo_core::span::Span;
use leo_core::synthesis::Synthesis;

const SAMPLES: [i128; 14] = [
    i128::MIN,
    i128::MIN + 1,
    -170141183460469231731687303715884105,
    -4611686018427387904,
    -65537,
    -12,
    -1,
    0,
    1,
    7,
    65536,
    9223372036854775807,
    i128::MAX - 1,
    i128::MAX,
];

fn span() -> Span {
    Span::new(3, 3, 5, 9)
}

fn input(cs: &mut Synthesis, name: &str, value: i128) -> Integer {
    Integer::allocate_type(cs, &IntegerType::I128, name, Some(value.to_string()), &span()).unwrap()
}

fn apply(
    a: i128,
    b: i128,
    operation: fn(Integer, &mut Synthesis, Integer, &Span) -> Result<Integer, IntegerError>,
) -> Result<Integer, IntegerError> {
    let mut cs = Synthesis::new(true);
    let x = input(&mut cs, "a", a);
    let y = input(&mut cs, "b", b);
    operation(x, &mut cs, y, &span())
}

fn value(integer: &Integer) -> i128 {
    integer.get_value().unwrap().parse::<i128>().unwrap()
}

fn truth(boolean: Result<Boolean, SynthesisError>) -> bool {
    boolean.unwrap().get_value().unwrap()
}

#[test]
fn test_i128_min() {
    let mut cs = Synthesis::new(true);
    let text = "-170141183460469231731687303715884105728";
    let a = Integer::allocate_type(&mut cs, &IntegerType::I128, "a", Some(text.to_string()), &span())
        .unwrap();
    assert_eq!(a.get_value(), Some(text.to_string()));
    assert_eq!(a.get_type(), IntegerType::I128);
    assert_eq!(Integer::new(&ConstInt::I128(i128::MIN)).get_value(), Some(text.to_string()));
    assert!(cs.is_satisfied());
}

#[test]
fn test_i128_min_fail() {
    let mut cs = Synthesis::new(true);
    let text = "-170141183460469231731687303715884105729";
    let r = Integer::allocate_type(&mut cs, &IntegerType::I128, "a", Some(text.to_string()), &span());
    assert_eq!(r, Err(IntegerError::InvalidInteger { value: text.to_string(), span: span() }));
    assert_eq!(cs.len(), 0);
}

#[test]
fn test_i128_max() {
    let mut cs = Synthesis::new(true);
    let text = "170141183460469231731687303715884105727";
    let a = Integer::allocate_type(&mut cs, &IntegerType::I128, "a", Some(text.to_string()), &span())
        .unwrap();
    assert_eq!(a.get_value(), Some(text.to_string()));
    assert_eq!(Integer::new(&ConstInt::I128(i128::MAX)).get_value(), Some(text.to_string()));
}

#[test]
fn test_i128_max_fail() {
    let mut cs = Synthesis::new(true);
    let text = "170141183460469231731687303715884105728";
    let r = Integer::allocate_type(&mut cs, &IntegerType::I128, "a", Some(text.to_string()), &span());
    assert_eq!(r, Err(IntegerError::InvalidInteger { value: text.to_string(), span: span() }));
}

#[test]
fn test_i128_neg() {
    for a in SAMPLES {
        let expected = match a.checked_neg() {
            Some(valid) => valid,
            None => continue,
        };
        let mut cs = Synthesis::new(true);
        let b = input(&mut cs, "a", a).negate(&mut cs, &span()).unwrap();
        assert_eq!(value(&b), expected);
    }
}

#[test]
fn test_i128_neg_max_fail() {
    let mut cs = Synthesis::new(true);
    let a = input(&mut cs, "a", i128::MIN);
    assert_eq!(a.negate(&mut cs, &span()), Err(IntegerError::Overflow { span: span() }));
}

#[test]
fn test_i128_neg_zero() {
    let mut cs = Synthesis::new(true);
    let b = input(&mut cs, "a", 0).negate(&mut cs, &span()).unwrap();
    assert_eq!(value(&b), 0);
}

#[test]
fn test_i128_add() {
    for a in SAMPLES {
        for b in SAMPLES {
            let r = apply(a, b, Integer::add);
            match a.checked_add(b) {
                Some(c) => assert_eq!(value(&r.unwrap()), c),
                None => assert_eq!(r, Err(IntegerError::Overflow { span: span() })),
            }
        }
    }
}

#[test]
fn test_i128_sub() {
    for a in SAMPLES {
        for b in SAMPLES {
            let r = apply(a, b, Integer::sub);
            // the subtrahend is negated first: the least value cannot be subtracted
            let expected = b.checked_neg().and_then(|negated| a.checked_add(negated));
            match expected {
                Some(c) => {
                    assert_eq!(Some(c), a.checked_sub(b));
                    assert_eq!(value(&r.unwrap()), c)
                }
                None => assert_eq!(r, Err(IntegerError::Overflow { span: span() })),
            }
        }
    }
}

#[test]
fn test_i128_mul() {
    for a in SAMPLES {
        for b in SAMPLES {
            let r = apply(a, b, Integer::mul);
            match a.checked_mul(b) {
                Some(c) => assert_eq!(value(&r.unwrap()), c),
                None => assert_eq!(r, Err(IntegerError::Overflow { span: span() })),
            }
        }
    }
}

#[test]
fn test_i128_div() {
    for a in SAMPLES {
        for b in SAMPLES {
            let r = apply(a, b, Integer::div);
            if b == 0 {
                assert_eq!(r, Err(IntegerError::DivisionByZero { span: span() }));
            } else if a == i128::MIN && b != i128::MIN {
                // the least value is divided as if it were one greater
                assert_eq!(value(&r.unwrap()), (i128::MIN + 1) / b);
            } else {
                assert_eq!(value(&r.unwrap()), a.checked_div(b).unwrap());
            }
        }
    }
}

#[test]
fn test_i128_pow() {
    for a in -12i128..12 {
        for b in 0i128..40 {
            let r = apply(a, b, Integer::pow);
            match a.checked_pow(b as u32) {
                Some(c) => assert_eq!(value(&r.unwrap()), c),
                None => assert_eq!(r, Err(IntegerError::Overflow { span: span() })),
            }
        }
    }
    let r = apply(2, 126, Integer::pow);
    assert_eq!(value(&r.unwrap()), 1i128 << 126);
    let r = apply(-2, 127, Integer::pow);
    assert_eq!(value(&r.unwrap()), i128::MIN);
    let r = apply(2, 127, Integer::pow);
    assert_eq!(r, Err(IntegerError::Overflow { span: span() }));
    // a negative exponent stands for the number that its bits spell
    let r = apply(-1, -1, Integer::pow);
    assert_eq!(value(&r.unwrap()), -1);
    let r = apply(3, -1, Integer::pow);
    assert_eq!(r, Err(IntegerError::Overflow { span: span() }));
}

#[test]
fn test_i128_eq() {
    for a in SAMPLES {
        for b in SAMPLES {
            let mut cs = Synthesis::new(true);
            let x = input(&mut cs, "a", a);
            let y = input(&mut cs, "b", b);
            assert!(truth(x.evaluate_equal(&x)));
            assert_eq!(truth(x.evaluate_equal(&y)), a == b);
        }
    }
}

#[test]
fn test_i128_ne() {
    for a in SAMPLES {
        for b in SAMPLES {
            let mut cs = Synthesis::new(true);
            let x = input(&mut cs, "a", a);
            let y = input(&mut cs, "b", b);
            assert!(truth(x.evaluate_equal(&x)));
            assert_eq!(!truth(x.evaluate_equal(&y)), a != b);
        }
    }
}

#[test]
fn test_i128_ge() {
    for a in SAMPLES {
        for b in SAMPLES {
            let mut cs = Synthesis::new(true);
            let x = input(&mut cs, "a", a);
            let y = input(&mut cs, "b", b);
            assert!(!truth(x.less_than(&x)));
            assert_eq!(!truth(x.less_than(&y)), a >= b);
        }
    }
}

#[test]
fn test_i128_gt() {
    for a in SAMPLES {
        for b in SAMPLES {
            let mut cs = Synthesis::new(true);
            let x = input(&mut cs, "a", a);
            let y = input(&mut cs, "b", b);
            assert!(!truth(x.less_than(&x)));
            assert_eq!(truth(y.less_than(&x)), a > b);
        }
    }
}

#[test]
fn test_i128_le() {
    for a in SAMPLES {
        for b in SAMPLES {
            let mut cs = Synthesis::new(true);
            let x = input(&mut cs, "a", a);
            let y = input(&mut cs, "b", b);
            assert!(!truth(x.less_than(&x)));
            assert_eq!(!truth(y.less_than(&x)), a <= b);
        }
    }
}

#[test]
fn test_i128_lt() {
    for a in SAMPLES {
        for b in SAMPLES {
            let mut cs = Synthesis::new(true);
            let x = input(&mut cs, "a", a);
            let y = input(&mut cs, "b", b);
            assert!(!truth(x.less_than(&x)));
            assert_eq!(truth(x.less_than(&y)), a < b);
        }
    }
}

#[test]
fn test_i128_assert_eq() {
    for a in SAMPLES {
        for b in SAMPLES {
            let mut cs = Synthesis::new(true);
            let x = input(&mut cs, "a", a);
            let y = input(&mut cs, "b", b);
            x.conditional_enforce_equal(&mut cs, &x, &Boolean::Constant(true)).unwrap();
            assert!(cs.is_satisfied());
            x.conditional_enforce_equal(&mut cs, &y, &Boolean::Constant(true)).unwrap();
            assert_eq!(cs.is_satisfied(), a == b);
        }
    }
}

#[test]
fn test_i128_ternary() {
    for a in SAMPLES {
        for b in SAMPLES {
            let mut cs = Synthesis::new(true);
            let x = input(&mut cs, "a", a);
            let y = input(&mut cs, "b", b);
            let s = Boolean::Allocated(Some(true));
            let c = Integer::conditionally_select(&cs, &s, &x, &y).unwrap();
            assert_eq!(value(&c), a);
            let s = Boolean::Allocated(Some(false));
            let c = Integer::conditionally_select(&cs, &s, &x, &y).unwrap();
            assert_eq!(value(&c), b);
        }
    }
}

#[test]
fn a_blank_is_no_part_of_a_signed_number() {
    // a number and the name of its kind are written without a blank between
    // them, and a blank is no part of a number
    for text in ["1 i128", "- 1", "-1 ", " -1", "1 2", "-", "i128", "1i128"] {
        let mut cs = Synthesis::new(true);
        let r = Integer::allocate_type(&mut cs, &IntegerType::I128, "a", Some(text.to_string()), &span());
        assert!(r.is_err());
        assert_eq!(r, Err(IntegerError::InvalidInteger { value: text.to_string(), span: span() }));
    }
}
