use leo_core::errors::{IntegerError, SynthesisError};
use leo_core::integer::{Boolean, Integer};
use leo_core::integer_type::{ConstInt, IntegerType};
use leo_core::span::Span;
use leo_core::synthesis::Synthesis;

const SAMPLES: [u32; 12] =
    [0, 1, 2, 7, 255, 256, 65535, 65536, 2147483647, 2147483648, u32::MAX - 1, u32::MAX];

fn span() -> Span {
    Span::new(3, 3, 5, 9)
}

fn input(cs: &mut Synthesis, name: &str, value: u32) -> Integer {
    Integer::allocate_type(cs, &IntegerType::U32, name, Some(value.to_string()), &span()).unwrap()
}

fn apply(
    a: u32,
    b: u32,
    operation: fn(Integer, &mut Synthesis, Integer, &Span) -> Result<Integer, IntegerError>,
) -> Result<Integer, IntegerError> {
    let mut cs = Synthesis::new(true);
    let x = input(&mut cs, "a", a);
    let y = input(&mut cs, "b", b);
    operation(x, &mut cs, y, &span())
}

fn value(integer: &Integer) -> u32 {
    integer.get_value().unwrap().parse::<u32>().unwrap()
}

fn truth(boolean: Result<Boolean, SynthesisError>) -> bool {
    boolean.unwrap().get_value().unwrap()
}

#[test]
fn test_u32_add() {
    for a in SAMPLES {
        for b in SAMPLES {
            let r = apply(a, b, Integer::add);
            match a.checked_add(b) {
                Some(c) => assert_eq!(value(&r.unwrap()), c),
                None => assert_eq!(r, Err(IntegerError::Overflow { span: span() })),
            }
        }
    }
}

#[test]
fn test_u32_mul() {
    for a in SAMPLES {
        for b in SAMPLES {
            let r = apply(a, b, Integer::mul);
            match a.checked_mul(b) {
                Some(c) => assert_eq!(value(&r.unwrap()), c),
                None => assert_eq!(r, Err(IntegerError::Overflow { span: span() })),
            }
        }
    }
}

#[test]
fn test_u32_eq() {
    for a in SAMPLES {
        for b in SAMPLES {
            let mut cs = Synthesis::new(true);
            let x = input(&mut cs, "a", a);
            let y = input(&mut cs, "b", b);
            assert!(truth(x.evaluate_equal(&x)));
            assert_eq!(truth(x.evaluate_equal(&y)), a == b);
        }
    }
}

#[test]
fn test_u32_ne() {
    for a in SAMPLES {
        for b in SAMPLES {
            let mut cs = Synthesis::new(true);
            let x = input(&mut cs, "a", a);
            let y = input(&mut cs, "b", b);
            assert!(truth(x.evaluate_equal(&x)));
            assert_eq!(!truth(x.evaluate_equal(&y)), a != b);
        }
    }
}

#[test]
fn test_u32_ge() {
    for a in SAMPLES {
        for b in SAMPLES {
            let mut cs = Synthesis::new(true);
            let x = input(&mut cs, "a", a);
            let y = input(&mut cs, "b", b);
            assert!(!truth(x.less_than(&x)));
            assert_eq!(!truth(x.less_than(&y)), a >= b);
        }
    }
}

#[test]
fn test_u32_gt() {
    for a in SAMPLES {
        for b in SAMPLES {
            let mut cs = Synthesis::new(true);
            let x = input(&mut cs, "a", a);
            let y = input(&mut cs, "b", b);
            assert!(!truth(x.less_than(&x)));
            assert_eq!(truth(y.less_than(&x)), a > b);
        }
    }
}

#[test]
fn test_u32_le() {
    for a in SAMPLES {
        for b in SAMPLES {
            let mut cs = Synthesis::new(true);
            let x = input(&mut cs, "a", a);
            let y = input(&mut cs, "b", b);
            assert!(!truth(x.less_than(&x)));
            assert_eq!(!truth(y.less_than(&x)), a <= b);
        }
    }
}

#[test]
fn test_u32_lt() {
    for a in SAMPLES {
        for b in SAMPLES {
            let mut cs = Synthesis::new(true);
            let x = input(&mut cs, "a", a);
            let y = input(&mut cs, "b", b);
            assert!(!truth(x.less_than(&x)));
            assert_eq!(truth(x.less_than(&y)), a < b);
        }
    }
}

#[test]
fn test_u32_console_assert() {
    for a in SAMPLES {
        for b in SAMPLES {
            let mut cs = Synthesis::new(true);
            let x = input(&mut cs, "a", a);
            let y = input(&mut cs, "b", b);
            x.conditional_enforce_equal(&mut cs, &x, &Boolean::Constant(true)).unwrap();
            assert!(cs.is_satisfied());
            x.conditional_enforce_equal(&mut cs, &y, &Boolean::Constant(true)).unwrap();
            assert_eq!(cs.is_satisfied(), a == b);
        }
    }
}

#[test]
fn test_u32_ternary() {
    for a in SAMPLES {
        for b in SAMPLES {
            let mut cs = Synthesis::new(true);
            let x = input(&mut cs, "a", a);
            let y = input(&mut cs, "b", b);
            let s = Boolean::Allocated(Some(true));
            let c = Integer::conditionally_select(&cs, &s, &x, &y).unwrap();
            assert_eq!(value(&c), a);
            let s = Boolean::Allocated(Some(false));
            let c = Integer::conditionally_select(&cs, &s, &x, &y).unwrap();
            assert_eq!(value(&c), b);
        }
    }
}

#[test]
fn test_u32_min() {
    let mut cs = Synthesis::new(true);
    let a = Integer::allocate_type(&mut cs, &IntegerType::U32, "a", Some("0".to_string()), &span())
        .unwrap();
    assert_eq!(a.get_value(), Some("0".to_string()));
    assert_eq!(a.get_type(), IntegerType::U32);
    assert_eq!(Integer::new(&ConstInt::U32(u32::MIN)).get_value(), Some("0".to_string()));
}

#[test]
fn test_u32_min_fail() {
    let mut cs = Synthesis::new(true);
    let r = Integer::allocate_type(&mut cs, &IntegerType::U32, "a", Some("-1".to_string()), &span());
    assert_eq!(r, Err(IntegerError::InvalidInteger { value: "-1".to_string(), span: span() }));
}

#[test]
fn test_u32_max() {
    let mut cs = Synthesis::new(true);
    let text = "4294967295";
    let a = Integer::allocate_type(&mut cs, &IntegerType::U32, "a", Some(text.to_string()), &span())
        .unwrap();
    assert_eq!(a.get_value(), Some(text.to_string()));
    assert_eq!(Integer::new(&ConstInt::U32(u32::MAX)).get_value(), Some(text.to_string()));
}

#[test]
fn test_u32_max_fail() {
    let mut cs = Synthesis::new(true);
    let text = "4294967296";
    let r = Integer::allocate_type(&mut cs, &IntegerType::U32, "a", Some(text.to_string()), &span());
    assert_eq!(r, Err(IntegerError::InvalidInteger { value: text.to_string(), span: span() }));
}

#[test]
fn test_u32_sub() {
    for a in SAMPLES {
        for b in SAMPLES {
            let r = apply(a, b, Integer::sub);
            match a.checked_sub(b) {
                Some(c) => assert_eq!(value(&r.unwrap()), c),
                None => assert_eq!(r, Err(IntegerError::Overflow { span: span() })),
            }
        }
    }
}

#[test]
fn test_u32_div() {
    for a in SAMPLES {
        for b in SAMPLES {
            let r = apply(a, b, Integer::div);
            match a.checked_div(b) {
                Some(c) => assert_eq!(value(&r.unwrap()), c),
                None => assert_eq!(r, Err(IntegerError::DivisionByZero { span: span() })),
            }
        }
    }
}

#[test]
fn test_u32_pow() {
    for a in 0u32..12 {
        for b in 0u32..40 {
            let r = apply(a, b, Integer::pow);
            match a.checked_pow(b) {
                Some(c) => assert_eq!(value(&r.unwrap()), c),
                None => assert_eq!(r, Err(IntegerError::Overflow { span: span() })),
            }
        }
    }
    let r = apply(2, 31, Integer::pow);
    assert_eq!(value(&r.unwrap()), 2147483648);
    let r = apply(2, 32, Integer::pow);
    assert_eq!(r, Err(IntegerError::Overflow { span: span() }));
    let r = apply(1, u32::MAX, Integer::pow);
    assert_eq!(value(&r.unwrap()), 1);
}

#[test]
fn test_u32_negate_is_no_operation() {
    let mut cs = Synthesis::new(true);
    let a = input(&mut cs, "a", 5);
    let before = cs.len();
    assert_eq!(a.negate(&mut cs, &span()), Err(IntegerError::NegateOperation { span: span() }));
    assert_eq!(cs.len(), before);
}

#[test]
fn a_blank_is_no_part_of_a_number() {
    // a number and what follows it are written without a blank between them,
    // and a blank is no part of a number
    for text in ["1 u32", "1 ", " 1", "1 2", "", "+", "u32", "1u32"] {
        for kind in [IntegerType::U32, IntegerType::I128] {
            let mut cs = Synthesis::new(true);
            let r = Integer::allocate_type(&mut cs, &kind, "a", Some(text.to_string()), &span());
            assert_eq!(
                r,
                Err(IntegerError::InvalidInteger { value: text.to_string(), span: span() })
            );
        }
    }
    let mut cs = Synthesis::new(true);
    let r = Integer::allocate_type(&mut cs, &IntegerType::U32, "a", Some("+12".to_string()), &span());
    assert_eq!(r.unwrap().get_value(), Some("12".to_string()));
    let r = Integer::allocate_type(&mut cs, &IntegerType::I128, "a", Some("-0012".to_string()), &span());
    assert_eq!(r.unwrap().get_value(), Some("-12".to_string()));
}
