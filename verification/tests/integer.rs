use leo_core::arithmetic::division_namespaces;
use leo_core::errors::{IntegerError, SynthesisError};
use leo_core::input::InputValue;
use leo_core::integer::{Boolean, Integer};
use leo_core::integer_type::{ConstInt, IntegerType};
use leo_core::span::Span;
use leo_core::synthesis::Synthesis;
use std::collections::HashSet;

fn span() -> Span {
    Span::new(3, 4, 5, 9)
}

fn labels(cs: &Synthesis) -> Vec<String> {
    (0..cs.len()).map(|i| cs.label(i).clone()).collect()
}

fn within_division(outer: &str, bits: u32) -> Vec<String> {
    let mut purposes: Vec<String> = [
        "true",
        "constant_or_allocated_true",
        "one",
        "constant_or_allocated_1",
        "zero",
        "constant_or_allocated_0",
        "other_min_check",
        "self_min_check",
        "both_min",
        "allocated_one",
        "a_valid",
        "a_set",
        "b_set",
        "compare_msb",
        "a_neg",
        "a_abs",
        "b_neg",
        "b_abs",
    ]
    .iter()
    .map(|p| p.to_string())
    .collect();
    for i in (0..bits).rev() {
        for purpose in [
            "shift_left",
            "set_remainder_bit",
            "increment_or_remainder",
            "compare_remainder",
            "subtract_divisor",
            "subtract_or_same",
            "set_bit_or_same",
        ] {
            purposes.push(format!("{}_{}", purpose, i));
        }
    }
    for purpose in ["negate", "positive or negative", "fraction", "one_result", "self_or_quotient"] {
        purposes.push(purpose.to_string());
    }
    purposes.iter().map(|p| format!("{}/{}", outer, p)).collect()
}

fn constant_i8(v: i8) -> Integer {
    Integer::new(&ConstInt::I8(v))
}

fn constant_u32(v: u32) -> Integer {
    Integer::new(&ConstInt::U32(v))
}

#[test]
fn constants_hold_their_value_and_kind() {
    let all = [
        (ConstInt::U8(255), IntegerType::U8, "255"),
        (ConstInt::U16(65535), IntegerType::U16, "65535"),
        (ConstInt::U32(0), IntegerType::U32, "0"),
        (ConstInt::U64(u64::MAX), IntegerType::U64, "18446744073709551615"),
        (ConstInt::U128(u128::MAX), IntegerType::U128, "340282366920938463463374607431768211455"),
        (ConstInt::I8(-128), IntegerType::I8, "-128"),
        (ConstInt::I16(-32768), IntegerType::I16, "-32768"),
        (ConstInt::I32(-1), IntegerType::I32, "-1"),
        (ConstInt::I64(i64::MIN), IntegerType::I64, "-9223372036854775808"),
        (ConstInt::I128(i128::MAX), IntegerType::I128, "170141183460469231731687303715884105727"),
    ];
    for (constant, kind, text) in all {
        let integer = Integer::new(&constant);
        assert_eq!(integer.get_type(), kind);
        assert_eq!(integer.get_value(), Some(text.to_string()));
        assert_eq!(integer.to_string(), text);
        assert!(integer.is_constant());
        assert_eq!(integer.get_bits().len(), kind.bits() as usize);
    }
}

#[test]
fn allocation_enters_its_namespace() {
    let mut cs = Synthesis::new(true);
    let a = Integer::allocate_type(&mut cs, &IntegerType::U8, "a", Some("200".to_string()), &span())
        .unwrap();
    assert_eq!(a.get_value(), Some("200".to_string()));
    assert!(!a.is_constant());
    assert_eq!(labels(&cs), vec!["`a: u8` 3:5".to_string()]);
    let b = Integer::allocate_type(
        &mut cs,
        &IntegerType::I64,
        "total",
        Some("-7".to_string()),
        &Span::new(12, 12, 140, 141),
    )
    .unwrap();
    assert_eq!(b.get_value(), Some("-7".to_string()));
    assert_eq!(labels(&cs), vec!["`a: u8` 3:5".to_string(), "`total: i64` 12:140".to_string()]);
}

#[test]
fn a_text_that_is_no_value_of_the_kind_is_invalid() {
    for (kind, text) in [
        (IntegerType::U8, "256"),
        (IntegerType::U8, "-1"),
        (IntegerType::U8, "1.0"),
        (IntegerType::U8, "0x10"),
        (IntegerType::I8, "128"),
        (IntegerType::I8, "-129"),
        (IntegerType::I8, "--1"),
        (IntegerType::I8, "-"),
        (IntegerType::U64, "18446744073709551616"),
        (IntegerType::U128, "340282366920938463463374607431768211456"),
        (IntegerType::U128, "99999999999999999999999999999999999999999999999"),
        (IntegerType::I16, "１２"),
    ] {
        let mut cs = Synthesis::new(false);
        let r = Integer::allocate_type(&mut cs, &kind, "a", Some(text.to_string()), &span());
        assert_eq!(r, Err(IntegerError::InvalidInteger { value: text.to_string(), span: span() }));
        assert_eq!(cs.len(), 0);
    }
    for (kind, text, value) in [
        (IntegerType::U8, "0255", "255"),
        (IntegerType::U8, "+0", "0"),
        (IntegerType::I8, "-128", "-128"),
        (IntegerType::I8, "-0", "0"),
        (IntegerType::I8, "+127", "127"),
        (IntegerType::U128, "000340282366920938463463374607431768211455", "340282366920938463463374607431768211455"),
    ] {
        let mut cs = Synthesis::new(false);
        let r = Integer::allocate_type(&mut cs, &kind, "a", Some(text.to_string()), &span());
        assert_eq!(r.unwrap().get_value(), Some(value.to_string()));
    }
}

#[test]
fn an_input_without_value_is_missing_where_values_are_needed() {
    let mut cs = Synthesis::new(true);
    let r = Integer::allocate_type(&mut cs, &IntegerType::U16, "count", None, &span());
    assert_eq!(
        r,
        Err(IntegerError::MissingInteger { name: "count: u16".to_string(), span: span() })
    );
    assert_eq!(labels(&cs), vec!["`count: u16` 3:5".to_string()]);

    let mut cs = Synthesis::new(false);
    let a = Integer::allocate_type(&mut cs, &IntegerType::U16, "count", None, &span()).unwrap();
    assert_eq!(a.get_value(), None);
    assert_eq!(a.get_type(), IntegerType::U16);
    assert_eq!(a.to_string(), "[input]u16");
    assert_eq!(a.get_bits(), vec![Boolean::Allocated(None); 16]);
}

#[test]
fn an_input_must_be_tagged_as_an_integer_of_the_kind() {
    let mut cs = Synthesis::new(true);
    let a = Integer::from_input(
        &mut cs,
        &IntegerType::U32,
        "a",
        Some(InputValue::Integer(IntegerType::U32, "7".to_string())),
        &span(),
    )
    .unwrap();
    assert_eq!(a.get_value(), Some("7".to_string()));
    assert_eq!(labels(&cs), vec!["`a: u32` 3:5".to_string()]);

    let r = Integer::from_input(
        &mut cs,
        &IntegerType::U32,
        "a",
        Some(InputValue::Integer(IntegerType::U8, "7".to_string())),
        &span(),
    );
    assert_eq!(r, Err(IntegerError::InvalidInteger { value: "7u8".to_string(), span: span() }));

    let r = Integer::from_input(&mut cs, &IntegerType::U32, "a", Some(InputValue::Boolean(true)), &span());
    assert_eq!(r, Err(IntegerError::InvalidInteger { value: "true".to_string(), span: span() }));

    let nested = InputValue::Array(vec![
        InputValue::Integer(IntegerType::I8, "-1".to_string()),
        InputValue::Tuple(vec![InputValue::Field("5".to_string()), InputValue::Boolean(false)]),
        InputValue::Array(vec![]),
    ]);
    assert_eq!(nested.to_string(), "[-1i8, (5, false), []]");
    let r = Integer::from_input(&mut cs, &IntegerType::U32, "a", Some(nested), &span());
    assert_eq!(
        r,
        Err(IntegerError::InvalidInteger { value: "[-1i8, (5, false), []]".to_string(), span: span() })
    );
    assert_eq!(cs.len(), 1);

    let mut cs = Synthesis::new(true);
    let r = Integer::from_input(&mut cs, &IntegerType::U32, "a", None, &span());
    assert_eq!(r, Err(IntegerError::MissingInteger { name: "a: u32".to_string(), span: span() }));
}

#[test]
fn operations_enter_their_namespaces_letter_for_letter() {
    let mut cs = Synthesis::new(false);
    let s = Span::new(10, 10, 2, 8);
    let a = constant_i8(-5);
    let b = Integer::allocate_type(&mut cs, &IntegerType::I8, "b", Some("3".to_string()), &s).unwrap();
    let x = Integer::allocate_type(&mut cs, &IntegerType::I8, "x", None, &s).unwrap();
    a.add(&mut cs, b, &s).unwrap();
    a.sub(&mut cs, b, &s).unwrap();
    a.mul(&mut cs, x, &s).unwrap();
    a.div(&mut cs, b, &s).unwrap();
    b.pow(&mut cs, b, &s).unwrap();
    a.negate(&mut cs, &s).unwrap();
    x.negate(&mut cs, &s).unwrap();
    let mut expected: Vec<String> = [
        "`b: i8` 10:2",
        "`x: i8` 10:2",
        "enforce -5 + 3 10:2",
        "enforce -5 - 3 10:2",
        "enforce -5 * [input]i8 10:2",
        "enforce -5 div 3 10:2",
    ]
    .iter()
    .map(|l| l.to_string())
    .collect();
    expected.extend(within_division("enforce -5 div 3 10:2", 8));
    expected.push("enforce 3 ** 3 10:2".to_string());
    expected.push("enforce --5 10:2".to_string());
    expected.push("enforce -[input]i8 10:2".to_string());
    assert_eq!(labels(&cs), expected);
    assert!(cs.is_collision_free());
    assert!(labels(&cs).iter().all(|l| l.is_ascii()));
}

#[test]
fn a_signed_division_enters_a_namespace_for_every_intermediate_value() {
    let mut cs = Synthesis::new(true);
    let s = Span::new(2, 2, 7, 12);
    let a = Integer::allocate_type(&mut cs, &IntegerType::I8, "a", Some("-100".to_string()), &s).unwrap();
    let q = a.div(&mut cs, constant_i8(7), &s).unwrap();
    assert_eq!(q.get_value(), Some("-14".to_string()));
    let all = labels(&cs);
    assert_eq!(all.len(), 2 + 18 + 7 * 8 + 5);
    assert_eq!(all[0], "`a: i8` 2:7");
    assert_eq!(all[1], "enforce -100 div 7 2:7");
    assert_eq!(all[2], "enforce -100 div 7 2:7/true");
    assert_eq!(all[3], "enforce -100 div 7 2:7/constant_or_allocated_true");
    assert_eq!(all[19], "enforce -100 div 7 2:7/b_abs");
    assert_eq!(all[20], "enforce -100 div 7 2:7/shift_left_7");
    assert_eq!(all[26], "enforce -100 div 7 2:7/set_bit_or_same_7");
    assert_eq!(all[27], "enforce -100 div 7 2:7/shift_left_6");
    assert_eq!(all[75], "enforce -100 div 7 2:7/set_bit_or_same_0");
    assert_eq!(all[76], "enforce -100 div 7 2:7/negate");
    assert_eq!(all[77], "enforce -100 div 7 2:7/positive or negative");
    assert_eq!(all[78], "enforce -100 div 7 2:7/fraction");
    assert_eq!(all[79], "enforce -100 div 7 2:7/one_result");
    assert_eq!(all[80], "enforce -100 div 7 2:7/self_or_quotient");
    assert_eq!(all[2..], within_division("enforce -100 div 7 2:7", 8)[..]);
    assert!(cs.is_collision_free());
}

#[test]
fn the_namespaces_of_a_division_follow_the_width_of_the_kind() {
    assert_eq!(division_namespaces(8).len(), 18 + 7 * 8 + 5);
    assert_eq!(division_namespaces(128).len(), 18 + 7 * 128 + 5);
    let wide = division_namespaces(128);
    assert_eq!(wide[18], "shift_left_127");
    assert_eq!(wide[18 + 7 * 128 - 1], "set_bit_or_same_0");
    assert_eq!(wide[18 + 7 * 27 + 3], "compare_remainder_100");
    assert_eq!(division_namespaces(0).len(), 23);
    for bits in [8, 16, 32, 64, 128] {
        let all = division_namespaces(bits);
        let distinct: HashSet<&String> = all.iter().collect();
        assert_eq!(distinct.len(), all.len());
        assert!(all.iter().all(|purpose| purpose.is_ascii() && !purpose.contains('/')));
    }
}

#[test]
fn an_unsigned_division_and_a_division_by_zero_enter_one_namespace() {
    let mut cs = Synthesis::new(true);
    let s = span();
    let q = constant_u32(17).div(&mut cs, constant_u32(5), &s).unwrap();
    assert_eq!(q.get_value(), Some("3".to_string()));
    assert_eq!(labels(&cs), vec!["enforce 17 div 5 3:5"]);
    let mut cs = Synthesis::new(true);
    assert!(constant_i8(17).div(&mut cs, constant_i8(0), &s).is_err());
    assert_eq!(labels(&cs), vec!["enforce 17 div 0 3:5"]);
}

#[test]
fn a_synthesis_tells_which_labels_it_has_entered_and_whether_two_collide() {
    let mut cs = Synthesis::new(true);
    assert!(cs.is_collision_free());
    assert!(!cs.has_entered("enforce 1 + 2 3:5"));
    constant_u32(1).add(&mut cs, constant_u32(2), &span()).unwrap();
    assert!(cs.has_entered("enforce 1 + 2 3:5"));
    assert!(!cs.has_entered("enforce 1 + 2 3:6"));
    assert!(cs.is_collision_free());
    constant_u32(1).add(&mut cs, constant_u32(2), &Span::new(4, 4, 9, 14)).unwrap();
    assert!(cs.is_collision_free());
    constant_u32(1).add(&mut cs, constant_u32(2), &span()).unwrap();
    assert_eq!(cs.len(), 3);
    assert!(!cs.is_collision_free());
    constant_u32(5).add(&mut cs, constant_u32(5), &span()).unwrap();
    assert!(!cs.is_collision_free());
}

#[test]
fn the_text_of_a_value_reads_back_as_the_value() {
    let all = [
        ConstInt::U8(0),
        ConstInt::U8(255),
        ConstInt::U64(u64::MAX),
        ConstInt::U128(u128::MAX),
        ConstInt::I8(-128),
        ConstInt::I8(127),
        ConstInt::I16(-1),
        ConstInt::I64(i64::MIN),
        ConstInt::I128(i128::MIN),
        ConstInt::I128(i128::MAX),
    ];
    for c in all {
        let integer = Integer::new(&c);
        let text = integer.get_value().unwrap();
        let mut cs = Synthesis::new(true);
        let read =
            Integer::allocate_type(&mut cs, &integer.get_type(), "a", Some(text.clone()), &span()).unwrap();
        assert_eq!(read.get_type(), integer.get_type());
        assert_eq!(read.get_value(), Some(text));
        assert_eq!(read.evaluate_equal(&integer), Ok(Boolean::Allocated(Some(true))));
    }
    assert_eq!(Integer::new(&ConstInt::I128(i128::MIN)).get_value().unwrap(), "-170141183460469231731687303715884105728");
}

#[test]
fn operands_of_different_kinds_fail_the_operation() {
    let cases: [(fn(Integer, &mut Synthesis, Integer, &Span) -> Result<Integer, IntegerError>, &str); 5] = [
        (Integer::add, "+"),
        (Integer::sub, "-"),
        (Integer::mul, "*"),
        (Integer::div, "div"),
        (Integer::pow, "**"),
    ];
    for (operation, sign) in cases {
        let mut cs = Synthesis::new(true);
        let r = operation(constant_u32(1), &mut cs, constant_i8(1), &span());
        assert_eq!(
            r,
            Err(IntegerError::BinaryOperation { operation: sign.to_string(), span: span() })
        );
        assert_eq!(cs.len(), 0);
    }
    assert_eq!(constant_u32(1).evaluate_equal(&constant_i8(1)), Err(SynthesisError::Unsatisfiable));
    assert_eq!(constant_u32(1).less_than(&constant_i8(1)), Err(SynthesisError::Unsatisfiable));
    let mut cs = Synthesis::new(true);
    assert_eq!(
        constant_u32(1).conditional_enforce_equal(&mut cs, &constant_i8(1), &Boolean::Constant(true)),
        Err(SynthesisError::Unsatisfiable)
    );
    assert!(cs.is_satisfied());
    assert_eq!(
        Integer::conditionally_select(&cs, &Boolean::Constant(true), &constant_u32(1), &constant_i8(1)),
        Err(SynthesisError::Unsatisfiable)
    );
}

#[test]
fn an_unknown_value_gives_an_unknown_result() {
    let mut cs = Synthesis::new(false);
    let x = Integer::allocate_type(&mut cs, &IntegerType::U32, "x", None, &span()).unwrap();
    let one = constant_u32(1);
    let zero = constant_u32(0);
    assert_eq!(x.add(&mut cs, one, &span()).unwrap().get_value(), None);
    assert_eq!(one.mul(&mut cs, x, &span()).unwrap().get_value(), None);
    assert_eq!(x.div(&mut cs, one, &span()).unwrap().get_value(), None);
    assert_eq!(one.div(&mut cs, x, &span()).unwrap().get_value(), None);
    assert_eq!(x.div(&mut cs, zero, &span()), Err(IntegerError::DivisionByZero { span: span() }));
    assert_eq!(x.evaluate_equal(&one), Ok(Boolean::Allocated(None)));
    assert_eq!(one.less_than(&x), Ok(Boolean::Allocated(None)));
    x.conditional_enforce_equal(&mut cs, &one, &Boolean::Constant(true)).unwrap();
    assert!(cs.is_satisfied());
}

#[test]
fn the_result_of_constants_is_a_constant() {
    let mut cs = Synthesis::new(true);
    let r = constant_u32(6).mul(&mut cs, constant_u32(7), &span()).unwrap();
    assert!(r.is_constant());
    assert_eq!(r.get_value(), Some("42".to_string()));
    let a = Integer::allocate_type(&mut cs, &IntegerType::U32, "a", Some("6".to_string()), &span())
        .unwrap();
    let r = a.mul(&mut cs, constant_u32(7), &span()).unwrap();
    assert!(!r.is_constant());
    assert_eq!(r.get_value(), Some("42".to_string()));
    assert_eq!(constant_u32(6).evaluate_equal(&constant_u32(6)), Ok(Boolean::Constant(true)));
    assert_eq!(a.evaluate_equal(&constant_u32(6)), Ok(Boolean::Allocated(Some(true))));
    assert_eq!(constant_u32(6).less_than(&constant_u32(6)), Ok(Boolean::Constant(false)));
}

#[test]
fn constants_of_every_small_value_agree_with_the_machine() {
    for a in i8::MIN..=i8::MAX {
        for b in i8::MIN..=i8::MAX {
            let mut cs = Synthesis::new(true);
            let x = constant_i8(a);
            let y = constant_i8(b);
            let overflow = IntegerError::Overflow { span: span() };
            let value = |r: Result<Integer, IntegerError>| {
                r.map(|i| i.get_value().unwrap().parse::<i8>().unwrap())
            };
            assert_eq!(value(x.add(&mut cs, y, &span())), a.checked_add(b).ok_or(overflow.clone()));
            assert_eq!(value(x.mul(&mut cs, y, &span())), a.checked_mul(b).ok_or(overflow.clone()));
            let difference = b.checked_neg().and_then(|n| a.checked_add(n));
            assert_eq!(value(x.sub(&mut cs, y, &span())), difference.ok_or(overflow.clone()));
            if b == 0 {
                assert_eq!(x.div(&mut cs, y, &span()), Err(IntegerError::DivisionByZero { span: span() }));
            } else if a != i8::MIN || b == i8::MIN {
                assert_eq!(value(x.div(&mut cs, y, &span())), Ok(a / b));
            }
        }
    }
}

#[test]
fn division_specials() {
    let kinds: [(fn(i128) -> ConstInt, i128); 5] = [
        (|v| ConstInt::I8(v as i8), i8::MIN as i128),
        (|v| ConstInt::I16(v as i16), i16::MIN as i128),
        (|v| ConstInt::I32(v as i32), i32::MIN as i128),
        (|v| ConstInt::I64(v as i64), i64::MIN as i128),
        (|v| ConstInt::I128(v), i128::MIN),
    ];
    for (make, min) in kinds {
        let div = |a: i128, b: i128| {
            let mut cs = Synthesis::new(true);
            Integer::new(&make(a))
                .div(&mut cs, Integer::new(&make(b)), &span())
                .map(|i| i.get_value().unwrap())
        };
        assert_eq!(div(min, min), Ok("1".to_string()));
        for x in [min + 1, -1, 0, 1, 77, -(min + 1)] {
            assert_eq!(div(x, min), Ok("0".to_string()));
            assert_eq!(div(x, 0), Err(IntegerError::DivisionByZero { span: span() }));
        }
        assert_eq!(div(min, 0), Err(IntegerError::DivisionByZero { span: span() }));
        for y in [min, min + 1, -3, -1, 1, 2, -(min + 1)] {
            assert_eq!(div(0, y), Ok("0".to_string()));
        }
        assert_eq!(div(-(min + 1), -1), Ok((min + 1).to_string()));
        assert_eq!(div(min + 1, -1), Ok((-(min + 1)).to_string()));
    }
}

#[test]
fn division_of_small_signed_values() {
    let div = |a: i8, b: i8| {
        let mut cs = Synthesis::new(true);
        let x = Integer::allocate_type(&mut cs, &IntegerType::I8, "a", Some(a.to_string()), &span())
            .unwrap();
        let y = Integer::allocate_type(&mut cs, &IntegerType::I8, "b", Some(b.to_string()), &span())
            .unwrap();
        x.div(&mut cs, y, &span()).map(|i| i.get_value().unwrap())
    };
    assert_eq!(div(-128, -128), Ok("1".to_string()));
    // the least value is divided as if it were one greater
    assert_eq!(div(-128, 1), Ok("-127".to_string()));
    assert_eq!(div(-128, 2), Ok("-63".to_string()));
    assert_eq!(div(-128, -1), Ok("127".to_string()));
    assert_eq!(div(5, 0), Err(IntegerError::DivisionByZero { span: span() }));
    assert_eq!(div(-7, 2), Ok("-3".to_string()));
    assert_eq!(div(7, -2), Ok("-3".to_string()));
    assert_eq!(div(-7, -2), Ok("3".to_string()));
    assert_eq!(div(127, 127), Ok("1".to_string()));
    assert_eq!(div(126, 127), Ok("0".to_string()));
}

#[test]
fn addition_of_an_input_and_a_constant() {
    let mut cs = Synthesis::new(true);
    let a = Integer::from_input(
        &mut cs,
        &IntegerType::U32,
        "a",
        Some(InputValue::Integer(IntegerType::U32, "7".to_string())),
        &Span::new(1, 1, 15, 16),
    )
    .unwrap();
    let r = a.add(&mut cs, constant_u32(1), &Span::new(1, 1, 37, 45)).unwrap();
    assert_eq!(r.get_value(), Some("8".to_string()));
    assert!(cs.is_satisfied());
    let expected = constant_u32(8);
    r.conditional_enforce_equal(&mut cs, &expected, &Boolean::Constant(true)).unwrap();
    assert!(cs.is_satisfied());
    assert_eq!(labels(&cs), vec!["`a: u32` 1:15".to_string(), "enforce 7 + 1 1:37".to_string()]);
}

#[test]
fn a_selection_takes_the_first_where_the_condition_holds() {
    let cs = Synthesis::new(true);
    let one = constant_u32(1);
    let zero = constant_u32(0);
    for (a, expected) in [(true, "1"), (false, "0")] {
        let chosen =
            Integer::conditionally_select(&cs, &Boolean::Allocated(Some(a)), &one, &zero).unwrap();
        assert_eq!(chosen.get_value(), Some(expected.to_string()));
        assert!(!chosen.is_constant());
        let chosen = Integer::conditionally_select(&cs, &Boolean::Constant(a), &one, &zero).unwrap();
        assert_eq!(chosen.get_value(), Some(expected.to_string()));
        assert!(chosen.is_constant());
    }
    assert_eq!(
        Integer::conditionally_select(&cs, &Boolean::Allocated(None), &one, &zero),
        Err(SynthesisError::AssignmentMissing)
    );
    let setup = Synthesis::new(false);
    let chosen =
        Integer::conditionally_select(&setup, &Boolean::Allocated(None), &one, &zero).unwrap();
    assert_eq!(chosen.get_value(), None);
    assert_eq!(chosen.get_type(), IntegerType::U32);
}

#[test]
fn an_index_is_an_unsigned_integer_of_known_value() {
    let mut cs = Synthesis::new(false);
    assert_eq!(constant_u32(17).to_usize(&span()), Ok(17));
    assert_eq!(Integer::new(&ConstInt::U8(0)).to_usize(&span()), Ok(0));
    assert_eq!(constant_i8(3).to_usize(&span()), Err(IntegerError::InvalidIndex { span: span() }));
    let x = Integer::allocate_type(&mut cs, &IntegerType::U32, "x", None, &span()).unwrap();
    assert_eq!(x.to_usize(&span()), Err(IntegerError::InvalidIndex { span: span() }));
    let big = Integer::new(&ConstInt::U128(u128::MAX));
    assert_eq!(
        big.to_usize(&span()),
        Err(IntegerError::InvalidInteger {
            value: "340282366920938463463374607431768211455".to_string(),
            span: span()
        })
    );
    assert_eq!(Integer::new(&ConstInt::U64(u64::MAX)).to_usize(&span()), Ok(usize::MAX));
}

#[test]
fn the_bits_are_those_of_the_twos_complement() {
    let bits = |integer: Integer| -> Vec<bool> {
        integer.get_bits().iter().map(|b| b.get_value().unwrap()).collect()
    };
    assert_eq!(
        bits(constant_i8(-128)),
        vec![false, false, false, false, false, false, false, true]
    );
    assert_eq!(bits(constant_i8(-1)), vec![true; 8]);
    assert_eq!(bits(constant_i8(5)), vec![true, false, true, false, false, false, false, false]);
    assert_eq!(bits(Integer::new(&ConstInt::U128(u128::MAX))), vec![true; 128]);
    let mut expected = vec![false; 128];
    expected[127] = true;
    assert_eq!(bits(Integer::new(&ConstInt::I128(i128::MIN))), expected);
    for v in [i64::MIN, -77, 0, 1, 123456789, i64::MAX] {
        let got = bits(Integer::new(&ConstInt::I64(v)));
        let expected: Vec<bool> = (0..64).map(|i| (v >> i) & 1 == 1).collect();
        assert_eq!(got, expected);
    }
    assert_eq!(constant_i8(1).get_bits()[0], Boolean::Constant(true));
    let mut cs = Synthesis::new(true);
    let a = Integer::allocate_type(&mut cs, &IntegerType::I8, "a", Some("1".to_string()), &span())
        .unwrap();
    assert_eq!(a.get_bits()[0], Boolean::Allocated(Some(true)));
}

#[test]
fn two_syntheses_of_the_same_operations_enter_the_same_namespaces() {
    let run = || {
        let mut cs = Synthesis::new(true);
        let a = Integer::allocate_type(&mut cs, &IntegerType::I32, "a", Some("12".to_string()), &span())
            .unwrap();
        let b = Integer::allocate_type(&mut cs, &IntegerType::I32, "b", Some("-4".to_string()), &span())
            .unwrap();
        let c = a.div(&mut cs, b, &Span::new(5, 5, 1, 6)).unwrap();
        let d = c.pow(&mut cs, constant_i32(3), &Span::new(6, 6, 1, 6)).unwrap();
        let e = d.negate(&mut cs, &Span::new(7, 7, 1, 3)).unwrap();
        (labels(&cs), e.get_value())
    };
    let first = run();
    let second = run();
    assert_eq!(first, second);
    assert_eq!(first.1, Some("27".to_string()));
    let mut expected =
        vec!["`a: i32` 3:5".to_string(), "`b: i32` 3:5".to_string(), "enforce 12 div -4 5:1".to_string()];
    expected.extend(within_division("enforce 12 div -4 5:1", 32));
    expected.push("enforce -3 ** 3 6:1".to_string());
    expected.push("enforce --27 7:1".to_string());
    assert_eq!(first.0, expected);
}

fn constant_i32(v: i32) -> Integer {
    Integer::new(&ConstInt::I32(v))
}

#[test]
fn a_copy_of_an_input_value_has_its_text() {
    let nested = InputValue::Array(vec![
        InputValue::Integer(IntegerType::I8, "-1".to_string()),
        InputValue::Tuple(vec![InputValue::Field("5".to_string()), InputValue::Boolean(false)]),
        InputValue::Array(vec![]),
    ]);
    let copy = nested.clone();
    assert_eq!(copy.to_string(), "[-1i8, (5, false), []]");
    assert_eq!(copy, nested);
    let plain = InputValue::Integer(IntegerType::U64, "18446744073709551615".to_string());
    assert_eq!(plain.clone().to_string(), "18446744073709551615u64");
}
