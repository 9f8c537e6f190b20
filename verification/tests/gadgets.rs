use leo_core::integer::Integer;
use leo_core::integer_type::ConstInt;
use leo_core::span::Span;
use leo_core::synthesis::Synthesis;
use snarkvm_gadgets::traits::utilities::alloc::AllocGadget;
use snarkvm_gadgets::traits::utilities::arithmetic::{Add, Div, Mul, Neg, Sub};
use snarkvm_gadgets::traits::utilities::int::{Int16, Int8};
use snarkvm_gadgets::traits::utilities::integer::Integer as Gadget;
use snarkvm_gadgets::traits::utilities::uint::{UInt, UInt8};
use snarkvm_r1cs::{ConstraintSystem, Fr, TestConstraintSystem};

fn span() -> Span {
    Span::new(1, 1, 1, 2)
}

fn value(r: Result<Integer, leo_core::errors::IntegerError>) -> Option<String> {
    r.ok().map(|i| i.get_value().unwrap())
}

const DIVISORS: [i8; 18] = [-128, -127, -65, -64, -63, -3, -2, -1, 0, 1, 2, 3, 7, 63, 64, 65, 126, 127];

#[test]
fn signed_division_agrees_with_the_gadget() {
    for a in i8::MIN..=i8::MAX {
        for b in DIVISORS {
            let mut outside = TestConstraintSystem::<Fr>::new();
            let gadget = Int8::constant(a)
                .div(outside.ns(|| "division"), &Int8::constant(b))
                .ok()
                .map(|r| r.value.unwrap().to_string());
            let mut cs = Synthesis::new(true);
            let ours = value(Integer::new(&ConstInt::I8(a)).div(
                &mut cs,
                Integer::new(&ConstInt::I8(b)),
                &span(),
            ));
            assert_eq!(ours, gadget, "{} / {}", a, b);
        }
    }
}

#[test]
fn signed_division_of_inputs_agrees_with_the_gadget() {
    for (a, b) in [(-128i16, 1i16), (-32768, 1), (-32768, -32768), (-32768, 2), (100, -7), (-100, 7), (0, 5), (32767, -1)] {
        let mut outside = TestConstraintSystem::<Fr>::new();
        let x = Int16::alloc(outside.ns(|| "a"), || Ok(a)).unwrap();
        let y = Int16::alloc(outside.ns(|| "b"), || Ok(b)).unwrap();
        let gadget = x.div(outside.ns(|| "division"), &y).unwrap();
        assert!(outside.is_satisfied());
        let mut cs = Synthesis::new(true);
        let ours = value(Integer::new(&ConstInt::I16(a)).div(
            &mut cs,
            Integer::new(&ConstInt::I16(b)),
            &span(),
        ));
        assert_eq!(ours, Some(gadget.value.unwrap().to_string()), "{} / {}", a, b);
    }
}

#[test]
fn signed_arithmetic_agrees_with_the_gadget() {
    for a in i8::MIN..=i8::MAX {
        for b in DIVISORS {
            let mut outside = TestConstraintSystem::<Fr>::new();
            let x = Int8::constant(a);
            let y = Int8::constant(b);
            let text = |r: Option<Int8>| r.map(|r| r.value.unwrap().to_string());
            let sum = text(x.add(outside.ns(|| "add"), &y).ok());
            let difference = text(x.sub(outside.ns(|| "sub"), &y).ok());
            let product = text(x.mul(outside.ns(|| "mul"), &y).ok());
            let negative = text(x.neg(outside.ns(|| "neg")).ok());

            let mut cs = Synthesis::new(true);
            let p = Integer::new(&ConstInt::I8(a));
            let q = Integer::new(&ConstInt::I8(b));
            assert_eq!(value(p.add(&mut cs, q, &span())), sum, "{} + {}", a, b);
            assert_eq!(value(p.sub(&mut cs, q, &span())), difference, "{} - {}", a, b);
            assert_eq!(value(p.mul(&mut cs, q, &span())), product, "{} * {}", a, b);
            assert_eq!(value(p.negate(&mut cs, &span())), negative, "-{}", a);
        }
    }
}

#[test]
fn unsigned_arithmetic_agrees_with_the_gadget_where_nothing_overflows() {
    for a in [0u8, 1, 2, 3, 15, 16, 100, 127, 128, 200, 254, 255] {
        for b in [0u8, 1, 2, 5, 16, 17, 100, 127, 128, 255] {
            let mut outside = TestConstraintSystem::<Fr>::new();
            let x = UInt8::constant(a);
            let y = UInt8::constant(b);
            let mut cs = Synthesis::new(true);
            let p = Integer::new(&ConstInt::U8(a));
            let q = Integer::new(&ConstInt::U8(b));
            if let Some(sum) = a.checked_add(b) {
                let gadget = x.add(outside.ns(|| "add"), &y).unwrap();
                assert_eq!(gadget.value, Some(sum));
                assert_eq!(value(p.add(&mut cs, q, &span())), Some(sum.to_string()));
            }
            if let Some(product) = a.checked_mul(b) {
                let gadget = x.mul(outside.ns(|| "mul"), &y).unwrap();
                assert_eq!(gadget.value, Some(product));
                assert_eq!(value(p.mul(&mut cs, q, &span())), Some(product.to_string()));
            }
            if b != 0 {
                let gadget = x.div(outside.ns(|| "div"), &y).unwrap();
                assert_eq!(gadget.value, Some(a / b));
                assert_eq!(value(p.div(&mut cs, q, &span())), Some((a / b).to_string()));
            } else {
                assert!(x.div(outside.ns(|| "div"), &y).is_err());
                assert!(p.div(&mut cs, q, &span()).is_err());
            }
        }
    }
}

#[test]
fn the_bits_agree_with_the_gadget() {
    for a in i8::MIN..=i8::MAX {
        let gadget: Vec<Option<bool>> =
            Int8::constant(a).to_bits_le().iter().map(|b| b.get_value()).collect();
        let ours: Vec<Option<bool>> =
            Integer::new(&ConstInt::I8(a)).get_bits().iter().map(|b| b.get_value()).collect();
        assert_eq!(ours, gadget);
    }
}
