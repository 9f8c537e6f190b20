//! The integer value domain: a value of one of the ten kinds, constant or allocated.
use crate::arithmetic::{
    add_numbers, bit_of, bits_of, checked, difference, divide_numbers, division_namespaces,
    division_purposes, exponent, multiply_numbers, negate_number, Number, power_numbers, quotient,
    subtract_numbers,
};
use crate::errors::{IntegerError, IntegerErrorView, SynthesisError};
use crate::input::{input_text, InputValue};
use crate::integer_type::{ConstInt, IntegerType};
use crate::span::Span;
use crate::synthesis::{label_texts, Synthesis};
use crate::text::{
    decimal_digits, decimal_text, Digits, parse_decimal, push_decimal, push_signed_decimal,
    read_digits,
};
use vstd::arithmetic::power::pow;
use vstd::prelude::*;
use vstd::string::*;

verus! {

/// What an `Integer` is: its kind, its value where that is known, and whether it
/// is a compile-time constant.
pub struct IntegerView {
    pub kind: IntegerType,
    pub value: Option<int>,
    pub constant: bool,
}

impl IntegerView {
    /// A value is of its kind, and a constant has a value.
    pub open spec fn wf(self) -> bool {
        &&& self.constant ==> self.value is Some
        &&& self.value matches Some(v) ==> self.kind.holds(v)
    }
}

/// An integer of the language during synthesis: a compile-time constant, or an
/// allocated variable whose value may or may not be known.
#[derive(Clone, Copy, Debug, PartialEq, Eq)]
pub struct Integer {
    kind: IntegerType,
    number: Option<Number>,
    constant: bool,
}

/// The text that `s` must be to denote a value of `kind`, and that value.
pub open spec fn parse_integer(s: Seq<char>, kind: IntegerType) -> Option<int> {
    match parse_decimal(s, kind.signed()) {
        Some(v) => if kind.holds(v) {
            Some(v)
        } else {
            None
        },
        None => None,
    }
}

/// The namespace under which an input named `name` of `kind` is allocated.
pub open spec fn allocation_label(name: Seq<char>, kind: IntegerType, span: Span) -> Seq<char> {
    "`"@ + name + ": "@ + kind.name() + "` "@ + decimal_digits(span.line_start as nat) + ":"@
        + decimal_digits(span.col_start as nat)
}

/// How a missing input named `name` of `kind` is called in the failure.
pub open spec fn input_title(name: Seq<char>, kind: IntegerType) -> Seq<char> {
    name + ": "@ + kind.name()
}

/// The five arithmetic operations on two integers.
#[derive(Clone, Copy, Debug, PartialEq, Eq, Structural)]
pub enum ArithmeticOperation {
    Add,
    Sub,
    Mul,
    Div,
    Pow,
}

impl ArithmeticOperation {
    /// The sign that stands for the operation in labels and failures. Division
    /// is written `div`: labels are ASCII, and a slash parts namespaces.
    pub open spec fn symbol(self) -> Seq<char> {
        match self {
            ArithmeticOperation::Add => "+"@,
            ArithmeticOperation::Sub => "-"@,
            ArithmeticOperation::Mul => "*"@,
            ArithmeticOperation::Div => "div"@,
            ArithmeticOperation::Pow => "**"@,
        }
    }

    /// The sign that stands for the operation in labels and failures.
    pub fn as_str(&self) -> (r: &'static str)
        ensures
            r@ == self.symbol(),
    {
        match self {
            ArithmeticOperation::Add => "+",
            ArithmeticOperation::Sub => "-",
            ArithmeticOperation::Mul => "*",
            ArithmeticOperation::Div => "div",
            ArithmeticOperation::Pow => "**",
        }
    }
}

/// A boolean of the language during synthesis: a compile-time constant, or an
/// allocated variable whose value may or may not be known.
#[derive(Clone, Copy, Debug, PartialEq, Eq, Structural)]
pub enum Boolean {
    Constant(bool),
    Allocated(Option<bool>),
}

impl Boolean {
    /// The value, where it is known.
    pub open spec fn value(self) -> Option<bool> {
        match self {
            Boolean::Constant(b) => Some(b),
            Boolean::Allocated(v) => v,
        }
    }

    /// The value, where it is known.
    pub fn get_value(&self) -> (r: Option<bool>)
        ensures
            r == self.value(),
    {
        match self {
            Boolean::Constant(b) => Some(*b),
            Boolean::Allocated(v) => *v,
        }
    }
}

/// How an integer is written in a label: its value in decimal, or for an
/// unknown value `[input]` and the name of its kind.
pub open spec fn printable(i: IntegerView) -> Seq<char> {
    match i.value {
        Some(v) => decimal_text(v),
        None => "[input]"@ + i.kind.name(),
    }
}

/// The place of a span as labels give it: the line and the column it starts at.
pub open spec fn place(span: Span) -> Seq<char> {
    decimal_digits(span.line_start as nat) + ":"@ + decimal_digits(span.col_start as nat)
}

/// The namespace under which a binary operation emits its constraints.
pub open spec fn binary_label(
    a: IntegerView,
    operation: ArithmeticOperation,
    b: IntegerView,
    span: Span,
) -> Seq<char> {
    "enforce "@ + printable(a) + " "@ + operation.symbol() + " "@ + printable(b) + " "@ + place(
        span,
    )
}

/// The namespaces `purposes` within the namespace `outer`: each is `outer`, a
/// slash, and the purpose.
pub open spec fn nested(outer: Seq<char>, purposes: Seq<Seq<char>>) -> Seq<Seq<char>> {
    Seq::new(purposes.len(), |i: int| outer + "/"@ + purposes[i])
}

/// True if the operation is a signed division that goes through its rounds:
/// the operands are of one signed kind and the divisor is not known to be zero.
pub open spec fn divides(a: IntegerView, operation: ArithmeticOperation, b: IntegerView) -> bool {
    operation == ArithmeticOperation::Div && a.kind == b.kind && a.kind.signed() && b.value
        != Some(0int)
}

/// The namespaces entered after a binary operation. Where the operands are of
/// one kind the namespace of the operation is entered, and within it a signed
/// division enters a namespace for each of its intermediate values.
pub open spec fn entered(
    labels: Seq<Seq<char>>,
    a: IntegerView,
    operation: ArithmeticOperation,
    b: IntegerView,
    span: Span,
) -> Seq<Seq<char>> {
    if a.kind != b.kind {
        labels
    } else if divides(a, operation, b) {
        labels.push(binary_label(a, operation, b, span)) + nested(
            binary_label(a, operation, b, span),
            division_purposes(a.kind.width()),
        )
    } else {
        labels.push(binary_label(a, operation, b, span))
    }
}

/// The namespace under which a negation emits its constraints.
pub open spec fn negation_label(a: IntegerView, span: Span) -> Seq<char> {
    "enforce -"@ + printable(a) + " "@ + place(span)
}

/// The number that an operation other than division gives for known operands,
/// where their kind holds it.
pub open spec fn exact(operation: ArithmeticOperation, kind: IntegerType, x: int, y: int) -> Option<
    int,
> {
    match operation {
        ArithmeticOperation::Add => checked(kind, x + y),
        ArithmeticOperation::Sub => difference(kind, x, y),
        ArithmeticOperation::Mul => checked(kind, x * y),
        ArithmeticOperation::Div => Some(quotient(kind, x, y)),
        ArithmeticOperation::Pow => checked(kind, pow(x, exponent(kind, y))),
    }
}

/// What a binary operation gives. Operands of different kinds are a failure of
/// the operation. A division by a divisor known to be zero fails. Where a
/// value is unknown so is the result. Otherwise the result is exact, or the
/// operation overflows. The result is a constant where both operands are.
pub open spec fn arithmetic(
    operation: ArithmeticOperation,
    a: IntegerView,
    b: IntegerView,
    span: Span,
) -> Result<IntegerView, IntegerErrorView> {
    if a.kind != b.kind {
        Err(IntegerErrorView::BinaryOperation { operation: operation.symbol(), span })
    } else if operation == ArithmeticOperation::Div && b.value == Some(0int) {
        Err(IntegerErrorView::DivisionByZero { span })
    } else {
        match (a.value, b.value) {
            (Some(x), Some(y)) => match exact(operation, a.kind, x, y) {
                Some(v) => Ok(
                    IntegerView { kind: a.kind, value: Some(
                        v,
                    ), constant: a.constant && b.constant },
                ),
                None => Err(IntegerErrorView::Overflow { span }),
            },
            _ => Ok(IntegerView { kind: a.kind, value: None, constant: false }),
        }
    }
}

/// What a negation gives. An unsigned operand cannot be negated. The negative
/// of the least value overflows.
pub open spec fn negation(a: IntegerView, span: Span) -> Result<IntegerView, IntegerErrorView> {
    if !a.kind.signed() {
        Err(IntegerErrorView::NegateOperation { span })
    } else {
        match a.value {
            Some(x) => match checked(a.kind, -x) {
                Some(v) => Ok(IntegerView { kind: a.kind, value: Some(v), constant: a.constant }),
                None => Err(IntegerErrorView::Overflow { span }),
            },
            None => Ok(IntegerView { kind: a.kind, value: None, constant: false }),
        }
    }
}

/// What a comparison gives: a failure for operands of different kinds, else
/// the truth of `relation` where both values are known; a constant where both
/// operands are.
pub open spec fn comparison(a: IntegerView, b: IntegerView, relation: spec_fn(int, int) -> bool)
    -> Result<Boolean, SynthesisError> {
    if a.kind != b.kind {
        Err(SynthesisError::Unsatisfiable)
    } else {
        match (a.value, b.value) {
            (Some(x), Some(y)) => if a.constant && b.constant {
                Ok(Boolean::Constant(relation(x, y)))
            } else {
                Ok(Boolean::Allocated(Some(relation(x, y))))
            },
            _ => Ok(Boolean::Allocated(None)),
        }
    }
}

/// What a conditional selection gives. Operands of different kinds cannot be
/// selected from. A constant condition gives one of the operands as it is.
/// Otherwise the result is allocated, with the value of the chosen operand
/// where the condition and that value are known; a result without a value is
/// missing where the synthesis needs values.
pub open spec fn selection(witnessed: bool, cond: Boolean, first: IntegerView, second: IntegerView)
    -> Result<IntegerView, SynthesisError> {
    if first.kind != second.kind {
        Err(SynthesisError::Unsatisfiable)
    } else {
        match cond {
            Boolean::Constant(c) => Ok(
                if c {
                    first
                } else {
                    second
                },
            ),
            Boolean::Allocated(c) => {
                let value = match c {
                    Some(c) => if c {
                        first.value
                    } else {
                        second.value
                    },
                    None => None,
                };
                if value is None && witnessed {
                    Err(SynthesisError::AssignmentMissing)
                } else {
                    Ok(IntegerView { kind: first.kind, value, constant: false })
                }
            },
        }
    }
}

/// The characters of an optional text.
pub open spec fn text_of(option: Option<String>) -> Option<Seq<char>> {
    match option {
        Some(text) => Some(text@),
        None => None,
    }
}

/// What an operation gave: the integer or the failure, each by its view.
pub open spec fn outcome(r: Result<Integer, IntegerError>) -> Result<
    IntegerView,
    IntegerErrorView,
> {
    match r {
        Ok(i) => Ok(i@),
        Err(e) => Err(e@),
    }
}

/// What allocating an input gives. A text that is no value of the kind is an
/// invalid integer. An input without a value is missing where the synthesis
/// needs values, and otherwise allocated with an unknown value.
pub open spec fn allocation(
    witnessed: bool,
    kind: IntegerType,
    name: Seq<char>,
    option: Option<Seq<char>>,
    span: Span,
) -> Result<IntegerView, IntegerErrorView> {
    match option {
        Some(text) => match parse_integer(text, kind) {
            Some(v) => Ok(IntegerView { kind, value: Some(v), constant: false }),
            None => Err(IntegerErrorView::InvalidInteger { value: text, span }),
        },
        None => if witnessed {
            Err(IntegerErrorView::MissingInteger { name: input_title(name, kind), span })
        } else {
            Ok(IntegerView { kind, value: None, constant: false })
        },
    }
}

/// The text that an input gives for an integer of `kind`: the number of a
/// value tagged as an integer of that kind, nothing where no value is given.
/// Any other value is an invalid integer.
pub open spec fn integer_input(kind: IntegerType, input: Option<InputValue>, span: Span) -> Result<
    Option<Seq<char>>,
    IntegerErrorView,
> {
    match input {
        None => Ok(None),
        Some(InputValue::Integer(tag, number)) => if tag == kind {
            Ok(Some(number@))
        } else {
            Err(
                IntegerErrorView::InvalidInteger {
                    value: input_text(InputValue::Integer(tag, number)),
                    span,
                },
            )
        },
        Some(other) => Err(IntegerErrorView::InvalidInteger { value: input_text(other), span }),
    }
}

impl View for Integer {
    type V = IntegerView;

    closed spec fn view(&self) -> IntegerView {
        IntegerView {
            kind: self.kind,
            value: match self.number {
                Some(n) => Some(n.as_int()),
                None => None,
            },
            constant: self.constant,
        }
    }
}

impl Integer {
    #[verifier::type_invariant]
    spec fn inv(self) -> bool {
        match self.number {
            None => !self.constant,
            Some(n) => n.of(self.kind),
        }
    }

    /// The integer that holds the constant `value`.
    pub fn new(value: &ConstInt) -> (r: Integer)
        ensures
            r@ == (IntegerView { kind: value.kind(), value: Some(value.number()), constant: true }),
    {
        match *value {
            ConstInt::U8(v) => Integer {
                kind: IntegerType::U8,
                number: Some(Number::Unsigned(v as u128)),
                constant: true,
            },
            ConstInt::U16(v) => Integer {
                kind: IntegerType::U16,
                number: Some(Number::Unsigned(v as u128)),
                constant: true,
            },
            ConstInt::U32(v) => Integer {
                kind: IntegerType::U32,
                number: Some(Number::Unsigned(v as u128)),
                constant: true,
            },
            ConstInt::U64(v) => Integer {
                kind: IntegerType::U64,
                number: Some(Number::Unsigned(v as u128)),
                constant: true,
            },
            ConstInt::U128(v) => Integer {
                kind: IntegerType::U128,
                number: Some(Number::Unsigned(v)),
                constant: true,
            },
            ConstInt::I8(v) => Integer {
                kind: IntegerType::I8,
                number: Some(Number::Signed(v as i128)),
                constant: true,
            },
            ConstInt::I16(v) => Integer {
                kind: IntegerType::I16,
                number: Some(Number::Signed(v as i128)),
                constant: true,
            },
            ConstInt::I32(v) => Integer {
                kind: IntegerType::I32,
                number: Some(Number::Signed(v as i128)),
                constant: true,
            },
            ConstInt::I64(v) => Integer {
                kind: IntegerType::I64,
                number: Some(Number::Signed(v as i128)),
                constant: true,
            },
            ConstInt::I128(v) => Integer {
                kind: IntegerType::I128,
                number: Some(Number::Signed(v)),
                constant: true,
            },
        }
    }

    /// The kind of this integer.
    pub fn get_type(&self) -> (r: IntegerType)
        ensures
            r == self@.kind,
    {
        self.kind
    }

    /// True if this integer is a compile-time constant.
    pub fn is_constant(&self) -> (r: bool)
        ensures
            r == self@.constant,
    {
        self.constant
    }

    /// The decimal text of the value, where the value is known.
    pub fn get_value(&self) -> (r: Option<String>)
        ensures
            match self@.value {
                Some(v) => r matches Some(s) && s@ == decimal_text(v),
                None => r is None,
            },
    {
        match self.number {
            None => None,
            Some(Number::Unsigned(v)) => {
                let mut out = String::new();
                push_decimal(&mut out, v);
                assert(out@ =~= decimal_text(v as int));
                Some(out)
            },
            Some(Number::Signed(v)) => {
                let mut out = String::new();
                push_signed_decimal(&mut out, v);
                assert(out@ =~= decimal_text(v as int));
                Some(out)
            },
        }
    }

    /// The value as an index. An integer whose value is unknown, or whose kind is
    /// signed, is no index; a value above `usize::MAX` is an invalid integer.
    pub fn to_usize(&self, span: &Span) -> (r: Result<usize, IntegerError>)
        ensures
            match r {
                Ok(index) => !self@.kind.signed() && self@.value == Some(index as int),
                Err(e) => if self@.kind.signed() || self@.value is None {
                    e@ == (IntegerErrorView::InvalidIndex { span: *span })
                } else {
                    self@.value->0 > usize::MAX && e@ == (IntegerErrorView::InvalidInteger {
                        value: decimal_text(self@.value->0),
                        span: *span,
                    })
                },
            },
    {
        proof {
            use_type_invariant(self);
        }
        match self.number {
            Some(Number::Unsigned(v)) => {
                if v <= usize::MAX as u128 {
                    Ok(v as usize)
                } else {
                    let mut out = String::new();
                    push_decimal(&mut out, v);
                    assert(out@ =~= decimal_text(v as int));
                    Err(IntegerError::InvalidInteger { value: out, span: *span })
                }
            },
            _ => Err(IntegerError::InvalidIndex { span: *span }),
        }
    }

    /// Reads `text` as a value of `kind`.
    fn parse(text: &str, kind: IntegerType) -> (r: Option<Number>)
        ensures
            match r {
                Some(n) => parse_integer(text@, kind) == Some(n.as_int()) && (n is Signed
                    <==> kind.signed()),
                None => parse_integer(text@, kind) is None,
            },
    {
        let len = text.unicode_len();
        if len == 0 {
            return None;
        }
        let first = text.get_char(0);
        let signed = kind.is_signed();
        let negative = first == '-' && signed;
        let start: usize = if first == '+' || negative {
            1
        } else {
            0
        };
        if start == len {
            return None;
        }
        proof {
            if start == 0 {
                assert(text@.subrange(0, len as int) =~= text@);
            }
        }
        match read_digits(text, start) {
            Digits::Malformed => None,
            Digits::TooLarge => None,
            Digits::Value(magnitude) => {
                if !signed {
                    if magnitude <= kind.max_value() {
                        Some(Number::Unsigned(magnitude))
                    } else {
                        None
                    }
                } else if negative {
                    // the least value of a signed kind is the negative of one more than its greatest
                    if magnitude <= kind.max_value() {
                        Some(Number::Signed(-(magnitude as i128)))
                    } else if magnitude == kind.max_value() + 1 {
                        Some(Number::Signed(kind.min_value()))
                    } else {
                        None
                    }
                } else {
                    if magnitude <= kind.max_value() {
                        Some(Number::Signed(magnitude as i128))
                    } else {
                        None
                    }
                }
            },
        }
    }

    /// Allocates an input named `name` of kind `integer_type` from its decimal
    /// text. A text that is no value of the kind is an invalid integer, and
    /// nothing is allocated. Otherwise the allocation's namespace is entered; an
    /// input without a value is missing where the synthesis needs values.
    pub fn allocate_type(
        cs: &mut Synthesis,
        integer_type: &IntegerType,
        name: &str,
        option: Option<String>,
        span: &Span,
    ) -> (r: Result<Integer, IntegerError>)
        ensures
            final(cs).witnessed() == old(cs).witnessed(),
            final(cs).satisfied() == old(cs).satisfied(),
            outcome(r) == allocation(
                old(cs).witnessed(),
                *integer_type,
                name@,
                text_of(option),
                *span,
            ),
            final(cs).labels() == if allocation(
                old(cs).witnessed(),
                *integer_type,
                name@,
                text_of(option),
                *span,
            ) is Err && option is Some {
                old(cs).labels()
            } else {
                old(cs).labels().push(allocation_label(name@, *integer_type, *span))
            },
    {
        let kind = *integer_type;
        let number = match option {
            Some(text) => match Integer::parse(text.as_str(), kind) {
                Some(n) => Some(n),
                None => {
                    return Err(IntegerError::InvalidInteger { value: text, span: *span });
                },
            },
            None => None,
        };
        let mut label = String::from_str("`");
        label.append(name);
        label.append(": ");
        label.append(kind.as_str());
        label.append("` ");
        push_decimal(&mut label, span.line_start as u128);
        label.append(":");
        push_decimal(&mut label, span.col_start as u128);
        cs.enter(label);
        match number {
            Some(n) => Ok(Integer { kind, number: Some(n), constant: false }),
            None => {
                if cs.is_witnessed() {
                    let mut title = String::from_str(name);
                    title.append(": ");
                    title.append(kind.as_str());
                    Err(IntegerError::MissingInteger { name: title, span: *span })
                } else {
                    Ok(Integer { kind, number: None, constant: false })
                }
            },
        }
    }

    /// Allocates an input named `name` of kind `integer_type` from the value
    /// given for it, which must be tagged as an integer of that kind.
    pub fn from_input(
        cs: &mut Synthesis,
        integer_type: &IntegerType,
        name: &str,
        integer_value: Option<InputValue>,
        span: &Span,
    ) -> (r: Result<Integer, IntegerError>)
        ensures
            final(cs).witnessed() == old(cs).witnessed(),
            final(cs).satisfied() == old(cs).satisfied(),
            match integer_input(*integer_type, integer_value, *span) {
                Err(e) => outcome(r) == Err::<IntegerView, IntegerErrorView>(e)
                    && final(cs).labels() == old(cs).labels(),
                Ok(text) => outcome(r) == allocation(
                    old(cs).witnessed(),
                    *integer_type,
                    name@,
                    text,
                    *span,
                ) && final(cs).labels() == if allocation(
                    old(cs).witnessed(),
                    *integer_type,
                    name@,
                    text,
                    *span,
                ) is Err && text is Some {
                    old(cs).labels()
                } else {
                    old(cs).labels().push(allocation_label(name@, *integer_type, *span))
                },
            },
    {
        let option = match integer_value {
            None => None,
            Some(input) => {
                let text = input.to_string();
                match input {
                    InputValue::Integer(tag, number) => {
                        if tag == *integer_type {
                            Some(number)
                        } else {
                            return Err(IntegerError::InvalidInteger { value: text, span: *span });
                        }
                    },
                    _ => {
                        return Err(IntegerError::InvalidInteger { value: text, span: *span });
                    },
                }
            },
        };
        Integer::allocate_type(cs, integer_type, name, option, span)
    }

    /// The bits of this integer, lowest first and as many as its kind is wide:
    /// constants for a constant, and otherwise allocated bits, whose values are
    /// those of the two's complement of the value where that is known.
    pub fn get_bits(&self) -> (r: Vec<Boolean>)
        ensures
            r.len() == self@.kind.width(),
            forall|i: int|
                0 <= i < r.len() ==> r[i] == match self@.value {
                    Some(v) => if self@.constant {
                        Boolean::Constant(bit_of(v, i as nat))
                    } else {
                        Boolean::Allocated(Some(bit_of(v, i as nat)))
                    },
                    None => Boolean::Allocated(None),
                },
    {
        proof {
            use_type_invariant(self);
        }
        let mut out: Vec<Boolean> = Vec::new();
        match self.number {
            Some(n) => {
                let bits = bits_of(&self.kind, n);
                let mut i: usize = 0;
                while i < bits.len()
                    invariant
                        i <= bits.len(),
                        out.len() == i,
                        forall|j: int|
                            0 <= j < i ==> out[j] == if self.constant {
                                Boolean::Constant(bits[j])
                            } else {
                                Boolean::Allocated(Some(bits[j]))
                            },
                    decreases bits.len() - i,
                {
                    if self.constant {
                        out.push(Boolean::Constant(bits[i]));
                    } else {
                        out.push(Boolean::Allocated(Some(bits[i])));
                    }
                    i = i + 1;
                }
            },
            None => {
                let width = self.kind.bits();
                let mut i: u32 = 0;
                while i < width
                    invariant
                        i <= width,
                        out.len() == i,
                        forall|j: int| 0 <= j < i ==> out[j] == Boolean::Allocated(None),
                    decreases width - i,
                {
                    out.push(Boolean::Allocated(None));
                    i = i + 1;
                }
            },
        }
        out
    }

    /// The integer as labels write it.
    pub fn to_string(&self) -> (r: String)
        ensures
            r@ == printable(self@),
    {
        match self.get_value() {
            Some(text) => text,
            None => {
                let mut out = String::from_str("[input]");
                out.append(self.kind.as_str());
                out
            },
        }
    }

    /// Appends the line and column at which `span` starts.
    fn push_place(out: &mut String, span: &Span)
        ensures
            final(out)@ == old(out)@ + place(*span),
    {
        let ghost before = out@;
        push_decimal(out, span.line_start as u128);
        out.append(":");
        push_decimal(out, span.col_start as u128);
        assert(out@ =~= before + place(*span));
    }

    /// Enters each of `purposes` within the namespace `outer`.
    fn enter_within(cs: &mut Synthesis, outer: &String, purposes: &Vec<String>)
        ensures
            final(cs).witnessed() == old(cs).witnessed(),
            final(cs).satisfied() == old(cs).satisfied(),
            final(cs).labels() == old(cs).labels() + nested(outer@, label_texts(purposes@)),
    {
        let ghost all = nested(outer@, label_texts(purposes@));
        let mut i: usize = 0;
        assert(cs.labels() =~= old(cs).labels() + all.take(0));
        while i < purposes.len()
            invariant
                i <= purposes.len(),
                all == nested(outer@, label_texts(purposes@)),
                cs.witnessed() == old(cs).witnessed(),
                cs.satisfied() == old(cs).satisfied(),
                cs.labels() == old(cs).labels() + all.take(i as int),
            decreases purposes.len() - i,
        {
            let mut path = outer.clone();
            path.append("/");
            path.append(purposes[i].as_str());
            assert(path@ == all[i as int]);
            cs.enter(path);
            assert(old(cs).labels() + all.take(i as int).push(all[i as int]) =~= old(cs).labels()
                + all.take(i + 1));
            assert((old(cs).labels() + all.take(i as int)).push(all[i as int])
                =~= old(cs).labels() + all.take(i as int).push(all[i as int]));
            i = i + 1;
        }
        assert(all.take(i as int) =~= all);
    }

    /// Performs `operation` on `self` and `other`. Where the operands are of one
    /// kind the namespace of the operation is entered, and within it those of a
    /// signed division.
    fn binary(
        self,
        cs: &mut Synthesis,
        other: Integer,
        span: &Span,
        operation: ArithmeticOperation,
    ) -> (r: Result<Integer, IntegerError>)
        ensures
            outcome(r) == arithmetic(operation, self@, other@, *span),
            final(cs).witnessed() == old(cs).witnessed(),
            final(cs).satisfied() == old(cs).satisfied(),
            final(cs).labels() == entered(old(cs).labels(), self@, operation, other@, *span),
    {
        proof {
            use_type_invariant(&self);
            use_type_invariant(&other);
        }
        if self.kind != other.kind {
            return Err(
                IntegerError::BinaryOperation {
                    operation: String::from_str(operation.as_str()),
                    span: *span,
                },
            );
        }
        let mut label = String::from_str("enforce ");
        label.append(self.to_string().as_str());
        label.append(" ");
        label.append(operation.as_str());
        label.append(" ");
        label.append(other.to_string().as_str());
        label.append(" ");
        Integer::push_place(&mut label, span);
        assert(label@ =~= binary_label(self@, operation, other@, *span));
        let outer = label.clone();
        cs.enter(label);
        let kind = self.kind;
        let constant = self.constant && other.constant;
        let zero = match other.number {
            Some(Number::Unsigned(v)) => v == 0,
            Some(Number::Signed(v)) => v == 0,
            None => false,
        };
        let rounds = match operation {
            ArithmeticOperation::Div => kind.is_signed() && !zero,
            _ => false,
        };
        if rounds {
            Integer::enter_within(cs, &outer, &division_namespaces(kind.bits()));
        }
        match (self.number, other.number) {
            (Some(x), Some(y)) => {
                let number = match operation {
                    ArithmeticOperation::Add => add_numbers(&kind, x, y),
                    ArithmeticOperation::Sub => subtract_numbers(&kind, x, y),
                    ArithmeticOperation::Mul => multiply_numbers(&kind, x, y),
                    ArithmeticOperation::Pow => power_numbers(&kind, x, y),
                    ArithmeticOperation::Div => {
                        let zero = match y {
                            Number::Unsigned(v) => v == 0,
                            Number::Signed(v) => v == 0,
                        };
                        if zero {
                            return Err(IntegerError::DivisionByZero { span: *span });
                        }
                        Some(divide_numbers(&kind, x, y))
                    },
                };
                match number {
                    Some(n) => Ok(Integer { kind, number: Some(n), constant }),
                    None => Err(IntegerError::Overflow { span: *span }),
                }
            },
            (_, Some(y)) => {
                let zero = match y {
                    Number::Unsigned(v) => v == 0,
                    Number::Signed(v) => v == 0,
                };
                match operation {
                    ArithmeticOperation::Div => if zero {
                        Err(IntegerError::DivisionByZero { span: *span })
                    } else {
                        Ok(Integer { kind, number: None, constant: false })
                    },
                    _ => Ok(Integer { kind, number: None, constant: false }),
                }
            },
            _ => Ok(Integer { kind, number: None, constant: false }),
        }
    }

    /// The negative of `self`, under the namespace of the negation.
    pub fn negate(self, cs: &mut Synthesis, span: &Span) -> (r: Result<Integer, IntegerError>)
        ensures
            outcome(r) == negation(self@, *span),
            final(cs).witnessed() == old(cs).witnessed(),
            final(cs).satisfied() == old(cs).satisfied(),
            final(cs).labels() == if self@.kind.signed() {
                old(cs).labels().push(negation_label(self@, *span))
            } else {
                old(cs).labels()
            },
    {
        proof {
            use_type_invariant(&self);
        }
        if !self.kind.is_signed() {
            return Err(IntegerError::NegateOperation { span: *span });
        }
        let mut label = String::from_str("enforce -");
        label.append(self.to_string().as_str());
        label.append(" ");
        Integer::push_place(&mut label, span);
        assert(label@ =~= negation_label(self@, *span));
        cs.enter(label);
        let kind = self.kind;
        match self.number {
            Some(x) => match negate_number(&kind, x) {
                Some(n) => Ok(Integer { kind, number: Some(n), constant: self.constant }),
                None => Err(IntegerError::Overflow { span: *span }),
            },
            None => Ok(Integer { kind, number: None, constant: false }),
        }
    }

    /// The sum of `self` and `other`, under the namespace of the addition.
    pub fn add(self, cs: &mut Synthesis, other: Integer, span: &Span) -> (r: Result<
        Integer,
        IntegerError,
    >)
        ensures
            outcome(r) == arithmetic(ArithmeticOperation::Add, self@, other@, *span),
            final(cs).witnessed() == old(cs).witnessed(),
            final(cs).satisfied() == old(cs).satisfied(),
            final(cs).labels() ==
                entered(old(cs).labels(), self@, ArithmeticOperation::Add, other@, *span),
    {
        self.binary(cs, other, span, ArithmeticOperation::Add)
    }

    /// The difference of `self` and `other`, under the namespace of the subtraction.
    pub fn sub(self, cs: &mut Synthesis, other: Integer, span: &Span) -> (r: Result<
        Integer,
        IntegerError,
    >)
        ensures
            outcome(r) == arithmetic(ArithmeticOperation::Sub, self@, other@, *span),
            final(cs).witnessed() == old(cs).witnessed(),
            final(cs).satisfied() == old(cs).satisfied(),
            final(cs).labels() ==
                entered(old(cs).labels(), self@, ArithmeticOperation::Sub, other@, *span),
    {
        self.binary(cs, other, span, ArithmeticOperation::Sub)
    }

    /// The product of `self` and `other`, under the namespace of the multiplication.
    pub fn mul(self, cs: &mut Synthesis, other: Integer, span: &Span) -> (r: Result<
        Integer,
        IntegerError,
    >)
        ensures
            outcome(r) == arithmetic(ArithmeticOperation::Mul, self@, other@, *span),
            final(cs).witnessed() == old(cs).witnessed(),
            final(cs).satisfied() == old(cs).satisfied(),
            final(cs).labels() ==
                entered(old(cs).labels(), self@, ArithmeticOperation::Mul, other@, *span),
    {
        self.binary(cs, other, span, ArithmeticOperation::Mul)
    }

    /// The quotient of `self` by `other`, under the namespace of the division.
    pub fn div(self, cs: &mut Synthesis, other: Integer, span: &Span) -> (r: Result<
        Integer,
        IntegerError,
    >)
        ensures
            outcome(r) == arithmetic(ArithmeticOperation::Div, self@, other@, *span),
            final(cs).witnessed() == old(cs).witnessed(),
            final(cs).satisfied() == old(cs).satisfied(),
            final(cs).labels() ==
                entered(old(cs).labels(), self@, ArithmeticOperation::Div, other@, *span),
    {
        self.binary(cs, other, span, ArithmeticOperation::Div)
    }

    /// The power of `self` by `other`, under the namespace of the exponentiation.
    pub fn pow(self, cs: &mut Synthesis, other: Integer, span: &Span) -> (r: Result<
        Integer,
        IntegerError,
    >)
        ensures
            outcome(r) == arithmetic(ArithmeticOperation::Pow, self@, other@, *span),
            final(cs).witnessed() == old(cs).witnessed(),
            final(cs).satisfied() == old(cs).satisfied(),
            final(cs).labels() ==
                entered(old(cs).labels(), self@, ArithmeticOperation::Pow, other@, *span),
    {
        self.binary(cs, other, span, ArithmeticOperation::Pow)
    }

    /// Whether `self` and `other` are equal.
    pub fn evaluate_equal(&self, other: &Integer) -> (r: Result<Boolean, SynthesisError>)
        ensures
            r == comparison(self@, other@, |x: int, y: int| x == y),
    {
        proof {
            use_type_invariant(self);
            use_type_invariant(other);
        }
        if self.kind != other.kind {
            return Err(SynthesisError::Unsatisfiable);
        }
        match (self.number, other.number) {
            (Some(x), Some(y)) => {
                let equal = match (x, y) {
                    (Number::Unsigned(a), Number::Unsigned(b)) => a == b,
                    (Number::Signed(a), Number::Signed(b)) => a == b,
                    _ => false,
                };
                if self.constant && other.constant {
                    Ok(Boolean::Constant(equal))
                } else {
                    Ok(Boolean::Allocated(Some(equal)))
                }
            },
            _ => Ok(Boolean::Allocated(None)),
        }
    }

    /// Whether `self` is less than `other`.
    pub fn less_than(&self, other: &Integer) -> (r: Result<Boolean, SynthesisError>)
        ensures
            r == comparison(self@, other@, |x: int, y: int| x < y),
    {
        proof {
            use_type_invariant(self);
            use_type_invariant(other);
        }
        if self.kind != other.kind {
            return Err(SynthesisError::Unsatisfiable);
        }
        match (self.number, other.number) {
            (Some(x), Some(y)) => {
                let less = match (x, y) {
                    (Number::Unsigned(a), Number::Unsigned(b)) => a < b,
                    (Number::Signed(a), Number::Signed(b)) => a < b,
                    _ => false,
                };
                if self.constant && other.constant {
                    Ok(Boolean::Constant(less))
                } else {
                    Ok(Boolean::Allocated(Some(less)))
                }
            },
            _ => Ok(Boolean::Allocated(None)),
        }
    }

    /// Enforces that `self` equals `other` where `condition` holds. Integers of
    /// different kinds cannot be held equal. The synthesis stays satisfied
    /// unless the condition is known to hold and the values are known to differ.
    pub fn conditional_enforce_equal(
        &self,
        cs: &mut Synthesis,
        other: &Integer,
        condition: &Boolean,
    ) -> (r: Result<(), SynthesisError>)
        ensures
            final(cs).witnessed() == old(cs).witnessed(),
            final(cs).labels() == old(cs).labels(),
            self@.kind != other@.kind ==> r == Err::<(), SynthesisError>(
                SynthesisError::Unsatisfiable,
            ) && final(cs).satisfied() == old(cs).satisfied(),
            self@.kind == other@.kind ==> r == Ok::<(), SynthesisError>(())
                && final(cs).satisfied() == (old(cs).satisfied() && !(condition.value() == Some(
                true,
            ) && self@.value is Some && other@.value is Some && self@.value != other@.value)),
    {
        proof {
            use_type_invariant(self);
            use_type_invariant(other);
        }
        if self.kind != other.kind {
            return Err(SynthesisError::Unsatisfiable);
        }
        let differ = match (self.number, other.number) {
            (Some(Number::Unsigned(a)), Some(Number::Unsigned(b))) => a != b,
            (Some(Number::Signed(a)), Some(Number::Signed(b))) => a != b,
            _ => false,
        };
        let applies = match condition.get_value() {
            Some(c) => c,
            None => false,
        };
        cs.enforce(!(applies && differ));
        Ok(())
    }

    /// Selects `first` where `cond` holds and `second` where it does not.
    pub fn conditionally_select(cs: &Synthesis, cond: &Boolean, first: &Integer, second: &Integer)
        -> (r: Result<Integer, SynthesisError>)
        ensures
            match r {
                Ok(i) => Ok::<IntegerView, SynthesisError>(i@),
                Err(e) => Err(e),
            } == selection(cs.witnessed(), *cond, first@, second@),
    {
        proof {
            use_type_invariant(first);
            use_type_invariant(second);
        }
        if first.kind != second.kind {
            return Err(SynthesisError::Unsatisfiable);
        }
        match cond {
            Boolean::Constant(c) => if *c {
                Ok(*first)
            } else {
                Ok(*second)
            },
            Boolean::Allocated(c) => {
                let number = match c {
                    Some(c) => if *c {
                        first.number
                    } else {
                        second.number
                    },
                    None => None,
                };
                match number {
                    None => if cs.is_witnessed() {
                        Err(SynthesisError::AssignmentMissing)
                    } else {
                        Ok(Integer { kind: first.kind, number: None, constant: false })
                    },
                    Some(n) => Ok(Integer { kind: first.kind, number: Some(n), constant: false }),
                }
            },
        }
    }
}

} // verus!
