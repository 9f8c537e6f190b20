//! The failures that the integer domain reports.
use crate::span::Span;
use vstd::prelude::*;

verus! {

/// A failure of an operation on the integer domain.
#[derive(Clone, Debug, PartialEq, Eq)]
pub enum IntegerError {
    /// The text is no integer of the expected kind.
    InvalidInteger { value: String, span: Span },
    /// An integer had to be given and was not.
    MissingInteger { name: String, span: Span },
    /// The integer cannot serve as an index: its value is unknown or it is signed.
    InvalidIndex { span: Span },
    /// The two operands of a binary operation are of different kinds.
    BinaryOperation { operation: String, span: Span },
    /// The operand cannot be negated: its kind is unsigned.
    NegateOperation { span: Span },
    /// The result does not fit the kind of the operands.
    Overflow { span: Span },
    /// The divisor is zero.
    DivisionByZero { span: Span },
}

/// What an `IntegerError` says, with its texts as sequences of characters.
pub enum IntegerErrorView {
    InvalidInteger { value: Seq<char>, span: Span },
    MissingInteger { name: Seq<char>, span: Span },
    InvalidIndex { span: Span },
    BinaryOperation { operation: Seq<char>, span: Span },
    NegateOperation { span: Span },
    Overflow { span: Span },
    DivisionByZero { span: Span },
}

impl View for IntegerError {
    type V = IntegerErrorView;

    open spec fn view(&self) -> IntegerErrorView {
        match *self {
            IntegerError::InvalidInteger { value, span } => IntegerErrorView::InvalidInteger {
                value: value@,
                span,
            },
            IntegerError::MissingInteger { name, span } => IntegerErrorView::MissingInteger {
                name: name@,
                span,
            },
            IntegerError::InvalidIndex { span } => IntegerErrorView::InvalidIndex { span },
            IntegerError::BinaryOperation { operation, span } => IntegerErrorView::BinaryOperation {
                operation: operation@,
                span,
            },
            IntegerError::NegateOperation { span } => IntegerErrorView::NegateOperation { span },
            IntegerError::Overflow { span } => IntegerErrorView::Overflow { span },
            IntegerError::DivisionByZero { span } => IntegerErrorView::DivisionByZero { span },
        }
    }
}

/// A failure of a rewriting pass over the syntax tree.
#[derive(Clone, Copy, Debug, PartialEq, Eq, Structural)]
pub enum CanonicalizeError {
    /// An array has no dimension, or a dimension of size zero.
    InvalidArrayDimensions { span: Span },
    /// A compound assignment cannot be written as a plain one.
    InvalidCompoundAssignment { span: Span },
    /// `Self` stands where no circuit encloses it.
    SelfOutsideCircuit { span: Span },
}

/// A failure of the constraint system itself.
#[derive(Clone, Copy, Debug, PartialEq, Eq, Structural)]
pub enum SynthesisError {
    /// A variable was allocated without a value where one is needed.
    AssignmentMissing,
    /// The constraints cannot hold.
    Unsatisfiable,
}

} // verus!
