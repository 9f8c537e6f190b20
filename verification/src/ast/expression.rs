//! Expressions.
use crate::ast::common::{clone_sizes, Identifier, identifier_view, IdentifierView};
use crate::ast::types::{Type, type_view, TypeView};
use crate::integer_type::IntegerType;
use crate::span::Span;
use vstd::prelude::*;

verus! {

/// A binary operation.
#[derive(Clone, Copy, Debug, PartialEq, Eq, Structural)]
pub enum BinaryOperation {
    Add,
    Sub,
    Mul,
    Div,
    Pow,
    Or,
    And,
    Eq,
    Ne,
    Ge,
    Gt,
    Le,
    Lt,
}

/// A unary operation.
#[derive(Clone, Copy, Debug, PartialEq, Eq, Structural)]
pub enum UnaryOperation {
    Not,
    Negate,
}

/// One coordinate of a group element.
#[derive(Debug, PartialEq, Eq)]
pub enum GroupCoordinate {
    Number(String, Span),
    SignHigh,
    SignLow,
    Inferred,
}

/// A group element given by its two coordinates.
#[derive(Debug, PartialEq, Eq)]
pub struct GroupTuple {
    pub x: GroupCoordinate,
    pub y: GroupCoordinate,
    pub span: Span,
}

/// A group element.
#[derive(Debug, PartialEq, Eq)]
pub enum GroupValue {
    Single(String, Span),
    Tuple(GroupTuple),
}

/// A literal value.
#[derive(Debug, PartialEq, Eq)]
pub enum ValueExpression {
    Address(String, Span),
    Boolean(String, Span),
    Char(String, Span),
    Field(String, Span),
    Group(Box<GroupValue>),
    Implicit(String, Span),
    Integer(IntegerType, String, Span),
}

/// Two operands joined by a binary operation.
#[derive(Debug, PartialEq, Eq)]
pub struct BinaryExpression {
    pub left: Box<Expression>,
    pub right: Box<Expression>,
    pub op: BinaryOperation,
    pub span: Span,
}

/// A unary operation on one operand.
#[derive(Debug, PartialEq, Eq)]
pub struct UnaryExpression {
    pub inner: Box<Expression>,
    pub op: UnaryOperation,
    pub span: Span,
}

/// A choice between two values by a condition.
#[derive(Debug, PartialEq, Eq)]
pub struct TernaryExpression {
    pub condition: Box<Expression>,
    pub if_true: Box<Expression>,
    pub if_false: Box<Expression>,
    pub span: Span,
}

/// A value taken as another type.
#[derive(Debug, PartialEq, Eq)]
pub struct CastExpression {
    pub inner: Box<Expression>,
    pub target_type: Type,
    pub span: Span,
}

/// An element of an inline array: one value, or all values of another array.
#[derive(Debug, PartialEq, Eq)]
pub enum SpreadOrExpression {
    Spread(Expression),
    Expression(Expression),
}

/// An array given element by element.
#[derive(Debug, PartialEq, Eq)]
pub struct ArrayInlineExpression {
    pub elements: Vec<SpreadOrExpression>,
    pub span: Span,
}

/// An array of one repeated element, with its dimensions.
#[derive(Debug, PartialEq, Eq)]
pub struct ArrayInitExpression {
    pub element: Box<Expression>,
    pub dimensions: Vec<usize>,
    pub span: Span,
}

/// One element of an array.
#[derive(Debug, PartialEq, Eq)]
pub struct ArrayAccessExpression {
    pub array: Box<Expression>,
    pub index: Box<Expression>,
    pub span: Span,
}

/// A range of an array, each bound optional.
#[derive(Debug, PartialEq, Eq)]
pub struct ArrayRangeAccessExpression {
    pub array: Box<Expression>,
    pub left: Option<Box<Expression>>,
    pub right: Option<Box<Expression>>,
    pub span: Span,
}

/// A tuple given element by element.
#[derive(Debug, PartialEq, Eq)]
pub struct TupleInitExpression {
    pub elements: Vec<Expression>,
    pub span: Span,
}

/// One element of a tuple, by its fixed index.
#[derive(Debug, PartialEq, Eq)]
pub struct TupleAccessExpression {
    pub tuple: Box<Expression>,
    pub index: usize,
    pub span: Span,
}

/// A member of a circuit initialiser: its name and, unless implied, its value.
#[derive(Debug, PartialEq, Eq)]
pub struct CircuitImpliedVariableDefinition {
    pub identifier: Identifier,
    pub expression: Option<Expression>,
}

/// A circuit value given member by member.
#[derive(Debug, PartialEq, Eq)]
pub struct CircuitInitExpression {
    pub name: Identifier,
    pub members: Vec<CircuitImpliedVariableDefinition>,
    pub span: Span,
}

/// A member of a circuit value.
#[derive(Debug, PartialEq, Eq)]
pub struct CircuitMemberAccessExpression {
    pub circuit: Box<Expression>,
    pub name: Identifier,
    pub span: Span,
}

/// A static function of a circuit.
#[derive(Debug, PartialEq, Eq)]
pub struct CircuitStaticFunctionAccessExpression {
    pub circuit: Box<Expression>,
    pub name: Identifier,
    pub span: Span,
}

/// A function applied to arguments.
#[derive(Debug, PartialEq, Eq)]
pub struct CallExpression {
    pub function: Box<Expression>,
    pub arguments: Vec<Expression>,
    pub span: Span,
}

/// An expression of the language.
#[derive(Debug, PartialEq, Eq)]
pub enum Expression {
    Identifier(Identifier),
    Value(ValueExpression),
    Binary(BinaryExpression),
    Unary(UnaryExpression),
    Ternary(TernaryExpression),
    Cast(CastExpression),
    ArrayInline(ArrayInlineExpression),
    ArrayInit(ArrayInitExpression),
    ArrayAccess(ArrayAccessExpression),
    ArrayRangeAccess(ArrayRangeAccessExpression),
    TupleInit(TupleInitExpression),
    TupleAccess(TupleAccessExpression),
    CircuitInit(CircuitInitExpression),
    CircuitMemberAccess(CircuitMemberAccessExpression),
    CircuitStaticFunctionAccess(CircuitStaticFunctionAccessExpression),
    Call(CallExpression),
}

/// What a `GroupCoordinate` is, with texts and lists as sequences.
pub enum GroupCoordinateView {
    Number(Seq<char>, Span),
    SignHigh,
    SignLow,
    Inferred,
}

/// What a `GroupTuple` is, with texts and lists as sequences.
pub struct GroupTupleView {
    pub x: GroupCoordinateView,
    pub y: GroupCoordinateView,
    pub span: Span,
}

/// What a `GroupValue` is, with texts and lists as sequences.
pub enum GroupValueView {
    Single(Seq<char>, Span),
    Tuple(GroupTupleView),
}

/// What a `ValueExpression` is, with texts and lists as sequences.
pub enum ValueExpressionView {
    Address(Seq<char>, Span),
    Boolean(Seq<char>, Span),
    Char(Seq<char>, Span),
    Field(Seq<char>, Span),
    Group(Box<GroupValueView>),
    Implicit(Seq<char>, Span),
    Integer(IntegerType, Seq<char>, Span),
}

/// What a `BinaryExpression` is, with texts and lists as sequences.
pub struct BinaryExpressionView {
    pub left: Box<ExpressionView>,
    pub right: Box<ExpressionView>,
    pub op: BinaryOperation,
    pub span: Span,
}

/// What an `UnaryExpression` is, with texts and lists as sequences.
pub struct UnaryExpressionView {
    pub inner: Box<ExpressionView>,
    pub op: UnaryOperation,
    pub span: Span,
}

/// What a `TernaryExpression` is, with texts and lists as sequences.
pub struct TernaryExpressionView {
    pub condition: Box<ExpressionView>,
    pub if_true: Box<ExpressionView>,
    pub if_false: Box<ExpressionView>,
    pub span: Span,
}

/// What a `CastExpression` is, with texts and lists as sequences.
pub struct CastExpressionView {
    pub inner: Box<ExpressionView>,
    pub target_type: TypeView,
    pub span: Span,
}

/// What a `SpreadOrExpression` is, with texts and lists as sequences.
pub enum SpreadOrExpressionView {
    Spread(ExpressionView),
    Expression(ExpressionView),
}

/// What an `ArrayInlineExpression` is, with texts and lists as sequences.
pub struct ArrayInlineExpressionView {
    pub elements: Seq<SpreadOrExpressionView>,
    pub span: Span,
}

/// What an `ArrayInitExpression` is, with texts and lists as sequences.
pub struct ArrayInitExpressionView {
    pub element: Box<ExpressionView>,
    pub dimensions: Seq<usize>,
    pub span: Span,
}

/// What an `ArrayAccessExpression` is, with texts and lists as sequences.
pub struct ArrayAccessExpressionView {
    pub array: Box<ExpressionView>,
    pub index: Box<ExpressionView>,
    pub span: Span,
}

/// What an `ArrayRangeAccessExpression` is, with texts and lists as sequences.
pub struct ArrayRangeAccessExpressionView {
    pub array: Box<ExpressionView>,
    pub left: Option<Box<ExpressionView>>,
    pub right: Option<Box<ExpressionView>>,
    pub span: Span,
}

/// What a `TupleInitExpression` is, with texts and lists as sequences.
pub struct TupleInitExpressionView {
    pub elements: Seq<ExpressionView>,
    pub span: Span,
}

/// What a `TupleAccessExpression` is, with texts and lists as sequences.
pub struct TupleAccessExpressionView {
    pub tuple: Box<ExpressionView>,
    pub index: usize,
    pub span: Span,
}

/// What a `CircuitImpliedVariableDefinition` is, with texts and lists as sequences.
pub struct CircuitImpliedVariableDefinitionView {
    pub identifier: IdentifierView,
    pub expression: Option<ExpressionView>,
}

/// What a `CircuitInitExpression` is, with texts and lists as sequences.
pub struct CircuitInitExpressionView {
    pub name: IdentifierView,
    pub members: Seq<CircuitImpliedVariableDefinitionView>,
    pub span: Span,
}

/// What a `CircuitMemberAccessExpression` is, with texts and lists as sequences.
pub struct CircuitMemberAccessExpressionView {
    pub circuit: Box<ExpressionView>,
    pub name: IdentifierView,
    pub span: Span,
}

/// What a `CircuitStaticFunctionAccessExpression` is, with texts and lists as sequences.
pub struct CircuitStaticFunctionAccessExpressionView {
    pub circuit: Box<ExpressionView>,
    pub name: IdentifierView,
    pub span: Span,
}

/// What a `CallExpression` is, with texts and lists as sequences.
pub struct CallExpressionView {
    pub function: Box<ExpressionView>,
    pub arguments: Seq<ExpressionView>,
    pub span: Span,
}

/// What an `Expression` is, with texts and lists as sequences.
pub enum ExpressionView {
    Identifier(IdentifierView),
    Value(ValueExpressionView),
    Binary(BinaryExpressionView),
    Unary(UnaryExpressionView),
    Ternary(TernaryExpressionView),
    Cast(CastExpressionView),
    ArrayInline(ArrayInlineExpressionView),
    ArrayInit(ArrayInitExpressionView),
    ArrayAccess(ArrayAccessExpressionView),
    ArrayRangeAccess(ArrayRangeAccessExpressionView),
    TupleInit(TupleInitExpressionView),
    TupleAccess(TupleAccessExpressionView),
    CircuitInit(CircuitInitExpressionView),
    CircuitMemberAccess(CircuitMemberAccessExpressionView),
    CircuitStaticFunctionAccess(CircuitStaticFunctionAccessExpressionView),
    Call(CallExpressionView),
}

pub open spec fn group_coordinate_view(x: GroupCoordinate) -> GroupCoordinateView
    decreases x,
{
    match x {
        GroupCoordinate::Number(f0, f1) => GroupCoordinateView::Number(f0@, f1),
        GroupCoordinate::SignHigh => GroupCoordinateView::SignHigh,
        GroupCoordinate::SignLow => GroupCoordinateView::SignLow,
        GroupCoordinate::Inferred => GroupCoordinateView::Inferred,
    }
}

impl View for GroupCoordinate {
    type V = GroupCoordinateView;

    open spec fn view(&self) -> GroupCoordinateView {
        group_coordinate_view(*self)
    }
}

pub open spec fn group_tuple_view(x: GroupTuple) -> GroupTupleView
    decreases x,
{
    GroupTupleView {
        x: group_coordinate_view(x.x),
        y: group_coordinate_view(x.y),
        span: x.span,
    }
}

impl View for GroupTuple {
    type V = GroupTupleView;

    open spec fn view(&self) -> GroupTupleView {
        group_tuple_view(*self)
    }
}

pub open spec fn group_value_view(x: GroupValue) -> GroupValueView
    decreases x,
{
    match x {
        GroupValue::Single(f0, f1) => GroupValueView::Single(f0@, f1),
        GroupValue::Tuple(f0) => GroupValueView::Tuple(group_tuple_view(f0)),
    }
}

impl View for GroupValue {
    type V = GroupValueView;

    open spec fn view(&self) -> GroupValueView {
        group_value_view(*self)
    }
}

pub open spec fn value_expression_view(x: ValueExpression) -> ValueExpressionView
    decreases x,
{
    match x {
        ValueExpression::Address(f0, f1) => ValueExpressionView::Address(f0@, f1),
        ValueExpression::Boolean(f0, f1) => ValueExpressionView::Boolean(f0@, f1),
        ValueExpression::Char(f0, f1) => ValueExpressionView::Char(f0@, f1),
        ValueExpression::Field(f0, f1) => ValueExpressionView::Field(f0@, f1),
        ValueExpression::Group(f0) => ValueExpressionView::Group(Box::new(group_value_view(*f0))),
        ValueExpression::Implicit(f0, f1) => ValueExpressionView::Implicit(f0@, f1),
        ValueExpression::Integer(f0, f1, f2) => ValueExpressionView::Integer(f0, f1@, f2),
    }
}

impl View for ValueExpression {
    type V = ValueExpressionView;

    open spec fn view(&self) -> ValueExpressionView {
        value_expression_view(*self)
    }
}

pub open spec fn binary_expression_view(x: BinaryExpression) -> BinaryExpressionView
    decreases x,
{
    BinaryExpressionView {
        left: Box::new(expression_view(*x.left)),
        right: Box::new(expression_view(*x.right)),
        op: x.op,
        span: x.span,
    }
}

impl View for BinaryExpression {
    type V = BinaryExpressionView;

    open spec fn view(&self) -> BinaryExpressionView {
        binary_expression_view(*self)
    }
}

pub open spec fn unary_expression_view(x: UnaryExpression) -> UnaryExpressionView
    decreases x,
{
    UnaryExpressionView {
        inner: Box::new(expression_view(*x.inner)),
        op: x.op,
        span: x.span,
    }
}

impl View for UnaryExpression {
    type V = UnaryExpressionView;

    open spec fn view(&self) -> UnaryExpressionView {
        unary_expression_view(*self)
    }
}

pub open spec fn ternary_expression_view(x: TernaryExpression) -> TernaryExpressionView
    decreases x,
{
    TernaryExpressionView {
        condition: Box::new(expression_view(*x.condition)),
        if_true: Box::new(expression_view(*x.if_true)),
        if_false: Box::new(expression_view(*x.if_false)),
        span: x.span,
    }
}

impl View for TernaryExpression {
    type V = TernaryExpressionView;

    open spec fn view(&self) -> TernaryExpressionView {
        ternary_expression_view(*self)
    }
}

pub open spec fn cast_expression_view(x: CastExpression) -> CastExpressionView
    decreases x,
{
    CastExpressionView {
        inner: Box::new(expression_view(*x.inner)),
        target_type: type_view(x.target_type),
        span: x.span,
    }
}

impl View for CastExpression {
    type V = CastExpressionView;

    open spec fn view(&self) -> CastExpressionView {
        cast_expression_view(*self)
    }
}

pub open spec fn spread_or_expression_view(x: SpreadOrExpression) -> SpreadOrExpressionView
    decreases x,
{
    match x {
        SpreadOrExpression::Spread(f0) => SpreadOrExpressionView::Spread(expression_view(f0)),
        SpreadOrExpression::Expression(
            f0,
        ) => SpreadOrExpressionView::Expression(expression_view(f0)),
    }
}

pub open spec fn spread_or_expression_seq_view(
    s: Seq<SpreadOrExpression>,
) -> Seq<SpreadOrExpressionView>
    decreases s,
{
    Seq::new(
        s.len(),
        |i: int|
            if 0 <= i < s.len() {
                spread_or_expression_view(s[i])
            } else {
                arbitrary()
            },
    )
}

impl View for SpreadOrExpression {
    type V = SpreadOrExpressionView;

    open spec fn view(&self) -> SpreadOrExpressionView {
        spread_or_expression_view(*self)
    }
}

pub open spec fn array_inline_expression_view(x: ArrayInlineExpression) -> ArrayInlineExpressionView
    decreases x,
{
    ArrayInlineExpressionView {
        elements: spread_or_expression_seq_view(x.elements@),
        span: x.span,
    }
}

impl View for ArrayInlineExpression {
    type V = ArrayInlineExpressionView;

    open spec fn view(&self) -> ArrayInlineExpressionView {
        array_inline_expression_view(*self)
    }
}

pub open spec fn array_init_expression_view(x: ArrayInitExpression) -> ArrayInitExpressionView
    decreases x,
{
    ArrayInitExpressionView {
        element: Box::new(expression_view(*x.element)),
        dimensions: x.dimensions@,
        span: x.span,
    }
}

impl View for ArrayInitExpression {
    type V = ArrayInitExpressionView;

    open spec fn view(&self) -> ArrayInitExpressionView {
        array_init_expression_view(*self)
    }
}

pub open spec fn array_access_expression_view(x: ArrayAccessExpression) -> ArrayAccessExpressionView
    decreases x,
{
    ArrayAccessExpressionView {
        array: Box::new(expression_view(*x.array)),
        index: Box::new(expression_view(*x.index)),
        span: x.span,
    }
}

impl View for ArrayAccessExpression {
    type V = ArrayAccessExpressionView;

    open spec fn view(&self) -> ArrayAccessExpressionView {
        array_access_expression_view(*self)
    }
}

pub open spec fn array_range_access_expression_view(
    x: ArrayRangeAccessExpression,
) -> ArrayRangeAccessExpressionView
    decreases x,
{
    ArrayRangeAccessExpressionView {
        array: Box::new(expression_view(*x.array)),
        left: match x.left { Some(v) => Some(Box::new(expression_view(*v))), None => None },
        right: match x.right { Some(v) => Some(Box::new(expression_view(*v))), None => None },
        span: x.span,
    }
}

impl View for ArrayRangeAccessExpression {
    type V = ArrayRangeAccessExpressionView;

    open spec fn view(&self) -> ArrayRangeAccessExpressionView {
        array_range_access_expression_view(*self)
    }
}

pub open spec fn tuple_init_expression_view(x: TupleInitExpression) -> TupleInitExpressionView
    decreases x,
{
    TupleInitExpressionView {
        elements: expression_seq_view(x.elements@),
        span: x.span,
    }
}

impl View for TupleInitExpression {
    type V = TupleInitExpressionView;

    open spec fn view(&self) -> TupleInitExpressionView {
        tuple_init_expression_view(*self)
    }
}

pub open spec fn tuple_access_expression_view(x: TupleAccessExpression) -> TupleAccessExpressionView
    decreases x,
{
    TupleAccessExpressionView {
        tuple: Box::new(expression_view(*x.tuple)),
        index: x.index,
        span: x.span,
    }
}

impl View for TupleAccessExpression {
    type V = TupleAccessExpressionView;

    open spec fn view(&self) -> TupleAccessExpressionView {
        tuple_access_expression_view(*self)
    }
}

pub open spec fn circuit_implied_variable_definition_view(
    x: CircuitImpliedVariableDefinition,
) -> CircuitImpliedVariableDefinitionView
    decreases x,
{
    CircuitImpliedVariableDefinitionView {
        identifier: identifier_view(x.identifier),
        expression: match x.expression { Some(v) => Some(expression_view(v)), None => None },
    }
}

pub open spec fn circuit_implied_variable_definition_seq_view(
    s: Seq<CircuitImpliedVariableDefinition>,
) -> Seq<CircuitImpliedVariableDefinitionView>
    decreases s,
{
    Seq::new(
        s.len(),
        |i: int|
            if 0 <= i < s.len() {
                circuit_implied_variable_definition_view(s[i])
            } else {
                arbitrary()
            },
    )
}

impl View for CircuitImpliedVariableDefinition {
    type V = CircuitImpliedVariableDefinitionView;

    open spec fn view(&self) -> CircuitImpliedVariableDefinitionView {
        circuit_implied_variable_definition_view(*self)
    }
}

pub open spec fn circuit_init_expression_view(x: CircuitInitExpression) -> CircuitInitExpressionView
    decreases x,
{
    CircuitInitExpressionView {
        name: identifier_view(x.name),
        members: circuit_implied_variable_definition_seq_view(x.members@),
        span: x.span,
    }
}

impl View for CircuitInitExpression {
    type V = CircuitInitExpressionView;

    open spec fn view(&self) -> CircuitInitExpressionView {
        circuit_init_expression_view(*self)
    }
}

pub open spec fn circuit_member_access_expression_view(
    x: CircuitMemberAccessExpression,
) -> CircuitMemberAccessExpressionView
    decreases x,
{
    CircuitMemberAccessExpressionView {
        circuit: Box::new(expression_view(*x.circuit)),
        name: identifier_view(x.name),
        span: x.span,
    }
}

impl View for CircuitMemberAccessExpression {
    type V = CircuitMemberAccessExpressionView;

    open spec fn view(&self) -> CircuitMemberAccessExpressionView {
        circuit_member_access_expression_view(*self)
    }
}

pub open spec fn circuit_static_function_access_expression_view(
    x: CircuitStaticFunctionAccessExpression,
) -> CircuitStaticFunctionAccessExpressionView
    decreases x,
{
    CircuitStaticFunctionAccessExpressionView {
        circuit: Box::new(expression_view(*x.circuit)),
        name: identifier_view(x.name),
        span: x.span,
    }
}

impl View for CircuitStaticFunctionAccessExpression {
    type V = CircuitStaticFunctionAccessExpressionView;

    open spec fn view(&self) -> CircuitStaticFunctionAccessExpressionView {
        circuit_static_function_access_expression_view(*self)
    }
}

pub open spec fn call_expression_view(x: CallExpression) -> CallExpressionView
    decreases x,
{
    CallExpressionView {
        function: Box::new(expression_view(*x.function)),
        arguments: expression_seq_view(x.arguments@),
        span: x.span,
    }
}

impl View for CallExpression {
    type V = CallExpressionView;

    open spec fn view(&self) -> CallExpressionView {
        call_expression_view(*self)
    }
}

pub open spec fn expression_view(x: Expression) -> ExpressionView
    decreases x,
{
    match x {
        Expression::Identifier(f0) => ExpressionView::Identifier(identifier_view(f0)),
        Expression::Value(f0) => ExpressionView::Value(value_expression_view(f0)),
        Expression::Binary(f0) => ExpressionView::Binary(binary_expression_view(f0)),
        Expression::Unary(f0) => ExpressionView::Unary(unary_expression_view(f0)),
        Expression::Ternary(f0) => ExpressionView::Ternary(ternary_expression_view(f0)),
        Expression::Cast(f0) => ExpressionView::Cast(cast_expression_view(f0)),
        Expression::ArrayInline(
            f0,
        ) => ExpressionView::ArrayInline(array_inline_expression_view(f0)),
        Expression::ArrayInit(f0) => ExpressionView::ArrayInit(array_init_expression_view(f0)),
        Expression::ArrayAccess(
            f0,
        ) => ExpressionView::ArrayAccess(array_access_expression_view(f0)),
        Expression::ArrayRangeAccess(
            f0,
        ) => ExpressionView::ArrayRangeAccess(array_range_access_expression_view(f0)),
        Expression::TupleInit(f0) => ExpressionView::TupleInit(tuple_init_expression_view(f0)),
        Expression::TupleAccess(
            f0,
        ) => ExpressionView::TupleAccess(tuple_access_expression_view(f0)),
        Expression::CircuitInit(
            f0,
        ) => ExpressionView::CircuitInit(circuit_init_expression_view(f0)),
        Expression::CircuitMemberAccess(
            f0,
        ) => ExpressionView::CircuitMemberAccess(circuit_member_access_expression_view(f0)),
        Expression::CircuitStaticFunctionAccess(
            f0,
        ) => ExpressionView::CircuitStaticFunctionAccess(circuit_static_function_access_expression_view(f0)),
        Expression::Call(f0) => ExpressionView::Call(call_expression_view(f0)),
    }
}

pub open spec fn expression_seq_view(s: Seq<Expression>) -> Seq<ExpressionView>
    decreases s,
{
    Seq::new(
        s.len(),
        |i: int|
            if 0 <= i < s.len() {
                expression_view(s[i])
            } else {
                arbitrary()
            },
    )
}

impl View for Expression {
    type V = ExpressionView;

    open spec fn view(&self) -> ExpressionView {
        expression_view(*self)
    }
}

impl Clone for GroupCoordinate {
    fn clone(&self) -> (r: GroupCoordinate)
        ensures
            r@ == self@,
        decreases self,
    {
        match self {
            GroupCoordinate::Number(f0, f1) => GroupCoordinate::Number(f0.clone(), *f1),
            GroupCoordinate::SignHigh => GroupCoordinate::SignHigh,
            GroupCoordinate::SignLow => GroupCoordinate::SignLow,
            GroupCoordinate::Inferred => GroupCoordinate::Inferred,
        }
    }
}

impl Clone for GroupTuple {
    fn clone(&self) -> (r: GroupTuple)
        ensures
            r@ == self@,
        decreases self,
    {
        GroupTuple {
            x: self.x.clone(),
            y: self.y.clone(),
            span: self.span,
        }
    }
}

impl Clone for GroupValue {
    fn clone(&self) -> (r: GroupValue)
        ensures
            r@ == self@,
        decreases self,
    {
        match self {
            GroupValue::Single(f0, f1) => GroupValue::Single(f0.clone(), *f1),
            GroupValue::Tuple(f0) => GroupValue::Tuple(f0.clone()),
        }
    }
}

impl Clone for ValueExpression {
    fn clone(&self) -> (r: ValueExpression)
        ensures
            r@ == self@,
        decreases self,
    {
        match self {
            ValueExpression::Address(f0, f1) => ValueExpression::Address(f0.clone(), *f1),
            ValueExpression::Boolean(f0, f1) => ValueExpression::Boolean(f0.clone(), *f1),
            ValueExpression::Char(f0, f1) => ValueExpression::Char(f0.clone(), *f1),
            ValueExpression::Field(f0, f1) => ValueExpression::Field(f0.clone(), *f1),
            ValueExpression::Group(f0) => ValueExpression::Group(Box::new((&**f0).clone())),
            ValueExpression::Implicit(f0, f1) => ValueExpression::Implicit(f0.clone(), *f1),
            ValueExpression::Integer(f0, f1, f2) => ValueExpression::Integer(*f0, f1.clone(), *f2),
        }
    }
}

impl Clone for BinaryExpression {
    fn clone(&self) -> (r: BinaryExpression)
        ensures
            r@ == self@,
        decreases self,
    {
        BinaryExpression {
            left: Box::new((*self.left).clone()),
            right: Box::new((*self.right).clone()),
            op: self.op,
            span: self.span,
        }
    }
}

impl Clone for UnaryExpression {
    fn clone(&self) -> (r: UnaryExpression)
        ensures
            r@ == self@,
        decreases self,
    {
        UnaryExpression {
            inner: Box::new((*self.inner).clone()),
            op: self.op,
            span: self.span,
        }
    }
}

impl Clone for TernaryExpression {
    fn clone(&self) -> (r: TernaryExpression)
        ensures
            r@ == self@,
        decreases self,
    {
        TernaryExpression {
            condition: Box::new((*self.condition).clone()),
            if_true: Box::new((*self.if_true).clone()),
            if_false: Box::new((*self.if_false).clone()),
            span: self.span,
        }
    }
}

impl Clone for CastExpression {
    fn clone(&self) -> (r: CastExpression)
        ensures
            r@ == self@,
        decreases self,
    {
        CastExpression {
            inner: Box::new((*self.inner).clone()),
            target_type: self.target_type.clone(),
            span: self.span,
        }
    }
}

impl Clone for SpreadOrExpression {
    fn clone(&self) -> (r: SpreadOrExpression)
        ensures
            r@ == self@,
        decreases self,
    {
        match self {
            SpreadOrExpression::Spread(f0) => SpreadOrExpression::Spread(f0.clone()),
            SpreadOrExpression::Expression(f0) => SpreadOrExpression::Expression(f0.clone()),
        }
    }
}

/// A copy of a list.
pub fn clone_spread_or_expression_seq(
    items: &Vec<SpreadOrExpression>,
) -> (r: Vec<SpreadOrExpression>)
    ensures
        spread_or_expression_seq_view(r@) == spread_or_expression_seq_view(items@),
    decreases items,
{
    let mut out: Vec<SpreadOrExpression> = Vec::new();
    let mut i: usize = 0;
    while i < items.len()
        invariant
            i <= items.len(),
            spread_or_expression_seq_view(
                out@,
            ) =~= spread_or_expression_seq_view(items@).take(i as int),
        decreases items.len() - i,
    {
        let ghost before = spread_or_expression_seq_view(out@);
        let item = items[i].clone();
        out.push(item);
        assert(spread_or_expression_seq_view(out@) =~= before.push(item@));
        assert(spread_or_expression_seq_view(items@).take(i + 1) =~=
            spread_or_expression_seq_view(items@).take(i as int).push(
            items[i as int]@,
        ));
        i = i + 1;
    }
    assert(spread_or_expression_seq_view(items@).take(i as int) =~=
        spread_or_expression_seq_view(items@));
    out
}

impl Clone for ArrayInlineExpression {
    fn clone(&self) -> (r: ArrayInlineExpression)
        ensures
            r@ == self@,
        decreases self,
    {
        ArrayInlineExpression {
            elements: clone_spread_or_expression_seq(&self.elements),
            span: self.span,
        }
    }
}

impl Clone for ArrayInitExpression {
    fn clone(&self) -> (r: ArrayInitExpression)
        ensures
            r@ == self@,
        decreases self,
    {
        ArrayInitExpression {
            element: Box::new((*self.element).clone()),
            dimensions: clone_sizes(&self.dimensions),
            span: self.span,
        }
    }
}

impl Clone for ArrayAccessExpression {
    fn clone(&self) -> (r: ArrayAccessExpression)
        ensures
            r@ == self@,
        decreases self,
    {
        ArrayAccessExpression {
            array: Box::new((*self.array).clone()),
            index: Box::new((*self.index).clone()),
            span: self.span,
        }
    }
}

impl Clone for ArrayRangeAccessExpression {
    fn clone(&self) -> (r: ArrayRangeAccessExpression)
        ensures
            r@ == self@,
        decreases self,
    {
        ArrayRangeAccessExpression {
            array: Box::new((*self.array).clone()),
            left: match &self.left { Some(v) => Some(Box::new((&**v).clone())), None => None },
            right: match &self.right { Some(v) => Some(Box::new((&**v).clone())), None => None },
            span: self.span,
        }
    }
}

impl Clone for TupleInitExpression {
    fn clone(&self) -> (r: TupleInitExpression)
        ensures
            r@ == self@,
        decreases self,
    {
        TupleInitExpression {
            elements: clone_expression_seq(&self.elements),
            span: self.span,
        }
    }
}

impl Clone for TupleAccessExpression {
    fn clone(&self) -> (r: TupleAccessExpression)
        ensures
            r@ == self@,
        decreases self,
    {
        TupleAccessExpression {
            tuple: Box::new((*self.tuple).clone()),
            index: self.index,
            span: self.span,
        }
    }
}

impl Clone for CircuitImpliedVariableDefinition {
    fn clone(&self) -> (r: CircuitImpliedVariableDefinition)
        ensures
            r@ == self@,
        decreases self,
    {
        CircuitImpliedVariableDefinition {
            identifier: self.identifier.clone(),
            expression: match &self.expression { Some(v) => Some(v.clone()), None => None },
        }
    }
}

/// A copy of a list.
pub fn clone_circuit_implied_variable_definition_seq(
    items: &Vec<CircuitImpliedVariableDefinition>,
) -> (r: Vec<CircuitImpliedVariableDefinition>)
    ensures
        circuit_implied_variable_definition_seq_view(r@) ==
            circuit_implied_variable_definition_seq_view(items@),
    decreases items,
{
    let mut out: Vec<CircuitImpliedVariableDefinition> = Vec::new();
    let mut i: usize = 0;
    while i < items.len()
        invariant
            i <= items.len(),
            circuit_implied_variable_definition_seq_view(
                out@,
            ) =~= circuit_implied_variable_definition_seq_view(items@).take(i as int),
        decreases items.len() - i,
    {
        let ghost before = circuit_implied_variable_definition_seq_view(out@);
        let item = items[i].clone();
        out.push(item);
        assert(circuit_implied_variable_definition_seq_view(out@) =~= before.push(item@));
        assert(circuit_implied_variable_definition_seq_view(items@).take(i + 1) =~=
            circuit_implied_variable_definition_seq_view(items@).take(i as int).push(
            items[i as int]@,
        ));
        i = i + 1;
    }
    assert(circuit_implied_variable_definition_seq_view(items@).take(i as int) =~=
        circuit_implied_variable_definition_seq_view(items@));
    out
}

impl Clone for CircuitInitExpression {
    fn clone(&self) -> (r: CircuitInitExpression)
        ensures
            r@ == self@,
        decreases self,
    {
        CircuitInitExpression {
            name: self.name.clone(),
            members: clone_circuit_implied_variable_definition_seq(&self.members),
            span: self.span,
        }
    }
}

impl Clone for CircuitMemberAccessExpression {
    fn clone(&self) -> (r: CircuitMemberAccessExpression)
        ensures
            r@ == self@,
        decreases self,
    {
        CircuitMemberAccessExpression {
            circuit: Box::new((*self.circuit).clone()),
            name: self.name.clone(),
            span: self.span,
        }
    }
}

impl Clone for CircuitStaticFunctionAccessExpression {
    fn clone(&self) -> (r: CircuitStaticFunctionAccessExpression)
        ensures
            r@ == self@,
        decreases self,
    {
        CircuitStaticFunctionAccessExpression {
            circuit: Box::new((*self.circuit).clone()),
            name: self.name.clone(),
            span: self.span,
        }
    }
}

impl Clone for CallExpression {
    fn clone(&self) -> (r: CallExpression)
        ensures
            r@ == self@,
        decreases self,
    {
        CallExpression {
            function: Box::new((*self.function).clone()),
            arguments: clone_expression_seq(&self.arguments),
            span: self.span,
        }
    }
}

impl Clone for Expression {
    fn clone(&self) -> (r: Expression)
        ensures
            r@ == self@,
        decreases self,
    {
        match self {
            Expression::Identifier(f0) => Expression::Identifier(f0.clone()),
            Expression::Value(f0) => Expression::Value(f0.clone()),
            Expression::Binary(f0) => Expression::Binary(f0.clone()),
            Expression::Unary(f0) => Expression::Unary(f0.clone()),
            Expression::Ternary(f0) => Expression::Ternary(f0.clone()),
            Expression::Cast(f0) => Expression::Cast(f0.clone()),
            Expression::ArrayInline(f0) => Expression::ArrayInline(f0.clone()),
            Expression::ArrayInit(f0) => Expression::ArrayInit(f0.clone()),
            Expression::ArrayAccess(f0) => Expression::ArrayAccess(f0.clone()),
            Expression::ArrayRangeAccess(f0) => Expression::ArrayRangeAccess(f0.clone()),
            Expression::TupleInit(f0) => Expression::TupleInit(f0.clone()),
            Expression::TupleAccess(f0) => Expression::TupleAccess(f0.clone()),
            Expression::CircuitInit(f0) => Expression::CircuitInit(f0.clone()),
            Expression::CircuitMemberAccess(f0) => Expression::CircuitMemberAccess(f0.clone()),
            Expression::CircuitStaticFunctionAccess(
                f0,
            ) => Expression::CircuitStaticFunctionAccess(f0.clone()),
            Expression::Call(f0) => Expression::Call(f0.clone()),
        }
    }
}

/// A copy of a list.
pub fn clone_expression_seq(items: &Vec<Expression>) -> (r: Vec<Expression>)
    ensures
        expression_seq_view(r@) == expression_seq_view(items@),
    decreases items,
{
    let mut out: Vec<Expression> = Vec::new();
    let mut i: usize = 0;
    while i < items.len()
        invariant
            i <= items.len(),
            expression_seq_view(out@) =~= expression_seq_view(items@).take(i as int),
        decreases items.len() - i,
    {
        let ghost before = expression_seq_view(out@);
        let item = items[i].clone();
        out.push(item);
        assert(expression_seq_view(out@) =~= before.push(item@));
        assert(expression_seq_view(items@).take(i + 1) =~=
            expression_seq_view(items@).take(i as int).push(
            items[i as int]@,
        ));
        i = i + 1;
    }
    assert(expression_seq_view(items@).take(i as int) =~= expression_seq_view(items@));
    out
}

} // verus!
