//! The resolution of the receiver keeps what is canonical canonical.
use crate::ast::common::{Identifier, IdentifierView};
use crate::ast::expression::{
    ArrayAccessExpressionView, ArrayInitExpressionView, ArrayInlineExpressionView,
    ArrayRangeAccessExpressionView, BinaryExpressionView, CallExpressionView, CastExpressionView,
    CircuitImpliedVariableDefinitionView, CircuitInitExpressionView,
    CircuitMemberAccessExpressionView, CircuitStaticFunctionAccessExpressionView, Expression,
    ExpressionView, GroupTupleView, GroupValueView, SpreadOrExpressionView, TernaryExpressionView,
    TupleAccessExpressionView, TupleInitExpressionView, UnaryExpressionView, ValueExpressionView,
};
use crate::ast::function::{
    AnnotationView, Circuit, CircuitMemberView, FunctionInputVariableView, FunctionInputView,
    FunctionView,
};
use crate::ast::statement::{
    AssigneeAccessView, AssigneeView, AssignStatementView, Block, BlockView,
    ConditionalStatementView, ConsoleFunctionView, ConsoleStatementView, DefinitionStatementView,
    ExpressionStatementView, IterationStatementView, ReturnStatementView, StatementView,
    VariableNameView,
};
use crate::ast::types::TypeView;
use crate::ast::statement::AssignOperation;
use crate::errors::CanonicalizeError;
use crate::reducer::canonicalization::{Canonicalizer, nested_init, valid_dimensions};
use crate::reducer::reconstructing_director::{
    DirectorView, walk_annotation, walk_annotations, walk_array_access, walk_array_init,
    walk_array_inline, walk_array_range_access, walk_assign, walk_assignee, walk_assignee_access,
    walk_assignee_accesses, walk_binary, walk_block, walk_call, walk_cast,
    walk_circuit_implied_variable_definition, walk_circuit_implied_variable_definitions,
    walk_circuit_init, walk_circuit_member, walk_circuit_member_access, walk_circuit_members,
    walk_circuit_static_fn_access, walk_conditional, walk_console, walk_definition, walk_expression,
    walk_expression_statement, walk_expressions, walk_function, walk_function_input,
    walk_function_input_variable, walk_function_inputs, walk_group_tuple, walk_group_value,
    walk_identifier, walk_iteration, walk_return, walk_spread_or_expression,
    walk_spread_or_expressions, walk_statement, walk_statements, walk_ternary, walk_tuple_access,
    walk_tuple_init, walk_type, walk_types, walk_unary, walk_value, walk_variable_name,
    walk_variable_names,
};
use crate::reducer::resolution_settled::{
    lemma_resolution_settled_annotation, lemma_resolution_settled_annotations,
    lemma_resolution_settled_array_access, lemma_resolution_settled_array_init,
    lemma_resolution_settled_array_inline, lemma_resolution_settled_array_range_access,
    lemma_resolution_settled_assign, lemma_resolution_settled_assignee,
    lemma_resolution_settled_assignee_access, lemma_resolution_settled_assignee_accesses,
    lemma_resolution_settled_binary, lemma_resolution_settled_block, lemma_resolution_settled_call,
    lemma_resolution_settled_cast, lemma_resolution_settled_circuit_implied_variable_definition,
    lemma_resolution_settled_circuit_implied_variable_definitions,
    lemma_resolution_settled_circuit_init, lemma_resolution_settled_circuit_member,
    lemma_resolution_settled_circuit_member_access, lemma_resolution_settled_circuit_members,
    lemma_resolution_settled_circuit_static_fn_access, lemma_resolution_settled_conditional,
    lemma_resolution_settled_console, lemma_resolution_settled_definition,
    lemma_resolution_settled_expression, lemma_resolution_settled_expression_statement,
    lemma_resolution_settled_expressions, lemma_resolution_settled_function,
    lemma_resolution_settled_function_input, lemma_resolution_settled_function_input_variable,
    lemma_resolution_settled_function_inputs, lemma_resolution_settled_group_tuple,
    lemma_resolution_settled_group_value, lemma_resolution_settled_identifier,
    lemma_resolution_settled_iteration, lemma_resolution_settled_return,
    lemma_resolution_settled_spread_or_expression, lemma_resolution_settled_spread_or_expressions,
    lemma_resolution_settled_statement, lemma_resolution_settled_statements,
    lemma_resolution_settled_ternary, lemma_resolution_settled_tuple_access,
    lemma_resolution_settled_tuple_init, lemma_resolution_settled_type,
    lemma_resolution_settled_types, lemma_resolution_settled_unary, lemma_resolution_settled_value,
    lemma_resolution_settled_variable_name, lemma_resolution_settled_variable_names,
};
use crate::reducer::self_resolver::{resolved_identifier, SelfResolver, SelfResolverView};
use crate::reducer::settled::{
    lemma_array_shape, lemma_settled_annotation, lemma_settled_annotations,
    lemma_settled_array_access, lemma_settled_array_init, lemma_settled_array_inline,
    lemma_settled_array_range_access, lemma_settled_assign, lemma_settled_assignee,
    lemma_settled_assignee_access, lemma_settled_assignee_accesses, lemma_settled_binary,
    lemma_settled_block, lemma_settled_call, lemma_settled_cast,
    lemma_settled_circuit_implied_variable_definition,
    lemma_settled_circuit_implied_variable_definitions, lemma_settled_circuit_init,
    lemma_settled_circuit_member, lemma_settled_circuit_member_access,
    lemma_settled_circuit_members, lemma_settled_circuit_static_fn_access,
    lemma_settled_conditional, lemma_settled_console, lemma_settled_definition,
    lemma_settled_expression, lemma_settled_expression_statement, lemma_settled_expressions,
    lemma_settled_function, lemma_settled_function_input, lemma_settled_function_input_variable,
    lemma_settled_function_inputs, lemma_settled_group_tuple, lemma_settled_group_value,
    lemma_settled_identifier, lemma_settled_iteration, lemma_settled_return,
    lemma_settled_spread_or_expression, lemma_settled_spread_or_expressions,
    lemma_settled_statement, lemma_settled_statements, lemma_settled_ternary,
    lemma_settled_tuple_access, lemma_settled_tuple_init, lemma_settled_type, lemma_settled_types,
    lemma_settled_unary, lemma_settled_value, lemma_settled_variable_name,
    lemma_settled_variable_names,
};
use crate::span::Span;
use vstd::prelude::*;

verus! {

/// The resolution of the receiver keeps a type settled.
pub proof fn lemma_resolution_keeps_type(
    d: DirectorView<()>,
    s: DirectorView<SelfResolverView>,
    type_: TypeView,
    span: Span,
)
    requires
        !s.reducer.receivers.contains("self"@),
        walk_type::<Canonicalizer>(d, type_, span) == (d, Ok::<TypeView, CanonicalizeError>(type_)),
    ensures
        walk_type::<SelfResolver>(s, type_, span).1 matches Ok(resolved) ==>
            walk_type::<Canonicalizer>(d, resolved, span) == (
            d,
            Ok::<TypeView, CanonicalizeError>(resolved),
        ),
    decreases type_,
{
    match type_ {
        TypeView::Array(f0, f1) => {
            lemma_settled_type(d, *f0, span);
            lemma_array_shape(d, *f0, span);
            let element = walk_type::<Canonicalizer>(d, *f0, span).1->Ok_0;
            match element {
                TypeView::Array(inner, inner_dimensions) => {
                    assert((f1 + inner_dimensions).len() == f1.len() + inner_dimensions.len());
                    assert(false);
                },
                _ => {},
            }
            assert(element == *f0);
            lemma_resolution_settled_type(s, *f0, span);
            lemma_resolution_keeps_type(d, s, *f0, span);
        },
        TypeView::Tuple(f0) => {
            lemma_settled_types(d, f0, span);
            lemma_resolution_settled_types(s, f0, span);
            lemma_resolution_keeps_types(d, s, f0, span);
        },
        TypeView::Circuit(f0) => {
            lemma_settled_identifier(d, f0);
            lemma_resolution_settled_identifier(s, f0);
            lemma_resolution_keeps_identifier(d, s, f0);
        },
        TypeView::SelfType => {
            let name = IdentifierView { name: s.reducer.circuit_name, span };
            lemma_settled_identifier(d, name);
        },
        _ => {},
    }
}

/// The resolution of the receiver keeps an expression settled.
pub proof fn lemma_resolution_keeps_expression(
    d: DirectorView<()>,
    s: DirectorView<SelfResolverView>,
    expression: ExpressionView,
)
    requires
        !s.reducer.receivers.contains("self"@),
        walk_expression::<Canonicalizer>(d, expression) ==
            (d, Ok::<ExpressionView, CanonicalizeError>(expression)),
    ensures
        walk_expression::<SelfResolver>(s, expression).1 matches Ok(resolved) ==>
            walk_expression::<Canonicalizer>(d, resolved) == (
            d,
            Ok::<ExpressionView, CanonicalizeError>(resolved),
        ),
    decreases expression,
{
    match expression {
        ExpressionView::Identifier(f0) => {
            lemma_settled_identifier(d, f0);
            lemma_resolution_settled_identifier(s, f0);
            lemma_resolution_keeps_identifier(d, s, f0);
            let name = resolved_identifier(s.reducer, f0);
            lemma_settled_identifier(d, name);
            if s.reducer.receivers.contains(name.name) {
                let receiver = IdentifierView { name: "self"@, span: name.span };
                let access = CircuitMemberAccessExpressionView {
                    circuit: Box::new(ExpressionView::Identifier(receiver)),
                    name,
                    span: name.span,
                };
                lemma_settled_identifier(d, receiver);
                assert(walk_expression::<Canonicalizer>(d, ExpressionView::Identifier(receiver)) ==
                    (
                    d,
                    Ok::<ExpressionView, CanonicalizeError>(ExpressionView::Identifier(receiver)),
                ));
                assert(walk_circuit_member_access::<Canonicalizer>(d, access) == (
                    d,
                    Ok::<CircuitMemberAccessExpressionView, CanonicalizeError>(access),
                ));
            }
        },
        ExpressionView::Value(f0) => {
            lemma_settled_value(d, f0);
            lemma_resolution_settled_value(s, f0);
            lemma_resolution_keeps_value(d, s, f0);
        },
        ExpressionView::Binary(f0) => {
            lemma_settled_binary(d, f0);
            lemma_resolution_settled_binary(s, f0);
            lemma_resolution_keeps_binary(d, s, f0);
        },
        ExpressionView::Unary(f0) => {
            lemma_settled_unary(d, f0);
            lemma_resolution_settled_unary(s, f0);
            lemma_resolution_keeps_unary(d, s, f0);
        },
        ExpressionView::Ternary(f0) => {
            lemma_settled_ternary(d, f0);
            lemma_resolution_settled_ternary(s, f0);
            lemma_resolution_keeps_ternary(d, s, f0);
        },
        ExpressionView::Cast(f0) => {
            lemma_settled_cast(d, f0);
            lemma_resolution_settled_cast(s, f0);
            lemma_resolution_keeps_cast(d, s, f0);
        },
        ExpressionView::ArrayInline(f0) => {
            lemma_settled_array_inline(d, f0);
            lemma_resolution_settled_array_inline(s, f0);
            lemma_resolution_keeps_array_inline(d, s, f0);
        },
        ExpressionView::ArrayInit(f0) => {
            lemma_settled_array_init(d, f0);
            lemma_resolution_settled_array_init(s, f0);
            lemma_resolution_keeps_array_init(d, s, f0);
        },
        ExpressionView::ArrayAccess(f0) => {
            lemma_settled_array_access(d, f0);
            lemma_resolution_settled_array_access(s, f0);
            lemma_resolution_keeps_array_access(d, s, f0);
        },
        ExpressionView::ArrayRangeAccess(f0) => {
            lemma_settled_array_range_access(d, f0);
            lemma_resolution_settled_array_range_access(s, f0);
            lemma_resolution_keeps_array_range_access(d, s, f0);
        },
        ExpressionView::TupleInit(f0) => {
            lemma_settled_tuple_init(d, f0);
            lemma_resolution_settled_tuple_init(s, f0);
            lemma_resolution_keeps_tuple_init(d, s, f0);
        },
        ExpressionView::TupleAccess(f0) => {
            lemma_settled_tuple_access(d, f0);
            lemma_resolution_settled_tuple_access(s, f0);
            lemma_resolution_keeps_tuple_access(d, s, f0);
        },
        ExpressionView::CircuitInit(f0) => {
            lemma_settled_circuit_init(d, f0);
            lemma_resolution_settled_circuit_init(s, f0);
            lemma_resolution_keeps_circuit_init(d, s, f0);
        },
        ExpressionView::CircuitMemberAccess(f0) => {
            lemma_settled_circuit_member_access(d, f0);
            lemma_resolution_settled_circuit_member_access(s, f0);
            lemma_resolution_keeps_circuit_member_access(d, s, f0);
        },
        ExpressionView::CircuitStaticFunctionAccess(f0) => {
            lemma_settled_circuit_static_fn_access(d, f0);
            lemma_resolution_settled_circuit_static_fn_access(s, f0);
            lemma_resolution_keeps_circuit_static_fn_access(d, s, f0);
        },
        ExpressionView::Call(f0) => {
            lemma_settled_call(d, f0);
            lemma_resolution_settled_call(s, f0);
            lemma_resolution_keeps_call(d, s, f0);
        },
    }
}

/// The resolution of the receiver keeps an identifier settled.
pub proof fn lemma_resolution_keeps_identifier(
    d: DirectorView<()>,
    s: DirectorView<SelfResolverView>,
    identifier: IdentifierView,
)
    requires
        !s.reducer.receivers.contains("self"@),
        walk_identifier::<Canonicalizer>(d, identifier) ==
            (d, Ok::<IdentifierView, CanonicalizeError>(identifier)),
    ensures
        walk_identifier::<SelfResolver>(s, identifier).1 matches Ok(resolved) ==>
            walk_identifier::<Canonicalizer>(d, resolved) == (
            d,
            Ok::<IdentifierView, CanonicalizeError>(resolved),
        ),
    decreases identifier,
{
}

/// The resolution of the receiver keeps a group tuple settled.
pub proof fn lemma_resolution_keeps_group_tuple(
    d: DirectorView<()>,
    s: DirectorView<SelfResolverView>,
    group_tuple: GroupTupleView,
)
    requires
        !s.reducer.receivers.contains("self"@),
        walk_group_tuple::<Canonicalizer>(d, group_tuple) ==
            (d, Ok::<GroupTupleView, CanonicalizeError>(group_tuple)),
    ensures
        walk_group_tuple::<SelfResolver>(s, group_tuple).1 matches Ok(resolved) ==>
            walk_group_tuple::<Canonicalizer>(d, resolved) == (
            d,
            Ok::<GroupTupleView, CanonicalizeError>(resolved),
        ),
    decreases group_tuple,
{
}

/// The resolution of the receiver keeps a group value settled.
pub proof fn lemma_resolution_keeps_group_value(
    d: DirectorView<()>,
    s: DirectorView<SelfResolverView>,
    group_value: GroupValueView,
)
    requires
        !s.reducer.receivers.contains("self"@),
        walk_group_value::<Canonicalizer>(d, group_value) ==
            (d, Ok::<GroupValueView, CanonicalizeError>(group_value)),
    ensures
        walk_group_value::<SelfResolver>(s, group_value).1 matches Ok(resolved) ==>
            walk_group_value::<Canonicalizer>(d, resolved) == (
            d,
            Ok::<GroupValueView, CanonicalizeError>(resolved),
        ),
    decreases group_value,
{
    match group_value {
        GroupValueView::Tuple(f0) => {
            lemma_settled_group_tuple(d, f0);
            lemma_resolution_settled_group_tuple(s, f0);
            lemma_resolution_keeps_group_tuple(d, s, f0);
        },
        _ => {},
    }
}

/// The resolution of the receiver keeps a literal value settled.
pub proof fn lemma_resolution_keeps_value(
    d: DirectorView<()>,
    s: DirectorView<SelfResolverView>,
    value: ValueExpressionView,
)
    requires
        !s.reducer.receivers.contains("self"@),
        walk_value::<Canonicalizer>(d, value) ==
            (d, Ok::<ValueExpressionView, CanonicalizeError>(value)),
    ensures
        walk_value::<SelfResolver>(s, value).1 matches Ok(resolved) ==>
            walk_value::<Canonicalizer>(d, resolved) == (
            d,
            Ok::<ValueExpressionView, CanonicalizeError>(resolved),
        ),
    decreases value,
{
    match value {
        ValueExpressionView::Group(f0) => {
            lemma_settled_group_value(d, *f0);
            lemma_resolution_settled_group_value(s, *f0);
            lemma_resolution_keeps_group_value(d, s, *f0);
        },
        _ => {},
    }
}

/// The resolution of the receiver keeps a binary expression settled.
pub proof fn lemma_resolution_keeps_binary(
    d: DirectorView<()>,
    s: DirectorView<SelfResolverView>,
    binary: BinaryExpressionView,
)
    requires
        !s.reducer.receivers.contains("self"@),
        walk_binary::<Canonicalizer>(d, binary) ==
            (d, Ok::<BinaryExpressionView, CanonicalizeError>(binary)),
    ensures
        walk_binary::<SelfResolver>(s, binary).1 matches Ok(resolved) ==>
            walk_binary::<Canonicalizer>(d, resolved) == (
            d,
            Ok::<BinaryExpressionView, CanonicalizeError>(resolved),
        ),
    decreases binary,
{
    lemma_settled_expression(d, *binary.left);
    lemma_resolution_settled_expression(s, *binary.left);
    lemma_resolution_keeps_expression(d, s, *binary.left);
    lemma_settled_expression(d, *binary.right);
    lemma_resolution_settled_expression(s, *binary.right);
    lemma_resolution_keeps_expression(d, s, *binary.right);
}

/// The resolution of the receiver keeps a unary expression settled.
pub proof fn lemma_resolution_keeps_unary(
    d: DirectorView<()>,
    s: DirectorView<SelfResolverView>,
    unary: UnaryExpressionView,
)
    requires
        !s.reducer.receivers.contains("self"@),
        walk_unary::<Canonicalizer>(d, unary) ==
            (d, Ok::<UnaryExpressionView, CanonicalizeError>(unary)),
    ensures
        walk_unary::<SelfResolver>(s, unary).1 matches Ok(resolved) ==>
            walk_unary::<Canonicalizer>(d, resolved) == (
            d,
            Ok::<UnaryExpressionView, CanonicalizeError>(resolved),
        ),
    decreases unary,
{
    lemma_settled_expression(d, *unary.inner);
    lemma_resolution_settled_expression(s, *unary.inner);
    lemma_resolution_keeps_expression(d, s, *unary.inner);
}

/// The resolution of the receiver keeps a ternary expression settled.
pub proof fn lemma_resolution_keeps_ternary(
    d: DirectorView<()>,
    s: DirectorView<SelfResolverView>,
    ternary: TernaryExpressionView,
)
    requires
        !s.reducer.receivers.contains("self"@),
        walk_ternary::<Canonicalizer>(d, ternary) ==
            (d, Ok::<TernaryExpressionView, CanonicalizeError>(ternary)),
    ensures
        walk_ternary::<SelfResolver>(s, ternary).1 matches Ok(resolved) ==>
            walk_ternary::<Canonicalizer>(d, resolved) == (
            d,
            Ok::<TernaryExpressionView, CanonicalizeError>(resolved),
        ),
    decreases ternary,
{
    lemma_settled_expression(d, *ternary.condition);
    lemma_resolution_settled_expression(s, *ternary.condition);
    lemma_resolution_keeps_expression(d, s, *ternary.condition);
    lemma_settled_expression(d, *ternary.if_true);
    lemma_resolution_settled_expression(s, *ternary.if_true);
    lemma_resolution_keeps_expression(d, s, *ternary.if_true);
    lemma_settled_expression(d, *ternary.if_false);
    lemma_resolution_settled_expression(s, *ternary.if_false);
    lemma_resolution_keeps_expression(d, s, *ternary.if_false);
}

/// The resolution of the receiver keeps a cast settled.
pub proof fn lemma_resolution_keeps_cast(
    d: DirectorView<()>,
    s: DirectorView<SelfResolverView>,
    cast: CastExpressionView,
)
    requires
        !s.reducer.receivers.contains("self"@),
        walk_cast::<Canonicalizer>(d, cast) ==
            (d, Ok::<CastExpressionView, CanonicalizeError>(cast)),
    ensures
        walk_cast::<SelfResolver>(s, cast).1 matches Ok(resolved) ==>
            walk_cast::<Canonicalizer>(d, resolved) == (
            d,
            Ok::<CastExpressionView, CanonicalizeError>(resolved),
        ),
    decreases cast,
{
    lemma_settled_expression(d, *cast.inner);
    lemma_resolution_settled_expression(s, *cast.inner);
    lemma_resolution_keeps_expression(d, s, *cast.inner);
    lemma_settled_type(d, cast.target_type, cast.span);
    lemma_resolution_settled_type(s, cast.target_type, cast.span);
    lemma_resolution_keeps_type(d, s, cast.target_type, cast.span);
}

/// The resolution of the receiver keeps an element of an inline array settled.
pub proof fn lemma_resolution_keeps_spread_or_expression(
    d: DirectorView<()>,
    s: DirectorView<SelfResolverView>,
    element: SpreadOrExpressionView,
)
    requires
        !s.reducer.receivers.contains("self"@),
        walk_spread_or_expression::<Canonicalizer>(d, element) ==
            (d, Ok::<SpreadOrExpressionView, CanonicalizeError>(element)),
    ensures
        walk_spread_or_expression::<SelfResolver>(s, element).1 matches Ok(resolved) ==>
            walk_spread_or_expression::<Canonicalizer>(d, resolved) == (
            d,
            Ok::<SpreadOrExpressionView, CanonicalizeError>(resolved),
        ),
    decreases element,
{
    match element {
        SpreadOrExpressionView::Spread(f0) => {
            lemma_settled_expression(d, f0);
            lemma_resolution_settled_expression(s, f0);
            lemma_resolution_keeps_expression(d, s, f0);
        },
        SpreadOrExpressionView::Expression(f0) => {
            lemma_settled_expression(d, f0);
            lemma_resolution_settled_expression(s, f0);
            lemma_resolution_keeps_expression(d, s, f0);
        },
    }
}

/// The resolution of the receiver keeps an inline array settled.
pub proof fn lemma_resolution_keeps_array_inline(
    d: DirectorView<()>,
    s: DirectorView<SelfResolverView>,
    array_inline: ArrayInlineExpressionView,
)
    requires
        !s.reducer.receivers.contains("self"@),
        walk_array_inline::<Canonicalizer>(d, array_inline) ==
            (d, Ok::<ArrayInlineExpressionView, CanonicalizeError>(array_inline)),
    ensures
        walk_array_inline::<SelfResolver>(s, array_inline).1 matches Ok(resolved) ==>
            walk_array_inline::<Canonicalizer>(d, resolved) == (
            d,
            Ok::<ArrayInlineExpressionView, CanonicalizeError>(resolved),
        ),
    decreases array_inline,
{
    lemma_settled_spread_or_expressions(d, array_inline.elements);
    lemma_resolution_settled_spread_or_expressions(s, array_inline.elements);
    lemma_resolution_keeps_spread_or_expressions(d, s, array_inline.elements);
}

/// The resolution of the receiver keeps an array initialiser settled.
pub proof fn lemma_resolution_keeps_array_init(
    d: DirectorView<()>,
    s: DirectorView<SelfResolverView>,
    array_init: ArrayInitExpressionView,
)
    requires
        !s.reducer.receivers.contains("self"@),
        walk_array_init::<Canonicalizer>(d, array_init) ==
            (d, Ok::<ArrayInitExpressionView, CanonicalizeError>(array_init)),
    ensures
        walk_array_init::<SelfResolver>(s, array_init).1 matches Ok(resolved) ==>
            walk_array_init::<Canonicalizer>(d, resolved) == (
            d,
            Ok::<ArrayInitExpressionView, CanonicalizeError>(resolved),
        ),
    decreases array_init,
{
    lemma_settled_expression(d, *array_init.element);
    let element = walk_expression::<Canonicalizer>(d, *array_init.element).1->Ok_0;
    assert(valid_dimensions(array_init.dimensions));
    if array_init.dimensions.len() > 1 {
        assert(nested_init(element, array_init.dimensions, array_init.span).dimensions.len() == 1);
        assert(false);
    }
    assert(element == *array_init.element);
    lemma_resolution_settled_expression(s, *array_init.element);
    lemma_resolution_keeps_expression(d, s, *array_init.element);
    match walk_expression::<SelfResolver>(s, *array_init.element).1 {
        Ok(resolved) => {
            let node = ArrayInitExpressionView {
                element: Box::new(resolved),
                dimensions: array_init.dimensions,
                span: array_init.span,
            };
            assert(nested_init(resolved, array_init.dimensions, array_init.span) == node);
        },
        Err(_) => {},
    }
}

/// The resolution of the receiver keeps an array access settled.
pub proof fn lemma_resolution_keeps_array_access(
    d: DirectorView<()>,
    s: DirectorView<SelfResolverView>,
    array_access: ArrayAccessExpressionView,
)
    requires
        !s.reducer.receivers.contains("self"@),
        walk_array_access::<Canonicalizer>(d, array_access) ==
            (d, Ok::<ArrayAccessExpressionView, CanonicalizeError>(array_access)),
    ensures
        walk_array_access::<SelfResolver>(s, array_access).1 matches Ok(resolved) ==>
            walk_array_access::<Canonicalizer>(d, resolved) == (
            d,
            Ok::<ArrayAccessExpressionView, CanonicalizeError>(resolved),
        ),
    decreases array_access,
{
    lemma_settled_expression(d, *array_access.array);
    lemma_resolution_settled_expression(s, *array_access.array);
    lemma_resolution_keeps_expression(d, s, *array_access.array);
    lemma_settled_expression(d, *array_access.index);
    lemma_resolution_settled_expression(s, *array_access.index);
    lemma_resolution_keeps_expression(d, s, *array_access.index);
}

/// The resolution of the receiver keeps an array range access settled.
pub proof fn lemma_resolution_keeps_array_range_access(
    d: DirectorView<()>,
    s: DirectorView<SelfResolverView>,
    array_range_access: ArrayRangeAccessExpressionView,
)
    requires
        !s.reducer.receivers.contains("self"@),
        walk_array_range_access::<Canonicalizer>(d, array_range_access) ==
            (d, Ok::<ArrayRangeAccessExpressionView, CanonicalizeError>(array_range_access)),
    ensures
        walk_array_range_access::<SelfResolver>(s, array_range_access).1 matches Ok(resolved) ==>
            walk_array_range_access::<Canonicalizer>(d, resolved) == (
            d,
            Ok::<ArrayRangeAccessExpressionView, CanonicalizeError>(resolved),
        ),
    decreases array_range_access,
{
    lemma_settled_expression(d, *array_range_access.array);
    lemma_resolution_settled_expression(s, *array_range_access.array);
    lemma_resolution_keeps_expression(d, s, *array_range_access.array);
    match array_range_access.left {
        Some(v) => {
            lemma_settled_expression(d, *v);
            lemma_resolution_settled_expression(s, *v);
            lemma_resolution_keeps_expression(d, s, *v);
        },
        None => {},
    }
    match array_range_access.right {
        Some(v) => {
            lemma_settled_expression(d, *v);
            lemma_resolution_settled_expression(s, *v);
            lemma_resolution_keeps_expression(d, s, *v);
        },
        None => {},
    }
}

/// The resolution of the receiver keeps a tuple initialiser settled.
pub proof fn lemma_resolution_keeps_tuple_init(
    d: DirectorView<()>,
    s: DirectorView<SelfResolverView>,
    tuple_init: TupleInitExpressionView,
)
    requires
        !s.reducer.receivers.contains("self"@),
        walk_tuple_init::<Canonicalizer>(d, tuple_init) ==
            (d, Ok::<TupleInitExpressionView, CanonicalizeError>(tuple_init)),
    ensures
        walk_tuple_init::<SelfResolver>(s, tuple_init).1 matches Ok(resolved) ==>
            walk_tuple_init::<Canonicalizer>(d, resolved) == (
            d,
            Ok::<TupleInitExpressionView, CanonicalizeError>(resolved),
        ),
    decreases tuple_init,
{
    lemma_settled_expressions(d, tuple_init.elements);
    lemma_resolution_settled_expressions(s, tuple_init.elements);
    lemma_resolution_keeps_expressions(d, s, tuple_init.elements);
}

/// The resolution of the receiver keeps a tuple access settled.
pub proof fn lemma_resolution_keeps_tuple_access(
    d: DirectorView<()>,
    s: DirectorView<SelfResolverView>,
    tuple_access: TupleAccessExpressionView,
)
    requires
        !s.reducer.receivers.contains("self"@),
        walk_tuple_access::<Canonicalizer>(d, tuple_access) ==
            (d, Ok::<TupleAccessExpressionView, CanonicalizeError>(tuple_access)),
    ensures
        walk_tuple_access::<SelfResolver>(s, tuple_access).1 matches Ok(resolved) ==>
            walk_tuple_access::<Canonicalizer>(d, resolved) == (
            d,
            Ok::<TupleAccessExpressionView, CanonicalizeError>(resolved),
        ),
    decreases tuple_access,
{
    lemma_settled_expression(d, *tuple_access.tuple);
    lemma_resolution_settled_expression(s, *tuple_access.tuple);
    lemma_resolution_keeps_expression(d, s, *tuple_access.tuple);
}

/// The resolution of the receiver keeps a member of a circuit initialiser settled.
pub proof fn lemma_resolution_keeps_circuit_implied_variable_definition(
    d: DirectorView<()>,
    s: DirectorView<SelfResolverView>,
    variable: CircuitImpliedVariableDefinitionView,
)
    requires
        !s.reducer.receivers.contains("self"@),
        walk_circuit_implied_variable_definition::<Canonicalizer>(d, variable) ==
            (d, Ok::<CircuitImpliedVariableDefinitionView, CanonicalizeError>(variable)),
    ensures
        walk_circuit_implied_variable_definition::<SelfResolver>(s, variable).1 matches Ok(resolved) ==>
            walk_circuit_implied_variable_definition::<Canonicalizer>(d, resolved) == (
            d,
            Ok::<CircuitImpliedVariableDefinitionView, CanonicalizeError>(resolved),
        ),
    decreases variable,
{
    lemma_settled_identifier(d, variable.identifier);
    lemma_resolution_settled_identifier(s, variable.identifier);
    lemma_resolution_keeps_identifier(d, s, variable.identifier);
    match variable.expression {
        Some(v) => {
            lemma_settled_expression(d, v);
            lemma_resolution_settled_expression(s, v);
            lemma_resolution_keeps_expression(d, s, v);
        },
        None => {},
    }
}

/// The resolution of the receiver keeps a circuit initialiser settled.
pub proof fn lemma_resolution_keeps_circuit_init(
    d: DirectorView<()>,
    s: DirectorView<SelfResolverView>,
    circuit_init: CircuitInitExpressionView,
)
    requires
        !s.reducer.receivers.contains("self"@),
        walk_circuit_init::<Canonicalizer>(d, circuit_init) ==
            (d, Ok::<CircuitInitExpressionView, CanonicalizeError>(circuit_init)),
    ensures
        walk_circuit_init::<SelfResolver>(s, circuit_init).1 matches Ok(resolved) ==>
            walk_circuit_init::<Canonicalizer>(d, resolved) == (
            d,
            Ok::<CircuitInitExpressionView, CanonicalizeError>(resolved),
        ),
    decreases circuit_init,
{
    lemma_settled_identifier(d, circuit_init.name);
    lemma_resolution_settled_identifier(s, circuit_init.name);
    lemma_resolution_keeps_identifier(d, s, circuit_init.name);
    lemma_settled_circuit_implied_variable_definitions(d, circuit_init.members);
    lemma_resolution_settled_circuit_implied_variable_definitions(s, circuit_init.members);
    lemma_resolution_keeps_circuit_implied_variable_definitions(d, s, circuit_init.members);
    lemma_settled_identifier(d, resolved_identifier(s.reducer, circuit_init.name));
}

/// The resolution of the receiver keeps a circuit member access settled.
pub proof fn lemma_resolution_keeps_circuit_member_access(
    d: DirectorView<()>,
    s: DirectorView<SelfResolverView>,
    circuit_member_access: CircuitMemberAccessExpressionView,
)
    requires
        !s.reducer.receivers.contains("self"@),
        walk_circuit_member_access::<Canonicalizer>(d, circuit_member_access) ==
            (d, Ok::<CircuitMemberAccessExpressionView, CanonicalizeError>(circuit_member_access)),
    ensures
        walk_circuit_member_access::<SelfResolver>(s, circuit_member_access).1 matches Ok(resolved) ==>
            walk_circuit_member_access::<Canonicalizer>(d, resolved) == (
            d,
            Ok::<CircuitMemberAccessExpressionView, CanonicalizeError>(resolved),
        ),
    decreases circuit_member_access,
{
    lemma_settled_expression(d, *circuit_member_access.circuit);
    lemma_resolution_settled_expression(s, *circuit_member_access.circuit);
    lemma_resolution_keeps_expression(d, s, *circuit_member_access.circuit);
    lemma_settled_identifier(d, circuit_member_access.name);
    lemma_resolution_settled_identifier(s, circuit_member_access.name);
    lemma_resolution_keeps_identifier(d, s, circuit_member_access.name);
}

/// The resolution of the receiver keeps a static function access settled.
pub proof fn lemma_resolution_keeps_circuit_static_fn_access(
    d: DirectorView<()>,
    s: DirectorView<SelfResolverView>,
    circuit_static_fn_access: CircuitStaticFunctionAccessExpressionView,
)
    requires
        !s.reducer.receivers.contains("self"@),
        walk_circuit_static_fn_access::<Canonicalizer>(d, circuit_static_fn_access) ==
            (d, Ok::<CircuitStaticFunctionAccessExpressionView, CanonicalizeError>(circuit_static_fn_access)),
    ensures
        walk_circuit_static_fn_access::<SelfResolver>(s, circuit_static_fn_access).1 matches Ok(resolved) ==>
            walk_circuit_static_fn_access::<Canonicalizer>(d, resolved) == (
            d,
            Ok::<CircuitStaticFunctionAccessExpressionView, CanonicalizeError>(resolved),
        ),
    decreases circuit_static_fn_access,
{
    lemma_settled_expression(d, *circuit_static_fn_access.circuit);
    lemma_resolution_settled_expression(s, *circuit_static_fn_access.circuit);
    lemma_resolution_keeps_expression(d, s, *circuit_static_fn_access.circuit);
    lemma_settled_identifier(d, circuit_static_fn_access.name);
    lemma_resolution_settled_identifier(s, circuit_static_fn_access.name);
    lemma_resolution_keeps_identifier(d, s, circuit_static_fn_access.name);
}

/// The resolution of the receiver keeps a call settled.
pub proof fn lemma_resolution_keeps_call(
    d: DirectorView<()>,
    s: DirectorView<SelfResolverView>,
    call: CallExpressionView,
)
    requires
        !s.reducer.receivers.contains("self"@),
        walk_call::<Canonicalizer>(d, call) ==
            (d, Ok::<CallExpressionView, CanonicalizeError>(call)),
    ensures
        walk_call::<SelfResolver>(s, call).1 matches Ok(resolved) ==>
            walk_call::<Canonicalizer>(d, resolved) == (
            d,
            Ok::<CallExpressionView, CanonicalizeError>(resolved),
        ),
    decreases call,
{
    lemma_settled_expression(d, *call.function);
    lemma_resolution_settled_expression(s, *call.function);
    lemma_resolution_keeps_expression(d, s, *call.function);
    lemma_settled_expressions(d, call.arguments);
    lemma_resolution_settled_expressions(s, call.arguments);
    lemma_resolution_keeps_expressions(d, s, call.arguments);
}

/// The resolution of the receiver keeps a statement settled.
pub proof fn lemma_resolution_keeps_statement(
    d: DirectorView<()>,
    s: DirectorView<SelfResolverView>,
    statement: StatementView,
)
    requires
        !s.reducer.receivers.contains("self"@),
        walk_statement::<Canonicalizer>(d, statement) ==
            (d, Ok::<StatementView, CanonicalizeError>(statement)),
    ensures
        walk_statement::<SelfResolver>(s, statement).1 matches Ok(resolved) ==>
            walk_statement::<Canonicalizer>(d, resolved) == (
            d,
            Ok::<StatementView, CanonicalizeError>(resolved),
        ),
    decreases statement,
{
    match statement {
        StatementView::Return(f0) => {
            lemma_settled_return(d, f0);
            lemma_resolution_settled_return(s, f0);
            lemma_resolution_keeps_return(d, s, f0);
        },
        StatementView::Definition(f0) => {
            lemma_settled_definition(d, f0);
            lemma_resolution_settled_definition(s, f0);
            lemma_resolution_keeps_definition(d, s, f0);
        },
        StatementView::Assign(f0) => {
            lemma_settled_assign(d, f0);
            lemma_resolution_settled_assign(s, f0);
            lemma_resolution_keeps_assign(d, s, f0);
        },
        StatementView::Conditional(f0) => {
            lemma_settled_conditional(d, f0);
            lemma_resolution_settled_conditional(s, f0);
            lemma_resolution_keeps_conditional(d, s, f0);
        },
        StatementView::Iteration(f0) => {
            lemma_settled_iteration(d, f0);
            lemma_resolution_settled_iteration(s, f0);
            lemma_resolution_keeps_iteration(d, s, f0);
        },
        StatementView::Console(f0) => {
            lemma_settled_console(d, f0);
            lemma_resolution_settled_console(s, f0);
            lemma_resolution_keeps_console(d, s, f0);
        },
        StatementView::Expression(f0) => {
            lemma_settled_expression_statement(d, f0);
            lemma_resolution_settled_expression_statement(s, f0);
            lemma_resolution_keeps_expression_statement(d, s, f0);
        },
        StatementView::Block(f0) => {
            lemma_settled_block(d, f0);
            lemma_resolution_settled_block(s, f0);
            lemma_resolution_keeps_block(d, s, f0);
        },
    }
}

/// The resolution of the receiver keeps a return settled.
pub proof fn lemma_resolution_keeps_return(
    d: DirectorView<()>,
    s: DirectorView<SelfResolverView>,
    return_statement: ReturnStatementView,
)
    requires
        !s.reducer.receivers.contains("self"@),
        walk_return::<Canonicalizer>(d, return_statement) ==
            (d, Ok::<ReturnStatementView, CanonicalizeError>(return_statement)),
    ensures
        walk_return::<SelfResolver>(s, return_statement).1 matches Ok(resolved) ==>
            walk_return::<Canonicalizer>(d, resolved) == (
            d,
            Ok::<ReturnStatementView, CanonicalizeError>(resolved),
        ),
    decreases return_statement,
{
    lemma_settled_expression(d, return_statement.expression);
    lemma_resolution_settled_expression(s, return_statement.expression);
    lemma_resolution_keeps_expression(d, s, return_statement.expression);
}

/// The resolution of the receiver keeps a variable name settled.
pub proof fn lemma_resolution_keeps_variable_name(
    d: DirectorView<()>,
    s: DirectorView<SelfResolverView>,
    variable_name: VariableNameView,
)
    requires
        !s.reducer.receivers.contains("self"@),
        walk_variable_name::<Canonicalizer>(d, variable_name) ==
            (d, Ok::<VariableNameView, CanonicalizeError>(variable_name)),
    ensures
        walk_variable_name::<SelfResolver>(s, variable_name).1 matches Ok(resolved) ==>
            walk_variable_name::<Canonicalizer>(d, resolved) == (
            d,
            Ok::<VariableNameView, CanonicalizeError>(resolved),
        ),
    decreases variable_name,
{
    lemma_settled_identifier(d, variable_name.identifier);
    lemma_resolution_settled_identifier(s, variable_name.identifier);
    lemma_resolution_keeps_identifier(d, s, variable_name.identifier);
}

/// The resolution of the receiver keeps a definition settled.
pub proof fn lemma_resolution_keeps_definition(
    d: DirectorView<()>,
    s: DirectorView<SelfResolverView>,
    definition: DefinitionStatementView,
)
    requires
        !s.reducer.receivers.contains("self"@),
        walk_definition::<Canonicalizer>(d, definition) ==
            (d, Ok::<DefinitionStatementView, CanonicalizeError>(definition)),
    ensures
        walk_definition::<SelfResolver>(s, definition).1 matches Ok(resolved) ==>
            walk_definition::<Canonicalizer>(d, resolved) == (
            d,
            Ok::<DefinitionStatementView, CanonicalizeError>(resolved),
        ),
    decreases definition,
{
    lemma_settled_variable_names(d, definition.variable_names);
    lemma_resolution_settled_variable_names(s, definition.variable_names);
    lemma_resolution_keeps_variable_names(d, s, definition.variable_names);
    match definition.type_ {
        Some(v) => {
            lemma_settled_type(d, v, definition.span);
            lemma_resolution_settled_type(s, v, definition.span);
            lemma_resolution_keeps_type(d, s, v, definition.span);
        },
        None => {},
    }
    lemma_settled_expression(d, definition.value);
    lemma_resolution_settled_expression(s, definition.value);
    lemma_resolution_keeps_expression(d, s, definition.value);
}

/// The resolution of the receiver keeps an assignee access settled.
pub proof fn lemma_resolution_keeps_assignee_access(
    d: DirectorView<()>,
    s: DirectorView<SelfResolverView>,
    access: AssigneeAccessView,
)
    requires
        !s.reducer.receivers.contains("self"@),
        walk_assignee_access::<Canonicalizer>(d, access) ==
            (d, Ok::<AssigneeAccessView, CanonicalizeError>(access)),
    ensures
        walk_assignee_access::<SelfResolver>(s, access).1 matches Ok(resolved) ==>
            walk_assignee_access::<Canonicalizer>(d, resolved) == (
            d,
            Ok::<AssigneeAccessView, CanonicalizeError>(resolved),
        ),
    decreases access,
{
    match access {
        AssigneeAccessView::ArrayRange(f0, f1) => {
            match f0 {
                Some(v) => {
                    lemma_settled_expression(d, v);
                    lemma_resolution_settled_expression(s, v);
                    lemma_resolution_keeps_expression(d, s, v);
                },
                None => {},
            }
            match f1 {
                Some(v) => {
                    lemma_settled_expression(d, v);
                    lemma_resolution_settled_expression(s, v);
                    lemma_resolution_keeps_expression(d, s, v);
                },
                None => {},
            }
        },
        AssigneeAccessView::ArrayIndex(f0) => {
            lemma_settled_expression(d, f0);
            lemma_resolution_settled_expression(s, f0);
            lemma_resolution_keeps_expression(d, s, f0);
        },
        AssigneeAccessView::Member(f0) => {
            lemma_settled_identifier(d, f0);
            lemma_resolution_settled_identifier(s, f0);
            lemma_resolution_keeps_identifier(d, s, f0);
        },
        _ => {},
    }
}

/// The resolution of the receiver keeps an assignee settled.
pub proof fn lemma_resolution_keeps_assignee(
    d: DirectorView<()>,
    s: DirectorView<SelfResolverView>,
    assignee: AssigneeView,
)
    requires
        !s.reducer.receivers.contains("self"@),
        walk_assignee::<Canonicalizer>(d, assignee) ==
            (d, Ok::<AssigneeView, CanonicalizeError>(assignee)),
    ensures
        walk_assignee::<SelfResolver>(s, assignee).1 matches Ok(resolved) ==>
            walk_assignee::<Canonicalizer>(d, resolved) == (
            d,
            Ok::<AssigneeView, CanonicalizeError>(resolved),
        ),
    decreases assignee,
{
    lemma_settled_identifier(d, assignee.identifier);
    lemma_resolution_settled_identifier(s, assignee.identifier);
    lemma_resolution_keeps_identifier(d, s, assignee.identifier);
    lemma_settled_assignee_accesses(d, assignee.accesses);
    lemma_resolution_settled_assignee_accesses(s, assignee.accesses);
    lemma_resolution_keeps_assignee_accesses(d, s, assignee.accesses);
}

/// The resolution of the receiver keeps an assignment settled.
pub proof fn lemma_resolution_keeps_assign(
    d: DirectorView<()>,
    s: DirectorView<SelfResolverView>,
    assign: AssignStatementView,
)
    requires
        !s.reducer.receivers.contains("self"@),
        walk_assign::<Canonicalizer>(d, assign) ==
            (d, Ok::<AssignStatementView, CanonicalizeError>(assign)),
    ensures
        walk_assign::<SelfResolver>(s, assign).1 matches Ok(resolved) ==>
            walk_assign::<Canonicalizer>(d, resolved) == (
            d,
            Ok::<AssignStatementView, CanonicalizeError>(resolved),
        ),
    decreases assign,
{
    lemma_settled_assignee(d, assign.assignee);
    lemma_settled_expression(d, assign.value);
    assert(assign.operation == AssignOperation::Assign);
    lemma_resolution_settled_assignee(s, assign.assignee);
    lemma_resolution_settled_expression(s, assign.value);
    lemma_resolution_keeps_assignee(d, s, assign.assignee);
    lemma_resolution_keeps_expression(d, s, assign.value);
}

/// The resolution of the receiver keeps a conditional settled.
pub proof fn lemma_resolution_keeps_conditional(
    d: DirectorView<()>,
    s: DirectorView<SelfResolverView>,
    conditional: ConditionalStatementView,
)
    requires
        !s.reducer.receivers.contains("self"@),
        walk_conditional::<Canonicalizer>(d, conditional) ==
            (d, Ok::<ConditionalStatementView, CanonicalizeError>(conditional)),
    ensures
        walk_conditional::<SelfResolver>(s, conditional).1 matches Ok(resolved) ==>
            walk_conditional::<Canonicalizer>(d, resolved) == (
            d,
            Ok::<ConditionalStatementView, CanonicalizeError>(resolved),
        ),
    decreases conditional,
{
    lemma_settled_expression(d, conditional.condition);
    lemma_resolution_settled_expression(s, conditional.condition);
    lemma_resolution_keeps_expression(d, s, conditional.condition);
    lemma_settled_block(d, conditional.block);
    lemma_resolution_settled_block(s, conditional.block);
    lemma_resolution_keeps_block(d, s, conditional.block);
    match conditional.next {
        Some(v) => {
            lemma_settled_statement(d, *v);
            lemma_resolution_settled_statement(s, *v);
            lemma_resolution_keeps_statement(d, s, *v);
        },
        None => {},
    }
}

/// The resolution of the receiver keeps a loop settled.
pub proof fn lemma_resolution_keeps_iteration(
    d: DirectorView<()>,
    s: DirectorView<SelfResolverView>,
    iteration: IterationStatementView,
)
    requires
        !s.reducer.receivers.contains("self"@),
        walk_iteration::<Canonicalizer>(d, iteration) ==
            (d, Ok::<IterationStatementView, CanonicalizeError>(iteration)),
    ensures
        walk_iteration::<SelfResolver>(s, iteration).1 matches Ok(resolved) ==>
            walk_iteration::<Canonicalizer>(d, resolved) == (
            d,
            Ok::<IterationStatementView, CanonicalizeError>(resolved),
        ),
    decreases iteration,
{
    lemma_settled_identifier(d, iteration.variable);
    lemma_resolution_settled_identifier(s, iteration.variable);
    lemma_resolution_keeps_identifier(d, s, iteration.variable);
    lemma_settled_expression(d, iteration.start);
    lemma_resolution_settled_expression(s, iteration.start);
    lemma_resolution_keeps_expression(d, s, iteration.start);
    lemma_settled_expression(d, iteration.stop);
    lemma_resolution_settled_expression(s, iteration.stop);
    lemma_resolution_keeps_expression(d, s, iteration.stop);
    lemma_settled_block(d, iteration.block);
    lemma_resolution_settled_block(s, iteration.block);
    lemma_resolution_keeps_block(d, s, iteration.block);
}

/// The resolution of the receiver keeps a console statement settled.
pub proof fn lemma_resolution_keeps_console(
    d: DirectorView<()>,
    s: DirectorView<SelfResolverView>,
    console_function_call: ConsoleStatementView,
)
    requires
        !s.reducer.receivers.contains("self"@),
        walk_console::<Canonicalizer>(d, console_function_call) ==
            (d, Ok::<ConsoleStatementView, CanonicalizeError>(console_function_call)),
    ensures
        walk_console::<SelfResolver>(s, console_function_call).1 matches Ok(resolved) ==>
            walk_console::<Canonicalizer>(d, resolved) == (
            d,
            Ok::<ConsoleStatementView, CanonicalizeError>(resolved),
        ),
    decreases console_function_call,
{
    match console_function_call.function {
        ConsoleFunctionView::Assert(f0) => {
            lemma_settled_expression(d, f0);
            lemma_resolution_settled_expression(s, f0);
            lemma_resolution_keeps_expression(d, s, f0);
        },
        ConsoleFunctionView::Debug(f0) => {
            lemma_settled_expressions(d, f0.parameters);
            lemma_resolution_settled_expressions(s, f0.parameters);
            lemma_resolution_keeps_expressions(d, s, f0.parameters);
        },
        ConsoleFunctionView::Error(f0) => {
            lemma_settled_expressions(d, f0.parameters);
            lemma_resolution_settled_expressions(s, f0.parameters);
            lemma_resolution_keeps_expressions(d, s, f0.parameters);
        },
        ConsoleFunctionView::Log(f0) => {
            lemma_settled_expressions(d, f0.parameters);
            lemma_resolution_settled_expressions(s, f0.parameters);
            lemma_resolution_keeps_expressions(d, s, f0.parameters);
        },
    }
}

/// The resolution of the receiver keeps an expression statement settled.
pub proof fn lemma_resolution_keeps_expression_statement(
    d: DirectorView<()>,
    s: DirectorView<SelfResolverView>,
    expression_statement: ExpressionStatementView,
)
    requires
        !s.reducer.receivers.contains("self"@),
        walk_expression_statement::<Canonicalizer>(d, expression_statement) ==
            (d, Ok::<ExpressionStatementView, CanonicalizeError>(expression_statement)),
    ensures
        walk_expression_statement::<SelfResolver>(s, expression_statement).1 matches Ok(resolved) ==>
            walk_expression_statement::<Canonicalizer>(d, resolved) == (
            d,
            Ok::<ExpressionStatementView, CanonicalizeError>(resolved),
        ),
    decreases expression_statement,
{
    lemma_settled_expression(d, expression_statement.expression);
    lemma_resolution_settled_expression(s, expression_statement.expression);
    lemma_resolution_keeps_expression(d, s, expression_statement.expression);
}

/// The resolution of the receiver keeps a block settled.
pub proof fn lemma_resolution_keeps_block(
    d: DirectorView<()>,
    s: DirectorView<SelfResolverView>,
    block: BlockView,
)
    requires
        !s.reducer.receivers.contains("self"@),
        walk_block::<Canonicalizer>(d, block) == (d, Ok::<BlockView, CanonicalizeError>(block)),
    ensures
        walk_block::<SelfResolver>(s, block).1 matches Ok(resolved) ==>
            walk_block::<Canonicalizer>(d, resolved) == (
            d,
            Ok::<BlockView, CanonicalizeError>(resolved),
        ),
    decreases block,
{
    lemma_settled_statements(d, block.statements);
    lemma_resolution_settled_statements(s, block.statements);
    lemma_resolution_keeps_statements(d, s, block.statements);
}

/// The resolution of the receiver keeps an input variable of a function settled.
pub proof fn lemma_resolution_keeps_function_input_variable(
    d: DirectorView<()>,
    s: DirectorView<SelfResolverView>,
    variable: FunctionInputVariableView,
)
    requires
        !s.reducer.receivers.contains("self"@),
        walk_function_input_variable::<Canonicalizer>(d, variable) ==
            (d, Ok::<FunctionInputVariableView, CanonicalizeError>(variable)),
    ensures
        walk_function_input_variable::<SelfResolver>(s, variable).1 matches Ok(resolved) ==>
            walk_function_input_variable::<Canonicalizer>(d, resolved) == (
            d,
            Ok::<FunctionInputVariableView, CanonicalizeError>(resolved),
        ),
    decreases variable,
{
    lemma_settled_identifier(d, variable.identifier);
    lemma_resolution_settled_identifier(s, variable.identifier);
    lemma_resolution_keeps_identifier(d, s, variable.identifier);
    lemma_settled_type(d, variable.type_, variable.span);
    lemma_resolution_settled_type(s, variable.type_, variable.span);
    lemma_resolution_keeps_type(d, s, variable.type_, variable.span);
}

/// The resolution of the receiver keeps an input of a function settled.
pub proof fn lemma_resolution_keeps_function_input(
    d: DirectorView<()>,
    s: DirectorView<SelfResolverView>,
    input: FunctionInputView,
)
    requires
        !s.reducer.receivers.contains("self"@),
        walk_function_input::<Canonicalizer>(d, input) ==
            (d, Ok::<FunctionInputView, CanonicalizeError>(input)),
    ensures
        walk_function_input::<SelfResolver>(s, input).1 matches Ok(resolved) ==>
            walk_function_input::<Canonicalizer>(d, resolved) == (
            d,
            Ok::<FunctionInputView, CanonicalizeError>(resolved),
        ),
    decreases input,
{
    match input {
        FunctionInputView::Variable(f0) => {
            lemma_settled_function_input_variable(d, f0);
            lemma_resolution_settled_function_input_variable(s, f0);
            lemma_resolution_keeps_function_input_variable(d, s, f0);
        },
        _ => {},
    }
}

/// The resolution of the receiver keeps a member of a circuit settled.
pub proof fn lemma_resolution_keeps_circuit_member(
    d: DirectorView<()>,
    s: DirectorView<SelfResolverView>,
    circuit_member: CircuitMemberView,
)
    requires
        !s.reducer.receivers.contains("self"@),
        walk_circuit_member::<Canonicalizer>(d, circuit_member) ==
            (d, Ok::<CircuitMemberView, CanonicalizeError>(circuit_member)),
    ensures
        walk_circuit_member::<SelfResolver>(s, circuit_member).1 matches Ok(resolved) ==>
            walk_circuit_member::<Canonicalizer>(d, resolved) == (
            d,
            Ok::<CircuitMemberView, CanonicalizeError>(resolved),
        ),
    decreases circuit_member,
{
    let inner = DirectorView { reducer: d.reducer, in_circuit: !d.in_circuit };
    let within = DirectorView { reducer: s.reducer, in_circuit: !s.in_circuit };
    match circuit_member {
        CircuitMemberView::CircuitVariable(f0, f1) => {
            lemma_settled_identifier(inner, f0);
            lemma_resolution_settled_identifier(within, f0);
            lemma_resolution_keeps_identifier(inner, within, f0);
            lemma_settled_type(inner, f1, f0.span);
            lemma_resolution_settled_type(within, f1, f0.span);
            lemma_resolution_keeps_type(inner, within, f1, f0.span);
        },
        CircuitMemberView::CircuitFunction(f0) => {
            lemma_settled_function(inner, f0);
            lemma_resolution_settled_function(within, f0);
            lemma_resolution_keeps_function(inner, within, f0);
        },
    }
}

/// The resolution of the receiver keeps an annotation settled.
pub proof fn lemma_resolution_keeps_annotation(
    d: DirectorView<()>,
    s: DirectorView<SelfResolverView>,
    annotation: AnnotationView,
)
    requires
        !s.reducer.receivers.contains("self"@),
        walk_annotation::<Canonicalizer>(d, annotation) ==
            (d, Ok::<AnnotationView, CanonicalizeError>(annotation)),
    ensures
        walk_annotation::<SelfResolver>(s, annotation).1 matches Ok(resolved) ==>
            walk_annotation::<Canonicalizer>(d, resolved) == (
            d,
            Ok::<AnnotationView, CanonicalizeError>(resolved),
        ),
    decreases annotation,
{
    lemma_settled_identifier(d, annotation.name);
    lemma_resolution_settled_identifier(s, annotation.name);
    lemma_resolution_keeps_identifier(d, s, annotation.name);
}

/// The resolution of the receiver keeps a function settled.
pub proof fn lemma_resolution_keeps_function(
    d: DirectorView<()>,
    s: DirectorView<SelfResolverView>,
    function: FunctionView,
)
    requires
        !s.reducer.receivers.contains("self"@),
        walk_function::<Canonicalizer>(d, function) ==
            (d, Ok::<FunctionView, CanonicalizeError>(function)),
    ensures
        walk_function::<SelfResolver>(s, function).1 matches Ok(resolved) ==>
            walk_function::<Canonicalizer>(d, resolved) == (
            d,
            Ok::<FunctionView, CanonicalizeError>(resolved),
        ),
    decreases function,
{
    lemma_settled_identifier(d, function.identifier);
    lemma_resolution_settled_identifier(s, function.identifier);
    lemma_resolution_keeps_identifier(d, s, function.identifier);
    lemma_settled_annotations(d, function.annotations);
    lemma_resolution_settled_annotations(s, function.annotations);
    lemma_resolution_keeps_annotations(d, s, function.annotations);
    lemma_settled_function_inputs(d, function.input);
    lemma_resolution_settled_function_inputs(s, function.input);
    lemma_resolution_keeps_function_inputs(d, s, function.input);
    match function.output {
        Some(v) => {
            lemma_settled_type(d, v, function.span);
            lemma_resolution_settled_type(s, v, function.span);
            lemma_resolution_keeps_type(d, s, v, function.span);
        },
        None => {},
    }
    lemma_settled_block(d, function.block);
    lemma_resolution_settled_block(s, function.block);
    lemma_resolution_keeps_block(d, s, function.block);
}

/// The resolution of the receiver keeps a list settled.
pub proof fn lemma_resolution_keeps_types(
    d: DirectorView<()>,
    s: DirectorView<SelfResolverView>,
    items: Seq<TypeView>,
    span: Span,
)
    requires
        !s.reducer.receivers.contains("self"@),
        walk_types::<Canonicalizer>(d, items, span) ==
            (d, Ok::<Seq<TypeView>, CanonicalizeError>(items)),
    ensures
        walk_types::<SelfResolver>(s, items, span).1 matches Ok(resolved) ==>
            walk_types::<Canonicalizer>(d, resolved, span) == (
            d,
            Ok::<Seq<TypeView>, CanonicalizeError>(resolved),
        ),
    decreases items,
{
    if items.len() > 0 {
        lemma_settled_types(d, items.drop_last(), span);
        lemma_settled_type(d, items.last(), span);
        let done = walk_types::<Canonicalizer>(d, items.drop_last(), span).1->Ok_0;
        let node = walk_type::<Canonicalizer>(d, items.last(), span).1->Ok_0;
        assert(done.push(node) == items);
        assert(done =~= items.drop_last());
        assert(node == items.last());
        lemma_resolution_settled_types(s, items.drop_last(), span);
        lemma_resolution_settled_type(s, items.last(), span);
        lemma_resolution_keeps_types(d, s, items.drop_last(), span);
        lemma_resolution_keeps_type(d, s, items.last(), span);
        match walk_types::<SelfResolver>(s, items, span).1 {
            Ok(resolved) => {
                let before = walk_types::<SelfResolver>(s, items.drop_last(), span).1->Ok_0;
                let last = walk_type::<SelfResolver>(s, items.last(), span).1->Ok_0;
                assert(resolved == before.push(last));
                assert(resolved.drop_last() =~= before);
                assert(resolved.last() == last);
            },
            Err(_) => {},
        }
    } else {
        assert(items =~= Seq::<TypeView>::empty());
    }
}

/// The resolution of the receiver keeps a list settled.
pub proof fn lemma_resolution_keeps_spread_or_expressions(
    d: DirectorView<()>,
    s: DirectorView<SelfResolverView>,
    items: Seq<SpreadOrExpressionView>,
)
    requires
        !s.reducer.receivers.contains("self"@),
        walk_spread_or_expressions::<Canonicalizer>(d, items) ==
            (d, Ok::<Seq<SpreadOrExpressionView>, CanonicalizeError>(items)),
    ensures
        walk_spread_or_expressions::<SelfResolver>(s, items).1 matches Ok(resolved) ==>
            walk_spread_or_expressions::<Canonicalizer>(d, resolved) == (
            d,
            Ok::<Seq<SpreadOrExpressionView>, CanonicalizeError>(resolved),
        ),
    decreases items,
{
    if items.len() > 0 {
        lemma_settled_spread_or_expressions(d, items.drop_last());
        lemma_settled_spread_or_expression(d, items.last());
        let done = walk_spread_or_expressions::<Canonicalizer>(d, items.drop_last()).1->Ok_0;
        let node = walk_spread_or_expression::<Canonicalizer>(d, items.last()).1->Ok_0;
        assert(done.push(node) == items);
        assert(done =~= items.drop_last());
        assert(node == items.last());
        lemma_resolution_settled_spread_or_expressions(s, items.drop_last());
        lemma_resolution_settled_spread_or_expression(s, items.last());
        lemma_resolution_keeps_spread_or_expressions(d, s, items.drop_last());
        lemma_resolution_keeps_spread_or_expression(d, s, items.last());
        match walk_spread_or_expressions::<SelfResolver>(s, items).1 {
            Ok(resolved) => {
                let before = walk_spread_or_expressions::<SelfResolver>(
                    s,
                    items.drop_last(),
                ).1->Ok_0;
                let last = walk_spread_or_expression::<SelfResolver>(s, items.last()).1->Ok_0;
                assert(resolved == before.push(last));
                assert(resolved.drop_last() =~= before);
                assert(resolved.last() == last);
            },
            Err(_) => {},
        }
    } else {
        assert(items =~= Seq::<SpreadOrExpressionView>::empty());
    }
}

/// The resolution of the receiver keeps a list settled.
pub proof fn lemma_resolution_keeps_expressions(
    d: DirectorView<()>,
    s: DirectorView<SelfResolverView>,
    items: Seq<ExpressionView>,
)
    requires
        !s.reducer.receivers.contains("self"@),
        walk_expressions::<Canonicalizer>(d, items) ==
            (d, Ok::<Seq<ExpressionView>, CanonicalizeError>(items)),
    ensures
        walk_expressions::<SelfResolver>(s, items).1 matches Ok(resolved) ==>
            walk_expressions::<Canonicalizer>(d, resolved) == (
            d,
            Ok::<Seq<ExpressionView>, CanonicalizeError>(resolved),
        ),
    decreases items,
{
    if items.len() > 0 {
        lemma_settled_expressions(d, items.drop_last());
        lemma_settled_expression(d, items.last());
        let done = walk_expressions::<Canonicalizer>(d, items.drop_last()).1->Ok_0;
        let node = walk_expression::<Canonicalizer>(d, items.last()).1->Ok_0;
        assert(done.push(node) == items);
        assert(done =~= items.drop_last());
        assert(node == items.last());
        lemma_resolution_settled_expressions(s, items.drop_last());
        lemma_resolution_settled_expression(s, items.last());
        lemma_resolution_keeps_expressions(d, s, items.drop_last());
        lemma_resolution_keeps_expression(d, s, items.last());
        match walk_expressions::<SelfResolver>(s, items).1 {
            Ok(resolved) => {
                let before = walk_expressions::<SelfResolver>(s, items.drop_last()).1->Ok_0;
                let last = walk_expression::<SelfResolver>(s, items.last()).1->Ok_0;
                assert(resolved == before.push(last));
                assert(resolved.drop_last() =~= before);
                assert(resolved.last() == last);
            },
            Err(_) => {},
        }
    } else {
        assert(items =~= Seq::<ExpressionView>::empty());
    }
}

/// The resolution of the receiver keeps a list settled.
pub proof fn lemma_resolution_keeps_circuit_implied_variable_definitions(
    d: DirectorView<()>,
    s: DirectorView<SelfResolverView>,
    items: Seq<CircuitImpliedVariableDefinitionView>,
)
    requires
        !s.reducer.receivers.contains("self"@),
        walk_circuit_implied_variable_definitions::<Canonicalizer>(d, items) ==
            (d, Ok::<Seq<CircuitImpliedVariableDefinitionView>, CanonicalizeError>(items)),
    ensures
        walk_circuit_implied_variable_definitions::<SelfResolver>(s, items).1 matches Ok(resolved) ==>
            walk_circuit_implied_variable_definitions::<Canonicalizer>(d, resolved) == (
            d,
            Ok::<Seq<CircuitImpliedVariableDefinitionView>, CanonicalizeError>(resolved),
        ),
    decreases items,
{
    if items.len() > 0 {
        lemma_settled_circuit_implied_variable_definitions(d, items.drop_last());
        lemma_settled_circuit_implied_variable_definition(d, items.last());
        let done = walk_circuit_implied_variable_definitions::<Canonicalizer>(
            d,
            items.drop_last(),
        ).1->Ok_0;
        let node = walk_circuit_implied_variable_definition::<Canonicalizer>(
            d,
            items.last(),
        ).1->Ok_0;
        assert(done.push(node) == items);
        assert(done =~= items.drop_last());
        assert(node == items.last());
        lemma_resolution_settled_circuit_implied_variable_definitions(s, items.drop_last());
        lemma_resolution_settled_circuit_implied_variable_definition(s, items.last());
        lemma_resolution_keeps_circuit_implied_variable_definitions(d, s, items.drop_last());
        lemma_resolution_keeps_circuit_implied_variable_definition(d, s, items.last());
        match walk_circuit_implied_variable_definitions::<SelfResolver>(s, items).1 {
            Ok(resolved) => {
                let before = walk_circuit_implied_variable_definitions::<SelfResolver>(
                    s,
                    items.drop_last(),
                ).1->Ok_0;
                let last = walk_circuit_implied_variable_definition::<SelfResolver>(
                    s,
                    items.last(),
                ).1->Ok_0;
                assert(resolved == before.push(last));
                assert(resolved.drop_last() =~= before);
                assert(resolved.last() == last);
            },
            Err(_) => {},
        }
    } else {
        assert(items =~= Seq::<CircuitImpliedVariableDefinitionView>::empty());
    }
}

/// The resolution of the receiver keeps a list settled.
pub proof fn lemma_resolution_keeps_variable_names(
    d: DirectorView<()>,
    s: DirectorView<SelfResolverView>,
    items: Seq<VariableNameView>,
)
    requires
        !s.reducer.receivers.contains("self"@),
        walk_variable_names::<Canonicalizer>(d, items) ==
            (d, Ok::<Seq<VariableNameView>, CanonicalizeError>(items)),
    ensures
        walk_variable_names::<SelfResolver>(s, items).1 matches Ok(resolved) ==>
            walk_variable_names::<Canonicalizer>(d, resolved) == (
            d,
            Ok::<Seq<VariableNameView>, CanonicalizeError>(resolved),
        ),
    decreases items,
{
    if items.len() > 0 {
        lemma_settled_variable_names(d, items.drop_last());
        lemma_settled_variable_name(d, items.last());
        let done = walk_variable_names::<Canonicalizer>(d, items.drop_last()).1->Ok_0;
        let node = walk_variable_name::<Canonicalizer>(d, items.last()).1->Ok_0;
        assert(done.push(node) == items);
        assert(done =~= items.drop_last());
        assert(node == items.last());
        lemma_resolution_settled_variable_names(s, items.drop_last());
        lemma_resolution_settled_variable_name(s, items.last());
        lemma_resolution_keeps_variable_names(d, s, items.drop_last());
        lemma_resolution_keeps_variable_name(d, s, items.last());
        match walk_variable_names::<SelfResolver>(s, items).1 {
            Ok(resolved) => {
                let before = walk_variable_names::<SelfResolver>(s, items.drop_last()).1->Ok_0;
                let last = walk_variable_name::<SelfResolver>(s, items.last()).1->Ok_0;
                assert(resolved == before.push(last));
                assert(resolved.drop_last() =~= before);
                assert(resolved.last() == last);
            },
            Err(_) => {},
        }
    } else {
        assert(items =~= Seq::<VariableNameView>::empty());
    }
}

/// The resolution of the receiver keeps a list settled.
pub proof fn lemma_resolution_keeps_assignee_accesses(
    d: DirectorView<()>,
    s: DirectorView<SelfResolverView>,
    items: Seq<AssigneeAccessView>,
)
    requires
        !s.reducer.receivers.contains("self"@),
        walk_assignee_accesses::<Canonicalizer>(d, items) ==
            (d, Ok::<Seq<AssigneeAccessView>, CanonicalizeError>(items)),
    ensures
        walk_assignee_accesses::<SelfResolver>(s, items).1 matches Ok(resolved) ==>
            walk_assignee_accesses::<Canonicalizer>(d, resolved) == (
            d,
            Ok::<Seq<AssigneeAccessView>, CanonicalizeError>(resolved),
        ),
    decreases items,
{
    if items.len() > 0 {
        lemma_settled_assignee_accesses(d, items.drop_last());
        lemma_settled_assignee_access(d, items.last());
        let done = walk_assignee_accesses::<Canonicalizer>(d, items.drop_last()).1->Ok_0;
        let node = walk_assignee_access::<Canonicalizer>(d, items.last()).1->Ok_0;
        assert(done.push(node) == items);
        assert(done =~= items.drop_last());
        assert(node == items.last());
        lemma_resolution_settled_assignee_accesses(s, items.drop_last());
        lemma_resolution_settled_assignee_access(s, items.last());
        lemma_resolution_keeps_assignee_accesses(d, s, items.drop_last());
        lemma_resolution_keeps_assignee_access(d, s, items.last());
        match walk_assignee_accesses::<SelfResolver>(s, items).1 {
            Ok(resolved) => {
                let before = walk_assignee_accesses::<SelfResolver>(s, items.drop_last()).1->Ok_0;
                let last = walk_assignee_access::<SelfResolver>(s, items.last()).1->Ok_0;
                assert(resolved == before.push(last));
                assert(resolved.drop_last() =~= before);
                assert(resolved.last() == last);
            },
            Err(_) => {},
        }
    } else {
        assert(items =~= Seq::<AssigneeAccessView>::empty());
    }
}

/// The resolution of the receiver keeps a list settled.
pub proof fn lemma_resolution_keeps_statements(
    d: DirectorView<()>,
    s: DirectorView<SelfResolverView>,
    items: Seq<StatementView>,
)
    requires
        !s.reducer.receivers.contains("self"@),
        walk_statements::<Canonicalizer>(d, items) ==
            (d, Ok::<Seq<StatementView>, CanonicalizeError>(items)),
    ensures
        walk_statements::<SelfResolver>(s, items).1 matches Ok(resolved) ==>
            walk_statements::<Canonicalizer>(d, resolved) == (
            d,
            Ok::<Seq<StatementView>, CanonicalizeError>(resolved),
        ),
    decreases items,
{
    if items.len() > 0 {
        lemma_settled_statements(d, items.drop_last());
        lemma_settled_statement(d, items.last());
        let done = walk_statements::<Canonicalizer>(d, items.drop_last()).1->Ok_0;
        let node = walk_statement::<Canonicalizer>(d, items.last()).1->Ok_0;
        assert(done.push(node) == items);
        assert(done =~= items.drop_last());
        assert(node == items.last());
        lemma_resolution_settled_statements(s, items.drop_last());
        lemma_resolution_settled_statement(s, items.last());
        lemma_resolution_keeps_statements(d, s, items.drop_last());
        lemma_resolution_keeps_statement(d, s, items.last());
        match walk_statements::<SelfResolver>(s, items).1 {
            Ok(resolved) => {
                let before = walk_statements::<SelfResolver>(s, items.drop_last()).1->Ok_0;
                let last = walk_statement::<SelfResolver>(s, items.last()).1->Ok_0;
                assert(resolved == before.push(last));
                assert(resolved.drop_last() =~= before);
                assert(resolved.last() == last);
            },
            Err(_) => {},
        }
    } else {
        assert(items =~= Seq::<StatementView>::empty());
    }
}

/// The resolution of the receiver keeps a list settled.
pub proof fn lemma_resolution_keeps_function_inputs(
    d: DirectorView<()>,
    s: DirectorView<SelfResolverView>,
    items: Seq<FunctionInputView>,
)
    requires
        !s.reducer.receivers.contains("self"@),
        walk_function_inputs::<Canonicalizer>(d, items) ==
            (d, Ok::<Seq<FunctionInputView>, CanonicalizeError>(items)),
    ensures
        walk_function_inputs::<SelfResolver>(s, items).1 matches Ok(resolved) ==>
            walk_function_inputs::<Canonicalizer>(d, resolved) == (
            d,
            Ok::<Seq<FunctionInputView>, CanonicalizeError>(resolved),
        ),
    decreases items,
{
    if items.len() > 0 {
        lemma_settled_function_inputs(d, items.drop_last());
        lemma_settled_function_input(d, items.last());
        let done = walk_function_inputs::<Canonicalizer>(d, items.drop_last()).1->Ok_0;
        let node = walk_function_input::<Canonicalizer>(d, items.last()).1->Ok_0;
        assert(done.push(node) == items);
        assert(done =~= items.drop_last());
        assert(node == items.last());
        lemma_resolution_settled_function_inputs(s, items.drop_last());
        lemma_resolution_settled_function_input(s, items.last());
        lemma_resolution_keeps_function_inputs(d, s, items.drop_last());
        lemma_resolution_keeps_function_input(d, s, items.last());
        match walk_function_inputs::<SelfResolver>(s, items).1 {
            Ok(resolved) => {
                let before = walk_function_inputs::<SelfResolver>(s, items.drop_last()).1->Ok_0;
                let last = walk_function_input::<SelfResolver>(s, items.last()).1->Ok_0;
                assert(resolved == before.push(last));
                assert(resolved.drop_last() =~= before);
                assert(resolved.last() == last);
            },
            Err(_) => {},
        }
    } else {
        assert(items =~= Seq::<FunctionInputView>::empty());
    }
}

/// The resolution of the receiver keeps a list settled.
pub proof fn lemma_resolution_keeps_circuit_members(
    d: DirectorView<()>,
    s: DirectorView<SelfResolverView>,
    items: Seq<CircuitMemberView>,
)
    requires
        !s.reducer.receivers.contains("self"@),
        walk_circuit_members::<Canonicalizer>(d, items) ==
            (d, Ok::<Seq<CircuitMemberView>, CanonicalizeError>(items)),
    ensures
        walk_circuit_members::<SelfResolver>(s, items).1 matches Ok(resolved) ==>
            walk_circuit_members::<Canonicalizer>(d, resolved) == (
            d,
            Ok::<Seq<CircuitMemberView>, CanonicalizeError>(resolved),
        ),
    decreases items,
{
    if items.len() > 0 {
        lemma_settled_circuit_members(d, items.drop_last());
        lemma_settled_circuit_member(d, items.last());
        let done = walk_circuit_members::<Canonicalizer>(d, items.drop_last()).1->Ok_0;
        let node = walk_circuit_member::<Canonicalizer>(d, items.last()).1->Ok_0;
        assert(done.push(node) == items);
        assert(done =~= items.drop_last());
        assert(node == items.last());
        lemma_resolution_settled_circuit_members(s, items.drop_last());
        lemma_resolution_settled_circuit_member(s, items.last());
        lemma_resolution_keeps_circuit_members(d, s, items.drop_last());
        lemma_resolution_keeps_circuit_member(d, s, items.last());
        match walk_circuit_members::<SelfResolver>(s, items).1 {
            Ok(resolved) => {
                let before = walk_circuit_members::<SelfResolver>(s, items.drop_last()).1->Ok_0;
                let last = walk_circuit_member::<SelfResolver>(s, items.last()).1->Ok_0;
                assert(resolved == before.push(last));
                assert(resolved.drop_last() =~= before);
                assert(resolved.last() == last);
            },
            Err(_) => {},
        }
    } else {
        assert(items =~= Seq::<CircuitMemberView>::empty());
    }
}

/// The resolution of the receiver keeps a list settled.
pub proof fn lemma_resolution_keeps_annotations(
    d: DirectorView<()>,
    s: DirectorView<SelfResolverView>,
    items: Seq<AnnotationView>,
)
    requires
        !s.reducer.receivers.contains("self"@),
        walk_annotations::<Canonicalizer>(d, items) ==
            (d, Ok::<Seq<AnnotationView>, CanonicalizeError>(items)),
    ensures
        walk_annotations::<SelfResolver>(s, items).1 matches Ok(resolved) ==>
            walk_annotations::<Canonicalizer>(d, resolved) == (
            d,
            Ok::<Seq<AnnotationView>, CanonicalizeError>(resolved),
        ),
    decreases items,
{
    if items.len() > 0 {
        lemma_settled_annotations(d, items.drop_last());
        lemma_settled_annotation(d, items.last());
        let done = walk_annotations::<Canonicalizer>(d, items.drop_last()).1->Ok_0;
        let node = walk_annotation::<Canonicalizer>(d, items.last()).1->Ok_0;
        assert(done.push(node) == items);
        assert(done =~= items.drop_last());
        assert(node == items.last());
        lemma_resolution_settled_annotations(s, items.drop_last());
        lemma_resolution_settled_annotation(s, items.last());
        lemma_resolution_keeps_annotations(d, s, items.drop_last());
        lemma_resolution_keeps_annotation(d, s, items.last());
        match walk_annotations::<SelfResolver>(s, items).1 {
            Ok(resolved) => {
                let before = walk_annotations::<SelfResolver>(s, items.drop_last()).1->Ok_0;
                let last = walk_annotation::<SelfResolver>(s, items.last()).1->Ok_0;
                assert(resolved == before.push(last));
                assert(resolved.drop_last() =~= before);
                assert(resolved.last() == last);
            },
            Err(_) => {},
        }
    } else {
        assert(items =~= Seq::<AnnotationView>::empty());
    }
}

} // verus!
