//! The resolution of the receiver is settled: a second pass over what it gave
//! changes nothing.
use crate::ast::common::{Identifier, IdentifierView};
use crate::ast::expression::{
    ArrayAccessExpressionView, ArrayInitExpressionView, ArrayInlineExpressionView,
    ArrayRangeAccessExpressionView, BinaryExpressionView, CallExpressionView, CastExpressionView,
    CircuitImpliedVariableDefinitionView, CircuitInitExpressionView,
    CircuitMemberAccessExpressionView, CircuitStaticFunctionAccessExpressionView, Expression,
    ExpressionView, GroupTupleView, GroupValueView, SpreadOrExpressionView, TernaryExpressionView,
    TupleAccessExpressionView, TupleInitExpressionView, UnaryExpressionView, ValueExpressionView,
};
use crate::ast::function::{
    AnnotationView, Circuit, CircuitMemberView, FunctionInputVariableView, FunctionInputView,
    FunctionView,
};
use crate::ast::imports::{ImportStatementView, Package, PackageOrPackagesView, Packages};
use crate::ast::statement::{
    AssigneeAccessView, AssigneeView, AssignStatementView, Block, BlockView,
    ConditionalStatementView, ConsoleFunctionView, ConsoleStatementView, DefinitionStatementView,
    ExpressionStatementView, IterationStatementView, ReturnStatementView, StatementView,
    VariableNameView,
};
use crate::ast::types::TypeView;
use crate::errors::CanonicalizeError;
use crate::reducer::reconstructing_director::{
    DirectorView, walk_annotation, walk_annotations, walk_array_access, walk_array_init,
    walk_array_inline, walk_array_range_access, walk_assign, walk_assignee, walk_assignee_access,
    walk_assignee_accesses, walk_binary, walk_block, walk_call, walk_cast,
    walk_circuit_implied_variable_definition, walk_circuit_implied_variable_definitions,
    walk_circuit_init, walk_circuit_member, walk_circuit_member_access, walk_circuit_members,
    walk_circuit_static_fn_access, walk_conditional, walk_console, walk_definition, walk_expression,
    walk_expression_statement, walk_expressions, walk_function, walk_function_input,
    walk_function_input_variable, walk_function_inputs, walk_group_tuple, walk_group_value,
    walk_identifier, walk_import, walk_imports, walk_iteration, walk_package_or_packages,
    walk_return, walk_spread_or_expression, walk_spread_or_expressions, walk_statement,
    walk_statements, walk_ternary, walk_tuple_access, walk_tuple_init, walk_type, walk_types,
    walk_unary, walk_value, walk_variable_name, walk_variable_names,
};
use crate::reducer::self_resolver::{resolved_identifier, SelfResolver, SelfResolverView};
use crate::span::Span;
use vstd::prelude::*;

verus! {

/// What the resolution of the receiver gives for a type, a second pass leaves as it is.
pub proof fn lemma_resolution_settled_type(
    d: DirectorView<SelfResolverView>,
    type_: TypeView,
    span: Span,
)
    requires
        !d.reducer.receivers.contains("self"@),
    ensures
        walk_type::<SelfResolver>(d, type_, span).1 matches Ok(settled) ==>
            walk_type::<SelfResolver>(d, type_, span) == (
            d,
            Ok::<TypeView, CanonicalizeError>(settled),
        ) && walk_type::<SelfResolver>(
            d,
            settled,
            span,
        ) == (d, Ok::<TypeView, CanonicalizeError>(settled)),
    decreases type_,
{
    match type_ {
        TypeView::Array(f0, f1) => {
            lemma_resolution_settled_type(d, *f0, span);
        },
        TypeView::Tuple(f0) => {
            lemma_resolution_settled_types(d, f0, span);
        },
        TypeView::Circuit(f0) => {
            lemma_resolution_settled_identifier(d, f0);
        },
        _ => {},
    }
}

/// What the resolution of the receiver gives for an expression, a second pass leaves as it is.
pub proof fn lemma_resolution_settled_expression(
    d: DirectorView<SelfResolverView>,
    expression: ExpressionView,
)
    requires
        !d.reducer.receivers.contains("self"@),
    ensures
        walk_expression::<SelfResolver>(d, expression).1 matches Ok(settled) ==>
            walk_expression::<SelfResolver>(d, expression) == (
            d,
            Ok::<ExpressionView, CanonicalizeError>(settled),
        ) && walk_expression::<SelfResolver>(
            d,
            settled,
        ) == (d, Ok::<ExpressionView, CanonicalizeError>(settled)),
    decreases expression,
{
    match expression {
        ExpressionView::Identifier(f0) => {
            lemma_resolution_settled_identifier(d, f0);
            reveal_strlit("self");
            reveal_strlit("Self");
            assert("self"@[0] != "Self"@[0]);
            let name = resolved_identifier(d.reducer, f0);
            if d.reducer.receivers.contains(name.name) {
                let receiver = IdentifierView { name: "self"@, span: name.span };
                let access = CircuitMemberAccessExpressionView {
                    circuit: Box::new(ExpressionView::Identifier(receiver)),
                    name,
                    span: name.span,
                };
                lemma_resolution_settled_identifier(d, receiver);
                lemma_resolution_settled_identifier(d, name);
                assert(walk_expression::<SelfResolver>(d, ExpressionView::Identifier(receiver)) == (
                    d,
                    Ok::<ExpressionView, CanonicalizeError>(ExpressionView::Identifier(receiver)),
                ));
                assert(walk_circuit_member_access::<SelfResolver>(d, access) == (
                    d,
                    Ok::<CircuitMemberAccessExpressionView, CanonicalizeError>(access),
                ));
            } else {
                lemma_resolution_settled_identifier(d, name);
            }
        },
        ExpressionView::Value(f0) => {
            lemma_resolution_settled_value(d, f0);
        },
        ExpressionView::Binary(f0) => {
            lemma_resolution_settled_binary(d, f0);
        },
        ExpressionView::Unary(f0) => {
            lemma_resolution_settled_unary(d, f0);
        },
        ExpressionView::Ternary(f0) => {
            lemma_resolution_settled_ternary(d, f0);
        },
        ExpressionView::Cast(f0) => {
            lemma_resolution_settled_cast(d, f0);
        },
        ExpressionView::ArrayInline(f0) => {
            lemma_resolution_settled_array_inline(d, f0);
        },
        ExpressionView::ArrayInit(f0) => {
            lemma_resolution_settled_array_init(d, f0);
        },
        ExpressionView::ArrayAccess(f0) => {
            lemma_resolution_settled_array_access(d, f0);
        },
        ExpressionView::ArrayRangeAccess(f0) => {
            lemma_resolution_settled_array_range_access(d, f0);
        },
        ExpressionView::TupleInit(f0) => {
            lemma_resolution_settled_tuple_init(d, f0);
        },
        ExpressionView::TupleAccess(f0) => {
            lemma_resolution_settled_tuple_access(d, f0);
        },
        ExpressionView::CircuitInit(f0) => {
            lemma_resolution_settled_circuit_init(d, f0);
        },
        ExpressionView::CircuitMemberAccess(f0) => {
            lemma_resolution_settled_circuit_member_access(d, f0);
        },
        ExpressionView::CircuitStaticFunctionAccess(f0) => {
            lemma_resolution_settled_circuit_static_fn_access(d, f0);
        },
        ExpressionView::Call(f0) => {
            lemma_resolution_settled_call(d, f0);
        },
    }
}

/// What the resolution of the receiver gives for an identifier, a second pass leaves as it is.
pub proof fn lemma_resolution_settled_identifier(
    d: DirectorView<SelfResolverView>,
    identifier: IdentifierView,
)
    requires
        !d.reducer.receivers.contains("self"@),
    ensures
        walk_identifier::<SelfResolver>(d, identifier).1 matches Ok(settled) ==>
            walk_identifier::<SelfResolver>(d, identifier) == (
            d,
            Ok::<IdentifierView, CanonicalizeError>(settled),
        ) && walk_identifier::<SelfResolver>(
            d,
            settled,
        ) == (d, Ok::<IdentifierView, CanonicalizeError>(settled)),
    decreases identifier,
{
}

/// What the resolution of the receiver gives for a group tuple, a second pass leaves as it is.
pub proof fn lemma_resolution_settled_group_tuple(
    d: DirectorView<SelfResolverView>,
    group_tuple: GroupTupleView,
)
    requires
        !d.reducer.receivers.contains("self"@),
    ensures
        walk_group_tuple::<SelfResolver>(d, group_tuple).1 matches Ok(settled) ==>
            walk_group_tuple::<SelfResolver>(d, group_tuple) == (
            d,
            Ok::<GroupTupleView, CanonicalizeError>(settled),
        ) && walk_group_tuple::<SelfResolver>(
            d,
            settled,
        ) == (d, Ok::<GroupTupleView, CanonicalizeError>(settled)),
    decreases group_tuple,
{
}

/// What the resolution of the receiver gives for a group value, a second pass leaves as it is.
pub proof fn lemma_resolution_settled_group_value(
    d: DirectorView<SelfResolverView>,
    group_value: GroupValueView,
)
    requires
        !d.reducer.receivers.contains("self"@),
    ensures
        walk_group_value::<SelfResolver>(d, group_value).1 matches Ok(settled) ==>
            walk_group_value::<SelfResolver>(d, group_value) == (
            d,
            Ok::<GroupValueView, CanonicalizeError>(settled),
        ) && walk_group_value::<SelfResolver>(
            d,
            settled,
        ) == (d, Ok::<GroupValueView, CanonicalizeError>(settled)),
    decreases group_value,
{
    match group_value {
        GroupValueView::Tuple(f0) => {
            lemma_resolution_settled_group_tuple(d, f0);
        },
        _ => {},
    }
}

/// What the resolution of the receiver gives for a literal value, a second pass leaves as it is.
pub proof fn lemma_resolution_settled_value(
    d: DirectorView<SelfResolverView>,
    value: ValueExpressionView,
)
    requires
        !d.reducer.receivers.contains("self"@),
    ensures
        walk_value::<SelfResolver>(d, value).1 matches Ok(settled) ==>
            walk_value::<SelfResolver>(d, value) == (
            d,
            Ok::<ValueExpressionView, CanonicalizeError>(settled),
        ) && walk_value::<SelfResolver>(
            d,
            settled,
        ) == (d, Ok::<ValueExpressionView, CanonicalizeError>(settled)),
    decreases value,
{
    match value {
        ValueExpressionView::Group(f0) => {
            lemma_resolution_settled_group_value(d, *f0);
        },
        _ => {},
    }
}

/// What the resolution of the receiver gives for a binary expression, a second pass leaves as it is.
pub proof fn lemma_resolution_settled_binary(
    d: DirectorView<SelfResolverView>,
    binary: BinaryExpressionView,
)
    requires
        !d.reducer.receivers.contains("self"@),
    ensures
        walk_binary::<SelfResolver>(d, binary).1 matches Ok(settled) ==>
            walk_binary::<SelfResolver>(d, binary) == (
            d,
            Ok::<BinaryExpressionView, CanonicalizeError>(settled),
        ) && walk_binary::<SelfResolver>(
            d,
            settled,
        ) == (d, Ok::<BinaryExpressionView, CanonicalizeError>(settled)),
    decreases binary,
{
    lemma_resolution_settled_expression(d, *binary.left);
    lemma_resolution_settled_expression(d, *binary.right);
}

/// What the resolution of the receiver gives for a unary expression, a second pass leaves as it is.
pub proof fn lemma_resolution_settled_unary(
    d: DirectorView<SelfResolverView>,
    unary: UnaryExpressionView,
)
    requires
        !d.reducer.receivers.contains("self"@),
    ensures
        walk_unary::<SelfResolver>(d, unary).1 matches Ok(settled) ==>
            walk_unary::<SelfResolver>(d, unary) == (
            d,
            Ok::<UnaryExpressionView, CanonicalizeError>(settled),
        ) && walk_unary::<SelfResolver>(
            d,
            settled,
        ) == (d, Ok::<UnaryExpressionView, CanonicalizeError>(settled)),
    decreases unary,
{
    lemma_resolution_settled_expression(d, *unary.inner);
}

/// What the resolution of the receiver gives for a ternary expression, a second pass leaves as it is.
pub proof fn lemma_resolution_settled_ternary(
    d: DirectorView<SelfResolverView>,
    ternary: TernaryExpressionView,
)
    requires
        !d.reducer.receivers.contains("self"@),
    ensures
        walk_ternary::<SelfResolver>(d, ternary).1 matches Ok(settled) ==>
            walk_ternary::<SelfResolver>(d, ternary) == (
            d,
            Ok::<TernaryExpressionView, CanonicalizeError>(settled),
        ) && walk_ternary::<SelfResolver>(
            d,
            settled,
        ) == (d, Ok::<TernaryExpressionView, CanonicalizeError>(settled)),
    decreases ternary,
{
    lemma_resolution_settled_expression(d, *ternary.condition);
    lemma_resolution_settled_expression(d, *ternary.if_true);
    lemma_resolution_settled_expression(d, *ternary.if_false);
}

/// What the resolution of the receiver gives for a cast, a second pass leaves as it is.
pub proof fn lemma_resolution_settled_cast(
    d: DirectorView<SelfResolverView>,
    cast: CastExpressionView,
)
    requires
        !d.reducer.receivers.contains("self"@),
    ensures
        walk_cast::<SelfResolver>(d, cast).1 matches Ok(settled) ==>
            walk_cast::<SelfResolver>(d, cast) == (
            d,
            Ok::<CastExpressionView, CanonicalizeError>(settled),
        ) && walk_cast::<SelfResolver>(
            d,
            settled,
        ) == (d, Ok::<CastExpressionView, CanonicalizeError>(settled)),
    decreases cast,
{
    lemma_resolution_settled_expression(d, *cast.inner);
    lemma_resolution_settled_type(d, cast.target_type, cast.span);
}

/// What the resolution of the receiver gives for an element of an inline array, a second pass leaves as it is.
pub proof fn lemma_resolution_settled_spread_or_expression(
    d: DirectorView<SelfResolverView>,
    element: SpreadOrExpressionView,
)
    requires
        !d.reducer.receivers.contains("self"@),
    ensures
        walk_spread_or_expression::<SelfResolver>(d, element).1 matches Ok(settled) ==>
            walk_spread_or_expression::<SelfResolver>(d, element) == (
            d,
            Ok::<SpreadOrExpressionView, CanonicalizeError>(settled),
        ) && walk_spread_or_expression::<SelfResolver>(
            d,
            settled,
        ) == (d, Ok::<SpreadOrExpressionView, CanonicalizeError>(settled)),
    decreases element,
{
    match element {
        SpreadOrExpressionView::Spread(f0) => {
            lemma_resolution_settled_expression(d, f0);
        },
        SpreadOrExpressionView::Expression(f0) => {
            lemma_resolution_settled_expression(d, f0);
        },
    }
}

/// What the resolution of the receiver gives for an inline array, a second pass leaves as it is.
pub proof fn lemma_resolution_settled_array_inline(
    d: DirectorView<SelfResolverView>,
    array_inline: ArrayInlineExpressionView,
)
    requires
        !d.reducer.receivers.contains("self"@),
    ensures
        walk_array_inline::<SelfResolver>(d, array_inline).1 matches Ok(settled) ==>
            walk_array_inline::<SelfResolver>(d, array_inline) == (
            d,
            Ok::<ArrayInlineExpressionView, CanonicalizeError>(settled),
        ) && walk_array_inline::<SelfResolver>(
            d,
            settled,
        ) == (d, Ok::<ArrayInlineExpressionView, CanonicalizeError>(settled)),
    decreases array_inline,
{
    lemma_resolution_settled_spread_or_expressions(d, array_inline.elements);
}

/// What the resolution of the receiver gives for an array initialiser, a second pass leaves as it is.
pub proof fn lemma_resolution_settled_array_init(
    d: DirectorView<SelfResolverView>,
    array_init: ArrayInitExpressionView,
)
    requires
        !d.reducer.receivers.contains("self"@),
    ensures
        walk_array_init::<SelfResolver>(d, array_init).1 matches Ok(settled) ==>
            walk_array_init::<SelfResolver>(d, array_init) == (
            d,
            Ok::<ArrayInitExpressionView, CanonicalizeError>(settled),
        ) && walk_array_init::<SelfResolver>(
            d,
            settled,
        ) == (d, Ok::<ArrayInitExpressionView, CanonicalizeError>(settled)),
    decreases array_init,
{
    lemma_resolution_settled_expression(d, *array_init.element);
}

/// What the resolution of the receiver gives for an array access, a second pass leaves as it is.
pub proof fn lemma_resolution_settled_array_access(
    d: DirectorView<SelfResolverView>,
    array_access: ArrayAccessExpressionView,
)
    requires
        !d.reducer.receivers.contains("self"@),
    ensures
        walk_array_access::<SelfResolver>(d, array_access).1 matches Ok(settled) ==>
            walk_array_access::<SelfResolver>(d, array_access) == (
            d,
            Ok::<ArrayAccessExpressionView, CanonicalizeError>(settled),
        ) && walk_array_access::<SelfResolver>(
            d,
            settled,
        ) == (d, Ok::<ArrayAccessExpressionView, CanonicalizeError>(settled)),
    decreases array_access,
{
    lemma_resolution_settled_expression(d, *array_access.array);
    lemma_resolution_settled_expression(d, *array_access.index);
}

/// What the resolution of the receiver gives for an array range access, a second pass leaves as it is.
pub proof fn lemma_resolution_settled_array_range_access(
    d: DirectorView<SelfResolverView>,
    array_range_access: ArrayRangeAccessExpressionView,
)
    requires
        !d.reducer.receivers.contains("self"@),
    ensures
        walk_array_range_access::<SelfResolver>(d, array_range_access).1 matches Ok(settled) ==>
            walk_array_range_access::<SelfResolver>(d, array_range_access) == (
            d,
            Ok::<ArrayRangeAccessExpressionView, CanonicalizeError>(settled),
        ) && walk_array_range_access::<SelfResolver>(
            d,
            settled,
        ) == (d, Ok::<ArrayRangeAccessExpressionView, CanonicalizeError>(settled)),
    decreases array_range_access,
{
    lemma_resolution_settled_expression(d, *array_range_access.array);
    match array_range_access.left {
        Some(v) => {
            lemma_resolution_settled_expression(d, *v);
        },
        None => {},
    }
    match array_range_access.right {
        Some(v) => {
            lemma_resolution_settled_expression(d, *v);
        },
        None => {},
    }
}

/// What the resolution of the receiver gives for a tuple initialiser, a second pass leaves as it is.
pub proof fn lemma_resolution_settled_tuple_init(
    d: DirectorView<SelfResolverView>,
    tuple_init: TupleInitExpressionView,
)
    requires
        !d.reducer.receivers.contains("self"@),
    ensures
        walk_tuple_init::<SelfResolver>(d, tuple_init).1 matches Ok(settled) ==>
            walk_tuple_init::<SelfResolver>(d, tuple_init) == (
            d,
            Ok::<TupleInitExpressionView, CanonicalizeError>(settled),
        ) && walk_tuple_init::<SelfResolver>(
            d,
            settled,
        ) == (d, Ok::<TupleInitExpressionView, CanonicalizeError>(settled)),
    decreases tuple_init,
{
    lemma_resolution_settled_expressions(d, tuple_init.elements);
}

/// What the resolution of the receiver gives for a tuple access, a second pass leaves as it is.
pub proof fn lemma_resolution_settled_tuple_access(
    d: DirectorView<SelfResolverView>,
    tuple_access: TupleAccessExpressionView,
)
    requires
        !d.reducer.receivers.contains("self"@),
    ensures
        walk_tuple_access::<SelfResolver>(d, tuple_access).1 matches Ok(settled) ==>
            walk_tuple_access::<SelfResolver>(d, tuple_access) == (
            d,
            Ok::<TupleAccessExpressionView, CanonicalizeError>(settled),
        ) && walk_tuple_access::<SelfResolver>(
            d,
            settled,
        ) == (d, Ok::<TupleAccessExpressionView, CanonicalizeError>(settled)),
    decreases tuple_access,
{
    lemma_resolution_settled_expression(d, *tuple_access.tuple);
}

/// What the resolution of the receiver gives for a member of a circuit initialiser, a second pass leaves as it is.
pub proof fn lemma_resolution_settled_circuit_implied_variable_definition(
    d: DirectorView<SelfResolverView>,
    variable: CircuitImpliedVariableDefinitionView,
)
    requires
        !d.reducer.receivers.contains("self"@),
    ensures
        walk_circuit_implied_variable_definition::<SelfResolver>(d, variable).1 matches Ok(settled) ==>
            walk_circuit_implied_variable_definition::<SelfResolver>(d, variable) == (
            d,
            Ok::<CircuitImpliedVariableDefinitionView, CanonicalizeError>(settled),
        ) && walk_circuit_implied_variable_definition::<SelfResolver>(
            d,
            settled,
        ) == (d, Ok::<CircuitImpliedVariableDefinitionView, CanonicalizeError>(settled)),
    decreases variable,
{
    lemma_resolution_settled_identifier(d, variable.identifier);
    match variable.expression {
        Some(v) => {
            lemma_resolution_settled_expression(d, v);
        },
        None => {},
    }
}

/// What the resolution of the receiver gives for a circuit initialiser, a second pass leaves as it is.
pub proof fn lemma_resolution_settled_circuit_init(
    d: DirectorView<SelfResolverView>,
    circuit_init: CircuitInitExpressionView,
)
    requires
        !d.reducer.receivers.contains("self"@),
    ensures
        walk_circuit_init::<SelfResolver>(d, circuit_init).1 matches Ok(settled) ==>
            walk_circuit_init::<SelfResolver>(d, circuit_init) == (
            d,
            Ok::<CircuitInitExpressionView, CanonicalizeError>(settled),
        ) && walk_circuit_init::<SelfResolver>(
            d,
            settled,
        ) == (d, Ok::<CircuitInitExpressionView, CanonicalizeError>(settled)),
    decreases circuit_init,
{
    lemma_resolution_settled_identifier(d, circuit_init.name);
    lemma_resolution_settled_circuit_implied_variable_definitions(d, circuit_init.members);
}

/// What the resolution of the receiver gives for a circuit member access, a second pass leaves as it is.
pub proof fn lemma_resolution_settled_circuit_member_access(
    d: DirectorView<SelfResolverView>,
    circuit_member_access: CircuitMemberAccessExpressionView,
)
    requires
        !d.reducer.receivers.contains("self"@),
    ensures
        walk_circuit_member_access::<SelfResolver>(d, circuit_member_access).1 matches Ok(settled) ==>
            walk_circuit_member_access::<SelfResolver>(d, circuit_member_access) == (
            d,
            Ok::<CircuitMemberAccessExpressionView, CanonicalizeError>(settled),
        ) && walk_circuit_member_access::<SelfResolver>(
            d,
            settled,
        ) == (d, Ok::<CircuitMemberAccessExpressionView, CanonicalizeError>(settled)),
    decreases circuit_member_access,
{
    lemma_resolution_settled_expression(d, *circuit_member_access.circuit);
    lemma_resolution_settled_identifier(d, circuit_member_access.name);
}

/// What the resolution of the receiver gives for a static function access, a second pass leaves as it is.
pub proof fn lemma_resolution_settled_circuit_static_fn_access(
    d: DirectorView<SelfResolverView>,
    circuit_static_fn_access: CircuitStaticFunctionAccessExpressionView,
)
    requires
        !d.reducer.receivers.contains("self"@),
    ensures
        walk_circuit_static_fn_access::<SelfResolver>(d, circuit_static_fn_access).1 matches Ok(settled) ==>
            walk_circuit_static_fn_access::<SelfResolver>(d, circuit_static_fn_access) == (
            d,
            Ok::<CircuitStaticFunctionAccessExpressionView, CanonicalizeError>(settled),
        ) && walk_circuit_static_fn_access::<SelfResolver>(
            d,
            settled,
        ) == (d, Ok::<CircuitStaticFunctionAccessExpressionView, CanonicalizeError>(settled)),
    decreases circuit_static_fn_access,
{
    lemma_resolution_settled_expression(d, *circuit_static_fn_access.circuit);
    lemma_resolution_settled_identifier(d, circuit_static_fn_access.name);
}

/// What the resolution of the receiver gives for a call, a second pass leaves as it is.
pub proof fn lemma_resolution_settled_call(
    d: DirectorView<SelfResolverView>,
    call: CallExpressionView,
)
    requires
        !d.reducer.receivers.contains("self"@),
    ensures
        walk_call::<SelfResolver>(d, call).1 matches Ok(settled) ==>
            walk_call::<SelfResolver>(d, call) == (
            d,
            Ok::<CallExpressionView, CanonicalizeError>(settled),
        ) && walk_call::<SelfResolver>(
            d,
            settled,
        ) == (d, Ok::<CallExpressionView, CanonicalizeError>(settled)),
    decreases call,
{
    lemma_resolution_settled_expression(d, *call.function);
    lemma_resolution_settled_expressions(d, call.arguments);
}

/// What the resolution of the receiver gives for a statement, a second pass leaves as it is.
pub proof fn lemma_resolution_settled_statement(
    d: DirectorView<SelfResolverView>,
    statement: StatementView,
)
    requires
        !d.reducer.receivers.contains("self"@),
    ensures
        walk_statement::<SelfResolver>(d, statement).1 matches Ok(settled) ==>
            walk_statement::<SelfResolver>(d, statement) == (
            d,
            Ok::<StatementView, CanonicalizeError>(settled),
        ) && walk_statement::<SelfResolver>(
            d,
            settled,
        ) == (d, Ok::<StatementView, CanonicalizeError>(settled)),
    decreases statement,
{
    match statement {
        StatementView::Return(f0) => {
            lemma_resolution_settled_return(d, f0);
        },
        StatementView::Definition(f0) => {
            lemma_resolution_settled_definition(d, f0);
        },
        StatementView::Assign(f0) => {
            lemma_resolution_settled_assign(d, f0);
        },
        StatementView::Conditional(f0) => {
            lemma_resolution_settled_conditional(d, f0);
        },
        StatementView::Iteration(f0) => {
            lemma_resolution_settled_iteration(d, f0);
        },
        StatementView::Console(f0) => {
            lemma_resolution_settled_console(d, f0);
        },
        StatementView::Expression(f0) => {
            lemma_resolution_settled_expression_statement(d, f0);
        },
        StatementView::Block(f0) => {
            lemma_resolution_settled_block(d, f0);
        },
    }
}

/// What the resolution of the receiver gives for a return, a second pass leaves as it is.
pub proof fn lemma_resolution_settled_return(
    d: DirectorView<SelfResolverView>,
    return_statement: ReturnStatementView,
)
    requires
        !d.reducer.receivers.contains("self"@),
    ensures
        walk_return::<SelfResolver>(d, return_statement).1 matches Ok(settled) ==>
            walk_return::<SelfResolver>(d, return_statement) == (
            d,
            Ok::<ReturnStatementView, CanonicalizeError>(settled),
        ) && walk_return::<SelfResolver>(
            d,
            settled,
        ) == (d, Ok::<ReturnStatementView, CanonicalizeError>(settled)),
    decreases return_statement,
{
    lemma_resolution_settled_expression(d, return_statement.expression);
}

/// What the resolution of the receiver gives for a variable name, a second pass leaves as it is.
pub proof fn lemma_resolution_settled_variable_name(
    d: DirectorView<SelfResolverView>,
    variable_name: VariableNameView,
)
    requires
        !d.reducer.receivers.contains("self"@),
    ensures
        walk_variable_name::<SelfResolver>(d, variable_name).1 matches Ok(settled) ==>
            walk_variable_name::<SelfResolver>(d, variable_name) == (
            d,
            Ok::<VariableNameView, CanonicalizeError>(settled),
        ) && walk_variable_name::<SelfResolver>(
            d,
            settled,
        ) == (d, Ok::<VariableNameView, CanonicalizeError>(settled)),
    decreases variable_name,
{
    lemma_resolution_settled_identifier(d, variable_name.identifier);
}

/// What the resolution of the receiver gives for a definition, a second pass leaves as it is.
pub proof fn lemma_resolution_settled_definition(
    d: DirectorView<SelfResolverView>,
    definition: DefinitionStatementView,
)
    requires
        !d.reducer.receivers.contains("self"@),
    ensures
        walk_definition::<SelfResolver>(d, definition).1 matches Ok(settled) ==>
            walk_definition::<SelfResolver>(d, definition) == (
            d,
            Ok::<DefinitionStatementView, CanonicalizeError>(settled),
        ) && walk_definition::<SelfResolver>(
            d,
            settled,
        ) == (d, Ok::<DefinitionStatementView, CanonicalizeError>(settled)),
    decreases definition,
{
    lemma_resolution_settled_variable_names(d, definition.variable_names);
    match definition.type_ {
        Some(v) => {
            lemma_resolution_settled_type(d, v, definition.span);
        },
        None => {},
    }
    lemma_resolution_settled_expression(d, definition.value);
}

/// What the resolution of the receiver gives for an assignee access, a second pass leaves as it is.
pub proof fn lemma_resolution_settled_assignee_access(
    d: DirectorView<SelfResolverView>,
    access: AssigneeAccessView,
)
    requires
        !d.reducer.receivers.contains("self"@),
    ensures
        walk_assignee_access::<SelfResolver>(d, access).1 matches Ok(settled) ==>
            walk_assignee_access::<SelfResolver>(d, access) == (
            d,
            Ok::<AssigneeAccessView, CanonicalizeError>(settled),
        ) && walk_assignee_access::<SelfResolver>(
            d,
            settled,
        ) == (d, Ok::<AssigneeAccessView, CanonicalizeError>(settled)),
    decreases access,
{
    match access {
        AssigneeAccessView::ArrayRange(f0, f1) => {
            match f0 {
                Some(v) => {
                    lemma_resolution_settled_expression(d, v);
                },
                None => {},
            }
            match f1 {
                Some(v) => {
                    lemma_resolution_settled_expression(d, v);
                },
                None => {},
            }
        },
        AssigneeAccessView::ArrayIndex(f0) => {
            lemma_resolution_settled_expression(d, f0);
        },
        AssigneeAccessView::Member(f0) => {
            lemma_resolution_settled_identifier(d, f0);
        },
        _ => {},
    }
}

/// What the resolution of the receiver gives for an assignee, a second pass leaves as it is.
pub proof fn lemma_resolution_settled_assignee(
    d: DirectorView<SelfResolverView>,
    assignee: AssigneeView,
)
    requires
        !d.reducer.receivers.contains("self"@),
    ensures
        walk_assignee::<SelfResolver>(d, assignee).1 matches Ok(settled) ==>
            walk_assignee::<SelfResolver>(d, assignee) == (
            d,
            Ok::<AssigneeView, CanonicalizeError>(settled),
        ) && walk_assignee::<SelfResolver>(
            d,
            settled,
        ) == (d, Ok::<AssigneeView, CanonicalizeError>(settled)),
    decreases assignee,
{
    lemma_resolution_settled_identifier(d, assignee.identifier);
    lemma_resolution_settled_assignee_accesses(d, assignee.accesses);
}

/// What the resolution of the receiver gives for an assignment, a second pass leaves as it is.
pub proof fn lemma_resolution_settled_assign(
    d: DirectorView<SelfResolverView>,
    assign: AssignStatementView,
)
    requires
        !d.reducer.receivers.contains("self"@),
    ensures
        walk_assign::<SelfResolver>(d, assign).1 matches Ok(settled) ==>
            walk_assign::<SelfResolver>(d, assign) == (
            d,
            Ok::<AssignStatementView, CanonicalizeError>(settled),
        ) && walk_assign::<SelfResolver>(
            d,
            settled,
        ) == (d, Ok::<AssignStatementView, CanonicalizeError>(settled)),
    decreases assign,
{
    lemma_resolution_settled_assignee(d, assign.assignee);
    lemma_resolution_settled_expression(d, assign.value);
}

/// What the resolution of the receiver gives for a conditional, a second pass leaves as it is.
pub proof fn lemma_resolution_settled_conditional(
    d: DirectorView<SelfResolverView>,
    conditional: ConditionalStatementView,
)
    requires
        !d.reducer.receivers.contains("self"@),
    ensures
        walk_conditional::<SelfResolver>(d, conditional).1 matches Ok(settled) ==>
            walk_conditional::<SelfResolver>(d, conditional) == (
            d,
            Ok::<ConditionalStatementView, CanonicalizeError>(settled),
        ) && walk_conditional::<SelfResolver>(
            d,
            settled,
        ) == (d, Ok::<ConditionalStatementView, CanonicalizeError>(settled)),
    decreases conditional,
{
    lemma_resolution_settled_expression(d, conditional.condition);
    lemma_resolution_settled_block(d, conditional.block);
    match conditional.next {
        Some(v) => {
            lemma_resolution_settled_statement(d, *v);
        },
        None => {},
    }
}

/// What the resolution of the receiver gives for a loop, a second pass leaves as it is.
pub proof fn lemma_resolution_settled_iteration(
    d: DirectorView<SelfResolverView>,
    iteration: IterationStatementView,
)
    requires
        !d.reducer.receivers.contains("self"@),
    ensures
        walk_iteration::<SelfResolver>(d, iteration).1 matches Ok(settled) ==>
            walk_iteration::<SelfResolver>(d, iteration) == (
            d,
            Ok::<IterationStatementView, CanonicalizeError>(settled),
        ) && walk_iteration::<SelfResolver>(
            d,
            settled,
        ) == (d, Ok::<IterationStatementView, CanonicalizeError>(settled)),
    decreases iteration,
{
    lemma_resolution_settled_identifier(d, iteration.variable);
    lemma_resolution_settled_expression(d, iteration.start);
    lemma_resolution_settled_expression(d, iteration.stop);
    lemma_resolution_settled_block(d, iteration.block);
}

/// What the resolution of the receiver gives for a console statement, a second pass leaves as it is.
pub proof fn lemma_resolution_settled_console(
    d: DirectorView<SelfResolverView>,
    console_function_call: ConsoleStatementView,
)
    requires
        !d.reducer.receivers.contains("self"@),
    ensures
        walk_console::<SelfResolver>(d, console_function_call).1 matches Ok(settled) ==>
            walk_console::<SelfResolver>(d, console_function_call) == (
            d,
            Ok::<ConsoleStatementView, CanonicalizeError>(settled),
        ) && walk_console::<SelfResolver>(
            d,
            settled,
        ) == (d, Ok::<ConsoleStatementView, CanonicalizeError>(settled)),
    decreases console_function_call,
{
    match console_function_call.function {
        ConsoleFunctionView::Assert(f0) => {
            lemma_resolution_settled_expression(d, f0);
        },
        ConsoleFunctionView::Debug(f0) => {
            lemma_resolution_settled_expressions(d, f0.parameters);
        },
        ConsoleFunctionView::Error(f0) => {
            lemma_resolution_settled_expressions(d, f0.parameters);
        },
        ConsoleFunctionView::Log(f0) => {
            lemma_resolution_settled_expressions(d, f0.parameters);
        },
    }
}

/// What the resolution of the receiver gives for an expression statement, a second pass leaves as it is.
pub proof fn lemma_resolution_settled_expression_statement(
    d: DirectorView<SelfResolverView>,
    expression_statement: ExpressionStatementView,
)
    requires
        !d.reducer.receivers.contains("self"@),
    ensures
        walk_expression_statement::<SelfResolver>(d, expression_statement).1 matches Ok(settled) ==>
            walk_expression_statement::<SelfResolver>(d, expression_statement) == (
            d,
            Ok::<ExpressionStatementView, CanonicalizeError>(settled),
        ) && walk_expression_statement::<SelfResolver>(
            d,
            settled,
        ) == (d, Ok::<ExpressionStatementView, CanonicalizeError>(settled)),
    decreases expression_statement,
{
    lemma_resolution_settled_expression(d, expression_statement.expression);
}

/// What the resolution of the receiver gives for a block, a second pass leaves as it is.
pub proof fn lemma_resolution_settled_block(d: DirectorView<SelfResolverView>, block: BlockView)
    requires
        !d.reducer.receivers.contains("self"@),
    ensures
        walk_block::<SelfResolver>(d, block).1 matches Ok(settled) ==>
            walk_block::<SelfResolver>(d, block) == (
            d,
            Ok::<BlockView, CanonicalizeError>(settled),
        ) && walk_block::<SelfResolver>(
            d,
            settled,
        ) == (d, Ok::<BlockView, CanonicalizeError>(settled)),
    decreases block,
{
    lemma_resolution_settled_statements(d, block.statements);
}

/// What the resolution of the receiver gives for an input variable of a function, a second pass leaves as it is.
pub proof fn lemma_resolution_settled_function_input_variable(
    d: DirectorView<SelfResolverView>,
    variable: FunctionInputVariableView,
)
    requires
        !d.reducer.receivers.contains("self"@),
    ensures
        walk_function_input_variable::<SelfResolver>(d, variable).1 matches Ok(settled) ==>
            walk_function_input_variable::<SelfResolver>(d, variable) == (
            d,
            Ok::<FunctionInputVariableView, CanonicalizeError>(settled),
        ) && walk_function_input_variable::<SelfResolver>(
            d,
            settled,
        ) == (d, Ok::<FunctionInputVariableView, CanonicalizeError>(settled)),
    decreases variable,
{
    lemma_resolution_settled_identifier(d, variable.identifier);
    lemma_resolution_settled_type(d, variable.type_, variable.span);
}

/// What the resolution of the receiver gives for an input of a function, a second pass leaves as it is.
pub proof fn lemma_resolution_settled_function_input(
    d: DirectorView<SelfResolverView>,
    input: FunctionInputView,
)
    requires
        !d.reducer.receivers.contains("self"@),
    ensures
        walk_function_input::<SelfResolver>(d, input).1 matches Ok(settled) ==>
            walk_function_input::<SelfResolver>(d, input) == (
            d,
            Ok::<FunctionInputView, CanonicalizeError>(settled),
        ) && walk_function_input::<SelfResolver>(
            d,
            settled,
        ) == (d, Ok::<FunctionInputView, CanonicalizeError>(settled)),
    decreases input,
{
    match input {
        FunctionInputView::Variable(f0) => {
            lemma_resolution_settled_function_input_variable(d, f0);
        },
        _ => {},
    }
}

/// What the resolution of the receiver gives for the package of an import, a second pass leaves as it is.
pub proof fn lemma_resolution_settled_package_or_packages(
    d: DirectorView<SelfResolverView>,
    package_or_packages: PackageOrPackagesView,
)
    requires
        !d.reducer.receivers.contains("self"@),
    ensures
        walk_package_or_packages::<SelfResolver>(d, package_or_packages).1 matches Ok(settled) ==>
            walk_package_or_packages::<SelfResolver>(d, package_or_packages) == (
            d,
            Ok::<PackageOrPackagesView, CanonicalizeError>(settled),
        ) && walk_package_or_packages::<SelfResolver>(
            d,
            settled,
        ) == (d, Ok::<PackageOrPackagesView, CanonicalizeError>(settled)),
    decreases package_or_packages,
{
    match package_or_packages {
        PackageOrPackagesView::Package(f0) => {
            lemma_resolution_settled_identifier(d, f0.name);
        },
        PackageOrPackagesView::Packages(f0) => {
            lemma_resolution_settled_identifier(d, f0.name);
        },
    }
}

/// What the resolution of the receiver gives for an import, a second pass leaves as it is.
pub proof fn lemma_resolution_settled_import(
    d: DirectorView<SelfResolverView>,
    import: ImportStatementView,
)
    requires
        !d.reducer.receivers.contains("self"@),
    ensures
        walk_import::<SelfResolver>(d, import).1 matches Ok(settled) ==>
            walk_import::<SelfResolver>(d, import) == (
            d,
            Ok::<ImportStatementView, CanonicalizeError>(settled),
        ) && walk_import::<SelfResolver>(
            d,
            settled,
        ) == (d, Ok::<ImportStatementView, CanonicalizeError>(settled)),
    decreases import,
{
    lemma_resolution_settled_package_or_packages(d, import.package_or_packages);
}

/// What the resolution of the receiver gives for a member of a circuit, a second pass leaves as it is.
pub proof fn lemma_resolution_settled_circuit_member(
    d: DirectorView<SelfResolverView>,
    circuit_member: CircuitMemberView,
)
    requires
        !d.reducer.receivers.contains("self"@),
    ensures
        walk_circuit_member::<SelfResolver>(d, circuit_member).1 matches Ok(settled) ==>
            walk_circuit_member::<SelfResolver>(d, circuit_member) == (
            d,
            Ok::<CircuitMemberView, CanonicalizeError>(settled),
        ) && walk_circuit_member::<SelfResolver>(
            d,
            settled,
        ) == (d, Ok::<CircuitMemberView, CanonicalizeError>(settled)),
    decreases circuit_member,
{
    let inner = DirectorView { reducer: d.reducer, in_circuit: !d.in_circuit };
    match circuit_member {
        CircuitMemberView::CircuitVariable(f0, f1) => {
            lemma_resolution_settled_identifier(inner, f0);
            lemma_resolution_settled_type(inner, f1, f0.span);
        },
        CircuitMemberView::CircuitFunction(f0) => {
            lemma_resolution_settled_function(inner, f0);
        },
    }
}

/// What the resolution of the receiver gives for an annotation, a second pass leaves as it is.
pub proof fn lemma_resolution_settled_annotation(
    d: DirectorView<SelfResolverView>,
    annotation: AnnotationView,
)
    requires
        !d.reducer.receivers.contains("self"@),
    ensures
        walk_annotation::<SelfResolver>(d, annotation).1 matches Ok(settled) ==>
            walk_annotation::<SelfResolver>(d, annotation) == (
            d,
            Ok::<AnnotationView, CanonicalizeError>(settled),
        ) && walk_annotation::<SelfResolver>(
            d,
            settled,
        ) == (d, Ok::<AnnotationView, CanonicalizeError>(settled)),
    decreases annotation,
{
    lemma_resolution_settled_identifier(d, annotation.name);
}

/// What the resolution of the receiver gives for a function, a second pass leaves as it is.
pub proof fn lemma_resolution_settled_function(
    d: DirectorView<SelfResolverView>,
    function: FunctionView,
)
    requires
        !d.reducer.receivers.contains("self"@),
    ensures
        walk_function::<SelfResolver>(d, function).1 matches Ok(settled) ==>
            walk_function::<SelfResolver>(d, function) == (
            d,
            Ok::<FunctionView, CanonicalizeError>(settled),
        ) && walk_function::<SelfResolver>(
            d,
            settled,
        ) == (d, Ok::<FunctionView, CanonicalizeError>(settled)),
    decreases function,
{
    lemma_resolution_settled_identifier(d, function.identifier);
    lemma_resolution_settled_annotations(d, function.annotations);
    lemma_resolution_settled_function_inputs(d, function.input);
    match function.output {
        Some(v) => {
            lemma_resolution_settled_type(d, v, function.span);
        },
        None => {},
    }
    lemma_resolution_settled_block(d, function.block);
}

/// What the resolution of the receiver gives for a list, a second pass leaves as it is.
pub proof fn lemma_resolution_settled_types(
    d: DirectorView<SelfResolverView>,
    items: Seq<TypeView>,
    span: Span,
)
    requires
        !d.reducer.receivers.contains("self"@),
    ensures
        walk_types::<SelfResolver>(d, items, span).1 matches Ok(settled) ==>
            walk_types::<SelfResolver>(d, items, span) == (
            d,
            Ok::<Seq<TypeView>, CanonicalizeError>(settled),
        ) && walk_types::<SelfResolver>(
            d,
            settled,
            span,
        ) == (d, Ok::<Seq<TypeView>, CanonicalizeError>(settled)),
    decreases items,
{
    if items.len() > 0 {
        lemma_resolution_settled_types(d, items.drop_last(), span);
        lemma_resolution_settled_type(d, items.last(), span);
        match walk_types::<SelfResolver>(d, items, span).1 {
            Ok(settled) => {
                let done = walk_types::<SelfResolver>(d, items.drop_last(), span).1->Ok_0;
                let node = walk_type::<SelfResolver>(d, items.last(), span).1->Ok_0;
                assert(settled == done.push(node));
                assert(settled.drop_last() =~= done);
                assert(settled.last() == node);
            },
            Err(_) => {},
        }
    }
}

/// What the resolution of the receiver gives for a list, a second pass leaves as it is.
pub proof fn lemma_resolution_settled_spread_or_expressions(
    d: DirectorView<SelfResolverView>,
    items: Seq<SpreadOrExpressionView>,
)
    requires
        !d.reducer.receivers.contains("self"@),
    ensures
        walk_spread_or_expressions::<SelfResolver>(d, items).1 matches Ok(settled) ==>
            walk_spread_or_expressions::<SelfResolver>(d, items) == (
            d,
            Ok::<Seq<SpreadOrExpressionView>, CanonicalizeError>(settled),
        ) && walk_spread_or_expressions::<SelfResolver>(
            d,
            settled,
        ) == (d, Ok::<Seq<SpreadOrExpressionView>, CanonicalizeError>(settled)),
    decreases items,
{
    if items.len() > 0 {
        lemma_resolution_settled_spread_or_expressions(d, items.drop_last());
        lemma_resolution_settled_spread_or_expression(d, items.last());
        match walk_spread_or_expressions::<SelfResolver>(d, items).1 {
            Ok(settled) => {
                let done = walk_spread_or_expressions::<SelfResolver>(d, items.drop_last()).1->Ok_0;
                let node = walk_spread_or_expression::<SelfResolver>(d, items.last()).1->Ok_0;
                assert(settled == done.push(node));
                assert(settled.drop_last() =~= done);
                assert(settled.last() == node);
            },
            Err(_) => {},
        }
    }
}

/// What the resolution of the receiver gives for a list, a second pass leaves as it is.
pub proof fn lemma_resolution_settled_expressions(
    d: DirectorView<SelfResolverView>,
    items: Seq<ExpressionView>,
)
    requires
        !d.reducer.receivers.contains("self"@),
    ensures
        walk_expressions::<SelfResolver>(d, items).1 matches Ok(settled) ==>
            walk_expressions::<SelfResolver>(d, items) == (
            d,
            Ok::<Seq<ExpressionView>, CanonicalizeError>(settled),
        ) && walk_expressions::<SelfResolver>(
            d,
            settled,
        ) == (d, Ok::<Seq<ExpressionView>, CanonicalizeError>(settled)),
    decreases items,
{
    if items.len() > 0 {
        lemma_resolution_settled_expressions(d, items.drop_last());
        lemma_resolution_settled_expression(d, items.last());
        match walk_expressions::<SelfResolver>(d, items).1 {
            Ok(settled) => {
                let done = walk_expressions::<SelfResolver>(d, items.drop_last()).1->Ok_0;
                let node = walk_expression::<SelfResolver>(d, items.last()).1->Ok_0;
                assert(settled == done.push(node));
                assert(settled.drop_last() =~= done);
                assert(settled.last() == node);
            },
            Err(_) => {},
        }
    }
}

/// What the resolution of the receiver gives for a list, a second pass leaves as it is.
pub proof fn lemma_resolution_settled_circuit_implied_variable_definitions(
    d: DirectorView<SelfResolverView>,
    items: Seq<CircuitImpliedVariableDefinitionView>,
)
    requires
        !d.reducer.receivers.contains("self"@),
    ensures
        walk_circuit_implied_variable_definitions::<SelfResolver>(d, items).1 matches Ok(settled) ==>
            walk_circuit_implied_variable_definitions::<SelfResolver>(d, items) == (
            d,
            Ok::<Seq<CircuitImpliedVariableDefinitionView>, CanonicalizeError>(settled),
        ) && walk_circuit_implied_variable_definitions::<SelfResolver>(
            d,
            settled,
        ) == (d, Ok::<Seq<CircuitImpliedVariableDefinitionView>, CanonicalizeError>(settled)),
    decreases items,
{
    if items.len() > 0 {
        lemma_resolution_settled_circuit_implied_variable_definitions(d, items.drop_last());
        lemma_resolution_settled_circuit_implied_variable_definition(d, items.last());
        match walk_circuit_implied_variable_definitions::<SelfResolver>(d, items).1 {
            Ok(settled) => {
                let done = walk_circuit_implied_variable_definitions::<SelfResolver>(
                    d,
                    items.drop_last(),
                ).1->Ok_0;
                let node = walk_circuit_implied_variable_definition::<SelfResolver>(
                    d,
                    items.last(),
                ).1->Ok_0;
                assert(settled == done.push(node));
                assert(settled.drop_last() =~= done);
                assert(settled.last() == node);
            },
            Err(_) => {},
        }
    }
}

/// What the resolution of the receiver gives for a list, a second pass leaves as it is.
pub proof fn lemma_resolution_settled_variable_names(
    d: DirectorView<SelfResolverView>,
    items: Seq<VariableNameView>,
)
    requires
        !d.reducer.receivers.contains("self"@),
    ensures
        walk_variable_names::<SelfResolver>(d, items).1 matches Ok(settled) ==>
            walk_variable_names::<SelfResolver>(d, items) == (
            d,
            Ok::<Seq<VariableNameView>, CanonicalizeError>(settled),
        ) && walk_variable_names::<SelfResolver>(
            d,
            settled,
        ) == (d, Ok::<Seq<VariableNameView>, CanonicalizeError>(settled)),
    decreases items,
{
    if items.len() > 0 {
        lemma_resolution_settled_variable_names(d, items.drop_last());
        lemma_resolution_settled_variable_name(d, items.last());
        match walk_variable_names::<SelfResolver>(d, items).1 {
            Ok(settled) => {
                let done = walk_variable_names::<SelfResolver>(d, items.drop_last()).1->Ok_0;
                let node = walk_variable_name::<SelfResolver>(d, items.last()).1->Ok_0;
                assert(settled == done.push(node));
                assert(settled.drop_last() =~= done);
                assert(settled.last() == node);
            },
            Err(_) => {},
        }
    }
}

/// What the resolution of the receiver gives for a list, a second pass leaves as it is.
pub proof fn lemma_resolution_settled_assignee_accesses(
    d: DirectorView<SelfResolverView>,
    items: Seq<AssigneeAccessView>,
)
    requires
        !d.reducer.receivers.contains("self"@),
    ensures
        walk_assignee_accesses::<SelfResolver>(d, items).1 matches Ok(settled) ==>
            walk_assignee_accesses::<SelfResolver>(d, items) == (
            d,
            Ok::<Seq<AssigneeAccessView>, CanonicalizeError>(settled),
        ) && walk_assignee_accesses::<SelfResolver>(
            d,
            settled,
        ) == (d, Ok::<Seq<AssigneeAccessView>, CanonicalizeError>(settled)),
    decreases items,
{
    if items.len() > 0 {
        lemma_resolution_settled_assignee_accesses(d, items.drop_last());
        lemma_resolution_settled_assignee_access(d, items.last());
        match walk_assignee_accesses::<SelfResolver>(d, items).1 {
            Ok(settled) => {
                let done = walk_assignee_accesses::<SelfResolver>(d, items.drop_last()).1->Ok_0;
                let node = walk_assignee_access::<SelfResolver>(d, items.last()).1->Ok_0;
                assert(settled == done.push(node));
                assert(settled.drop_last() =~= done);
                assert(settled.last() == node);
            },
            Err(_) => {},
        }
    }
}

/// What the resolution of the receiver gives for a list, a second pass leaves as it is.
pub proof fn lemma_resolution_settled_statements(
    d: DirectorView<SelfResolverView>,
    items: Seq<StatementView>,
)
    requires
        !d.reducer.receivers.contains("self"@),
    ensures
        walk_statements::<SelfResolver>(d, items).1 matches Ok(settled) ==>
            walk_statements::<SelfResolver>(d, items) == (
            d,
            Ok::<Seq<StatementView>, CanonicalizeError>(settled),
        ) && walk_statements::<SelfResolver>(
            d,
            settled,
        ) == (d, Ok::<Seq<StatementView>, CanonicalizeError>(settled)),
    decreases items,
{
    if items.len() > 0 {
        lemma_resolution_settled_statements(d, items.drop_last());
        lemma_resolution_settled_statement(d, items.last());
        match walk_statements::<SelfResolver>(d, items).1 {
            Ok(settled) => {
                let done = walk_statements::<SelfResolver>(d, items.drop_last()).1->Ok_0;
                let node = walk_statement::<SelfResolver>(d, items.last()).1->Ok_0;
                assert(settled == done.push(node));
                assert(settled.drop_last() =~= done);
                assert(settled.last() == node);
            },
            Err(_) => {},
        }
    }
}

/// What the resolution of the receiver gives for a list, a second pass leaves as it is.
pub proof fn lemma_resolution_settled_function_inputs(
    d: DirectorView<SelfResolverView>,
    items: Seq<FunctionInputView>,
)
    requires
        !d.reducer.receivers.contains("self"@),
    ensures
        walk_function_inputs::<SelfResolver>(d, items).1 matches Ok(settled) ==>
            walk_function_inputs::<SelfResolver>(d, items) == (
            d,
            Ok::<Seq<FunctionInputView>, CanonicalizeError>(settled),
        ) && walk_function_inputs::<SelfResolver>(
            d,
            settled,
        ) == (d, Ok::<Seq<FunctionInputView>, CanonicalizeError>(settled)),
    decreases items,
{
    if items.len() > 0 {
        lemma_resolution_settled_function_inputs(d, items.drop_last());
        lemma_resolution_settled_function_input(d, items.last());
        match walk_function_inputs::<SelfResolver>(d, items).1 {
            Ok(settled) => {
                let done = walk_function_inputs::<SelfResolver>(d, items.drop_last()).1->Ok_0;
                let node = walk_function_input::<SelfResolver>(d, items.last()).1->Ok_0;
                assert(settled == done.push(node));
                assert(settled.drop_last() =~= done);
                assert(settled.last() == node);
            },
            Err(_) => {},
        }
    }
}

/// What the resolution of the receiver gives for a list, a second pass leaves as it is.
pub proof fn lemma_resolution_settled_imports(
    d: DirectorView<SelfResolverView>,
    items: Seq<ImportStatementView>,
)
    requires
        !d.reducer.receivers.contains("self"@),
    ensures
        walk_imports::<SelfResolver>(d, items).1 matches Ok(settled) ==>
            walk_imports::<SelfResolver>(d, items) == (
            d,
            Ok::<Seq<ImportStatementView>, CanonicalizeError>(settled),
        ) && walk_imports::<SelfResolver>(
            d,
            settled,
        ) == (d, Ok::<Seq<ImportStatementView>, CanonicalizeError>(settled)),
    decreases items,
{
    if items.len() > 0 {
        lemma_resolution_settled_imports(d, items.drop_last());
        lemma_resolution_settled_import(d, items.last());
        match walk_imports::<SelfResolver>(d, items).1 {
            Ok(settled) => {
                let done = walk_imports::<SelfResolver>(d, items.drop_last()).1->Ok_0;
                let node = walk_import::<SelfResolver>(d, items.last()).1->Ok_0;
                assert(settled == done.push(node));
                assert(settled.drop_last() =~= done);
                assert(settled.last() == node);
            },
            Err(_) => {},
        }
    }
}

/// What the resolution of the receiver gives for a list, a second pass leaves as it is.
pub proof fn lemma_resolution_settled_circuit_members(
    d: DirectorView<SelfResolverView>,
    items: Seq<CircuitMemberView>,
)
    requires
        !d.reducer.receivers.contains("self"@),
    ensures
        walk_circuit_members::<SelfResolver>(d, items).1 matches Ok(settled) ==>
            walk_circuit_members::<SelfResolver>(d, items) == (
            d,
            Ok::<Seq<CircuitMemberView>, CanonicalizeError>(settled),
        ) && walk_circuit_members::<SelfResolver>(
            d,
            settled,
        ) == (d, Ok::<Seq<CircuitMemberView>, CanonicalizeError>(settled)),
    decreases items,
{
    if items.len() > 0 {
        lemma_resolution_settled_circuit_members(d, items.drop_last());
        lemma_resolution_settled_circuit_member(d, items.last());
        match walk_circuit_members::<SelfResolver>(d, items).1 {
            Ok(settled) => {
                let done = walk_circuit_members::<SelfResolver>(d, items.drop_last()).1->Ok_0;
                let node = walk_circuit_member::<SelfResolver>(d, items.last()).1->Ok_0;
                assert(settled == done.push(node));
                assert(settled.drop_last() =~= done);
                assert(settled.last() == node);
            },
            Err(_) => {},
        }
    }
}

/// What the resolution of the receiver gives for a list, a second pass leaves as it is.
pub proof fn lemma_resolution_settled_annotations(
    d: DirectorView<SelfResolverView>,
    items: Seq<AnnotationView>,
)
    requires
        !d.reducer.receivers.contains("self"@),
    ensures
        walk_annotations::<SelfResolver>(d, items).1 matches Ok(settled) ==>
            walk_annotations::<SelfResolver>(d, items) == (
            d,
            Ok::<Seq<AnnotationView>, CanonicalizeError>(settled),
        ) && walk_annotations::<SelfResolver>(
            d,
            settled,
        ) == (d, Ok::<Seq<AnnotationView>, CanonicalizeError>(settled)),
    decreases items,
{
    if items.len() > 0 {
        lemma_resolution_settled_annotations(d, items.drop_last());
        lemma_resolution_settled_annotation(d, items.last());
        match walk_annotations::<SelfResolver>(d, items).1 {
            Ok(settled) => {
                let done = walk_annotations::<SelfResolver>(d, items.drop_last()).1->Ok_0;
                let node = walk_annotation::<SelfResolver>(d, items.last()).1->Ok_0;
                assert(settled == done.push(node));
                assert(settled.drop_last() =~= done);
                assert(settled.last() == node);
            },
            Err(_) => {},
        }
    }
}

} // verus!
