//! The resolution of the receiver invents no place.
use crate::ast::common::{Identifier, IdentifierView};
use crate::ast::expression::{
    ArrayAccessExpressionView, ArrayInitExpressionView, ArrayInlineExpressionView,
    ArrayRangeAccessExpressionView, BinaryExpressionView, CallExpressionView, CastExpressionView,
    CircuitImpliedVariableDefinitionView, CircuitInitExpressionView,
    CircuitMemberAccessExpressionView, CircuitStaticFunctionAccessExpressionView, Expression,
    ExpressionView, GroupTupleView, GroupValueView, SpreadOrExpressionView, TernaryExpressionView,
    TupleAccessExpressionView, TupleInitExpressionView, UnaryExpressionView, ValueExpressionView,
};
use crate::ast::function::{
    AnnotationView, Circuit, CircuitMemberView, FunctionInputVariableView, FunctionInputView,
    FunctionView,
};
use crate::ast::imports::{ImportStatementView, Package, PackageOrPackagesView, Packages};
use crate::ast::statement::{
    AssigneeAccessView, AssigneeView, AssignStatementView, Block, BlockView,
    ConditionalStatementView, ConsoleFunctionView, ConsoleStatementView, DefinitionStatementView,
    ExpressionStatementView, IterationStatementView, ReturnStatementView, StatementView,
    VariableNameView,
};
use crate::ast::types::TypeView;
use crate::ast::spans::{
    annotation_seq_spans, annotation_spans, array_access_expression_spans,
    array_init_expression_spans, array_inline_expression_spans, array_range_access_expression_spans,
    assign_statement_spans, assignee_access_seq_spans, assignee_access_spans, assignee_spans,
    binary_expression_spans, block_spans, call_expression_spans, cast_expression_spans,
    circuit_implied_variable_definition_seq_spans, circuit_implied_variable_definition_spans,
    circuit_init_expression_spans, circuit_member_access_expression_spans, circuit_member_seq_spans,
    circuit_member_spans, circuit_static_function_access_expression_spans,
    conditional_statement_spans, console_statement_spans, definition_statement_spans,
    expression_seq_spans, expression_spans, expression_statement_spans, function_input_seq_spans,
    function_input_spans, function_input_variable_spans, function_spans, group_tuple_spans,
    group_value_spans, identifier_spans, import_statement_seq_spans, import_statement_spans,
    iteration_statement_spans, package_or_packages_spans, return_statement_spans,
    spread_or_expression_seq_spans, spread_or_expression_spans, statement_seq_spans,
    statement_spans, ternary_expression_spans, tuple_access_expression_spans,
    tuple_init_expression_spans, type_seq_spans, type_spans, unary_expression_spans,
    value_expression_spans, variable_name_seq_spans, variable_name_spans,
};
use crate::reducer::reconstructing_director::{
    DirectorView, walk_annotation, walk_annotations, walk_array_access, walk_array_init,
    walk_array_inline, walk_array_range_access, walk_assign, walk_assignee, walk_assignee_access,
    walk_assignee_accesses, walk_binary, walk_block, walk_call, walk_cast,
    walk_circuit_implied_variable_definition, walk_circuit_implied_variable_definitions,
    walk_circuit_init, walk_circuit_member, walk_circuit_member_access, walk_circuit_members,
    walk_circuit_static_fn_access, walk_conditional, walk_console, walk_definition, walk_expression,
    walk_expression_statement, walk_expressions, walk_function, walk_function_input,
    walk_function_input_variable, walk_function_inputs, walk_group_tuple, walk_group_value,
    walk_identifier, walk_import, walk_imports, walk_iteration, walk_package_or_packages,
    walk_return, walk_spread_or_expression, walk_spread_or_expressions, walk_statement,
    walk_statements, walk_ternary, walk_tuple_access, walk_tuple_init, walk_type, walk_types,
    walk_unary, walk_value, walk_variable_name, walk_variable_names,
};
use crate::reducer::resolution_settled::{
    lemma_resolution_settled_annotations, lemma_resolution_settled_array_access,
    lemma_resolution_settled_array_init, lemma_resolution_settled_array_inline,
    lemma_resolution_settled_array_range_access, lemma_resolution_settled_assign,
    lemma_resolution_settled_assignee, lemma_resolution_settled_assignee_accesses,
    lemma_resolution_settled_binary, lemma_resolution_settled_block, lemma_resolution_settled_call,
    lemma_resolution_settled_cast, lemma_resolution_settled_circuit_implied_variable_definitions,
    lemma_resolution_settled_circuit_init, lemma_resolution_settled_circuit_member_access,
    lemma_resolution_settled_circuit_members, lemma_resolution_settled_circuit_static_fn_access,
    lemma_resolution_settled_conditional, lemma_resolution_settled_console,
    lemma_resolution_settled_definition, lemma_resolution_settled_expression,
    lemma_resolution_settled_expression_statement, lemma_resolution_settled_expressions,
    lemma_resolution_settled_function, lemma_resolution_settled_function_input_variable,
    lemma_resolution_settled_function_inputs, lemma_resolution_settled_group_tuple,
    lemma_resolution_settled_group_value, lemma_resolution_settled_identifier,
    lemma_resolution_settled_imports, lemma_resolution_settled_iteration,
    lemma_resolution_settled_package_or_packages, lemma_resolution_settled_return,
    lemma_resolution_settled_spread_or_expressions, lemma_resolution_settled_statement,
    lemma_resolution_settled_statements, lemma_resolution_settled_ternary,
    lemma_resolution_settled_tuple_access, lemma_resolution_settled_tuple_init,
    lemma_resolution_settled_type, lemma_resolution_settled_types, lemma_resolution_settled_unary,
    lemma_resolution_settled_value, lemma_resolution_settled_variable_names,
};
use crate::reducer::self_resolver::{resolved_identifier, SelfResolver, SelfResolverView};
use crate::span::Span;
use vstd::prelude::*;

verus! {

/// What the resolution of the receiver gives for a type speaks of no place but those of what it was given.
pub proof fn lemma_resolution_spans_type(
    d: DirectorView<SelfResolverView>,
    type_: TypeView,
    span: Span,
)
    requires
        !d.reducer.receivers.contains("self"@),
    ensures
        walk_type::<SelfResolver>(d, type_, span).1 matches Ok(given) ==>
            type_spans(given).subset_of(
            type_spans(type_).insert(span),
        ),
    decreases type_,
{
    match type_ {
        TypeView::Array(f0, f1) => {
            lemma_resolution_settled_type(d, *f0, span);
            lemma_resolution_spans_type(d, *f0, span);
        },
        TypeView::Tuple(f0) => {
            lemma_resolution_settled_types(d, f0, span);
            lemma_resolution_spans_types(d, f0, span);
        },
        TypeView::Circuit(f0) => {
            lemma_resolution_settled_identifier(d, f0);
            lemma_resolution_spans_identifier(d, f0);
        },
        _ => {},
    }
}

/// What the resolution of the receiver gives for an expression speaks of no place but those of what it was given.
pub proof fn lemma_resolution_spans_expression(
    d: DirectorView<SelfResolverView>,
    expression: ExpressionView,
)
    requires
        !d.reducer.receivers.contains("self"@),
    ensures
        walk_expression::<SelfResolver>(d, expression).1 matches Ok(given) ==>
            expression_spans(given).subset_of(
            expression_spans(expression),
        ),
    decreases expression,
{
    match expression {
        ExpressionView::Identifier(f0) => {
            lemma_resolution_settled_identifier(d, f0);
            lemma_resolution_spans_identifier(d, f0);
            let name = resolved_identifier(d.reducer, f0);
            if d.reducer.receivers.contains(name.name) {
                let receiver = IdentifierView { name: "self"@, span: name.span };
                let access = CircuitMemberAccessExpressionView {
                    circuit: Box::new(ExpressionView::Identifier(receiver)),
                    name,
                    span: name.span,
                };
                assert(expression_spans(ExpressionView::Identifier(receiver)) =~= set![f0.span]);
                assert(circuit_member_access_expression_spans(access) =~= set![f0.span]);
                assert(expression_spans(ExpressionView::CircuitMemberAccess(access)) =~= set![
                    f0.span,
                ]);
            }
        },
        ExpressionView::Value(f0) => {
            lemma_resolution_settled_value(d, f0);
            lemma_resolution_spans_value(d, f0);
        },
        ExpressionView::Binary(f0) => {
            lemma_resolution_settled_binary(d, f0);
            lemma_resolution_spans_binary(d, f0);
        },
        ExpressionView::Unary(f0) => {
            lemma_resolution_settled_unary(d, f0);
            lemma_resolution_spans_unary(d, f0);
        },
        ExpressionView::Ternary(f0) => {
            lemma_resolution_settled_ternary(d, f0);
            lemma_resolution_spans_ternary(d, f0);
        },
        ExpressionView::Cast(f0) => {
            lemma_resolution_settled_cast(d, f0);
            lemma_resolution_spans_cast(d, f0);
        },
        ExpressionView::ArrayInline(f0) => {
            lemma_resolution_settled_array_inline(d, f0);
            lemma_resolution_spans_array_inline(d, f0);
        },
        ExpressionView::ArrayInit(f0) => {
            lemma_resolution_settled_array_init(d, f0);
            lemma_resolution_spans_array_init(d, f0);
        },
        ExpressionView::ArrayAccess(f0) => {
            lemma_resolution_settled_array_access(d, f0);
            lemma_resolution_spans_array_access(d, f0);
        },
        ExpressionView::ArrayRangeAccess(f0) => {
            lemma_resolution_settled_array_range_access(d, f0);
            lemma_resolution_spans_array_range_access(d, f0);
        },
        ExpressionView::TupleInit(f0) => {
            lemma_resolution_settled_tuple_init(d, f0);
            lemma_resolution_spans_tuple_init(d, f0);
        },
        ExpressionView::TupleAccess(f0) => {
            lemma_resolution_settled_tuple_access(d, f0);
            lemma_resolution_spans_tuple_access(d, f0);
        },
        ExpressionView::CircuitInit(f0) => {
            lemma_resolution_settled_circuit_init(d, f0);
            lemma_resolution_spans_circuit_init(d, f0);
        },
        ExpressionView::CircuitMemberAccess(f0) => {
            lemma_resolution_settled_circuit_member_access(d, f0);
            lemma_resolution_spans_circuit_member_access(d, f0);
        },
        ExpressionView::CircuitStaticFunctionAccess(f0) => {
            lemma_resolution_settled_circuit_static_fn_access(d, f0);
            lemma_resolution_spans_circuit_static_fn_access(d, f0);
        },
        ExpressionView::Call(f0) => {
            lemma_resolution_settled_call(d, f0);
            lemma_resolution_spans_call(d, f0);
        },
    }
}

/// What the resolution of the receiver gives for an identifier speaks of no place but those of what it was given.
pub proof fn lemma_resolution_spans_identifier(
    d: DirectorView<SelfResolverView>,
    identifier: IdentifierView,
)
    requires
        !d.reducer.receivers.contains("self"@),
    ensures
        walk_identifier::<SelfResolver>(d, identifier).1 matches Ok(given) ==>
            identifier_spans(given).subset_of(
            identifier_spans(identifier),
        ),
    decreases identifier,
{
}

/// What the resolution of the receiver gives for a group tuple speaks of no place but those of what it was given.
pub proof fn lemma_resolution_spans_group_tuple(
    d: DirectorView<SelfResolverView>,
    group_tuple: GroupTupleView,
)
    requires
        !d.reducer.receivers.contains("self"@),
    ensures
        walk_group_tuple::<SelfResolver>(d, group_tuple).1 matches Ok(given) ==>
            group_tuple_spans(given).subset_of(
            group_tuple_spans(group_tuple),
        ),
    decreases group_tuple,
{
}

/// What the resolution of the receiver gives for a group value speaks of no place but those of what it was given.
pub proof fn lemma_resolution_spans_group_value(
    d: DirectorView<SelfResolverView>,
    group_value: GroupValueView,
)
    requires
        !d.reducer.receivers.contains("self"@),
    ensures
        walk_group_value::<SelfResolver>(d, group_value).1 matches Ok(given) ==>
            group_value_spans(given).subset_of(
            group_value_spans(group_value),
        ),
    decreases group_value,
{
    match group_value {
        GroupValueView::Tuple(f0) => {
            lemma_resolution_settled_group_tuple(d, f0);
            lemma_resolution_spans_group_tuple(d, f0);
        },
        _ => {},
    }
}

/// What the resolution of the receiver gives for a literal value speaks of no place but those of what it was given.
pub proof fn lemma_resolution_spans_value(
    d: DirectorView<SelfResolverView>,
    value: ValueExpressionView,
)
    requires
        !d.reducer.receivers.contains("self"@),
    ensures
        walk_value::<SelfResolver>(d, value).1 matches Ok(given) ==>
            value_expression_spans(given).subset_of(
            value_expression_spans(value),
        ),
    decreases value,
{
    match value {
        ValueExpressionView::Group(f0) => {
            lemma_resolution_settled_group_value(d, *f0);
            lemma_resolution_spans_group_value(d, *f0);
        },
        _ => {},
    }
}

/// What the resolution of the receiver gives for a binary expression speaks of no place but those of what it was given.
pub proof fn lemma_resolution_spans_binary(
    d: DirectorView<SelfResolverView>,
    binary: BinaryExpressionView,
)
    requires
        !d.reducer.receivers.contains("self"@),
    ensures
        walk_binary::<SelfResolver>(d, binary).1 matches Ok(given) ==>
            binary_expression_spans(given).subset_of(
            binary_expression_spans(binary),
        ),
    decreases binary,
{
    lemma_resolution_settled_expression(d, *binary.left);
    lemma_resolution_spans_expression(d, *binary.left);
    lemma_resolution_settled_expression(d, *binary.right);
    lemma_resolution_spans_expression(d, *binary.right);
}

/// What the resolution of the receiver gives for a unary expression speaks of no place but those of what it was given.
pub proof fn lemma_resolution_spans_unary(
    d: DirectorView<SelfResolverView>,
    unary: UnaryExpressionView,
)
    requires
        !d.reducer.receivers.contains("self"@),
    ensures
        walk_unary::<SelfResolver>(d, unary).1 matches Ok(given) ==>
            unary_expression_spans(given).subset_of(
            unary_expression_spans(unary),
        ),
    decreases unary,
{
    lemma_resolution_settled_expression(d, *unary.inner);
    lemma_resolution_spans_expression(d, *unary.inner);
}

/// What the resolution of the receiver gives for a ternary expression speaks of no place but those of what it was given.
pub proof fn lemma_resolution_spans_ternary(
    d: DirectorView<SelfResolverView>,
    ternary: TernaryExpressionView,
)
    requires
        !d.reducer.receivers.contains("self"@),
    ensures
        walk_ternary::<SelfResolver>(d, ternary).1 matches Ok(given) ==>
            ternary_expression_spans(given).subset_of(
            ternary_expression_spans(ternary),
        ),
    decreases ternary,
{
    lemma_resolution_settled_expression(d, *ternary.condition);
    lemma_resolution_spans_expression(d, *ternary.condition);
    lemma_resolution_settled_expression(d, *ternary.if_true);
    lemma_resolution_spans_expression(d, *ternary.if_true);
    lemma_resolution_settled_expression(d, *ternary.if_false);
    lemma_resolution_spans_expression(d, *ternary.if_false);
}

/// What the resolution of the receiver gives for a cast speaks of no place but those of what it was given.
pub proof fn lemma_resolution_spans_cast(
    d: DirectorView<SelfResolverView>,
    cast: CastExpressionView,
)
    requires
        !d.reducer.receivers.contains("self"@),
    ensures
        walk_cast::<SelfResolver>(d, cast).1 matches Ok(given) ==>
            cast_expression_spans(given).subset_of(
            cast_expression_spans(cast),
        ),
    decreases cast,
{
    lemma_resolution_settled_expression(d, *cast.inner);
    lemma_resolution_spans_expression(d, *cast.inner);
    lemma_resolution_settled_type(d, cast.target_type, cast.span);
    lemma_resolution_spans_type(d, cast.target_type, cast.span);
}

/// What the resolution of the receiver gives for an element of an inline array speaks of no place but those of what it was given.
pub proof fn lemma_resolution_spans_spread_or_expression(
    d: DirectorView<SelfResolverView>,
    element: SpreadOrExpressionView,
)
    requires
        !d.reducer.receivers.contains("self"@),
    ensures
        walk_spread_or_expression::<SelfResolver>(d, element).1 matches Ok(given) ==>
            spread_or_expression_spans(given).subset_of(
            spread_or_expression_spans(element),
        ),
    decreases element,
{
    match element {
        SpreadOrExpressionView::Spread(f0) => {
            lemma_resolution_settled_expression(d, f0);
            lemma_resolution_spans_expression(d, f0);
        },
        SpreadOrExpressionView::Expression(f0) => {
            lemma_resolution_settled_expression(d, f0);
            lemma_resolution_spans_expression(d, f0);
        },
    }
}

/// What the resolution of the receiver gives for an inline array speaks of no place but those of what it was given.
pub proof fn lemma_resolution_spans_array_inline(
    d: DirectorView<SelfResolverView>,
    array_inline: ArrayInlineExpressionView,
)
    requires
        !d.reducer.receivers.contains("self"@),
    ensures
        walk_array_inline::<SelfResolver>(d, array_inline).1 matches Ok(given) ==>
            array_inline_expression_spans(given).subset_of(
            array_inline_expression_spans(array_inline),
        ),
    decreases array_inline,
{
    lemma_resolution_settled_spread_or_expressions(d, array_inline.elements);
    lemma_resolution_spans_spread_or_expressions(d, array_inline.elements);
}

/// What the resolution of the receiver gives for an array initialiser speaks of no place but those of what it was given.
pub proof fn lemma_resolution_spans_array_init(
    d: DirectorView<SelfResolverView>,
    array_init: ArrayInitExpressionView,
)
    requires
        !d.reducer.receivers.contains("self"@),
    ensures
        walk_array_init::<SelfResolver>(d, array_init).1 matches Ok(given) ==>
            array_init_expression_spans(given).subset_of(
            array_init_expression_spans(array_init),
        ),
    decreases array_init,
{
    lemma_resolution_settled_expression(d, *array_init.element);
    lemma_resolution_spans_expression(d, *array_init.element);
}

/// What the resolution of the receiver gives for an array access speaks of no place but those of what it was given.
pub proof fn lemma_resolution_spans_array_access(
    d: DirectorView<SelfResolverView>,
    array_access: ArrayAccessExpressionView,
)
    requires
        !d.reducer.receivers.contains("self"@),
    ensures
        walk_array_access::<SelfResolver>(d, array_access).1 matches Ok(given) ==>
            array_access_expression_spans(given).subset_of(
            array_access_expression_spans(array_access),
        ),
    decreases array_access,
{
    lemma_resolution_settled_expression(d, *array_access.array);
    lemma_resolution_spans_expression(d, *array_access.array);
    lemma_resolution_settled_expression(d, *array_access.index);
    lemma_resolution_spans_expression(d, *array_access.index);
}

/// What the resolution of the receiver gives for an array range access speaks of no place but those of what it was given.
pub proof fn lemma_resolution_spans_array_range_access(
    d: DirectorView<SelfResolverView>,
    array_range_access: ArrayRangeAccessExpressionView,
)
    requires
        !d.reducer.receivers.contains("self"@),
    ensures
        walk_array_range_access::<SelfResolver>(d, array_range_access).1 matches Ok(given) ==>
            array_range_access_expression_spans(given).subset_of(
            array_range_access_expression_spans(array_range_access),
        ),
    decreases array_range_access,
{
    lemma_resolution_settled_expression(d, *array_range_access.array);
    lemma_resolution_spans_expression(d, *array_range_access.array);
    match array_range_access.left {
        Some(v) => {
            lemma_resolution_settled_expression(d, *v);
            lemma_resolution_spans_expression(d, *v);
        },
        None => {},
    }
    match array_range_access.right {
        Some(v) => {
            lemma_resolution_settled_expression(d, *v);
            lemma_resolution_spans_expression(d, *v);
        },
        None => {},
    }
}

/// What the resolution of the receiver gives for a tuple initialiser speaks of no place but those of what it was given.
pub proof fn lemma_resolution_spans_tuple_init(
    d: DirectorView<SelfResolverView>,
    tuple_init: TupleInitExpressionView,
)
    requires
        !d.reducer.receivers.contains("self"@),
    ensures
        walk_tuple_init::<SelfResolver>(d, tuple_init).1 matches Ok(given) ==>
            tuple_init_expression_spans(given).subset_of(
            tuple_init_expression_spans(tuple_init),
        ),
    decreases tuple_init,
{
    lemma_resolution_settled_expressions(d, tuple_init.elements);
    lemma_resolution_spans_expressions(d, tuple_init.elements);
}

/// What the resolution of the receiver gives for a tuple access speaks of no place but those of what it was given.
pub proof fn lemma_resolution_spans_tuple_access(
    d: DirectorView<SelfResolverView>,
    tuple_access: TupleAccessExpressionView,
)
    requires
        !d.reducer.receivers.contains("self"@),
    ensures
        walk_tuple_access::<SelfResolver>(d, tuple_access).1 matches Ok(given) ==>
            tuple_access_expression_spans(given).subset_of(
            tuple_access_expression_spans(tuple_access),
        ),
    decreases tuple_access,
{
    lemma_resolution_settled_expression(d, *tuple_access.tuple);
    lemma_resolution_spans_expression(d, *tuple_access.tuple);
}

/// What the resolution of the receiver gives for a member of a circuit initialiser speaks of no place but those of what it was given.
pub proof fn lemma_resolution_spans_circuit_implied_variable_definition(
    d: DirectorView<SelfResolverView>,
    variable: CircuitImpliedVariableDefinitionView,
)
    requires
        !d.reducer.receivers.contains("self"@),
    ensures
        walk_circuit_implied_variable_definition::<SelfResolver>(d, variable).1 matches Ok(given) ==>
            circuit_implied_variable_definition_spans(given).subset_of(
            circuit_implied_variable_definition_spans(variable),
        ),
    decreases variable,
{
    lemma_resolution_settled_identifier(d, variable.identifier);
    lemma_resolution_spans_identifier(d, variable.identifier);
    match variable.expression {
        Some(v) => {
            lemma_resolution_settled_expression(d, v);
            lemma_resolution_spans_expression(d, v);
        },
        None => {},
    }
}

/// What the resolution of the receiver gives for a circuit initialiser speaks of no place but those of what it was given.
pub proof fn lemma_resolution_spans_circuit_init(
    d: DirectorView<SelfResolverView>,
    circuit_init: CircuitInitExpressionView,
)
    requires
        !d.reducer.receivers.contains("self"@),
    ensures
        walk_circuit_init::<SelfResolver>(d, circuit_init).1 matches Ok(given) ==>
            circuit_init_expression_spans(given).subset_of(
            circuit_init_expression_spans(circuit_init),
        ),
    decreases circuit_init,
{
    lemma_resolution_settled_identifier(d, circuit_init.name);
    lemma_resolution_spans_identifier(d, circuit_init.name);
    lemma_resolution_settled_circuit_implied_variable_definitions(d, circuit_init.members);
    lemma_resolution_spans_circuit_implied_variable_definitions(d, circuit_init.members);
}

/// What the resolution of the receiver gives for a circuit member access speaks of no place but those of what it was given.
pub proof fn lemma_resolution_spans_circuit_member_access(
    d: DirectorView<SelfResolverView>,
    circuit_member_access: CircuitMemberAccessExpressionView,
)
    requires
        !d.reducer.receivers.contains("self"@),
    ensures
        walk_circuit_member_access::<SelfResolver>(d, circuit_member_access).1 matches Ok(given) ==>
            circuit_member_access_expression_spans(given).subset_of(
            circuit_member_access_expression_spans(circuit_member_access),
        ),
    decreases circuit_member_access,
{
    lemma_resolution_settled_expression(d, *circuit_member_access.circuit);
    lemma_resolution_spans_expression(d, *circuit_member_access.circuit);
    lemma_resolution_settled_identifier(d, circuit_member_access.name);
    lemma_resolution_spans_identifier(d, circuit_member_access.name);
}

/// What the resolution of the receiver gives for a static function access speaks of no place but those of what it was given.
pub proof fn lemma_resolution_spans_circuit_static_fn_access(
    d: DirectorView<SelfResolverView>,
    circuit_static_fn_access: CircuitStaticFunctionAccessExpressionView,
)
    requires
        !d.reducer.receivers.contains("self"@),
    ensures
        walk_circuit_static_fn_access::<SelfResolver>(d, circuit_static_fn_access).1 matches Ok(given) ==>
            circuit_static_function_access_expression_spans(given).subset_of(
            circuit_static_function_access_expression_spans(circuit_static_fn_access),
        ),
    decreases circuit_static_fn_access,
{
    lemma_resolution_settled_expression(d, *circuit_static_fn_access.circuit);
    lemma_resolution_spans_expression(d, *circuit_static_fn_access.circuit);
    lemma_resolution_settled_identifier(d, circuit_static_fn_access.name);
    lemma_resolution_spans_identifier(d, circuit_static_fn_access.name);
}

/// What the resolution of the receiver gives for a call speaks of no place but those of what it was given.
pub proof fn lemma_resolution_spans_call(
    d: DirectorView<SelfResolverView>,
    call: CallExpressionView,
)
    requires
        !d.reducer.receivers.contains("self"@),
    ensures
        walk_call::<SelfResolver>(d, call).1 matches Ok(given) ==>
            call_expression_spans(given).subset_of(
            call_expression_spans(call),
        ),
    decreases call,
{
    lemma_resolution_settled_expression(d, *call.function);
    lemma_resolution_spans_expression(d, *call.function);
    lemma_resolution_settled_expressions(d, call.arguments);
    lemma_resolution_spans_expressions(d, call.arguments);
}

/// What the resolution of the receiver gives for a statement speaks of no place but those of what it was given.
pub proof fn lemma_resolution_spans_statement(
    d: DirectorView<SelfResolverView>,
    statement: StatementView,
)
    requires
        !d.reducer.receivers.contains("self"@),
    ensures
        walk_statement::<SelfResolver>(d, statement).1 matches Ok(given) ==>
            statement_spans(given).subset_of(
            statement_spans(statement),
        ),
    decreases statement,
{
    match statement {
        StatementView::Return(f0) => {
            lemma_resolution_settled_return(d, f0);
            lemma_resolution_spans_return(d, f0);
        },
        StatementView::Definition(f0) => {
            lemma_resolution_settled_definition(d, f0);
            lemma_resolution_spans_definition(d, f0);
        },
        StatementView::Assign(f0) => {
            lemma_resolution_settled_assign(d, f0);
            lemma_resolution_spans_assign(d, f0);
        },
        StatementView::Conditional(f0) => {
            lemma_resolution_settled_conditional(d, f0);
            lemma_resolution_spans_conditional(d, f0);
        },
        StatementView::Iteration(f0) => {
            lemma_resolution_settled_iteration(d, f0);
            lemma_resolution_spans_iteration(d, f0);
        },
        StatementView::Console(f0) => {
            lemma_resolution_settled_console(d, f0);
            lemma_resolution_spans_console(d, f0);
        },
        StatementView::Expression(f0) => {
            lemma_resolution_settled_expression_statement(d, f0);
            lemma_resolution_spans_expression_statement(d, f0);
        },
        StatementView::Block(f0) => {
            lemma_resolution_settled_block(d, f0);
            lemma_resolution_spans_block(d, f0);
        },
    }
}

/// What the resolution of the receiver gives for a return speaks of no place but those of what it was given.
pub proof fn lemma_resolution_spans_return(
    d: DirectorView<SelfResolverView>,
    return_statement: ReturnStatementView,
)
    requires
        !d.reducer.receivers.contains("self"@),
    ensures
        walk_return::<SelfResolver>(d, return_statement).1 matches Ok(given) ==>
            return_statement_spans(given).subset_of(
            return_statement_spans(return_statement),
        ),
    decreases return_statement,
{
    lemma_resolution_settled_expression(d, return_statement.expression);
    lemma_resolution_spans_expression(d, return_statement.expression);
}

/// What the resolution of the receiver gives for a variable name speaks of no place but those of what it was given.
pub proof fn lemma_resolution_spans_variable_name(
    d: DirectorView<SelfResolverView>,
    variable_name: VariableNameView,
)
    requires
        !d.reducer.receivers.contains("self"@),
    ensures
        walk_variable_name::<SelfResolver>(d, variable_name).1 matches Ok(given) ==>
            variable_name_spans(given).subset_of(
            variable_name_spans(variable_name),
        ),
    decreases variable_name,
{
    lemma_resolution_settled_identifier(d, variable_name.identifier);
    lemma_resolution_spans_identifier(d, variable_name.identifier);
}

/// What the resolution of the receiver gives for a definition speaks of no place but those of what it was given.
pub proof fn lemma_resolution_spans_definition(
    d: DirectorView<SelfResolverView>,
    definition: DefinitionStatementView,
)
    requires
        !d.reducer.receivers.contains("self"@),
    ensures
        walk_definition::<SelfResolver>(d, definition).1 matches Ok(given) ==>
            definition_statement_spans(given).subset_of(
            definition_statement_spans(definition),
        ),
    decreases definition,
{
    lemma_resolution_settled_variable_names(d, definition.variable_names);
    lemma_resolution_spans_variable_names(d, definition.variable_names);
    match definition.type_ {
        Some(v) => {
            lemma_resolution_settled_type(d, v, definition.span);
            lemma_resolution_spans_type(d, v, definition.span);
        },
        None => {},
    }
    lemma_resolution_settled_expression(d, definition.value);
    lemma_resolution_spans_expression(d, definition.value);
}

/// What the resolution of the receiver gives for an assignee access speaks of no place but those of what it was given.
pub proof fn lemma_resolution_spans_assignee_access(
    d: DirectorView<SelfResolverView>,
    access: AssigneeAccessView,
)
    requires
        !d.reducer.receivers.contains("self"@),
    ensures
        walk_assignee_access::<SelfResolver>(d, access).1 matches Ok(given) ==>
            assignee_access_spans(given).subset_of(
            assignee_access_spans(access),
        ),
    decreases access,
{
    match access {
        AssigneeAccessView::ArrayRange(f0, f1) => {
            match f0 {
                Some(v) => {
                    lemma_resolution_settled_expression(d, v);
                    lemma_resolution_spans_expression(d, v);
                },
                None => {},
            }
            match f1 {
                Some(v) => {
                    lemma_resolution_settled_expression(d, v);
                    lemma_resolution_spans_expression(d, v);
                },
                None => {},
            }
        },
        AssigneeAccessView::ArrayIndex(f0) => {
            lemma_resolution_settled_expression(d, f0);
            lemma_resolution_spans_expression(d, f0);
        },
        AssigneeAccessView::Member(f0) => {
            lemma_resolution_settled_identifier(d, f0);
            lemma_resolution_spans_identifier(d, f0);
        },
        _ => {},
    }
}

/// What the resolution of the receiver gives for an assignee speaks of no place but those of what it was given.
pub proof fn lemma_resolution_spans_assignee(
    d: DirectorView<SelfResolverView>,
    assignee: AssigneeView,
)
    requires
        !d.reducer.receivers.contains("self"@),
    ensures
        walk_assignee::<SelfResolver>(d, assignee).1 matches Ok(given) ==>
            assignee_spans(given).subset_of(
            assignee_spans(assignee),
        ),
    decreases assignee,
{
    lemma_resolution_settled_identifier(d, assignee.identifier);
    lemma_resolution_spans_identifier(d, assignee.identifier);
    lemma_resolution_settled_assignee_accesses(d, assignee.accesses);
    lemma_resolution_spans_assignee_accesses(d, assignee.accesses);
}

/// What the resolution of the receiver gives for an assignment speaks of no place but those of what it was given.
pub proof fn lemma_resolution_spans_assign(
    d: DirectorView<SelfResolverView>,
    assign: AssignStatementView,
)
    requires
        !d.reducer.receivers.contains("self"@),
    ensures
        walk_assign::<SelfResolver>(d, assign).1 matches Ok(given) ==>
            assign_statement_spans(given).subset_of(
            assign_statement_spans(assign),
        ),
    decreases assign,
{
    lemma_resolution_settled_assignee(d, assign.assignee);
    lemma_resolution_spans_assignee(d, assign.assignee);
    lemma_resolution_settled_expression(d, assign.value);
    lemma_resolution_spans_expression(d, assign.value);
}

/// What the resolution of the receiver gives for a conditional speaks of no place but those of what it was given.
pub proof fn lemma_resolution_spans_conditional(
    d: DirectorView<SelfResolverView>,
    conditional: ConditionalStatementView,
)
    requires
        !d.reducer.receivers.contains("self"@),
    ensures
        walk_conditional::<SelfResolver>(d, conditional).1 matches Ok(given) ==>
            conditional_statement_spans(given).subset_of(
            conditional_statement_spans(conditional),
        ),
    decreases conditional,
{
    lemma_resolution_settled_expression(d, conditional.condition);
    lemma_resolution_spans_expression(d, conditional.condition);
    lemma_resolution_settled_block(d, conditional.block);
    lemma_resolution_spans_block(d, conditional.block);
    match conditional.next {
        Some(v) => {
            lemma_resolution_settled_statement(d, *v);
            lemma_resolution_spans_statement(d, *v);
        },
        None => {},
    }
}

/// What the resolution of the receiver gives for a loop speaks of no place but those of what it was given.
pub proof fn lemma_resolution_spans_iteration(
    d: DirectorView<SelfResolverView>,
    iteration: IterationStatementView,
)
    requires
        !d.reducer.receivers.contains("self"@),
    ensures
        walk_iteration::<SelfResolver>(d, iteration).1 matches Ok(given) ==>
            iteration_statement_spans(given).subset_of(
            iteration_statement_spans(iteration),
        ),
    decreases iteration,
{
    lemma_resolution_settled_identifier(d, iteration.variable);
    lemma_resolution_spans_identifier(d, iteration.variable);
    lemma_resolution_settled_expression(d, iteration.start);
    lemma_resolution_spans_expression(d, iteration.start);
    lemma_resolution_settled_expression(d, iteration.stop);
    lemma_resolution_spans_expression(d, iteration.stop);
    lemma_resolution_settled_block(d, iteration.block);
    lemma_resolution_spans_block(d, iteration.block);
}

/// What the resolution of the receiver gives for a console statement speaks of no place but those of what it was given.
pub proof fn lemma_resolution_spans_console(
    d: DirectorView<SelfResolverView>,
    console_function_call: ConsoleStatementView,
)
    requires
        !d.reducer.receivers.contains("self"@),
    ensures
        walk_console::<SelfResolver>(d, console_function_call).1 matches Ok(given) ==>
            console_statement_spans(given).subset_of(
            console_statement_spans(console_function_call),
        ),
    decreases console_function_call,
{
    match console_function_call.function {
        ConsoleFunctionView::Assert(f0) => {
            lemma_resolution_settled_expression(d, f0);
            lemma_resolution_spans_expression(d, f0);
        },
        ConsoleFunctionView::Debug(f0) => {
            lemma_resolution_settled_expressions(d, f0.parameters);
            lemma_resolution_spans_expressions(d, f0.parameters);
        },
        ConsoleFunctionView::Error(f0) => {
            lemma_resolution_settled_expressions(d, f0.parameters);
            lemma_resolution_spans_expressions(d, f0.parameters);
        },
        ConsoleFunctionView::Log(f0) => {
            lemma_resolution_settled_expressions(d, f0.parameters);
            lemma_resolution_spans_expressions(d, f0.parameters);
        },
    }
}

/// What the resolution of the receiver gives for an expression statement speaks of no place but those of what it was given.
pub proof fn lemma_resolution_spans_expression_statement(
    d: DirectorView<SelfResolverView>,
    expression_statement: ExpressionStatementView,
)
    requires
        !d.reducer.receivers.contains("self"@),
    ensures
        walk_expression_statement::<SelfResolver>(d, expression_statement).1 matches Ok(given) ==>
            expression_statement_spans(given).subset_of(
            expression_statement_spans(expression_statement),
        ),
    decreases expression_statement,
{
    lemma_resolution_settled_expression(d, expression_statement.expression);
    lemma_resolution_spans_expression(d, expression_statement.expression);
}

/// What the resolution of the receiver gives for a block speaks of no place but those of what it was given.
pub proof fn lemma_resolution_spans_block(d: DirectorView<SelfResolverView>, block: BlockView)
    requires
        !d.reducer.receivers.contains("self"@),
    ensures
        walk_block::<SelfResolver>(d, block).1 matches Ok(given) ==> block_spans(given).subset_of(
            block_spans(block),
        ),
    decreases block,
{
    lemma_resolution_settled_statements(d, block.statements);
    lemma_resolution_spans_statements(d, block.statements);
}

/// What the resolution of the receiver gives for an input variable of a function speaks of no place but those of what it was given.
pub proof fn lemma_resolution_spans_function_input_variable(
    d: DirectorView<SelfResolverView>,
    variable: FunctionInputVariableView,
)
    requires
        !d.reducer.receivers.contains("self"@),
    ensures
        walk_function_input_variable::<SelfResolver>(d, variable).1 matches Ok(given) ==>
            function_input_variable_spans(given).subset_of(
            function_input_variable_spans(variable),
        ),
    decreases variable,
{
    lemma_resolution_settled_identifier(d, variable.identifier);
    lemma_resolution_spans_identifier(d, variable.identifier);
    lemma_resolution_settled_type(d, variable.type_, variable.span);
    lemma_resolution_spans_type(d, variable.type_, variable.span);
}

/// What the resolution of the receiver gives for an input of a function speaks of no place but those of what it was given.
pub proof fn lemma_resolution_spans_function_input(
    d: DirectorView<SelfResolverView>,
    input: FunctionInputView,
)
    requires
        !d.reducer.receivers.contains("self"@),
    ensures
        walk_function_input::<SelfResolver>(d, input).1 matches Ok(given) ==>
            function_input_spans(given).subset_of(
            function_input_spans(input),
        ),
    decreases input,
{
    match input {
        FunctionInputView::Variable(f0) => {
            lemma_resolution_settled_function_input_variable(d, f0);
            lemma_resolution_spans_function_input_variable(d, f0);
        },
        _ => {},
    }
}

/// What the resolution of the receiver gives for the package of an import speaks of no place but those of what it was given.
pub proof fn lemma_resolution_spans_package_or_packages(
    d: DirectorView<SelfResolverView>,
    package_or_packages: PackageOrPackagesView,
)
    requires
        !d.reducer.receivers.contains("self"@),
    ensures
        walk_package_or_packages::<SelfResolver>(d, package_or_packages).1 matches Ok(given) ==>
            package_or_packages_spans(given).subset_of(
            package_or_packages_spans(package_or_packages),
        ),
    decreases package_or_packages,
{
    match package_or_packages {
        PackageOrPackagesView::Package(f0) => {
            lemma_resolution_settled_identifier(d, f0.name);
            lemma_resolution_spans_identifier(d, f0.name);
        },
        PackageOrPackagesView::Packages(f0) => {
            lemma_resolution_settled_identifier(d, f0.name);
            lemma_resolution_spans_identifier(d, f0.name);
        },
    }
}

/// What the resolution of the receiver gives for an import speaks of no place but those of what it was given.
pub proof fn lemma_resolution_spans_import(
    d: DirectorView<SelfResolverView>,
    import: ImportStatementView,
)
    requires
        !d.reducer.receivers.contains("self"@),
    ensures
        walk_import::<SelfResolver>(d, import).1 matches Ok(given) ==>
            import_statement_spans(given).subset_of(
            import_statement_spans(import),
        ),
    decreases import,
{
    lemma_resolution_settled_package_or_packages(d, import.package_or_packages);
    lemma_resolution_spans_package_or_packages(d, import.package_or_packages);
}

/// What the resolution of the receiver gives for a member of a circuit speaks of no place but those of what it was given.
pub proof fn lemma_resolution_spans_circuit_member(
    d: DirectorView<SelfResolverView>,
    circuit_member: CircuitMemberView,
)
    requires
        !d.reducer.receivers.contains("self"@),
    ensures
        walk_circuit_member::<SelfResolver>(d, circuit_member).1 matches Ok(given) ==>
            circuit_member_spans(given).subset_of(
            circuit_member_spans(circuit_member),
        ),
    decreases circuit_member,
{
    let inner = DirectorView { reducer: d.reducer, in_circuit: !d.in_circuit };
    match circuit_member {
        CircuitMemberView::CircuitVariable(f0, f1) => {
            lemma_resolution_settled_identifier(inner, f0);
            lemma_resolution_spans_identifier(inner, f0);
            lemma_resolution_settled_type(inner, f1, f0.span);
            lemma_resolution_spans_type(inner, f1, f0.span);
        },
        CircuitMemberView::CircuitFunction(f0) => {
            lemma_resolution_settled_function(inner, f0);
            lemma_resolution_spans_function(inner, f0);
        },
    }
}

/// What the resolution of the receiver gives for an annotation speaks of no place but those of what it was given.
pub proof fn lemma_resolution_spans_annotation(
    d: DirectorView<SelfResolverView>,
    annotation: AnnotationView,
)
    requires
        !d.reducer.receivers.contains("self"@),
    ensures
        walk_annotation::<SelfResolver>(d, annotation).1 matches Ok(given) ==>
            annotation_spans(given).subset_of(
            annotation_spans(annotation),
        ),
    decreases annotation,
{
    lemma_resolution_settled_identifier(d, annotation.name);
    lemma_resolution_spans_identifier(d, annotation.name);
}

/// What the resolution of the receiver gives for a function speaks of no place but those of what it was given.
pub proof fn lemma_resolution_spans_function(
    d: DirectorView<SelfResolverView>,
    function: FunctionView,
)
    requires
        !d.reducer.receivers.contains("self"@),
    ensures
        walk_function::<SelfResolver>(d, function).1 matches Ok(given) ==>
            function_spans(given).subset_of(
            function_spans(function),
        ),
    decreases function,
{
    lemma_resolution_settled_identifier(d, function.identifier);
    lemma_resolution_spans_identifier(d, function.identifier);
    lemma_resolution_settled_annotations(d, function.annotations);
    lemma_resolution_spans_annotations(d, function.annotations);
    lemma_resolution_settled_function_inputs(d, function.input);
    lemma_resolution_spans_function_inputs(d, function.input);
    match function.output {
        Some(v) => {
            lemma_resolution_settled_type(d, v, function.span);
            lemma_resolution_spans_type(d, v, function.span);
        },
        None => {},
    }
    lemma_resolution_settled_block(d, function.block);
    lemma_resolution_spans_block(d, function.block);
}

/// What the resolution of the receiver gives for a list speaks of no place but those of what it was given.
pub proof fn lemma_resolution_spans_types(
    d: DirectorView<SelfResolverView>,
    items: Seq<TypeView>,
    span: Span,
)
    requires
        !d.reducer.receivers.contains("self"@),
    ensures
        walk_types::<SelfResolver>(d, items, span).1 matches Ok(given) ==>
            type_seq_spans(given).subset_of(
            type_seq_spans(items).insert(span),
        ),
    decreases items,
{
    if items.len() > 0 {
        lemma_resolution_settled_types(d, items.drop_last(), span);
        lemma_resolution_spans_types(d, items.drop_last(), span);
        lemma_resolution_spans_type(d, items.last(), span);
        match walk_types::<SelfResolver>(d, items, span).1 {
            Ok(given) => {
                let done = walk_types::<SelfResolver>(d, items.drop_last(), span).1->Ok_0;
                let node = walk_type::<SelfResolver>(d, items.last(), span).1->Ok_0;
                assert(given == done.push(node));
                assert(given.drop_last() =~= done);
                assert(given.last() == node);
            },
            Err(_) => {},
        }
    }
}

/// What the resolution of the receiver gives for a list speaks of no place but those of what it was given.
pub proof fn lemma_resolution_spans_spread_or_expressions(
    d: DirectorView<SelfResolverView>,
    items: Seq<SpreadOrExpressionView>,
)
    requires
        !d.reducer.receivers.contains("self"@),
    ensures
        walk_spread_or_expressions::<SelfResolver>(d, items).1 matches Ok(given) ==>
            spread_or_expression_seq_spans(given).subset_of(
            spread_or_expression_seq_spans(items),
        ),
    decreases items,
{
    if items.len() > 0 {
        lemma_resolution_settled_spread_or_expressions(d, items.drop_last());
        lemma_resolution_spans_spread_or_expressions(d, items.drop_last());
        lemma_resolution_spans_spread_or_expression(d, items.last());
        match walk_spread_or_expressions::<SelfResolver>(d, items).1 {
            Ok(given) => {
                let done = walk_spread_or_expressions::<SelfResolver>(d, items.drop_last()).1->Ok_0;
                let node = walk_spread_or_expression::<SelfResolver>(d, items.last()).1->Ok_0;
                assert(given == done.push(node));
                assert(given.drop_last() =~= done);
                assert(given.last() == node);
            },
            Err(_) => {},
        }
    }
}

/// What the resolution of the receiver gives for a list speaks of no place but those of what it was given.
pub proof fn lemma_resolution_spans_expressions(
    d: DirectorView<SelfResolverView>,
    items: Seq<ExpressionView>,
)
    requires
        !d.reducer.receivers.contains("self"@),
    ensures
        walk_expressions::<SelfResolver>(d, items).1 matches Ok(given) ==>
            expression_seq_spans(given).subset_of(
            expression_seq_spans(items),
        ),
    decreases items,
{
    if items.len() > 0 {
        lemma_resolution_settled_expressions(d, items.drop_last());
        lemma_resolution_spans_expressions(d, items.drop_last());
        lemma_resolution_spans_expression(d, items.last());
        match walk_expressions::<SelfResolver>(d, items).1 {
            Ok(given) => {
                let done = walk_expressions::<SelfResolver>(d, items.drop_last()).1->Ok_0;
                let node = walk_expression::<SelfResolver>(d, items.last()).1->Ok_0;
                assert(given == done.push(node));
                assert(given.drop_last() =~= done);
                assert(given.last() == node);
            },
            Err(_) => {},
        }
    }
}

/// What the resolution of the receiver gives for a list speaks of no place but those of what it was given.
pub proof fn lemma_resolution_spans_circuit_implied_variable_definitions(
    d: DirectorView<SelfResolverView>,
    items: Seq<CircuitImpliedVariableDefinitionView>,
)
    requires
        !d.reducer.receivers.contains("self"@),
    ensures
        walk_circuit_implied_variable_definitions::<SelfResolver>(d, items).1 matches Ok(given) ==>
            circuit_implied_variable_definition_seq_spans(given).subset_of(
            circuit_implied_variable_definition_seq_spans(items),
        ),
    decreases items,
{
    if items.len() > 0 {
        lemma_resolution_settled_circuit_implied_variable_definitions(d, items.drop_last());
        lemma_resolution_spans_circuit_implied_variable_definitions(d, items.drop_last());
        lemma_resolution_spans_circuit_implied_variable_definition(d, items.last());
        match walk_circuit_implied_variable_definitions::<SelfResolver>(d, items).1 {
            Ok(given) => {
                let done = walk_circuit_implied_variable_definitions::<SelfResolver>(
                    d,
                    items.drop_last(),
                ).1->Ok_0;
                let node = walk_circuit_implied_variable_definition::<SelfResolver>(
                    d,
                    items.last(),
                ).1->Ok_0;
                assert(given == done.push(node));
                assert(given.drop_last() =~= done);
                assert(given.last() == node);
            },
            Err(_) => {},
        }
    }
}

/// What the resolution of the receiver gives for a list speaks of no place but those of what it was given.
pub proof fn lemma_resolution_spans_variable_names(
    d: DirectorView<SelfResolverView>,
    items: Seq<VariableNameView>,
)
    requires
        !d.reducer.receivers.contains("self"@),
    ensures
        walk_variable_names::<SelfResolver>(d, items).1 matches Ok(given) ==>
            variable_name_seq_spans(given).subset_of(
            variable_name_seq_spans(items),
        ),
    decreases items,
{
    if items.len() > 0 {
        lemma_resolution_settled_variable_names(d, items.drop_last());
        lemma_resolution_spans_variable_names(d, items.drop_last());
        lemma_resolution_spans_variable_name(d, items.last());
        match walk_variable_names::<SelfResolver>(d, items).1 {
            Ok(given) => {
                let done = walk_variable_names::<SelfResolver>(d, items.drop_last()).1->Ok_0;
                let node = walk_variable_name::<SelfResolver>(d, items.last()).1->Ok_0;
                assert(given == done.push(node));
                assert(given.drop_last() =~= done);
                assert(given.last() == node);
            },
            Err(_) => {},
        }
    }
}

/// What the resolution of the receiver gives for a list speaks of no place but those of what it was given.
pub proof fn lemma_resolution_spans_assignee_accesses(
    d: DirectorView<SelfResolverView>,
    items: Seq<AssigneeAccessView>,
)
    requires
        !d.reducer.receivers.contains("self"@),
    ensures
        walk_assignee_accesses::<SelfResolver>(d, items).1 matches Ok(given) ==>
            assignee_access_seq_spans(given).subset_of(
            assignee_access_seq_spans(items),
        ),
    decreases items,
{
    if items.len() > 0 {
        lemma_resolution_settled_assignee_accesses(d, items.drop_last());
        lemma_resolution_spans_assignee_accesses(d, items.drop_last());
        lemma_resolution_spans_assignee_access(d, items.last());
        match walk_assignee_accesses::<SelfResolver>(d, items).1 {
            Ok(given) => {
                let done = walk_assignee_accesses::<SelfResolver>(d, items.drop_last()).1->Ok_0;
                let node = walk_assignee_access::<SelfResolver>(d, items.last()).1->Ok_0;
                assert(given == done.push(node));
                assert(given.drop_last() =~= done);
                assert(given.last() == node);
            },
            Err(_) => {},
        }
    }
}

/// What the resolution of the receiver gives for a list speaks of no place but those of what it was given.
pub proof fn lemma_resolution_spans_statements(
    d: DirectorView<SelfResolverView>,
    items: Seq<StatementView>,
)
    requires
        !d.reducer.receivers.contains("self"@),
    ensures
        walk_statements::<SelfResolver>(d, items).1 matches Ok(given) ==>
            statement_seq_spans(given).subset_of(
            statement_seq_spans(items),
        ),
    decreases items,
{
    if items.len() > 0 {
        lemma_resolution_settled_statements(d, items.drop_last());
        lemma_resolution_spans_statements(d, items.drop_last());
        lemma_resolution_spans_statement(d, items.last());
        match walk_statements::<SelfResolver>(d, items).1 {
            Ok(given) => {
                let done = walk_statements::<SelfResolver>(d, items.drop_last()).1->Ok_0;
                let node = walk_statement::<SelfResolver>(d, items.last()).1->Ok_0;
                assert(given == done.push(node));
                assert(given.drop_last() =~= done);
                assert(given.last() == node);
            },
            Err(_) => {},
        }
    }
}

/// What the resolution of the receiver gives for a list speaks of no place but those of what it was given.
pub proof fn lemma_resolution_spans_function_inputs(
    d: DirectorView<SelfResolverView>,
    items: Seq<FunctionInputView>,
)
    requires
        !d.reducer.receivers.contains("self"@),
    ensures
        walk_function_inputs::<SelfResolver>(d, items).1 matches Ok(given) ==>
            function_input_seq_spans(given).subset_of(
            function_input_seq_spans(items),
        ),
    decreases items,
{
    if items.len() > 0 {
        lemma_resolution_settled_function_inputs(d, items.drop_last());
        lemma_resolution_spans_function_inputs(d, items.drop_last());
        lemma_resolution_spans_function_input(d, items.last());
        match walk_function_inputs::<SelfResolver>(d, items).1 {
            Ok(given) => {
                let done = walk_function_inputs::<SelfResolver>(d, items.drop_last()).1->Ok_0;
                let node = walk_function_input::<SelfResolver>(d, items.last()).1->Ok_0;
                assert(given == done.push(node));
                assert(given.drop_last() =~= done);
                assert(given.last() == node);
            },
            Err(_) => {},
        }
    }
}

/// What the resolution of the receiver gives for a list speaks of no place but those of what it was given.
pub proof fn lemma_resolution_spans_imports(
    d: DirectorView<SelfResolverView>,
    items: Seq<ImportStatementView>,
)
    requires
        !d.reducer.receivers.contains("self"@),
    ensures
        walk_imports::<SelfResolver>(d, items).1 matches Ok(given) ==>
            import_statement_seq_spans(given).subset_of(
            import_statement_seq_spans(items),
        ),
    decreases items,
{
    if items.len() > 0 {
        lemma_resolution_settled_imports(d, items.drop_last());
        lemma_resolution_spans_imports(d, items.drop_last());
        lemma_resolution_spans_import(d, items.last());
        match walk_imports::<SelfResolver>(d, items).1 {
            Ok(given) => {
                let done = walk_imports::<SelfResolver>(d, items.drop_last()).1->Ok_0;
                let node = walk_import::<SelfResolver>(d, items.last()).1->Ok_0;
                assert(given == done.push(node));
                assert(given.drop_last() =~= done);
                assert(given.last() == node);
            },
            Err(_) => {},
        }
    }
}

/// What the resolution of the receiver gives for a list speaks of no place but those of what it was given.
pub proof fn lemma_resolution_spans_circuit_members(
    d: DirectorView<SelfResolverView>,
    items: Seq<CircuitMemberView>,
)
    requires
        !d.reducer.receivers.contains("self"@),
    ensures
        walk_circuit_members::<SelfResolver>(d, items).1 matches Ok(given) ==>
            circuit_member_seq_spans(given).subset_of(
            circuit_member_seq_spans(items),
        ),
    decreases items,
{
    if items.len() > 0 {
        lemma_resolution_settled_circuit_members(d, items.drop_last());
        lemma_resolution_spans_circuit_members(d, items.drop_last());
        lemma_resolution_spans_circuit_member(d, items.last());
        match walk_circuit_members::<SelfResolver>(d, items).1 {
            Ok(given) => {
                let done = walk_circuit_members::<SelfResolver>(d, items.drop_last()).1->Ok_0;
                let node = walk_circuit_member::<SelfResolver>(d, items.last()).1->Ok_0;
                assert(given == done.push(node));
                assert(given.drop_last() =~= done);
                assert(given.last() == node);
            },
            Err(_) => {},
        }
    }
}

/// What the resolution of the receiver gives for a list speaks of no place but those of what it was given.
pub proof fn lemma_resolution_spans_annotations(
    d: DirectorView<SelfResolverView>,
    items: Seq<AnnotationView>,
)
    requires
        !d.reducer.receivers.contains("self"@),
    ensures
        walk_annotations::<SelfResolver>(d, items).1 matches Ok(given) ==>
            annotation_seq_spans(given).subset_of(
            annotation_seq_spans(items),
        ),
    decreases items,
{
    if items.len() > 0 {
        lemma_resolution_settled_annotations(d, items.drop_last());
        lemma_resolution_spans_annotations(d, items.drop_last());
        lemma_resolution_spans_annotation(d, items.last());
        match walk_annotations::<SelfResolver>(d, items).1 {
            Ok(given) => {
                let done = walk_annotations::<SelfResolver>(d, items.drop_last()).1->Ok_0;
                let node = walk_annotation::<SelfResolver>(d, items.last()).1->Ok_0;
                assert(given == done.push(node));
                assert(given.drop_last() =~= done);
                assert(given.last() == node);
            },
            Err(_) => {},
        }
    }
}

} // verus!
