//! Inside a circuit or outside of one: the director turns its flag over when
//! it goes into a member of a circuit and turns it back when it comes out.
//! The laws of this module state, for every node and every reducer, that a
//! walk that succeeds ends with the flag as it began.
use crate::ast::common::IdentifierView;
use crate::ast::expression::{
    ArrayAccessExpressionView, ArrayInitExpressionView, ArrayInlineExpressionView,
    ArrayRangeAccessExpressionView, BinaryExpressionView, CallExpressionView, CastExpressionView,
    CircuitImpliedVariableDefinitionView, CircuitInitExpressionView,
    CircuitMemberAccessExpressionView, CircuitStaticFunctionAccessExpressionView, ExpressionView,
    GroupTupleView, GroupValueView, SpreadOrExpressionView, TernaryExpressionView,
    TupleAccessExpressionView, TupleInitExpressionView, UnaryExpressionView, ValueExpressionView,
};
use crate::ast::function::{
    AnnotationView, CircuitMemberView, CircuitView, FunctionInputVariableView, FunctionInputView,
    FunctionView,
};
use crate::ast::imports::{ImportStatementView, PackageOrPackagesView};
use crate::ast::program::ProgramView;
use crate::ast::statement::{
    AssigneeAccessView, AssigneeView, AssignStatementView, BlockView, ConditionalStatementView,
    ConsoleFunctionView, ConsoleStatementView, DefinitionStatementView, ExpressionStatementView,
    IterationStatementView, ReturnStatementView, StatementView, VariableNameView,
};
use crate::ast::types::TypeView;
use crate::errors::CanonicalizeError;
use crate::reducer::reconstructing_director::{
    DirectorView, walk_annotation, walk_annotations, walk_array_access, walk_array_init,
    walk_array_inline, walk_array_range_access, walk_assign, walk_assignee, walk_assignee_access,
    walk_assignee_accesses, walk_binary, walk_block, walk_call, walk_cast, walk_circuit,
    walk_circuit_entries, walk_circuit_implied_variable_definition,
    walk_circuit_implied_variable_definitions, walk_circuit_init, walk_circuit_member,
    walk_circuit_member_access, walk_circuit_members, walk_circuit_static_fn_access,
    walk_conditional, walk_console, walk_definition, walk_expression, walk_expression_statement,
    walk_expressions, walk_function, walk_function_entries, walk_function_input,
    walk_function_input_variable, walk_function_inputs, walk_group_tuple, walk_group_value,
    walk_identifier, walk_import, walk_imports, walk_iteration, walk_package_or_packages,
    walk_program, walk_return, walk_spread_or_expression, walk_spread_or_expressions,
    walk_statement, walk_statements, walk_ternary, walk_tuple_access, walk_tuple_init, walk_type,
    walk_types, walk_unary, walk_value, walk_variable_name, walk_variable_names,
};
use crate::reducer::reconstructing_reducer::ReconstructingReducer;
use crate::span::Span;

use vstd::prelude::*;

verus! {

/// A walk of a type that succeeds leaves the director inside a circuit, or
/// outside of one, as it found it, whatever the reducer does.
pub proof fn lemma_restores_type<R: ReconstructingReducer>(
    d: DirectorView<R::V>,
    type_: TypeView,
    span: Span,
)
    ensures
        walk_type::<R>(d, type_, span).1 is Ok ==>
            walk_type::<R>(d, type_, span).0.in_circuit == d.in_circuit,
    decreases type_,
{
    match type_ {
        TypeView::Array(inner, dimensions) => {
            lemma_restores_type::<R>(d, *inner, span);
        },
        TypeView::Tuple(items) => {
            lemma_restores_types::<R>(d, items, span);
        },
        TypeView::Circuit(name) => {
            lemma_restores_identifier::<R>(d, name);
        },
        _ => {},
    }
}

/// A walk of an expression that succeeds leaves the director inside a circuit, or
/// outside of one, as it found it, whatever the reducer does.
pub proof fn lemma_restores_expression<R: ReconstructingReducer>(
    d: DirectorView<R::V>,
    expression: ExpressionView,
)
    ensures
        walk_expression::<R>(d, expression).1 is Ok ==>
            walk_expression::<R>(d, expression).0.in_circuit == d.in_circuit,
    decreases expression,
{
    match expression {
        ExpressionView::Identifier(identifier) => {
            lemma_restores_identifier::<R>(d, identifier);
        },
        ExpressionView::Value(value) => {
            lemma_restores_value::<R>(d, value);
        },
        ExpressionView::Binary(binary) => {
            lemma_restores_binary::<R>(d, binary);
        },
        ExpressionView::Unary(unary) => {
            lemma_restores_unary::<R>(d, unary);
        },
        ExpressionView::Ternary(ternary) => {
            lemma_restores_ternary::<R>(d, ternary);
        },
        ExpressionView::Cast(cast) => {
            lemma_restores_cast::<R>(d, cast);
        },
        ExpressionView::ArrayInline(array_inline) => {
            lemma_restores_array_inline::<R>(d, array_inline);
        },
        ExpressionView::ArrayInit(array_init) => {
            lemma_restores_array_init::<R>(d, array_init);
        },
        ExpressionView::ArrayAccess(array_access) => {
            lemma_restores_array_access::<R>(d, array_access);
        },
        ExpressionView::ArrayRangeAccess(array_range_access) => {
            lemma_restores_array_range_access::<R>(d, array_range_access);
        },
        ExpressionView::TupleInit(tuple_init) => {
            lemma_restores_tuple_init::<R>(d, tuple_init);
        },
        ExpressionView::TupleAccess(tuple_access) => {
            lemma_restores_tuple_access::<R>(d, tuple_access);
        },
        ExpressionView::CircuitInit(circuit_init) => {
            lemma_restores_circuit_init::<R>(d, circuit_init);
        },
        ExpressionView::CircuitMemberAccess(circuit_member_access) => {
            lemma_restores_circuit_member_access::<R>(d, circuit_member_access);
        },
        ExpressionView::CircuitStaticFunctionAccess(circuit_static_fn_access) => {
            lemma_restores_circuit_static_fn_access::<R>(d, circuit_static_fn_access);
        },
        ExpressionView::Call(call) => {
            lemma_restores_call::<R>(d, call);
        },
    }
}

/// A walk of an identifier that succeeds leaves the director inside a circuit, or
/// outside of one, as it found it, whatever the reducer does.
pub proof fn lemma_restores_identifier<R: ReconstructingReducer>(
    d: DirectorView<R::V>,
    identifier: IdentifierView,
)
    ensures
        walk_identifier::<R>(d, identifier).1 is Ok ==>
            walk_identifier::<R>(d, identifier).0.in_circuit == d.in_circuit,
    decreases identifier,
{
}

/// A walk of a group tuple that succeeds leaves the director inside a circuit, or
/// outside of one, as it found it, whatever the reducer does.
pub proof fn lemma_restores_group_tuple<R: ReconstructingReducer>(
    d: DirectorView<R::V>,
    group_tuple: GroupTupleView,
)
    ensures
        walk_group_tuple::<R>(d, group_tuple).1 is Ok ==>
            walk_group_tuple::<R>(d, group_tuple).0.in_circuit == d.in_circuit,
    decreases group_tuple,
{
}

/// A walk of a group value that succeeds leaves the director inside a circuit, or
/// outside of one, as it found it, whatever the reducer does.
pub proof fn lemma_restores_group_value<R: ReconstructingReducer>(
    d: DirectorView<R::V>,
    group_value: GroupValueView,
)
    ensures
        walk_group_value::<R>(d, group_value).1 is Ok ==>
            walk_group_value::<R>(d, group_value).0.in_circuit == d.in_circuit,
    decreases group_value,
{
    match group_value {
        GroupValueView::Tuple(group_tuple) => {
            lemma_restores_group_tuple::<R>(d, group_tuple);
        },
        _ => {},
    }
}

/// A walk of a literal value that succeeds leaves the director inside a circuit, or
/// outside of one, as it found it, whatever the reducer does.
pub proof fn lemma_restores_value<R: ReconstructingReducer>(
    d: DirectorView<R::V>,
    value: ValueExpressionView,
)
    ensures
        walk_value::<R>(d, value).1 is Ok ==>
            walk_value::<R>(d, value).0.in_circuit == d.in_circuit,
    decreases value,
{
    match value {
        ValueExpressionView::Group(group_value) => {
            lemma_restores_group_value::<R>(d, *group_value);
        },
        _ => {},
    }
}

/// A walk of a binary expression that succeeds leaves the director inside a circuit, or
/// outside of one, as it found it, whatever the reducer does.
pub proof fn lemma_restores_binary<R: ReconstructingReducer>(
    d: DirectorView<R::V>,
    binary: BinaryExpressionView,
)
    ensures
        walk_binary::<R>(d, binary).1 is Ok ==>
            walk_binary::<R>(d, binary).0.in_circuit == d.in_circuit,
    decreases binary,
{
    lemma_restores_expression::<R>(d, *binary.left);
    let (d1, r) = walk_expression::<R>(d, *binary.left);
    if r is Ok {
        lemma_restores_expression::<R>(d1, *binary.right);
    }
}

/// A walk of a unary expression that succeeds leaves the director inside a circuit, or
/// outside of one, as it found it, whatever the reducer does.
pub proof fn lemma_restores_unary<R: ReconstructingReducer>(
    d: DirectorView<R::V>,
    unary: UnaryExpressionView,
)
    ensures
        walk_unary::<R>(d, unary).1 is Ok ==>
            walk_unary::<R>(d, unary).0.in_circuit == d.in_circuit,
    decreases unary,
{
    lemma_restores_expression::<R>(d, *unary.inner);
}

/// A walk of a ternary expression that succeeds leaves the director inside a circuit, or
/// outside of one, as it found it, whatever the reducer does.
pub proof fn lemma_restores_ternary<R: ReconstructingReducer>(
    d: DirectorView<R::V>,
    ternary: TernaryExpressionView,
)
    ensures
        walk_ternary::<R>(d, ternary).1 is Ok ==>
            walk_ternary::<R>(d, ternary).0.in_circuit == d.in_circuit,
    decreases ternary,
{
    lemma_restores_expression::<R>(d, *ternary.condition);
    let (d1, r) = walk_expression::<R>(d, *ternary.condition);
    if r is Ok {
        lemma_restores_expression::<R>(d1, *ternary.if_true);
        let (d2, r) = walk_expression::<R>(d1, *ternary.if_true);
        if r is Ok {
            lemma_restores_expression::<R>(d2, *ternary.if_false);
        }
    }
}

/// A walk of a cast that succeeds leaves the director inside a circuit, or
/// outside of one, as it found it, whatever the reducer does.
pub proof fn lemma_restores_cast<R: ReconstructingReducer>(
    d: DirectorView<R::V>,
    cast: CastExpressionView,
)
    ensures
        walk_cast::<R>(d, cast).1 is Ok ==> walk_cast::<R>(d, cast).0.in_circuit == d.in_circuit,
    decreases cast,
{
    lemma_restores_expression::<R>(d, *cast.inner);
    let (d1, r) = walk_expression::<R>(d, *cast.inner);
    if r is Ok {
        lemma_restores_type::<R>(d1, cast.target_type, cast.span);
    }
}

/// A walk of an element of an inline array that succeeds leaves the director inside a circuit, or
/// outside of one, as it found it, whatever the reducer does.
pub proof fn lemma_restores_spread_or_expression<R: ReconstructingReducer>(
    d: DirectorView<R::V>,
    element: SpreadOrExpressionView,
)
    ensures
        walk_spread_or_expression::<R>(d, element).1 is Ok ==>
            walk_spread_or_expression::<R>(d, element).0.in_circuit == d.in_circuit,
    decreases element,
{
    match element {
        SpreadOrExpressionView::Spread(expression) => {
            lemma_restores_expression::<R>(d, expression);
        },
        SpreadOrExpressionView::Expression(expression) => {
            lemma_restores_expression::<R>(d, expression);
        },
    }
}

/// A walk of an inline array that succeeds leaves the director inside a circuit, or
/// outside of one, as it found it, whatever the reducer does.
pub proof fn lemma_restores_array_inline<R: ReconstructingReducer>(
    d: DirectorView<R::V>,
    array_inline: ArrayInlineExpressionView,
)
    ensures
        walk_array_inline::<R>(d, array_inline).1 is Ok ==>
            walk_array_inline::<R>(d, array_inline).0.in_circuit == d.in_circuit,
    decreases array_inline,
{
    lemma_restores_spread_or_expressions::<R>(d, array_inline.elements);
}

/// A walk of an array initialiser that succeeds leaves the director inside a circuit, or
/// outside of one, as it found it, whatever the reducer does.
pub proof fn lemma_restores_array_init<R: ReconstructingReducer>(
    d: DirectorView<R::V>,
    array_init: ArrayInitExpressionView,
)
    ensures
        walk_array_init::<R>(d, array_init).1 is Ok ==>
            walk_array_init::<R>(d, array_init).0.in_circuit == d.in_circuit,
    decreases array_init,
{
    lemma_restores_expression::<R>(d, *array_init.element);
}

/// A walk of an array access that succeeds leaves the director inside a circuit, or
/// outside of one, as it found it, whatever the reducer does.
pub proof fn lemma_restores_array_access<R: ReconstructingReducer>(
    d: DirectorView<R::V>,
    array_access: ArrayAccessExpressionView,
)
    ensures
        walk_array_access::<R>(d, array_access).1 is Ok ==>
            walk_array_access::<R>(d, array_access).0.in_circuit == d.in_circuit,
    decreases array_access,
{
    lemma_restores_expression::<R>(d, *array_access.array);
    let (d1, r) = walk_expression::<R>(d, *array_access.array);
    if r is Ok {
        lemma_restores_expression::<R>(d1, *array_access.index);
    }
}

/// A walk of an array range access that succeeds leaves the director inside a circuit, or
/// outside of one, as it found it, whatever the reducer does.
pub proof fn lemma_restores_array_range_access<R: ReconstructingReducer>(
    d: DirectorView<R::V>,
    array_range_access: ArrayRangeAccessExpressionView,
)
    ensures
        walk_array_range_access::<R>(d, array_range_access).1 is Ok ==>
            walk_array_range_access::<R>(d, array_range_access).0.in_circuit == d.in_circuit,
    decreases array_range_access,
{
    lemma_restores_expression::<R>(d, *array_range_access.array);
    let (d1, r) = walk_expression::<R>(d, *array_range_access.array);
    if r is Ok {
        let (
            d2,
            r,
        ): (DirectorView<R::V>, Result<Option<ExpressionView>, CanonicalizeError>) = match array_range_access.left {
            Some(v) => {
                lemma_restores_expression::<R>(d1, *v);
                let (next, r) = walk_expression::<R>(d1, *v);
                (
                    next,
                    match r {
                        Ok(node) => Ok(Some(node)),
                        Err(e) => Err(e),
                    },
                )
            },
            None => (d1, Ok(None)),
        };
        if r is Ok {
            match array_range_access.right {
                Some(v) => {
                    lemma_restores_expression::<R>(d2, *v);
                },
                None => {},
            }
        }
    }
}

/// A walk of a tuple initialiser that succeeds leaves the director inside a circuit, or
/// outside of one, as it found it, whatever the reducer does.
pub proof fn lemma_restores_tuple_init<R: ReconstructingReducer>(
    d: DirectorView<R::V>,
    tuple_init: TupleInitExpressionView,
)
    ensures
        walk_tuple_init::<R>(d, tuple_init).1 is Ok ==>
            walk_tuple_init::<R>(d, tuple_init).0.in_circuit == d.in_circuit,
    decreases tuple_init,
{
    lemma_restores_expressions::<R>(d, tuple_init.elements);
}

/// A walk of a tuple access that succeeds leaves the director inside a circuit, or
/// outside of one, as it found it, whatever the reducer does.
pub proof fn lemma_restores_tuple_access<R: ReconstructingReducer>(
    d: DirectorView<R::V>,
    tuple_access: TupleAccessExpressionView,
)
    ensures
        walk_tuple_access::<R>(d, tuple_access).1 is Ok ==>
            walk_tuple_access::<R>(d, tuple_access).0.in_circuit == d.in_circuit,
    decreases tuple_access,
{
    lemma_restores_expression::<R>(d, *tuple_access.tuple);
}

/// A walk of a member of a circuit initialiser that succeeds leaves the director inside a circuit, or
/// outside of one, as it found it, whatever the reducer does.
pub proof fn lemma_restores_circuit_implied_variable_definition<R: ReconstructingReducer>(
    d: DirectorView<R::V>,
    variable: CircuitImpliedVariableDefinitionView,
)
    ensures
        walk_circuit_implied_variable_definition::<R>(d, variable).1 is Ok ==>
            walk_circuit_implied_variable_definition::<R>(d, variable).0.in_circuit == d.in_circuit,
    decreases variable,
{
    lemma_restores_identifier::<R>(d, variable.identifier);
    let (d1, r) = walk_identifier::<R>(d, variable.identifier);
    if r is Ok {
        match variable.expression {
            Some(v) => {
                lemma_restores_expression::<R>(d1, v);
            },
            None => {},
        }
    }
}

/// A walk of a circuit initialiser that succeeds leaves the director inside a circuit, or
/// outside of one, as it found it, whatever the reducer does.
pub proof fn lemma_restores_circuit_init<R: ReconstructingReducer>(
    d: DirectorView<R::V>,
    circuit_init: CircuitInitExpressionView,
)
    ensures
        walk_circuit_init::<R>(d, circuit_init).1 is Ok ==>
            walk_circuit_init::<R>(d, circuit_init).0.in_circuit == d.in_circuit,
    decreases circuit_init,
{
    lemma_restores_identifier::<R>(d, circuit_init.name);
    let (d1, r) = walk_identifier::<R>(d, circuit_init.name);
    if r is Ok {
        lemma_restores_circuit_implied_variable_definitions::<R>(d1, circuit_init.members);
    }
}

/// A walk of a circuit member access that succeeds leaves the director inside a circuit, or
/// outside of one, as it found it, whatever the reducer does.
pub proof fn lemma_restores_circuit_member_access<R: ReconstructingReducer>(
    d: DirectorView<R::V>,
    circuit_member_access: CircuitMemberAccessExpressionView,
)
    ensures
        walk_circuit_member_access::<R>(d, circuit_member_access).1 is Ok ==>
            walk_circuit_member_access::<R>(d, circuit_member_access).0.in_circuit == d.in_circuit,
    decreases circuit_member_access,
{
    lemma_restores_expression::<R>(d, *circuit_member_access.circuit);
    let (d1, r) = walk_expression::<R>(d, *circuit_member_access.circuit);
    if r is Ok {
        lemma_restores_identifier::<R>(d1, circuit_member_access.name);
    }
}

/// A walk of a static function access that succeeds leaves the director inside a circuit, or
/// outside of one, as it found it, whatever the reducer does.
pub proof fn lemma_restores_circuit_static_fn_access<R: ReconstructingReducer>(
    d: DirectorView<R::V>,
    circuit_static_fn_access: CircuitStaticFunctionAccessExpressionView,
)
    ensures
        walk_circuit_static_fn_access::<R>(d, circuit_static_fn_access).1 is Ok ==>
            walk_circuit_static_fn_access::<R>(
                d,
                circuit_static_fn_access,
            ).0.in_circuit == d.in_circuit,
    decreases circuit_static_fn_access,
{
    lemma_restores_expression::<R>(d, *circuit_static_fn_access.circuit);
    let (d1, r) = walk_expression::<R>(d, *circuit_static_fn_access.circuit);
    if r is Ok {
        lemma_restores_identifier::<R>(d1, circuit_static_fn_access.name);
    }
}

/// A walk of a call that succeeds leaves the director inside a circuit, or
/// outside of one, as it found it, whatever the reducer does.
pub proof fn lemma_restores_call<R: ReconstructingReducer>(
    d: DirectorView<R::V>,
    call: CallExpressionView,
)
    ensures
        walk_call::<R>(d, call).1 is Ok ==> walk_call::<R>(d, call).0.in_circuit == d.in_circuit,
    decreases call,
{
    lemma_restores_expression::<R>(d, *call.function);
    let (d1, r) = walk_expression::<R>(d, *call.function);
    if r is Ok {
        lemma_restores_expressions::<R>(d1, call.arguments);
    }
}

/// A walk of a statement that succeeds leaves the director inside a circuit, or
/// outside of one, as it found it, whatever the reducer does.
pub proof fn lemma_restores_statement<R: ReconstructingReducer>(
    d: DirectorView<R::V>,
    statement: StatementView,
)
    ensures
        walk_statement::<R>(d, statement).1 is Ok ==>
            walk_statement::<R>(d, statement).0.in_circuit == d.in_circuit,
    decreases statement,
{
    match statement {
        StatementView::Return(return_statement) => {
            lemma_restores_return::<R>(d, return_statement);
        },
        StatementView::Definition(definition) => {
            lemma_restores_definition::<R>(d, definition);
        },
        StatementView::Assign(assign) => {
            lemma_restores_assign::<R>(d, assign);
        },
        StatementView::Conditional(conditional) => {
            lemma_restores_conditional::<R>(d, conditional);
        },
        StatementView::Iteration(iteration) => {
            lemma_restores_iteration::<R>(d, iteration);
        },
        StatementView::Console(console) => {
            lemma_restores_console::<R>(d, console);
        },
        StatementView::Expression(expression_statement) => {
            lemma_restores_expression_statement::<R>(d, expression_statement);
        },
        StatementView::Block(block) => {
            lemma_restores_block::<R>(d, block);
        },
    }
}

/// A walk of a return that succeeds leaves the director inside a circuit, or
/// outside of one, as it found it, whatever the reducer does.
pub proof fn lemma_restores_return<R: ReconstructingReducer>(
    d: DirectorView<R::V>,
    return_statement: ReturnStatementView,
)
    ensures
        walk_return::<R>(d, return_statement).1 is Ok ==>
            walk_return::<R>(d, return_statement).0.in_circuit == d.in_circuit,
    decreases return_statement,
{
    lemma_restores_expression::<R>(d, return_statement.expression);
}

/// A walk of a variable name that succeeds leaves the director inside a circuit, or
/// outside of one, as it found it, whatever the reducer does.
pub proof fn lemma_restores_variable_name<R: ReconstructingReducer>(
    d: DirectorView<R::V>,
    variable_name: VariableNameView,
)
    ensures
        walk_variable_name::<R>(d, variable_name).1 is Ok ==>
            walk_variable_name::<R>(d, variable_name).0.in_circuit == d.in_circuit,
    decreases variable_name,
{
    lemma_restores_identifier::<R>(d, variable_name.identifier);
}

/// A walk of a definition that succeeds leaves the director inside a circuit, or
/// outside of one, as it found it, whatever the reducer does.
pub proof fn lemma_restores_definition<R: ReconstructingReducer>(
    d: DirectorView<R::V>,
    definition: DefinitionStatementView,
)
    ensures
        walk_definition::<R>(d, definition).1 is Ok ==>
            walk_definition::<R>(d, definition).0.in_circuit == d.in_circuit,
    decreases definition,
{
    lemma_restores_variable_names::<R>(d, definition.variable_names);
    let (d1, r) = walk_variable_names::<R>(d, definition.variable_names);
    if r is Ok {
        let (
            d2,
            r,
        ): (DirectorView<R::V>, Result<Option<TypeView>, CanonicalizeError>) = match definition.type_ {
            Some(v) => {
                lemma_restores_type::<R>(d1, v, definition.span);
                let (next, r) = walk_type::<R>(d1, v, definition.span);
                (
                    next,
                    match r {
                        Ok(node) => Ok(Some(node)),
                        Err(e) => Err(e),
                    },
                )
            },
            None => (d1, Ok(None)),
        };
        if r is Ok {
            lemma_restores_expression::<R>(d2, definition.value);
        }
    }
}

/// A walk of an assignee access that succeeds leaves the director inside a circuit, or
/// outside of one, as it found it, whatever the reducer does.
pub proof fn lemma_restores_assignee_access<R: ReconstructingReducer>(
    d: DirectorView<R::V>,
    access: AssigneeAccessView,
)
    ensures
        walk_assignee_access::<R>(d, access).1 is Ok ==>
            walk_assignee_access::<R>(d, access).0.in_circuit == d.in_circuit,
    decreases access,
{
    match access {
        AssigneeAccessView::ArrayRange(start, stop) => {
            let (
                d1,
                r,
            ): (DirectorView<R::V>, Result<Option<ExpressionView>, CanonicalizeError>) = match start {
                Some(v) => {
                    lemma_restores_expression::<R>(d, v);
                    let (next, r) = walk_expression::<R>(d, v);
                    (
                        next,
                        match r {
                            Ok(node) => Ok(Some(node)),
                            Err(e) => Err(e),
                        },
                    )
                },
                None => (d, Ok(None)),
            };
            if r is Ok {
                match stop {
                    Some(v) => {
                        lemma_restores_expression::<R>(d1, v);
                    },
                    None => {},
                }
            }
        },
        AssigneeAccessView::ArrayIndex(expression) => {
            lemma_restores_expression::<R>(d, expression);
        },
        AssigneeAccessView::Member(name) => {
            lemma_restores_identifier::<R>(d, name);
        },
        _ => {},
    }
}

/// A walk of an assignee that succeeds leaves the director inside a circuit, or
/// outside of one, as it found it, whatever the reducer does.
pub proof fn lemma_restores_assignee<R: ReconstructingReducer>(
    d: DirectorView<R::V>,
    assignee: AssigneeView,
)
    ensures
        walk_assignee::<R>(d, assignee).1 is Ok ==>
            walk_assignee::<R>(d, assignee).0.in_circuit == d.in_circuit,
    decreases assignee,
{
    lemma_restores_identifier::<R>(d, assignee.identifier);
    let (d1, r) = walk_identifier::<R>(d, assignee.identifier);
    if r is Ok {
        lemma_restores_assignee_accesses::<R>(d1, assignee.accesses);
    }
}

/// A walk of an assignment that succeeds leaves the director inside a circuit, or
/// outside of one, as it found it, whatever the reducer does.
pub proof fn lemma_restores_assign<R: ReconstructingReducer>(
    d: DirectorView<R::V>,
    assign: AssignStatementView,
)
    ensures
        walk_assign::<R>(d, assign).1 is Ok ==>
            walk_assign::<R>(d, assign).0.in_circuit == d.in_circuit,
    decreases assign,
{
    lemma_restores_assignee::<R>(d, assign.assignee);
    let (d1, r) = walk_assignee::<R>(d, assign.assignee);
    if r is Ok {
        lemma_restores_expression::<R>(d1, assign.value);
    }
}

/// A walk of a conditional that succeeds leaves the director inside a circuit, or
/// outside of one, as it found it, whatever the reducer does.
pub proof fn lemma_restores_conditional<R: ReconstructingReducer>(
    d: DirectorView<R::V>,
    conditional: ConditionalStatementView,
)
    ensures
        walk_conditional::<R>(d, conditional).1 is Ok ==>
            walk_conditional::<R>(d, conditional).0.in_circuit == d.in_circuit,
    decreases conditional,
{
    lemma_restores_expression::<R>(d, conditional.condition);
    let (d1, r) = walk_expression::<R>(d, conditional.condition);
    if r is Ok {
        lemma_restores_block::<R>(d1, conditional.block);
        let (d2, r) = walk_block::<R>(d1, conditional.block);
        if r is Ok {
            match conditional.next {
                Some(v) => {
                    lemma_restores_statement::<R>(d2, *v);
                },
                None => {},
            }
        }
    }
}

/// A walk of a loop that succeeds leaves the director inside a circuit, or
/// outside of one, as it found it, whatever the reducer does.
pub proof fn lemma_restores_iteration<R: ReconstructingReducer>(
    d: DirectorView<R::V>,
    iteration: IterationStatementView,
)
    ensures
        walk_iteration::<R>(d, iteration).1 is Ok ==>
            walk_iteration::<R>(d, iteration).0.in_circuit == d.in_circuit,
    decreases iteration,
{
    lemma_restores_identifier::<R>(d, iteration.variable);
    let (d1, r) = walk_identifier::<R>(d, iteration.variable);
    if r is Ok {
        lemma_restores_expression::<R>(d1, iteration.start);
        let (d2, r) = walk_expression::<R>(d1, iteration.start);
        if r is Ok {
            lemma_restores_expression::<R>(d2, iteration.stop);
            let (d3, r) = walk_expression::<R>(d2, iteration.stop);
            if r is Ok {
                lemma_restores_block::<R>(d3, iteration.block);
            }
        }
    }
}

/// A walk of a console statement that succeeds leaves the director inside a circuit, or
/// outside of one, as it found it, whatever the reducer does.
pub proof fn lemma_restores_console<R: ReconstructingReducer>(
    d: DirectorView<R::V>,
    console_function_call: ConsoleStatementView,
)
    ensures
        walk_console::<R>(d, console_function_call).1 is Ok ==>
            walk_console::<R>(d, console_function_call).0.in_circuit == d.in_circuit,
    decreases console_function_call,
{
    match console_function_call.function {
        ConsoleFunctionView::Assert(expression) => {
            lemma_restores_expression::<R>(d, expression);
        },
        ConsoleFunctionView::Debug(format) => {
            lemma_restores_expressions::<R>(d, format.parameters);
        },
        ConsoleFunctionView::Error(format) => {
            lemma_restores_expressions::<R>(d, format.parameters);
        },
        ConsoleFunctionView::Log(format) => {
            lemma_restores_expressions::<R>(d, format.parameters);
        },
    }
}

/// A walk of an expression statement that succeeds leaves the director inside a circuit, or
/// outside of one, as it found it, whatever the reducer does.
pub proof fn lemma_restores_expression_statement<R: ReconstructingReducer>(
    d: DirectorView<R::V>,
    expression_statement: ExpressionStatementView,
)
    ensures
        walk_expression_statement::<R>(d, expression_statement).1 is Ok ==>
            walk_expression_statement::<R>(d, expression_statement).0.in_circuit == d.in_circuit,
    decreases expression_statement,
{
    lemma_restores_expression::<R>(d, expression_statement.expression);
}

/// A walk of a block that succeeds leaves the director inside a circuit, or
/// outside of one, as it found it, whatever the reducer does.
pub proof fn lemma_restores_block<R: ReconstructingReducer>(d: DirectorView<R::V>, block: BlockView)
    ensures
        walk_block::<R>(d, block).1 is Ok ==>
            walk_block::<R>(d, block).0.in_circuit == d.in_circuit,
    decreases block,
{
    lemma_restores_statements::<R>(d, block.statements);
}

/// A walk of an input variable of a function that succeeds leaves the director inside a circuit, or
/// outside of one, as it found it, whatever the reducer does.
pub proof fn lemma_restores_function_input_variable<R: ReconstructingReducer>(
    d: DirectorView<R::V>,
    variable: FunctionInputVariableView,
)
    ensures
        walk_function_input_variable::<R>(d, variable).1 is Ok ==>
            walk_function_input_variable::<R>(d, variable).0.in_circuit == d.in_circuit,
    decreases variable,
{
    lemma_restores_identifier::<R>(d, variable.identifier);
    let (d1, r) = walk_identifier::<R>(d, variable.identifier);
    if r is Ok {
        lemma_restores_type::<R>(d1, variable.type_, variable.span);
    }
}

/// A walk of an input of a function that succeeds leaves the director inside a circuit, or
/// outside of one, as it found it, whatever the reducer does.
pub proof fn lemma_restores_function_input<R: ReconstructingReducer>(
    d: DirectorView<R::V>,
    input: FunctionInputView,
)
    ensures
        walk_function_input::<R>(d, input).1 is Ok ==>
            walk_function_input::<R>(d, input).0.in_circuit == d.in_circuit,
    decreases input,
{
    match input {
        FunctionInputView::Variable(input_variable) => {
            lemma_restores_function_input_variable::<R>(d, input_variable);
        },
        _ => {},
    }
}

/// A walk of the package of an import that succeeds leaves the director inside a circuit, or
/// outside of one, as it found it, whatever the reducer does.
pub proof fn lemma_restores_package_or_packages<R: ReconstructingReducer>(
    d: DirectorView<R::V>,
    package_or_packages: PackageOrPackagesView,
)
    ensures
        walk_package_or_packages::<R>(d, package_or_packages).1 is Ok ==>
            walk_package_or_packages::<R>(d, package_or_packages).0.in_circuit == d.in_circuit,
    decreases package_or_packages,
{
    match package_or_packages {
        PackageOrPackagesView::Package(package) => {
            lemma_restores_identifier::<R>(d, package.name);
        },
        PackageOrPackagesView::Packages(packages) => {
            lemma_restores_identifier::<R>(d, packages.name);
        },
    }
}

/// A walk of an import that succeeds leaves the director inside a circuit, or
/// outside of one, as it found it, whatever the reducer does.
pub proof fn lemma_restores_import<R: ReconstructingReducer>(
    d: DirectorView<R::V>,
    import: ImportStatementView,
)
    ensures
        walk_import::<R>(d, import).1 is Ok ==>
            walk_import::<R>(d, import).0.in_circuit == d.in_circuit,
    decreases import,
{
    lemma_restores_package_or_packages::<R>(d, import.package_or_packages);
}

/// A walk of a member of a circuit that succeeds leaves the director inside a circuit, or
/// outside of one, as it found it, whatever the reducer does.
pub proof fn lemma_restores_circuit_member<R: ReconstructingReducer>(
    d: DirectorView<R::V>,
    circuit_member: CircuitMemberView,
)
    ensures
        walk_circuit_member::<R>(d, circuit_member).1 is Ok ==>
            walk_circuit_member::<R>(d, circuit_member).0.in_circuit == d.in_circuit,
    decreases circuit_member,
{
    let inner = DirectorView { reducer: d.reducer, in_circuit: !d.in_circuit };
    match circuit_member {
        CircuitMemberView::CircuitVariable(name, variable_type) => {
            lemma_restores_identifier::<R>(inner, name);
            let (d1, r) = walk_identifier::<R>(inner, name);
            if r is Ok {
                lemma_restores_type::<R>(d1, variable_type, name.span);
            }
        },
        CircuitMemberView::CircuitFunction(method) => {
            lemma_restores_function::<R>(inner, method);
        },
    }
}

/// A walk of a circuit that succeeds leaves the director inside a circuit, or
/// outside of one, as it found it, whatever the reducer does.
pub proof fn lemma_restores_circuit<R: ReconstructingReducer>(
    d: DirectorView<R::V>,
    circuit: CircuitView,
)
    ensures
        walk_circuit::<R>(d, circuit).1 is Ok ==>
            walk_circuit::<R>(d, circuit).0.in_circuit == d.in_circuit,
    decreases circuit,
{
    lemma_restores_identifier::<R>(d, circuit.circuit_name);
    let (d1, r) = walk_identifier::<R>(d, circuit.circuit_name);
    if r is Ok {
        lemma_restores_circuit_members::<R>(d1, circuit.members);
    }
}

/// A walk of an annotation that succeeds leaves the director inside a circuit, or
/// outside of one, as it found it, whatever the reducer does.
pub proof fn lemma_restores_annotation<R: ReconstructingReducer>(
    d: DirectorView<R::V>,
    annotation: AnnotationView,
)
    ensures
        walk_annotation::<R>(d, annotation).1 is Ok ==>
            walk_annotation::<R>(d, annotation).0.in_circuit == d.in_circuit,
    decreases annotation,
{
    lemma_restores_identifier::<R>(d, annotation.name);
}

/// A walk of a function that succeeds leaves the director inside a circuit, or
/// outside of one, as it found it, whatever the reducer does.
pub proof fn lemma_restores_function<R: ReconstructingReducer>(
    d: DirectorView<R::V>,
    function: FunctionView,
)
    ensures
        walk_function::<R>(d, function).1 is Ok ==>
            walk_function::<R>(d, function).0.in_circuit == d.in_circuit,
    decreases function,
{
    lemma_restores_identifier::<R>(d, function.identifier);
    let (d1, r) = walk_identifier::<R>(d, function.identifier);
    if r is Ok {
        lemma_restores_annotations::<R>(d1, function.annotations);
        let (d2, r) = walk_annotations::<R>(d1, function.annotations);
        if r is Ok {
            lemma_restores_function_inputs::<R>(d2, function.input);
            let (d3, r) = walk_function_inputs::<R>(d2, function.input);
            if r is Ok {
                let (
                    d4,
                    r,
                ): (DirectorView<R::V>, Result<Option<TypeView>, CanonicalizeError>) = match function.output {
                    Some(v) => {
                        lemma_restores_type::<R>(d3, v, function.span);
                        let (next, r) = walk_type::<R>(d3, v, function.span);
                        (
                            next,
                            match r {
                                Ok(node) => Ok(Some(node)),
                                Err(e) => Err(e),
                            },
                        )
                    },
                    None => (d3, Ok(None)),
                };
                if r is Ok {
                    lemma_restores_block::<R>(d4, function.block);
                }
            }
        }
    }
}

/// A walk of a list that succeeds leaves the director inside a circuit, or
/// outside of one, as it found it, whatever the reducer does.
pub proof fn lemma_restores_types<R: ReconstructingReducer>(
    d: DirectorView<R::V>,
    items: Seq<TypeView>,
    span: Span,
)
    ensures
        walk_types::<R>(d, items, span).1 is Ok ==>
            walk_types::<R>(d, items, span).0.in_circuit == d.in_circuit,
    decreases items,
{
    if items.len() > 0 {
        lemma_restores_types::<R>(d, items.drop_last(), span);
        let (d1, r) = walk_types::<R>(d, items.drop_last(), span);
        if r is Ok {
            lemma_restores_type::<R>(d1, items.last(), span);
        }
    }
}

/// A walk of a list that succeeds leaves the director inside a circuit, or
/// outside of one, as it found it, whatever the reducer does.
pub proof fn lemma_restores_spread_or_expressions<R: ReconstructingReducer>(
    d: DirectorView<R::V>,
    items: Seq<SpreadOrExpressionView>,
)
    ensures
        walk_spread_or_expressions::<R>(d, items).1 is Ok ==>
            walk_spread_or_expressions::<R>(d, items).0.in_circuit == d.in_circuit,
    decreases items,
{
    if items.len() > 0 {
        lemma_restores_spread_or_expressions::<R>(d, items.drop_last());
        let (d1, r) = walk_spread_or_expressions::<R>(d, items.drop_last());
        if r is Ok {
            lemma_restores_spread_or_expression::<R>(d1, items.last());
        }
    }
}

/// A walk of a list that succeeds leaves the director inside a circuit, or
/// outside of one, as it found it, whatever the reducer does.
pub proof fn lemma_restores_expressions<R: ReconstructingReducer>(
    d: DirectorView<R::V>,
    items: Seq<ExpressionView>,
)
    ensures
        walk_expressions::<R>(d, items).1 is Ok ==>
            walk_expressions::<R>(d, items).0.in_circuit == d.in_circuit,
    decreases items,
{
    if items.len() > 0 {
        lemma_restores_expressions::<R>(d, items.drop_last());
        let (d1, r) = walk_expressions::<R>(d, items.drop_last());
        if r is Ok {
            lemma_restores_expression::<R>(d1, items.last());
        }
    }
}

/// A walk of a list that succeeds leaves the director inside a circuit, or
/// outside of one, as it found it, whatever the reducer does.
pub proof fn lemma_restores_circuit_implied_variable_definitions<R: ReconstructingReducer>(
    d: DirectorView<R::V>,
    items: Seq<CircuitImpliedVariableDefinitionView>,
)
    ensures
        walk_circuit_implied_variable_definitions::<R>(d, items).1 is Ok ==>
            walk_circuit_implied_variable_definitions::<R>(d, items).0.in_circuit == d.in_circuit,
    decreases items,
{
    if items.len() > 0 {
        lemma_restores_circuit_implied_variable_definitions::<R>(d, items.drop_last());
        let (d1, r) = walk_circuit_implied_variable_definitions::<R>(d, items.drop_last());
        if r is Ok {
            lemma_restores_circuit_implied_variable_definition::<R>(d1, items.last());
        }
    }
}

/// A walk of a list that succeeds leaves the director inside a circuit, or
/// outside of one, as it found it, whatever the reducer does.
pub proof fn lemma_restores_variable_names<R: ReconstructingReducer>(
    d: DirectorView<R::V>,
    items: Seq<VariableNameView>,
)
    ensures
        walk_variable_names::<R>(d, items).1 is Ok ==>
            walk_variable_names::<R>(d, items).0.in_circuit == d.in_circuit,
    decreases items,
{
    if items.len() > 0 {
        lemma_restores_variable_names::<R>(d, items.drop_last());
        let (d1, r) = walk_variable_names::<R>(d, items.drop_last());
        if r is Ok {
            lemma_restores_variable_name::<R>(d1, items.last());
        }
    }
}

/// A walk of a list that succeeds leaves the director inside a circuit, or
/// outside of one, as it found it, whatever the reducer does.
pub proof fn lemma_restores_assignee_accesses<R: ReconstructingReducer>(
    d: DirectorView<R::V>,
    items: Seq<AssigneeAccessView>,
)
    ensures
        walk_assignee_accesses::<R>(d, items).1 is Ok ==>
            walk_assignee_accesses::<R>(d, items).0.in_circuit == d.in_circuit,
    decreases items,
{
    if items.len() > 0 {
        lemma_restores_assignee_accesses::<R>(d, items.drop_last());
        let (d1, r) = walk_assignee_accesses::<R>(d, items.drop_last());
        if r is Ok {
            lemma_restores_assignee_access::<R>(d1, items.last());
        }
    }
}

/// A walk of a list that succeeds leaves the director inside a circuit, or
/// outside of one, as it found it, whatever the reducer does.
pub proof fn lemma_restores_statements<R: ReconstructingReducer>(
    d: DirectorView<R::V>,
    items: Seq<StatementView>,
)
    ensures
        walk_statements::<R>(d, items).1 is Ok ==>
            walk_statements::<R>(d, items).0.in_circuit == d.in_circuit,
    decreases items,
{
    if items.len() > 0 {
        lemma_restores_statements::<R>(d, items.drop_last());
        let (d1, r) = walk_statements::<R>(d, items.drop_last());
        if r is Ok {
            lemma_restores_statement::<R>(d1, items.last());
        }
    }
}

/// A walk of a list that succeeds leaves the director inside a circuit, or
/// outside of one, as it found it, whatever the reducer does.
pub proof fn lemma_restores_function_inputs<R: ReconstructingReducer>(
    d: DirectorView<R::V>,
    items: Seq<FunctionInputView>,
)
    ensures
        walk_function_inputs::<R>(d, items).1 is Ok ==>
            walk_function_inputs::<R>(d, items).0.in_circuit == d.in_circuit,
    decreases items,
{
    if items.len() > 0 {
        lemma_restores_function_inputs::<R>(d, items.drop_last());
        let (d1, r) = walk_function_inputs::<R>(d, items.drop_last());
        if r is Ok {
            lemma_restores_function_input::<R>(d1, items.last());
        }
    }
}

/// A walk of a list that succeeds leaves the director inside a circuit, or
/// outside of one, as it found it, whatever the reducer does.
pub proof fn lemma_restores_imports<R: ReconstructingReducer>(
    d: DirectorView<R::V>,
    items: Seq<ImportStatementView>,
)
    ensures
        walk_imports::<R>(d, items).1 is Ok ==>
            walk_imports::<R>(d, items).0.in_circuit == d.in_circuit,
    decreases items,
{
    if items.len() > 0 {
        lemma_restores_imports::<R>(d, items.drop_last());
        let (d1, r) = walk_imports::<R>(d, items.drop_last());
        if r is Ok {
            lemma_restores_import::<R>(d1, items.last());
        }
    }
}

/// A walk of a list that succeeds leaves the director inside a circuit, or
/// outside of one, as it found it, whatever the reducer does.
pub proof fn lemma_restores_circuit_members<R: ReconstructingReducer>(
    d: DirectorView<R::V>,
    items: Seq<CircuitMemberView>,
)
    ensures
        walk_circuit_members::<R>(d, items).1 is Ok ==>
            walk_circuit_members::<R>(d, items).0.in_circuit == d.in_circuit,
    decreases items,
{
    if items.len() > 0 {
        lemma_restores_circuit_members::<R>(d, items.drop_last());
        let (d1, r) = walk_circuit_members::<R>(d, items.drop_last());
        if r is Ok {
            lemma_restores_circuit_member::<R>(d1, items.last());
        }
    }
}

/// A walk of a list that succeeds leaves the director inside a circuit, or
/// outside of one, as it found it, whatever the reducer does.
pub proof fn lemma_restores_annotations<R: ReconstructingReducer>(
    d: DirectorView<R::V>,
    items: Seq<AnnotationView>,
)
    ensures
        walk_annotations::<R>(d, items).1 is Ok ==>
            walk_annotations::<R>(d, items).0.in_circuit == d.in_circuit,
    decreases items,
{
    if items.len() > 0 {
        lemma_restores_annotations::<R>(d, items.drop_last());
        let (d1, r) = walk_annotations::<R>(d, items.drop_last());
        if r is Ok {
            lemma_restores_annotation::<R>(d1, items.last());
        }
    }
}

/// A walk of a map of circuits that succeeds leaves the director inside a
/// circuit, or outside of one, as it found it, whatever the reducer does.
pub proof fn lemma_restores_circuit_entries<R: ReconstructingReducer>(
    d: DirectorView<R::V>,
    entries: Seq<(IdentifierView, CircuitView)>,
)
    ensures
        walk_circuit_entries::<R>(d, entries).1 is Ok ==> walk_circuit_entries::<R>(
            d,
            entries,
        ).0.in_circuit == d.in_circuit,
    decreases entries,
{
    if entries.len() > 0 {
        lemma_restores_circuit_entries::<R>(d, entries.drop_last());
        let (d1, r) = walk_circuit_entries::<R>(d, entries.drop_last());
        if r is Ok {
            lemma_restores_identifier::<R>(d1, entries.last().0);
            let (d2, r) = walk_identifier::<R>(d1, entries.last().0);
            if r is Ok {
                lemma_restores_circuit::<R>(d2, entries.last().1);
            }
        }
    }
}

/// A walk of a map of functions that succeeds leaves the director inside a
/// circuit, or outside of one, as it found it, whatever the reducer does.
pub proof fn lemma_restores_function_entries<R: ReconstructingReducer>(
    d: DirectorView<R::V>,
    entries: Seq<(IdentifierView, FunctionView)>,
)
    ensures
        walk_function_entries::<R>(d, entries).1 is Ok ==> walk_function_entries::<R>(
            d,
            entries,
        ).0.in_circuit == d.in_circuit,
    decreases entries,
{
    if entries.len() > 0 {
        lemma_restores_function_entries::<R>(d, entries.drop_last());
        let (d1, r) = walk_function_entries::<R>(d, entries.drop_last());
        if r is Ok {
            lemma_restores_identifier::<R>(d1, entries.last().0);
            let (d2, r) = walk_identifier::<R>(d1, entries.last().0);
            if r is Ok {
                lemma_restores_function::<R>(d2, entries.last().1);
            }
        }
    }
}

/// A walk of a program that succeeds leaves the director inside a circuit, or
/// outside of one, as it found it, whatever the reducer does.
pub proof fn lemma_restores_program<R: ReconstructingReducer>(
    d: DirectorView<R::V>,
    program: ProgramView,
)
    ensures
        walk_program::<R>(d, program).1 is Ok ==> walk_program::<R>(d, program).0.in_circuit
            == d.in_circuit,
{
    lemma_restores_function_inputs::<R>(d, program.expected_input);
    let (d1, r) = walk_function_inputs::<R>(d, program.expected_input);
    if r is Ok {
        lemma_restores_imports::<R>(d1, program.imports);
        let (d2, r) = walk_imports::<R>(d1, program.imports);
        if r is Ok {
            lemma_restores_circuit_entries::<R>(d2, program.circuits);
            let (d3, r) = walk_circuit_entries::<R>(d2, program.circuits);
            if r is Ok {
                lemma_restores_function_entries::<R>(d3, program.functions);
            }
        }
    }
}

} // verus!
