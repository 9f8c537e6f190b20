//! The director: it walks a syntax tree in declaration order, reduces the parts
//! of each node first, rebuilds the node from them, and hands both the node as it
//! stood and the rebuilt one to the reducer.
use crate::ast::common::{clone_sizes, Identifier, IdentifierView};
use crate::ast::expression::{
    ArrayAccessExpression, ArrayAccessExpressionView, ArrayInitExpression, ArrayInitExpressionView,
    ArrayInlineExpression, ArrayInlineExpressionView, ArrayRangeAccessExpression,
    ArrayRangeAccessExpressionView, BinaryExpression, BinaryExpressionView, CallExpression,
    CallExpressionView, CastExpression, CastExpressionView,
    circuit_implied_variable_definition_seq_view, CircuitImpliedVariableDefinition,
    CircuitImpliedVariableDefinitionView, CircuitInitExpression, CircuitInitExpressionView,
    CircuitMemberAccessExpression, CircuitMemberAccessExpressionView,
    CircuitStaticFunctionAccessExpression, CircuitStaticFunctionAccessExpressionView, Expression,
    expression_seq_view, ExpressionView, GroupTuple, GroupTupleView, GroupValue, GroupValueView,
    spread_or_expression_seq_view, SpreadOrExpression, SpreadOrExpressionView, TernaryExpression,
    TernaryExpressionView, TupleAccessExpression, TupleAccessExpressionView, TupleInitExpression,
    TupleInitExpressionView, UnaryExpression, UnaryExpressionView, ValueExpression,
    ValueExpressionView,
};
use crate::ast::function::{
    Annotation, annotation_seq_view, AnnotationView, Circuit, circuit_member_seq_view,
    CircuitMember, CircuitMemberView, CircuitView, Function, function_input_seq_view, FunctionInput,
    FunctionInputVariable, FunctionInputVariableView, FunctionInputView, FunctionView,
};
use crate::ast::imports::{
    clone_package_access_seq, import_statement_seq_view, ImportStatement, ImportStatementView,
    Package, PackageOrPackages, PackageOrPackagesView, Packages, PackagesView, PackageView,
};
use crate::ast::program::{
    circuit_entries, circuits_get, circuits_insert, circuits_len, circuits_new, circuits_view,
    function_entries, functions_get, functions_insert, functions_len, functions_new, functions_view,
    inserted, Program, ProgramView,
};
use crate::ast::statement::{
    Assignee, assignee_access_seq_view, AssigneeAccess, AssigneeAccessView, AssigneeView,
    AssignStatement, AssignStatementView, Block, BlockView, clone_format_string_part_seq,
    ConditionalStatement, ConditionalStatementView, ConsoleFunction, ConsoleFunctionView,
    ConsoleStatement, ConsoleStatementView, DefinitionStatement, DefinitionStatementView,
    ExpressionStatement, ExpressionStatementView, FormatString, FormatStringView,
    IterationStatement, IterationStatementView, ReturnStatement, ReturnStatementView, Statement,
    statement_seq_view, StatementView, variable_name_seq_view, VariableName, VariableNameView,
};
use crate::ast::types::{Type, type_seq_view, TypeView};
use crate::errors::CanonicalizeError;
use crate::reducer::reconstructing_reducer::{ReconstructingReducer, reduced};
use crate::span::Span;
use indexmap::IndexMap;
use vstd::prelude::*;

verus! {

/// The state of a director: the state of its reducer, and whether the walk is
/// inside a member of a circuit.
pub struct DirectorView<S> {
    pub reducer: S,
    pub in_circuit: bool,
}

/// Walks a syntax tree on behalf of a reducer.
pub struct ReconstructingDirector<R: ReconstructingReducer> {
    reducer: R,
    in_circuit: bool,
}

impl<R: ReconstructingReducer> View for ReconstructingDirector<R> {
    type V = DirectorView<R::V>;

    closed spec fn view(&self) -> DirectorView<R::V> {
        DirectorView { reducer: self.reducer@, in_circuit: self.in_circuit }
    }
}

/// What the director gives for a type, and the state it is left in.
pub open spec fn walk_type<R: ReconstructingReducer>(
    d: DirectorView<R::V>,
    type_: TypeView,
    span: Span,
) -> (DirectorView<R::V>, Result<TypeView, CanonicalizeError>)
    decreases type_,
{
    let (after, new): (DirectorView<R::V>, Result<TypeView, CanonicalizeError>) = match type_ {
        TypeView::Array(inner, dimensions) => {
            let (d1, r) = walk_type::<R>(d, *inner, span);
            match r {
                Err(e) => (d1, Err(e)),
                Ok(element) => {
                    (d1, Ok(TypeView::Array(Box::new(element), dimensions)))
                },
            }
        },
        TypeView::Tuple(items) => {
            let (d1, r) = walk_types::<R>(d, items, span);
            match r {
                Err(e) => (d1, Err(e)),
                Ok(types) => {
                    (d1, Ok(TypeView::Tuple(types)))
                },
            }
        },
        TypeView::Circuit(name) => {
            let (d1, r) = walk_identifier::<R>(d, name);
            match r {
                Err(e) => (d1, Err(e)),
                Ok(identifier) => {
                    (d1, Ok(TypeView::Circuit(identifier)))
                },
            }
        },
        _ => (d, Ok(type_)),
    };
    match new {
        Err(e) => (after, Err(e)),
        Ok(new) => {
            let (state, r) = R::reduce_type_spec(after.reducer, type_, new, after.in_circuit, span);
            (DirectorView { reducer: state, in_circuit: after.in_circuit }, r)
        },
    }
}

/// What the director gives for an expression, and the state it is left in.
pub open spec fn walk_expression<R: ReconstructingReducer>(
    d: DirectorView<R::V>,
    expression: ExpressionView,
) -> (DirectorView<R::V>, Result<ExpressionView, CanonicalizeError>)
    decreases expression,
{
    let (
        after,
        new,
    ): (DirectorView<R::V>, Result<ExpressionView, CanonicalizeError>) = match expression {
        ExpressionView::Identifier(identifier) => {
            let (d1, r) = walk_identifier::<R>(d, identifier);
            match r {
                Err(e) => (d1, Err(e)),
                Ok(inner) => {
                    (d1, Ok(ExpressionView::Identifier(inner)))
                },
            }
        },
        ExpressionView::Value(value) => {
            let (d1, r) = walk_value::<R>(d, value);
            match r {
                Err(e) => (d1, Err(e)),
                Ok(inner) => {
                    (d1, Ok(ExpressionView::Value(inner)))
                },
            }
        },
        ExpressionView::Binary(binary) => {
            let (d1, r) = walk_binary::<R>(d, binary);
            match r {
                Err(e) => (d1, Err(e)),
                Ok(inner) => {
                    (d1, Ok(ExpressionView::Binary(inner)))
                },
            }
        },
        ExpressionView::Unary(unary) => {
            let (d1, r) = walk_unary::<R>(d, unary);
            match r {
                Err(e) => (d1, Err(e)),
                Ok(inner) => {
                    (d1, Ok(ExpressionView::Unary(inner)))
                },
            }
        },
        ExpressionView::Ternary(ternary) => {
            let (d1, r) = walk_ternary::<R>(d, ternary);
            match r {
                Err(e) => (d1, Err(e)),
                Ok(inner) => {
                    (d1, Ok(ExpressionView::Ternary(inner)))
                },
            }
        },
        ExpressionView::Cast(cast) => {
            let (d1, r) = walk_cast::<R>(d, cast);
            match r {
                Err(e) => (d1, Err(e)),
                Ok(inner) => {
                    (d1, Ok(ExpressionView::Cast(inner)))
                },
            }
        },
        ExpressionView::ArrayInline(array_inline) => {
            let (d1, r) = walk_array_inline::<R>(d, array_inline);
            match r {
                Err(e) => (d1, Err(e)),
                Ok(inner) => {
                    (d1, Ok(ExpressionView::ArrayInline(inner)))
                },
            }
        },
        ExpressionView::ArrayInit(array_init) => {
            let (d1, r) = walk_array_init::<R>(d, array_init);
            match r {
                Err(e) => (d1, Err(e)),
                Ok(inner) => {
                    (d1, Ok(ExpressionView::ArrayInit(inner)))
                },
            }
        },
        ExpressionView::ArrayAccess(array_access) => {
            let (d1, r) = walk_array_access::<R>(d, array_access);
            match r {
                Err(e) => (d1, Err(e)),
                Ok(inner) => {
                    (d1, Ok(ExpressionView::ArrayAccess(inner)))
                },
            }
        },
        ExpressionView::ArrayRangeAccess(array_range_access) => {
            let (d1, r) = walk_array_range_access::<R>(d, array_range_access);
            match r {
                Err(e) => (d1, Err(e)),
                Ok(inner) => {
                    (d1, Ok(ExpressionView::ArrayRangeAccess(inner)))
                },
            }
        },
        ExpressionView::TupleInit(tuple_init) => {
            let (d1, r) = walk_tuple_init::<R>(d, tuple_init);
            match r {
                Err(e) => (d1, Err(e)),
                Ok(inner) => {
                    (d1, Ok(ExpressionView::TupleInit(inner)))
                },
            }
        },
        ExpressionView::TupleAccess(tuple_access) => {
            let (d1, r) = walk_tuple_access::<R>(d, tuple_access);
            match r {
                Err(e) => (d1, Err(e)),
                Ok(inner) => {
                    (d1, Ok(ExpressionView::TupleAccess(inner)))
                },
            }
        },
        ExpressionView::CircuitInit(circuit_init) => {
            let (d1, r) = walk_circuit_init::<R>(d, circuit_init);
            match r {
                Err(e) => (d1, Err(e)),
                Ok(inner) => {
                    (d1, Ok(ExpressionView::CircuitInit(inner)))
                },
            }
        },
        ExpressionView::CircuitMemberAccess(circuit_member_access) => {
            let (d1, r) = walk_circuit_member_access::<R>(d, circuit_member_access);
            match r {
                Err(e) => (d1, Err(e)),
                Ok(inner) => {
                    (d1, Ok(ExpressionView::CircuitMemberAccess(inner)))
                },
            }
        },
        ExpressionView::CircuitStaticFunctionAccess(circuit_static_fn_access) => {
            let (d1, r) = walk_circuit_static_fn_access::<R>(d, circuit_static_fn_access);
            match r {
                Err(e) => (d1, Err(e)),
                Ok(inner) => {
                    (d1, Ok(ExpressionView::CircuitStaticFunctionAccess(inner)))
                },
            }
        },
        ExpressionView::Call(call) => {
            let (d1, r) = walk_call::<R>(d, call);
            match r {
                Err(e) => (d1, Err(e)),
                Ok(inner) => {
                    (d1, Ok(ExpressionView::Call(inner)))
                },
            }
        },
    };
    match new {
        Err(e) => (after, Err(e)),
        Ok(new) => {
            let (state, r) = R::reduce_expression_spec(
                after.reducer,
                expression,
                new,
                after.in_circuit,
            );
            (DirectorView { reducer: state, in_circuit: after.in_circuit }, r)
        },
    }
}

/// What the director gives for an identifier, and the state it is left in.
pub open spec fn walk_identifier<R: ReconstructingReducer>(
    d: DirectorView<R::V>,
    identifier: IdentifierView,
) -> (DirectorView<R::V>, Result<IdentifierView, CanonicalizeError>)
    decreases identifier,
{
    let (state, r) = R::reduce_identifier_spec(d.reducer, identifier);
    (DirectorView { reducer: state, in_circuit: d.in_circuit }, r)
}

/// What the director gives for a group tuple, and the state it is left in.
pub open spec fn walk_group_tuple<R: ReconstructingReducer>(
    d: DirectorView<R::V>,
    group_tuple: GroupTupleView,
) -> (DirectorView<R::V>, Result<GroupTupleView, CanonicalizeError>)
    decreases group_tuple,
{
    let (state, r) = R::reduce_group_tuple_spec(d.reducer, group_tuple);
    (DirectorView { reducer: state, in_circuit: d.in_circuit }, r)
}

/// What the director gives for a group value, and the state it is left in.
pub open spec fn walk_group_value<R: ReconstructingReducer>(
    d: DirectorView<R::V>,
    group_value: GroupValueView,
) -> (DirectorView<R::V>, Result<GroupValueView, CanonicalizeError>)
    decreases group_value,
{
    let (
        after,
        new,
    ): (DirectorView<R::V>, Result<GroupValueView, CanonicalizeError>) = match group_value {
        GroupValueView::Tuple(group_tuple) => {
            let (d1, r) = walk_group_tuple::<R>(d, group_tuple);
            match r {
                Err(e) => (d1, Err(e)),
                Ok(tuple) => {
                    (d1, Ok(GroupValueView::Tuple(tuple)))
                },
            }
        },
        _ => (d, Ok(group_value)),
    };
    match new {
        Err(e) => (after, Err(e)),
        Ok(new) => {
            let (state, r) = R::reduce_group_value_spec(after.reducer, group_value, new);
            (DirectorView { reducer: state, in_circuit: after.in_circuit }, r)
        },
    }
}

/// What the director gives for a literal value, and the state it is left in.
pub open spec fn walk_value<R: ReconstructingReducer>(
    d: DirectorView<R::V>,
    value: ValueExpressionView,
) -> (DirectorView<R::V>, Result<ValueExpressionView, CanonicalizeError>)
    decreases value,
{
    let (
        after,
        new,
    ): (DirectorView<R::V>, Result<ValueExpressionView, CanonicalizeError>) = match value {
        ValueExpressionView::Group(group_value) => {
            let (d1, r) = walk_group_value::<R>(d, *group_value);
            match r {
                Err(e) => (d1, Err(e)),
                Ok(group) => {
                    (d1, Ok(ValueExpressionView::Group(Box::new(group))))
                },
            }
        },
        _ => (d, Ok(value)),
    };
    match new {
        Err(e) => (after, Err(e)),
        Ok(new) => {
            let (state, r) = R::reduce_value_spec(after.reducer, value, new);
            (DirectorView { reducer: state, in_circuit: after.in_circuit }, r)
        },
    }
}

/// What the director gives for a binary expression, and the state it is left in.
pub open spec fn walk_binary<R: ReconstructingReducer>(
    d: DirectorView<R::V>,
    binary: BinaryExpressionView,
) -> (DirectorView<R::V>, Result<BinaryExpressionView, CanonicalizeError>)
    decreases binary,
{
    let (d1, r) = walk_expression::<R>(d, *binary.left);
    match r {
        Err(e) => (d1, Err(e)),
        Ok(left) => {
            let (d2, r) = walk_expression::<R>(d1, *binary.right);
            match r {
                Err(e) => (d2, Err(e)),
                Ok(right) => {
                    let (state, r) = R::reduce_binary_spec(
                        d2.reducer,
                        binary,
                        left,
                        right,
                        binary.op,
                        d2.in_circuit,
                    );
                    (DirectorView { reducer: state, in_circuit: d2.in_circuit }, r)
                },
            }
        },
    }
}

/// What the director gives for a unary expression, and the state it is left in.
pub open spec fn walk_unary<R: ReconstructingReducer>(
    d: DirectorView<R::V>,
    unary: UnaryExpressionView,
) -> (DirectorView<R::V>, Result<UnaryExpressionView, CanonicalizeError>)
    decreases unary,
{
    let (d1, r) = walk_expression::<R>(d, *unary.inner);
    match r {
        Err(e) => (d1, Err(e)),
        Ok(inner) => {
            let (state, r) = R::reduce_unary_spec(
                d1.reducer,
                unary,
                inner,
                unary.op,
                d1.in_circuit,
            );
            (DirectorView { reducer: state, in_circuit: d1.in_circuit }, r)
        },
    }
}

/// What the director gives for a ternary expression, and the state it is left in.
pub open spec fn walk_ternary<R: ReconstructingReducer>(
    d: DirectorView<R::V>,
    ternary: TernaryExpressionView,
) -> (DirectorView<R::V>, Result<TernaryExpressionView, CanonicalizeError>)
    decreases ternary,
{
    let (d1, r) = walk_expression::<R>(d, *ternary.condition);
    match r {
        Err(e) => (d1, Err(e)),
        Ok(condition) => {
            let (d2, r) = walk_expression::<R>(d1, *ternary.if_true);
            match r {
                Err(e) => (d2, Err(e)),
                Ok(if_true) => {
                    let (d3, r) = walk_expression::<R>(d2, *ternary.if_false);
                    match r {
                        Err(e) => (d3, Err(e)),
                        Ok(if_false) => {
                            let (state, r) = R::reduce_ternary_spec(
                                d3.reducer,
                                ternary,
                                condition,
                                if_true,
                                if_false,
                                d3.in_circuit,
                            );
                            (DirectorView { reducer: state, in_circuit: d3.in_circuit }, r)
                        },
                    }
                },
            }
        },
    }
}

/// What the director gives for a cast, and the state it is left in.
pub open spec fn walk_cast<R: ReconstructingReducer>(
    d: DirectorView<R::V>,
    cast: CastExpressionView,
) -> (DirectorView<R::V>, Result<CastExpressionView, CanonicalizeError>)
    decreases cast,
{
    let (d1, r) = walk_expression::<R>(d, *cast.inner);
    match r {
        Err(e) => (d1, Err(e)),
        Ok(inner) => {
            let (d2, r) = walk_type::<R>(d1, cast.target_type, cast.span);
            match r {
                Err(e) => (d2, Err(e)),
                Ok(target_type) => {
                    let (state, r) = R::reduce_cast_spec(
                        d2.reducer,
                        cast,
                        inner,
                        target_type,
                        d2.in_circuit,
                    );
                    (DirectorView { reducer: state, in_circuit: d2.in_circuit }, r)
                },
            }
        },
    }
}

/// What the director gives for an element of an inline array, and the state it is left in.
pub open spec fn walk_spread_or_expression<R: ReconstructingReducer>(
    d: DirectorView<R::V>,
    element: SpreadOrExpressionView,
) -> (DirectorView<R::V>, Result<SpreadOrExpressionView, CanonicalizeError>)
    decreases element,
{
    let (
        after,
        new,
    ): (DirectorView<R::V>, Result<SpreadOrExpressionView, CanonicalizeError>) = match element {
        SpreadOrExpressionView::Spread(expression) => {
            let (d1, r) = walk_expression::<R>(d, expression);
            match r {
                Err(e) => (d1, Err(e)),
                Ok(inner) => {
                    (d1, Ok(SpreadOrExpressionView::Spread(inner)))
                },
            }
        },
        SpreadOrExpressionView::Expression(expression) => {
            let (d1, r) = walk_expression::<R>(d, expression);
            match r {
                Err(e) => (d1, Err(e)),
                Ok(inner) => {
                    (d1, Ok(SpreadOrExpressionView::Expression(inner)))
                },
            }
        },
    };
    match new {
        Err(e) => (after, Err(e)),
        Ok(new) => {
            (after, Ok(new))
        },
    }
}

/// What the director gives for an inline array, and the state it is left in.
pub open spec fn walk_array_inline<R: ReconstructingReducer>(
    d: DirectorView<R::V>,
    array_inline: ArrayInlineExpressionView,
) -> (DirectorView<R::V>, Result<ArrayInlineExpressionView, CanonicalizeError>)
    decreases array_inline,
{
    let (d1, r) = walk_spread_or_expressions::<R>(d, array_inline.elements);
    match r {
        Err(e) => (d1, Err(e)),
        Ok(elements) => {
            let (state, r) = R::reduce_array_inline_spec(
                d1.reducer,
                array_inline,
                elements,
                d1.in_circuit,
            );
            (DirectorView { reducer: state, in_circuit: d1.in_circuit }, r)
        },
    }
}

/// What the director gives for an array initialiser, and the state it is left in.
pub open spec fn walk_array_init<R: ReconstructingReducer>(
    d: DirectorView<R::V>,
    array_init: ArrayInitExpressionView,
) -> (DirectorView<R::V>, Result<ArrayInitExpressionView, CanonicalizeError>)
    decreases array_init,
{
    let (d1, r) = walk_expression::<R>(d, *array_init.element);
    match r {
        Err(e) => (d1, Err(e)),
        Ok(element) => {
            let (state, r) = R::reduce_array_init_spec(
                d1.reducer,
                array_init,
                element,
                d1.in_circuit,
            );
            (DirectorView { reducer: state, in_circuit: d1.in_circuit }, r)
        },
    }
}

/// What the director gives for an array access, and the state it is left in.
pub open spec fn walk_array_access<R: ReconstructingReducer>(
    d: DirectorView<R::V>,
    array_access: ArrayAccessExpressionView,
) -> (DirectorView<R::V>, Result<ArrayAccessExpressionView, CanonicalizeError>)
    decreases array_access,
{
    let (d1, r) = walk_expression::<R>(d, *array_access.array);
    match r {
        Err(e) => (d1, Err(e)),
        Ok(array) => {
            let (d2, r) = walk_expression::<R>(d1, *array_access.index);
            match r {
                Err(e) => (d2, Err(e)),
                Ok(index) => {
                    let (state, r) = R::reduce_array_access_spec(
                        d2.reducer,
                        array_access,
                        array,
                        index,
                        d2.in_circuit,
                    );
                    (DirectorView { reducer: state, in_circuit: d2.in_circuit }, r)
                },
            }
        },
    }
}

/// What the director gives for an array range access, and the state it is left in.
pub open spec fn walk_array_range_access<R: ReconstructingReducer>(
    d: DirectorView<R::V>,
    array_range_access: ArrayRangeAccessExpressionView,
) -> (DirectorView<R::V>, Result<ArrayRangeAccessExpressionView, CanonicalizeError>)
    decreases array_range_access,
{
    let (d1, r) = walk_expression::<R>(d, *array_range_access.array);
    match r {
        Err(e) => (d1, Err(e)),
        Ok(array) => {
            let (
                d2,
                r,
            ): (DirectorView<R::V>, Result<Option<ExpressionView>, CanonicalizeError>) = match array_range_access.left {
                Some(v) => {
                    let (next, r) = walk_expression::<R>(d1, *v);
                    (
                        next,
                        match r {
                            Ok(node) => Ok(Some(node)),
                            Err(e) => Err(e),
                        },
                    )
                },
                None => (d1, Ok(None)),
            };
            match r {
                Err(e) => (d2, Err(e)),
                Ok(left) => {
                    let (
                        d3,
                        r,
                    ): (DirectorView<R::V>, Result<Option<ExpressionView>, CanonicalizeError>) = match array_range_access.right {
                        Some(v) => {
                            let (next, r) = walk_expression::<R>(d2, *v);
                            (
                                next,
                                match r {
                                    Ok(node) => Ok(Some(node)),
                                    Err(e) => Err(e),
                                },
                            )
                        },
                        None => (d2, Ok(None)),
                    };
                    match r {
                        Err(e) => (d3, Err(e)),
                        Ok(right) => {
                            let (state, r) = R::reduce_array_range_access_spec(
                                d3.reducer,
                                array_range_access,
                                array,
                                left,
                                right,
                                d3.in_circuit,
                            );
                            (DirectorView { reducer: state, in_circuit: d3.in_circuit }, r)
                        },
                    }
                },
            }
        },
    }
}

/// What the director gives for a tuple initialiser, and the state it is left in.
pub open spec fn walk_tuple_init<R: ReconstructingReducer>(
    d: DirectorView<R::V>,
    tuple_init: TupleInitExpressionView,
) -> (DirectorView<R::V>, Result<TupleInitExpressionView, CanonicalizeError>)
    decreases tuple_init,
{
    let (d1, r) = walk_expressions::<R>(d, tuple_init.elements);
    match r {
        Err(e) => (d1, Err(e)),
        Ok(elements) => {
            let (state, r) = R::reduce_tuple_init_spec(
                d1.reducer,
                tuple_init,
                elements,
                d1.in_circuit,
            );
            (DirectorView { reducer: state, in_circuit: d1.in_circuit }, r)
        },
    }
}

/// What the director gives for a tuple access, and the state it is left in.
pub open spec fn walk_tuple_access<R: ReconstructingReducer>(
    d: DirectorView<R::V>,
    tuple_access: TupleAccessExpressionView,
) -> (DirectorView<R::V>, Result<TupleAccessExpressionView, CanonicalizeError>)
    decreases tuple_access,
{
    let (d1, r) = walk_expression::<R>(d, *tuple_access.tuple);
    match r {
        Err(e) => (d1, Err(e)),
        Ok(tuple) => {
            let (state, r) = R::reduce_tuple_access_spec(
                d1.reducer,
                tuple_access,
                tuple,
                d1.in_circuit,
            );
            (DirectorView { reducer: state, in_circuit: d1.in_circuit }, r)
        },
    }
}

/// What the director gives for a member of a circuit initialiser, and the state it is left in.
pub open spec fn walk_circuit_implied_variable_definition<R: ReconstructingReducer>(
    d: DirectorView<R::V>,
    variable: CircuitImpliedVariableDefinitionView,
) -> (DirectorView<R::V>, Result<CircuitImpliedVariableDefinitionView, CanonicalizeError>)
    decreases variable,
{
    let (d1, r) = walk_identifier::<R>(d, variable.identifier);
    match r {
        Err(e) => (d1, Err(e)),
        Ok(identifier) => {
            let (
                d2,
                r,
            ): (DirectorView<R::V>, Result<Option<ExpressionView>, CanonicalizeError>) = match variable.expression {
                Some(v) => {
                    let (next, r) = walk_expression::<R>(d1, v);
                    (
                        next,
                        match r {
                            Ok(node) => Ok(Some(node)),
                            Err(e) => Err(e),
                        },
                    )
                },
                None => (d1, Ok(None)),
            };
            match r {
                Err(e) => (d2, Err(e)),
                Ok(expression) => {
                    let (state, r) = R::reduce_circuit_implied_variable_definition_spec(
                        d2.reducer,
                        variable,
                        identifier,
                        expression,
                        d2.in_circuit,
                    );
                    (DirectorView { reducer: state, in_circuit: d2.in_circuit }, r)
                },
            }
        },
    }
}

/// What the director gives for a circuit initialiser, and the state it is left in.
pub open spec fn walk_circuit_init<R: ReconstructingReducer>(
    d: DirectorView<R::V>,
    circuit_init: CircuitInitExpressionView,
) -> (DirectorView<R::V>, Result<CircuitInitExpressionView, CanonicalizeError>)
    decreases circuit_init,
{
    let (d1, r) = walk_identifier::<R>(d, circuit_init.name);
    match r {
        Err(e) => (d1, Err(e)),
        Ok(name) => {
            let (d2, r) = walk_circuit_implied_variable_definitions::<R>(d1, circuit_init.members);
            match r {
                Err(e) => (d2, Err(e)),
                Ok(members) => {
                    let (state, r) = R::reduce_circuit_init_spec(
                        d2.reducer,
                        circuit_init,
                        name,
                        members,
                        d2.in_circuit,
                    );
                    (DirectorView { reducer: state, in_circuit: d2.in_circuit }, r)
                },
            }
        },
    }
}

/// What the director gives for a circuit member access, and the state it is left in.
pub open spec fn walk_circuit_member_access<R: ReconstructingReducer>(
    d: DirectorView<R::V>,
    circuit_member_access: CircuitMemberAccessExpressionView,
) -> (DirectorView<R::V>, Result<CircuitMemberAccessExpressionView, CanonicalizeError>)
    decreases circuit_member_access,
{
    let (d1, r) = walk_expression::<R>(d, *circuit_member_access.circuit);
    match r {
        Err(e) => (d1, Err(e)),
        Ok(circuit) => {
            let (d2, r) = walk_identifier::<R>(d1, circuit_member_access.name);
            match r {
                Err(e) => (d2, Err(e)),
                Ok(name) => {
                    let (state, r) = R::reduce_circuit_member_access_spec(
                        d2.reducer,
                        circuit_member_access,
                        circuit,
                        name,
                        d2.in_circuit,
                    );
                    (DirectorView { reducer: state, in_circuit: d2.in_circuit }, r)
                },
            }
        },
    }
}

/// What the director gives for a static function access, and the state it is left in.
pub open spec fn walk_circuit_static_fn_access<R: ReconstructingReducer>(
    d: DirectorView<R::V>,
    circuit_static_fn_access: CircuitStaticFunctionAccessExpressionView,
) -> (DirectorView<R::V>, Result<CircuitStaticFunctionAccessExpressionView, CanonicalizeError>)
    decreases circuit_static_fn_access,
{
    let (d1, r) = walk_expression::<R>(d, *circuit_static_fn_access.circuit);
    match r {
        Err(e) => (d1, Err(e)),
        Ok(circuit) => {
            let (d2, r) = walk_identifier::<R>(d1, circuit_static_fn_access.name);
            match r {
                Err(e) => (d2, Err(e)),
                Ok(name) => {
                    let (state, r) = R::reduce_circuit_static_fn_access_spec(
                        d2.reducer,
                        circuit_static_fn_access,
                        circuit,
                        name,
                        d2.in_circuit,
                    );
                    (DirectorView { reducer: state, in_circuit: d2.in_circuit }, r)
                },
            }
        },
    }
}

/// What the director gives for a call, and the state it is left in.
pub open spec fn walk_call<R: ReconstructingReducer>(
    d: DirectorView<R::V>,
    call: CallExpressionView,
) -> (DirectorView<R::V>, Result<CallExpressionView, CanonicalizeError>)
    decreases call,
{
    let (d1, r) = walk_expression::<R>(d, *call.function);
    match r {
        Err(e) => (d1, Err(e)),
        Ok(function) => {
            let (d2, r) = walk_expressions::<R>(d1, call.arguments);
            match r {
                Err(e) => (d2, Err(e)),
                Ok(arguments) => {
                    let (state, r) = R::reduce_call_spec(
                        d2.reducer,
                        call,
                        function,
                        arguments,
                        d2.in_circuit,
                    );
                    (DirectorView { reducer: state, in_circuit: d2.in_circuit }, r)
                },
            }
        },
    }
}

/// What the director gives for a statement, and the state it is left in.
pub open spec fn walk_statement<R: ReconstructingReducer>(
    d: DirectorView<R::V>,
    statement: StatementView,
) -> (DirectorView<R::V>, Result<StatementView, CanonicalizeError>)
    decreases statement,
{
    let (
        after,
        new,
    ): (DirectorView<R::V>, Result<StatementView, CanonicalizeError>) = match statement {
        StatementView::Return(return_statement) => {
            let (d1, r) = walk_return::<R>(d, return_statement);
            match r {
                Err(e) => (d1, Err(e)),
                Ok(inner) => {
                    (d1, Ok(StatementView::Return(inner)))
                },
            }
        },
        StatementView::Definition(definition) => {
            let (d1, r) = walk_definition::<R>(d, definition);
            match r {
                Err(e) => (d1, Err(e)),
                Ok(inner) => {
                    (d1, Ok(StatementView::Definition(inner)))
                },
            }
        },
        StatementView::Assign(assign) => {
            let (d1, r) = walk_assign::<R>(d, assign);
            match r {
                Err(e) => (d1, Err(e)),
                Ok(inner) => {
                    (d1, Ok(StatementView::Assign(inner)))
                },
            }
        },
        StatementView::Conditional(conditional) => {
            let (d1, r) = walk_conditional::<R>(d, conditional);
            match r {
                Err(e) => (d1, Err(e)),
                Ok(inner) => {
                    (d1, Ok(StatementView::Conditional(inner)))
                },
            }
        },
        StatementView::Iteration(iteration) => {
            let (d1, r) = walk_iteration::<R>(d, iteration);
            match r {
                Err(e) => (d1, Err(e)),
                Ok(inner) => {
                    (d1, Ok(StatementView::Iteration(inner)))
                },
            }
        },
        StatementView::Console(console) => {
            let (d1, r) = walk_console::<R>(d, console);
            match r {
                Err(e) => (d1, Err(e)),
                Ok(inner) => {
                    (d1, Ok(StatementView::Console(inner)))
                },
            }
        },
        StatementView::Expression(expression_statement) => {
            let (d1, r) = walk_expression_statement::<R>(d, expression_statement);
            match r {
                Err(e) => (d1, Err(e)),
                Ok(inner) => {
                    (d1, Ok(StatementView::Expression(inner)))
                },
            }
        },
        StatementView::Block(block) => {
            let (d1, r) = walk_block::<R>(d, block);
            match r {
                Err(e) => (d1, Err(e)),
                Ok(inner) => {
                    (d1, Ok(StatementView::Block(inner)))
                },
            }
        },
    };
    match new {
        Err(e) => (after, Err(e)),
        Ok(new) => {
            let (state, r) = R::reduce_statement_spec(
                after.reducer,
                statement,
                new,
                after.in_circuit,
            );
            (DirectorView { reducer: state, in_circuit: after.in_circuit }, r)
        },
    }
}

/// What the director gives for a return, and the state it is left in.
pub open spec fn walk_return<R: ReconstructingReducer>(
    d: DirectorView<R::V>,
    return_statement: ReturnStatementView,
) -> (DirectorView<R::V>, Result<ReturnStatementView, CanonicalizeError>)
    decreases return_statement,
{
    let (d1, r) = walk_expression::<R>(d, return_statement.expression);
    match r {
        Err(e) => (d1, Err(e)),
        Ok(expression) => {
            let (state, r) = R::reduce_return_spec(
                d1.reducer,
                return_statement,
                expression,
                d1.in_circuit,
            );
            (DirectorView { reducer: state, in_circuit: d1.in_circuit }, r)
        },
    }
}

/// What the director gives for a variable name, and the state it is left in.
pub open spec fn walk_variable_name<R: ReconstructingReducer>(
    d: DirectorView<R::V>,
    variable_name: VariableNameView,
) -> (DirectorView<R::V>, Result<VariableNameView, CanonicalizeError>)
    decreases variable_name,
{
    let (d1, r) = walk_identifier::<R>(d, variable_name.identifier);
    match r {
        Err(e) => (d1, Err(e)),
        Ok(identifier) => {
            let (state, r) = R::reduce_variable_name_spec(d1.reducer, variable_name, identifier);
            (DirectorView { reducer: state, in_circuit: d1.in_circuit }, r)
        },
    }
}

/// What the director gives for a definition, and the state it is left in.
pub open spec fn walk_definition<R: ReconstructingReducer>(
    d: DirectorView<R::V>,
    definition: DefinitionStatementView,
) -> (DirectorView<R::V>, Result<DefinitionStatementView, CanonicalizeError>)
    decreases definition,
{
    let (d1, r) = walk_variable_names::<R>(d, definition.variable_names);
    match r {
        Err(e) => (d1, Err(e)),
        Ok(variable_names) => {
            let (
                d2,
                r,
            ): (DirectorView<R::V>, Result<Option<TypeView>, CanonicalizeError>) = match definition.type_ {
                Some(v) => {
                    let (next, r) = walk_type::<R>(d1, v, definition.span);
                    (
                        next,
                        match r {
                            Ok(node) => Ok(Some(node)),
                            Err(e) => Err(e),
                        },
                    )
                },
                None => (d1, Ok(None)),
            };
            match r {
                Err(e) => (d2, Err(e)),
                Ok(type_) => {
                    let (d3, r) = walk_expression::<R>(d2, definition.value);
                    match r {
                        Err(e) => (d3, Err(e)),
                        Ok(value) => {
                            let (state, r) = R::reduce_definition_spec(
                                d3.reducer,
                                definition,
                                variable_names,
                                type_,
                                value,
                                d3.in_circuit,
                            );
                            (DirectorView { reducer: state, in_circuit: d3.in_circuit }, r)
                        },
                    }
                },
            }
        },
    }
}

/// What the director gives for an assignee access, and the state it is left in.
pub open spec fn walk_assignee_access<R: ReconstructingReducer>(
    d: DirectorView<R::V>,
    access: AssigneeAccessView,
) -> (DirectorView<R::V>, Result<AssigneeAccessView, CanonicalizeError>)
    decreases access,
{
    let (
        after,
        new,
    ): (DirectorView<R::V>, Result<AssigneeAccessView, CanonicalizeError>) = match access {
        AssigneeAccessView::ArrayRange(start, stop) => {
            let (
                d1,
                r,
            ): (DirectorView<R::V>, Result<Option<ExpressionView>, CanonicalizeError>) = match start {
                Some(v) => {
                    let (next, r) = walk_expression::<R>(d, v);
                    (
                        next,
                        match r {
                            Ok(node) => Ok(Some(node)),
                            Err(e) => Err(e),
                        },
                    )
                },
                None => (d, Ok(None)),
            };
            match r {
                Err(e) => (d1, Err(e)),
                Ok(left) => {
                    let (
                        d2,
                        r,
                    ): (DirectorView<R::V>, Result<Option<ExpressionView>, CanonicalizeError>) = match stop {
                        Some(v) => {
                            let (next, r) = walk_expression::<R>(d1, v);
                            (
                                next,
                                match r {
                                    Ok(node) => Ok(Some(node)),
                                    Err(e) => Err(e),
                                },
                            )
                        },
                        None => (d1, Ok(None)),
                    };
                    match r {
                        Err(e) => (d2, Err(e)),
                        Ok(right) => {
                            (d2, Ok(AssigneeAccessView::ArrayRange(left, right)))
                        },
                    }
                },
            }
        },
        AssigneeAccessView::ArrayIndex(expression) => {
            let (d1, r) = walk_expression::<R>(d, expression);
            match r {
                Err(e) => (d1, Err(e)),
                Ok(index) => {
                    (d1, Ok(AssigneeAccessView::ArrayIndex(index)))
                },
            }
        },
        AssigneeAccessView::Member(name) => {
            let (d1, r) = walk_identifier::<R>(d, name);
            match r {
                Err(e) => (d1, Err(e)),
                Ok(identifier) => {
                    (d1, Ok(AssigneeAccessView::Member(identifier)))
                },
            }
        },
        _ => (d, Ok(access)),
    };
    match new {
        Err(e) => (after, Err(e)),
        Ok(new) => {
            let (state, r) = R::reduce_assignee_access_spec(
                after.reducer,
                access,
                new,
                after.in_circuit,
            );
            (DirectorView { reducer: state, in_circuit: after.in_circuit }, r)
        },
    }
}

/// What the director gives for an assignee, and the state it is left in.
pub open spec fn walk_assignee<R: ReconstructingReducer>(
    d: DirectorView<R::V>,
    assignee: AssigneeView,
) -> (DirectorView<R::V>, Result<AssigneeView, CanonicalizeError>)
    decreases assignee,
{
    let (d1, r) = walk_identifier::<R>(d, assignee.identifier);
    match r {
        Err(e) => (d1, Err(e)),
        Ok(identifier) => {
            let (d2, r) = walk_assignee_accesses::<R>(d1, assignee.accesses);
            match r {
                Err(e) => (d2, Err(e)),
                Ok(accesses) => {
                    let (state, r) = R::reduce_assignee_spec(
                        d2.reducer,
                        assignee,
                        identifier,
                        accesses,
                        d2.in_circuit,
                    );
                    (DirectorView { reducer: state, in_circuit: d2.in_circuit }, r)
                },
            }
        },
    }
}

/// What the director gives for an assignment, and the state it is left in.
pub open spec fn walk_assign<R: ReconstructingReducer>(
    d: DirectorView<R::V>,
    assign: AssignStatementView,
) -> (DirectorView<R::V>, Result<AssignStatementView, CanonicalizeError>)
    decreases assign,
{
    let (d1, r) = walk_assignee::<R>(d, assign.assignee);
    match r {
        Err(e) => (d1, Err(e)),
        Ok(assignee) => {
            let (d2, r) = walk_expression::<R>(d1, assign.value);
            match r {
                Err(e) => (d2, Err(e)),
                Ok(value) => {
                    let (state, r) = R::reduce_assign_spec(
                        d2.reducer,
                        assign,
                        assignee,
                        value,
                        d2.in_circuit,
                    );
                    (DirectorView { reducer: state, in_circuit: d2.in_circuit }, r)
                },
            }
        },
    }
}

/// What the director gives for a conditional, and the state it is left in.
pub open spec fn walk_conditional<R: ReconstructingReducer>(
    d: DirectorView<R::V>,
    conditional: ConditionalStatementView,
) -> (DirectorView<R::V>, Result<ConditionalStatementView, CanonicalizeError>)
    decreases conditional,
{
    let (d1, r) = walk_expression::<R>(d, conditional.condition);
    match r {
        Err(e) => (d1, Err(e)),
        Ok(condition) => {
            let (d2, r) = walk_block::<R>(d1, conditional.block);
            match r {
                Err(e) => (d2, Err(e)),
                Ok(block) => {
                    let (
                        d3,
                        r,
                    ): (DirectorView<R::V>, Result<Option<StatementView>, CanonicalizeError>) = match conditional.next {
                        Some(v) => {
                            let (next, r) = walk_statement::<R>(d2, *v);
                            (
                                next,
                                match r {
                                    Ok(node) => Ok(Some(node)),
                                    Err(e) => Err(e),
                                },
                            )
                        },
                        None => (d2, Ok(None)),
                    };
                    match r {
                        Err(e) => (d3, Err(e)),
                        Ok(next) => {
                            let (state, r) = R::reduce_conditional_spec(
                                d3.reducer,
                                conditional,
                                condition,
                                block,
                                next,
                                d3.in_circuit,
                            );
                            (DirectorView { reducer: state, in_circuit: d3.in_circuit }, r)
                        },
                    }
                },
            }
        },
    }
}

/// What the director gives for a loop, and the state it is left in.
pub open spec fn walk_iteration<R: ReconstructingReducer>(
    d: DirectorView<R::V>,
    iteration: IterationStatementView,
) -> (DirectorView<R::V>, Result<IterationStatementView, CanonicalizeError>)
    decreases iteration,
{
    let (d1, r) = walk_identifier::<R>(d, iteration.variable);
    match r {
        Err(e) => (d1, Err(e)),
        Ok(variable) => {
            let (d2, r) = walk_expression::<R>(d1, iteration.start);
            match r {
                Err(e) => (d2, Err(e)),
                Ok(start) => {
                    let (d3, r) = walk_expression::<R>(d2, iteration.stop);
                    match r {
                        Err(e) => (d3, Err(e)),
                        Ok(stop) => {
                            let (d4, r) = walk_block::<R>(d3, iteration.block);
                            match r {
                                Err(e) => (d4, Err(e)),
                                Ok(block) => {
                                    let (state, r) = R::reduce_iteration_spec(
                                        d4.reducer,
                                        iteration,
                                        variable,
                                        start,
                                        stop,
                                        block,
                                        d4.in_circuit,
                                    );
                                    (DirectorView { reducer: state, in_circuit: d4.in_circuit }, r)
                                },
                            }
                        },
                    }
                },
            }
        },
    }
}

/// What the director gives for a console statement, and the state it is left in.
pub open spec fn walk_console<R: ReconstructingReducer>(
    d: DirectorView<R::V>,
    console_function_call: ConsoleStatementView,
) -> (DirectorView<R::V>, Result<ConsoleStatementView, CanonicalizeError>)
    decreases console_function_call,
{
    let (
        after,
        new,
    ): (DirectorView<R::V>, Result<ConsoleFunctionView, CanonicalizeError>) = match console_function_call.function {
        ConsoleFunctionView::Assert(expression) => {
            let (d1, r) = walk_expression::<R>(d, expression);
            match r {
                Err(e) => (d1, Err(e)),
                Ok(inner) => {
                    (d1, Ok(ConsoleFunctionView::Assert(inner)))
                },
            }
        },
        ConsoleFunctionView::Debug(format) => {
            let (d1, r) = walk_expressions::<R>(d, format.parameters);
            match r {
                Err(e) => (d1, Err(e)),
                Ok(parameters) => {
                    (d1, Ok(ConsoleFunctionView::Debug(FormatStringView { parts: format.parts, parameters, span: format.span })))
                },
            }
        },
        ConsoleFunctionView::Error(format) => {
            let (d1, r) = walk_expressions::<R>(d, format.parameters);
            match r {
                Err(e) => (d1, Err(e)),
                Ok(parameters) => {
                    (d1, Ok(ConsoleFunctionView::Error(FormatStringView { parts: format.parts, parameters, span: format.span })))
                },
            }
        },
        ConsoleFunctionView::Log(format) => {
            let (d1, r) = walk_expressions::<R>(d, format.parameters);
            match r {
                Err(e) => (d1, Err(e)),
                Ok(parameters) => {
                    (d1, Ok(ConsoleFunctionView::Log(FormatStringView { parts: format.parts, parameters, span: format.span })))
                },
            }
        },
    };
    match new {
        Err(e) => (after, Err(e)),
        Ok(new) => {
            let (state, r) = R::reduce_console_spec(
                after.reducer,
                console_function_call,
                new,
                after.in_circuit,
            );
            (DirectorView { reducer: state, in_circuit: after.in_circuit }, r)
        },
    }
}

/// What the director gives for an expression statement, and the state it is left in.
pub open spec fn walk_expression_statement<R: ReconstructingReducer>(
    d: DirectorView<R::V>,
    expression_statement: ExpressionStatementView,
) -> (DirectorView<R::V>, Result<ExpressionStatementView, CanonicalizeError>)
    decreases expression_statement,
{
    let (d1, r) = walk_expression::<R>(d, expression_statement.expression);
    match r {
        Err(e) => (d1, Err(e)),
        Ok(expression) => {
            let (state, r) = R::reduce_expression_statement_spec(
                d1.reducer,
                expression_statement,
                expression,
                d1.in_circuit,
            );
            (DirectorView { reducer: state, in_circuit: d1.in_circuit }, r)
        },
    }
}

/// What the director gives for a block, and the state it is left in.
pub open spec fn walk_block<R: ReconstructingReducer>(
    d: DirectorView<R::V>,
    block: BlockView,
) -> (DirectorView<R::V>, Result<BlockView, CanonicalizeError>)
    decreases block,
{
    let (d1, r) = walk_statements::<R>(d, block.statements);
    match r {
        Err(e) => (d1, Err(e)),
        Ok(statements) => {
            let (state, r) = R::reduce_block_spec(d1.reducer, block, statements, d1.in_circuit);
            (DirectorView { reducer: state, in_circuit: d1.in_circuit }, r)
        },
    }
}

/// What the director gives for an input variable of a function, and the state it is left in.
pub open spec fn walk_function_input_variable<R: ReconstructingReducer>(
    d: DirectorView<R::V>,
    variable: FunctionInputVariableView,
) -> (DirectorView<R::V>, Result<FunctionInputVariableView, CanonicalizeError>)
    decreases variable,
{
    let (d1, r) = walk_identifier::<R>(d, variable.identifier);
    match r {
        Err(e) => (d1, Err(e)),
        Ok(identifier) => {
            let (d2, r) = walk_type::<R>(d1, variable.type_, variable.span);
            match r {
                Err(e) => (d2, Err(e)),
                Ok(type_) => {
                    let (state, r) = R::reduce_function_input_variable_spec(
                        d2.reducer,
                        variable,
                        identifier,
                        type_,
                        d2.in_circuit,
                    );
                    (DirectorView { reducer: state, in_circuit: d2.in_circuit }, r)
                },
            }
        },
    }
}

/// What the director gives for an input of a function, and the state it is left in.
pub open spec fn walk_function_input<R: ReconstructingReducer>(
    d: DirectorView<R::V>,
    input: FunctionInputView,
) -> (DirectorView<R::V>, Result<FunctionInputView, CanonicalizeError>)
    decreases input,
{
    let (
        after,
        new,
    ): (DirectorView<R::V>, Result<FunctionInputView, CanonicalizeError>) = match input {
        FunctionInputView::Variable(input_variable) => {
            let (d1, r) = walk_function_input_variable::<R>(d, input_variable);
            match r {
                Err(e) => (d1, Err(e)),
                Ok(variable) => {
                    (d1, Ok(FunctionInputView::Variable(variable)))
                },
            }
        },
        _ => (d, Ok(input)),
    };
    match new {
        Err(e) => (after, Err(e)),
        Ok(new) => {
            let (state, r) = R::reduce_function_input_spec(
                after.reducer,
                input,
                new,
                after.in_circuit,
            );
            (DirectorView { reducer: state, in_circuit: after.in_circuit }, r)
        },
    }
}

/// What the director gives for the package of an import, and the state it is left in.
pub open spec fn walk_package_or_packages<R: ReconstructingReducer>(
    d: DirectorView<R::V>,
    package_or_packages: PackageOrPackagesView,
) -> (DirectorView<R::V>, Result<PackageOrPackagesView, CanonicalizeError>)
    decreases package_or_packages,
{
    let (
        after,
        new,
    ): (DirectorView<R::V>, Result<PackageOrPackagesView, CanonicalizeError>) = match package_or_packages {
        PackageOrPackagesView::Package(package) => {
            let (d1, r) = walk_identifier::<R>(d, package.name);
            match r {
                Err(e) => (d1, Err(e)),
                Ok(name) => {
                    (d1, Ok(PackageOrPackagesView::Package(PackageView { name, access: package.access, span: package.span })))
                },
            }
        },
        PackageOrPackagesView::Packages(packages) => {
            let (d1, r) = walk_identifier::<R>(d, packages.name);
            match r {
                Err(e) => (d1, Err(e)),
                Ok(name) => {
                    (d1, Ok(PackageOrPackagesView::Packages(PackagesView { name, accesses: packages.accesses, span: packages.span })))
                },
            }
        },
    };
    match new {
        Err(e) => (after, Err(e)),
        Ok(new) => {
            let (state, r) = R::reduce_package_or_packages_spec(
                after.reducer,
                package_or_packages,
                new,
            );
            (DirectorView { reducer: state, in_circuit: after.in_circuit }, r)
        },
    }
}

/// What the director gives for an import, and the state it is left in.
pub open spec fn walk_import<R: ReconstructingReducer>(
    d: DirectorView<R::V>,
    import: ImportStatementView,
) -> (DirectorView<R::V>, Result<ImportStatementView, CanonicalizeError>)
    decreases import,
{
    let (d1, r) = walk_package_or_packages::<R>(d, import.package_or_packages);
    match r {
        Err(e) => (d1, Err(e)),
        Ok(package_or_packages) => {
            let (state, r) = R::reduce_import_spec(d1.reducer, import, package_or_packages);
            (DirectorView { reducer: state, in_circuit: d1.in_circuit }, r)
        },
    }
}

/// What the director gives for a member of a circuit, and the state it is left in.
pub open spec fn walk_circuit_member<R: ReconstructingReducer>(
    d: DirectorView<R::V>,
    circuit_member: CircuitMemberView,
) -> (DirectorView<R::V>, Result<CircuitMemberView, CanonicalizeError>)
    decreases circuit_member,
{
    let inner = DirectorView { reducer: d.reducer, in_circuit: !d.in_circuit };
    let (
        after,
        new,
    ): (DirectorView<R::V>, Result<CircuitMemberView, CanonicalizeError>) = match circuit_member {
        CircuitMemberView::CircuitVariable(name, variable_type) => {
            let (d1, r) = walk_identifier::<R>(inner, name);
            match r {
                Err(e) => (d1, Err(e)),
                Ok(identifier) => {
                    let (d2, r) = walk_type::<R>(d1, variable_type, name.span);
                    match r {
                        Err(e) => (d2, Err(e)),
                        Ok(type_) => {
                            (d2, Ok(CircuitMemberView::CircuitVariable(identifier, type_)))
                        },
                    }
                },
            }
        },
        CircuitMemberView::CircuitFunction(method) => {
            let (d1, r) = walk_function::<R>(inner, method);
            match r {
                Err(e) => (d1, Err(e)),
                Ok(function) => {
                    (d1, Ok(CircuitMemberView::CircuitFunction(function)))
                },
            }
        },
    };
    match new {
        Err(e) => (after, Err(e)),
        Ok(new) => {
            let outer = DirectorView { reducer: after.reducer, in_circuit: !after.in_circuit };
            let (state, r) = R::reduce_circuit_member_spec(outer.reducer, circuit_member, new);
            (DirectorView { reducer: state, in_circuit: outer.in_circuit }, r)
        },
    }
}

/// What the director gives for a circuit, and the state it is left in.
pub open spec fn walk_circuit<R: ReconstructingReducer>(
    d: DirectorView<R::V>,
    circuit: CircuitView,
) -> (DirectorView<R::V>, Result<CircuitView, CanonicalizeError>)
    decreases circuit,
{
    let (d1, r) = walk_identifier::<R>(d, circuit.circuit_name);
    match r {
        Err(e) => (d1, Err(e)),
        Ok(circuit_name) => {
            let (d2, r) = walk_circuit_members::<R>(d1, circuit.members);
            match r {
                Err(e) => (d2, Err(e)),
                Ok(members) => {
                    let (state, r) = R::reduce_circuit_spec(
                        d2.reducer,
                        circuit,
                        circuit_name,
                        members,
                    );
                    (DirectorView { reducer: state, in_circuit: d2.in_circuit }, r)
                },
            }
        },
    }
}

/// What the director gives for an annotation, and the state it is left in.
pub open spec fn walk_annotation<R: ReconstructingReducer>(
    d: DirectorView<R::V>,
    annotation: AnnotationView,
) -> (DirectorView<R::V>, Result<AnnotationView, CanonicalizeError>)
    decreases annotation,
{
    let (d1, r) = walk_identifier::<R>(d, annotation.name);
    match r {
        Err(e) => (d1, Err(e)),
        Ok(name) => {
            let (state, r) = R::reduce_annotation_spec(d1.reducer, annotation, name);
            (DirectorView { reducer: state, in_circuit: d1.in_circuit }, r)
        },
    }
}

/// What the director gives for a function, and the state it is left in.
pub open spec fn walk_function<R: ReconstructingReducer>(
    d: DirectorView<R::V>,
    function: FunctionView,
) -> (DirectorView<R::V>, Result<FunctionView, CanonicalizeError>)
    decreases function,
{
    let (d1, r) = walk_identifier::<R>(d, function.identifier);
    match r {
        Err(e) => (d1, Err(e)),
        Ok(identifier) => {
            let (d2, r) = walk_annotations::<R>(d1, function.annotations);
            match r {
                Err(e) => (d2, Err(e)),
                Ok(annotations) => {
                    let (d3, r) = walk_function_inputs::<R>(d2, function.input);
                    match r {
                        Err(e) => (d3, Err(e)),
                        Ok(input) => {
                            let (
                                d4,
                                r,
                            ): (DirectorView<R::V>, Result<Option<TypeView>, CanonicalizeError>) = match function.output {
                                Some(v) => {
                                    let (next, r) = walk_type::<R>(d3, v, function.span);
                                    (
                                        next,
                                        match r {
                                            Ok(node) => Ok(Some(node)),
                                            Err(e) => Err(e),
                                        },
                                    )
                                },
                                None => (d3, Ok(None)),
                            };
                            match r {
                                Err(e) => (d4, Err(e)),
                                Ok(output) => {
                                    let (d5, r) = walk_block::<R>(d4, function.block);
                                    match r {
                                        Err(e) => (d5, Err(e)),
                                        Ok(block) => {
                                            let (state, r) = R::reduce_function_spec(
                                                d5.reducer,
                                                function,
                                                identifier,
                                                annotations,
                                                input,
                                                output,
                                                block,
                                                d5.in_circuit,
                                            );
                                            (DirectorView { reducer: state, in_circuit: d5.in_circuit }, r)
                                        },
                                    }
                                },
                            }
                        },
                    }
                },
            }
        },
    }
}

/// What the director gives for a list: each item reduced in order, up to the
/// first failure.
pub open spec fn walk_types<R: ReconstructingReducer>(
    d: DirectorView<R::V>,
    items: Seq<TypeView>,
    span: Span,
) -> (DirectorView<R::V>, Result<Seq<TypeView>, CanonicalizeError>)
    decreases items,
{
    if items.len() == 0 {
        (d, Ok(Seq::empty()))
    } else {
        let (d1, r) = walk_types::<R>(d, items.drop_last(), span);
        match r {
            Err(e) => (d1, Err(e)),
            Ok(done) => {
                let (d2, r) = walk_type::<R>(d1, items.last(), span);
                match r {
                    Err(e) => (d2, Err(e)),
                    Ok(node) => (d2, Ok(done.push(node))),
                }
            },
        }
    }
}

/// A list whose prefix fails gives the failure of that prefix.
pub proof fn lemma_walk_types_fails<R: ReconstructingReducer>(
    d: DirectorView<R::V>,
    items: Seq<TypeView>,
    span: Span,
    i: int,
)
    requires
        0 <= i < items.len(),
        walk_types::<R>(d, items.take(i + 1), span).1 is Err,
    ensures
        walk_types::<R>(d, items, span) == walk_types::<R>(d, items.take(i + 1), span),
    decreases items.len(),
{
    if i + 1 == items.len() {
        assert(items.take(i + 1) =~= items);
    } else {
        assert(items.drop_last().take(i + 1) =~= items.take(i + 1));
        lemma_walk_types_fails::<R>(d, items.drop_last(), span, i);
    }
}

/// What the director gives for a list: each item reduced in order, up to the
/// first failure.
pub open spec fn walk_spread_or_expressions<R: ReconstructingReducer>(
    d: DirectorView<R::V>,
    items: Seq<SpreadOrExpressionView>,
) -> (DirectorView<R::V>, Result<Seq<SpreadOrExpressionView>, CanonicalizeError>)
    decreases items,
{
    if items.len() == 0 {
        (d, Ok(Seq::empty()))
    } else {
        let (d1, r) = walk_spread_or_expressions::<R>(d, items.drop_last());
        match r {
            Err(e) => (d1, Err(e)),
            Ok(done) => {
                let (d2, r) = walk_spread_or_expression::<R>(d1, items.last());
                match r {
                    Err(e) => (d2, Err(e)),
                    Ok(node) => (d2, Ok(done.push(node))),
                }
            },
        }
    }
}

/// A list whose prefix fails gives the failure of that prefix.
pub proof fn lemma_walk_spread_or_expressions_fails<R: ReconstructingReducer>(
    d: DirectorView<R::V>,
    items: Seq<SpreadOrExpressionView>,
    i: int,
)
    requires
        0 <= i < items.len(),
        walk_spread_or_expressions::<R>(d, items.take(i + 1)).1 is Err,
    ensures
        walk_spread_or_expressions::<R>(d, items) ==
            walk_spread_or_expressions::<R>(d, items.take(i + 1)),
    decreases items.len(),
{
    if i + 1 == items.len() {
        assert(items.take(i + 1) =~= items);
    } else {
        assert(items.drop_last().take(i + 1) =~= items.take(i + 1));
        lemma_walk_spread_or_expressions_fails::<R>(d, items.drop_last(), i);
    }
}

/// What the director gives for a list: each item reduced in order, up to the
/// first failure.
pub open spec fn walk_expressions<R: ReconstructingReducer>(
    d: DirectorView<R::V>,
    items: Seq<ExpressionView>,
) -> (DirectorView<R::V>, Result<Seq<ExpressionView>, CanonicalizeError>)
    decreases items,
{
    if items.len() == 0 {
        (d, Ok(Seq::empty()))
    } else {
        let (d1, r) = walk_expressions::<R>(d, items.drop_last());
        match r {
            Err(e) => (d1, Err(e)),
            Ok(done) => {
                let (d2, r) = walk_expression::<R>(d1, items.last());
                match r {
                    Err(e) => (d2, Err(e)),
                    Ok(node) => (d2, Ok(done.push(node))),
                }
            },
        }
    }
}

/// A list whose prefix fails gives the failure of that prefix.
pub proof fn lemma_walk_expressions_fails<R: ReconstructingReducer>(
    d: DirectorView<R::V>,
    items: Seq<ExpressionView>,
    i: int,
)
    requires
        0 <= i < items.len(),
        walk_expressions::<R>(d, items.take(i + 1)).1 is Err,
    ensures
        walk_expressions::<R>(d, items) == walk_expressions::<R>(d, items.take(i + 1)),
    decreases items.len(),
{
    if i + 1 == items.len() {
        assert(items.take(i + 1) =~= items);
    } else {
        assert(items.drop_last().take(i + 1) =~= items.take(i + 1));
        lemma_walk_expressions_fails::<R>(d, items.drop_last(), i);
    }
}

/// What the director gives for a list: each item reduced in order, up to the
/// first failure.
pub open spec fn walk_circuit_implied_variable_definitions<R: ReconstructingReducer>(
    d: DirectorView<R::V>,
    items: Seq<CircuitImpliedVariableDefinitionView>,
) -> (DirectorView<R::V>, Result<Seq<CircuitImpliedVariableDefinitionView>, CanonicalizeError>)
    decreases items,
{
    if items.len() == 0 {
        (d, Ok(Seq::empty()))
    } else {
        let (d1, r) = walk_circuit_implied_variable_definitions::<R>(d, items.drop_last());
        match r {
            Err(e) => (d1, Err(e)),
            Ok(done) => {
                let (d2, r) = walk_circuit_implied_variable_definition::<R>(d1, items.last());
                match r {
                    Err(e) => (d2, Err(e)),
                    Ok(node) => (d2, Ok(done.push(node))),
                }
            },
        }
    }
}

/// A list whose prefix fails gives the failure of that prefix.
pub proof fn lemma_walk_circuit_implied_variable_definitions_fails<R: ReconstructingReducer>(
    d: DirectorView<R::V>,
    items: Seq<CircuitImpliedVariableDefinitionView>,
    i: int,
)
    requires
        0 <= i < items.len(),
        walk_circuit_implied_variable_definitions::<R>(d, items.take(i + 1)).1 is Err,
    ensures
        walk_circuit_implied_variable_definitions::<R>(d, items) ==
            walk_circuit_implied_variable_definitions::<R>(d, items.take(i + 1)),
    decreases items.len(),
{
    if i + 1 == items.len() {
        assert(items.take(i + 1) =~= items);
    } else {
        assert(items.drop_last().take(i + 1) =~= items.take(i + 1));
        lemma_walk_circuit_implied_variable_definitions_fails::<R>(d, items.drop_last(), i);
    }
}

/// What the director gives for a list: each item reduced in order, up to the
/// first failure.
pub open spec fn walk_variable_names<R: ReconstructingReducer>(
    d: DirectorView<R::V>,
    items: Seq<VariableNameView>,
) -> (DirectorView<R::V>, Result<Seq<VariableNameView>, CanonicalizeError>)
    decreases items,
{
    if items.len() == 0 {
        (d, Ok(Seq::empty()))
    } else {
        let (d1, r) = walk_variable_names::<R>(d, items.drop_last());
        match r {
            Err(e) => (d1, Err(e)),
            Ok(done) => {
                let (d2, r) = walk_variable_name::<R>(d1, items.last());
                match r {
                    Err(e) => (d2, Err(e)),
                    Ok(node) => (d2, Ok(done.push(node))),
                }
            },
        }
    }
}

/// A list whose prefix fails gives the failure of that prefix.
pub proof fn lemma_walk_variable_names_fails<R: ReconstructingReducer>(
    d: DirectorView<R::V>,
    items: Seq<VariableNameView>,
    i: int,
)
    requires
        0 <= i < items.len(),
        walk_variable_names::<R>(d, items.take(i + 1)).1 is Err,
    ensures
        walk_variable_names::<R>(d, items) == walk_variable_names::<R>(d, items.take(i + 1)),
    decreases items.len(),
{
    if i + 1 == items.len() {
        assert(items.take(i + 1) =~= items);
    } else {
        assert(items.drop_last().take(i + 1) =~= items.take(i + 1));
        lemma_walk_variable_names_fails::<R>(d, items.drop_last(), i);
    }
}

/// What the director gives for a list: each item reduced in order, up to the
/// first failure.
pub open spec fn walk_assignee_accesses<R: ReconstructingReducer>(
    d: DirectorView<R::V>,
    items: Seq<AssigneeAccessView>,
) -> (DirectorView<R::V>, Result<Seq<AssigneeAccessView>, CanonicalizeError>)
    decreases items,
{
    if items.len() == 0 {
        (d, Ok(Seq::empty()))
    } else {
        let (d1, r) = walk_assignee_accesses::<R>(d, items.drop_last());
        match r {
            Err(e) => (d1, Err(e)),
            Ok(done) => {
                let (d2, r) = walk_assignee_access::<R>(d1, items.last());
                match r {
                    Err(e) => (d2, Err(e)),
                    Ok(node) => (d2, Ok(done.push(node))),
                }
            },
        }
    }
}

/// A list whose prefix fails gives the failure of that prefix.
pub proof fn lemma_walk_assignee_accesses_fails<R: ReconstructingReducer>(
    d: DirectorView<R::V>,
    items: Seq<AssigneeAccessView>,
    i: int,
)
    requires
        0 <= i < items.len(),
        walk_assignee_accesses::<R>(d, items.take(i + 1)).1 is Err,
    ensures
        walk_assignee_accesses::<R>(d, items) == walk_assignee_accesses::<R>(d, items.take(i + 1)),
    decreases items.len(),
{
    if i + 1 == items.len() {
        assert(items.take(i + 1) =~= items);
    } else {
        assert(items.drop_last().take(i + 1) =~= items.take(i + 1));
        lemma_walk_assignee_accesses_fails::<R>(d, items.drop_last(), i);
    }
}

/// What the director gives for a list: each item reduced in order, up to the
/// first failure.
pub open spec fn walk_statements<R: ReconstructingReducer>(
    d: DirectorView<R::V>,
    items: Seq<StatementView>,
) -> (DirectorView<R::V>, Result<Seq<StatementView>, CanonicalizeError>)
    decreases items,
{
    if items.len() == 0 {
        (d, Ok(Seq::empty()))
    } else {
        let (d1, r) = walk_statements::<R>(d, items.drop_last());
        match r {
            Err(e) => (d1, Err(e)),
            Ok(done) => {
                let (d2, r) = walk_statement::<R>(d1, items.last());
                match r {
                    Err(e) => (d2, Err(e)),
                    Ok(node) => (d2, Ok(done.push(node))),
                }
            },
        }
    }
}

/// A list whose prefix fails gives the failure of that prefix.
pub proof fn lemma_walk_statements_fails<R: ReconstructingReducer>(
    d: DirectorView<R::V>,
    items: Seq<StatementView>,
    i: int,
)
    requires
        0 <= i < items.len(),
        walk_statements::<R>(d, items.take(i + 1)).1 is Err,
    ensures
        walk_statements::<R>(d, items) == walk_statements::<R>(d, items.take(i + 1)),
    decreases items.len(),
{
    if i + 1 == items.len() {
        assert(items.take(i + 1) =~= items);
    } else {
        assert(items.drop_last().take(i + 1) =~= items.take(i + 1));
        lemma_walk_statements_fails::<R>(d, items.drop_last(), i);
    }
}

/// What the director gives for a list: each item reduced in order, up to the
/// first failure.
pub open spec fn walk_function_inputs<R: ReconstructingReducer>(
    d: DirectorView<R::V>,
    items: Seq<FunctionInputView>,
) -> (DirectorView<R::V>, Result<Seq<FunctionInputView>, CanonicalizeError>)
    decreases items,
{
    if items.len() == 0 {
        (d, Ok(Seq::empty()))
    } else {
        let (d1, r) = walk_function_inputs::<R>(d, items.drop_last());
        match r {
            Err(e) => (d1, Err(e)),
            Ok(done) => {
                let (d2, r) = walk_function_input::<R>(d1, items.last());
                match r {
                    Err(e) => (d2, Err(e)),
                    Ok(node) => (d2, Ok(done.push(node))),
                }
            },
        }
    }
}

/// A list whose prefix fails gives the failure of that prefix.
pub proof fn lemma_walk_function_inputs_fails<R: ReconstructingReducer>(
    d: DirectorView<R::V>,
    items: Seq<FunctionInputView>,
    i: int,
)
    requires
        0 <= i < items.len(),
        walk_function_inputs::<R>(d, items.take(i + 1)).1 is Err,
    ensures
        walk_function_inputs::<R>(d, items) == walk_function_inputs::<R>(d, items.take(i + 1)),
    decreases items.len(),
{
    if i + 1 == items.len() {
        assert(items.take(i + 1) =~= items);
    } else {
        assert(items.drop_last().take(i + 1) =~= items.take(i + 1));
        lemma_walk_function_inputs_fails::<R>(d, items.drop_last(), i);
    }
}

/// What the director gives for a list: each item reduced in order, up to the
/// first failure.
pub open spec fn walk_imports<R: ReconstructingReducer>(
    d: DirectorView<R::V>,
    items: Seq<ImportStatementView>,
) -> (DirectorView<R::V>, Result<Seq<ImportStatementView>, CanonicalizeError>)
    decreases items,
{
    if items.len() == 0 {
        (d, Ok(Seq::empty()))
    } else {
        let (d1, r) = walk_imports::<R>(d, items.drop_last());
        match r {
            Err(e) => (d1, Err(e)),
            Ok(done) => {
                let (d2, r) = walk_import::<R>(d1, items.last());
                match r {
                    Err(e) => (d2, Err(e)),
                    Ok(node) => (d2, Ok(done.push(node))),
                }
            },
        }
    }
}

/// A list whose prefix fails gives the failure of that prefix.
pub proof fn lemma_walk_imports_fails<R: ReconstructingReducer>(
    d: DirectorView<R::V>,
    items: Seq<ImportStatementView>,
    i: int,
)
    requires
        0 <= i < items.len(),
        walk_imports::<R>(d, items.take(i + 1)).1 is Err,
    ensures
        walk_imports::<R>(d, items) == walk_imports::<R>(d, items.take(i + 1)),
    decreases items.len(),
{
    if i + 1 == items.len() {
        assert(items.take(i + 1) =~= items);
    } else {
        assert(items.drop_last().take(i + 1) =~= items.take(i + 1));
        lemma_walk_imports_fails::<R>(d, items.drop_last(), i);
    }
}

/// What the director gives for a list: each item reduced in order, up to the
/// first failure.
pub open spec fn walk_circuit_members<R: ReconstructingReducer>(
    d: DirectorView<R::V>,
    items: Seq<CircuitMemberView>,
) -> (DirectorView<R::V>, Result<Seq<CircuitMemberView>, CanonicalizeError>)
    decreases items,
{
    if items.len() == 0 {
        (d, Ok(Seq::empty()))
    } else {
        let (d1, r) = walk_circuit_members::<R>(d, items.drop_last());
        match r {
            Err(e) => (d1, Err(e)),
            Ok(done) => {
                let (d2, r) = walk_circuit_member::<R>(d1, items.last());
                match r {
                    Err(e) => (d2, Err(e)),
                    Ok(node) => (d2, Ok(done.push(node))),
                }
            },
        }
    }
}

/// A list whose prefix fails gives the failure of that prefix.
pub proof fn lemma_walk_circuit_members_fails<R: ReconstructingReducer>(
    d: DirectorView<R::V>,
    items: Seq<CircuitMemberView>,
    i: int,
)
    requires
        0 <= i < items.len(),
        walk_circuit_members::<R>(d, items.take(i + 1)).1 is Err,
    ensures
        walk_circuit_members::<R>(d, items) == walk_circuit_members::<R>(d, items.take(i + 1)),
    decreases items.len(),
{
    if i + 1 == items.len() {
        assert(items.take(i + 1) =~= items);
    } else {
        assert(items.drop_last().take(i + 1) =~= items.take(i + 1));
        lemma_walk_circuit_members_fails::<R>(d, items.drop_last(), i);
    }
}

/// What the director gives for a list: each item reduced in order, up to the
/// first failure.
pub open spec fn walk_annotations<R: ReconstructingReducer>(
    d: DirectorView<R::V>,
    items: Seq<AnnotationView>,
) -> (DirectorView<R::V>, Result<Seq<AnnotationView>, CanonicalizeError>)
    decreases items,
{
    if items.len() == 0 {
        (d, Ok(Seq::empty()))
    } else {
        let (d1, r) = walk_annotations::<R>(d, items.drop_last());
        match r {
            Err(e) => (d1, Err(e)),
            Ok(done) => {
                let (d2, r) = walk_annotation::<R>(d1, items.last());
                match r {
                    Err(e) => (d2, Err(e)),
                    Ok(node) => (d2, Ok(done.push(node))),
                }
            },
        }
    }
}

/// A list whose prefix fails gives the failure of that prefix.
pub proof fn lemma_walk_annotations_fails<R: ReconstructingReducer>(
    d: DirectorView<R::V>,
    items: Seq<AnnotationView>,
    i: int,
)
    requires
        0 <= i < items.len(),
        walk_annotations::<R>(d, items.take(i + 1)).1 is Err,
    ensures
        walk_annotations::<R>(d, items) == walk_annotations::<R>(d, items.take(i + 1)),
    decreases items.len(),
{
    if i + 1 == items.len() {
        assert(items.take(i + 1) =~= items);
    } else {
        assert(items.drop_last().take(i + 1) =~= items.take(i + 1));
        lemma_walk_annotations_fails::<R>(d, items.drop_last(), i);
    }
}

/// What the director gives for a map of circuits: each key and then its
/// circuit reduced, in the order of the map, and each reduced pair inserted in
/// turn, up to the first failure.
pub open spec fn walk_circuit_entries<R: ReconstructingReducer>(
    d: DirectorView<R::V>,
    entries: Seq<(IdentifierView, CircuitView)>,
) -> (DirectorView<R::V>, Result<Seq<(IdentifierView, CircuitView)>, CanonicalizeError>)
    decreases entries,
{
    if entries.len() == 0 {
        (d, Ok(Seq::empty()))
    } else {
        let (d1, r) = walk_circuit_entries::<R>(d, entries.drop_last());
        match r {
            Err(e) => (d1, Err(e)),
            Ok(done) => {
                let (d2, r) = walk_identifier::<R>(d1, entries.last().0);
                match r {
                    Err(e) => (d2, Err(e)),
                    Ok(key) => {
                        let (d3, r) = walk_circuit::<R>(d2, entries.last().1);
                        match r {
                            Err(e) => (d3, Err(e)),
                            Ok(node) => (d3, Ok(inserted(done, key, node))),
                        }
                    },
                }
            },
        }
    }
}

/// A map whose prefix fails gives the failure of that prefix.
pub proof fn lemma_walk_circuit_entries_fails<R: ReconstructingReducer>(
    d: DirectorView<R::V>,
    entries: Seq<(IdentifierView, CircuitView)>,
    i: int,
)
    requires
        0 <= i < entries.len(),
        walk_circuit_entries::<R>(d, entries.take(i + 1)).1 is Err,
    ensures
        walk_circuit_entries::<R>(d, entries) == walk_circuit_entries::<R>(d, entries.take(i + 1)),
    decreases entries.len(),
{
    if i + 1 == entries.len() {
        assert(entries.take(i + 1) =~= entries);
    } else {
        assert(entries.drop_last().take(i + 1) =~= entries.take(i + 1));
        lemma_walk_circuit_entries_fails::<R>(d, entries.drop_last(), i);
    }
}

/// What the director gives for a map of functions: each key and then its
/// function reduced, in the order of the map, and each reduced pair inserted in
/// turn, up to the first failure.
pub open spec fn walk_function_entries<R: ReconstructingReducer>(
    d: DirectorView<R::V>,
    entries: Seq<(IdentifierView, FunctionView)>,
) -> (DirectorView<R::V>, Result<Seq<(IdentifierView, FunctionView)>, CanonicalizeError>)
    decreases entries,
{
    if entries.len() == 0 {
        (d, Ok(Seq::empty()))
    } else {
        let (d1, r) = walk_function_entries::<R>(d, entries.drop_last());
        match r {
            Err(e) => (d1, Err(e)),
            Ok(done) => {
                let (d2, r) = walk_identifier::<R>(d1, entries.last().0);
                match r {
                    Err(e) => (d2, Err(e)),
                    Ok(key) => {
                        let (d3, r) = walk_function::<R>(d2, entries.last().1);
                        match r {
                            Err(e) => (d3, Err(e)),
                            Ok(node) => (d3, Ok(inserted(done, key, node))),
                        }
                    },
                }
            },
        }
    }
}

/// A map whose prefix fails gives the failure of that prefix.
pub proof fn lemma_walk_function_entries_fails<R: ReconstructingReducer>(
    d: DirectorView<R::V>,
    entries: Seq<(IdentifierView, FunctionView)>,
    i: int,
)
    requires
        0 <= i < entries.len(),
        walk_function_entries::<R>(d, entries.take(i + 1)).1 is Err,
    ensures
        walk_function_entries::<R>(d, entries) ==
            walk_function_entries::<R>(d, entries.take(i + 1)),
    decreases entries.len(),
{
    if i + 1 == entries.len() {
        assert(entries.take(i + 1) =~= entries);
    } else {
        assert(entries.drop_last().take(i + 1) =~= entries.take(i + 1));
        lemma_walk_function_entries_fails::<R>(d, entries.drop_last(), i);
    }
}

/// What the director gives for a program: the expected inputs, the imports,
/// the circuits and the functions reduced in that order, then the program
/// itself.
pub open spec fn walk_program<R: ReconstructingReducer>(
    d: DirectorView<R::V>,
    program: ProgramView,
) -> (DirectorView<R::V>, Result<ProgramView, CanonicalizeError>) {
    let (d1, r) = walk_function_inputs::<R>(d, program.expected_input);
    match r {
        Err(e) => (d1, Err(e)),
        Ok(expected_input) => {
            let (d2, r) = walk_imports::<R>(d1, program.imports);
            match r {
                Err(e) => (d2, Err(e)),
                Ok(imports) => {
                    let (d3, r) = walk_circuit_entries::<R>(d2, program.circuits);
                    match r {
                        Err(e) => (d3, Err(e)),
                        Ok(circuits) => {
                            let (d4, r) = walk_function_entries::<R>(d3, program.functions);
                            match r {
                                Err(e) => (d4, Err(e)),
                                Ok(functions) => {
                                    let (state, r) = R::reduce_program_spec(
                                        d4.reducer,
                                        program,
                                        expected_input,
                                        imports,
                                        circuits,
                                        functions,
                                    );
                                    (DirectorView { reducer: state, in_circuit: d4.in_circuit }, r)
                                },
                            }
                        },
                    }
                },
            }
        },
    }
}

impl<R: ReconstructingReducer> ReconstructingDirector<R> {
    /// A director for `reducer`, outside any circuit.
    pub fn new(reducer: R) -> (r: Self)
        ensures
            r@ == (DirectorView { reducer: reducer@, in_circuit: false }),
    {
        Self { reducer, in_circuit: false }
    }

    /// Whether the director stands inside a member of a circuit.
    pub fn in_circuit(&self) -> (r: bool)
        ensures
            r == self@.in_circuit,
    {
        self.in_circuit
    }

    /// Gives the reducer back.
    pub fn into_reducer(self) -> (r: R)
        ensures
            r@ == self@.reducer,
    {
        self.reducer
    }

    /// Reduces a type: its parts first, in order, then the node itself.
    pub fn reduce_type(&mut self, type_: &Type, span: &Span) -> (r: Result<Type, CanonicalizeError>)
        ensures
            (final(self)@, reduced(r)) == walk_type::<R>(old(self)@, type_@, *span),
        decreases type_,
    {
        let new = match type_ {
            Type::Array(inner, dimensions) => {
                let element = self.reduce_type(&**inner, span)?;
                Type::Array(Box::new(element), clone_sizes(dimensions))
            },
            Type::Tuple(items) => {
                let types = self.reduce_types(items, span)?;
                Type::Tuple(types)
            },
            Type::Circuit(name) => {
                let identifier = self.reduce_identifier(name)?;
                Type::Circuit(identifier)
            },
            _ => type_.clone(),
        };
        self.reducer.reduce_type(type_, new, self.in_circuit, span)
    }

    /// Reduces an expression: its parts first, in order, then the node itself.
    pub fn reduce_expression(
        &mut self,
        expression: &Expression,
    ) -> (r: Result<Expression, CanonicalizeError>)
        ensures
            (final(self)@, reduced(r)) == walk_expression::<R>(old(self)@, expression@),
        decreases expression,
    {
        let new = match expression {
            Expression::Identifier(identifier) => {
                let inner = self.reduce_identifier(identifier)?;
                Expression::Identifier(inner)
            },
            Expression::Value(value) => {
                let inner = self.reduce_value(value)?;
                Expression::Value(inner)
            },
            Expression::Binary(binary) => {
                let inner = self.reduce_binary(binary)?;
                Expression::Binary(inner)
            },
            Expression::Unary(unary) => {
                let inner = self.reduce_unary(unary)?;
                Expression::Unary(inner)
            },
            Expression::Ternary(ternary) => {
                let inner = self.reduce_ternary(ternary)?;
                Expression::Ternary(inner)
            },
            Expression::Cast(cast) => {
                let inner = self.reduce_cast(cast)?;
                Expression::Cast(inner)
            },
            Expression::ArrayInline(array_inline) => {
                let inner = self.reduce_array_inline(array_inline)?;
                Expression::ArrayInline(inner)
            },
            Expression::ArrayInit(array_init) => {
                let inner = self.reduce_array_init(array_init)?;
                Expression::ArrayInit(inner)
            },
            Expression::ArrayAccess(array_access) => {
                let inner = self.reduce_array_access(array_access)?;
                Expression::ArrayAccess(inner)
            },
            Expression::ArrayRangeAccess(array_range_access) => {
                let inner = self.reduce_array_range_access(array_range_access)?;
                Expression::ArrayRangeAccess(inner)
            },
            Expression::TupleInit(tuple_init) => {
                let inner = self.reduce_tuple_init(tuple_init)?;
                Expression::TupleInit(inner)
            },
            Expression::TupleAccess(tuple_access) => {
                let inner = self.reduce_tuple_access(tuple_access)?;
                Expression::TupleAccess(inner)
            },
            Expression::CircuitInit(circuit_init) => {
                let inner = self.reduce_circuit_init(circuit_init)?;
                Expression::CircuitInit(inner)
            },
            Expression::CircuitMemberAccess(circuit_member_access) => {
                let inner = self.reduce_circuit_member_access(circuit_member_access)?;
                Expression::CircuitMemberAccess(inner)
            },
            Expression::CircuitStaticFunctionAccess(circuit_static_fn_access) => {
                let inner = self.reduce_circuit_static_fn_access(circuit_static_fn_access)?;
                Expression::CircuitStaticFunctionAccess(inner)
            },
            Expression::Call(call) => {
                let inner = self.reduce_call(call)?;
                Expression::Call(inner)
            },
        };
        self.reducer.reduce_expression(expression, new, self.in_circuit)
    }

    /// Reduces an identifier: its parts first, in order, then the node itself.
    pub fn reduce_identifier(
        &mut self,
        identifier: &Identifier,
    ) -> (r: Result<Identifier, CanonicalizeError>)
        ensures
            (final(self)@, reduced(r)) == walk_identifier::<R>(old(self)@, identifier@),
        decreases identifier,
    {
        self.reducer.reduce_identifier(identifier)
    }

    /// Reduces a group tuple: its parts first, in order, then the node itself.
    pub fn reduce_group_tuple(
        &mut self,
        group_tuple: &GroupTuple,
    ) -> (r: Result<GroupTuple, CanonicalizeError>)
        ensures
            (final(self)@, reduced(r)) == walk_group_tuple::<R>(old(self)@, group_tuple@),
        decreases group_tuple,
    {
        self.reducer.reduce_group_tuple(group_tuple)
    }

    /// Reduces a group value: its parts first, in order, then the node itself.
    pub fn reduce_group_value(
        &mut self,
        group_value: &GroupValue,
    ) -> (r: Result<GroupValue, CanonicalizeError>)
        ensures
            (final(self)@, reduced(r)) == walk_group_value::<R>(old(self)@, group_value@),
        decreases group_value,
    {
        let new = match group_value {
            GroupValue::Tuple(group_tuple) => {
                let tuple = self.reduce_group_tuple(group_tuple)?;
                GroupValue::Tuple(tuple)
            },
            _ => group_value.clone(),
        };
        self.reducer.reduce_group_value(group_value, new)
    }

    /// Reduces a literal value: its parts first, in order, then the node itself.
    pub fn reduce_value(
        &mut self,
        value: &ValueExpression,
    ) -> (r: Result<ValueExpression, CanonicalizeError>)
        ensures
            (final(self)@, reduced(r)) == walk_value::<R>(old(self)@, value@),
        decreases value,
    {
        let new = match value {
            ValueExpression::Group(group_value) => {
                let group = self.reduce_group_value(&**group_value)?;
                ValueExpression::Group(Box::new(group))
            },
            _ => value.clone(),
        };
        self.reducer.reduce_value(value, new)
    }

    /// Reduces a binary expression: its parts first, in order, then the node itself.
    pub fn reduce_binary(
        &mut self,
        binary: &BinaryExpression,
    ) -> (r: Result<BinaryExpression, CanonicalizeError>)
        ensures
            (final(self)@, reduced(r)) == walk_binary::<R>(old(self)@, binary@),
        decreases binary,
    {
        let left = self.reduce_expression(&*binary.left)?;
        let right = self.reduce_expression(&*binary.right)?;
        self.reducer.reduce_binary(binary, left, right, binary.op, self.in_circuit)
    }

    /// Reduces a unary expression: its parts first, in order, then the node itself.
    pub fn reduce_unary(
        &mut self,
        unary: &UnaryExpression,
    ) -> (r: Result<UnaryExpression, CanonicalizeError>)
        ensures
            (final(self)@, reduced(r)) == walk_unary::<R>(old(self)@, unary@),
        decreases unary,
    {
        let inner = self.reduce_expression(&*unary.inner)?;
        self.reducer.reduce_unary(unary, inner, unary.op, self.in_circuit)
    }

    /// Reduces a ternary expression: its parts first, in order, then the node itself.
    pub fn reduce_ternary(
        &mut self,
        ternary: &TernaryExpression,
    ) -> (r: Result<TernaryExpression, CanonicalizeError>)
        ensures
            (final(self)@, reduced(r)) == walk_ternary::<R>(old(self)@, ternary@),
        decreases ternary,
    {
        let condition = self.reduce_expression(&*ternary.condition)?;
        let if_true = self.reduce_expression(&*ternary.if_true)?;
        let if_false = self.reduce_expression(&*ternary.if_false)?;
        self.reducer.reduce_ternary(ternary, condition, if_true, if_false, self.in_circuit)
    }

    /// Reduces a cast: its parts first, in order, then the node itself.
    pub fn reduce_cast(
        &mut self,
        cast: &CastExpression,
    ) -> (r: Result<CastExpression, CanonicalizeError>)
        ensures
            (final(self)@, reduced(r)) == walk_cast::<R>(old(self)@, cast@),
        decreases cast,
    {
        let inner = self.reduce_expression(&*cast.inner)?;
        let target_type = self.reduce_type(&cast.target_type, &cast.span)?;
        self.reducer.reduce_cast(cast, inner, target_type, self.in_circuit)
    }

    /// Reduces an element of an inline array: its parts first, in order, then the node itself.
    fn reduce_spread_or_expression(
        &mut self,
        element: &SpreadOrExpression,
    ) -> (r: Result<SpreadOrExpression, CanonicalizeError>)
        ensures
            (final(self)@, reduced(r)) == walk_spread_or_expression::<R>(old(self)@, element@),
        decreases element,
    {
        let new = match element {
            SpreadOrExpression::Spread(expression) => {
                let inner = self.reduce_expression(expression)?;
                SpreadOrExpression::Spread(inner)
            },
            SpreadOrExpression::Expression(expression) => {
                let inner = self.reduce_expression(expression)?;
                SpreadOrExpression::Expression(inner)
            },
        };
        Ok(new)
    }

    /// Reduces an inline array: its parts first, in order, then the node itself.
    pub fn reduce_array_inline(
        &mut self,
        array_inline: &ArrayInlineExpression,
    ) -> (r: Result<ArrayInlineExpression, CanonicalizeError>)
        ensures
            (final(self)@, reduced(r)) == walk_array_inline::<R>(old(self)@, array_inline@),
        decreases array_inline,
    {
        let elements = self.reduce_spread_or_expressions(&array_inline.elements)?;
        self.reducer.reduce_array_inline(array_inline, elements, self.in_circuit)
    }

    /// Reduces an array initialiser: its parts first, in order, then the node itself.
    pub fn reduce_array_init(
        &mut self,
        array_init: &ArrayInitExpression,
    ) -> (r: Result<ArrayInitExpression, CanonicalizeError>)
        ensures
            (final(self)@, reduced(r)) == walk_array_init::<R>(old(self)@, array_init@),
        decreases array_init,
    {
        let element = self.reduce_expression(&*array_init.element)?;
        self.reducer.reduce_array_init(array_init, element, self.in_circuit)
    }

    /// Reduces an array access: its parts first, in order, then the node itself.
    pub fn reduce_array_access(
        &mut self,
        array_access: &ArrayAccessExpression,
    ) -> (r: Result<ArrayAccessExpression, CanonicalizeError>)
        ensures
            (final(self)@, reduced(r)) == walk_array_access::<R>(old(self)@, array_access@),
        decreases array_access,
    {
        let array = self.reduce_expression(&*array_access.array)?;
        let index = self.reduce_expression(&*array_access.index)?;
        self.reducer.reduce_array_access(array_access, array, index, self.in_circuit)
    }

    /// Reduces an array range access: its parts first, in order, then the node itself.
    pub fn reduce_array_range_access(
        &mut self,
        array_range_access: &ArrayRangeAccessExpression,
    ) -> (r: Result<ArrayRangeAccessExpression, CanonicalizeError>)
        ensures
            (final(self)@, reduced(r)) == walk_array_range_access::<R>(
                old(self)@,
                array_range_access@,
            ),
        decreases array_range_access,
    {
        let array = self.reduce_expression(&*array_range_access.array)?;
        let left = match &array_range_access.left {
            Some(v) => Some(self.reduce_expression(&**v)?),
            None => None,
        };
        let right = match &array_range_access.right {
            Some(v) => Some(self.reduce_expression(&**v)?),
            None => None,
        };
        self.reducer.reduce_array_range_access(
            array_range_access,
            array,
            left,
            right,
            self.in_circuit,
        )
    }

    /// Reduces a tuple initialiser: its parts first, in order, then the node itself.
    pub fn reduce_tuple_init(
        &mut self,
        tuple_init: &TupleInitExpression,
    ) -> (r: Result<TupleInitExpression, CanonicalizeError>)
        ensures
            (final(self)@, reduced(r)) == walk_tuple_init::<R>(old(self)@, tuple_init@),
        decreases tuple_init,
    {
        let elements = self.reduce_expressions(&tuple_init.elements)?;
        self.reducer.reduce_tuple_init(tuple_init, elements, self.in_circuit)
    }

    /// Reduces a tuple access: its parts first, in order, then the node itself.
    pub fn reduce_tuple_access(
        &mut self,
        tuple_access: &TupleAccessExpression,
    ) -> (r: Result<TupleAccessExpression, CanonicalizeError>)
        ensures
            (final(self)@, reduced(r)) == walk_tuple_access::<R>(old(self)@, tuple_access@),
        decreases tuple_access,
    {
        let tuple = self.reduce_expression(&*tuple_access.tuple)?;
        self.reducer.reduce_tuple_access(tuple_access, tuple, self.in_circuit)
    }

    /// Reduces a member of a circuit initialiser: its parts first, in order, then the node itself.
    pub fn reduce_circuit_implied_variable_definition(
        &mut self,
        variable: &CircuitImpliedVariableDefinition,
    ) -> (r: Result<CircuitImpliedVariableDefinition, CanonicalizeError>)
        ensures
            (final(self)@, reduced(r)) == walk_circuit_implied_variable_definition::<R>(
                old(self)@,
                variable@,
            ),
        decreases variable,
    {
        let identifier = self.reduce_identifier(&variable.identifier)?;
        let expression = match &variable.expression {
            Some(v) => Some(self.reduce_expression(v)?),
            None => None,
        };
        self.reducer.reduce_circuit_implied_variable_definition(
            variable,
            identifier,
            expression,
            self.in_circuit,
        )
    }

    /// Reduces a circuit initialiser: its parts first, in order, then the node itself.
    pub fn reduce_circuit_init(
        &mut self,
        circuit_init: &CircuitInitExpression,
    ) -> (r: Result<CircuitInitExpression, CanonicalizeError>)
        ensures
            (final(self)@, reduced(r)) == walk_circuit_init::<R>(old(self)@, circuit_init@),
        decreases circuit_init,
    {
        let name = self.reduce_identifier(&circuit_init.name)?;
        let members = self.reduce_circuit_implied_variable_definitions(&circuit_init.members)?;
        self.reducer.reduce_circuit_init(circuit_init, name, members, self.in_circuit)
    }

    /// Reduces a circuit member access: its parts first, in order, then the node itself.
    pub fn reduce_circuit_member_access(
        &mut self,
        circuit_member_access: &CircuitMemberAccessExpression,
    ) -> (r: Result<CircuitMemberAccessExpression, CanonicalizeError>)
        ensures
            (final(self)@, reduced(r)) == walk_circuit_member_access::<R>(
                old(self)@,
                circuit_member_access@,
            ),
        decreases circuit_member_access,
    {
        let circuit = self.reduce_expression(&*circuit_member_access.circuit)?;
        let name = self.reduce_identifier(&circuit_member_access.name)?;
        self.reducer.reduce_circuit_member_access(
            circuit_member_access,
            circuit,
            name,
            self.in_circuit,
        )
    }

    /// Reduces a static function access: its parts first, in order, then the node itself.
    pub fn reduce_circuit_static_fn_access(
        &mut self,
        circuit_static_fn_access: &CircuitStaticFunctionAccessExpression,
    ) -> (r: Result<CircuitStaticFunctionAccessExpression, CanonicalizeError>)
        ensures
            (final(self)@, reduced(r)) == walk_circuit_static_fn_access::<R>(
                old(self)@,
                circuit_static_fn_access@,
            ),
        decreases circuit_static_fn_access,
    {
        let circuit = self.reduce_expression(&*circuit_static_fn_access.circuit)?;
        let name = self.reduce_identifier(&circuit_static_fn_access.name)?;
        self.reducer.reduce_circuit_static_fn_access(
            circuit_static_fn_access,
            circuit,
            name,
            self.in_circuit,
        )
    }

    /// Reduces a call: its parts first, in order, then the node itself.
    pub fn reduce_call(
        &mut self,
        call: &CallExpression,
    ) -> (r: Result<CallExpression, CanonicalizeError>)
        ensures
            (final(self)@, reduced(r)) == walk_call::<R>(old(self)@, call@),
        decreases call,
    {
        let function = self.reduce_expression(&*call.function)?;
        let arguments = self.reduce_expressions(&call.arguments)?;
        self.reducer.reduce_call(call, function, arguments, self.in_circuit)
    }

    /// Reduces a statement: its parts first, in order, then the node itself.
    pub fn reduce_statement(
        &mut self,
        statement: &Statement,
    ) -> (r: Result<Statement, CanonicalizeError>)
        ensures
            (final(self)@, reduced(r)) == walk_statement::<R>(old(self)@, statement@),
        decreases statement,
    {
        let new = match statement {
            Statement::Return(return_statement) => {
                let inner = self.reduce_return(return_statement)?;
                Statement::Return(inner)
            },
            Statement::Definition(definition) => {
                let inner = self.reduce_definition(definition)?;
                Statement::Definition(inner)
            },
            Statement::Assign(assign) => {
                let inner = self.reduce_assign(assign)?;
                Statement::Assign(inner)
            },
            Statement::Conditional(conditional) => {
                let inner = self.reduce_conditional(conditional)?;
                Statement::Conditional(inner)
            },
            Statement::Iteration(iteration) => {
                let inner = self.reduce_iteration(iteration)?;
                Statement::Iteration(inner)
            },
            Statement::Console(console) => {
                let inner = self.reduce_console(console)?;
                Statement::Console(inner)
            },
            Statement::Expression(expression_statement) => {
                let inner = self.reduce_expression_statement(expression_statement)?;
                Statement::Expression(inner)
            },
            Statement::Block(block) => {
                let inner = self.reduce_block(block)?;
                Statement::Block(inner)
            },
        };
        self.reducer.reduce_statement(statement, new, self.in_circuit)
    }

    /// Reduces a return: its parts first, in order, then the node itself.
    pub fn reduce_return(
        &mut self,
        return_statement: &ReturnStatement,
    ) -> (r: Result<ReturnStatement, CanonicalizeError>)
        ensures
            (final(self)@, reduced(r)) == walk_return::<R>(old(self)@, return_statement@),
        decreases return_statement,
    {
        let expression = self.reduce_expression(&return_statement.expression)?;
        self.reducer.reduce_return(return_statement, expression, self.in_circuit)
    }

    /// Reduces a variable name: its parts first, in order, then the node itself.
    pub fn reduce_variable_name(
        &mut self,
        variable_name: &VariableName,
    ) -> (r: Result<VariableName, CanonicalizeError>)
        ensures
            (final(self)@, reduced(r)) == walk_variable_name::<R>(old(self)@, variable_name@),
        decreases variable_name,
    {
        let identifier = self.reduce_identifier(&variable_name.identifier)?;
        self.reducer.reduce_variable_name(variable_name, identifier)
    }

    /// Reduces a definition: its parts first, in order, then the node itself.
    pub fn reduce_definition(
        &mut self,
        definition: &DefinitionStatement,
    ) -> (r: Result<DefinitionStatement, CanonicalizeError>)
        ensures
            (final(self)@, reduced(r)) == walk_definition::<R>(old(self)@, definition@),
        decreases definition,
    {
        let variable_names = self.reduce_variable_names(&definition.variable_names)?;
        let type_ = match &definition.type_ {
            Some(v) => Some(self.reduce_type(v, &definition.span)?),
            None => None,
        };
        let value = self.reduce_expression(&definition.value)?;
        self.reducer.reduce_definition(definition, variable_names, type_, value, self.in_circuit)
    }

    /// Reduces an assignee access: its parts first, in order, then the node itself.
    pub fn reduce_assignee_access(
        &mut self,
        access: &AssigneeAccess,
    ) -> (r: Result<AssigneeAccess, CanonicalizeError>)
        ensures
            (final(self)@, reduced(r)) == walk_assignee_access::<R>(old(self)@, access@),
        decreases access,
    {
        let new = match access {
            AssigneeAccess::ArrayRange(start, stop) => {
                let left = match start {
                    Some(v) => Some(self.reduce_expression(v)?),
                    None => None,
                };
                let right = match stop {
                    Some(v) => Some(self.reduce_expression(v)?),
                    None => None,
                };
                AssigneeAccess::ArrayRange(left, right)
            },
            AssigneeAccess::ArrayIndex(expression) => {
                let index = self.reduce_expression(expression)?;
                AssigneeAccess::ArrayIndex(index)
            },
            AssigneeAccess::Member(name) => {
                let identifier = self.reduce_identifier(name)?;
                AssigneeAccess::Member(identifier)
            },
            _ => access.clone(),
        };
        self.reducer.reduce_assignee_access(access, new, self.in_circuit)
    }

    /// Reduces an assignee: its parts first, in order, then the node itself.
    pub fn reduce_assignee(
        &mut self,
        assignee: &Assignee,
    ) -> (r: Result<Assignee, CanonicalizeError>)
        ensures
            (final(self)@, reduced(r)) == walk_assignee::<R>(old(self)@, assignee@),
        decreases assignee,
    {
        let identifier = self.reduce_identifier(&assignee.identifier)?;
        let accesses = self.reduce_assignee_accesses(&assignee.accesses)?;
        self.reducer.reduce_assignee(assignee, identifier, accesses, self.in_circuit)
    }

    /// Reduces an assignment: its parts first, in order, then the node itself.
    pub fn reduce_assign(
        &mut self,
        assign: &AssignStatement,
    ) -> (r: Result<AssignStatement, CanonicalizeError>)
        ensures
            (final(self)@, reduced(r)) == walk_assign::<R>(old(self)@, assign@),
        decreases assign,
    {
        let assignee = self.reduce_assignee(&assign.assignee)?;
        let value = self.reduce_expression(&assign.value)?;
        self.reducer.reduce_assign(assign, assignee, value, self.in_circuit)
    }

    /// Reduces a conditional: its parts first, in order, then the node itself.
    pub fn reduce_conditional(
        &mut self,
        conditional: &ConditionalStatement,
    ) -> (r: Result<ConditionalStatement, CanonicalizeError>)
        ensures
            (final(self)@, reduced(r)) == walk_conditional::<R>(old(self)@, conditional@),
        decreases conditional,
    {
        let condition = self.reduce_expression(&conditional.condition)?;
        let block = self.reduce_block(&conditional.block)?;
        let next = match &conditional.next {
            Some(v) => Some(self.reduce_statement(&**v)?),
            None => None,
        };
        self.reducer.reduce_conditional(conditional, condition, block, next, self.in_circuit)
    }

    /// Reduces a loop: its parts first, in order, then the node itself.
    pub fn reduce_iteration(
        &mut self,
        iteration: &IterationStatement,
    ) -> (r: Result<IterationStatement, CanonicalizeError>)
        ensures
            (final(self)@, reduced(r)) == walk_iteration::<R>(old(self)@, iteration@),
        decreases iteration,
    {
        let variable = self.reduce_identifier(&iteration.variable)?;
        let start = self.reduce_expression(&iteration.start)?;
        let stop = self.reduce_expression(&iteration.stop)?;
        let block = self.reduce_block(&iteration.block)?;
        self.reducer.reduce_iteration(iteration, variable, start, stop, block, self.in_circuit)
    }

    /// Reduces a console statement: its parts first, in order, then the node itself.
    pub fn reduce_console(
        &mut self,
        console_function_call: &ConsoleStatement,
    ) -> (r: Result<ConsoleStatement, CanonicalizeError>)
        ensures
            (final(self)@, reduced(r)) == walk_console::<R>(old(self)@, console_function_call@),
        decreases console_function_call,
    {
        let new = match &console_function_call.function {
            ConsoleFunction::Assert(expression) => {
                let inner = self.reduce_expression(expression)?;
                ConsoleFunction::Assert(inner)
            },
            ConsoleFunction::Debug(format) => {
                let parameters = self.reduce_expressions(&format.parameters)?;
                ConsoleFunction::Debug(
                    FormatString { parts: clone_format_string_part_seq(
                        &format.parts,
                    ), parameters, span: format.span },
                )
            },
            ConsoleFunction::Error(format) => {
                let parameters = self.reduce_expressions(&format.parameters)?;
                ConsoleFunction::Error(
                    FormatString { parts: clone_format_string_part_seq(
                        &format.parts,
                    ), parameters, span: format.span },
                )
            },
            ConsoleFunction::Log(format) => {
                let parameters = self.reduce_expressions(&format.parameters)?;
                ConsoleFunction::Log(
                    FormatString { parts: clone_format_string_part_seq(
                        &format.parts,
                    ), parameters, span: format.span },
                )
            },
        };
        self.reducer.reduce_console(console_function_call, new, self.in_circuit)
    }

    /// Reduces an expression statement: its parts first, in order, then the node itself.
    pub fn reduce_expression_statement(
        &mut self,
        expression_statement: &ExpressionStatement,
    ) -> (r: Result<ExpressionStatement, CanonicalizeError>)
        ensures
            (final(self)@, reduced(r)) == walk_expression_statement::<R>(
                old(self)@,
                expression_statement@,
            ),
        decreases expression_statement,
    {
        let expression = self.reduce_expression(&expression_statement.expression)?;
        self.reducer.reduce_expression_statement(expression_statement, expression, self.in_circuit)
    }

    /// Reduces a block: its parts first, in order, then the node itself.
    pub fn reduce_block(&mut self, block: &Block) -> (r: Result<Block, CanonicalizeError>)
        ensures
            (final(self)@, reduced(r)) == walk_block::<R>(old(self)@, block@),
        decreases block,
    {
        let statements = self.reduce_statements(&block.statements)?;
        self.reducer.reduce_block(block, statements, self.in_circuit)
    }

    /// Reduces an input variable of a function: its parts first, in order, then the node itself.
    pub fn reduce_function_input_variable(
        &mut self,
        variable: &FunctionInputVariable,
    ) -> (r: Result<FunctionInputVariable, CanonicalizeError>)
        ensures
            (final(self)@, reduced(r)) == walk_function_input_variable::<R>(old(self)@, variable@),
        decreases variable,
    {
        let identifier = self.reduce_identifier(&variable.identifier)?;
        let type_ = self.reduce_type(&variable.type_, &variable.span)?;
        self.reducer.reduce_function_input_variable(variable, identifier, type_, self.in_circuit)
    }

    /// Reduces an input of a function: its parts first, in order, then the node itself.
    pub fn reduce_function_input(
        &mut self,
        input: &FunctionInput,
    ) -> (r: Result<FunctionInput, CanonicalizeError>)
        ensures
            (final(self)@, reduced(r)) == walk_function_input::<R>(old(self)@, input@),
        decreases input,
    {
        let new = match input {
            FunctionInput::Variable(input_variable) => {
                let variable = self.reduce_function_input_variable(input_variable)?;
                FunctionInput::Variable(variable)
            },
            _ => input.clone(),
        };
        self.reducer.reduce_function_input(input, new, self.in_circuit)
    }

    /// Reduces the package of an import: its parts first, in order, then the node itself.
    pub fn reduce_package_or_packages(
        &mut self,
        package_or_packages: &PackageOrPackages,
    ) -> (r: Result<PackageOrPackages, CanonicalizeError>)
        ensures
            (final(self)@, reduced(r)) == walk_package_or_packages::<R>(
                old(self)@,
                package_or_packages@,
            ),
        decreases package_or_packages,
    {
        let new = match package_or_packages {
            PackageOrPackages::Package(package) => {
                let name = self.reduce_identifier(&package.name)?;
                PackageOrPackages::Package(
                    Package { name, access: package.access.clone(), span: package.span },
                )
            },
            PackageOrPackages::Packages(packages) => {
                let name = self.reduce_identifier(&packages.name)?;
                PackageOrPackages::Packages(
                    Packages { name, accesses: clone_package_access_seq(
                        &packages.accesses,
                    ), span: packages.span },
                )
            },
        };
        self.reducer.reduce_package_or_packages(package_or_packages, new)
    }

    /// Reduces an import: its parts first, in order, then the node itself.
    pub fn reduce_import(
        &mut self,
        import: &ImportStatement,
    ) -> (r: Result<ImportStatement, CanonicalizeError>)
        ensures
            (final(self)@, reduced(r)) == walk_import::<R>(old(self)@, import@),
        decreases import,
    {
        let package_or_packages = self.reduce_package_or_packages(&import.package_or_packages)?;
        self.reducer.reduce_import(import, package_or_packages)
    }

    /// Reduces a member of a circuit: its parts first, in order, then the node itself.
    pub fn reduce_circuit_member(
        &mut self,
        circuit_member: &CircuitMember,
    ) -> (r: Result<CircuitMember, CanonicalizeError>)
        ensures
            (final(self)@, reduced(r)) == walk_circuit_member::<R>(old(self)@, circuit_member@),
        decreases circuit_member,
    {
        self.in_circuit = !self.in_circuit;
        let new = match circuit_member {
            CircuitMember::CircuitVariable(name, variable_type) => {
                let identifier = self.reduce_identifier(name)?;
                let type_ = self.reduce_type(variable_type, &name.span)?;
                CircuitMember::CircuitVariable(identifier, type_)
            },
            CircuitMember::CircuitFunction(method) => {
                let function = self.reduce_function(method)?;
                CircuitMember::CircuitFunction(function)
            },
        };
        self.in_circuit = !self.in_circuit;
        self.reducer.reduce_circuit_member(circuit_member, new)
    }

    /// Reduces a circuit: its parts first, in order, then the node itself.
    pub fn reduce_circuit(&mut self, circuit: &Circuit) -> (r: Result<Circuit, CanonicalizeError>)
        ensures
            (final(self)@, reduced(r)) == walk_circuit::<R>(old(self)@, circuit@),
        decreases circuit,
    {
        let circuit_name = self.reduce_identifier(&circuit.circuit_name)?;
        let members = self.reduce_circuit_members(&circuit.members)?;
        self.reducer.reduce_circuit(circuit, circuit_name, members)
    }

    /// Reduces an annotation: its parts first, in order, then the node itself.
    fn reduce_annotation(
        &mut self,
        annotation: &Annotation,
    ) -> (r: Result<Annotation, CanonicalizeError>)
        ensures
            (final(self)@, reduced(r)) == walk_annotation::<R>(old(self)@, annotation@),
        decreases annotation,
    {
        let name = self.reduce_identifier(&annotation.name)?;
        self.reducer.reduce_annotation(annotation, name)
    }

    /// Reduces a function: its parts first, in order, then the node itself.
    pub fn reduce_function(
        &mut self,
        function: &Function,
    ) -> (r: Result<Function, CanonicalizeError>)
        ensures
            (final(self)@, reduced(r)) == walk_function::<R>(old(self)@, function@),
        decreases function,
    {
        let identifier = self.reduce_identifier(&function.identifier)?;
        let annotations = self.reduce_annotations(&function.annotations)?;
        let input = self.reduce_function_inputs(&function.input)?;
        let output = match &function.output {
            Some(v) => Some(self.reduce_type(v, &function.span)?),
            None => None,
        };
        let block = self.reduce_block(&function.block)?;
        self.reducer.reduce_function(
            function,
            identifier,
            annotations,
            input,
            output,
            block,
            self.in_circuit,
        )
    }

    /// Reduces the items of a list in order, up to the first failure.
    fn reduce_types(
        &mut self,
        items: &Vec<Type>,
        span: &Span,
    ) -> (r: Result<Vec<Type>, CanonicalizeError>)
        ensures
            (
                final(self)@,
                match r {
                    Ok(nodes) => Ok(type_seq_view(nodes@)),
                    Err(e) => Err(e),
                },
            ) == walk_types::<R>(old(self)@, type_seq_view(items@), *span),
        decreases items,
    {
        let mut out: Vec<Type> = Vec::new();
        let mut i: usize = 0;
        let ghost views = type_seq_view(items@);
        assert(views.take(0) =~= Seq::<TypeView>::empty());
        assert(type_seq_view(out@) =~= Seq::<TypeView>::empty());
        while i < items.len()
            invariant
                i <= items.len(),
                views == type_seq_view(items@),
                walk_types::<R>(old(self)@, views.take(i as int), *span) == (
                    self@,
                    Ok::<Seq<TypeView>, CanonicalizeError>(type_seq_view(out@)),
                ),
            decreases items.len() - i,
        {
            proof {
                assert(views.take(i + 1).drop_last() =~= views.take(i as int));
                assert(views.take(i + 1).last() == items[i as int]@);
            }
            let node = match self.reduce_type(&items[i], span) {
                Ok(node) => node,
                Err(e) => {
                    proof {
                        lemma_walk_types_fails::<R>(old(self)@, views, *span, i as int);
                    }
                    return Err(e);
                },
            };
            let ghost before = type_seq_view(out@);
            out.push(node);
            assert(type_seq_view(out@) =~= before.push(node@));
            i = i + 1;
        }
        assert(views.take(i as int) =~= views);
        Ok(out)
    }

    /// Reduces the items of a list in order, up to the first failure.
    fn reduce_spread_or_expressions(
        &mut self,
        items: &Vec<SpreadOrExpression>,
    ) -> (r: Result<Vec<SpreadOrExpression>, CanonicalizeError>)
        ensures
            (
                final(self)@,
                match r {
                    Ok(nodes) => Ok(spread_or_expression_seq_view(nodes@)),
                    Err(e) => Err(e),
                },
            ) == walk_spread_or_expressions::<R>(old(self)@, spread_or_expression_seq_view(items@)),
        decreases items,
    {
        let mut out: Vec<SpreadOrExpression> = Vec::new();
        let mut i: usize = 0;
        let ghost views = spread_or_expression_seq_view(items@);
        assert(views.take(0) =~= Seq::<SpreadOrExpressionView>::empty());
        assert(spread_or_expression_seq_view(out@) =~= Seq::<SpreadOrExpressionView>::empty());
        while i < items.len()
            invariant
                i <= items.len(),
                views == spread_or_expression_seq_view(items@),
                walk_spread_or_expressions::<R>(old(self)@, views.take(i as int)) == (
                    self@,
                    Ok::<Seq<SpreadOrExpressionView>, CanonicalizeError>(
                        spread_or_expression_seq_view(out@),
                    ),
                ),
            decreases items.len() - i,
        {
            proof {
                assert(views.take(i + 1).drop_last() =~= views.take(i as int));
                assert(views.take(i + 1).last() == items[i as int]@);
            }
            let node = match self.reduce_spread_or_expression(&items[i]) {
                Ok(node) => node,
                Err(e) => {
                    proof {
                        lemma_walk_spread_or_expressions_fails::<R>(old(self)@, views, i as int);
                    }
                    return Err(e);
                },
            };
            let ghost before = spread_or_expression_seq_view(out@);
            out.push(node);
            assert(spread_or_expression_seq_view(out@) =~= before.push(node@));
            i = i + 1;
        }
        assert(views.take(i as int) =~= views);
        Ok(out)
    }

    /// Reduces the items of a list in order, up to the first failure.
    fn reduce_expressions(
        &mut self,
        items: &Vec<Expression>,
    ) -> (r: Result<Vec<Expression>, CanonicalizeError>)
        ensures
            (
                final(self)@,
                match r {
                    Ok(nodes) => Ok(expression_seq_view(nodes@)),
                    Err(e) => Err(e),
                },
            ) == walk_expressions::<R>(old(self)@, expression_seq_view(items@)),
        decreases items,
    {
        let mut out: Vec<Expression> = Vec::new();
        let mut i: usize = 0;
        let ghost views = expression_seq_view(items@);
        assert(views.take(0) =~= Seq::<ExpressionView>::empty());
        assert(expression_seq_view(out@) =~= Seq::<ExpressionView>::empty());
        while i < items.len()
            invariant
                i <= items.len(),
                views == expression_seq_view(items@),
                walk_expressions::<R>(old(self)@, views.take(i as int)) == (
                    self@,
                    Ok::<Seq<ExpressionView>, CanonicalizeError>(expression_seq_view(out@)),
                ),
            decreases items.len() - i,
        {
            proof {
                assert(views.take(i + 1).drop_last() =~= views.take(i as int));
                assert(views.take(i + 1).last() == items[i as int]@);
            }
            let node = match self.reduce_expression(&items[i]) {
                Ok(node) => node,
                Err(e) => {
                    proof {
                        lemma_walk_expressions_fails::<R>(old(self)@, views, i as int);
                    }
                    return Err(e);
                },
            };
            let ghost before = expression_seq_view(out@);
            out.push(node);
            assert(expression_seq_view(out@) =~= before.push(node@));
            i = i + 1;
        }
        assert(views.take(i as int) =~= views);
        Ok(out)
    }

    /// Reduces the items of a list in order, up to the first failure.
    fn reduce_circuit_implied_variable_definitions(
        &mut self,
        items: &Vec<CircuitImpliedVariableDefinition>,
    ) -> (r: Result<Vec<CircuitImpliedVariableDefinition>, CanonicalizeError>)
        ensures
            (
                final(self)@,
                match r {
                    Ok(nodes) => Ok(circuit_implied_variable_definition_seq_view(nodes@)),
                    Err(e) => Err(e),
                },
            ) == walk_circuit_implied_variable_definitions::<R>(
                old(self)@,
                circuit_implied_variable_definition_seq_view(items@),
            ),
        decreases items,
    {
        let mut out: Vec<CircuitImpliedVariableDefinition> = Vec::new();
        let mut i: usize = 0;
        let ghost views = circuit_implied_variable_definition_seq_view(items@);
        assert(views.take(0) =~= Seq::<CircuitImpliedVariableDefinitionView>::empty());
        assert(circuit_implied_variable_definition_seq_view(out@) =~=
            Seq::<CircuitImpliedVariableDefinitionView>::empty());
        while i < items.len()
            invariant
                i <= items.len(),
                views == circuit_implied_variable_definition_seq_view(items@),
                walk_circuit_implied_variable_definitions::<R>(old(self)@, views.take(i as int)) ==
                    (
                    self@,
                    Ok::<Seq<CircuitImpliedVariableDefinitionView>, CanonicalizeError>(
                        circuit_implied_variable_definition_seq_view(out@),
                    ),
                ),
            decreases items.len() - i,
        {
            proof {
                assert(views.take(i + 1).drop_last() =~= views.take(i as int));
                assert(views.take(i + 1).last() == items[i as int]@);
            }
            let node = match self.reduce_circuit_implied_variable_definition(&items[i]) {
                Ok(node) => node,
                Err(e) => {
                    proof {
                        lemma_walk_circuit_implied_variable_definitions_fails::<R>(
                            old(self)@,
                            views,
                            i as int,
                        );
                    }
                    return Err(e);
                },
            };
            let ghost before = circuit_implied_variable_definition_seq_view(out@);
            out.push(node);
            assert(circuit_implied_variable_definition_seq_view(out@) =~= before.push(node@));
            i = i + 1;
        }
        assert(views.take(i as int) =~= views);
        Ok(out)
    }

    /// Reduces the items of a list in order, up to the first failure.
    fn reduce_variable_names(
        &mut self,
        items: &Vec<VariableName>,
    ) -> (r: Result<Vec<VariableName>, CanonicalizeError>)
        ensures
            (
                final(self)@,
                match r {
                    Ok(nodes) => Ok(variable_name_seq_view(nodes@)),
                    Err(e) => Err(e),
                },
            ) == walk_variable_names::<R>(old(self)@, variable_name_seq_view(items@)),
        decreases items,
    {
        let mut out: Vec<VariableName> = Vec::new();
        let mut i: usize = 0;
        let ghost views = variable_name_seq_view(items@);
        assert(views.take(0) =~= Seq::<VariableNameView>::empty());
        assert(variable_name_seq_view(out@) =~= Seq::<VariableNameView>::empty());
        while i < items.len()
            invariant
                i <= items.len(),
                views == variable_name_seq_view(items@),
                walk_variable_names::<R>(old(self)@, views.take(i as int)) == (
                    self@,
                    Ok::<Seq<VariableNameView>, CanonicalizeError>(variable_name_seq_view(out@)),
                ),
            decreases items.len() - i,
        {
            proof {
                assert(views.take(i + 1).drop_last() =~= views.take(i as int));
                assert(views.take(i + 1).last() == items[i as int]@);
            }
            let node = match self.reduce_variable_name(&items[i]) {
                Ok(node) => node,
                Err(e) => {
                    proof {
                        lemma_walk_variable_names_fails::<R>(old(self)@, views, i as int);
                    }
                    return Err(e);
                },
            };
            let ghost before = variable_name_seq_view(out@);
            out.push(node);
            assert(variable_name_seq_view(out@) =~= before.push(node@));
            i = i + 1;
        }
        assert(views.take(i as int) =~= views);
        Ok(out)
    }

    /// Reduces the items of a list in order, up to the first failure.
    fn reduce_assignee_accesses(
        &mut self,
        items: &Vec<AssigneeAccess>,
    ) -> (r: Result<Vec<AssigneeAccess>, CanonicalizeError>)
        ensures
            (
                final(self)@,
                match r {
                    Ok(nodes) => Ok(assignee_access_seq_view(nodes@)),
                    Err(e) => Err(e),
                },
            ) == walk_assignee_accesses::<R>(old(self)@, assignee_access_seq_view(items@)),
        decreases items,
    {
        let mut out: Vec<AssigneeAccess> = Vec::new();
        let mut i: usize = 0;
        let ghost views = assignee_access_seq_view(items@);
        assert(views.take(0) =~= Seq::<AssigneeAccessView>::empty());
        assert(assignee_access_seq_view(out@) =~= Seq::<AssigneeAccessView>::empty());
        while i < items.len()
            invariant
                i <= items.len(),
                views == assignee_access_seq_view(items@),
                walk_assignee_accesses::<R>(old(self)@, views.take(i as int)) == (
                    self@,
                    Ok::<Seq<AssigneeAccessView>, CanonicalizeError>(
                        assignee_access_seq_view(out@),
                    ),
                ),
            decreases items.len() - i,
        {
            proof {
                assert(views.take(i + 1).drop_last() =~= views.take(i as int));
                assert(views.take(i + 1).last() == items[i as int]@);
            }
            let node = match self.reduce_assignee_access(&items[i]) {
                Ok(node) => node,
                Err(e) => {
                    proof {
                        lemma_walk_assignee_accesses_fails::<R>(old(self)@, views, i as int);
                    }
                    return Err(e);
                },
            };
            let ghost before = assignee_access_seq_view(out@);
            out.push(node);
            assert(assignee_access_seq_view(out@) =~= before.push(node@));
            i = i + 1;
        }
        assert(views.take(i as int) =~= views);
        Ok(out)
    }

    /// Reduces the items of a list in order, up to the first failure.
    fn reduce_statements(
        &mut self,
        items: &Vec<Statement>,
    ) -> (r: Result<Vec<Statement>, CanonicalizeError>)
        ensures
            (
                final(self)@,
                match r {
                    Ok(nodes) => Ok(statement_seq_view(nodes@)),
                    Err(e) => Err(e),
                },
            ) == walk_statements::<R>(old(self)@, statement_seq_view(items@)),
        decreases items,
    {
        let mut out: Vec<Statement> = Vec::new();
        let mut i: usize = 0;
        let ghost views = statement_seq_view(items@);
        assert(views.take(0) =~= Seq::<StatementView>::empty());
        assert(statement_seq_view(out@) =~= Seq::<StatementView>::empty());
        while i < items.len()
            invariant
                i <= items.len(),
                views == statement_seq_view(items@),
                walk_statements::<R>(old(self)@, views.take(i as int)) == (
                    self@,
                    Ok::<Seq<StatementView>, CanonicalizeError>(statement_seq_view(out@)),
                ),
            decreases items.len() - i,
        {
            proof {
                assert(views.take(i + 1).drop_last() =~= views.take(i as int));
                assert(views.take(i + 1).last() == items[i as int]@);
            }
            let node = match self.reduce_statement(&items[i]) {
                Ok(node) => node,
                Err(e) => {
                    proof {
                        lemma_walk_statements_fails::<R>(old(self)@, views, i as int);
                    }
                    return Err(e);
                },
            };
            let ghost before = statement_seq_view(out@);
            out.push(node);
            assert(statement_seq_view(out@) =~= before.push(node@));
            i = i + 1;
        }
        assert(views.take(i as int) =~= views);
        Ok(out)
    }

    /// Reduces the items of a list in order, up to the first failure.
    fn reduce_function_inputs(
        &mut self,
        items: &Vec<FunctionInput>,
    ) -> (r: Result<Vec<FunctionInput>, CanonicalizeError>)
        ensures
            (
                final(self)@,
                match r {
                    Ok(nodes) => Ok(function_input_seq_view(nodes@)),
                    Err(e) => Err(e),
                },
            ) == walk_function_inputs::<R>(old(self)@, function_input_seq_view(items@)),
        decreases items,
    {
        let mut out: Vec<FunctionInput> = Vec::new();
        let mut i: usize = 0;
        let ghost views = function_input_seq_view(items@);
        assert(views.take(0) =~= Seq::<FunctionInputView>::empty());
        assert(function_input_seq_view(out@) =~= Seq::<FunctionInputView>::empty());
        while i < items.len()
            invariant
                i <= items.len(),
                views == function_input_seq_view(items@),
                walk_function_inputs::<R>(old(self)@, views.take(i as int)) == (
                    self@,
                    Ok::<Seq<FunctionInputView>, CanonicalizeError>(function_input_seq_view(out@)),
                ),
            decreases items.len() - i,
        {
            proof {
                assert(views.take(i + 1).drop_last() =~= views.take(i as int));
                assert(views.take(i + 1).last() == items[i as int]@);
            }
            let node = match self.reduce_function_input(&items[i]) {
                Ok(node) => node,
                Err(e) => {
                    proof {
                        lemma_walk_function_inputs_fails::<R>(old(self)@, views, i as int);
                    }
                    return Err(e);
                },
            };
            let ghost before = function_input_seq_view(out@);
            out.push(node);
            assert(function_input_seq_view(out@) =~= before.push(node@));
            i = i + 1;
        }
        assert(views.take(i as int) =~= views);
        Ok(out)
    }

    /// Reduces the items of a list in order, up to the first failure.
    fn reduce_imports(
        &mut self,
        items: &Vec<ImportStatement>,
    ) -> (r: Result<Vec<ImportStatement>, CanonicalizeError>)
        ensures
            (
                final(self)@,
                match r {
                    Ok(nodes) => Ok(import_statement_seq_view(nodes@)),
                    Err(e) => Err(e),
                },
            ) == walk_imports::<R>(old(self)@, import_statement_seq_view(items@)),
        decreases items,
    {
        let mut out: Vec<ImportStatement> = Vec::new();
        let mut i: usize = 0;
        let ghost views = import_statement_seq_view(items@);
        assert(views.take(0) =~= Seq::<ImportStatementView>::empty());
        assert(import_statement_seq_view(out@) =~= Seq::<ImportStatementView>::empty());
        while i < items.len()
            invariant
                i <= items.len(),
                views == import_statement_seq_view(items@),
                walk_imports::<R>(old(self)@, views.take(i as int)) == (
                    self@,
                    Ok::<Seq<ImportStatementView>, CanonicalizeError>(
                        import_statement_seq_view(out@),
                    ),
                ),
            decreases items.len() - i,
        {
            proof {
                assert(views.take(i + 1).drop_last() =~= views.take(i as int));
                assert(views.take(i + 1).last() == items[i as int]@);
            }
            let node = match self.reduce_import(&items[i]) {
                Ok(node) => node,
                Err(e) => {
                    proof {
                        lemma_walk_imports_fails::<R>(old(self)@, views, i as int);
                    }
                    return Err(e);
                },
            };
            let ghost before = import_statement_seq_view(out@);
            out.push(node);
            assert(import_statement_seq_view(out@) =~= before.push(node@));
            i = i + 1;
        }
        assert(views.take(i as int) =~= views);
        Ok(out)
    }

    /// Reduces the items of a list in order, up to the first failure.
    fn reduce_circuit_members(
        &mut self,
        items: &Vec<CircuitMember>,
    ) -> (r: Result<Vec<CircuitMember>, CanonicalizeError>)
        ensures
            (
                final(self)@,
                match r {
                    Ok(nodes) => Ok(circuit_member_seq_view(nodes@)),
                    Err(e) => Err(e),
                },
            ) == walk_circuit_members::<R>(old(self)@, circuit_member_seq_view(items@)),
        decreases items,
    {
        let mut out: Vec<CircuitMember> = Vec::new();
        let mut i: usize = 0;
        let ghost views = circuit_member_seq_view(items@);
        assert(views.take(0) =~= Seq::<CircuitMemberView>::empty());
        assert(circuit_member_seq_view(out@) =~= Seq::<CircuitMemberView>::empty());
        while i < items.len()
            invariant
                i <= items.len(),
                views == circuit_member_seq_view(items@),
                walk_circuit_members::<R>(old(self)@, views.take(i as int)) == (
                    self@,
                    Ok::<Seq<CircuitMemberView>, CanonicalizeError>(circuit_member_seq_view(out@)),
                ),
            decreases items.len() - i,
        {
            proof {
                assert(views.take(i + 1).drop_last() =~= views.take(i as int));
                assert(views.take(i + 1).last() == items[i as int]@);
            }
            let node = match self.reduce_circuit_member(&items[i]) {
                Ok(node) => node,
                Err(e) => {
                    proof {
                        lemma_walk_circuit_members_fails::<R>(old(self)@, views, i as int);
                    }
                    return Err(e);
                },
            };
            let ghost before = circuit_member_seq_view(out@);
            out.push(node);
            assert(circuit_member_seq_view(out@) =~= before.push(node@));
            i = i + 1;
        }
        assert(views.take(i as int) =~= views);
        Ok(out)
    }

    /// Reduces the items of a list in order, up to the first failure.
    fn reduce_annotations(
        &mut self,
        items: &Vec<Annotation>,
    ) -> (r: Result<Vec<Annotation>, CanonicalizeError>)
        ensures
            (
                final(self)@,
                match r {
                    Ok(nodes) => Ok(annotation_seq_view(nodes@)),
                    Err(e) => Err(e),
                },
            ) == walk_annotations::<R>(old(self)@, annotation_seq_view(items@)),
        decreases items,
    {
        let mut out: Vec<Annotation> = Vec::new();
        let mut i: usize = 0;
        let ghost views = annotation_seq_view(items@);
        assert(views.take(0) =~= Seq::<AnnotationView>::empty());
        assert(annotation_seq_view(out@) =~= Seq::<AnnotationView>::empty());
        while i < items.len()
            invariant
                i <= items.len(),
                views == annotation_seq_view(items@),
                walk_annotations::<R>(old(self)@, views.take(i as int)) == (
                    self@,
                    Ok::<Seq<AnnotationView>, CanonicalizeError>(annotation_seq_view(out@)),
                ),
            decreases items.len() - i,
        {
            proof {
                assert(views.take(i + 1).drop_last() =~= views.take(i as int));
                assert(views.take(i + 1).last() == items[i as int]@);
            }
            let node = match self.reduce_annotation(&items[i]) {
                Ok(node) => node,
                Err(e) => {
                    proof {
                        lemma_walk_annotations_fails::<R>(old(self)@, views, i as int);
                    }
                    return Err(e);
                },
            };
            let ghost before = annotation_seq_view(out@);
            out.push(node);
            assert(annotation_seq_view(out@) =~= before.push(node@));
            i = i + 1;
        }
        assert(views.take(i as int) =~= views);
        Ok(out)
    }

    /// Reduces a program: its parts first, in order, then the program itself.
    pub fn reduce_program(&mut self, program: &Program) -> (r: Result<Program, CanonicalizeError>)
        ensures
            (final(self)@, reduced(r)) == walk_program::<R>(old(self)@, program@),
    {
        let expected_input = self.reduce_function_inputs(&program.expected_input)?;
        let imports = self.reduce_imports(&program.imports)?;
        let circuits = self.reduce_circuit_entries(&program.circuits)?;
        let functions = self.reduce_function_entries(&program.functions)?;
        self.reducer.reduce_program(program, expected_input, imports, circuits, functions)
    }

    /// Reduces the entries of a map of circuits in order, up to the first failure.
    fn reduce_circuit_entries(&mut self, map: &IndexMap<Identifier, Circuit>) -> (r: Result<
        IndexMap<Identifier, Circuit>,
        CanonicalizeError,
    >)
        ensures
            (
                final(self)@,
                match r {
                    Ok(nodes) => Ok(circuits_view(circuit_entries(nodes))),
                    Err(e) => Err(e),
                },
            ) == walk_circuit_entries::<R>(old(self)@, circuits_view(circuit_entries(*map))),
    {
        let mut out = circuits_new();
        let len = circuits_len(map);
        let mut i: usize = 0;
        let ghost views = circuits_view(circuit_entries(*map));
        assert(views.take(0) =~= Seq::<(IdentifierView, CircuitView)>::empty());
        assert(circuits_view(circuit_entries(out)) =~=
            Seq::<(IdentifierView, CircuitView)>::empty());
        while i < len
            invariant
                i <= len,
                len == circuit_entries(*map).len(),
                views == circuits_view(circuit_entries(*map)),
                walk_circuit_entries::<R>(old(self)@, views.take(i as int)) == (
                    self@,
                    Ok::<Seq<(IdentifierView, CircuitView)>, CanonicalizeError>(
                        circuits_view(circuit_entries(out)),
                    ),
                ),
            decreases len - i,
        {
            let (key, node) = circuits_get(map, i);
            proof {
                assert(views.take(i + 1).drop_last() =~= views.take(i as int));
                assert(views.take(i + 1).last() == (key@, node@));
            }
            let key = match self.reduce_identifier(key) {
                Ok(key) => key,
                Err(e) => {
                    proof {
                        lemma_walk_circuit_entries_fails::<R>(old(self)@, views, i as int);
                    }
                    return Err(e);
                },
            };
            let node = match self.reduce_circuit(node) {
                Ok(node) => node,
                Err(e) => {
                    proof {
                        lemma_walk_circuit_entries_fails::<R>(old(self)@, views, i as int);
                    }
                    return Err(e);
                },
            };
            circuits_insert(&mut out, key, node);
            i = i + 1;
        }
        assert(views.take(i as int) =~= views);
        Ok(out)
    }

    /// Reduces the entries of a map of functions in order, up to the first failure.
    fn reduce_function_entries(&mut self, map: &IndexMap<Identifier, Function>) -> (r: Result<
        IndexMap<Identifier, Function>,
        CanonicalizeError,
    >)
        ensures
            (
                final(self)@,
                match r {
                    Ok(nodes) => Ok(functions_view(function_entries(nodes))),
                    Err(e) => Err(e),
                },
            ) == walk_function_entries::<R>(old(self)@, functions_view(function_entries(*map))),
    {
        let mut out = functions_new();
        let len = functions_len(map);
        let mut i: usize = 0;
        let ghost views = functions_view(function_entries(*map));
        assert(views.take(0) =~= Seq::<(IdentifierView, FunctionView)>::empty());
        assert(functions_view(function_entries(out)) =~=
            Seq::<(IdentifierView, FunctionView)>::empty());
        while i < len
            invariant
                i <= len,
                len == function_entries(*map).len(),
                views == functions_view(function_entries(*map)),
                walk_function_entries::<R>(old(self)@, views.take(i as int)) == (
                    self@,
                    Ok::<Seq<(IdentifierView, FunctionView)>, CanonicalizeError>(
                        functions_view(function_entries(out)),
                    ),
                ),
            decreases len - i,
        {
            let (key, node) = functions_get(map, i);
            proof {
                assert(views.take(i + 1).drop_last() =~= views.take(i as int));
                assert(views.take(i + 1).last() == (key@, node@));
            }
            let key = match self.reduce_identifier(key) {
                Ok(key) => key,
                Err(e) => {
                    proof {
                        lemma_walk_function_entries_fails::<R>(old(self)@, views, i as int);
                    }
                    return Err(e);
                },
            };
            let node = match self.reduce_function(node) {
                Ok(node) => node,
                Err(e) => {
                    proof {
                        lemma_walk_function_entries_fails::<R>(old(self)@, views, i as int);
                    }
                    return Err(e);
                },
            };
            functions_insert(&mut out, key, node);
            i = i + 1;
        }
        assert(views.take(i as int) =~= views);
        Ok(out)
    }
}

} // verus!
