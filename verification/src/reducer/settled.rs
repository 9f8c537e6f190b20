//! The canonical form is settled: a second pass of the canonicalizer over it
//! changes nothing.
use crate::ast::common::{Identifier, IdentifierView};
use crate::ast::expression::{
    ArrayAccessExpressionView, ArrayInitExpressionView, ArrayInlineExpressionView,
    ArrayRangeAccessExpressionView, BinaryExpressionView, CallExpressionView, CastExpressionView,
    CircuitImpliedVariableDefinitionView, CircuitInitExpressionView,
    CircuitMemberAccessExpressionView, CircuitStaticFunctionAccessExpressionView, Expression,
    ExpressionView, GroupTupleView, GroupValueView, SpreadOrExpressionView, TernaryExpressionView,
    TupleAccessExpressionView, TupleInitExpressionView, UnaryExpressionView, ValueExpressionView,
};
use crate::ast::function::{
    AnnotationView, Circuit, CircuitMemberView, FunctionInputVariableView, FunctionInputView,
    FunctionView,
};
use crate::ast::imports::{ImportStatementView, Package, PackageOrPackagesView, Packages};
use crate::ast::statement::{
    AssigneeAccessView, AssigneeView, AssignStatementView, Block, BlockView,
    ConditionalStatementView, ConsoleFunctionView, ConsoleStatementView, DefinitionStatementView,
    ExpressionStatementView, IterationStatementView, ReturnStatementView, StatementView,
    VariableNameView,
};
use crate::ast::types::TypeView;
use crate::ast::statement::AssignOperation;
use crate::errors::CanonicalizeError;
use crate::reducer::canonicalization::{
    Canonicalizer, nested_init, place_expression, valid_dimensions,
};
use crate::reducer::reconstructing_director::{
    DirectorView, walk_annotation, walk_annotations, walk_array_access, walk_array_init,
    walk_array_inline, walk_array_range_access, walk_assign, walk_assignee, walk_assignee_access,
    walk_assignee_accesses, walk_binary, walk_block, walk_call, walk_cast,
    walk_circuit_implied_variable_definition, walk_circuit_implied_variable_definitions,
    walk_circuit_init, walk_circuit_member, walk_circuit_member_access, walk_circuit_members,
    walk_circuit_static_fn_access, walk_conditional, walk_console, walk_definition, walk_expression,
    walk_expression_statement, walk_expressions, walk_function, walk_function_input,
    walk_function_input_variable, walk_function_inputs, walk_group_tuple, walk_group_value,
    walk_identifier, walk_import, walk_imports, walk_iteration, walk_package_or_packages,
    walk_return, walk_spread_or_expression, walk_spread_or_expressions, walk_statement,
    walk_statements, walk_ternary, walk_tuple_access, walk_tuple_init, walk_type, walk_types,
    walk_unary, walk_value, walk_variable_name, walk_variable_names,
};
use crate::span::Span;
use vstd::prelude::*;

verus! {

/// An array type that the canonicalizer gives has dimensions, none of them of
/// size zero, and its element is no array.
pub proof fn lemma_array_shape(d: DirectorView<()>, type_: TypeView, span: Span)
    ensures
        walk_type::<Canonicalizer>(
            d,
            type_,
            span,
        ).1 matches Ok(TypeView::Array(element, dimensions))
            ==> valid_dimensions(dimensions) && !(*element is Array),
    decreases type_,
{
    match type_ {
        TypeView::Array(f0, f1) => {
            lemma_array_shape(d, *f0, span);
        },
        _ => {},
    }
}

/// Nested initialisers around a settled element are settled.
pub proof fn lemma_nested_init_settled(
    d: DirectorView<()>,
    element: ExpressionView,
    dimensions: Seq<usize>,
    span: Span,
)
    requires
        valid_dimensions(dimensions),
        walk_expression::<Canonicalizer>(d, element) == (
            d,
            Ok::<ExpressionView, CanonicalizeError>(element),
        ),
    ensures
        walk_array_init::<Canonicalizer>(d, nested_init(element, dimensions, span)) == (
            d,
            Ok::<ArrayInitExpressionView, CanonicalizeError>(
                nested_init(element, dimensions, span),
            ),
        ),
    decreases dimensions.len(),
{
    let node = nested_init(element, dimensions, span);
    if dimensions.len() > 1 {
        let rest = dimensions.subrange(1, dimensions.len() as int);
        assert(valid_dimensions(rest)) by {
            assert forall|i: int| 0 <= i < rest.len() implies rest[i] != 0 by {
                assert(rest[i] == dimensions[i + 1]);
            }
        }
        lemma_nested_init_settled(d, element, rest, span);
        assert(valid_dimensions(seq![dimensions[0]]));
        assert(node.dimensions.len() == 1);
        assert(nested_init(ExpressionView::ArrayInit(nested_init(element, rest, span)), node.dimensions, span)
            == node);
    } else {
        assert(nested_init(element, node.dimensions, span) == node);
    }
}

/// In a settled list of accesses each access is settled.
pub proof fn lemma_each_access_settled(
    d: DirectorView<()>,
    accesses: Seq<AssigneeAccessView>,
    count: int,
)
    requires
        0 <= count <= accesses.len(),
        walk_assignee_accesses::<Canonicalizer>(d, accesses.take(count)) == (
            d,
            Ok::<Seq<AssigneeAccessView>, CanonicalizeError>(accesses.take(count)),
        ),
    ensures
        forall|i: int|
            0 <= i < count ==> walk_assignee_access::<Canonicalizer>(d, #[trigger] accesses[i]) == (
                d,
                Ok::<AssigneeAccessView, CanonicalizeError>(accesses[i]),
            ),
    decreases count,
{
    if count > 0 {
        let prefix = accesses.take(count);
        assert(prefix.drop_last() =~= accesses.take(count - 1));
        assert(prefix.last() == accesses[count - 1]);
        lemma_settled_assignee_accesses(d, accesses.take(count - 1));
        lemma_settled_assignee_access(d, accesses[count - 1]);
        match walk_assignee_accesses::<Canonicalizer>(d, accesses.take(count - 1)).1 {
            Ok(done) => {
                let node = walk_assignee_access::<Canonicalizer>(d, accesses[count - 1]).1->Ok_0;
                assert(done.push(node) == prefix);
                assert(done =~= prefix.drop_last());
                assert(node == prefix.last());
                lemma_each_access_settled(d, accesses, count - 1);
            },
            Err(_) => {},
        }
    }
}

/// The expression that reads a settled place is settled.
pub proof fn lemma_place_settled(
    d: DirectorView<()>,
    base: ExpressionView,
    accesses: Seq<AssigneeAccessView>,
    span: Span,
)
    requires
        walk_expression::<Canonicalizer>(d, base) == (
            d,
            Ok::<ExpressionView, CanonicalizeError>(base),
        ),
        forall|i: int|
            0 <= i < accesses.len() ==> walk_assignee_access::<Canonicalizer>(
                d,
                #[trigger] accesses[i],
            ) == (d, Ok::<AssigneeAccessView, CanonicalizeError>(accesses[i])),
    ensures
        place_expression(base, accesses, span) matches Ok(place) ==> walk_expression::<
            Canonicalizer,
        >(d, place) == (d, Ok::<ExpressionView, CanonicalizeError>(place)),
    decreases accesses.len(),
{
    if accesses.len() > 0 {
        assert forall|i: int| 0 <= i < accesses.drop_last().len() implies walk_assignee_access::<
            Canonicalizer,
        >(d, #[trigger] accesses.drop_last()[i]) == (
            d,
            Ok::<AssigneeAccessView, CanonicalizeError>(accesses.drop_last()[i]),
        ) by {
            assert(accesses.drop_last()[i] == accesses[i]);
        }
        lemma_place_settled(d, base, accesses.drop_last(), span);
        assert(walk_assignee_access::<Canonicalizer>(d, accesses[accesses.len() - 1]) == (
            d,
            Ok::<AssigneeAccessView, CanonicalizeError>(accesses.last()),
        ));
        match place_expression(base, accesses.drop_last(), span) {
            Ok(inner) => {
                match accesses.last() {
                    AssigneeAccessView::ArrayIndex(index) => {
                        lemma_settled_expression(d, index);
                    },
                    AssigneeAccessView::Member(name) => {
                        lemma_settled_identifier(d, name);
                    },
                    _ => {},
                }
            },
            Err(_) => {},
        }
    }
}

/// What the canonicalizer gives for a type, a second pass leaves as it is.
pub proof fn lemma_settled_type(d: DirectorView<()>, type_: TypeView, span: Span)
    ensures
        walk_type::<Canonicalizer>(d, type_, span).1 matches Ok(settled) ==>
            walk_type::<Canonicalizer>(d, type_, span) == (
            d,
            Ok::<TypeView, CanonicalizeError>(settled),
        ) && walk_type::<Canonicalizer>(
            d,
            settled,
            span,
        ) == (d, Ok::<TypeView, CanonicalizeError>(settled)),
    decreases type_,
{
    match type_ {
        TypeView::Array(f0, f1) => {
            lemma_settled_type(d, *f0, span);
            lemma_array_shape(d, *f0, span);
            match walk_type::<Canonicalizer>(d, *f0, span).1 {
                Ok(element) => {
                    if valid_dimensions(f1) {
                        match element {
                            TypeView::Array(inner, inner_dimensions) => {
                                // the element is settled, so its own element is
                                lemma_array_shape(d, *inner, span);
                                assert(valid_dimensions(f1 + inner_dimensions));
                            },
                            _ => {},
                        }
                    }
                },
                Err(_) => {},
            }
        },
        TypeView::Tuple(f0) => {
            lemma_settled_types(d, f0, span);
        },
        TypeView::Circuit(f0) => {
            lemma_settled_identifier(d, f0);
        },
        _ => {},
    }
}

/// What the canonicalizer gives for an expression, a second pass leaves as it is.
pub proof fn lemma_settled_expression(d: DirectorView<()>, expression: ExpressionView)
    ensures
        walk_expression::<Canonicalizer>(d, expression).1 matches Ok(settled) ==>
            walk_expression::<Canonicalizer>(d, expression) == (
            d,
            Ok::<ExpressionView, CanonicalizeError>(settled),
        ) && walk_expression::<Canonicalizer>(
            d,
            settled,
        ) == (d, Ok::<ExpressionView, CanonicalizeError>(settled)),
    decreases expression,
{
    match expression {
        ExpressionView::Identifier(f0) => {
            lemma_settled_identifier(d, f0);
        },
        ExpressionView::Value(f0) => {
            lemma_settled_value(d, f0);
        },
        ExpressionView::Binary(f0) => {
            lemma_settled_binary(d, f0);
        },
        ExpressionView::Unary(f0) => {
            lemma_settled_unary(d, f0);
        },
        ExpressionView::Ternary(f0) => {
            lemma_settled_ternary(d, f0);
        },
        ExpressionView::Cast(f0) => {
            lemma_settled_cast(d, f0);
        },
        ExpressionView::ArrayInline(f0) => {
            lemma_settled_array_inline(d, f0);
        },
        ExpressionView::ArrayInit(f0) => {
            lemma_settled_array_init(d, f0);
        },
        ExpressionView::ArrayAccess(f0) => {
            lemma_settled_array_access(d, f0);
        },
        ExpressionView::ArrayRangeAccess(f0) => {
            lemma_settled_array_range_access(d, f0);
        },
        ExpressionView::TupleInit(f0) => {
            lemma_settled_tuple_init(d, f0);
        },
        ExpressionView::TupleAccess(f0) => {
            lemma_settled_tuple_access(d, f0);
        },
        ExpressionView::CircuitInit(f0) => {
            lemma_settled_circuit_init(d, f0);
        },
        ExpressionView::CircuitMemberAccess(f0) => {
            lemma_settled_circuit_member_access(d, f0);
        },
        ExpressionView::CircuitStaticFunctionAccess(f0) => {
            lemma_settled_circuit_static_fn_access(d, f0);
        },
        ExpressionView::Call(f0) => {
            lemma_settled_call(d, f0);
        },
    }
}

/// What the canonicalizer gives for an identifier, a second pass leaves as it is.
pub proof fn lemma_settled_identifier(d: DirectorView<()>, identifier: IdentifierView)
    ensures
        walk_identifier::<Canonicalizer>(d, identifier).1 matches Ok(settled) ==>
            walk_identifier::<Canonicalizer>(d, identifier) == (
            d,
            Ok::<IdentifierView, CanonicalizeError>(settled),
        ) && walk_identifier::<Canonicalizer>(
            d,
            settled,
        ) == (d, Ok::<IdentifierView, CanonicalizeError>(settled)),
    decreases identifier,
{
}

/// What the canonicalizer gives for a group tuple, a second pass leaves as it is.
pub proof fn lemma_settled_group_tuple(d: DirectorView<()>, group_tuple: GroupTupleView)
    ensures
        walk_group_tuple::<Canonicalizer>(d, group_tuple).1 matches Ok(settled) ==>
            walk_group_tuple::<Canonicalizer>(d, group_tuple) == (
            d,
            Ok::<GroupTupleView, CanonicalizeError>(settled),
        ) && walk_group_tuple::<Canonicalizer>(
            d,
            settled,
        ) == (d, Ok::<GroupTupleView, CanonicalizeError>(settled)),
    decreases group_tuple,
{
}

/// What the canonicalizer gives for a group value, a second pass leaves as it is.
pub proof fn lemma_settled_group_value(d: DirectorView<()>, group_value: GroupValueView)
    ensures
        walk_group_value::<Canonicalizer>(d, group_value).1 matches Ok(settled) ==>
            walk_group_value::<Canonicalizer>(d, group_value) == (
            d,
            Ok::<GroupValueView, CanonicalizeError>(settled),
        ) && walk_group_value::<Canonicalizer>(
            d,
            settled,
        ) == (d, Ok::<GroupValueView, CanonicalizeError>(settled)),
    decreases group_value,
{
    match group_value {
        GroupValueView::Tuple(f0) => {
            lemma_settled_group_tuple(d, f0);
        },
        _ => {},
    }
}

/// What the canonicalizer gives for a literal value, a second pass leaves as it is.
pub proof fn lemma_settled_value(d: DirectorView<()>, value: ValueExpressionView)
    ensures
        walk_value::<Canonicalizer>(d, value).1 matches Ok(settled) ==>
            walk_value::<Canonicalizer>(d, value) == (
            d,
            Ok::<ValueExpressionView, CanonicalizeError>(settled),
        ) && walk_value::<Canonicalizer>(
            d,
            settled,
        ) == (d, Ok::<ValueExpressionView, CanonicalizeError>(settled)),
    decreases value,
{
    match value {
        ValueExpressionView::Group(f0) => {
            lemma_settled_group_value(d, *f0);
        },
        _ => {},
    }
}

/// What the canonicalizer gives for a binary expression, a second pass leaves as it is.
pub proof fn lemma_settled_binary(d: DirectorView<()>, binary: BinaryExpressionView)
    ensures
        walk_binary::<Canonicalizer>(d, binary).1 matches Ok(settled) ==>
            walk_binary::<Canonicalizer>(d, binary) == (
            d,
            Ok::<BinaryExpressionView, CanonicalizeError>(settled),
        ) && walk_binary::<Canonicalizer>(
            d,
            settled,
        ) == (d, Ok::<BinaryExpressionView, CanonicalizeError>(settled)),
    decreases binary,
{
    lemma_settled_expression(d, *binary.left);
    lemma_settled_expression(d, *binary.right);
}

/// What the canonicalizer gives for a unary expression, a second pass leaves as it is.
pub proof fn lemma_settled_unary(d: DirectorView<()>, unary: UnaryExpressionView)
    ensures
        walk_unary::<Canonicalizer>(d, unary).1 matches Ok(settled) ==>
            walk_unary::<Canonicalizer>(d, unary) == (
            d,
            Ok::<UnaryExpressionView, CanonicalizeError>(settled),
        ) && walk_unary::<Canonicalizer>(
            d,
            settled,
        ) == (d, Ok::<UnaryExpressionView, CanonicalizeError>(settled)),
    decreases unary,
{
    lemma_settled_expression(d, *unary.inner);
}

/// What the canonicalizer gives for a ternary expression, a second pass leaves as it is.
pub proof fn lemma_settled_ternary(d: DirectorView<()>, ternary: TernaryExpressionView)
    ensures
        walk_ternary::<Canonicalizer>(d, ternary).1 matches Ok(settled) ==>
            walk_ternary::<Canonicalizer>(d, ternary) == (
            d,
            Ok::<TernaryExpressionView, CanonicalizeError>(settled),
        ) && walk_ternary::<Canonicalizer>(
            d,
            settled,
        ) == (d, Ok::<TernaryExpressionView, CanonicalizeError>(settled)),
    decreases ternary,
{
    lemma_settled_expression(d, *ternary.condition);
    lemma_settled_expression(d, *ternary.if_true);
    lemma_settled_expression(d, *ternary.if_false);
}

/// What the canonicalizer gives for a cast, a second pass leaves as it is.
pub proof fn lemma_settled_cast(d: DirectorView<()>, cast: CastExpressionView)
    ensures
        walk_cast::<Canonicalizer>(d, cast).1 matches Ok(settled) ==>
            walk_cast::<Canonicalizer>(d, cast) == (
            d,
            Ok::<CastExpressionView, CanonicalizeError>(settled),
        ) && walk_cast::<Canonicalizer>(
            d,
            settled,
        ) == (d, Ok::<CastExpressionView, CanonicalizeError>(settled)),
    decreases cast,
{
    lemma_settled_expression(d, *cast.inner);
    lemma_settled_type(d, cast.target_type, cast.span);
}

/// What the canonicalizer gives for an element of an inline array, a second pass leaves as it is.
pub proof fn lemma_settled_spread_or_expression(
    d: DirectorView<()>,
    element: SpreadOrExpressionView,
)
    ensures
        walk_spread_or_expression::<Canonicalizer>(d, element).1 matches Ok(settled) ==>
            walk_spread_or_expression::<Canonicalizer>(d, element) == (
            d,
            Ok::<SpreadOrExpressionView, CanonicalizeError>(settled),
        ) && walk_spread_or_expression::<Canonicalizer>(
            d,
            settled,
        ) == (d, Ok::<SpreadOrExpressionView, CanonicalizeError>(settled)),
    decreases element,
{
    match element {
        SpreadOrExpressionView::Spread(f0) => {
            lemma_settled_expression(d, f0);
        },
        SpreadOrExpressionView::Expression(f0) => {
            lemma_settled_expression(d, f0);
        },
    }
}

/// What the canonicalizer gives for an inline array, a second pass leaves as it is.
pub proof fn lemma_settled_array_inline(
    d: DirectorView<()>,
    array_inline: ArrayInlineExpressionView,
)
    ensures
        walk_array_inline::<Canonicalizer>(d, array_inline).1 matches Ok(settled) ==>
            walk_array_inline::<Canonicalizer>(d, array_inline) == (
            d,
            Ok::<ArrayInlineExpressionView, CanonicalizeError>(settled),
        ) && walk_array_inline::<Canonicalizer>(
            d,
            settled,
        ) == (d, Ok::<ArrayInlineExpressionView, CanonicalizeError>(settled)),
    decreases array_inline,
{
    lemma_settled_spread_or_expressions(d, array_inline.elements);
}

/// What the canonicalizer gives for an array initialiser, a second pass leaves as it is.
pub proof fn lemma_settled_array_init(d: DirectorView<()>, array_init: ArrayInitExpressionView)
    ensures
        walk_array_init::<Canonicalizer>(d, array_init).1 matches Ok(settled) ==>
            walk_array_init::<Canonicalizer>(d, array_init) == (
            d,
            Ok::<ArrayInitExpressionView, CanonicalizeError>(settled),
        ) && walk_array_init::<Canonicalizer>(
            d,
            settled,
        ) == (d, Ok::<ArrayInitExpressionView, CanonicalizeError>(settled)),
    decreases array_init,
{
    lemma_settled_expression(d, *array_init.element);
    match walk_expression::<Canonicalizer>(d, *array_init.element).1 {
        Ok(element) => {
            if valid_dimensions(array_init.dimensions) {
                lemma_nested_init_settled(d, element, array_init.dimensions, array_init.span);
            }
        },
        Err(_) => {},
    }
}

/// What the canonicalizer gives for an array access, a second pass leaves as it is.
pub proof fn lemma_settled_array_access(
    d: DirectorView<()>,
    array_access: ArrayAccessExpressionView,
)
    ensures
        walk_array_access::<Canonicalizer>(d, array_access).1 matches Ok(settled) ==>
            walk_array_access::<Canonicalizer>(d, array_access) == (
            d,
            Ok::<ArrayAccessExpressionView, CanonicalizeError>(settled),
        ) && walk_array_access::<Canonicalizer>(
            d,
            settled,
        ) == (d, Ok::<ArrayAccessExpressionView, CanonicalizeError>(settled)),
    decreases array_access,
{
    lemma_settled_expression(d, *array_access.array);
    lemma_settled_expression(d, *array_access.index);
}

/// What the canonicalizer gives for an array range access, a second pass leaves as it is.
pub proof fn lemma_settled_array_range_access(
    d: DirectorView<()>,
    array_range_access: ArrayRangeAccessExpressionView,
)
    ensures
        walk_array_range_access::<Canonicalizer>(d, array_range_access).1 matches Ok(settled) ==>
            walk_array_range_access::<Canonicalizer>(d, array_range_access) == (
            d,
            Ok::<ArrayRangeAccessExpressionView, CanonicalizeError>(settled),
        ) && walk_array_range_access::<Canonicalizer>(
            d,
            settled,
        ) == (d, Ok::<ArrayRangeAccessExpressionView, CanonicalizeError>(settled)),
    decreases array_range_access,
{
    lemma_settled_expression(d, *array_range_access.array);
    match array_range_access.left {
        Some(v) => {
            lemma_settled_expression(d, *v);
        },
        None => {},
    }
    match array_range_access.right {
        Some(v) => {
            lemma_settled_expression(d, *v);
        },
        None => {},
    }
}

/// What the canonicalizer gives for a tuple initialiser, a second pass leaves as it is.
pub proof fn lemma_settled_tuple_init(d: DirectorView<()>, tuple_init: TupleInitExpressionView)
    ensures
        walk_tuple_init::<Canonicalizer>(d, tuple_init).1 matches Ok(settled) ==>
            walk_tuple_init::<Canonicalizer>(d, tuple_init) == (
            d,
            Ok::<TupleInitExpressionView, CanonicalizeError>(settled),
        ) && walk_tuple_init::<Canonicalizer>(
            d,
            settled,
        ) == (d, Ok::<TupleInitExpressionView, CanonicalizeError>(settled)),
    decreases tuple_init,
{
    lemma_settled_expressions(d, tuple_init.elements);
}

/// What the canonicalizer gives for a tuple access, a second pass leaves as it is.
pub proof fn lemma_settled_tuple_access(
    d: DirectorView<()>,
    tuple_access: TupleAccessExpressionView,
)
    ensures
        walk_tuple_access::<Canonicalizer>(d, tuple_access).1 matches Ok(settled) ==>
            walk_tuple_access::<Canonicalizer>(d, tuple_access) == (
            d,
            Ok::<TupleAccessExpressionView, CanonicalizeError>(settled),
        ) && walk_tuple_access::<Canonicalizer>(
            d,
            settled,
        ) == (d, Ok::<TupleAccessExpressionView, CanonicalizeError>(settled)),
    decreases tuple_access,
{
    lemma_settled_expression(d, *tuple_access.tuple);
}

/// What the canonicalizer gives for a member of a circuit initialiser, a second pass leaves as it is.
pub proof fn lemma_settled_circuit_implied_variable_definition(
    d: DirectorView<()>,
    variable: CircuitImpliedVariableDefinitionView,
)
    ensures
        walk_circuit_implied_variable_definition::<Canonicalizer>(d, variable).1 matches Ok(settled) ==>
            walk_circuit_implied_variable_definition::<Canonicalizer>(d, variable) == (
            d,
            Ok::<CircuitImpliedVariableDefinitionView, CanonicalizeError>(settled),
        ) && walk_circuit_implied_variable_definition::<Canonicalizer>(
            d,
            settled,
        ) == (d, Ok::<CircuitImpliedVariableDefinitionView, CanonicalizeError>(settled)),
    decreases variable,
{
    lemma_settled_identifier(d, variable.identifier);
    match variable.expression {
        Some(v) => {
            lemma_settled_expression(d, v);
        },
        None => {},
    }
}

/// What the canonicalizer gives for a circuit initialiser, a second pass leaves as it is.
pub proof fn lemma_settled_circuit_init(
    d: DirectorView<()>,
    circuit_init: CircuitInitExpressionView,
)
    ensures
        walk_circuit_init::<Canonicalizer>(d, circuit_init).1 matches Ok(settled) ==>
            walk_circuit_init::<Canonicalizer>(d, circuit_init) == (
            d,
            Ok::<CircuitInitExpressionView, CanonicalizeError>(settled),
        ) && walk_circuit_init::<Canonicalizer>(
            d,
            settled,
        ) == (d, Ok::<CircuitInitExpressionView, CanonicalizeError>(settled)),
    decreases circuit_init,
{
    lemma_settled_identifier(d, circuit_init.name);
    lemma_settled_circuit_implied_variable_definitions(d, circuit_init.members);
}

/// What the canonicalizer gives for a circuit member access, a second pass leaves as it is.
pub proof fn lemma_settled_circuit_member_access(
    d: DirectorView<()>,
    circuit_member_access: CircuitMemberAccessExpressionView,
)
    ensures
        walk_circuit_member_access::<Canonicalizer>(d, circuit_member_access).1 matches Ok(settled) ==>
            walk_circuit_member_access::<Canonicalizer>(d, circuit_member_access) == (
            d,
            Ok::<CircuitMemberAccessExpressionView, CanonicalizeError>(settled),
        ) && walk_circuit_member_access::<Canonicalizer>(
            d,
            settled,
        ) == (d, Ok::<CircuitMemberAccessExpressionView, CanonicalizeError>(settled)),
    decreases circuit_member_access,
{
    lemma_settled_expression(d, *circuit_member_access.circuit);
    lemma_settled_identifier(d, circuit_member_access.name);
}

/// What the canonicalizer gives for a static function access, a second pass leaves as it is.
pub proof fn lemma_settled_circuit_static_fn_access(
    d: DirectorView<()>,
    circuit_static_fn_access: CircuitStaticFunctionAccessExpressionView,
)
    ensures
        walk_circuit_static_fn_access::<Canonicalizer>(d, circuit_static_fn_access).1 matches Ok(settled) ==>
            walk_circuit_static_fn_access::<Canonicalizer>(d, circuit_static_fn_access) == (
            d,
            Ok::<CircuitStaticFunctionAccessExpressionView, CanonicalizeError>(settled),
        ) && walk_circuit_static_fn_access::<Canonicalizer>(
            d,
            settled,
        ) == (d, Ok::<CircuitStaticFunctionAccessExpressionView, CanonicalizeError>(settled)),
    decreases circuit_static_fn_access,
{
    lemma_settled_expression(d, *circuit_static_fn_access.circuit);
    lemma_settled_identifier(d, circuit_static_fn_access.name);
}

/// What the canonicalizer gives for a call, a second pass leaves as it is.
pub proof fn lemma_settled_call(d: DirectorView<()>, call: CallExpressionView)
    ensures
        walk_call::<Canonicalizer>(d, call).1 matches Ok(settled) ==>
            walk_call::<Canonicalizer>(d, call) == (
            d,
            Ok::<CallExpressionView, CanonicalizeError>(settled),
        ) && walk_call::<Canonicalizer>(
            d,
            settled,
        ) == (d, Ok::<CallExpressionView, CanonicalizeError>(settled)),
    decreases call,
{
    lemma_settled_expression(d, *call.function);
    lemma_settled_expressions(d, call.arguments);
}

/// What the canonicalizer gives for a statement, a second pass leaves as it is.
pub proof fn lemma_settled_statement(d: DirectorView<()>, statement: StatementView)
    ensures
        walk_statement::<Canonicalizer>(d, statement).1 matches Ok(settled) ==>
            walk_statement::<Canonicalizer>(d, statement) == (
            d,
            Ok::<StatementView, CanonicalizeError>(settled),
        ) && walk_statement::<Canonicalizer>(
            d,
            settled,
        ) == (d, Ok::<StatementView, CanonicalizeError>(settled)),
    decreases statement,
{
    match statement {
        StatementView::Return(f0) => {
            lemma_settled_return(d, f0);
        },
        StatementView::Definition(f0) => {
            lemma_settled_definition(d, f0);
        },
        StatementView::Assign(f0) => {
            lemma_settled_assign(d, f0);
        },
        StatementView::Conditional(f0) => {
            lemma_settled_conditional(d, f0);
        },
        StatementView::Iteration(f0) => {
            lemma_settled_iteration(d, f0);
        },
        StatementView::Console(f0) => {
            lemma_settled_console(d, f0);
        },
        StatementView::Expression(f0) => {
            lemma_settled_expression_statement(d, f0);
        },
        StatementView::Block(f0) => {
            lemma_settled_block(d, f0);
        },
    }
}

/// What the canonicalizer gives for a return, a second pass leaves as it is.
pub proof fn lemma_settled_return(d: DirectorView<()>, return_statement: ReturnStatementView)
    ensures
        walk_return::<Canonicalizer>(d, return_statement).1 matches Ok(settled) ==>
            walk_return::<Canonicalizer>(d, return_statement) == (
            d,
            Ok::<ReturnStatementView, CanonicalizeError>(settled),
        ) && walk_return::<Canonicalizer>(
            d,
            settled,
        ) == (d, Ok::<ReturnStatementView, CanonicalizeError>(settled)),
    decreases return_statement,
{
    lemma_settled_expression(d, return_statement.expression);
}

/// What the canonicalizer gives for a variable name, a second pass leaves as it is.
pub proof fn lemma_settled_variable_name(d: DirectorView<()>, variable_name: VariableNameView)
    ensures
        walk_variable_name::<Canonicalizer>(d, variable_name).1 matches Ok(settled) ==>
            walk_variable_name::<Canonicalizer>(d, variable_name) == (
            d,
            Ok::<VariableNameView, CanonicalizeError>(settled),
        ) && walk_variable_name::<Canonicalizer>(
            d,
            settled,
        ) == (d, Ok::<VariableNameView, CanonicalizeError>(settled)),
    decreases variable_name,
{
    lemma_settled_identifier(d, variable_name.identifier);
}

/// What the canonicalizer gives for a definition, a second pass leaves as it is.
pub proof fn lemma_settled_definition(d: DirectorView<()>, definition: DefinitionStatementView)
    ensures
        walk_definition::<Canonicalizer>(d, definition).1 matches Ok(settled) ==>
            walk_definition::<Canonicalizer>(d, definition) == (
            d,
            Ok::<DefinitionStatementView, CanonicalizeError>(settled),
        ) && walk_definition::<Canonicalizer>(
            d,
            settled,
        ) == (d, Ok::<DefinitionStatementView, CanonicalizeError>(settled)),
    decreases definition,
{
    lemma_settled_variable_names(d, definition.variable_names);
    match definition.type_ {
        Some(v) => {
            lemma_settled_type(d, v, definition.span);
        },
        None => {},
    }
    lemma_settled_expression(d, definition.value);
}

/// What the canonicalizer gives for an assignee access, a second pass leaves as it is.
pub proof fn lemma_settled_assignee_access(d: DirectorView<()>, access: AssigneeAccessView)
    ensures
        walk_assignee_access::<Canonicalizer>(d, access).1 matches Ok(settled) ==>
            walk_assignee_access::<Canonicalizer>(d, access) == (
            d,
            Ok::<AssigneeAccessView, CanonicalizeError>(settled),
        ) && walk_assignee_access::<Canonicalizer>(
            d,
            settled,
        ) == (d, Ok::<AssigneeAccessView, CanonicalizeError>(settled)),
    decreases access,
{
    match access {
        AssigneeAccessView::ArrayRange(f0, f1) => {
            match f0 {
                Some(v) => {
                    lemma_settled_expression(d, v);
                },
                None => {},
            }
            match f1 {
                Some(v) => {
                    lemma_settled_expression(d, v);
                },
                None => {},
            }
        },
        AssigneeAccessView::ArrayIndex(f0) => {
            lemma_settled_expression(d, f0);
        },
        AssigneeAccessView::Member(f0) => {
            lemma_settled_identifier(d, f0);
        },
        _ => {},
    }
}

/// What the canonicalizer gives for an assignee, a second pass leaves as it is.
pub proof fn lemma_settled_assignee(d: DirectorView<()>, assignee: AssigneeView)
    ensures
        walk_assignee::<Canonicalizer>(d, assignee).1 matches Ok(settled) ==>
            walk_assignee::<Canonicalizer>(d, assignee) == (
            d,
            Ok::<AssigneeView, CanonicalizeError>(settled),
        ) && walk_assignee::<Canonicalizer>(
            d,
            settled,
        ) == (d, Ok::<AssigneeView, CanonicalizeError>(settled)),
    decreases assignee,
{
    lemma_settled_identifier(d, assignee.identifier);
    lemma_settled_assignee_accesses(d, assignee.accesses);
}

/// What the canonicalizer gives for an assignment, a second pass leaves as it is.
pub proof fn lemma_settled_assign(d: DirectorView<()>, assign: AssignStatementView)
    ensures
        walk_assign::<Canonicalizer>(d, assign).1 matches Ok(settled) ==>
            walk_assign::<Canonicalizer>(d, assign) == (
            d,
            Ok::<AssignStatementView, CanonicalizeError>(settled),
        ) && walk_assign::<Canonicalizer>(
            d,
            settled,
        ) == (d, Ok::<AssignStatementView, CanonicalizeError>(settled)),
    decreases assign,
{
    lemma_settled_assignee(d, assign.assignee);
    lemma_settled_expression(d, assign.value);
    match (
        walk_assignee::<Canonicalizer>(d, assign.assignee).1,
        walk_expression::<Canonicalizer>(d, assign.value).1,
    ) {
        (Ok(assignee), Ok(value)) => {
            if assign.operation != AssignOperation::Assign {
                lemma_settled_identifier(d, assignee.identifier);
                lemma_settled_assignee_accesses(d, assign.assignee.accesses);
                assert(walk_assignee_accesses::<Canonicalizer>(d, assignee.accesses) == (
                    d,
                    Ok::<Seq<AssigneeAccessView>, CanonicalizeError>(assignee.accesses),
                ));
                assert(assignee.accesses.take(assignee.accesses.len() as int) =~=
                    assignee.accesses);
                lemma_each_access_settled(d, assignee.accesses, assignee.accesses.len() as int);
                lemma_place_settled(
                    d,
                    ExpressionView::Identifier(assignee.identifier),
                    assignee.accesses,
                    assign.span,
                );
            }
        },
        _ => {},
    }
}

/// What the canonicalizer gives for a conditional, a second pass leaves as it is.
pub proof fn lemma_settled_conditional(d: DirectorView<()>, conditional: ConditionalStatementView)
    ensures
        walk_conditional::<Canonicalizer>(d, conditional).1 matches Ok(settled) ==>
            walk_conditional::<Canonicalizer>(d, conditional) == (
            d,
            Ok::<ConditionalStatementView, CanonicalizeError>(settled),
        ) && walk_conditional::<Canonicalizer>(
            d,
            settled,
        ) == (d, Ok::<ConditionalStatementView, CanonicalizeError>(settled)),
    decreases conditional,
{
    lemma_settled_expression(d, conditional.condition);
    lemma_settled_block(d, conditional.block);
    match conditional.next {
        Some(v) => {
            lemma_settled_statement(d, *v);
        },
        None => {},
    }
}

/// What the canonicalizer gives for a loop, a second pass leaves as it is.
pub proof fn lemma_settled_iteration(d: DirectorView<()>, iteration: IterationStatementView)
    ensures
        walk_iteration::<Canonicalizer>(d, iteration).1 matches Ok(settled) ==>
            walk_iteration::<Canonicalizer>(d, iteration) == (
            d,
            Ok::<IterationStatementView, CanonicalizeError>(settled),
        ) && walk_iteration::<Canonicalizer>(
            d,
            settled,
        ) == (d, Ok::<IterationStatementView, CanonicalizeError>(settled)),
    decreases iteration,
{
    lemma_settled_identifier(d, iteration.variable);
    lemma_settled_expression(d, iteration.start);
    lemma_settled_expression(d, iteration.stop);
    lemma_settled_block(d, iteration.block);
}

/// What the canonicalizer gives for a console statement, a second pass leaves as it is.
pub proof fn lemma_settled_console(d: DirectorView<()>, console_function_call: ConsoleStatementView)
    ensures
        walk_console::<Canonicalizer>(d, console_function_call).1 matches Ok(settled) ==>
            walk_console::<Canonicalizer>(d, console_function_call) == (
            d,
            Ok::<ConsoleStatementView, CanonicalizeError>(settled),
        ) && walk_console::<Canonicalizer>(
            d,
            settled,
        ) == (d, Ok::<ConsoleStatementView, CanonicalizeError>(settled)),
    decreases console_function_call,
{
    match console_function_call.function {
        ConsoleFunctionView::Assert(f0) => {
            lemma_settled_expression(d, f0);
        },
        ConsoleFunctionView::Debug(f0) => {
            lemma_settled_expressions(d, f0.parameters);
        },
        ConsoleFunctionView::Error(f0) => {
            lemma_settled_expressions(d, f0.parameters);
        },
        ConsoleFunctionView::Log(f0) => {
            lemma_settled_expressions(d, f0.parameters);
        },
    }
}

/// What the canonicalizer gives for an expression statement, a second pass leaves as it is.
pub proof fn lemma_settled_expression_statement(
    d: DirectorView<()>,
    expression_statement: ExpressionStatementView,
)
    ensures
        walk_expression_statement::<Canonicalizer>(d, expression_statement).1 matches Ok(settled) ==>
            walk_expression_statement::<Canonicalizer>(d, expression_statement) == (
            d,
            Ok::<ExpressionStatementView, CanonicalizeError>(settled),
        ) && walk_expression_statement::<Canonicalizer>(
            d,
            settled,
        ) == (d, Ok::<ExpressionStatementView, CanonicalizeError>(settled)),
    decreases expression_statement,
{
    lemma_settled_expression(d, expression_statement.expression);
}

/// What the canonicalizer gives for a block, a second pass leaves as it is.
pub proof fn lemma_settled_block(d: DirectorView<()>, block: BlockView)
    ensures
        walk_block::<Canonicalizer>(d, block).1 matches Ok(settled) ==>
            walk_block::<Canonicalizer>(d, block) == (
            d,
            Ok::<BlockView, CanonicalizeError>(settled),
        ) && walk_block::<Canonicalizer>(
            d,
            settled,
        ) == (d, Ok::<BlockView, CanonicalizeError>(settled)),
    decreases block,
{
    lemma_settled_statements(d, block.statements);
}

/// What the canonicalizer gives for an input variable of a function, a second pass leaves as it is.
pub proof fn lemma_settled_function_input_variable(
    d: DirectorView<()>,
    variable: FunctionInputVariableView,
)
    ensures
        walk_function_input_variable::<Canonicalizer>(d, variable).1 matches Ok(settled) ==>
            walk_function_input_variable::<Canonicalizer>(d, variable) == (
            d,
            Ok::<FunctionInputVariableView, CanonicalizeError>(settled),
        ) && walk_function_input_variable::<Canonicalizer>(
            d,
            settled,
        ) == (d, Ok::<FunctionInputVariableView, CanonicalizeError>(settled)),
    decreases variable,
{
    lemma_settled_identifier(d, variable.identifier);
    lemma_settled_type(d, variable.type_, variable.span);
}

/// What the canonicalizer gives for an input of a function, a second pass leaves as it is.
pub proof fn lemma_settled_function_input(d: DirectorView<()>, input: FunctionInputView)
    ensures
        walk_function_input::<Canonicalizer>(d, input).1 matches Ok(settled) ==>
            walk_function_input::<Canonicalizer>(d, input) == (
            d,
            Ok::<FunctionInputView, CanonicalizeError>(settled),
        ) && walk_function_input::<Canonicalizer>(
            d,
            settled,
        ) == (d, Ok::<FunctionInputView, CanonicalizeError>(settled)),
    decreases input,
{
    match input {
        FunctionInputView::Variable(f0) => {
            lemma_settled_function_input_variable(d, f0);
        },
        _ => {},
    }
}

/// What the canonicalizer gives for the package of an import, a second pass leaves as it is.
pub proof fn lemma_settled_package_or_packages(
    d: DirectorView<()>,
    package_or_packages: PackageOrPackagesView,
)
    ensures
        walk_package_or_packages::<Canonicalizer>(d, package_or_packages).1 matches Ok(settled) ==>
            walk_package_or_packages::<Canonicalizer>(d, package_or_packages) == (
            d,
            Ok::<PackageOrPackagesView, CanonicalizeError>(settled),
        ) && walk_package_or_packages::<Canonicalizer>(
            d,
            settled,
        ) == (d, Ok::<PackageOrPackagesView, CanonicalizeError>(settled)),
    decreases package_or_packages,
{
    match package_or_packages {
        PackageOrPackagesView::Package(f0) => {
            lemma_settled_identifier(d, f0.name);
        },
        PackageOrPackagesView::Packages(f0) => {
            lemma_settled_identifier(d, f0.name);
        },
    }
}

/// What the canonicalizer gives for an import, a second pass leaves as it is.
pub proof fn lemma_settled_import(d: DirectorView<()>, import: ImportStatementView)
    ensures
        walk_import::<Canonicalizer>(d, import).1 matches Ok(settled) ==>
            walk_import::<Canonicalizer>(d, import) == (
            d,
            Ok::<ImportStatementView, CanonicalizeError>(settled),
        ) && walk_import::<Canonicalizer>(
            d,
            settled,
        ) == (d, Ok::<ImportStatementView, CanonicalizeError>(settled)),
    decreases import,
{
    lemma_settled_package_or_packages(d, import.package_or_packages);
}

/// What the canonicalizer gives for a member of a circuit, a second pass leaves as it is.
pub proof fn lemma_settled_circuit_member(d: DirectorView<()>, circuit_member: CircuitMemberView)
    ensures
        walk_circuit_member::<Canonicalizer>(d, circuit_member).1 matches Ok(settled) ==>
            walk_circuit_member::<Canonicalizer>(d, circuit_member) == (
            d,
            Ok::<CircuitMemberView, CanonicalizeError>(settled),
        ) && walk_circuit_member::<Canonicalizer>(
            d,
            settled,
        ) == (d, Ok::<CircuitMemberView, CanonicalizeError>(settled)),
    decreases circuit_member,
{
    let inner = DirectorView { reducer: d.reducer, in_circuit: !d.in_circuit };
    match circuit_member {
        CircuitMemberView::CircuitVariable(f0, f1) => {
            lemma_settled_identifier(inner, f0);
            lemma_settled_type(inner, f1, f0.span);
        },
        CircuitMemberView::CircuitFunction(f0) => {
            lemma_settled_function(inner, f0);
        },
    }
}

/// What the canonicalizer gives for an annotation, a second pass leaves as it is.
pub proof fn lemma_settled_annotation(d: DirectorView<()>, annotation: AnnotationView)
    ensures
        walk_annotation::<Canonicalizer>(d, annotation).1 matches Ok(settled) ==>
            walk_annotation::<Canonicalizer>(d, annotation) == (
            d,
            Ok::<AnnotationView, CanonicalizeError>(settled),
        ) && walk_annotation::<Canonicalizer>(
            d,
            settled,
        ) == (d, Ok::<AnnotationView, CanonicalizeError>(settled)),
    decreases annotation,
{
    lemma_settled_identifier(d, annotation.name);
}

/// What the canonicalizer gives for a function, a second pass leaves as it is.
pub proof fn lemma_settled_function(d: DirectorView<()>, function: FunctionView)
    ensures
        walk_function::<Canonicalizer>(d, function).1 matches Ok(settled) ==>
            walk_function::<Canonicalizer>(d, function) == (
            d,
            Ok::<FunctionView, CanonicalizeError>(settled),
        ) && walk_function::<Canonicalizer>(
            d,
            settled,
        ) == (d, Ok::<FunctionView, CanonicalizeError>(settled)),
    decreases function,
{
    lemma_settled_identifier(d, function.identifier);
    lemma_settled_annotations(d, function.annotations);
    lemma_settled_function_inputs(d, function.input);
    match function.output {
        Some(v) => {
            lemma_settled_type(d, v, function.span);
        },
        None => {},
    }
    lemma_settled_block(d, function.block);
}

/// What the canonicalizer gives for a list, a second pass leaves as it is.
pub proof fn lemma_settled_types(d: DirectorView<()>, items: Seq<TypeView>, span: Span)
    ensures
        walk_types::<Canonicalizer>(d, items, span).1 matches Ok(settled) ==>
            walk_types::<Canonicalizer>(d, items, span) == (
            d,
            Ok::<Seq<TypeView>, CanonicalizeError>(settled),
        ) && walk_types::<Canonicalizer>(
            d,
            settled,
            span,
        ) == (d, Ok::<Seq<TypeView>, CanonicalizeError>(settled)),
    decreases items,
{
    if items.len() > 0 {
        lemma_settled_types(d, items.drop_last(), span);
        lemma_settled_type(d, items.last(), span);
        match walk_types::<Canonicalizer>(d, items, span).1 {
            Ok(settled) => {
                let done = walk_types::<Canonicalizer>(d, items.drop_last(), span).1->Ok_0;
                let node = walk_type::<Canonicalizer>(d, items.last(), span).1->Ok_0;
                assert(settled == done.push(node));
                assert(settled.drop_last() =~= done);
                assert(settled.last() == node);
            },
            Err(_) => {},
        }
    }
}

/// What the canonicalizer gives for a list, a second pass leaves as it is.
pub proof fn lemma_settled_spread_or_expressions(
    d: DirectorView<()>,
    items: Seq<SpreadOrExpressionView>,
)
    ensures
        walk_spread_or_expressions::<Canonicalizer>(d, items).1 matches Ok(settled) ==>
            walk_spread_or_expressions::<Canonicalizer>(d, items) == (
            d,
            Ok::<Seq<SpreadOrExpressionView>, CanonicalizeError>(settled),
        ) && walk_spread_or_expressions::<Canonicalizer>(
            d,
            settled,
        ) == (d, Ok::<Seq<SpreadOrExpressionView>, CanonicalizeError>(settled)),
    decreases items,
{
    if items.len() > 0 {
        lemma_settled_spread_or_expressions(d, items.drop_last());
        lemma_settled_spread_or_expression(d, items.last());
        match walk_spread_or_expressions::<Canonicalizer>(d, items).1 {
            Ok(settled) => {
                let done = walk_spread_or_expressions::<Canonicalizer>(
                    d,
                    items.drop_last(),
                ).1->Ok_0;
                let node = walk_spread_or_expression::<Canonicalizer>(d, items.last()).1->Ok_0;
                assert(settled == done.push(node));
                assert(settled.drop_last() =~= done);
                assert(settled.last() == node);
            },
            Err(_) => {},
        }
    }
}

/// What the canonicalizer gives for a list, a second pass leaves as it is.
pub proof fn lemma_settled_expressions(d: DirectorView<()>, items: Seq<ExpressionView>)
    ensures
        walk_expressions::<Canonicalizer>(d, items).1 matches Ok(settled) ==>
            walk_expressions::<Canonicalizer>(d, items) == (
            d,
            Ok::<Seq<ExpressionView>, CanonicalizeError>(settled),
        ) && walk_expressions::<Canonicalizer>(
            d,
            settled,
        ) == (d, Ok::<Seq<ExpressionView>, CanonicalizeError>(settled)),
    decreases items,
{
    if items.len() > 0 {
        lemma_settled_expressions(d, items.drop_last());
        lemma_settled_expression(d, items.last());
        match walk_expressions::<Canonicalizer>(d, items).1 {
            Ok(settled) => {
                let done = walk_expressions::<Canonicalizer>(d, items.drop_last()).1->Ok_0;
                let node = walk_expression::<Canonicalizer>(d, items.last()).1->Ok_0;
                assert(settled == done.push(node));
                assert(settled.drop_last() =~= done);
                assert(settled.last() == node);
            },
            Err(_) => {},
        }
    }
}

/// What the canonicalizer gives for a list, a second pass leaves as it is.
pub proof fn lemma_settled_circuit_implied_variable_definitions(
    d: DirectorView<()>,
    items: Seq<CircuitImpliedVariableDefinitionView>,
)
    ensures
        walk_circuit_implied_variable_definitions::<Canonicalizer>(d, items).1 matches Ok(settled) ==>
            walk_circuit_implied_variable_definitions::<Canonicalizer>(d, items) == (
            d,
            Ok::<Seq<CircuitImpliedVariableDefinitionView>, CanonicalizeError>(settled),
        ) && walk_circuit_implied_variable_definitions::<Canonicalizer>(
            d,
            settled,
        ) == (d, Ok::<Seq<CircuitImpliedVariableDefinitionView>, CanonicalizeError>(settled)),
    decreases items,
{
    if items.len() > 0 {
        lemma_settled_circuit_implied_variable_definitions(d, items.drop_last());
        lemma_settled_circuit_implied_variable_definition(d, items.last());
        match walk_circuit_implied_variable_definitions::<Canonicalizer>(d, items).1 {
            Ok(settled) => {
                let done = walk_circuit_implied_variable_definitions::<Canonicalizer>(
                    d,
                    items.drop_last(),
                ).1->Ok_0;
                let node = walk_circuit_implied_variable_definition::<Canonicalizer>(
                    d,
                    items.last(),
                ).1->Ok_0;
                assert(settled == done.push(node));
                assert(settled.drop_last() =~= done);
                assert(settled.last() == node);
            },
            Err(_) => {},
        }
    }
}

/// What the canonicalizer gives for a list, a second pass leaves as it is.
pub proof fn lemma_settled_variable_names(d: DirectorView<()>, items: Seq<VariableNameView>)
    ensures
        walk_variable_names::<Canonicalizer>(d, items).1 matches Ok(settled) ==>
            walk_variable_names::<Canonicalizer>(d, items) == (
            d,
            Ok::<Seq<VariableNameView>, CanonicalizeError>(settled),
        ) && walk_variable_names::<Canonicalizer>(
            d,
            settled,
        ) == (d, Ok::<Seq<VariableNameView>, CanonicalizeError>(settled)),
    decreases items,
{
    if items.len() > 0 {
        lemma_settled_variable_names(d, items.drop_last());
        lemma_settled_variable_name(d, items.last());
        match walk_variable_names::<Canonicalizer>(d, items).1 {
            Ok(settled) => {
                let done = walk_variable_names::<Canonicalizer>(d, items.drop_last()).1->Ok_0;
                let node = walk_variable_name::<Canonicalizer>(d, items.last()).1->Ok_0;
                assert(settled == done.push(node));
                assert(settled.drop_last() =~= done);
                assert(settled.last() == node);
            },
            Err(_) => {},
        }
    }
}

/// What the canonicalizer gives for a list, a second pass leaves as it is.
pub proof fn lemma_settled_assignee_accesses(d: DirectorView<()>, items: Seq<AssigneeAccessView>)
    ensures
        walk_assignee_accesses::<Canonicalizer>(d, items).1 matches Ok(settled) ==>
            walk_assignee_accesses::<Canonicalizer>(d, items) == (
            d,
            Ok::<Seq<AssigneeAccessView>, CanonicalizeError>(settled),
        ) && walk_assignee_accesses::<Canonicalizer>(
            d,
            settled,
        ) == (d, Ok::<Seq<AssigneeAccessView>, CanonicalizeError>(settled)),
    decreases items,
{
    if items.len() > 0 {
        lemma_settled_assignee_accesses(d, items.drop_last());
        lemma_settled_assignee_access(d, items.last());
        match walk_assignee_accesses::<Canonicalizer>(d, items).1 {
            Ok(settled) => {
                let done = walk_assignee_accesses::<Canonicalizer>(d, items.drop_last()).1->Ok_0;
                let node = walk_assignee_access::<Canonicalizer>(d, items.last()).1->Ok_0;
                assert(settled == done.push(node));
                assert(settled.drop_last() =~= done);
                assert(settled.last() == node);
            },
            Err(_) => {},
        }
    }
}

/// What the canonicalizer gives for a list, a second pass leaves as it is.
pub proof fn lemma_settled_statements(d: DirectorView<()>, items: Seq<StatementView>)
    ensures
        walk_statements::<Canonicalizer>(d, items).1 matches Ok(settled) ==>
            walk_statements::<Canonicalizer>(d, items) == (
            d,
            Ok::<Seq<StatementView>, CanonicalizeError>(settled),
        ) && walk_statements::<Canonicalizer>(
            d,
            settled,
        ) == (d, Ok::<Seq<StatementView>, CanonicalizeError>(settled)),
    decreases items,
{
    if items.len() > 0 {
        lemma_settled_statements(d, items.drop_last());
        lemma_settled_statement(d, items.last());
        match walk_statements::<Canonicalizer>(d, items).1 {
            Ok(settled) => {
                let done = walk_statements::<Canonicalizer>(d, items.drop_last()).1->Ok_0;
                let node = walk_statement::<Canonicalizer>(d, items.last()).1->Ok_0;
                assert(settled == done.push(node));
                assert(settled.drop_last() =~= done);
                assert(settled.last() == node);
            },
            Err(_) => {},
        }
    }
}

/// What the canonicalizer gives for a list, a second pass leaves as it is.
pub proof fn lemma_settled_function_inputs(d: DirectorView<()>, items: Seq<FunctionInputView>)
    ensures
        walk_function_inputs::<Canonicalizer>(d, items).1 matches Ok(settled) ==>
            walk_function_inputs::<Canonicalizer>(d, items) == (
            d,
            Ok::<Seq<FunctionInputView>, CanonicalizeError>(settled),
        ) && walk_function_inputs::<Canonicalizer>(
            d,
            settled,
        ) == (d, Ok::<Seq<FunctionInputView>, CanonicalizeError>(settled)),
    decreases items,
{
    if items.len() > 0 {
        lemma_settled_function_inputs(d, items.drop_last());
        lemma_settled_function_input(d, items.last());
        match walk_function_inputs::<Canonicalizer>(d, items).1 {
            Ok(settled) => {
                let done = walk_function_inputs::<Canonicalizer>(d, items.drop_last()).1->Ok_0;
                let node = walk_function_input::<Canonicalizer>(d, items.last()).1->Ok_0;
                assert(settled == done.push(node));
                assert(settled.drop_last() =~= done);
                assert(settled.last() == node);
            },
            Err(_) => {},
        }
    }
}

/// What the canonicalizer gives for a list, a second pass leaves as it is.
pub proof fn lemma_settled_imports(d: DirectorView<()>, items: Seq<ImportStatementView>)
    ensures
        walk_imports::<Canonicalizer>(d, items).1 matches Ok(settled) ==>
            walk_imports::<Canonicalizer>(d, items) == (
            d,
            Ok::<Seq<ImportStatementView>, CanonicalizeError>(settled),
        ) && walk_imports::<Canonicalizer>(
            d,
            settled,
        ) == (d, Ok::<Seq<ImportStatementView>, CanonicalizeError>(settled)),
    decreases items,
{
    if items.len() > 0 {
        lemma_settled_imports(d, items.drop_last());
        lemma_settled_import(d, items.last());
        match walk_imports::<Canonicalizer>(d, items).1 {
            Ok(settled) => {
                let done = walk_imports::<Canonicalizer>(d, items.drop_last()).1->Ok_0;
                let node = walk_import::<Canonicalizer>(d, items.last()).1->Ok_0;
                assert(settled == done.push(node));
                assert(settled.drop_last() =~= done);
                assert(settled.last() == node);
            },
            Err(_) => {},
        }
    }
}

/// What the canonicalizer gives for a list, a second pass leaves as it is.
pub proof fn lemma_settled_circuit_members(d: DirectorView<()>, items: Seq<CircuitMemberView>)
    ensures
        walk_circuit_members::<Canonicalizer>(d, items).1 matches Ok(settled) ==>
            walk_circuit_members::<Canonicalizer>(d, items) == (
            d,
            Ok::<Seq<CircuitMemberView>, CanonicalizeError>(settled),
        ) && walk_circuit_members::<Canonicalizer>(
            d,
            settled,
        ) == (d, Ok::<Seq<CircuitMemberView>, CanonicalizeError>(settled)),
    decreases items,
{
    if items.len() > 0 {
        lemma_settled_circuit_members(d, items.drop_last());
        lemma_settled_circuit_member(d, items.last());
        match walk_circuit_members::<Canonicalizer>(d, items).1 {
            Ok(settled) => {
                let done = walk_circuit_members::<Canonicalizer>(d, items.drop_last()).1->Ok_0;
                let node = walk_circuit_member::<Canonicalizer>(d, items.last()).1->Ok_0;
                assert(settled == done.push(node));
                assert(settled.drop_last() =~= done);
                assert(settled.last() == node);
            },
            Err(_) => {},
        }
    }
}

/// What the canonicalizer gives for a list, a second pass leaves as it is.
pub proof fn lemma_settled_annotations(d: DirectorView<()>, items: Seq<AnnotationView>)
    ensures
        walk_annotations::<Canonicalizer>(d, items).1 matches Ok(settled) ==>
            walk_annotations::<Canonicalizer>(d, items) == (
            d,
            Ok::<Seq<AnnotationView>, CanonicalizeError>(settled),
        ) && walk_annotations::<Canonicalizer>(
            d,
            settled,
        ) == (d, Ok::<Seq<AnnotationView>, CanonicalizeError>(settled)),
    decreases items,
{
    if items.len() > 0 {
        lemma_settled_annotations(d, items.drop_last());
        lemma_settled_annotation(d, items.last());
        match walk_annotations::<Canonicalizer>(d, items).1 {
            Ok(settled) => {
                let done = walk_annotations::<Canonicalizer>(d, items.drop_last()).1->Ok_0;
                let node = walk_annotation::<Canonicalizer>(d, items.last()).1->Ok_0;
                assert(settled == done.push(node));
                assert(settled.drop_last() =~= done);
                assert(settled.last() == node);
            },
            Err(_) => {},
        }
    }
}

} // verus!
