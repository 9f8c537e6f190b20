//! Canonicalization invents no place: every place of the canonical form is a
//! place of what was canonicalized.
use crate::ast::common::{Identifier, IdentifierView};
use crate::ast::expression::{
    ArrayAccessExpressionView, ArrayInitExpressionView, ArrayInlineExpressionView,
    ArrayRangeAccessExpressionView, BinaryExpressionView, CallExpressionView, CastExpressionView,
    CircuitImpliedVariableDefinitionView, CircuitInitExpressionView,
    CircuitMemberAccessExpressionView, CircuitStaticFunctionAccessExpressionView, Expression,
    ExpressionView, GroupTupleView, GroupValueView, SpreadOrExpressionView, TernaryExpressionView,
    TupleAccessExpressionView, TupleInitExpressionView, UnaryExpressionView, ValueExpressionView,
};
use crate::ast::function::{
    AnnotationView, Circuit, CircuitMemberView, CircuitView, FunctionInputVariableView,
    FunctionInputView, FunctionView,
};
use crate::ast::imports::{ImportStatementView, Package, PackageOrPackagesView, Packages};
use crate::ast::statement::{
    AssigneeAccessView, AssigneeView, AssignStatementView, Block, BlockView,
    ConditionalStatementView, ConsoleFunctionView, ConsoleStatementView, DefinitionStatementView,
    ExpressionStatementView, IterationStatementView, ReturnStatementView, StatementView,
    VariableNameView,
};
use crate::ast::types::TypeView;
use crate::ast::spans::{
    annotation_seq_spans, annotation_spans, array_access_expression_spans,
    array_init_expression_spans, array_inline_expression_spans, array_range_access_expression_spans,
    assign_statement_spans, assignee_access_seq_spans, assignee_access_spans, assignee_spans,
    binary_expression_spans, block_spans, call_expression_spans, cast_expression_spans,
    circuit_entries_spans, circuit_implied_variable_definition_seq_spans,
    circuit_implied_variable_definition_spans, circuit_init_expression_spans,
    circuit_member_access_expression_spans, circuit_member_seq_spans, circuit_member_spans,
    circuit_spans, circuit_static_function_access_expression_spans, conditional_statement_spans,
    console_statement_spans, definition_statement_spans, expression_seq_spans, expression_spans,
    expression_statement_spans, function_entries_spans, function_input_seq_spans,
    function_input_spans, function_input_variable_spans, function_spans, group_tuple_spans,
    group_value_spans, identifier_spans, import_statement_seq_spans, import_statement_spans,
    iteration_statement_spans, package_or_packages_spans, program_spans, return_statement_spans,
    spread_or_expression_seq_spans, spread_or_expression_spans, statement_seq_spans,
    statement_spans, ternary_expression_spans, tuple_access_expression_spans,
    tuple_init_expression_spans, type_seq_spans, type_spans, unary_expression_spans,
    value_expression_spans, variable_name_seq_spans, variable_name_spans,
};
use crate::reducer::reconstructing_director::{
    DirectorView, walk_annotation, walk_annotations, walk_array_access, walk_array_init,
    walk_array_inline, walk_array_range_access, walk_assign, walk_assignee, walk_assignee_access,
    walk_assignee_accesses, walk_binary, walk_block, walk_call, walk_cast, walk_circuit,
    walk_circuit_entries, walk_circuit_implied_variable_definition,
    walk_circuit_implied_variable_definitions, walk_circuit_init, walk_circuit_member,
    walk_circuit_member_access, walk_circuit_members, walk_circuit_static_fn_access,
    walk_conditional, walk_console, walk_definition, walk_expression, walk_expression_statement,
    walk_expressions, walk_function, walk_function_entries, walk_function_input,
    walk_function_input_variable, walk_function_inputs, walk_group_tuple, walk_group_value,
    walk_identifier, walk_import, walk_imports, walk_iteration, walk_package_or_packages,
    walk_program, walk_return, walk_spread_or_expression, walk_spread_or_expressions,
    walk_statement, walk_statements, walk_ternary, walk_tuple_access, walk_tuple_init, walk_type,
    walk_types, walk_unary, walk_value, walk_variable_name, walk_variable_names,
};
use crate::ast::statement::AssignOperation;
use crate::reducer::canonicalization::{
    bound_in_function, canonical_program, Canonicalizer, compound_operation, nested_init,
    place_expression, resolved_member, resolved_members,
};
use crate::reducer::idempotence::{
    lemma_circuit_entries_walked, lemma_function_entries_walked, lemma_receivers_exclude_self,
    lemma_resolved_members_each, resolving,
};
use crate::reducer::resolution_spans::lemma_resolution_spans_circuit_member;
use crate::ast::program::{distinct_keys, ProgramView};
use crate::reducer::self_resolver::SelfResolver;
use crate::reducer::settled::{
    lemma_settled_annotations, lemma_settled_array_access, lemma_settled_array_init,
    lemma_settled_array_inline, lemma_settled_array_range_access, lemma_settled_assign,
    lemma_settled_assignee, lemma_settled_assignee_accesses, lemma_settled_binary,
    lemma_settled_block, lemma_settled_call, lemma_settled_cast,
    lemma_settled_circuit_implied_variable_definitions, lemma_settled_circuit_init,
    lemma_settled_circuit_member_access, lemma_settled_circuit_members,
    lemma_settled_circuit_static_fn_access, lemma_settled_conditional, lemma_settled_console,
    lemma_settled_definition, lemma_settled_expression, lemma_settled_expression_statement,
    lemma_settled_expressions, lemma_settled_function, lemma_settled_function_input_variable,
    lemma_settled_function_inputs, lemma_settled_group_tuple, lemma_settled_group_value,
    lemma_settled_identifier, lemma_settled_imports, lemma_settled_iteration,
    lemma_settled_package_or_packages, lemma_settled_return, lemma_settled_spread_or_expressions,
    lemma_settled_statement, lemma_settled_statements, lemma_settled_ternary,
    lemma_settled_tuple_access, lemma_settled_tuple_init, lemma_settled_type, lemma_settled_types,
    lemma_settled_unary, lemma_settled_value, lemma_settled_variable_names,
};
use crate::span::Span;
use vstd::prelude::*;

verus! {

/// Nested initialisers speak of the place they were given and of the places of
/// their element.
pub proof fn lemma_nested_init_spans(element: ExpressionView, dimensions: Seq<usize>, span: Span)
    ensures
        array_init_expression_spans(nested_init(element, dimensions, span)) == expression_spans(
            element,
        ).insert(span),
    decreases dimensions.len(),
{
    let node = nested_init(element, dimensions, span);
    if dimensions.len() > 1 {
        let rest = dimensions.subrange(1, dimensions.len() as int);
        lemma_nested_init_spans(element, rest, span);
        let inner = nested_init(element, rest, span);
        assert(expression_spans(ExpressionView::ArrayInit(inner)) == array_init_expression_spans(
            inner,
        ));
        assert(array_init_expression_spans(node) =~= expression_spans(element).insert(span));
    } else {
        assert(array_init_expression_spans(node) =~= expression_spans(element).insert(span));
    }
}

/// The expression that reads a place speaks of the place it was given and of
/// the places of the base and of the accesses.
pub proof fn lemma_place_spans(
    base: ExpressionView,
    accesses: Seq<AssigneeAccessView>,
    span: Span,
)
    ensures
        place_expression(base, accesses, span) matches Ok(place) ==> expression_spans(
            place,
        ).subset_of(expression_spans(base).union(assignee_access_seq_spans(accesses)).insert(span)),
    decreases accesses.len(),
{
    if accesses.len() > 0 {
        lemma_place_spans(base, accesses.drop_last(), span);
        match place_expression(base, accesses.drop_last(), span) {
            Ok(inner) => {
                match accesses.last() {
                    AssigneeAccessView::ArrayIndex(index) => {
                        let node = ArrayAccessExpressionView {
                            array: Box::new(inner),
                            index: Box::new(index),
                            span,
                        };
                        assert(expression_spans(ExpressionView::ArrayAccess(node))
                            == array_access_expression_spans(node));
                    },
                    AssigneeAccessView::Tuple(index, _) => {
                        let node = TupleAccessExpressionView { tuple: Box::new(
                            inner,
                        ), index, span };
                        assert(expression_spans(ExpressionView::TupleAccess(node))
                            == tuple_access_expression_spans(node));
                    },
                    AssigneeAccessView::Member(name) => {
                        let node = CircuitMemberAccessExpressionView {
                            circuit: Box::new(inner),
                            name,
                            span,
                        };
                        assert(expression_spans(ExpressionView::CircuitMemberAccess(node))
                            == circuit_member_access_expression_spans(node));
                    },
                    _ => {},
                }
            },
            Err(_) => {},
        }
    }
}

/// Members that each speak of no place but those of the member at the same
/// position speak, together, of no place but those of these members.
pub proof fn lemma_member_spans_each(first: Seq<CircuitMemberView>, second: Seq<CircuitMemberView>)
    requires
        first.len() == second.len(),
        forall|i: int|
            0 <= i < first.len() ==> circuit_member_spans(#[trigger] first[i]).subset_of(
                circuit_member_spans(second[i]),
            ),
    ensures
        circuit_member_seq_spans(first).subset_of(circuit_member_seq_spans(second)),
    decreases first.len(),
{
    if first.len() > 0 {
        assert forall|i: int| 0 <= i < first.drop_last().len() implies circuit_member_spans(
            #[trigger] first.drop_last()[i],
        ).subset_of(circuit_member_spans(second.drop_last()[i])) by {
            assert(first.drop_last()[i] == first[i]);
            assert(second.drop_last()[i] == second[i]);
        }
        lemma_member_spans_each(first.drop_last(), second.drop_last());
        assert(circuit_member_spans(first[first.len() - 1]).subset_of(
            circuit_member_spans(second[first.len() - 1]),
        ));
    }
}

/// What the canonicalizer gives for a type speaks of no place but those of what it was given.
pub proof fn lemma_spans_type(d: DirectorView<()>, type_: TypeView, span: Span)
    ensures
        walk_type::<Canonicalizer>(d, type_, span).1 matches Ok(given) ==>
            type_spans(given).subset_of(
            type_spans(type_).insert(span),
        ),
    decreases type_,
{
    match type_ {
        TypeView::Array(f0, f1) => {
            lemma_settled_type(d, *f0, span);
            lemma_spans_type(d, *f0, span);
        },
        TypeView::Tuple(f0) => {
            lemma_settled_types(d, f0, span);
            lemma_spans_types(d, f0, span);
        },
        TypeView::Circuit(f0) => {
            lemma_settled_identifier(d, f0);
            lemma_spans_identifier(d, f0);
        },
        _ => {},
    }
}

/// What the canonicalizer gives for an expression speaks of no place but those of what it was given.
pub proof fn lemma_spans_expression(d: DirectorView<()>, expression: ExpressionView)
    ensures
        walk_expression::<Canonicalizer>(d, expression).1 matches Ok(given) ==>
            expression_spans(given).subset_of(
            expression_spans(expression),
        ),
    decreases expression,
{
    match expression {
        ExpressionView::Identifier(f0) => {
            lemma_settled_identifier(d, f0);
            lemma_spans_identifier(d, f0);
        },
        ExpressionView::Value(f0) => {
            lemma_settled_value(d, f0);
            lemma_spans_value(d, f0);
        },
        ExpressionView::Binary(f0) => {
            lemma_settled_binary(d, f0);
            lemma_spans_binary(d, f0);
        },
        ExpressionView::Unary(f0) => {
            lemma_settled_unary(d, f0);
            lemma_spans_unary(d, f0);
        },
        ExpressionView::Ternary(f0) => {
            lemma_settled_ternary(d, f0);
            lemma_spans_ternary(d, f0);
        },
        ExpressionView::Cast(f0) => {
            lemma_settled_cast(d, f0);
            lemma_spans_cast(d, f0);
        },
        ExpressionView::ArrayInline(f0) => {
            lemma_settled_array_inline(d, f0);
            lemma_spans_array_inline(d, f0);
        },
        ExpressionView::ArrayInit(f0) => {
            lemma_settled_array_init(d, f0);
            lemma_spans_array_init(d, f0);
        },
        ExpressionView::ArrayAccess(f0) => {
            lemma_settled_array_access(d, f0);
            lemma_spans_array_access(d, f0);
        },
        ExpressionView::ArrayRangeAccess(f0) => {
            lemma_settled_array_range_access(d, f0);
            lemma_spans_array_range_access(d, f0);
        },
        ExpressionView::TupleInit(f0) => {
            lemma_settled_tuple_init(d, f0);
            lemma_spans_tuple_init(d, f0);
        },
        ExpressionView::TupleAccess(f0) => {
            lemma_settled_tuple_access(d, f0);
            lemma_spans_tuple_access(d, f0);
        },
        ExpressionView::CircuitInit(f0) => {
            lemma_settled_circuit_init(d, f0);
            lemma_spans_circuit_init(d, f0);
        },
        ExpressionView::CircuitMemberAccess(f0) => {
            lemma_settled_circuit_member_access(d, f0);
            lemma_spans_circuit_member_access(d, f0);
        },
        ExpressionView::CircuitStaticFunctionAccess(f0) => {
            lemma_settled_circuit_static_fn_access(d, f0);
            lemma_spans_circuit_static_fn_access(d, f0);
        },
        ExpressionView::Call(f0) => {
            lemma_settled_call(d, f0);
            lemma_spans_call(d, f0);
        },
    }
}

/// What the canonicalizer gives for an identifier speaks of no place but those of what it was given.
pub proof fn lemma_spans_identifier(d: DirectorView<()>, identifier: IdentifierView)
    ensures
        walk_identifier::<Canonicalizer>(d, identifier).1 matches Ok(given) ==>
            identifier_spans(given).subset_of(
            identifier_spans(identifier),
        ),
    decreases identifier,
{
}

/// What the canonicalizer gives for a group tuple speaks of no place but those of what it was given.
pub proof fn lemma_spans_group_tuple(d: DirectorView<()>, group_tuple: GroupTupleView)
    ensures
        walk_group_tuple::<Canonicalizer>(d, group_tuple).1 matches Ok(given) ==>
            group_tuple_spans(given).subset_of(
            group_tuple_spans(group_tuple),
        ),
    decreases group_tuple,
{
}

/// What the canonicalizer gives for a group value speaks of no place but those of what it was given.
pub proof fn lemma_spans_group_value(d: DirectorView<()>, group_value: GroupValueView)
    ensures
        walk_group_value::<Canonicalizer>(d, group_value).1 matches Ok(given) ==>
            group_value_spans(given).subset_of(
            group_value_spans(group_value),
        ),
    decreases group_value,
{
    match group_value {
        GroupValueView::Tuple(f0) => {
            lemma_settled_group_tuple(d, f0);
            lemma_spans_group_tuple(d, f0);
        },
        _ => {},
    }
}

/// What the canonicalizer gives for a literal value speaks of no place but those of what it was given.
pub proof fn lemma_spans_value(d: DirectorView<()>, value: ValueExpressionView)
    ensures
        walk_value::<Canonicalizer>(d, value).1 matches Ok(given) ==>
            value_expression_spans(given).subset_of(
            value_expression_spans(value),
        ),
    decreases value,
{
    match value {
        ValueExpressionView::Group(f0) => {
            lemma_settled_group_value(d, *f0);
            lemma_spans_group_value(d, *f0);
        },
        _ => {},
    }
}

/// What the canonicalizer gives for a binary expression speaks of no place but those of what it was given.
pub proof fn lemma_spans_binary(d: DirectorView<()>, binary: BinaryExpressionView)
    ensures
        walk_binary::<Canonicalizer>(d, binary).1 matches Ok(given) ==>
            binary_expression_spans(given).subset_of(
            binary_expression_spans(binary),
        ),
    decreases binary,
{
    lemma_settled_expression(d, *binary.left);
    lemma_spans_expression(d, *binary.left);
    lemma_settled_expression(d, *binary.right);
    lemma_spans_expression(d, *binary.right);
}

/// What the canonicalizer gives for a unary expression speaks of no place but those of what it was given.
pub proof fn lemma_spans_unary(d: DirectorView<()>, unary: UnaryExpressionView)
    ensures
        walk_unary::<Canonicalizer>(d, unary).1 matches Ok(given) ==>
            unary_expression_spans(given).subset_of(
            unary_expression_spans(unary),
        ),
    decreases unary,
{
    lemma_settled_expression(d, *unary.inner);
    lemma_spans_expression(d, *unary.inner);
}

/// What the canonicalizer gives for a ternary expression speaks of no place but those of what it was given.
pub proof fn lemma_spans_ternary(d: DirectorView<()>, ternary: TernaryExpressionView)
    ensures
        walk_ternary::<Canonicalizer>(d, ternary).1 matches Ok(given) ==>
            ternary_expression_spans(given).subset_of(
            ternary_expression_spans(ternary),
        ),
    decreases ternary,
{
    lemma_settled_expression(d, *ternary.condition);
    lemma_spans_expression(d, *ternary.condition);
    lemma_settled_expression(d, *ternary.if_true);
    lemma_spans_expression(d, *ternary.if_true);
    lemma_settled_expression(d, *ternary.if_false);
    lemma_spans_expression(d, *ternary.if_false);
}

/// What the canonicalizer gives for a cast speaks of no place but those of what it was given.
pub proof fn lemma_spans_cast(d: DirectorView<()>, cast: CastExpressionView)
    ensures
        walk_cast::<Canonicalizer>(d, cast).1 matches Ok(given) ==>
            cast_expression_spans(given).subset_of(
            cast_expression_spans(cast),
        ),
    decreases cast,
{
    lemma_settled_expression(d, *cast.inner);
    lemma_spans_expression(d, *cast.inner);
    lemma_settled_type(d, cast.target_type, cast.span);
    lemma_spans_type(d, cast.target_type, cast.span);
}

/// What the canonicalizer gives for an element of an inline array speaks of no place but those of what it was given.
pub proof fn lemma_spans_spread_or_expression(d: DirectorView<()>, element: SpreadOrExpressionView)
    ensures
        walk_spread_or_expression::<Canonicalizer>(d, element).1 matches Ok(given) ==>
            spread_or_expression_spans(given).subset_of(
            spread_or_expression_spans(element),
        ),
    decreases element,
{
    match element {
        SpreadOrExpressionView::Spread(f0) => {
            lemma_settled_expression(d, f0);
            lemma_spans_expression(d, f0);
        },
        SpreadOrExpressionView::Expression(f0) => {
            lemma_settled_expression(d, f0);
            lemma_spans_expression(d, f0);
        },
    }
}

/// What the canonicalizer gives for an inline array speaks of no place but those of what it was given.
pub proof fn lemma_spans_array_inline(d: DirectorView<()>, array_inline: ArrayInlineExpressionView)
    ensures
        walk_array_inline::<Canonicalizer>(d, array_inline).1 matches Ok(given) ==>
            array_inline_expression_spans(given).subset_of(
            array_inline_expression_spans(array_inline),
        ),
    decreases array_inline,
{
    lemma_settled_spread_or_expressions(d, array_inline.elements);
    lemma_spans_spread_or_expressions(d, array_inline.elements);
}

/// What the canonicalizer gives for an array initialiser speaks of no place but those of what it was given.
pub proof fn lemma_spans_array_init(d: DirectorView<()>, array_init: ArrayInitExpressionView)
    ensures
        walk_array_init::<Canonicalizer>(d, array_init).1 matches Ok(given) ==>
            array_init_expression_spans(given).subset_of(
            array_init_expression_spans(array_init),
        ),
    decreases array_init,
{
    lemma_settled_expression(d, *array_init.element);
    lemma_spans_expression(d, *array_init.element);
    match walk_expression::<Canonicalizer>(d, *array_init.element).1 {
        Ok(element) => {
            lemma_nested_init_spans(element, array_init.dimensions, array_init.span);
        },
        Err(_) => {},
    }
}

/// What the canonicalizer gives for an array access speaks of no place but those of what it was given.
pub proof fn lemma_spans_array_access(d: DirectorView<()>, array_access: ArrayAccessExpressionView)
    ensures
        walk_array_access::<Canonicalizer>(d, array_access).1 matches Ok(given) ==>
            array_access_expression_spans(given).subset_of(
            array_access_expression_spans(array_access),
        ),
    decreases array_access,
{
    lemma_settled_expression(d, *array_access.array);
    lemma_spans_expression(d, *array_access.array);
    lemma_settled_expression(d, *array_access.index);
    lemma_spans_expression(d, *array_access.index);
}

/// What the canonicalizer gives for an array range access speaks of no place but those of what it was given.
pub proof fn lemma_spans_array_range_access(
    d: DirectorView<()>,
    array_range_access: ArrayRangeAccessExpressionView,
)
    ensures
        walk_array_range_access::<Canonicalizer>(d, array_range_access).1 matches Ok(given) ==>
            array_range_access_expression_spans(given).subset_of(
            array_range_access_expression_spans(array_range_access),
        ),
    decreases array_range_access,
{
    lemma_settled_expression(d, *array_range_access.array);
    lemma_spans_expression(d, *array_range_access.array);
    match array_range_access.left {
        Some(v) => {
            lemma_settled_expression(d, *v);
            lemma_spans_expression(d, *v);
        },
        None => {},
    }
    match array_range_access.right {
        Some(v) => {
            lemma_settled_expression(d, *v);
            lemma_spans_expression(d, *v);
        },
        None => {},
    }
}

/// What the canonicalizer gives for a tuple initialiser speaks of no place but those of what it was given.
pub proof fn lemma_spans_tuple_init(d: DirectorView<()>, tuple_init: TupleInitExpressionView)
    ensures
        walk_tuple_init::<Canonicalizer>(d, tuple_init).1 matches Ok(given) ==>
            tuple_init_expression_spans(given).subset_of(
            tuple_init_expression_spans(tuple_init),
        ),
    decreases tuple_init,
{
    lemma_settled_expressions(d, tuple_init.elements);
    lemma_spans_expressions(d, tuple_init.elements);
}

/// What the canonicalizer gives for a tuple access speaks of no place but those of what it was given.
pub proof fn lemma_spans_tuple_access(d: DirectorView<()>, tuple_access: TupleAccessExpressionView)
    ensures
        walk_tuple_access::<Canonicalizer>(d, tuple_access).1 matches Ok(given) ==>
            tuple_access_expression_spans(given).subset_of(
            tuple_access_expression_spans(tuple_access),
        ),
    decreases tuple_access,
{
    lemma_settled_expression(d, *tuple_access.tuple);
    lemma_spans_expression(d, *tuple_access.tuple);
}

/// What the canonicalizer gives for a member of a circuit initialiser speaks of no place but those of what it was given.
pub proof fn lemma_spans_circuit_implied_variable_definition(
    d: DirectorView<()>,
    variable: CircuitImpliedVariableDefinitionView,
)
    ensures
        walk_circuit_implied_variable_definition::<Canonicalizer>(d, variable).1 matches Ok(given) ==>
            circuit_implied_variable_definition_spans(given).subset_of(
            circuit_implied_variable_definition_spans(variable),
        ),
    decreases variable,
{
    lemma_settled_identifier(d, variable.identifier);
    lemma_spans_identifier(d, variable.identifier);
    match variable.expression {
        Some(v) => {
            lemma_settled_expression(d, v);
            lemma_spans_expression(d, v);
        },
        None => {},
    }
}

/// What the canonicalizer gives for a circuit initialiser speaks of no place but those of what it was given.
pub proof fn lemma_spans_circuit_init(d: DirectorView<()>, circuit_init: CircuitInitExpressionView)
    ensures
        walk_circuit_init::<Canonicalizer>(d, circuit_init).1 matches Ok(given) ==>
            circuit_init_expression_spans(given).subset_of(
            circuit_init_expression_spans(circuit_init),
        ),
    decreases circuit_init,
{
    lemma_settled_identifier(d, circuit_init.name);
    lemma_spans_identifier(d, circuit_init.name);
    lemma_settled_circuit_implied_variable_definitions(d, circuit_init.members);
    lemma_spans_circuit_implied_variable_definitions(d, circuit_init.members);
}

/// What the canonicalizer gives for a circuit member access speaks of no place but those of what it was given.
pub proof fn lemma_spans_circuit_member_access(
    d: DirectorView<()>,
    circuit_member_access: CircuitMemberAccessExpressionView,
)
    ensures
        walk_circuit_member_access::<Canonicalizer>(d, circuit_member_access).1 matches Ok(given) ==>
            circuit_member_access_expression_spans(given).subset_of(
            circuit_member_access_expression_spans(circuit_member_access),
        ),
    decreases circuit_member_access,
{
    lemma_settled_expression(d, *circuit_member_access.circuit);
    lemma_spans_expression(d, *circuit_member_access.circuit);
    lemma_settled_identifier(d, circuit_member_access.name);
    lemma_spans_identifier(d, circuit_member_access.name);
}

/// What the canonicalizer gives for a static function access speaks of no place but those of what it was given.
pub proof fn lemma_spans_circuit_static_fn_access(
    d: DirectorView<()>,
    circuit_static_fn_access: CircuitStaticFunctionAccessExpressionView,
)
    ensures
        walk_circuit_static_fn_access::<Canonicalizer>(d, circuit_static_fn_access).1 matches Ok(given) ==>
            circuit_static_function_access_expression_spans(given).subset_of(
            circuit_static_function_access_expression_spans(circuit_static_fn_access),
        ),
    decreases circuit_static_fn_access,
{
    lemma_settled_expression(d, *circuit_static_fn_access.circuit);
    lemma_spans_expression(d, *circuit_static_fn_access.circuit);
    lemma_settled_identifier(d, circuit_static_fn_access.name);
    lemma_spans_identifier(d, circuit_static_fn_access.name);
}

/// What the canonicalizer gives for a call speaks of no place but those of what it was given.
pub proof fn lemma_spans_call(d: DirectorView<()>, call: CallExpressionView)
    ensures
        walk_call::<Canonicalizer>(d, call).1 matches Ok(given) ==>
            call_expression_spans(given).subset_of(
            call_expression_spans(call),
        ),
    decreases call,
{
    lemma_settled_expression(d, *call.function);
    lemma_spans_expression(d, *call.function);
    lemma_settled_expressions(d, call.arguments);
    lemma_spans_expressions(d, call.arguments);
}

/// What the canonicalizer gives for a statement speaks of no place but those of what it was given.
pub proof fn lemma_spans_statement(d: DirectorView<()>, statement: StatementView)
    ensures
        walk_statement::<Canonicalizer>(d, statement).1 matches Ok(given) ==>
            statement_spans(given).subset_of(
            statement_spans(statement),
        ),
    decreases statement,
{
    match statement {
        StatementView::Return(f0) => {
            lemma_settled_return(d, f0);
            lemma_spans_return(d, f0);
        },
        StatementView::Definition(f0) => {
            lemma_settled_definition(d, f0);
            lemma_spans_definition(d, f0);
        },
        StatementView::Assign(f0) => {
            lemma_settled_assign(d, f0);
            lemma_spans_assign(d, f0);
        },
        StatementView::Conditional(f0) => {
            lemma_settled_conditional(d, f0);
            lemma_spans_conditional(d, f0);
        },
        StatementView::Iteration(f0) => {
            lemma_settled_iteration(d, f0);
            lemma_spans_iteration(d, f0);
        },
        StatementView::Console(f0) => {
            lemma_settled_console(d, f0);
            lemma_spans_console(d, f0);
        },
        StatementView::Expression(f0) => {
            lemma_settled_expression_statement(d, f0);
            lemma_spans_expression_statement(d, f0);
        },
        StatementView::Block(f0) => {
            lemma_settled_block(d, f0);
            lemma_spans_block(d, f0);
        },
    }
}

/// What the canonicalizer gives for a return speaks of no place but those of what it was given.
pub proof fn lemma_spans_return(d: DirectorView<()>, return_statement: ReturnStatementView)
    ensures
        walk_return::<Canonicalizer>(d, return_statement).1 matches Ok(given) ==>
            return_statement_spans(given).subset_of(
            return_statement_spans(return_statement),
        ),
    decreases return_statement,
{
    lemma_settled_expression(d, return_statement.expression);
    lemma_spans_expression(d, return_statement.expression);
}

/// What the canonicalizer gives for a variable name speaks of no place but those of what it was given.
pub proof fn lemma_spans_variable_name(d: DirectorView<()>, variable_name: VariableNameView)
    ensures
        walk_variable_name::<Canonicalizer>(d, variable_name).1 matches Ok(given) ==>
            variable_name_spans(given).subset_of(
            variable_name_spans(variable_name),
        ),
    decreases variable_name,
{
    lemma_settled_identifier(d, variable_name.identifier);
    lemma_spans_identifier(d, variable_name.identifier);
}

/// What the canonicalizer gives for a definition speaks of no place but those of what it was given.
pub proof fn lemma_spans_definition(d: DirectorView<()>, definition: DefinitionStatementView)
    ensures
        walk_definition::<Canonicalizer>(d, definition).1 matches Ok(given) ==>
            definition_statement_spans(given).subset_of(
            definition_statement_spans(definition),
        ),
    decreases definition,
{
    lemma_settled_variable_names(d, definition.variable_names);
    lemma_spans_variable_names(d, definition.variable_names);
    match definition.type_ {
        Some(v) => {
            lemma_settled_type(d, v, definition.span);
            lemma_spans_type(d, v, definition.span);
        },
        None => {},
    }
    lemma_settled_expression(d, definition.value);
    lemma_spans_expression(d, definition.value);
}

/// What the canonicalizer gives for an assignee access speaks of no place but those of what it was given.
pub proof fn lemma_spans_assignee_access(d: DirectorView<()>, access: AssigneeAccessView)
    ensures
        walk_assignee_access::<Canonicalizer>(d, access).1 matches Ok(given) ==>
            assignee_access_spans(given).subset_of(
            assignee_access_spans(access),
        ),
    decreases access,
{
    match access {
        AssigneeAccessView::ArrayRange(f0, f1) => {
            match f0 {
                Some(v) => {
                    lemma_settled_expression(d, v);
                    lemma_spans_expression(d, v);
                },
                None => {},
            }
            match f1 {
                Some(v) => {
                    lemma_settled_expression(d, v);
                    lemma_spans_expression(d, v);
                },
                None => {},
            }
        },
        AssigneeAccessView::ArrayIndex(f0) => {
            lemma_settled_expression(d, f0);
            lemma_spans_expression(d, f0);
        },
        AssigneeAccessView::Member(f0) => {
            lemma_settled_identifier(d, f0);
            lemma_spans_identifier(d, f0);
        },
        _ => {},
    }
}

/// What the canonicalizer gives for an assignee speaks of no place but those of what it was given.
pub proof fn lemma_spans_assignee(d: DirectorView<()>, assignee: AssigneeView)
    ensures
        walk_assignee::<Canonicalizer>(d, assignee).1 matches Ok(given) ==>
            assignee_spans(given).subset_of(
            assignee_spans(assignee),
        ),
    decreases assignee,
{
    lemma_settled_identifier(d, assignee.identifier);
    lemma_spans_identifier(d, assignee.identifier);
    lemma_settled_assignee_accesses(d, assignee.accesses);
    lemma_spans_assignee_accesses(d, assignee.accesses);
}

/// What the canonicalizer gives for an assignment speaks of no place but those of what it was given.
pub proof fn lemma_spans_assign(d: DirectorView<()>, assign: AssignStatementView)
    ensures
        walk_assign::<Canonicalizer>(d, assign).1 matches Ok(given) ==>
            assign_statement_spans(given).subset_of(
            assign_statement_spans(assign),
        ),
    decreases assign,
{
    lemma_settled_assignee(d, assign.assignee);
    lemma_spans_assignee(d, assign.assignee);
    lemma_settled_expression(d, assign.value);
    lemma_spans_expression(d, assign.value);
    match (
        walk_assignee::<Canonicalizer>(d, assign.assignee).1,
        walk_expression::<Canonicalizer>(d, assign.value).1,
    ) {
        (Ok(assignee), Ok(value)) => {
            if assign.operation != AssignOperation::Assign {
                let base = ExpressionView::Identifier(assignee.identifier);
                lemma_place_spans(base, assignee.accesses, assign.span);
                match place_expression(base, assignee.accesses, assign.span) {
                    Ok(left) => {
                        let binary = BinaryExpressionView {
                            left: Box::new(left),
                            right: Box::new(value),
                            op: compound_operation(assign.operation),
                            span: assign.span,
                        };
                        assert(expression_spans(base) == identifier_spans(assignee.identifier));
                        assert(expression_spans(ExpressionView::Binary(binary))
                            == binary_expression_spans(binary));
                    },
                    Err(_) => {},
                }
            }
        },
        _ => {},
    }
}

/// What the canonicalizer gives for a conditional speaks of no place but those of what it was given.
pub proof fn lemma_spans_conditional(d: DirectorView<()>, conditional: ConditionalStatementView)
    ensures
        walk_conditional::<Canonicalizer>(d, conditional).1 matches Ok(given) ==>
            conditional_statement_spans(given).subset_of(
            conditional_statement_spans(conditional),
        ),
    decreases conditional,
{
    lemma_settled_expression(d, conditional.condition);
    lemma_spans_expression(d, conditional.condition);
    lemma_settled_block(d, conditional.block);
    lemma_spans_block(d, conditional.block);
    match conditional.next {
        Some(v) => {
            lemma_settled_statement(d, *v);
            lemma_spans_statement(d, *v);
        },
        None => {},
    }
}

/// What the canonicalizer gives for a loop speaks of no place but those of what it was given.
pub proof fn lemma_spans_iteration(d: DirectorView<()>, iteration: IterationStatementView)
    ensures
        walk_iteration::<Canonicalizer>(d, iteration).1 matches Ok(given) ==>
            iteration_statement_spans(given).subset_of(
            iteration_statement_spans(iteration),
        ),
    decreases iteration,
{
    lemma_settled_identifier(d, iteration.variable);
    lemma_spans_identifier(d, iteration.variable);
    lemma_settled_expression(d, iteration.start);
    lemma_spans_expression(d, iteration.start);
    lemma_settled_expression(d, iteration.stop);
    lemma_spans_expression(d, iteration.stop);
    lemma_settled_block(d, iteration.block);
    lemma_spans_block(d, iteration.block);
}

/// What the canonicalizer gives for a console statement speaks of no place but those of what it was given.
pub proof fn lemma_spans_console(d: DirectorView<()>, console_function_call: ConsoleStatementView)
    ensures
        walk_console::<Canonicalizer>(d, console_function_call).1 matches Ok(given) ==>
            console_statement_spans(given).subset_of(
            console_statement_spans(console_function_call),
        ),
    decreases console_function_call,
{
    match console_function_call.function {
        ConsoleFunctionView::Assert(f0) => {
            lemma_settled_expression(d, f0);
            lemma_spans_expression(d, f0);
        },
        ConsoleFunctionView::Debug(f0) => {
            lemma_settled_expressions(d, f0.parameters);
            lemma_spans_expressions(d, f0.parameters);
        },
        ConsoleFunctionView::Error(f0) => {
            lemma_settled_expressions(d, f0.parameters);
            lemma_spans_expressions(d, f0.parameters);
        },
        ConsoleFunctionView::Log(f0) => {
            lemma_settled_expressions(d, f0.parameters);
            lemma_spans_expressions(d, f0.parameters);
        },
    }
}

/// What the canonicalizer gives for an expression statement speaks of no place but those of what it was given.
pub proof fn lemma_spans_expression_statement(
    d: DirectorView<()>,
    expression_statement: ExpressionStatementView,
)
    ensures
        walk_expression_statement::<Canonicalizer>(d, expression_statement).1 matches Ok(given) ==>
            expression_statement_spans(given).subset_of(
            expression_statement_spans(expression_statement),
        ),
    decreases expression_statement,
{
    lemma_settled_expression(d, expression_statement.expression);
    lemma_spans_expression(d, expression_statement.expression);
}

/// What the canonicalizer gives for a block speaks of no place but those of what it was given.
pub proof fn lemma_spans_block(d: DirectorView<()>, block: BlockView)
    ensures
        walk_block::<Canonicalizer>(d, block).1 matches Ok(given) ==> block_spans(given).subset_of(
            block_spans(block),
        ),
    decreases block,
{
    lemma_settled_statements(d, block.statements);
    lemma_spans_statements(d, block.statements);
}

/// What the canonicalizer gives for an input variable of a function speaks of no place but those of what it was given.
pub proof fn lemma_spans_function_input_variable(
    d: DirectorView<()>,
    variable: FunctionInputVariableView,
)
    ensures
        walk_function_input_variable::<Canonicalizer>(d, variable).1 matches Ok(given) ==>
            function_input_variable_spans(given).subset_of(
            function_input_variable_spans(variable),
        ),
    decreases variable,
{
    lemma_settled_identifier(d, variable.identifier);
    lemma_spans_identifier(d, variable.identifier);
    lemma_settled_type(d, variable.type_, variable.span);
    lemma_spans_type(d, variable.type_, variable.span);
}

/// What the canonicalizer gives for an input of a function speaks of no place but those of what it was given.
pub proof fn lemma_spans_function_input(d: DirectorView<()>, input: FunctionInputView)
    ensures
        walk_function_input::<Canonicalizer>(d, input).1 matches Ok(given) ==>
            function_input_spans(given).subset_of(
            function_input_spans(input),
        ),
    decreases input,
{
    match input {
        FunctionInputView::Variable(f0) => {
            lemma_settled_function_input_variable(d, f0);
            lemma_spans_function_input_variable(d, f0);
        },
        _ => {},
    }
}

/// What the canonicalizer gives for the package of an import speaks of no place but those of what it was given.
pub proof fn lemma_spans_package_or_packages(
    d: DirectorView<()>,
    package_or_packages: PackageOrPackagesView,
)
    ensures
        walk_package_or_packages::<Canonicalizer>(d, package_or_packages).1 matches Ok(given) ==>
            package_or_packages_spans(given).subset_of(
            package_or_packages_spans(package_or_packages),
        ),
    decreases package_or_packages,
{
    match package_or_packages {
        PackageOrPackagesView::Package(f0) => {
            lemma_settled_identifier(d, f0.name);
            lemma_spans_identifier(d, f0.name);
        },
        PackageOrPackagesView::Packages(f0) => {
            lemma_settled_identifier(d, f0.name);
            lemma_spans_identifier(d, f0.name);
        },
    }
}

/// What the canonicalizer gives for an import speaks of no place but those of what it was given.
pub proof fn lemma_spans_import(d: DirectorView<()>, import: ImportStatementView)
    ensures
        walk_import::<Canonicalizer>(d, import).1 matches Ok(given) ==>
            import_statement_spans(given).subset_of(
            import_statement_spans(import),
        ),
    decreases import,
{
    lemma_settled_package_or_packages(d, import.package_or_packages);
    lemma_spans_package_or_packages(d, import.package_or_packages);
}

/// What the canonicalizer gives for a member of a circuit speaks of no place but those of what it was given.
pub proof fn lemma_spans_circuit_member(d: DirectorView<()>, circuit_member: CircuitMemberView)
    ensures
        walk_circuit_member::<Canonicalizer>(d, circuit_member).1 matches Ok(given) ==>
            circuit_member_spans(given).subset_of(
            circuit_member_spans(circuit_member),
        ),
    decreases circuit_member,
{
    let inner = DirectorView { reducer: d.reducer, in_circuit: !d.in_circuit };
    match circuit_member {
        CircuitMemberView::CircuitVariable(f0, f1) => {
            lemma_settled_identifier(inner, f0);
            lemma_spans_identifier(inner, f0);
            lemma_settled_type(inner, f1, f0.span);
            lemma_spans_type(inner, f1, f0.span);
        },
        CircuitMemberView::CircuitFunction(f0) => {
            lemma_settled_function(inner, f0);
            lemma_spans_function(inner, f0);
        },
    }
}

/// What the canonicalizer gives for a circuit speaks of no place but those of what it was given.
pub proof fn lemma_spans_circuit(d: DirectorView<()>, circuit: CircuitView)
    ensures
        walk_circuit::<Canonicalizer>(d, circuit).1 matches Ok(given) ==>
            circuit_spans(given).subset_of(
            circuit_spans(circuit),
        ),
    decreases circuit,
{
    let name = circuit.circuit_name;
    lemma_settled_identifier(d, name);
    lemma_spans_identifier(d, name);
    lemma_settled_circuit_members(d, circuit.members);
    lemma_spans_circuit_members(d, circuit.members);
    match walk_circuit_members::<Canonicalizer>(d, circuit.members).1 {
        Ok(members) => {
            match resolved_members(name, members, members.len()) {
                Ok(resolved) => {
                    lemma_resolved_members_each(name, members, members.len());
                    assert forall|i: int| 0 <= i < members.len() implies circuit_member_spans(
                        #[trigger] resolved[i],
                    ).subset_of(circuit_member_spans(members[i])) by {
                        let s = resolving(name, members, members[i]);
                        match members[i] {
                            CircuitMemberView::CircuitFunction(function) => {
                                lemma_receivers_exclude_self(members, bound_in_function(function));
                            },
                            _ => {},
                        }
                        assert(resolved_member(name, members, members[i])
                            == walk_circuit_member::<SelfResolver>(s, members[i]).1);
                        lemma_resolution_spans_circuit_member(s, members[i]);
                    }
                    lemma_member_spans_each(resolved, members);
                },
                Err(_) => {},
            }
        },
        Err(_) => {},
    }
}

/// What the canonicalizer gives for an annotation speaks of no place but those of what it was given.
pub proof fn lemma_spans_annotation(d: DirectorView<()>, annotation: AnnotationView)
    ensures
        walk_annotation::<Canonicalizer>(d, annotation).1 matches Ok(given) ==>
            annotation_spans(given).subset_of(
            annotation_spans(annotation),
        ),
    decreases annotation,
{
    lemma_settled_identifier(d, annotation.name);
    lemma_spans_identifier(d, annotation.name);
}

/// What the canonicalizer gives for a function speaks of no place but those of what it was given.
pub proof fn lemma_spans_function(d: DirectorView<()>, function: FunctionView)
    ensures
        walk_function::<Canonicalizer>(d, function).1 matches Ok(given) ==>
            function_spans(given).subset_of(
            function_spans(function),
        ),
    decreases function,
{
    lemma_settled_identifier(d, function.identifier);
    lemma_spans_identifier(d, function.identifier);
    lemma_settled_annotations(d, function.annotations);
    lemma_spans_annotations(d, function.annotations);
    lemma_settled_function_inputs(d, function.input);
    lemma_spans_function_inputs(d, function.input);
    match function.output {
        Some(v) => {
            lemma_settled_type(d, v, function.span);
            lemma_spans_type(d, v, function.span);
        },
        None => {},
    }
    lemma_settled_block(d, function.block);
    lemma_spans_block(d, function.block);
}

/// What the canonicalizer gives for a list speaks of no place but those of what it was given.
pub proof fn lemma_spans_types(d: DirectorView<()>, items: Seq<TypeView>, span: Span)
    ensures
        walk_types::<Canonicalizer>(d, items, span).1 matches Ok(given) ==>
            type_seq_spans(given).subset_of(
            type_seq_spans(items).insert(span),
        ),
    decreases items,
{
    if items.len() > 0 {
        lemma_settled_types(d, items.drop_last(), span);
        lemma_spans_types(d, items.drop_last(), span);
        lemma_spans_type(d, items.last(), span);
        match walk_types::<Canonicalizer>(d, items, span).1 {
            Ok(given) => {
                let done = walk_types::<Canonicalizer>(d, items.drop_last(), span).1->Ok_0;
                let node = walk_type::<Canonicalizer>(d, items.last(), span).1->Ok_0;
                assert(given == done.push(node));
                assert(given.drop_last() =~= done);
                assert(given.last() == node);
            },
            Err(_) => {},
        }
    }
}

/// What the canonicalizer gives for a list speaks of no place but those of what it was given.
pub proof fn lemma_spans_spread_or_expressions(
    d: DirectorView<()>,
    items: Seq<SpreadOrExpressionView>,
)
    ensures
        walk_spread_or_expressions::<Canonicalizer>(d, items).1 matches Ok(given) ==>
            spread_or_expression_seq_spans(given).subset_of(
            spread_or_expression_seq_spans(items),
        ),
    decreases items,
{
    if items.len() > 0 {
        lemma_settled_spread_or_expressions(d, items.drop_last());
        lemma_spans_spread_or_expressions(d, items.drop_last());
        lemma_spans_spread_or_expression(d, items.last());
        match walk_spread_or_expressions::<Canonicalizer>(d, items).1 {
            Ok(given) => {
                let done = walk_spread_or_expressions::<Canonicalizer>(
                    d,
                    items.drop_last(),
                ).1->Ok_0;
                let node = walk_spread_or_expression::<Canonicalizer>(d, items.last()).1->Ok_0;
                assert(given == done.push(node));
                assert(given.drop_last() =~= done);
                assert(given.last() == node);
            },
            Err(_) => {},
        }
    }
}

/// What the canonicalizer gives for a list speaks of no place but those of what it was given.
pub proof fn lemma_spans_expressions(d: DirectorView<()>, items: Seq<ExpressionView>)
    ensures
        walk_expressions::<Canonicalizer>(d, items).1 matches Ok(given) ==>
            expression_seq_spans(given).subset_of(
            expression_seq_spans(items),
        ),
    decreases items,
{
    if items.len() > 0 {
        lemma_settled_expressions(d, items.drop_last());
        lemma_spans_expressions(d, items.drop_last());
        lemma_spans_expression(d, items.last());
        match walk_expressions::<Canonicalizer>(d, items).1 {
            Ok(given) => {
                let done = walk_expressions::<Canonicalizer>(d, items.drop_last()).1->Ok_0;
                let node = walk_expression::<Canonicalizer>(d, items.last()).1->Ok_0;
                assert(given == done.push(node));
                assert(given.drop_last() =~= done);
                assert(given.last() == node);
            },
            Err(_) => {},
        }
    }
}

/// What the canonicalizer gives for a list speaks of no place but those of what it was given.
pub proof fn lemma_spans_circuit_implied_variable_definitions(
    d: DirectorView<()>,
    items: Seq<CircuitImpliedVariableDefinitionView>,
)
    ensures
        walk_circuit_implied_variable_definitions::<Canonicalizer>(d, items).1 matches Ok(given) ==>
            circuit_implied_variable_definition_seq_spans(given).subset_of(
            circuit_implied_variable_definition_seq_spans(items),
        ),
    decreases items,
{
    if items.len() > 0 {
        lemma_settled_circuit_implied_variable_definitions(d, items.drop_last());
        lemma_spans_circuit_implied_variable_definitions(d, items.drop_last());
        lemma_spans_circuit_implied_variable_definition(d, items.last());
        match walk_circuit_implied_variable_definitions::<Canonicalizer>(d, items).1 {
            Ok(given) => {
                let done = walk_circuit_implied_variable_definitions::<Canonicalizer>(
                    d,
                    items.drop_last(),
                ).1->Ok_0;
                let node = walk_circuit_implied_variable_definition::<Canonicalizer>(
                    d,
                    items.last(),
                ).1->Ok_0;
                assert(given == done.push(node));
                assert(given.drop_last() =~= done);
                assert(given.last() == node);
            },
            Err(_) => {},
        }
    }
}

/// What the canonicalizer gives for a list speaks of no place but those of what it was given.
pub proof fn lemma_spans_variable_names(d: DirectorView<()>, items: Seq<VariableNameView>)
    ensures
        walk_variable_names::<Canonicalizer>(d, items).1 matches Ok(given) ==>
            variable_name_seq_spans(given).subset_of(
            variable_name_seq_spans(items),
        ),
    decreases items,
{
    if items.len() > 0 {
        lemma_settled_variable_names(d, items.drop_last());
        lemma_spans_variable_names(d, items.drop_last());
        lemma_spans_variable_name(d, items.last());
        match walk_variable_names::<Canonicalizer>(d, items).1 {
            Ok(given) => {
                let done = walk_variable_names::<Canonicalizer>(d, items.drop_last()).1->Ok_0;
                let node = walk_variable_name::<Canonicalizer>(d, items.last()).1->Ok_0;
                assert(given == done.push(node));
                assert(given.drop_last() =~= done);
                assert(given.last() == node);
            },
            Err(_) => {},
        }
    }
}

/// What the canonicalizer gives for a list speaks of no place but those of what it was given.
pub proof fn lemma_spans_assignee_accesses(d: DirectorView<()>, items: Seq<AssigneeAccessView>)
    ensures
        walk_assignee_accesses::<Canonicalizer>(d, items).1 matches Ok(given) ==>
            assignee_access_seq_spans(given).subset_of(
            assignee_access_seq_spans(items),
        ),
    decreases items,
{
    if items.len() > 0 {
        lemma_settled_assignee_accesses(d, items.drop_last());
        lemma_spans_assignee_accesses(d, items.drop_last());
        lemma_spans_assignee_access(d, items.last());
        match walk_assignee_accesses::<Canonicalizer>(d, items).1 {
            Ok(given) => {
                let done = walk_assignee_accesses::<Canonicalizer>(d, items.drop_last()).1->Ok_0;
                let node = walk_assignee_access::<Canonicalizer>(d, items.last()).1->Ok_0;
                assert(given == done.push(node));
                assert(given.drop_last() =~= done);
                assert(given.last() == node);
            },
            Err(_) => {},
        }
    }
}

/// What the canonicalizer gives for a list speaks of no place but those of what it was given.
pub proof fn lemma_spans_statements(d: DirectorView<()>, items: Seq<StatementView>)
    ensures
        walk_statements::<Canonicalizer>(d, items).1 matches Ok(given) ==>
            statement_seq_spans(given).subset_of(
            statement_seq_spans(items),
        ),
    decreases items,
{
    if items.len() > 0 {
        lemma_settled_statements(d, items.drop_last());
        lemma_spans_statements(d, items.drop_last());
        lemma_spans_statement(d, items.last());
        match walk_statements::<Canonicalizer>(d, items).1 {
            Ok(given) => {
                let done = walk_statements::<Canonicalizer>(d, items.drop_last()).1->Ok_0;
                let node = walk_statement::<Canonicalizer>(d, items.last()).1->Ok_0;
                assert(given == done.push(node));
                assert(given.drop_last() =~= done);
                assert(given.last() == node);
            },
            Err(_) => {},
        }
    }
}

/// What the canonicalizer gives for a list speaks of no place but those of what it was given.
pub proof fn lemma_spans_function_inputs(d: DirectorView<()>, items: Seq<FunctionInputView>)
    ensures
        walk_function_inputs::<Canonicalizer>(d, items).1 matches Ok(given) ==>
            function_input_seq_spans(given).subset_of(
            function_input_seq_spans(items),
        ),
    decreases items,
{
    if items.len() > 0 {
        lemma_settled_function_inputs(d, items.drop_last());
        lemma_spans_function_inputs(d, items.drop_last());
        lemma_spans_function_input(d, items.last());
        match walk_function_inputs::<Canonicalizer>(d, items).1 {
            Ok(given) => {
                let done = walk_function_inputs::<Canonicalizer>(d, items.drop_last()).1->Ok_0;
                let node = walk_function_input::<Canonicalizer>(d, items.last()).1->Ok_0;
                assert(given == done.push(node));
                assert(given.drop_last() =~= done);
                assert(given.last() == node);
            },
            Err(_) => {},
        }
    }
}

/// What the canonicalizer gives for a list speaks of no place but those of what it was given.
pub proof fn lemma_spans_imports(d: DirectorView<()>, items: Seq<ImportStatementView>)
    ensures
        walk_imports::<Canonicalizer>(d, items).1 matches Ok(given) ==>
            import_statement_seq_spans(given).subset_of(
            import_statement_seq_spans(items),
        ),
    decreases items,
{
    if items.len() > 0 {
        lemma_settled_imports(d, items.drop_last());
        lemma_spans_imports(d, items.drop_last());
        lemma_spans_import(d, items.last());
        match walk_imports::<Canonicalizer>(d, items).1 {
            Ok(given) => {
                let done = walk_imports::<Canonicalizer>(d, items.drop_last()).1->Ok_0;
                let node = walk_import::<Canonicalizer>(d, items.last()).1->Ok_0;
                assert(given == done.push(node));
                assert(given.drop_last() =~= done);
                assert(given.last() == node);
            },
            Err(_) => {},
        }
    }
}

/// What the canonicalizer gives for a list speaks of no place but those of what it was given.
pub proof fn lemma_spans_circuit_members(d: DirectorView<()>, items: Seq<CircuitMemberView>)
    ensures
        walk_circuit_members::<Canonicalizer>(d, items).1 matches Ok(given) ==>
            circuit_member_seq_spans(given).subset_of(
            circuit_member_seq_spans(items),
        ),
    decreases items,
{
    if items.len() > 0 {
        lemma_settled_circuit_members(d, items.drop_last());
        lemma_spans_circuit_members(d, items.drop_last());
        lemma_spans_circuit_member(d, items.last());
        match walk_circuit_members::<Canonicalizer>(d, items).1 {
            Ok(given) => {
                let done = walk_circuit_members::<Canonicalizer>(d, items.drop_last()).1->Ok_0;
                let node = walk_circuit_member::<Canonicalizer>(d, items.last()).1->Ok_0;
                assert(given == done.push(node));
                assert(given.drop_last() =~= done);
                assert(given.last() == node);
            },
            Err(_) => {},
        }
    }
}

/// What the canonicalizer gives for a list speaks of no place but those of what it was given.
pub proof fn lemma_spans_annotations(d: DirectorView<()>, items: Seq<AnnotationView>)
    ensures
        walk_annotations::<Canonicalizer>(d, items).1 matches Ok(given) ==>
            annotation_seq_spans(given).subset_of(
            annotation_seq_spans(items),
        ),
    decreases items,
{
    if items.len() > 0 {
        lemma_settled_annotations(d, items.drop_last());
        lemma_spans_annotations(d, items.drop_last());
        lemma_spans_annotation(d, items.last());
        match walk_annotations::<Canonicalizer>(d, items).1 {
            Ok(given) => {
                let done = walk_annotations::<Canonicalizer>(d, items.drop_last()).1->Ok_0;
                let node = walk_annotation::<Canonicalizer>(d, items.last()).1->Ok_0;
                assert(given == done.push(node));
                assert(given.drop_last() =~= done);
                assert(given.last() == node);
            },
            Err(_) => {},
        }
    }
}

/// Entries that each have the key of the entry at the same position, and
/// speak of no place but those of that entry, speak, together, of no place but
/// those of these entries.
pub proof fn lemma_circuit_entries_spans_each(
    first: Seq<(IdentifierView, CircuitView)>,
    second: Seq<(IdentifierView, CircuitView)>,
)
    requires
        first.len() == second.len(),
        forall|i: int|
            0 <= i < first.len() ==> (#[trigger] first[i]).0 == second[i].0 && circuit_spans(
                first[i].1,
            ).subset_of(circuit_spans(second[i].1)),
    ensures
        circuit_entries_spans(first).subset_of(circuit_entries_spans(second)),
    decreases first.len(),
{
    if first.len() > 0 {
        assert forall|i: int| 0 <= i < first.drop_last().len() implies (
        #[trigger] first.drop_last()[i]).0 == second.drop_last()[i].0 && circuit_spans(
            first.drop_last()[i].1,
        ).subset_of(circuit_spans(second.drop_last()[i].1)) by {
            assert(first.drop_last()[i] == first[i]);
            assert(second.drop_last()[i] == second[i]);
        }
        lemma_circuit_entries_spans_each(first.drop_last(), second.drop_last());
        assert(first[first.len() - 1].0 == second[first.len() - 1].0);
    }
}

/// What the canonicalizer gives for a map of circuits speaks of no place but
/// those of the map.
pub proof fn lemma_spans_circuit_entries(
    d: DirectorView<()>,
    entries: Seq<(IdentifierView, CircuitView)>,
)
    requires
        distinct_keys(entries),
    ensures
        walk_circuit_entries::<Canonicalizer>(d, entries).1 matches Ok(given) ==>
            circuit_entries_spans(
            given,
        ).subset_of(circuit_entries_spans(entries)),
{
    lemma_circuit_entries_walked(d, entries);
    match walk_circuit_entries::<Canonicalizer>(d, entries).1 {
        Ok(given) => {
            assert forall|i: int| 0 <= i < given.len() implies (#[trigger] given[i]).0
                == entries[i].0 && circuit_spans(given[i].1).subset_of(
                circuit_spans(entries[i].1),
            ) by {
                lemma_spans_circuit(d, entries[i].1);
            }
            lemma_circuit_entries_spans_each(given, entries);
        },
        Err(_) => {},
    }
}

/// Entries that each have the key of the entry at the same position, and
/// speak of no place but those of that entry, speak, together, of no place but
/// those of these entries.
pub proof fn lemma_function_entries_spans_each(
    first: Seq<(IdentifierView, FunctionView)>,
    second: Seq<(IdentifierView, FunctionView)>,
)
    requires
        first.len() == second.len(),
        forall|i: int|
            0 <= i < first.len() ==> (#[trigger] first[i]).0 == second[i].0 && function_spans(
                first[i].1,
            ).subset_of(function_spans(second[i].1)),
    ensures
        function_entries_spans(first).subset_of(function_entries_spans(second)),
    decreases first.len(),
{
    if first.len() > 0 {
        assert forall|i: int| 0 <= i < first.drop_last().len() implies (
        #[trigger] first.drop_last()[i]).0 == second.drop_last()[i].0 && function_spans(
            first.drop_last()[i].1,
        ).subset_of(function_spans(second.drop_last()[i].1)) by {
            assert(first.drop_last()[i] == first[i]);
            assert(second.drop_last()[i] == second[i]);
        }
        lemma_function_entries_spans_each(first.drop_last(), second.drop_last());
        assert(first[first.len() - 1].0 == second[first.len() - 1].0);
    }
}

/// What the canonicalizer gives for a map of functions speaks of no place but
/// those of the map.
pub proof fn lemma_spans_function_entries(
    d: DirectorView<()>,
    entries: Seq<(IdentifierView, FunctionView)>,
)
    requires
        distinct_keys(entries),
    ensures
        walk_function_entries::<Canonicalizer>(d, entries).1 matches Ok(given) ==>
            function_entries_spans(
            given,
        ).subset_of(function_entries_spans(entries)),
{
    lemma_function_entries_walked(d, entries);
    match walk_function_entries::<Canonicalizer>(d, entries).1 {
        Ok(given) => {
            assert forall|i: int| 0 <= i < given.len() implies (#[trigger] given[i]).0
                == entries[i].0 && function_spans(given[i].1).subset_of(
                function_spans(entries[i].1),
            ) by {
                lemma_spans_function(d, entries[i].1);
            }
            lemma_function_entries_spans_each(given, entries);
        },
        Err(_) => {},
    }
}

/// What the canonicalizer gives for a program speaks of no place but those of
/// the program.
pub proof fn lemma_spans_program(d: DirectorView<()>, program: ProgramView)
    requires
        distinct_keys(program.circuits),
        distinct_keys(program.functions),
    ensures
        walk_program::<Canonicalizer>(d, program).1 matches Ok(given) ==> program_spans(
            given,
        ).subset_of(program_spans(program)),
{
    lemma_settled_function_inputs(d, program.expected_input);
    lemma_spans_function_inputs(d, program.expected_input);
    lemma_settled_imports(d, program.imports);
    lemma_spans_imports(d, program.imports);
    lemma_circuit_entries_walked(d, program.circuits);
    lemma_spans_circuit_entries(d, program.circuits);
    lemma_function_entries_walked(d, program.functions);
    lemma_spans_function_entries(d, program.functions);
}

/// Canonicalization invents no place: every node of the canonical form of a
/// program stands at the place of a node of the program.
pub proof fn lemma_canonicalization_keeps_spans(program: ProgramView)
    requires
        distinct_keys(program.circuits),
        distinct_keys(program.functions),
    ensures
        canonical_program(program) matches Ok(canonical) ==> program_spans(canonical).subset_of(
            program_spans(program),
        ),
{
    lemma_spans_program(DirectorView { reducer: (), in_circuit: false }, program);
}

} // verus!
