//! The canonical form of a program.
use crate::ast::common::{Identifier, IdentifierView};
use crate::ast::expression::{
    ArrayAccessExpression, ArrayAccessExpressionView, ArrayInitExpression, ArrayInitExpressionView,
    ArrayInlineExpression, ArrayInlineExpressionView, ArrayRangeAccessExpression,
    ArrayRangeAccessExpressionView, BinaryExpression, BinaryExpressionView, BinaryOperation,
    CallExpression, CallExpressionView, CastExpression, CastExpressionView,
    CircuitImpliedVariableDefinition, CircuitImpliedVariableDefinitionView, CircuitInitExpression,
    CircuitInitExpressionView, CircuitMemberAccessExpression, CircuitMemberAccessExpressionView,
    CircuitStaticFunctionAccessExpression, CircuitStaticFunctionAccessExpressionView, Expression,
    ExpressionView, GroupTuple, GroupTupleView, GroupValue, GroupValueView, SpreadOrExpression,
    SpreadOrExpressionView, TernaryExpression, TernaryExpressionView, TupleAccessExpression,
    TupleAccessExpressionView, TupleInitExpression, TupleInitExpressionView, UnaryExpression,
    UnaryExpressionView, UnaryOperation, ValueExpression, ValueExpressionView,
};
use crate::ast::function::{
    Annotation, AnnotationView, Circuit, circuit_member_seq_view, CircuitMember, CircuitMemberView,
    CircuitView, Function, function_input_seq_view, FunctionInput, FunctionInputVariable,
    FunctionInputVariableView, FunctionInputView, FunctionView,
};
use crate::ast::imports::{
    ImportStatement, ImportStatementView, PackageOrPackages, PackageOrPackagesView,
};
use crate::ast::program::{Program, ProgramView};
use crate::ast::statement::{
    Assignee, assignee_access_seq_view, AssigneeAccess, AssigneeAccessView, AssigneeView,
    AssignStatement, AssignStatementView, Block, BlockView, ConditionalStatement,
    ConditionalStatementView, ConsoleFunction, ConsoleFunctionView, ConsoleStatement,
    ConsoleStatementView, DefinitionStatement, DefinitionStatementView, ExpressionStatement,
    ExpressionStatementView, IterationStatement, IterationStatementView, ReturnStatement,
    ReturnStatementView, Statement, statement_seq_view, StatementView, variable_name_seq_view,
    VariableName, VariableNameView,
};
use crate::ast::types::{Type, TypeView};
use crate::ast::program::keys;
use crate::ast::spans::program_spans;
use crate::errors::CanonicalizeError;
use crate::reducer::idempotence::{
    lemma_canonicalization_is_idempotent, lemma_canonicalization_keeps_order,
};
use crate::reducer::spans_kept::lemma_canonicalization_keeps_spans;
use crate::reducer::reconstructing_reducer::{
    rebuild_annotation, rebuild_array_access, rebuild_array_inline, rebuild_array_range_access,
    rebuild_assignee, rebuild_binary, rebuild_block, rebuild_call, rebuild_cast,
    rebuild_circuit_implied_variable_definition, rebuild_circuit_init,
    rebuild_circuit_member_access, rebuild_circuit_static_fn_access, rebuild_conditional,
    rebuild_console, rebuild_definition, rebuild_expression_statement, rebuild_function,
    rebuild_function_input_variable, rebuild_group_tuple, rebuild_identifier, rebuild_import,
    rebuild_iteration, rebuild_program, rebuild_return, rebuild_ternary, rebuild_tuple_access,
    rebuild_tuple_init, rebuild_unary, rebuild_variable_name, rebuilt_annotation,
    rebuilt_array_access, rebuilt_array_inline, rebuilt_array_range_access, rebuilt_assignee,
    rebuilt_binary, rebuilt_block, rebuilt_call, rebuilt_cast,
    rebuilt_circuit_implied_variable_definition, rebuilt_circuit_init,
    rebuilt_circuit_member_access, rebuilt_circuit_static_fn_access, rebuilt_conditional,
    rebuilt_console, rebuilt_definition, rebuilt_expression_statement, rebuilt_function,
    rebuilt_function_input_variable, rebuilt_group_tuple, rebuilt_identifier, rebuilt_import,
    rebuilt_iteration, rebuilt_program, rebuilt_return, rebuilt_ternary, rebuilt_tuple_access,
    rebuilt_tuple_init, rebuilt_unary, rebuilt_variable_name, ReconstructingReducer, reduced,
};
use crate::span::Span;
use crate::ast::common::strings_view;
use crate::ast::statement::AssignOperation;
use crate::ast::types::type_view;
use crate::reducer::reconstructing_director::{
    DirectorView, ReconstructingDirector, walk_circuit_member, walk_program,
};
use crate::reducer::self_resolver::{contains_name, SelfResolver, SelfResolverView};
use vstd::string::*;
use indexmap::IndexMap;
use vstd::prelude::*;

verus! {

/// The reducer that brings a program into its canonical form. A compound
/// assignment becomes a plain one. An array of arrays becomes one array with
/// all the dimensions in order. An array initialiser with several dimensions
/// becomes nested initialisers of one dimension each. In the members of a
/// circuit the receiver is made explicit. `Self` outside a circuit, and an
/// array without dimensions or with a dimension of size zero, are failures.
#[derive(Clone, Copy, Debug, PartialEq, Eq)]
pub struct Canonicalizer;

impl View for Canonicalizer {
    type V = ();

    open spec fn view(&self) -> () {
        ()
    }
}

impl Default for Canonicalizer {
    fn default() -> (r: Self) {
        Canonicalizer
    }
}

/// True if there is a dimension and none is of size zero.
pub open spec fn valid_dimensions(dimensions: Seq<usize>) -> bool {
    dimensions.len() > 0 && forall|i: int| 0 <= i < dimensions.len() ==> dimensions[i] != 0
}

/// True if there is a dimension and none is of size zero.
pub fn dimensions_are_valid(dimensions: &Vec<usize>) -> (r: bool)
    ensures
        r == valid_dimensions(dimensions@),
{
    if dimensions.len() == 0 {
        return false;
    }
    let mut i: usize = 0;
    while i < dimensions.len()
        invariant
            i <= dimensions.len(),
            forall|j: int| 0 <= j < i ==> dimensions[j] != 0,
        decreases dimensions.len() - i,
    {
        if dimensions[i] == 0 {
            return false;
        }
        i = i + 1;
    }
    true
}

/// The canonical form of a type whose parts are canonical. An array of an
/// array takes the dimensions of both, the outer ones first.
pub open spec fn canonical_type(new: TypeView, in_circuit: bool, span: Span) -> Result<
    TypeView,
    CanonicalizeError,
> {
    match new {
        TypeView::Array(element, dimensions) => if !valid_dimensions(dimensions) {
            Err(CanonicalizeError::InvalidArrayDimensions { span })
        } else {
            match *element {
                TypeView::Array(inner, inner_dimensions) => Ok(
                    TypeView::Array(inner, dimensions + inner_dimensions),
                ),
                _ => Ok(new),
            }
        },
        TypeView::SelfType => if in_circuit {
            Ok(new)
        } else {
            Err(CanonicalizeError::SelfOutsideCircuit { span })
        },
        _ => Ok(new),
    }
}

/// The canonical form of a type whose parts are canonical.
pub fn canonicalize_type(new: Type, in_circuit: bool, span: &Span) -> (r: Result<
    Type,
    CanonicalizeError,
>)
    ensures
        reduced(r) == canonical_type(new@, in_circuit, *span),
{
    match new {
        Type::Array(element, dimensions) => {
            if !dimensions_are_valid(&dimensions) {
                return Err(CanonicalizeError::InvalidArrayDimensions { span: *span });
            }
            let ghost element_view = type_view(*element);
            match *element {
                Type::Array(inner, inner_dimensions) => {
                    assert(element_view == TypeView::Array(
                        Box::new(type_view(*inner)),
                        inner_dimensions@,
                    ));
                    let mut all = dimensions;
                    let mut rest = inner_dimensions;
                    all.append(&mut rest);
                    Ok(Type::Array(inner, all))
                },
                other => {
                    assert(element_view == other@);
                    Ok(Type::Array(Box::new(other), dimensions))
                },
            }
        },
        Type::SelfType => if in_circuit {
            Ok(Type::SelfType)
        } else {
            Err(CanonicalizeError::SelfOutsideCircuit { span: *span })
        },
        other => Ok(other),
    }
}

/// The initialiser of an array of `element` with `dimensions` as nested
/// initialisers of one dimension each, the first dimension outermost.
pub open spec fn nested_init(element: ExpressionView, dimensions: Seq<usize>, span: Span)
    -> ArrayInitExpressionView
    decreases dimensions.len(),
{
    if dimensions.len() <= 1 {
        ArrayInitExpressionView { element: Box::new(element), dimensions, span }
    } else {
        ArrayInitExpressionView {
            element: Box::new(
                ExpressionView::ArrayInit(
                    nested_init(element, dimensions.subrange(1, dimensions.len() as int), span),
                ),
            ),
            dimensions: seq![dimensions[0]],
            span,
        }
    }
}

/// The canonical form of an array initialiser whose element is canonical.
pub open spec fn canonical_array_init(array_init: ArrayInitExpressionView, element: ExpressionView)
    -> Result<ArrayInitExpressionView, CanonicalizeError> {
    if !valid_dimensions(array_init.dimensions) {
        Err(CanonicalizeError::InvalidArrayDimensions { span: array_init.span })
    } else {
        Ok(nested_init(element, array_init.dimensions, array_init.span))
    }
}

/// The canonical form of an array initialiser whose element is canonical.
pub fn canonicalize_array_init(array_init: &ArrayInitExpression, element: Expression) -> (r: Result<
    ArrayInitExpression,
    CanonicalizeError,
>)
    ensures
        reduced(r) == canonical_array_init(array_init@, element@),
{
    if !dimensions_are_valid(&array_init.dimensions) {
        return Err(CanonicalizeError::InvalidArrayDimensions { span: array_init.span });
    }
    let span = array_init.span;
    let ghost dimensions = array_init.dimensions@;
    let ghost item = element@;
    let mut i: usize = array_init.dimensions.len() - 1;
    let mut innermost: Vec<usize> = Vec::new();
    innermost.push(array_init.dimensions[i]);
    let mut current = ArrayInitExpression { element: Box::new(
        element,
    ), dimensions: innermost, span };
    assert(current.dimensions@ =~= dimensions.subrange(i as int, dimensions.len() as int));
    while i > 0
        invariant
            i < dimensions.len(),
            dimensions == array_init.dimensions@,
            current@ ==
                nested_init(item, dimensions.subrange(i as int, dimensions.len() as int), span),
        decreases i,
    {
        i = i - 1;
        let mut outer: Vec<usize> = Vec::new();
        outer.push(array_init.dimensions[i]);
        let ghost tail = dimensions.subrange(i as int, dimensions.len() as int);
        assert(tail.subrange(1, tail.len() as int) =~= dimensions.subrange(
            i + 1,
            dimensions.len() as int,
        ));
        assert(outer@ =~= seq![tail[0]]);
        current =
        ArrayInitExpression {
            element: Box::new(Expression::ArrayInit(current)),
            dimensions: outer,
            span,
        };
    }
    assert(dimensions.subrange(0, dimensions.len() as int) =~= dimensions);
    Ok(current)
}

/// The binary operation of a compound assignment.
pub open spec fn compound_operation(operation: AssignOperation) -> BinaryOperation {
    match operation {
        AssignOperation::Assign => BinaryOperation::Eq,
        AssignOperation::Add => BinaryOperation::Add,
        AssignOperation::Sub => BinaryOperation::Sub,
        AssignOperation::Mul => BinaryOperation::Mul,
        AssignOperation::Div => BinaryOperation::Div,
        AssignOperation::Pow => BinaryOperation::Pow,
    }
}

/// The expression that reads what `accesses` lead to from `base`, each access
/// at the place `span`. A range of an array is no place that a compound
/// assignment can read.
pub open spec fn place_expression(
    base: ExpressionView,
    accesses: Seq<AssigneeAccessView>,
    span: Span,
)
    -> Result<ExpressionView, CanonicalizeError>
    decreases accesses.len(),
{
    if accesses.len() == 0 {
        Ok(base)
    } else {
        match place_expression(base, accesses.drop_last(), span) {
            Err(e) => Err(e),
            Ok(inner) => match accesses.last() {
                AssigneeAccessView::ArrayRange(_, _) => Err(
                    CanonicalizeError::InvalidCompoundAssignment { span },
                ),
                AssigneeAccessView::ArrayIndex(index) => Ok(
                    ExpressionView::ArrayAccess(
                        ArrayAccessExpressionView {
                            array: Box::new(inner),
                            index: Box::new(index),
                            span,
                        },
                    ),
                ),
                AssigneeAccessView::Tuple(index, _) => Ok(
                    ExpressionView::TupleAccess(
                        TupleAccessExpressionView { tuple: Box::new(inner), index, span },
                    ),
                ),
                AssigneeAccessView::Member(name) => Ok(
                    ExpressionView::CircuitMemberAccess(
                        CircuitMemberAccessExpressionView { circuit: Box::new(inner), name, span },
                    ),
                ),
            },
        }
    }
}

/// The canonical form of an assignment whose parts are canonical: a compound
/// assignment becomes the plain assignment of the operation on what stood at
/// the place before and the value, at the place of the assignment.
pub open spec fn canonical_assign(
    assign: AssignStatementView,
    assignee: AssigneeView,
    value: ExpressionView,
) -> Result<AssignStatementView, CanonicalizeError> {
    if assign.operation == AssignOperation::Assign {
        Ok(
            AssignStatementView { operation: AssignOperation::Assign, assignee, value, span: assign.span },
        )
    } else {
        match place_expression(
            ExpressionView::Identifier(assignee.identifier),
            assignee.accesses,
            assign.span,
        ) {
            Err(e) => Err(e),
            Ok(left) => Ok(
                AssignStatementView {
                    operation: AssignOperation::Assign,
                    assignee,
                    value: ExpressionView::Binary(
                        BinaryExpressionView {
                            left: Box::new(left),
                            right: Box::new(value),
                            op: compound_operation(assign.operation),
                            span: assign.span,
                        },
                    ),
                    span: assign.span,
                },
            ),
        }
    }
}

/// The canonical form of an assignment whose parts are canonical.
pub fn canonicalize_assign(assign: &AssignStatement, assignee: Assignee, value: Expression) -> (r:
    Result<AssignStatement, CanonicalizeError>)
    ensures
        reduced(r) == canonical_assign(assign@, assignee@, value@),
{
    let span = assign.span;
    let op = match assign.operation {
        AssignOperation::Assign => {
            return Ok(
                AssignStatement { operation: AssignOperation::Assign, assignee, value, span },
            );
        },
        AssignOperation::Add => BinaryOperation::Add,
        AssignOperation::Sub => BinaryOperation::Sub,
        AssignOperation::Mul => BinaryOperation::Mul,
        AssignOperation::Div => BinaryOperation::Div,
        AssignOperation::Pow => BinaryOperation::Pow,
    };
    let mut left = Expression::Identifier(assignee.identifier.clone());
    let ghost base = left@;
    let ghost accesses = assignee_access_seq_view(assignee.accesses@);
    let mut i: usize = 0;
    assert(accesses.take(0) =~= Seq::<AssigneeAccessView>::empty());
    while i < assignee.accesses.len()
        invariant
            i <= assignee.accesses.len(),
            span == assign.span,
            assign.operation != AssignOperation::Assign,
            base == ExpressionView::Identifier(assignee.identifier@),
            accesses == assignee_access_seq_view(assignee.accesses@),
            place_expression(base, accesses.take(i as int), span) == Ok::<
                ExpressionView,
                CanonicalizeError,
            >(left@),
        decreases assignee.accesses.len() - i,
    {
        proof {
            assert(accesses.take(i + 1).drop_last() =~= accesses.take(i as int));
            assert(accesses.take(i + 1).last() == assignee.accesses[i as int]@);
        }
        left = match &assignee.accesses[i] {
            AssigneeAccess::ArrayRange(_, _) => {
                proof {
                    lemma_place_expression_fails(base, accesses, span, i as int);
                }
                return Err(CanonicalizeError::InvalidCompoundAssignment { span });
            },
            AssigneeAccess::ArrayIndex(index) => Expression::ArrayAccess(
                ArrayAccessExpression {
                    array: Box::new(left),
                    index: Box::new(index.clone()),
                    span,
                },
            ),
            AssigneeAccess::Tuple(index, _) => Expression::TupleAccess(
                TupleAccessExpression { tuple: Box::new(left), index: *index, span },
            ),
            AssigneeAccess::Member(name) => Expression::CircuitMemberAccess(
                CircuitMemberAccessExpression { circuit: Box::new(left), name: name.clone(), span },
            ),
        };
        i = i + 1;
    }
    assert(accesses.take(i as int) =~= accesses);
    Ok(
        AssignStatement {
            operation: AssignOperation::Assign,
            assignee,
            value: Expression::Binary(
                BinaryExpression { left: Box::new(left), right: Box::new(value), op, span },
            ),
            span,
        },
    )
}

/// A failure among the first accesses is the failure of them all.
pub proof fn lemma_place_expression_fails(
    base: ExpressionView,
    accesses: Seq<AssigneeAccessView>,
    span: Span,
    i: int,
)
    requires
        0 <= i < accesses.len(),
        place_expression(base, accesses.take(i + 1), span) is Err,
    ensures
        place_expression(base, accesses, span) ==
            place_expression(base, accesses.take(i + 1), span),
    decreases accesses.len(),
{
    if i + 1 == accesses.len() {
        assert(accesses.take(i + 1) =~= accesses);
    } else {
        assert(accesses.drop_last().take(i + 1) =~= accesses.take(i + 1));
        lemma_place_expression_fails(base, accesses.drop_last(), span, i);
    }
}

/// The names that `statement` binds: those of its definitions and of the
/// variables of its loops, wherever they stand in it.
pub open spec fn bound_in_statement(statement: StatementView) -> Seq<Seq<char>>
    decreases statement,
{
    match statement {
        StatementView::Definition(definition) => bound_by_names(definition.variable_names),
        StatementView::Iteration(iteration) => seq![iteration.variable.name] + bound_in_statements(
            iteration.block.statements,
        ),
        StatementView::Conditional(conditional) => bound_in_statements(
            conditional.block.statements,
        ) + match conditional.next {
            Some(next) => bound_in_statement(*next),
            None => Seq::empty(),
        },
        StatementView::Block(block) => bound_in_statements(block.statements),
        _ => Seq::empty(),
    }
}

/// The names that `statements` bind.
pub open spec fn bound_in_statements(statements: Seq<StatementView>) -> Seq<Seq<char>>
    decreases statements,
{
    if statements.len() == 0 {
        Seq::empty()
    } else {
        bound_in_statements(statements.drop_last()) + bound_in_statement(statements.last())
    }
}

/// The names of the variables of a definition.
pub open spec fn bound_by_names(names: Seq<VariableNameView>) -> Seq<Seq<char>> {
    Seq::new(names.len(), |i: int| names[i].identifier.name)
}

/// The names of the inputs of a function that are variables.
pub open spec fn bound_by_inputs(inputs: Seq<FunctionInputView>) -> Seq<Seq<char>>
    decreases inputs.len(),
{
    if inputs.len() == 0 {
        Seq::empty()
    } else {
        match inputs.last() {
            FunctionInputView::Variable(variable) => bound_by_inputs(inputs.drop_last()).push(
                variable.identifier.name,
            ),
            _ => bound_by_inputs(inputs.drop_last()),
        }
    }
}

/// The names that `function` binds: those of its inputs and those that its
/// body binds.
pub open spec fn bound_in_function(function: FunctionView) -> Seq<Seq<char>> {
    bound_by_inputs(function.input) + bound_in_statements(function.block.statements)
}

/// Appends the names of the variables of a definition.
pub fn collect_names(names: &Vec<VariableName>, out: &mut Vec<String>)
    ensures
        strings_view(final(out)@) == strings_view(old(out)@) + bound_by_names(
            variable_name_seq_view(names@),
        ),
{
    let ghost before = strings_view(out@);
    let ghost bound = bound_by_names(variable_name_seq_view(names@));
    let mut i: usize = 0;
    assert(strings_view(out@) =~= before + bound.take(0));
    while i < names.len()
        invariant
            i <= names.len(),
            bound == bound_by_names(variable_name_seq_view(names@)),
            strings_view(out@) == before + bound.take(i as int),
        decreases names.len() - i,
    {
        let ghost so_far = strings_view(out@);
        let name = names[i].identifier.name.clone();
        out.push(name);
        assert(strings_view(out@) =~= so_far.push(name@));
        assert(bound[i as int] == name@);
        assert(bound.take(i + 1) =~= bound.take(i as int).push(name@));
        assert(strings_view(out@) =~= before + bound.take(i + 1));
        i = i + 1;
    }
    assert(bound.take(i as int) =~= bound);
}

/// Appends the names that `statement` binds.
pub fn collect_statement(statement: &Statement, out: &mut Vec<String>)
    ensures
        strings_view(final(out)@) == strings_view(old(out)@) + bound_in_statement(statement@),
    decreases statement,
{
    let ghost before = strings_view(out@);
    match statement {
        Statement::Definition(definition) => {
            collect_names(&definition.variable_names, out);
            assert(statement@ == StatementView::Definition(definition@));
            assert(definition@.variable_names == variable_name_seq_view(
                definition.variable_names@,
            ));
            assert(strings_view(out@) == before + bound_in_statement(statement@));
        },
        Statement::Iteration(iteration) => {
            let name = iteration.variable.name.clone();
            out.push(name);
            assert(strings_view(out@) =~= before + seq![name@]);
            let ghost middle = strings_view(out@);
            collect_statements(&iteration.block.statements, out);
            let ghost inner = bound_in_statements(statement_seq_view(iteration.block.statements@));
            assert(strings_view(out@) == middle + inner);
            assert(before + seq![name@] + inner =~= before + (seq![name@] + inner));
            assert(statement@ == StatementView::Iteration(iteration@));
            assert(strings_view(out@) == before + bound_in_statement(statement@));
        },
        Statement::Conditional(conditional) => {
            collect_statements(&conditional.block.statements, out);
            let ghost first = bound_in_statements(
                statement_seq_view(conditional.block.statements@),
            );
            match &conditional.next {
                Some(next) => {
                    collect_statement(&**next, out);
                    let ghost second = bound_in_statement(next@);
                    assert(before + first + second =~= before + (first + second));
                },
                None => {
                    assert(before + first =~= before + (first + Seq::<Seq<char>>::empty()));
                },
            }
            assert(statement@ == StatementView::Conditional(conditional@));
            assert(strings_view(out@) == before + bound_in_statement(statement@));
        },
        Statement::Block(block) => {
            collect_statements(&block.statements, out);
            assert(statement@ == StatementView::Block(block@));
            assert(strings_view(out@) == before + bound_in_statement(statement@));
        },
        Statement::Return(_) => {
            assert(before =~= before + Seq::<Seq<char>>::empty());
        },
        Statement::Assign(_) => {
            assert(before =~= before + Seq::<Seq<char>>::empty());
        },
        Statement::Console(_) => {
            assert(before =~= before + Seq::<Seq<char>>::empty());
        },
        Statement::Expression(_) => {
            assert(before =~= before + Seq::<Seq<char>>::empty());
        },
    }
}

/// Appends the names that `statements` bind.
pub fn collect_statements(statements: &Vec<Statement>, out: &mut Vec<String>)
    ensures
        strings_view(final(out)@) == strings_view(old(out)@) + bound_in_statements(
            statement_seq_view(statements@),
        ),
    decreases statements,
{
    let ghost before = strings_view(out@);
    let ghost views = statement_seq_view(statements@);
    let mut i: usize = 0;
    assert(views.take(0) =~= Seq::<StatementView>::empty());
    assert(strings_view(out@) =~= before + bound_in_statements(views.take(0)));
    while i < statements.len()
        invariant
            i <= statements.len(),
            views == statement_seq_view(statements@),
            strings_view(out@) == before + bound_in_statements(views.take(i as int)),
        decreases statements.len() - i,
    {
        proof {
            assert(views.take(i + 1).drop_last() =~= views.take(i as int));
            assert(views.take(i + 1).last() == statements[i as int]@);
        }
        let ghost done = bound_in_statements(views.take(i as int));
        collect_statement(&statements[i], out);
        let ghost more = bound_in_statement(statements[i as int]@);
        assert(before + done + more =~= before + (done + more));
        i = i + 1;
    }
    assert(views.take(i as int) =~= views);
}

/// The names that `function` binds.
pub fn collect_function(function: &Function) -> (r: Vec<String>)
    ensures
        strings_view(r@) == bound_in_function(function@),
{
    let mut out: Vec<String> = Vec::new();
    let ghost inputs = function_input_seq_view(function.input@);
    let mut i: usize = 0;
    assert(inputs.take(0) =~= Seq::<FunctionInputView>::empty());
    assert(strings_view(out@) =~= bound_by_inputs(inputs.take(0)));
    while i < function.input.len()
        invariant
            i <= function.input.len(),
            inputs == function_input_seq_view(function.input@),
            strings_view(out@) == bound_by_inputs(inputs.take(i as int)),
        decreases function.input.len() - i,
    {
        proof {
            assert(inputs.take(i + 1).drop_last() =~= inputs.take(i as int));
            assert(inputs.take(i + 1).last() == function.input[i as int]@);
        }
        match &function.input[i] {
            FunctionInput::Variable(variable) => {
                let ghost so_far = strings_view(out@);
                let name = variable.identifier.name.clone();
                out.push(name);
                assert(strings_view(out@) =~= so_far.push(name@));
            },
            _ => {},
        }
        i = i + 1;
    }
    assert(inputs.take(i as int) =~= inputs);
    collect_statements(&function.block.statements, &mut out);
    out
}

/// The name of a member of a circuit.
pub open spec fn member_name(member: CircuitMemberView) -> Seq<char> {
    match member {
        CircuitMemberView::CircuitVariable(identifier, _) => identifier.name,
        CircuitMemberView::CircuitFunction(function) => function.identifier.name,
    }
}

/// The names of `members` that stand for a member where they are met as a
/// name: all but `self` and those in `bound`.
pub open spec fn receivers(members: Seq<CircuitMemberView>, bound: Seq<Seq<char>>) -> Seq<
    Seq<char>,
>
    decreases members.len(),
{
    if members.len() == 0 {
        Seq::empty()
    } else {
        let rest = receivers(members.drop_last(), bound);
        let name = member_name(members.last());
        if name != "self"@ && !bound.contains(name) {
            rest.push(name)
        } else {
            rest
        }
    }
}

/// The names of `members` that stand for a member where they are met as a name.
pub fn collect_receivers(members: &Vec<CircuitMember>, bound: &Vec<String>) -> (r: Vec<String>)
    ensures
        strings_view(r@) == receivers(circuit_member_seq_view(members@), strings_view(bound@)),
{
    let mut out: Vec<String> = Vec::new();
    let ghost views = circuit_member_seq_view(members@);
    let keyword = String::from_str("self");
    let mut i: usize = 0;
    assert(views.take(0) =~= Seq::<CircuitMemberView>::empty());
    assert(strings_view(out@) =~= receivers(views.take(0), strings_view(bound@)));
    while i < members.len()
        invariant
            i <= members.len(),
            keyword@ == "self"@,
            views == circuit_member_seq_view(members@),
            strings_view(out@) == receivers(views.take(i as int), strings_view(bound@)),
        decreases members.len() - i,
    {
        proof {
            assert(views.take(i + 1).drop_last() =~= views.take(i as int));
            assert(views.take(i + 1).last() == members[i as int]@);
        }
        let name = match &members[i] {
            CircuitMember::CircuitVariable(identifier, _) => &identifier.name,
            CircuitMember::CircuitFunction(function) => &function.identifier.name,
        };
        if !(*name == keyword) && !contains_name(bound, name) {
            let ghost so_far = strings_view(out@);
            let copy = name.clone();
            out.push(copy);
            assert(strings_view(out@) =~= so_far.push(copy@));
        }
        i = i + 1;
    }
    assert(views.take(i as int) =~= views);
    out
}

/// The member that takes the place of `member` of the circuit named
/// `circuit_name` with the members `members`: the member with its receiver made
/// explicit. In a function the names that it binds stand for no member.
pub open spec fn resolved_member(
    circuit_name: IdentifierView,
    members: Seq<CircuitMemberView>,
    member: CircuitMemberView,
) -> Result<CircuitMemberView, CanonicalizeError> {
    walk_circuit_member::<SelfResolver>(
        DirectorView {
            reducer: SelfResolverView {
                circuit_name: circuit_name.name,
                receivers: match member {
                    CircuitMemberView::CircuitFunction(function) => receivers(
                        members,
                        bound_in_function(function),
                    ),
                    _ => Seq::empty(),
                },
            },
            in_circuit: false,
        },
        member,
    ).1
}

/// The first `count` members of a circuit with their receivers made explicit,
/// up to the first failure.
pub open spec fn resolved_members(
    circuit_name: IdentifierView,
    members: Seq<CircuitMemberView>,
    count: nat,
) -> Result<Seq<CircuitMemberView>, CanonicalizeError>
    decreases count,
{
    if count == 0 || count > members.len() {
        Ok(Seq::empty())
    } else {
        match resolved_members(circuit_name, members, (count - 1) as nat) {
            Err(e) => Err(e),
            Ok(done) => match resolved_member(circuit_name, members, members[count - 1]) {
                Err(e) => Err(e),
                Ok(member) => Ok(done.push(member)),
            },
        }
    }
}

/// A failure among the first members is the failure of them all.
pub proof fn lemma_resolved_members_fail(
    circuit_name: IdentifierView,
    members: Seq<CircuitMemberView>,
    count: nat,
    more: nat,
)
    requires
        count <= more <= members.len(),
        resolved_members(circuit_name, members, count) is Err,
    ensures
        resolved_members(circuit_name, members, more) == resolved_members(
            circuit_name,
            members,
            count,
        ),
    decreases more,
{
    if count < more {
        lemma_resolved_members_fail(circuit_name, members, count, (more - 1) as nat);
    }
}

/// The canonical form of a circuit whose parts are canonical: every member has
/// its receiver made explicit.
pub open spec fn canonical_circuit(
    circuit: CircuitView,
    circuit_name: IdentifierView,
    members: Seq<CircuitMemberView>,
) -> Result<CircuitView, CanonicalizeError> {
    match resolved_members(circuit_name, members, members.len()) {
        Err(e) => Err(e),
        Ok(resolved) => Ok(CircuitView { circuit_name, members: resolved }),
    }
}

/// The canonical form of a circuit whose parts are canonical.
pub fn canonicalize_circuit(
    circuit: &Circuit,
    circuit_name: Identifier,
    members: Vec<CircuitMember>,
)
    -> (r: Result<Circuit, CanonicalizeError>)
    ensures
        reduced(r) == canonical_circuit(circuit@, circuit_name@, circuit_member_seq_view(members@)),
{
    let mut out: Vec<CircuitMember> = Vec::new();
    let ghost views = circuit_member_seq_view(members@);
    let mut i: usize = 0;
    assert(circuit_member_seq_view(out@) =~= Seq::<CircuitMemberView>::empty());
    while i < members.len()
        invariant
            i <= members.len(),
            views == circuit_member_seq_view(members@),
            resolved_members(circuit_name@, views, i as nat) == Ok::<
                Seq<CircuitMemberView>,
                CanonicalizeError,
            >(circuit_member_seq_view(out@)),
        decreases members.len() - i,
    {
        let names = match &members[i] {
            CircuitMember::CircuitFunction(function) => {
                let bound = collect_function(function);
                collect_receivers(&members, &bound)
            },
            _ => {
                let none: Vec<String> = Vec::new();
                assert(strings_view(none@) =~= Seq::<Seq<char>>::empty());
                none
            },
        };
        let resolver = SelfResolver { circuit_name: circuit_name.name.clone(), receivers: names };
        let mut director = ReconstructingDirector::new(resolver);
        assert(views[i as int] == members[i as int]@);
        let member = match director.reduce_circuit_member(&members[i]) {
            Ok(member) => member,
            Err(e) => {
                proof {
                    lemma_resolved_members_fail(
                        circuit_name@,
                        views,
                        (i + 1) as nat,
                        members.len() as nat,
                    );
                }
                return Err(e);
            },
        };
        let ghost before = circuit_member_seq_view(out@);
        out.push(member);
        assert(circuit_member_seq_view(out@) =~= before.push(member@));
        i = i + 1;
    }
    Ok(Circuit { circuit_name, members: out })
}

impl ReconstructingReducer for Canonicalizer {
    open spec fn reduce_type_spec(
        state: (),
        type_: TypeView,
        new: TypeView,
        in_circuit: bool,
        span: Span,
    ) -> ((), Result<TypeView, CanonicalizeError>) {
        (state, canonical_type(new, in_circuit, span))
    }

    fn reduce_type(
        &mut self,
        type_: &Type,
        new: Type,
        in_circuit: bool,
        span: &Span,
    ) -> (r: Result<Type, CanonicalizeError>) {
        canonicalize_type(new, in_circuit, span)
    }

    open spec fn reduce_expression_spec(
        state: (),
        expression: ExpressionView,
        new: ExpressionView,
        in_circuit: bool,
    ) -> ((), Result<ExpressionView, CanonicalizeError>) {
        (state, Ok(new))
    }

    fn reduce_expression(
        &mut self,
        expression: &Expression,
        new: Expression,
        in_circuit: bool,
    ) -> (r: Result<Expression, CanonicalizeError>) {
        Ok(new)
    }

    open spec fn reduce_identifier_spec(
        state: (),
        identifier: IdentifierView,
    ) -> ((), Result<IdentifierView, CanonicalizeError>) {
        (state, Ok(rebuilt_identifier(identifier)))
    }

    fn reduce_identifier(
        &mut self,
        identifier: &Identifier,
    ) -> (r: Result<Identifier, CanonicalizeError>) {
        Ok(rebuild_identifier(identifier))
    }

    open spec fn reduce_group_tuple_spec(
        state: (),
        group_tuple: GroupTupleView,
    ) -> ((), Result<GroupTupleView, CanonicalizeError>) {
        (state, Ok(rebuilt_group_tuple(group_tuple)))
    }

    fn reduce_group_tuple(
        &mut self,
        group_tuple: &GroupTuple,
    ) -> (r: Result<GroupTuple, CanonicalizeError>) {
        Ok(rebuild_group_tuple(group_tuple))
    }

    open spec fn reduce_group_value_spec(
        state: (),
        group_value: GroupValueView,
        new: GroupValueView,
    ) -> ((), Result<GroupValueView, CanonicalizeError>) {
        (state, Ok(new))
    }

    fn reduce_group_value(
        &mut self,
        group_value: &GroupValue,
        new: GroupValue,
    ) -> (r: Result<GroupValue, CanonicalizeError>) {
        Ok(new)
    }

    open spec fn reduce_value_spec(
        state: (),
        value: ValueExpressionView,
        new: ValueExpressionView,
    ) -> ((), Result<ValueExpressionView, CanonicalizeError>) {
        (state, Ok(new))
    }

    fn reduce_value(
        &mut self,
        value: &ValueExpression,
        new: ValueExpression,
    ) -> (r: Result<ValueExpression, CanonicalizeError>) {
        Ok(new)
    }

    open spec fn reduce_binary_spec(
        state: (),
        binary: BinaryExpressionView,
        left: ExpressionView,
        right: ExpressionView,
        op: BinaryOperation,
        in_circuit: bool,
    ) -> ((), Result<BinaryExpressionView, CanonicalizeError>) {
        (state, Ok(rebuilt_binary(binary, left, right, op)))
    }

    fn reduce_binary(
        &mut self,
        binary: &BinaryExpression,
        left: Expression,
        right: Expression,
        op: BinaryOperation,
        in_circuit: bool,
    ) -> (r: Result<BinaryExpression, CanonicalizeError>) {
        Ok(rebuild_binary(binary, left, right, op))
    }

    open spec fn reduce_unary_spec(
        state: (),
        unary: UnaryExpressionView,
        inner: ExpressionView,
        op: UnaryOperation,
        in_circuit: bool,
    ) -> ((), Result<UnaryExpressionView, CanonicalizeError>) {
        (state, Ok(rebuilt_unary(unary, inner, op)))
    }

    fn reduce_unary(
        &mut self,
        unary: &UnaryExpression,
        inner: Expression,
        op: UnaryOperation,
        in_circuit: bool,
    ) -> (r: Result<UnaryExpression, CanonicalizeError>) {
        Ok(rebuild_unary(unary, inner, op))
    }

    open spec fn reduce_ternary_spec(
        state: (),
        ternary: TernaryExpressionView,
        condition: ExpressionView,
        if_true: ExpressionView,
        if_false: ExpressionView,
        in_circuit: bool,
    ) -> ((), Result<TernaryExpressionView, CanonicalizeError>) {
        (state, Ok(rebuilt_ternary(ternary, condition, if_true, if_false)))
    }

    fn reduce_ternary(
        &mut self,
        ternary: &TernaryExpression,
        condition: Expression,
        if_true: Expression,
        if_false: Expression,
        in_circuit: bool,
    ) -> (r: Result<TernaryExpression, CanonicalizeError>) {
        Ok(rebuild_ternary(ternary, condition, if_true, if_false))
    }

    open spec fn reduce_cast_spec(
        state: (),
        cast: CastExpressionView,
        inner: ExpressionView,
        target_type: TypeView,
        in_circuit: bool,
    ) -> ((), Result<CastExpressionView, CanonicalizeError>) {
        (state, Ok(rebuilt_cast(cast, inner, target_type)))
    }

    fn reduce_cast(
        &mut self,
        cast: &CastExpression,
        inner: Expression,
        target_type: Type,
        in_circuit: bool,
    ) -> (r: Result<CastExpression, CanonicalizeError>) {
        Ok(rebuild_cast(cast, inner, target_type))
    }

    open spec fn reduce_array_inline_spec(
        state: (),
        array_inline: ArrayInlineExpressionView,
        elements: Seq<SpreadOrExpressionView>,
        in_circuit: bool,
    ) -> ((), Result<ArrayInlineExpressionView, CanonicalizeError>) {
        (state, Ok(rebuilt_array_inline(array_inline, elements)))
    }

    fn reduce_array_inline(
        &mut self,
        array_inline: &ArrayInlineExpression,
        elements: Vec<SpreadOrExpression>,
        in_circuit: bool,
    ) -> (r: Result<ArrayInlineExpression, CanonicalizeError>) {
        Ok(rebuild_array_inline(array_inline, elements))
    }

    open spec fn reduce_array_init_spec(
        state: (),
        array_init: ArrayInitExpressionView,
        element: ExpressionView,
        in_circuit: bool,
    ) -> ((), Result<ArrayInitExpressionView, CanonicalizeError>) {
        (state, canonical_array_init(array_init, element))
    }

    fn reduce_array_init(
        &mut self,
        array_init: &ArrayInitExpression,
        element: Expression,
        in_circuit: bool,
    ) -> (r: Result<ArrayInitExpression, CanonicalizeError>) {
        canonicalize_array_init(array_init, element)
    }

    open spec fn reduce_array_access_spec(
        state: (),
        array_access: ArrayAccessExpressionView,
        array: ExpressionView,
        index: ExpressionView,
        in_circuit: bool,
    ) -> ((), Result<ArrayAccessExpressionView, CanonicalizeError>) {
        (state, Ok(rebuilt_array_access(array_access, array, index)))
    }

    fn reduce_array_access(
        &mut self,
        array_access: &ArrayAccessExpression,
        array: Expression,
        index: Expression,
        in_circuit: bool,
    ) -> (r: Result<ArrayAccessExpression, CanonicalizeError>) {
        Ok(rebuild_array_access(array_access, array, index))
    }

    open spec fn reduce_array_range_access_spec(
        state: (),
        array_range_access: ArrayRangeAccessExpressionView,
        array: ExpressionView,
        left: Option<ExpressionView>,
        right: Option<ExpressionView>,
        in_circuit: bool,
    ) -> ((), Result<ArrayRangeAccessExpressionView, CanonicalizeError>) {
        (state, Ok(rebuilt_array_range_access(array_range_access, array, left, right)))
    }

    fn reduce_array_range_access(
        &mut self,
        array_range_access: &ArrayRangeAccessExpression,
        array: Expression,
        left: Option<Expression>,
        right: Option<Expression>,
        in_circuit: bool,
    ) -> (r: Result<ArrayRangeAccessExpression, CanonicalizeError>) {
        Ok(rebuild_array_range_access(array_range_access, array, left, right))
    }

    open spec fn reduce_tuple_init_spec(
        state: (),
        tuple_init: TupleInitExpressionView,
        elements: Seq<ExpressionView>,
        in_circuit: bool,
    ) -> ((), Result<TupleInitExpressionView, CanonicalizeError>) {
        (state, Ok(rebuilt_tuple_init(tuple_init, elements)))
    }

    fn reduce_tuple_init(
        &mut self,
        tuple_init: &TupleInitExpression,
        elements: Vec<Expression>,
        in_circuit: bool,
    ) -> (r: Result<TupleInitExpression, CanonicalizeError>) {
        Ok(rebuild_tuple_init(tuple_init, elements))
    }

    open spec fn reduce_tuple_access_spec(
        state: (),
        tuple_access: TupleAccessExpressionView,
        tuple: ExpressionView,
        in_circuit: bool,
    ) -> ((), Result<TupleAccessExpressionView, CanonicalizeError>) {
        (state, Ok(rebuilt_tuple_access(tuple_access, tuple)))
    }

    fn reduce_tuple_access(
        &mut self,
        tuple_access: &TupleAccessExpression,
        tuple: Expression,
        in_circuit: bool,
    ) -> (r: Result<TupleAccessExpression, CanonicalizeError>) {
        Ok(rebuild_tuple_access(tuple_access, tuple))
    }

    open spec fn reduce_circuit_implied_variable_definition_spec(
        state: (),
        variable: CircuitImpliedVariableDefinitionView,
        identifier: IdentifierView,
        expression: Option<ExpressionView>,
        in_circuit: bool,
    ) -> ((), Result<CircuitImpliedVariableDefinitionView, CanonicalizeError>) {
        (state, Ok(rebuilt_circuit_implied_variable_definition(variable, identifier, expression)))
    }

    fn reduce_circuit_implied_variable_definition(
        &mut self,
        variable: &CircuitImpliedVariableDefinition,
        identifier: Identifier,
        expression: Option<Expression>,
        in_circuit: bool,
    ) -> (r: Result<CircuitImpliedVariableDefinition, CanonicalizeError>) {
        Ok(rebuild_circuit_implied_variable_definition(variable, identifier, expression))
    }

    open spec fn reduce_circuit_init_spec(
        state: (),
        circuit_init: CircuitInitExpressionView,
        name: IdentifierView,
        members: Seq<CircuitImpliedVariableDefinitionView>,
        in_circuit: bool,
    ) -> ((), Result<CircuitInitExpressionView, CanonicalizeError>) {
        (state, Ok(rebuilt_circuit_init(circuit_init, name, members)))
    }

    fn reduce_circuit_init(
        &mut self,
        circuit_init: &CircuitInitExpression,
        name: Identifier,
        members: Vec<CircuitImpliedVariableDefinition>,
        in_circuit: bool,
    ) -> (r: Result<CircuitInitExpression, CanonicalizeError>) {
        Ok(rebuild_circuit_init(circuit_init, name, members))
    }

    open spec fn reduce_circuit_member_access_spec(
        state: (),
        circuit_member_access: CircuitMemberAccessExpressionView,
        circuit: ExpressionView,
        name: IdentifierView,
        in_circuit: bool,
    ) -> ((), Result<CircuitMemberAccessExpressionView, CanonicalizeError>) {
        (state, Ok(rebuilt_circuit_member_access(circuit_member_access, circuit, name)))
    }

    fn reduce_circuit_member_access(
        &mut self,
        circuit_member_access: &CircuitMemberAccessExpression,
        circuit: Expression,
        name: Identifier,
        in_circuit: bool,
    ) -> (r: Result<CircuitMemberAccessExpression, CanonicalizeError>) {
        Ok(rebuild_circuit_member_access(circuit_member_access, circuit, name))
    }

    open spec fn reduce_circuit_static_fn_access_spec(
        state: (),
        circuit_static_fn_access: CircuitStaticFunctionAccessExpressionView,
        circuit: ExpressionView,
        name: IdentifierView,
        in_circuit: bool,
    ) -> ((), Result<CircuitStaticFunctionAccessExpressionView, CanonicalizeError>) {
        (state, Ok(rebuilt_circuit_static_fn_access(circuit_static_fn_access, circuit, name)))
    }

    fn reduce_circuit_static_fn_access(
        &mut self,
        circuit_static_fn_access: &CircuitStaticFunctionAccessExpression,
        circuit: Expression,
        name: Identifier,
        in_circuit: bool,
    ) -> (r: Result<CircuitStaticFunctionAccessExpression, CanonicalizeError>) {
        Ok(rebuild_circuit_static_fn_access(circuit_static_fn_access, circuit, name))
    }

    open spec fn reduce_call_spec(
        state: (),
        call: CallExpressionView,
        function: ExpressionView,
        arguments: Seq<ExpressionView>,
        in_circuit: bool,
    ) -> ((), Result<CallExpressionView, CanonicalizeError>) {
        (state, Ok(rebuilt_call(call, function, arguments)))
    }

    fn reduce_call(
        &mut self,
        call: &CallExpression,
        function: Expression,
        arguments: Vec<Expression>,
        in_circuit: bool,
    ) -> (r: Result<CallExpression, CanonicalizeError>) {
        Ok(rebuild_call(call, function, arguments))
    }

    open spec fn reduce_statement_spec(
        state: (),
        statement: StatementView,
        new: StatementView,
        in_circuit: bool,
    ) -> ((), Result<StatementView, CanonicalizeError>) {
        (state, Ok(new))
    }

    fn reduce_statement(
        &mut self,
        statement: &Statement,
        new: Statement,
        in_circuit: bool,
    ) -> (r: Result<Statement, CanonicalizeError>) {
        Ok(new)
    }

    open spec fn reduce_return_spec(
        state: (),
        return_statement: ReturnStatementView,
        expression: ExpressionView,
        in_circuit: bool,
    ) -> ((), Result<ReturnStatementView, CanonicalizeError>) {
        (state, Ok(rebuilt_return(return_statement, expression)))
    }

    fn reduce_return(
        &mut self,
        return_statement: &ReturnStatement,
        expression: Expression,
        in_circuit: bool,
    ) -> (r: Result<ReturnStatement, CanonicalizeError>) {
        Ok(rebuild_return(return_statement, expression))
    }

    open spec fn reduce_variable_name_spec(
        state: (),
        variable_name: VariableNameView,
        identifier: IdentifierView,
    ) -> ((), Result<VariableNameView, CanonicalizeError>) {
        (state, Ok(rebuilt_variable_name(variable_name, identifier)))
    }

    fn reduce_variable_name(
        &mut self,
        variable_name: &VariableName,
        identifier: Identifier,
    ) -> (r: Result<VariableName, CanonicalizeError>) {
        Ok(rebuild_variable_name(variable_name, identifier))
    }

    open spec fn reduce_definition_spec(
        state: (),
        definition: DefinitionStatementView,
        variable_names: Seq<VariableNameView>,
        type_: Option<TypeView>,
        value: ExpressionView,
        in_circuit: bool,
    ) -> ((), Result<DefinitionStatementView, CanonicalizeError>) {
        (state, Ok(rebuilt_definition(definition, variable_names, type_, value)))
    }

    fn reduce_definition(
        &mut self,
        definition: &DefinitionStatement,
        variable_names: Vec<VariableName>,
        type_: Option<Type>,
        value: Expression,
        in_circuit: bool,
    ) -> (r: Result<DefinitionStatement, CanonicalizeError>) {
        Ok(rebuild_definition(definition, variable_names, type_, value))
    }

    open spec fn reduce_assignee_access_spec(
        state: (),
        access: AssigneeAccessView,
        new: AssigneeAccessView,
        in_circuit: bool,
    ) -> ((), Result<AssigneeAccessView, CanonicalizeError>) {
        (state, Ok(new))
    }

    fn reduce_assignee_access(
        &mut self,
        access: &AssigneeAccess,
        new: AssigneeAccess,
        in_circuit: bool,
    ) -> (r: Result<AssigneeAccess, CanonicalizeError>) {
        Ok(new)
    }

    open spec fn reduce_assignee_spec(
        state: (),
        assignee: AssigneeView,
        identifier: IdentifierView,
        accesses: Seq<AssigneeAccessView>,
        in_circuit: bool,
    ) -> ((), Result<AssigneeView, CanonicalizeError>) {
        (state, Ok(rebuilt_assignee(assignee, identifier, accesses)))
    }

    fn reduce_assignee(
        &mut self,
        assignee: &Assignee,
        identifier: Identifier,
        accesses: Vec<AssigneeAccess>,
        in_circuit: bool,
    ) -> (r: Result<Assignee, CanonicalizeError>) {
        Ok(rebuild_assignee(assignee, identifier, accesses))
    }

    open spec fn reduce_assign_spec(
        state: (),
        assign: AssignStatementView,
        assignee: AssigneeView,
        value: ExpressionView,
        in_circuit: bool,
    ) -> ((), Result<AssignStatementView, CanonicalizeError>) {
        (state, canonical_assign(assign, assignee, value))
    }

    fn reduce_assign(
        &mut self,
        assign: &AssignStatement,
        assignee: Assignee,
        value: Expression,
        in_circuit: bool,
    ) -> (r: Result<AssignStatement, CanonicalizeError>) {
        canonicalize_assign(assign, assignee, value)
    }

    open spec fn reduce_conditional_spec(
        state: (),
        conditional: ConditionalStatementView,
        condition: ExpressionView,
        block: BlockView,
        next: Option<StatementView>,
        in_circuit: bool,
    ) -> ((), Result<ConditionalStatementView, CanonicalizeError>) {
        (state, Ok(rebuilt_conditional(conditional, condition, block, next)))
    }

    fn reduce_conditional(
        &mut self,
        conditional: &ConditionalStatement,
        condition: Expression,
        block: Block,
        next: Option<Statement>,
        in_circuit: bool,
    ) -> (r: Result<ConditionalStatement, CanonicalizeError>) {
        Ok(rebuild_conditional(conditional, condition, block, next))
    }

    open spec fn reduce_iteration_spec(
        state: (),
        iteration: IterationStatementView,
        variable: IdentifierView,
        start: ExpressionView,
        stop: ExpressionView,
        block: BlockView,
        in_circuit: bool,
    ) -> ((), Result<IterationStatementView, CanonicalizeError>) {
        (state, Ok(rebuilt_iteration(iteration, variable, start, stop, block)))
    }

    fn reduce_iteration(
        &mut self,
        iteration: &IterationStatement,
        variable: Identifier,
        start: Expression,
        stop: Expression,
        block: Block,
        in_circuit: bool,
    ) -> (r: Result<IterationStatement, CanonicalizeError>) {
        Ok(rebuild_iteration(iteration, variable, start, stop, block))
    }

    open spec fn reduce_console_spec(
        state: (),
        console_function_call: ConsoleStatementView,
        function: ConsoleFunctionView,
        in_circuit: bool,
    ) -> ((), Result<ConsoleStatementView, CanonicalizeError>) {
        (state, Ok(rebuilt_console(console_function_call, function)))
    }

    fn reduce_console(
        &mut self,
        console_function_call: &ConsoleStatement,
        function: ConsoleFunction,
        in_circuit: bool,
    ) -> (r: Result<ConsoleStatement, CanonicalizeError>) {
        Ok(rebuild_console(console_function_call, function))
    }

    open spec fn reduce_expression_statement_spec(
        state: (),
        expression_statement: ExpressionStatementView,
        expression: ExpressionView,
        in_circuit: bool,
    ) -> ((), Result<ExpressionStatementView, CanonicalizeError>) {
        (state, Ok(rebuilt_expression_statement(expression_statement, expression)))
    }

    fn reduce_expression_statement(
        &mut self,
        expression_statement: &ExpressionStatement,
        expression: Expression,
        in_circuit: bool,
    ) -> (r: Result<ExpressionStatement, CanonicalizeError>) {
        Ok(rebuild_expression_statement(expression_statement, expression))
    }

    open spec fn reduce_block_spec(
        state: (),
        block: BlockView,
        statements: Seq<StatementView>,
        in_circuit: bool,
    ) -> ((), Result<BlockView, CanonicalizeError>) {
        (state, Ok(rebuilt_block(block, statements)))
    }

    fn reduce_block(
        &mut self,
        block: &Block,
        statements: Vec<Statement>,
        in_circuit: bool,
    ) -> (r: Result<Block, CanonicalizeError>) {
        Ok(rebuild_block(block, statements))
    }

    open spec fn reduce_program_spec(
        state: (),
        program: ProgramView,
        expected_input: Seq<FunctionInputView>,
        imports: Seq<ImportStatementView>,
        circuits: Seq<(IdentifierView, CircuitView)>,
        functions: Seq<(IdentifierView, FunctionView)>,
    ) -> ((), Result<ProgramView, CanonicalizeError>) {
        (state, Ok(rebuilt_program(program, expected_input, imports, circuits, functions)))
    }

    fn reduce_program(
        &mut self,
        program: &Program,
        expected_input: Vec<FunctionInput>,
        imports: Vec<ImportStatement>,
        circuits: IndexMap<Identifier, Circuit>,
        functions: IndexMap<Identifier, Function>,
    ) -> (r: Result<Program, CanonicalizeError>) {
        Ok(rebuild_program(program, expected_input, imports, circuits, functions))
    }

    open spec fn reduce_function_input_variable_spec(
        state: (),
        variable: FunctionInputVariableView,
        identifier: IdentifierView,
        type_: TypeView,
        in_circuit: bool,
    ) -> ((), Result<FunctionInputVariableView, CanonicalizeError>) {
        (state, Ok(rebuilt_function_input_variable(variable, identifier, type_)))
    }

    fn reduce_function_input_variable(
        &mut self,
        variable: &FunctionInputVariable,
        identifier: Identifier,
        type_: Type,
        in_circuit: bool,
    ) -> (r: Result<FunctionInputVariable, CanonicalizeError>) {
        Ok(rebuild_function_input_variable(variable, identifier, type_))
    }

    open spec fn reduce_function_input_spec(
        state: (),
        input: FunctionInputView,
        new: FunctionInputView,
        in_circuit: bool,
    ) -> ((), Result<FunctionInputView, CanonicalizeError>) {
        (state, Ok(new))
    }

    fn reduce_function_input(
        &mut self,
        input: &FunctionInput,
        new: FunctionInput,
        in_circuit: bool,
    ) -> (r: Result<FunctionInput, CanonicalizeError>) {
        Ok(new)
    }

    open spec fn reduce_package_or_packages_spec(
        state: (),
        package_or_packages: PackageOrPackagesView,
        new: PackageOrPackagesView,
    ) -> ((), Result<PackageOrPackagesView, CanonicalizeError>) {
        (state, Ok(new))
    }

    fn reduce_package_or_packages(
        &mut self,
        package_or_packages: &PackageOrPackages,
        new: PackageOrPackages,
    ) -> (r: Result<PackageOrPackages, CanonicalizeError>) {
        Ok(new)
    }

    open spec fn reduce_import_spec(
        state: (),
        import: ImportStatementView,
        package_or_packages: PackageOrPackagesView,
    ) -> ((), Result<ImportStatementView, CanonicalizeError>) {
        (state, Ok(rebuilt_import(import, package_or_packages)))
    }

    fn reduce_import(
        &mut self,
        import: &ImportStatement,
        package_or_packages: PackageOrPackages,
    ) -> (r: Result<ImportStatement, CanonicalizeError>) {
        Ok(rebuild_import(import, package_or_packages))
    }

    open spec fn reduce_circuit_member_spec(
        state: (),
        circuit_member: CircuitMemberView,
        new: CircuitMemberView,
    ) -> ((), Result<CircuitMemberView, CanonicalizeError>) {
        (state, Ok(new))
    }

    fn reduce_circuit_member(
        &mut self,
        circuit_member: &CircuitMember,
        new: CircuitMember,
    ) -> (r: Result<CircuitMember, CanonicalizeError>) {
        Ok(new)
    }

    open spec fn reduce_circuit_spec(
        state: (),
        circuit: CircuitView,
        circuit_name: IdentifierView,
        members: Seq<CircuitMemberView>,
    ) -> ((), Result<CircuitView, CanonicalizeError>) {
        (state, canonical_circuit(circuit, circuit_name, members))
    }

    fn reduce_circuit(
        &mut self,
        circuit: &Circuit,
        circuit_name: Identifier,
        members: Vec<CircuitMember>,
    ) -> (r: Result<Circuit, CanonicalizeError>) {
        canonicalize_circuit(circuit, circuit_name, members)
    }

    open spec fn reduce_annotation_spec(
        state: (),
        annotation: AnnotationView,
        name: IdentifierView,
    ) -> ((), Result<AnnotationView, CanonicalizeError>) {
        (state, Ok(rebuilt_annotation(annotation, name)))
    }

    fn reduce_annotation(
        &mut self,
        annotation: &Annotation,
        name: Identifier,
    ) -> (r: Result<Annotation, CanonicalizeError>) {
        Ok(rebuild_annotation(annotation, name))
    }

    open spec fn reduce_function_spec(
        state: (),
        function: FunctionView,
        identifier: IdentifierView,
        annotations: Seq<AnnotationView>,
        input: Seq<FunctionInputView>,
        output: Option<TypeView>,
        block: BlockView,
        in_circuit: bool,
    ) -> ((), Result<FunctionView, CanonicalizeError>) {
        (state, Ok(rebuilt_function(function, identifier, annotations, input, output, block)))
    }

    fn reduce_function(
        &mut self,
        function: &Function,
        identifier: Identifier,
        annotations: Vec<Annotation>,
        input: Vec<FunctionInput>,
        output: Option<Type>,
        block: Block,
        in_circuit: bool,
    ) -> (r: Result<Function, CanonicalizeError>) {
        Ok(rebuild_function(function, identifier, annotations, input, output, block))
    }
}

/// The canonical form of a program, or the failure that keeps it from having one.
pub open spec fn canonical_program(program: ProgramView) -> Result<ProgramView, CanonicalizeError> {
    walk_program::<Canonicalizer>(DirectorView { reducer: (), in_circuit: false }, program).1
}

/// Brings a program into its canonical form. The canonical form is its own
/// canonical form; it has the circuits and the functions of the program under
/// their keys and in their order; and every place it speaks of is a place of
/// the program.
pub fn canonicalize(program: &Program) -> (r: Result<Program, CanonicalizeError>)
    ensures
        reduced(r) == canonical_program(program@),
        r matches Ok(canonical) ==> canonical_program(canonical@) == Ok::<
            ProgramView,
            CanonicalizeError,
        >(canonical@) && keys(canonical@.circuits) == keys(program@.circuits) && keys(
            canonical@.functions,
        ) == keys(program@.functions) && program_spans(canonical@).subset_of(
            program_spans(program@),
        ),
{
    program.distinct_keys();
    proof {
        lemma_canonicalization_is_idempotent(program@);
        lemma_canonicalization_keeps_order(program@);
        lemma_canonicalization_keeps_spans(program@);
    }
    let mut director = ReconstructingDirector::new(Canonicalizer);
    director.reduce_program(program)
}

} // verus!
