//! The places that a syntax tree speaks of.
use crate::ast::common::IdentifierView;
use crate::ast::expression::{
    ArrayAccessExpressionView, ArrayInitExpressionView, ArrayInlineExpressionView,
    ArrayRangeAccessExpressionView, BinaryExpressionView, CallExpressionView, CastExpressionView,
    CircuitImpliedVariableDefinitionView, CircuitInitExpressionView,
    CircuitMemberAccessExpressionView, CircuitStaticFunctionAccessExpressionView, ExpressionView,
    GroupCoordinateView, GroupTupleView, GroupValueView, SpreadOrExpressionView,
    TernaryExpressionView, TupleAccessExpressionView, TupleInitExpressionView, UnaryExpressionView,
    ValueExpressionView,
};
use crate::ast::function::{
    AnnotationView, CircuitMemberView, CircuitView, FunctionInputVariableView, FunctionInputView,
    FunctionView,
};
use crate::ast::imports::{
    ImportStatementView, ImportSymbolView, PackageAccessView, PackageOrPackagesView, PackagesView,
    PackageView,
};
use crate::ast::statement::{
    AssigneeAccessView, AssigneeView, AssignStatementView, BlockView, ConditionalStatementView,
    ConsoleFunctionView, ConsoleStatementView, DefinitionStatementView, ExpressionStatementView,
    FormatStringPartView, FormatStringView, IterationStatementView, ReturnStatementView,
    StatementView, VariableNameView,
};
use crate::ast::types::TypeView;
use crate::ast::program::ProgramView;
use crate::span::Span;
use vstd::prelude::*;

verus! {

/// The places of an `Identifier` and of all that it holds.
pub open spec fn identifier_spans(x: IdentifierView) -> Set<Span>
    decreases x,
{
    set![x.span]
}

/// The places of a `Type` and of all that it holds.
pub open spec fn type_spans(x: TypeView) -> Set<Span>
    decreases x,
{
    match x {
        TypeView::Address => Set::empty(),
        TypeView::Boolean => Set::empty(),
        TypeView::Char => Set::empty(),
        TypeView::Field => Set::empty(),
        TypeView::Group => Set::empty(),
        TypeView::IntegerType(_) => Set::empty(),
        TypeView::Array(f0, _) => type_spans(*f0),
        TypeView::Tuple(f0) => type_seq_spans(f0),
        TypeView::Circuit(f0) => identifier_spans(f0),
        TypeView::SelfType => Set::empty(),
    }
}

/// The places of a list.
pub open spec fn type_seq_spans(s: Seq<TypeView>) -> Set<Span>
    decreases s,
{
    if s.len() == 0 {
        Set::empty()
    } else {
        type_seq_spans(s.drop_last()).union(type_spans(s.last()))
    }
}

/// The places of a `GroupCoordinate` and of all that it holds.
pub open spec fn group_coordinate_spans(x: GroupCoordinateView) -> Set<Span>
    decreases x,
{
    match x {
        GroupCoordinateView::Number(_, f1) => set![f1],
        GroupCoordinateView::SignHigh => Set::empty(),
        GroupCoordinateView::SignLow => Set::empty(),
        GroupCoordinateView::Inferred => Set::empty(),
    }
}

/// The places of a `GroupTuple` and of all that it holds.
pub open spec fn group_tuple_spans(x: GroupTupleView) -> Set<Span>
    decreases x,
{
    group_coordinate_spans(x.x).union(group_coordinate_spans(x.y)).union(set![x.span])
}

/// The places of a `GroupValue` and of all that it holds.
pub open spec fn group_value_spans(x: GroupValueView) -> Set<Span>
    decreases x,
{
    match x {
        GroupValueView::Single(_, f1) => set![f1],
        GroupValueView::Tuple(f0) => group_tuple_spans(f0),
    }
}

/// The places of a `ValueExpression` and of all that it holds.
pub open spec fn value_expression_spans(x: ValueExpressionView) -> Set<Span>
    decreases x,
{
    match x {
        ValueExpressionView::Address(_, f1) => set![f1],
        ValueExpressionView::Boolean(_, f1) => set![f1],
        ValueExpressionView::Char(_, f1) => set![f1],
        ValueExpressionView::Field(_, f1) => set![f1],
        ValueExpressionView::Group(f0) => group_value_spans(*f0),
        ValueExpressionView::Implicit(_, f1) => set![f1],
        ValueExpressionView::Integer(_, _, f2) => set![f2],
    }
}

/// The places of a `BinaryExpression` and of all that it holds.
pub open spec fn binary_expression_spans(x: BinaryExpressionView) -> Set<Span>
    decreases x,
{
    expression_spans(*x.left).union(expression_spans(*x.right)).union(set![x.span])
}

/// The places of an `UnaryExpression` and of all that it holds.
pub open spec fn unary_expression_spans(x: UnaryExpressionView) -> Set<Span>
    decreases x,
{
    expression_spans(*x.inner).union(set![x.span])
}

/// The places of a `TernaryExpression` and of all that it holds.
pub open spec fn ternary_expression_spans(x: TernaryExpressionView) -> Set<Span>
    decreases x,
{
    expression_spans(
        *x.condition,
    ).union(expression_spans(*x.if_true)).union(expression_spans(*x.if_false)).union(set![x.span])
}

/// The places of a `CastExpression` and of all that it holds.
pub open spec fn cast_expression_spans(x: CastExpressionView) -> Set<Span>
    decreases x,
{
    expression_spans(*x.inner).union(type_spans(x.target_type)).union(set![x.span])
}

/// The places of a `SpreadOrExpression` and of all that it holds.
pub open spec fn spread_or_expression_spans(x: SpreadOrExpressionView) -> Set<Span>
    decreases x,
{
    match x {
        SpreadOrExpressionView::Spread(f0) => expression_spans(f0),
        SpreadOrExpressionView::Expression(f0) => expression_spans(f0),
    }
}

/// The places of a list.
pub open spec fn spread_or_expression_seq_spans(s: Seq<SpreadOrExpressionView>) -> Set<Span>
    decreases s,
{
    if s.len() == 0 {
        Set::empty()
    } else {
        spread_or_expression_seq_spans(s.drop_last()).union(spread_or_expression_spans(s.last()))
    }
}

/// The places of an `ArrayInlineExpression` and of all that it holds.
pub open spec fn array_inline_expression_spans(x: ArrayInlineExpressionView) -> Set<Span>
    decreases x,
{
    spread_or_expression_seq_spans(x.elements).union(set![x.span])
}

/// The places of an `ArrayInitExpression` and of all that it holds.
pub open spec fn array_init_expression_spans(x: ArrayInitExpressionView) -> Set<Span>
    decreases x,
{
    expression_spans(*x.element).union(set![x.span])
}

/// The places of an `ArrayAccessExpression` and of all that it holds.
pub open spec fn array_access_expression_spans(x: ArrayAccessExpressionView) -> Set<Span>
    decreases x,
{
    expression_spans(*x.array).union(expression_spans(*x.index)).union(set![x.span])
}

/// The places of an `ArrayRangeAccessExpression` and of all that it holds.
pub open spec fn array_range_access_expression_spans(x: ArrayRangeAccessExpressionView) -> Set<Span>
    decreases x,
{
    expression_spans(
        *x.array,
    ).union(match x.left { Some(v) => expression_spans(*v), None => Set::empty() }).union(match x.right { Some(v) => expression_spans(*v), None => Set::empty() }).union(set![x.span])
}

/// The places of a `TupleInitExpression` and of all that it holds.
pub open spec fn tuple_init_expression_spans(x: TupleInitExpressionView) -> Set<Span>
    decreases x,
{
    expression_seq_spans(x.elements).union(set![x.span])
}

/// The places of a `TupleAccessExpression` and of all that it holds.
pub open spec fn tuple_access_expression_spans(x: TupleAccessExpressionView) -> Set<Span>
    decreases x,
{
    expression_spans(*x.tuple).union(set![x.span])
}

/// The places of a `CircuitImpliedVariableDefinition` and of all that it holds.
pub open spec fn circuit_implied_variable_definition_spans(
    x: CircuitImpliedVariableDefinitionView,
) -> Set<Span>
    decreases x,
{
    identifier_spans(
        x.identifier,
    ).union(match x.expression { Some(v) => expression_spans(v), None => Set::empty() })
}

/// The places of a list.
pub open spec fn circuit_implied_variable_definition_seq_spans(
    s: Seq<CircuitImpliedVariableDefinitionView>,
) -> Set<Span>
    decreases s,
{
    if s.len() == 0 {
        Set::empty()
    } else {
        circuit_implied_variable_definition_seq_spans(
            s.drop_last(),
        ).union(circuit_implied_variable_definition_spans(s.last()))
    }
}

/// The places of a `CircuitInitExpression` and of all that it holds.
pub open spec fn circuit_init_expression_spans(x: CircuitInitExpressionView) -> Set<Span>
    decreases x,
{
    identifier_spans(
        x.name,
    ).union(circuit_implied_variable_definition_seq_spans(x.members)).union(set![x.span])
}

/// The places of a `CircuitMemberAccessExpression` and of all that it holds.
pub open spec fn circuit_member_access_expression_spans(
    x: CircuitMemberAccessExpressionView,
) -> Set<Span>
    decreases x,
{
    expression_spans(*x.circuit).union(identifier_spans(x.name)).union(set![x.span])
}

/// The places of a `CircuitStaticFunctionAccessExpression` and of all that it holds.
pub open spec fn circuit_static_function_access_expression_spans(
    x: CircuitStaticFunctionAccessExpressionView,
) -> Set<Span>
    decreases x,
{
    expression_spans(*x.circuit).union(identifier_spans(x.name)).union(set![x.span])
}

/// The places of a `CallExpression` and of all that it holds.
pub open spec fn call_expression_spans(x: CallExpressionView) -> Set<Span>
    decreases x,
{
    expression_spans(*x.function).union(expression_seq_spans(x.arguments)).union(set![x.span])
}

/// The places of an `Expression` and of all that it holds.
pub open spec fn expression_spans(x: ExpressionView) -> Set<Span>
    decreases x,
{
    match x {
        ExpressionView::Identifier(f0) => identifier_spans(f0),
        ExpressionView::Value(f0) => value_expression_spans(f0),
        ExpressionView::Binary(f0) => binary_expression_spans(f0),
        ExpressionView::Unary(f0) => unary_expression_spans(f0),
        ExpressionView::Ternary(f0) => ternary_expression_spans(f0),
        ExpressionView::Cast(f0) => cast_expression_spans(f0),
        ExpressionView::ArrayInline(f0) => array_inline_expression_spans(f0),
        ExpressionView::ArrayInit(f0) => array_init_expression_spans(f0),
        ExpressionView::ArrayAccess(f0) => array_access_expression_spans(f0),
        ExpressionView::ArrayRangeAccess(f0) => array_range_access_expression_spans(f0),
        ExpressionView::TupleInit(f0) => tuple_init_expression_spans(f0),
        ExpressionView::TupleAccess(f0) => tuple_access_expression_spans(f0),
        ExpressionView::CircuitInit(f0) => circuit_init_expression_spans(f0),
        ExpressionView::CircuitMemberAccess(f0) => circuit_member_access_expression_spans(f0),
        ExpressionView::CircuitStaticFunctionAccess(
            f0,
        ) => circuit_static_function_access_expression_spans(f0),
        ExpressionView::Call(f0) => call_expression_spans(f0),
    }
}

/// The places of a list.
pub open spec fn expression_seq_spans(s: Seq<ExpressionView>) -> Set<Span>
    decreases s,
{
    if s.len() == 0 {
        Set::empty()
    } else {
        expression_seq_spans(s.drop_last()).union(expression_spans(s.last()))
    }
}

/// The places of a `ReturnStatement` and of all that it holds.
pub open spec fn return_statement_spans(x: ReturnStatementView) -> Set<Span>
    decreases x,
{
    expression_spans(x.expression).union(set![x.span])
}

/// The places of a `VariableName` and of all that it holds.
pub open spec fn variable_name_spans(x: VariableNameView) -> Set<Span>
    decreases x,
{
    identifier_spans(x.identifier).union(set![x.span])
}

/// The places of a list.
pub open spec fn variable_name_seq_spans(s: Seq<VariableNameView>) -> Set<Span>
    decreases s,
{
    if s.len() == 0 {
        Set::empty()
    } else {
        variable_name_seq_spans(s.drop_last()).union(variable_name_spans(s.last()))
    }
}

/// The places of a `DefinitionStatement` and of all that it holds.
pub open spec fn definition_statement_spans(x: DefinitionStatementView) -> Set<Span>
    decreases x,
{
    variable_name_seq_spans(
        x.variable_names,
    ).union(match x.type_ { Some(v) => type_spans(v), None => Set::empty() }).union(expression_spans(x.value)).union(set![x.span])
}

/// The places of an `AssigneeAccess` and of all that it holds.
pub open spec fn assignee_access_spans(x: AssigneeAccessView) -> Set<Span>
    decreases x,
{
    match x {
        AssigneeAccessView::ArrayRange(
            f0,
            f1,
        ) => match f0 { Some(v) => expression_spans(v), None => Set::empty() }.union(match f1 { Some(v) => expression_spans(v), None => Set::empty() }),
        AssigneeAccessView::ArrayIndex(f0) => expression_spans(f0),
        AssigneeAccessView::Tuple(_, f1) => set![f1],
        AssigneeAccessView::Member(f0) => identifier_spans(f0),
    }
}

/// The places of a list.
pub open spec fn assignee_access_seq_spans(s: Seq<AssigneeAccessView>) -> Set<Span>
    decreases s,
{
    if s.len() == 0 {
        Set::empty()
    } else {
        assignee_access_seq_spans(s.drop_last()).union(assignee_access_spans(s.last()))
    }
}

/// The places of an `Assignee` and of all that it holds.
pub open spec fn assignee_spans(x: AssigneeView) -> Set<Span>
    decreases x,
{
    identifier_spans(x.identifier).union(assignee_access_seq_spans(x.accesses)).union(set![x.span])
}

/// The places of an `AssignStatement` and of all that it holds.
pub open spec fn assign_statement_spans(x: AssignStatementView) -> Set<Span>
    decreases x,
{
    assignee_spans(x.assignee).union(expression_spans(x.value)).union(set![x.span])
}

/// The places of a `ConditionalStatement` and of all that it holds.
pub open spec fn conditional_statement_spans(x: ConditionalStatementView) -> Set<Span>
    decreases x,
{
    expression_spans(
        x.condition,
    ).union(block_spans(x.block)).union(match x.next { Some(v) => statement_spans(*v), None => Set::empty() }).union(set![x.span])
}

/// The places of an `IterationStatement` and of all that it holds.
pub open spec fn iteration_statement_spans(x: IterationStatementView) -> Set<Span>
    decreases x,
{
    identifier_spans(
        x.variable,
    ).union(expression_spans(x.start)).union(expression_spans(x.stop)).union(block_spans(x.block)).union(set![x.span])
}

/// The places of a `FormatStringPart` and of all that it holds.
pub open spec fn format_string_part_spans(x: FormatStringPartView) -> Set<Span>
    decreases x,
{
    match x {
        FormatStringPartView::Const(_) => Set::empty(),
        FormatStringPartView::Container => Set::empty(),
    }
}

/// The places of a list.
pub open spec fn format_string_part_seq_spans(s: Seq<FormatStringPartView>) -> Set<Span>
    decreases s,
{
    if s.len() == 0 {
        Set::empty()
    } else {
        format_string_part_seq_spans(s.drop_last()).union(format_string_part_spans(s.last()))
    }
}

/// The places of a `FormatString` and of all that it holds.
pub open spec fn format_string_spans(x: FormatStringView) -> Set<Span>
    decreases x,
{
    format_string_part_seq_spans(
        x.parts,
    ).union(expression_seq_spans(x.parameters)).union(set![x.span])
}

/// The places of a `ConsoleFunction` and of all that it holds.
pub open spec fn console_function_spans(x: ConsoleFunctionView) -> Set<Span>
    decreases x,
{
    match x {
        ConsoleFunctionView::Assert(f0) => expression_spans(f0),
        ConsoleFunctionView::Debug(f0) => format_string_spans(f0),
        ConsoleFunctionView::Error(f0) => format_string_spans(f0),
        ConsoleFunctionView::Log(f0) => format_string_spans(f0),
    }
}

/// The places of a `ConsoleStatement` and of all that it holds.
pub open spec fn console_statement_spans(x: ConsoleStatementView) -> Set<Span>
    decreases x,
{
    console_function_spans(x.function).union(set![x.span])
}

/// The places of an `ExpressionStatement` and of all that it holds.
pub open spec fn expression_statement_spans(x: ExpressionStatementView) -> Set<Span>
    decreases x,
{
    expression_spans(x.expression).union(set![x.span])
}

/// The places of a `Block` and of all that it holds.
pub open spec fn block_spans(x: BlockView) -> Set<Span>
    decreases x,
{
    statement_seq_spans(x.statements).union(set![x.span])
}

/// The places of a `Statement` and of all that it holds.
pub open spec fn statement_spans(x: StatementView) -> Set<Span>
    decreases x,
{
    match x {
        StatementView::Return(f0) => return_statement_spans(f0),
        StatementView::Definition(f0) => definition_statement_spans(f0),
        StatementView::Assign(f0) => assign_statement_spans(f0),
        StatementView::Conditional(f0) => conditional_statement_spans(f0),
        StatementView::Iteration(f0) => iteration_statement_spans(f0),
        StatementView::Console(f0) => console_statement_spans(f0),
        StatementView::Expression(f0) => expression_statement_spans(f0),
        StatementView::Block(f0) => block_spans(f0),
    }
}

/// The places of a list.
pub open spec fn statement_seq_spans(s: Seq<StatementView>) -> Set<Span>
    decreases s,
{
    if s.len() == 0 {
        Set::empty()
    } else {
        statement_seq_spans(s.drop_last()).union(statement_spans(s.last()))
    }
}

/// The places of a `FunctionInputVariable` and of all that it holds.
pub open spec fn function_input_variable_spans(x: FunctionInputVariableView) -> Set<Span>
    decreases x,
{
    identifier_spans(x.identifier).union(type_spans(x.type_)).union(set![x.span])
}

/// The places of a `FunctionInput` and of all that it holds.
pub open spec fn function_input_spans(x: FunctionInputView) -> Set<Span>
    decreases x,
{
    match x {
        FunctionInputView::SelfKeyword(f0) => set![f0],
        FunctionInputView::ConstSelfKeyword(f0) => set![f0],
        FunctionInputView::MutSelfKeyword(f0) => set![f0],
        FunctionInputView::Variable(f0) => function_input_variable_spans(f0),
    }
}

/// The places of a list.
pub open spec fn function_input_seq_spans(s: Seq<FunctionInputView>) -> Set<Span>
    decreases s,
{
    if s.len() == 0 {
        Set::empty()
    } else {
        function_input_seq_spans(s.drop_last()).union(function_input_spans(s.last()))
    }
}

/// The places of an `Annotation` and of all that it holds.
pub open spec fn annotation_spans(x: AnnotationView) -> Set<Span>
    decreases x,
{
    set![x.span].union(identifier_spans(x.name))
}

/// The places of a list.
pub open spec fn annotation_seq_spans(s: Seq<AnnotationView>) -> Set<Span>
    decreases s,
{
    if s.len() == 0 {
        Set::empty()
    } else {
        annotation_seq_spans(s.drop_last()).union(annotation_spans(s.last()))
    }
}

/// The places of a `Function` and of all that it holds.
pub open spec fn function_spans(x: FunctionView) -> Set<Span>
    decreases x,
{
    annotation_seq_spans(
        x.annotations,
    ).union(identifier_spans(x.identifier)).union(function_input_seq_spans(x.input)).union(match x.output { Some(v) => type_spans(v), None => Set::empty() }).union(block_spans(x.block)).union(set![x.span])
}

/// The places of a `CircuitMember` and of all that it holds.
pub open spec fn circuit_member_spans(x: CircuitMemberView) -> Set<Span>
    decreases x,
{
    match x {
        CircuitMemberView::CircuitVariable(f0, f1) => identifier_spans(f0).union(type_spans(f1)),
        CircuitMemberView::CircuitFunction(f0) => function_spans(f0),
    }
}

/// The places of a list.
pub open spec fn circuit_member_seq_spans(s: Seq<CircuitMemberView>) -> Set<Span>
    decreases s,
{
    if s.len() == 0 {
        Set::empty()
    } else {
        circuit_member_seq_spans(s.drop_last()).union(circuit_member_spans(s.last()))
    }
}

/// The places of a `Circuit` and of all that it holds.
pub open spec fn circuit_spans(x: CircuitView) -> Set<Span>
    decreases x,
{
    identifier_spans(x.circuit_name).union(circuit_member_seq_spans(x.members))
}

/// The places of an `ImportSymbol` and of all that it holds.
pub open spec fn import_symbol_spans(x: ImportSymbolView) -> Set<Span>
    decreases x,
{
    identifier_spans(
        x.symbol,
    ).union(match x.alias { Some(v) => identifier_spans(v), None => Set::empty() }).union(set![x.span])
}

/// The places of a `PackageAccess` and of all that it holds.
pub open spec fn package_access_spans(x: PackageAccessView) -> Set<Span>
    decreases x,
{
    match x {
        PackageAccessView::Star(f0) => set![f0],
        PackageAccessView::SubPackage(f0) => package_spans(*f0),
        PackageAccessView::Symbol(f0) => import_symbol_spans(f0),
        PackageAccessView::Multiple(f0) => package_access_seq_spans(f0),
    }
}

/// The places of a list.
pub open spec fn package_access_seq_spans(s: Seq<PackageAccessView>) -> Set<Span>
    decreases s,
{
    if s.len() == 0 {
        Set::empty()
    } else {
        package_access_seq_spans(s.drop_last()).union(package_access_spans(s.last()))
    }
}

/// The places of a `Package` and of all that it holds.
pub open spec fn package_spans(x: PackageView) -> Set<Span>
    decreases x,
{
    identifier_spans(x.name).union(package_access_spans(x.access)).union(set![x.span])
}

/// The places of a `Packages` and of all that it holds.
pub open spec fn packages_spans(x: PackagesView) -> Set<Span>
    decreases x,
{
    identifier_spans(x.name).union(package_access_seq_spans(x.accesses)).union(set![x.span])
}

/// The places of a `PackageOrPackages` and of all that it holds.
pub open spec fn package_or_packages_spans(x: PackageOrPackagesView) -> Set<Span>
    decreases x,
{
    match x {
        PackageOrPackagesView::Package(f0) => package_spans(f0),
        PackageOrPackagesView::Packages(f0) => packages_spans(f0),
    }
}

/// The places of an `ImportStatement` and of all that it holds.
pub open spec fn import_statement_spans(x: ImportStatementView) -> Set<Span>
    decreases x,
{
    package_or_packages_spans(x.package_or_packages).union(set![x.span])
}

/// The places of a list.
pub open spec fn import_statement_seq_spans(s: Seq<ImportStatementView>) -> Set<Span>
    decreases s,
{
    if s.len() == 0 {
        Set::empty()
    } else {
        import_statement_seq_spans(s.drop_last()).union(import_statement_spans(s.last()))
    }
}

/// The places of the entries of a map of circuits.
pub open spec fn circuit_entries_spans(s: Seq<(IdentifierView, CircuitView)>) -> Set<Span>
    decreases s.len(),
{
    if s.len() == 0 {
        Set::empty()
    } else {
        circuit_entries_spans(s.drop_last()).union(identifier_spans(s.last().0)).union(
            circuit_spans(s.last().1),
        )
    }
}

/// The places of the entries of a map of functions.
pub open spec fn function_entries_spans(s: Seq<(IdentifierView, FunctionView)>) -> Set<Span>
    decreases s.len(),
{
    if s.len() == 0 {
        Set::empty()
    } else {
        function_entries_spans(s.drop_last()).union(identifier_spans(s.last().0)).union(
            function_spans(s.last().1),
        )
    }
}

/// The places of a program and of all that it holds.
pub open spec fn program_spans(x: ProgramView) -> Set<Span> {
    function_input_seq_spans(x.expected_input).union(import_statement_seq_spans(x.imports)).union(
        circuit_entries_spans(x.circuits),
    ).union(function_entries_spans(x.functions))
}

} // verus!
