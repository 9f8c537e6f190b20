//! The reducer that rewrites nothing.
use crate::ast::common::{Identifier, IdentifierView};
use crate::ast::expression::{
    ArrayAccessExpression, ArrayAccessExpressionView, ArrayInitExpression, ArrayInitExpressionView,
    ArrayInlineExpression, ArrayInlineExpressionView, ArrayRangeAccessExpression,
    ArrayRangeAccessExpressionView, BinaryExpression, BinaryExpressionView, BinaryOperation,
    CallExpression, CallExpressionView, CastExpression, CastExpressionView,
    CircuitImpliedVariableDefinition, CircuitImpliedVariableDefinitionView, CircuitInitExpression,
    CircuitInitExpressionView, CircuitMemberAccessExpression, CircuitMemberAccessExpressionView,
    CircuitStaticFunctionAccessExpression, CircuitStaticFunctionAccessExpressionView, Expression,
    ExpressionView, GroupTuple, GroupTupleView, GroupValue, GroupValueView, SpreadOrExpression,
    SpreadOrExpressionView, TernaryExpression, TernaryExpressionView, TupleAccessExpression,
    TupleAccessExpressionView, TupleInitExpression, TupleInitExpressionView, UnaryExpression,
    UnaryExpressionView, UnaryOperation, ValueExpression, ValueExpressionView,
};
use crate::ast::function::{
    Annotation, AnnotationView, Circuit, CircuitMember, CircuitMemberView, CircuitView, Function,
    FunctionInput, FunctionInputVariable, FunctionInputVariableView, FunctionInputView,
    FunctionView,
};
use crate::ast::imports::{
    ImportStatement, ImportStatementView, PackageOrPackages, PackageOrPackagesView,
};
use crate::ast::program::{Program, ProgramView};
use crate::ast::statement::{
    Assignee, AssigneeAccess, AssigneeAccessView, AssigneeView, AssignStatement,
    AssignStatementView, Block, BlockView, ConditionalStatement, ConditionalStatementView,
    ConsoleFunction, ConsoleFunctionView, ConsoleStatement, ConsoleStatementView,
    DefinitionStatement, DefinitionStatementView, ExpressionStatement, ExpressionStatementView,
    IterationStatement, IterationStatementView, ReturnStatement, ReturnStatementView, Statement,
    StatementView, VariableName, VariableNameView,
};
use crate::ast::types::{Type, TypeView};
use crate::reducer::reconstructing_director::{
    DirectorView, walk_annotation, walk_annotations, walk_array_access, walk_array_init,
    walk_array_inline, walk_array_range_access, walk_assign, walk_assignee, walk_assignee_access,
    walk_assignee_accesses, walk_binary, walk_block, walk_call, walk_cast, walk_circuit,
    walk_circuit_entries, walk_circuit_implied_variable_definition,
    walk_circuit_implied_variable_definitions, walk_circuit_init, walk_circuit_member,
    walk_circuit_member_access, walk_circuit_members, walk_circuit_static_fn_access,
    walk_conditional, walk_console, walk_definition, walk_expression, walk_expression_statement,
    walk_expressions, walk_function, walk_function_entries, walk_function_input,
    walk_function_input_variable, walk_function_inputs, walk_group_tuple, walk_group_value,
    walk_identifier, walk_import, walk_imports, walk_iteration, walk_package_or_packages,
    walk_program, walk_return, walk_spread_or_expression, walk_spread_or_expressions,
    walk_statement, walk_statements, walk_ternary, walk_tuple_access, walk_tuple_init, walk_type,
    walk_types, walk_unary, walk_value, walk_variable_name, walk_variable_names,
};
use crate::ast::program::{distinct_keys, position};
use crate::errors::CanonicalizeError;
use crate::reducer::reconstructing_reducer::{
    rebuild_annotation, rebuild_array_access, rebuild_array_init, rebuild_array_inline,
    rebuild_array_range_access, rebuild_assign, rebuild_assignee, rebuild_binary, rebuild_block,
    rebuild_call, rebuild_cast, rebuild_circuit, rebuild_circuit_implied_variable_definition,
    rebuild_circuit_init, rebuild_circuit_member_access, rebuild_circuit_static_fn_access,
    rebuild_conditional, rebuild_console, rebuild_definition, rebuild_expression_statement,
    rebuild_function, rebuild_function_input_variable, rebuild_group_tuple, rebuild_identifier,
    rebuild_import, rebuild_iteration, rebuild_program, rebuild_return, rebuild_ternary,
    rebuild_tuple_access, rebuild_tuple_init, rebuild_unary, rebuild_variable_name,
    rebuilt_annotation, rebuilt_array_access, rebuilt_array_init, rebuilt_array_inline,
    rebuilt_array_range_access, rebuilt_assign, rebuilt_assignee, rebuilt_binary, rebuilt_block,
    rebuilt_call, rebuilt_cast, rebuilt_circuit, rebuilt_circuit_implied_variable_definition,
    rebuilt_circuit_init, rebuilt_circuit_member_access, rebuilt_circuit_static_fn_access,
    rebuilt_conditional, rebuilt_console, rebuilt_definition, rebuilt_expression_statement,
    rebuilt_function, rebuilt_function_input_variable, rebuilt_group_tuple, rebuilt_identifier,
    rebuilt_import, rebuilt_iteration, rebuilt_program, rebuilt_return, rebuilt_ternary,
    rebuilt_tuple_access, rebuilt_tuple_init, rebuilt_unary, rebuilt_variable_name,
    ReconstructingReducer,
};
use crate::span::Span;
use indexmap::IndexMap;
use vstd::prelude::*;

verus! {

/// A reducer that keeps every node as the director rebuilt it. A pass of the
/// director with it gives the tree it was given.
#[derive(Clone, Copy, Debug, PartialEq, Eq)]
pub struct TypeInferenceCombiner;

impl View for TypeInferenceCombiner {
    type V = ();

    open spec fn view(&self) -> () {
        ()
    }
}

impl Default for TypeInferenceCombiner {
    fn default() -> (r: Self) {
        TypeInferenceCombiner
    }
}

impl ReconstructingReducer for TypeInferenceCombiner {
    open spec fn reduce_type_spec(
        state: (),
        type_: TypeView,
        new: TypeView,
        in_circuit: bool,
        span: Span,
    ) -> ((), Result<TypeView, CanonicalizeError>) {
        (state, Ok(new))
    }

    fn reduce_type(
        &mut self,
        type_: &Type,
        new: Type,
        in_circuit: bool,
        span: &Span,
    ) -> (r: Result<Type, CanonicalizeError>) {
        Ok(new)
    }

    open spec fn reduce_expression_spec(
        state: (),
        expression: ExpressionView,
        new: ExpressionView,
        in_circuit: bool,
    ) -> ((), Result<ExpressionView, CanonicalizeError>) {
        (state, Ok(new))
    }

    fn reduce_expression(
        &mut self,
        expression: &Expression,
        new: Expression,
        in_circuit: bool,
    ) -> (r: Result<Expression, CanonicalizeError>) {
        Ok(new)
    }

    open spec fn reduce_identifier_spec(
        state: (),
        identifier: IdentifierView,
    ) -> ((), Result<IdentifierView, CanonicalizeError>) {
        (state, Ok(rebuilt_identifier(identifier)))
    }

    fn reduce_identifier(
        &mut self,
        identifier: &Identifier,
    ) -> (r: Result<Identifier, CanonicalizeError>) {
        Ok(rebuild_identifier(identifier))
    }

    open spec fn reduce_group_tuple_spec(
        state: (),
        group_tuple: GroupTupleView,
    ) -> ((), Result<GroupTupleView, CanonicalizeError>) {
        (state, Ok(rebuilt_group_tuple(group_tuple)))
    }

    fn reduce_group_tuple(
        &mut self,
        group_tuple: &GroupTuple,
    ) -> (r: Result<GroupTuple, CanonicalizeError>) {
        Ok(rebuild_group_tuple(group_tuple))
    }

    open spec fn reduce_group_value_spec(
        state: (),
        group_value: GroupValueView,
        new: GroupValueView,
    ) -> ((), Result<GroupValueView, CanonicalizeError>) {
        (state, Ok(new))
    }

    fn reduce_group_value(
        &mut self,
        group_value: &GroupValue,
        new: GroupValue,
    ) -> (r: Result<GroupValue, CanonicalizeError>) {
        Ok(new)
    }

    open spec fn reduce_value_spec(
        state: (),
        value: ValueExpressionView,
        new: ValueExpressionView,
    ) -> ((), Result<ValueExpressionView, CanonicalizeError>) {
        (state, Ok(new))
    }

    fn reduce_value(
        &mut self,
        value: &ValueExpression,
        new: ValueExpression,
    ) -> (r: Result<ValueExpression, CanonicalizeError>) {
        Ok(new)
    }

    open spec fn reduce_binary_spec(
        state: (),
        binary: BinaryExpressionView,
        left: ExpressionView,
        right: ExpressionView,
        op: BinaryOperation,
        in_circuit: bool,
    ) -> ((), Result<BinaryExpressionView, CanonicalizeError>) {
        (state, Ok(rebuilt_binary(binary, left, right, op)))
    }

    fn reduce_binary(
        &mut self,
        binary: &BinaryExpression,
        left: Expression,
        right: Expression,
        op: BinaryOperation,
        in_circuit: bool,
    ) -> (r: Result<BinaryExpression, CanonicalizeError>) {
        Ok(rebuild_binary(binary, left, right, op))
    }

    open spec fn reduce_unary_spec(
        state: (),
        unary: UnaryExpressionView,
        inner: ExpressionView,
        op: UnaryOperation,
        in_circuit: bool,
    ) -> ((), Result<UnaryExpressionView, CanonicalizeError>) {
        (state, Ok(rebuilt_unary(unary, inner, op)))
    }

    fn reduce_unary(
        &mut self,
        unary: &UnaryExpression,
        inner: Expression,
        op: UnaryOperation,
        in_circuit: bool,
    ) -> (r: Result<UnaryExpression, CanonicalizeError>) {
        Ok(rebuild_unary(unary, inner, op))
    }

    open spec fn reduce_ternary_spec(
        state: (),
        ternary: TernaryExpressionView,
        condition: ExpressionView,
        if_true: ExpressionView,
        if_false: ExpressionView,
        in_circuit: bool,
    ) -> ((), Result<TernaryExpressionView, CanonicalizeError>) {
        (state, Ok(rebuilt_ternary(ternary, condition, if_true, if_false)))
    }

    fn reduce_ternary(
        &mut self,
        ternary: &TernaryExpression,
        condition: Expression,
        if_true: Expression,
        if_false: Expression,
        in_circuit: bool,
    ) -> (r: Result<TernaryExpression, CanonicalizeError>) {
        Ok(rebuild_ternary(ternary, condition, if_true, if_false))
    }

    open spec fn reduce_cast_spec(
        state: (),
        cast: CastExpressionView,
        inner: ExpressionView,
        target_type: TypeView,
        in_circuit: bool,
    ) -> ((), Result<CastExpressionView, CanonicalizeError>) {
        (state, Ok(rebuilt_cast(cast, inner, target_type)))
    }

    fn reduce_cast(
        &mut self,
        cast: &CastExpression,
        inner: Expression,
        target_type: Type,
        in_circuit: bool,
    ) -> (r: Result<CastExpression, CanonicalizeError>) {
        Ok(rebuild_cast(cast, inner, target_type))
    }

    open spec fn reduce_array_inline_spec(
        state: (),
        array_inline: ArrayInlineExpressionView,
        elements: Seq<SpreadOrExpressionView>,
        in_circuit: bool,
    ) -> ((), Result<ArrayInlineExpressionView, CanonicalizeError>) {
        (state, Ok(rebuilt_array_inline(array_inline, elements)))
    }

    fn reduce_array_inline(
        &mut self,
        array_inline: &ArrayInlineExpression,
        elements: Vec<SpreadOrExpression>,
        in_circuit: bool,
    ) -> (r: Result<ArrayInlineExpression, CanonicalizeError>) {
        Ok(rebuild_array_inline(array_inline, elements))
    }

    open spec fn reduce_array_init_spec(
        state: (),
        array_init: ArrayInitExpressionView,
        element: ExpressionView,
        in_circuit: bool,
    ) -> ((), Result<ArrayInitExpressionView, CanonicalizeError>) {
        (state, Ok(rebuilt_array_init(array_init, element)))
    }

    fn reduce_array_init(
        &mut self,
        array_init: &ArrayInitExpression,
        element: Expression,
        in_circuit: bool,
    ) -> (r: Result<ArrayInitExpression, CanonicalizeError>) {
        Ok(rebuild_array_init(array_init, element))
    }

    open spec fn reduce_array_access_spec(
        state: (),
        array_access: ArrayAccessExpressionView,
        array: ExpressionView,
        index: ExpressionView,
        in_circuit: bool,
    ) -> ((), Result<ArrayAccessExpressionView, CanonicalizeError>) {
        (state, Ok(rebuilt_array_access(array_access, array, index)))
    }

    fn reduce_array_access(
        &mut self,
        array_access: &ArrayAccessExpression,
        array: Expression,
        index: Expression,
        in_circuit: bool,
    ) -> (r: Result<ArrayAccessExpression, CanonicalizeError>) {
        Ok(rebuild_array_access(array_access, array, index))
    }

    open spec fn reduce_array_range_access_spec(
        state: (),
        array_range_access: ArrayRangeAccessExpressionView,
        array: ExpressionView,
        left: Option<ExpressionView>,
        right: Option<ExpressionView>,
        in_circuit: bool,
    ) -> ((), Result<ArrayRangeAccessExpressionView, CanonicalizeError>) {
        (state, Ok(rebuilt_array_range_access(array_range_access, array, left, right)))
    }

    fn reduce_array_range_access(
        &mut self,
        array_range_access: &ArrayRangeAccessExpression,
        array: Expression,
        left: Option<Expression>,
        right: Option<Expression>,
        in_circuit: bool,
    ) -> (r: Result<ArrayRangeAccessExpression, CanonicalizeError>) {
        Ok(rebuild_array_range_access(array_range_access, array, left, right))
    }

    open spec fn reduce_tuple_init_spec(
        state: (),
        tuple_init: TupleInitExpressionView,
        elements: Seq<ExpressionView>,
        in_circuit: bool,
    ) -> ((), Result<TupleInitExpressionView, CanonicalizeError>) {
        (state, Ok(rebuilt_tuple_init(tuple_init, elements)))
    }

    fn reduce_tuple_init(
        &mut self,
        tuple_init: &TupleInitExpression,
        elements: Vec<Expression>,
        in_circuit: bool,
    ) -> (r: Result<TupleInitExpression, CanonicalizeError>) {
        Ok(rebuild_tuple_init(tuple_init, elements))
    }

    open spec fn reduce_tuple_access_spec(
        state: (),
        tuple_access: TupleAccessExpressionView,
        tuple: ExpressionView,
        in_circuit: bool,
    ) -> ((), Result<TupleAccessExpressionView, CanonicalizeError>) {
        (state, Ok(rebuilt_tuple_access(tuple_access, tuple)))
    }

    fn reduce_tuple_access(
        &mut self,
        tuple_access: &TupleAccessExpression,
        tuple: Expression,
        in_circuit: bool,
    ) -> (r: Result<TupleAccessExpression, CanonicalizeError>) {
        Ok(rebuild_tuple_access(tuple_access, tuple))
    }

    open spec fn reduce_circuit_implied_variable_definition_spec(
        state: (),
        variable: CircuitImpliedVariableDefinitionView,
        identifier: IdentifierView,
        expression: Option<ExpressionView>,
        in_circuit: bool,
    ) -> ((), Result<CircuitImpliedVariableDefinitionView, CanonicalizeError>) {
        (state, Ok(rebuilt_circuit_implied_variable_definition(variable, identifier, expression)))
    }

    fn reduce_circuit_implied_variable_definition(
        &mut self,
        variable: &CircuitImpliedVariableDefinition,
        identifier: Identifier,
        expression: Option<Expression>,
        in_circuit: bool,
    ) -> (r: Result<CircuitImpliedVariableDefinition, CanonicalizeError>) {
        Ok(rebuild_circuit_implied_variable_definition(variable, identifier, expression))
    }

    open spec fn reduce_circuit_init_spec(
        state: (),
        circuit_init: CircuitInitExpressionView,
        name: IdentifierView,
        members: Seq<CircuitImpliedVariableDefinitionView>,
        in_circuit: bool,
    ) -> ((), Result<CircuitInitExpressionView, CanonicalizeError>) {
        (state, Ok(rebuilt_circuit_init(circuit_init, name, members)))
    }

    fn reduce_circuit_init(
        &mut self,
        circuit_init: &CircuitInitExpression,
        name: Identifier,
        members: Vec<CircuitImpliedVariableDefinition>,
        in_circuit: bool,
    ) -> (r: Result<CircuitInitExpression, CanonicalizeError>) {
        Ok(rebuild_circuit_init(circuit_init, name, members))
    }

    open spec fn reduce_circuit_member_access_spec(
        state: (),
        circuit_member_access: CircuitMemberAccessExpressionView,
        circuit: ExpressionView,
        name: IdentifierView,
        in_circuit: bool,
    ) -> ((), Result<CircuitMemberAccessExpressionView, CanonicalizeError>) {
        (state, Ok(rebuilt_circuit_member_access(circuit_member_access, circuit, name)))
    }

    fn reduce_circuit_member_access(
        &mut self,
        circuit_member_access: &CircuitMemberAccessExpression,
        circuit: Expression,
        name: Identifier,
        in_circuit: bool,
    ) -> (r: Result<CircuitMemberAccessExpression, CanonicalizeError>) {
        Ok(rebuild_circuit_member_access(circuit_member_access, circuit, name))
    }

    open spec fn reduce_circuit_static_fn_access_spec(
        state: (),
        circuit_static_fn_access: CircuitStaticFunctionAccessExpressionView,
        circuit: ExpressionView,
        name: IdentifierView,
        in_circuit: bool,
    ) -> ((), Result<CircuitStaticFunctionAccessExpressionView, CanonicalizeError>) {
        (state, Ok(rebuilt_circuit_static_fn_access(circuit_static_fn_access, circuit, name)))
    }

    fn reduce_circuit_static_fn_access(
        &mut self,
        circuit_static_fn_access: &CircuitStaticFunctionAccessExpression,
        circuit: Expression,
        name: Identifier,
        in_circuit: bool,
    ) -> (r: Result<CircuitStaticFunctionAccessExpression, CanonicalizeError>) {
        Ok(rebuild_circuit_static_fn_access(circuit_static_fn_access, circuit, name))
    }

    open spec fn reduce_call_spec(
        state: (),
        call: CallExpressionView,
        function: ExpressionView,
        arguments: Seq<ExpressionView>,
        in_circuit: bool,
    ) -> ((), Result<CallExpressionView, CanonicalizeError>) {
        (state, Ok(rebuilt_call(call, function, arguments)))
    }

    fn reduce_call(
        &mut self,
        call: &CallExpression,
        function: Expression,
        arguments: Vec<Expression>,
        in_circuit: bool,
    ) -> (r: Result<CallExpression, CanonicalizeError>) {
        Ok(rebuild_call(call, function, arguments))
    }

    open spec fn reduce_statement_spec(
        state: (),
        statement: StatementView,
        new: StatementView,
        in_circuit: bool,
    ) -> ((), Result<StatementView, CanonicalizeError>) {
        (state, Ok(new))
    }

    fn reduce_statement(
        &mut self,
        statement: &Statement,
        new: Statement,
        in_circuit: bool,
    ) -> (r: Result<Statement, CanonicalizeError>) {
        Ok(new)
    }

    open spec fn reduce_return_spec(
        state: (),
        return_statement: ReturnStatementView,
        expression: ExpressionView,
        in_circuit: bool,
    ) -> ((), Result<ReturnStatementView, CanonicalizeError>) {
        (state, Ok(rebuilt_return(return_statement, expression)))
    }

    fn reduce_return(
        &mut self,
        return_statement: &ReturnStatement,
        expression: Expression,
        in_circuit: bool,
    ) -> (r: Result<ReturnStatement, CanonicalizeError>) {
        Ok(rebuild_return(return_statement, expression))
    }

    open spec fn reduce_variable_name_spec(
        state: (),
        variable_name: VariableNameView,
        identifier: IdentifierView,
    ) -> ((), Result<VariableNameView, CanonicalizeError>) {
        (state, Ok(rebuilt_variable_name(variable_name, identifier)))
    }

    fn reduce_variable_name(
        &mut self,
        variable_name: &VariableName,
        identifier: Identifier,
    ) -> (r: Result<VariableName, CanonicalizeError>) {
        Ok(rebuild_variable_name(variable_name, identifier))
    }

    open spec fn reduce_definition_spec(
        state: (),
        definition: DefinitionStatementView,
        variable_names: Seq<VariableNameView>,
        type_: Option<TypeView>,
        value: ExpressionView,
        in_circuit: bool,
    ) -> ((), Result<DefinitionStatementView, CanonicalizeError>) {
        (state, Ok(rebuilt_definition(definition, variable_names, type_, value)))
    }

    fn reduce_definition(
        &mut self,
        definition: &DefinitionStatement,
        variable_names: Vec<VariableName>,
        type_: Option<Type>,
        value: Expression,
        in_circuit: bool,
    ) -> (r: Result<DefinitionStatement, CanonicalizeError>) {
        Ok(rebuild_definition(definition, variable_names, type_, value))
    }

    open spec fn reduce_assignee_access_spec(
        state: (),
        access: AssigneeAccessView,
        new: AssigneeAccessView,
        in_circuit: bool,
    ) -> ((), Result<AssigneeAccessView, CanonicalizeError>) {
        (state, Ok(new))
    }

    fn reduce_assignee_access(
        &mut self,
        access: &AssigneeAccess,
        new: AssigneeAccess,
        in_circuit: bool,
    ) -> (r: Result<AssigneeAccess, CanonicalizeError>) {
        Ok(new)
    }

    open spec fn reduce_assignee_spec(
        state: (),
        assignee: AssigneeView,
        identifier: IdentifierView,
        accesses: Seq<AssigneeAccessView>,
        in_circuit: bool,
    ) -> ((), Result<AssigneeView, CanonicalizeError>) {
        (state, Ok(rebuilt_assignee(assignee, identifier, accesses)))
    }

    fn reduce_assignee(
        &mut self,
        assignee: &Assignee,
        identifier: Identifier,
        accesses: Vec<AssigneeAccess>,
        in_circuit: bool,
    ) -> (r: Result<Assignee, CanonicalizeError>) {
        Ok(rebuild_assignee(assignee, identifier, accesses))
    }

    open spec fn reduce_assign_spec(
        state: (),
        assign: AssignStatementView,
        assignee: AssigneeView,
        value: ExpressionView,
        in_circuit: bool,
    ) -> ((), Result<AssignStatementView, CanonicalizeError>) {
        (state, Ok(rebuilt_assign(assign, assignee, value)))
    }

    fn reduce_assign(
        &mut self,
        assign: &AssignStatement,
        assignee: Assignee,
        value: Expression,
        in_circuit: bool,
    ) -> (r: Result<AssignStatement, CanonicalizeError>) {
        Ok(rebuild_assign(assign, assignee, value))
    }

    open spec fn reduce_conditional_spec(
        state: (),
        conditional: ConditionalStatementView,
        condition: ExpressionView,
        block: BlockView,
        next: Option<StatementView>,
        in_circuit: bool,
    ) -> ((), Result<ConditionalStatementView, CanonicalizeError>) {
        (state, Ok(rebuilt_conditional(conditional, condition, block, next)))
    }

    fn reduce_conditional(
        &mut self,
        conditional: &ConditionalStatement,
        condition: Expression,
        block: Block,
        next: Option<Statement>,
        in_circuit: bool,
    ) -> (r: Result<ConditionalStatement, CanonicalizeError>) {
        Ok(rebuild_conditional(conditional, condition, block, next))
    }

    open spec fn reduce_iteration_spec(
        state: (),
        iteration: IterationStatementView,
        variable: IdentifierView,
        start: ExpressionView,
        stop: ExpressionView,
        block: BlockView,
        in_circuit: bool,
    ) -> ((), Result<IterationStatementView, CanonicalizeError>) {
        (state, Ok(rebuilt_iteration(iteration, variable, start, stop, block)))
    }

    fn reduce_iteration(
        &mut self,
        iteration: &IterationStatement,
        variable: Identifier,
        start: Expression,
        stop: Expression,
        block: Block,
        in_circuit: bool,
    ) -> (r: Result<IterationStatement, CanonicalizeError>) {
        Ok(rebuild_iteration(iteration, variable, start, stop, block))
    }

    open spec fn reduce_console_spec(
        state: (),
        console_function_call: ConsoleStatementView,
        function: ConsoleFunctionView,
        in_circuit: bool,
    ) -> ((), Result<ConsoleStatementView, CanonicalizeError>) {
        (state, Ok(rebuilt_console(console_function_call, function)))
    }

    fn reduce_console(
        &mut self,
        console_function_call: &ConsoleStatement,
        function: ConsoleFunction,
        in_circuit: bool,
    ) -> (r: Result<ConsoleStatement, CanonicalizeError>) {
        Ok(rebuild_console(console_function_call, function))
    }

    open spec fn reduce_expression_statement_spec(
        state: (),
        expression_statement: ExpressionStatementView,
        expression: ExpressionView,
        in_circuit: bool,
    ) -> ((), Result<ExpressionStatementView, CanonicalizeError>) {
        (state, Ok(rebuilt_expression_statement(expression_statement, expression)))
    }

    fn reduce_expression_statement(
        &mut self,
        expression_statement: &ExpressionStatement,
        expression: Expression,
        in_circuit: bool,
    ) -> (r: Result<ExpressionStatement, CanonicalizeError>) {
        Ok(rebuild_expression_statement(expression_statement, expression))
    }

    open spec fn reduce_block_spec(
        state: (),
        block: BlockView,
        statements: Seq<StatementView>,
        in_circuit: bool,
    ) -> ((), Result<BlockView, CanonicalizeError>) {
        (state, Ok(rebuilt_block(block, statements)))
    }

    fn reduce_block(
        &mut self,
        block: &Block,
        statements: Vec<Statement>,
        in_circuit: bool,
    ) -> (r: Result<Block, CanonicalizeError>) {
        Ok(rebuild_block(block, statements))
    }

    open spec fn reduce_program_spec(
        state: (),
        program: ProgramView,
        expected_input: Seq<FunctionInputView>,
        imports: Seq<ImportStatementView>,
        circuits: Seq<(IdentifierView, CircuitView)>,
        functions: Seq<(IdentifierView, FunctionView)>,
    ) -> ((), Result<ProgramView, CanonicalizeError>) {
        (state, Ok(rebuilt_program(program, expected_input, imports, circuits, functions)))
    }

    fn reduce_program(
        &mut self,
        program: &Program,
        expected_input: Vec<FunctionInput>,
        imports: Vec<ImportStatement>,
        circuits: IndexMap<Identifier, Circuit>,
        functions: IndexMap<Identifier, Function>,
    ) -> (r: Result<Program, CanonicalizeError>) {
        Ok(rebuild_program(program, expected_input, imports, circuits, functions))
    }

    open spec fn reduce_function_input_variable_spec(
        state: (),
        variable: FunctionInputVariableView,
        identifier: IdentifierView,
        type_: TypeView,
        in_circuit: bool,
    ) -> ((), Result<FunctionInputVariableView, CanonicalizeError>) {
        (state, Ok(rebuilt_function_input_variable(variable, identifier, type_)))
    }

    fn reduce_function_input_variable(
        &mut self,
        variable: &FunctionInputVariable,
        identifier: Identifier,
        type_: Type,
        in_circuit: bool,
    ) -> (r: Result<FunctionInputVariable, CanonicalizeError>) {
        Ok(rebuild_function_input_variable(variable, identifier, type_))
    }

    open spec fn reduce_function_input_spec(
        state: (),
        input: FunctionInputView,
        new: FunctionInputView,
        in_circuit: bool,
    ) -> ((), Result<FunctionInputView, CanonicalizeError>) {
        (state, Ok(new))
    }

    fn reduce_function_input(
        &mut self,
        input: &FunctionInput,
        new: FunctionInput,
        in_circuit: bool,
    ) -> (r: Result<FunctionInput, CanonicalizeError>) {
        Ok(new)
    }

    open spec fn reduce_package_or_packages_spec(
        state: (),
        package_or_packages: PackageOrPackagesView,
        new: PackageOrPackagesView,
    ) -> ((), Result<PackageOrPackagesView, CanonicalizeError>) {
        (state, Ok(new))
    }

    fn reduce_package_or_packages(
        &mut self,
        package_or_packages: &PackageOrPackages,
        new: PackageOrPackages,
    ) -> (r: Result<PackageOrPackages, CanonicalizeError>) {
        Ok(new)
    }

    open spec fn reduce_import_spec(
        state: (),
        import: ImportStatementView,
        package_or_packages: PackageOrPackagesView,
    ) -> ((), Result<ImportStatementView, CanonicalizeError>) {
        (state, Ok(rebuilt_import(import, package_or_packages)))
    }

    fn reduce_import(
        &mut self,
        import: &ImportStatement,
        package_or_packages: PackageOrPackages,
    ) -> (r: Result<ImportStatement, CanonicalizeError>) {
        Ok(rebuild_import(import, package_or_packages))
    }

    open spec fn reduce_circuit_member_spec(
        state: (),
        circuit_member: CircuitMemberView,
        new: CircuitMemberView,
    ) -> ((), Result<CircuitMemberView, CanonicalizeError>) {
        (state, Ok(new))
    }

    fn reduce_circuit_member(
        &mut self,
        circuit_member: &CircuitMember,
        new: CircuitMember,
    ) -> (r: Result<CircuitMember, CanonicalizeError>) {
        Ok(new)
    }

    open spec fn reduce_circuit_spec(
        state: (),
        circuit: CircuitView,
        circuit_name: IdentifierView,
        members: Seq<CircuitMemberView>,
    ) -> ((), Result<CircuitView, CanonicalizeError>) {
        (state, Ok(rebuilt_circuit(circuit, circuit_name, members)))
    }

    fn reduce_circuit(
        &mut self,
        circuit: &Circuit,
        circuit_name: Identifier,
        members: Vec<CircuitMember>,
    ) -> (r: Result<Circuit, CanonicalizeError>) {
        Ok(rebuild_circuit(circuit, circuit_name, members))
    }

    open spec fn reduce_annotation_spec(
        state: (),
        annotation: AnnotationView,
        name: IdentifierView,
    ) -> ((), Result<AnnotationView, CanonicalizeError>) {
        (state, Ok(rebuilt_annotation(annotation, name)))
    }

    fn reduce_annotation(
        &mut self,
        annotation: &Annotation,
        name: Identifier,
    ) -> (r: Result<Annotation, CanonicalizeError>) {
        Ok(rebuild_annotation(annotation, name))
    }

    open spec fn reduce_function_spec(
        state: (),
        function: FunctionView,
        identifier: IdentifierView,
        annotations: Seq<AnnotationView>,
        input: Seq<FunctionInputView>,
        output: Option<TypeView>,
        block: BlockView,
        in_circuit: bool,
    ) -> ((), Result<FunctionView, CanonicalizeError>) {
        (state, Ok(rebuilt_function(function, identifier, annotations, input, output, block)))
    }

    fn reduce_function(
        &mut self,
        function: &Function,
        identifier: Identifier,
        annotations: Vec<Annotation>,
        input: Vec<FunctionInput>,
        output: Option<Type>,
        block: Block,
        in_circuit: bool,
    ) -> (r: Result<Function, CanonicalizeError>) {
        Ok(rebuild_function(function, identifier, annotations, input, output, block))
    }
}

/// The reducer that rewrites nothing gives back a type as it was given.
pub proof fn lemma_unchanged_type(d: DirectorView<()>, type_: TypeView, span: Span)
    ensures
        walk_type::<TypeInferenceCombiner>(d, type_, span) ==
            (d, Ok::<TypeView, CanonicalizeError>(type_)),
    decreases type_,
{
    match type_ {
        TypeView::Array(f0, f1) => {
            lemma_unchanged_type(d, *f0, span);
        },
        TypeView::Tuple(f0) => {
            lemma_unchanged_types(d, f0, span);
        },
        TypeView::Circuit(f0) => {
            lemma_unchanged_identifier(d, f0);
        },
        _ => {},
    }
}

/// The reducer that rewrites nothing gives back an expression as it was given.
pub proof fn lemma_unchanged_expression(d: DirectorView<()>, expression: ExpressionView)
    ensures
        walk_expression::<TypeInferenceCombiner>(d, expression) ==
            (d, Ok::<ExpressionView, CanonicalizeError>(expression)),
    decreases expression,
{
    match expression {
        ExpressionView::Identifier(f0) => {
            lemma_unchanged_identifier(d, f0);
        },
        ExpressionView::Value(f0) => {
            lemma_unchanged_value(d, f0);
        },
        ExpressionView::Binary(f0) => {
            lemma_unchanged_binary(d, f0);
        },
        ExpressionView::Unary(f0) => {
            lemma_unchanged_unary(d, f0);
        },
        ExpressionView::Ternary(f0) => {
            lemma_unchanged_ternary(d, f0);
        },
        ExpressionView::Cast(f0) => {
            lemma_unchanged_cast(d, f0);
        },
        ExpressionView::ArrayInline(f0) => {
            lemma_unchanged_array_inline(d, f0);
        },
        ExpressionView::ArrayInit(f0) => {
            lemma_unchanged_array_init(d, f0);
        },
        ExpressionView::ArrayAccess(f0) => {
            lemma_unchanged_array_access(d, f0);
        },
        ExpressionView::ArrayRangeAccess(f0) => {
            lemma_unchanged_array_range_access(d, f0);
        },
        ExpressionView::TupleInit(f0) => {
            lemma_unchanged_tuple_init(d, f0);
        },
        ExpressionView::TupleAccess(f0) => {
            lemma_unchanged_tuple_access(d, f0);
        },
        ExpressionView::CircuitInit(f0) => {
            lemma_unchanged_circuit_init(d, f0);
        },
        ExpressionView::CircuitMemberAccess(f0) => {
            lemma_unchanged_circuit_member_access(d, f0);
        },
        ExpressionView::CircuitStaticFunctionAccess(f0) => {
            lemma_unchanged_circuit_static_fn_access(d, f0);
        },
        ExpressionView::Call(f0) => {
            lemma_unchanged_call(d, f0);
        },
    }
}

/// The reducer that rewrites nothing gives back an identifier as it was given.
pub proof fn lemma_unchanged_identifier(d: DirectorView<()>, identifier: IdentifierView)
    ensures
        walk_identifier::<TypeInferenceCombiner>(d, identifier) ==
            (d, Ok::<IdentifierView, CanonicalizeError>(identifier)),
    decreases identifier,
{
}

/// The reducer that rewrites nothing gives back a group tuple as it was given.
pub proof fn lemma_unchanged_group_tuple(d: DirectorView<()>, group_tuple: GroupTupleView)
    ensures
        walk_group_tuple::<TypeInferenceCombiner>(d, group_tuple) ==
            (d, Ok::<GroupTupleView, CanonicalizeError>(group_tuple)),
    decreases group_tuple,
{
}

/// The reducer that rewrites nothing gives back a group value as it was given.
pub proof fn lemma_unchanged_group_value(d: DirectorView<()>, group_value: GroupValueView)
    ensures
        walk_group_value::<TypeInferenceCombiner>(d, group_value) ==
            (d, Ok::<GroupValueView, CanonicalizeError>(group_value)),
    decreases group_value,
{
    match group_value {
        GroupValueView::Tuple(f0) => {
            lemma_unchanged_group_tuple(d, f0);
        },
        _ => {},
    }
}

/// The reducer that rewrites nothing gives back a literal value as it was given.
pub proof fn lemma_unchanged_value(d: DirectorView<()>, value: ValueExpressionView)
    ensures
        walk_value::<TypeInferenceCombiner>(d, value) ==
            (d, Ok::<ValueExpressionView, CanonicalizeError>(value)),
    decreases value,
{
    match value {
        ValueExpressionView::Group(f0) => {
            lemma_unchanged_group_value(d, *f0);
        },
        _ => {},
    }
}

/// The reducer that rewrites nothing gives back a binary expression as it was given.
pub proof fn lemma_unchanged_binary(d: DirectorView<()>, binary: BinaryExpressionView)
    ensures
        walk_binary::<TypeInferenceCombiner>(d, binary) ==
            (d, Ok::<BinaryExpressionView, CanonicalizeError>(binary)),
    decreases binary,
{
    lemma_unchanged_expression(d, *binary.left);
    lemma_unchanged_expression(d, *binary.right);
}

/// The reducer that rewrites nothing gives back a unary expression as it was given.
pub proof fn lemma_unchanged_unary(d: DirectorView<()>, unary: UnaryExpressionView)
    ensures
        walk_unary::<TypeInferenceCombiner>(d, unary) ==
            (d, Ok::<UnaryExpressionView, CanonicalizeError>(unary)),
    decreases unary,
{
    lemma_unchanged_expression(d, *unary.inner);
}

/// The reducer that rewrites nothing gives back a ternary expression as it was given.
pub proof fn lemma_unchanged_ternary(d: DirectorView<()>, ternary: TernaryExpressionView)
    ensures
        walk_ternary::<TypeInferenceCombiner>(d, ternary) ==
            (d, Ok::<TernaryExpressionView, CanonicalizeError>(ternary)),
    decreases ternary,
{
    lemma_unchanged_expression(d, *ternary.condition);
    lemma_unchanged_expression(d, *ternary.if_true);
    lemma_unchanged_expression(d, *ternary.if_false);
}

/// The reducer that rewrites nothing gives back a cast as it was given.
pub proof fn lemma_unchanged_cast(d: DirectorView<()>, cast: CastExpressionView)
    ensures
        walk_cast::<TypeInferenceCombiner>(d, cast) ==
            (d, Ok::<CastExpressionView, CanonicalizeError>(cast)),
    decreases cast,
{
    lemma_unchanged_expression(d, *cast.inner);
    lemma_unchanged_type(d, cast.target_type, cast.span);
}

/// The reducer that rewrites nothing gives back an element of an inline array as it was given.
pub proof fn lemma_unchanged_spread_or_expression(
    d: DirectorView<()>,
    element: SpreadOrExpressionView,
)
    ensures
        walk_spread_or_expression::<TypeInferenceCombiner>(d, element) ==
            (d, Ok::<SpreadOrExpressionView, CanonicalizeError>(element)),
    decreases element,
{
    match element {
        SpreadOrExpressionView::Spread(f0) => {
            lemma_unchanged_expression(d, f0);
        },
        SpreadOrExpressionView::Expression(f0) => {
            lemma_unchanged_expression(d, f0);
        },
    }
}

/// The reducer that rewrites nothing gives back an inline array as it was given.
pub proof fn lemma_unchanged_array_inline(
    d: DirectorView<()>,
    array_inline: ArrayInlineExpressionView,
)
    ensures
        walk_array_inline::<TypeInferenceCombiner>(d, array_inline) ==
            (d, Ok::<ArrayInlineExpressionView, CanonicalizeError>(array_inline)),
    decreases array_inline,
{
    lemma_unchanged_spread_or_expressions(d, array_inline.elements);
}

/// The reducer that rewrites nothing gives back an array initialiser as it was given.
pub proof fn lemma_unchanged_array_init(d: DirectorView<()>, array_init: ArrayInitExpressionView)
    ensures
        walk_array_init::<TypeInferenceCombiner>(d, array_init) ==
            (d, Ok::<ArrayInitExpressionView, CanonicalizeError>(array_init)),
    decreases array_init,
{
    lemma_unchanged_expression(d, *array_init.element);
}

/// The reducer that rewrites nothing gives back an array access as it was given.
pub proof fn lemma_unchanged_array_access(
    d: DirectorView<()>,
    array_access: ArrayAccessExpressionView,
)
    ensures
        walk_array_access::<TypeInferenceCombiner>(d, array_access) ==
            (d, Ok::<ArrayAccessExpressionView, CanonicalizeError>(array_access)),
    decreases array_access,
{
    lemma_unchanged_expression(d, *array_access.array);
    lemma_unchanged_expression(d, *array_access.index);
}

/// The reducer that rewrites nothing gives back an array range access as it was given.
pub proof fn lemma_unchanged_array_range_access(
    d: DirectorView<()>,
    array_range_access: ArrayRangeAccessExpressionView,
)
    ensures
        walk_array_range_access::<TypeInferenceCombiner>(d, array_range_access) ==
            (d, Ok::<ArrayRangeAccessExpressionView, CanonicalizeError>(array_range_access)),
    decreases array_range_access,
{
    lemma_unchanged_expression(d, *array_range_access.array);
    match array_range_access.left {
        Some(v) => {
            lemma_unchanged_expression(d, *v);
        },
        None => {},
    }
    match array_range_access.right {
        Some(v) => {
            lemma_unchanged_expression(d, *v);
        },
        None => {},
    }
}

/// The reducer that rewrites nothing gives back a tuple initialiser as it was given.
pub proof fn lemma_unchanged_tuple_init(d: DirectorView<()>, tuple_init: TupleInitExpressionView)
    ensures
        walk_tuple_init::<TypeInferenceCombiner>(d, tuple_init) ==
            (d, Ok::<TupleInitExpressionView, CanonicalizeError>(tuple_init)),
    decreases tuple_init,
{
    lemma_unchanged_expressions(d, tuple_init.elements);
}

/// The reducer that rewrites nothing gives back a tuple access as it was given.
pub proof fn lemma_unchanged_tuple_access(
    d: DirectorView<()>,
    tuple_access: TupleAccessExpressionView,
)
    ensures
        walk_tuple_access::<TypeInferenceCombiner>(d, tuple_access) ==
            (d, Ok::<TupleAccessExpressionView, CanonicalizeError>(tuple_access)),
    decreases tuple_access,
{
    lemma_unchanged_expression(d, *tuple_access.tuple);
}

/// The reducer that rewrites nothing gives back a member of a circuit initialiser as it was given.
pub proof fn lemma_unchanged_circuit_implied_variable_definition(
    d: DirectorView<()>,
    variable: CircuitImpliedVariableDefinitionView,
)
    ensures
        walk_circuit_implied_variable_definition::<TypeInferenceCombiner>(d, variable) ==
            (d, Ok::<CircuitImpliedVariableDefinitionView, CanonicalizeError>(variable)),
    decreases variable,
{
    lemma_unchanged_identifier(d, variable.identifier);
    match variable.expression {
        Some(v) => {
            lemma_unchanged_expression(d, v);
        },
        None => {},
    }
}

/// The reducer that rewrites nothing gives back a circuit initialiser as it was given.
pub proof fn lemma_unchanged_circuit_init(
    d: DirectorView<()>,
    circuit_init: CircuitInitExpressionView,
)
    ensures
        walk_circuit_init::<TypeInferenceCombiner>(d, circuit_init) ==
            (d, Ok::<CircuitInitExpressionView, CanonicalizeError>(circuit_init)),
    decreases circuit_init,
{
    lemma_unchanged_identifier(d, circuit_init.name);
    lemma_unchanged_circuit_implied_variable_definitions(d, circuit_init.members);
}

/// The reducer that rewrites nothing gives back a circuit member access as it was given.
pub proof fn lemma_unchanged_circuit_member_access(
    d: DirectorView<()>,
    circuit_member_access: CircuitMemberAccessExpressionView,
)
    ensures
        walk_circuit_member_access::<TypeInferenceCombiner>(d, circuit_member_access) ==
            (d, Ok::<CircuitMemberAccessExpressionView, CanonicalizeError>(circuit_member_access)),
    decreases circuit_member_access,
{
    lemma_unchanged_expression(d, *circuit_member_access.circuit);
    lemma_unchanged_identifier(d, circuit_member_access.name);
}

/// The reducer that rewrites nothing gives back a static function access as it was given.
pub proof fn lemma_unchanged_circuit_static_fn_access(
    d: DirectorView<()>,
    circuit_static_fn_access: CircuitStaticFunctionAccessExpressionView,
)
    ensures
        walk_circuit_static_fn_access::<TypeInferenceCombiner>(d, circuit_static_fn_access) ==
            (d, Ok::<CircuitStaticFunctionAccessExpressionView, CanonicalizeError>(circuit_static_fn_access)),
    decreases circuit_static_fn_access,
{
    lemma_unchanged_expression(d, *circuit_static_fn_access.circuit);
    lemma_unchanged_identifier(d, circuit_static_fn_access.name);
}

/// The reducer that rewrites nothing gives back a call as it was given.
pub proof fn lemma_unchanged_call(d: DirectorView<()>, call: CallExpressionView)
    ensures
        walk_call::<TypeInferenceCombiner>(d, call) ==
            (d, Ok::<CallExpressionView, CanonicalizeError>(call)),
    decreases call,
{
    lemma_unchanged_expression(d, *call.function);
    lemma_unchanged_expressions(d, call.arguments);
}

/// The reducer that rewrites nothing gives back a statement as it was given.
pub proof fn lemma_unchanged_statement(d: DirectorView<()>, statement: StatementView)
    ensures
        walk_statement::<TypeInferenceCombiner>(d, statement) ==
            (d, Ok::<StatementView, CanonicalizeError>(statement)),
    decreases statement,
{
    match statement {
        StatementView::Return(f0) => {
            lemma_unchanged_return(d, f0);
        },
        StatementView::Definition(f0) => {
            lemma_unchanged_definition(d, f0);
        },
        StatementView::Assign(f0) => {
            lemma_unchanged_assign(d, f0);
        },
        StatementView::Conditional(f0) => {
            lemma_unchanged_conditional(d, f0);
        },
        StatementView::Iteration(f0) => {
            lemma_unchanged_iteration(d, f0);
        },
        StatementView::Console(f0) => {
            lemma_unchanged_console(d, f0);
        },
        StatementView::Expression(f0) => {
            lemma_unchanged_expression_statement(d, f0);
        },
        StatementView::Block(f0) => {
            lemma_unchanged_block(d, f0);
        },
    }
}

/// The reducer that rewrites nothing gives back a return as it was given.
pub proof fn lemma_unchanged_return(d: DirectorView<()>, return_statement: ReturnStatementView)
    ensures
        walk_return::<TypeInferenceCombiner>(d, return_statement) ==
            (d, Ok::<ReturnStatementView, CanonicalizeError>(return_statement)),
    decreases return_statement,
{
    lemma_unchanged_expression(d, return_statement.expression);
}

/// The reducer that rewrites nothing gives back a variable name as it was given.
pub proof fn lemma_unchanged_variable_name(d: DirectorView<()>, variable_name: VariableNameView)
    ensures
        walk_variable_name::<TypeInferenceCombiner>(d, variable_name) ==
            (d, Ok::<VariableNameView, CanonicalizeError>(variable_name)),
    decreases variable_name,
{
    lemma_unchanged_identifier(d, variable_name.identifier);
}

/// The reducer that rewrites nothing gives back a definition as it was given.
pub proof fn lemma_unchanged_definition(d: DirectorView<()>, definition: DefinitionStatementView)
    ensures
        walk_definition::<TypeInferenceCombiner>(d, definition) ==
            (d, Ok::<DefinitionStatementView, CanonicalizeError>(definition)),
    decreases definition,
{
    lemma_unchanged_variable_names(d, definition.variable_names);
    match definition.type_ {
        Some(v) => {
            lemma_unchanged_type(d, v, definition.span);
        },
        None => {},
    }
    lemma_unchanged_expression(d, definition.value);
}

/// The reducer that rewrites nothing gives back an assignee access as it was given.
pub proof fn lemma_unchanged_assignee_access(d: DirectorView<()>, access: AssigneeAccessView)
    ensures
        walk_assignee_access::<TypeInferenceCombiner>(d, access) ==
            (d, Ok::<AssigneeAccessView, CanonicalizeError>(access)),
    decreases access,
{
    match access {
        AssigneeAccessView::ArrayRange(f0, f1) => {
            match f0 {
                Some(v) => {
                    lemma_unchanged_expression(d, v);
                },
                None => {},
            }
            match f1 {
                Some(v) => {
                    lemma_unchanged_expression(d, v);
                },
                None => {},
            }
        },
        AssigneeAccessView::ArrayIndex(f0) => {
            lemma_unchanged_expression(d, f0);
        },
        AssigneeAccessView::Member(f0) => {
            lemma_unchanged_identifier(d, f0);
        },
        _ => {},
    }
}

/// The reducer that rewrites nothing gives back an assignee as it was given.
pub proof fn lemma_unchanged_assignee(d: DirectorView<()>, assignee: AssigneeView)
    ensures
        walk_assignee::<TypeInferenceCombiner>(d, assignee) ==
            (d, Ok::<AssigneeView, CanonicalizeError>(assignee)),
    decreases assignee,
{
    lemma_unchanged_identifier(d, assignee.identifier);
    lemma_unchanged_assignee_accesses(d, assignee.accesses);
}

/// The reducer that rewrites nothing gives back an assignment as it was given.
pub proof fn lemma_unchanged_assign(d: DirectorView<()>, assign: AssignStatementView)
    ensures
        walk_assign::<TypeInferenceCombiner>(d, assign) ==
            (d, Ok::<AssignStatementView, CanonicalizeError>(assign)),
    decreases assign,
{
    lemma_unchanged_assignee(d, assign.assignee);
    lemma_unchanged_expression(d, assign.value);
}

/// The reducer that rewrites nothing gives back a conditional as it was given.
pub proof fn lemma_unchanged_conditional(d: DirectorView<()>, conditional: ConditionalStatementView)
    ensures
        walk_conditional::<TypeInferenceCombiner>(d, conditional) ==
            (d, Ok::<ConditionalStatementView, CanonicalizeError>(conditional)),
    decreases conditional,
{
    lemma_unchanged_expression(d, conditional.condition);
    lemma_unchanged_block(d, conditional.block);
    match conditional.next {
        Some(v) => {
            lemma_unchanged_statement(d, *v);
        },
        None => {},
    }
}

/// The reducer that rewrites nothing gives back a loop as it was given.
pub proof fn lemma_unchanged_iteration(d: DirectorView<()>, iteration: IterationStatementView)
    ensures
        walk_iteration::<TypeInferenceCombiner>(d, iteration) ==
            (d, Ok::<IterationStatementView, CanonicalizeError>(iteration)),
    decreases iteration,
{
    lemma_unchanged_identifier(d, iteration.variable);
    lemma_unchanged_expression(d, iteration.start);
    lemma_unchanged_expression(d, iteration.stop);
    lemma_unchanged_block(d, iteration.block);
}

/// The reducer that rewrites nothing gives back a console statement as it was given.
pub proof fn lemma_unchanged_console(
    d: DirectorView<()>,
    console_function_call: ConsoleStatementView,
)
    ensures
        walk_console::<TypeInferenceCombiner>(d, console_function_call) ==
            (d, Ok::<ConsoleStatementView, CanonicalizeError>(console_function_call)),
    decreases console_function_call,
{
    match console_function_call.function {
        ConsoleFunctionView::Assert(f0) => {
            lemma_unchanged_expression(d, f0);
        },
        ConsoleFunctionView::Debug(f0) => {
            lemma_unchanged_expressions(d, f0.parameters);
        },
        ConsoleFunctionView::Error(f0) => {
            lemma_unchanged_expressions(d, f0.parameters);
        },
        ConsoleFunctionView::Log(f0) => {
            lemma_unchanged_expressions(d, f0.parameters);
        },
    }
}

/// The reducer that rewrites nothing gives back an expression statement as it was given.
pub proof fn lemma_unchanged_expression_statement(
    d: DirectorView<()>,
    expression_statement: ExpressionStatementView,
)
    ensures
        walk_expression_statement::<TypeInferenceCombiner>(d, expression_statement) ==
            (d, Ok::<ExpressionStatementView, CanonicalizeError>(expression_statement)),
    decreases expression_statement,
{
    lemma_unchanged_expression(d, expression_statement.expression);
}

/// The reducer that rewrites nothing gives back a block as it was given.
pub proof fn lemma_unchanged_block(d: DirectorView<()>, block: BlockView)
    ensures
        walk_block::<TypeInferenceCombiner>(d, block) ==
            (d, Ok::<BlockView, CanonicalizeError>(block)),
    decreases block,
{
    lemma_unchanged_statements(d, block.statements);
}

/// The reducer that rewrites nothing gives back an input variable of a function as it was given.
pub proof fn lemma_unchanged_function_input_variable(
    d: DirectorView<()>,
    variable: FunctionInputVariableView,
)
    ensures
        walk_function_input_variable::<TypeInferenceCombiner>(d, variable) ==
            (d, Ok::<FunctionInputVariableView, CanonicalizeError>(variable)),
    decreases variable,
{
    lemma_unchanged_identifier(d, variable.identifier);
    lemma_unchanged_type(d, variable.type_, variable.span);
}

/// The reducer that rewrites nothing gives back an input of a function as it was given.
pub proof fn lemma_unchanged_function_input(d: DirectorView<()>, input: FunctionInputView)
    ensures
        walk_function_input::<TypeInferenceCombiner>(d, input) ==
            (d, Ok::<FunctionInputView, CanonicalizeError>(input)),
    decreases input,
{
    match input {
        FunctionInputView::Variable(f0) => {
            lemma_unchanged_function_input_variable(d, f0);
        },
        _ => {},
    }
}

/// The reducer that rewrites nothing gives back the package of an import as it was given.
pub proof fn lemma_unchanged_package_or_packages(
    d: DirectorView<()>,
    package_or_packages: PackageOrPackagesView,
)
    ensures
        walk_package_or_packages::<TypeInferenceCombiner>(d, package_or_packages) ==
            (d, Ok::<PackageOrPackagesView, CanonicalizeError>(package_or_packages)),
    decreases package_or_packages,
{
    match package_or_packages {
        PackageOrPackagesView::Package(f0) => {
            lemma_unchanged_identifier(d, f0.name);
        },
        PackageOrPackagesView::Packages(f0) => {
            lemma_unchanged_identifier(d, f0.name);
        },
    }
}

/// The reducer that rewrites nothing gives back an import as it was given.
pub proof fn lemma_unchanged_import(d: DirectorView<()>, import: ImportStatementView)
    ensures
        walk_import::<TypeInferenceCombiner>(d, import) ==
            (d, Ok::<ImportStatementView, CanonicalizeError>(import)),
    decreases import,
{
    lemma_unchanged_package_or_packages(d, import.package_or_packages);
}

/// The reducer that rewrites nothing gives back a member of a circuit as it was given.
pub proof fn lemma_unchanged_circuit_member(d: DirectorView<()>, circuit_member: CircuitMemberView)
    ensures
        walk_circuit_member::<TypeInferenceCombiner>(d, circuit_member) ==
            (d, Ok::<CircuitMemberView, CanonicalizeError>(circuit_member)),
    decreases circuit_member,
{
    let d = DirectorView { reducer: d.reducer, in_circuit: !d.in_circuit };
    match circuit_member {
        CircuitMemberView::CircuitVariable(f0, f1) => {
            lemma_unchanged_identifier(d, f0);
            lemma_unchanged_type(d, f1, f0.span);
        },
        CircuitMemberView::CircuitFunction(f0) => {
            lemma_unchanged_function(d, f0);
        },
    }
}

/// The reducer that rewrites nothing gives back a circuit as it was given.
pub proof fn lemma_unchanged_circuit(d: DirectorView<()>, circuit: CircuitView)
    ensures
        walk_circuit::<TypeInferenceCombiner>(d, circuit) ==
            (d, Ok::<CircuitView, CanonicalizeError>(circuit)),
    decreases circuit,
{
    lemma_unchanged_identifier(d, circuit.circuit_name);
    lemma_unchanged_circuit_members(d, circuit.members);
}

/// The reducer that rewrites nothing gives back an annotation as it was given.
pub proof fn lemma_unchanged_annotation(d: DirectorView<()>, annotation: AnnotationView)
    ensures
        walk_annotation::<TypeInferenceCombiner>(d, annotation) ==
            (d, Ok::<AnnotationView, CanonicalizeError>(annotation)),
    decreases annotation,
{
    lemma_unchanged_identifier(d, annotation.name);
}

/// The reducer that rewrites nothing gives back a function as it was given.
pub proof fn lemma_unchanged_function(d: DirectorView<()>, function: FunctionView)
    ensures
        walk_function::<TypeInferenceCombiner>(d, function) ==
            (d, Ok::<FunctionView, CanonicalizeError>(function)),
    decreases function,
{
    lemma_unchanged_identifier(d, function.identifier);
    lemma_unchanged_annotations(d, function.annotations);
    lemma_unchanged_function_inputs(d, function.input);
    match function.output {
        Some(v) => {
            lemma_unchanged_type(d, v, function.span);
        },
        None => {},
    }
    lemma_unchanged_block(d, function.block);
}

/// The reducer that rewrites nothing gives back a list as it was given.
pub proof fn lemma_unchanged_types(d: DirectorView<()>, items: Seq<TypeView>, span: Span)
    ensures
        walk_types::<TypeInferenceCombiner>(d, items, span) ==
            (d, Ok::<Seq<TypeView>, CanonicalizeError>(items)),
    decreases items,
{
    if items.len() > 0 {
        lemma_unchanged_types(d, items.drop_last(), span);
        lemma_unchanged_type(d, items.last(), span);
        assert(items.drop_last().push(items.last()) =~= items);
    } else {
        assert(items =~= Seq::<TypeView>::empty());
    }
}

/// The reducer that rewrites nothing gives back a list as it was given.
pub proof fn lemma_unchanged_spread_or_expressions(
    d: DirectorView<()>,
    items: Seq<SpreadOrExpressionView>,
)
    ensures
        walk_spread_or_expressions::<TypeInferenceCombiner>(d, items) ==
            (d, Ok::<Seq<SpreadOrExpressionView>, CanonicalizeError>(items)),
    decreases items,
{
    if items.len() > 0 {
        lemma_unchanged_spread_or_expressions(d, items.drop_last());
        lemma_unchanged_spread_or_expression(d, items.last());
        assert(items.drop_last().push(items.last()) =~= items);
    } else {
        assert(items =~= Seq::<SpreadOrExpressionView>::empty());
    }
}

/// The reducer that rewrites nothing gives back a list as it was given.
pub proof fn lemma_unchanged_expressions(d: DirectorView<()>, items: Seq<ExpressionView>)
    ensures
        walk_expressions::<TypeInferenceCombiner>(d, items) ==
            (d, Ok::<Seq<ExpressionView>, CanonicalizeError>(items)),
    decreases items,
{
    if items.len() > 0 {
        lemma_unchanged_expressions(d, items.drop_last());
        lemma_unchanged_expression(d, items.last());
        assert(items.drop_last().push(items.last()) =~= items);
    } else {
        assert(items =~= Seq::<ExpressionView>::empty());
    }
}

/// The reducer that rewrites nothing gives back a list as it was given.
pub proof fn lemma_unchanged_circuit_implied_variable_definitions(
    d: DirectorView<()>,
    items: Seq<CircuitImpliedVariableDefinitionView>,
)
    ensures
        walk_circuit_implied_variable_definitions::<TypeInferenceCombiner>(d, items) ==
            (d, Ok::<Seq<CircuitImpliedVariableDefinitionView>, CanonicalizeError>(items)),
    decreases items,
{
    if items.len() > 0 {
        lemma_unchanged_circuit_implied_variable_definitions(d, items.drop_last());
        lemma_unchanged_circuit_implied_variable_definition(d, items.last());
        assert(items.drop_last().push(items.last()) =~= items);
    } else {
        assert(items =~= Seq::<CircuitImpliedVariableDefinitionView>::empty());
    }
}

/// The reducer that rewrites nothing gives back a list as it was given.
pub proof fn lemma_unchanged_variable_names(d: DirectorView<()>, items: Seq<VariableNameView>)
    ensures
        walk_variable_names::<TypeInferenceCombiner>(d, items) ==
            (d, Ok::<Seq<VariableNameView>, CanonicalizeError>(items)),
    decreases items,
{
    if items.len() > 0 {
        lemma_unchanged_variable_names(d, items.drop_last());
        lemma_unchanged_variable_name(d, items.last());
        assert(items.drop_last().push(items.last()) =~= items);
    } else {
        assert(items =~= Seq::<VariableNameView>::empty());
    }
}

/// The reducer that rewrites nothing gives back a list as it was given.
pub proof fn lemma_unchanged_assignee_accesses(d: DirectorView<()>, items: Seq<AssigneeAccessView>)
    ensures
        walk_assignee_accesses::<TypeInferenceCombiner>(d, items) ==
            (d, Ok::<Seq<AssigneeAccessView>, CanonicalizeError>(items)),
    decreases items,
{
    if items.len() > 0 {
        lemma_unchanged_assignee_accesses(d, items.drop_last());
        lemma_unchanged_assignee_access(d, items.last());
        assert(items.drop_last().push(items.last()) =~= items);
    } else {
        assert(items =~= Seq::<AssigneeAccessView>::empty());
    }
}

/// The reducer that rewrites nothing gives back a list as it was given.
pub proof fn lemma_unchanged_statements(d: DirectorView<()>, items: Seq<StatementView>)
    ensures
        walk_statements::<TypeInferenceCombiner>(d, items) ==
            (d, Ok::<Seq<StatementView>, CanonicalizeError>(items)),
    decreases items,
{
    if items.len() > 0 {
        lemma_unchanged_statements(d, items.drop_last());
        lemma_unchanged_statement(d, items.last());
        assert(items.drop_last().push(items.last()) =~= items);
    } else {
        assert(items =~= Seq::<StatementView>::empty());
    }
}

/// The reducer that rewrites nothing gives back a list as it was given.
pub proof fn lemma_unchanged_function_inputs(d: DirectorView<()>, items: Seq<FunctionInputView>)
    ensures
        walk_function_inputs::<TypeInferenceCombiner>(d, items) ==
            (d, Ok::<Seq<FunctionInputView>, CanonicalizeError>(items)),
    decreases items,
{
    if items.len() > 0 {
        lemma_unchanged_function_inputs(d, items.drop_last());
        lemma_unchanged_function_input(d, items.last());
        assert(items.drop_last().push(items.last()) =~= items);
    } else {
        assert(items =~= Seq::<FunctionInputView>::empty());
    }
}

/// The reducer that rewrites nothing gives back a list as it was given.
pub proof fn lemma_unchanged_imports(d: DirectorView<()>, items: Seq<ImportStatementView>)
    ensures
        walk_imports::<TypeInferenceCombiner>(d, items) ==
            (d, Ok::<Seq<ImportStatementView>, CanonicalizeError>(items)),
    decreases items,
{
    if items.len() > 0 {
        lemma_unchanged_imports(d, items.drop_last());
        lemma_unchanged_import(d, items.last());
        assert(items.drop_last().push(items.last()) =~= items);
    } else {
        assert(items =~= Seq::<ImportStatementView>::empty());
    }
}

/// The reducer that rewrites nothing gives back a list as it was given.
pub proof fn lemma_unchanged_circuit_members(d: DirectorView<()>, items: Seq<CircuitMemberView>)
    ensures
        walk_circuit_members::<TypeInferenceCombiner>(d, items) ==
            (d, Ok::<Seq<CircuitMemberView>, CanonicalizeError>(items)),
    decreases items,
{
    if items.len() > 0 {
        lemma_unchanged_circuit_members(d, items.drop_last());
        lemma_unchanged_circuit_member(d, items.last());
        assert(items.drop_last().push(items.last()) =~= items);
    } else {
        assert(items =~= Seq::<CircuitMemberView>::empty());
    }
}

/// The reducer that rewrites nothing gives back a list as it was given.
pub proof fn lemma_unchanged_annotations(d: DirectorView<()>, items: Seq<AnnotationView>)
    ensures
        walk_annotations::<TypeInferenceCombiner>(d, items) ==
            (d, Ok::<Seq<AnnotationView>, CanonicalizeError>(items)),
    decreases items,
{
    if items.len() > 0 {
        lemma_unchanged_annotations(d, items.drop_last());
        lemma_unchanged_annotation(d, items.last());
        assert(items.drop_last().push(items.last()) =~= items);
    } else {
        assert(items =~= Seq::<AnnotationView>::empty());
    }
}

/// A key that stands nowhere in the entries has no place in them.
pub proof fn lemma_position_of_new_key<V>(entries: Seq<(IdentifierView, V)>, key: IdentifierView)
    requires
        forall|i: int| 0 <= i < entries.len() ==> (#[trigger] entries[i]).0 != key,
    ensures
        position(entries, key) is None,
    decreases entries.len(),
{
    if entries.len() > 0 {
        assert forall|i: int| 0 <= i < entries.drop_last().len() implies (
        #[trigger] entries.drop_last()[i]).0 != key by {
            assert(entries.drop_last()[i] == entries[i]);
        }
        lemma_position_of_new_key(entries.drop_last(), key);
    }
}

/// The reducer that rewrites nothing gives back a map of circuits as it was
/// given: the same keys in the same order, each with its circuit.
pub proof fn lemma_unchanged_circuit_entries(
    d: DirectorView<()>,
    entries: Seq<(IdentifierView, CircuitView)>,
)
    requires
        distinct_keys(entries),
    ensures
        walk_circuit_entries::<TypeInferenceCombiner>(d, entries) == (
            d,
            Ok::<Seq<(IdentifierView, CircuitView)>, CanonicalizeError>(entries),
        ),
    decreases entries,
{
    if entries.len() > 0 {
        let done = entries.drop_last();
        assert(distinct_keys(done)) by {
            assert forall|i: int, j: int| 0 <= i < j < done.len() implies done[i].0 != done[j].0 by {
                assert(done[i] == entries[i]);
                assert(done[j] == entries[j]);
            }
        }
        lemma_unchanged_circuit_entries(d, done);
        lemma_unchanged_identifier(d, entries.last().0);
        lemma_unchanged_circuit(d, entries.last().1);
        assert forall|i: int| 0 <= i < done.len() implies (#[trigger] done[i]).0
            != entries.last().0 by {
            assert(done[i] == entries[i]);
        }
        lemma_position_of_new_key(done, entries.last().0);
        assert(done.push(entries.last()) =~= entries);
    } else {
        assert(entries =~= Seq::<(IdentifierView, CircuitView)>::empty());
    }
}

/// The reducer that rewrites nothing gives back a map of functions as it was
/// given: the same keys in the same order, each with its function.
pub proof fn lemma_unchanged_function_entries(
    d: DirectorView<()>,
    entries: Seq<(IdentifierView, FunctionView)>,
)
    requires
        distinct_keys(entries),
    ensures
        walk_function_entries::<TypeInferenceCombiner>(d, entries) == (
            d,
            Ok::<Seq<(IdentifierView, FunctionView)>, CanonicalizeError>(entries),
        ),
    decreases entries,
{
    if entries.len() > 0 {
        let done = entries.drop_last();
        assert(distinct_keys(done)) by {
            assert forall|i: int, j: int| 0 <= i < j < done.len() implies done[i].0 != done[j].0 by {
                assert(done[i] == entries[i]);
                assert(done[j] == entries[j]);
            }
        }
        lemma_unchanged_function_entries(d, done);
        lemma_unchanged_identifier(d, entries.last().0);
        lemma_unchanged_function(d, entries.last().1);
        assert forall|i: int| 0 <= i < done.len() implies (#[trigger] done[i]).0
            != entries.last().0 by {
            assert(done[i] == entries[i]);
        }
        lemma_position_of_new_key(done, entries.last().0);
        assert(done.push(entries.last()) =~= entries);
    } else {
        assert(entries =~= Seq::<(IdentifierView, FunctionView)>::empty());
    }
}

/// The reducer that rewrites nothing gives back a program as it was given,
/// with its circuits and its functions in their order.
pub proof fn lemma_unchanged_program(d: DirectorView<()>, program: ProgramView)
    requires
        distinct_keys(program.circuits),
        distinct_keys(program.functions),
    ensures
        walk_program::<TypeInferenceCombiner>(d, program) == (
            d,
            Ok::<ProgramView, CanonicalizeError>(program),
        ),
{
    lemma_unchanged_function_inputs(d, program.expected_input);
    lemma_unchanged_imports(d, program.imports);
    lemma_unchanged_circuit_entries(d, program.circuits);
    lemma_unchanged_function_entries(d, program.functions);
}

} // verus!
