//! The reducer: one hook for each kind of node, called by the director on the
//! node as it stood and on the node rebuilt from its reduced children.
use crate::ast::common::{clone_sizes, clone_strings, Identifier, IdentifierView};
use crate::ast::expression::{ArrayAccessExpression, ArrayAccessExpressionView, ArrayInitExpression, ArrayInitExpressionView, ArrayInlineExpression, ArrayInlineExpressionView, ArrayRangeAccessExpression, ArrayRangeAccessExpressionView, BinaryExpression, BinaryExpressionView, BinaryOperation, CallExpression, CallExpressionView, CastExpression, CastExpressionView, circuit_implied_variable_definition_seq_view, CircuitImpliedVariableDefinition, CircuitImpliedVariableDefinitionView, CircuitInitExpression, CircuitInitExpressionView, CircuitMemberAccessExpression, CircuitMemberAccessExpressionView, CircuitStaticFunctionAccessExpression, CircuitStaticFunctionAccessExpressionView, Expression, expression_seq_view, ExpressionView, GroupTuple, GroupTupleView, GroupValue, GroupValueView, spread_or_expression_seq_view, SpreadOrExpression, SpreadOrExpressionView, TernaryExpression, TernaryExpressionView, TupleAccessExpression, TupleAccessExpressionView, TupleInitExpression, TupleInitExpressionView, UnaryExpression, UnaryExpressionView, UnaryOperation, ValueExpression, ValueExpressionView};
use crate::ast::function::{Annotation, annotation_seq_view, AnnotationView, Circuit, circuit_member_seq_view, CircuitMember, CircuitMemberView, CircuitView, Function, function_input_seq_view, FunctionInput, FunctionInputVariable, FunctionInputVariableView, FunctionInputView, FunctionView};
use crate::ast::imports::{import_statement_seq_view, ImportStatement, ImportStatementView, PackageOrPackages, PackageOrPackagesView};
use crate::ast::program::{circuit_entries, circuits_view, function_entries, functions_view, Program, ProgramView};
use crate::ast::statement::{Assignee, assignee_access_seq_view, AssigneeAccess, AssigneeAccessView, AssigneeView, AssignStatement, AssignStatementView, Block, BlockView, ConditionalStatement, ConditionalStatementView, ConsoleFunction, ConsoleFunctionView, ConsoleStatement, ConsoleStatementView, DefinitionStatement, DefinitionStatementView, ExpressionStatement, ExpressionStatementView, IterationStatement, IterationStatementView, ReturnStatement, ReturnStatementView, Statement, statement_seq_view, StatementView, variable_name_seq_view, VariableName, VariableNameView};
use crate::ast::types::{Type, TypeView};
use crate::errors::CanonicalizeError;
use crate::span::Span;
use indexmap::IndexMap;
use vstd::prelude::*;

verus! {

/// What a reduction gave: the view of the node, or the failure.
pub open spec fn reduced<T: View>(r: Result<T, CanonicalizeError>) -> Result<
    T::V,
    CanonicalizeError,
> {
    match r {
        Ok(node) => Ok(node@),
        Err(e) => Err(e),
    }
}

/// The view of an optional node.
pub open spec fn option_view<T: View>(o: Option<T>) -> Option<T::V> {
    match o {
        Some(node) => Some(node@),
        None => None,
    }
}

/// A rewriter of syntax trees. The director hands each hook the node as it
/// stood and the parts it has reduced; the hook gives the node that takes its
/// place, or fails. What a hook gives is a function of the reducer's state
/// and of its arguments, named by the specification function beside it.
pub trait ReconstructingReducer: View + Sized {
    /// What `reduce_type` gives, and the state it leaves.
    spec fn reduce_type_spec(
        state: Self::V,
        type_: TypeView,
        new: TypeView,
        in_circuit: bool,
        span: Span,
    ) -> (Self::V, Result<TypeView, CanonicalizeError>);

    /// Called for a type.
    fn reduce_type(
        &mut self,
        type_: &Type,
        new: Type,
        in_circuit: bool,
        span: &Span,
    ) -> (r: Result<Type, CanonicalizeError>)
        ensures
            (final(self)@, reduced(r)) == Self::reduce_type_spec(
                old(self)@,
                type_@,
                new@,
                in_circuit,
                *span,
            ),
    ;

    /// What `reduce_expression` gives, and the state it leaves.
    spec fn reduce_expression_spec(
        state: Self::V,
        expression: ExpressionView,
        new: ExpressionView,
        in_circuit: bool,
    ) -> (Self::V, Result<ExpressionView, CanonicalizeError>);

    /// Called for an expression.
    fn reduce_expression(
        &mut self,
        expression: &Expression,
        new: Expression,
        in_circuit: bool,
    ) -> (r: Result<Expression, CanonicalizeError>)
        ensures
            (final(self)@, reduced(r)) == Self::reduce_expression_spec(
                old(self)@,
                expression@,
                new@,
                in_circuit,
            ),
    ;

    /// What `reduce_identifier` gives, and the state it leaves.
    spec fn reduce_identifier_spec(
        state: Self::V,
        identifier: IdentifierView,
    ) -> (Self::V, Result<IdentifierView, CanonicalizeError>);

    /// Called for an identifier.
    fn reduce_identifier(
        &mut self,
        identifier: &Identifier,
    ) -> (r: Result<Identifier, CanonicalizeError>)
        ensures
            (final(self)@, reduced(r)) == Self::reduce_identifier_spec(old(self)@, identifier@),
    ;

    /// What `reduce_group_tuple` gives, and the state it leaves.
    spec fn reduce_group_tuple_spec(
        state: Self::V,
        group_tuple: GroupTupleView,
    ) -> (Self::V, Result<GroupTupleView, CanonicalizeError>);

    /// Called for a group tuple.
    fn reduce_group_tuple(
        &mut self,
        group_tuple: &GroupTuple,
    ) -> (r: Result<GroupTuple, CanonicalizeError>)
        ensures
            (final(self)@, reduced(r)) == Self::reduce_group_tuple_spec(old(self)@, group_tuple@),
    ;

    /// What `reduce_group_value` gives, and the state it leaves.
    spec fn reduce_group_value_spec(
        state: Self::V,
        group_value: GroupValueView,
        new: GroupValueView,
    ) -> (Self::V, Result<GroupValueView, CanonicalizeError>);

    /// Called for a group value.
    fn reduce_group_value(
        &mut self,
        group_value: &GroupValue,
        new: GroupValue,
    ) -> (r: Result<GroupValue, CanonicalizeError>)
        ensures
            (final(self)@, reduced(r)) == Self::reduce_group_value_spec(
                old(self)@,
                group_value@,
                new@,
            ),
    ;

    /// What `reduce_value` gives, and the state it leaves.
    spec fn reduce_value_spec(
        state: Self::V,
        value: ValueExpressionView,
        new: ValueExpressionView,
    ) -> (Self::V, Result<ValueExpressionView, CanonicalizeError>);

    /// Called for a literal value.
    fn reduce_value(
        &mut self,
        value: &ValueExpression,
        new: ValueExpression,
    ) -> (r: Result<ValueExpression, CanonicalizeError>)
        ensures
            (final(self)@, reduced(r)) == Self::reduce_value_spec(old(self)@, value@, new@),
    ;

    /// What `reduce_binary` gives, and the state it leaves.
    spec fn reduce_binary_spec(
        state: Self::V,
        binary: BinaryExpressionView,
        left: ExpressionView,
        right: ExpressionView,
        op: BinaryOperation,
        in_circuit: bool,
    ) -> (Self::V, Result<BinaryExpressionView, CanonicalizeError>);

    /// Called for a binary expression.
    fn reduce_binary(
        &mut self,
        binary: &BinaryExpression,
        left: Expression,
        right: Expression,
        op: BinaryOperation,
        in_circuit: bool,
    ) -> (r: Result<BinaryExpression, CanonicalizeError>)
        ensures
            (final(self)@, reduced(r)) == Self::reduce_binary_spec(
                old(self)@,
                binary@,
                left@,
                right@,
                op,
                in_circuit,
            ),
    ;

    /// What `reduce_unary` gives, and the state it leaves.
    spec fn reduce_unary_spec(
        state: Self::V,
        unary: UnaryExpressionView,
        inner: ExpressionView,
        op: UnaryOperation,
        in_circuit: bool,
    ) -> (Self::V, Result<UnaryExpressionView, CanonicalizeError>);

    /// Called for a unary expression.
    fn reduce_unary(
        &mut self,
        unary: &UnaryExpression,
        inner: Expression,
        op: UnaryOperation,
        in_circuit: bool,
    ) -> (r: Result<UnaryExpression, CanonicalizeError>)
        ensures
            (final(self)@, reduced(r)) == Self::reduce_unary_spec(
                old(self)@,
                unary@,
                inner@,
                op,
                in_circuit,
            ),
    ;

    /// What `reduce_ternary` gives, and the state it leaves.
    spec fn reduce_ternary_spec(
        state: Self::V,
        ternary: TernaryExpressionView,
        condition: ExpressionView,
        if_true: ExpressionView,
        if_false: ExpressionView,
        in_circuit: bool,
    ) -> (Self::V, Result<TernaryExpressionView, CanonicalizeError>);

    /// Called for a ternary expression.
    fn reduce_ternary(
        &mut self,
        ternary: &TernaryExpression,
        condition: Expression,
        if_true: Expression,
        if_false: Expression,
        in_circuit: bool,
    ) -> (r: Result<TernaryExpression, CanonicalizeError>)
        ensures
            (final(self)@, reduced(r)) == Self::reduce_ternary_spec(
                old(self)@,
                ternary@,
                condition@,
                if_true@,
                if_false@,
                in_circuit,
            ),
    ;

    /// What `reduce_cast` gives, and the state it leaves.
    spec fn reduce_cast_spec(
        state: Self::V,
        cast: CastExpressionView,
        inner: ExpressionView,
        target_type: TypeView,
        in_circuit: bool,
    ) -> (Self::V, Result<CastExpressionView, CanonicalizeError>);

    /// Called for a cast.
    fn reduce_cast(
        &mut self,
        cast: &CastExpression,
        inner: Expression,
        target_type: Type,
        in_circuit: bool,
    ) -> (r: Result<CastExpression, CanonicalizeError>)
        ensures
            (final(self)@, reduced(r)) == Self::reduce_cast_spec(
                old(self)@,
                cast@,
                inner@,
                target_type@,
                in_circuit,
            ),
    ;

    /// What `reduce_array_inline` gives, and the state it leaves.
    spec fn reduce_array_inline_spec(
        state: Self::V,
        array_inline: ArrayInlineExpressionView,
        elements: Seq<SpreadOrExpressionView>,
        in_circuit: bool,
    ) -> (Self::V, Result<ArrayInlineExpressionView, CanonicalizeError>);

    /// Called for an inline array.
    fn reduce_array_inline(
        &mut self,
        array_inline: &ArrayInlineExpression,
        elements: Vec<SpreadOrExpression>,
        in_circuit: bool,
    ) -> (r: Result<ArrayInlineExpression, CanonicalizeError>)
        ensures
            (final(self)@, reduced(r)) == Self::reduce_array_inline_spec(
                old(self)@,
                array_inline@,
                spread_or_expression_seq_view(elements@),
                in_circuit,
            ),
    ;

    /// What `reduce_array_init` gives, and the state it leaves.
    spec fn reduce_array_init_spec(
        state: Self::V,
        array_init: ArrayInitExpressionView,
        element: ExpressionView,
        in_circuit: bool,
    ) -> (Self::V, Result<ArrayInitExpressionView, CanonicalizeError>);

    /// Called for an array initialiser.
    fn reduce_array_init(
        &mut self,
        array_init: &ArrayInitExpression,
        element: Expression,
        in_circuit: bool,
    ) -> (r: Result<ArrayInitExpression, CanonicalizeError>)
        ensures
            (final(self)@, reduced(r)) == Self::reduce_array_init_spec(
                old(self)@,
                array_init@,
                element@,
                in_circuit,
            ),
    ;

    /// What `reduce_array_access` gives, and the state it leaves.
    spec fn reduce_array_access_spec(
        state: Self::V,
        array_access: ArrayAccessExpressionView,
        array: ExpressionView,
        index: ExpressionView,
        in_circuit: bool,
    ) -> (Self::V, Result<ArrayAccessExpressionView, CanonicalizeError>);

    /// Called for an array access.
    fn reduce_array_access(
        &mut self,
        array_access: &ArrayAccessExpression,
        array: Expression,
        index: Expression,
        in_circuit: bool,
    ) -> (r: Result<ArrayAccessExpression, CanonicalizeError>)
        ensures
            (final(self)@, reduced(r)) == Self::reduce_array_access_spec(
                old(self)@,
                array_access@,
                array@,
                index@,
                in_circuit,
            ),
    ;

    /// What `reduce_array_range_access` gives, and the state it leaves.
    spec fn reduce_array_range_access_spec(
        state: Self::V,
        array_range_access: ArrayRangeAccessExpressionView,
        array: ExpressionView,
        left: Option<ExpressionView>,
        right: Option<ExpressionView>,
        in_circuit: bool,
    ) -> (Self::V, Result<ArrayRangeAccessExpressionView, CanonicalizeError>);

    /// Called for an array range access.
    fn reduce_array_range_access(
        &mut self,
        array_range_access: &ArrayRangeAccessExpression,
        array: Expression,
        left: Option<Expression>,
        right: Option<Expression>,
        in_circuit: bool,
    ) -> (r: Result<ArrayRangeAccessExpression, CanonicalizeError>)
        ensures
            (final(self)@, reduced(r)) == Self::reduce_array_range_access_spec(
                old(self)@,
                array_range_access@,
                array@,
                option_view(left),
                option_view(right),
                in_circuit,
            ),
    ;

    /// What `reduce_tuple_init` gives, and the state it leaves.
    spec fn reduce_tuple_init_spec(
        state: Self::V,
        tuple_init: TupleInitExpressionView,
        elements: Seq<ExpressionView>,
        in_circuit: bool,
    ) -> (Self::V, Result<TupleInitExpressionView, CanonicalizeError>);

    /// Called for a tuple initialiser.
    fn reduce_tuple_init(
        &mut self,
        tuple_init: &TupleInitExpression,
        elements: Vec<Expression>,
        in_circuit: bool,
    ) -> (r: Result<TupleInitExpression, CanonicalizeError>)
        ensures
            (final(self)@, reduced(r)) == Self::reduce_tuple_init_spec(
                old(self)@,
                tuple_init@,
                expression_seq_view(elements@),
                in_circuit,
            ),
    ;

    /// What `reduce_tuple_access` gives, and the state it leaves.
    spec fn reduce_tuple_access_spec(
        state: Self::V,
        tuple_access: TupleAccessExpressionView,
        tuple: ExpressionView,
        in_circuit: bool,
    ) -> (Self::V, Result<TupleAccessExpressionView, CanonicalizeError>);

    /// Called for a tuple access.
    fn reduce_tuple_access(
        &mut self,
        tuple_access: &TupleAccessExpression,
        tuple: Expression,
        in_circuit: bool,
    ) -> (r: Result<TupleAccessExpression, CanonicalizeError>)
        ensures
            (final(self)@, reduced(r)) == Self::reduce_tuple_access_spec(
                old(self)@,
                tuple_access@,
                tuple@,
                in_circuit,
            ),
    ;

    /// What `reduce_circuit_implied_variable_definition` gives, and the state it leaves.
    spec fn reduce_circuit_implied_variable_definition_spec(
        state: Self::V,
        variable: CircuitImpliedVariableDefinitionView,
        identifier: IdentifierView,
        expression: Option<ExpressionView>,
        in_circuit: bool,
    ) -> (Self::V, Result<CircuitImpliedVariableDefinitionView, CanonicalizeError>);

    /// Called for a member of a circuit initialiser.
    fn reduce_circuit_implied_variable_definition(
        &mut self,
        variable: &CircuitImpliedVariableDefinition,
        identifier: Identifier,
        expression: Option<Expression>,
        in_circuit: bool,
    ) -> (r: Result<CircuitImpliedVariableDefinition, CanonicalizeError>)
        ensures
            (final(self)@, reduced(r)) == Self::reduce_circuit_implied_variable_definition_spec(
                old(self)@,
                variable@,
                identifier@,
                option_view(expression),
                in_circuit,
            ),
    ;

    /// What `reduce_circuit_init` gives, and the state it leaves.
    spec fn reduce_circuit_init_spec(
        state: Self::V,
        circuit_init: CircuitInitExpressionView,
        name: IdentifierView,
        members: Seq<CircuitImpliedVariableDefinitionView>,
        in_circuit: bool,
    ) -> (Self::V, Result<CircuitInitExpressionView, CanonicalizeError>);

    /// Called for a circuit initialiser.
    fn reduce_circuit_init(
        &mut self,
        circuit_init: &CircuitInitExpression,
        name: Identifier,
        members: Vec<CircuitImpliedVariableDefinition>,
        in_circuit: bool,
    ) -> (r: Result<CircuitInitExpression, CanonicalizeError>)
        ensures
            (final(self)@, reduced(r)) == Self::reduce_circuit_init_spec(
                old(self)@,
                circuit_init@,
                name@,
                circuit_implied_variable_definition_seq_view(members@),
                in_circuit,
            ),
    ;

    /// What `reduce_circuit_member_access` gives, and the state it leaves.
    spec fn reduce_circuit_member_access_spec(
        state: Self::V,
        circuit_member_access: CircuitMemberAccessExpressionView,
        circuit: ExpressionView,
        name: IdentifierView,
        in_circuit: bool,
    ) -> (Self::V, Result<CircuitMemberAccessExpressionView, CanonicalizeError>);

    /// Called for a circuit member access.
    fn reduce_circuit_member_access(
        &mut self,
        circuit_member_access: &CircuitMemberAccessExpression,
        circuit: Expression,
        name: Identifier,
        in_circuit: bool,
    ) -> (r: Result<CircuitMemberAccessExpression, CanonicalizeError>)
        ensures
            (final(self)@, reduced(r)) == Self::reduce_circuit_member_access_spec(
                old(self)@,
                circuit_member_access@,
                circuit@,
                name@,
                in_circuit,
            ),
    ;

    /// What `reduce_circuit_static_fn_access` gives, and the state it leaves.
    spec fn reduce_circuit_static_fn_access_spec(
        state: Self::V,
        circuit_static_fn_access: CircuitStaticFunctionAccessExpressionView,
        circuit: ExpressionView,
        name: IdentifierView,
        in_circuit: bool,
    ) -> (Self::V, Result<CircuitStaticFunctionAccessExpressionView, CanonicalizeError>);

    /// Called for a static function access.
    fn reduce_circuit_static_fn_access(
        &mut self,
        circuit_static_fn_access: &CircuitStaticFunctionAccessExpression,
        circuit: Expression,
        name: Identifier,
        in_circuit: bool,
    ) -> (r: Result<CircuitStaticFunctionAccessExpression, CanonicalizeError>)
        ensures
            (final(self)@, reduced(r)) == Self::reduce_circuit_static_fn_access_spec(
                old(self)@,
                circuit_static_fn_access@,
                circuit@,
                name@,
                in_circuit,
            ),
    ;

    /// What `reduce_call` gives, and the state it leaves.
    spec fn reduce_call_spec(
        state: Self::V,
        call: CallExpressionView,
        function: ExpressionView,
        arguments: Seq<ExpressionView>,
        in_circuit: bool,
    ) -> (Self::V, Result<CallExpressionView, CanonicalizeError>);

    /// Called for a call.
    fn reduce_call(
        &mut self,
        call: &CallExpression,
        function: Expression,
        arguments: Vec<Expression>,
        in_circuit: bool,
    ) -> (r: Result<CallExpression, CanonicalizeError>)
        ensures
            (final(self)@, reduced(r)) == Self::reduce_call_spec(
                old(self)@,
                call@,
                function@,
                expression_seq_view(arguments@),
                in_circuit,
            ),
    ;

    /// What `reduce_statement` gives, and the state it leaves.
    spec fn reduce_statement_spec(
        state: Self::V,
        statement: StatementView,
        new: StatementView,
        in_circuit: bool,
    ) -> (Self::V, Result<StatementView, CanonicalizeError>);

    /// Called for a statement.
    fn reduce_statement(
        &mut self,
        statement: &Statement,
        new: Statement,
        in_circuit: bool,
    ) -> (r: Result<Statement, CanonicalizeError>)
        ensures
            (final(self)@, reduced(r)) == Self::reduce_statement_spec(
                old(self)@,
                statement@,
                new@,
                in_circuit,
            ),
    ;

    /// What `reduce_return` gives, and the state it leaves.
    spec fn reduce_return_spec(
        state: Self::V,
        return_statement: ReturnStatementView,
        expression: ExpressionView,
        in_circuit: bool,
    ) -> (Self::V, Result<ReturnStatementView, CanonicalizeError>);

    /// Called for a return.
    fn reduce_return(
        &mut self,
        return_statement: &ReturnStatement,
        expression: Expression,
        in_circuit: bool,
    ) -> (r: Result<ReturnStatement, CanonicalizeError>)
        ensures
            (final(self)@, reduced(r)) == Self::reduce_return_spec(
                old(self)@,
                return_statement@,
                expression@,
                in_circuit,
            ),
    ;

    /// What `reduce_variable_name` gives, and the state it leaves.
    spec fn reduce_variable_name_spec(
        state: Self::V,
        variable_name: VariableNameView,
        identifier: IdentifierView,
    ) -> (Self::V, Result<VariableNameView, CanonicalizeError>);

    /// Called for a variable name.
    fn reduce_variable_name(
        &mut self,
        variable_name: &VariableName,
        identifier: Identifier,
    ) -> (r: Result<VariableName, CanonicalizeError>)
        ensures
            (final(self)@, reduced(r)) == Self::reduce_variable_name_spec(
                old(self)@,
                variable_name@,
                identifier@,
            ),
    ;

    /// What `reduce_definition` gives, and the state it leaves.
    spec fn reduce_definition_spec(
        state: Self::V,
        definition: DefinitionStatementView,
        variable_names: Seq<VariableNameView>,
        type_: Option<TypeView>,
        value: ExpressionView,
        in_circuit: bool,
    ) -> (Self::V, Result<DefinitionStatementView, CanonicalizeError>);

    /// Called for a definition.
    fn reduce_definition(
        &mut self,
        definition: &DefinitionStatement,
        variable_names: Vec<VariableName>,
        type_: Option<Type>,
        value: Expression,
        in_circuit: bool,
    ) -> (r: Result<DefinitionStatement, CanonicalizeError>)
        ensures
            (final(self)@, reduced(r)) == Self::reduce_definition_spec(
                old(self)@,
                definition@,
                variable_name_seq_view(variable_names@),
                option_view(type_),
                value@,
                in_circuit,
            ),
    ;

    /// What `reduce_assignee_access` gives, and the state it leaves.
    spec fn reduce_assignee_access_spec(
        state: Self::V,
        access: AssigneeAccessView,
        new: AssigneeAccessView,
        in_circuit: bool,
    ) -> (Self::V, Result<AssigneeAccessView, CanonicalizeError>);

    /// Called for an assignee access.
    fn reduce_assignee_access(
        &mut self,
        access: &AssigneeAccess,
        new: AssigneeAccess,
        in_circuit: bool,
    ) -> (r: Result<AssigneeAccess, CanonicalizeError>)
        ensures
            (final(self)@, reduced(r)) == Self::reduce_assignee_access_spec(
                old(self)@,
                access@,
                new@,
                in_circuit,
            ),
    ;

    /// What `reduce_assignee` gives, and the state it leaves.
    spec fn reduce_assignee_spec(
        state: Self::V,
        assignee: AssigneeView,
        identifier: IdentifierView,
        accesses: Seq<AssigneeAccessView>,
        in_circuit: bool,
    ) -> (Self::V, Result<AssigneeView, CanonicalizeError>);

    /// Called for an assignee.
    fn reduce_assignee(
        &mut self,
        assignee: &Assignee,
        identifier: Identifier,
        accesses: Vec<AssigneeAccess>,
        in_circuit: bool,
    ) -> (r: Result<Assignee, CanonicalizeError>)
        ensures
            (final(self)@, reduced(r)) == Self::reduce_assignee_spec(
                old(self)@,
                assignee@,
                identifier@,
                assignee_access_seq_view(accesses@),
                in_circuit,
            ),
    ;

    /// What `reduce_assign` gives, and the state it leaves.
    spec fn reduce_assign_spec(
        state: Self::V,
        assign: AssignStatementView,
        assignee: AssigneeView,
        value: ExpressionView,
        in_circuit: bool,
    ) -> (Self::V, Result<AssignStatementView, CanonicalizeError>);

    /// Called for an assignment.
    fn reduce_assign(
        &mut self,
        assign: &AssignStatement,
        assignee: Assignee,
        value: Expression,
        in_circuit: bool,
    ) -> (r: Result<AssignStatement, CanonicalizeError>)
        ensures
            (final(self)@, reduced(r)) == Self::reduce_assign_spec(
                old(self)@,
                assign@,
                assignee@,
                value@,
                in_circuit,
            ),
    ;

    /// What `reduce_conditional` gives, and the state it leaves.
    spec fn reduce_conditional_spec(
        state: Self::V,
        conditional: ConditionalStatementView,
        condition: ExpressionView,
        block: BlockView,
        next: Option<StatementView>,
        in_circuit: bool,
    ) -> (Self::V, Result<ConditionalStatementView, CanonicalizeError>);

    /// Called for a conditional.
    fn reduce_conditional(
        &mut self,
        conditional: &ConditionalStatement,
        condition: Expression,
        block: Block,
        next: Option<Statement>,
        in_circuit: bool,
    ) -> (r: Result<ConditionalStatement, CanonicalizeError>)
        ensures
            (final(self)@, reduced(r)) == Self::reduce_conditional_spec(
                old(self)@,
                conditional@,
                condition@,
                block@,
                option_view(next),
                in_circuit,
            ),
    ;

    /// What `reduce_iteration` gives, and the state it leaves.
    spec fn reduce_iteration_spec(
        state: Self::V,
        iteration: IterationStatementView,
        variable: IdentifierView,
        start: ExpressionView,
        stop: ExpressionView,
        block: BlockView,
        in_circuit: bool,
    ) -> (Self::V, Result<IterationStatementView, CanonicalizeError>);

    /// Called for a loop.
    fn reduce_iteration(
        &mut self,
        iteration: &IterationStatement,
        variable: Identifier,
        start: Expression,
        stop: Expression,
        block: Block,
        in_circuit: bool,
    ) -> (r: Result<IterationStatement, CanonicalizeError>)
        ensures
            (final(self)@, reduced(r)) == Self::reduce_iteration_spec(
                old(self)@,
                iteration@,
                variable@,
                start@,
                stop@,
                block@,
                in_circuit,
            ),
    ;

    /// What `reduce_console` gives, and the state it leaves.
    spec fn reduce_console_spec(
        state: Self::V,
        console_function_call: ConsoleStatementView,
        function: ConsoleFunctionView,
        in_circuit: bool,
    ) -> (Self::V, Result<ConsoleStatementView, CanonicalizeError>);

    /// Called for a console statement.
    fn reduce_console(
        &mut self,
        console_function_call: &ConsoleStatement,
        function: ConsoleFunction,
        in_circuit: bool,
    ) -> (r: Result<ConsoleStatement, CanonicalizeError>)
        ensures
            (final(self)@, reduced(r)) == Self::reduce_console_spec(
                old(self)@,
                console_function_call@,
                function@,
                in_circuit,
            ),
    ;

    /// What `reduce_expression_statement` gives, and the state it leaves.
    spec fn reduce_expression_statement_spec(
        state: Self::V,
        expression_statement: ExpressionStatementView,
        expression: ExpressionView,
        in_circuit: bool,
    ) -> (Self::V, Result<ExpressionStatementView, CanonicalizeError>);

    /// Called for an expression statement.
    fn reduce_expression_statement(
        &mut self,
        expression_statement: &ExpressionStatement,
        expression: Expression,
        in_circuit: bool,
    ) -> (r: Result<ExpressionStatement, CanonicalizeError>)
        ensures
            (final(self)@, reduced(r)) == Self::reduce_expression_statement_spec(
                old(self)@,
                expression_statement@,
                expression@,
                in_circuit,
            ),
    ;

    /// What `reduce_block` gives, and the state it leaves.
    spec fn reduce_block_spec(
        state: Self::V,
        block: BlockView,
        statements: Seq<StatementView>,
        in_circuit: bool,
    ) -> (Self::V, Result<BlockView, CanonicalizeError>);

    /// Called for a block.
    fn reduce_block(
        &mut self,
        block: &Block,
        statements: Vec<Statement>,
        in_circuit: bool,
    ) -> (r: Result<Block, CanonicalizeError>)
        ensures
            (final(self)@, reduced(r)) == Self::reduce_block_spec(
                old(self)@,
                block@,
                statement_seq_view(statements@),
                in_circuit,
            ),
    ;

    /// What `reduce_program` gives, and the state it leaves.
    spec fn reduce_program_spec(
        state: Self::V,
        program: ProgramView,
        expected_input: Seq<FunctionInputView>,
        imports: Seq<ImportStatementView>,
        circuits: Seq<(IdentifierView, CircuitView)>,
        functions: Seq<(IdentifierView, FunctionView)>,
    ) -> (Self::V, Result<ProgramView, CanonicalizeError>);

    /// Called for a program.
    fn reduce_program(
        &mut self,
        program: &Program,
        expected_input: Vec<FunctionInput>,
        imports: Vec<ImportStatement>,
        circuits: IndexMap<Identifier, Circuit>,
        functions: IndexMap<Identifier, Function>,
    ) -> (r: Result<Program, CanonicalizeError>)
        ensures
            (final(self)@, reduced(r)) == Self::reduce_program_spec(
                old(self)@,
                program@,
                function_input_seq_view(expected_input@),
                import_statement_seq_view(imports@),
                circuits_view(circuit_entries(circuits)),
                functions_view(function_entries(functions)),
            ),
    ;

    /// What `reduce_function_input_variable` gives, and the state it leaves.
    spec fn reduce_function_input_variable_spec(
        state: Self::V,
        variable: FunctionInputVariableView,
        identifier: IdentifierView,
        type_: TypeView,
        in_circuit: bool,
    ) -> (Self::V, Result<FunctionInputVariableView, CanonicalizeError>);

    /// Called for an input variable of a function.
    fn reduce_function_input_variable(
        &mut self,
        variable: &FunctionInputVariable,
        identifier: Identifier,
        type_: Type,
        in_circuit: bool,
    ) -> (r: Result<FunctionInputVariable, CanonicalizeError>)
        ensures
            (final(self)@, reduced(r)) == Self::reduce_function_input_variable_spec(
                old(self)@,
                variable@,
                identifier@,
                type_@,
                in_circuit,
            ),
    ;

    /// What `reduce_function_input` gives, and the state it leaves.
    spec fn reduce_function_input_spec(
        state: Self::V,
        input: FunctionInputView,
        new: FunctionInputView,
        in_circuit: bool,
    ) -> (Self::V, Result<FunctionInputView, CanonicalizeError>);

    /// Called for an input of a function.
    fn reduce_function_input(
        &mut self,
        input: &FunctionInput,
        new: FunctionInput,
        in_circuit: bool,
    ) -> (r: Result<FunctionInput, CanonicalizeError>)
        ensures
            (final(self)@, reduced(r)) == Self::reduce_function_input_spec(
                old(self)@,
                input@,
                new@,
                in_circuit,
            ),
    ;

    /// What `reduce_package_or_packages` gives, and the state it leaves.
    spec fn reduce_package_or_packages_spec(
        state: Self::V,
        package_or_packages: PackageOrPackagesView,
        new: PackageOrPackagesView,
    ) -> (Self::V, Result<PackageOrPackagesView, CanonicalizeError>);

    /// Called for the package of an import.
    fn reduce_package_or_packages(
        &mut self,
        package_or_packages: &PackageOrPackages,
        new: PackageOrPackages,
    ) -> (r: Result<PackageOrPackages, CanonicalizeError>)
        ensures
            (final(self)@, reduced(r)) == Self::reduce_package_or_packages_spec(
                old(self)@,
                package_or_packages@,
                new@,
            ),
    ;

    /// What `reduce_import` gives, and the state it leaves.
    spec fn reduce_import_spec(
        state: Self::V,
        import: ImportStatementView,
        package_or_packages: PackageOrPackagesView,
    ) -> (Self::V, Result<ImportStatementView, CanonicalizeError>);

    /// Called for an import.
    fn reduce_import(
        &mut self,
        import: &ImportStatement,
        package_or_packages: PackageOrPackages,
    ) -> (r: Result<ImportStatement, CanonicalizeError>)
        ensures
            (final(self)@, reduced(r)) == Self::reduce_import_spec(
                old(self)@,
                import@,
                package_or_packages@,
            ),
    ;

    /// What `reduce_circuit_member` gives, and the state it leaves.
    spec fn reduce_circuit_member_spec(
        state: Self::V,
        circuit_member: CircuitMemberView,
        new: CircuitMemberView,
    ) -> (Self::V, Result<CircuitMemberView, CanonicalizeError>);

    /// Called for a member of a circuit.
    fn reduce_circuit_member(
        &mut self,
        circuit_member: &CircuitMember,
        new: CircuitMember,
    ) -> (r: Result<CircuitMember, CanonicalizeError>)
        ensures
            (final(self)@, reduced(r)) == Self::reduce_circuit_member_spec(
                old(self)@,
                circuit_member@,
                new@,
            ),
    ;

    /// What `reduce_circuit` gives, and the state it leaves.
    spec fn reduce_circuit_spec(
        state: Self::V,
        circuit: CircuitView,
        circuit_name: IdentifierView,
        members: Seq<CircuitMemberView>,
    ) -> (Self::V, Result<CircuitView, CanonicalizeError>);

    /// Called for a circuit.
    fn reduce_circuit(
        &mut self,
        circuit: &Circuit,
        circuit_name: Identifier,
        members: Vec<CircuitMember>,
    ) -> (r: Result<Circuit, CanonicalizeError>)
        ensures
            (final(self)@, reduced(r)) == Self::reduce_circuit_spec(
                old(self)@,
                circuit@,
                circuit_name@,
                circuit_member_seq_view(members@),
            ),
    ;

    /// What `reduce_annotation` gives, and the state it leaves.
    spec fn reduce_annotation_spec(
        state: Self::V,
        annotation: AnnotationView,
        name: IdentifierView,
    ) -> (Self::V, Result<AnnotationView, CanonicalizeError>);

    /// Called for an annotation.
    fn reduce_annotation(
        &mut self,
        annotation: &Annotation,
        name: Identifier,
    ) -> (r: Result<Annotation, CanonicalizeError>)
        ensures
            (final(self)@, reduced(r)) == Self::reduce_annotation_spec(
                old(self)@,
                annotation@,
                name@,
            ),
    ;

    /// What `reduce_function` gives, and the state it leaves.
    spec fn reduce_function_spec(
        state: Self::V,
        function: FunctionView,
        identifier: IdentifierView,
        annotations: Seq<AnnotationView>,
        input: Seq<FunctionInputView>,
        output: Option<TypeView>,
        block: BlockView,
        in_circuit: bool,
    ) -> (Self::V, Result<FunctionView, CanonicalizeError>);

    /// Called for a function.
    fn reduce_function(
        &mut self,
        function: &Function,
        identifier: Identifier,
        annotations: Vec<Annotation>,
        input: Vec<FunctionInput>,
        output: Option<Type>,
        block: Block,
        in_circuit: bool,
    ) -> (r: Result<Function, CanonicalizeError>)
        ensures
            (final(self)@, reduced(r)) == Self::reduce_function_spec(
                old(self)@,
                function@,
                identifier@,
                annotation_seq_view(annotations@),
                function_input_seq_view(input@),
                option_view(output),
                block@,
                in_circuit,
            ),
    ;
}

/// The node that stands for an identifier when nothing is rewritten.
pub open spec fn rebuilt_identifier(identifier: IdentifierView) -> IdentifierView {
    identifier
}

/// Rebuilds an identifier from its reduced parts.
pub fn rebuild_identifier(identifier: &Identifier) -> (r: Identifier)
    ensures
        r@ == rebuilt_identifier(identifier@),
{
    identifier.clone()
}

/// The node that stands for a group tuple when nothing is rewritten.
pub open spec fn rebuilt_group_tuple(group_tuple: GroupTupleView) -> GroupTupleView {
    group_tuple
}

/// Rebuilds a group tuple from its reduced parts.
pub fn rebuild_group_tuple(group_tuple: &GroupTuple) -> (r: GroupTuple)
    ensures
        r@ == rebuilt_group_tuple(group_tuple@),
{
    group_tuple.clone()
}

/// The node that stands for a binary expression when nothing is rewritten.
pub open spec fn rebuilt_binary(
    binary: BinaryExpressionView,
    left: ExpressionView,
    right: ExpressionView,
    op: BinaryOperation,
) -> BinaryExpressionView {
    BinaryExpressionView {
        left: Box::new(left),
        right: Box::new(right),
        op: op,
        span: binary.span,
    }
}

/// Rebuilds a binary expression from its reduced parts.
pub fn rebuild_binary(
    binary: &BinaryExpression,
    left: Expression,
    right: Expression,
    op: BinaryOperation,
) -> (r: BinaryExpression)
    ensures
        r@ == rebuilt_binary(binary@, left@, right@, op),
{
    BinaryExpression {
        left: Box::new(left),
        right: Box::new(right),
        op: op,
        span: binary.span,
    }
}

/// The node that stands for a unary expression when nothing is rewritten.
pub open spec fn rebuilt_unary(
    unary: UnaryExpressionView,
    inner: ExpressionView,
    op: UnaryOperation,
) -> UnaryExpressionView {
    UnaryExpressionView {
        inner: Box::new(inner),
        op: op,
        span: unary.span,
    }
}

/// Rebuilds a unary expression from its reduced parts.
pub fn rebuild_unary(
    unary: &UnaryExpression,
    inner: Expression,
    op: UnaryOperation,
) -> (r: UnaryExpression)
    ensures
        r@ == rebuilt_unary(unary@, inner@, op),
{
    UnaryExpression {
        inner: Box::new(inner),
        op: op,
        span: unary.span,
    }
}

/// The node that stands for a ternary expression when nothing is rewritten.
pub open spec fn rebuilt_ternary(
    ternary: TernaryExpressionView,
    condition: ExpressionView,
    if_true: ExpressionView,
    if_false: ExpressionView,
) -> TernaryExpressionView {
    TernaryExpressionView {
        condition: Box::new(condition),
        if_true: Box::new(if_true),
        if_false: Box::new(if_false),
        span: ternary.span,
    }
}

/// Rebuilds a ternary expression from its reduced parts.
pub fn rebuild_ternary(
    ternary: &TernaryExpression,
    condition: Expression,
    if_true: Expression,
    if_false: Expression,
) -> (r: TernaryExpression)
    ensures
        r@ == rebuilt_ternary(ternary@, condition@, if_true@, if_false@),
{
    TernaryExpression {
        condition: Box::new(condition),
        if_true: Box::new(if_true),
        if_false: Box::new(if_false),
        span: ternary.span,
    }
}

/// The node that stands for a cast when nothing is rewritten.
pub open spec fn rebuilt_cast(
    cast: CastExpressionView,
    inner: ExpressionView,
    target_type: TypeView,
) -> CastExpressionView {
    CastExpressionView {
        inner: Box::new(inner),
        target_type: target_type,
        span: cast.span,
    }
}

/// Rebuilds a cast from its reduced parts.
pub fn rebuild_cast(
    cast: &CastExpression,
    inner: Expression,
    target_type: Type,
) -> (r: CastExpression)
    ensures
        r@ == rebuilt_cast(cast@, inner@, target_type@),
{
    CastExpression {
        inner: Box::new(inner),
        target_type: target_type,
        span: cast.span,
    }
}

/// The node that stands for an inline array when nothing is rewritten.
pub open spec fn rebuilt_array_inline(
    array_inline: ArrayInlineExpressionView,
    elements: Seq<SpreadOrExpressionView>,
) -> ArrayInlineExpressionView {
    ArrayInlineExpressionView {
        elements: elements,
        span: array_inline.span,
    }
}

/// Rebuilds an inline array from its reduced parts.
pub fn rebuild_array_inline(
    array_inline: &ArrayInlineExpression,
    elements: Vec<SpreadOrExpression>,
) -> (r: ArrayInlineExpression)
    ensures
        r@ == rebuilt_array_inline(array_inline@, spread_or_expression_seq_view(elements@)),
{
    ArrayInlineExpression {
        elements: elements,
        span: array_inline.span,
    }
}

/// The node that stands for an array initialiser when nothing is rewritten.
pub open spec fn rebuilt_array_init(
    array_init: ArrayInitExpressionView,
    element: ExpressionView,
) -> ArrayInitExpressionView {
    ArrayInitExpressionView {
        element: Box::new(element),
        dimensions: array_init.dimensions,
        span: array_init.span,
    }
}

/// Rebuilds an array initialiser from its reduced parts.
pub fn rebuild_array_init(
    array_init: &ArrayInitExpression,
    element: Expression,
) -> (r: ArrayInitExpression)
    ensures
        r@ == rebuilt_array_init(array_init@, element@),
{
    ArrayInitExpression {
        element: Box::new(element),
        dimensions: clone_sizes(&array_init.dimensions),
        span: array_init.span,
    }
}

/// The node that stands for an array access when nothing is rewritten.
pub open spec fn rebuilt_array_access(
    array_access: ArrayAccessExpressionView,
    array: ExpressionView,
    index: ExpressionView,
) -> ArrayAccessExpressionView {
    ArrayAccessExpressionView {
        array: Box::new(array),
        index: Box::new(index),
        span: array_access.span,
    }
}

/// Rebuilds an array access from its reduced parts.
pub fn rebuild_array_access(
    array_access: &ArrayAccessExpression,
    array: Expression,
    index: Expression,
) -> (r: ArrayAccessExpression)
    ensures
        r@ == rebuilt_array_access(array_access@, array@, index@),
{
    ArrayAccessExpression {
        array: Box::new(array),
        index: Box::new(index),
        span: array_access.span,
    }
}

/// The node that stands for an array range access when nothing is rewritten.
pub open spec fn rebuilt_array_range_access(
    array_range_access: ArrayRangeAccessExpressionView,
    array: ExpressionView,
    left: Option<ExpressionView>,
    right: Option<ExpressionView>,
) -> ArrayRangeAccessExpressionView {
    ArrayRangeAccessExpressionView {
        array: Box::new(array),
        left: match left { Some(v) => Some(Box::new(v)), None => None },
        right: match right { Some(v) => Some(Box::new(v)), None => None },
        span: array_range_access.span,
    }
}

/// Rebuilds an array range access from its reduced parts.
pub fn rebuild_array_range_access(
    array_range_access: &ArrayRangeAccessExpression,
    array: Expression,
    left: Option<Expression>,
    right: Option<Expression>,
) -> (r: ArrayRangeAccessExpression)
    ensures
        r@ == rebuilt_array_range_access(
            array_range_access@,
            array@,
            option_view(left),
            option_view(right),
        ),
{
    ArrayRangeAccessExpression {
        array: Box::new(array),
        left: match left { Some(v) => Some(Box::new(v)), None => None },
        right: match right { Some(v) => Some(Box::new(v)), None => None },
        span: array_range_access.span,
    }
}

/// The node that stands for a tuple initialiser when nothing is rewritten.
pub open spec fn rebuilt_tuple_init(
    tuple_init: TupleInitExpressionView,
    elements: Seq<ExpressionView>,
) -> TupleInitExpressionView {
    TupleInitExpressionView {
        elements: elements,
        span: tuple_init.span,
    }
}

/// Rebuilds a tuple initialiser from its reduced parts.
pub fn rebuild_tuple_init(
    tuple_init: &TupleInitExpression,
    elements: Vec<Expression>,
) -> (r: TupleInitExpression)
    ensures
        r@ == rebuilt_tuple_init(tuple_init@, expression_seq_view(elements@)),
{
    TupleInitExpression {
        elements: elements,
        span: tuple_init.span,
    }
}

/// The node that stands for a tuple access when nothing is rewritten.
pub open spec fn rebuilt_tuple_access(
    tuple_access: TupleAccessExpressionView,
    tuple: ExpressionView,
) -> TupleAccessExpressionView {
    TupleAccessExpressionView {
        tuple: Box::new(tuple),
        index: tuple_access.index,
        span: tuple_access.span,
    }
}

/// Rebuilds a tuple access from its reduced parts.
pub fn rebuild_tuple_access(
    tuple_access: &TupleAccessExpression,
    tuple: Expression,
) -> (r: TupleAccessExpression)
    ensures
        r@ == rebuilt_tuple_access(tuple_access@, tuple@),
{
    TupleAccessExpression {
        tuple: Box::new(tuple),
        index: tuple_access.index,
        span: tuple_access.span,
    }
}

/// The node that stands for a member of a circuit initialiser when nothing is rewritten.
pub open spec fn rebuilt_circuit_implied_variable_definition(
    variable: CircuitImpliedVariableDefinitionView,
    identifier: IdentifierView,
    expression: Option<ExpressionView>,
) -> CircuitImpliedVariableDefinitionView {
    CircuitImpliedVariableDefinitionView {
        identifier: identifier,
        expression: expression,
    }
}

/// Rebuilds a member of a circuit initialiser from its reduced parts.
pub fn rebuild_circuit_implied_variable_definition(
    variable: &CircuitImpliedVariableDefinition,
    identifier: Identifier,
    expression: Option<Expression>,
) -> (r: CircuitImpliedVariableDefinition)
    ensures
        r@ == rebuilt_circuit_implied_variable_definition(
            variable@,
            identifier@,
            option_view(expression),
        ),
{
    CircuitImpliedVariableDefinition {
        identifier: identifier,
        expression: expression,
    }
}

/// The node that stands for a circuit initialiser when nothing is rewritten.
pub open spec fn rebuilt_circuit_init(
    circuit_init: CircuitInitExpressionView,
    name: IdentifierView,
    members: Seq<CircuitImpliedVariableDefinitionView>,
) -> CircuitInitExpressionView {
    CircuitInitExpressionView {
        name: name,
        members: members,
        span: circuit_init.span,
    }
}

/// Rebuilds a circuit initialiser from its reduced parts.
pub fn rebuild_circuit_init(
    circuit_init: &CircuitInitExpression,
    name: Identifier,
    members: Vec<CircuitImpliedVariableDefinition>,
) -> (r: CircuitInitExpression)
    ensures
        r@ == rebuilt_circuit_init(
            circuit_init@,
            name@,
            circuit_implied_variable_definition_seq_view(members@),
        ),
{
    CircuitInitExpression {
        name: name,
        members: members,
        span: circuit_init.span,
    }
}

/// The node that stands for a circuit member access when nothing is rewritten.
pub open spec fn rebuilt_circuit_member_access(
    circuit_member_access: CircuitMemberAccessExpressionView,
    circuit: ExpressionView,
    name: IdentifierView,
) -> CircuitMemberAccessExpressionView {
    CircuitMemberAccessExpressionView {
        circuit: Box::new(circuit),
        name: name,
        span: circuit_member_access.span,
    }
}

/// Rebuilds a circuit member access from its reduced parts.
pub fn rebuild_circuit_member_access(
    circuit_member_access: &CircuitMemberAccessExpression,
    circuit: Expression,
    name: Identifier,
) -> (r: CircuitMemberAccessExpression)
    ensures
        r@ == rebuilt_circuit_member_access(circuit_member_access@, circuit@, name@),
{
    CircuitMemberAccessExpression {
        circuit: Box::new(circuit),
        name: name,
        span: circuit_member_access.span,
    }
}

/// The node that stands for a static function access when nothing is rewritten.
pub open spec fn rebuilt_circuit_static_fn_access(
    circuit_static_fn_access: CircuitStaticFunctionAccessExpressionView,
    circuit: ExpressionView,
    name: IdentifierView,
) -> CircuitStaticFunctionAccessExpressionView {
    CircuitStaticFunctionAccessExpressionView {
        circuit: Box::new(circuit),
        name: name,
        span: circuit_static_fn_access.span,
    }
}

/// Rebuilds a static function access from its reduced parts.
pub fn rebuild_circuit_static_fn_access(
    circuit_static_fn_access: &CircuitStaticFunctionAccessExpression,
    circuit: Expression,
    name: Identifier,
) -> (r: CircuitStaticFunctionAccessExpression)
    ensures
        r@ == rebuilt_circuit_static_fn_access(circuit_static_fn_access@, circuit@, name@),
{
    CircuitStaticFunctionAccessExpression {
        circuit: Box::new(circuit),
        name: name,
        span: circuit_static_fn_access.span,
    }
}

/// The node that stands for a call when nothing is rewritten.
pub open spec fn rebuilt_call(
    call: CallExpressionView,
    function: ExpressionView,
    arguments: Seq<ExpressionView>,
) -> CallExpressionView {
    CallExpressionView {
        function: Box::new(function),
        arguments: arguments,
        span: call.span,
    }
}

/// Rebuilds a call from its reduced parts.
pub fn rebuild_call(
    call: &CallExpression,
    function: Expression,
    arguments: Vec<Expression>,
) -> (r: CallExpression)
    ensures
        r@ == rebuilt_call(call@, function@, expression_seq_view(arguments@)),
{
    CallExpression {
        function: Box::new(function),
        arguments: arguments,
        span: call.span,
    }
}

/// The node that stands for a return when nothing is rewritten.
pub open spec fn rebuilt_return(
    return_statement: ReturnStatementView,
    expression: ExpressionView,
) -> ReturnStatementView {
    ReturnStatementView {
        expression: expression,
        span: return_statement.span,
    }
}

/// Rebuilds a return from its reduced parts.
pub fn rebuild_return(
    return_statement: &ReturnStatement,
    expression: Expression,
) -> (r: ReturnStatement)
    ensures
        r@ == rebuilt_return(return_statement@, expression@),
{
    ReturnStatement {
        expression: expression,
        span: return_statement.span,
    }
}

/// The node that stands for a variable name when nothing is rewritten.
pub open spec fn rebuilt_variable_name(
    variable_name: VariableNameView,
    identifier: IdentifierView,
) -> VariableNameView {
    VariableNameView {
        mutable: variable_name.mutable,
        identifier: identifier,
        span: variable_name.span,
    }
}

/// Rebuilds a variable name from its reduced parts.
pub fn rebuild_variable_name(
    variable_name: &VariableName,
    identifier: Identifier,
) -> (r: VariableName)
    ensures
        r@ == rebuilt_variable_name(variable_name@, identifier@),
{
    VariableName {
        mutable: variable_name.mutable,
        identifier: identifier,
        span: variable_name.span,
    }
}

/// The node that stands for a definition when nothing is rewritten.
pub open spec fn rebuilt_definition(
    definition: DefinitionStatementView,
    variable_names: Seq<VariableNameView>,
    type_: Option<TypeView>,
    value: ExpressionView,
) -> DefinitionStatementView {
    DefinitionStatementView {
        declaration_type: definition.declaration_type,
        variable_names: variable_names,
        type_: type_,
        value: value,
        span: definition.span,
    }
}

/// Rebuilds a definition from its reduced parts.
pub fn rebuild_definition(
    definition: &DefinitionStatement,
    variable_names: Vec<VariableName>,
    type_: Option<Type>,
    value: Expression,
) -> (r: DefinitionStatement)
    ensures
        r@ == rebuilt_definition(
            definition@,
            variable_name_seq_view(variable_names@),
            option_view(type_),
            value@,
        ),
{
    DefinitionStatement {
        declaration_type: definition.declaration_type,
        variable_names: variable_names,
        type_: type_,
        value: value,
        span: definition.span,
    }
}

/// The node that stands for an assignee when nothing is rewritten.
pub open spec fn rebuilt_assignee(
    assignee: AssigneeView,
    identifier: IdentifierView,
    accesses: Seq<AssigneeAccessView>,
) -> AssigneeView {
    AssigneeView {
        identifier: identifier,
        accesses: accesses,
        span: assignee.span,
    }
}

/// Rebuilds an assignee from its reduced parts.
pub fn rebuild_assignee(
    assignee: &Assignee,
    identifier: Identifier,
    accesses: Vec<AssigneeAccess>,
) -> (r: Assignee)
    ensures
        r@ == rebuilt_assignee(assignee@, identifier@, assignee_access_seq_view(accesses@)),
{
    Assignee {
        identifier: identifier,
        accesses: accesses,
        span: assignee.span,
    }
}

/// The node that stands for an assignment when nothing is rewritten.
pub open spec fn rebuilt_assign(
    assign: AssignStatementView,
    assignee: AssigneeView,
    value: ExpressionView,
) -> AssignStatementView {
    AssignStatementView {
        operation: assign.operation,
        assignee: assignee,
        value: value,
        span: assign.span,
    }
}

/// Rebuilds an assignment from its reduced parts.
pub fn rebuild_assign(
    assign: &AssignStatement,
    assignee: Assignee,
    value: Expression,
) -> (r: AssignStatement)
    ensures
        r@ == rebuilt_assign(assign@, assignee@, value@),
{
    AssignStatement {
        operation: assign.operation,
        assignee: assignee,
        value: value,
        span: assign.span,
    }
}

/// The node that stands for a conditional when nothing is rewritten.
pub open spec fn rebuilt_conditional(
    conditional: ConditionalStatementView,
    condition: ExpressionView,
    block: BlockView,
    next: Option<StatementView>,
) -> ConditionalStatementView {
    ConditionalStatementView {
        condition: condition,
        block: block,
        next: match next { Some(v) => Some(Box::new(v)), None => None },
        span: conditional.span,
    }
}

/// Rebuilds a conditional from its reduced parts.
pub fn rebuild_conditional(
    conditional: &ConditionalStatement,
    condition: Expression,
    block: Block,
    next: Option<Statement>,
) -> (r: ConditionalStatement)
    ensures
        r@ == rebuilt_conditional(conditional@, condition@, block@, option_view(next)),
{
    ConditionalStatement {
        condition: condition,
        block: block,
        next: match next { Some(v) => Some(Box::new(v)), None => None },
        span: conditional.span,
    }
}

/// The node that stands for a loop when nothing is rewritten.
pub open spec fn rebuilt_iteration(
    iteration: IterationStatementView,
    variable: IdentifierView,
    start: ExpressionView,
    stop: ExpressionView,
    block: BlockView,
) -> IterationStatementView {
    IterationStatementView {
        variable: variable,
        start: start,
        stop: stop,
        block: block,
        span: iteration.span,
    }
}

/// Rebuilds a loop from its reduced parts.
pub fn rebuild_iteration(
    iteration: &IterationStatement,
    variable: Identifier,
    start: Expression,
    stop: Expression,
    block: Block,
) -> (r: IterationStatement)
    ensures
        r@ == rebuilt_iteration(iteration@, variable@, start@, stop@, block@),
{
    IterationStatement {
        variable: variable,
        start: start,
        stop: stop,
        block: block,
        span: iteration.span,
    }
}

/// The node that stands for a console statement when nothing is rewritten.
pub open spec fn rebuilt_console(
    console_function_call: ConsoleStatementView,
    function: ConsoleFunctionView,
) -> ConsoleStatementView {
    ConsoleStatementView {
        function: function,
        span: console_function_call.span,
    }
}

/// Rebuilds a console statement from its reduced parts.
pub fn rebuild_console(
    console_function_call: &ConsoleStatement,
    function: ConsoleFunction,
) -> (r: ConsoleStatement)
    ensures
        r@ == rebuilt_console(console_function_call@, function@),
{
    ConsoleStatement {
        function: function,
        span: console_function_call.span,
    }
}

/// The node that stands for an expression statement when nothing is rewritten.
pub open spec fn rebuilt_expression_statement(
    expression_statement: ExpressionStatementView,
    expression: ExpressionView,
) -> ExpressionStatementView {
    ExpressionStatementView {
        expression: expression,
        span: expression_statement.span,
    }
}

/// Rebuilds an expression statement from its reduced parts.
pub fn rebuild_expression_statement(
    expression_statement: &ExpressionStatement,
    expression: Expression,
) -> (r: ExpressionStatement)
    ensures
        r@ == rebuilt_expression_statement(expression_statement@, expression@),
{
    ExpressionStatement {
        expression: expression,
        span: expression_statement.span,
    }
}

/// The node that stands for a block when nothing is rewritten.
pub open spec fn rebuilt_block(block: BlockView, statements: Seq<StatementView>) -> BlockView {
    BlockView {
        statements: statements,
        span: block.span,
    }
}

/// Rebuilds a block from its reduced parts.
pub fn rebuild_block(block: &Block, statements: Vec<Statement>) -> (r: Block)
    ensures
        r@ == rebuilt_block(block@, statement_seq_view(statements@)),
{
    Block {
        statements: statements,
        span: block.span,
    }
}

/// The node that stands for a program when nothing is rewritten.
pub open spec fn rebuilt_program(
    program: ProgramView,
    expected_input: Seq<FunctionInputView>,
    imports: Seq<ImportStatementView>,
    circuits: Seq<(IdentifierView, CircuitView)>,
    functions: Seq<(IdentifierView, FunctionView)>,
) -> ProgramView {
    ProgramView {
        name: program.name,
        expected_input: expected_input,
        imports: imports,
        circuits: circuits,
        functions: functions,
    }
}

/// Rebuilds a program from its reduced parts.
pub fn rebuild_program(
    program: &Program,
    expected_input: Vec<FunctionInput>,
    imports: Vec<ImportStatement>,
    circuits: IndexMap<Identifier, Circuit>,
    functions: IndexMap<Identifier, Function>,
) -> (r: Program)
    ensures
        r@ == rebuilt_program(
            program@,
            function_input_seq_view(expected_input@),
            import_statement_seq_view(imports@),
            circuits_view(circuit_entries(circuits)),
            functions_view(function_entries(functions)),
        ),
{
    Program {
        name: program.name.clone(),
        expected_input: expected_input,
        imports: imports,
        circuits: circuits,
        functions: functions,
    }
}

/// The node that stands for an input variable of a function when nothing is rewritten.
pub open spec fn rebuilt_function_input_variable(
    variable: FunctionInputVariableView,
    identifier: IdentifierView,
    type_: TypeView,
) -> FunctionInputVariableView {
    FunctionInputVariableView {
        identifier: identifier,
        const_: variable.const_,
        mutable: variable.mutable,
        type_: type_,
        span: variable.span,
    }
}

/// Rebuilds an input variable of a function from its reduced parts.
pub fn rebuild_function_input_variable(
    variable: &FunctionInputVariable,
    identifier: Identifier,
    type_: Type,
) -> (r: FunctionInputVariable)
    ensures
        r@ == rebuilt_function_input_variable(variable@, identifier@, type_@),
{
    FunctionInputVariable {
        identifier: identifier,
        const_: variable.const_,
        mutable: variable.mutable,
        type_: type_,
        span: variable.span,
    }
}

/// The node that stands for an import when nothing is rewritten.
pub open spec fn rebuilt_import(
    import: ImportStatementView,
    package_or_packages: PackageOrPackagesView,
) -> ImportStatementView {
    ImportStatementView {
        package_or_packages: package_or_packages,
        span: import.span,
    }
}

/// Rebuilds an import from its reduced parts.
pub fn rebuild_import(
    import: &ImportStatement,
    package_or_packages: PackageOrPackages,
) -> (r: ImportStatement)
    ensures
        r@ == rebuilt_import(import@, package_or_packages@),
{
    ImportStatement {
        package_or_packages: package_or_packages,
        span: import.span,
    }
}

/// The node that stands for a circuit when nothing is rewritten.
pub open spec fn rebuilt_circuit(
    circuit: CircuitView,
    circuit_name: IdentifierView,
    members: Seq<CircuitMemberView>,
) -> CircuitView {
    CircuitView {
        circuit_name: circuit_name,
        members: members,
    }
}

/// Rebuilds a circuit from its reduced parts.
pub fn rebuild_circuit(
    circuit: &Circuit,
    circuit_name: Identifier,
    members: Vec<CircuitMember>,
) -> (r: Circuit)
    ensures
        r@ == rebuilt_circuit(circuit@, circuit_name@, circuit_member_seq_view(members@)),
{
    Circuit {
        circuit_name: circuit_name,
        members: members,
    }
}

/// The node that stands for an annotation when nothing is rewritten.
pub open spec fn rebuilt_annotation(
    annotation: AnnotationView,
    name: IdentifierView,
) -> AnnotationView {
    AnnotationView {
        span: annotation.span,
        name: name,
        arguments: annotation.arguments,
    }
}

/// Rebuilds an annotation from its reduced parts.
pub fn rebuild_annotation(annotation: &Annotation, name: Identifier) -> (r: Annotation)
    ensures
        r@ == rebuilt_annotation(annotation@, name@),
{
    Annotation {
        span: annotation.span,
        name: name,
        arguments: clone_strings(&annotation.arguments),
    }
}

/// The node that stands for a function when nothing is rewritten.
pub open spec fn rebuilt_function(
    function: FunctionView,
    identifier: IdentifierView,
    annotations: Seq<AnnotationView>,
    input: Seq<FunctionInputView>,
    output: Option<TypeView>,
    block: BlockView,
) -> FunctionView {
    FunctionView {
        annotations: annotations,
        identifier: identifier,
        input: input,
        output: output,
        block: block,
        span: function.span,
    }
}

/// Rebuilds a function from its reduced parts.
pub fn rebuild_function(
    function: &Function,
    identifier: Identifier,
    annotations: Vec<Annotation>,
    input: Vec<FunctionInput>,
    output: Option<Type>,
    block: Block,
) -> (r: Function)
    ensures
        r@ == rebuilt_function(
            function@,
            identifier@,
            annotation_seq_view(annotations@),
            function_input_seq_view(input@),
            option_view(output),
            block@,
        ),
{
    Function {
        annotations: annotations,
        identifier: identifier,
        input: input,
        output: output,
        block: block,
        span: function.span,
    }
}

} // verus!
