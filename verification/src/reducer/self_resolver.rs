//! Making the receiver explicit in the members of a circuit.
use crate::ast::common::{Identifier, IdentifierView};
use crate::ast::expression::{
    ArrayAccessExpression, ArrayAccessExpressionView, ArrayInitExpression, ArrayInitExpressionView,
    ArrayInlineExpression, ArrayInlineExpressionView, ArrayRangeAccessExpression,
    ArrayRangeAccessExpressionView, BinaryExpression, BinaryExpressionView, BinaryOperation,
    CallExpression, CallExpressionView, CastExpression, CastExpressionView,
    CircuitImpliedVariableDefinition, CircuitImpliedVariableDefinitionView, CircuitInitExpression,
    CircuitInitExpressionView, CircuitMemberAccessExpression, CircuitMemberAccessExpressionView,
    CircuitStaticFunctionAccessExpression, CircuitStaticFunctionAccessExpressionView, Expression,
    ExpressionView, GroupTuple, GroupTupleView, GroupValue, GroupValueView, SpreadOrExpression,
    SpreadOrExpressionView, TernaryExpression, TernaryExpressionView, TupleAccessExpression,
    TupleAccessExpressionView, TupleInitExpression, TupleInitExpressionView, UnaryExpression,
    UnaryExpressionView, UnaryOperation, ValueExpression, ValueExpressionView,
};
use crate::ast::function::{
    Annotation, AnnotationView, Circuit, CircuitMember, CircuitMemberView, CircuitView, Function,
    FunctionInput, FunctionInputVariable, FunctionInputVariableView, FunctionInputView,
    FunctionView,
};
use crate::ast::imports::{
    ImportStatement, ImportStatementView, PackageOrPackages, PackageOrPackagesView,
};
use crate::ast::program::{Program, ProgramView};
use crate::ast::statement::{
    Assignee, AssigneeAccess, AssigneeAccessView, AssigneeView, AssignStatement,
    AssignStatementView, Block, BlockView, ConditionalStatement, ConditionalStatementView,
    ConsoleFunction, ConsoleFunctionView, ConsoleStatement, ConsoleStatementView,
    DefinitionStatement, DefinitionStatementView, ExpressionStatement, ExpressionStatementView,
    IterationStatement, IterationStatementView, ReturnStatement, ReturnStatementView, Statement,
    StatementView, VariableName, VariableNameView,
};
use crate::ast::types::{Type, TypeView};
use crate::errors::CanonicalizeError;
use crate::reducer::reconstructing_reducer::{
    rebuild_annotation, rebuild_array_access, rebuild_array_init, rebuild_array_inline,
    rebuild_array_range_access, rebuild_assign, rebuild_assignee, rebuild_binary, rebuild_block,
    rebuild_call, rebuild_cast, rebuild_circuit, rebuild_circuit_implied_variable_definition,
    rebuild_circuit_init, rebuild_circuit_member_access, rebuild_circuit_static_fn_access,
    rebuild_conditional, rebuild_console, rebuild_definition, rebuild_expression_statement,
    rebuild_function, rebuild_function_input_variable, rebuild_group_tuple, rebuild_identifier,
    rebuild_import, rebuild_iteration, rebuild_program, rebuild_return, rebuild_ternary,
    rebuild_tuple_access, rebuild_tuple_init, rebuild_unary, rebuild_variable_name,
    rebuilt_annotation, rebuilt_array_access, rebuilt_array_init, rebuilt_array_inline,
    rebuilt_array_range_access, rebuilt_assign, rebuilt_assignee, rebuilt_binary, rebuilt_block,
    rebuilt_call, rebuilt_cast, rebuilt_circuit, rebuilt_circuit_implied_variable_definition,
    rebuilt_circuit_init, rebuilt_circuit_member_access, rebuilt_circuit_static_fn_access,
    rebuilt_conditional, rebuilt_console, rebuilt_definition, rebuilt_expression_statement,
    rebuilt_function, rebuilt_function_input_variable, rebuilt_group_tuple, rebuilt_identifier,
    rebuilt_import, rebuilt_iteration, rebuilt_program, rebuilt_return, rebuilt_ternary,
    rebuilt_tuple_access, rebuilt_tuple_init, rebuilt_unary, rebuilt_variable_name,
    ReconstructingReducer,
};
use crate::span::Span;
use crate::ast::common::strings_view;
use vstd::string::*;
use indexmap::IndexMap;
use vstd::prelude::*;

verus! {

/// The reducer that makes the receiver explicit in the members of one circuit:
/// `Self` becomes the name of the circuit, as a type and as a name, and a name
/// that stands for a member of the circuit becomes an access of that member on
/// `self`.
#[derive(Debug, PartialEq, Eq)]
pub struct SelfResolver {
    /// The name of the circuit.
    pub circuit_name: String,
    /// The names that stand for members of the circuit.
    pub receivers: Vec<String>,
}

/// What a `SelfResolver` is, with its texts as sequences.
pub struct SelfResolverView {
    pub circuit_name: Seq<char>,
    pub receivers: Seq<Seq<char>>,
}

impl View for SelfResolver {
    type V = SelfResolverView;

    open spec fn view(&self) -> SelfResolverView {
        SelfResolverView {
            circuit_name: self.circuit_name@,
            receivers: strings_view(self.receivers@),
        }
    }
}

/// The identifier that takes the place of `identifier`: `Self` becomes the
/// name of the circuit, at the same place.
pub open spec fn resolved_identifier(
    state: SelfResolverView,
    identifier: IdentifierView,
) -> IdentifierView {
    if identifier.name == "Self"@ {
        IdentifierView { name: state.circuit_name, span: identifier.span }
    } else {
        identifier
    }
}

/// The type that takes the place of `new`: `Self` becomes the circuit.
pub open spec fn resolved_type(state: SelfResolverView, new: TypeView, span: Span) -> TypeView {
    match new {
        TypeView::SelfType => TypeView::Circuit(
            IdentifierView { name: state.circuit_name, span },
        ),
        _ => new,
    }
}

/// The expression that takes the place of `new`: a name is resolved, and where
/// it then stands for a member it becomes an access of that member on `self`,
/// at the same place.
pub open spec fn resolved_expression(
    state: SelfResolverView,
    new: ExpressionView,
) -> ExpressionView {
    match new {
        ExpressionView::Identifier(identifier) => {
            let name = resolved_identifier(state, identifier);
            if state.receivers.contains(name.name) {
                ExpressionView::CircuitMemberAccess(
                    CircuitMemberAccessExpressionView {
                        circuit: Box::new(
                            ExpressionView::Identifier(
                                IdentifierView { name: "self"@, span: name.span },
                            ),
                        ),
                        name,
                        span: name.span,
                    },
                )
            } else {
                ExpressionView::Identifier(name)
            }
        },
        _ => new,
    }
}

/// True if `name` is one of `names`.
pub fn contains_name(names: &Vec<String>, name: &String) -> (r: bool)
    ensures
        r == strings_view(names@).contains(name@),
{
    let mut i: usize = 0;
    while i < names.len()
        invariant
            i <= names.len(),
            forall|j: int| 0 <= j < i ==> strings_view(names@)[j] != name@,
        decreases names.len() - i,
    {
        if names[i] == *name {
            assert(strings_view(names@)[i as int] == name@);
            return true;
        }
        i = i + 1;
    }
    false
}

impl SelfResolver {
    /// The identifier that takes the place of `identifier`.
    pub fn resolve_identifier(&self, identifier: Identifier) -> (r: Identifier)
        ensures
            r@ == resolved_identifier(self@, identifier@),
    {
        let keyword = String::from_str("Self");
        if identifier.name == keyword {
            Identifier { name: self.circuit_name.clone(), span: identifier.span }
        } else {
            identifier
        }
    }

    /// The expression that takes the place of `new`.
    pub fn resolve_expression(&self, new: Expression) -> (r: Expression)
        ensures
            r@ == resolved_expression(self@, new@),
    {
        match new {
            Expression::Identifier(identifier) => {
                let name = self.resolve_identifier(identifier);
                if contains_name(&self.receivers, &name.name) {
                    let span = name.span;
                    let receiver = Expression::Identifier(
                        Identifier { name: String::from_str("self"), span },
                    );
                    assert(receiver@ == ExpressionView::Identifier(
                        IdentifierView { name: "self"@, span },
                    ));
                    Expression::CircuitMemberAccess(
                        CircuitMemberAccessExpression { circuit: Box::new(receiver), name, span },
                    )
                } else {
                    Expression::Identifier(name)
                }
            },
            other => other,
        }
    }
}

impl ReconstructingReducer for SelfResolver {
    open spec fn reduce_type_spec(
        state: SelfResolverView,
        type_: TypeView,
        new: TypeView,
        in_circuit: bool,
        span: Span,
    ) -> (SelfResolverView, Result<TypeView, CanonicalizeError>) {
        (state, Ok(resolved_type(state, new, span)))
    }

    fn reduce_type(
        &mut self,
        type_: &Type,
        new: Type,
        in_circuit: bool,
        span: &Span,
    ) -> (r: Result<Type, CanonicalizeError>) {
        match new {
            Type::SelfType => Ok(
                Type::Circuit(Identifier { name: self.circuit_name.clone(), span: *span }),
            ),
            other => Ok(other),
        }
    }

    open spec fn reduce_expression_spec(
        state: SelfResolverView,
        expression: ExpressionView,
        new: ExpressionView,
        in_circuit: bool,
    ) -> (SelfResolverView, Result<ExpressionView, CanonicalizeError>) {
        (state, Ok(resolved_expression(state, new)))
    }

    fn reduce_expression(
        &mut self,
        expression: &Expression,
        new: Expression,
        in_circuit: bool,
    ) -> (r: Result<Expression, CanonicalizeError>) {
        Ok(self.resolve_expression(new))
    }

    open spec fn reduce_identifier_spec(
        state: SelfResolverView,
        identifier: IdentifierView,
    ) -> (SelfResolverView, Result<IdentifierView, CanonicalizeError>) {
        (state, Ok(rebuilt_identifier(identifier)))
    }

    fn reduce_identifier(
        &mut self,
        identifier: &Identifier,
    ) -> (r: Result<Identifier, CanonicalizeError>) {
        Ok(rebuild_identifier(identifier))
    }

    open spec fn reduce_group_tuple_spec(
        state: SelfResolverView,
        group_tuple: GroupTupleView,
    ) -> (SelfResolverView, Result<GroupTupleView, CanonicalizeError>) {
        (state, Ok(rebuilt_group_tuple(group_tuple)))
    }

    fn reduce_group_tuple(
        &mut self,
        group_tuple: &GroupTuple,
    ) -> (r: Result<GroupTuple, CanonicalizeError>) {
        Ok(rebuild_group_tuple(group_tuple))
    }

    open spec fn reduce_group_value_spec(
        state: SelfResolverView,
        group_value: GroupValueView,
        new: GroupValueView,
    ) -> (SelfResolverView, Result<GroupValueView, CanonicalizeError>) {
        (state, Ok(new))
    }

    fn reduce_group_value(
        &mut self,
        group_value: &GroupValue,
        new: GroupValue,
    ) -> (r: Result<GroupValue, CanonicalizeError>) {
        Ok(new)
    }

    open spec fn reduce_value_spec(
        state: SelfResolverView,
        value: ValueExpressionView,
        new: ValueExpressionView,
    ) -> (SelfResolverView, Result<ValueExpressionView, CanonicalizeError>) {
        (state, Ok(new))
    }

    fn reduce_value(
        &mut self,
        value: &ValueExpression,
        new: ValueExpression,
    ) -> (r: Result<ValueExpression, CanonicalizeError>) {
        Ok(new)
    }

    open spec fn reduce_binary_spec(
        state: SelfResolverView,
        binary: BinaryExpressionView,
        left: ExpressionView,
        right: ExpressionView,
        op: BinaryOperation,
        in_circuit: bool,
    ) -> (SelfResolverView, Result<BinaryExpressionView, CanonicalizeError>) {
        (state, Ok(rebuilt_binary(binary, left, right, op)))
    }

    fn reduce_binary(
        &mut self,
        binary: &BinaryExpression,
        left: Expression,
        right: Expression,
        op: BinaryOperation,
        in_circuit: bool,
    ) -> (r: Result<BinaryExpression, CanonicalizeError>) {
        Ok(rebuild_binary(binary, left, right, op))
    }

    open spec fn reduce_unary_spec(
        state: SelfResolverView,
        unary: UnaryExpressionView,
        inner: ExpressionView,
        op: UnaryOperation,
        in_circuit: bool,
    ) -> (SelfResolverView, Result<UnaryExpressionView, CanonicalizeError>) {
        (state, Ok(rebuilt_unary(unary, inner, op)))
    }

    fn reduce_unary(
        &mut self,
        unary: &UnaryExpression,
        inner: Expression,
        op: UnaryOperation,
        in_circuit: bool,
    ) -> (r: Result<UnaryExpression, CanonicalizeError>) {
        Ok(rebuild_unary(unary, inner, op))
    }

    open spec fn reduce_ternary_spec(
        state: SelfResolverView,
        ternary: TernaryExpressionView,
        condition: ExpressionView,
        if_true: ExpressionView,
        if_false: ExpressionView,
        in_circuit: bool,
    ) -> (SelfResolverView, Result<TernaryExpressionView, CanonicalizeError>) {
        (state, Ok(rebuilt_ternary(ternary, condition, if_true, if_false)))
    }

    fn reduce_ternary(
        &mut self,
        ternary: &TernaryExpression,
        condition: Expression,
        if_true: Expression,
        if_false: Expression,
        in_circuit: bool,
    ) -> (r: Result<TernaryExpression, CanonicalizeError>) {
        Ok(rebuild_ternary(ternary, condition, if_true, if_false))
    }

    open spec fn reduce_cast_spec(
        state: SelfResolverView,
        cast: CastExpressionView,
        inner: ExpressionView,
        target_type: TypeView,
        in_circuit: bool,
    ) -> (SelfResolverView, Result<CastExpressionView, CanonicalizeError>) {
        (state, Ok(rebuilt_cast(cast, inner, target_type)))
    }

    fn reduce_cast(
        &mut self,
        cast: &CastExpression,
        inner: Expression,
        target_type: Type,
        in_circuit: bool,
    ) -> (r: Result<CastExpression, CanonicalizeError>) {
        Ok(rebuild_cast(cast, inner, target_type))
    }

    open spec fn reduce_array_inline_spec(
        state: SelfResolverView,
        array_inline: ArrayInlineExpressionView,
        elements: Seq<SpreadOrExpressionView>,
        in_circuit: bool,
    ) -> (SelfResolverView, Result<ArrayInlineExpressionView, CanonicalizeError>) {
        (state, Ok(rebuilt_array_inline(array_inline, elements)))
    }

    fn reduce_array_inline(
        &mut self,
        array_inline: &ArrayInlineExpression,
        elements: Vec<SpreadOrExpression>,
        in_circuit: bool,
    ) -> (r: Result<ArrayInlineExpression, CanonicalizeError>) {
        Ok(rebuild_array_inline(array_inline, elements))
    }

    open spec fn reduce_array_init_spec(
        state: SelfResolverView,
        array_init: ArrayInitExpressionView,
        element: ExpressionView,
        in_circuit: bool,
    ) -> (SelfResolverView, Result<ArrayInitExpressionView, CanonicalizeError>) {
        (state, Ok(rebuilt_array_init(array_init, element)))
    }

    fn reduce_array_init(
        &mut self,
        array_init: &ArrayInitExpression,
        element: Expression,
        in_circuit: bool,
    ) -> (r: Result<ArrayInitExpression, CanonicalizeError>) {
        Ok(rebuild_array_init(array_init, element))
    }

    open spec fn reduce_array_access_spec(
        state: SelfResolverView,
        array_access: ArrayAccessExpressionView,
        array: ExpressionView,
        index: ExpressionView,
        in_circuit: bool,
    ) -> (SelfResolverView, Result<ArrayAccessExpressionView, CanonicalizeError>) {
        (state, Ok(rebuilt_array_access(array_access, array, index)))
    }

    fn reduce_array_access(
        &mut self,
        array_access: &ArrayAccessExpression,
        array: Expression,
        index: Expression,
        in_circuit: bool,
    ) -> (r: Result<ArrayAccessExpression, CanonicalizeError>) {
        Ok(rebuild_array_access(array_access, array, index))
    }

    open spec fn reduce_array_range_access_spec(
        state: SelfResolverView,
        array_range_access: ArrayRangeAccessExpressionView,
        array: ExpressionView,
        left: Option<ExpressionView>,
        right: Option<ExpressionView>,
        in_circuit: bool,
    ) -> (SelfResolverView, Result<ArrayRangeAccessExpressionView, CanonicalizeError>) {
        (state, Ok(rebuilt_array_range_access(array_range_access, array, left, right)))
    }

    fn reduce_array_range_access(
        &mut self,
        array_range_access: &ArrayRangeAccessExpression,
        array: Expression,
        left: Option<Expression>,
        right: Option<Expression>,
        in_circuit: bool,
    ) -> (r: Result<ArrayRangeAccessExpression, CanonicalizeError>) {
        Ok(rebuild_array_range_access(array_range_access, array, left, right))
    }

    open spec fn reduce_tuple_init_spec(
        state: SelfResolverView,
        tuple_init: TupleInitExpressionView,
        elements: Seq<ExpressionView>,
        in_circuit: bool,
    ) -> (SelfResolverView, Result<TupleInitExpressionView, CanonicalizeError>) {
        (state, Ok(rebuilt_tuple_init(tuple_init, elements)))
    }

    fn reduce_tuple_init(
        &mut self,
        tuple_init: &TupleInitExpression,
        elements: Vec<Expression>,
        in_circuit: bool,
    ) -> (r: Result<TupleInitExpression, CanonicalizeError>) {
        Ok(rebuild_tuple_init(tuple_init, elements))
    }

    open spec fn reduce_tuple_access_spec(
        state: SelfResolverView,
        tuple_access: TupleAccessExpressionView,
        tuple: ExpressionView,
        in_circuit: bool,
    ) -> (SelfResolverView, Result<TupleAccessExpressionView, CanonicalizeError>) {
        (state, Ok(rebuilt_tuple_access(tuple_access, tuple)))
    }

    fn reduce_tuple_access(
        &mut self,
        tuple_access: &TupleAccessExpression,
        tuple: Expression,
        in_circuit: bool,
    ) -> (r: Result<TupleAccessExpression, CanonicalizeError>) {
        Ok(rebuild_tuple_access(tuple_access, tuple))
    }

    open spec fn reduce_circuit_implied_variable_definition_spec(
        state: SelfResolverView,
        variable: CircuitImpliedVariableDefinitionView,
        identifier: IdentifierView,
        expression: Option<ExpressionView>,
        in_circuit: bool,
    ) -> (SelfResolverView, Result<CircuitImpliedVariableDefinitionView, CanonicalizeError>) {
        (state, Ok(rebuilt_circuit_implied_variable_definition(variable, identifier, expression)))
    }

    fn reduce_circuit_implied_variable_definition(
        &mut self,
        variable: &CircuitImpliedVariableDefinition,
        identifier: Identifier,
        expression: Option<Expression>,
        in_circuit: bool,
    ) -> (r: Result<CircuitImpliedVariableDefinition, CanonicalizeError>) {
        Ok(rebuild_circuit_implied_variable_definition(variable, identifier, expression))
    }

    open spec fn reduce_circuit_init_spec(
        state: SelfResolverView,
        circuit_init: CircuitInitExpressionView,
        name: IdentifierView,
        members: Seq<CircuitImpliedVariableDefinitionView>,
        in_circuit: bool,
    ) -> (SelfResolverView, Result<CircuitInitExpressionView, CanonicalizeError>) {
        (state, Ok(rebuilt_circuit_init(circuit_init, resolved_identifier(state, name), members)))
    }

    fn reduce_circuit_init(
        &mut self,
        circuit_init: &CircuitInitExpression,
        name: Identifier,
        members: Vec<CircuitImpliedVariableDefinition>,
        in_circuit: bool,
    ) -> (r: Result<CircuitInitExpression, CanonicalizeError>) {
        let name = self.resolve_identifier(name);
        Ok(rebuild_circuit_init(circuit_init, name, members))
    }

    open spec fn reduce_circuit_member_access_spec(
        state: SelfResolverView,
        circuit_member_access: CircuitMemberAccessExpressionView,
        circuit: ExpressionView,
        name: IdentifierView,
        in_circuit: bool,
    ) -> (SelfResolverView, Result<CircuitMemberAccessExpressionView, CanonicalizeError>) {
        (state, Ok(rebuilt_circuit_member_access(circuit_member_access, circuit, name)))
    }

    fn reduce_circuit_member_access(
        &mut self,
        circuit_member_access: &CircuitMemberAccessExpression,
        circuit: Expression,
        name: Identifier,
        in_circuit: bool,
    ) -> (r: Result<CircuitMemberAccessExpression, CanonicalizeError>) {
        Ok(rebuild_circuit_member_access(circuit_member_access, circuit, name))
    }

    open spec fn reduce_circuit_static_fn_access_spec(
        state: SelfResolverView,
        circuit_static_fn_access: CircuitStaticFunctionAccessExpressionView,
        circuit: ExpressionView,
        name: IdentifierView,
        in_circuit: bool,
    ) -> (SelfResolverView, Result<CircuitStaticFunctionAccessExpressionView, CanonicalizeError>) {
        (state, Ok(rebuilt_circuit_static_fn_access(circuit_static_fn_access, circuit, name)))
    }

    fn reduce_circuit_static_fn_access(
        &mut self,
        circuit_static_fn_access: &CircuitStaticFunctionAccessExpression,
        circuit: Expression,
        name: Identifier,
        in_circuit: bool,
    ) -> (r: Result<CircuitStaticFunctionAccessExpression, CanonicalizeError>) {
        Ok(rebuild_circuit_static_fn_access(circuit_static_fn_access, circuit, name))
    }

    open spec fn reduce_call_spec(
        state: SelfResolverView,
        call: CallExpressionView,
        function: ExpressionView,
        arguments: Seq<ExpressionView>,
        in_circuit: bool,
    ) -> (SelfResolverView, Result<CallExpressionView, CanonicalizeError>) {
        (state, Ok(rebuilt_call(call, function, arguments)))
    }

    fn reduce_call(
        &mut self,
        call: &CallExpression,
        function: Expression,
        arguments: Vec<Expression>,
        in_circuit: bool,
    ) -> (r: Result<CallExpression, CanonicalizeError>) {
        Ok(rebuild_call(call, function, arguments))
    }

    open spec fn reduce_statement_spec(
        state: SelfResolverView,
        statement: StatementView,
        new: StatementView,
        in_circuit: bool,
    ) -> (SelfResolverView, Result<StatementView, CanonicalizeError>) {
        (state, Ok(new))
    }

    fn reduce_statement(
        &mut self,
        statement: &Statement,
        new: Statement,
        in_circuit: bool,
    ) -> (r: Result<Statement, CanonicalizeError>) {
        Ok(new)
    }

    open spec fn reduce_return_spec(
        state: SelfResolverView,
        return_statement: ReturnStatementView,
        expression: ExpressionView,
        in_circuit: bool,
    ) -> (SelfResolverView, Result<ReturnStatementView, CanonicalizeError>) {
        (state, Ok(rebuilt_return(return_statement, expression)))
    }

    fn reduce_return(
        &mut self,
        return_statement: &ReturnStatement,
        expression: Expression,
        in_circuit: bool,
    ) -> (r: Result<ReturnStatement, CanonicalizeError>) {
        Ok(rebuild_return(return_statement, expression))
    }

    open spec fn reduce_variable_name_spec(
        state: SelfResolverView,
        variable_name: VariableNameView,
        identifier: IdentifierView,
    ) -> (SelfResolverView, Result<VariableNameView, CanonicalizeError>) {
        (state, Ok(rebuilt_variable_name(variable_name, identifier)))
    }

    fn reduce_variable_name(
        &mut self,
        variable_name: &VariableName,
        identifier: Identifier,
    ) -> (r: Result<VariableName, CanonicalizeError>) {
        Ok(rebuild_variable_name(variable_name, identifier))
    }

    open spec fn reduce_definition_spec(
        state: SelfResolverView,
        definition: DefinitionStatementView,
        variable_names: Seq<VariableNameView>,
        type_: Option<TypeView>,
        value: ExpressionView,
        in_circuit: bool,
    ) -> (SelfResolverView, Result<DefinitionStatementView, CanonicalizeError>) {
        (state, Ok(rebuilt_definition(definition, variable_names, type_, value)))
    }

    fn reduce_definition(
        &mut self,
        definition: &DefinitionStatement,
        variable_names: Vec<VariableName>,
        type_: Option<Type>,
        value: Expression,
        in_circuit: bool,
    ) -> (r: Result<DefinitionStatement, CanonicalizeError>) {
        Ok(rebuild_definition(definition, variable_names, type_, value))
    }

    open spec fn reduce_assignee_access_spec(
        state: SelfResolverView,
        access: AssigneeAccessView,
        new: AssigneeAccessView,
        in_circuit: bool,
    ) -> (SelfResolverView, Result<AssigneeAccessView, CanonicalizeError>) {
        (state, Ok(new))
    }

    fn reduce_assignee_access(
        &mut self,
        access: &AssigneeAccess,
        new: AssigneeAccess,
        in_circuit: bool,
    ) -> (r: Result<AssigneeAccess, CanonicalizeError>) {
        Ok(new)
    }

    open spec fn reduce_assignee_spec(
        state: SelfResolverView,
        assignee: AssigneeView,
        identifier: IdentifierView,
        accesses: Seq<AssigneeAccessView>,
        in_circuit: bool,
    ) -> (SelfResolverView, Result<AssigneeView, CanonicalizeError>) {
        (state, Ok(rebuilt_assignee(assignee, identifier, accesses)))
    }

    fn reduce_assignee(
        &mut self,
        assignee: &Assignee,
        identifier: Identifier,
        accesses: Vec<AssigneeAccess>,
        in_circuit: bool,
    ) -> (r: Result<Assignee, CanonicalizeError>) {
        Ok(rebuild_assignee(assignee, identifier, accesses))
    }

    open spec fn reduce_assign_spec(
        state: SelfResolverView,
        assign: AssignStatementView,
        assignee: AssigneeView,
        value: ExpressionView,
        in_circuit: bool,
    ) -> (SelfResolverView, Result<AssignStatementView, CanonicalizeError>) {
        (state, Ok(rebuilt_assign(assign, assignee, value)))
    }

    fn reduce_assign(
        &mut self,
        assign: &AssignStatement,
        assignee: Assignee,
        value: Expression,
        in_circuit: bool,
    ) -> (r: Result<AssignStatement, CanonicalizeError>) {
        Ok(rebuild_assign(assign, assignee, value))
    }

    open spec fn reduce_conditional_spec(
        state: SelfResolverView,
        conditional: ConditionalStatementView,
        condition: ExpressionView,
        block: BlockView,
        next: Option<StatementView>,
        in_circuit: bool,
    ) -> (SelfResolverView, Result<ConditionalStatementView, CanonicalizeError>) {
        (state, Ok(rebuilt_conditional(conditional, condition, block, next)))
    }

    fn reduce_conditional(
        &mut self,
        conditional: &ConditionalStatement,
        condition: Expression,
        block: Block,
        next: Option<Statement>,
        in_circuit: bool,
    ) -> (r: Result<ConditionalStatement, CanonicalizeError>) {
        Ok(rebuild_conditional(conditional, condition, block, next))
    }

    open spec fn reduce_iteration_spec(
        state: SelfResolverView,
        iteration: IterationStatementView,
        variable: IdentifierView,
        start: ExpressionView,
        stop: ExpressionView,
        block: BlockView,
        in_circuit: bool,
    ) -> (SelfResolverView, Result<IterationStatementView, CanonicalizeError>) {
        (state, Ok(rebuilt_iteration(iteration, variable, start, stop, block)))
    }

    fn reduce_iteration(
        &mut self,
        iteration: &IterationStatement,
        variable: Identifier,
        start: Expression,
        stop: Expression,
        block: Block,
        in_circuit: bool,
    ) -> (r: Result<IterationStatement, CanonicalizeError>) {
        Ok(rebuild_iteration(iteration, variable, start, stop, block))
    }

    open spec fn reduce_console_spec(
        state: SelfResolverView,
        console_function_call: ConsoleStatementView,
        function: ConsoleFunctionView,
        in_circuit: bool,
    ) -> (SelfResolverView, Result<ConsoleStatementView, CanonicalizeError>) {
        (state, Ok(rebuilt_console(console_function_call, function)))
    }

    fn reduce_console(
        &mut self,
        console_function_call: &ConsoleStatement,
        function: ConsoleFunction,
        in_circuit: bool,
    ) -> (r: Result<ConsoleStatement, CanonicalizeError>) {
        Ok(rebuild_console(console_function_call, function))
    }

    open spec fn reduce_expression_statement_spec(
        state: SelfResolverView,
        expression_statement: ExpressionStatementView,
        expression: ExpressionView,
        in_circuit: bool,
    ) -> (SelfResolverView, Result<ExpressionStatementView, CanonicalizeError>) {
        (state, Ok(rebuilt_expression_statement(expression_statement, expression)))
    }

    fn reduce_expression_statement(
        &mut self,
        expression_statement: &ExpressionStatement,
        expression: Expression,
        in_circuit: bool,
    ) -> (r: Result<ExpressionStatement, CanonicalizeError>) {
        Ok(rebuild_expression_statement(expression_statement, expression))
    }

    open spec fn reduce_block_spec(
        state: SelfResolverView,
        block: BlockView,
        statements: Seq<StatementView>,
        in_circuit: bool,
    ) -> (SelfResolverView, Result<BlockView, CanonicalizeError>) {
        (state, Ok(rebuilt_block(block, statements)))
    }

    fn reduce_block(
        &mut self,
        block: &Block,
        statements: Vec<Statement>,
        in_circuit: bool,
    ) -> (r: Result<Block, CanonicalizeError>) {
        Ok(rebuild_block(block, statements))
    }

    open spec fn reduce_program_spec(
        state: SelfResolverView,
        program: ProgramView,
        expected_input: Seq<FunctionInputView>,
        imports: Seq<ImportStatementView>,
        circuits: Seq<(IdentifierView, CircuitView)>,
        functions: Seq<(IdentifierView, FunctionView)>,
    ) -> (SelfResolverView, Result<ProgramView, CanonicalizeError>) {
        (state, Ok(rebuilt_program(program, expected_input, imports, circuits, functions)))
    }

    fn reduce_program(
        &mut self,
        program: &Program,
        expected_input: Vec<FunctionInput>,
        imports: Vec<ImportStatement>,
        circuits: IndexMap<Identifier, Circuit>,
        functions: IndexMap<Identifier, Function>,
    ) -> (r: Result<Program, CanonicalizeError>) {
        Ok(rebuild_program(program, expected_input, imports, circuits, functions))
    }

    open spec fn reduce_function_input_variable_spec(
        state: SelfResolverView,
        variable: FunctionInputVariableView,
        identifier: IdentifierView,
        type_: TypeView,
        in_circuit: bool,
    ) -> (SelfResolverView, Result<FunctionInputVariableView, CanonicalizeError>) {
        (state, Ok(rebuilt_function_input_variable(variable, identifier, type_)))
    }

    fn reduce_function_input_variable(
        &mut self,
        variable: &FunctionInputVariable,
        identifier: Identifier,
        type_: Type,
        in_circuit: bool,
    ) -> (r: Result<FunctionInputVariable, CanonicalizeError>) {
        Ok(rebuild_function_input_variable(variable, identifier, type_))
    }

    open spec fn reduce_function_input_spec(
        state: SelfResolverView,
        input: FunctionInputView,
        new: FunctionInputView,
        in_circuit: bool,
    ) -> (SelfResolverView, Result<FunctionInputView, CanonicalizeError>) {
        (state, Ok(new))
    }

    fn reduce_function_input(
        &mut self,
        input: &FunctionInput,
        new: FunctionInput,
        in_circuit: bool,
    ) -> (r: Result<FunctionInput, CanonicalizeError>) {
        Ok(new)
    }

    open spec fn reduce_package_or_packages_spec(
        state: SelfResolverView,
        package_or_packages: PackageOrPackagesView,
        new: PackageOrPackagesView,
    ) -> (SelfResolverView, Result<PackageOrPackagesView, CanonicalizeError>) {
        (state, Ok(new))
    }

    fn reduce_package_or_packages(
        &mut self,
        package_or_packages: &PackageOrPackages,
        new: PackageOrPackages,
    ) -> (r: Result<PackageOrPackages, CanonicalizeError>) {
        Ok(new)
    }

    open spec fn reduce_import_spec(
        state: SelfResolverView,
        import: ImportStatementView,
        package_or_packages: PackageOrPackagesView,
    ) -> (SelfResolverView, Result<ImportStatementView, CanonicalizeError>) {
        (state, Ok(rebuilt_import(import, package_or_packages)))
    }

    fn reduce_import(
        &mut self,
        import: &ImportStatement,
        package_or_packages: PackageOrPackages,
    ) -> (r: Result<ImportStatement, CanonicalizeError>) {
        Ok(rebuild_import(import, package_or_packages))
    }

    open spec fn reduce_circuit_member_spec(
        state: SelfResolverView,
        circuit_member: CircuitMemberView,
        new: CircuitMemberView,
    ) -> (SelfResolverView, Result<CircuitMemberView, CanonicalizeError>) {
        (state, Ok(new))
    }

    fn reduce_circuit_member(
        &mut self,
        circuit_member: &CircuitMember,
        new: CircuitMember,
    ) -> (r: Result<CircuitMember, CanonicalizeError>) {
        Ok(new)
    }

    open spec fn reduce_circuit_spec(
        state: SelfResolverView,
        circuit: CircuitView,
        circuit_name: IdentifierView,
        members: Seq<CircuitMemberView>,
    ) -> (SelfResolverView, Result<CircuitView, CanonicalizeError>) {
        (state, Ok(rebuilt_circuit(circuit, circuit_name, members)))
    }

    fn reduce_circuit(
        &mut self,
        circuit: &Circuit,
        circuit_name: Identifier,
        members: Vec<CircuitMember>,
    ) -> (r: Result<Circuit, CanonicalizeError>) {
        Ok(rebuild_circuit(circuit, circuit_name, members))
    }

    open spec fn reduce_annotation_spec(
        state: SelfResolverView,
        annotation: AnnotationView,
        name: IdentifierView,
    ) -> (SelfResolverView, Result<AnnotationView, CanonicalizeError>) {
        (state, Ok(rebuilt_annotation(annotation, name)))
    }

    fn reduce_annotation(
        &mut self,
        annotation: &Annotation,
        name: Identifier,
    ) -> (r: Result<Annotation, CanonicalizeError>) {
        Ok(rebuild_annotation(annotation, name))
    }

    open spec fn reduce_function_spec(
        state: SelfResolverView,
        function: FunctionView,
        identifier: IdentifierView,
        annotations: Seq<AnnotationView>,
        input: Seq<FunctionInputView>,
        output: Option<TypeView>,
        block: BlockView,
        in_circuit: bool,
    ) -> (SelfResolverView, Result<FunctionView, CanonicalizeError>) {
        (state, Ok(rebuilt_function(function, identifier, annotations, input, output, block)))
    }

    fn reduce_function(
        &mut self,
        function: &Function,
        identifier: Identifier,
        annotations: Vec<Annotation>,
        input: Vec<FunctionInput>,
        output: Option<Type>,
        block: Block,
        in_circuit: bool,
    ) -> (r: Result<Function, CanonicalizeError>) {
        Ok(rebuild_function(function, identifier, annotations, input, output, block))
    }
}

} // verus!
