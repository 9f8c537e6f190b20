//! Statements.
use crate::ast::common::{Identifier, identifier_view, IdentifierView};
use crate::ast::expression::{
    clone_expression_seq, Expression, expression_seq_view, expression_view, ExpressionView,
};
use crate::ast::types::{Type, type_view, TypeView};
use crate::span::Span;
use vstd::prelude::*;

verus! {

/// How a definition declares its variables.
#[derive(Clone, Copy, Debug, PartialEq, Eq, Structural)]
pub enum Declare {
    Const,
    Let,
}

/// The operation of an assignment: plain, or compound with a binary operation.
#[derive(Clone, Copy, Debug, PartialEq, Eq, Structural)]
pub enum AssignOperation {
    Assign,
    Add,
    Sub,
    Mul,
    Div,
    Pow,
}

/// A return of a value.
#[derive(Debug, PartialEq, Eq)]
pub struct ReturnStatement {
    pub expression: Expression,
    pub span: Span,
}

/// A variable introduced by a definition.
#[derive(Debug, PartialEq, Eq)]
pub struct VariableName {
    pub mutable: bool,
    pub identifier: Identifier,
    pub span: Span,
}

/// A definition of one or more variables.
#[derive(Debug, PartialEq, Eq)]
pub struct DefinitionStatement {
    pub declaration_type: Declare,
    pub variable_names: Vec<VariableName>,
    pub type_: Option<Type>,
    pub value: Expression,
    pub span: Span,
}

/// One step from a variable to the place that is assigned.
#[derive(Debug, PartialEq, Eq)]
pub enum AssigneeAccess {
    ArrayRange(Option<Expression>, Option<Expression>),
    ArrayIndex(Expression),
    Tuple(usize, Span),
    Member(Identifier),
}

/// The place that an assignment writes to.
#[derive(Debug, PartialEq, Eq)]
pub struct Assignee {
    pub identifier: Identifier,
    pub accesses: Vec<AssigneeAccess>,
    pub span: Span,
}

/// An assignment, plain or compound.
#[derive(Debug, PartialEq, Eq)]
pub struct AssignStatement {
    pub operation: AssignOperation,
    pub assignee: Assignee,
    pub value: Expression,
    pub span: Span,
}

/// A conditional with its block and what follows in the chain.
#[derive(Debug, PartialEq, Eq)]
pub struct ConditionalStatement {
    pub condition: Expression,
    pub block: Block,
    pub next: Option<Box<Statement>>,
    pub span: Span,
}

/// A loop over a range.
#[derive(Debug, PartialEq, Eq)]
pub struct IterationStatement {
    pub variable: Identifier,
    pub start: Expression,
    pub stop: Expression,
    pub block: Block,
    pub span: Span,
}

/// A piece of a format string: fixed text, or a place for a parameter.
#[derive(Debug, PartialEq, Eq)]
pub enum FormatStringPart {
    Const(String),
    Container,
}

/// A format string with its parameters.
#[derive(Debug, PartialEq, Eq)]
pub struct FormatString {
    pub parts: Vec<FormatStringPart>,
    pub parameters: Vec<Expression>,
    pub span: Span,
}

/// What a console statement does.
#[derive(Debug, PartialEq, Eq)]
pub enum ConsoleFunction {
    Assert(Expression),
    Debug(FormatString),
    Error(FormatString),
    Log(FormatString),
}

/// A console statement.
#[derive(Debug, PartialEq, Eq)]
pub struct ConsoleStatement {
    pub function: ConsoleFunction,
    pub span: Span,
}

/// An expression evaluated for its effect.
#[derive(Debug, PartialEq, Eq)]
pub struct ExpressionStatement {
    pub expression: Expression,
    pub span: Span,
}

/// A sequence of statements.
#[derive(Debug, PartialEq, Eq)]
pub struct Block {
    pub statements: Vec<Statement>,
    pub span: Span,
}

/// A statement of the language.
#[derive(Debug, PartialEq, Eq)]
pub enum Statement {
    Return(ReturnStatement),
    Definition(DefinitionStatement),
    Assign(AssignStatement),
    Conditional(ConditionalStatement),
    Iteration(IterationStatement),
    Console(ConsoleStatement),
    Expression(ExpressionStatement),
    Block(Block),
}

/// What a `ReturnStatement` is, with texts and lists as sequences.
pub struct ReturnStatementView {
    pub expression: ExpressionView,
    pub span: Span,
}

/// What a `VariableName` is, with texts and lists as sequences.
pub struct VariableNameView {
    pub mutable: bool,
    pub identifier: IdentifierView,
    pub span: Span,
}

/// What a `DefinitionStatement` is, with texts and lists as sequences.
pub struct DefinitionStatementView {
    pub declaration_type: Declare,
    pub variable_names: Seq<VariableNameView>,
    pub type_: Option<TypeView>,
    pub value: ExpressionView,
    pub span: Span,
}

/// What an `AssigneeAccess` is, with texts and lists as sequences.
pub enum AssigneeAccessView {
    ArrayRange(Option<ExpressionView>, Option<ExpressionView>),
    ArrayIndex(ExpressionView),
    Tuple(usize, Span),
    Member(IdentifierView),
}

/// What an `Assignee` is, with texts and lists as sequences.
pub struct AssigneeView {
    pub identifier: IdentifierView,
    pub accesses: Seq<AssigneeAccessView>,
    pub span: Span,
}

/// What an `AssignStatement` is, with texts and lists as sequences.
pub struct AssignStatementView {
    pub operation: AssignOperation,
    pub assignee: AssigneeView,
    pub value: ExpressionView,
    pub span: Span,
}

/// What a `ConditionalStatement` is, with texts and lists as sequences.
pub struct ConditionalStatementView {
    pub condition: ExpressionView,
    pub block: BlockView,
    pub next: Option<Box<StatementView>>,
    pub span: Span,
}

/// What an `IterationStatement` is, with texts and lists as sequences.
pub struct IterationStatementView {
    pub variable: IdentifierView,
    pub start: ExpressionView,
    pub stop: ExpressionView,
    pub block: BlockView,
    pub span: Span,
}

/// What a `FormatStringPart` is, with texts and lists as sequences.
pub enum FormatStringPartView {
    Const(Seq<char>),
    Container,
}

/// What a `FormatString` is, with texts and lists as sequences.
pub struct FormatStringView {
    pub parts: Seq<FormatStringPartView>,
    pub parameters: Seq<ExpressionView>,
    pub span: Span,
}

/// What a `ConsoleFunction` is, with texts and lists as sequences.
pub enum ConsoleFunctionView {
    Assert(ExpressionView),
    Debug(FormatStringView),
    Error(FormatStringView),
    Log(FormatStringView),
}

/// What a `ConsoleStatement` is, with texts and lists as sequences.
pub struct ConsoleStatementView {
    pub function: ConsoleFunctionView,
    pub span: Span,
}

/// What an `ExpressionStatement` is, with texts and lists as sequences.
pub struct ExpressionStatementView {
    pub expression: ExpressionView,
    pub span: Span,
}

/// What a `Block` is, with texts and lists as sequences.
pub struct BlockView {
    pub statements: Seq<StatementView>,
    pub span: Span,
}

/// What a `Statement` is, with texts and lists as sequences.
pub enum StatementView {
    Return(ReturnStatementView),
    Definition(DefinitionStatementView),
    Assign(AssignStatementView),
    Conditional(ConditionalStatementView),
    Iteration(IterationStatementView),
    Console(ConsoleStatementView),
    Expression(ExpressionStatementView),
    Block(BlockView),
}

pub open spec fn return_statement_view(x: ReturnStatement) -> ReturnStatementView
    decreases x,
{
    ReturnStatementView {
        expression: expression_view(x.expression),
        span: x.span,
    }
}

impl View for ReturnStatement {
    type V = ReturnStatementView;

    open spec fn view(&self) -> ReturnStatementView {
        return_statement_view(*self)
    }
}

pub open spec fn variable_name_view(x: VariableName) -> VariableNameView
    decreases x,
{
    VariableNameView {
        mutable: x.mutable,
        identifier: identifier_view(x.identifier),
        span: x.span,
    }
}

pub open spec fn variable_name_seq_view(s: Seq<VariableName>) -> Seq<VariableNameView>
    decreases s,
{
    Seq::new(
        s.len(),
        |i: int|
            if 0 <= i < s.len() {
                variable_name_view(s[i])
            } else {
                arbitrary()
            },
    )
}

impl View for VariableName {
    type V = VariableNameView;

    open spec fn view(&self) -> VariableNameView {
        variable_name_view(*self)
    }
}

pub open spec fn definition_statement_view(x: DefinitionStatement) -> DefinitionStatementView
    decreases x,
{
    DefinitionStatementView {
        declaration_type: x.declaration_type,
        variable_names: variable_name_seq_view(x.variable_names@),
        type_: match x.type_ { Some(v) => Some(type_view(v)), None => None },
        value: expression_view(x.value),
        span: x.span,
    }
}

impl View for DefinitionStatement {
    type V = DefinitionStatementView;

    open spec fn view(&self) -> DefinitionStatementView {
        definition_statement_view(*self)
    }
}

pub open spec fn assignee_access_view(x: AssigneeAccess) -> AssigneeAccessView
    decreases x,
{
    match x {
        AssigneeAccess::ArrayRange(
            f0,
            f1,
        ) => AssigneeAccessView::ArrayRange(match f0 { Some(v) => Some(expression_view(v)), None => None }, match f1 { Some(v) => Some(expression_view(v)), None => None }),
        AssigneeAccess::ArrayIndex(f0) => AssigneeAccessView::ArrayIndex(expression_view(f0)),
        AssigneeAccess::Tuple(f0, f1) => AssigneeAccessView::Tuple(f0, f1),
        AssigneeAccess::Member(f0) => AssigneeAccessView::Member(identifier_view(f0)),
    }
}

pub open spec fn assignee_access_seq_view(s: Seq<AssigneeAccess>) -> Seq<AssigneeAccessView>
    decreases s,
{
    Seq::new(
        s.len(),
        |i: int|
            if 0 <= i < s.len() {
                assignee_access_view(s[i])
            } else {
                arbitrary()
            },
    )
}

impl View for AssigneeAccess {
    type V = AssigneeAccessView;

    open spec fn view(&self) -> AssigneeAccessView {
        assignee_access_view(*self)
    }
}

pub open spec fn assignee_view(x: Assignee) -> AssigneeView
    decreases x,
{
    AssigneeView {
        identifier: identifier_view(x.identifier),
        accesses: assignee_access_seq_view(x.accesses@),
        span: x.span,
    }
}

impl View for Assignee {
    type V = AssigneeView;

    open spec fn view(&self) -> AssigneeView {
        assignee_view(*self)
    }
}

pub open spec fn assign_statement_view(x: AssignStatement) -> AssignStatementView
    decreases x,
{
    AssignStatementView {
        operation: x.operation,
        assignee: assignee_view(x.assignee),
        value: expression_view(x.value),
        span: x.span,
    }
}

impl View for AssignStatement {
    type V = AssignStatementView;

    open spec fn view(&self) -> AssignStatementView {
        assign_statement_view(*self)
    }
}

pub open spec fn conditional_statement_view(x: ConditionalStatement) -> ConditionalStatementView
    decreases x,
{
    ConditionalStatementView {
        condition: expression_view(x.condition),
        block: block_view(x.block),
        next: match x.next { Some(v) => Some(Box::new(statement_view(*v))), None => None },
        span: x.span,
    }
}

impl View for ConditionalStatement {
    type V = ConditionalStatementView;

    open spec fn view(&self) -> ConditionalStatementView {
        conditional_statement_view(*self)
    }
}

pub open spec fn iteration_statement_view(x: IterationStatement) -> IterationStatementView
    decreases x,
{
    IterationStatementView {
        variable: identifier_view(x.variable),
        start: expression_view(x.start),
        stop: expression_view(x.stop),
        block: block_view(x.block),
        span: x.span,
    }
}

impl View for IterationStatement {
    type V = IterationStatementView;

    open spec fn view(&self) -> IterationStatementView {
        iteration_statement_view(*self)
    }
}

pub open spec fn format_string_part_view(x: FormatStringPart) -> FormatStringPartView
    decreases x,
{
    match x {
        FormatStringPart::Const(f0) => FormatStringPartView::Const(f0@),
        FormatStringPart::Container => FormatStringPartView::Container,
    }
}

pub open spec fn format_string_part_seq_view(s: Seq<FormatStringPart>) -> Seq<FormatStringPartView>
    decreases s,
{
    Seq::new(
        s.len(),
        |i: int|
            if 0 <= i < s.len() {
                format_string_part_view(s[i])
            } else {
                arbitrary()
            },
    )
}

impl View for FormatStringPart {
    type V = FormatStringPartView;

    open spec fn view(&self) -> FormatStringPartView {
        format_string_part_view(*self)
    }
}

pub open spec fn format_string_view(x: FormatString) -> FormatStringView
    decreases x,
{
    FormatStringView {
        parts: format_string_part_seq_view(x.parts@),
        parameters: expression_seq_view(x.parameters@),
        span: x.span,
    }
}

impl View for FormatString {
    type V = FormatStringView;

    open spec fn view(&self) -> FormatStringView {
        format_string_view(*self)
    }
}

pub open spec fn console_function_view(x: ConsoleFunction) -> ConsoleFunctionView
    decreases x,
{
    match x {
        ConsoleFunction::Assert(f0) => ConsoleFunctionView::Assert(expression_view(f0)),
        ConsoleFunction::Debug(f0) => ConsoleFunctionView::Debug(format_string_view(f0)),
        ConsoleFunction::Error(f0) => ConsoleFunctionView::Error(format_string_view(f0)),
        ConsoleFunction::Log(f0) => ConsoleFunctionView::Log(format_string_view(f0)),
    }
}

impl View for ConsoleFunction {
    type V = ConsoleFunctionView;

    open spec fn view(&self) -> ConsoleFunctionView {
        console_function_view(*self)
    }
}

pub open spec fn console_statement_view(x: ConsoleStatement) -> ConsoleStatementView
    decreases x,
{
    ConsoleStatementView {
        function: console_function_view(x.function),
        span: x.span,
    }
}

impl View for ConsoleStatement {
    type V = ConsoleStatementView;

    open spec fn view(&self) -> ConsoleStatementView {
        console_statement_view(*self)
    }
}

pub open spec fn expression_statement_view(x: ExpressionStatement) -> ExpressionStatementView
    decreases x,
{
    ExpressionStatementView {
        expression: expression_view(x.expression),
        span: x.span,
    }
}

impl View for ExpressionStatement {
    type V = ExpressionStatementView;

    open spec fn view(&self) -> ExpressionStatementView {
        expression_statement_view(*self)
    }
}

pub open spec fn block_view(x: Block) -> BlockView
    decreases x,
{
    BlockView {
        statements: statement_seq_view(x.statements@),
        span: x.span,
    }
}

impl View for Block {
    type V = BlockView;

    open spec fn view(&self) -> BlockView {
        block_view(*self)
    }
}

pub open spec fn statement_view(x: Statement) -> StatementView
    decreases x,
{
    match x {
        Statement::Return(f0) => StatementView::Return(return_statement_view(f0)),
        Statement::Definition(f0) => StatementView::Definition(definition_statement_view(f0)),
        Statement::Assign(f0) => StatementView::Assign(assign_statement_view(f0)),
        Statement::Conditional(f0) => StatementView::Conditional(conditional_statement_view(f0)),
        Statement::Iteration(f0) => StatementView::Iteration(iteration_statement_view(f0)),
        Statement::Console(f0) => StatementView::Console(console_statement_view(f0)),
        Statement::Expression(f0) => StatementView::Expression(expression_statement_view(f0)),
        Statement::Block(f0) => StatementView::Block(block_view(f0)),
    }
}

pub open spec fn statement_seq_view(s: Seq<Statement>) -> Seq<StatementView>
    decreases s,
{
    Seq::new(
        s.len(),
        |i: int|
            if 0 <= i < s.len() {
                statement_view(s[i])
            } else {
                arbitrary()
            },
    )
}

impl View for Statement {
    type V = StatementView;

    open spec fn view(&self) -> StatementView {
        statement_view(*self)
    }
}

impl Clone for ReturnStatement {
    fn clone(&self) -> (r: ReturnStatement)
        ensures
            r@ == self@,
        decreases self,
    {
        ReturnStatement {
            expression: self.expression.clone(),
            span: self.span,
        }
    }
}

impl Clone for VariableName {
    fn clone(&self) -> (r: VariableName)
        ensures
            r@ == self@,
        decreases self,
    {
        VariableName {
            mutable: self.mutable,
            identifier: self.identifier.clone(),
            span: self.span,
        }
    }
}

/// A copy of a list.
pub fn clone_variable_name_seq(items: &Vec<VariableName>) -> (r: Vec<VariableName>)
    ensures
        variable_name_seq_view(r@) == variable_name_seq_view(items@),
    decreases items,
{
    let mut out: Vec<VariableName> = Vec::new();
    let mut i: usize = 0;
    while i < items.len()
        invariant
            i <= items.len(),
            variable_name_seq_view(out@) =~= variable_name_seq_view(items@).take(i as int),
        decreases items.len() - i,
    {
        let ghost before = variable_name_seq_view(out@);
        let item = items[i].clone();
        out.push(item);
        assert(variable_name_seq_view(out@) =~= before.push(item@));
        assert(variable_name_seq_view(items@).take(i + 1) =~=
            variable_name_seq_view(items@).take(i as int).push(
            items[i as int]@,
        ));
        i = i + 1;
    }
    assert(variable_name_seq_view(items@).take(i as int) =~= variable_name_seq_view(items@));
    out
}

impl Clone for DefinitionStatement {
    fn clone(&self) -> (r: DefinitionStatement)
        ensures
            r@ == self@,
        decreases self,
    {
        DefinitionStatement {
            declaration_type: self.declaration_type,
            variable_names: clone_variable_name_seq(&self.variable_names),
            type_: match &self.type_ { Some(v) => Some(v.clone()), None => None },
            value: self.value.clone(),
            span: self.span,
        }
    }
}

impl Clone for AssigneeAccess {
    fn clone(&self) -> (r: AssigneeAccess)
        ensures
            r@ == self@,
        decreases self,
    {
        match self {
            AssigneeAccess::ArrayRange(
                f0,
                f1,
            ) => AssigneeAccess::ArrayRange(match f0 { Some(v) => Some(v.clone()), None => None }, match f1 { Some(v) => Some(v.clone()), None => None }),
            AssigneeAccess::ArrayIndex(f0) => AssigneeAccess::ArrayIndex(f0.clone()),
            AssigneeAccess::Tuple(f0, f1) => AssigneeAccess::Tuple(*f0, *f1),
            AssigneeAccess::Member(f0) => AssigneeAccess::Member(f0.clone()),
        }
    }
}

/// A copy of a list.
pub fn clone_assignee_access_seq(items: &Vec<AssigneeAccess>) -> (r: Vec<AssigneeAccess>)
    ensures
        assignee_access_seq_view(r@) == assignee_access_seq_view(items@),
    decreases items,
{
    let mut out: Vec<AssigneeAccess> = Vec::new();
    let mut i: usize = 0;
    while i < items.len()
        invariant
            i <= items.len(),
            assignee_access_seq_view(out@) =~= assignee_access_seq_view(items@).take(i as int),
        decreases items.len() - i,
    {
        let ghost before = assignee_access_seq_view(out@);
        let item = items[i].clone();
        out.push(item);
        assert(assignee_access_seq_view(out@) =~= before.push(item@));
        assert(assignee_access_seq_view(items@).take(i + 1) =~=
            assignee_access_seq_view(items@).take(i as int).push(
            items[i as int]@,
        ));
        i = i + 1;
    }
    assert(assignee_access_seq_view(items@).take(i as int) =~= assignee_access_seq_view(items@));
    out
}

impl Clone for Assignee {
    fn clone(&self) -> (r: Assignee)
        ensures
            r@ == self@,
        decreases self,
    {
        Assignee {
            identifier: self.identifier.clone(),
            accesses: clone_assignee_access_seq(&self.accesses),
            span: self.span,
        }
    }
}

impl Clone for AssignStatement {
    fn clone(&self) -> (r: AssignStatement)
        ensures
            r@ == self@,
        decreases self,
    {
        AssignStatement {
            operation: self.operation,
            assignee: self.assignee.clone(),
            value: self.value.clone(),
            span: self.span,
        }
    }
}

impl Clone for ConditionalStatement {
    fn clone(&self) -> (r: ConditionalStatement)
        ensures
            r@ == self@,
        decreases self,
    {
        ConditionalStatement {
            condition: self.condition.clone(),
            block: self.block.clone(),
            next: match &self.next { Some(v) => Some(Box::new((&**v).clone())), None => None },
            span: self.span,
        }
    }
}

impl Clone for IterationStatement {
    fn clone(&self) -> (r: IterationStatement)
        ensures
            r@ == self@,
        decreases self,
    {
        IterationStatement {
            variable: self.variable.clone(),
            start: self.start.clone(),
            stop: self.stop.clone(),
            block: self.block.clone(),
            span: self.span,
        }
    }
}

impl Clone for FormatStringPart {
    fn clone(&self) -> (r: FormatStringPart)
        ensures
            r@ == self@,
        decreases self,
    {
        match self {
            FormatStringPart::Const(f0) => FormatStringPart::Const(f0.clone()),
            FormatStringPart::Container => FormatStringPart::Container,
        }
    }
}

/// A copy of a list.
pub fn clone_format_string_part_seq(items: &Vec<FormatStringPart>) -> (r: Vec<FormatStringPart>)
    ensures
        format_string_part_seq_view(r@) == format_string_part_seq_view(items@),
    decreases items,
{
    let mut out: Vec<FormatStringPart> = Vec::new();
    let mut i: usize = 0;
    while i < items.len()
        invariant
            i <= items.len(),
            format_string_part_seq_view(
                out@,
            ) =~= format_string_part_seq_view(items@).take(i as int),
        decreases items.len() - i,
    {
        let ghost before = format_string_part_seq_view(out@);
        let item = items[i].clone();
        out.push(item);
        assert(format_string_part_seq_view(out@) =~= before.push(item@));
        assert(format_string_part_seq_view(items@).take(i + 1) =~=
            format_string_part_seq_view(items@).take(i as int).push(
            items[i as int]@,
        ));
        i = i + 1;
    }
    assert(format_string_part_seq_view(items@).take(i as int) =~=
        format_string_part_seq_view(items@));
    out
}

impl Clone for FormatString {
    fn clone(&self) -> (r: FormatString)
        ensures
            r@ == self@,
        decreases self,
    {
        FormatString {
            parts: clone_format_string_part_seq(&self.parts),
            parameters: clone_expression_seq(&self.parameters),
            span: self.span,
        }
    }
}

impl Clone for ConsoleFunction {
    fn clone(&self) -> (r: ConsoleFunction)
        ensures
            r@ == self@,
        decreases self,
    {
        match self {
            ConsoleFunction::Assert(f0) => ConsoleFunction::Assert(f0.clone()),
            ConsoleFunction::Debug(f0) => ConsoleFunction::Debug(f0.clone()),
            ConsoleFunction::Error(f0) => ConsoleFunction::Error(f0.clone()),
            ConsoleFunction::Log(f0) => ConsoleFunction::Log(f0.clone()),
        }
    }
}

impl Clone for ConsoleStatement {
    fn clone(&self) -> (r: ConsoleStatement)
        ensures
            r@ == self@,
        decreases self,
    {
        ConsoleStatement {
            function: self.function.clone(),
            span: self.span,
        }
    }
}

impl Clone for ExpressionStatement {
    fn clone(&self) -> (r: ExpressionStatement)
        ensures
            r@ == self@,
        decreases self,
    {
        ExpressionStatement {
            expression: self.expression.clone(),
            span: self.span,
        }
    }
}

impl Clone for Block {
    fn clone(&self) -> (r: Block)
        ensures
            r@ == self@,
        decreases self,
    {
        Block {
            statements: clone_statement_seq(&self.statements),
            span: self.span,
        }
    }
}

impl Clone for Statement {
    fn clone(&self) -> (r: Statement)
        ensures
            r@ == self@,
        decreases self,
    {
        match self {
            Statement::Return(f0) => Statement::Return(f0.clone()),
            Statement::Definition(f0) => Statement::Definition(f0.clone()),
            Statement::Assign(f0) => Statement::Assign(f0.clone()),
            Statement::Conditional(f0) => Statement::Conditional(f0.clone()),
            Statement::Iteration(f0) => Statement::Iteration(f0.clone()),
            Statement::Console(f0) => Statement::Console(f0.clone()),
            Statement::Expression(f0) => Statement::Expression(f0.clone()),
            Statement::Block(f0) => Statement::Block(f0.clone()),
        }
    }
}

/// A copy of a list.
pub fn clone_statement_seq(items: &Vec<Statement>) -> (r: Vec<Statement>)
    ensures
        statement_seq_view(r@) == statement_seq_view(items@),
    decreases items,
{
    let mut out: Vec<Statement> = Vec::new();
    let mut i: usize = 0;
    while i < items.len()
        invariant
            i <= items.len(),
            statement_seq_view(out@) =~= statement_seq_view(items@).take(i as int),
        decreases items.len() - i,
    {
        let ghost before = statement_seq_view(out@);
        let item = items[i].clone();
        out.push(item);
        assert(statement_seq_view(out@) =~= before.push(item@));
        assert(statement_seq_view(items@).take(i + 1) =~=
            statement_seq_view(items@).take(i as int).push(
            items[i as int]@,
        ));
        i = i + 1;
    }
    assert(statement_seq_view(items@).take(i as int) =~= statement_seq_view(items@));
    out
}

} // verus!
