//! Functions and circuits.
use crate::ast::common::{clone_strings, Identifier, identifier_view, IdentifierView, strings_view};
use crate::ast::statement::{Block, block_view, BlockView};
use crate::ast::types::{Type, type_view, TypeView};
use crate::span::Span;
use vstd::prelude::*;

verus! {

/// A named input of a function with its type.
#[derive(Debug, PartialEq, Eq)]
pub struct FunctionInputVariable {
    pub identifier: Identifier,
    pub const_: bool,
    pub mutable: bool,
    pub type_: Type,
    pub span: Span,
}

/// An input of a function: a receiver marker or a variable.
#[derive(Debug, PartialEq, Eq)]
pub enum FunctionInput {
    SelfKeyword(Span),
    ConstSelfKeyword(Span),
    MutSelfKeyword(Span),
    Variable(FunctionInputVariable),
}

/// A named marker on a function, with its arguments.
#[derive(Debug, PartialEq, Eq)]
pub struct Annotation {
    pub span: Span,
    pub name: Identifier,
    pub arguments: Vec<String>,
}

/// A function definition.
#[derive(Debug, PartialEq, Eq)]
pub struct Function {
    pub annotations: Vec<Annotation>,
    pub identifier: Identifier,
    pub input: Vec<FunctionInput>,
    pub output: Option<Type>,
    pub block: Block,
    pub span: Span,
}

/// A member of a circuit: a typed field or a method.
#[derive(Debug, PartialEq, Eq)]
pub enum CircuitMember {
    CircuitVariable(Identifier, Type),
    CircuitFunction(Function),
}

/// A circuit definition: its name and its members in order.
#[derive(Debug, PartialEq, Eq)]
pub struct Circuit {
    pub circuit_name: Identifier,
    pub members: Vec<CircuitMember>,
}

/// What a `FunctionInputVariable` is, with texts and lists as sequences.
pub struct FunctionInputVariableView {
    pub identifier: IdentifierView,
    pub const_: bool,
    pub mutable: bool,
    pub type_: TypeView,
    pub span: Span,
}

/// What a `FunctionInput` is, with texts and lists as sequences.
pub enum FunctionInputView {
    SelfKeyword(Span),
    ConstSelfKeyword(Span),
    MutSelfKeyword(Span),
    Variable(FunctionInputVariableView),
}

/// What an `Annotation` is, with texts and lists as sequences.
pub struct AnnotationView {
    pub span: Span,
    pub name: IdentifierView,
    pub arguments: Seq<Seq<char>>,
}

/// What a `Function` is, with texts and lists as sequences.
pub struct FunctionView {
    pub annotations: Seq<AnnotationView>,
    pub identifier: IdentifierView,
    pub input: Seq<FunctionInputView>,
    pub output: Option<TypeView>,
    pub block: BlockView,
    pub span: Span,
}

/// What a `CircuitMember` is, with texts and lists as sequences.
pub enum CircuitMemberView {
    CircuitVariable(IdentifierView, TypeView),
    CircuitFunction(FunctionView),
}

/// What a `Circuit` is, with texts and lists as sequences.
pub struct CircuitView {
    pub circuit_name: IdentifierView,
    pub members: Seq<CircuitMemberView>,
}

pub open spec fn function_input_variable_view(x: FunctionInputVariable) -> FunctionInputVariableView
    decreases x,
{
    FunctionInputVariableView {
        identifier: identifier_view(x.identifier),
        const_: x.const_,
        mutable: x.mutable,
        type_: type_view(x.type_),
        span: x.span,
    }
}

impl View for FunctionInputVariable {
    type V = FunctionInputVariableView;

    open spec fn view(&self) -> FunctionInputVariableView {
        function_input_variable_view(*self)
    }
}

pub open spec fn function_input_view(x: FunctionInput) -> FunctionInputView
    decreases x,
{
    match x {
        FunctionInput::SelfKeyword(f0) => FunctionInputView::SelfKeyword(f0),
        FunctionInput::ConstSelfKeyword(f0) => FunctionInputView::ConstSelfKeyword(f0),
        FunctionInput::MutSelfKeyword(f0) => FunctionInputView::MutSelfKeyword(f0),
        FunctionInput::Variable(
            f0,
        ) => FunctionInputView::Variable(function_input_variable_view(f0)),
    }
}

pub open spec fn function_input_seq_view(s: Seq<FunctionInput>) -> Seq<FunctionInputView>
    decreases s,
{
    Seq::new(
        s.len(),
        |i: int|
            if 0 <= i < s.len() {
                function_input_view(s[i])
            } else {
                arbitrary()
            },
    )
}

impl View for FunctionInput {
    type V = FunctionInputView;

    open spec fn view(&self) -> FunctionInputView {
        function_input_view(*self)
    }
}

pub open spec fn annotation_view(x: Annotation) -> AnnotationView
    decreases x,
{
    AnnotationView {
        span: x.span,
        name: identifier_view(x.name),
        arguments: strings_view(x.arguments@),
    }
}

pub open spec fn annotation_seq_view(s: Seq<Annotation>) -> Seq<AnnotationView>
    decreases s,
{
    Seq::new(
        s.len(),
        |i: int|
            if 0 <= i < s.len() {
                annotation_view(s[i])
            } else {
                arbitrary()
            },
    )
}

impl View for Annotation {
    type V = AnnotationView;

    open spec fn view(&self) -> AnnotationView {
        annotation_view(*self)
    }
}

pub open spec fn function_view(x: Function) -> FunctionView
    decreases x,
{
    FunctionView {
        annotations: annotation_seq_view(x.annotations@),
        identifier: identifier_view(x.identifier),
        input: function_input_seq_view(x.input@),
        output: match x.output { Some(v) => Some(type_view(v)), None => None },
        block: block_view(x.block),
        span: x.span,
    }
}

impl View for Function {
    type V = FunctionView;

    open spec fn view(&self) -> FunctionView {
        function_view(*self)
    }
}

pub open spec fn circuit_member_view(x: CircuitMember) -> CircuitMemberView
    decreases x,
{
    match x {
        CircuitMember::CircuitVariable(
            f0,
            f1,
        ) => CircuitMemberView::CircuitVariable(identifier_view(f0), type_view(f1)),
        CircuitMember::CircuitFunction(f0) => CircuitMemberView::CircuitFunction(function_view(f0)),
    }
}

pub open spec fn circuit_member_seq_view(s: Seq<CircuitMember>) -> Seq<CircuitMemberView>
    decreases s,
{
    Seq::new(
        s.len(),
        |i: int|
            if 0 <= i < s.len() {
                circuit_member_view(s[i])
            } else {
                arbitrary()
            },
    )
}

impl View for CircuitMember {
    type V = CircuitMemberView;

    open spec fn view(&self) -> CircuitMemberView {
        circuit_member_view(*self)
    }
}

pub open spec fn circuit_view(x: Circuit) -> CircuitView
    decreases x,
{
    CircuitView {
        circuit_name: identifier_view(x.circuit_name),
        members: circuit_member_seq_view(x.members@),
    }
}

impl View for Circuit {
    type V = CircuitView;

    open spec fn view(&self) -> CircuitView {
        circuit_view(*self)
    }
}

impl Clone for FunctionInputVariable {
    fn clone(&self) -> (r: FunctionInputVariable)
        ensures
            r@ == self@,
        decreases self,
    {
        FunctionInputVariable {
            identifier: self.identifier.clone(),
            const_: self.const_,
            mutable: self.mutable,
            type_: self.type_.clone(),
            span: self.span,
        }
    }
}

impl Clone for FunctionInput {
    fn clone(&self) -> (r: FunctionInput)
        ensures
            r@ == self@,
        decreases self,
    {
        match self {
            FunctionInput::SelfKeyword(f0) => FunctionInput::SelfKeyword(*f0),
            FunctionInput::ConstSelfKeyword(f0) => FunctionInput::ConstSelfKeyword(*f0),
            FunctionInput::MutSelfKeyword(f0) => FunctionInput::MutSelfKeyword(*f0),
            FunctionInput::Variable(f0) => FunctionInput::Variable(f0.clone()),
        }
    }
}

/// A copy of a list.
pub fn clone_function_input_seq(items: &Vec<FunctionInput>) -> (r: Vec<FunctionInput>)
    ensures
        function_input_seq_view(r@) == function_input_seq_view(items@),
    decreases items,
{
    let mut out: Vec<FunctionInput> = Vec::new();
    let mut i: usize = 0;
    while i < items.len()
        invariant
            i <= items.len(),
            function_input_seq_view(out@) =~= function_input_seq_view(items@).take(i as int),
        decreases items.len() - i,
    {
        let ghost before = function_input_seq_view(out@);
        let item = items[i].clone();
        out.push(item);
        assert(function_input_seq_view(out@) =~= before.push(item@));
        assert(function_input_seq_view(items@).take(i + 1) =~=
            function_input_seq_view(items@).take(i as int).push(
            items[i as int]@,
        ));
        i = i + 1;
    }
    assert(function_input_seq_view(items@).take(i as int) =~= function_input_seq_view(items@));
    out
}

impl Clone for Annotation {
    fn clone(&self) -> (r: Annotation)
        ensures
            r@ == self@,
        decreases self,
    {
        Annotation {
            span: self.span,
            name: self.name.clone(),
            arguments: clone_strings(&self.arguments),
        }
    }
}

/// A copy of a list.
pub fn clone_annotation_seq(items: &Vec<Annotation>) -> (r: Vec<Annotation>)
    ensures
        annotation_seq_view(r@) == annotation_seq_view(items@),
    decreases items,
{
    let mut out: Vec<Annotation> = Vec::new();
    let mut i: usize = 0;
    while i < items.len()
        invariant
            i <= items.len(),
            annotation_seq_view(out@) =~= annotation_seq_view(items@).take(i as int),
        decreases items.len() - i,
    {
        let ghost before = annotation_seq_view(out@);
        let item = items[i].clone();
        out.push(item);
        assert(annotation_seq_view(out@) =~= before.push(item@));
        assert(annotation_seq_view(items@).take(i + 1) =~=
            annotation_seq_view(items@).take(i as int).push(
            items[i as int]@,
        ));
        i = i + 1;
    }
    assert(annotation_seq_view(items@).take(i as int) =~= annotation_seq_view(items@));
    out
}

impl Clone for Function {
    fn clone(&self) -> (r: Function)
        ensures
            r@ == self@,
        decreases self,
    {
        Function {
            annotations: clone_annotation_seq(&self.annotations),
            identifier: self.identifier.clone(),
            input: clone_function_input_seq(&self.input),
            output: match &self.output { Some(v) => Some(v.clone()), None => None },
            block: self.block.clone(),
            span: self.span,
        }
    }
}

impl Clone for CircuitMember {
    fn clone(&self) -> (r: CircuitMember)
        ensures
            r@ == self@,
        decreases self,
    {
        match self {
            CircuitMember::CircuitVariable(
                f0,
                f1,
            ) => CircuitMember::CircuitVariable(f0.clone(), f1.clone()),
            CircuitMember::CircuitFunction(f0) => CircuitMember::CircuitFunction(f0.clone()),
        }
    }
}

/// A copy of a list.
pub fn clone_circuit_member_seq(items: &Vec<CircuitMember>) -> (r: Vec<CircuitMember>)
    ensures
        circuit_member_seq_view(r@) == circuit_member_seq_view(items@),
    decreases items,
{
    let mut out: Vec<CircuitMember> = Vec::new();
    let mut i: usize = 0;
    while i < items.len()
        invariant
            i <= items.len(),
            circuit_member_seq_view(out@) =~= circuit_member_seq_view(items@).take(i as int),
        decreases items.len() - i,
    {
        let ghost before = circuit_member_seq_view(out@);
        let item = items[i].clone();
        out.push(item);
        assert(circuit_member_seq_view(out@) =~= before.push(item@));
        assert(circuit_member_seq_view(items@).take(i + 1) =~=
            circuit_member_seq_view(items@).take(i as int).push(
            items[i as int]@,
        ));
        i = i + 1;
    }
    assert(circuit_member_seq_view(items@).take(i as int) =~= circuit_member_seq_view(items@));
    out
}

impl Clone for Circuit {
    fn clone(&self) -> (r: Circuit)
        ensures
            r@ == self@,
        decreases self,
    {
        Circuit {
            circuit_name: self.circuit_name.clone(),
            members: clone_circuit_member_seq(&self.members),
        }
    }
}

} // verus!
