//! The types of the language.
use crate::ast::common::{clone_sizes, Identifier, identifier_view, IdentifierView};
use crate::integer_type::IntegerType;
use vstd::prelude::*;

verus! {

/// A type of the language.
#[derive(Debug, PartialEq, Eq)]
pub enum Type {
    Address,
    Boolean,
    Char,
    Field,
    Group,
    IntegerType(IntegerType),
    Array(Box<Type>, Vec<usize>),
    Tuple(Vec<Type>),
    Circuit(Identifier),
    SelfType,
}

/// What a `Type` is, with texts and lists as sequences.
pub enum TypeView {
    Address,
    Boolean,
    Char,
    Field,
    Group,
    IntegerType(IntegerType),
    Array(Box<TypeView>, Seq<usize>),
    Tuple(Seq<TypeView>),
    Circuit(IdentifierView),
    SelfType,
}

pub open spec fn type_view(x: Type) -> TypeView
    decreases x,
{
    match x {
        Type::Address => TypeView::Address,
        Type::Boolean => TypeView::Boolean,
        Type::Char => TypeView::Char,
        Type::Field => TypeView::Field,
        Type::Group => TypeView::Group,
        Type::IntegerType(f0) => TypeView::IntegerType(f0),
        Type::Array(f0, f1) => TypeView::Array(Box::new(type_view(*f0)), f1@),
        Type::Tuple(f0) => TypeView::Tuple(type_seq_view(f0@)),
        Type::Circuit(f0) => TypeView::Circuit(identifier_view(f0)),
        Type::SelfType => TypeView::SelfType,
    }
}

pub open spec fn type_seq_view(s: Seq<Type>) -> Seq<TypeView>
    decreases s,
{
    Seq::new(
        s.len(),
        |i: int|
            if 0 <= i < s.len() {
                type_view(s[i])
            } else {
                arbitrary()
            },
    )
}

impl View for Type {
    type V = TypeView;

    open spec fn view(&self) -> TypeView {
        type_view(*self)
    }
}

impl Clone for Type {
    fn clone(&self) -> (r: Type)
        ensures
            r@ == self@,
        decreases self,
    {
        match self {
            Type::Address => Type::Address,
            Type::Boolean => Type::Boolean,
            Type::Char => Type::Char,
            Type::Field => Type::Field,
            Type::Group => Type::Group,
            Type::IntegerType(f0) => Type::IntegerType(*f0),
            Type::Array(f0, f1) => Type::Array(Box::new((&**f0).clone()), clone_sizes(f1)),
            Type::Tuple(f0) => Type::Tuple(clone_type_seq(f0)),
            Type::Circuit(f0) => Type::Circuit(f0.clone()),
            Type::SelfType => Type::SelfType,
        }
    }
}

/// A copy of a list.
pub fn clone_type_seq(items: &Vec<Type>) -> (r: Vec<Type>)
    ensures
        type_seq_view(r@) == type_seq_view(items@),
    decreases items,
{
    let mut out: Vec<Type> = Vec::new();
    let mut i: usize = 0;
    while i < items.len()
        invariant
            i <= items.len(),
            type_seq_view(out@) =~= type_seq_view(items@).take(i as int),
        decreases items.len() - i,
    {
        let ghost before = type_seq_view(out@);
        let item = items[i].clone();
        out.push(item);
        assert(type_seq_view(out@) =~= before.push(item@));
        assert(type_seq_view(items@).take(i + 1) =~= type_seq_view(items@).take(i as int).push(
            items[i as int]@,
        ));
        i = i + 1;
    }
    assert(type_seq_view(items@).take(i as int) =~= type_seq_view(items@));
    out
}

} // verus!
