//! Names.
use crate::span::Span;
use vstd::prelude::*;

verus! {

/// The texts of a sequence of strings.
pub open spec fn strings_view(s: Seq<String>) -> Seq<Seq<char>> {
    Seq::new(s.len(), |i: int| s[i]@)
}

/// A copy of a list of sizes.
pub fn clone_sizes(items: &Vec<usize>) -> (r: Vec<usize>)
    ensures
        r@ == items@,
{
    let mut out: Vec<usize> = Vec::new();
    let mut i: usize = 0;
    while i < items.len()
        invariant
            i <= items.len(),
            out@ =~= items@.take(i as int),
        decreases items.len() - i,
    {
        out.push(items[i]);
        i = i + 1;
    }
    assert(items@.take(i as int) =~= items@);
    out
}

/// A copy of a list of strings.
pub fn clone_strings(items: &Vec<String>) -> (r: Vec<String>)
    ensures
        strings_view(r@) == strings_view(items@),
{
    let mut out: Vec<String> = Vec::new();
    let mut i: usize = 0;
    while i < items.len()
        invariant
            i <= items.len(),
            strings_view(out@) =~= strings_view(items@).take(i as int),
        decreases items.len() - i,
    {
        let ghost before = strings_view(out@);
        let item = items[i].clone();
        out.push(item);
        assert(strings_view(out@) =~= before.push(item@));
        assert(strings_view(items@).take(i + 1) =~= strings_view(items@).take(i as int).push(
            items[i as int]@,
        ));
        i = i + 1;
    }
    assert(strings_view(items@).take(i as int) =~= strings_view(items@));
    out
}

/// A name with the place where it stands in the source.
#[derive(Debug, PartialEq, Eq, Hash)]
pub struct Identifier {
    pub name: String,
    pub span: Span,
}

/// What an `Identifier` is, with texts and lists as sequences.
pub struct IdentifierView {
    pub name: Seq<char>,
    pub span: Span,
}

pub open spec fn identifier_view(x: Identifier) -> IdentifierView
    decreases x,
{
    IdentifierView {
        name: x.name@,
        span: x.span,
    }
}

impl View for Identifier {
    type V = IdentifierView;

    open spec fn view(&self) -> IdentifierView {
        identifier_view(*self)
    }
}

impl Clone for Identifier {
    fn clone(&self) -> (r: Identifier)
        ensures
            r@ == self@,
        decreases self,
    {
        Identifier {
            name: self.name.clone(),
            span: self.span,
        }
    }
}

} // verus!
