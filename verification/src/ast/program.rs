//! Programs, and the ordered maps that hold their circuits and functions.
use crate::ast::common::{Identifier, IdentifierView};
use crate::ast::function::{
    Circuit, CircuitView, Function, function_input_seq_view, FunctionInput, FunctionInputView,
    FunctionView,
};
use crate::ast::imports::{import_statement_seq_view, ImportStatement, ImportStatementView};
use indexmap::IndexMap;
use vstd::prelude::*;

verus! {

#[verifier::external_type_specification]
#[verifier::external_body]
#[verifier::reject_recursive_types(K)]
#[verifier::reject_recursive_types(V)]
#[verifier::reject_recursive_types(S)]
pub struct ExIndexMap<K, V, S>(IndexMap<K, V, S>);

/// The entries of a map of circuits, in the order of the map.
pub uninterp spec fn circuit_entries(map: IndexMap<Identifier, Circuit>) -> Seq<
    (Identifier, Circuit),
>;

/// The entries of a map of functions, in the order of the map.
pub uninterp spec fn function_entries(map: IndexMap<Identifier, Function>) -> Seq<
    (Identifier, Function),
>;

/// The first place at which `key` stands in `entries`, if it stands there at all.
pub open spec fn position<V>(entries: Seq<(IdentifierView, V)>, key: IdentifierView) -> Option<int>
    decreases entries.len(),
{
    if entries.len() == 0 {
        None
    } else {
        match position(entries.drop_last(), key) {
            Some(i) => Some(i),
            None => if entries.last().0 == key {
                Some(entries.len() - 1)
            } else {
                None
            },
        }
    }
}

/// The entries after `key` is given `value`: a key that is there keeps its
/// place and gets the new value, a new key comes last.
pub open spec fn inserted<V>(
    entries: Seq<(IdentifierView, V)>,
    key: IdentifierView,
    value: V,
) -> Seq<(IdentifierView, V)> {
    match position(entries, key) {
        Some(i) => entries.update(i, (key, value)),
        None => entries.push((key, value)),
    }
}

/// No key stands twice in `entries`.
pub open spec fn distinct_keys<V>(entries: Seq<(IdentifierView, V)>) -> bool {
    forall|i: int, j: int| 0 <= i < j < entries.len() ==> entries[i].0 != entries[j].0
}

/// The keys of `entries`, in order.
pub open spec fn keys<V>(entries: Seq<(IdentifierView, V)>) -> Seq<IdentifierView> {
    Seq::new(entries.len(), |i: int| entries[i].0)
}

/// The views of the entries of a map of circuits.
pub open spec fn circuits_view(entries: Seq<(Identifier, Circuit)>) -> Seq<
    (IdentifierView, CircuitView),
> {
    Seq::new(entries.len(), |i: int| (entries[i].0@, entries[i].1@))
}

/// The views of the entries of a map of functions.
pub open spec fn functions_view(entries: Seq<(Identifier, Function)>) -> Seq<
    (IdentifierView, FunctionView),
> {
    Seq::new(entries.len(), |i: int| (entries[i].0@, entries[i].1@))
}

/// `IndexMap::new`: the map without entries.
#[verifier::external_body]
pub(crate) fn circuits_new() -> (map: IndexMap<Identifier, Circuit>)
    ensures
        circuit_entries(map) == Seq::<(Identifier, Circuit)>::empty(),
{
    IndexMap::new()
}

/// `IndexMap::insert`: an equal key keeps its place in the order and gets the
/// new value; a key that is not there yet comes last. Two keys are equal when
/// their names and their spans are.
#[verifier::external_body]
pub(crate) fn circuits_insert(
    map: &mut IndexMap<Identifier, Circuit>,
    key: Identifier,
    value: Circuit,
)
    ensures
        circuits_view(circuit_entries(*final(map))) == inserted(
            circuits_view(circuit_entries(*old(map))),
            key@,
            value@,
        ),
{
    map.insert(key, value);
}

/// `IndexMap::len`: the number of entries.
#[verifier::external_body]
pub(crate) fn circuits_len(map: &IndexMap<Identifier, Circuit>) -> (r: usize)
    ensures
        r == circuit_entries(*map).len(),
{
    map.len()
}

/// `IndexMap::get_index`: the entry at a place below the length. Its key is
/// equal to the key of no other entry.
#[verifier::external_body]
pub(crate) fn circuits_get(map: &IndexMap<Identifier, Circuit>, index: usize) -> (r: (
    &Identifier,
    &Circuit,
))
    requires
        index < circuit_entries(*map).len(),
    ensures
        (*r.0, *r.1) == circuit_entries(*map)[index as int],
        forall|j: int|
            0 <= j < circuit_entries(*map).len() && j != index ==> (#[trigger] circuit_entries(
                *map,
            )[j]).0@ != r.0@,
{
    map.get_index(index).unwrap()
}

/// `IndexMap::new`: the map without entries.
#[verifier::external_body]
pub(crate) fn functions_new() -> (map: IndexMap<Identifier, Function>)
    ensures
        function_entries(map) == Seq::<(Identifier, Function)>::empty(),
{
    IndexMap::new()
}

/// `IndexMap::insert`: an equal key keeps its place in the order and gets the
/// new value; a key that is not there yet comes last. Two keys are equal when
/// their names and their spans are.
#[verifier::external_body]
pub(crate) fn functions_insert(
    map: &mut IndexMap<Identifier, Function>,
    key: Identifier,
    value: Function,
)
    ensures
        functions_view(function_entries(*final(map))) == inserted(
            functions_view(function_entries(*old(map))),
            key@,
            value@,
        ),
{
    map.insert(key, value);
}

/// `IndexMap::len`: the number of entries.
#[verifier::external_body]
pub(crate) fn functions_len(map: &IndexMap<Identifier, Function>) -> (r: usize)
    ensures
        r == function_entries(*map).len(),
{
    map.len()
}

/// `IndexMap::get_index`: the entry at a place below the length. Its key is
/// equal to the key of no other entry.
#[verifier::external_body]
pub(crate) fn functions_get(map: &IndexMap<Identifier, Function>, index: usize) -> (r: (
    &Identifier,
    &Function,
))
    requires
        index < function_entries(*map).len(),
    ensures
        (*r.0, *r.1) == function_entries(*map)[index as int],
        forall|j: int|
            0 <= j < function_entries(*map).len() && j != index ==> (#[trigger] function_entries(
                *map,
            )[j]).0@ != r.0@,
{
    map.get_index(index).unwrap()
}

/// A program: its imports, its circuits and functions by name and in the order
/// of declaration, and the inputs it expects.
#[derive(Debug, PartialEq, Eq)]
pub struct Program {
    pub name: String,
    pub expected_input: Vec<FunctionInput>,
    pub imports: Vec<ImportStatement>,
    pub circuits: IndexMap<Identifier, Circuit>,
    pub functions: IndexMap<Identifier, Function>,
}

/// What a `Program` is, with texts, lists and ordered maps as sequences.
pub struct ProgramView {
    pub name: Seq<char>,
    pub expected_input: Seq<FunctionInputView>,
    pub imports: Seq<ImportStatementView>,
    pub circuits: Seq<(IdentifierView, CircuitView)>,
    pub functions: Seq<(IdentifierView, FunctionView)>,
}

impl View for Program {
    type V = ProgramView;

    open spec fn view(&self) -> ProgramView {
        ProgramView {
            name: self.name@,
            expected_input: function_input_seq_view(self.expected_input@),
            imports: import_statement_seq_view(self.imports@),
            circuits: circuits_view(circuit_entries(self.circuits)),
            functions: functions_view(function_entries(self.functions)),
        }
    }
}

impl Program {
    /// Looks at every key of the maps of this program, which establishes that
    /// none stands twice in either of them.
    pub fn distinct_keys(&self)
        ensures
            distinct_keys(self@.circuits),
            distinct_keys(self@.functions),
    {
        let count = circuits_len(&self.circuits);
        let ghost entries = circuits_view(circuit_entries(self.circuits));
        let mut i: usize = 0;
        while i < count
            invariant
                i <= count,
                count == circuit_entries(self.circuits).len(),
                entries == circuits_view(circuit_entries(self.circuits)),
                forall|a: int, b: int|
                    0 <= a < i && 0 <= b < entries.len() && a != b ==> entries[a].0
                        != entries[b].0,
            decreases count - i,
        {
            let entry = circuits_get(&self.circuits, i);
            assert forall|b: int| 0 <= b < entries.len() && b != i implies entries[i as int].0
                != entries[b].0 by {
                assert(circuit_entries(self.circuits)[b].0@ != entry.0@);
            }
            i = i + 1;
        }
        let count = functions_len(&self.functions);
        let ghost entries = functions_view(function_entries(self.functions));
        let mut i: usize = 0;
        while i < count
            invariant
                i <= count,
                count == function_entries(self.functions).len(),
                entries == functions_view(function_entries(self.functions)),
                forall|a: int, b: int|
                    0 <= a < i && 0 <= b < entries.len() && a != b ==> entries[a].0
                        != entries[b].0,
            decreases count - i,
        {
            let entry = functions_get(&self.functions, i);
            assert forall|b: int| 0 <= b < entries.len() && b != i implies entries[i as int].0
                != entries[b].0 by {
                assert(function_entries(self.functions)[b].0@ != entry.0@);
            }
            i = i + 1;
        }
    }
}

} // verus!
