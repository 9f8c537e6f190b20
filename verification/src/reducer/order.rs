//! A pass is determined by what it is given, and canonicalization keeps the
//! order of declaration.
use crate::ast::function::{CircuitMemberView, CircuitView};
use crate::reducer::canonicalization::{
    bound_in_function, Canonicalizer, member_name, resolved_member, resolved_members,
};
use crate::reducer::idempotence::{
    lemma_receivers_exclude_self, lemma_resolution_keeps_names, lemma_resolved_members_each,
    resolving,
};
use crate::ast::program::ProgramView;
use crate::reducer::reconstructing_director::{
    DirectorView, walk_circuit, walk_circuit_member, walk_circuit_members, walk_program,
};
use crate::reducer::reconstructing_reducer::ReconstructingReducer;
use crate::reducer::self_resolver::SelfResolver;
use crate::reducer::settled::{
    lemma_settled_annotations, lemma_settled_circuit_members, lemma_settled_function_inputs,
    lemma_settled_identifier, lemma_settled_type,
};
use vstd::prelude::*;

verus! {

/// A pass is determined by what it is given: two passes of one reducer from
/// one state over one program leave the same state and give the same program,
/// or the same failure.
pub proof fn lemma_pass_is_determined<R: ReconstructingReducer>(
    first: DirectorView<R::V>,
    second: DirectorView<R::V>,
    program: ProgramView,
)
    requires
        first == second,
    ensures
        walk_program::<R>(first, program) == walk_program::<R>(second, program),
{
}

/// The names of the members of a circuit, in their order.
pub open spec fn member_names(members: Seq<CircuitMemberView>) -> Seq<Seq<char>> {
    Seq::new(members.len(), |i: int| member_name(members[i]))
}

/// What the canonicalizer gives for a member has the name of the member.
pub proof fn lemma_member_keeps_name(d: DirectorView<()>, member: CircuitMemberView)
    ensures
        walk_circuit_member::<Canonicalizer>(d, member).1 matches Ok(settled) ==> member_name(
            settled,
        ) == member_name(member),
{
    let inner = DirectorView { reducer: d.reducer, in_circuit: !d.in_circuit };
    match member {
        CircuitMemberView::CircuitVariable(identifier, type_) => {
            lemma_settled_identifier(inner, identifier);
        },
        CircuitMemberView::CircuitFunction(function) => {
            lemma_settled_identifier(inner, function.identifier);
            lemma_settled_annotations(inner, function.annotations);
            lemma_settled_function_inputs(inner, function.input);
            match function.output {
                Some(output) => {
                    lemma_settled_type(inner, output, function.span);
                },
                None => {},
            }
        },
    }
}

/// What the canonicalizer gives for the members of a circuit has their names
/// in their order.
pub proof fn lemma_members_keep_names(d: DirectorView<()>, members: Seq<CircuitMemberView>)
    ensures
        walk_circuit_members::<Canonicalizer>(d, members).1 matches Ok(settled) ==> member_names(
            settled,
        ) == member_names(members),
    decreases members.len(),
{
    if members.len() > 0 {
        lemma_members_keep_names(d, members.drop_last());
        lemma_settled_circuit_members(d, members.drop_last());
        lemma_member_keeps_name(d, members.last());
        match walk_circuit_members::<Canonicalizer>(d, members).1 {
            Ok(settled) => {
                let done = walk_circuit_members::<Canonicalizer>(d, members.drop_last()).1->Ok_0;
                let node = walk_circuit_member::<Canonicalizer>(d, members.last()).1->Ok_0;
                assert(settled == done.push(node));
                assert(member_names(settled) =~= member_names(done).push(member_name(node)));
                assert(member_names(members) =~= member_names(members.drop_last()).push(
                    member_name(members.last()),
                ));
            },
            Err(_) => {},
        }
    } else {
        match walk_circuit_members::<Canonicalizer>(d, members).1 {
            Ok(settled) => {
                assert(member_names(settled) =~= member_names(members));
            },
            Err(_) => {},
        }
    }
}

/// The canonical form of a circuit has the name of the circuit and the names
/// of its members in their order.
pub proof fn lemma_circuit_keeps_order(d: DirectorView<()>, circuit: CircuitView)
    ensures
        walk_circuit::<Canonicalizer>(d, circuit).1 matches Ok(canonical) ==> canonical.circuit_name
            == circuit.circuit_name && member_names(canonical.members) == member_names(
            circuit.members,
        ),
{
    let name = circuit.circuit_name;
    lemma_settled_identifier(d, name);
    lemma_settled_circuit_members(d, circuit.members);
    lemma_members_keep_names(d, circuit.members);
    match walk_circuit_members::<Canonicalizer>(d, circuit.members).1 {
        Ok(members) => {
            match resolved_members(name, members, members.len()) {
                Ok(resolved) => {
                    lemma_resolved_members_each(name, members, members.len());
                    assert forall|i: int| 0 <= i < members.len() implies member_name(
                        #[trigger] resolved[i],
                    ) == member_name(members[i]) by {
                        let s = resolving(name, members, members[i]);
                        match members[i] {
                            CircuitMemberView::CircuitFunction(function) => {
                                lemma_receivers_exclude_self(members, bound_in_function(function));
                            },
                            _ => {},
                        }
                        assert(resolved_member(name, members, members[i])
                            == walk_circuit_member::<SelfResolver>(s, members[i]).1);
                        lemma_resolution_keeps_names(s, members[i]);
                    }
                    assert(member_names(resolved) =~= member_names(members));
                },
                Err(_) => {},
            }
        },
        Err(_) => {},
    }
}

} // verus!
