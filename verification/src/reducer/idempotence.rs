//! Canonicalization is idempotent: the canonical form of a program is its own
//! canonical form.
use crate::ast::common::IdentifierView;
use crate::ast::function::{CircuitMemberView, CircuitView, FunctionInputView, FunctionView};
use crate::ast::program::{distinct_keys, keys, ProgramView};
use crate::ast::statement::{
    BlockView, ConditionalStatementView, DefinitionStatementView, IterationStatementView,
    StatementView, VariableNameView,
};
use crate::errors::CanonicalizeError;
use crate::reducer::canonicalization::{
    bound_by_inputs, bound_by_names, bound_in_function, bound_in_statement, bound_in_statements,
    canonical_program, Canonicalizer, member_name, receivers, resolved_member, resolved_members,
};
use crate::reducer::reconstructing_director::{
    DirectorView, walk_block, walk_circuit, walk_circuit_entries, walk_circuit_member,
    walk_circuit_members, walk_conditional, walk_definition, walk_function, walk_function_entries,
    walk_function_input, walk_function_inputs, walk_iteration, walk_program, walk_statement,
    walk_statements, walk_variable_name, walk_variable_names,
};
use crate::reducer::resolution_keeps::lemma_resolution_keeps_circuit_member;
use crate::reducer::resolution_settled::{
    lemma_resolution_settled_annotations, lemma_resolution_settled_block,
    lemma_resolution_settled_circuit_member, lemma_resolution_settled_expression,
    lemma_resolution_settled_function_input, lemma_resolution_settled_function_inputs,
    lemma_resolution_settled_identifier, lemma_resolution_settled_statements,
    lemma_resolution_settled_type, lemma_resolution_settled_variable_name,
    lemma_resolution_settled_variable_names,
};
use crate::reducer::self_resolver::{SelfResolver, SelfResolverView};
use crate::reducer::type_inference_combiner::lemma_position_of_new_key;
use crate::reducer::settled::{
    lemma_settled_circuit_member, lemma_settled_circuit_members, lemma_settled_function,
    lemma_settled_function_inputs, lemma_settled_identifier, lemma_settled_imports,
};
use vstd::prelude::*;

verus! {

/// The names that stand for members never include `self`.
pub proof fn lemma_receivers_exclude_self(members: Seq<CircuitMemberView>, bound: Seq<Seq<char>>)
    ensures
        !receivers(members, bound).contains("self"@),
    decreases members.len(),
{
    if members.len() > 0 {
        lemma_receivers_exclude_self(members.drop_last(), bound);
        let rest = receivers(members.drop_last(), bound);
        let name = member_name(members.last());
        if name != "self"@ && !bound.contains(name) {
            assert forall|i: int| 0 <= i < rest.push(name).len() implies rest.push(name)[i]
                != "self"@ by {
                if i < rest.len() {
                    assert(rest.contains(rest[i]));
                }
            }
        }
    }
}

/// The names that stand for members depend on the names of the members alone.
pub proof fn lemma_receivers_by_names(
    first: Seq<CircuitMemberView>,
    second: Seq<CircuitMemberView>,
    bound: Seq<Seq<char>>,
)
    requires
        first.len() == second.len(),
        forall|i: int| 0 <= i < first.len() ==> member_name(first[i]) == member_name(second[i]),
    ensures
        receivers(first, bound) == receivers(second, bound),
    decreases first.len(),
{
    if first.len() > 0 {
        lemma_receivers_by_names(first.drop_last(), second.drop_last(), bound);
    }
}

/// The resolution of the receiver leaves the variables of a definition as they are.
pub proof fn lemma_resolution_binds_names(
    s: DirectorView<SelfResolverView>,
    names: Seq<VariableNameView>,
)
    requires
        !s.reducer.receivers.contains("self"@),
    ensures
        walk_variable_names::<SelfResolver>(s, names).1 matches Ok(resolved) ==> bound_by_names(
            resolved,
        ) == bound_by_names(names),
    decreases names.len(),
{
    if names.len() > 0 {
        lemma_resolution_binds_names(s, names.drop_last());
        lemma_resolution_settled_variable_names(s, names.drop_last());
        lemma_resolution_settled_variable_name(s, names.last());
        lemma_resolution_settled_identifier(s, names.last().identifier);
        match walk_variable_names::<SelfResolver>(s, names).1 {
            Ok(resolved) => {
                let done = walk_variable_names::<SelfResolver>(s, names.drop_last()).1->Ok_0;
                let node = walk_variable_name::<SelfResolver>(s, names.last()).1->Ok_0;
                assert(resolved == done.push(node));
                assert(node.identifier == names.last().identifier);
                assert(bound_by_names(resolved) =~= bound_by_names(done).push(
                    node.identifier.name,
                ));
                assert(bound_by_names(names) =~= bound_by_names(names.drop_last()).push(
                    names.last().identifier.name,
                ));
            },
            Err(_) => {},
        }
    } else {
        assert(bound_by_names(names) =~= Seq::<Seq<char>>::empty());
        match walk_variable_names::<SelfResolver>(s, names).1 {
            Ok(resolved) => {
                assert(bound_by_names(resolved) =~= Seq::<Seq<char>>::empty());
            },
            Err(_) => {},
        }
    }
}

/// The resolution of the receiver changes no name that a definition binds.
pub proof fn lemma_resolution_binds_definition(
    s: DirectorView<SelfResolverView>,
    definition: DefinitionStatementView,
)
    requires
        !s.reducer.receivers.contains("self"@),
    ensures
        walk_definition::<SelfResolver>(s, definition).1 matches Ok(resolved) ==> bound_by_names(
            resolved.variable_names,
        ) == bound_by_names(definition.variable_names),
{
    lemma_resolution_binds_names(s, definition.variable_names);
    lemma_resolution_settled_variable_names(s, definition.variable_names);
}

/// The resolution of the receiver changes no name that a loop binds.
pub proof fn lemma_resolution_binds_iteration(
    s: DirectorView<SelfResolverView>,
    iteration: IterationStatementView,
)
    requires
        !s.reducer.receivers.contains("self"@),
    ensures
        walk_iteration::<SelfResolver>(s, iteration).1 matches Ok(resolved) ==> resolved.variable
            == iteration.variable && bound_in_statements(resolved.block.statements)
            == bound_in_statements(iteration.block.statements),
    decreases iteration,
{
    lemma_resolution_settled_identifier(s, iteration.variable);
    lemma_resolution_settled_expression(s, iteration.start);
    lemma_resolution_settled_expression(s, iteration.stop);
    lemma_resolution_binds_block(s, iteration.block);
}

/// The resolution of the receiver changes no name that a block binds.
pub proof fn lemma_resolution_binds_block(s: DirectorView<SelfResolverView>, block: BlockView)
    requires
        !s.reducer.receivers.contains("self"@),
    ensures
        walk_block::<SelfResolver>(s, block).1 matches Ok(resolved) ==> bound_in_statements(
            resolved.statements,
        ) == bound_in_statements(block.statements),
    decreases block,
{
    lemma_resolution_binds_statements(s, block.statements);
}

/// The resolution of the receiver changes no name that a conditional binds.
pub proof fn lemma_resolution_binds_conditional(
    s: DirectorView<SelfResolverView>,
    conditional: ConditionalStatementView,
)
    requires
        !s.reducer.receivers.contains("self"@),
    ensures
        walk_conditional::<SelfResolver>(s, conditional).1 matches Ok(resolved)
            ==> bound_in_statements(resolved.block.statements) == bound_in_statements(
            conditional.block.statements,
        ) && match (conditional.next, resolved.next) {
            (Some(before), Some(after)) => bound_in_statement(*after) == bound_in_statement(
                *before,
            ),
            (None, None) => true,
            _ => false,
        },
    decreases conditional,
{
    lemma_resolution_settled_expression(s, conditional.condition);
    lemma_resolution_settled_block(s, conditional.block);
    lemma_resolution_binds_block(s, conditional.block);
    match conditional.next {
        Some(next) => {
            lemma_resolution_binds_statement(s, *next);
        },
        None => {},
    }
}

/// The resolution of the receiver changes no name that a statement binds.
pub proof fn lemma_resolution_binds_statement(
    s: DirectorView<SelfResolverView>,
    statement: StatementView,
)
    requires
        !s.reducer.receivers.contains("self"@),
    ensures
        walk_statement::<SelfResolver>(s, statement).1 matches Ok(resolved) ==> bound_in_statement(
            resolved,
        ) == bound_in_statement(statement),
    decreases statement,
{
    match statement {
        StatementView::Definition(definition) => {
            lemma_resolution_binds_definition(s, definition);
        },
        StatementView::Iteration(iteration) => {
            lemma_resolution_binds_iteration(s, iteration);
        },
        StatementView::Conditional(conditional) => {
            lemma_resolution_binds_conditional(s, conditional);
        },
        StatementView::Block(block) => {
            lemma_resolution_binds_block(s, block);
        },
        _ => {},
    }
}

/// The resolution of the receiver changes no name that statements bind.
pub proof fn lemma_resolution_binds_statements(
    s: DirectorView<SelfResolverView>,
    statements: Seq<StatementView>,
)
    requires
        !s.reducer.receivers.contains("self"@),
    ensures
        walk_statements::<SelfResolver>(s, statements).1 matches Ok(resolved)
            ==> bound_in_statements(resolved) == bound_in_statements(statements),
    decreases statements,
{
    if statements.len() > 0 {
        lemma_resolution_binds_statements(s, statements.drop_last());
        lemma_resolution_settled_statements(s, statements.drop_last());
        lemma_resolution_binds_statement(s, statements.last());
        match walk_statements::<SelfResolver>(s, statements).1 {
            Ok(resolved) => {
                let done = walk_statements::<SelfResolver>(s, statements.drop_last()).1->Ok_0;
                let node = walk_statement::<SelfResolver>(s, statements.last()).1->Ok_0;
                assert(resolved == done.push(node));
                assert(resolved.drop_last() =~= done);
                assert(resolved.last() == node);
            },
            Err(_) => {},
        }
    }
}

/// The resolution of the receiver changes no name of an input.
pub proof fn lemma_resolution_binds_inputs(
    s: DirectorView<SelfResolverView>,
    inputs: Seq<FunctionInputView>,
)
    requires
        !s.reducer.receivers.contains("self"@),
    ensures
        walk_function_inputs::<SelfResolver>(s, inputs).1 matches Ok(resolved) ==> bound_by_inputs(
            resolved,
        ) == bound_by_inputs(inputs),
    decreases inputs.len(),
{
    if inputs.len() > 0 {
        lemma_resolution_binds_inputs(s, inputs.drop_last());
        lemma_resolution_settled_function_inputs(s, inputs.drop_last());
        lemma_resolution_settled_function_input(s, inputs.last());
        match inputs.last() {
            FunctionInputView::Variable(variable) => {
                lemma_resolution_settled_identifier(s, variable.identifier);
            },
            _ => {},
        }
        match walk_function_inputs::<SelfResolver>(s, inputs).1 {
            Ok(resolved) => {
                let done = walk_function_inputs::<SelfResolver>(s, inputs.drop_last()).1->Ok_0;
                let node = walk_function_input::<SelfResolver>(s, inputs.last()).1->Ok_0;
                assert(resolved == done.push(node));
                assert(resolved.drop_last() =~= done);
                assert(resolved.last() == node);
            },
            Err(_) => {},
        }
    }
}

/// The resolution of the receiver changes neither the name of a member nor,
/// in a function, a name that it binds.
pub proof fn lemma_resolution_keeps_names(
    s: DirectorView<SelfResolverView>,
    member: CircuitMemberView,
)
    requires
        !s.reducer.receivers.contains("self"@),
    ensures
        walk_circuit_member::<SelfResolver>(s, member).1 matches Ok(resolved) ==> member_name(
            resolved,
        ) == member_name(member) && match (member, resolved) {
            (
                CircuitMemberView::CircuitFunction(before),
                CircuitMemberView::CircuitFunction(after),
            ) => bound_in_function(after) == bound_in_function(before),
            (
                CircuitMemberView::CircuitVariable(_, _),
                CircuitMemberView::CircuitVariable(_, _),
            ) => true,
            _ => false,
        },
{
    let within = DirectorView { reducer: s.reducer, in_circuit: !s.in_circuit };
    match member {
        CircuitMemberView::CircuitVariable(identifier, type_) => {
            lemma_resolution_settled_identifier(within, identifier);
        },
        CircuitMemberView::CircuitFunction(function) => {
            lemma_resolution_settled_identifier(within, function.identifier);
            lemma_resolution_settled_annotations(within, function.annotations);
            lemma_resolution_settled_function_inputs(within, function.input);
            lemma_resolution_binds_inputs(within, function.input);
            match function.output {
                Some(output) => {
                    lemma_resolution_settled_type(within, output, function.span);
                },
                None => {},
            }
            lemma_resolution_binds_block(within, function.block);
        },
    }
}

/// In a settled list of members each member is settled.
pub proof fn lemma_each_member_settled(
    d: DirectorView<()>,
    members: Seq<CircuitMemberView>,
    count: int,
)
    requires
        0 <= count <= members.len(),
        walk_circuit_members::<Canonicalizer>(d, members.take(count)) == (
            d,
            Ok::<Seq<CircuitMemberView>, CanonicalizeError>(members.take(count)),
        ),
    ensures
        forall|i: int|
            0 <= i < count ==> walk_circuit_member::<Canonicalizer>(d, #[trigger] members[i]) == (
                d,
                Ok::<CircuitMemberView, CanonicalizeError>(members[i]),
            ),
    decreases count,
{
    if count > 0 {
        let prefix = members.take(count);
        assert(prefix.drop_last() =~= members.take(count - 1));
        assert(prefix.last() == members[count - 1]);
        lemma_settled_circuit_members(d, members.take(count - 1));
        lemma_settled_circuit_member(d, members[count - 1]);
        match walk_circuit_members::<Canonicalizer>(d, members.take(count - 1)).1 {
            Ok(done) => {
                let node = walk_circuit_member::<Canonicalizer>(d, members[count - 1]).1->Ok_0;
                assert(done.push(node) == prefix);
                assert(done =~= prefix.drop_last());
                assert(node == prefix.last());
                lemma_each_member_settled(d, members, count - 1);
            },
            Err(_) => {},
        }
    }
}

/// The state in which the member `member` of a circuit has its receiver made explicit.
pub open spec fn resolving(
    circuit_name: IdentifierView,
    members: Seq<CircuitMemberView>,
    member: CircuitMemberView,
) -> DirectorView<SelfResolverView> {
    DirectorView {
        reducer: SelfResolverView {
            circuit_name: circuit_name.name,
            receivers: match member {
                CircuitMemberView::CircuitFunction(function) => receivers(
                    members,
                    bound_in_function(function),
                ),
                _ => Seq::empty(),
            },
        },
        in_circuit: false,
    }
}

/// The members of a circuit with their receivers made explicit are as many as
/// the members were, and each is what the resolution gives for its member.
pub proof fn lemma_resolved_members_each(
    circuit_name: IdentifierView,
    members: Seq<CircuitMemberView>,
    count: nat,
)
    requires
        count <= members.len(),
    ensures
        resolved_members(circuit_name, members, count) matches Ok(resolved) ==> resolved.len()
            == count && forall|i: int|
            0 <= i < count ==> resolved_member(circuit_name, members, members[i]) == Ok::<
                CircuitMemberView,
                CanonicalizeError,
            >(#[trigger] resolved[i]),
    decreases count,
{
    if count > 0 {
        lemma_resolved_members_each(circuit_name, members, (count - 1) as nat);
    }
}

/// What the canonicalizer gives for a circuit, a second pass leaves as it is.
pub proof fn lemma_settled_circuit(d: DirectorView<()>, circuit: CircuitView)
    ensures
        walk_circuit::<Canonicalizer>(d, circuit).1 matches Ok(settled) ==> walk_circuit::<
            Canonicalizer,
        >(d, circuit) == (d, Ok::<CircuitView, CanonicalizeError>(settled)) && walk_circuit::<
            Canonicalizer,
        >(d, settled) == (d, Ok::<CircuitView, CanonicalizeError>(settled)),
{
    let name = circuit.circuit_name;
    lemma_settled_identifier(d, name);
    lemma_settled_circuit_members(d, circuit.members);
    match walk_circuit_members::<Canonicalizer>(d, circuit.members).1 {
        Ok(members) => {
            let count = members.len();
            match resolved_members(name, members, count) {
                Ok(resolved) => {
                    assert(members.take(count as int) =~= members);
                    lemma_each_member_settled(d, members, count as int);
                    lemma_resolved_members_each(name, members, count);
                    // each resolved member is settled, keeps its name, and resolves to itself
                    assert forall|i: int| 0 <= i < count implies walk_circuit_member::<
                        Canonicalizer,
                    >(d, #[trigger] resolved[i]) == (
                        d,
                        Ok::<CircuitMemberView, CanonicalizeError>(resolved[i]),
                    ) && member_name(resolved[i]) == member_name(members[i])
                        && walk_circuit_member::<SelfResolver>(
                        resolving(name, members, members[i]),
                        resolved[i],
                    ) == (
                        resolving(name, members, members[i]),
                        Ok::<CircuitMemberView, CanonicalizeError>(resolved[i]),
                    ) && match (members[i], resolved[i]) {
                        (
                            CircuitMemberView::CircuitFunction(before),
                            CircuitMemberView::CircuitFunction(after),
                        ) => bound_in_function(after) == bound_in_function(before),
                        (
                            CircuitMemberView::CircuitVariable(_, _),
                            CircuitMemberView::CircuitVariable(_, _),
                        ) => true,
                        _ => false,
                    } by {
                        let s = resolving(name, members, members[i]);
                        match members[i] {
                            CircuitMemberView::CircuitFunction(function) => {
                                lemma_receivers_exclude_self(members, bound_in_function(function));
                            },
                            _ => {},
                        }
                        assert(!s.reducer.receivers.contains("self"@));
                        assert(resolved_member(name, members, members[i])
                            == walk_circuit_member::<SelfResolver>(s, members[i]).1);
                        lemma_resolution_keeps_circuit_member(d, s, members[i]);
                        lemma_resolution_keeps_names(s, members[i]);
                        lemma_resolution_settled_circuit_member(s, members[i]);
                    }
                    lemma_members_settled(d, resolved, count as int);
                    assert(resolved.take(count as int) =~= resolved);
                    assert forall|i: int| 0 <= i < count implies resolved_member(
                        name,
                        resolved,
                        #[trigger] resolved[i],
                    ) == Ok::<CircuitMemberView, CanonicalizeError>(resolved[i]) by {
                        match (members[i], resolved[i]) {
                            (
                                CircuitMemberView::CircuitFunction(before),
                                CircuitMemberView::CircuitFunction(after),
                            ) => {
                                lemma_receivers_by_names(
                                    resolved,
                                    members,
                                    bound_in_function(before),
                                );
                            },
                            _ => {},
                        }
                        assert(resolving(name, resolved, resolved[i]) == resolving(
                            name,
                            members,
                            members[i],
                        ));
                    }
                    lemma_resolved_again(name, resolved, count);
                    assert(resolved.take(count as int) =~= resolved);
                },
                Err(_) => {},
            }
        },
        Err(_) => {},
    }
}

/// A list of members each of which is settled is settled.
pub proof fn lemma_members_settled(
    d: DirectorView<()>,
    members: Seq<CircuitMemberView>,
    count: int,
)
    requires
        0 <= count <= members.len(),
        forall|i: int|
            0 <= i < count ==> walk_circuit_member::<Canonicalizer>(d, #[trigger] members[i]) == (
                d,
                Ok::<CircuitMemberView, CanonicalizeError>(members[i]),
            ),
    ensures
        walk_circuit_members::<Canonicalizer>(d, members.take(count)) == (
            d,
            Ok::<Seq<CircuitMemberView>, CanonicalizeError>(members.take(count)),
        ),
    decreases count,
{
    let prefix = members.take(count);
    if count > 0 {
        lemma_members_settled(d, members, count - 1);
        assert(prefix.drop_last() =~= members.take(count - 1));
        assert(prefix.last() == members[count - 1]);
        assert(prefix.drop_last().push(prefix.last()) =~= prefix);
    } else {
        assert(prefix =~= Seq::<CircuitMemberView>::empty());
    }
}

/// Members that each resolve to themselves resolve, together, to themselves.
pub proof fn lemma_resolved_again(
    circuit_name: IdentifierView,
    members: Seq<CircuitMemberView>,
    count: nat,
)
    requires
        count <= members.len(),
        forall|i: int|
            0 <= i < count ==>
                resolved_member(circuit_name, members, #[trigger] members[i]) == Ok::<
                CircuitMemberView,
                CanonicalizeError,
            >(members[i]),
    ensures
        resolved_members(circuit_name, members, count) == Ok::<
            Seq<CircuitMemberView>,
            CanonicalizeError,
        >(members.take(count as int)),
    decreases count,
{
    if count > 0 {
        lemma_resolved_again(circuit_name, members, (count - 1) as nat);
        assert(members.take(count - 1).push(members[count - 1]) =~= members.take(count as int));
    } else {
        assert(members.take(0) =~= Seq::<CircuitMemberView>::empty());
    }
}

/// What the canonicalizer gives for a map of circuits without twice the same
/// key: under each key of the map, in the order of the map, what it gives for
/// the circuit under that key.
pub proof fn lemma_circuit_entries_walked(
    d: DirectorView<()>,
    entries: Seq<(IdentifierView, CircuitView)>,
)
    requires
        distinct_keys(entries),
    ensures
        walk_circuit_entries::<Canonicalizer>(d, entries).1 matches Ok(settled) ==>
            walk_circuit_entries::<
            Canonicalizer,
        >(d, entries).0 == d && settled.len() == entries.len() && forall|i: int|
            0 <= i < entries.len() ==> (#[trigger] settled[i]).0 == entries[i].0 && walk_circuit::<
                Canonicalizer,
            >(d, entries[i].1) == (d, Ok::<CircuitView, CanonicalizeError>(settled[i].1)),
    decreases entries,
{
    if entries.len() > 0 {
        let before = entries.drop_last();
        let last = entries.last();
        assert forall|i: int, j: int| 0 <= i < j < before.len() implies before[i].0
            != before[j].0 by {
            assert(before[i] == entries[i]);
            assert(before[j] == entries[j]);
        }
        lemma_circuit_entries_walked(d, before);
        lemma_settled_identifier(d, last.0);
        lemma_settled_circuit(d, last.1);
        match walk_circuit_entries::<Canonicalizer>(d, entries).1 {
            Ok(settled) => {
                let done = walk_circuit_entries::<Canonicalizer>(d, before).1->Ok_0;
                let node = walk_circuit::<Canonicalizer>(d, last.1).1->Ok_0;
                assert forall|i: int| 0 <= i < done.len() implies (#[trigger] done[i]).0
                    != last.0 by {
                    assert(before[i] == entries[i]);
                }
                lemma_position_of_new_key(done, last.0);
                assert(settled == done.push((last.0, node)));
                assert forall|i: int| 0 <= i < entries.len() implies (#[trigger] settled[i]).0
                    == entries[i].0 && walk_circuit::<Canonicalizer>(d, entries[i].1) == (
                    d,
                    Ok::<CircuitView, CanonicalizeError>(settled[i].1),
                ) by {
                    if i < before.len() {
                        assert(settled[i] == done[i]);
                        assert(entries[i] == before[i]);
                    }
                }
            },
            Err(_) => {},
        }
    }
}

/// A map of circuits without twice the same key, each of them settled, is settled.
pub proof fn lemma_circuit_entries_settled(
    d: DirectorView<()>,
    entries: Seq<(IdentifierView, CircuitView)>,
)
    requires
        distinct_keys(entries),
        forall|i: int|
            0 <= i < entries.len() ==> walk_circuit::<Canonicalizer>(d, (#[trigger] entries[i]).1)
                == (d, Ok::<CircuitView, CanonicalizeError>(entries[i].1)),
    ensures
        walk_circuit_entries::<Canonicalizer>(d, entries) == (
            d,
            Ok::<Seq<(IdentifierView, CircuitView)>, CanonicalizeError>(entries),
        ),
    decreases entries,
{
    if entries.len() > 0 {
        let before = entries.drop_last();
        let last = entries.last();
        assert forall|i: int, j: int| 0 <= i < j < before.len() implies before[i].0
            != before[j].0 by {
            assert(before[i] == entries[i]);
            assert(before[j] == entries[j]);
        }
        assert forall|i: int| 0 <= i < before.len() implies walk_circuit::<Canonicalizer>(
            d,
            (#[trigger] before[i]).1,
        ) == (d, Ok::<CircuitView, CanonicalizeError>(before[i].1)) by {
            assert(before[i] == entries[i]);
        }
        lemma_circuit_entries_settled(d, before);
        lemma_settled_identifier(d, last.0);
        assert(walk_circuit::<Canonicalizer>(d, entries[entries.len() - 1].1) == (
            d,
            Ok::<CircuitView, CanonicalizeError>(last.1),
        ));
        assert forall|i: int| 0 <= i < before.len() implies (#[trigger] before[i]).0
            != last.0 by {
            assert(before[i] == entries[i]);
        }
        lemma_position_of_new_key(before, last.0);
        assert(before.push((last.0, last.1)) =~= entries);
    } else {
        assert(entries =~= Seq::<(IdentifierView, CircuitView)>::empty());
    }
}

/// What the canonicalizer gives for a map of circuits has the keys of the map in
/// their order, and a second pass leaves it as it is.
pub proof fn lemma_settled_circuit_entries(
    d: DirectorView<()>,
    entries: Seq<(IdentifierView, CircuitView)>,
)
    requires
        distinct_keys(entries),
    ensures
        walk_circuit_entries::<Canonicalizer>(d, entries).1 matches Ok(settled) ==>
            walk_circuit_entries::<
            Canonicalizer,
        >(d, entries).0 == d && keys(settled) == keys(entries) && walk_circuit_entries::<
            Canonicalizer,
        >(d, settled) == (d, Ok::<Seq<(IdentifierView, CircuitView)>, CanonicalizeError>(settled)),
{
    lemma_circuit_entries_walked(d, entries);
    match walk_circuit_entries::<Canonicalizer>(d, entries).1 {
        Ok(settled) => {
            assert(keys(settled) =~= keys(entries));
            assert forall|i: int| 0 <= i < settled.len() implies walk_circuit::<Canonicalizer>(
                d,
                (#[trigger] settled[i]).1,
            ) == (d, Ok::<CircuitView, CanonicalizeError>(settled[i].1)) by {
                lemma_settled_circuit(d, entries[i].1);
            }
            lemma_circuit_entries_settled(d, settled);
        },
        Err(_) => {},
    }
}

/// What the canonicalizer gives for a map of functions without twice the same
/// key: under each key of the map, in the order of the map, what it gives for
/// the function under that key.
pub proof fn lemma_function_entries_walked(
    d: DirectorView<()>,
    entries: Seq<(IdentifierView, FunctionView)>,
)
    requires
        distinct_keys(entries),
    ensures
        walk_function_entries::<Canonicalizer>(d, entries).1 matches Ok(settled) ==>
            walk_function_entries::<
            Canonicalizer,
        >(d, entries).0 == d && settled.len() == entries.len() && forall|i: int|
            0 <= i < entries.len() ==> (#[trigger] settled[i]).0 == entries[i].0 && walk_function::<
                Canonicalizer,
            >(d, entries[i].1) == (d, Ok::<FunctionView, CanonicalizeError>(settled[i].1)),
    decreases entries,
{
    if entries.len() > 0 {
        let before = entries.drop_last();
        let last = entries.last();
        assert forall|i: int, j: int| 0 <= i < j < before.len() implies before[i].0
            != before[j].0 by {
            assert(before[i] == entries[i]);
            assert(before[j] == entries[j]);
        }
        lemma_function_entries_walked(d, before);
        lemma_settled_identifier(d, last.0);
        lemma_settled_function(d, last.1);
        match walk_function_entries::<Canonicalizer>(d, entries).1 {
            Ok(settled) => {
                let done = walk_function_entries::<Canonicalizer>(d, before).1->Ok_0;
                let node = walk_function::<Canonicalizer>(d, last.1).1->Ok_0;
                assert forall|i: int| 0 <= i < done.len() implies (#[trigger] done[i]).0
                    != last.0 by {
                    assert(before[i] == entries[i]);
                }
                lemma_position_of_new_key(done, last.0);
                assert(settled == done.push((last.0, node)));
                assert forall|i: int| 0 <= i < entries.len() implies (#[trigger] settled[i]).0
                    == entries[i].0 && walk_function::<Canonicalizer>(d, entries[i].1) == (
                    d,
                    Ok::<FunctionView, CanonicalizeError>(settled[i].1),
                ) by {
                    if i < before.len() {
                        assert(settled[i] == done[i]);
                        assert(entries[i] == before[i]);
                    }
                }
            },
            Err(_) => {},
        }
    }
}

/// A map of functions without twice the same key, each of them settled, is settled.
pub proof fn lemma_function_entries_settled(
    d: DirectorView<()>,
    entries: Seq<(IdentifierView, FunctionView)>,
)
    requires
        distinct_keys(entries),
        forall|i: int|
            0 <= i < entries.len() ==> walk_function::<Canonicalizer>(d, (#[trigger] entries[i]).1)
                == (d, Ok::<FunctionView, CanonicalizeError>(entries[i].1)),
    ensures
        walk_function_entries::<Canonicalizer>(d, entries) == (
            d,
            Ok::<Seq<(IdentifierView, FunctionView)>, CanonicalizeError>(entries),
        ),
    decreases entries,
{
    if entries.len() > 0 {
        let before = entries.drop_last();
        let last = entries.last();
        assert forall|i: int, j: int| 0 <= i < j < before.len() implies before[i].0
            != before[j].0 by {
            assert(before[i] == entries[i]);
            assert(before[j] == entries[j]);
        }
        assert forall|i: int| 0 <= i < before.len() implies walk_function::<Canonicalizer>(
            d,
            (#[trigger] before[i]).1,
        ) == (d, Ok::<FunctionView, CanonicalizeError>(before[i].1)) by {
            assert(before[i] == entries[i]);
        }
        lemma_function_entries_settled(d, before);
        lemma_settled_identifier(d, last.0);
        assert(walk_function::<Canonicalizer>(d, entries[entries.len() - 1].1) == (
            d,
            Ok::<FunctionView, CanonicalizeError>(last.1),
        ));
        assert forall|i: int| 0 <= i < before.len() implies (#[trigger] before[i]).0
            != last.0 by {
            assert(before[i] == entries[i]);
        }
        lemma_position_of_new_key(before, last.0);
        assert(before.push((last.0, last.1)) =~= entries);
    } else {
        assert(entries =~= Seq::<(IdentifierView, FunctionView)>::empty());
    }
}

/// What the canonicalizer gives for a map of functions has the keys of the map in
/// their order, and a second pass leaves it as it is.
pub proof fn lemma_settled_function_entries(
    d: DirectorView<()>,
    entries: Seq<(IdentifierView, FunctionView)>,
)
    requires
        distinct_keys(entries),
    ensures
        walk_function_entries::<Canonicalizer>(d, entries).1 matches Ok(settled) ==>
            walk_function_entries::<
            Canonicalizer,
        >(d, entries).0 == d && keys(settled) == keys(entries) && walk_function_entries::<
            Canonicalizer,
        >(d, settled) == (d, Ok::<Seq<(IdentifierView, FunctionView)>, CanonicalizeError>(settled)),
{
    lemma_function_entries_walked(d, entries);
    match walk_function_entries::<Canonicalizer>(d, entries).1 {
        Ok(settled) => {
            assert(keys(settled) =~= keys(entries));
            assert forall|i: int| 0 <= i < settled.len() implies walk_function::<Canonicalizer>(
                d,
                (#[trigger] settled[i]).1,
            ) == (d, Ok::<FunctionView, CanonicalizeError>(settled[i].1)) by {
                lemma_settled_function(d, entries[i].1);
            }
            lemma_function_entries_settled(d, settled);
        },
        Err(_) => {},
    }
}

/// What the canonicalizer gives for a program has the circuits and the
/// functions of the program under their keys and in their order, and a second
/// pass leaves it as it is.
pub proof fn lemma_settled_program(d: DirectorView<()>, program: ProgramView)
    requires
        distinct_keys(program.circuits),
        distinct_keys(program.functions),
    ensures
        walk_program::<Canonicalizer>(d, program).1 matches Ok(settled) ==> keys(settled.circuits)
            == keys(program.circuits) && keys(settled.functions) == keys(program.functions)
            && walk_program::<Canonicalizer>(d, settled) == (
            d,
            Ok::<ProgramView, CanonicalizeError>(settled),
        ),
{
    lemma_settled_function_inputs(d, program.expected_input);
    lemma_settled_imports(d, program.imports);
    lemma_settled_circuit_entries(d, program.circuits);
    lemma_settled_function_entries(d, program.functions);
}

/// Canonicalization is idempotent: the canonical form of a program is its own
/// canonical form.
pub proof fn lemma_canonicalization_is_idempotent(program: ProgramView)
    requires
        distinct_keys(program.circuits),
        distinct_keys(program.functions),
    ensures
        canonical_program(program) matches Ok(canonical) ==> canonical_program(canonical) == Ok::<
            ProgramView,
            CanonicalizeError,
        >(canonical),
{
    lemma_settled_program(DirectorView { reducer: (), in_circuit: false }, program);
}

/// Canonicalization keeps the order of declaration: the canonical form of a
/// program has the circuits and the functions of the program under their keys
/// and in their order.
pub proof fn lemma_canonicalization_keeps_order(program: ProgramView)
    requires
        distinct_keys(program.circuits),
        distinct_keys(program.functions),
    ensures
        canonical_program(program) matches Ok(canonical) ==> keys(canonical.circuits) == keys(
            program.circuits,
        ) && keys(canonical.functions) == keys(program.functions),
{
    lemma_settled_program(DirectorView { reducer: (), in_circuit: false }, program);
}

} // verus!
