use indexmap::IndexMap;
use leo_core::ast::common::Identifier;
use leo_core::ast::expression::{
    ArrayAccessExpression, ArrayInitExpression, BinaryExpression, BinaryOperation, CallExpression,
    CastExpression, CircuitImpliedVariableDefinition, CircuitInitExpression,
    CircuitMemberAccessExpression, CircuitStaticFunctionAccessExpression, Expression,
    TupleAccessExpression, ValueExpression,
};
use leo_core::ast::function::{
    Circuit, CircuitMember, Function, FunctionInput, FunctionInputVariable,
};
use leo_core::ast::program::Program;
use leo_core::ast::statement::{
    AssignOperation, AssignStatement, Assignee, AssigneeAccess, Block, Declare,
    DefinitionStatement, IterationStatement, ReturnStatement, Statement, VariableName,
};
use leo_core::ast::types::Type;
use leo_core::errors::CanonicalizeError;
use leo_core::integer_type::IntegerType;
use leo_core::reducer::canonicalization::{canonicalize, Canonicalizer};
use leo_core::reducer::reconstructing_director::ReconstructingDirector;
use leo_core::span::Span;

fn span(line: usize, col: usize) -> Span {
    Span::new(line, line, col, col + 1)
}

fn name(text: &str, line: usize, col: usize) -> Identifier {
    Identifier { name: text.to_string(), span: span(line, col) }
}

fn variable(text: &str, line: usize, col: usize) -> Expression {
    Expression::Identifier(name(text, line, col))
}

fn number(text: &str, line: usize, col: usize) -> Expression {
    Expression::Value(ValueExpression::Integer(IntegerType::U32, text.to_string(), span(line, col)))
}

fn u32_type() -> Type {
    Type::IntegerType(IntegerType::U32)
}

fn block(statements: Vec<Statement>, line: usize) -> Block {
    Block { statements, span: span(line, 1) }
}

fn function(text: &str, input: Vec<FunctionInput>, output: Option<Type>, body: Vec<Statement>, line: usize) -> Function {
    Function {
        annotations: vec![],
        identifier: name(text, line, 10),
        input,
        output,
        block: block(body, line),
        span: span(line, 1),
    }
}

fn input(text: &str, type_: Type, line: usize) -> FunctionInput {
    FunctionInput::Variable(FunctionInputVariable {
        identifier: name(text, line, 20),
        const_: false,
        mutable: false,
        type_,
        span: span(line, 20),
    })
}

fn program(circuits: Vec<Circuit>, functions: Vec<Function>) -> Program {
    let mut circuit_map = IndexMap::new();
    for circuit in circuits {
        circuit_map.insert(circuit.circuit_name.clone(), circuit);
    }
    let mut function_map = IndexMap::new();
    for function in functions {
        function_map.insert(function.identifier.clone(), function);
    }
    Program {
        name: "test".to_string(),
        expected_input: vec![],
        imports: vec![],
        circuits: circuit_map,
        functions: function_map,
    }
}

fn director() -> ReconstructingDirector<Canonicalizer> {
    ReconstructingDirector::new(Canonicalizer)
}

/// `a += b * 2`
fn compound() -> Statement {
    Statement::Assign(AssignStatement {
        operation: AssignOperation::Add,
        assignee: Assignee { identifier: name("a", 1, 1), accesses: vec![], span: span(1, 1) },
        value: Expression::Binary(BinaryExpression {
            left: Box::new(variable("b", 1, 6)),
            right: Box::new(number("2", 1, 10)),
            op: BinaryOperation::Mul,
            span: span(1, 6),
        }),
        span: span(1, 1),
    })
}

/// `a = a + (b * 2)`
fn plain() -> Statement {
    Statement::Assign(AssignStatement {
        operation: AssignOperation::Assign,
        assignee: Assignee { identifier: name("a", 1, 1), accesses: vec![], span: span(1, 1) },
        value: Expression::Binary(BinaryExpression {
            left: Box::new(variable("a", 1, 1)),
            right: Box::new(Expression::Binary(BinaryExpression {
                left: Box::new(variable("b", 1, 6)),
                right: Box::new(number("2", 1, 10)),
                op: BinaryOperation::Mul,
                span: span(1, 6),
            })),
            op: BinaryOperation::Add,
            span: span(1, 1),
        }),
        span: span(1, 1),
    })
}

#[test]
fn compound_assignment_becomes_plain() {
    let once = director().reduce_statement(&compound()).unwrap();
    assert_eq!(once, plain());
    let twice = director().reduce_statement(&once).unwrap();
    assert_eq!(twice, once);
}

#[test]
fn every_compound_operation_becomes_its_binary_operation() {
    for (compound, binary) in [
        (AssignOperation::Add, BinaryOperation::Add),
        (AssignOperation::Sub, BinaryOperation::Sub),
        (AssignOperation::Mul, BinaryOperation::Mul),
        (AssignOperation::Div, BinaryOperation::Div),
        (AssignOperation::Pow, BinaryOperation::Pow),
    ] {
        let assign = AssignStatement {
            operation: compound,
            assignee: Assignee { identifier: name("a", 1, 1), accesses: vec![], span: span(1, 1) },
            value: variable("b", 1, 6),
            span: span(1, 1),
        };
        let reduced = director().reduce_assign(&assign).unwrap();
        assert_eq!(reduced.operation, AssignOperation::Assign);
        assert_eq!(reduced.assignee, assign.assignee);
        assert_eq!(
            reduced.value,
            Expression::Binary(BinaryExpression {
                left: Box::new(variable("a", 1, 1)),
                right: Box::new(variable("b", 1, 6)),
                op: binary,
                span: span(1, 1),
            })
        );
    }
}

#[test]
fn compound_assignment_reads_the_place_it_writes() {
    let statement = AssignStatement {
        operation: AssignOperation::Mul,
        assignee: Assignee {
            identifier: name("a", 2, 1),
            accesses: vec![
                AssigneeAccess::ArrayIndex(number("3", 2, 3)),
                AssigneeAccess::Tuple(1, span(2, 5)),
                AssigneeAccess::Member(name("x", 2, 7)),
            ],
            span: span(2, 1),
        },
        value: variable("c", 2, 12),
        span: span(2, 1),
    };
    let reduced = director().reduce_assign(&statement).unwrap();
    assert_eq!(reduced.operation, AssignOperation::Assign);
    assert_eq!(reduced.assignee, statement.assignee);
    assert_eq!(reduced.span, statement.span);
    assert_eq!(
        reduced.value,
        Expression::Binary(BinaryExpression {
            left: Box::new(Expression::CircuitMemberAccess(CircuitMemberAccessExpression {
                circuit: Box::new(Expression::TupleAccess(TupleAccessExpression {
                    tuple: Box::new(Expression::ArrayAccess(ArrayAccessExpression {
                        array: Box::new(variable("a", 2, 1)),
                        index: Box::new(number("3", 2, 3)),
                        span: span(2, 1),
                    })),
                    index: 1,
                    span: span(2, 1),
                })),
                name: name("x", 2, 7),
                span: span(2, 1),
            })),
            right: Box::new(variable("c", 2, 12)),
            op: BinaryOperation::Mul,
            span: span(2, 1),
        })
    );
    let again = director().reduce_assign(&reduced).unwrap();
    assert_eq!(again, reduced);
}

#[test]
fn a_compound_assignment_to_a_range_is_invalid() {
    let statement = AssignStatement {
        operation: AssignOperation::Add,
        assignee: Assignee {
            identifier: name("a", 2, 1),
            accesses: vec![AssigneeAccess::ArrayRange(Some(number("0", 2, 3)), None)],
            span: span(2, 1),
        },
        value: variable("c", 2, 12),
        span: span(2, 1),
    };
    assert_eq!(
        director().reduce_assign(&statement),
        Err(CanonicalizeError::InvalidCompoundAssignment { span: span(2, 1) })
    );
    let plain = AssignStatement { operation: AssignOperation::Assign, ..statement };
    assert_eq!(director().reduce_assign(&plain).unwrap().operation, AssignOperation::Assign);
}

#[test]
fn an_array_of_arrays_becomes_one_array() {
    // [[u32; (2, 3)]; 4]
    let nested = Type::Array(Box::new(Type::Array(Box::new(u32_type()), vec![2, 3])), vec![4]);
    let flat = director().reduce_type(&nested, &span(1, 1)).unwrap();
    assert_eq!(flat, Type::Array(Box::new(u32_type()), vec![4, 2, 3]));
    assert_eq!(director().reduce_type(&flat, &span(1, 1)).unwrap(), flat);

    // [[[u32; 2]; 3]; 4]
    let deep = Type::Array(
        Box::new(Type::Array(Box::new(Type::Array(Box::new(u32_type()), vec![2])), vec![3])),
        vec![4],
    );
    assert_eq!(
        director().reduce_type(&deep, &span(1, 1)).unwrap(),
        Type::Array(Box::new(u32_type()), vec![4, 3, 2])
    );

    // ([[u32; 2]; 3], bool)
    let tuple = Type::Tuple(vec![
        Type::Array(Box::new(Type::Array(Box::new(u32_type()), vec![2])), vec![3]),
        Type::Boolean,
    ]);
    assert_eq!(
        director().reduce_type(&tuple, &span(1, 1)).unwrap(),
        Type::Tuple(vec![Type::Array(Box::new(u32_type()), vec![3, 2]), Type::Boolean])
    );
}

#[test]
fn an_array_needs_dimensions_above_zero() {
    let error = Err(CanonicalizeError::InvalidArrayDimensions { span: span(4, 2) });
    let none = Type::Array(Box::new(u32_type()), vec![]);
    assert_eq!(director().reduce_type(&none, &span(4, 2)), error);
    let zero = Type::Array(Box::new(u32_type()), vec![3, 0]);
    assert_eq!(director().reduce_type(&zero, &span(4, 2)), error);
    let inner = Type::Array(Box::new(zero), vec![2]);
    assert_eq!(director().reduce_type(&inner, &span(4, 2)), error);

    let init = |dimensions: Vec<usize>| ArrayInitExpression {
        element: Box::new(number("1", 5, 2)),
        dimensions,
        span: span(5, 1),
    };
    let error = Err(CanonicalizeError::InvalidArrayDimensions { span: span(5, 1) });
    assert_eq!(director().reduce_array_init(&init(vec![])), error);
    assert_eq!(director().reduce_array_init(&init(vec![0])), error);
    assert_eq!(director().reduce_array_init(&init(vec![2, 0, 2])), error);
}

#[test]
fn an_initialiser_of_several_dimensions_becomes_nested_initialisers() {
    // [x; (2, 3, 4)]
    let init = ArrayInitExpression {
        element: Box::new(variable("x", 1, 2)),
        dimensions: vec![2, 3, 4],
        span: span(1, 1),
    };
    let nested = director().reduce_array_init(&init).unwrap();
    let expected = ArrayInitExpression {
        element: Box::new(Expression::ArrayInit(ArrayInitExpression {
            element: Box::new(Expression::ArrayInit(ArrayInitExpression {
                element: Box::new(variable("x", 1, 2)),
                dimensions: vec![4],
                span: span(1, 1),
            })),
            dimensions: vec![3],
            span: span(1, 1),
        })),
        dimensions: vec![2],
        span: span(1, 1),
    };
    assert_eq!(nested, expected);
    assert_eq!(director().reduce_array_init(&nested).unwrap(), nested);

    let single = ArrayInitExpression {
        element: Box::new(variable("x", 1, 2)),
        dimensions: vec![7],
        span: span(1, 1),
    };
    assert_eq!(director().reduce_array_init(&single).unwrap(), single);
}

#[test]
fn self_stands_only_in_a_circuit() {
    let outside = function(
        "main",
        vec![],
        Some(Type::SelfType),
        vec![Statement::Return(ReturnStatement { expression: number("1", 2, 3), span: span(2, 1) })],
        1,
    );
    assert_eq!(
        director().reduce_function(&outside),
        Err(CanonicalizeError::SelfOutsideCircuit { span: span(1, 1) })
    );
    assert_eq!(
        canonicalize(&program(vec![], vec![outside])),
        Err(CanonicalizeError::SelfOutsideCircuit { span: span(1, 1) })
    );
}

/// ```text
/// circuit Point {
///     x: u32,
///     origin: Self,
///     function new(x: u32) -> Self { return Self { x: x } }
///     function double() -> u32 { let y = x + x; return scale(y as Self, Self::new(y)) }
///     function scale(a: Self, b: Self) -> u32 { for x in 0..a { y += origin } return y }
/// }
/// ```
fn point() -> Circuit {
    let new = function(
        "new",
        vec![input("x", u32_type(), 3)],
        Some(Type::SelfType),
        vec![Statement::Return(ReturnStatement {
            expression: Expression::CircuitInit(CircuitInitExpression {
                name: name("Self", 3, 40),
                members: vec![CircuitImpliedVariableDefinition {
                    identifier: name("x", 3, 47),
                    expression: Some(variable("x", 3, 50)),
                }],
                span: span(3, 40),
            }),
            span: span(3, 33),
        })],
        3,
    );
    let double = function(
        "double",
        vec![],
        Some(u32_type()),
        vec![
            Statement::Definition(DefinitionStatement {
                declaration_type: Declare::Let,
                variable_names: vec![VariableName {
                    mutable: false,
                    identifier: name("y", 4, 36),
                    span: span(4, 36),
                }],
                type_: None,
                value: Expression::Binary(BinaryExpression {
                    left: Box::new(variable("x", 4, 40)),
                    right: Box::new(variable("x", 4, 44)),
                    op: BinaryOperation::Add,
                    span: span(4, 40),
                }),
                span: span(4, 32),
            }),
            Statement::Return(ReturnStatement {
                expression: Expression::Call(CallExpression {
                    function: Box::new(variable("scale", 4, 54)),
                    arguments: vec![
                        Expression::Cast(CastExpression {
                            inner: Box::new(variable("y", 4, 60)),
                            target_type: Type::SelfType,
                            span: span(4, 60),
                        }),
                        Expression::Call(CallExpression {
                            function: Box::new(Expression::CircuitStaticFunctionAccess(
                                CircuitStaticFunctionAccessExpression {
                                    circuit: Box::new(variable("Self", 4, 71)),
                                    name: name("new", 4, 77),
                                    span: span(4, 71),
                                },
                            )),
                            arguments: vec![variable("y", 4, 81)],
                            span: span(4, 71),
                        }),
                    ],
                    span: span(4, 54),
                }),
                span: span(4, 47),
            }),
        ],
        4,
    );
    let scale = function(
        "scale",
        vec![input("a", Type::SelfType, 5), input("b", Type::SelfType, 5)],
        Some(u32_type()),
        vec![
            Statement::Iteration(IterationStatement {
                variable: name("x", 5, 50),
                start: number("0", 5, 55),
                stop: variable("a", 5, 58),
                block: block(
                    vec![Statement::Assign(AssignStatement {
                        operation: AssignOperation::Add,
                        assignee: Assignee {
                            identifier: name("y", 5, 62),
                            accesses: vec![],
                            span: span(5, 62),
                        },
                        value: variable("origin", 5, 67),
                        span: span(5, 62),
                    })],
                    5,
                ),
                span: span(5, 46),
            }),
            Statement::Return(ReturnStatement { expression: variable("y", 5, 83), span: span(5, 76) }),
        ],
        5,
    );
    Circuit {
        circuit_name: name("Point", 1, 9),
        members: vec![
            CircuitMember::CircuitVariable(name("x", 2, 5), u32_type()),
            CircuitMember::CircuitVariable(name("origin", 2, 15), Type::SelfType),
            CircuitMember::CircuitFunction(new),
            CircuitMember::CircuitFunction(double),
            CircuitMember::CircuitFunction(scale),
        ],
    }
}

fn self_at(line: usize, col: usize) -> Box<Expression> {
    Box::new(variable("self", line, col))
}

fn member(text: &str, line: usize, col: usize) -> Expression {
    Expression::CircuitMemberAccess(CircuitMemberAccessExpression {
        circuit: self_at(line, col),
        name: name(text, line, col),
        span: span(line, col),
    })
}

fn point_type(line: usize, col: usize) -> Type {
    Type::Circuit(name("Point", line, col))
}

#[test]
fn the_receiver_is_made_explicit_in_a_circuit() {
    let canonical = director().reduce_circuit(&point()).unwrap();
    assert_eq!(canonical.circuit_name, name("Point", 1, 9));
    assert_eq!(canonical.members.len(), 5);
    assert_eq!(canonical.members[0], CircuitMember::CircuitVariable(name("x", 2, 5), u32_type()));
    // `Self` becomes the circuit, at the place of what holds it
    assert_eq!(
        canonical.members[1],
        CircuitMember::CircuitVariable(name("origin", 2, 15), point_type(2, 15))
    );
    // in `new` the input `x` stands for no member
    match &canonical.members[2] {
        CircuitMember::CircuitFunction(new) => {
            assert_eq!(new.output, Some(point_type(3, 1)));
            assert_eq!(
                new.block.statements,
                vec![Statement::Return(ReturnStatement {
                    expression: Expression::CircuitInit(CircuitInitExpression {
                        name: name("Point", 3, 40),
                        members: vec![CircuitImpliedVariableDefinition {
                            identifier: name("x", 3, 47),
                            expression: Some(variable("x", 3, 50)),
                        }],
                        span: span(3, 40),
                    }),
                    span: span(3, 33),
                })]
            );
        }
        other => panic!("no function: {:?}", other),
    }
    // in `double` the name `x` stands for the member, and so does `scale`
    match &canonical.members[3] {
        CircuitMember::CircuitFunction(double) => {
            match &double.block.statements[0] {
                Statement::Definition(definition) => assert_eq!(
                    definition.value,
                    Expression::Binary(BinaryExpression {
                        left: Box::new(member("x", 4, 40)),
                        right: Box::new(member("x", 4, 44)),
                        op: BinaryOperation::Add,
                        span: span(4, 40),
                    })
                ),
                other => panic!("no definition: {:?}", other),
            }
            match &double.block.statements[1] {
                Statement::Return(returned) => assert_eq!(
                    returned.expression,
                    Expression::Call(CallExpression {
                        function: Box::new(member("scale", 4, 54)),
                        arguments: vec![
                            Expression::Cast(CastExpression {
                                inner: Box::new(variable("y", 4, 60)),
                                target_type: point_type(4, 60),
                                span: span(4, 60),
                            }),
                            Expression::Call(CallExpression {
                                function: Box::new(Expression::CircuitStaticFunctionAccess(
                                    CircuitStaticFunctionAccessExpression {
                                        circuit: Box::new(variable("Point", 4, 71)),
                                        name: name("new", 4, 77),
                                        span: span(4, 71),
                                    },
                                )),
                                arguments: vec![variable("y", 4, 81)],
                                span: span(4, 71),
                            }),
                        ],
                        span: span(4, 54),
                    })
                ),
                other => panic!("no return: {:?}", other),
            }
        }
        other => panic!("no function: {:?}", other),
    }
    // in `scale` the loop binds `x`; `origin` stands for the member, and the
    // compound assignment is plain
    match &canonical.members[4] {
        CircuitMember::CircuitFunction(scale) => {
            assert_eq!(
                scale.input,
                vec![input("a", point_type(5, 20), 5), input("b", point_type(5, 20), 5)]
            );
            match &scale.block.statements[0] {
                Statement::Iteration(iteration) => {
                    assert_eq!(iteration.variable, name("x", 5, 50));
                    assert_eq!(
                        iteration.block.statements,
                        vec![Statement::Assign(AssignStatement {
                            operation: AssignOperation::Assign,
                            assignee: Assignee {
                                identifier: name("y", 5, 62),
                                accesses: vec![],
                                span: span(5, 62),
                            },
                            value: Expression::Binary(BinaryExpression {
                                left: Box::new(variable("y", 5, 62)),
                                right: Box::new(member("origin", 5, 67)),
                                op: BinaryOperation::Add,
                                span: span(5, 62),
                            }),
                            span: span(5, 62),
                        })]
                    );
                }
                other => panic!("no loop: {:?}", other),
            }
        }
        other => panic!("no function: {:?}", other),
    }
}

fn main_function() -> Function {
    function(
        "main",
        vec![input("a", Type::Array(Box::new(Type::Array(Box::new(u32_type()), vec![2])), vec![3]), 8)],
        Some(u32_type()),
        vec![compound(), Statement::Return(ReturnStatement { expression: variable("a", 9, 8), span: span(9, 1) })],
        8,
    )
}

fn helper_function(text: &str, line: usize) -> Function {
    function(
        text,
        vec![],
        None,
        vec![Statement::Definition(DefinitionStatement {
            declaration_type: Declare::Const,
            variable_names: vec![VariableName { mutable: false, identifier: name("t", line, 5), span: span(line, 5) }],
            type_: Some(u32_type()),
            value: Expression::ArrayInit(ArrayInitExpression {
                element: Box::new(number("0", line, 9)),
                dimensions: vec![2, 2],
                span: span(line, 8),
            }),
            span: span(line, 1),
        })],
        line,
    )
}

#[test]
fn canonicalization_is_idempotent() {
    let source = program(
        vec![point()],
        vec![helper_function("zeta", 20), main_function(), helper_function("alpha", 30)],
    );
    source.distinct_keys();
    let once = canonicalize(&source).unwrap();
    once.distinct_keys();
    assert_ne!(once, source);
    let twice = canonicalize(&once).unwrap();
    assert_eq!(twice, once);
    let thrice = canonicalize(&twice).unwrap();
    assert_eq!(thrice, once);
}

#[test]
fn canonicalization_keeps_the_order_of_declaration() {
    let source = program(
        vec![point(), Circuit { circuit_name: name("Empty", 40, 9), members: vec![] }],
        vec![helper_function("zeta", 20), main_function(), helper_function("alpha", 30)],
    );
    let canonical = canonicalize(&source).unwrap();
    assert_eq!(canonical.name, "test");
    let functions: Vec<&str> = canonical.functions.keys().map(|k| k.name.as_str()).collect();
    assert_eq!(functions, vec!["zeta", "main", "alpha"]);
    for (key, function) in canonical.functions.iter() {
        assert_eq!(key, &function.identifier);
        assert_eq!(source.functions.get(key).unwrap().span, function.span);
    }
    let circuits: Vec<&str> = canonical.circuits.keys().map(|k| k.name.as_str()).collect();
    assert_eq!(circuits, vec!["Point", "Empty"]);
    let members: Vec<String> = canonical.circuits[0]
        .members
        .iter()
        .map(|m| match m {
            CircuitMember::CircuitVariable(identifier, _) => identifier.name.clone(),
            CircuitMember::CircuitFunction(function) => function.identifier.name.clone(),
        })
        .collect();
    assert_eq!(members, vec!["x", "origin", "new", "double", "scale"]);
    // every function was canonicalized on its way into the map
    match &canonical.functions[1].input[0] {
        FunctionInput::Variable(variable) => {
            assert_eq!(variable.type_, Type::Array(Box::new(u32_type()), vec![3, 2]))
        }
        other => panic!("no variable: {:?}", other),
    }
    assert_eq!(canonical.functions[1].block.statements[0], plain());
}

#[test]
fn the_first_failure_ends_the_pass() {
    let bad_type = function(
        "first",
        vec![input("a", Type::Array(Box::new(u32_type()), vec![0]), 50)],
        None,
        vec![],
        50,
    );
    let bad_self = function("second", vec![], Some(Type::SelfType), vec![], 60);
    let source = program(vec![], vec![bad_type.clone(), bad_self.clone()]);
    assert_eq!(
        canonicalize(&source),
        Err(CanonicalizeError::InvalidArrayDimensions { span: span(50, 20) })
    );
    let source = program(vec![], vec![bad_self, bad_type]);
    assert_eq!(
        canonicalize(&source),
        Err(CanonicalizeError::SelfOutsideCircuit { span: span(60, 1) })
    );
}

#[test]
fn two_passes_over_one_program_give_one_result() {
    let source = program(vec![point()], vec![main_function()]);
    assert_eq!(canonicalize(&source), canonicalize(&source));
}

#[test]
fn a_walk_that_succeeds_leaves_the_director_outside_the_circuit() {
    let mut walker = director();
    assert!(!walker.in_circuit());
    for member in point().members.iter() {
        walker.reduce_circuit_member(member).unwrap();
        assert!(!walker.in_circuit());
    }
    walker.reduce_circuit(&point()).unwrap();
    assert!(!walker.in_circuit());
    walker.reduce_program(&program(vec![point()], vec![main_function()])).unwrap();
    assert!(!walker.in_circuit());
    walker.reduce_function(&main_function()).unwrap();
    assert!(!walker.in_circuit());
}

#[test]
fn a_walk_that_fails_in_a_member_ends_where_it_failed() {
    let mut walker = director();
    let bad = CircuitMember::CircuitVariable(
        name("a", 3, 5),
        Type::Array(Box::new(u32_type()), vec![0]),
    );
    assert_eq!(
        walker.reduce_circuit_member(&bad),
        Err(CanonicalizeError::InvalidArrayDimensions { span: span(3, 5) })
    );
    assert!(walker.in_circuit());
}
