use indexmap::IndexMap;
use leo_core::ast::common::Identifier;
use leo_core::ast::expression::{
    ArrayInlineExpression, ArrayRangeAccessExpression, BinaryExpression, BinaryOperation,
    Expression, GroupCoordinate, GroupTuple, GroupValue, SpreadOrExpression, TernaryExpression,
    TupleInitExpression, UnaryExpression, UnaryOperation, ValueExpression,
};
use leo_core::ast::function::{
    Annotation, Circuit, CircuitMember, Function, FunctionInput, FunctionInputVariable,
};
use leo_core::ast::imports::{
    ImportStatement, ImportSymbol, Package, PackageAccess, PackageOrPackages, Packages,
};
use leo_core::ast::program::Program;
use leo_core::ast::statement::{
    AssignOperation, AssignStatement, Assignee, Block, ConditionalStatement, ConsoleFunction,
    ConsoleStatement, ExpressionStatement, FormatString, FormatStringPart, ReturnStatement,
    Statement,
};
use leo_core::ast::types::Type;
use leo_core::integer_type::IntegerType;
use leo_core::reducer::reconstructing_director::ReconstructingDirector;
use leo_core::reducer::type_inference_combiner::TypeInferenceCombiner;
use leo_core::span::Span;

fn span(line: usize, col: usize) -> Span {
    Span::new(line, line + 1, col, col + 3)
}

fn name(text: &str, line: usize, col: usize) -> Identifier {
    Identifier { name: text.to_string(), span: span(line, col) }
}

fn variable(text: &str, line: usize, col: usize) -> Expression {
    Expression::Identifier(name(text, line, col))
}

fn field(text: &str, line: usize, col: usize) -> Expression {
    Expression::Value(ValueExpression::Field(text.to_string(), span(line, col)))
}

fn everything() -> Program {
    let group = Expression::Value(ValueExpression::Group(Box::new(GroupValue::Tuple(GroupTuple {
        x: GroupCoordinate::Number("1".to_string(), span(2, 3)),
        y: GroupCoordinate::SignHigh,
        span: span(2, 2),
    }))));
    let body = vec![
        Statement::Console(ConsoleStatement {
            function: ConsoleFunction::Log(FormatString {
                parts: vec![
                    FormatStringPart::Const("a = ".to_string()),
                    FormatStringPart::Container,
                ],
                parameters: vec![variable("a", 3, 20)],
                span: span(3, 12),
            }),
            span: span(3, 1),
        }),
        Statement::Conditional(ConditionalStatement {
            condition: Expression::Unary(UnaryExpression {
                inner: Box::new(variable("a", 4, 5)),
                op: UnaryOperation::Not,
                span: span(4, 4),
            }),
            block: Block {
                statements: vec![Statement::Expression(ExpressionStatement {
                    expression: group,
                    span: span(5, 1),
                })],
                span: span(4, 8),
            },
            next: Some(Box::new(Statement::Block(Block {
                statements: vec![Statement::Assign(AssignStatement {
                    operation: AssignOperation::Assign,
                    assignee: Assignee {
                        identifier: name("b", 6, 1),
                        accesses: vec![],
                        span: span(6, 1),
                    },
                    value: Expression::Ternary(TernaryExpression {
                        condition: Box::new(variable("a", 6, 5)),
                        if_true: Box::new(field("1", 6, 9)),
                        if_false: Box::new(Expression::ArrayRangeAccess(ArrayRangeAccessExpression {
                            array: Box::new(Expression::ArrayInline(ArrayInlineExpression {
                                elements: vec![
                                    SpreadOrExpression::Expression(field("2", 6, 15)),
                                    SpreadOrExpression::Spread(variable("rest", 6, 19)),
                                ],
                                span: span(6, 14),
                            })),
                            left: None,
                            right: Some(Box::new(field("3", 6, 30))),
                            span: span(6, 14),
                        })),
                        span: span(6, 5),
                    }),
                    span: span(6, 1),
                })],
                span: span(5, 8),
            }))),
            span: span(4, 1),
        }),
        Statement::Return(ReturnStatement {
            expression: Expression::TupleInit(TupleInitExpression {
                elements: vec![
                    Expression::Binary(BinaryExpression {
                        left: Box::new(variable("a", 7, 9)),
                        right: Box::new(variable("b", 7, 14)),
                        op: BinaryOperation::Ge,
                        span: span(7, 9),
                    }),
                    field("5", 7, 20),
                ],
                span: span(7, 8),
            }),
            span: span(7, 1),
        }),
    ];
    let main = Function {
        annotations: vec![Annotation {
            span: span(1, 1),
            name: name("test", 1, 2),
            arguments: vec!["quick".to_string(), "local".to_string()],
        }],
        identifier: name("main", 2, 10),
        input: vec![
            FunctionInput::MutSelfKeyword(span(2, 15)),
            FunctionInput::Variable(FunctionInputVariable {
                identifier: name("a", 2, 20),
                const_: true,
                mutable: false,
                type_: Type::Tuple(vec![Type::Boolean, Type::Field, Type::Group, Type::Address, Type::Char]),
                span: span(2, 20),
            }),
        ],
        output: Some(Type::IntegerType(IntegerType::I64)),
        block: Block { statements: body, span: span(2, 40) },
        span: span(2, 1),
    };
    let mut functions = IndexMap::new();
    functions.insert(main.identifier.clone(), main.clone());
    let second = Function { identifier: name("second", 9, 10), ..main.clone() };
    functions.insert(second.identifier.clone(), second);
    // one name at two places is two keys
    let third = Function { identifier: name("main", 12, 10), ..main.clone() };
    functions.insert(third.identifier.clone(), third);
    let mut circuits = IndexMap::new();
    let circuit = Circuit {
        circuit_name: name("Pair", 20, 9),
        members: vec![
            CircuitMember::CircuitVariable(name("left", 21, 5), Type::Field),
            CircuitMember::CircuitFunction(main),
        ],
    };
    circuits.insert(circuit.circuit_name.clone(), circuit);
    Program {
        name: "everything".to_string(),
        expected_input: vec![FunctionInput::SelfKeyword(span(1, 1))],
        imports: vec![
            ImportStatement {
                package_or_packages: PackageOrPackages::Package(Package {
                    name: name("std", 30, 8),
                    access: PackageAccess::SubPackage(Box::new(Package {
                        name: name("hash", 30, 12),
                        access: PackageAccess::Multiple(vec![
                            PackageAccess::Star(span(30, 18)),
                            PackageAccess::Symbol(ImportSymbol {
                                symbol: name("pedersen", 30, 21),
                                alias: Some(name("p", 30, 33)),
                                span: span(30, 21),
                            }),
                        ]),
                        span: span(30, 12),
                    })),
                    span: span(30, 8),
                }),
                span: span(30, 1),
            },
            ImportStatement {
                package_or_packages: PackageOrPackages::Packages(Packages {
                    name: name("core", 31, 8),
                    accesses: vec![PackageAccess::Star(span(31, 14))],
                    span: span(31, 8),
                }),
                span: span(31, 1),
            },
        ],
        circuits,
        functions,
    }
}

#[test]
fn a_pass_that_rewrites_nothing_gives_the_program_back() {
    let source = everything();
    assert_eq!(source.functions.len(), 3);
    let mut director = ReconstructingDirector::new(TypeInferenceCombiner::default());
    let reduced = director.reduce_program(&source).unwrap();
    assert_eq!(reduced, source);
    let names: Vec<(&str, usize)> =
        reduced.functions.keys().map(|k| (k.name.as_str(), k.span.line_start)).collect();
    assert_eq!(names, vec![("main", 2), ("second", 9), ("main", 12)]);
    assert_eq!(director.into_reducer(), TypeInferenceCombiner);
}

#[test]
fn every_kind_of_node_is_given_back_as_it_was() {
    let source = everything();
    let mut director = ReconstructingDirector::new(TypeInferenceCombiner);
    for function in source.functions.values() {
        assert_eq!(&director.reduce_function(function).unwrap(), function);
        assert_eq!(&director.reduce_block(&function.block).unwrap(), &function.block);
        for statement in &function.block.statements {
            assert_eq!(&director.reduce_statement(statement).unwrap(), statement);
        }
        for input in &function.input {
            assert_eq!(&director.reduce_function_input(input).unwrap(), input);
        }
        assert_eq!(
            director.reduce_type(function.output.as_ref().unwrap(), &function.span).unwrap(),
            function.output.clone().unwrap()
        );
    }
    for circuit in source.circuits.values() {
        assert_eq!(&director.reduce_circuit(circuit).unwrap(), circuit);
        for member in &circuit.members {
            assert_eq!(&director.reduce_circuit_member(member).unwrap(), member);
        }
    }
    for import in &source.imports {
        assert_eq!(&director.reduce_import(import).unwrap(), import);
        assert_eq!(
            director.reduce_package_or_packages(&import.package_or_packages).unwrap(),
            import.package_or_packages
        );
    }
}

#[test]
fn field_values_pass_through_the_director_unchanged() {
    // let negative: field = -1field; let sum = negative + 2field; return sum
    let program = vec![
        Statement::Expression(ExpressionStatement {
            expression: Expression::Unary(UnaryExpression {
                inner: Box::new(field("1", 1, 28)),
                op: UnaryOperation::Negate,
                span: span(1, 27),
            }),
            span: span(1, 1),
        }),
        Statement::Return(ReturnStatement {
            expression: Expression::Binary(BinaryExpression {
                left: Box::new(variable("negative", 2, 15)),
                right: Box::new(field("2", 2, 26)),
                op: BinaryOperation::Add,
                span: span(2, 15),
            }),
            span: span(2, 1),
        }),
    ];
    let block = Block { statements: program, span: span(1, 1) };
    let mut director = ReconstructingDirector::new(TypeInferenceCombiner);
    assert_eq!(director.reduce_block(&block).unwrap(), block);
    assert_eq!(
        director.reduce_type(&Type::Field, &span(1, 1)).unwrap(),
        Type::Field
    );
    assert_eq!(
        director
            .reduce_value(&ValueExpression::Field("1".to_string(), span(1, 28)))
            .unwrap(),
        ValueExpression::Field("1".to_string(), span(1, 28))
    );
}
