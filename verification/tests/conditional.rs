use leo_core::ast::common::Identifier;
use leo_core::ast::expression::{BinaryExpression, BinaryOperation, Expression, ValueExpression};
use leo_core::ast::statement::{
    AssignOperation, AssignStatement, Assignee, Block, ConditionalStatement, ConsoleFunction,
    ConsoleStatement, ReturnStatement, Statement,
};
use leo_core::integer::{Boolean, Integer};
use leo_core::integer_type::{ConstInt, IntegerType};
use leo_core::reducer::canonicalization::Canonicalizer;
use leo_core::reducer::reconstructing_director::ReconstructingDirector;
use leo_core::span::Span;
use leo_core::synthesis::Synthesis;

fn span(line: usize, col: usize) -> Span {
    Span::new(line, line, col, col + 1)
}

fn name(text: &str, line: usize, col: usize) -> Identifier {
    Identifier { name: text.to_string(), span: span(line, col) }
}

fn variable(text: &str, line: usize, col: usize) -> Expression {
    Expression::Identifier(name(text, line, col))
}

fn number(text: &str, line: usize, col: usize) -> Expression {
    Expression::Value(ValueExpression::Integer(IntegerType::U32, text.to_string(), span(line, col)))
}

fn equals(left: Expression, right: Expression, line: usize) -> Expression {
    Expression::Binary(BinaryExpression {
        left: Box::new(left),
        right: Box::new(right),
        op: BinaryOperation::Eq,
        span: span(line, 4),
    })
}

fn constant(v: u32) -> Integer {
    Integer::new(&ConstInt::U32(v))
}

fn input_u32(cs: &mut Synthesis, name: &str, v: u32) -> Integer {
    Integer::allocate_type(cs, &IntegerType::U32, name, Some(v.to_string()), &span(1, 15)).unwrap()
}

fn not(b: Boolean) -> Boolean {
    match b {
        Boolean::Constant(v) => Boolean::Constant(!v),
        Boolean::Allocated(v) => Boolean::Allocated(v.map(|v| !v)),
    }
}

fn assert_branch(text: &str, value: &str, line: usize) -> Block {
    Block {
        statements: vec![Statement::Console(ConsoleStatement {
            function: ConsoleFunction::Assert(equals(variable(text, line, 24), number(value, line, 29), line)),
            span: span(line, 9),
        })],
        span: span(line - 1, 15),
    }
}

/// `if a == 1 { console.assert(a == 1); } else { console.assert(a == 0); }`,
/// synthesized for the input `a`: each assertion is enforced where its branch is taken.
fn synthesize_assert(a: u32) -> bool {
    let mut cs = Synthesis::new(true);
    let a = input_u32(&mut cs, "a", a);
    let taken = a.evaluate_equal(&constant(1)).unwrap();
    a.conditional_enforce_equal(&mut cs, &constant(1), &taken).unwrap();
    a.conditional_enforce_equal(&mut cs, &constant(0), &not(taken)).unwrap();
    cs.is_satisfied()
}

#[test]
fn test_assert() {
    let conditional = ConditionalStatement {
        condition: equals(variable("a", 2, 8), number("1", 2, 13), 2),
        block: assert_branch("a", "1", 3),
        next: Some(Box::new(Statement::Block(assert_branch("a", "0", 5)))),
        span: span(2, 5),
    };
    let mut director = ReconstructingDirector::new(Canonicalizer);
    assert_eq!(director.reduce_conditional(&conditional).unwrap(), conditional);

    // an input of 1 and an input of 0 meet the constraints, an input of 2 does not
    assert!(synthesize_assert(1));
    assert!(synthesize_assert(0));
    assert!(!synthesize_assert(2));
}

/// `let x = 5u32; if a == 1 { x = 1; } else { x = 0; }`, then the same check as above on `x`
fn synthesize_mutate(a: u32) -> (Option<String>, bool) {
    let mut cs = Synthesis::new(true);
    let a = input_u32(&mut cs, "a", a);
    let taken = a.evaluate_equal(&constant(1)).unwrap();
    let x = constant(5);
    let x = Integer::conditionally_select(&cs, &taken, &constant(1), &x).unwrap();
    let x = Integer::conditionally_select(&cs, &not(taken), &constant(0), &x).unwrap();
    x.conditional_enforce_equal(&mut cs, &constant(1), &taken).unwrap();
    x.conditional_enforce_equal(&mut cs, &constant(0), &not(taken)).unwrap();
    (x.get_value(), cs.is_satisfied())
}

#[test]
fn test_mutate() {
    assert_eq!(synthesize_mutate(1), (Some("1".to_string()), true));
    assert_eq!(synthesize_mutate(0), (Some("0".to_string()), true));
}

/// `let c = 0u32; if a == 1 { c = 1; } else if a == 2 { c = 2; } else { c = 3; } console.assert(c == b);`
fn synthesize_chain(a: u32, b: u32) -> bool {
    let mut cs = Synthesis::new(true);
    let a = input_u32(&mut cs, "a", a);
    let b = input_u32(&mut cs, "b", b);
    let first = a.evaluate_equal(&constant(1)).unwrap();
    let second = a.evaluate_equal(&constant(2)).unwrap();
    let c = constant(3);
    let c = Integer::conditionally_select(&cs, &second, &constant(2), &c).unwrap();
    let c = Integer::conditionally_select(&cs, &first, &constant(1), &c).unwrap();
    c.conditional_enforce_equal(&mut cs, &b, &Boolean::Constant(true)).unwrap();
    cs.is_satisfied()
}

#[test]
fn test_chain() {
    let assign = |value: &str, line: usize| Block {
        statements: vec![Statement::Assign(AssignStatement {
            operation: AssignOperation::Assign,
            assignee: Assignee { identifier: name("c", line, 9), accesses: vec![], span: span(line, 9) },
            value: number(value, line, 13),
            span: span(line, 9),
        })],
        span: span(line, 1),
    };
    let chain = ConditionalStatement {
        condition: equals(variable("a", 3, 8), number("1", 3, 13), 3),
        block: assign("1", 4),
        next: Some(Box::new(Statement::Conditional(ConditionalStatement {
            condition: equals(variable("a", 5, 15), number("2", 5, 20), 5),
            block: assign("2", 6),
            next: Some(Box::new(Statement::Block(assign("3", 8)))),
            span: span(5, 12),
        }))),
        span: span(3, 5),
    };
    let mut director = ReconstructingDirector::new(Canonicalizer);
    let reduced = director.reduce_conditional(&chain).unwrap();
    assert_eq!(reduced, chain);
    // the chain keeps its links in their order
    match reduced.next.as_deref() {
        Some(Statement::Conditional(second)) => {
            assert_eq!(second.block, assign("2", 6));
            assert_eq!(second.next.as_deref(), Some(&Statement::Block(assign("3", 8))));
        }
        other => panic!("no second link: {:?}", other),
    }

    assert!(synthesize_chain(1, 1));
    assert!(synthesize_chain(2, 2));
    assert!(synthesize_chain(4, 3));
    assert!(!synthesize_chain(4, 2));
}

/// `if a == 0u32 { return 0u32 } else { return 1u32 }`
fn synthesize_returns(a: u32) -> Option<String> {
    let mut cs = Synthesis::new(true);
    let a = input_u32(&mut cs, "a", a);
    let taken = a.evaluate_equal(&constant(0)).unwrap();
    let result = Integer::conditionally_select(&cs, &taken, &constant(0), &constant(1)).unwrap();
    assert!(cs.is_satisfied());
    result.get_value()
}

#[test]
fn test_multiple_returns() {
    let returns = ConditionalStatement {
        condition: equals(variable("a", 2, 8), number("0", 2, 13), 2),
        block: Block {
            statements: vec![Statement::Return(ReturnStatement {
                expression: number("0", 3, 16),
                span: span(3, 9),
            })],
            span: span(2, 18),
        },
        next: Some(Box::new(Statement::Block(Block {
            statements: vec![Statement::Return(ReturnStatement {
                expression: number("1", 5, 16),
                span: span(5, 9),
            })],
            span: span(4, 12),
        }))),
        span: span(2, 5),
    };
    let mut director = ReconstructingDirector::new(Canonicalizer);
    assert_eq!(director.reduce_conditional(&returns).unwrap(), returns);

    // an input of 1 writes 1 to the output, an input of 0 writes 0
    assert_eq!(synthesize_returns(1), Some("1".to_string()));
    assert_eq!(synthesize_returns(0), Some("0".to_string()));
}

/// `let b = 0u32; if a { b += 1; } else { b += 2; } return b`
fn synthesize_switch(a: bool) -> Option<String> {
    let mut cs = Synthesis::new(true);
    let taken = Boolean::Allocated(Some(a));
    let b = constant(0);
    let first = b.add(&mut cs, constant(1), &span(3, 9)).unwrap();
    let b = Integer::conditionally_select(&cs, &taken, &first, &b).unwrap();
    let second = b.add(&mut cs, constant(2), &span(5, 9)).unwrap();
    let b = Integer::conditionally_select(&cs, &not(taken), &second, &b).unwrap();
    assert!(cs.is_satisfied());
    b.get_value()
}

#[test]
fn test_cond_switch() {
    let add = |value: &str, line: usize| Block {
        statements: vec![Statement::Assign(AssignStatement {
            operation: AssignOperation::Add,
            assignee: Assignee { identifier: name("b", line, 9), accesses: vec![], span: span(line, 9) },
            value: number(value, line, 14),
            span: span(line, 9),
        })],
        span: span(line, 1),
    };
    let switch = ConditionalStatement {
        condition: variable("a", 2, 8),
        block: add("1", 3),
        next: Some(Box::new(Statement::Block(add("2", 5)))),
        span: span(2, 5),
    };
    let mut director = ReconstructingDirector::new(Canonicalizer);
    let reduced = director.reduce_conditional(&switch).unwrap();
    // both branches have their compound assignment made plain
    for (block, value, line) in [
        (&reduced.block, "1", 3),
        (
            match reduced.next.as_deref() {
                Some(Statement::Block(block)) => block,
                other => panic!("no block: {:?}", other),
            },
            "2",
            5,
        ),
    ] {
        assert_eq!(
            block.statements,
            vec![Statement::Assign(AssignStatement {
                operation: AssignOperation::Assign,
                assignee: Assignee { identifier: name("b", line, 9), accesses: vec![], span: span(line, 9) },
                value: Expression::Binary(BinaryExpression {
                    left: Box::new(variable("b", line, 9)),
                    right: Box::new(number(value, line, 14)),
                    op: BinaryOperation::Add,
                    span: span(line, 9),
                }),
                span: span(line, 9),
            })]
        );
    }
    assert_eq!(synthesize_switch(true), Some("1".to_string()));
    assert_eq!(synthesize_switch(false), Some("2".to_string()));
}
