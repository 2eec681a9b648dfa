use lua_rewrite::ast::{
    Ast, BinOp, Block, Call, ElseIf, Expression, FunctionArgs, FunctionCall, If, Index,
    LocalAssignment, Position, Prefix, Stmt, Suffix, Token, Trivia, UnOp, Var, VarExpression,
};
use lua_rewrite::equivalent::{compare_ast, compare_expression, eq_expression};
use lua_rewrite::replace::Replacer;
use lua_rewrite::simplify::simplify_ast;

fn name(text: &str) -> Expression {
    Expression::Var(Var::Name(Token::new(text.to_string())))
}

fn number(text: &str) -> Expression {
    Expression::Number(Token::new(text.to_string()))
}

fn field_of(object: &str, field: &str) -> Expression {
    Expression::Var(Var::Expression(Box::new(VarExpression {
        prefix: Prefix::Name(Token::new(object.to_string())),
        suffixes: vec![Suffix::Index(Index::Dot(Token::new(field.to_string())))],
    })))
}

fn call(function: &str, args: Vec<Expression>) -> FunctionCall {
    FunctionCall {
        prefix: Prefix::Name(Token::new(function.to_string())),
        suffixes: vec![Suffix::Call(Call::AnonymousCall(FunctionArgs::Parentheses(args)))],
    }
}

fn method_call(object: &str, method: &str) -> FunctionCall {
    FunctionCall {
        prefix: Prefix::Name(Token::new(object.to_string())),
        suffixes: vec![Suffix::Call(Call::MethodCall {
            name: Token::new(method.to_string()),
            args: FunctionArgs::Parentheses(vec![]),
        })],
    }
}

fn local(variable: &str, value: Expression) -> Stmt {
    Stmt::LocalAssignment(LocalAssignment {
        names: vec![Token::new(variable.to_string())],
        expressions: vec![value],
    })
}

fn block(stmts: Vec<Stmt>) -> Block {
    Block { semicolons: stmts.iter().map(|_| None).collect(), stmts, last_stmt: None, last_semicolon: None }
}

fn chunk(stmts: Vec<Stmt>) -> Ast {
    Ast { nodes: block(stmts) }
}

#[test]
fn comparison_is_symmetric_on_examples() {
    let pairs = vec![
        (number("1"), number("2")),
        (name("a"), number("1")),
        (
            Expression::BinaryOperator {
                lhs: Box::new(name("a")),
                binop: BinOp::And, token: Token::new("and".to_string()),
                rhs: Box::new(name("b")),
            },
            Expression::BinaryOperator {
                lhs: Box::new(name("a")),
                binop: BinOp::Or, token: Token::new("or".to_string()),
                rhs: Box::new(name("b")),
            },
        ),
        (field_of("a", "b"), field_of("a", "b")),
        (Expression::FunctionCall(call("f", vec![])), Expression::FunctionCall(method_call("f", "g"))),
    ];
    for (a, b) in pairs.iter() {
        assert_eq!(compare_expression(a, b), compare_expression(b, a));
    }
}

#[test]
fn comparable_expression_equals_itself() {
    let e = Expression::UnaryOperator {
        unop: UnOp::Not, token: Token::new("not".to_string()),
        expression: Box::new(Expression::FunctionCall(call("f", vec![number("1"), name("x")]))),
    };
    assert_eq!(compare_expression(&e, &e), Some(true));
    assert!(eq_expression(&e, &e));
}

#[test]
fn unknown_nodes_never_compare_equal() {
    let e = Expression::Other("x :: number".to_string());
    assert_eq!(compare_expression(&e, &e), Some(false));
    let s = chunk(vec![Stmt::Other("goto done".to_string())]);
    assert_eq!(compare_ast(&s, &s), Some(false));
}

#[test]
fn index_suffixes_are_not_compared() {
    assert_eq!(compare_expression(&field_of("a", "b"), &field_of("a", "b")), None);
}

#[test]
fn plain_call_against_method_call_is_not_compared() {
    let a = Expression::FunctionCall(call("f", vec![]));
    let b = Expression::FunctionCall(method_call("f", "g"));
    assert_eq!(compare_expression(&a, &b), None);
}

#[test]
fn comparison_stops_at_first_difference() {
    let a = chunk(vec![local("x", number("1")), local("y", field_of("a", "b"))]);
    let b = chunk(vec![local("x", number("2")), local("y", field_of("a", "b"))]);
    assert_eq!(compare_ast(&a, &b), Some(false));
}

#[test]
fn blocks_compare_as_far_as_the_shorter_goes() {
    let a = chunk(vec![local("x", number("1"))]);
    let b = chunk(vec![local("x", number("1")), local("y", number("2"))]);
    assert_eq!(compare_ast(&a, &b), Some(true));
    assert_eq!(compare_ast(&b, &a), Some(true));
}

#[test]
fn equivalence_is_not_transitive() {
    let a = chunk(vec![local("x", number("1")), local("y", number("2"))]);
    let b = chunk(vec![local("x", number("1"))]);
    let c = chunk(vec![local("x", number("1")), local("y", number("3"))]);
    assert_eq!(compare_ast(&a, &b), Some(true));
    assert_eq!(compare_ast(&b, &c), Some(true));
    assert_eq!(compare_ast(&a, &c), Some(false));
}

#[test]
fn replacement_with_undefined_comparison_is_refused() {
    let replacer = Replacer { expressions: vec![(field_of("a", "b"), number("1"))] };
    let input = chunk(vec![local("x", field_of("a", "b"))]);
    assert_eq!(replacer.try_replace_in_ast(&input), None);
}

#[test]
fn replacement_of_the_source_gives_the_target() {
    let replacer = Replacer { expressions: vec![(name("a"), number("7"))] };
    let input = chunk(vec![local("x", name("a"))]);
    assert_eq!(replacer.try_replace_in_ast(&input), Some(chunk(vec![local("x", number("7"))])));
}

#[test]
fn simplified_if_statements_have_no_literal_conditions() {
    let input = chunk(vec![Stmt::If(If {
        condition: Expression::BinaryOperator {
            lhs: Box::new(name("x")),
            binop: BinOp::And, token: Token::new("and".to_string()),
            rhs: Box::new(Expression::Symbol(Token::new("true".to_string()))),
        },
        block: block(vec![local("a", number("1"))]),
        else_if: Some(vec![
            ElseIf {
                condition: Expression::Symbol(Token::new("false".to_string())),
                block: block(vec![local("b", number("2"))]),
            },
            ElseIf {
                condition: Expression::UnaryOperator {
                    unop: UnOp::Not, token: Token::new("not".to_string()),
                    expression: Box::new(Expression::Symbol(Token::new("false".to_string()))),
                },
                block: block(vec![local("c", number("3"))]),
            },
        ]),
        else_block: Some(block(vec![local("d", number("4"))])),
    })]);
    let expected = chunk(vec![Stmt::If(If {
        condition: name("x"),
        block: block(vec![local("a", number("1"))]),
        else_if: None,
        else_block: Some(block(vec![local("c", number("3"))])),
    })]);
    assert_eq!(simplify_ast(input), expected);
}

#[test]
fn simplification_is_not_idempotent() {
    // `(true) or y`: the left operand is not the literal `true` as written,
    // so the first pass only drops the parentheses.
    let input = chunk(vec![local(
        "x",
        Expression::BinaryOperator {
            lhs: Box::new(Expression::Parentheses(Box::new(Expression::Symbol(Token::new("true".to_string()))))),
            binop: BinOp::Or, token: Token::new("or".to_string()),
            rhs: Box::new(name("y")),
        },
    )]);
    let once = simplify_ast(input);
    assert_eq!(
        once,
        chunk(vec![local(
            "x",
            Expression::BinaryOperator {
                lhs: Box::new(Expression::Symbol(Token::new("true".to_string()))),
                binop: BinOp::Or, token: Token::new("or".to_string()),
                rhs: Box::new(name("y")),
            },
        )])
    );
    let twice = simplify_ast(once);
    assert_eq!(twice, chunk(vec![local("x", Expression::Symbol(Token::new("true".to_string())))]));
}

#[test]
fn simplification_never_adds_statements() {
    let input = chunk(vec![
        Stmt::If(If {
            condition: Expression::Symbol(Token::new("false".to_string())),
            block: block(vec![local("a", number("1"))]),
            else_if: None,
            else_block: None,
        }),
        local("b", number("2")),
    ]);
    let output = simplify_ast(input);
    assert_eq!(output, chunk(vec![local("b", number("2"))]));
    assert!(output.nodes.stmts.len() <= 2);
}

#[test]
fn simplification_never_grows_an_expression() {
    let input = chunk(vec![local(
        "x",
        Expression::UnaryOperator {
            unop: UnOp::Not, token: Token::new("not".to_string()),
            expression: Box::new(Expression::Parentheses(Box::new(Expression::UnaryOperator {
                unop: UnOp::Not, token: Token::new("not".to_string()),
                expression: Box::new(Expression::Symbol(Token::new("true".to_string()))),
            }))),
        },
    )]);
    assert_eq!(simplify_ast(input), chunk(vec![local("x", Expression::Symbol(Token::new("true".to_string())))]));
}

fn spaced(text: &str, start: usize, trailing: &str) -> Token {
    let end = start + text.len();
    Token {
        text: text.to_string(),
        leading: vec![],
        trailing: vec![Trivia {
            text: trailing.to_string(),
            start: Position { bytes: end, line: 1, character: end + 1 },
            end: Position { bytes: end + trailing.len(), line: 1, character: end + trailing.len() + 1 },
        }],
        start: Position { bytes: start, line: 1, character: start + 1 },
        end: Position { bytes: end, line: 1, character: end + 1 },
    }
}

#[test]
fn operators_are_compared_as_whole_tokens() {
    // a or b  against  a  or  b
    let one = Expression::BinaryOperator {
        lhs: Box::new(name("a")),
        binop: BinOp::Or,
        token: spaced("or", 2, " "),
        rhs: Box::new(name("b")),
    };
    let two = Expression::BinaryOperator {
        lhs: Box::new(name("a")),
        binop: BinOp::Or,
        token: spaced("or", 3, "  "),
        rhs: Box::new(name("b")),
    };
    assert_eq!(compare_expression(&one, &two), Some(false));
}

#[test]
fn call_names_are_compared_as_whole_tokens() {
    let at = |start: usize| {
        Expression::FunctionCall(FunctionCall {
            prefix: Prefix::Name(spaced("f", start, " ")),
            suffixes: vec![Suffix::Call(Call::AnonymousCall(FunctionArgs::Parentheses(vec![])))],
        })
    };
    assert_eq!(compare_expression(&at(0), &at(0)), Some(true));
    assert_eq!(compare_expression(&at(0), &at(4)), Some(false));
}

#[test]
fn literals_are_compared_by_text() {
    let a = Expression::Symbol(spaced("true", 0, " "));
    let b = Expression::Symbol(Token::new("true".to_string()));
    assert_eq!(compare_expression(&a, &b), Some(true));
}

#[test]
fn negated_literal_keeps_its_whitespace_and_comments() {
    // not --[[c]] true
    let operand = Token {
        text: "true".to_string(),
        leading: vec![Trivia {
            text: "--[[c]]".to_string(),
            start: Position { bytes: 4, line: 1, character: 5 },
            end: Position { bytes: 11, line: 1, character: 12 },
        }],
        trailing: vec![Trivia {
            text: " ".to_string(),
            start: Position { bytes: 16, line: 1, character: 17 },
            end: Position { bytes: 17, line: 1, character: 18 },
        }],
        start: Position { bytes: 12, line: 1, character: 13 },
        end: Position { bytes: 16, line: 1, character: 17 },
    };
    let input = chunk(vec![local(
        "x",
        Expression::UnaryOperator {
            unop: UnOp::Not,
            token: Token::new("not".to_string()),
            expression: Box::new(Expression::Symbol(operand)),
        },
    )]);
    let expected_token = Token {
        text: "false".to_string(),
        leading: vec![Trivia {
            text: "--[[c]]".to_string(),
            start: Position { bytes: 4, line: 1, character: 5 },
            end: Position { bytes: 11, line: 1, character: 12 },
        }],
        trailing: vec![Trivia {
            text: " ".to_string(),
            start: Position { bytes: 16, line: 1, character: 17 },
            end: Position { bytes: 17, line: 1, character: 18 },
        }],
        start: Position { bytes: 0, line: 0, character: 0 },
        end: Position { bytes: 0, line: 0, character: 0 },
    };
    assert_eq!(simplify_ast(input), chunk(vec![local("x", Expression::Symbol(expected_token))]));
}

#[test]
fn simplification_keeps_semicolons() {
    let semicolon = || Some(Token::new(";".to_string()));
    let input = Ast {
        nodes: Block {
            stmts: vec![
                local("a", Expression::BinaryOperator {
                    lhs: Box::new(Expression::Symbol(Token::new("true".to_string()))),
                    binop: BinOp::And,
                    token: Token::new("and".to_string()),
                    rhs: Box::new(name("y")),
                }),
                Stmt::If(If {
                    condition: Expression::Symbol(Token::new("false".to_string())),
                    block: block(vec![]),
                    else_if: None,
                    else_block: None,
                }),
                local("b", number("1")),
            ],
            semicolons: vec![semicolon(), semicolon(), None],
            last_stmt: None,
            last_semicolon: None,
        },
    };
    let expected = Ast {
        nodes: Block {
            stmts: vec![local("a", name("y")), local("b", number("1"))],
            semicolons: vec![semicolon(), None],
            last_stmt: None,
            last_semicolon: None,
        },
    };
    assert_eq!(simplify_ast(input), expected);
}
