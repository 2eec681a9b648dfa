use lua_rewrite::ast::{
    Assignment, Ast, BinOp, Block, Call, Expression, FunctionArgs, FunctionCall, LastStmt,
    LocalAssignment, Prefix, Stmt, Suffix, Token, Var, While,
};
use lua_rewrite::replace::Replacer;

fn number(text: &str) -> Expression {
    Expression::Number(Token::new(text.to_string()))
}

fn name(text: &str) -> Expression {
    Expression::Var(Var::Name(Token::new(text.to_string())))
}

fn local(variable: &str, value: Expression) -> Stmt {
    Stmt::LocalAssignment(LocalAssignment {
        names: vec![Token::new(variable.to_string())],
        expressions: vec![value],
    })
}

fn chunk(stmts: Vec<Stmt>) -> Ast {
    Ast { nodes: Block { semicolons: stmts.iter().map(|_| None).collect(), stmts, last_stmt: None, last_semicolon: None } }
}

fn replace_code(replacer: Replacer, ast: Ast) -> Ast {
    replacer.replace_in_ast(&ast)
}

#[test]
fn assignment_replace_number() {
    assert_eq!(
        replace_code(
            Replacer { expressions: vec![(number("1"), number("2"))] },
            chunk(vec![local("x", number("1"))]),
        ),
        chunk(vec![local("x", number("2"))])
    );
}

#[test]
fn empty_replacer_changes_nothing() {
    let input = chunk(vec![
        local("x", number("1")),
        Stmt::While(While {
            condition: Expression::Symbol(Token::new("true".to_string())),
            block: Block {
                stmts: vec![local("y", name("x"))],
                semicolons: vec![Some(Token::new(";".to_string()))],
                last_stmt: Some(LastStmt::Break),
                last_semicolon: None,
            },
        }),
    ]);
    let expected = chunk(vec![
        local("x", number("1")),
        Stmt::While(While {
            condition: Expression::Symbol(Token::new("true".to_string())),
            block: Block {
                stmts: vec![local("y", name("x"))],
                semicolons: vec![Some(Token::new(";".to_string()))],
                last_stmt: Some(LastStmt::Break),
                last_semicolon: None,
            },
        }),
    ]);
    assert_eq!(replace_code(Replacer { expressions: vec![] }, input), expected);
}

#[test]
fn first_matching_pair_wins() {
    let replacer = Replacer {
        expressions: vec![(number("1"), number("2")), (number("1"), number("3"))],
    };
    assert_eq!(
        replace_code(replacer, chunk(vec![local("x", number("1"))])),
        chunk(vec![local("x", number("2"))])
    );
}

#[test]
fn replacement_is_not_searched_again() {
    // The target of a pair is put in place as it is: it is not itself
    // rewritten, even where it contains the source.
    let replacer = Replacer {
        expressions: vec![(
            name("a"),
            Expression::BinaryOperator {
                lhs: Box::new(name("a")),
                binop: BinOp::Plus, token: Token::new("+".to_string()),
                rhs: Box::new(number("1")),
            },
        )],
    };
    assert_eq!(
        replace_code(replacer, chunk(vec![local("x", name("a"))])),
        chunk(vec![local(
            "x",
            Expression::BinaryOperator {
                lhs: Box::new(name("a")),
                binop: BinOp::Plus, token: Token::new("+".to_string()),
                rhs: Box::new(number("1")),
            }
        )])
    );
}

#[test]
fn replaces_inside_nested_expressions_and_calls() {
    let replacer = Replacer { expressions: vec![(number("1"), number("2"))] };
    let call = |arg: Expression| {
        Stmt::FunctionCall(FunctionCall {
            prefix: Prefix::Name(Token::new("print".to_string())),
            suffixes: vec![Suffix::Call(Call::AnonymousCall(FunctionArgs::Parentheses(vec![
                Expression::BinaryOperator {
                    lhs: Box::new(arg),
                    binop: BinOp::Plus, token: Token::new("+".to_string()),
                    rhs: Box::new(number("5")),
                },
            ])))],
        })
    };
    assert_eq!(
        replace_code(replacer, chunk(vec![call(number("1"))])),
        chunk(vec![call(number("2"))])
    );
}

#[test]
fn assignment_targets_are_kept() {
    // Only the right-hand side of an assignment is searched.
    let replacer = Replacer { expressions: vec![(name("a"), name("b"))] };
    let assign = |value: Expression| {
        Stmt::Assignment(Assignment { variables: vec![Var::Name(Token::new("a".to_string()))], expressions: vec![value] })
    };
    assert_eq!(
        replace_code(replacer, chunk(vec![assign(name("a"))])),
        chunk(vec![assign(name("b"))])
    );
}

#[test]
fn last_statement_is_kept() {
    let replacer = Replacer { expressions: vec![(number("1"), number("2"))] };
    let input = Ast {
        nodes: Block {
            stmts: vec![],
            semicolons: vec![],
            last_stmt: Some(LastStmt::Return(vec![number("1")])),
            last_semicolon: Some(Token::new(";".to_string())),
        },
    };
    let expected = Ast {
        nodes: Block {
            stmts: vec![],
            semicolons: vec![],
            last_stmt: Some(LastStmt::Return(vec![number("1")])),
            last_semicolon: Some(Token::new(";".to_string())),
        },
    };
    assert_eq!(replace_code(replacer, input), expected);
}
