use lua_rewrite::ast::{
    Ast, Block, Call, ElseIf, Expression, Field, FunctionArgs, FunctionCall, If, Prefix, Stmt,
    Position, Suffix, Token, Trivia, Var,
};
use lua_rewrite::equivalent::eq_ast;

fn var(text: &str) -> Expression {
    Expression::Var(Var::Name(Token::new(text.to_string())))
}

fn num(text: &str) -> Expression {
    Expression::Number(Token::new(text.to_string()))
}

fn string(text: &str) -> Expression {
    Expression::String(Token::new(text.to_string()))
}

fn at(column: usize) -> Position {
    Position { bytes: column, line: 1, character: column + 1 }
}

fn symbol(text: &str) -> Expression {
    Expression::Symbol(Token::new(text.to_string()))
}

fn call_with(function: &str, args: FunctionArgs) -> Stmt {
    Stmt::FunctionCall(FunctionCall {
        prefix: Prefix::Name(Token::new(function.to_string())),
        suffixes: vec![Suffix::Call(Call::AnonymousCall(args))],
    })
}

fn call(function: &str, args: Vec<Expression>) -> Stmt {
    call_with(function, FunctionArgs::Parentheses(args))
}

fn call_expr(function: &str, args: Vec<Expression>) -> Expression {
    Expression::FunctionCall(FunctionCall {
        prefix: Prefix::Name(Token::new(function.to_string())),
        suffixes: vec![Suffix::Call(Call::AnonymousCall(FunctionArgs::Parentheses(args)))],
    })
}

fn method(object: &str, method: &str, args: Vec<Expression>) -> Stmt {
    Stmt::FunctionCall(FunctionCall {
        prefix: Prefix::Name(Token::new(object.to_string())),
        suffixes: vec![Suffix::Call(Call::MethodCall {
            name: Token::new(method.to_string()),
            args: FunctionArgs::Parentheses(args),
        })],
    })
}

fn named(key: &str, value: Expression) -> Field {
    Field::NameKey { key: Token::new(key.to_string()), value }
}

fn table(function: &str, fields: Vec<Field>) -> Stmt {
    call_with(function, FunctionArgs::TableConstructor(fields))
}

fn code(stmts: Vec<Stmt>) -> Ast {
    Ast { nodes: Block { semicolons: stmts.iter().map(|_| None).collect(), stmts, last_stmt: None, last_semicolon: None } }
}

fn eq_code(a: Vec<Stmt>, b: Vec<Stmt>) -> bool {
    eq_ast(&code(a), &code(b))
}

fn print(text: &str) -> Stmt {
    call("print", vec![string(text)])
}

fn if_code(
    condition: Expression,
    body: Vec<Stmt>,
    else_ifs: Option<Vec<(Expression, Vec<Stmt>)>>,
    else_body: Option<Vec<Stmt>>,
) -> Vec<Stmt> {
    let block = |stmts: Vec<Stmt>| Block { semicolons: stmts.iter().map(|_| None).collect(), stmts, last_stmt: None, last_semicolon: None };
    vec![Stmt::If(If {
        condition,
        block: block(body),
        else_if: else_ifs.map(|v| {
            v.into_iter().map(|(condition, body)| ElseIf { condition, block: block(body) }).collect()
        }),
        else_block: else_body.map(block),
    })]
}

#[test]
fn call_equal() {
    assert!(eq_code(vec![call("foo", vec![])], vec![call("foo", vec![])]))
}

#[test]
fn call_names_not_equal() {
    assert!(!eq_code(vec![call("bar", vec![])], vec![call("foo", vec![])]))
}

#[test]
fn call_args_equal() {
    assert!(eq_code(
        vec![call("foo", vec![var("x"), var("y")])],
        vec![call("foo", vec![var("x"), var("y")])]
    ))
}

#[test]
fn call_args_not_equal() {
    assert!(!eq_code(
        vec![call("foo", vec![var("x"), num("3")])],
        vec![call("foo", vec![var("x"), var("y")])]
    ))
}

#[test]
fn call_args_equal_strings() {
    let apple = || call_with("foo", FunctionArgs::String(Token::new("\"apple\"".to_string())));
    assert!(eq_code(vec![apple()], vec![apple()]))
}

#[test]
fn call_args_not_equal_strings() {
    assert!(!eq_code(
        vec![call_with("foo", FunctionArgs::String(Token::new("\"apple\"".to_string())))],
        vec![call_with("foo", FunctionArgs::String(Token::new("\"banana\"".to_string())))]
    ))
}

#[test]
fn call_args_equal_tables() {
    let t = || table("foo", vec![named("x", num("1")), named("y", num("2"))]);
    assert!(eq_code(vec![t()], vec![t()]))
}

#[test]
fn call_args_not_equal_numbers_in_tables() {
    assert!(!eq_code(
        vec![table("foo", vec![named("x", num("1")), named("y", num("3"))])],
        vec![table("foo", vec![named("x", num("1")), named("y", num("2"))])]
    ))
}

#[test]
fn call_args_equal_strings_in_tables() {
    let t = || table("foo", vec![named("x", num("1")), named("y", string("\"apples\""))]);
    assert!(eq_code(vec![t()], vec![t()]))
}

#[test]
fn call_args_not_equal_strings_in_tables() {
    assert!(!eq_code(
        vec![table("foo", vec![named("x", num("1")), named("y", string("\"apples\""))])],
        vec![table("foo", vec![named("x", num("1")), named("y", string("\"bananas\""))])]
    ))
}

#[test]
fn call_args_equal_lists() {
    let t = || table("foo", vec![Field::NoKey(var("x")), Field::NoKey(var("y"))]);
    assert!(eq_code(vec![t()], vec![t()]))
}

#[test]
fn call_args_not_equal_single_var_arg() {
    assert!(!eq_code(vec![call("foo", vec![var("x")])], vec![call("foo", vec![var("y")])]))
}

#[test]
fn call_args_not_equal_lists() {
    assert!(!eq_code(
        vec![table("foo", vec![Field::NoKey(var("x")), Field::NoKey(var("y"))])],
        vec![table("foo", vec![Field::NoKey(var("x"))])]
    ))
}

#[test]
fn call_args_not_equal_tables_switch() {
    assert!(!eq_code(
        vec![table("foo", vec![named("y", num("2")), named("x", num("1"))])],
        vec![table("foo", vec![named("x", num("1")), named("y", num("2"))])]
    ))
}

#[test]
fn method_call_equal() {
    assert!(eq_code(vec![method("obj", "foo", vec![])], vec![method("obj", "foo", vec![])]))
}

#[test]
fn method_call_names_not_equal() {
    assert!(!eq_code(vec![method("obj", "foo", vec![])], vec![method("subj", "foo", vec![])]))
}

#[test]
fn method_call_function_not_equal() {
    assert!(!eq_code(vec![method("obj", "foo", vec![])], vec![method("subj", "foo", vec![])]))
}

#[test]
fn method_call_with_string_and_bool_equal() {
    // obj:foo("name", false)  against  obj:foo(  "name",  false )
    let plain = method("obj", "foo", vec![string("\"name\""), symbol("false")]);
    let spaced_false = Expression::Symbol(Token {
        text: "false".to_string(),
        leading: vec![],
        trailing: vec![Trivia { text: " ".to_string(), start: at(23), end: at(24) }],
        start: at(18),
        end: at(23),
    });
    let spaced = method("obj", "foo", vec![string("\"name\""), spaced_false]);
    assert!(eq_code(vec![plain], vec![spaced]))
}

#[test]
fn method_call_with_string_and_bool_not_equal() {
    assert!(!eq_code(
        vec![method("obj", "foo", vec![string("\"name\""), symbol("false")])],
        vec![method("obj", "foo", vec![string("\"name\""), symbol("true")])]
    ))
}

#[test]
fn method_call_with_string_not_equal_and_bool() {
    assert!(!eq_code(
        vec![method("obj", "foo", vec![string("\"name\""), symbol("false")])],
        vec![method("obj", "foo", vec![string("\"other\""), symbol("false")])]
    ))
}

#[test]
fn if_statement_equal() {
    let s = || if_code(symbol("true"), vec![print("\"true\"")], None, None);
    assert!(eq_code(s(), s()))
}

#[test]
fn if_statement_not_equal_condition() {
    assert!(!eq_code(
        if_code(symbol("false"), vec![print("\"true\"")], None, None),
        if_code(symbol("true"), vec![print("\"true\"")], None, None)
    ))
}

#[test]
fn if_statement_not_equal_body() {
    assert!(!eq_code(
        if_code(symbol("false"), vec![print("\"true\"")], None, None),
        if_code(symbol("true"), vec![print("\"true\"")], None, None)
    ))
}

fn with_elseif(condition: &str, printed: &str) -> Vec<Stmt> {
    if_code(
        symbol("false"),
        vec![print("\"false\"")],
        Some(vec![(call_expr(condition, vec![]), vec![print(printed)])]),
        None,
    )
}

#[test]
fn if_statement_with_elseif_equal() {
    assert!(eq_code(with_elseif("is_true", "\"is_true\""), with_elseif("is_true", "\"is_true\"")))
}

#[test]
fn if_statement_with_elseif_condition_not_equal() {
    assert!(!eq_code(with_elseif("is_false", "\"is_true\""), with_elseif("is_true", "\"is_true\"")))
}

#[test]
fn if_statement_with_elseif_body_not_equal() {
    assert!(!eq_code(with_elseif("is_true", "\"is_true\""), with_elseif("is_true", "\"is_false\"")))
}

#[test]
fn if_statement_with_elseif_vs_without() {
    assert!(!eq_code(
        with_elseif("is_false", "\"is_true\""),
        if_code(symbol("false"), vec![print("\"false\"")], None, None)
    ))
}

fn with_else(printed: &str) -> Vec<Stmt> {
    if_code(symbol("false"), vec![print("\"false\"")], None, Some(vec![print(printed)]))
}

#[test]
fn if_statement_with_else_equal() {
    assert!(eq_code(with_else("\"is_true\""), with_else("\"is_true\"")))
}

#[test]
fn if_statement_with_else_vs_without() {
    assert!(!eq_code(
        with_else("\"is_true\""),
        if_code(symbol("false"), vec![print("\"false\"")], None, None)
    ))
}

#[test]
fn if_statement_with_else_not_equal_body() {
    assert!(!eq_code(with_else("\"is_true\""), with_else("\"is_false\"")))
}
