use lua_rewrite::ast::{
    Ast, BinOp, Block, Call, ElseIf, Expression, FunctionArgs, FunctionBody, FunctionCall,
    FunctionDeclaration, FunctionName, If, LastStmt, LocalAssignment, LocalFunction, Prefix, Stmt,
    Suffix, Token, UnOp, Var, While,
};
use lua_rewrite::simplify::simplify_ast;

fn name(text: &str) -> Expression {
    Expression::Var(Var::Name(Token::new(text.to_string())))
}

fn number(text: &str) -> Expression {
    Expression::Number(Token::new(text.to_string()))
}

fn yes() -> Expression {
    Expression::Symbol(Token::new("true".to_string()))
}

fn no() -> Expression {
    Expression::Symbol(Token::new("false".to_string()))
}

fn binary(lhs: Expression, binop: BinOp, rhs: Expression) -> Expression {
    let text = match binop {
        BinOp::Or => "or",
        BinOp::And => "and",
        _ => "+",
    };
    Expression::BinaryOperator {
        lhs: Box::new(lhs),
        binop,
        token: Token::new(text.to_string()),
        rhs: Box::new(rhs),
    }
}

fn or(lhs: Expression, rhs: Expression) -> Expression {
    binary(lhs, BinOp::Or, rhs)
}

fn and(lhs: Expression, rhs: Expression) -> Expression {
    binary(lhs, BinOp::And, rhs)
}

fn not(e: Expression) -> Expression {
    Expression::UnaryOperator { unop: UnOp::Not, token: Token::new("not".to_string()), expression: Box::new(e) }
}

fn parens(e: Expression) -> Expression {
    Expression::Parentheses(Box::new(e))
}

fn call(function: &str, args: Vec<Expression>) -> FunctionCall {
    FunctionCall {
        prefix: Prefix::Name(Token::new(function.to_string())),
        suffixes: vec![Suffix::Call(Call::AnonymousCall(FunctionArgs::Parentheses(args)))],
    }
}

fn call_expression(function: &str, args: Vec<Expression>) -> Expression {
    Expression::FunctionCall(call(function, args))
}

fn call_statement(function: &str) -> Stmt {
    Stmt::FunctionCall(call(function, vec![]))
}

fn local(variable: &str, value: Expression) -> Stmt {
    Stmt::LocalAssignment(LocalAssignment {
        names: vec![Token::new(variable.to_string())],
        expressions: vec![value],
    })
}

fn block(stmts: Vec<Stmt>) -> Block {
    Block { semicolons: stmts.iter().map(|_| None).collect(), stmts, last_stmt: None, last_semicolon: None }
}

fn chunk(stmts: Vec<Stmt>) -> Ast {
    Ast { nodes: block(stmts) }
}

fn if_statement(
    condition: Expression,
    body: Vec<Stmt>,
    else_ifs: Vec<(Expression, Vec<Stmt>)>,
    else_body: Option<Vec<Stmt>>,
) -> Stmt {
    let else_if = if else_ifs.is_empty() {
        None
    } else {
        Some(
            else_ifs
                .into_iter()
                .map(|(condition, body)| ElseIf { condition, block: block(body) })
                .collect(),
        )
    };
    Stmt::If(If { condition, block: block(body), else_if, else_block: else_body.map(block) })
}

fn do_block(body: Vec<Stmt>) -> Stmt {
    Stmt::Do(block(body))
}

fn local_x(value: Expression) -> Ast {
    chunk(vec![local("x", value)])
}

fn input_output(input: Ast, expected_output: Ast) {
    assert_eq!(simplify_ast(input), expected_output);
}

fn check_unchanged(input: fn() -> Ast) {
    assert_eq!(simplify_ast(input()), input());
}

#[test]
fn basic_assignment() {
    input_output(local_x(number("1")), local_x(number("1")));
}

#[test]
fn basic() {
    // local function f() return false; end  return jeff
    let source = || Ast {
        nodes: Block {
            stmts: vec![Stmt::LocalFunction(LocalFunction {
                name: Token::new("f".to_string()),
                body: FunctionBody {
                    parameters: vec![],
                    block: Block {
                        stmts: vec![],
                        semicolons: vec![],
                        last_stmt: Some(LastStmt::Return(vec![no()])),
                        last_semicolon: Some(Token::new(";".to_string())),
                    },
                },
            })],
            semicolons: vec![None],
            last_stmt: Some(LastStmt::Return(vec![name("jeff")])),
            last_semicolon: None,
        },
    };
    input_output(source(), source());
}

#[test]
fn bool_or_left_expression() {
    input_output(local_x(or(yes(), name("y"))), local_x(yes()));
}

#[test]
fn bool_or_right_expression() {
    input_output(local_x(or(name("y"), yes())), local_x(yes()));
}

#[test]
fn bool_and_left_expression() {
    input_output(local_x(and(no(), name("z"))), local_x(no()));
}

#[test]
fn bool_and_right_expression() {
    input_output(local_x(and(name("y"), no())), local_x(no()));
}

#[test]
fn bool_or_identity_left_expression() {
    input_output(local_x(or(no(), name("apple"))), local_x(name("apple")));
}

#[test]
fn bool_or_identity_left_expression_compound() {
    // false or true and cherry
    input_output(local_x(or(no(), and(yes(), name("cherry")))), local_x(name("cherry")));
}

#[test]
fn bool_or_identity_right_expression() {
    input_output(local_x(or(name("banana"), no())), local_x(name("banana")));
}

#[test]
fn bool_or_identity_right_expression_compound() {
    // false or fig or false
    input_output(local_x(or(or(no(), name("fig")), no())), local_x(name("fig")));
}

#[test]
fn bool_and_identity_left_expression() {
    input_output(local_x(and(yes(), name("grapefruit"))), local_x(name("grapefruit")));
}

#[test]
fn bool_and_identity_left_expression_compound() {
    // true and (false or grapefruit): the parentheses stay in the tree (a printer
    // drops them as redundant, giving `local x = grapefruit`)
    input_output(
        local_x(and(yes(), parens(or(no(), name("grapefruit"))))),
        local_x(parens(name("grapefruit"))),
    );
}

#[test]
fn bool_and_identity_right_expression() {
    input_output(local_x(and(name("cantaloupe"), yes())), local_x(name("cantaloupe")));
}

#[test]
fn bool_and_identity_right_expression_compound() {
    // durian and true and true
    input_output(local_x(and(and(name("durian"), yes()), yes())), local_x(name("durian")));
}

#[test]
fn bools_true() {
    // true or b and c
    input_output(local_x(or(yes(), and(name("b"), name("c")))), local_x(yes()));
}

#[test]
fn bools_or_subexpression() {
    // a or b and false
    input_output(
        local_x(or(name("a"), and(name("b"), no()))),
        local_x(or(name("a"), no())),
    );
}

#[test]
fn bool_literal_in_parentheses() {
    input_output(local_x(parens(yes())), local_x(yes()));
}

#[test]
fn or_expression_in_parentheses() {
    input_output(local_x(parens(or(yes(), name("y")))), local_x(yes()));
}

#[test]
fn and_expression_in_parentheses() {
    input_output(local_x(parens(and(no(), name("y")))), local_x(no()));
}

#[test]
fn not_false() {
    input_output(local_x(not(no())), local_x(yes()));
}

#[test]
fn not_true() {
    input_output(local_x(not(yes())), local_x(no()));
}

#[test]
fn negative_function_of_bool_expression() {
    let minus = |e: Expression| Expression::UnaryOperator { unop: UnOp::Minus, token: Token::new("-".to_string()), expression: Box::new(e) };
    input_output(
        local_x(minus(call_expression("foo", vec![and(yes(), yes())]))),
        local_x(minus(call_expression("foo", vec![yes()]))),
    );
}

#[test]
fn not_with_parenthetical_false() {
    input_output(local_x(not(parens(and(no(), name("y"))))), local_x(yes()));
}

#[test]
fn not_with_parenthetical_true() {
    input_output(local_x(not(parens(or(yes(), name("y"))))), local_x(no()));
}

#[test]
fn expression_in_argument_of_function() {
    input_output(
        local_x(call_expression("foo", vec![or(yes(), name("y"))])),
        local_x(call_expression("foo", vec![yes()])),
    );
}

fn method_call(prefix: Prefix, before: Vec<Suffix>, method: &str, args: Vec<Expression>) -> Expression {
    let mut suffixes = before;
    suffixes.push(Suffix::Call(Call::MethodCall {
        name: Token::new(method.to_string()),
        args: FunctionArgs::Parentheses(args),
    }));
    Expression::FunctionCall(FunctionCall { prefix, suffixes })
}

#[test]
fn expression_in_argument_of_method() {
    let obj = || Prefix::Name(Token::new("obj".to_string()));
    input_output(
        local_x(method_call(obj(), vec![], "foo", vec![or(yes(), name("y"))])),
        local_x(method_call(obj(), vec![], "foo", vec![yes()])),
    );
}

#[test]
fn expression_in_argument_of_method_on_result_of_getter() {
    let get_obj = || Prefix::Name(Token::new("getObj".to_string()));
    let no_args = || vec![Suffix::Call(Call::AnonymousCall(FunctionArgs::Parentheses(vec![])))];
    input_output(
        local_x(method_call(get_obj(), no_args(), "foo", vec![or(yes(), name("y"))])),
        local_x(method_call(get_obj(), no_args(), "foo", vec![yes()])),
    );
}

#[test]
fn expression_in_back_of_method_call() {
    input_output(
        local_x(method_call(
            Prefix::Expression(Box::new(parens(and(yes(), name("obj"))))),
            vec![],
            "foo",
            vec![],
        )),
        local_x(method_call(Prefix::Expression(Box::new(parens(name("obj")))), vec![], "foo", vec![])),
    );
}

#[test]
fn bool_literal_in_if_statement() {
    input_output(
        chunk(vec![if_statement(yes(), vec![call_statement("foo")], vec![], Some(vec![call_statement("bar")]))]),
        chunk(vec![do_block(vec![call_statement("foo")])]),
    );
}

#[test]
fn if_block_continues_to_simplify() {
    input_output(
        chunk(vec![if_statement(name("first"), vec![local("x", and(yes(), yes()))], vec![], None)]),
        chunk(vec![if_statement(name("first"), vec![local("x", yes())], vec![], None)]),
    );
}

#[test]
fn elseif_block_continues_to_simplify() {
    input_output(
        chunk(vec![if_statement(
            name("first"),
            vec![call_statement("foo")],
            vec![(name("second"), vec![local("x", and(yes(), yes()))])],
            None,
        )]),
        chunk(vec![if_statement(
            name("first"),
            vec![call_statement("foo")],
            vec![(name("second"), vec![local("x", yes())])],
            None,
        )]),
    );
}

#[test]
fn else_block_continues_to_simplify() {
    input_output(
        chunk(vec![if_statement(
            name("first"),
            vec![call_statement("foo")],
            vec![],
            Some(vec![local("x", and(yes(), yes()))]),
        )]),
        chunk(vec![if_statement(
            name("first"),
            vec![call_statement("foo")],
            vec![],
            Some(vec![local("x", yes())]),
        )]),
    );
}

#[test]
fn bool_true_expression_in_if_statement() {
    input_output(
        chunk(vec![if_statement(
            and(yes(), yes()),
            vec![call_statement("foo")],
            vec![],
            Some(vec![call_statement("bar")]),
        )]),
        chunk(vec![do_block(vec![call_statement("foo")])]),
    );
}

#[test]
fn literal_true_in_if_statement_with_elseifs() {
    input_output(
        chunk(vec![if_statement(
            yes(),
            vec![call_statement("foo")],
            vec![
                (name("something"), vec![call_statement("bar1")]),
                (name("something"), vec![call_statement("bar2")]),
            ],
            None,
        )]),
        chunk(vec![do_block(vec![call_statement("foo")])]),
    );
}

#[test]
fn elseifs_all_stay_no_else() {
    check_unchanged(|| {
        chunk(vec![if_statement(
            name("first"),
            vec![call_statement("foo")],
            vec![
                (name("second"), vec![call_statement("bar1")]),
                (name("third"), vec![call_statement("bar2")]),
            ],
            None,
        )])
    });
}

#[test]
fn elseifs_all_stay_and_else() {
    check_unchanged(|| {
        chunk(vec![if_statement(
            name("first"),
            vec![call_statement("foo")],
            vec![
                (name("second"), vec![call_statement("bar1")]),
                (name("third"), vec![call_statement("bar2")]),
            ],
            Some(vec![call_statement("bar3")]),
        )])
    });
}

#[test]
fn literal_true_in_elseif_condition() {
    input_output(
        chunk(vec![if_statement(
            name("first"),
            vec![call_statement("foo")],
            vec![
                (yes(), vec![call_statement("bar1")]),
                (name("third"), vec![call_statement("bar2")]),
            ],
            None,
        )]),
        chunk(vec![if_statement(
            name("first"),
            vec![call_statement("foo")],
            vec![],
            Some(vec![call_statement("bar1")]),
        )]),
    );
}

#[test]
fn first_condition_is_false() {
    input_output(
        chunk(vec![if_statement(
            no(),
            vec![call_statement("foo")],
            vec![
                (name("something"), vec![call_statement("bar1")]),
                (name("something"), vec![call_statement("bar2")]),
            ],
            None,
        )]),
        chunk(vec![if_statement(
            name("something"),
            vec![call_statement("bar1")],
            vec![(name("something"), vec![call_statement("bar2")])],
            None,
        )]),
    );
}

#[test]
fn just_if_false() {
    input_output(
        chunk(vec![
            local("x", number("1")),
            if_statement(no(), vec![call_statement("foo")], vec![], None),
        ]),
        chunk(vec![local("x", number("1"))]),
    );
}

#[test]
fn just_if_false_else() {
    input_output(
        chunk(vec![if_statement(no(), vec![call_statement("foo")], vec![], Some(vec![call_statement("bar")]))]),
        chunk(vec![do_block(vec![call_statement("bar")])]),
    );
}

#[test]
fn if_false_else_if_true() {
    input_output(
        chunk(vec![if_statement(
            no(),
            vec![call_statement("foo")],
            vec![
                (yes(), vec![call_statement("bar1")]),
                (name("third"), vec![call_statement("bar2")]),
            ],
            Some(vec![call_statement("bar3")]),
        )]),
        chunk(vec![do_block(vec![call_statement("bar1")])]),
    );
}

fn while_loop(condition: Expression, body: Vec<Stmt>) -> Stmt {
    Stmt::While(While { condition, block: block(body) })
}

#[test]
fn while_loop_continues_into_condition() {
    input_output(
        chunk(vec![while_loop(or(yes(), yes()), vec![])]),
        chunk(vec![while_loop(yes(), vec![])]),
    );
}

#[test]
fn while_loop_continues_into_body() {
    input_output(
        chunk(vec![while_loop(yes(), vec![local("x", or(no(), no()))])]),
        chunk(vec![while_loop(yes(), vec![local("x", no())])]),
    );
}

fn function_foo(body: Vec<Stmt>) -> Stmt {
    Stmt::FunctionDeclaration(FunctionDeclaration {
        name: FunctionName {
            names: vec![Token::new("foo".to_string())],
            dots: vec![],
            colon: None,
            method_name: None,
        },
        body: FunctionBody { parameters: vec![], block: block(body) },
    })
}

#[test]
fn function_continues_into_body() {
    input_output(
        chunk(vec![function_foo(vec![local("x", and(yes(), yes()))])]),
        chunk(vec![function_foo(vec![local("x", yes())])]),
    );
}

fn local_function_foo(body: Vec<Stmt>) -> Stmt {
    Stmt::LocalFunction(LocalFunction {
        name: Token::new("foo".to_string()),
        body: FunctionBody { parameters: vec![], block: block(body) },
    })
}

#[test]
fn local_function_continues_into_body() {
    input_output(
        chunk(vec![local_function_foo(vec![local("x", and(yes(), yes()))])]),
        chunk(vec![local_function_foo(vec![local("x", yes())])]),
    );
}
