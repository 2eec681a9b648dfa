//! Simplification of boolean logic in a chunk.
//!
//! Within expressions:
//! - `true or x`, `x or true` become `true`; `false or x` becomes `x` and
//!   `x or false` becomes `x`;
//! - `false and x`, `x and false` become `false`; `true and x` becomes `x` and
//!   `x and true` becomes `x`;
//!
//!   (these look at the operands as written, before they are simplified; the
//!   operand that is kept is simplified);
//! - `not true` becomes `false` and `not false` becomes `true` (this looks at
//!   the operand after it is simplified);
//! - parentheses around an expression that simplifies to a symbol (`true`,
//!   `false`, `nil`, `...`) are dropped.
//!
//! Within statements, an `if` statement loses its clauses whose condition
//! simplifies to `false`; a clause whose condition simplifies to `true` ends
//! the statement and becomes its `else` block, or, when it is the first clause
//! left, a `do` block of its own. An `if` statement with no clause left
//! disappears.
//!
//! The walk reaches the expressions of local assignments, the conditions and
//! blocks of `if`, `elseif`, `else` and `while`, the bodies of declared and
//! local functions, and within expressions the operands of operators, the
//! inside of parentheses, and calls (their prefix and the parenthesized
//! arguments of each call suffix). Everything else is kept as it is.
use vstd::prelude::*;

use crate::ast::{
    duplicate_option_token, model_option_token, model_semicolons,
    model_else_ifs, model_expressions, model_stmts, model_suffixes, Ast, BinOp, Block, Call,
    ElseIf, Expression, FunctionArgs, FunctionBody, FunctionCall, FunctionDeclaration, If,
    LocalAssignment, LocalFunction, Position, Prefix, Stmt, Suffix, Token, UnOp, While,
};
use crate::model::{
    SpecToken,
    SpecAst, SpecBlock, SpecCall, SpecElseIf, SpecExpression, SpecFunctionArgs, SpecFunctionBody,
    SpecFunctionCall, SpecFunctionDeclaration, SpecIf, SpecLocalAssignment, SpecLocalFunction,
    SpecPrefix, SpecStmt, SpecSuffix, SpecWhile,
};

verus! {

// ---------------------------------------------------------------------------
// Specification
// ---------------------------------------------------------------------------

/// `e` is the literal `true`.
pub open spec fn spec_is_just_true(e: SpecExpression) -> bool {
    e matches SpecExpression::Symbol(t) && t.text == "true"@
}

/// `e` is the literal `false`.
pub open spec fn spec_is_just_false(e: SpecExpression) -> bool {
    e matches SpecExpression::Symbol(t) && t.text == "false"@
}

/// A new token with the text `text` that keeps the whitespace and comments
/// around `from`, at the zero position.
pub open spec fn retexted_token(text: Seq<char>, from: SpecToken) -> SpecToken {
    SpecToken {
        text,
        leading: from.leading,
        trailing: from.trailing,
        start: Position { bytes: 0, line: 0, character: 0 },
        end: Position { bytes: 0, line: 0, character: 0 },
    }
}

/// The simplified form of an expression.
pub open spec fn simplified_expression(e: SpecExpression) -> SpecExpression
    decreases e,
{
    match e {
        SpecExpression::FunctionCall(c) => SpecExpression::FunctionCall(simplified_function_call(c)),
        SpecExpression::Parentheses(x) => {
            let inner = simplified_expression(*x);
            if inner is Symbol {
                inner
            } else {
                SpecExpression::Parentheses(Box::new(inner))
            }
        },
        SpecExpression::UnaryOperator { unop, token, expression } => {
            let inner = simplified_expression(*expression);
            if unop == UnOp::Not && spec_is_just_true(inner) {
                SpecExpression::Symbol(retexted_token("false"@, inner->Symbol_0))
            } else if unop == UnOp::Not && spec_is_just_false(inner) {
                SpecExpression::Symbol(retexted_token("true"@, inner->Symbol_0))
            } else {
                SpecExpression::UnaryOperator { unop, token, expression: Box::new(inner) }
            }
        },
        SpecExpression::BinaryOperator { lhs, binop, token, rhs } => {
            let new_lhs = simplified_expression(*lhs);
            let new_rhs = simplified_expression(*rhs);
            if binop == BinOp::Or && spec_is_just_true(*lhs) {
                *lhs
            } else if binop == BinOp::Or && spec_is_just_false(*lhs) {
                new_rhs
            } else if binop == BinOp::Or && spec_is_just_true(*rhs) {
                *rhs
            } else if binop == BinOp::Or && spec_is_just_false(*rhs) {
                new_lhs
            } else if binop == BinOp::And && spec_is_just_false(*lhs) {
                *lhs
            } else if binop == BinOp::And && spec_is_just_true(*lhs) {
                new_rhs
            } else if binop == BinOp::And && spec_is_just_false(*rhs) {
                *rhs
            } else if binop == BinOp::And && spec_is_just_true(*rhs) {
                new_lhs
            } else {
                SpecExpression::BinaryOperator {
                    lhs: Box::new(new_lhs),
                    binop,
                    token,
                    rhs: Box::new(new_rhs),
                }
            }
        },
        _ => e,
    }
}

/// The expression `lhs binop rhs`, the operator written as `token`.
pub open spec fn binary_expression(
    lhs: SpecExpression,
    binop: BinOp,
    token: SpecToken,
    rhs: SpecExpression,
) -> SpecExpression {
    SpecExpression::BinaryOperator { lhs: Box::new(lhs), binop, token, rhs: Box::new(rhs) }
}

/// The expression `unop expression`.
pub open spec fn unary_expression(unop: UnOp, token: SpecToken, expression: SpecExpression) -> SpecExpression {
    SpecExpression::UnaryOperator { unop, token, expression: Box::new(expression) }
}

/// The simplified forms of a list of expressions.
pub open spec fn simplified_expressions(s: Seq<SpecExpression>) -> Seq<SpecExpression>
    decreases s,
{
    Seq::new(
        s.len(),
        |i: int|
            if 0 <= i < s.len() {
                simplified_expression(s[i])
            } else {
                s[i]
            },
    )
}

/// The simplified form of a call: its prefix and its suffixes.
pub open spec fn simplified_function_call(c: SpecFunctionCall) -> SpecFunctionCall
    decreases c,
{
    SpecFunctionCall {
        prefix: simplified_prefix(c.prefix),
        suffixes: simplified_suffixes(c.suffixes),
    }
}

/// The simplified form of a prefix.
pub open spec fn simplified_prefix(p: SpecPrefix) -> SpecPrefix
    decreases p,
{
    match p {
        SpecPrefix::Expression(x) => SpecPrefix::Expression(Box::new(simplified_expression(*x))),
        SpecPrefix::Name(_) => p,
    }
}

/// The simplified forms of a list of suffixes.
pub open spec fn simplified_suffixes(s: Seq<SpecSuffix>) -> Seq<SpecSuffix>
    decreases s,
{
    Seq::new(
        s.len(),
        |i: int|
            if 0 <= i < s.len() {
                simplified_suffix(s[i])
            } else {
                s[i]
            },
    )
}

/// The simplified form of a suffix: the arguments of a call; an index is kept.
pub open spec fn simplified_suffix(s: SpecSuffix) -> SpecSuffix
    decreases s,
{
    match s {
        SpecSuffix::Call(c) => SpecSuffix::Call(simplified_call(c)),
        SpecSuffix::Index(_) => s,
    }
}

/// The simplified form of a call suffix: its arguments.
pub open spec fn simplified_call(c: SpecCall) -> SpecCall
    decreases c,
{
    match c {
        SpecCall::AnonymousCall(a) => SpecCall::AnonymousCall(simplified_function_args(a)),
        SpecCall::MethodCall { name, args } => SpecCall::MethodCall {
            name,
            args: simplified_function_args(args),
        },
    }
}

/// The simplified form of arguments: parenthesized arguments are simplified,
/// a string or a table is kept.
pub open spec fn simplified_function_args(a: SpecFunctionArgs) -> SpecFunctionArgs
    decreases a,
{
    match a {
        SpecFunctionArgs::Parentheses(v) => SpecFunctionArgs::Parentheses(simplified_expressions(v)),
        _ => a,
    }
}

/// The condition of a clause of an `if` statement.
pub enum SpecPredicate {
    /// A clause that is always taken.
    True,
    /// A clause taken when its expression holds.
    Expression(SpecExpression),
}

/// A clause of an `if` statement: a condition and the block it guards.
pub struct SpecClause {
    pub predicate: SpecPredicate,
    pub block: SpecBlock,
}

/// The predicate of a simplified condition.
pub open spec fn spec_to_predicate(e: SpecExpression) -> SpecPredicate {
    if spec_is_just_true(e) {
        SpecPredicate::True
    } else {
        SpecPredicate::Expression(e)
    }
}

/// The statements that a simplified statement becomes.
pub open spec fn simplified_stmt(s: SpecStmt) -> Seq<SpecStmt>
    decreases s,
{
    match s {
        SpecStmt::LocalAssignment(x) => seq![
            SpecStmt::LocalAssignment(
                SpecLocalAssignment {
                    names: x.names,
                    expressions: simplified_expressions(x.expressions),
                },
            ),
        ],
        SpecStmt::If(x) => clause_statements(if_clauses(x)),
        SpecStmt::While(x) => seq![
            SpecStmt::While(
                SpecWhile {
                    condition: simplified_expression(x.condition),
                    block: simplified_block(x.block),
                },
            ),
        ],
        SpecStmt::FunctionDeclaration(x) => seq![
            SpecStmt::FunctionDeclaration(
                SpecFunctionDeclaration { name: x.name, body: simplified_function_body(x.body) },
            ),
        ],
        SpecStmt::LocalFunction(x) => seq![
            SpecStmt::LocalFunction(
                SpecLocalFunction { name: x.name, body: simplified_function_body(x.body) },
            ),
        ],
        _ => seq![s],
    }
}

/// The statements of a simplified list of statements, in order.
pub open spec fn simplified_stmts(s: Seq<SpecStmt>) -> Seq<SpecStmt>
    decreases s,
{
    if s.len() == 0 {
        Seq::empty()
    } else {
        simplified_stmts(s.subrange(0, s.len() - 1)) + simplified_stmt(s[s.len() - 1])
    }
}

/// The semicolon after the statement at position `i`, if any.
pub open spec fn semicolon_at(semicolons: Seq<Option<SpecToken>>, i: int) -> Option<SpecToken> {
    if 0 <= i < semicolons.len() {
        semicolons[i]
    } else {
        None
    }
}

/// The semicolons after the statements of a simplified list of statements:
/// each statement that a statement becomes gets that statement's semicolon.
pub open spec fn simplified_semicolons(
    s: Seq<SpecStmt>,
    semicolons: Seq<Option<SpecToken>>,
) -> Seq<Option<SpecToken>>
    decreases s,
{
    if s.len() == 0 {
        Seq::empty()
    } else {
        simplified_semicolons(s.subrange(0, s.len() - 1), semicolons) + Seq::new(
            simplified_stmt(s[s.len() - 1]).len(),
            |k: int| semicolon_at(semicolons, s.len() - 1),
        )
    }
}

/// The simplified form of a block: its statements, each statement that a
/// statement becomes followed by that statement's semicolon; the last
/// statement and its semicolon are kept.
pub open spec fn simplified_block(b: SpecBlock) -> SpecBlock
    decreases b,
{
    SpecBlock {
        stmts: simplified_stmts(b.stmts),
        semicolons: simplified_semicolons(b.stmts, b.semicolons),
        last_stmt: b.last_stmt,
        last_semicolon: b.last_semicolon,
    }
}

/// The simplified form of a function body: its block.
pub open spec fn simplified_function_body(b: SpecFunctionBody) -> SpecFunctionBody
    decreases b,
{
    SpecFunctionBody { parameters: b.parameters, block: simplified_block(b.block) }
}

/// The clauses of a simplified `if` statement, in order: the first clause and
/// each `elseif` part whose condition does not simplify to `false`, then the
/// `else` block as a clause that is always taken.
pub open spec fn if_clauses(x: SpecIf) -> Seq<SpecClause>
    decreases x,
{
    let condition = simplified_expression(x.condition);
    let first = if spec_is_just_false(condition) {
        Seq::empty()
    } else {
        seq![SpecClause { predicate: spec_to_predicate(condition), block: simplified_block(x.block) }]
    };
    let middle = match x.else_if {
        Some(v) => else_if_clauses(v),
        None => Seq::empty(),
    };
    let last = match x.else_block {
        Some(b) => seq![SpecClause { predicate: SpecPredicate::True, block: simplified_block(b) }],
        None => Seq::empty(),
    };
    first + middle + last
}

/// The clauses of the `elseif` parts whose condition does not simplify to
/// `false`, in order.
pub open spec fn else_if_clauses(v: Seq<SpecElseIf>) -> Seq<SpecClause>
    decreases v,
{
    if v.len() == 0 {
        Seq::empty()
    } else {
        let before = else_if_clauses(v.subrange(0, v.len() - 1));
        let condition = simplified_expression(v[v.len() - 1].condition);
        if spec_is_just_false(condition) {
            before
        } else {
            before.push(
                SpecClause {
                    predicate: spec_to_predicate(condition),
                    block: simplified_block(v[v.len() - 1].block),
                },
            )
        }
    }
}

/// `Some` list of `elseif` parts, or `None` when there is none.
pub open spec fn else_ifs_part(acc: Seq<SpecElseIf>) -> Option<Seq<SpecElseIf>> {
    if acc.len() > 0 {
        Some(acc)
    } else {
        None
    }
}

/// The `if` statement whose first clause is `condition` and `block`, whose
/// `elseif` parts are `acc` followed by the clauses from position `i` on up
/// to the first clause that is always taken, and whose `else` block is that
/// clause's block, if there is one.
pub open spec fn build_if(
    condition: SpecExpression,
    block: SpecBlock,
    clauses: Seq<SpecClause>,
    i: nat,
    acc: Seq<SpecElseIf>,
) -> SpecIf
    decreases clauses.len() - i,
{
    if i >= clauses.len() {
        SpecIf { condition, block, else_if: else_ifs_part(acc), else_block: None }
    } else {
        match clauses[i as int].predicate {
            SpecPredicate::True => SpecIf {
                condition,
                block,
                else_if: else_ifs_part(acc),
                else_block: Some(clauses[i as int].block),
            },
            SpecPredicate::Expression(c) => build_if(
                condition,
                block,
                clauses,
                i + 1,
                acc.push(SpecElseIf { condition: c, block: clauses[i as int].block }),
            ),
        }
    }
}

/// The statements that a list of clauses becomes: none for no clause; a `do`
/// block when the first clause is always taken; otherwise an `if` statement.
pub open spec fn clause_statements(clauses: Seq<SpecClause>) -> Seq<SpecStmt> {
    if clauses.len() == 0 {
        Seq::empty()
    } else {
        match clauses[0].predicate {
            SpecPredicate::True => seq![SpecStmt::Do(clauses[0].block)],
            SpecPredicate::Expression(e) => seq![
                SpecStmt::If(build_if(e, clauses[0].block, clauses, 1, Seq::empty())),
            ],
        }
    }
}

/// The statements that a simplified `if` statement becomes.
pub open spec fn simplified_if(x: SpecIf) -> Seq<SpecStmt> {
    clause_statements(if_clauses(x))
}

/// The simplified form of a chunk.
pub open spec fn simplified_ast(a: SpecAst) -> SpecAst {
    SpecAst { nodes: simplified_block(a.nodes) }
}


// ---------------------------------------------------------------------------
// Simplification
// ---------------------------------------------------------------------------

fn simplify_function_args(function_args: &FunctionArgs) -> (r: FunctionArgs)
    ensures
        r@ == simplified_function_args(function_args@),
    decreases function_args, 0nat,
{
    match function_args {
        FunctionArgs::Parentheses(arguments) => FunctionArgs::Parentheses(
            simplify_punctuated_expressions(arguments),
        ),
        FunctionArgs::String(token_reference) => FunctionArgs::String(token_reference.duplicate()),
        FunctionArgs::TableConstructor(table_constructor) => FunctionArgs::TableConstructor(
            crate::ast::duplicate_fields(table_constructor),
        ),
    }
}

fn simplify_call(call: &Call) -> (r: Call)
    ensures
        r@ == simplified_call(call@),
    decreases call, 0nat,
{
    match call {
        Call::AnonymousCall(function_args) => Call::AnonymousCall(simplify_function_args(function_args)),
        Call::MethodCall { name, args } => Call::MethodCall {
            name: name.duplicate(),
            args: simplify_function_args(args),
        },
    }
}

fn simplify_prefix(prefix: &Prefix) -> (r: Prefix)
    ensures
        r@ == simplified_prefix(prefix@),
    decreases prefix, 0nat,
{
    match prefix {
        Prefix::Expression(expression) => Prefix::Expression(Box::new(simplify_expression(expression))),
        Prefix::Name(token_reference) => Prefix::Name(token_reference.duplicate()),
    }
}

fn simplify_suffix(suffix: &Suffix) -> (r: Suffix)
    ensures
        r@ == simplified_suffix(suffix@),
    decreases suffix, 0nat,
{
    match suffix {
        Suffix::Call(call) => Suffix::Call(simplify_call(call)),
        Suffix::Index(index) => Suffix::Index(index.duplicate()),
    }
}

fn simplify_function_call(function_call: &FunctionCall) -> (r: FunctionCall)
    ensures
        r@ == simplified_function_call(function_call@),
    decreases function_call, 0nat,
{
    let prefix = simplify_prefix(&function_call.prefix);
    let ghost m = model_suffixes(function_call.suffixes@);
    let mut suffixes: Vec<Suffix> = Vec::new();
    let mut i: usize = 0;
    while i < function_call.suffixes.len()
        invariant
            m == model_suffixes(function_call.suffixes@),
            m == function_call@.suffixes,
            i <= function_call.suffixes.len(),
            suffixes@.len() == i,
            forall|j: int| 0 <= j < i ==> suffixes@[j]@ == simplified_suffix(m[j]),
        decreases function_call.suffixes.len() - i,
    {
        assert(m[i as int] == function_call.suffixes@[i as int]@);
        suffixes.push(simplify_suffix(&function_call.suffixes[i]));
        i = i + 1;
    }
    assert(model_suffixes(suffixes@) =~= simplified_suffixes(m));
    FunctionCall { prefix, suffixes }
}

fn simplify_parentheses(expression: &Expression) -> (r: Expression)
    ensures
        r@ == (if simplified_expression(expression@) is Symbol {
            simplified_expression(expression@)
        } else {
            SpecExpression::Parentheses(Box::new(simplified_expression(expression@)))
        }),
    decreases expression, 2nat,
{
    let new_inside_expression = simplify_expression(expression);
    match new_inside_expression {
        Expression::Symbol(_) => new_inside_expression,
        _ => Expression::Parentheses(Box::new(new_inside_expression)),
    }
}

/// The literal `e`, given the text `text` and kept with the whitespace and
/// comments around it.
fn retext_literal(e: Expression, text: String) -> (r: Expression)
    requires
        e is Symbol,
    ensures
        r@ == SpecExpression::Symbol(retexted_token(text@, e@->Symbol_0)),
{
    match e {
        Expression::Symbol(t) => Expression::Symbol(
            Token {
                text,
                leading: t.leading,
                trailing: t.trailing,
                start: Position::zero(),
                end: Position::zero(),
            },
        ),
        other => other,
    }
}

fn simplify_unary_operator(unop: &UnOp, token: &Token, expression: &Expression) -> (r: Expression)
    ensures
        r@ == simplified_expression(unary_expression(*unop, token@, expression@)),
    decreases expression, 2nat,
{
    let new_expression = simplify_expression(expression);
    if *unop == UnOp::Not {
        if is_just_true(&new_expression) {
            return retext_literal(new_expression, "false".to_owned());
        }
        if is_just_false(&new_expression) {
            return retext_literal(new_expression, "true".to_owned());
        }
    }
    Expression::UnaryOperator {
        unop: *unop,
        token: token.duplicate(),
        expression: Box::new(new_expression),
    }
}

fn simplify_binary_operator(
    left_expression: &Expression,
    binop: &BinOp,
    token: &Token,
    right_expression: &Expression,
    new_left_expression: Expression,
    new_right_expression: Expression,
) -> (r: Expression)
    requires
        new_left_expression@ == simplified_expression(left_expression@),
        new_right_expression@ == simplified_expression(right_expression@),
    ensures
        r@ == simplified_expression(
            binary_expression(left_expression@, *binop, token@, right_expression@),
        ),
{
    if *binop == BinOp::Or {
        if is_just_true(left_expression) {
            return left_expression.duplicate();
        }
        if is_just_false(left_expression) {
            return new_right_expression;
        }
        if is_just_true(right_expression) {
            return right_expression.duplicate();
        }
        if is_just_false(right_expression) {
            return new_left_expression;
        }
    }
    if *binop == BinOp::And {
        if is_just_false(left_expression) {
            return left_expression.duplicate();
        }
        if is_just_true(left_expression) {
            return new_right_expression;
        }
        if is_just_false(right_expression) {
            return right_expression.duplicate();
        }
        if is_just_true(right_expression) {
            return new_left_expression;
        }
    }
    Expression::BinaryOperator {
        lhs: Box::new(new_left_expression),
        binop: *binop,
        token: token.duplicate(),
        rhs: Box::new(new_right_expression),
    }
}

fn simplify_expression(expression: &Expression) -> (r: Expression)
    ensures
        r@ == simplified_expression(expression@),
    decreases expression, 1nat,
{
    match expression {
        Expression::FunctionCall(function_call) => {
            return Expression::FunctionCall(simplify_function_call(function_call));
        },
        Expression::Parentheses(inner) => {
            return simplify_parentheses(inner);
        },
        Expression::UnaryOperator { unop, token, expression: inner } => {
            return simplify_unary_operator(unop, token, inner);
        },
        Expression::BinaryOperator { lhs, binop, token, rhs } => {
            let new_left_expression = simplify_expression(lhs);
            let new_right_expression = simplify_expression(rhs);
            return simplify_binary_operator(
                lhs,
                binop,
                token,
                rhs,
                new_left_expression,
                new_right_expression,
            );
        },
        _ => {},
    }
    expression.duplicate()
}

fn simplify_punctuated_expressions(punctuated_expressions: &Vec<Expression>) -> (r: Vec<Expression>)
    ensures
        model_expressions(r@) == simplified_expressions(model_expressions(punctuated_expressions@)),
    decreases punctuated_expressions, 0nat,
{
    let ghost m = model_expressions(punctuated_expressions@);
    let mut simplified: Vec<Expression> = Vec::new();
    let mut i: usize = 0;
    while i < punctuated_expressions.len()
        invariant
            m == model_expressions(punctuated_expressions@),
            i <= punctuated_expressions.len(),
            simplified@.len() == i,
            forall|j: int| 0 <= j < i ==> simplified@[j]@ == simplified_expression(m[j]),
        decreases punctuated_expressions.len() - i,
    {
        assert(m[i as int] == punctuated_expressions@[i as int]@);
        simplified.push(simplify_expression(&punctuated_expressions[i]));
        i = i + 1;
    }
    assert(model_expressions(simplified@) =~= simplified_expressions(m));
    simplified
}

fn simplify_local_assignment(local_assignment: &LocalAssignment) -> (r: Vec<Stmt>)
    ensures
        model_stmts(r@) == seq![
            SpecStmt::LocalAssignment(
                SpecLocalAssignment {
                    names: local_assignment@.names,
                    expressions: simplified_expressions(local_assignment@.expressions),
                },
            ),
        ],
    decreases local_assignment, 0nat,
{
    let new_local_assignment = LocalAssignment {
        names: crate::ast::duplicate_tokens(&local_assignment.names),
        expressions: simplify_punctuated_expressions(&local_assignment.expressions),
    };
    let mut r: Vec<Stmt> = Vec::new();
    r.push(Stmt::LocalAssignment(new_local_assignment));
    assert(model_stmts(r@) =~= seq![r@[0]@]);
    r
}

fn is_just_true(new_condition: &Expression) -> (r: bool)
    ensures
        r == spec_is_just_true(new_condition@),
{
    match new_condition {
        Expression::Symbol(t) => t.text == "true".to_owned(),
        _ => false,
    }
}

fn is_just_false(new_condition: &Expression) -> (r: bool)
    ensures
        r == spec_is_just_false(new_condition@),
{
    match new_condition {
        Expression::Symbol(t) => t.text == "false".to_owned(),
        _ => false,
    }
}

/// The condition of a clause of an `if` statement.
enum Predicate {
    True,
    Expression(Expression),
}

/// A clause of an `if` statement.
struct Clause {
    predicate: Predicate,
    block: Block,
}

impl View for Predicate {
    type V = SpecPredicate;

    closed spec fn view(&self) -> SpecPredicate {
        match self {
            Predicate::True => SpecPredicate::True,
            Predicate::Expression(e) => SpecPredicate::Expression(e@),
        }
    }
}

impl View for Clause {
    type V = SpecClause;

    closed spec fn view(&self) -> SpecClause {
        SpecClause { predicate: self.predicate@, block: self.block@ }
    }
}

spec fn model_clauses(v: Seq<Clause>) -> Seq<SpecClause> {
    Seq::new(v.len(), |i: int| v[i]@)
}

proof fn lemma_build_if_step(
    condition: SpecExpression,
    block: SpecBlock,
    clauses: Seq<SpecClause>,
    i: nat,
    acc: Seq<SpecElseIf>,
)
    requires
        i < clauses.len(),
    ensures
        clauses[i as int].predicate is True ==> build_if(condition, block, clauses, i, acc) == (SpecIf {
            condition,
            block,
            else_if: else_ifs_part(acc),
            else_block: Some(clauses[i as int].block),
        }),
        clauses[i as int].predicate is Expression ==> build_if(condition, block, clauses, i, acc)
            == build_if(
            condition,
            block,
            clauses,
            i + 1,
            acc.push(
                SpecElseIf {
                    condition: clauses[i as int].predicate->Expression_0,
                    block: clauses[i as int].block,
                },
            ),
        ),
{
}

proof fn lemma_build_if_end(
    condition: SpecExpression,
    block: SpecBlock,
    clauses: Seq<SpecClause>,
    i: nat,
    acc: Seq<SpecElseIf>,
)
    requires
        i >= clauses.len(),
    ensures
        build_if(condition, block, clauses, i, acc) == (SpecIf {
            condition,
            block,
            else_if: else_ifs_part(acc),
            else_block: None,
        }),
{
}

#[verifier::rlimit(80)]
fn clauses_to_statements(clauses: Vec<Clause>) -> (r: Vec<Stmt>)
    ensures
        model_stmts(r@) == clause_statements(model_clauses(clauses@)),
{
    let ghost cs = model_clauses(clauses@);
    let mut out: Vec<Stmt> = Vec::new();
    let n = clauses.len();
    if n == 0 {
        assert(model_stmts(out@) =~= Seq::<SpecStmt>::empty());
        return out;
    }
    assert(cs[0] == clauses@[0]@);
    let condition = match &clauses[0].predicate {
        Predicate::True => {
            out.push(Stmt::Do(clauses[0].block.duplicate()));
            assert(model_stmts(out@) =~= seq![out@[0]@]);
            return out;
        },
        Predicate::Expression(expression) => expression.duplicate(),
    };
    let block = clauses[0].block.duplicate();
    let ghost target = build_if(condition@, block@, cs, 1, Seq::empty());
    assert(clause_statements(cs) == seq![SpecStmt::If(target)]);
    let mut new_elseifs: Vec<ElseIf> = Vec::new();
    assert(model_else_ifs(new_elseifs@) =~= Seq::<SpecElseIf>::empty());
    let mut i: usize = 1;
    while i < n
        invariant
            n == clauses@.len(),
            cs == model_clauses(clauses@),
            1 <= i <= n,
            out@.len() == 0,
            clause_statements(cs) == seq![SpecStmt::If(target)],
            build_if(condition@, block@, cs, i as nat, model_else_ifs(new_elseifs@)) == target,
        decreases n - i,
    {
        assert(cs[i as int] == clauses@[i as int]@);
        proof {
            lemma_build_if_step(condition@, block@, cs, i as nat, model_else_ifs(new_elseifs@));
        }
        match &clauses[i].predicate {
            Predicate::True => {
                let else_block = clauses[i].block.duplicate();
                let else_if = if new_elseifs.len() > 0 {
                    Some(new_elseifs)
                } else {
                    None
                };
                out.push(Stmt::If(If { condition, block, else_if, else_block: Some(else_block) }));
                assert(model_stmts(out@) =~= seq![out@[0]@]);
                return out;
            },
            Predicate::Expression(expression) => {
                let ghost old_elseifs = new_elseifs@;
                let new_else_if = ElseIf {
                    condition: expression.duplicate(),
                    block: clauses[i].block.duplicate(),
                };
                new_elseifs.push(new_else_if);
                assert(model_else_ifs(new_elseifs@) =~= model_else_ifs(old_elseifs).push(
                    new_elseifs@[old_elseifs.len() as int]@,
                ));
            },
        }
        i = i + 1;
    }
    proof {
        lemma_build_if_end(condition@, block@, cs, i as nat, model_else_ifs(new_elseifs@));
    }
    let else_if = if new_elseifs.len() > 0 {
        Some(new_elseifs)
    } else {
        None
    };
    out.push(Stmt::If(If { condition, block, else_if, else_block: None }));
    assert(model_stmts(out@) =~= seq![out@[0]@]);
    out
}

fn to_predicate(expression: Expression) -> (r: Predicate)
    ensures
        r@ == spec_to_predicate(expression@),
{
    if is_just_true(&expression) {
        return Predicate::True;
    }
    Predicate::Expression(expression)
}

/// Appends the clauses of the `elseif` parts whose condition does not
/// simplify to `false`.
fn push_else_if_clauses(elseifs: &Vec<ElseIf>, clauses: &mut Vec<Clause>)
    ensures
        model_clauses(final(clauses)@) == model_clauses(old(clauses)@) + else_if_clauses(
            model_else_ifs(elseifs@),
        ),
    decreases elseifs, 0nat,
{
    let ghost m = model_else_ifs(elseifs@);
    let ghost start = model_clauses(clauses@);
    let mut i: usize = 0;
    assert(m.subrange(0, 0) =~= Seq::<SpecElseIf>::empty());
    assert(start + else_if_clauses(m.subrange(0, 0)) =~= start);
    while i < elseifs.len()
        invariant
            m == model_else_ifs(elseifs@),
            i <= elseifs.len(),
            model_clauses(clauses@) == start + else_if_clauses(m.subrange(0, i as int)),
        decreases elseifs.len() - i,
    {
        assert(m[i as int] == elseifs@[i as int]@);
        let ghost before = clauses@;
        let ghost prefix = m.subrange(0, i + 1);
        assert(prefix.subrange(0, i as int) =~= m.subrange(0, i as int));
        assert(prefix[i as int] == m[i as int]);

        let new_condition = simplify_expression(&elseifs[i].condition);
        if !is_just_false(&new_condition) {
            let new_block = simplify_block(&elseifs[i].block);
            clauses.push(Clause { predicate: to_predicate(new_condition), block: new_block });
            assert(model_clauses(clauses@) =~= model_clauses(before).push(clauses@[before.len() as int]@));
        }
        i = i + 1;
    }
    assert(m.subrange(0, elseifs.len() as int) =~= m);
}

fn simplify_if_statement(if_statement: &If) -> (r: Vec<Stmt>)
    ensures
        model_stmts(r@) == simplified_if(if_statement@),
    decreases if_statement, 0nat,
{
    let ghost x = if_statement@;
    let mut clauses: Vec<Clause> = Vec::new();
    let new_condition = simplify_expression(&if_statement.condition);
    let new_block = simplify_block(&if_statement.block);
    if !is_just_false(&new_condition) {
        clauses.push(Clause { predicate: to_predicate(new_condition), block: new_block });
    }
    let ghost first = model_clauses(clauses@);
    assert(first =~= (if spec_is_just_false(simplified_expression(x.condition)) {
        Seq::empty()
    } else {
        seq![
            SpecClause {
                predicate: spec_to_predicate(simplified_expression(x.condition)),
                block: simplified_block(x.block),
            },
        ]
    }));
    if let Some(elseifs) = &if_statement.else_if {
        assert(x.else_if == Some(model_else_ifs(elseifs@)));
        push_else_if_clauses(elseifs, &mut clauses);
    } else {
        assert(model_clauses(clauses@) =~= first + Seq::<SpecClause>::empty());
    }
    let ghost before_else = model_clauses(clauses@);
    if let Some(else_block) = &if_statement.else_block {
        let new_else = simplify_block(else_block);
        clauses.push(Clause { predicate: Predicate::True, block: new_else });
        assert(model_clauses(clauses@) =~= before_else.push(clauses@[before_else.len() as int]@));
    } else {
        assert(model_clauses(clauses@) =~= before_else + Seq::<SpecClause>::empty());
    }
    assert(model_clauses(clauses@) =~= if_clauses(x));
    clauses_to_statements(clauses)
}

fn simplify_while_loop(while_loop: &While) -> (r: Vec<Stmt>)
    ensures
        model_stmts(r@) == seq![
            SpecStmt::While(
                SpecWhile {
                    condition: simplified_expression(while_loop@.condition),
                    block: simplified_block(while_loop@.block),
                },
            ),
        ],
    decreases while_loop, 0nat,
{
    let new_condition = simplify_expression(&while_loop.condition);
    let new_block = simplify_block(&while_loop.block);
    let mut r: Vec<Stmt> = Vec::new();
    r.push(Stmt::While(While { condition: new_condition, block: new_block }));
    assert(model_stmts(r@) =~= seq![r@[0]@]);
    r
}

fn simplify_function_body(function_body: &FunctionBody) -> (r: FunctionBody)
    ensures
        r@ == simplified_function_body(function_body@),
    decreases function_body, 0nat,
{
    let new_block = simplify_block(&function_body.block);
    FunctionBody { parameters: crate::ast::duplicate_tokens(&function_body.parameters), block: new_block }
}

fn simplify_function_declaration(function_declaration: &FunctionDeclaration) -> (r: Vec<Stmt>)
    ensures
        model_stmts(r@) == seq![
            SpecStmt::FunctionDeclaration(
                SpecFunctionDeclaration {
                    name: function_declaration@.name,
                    body: simplified_function_body(function_declaration@.body),
                },
            ),
        ],
    decreases function_declaration, 0nat,
{
    let new_body = simplify_function_body(&function_declaration.body);
    let mut r: Vec<Stmt> = Vec::new();
    r.push(
        Stmt::FunctionDeclaration(
            FunctionDeclaration { name: function_declaration.name.duplicate(), body: new_body },
        ),
    );
    assert(model_stmts(r@) =~= seq![r@[0]@]);
    r
}

fn simplify_local_function(local_function: &LocalFunction) -> (r: Vec<Stmt>)
    ensures
        model_stmts(r@) == seq![
            SpecStmt::LocalFunction(
                SpecLocalFunction {
                    name: local_function@.name,
                    body: simplified_function_body(local_function@.body),
                },
            ),
        ],
    decreases local_function, 0nat,
{
    let new_body = simplify_function_body(&local_function.body);
    let mut r: Vec<Stmt> = Vec::new();
    r.push(Stmt::LocalFunction(LocalFunction { name: local_function.name.duplicate(), body: new_body }));
    assert(model_stmts(r@) =~= seq![r@[0]@]);
    r
}

fn simplify_statement(statement: &Stmt) -> (r: Vec<Stmt>)
    ensures
        model_stmts(r@) == simplified_stmt(statement@),
    decreases statement, 0nat,
{
    match statement {
        Stmt::LocalAssignment(local_assignment) => {
            assert(statement@ == SpecStmt::LocalAssignment(local_assignment@));
            simplify_local_assignment(local_assignment)
        },
        Stmt::If(if_statement) => {
            assert(statement@ == SpecStmt::If(if_statement@));
            simplify_if_statement(if_statement)
        },
        Stmt::While(while_loop) => {
            assert(statement@ == SpecStmt::While(while_loop@));
            simplify_while_loop(while_loop)
        },
        Stmt::FunctionDeclaration(function_declaration) => {
            assert(statement@ == SpecStmt::FunctionDeclaration(function_declaration@));
            simplify_function_declaration(function_declaration)
        },
        Stmt::LocalFunction(local_function) => {
            assert(statement@ == SpecStmt::LocalFunction(local_function@));
            simplify_local_function(local_function)
        },
        _ => {
            let mut r: Vec<Stmt> = Vec::new();
            r.push(statement.duplicate());
            assert(model_stmts(r@) =~= seq![r@[0]@]);
            r
        },
    }
}

proof fn lemma_simplified_stmts_step(s: Seq<SpecStmt>, semicolons: Seq<Option<SpecToken>>, i: int)
    requires
        0 <= i < s.len(),
    ensures
        simplified_stmts(s.subrange(0, i + 1)) == simplified_stmts(s.subrange(0, i)) + simplified_stmt(s[i]),
        simplified_semicolons(s.subrange(0, i + 1), semicolons) == simplified_semicolons(
            s.subrange(0, i),
            semicolons,
        ) + Seq::new(simplified_stmt(s[i]).len(), |k: int| semicolon_at(semicolons, i)),
{
    assert(s.subrange(0, i + 1).subrange(0, i) =~= s.subrange(0, i));
}

/// The semicolon after the statement at position `i` of `block`, copied.
fn semicolon_after(block: &Block, i: usize) -> (r: Option<Token>)
    ensures
        model_option_token(r) == semicolon_at(block@.semicolons, i as int),
{
    if i < block.semicolons.len() {
        duplicate_option_token(&block.semicolons[i])
    } else {
        None
    }
}

#[verifier::rlimit(80)]
fn simplify_block(block: &Block) -> (r: Block)
    ensures
        r@ == simplified_block(block@),
    decreases block, 0nat,
{
    let ghost m = model_stmts(block.stmts@);
    let ghost semis = block@.semicolons;
    let mut new_stmts: Vec<Stmt> = Vec::new();
    let mut new_semicolons: Vec<Option<Token>> = Vec::new();
    let mut i: usize = 0;
    assert(model_stmts(new_stmts@) =~= simplified_stmts(m.subrange(0, 0)));
    assert(model_semicolons(new_semicolons@) =~= simplified_semicolons(m.subrange(0, 0), semis));
    while i < block.stmts.len()
        invariant
            m == model_stmts(block.stmts@),
            m == block@.stmts,
            semis == block@.semicolons,
            i <= block.stmts.len(),
            model_stmts(new_stmts@) == simplified_stmts(m.subrange(0, i as int)),
            model_semicolons(new_semicolons@) == simplified_semicolons(m.subrange(0, i as int), semis),
        decreases block.stmts.len() - i,
    {
        assert(m[i as int] == block.stmts@[i as int]@);
        let mut simplified = simplify_statement(&block.stmts[i]);
        let ghost before = new_stmts@;
        let ghost added = simplified@;
        let ghost semis_before = model_semicolons(new_semicolons@);
        let count = simplified.len();
        let mut k: usize = 0;
        while k < count
            invariant
                k <= count,
                model_semicolons(new_semicolons@) == semis_before + Seq::new(
                    k as nat,
                    |j: int| semicolon_at(semis, i as int),
                ),
                semis == block@.semicolons,
            decreases count - k,
        {
            let ghost old_semis = new_semicolons@;
            new_semicolons.push(semicolon_after(block, i));
            assert(model_semicolons(new_semicolons@) =~= model_semicolons(old_semis).push(
                semicolon_at(semis, i as int),
            ));
            assert(model_semicolons(new_semicolons@) =~= semis_before + Seq::new(
                (k + 1) as nat,
                |j: int| semicolon_at(semis, i as int),
            ));
            k = k + 1;
        }
        new_stmts.append(&mut simplified);
        assert(model_stmts(new_stmts@) =~= model_stmts(before) + model_stmts(added));
        proof {
            lemma_simplified_stmts_step(m, semis, i as int);
        }
        assert(model_semicolons(new_semicolons@) =~= simplified_semicolons(
            m.subrange(0, i + 1),
            semis,
        ));
        i = i + 1;
    }
    assert(m.subrange(0, block.stmts.len() as int) =~= m);
    let last_stmt = match &block.last_stmt {
        Some(l) => Some(l.duplicate()),
        None => None,
    };
    Block {
        stmts: new_stmts,
        semicolons: new_semicolons,
        last_stmt,
        last_semicolon: duplicate_option_token(&block.last_semicolon),
    }
}

/// Simplifies the boolean logic of a chunk.
pub fn simplify_ast(input_ast: Ast) -> (r: Ast)
    ensures
        r@ == simplified_ast(input_ast@),
{
    Ast { nodes: simplify_block(&input_ast.nodes) }
}

} // verus!
