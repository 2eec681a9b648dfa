//! Structural equivalence of expressions and chunks.
//!
//! Two trees are equivalent when they have the same shape and the same token
//! texts, whatever whitespace or comments stood between most tokens. A few
//! tokens are compared as whole tokens, that is with their position and the
//! whitespace and comments around them: the name at the start of a call or
//! path, unary and binary operators, and the names of declared and local
//! functions. Numbers, strings, the literals `true`, `false`, `nil`, `...`,
//! variable names, method names, field names and assigned names are compared
//! by their text.
//!
//! The comparison is partial: it does not compare two index suffixes, nor a
//! call suffix with an index suffix, nor a plain call with a method call, nor a
//! parenthesized prefix with a name prefix. The specification says so by its
//! type: `Some(b)` is the answer, `None` means that the comparison reaches
//! such a pair. [`compare_expression`] and [`compare_ast`] give that answer;
//! [`eq_expression`] and [`eq_ast`] give the boolean and require that the
//! comparison does not reach such a pair.
//! Comparisons go from left to right and stop at the first difference, so a
//! pair that comes after a difference is never reached.
use vstd::prelude::*;

use crate::ast::{
    model_option_token, model_tokens, model_trivia, Token, Trivia,
    model_else_ifs, model_expressions, model_fields, model_stmts, model_suffixes,
    model_vars, Ast, Block, Call, ElseIf, Expression, Field, FunctionArgs, FunctionBody,
    FunctionCall, If, Prefix, Stmt, Suffix, Var, VarExpression, Assignment, FunctionDeclaration,
    FunctionName, GenericFor, LocalAssignment, LocalFunction, NumericFor, Repeat, While,
};
use crate::model::{
    SpecToken,
    SpecAst, SpecBlock, SpecCall, SpecElseIf, SpecExpression, SpecField, SpecFunctionArgs,
    SpecFunctionCall, SpecIf, SpecPrefix, SpecStmt, SpecSuffix, SpecVar, SpecVarExpression,
    SpecAssignment, SpecFunctionDeclaration, SpecGenericFor, SpecLocalAssignment, SpecLocalFunction,
    SpecNumericFor, SpecRepeat, SpecWhile,
};

verus! {

// ---------------------------------------------------------------------------
// Specification
// ---------------------------------------------------------------------------

/// `first && second`, evaluated from left to right: the second comparison is
/// made only when the first one answered `true`.
pub open spec fn and_then(first: Option<bool>, second: Option<bool>) -> Option<bool> {
    match first {
        Some(true) => second,
        other => other,
    }
}

/// The tokens of `a` and `b` agree as far as the shorter of the two goes.
pub open spec fn names_agree(a: Seq<SpecToken>, b: Seq<SpecToken>) -> bool {
    forall|i: int| 0 <= i < a.len() && 0 <= i < b.len() ==> a[i].text == b[i].text
}

/// Equivalence of two expressions.
pub open spec fn equiv_expression(a: SpecExpression, b: SpecExpression) -> Option<bool>
    decreases a, 0nat,
{
    match (a, b) {
        (SpecExpression::FunctionCall(x), SpecExpression::FunctionCall(y)) => equiv_function_call(
            x,
            y,
        ),
        (SpecExpression::Parentheses(x), SpecExpression::Parentheses(y)) => equiv_expression(
            *x,
            *y,
        ),
        (
            SpecExpression::UnaryOperator { unop: u1, token: t1, expression: e1 },
            SpecExpression::UnaryOperator { unop: u2, token: t2, expression: e2 },
        ) => if u1 == u2 && t1 == t2 {
            equiv_expression(*e1, *e2)
        } else {
            Some(false)
        },
        (
            SpecExpression::BinaryOperator { lhs: l1, binop: o1, token: t1, rhs: r1 },
            SpecExpression::BinaryOperator { lhs: l2, binop: o2, token: t2, rhs: r2 },
        ) => if o1 == o2 && t1 == t2 {
            and_then(equiv_expression(*l1, *l2), equiv_expression(*r1, *r2))
        } else {
            Some(false)
        },
        (SpecExpression::Function(x), SpecExpression::Function(y)) => equiv_block(
            x.block,
            y.block,
        ),
        (SpecExpression::TableConstructor(x), SpecExpression::TableConstructor(y)) => equiv_fields(
            x,
            y,
            0,
        ),
        (SpecExpression::Number(x), SpecExpression::Number(y)) => Some(x.text == y.text),
        (SpecExpression::String(x), SpecExpression::String(y)) => Some(x.text == y.text),
        (SpecExpression::Symbol(x), SpecExpression::Symbol(y)) => Some(x.text == y.text),
        (SpecExpression::Var(x), SpecExpression::Var(y)) => equiv_var(x, y),
        _ => Some(false),
    }
}

/// Equivalence of two lists of expressions, from position `i` on: same
/// length, and equivalent at each position.
pub open spec fn equiv_expressions(
    a: Seq<SpecExpression>,
    b: Seq<SpecExpression>,
    i: nat,
) -> Option<bool>
    decreases a, a.len() - i,
{
    if a.len() != b.len() {
        Some(false)
    } else if i >= a.len() {
        Some(true)
    } else {
        and_then(equiv_expression(a[i as int], b[i as int]), equiv_expressions(a, b, i + 1))
    }
}

/// Equivalence of two calls: prefix, then suffixes.
pub open spec fn equiv_function_call(a: SpecFunctionCall, b: SpecFunctionCall) -> Option<bool>
    decreases a, 0nat,
{
    and_then(equiv_prefix(a.prefix, b.prefix), equiv_suffixes(a.suffixes, b.suffixes, 0))
}

/// Equivalence of two prefixes; `None` for a parenthesized prefix against a name.
pub open spec fn equiv_prefix(a: SpecPrefix, b: SpecPrefix) -> Option<bool>
    decreases a, 0nat,
{
    match (a, b) {
        (SpecPrefix::Expression(x), SpecPrefix::Expression(y)) => equiv_expression(*x, *y),
        (SpecPrefix::Name(x), SpecPrefix::Name(y)) => Some(x == y),
        _ => None,
    }
}

/// Equivalence of two lists of suffixes, from position `i` on.
pub open spec fn equiv_suffixes(a: Seq<SpecSuffix>, b: Seq<SpecSuffix>, i: nat) -> Option<bool>
    decreases a, a.len() - i,
{
    if a.len() != b.len() {
        Some(false)
    } else if i >= a.len() {
        Some(true)
    } else {
        and_then(equiv_suffix(a[i as int], b[i as int]), equiv_suffixes(a, b, i + 1))
    }
}

/// Equivalence of two suffixes; only two call suffixes are compared.
pub open spec fn equiv_suffix(a: SpecSuffix, b: SpecSuffix) -> Option<bool>
    decreases a, 0nat,
{
    match (a, b) {
        (SpecSuffix::Call(x), SpecSuffix::Call(y)) => equiv_call(x, y),
        _ => None,
    }
}

/// Equivalence of two call suffixes; `None` for a plain call against a method call.
pub open spec fn equiv_call(a: SpecCall, b: SpecCall) -> Option<bool>
    decreases a, 0nat,
{
    match (a, b) {
        (SpecCall::AnonymousCall(x), SpecCall::AnonymousCall(y)) => equiv_function_args(x, y),
        (SpecCall::MethodCall { name: n1, args: a1 }, SpecCall::MethodCall { name: n2, args: a2 }) =>
            if n1.text == n2.text {
            equiv_function_args(a1, a2)
        } else {
            Some(false)
        },
        _ => None,
    }
}

/// Equivalence of two argument lists.
pub open spec fn equiv_function_args(a: SpecFunctionArgs, b: SpecFunctionArgs) -> Option<bool>
    decreases a, 0nat,
{
    match (a, b) {
        (SpecFunctionArgs::Parentheses(x), SpecFunctionArgs::Parentheses(y)) => equiv_expressions(
            x,
            y,
            0,
        ),
        (SpecFunctionArgs::String(x), SpecFunctionArgs::String(y)) => Some(x.text == y.text),
        (SpecFunctionArgs::TableConstructor(x), SpecFunctionArgs::TableConstructor(y)) =>
            equiv_fields(x, y, 0),
        _ => Some(false),
    }
}

/// Equivalence of two lists of table fields, from position `i` on.
pub open spec fn equiv_fields(a: Seq<SpecField>, b: Seq<SpecField>, i: nat) -> Option<bool>
    decreases a, a.len() - i,
{
    if a.len() != b.len() {
        Some(false)
    } else if i >= a.len() {
        Some(true)
    } else {
        and_then(equiv_field(a[i as int], b[i as int]), equiv_fields(a, b, i + 1))
    }
}

/// Equivalence of two table fields.
pub open spec fn equiv_field(a: SpecField, b: SpecField) -> Option<bool>
    decreases a, 0nat,
{
    match (a, b) {
        (
            SpecField::ExpressionKey { key: k1, value: v1 },
            SpecField::ExpressionKey { key: k2, value: v2 },
        ) => and_then(equiv_expression(k1, k2), equiv_expression(v1, v2)),
        (SpecField::NameKey { key: k1, value: v1 }, SpecField::NameKey { key: k2, value: v2 }) =>
            if k1.text == k2.text {
            equiv_expression(v1, v2)
        } else {
            Some(false)
        },
        (SpecField::NoKey(x), SpecField::NoKey(y)) => equiv_expression(x, y),
        _ => Some(false),
    }
}

/// Equivalence of two indexed paths: prefix, then suffixes.
pub open spec fn equiv_var_expression(a: SpecVarExpression, b: SpecVarExpression) -> Option<bool>
    decreases a, 0nat,
{
    and_then(equiv_prefix(a.prefix, b.prefix), equiv_suffixes(a.suffixes, b.suffixes, 0))
}

/// Equivalence of two variables.
pub open spec fn equiv_var(a: SpecVar, b: SpecVar) -> Option<bool>
    decreases a, 0nat,
{
    match (a, b) {
        (SpecVar::Expression(x), SpecVar::Expression(y)) => equiv_var_expression(*x, *y),
        (SpecVar::Name(x), SpecVar::Name(y)) => Some(x.text == y.text),
        _ => Some(false),
    }
}

/// Equivalence of two lists of variables, from position `i` on, as far as the
/// shorter list goes.
pub open spec fn equiv_vars(a: Seq<SpecVar>, b: Seq<SpecVar>, i: nat) -> Option<bool>
    decreases a, a.len() - i,
{
    if i >= a.len() || i >= b.len() {
        Some(true)
    } else {
        and_then(equiv_var(a[i as int], b[i as int]), equiv_vars(a, b, i + 1))
    }
}

/// Equivalence of two blocks: their statements, as far as the shorter block
/// goes. Last statements are not compared.
pub open spec fn equiv_block(a: SpecBlock, b: SpecBlock) -> Option<bool>
    decreases a, 0nat,
{
    equiv_stmts(a.stmts, b.stmts, 0)
}

/// Equivalence of two lists of statements, from position `i` on, as far as
/// the shorter list goes.
pub open spec fn equiv_stmts(a: Seq<SpecStmt>, b: Seq<SpecStmt>, i: nat) -> Option<bool>
    decreases a, a.len() - i,
{
    if i >= a.len() || i >= b.len() {
        Some(true)
    } else {
        and_then(equiv_stmt(a[i as int], b[i as int]), equiv_stmts(a, b, i + 1))
    }
}

/// Equivalence of two statements.
pub open spec fn equiv_stmt(a: SpecStmt, b: SpecStmt) -> Option<bool>
    decreases a, 0nat,
{
    match (a, b) {
        (SpecStmt::LocalAssignment(x), SpecStmt::LocalAssignment(y)) => equiv_local_assignment(x, y),
        (SpecStmt::Assignment(x), SpecStmt::Assignment(y)) => equiv_assignment(x, y),
        (SpecStmt::If(x), SpecStmt::If(y)) => equiv_if(x, y),
        (SpecStmt::While(x), SpecStmt::While(y)) => equiv_while(x, y),
        (SpecStmt::FunctionCall(x), SpecStmt::FunctionCall(y)) => equiv_function_call(x, y),
        (SpecStmt::FunctionDeclaration(x), SpecStmt::FunctionDeclaration(y)) =>
            equiv_function_declaration(x, y),
        (SpecStmt::LocalFunction(x), SpecStmt::LocalFunction(y)) => equiv_local_function(x, y),
        (SpecStmt::NumericFor(x), SpecStmt::NumericFor(y)) => equiv_numeric_for(x, y),
        (SpecStmt::GenericFor(x), SpecStmt::GenericFor(y)) => equiv_generic_for(x, y),
        (SpecStmt::Repeat(x), SpecStmt::Repeat(y)) => equiv_repeat(x, y),
        (SpecStmt::Do(x), SpecStmt::Do(y)) => equiv_block(x, y),
        _ => Some(false),
    }
}

/// Equivalence of two local assignments: names as far as the shorter list
/// goes, then expressions.
pub open spec fn equiv_local_assignment(a: SpecLocalAssignment, b: SpecLocalAssignment) -> Option<bool>
    decreases a, 0nat,
{
    if names_agree(a.names, b.names) {
        equiv_expressions(a.expressions, b.expressions, 0)
    } else {
        Some(false)
    }
}

/// Equivalence of two assignments: variables as far as the shorter list
/// goes, then expressions.
pub open spec fn equiv_assignment(a: SpecAssignment, b: SpecAssignment) -> Option<bool>
    decreases a, 0nat,
{
    and_then(equiv_vars(a.variables, b.variables, 0), equiv_expressions(a.expressions, b.expressions, 0))
}

/// Equivalence of two `while` loops: condition, then block.
pub open spec fn equiv_while(a: SpecWhile, b: SpecWhile) -> Option<bool>
    decreases a, 0nat,
{
    and_then(equiv_expression(a.condition, b.condition), equiv_block(a.block, b.block))
}

/// Equivalence of two `repeat` loops: condition, then block.
pub open spec fn equiv_repeat(a: SpecRepeat, b: SpecRepeat) -> Option<bool>
    decreases a, 0nat,
{
    and_then(equiv_expression(a.until, b.until), equiv_block(a.block, b.block))
}

/// Equivalence of two function declarations: the same name, then the blocks
/// of the bodies.
pub open spec fn equiv_function_declaration(
    a: SpecFunctionDeclaration,
    b: SpecFunctionDeclaration,
) -> Option<bool>
    decreases a, 0nat,
{
    if a.name == b.name {
        equiv_block(a.body.block, b.body.block)
    } else {
        Some(false)
    }
}

/// Equivalence of two local functions: the same name, then the blocks of the
/// bodies.
pub open spec fn equiv_local_function(a: SpecLocalFunction, b: SpecLocalFunction) -> Option<bool>
    decreases a, 0nat,
{
    if a.name == b.name {
        equiv_block(a.body.block, b.body.block)
    } else {
        Some(false)
    }
}

/// Equivalence of two numeric `for` loops: start, end, then block (neither
/// the variable nor the step is compared).
pub open spec fn equiv_numeric_for(a: SpecNumericFor, b: SpecNumericFor) -> Option<bool>
    decreases a, 0nat,
{
    and_then(
        and_then(equiv_expression(a.start, b.start), equiv_expression(a.end, b.end)),
        equiv_block(a.block, b.block),
    )
}

/// Equivalence of two generic `for` loops: names as far as the shorter list
/// goes, expressions, then block.
pub open spec fn equiv_generic_for(a: SpecGenericFor, b: SpecGenericFor) -> Option<bool>
    decreases a, 0nat,
{
    if names_agree(a.names, b.names) {
        and_then(equiv_expressions(a.expressions, b.expressions, 0), equiv_block(a.block, b.block))
    } else {
        Some(false)
    }
}

/// Equivalence of two `if` statements: condition, block, `elseif` parts
/// (present in both or in neither), `else` block (likewise).
pub open spec fn equiv_if(a: SpecIf, b: SpecIf) -> Option<bool>
    decreases a, 0nat,
{
    and_then(
        and_then(
            and_then(equiv_expression(a.condition, b.condition), equiv_block(a.block, b.block)),
            match (a.else_if, b.else_if) {
                (None, None) => Some(true),
                (Some(x), Some(y)) => equiv_else_ifs(x, y, 0),
                _ => Some(false),
            },
        ),
        match (a.else_block, b.else_block) {
            (None, None) => Some(true),
            (Some(x), Some(y)) => equiv_block(x, y),
            _ => Some(false),
        },
    )
}

/// Equivalence of two lists of `elseif` parts, from position `i` on.
pub open spec fn equiv_else_ifs(a: Seq<SpecElseIf>, b: Seq<SpecElseIf>, i: nat) -> Option<bool>
    decreases a, a.len() - i,
{
    if a.len() != b.len() {
        Some(false)
    } else if i >= a.len() {
        Some(true)
    } else {
        and_then(
            and_then(
                equiv_expression(a[i as int].condition, b[i as int].condition),
                equiv_block(a[i as int].block, b[i as int].block),
            ),
            equiv_else_ifs(a, b, i + 1),
        )
    }
}

/// Equivalence of two chunks.
pub open spec fn equiv_ast(a: SpecAst, b: SpecAst) -> Option<bool> {
    equiv_block(a.nodes, b.nodes)
}


// ---------------------------------------------------------------------------
// Comparison
// ---------------------------------------------------------------------------

/// Compares the texts of two tokens.
fn eq_token_reference(a: &Token, b: &Token) -> (r: bool)
    ensures
        r == (a@.text == b@.text),
{
    a.text == b.text
}

/// Compares two lists of whitespace and comments, piece by piece.
fn eq_trivia(a: &Vec<Trivia>, b: &Vec<Trivia>) -> (r: bool)
    ensures
        r == (model_trivia(a@) == model_trivia(b@)),
{
    let ghost ma = model_trivia(a@);
    let ghost mb = model_trivia(b@);
    if a.len() != b.len() {
        assert(ma.len() != mb.len());
        return false;
    }
    let mut i: usize = 0;
    while i < a.len()
        invariant
            ma == model_trivia(a@),
            mb == model_trivia(b@),
            a.len() == b.len(),
            i <= a.len(),
            forall|j: int| 0 <= j < i ==> ma[j] == mb[j],
        decreases a.len() - i,
    {
        assert(ma[i as int] == a@[i as int]@ && mb[i as int] == b@[i as int]@);
        if !(a[i].text == b[i].text && a[i].start == b[i].start && a[i].end == b[i].end) {
            return false;
        }
        i = i + 1;
    }
    assert(ma =~= mb);
    true
}

/// Compares two whole tokens: text, position, and the whitespace and
/// comments around them.
fn eq_token(a: &Token, b: &Token) -> (r: bool)
    ensures
        r == (a@ == b@),
{
    let same = a.text == b.text && a.start == b.start && a.end == b.end && eq_trivia(
        &a.leading,
        &b.leading,
    ) && eq_trivia(&a.trailing, &b.trailing);
    same
}

/// Compares two lists of whole tokens.
fn eq_tokens(a: &Vec<Token>, b: &Vec<Token>) -> (r: bool)
    ensures
        r == (model_tokens(a@) == model_tokens(b@)),
{
    let ghost ma = model_tokens(a@);
    let ghost mb = model_tokens(b@);
    if a.len() != b.len() {
        assert(ma.len() != mb.len());
        return false;
    }
    let mut i: usize = 0;
    while i < a.len()
        invariant
            ma == model_tokens(a@),
            mb == model_tokens(b@),
            a.len() == b.len(),
            i <= a.len(),
            forall|j: int| 0 <= j < i ==> ma[j] == mb[j],
        decreases a.len() - i,
    {
        assert(ma[i as int] == a@[i as int]@ && mb[i as int] == b@[i as int]@);
        if !eq_token(&a[i], &b[i]) {
            return false;
        }
        i = i + 1;
    }
    assert(ma =~= mb);
    true
}

/// Compares two optional whole tokens.
fn eq_option_token(a: &Option<Token>, b: &Option<Token>) -> (r: bool)
    ensures
        r == (model_option_token(*a) == model_option_token(*b)),
{
    match (a, b) {
        (None, None) => true,
        (Some(x), Some(y)) => eq_token(x, y),
        _ => false,
    }
}

/// Compares two lists of tokens as far as the shorter one goes.
fn eq_punctuated_token_reference(a: &Vec<Token>, b: &Vec<Token>) -> (r: bool)
    ensures
        r == names_agree(model_tokens(a@), model_tokens(b@)),
{
    let ghost ma = model_tokens(a@);
    let ghost mb = model_tokens(b@);
    let mut i: usize = 0;
    while i < a.len() && i < b.len()
        invariant
            ma == model_tokens(a@),
            mb == model_tokens(b@),
            0 <= i <= a.len(),
            i <= b.len(),
            forall|j: int| 0 <= j < i ==> ma[j].text == mb[j].text,
        decreases a.len() - i,
    {
        assert(ma[i as int] == a@[i as int]@ && mb[i as int] == b@[i as int]@);
        if !eq_token_reference(&a[i], &b[i]) {
            return false;
        }
        i = i + 1;
    }
    true
}

fn eq_function_args(a: &FunctionArgs, b: &FunctionArgs) -> (r: Option<bool>)
    ensures
        r == equiv_function_args(a@, b@),
    decreases a, 0nat,
{
    match (a, b) {
        (FunctionArgs::Parentheses(x), FunctionArgs::Parentheses(y)) => eq_punctuated_expressions(
            x,
            y,
        ),
        (FunctionArgs::String(x), FunctionArgs::String(y)) => Some(eq_token_reference(x, y)),
        (FunctionArgs::TableConstructor(x), FunctionArgs::TableConstructor(y)) =>
            eq_table_constructor(x, y),
        _ => Some(false),
    }
}

fn eq_call(a: &Call, b: &Call) -> (r: Option<bool>)
    ensures
        r == equiv_call(a@, b@),
    decreases a, 0nat,
{
    match (a, b) {
        (Call::AnonymousCall(x), Call::AnonymousCall(y)) => eq_function_args(x, y),
        (Call::MethodCall { name: n1, args: a1 }, Call::MethodCall { name: n2, args: a2 }) =>
            eq_method_call(n1, a1, n2, a2),
        _ => None,
    }
}

fn eq_prefix(a: &Prefix, b: &Prefix) -> (r: Option<bool>)
    ensures
        r == equiv_prefix(a@, b@),
    decreases a, 0nat,
{
    match (a, b) {
        (Prefix::Expression(x), Prefix::Expression(y)) => compare_expression(x, y),
        (Prefix::Name(x), Prefix::Name(y)) => Some(eq_token(x, y)),
        _ => None,
    }
}

fn eq_method_call(a_name: &Token, a_args: &FunctionArgs, b_name: &Token, b_args: &FunctionArgs) -> (r: Option<bool>)
    ensures
        r == (if a_name@.text == b_name@.text {
            equiv_function_args(a_args@, b_args@)
        } else {
            Some(false)
        }),
    decreases a_args, 1nat,
{
    if eq_token_reference(a_name, b_name) {
        eq_function_args(a_args, b_args)
    } else {
        Some(false)
    }
}

fn eq_suffix(a: &Suffix, b: &Suffix) -> (r: Option<bool>)
    ensures
        r == equiv_suffix(a@, b@),
    decreases a, 0nat,
{
    match (a, b) {
        (Suffix::Call(x), Suffix::Call(y)) => eq_call(x, y),
        _ => None,
    }
}

fn eq_function_call(a: &FunctionCall, b: &FunctionCall) -> (r: Option<bool>)
    ensures
        r == equiv_function_call(a@, b@),
    decreases a, 0nat,
{
    match eq_prefix(&a.prefix, &b.prefix) {
        Some(true) => eq_suffixes(&a.suffixes, &b.suffixes),
        other => other,
    }
}

fn eq_parentheses(a: &Expression, b: &Expression) -> (r: Option<bool>)
    ensures
        r == equiv_expression(a@, b@),
    decreases a, 1nat,
{
    compare_expression(a, b)
}

fn eq_field(a: &Field, b: &Field) -> (r: Option<bool>)
    ensures
        r == equiv_field(a@, b@),
    decreases a, 0nat,
{
    match (a, b) {
        (Field::ExpressionKey { key: k1, value: v1 }, Field::ExpressionKey { key: k2, value: v2 }) =>
            match compare_expression(k1, k2) {
            Some(true) => compare_expression(v1, v2),
            other => other,
        },
        (Field::NameKey { key: k1, value: v1 }, Field::NameKey { key: k2, value: v2 }) =>
            if eq_token_reference(k1, k2) {
            compare_expression(v1, v2)
        } else {
            Some(false)
        },
        (Field::NoKey(x), Field::NoKey(y)) => compare_expression(x, y),
        _ => Some(false),
    }
}

fn eq_punctuated_fields(a: &Vec<Field>, b: &Vec<Field>) -> (r: Option<bool>)
    ensures
        r == equiv_fields(model_fields(a@), model_fields(b@), 0),
    decreases a, 0nat,
{
    let ghost ma = model_fields(a@);
    let ghost mb = model_fields(b@);
    if a.len() != b.len() {
        return Some(false);
    }
    let mut i: usize = 0;
    while i < a.len()
        invariant
            ma == model_fields(a@),
            mb == model_fields(b@),
            a.len() == b.len(),
            i <= a.len(),
            equiv_fields(ma, mb, 0) == equiv_fields(ma, mb, i as nat),
        decreases a.len() - i,
    {
        assert(ma[i as int] == a@[i as int]@ && mb[i as int] == b@[i as int]@);
        match eq_field(&a[i], &b[i]) {
            Some(true) => {},
            other => {
                return other;
            },
        }
        i = i + 1;
    }
    Some(true)
}

fn eq_table_constructor(a: &Vec<Field>, b: &Vec<Field>) -> (r: Option<bool>)
    ensures
        r == equiv_fields(model_fields(a@), model_fields(b@), 0),
    decreases a, 1nat,
{
    eq_punctuated_fields(a, b)
}

fn eq_suffixes(a: &Vec<Suffix>, b: &Vec<Suffix>) -> (r: Option<bool>)
    ensures
        r == equiv_suffixes(model_suffixes(a@), model_suffixes(b@), 0),
    decreases a, 0nat,
{
    let ghost ma = model_suffixes(a@);
    let ghost mb = model_suffixes(b@);
    if a.len() != b.len() {
        return Some(false);
    }
    let mut i: usize = 0;
    while i < a.len()
        invariant
            ma == model_suffixes(a@),
            mb == model_suffixes(b@),
            a.len() == b.len(),
            i <= a.len(),
            equiv_suffixes(ma, mb, 0) == equiv_suffixes(ma, mb, i as nat),
        decreases a.len() - i,
    {
        assert(ma[i as int] == a@[i as int]@ && mb[i as int] == b@[i as int]@);
        match eq_suffix(&a[i], &b[i]) {
            Some(true) => {},
            other => {
                return other;
            },
        }
        i = i + 1;
    }
    Some(true)
}

fn eq_var_expression(a: &VarExpression, b: &VarExpression) -> (r: Option<bool>)
    ensures
        r == equiv_var_expression(a@, b@),
    decreases a, 0nat,
{
    match eq_prefix(&a.prefix, &b.prefix) {
        Some(true) => eq_suffixes(&a.suffixes, &b.suffixes),
        other => other,
    }
}

fn eq_var(a: &Var, b: &Var) -> (r: Option<bool>)
    ensures
        r == equiv_var(a@, b@),
    decreases a, 0nat,
{
    match (a, b) {
        (Var::Expression(x), Var::Expression(y)) => eq_var_expression(x, y),
        (Var::Name(x), Var::Name(y)) => Some(eq_token_reference(x, y)),
        _ => Some(false),
    }
}

/// Compares two expressions: `Some(true)` when they have the same shape and
/// the same token texts, `Some(false)` when they differ, and `None` when the
/// comparison, going from left to right, reaches a pair of nodes that it does
/// not compare (see the module documentation) before any difference.
pub fn compare_expression(a: &Expression, b: &Expression) -> (r: Option<bool>)
    ensures
        r == equiv_expression(a@, b@),
    decreases a, 0nat,
{
    match (a, b) {
        (Expression::FunctionCall(x), Expression::FunctionCall(y)) => eq_function_call(x, y),
        (Expression::Parentheses(x), Expression::Parentheses(y)) => eq_parentheses(x, y),
        (
            Expression::UnaryOperator { unop: u1, token: t1, expression: e1 },
            Expression::UnaryOperator { unop: u2, token: t2, expression: e2 },
        ) => if *u1 == *u2 && eq_token(t1, t2) {
            compare_expression(e1, e2)
        } else {
            Some(false)
        },
        (
            Expression::BinaryOperator { lhs: l1, binop: o1, token: t1, rhs: r1 },
            Expression::BinaryOperator { lhs: l2, binop: o2, token: t2, rhs: r2 },
        ) => if *o1 == *o2 && eq_token(t1, t2) {
            match compare_expression(l1, l2) {
                Some(true) => compare_expression(r1, r2),
                other => other,
            }
        } else {
            Some(false)
        },
        (Expression::Function(x), Expression::Function(y)) => {
            assert(x.model().block == x.block.model());
            assert(y.model().block == y.block.model());
            eq_anonymous_function(x, y)
        },
        (Expression::TableConstructor(x), Expression::TableConstructor(y)) => eq_table_constructor(
            x,
            y,
        ),
        (Expression::Number(x), Expression::Number(y)) => Some(eq_token_reference(x, y)),
        (Expression::String(x), Expression::String(y)) => Some(eq_token_reference(x, y)),
        (Expression::Symbol(x), Expression::Symbol(y)) => Some(eq_token_reference(x, y)),
        (Expression::Var(x), Expression::Var(y)) => eq_var(x, y),
        _ => Some(false),
    }
}

/// Whether two expressions are equivalent: the same shape and the same token
/// texts. Defined on the pairs that [`compare_expression`] answers.
pub fn eq_expression(a: &Expression, b: &Expression) -> (r: bool)
    requires
        equiv_expression(a@, b@) is Some,
    ensures
        Some(r) == equiv_expression(a@, b@),
{
    match compare_expression(a, b) {
        Some(answer) => answer,
        None => false,
    }
}

fn eq_anonymous_function(a: &FunctionBody, b: &FunctionBody) -> (r: Option<bool>)
    ensures
        r == equiv_block(a.block@, b.block@),
    decreases a, 2nat,
{
    eq_function_body(a, b)
}

fn eq_punctuated_expressions(a: &Vec<Expression>, b: &Vec<Expression>) -> (r: Option<bool>)
    ensures
        r == equiv_expressions(model_expressions(a@), model_expressions(b@), 0),
    decreases a, 0nat,
{
    let ghost ma = model_expressions(a@);
    let ghost mb = model_expressions(b@);
    if a.len() != b.len() {
        return Some(false);
    }
    let mut i: usize = 0;
    while i < a.len()
        invariant
            ma == model_expressions(a@),
            mb == model_expressions(b@),
            a.len() == b.len(),
            i <= a.len(),
            equiv_expressions(ma, mb, 0) == equiv_expressions(ma, mb, i as nat),
        decreases a.len() - i,
    {
        assert(ma[i as int] == a@[i as int]@ && mb[i as int] == b@[i as int]@);
        match compare_expression(&a[i], &b[i]) {
            Some(true) => {},
            other => {
                return other;
            },
        }
        i = i + 1;
    }
    Some(true)
}

fn eq_local_assignment(a: &LocalAssignment, b: &LocalAssignment) -> (r: Option<bool>)
    ensures
        r == equiv_local_assignment(a@, b@),
    decreases a, 0nat,
{
    if !eq_punctuated_token_reference(&a.names, &b.names) {
        return Some(false);
    }
    eq_punctuated_expressions(&a.expressions, &b.expressions)
}

fn eq_assignment(a: &Assignment, b: &Assignment) -> (r: Option<bool>)
    ensures
        r == equiv_assignment(a@, b@),
    decreases a, 0nat,
{
    match eq_punctuated_var(&a.variables, &b.variables) {
        Some(true) => eq_punctuated_expressions(&a.expressions, &b.expressions),
        other => other,
    }
}

fn eq_while_loop(a: &While, b: &While) -> (r: Option<bool>)
    ensures
        r == equiv_while(a@, b@),
    decreases a, 0nat,
{
    match compare_expression(&a.condition, &b.condition) {
        Some(true) => eq_block(&a.block, &b.block),
        other => other,
    }
}

fn eq_repeat(a: &Repeat, b: &Repeat) -> (r: Option<bool>)
    ensures
        r == equiv_repeat(a@, b@),
    decreases a, 0nat,
{
    match compare_expression(&a.until, &b.until) {
        Some(true) => eq_block(&a.block, &b.block),
        other => other,
    }
}

fn eq_function_declaration(a: &FunctionDeclaration, b: &FunctionDeclaration) -> (r: Option<bool>)
    ensures
        r == equiv_function_declaration(a@, b@),
    decreases a, 0nat,
{
    if eq_function_name(&a.name, &b.name) {
        eq_function_body(&a.body, &b.body)
    } else {
        Some(false)
    }
}

fn eq_local_function(a: &LocalFunction, b: &LocalFunction) -> (r: Option<bool>)
    ensures
        r == equiv_local_function(a@, b@),
    decreases a, 0nat,
{
    if eq_token(&a.name, &b.name) {
        eq_function_body(&a.body, &b.body)
    } else {
        Some(false)
    }
}

fn eq_numeric_for(a: &NumericFor, b: &NumericFor) -> (r: Option<bool>)
    ensures
        r == equiv_numeric_for(a@, b@),
    decreases a, 0nat,
{
    let bounds = match compare_expression(&a.start, &b.start) {
        Some(true) => compare_expression(&a.end, &b.end),
        other => other,
    };
    match bounds {
        Some(true) => eq_block(&a.block, &b.block),
        other => other,
    }
}

fn eq_generic_for(a: &GenericFor, b: &GenericFor) -> (r: Option<bool>)
    ensures
        r == equiv_generic_for(a@, b@),
    decreases a, 0nat,
{
    if !eq_punctuated_token_reference(&a.names, &b.names) {
        return Some(false);
    }
    match eq_punctuated_expressions(&a.expressions, &b.expressions) {
        Some(true) => eq_block(&a.block, &b.block),
        other => other,
    }
}

fn eq_statement(a: &Stmt, b: &Stmt) -> (r: Option<bool>)
    ensures
        r == equiv_stmt(a@, b@),
    decreases a, 0nat,
{
    match (a, b) {
        (Stmt::LocalAssignment(x), Stmt::LocalAssignment(y)) => eq_local_assignment(x, y),
        (Stmt::Assignment(x), Stmt::Assignment(y)) => eq_assignment(x, y),
        (Stmt::If(x), Stmt::If(y)) => eq_if_statement(x, y),
        (Stmt::While(x), Stmt::While(y)) => eq_while_loop(x, y),
        (Stmt::FunctionCall(x), Stmt::FunctionCall(y)) => eq_function_call(x, y),
        (Stmt::FunctionDeclaration(x), Stmt::FunctionDeclaration(y)) => eq_function_declaration(
            x,
            y,
        ),
        (Stmt::LocalFunction(x), Stmt::LocalFunction(y)) => eq_local_function(x, y),
        (Stmt::NumericFor(x), Stmt::NumericFor(y)) => eq_numeric_for(x, y),
        (Stmt::GenericFor(x), Stmt::GenericFor(y)) => eq_generic_for(x, y),
        (Stmt::Repeat(x), Stmt::Repeat(y)) => eq_repeat(x, y),
        (Stmt::Do(x), Stmt::Do(y)) => eq_do(x, y),
        _ => Some(false),
    }
}

fn eq_punctuated_var(a: &Vec<Var>, b: &Vec<Var>) -> (r: Option<bool>)
    ensures
        r == equiv_vars(model_vars(a@), model_vars(b@), 0),
    decreases a, 0nat,
{
    let ghost ma = model_vars(a@);
    let ghost mb = model_vars(b@);
    let mut i: usize = 0;
    while i < a.len() && i < b.len()
        invariant
            ma == model_vars(a@),
            mb == model_vars(b@),
            i <= a.len(),
            i <= b.len(),
            equiv_vars(ma, mb, 0) == equiv_vars(ma, mb, i as nat),
        decreases a.len() - i,
    {
        assert(ma[i as int] == a@[i as int]@ && mb[i as int] == b@[i as int]@);
        match eq_var(&a[i], &b[i]) {
            Some(true) => {},
            other => {
                return other;
            },
        }
        i = i + 1;
    }
    Some(true)
}

fn eq_else_if(a: &ElseIf, b: &ElseIf) -> (r: Option<bool>)
    ensures
        r == and_then(
            equiv_expression(a.condition@, b.condition@),
            equiv_block(a.block@, b.block@),
        ),
    decreases a, 0nat,
{
    match compare_expression(&a.condition, &b.condition) {
        Some(true) => eq_block(&a.block, &b.block),
        other => other,
    }
}

fn eq_else_if_vec(a: &Vec<ElseIf>, b: &Vec<ElseIf>) -> (r: Option<bool>)
    ensures
        r == equiv_else_ifs(model_else_ifs(a@), model_else_ifs(b@), 0),
    decreases a, 0nat,
{
    let ghost ma = model_else_ifs(a@);
    let ghost mb = model_else_ifs(b@);
    if a.len() != b.len() {
        return Some(false);
    }
    let mut i: usize = 0;
    while i < a.len()
        invariant
            ma == model_else_ifs(a@),
            mb == model_else_ifs(b@),
            a.len() == b.len(),
            i <= a.len(),
            equiv_else_ifs(ma, mb, 0) == equiv_else_ifs(ma, mb, i as nat),
        decreases a.len() - i,
    {
        assert(ma[i as int] == a@[i as int]@ && mb[i as int] == b@[i as int]@);
        match eq_else_if(&a[i], &b[i]) {
            Some(true) => {},
            other => {
                return other;
            },
        }
        i = i + 1;
    }
    Some(true)
}

fn eq_if_statement(a: &If, b: &If) -> (r: Option<bool>)
    ensures
        r == equiv_if(a@, b@),
    decreases a, 0nat,
{
    let head = match compare_expression(&a.condition, &b.condition) {
        Some(true) => eq_block(&a.block, &b.block),
        other => other,
    };
    let middle = match head {
        Some(true) => match (&a.else_if, &b.else_if) {
            (None, None) => Some(true),
            (Some(x), Some(y)) => eq_else_if_vec(x, y),
            _ => Some(false),
        },
        other => other,
    };
    match middle {
        Some(true) => match (&a.else_block, &b.else_block) {
            (None, None) => Some(true),
            (Some(x), Some(y)) => eq_block(x, y),
            _ => Some(false),
        },
        other => other,
    }
}

fn eq_do(a: &Block, b: &Block) -> (r: Option<bool>)
    ensures
        r == equiv_block(a@, b@),
    decreases a, 1nat,
{
    eq_block(a, b)
}

fn eq_function_body(a: &FunctionBody, b: &FunctionBody) -> (r: Option<bool>)
    ensures
        r == equiv_block(a.block@, b.block@),
    decreases a, 1nat,
{
    eq_block(&a.block, &b.block)
}

fn eq_function_name(a: &FunctionName, b: &FunctionName) -> (r: bool)
    ensures
        r == (a@ == b@),
{
    let same = eq_tokens(&a.names, &b.names) && eq_tokens(&a.dots, &b.dots) && eq_option_token(
        &a.colon,
        &b.colon,
    ) && eq_option_token(&a.method_name, &b.method_name);
    proof {
        if a@ == b@ {
            assert(model_tokens(a.names@) == model_tokens(b.names@));
            assert(model_tokens(a.dots@) == model_tokens(b.dots@));
        }
    }
    same
}

fn eq_block(a: &Block, b: &Block) -> (r: Option<bool>)
    ensures
        r == equiv_block(a@, b@),
    decreases a, 0nat,
{
    let ghost ma = model_stmts(a.stmts@);
    let ghost mb = model_stmts(b.stmts@);
    let mut i: usize = 0;
    while i < a.stmts.len() && i < b.stmts.len()
        invariant
            ma == model_stmts(a.stmts@),
            mb == model_stmts(b.stmts@),
            ma == a@.stmts,
            mb == b@.stmts,
            i <= a.stmts.len(),
            i <= b.stmts.len(),
            equiv_stmts(ma, mb, 0) == equiv_stmts(ma, mb, i as nat),
        decreases a.stmts.len() - i,
    {
        assert(ma[i as int] == a.stmts@[i as int]@ && mb[i as int] == b.stmts@[i as int]@);
        match eq_statement(&a.stmts[i], &b.stmts[i]) {
            Some(true) => {},
            other => {
                return other;
            },
        }
        i = i + 1;
    }
    Some(true)
}

/// Compares two chunks, as [`compare_expression`] compares expressions: their
/// top-level blocks, statement by statement, as far as the shorter block goes.
pub fn compare_ast(a: &Ast, b: &Ast) -> (r: Option<bool>)
    ensures
        r == equiv_ast(a@, b@),
{
    eq_block(&a.nodes, &b.nodes)
}

/// Whether two chunks are equivalent: their top-level blocks compare equal
/// statement by statement, as far as the shorter block goes. Defined on the
/// pairs that [`compare_ast`] answers.
pub fn eq_ast(a: &Ast, b: &Ast) -> (r: bool)
    requires
        equiv_ast(a@, b@) is Some,
    ensures
        Some(r) == equiv_ast(a@, b@),
{
    match compare_ast(a, b) {
        Some(answer) => answer,
        None => false,
    }
}

} // verus!
