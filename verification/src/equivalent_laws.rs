//! Laws of structural equivalence.
//!
//! Each public proof function states one law over the specification of
//! [`crate::equivalent`]; the private ones carry the induction through every
//! kind of node.
use vstd::prelude::*;

use crate::equivalent::{
    equiv_assignment, equiv_ast, equiv_block, equiv_call, equiv_else_ifs, equiv_expression,
    equiv_expressions, equiv_field, equiv_fields, equiv_function_args, equiv_function_call,
    equiv_function_declaration, equiv_generic_for, equiv_if, equiv_local_assignment,
    equiv_local_function, equiv_numeric_for, equiv_prefix, equiv_repeat, equiv_stmt, equiv_stmts,
    equiv_suffix, equiv_suffixes, equiv_var, equiv_var_expression, equiv_vars, equiv_while,
    names_agree,
};
use crate::model::{
    SpecToken,
    SpecAssignment, SpecAst, SpecBlock, SpecCall, SpecElseIf, SpecExpression, SpecField,
    SpecFunctionArgs, SpecFunctionCall, SpecFunctionDeclaration, SpecGenericFor, SpecIf,
    SpecLocalAssignment, SpecLocalFunction, SpecNumericFor, SpecPrefix, SpecRepeat, SpecStmt,
    SpecSuffix, SpecVar, SpecVarExpression, SpecWhile,
};

verus! {

// ---------------------------------------------------------------------------
// Symmetry
// ---------------------------------------------------------------------------

/// Comparing `b` with `a` gives what comparing `a` with `b` gives: the same
/// answer, and no answer (a pair that the comparison does not handle) on the
/// same pairs.
pub proof fn lemma_equiv_expression_symmetric(a: SpecExpression, b: SpecExpression)
    ensures
        equiv_expression(a, b) == equiv_expression(b, a),
    decreases a, 0nat,
{
    match (a, b) {
        (SpecExpression::FunctionCall(x), SpecExpression::FunctionCall(y)) => {
            lemma_function_call_symmetric(x, y);
        },
        (SpecExpression::Parentheses(x), SpecExpression::Parentheses(y)) => {
            lemma_equiv_expression_symmetric(*x, *y);
        },
        (
            SpecExpression::UnaryOperator { unop: _, token: _, expression: e1 },
            SpecExpression::UnaryOperator { unop: _, token: _, expression: e2 },
        ) => {
            lemma_equiv_expression_symmetric(*e1, *e2);
        },
        (
            SpecExpression::BinaryOperator { lhs: l1, binop: _, token: _, rhs: r1 },
            SpecExpression::BinaryOperator { lhs: l2, binop: _, token: _, rhs: r2 },
        ) => {
            lemma_equiv_expression_symmetric(*l1, *l2);
            lemma_equiv_expression_symmetric(*r1, *r2);
        },
        (SpecExpression::Function(x), SpecExpression::Function(y)) => {
            lemma_block_symmetric(x.block, y.block);
        },
        (SpecExpression::TableConstructor(x), SpecExpression::TableConstructor(y)) => {
            lemma_fields_symmetric(x, y, 0);
        },
        (SpecExpression::Var(x), SpecExpression::Var(y)) => {
            lemma_var_symmetric(x, y);
        },
        _ => {},
    }
}

proof fn lemma_expressions_symmetric(a: Seq<SpecExpression>, b: Seq<SpecExpression>, i: nat)
    ensures
        equiv_expressions(a, b, i) == equiv_expressions(b, a, i),
    decreases a, a.len() - i,
{
    if a.len() == b.len() && i < a.len() {
        lemma_equiv_expression_symmetric(a[i as int], b[i as int]);
        lemma_expressions_symmetric(a, b, i + 1);
    }
}

proof fn lemma_function_call_symmetric(a: SpecFunctionCall, b: SpecFunctionCall)
    ensures
        equiv_function_call(a, b) == equiv_function_call(b, a),
    decreases a, 0nat,
{
    lemma_prefix_symmetric(a.prefix, b.prefix);
    lemma_suffixes_symmetric(a.suffixes, b.suffixes, 0);
}

proof fn lemma_prefix_symmetric(a: SpecPrefix, b: SpecPrefix)
    ensures
        equiv_prefix(a, b) == equiv_prefix(b, a),
    decreases a, 0nat,
{
    match (a, b) {
        (SpecPrefix::Expression(x), SpecPrefix::Expression(y)) => {
            lemma_equiv_expression_symmetric(*x, *y);
        },
        _ => {},
    }
}

proof fn lemma_suffixes_symmetric(a: Seq<SpecSuffix>, b: Seq<SpecSuffix>, i: nat)
    ensures
        equiv_suffixes(a, b, i) == equiv_suffixes(b, a, i),
    decreases a, a.len() - i,
{
    if a.len() == b.len() && i < a.len() {
        lemma_suffix_symmetric(a[i as int], b[i as int]);
        lemma_suffixes_symmetric(a, b, i + 1);
    }
}

proof fn lemma_suffix_symmetric(a: SpecSuffix, b: SpecSuffix)
    ensures
        equiv_suffix(a, b) == equiv_suffix(b, a),
    decreases a, 0nat,
{
    match (a, b) {
        (SpecSuffix::Call(x), SpecSuffix::Call(y)) => {
            lemma_call_symmetric(x, y);
        },
        _ => {},
    }
}

proof fn lemma_call_symmetric(a: SpecCall, b: SpecCall)
    ensures
        equiv_call(a, b) == equiv_call(b, a),
    decreases a, 0nat,
{
    match (a, b) {
        (SpecCall::AnonymousCall(x), SpecCall::AnonymousCall(y)) => {
            lemma_function_args_symmetric(x, y);
        },
        (SpecCall::MethodCall { name: _, args: x }, SpecCall::MethodCall { name: _, args: y }) => {
            lemma_function_args_symmetric(x, y);
        },
        _ => {},
    }
}

proof fn lemma_function_args_symmetric(a: SpecFunctionArgs, b: SpecFunctionArgs)
    ensures
        equiv_function_args(a, b) == equiv_function_args(b, a),
    decreases a, 0nat,
{
    match (a, b) {
        (SpecFunctionArgs::Parentheses(x), SpecFunctionArgs::Parentheses(y)) => {
            lemma_expressions_symmetric(x, y, 0);
        },
        (SpecFunctionArgs::TableConstructor(x), SpecFunctionArgs::TableConstructor(y)) => {
            lemma_fields_symmetric(x, y, 0);
        },
        _ => {},
    }
}

proof fn lemma_fields_symmetric(a: Seq<SpecField>, b: Seq<SpecField>, i: nat)
    ensures
        equiv_fields(a, b, i) == equiv_fields(b, a, i),
    decreases a, a.len() - i,
{
    if a.len() == b.len() && i < a.len() {
        lemma_field_symmetric(a[i as int], b[i as int]);
        lemma_fields_symmetric(a, b, i + 1);
    }
}

proof fn lemma_field_symmetric(a: SpecField, b: SpecField)
    ensures
        equiv_field(a, b) == equiv_field(b, a),
    decreases a, 0nat,
{
    match (a, b) {
        (
            SpecField::ExpressionKey { key: k1, value: v1 },
            SpecField::ExpressionKey { key: k2, value: v2 },
        ) => {
            lemma_equiv_expression_symmetric(k1, k2);
            lemma_equiv_expression_symmetric(v1, v2);
        },
        (SpecField::NameKey { key: _, value: v1 }, SpecField::NameKey { key: _, value: v2 }) => {
            lemma_equiv_expression_symmetric(v1, v2);
        },
        (SpecField::NoKey(x), SpecField::NoKey(y)) => {
            lemma_equiv_expression_symmetric(x, y);
        },
        _ => {},
    }
}

proof fn lemma_var_expression_symmetric(a: SpecVarExpression, b: SpecVarExpression)
    ensures
        equiv_var_expression(a, b) == equiv_var_expression(b, a),
    decreases a, 0nat,
{
    lemma_prefix_symmetric(a.prefix, b.prefix);
    lemma_suffixes_symmetric(a.suffixes, b.suffixes, 0);
}

proof fn lemma_var_symmetric(a: SpecVar, b: SpecVar)
    ensures
        equiv_var(a, b) == equiv_var(b, a),
    decreases a, 0nat,
{
    match (a, b) {
        (SpecVar::Expression(x), SpecVar::Expression(y)) => {
            lemma_var_expression_symmetric(*x, *y);
        },
        _ => {},
    }
}

proof fn lemma_vars_symmetric(a: Seq<SpecVar>, b: Seq<SpecVar>, i: nat)
    ensures
        equiv_vars(a, b, i) == equiv_vars(b, a, i),
    decreases a, a.len() - i,
{
    if i < a.len() && i < b.len() {
        lemma_var_symmetric(a[i as int], b[i as int]);
        lemma_vars_symmetric(a, b, i + 1);
    }
}

proof fn lemma_names_agree_symmetric(a: Seq<SpecToken>, b: Seq<SpecToken>)
    ensures
        names_agree(a, b) == names_agree(b, a),
{
}

proof fn lemma_block_symmetric(a: SpecBlock, b: SpecBlock)
    ensures
        equiv_block(a, b) == equiv_block(b, a),
    decreases a, 0nat,
{
    lemma_stmts_symmetric(a.stmts, b.stmts, 0);
}

proof fn lemma_stmts_symmetric(a: Seq<SpecStmt>, b: Seq<SpecStmt>, i: nat)
    ensures
        equiv_stmts(a, b, i) == equiv_stmts(b, a, i),
    decreases a, a.len() - i,
{
    if i < a.len() && i < b.len() {
        lemma_stmt_symmetric(a[i as int], b[i as int]);
        lemma_stmts_symmetric(a, b, i + 1);
    }
}

proof fn lemma_stmt_symmetric(a: SpecStmt, b: SpecStmt)
    ensures
        equiv_stmt(a, b) == equiv_stmt(b, a),
    decreases a, 0nat,
{
    match (a, b) {
        (SpecStmt::LocalAssignment(x), SpecStmt::LocalAssignment(y)) => {
            lemma_local_assignment_symmetric(x, y);
        },
        (SpecStmt::Assignment(x), SpecStmt::Assignment(y)) => {
            lemma_assignment_symmetric(x, y);
        },
        (SpecStmt::If(x), SpecStmt::If(y)) => {
            lemma_if_symmetric(x, y);
        },
        (SpecStmt::While(x), SpecStmt::While(y)) => {
            lemma_while_symmetric(x, y);
        },
        (SpecStmt::FunctionCall(x), SpecStmt::FunctionCall(y)) => {
            lemma_function_call_symmetric(x, y);
        },
        (SpecStmt::FunctionDeclaration(x), SpecStmt::FunctionDeclaration(y)) => {
            lemma_function_declaration_symmetric(x, y);
        },
        (SpecStmt::LocalFunction(x), SpecStmt::LocalFunction(y)) => {
            lemma_local_function_symmetric(x, y);
        },
        (SpecStmt::NumericFor(x), SpecStmt::NumericFor(y)) => {
            lemma_numeric_for_symmetric(x, y);
        },
        (SpecStmt::GenericFor(x), SpecStmt::GenericFor(y)) => {
            lemma_generic_for_symmetric(x, y);
        },
        (SpecStmt::Repeat(x), SpecStmt::Repeat(y)) => {
            lemma_repeat_symmetric(x, y);
        },
        (SpecStmt::Do(x), SpecStmt::Do(y)) => {
            lemma_block_symmetric(x, y);
        },
        _ => {},
    }
}

proof fn lemma_local_assignment_symmetric(a: SpecLocalAssignment, b: SpecLocalAssignment)
    ensures
        equiv_local_assignment(a, b) == equiv_local_assignment(b, a),
    decreases a, 0nat,
{
    lemma_names_agree_symmetric(a.names, b.names);
    lemma_expressions_symmetric(a.expressions, b.expressions, 0);
}

proof fn lemma_assignment_symmetric(a: SpecAssignment, b: SpecAssignment)
    ensures
        equiv_assignment(a, b) == equiv_assignment(b, a),
    decreases a, 0nat,
{
    lemma_vars_symmetric(a.variables, b.variables, 0);
    lemma_expressions_symmetric(a.expressions, b.expressions, 0);
}

proof fn lemma_while_symmetric(a: SpecWhile, b: SpecWhile)
    ensures
        equiv_while(a, b) == equiv_while(b, a),
    decreases a, 0nat,
{
    lemma_equiv_expression_symmetric(a.condition, b.condition);
    lemma_block_symmetric(a.block, b.block);
}

proof fn lemma_repeat_symmetric(a: SpecRepeat, b: SpecRepeat)
    ensures
        equiv_repeat(a, b) == equiv_repeat(b, a),
    decreases a, 0nat,
{
    lemma_equiv_expression_symmetric(a.until, b.until);
    lemma_block_symmetric(a.block, b.block);
}

proof fn lemma_function_declaration_symmetric(
    a: SpecFunctionDeclaration,
    b: SpecFunctionDeclaration,
)
    ensures
        equiv_function_declaration(a, b) == equiv_function_declaration(b, a),
    decreases a, 0nat,
{
    lemma_block_symmetric(a.body.block, b.body.block);
}

proof fn lemma_local_function_symmetric(a: SpecLocalFunction, b: SpecLocalFunction)
    ensures
        equiv_local_function(a, b) == equiv_local_function(b, a),
    decreases a, 0nat,
{
    lemma_block_symmetric(a.body.block, b.body.block);
}

proof fn lemma_numeric_for_symmetric(a: SpecNumericFor, b: SpecNumericFor)
    ensures
        equiv_numeric_for(a, b) == equiv_numeric_for(b, a),
    decreases a, 0nat,
{
    lemma_equiv_expression_symmetric(a.start, b.start);
    lemma_equiv_expression_symmetric(a.end, b.end);
    lemma_block_symmetric(a.block, b.block);
}

proof fn lemma_generic_for_symmetric(a: SpecGenericFor, b: SpecGenericFor)
    ensures
        equiv_generic_for(a, b) == equiv_generic_for(b, a),
    decreases a, 0nat,
{
    lemma_names_agree_symmetric(a.names, b.names);
    lemma_expressions_symmetric(a.expressions, b.expressions, 0);
    lemma_block_symmetric(a.block, b.block);
}

proof fn lemma_if_symmetric(a: SpecIf, b: SpecIf)
    ensures
        equiv_if(a, b) == equiv_if(b, a),
    decreases a, 0nat,
{
    lemma_equiv_expression_symmetric(a.condition, b.condition);
    lemma_block_symmetric(a.block, b.block);
    match (a.else_if, b.else_if) {
        (Some(x), Some(y)) => {
            lemma_else_ifs_symmetric(x, y, 0);
        },
        _ => {},
    }
    match (a.else_block, b.else_block) {
        (Some(x), Some(y)) => {
            lemma_block_symmetric(x, y);
        },
        _ => {},
    }
}

proof fn lemma_else_ifs_symmetric(a: Seq<SpecElseIf>, b: Seq<SpecElseIf>, i: nat)
    ensures
        equiv_else_ifs(a, b, i) == equiv_else_ifs(b, a, i),
    decreases a, a.len() - i,
{
    if a.len() == b.len() && i < a.len() {
        lemma_equiv_expression_symmetric(a[i as int].condition, b[i as int].condition);
        lemma_block_symmetric(a[i as int].block, b[i as int].block);
        lemma_else_ifs_symmetric(a, b, i + 1);
    }
}

/// Comparing two chunks does not depend on their order.
pub proof fn lemma_equiv_ast_symmetric(a: SpecAst, b: SpecAst)
    ensures
        equiv_ast(a, b) == equiv_ast(b, a),
{
    lemma_block_symmetric(a.nodes, b.nodes);
}

// ---------------------------------------------------------------------------
// Reflexivity
// ---------------------------------------------------------------------------

/// The expression is built only from kinds of node that the comparison
/// handles: no node of a kind this library does not inspect (`Other`), and no
/// index suffix. Parts that the comparison never looks at (last statements,
/// parameters, the step of a numeric `for`) may hold anything.
pub open spec fn comparable_expression(e: SpecExpression) -> bool
    decreases e, 0nat,
{
    match e {
        SpecExpression::BinaryOperator { lhs, binop: _, token: _, rhs } => comparable_expression(*lhs)
            && comparable_expression(*rhs),
        SpecExpression::Parentheses(x) => comparable_expression(*x),
        SpecExpression::UnaryOperator { unop: _, token: _, expression } => comparable_expression(*expression),
        SpecExpression::Function(x) => comparable_block(x.block),
        SpecExpression::FunctionCall(x) => comparable_function_call(x),
        SpecExpression::TableConstructor(x) => comparable_fields(x, 0),
        SpecExpression::Var(x) => comparable_var(x),
        SpecExpression::Other(_) => false,
        _ => true,
    }
}

/// Every expression of `s` from position `i` on is comparable.
pub open spec fn comparable_expressions(s: Seq<SpecExpression>, i: nat) -> bool
    decreases s, s.len() - i,
{
    if i >= s.len() {
        true
    } else {
        comparable_expression(s[i as int]) && comparable_expressions(s, i + 1)
    }
}

/// The call's prefix and suffixes are comparable.
pub open spec fn comparable_function_call(c: SpecFunctionCall) -> bool
    decreases c, 0nat,
{
    comparable_prefix(c.prefix) && comparable_suffixes(c.suffixes, 0)
}

/// The prefix is a name or a comparable expression.
pub open spec fn comparable_prefix(p: SpecPrefix) -> bool
    decreases p, 0nat,
{
    match p {
        SpecPrefix::Expression(x) => comparable_expression(*x),
        SpecPrefix::Name(_) => true,
    }
}

/// Every suffix of `s` from position `i` on is a call with comparable arguments.
pub open spec fn comparable_suffixes(s: Seq<SpecSuffix>, i: nat) -> bool
    decreases s, s.len() - i,
{
    if i >= s.len() {
        true
    } else {
        comparable_suffix(s[i as int]) && comparable_suffixes(s, i + 1)
    }
}

/// The suffix is a call with comparable arguments.
pub open spec fn comparable_suffix(s: SpecSuffix) -> bool
    decreases s, 0nat,
{
    match s {
        SpecSuffix::Call(SpecCall::AnonymousCall(x)) => comparable_function_args(x),
        SpecSuffix::Call(SpecCall::MethodCall { name: _, args }) => comparable_function_args(args),
        SpecSuffix::Index(_) => false,
    }
}

/// The arguments are comparable.
pub open spec fn comparable_function_args(a: SpecFunctionArgs) -> bool
    decreases a, 0nat,
{
    match a {
        SpecFunctionArgs::Parentheses(x) => comparable_expressions(x, 0),
        SpecFunctionArgs::String(_) => true,
        SpecFunctionArgs::TableConstructor(x) => comparable_fields(x, 0),
    }
}

/// Every field of `s` from position `i` on is comparable.
pub open spec fn comparable_fields(s: Seq<SpecField>, i: nat) -> bool
    decreases s, s.len() - i,
{
    if i >= s.len() {
        true
    } else {
        comparable_field(s[i as int]) && comparable_fields(s, i + 1)
    }
}

/// The field's key and value are comparable.
pub open spec fn comparable_field(f: SpecField) -> bool
    decreases f, 0nat,
{
    match f {
        SpecField::ExpressionKey { key, value } => comparable_expression(key)
            && comparable_expression(value),
        SpecField::NameKey { key: _, value } => comparable_expression(value),
        SpecField::NoKey(x) => comparable_expression(x),
    }
}

/// The variable is a name, or a comparable prefix with comparable suffixes.
pub open spec fn comparable_var(v: SpecVar) -> bool
    decreases v, 0nat,
{
    match v {
        SpecVar::Expression(x) => comparable_prefix(x.prefix) && comparable_suffixes(x.suffixes, 0),
        SpecVar::Name(_) => true,
    }
}

/// Every variable of `s` from position `i` on is comparable.
pub open spec fn comparable_vars(s: Seq<SpecVar>, i: nat) -> bool
    decreases s, s.len() - i,
{
    if i >= s.len() {
        true
    } else {
        comparable_var(s[i as int]) && comparable_vars(s, i + 1)
    }
}

/// The block's statements are comparable.
pub open spec fn comparable_block(b: SpecBlock) -> bool
    decreases b, 0nat,
{
    comparable_stmts(b.stmts, 0)
}

/// Every statement of `s` from position `i` on is comparable.
pub open spec fn comparable_stmts(s: Seq<SpecStmt>, i: nat) -> bool
    decreases s, s.len() - i,
{
    if i >= s.len() {
        true
    } else {
        comparable_stmt(s[i as int]) && comparable_stmts(s, i + 1)
    }
}

/// The statement is of a kind the comparison handles, and so are the parts
/// of it that the comparison looks at.
pub open spec fn comparable_stmt(s: SpecStmt) -> bool
    decreases s, 0nat,
{
    match s {
        SpecStmt::Assignment(x) => comparable_vars(x.variables, 0) && comparable_expressions(
            x.expressions,
            0,
        ),
        SpecStmt::Do(x) => comparable_block(x),
        SpecStmt::FunctionCall(x) => comparable_function_call(x),
        SpecStmt::FunctionDeclaration(x) => comparable_block(x.body.block),
        SpecStmt::GenericFor(x) => comparable_expressions(x.expressions, 0) && comparable_block(
            x.block,
        ),
        SpecStmt::If(x) => comparable_if(x),
        SpecStmt::LocalAssignment(x) => comparable_expressions(x.expressions, 0),
        SpecStmt::LocalFunction(x) => comparable_block(x.body.block),
        SpecStmt::NumericFor(x) => comparable_expression(x.start) && comparable_expression(x.end)
            && comparable_block(x.block),
        SpecStmt::Repeat(x) => comparable_expression(x.until) && comparable_block(x.block),
        SpecStmt::While(x) => comparable_expression(x.condition) && comparable_block(x.block),
        SpecStmt::Other(_) => false,
    }
}

/// The condition, the blocks and every `elseif` part are comparable.
pub open spec fn comparable_if(s: SpecIf) -> bool
    decreases s, 0nat,
{
    &&& comparable_expression(s.condition)
    &&& comparable_block(s.block)
    &&& match s.else_if {
        Some(x) => comparable_else_ifs(x, 0),
        None => true,
    }
    &&& match s.else_block {
        Some(x) => comparable_block(x),
        None => true,
    }
}

/// Every `elseif` part of `s` from position `i` on is comparable.
pub open spec fn comparable_else_ifs(s: Seq<SpecElseIf>, i: nat) -> bool
    decreases s, s.len() - i,
{
    if i >= s.len() {
        true
    } else {
        comparable_expression(s[i as int].condition) && comparable_block(s[i as int].block)
            && comparable_else_ifs(s, i + 1)
    }
}

/// A chunk is comparable when its block is.
pub open spec fn comparable_ast(a: SpecAst) -> bool {
    comparable_block(a.nodes)
}

/// Every comparable expression is equivalent to itself.
pub proof fn lemma_equiv_expression_reflexive(e: SpecExpression)
    requires
        comparable_expression(e),
    ensures
        equiv_expression(e, e) == Some(true),
    decreases e, 0nat,
{
    match e {
        SpecExpression::BinaryOperator { lhs, binop: _, token: _, rhs } => {
            lemma_equiv_expression_reflexive(*lhs);
            lemma_equiv_expression_reflexive(*rhs);
        },
        SpecExpression::Parentheses(x) => {
            lemma_equiv_expression_reflexive(*x);
        },
        SpecExpression::UnaryOperator { unop: _, token: _, expression } => {
            lemma_equiv_expression_reflexive(*expression);
        },
        SpecExpression::Function(x) => {
            lemma_block_reflexive(x.block);
        },
        SpecExpression::FunctionCall(x) => {
            lemma_function_call_reflexive(x);
        },
        SpecExpression::TableConstructor(x) => {
            lemma_fields_reflexive(x, 0);
        },
        SpecExpression::Var(x) => {
            lemma_var_reflexive(x);
        },
        _ => {},
    }
}

proof fn lemma_expressions_reflexive(s: Seq<SpecExpression>, i: nat)
    requires
        comparable_expressions(s, i),
    ensures
        equiv_expressions(s, s, i) == Some(true),
    decreases s, s.len() - i,
{
    if i < s.len() {
        lemma_equiv_expression_reflexive(s[i as int]);
        lemma_expressions_reflexive(s, i + 1);
    }
}

proof fn lemma_function_call_reflexive(c: SpecFunctionCall)
    requires
        comparable_function_call(c),
    ensures
        equiv_function_call(c, c) == Some(true),
    decreases c, 0nat,
{
    lemma_prefix_reflexive(c.prefix);
    lemma_suffixes_reflexive(c.suffixes, 0);
}

proof fn lemma_prefix_reflexive(p: SpecPrefix)
    requires
        comparable_prefix(p),
    ensures
        equiv_prefix(p, p) == Some(true),
    decreases p, 0nat,
{
    match p {
        SpecPrefix::Expression(x) => {
            lemma_equiv_expression_reflexive(*x);
        },
        SpecPrefix::Name(_) => {},
    }
}

proof fn lemma_suffixes_reflexive(s: Seq<SpecSuffix>, i: nat)
    requires
        comparable_suffixes(s, i),
    ensures
        equiv_suffixes(s, s, i) == Some(true),
    decreases s, s.len() - i,
{
    if i < s.len() {
        lemma_suffix_reflexive(s[i as int]);
        lemma_suffixes_reflexive(s, i + 1);
    }
}

proof fn lemma_suffix_reflexive(s: SpecSuffix)
    requires
        comparable_suffix(s),
    ensures
        equiv_suffix(s, s) == Some(true),
    decreases s, 0nat,
{
    match s {
        SpecSuffix::Call(c) => {
            match c {
                SpecCall::AnonymousCall(x) => {
                    lemma_function_args_reflexive(x);
                },
                SpecCall::MethodCall { name: _, args } => {
                    lemma_function_args_reflexive(args);
                },
            }
        },
        SpecSuffix::Index(_) => {},
    }
}

proof fn lemma_function_args_reflexive(a: SpecFunctionArgs)
    requires
        comparable_function_args(a),
    ensures
        equiv_function_args(a, a) == Some(true),
    decreases a, 0nat,
{
    match a {
        SpecFunctionArgs::Parentheses(x) => {
            lemma_expressions_reflexive(x, 0);
        },
        SpecFunctionArgs::String(_) => {},
        SpecFunctionArgs::TableConstructor(x) => {
            lemma_fields_reflexive(x, 0);
        },
    }
}

proof fn lemma_fields_reflexive(s: Seq<SpecField>, i: nat)
    requires
        comparable_fields(s, i),
    ensures
        equiv_fields(s, s, i) == Some(true),
    decreases s, s.len() - i,
{
    if i < s.len() {
        lemma_field_reflexive(s[i as int]);
        lemma_fields_reflexive(s, i + 1);
    }
}

proof fn lemma_field_reflexive(f: SpecField)
    requires
        comparable_field(f),
    ensures
        equiv_field(f, f) == Some(true),
    decreases f, 0nat,
{
    match f {
        SpecField::ExpressionKey { key, value } => {
            lemma_equiv_expression_reflexive(key);
            lemma_equiv_expression_reflexive(value);
        },
        SpecField::NameKey { key: _, value } => {
            lemma_equiv_expression_reflexive(value);
        },
        SpecField::NoKey(x) => {
            lemma_equiv_expression_reflexive(x);
        },
    }
}

proof fn lemma_var_reflexive(v: SpecVar)
    requires
        comparable_var(v),
    ensures
        equiv_var(v, v) == Some(true),
    decreases v, 0nat,
{
    match v {
        SpecVar::Expression(x) => {
            lemma_prefix_reflexive(x.prefix);
            lemma_suffixes_reflexive(x.suffixes, 0);
            assert(equiv_var_expression(*x, *x) == Some(true));
        },
        SpecVar::Name(_) => {},
    }
}

proof fn lemma_vars_reflexive(s: Seq<SpecVar>, i: nat)
    requires
        comparable_vars(s, i),
    ensures
        equiv_vars(s, s, i) == Some(true),
    decreases s, s.len() - i,
{
    if i < s.len() {
        lemma_var_reflexive(s[i as int]);
        lemma_vars_reflexive(s, i + 1);
    }
}

proof fn lemma_block_reflexive(b: SpecBlock)
    requires
        comparable_block(b),
    ensures
        equiv_block(b, b) == Some(true),
    decreases b, 0nat,
{
    lemma_stmts_reflexive(b.stmts, 0);
}

proof fn lemma_stmts_reflexive(s: Seq<SpecStmt>, i: nat)
    requires
        comparable_stmts(s, i),
    ensures
        equiv_stmts(s, s, i) == Some(true),
    decreases s, s.len() - i,
{
    if i < s.len() {
        lemma_stmt_reflexive(s[i as int]);
        lemma_stmts_reflexive(s, i + 1);
    }
}

proof fn lemma_stmt_reflexive(s: SpecStmt)
    requires
        comparable_stmt(s),
    ensures
        equiv_stmt(s, s) == Some(true),
    decreases s, 0nat,
{
    match s {
        SpecStmt::Assignment(x) => {
            lemma_vars_reflexive(x.variables, 0);
            lemma_expressions_reflexive(x.expressions, 0);
            assert(equiv_assignment(x, x) == Some(true));
        },
        SpecStmt::Do(x) => {
            lemma_block_reflexive(x);
        },
        SpecStmt::FunctionCall(x) => {
            lemma_function_call_reflexive(x);
        },
        SpecStmt::FunctionDeclaration(x) => {
            lemma_block_reflexive(x.body.block);
            assert(equiv_function_declaration(x, x) == Some(true));
        },
        SpecStmt::GenericFor(x) => {
            lemma_expressions_reflexive(x.expressions, 0);
            lemma_block_reflexive(x.block);
            assert(names_agree(x.names, x.names));
            assert(equiv_generic_for(x, x) == Some(true));
        },
        SpecStmt::If(x) => {
            lemma_if_reflexive(x);
        },
        SpecStmt::LocalAssignment(x) => {
            lemma_expressions_reflexive(x.expressions, 0);
            assert(names_agree(x.names, x.names));
            assert(equiv_local_assignment(x, x) == Some(true));
        },
        SpecStmt::LocalFunction(x) => {
            lemma_block_reflexive(x.body.block);
            assert(equiv_local_function(x, x) == Some(true));
        },
        SpecStmt::NumericFor(x) => {
            lemma_equiv_expression_reflexive(x.start);
            lemma_equiv_expression_reflexive(x.end);
            lemma_block_reflexive(x.block);
            assert(equiv_numeric_for(x, x) == Some(true));
        },
        SpecStmt::Repeat(x) => {
            lemma_equiv_expression_reflexive(x.until);
            lemma_block_reflexive(x.block);
            assert(equiv_repeat(x, x) == Some(true));
        },
        SpecStmt::While(x) => {
            lemma_equiv_expression_reflexive(x.condition);
            lemma_block_reflexive(x.block);
            assert(equiv_while(x, x) == Some(true));
        },
        SpecStmt::Other(_) => {},
    }
}

proof fn lemma_if_reflexive(s: SpecIf)
    requires
        comparable_if(s),
    ensures
        equiv_if(s, s) == Some(true),
    decreases s, 0nat,
{
    lemma_equiv_expression_reflexive(s.condition);
    lemma_block_reflexive(s.block);
    match s.else_if {
        Some(x) => {
            lemma_else_ifs_reflexive(x, 0);
        },
        None => {},
    }
    match s.else_block {
        Some(x) => {
            lemma_block_reflexive(x);
        },
        None => {},
    }
}

proof fn lemma_else_ifs_reflexive(s: Seq<SpecElseIf>, i: nat)
    requires
        comparable_else_ifs(s, i),
    ensures
        equiv_else_ifs(s, s, i) == Some(true),
    decreases s, s.len() - i,
{
    if i < s.len() {
        lemma_equiv_expression_reflexive(s[i as int].condition);
        lemma_block_reflexive(s[i as int].block);
        lemma_else_ifs_reflexive(s, i + 1);
    }
}

/// Every comparable chunk is equivalent to itself.
pub proof fn lemma_equiv_ast_reflexive(a: SpecAst)
    requires
        comparable_ast(a),
    ensures
        equiv_ast(a, a) == Some(true),
{
    lemma_block_reflexive(a.nodes);
}

// ---------------------------------------------------------------------------
// What equivalent trees have in common
// ---------------------------------------------------------------------------

/// Two lists of expressions compared from position `i` on with the answer
/// `true` have the same length and are equivalent position by position.
pub proof fn lemma_equivalent_expression_lists_agree(
    a: Seq<SpecExpression>,
    b: Seq<SpecExpression>,
    i: nat,
)
    requires
        equiv_expressions(a, b, i) == Some(true),
    ensures
        a.len() == b.len(),
        forall|j: int| i <= j < a.len() ==> equiv_expression(a[j], b[j]) == Some(true),
    decreases a.len() - i,
{
    if a.len() == b.len() && i < a.len() {
        lemma_equivalent_expression_lists_agree(a, b, i + 1);
    }
}

/// Two lists of table fields compared from position `i` on with the answer
/// `true` have the same length and are equivalent position by position.
pub proof fn lemma_equivalent_field_lists_agree(a: Seq<SpecField>, b: Seq<SpecField>, i: nat)
    requires
        equiv_fields(a, b, i) == Some(true),
    ensures
        a.len() == b.len(),
        forall|j: int| i <= j < a.len() ==> equiv_field(a[j], b[j]) == Some(true),
    decreases a.len() - i,
{
    if a.len() == b.len() && i < a.len() {
        lemma_equivalent_field_lists_agree(a, b, i + 1);
    }
}

/// Two lists of statements compared from position `i` on with the answer
/// `true` are equivalent position by position, as far as the shorter goes.
pub proof fn lemma_equivalent_statement_lists_agree(a: Seq<SpecStmt>, b: Seq<SpecStmt>, i: nat)
    requires
        equiv_stmts(a, b, i) == Some(true),
    ensures
        forall|j: int| i <= j < a.len() && j < b.len() ==> equiv_stmt(a[j], b[j]) == Some(true),
    decreases a.len() - i,
{
    if i < a.len() && i < b.len() {
        lemma_equivalent_statement_lists_agree(a, b, i + 1);
    }
}

/// Equivalent expressions are of the same kind and agree in every part that
/// the comparison looks at: the same operator (kind and token) and
/// equivalent operands, equivalent insides of parentheses, the same text of
/// numbers, strings and literals, equivalent calls, variables, function
/// blocks, and tables of the same length with equivalent fields. An
/// expression of a kind that this library does not inspect is equivalent to
/// nothing.
pub proof fn lemma_equivalent_expressions_agree(a: SpecExpression, b: SpecExpression)
    requires
        equiv_expression(a, b) == Some(true),
    ensures
        match (a, b) {
            (
                SpecExpression::BinaryOperator { lhs: l1, binop: o1, token: t1, rhs: r1 },
                SpecExpression::BinaryOperator { lhs: l2, binop: o2, token: t2, rhs: r2 },
            ) => o1 == o2 && t1 == t2 && equiv_expression(*l1, *l2) == Some(true)
                && equiv_expression(*r1, *r2) == Some(true),
            (
                SpecExpression::UnaryOperator { unop: u1, token: t1, expression: e1 },
                SpecExpression::UnaryOperator { unop: u2, token: t2, expression: e2 },
            ) => u1 == u2 && t1 == t2 && equiv_expression(*e1, *e2) == Some(true),
            (SpecExpression::Parentheses(x), SpecExpression::Parentheses(y)) => equiv_expression(
                *x,
                *y,
            ) == Some(true),
            (SpecExpression::Number(x), SpecExpression::Number(y)) => x.text == y.text,
            (SpecExpression::String(x), SpecExpression::String(y)) => x.text == y.text,
            (SpecExpression::Symbol(x), SpecExpression::Symbol(y)) => x.text == y.text,
            (SpecExpression::FunctionCall(x), SpecExpression::FunctionCall(y)) => equiv_prefix(
                x.prefix,
                y.prefix,
            ) == Some(true) && equiv_suffixes(x.suffixes, y.suffixes, 0) == Some(true),
            (SpecExpression::Var(x), SpecExpression::Var(y)) => equiv_var(x, y) == Some(true),
            (SpecExpression::Function(x), SpecExpression::Function(y)) => equiv_block(
                x.block,
                y.block,
            ) == Some(true),
            (SpecExpression::TableConstructor(x), SpecExpression::TableConstructor(y)) => {
                &&& x.len() == y.len()
                &&& forall|j: int| 0 <= j < x.len() ==> equiv_field(x[j], y[j]) == Some(true)
            },
            _ => false,
        },
{
    match (a, b) {
        (SpecExpression::TableConstructor(x), SpecExpression::TableConstructor(y)) => {
            lemma_equivalent_field_lists_agree(x, y, 0);
        },
        (SpecExpression::FunctionCall(x), SpecExpression::FunctionCall(y)) => {
            assert(equiv_function_call(x, y) == Some(true));
        },
        (SpecExpression::Var(x), SpecExpression::Var(y)) => {},
        (SpecExpression::Function(x), SpecExpression::Function(y)) => {},
        (
            SpecExpression::BinaryOperator { lhs: l1, binop: o1, token: t1, rhs: r1 },
            SpecExpression::BinaryOperator { lhs: l2, binop: o2, token: t2, rhs: r2 },
        ) => {},
        _ => {},
    }
}

/// Equivalent local assignments assign to names of the same texts (as far
/// as the shorter list of names goes) and have equivalent expressions,
/// position by position.
pub proof fn lemma_equivalent_local_assignments_agree(a: SpecLocalAssignment, b: SpecLocalAssignment)
    requires
        equiv_local_assignment(a, b) == Some(true),
    ensures
        forall|j: int|
            0 <= j < a.names.len() && j < b.names.len() ==> a.names[j].text == b.names[j].text,
        a.expressions.len() == b.expressions.len(),
        forall|j: int|
            0 <= j < a.expressions.len() ==> equiv_expression(a.expressions[j], b.expressions[j])
                == Some(true),
{
    lemma_equivalent_expression_lists_agree(a.expressions, b.expressions, 0);
}

/// In equivalent chunks, two local assignments at the same position assign
/// to names of the same texts and have equivalent expressions.
pub proof fn lemma_equivalent_chunks_local_assignments_agree(a: SpecAst, b: SpecAst, i: int)
    requires
        equiv_ast(a, b) == Some(true),
        0 <= i < a.nodes.stmts.len(),
        i < b.nodes.stmts.len(),
        a.nodes.stmts[i] is LocalAssignment,
        b.nodes.stmts[i] is LocalAssignment,
    ensures
        forall|j: int|
            0 <= j < a.nodes.stmts[i]->LocalAssignment_0.names.len() && j
                < b.nodes.stmts[i]->LocalAssignment_0.names.len() ==> a.nodes.stmts[i]->LocalAssignment_0.names[j].text
                == b.nodes.stmts[i]->LocalAssignment_0.names[j].text,
        a.nodes.stmts[i]->LocalAssignment_0.expressions.len()
            == b.nodes.stmts[i]->LocalAssignment_0.expressions.len(),
{
    lemma_equivalent_statement_lists_agree(a.nodes.stmts, b.nodes.stmts, 0);
    assert(equiv_stmt(a.nodes.stmts[i], b.nodes.stmts[i]) == Some(true));
    lemma_equivalent_local_assignments_agree(
        a.nodes.stmts[i]->LocalAssignment_0,
        b.nodes.stmts[i]->LocalAssignment_0,
    );
}

/// Equivalent statements are of the same kind and agree in every part that
/// the comparison looks at: assigned names by text, equivalent expressions,
/// conditions and blocks, the same names of declared and local functions,
/// `elseif` and `else` parts present in both or in neither. A statement of a
/// kind that this library does not inspect is equivalent to nothing.
pub proof fn lemma_equivalent_statements_agree(a: SpecStmt, b: SpecStmt)
    requires
        equiv_stmt(a, b) == Some(true),
    ensures
        match (a, b) {
            (SpecStmt::LocalAssignment(x), SpecStmt::LocalAssignment(y)) => names_agree(
                x.names,
                y.names,
            ) && equiv_expressions(x.expressions, y.expressions, 0) == Some(true),
            (SpecStmt::Assignment(x), SpecStmt::Assignment(y)) => equiv_vars(
                x.variables,
                y.variables,
                0,
            ) == Some(true) && equiv_expressions(x.expressions, y.expressions, 0) == Some(true),
            (SpecStmt::While(x), SpecStmt::While(y)) => equiv_expression(x.condition, y.condition)
                == Some(true) && equiv_block(x.block, y.block) == Some(true),
            (SpecStmt::Repeat(x), SpecStmt::Repeat(y)) => equiv_expression(x.until, y.until)
                == Some(true) && equiv_block(x.block, y.block) == Some(true),
            (SpecStmt::If(x), SpecStmt::If(y)) => {
                &&& equiv_expression(x.condition, y.condition) == Some(true)
                &&& equiv_block(x.block, y.block) == Some(true)
                &&& (x.else_if is Some <==> y.else_if is Some)
                &&& (x.else_block is Some <==> y.else_block is Some)
            },
            (SpecStmt::FunctionCall(x), SpecStmt::FunctionCall(y)) => equiv_function_call(x, y)
                == Some(true),
            (SpecStmt::FunctionDeclaration(x), SpecStmt::FunctionDeclaration(y)) => x.name == y.name
                && equiv_block(x.body.block, y.body.block) == Some(true),
            (SpecStmt::LocalFunction(x), SpecStmt::LocalFunction(y)) => x.name == y.name
                && equiv_block(x.body.block, y.body.block) == Some(true),
            (SpecStmt::NumericFor(x), SpecStmt::NumericFor(y)) => equiv_expression(x.start, y.start)
                == Some(true) && equiv_expression(x.end, y.end) == Some(true) && equiv_block(
                x.block,
                y.block,
            ) == Some(true),
            (SpecStmt::GenericFor(x), SpecStmt::GenericFor(y)) => names_agree(x.names, y.names)
                && equiv_expressions(x.expressions, y.expressions, 0) == Some(true) && equiv_block(
                x.block,
                y.block,
            ) == Some(true),
            (SpecStmt::Do(x), SpecStmt::Do(y)) => equiv_block(x, y) == Some(true),
            _ => false,
        },
{
    match (a, b) {
        (SpecStmt::LocalAssignment(x), SpecStmt::LocalAssignment(y)) => {},
        (SpecStmt::Assignment(x), SpecStmt::Assignment(y)) => {},
        (SpecStmt::While(x), SpecStmt::While(y)) => {},
        (SpecStmt::Repeat(x), SpecStmt::Repeat(y)) => {},
        (SpecStmt::If(x), SpecStmt::If(y)) => {},
        (SpecStmt::FunctionDeclaration(x), SpecStmt::FunctionDeclaration(y)) => {},
        (SpecStmt::LocalFunction(x), SpecStmt::LocalFunction(y)) => {},
        (SpecStmt::NumericFor(x), SpecStmt::NumericFor(y)) => {},
        (SpecStmt::GenericFor(x), SpecStmt::GenericFor(y)) => {},
        _ => {},
    }
}

/// Equivalent chunks have, at every position up to the end of the shorter
/// chunk, equivalent statements.
pub proof fn lemma_equivalent_chunks_statements_agree(a: SpecAst, b: SpecAst, i: int)
    requires
        equiv_ast(a, b) == Some(true),
        0 <= i < a.nodes.stmts.len(),
        i < b.nodes.stmts.len(),
    ensures
        equiv_stmt(a.nodes.stmts[i], b.nodes.stmts[i]) == Some(true),
{
    lemma_equivalent_statement_lists_agree(a.nodes.stmts, b.nodes.stmts, 0);
}

/// Two lists of suffixes compared from position `i` on with the answer
/// `true` have the same length and are equivalent position by position.
pub proof fn lemma_equivalent_suffix_lists_agree(a: Seq<SpecSuffix>, b: Seq<SpecSuffix>, i: nat)
    requires
        equiv_suffixes(a, b, i) == Some(true),
    ensures
        a.len() == b.len(),
        forall|j: int| i <= j < a.len() ==> equiv_suffix(a[j], b[j]) == Some(true),
    decreases a.len() - i,
{
    if a.len() == b.len() && i < a.len() {
        lemma_equivalent_suffix_lists_agree(a, b, i + 1);
    }
}

/// Equivalent call suffixes are calls of the same kind, with method names of
/// the same text, and equivalent arguments: parenthesized arguments of the
/// same number, equivalent one by one, strings of the same text, or tables
/// of the same length with equivalent fields.
pub proof fn lemma_equivalent_suffixes_agree(a: SpecSuffix, b: SpecSuffix)
    requires
        equiv_suffix(a, b) == Some(true),
    ensures
        match (a, b) {
            (SpecSuffix::Call(SpecCall::AnonymousCall(x)), SpecSuffix::Call(SpecCall::AnonymousCall(y))) =>
                equiv_function_args(x, y) == Some(true),
            (
                SpecSuffix::Call(SpecCall::MethodCall { name: n1, args: x }),
                SpecSuffix::Call(SpecCall::MethodCall { name: n2, args: y }),
            ) => n1.text == n2.text && equiv_function_args(x, y) == Some(true),
            _ => false,
        },
{
}

/// Equivalent arguments are of the same kind and agree part by part.
pub proof fn lemma_equivalent_arguments_agree(a: SpecFunctionArgs, b: SpecFunctionArgs)
    requires
        equiv_function_args(a, b) == Some(true),
    ensures
        match (a, b) {
            (SpecFunctionArgs::Parentheses(x), SpecFunctionArgs::Parentheses(y)) => x.len()
                == y.len() && forall|j: int|
                0 <= j < x.len() ==> equiv_expression(x[j], y[j]) == Some(true),
            (SpecFunctionArgs::String(x), SpecFunctionArgs::String(y)) => x.text == y.text,
            (SpecFunctionArgs::TableConstructor(x), SpecFunctionArgs::TableConstructor(y)) => x.len()
                == y.len() && forall|j: int| 0 <= j < x.len() ==> equiv_field(x[j], y[j]) == Some(true),
            _ => false,
        },
{
    match (a, b) {
        (SpecFunctionArgs::Parentheses(x), SpecFunctionArgs::Parentheses(y)) => {
            lemma_equivalent_expression_lists_agree(x, y, 0);
        },
        (SpecFunctionArgs::TableConstructor(x), SpecFunctionArgs::TableConstructor(y)) => {
            lemma_equivalent_field_lists_agree(x, y, 0);
        },
        _ => {},
    }
}

/// Equivalent fields are of the same kind, with name keys of the same text,
/// equivalent key expressions and equivalent values.
pub proof fn lemma_equivalent_fields_agree(a: SpecField, b: SpecField)
    requires
        equiv_field(a, b) == Some(true),
    ensures
        match (a, b) {
            (
                SpecField::ExpressionKey { key: k1, value: v1 },
                SpecField::ExpressionKey { key: k2, value: v2 },
            ) => equiv_expression(k1, k2) == Some(true) && equiv_expression(v1, v2) == Some(true),
            (SpecField::NameKey { key: k1, value: v1 }, SpecField::NameKey { key: k2, value: v2 }) =>
                k1.text == k2.text && equiv_expression(v1, v2) == Some(true),
            (SpecField::NoKey(x), SpecField::NoKey(y)) => equiv_expression(x, y) == Some(true),
            _ => false,
        },
{
}

/// Equivalent variables are names of the same text, or paths with
/// equivalent prefixes and suffixes; equivalent prefixes are the same whole
/// name token or equivalent expressions.
pub proof fn lemma_equivalent_variables_agree(a: SpecVar, b: SpecVar)
    requires
        equiv_var(a, b) == Some(true),
    ensures
        match (a, b) {
            (SpecVar::Name(x), SpecVar::Name(y)) => x.text == y.text,
            (SpecVar::Expression(x), SpecVar::Expression(y)) => {
                &&& match (x.prefix, y.prefix) {
                    (SpecPrefix::Name(p), SpecPrefix::Name(q)) => p == q,
                    (SpecPrefix::Expression(p), SpecPrefix::Expression(q)) => equiv_expression(*p, *q)
                        == Some(true),
                    _ => false,
                }
                &&& x.suffixes.len() == y.suffixes.len()
                &&& forall|j: int|
                    0 <= j < x.suffixes.len() ==> equiv_suffix(x.suffixes[j], y.suffixes[j]) == Some(
                        true,
                    )
            },
            _ => false,
        },
{
    match (a, b) {
        (SpecVar::Expression(x), SpecVar::Expression(y)) => {
            assert(equiv_var_expression(*x, *y) == Some(true));
            lemma_equivalent_suffix_lists_agree(x.suffixes, y.suffixes, 0);
        },
        _ => {},
    }
}

} // verus!
