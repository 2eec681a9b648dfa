//! Laws of replacement.
//!
//! The public proof functions state the laws over the specification of
//! [`crate::replace`]; the private ones carry the induction through every
//! kind of node.
use vstd::prelude::*;

use crate::equivalent_laws::{comparable_expression, lemma_equiv_expression_reflexive};
use crate::ast::BinOp;
use crate::equivalent::equiv_expression;
use crate::model::{
    SpecToken,
    SpecAst, SpecBlock, SpecCall, SpecExpression, SpecField, SpecFunctionArgs, SpecFunctionBody,
    SpecFunctionCall, SpecIf, SpecPrefix, SpecStmt, SpecSuffix, SpecVar,
};
use crate::replace::{
    first_match, replace_ast, replace_block, replace_call, replace_defined_ast,
    replace_defined_block, replace_defined_call, replace_defined_else_if,
    replace_defined_expression, replace_defined_expressions, replace_defined_fields,
    replace_defined_function_args, replace_defined_function_call, replace_defined_if,
    replace_defined_prefix, replace_defined_stmt, replace_defined_suffixes, replace_defined_var,
    replace_else_ifs, replace_expression, replace_expressions, replace_field, replace_fields,
    replace_function_args, replace_function_body, replace_function_call, replace_if,
    replace_prefix, replace_stmt, replace_stmts, replace_suffix, replace_suffixes, replace_var,
    replace_var_expression,
};

verus! {

/// No pairs at all.
pub open spec fn no_pairs() -> Seq<(SpecExpression, SpecExpression)> {
    Seq::empty()
}

// ---------------------------------------------------------------------------
// A replacer without pairs changes nothing
// ---------------------------------------------------------------------------

/// With no pairs, replacing within an expression gives it back unchanged,
/// and no comparison is made.
pub proof fn lemma_no_pairs_expression(e: SpecExpression)
    ensures
        replace_expression(no_pairs(), e) == e,
        replace_defined_expression(no_pairs(), e),
    decreases e,
{
    assert(first_match(no_pairs(), e, 0) == Some::<Option<nat>>(None));
    match e {
        SpecExpression::FunctionCall(c) => {
            lemma_no_pairs_function_call(c);
        },
        SpecExpression::Parentheses(x) => {
            lemma_no_pairs_expression(*x);
        },
        SpecExpression::UnaryOperator { unop: _, token: _, expression } => {
            lemma_no_pairs_expression(*expression);
        },
        SpecExpression::BinaryOperator { lhs, binop: _, token: _, rhs } => {
            lemma_no_pairs_expression(*lhs);
            lemma_no_pairs_expression(*rhs);
        },
        SpecExpression::Function(body) => {
            lemma_no_pairs_function_body(*body);
        },
        SpecExpression::TableConstructor(f) => {
            lemma_no_pairs_fields(f);
        },
        SpecExpression::Var(v) => {
            lemma_no_pairs_var(v);
        },
        _ => {},
    }
}

proof fn lemma_no_pairs_expressions(s: Seq<SpecExpression>)
    ensures
        replace_expressions(no_pairs(), s) == s,
        replace_defined_expressions(no_pairs(), s),
    decreases s,
{
    assert forall|i: int| 0 <= i < s.len() implies replace_expression(no_pairs(), s[i]) == s[i]
        && replace_defined_expression(no_pairs(), #[trigger] s[i]) by {
        lemma_no_pairs_expression(s[i]);
    }
    assert(replace_expressions(no_pairs(), s) =~= s);
}

proof fn lemma_no_pairs_function_call(c: SpecFunctionCall)
    ensures
        replace_function_call(no_pairs(), c) == c,
        replace_defined_function_call(no_pairs(), c),
    decreases c,
{
    lemma_no_pairs_prefix(c.prefix);
    lemma_no_pairs_suffixes(c.suffixes);
}

proof fn lemma_no_pairs_prefix(p: SpecPrefix)
    ensures
        replace_prefix(no_pairs(), p) == p,
        replace_defined_prefix(no_pairs(), p),
    decreases p,
{
    match p {
        SpecPrefix::Expression(x) => {
            lemma_no_pairs_expression(*x);
        },
        SpecPrefix::Name(_) => {},
    }
}

proof fn lemma_no_pairs_suffixes(s: Seq<SpecSuffix>)
    ensures
        replace_suffixes(no_pairs(), s) == s,
        replace_defined_suffixes(no_pairs(), s),
    decreases s,
{
    assert forall|i: int| 0 <= i < s.len() implies replace_suffix(no_pairs(), s[i]) == s[i]
        && match #[trigger] s[i] {
        SpecSuffix::Call(c) => replace_defined_call(no_pairs(), c),
        SpecSuffix::Index(_) => true,
    } by {
        match s[i] {
            SpecSuffix::Call(c) => {
                lemma_no_pairs_call(c);
            },
            SpecSuffix::Index(_) => {},
        }
    }
    assert(replace_suffixes(no_pairs(), s) =~= s);
}

proof fn lemma_no_pairs_call(c: SpecCall)
    ensures
        replace_call(no_pairs(), c) == c,
        replace_defined_call(no_pairs(), c),
    decreases c,
{
    match c {
        SpecCall::AnonymousCall(a) => {
            lemma_no_pairs_function_args(a);
        },
        SpecCall::MethodCall { name: _, args } => {
            lemma_no_pairs_function_args(args);
        },
    }
}

proof fn lemma_no_pairs_function_args(a: SpecFunctionArgs)
    ensures
        replace_function_args(no_pairs(), a) == a,
        replace_defined_function_args(no_pairs(), a),
    decreases a,
{
    match a {
        SpecFunctionArgs::Parentheses(v) => {
            lemma_no_pairs_expressions(v);
        },
        SpecFunctionArgs::String(_) => {},
        SpecFunctionArgs::TableConstructor(f) => {
            lemma_no_pairs_fields(f);
        },
    }
}

proof fn lemma_no_pairs_field(f: SpecField)
    ensures
        replace_field(no_pairs(), f) == f,
        match f {
            SpecField::ExpressionKey { key, value } => replace_defined_expression(no_pairs(), key)
                && replace_defined_expression(no_pairs(), value),
            SpecField::NameKey { value, .. } => replace_defined_expression(no_pairs(), value),
            SpecField::NoKey(e) => replace_defined_expression(no_pairs(), e),
        },
    decreases f,
{
    match f {
        SpecField::ExpressionKey { key, value } => {
            lemma_no_pairs_expression(key);
            lemma_no_pairs_expression(value);
        },
        SpecField::NameKey { key: _, value } => {
            lemma_no_pairs_expression(value);
        },
        SpecField::NoKey(e) => {
            lemma_no_pairs_expression(e);
        },
    }
}

proof fn lemma_no_pairs_fields(s: Seq<SpecField>)
    ensures
        replace_fields(no_pairs(), s) == s,
        replace_defined_fields(no_pairs(), s),
    decreases s,
{
    assert forall|i: int| 0 <= i < s.len() implies replace_field(no_pairs(), s[i]) == s[i]
        && match #[trigger] s[i] {
        SpecField::ExpressionKey { key, value } => replace_defined_expression(no_pairs(), key)
            && replace_defined_expression(no_pairs(), value),
        SpecField::NameKey { value, .. } => replace_defined_expression(no_pairs(), value),
        SpecField::NoKey(e) => replace_defined_expression(no_pairs(), e),
    } by {
        lemma_no_pairs_field(s[i]);
    }
    assert(replace_fields(no_pairs(), s) =~= s);
}

proof fn lemma_no_pairs_var(v: SpecVar)
    ensures
        replace_var(no_pairs(), v) == v,
        replace_defined_var(no_pairs(), v),
    decreases v,
{
    match v {
        SpecVar::Expression(x) => {
            lemma_no_pairs_prefix(x.prefix);
            lemma_no_pairs_suffixes(x.suffixes);
            assert(replace_var_expression(no_pairs(), *x) == *x);
        },
        SpecVar::Name(_) => {},
    }
}

proof fn lemma_no_pairs_function_body(b: SpecFunctionBody)
    ensures
        replace_function_body(no_pairs(), b) == b,
        replace_defined_block(no_pairs(), b.block),
    decreases b,
{
    lemma_no_pairs_block(b.block);
}

/// With no pairs, replacing within a block gives it back unchanged, and no
/// comparison is made.
pub proof fn lemma_no_pairs_block(b: SpecBlock)
    ensures
        replace_block(no_pairs(), b) == b,
        replace_defined_block(no_pairs(), b),
    decreases b,
{
    lemma_no_pairs_stmts(b.stmts);
}

proof fn lemma_no_pairs_stmts(s: Seq<SpecStmt>)
    ensures
        replace_stmts(no_pairs(), s) == s,
        forall|i: int| 0 <= i < s.len() ==> replace_defined_stmt(no_pairs(), #[trigger] s[i]),
    decreases s,
{
    assert forall|i: int| 0 <= i < s.len() implies replace_stmt(no_pairs(), s[i]) == s[i]
        && replace_defined_stmt(no_pairs(), #[trigger] s[i]) by {
        lemma_no_pairs_stmt(s[i]);
    }
    assert(replace_stmts(no_pairs(), s) =~= s);
}

proof fn lemma_no_pairs_stmt(s: SpecStmt)
    ensures
        replace_stmt(no_pairs(), s) == s,
        replace_defined_stmt(no_pairs(), s),
    decreases s,
{
    match s {
        SpecStmt::LocalAssignment(x) => {
            lemma_no_pairs_expressions(x.expressions);
        },
        SpecStmt::Assignment(x) => {
            lemma_no_pairs_expressions(x.expressions);
        },
        SpecStmt::If(x) => {
            lemma_no_pairs_if(x);
        },
        SpecStmt::While(x) => {
            lemma_no_pairs_expression(x.condition);
            lemma_no_pairs_block(x.block);
        },
        SpecStmt::FunctionCall(c) => {
            lemma_no_pairs_function_call(c);
        },
        SpecStmt::FunctionDeclaration(x) => {
            lemma_no_pairs_function_body(x.body);
        },
        SpecStmt::LocalFunction(x) => {
            lemma_no_pairs_function_body(x.body);
        },
        SpecStmt::NumericFor(x) => {
            lemma_no_pairs_expression(x.start);
            lemma_no_pairs_expression(x.end);
            lemma_no_pairs_block(x.block);
        },
        SpecStmt::GenericFor(x) => {
            lemma_no_pairs_expressions(x.expressions);
            lemma_no_pairs_block(x.block);
        },
        SpecStmt::Repeat(x) => {
            lemma_no_pairs_block(x.block);
            lemma_no_pairs_expression(x.until);
        },
        SpecStmt::Do(b) => {
            lemma_no_pairs_block(b);
        },
        SpecStmt::Other(_) => {},
    }
}

proof fn lemma_no_pairs_if(x: SpecIf)
    ensures
        replace_if(no_pairs(), x) == x,
        replace_defined_if(no_pairs(), x),
    decreases x,
{
    lemma_no_pairs_expression(x.condition);
    lemma_no_pairs_block(x.block);
    match x.else_if {
        Some(v) => {
            assert forall|i: int| 0 <= i < v.len() implies replace_expression(
                no_pairs(),
                v[i].condition,
            ) == v[i].condition && replace_block(no_pairs(), v[i].block) == v[i].block
                && replace_defined_else_if(no_pairs(), #[trigger] v[i]) by {
                lemma_no_pairs_expression(v[i].condition);
                lemma_no_pairs_block(v[i].block);
            }
            assert(replace_else_ifs(no_pairs(), v) =~= v);
        },
        None => {},
    }
    match x.else_block {
        Some(b) => {
            lemma_no_pairs_block(b);
        },
        None => {},
    }
}

/// A replacer with no pairs gives every chunk back unchanged, and makes no
/// comparison, so it accepts every chunk.
pub proof fn lemma_no_pairs_ast(a: SpecAst)
    ensures
        replace_ast(no_pairs(), a) == a,
        replace_defined_ast(no_pairs(), a),
{
    lemma_no_pairs_block(a.nodes);
}

// ---------------------------------------------------------------------------
// A source is replaced by its target
// ---------------------------------------------------------------------------

/// With the single pair `(source, target)`, an expression that is the source
/// itself is replaced by the target, provided the source is made only of
/// kinds of node that the comparison handles.
pub proof fn lemma_source_replaced(source: SpecExpression, target: SpecExpression)
    requires
        comparable_expression(source),
    ensures
        replace_expression(seq![(source, target)], source) == target,
        replace_defined_expression(seq![(source, target)], source),
{
    let pairs = seq![(source, target)];
    lemma_equiv_expression_reflexive(source);
    assert(first_match(pairs, source, 0) == Some(Some(0nat)));
}

// ---------------------------------------------------------------------------
// Which pair applies, and where the walk goes
// ---------------------------------------------------------------------------

/// The search for a matching source, from position `j` on: it finds
/// position `k` exactly when the source at `k` is equivalent to `e` and every
/// source between `j` and `k` compares unequal to it; it finds none exactly
/// when every source from `j` on compares unequal.
pub proof fn lemma_first_match_characterized(
    pairs: Seq<(SpecExpression, SpecExpression)>,
    e: SpecExpression,
    j: nat,
)
    ensures
        forall|k: nat|
            first_match(pairs, e, j) == Some(Some(k)) <==> (j <= k < pairs.len() && equiv_expression(
                pairs[k as int].0,
                e,
            ) == Some(true) && forall|m: int|
                j <= m < k ==> equiv_expression(pairs[m].0, e) == Some(false)),
        first_match(pairs, e, j) == Some(None::<nat>) <==> forall|m: int|
            j <= m < pairs.len() ==> equiv_expression(pairs[m].0, e) == Some(false),
    decreases pairs.len() - j,
{
    if j < pairs.len() {
        lemma_first_match_characterized(pairs, e, j + 1);
        assert forall|k: nat|
            first_match(pairs, e, j) == Some(Some(k)) <==> (j <= k < pairs.len()
                && equiv_expression(pairs[k as int].0, e) == Some(true) && forall|m: int|
                j <= m < k ==> equiv_expression(pairs[m].0, e) == Some(false)) by {
            if equiv_expression(pairs[j as int].0, e) == Some(false) && k != j {
                if j + 1 <= k < pairs.len() && equiv_expression(pairs[k as int].0, e) == Some(true)
                    && forall|m: int| j + 1 <= m < k ==> equiv_expression(pairs[m].0, e) == Some(false) {
                    assert forall|m: int| j <= m < k implies equiv_expression(pairs[m].0, e)
                        == Some(false) by {
                        if m == j {
                        }
                    }
                }
                if (j <= k < pairs.len() && equiv_expression(pairs[k as int].0, e) == Some(true)
                    && forall|m: int| j <= m < k ==> equiv_expression(pairs[m].0, e) == Some(false)) {
                    assert forall|m: int| j + 1 <= m < k implies equiv_expression(pairs[m].0, e)
                        == Some(false) by {
                    }
                }
            }
            if equiv_expression(pairs[j as int].0, e) != Some(false) && k != j {
                if j <= k < pairs.len() && equiv_expression(pairs[k as int].0, e) == Some(true)
                    && forall|m: int| j <= m < k ==> equiv_expression(pairs[m].0, e) == Some(false) {
                    assert(equiv_expression(pairs[j as int].0, e) == Some(false));
                }
            }
        }
        if equiv_expression(pairs[j as int].0, e) == Some(false) {
            if forall|m: int| j + 1 <= m < pairs.len() ==> equiv_expression(pairs[m].0, e) == Some(false) {
                assert forall|m: int| j <= m < pairs.len() implies equiv_expression(pairs[m].0, e)
                    == Some(false) by {
                    if m == j {
                    }
                }
            }
        }
    }
}

/// The first pair whose source is equivalent to an expression, with all
/// earlier sources comparing unequal to it, gives the result: its target.
pub proof fn lemma_first_matching_pair_wins(
    pairs: Seq<(SpecExpression, SpecExpression)>,
    e: SpecExpression,
    k: int,
)
    requires
        0 <= k < pairs.len(),
        equiv_expression(pairs[k].0, e) == Some(true),
        forall|m: int| 0 <= m < k ==> equiv_expression(pairs[m].0, e) == Some(false),
    ensures
        replace_expression(pairs, e) == pairs[k].1,
        replace_defined_expression(pairs, e),
{
    lemma_first_match_characterized(pairs, e, 0);
    assert(first_match(pairs, e, 0) == Some(Some(k as nat)));
}

/// An expression that no source is equivalent to is rebuilt from its parts,
/// each replaced in turn: both operands of a binary operator, the operand of
/// a unary operator, the inside of parentheses, the call, the variable, the
/// body of a function and the fields of a table; tokens and operators are
/// kept, and any other expression is kept as it is.
pub proof fn lemma_unmatched_expression_rebuilt(
    pairs: Seq<(SpecExpression, SpecExpression)>,
    e: SpecExpression,
)
    requires
        forall|m: int| 0 <= m < pairs.len() ==> equiv_expression(pairs[m].0, e) == Some(false),
    ensures
        replace_expression(pairs, e) == match e {
            SpecExpression::BinaryOperator { lhs, binop, token, rhs } => SpecExpression::BinaryOperator {
                lhs: Box::new(replace_expression(pairs, *lhs)),
                binop,
                token,
                rhs: Box::new(replace_expression(pairs, *rhs)),
            },
            SpecExpression::UnaryOperator { unop, token, expression } => SpecExpression::UnaryOperator {
                unop,
                token,
                expression: Box::new(replace_expression(pairs, *expression)),
            },
            SpecExpression::Parentheses(x) => SpecExpression::Parentheses(
                Box::new(replace_expression(pairs, *x)),
            ),
            SpecExpression::FunctionCall(c) => SpecExpression::FunctionCall(
                replace_function_call(pairs, c),
            ),
            SpecExpression::Var(v) => SpecExpression::Var(replace_var(pairs, v)),
            SpecExpression::Function(body) => SpecExpression::Function(
                Box::new(replace_function_body(pairs, *body)),
            ),
            SpecExpression::TableConstructor(f) => SpecExpression::TableConstructor(
                replace_fields(pairs, f),
            ),
            _ => e,
        },
{
    lemma_first_match_characterized(pairs, e, 0);
}

/// With the single pair `(source, target)` and a comparable source, a binary
/// expression that is not itself equivalent to the source gets the target in
/// place of each operand that is the source: the walk reaches both operands.
pub proof fn lemma_source_replaced_in_operands(
    source: SpecExpression,
    target: SpecExpression,
    lhs: SpecExpression,
    binop: BinOp,
    token: SpecToken,
    rhs: SpecExpression,
)
    requires
        comparable_expression(source),
        equiv_expression(
            source,
            SpecExpression::BinaryOperator { lhs: Box::new(lhs), binop, token, rhs: Box::new(rhs) },
        ) == Some(false),
    ensures
        ({
            let result = replace_expression(
                seq![(source, target)],
                SpecExpression::BinaryOperator { lhs: Box::new(lhs), binop, token, rhs: Box::new(rhs) },
            );
            &&& result is BinaryOperator
            &&& lhs == source ==> *result->BinaryOperator_lhs == target
            &&& rhs == source ==> *result->BinaryOperator_rhs == target
        }),
{
    let pairs = seq![(source, target)];
    let e = SpecExpression::BinaryOperator { lhs: Box::new(lhs), binop, token, rhs: Box::new(rhs) };
    lemma_unmatched_expression_rebuilt(pairs, e);
    if lhs == source {
        lemma_source_replaced(source, target);
    }
    if rhs == source {
        lemma_source_replaced(source, target);
    }
}

/// Replacement within a statement reaches every expression and block of it
/// that is walked, and keeps the rest: the expressions of local assignments
/// and of assignments (not the assigned variables), the condition and block
/// of `while`, `repeat` and each part of `if`, the start, end and block of a
/// numeric `for` (not the step), the expressions and block of a generic
/// `for`, calls, function bodies and `do` blocks.
pub proof fn lemma_statement_parts_replaced(pairs: Seq<(SpecExpression, SpecExpression)>, s: SpecStmt)
    ensures
        match (s, replace_stmt(pairs, s)) {
            (SpecStmt::LocalAssignment(x), SpecStmt::LocalAssignment(y)) => y.names == x.names
                && y.expressions.len() == x.expressions.len() && forall|j: int|
                0 <= j < x.expressions.len() ==> y.expressions[j] == replace_expression(
                    pairs,
                    x.expressions[j],
                ),
            (SpecStmt::Assignment(x), SpecStmt::Assignment(y)) => y.variables == x.variables
                && y.expressions.len() == x.expressions.len() && forall|j: int|
                0 <= j < x.expressions.len() ==> y.expressions[j] == replace_expression(
                    pairs,
                    x.expressions[j],
                ),
            (SpecStmt::While(x), SpecStmt::While(y)) => y.condition == replace_expression(
                pairs,
                x.condition,
            ) && y.block == replace_block(pairs, x.block),
            (SpecStmt::Repeat(x), SpecStmt::Repeat(y)) => y.until == replace_expression(
                pairs,
                x.until,
            ) && y.block == replace_block(pairs, x.block),
            (SpecStmt::If(x), SpecStmt::If(y)) => y.condition == replace_expression(
                pairs,
                x.condition,
            ) && y.block == replace_block(pairs, x.block) && (x.else_if is Some <==> y.else_if is Some)
                && (x.else_block is Some <==> y.else_block is Some),
            (SpecStmt::NumericFor(x), SpecStmt::NumericFor(y)) => y.index_variable == x.index_variable
                && y.start == replace_expression(pairs, x.start) && y.end == replace_expression(
                pairs,
                x.end,
            ) && y.step == x.step && y.block == replace_block(pairs, x.block),
            (SpecStmt::GenericFor(x), SpecStmt::GenericFor(y)) => y.names == x.names
                && y.expressions.len() == x.expressions.len() && y.block == replace_block(
                pairs,
                x.block,
            ),
            (SpecStmt::FunctionCall(x), SpecStmt::FunctionCall(y)) => y == replace_function_call(
                pairs,
                x,
            ),
            (SpecStmt::FunctionDeclaration(x), SpecStmt::FunctionDeclaration(y)) => y.name == x.name
                && y.body.parameters == x.body.parameters && y.body.block == replace_block(
                pairs,
                x.body.block,
            ),
            (SpecStmt::LocalFunction(x), SpecStmt::LocalFunction(y)) => y.name == x.name
                && y.body.parameters == x.body.parameters && y.body.block == replace_block(
                pairs,
                x.body.block,
            ),
            (SpecStmt::Do(x), SpecStmt::Do(y)) => y == replace_block(pairs, x),
            (SpecStmt::Other(_), _) => replace_stmt(pairs, s) == s,
            _ => false,
        },
{
}

/// Replacement within a block replaces within each statement, in order, and
/// keeps the semicolons, the last statement and its semicolon.
pub proof fn lemma_block_statements_replaced(pairs: Seq<(SpecExpression, SpecExpression)>, b: SpecBlock)
    ensures
        replace_block(pairs, b).stmts.len() == b.stmts.len(),
        forall|j: int|
            0 <= j < b.stmts.len() ==> replace_block(pairs, b).stmts[j] == replace_stmt(
                pairs,
                b.stmts[j],
            ),
        replace_block(pairs, b).semicolons == b.semicolons,
        replace_block(pairs, b).last_stmt == b.last_stmt,
        replace_block(pairs, b).last_semicolon == b.last_semicolon,
{
}

/// Replacement within a call reaches its prefix and every suffix, in order:
/// the arguments of each call suffix (each parenthesized argument, each
/// table field); index suffixes, names and method names are kept.
pub proof fn lemma_call_parts_replaced(pairs: Seq<(SpecExpression, SpecExpression)>, c: SpecFunctionCall)
    ensures
        replace_function_call(pairs, c).prefix == replace_prefix(pairs, c.prefix),
        c.prefix is Name ==> replace_function_call(pairs, c).prefix == c.prefix,
        c.prefix matches SpecPrefix::Expression(x) ==> replace_function_call(pairs, c).prefix
            == SpecPrefix::Expression(Box::new(replace_expression(pairs, *x))),
        replace_function_call(pairs, c).suffixes.len() == c.suffixes.len(),
        forall|j: int|
            0 <= j < c.suffixes.len() ==> replace_function_call(pairs, c).suffixes[j]
                == replace_suffix(pairs, c.suffixes[j]),
{
}

/// Replacement within a suffix: an index is kept; a call keeps its kind and
/// method name and has its arguments replaced.
pub proof fn lemma_suffix_parts_replaced(pairs: Seq<(SpecExpression, SpecExpression)>, s: SpecSuffix)
    ensures
        match (s, replace_suffix(pairs, s)) {
            (SpecSuffix::Index(_), r) => r == s,
            (SpecSuffix::Call(SpecCall::AnonymousCall(a)), SpecSuffix::Call(SpecCall::AnonymousCall(b))) =>
                b == replace_function_args(pairs, a),
            (
                SpecSuffix::Call(SpecCall::MethodCall { name: n1, args: a }),
                SpecSuffix::Call(SpecCall::MethodCall { name: n2, args: b }),
            ) => n1 == n2 && b == replace_function_args(pairs, a),
            _ => false,
        },
{
}

/// Replacement within arguments reaches every parenthesized argument and
/// every table field, in order; a string argument is kept.
pub proof fn lemma_arguments_replaced(pairs: Seq<(SpecExpression, SpecExpression)>, a: SpecFunctionArgs)
    ensures
        match (a, replace_function_args(pairs, a)) {
            (SpecFunctionArgs::Parentheses(v), SpecFunctionArgs::Parentheses(w)) => w.len() == v.len()
                && forall|j: int| 0 <= j < v.len() ==> w[j] == replace_expression(pairs, v[j]),
            (SpecFunctionArgs::String(x), SpecFunctionArgs::String(y)) => x == y,
            (SpecFunctionArgs::TableConstructor(f), SpecFunctionArgs::TableConstructor(g)) => g.len()
                == f.len() && forall|j: int| 0 <= j < f.len() ==> g[j] == replace_field(pairs, f[j]),
            _ => false,
        },
{
}

/// Replacement within a table field reaches its key expression and its
/// value; a name key is kept.
pub proof fn lemma_field_parts_replaced(pairs: Seq<(SpecExpression, SpecExpression)>, f: SpecField)
    ensures
        match (f, replace_field(pairs, f)) {
            (
                SpecField::ExpressionKey { key: k1, value: v1 },
                SpecField::ExpressionKey { key: k2, value: v2 },
            ) => k2 == replace_expression(pairs, k1) && v2 == replace_expression(pairs, v1),
            (SpecField::NameKey { key: k1, value: v1 }, SpecField::NameKey { key: k2, value: v2 }) =>
                k1 == k2 && v2 == replace_expression(pairs, v1),
            (SpecField::NoKey(x), SpecField::NoKey(y)) => y == replace_expression(pairs, x),
            _ => false,
        },
{
}

} // verus!
