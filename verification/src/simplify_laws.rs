//! Laws of simplification.
use vstd::prelude::*;

use crate::ast::{BinOp, UnOp};
use crate::model::{
    SpecAst, SpecBlock, SpecCall, SpecElseIf, SpecExpression, SpecFunctionArgs, SpecFunctionCall,
    SpecIf, SpecPrefix, SpecStmt, SpecSuffix, SpecToken,
};
use crate::simplify::{
    build_if, clause_statements, else_if_clauses, else_ifs_part, if_clauses, simplified_ast,
    simplified_block, simplified_expression, simplified_expressions, simplified_function_args,
    simplified_function_call, simplified_stmt, simplified_stmts, simplified_suffix,
    simplified_semicolons, simplified_suffixes, spec_is_just_false, spec_is_just_true,
    spec_to_predicate, SpecClause, SpecPredicate,
};

verus! {

/// `e` is one of the literals `true` and `false`.
pub open spec fn is_boolean_literal(e: SpecExpression) -> bool {
    spec_is_just_true(e) || spec_is_just_false(e)
}

/// If `s` is an `if` statement, neither its condition nor the condition of
/// any of its `elseif` parts is a boolean literal.
pub open spec fn decided_conditions_removed(s: SpecStmt) -> bool {
    match s {
        SpecStmt::If(x) => {
            &&& !is_boolean_literal(x.condition)
            &&& match x.else_if {
                Some(v) => forall|k: int| 0 <= k < v.len() ==> !is_boolean_literal(#[trigger] v[k].condition),
                None => true,
            }
        },
        _ => true,
    }
}

/// Every clause guarded by an expression has a condition that is not a
/// boolean literal.
pub open spec fn clauses_undecided(clauses: Seq<SpecClause>) -> bool {
    forall|k: int|
        0 <= k < clauses.len() ==> match #[trigger] clauses[k].predicate {
            SpecPredicate::Expression(c) => !is_boolean_literal(c),
            SpecPredicate::True => true,
        }
}

proof fn lemma_else_if_clauses_undecided(v: Seq<SpecElseIf>)
    ensures
        clauses_undecided(else_if_clauses(v)),
    decreases v.len(),
{
    if v.len() > 0 {
        lemma_else_if_clauses_undecided(v.subrange(0, v.len() - 1));
    }
}

proof fn lemma_if_clauses_undecided(x: SpecIf)
    ensures
        clauses_undecided(if_clauses(x)),
{
    match x.else_if {
        Some(v) => {
            lemma_else_if_clauses_undecided(v);
        },
        None => {},
    }
    let clauses = if_clauses(x);
    assert forall|k: int| 0 <= k < clauses.len() implies match #[trigger] clauses[k].predicate {
        SpecPredicate::Expression(c) => !is_boolean_literal(c),
        SpecPredicate::True => true,
    } by {
        match x.else_if {
            Some(v) => {
                let middle = else_if_clauses(v);
                let first_len = clauses.len() - middle.len() - (if x.else_block is Some {
                    1int
                } else {
                    0int
                });
                if first_len <= k < first_len + middle.len() {
                    assert(clauses[k] == middle[k - first_len]);
                }
            },
            None => {},
        }
    }
}

proof fn lemma_build_if_undecided(
    condition: SpecExpression,
    block: SpecBlock,
    clauses: Seq<SpecClause>,
    i: nat,
    acc: Seq<SpecElseIf>,
)
    requires
        clauses_undecided(clauses),
        forall|k: int| 0 <= k < acc.len() ==> !is_boolean_literal(#[trigger] acc[k].condition),
        !is_boolean_literal(condition),
    ensures
        decided_conditions_removed(SpecStmt::If(build_if(condition, block, clauses, i, acc))),
    decreases clauses.len() - i,
{
    if i < clauses.len() {
        match clauses[i as int].predicate {
            SpecPredicate::True => {},
            SpecPredicate::Expression(c) => {
                let next = acc.push(SpecElseIf { condition: c, block: clauses[i as int].block });
                assert forall|k: int| 0 <= k < next.len() implies !is_boolean_literal(
                    #[trigger] next[k].condition,
                ) by {
                    if k < acc.len() {
                        assert(next[k] == acc[k]);
                    }
                }
                lemma_build_if_undecided(condition, block, clauses, i + 1, next);
            },
        }
    }
}

proof fn lemma_simplified_stmt_decided(s: SpecStmt)
    ensures
        forall|k: int|
            0 <= k < simplified_stmt(s).len() ==> decided_conditions_removed(
                #[trigger] simplified_stmt(s)[k],
            ),
{
    match s {
        SpecStmt::If(x) => {
            let clauses = if_clauses(x);
            lemma_if_clauses_undecided(x);
            if clauses.len() > 0 {
                match clauses[0].predicate {
                    SpecPredicate::True => {},
                    SpecPredicate::Expression(e) => {
                        lemma_build_if_undecided(e, clauses[0].block, clauses, 1, Seq::empty());
                    },
                }
            }
        },
        _ => {},
    }
}

proof fn lemma_simplified_stmts_decided(s: Seq<SpecStmt>)
    ensures
        forall|k: int|
            0 <= k < simplified_stmts(s).len() ==> decided_conditions_removed(
                #[trigger] simplified_stmts(s)[k],
            ),
    decreases s.len(),
{
    if s.len() > 0 {
        let before = simplified_stmts(s.subrange(0, s.len() - 1));
        let last = simplified_stmt(s[s.len() - 1]);
        lemma_simplified_stmts_decided(s.subrange(0, s.len() - 1));
        lemma_simplified_stmt_decided(s[s.len() - 1]);
        assert forall|k: int| 0 <= k < simplified_stmts(s).len() implies decided_conditions_removed(
            #[trigger] simplified_stmts(s)[k],
        ) by {
            if k < before.len() {
                assert(simplified_stmts(s)[k] == before[k]);
            } else {
                assert(simplified_stmts(s)[k] == last[k - before.len()]);
            }
        }
    }
}

/// In a simplified block, no `if` statement is left whose condition, or the
/// condition of one of its `elseif` parts, is the literal `true` or `false`.
pub proof fn lemma_simplified_block_decided(b: SpecBlock)
    ensures
        forall|k: int|
            0 <= k < simplified_block(b).stmts.len() ==> decided_conditions_removed(
                #[trigger] simplified_block(b).stmts[k],
            ),
{
    lemma_simplified_stmts_decided(b.stmts);
    assert(simplified_block(b).stmts == simplified_stmts(b.stmts));
}

/// In a simplified chunk, no `if` statement at the top level is left whose
/// condition, or the condition of one of its `elseif` parts, is the literal
/// `true` or `false`.
pub proof fn lemma_simplified_ast_decided(a: SpecAst)
    ensures
        forall|k: int|
            0 <= k < simplified_ast(a).nodes.stmts.len() ==> decided_conditions_removed(
                #[trigger] simplified_ast(a).nodes.stmts[k],
            ),
{
    lemma_simplified_block_decided(a.nodes);
}

// ---------------------------------------------------------------------------
// Simplification never adds statements
// ---------------------------------------------------------------------------

proof fn lemma_simplified_stmt_len(s: SpecStmt)
    ensures
        simplified_stmt(s).len() <= 1,
{
}

/// A simplified list of statements is no longer than the list itself: each
/// statement becomes at most one statement.
pub proof fn lemma_simplified_stmts_len(s: Seq<SpecStmt>)
    ensures
        simplified_stmts(s).len() <= s.len(),
    decreases s.len(),
{
    if s.len() > 0 {
        lemma_simplified_stmts_len(s.subrange(0, s.len() - 1));
        lemma_simplified_stmt_len(s[s.len() - 1]);
    }
}

/// In a simplified list of statements, each statement has its semicolon
/// slot: there are as many semicolon entries as statements.
pub proof fn lemma_simplified_semicolons_len(s: Seq<SpecStmt>, semicolons: Seq<Option<SpecToken>>)
    ensures
        simplified_semicolons(s, semicolons).len() == simplified_stmts(s).len(),
    decreases s.len(),
{
    if s.len() > 0 {
        lemma_simplified_semicolons_len(s.subrange(0, s.len() - 1), semicolons);
    }
}

/// A simplified chunk has at most as many top-level statements as the chunk.
pub proof fn lemma_simplified_ast_len(a: SpecAst)
    ensures
        simplified_ast(a).nodes.stmts.len() <= a.nodes.stmts.len(),
{
    lemma_simplified_stmts_len(a.nodes.stmts);
    assert(simplified_block(a.nodes).stmts == simplified_stmts(a.nodes.stmts));
}

// ---------------------------------------------------------------------------
// Simplification never makes an expression larger
// ---------------------------------------------------------------------------

/// The number of nodes of an expression, counting the parts that
/// simplification walks into (operands, parentheses, calls with their prefix
/// and parenthesized arguments); any other expression counts as one node.
pub open spec fn expression_size(e: SpecExpression) -> nat
    decreases e, 0nat,
{
    match e {
        SpecExpression::BinaryOperator { lhs, binop: _, token: _, rhs } => 1 + expression_size(*lhs)
            + expression_size(*rhs),
        SpecExpression::Parentheses(x) => 1 + expression_size(*x),
        SpecExpression::UnaryOperator { unop: _, token: _, expression } => 1 + expression_size(*expression),
        SpecExpression::FunctionCall(c) => 1 + function_call_size(c),
        _ => 1,
    }
}

/// The total size of a list of expressions.
pub open spec fn expressions_size(s: Seq<SpecExpression>) -> nat
    decreases s, 0nat,
{
    if s.len() == 0 {
        0
    } else {
        expressions_size(s.subrange(0, s.len() - 1)) + expression_size(s[s.len() - 1])
    }
}

/// The size of a call: its prefix and its suffixes.
pub open spec fn function_call_size(c: SpecFunctionCall) -> nat
    decreases c, 0nat,
{
    prefix_size(c.prefix) + suffixes_size(c.suffixes)
}

/// The size of a prefix.
pub open spec fn prefix_size(p: SpecPrefix) -> nat
    decreases p, 0nat,
{
    match p {
        SpecPrefix::Expression(x) => expression_size(*x),
        SpecPrefix::Name(_) => 1,
    }
}

/// The total size of a list of suffixes.
pub open spec fn suffixes_size(s: Seq<SpecSuffix>) -> nat
    decreases s, 0nat,
{
    if s.len() == 0 {
        0
    } else {
        suffixes_size(s.subrange(0, s.len() - 1)) + suffix_size(s[s.len() - 1])
    }
}

/// The size of a suffix: that of a call's arguments; an index counts as one.
pub open spec fn suffix_size(s: SpecSuffix) -> nat
    decreases s, 0nat,
{
    match s {
        SpecSuffix::Call(SpecCall::AnonymousCall(a)) => function_args_size(a),
        SpecSuffix::Call(SpecCall::MethodCall { name: _, args }) => function_args_size(args),
        SpecSuffix::Index(_) => 1,
    }
}

/// The size of arguments: that of parenthesized arguments; a string or a
/// table counts as one.
pub open spec fn function_args_size(a: SpecFunctionArgs) -> nat
    decreases a, 0nat,
{
    match a {
        SpecFunctionArgs::Parentheses(v) => 1 + expressions_size(v),
        _ => 1,
    }
}

/// Simplifying an expression never makes it larger.
pub proof fn lemma_simplified_expression_size(e: SpecExpression)
    ensures
        expression_size(simplified_expression(e)) <= expression_size(e),
    decreases e, 0nat,
{
    match e {
        SpecExpression::BinaryOperator { lhs, binop: _, token: _, rhs } => {
            lemma_simplified_expression_size(*lhs);
            lemma_simplified_expression_size(*rhs);
        },
        SpecExpression::Parentheses(x) => {
            lemma_simplified_expression_size(*x);
        },
        SpecExpression::UnaryOperator { unop: _, token: _, expression } => {
            lemma_simplified_expression_size(*expression);
        },
        SpecExpression::FunctionCall(c) => {
            lemma_simplified_function_call_size(c);
        },
        _ => {},
    }
}

proof fn lemma_simplified_expressions_size(s: Seq<SpecExpression>)
    ensures
        expressions_size(simplified_expressions(s)) <= expressions_size(s),
    decreases s, 0nat,
{
    if s.len() > 0 {
        let n = s.len() - 1;
        let t = simplified_expressions(s);
        lemma_simplified_expressions_size(s.subrange(0, n));
        lemma_simplified_expression_size(s[n]);
        assert(t.subrange(0, n) =~= simplified_expressions(s.subrange(0, n)));
        assert(t[n] == simplified_expression(s[n]));
    }
}

proof fn lemma_simplified_function_call_size(c: SpecFunctionCall)
    ensures
        function_call_size(simplified_function_call(c)) <= function_call_size(c),
    decreases c, 0nat,
{
    match c.prefix {
        SpecPrefix::Expression(x) => {
            lemma_simplified_expression_size(*x);
        },
        SpecPrefix::Name(_) => {},
    }
    lemma_simplified_suffixes_size(c.suffixes);
}

proof fn lemma_simplified_suffixes_size(s: Seq<SpecSuffix>)
    ensures
        suffixes_size(simplified_suffixes(s)) <= suffixes_size(s),
    decreases s, 0nat,
{
    if s.len() > 0 {
        let n = s.len() - 1;
        let t = simplified_suffixes(s);
        lemma_simplified_suffixes_size(s.subrange(0, n));
        lemma_simplified_suffix_size(s[n]);
        assert(t.subrange(0, n) =~= simplified_suffixes(s.subrange(0, n)));
        assert(t[n] == simplified_suffix(s[n]));
    }
}

proof fn lemma_simplified_suffix_size(s: SpecSuffix)
    ensures
        suffix_size(simplified_suffix(s)) <= suffix_size(s),
    decreases s, 0nat,
{
    match s {
        SpecSuffix::Call(SpecCall::AnonymousCall(a)) => {
            lemma_simplified_function_args_size(a);
        },
        SpecSuffix::Call(SpecCall::MethodCall { name: _, args }) => {
            lemma_simplified_function_args_size(args);
        },
        SpecSuffix::Index(_) => {},
    }
}

proof fn lemma_simplified_function_args_size(a: SpecFunctionArgs)
    ensures
        function_args_size(simplified_function_args(a)) <= function_args_size(a),
    decreases a, 0nat,
{
    match a {
        SpecFunctionArgs::Parentheses(v) => {
            lemma_simplified_expressions_size(v);
        },
        _ => {},
    }
}

// ---------------------------------------------------------------------------
// Operators other than `and` and `or`; the value of boolean expressions
// ---------------------------------------------------------------------------

/// An operator other than `and` and `or` is kept, with its token, and its
/// operands are simplified in place.
pub proof fn lemma_other_binary_operators_kept(
    lhs: SpecExpression,
    binop: BinOp,
    token: SpecToken,
    rhs: SpecExpression,
)
    requires
        binop != BinOp::And,
        binop != BinOp::Or,
    ensures
        simplified_expression(
            (SpecExpression::BinaryOperator { lhs: Box::new(lhs), binop, token, rhs: Box::new(rhs) }),
        ) == (SpecExpression::BinaryOperator {
            lhs: Box::new(simplified_expression(lhs)),
            binop,
            token,
            rhs: Box::new(simplified_expression(rhs)),
        }),
{
}

/// A unary operator other than `not` is kept, with its token, and its
/// operand is simplified in place.
pub proof fn lemma_other_unary_operators_kept(unop: UnOp, token: SpecToken, operand: SpecExpression)
    requires
        unop != UnOp::Not,
    ensures
        simplified_expression(
            (SpecExpression::UnaryOperator { unop, token, expression: Box::new(operand) }),
        ) == (SpecExpression::UnaryOperator {
            unop,
            token,
            expression: Box::new(simplified_expression(operand)),
        }),
{
}

/// The value of an expression made only of the literals `true` and `false`,
/// parentheses, `not`, `and`, `or`, `==` and `~=`, as Lua computes it;
/// `None` for any other expression.
pub open spec fn boolean_value(e: SpecExpression) -> Option<bool>
    decreases e,
{
    match e {
        SpecExpression::Symbol(t) => if t.text == "true"@ {
            Some(true)
        } else if t.text == "false"@ {
            Some(false)
        } else {
            None
        },
        SpecExpression::Parentheses(x) => boolean_value(*x),
        SpecExpression::UnaryOperator { unop, token: _, expression } => match boolean_value(
            *expression,
        ) {
            Some(v) => if unop == UnOp::Not {
                Some(!v)
            } else {
                None
            },
            None => None,
        },
        SpecExpression::BinaryOperator { lhs, binop, token: _, rhs } => match (
            boolean_value(*lhs),
            boolean_value(*rhs),
        ) {
            (Some(l), Some(r)) => if binop == BinOp::And {
                Some(l && r)
            } else if binop == BinOp::Or {
                Some(l || r)
            } else if binop == BinOp::TwoEqual {
                Some(l == r)
            } else if binop == BinOp::TildeEqual {
                Some(l != r)
            } else {
                None
            },
            _ => None,
        },
        _ => None,
    }
}

/// Simplification keeps the value of every expression made only of boolean
/// literals, parentheses, `not`, `and`, `or`, `==` and `~=`.
pub proof fn lemma_simplification_keeps_boolean_value(e: SpecExpression)
    requires
        (boolean_value(e) is Some),
    ensures
        boolean_value(simplified_expression(e)) == boolean_value(e),
    decreases e,
{
    reveal_strlit("true");
    reveal_strlit("false");
    assert("true"@ != "false"@) by {
        assert("true"@.len() != "false"@.len());
    }
    match e {
        SpecExpression::Parentheses(x) => {
            lemma_simplification_keeps_boolean_value(*x);
        },
        SpecExpression::UnaryOperator { unop, token: _, expression } => {
            lemma_simplification_keeps_boolean_value(*expression);
        },
        SpecExpression::BinaryOperator { lhs, binop, token: _, rhs } => {
            lemma_simplification_keeps_boolean_value(*lhs);
            lemma_simplification_keeps_boolean_value(*rhs);
        },
        _ => {},
    }
}

// ---------------------------------------------------------------------------
// Which clauses of an `if` statement are kept
// ---------------------------------------------------------------------------

/// The `elseif` part's condition does not simplify to `false`.
pub open spec fn else_if_kept(x: SpecElseIf) -> bool {
    !spec_is_just_false(simplified_expression(x.condition))
}

/// The clause that a kept `elseif` part becomes.
pub open spec fn else_if_clause(x: SpecElseIf) -> SpecClause {
    SpecClause {
        predicate: spec_to_predicate(simplified_expression(x.condition)),
        block: simplified_block(x.block),
    }
}

/// The `elseif` parts give, in order, one clause for each part whose
/// condition does not simplify to `false`, and no other: no part that can be
/// taken is lost, whatever comes after it.
pub proof fn lemma_else_if_clauses_keep_every_undecided_part(v: Seq<SpecElseIf>)
    ensures
        else_if_clauses(v) == v.filter(|x: SpecElseIf| else_if_kept(x)).map_values(
            |x: SpecElseIf| else_if_clause(x),
        ),
    decreases v.len(),
{
    reveal(Seq::filter);
    if v.len() > 0 {
        let n = v.len() - 1;
        lemma_else_if_clauses_keep_every_undecided_part(v.subrange(0, n));
        assert(v.drop_last() =~= v.subrange(0, n));
        let before = v.subrange(0, n).filter(|x: SpecElseIf| else_if_kept(x));
        if else_if_kept(v[n]) {
            assert(before.push(v.last()).map_values(|x: SpecElseIf| else_if_clause(x)) =~= before.map_values(
                |x: SpecElseIf| else_if_clause(x),
            ).push(else_if_clause(v[n])));
        }
    }
}

/// The clauses of a simplified `if` statement, in order: the first clause
/// unless its condition simplifies to `false`, one clause for each kept
/// `elseif` part, then the `else` block as a clause that is always taken.
pub proof fn lemma_if_clauses_in_order(x: SpecIf)
    ensures
        if_clauses(x) == (if spec_is_just_false(simplified_expression(x.condition)) {
            Seq::<SpecClause>::empty()
        } else {
            seq![
                SpecClause {
                    predicate: spec_to_predicate(simplified_expression(x.condition)),
                    block: simplified_block(x.block),
                },
            ]
        }) + (match x.else_if {
            Some(v) => v.filter(|e: SpecElseIf| else_if_kept(e)).map_values(
                |e: SpecElseIf| else_if_clause(e),
            ),
            None => Seq::empty(),
        }) + (match x.else_block {
            Some(b) => seq![SpecClause { predicate: SpecPredicate::True, block: simplified_block(b) }],
            None => Seq::empty(),
        }),
{
    match x.else_if {
        Some(v) => {
            lemma_else_if_clauses_keep_every_undecided_part(v);
        },
        None => {},
    }
}

/// The `elseif` part that a clause guarded by an expression becomes.
pub open spec fn clause_else_if(c: SpecClause) -> SpecElseIf {
    SpecElseIf { condition: c.predicate->Expression_0, block: c.block }
}

proof fn lemma_build_if_up_to(
    condition: SpecExpression,
    block: SpecBlock,
    clauses: Seq<SpecClause>,
    i: nat,
    acc: Seq<SpecElseIf>,
    k: int,
)
    requires
        1 <= i <= k <= clauses.len(),
        forall|j: int| i <= j < k ==> (#[trigger] clauses[j]).predicate is Expression,
        k < clauses.len() ==> clauses[k].predicate is True,
    ensures
        build_if(condition, block, clauses, i, acc) == (SpecIf {
            condition,
            block,
            else_if: else_ifs_part(
                acc + clauses.subrange(i as int, k).map_values(|c: SpecClause| clause_else_if(c)),
            ),
            else_block: if k < clauses.len() {
                Some(clauses[k].block)
            } else {
                None
            },
        }),
    decreases clauses.len() - i,
{
    let rest = clauses.subrange(i as int, k).map_values(|c: SpecClause| clause_else_if(c));
    if i == k {
        assert(rest =~= Seq::<SpecElseIf>::empty());
        assert(acc + rest =~= acc);
    } else {
        let next = acc.push(clause_else_if(clauses[i as int]));
        lemma_build_if_up_to(condition, block, clauses, i + 1, next, k);
        assert(next + clauses.subrange(i + 1 as int, k).map_values(|c: SpecClause| clause_else_if(c))
            =~= acc + rest);
    }
}

/// An `if` statement built from clauses: its `elseif` parts are, in order,
/// every clause after the first up to the first clause that is always taken
/// (none when there is no such clause before it), and its `else` block is
/// the block of that clause, if there is one; clauses after it are dropped.
pub proof fn lemma_build_if_keeps_clauses_before_first_taken(
    condition: SpecExpression,
    block: SpecBlock,
    clauses: Seq<SpecClause>,
    k: int,
)
    requires
        1 <= k <= clauses.len(),
        forall|j: int| 1 <= j < k ==> (#[trigger] clauses[j]).predicate is Expression,
        k < clauses.len() ==> clauses[k].predicate is True,
    ensures
        ({
            let built = build_if(condition, block, clauses, 1, Seq::empty());
            &&& built.condition == condition
            &&& built.block == block
            &&& built.else_if == (if k > 1 {
                Some(clauses.subrange(1, k).map_values(|c: SpecClause| clause_else_if(c)))
            } else {
                None
            })
            &&& built.else_block == (if k < clauses.len() {
                Some(clauses[k].block)
            } else {
                None
            })
        }),
{
    lemma_build_if_up_to(condition, block, clauses, 1, Seq::empty(), k);
    let rest = clauses.subrange(1, k).map_values(|c: SpecClause| clause_else_if(c));
    assert(Seq::<SpecElseIf>::empty() + rest =~= rest);
}

/// The `elseif` part that a kept `elseif` part becomes.
pub open spec fn simplified_else_if(x: SpecElseIf) -> SpecElseIf {
    SpecElseIf { condition: simplified_expression(x.condition), block: simplified_block(x.block) }
}

/// The `elseif` part's condition does not simplify to `true`.
pub open spec fn else_if_undecided_true(x: SpecElseIf) -> bool {
    !spec_is_just_true(simplified_expression(x.condition))
}

/// The kept `elseif` parts of `v`, in order.
pub open spec fn kept_else_ifs(v: Seq<SpecElseIf>) -> Seq<SpecElseIf> {
    v.filter(|x: SpecElseIf| else_if_kept(x))
}

proof fn lemma_filter_keeps_undecided(v: Seq<SpecElseIf>)
    requires
        forall|j: int| 0 <= j < v.len() ==> else_if_undecided_true(#[trigger] v[j]),
    ensures
        forall|j: int|
            0 <= j < kept_else_ifs(v).len() ==> else_if_undecided_true(#[trigger] kept_else_ifs(v)[j]),
    decreases v.len(),
{
    reveal(Seq::filter);
    if v.len() > 0 {
        let n = v.len() - 1;
        assert(v.drop_last() =~= v.subrange(0, n));
        lemma_filter_keeps_undecided(v.subrange(0, n));
        assert forall|j: int|
            0 <= j < kept_else_ifs(v).len() implies else_if_undecided_true(
                #[trigger] kept_else_ifs(v)[j],
            ) by {
            if j < kept_else_ifs(v.subrange(0, n)).len() {
                assert(kept_else_ifs(v)[j] == kept_else_ifs(v.subrange(0, n))[j]);
            } else {
                assert(kept_else_ifs(v)[j] == v[n]);
            }
        }
    }
}

/// Simplifying an `if` statement whose condition simplifies to neither
/// literal gives one `if` statement with that condition and the simplified
/// block. Its `elseif` parts are, in order, every `elseif` part before the
/// first one whose condition simplifies to `true` (at position `k`, or
/// `k == v.len()` when there is none), except those whose condition
/// simplifies to `false`, each simplified. Its `else` block is the block of
/// the part at `k` if there is one, and otherwise the simplified `else`
/// block.
pub proof fn lemma_simplified_if_keeps_undecided_else_ifs(x: SpecIf, v: Seq<SpecElseIf>, k: int)
    requires
        x.else_if == Some(v),
        !is_boolean_literal(simplified_expression(x.condition)),
        0 <= k <= v.len(),
        forall|j: int| 0 <= j < k ==> else_if_undecided_true(#[trigger] v[j]),
        k < v.len() ==> spec_is_just_true(simplified_expression(v[k].condition)),
    ensures
        ({
            let kept = v.subrange(0, k).filter(|e: SpecElseIf| else_if_kept(e)).map_values(
                |e: SpecElseIf| simplified_else_if(e),
            );
            simplified_stmt(SpecStmt::If(x)) == seq![
                SpecStmt::If(
                    SpecIf {
                        condition: simplified_expression(x.condition),
                        block: simplified_block(x.block),
                        else_if: if kept.len() > 0 {
                            Some(kept)
                        } else {
                            None
                        },
                        else_block: if k < v.len() {
                            Some(simplified_block(v[k].block))
                        } else {
                            match x.else_block {
                                Some(b) => Some(simplified_block(b)),
                                None => None,
                            }
                        },
                    },
                ),
            ]
        }),
{
    reveal_strlit("true");
    reveal_strlit("false");
    assert("true"@ != "false"@) by {
        assert("true"@.len() != "false"@.len());
    }
    let pre = v.subrange(0, k);
    let post = v.subrange(k, v.len() as int);
    assert(v =~= pre + post);
    let fp = pre.filter(|e: SpecElseIf| else_if_kept(e));
    let fq = post.filter(|e: SpecElseIf| else_if_kept(e));
    Seq::filter_distributes_over_add(pre, post, |e: SpecElseIf| else_if_kept(e));
    assert forall|j: int| 0 <= j < pre.len() implies else_if_undecided_true(#[trigger] pre[j]) by {
        assert(pre[j] == v[j]);
    }
    lemma_filter_keeps_undecided(pre);
    assert(fp == kept_else_ifs(pre));
    lemma_if_clauses_in_order(x);
    let e0 = simplified_expression(x.condition);
    let c0 = SpecClause { predicate: spec_to_predicate(e0), block: simplified_block(x.block) };
    let fpc = fp.map_values(|e: SpecElseIf| else_if_clause(e));
    let fqc = fq.map_values(|e: SpecElseIf| else_if_clause(e));
    let last = match x.else_block {
        Some(b) => seq![SpecClause { predicate: SpecPredicate::True, block: simplified_block(b) }],
        None => Seq::<SpecClause>::empty(),
    };
    assert((fp + fq).map_values(|e: SpecElseIf| else_if_clause(e)) =~= fpc + fqc);
    let clauses = if_clauses(x);
    assert(clauses =~= seq![c0] + fpc + fqc + last);
    let m = fp.len() as int;
    let big_k = 1 + m;
    assert forall|j: int| 1 <= j < big_k implies (#[trigger] clauses[j]).predicate is Expression by {
        assert(clauses[j] == fpc[j - 1]);
        assert(else_if_undecided_true(fp[j - 1]));
    }
    if k < v.len() {
        reveal(Seq::filter);
        assert(post =~= seq![v[k]] + post.subrange(1, post.len() as int));
        Seq::filter_distributes_over_add(
            seq![v[k]],
            post.subrange(1, post.len() as int),
            |e: SpecElseIf| else_if_kept(e),
        );
        assert(seq![v[k]].drop_last() =~= Seq::<SpecElseIf>::empty());
        assert(else_if_kept(v[k]));
        assert(seq![v[k]].filter(|e: SpecElseIf| else_if_kept(e)) =~= seq![v[k]]);
        assert(fq[0] == v[k]);
        assert(clauses[big_k] == fqc[0]);
        assert(clauses[big_k].predicate is True);
        assert(big_k < clauses.len());
    } else {
        assert(post =~= Seq::<SpecElseIf>::empty());
        reveal(Seq::filter);
        assert(fq =~= Seq::<SpecElseIf>::empty());
        assert(clauses =~= seq![c0] + fpc + last);
        if big_k < clauses.len() {
            assert(clauses[big_k] == last[0]);
        }
    }
    lemma_build_if_keeps_clauses_before_first_taken(e0, c0.block, clauses, big_k);
    let kept = fp.map_values(|e: SpecElseIf| simplified_else_if(e));
    assert forall|j: int| 0 <= j < m implies fpc[j] == else_if_clause(fp[j]) by {}
    assert(clauses.subrange(1, big_k).map_values(|c: SpecClause| clause_else_if(c)) =~= kept);
    assert(clauses[0] == c0);
    assert(clauses[0].predicate is Expression);
}

// ---------------------------------------------------------------------------
// Where the walk goes
// ---------------------------------------------------------------------------

/// Simplification keeps, as they are, expressions it does not walk into:
/// numbers, strings, literals, variables, anonymous functions, tables and
/// expressions of other kinds.
pub proof fn lemma_unwalked_expressions_kept(e: SpecExpression)
    requires
        !(e is BinaryOperator),
        !(e is UnaryOperator),
        !(e is Parentheses),
        !(e is FunctionCall),
    ensures
        simplified_expression(e) == e,
{
}

/// Simplifying a call simplifies its prefix and, in every call suffix, each
/// parenthesized argument in order; names, method names, string and table
/// arguments and index suffixes are kept.
pub proof fn lemma_call_arguments_simplified(c: SpecFunctionCall)
    ensures
        ({
            let r = simplified_function_call(c);
            &&& (c.prefix is Name ==> r.prefix == c.prefix)
            &&& (c.prefix matches SpecPrefix::Expression(x) ==> r.prefix == SpecPrefix::Expression(
                Box::new(simplified_expression(*x)),
            ))
            &&& r.suffixes.len() == c.suffixes.len()
            &&& forall|j: int|
                0 <= j < c.suffixes.len() ==> match (#[trigger] c.suffixes[j], r.suffixes[j]) {
                    (SpecSuffix::Index(_), t) => t == c.suffixes[j],
                    (
                        SpecSuffix::Call(SpecCall::AnonymousCall(a)),
                        SpecSuffix::Call(SpecCall::AnonymousCall(b)),
                    ) => arguments_simplified(a, b),
                    (
                        SpecSuffix::Call(SpecCall::MethodCall { name: n1, args: a }),
                        SpecSuffix::Call(SpecCall::MethodCall { name: n2, args: b }),
                    ) => n1 == n2 && arguments_simplified(a, b),
                    _ => false,
                }
        }),
{
    let r = simplified_function_call(c);
    assert forall|j: int| 0 <= j < c.suffixes.len() implies match (
        #[trigger] c.suffixes[j],
        r.suffixes[j],
    ) {
        (SpecSuffix::Index(_), t) => t == c.suffixes[j],
        (SpecSuffix::Call(SpecCall::AnonymousCall(a)), SpecSuffix::Call(SpecCall::AnonymousCall(b))) =>
            arguments_simplified(a, b),
        (
            SpecSuffix::Call(SpecCall::MethodCall { name: n1, args: a }),
            SpecSuffix::Call(SpecCall::MethodCall { name: n2, args: b }),
        ) => n1 == n2 && arguments_simplified(a, b),
        _ => false,
    } by {
        assert(r.suffixes[j] == simplified_suffix(c.suffixes[j]));
    }
}

/// `b` is `a` with each parenthesized argument simplified in order, or `a`
/// itself for a string or table argument.
pub open spec fn arguments_simplified(a: SpecFunctionArgs, b: SpecFunctionArgs) -> bool {
    match (a, b) {
        (SpecFunctionArgs::Parentheses(v), SpecFunctionArgs::Parentheses(w)) => w.len() == v.len()
            && forall|j: int| 0 <= j < v.len() ==> w[j] == simplified_expression(v[j]),
        (SpecFunctionArgs::Parentheses(_), _) => false,
        _ => b == a,
    }
}

/// Simplifying a statement other than an `if` gives exactly one statement
/// of the same kind: a local assignment with the same names and each
/// expression simplified, a `while` loop with its condition and block
/// simplified, a declared or local function with the same name and
/// parameters and its block simplified, and any other statement unchanged.
pub proof fn lemma_simplified_statement_kinds(s: SpecStmt)
    requires
        !(s is If),
    ensures
        simplified_stmt(s).len() == 1,
        match (s, simplified_stmt(s)[0]) {
            (SpecStmt::LocalAssignment(x), SpecStmt::LocalAssignment(y)) => y.names == x.names
                && y.expressions.len() == x.expressions.len() && forall|j: int|
                0 <= j < x.expressions.len() ==> y.expressions[j] == simplified_expression(
                    x.expressions[j],
                ),
            (SpecStmt::While(x), SpecStmt::While(y)) => y.condition == simplified_expression(
                x.condition,
            ) && y.block == simplified_block(x.block),
            (SpecStmt::FunctionDeclaration(x), SpecStmt::FunctionDeclaration(y)) => y.name == x.name
                && y.body.parameters == x.body.parameters && y.body.block == simplified_block(
                x.body.block,
            ),
            (SpecStmt::LocalFunction(x), SpecStmt::LocalFunction(y)) => y.name == x.name
                && y.body.parameters == x.body.parameters && y.body.block == simplified_block(
                x.body.block,
            ),
            (SpecStmt::LocalAssignment(_), _) => false,
            (SpecStmt::While(_), _) => false,
            (SpecStmt::FunctionDeclaration(_), _) => false,
            (SpecStmt::LocalFunction(_), _) => false,
            (_, r) => r == s,
        },
{
}

/// Simplifying a block keeps its last statement and the semicolon after it.
pub proof fn lemma_simplified_block_keeps_last_statement(b: SpecBlock)
    ensures
        simplified_block(b).last_stmt == b.last_stmt,
        simplified_block(b).last_semicolon == b.last_semicolon,
{
}

/// `or`: a literal `true` operand, as written, gives that operand; a literal
/// `false` operand gives the other operand simplified; the left operand is
/// looked at first. Otherwise both operands are simplified in place.
pub proof fn lemma_or_rules(lhs: SpecExpression, token: SpecToken, rhs: SpecExpression)
    ensures
        simplified_expression(
            (SpecExpression::BinaryOperator { lhs: Box::new(lhs), binop: BinOp::Or, token, rhs: Box::new(rhs) }),
        ) == (if spec_is_just_true(lhs) {
            lhs
        } else if spec_is_just_false(lhs) {
            simplified_expression(rhs)
        } else if spec_is_just_true(rhs) {
            rhs
        } else if spec_is_just_false(rhs) {
            simplified_expression(lhs)
        } else {
            SpecExpression::BinaryOperator {
                lhs: Box::new(simplified_expression(lhs)),
                binop: BinOp::Or,
                token,
                rhs: Box::new(simplified_expression(rhs)),
            }
        }),
{
}

/// `and`: a literal `false` operand, as written, gives that operand; a
/// literal `true` operand gives the other operand simplified; the left
/// operand is looked at first. Otherwise both operands are simplified in
/// place.
pub proof fn lemma_and_rules(lhs: SpecExpression, token: SpecToken, rhs: SpecExpression)
    ensures
        simplified_expression(
            (SpecExpression::BinaryOperator { lhs: Box::new(lhs), binop: BinOp::And, token, rhs: Box::new(rhs) }),
        ) == (if spec_is_just_false(lhs) {
            lhs
        } else if spec_is_just_true(lhs) {
            simplified_expression(rhs)
        } else if spec_is_just_false(rhs) {
            rhs
        } else if spec_is_just_true(rhs) {
            simplified_expression(lhs)
        } else {
            SpecExpression::BinaryOperator {
                lhs: Box::new(simplified_expression(lhs)),
                binop: BinOp::And,
                token,
                rhs: Box::new(simplified_expression(rhs)),
            }
        }),
{
}

/// `not`: when the operand simplifies to a literal, the result is the other
/// literal, with the whitespace and comments of the operand's token;
/// otherwise the operator is kept and its operand simplified.
pub proof fn lemma_not_rule(token: SpecToken, operand: SpecExpression)
    ensures
        ({
            let inner = simplified_expression(operand);
            let r = simplified_expression(
                (SpecExpression::UnaryOperator { unop: UnOp::Not, token, expression: Box::new(operand) }),
            );
            &&& (spec_is_just_true(inner) ==> r is Symbol && r->Symbol_0.text == "false"@
                && r->Symbol_0.leading == inner->Symbol_0.leading && r->Symbol_0.trailing
                == inner->Symbol_0.trailing)
            &&& (spec_is_just_false(inner) ==> r is Symbol && r->Symbol_0.text == "true"@
                && r->Symbol_0.leading == inner->Symbol_0.leading && r->Symbol_0.trailing
                == inner->Symbol_0.trailing)
            &&& (!is_boolean_literal(inner) ==> r == SpecExpression::UnaryOperator {
                unop: UnOp::Not,
                token,
                expression: Box::new(inner),
            })
        }),
{
}

} // verus!
