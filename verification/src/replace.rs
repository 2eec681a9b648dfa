//! Replacement of expressions throughout a chunk.
//!
//! A [`Replacer`] holds a list of pairs `(source, target)`. Walking down the
//! tree, each expression that it reaches is compared with the sources in
//! order; at the first source that it is equivalent to, the whole expression
//! is replaced by a copy of that source's target, and the walk does not go
//! into it. An expression that matches no source is rebuilt from its replaced
//! children.
//!
//! The walk reaches: the expressions of local assignments and of assignments
//! (not the assigned variables), conditions and blocks of `if`, `elseif`,
//! `while` and `repeat`, the start, end and block of numeric `for` loops (not
//! the step), the expressions and block of generic `for` loops, the bodies of
//! declared, local and anonymous functions, `do` blocks, calls (their prefix
//! and the arguments of each call suffix, but not index suffixes), table
//! fields, and the operands of operators. Last statements (`return`, `break`)
//! are left as they are.
//!
//! [`Replacer::try_replace_in_ast`] gives `None` when one of the comparisons
//! on the way is not defined (see [`crate::equivalent`]);
//! [`Replacer::replace_in_ast`] requires that none of them is.
use vstd::prelude::*;

use crate::ast::{
    model_else_ifs, model_expressions, model_fields, model_stmts, model_suffixes, Assignment,
    Ast, Block, Call, ElseIf, Expression, Field, FunctionArgs, FunctionBody, FunctionCall,
    FunctionDeclaration, GenericFor, If, LocalAssignment, LocalFunction, NumericFor, Prefix,
    Repeat, Stmt, Suffix, Token, Var, VarExpression, While,
};
use crate::equivalent::{compare_expression, equiv_expression};
use crate::model::{
    SpecAssignment, SpecAst, SpecBlock, SpecCall, SpecElseIf, SpecExpression, SpecField,
    SpecFunctionArgs, SpecFunctionBody, SpecFunctionCall, SpecFunctionDeclaration, SpecGenericFor,
    SpecIf, SpecLocalAssignment, SpecLocalFunction, SpecNumericFor, SpecPrefix, SpecRepeat,
    SpecStmt, SpecSuffix, SpecVar, SpecVarExpression, SpecWhile,
};

verus! {

/// Replaces expressions by others throughout a chunk.
pub struct Replacer {
    /// The `(source, target)` pairs, in the order in which they are tried.
    pub expressions: Vec<(Expression, Expression)>,
}

/// The model of a list of `(source, target)` pairs.
pub open spec fn model_pairs(v: Seq<(Expression, Expression)>) -> Seq<(SpecExpression, SpecExpression)> {
    Seq::new(v.len(), |i: int| (v[i].0@, v[i].1@))
}

impl View for Replacer {
    type V = Seq<(SpecExpression, SpecExpression)>;

    open spec fn view(&self) -> Seq<(SpecExpression, SpecExpression)> {
        model_pairs(self.expressions@)
    }
}

// ---------------------------------------------------------------------------
// Specification
// ---------------------------------------------------------------------------

/// Searching the pairs from position `j` on, the position of the first source
/// that `e` is equivalent to: `Some(Some(k))` for position `k`, `Some(None)`
/// when no source matches, `None` when a comparison on the way is not
/// defined (see [`crate::equivalent`]).
pub open spec fn first_match(
    pairs: Seq<(SpecExpression, SpecExpression)>,
    e: SpecExpression,
    j: nat,
) -> Option<Option<nat>>
    decreases pairs.len() - j,
{
    if j >= pairs.len() {
        Some(None)
    } else {
        match equiv_expression(pairs[j as int].0, e) {
            None => None,
            Some(true) => Some(Some(j)),
            Some(false) => first_match(pairs, e, j + 1),
        }
    }
}

/// The result of replacing within an expression.
pub open spec fn replace_expression(
    pairs: Seq<(SpecExpression, SpecExpression)>,
    e: SpecExpression,
) -> SpecExpression
    decreases e,
{
    match first_match(pairs, e, 0) {
        Some(Some(k)) => pairs[k as int].1,
        _ => match e {
            SpecExpression::FunctionCall(c) => SpecExpression::FunctionCall(
                replace_function_call(pairs, c),
            ),
            SpecExpression::Parentheses(x) => SpecExpression::Parentheses(
                Box::new(replace_expression(pairs, *x)),
            ),
            SpecExpression::UnaryOperator { unop, token, expression } => SpecExpression::UnaryOperator {
                unop,
                token,
                expression: Box::new(replace_expression(pairs, *expression)),
            },
            SpecExpression::BinaryOperator { lhs, binop, token, rhs } => SpecExpression::BinaryOperator {
                lhs: Box::new(replace_expression(pairs, *lhs)),
                binop,
                token,
                rhs: Box::new(replace_expression(pairs, *rhs)),
            },
            SpecExpression::Function(body) => SpecExpression::Function(
                Box::new(replace_function_body(pairs, *body)),
            ),
            SpecExpression::TableConstructor(f) => SpecExpression::TableConstructor(
                replace_fields(pairs, f),
            ),
            SpecExpression::Var(v) => SpecExpression::Var(replace_var(pairs, v)),
            _ => e,
        },
    }
}

/// Replacement within each expression of a list.
pub open spec fn replace_expressions(
    pairs: Seq<(SpecExpression, SpecExpression)>,
    s: Seq<SpecExpression>,
) -> Seq<SpecExpression>
    decreases s,
{
    Seq::new(
        s.len(),
        |i: int|
            if 0 <= i < s.len() {
                replace_expression(pairs, s[i])
            } else {
                s[i]
            },
    )
}

/// Replacement within a call: its prefix and its suffixes.
pub open spec fn replace_function_call(
    pairs: Seq<(SpecExpression, SpecExpression)>,
    c: SpecFunctionCall,
) -> SpecFunctionCall
    decreases c,
{
    SpecFunctionCall {
        prefix: replace_prefix(pairs, c.prefix),
        suffixes: replace_suffixes(pairs, c.suffixes),
    }
}

/// Replacement within a prefix.
pub open spec fn replace_prefix(pairs: Seq<(SpecExpression, SpecExpression)>, p: SpecPrefix) -> SpecPrefix
    decreases p,
{
    match p {
        SpecPrefix::Expression(x) => SpecPrefix::Expression(Box::new(replace_expression(pairs, *x))),
        SpecPrefix::Name(_) => p,
    }
}

/// Replacement within a suffix: the arguments of a call; an index is kept.
pub open spec fn replace_suffix(pairs: Seq<(SpecExpression, SpecExpression)>, s: SpecSuffix) -> SpecSuffix
    decreases s,
{
    match s {
        SpecSuffix::Call(c) => SpecSuffix::Call(replace_call(pairs, c)),
        SpecSuffix::Index(_) => s,
    }
}

/// Replacement within each suffix of a list.
pub open spec fn replace_suffixes(
    pairs: Seq<(SpecExpression, SpecExpression)>,
    s: Seq<SpecSuffix>,
) -> Seq<SpecSuffix>
    decreases s,
{
    Seq::new(
        s.len(),
        |i: int|
            if 0 <= i < s.len() {
                replace_suffix(pairs, s[i])
            } else {
                s[i]
            },
    )
}

/// Replacement within a call suffix: its arguments.
pub open spec fn replace_call(pairs: Seq<(SpecExpression, SpecExpression)>, c: SpecCall) -> SpecCall
    decreases c,
{
    match c {
        SpecCall::AnonymousCall(a) => SpecCall::AnonymousCall(replace_function_args(pairs, a)),
        SpecCall::MethodCall { name, args } => SpecCall::MethodCall {
            name,
            args: replace_function_args(pairs, args),
        },
    }
}

/// Replacement within arguments.
pub open spec fn replace_function_args(
    pairs: Seq<(SpecExpression, SpecExpression)>,
    a: SpecFunctionArgs,
) -> SpecFunctionArgs
    decreases a,
{
    match a {
        SpecFunctionArgs::Parentheses(v) => SpecFunctionArgs::Parentheses(
            replace_expressions(pairs, v),
        ),
        SpecFunctionArgs::String(_) => a,
        SpecFunctionArgs::TableConstructor(f) => SpecFunctionArgs::TableConstructor(
            replace_fields(pairs, f),
        ),
    }
}

/// Replacement within a table field: its key expression and its value.
pub open spec fn replace_field(pairs: Seq<(SpecExpression, SpecExpression)>, f: SpecField) -> SpecField
    decreases f,
{
    match f {
        SpecField::ExpressionKey { key, value } => SpecField::ExpressionKey {
            key: replace_expression(pairs, key),
            value: replace_expression(pairs, value),
        },
        SpecField::NameKey { key, value } => SpecField::NameKey {
            key,
            value: replace_expression(pairs, value),
        },
        SpecField::NoKey(e) => SpecField::NoKey(replace_expression(pairs, e)),
    }
}

/// Replacement within each field of a list.
pub open spec fn replace_fields(
    pairs: Seq<(SpecExpression, SpecExpression)>,
    s: Seq<SpecField>,
) -> Seq<SpecField>
    decreases s,
{
    Seq::new(
        s.len(),
        |i: int|
            if 0 <= i < s.len() {
                replace_field(pairs, s[i])
            } else {
                s[i]
            },
    )
}

/// Replacement within an indexed path: its prefix and its suffixes.
pub open spec fn replace_var_expression(
    pairs: Seq<(SpecExpression, SpecExpression)>,
    v: SpecVarExpression,
) -> SpecVarExpression
    decreases v,
{
    SpecVarExpression {
        prefix: replace_prefix(pairs, v.prefix),
        suffixes: replace_suffixes(pairs, v.suffixes),
    }
}

/// Replacement within a variable.
pub open spec fn replace_var(pairs: Seq<(SpecExpression, SpecExpression)>, v: SpecVar) -> SpecVar
    decreases v,
{
    match v {
        SpecVar::Expression(x) => SpecVar::Expression(Box::new(replace_var_expression(pairs, *x))),
        SpecVar::Name(_) => v,
    }
}

/// Replacement within the block of a function body.
pub open spec fn replace_function_body(
    pairs: Seq<(SpecExpression, SpecExpression)>,
    b: SpecFunctionBody,
) -> SpecFunctionBody
    decreases b,
{
    SpecFunctionBody { parameters: b.parameters, block: replace_block(pairs, b.block) }
}

/// Replacement within the statements of a block; the last statement is kept.
pub open spec fn replace_block(pairs: Seq<(SpecExpression, SpecExpression)>, b: SpecBlock) -> SpecBlock
    decreases b,
{
    SpecBlock {
        stmts: replace_stmts(pairs, b.stmts),
        semicolons: b.semicolons,
        last_stmt: b.last_stmt,
        last_semicolon: b.last_semicolon,
    }
}

/// Replacement within each statement of a list.
pub open spec fn replace_stmts(
    pairs: Seq<(SpecExpression, SpecExpression)>,
    s: Seq<SpecStmt>,
) -> Seq<SpecStmt>
    decreases s,
{
    Seq::new(
        s.len(),
        |i: int|
            if 0 <= i < s.len() {
                replace_stmt(pairs, s[i])
            } else {
                s[i]
            },
    )
}

/// Replacement within a statement.
pub open spec fn replace_stmt(pairs: Seq<(SpecExpression, SpecExpression)>, s: SpecStmt) -> SpecStmt
    decreases s,
{
    match s {
        SpecStmt::LocalAssignment(x) => SpecStmt::LocalAssignment(
            SpecLocalAssignment {
                names: x.names,
                expressions: replace_expressions(pairs, x.expressions),
            },
        ),
        SpecStmt::Assignment(x) => SpecStmt::Assignment(
            SpecAssignment {
                variables: x.variables,
                expressions: replace_expressions(pairs, x.expressions),
            },
        ),
        SpecStmt::If(x) => SpecStmt::If(replace_if(pairs, x)),
        SpecStmt::While(x) => SpecStmt::While(
            SpecWhile {
                condition: replace_expression(pairs, x.condition),
                block: replace_block(pairs, x.block),
            },
        ),
        SpecStmt::FunctionCall(c) => SpecStmt::FunctionCall(replace_function_call(pairs, c)),
        SpecStmt::FunctionDeclaration(x) => SpecStmt::FunctionDeclaration(
            SpecFunctionDeclaration { name: x.name, body: replace_function_body(pairs, x.body) },
        ),
        SpecStmt::LocalFunction(x) => SpecStmt::LocalFunction(
            SpecLocalFunction { name: x.name, body: replace_function_body(pairs, x.body) },
        ),
        SpecStmt::NumericFor(x) => SpecStmt::NumericFor(
            SpecNumericFor {
                index_variable: x.index_variable,
                start: replace_expression(pairs, x.start),
                end: replace_expression(pairs, x.end),
                step: x.step,
                block: replace_block(pairs, x.block),
            },
        ),
        SpecStmt::GenericFor(x) => SpecStmt::GenericFor(
            SpecGenericFor {
                names: x.names,
                expressions: replace_expressions(pairs, x.expressions),
                block: replace_block(pairs, x.block),
            },
        ),
        SpecStmt::Repeat(x) => SpecStmt::Repeat(
            SpecRepeat { block: replace_block(pairs, x.block), until: replace_expression(pairs, x.until) },
        ),
        SpecStmt::Do(b) => SpecStmt::Do(replace_block(pairs, b)),
        SpecStmt::Other(_) => s,
    }
}

/// Replacement within an `if` statement: condition, block, each `elseif`
/// part, `else` block.
pub open spec fn replace_if(pairs: Seq<(SpecExpression, SpecExpression)>, x: SpecIf) -> SpecIf
    decreases x,
{
    SpecIf {
        condition: replace_expression(pairs, x.condition),
        block: replace_block(pairs, x.block),
        else_if: match x.else_if {
            Some(v) => Some(replace_else_ifs(pairs, v)),
            None => None,
        },
        else_block: match x.else_block {
            Some(b) => Some(replace_block(pairs, b)),
            None => None,
        },
    }
}

/// Replacement within each `elseif` part of a list.
pub open spec fn replace_else_ifs(
    pairs: Seq<(SpecExpression, SpecExpression)>,
    s: Seq<SpecElseIf>,
) -> Seq<SpecElseIf>
    decreases s,
{
    Seq::new(
        s.len(),
        |i: int|
            if 0 <= i < s.len() {
                SpecElseIf {
                    condition: replace_expression(pairs, s[i].condition),
                    block: replace_block(pairs, s[i].block),
                }
            } else {
                s[i]
            },
    )
}

// Each comparison that a replacement makes must be defined (see
// [`crate::equivalent`]); the functions below say when they all are.

/// Every comparison that replacing within `e` makes is defined.
pub open spec fn replace_defined_expression(
    pairs: Seq<(SpecExpression, SpecExpression)>,
    e: SpecExpression,
) -> bool
    decreases e,
{
    match first_match(pairs, e, 0) {
        None => false,
        Some(Some(_)) => true,
        Some(None) => match e {
            SpecExpression::FunctionCall(c) => replace_defined_function_call(pairs, c),
            SpecExpression::Parentheses(x) => replace_defined_expression(pairs, *x),
            SpecExpression::UnaryOperator { expression, .. } => replace_defined_expression(
                pairs,
                *expression,
            ),
            SpecExpression::BinaryOperator { lhs, rhs, .. } => replace_defined_expression(
                pairs,
                *lhs,
            ) && replace_defined_expression(pairs, *rhs),
            SpecExpression::Function(body) => replace_defined_block(pairs, body.block),
            SpecExpression::TableConstructor(f) => replace_defined_fields(pairs, f),
            SpecExpression::Var(v) => replace_defined_var(pairs, v),
            _ => true,
        },
    }
}

/// Every comparison that replacing within the expressions of `s` makes is defined.
pub open spec fn replace_defined_expressions(
    pairs: Seq<(SpecExpression, SpecExpression)>,
    s: Seq<SpecExpression>,
) -> bool
    decreases s,
{
    forall|i: int| 0 <= i < s.len() ==> replace_defined_expression(pairs, #[trigger] s[i])
}

/// Every comparison that replacing within a call makes is defined.
pub open spec fn replace_defined_function_call(
    pairs: Seq<(SpecExpression, SpecExpression)>,
    c: SpecFunctionCall,
) -> bool
    decreases c,
{
    replace_defined_prefix(pairs, c.prefix) && replace_defined_suffixes(pairs, c.suffixes)
}

/// Every comparison that replacing within a prefix makes is defined.
pub open spec fn replace_defined_prefix(pairs: Seq<(SpecExpression, SpecExpression)>, p: SpecPrefix) -> bool
    decreases p,
{
    match p {
        SpecPrefix::Expression(x) => replace_defined_expression(pairs, *x),
        SpecPrefix::Name(_) => true,
    }
}

/// Every comparison that replacing within the suffixes of `s` makes is defined.
pub open spec fn replace_defined_suffixes(
    pairs: Seq<(SpecExpression, SpecExpression)>,
    s: Seq<SpecSuffix>,
) -> bool
    decreases s,
{
    forall|i: int|
        0 <= i < s.len() ==> match #[trigger] s[i] {
            SpecSuffix::Call(c) => replace_defined_call(pairs, c),
            SpecSuffix::Index(_) => true,
        }
}

/// Every comparison that replacing within a call suffix makes is defined.
pub open spec fn replace_defined_call(pairs: Seq<(SpecExpression, SpecExpression)>, c: SpecCall) -> bool
    decreases c,
{
    match c {
        SpecCall::AnonymousCall(a) => replace_defined_function_args(pairs, a),
        SpecCall::MethodCall { args, .. } => replace_defined_function_args(pairs, args),
    }
}

/// Every comparison that replacing within arguments makes is defined.
pub open spec fn replace_defined_function_args(
    pairs: Seq<(SpecExpression, SpecExpression)>,
    a: SpecFunctionArgs,
) -> bool
    decreases a,
{
    match a {
        SpecFunctionArgs::Parentheses(v) => replace_defined_expressions(pairs, v),
        SpecFunctionArgs::String(_) => true,
        SpecFunctionArgs::TableConstructor(f) => replace_defined_fields(pairs, f),
    }
}

/// Every comparison that replacing within the fields of `s` makes is defined.
pub open spec fn replace_defined_fields(pairs: Seq<(SpecExpression, SpecExpression)>, s: Seq<SpecField>) -> bool
    decreases s,
{
    forall|i: int|
        0 <= i < s.len() ==> match #[trigger] s[i] {
            SpecField::ExpressionKey { key, value } => replace_defined_expression(pairs, key)
                && replace_defined_expression(pairs, value),
            SpecField::NameKey { value, .. } => replace_defined_expression(pairs, value),
            SpecField::NoKey(e) => replace_defined_expression(pairs, e),
        }
}

/// Every comparison that replacing within a variable makes is defined.
pub open spec fn replace_defined_var(pairs: Seq<(SpecExpression, SpecExpression)>, v: SpecVar) -> bool
    decreases v,
{
    match v {
        SpecVar::Expression(x) => replace_defined_prefix(pairs, x.prefix) && replace_defined_suffixes(
            pairs,
            x.suffixes,
        ),
        SpecVar::Name(_) => true,
    }
}

/// Every comparison that replacing within a block makes is defined.
pub open spec fn replace_defined_block(pairs: Seq<(SpecExpression, SpecExpression)>, b: SpecBlock) -> bool
    decreases b,
{
    forall|i: int| 0 <= i < b.stmts.len() ==> replace_defined_stmt(pairs, #[trigger] b.stmts[i])
}

/// Every comparison that replacing within a statement makes is defined.
pub open spec fn replace_defined_stmt(pairs: Seq<(SpecExpression, SpecExpression)>, s: SpecStmt) -> bool
    decreases s,
{
    match s {
        SpecStmt::LocalAssignment(x) => replace_defined_expressions(pairs, x.expressions),
        SpecStmt::Assignment(x) => replace_defined_expressions(pairs, x.expressions),
        SpecStmt::If(x) => replace_defined_if(pairs, x),
        SpecStmt::While(x) => replace_defined_expression(pairs, x.condition) && replace_defined_block(
            pairs,
            x.block,
        ),
        SpecStmt::FunctionCall(c) => replace_defined_function_call(pairs, c),
        SpecStmt::FunctionDeclaration(x) => replace_defined_block(pairs, x.body.block),
        SpecStmt::LocalFunction(x) => replace_defined_block(pairs, x.body.block),
        SpecStmt::NumericFor(x) => replace_defined_expression(pairs, x.start)
            && replace_defined_expression(pairs, x.end) && replace_defined_block(pairs, x.block),
        SpecStmt::GenericFor(x) => replace_defined_expressions(pairs, x.expressions)
            && replace_defined_block(pairs, x.block),
        SpecStmt::Repeat(x) => replace_defined_block(pairs, x.block) && replace_defined_expression(
            pairs,
            x.until,
        ),
        SpecStmt::Do(b) => replace_defined_block(pairs, b),
        SpecStmt::Other(_) => true,
    }
}

/// Every comparison that replacing within an `if` statement makes is defined.
pub open spec fn replace_defined_if(pairs: Seq<(SpecExpression, SpecExpression)>, x: SpecIf) -> bool
    decreases x,
{
    &&& replace_defined_expression(pairs, x.condition)
    &&& replace_defined_block(pairs, x.block)
    &&& match x.else_if {
        Some(v) => forall|i: int| 0 <= i < v.len() ==> replace_defined_else_if(pairs, #[trigger] v[i]),
        None => true,
    }
    &&& match x.else_block {
        Some(b) => replace_defined_block(pairs, b),
        None => true,
    }
}

/// Every comparison that replacing within an `elseif` part makes is defined.
pub open spec fn replace_defined_else_if(pairs: Seq<(SpecExpression, SpecExpression)>, x: SpecElseIf) -> bool
    decreases x,
{
    replace_defined_expression(pairs, x.condition) && replace_defined_block(pairs, x.block)
}

/// Every comparison that replacing within a chunk makes is defined.
pub open spec fn replace_defined_ast(pairs: Seq<(SpecExpression, SpecExpression)>, a: SpecAst) -> bool {
    replace_defined_block(pairs, a.nodes)
}

/// Replacement within a whole chunk.
pub open spec fn replace_ast(pairs: Seq<(SpecExpression, SpecExpression)>, a: SpecAst) -> SpecAst {
    SpecAst { nodes: replace_block(pairs, a.nodes) }
}


// ---------------------------------------------------------------------------
// Replacement
// ---------------------------------------------------------------------------

impl Replacer {

fn replace_in_function_args(&self, function_args: &FunctionArgs) -> (r: Option<FunctionArgs>)
    ensures
        r is Some <==> replace_defined_function_args(self@, function_args@),
        r matches Some(v) ==> v@ == replace_function_args(self@, function_args@),
    decreases function_args, 0nat,
{
    match function_args {
        FunctionArgs::Parentheses(arguments) => Some(
            FunctionArgs::Parentheses(self.replace_in_punctuated_expressions(arguments)?),
        ),
        FunctionArgs::String(token_reference) => Some(FunctionArgs::String(token_reference.duplicate())),
        FunctionArgs::TableConstructor(table_constructor) => Some(
            FunctionArgs::TableConstructor(self.replace_in_table_constructor(table_constructor)?),
        ),
    }
}

fn replace_in_call(&self, call: &Call) -> (r: Option<Call>)
    ensures
        r is Some <==> replace_defined_call(self@, call@),
        r matches Some(v) ==> v@ == replace_call(self@, call@),
    decreases call, 0nat,
{
    match call {
        Call::AnonymousCall(function_args) => Some(
            Call::AnonymousCall(self.replace_in_function_args(function_args)?),
        ),
        Call::MethodCall { name, args } => Some(
            Call::MethodCall { name: name.duplicate(), args: self.replace_in_function_args(args)? },
        ),
    }
}

fn replace_in_prefix(&self, prefix: &Prefix) -> (r: Option<Prefix>)
    ensures
        r is Some <==> replace_defined_prefix(self@, prefix@),
        r matches Some(v) ==> v@ == replace_prefix(self@, prefix@),
    decreases prefix, 0nat,
{
    match prefix {
        Prefix::Expression(expression) => Some(
            Prefix::Expression(Box::new(self.replace_in_expression(expression)?)),
        ),
        Prefix::Name(token_reference) => Some(Prefix::Name(token_reference.duplicate())),
    }
}

fn replace_in_suffix(&self, suffix: &Suffix) -> (r: Option<Suffix>)
    ensures
        r is Some <==> match suffix@ {
            SpecSuffix::Call(c) => replace_defined_call(self@, c),
            SpecSuffix::Index(_) => true,
        },
        r matches Some(v) ==> v@ == replace_suffix(self@, suffix@),
    decreases suffix, 0nat,
{
    match suffix {
        Suffix::Call(call) => Some(Suffix::Call(self.replace_in_call(call)?)),
        Suffix::Index(index) => Some(Suffix::Index(index.duplicate())),
    }
}

fn replace_in_function_call(&self, function_call: &FunctionCall) -> (r: Option<FunctionCall>)
    ensures
        r is Some <==> replace_defined_function_call(self@, function_call@),
        r matches Some(v) ==> v@ == replace_function_call(self@, function_call@),
    decreases function_call, 0nat,
{
    let prefix = self.replace_in_prefix(&function_call.prefix)?;
    let suffixes = self.replace_in_suffixes(&function_call.suffixes)?;
    Some(FunctionCall { prefix, suffixes })
}

fn replace_in_parentheses(&self, expression: &Expression) -> (r: Option<Expression>)
    ensures
        r is Some <==> replace_defined_expression(self@, expression@),
        r matches Some(v) ==> v@ == SpecExpression::Parentheses(
            Box::new(replace_expression(self@, expression@)),
        ),
    decreases expression, 1nat,
{
    Some(Expression::Parentheses(Box::new(self.replace_in_expression(expression)?)))
}

fn replace_in_unary_operator(&self, unop: &crate::ast::UnOp, token: &Token, expression: &Expression) -> (r: Option<Expression>)
    ensures
        r is Some <==> replace_defined_expression(self@, expression@),
        r matches Some(v) ==> v@ == (SpecExpression::UnaryOperator {
            unop: *unop,
            token: token@,
            expression: Box::new(replace_expression(self@, expression@)),
        }),
    decreases expression, 1nat,
{
    Some(
        Expression::UnaryOperator {
            unop: *unop,
            token: token.duplicate(),
            expression: Box::new(self.replace_in_expression(expression)?),
        },
    )
}

fn replace_in_anonymous_function(&self, anonymous_function: &FunctionBody) -> (r: Option<Expression>)
    ensures
        r is Some <==> replace_defined_block(self@, anonymous_function@.block),
        r matches Some(v) ==> v@ == SpecExpression::Function(
            Box::new(replace_function_body(self@, anonymous_function@)),
        ),
    decreases anonymous_function, 1nat,
{
    let new_body = self.replace_in_function_body(anonymous_function)?;
    Some(Expression::Function(Box::new(new_body)))
}

fn replace_in_field(&self, field: &Field) -> (r: Option<Field>)
    ensures
        r is Some <==> match field@ {
            SpecField::ExpressionKey { key, value } => replace_defined_expression(self@, key)
                && replace_defined_expression(self@, value),
            SpecField::NameKey { value, .. } => replace_defined_expression(self@, value),
            SpecField::NoKey(e) => replace_defined_expression(self@, e),
        },
        r matches Some(v) ==> v@ == replace_field(self@, field@),
    decreases field, 0nat,
{
    match field {
        Field::ExpressionKey { key, value } => {
            let new_key = self.replace_in_expression(key)?;
            let new_value = self.replace_in_expression(value)?;
            Some(Field::ExpressionKey { key: new_key, value: new_value })
        },
        Field::NameKey { key, value } => Some(
            Field::NameKey { key: key.duplicate(), value: self.replace_in_expression(value)? },
        ),
        Field::NoKey(expression) => Some(Field::NoKey(self.replace_in_expression(expression)?)),
    }
}

fn replace_in_punctuated_fields(&self, punctuated_fields: &Vec<Field>) -> (r: Option<Vec<Field>>)
    ensures
        r is Some <==> replace_defined_fields(self@, model_fields(punctuated_fields@)),
        r matches Some(v) ==> model_fields(v@) == replace_fields(
            self@,
            model_fields(punctuated_fields@),
        ),
    decreases punctuated_fields, 0nat,
{
    let ghost m = model_fields(punctuated_fields@);
    let mut new_fields: Vec<Field> = Vec::new();
    let mut i: usize = 0;
    while i < punctuated_fields.len()
        invariant
            m == model_fields(punctuated_fields@),
            i <= punctuated_fields.len(),
            new_fields@.len() == i,
            forall|j: int| 0 <= j < i ==> new_fields@[j]@ == replace_field(self@, m[j]),
            forall|j: int|
                0 <= j < i ==> match #[trigger] m[j] {
                    SpecField::ExpressionKey { key, value } => replace_defined_expression(
                        self@,
                        key,
                    ) && replace_defined_expression(self@, value),
                    SpecField::NameKey { value, .. } => replace_defined_expression(self@, value),
                    SpecField::NoKey(e) => replace_defined_expression(self@, e),
                },
        decreases punctuated_fields.len() - i,
    {
        assert(m[i as int] == punctuated_fields@[i as int]@);
        let new_field = self.replace_in_field(&punctuated_fields[i])?;
        new_fields.push(new_field);
        i = i + 1;
    }
    assert(model_fields(new_fields@) =~= replace_fields(self@, m));
    Some(new_fields)
}

fn replace_in_table_constructor(&self, table_constructor: &Vec<Field>) -> (r: Option<Vec<Field>>)
    ensures
        r is Some <==> replace_defined_fields(self@, model_fields(table_constructor@)),
        r matches Some(v) ==> model_fields(v@) == replace_fields(
            self@,
            model_fields(table_constructor@),
        ),
    decreases table_constructor, 1nat,
{
    self.replace_in_punctuated_fields(table_constructor)
}

fn replace_in_suffixes(&self, suffixes: &Vec<Suffix>) -> (r: Option<Vec<Suffix>>)
    ensures
        r is Some <==> replace_defined_suffixes(self@, model_suffixes(suffixes@)),
        r matches Some(v) ==> model_suffixes(v@) == replace_suffixes(
            self@,
            model_suffixes(suffixes@),
        ),
    decreases suffixes, 0nat,
{
    let ghost m = model_suffixes(suffixes@);
    let mut new_suffixes: Vec<Suffix> = Vec::new();
    let mut i: usize = 0;
    while i < suffixes.len()
        invariant
            m == model_suffixes(suffixes@),
            i <= suffixes.len(),
            new_suffixes@.len() == i,
            forall|j: int| 0 <= j < i ==> new_suffixes@[j]@ == replace_suffix(self@, m[j]),
            forall|j: int|
                0 <= j < i ==> match #[trigger] m[j] {
                    SpecSuffix::Call(c) => replace_defined_call(self@, c),
                    SpecSuffix::Index(_) => true,
                },
        decreases suffixes.len() - i,
    {
        assert(m[i as int] == suffixes@[i as int]@);
        let new_suffix = self.replace_in_suffix(&suffixes[i])?;
        new_suffixes.push(new_suffix);
        i = i + 1;
    }
    assert(model_suffixes(new_suffixes@) =~= replace_suffixes(self@, m));
    Some(new_suffixes)
}

fn replace_in_var_expression(&self, var_expression: &VarExpression) -> (r: Option<VarExpression>)
    ensures
        r is Some <==> replace_defined_prefix(self@, var_expression@.prefix)
            && replace_defined_suffixes(self@, var_expression@.suffixes),
        r matches Some(v) ==> v@ == replace_var_expression(self@, var_expression@),
    decreases var_expression, 0nat,
{
    let prefix = self.replace_in_prefix(&var_expression.prefix)?;
    let suffixes = self.replace_in_suffixes(&var_expression.suffixes)?;
    Some(VarExpression { prefix, suffixes })
}

fn replace_in_var(&self, var: &Var) -> (r: Option<Var>)
    ensures
        r is Some <==> replace_defined_var(self@, var@),
        r matches Some(v) ==> v@ == replace_var(self@, var@),
    decreases var, 0nat,
{
    match var {
        Var::Expression(var_expression) => Some(
            Var::Expression(Box::new(self.replace_in_var_expression(var_expression)?)),
        ),
        Var::Name(token_reference) => Some(Var::Name(token_reference.duplicate())),
    }
}

fn replace_in_expression(&self, expression: &Expression) -> (r: Option<Expression>)
    ensures
        r is Some <==> replace_defined_expression(self@, expression@),
        r matches Some(v) ==> v@ == replace_expression(self@, expression@),
    decreases expression, 0nat,
{
    let ghost pairs = self@;
    let mut j: usize = 0;
    while j < self.expressions.len()
        invariant
            pairs == self@,
            j <= self.expressions.len(),
            first_match(pairs, expression@, 0) == first_match(pairs, expression@, j as nat),
        decreases self.expressions.len() - j,
    {
        assert(pairs[j as int] == (self.expressions@[j as int].0@, self.expressions@[j as int].1@));
        match compare_expression(&self.expressions[j].0, expression) {
            Some(true) => {
                return Some(self.expressions[j].1.duplicate());
            },
            Some(false) => {},
            None => {
                return None;
            },
        }
        j = j + 1;
    }
    match expression {
        Expression::FunctionCall(function_call) => Some(
            Expression::FunctionCall(self.replace_in_function_call(function_call)?),
        ),
        Expression::Parentheses(inner) => self.replace_in_parentheses(inner),
        Expression::UnaryOperator { unop, token, expression: inner } => self.replace_in_unary_operator(
            unop,
            token,
            inner,
        ),
        Expression::BinaryOperator { lhs, binop, token, rhs } => {
            let new_lhs = self.replace_in_expression(lhs)?;
            let new_rhs = self.replace_in_expression(rhs)?;
            Some(
                Expression::BinaryOperator {
                    lhs: Box::new(new_lhs),
                    binop: *binop,
                    token: token.duplicate(),
                    rhs: Box::new(new_rhs),
                },
            )
        },
        Expression::Function(anonymous_function) => {
            assert(anonymous_function.model().block == anonymous_function.block.model());
            self.replace_in_anonymous_function(anonymous_function)
        },
        Expression::TableConstructor(table_constructor) => Some(
            Expression::TableConstructor(self.replace_in_table_constructor(table_constructor)?),
        ),
        Expression::Var(var) => Some(Expression::Var(self.replace_in_var(var)?)),
        _ => Some(expression.duplicate()),
    }
}

fn replace_in_punctuated_expressions(&self, punctuated_expressions: &Vec<Expression>) -> (r: Option<Vec<Expression>>)
    ensures
        r is Some <==> replace_defined_expressions(
            self@,
            model_expressions(punctuated_expressions@),
        ),
        r matches Some(v) ==> model_expressions(v@) == replace_expressions(
            self@,
            model_expressions(punctuated_expressions@),
        ),
    decreases punctuated_expressions, 0nat,
{
    let ghost m = model_expressions(punctuated_expressions@);
    let mut new_expressions: Vec<Expression> = Vec::new();
    let mut i: usize = 0;
    while i < punctuated_expressions.len()
        invariant
            m == model_expressions(punctuated_expressions@),
            i <= punctuated_expressions.len(),
            new_expressions@.len() == i,
            forall|j: int| 0 <= j < i ==> new_expressions@[j]@ == replace_expression(self@, m[j]),
            forall|j: int| 0 <= j < i ==> replace_defined_expression(self@, #[trigger] m[j]),
        decreases punctuated_expressions.len() - i,
    {
        assert(m[i as int] == punctuated_expressions@[i as int]@);
        let new_expression = self.replace_in_expression(&punctuated_expressions[i])?;
        new_expressions.push(new_expression);
        i = i + 1;
    }
    assert(model_expressions(new_expressions@) =~= replace_expressions(self@, m));
    Some(new_expressions)
}

fn replace_in_local_assignment(&self, local_assignment: &LocalAssignment) -> (r: Option<LocalAssignment>)
    ensures
        r is Some <==> replace_defined_expressions(self@, local_assignment@.expressions),
        r matches Some(v) ==> v@ == (SpecLocalAssignment {
            names: local_assignment@.names,
            expressions: replace_expressions(self@, local_assignment@.expressions),
        }),
    decreases local_assignment, 0nat,
{
    let expressions = self.replace_in_punctuated_expressions(&local_assignment.expressions)?;
    Some(LocalAssignment { names: crate::ast::duplicate_tokens(&local_assignment.names), expressions })
}

fn replace_in_assignment(&self, assignment: &Assignment) -> (r: Option<Assignment>)
    ensures
        r is Some <==> replace_defined_expressions(self@, assignment@.expressions),
        r matches Some(v) ==> v@ == (SpecAssignment {
            variables: assignment@.variables,
            expressions: replace_expressions(self@, assignment@.expressions),
        }),
    decreases assignment, 0nat,
{
    let expressions = self.replace_in_punctuated_expressions(&assignment.expressions)?;
    Some(Assignment { variables: crate::ast::duplicate_vars(&assignment.variables), expressions })
}

fn replace_in_while_loop(&self, while_loop: &While) -> (r: Option<While>)
    ensures
        r is Some <==> replace_defined_expression(self@, while_loop@.condition)
            && replace_defined_block(self@, while_loop@.block),
        r matches Some(v) ==> v@ == (SpecWhile {
            condition: replace_expression(self@, while_loop@.condition),
            block: replace_block(self@, while_loop@.block),
        }),
    decreases while_loop, 0nat,
{
    let new_condition = self.replace_in_expression(&while_loop.condition)?;
    let new_block = self.replace_in_block(&while_loop.block)?;
    Some(While { condition: new_condition, block: new_block })
}

fn replace_in_repeat(&self, repeat: &Repeat) -> (r: Option<Repeat>)
    ensures
        r is Some <==> replace_defined_block(self@, repeat@.block) && replace_defined_expression(
            self@,
            repeat@.until,
        ),
        r matches Some(v) ==> v@ == (SpecRepeat {
            block: replace_block(self@, repeat@.block),
            until: replace_expression(self@, repeat@.until),
        }),
    decreases repeat, 0nat,
{
    let new_block = self.replace_in_block(&repeat.block)?;
    let new_until = self.replace_in_expression(&repeat.until)?;
    Some(Repeat { block: new_block, until: new_until })
}

fn replace_in_do(&self, do_obj: &Block) -> (r: Option<Block>)
    ensures
        r is Some <==> replace_defined_block(self@, do_obj@),
        r matches Some(v) ==> v@ == replace_block(self@, do_obj@),
    decreases do_obj, 1nat,
{
    self.replace_in_block(do_obj)
}

fn replace_in_function_body(&self, function_body: &FunctionBody) -> (r: Option<FunctionBody>)
    ensures
        r is Some <==> replace_defined_block(self@, function_body@.block),
        r matches Some(v) ==> v@ == replace_function_body(self@, function_body@),
    decreases function_body, 0nat,
{
    let new_block = self.replace_in_block(&function_body.block)?;
    Some(
        FunctionBody {
            parameters: crate::ast::duplicate_tokens(&function_body.parameters),
            block: new_block,
        },
    )
}

fn replace_in_function_declaration(&self, function_declaration: &FunctionDeclaration) -> (r: Option<FunctionDeclaration>)
    ensures
        r is Some <==> replace_defined_block(self@, function_declaration@.body.block),
        r matches Some(v) ==> v@ == (SpecFunctionDeclaration {
            name: function_declaration@.name,
            body: replace_function_body(self@, function_declaration@.body),
        }),
    decreases function_declaration, 0nat,
{
    let new_body = self.replace_in_function_body(&function_declaration.body)?;
    Some(FunctionDeclaration { name: function_declaration.name.duplicate(), body: new_body })
}

fn replace_in_local_function(&self, local_function: &LocalFunction) -> (r: Option<LocalFunction>)
    ensures
        r is Some <==> replace_defined_block(self@, local_function@.body.block),
        r matches Some(v) ==> v@ == (SpecLocalFunction {
            name: local_function@.name,
            body: replace_function_body(self@, local_function@.body),
        }),
    decreases local_function, 0nat,
{
    let new_body = self.replace_in_function_body(&local_function.body)?;
    Some(LocalFunction { name: local_function.name.duplicate(), body: new_body })
}

fn replace_in_numeric_for(&self, numeric_for: &NumericFor) -> (r: Option<NumericFor>)
    ensures
        r is Some <==> replace_defined_expression(self@, numeric_for@.start)
            && replace_defined_expression(self@, numeric_for@.end) && replace_defined_block(
            self@,
            numeric_for@.block,
        ),
        r matches Some(v) ==> v@ == (SpecNumericFor {
            index_variable: numeric_for@.index_variable,
            start: replace_expression(self@, numeric_for@.start),
            end: replace_expression(self@, numeric_for@.end),
            step: numeric_for@.step,
            block: replace_block(self@, numeric_for@.block),
        }),
    decreases numeric_for, 0nat,
{
    let new_start = self.replace_in_expression(&numeric_for.start)?;
    let new_end = self.replace_in_expression(&numeric_for.end)?;
    let new_block = self.replace_in_block(&numeric_for.block)?;
    let step = match &numeric_for.step {
        Some(e) => Some(e.duplicate()),
        None => None,
    };
    Some(
        NumericFor {
            index_variable: numeric_for.index_variable.duplicate(),
            start: new_start,
            end: new_end,
            step,
            block: new_block,
        },
    )
}

fn replace_in_generic_for(&self, generic_for: &GenericFor) -> (r: Option<GenericFor>)
    ensures
        r is Some <==> replace_defined_expressions(self@, generic_for@.expressions)
            && replace_defined_block(self@, generic_for@.block),
        r matches Some(v) ==> v@ == (SpecGenericFor {
            names: generic_for@.names,
            expressions: replace_expressions(self@, generic_for@.expressions),
            block: replace_block(self@, generic_for@.block),
        }),
    decreases generic_for, 0nat,
{
    let new_block = self.replace_in_block(&generic_for.block)?;
    let new_expressions = self.replace_in_punctuated_expressions(&generic_for.expressions)?;
    Some(
        GenericFor {
            names: crate::ast::duplicate_tokens(&generic_for.names),
            expressions: new_expressions,
            block: new_block,
        },
    )
}

fn replace_in_else_if(&self, else_if: &ElseIf) -> (r: Option<ElseIf>)
    ensures
        r is Some <==> replace_defined_else_if(self@, else_if@),
        r matches Some(v) ==> v@ == (SpecElseIf {
            condition: replace_expression(self@, else_if@.condition),
            block: replace_block(self@, else_if@.block),
        }),
    decreases else_if, 0nat,
{
    let condition = self.replace_in_expression(&else_if.condition)?;
    let block = self.replace_in_block(&else_if.block)?;
    Some(ElseIf { condition, block })
}

fn replace_in_else_ifs(&self, else_ifs: &Vec<ElseIf>) -> (r: Option<Vec<ElseIf>>)
    ensures
        r is Some <==> forall|i: int|
            0 <= i < else_ifs@.len() ==> replace_defined_else_if(
                self@,
                #[trigger] model_else_ifs(else_ifs@)[i],
            ),
        r matches Some(v) ==> model_else_ifs(v@) == replace_else_ifs(
            self@,
            model_else_ifs(else_ifs@),
        ),
    decreases else_ifs, 0nat,
{
    let ghost m = model_else_ifs(else_ifs@);
    let mut new_else_ifs: Vec<ElseIf> = Vec::new();
    let mut i: usize = 0;
    while i < else_ifs.len()
        invariant
            m == model_else_ifs(else_ifs@),
            i <= else_ifs.len(),
            new_else_ifs@.len() == i,
            forall|k: int| 0 <= k < i ==> replace_defined_else_if(self@, #[trigger] m[k]),
            forall|j: int|
                0 <= j < i ==> new_else_ifs@[j]@ == (SpecElseIf {
                    condition: replace_expression(self@, m[j].condition),
                    block: replace_block(self@, m[j].block),
                }),
        decreases else_ifs.len() - i,
    {
        assert(m[i as int] == else_ifs@[i as int]@);
        let new_else_if = self.replace_in_else_if(&else_ifs[i])?;
        new_else_ifs.push(new_else_if);
        i = i + 1;
    }
    assert(model_else_ifs(new_else_ifs@) =~= replace_else_ifs(self@, m));
    Some(new_else_ifs)
}

fn replace_in_if_object(&self, if_object: &If) -> (r: Option<If>)
    ensures
        r is Some <==> replace_defined_if(self@, if_object@),
        r matches Some(v) ==> v@ == replace_if(self@, if_object@),
    decreases if_object, 0nat,
{
    let condition = self.replace_in_expression(&if_object.condition)?;
    let block = self.replace_in_block(&if_object.block)?;
    let else_if = match &if_object.else_if {
        None => None,
        Some(else_ifs) => Some(self.replace_in_else_ifs(else_ifs)?),
    };
    let else_block = match &if_object.else_block {
        None => None,
        Some(block) => Some(self.replace_in_block(block)?),
    };
    Some(If { condition, block, else_if, else_block })
}

fn replace_in_statement(&self, statement: &Stmt) -> (r: Option<Stmt>)
    ensures
        r is Some <==> replace_defined_stmt(self@, statement@),
        r matches Some(v) ==> v@ == replace_stmt(self@, statement@),
    decreases statement, 0nat,
{
    match statement {
        Stmt::LocalAssignment(local_assignment) => Some(
            Stmt::LocalAssignment(self.replace_in_local_assignment(local_assignment)?),
        ),
        Stmt::Assignment(assignment) => Some(
            Stmt::Assignment(self.replace_in_assignment(assignment)?),
        ),
        Stmt::If(if_object) => Some(Stmt::If(self.replace_in_if_object(if_object)?)),
        Stmt::While(while_loop) => Some(Stmt::While(self.replace_in_while_loop(while_loop)?)),
        Stmt::FunctionCall(function_call) => Some(
            Stmt::FunctionCall(self.replace_in_function_call(function_call)?),
        ),
        Stmt::FunctionDeclaration(function_declaration) => Some(
            Stmt::FunctionDeclaration(
                self.replace_in_function_declaration(function_declaration)?,
            ),
        ),
        Stmt::LocalFunction(local_function) => Some(
            Stmt::LocalFunction(self.replace_in_local_function(local_function)?),
        ),
        Stmt::NumericFor(numeric_for) => Some(
            Stmt::NumericFor(self.replace_in_numeric_for(numeric_for)?),
        ),
        Stmt::GenericFor(generic_for) => Some(
            Stmt::GenericFor(self.replace_in_generic_for(generic_for)?),
        ),
        Stmt::Repeat(repeat) => Some(Stmt::Repeat(self.replace_in_repeat(repeat)?)),
        Stmt::Do(do_block) => Some(Stmt::Do(self.replace_in_do(do_block)?)),
        Stmt::Other(_) => Some(statement.duplicate()),
    }
}

fn replace_in_block(&self, block: &Block) -> (r: Option<Block>)
    ensures
        r is Some <==> replace_defined_block(self@, block@),
        r matches Some(v) ==> v@ == replace_block(self@, block@),
    decreases block, 0nat,
{
    let ghost m = model_stmts(block.stmts@);
    let mut new_stmts: Vec<Stmt> = Vec::new();
    let mut i: usize = 0;
    while i < block.stmts.len()
        invariant
            m == model_stmts(block.stmts@),
            m == block@.stmts,
            i <= block.stmts.len(),
            new_stmts@.len() == i,
            forall|j: int| 0 <= j < i ==> new_stmts@[j]@ == replace_stmt(self@, m[j]),
            forall|j: int| 0 <= j < i ==> replace_defined_stmt(self@, #[trigger] m[j]),
        decreases block.stmts.len() - i,
    {
        assert(m[i as int] == block.stmts@[i as int]@);
        let new_stmt = self.replace_in_statement(&block.stmts[i])?;
        new_stmts.push(new_stmt);
        i = i + 1;
    }
    assert(model_stmts(new_stmts@) =~= replace_stmts(self@, m));
    let last_stmt = match &block.last_stmt {
        Some(l) => Some(l.duplicate()),
        None => None,
    };
    Some(
        Block {
            stmts: new_stmts,
            semicolons: crate::ast::duplicate_semicolons(&block.semicolons),
            last_stmt,
            last_semicolon: crate::ast::duplicate_option_token(&block.last_semicolon),
        },
    )
}

/// Replaces expressions throughout a chunk, or gives `None` when a
/// comparison that the replacement makes is not defined (see
/// [`crate::equivalent::compare_expression`]).
pub fn try_replace_in_ast(&self, input_ast: &Ast) -> (r: Option<Ast>)
    ensures
        r is Some <==> replace_defined_ast(self@, input_ast@),
        r matches Some(v) ==> v@ == replace_ast(self@, input_ast@),
{
    Some(Ast { nodes: self.replace_in_block(&input_ast.nodes)? })
}

/// Replaces expressions throughout a chunk.
pub fn replace_in_ast(&self, input_ast: &Ast) -> (r: Ast)
    requires
        replace_defined_ast(self@, input_ast@),
    ensures
        r@ == replace_ast(self@, input_ast@),
{
    match self.try_replace_in_ast(input_ast) {
        Some(output_ast) => output_ast,
        None => Ast { nodes: input_ast.nodes.duplicate() },
    }
}

}

} // verus!
