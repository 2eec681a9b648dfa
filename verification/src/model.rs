//! The mathematical model of a Lua syntax tree.
//!
//! Every executable node type of [`crate::ast`] has a view into one of the
//! types below: the same tree, with `Seq` in place of `Vec` and the text of a
//! token as a [`SpecToken`].
use vstd::prelude::*;

use crate::ast::{BinOp, Position, UnOp};

verus! {

/// The model of [`crate::ast::Trivia`].
pub struct SpecTrivia {
    pub text: Seq<char>,
    pub start: Position,
    pub end: Position,
}

/// The model of [`crate::ast::Token`].
pub struct SpecToken {
    pub text: Seq<char>,
    pub leading: Seq<SpecTrivia>,
    pub trailing: Seq<SpecTrivia>,
    pub start: Position,
    pub end: Position,
}

/// The model of [`crate::ast::Expression`].
pub enum SpecExpression {
    BinaryOperator {
        lhs: Box<SpecExpression>,
        binop: BinOp,
        token: SpecToken,
        rhs: Box<SpecExpression>,
    },
    Parentheses(Box<SpecExpression>),
    UnaryOperator { unop: UnOp, token: SpecToken, expression: Box<SpecExpression> },
    Function(Box<SpecFunctionBody>),
    FunctionCall(SpecFunctionCall),
    TableConstructor(Seq<SpecField>),
    Number(SpecToken),
    String(SpecToken),
    Symbol(SpecToken),
    Var(SpecVar),
    Other(Seq<char>),
}

/// The model of [`crate::ast::FunctionBody`].
pub struct SpecFunctionBody {
    pub parameters: Seq<SpecToken>,
    pub block: SpecBlock,
}

/// The model of [`crate::ast::FunctionCall`].
pub struct SpecFunctionCall {
    pub prefix: SpecPrefix,
    pub suffixes: Seq<SpecSuffix>,
}

/// The model of [`crate::ast::Prefix`].
pub enum SpecPrefix {
    Expression(Box<SpecExpression>),
    Name(SpecToken),
}

/// The model of [`crate::ast::Suffix`].
pub enum SpecSuffix {
    Call(SpecCall),
    Index(SpecIndex),
}

/// The model of [`crate::ast::Index`].
pub enum SpecIndex {
    Brackets(Box<SpecExpression>),
    Dot(SpecToken),
}

/// The model of [`crate::ast::Call`].
pub enum SpecCall {
    AnonymousCall(SpecFunctionArgs),
    MethodCall { name: SpecToken, args: SpecFunctionArgs },
}

/// The model of [`crate::ast::FunctionArgs`].
pub enum SpecFunctionArgs {
    Parentheses(Seq<SpecExpression>),
    String(SpecToken),
    TableConstructor(Seq<SpecField>),
}

/// The model of [`crate::ast::Field`].
pub enum SpecField {
    ExpressionKey { key: SpecExpression, value: SpecExpression },
    NameKey { key: SpecToken, value: SpecExpression },
    NoKey(SpecExpression),
}

/// The model of [`crate::ast::VarExpression`].
pub struct SpecVarExpression {
    pub prefix: SpecPrefix,
    pub suffixes: Seq<SpecSuffix>,
}

/// The model of [`crate::ast::Var`].
pub enum SpecVar {
    Expression(Box<SpecVarExpression>),
    Name(SpecToken),
}

/// The model of [`crate::ast::Stmt`].
pub enum SpecStmt {
    Assignment(SpecAssignment),
    Do(SpecBlock),
    FunctionCall(SpecFunctionCall),
    FunctionDeclaration(SpecFunctionDeclaration),
    GenericFor(SpecGenericFor),
    If(SpecIf),
    LocalAssignment(SpecLocalAssignment),
    LocalFunction(SpecLocalFunction),
    NumericFor(SpecNumericFor),
    Repeat(SpecRepeat),
    While(SpecWhile),
    Other(Seq<char>),
}

/// The model of [`crate::ast::Assignment`].
pub struct SpecAssignment {
    pub variables: Seq<SpecVar>,
    pub expressions: Seq<SpecExpression>,
}

/// The model of [`crate::ast::FunctionDeclaration`].
pub struct SpecFunctionDeclaration {
    pub name: SpecFunctionName,
    pub body: SpecFunctionBody,
}

/// The model of [`crate::ast::GenericFor`].
pub struct SpecGenericFor {
    pub names: Seq<SpecToken>,
    pub expressions: Seq<SpecExpression>,
    pub block: SpecBlock,
}

/// The model of [`crate::ast::LocalAssignment`].
pub struct SpecLocalAssignment {
    pub names: Seq<SpecToken>,
    pub expressions: Seq<SpecExpression>,
}

/// The model of [`crate::ast::LocalFunction`].
pub struct SpecLocalFunction {
    pub name: SpecToken,
    pub body: SpecFunctionBody,
}

/// The model of [`crate::ast::NumericFor`].
pub struct SpecNumericFor {
    pub index_variable: SpecToken,
    pub start: SpecExpression,
    pub end: SpecExpression,
    pub step: Option<SpecExpression>,
    pub block: SpecBlock,
}

/// The model of [`crate::ast::Repeat`].
pub struct SpecRepeat {
    pub block: SpecBlock,
    pub until: SpecExpression,
}

/// The model of [`crate::ast::While`].
pub struct SpecWhile {
    pub condition: SpecExpression,
    pub block: SpecBlock,
}

/// The model of [`crate::ast::If`].
pub struct SpecIf {
    pub condition: SpecExpression,
    pub block: SpecBlock,
    pub else_if: Option<Seq<SpecElseIf>>,
    pub else_block: Option<SpecBlock>,
}

/// The model of [`crate::ast::ElseIf`].
pub struct SpecElseIf {
    pub condition: SpecExpression,
    pub block: SpecBlock,
}

/// The model of [`crate::ast::FunctionName`].
pub struct SpecFunctionName {
    pub names: Seq<SpecToken>,
    pub dots: Seq<SpecToken>,
    pub colon: Option<SpecToken>,
    pub method_name: Option<SpecToken>,
}

/// The model of [`crate::ast::Block`].
pub struct SpecBlock {
    pub stmts: Seq<SpecStmt>,
    pub semicolons: Seq<Option<SpecToken>>,
    pub last_stmt: Option<SpecLastStmt>,
    pub last_semicolon: Option<SpecToken>,
}

/// The model of [`crate::ast::LastStmt`].
pub enum SpecLastStmt {
    Break,
    Continue,
    Return(Seq<SpecExpression>),
}

/// The model of [`crate::ast::Ast`].
pub struct SpecAst {
    pub nodes: SpecBlock,
}

} // verus!
