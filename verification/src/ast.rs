//! The syntax tree of a Lua chunk, as the rewriting functions read it.
//!
//! Each node keeps what the functions of this library inspect or carry along:
//! the kind of node, its children, and its tokens. Every token that the tree
//! holds (names, numbers, strings, the literals `true`, `false`, `nil` and
//! `...`, operators, the dots and colon of a declared function's name, and
//! the semicolons after statements) is a [`Token`], with its text, its
//! position, and the whitespace and comments around it. Keywords and the
//! other punctuation (`local`, `=`, `then`, `end`, parentheses, commas, ...)
//! are not held. Each type has a view (`@`) into [`crate::model`].
use vstd::prelude::*;

use crate::model::{
    SpecBlock, SpecCall, SpecElseIf, SpecExpression, SpecToken, SpecTrivia, SpecField, SpecFunctionArgs, SpecFunctionBody,
    SpecFunctionCall, SpecFunctionName, SpecIf, SpecIndex, SpecLastStmt, SpecPrefix, SpecStmt,
    SpecSuffix, SpecVar, SpecVarExpression, SpecAst, SpecAssignment, SpecFunctionDeclaration,
    SpecGenericFor, SpecLocalAssignment, SpecLocalFunction, SpecNumericFor, SpecRepeat, SpecWhile,
};

verus! {

/// A position in the source: byte offset, line and character on the line.
#[derive(Clone, Copy, Debug, PartialEq, Eq, Structural)]
pub struct Position {
    pub bytes: usize,
    pub line: usize,
    pub character: usize,
}

/// A piece of whitespace or a comment next to a token, by its text and
/// position.
#[derive(Debug, PartialEq)]
pub struct Trivia {
    pub text: String,
    pub start: Position,
    pub end: Position,
}

/// A token: its text, the whitespace and comments before and after it, and
/// its position.
#[derive(Debug, PartialEq)]
pub struct Token {
    pub text: String,
    pub leading: Vec<Trivia>,
    pub trailing: Vec<Trivia>,
    pub start: Position,
    pub end: Position,
}

/// A unary operator.
#[derive(Clone, Copy, Debug, PartialEq, Eq, Structural)]
pub enum UnOp {
    Minus,
    Not,
    Hash,
    Tilde,
}

/// A binary operator.
#[derive(Clone, Copy, Debug, PartialEq, Eq, Structural)]
pub enum BinOp {
    And,
    Caret,
    GreaterThan,
    GreaterThanEqual,
    LessThan,
    LessThanEqual,
    Minus,
    Or,
    Percent,
    Plus,
    Slash,
    Star,
    TildeEqual,
    TwoDots,
    TwoEqual,
    DoubleSlash,
    Ampersand,
    Pipe,
    Tilde,
    DoubleLessThan,
    DoubleGreaterThan,
}

/// An expression.
#[derive(Debug, PartialEq)]
pub enum Expression {
    /// `lhs binop rhs`, with the operator's token
    BinaryOperator { lhs: Box<Expression>, binop: BinOp, token: Token, rhs: Box<Expression> },
    /// `(expression)`
    Parentheses(Box<Expression>),
    /// `unop expression`, with the operator's token
    UnaryOperator { unop: UnOp, token: Token, expression: Box<Expression> },
    /// An anonymous function, `function (...) ... end`
    Function(Box<FunctionBody>),
    /// `prefix suffix...`
    FunctionCall(FunctionCall),
    /// `{ fields }`
    TableConstructor(Vec<Field>),
    /// A number token, by its text.
    Number(Token),
    /// A string token, by its text (quotes included).
    String(Token),
    /// `true`, `false`, `nil` or `...`, by its token
    Symbol(Token),
    /// A name, or a path through indexes and calls, such as `a.b`
    Var(Var),
    /// An expression of a kind that this library does not inspect (such as
    /// the expressions of Luau's type system), by its source text.
    Other(String),
}

/// The parameters and the block of a function.
#[derive(Debug, PartialEq)]
pub struct FunctionBody {
    pub parameters: Vec<Token>,
    pub block: Block,
}

/// A call, such as `f(x)` or `obj:m "s"`.
#[derive(Debug, PartialEq)]
pub struct FunctionCall {
    pub prefix: Prefix,
    pub suffixes: Vec<Suffix>,
}

/// What a call or an indexed path starts with.
#[derive(Debug, PartialEq)]
pub enum Prefix {
    /// A parenthesized expression, such as `("s")` in `("s"):upper()`
    Expression(Box<Expression>),
    /// A name
    Name(Token),
}

/// One step after a prefix: a call or an index.
#[derive(Debug, PartialEq)]
pub enum Suffix {
    Call(Call),
    Index(Index),
}

/// An index, such as `[k]` or `.k`.
#[derive(Debug, PartialEq)]
pub enum Index {
    Brackets(Box<Expression>),
    Dot(Token),
}

/// A call suffix: `(args)` or `:name(args)`.
#[derive(Debug, PartialEq)]
pub enum Call {
    AnonymousCall(FunctionArgs),
    MethodCall { name: Token, args: FunctionArgs },
}

/// The arguments of a call.
#[derive(Debug, PartialEq)]
pub enum FunctionArgs {
    /// `(e1, e2, ...)`
    Parentheses(Vec<Expression>),
    /// `"text"`
    String(Token),
    /// `{ fields }`
    TableConstructor(Vec<Field>),
}

/// A field of a table constructor.
#[derive(Debug, PartialEq)]
pub enum Field {
    /// `[key] = value`
    ExpressionKey { key: Expression, value: Expression },
    /// `key = value`
    NameKey { key: Token, value: Expression },
    /// `value`
    NoKey(Expression),
}

/// A path through indexes and calls, such as `a.b[c]`.
#[derive(Debug, PartialEq)]
pub struct VarExpression {
    pub prefix: Prefix,
    pub suffixes: Vec<Suffix>,
}

/// A variable.
#[derive(Debug, PartialEq)]
pub enum Var {
    Expression(Box<VarExpression>),
    Name(Token),
}

/// A statement.
#[derive(Debug, PartialEq)]
pub enum Stmt {
    Assignment(Assignment),
    Do(Block),
    FunctionCall(FunctionCall),
    FunctionDeclaration(FunctionDeclaration),
    GenericFor(GenericFor),
    If(If),
    LocalAssignment(LocalAssignment),
    LocalFunction(LocalFunction),
    NumericFor(NumericFor),
    Repeat(Repeat),
    While(While),
    /// A statement of a kind that this library does not inspect (such as
    /// `goto`, labels, or Luau's type declarations), by its source text.
    Other(String),
}

/// `v1, v2 = e1, e2`
#[derive(Debug, PartialEq)]
pub struct Assignment {
    pub variables: Vec<Var>,
    pub expressions: Vec<Expression>,
}

/// `function a.b:c(...) ... end`
#[derive(Debug, PartialEq)]
pub struct FunctionDeclaration {
    pub name: FunctionName,
    pub body: FunctionBody,
}

/// `for n1, n2 in e1, e2 do ... end`
#[derive(Debug, PartialEq)]
pub struct GenericFor {
    pub names: Vec<Token>,
    pub expressions: Vec<Expression>,
    pub block: Block,
}

/// `local n1, n2 = e1, e2`
#[derive(Debug, PartialEq)]
pub struct LocalAssignment {
    pub names: Vec<Token>,
    pub expressions: Vec<Expression>,
}

/// `local function name(...) ... end`
#[derive(Debug, PartialEq)]
pub struct LocalFunction {
    pub name: Token,
    pub body: FunctionBody,
}

/// `for i = start, end, step do ... end`
#[derive(Debug, PartialEq)]
pub struct NumericFor {
    pub index_variable: Token,
    pub start: Expression,
    pub end: Expression,
    pub step: Option<Expression>,
    pub block: Block,
}

/// `repeat ... until e`
#[derive(Debug, PartialEq)]
pub struct Repeat {
    pub block: Block,
    pub until: Expression,
}

/// `while e do ... end`
#[derive(Debug, PartialEq)]
pub struct While {
    pub condition: Expression,
    pub block: Block,
}

/// An `if` statement with its `elseif` and `else` parts.
#[derive(Debug, PartialEq)]
pub struct If {
    pub condition: Expression,
    pub block: Block,
    pub else_if: Option<Vec<ElseIf>>,
    pub else_block: Option<Block>,
}

/// An `elseif` part.
#[derive(Debug, PartialEq)]
pub struct ElseIf {
    pub condition: Expression,
    pub block: Block,
}

/// The name of a declared function, such as `a.b:c`: the names, the dots
/// between them, and the colon and method name, if any.
#[derive(Debug, PartialEq)]
pub struct FunctionName {
    pub names: Vec<Token>,
    pub dots: Vec<Token>,
    pub colon: Option<Token>,
    pub method_name: Option<Token>,
}

/// A block: statements, each with the semicolon after it (at the same
/// position in `semicolons`), then an optional last statement and the
/// semicolon after it.
#[derive(Debug, PartialEq)]
pub struct Block {
    pub stmts: Vec<Stmt>,
    pub semicolons: Vec<Option<Token>>,
    pub last_stmt: Option<LastStmt>,
    pub last_semicolon: Option<Token>,
}

/// A statement that can only end a block.
#[derive(Debug, PartialEq)]
pub enum LastStmt {
    Break,
    Continue,
    Return(Vec<Expression>),
}

/// A whole chunk.
#[derive(Debug, PartialEq)]
pub struct Ast {
    pub nodes: Block,
}

// ---------------------------------------------------------------------------
// Views
// ---------------------------------------------------------------------------

/// The models of a sequence of trivia.
pub open spec fn model_trivia(v: Seq<Trivia>) -> Seq<SpecTrivia> {
    Seq::new(v.len(), |i: int| v[i]@)
}

/// The models of a sequence of tokens.
pub open spec fn model_tokens(v: Seq<Token>) -> Seq<SpecToken> {
    Seq::new(v.len(), |i: int| v[i]@)
}

/// The model of an optional token.
pub open spec fn model_option_token(t: Option<Token>) -> Option<SpecToken> {
    match t {
        Some(t) => Some(t@),
        None => None,
    }
}

/// The models of a sequence of optional tokens.
pub open spec fn model_semicolons(v: Seq<Option<Token>>) -> Seq<Option<SpecToken>> {
    Seq::new(v.len(), |i: int| model_option_token(v[i]))
}

impl View for Trivia {
    type V = SpecTrivia;

    open spec fn view(&self) -> SpecTrivia {
        SpecTrivia { text: self.text@, start: self.start, end: self.end }
    }
}

impl View for Token {
    type V = SpecToken;

    open spec fn view(&self) -> SpecToken {
        SpecToken {
            text: self.text@,
            leading: model_trivia(self.leading@),
            trailing: model_trivia(self.trailing@),
            start: self.start,
            end: self.end,
        }
    }
}

/// The models of a sequence of expressions.
pub open spec fn model_expressions(v: Seq<Expression>) -> Seq<SpecExpression>
    decreases v,
{
    Seq::new(
        v.len(),
        |i: int|
            if 0 <= i < v.len() {
                v[i].model()
            } else {
                SpecExpression::Other(Seq::empty())
            },
    )
}

/// The models of a sequence of fields.
pub open spec fn model_fields(v: Seq<Field>) -> Seq<SpecField>
    decreases v,
{
    Seq::new(
        v.len(),
        |i: int|
            if 0 <= i < v.len() {
                v[i].model()
            } else {
                SpecField::NoKey(SpecExpression::Other(Seq::empty()))
            },
    )
}

/// The models of a sequence of suffixes.
pub open spec fn model_suffixes(v: Seq<Suffix>) -> Seq<SpecSuffix>
    decreases v,
{
    Seq::new(
        v.len(),
        |i: int|
            if 0 <= i < v.len() {
                v[i].model()
            } else {
                SpecSuffix::Index(SpecIndex::Brackets(Box::new(SpecExpression::Other(Seq::empty()))))
            },
    )
}

/// The models of a sequence of variables.
pub open spec fn model_vars(v: Seq<Var>) -> Seq<SpecVar>
    decreases v,
{
    Seq::new(
        v.len(),
        |i: int|
            if 0 <= i < v.len() {
                v[i].model()
            } else {
                SpecVar::Expression(Box::new(SpecVarExpression { prefix: SpecPrefix::Expression(Box::new(SpecExpression::Other(Seq::empty()))), suffixes: Seq::empty() }))
            },
    )
}

/// The models of a sequence of statements.
pub open spec fn model_stmts(v: Seq<Stmt>) -> Seq<SpecStmt>
    decreases v,
{
    Seq::new(
        v.len(),
        |i: int|
            if 0 <= i < v.len() {
                v[i].model()
            } else {
                SpecStmt::Other(Seq::empty())
            },
    )
}

/// The models of a sequence of `elseif` parts.
pub open spec fn model_else_ifs(v: Seq<ElseIf>) -> Seq<SpecElseIf>
    decreases v,
{
    Seq::new(
        v.len(),
        |i: int|
            if 0 <= i < v.len() {
                v[i].model()
            } else {
                SpecElseIf {
                    condition: SpecExpression::Other(Seq::empty()),
                    block: SpecBlock {
                        stmts: Seq::empty(),
                        semicolons: Seq::empty(),
                        last_stmt: None,
                        last_semicolon: None,
                    },
                }
            },
    )
}

impl Expression {
    pub open spec fn model(&self) -> SpecExpression
        decreases self,
    {
        match self {
            Expression::BinaryOperator { lhs, binop, token, rhs } => SpecExpression::BinaryOperator {
                lhs: Box::new(lhs.model()),
                binop: *binop,
                token: token@,
                rhs: Box::new(rhs.model()),
            },
            Expression::Parentheses(e) => SpecExpression::Parentheses(Box::new(e.model())),
            Expression::UnaryOperator { unop, token, expression } => SpecExpression::UnaryOperator {
                unop: *unop,
                token: token@,
                expression: Box::new(expression.model()),
            },
            Expression::Function(body) => SpecExpression::Function(Box::new(body.model())),
            Expression::FunctionCall(call) => SpecExpression::FunctionCall(call.model()),
            Expression::TableConstructor(fields) => SpecExpression::TableConstructor(
                model_fields(fields@),
            ),
            Expression::Number(t) => SpecExpression::Number(t@),
            Expression::String(t) => SpecExpression::String(t@),
            Expression::Symbol(t) => SpecExpression::Symbol(t@),
            Expression::Var(v) => SpecExpression::Var(v.model()),
            Expression::Other(t) => SpecExpression::Other(t@),
        }
    }
}

impl FunctionBody {
    pub open spec fn model(&self) -> SpecFunctionBody
        decreases self,
    {
        SpecFunctionBody { parameters: model_tokens(self.parameters@), block: self.block.model() }
    }
}

impl FunctionCall {
    pub open spec fn model(&self) -> SpecFunctionCall
        decreases self,
    {
        SpecFunctionCall { prefix: self.prefix.model(), suffixes: model_suffixes(self.suffixes@) }
    }
}

impl Prefix {
    pub open spec fn model(&self) -> SpecPrefix
        decreases self,
    {
        match self {
            Prefix::Expression(e) => SpecPrefix::Expression(Box::new(e.model())),
            Prefix::Name(t) => SpecPrefix::Name(t@),
        }
    }
}

impl Suffix {
    pub open spec fn model(&self) -> SpecSuffix
        decreases self,
    {
        match self {
            Suffix::Call(c) => SpecSuffix::Call(c.model()),
            Suffix::Index(i) => SpecSuffix::Index(i.model()),
        }
    }
}

impl Index {
    pub open spec fn model(&self) -> SpecIndex
        decreases self,
    {
        match self {
            Index::Brackets(e) => SpecIndex::Brackets(Box::new(e.model())),
            Index::Dot(t) => SpecIndex::Dot(t@),
        }
    }
}

impl Call {
    pub open spec fn model(&self) -> SpecCall
        decreases self,
    {
        match self {
            Call::AnonymousCall(a) => SpecCall::AnonymousCall(a.model()),
            Call::MethodCall { name, args } => SpecCall::MethodCall {
                name: name@,
                args: args.model(),
            },
        }
    }
}

impl FunctionArgs {
    pub open spec fn model(&self) -> SpecFunctionArgs
        decreases self,
    {
        match self {
            FunctionArgs::Parentheses(v) => SpecFunctionArgs::Parentheses(model_expressions(v@)),
            FunctionArgs::String(t) => SpecFunctionArgs::String(t@),
            FunctionArgs::TableConstructor(f) => SpecFunctionArgs::TableConstructor(
                model_fields(f@),
            ),
        }
    }
}

impl Field {
    pub open spec fn model(&self) -> SpecField
        decreases self,
    {
        match self {
            Field::ExpressionKey { key, value } => SpecField::ExpressionKey {
                key: key.model(),
                value: value.model(),
            },
            Field::NameKey { key, value } => SpecField::NameKey { key: key@, value: value.model() },
            Field::NoKey(e) => SpecField::NoKey(e.model()),
        }
    }
}

impl VarExpression {
    pub open spec fn model(&self) -> SpecVarExpression
        decreases self,
    {
        SpecVarExpression { prefix: self.prefix.model(), suffixes: model_suffixes(self.suffixes@) }
    }
}

impl Var {
    pub open spec fn model(&self) -> SpecVar
        decreases self,
    {
        match self {
            Var::Expression(e) => SpecVar::Expression(Box::new(e.model())),
            Var::Name(t) => SpecVar::Name(t@),
        }
    }
}

impl Stmt {
    pub open spec fn model(&self) -> SpecStmt
        decreases self,
    {
        match self {
            Stmt::Assignment(x) => SpecStmt::Assignment(x.model()),
            Stmt::Do(b) => SpecStmt::Do(b.model()),
            Stmt::FunctionCall(c) => SpecStmt::FunctionCall(c.model()),
            Stmt::FunctionDeclaration(x) => SpecStmt::FunctionDeclaration(x.model()),
            Stmt::GenericFor(x) => SpecStmt::GenericFor(x.model()),
            Stmt::If(i) => SpecStmt::If(i.model()),
            Stmt::LocalAssignment(x) => SpecStmt::LocalAssignment(x.model()),
            Stmt::LocalFunction(x) => SpecStmt::LocalFunction(x.model()),
            Stmt::NumericFor(x) => SpecStmt::NumericFor(x.model()),
            Stmt::Repeat(x) => SpecStmt::Repeat(x.model()),
            Stmt::While(x) => SpecStmt::While(x.model()),
            Stmt::Other(t) => SpecStmt::Other(t@),
        }
    }
}

impl Assignment {
    pub open spec fn model(&self) -> SpecAssignment
        decreases self,
    {
        SpecAssignment {
            variables: model_vars(self.variables@),
            expressions: model_expressions(self.expressions@),
        }
    }
}

impl FunctionDeclaration {
    pub open spec fn model(&self) -> SpecFunctionDeclaration
        decreases self,
    {
        SpecFunctionDeclaration { name: self.name.model(), body: self.body.model() }
    }
}

impl GenericFor {
    pub open spec fn model(&self) -> SpecGenericFor
        decreases self,
    {
        SpecGenericFor {
            names: model_tokens(self.names@),
            expressions: model_expressions(self.expressions@),
            block: self.block.model(),
        }
    }
}

impl LocalAssignment {
    pub open spec fn model(&self) -> SpecLocalAssignment
        decreases self,
    {
        SpecLocalAssignment {
            names: model_tokens(self.names@),
            expressions: model_expressions(self.expressions@),
        }
    }
}

impl LocalFunction {
    pub open spec fn model(&self) -> SpecLocalFunction
        decreases self,
    {
        SpecLocalFunction { name: self.name@, body: self.body.model() }
    }
}

impl NumericFor {
    pub open spec fn model(&self) -> SpecNumericFor
        decreases self,
    {
        SpecNumericFor {
            index_variable: self.index_variable@,
            start: self.start.model(),
            end: self.end.model(),
            step: match &self.step {
                Some(e) => Some(e.model()),
                None => None,
            },
            block: self.block.model(),
        }
    }
}

impl Repeat {
    pub open spec fn model(&self) -> SpecRepeat
        decreases self,
    {
        SpecRepeat { block: self.block.model(), until: self.until.model() }
    }
}

impl While {
    pub open spec fn model(&self) -> SpecWhile
        decreases self,
    {
        SpecWhile { condition: self.condition.model(), block: self.block.model() }
    }
}

impl If {
    pub open spec fn model(&self) -> SpecIf
        decreases self,
    {
        SpecIf {
            condition: self.condition.model(),
            block: self.block.model(),
            else_if: match &self.else_if {
                Some(v) => Some(model_else_ifs(v@)),
                None => None,
            },
            else_block: match &self.else_block {
                Some(b) => Some(b.model()),
                None => None,
            },
        }
    }
}

impl ElseIf {
    pub open spec fn model(&self) -> SpecElseIf
        decreases self,
    {
        SpecElseIf { condition: self.condition.model(), block: self.block.model() }
    }
}

impl FunctionName {
    pub open spec fn model(&self) -> SpecFunctionName {
        SpecFunctionName {
            names: model_tokens(self.names@),
            dots: model_tokens(self.dots@),
            colon: model_option_token(self.colon),
            method_name: model_option_token(self.method_name),
        }
    }
}

impl Block {
    pub open spec fn model(&self) -> SpecBlock
        decreases self,
    {
        SpecBlock {
            stmts: model_stmts(self.stmts@),
            semicolons: model_semicolons(self.semicolons@),
            last_stmt: match &self.last_stmt {
                Some(l) => Some(l.model()),
                None => None,
            },
            last_semicolon: model_option_token(self.last_semicolon),
        }
    }
}

impl LastStmt {
    pub open spec fn model(&self) -> SpecLastStmt
        decreases self,
    {
        match self {
            LastStmt::Break => SpecLastStmt::Break,
            LastStmt::Continue => SpecLastStmt::Continue,
            LastStmt::Return(v) => SpecLastStmt::Return(model_expressions(v@)),
        }
    }
}

impl Ast {
    pub open spec fn model(&self) -> SpecAst {
        SpecAst { nodes: self.nodes.model() }
    }
}

impl View for Expression {
    type V = SpecExpression;

    open spec fn view(&self) -> SpecExpression {
        self.model()
    }
}

impl View for FunctionBody {
    type V = SpecFunctionBody;

    open spec fn view(&self) -> SpecFunctionBody {
        self.model()
    }
}

impl View for FunctionCall {
    type V = SpecFunctionCall;

    open spec fn view(&self) -> SpecFunctionCall {
        self.model()
    }
}

impl View for Prefix {
    type V = SpecPrefix;

    open spec fn view(&self) -> SpecPrefix {
        self.model()
    }
}

impl View for Suffix {
    type V = SpecSuffix;

    open spec fn view(&self) -> SpecSuffix {
        self.model()
    }
}

impl View for Index {
    type V = SpecIndex;

    open spec fn view(&self) -> SpecIndex {
        self.model()
    }
}

impl View for Call {
    type V = SpecCall;

    open spec fn view(&self) -> SpecCall {
        self.model()
    }
}

impl View for FunctionArgs {
    type V = SpecFunctionArgs;

    open spec fn view(&self) -> SpecFunctionArgs {
        self.model()
    }
}

impl View for Field {
    type V = SpecField;

    open spec fn view(&self) -> SpecField {
        self.model()
    }
}

impl View for VarExpression {
    type V = SpecVarExpression;

    open spec fn view(&self) -> SpecVarExpression {
        self.model()
    }
}

impl View for Var {
    type V = SpecVar;

    open spec fn view(&self) -> SpecVar {
        self.model()
    }
}

impl View for Stmt {
    type V = SpecStmt;

    open spec fn view(&self) -> SpecStmt {
        self.model()
    }
}

impl View for Assignment {
    type V = SpecAssignment;

    open spec fn view(&self) -> SpecAssignment {
        self.model()
    }
}

impl View for FunctionDeclaration {
    type V = SpecFunctionDeclaration;

    open spec fn view(&self) -> SpecFunctionDeclaration {
        self.model()
    }
}

impl View for GenericFor {
    type V = SpecGenericFor;

    open spec fn view(&self) -> SpecGenericFor {
        self.model()
    }
}

impl View for LocalAssignment {
    type V = SpecLocalAssignment;

    open spec fn view(&self) -> SpecLocalAssignment {
        self.model()
    }
}

impl View for LocalFunction {
    type V = SpecLocalFunction;

    open spec fn view(&self) -> SpecLocalFunction {
        self.model()
    }
}

impl View for NumericFor {
    type V = SpecNumericFor;

    open spec fn view(&self) -> SpecNumericFor {
        self.model()
    }
}

impl View for Repeat {
    type V = SpecRepeat;

    open spec fn view(&self) -> SpecRepeat {
        self.model()
    }
}

impl View for While {
    type V = SpecWhile;

    open spec fn view(&self) -> SpecWhile {
        self.model()
    }
}

impl View for If {
    type V = SpecIf;

    open spec fn view(&self) -> SpecIf {
        self.model()
    }
}

impl View for ElseIf {
    type V = SpecElseIf;

    open spec fn view(&self) -> SpecElseIf {
        self.model()
    }
}

impl View for FunctionName {
    type V = SpecFunctionName;

    open spec fn view(&self) -> SpecFunctionName {
        self.model()
    }
}

impl View for Block {
    type V = SpecBlock;

    open spec fn view(&self) -> SpecBlock {
        self.model()
    }
}

impl View for LastStmt {
    type V = SpecLastStmt;

    open spec fn view(&self) -> SpecLastStmt {
        self.model()
    }
}

impl View for Ast {
    type V = SpecAst;

    open spec fn view(&self) -> SpecAst {
        self.model()
    }
}


// ---------------------------------------------------------------------------
// Copies
// ---------------------------------------------------------------------------

impl Position {
    /// The position that new tokens are given: all zero.
    pub fn zero() -> (r: Position)
        ensures
            r == (Position { bytes: 0, line: 0, character: 0 }),
    {
        Position { bytes: 0, line: 0, character: 0 }
    }
}

impl Trivia {
    /// A copy of this piece of trivia.
    pub fn duplicate(&self) -> (r: Trivia)
        ensures
            r@ == self@,
    {
        Trivia { text: self.text.clone(), start: self.start, end: self.end }
    }
}

/// A copy of a sequence of trivia.
pub fn duplicate_trivia(v: &Vec<Trivia>) -> (r: Vec<Trivia>)
    ensures
        model_trivia(r@) == model_trivia(v@),
{
    let mut r: Vec<Trivia> = Vec::new();
    let mut i: usize = 0;
    while i < v.len()
        invariant
            i <= v.len(),
            r@.len() == i,
            forall|j: int| 0 <= j < i ==> r@[j]@ == v@[j]@,
        decreases v.len() - i,
    {
        r.push(v[i].duplicate());
        i = i + 1;
    }
    assert(model_trivia(r@) =~= model_trivia(v@));
    r
}

impl Token {
    /// A new token with the given text, no whitespace or comments around it,
    /// and the zero position.
    pub fn new(text: String) -> (r: Token)
        ensures
            r@ == (SpecToken {
                text: text@,
                leading: Seq::empty(),
                trailing: Seq::empty(),
                start: Position { bytes: 0, line: 0, character: 0 },
                end: Position { bytes: 0, line: 0, character: 0 },
            }),
    {
        let r = Token {
            text,
            leading: Vec::new(),
            trailing: Vec::new(),
            start: Position::zero(),
            end: Position::zero(),
        };
        assert(model_trivia(r.leading@) =~= Seq::<SpecTrivia>::empty());
        assert(model_trivia(r.trailing@) =~= Seq::<SpecTrivia>::empty());
        r
    }

    /// A copy of this token.
    pub fn duplicate(&self) -> (r: Token)
        ensures
            r@ == self@,
    {
        Token {
            text: self.text.clone(),
            leading: duplicate_trivia(&self.leading),
            trailing: duplicate_trivia(&self.trailing),
            start: self.start,
            end: self.end,
        }
    }
}

/// A copy of an optional token.
pub fn duplicate_option_token(t: &Option<Token>) -> (r: Option<Token>)
    ensures
        model_option_token(r) == model_option_token(*t),
{
    match t {
        Some(t) => Some(t.duplicate()),
        None => None,
    }
}

/// A copy of a sequence of tokens.
pub fn duplicate_tokens(v: &Vec<Token>) -> (r: Vec<Token>)
    ensures
        model_tokens(r@) == model_tokens(v@),
{
    let mut r: Vec<Token> = Vec::new();
    let mut i: usize = 0;
    while i < v.len()
        invariant
            i <= v.len(),
            r@.len() == i,
            forall|j: int| 0 <= j < i ==> r@[j]@ == v@[j]@,
        decreases v.len() - i,
    {
        r.push(v[i].duplicate());
        i = i + 1;
    }
    assert(model_tokens(r@) =~= model_tokens(v@));
    r
}

/// A copy of a sequence of optional tokens.
pub fn duplicate_semicolons(v: &Vec<Option<Token>>) -> (r: Vec<Option<Token>>)
    ensures
        model_semicolons(r@) == model_semicolons(v@),
{
    let mut r: Vec<Option<Token>> = Vec::new();
    let mut i: usize = 0;
    while i < v.len()
        invariant
            i <= v.len(),
            r@.len() == i,
            forall|j: int| 0 <= j < i ==> model_option_token(r@[j]) == model_option_token(v@[j]),
        decreases v.len() - i,
    {
        r.push(duplicate_option_token(&v[i]));
        i = i + 1;
    }
    assert(model_semicolons(r@) =~= model_semicolons(v@));
    r
}

/// A copy of a sequence of expressions.
pub fn duplicate_expressions(v: &Vec<Expression>) -> (r: Vec<Expression>)
    ensures
        model_expressions(r@) == model_expressions(v@),
    decreases v,
{
    let mut r: Vec<Expression> = Vec::new();
    let mut i: usize = 0;
    while i < v.len()
        invariant
            i <= v.len(),
            r@.len() == i,
            forall|j: int| 0 <= j < i ==> r@[j].model() == v@[j].model(),
        decreases v.len() - i,
    {
        r.push(v[i].duplicate());
        i = i + 1;
    }
    assert(model_expressions(r@) =~= model_expressions(v@));
    r
}

/// A copy of a sequence of fields.
pub fn duplicate_fields(v: &Vec<Field>) -> (r: Vec<Field>)
    ensures
        model_fields(r@) == model_fields(v@),
    decreases v,
{
    let mut r: Vec<Field> = Vec::new();
    let mut i: usize = 0;
    while i < v.len()
        invariant
            i <= v.len(),
            r@.len() == i,
            forall|j: int| 0 <= j < i ==> r@[j].model() == v@[j].model(),
        decreases v.len() - i,
    {
        r.push(v[i].duplicate());
        i = i + 1;
    }
    assert(model_fields(r@) =~= model_fields(v@));
    r
}

/// A copy of a sequence of suffixes.
pub fn duplicate_suffixes(v: &Vec<Suffix>) -> (r: Vec<Suffix>)
    ensures
        model_suffixes(r@) == model_suffixes(v@),
    decreases v,
{
    let mut r: Vec<Suffix> = Vec::new();
    let mut i: usize = 0;
    while i < v.len()
        invariant
            i <= v.len(),
            r@.len() == i,
            forall|j: int| 0 <= j < i ==> r@[j].model() == v@[j].model(),
        decreases v.len() - i,
    {
        r.push(v[i].duplicate());
        i = i + 1;
    }
    assert(model_suffixes(r@) =~= model_suffixes(v@));
    r
}

/// A copy of a sequence of variables.
pub fn duplicate_vars(v: &Vec<Var>) -> (r: Vec<Var>)
    ensures
        model_vars(r@) == model_vars(v@),
    decreases v,
{
    let mut r: Vec<Var> = Vec::new();
    let mut i: usize = 0;
    while i < v.len()
        invariant
            i <= v.len(),
            r@.len() == i,
            forall|j: int| 0 <= j < i ==> r@[j].model() == v@[j].model(),
        decreases v.len() - i,
    {
        r.push(v[i].duplicate());
        i = i + 1;
    }
    assert(model_vars(r@) =~= model_vars(v@));
    r
}

/// A copy of a sequence of statements.
pub fn duplicate_stmts(v: &Vec<Stmt>) -> (r: Vec<Stmt>)
    ensures
        model_stmts(r@) == model_stmts(v@),
    decreases v,
{
    let mut r: Vec<Stmt> = Vec::new();
    let mut i: usize = 0;
    while i < v.len()
        invariant
            i <= v.len(),
            r@.len() == i,
            forall|j: int| 0 <= j < i ==> r@[j].model() == v@[j].model(),
        decreases v.len() - i,
    {
        r.push(v[i].duplicate());
        i = i + 1;
    }
    assert(model_stmts(r@) =~= model_stmts(v@));
    r
}

/// A copy of a sequence of `elseif` parts.
#[verifier::spinoff_prover]
#[verifier::rlimit(100)]
pub fn duplicate_else_ifs(v: &Vec<ElseIf>) -> (r: Vec<ElseIf>)
    ensures
        model_else_ifs(r@) == model_else_ifs(v@),
    decreases v,
{
    let ghost mv = model_else_ifs(v@);
    let mut r: Vec<ElseIf> = Vec::new();
    let mut i: usize = 0;
    while i < v.len()
        invariant
            mv == model_else_ifs(v@),
            i <= v.len(),
            r@.len() == i,
            model_else_ifs(r@) =~= mv.subrange(0, i as int),
        decreases v.len() - i,
    {
        let ghost before = r@;
        let e = v[i].duplicate();
        assert(e@ == mv[i as int]);
        r.push(e);
        assert(model_else_ifs(r@) =~= model_else_ifs(before).push(e@));
        i = i + 1;
    }
    r
}

impl Expression {
    /// A copy of this expression.
    pub fn duplicate(&self) -> (r: Expression)
        ensures
            r@ == self@,
        decreases self,
    {
        match self {
            Expression::BinaryOperator { lhs, binop, token, rhs } => Expression::BinaryOperator {
                lhs: Box::new(lhs.duplicate()),
                binop: *binop,
                token: token.duplicate(),
                rhs: Box::new(rhs.duplicate()),
            },
            Expression::Parentheses(e) => Expression::Parentheses(Box::new(e.duplicate())),
            Expression::UnaryOperator { unop, token, expression } => Expression::UnaryOperator {
                unop: *unop,
                token: token.duplicate(),
                expression: Box::new(expression.duplicate()),
            },
            Expression::Function(body) => Expression::Function(Box::new(body.duplicate())),
            Expression::FunctionCall(call) => Expression::FunctionCall(call.duplicate()),
            Expression::TableConstructor(fields) => Expression::TableConstructor(
                duplicate_fields(fields),
            ),
            Expression::Number(t) => Expression::Number(t.duplicate()),
            Expression::String(t) => Expression::String(t.duplicate()),
            Expression::Symbol(t) => Expression::Symbol(t.duplicate()),
            Expression::Var(v) => Expression::Var(v.duplicate()),
            Expression::Other(t) => Expression::Other(t.clone()),
        }
    }
}

impl FunctionBody {
    /// A copy of this function body.
    pub fn duplicate(&self) -> (r: FunctionBody)
        ensures
            r@ == self@,
        decreases self,
    {
        FunctionBody {
            parameters: duplicate_tokens(&self.parameters),
            block: self.block.duplicate(),
        }
    }
}

impl FunctionCall {
    /// A copy of this call.
    pub fn duplicate(&self) -> (r: FunctionCall)
        ensures
            r@ == self@,
        decreases self,
    {
        FunctionCall { prefix: self.prefix.duplicate(), suffixes: duplicate_suffixes(&self.suffixes) }
    }
}

impl Prefix {
    /// A copy of this prefix.
    pub fn duplicate(&self) -> (r: Prefix)
        ensures
            r@ == self@,
        decreases self,
    {
        match self {
            Prefix::Expression(e) => Prefix::Expression(Box::new(e.duplicate())),
            Prefix::Name(t) => Prefix::Name(t.duplicate()),
        }
    }
}

impl Suffix {
    /// A copy of this suffix.
    pub fn duplicate(&self) -> (r: Suffix)
        ensures
            r@ == self@,
        decreases self,
    {
        match self {
            Suffix::Call(c) => Suffix::Call(c.duplicate()),
            Suffix::Index(i) => Suffix::Index(i.duplicate()),
        }
    }
}

impl Index {
    /// A copy of this index.
    pub fn duplicate(&self) -> (r: Index)
        ensures
            r@ == self@,
        decreases self,
    {
        match self {
            Index::Brackets(e) => Index::Brackets(Box::new(e.duplicate())),
            Index::Dot(t) => Index::Dot(t.duplicate()),
        }
    }
}

impl Call {
    /// A copy of this call suffix.
    pub fn duplicate(&self) -> (r: Call)
        ensures
            r@ == self@,
        decreases self,
    {
        match self {
            Call::AnonymousCall(a) => Call::AnonymousCall(a.duplicate()),
            Call::MethodCall { name, args } => Call::MethodCall {
                name: name.duplicate(),
                args: args.duplicate(),
            },
        }
    }
}

impl FunctionArgs {
    /// A copy of these arguments.
    pub fn duplicate(&self) -> (r: FunctionArgs)
        ensures
            r@ == self@,
        decreases self,
    {
        match self {
            FunctionArgs::Parentheses(v) => FunctionArgs::Parentheses(duplicate_expressions(v)),
            FunctionArgs::String(t) => FunctionArgs::String(t.duplicate()),
            FunctionArgs::TableConstructor(f) => FunctionArgs::TableConstructor(
                duplicate_fields(f),
            ),
        }
    }
}

impl Field {
    /// A copy of this field.
    pub fn duplicate(&self) -> (r: Field)
        ensures
            r@ == self@,
        decreases self,
    {
        match self {
            Field::ExpressionKey { key, value } => Field::ExpressionKey {
                key: key.duplicate(),
                value: value.duplicate(),
            },
            Field::NameKey { key, value } => Field::NameKey {
                key: key.duplicate(),
                value: value.duplicate(),
            },
            Field::NoKey(e) => Field::NoKey(e.duplicate()),
        }
    }
}

impl VarExpression {
    /// A copy of this path.
    pub fn duplicate(&self) -> (r: VarExpression)
        ensures
            r@ == self@,
        decreases self,
    {
        VarExpression {
            prefix: self.prefix.duplicate(),
            suffixes: duplicate_suffixes(&self.suffixes),
        }
    }
}

impl Var {
    /// A copy of this variable.
    pub fn duplicate(&self) -> (r: Var)
        ensures
            r@ == self@,
        decreases self,
    {
        match self {
            Var::Expression(e) => Var::Expression(Box::new(e.duplicate())),
            Var::Name(t) => Var::Name(t.duplicate()),
        }
    }
}

impl Stmt {
    /// A copy of this statement.
    pub fn duplicate(&self) -> (r: Stmt)
        ensures
            r@ == self@,
        decreases self,
    {
        match self {
            Stmt::Assignment(x) => Stmt::Assignment(x.duplicate()),
            Stmt::Do(b) => Stmt::Do(b.duplicate()),
            Stmt::FunctionCall(c) => Stmt::FunctionCall(c.duplicate()),
            Stmt::FunctionDeclaration(x) => Stmt::FunctionDeclaration(x.duplicate()),
            Stmt::GenericFor(x) => Stmt::GenericFor(x.duplicate()),
            Stmt::If(i) => Stmt::If(i.duplicate()),
            Stmt::LocalAssignment(x) => Stmt::LocalAssignment(x.duplicate()),
            Stmt::LocalFunction(x) => Stmt::LocalFunction(x.duplicate()),
            Stmt::NumericFor(x) => Stmt::NumericFor(x.duplicate()),
            Stmt::Repeat(x) => Stmt::Repeat(x.duplicate()),
            Stmt::While(x) => Stmt::While(x.duplicate()),
            Stmt::Other(t) => Stmt::Other(t.clone()),
        }
    }
}

impl Assignment {
    /// A copy of this assignment.
    pub fn duplicate(&self) -> (r: Assignment)
        ensures
            r@ == self@,
        decreases self,
    {
        Assignment {
            variables: duplicate_vars(&self.variables),
            expressions: duplicate_expressions(&self.expressions),
        }
    }
}

impl FunctionDeclaration {
    /// A copy of this declaration.
    pub fn duplicate(&self) -> (r: FunctionDeclaration)
        ensures
            r@ == self@,
        decreases self,
    {
        FunctionDeclaration { name: self.name.duplicate(), body: self.body.duplicate() }
    }
}

impl GenericFor {
    /// A copy of this loop.
    pub fn duplicate(&self) -> (r: GenericFor)
        ensures
            r@ == self@,
        decreases self,
    {
        GenericFor {
            names: duplicate_tokens(&self.names),
            expressions: duplicate_expressions(&self.expressions),
            block: self.block.duplicate(),
        }
    }
}

impl LocalAssignment {
    /// A copy of this local assignment.
    pub fn duplicate(&self) -> (r: LocalAssignment)
        ensures
            r@ == self@,
        decreases self,
    {
        LocalAssignment {
            names: duplicate_tokens(&self.names),
            expressions: duplicate_expressions(&self.expressions),
        }
    }
}

impl LocalFunction {
    /// A copy of this local function.
    pub fn duplicate(&self) -> (r: LocalFunction)
        ensures
            r@ == self@,
        decreases self,
    {
        LocalFunction { name: self.name.duplicate(), body: self.body.duplicate() }
    }
}

impl NumericFor {
    /// A copy of this loop.
    pub fn duplicate(&self) -> (r: NumericFor)
        ensures
            r@ == self@,
        decreases self,
    {
        let step = match &self.step {
            Some(e) => Some(e.duplicate()),
            None => None,
        };
        NumericFor {
            index_variable: self.index_variable.duplicate(),
            start: self.start.duplicate(),
            end: self.end.duplicate(),
            step,
            block: self.block.duplicate(),
        }
    }
}

impl Repeat {
    /// A copy of this loop.
    pub fn duplicate(&self) -> (r: Repeat)
        ensures
            r@ == self@,
        decreases self,
    {
        Repeat { block: self.block.duplicate(), until: self.until.duplicate() }
    }
}

impl While {
    /// A copy of this loop.
    pub fn duplicate(&self) -> (r: While)
        ensures
            r@ == self@,
        decreases self,
    {
        While { condition: self.condition.duplicate(), block: self.block.duplicate() }
    }
}

impl If {
    /// A copy of this `if` statement.
    pub fn duplicate(&self) -> (r: If)
        ensures
            r@ == self@,
        decreases self,
    {
        let else_if = match &self.else_if {
            Some(v) => Some(duplicate_else_ifs(v)),
            None => None,
        };
        let else_block = match &self.else_block {
            Some(b) => Some(b.duplicate()),
            None => None,
        };
        If {
            condition: self.condition.duplicate(),
            block: self.block.duplicate(),
            else_if,
            else_block,
        }
    }
}

impl ElseIf {
    /// A copy of this `elseif` part.
    pub fn duplicate(&self) -> (r: ElseIf)
        ensures
            r@ == self@,
        decreases self,
    {
        ElseIf { condition: self.condition.duplicate(), block: self.block.duplicate() }
    }
}

impl FunctionName {
    /// A copy of this function name.
    pub fn duplicate(&self) -> (r: FunctionName)
        ensures
            r@ == self@,
    {
        FunctionName {
            names: duplicate_tokens(&self.names),
            dots: duplicate_tokens(&self.dots),
            colon: duplicate_option_token(&self.colon),
            method_name: duplicate_option_token(&self.method_name),
        }
    }
}

impl Block {
    /// A copy of this block.
    pub fn duplicate(&self) -> (r: Block)
        ensures
            r@ == self@,
        decreases self,
    {
        let last_stmt = match &self.last_stmt {
            Some(l) => Some(l.duplicate()),
            None => None,
        };
        Block {
            stmts: duplicate_stmts(&self.stmts),
            semicolons: duplicate_semicolons(&self.semicolons),
            last_stmt,
            last_semicolon: duplicate_option_token(&self.last_semicolon),
        }
    }
}

impl LastStmt {
    /// A copy of this last statement.
    pub fn duplicate(&self) -> (r: LastStmt)
        ensures
            r@ == self@,
        decreases self,
    {
        match self {
            LastStmt::Break => LastStmt::Break,
            LastStmt::Continue => LastStmt::Continue,
            LastStmt::Return(v) => LastStmt::Return(duplicate_expressions(v)),
        }
    }
}

} // verus!
