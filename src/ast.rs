//! The source language's syntax tree, as the parser hands it over.
//!
//! Every node is plain data: the compilers only read it.
//!
//! Blocks are the only value-producing compound expressions. Conditional and
//! loop expressions are not part of the tree: how either emitter should
//! lower them in value position is left open, so neither accepts them.
use vstd::prelude::*;

verus! {

/// A name, as written in the source.
#[derive(Debug)]
pub struct Identifier(pub String);

/// A literal value; number and string literals keep their source text.
#[derive(Debug)]
pub enum Literal {
    NumberLiteral(String),
    StringLiteral(String),
    BooleanLiteral(bool),
}

#[derive(Clone, Copy, Debug, PartialEq, Eq)]
pub enum UnaryOperator {
    Not,
    Minus,
    Plus,
}

#[derive(Clone, Copy, Debug, PartialEq, Eq)]
pub enum InfixOperator {
    Equal,
    NotEqual,
    GreaterThan,
    LessThan,
    GreaterThanEqual,
    LessThanEqual,
    Plus,
    Minus,
    Multiply,
    Divide,
    Modulo,
}

#[derive(Debug)]
pub enum Expression {
    IdentifierExpression(Identifier),
    LiteralExpression(Literal),
    UnaryExpression(UnaryOperator, Box<Expression>),
    InfixExpression(InfixOperator, Box<Expression>, Box<Expression>),
    ArrayExpression(Vec<Expression>),
    CallExpression(Box<Expression>, Vec<Expression>),
    MemberAccessExpression(Box<Expression>, Identifier),
    IndexExpression(Box<Expression>, Box<Expression>),
    BlockExpression(Box<Block>),
}

/// A block expression: statements run in order, then `return_value`
/// gives the value of the whole block.
#[derive(Debug)]
pub struct Block {
    pub statements: Vec<Statement>,
    pub return_value: Option<Expression>,
}

/// A function parameter; its declared type is kept but never emitted.
#[derive(Debug)]
pub struct Parameter {
    pub name: Identifier,
    pub type_: Identifier,
}

#[derive(Debug)]
pub enum Declaration {
    ConstDeclaration(Identifier, Expression),
    LetDeclaration(Identifier, Expression),
    FunctionDeclaration { name: Identifier, parameters: Vec<Parameter>, body: Block },
}

#[derive(Debug)]
pub enum Statement {
    ExpressionStatement { expression: Expression, has_semicolon: bool },
    DeclarationStatement(Declaration),
}

/// A program is its top-level statements, in source order.
pub type Program = Vec<Statement>;

} // verus!
