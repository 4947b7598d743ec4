//! A JavaScript syntax tree, the structural emitter's output.
//!
//! Nodes carry no source positions. A printer for JavaScript renders the tree
//! to text; calls and array literals take the same element type here, the
//! printer's tree tells arguments and array elements apart.
use vstd::prelude::*;

verus! {

#[derive(Clone, Copy, Debug, PartialEq, Eq)]
pub enum JsUnaryOperator {
    LogicalNot,
    UnaryNegation,
    UnaryPlus,
}

#[derive(Clone, Copy, Debug, PartialEq, Eq)]
pub enum JsBinaryOperator {
    Equality,
    Inequality,
    GreaterThan,
    LessThan,
    GreaterEqualThan,
    LessEqualThan,
    Addition,
    Subtraction,
    Multiplication,
    Division,
    Remainder,
}

#[derive(Clone, Copy, Debug, PartialEq, Eq)]
pub enum VariableDeclarationKind {
    Const,
    Let,
}

#[derive(Debug)]
pub enum JsExpression {
    Identifier(String),
    /// A number, kept as its source text.
    NumericLiteral(String),
    StringLiteral(String),
    BooleanLiteral(bool),
    Unary(JsUnaryOperator, Box<JsExpression>),
    Binary(JsBinaryOperator, Box<JsExpression>, Box<JsExpression>),
    Array(Vec<JsExpression>),
    Call(Box<JsExpression>, Vec<JsExpression>),
    StaticMember(Box<JsExpression>, String),
    ComputedMember(Box<JsExpression>, Box<JsExpression>),
    /// An arrow function whose body is a list of statements.
    ArrowFunction { params: Vec<String>, body: Vec<JsStatement> },
}

#[derive(Debug)]
pub enum JsStatement {
    Expression(JsExpression),
    VariableDeclaration(VariableDeclarationKind, String, JsExpression),
    FunctionDeclaration { name: String, params: Vec<String>, body: Vec<JsStatement> },
    Return(JsExpression),
}

/// `t` calls, with no arguments, an arrow function without parameters whose
/// body is `body`.
pub open spec fn is_iife(t: JsExpression, body: Seq<JsStatement>) -> bool {
    match t {
        JsExpression::Call(callee, args) => args@.len() == 0 && match *callee {
            JsExpression::ArrowFunction { params, body: b } => params@.len() == 0 && b@ == body,
            _ => false,
        },
        _ => false,
    }
}

/// An immediately invoked arrow function: `(() => { body })()`.
pub fn iife(body: Vec<JsStatement>) -> (r: JsExpression)
    ensures
        is_iife(r, body@),
{
    let function = JsExpression::ArrowFunction { params: Vec::new(), body };
    JsExpression::Call(Box::new(function), Vec::new())
}

} // verus!
