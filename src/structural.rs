//! The structural emitter: lowers the syntax tree into a JavaScript syntax
//! tree instead of text.
//!
//! A block used as an expression becomes an immediately invoked arrow
//! function whose body runs the statements and returns the block's value. A
//! function body gets a real `return` of its value.
use crate::ast::{
    Block, Declaration, Expression, InfixOperator, Literal, Parameter, Program, Statement,
    UnaryOperator,
};
use crate::target::{
    iife, is_iife, JsBinaryOperator, JsExpression, JsStatement, JsUnaryOperator,
    VariableDeclarationKind,
};
use vstd::prelude::*;

verus! {

pub open spec fn js_unary(op: UnaryOperator) -> JsUnaryOperator {
    match op {
        UnaryOperator::Not => JsUnaryOperator::LogicalNot,
        UnaryOperator::Minus => JsUnaryOperator::UnaryNegation,
        UnaryOperator::Plus => JsUnaryOperator::UnaryPlus,
    }
}

pub open spec fn js_binary(op: InfixOperator) -> JsBinaryOperator {
    match op {
        InfixOperator::Equal => JsBinaryOperator::Equality,
        InfixOperator::NotEqual => JsBinaryOperator::Inequality,
        InfixOperator::GreaterThan => JsBinaryOperator::GreaterThan,
        InfixOperator::LessThan => JsBinaryOperator::LessThan,
        InfixOperator::GreaterThanEqual => JsBinaryOperator::GreaterEqualThan,
        InfixOperator::LessThanEqual => JsBinaryOperator::LessEqualThan,
        InfixOperator::Plus => JsBinaryOperator::Addition,
        InfixOperator::Minus => JsBinaryOperator::Subtraction,
        InfixOperator::Multiply => JsBinaryOperator::Multiplication,
        InfixOperator::Divide => JsBinaryOperator::Division,
        InfixOperator::Modulo => JsBinaryOperator::Remainder,
    }
}

/// The body of the arrow function that `t` calls, if `t` is such a call.
pub open spec fn iife_body(t: JsExpression) -> Seq<JsStatement> {
    match t {
        JsExpression::Call(callee, _) => match *callee {
            JsExpression::ArrowFunction { body, .. } => body@,
            _ => Seq::empty(),
        },
        _ => Seq::empty(),
    }
}

pub open spec fn lowers_literal(l: Literal, t: JsExpression) -> bool {
    match l {
        Literal::NumberLiteral(n) => t matches JsExpression::NumericLiteral(x) && x@ == n@,
        Literal::StringLiteral(s) => t matches JsExpression::StringLiteral(x) && x@ == s@,
        Literal::BooleanLiteral(b) => t matches JsExpression::BooleanLiteral(x) && x == b,
    }
}

/// `t` is the lowering of `e`.
pub open spec fn lowers_expr(e: Expression, t: JsExpression) -> bool
    decreases e,
{
    match e {
        Expression::IdentifierExpression(id) => t matches JsExpression::Identifier(n) && n@
            == id.0@,
        Expression::LiteralExpression(l) => lowers_literal(l, t),
        Expression::UnaryExpression(op, arg) => match t {
            JsExpression::Unary(top, targ) => top == js_unary(op) && lowers_expr(*arg, *targ),
            _ => false,
        },
        Expression::InfixExpression(op, l, r) => match t {
            JsExpression::Binary(top, tl, tr) => top == js_binary(op) && lowers_expr(*l, *tl)
                && lowers_expr(*r, *tr),
            _ => false,
        },
        Expression::ArrayExpression(es) => match t {
            JsExpression::Array(ts) => lowers_exprs(es@, ts@),
            _ => false,
        },
        Expression::CallExpression(f, args) => match t {
            JsExpression::Call(tf, targs) => lowers_expr(*f, *tf) && lowers_exprs(args@, targs@),
            _ => false,
        },
        Expression::MemberAccessExpression(o, id) => match t {
            JsExpression::StaticMember(to, n) => lowers_expr(*o, *to) && n@ == id.0@,
            _ => false,
        },
        Expression::IndexExpression(o, i) => match t {
            JsExpression::ComputedMember(to, ti) => lowers_expr(*o, *to) && lowers_expr(*i, *ti),
            _ => false,
        },
        Expression::BlockExpression(b) => is_iife(t, iife_body(t)) && lowers_body(
            *b,
            iife_body(t),
        ),
    }
}

/// `ts` lowers `es`, element by element.
pub open spec fn lowers_exprs(es: Seq<Expression>, ts: Seq<JsExpression>) -> bool
    decreases es,
{
    es.len() == ts.len() && (es.len() > 0 ==> lowers_exprs(
        es.subrange(0, es.len() - 1),
        ts.subrange(0, ts.len() - 1),
    ) && lowers_expr(es[es.len() - 1], ts[ts.len() - 1]))
}

/// `body` runs the lowered statements of `b`, then returns its value, if it
/// has one.
pub open spec fn lowers_body(b: Block, body: Seq<JsStatement>) -> bool
    decreases b,
{
    let n = b.statements.len() as int;
    match b.return_value {
        Some(v) => body.len() == n + 1 && lowers_stmts(b.statements@, body.subrange(0, n))
            && match body[n] {
            JsStatement::Return(rt) => lowers_expr(v, rt),
            _ => false,
        },
        None => lowers_stmts(b.statements@, body),
    }
}

pub open spec fn lowers_stmt(s: Statement, t: JsStatement) -> bool
    decreases s,
{
    match s {
        Statement::ExpressionStatement { expression, .. } => match t {
            JsStatement::Expression(te) => lowers_expr(expression, te),
            _ => false,
        },
        Statement::DeclarationStatement(d) => lowers_decl(d, t),
    }
}

/// `ts` lowers `ss`, statement by statement, in order.
pub open spec fn lowers_stmts(ss: Seq<Statement>, ts: Seq<JsStatement>) -> bool
    decreases ss,
{
    ss.len() == ts.len() && (ss.len() > 0 ==> lowers_stmts(
        ss.subrange(0, ss.len() - 1),
        ts.subrange(0, ts.len() - 1),
    ) && lowers_stmt(ss[ss.len() - 1], ts[ts.len() - 1]))
}

pub open spec fn lowers_decl(d: Declaration, t: JsStatement) -> bool
    decreases d,
{
    match d {
        Declaration::ConstDeclaration(id, e) => match t {
            JsStatement::VariableDeclaration(k, n, te) => k == VariableDeclarationKind::Const
                && n@ == id.0@ && lowers_expr(e, te),
            _ => false,
        },
        Declaration::LetDeclaration(id, e) => match t {
            JsStatement::VariableDeclaration(k, n, te) => k == VariableDeclarationKind::Let
                && n@ == id.0@ && lowers_expr(e, te),
            _ => false,
        },
        Declaration::FunctionDeclaration { name, parameters, body } => match t {
            JsStatement::FunctionDeclaration { name: n, params, body: tb } => n@ == name.0@
                && parameter_names(parameters@, params@) && lowers_body(body, tb@),
            _ => false,
        },
    }
}

/// `names` are the names of `ps`, in order; the declared types are erased.
pub open spec fn parameter_names(ps: Seq<Parameter>, names: Seq<String>) -> bool {
    ps.len() == names.len() && forall|i: int| 0 <= i < ps.len() ==> #[trigger] names[i]@ == ps[i].name.0@
}

impl UnaryOperator {
    pub fn to_js(&self) -> (r: JsUnaryOperator)
        ensures
            r == js_unary(*self),
    {
        match self {
            UnaryOperator::Not => JsUnaryOperator::LogicalNot,
            UnaryOperator::Minus => JsUnaryOperator::UnaryNegation,
            UnaryOperator::Plus => JsUnaryOperator::UnaryPlus,
        }
    }
}

impl InfixOperator {
    pub fn to_js(&self) -> (r: JsBinaryOperator)
        ensures
            r == js_binary(*self),
    {
        match self {
            InfixOperator::Equal => JsBinaryOperator::Equality,
            InfixOperator::NotEqual => JsBinaryOperator::Inequality,
            InfixOperator::GreaterThan => JsBinaryOperator::GreaterThan,
            InfixOperator::LessThan => JsBinaryOperator::LessThan,
            InfixOperator::GreaterThanEqual => JsBinaryOperator::GreaterEqualThan,
            InfixOperator::LessThanEqual => JsBinaryOperator::LessEqualThan,
            InfixOperator::Plus => JsBinaryOperator::Addition,
            InfixOperator::Minus => JsBinaryOperator::Subtraction,
            InfixOperator::Multiply => JsBinaryOperator::Multiplication,
            InfixOperator::Divide => JsBinaryOperator::Division,
            InfixOperator::Modulo => JsBinaryOperator::Remainder,
        }
    }
}

impl Literal {
    pub fn to_js(&self) -> (r: JsExpression)
        ensures
            lowers_literal(*self, r),
    {
        match self {
            Literal::NumberLiteral(n) => JsExpression::NumericLiteral(n.clone()),
            Literal::StringLiteral(s) => JsExpression::StringLiteral(s.clone()),
            Literal::BooleanLiteral(b) => JsExpression::BooleanLiteral(*b),
        }
    }
}

/// Lowers a list of expressions (array elements or call arguments), in
/// order.
pub fn expressions_to_js(expressions: &Vec<Expression>) -> (r: Vec<JsExpression>)
    ensures
        lowers_exprs(expressions@, r@),
    decreases expressions,
{
    let mut out: Vec<JsExpression> = Vec::new();
    let mut i: usize = 0;
    while i < expressions.len()
        invariant
            i <= expressions.len(),
            lowers_exprs(expressions@.subrange(0, i as int), out@),
        decreases expressions.len() - i,
    {
        let t = expressions[i].to_js();
        let ghost before = out@;
        out.push(t);
        proof {
            assert(expressions@.subrange(0, i + 1).subrange(0, i as int)
                =~= expressions@.subrange(0, i as int));
            assert(out@.subrange(0, i as int) =~= before);
        }
        i = i + 1;
    }
    assert(expressions@.subrange(0, i as int) =~= expressions@);
    out
}

/// Lowers a sequence of statements, in order.
pub fn statements_to_js(statements: &Vec<Statement>) -> (r: Vec<JsStatement>)
    ensures
        lowers_stmts(statements@, r@),
    decreases statements,
{
    let mut out: Vec<JsStatement> = Vec::new();
    let mut i: usize = 0;
    while i < statements.len()
        invariant
            i <= statements.len(),
            lowers_stmts(statements@.subrange(0, i as int), out@),
        decreases statements.len() - i,
    {
        let t = statements[i].to_js();
        let ghost before = out@;
        out.push(t);
        proof {
            assert(statements@.subrange(0, i + 1).subrange(0, i as int)
                =~= statements@.subrange(0, i as int));
            assert(out@.subrange(0, i as int) =~= before);
        }
        i = i + 1;
    }
    assert(statements@.subrange(0, i as int) =~= statements@);
    out
}

/// The parameter names of a function; the declared types are erased.
pub fn parameters_to_js(parameters: &Vec<Parameter>) -> (r: Vec<String>)
    ensures
        parameter_names(parameters@, r@),
{
    let mut out: Vec<String> = Vec::new();
    let mut i: usize = 0;
    while i < parameters.len()
        invariant
            i <= parameters.len(),
            out@.len() == i,
            forall|j: int| 0 <= j < i ==> #[trigger] out@[j]@ == parameters@[j].name.0@,
        decreases parameters.len() - i,
    {
        out.push(parameters[i].name.0.clone());
        i = i + 1;
    }
    out
}

impl Block {
    /// The block as a function body: its statements, then a `return` of its
    /// value, if it has one.
    pub fn to_js_body(&self) -> (r: Vec<JsStatement>)
        ensures
            lowers_body(*self, r@),
        decreases self,
    {
        let mut body = statements_to_js(&self.statements);
        match &self.return_value {
            Some(v) => {
                let t = v.to_js();
                let ghost before = body@;
                body.push(JsStatement::Return(t));
                assert(body@.subrange(0, self.statements.len() as int) =~= before);
            },
            None => {},
        }
        body
    }
}

impl Expression {
    pub fn to_js(&self) -> (r: JsExpression)
        ensures
            lowers_expr(*self, r),
        decreases self,
    {
        match self {
            Expression::IdentifierExpression(ident) => JsExpression::Identifier(ident.0.clone()),
            Expression::LiteralExpression(literal) => literal.to_js(),
            Expression::UnaryExpression(op, arg) => JsExpression::Unary(
                op.to_js(),
                Box::new(arg.to_js()),
            ),
            Expression::InfixExpression(op, left, right) => {
                let left = left.to_js();
                let right = right.to_js();
                JsExpression::Binary(op.to_js(), Box::new(left), Box::new(right))
            },
            Expression::ArrayExpression(exprs) => JsExpression::Array(expressions_to_js(exprs)),
            Expression::CallExpression(callee, args) => {
                let callee = callee.to_js();
                JsExpression::Call(Box::new(callee), expressions_to_js(args))
            },
            Expression::MemberAccessExpression(expr, ident) => JsExpression::StaticMember(
                Box::new(expr.to_js()),
                ident.0.clone(),
            ),
            Expression::IndexExpression(expr, index) => {
                let expr = expr.to_js();
                let index = index.to_js();
                JsExpression::ComputedMember(Box::new(expr), Box::new(index))
            },
            Expression::BlockExpression(block) => {
                let body = block.to_js_body();
                let ghost b = body@;
                let r = iife(body);
                assert(iife_body(r) == b);
                r
            },
        }
    }
}

impl Declaration {
    pub fn to_js(&self) -> (r: JsStatement)
        ensures
            lowers_decl(*self, r),
        decreases self,
    {
        match self {
            Declaration::ConstDeclaration(ident, expr) => JsStatement::VariableDeclaration(
                VariableDeclarationKind::Const,
                ident.0.clone(),
                expr.to_js(),
            ),
            Declaration::LetDeclaration(ident, expr) => JsStatement::VariableDeclaration(
                VariableDeclarationKind::Let,
                ident.0.clone(),
                expr.to_js(),
            ),
            Declaration::FunctionDeclaration { name, parameters, body } => {
                let params = parameters_to_js(parameters);
                let body = body.to_js_body();
                JsStatement::FunctionDeclaration { name: name.0.clone(), params, body }
            },
        }
    }
}

impl Statement {
    pub fn to_js(&self) -> (r: JsStatement)
        ensures
            lowers_stmt(*self, r),
        decreases self,
    {
        match self {
            Statement::ExpressionStatement { expression, .. } => JsStatement::Expression(
                expression.to_js(),
            ),
            Statement::DeclarationStatement(declaration) => declaration.to_js(),
        }
    }
}

/// Lowers a whole program: one JavaScript statement per source statement,
/// in source order.
pub fn program_to_js(program: &Program) -> (r: Vec<JsStatement>)
    ensures
        lowers_stmts(program@, r@),
{
    statements_to_js(program)
}

} // verus!
