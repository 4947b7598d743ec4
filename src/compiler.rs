//! The textual emitter: compiles the syntax tree straight into JavaScript
//! source text.
//!
//! Every node compiles to a [`JavascriptCompilationOutput`]: the code, whether
//! a `;` may follow it, and, for a block with statements, the text of the
//! value the block evaluates to. A block is only turned into statements
//! (a hoisted `return_value` variable and a brace group) where it is used,
//! by [`build_block`].
use crate::ast::{
    Block, Declaration, Expression, InfixOperator, Literal, Parameter, Program, Statement,
    UnaryOperator,
};
use vstd::prelude::*;

verus! {

/// What a compiled node stands for, in mathematical terms.
pub struct OutputModel {
    pub code: Seq<char>,
    pub semicolon_allowed: bool,
    pub is_block: bool,
    pub evaluates_to: Option<Seq<char>>,
}

/// The result of compiling one node.
pub struct JavascriptCompilationOutput {
    pub code: String,
    pub semicolon_allowed: bool,
    pub is_block: bool,
    pub evaluates_to: Option<String>,
}

impl View for JavascriptCompilationOutput {
    type V = OutputModel;

    open spec fn view(&self) -> OutputModel {
        OutputModel {
            code: self.code@,
            semicolon_allowed: self.semicolon_allowed,
            is_block: self.is_block,
            evaluates_to: match self.evaluates_to {
                Some(v) => Some(v@),
                None => None,
            },
        }
    }
}

/// A single-line fragment that is no block.
pub open spec fn plain(code: Seq<char>, semicolon_allowed: bool) -> OutputModel {
    OutputModel { code, semicolon_allowed, is_block: false, evaluates_to: None }
}

pub open spec fn literal_model(l: Literal) -> OutputModel {
    match l {
        Literal::NumberLiteral(n) => plain(n@, true),
        Literal::StringLiteral(s) => plain("\""@ + s@ + "\""@, true),
        Literal::BooleanLiteral(b) => plain(
            if b {
                "true"@
            } else {
                "false"@
            },
            true,
        ),
    }
}

pub open spec fn unary_text(op: UnaryOperator) -> Seq<char> {
    match op {
        UnaryOperator::Not => "!"@,
        UnaryOperator::Minus => "-"@,
        UnaryOperator::Plus => "+"@,
    }
}

pub open spec fn infix_text(op: InfixOperator) -> Seq<char> {
    match op {
        InfixOperator::Equal => "=="@,
        InfixOperator::NotEqual => "!="@,
        InfixOperator::GreaterThan => ">"@,
        InfixOperator::LessThan => "<"@,
        InfixOperator::GreaterThanEqual => ">="@,
        InfixOperator::LessThanEqual => "<="@,
        InfixOperator::Plus => "+"@,
        InfixOperator::Minus => "-"@,
        InfixOperator::Multiply => "*"@,
        InfixOperator::Divide => "/"@,
        InfixOperator::Modulo => "%"@,
    }
}

/// The text of a block that yields `value`: a hoisted variable, then a brace
/// group that runs `code` and assigns the value to it.
pub open spec fn hoisted(code: Seq<char>, value: Seq<char>) -> Seq<char> {
    "let return_value = undefined;\n{\n"@ + code + "return_value = "@ + value + ";\n}"@
}

/// Turns a compiled node into text that can stand on its own. A block with a
/// value is hoisted; where `eval` holds, the text then ends in the variable,
/// so that it can be used as a value.
pub open spec fn materialized(o: OutputModel, eval: bool) -> Seq<char> {
    if o.is_block && o.evaluates_to is Some {
        hoisted(o.code, o.evaluates_to->0) + if eval {
            ";\nreturn_value"@
        } else {
            Seq::empty()
        }
    } else {
        o.code
    }
}

pub open spec fn terminator(semicolon_allowed: bool) -> Seq<char> {
    if semicolon_allowed {
        ";"@
    } else {
        Seq::empty()
    }
}

pub open spec fn expr_model(e: Expression) -> OutputModel
    decreases e,
{
    match e {
        Expression::IdentifierExpression(id) => plain(id.0@, true),
        Expression::LiteralExpression(l) => literal_model(l),
        Expression::UnaryExpression(op, arg) => plain(
            unary_text(op) + expr_model(*arg).code,
            expr_model(*arg).semicolon_allowed,
        ),
        Expression::InfixExpression(op, l, r) => plain(
            expr_model(*l).code + " "@ + infix_text(op) + " "@ + expr_model(*r).code,
            expr_model(*r).semicolon_allowed,
        ),
        Expression::ArrayExpression(es) => plain("["@ + expr_list_code(es@) + "]"@, true),
        Expression::CallExpression(f, args) => plain(
            expr_model(*f).code + "("@ + expr_list_code(args@) + ")"@,
            true,
        ),
        Expression::MemberAccessExpression(o, id) => plain(
            expr_model(*o).code + "."@ + id.0@,
            true,
        ),
        Expression::IndexExpression(o, i) => plain(
            materialized(expr_model(*o), true) + "["@ + expr_model(*i).code + "]"@,
            true,
        ),
        Expression::BlockExpression(b) => if b.statements.len() == 0 {
            plain(
                "let return_value = "@ + match b.return_value {
                    Some(v) => expr_model(v).code,
                    None => "undefined"@,
                } + ";"@,
                false,
            )
        } else {
            OutputModel {
                code: statements_code(b.statements@),
                semicolon_allowed: false,
                is_block: true,
                evaluates_to: match b.return_value {
                    Some(v) => Some(expr_model(v).code),
                    None => None,
                },
            }
        },
    }
}

/// The codes of `es`, separated by `", "`.
pub open spec fn expr_list_code(es: Seq<Expression>) -> Seq<char>
    decreases es,
{
    if es.len() == 0 {
        Seq::empty()
    } else if es.len() == 1 {
        expr_model(es[0]).code
    } else {
        expr_list_code(es.subrange(0, es.len() - 1)) + ", "@ + expr_model(es[es.len() - 1]).code
    }
}

/// What a statement compiles to before it is terminated.
pub open spec fn statement_inner(s: Statement) -> OutputModel {
    match s {
        Statement::ExpressionStatement { expression, .. } => expr_model(expression),
        Statement::DeclarationStatement(d) => decl_model(d),
    }
}

/// A compiled node as a statement: its materialized code, a `;` where
/// allowed, a newline.
pub open spec fn terminated(o: OutputModel) -> Seq<char> {
    materialized(o, false) + terminator(o.semicolon_allowed) + "\n"@
}

pub open spec fn statement_code(s: Statement) -> Seq<char>
    decreases s,
{
    match s {
        Statement::ExpressionStatement { expression, .. } => terminated(expr_model(expression)),
        Statement::DeclarationStatement(d) => terminated(decl_model(d)),
    }
}

/// The texts of `ss`, one after the other.
pub open spec fn statements_code(ss: Seq<Statement>) -> Seq<char>
    decreases ss,
{
    if ss.len() == 0 {
        Seq::empty()
    } else {
        statements_code(ss.subrange(0, ss.len() - 1)) + statement_code(ss[ss.len() - 1])
    }
}

pub open spec fn decl_model(d: Declaration) -> OutputModel
    decreases d,
{
    match d {
        Declaration::ConstDeclaration(id, e) => plain(
            "const "@ + id.0@ + " = "@ + expr_model(e).code + ";"@,
            false,
        ),
        Declaration::LetDeclaration(id, e) => plain(
            "let "@ + id.0@ + " = "@ + expr_model(e).code + ";"@,
            false,
        ),
        Declaration::FunctionDeclaration { name, parameters, body } => plain(
            "function "@ + name.0@ + "("@ + parameters_code(parameters@) + ") "@ + body_code(body),
            false,
        ),
    }
}

/// A function body: its statements in braces, ending in a real `return`
/// where the block has a value.
pub open spec fn body_code(b: Block) -> Seq<char>
    decreases b,
{
    "{\n"@ + statements_code(b.statements@) + match b.return_value {
        Some(v) => "return "@ + expr_model(v).code + ";\n"@,
        None => Seq::empty(),
    } + "}"@
}

/// The parameter names of `ps`, separated by `", "`; their types are erased.
pub open spec fn parameters_code(ps: Seq<Parameter>) -> Seq<char>
    decreases ps.len(),
{
    if ps.len() == 0 {
        Seq::empty()
    } else if ps.len() == 1 {
        ps[0].name.0@
    } else {
        parameters_code(ps.subrange(0, ps.len() - 1)) + ", "@ + ps[ps.len() - 1].name.0@
    }
}

impl JavascriptCompilationOutput {
    /// A fragment that is only code: no `;` after it, no block.
    pub fn from_code(value: &str) -> (r: JavascriptCompilationOutput)
        ensures
            r@ == plain(value@, false),
    {
        JavascriptCompilationOutput {
            code: String::from_str(value),
            semicolon_allowed: false,
            is_block: false,
            evaluates_to: None,
        }
    }
}

/// Applies the block-materialization rule to a compiled node.
pub fn build_block(block_output: &JavascriptCompilationOutput, eval: bool) -> (r: String)
    ensures
        r@ == materialized(block_output@, eval),
{
    if block_output.is_block {
        match &block_output.evaluates_to {
            Some(evaluates_to) => {
                let mut code = String::from_str("let return_value = undefined;\n{\n");
                code.append(block_output.code.as_str());
                code.append("return_value = ");
                code.append(evaluates_to.as_str());
                code.append(";\n}");
                if eval {
                    code.append(";\nreturn_value");
                } else {
                    assert(code@ + Seq::<char>::empty() =~= code@);
                }
                code
            },
            None => block_output.code.clone(),
        }
    } else {
        block_output.code.clone()
    }
}

impl Literal {
    /// Number and boolean literals keep their text; a string literal is put
    /// in one pair of double quotes, unchanged otherwise.
    pub fn compile(&self) -> (r: JavascriptCompilationOutput)
        ensures
            r@ == literal_model(*self),
    {
        let code = match self {
            Literal::NumberLiteral(n) => n.clone(),
            Literal::StringLiteral(s) => {
                let mut code = String::from_str("\"");
                code.append(s.as_str());
                code.append("\"");
                code
            },
            Literal::BooleanLiteral(b) => if *b {
                String::from_str("true")
            } else {
                String::from_str("false")
            },
        };
        JavascriptCompilationOutput {
            code,
            semicolon_allowed: true,
            is_block: false,
            evaluates_to: None,
        }
    }
}

impl UnaryOperator {
    pub fn compile(&self) -> (r: JavascriptCompilationOutput)
        ensures
            r@ == plain(unary_text(*self), false),
    {
        match self {
            UnaryOperator::Not => JavascriptCompilationOutput::from_code("!"),
            UnaryOperator::Minus => JavascriptCompilationOutput::from_code("-"),
            UnaryOperator::Plus => JavascriptCompilationOutput::from_code("+"),
        }
    }
}

impl InfixOperator {
    pub fn compile(&self) -> (r: JavascriptCompilationOutput)
        ensures
            r@ == plain(infix_text(*self), false),
    {
        match self {
            InfixOperator::Equal => JavascriptCompilationOutput::from_code("=="),
            InfixOperator::NotEqual => JavascriptCompilationOutput::from_code("!="),
            InfixOperator::GreaterThan => JavascriptCompilationOutput::from_code(">"),
            InfixOperator::LessThan => JavascriptCompilationOutput::from_code("<"),
            InfixOperator::GreaterThanEqual => JavascriptCompilationOutput::from_code(">="),
            InfixOperator::LessThanEqual => JavascriptCompilationOutput::from_code("<="),
            InfixOperator::Plus => JavascriptCompilationOutput::from_code("+"),
            InfixOperator::Minus => JavascriptCompilationOutput::from_code("-"),
            InfixOperator::Multiply => JavascriptCompilationOutput::from_code("*"),
            InfixOperator::Divide => JavascriptCompilationOutput::from_code("/"),
            InfixOperator::Modulo => JavascriptCompilationOutput::from_code("%"),
        }
    }
}

impl Parameter {
    /// A parameter compiles to its name: the declared type is erased.
    pub fn compile(&self) -> (r: JavascriptCompilationOutput)
        ensures
            r@ == plain(self.name.0@, false),
    {
        JavascriptCompilationOutput {
            code: self.name.0.clone(),
            semicolon_allowed: false,
            is_block: false,
            evaluates_to: None,
        }
    }
}

/// The parameter list of a function: the names, separated by `", "`.
pub fn compile_parameters(parameters: &Vec<Parameter>) -> (r: JavascriptCompilationOutput)
    ensures
        r@ == plain(parameters_code(parameters@), false),
{
    let mut code = String::new();
    let mut i: usize = 0;
    while i < parameters.len()
        invariant
            i <= parameters.len(),
            code@ == parameters_code(parameters@.subrange(0, i as int)),
        decreases parameters.len() - i,
    {
        let p = parameters[i].compile();
        proof {
            assert(parameters@.subrange(0, i + 1).subrange(0, i as int) =~= parameters@.subrange(
                0,
                i as int,
            ));
        }
        if i > 0 {
            code.append(", ");
        }
        code.append(p.code.as_str());
        i = i + 1;
    }
    assert(parameters@.subrange(0, i as int) =~= parameters@);
    JavascriptCompilationOutput { code, semicolon_allowed: false, is_block: false, evaluates_to: None }
}

/// A list of expressions (array elements or call arguments): their codes,
/// separated by `", "`.
pub fn compile_expressions(expressions: &Vec<Expression>) -> (r: JavascriptCompilationOutput)
    ensures
        r@ == plain(expr_list_code(expressions@), false),
    decreases expressions,
{
    let mut code = String::new();
    let mut i: usize = 0;
    while i < expressions.len()
        invariant
            i <= expressions.len(),
            code@ == expr_list_code(expressions@.subrange(0, i as int)),
        decreases expressions.len() - i,
    {
        let e = expressions[i].compile();
        proof {
            assert(expressions@.subrange(0, i + 1).subrange(0, i as int)
                =~= expressions@.subrange(0, i as int));
        }
        if i > 0 {
            code.append(", ");
        }
        code.append(e.code.as_str());
        i = i + 1;
    }
    assert(expressions@.subrange(0, i as int) =~= expressions@);
    JavascriptCompilationOutput { code, semicolon_allowed: false, is_block: false, evaluates_to: None }
}

/// A sequence of statements: each compiled statement, in order.
pub fn compile_statements(statements: &Vec<Statement>) -> (r: JavascriptCompilationOutput)
    ensures
        r@ == plain(statements_code(statements@), false),
    decreases statements,
{
    let mut code = String::new();
    let mut i: usize = 0;
    while i < statements.len()
        invariant
            i <= statements.len(),
            code@ == statements_code(statements@.subrange(0, i as int)),
        decreases statements.len() - i,
    {
        let s = statements[i].compile();
        proof {
            assert(statements@.subrange(0, i + 1).subrange(0, i as int)
                =~= statements@.subrange(0, i as int));
        }
        code.append(s.code.as_str());
        i = i + 1;
    }
    assert(statements@.subrange(0, i as int) =~= statements@);
    JavascriptCompilationOutput { code, semicolon_allowed: false, is_block: false, evaluates_to: None }
}

impl Statement {
    /// Materializes the statement's code, then adds a `;` where it is
    /// allowed and a newline.
    pub fn compile(&self) -> (r: JavascriptCompilationOutput)
        ensures
            r@ == plain(statement_code(*self), false),
            r@.code == terminated(statement_inner(*self)),
        decreases self,
    {
        let statement = match self {
            Statement::ExpressionStatement { expression, .. } => expression.compile(),
            Statement::DeclarationStatement(decl) => decl.compile(),
        };
        let mut code = build_block(&statement, false);
        if statement.semicolon_allowed {
            code.append(";");
        } else {
            assert(code@ + Seq::<char>::empty() =~= code@);
        }
        code.append("\n");
        JavascriptCompilationOutput { code, semicolon_allowed: false, is_block: false, evaluates_to: None }
    }
}

impl Expression {
    pub fn compile(&self) -> (r: JavascriptCompilationOutput)
        ensures
            r@ == expr_model(*self),
        decreases self,
    {
        match self {
            Expression::IdentifierExpression(ident) => JavascriptCompilationOutput {
                code: ident.0.clone(),
                semicolon_allowed: true,
                is_block: false,
                evaluates_to: None,
            },
            Expression::LiteralExpression(literal) => literal.compile(),
            Expression::UnaryExpression(op, arg) => {
                let op = op.compile();
                let arg = arg.compile();
                let mut code = op.code;
                code.append(arg.code.as_str());
                JavascriptCompilationOutput {
                    code,
                    semicolon_allowed: arg.semicolon_allowed,
                    is_block: false,
                    evaluates_to: None,
                }
            },
            Expression::InfixExpression(op, arg0, arg1) => {
                let op = op.compile();
                let arg0 = arg0.compile();
                let arg1 = arg1.compile();
                let mut code = arg0.code;
                code.append(" ");
                code.append(op.code.as_str());
                code.append(" ");
                code.append(arg1.code.as_str());
                JavascriptCompilationOutput {
                    code,
                    semicolon_allowed: arg1.semicolon_allowed,
                    is_block: false,
                    evaluates_to: None,
                }
            },
            Expression::ArrayExpression(exprs) => {
                let exprs = compile_expressions(exprs);
                let mut code = String::from_str("[");
                code.append(exprs.code.as_str());
                code.append("]");
                JavascriptCompilationOutput {
                    code,
                    semicolon_allowed: true,
                    is_block: false,
                    evaluates_to: None,
                }
            },
            Expression::CallExpression(callee, args) => {
                let callee = callee.compile();
                let args = compile_expressions(args);
                let mut code = callee.code;
                code.append("(");
                code.append(args.code.as_str());
                code.append(")");
                JavascriptCompilationOutput {
                    code,
                    semicolon_allowed: true,
                    is_block: false,
                    evaluates_to: None,
                }
            },
            Expression::MemberAccessExpression(expr, ident) => {
                let expr = expr.compile();
                let mut code = expr.code;
                code.append(".");
                code.append(ident.0.as_str());
                JavascriptCompilationOutput {
                    code,
                    semicolon_allowed: true,
                    is_block: false,
                    evaluates_to: None,
                }
            },
            Expression::IndexExpression(expr, index_expr) => {
                let expr = expr.compile();
                let mut code = build_block(&expr, true);
                let index_expr = index_expr.compile();
                code.append("[");
                code.append(index_expr.code.as_str());
                code.append("]");
                JavascriptCompilationOutput {
                    code,
                    semicolon_allowed: true,
                    is_block: false,
                    evaluates_to: None,
                }
            },
            Expression::BlockExpression(block) => {
                let return_value = match &block.return_value {
                    Some(rv) => Some(rv.compile().code),
                    None => None,
                };
                if block.statements.len() == 0 {
                    let mut code = String::from_str("let return_value = ");
                    match return_value {
                        Some(rv) => code.append(rv.as_str()),
                        None => code.append("undefined"),
                    }
                    code.append(";");
                    return JavascriptCompilationOutput {
                        code,
                        semicolon_allowed: false,
                        is_block: false,
                        evaluates_to: None,
                    };
                }
                let statements = compile_statements(&block.statements);
                JavascriptCompilationOutput {
                    code: statements.code,
                    semicolon_allowed: false,
                    is_block: true,
                    evaluates_to: return_value,
                }
            },
        }
    }
}

impl Declaration {
    pub fn compile(&self) -> (r: JavascriptCompilationOutput)
        ensures
            r@ == decl_model(*self),
        decreases self,
    {
        match self {
            Declaration::ConstDeclaration(ident, expr) => {
                let expr = expr.compile();
                let mut code = String::from_str("const ");
                code.append(ident.0.as_str());
                code.append(" = ");
                code.append(expr.code.as_str());
                code.append(";");
                JavascriptCompilationOutput::from_code(code.as_str())
            },
            Declaration::LetDeclaration(ident, expr) => {
                let expr = expr.compile();
                let mut code = String::from_str("let ");
                code.append(ident.0.as_str());
                code.append(" = ");
                code.append(expr.code.as_str());
                code.append(";");
                JavascriptCompilationOutput::from_code(code.as_str())
            },
            Declaration::FunctionDeclaration { name, parameters, body } => {
                let parameters = compile_parameters(parameters);
                let body = body.compile();
                let mut code = String::from_str("function ");
                code.append(name.0.as_str());
                code.append("(");
                code.append(parameters.code.as_str());
                code.append(") ");
                code.append(body.code.as_str());
                JavascriptCompilationOutput::from_code(code.as_str())
            },
        }
    }
}

impl Block {
    /// A block as a function body: its statements in braces, then a real
    /// `return` of its value, if it has one.
    pub fn compile(&self) -> (r: JavascriptCompilationOutput)
        ensures
            r@ == plain(body_code(*self), false),
        decreases self,
    {
        let statements = compile_statements(&self.statements);
        let mut code = String::from_str("{\n");
        code.append(statements.code.as_str());
        let ghost head = code@;
        match &self.return_value {
            Some(rv) => {
                let rv = rv.compile();
                code.append("return ");
                code.append(rv.code.as_str());
                code.append(";\n");
                assert(code@ =~= head + ("return "@ + rv.code@ + ";\n"@));
            },
            None => {
                assert(code@ + Seq::<char>::empty() =~= code@);
            },
        }
        code.append("}");
        JavascriptCompilationOutput::from_code(code.as_str())
    }
}

/// Compiles whole programs to JavaScript source text.
pub struct JavascriptCompiler;

impl JavascriptCompiler {
    /// The program's statements, each compiled and terminated, in source
    /// order.
    pub fn compile(program: Program) -> (r: String)
        ensures
            r@ == statements_code(program@),
    {
        let compiled = compile_statements(&program);
        compiled.code
    }
}

} // verus!
