//! Properties of the textual emitter that hold of every input.
use crate::ast::{Block, Declaration, Expression, Identifier, Parameter, Statement};
use crate::compiler::{
    decl_model, expr_model, hoisted, materialized, parameters_code, statement_code,
    statement_inner, statements_code, terminator,
};
use vstd::prelude::*;

verus! {

/// Where the text of the `n`-th statement of `ss` starts in the text of `ss`.
pub open spec fn statement_offset(ss: Seq<Statement>, n: int) -> int {
    statements_code(ss.subrange(0, n)).len() as int
}

/// Each compiled statement is its materialized code, then a `;` exactly when
/// its own code allows one, then exactly one newline, whatever the kind of
/// statement.
pub proof fn lemma_statement_termination(s: Statement)
    ensures
        statement_code(s) == materialized(statement_inner(s), false) + terminator(
            statement_inner(s).semicolon_allowed,
        ) + "\n"@,
{
}

proof fn lemma_statements_step(ss: Seq<Statement>, k: int)
    requires
        0 <= k < ss.len(),
    ensures
        statements_code(ss.subrange(0, k + 1)) == statements_code(ss.subrange(0, k))
            + statement_code(ss[k]),
{
    assert(ss.subrange(0, k + 1).subrange(0, k) =~= ss.subrange(0, k));
}

proof fn lemma_statements_prefix(ss: Seq<Statement>, k: int)
    requires
        0 <= k <= ss.len(),
    ensures
        statements_code(ss.subrange(0, k)).len() <= statements_code(ss).len(),
        statements_code(ss).subrange(0, statements_code(ss.subrange(0, k)).len() as int)
            == statements_code(ss.subrange(0, k)),
    decreases ss.len(),
{
    if k == ss.len() {
        assert(ss.subrange(0, k) =~= ss);
        assert(statements_code(ss).subrange(0, statements_code(ss).len() as int) =~= statements_code(ss));
    } else {
        let front = ss.subrange(0, ss.len() - 1);
        assert(front.subrange(0, k) =~= ss.subrange(0, k));
        lemma_statements_prefix(front, k);
        let p = statements_code(ss.subrange(0, k));
        assert(statements_code(ss) == statements_code(front) + statement_code(ss[ss.len() - 1]));
        assert(statements_code(ss).subrange(0, p.len() as int) =~= statements_code(front).subrange(
            0,
            p.len() as int,
        ));
    }
}

/// The statements of a sequence keep their order: the text of the `n`-th
/// stands whole at its offset, and ends before the text of any later one
/// begins.
pub proof fn lemma_order_preservation(ss: Seq<Statement>, n: int, m: int)
    requires
        0 <= n < m < ss.len(),
    ensures
        statement_code(ss[n]).len() > 0,
        statements_code(ss).subrange(
            statement_offset(ss, n),
            statement_offset(ss, n) + statement_code(ss[n]).len(),
        ) == statement_code(ss[n]),
        statement_offset(ss, n) + statement_code(ss[n]).len() <= statement_offset(ss, m),
        statement_offset(ss, m) + statement_code(ss[m]).len() <= statements_code(ss).len(),
{
    reveal_strlit("\n");
    let s = ss[n];
    assert(statement_code(s).len() > 0);
    let whole = statements_code(ss);
    let before = statements_code(ss.subrange(0, n));
    lemma_statements_step(ss, n);
    lemma_statements_prefix(ss, n + 1);
    let upto = statements_code(ss.subrange(0, n + 1));
    assert(whole.subrange(before.len() as int, upto.len() as int) =~= upto.subrange(
        before.len() as int,
        upto.len() as int,
    ));
    assert(upto.subrange(before.len() as int, upto.len() as int) =~= statement_code(s));
    let upto_m = ss.subrange(0, m);
    assert(upto_m.subrange(0, n + 1) =~= ss.subrange(0, n + 1));
    lemma_statements_prefix(upto_m, n + 1);
    lemma_statements_step(ss, m);
    lemma_statements_prefix(ss, m + 1);
}

/// A block with statements and a value, used as a statement, compiles to a
/// hoisted `return_value`, a brace group with the statements, and the
/// assignment of the value as the group's last line. Where it is used as a
/// value, the text ends in `return_value`.
pub proof fn lemma_block_value_hoisting(b: Block, v: Expression, has_semicolon: bool)
    requires
        b.statements.len() > 0,
        b.return_value == Some(v),
    ensures
        statement_code(
            Statement::ExpressionStatement {
                expression: Expression::BlockExpression(Box::new(b)),
                has_semicolon,
            },
        ) == "let return_value = undefined;\n{\n"@ + statements_code(b.statements@)
            + "return_value = "@ + expr_model(v).code + ";\n}"@ + "\n"@,
        materialized(expr_model(Expression::BlockExpression(Box::new(b))), true) == hoisted(
            statements_code(b.statements@),
            expr_model(v).code,
        ) + ";\nreturn_value"@,
{
    let e = Expression::BlockExpression(Box::new(b));
    let h = hoisted(statements_code(b.statements@), expr_model(v).code);
    assert(materialized(expr_model(e), false) =~= h);
    assert(terminator(false) + "\n"@ =~= "\n"@);
    assert(h + terminator(false) + "\n"@ =~= h + "\n"@);
}

/// A block without statements compiles to one declaration of
/// `return_value`, holding its value or `undefined`, and never to a brace
/// group.
pub proof fn lemma_empty_block_collapse(b: Block, has_semicolon: bool)
    requires
        b.statements.len() == 0,
    ensures
        !expr_model(Expression::BlockExpression(Box::new(b))).is_block,
        statement_code(
            Statement::ExpressionStatement {
                expression: Expression::BlockExpression(Box::new(b)),
                has_semicolon,
            },
        ) == "let return_value = "@ + match b.return_value {
            Some(v) => expr_model(v).code,
            None => "undefined"@,
        } + ";"@ + "\n"@,
{
    let e = Expression::BlockExpression(Box::new(b));
    let c = expr_model(e).code;
    assert(c + terminator(false) + "\n"@ =~= c + "\n"@);
}

/// A function whose body has a value ends in a real `return` of that value,
/// as the last line before the closing brace.
pub proof fn lemma_function_return_fidelity(
    name: Identifier,
    parameters: Vec<Parameter>,
    body: Block,
    v: Expression,
)
    requires
        body.return_value == Some(v),
    ensures
        decl_model(Declaration::FunctionDeclaration { name, parameters, body }).code
            == "function "@ + name.0@ + "("@ + parameters_code(parameters@) + ") {\n"@
            + statements_code(body.statements@) + "return "@ + expr_model(v).code + ";\n}"@,
{
    reveal_strlit(") ");
    reveal_strlit("{\n");
    reveal_strlit(") {\n");
    reveal_strlit(";\n");
    reveal_strlit("}");
    reveal_strlit(";\n}");
    let d = Declaration::FunctionDeclaration { name, parameters, body };
    assert(decl_model(d).code =~= "function "@ + name.0@ + "("@ + parameters_code(parameters@)
        + ") {\n"@ + statements_code(body.statements@) + "return "@ + expr_model(v).code
        + ";\n}"@);
}

} // verus!
