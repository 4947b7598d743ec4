use oxidescript::ast::{
    Block, Declaration, Expression, Identifier, InfixOperator, Literal, Parameter, Program,
    Statement, UnaryOperator,
};
use oxidescript::compiler::{build_block, JavascriptCompilationOutput, JavascriptCompiler};
use oxidescript::structural::program_to_js;
use oxidescript::target::{
    iife, JsBinaryOperator, JsExpression, JsStatement, JsUnaryOperator, VariableDeclarationKind,
};

fn num(n: &str) -> Expression {
    Expression::LiteralExpression(Literal::NumberLiteral(n.to_string()))
}

fn var(name: &str) -> Expression {
    Expression::IdentifierExpression(Identifier(name.to_string()))
}

fn stmt(expression: Expression) -> Statement {
    Statement::ExpressionStatement { expression, has_semicolon: true }
}

fn const_decl(name: &str, value: Expression) -> Statement {
    Statement::DeclarationStatement(Declaration::ConstDeclaration(
        Identifier(name.to_string()),
        value,
    ))
}

fn block(statements: Vec<Statement>, return_value: Option<Expression>) -> Expression {
    Expression::BlockExpression(Box::new(Block { statements, return_value }))
}

#[test]
fn terminator_follows_semicolon_allowed_not_source() {
    let program: Program = vec![Statement::ExpressionStatement {
        expression: var("x"),
        has_semicolon: false,
    }];
    assert_eq!("x;\n", JavascriptCompiler::compile(program));
}

#[test]
fn block_without_value_gets_no_terminator() {
    let program: Program = vec![stmt(block(vec![const_decl("a", num("1"))], None))];
    assert_eq!("const a = 1;\n\n", JavascriptCompiler::compile(program));
}

#[test]
fn top_level_order_is_kept() {
    let program: Program = vec![
        Statement::DeclarationStatement(Declaration::LetDeclaration(
            Identifier("a".to_string()),
            num("1"),
        )),
        stmt(var("a")),
        Statement::DeclarationStatement(Declaration::FunctionDeclaration {
            name: Identifier("f".to_string()),
            parameters: vec![],
            body: Block { statements: vec![], return_value: None },
        }),
        stmt(var("b")),
    ];
    assert_eq!("let a = 1;\na;\nfunction f() {\n}\nb;\n", JavascriptCompiler::compile(program));
}

#[test]
fn block_as_index_object_is_a_value() {
    let object = block(
        vec![const_decl("a", Expression::ArrayExpression(vec![num("1")]))],
        Some(var("a")),
    );
    let program: Program =
        vec![stmt(Expression::IndexExpression(Box::new(object), Box::new(num("0"))))];
    assert_eq!(
        "let return_value = undefined;\n{\nconst a = [1];\nreturn_value = a;\n};\nreturn_value[0];\n",
        JavascriptCompiler::compile(program)
    );
}

#[test]
fn hoisting_is_independent_of_the_statements() {
    let program: Program = vec![stmt(block(
        vec![stmt(var("x")), const_decl("y", num("2"))],
        Some(Expression::InfixExpression(
            InfixOperator::Multiply,
            Box::new(var("y")),
            Box::new(num("3")),
        )),
    ))];
    assert_eq!(
        "let return_value = undefined;\n{\nx;\nconst y = 2;\nreturn_value = y * 3;\n}\n",
        JavascriptCompiler::compile(program)
    );
}

#[test]
fn empty_block_without_value_is_undefined() {
    let program: Program = vec![stmt(block(vec![], None))];
    assert_eq!("let return_value = undefined;\n", JavascriptCompiler::compile(program));
}

#[test]
fn function_ends_in_return() {
    let program: Program = vec![Statement::DeclarationStatement(Declaration::FunctionDeclaration {
        name: Identifier("g".to_string()),
        parameters: vec![Parameter {
            name: Identifier("x".to_string()),
            type_: Identifier("number".to_string()),
        }],
        body: Block {
            statements: vec![const_decl("y", var("x"))],
            return_value: Some(var("y")),
        },
    })];
    assert_eq!(
        "function g(x) {\nconst y = x;\nreturn y;\n}\n",
        JavascriptCompiler::compile(program)
    );
}

#[test]
fn literal_text_is_kept() {
    let program: Program = vec![
        stmt(num("3.14")),
        stmt(num("007")),
        stmt(Expression::LiteralExpression(Literal::StringLiteral("a b\\n".to_string()))),
        stmt(Expression::LiteralExpression(Literal::BooleanLiteral(false))),
    ];
    assert_eq!("3.14;\n007;\n\"a b\\n\";\nfalse;\n", JavascriptCompiler::compile(program));
}

#[test]
fn operator_tokens() {
    let ops = vec![
        (InfixOperator::Equal, "=="),
        (InfixOperator::NotEqual, "!="),
        (InfixOperator::GreaterThan, ">"),
        (InfixOperator::LessThan, "<"),
        (InfixOperator::GreaterThanEqual, ">="),
        (InfixOperator::LessThanEqual, "<="),
        (InfixOperator::Plus, "+"),
        (InfixOperator::Minus, "-"),
        (InfixOperator::Multiply, "*"),
        (InfixOperator::Divide, "/"),
        (InfixOperator::Modulo, "%"),
    ];
    for (op, token) in ops {
        let program: Program = vec![stmt(Expression::InfixExpression(
            op,
            Box::new(num("1")),
            Box::new(num("2")),
        ))];
        assert_eq!(format!("1 {} 2;\n", token), JavascriptCompiler::compile(program));
    }
    let program: Program = vec![
        stmt(Expression::UnaryExpression(UnaryOperator::Not, Box::new(var("a")))),
        stmt(Expression::UnaryExpression(UnaryOperator::Plus, Box::new(var("a")))),
    ];
    assert_eq!("!a;\n+a;\n", JavascriptCompiler::compile(program));
}

#[test]
fn calls_members_and_empty_lists() {
    let program: Program = vec![
        stmt(Expression::CallExpression(Box::new(var("f")), vec![])),
        stmt(Expression::ArrayExpression(vec![])),
        stmt(Expression::MemberAccessExpression(
            Box::new(var("a")),
            Identifier("b".to_string()),
        )),
        stmt(Expression::CallExpression(
            Box::new(Expression::MemberAccessExpression(
                Box::new(var("console")),
                Identifier("log".to_string()),
            )),
            vec![num("1"), var("x"), num("3")],
        )),
    ];
    assert_eq!("f();\n[];\na.b;\nconsole.log(1, x, 3);\n", JavascriptCompiler::compile(program));
}

#[test]
fn build_block_materializes_only_valued_blocks() {
    let flat = JavascriptCompilationOutput {
        code: "x".to_string(),
        semicolon_allowed: true,
        is_block: false,
        evaluates_to: Some("y".to_string()),
    };
    assert_eq!("x", build_block(&flat, true));
    let valueless = JavascriptCompilationOutput {
        code: "a;\n".to_string(),
        semicolon_allowed: false,
        is_block: true,
        evaluates_to: None,
    };
    assert_eq!("a;\n", build_block(&valueless, true));
    let valued = JavascriptCompilationOutput {
        code: "a;\n".to_string(),
        semicolon_allowed: false,
        is_block: true,
        evaluates_to: Some("b".to_string()),
    };
    assert_eq!(
        "let return_value = undefined;\n{\na;\nreturn_value = b;\n}",
        build_block(&valued, false)
    );
    assert_eq!(
        "let return_value = undefined;\n{\na;\nreturn_value = b;\n};\nreturn_value",
        build_block(&valued, true)
    );
}

#[test]
fn iife_has_no_parameters_and_no_arguments() {
    let e = iife(vec![JsStatement::Return(JsExpression::BooleanLiteral(true))]);
    match e {
        JsExpression::Call(callee, args) => {
            assert!(args.is_empty());
            match *callee {
                JsExpression::ArrowFunction { params, body } => {
                    assert!(params.is_empty());
                    assert_eq!(1, body.len());
                    assert!(matches!(body[0], JsStatement::Return(JsExpression::BooleanLiteral(true))));
                }
                other => panic!("unexpected callee {:?}", other),
            }
        }
        other => panic!("unexpected expression {:?}", other),
    }
}

#[test]
fn structural_block_becomes_iife() {
    let program: Program = vec![stmt(Expression::CallExpression(
        Box::new(var("f")),
        vec![block(vec![const_decl("foo", num("5"))], Some(var("foo")))],
    ))];
    let out = program_to_js(&program);
    assert_eq!(1, out.len());
    let JsStatement::Expression(JsExpression::Call(callee, args)) = &out[0] else {
        panic!("unexpected statement {:?}", out[0]);
    };
    assert!(matches!(&**callee, JsExpression::Identifier(n) if n == "f"));
    assert_eq!(1, args.len());
    let JsExpression::Call(inner, inner_args) = &args[0] else {
        panic!("unexpected argument {:?}", args[0]);
    };
    assert!(inner_args.is_empty());
    let JsExpression::ArrowFunction { params, body } = &**inner else {
        panic!("unexpected callee {:?}", inner);
    };
    assert!(params.is_empty());
    assert_eq!(2, body.len());
    assert!(matches!(
        &body[0],
        JsStatement::VariableDeclaration(VariableDeclarationKind::Const, n, JsExpression::NumericLiteral(v))
            if n == "foo" && v == "5"
    ));
    assert!(matches!(&body[1], JsStatement::Return(JsExpression::Identifier(n)) if n == "foo"));
}

#[test]
fn structural_function_and_operators() {
    let program: Program = vec![
        Statement::DeclarationStatement(Declaration::FunctionDeclaration {
            name: Identifier("foo".to_string()),
            parameters: vec![
                Parameter {
                    name: Identifier("bar".to_string()),
                    type_: Identifier("number".to_string()),
                },
                Parameter {
                    name: Identifier("baz".to_string()),
                    type_: Identifier("number".to_string()),
                },
            ],
            body: Block {
                statements: vec![],
                return_value: Some(Expression::InfixExpression(
                    InfixOperator::Plus,
                    Box::new(var("bar")),
                    Box::new(var("baz")),
                )),
            },
        }),
        stmt(Expression::UnaryExpression(UnaryOperator::Minus, Box::new(num("5")))),
        Statement::DeclarationStatement(Declaration::LetDeclaration(
            Identifier("s".to_string()),
            Expression::LiteralExpression(Literal::StringLiteral("hi".to_string())),
        )),
    ];
    let out = program_to_js(&program);
    assert_eq!(3, out.len());
    let JsStatement::FunctionDeclaration { name, params, body } = &out[0] else {
        panic!("unexpected statement {:?}", out[0]);
    };
    assert_eq!("foo", name);
    assert_eq!(vec!["bar".to_string(), "baz".to_string()], *params);
    assert_eq!(1, body.len());
    assert!(matches!(
        &body[0],
        JsStatement::Return(JsExpression::Binary(JsBinaryOperator::Addition, l, r))
            if matches!(&**l, JsExpression::Identifier(n) if n == "bar")
                && matches!(&**r, JsExpression::Identifier(n) if n == "baz")
    ));
    assert!(matches!(
        &out[1],
        JsStatement::Expression(JsExpression::Unary(JsUnaryOperator::UnaryNegation, a))
            if matches!(&**a, JsExpression::NumericLiteral(v) if v == "5")
    ));
    assert!(matches!(
        &out[2],
        JsStatement::VariableDeclaration(VariableDeclarationKind::Let, n, JsExpression::StringLiteral(v))
            if n == "s" && v == "hi"
    ));
}
