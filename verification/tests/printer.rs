use oxc_codegen::ast::{EmptyStatement, Expression, ForStatement, ForStatementInit};
use oxc_codegen::ast::{
    ArrayExpression, ArrayExpressionElement, Argument, ArrowFunctionExpression,
    AssignmentExpression, AssignmentTarget, BigIntLiteral, BinaryExpression, BindingIdentifier,
    BindingPattern, BindingPatternKind, BlockStatement, BooleanLiteral, CallExpression, Class,
    ClassBody,
    ClassElement, ConditionalExpression, Directive, ExpressionStatement, FormalParameter,
    FormalParameters, Function, FunctionBody, Hashbang, IdentifierName, IdentifierReference,
    IfStatement, LogicalExpression, MethodDefinition, MethodDefinitionKind, NewExpression,
    NumberValue, NumericLiteral, ObjectExpression, ObjectProperty, ObjectPropertyKind,
    ParenthesizedExpression, PrivateFieldExpression, PrivateIdentifier, Program, PropertyDefinition,
    PropertyKey, PropertyKind, RegExpLiteral, ReturnStatement, SequenceExpression,
    SimpleAssignmentTarget, Statement, StaticMemberExpression, StringLiteral, TemplateElement,
    TemplateLiteral, TemplatePart, ThisExpression, UnaryExpression, UpdateExpression,
    VariableDeclaration, VariableDeclarationKind, VariableDeclarator, WhileStatement,
};
use oxc_codegen::codegen::Codegen;
use oxc_codegen::comment::Span;
use oxc_codegen::fast_buffer::IndentChar;
use oxc_codegen::operator::{
    AssignmentOperator, BinaryOperator, LogicalOperator, UnaryOperator, UpdateOperator,
};
use oxc_codegen::options::CodegenOptions;
use oxc_codegen::string::Quote;

fn span() -> Span {
    Span::new(0, 0)
}

fn ident(name: &str) -> Expression {
    Expression::Identifier(Box::new(IdentifierReference {
        span: span(),
        name: name.to_string(),
        reference_id: None,
    }))
}


fn number(value: f64) -> Expression {
    let magnitude = value.abs();
    let literal = if magnitude.is_nan() {
        NumberValue::NotANumber
    } else if magnitude.is_infinite() {
        NumberValue::Infinity
    } else {
        let mut buffer = dragonbox_ecma::Buffer::new();
        NumberValue::Finite {
            shortest: buffer.format(magnitude).to_string(),
            integer: if magnitude.fract() == 0.0 { Some(magnitude as u128) } else { None },
        }
    };
    Expression::NumericLiteral(Box::new(NumericLiteral {
        span: span(),
        negative: value.is_sign_negative(),
        value: literal,
        raw: None,
    }))
}

fn string(value: &str) -> Expression {
    Expression::StringLiteral(Box::new(StringLiteral { span: span(), value: value.to_string() }))
}

fn binary(left: Expression, operator: BinaryOperator, right: Expression) -> Expression {
    Expression::BinaryExpression(Box::new(BinaryExpression { span: span(), left, operator, right }))
}

fn logical(left: Expression, operator: LogicalOperator, right: Expression) -> Expression {
    Expression::LogicalExpression(Box::new(LogicalExpression {
        span: span(),
        left,
        operator,
        right,
    }))
}

fn unary(operator: UnaryOperator, argument: Expression) -> Expression {
    Expression::UnaryExpression(Box::new(UnaryExpression { span: span(), operator, argument }))
}

fn member(object: Expression, property: &str) -> Expression {
    Expression::StaticMemberExpression(Box::new(StaticMemberExpression {
        span: span(),
        object,
        property: IdentifierName { span: span(), name: property.to_string() },
        optional: false,
    }))
}

fn call(callee: Expression, arguments: Vec<Expression>) -> Expression {
    Expression::CallExpression(Box::new(CallExpression {
        type_arguments: None,
        span: span(),
        callee,
        arguments: arguments.into_iter().map(Argument::Expression).collect(),
        optional: false,
        pure: false,
    }))
}

fn regex(pattern: &str, flags: &str) -> Expression {
    Expression::RegExpLiteral(Box::new(RegExpLiteral {
        span: span(),
        pattern: pattern.to_string(),
        flags: flags.to_string(),
    }))
}

fn expr_stmt(expression: Expression) -> Statement {
    Statement::ExpressionStatement(Box::new(ExpressionStatement { span: span(), expression }))
}

fn binding(name: &str) -> BindingPattern {
    BindingPattern {
        kind: BindingPatternKind::BindingIdentifier(Box::new(BindingIdentifier {
            span: span(),
            name: name.to_string(),
            symbol_id: None,
        })),
        type_annotation: None,
        optional: false,
    }
}

fn parameter(name: &str) -> FormalParameter {
    FormalParameter {
        span: span(),
        decorators: vec![],
        pattern: binding(name),
        accessibility: None,
        readonly: false,
        is_override: false,
    }
}

fn declare(kind: VariableDeclarationKind, name: &str, init: Option<Expression>) -> Statement {
    Statement::VariableDeclaration(Box::new(VariableDeclaration {
        declare: false,
        span: span(),
        kind,
        declarations: vec![VariableDeclarator {
            span: span(),
            id: binding(name),
            init,
            definite: false,
        }],
    }))
}

fn directive(text: &str, quote: Option<Quote>) -> Directive {
    Directive { span: span(), directive: text.to_string(), quote }
}

fn if_stmt(test: Expression, consequent: Statement, alternate: Option<Statement>) -> Statement {
    Statement::IfStatement(Box::new(IfStatement { span: span(), test, consequent, alternate }))
}

fn program(body: Vec<Statement>) -> Program {
    Program {
        span: span(),
        is_jsx: false,
        source_text: String::new(),
        comments: vec![],
        hashbang: None,
        directives: vec![],
        body,
    }
}

fn print(program: &Program) -> String {
    Codegen::new().build(program).code
}

fn print_minified(program: &Program) -> String {
    Codegen::new().with_options(CodegenOptions::minify()).build(program).code
}

fn print_expr(expr: Expression) -> String {
    let mut codegen = Codegen::new();
    codegen.print_expression(&expr);
    codegen.into_source_text()
}

fn print_expr_minified(expr: Expression) -> String {
    let mut codegen = Codegen::new().with_options(CodegenOptions::minify());
    codegen.print_expression(&expr);
    codegen.into_source_text()
}

#[test]
fn let_with_a_sum() {
    let p = program(vec![declare(
        VariableDeclarationKind::Let,
        "x",
        Some(binary(number(1.0), BinaryOperator::Addition, number(2.0))),
    )]);
    assert_eq!(print(&p), "let x = 1 + 2;\n");
}

#[test]
fn minified_small_fraction() {
    let p = program(vec![declare(VariableDeclarationKind::Var, "a", Some(number(0.0001)))]);
    assert_eq!(print_minified(&p), "var a=1e-4;");
}

#[test]
fn bigint_keeps_its_digits() {
    let h = Expression::BigIntLiteral(Box::new(BigIntLiteral {
        span: span(),
        value: "0x8000000000000000".to_string(),
    }));
    let p = program(vec![declare(VariableDeclarationKind::Var, "h", Some(h))]);
    assert_eq!(print(&p), "var h = 0x8000000000000000n;\n");
}

#[test]
fn if_before_else_gets_braces_when_it_ends_in_an_open_if() {
    let inner = if_stmt(ident("b"), expr_stmt(ident("c")), None);
    let p = program(vec![if_stmt(ident("a"), inner, Some(expr_stmt(ident("d"))))]);
    assert_eq!(print(&p), "if (a) {\n\tif (b) c;\n} else d;\n");
}

#[test]
fn nested_if_with_its_own_else_needs_no_braces() {
    let inner = if_stmt(ident("b"), expr_stmt(ident("c")), Some(expr_stmt(ident("d"))));
    let p = program(vec![if_stmt(ident("a"), inner, None)]);
    assert_eq!(print(&p), "if (a) if (b) c;\nelse d;\n");
}

#[test]
fn if_without_else_needs_no_braces_around_an_open_if() {
    let inner = if_stmt(ident("b"), expr_stmt(ident("c")), None);
    let p = program(vec![if_stmt(ident("a"), inner, None)]);
    assert_eq!(print(&p), "if (a) if (b) c;\n");
}

#[test]
fn long_chain_is_printed_without_deep_calls() {
    let terms = 200_000;
    let mut chain = ident("a");
    for _ in 1..terms {
        chain = logical(chain, LogicalOperator::Or, ident("a"));
    }
    let p = program(vec![expr_stmt(chain)]);
    let code = Codegen::new().with_options(CodegenOptions::minify()).build(&p).code;
    std::mem::forget(p);
    assert_eq!(code.len(), 3 * terms - 1);
    assert!(code.starts_with("a||a||a"));
    assert!(code.ends_with("||a;"));
}

#[test]
fn mixed_chain_keeps_its_parentheses() {
    let sum = binary(ident("a"), BinaryOperator::Addition, ident("b"));
    let product = binary(sum, BinaryOperator::Multiplication, ident("c"));
    let left = binary(product, BinaryOperator::Subtraction, ident("d"));
    let right = binary(ident("e"), BinaryOperator::Subtraction, ident("f"));
    let whole = binary(left, BinaryOperator::Subtraction, right);
    let either = logical(
        logical(whole, LogicalOperator::And, ident("g")),
        LogicalOperator::Coalesce,
        ident("h"),
    );
    let p = program(vec![expr_stmt(either)]);
    assert_eq!(print(&p), "((a + b) * c - d - (e - f) && g) ?? h;\n");
}

#[test]
fn object_at_statement_start_is_wrapped() {
    let object = Expression::ObjectExpression(Box::new(ObjectExpression {
        span: span(),
        properties: vec![ObjectPropertyKind::ObjectProperty(ObjectProperty {
            span: span(),
            kind: PropertyKind::Init,
            key: PropertyKey::StaticIdentifier(IdentifierName {
                span: span(),
                name: "a".to_string(),
            }),
            value: number(1.0),
            method: false,
            shorthand: false,
            computed: false,
        })],
    }));
    let p = program(vec![expr_stmt(object)]);
    assert_eq!(print(&p), "({ a: 1 });\n");
}

#[test]
fn template_escapes_script_close_tag() {
    let template = Expression::TemplateLiteral(Box::new(TemplateLiteral {
        span: span(),
        head: TemplateElement { span: span(), raw: "</script>".to_string() },
        parts: vec![],
    }));
    let p = program(vec![expr_stmt(template)]);
    assert_eq!(print(&p), "`<\\/script>`;\n");
}

#[test]
fn template_with_substitutions() {
    let template = Expression::TemplateLiteral(Box::new(TemplateLiteral {
        span: span(),
        head: TemplateElement { span: span(), raw: "a".to_string() },
        parts: vec![
            TemplatePart {
                expression: ident("x"),
                quasi: TemplateElement { span: span(), raw: "b".to_string() },
            },
            TemplatePart {
                expression: number(1.0),
                quasi: TemplateElement { span: span(), raw: "".to_string() },
            },
        ],
    }));
    assert_eq!(print_expr(template), "`a${x}b${1}`");
}

#[test]
fn division_chain_is_spaced() {
    let e = binary(
        binary(ident("a"), BinaryOperator::Division, ident("b")),
        BinaryOperator::Division,
        ident("g"),
    );
    assert_eq!(print_expr(e), "a / b / g");
}

#[test]
fn regex_after_a_slash_is_kept_apart() {
    let e = binary(regex("a", ""), BinaryOperator::Division, regex("b", "g"));
    assert_eq!(print_expr(e), "/a/ / /b/g");
    let e = binary(regex("a", ""), BinaryOperator::Division, regex("b", "g"));
    assert_eq!(print_expr_minified(e), "/a// /b/g");
}

#[test]
fn word_after_a_regex_is_kept_apart() {
    let e = binary(regex("a", "g"), BinaryOperator::In, ident("x"));
    assert_eq!(print_expr_minified(e), "/a/g in x");
    let e = call(member(regex("foo", "g"), "test"), vec![ident("s")]);
    assert_eq!(print_expr_minified(e), "/foo/g.test(s)");
}

#[test]
fn regex_after_less_than_before_script() {
    let e = binary(ident("a"), BinaryOperator::LessThan, regex("script", ""));
    assert_eq!(print_expr_minified(e), "a< /script/");
    let e = binary(ident("a"), BinaryOperator::LessThan, regex("SCRIPT>", ""));
    assert_eq!(print_expr_minified(e), "a< /SCRIPT>/");
    let e = binary(ident("a"), BinaryOperator::LessThan, regex("scrap", ""));
    assert_eq!(print_expr_minified(e), "a</scrap/");
}

#[test]
fn return_keeps_its_argument_apart() {
    let body = FunctionBody {
        span: span(),
        directives: vec![],
        statements: vec![Statement::ReturnStatement(Box::new(ReturnStatement {
            span: span(),
            argument: Some(ident("x")),
        }))],
    };
    let function = Statement::FunctionDeclaration(Box::new(Function {
        declare: false,
        type_parameters: None,
        this_param: None,
        return_type: None,
        span: span(),
        expression: false,
        id: Some(BindingIdentifier { span: span(), name: "f".to_string(), symbol_id: None }),
        generator: false,
        is_async: false,
        params: FormalParameters { span: span(), items: vec![], rest: None },
        body: Some(body),
        pure: false,
        pife: false,
    }));
    let p = program(vec![function]);
    assert_eq!(print_minified(&p), "function f(){return x}");
    assert_eq!(print(&p), "function f() {\n\treturn x;\n}\n");
}

#[test]
fn operators_that_would_merge_are_kept_apart() {
    let e = binary(ident("x"), BinaryOperator::Addition, unary(UnaryOperator::UnaryPlus, ident("y")));
    assert_eq!(print_expr_minified(e), "x+ +y");
    let e = binary(
        ident("x"),
        BinaryOperator::Subtraction,
        unary(UnaryOperator::UnaryNegation, ident("y")),
    );
    assert_eq!(print_expr_minified(e), "x- -y");
    let e = binary(
        ident("x"),
        BinaryOperator::Addition,
        Expression::UpdateExpression(Box::new(UpdateExpression {
            span: span(),
            operator: UpdateOperator::Increment,
            prefix: true,
            argument: SimpleAssignmentTarget::AssignmentTargetIdentifier(IdentifierReference {
                span: span(),
                name: "y".to_string(),
                reference_id: None,
            }),
        })),
    );
    assert_eq!(print_expr_minified(e), "x+ ++y");
    let e = binary(
        Expression::UpdateExpression(Box::new(UpdateExpression {
            span: span(),
            operator: UpdateOperator::Decrement,
            prefix: false,
            argument: SimpleAssignmentTarget::AssignmentTargetIdentifier(IdentifierReference {
                span: span(),
                name: "x".to_string(),
                reference_id: None,
            }),
        })),
        BinaryOperator::GreaterThan,
        ident("y"),
    );
    assert_eq!(print_expr_minified(e), "x-- >y");
    let e = binary(ident("x"), BinaryOperator::Addition, ident("y"));
    assert_eq!(print_expr_minified(e), "x+y");
}

#[test]
fn precedence_decides_parentheses() {
    let sum = binary(ident("a"), BinaryOperator::Addition, ident("b"));
    let e = binary(sum, BinaryOperator::Multiplication, ident("c"));
    assert_eq!(print_expr(e), "(a + b) * c");
    let product = binary(ident("a"), BinaryOperator::Multiplication, ident("b"));
    let e = binary(product, BinaryOperator::Addition, ident("c"));
    assert_eq!(print_expr(e), "a * b + c");
    let right = binary(ident("b"), BinaryOperator::Subtraction, ident("c"));
    let e = binary(ident("a"), BinaryOperator::Subtraction, right);
    assert_eq!(print_expr(e), "a - (b - c)");
}

#[test]
fn exponent_groups_to_the_right() {
    let right = binary(ident("b"), BinaryOperator::Exponential, ident("c"));
    let e = binary(ident("a"), BinaryOperator::Exponential, right);
    assert_eq!(print_expr(e), "a ** b ** c");
    let left = binary(ident("a"), BinaryOperator::Exponential, ident("b"));
    let e = binary(left, BinaryOperator::Exponential, ident("c"));
    assert_eq!(print_expr(e), "(a ** b) ** c");
    let e = binary(
        unary(UnaryOperator::UnaryNegation, ident("a")),
        BinaryOperator::Exponential,
        ident("b"),
    );
    assert_eq!(print_expr(e), "(-a) ** b");
}

#[test]
fn nullish_does_not_mix_with_and_or() {
    let e = logical(
        logical(ident("a"), LogicalOperator::Or, ident("b")),
        LogicalOperator::Coalesce,
        ident("c"),
    );
    assert_eq!(print_expr(e), "(a || b) ?? c");
    let e = logical(
        ident("a"),
        LogicalOperator::Coalesce,
        logical(ident("b"), LogicalOperator::And, ident("c")),
    );
    assert_eq!(print_expr(e), "a ?? (b && c)");
    let e = logical(
        logical(ident("a"), LogicalOperator::Or, ident("b")),
        LogicalOperator::Or,
        ident("c"),
    );
    assert_eq!(print_expr(e), "a || b || c");
}

#[test]
fn in_is_wrapped_inside_a_for_head() {
    let init = binary(ident("a"), BinaryOperator::In, ident("b"));
    let for_stmt = Statement::ForStatement(Box::new(ForStatement {
        span: span(),
        init: Some(ForStatementInit::Expression(init)),
        test: None,
        update: None,
        body: Statement::EmptyStatement(Box::new(EmptyStatement {
            span: span(),
        })),
    }));
    assert_eq!(print(&program(vec![for_stmt])), "for ((a in b);;);\n");
}

#[test]
fn numbers_in_their_shortest_form() {
    assert_eq!(print_expr_minified(number(0.0)), "0");
    assert_eq!(print_expr_minified(number(1.0)), "1");
    assert_eq!(print_expr_minified(number(999.0)), "999");
    assert_eq!(print_expr_minified(number(1000.0)), "1e3");
    assert_eq!(print_expr_minified(number(1000000.0)), "1e6");
    assert_eq!(print_expr_minified(number(0.5)), ".5");
    assert_eq!(print_expr_minified(number(1.5)), "1.5");
    assert_eq!(print_expr_minified(number(0.00015)), "15e-5");
    assert_eq!(print_expr_minified(number(1e21)), "1e21");
    assert_eq!(print_expr_minified(number(1.5e300)), "15e299");
    assert_eq!(print_expr_minified(number(65535.0)), "65535");
    assert_eq!(print_expr_minified(number(1099511627775.0)), "0xffffffffff");
    assert_eq!(print_expr_minified(number(9223372036854775808.0)), "0x8000000000000000");
    assert_eq!(print_expr(number(1000.0)), "1e3");
}

#[test]
fn special_numbers() {
    assert_eq!(print_expr(number(f64::NAN)), "NaN");
    assert_eq!(print_expr(number(f64::INFINITY)), "Infinity");
    assert_eq!(print_expr(number(f64::NEG_INFINITY)), "-Infinity");
    assert_eq!(print_expr_minified(number(f64::INFINITY)), "1/0");
    assert_eq!(print_expr_minified(number(f64::NEG_INFINITY)), "-1/0");
    let e = binary(number(f64::INFINITY), BinaryOperator::Multiplication, ident("x"));
    assert_eq!(print_expr_minified(e), "1/0*x");
    let e = binary(ident("x"), BinaryOperator::Multiplication, number(f64::INFINITY));
    assert_eq!(print_expr_minified(e), "x*(1/0)");
    assert_eq!(print_expr(number(-1.0)), "-1");
    assert_eq!(print_expr(number(-0.0)), "-0");
    let e = binary(ident("x"), BinaryOperator::Exponential, number(-2.0));
    assert_eq!(print_expr(e), "x ** -2");
    let e = member(number(-1.0), "a");
    assert_eq!(print_expr(e), "(-1).a");
    let e = unary(UnaryOperator::Delete, number(f64::INFINITY));
    assert_eq!(print_expr(e), "delete (0, Infinity)");
}

#[test]
fn dot_after_a_whole_number_is_kept_apart() {
    assert_eq!(print_expr(member(number(1.0), "toString")), "1 .toString");
    assert_eq!(print_expr(member(number(1.5), "toString")), "1.5.toString");
    assert_eq!(print_expr_minified(member(number(1000.0), "toString")), "1e3.toString");
}

#[test]
fn strings_take_the_cheaper_quote() {
    assert_eq!(print_expr(string("abc")), "\"abc\"");
    assert_eq!(print_expr(string("a\"b")), "'a\"b'");
    assert_eq!(print_expr(string("a'b")), "\"a'b\"");
    assert_eq!(print_expr(string("'\"")), "\"'\\\"\"");
    let mut codegen = Codegen::new().with_options(CodegenOptions {
        single_quote: true,
        ..CodegenOptions::default()
    });
    codegen.print_expression(&string("abc"));
    codegen.print_expression(&string("a'b"));
    assert_eq!(codegen.into_source_text(), "'abc'\"a'b\"");
}

#[test]
fn strings_escape_what_must_not_stand_in_them() {
    assert_eq!(print_expr(string("a\\b")), "\"a\\\\b\"");
    assert_eq!(print_expr(string("a\nb\rc")), "\"a\\nb\\rc\"");
    assert_eq!(print_expr(string("\0")), "\"\\0\"");
    assert_eq!(print_expr(string("\u{0}1")), "\"\\x001\"");
    assert_eq!(print_expr(string("\u{7}\u{8}\u{b}\u{c}\u{1b}")), "\"\\x07\\b\\v\\f\\x1B\"");
    assert_eq!(print_expr(string("\u{2028}\u{2029}")), "\"\\u2028\\u2029\"");
    assert_eq!(print_expr(string("</script>")), "\"<\\/script>\"");
    assert_eq!(print_expr(string("</SCRIPT>")), "\"<\\/SCRIPT>\"");
    assert_eq!(print_expr(string("héllo ☃")), "\"héllo ☃\"");
}

#[test]
fn leading_string_statement_is_no_directive() {
    let p = program(vec![expr_stmt(string("use strict"))]);
    assert_eq!(print(&p), "(\"use strict\");\n");
    assert_eq!(print_minified(&p), "(\"use strict\");");
    let two = program(vec![expr_stmt(string("a")), expr_stmt(string("b"))]);
    assert_eq!(print_minified(&two), "(\"a\");\"b\";");
    let mut with_directive = program(vec![expr_stmt(string("x"))]);
    with_directive.directives = vec![directive("use strict", None)];
    assert_eq!(print(&with_directive), "\"use strict\";\n\"x\";\n");
    assert_eq!(print_minified(&with_directive), "\"use strict\";\"x\";");
}

#[test]
fn leading_string_statement_of_a_function_is_no_directive() {
    let body = |directives: Vec<Directive>| {
        Statement::FunctionDeclaration(Box::new(Function {
            span: span(),
            expression: false,
            id: Some(BindingIdentifier { span: span(), name: "f".to_string(), symbol_id: None }),
            generator: false,
            is_async: false,
            declare: false,
            type_parameters: None,
            this_param: None,
            params: FormalParameters { span: span(), items: vec![], rest: None },
            return_type: None,
            body: Some(FunctionBody {
                span: span(),
                directives,
                statements: vec![expr_stmt(string("a"))],
            }),
            pure: false,
            pife: false,
        }))
    };
    assert_eq!(print_minified(&program(vec![body(vec![])])), "function f(){(\"a\")}");
    assert_eq!(
        print_minified(&program(vec![body(vec![directive("use strict", None)])])),
        "function f(){\"use strict\";\"a\"}"
    );
}

#[test]
fn directive_keeps_the_quote_of_the_source() {
    let mut p = program(vec![]);
    p.directives = vec![
        directive("use strict", Some(Quote::Single)),
        directive("use asm", Some(Quote::Double)),
        directive("say \"a\"", Some(Quote::Single)),
        directive("it's", Some(Quote::Double)),
    ];
    assert_eq!(print(&p), "'use strict';\n\"use asm\";\n'say \"a\"';\n\"it's\";\n");
    let single = CodegenOptions { single_quote: true, ..CodegenOptions::default() };
    assert_eq!(
        Codegen::new().with_options(single).build(&p).code,
        "'use strict';\n\"use asm\";\n'say \"a\"';\n\"it's\";\n"
    );
    assert_eq!(print_minified(&p), "\"use strict\";\"use asm\";'say \"a\"';\"it's\";");
}

#[test]
fn directive_of_unknown_quote_takes_the_quote_it_does_not_hold() {
    let mut p = program(vec![]);
    p.directives = vec![
        directive("use strict", None),
        directive("it's", None),
        directive("say \"a\"", None),
        directive("a\\'b\"", None),
    ];
    assert_eq!(print(&p), "\"use strict\";\n\"it's\";\n'say \"a\"';\n'a\\'b\"';\n");
}

#[test]
fn hashbang_comes_first() {
    let mut p = program(vec![expr_stmt(ident("x"))]);
    p.hashbang = Some(Hashbang { span: span(), value: "/usr/bin/env node".to_string() });
    assert_eq!(print(&p), "#!/usr/bin/env node\nx;\n");
}

#[test]
fn function_expression_at_statement_start_is_wrapped() {
    let function = Expression::FunctionExpression(Box::new(Function {
        declare: false,
        type_parameters: None,
        this_param: None,
        return_type: None,
        span: span(),
        expression: true,
        id: None,
        generator: false,
        is_async: false,
        params: FormalParameters { span: span(), items: vec![], rest: None },
        body: Some(FunctionBody { span: span(), directives: vec![], statements: vec![] }),
        pure: false,
        pife: false,
    }));
    let p = program(vec![expr_stmt(call(function, vec![]))]);
    assert_eq!(print(&p), "(function() {})();\n");
}

#[test]
fn arrow_function_forms() {
    let param = parameter("x");
    let body = FunctionBody {
        span: span(),
        directives: vec![],
        statements: vec![expr_stmt(ident("x"))],
    };
    let arrow = |params: Vec<FormalParameter>, body: FunctionBody| {
        Expression::ArrowFunctionExpression(Box::new(ArrowFunctionExpression {
            type_parameters: None,
            return_type: None,
            span: span(),
            expression: true,
            is_async: false,
            params: FormalParameters { span: span(), items: params, rest: None },
            body,
            pure: false,
            pife: false,
        }))
    };
    let param2 = parameter("x");
    let body2 = FunctionBody {
        span: span(),
        directives: vec![],
        statements: vec![expr_stmt(ident("x"))],
    };
    assert_eq!(print_expr(arrow(vec![param], body)), "(x) => x");
    assert_eq!(print_expr_minified(arrow(vec![param2], body2)), "x=>x");
    let object_body = FunctionBody {
        span: span(),
        directives: vec![],
        statements: vec![expr_stmt(Expression::ObjectExpression(Box::new(ObjectExpression {
            span: span(),
            properties: vec![],
        })))],
    };
    assert_eq!(print_expr(arrow(vec![], object_body)), "() => ({})");
}

#[test]
fn class_with_members() {
    let method = ClassElement::MethodDefinition(Box::new(MethodDefinition {
        is_abstract: false,
        optional: false,
        accessibility: None,
        span: span(),
        decorators: vec![],
        key: PropertyKey::StaticIdentifier(IdentifierName { span: span(), name: "m".to_string() }),
        value: Function {
            declare: false,
            type_parameters: None,
            this_param: None,
            return_type: None,
            span: span(),
            expression: true,
            id: None,
            generator: false,
            is_async: false,
            params: FormalParameters { span: span(), items: vec![], rest: None },
            body: Some(FunctionBody { span: span(), directives: vec![], statements: vec![] }),
            pure: false,
            pife: false,
        },
        kind: MethodDefinitionKind::Method,
        computed: false,
        is_static: true,
    }));
    let field = ClassElement::PropertyDefinition(Box::new(PropertyDefinition {
        type_annotation: None,
        is_abstract: false,
        declare: false,
        optional: false,
        readonly: false,
        accessibility: None,
        span: span(),
        decorators: vec![],
        key: PropertyKey::PrivateIdentifier(PrivateIdentifier {
            span: span(),
            name: "count".to_string(),
        }),
        value: Some(number(0.0)),
        computed: false,
        is_static: false,
    }));
    let class = Statement::ClassDeclaration(Box::new(Class {
        type_parameters: None,
        super_type_arguments: None,
        implements: vec![],
        is_abstract: false,
        declare: false,
        span: span(),
        expression: false,
        decorators: vec![],
        id: Some(BindingIdentifier { span: span(), name: "A".to_string(), symbol_id: None }),
        super_class: Some(ident("B")),
        body: ClassBody { span: span(), body: vec![field, method] },
    }));
    let p = program(vec![class]);
    assert_eq!(print(&p), "class A extends B {\n\t#count = 0;\n\tstatic m() {}\n}\n");
    assert_eq!(print_minified(&p), "class A extends B{#count=0;static m(){}}");
}

#[test]
fn statements_of_several_kinds() {
    let block = Statement::BlockStatement(Box::new(BlockStatement {
        span: span(),
        body: vec![expr_stmt(call(ident("f"), vec![ident("a"), number(2.0)]))],
    }));
    let w = Statement::WhileStatement(Box::new(WhileStatement {
        span: span(),
        test: Expression::BooleanLiteral(Box::new(BooleanLiteral { span: span(), value: true })),
        body: block,
    }));
    let p = program(vec![w, expr_stmt(ident("x"))]);
    assert_eq!(print(&p), "while (true) {\n\tf(a, 2);\n}\nx;\n");
    assert_eq!(print_minified(&p), "while(true){f(a,2)}x;");
}

#[test]
fn conditional_assignment_sequence_and_new() {
    let cond = Expression::ConditionalExpression(Box::new(ConditionalExpression {
        span: span(),
        test: ident("a"),
        consequent: ident("b"),
        alternate: ident("c"),
    }));
    assert_eq!(print_expr(cond), "a ? b : c");
    let assign = Expression::AssignmentExpression(Box::new(AssignmentExpression {
        span: span(),
        operator: AssignmentOperator::Addition,
        left: AssignmentTarget::Simple(SimpleAssignmentTarget::AssignmentTargetIdentifier(
            IdentifierReference { span: span(), name: "x".to_string(), reference_id: None },
        )),
        right: number(1.0),
    }));
    assert_eq!(print_expr(assign), "x += 1");
    let seq = Expression::SequenceExpression(Box::new(SequenceExpression {
        span: span(),
        expressions: vec![ident("a"), ident("b")],
    }));
    assert_eq!(print_expr(call(ident("f"), vec![seq])), "f((a, b))");
    let new = |arguments: Vec<Argument>| {
        Expression::NewExpression(Box::new(NewExpression {
            span: span(),
            callee: ident("A"),
            arguments,
            pure: false,
        }))
    };
    assert_eq!(print_expr(new(vec![])), "new A()");
    assert_eq!(print_expr_minified(new(vec![])), "new A");
    assert_eq!(print_expr_minified(member(new(vec![]), "b")), "new A().b");
    let array = Expression::ArrayExpression(Box::new(ArrayExpression {
        span: span(),
        elements: vec![
            ArrayExpressionElement::Expression(number(1.0)),
            ArrayExpressionElement::Elision(span()),
        ],
    }));
    assert_eq!(print_expr(array), "[1, ,]");
    let this = Expression::ThisExpression(Box::new(ThisExpression { span: span() }));
    let private = Expression::PrivateFieldExpression(Box::new(PrivateFieldExpression {
        span: span(),
        object: this,
        field: PrivateIdentifier { span: span(), name: "x".to_string() },
        optional: false,
    }));
    assert_eq!(print_expr(private), "this.#x");
    let paren = Expression::ParenthesizedExpression(Box::new(ParenthesizedExpression {
        span: span(),
        expression: ident("a"),
    }));
    assert_eq!(print_expr(paren), "a");
}

#[test]
fn indentation_follows_the_options() {
    let block = Statement::BlockStatement(Box::new(BlockStatement {
        span: span(),
        body: vec![expr_stmt(ident("a"))],
    }));
    let p = program(vec![block]);
    let options = CodegenOptions {
        indent_char: IndentChar::Space,
        indent_width: 2,
        initial_indent: 1,
        ..CodegenOptions::default()
    };
    let code = Codegen::new().with_options(options).build(&p).code;
    assert_eq!(code, "  {\n    a;\n  }\n");
}

#[test]
fn printed_text_only_grows() {
    let mut codegen = Codegen::new();
    let mut last = 0;
    for expr in [ident("a"), number(1.5), string("x"), regex("a", "g")] {
        codegen.print_expression(&expr);
        assert!(codegen.code_len() >= last);
        last = codegen.code_len();
    }
    codegen.print_str("");
    assert_eq!(codegen.code_len(), last);
    assert!(String::from_utf8(codegen.into_source_text().into_bytes()).is_ok());
}

#[test]
fn text_beyond_ascii_stays_well_formed() {
    let mut codegen = Codegen::new();
    codegen.print_expression(&ident("é"));
    assert_eq!(codegen.last_char(), Some('é'));
    codegen.print_expression(&ident("ü"));
    assert_eq!(codegen.last_byte(), Some(0xBC));
    codegen.print_expression(&string("☃\u{2028}😀"));
    let text = codegen.into_source_text();
    assert_eq!(text, "é ü\"☃\\u2028😀\"");
    assert!(std::str::from_utf8(text.as_bytes()).is_ok());
}

#[test]
fn print_starts_with_room_for_the_source() {
    let mut codegen = Codegen::new();
    assert_eq!(codegen.code_capacity(), 0);
    codegen.begin("", &vec![]);
    assert_eq!(codegen.code_capacity(), 64);
    let mut codegen = Codegen::new();
    codegen.begin(&"x".repeat(100), &vec![]);
    assert_eq!(codegen.code_capacity(), 128);
    codegen.print_str("abc");
    codegen.begin(&"x".repeat(200), &vec![]);
    assert_eq!(codegen.code_capacity(), 256);
    assert_eq!(codegen.into_source_text(), "abc");
}

#[test]
fn other_options_start_the_text_anew() {
    let mut codegen = Codegen::new();
    codegen.print_expression(&regex("a", "g"));
    codegen.print_expression(&unary(UnaryOperator::UnaryNegation, ident("x")));
    let mut codegen = codegen.with_options(CodegenOptions::default());
    assert_eq!(codegen.code_len(), 0);
    codegen.print_expression(&unary(UnaryOperator::UnaryNegation, ident("y")));
    codegen.print_expression(&ident("z"));
    assert_eq!(codegen.into_source_text(), "-y z");
}
