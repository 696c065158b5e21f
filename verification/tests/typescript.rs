use oxc_codegen::ast::{
    BindingIdentifier, BindingPattern, BindingPatternKind, BindingRestElement, CallExpression,
    Class, ClassBody, ClassElement, Declaration, ExportAllDeclaration, ExportDefaultDeclaration,
    ExportDefaultDeclarationKind, ExportNamedDeclaration, ExportSpecifier, Expression,
    ExpressionStatement, FormalParameter, FormalParameters, Function, FunctionBody,
    IdentifierName, IdentifierReference, ImportDeclaration, ImportDeclarationSpecifier,
    ImportSpecifier, MethodDefinition, MethodDefinitionKind, ModuleExportName, NumberValue,
    NumericLiteral, Program, PropertyDefinition, PropertyKey, Statement, StringLiteral,
    TemplateElement, VariableDeclaration, VariableDeclarationKind, VariableDeclarator,
};
use oxc_codegen::codegen::Codegen;
use oxc_codegen::comment::Span;
use oxc_codegen::options::CodegenOptions;
use oxc_codegen::typescript::{
    ImportOrExportKind, JSDocNullableType, TSAccessibility, TSArrayType, TSAsExpression,
    TSClassImplements, TSConditionalType, TSConstructorType, TSEnumBody, TSEnumDeclaration,
    TSEnumMember, TSEnumMemberName, TSExportAssignment, TSExternalModuleReference,
    TSFunctionType, TSImportEqualsDeclaration, TSImportType, TSImportTypeQualifier,
    TSIndexSignature, TSIndexSignatureName, TSIndexedAccessType, TSInferType,
    TSInstantiationExpression, TSInterfaceBody, TSInterfaceDeclaration, TSInterfaceHeritage,
    TSIntersectionType, TSLiteral, TSLiteralType, TSMappedType, TSMappedTypeModifierOperator,
    TSMethodSignature, TSMethodSignatureKind, TSModuleBlock, TSModuleDeclaration,
    TSModuleDeclarationBody, TSModuleDeclarationKind, TSModuleDeclarationName,
    TSModuleReference, TSNamedTupleMember, TSNamespaceExportDeclaration, TSNonNullExpression,
    TSOptionalType, TSParenthesizedType, TSPropertySignature, TSQualifiedName, TSRestType,
    TSSatisfiesExpression, TSSignature, TSTemplateLiteralType, TSThisParameter, TSTupleElement,
    TSTupleType, TSType, TSTypeAliasDeclaration, TSTypeAnnotation, TSTypeAssertion,
    TSTypeLiteral, TSTypeName, TSTypeOperator, TSTypeOperatorOperator, TSTypeParameter,
    TSTypeParameterDeclaration, TSTypeParameterInstantiation, TSTypePredicate,
    TSTypePredicateName, TSTypeQuery, TSTypeQueryExprName, TSTypeReference, TSUnionType,
};

fn span() -> Span {
    Span::new(0, 0)
}

fn reference(name: &str) -> IdentifierReference {
    IdentifierReference { span: span(), name: name.to_string(), reference_id: None }
}

fn ident(name: &str) -> Expression {
    Expression::Identifier(Box::new(reference(name)))
}

fn name(name: &str) -> IdentifierName {
    IdentifierName { span: span(), name: name.to_string() }
}

fn id(name: &str) -> BindingIdentifier {
    BindingIdentifier { span: span(), name: name.to_string(), symbol_id: None }
}

fn text(value: &str) -> StringLiteral {
    StringLiteral { span: span(), value: value.to_string() }
}

fn one() -> Expression {
    Expression::NumericLiteral(Box::new(NumericLiteral {
        span: span(),
        negative: false,
        value: NumberValue::Finite { shortest: "1".to_string(), integer: Some(1) },
        raw: None,
    }))
}

fn named(of: &str) -> TSType {
    TSType::TSTypeReference(Box::new(TSTypeReference {
        span: span(),
        name: TSTypeName::IdentifierReference(Box::new(reference(of))),
        type_arguments: None,
    }))
}

fn annotation(ty: TSType) -> Option<Box<TSTypeAnnotation>> {
    Some(Box::new(TSTypeAnnotation { span: span(), type_annotation: ty }))
}

fn arguments(types: Vec<TSType>) -> Option<Box<TSTypeParameterInstantiation>> {
    Some(Box::new(TSTypeParameterInstantiation { span: span(), params: types }))
}

fn type_parameter(param: &str) -> TSTypeParameter {
    TSTypeParameter {
        span: span(),
        name: id(param),
        constraint: None,
        default: None,
        is_in: false,
        out: false,
        is_const: false,
    }
}

fn parameters(params: Vec<TSTypeParameter>) -> Option<Box<TSTypeParameterDeclaration>> {
    Some(Box::new(TSTypeParameterDeclaration { span: span(), params }))
}

fn binding(param: &str, ty: Option<TSType>, optional: bool) -> BindingPattern {
    BindingPattern {
        kind: BindingPatternKind::BindingIdentifier(Box::new(id(param))),
        type_annotation: ty.map(|t| Box::new(TSTypeAnnotation { span: span(), type_annotation: t })),
        optional,
    }
}

fn parameter(param: &str, ty: Option<TSType>, optional: bool) -> FormalParameter {
    FormalParameter {
        span: span(),
        decorators: vec![],
        pattern: binding(param, ty, optional),
        accessibility: None,
        readonly: false,
        is_override: false,
    }
}

fn formal(items: Vec<FormalParameter>) -> FormalParameters {
    FormalParameters { span: span(), items, rest: None }
}

fn alias(alias_name: &str, ty: TSType) -> Statement {
    Statement::TSTypeAliasDeclaration(Box::new(TSTypeAliasDeclaration {
        span: span(),
        id: id(alias_name),
        type_parameters: None,
        type_annotation: ty,
        declare: false,
    }))
}

fn expr_stmt(expression: Expression) -> Statement {
    Statement::ExpressionStatement(Box::new(ExpressionStatement { span: span(), expression }))
}

fn program(body: Vec<Statement>) -> Program {
    Program {
        span: span(),
        is_jsx: false,
        source_text: String::new(),
        comments: vec![],
        hashbang: None,
        directives: vec![],
        body,
    }
}

fn print(body: Vec<Statement>) -> String {
    Codegen::new().build(&program(body)).code
}

fn minified(body: Vec<Statement>) -> String {
    Codegen::new().with_options(CodegenOptions::minify()).build(&program(body)).code
}

fn printed_type(ty: TSType) -> String {
    let code = print(vec![alias("X", ty)]);
    code.strip_prefix("type X = ").unwrap().strip_suffix(";\n").unwrap().to_string()
}

fn empty_function(function_name: &str) -> Function {
    Function {
        span: span(),
        expression: false,
        id: Some(id(function_name)),
        generator: false,
        is_async: false,
        declare: false,
        type_parameters: None,
        this_param: None,
        params: formal(vec![]),
        return_type: None,
        body: Some(FunctionBody { span: span(), directives: vec![], statements: vec![] }),
        pure: false,
        pife: false,
    }
}

fn interface(interface_name: &str, body: Vec<TSSignature>) -> TSInterfaceDeclaration {
    TSInterfaceDeclaration {
        span: span(),
        id: id(interface_name),
        type_parameters: None,
        extends: vec![],
        body: TSInterfaceBody { span: span(), body },
    }
}

#[test]
fn type_alias_of_a_union() {
    let union = TSType::TSUnionType(Box::new(TSUnionType {
        span: span(),
        types: vec![TSType::TSStringKeyword(span()), TSType::TSNumberKeyword(span())],
    }));
    assert_eq!(print(vec![alias("A", union)]), "type A = string | number;\n");
    let union = TSType::TSUnionType(Box::new(TSUnionType {
        span: span(),
        types: vec![TSType::TSStringKeyword(span()), TSType::TSNumberKeyword(span())],
    }));
    assert_eq!(minified(vec![alias("A", union)]), "type A=string|number;");
}

#[test]
fn keyword_types() {
    assert_eq!(printed_type(TSType::TSAnyKeyword(span())), "any");
    assert_eq!(printed_type(TSType::TSBigIntKeyword(span())), "bigint");
    assert_eq!(printed_type(TSType::TSBooleanKeyword(span())), "boolean");
    assert_eq!(printed_type(TSType::TSIntrinsicKeyword(span())), "intrinsic");
    assert_eq!(printed_type(TSType::TSNeverKeyword(span())), "never");
    assert_eq!(printed_type(TSType::TSNullKeyword(span())), "null");
    assert_eq!(printed_type(TSType::TSNumberKeyword(span())), "number");
    assert_eq!(printed_type(TSType::TSObjectKeyword(span())), "object");
    assert_eq!(printed_type(TSType::TSStringKeyword(span())), "string");
    assert_eq!(printed_type(TSType::TSSymbolKeyword(span())), "symbol");
    assert_eq!(printed_type(TSType::TSThisType(span())), "this");
    assert_eq!(printed_type(TSType::TSUndefinedKeyword(span())), "undefined");
    assert_eq!(printed_type(TSType::TSUnknownKeyword(span())), "unknown");
    assert_eq!(printed_type(TSType::JSDocUnknownType(span())), "unknown");
    assert_eq!(printed_type(TSType::TSVoidKeyword(span())), "void");
}

#[test]
fn union_members_that_need_parentheses() {
    let function = TSType::TSFunctionType(Box::new(TSFunctionType {
        span: span(),
        type_parameters: None,
        this_param: None,
        params: formal(vec![parameter("a", Some(TSType::TSStringKeyword(span())), false)]),
        return_type: TSTypeAnnotation { span: span(), type_annotation: TSType::TSVoidKeyword(span()) },
    }));
    let constructor = TSType::TSConstructorType(Box::new(TSConstructorType {
        span: span(),
        is_abstract: true,
        type_parameters: None,
        params: formal(vec![]),
        return_type: TSTypeAnnotation { span: span(), type_annotation: named("T") },
    }));
    let conditional = TSType::TSConditionalType(Box::new(TSConditionalType {
        span: span(),
        check_type: named("T"),
        extends_type: named("U"),
        true_type: named("X"),
        false_type: named("Y"),
    }));
    let union = TSType::TSUnionType(Box::new(TSUnionType {
        span: span(),
        types: vec![function, constructor, conditional, named("Z")],
    }));
    assert_eq!(
        printed_type(union),
        "((a: string) => void) | (abstract new () => T) | (T extends U ? X : Y) | Z"
    );
}

#[test]
fn arrays_tuples_and_their_kin() {
    let array = TSType::TSArrayType(Box::new(TSArrayType { span: span(), element_type: named("T") }));
    assert_eq!(printed_type(array), "T[]");
    let tuple = TSType::TSTupleType(Box::new(TSTupleType {
        span: span(),
        element_types: vec![
            TSTupleElement::Type(named("A")),
            TSTupleElement::TSOptionalType(Box::new(TSOptionalType {
                span: span(),
                type_annotation: named("B"),
            })),
            TSTupleElement::TSRestType(Box::new(TSRestType {
                span: span(),
                type_annotation: named("C"),
            })),
            TSTupleElement::Type(TSType::TSNamedTupleMember(Box::new(TSNamedTupleMember {
                span: span(),
                label: name("x"),
                element_type: TSTupleElement::Type(named("D")),
                optional: true,
            }))),
        ],
    }));
    assert_eq!(printed_type(tuple), "[A, B?, ...C, x?: D]");
    let intersection = TSType::TSIntersectionType(Box::new(TSIntersectionType {
        span: span(),
        types: vec![named("A"), named("B")],
    }));
    assert_eq!(printed_type(intersection), "A & B");
    let indexed = TSType::TSIndexedAccessType(Box::new(TSIndexedAccessType {
        span: span(),
        object_type: named("T"),
        index_type: named("K"),
    }));
    let parenthesized = TSType::TSParenthesizedType(Box::new(TSParenthesizedType {
        span: span(),
        type_annotation: indexed,
    }));
    assert_eq!(printed_type(parenthesized), "(T[K])");
    let infer = TSType::TSInferType(Box::new(TSInferType {
        span: span(),
        type_parameter: type_parameter("U"),
    }));
    assert_eq!(printed_type(infer), "infer U");
    let operator = TSType::TSTypeOperatorType(Box::new(TSTypeOperator {
        span: span(),
        operator: TSTypeOperatorOperator::Keyof,
        type_annotation: named("T"),
    }));
    assert_eq!(printed_type(operator), "keyof T");
    let nullable = TSType::JSDocNullableType(Box::new(JSDocNullableType {
        span: span(),
        type_annotation: named("T"),
        postfix: false,
    }));
    assert_eq!(printed_type(nullable), "?T");
}

#[test]
fn mapped_type_with_its_modifiers() {
    let mut key = type_parameter("K");
    key.constraint = Some(TSType::TSTypeOperatorType(Box::new(TSTypeOperator {
        span: span(),
        operator: TSTypeOperatorOperator::Keyof,
        type_annotation: named("T"),
    })));
    let mapped = TSType::TSMappedType(Box::new(TSMappedType {
        span: span(),
        type_parameter: key,
        name_type: Some(named("N")),
        type_annotation: Some(TSType::TSIndexedAccessType(Box::new(TSIndexedAccessType {
            span: span(),
            object_type: named("T"),
            index_type: named("K"),
        }))),
        optional: Some(TSMappedTypeModifierOperator::Minus),
        readonly: Some(TSMappedTypeModifierOperator::True),
    }));
    assert_eq!(printed_type(mapped), "{ readonly [K in keyof T as N]-? : T[K] }");
}

#[test]
fn names_queries_and_literals() {
    let qualified = TSType::TSTypeReference(Box::new(TSTypeReference {
        span: span(),
        name: TSTypeName::QualifiedName(Box::new(TSQualifiedName {
            span: span(),
            left: TSTypeName::IdentifierReference(Box::new(reference("A"))),
            right: name("B"),
        })),
        type_arguments: arguments(vec![named("T"), TSType::TSStringKeyword(span())]),
    }));
    assert_eq!(printed_type(qualified), "A.B<T, string>");
    let query = TSType::TSTypeQuery(Box::new(TSTypeQuery {
        span: span(),
        expr_name: TSTypeQueryExprName::TypeName(TSTypeName::IdentifierReference(Box::new(
            reference("x"),
        ))),
        type_arguments: None,
    }));
    assert_eq!(printed_type(query), "typeof x");
    let import = TSType::TSImportType(Box::new(TSImportType {
        span: span(),
        argument: TSType::TSLiteralType(Box::new(TSLiteralType {
            span: span(),
            literal: TSLiteral::StringLiteral(Box::new(text("m"))),
        })),
        options: None,
        qualifier: Some(TSImportTypeQualifier::Identifier(Box::new(name("A")))),
        type_arguments: arguments(vec![named("T")]),
    }));
    assert_eq!(printed_type(import), "import(\"m\").A<T>");
    let predicate = TSType::TSTypePredicate(Box::new(TSTypePredicate {
        span: span(),
        parameter_name: TSTypePredicateName::Identifier(Box::new(name("x"))),
        asserts: true,
        type_annotation: annotation(named("T")),
    }));
    assert_eq!(printed_type(predicate), "asserts x is T");
    let template = TSType::TSTemplateLiteralType(Box::new(TSTemplateLiteralType {
        span: span(),
        quasis: vec![
            TemplateElement { span: span(), raw: "a".to_string() },
            TemplateElement { span: span(), raw: "b".to_string() },
        ],
        types: vec![named("T")],
    }));
    assert_eq!(printed_type(template), "`a${T}b`");
}

#[test]
fn type_parameters_on_lines_of_their_own() {
    let mut second = type_parameter("B");
    second.constraint = Some(named("C"));
    second.default = Some(named("D"));
    let mut first = type_parameter("A");
    first.is_const = true;
    first.is_in = true;
    first.out = true;
    let two = Statement::TSTypeAliasDeclaration(Box::new(TSTypeAliasDeclaration {
        span: span(),
        id: id("X"),
        type_parameters: parameters(vec![first, second]),
        type_annotation: named("A"),
        declare: true,
    }));
    assert_eq!(
        print(vec![two]),
        "declare type X<\n\tconst in out A,\n\tB extends C = D\n> = A;\n"
    );
    let single = |is_jsx: bool| {
        let mut p = program(vec![Statement::TSTypeAliasDeclaration(Box::new(
            TSTypeAliasDeclaration {
                span: span(),
                id: id("X"),
                type_parameters: parameters(vec![type_parameter("T")]),
                type_annotation: named("T"),
                declare: false,
            },
        ))]);
        p.is_jsx = is_jsx;
        Codegen::new().build(&p).code
    };
    assert_eq!(single(false), "type X<T> = T;\n");
    assert_eq!(single(true), "type X<T,> = T;\n");
}

#[test]
fn interface_with_each_kind_of_member() {
    let property = TSSignature::TSPropertySignature(Box::new(TSPropertySignature {
        span: span(),
        computed: false,
        optional: false,
        readonly: false,
        key: PropertyKey::StaticIdentifier(name("a")),
        type_annotation: annotation(TSType::TSStringKeyword(span())),
    }));
    let method = TSSignature::TSMethodSignature(Box::new(TSMethodSignature {
        span: span(),
        key: PropertyKey::StaticIdentifier(name("b")),
        computed: false,
        optional: true,
        kind: TSMethodSignatureKind::Method,
        type_parameters: None,
        this_param: None,
        params: formal(vec![parameter("x", Some(TSType::TSNumberKeyword(span())), false)]),
        return_type: annotation(TSType::TSVoidKeyword(span())),
    }));
    let getter = TSSignature::TSMethodSignature(Box::new(TSMethodSignature {
        span: span(),
        key: PropertyKey::Expression(Expression::StringLiteral(Box::new(text("c")))),
        computed: true,
        optional: false,
        kind: TSMethodSignatureKind::Getter,
        type_parameters: None,
        this_param: None,
        params: formal(vec![]),
        return_type: None,
    }));
    let index = TSSignature::TSIndexSignature(Box::new(TSIndexSignature {
        span: span(),
        parameters: vec![TSIndexSignatureName {
            span: span(),
            name: "k".to_string(),
            type_annotation: TSTypeAnnotation {
                span: span(),
                type_annotation: TSType::TSStringKeyword(span()),
            },
        }],
        type_annotation: TSTypeAnnotation { span: span(), type_annotation: named("T") },
        readonly: true,
    }));
    let mut decl = interface("I", vec![property, method, getter, index]);
    decl.type_parameters = parameters(vec![type_parameter("T")]);
    decl.extends = vec![
        TSInterfaceHeritage { span: span(), expression: ident("B"), type_arguments: None },
        TSInterfaceHeritage {
            span: span(),
            expression: ident("C"),
            type_arguments: arguments(vec![named("T")]),
        },
    ];
    assert_eq!(
        print(vec![Statement::TSInterfaceDeclaration(Box::new(decl))]),
        "interface I<T> extends B, C<T> {\n\ta: string;\n\tb?(x: number): void;\n\tget [\"c\"]();\n\treadonly [k: string]: T;\n}\n"
    );
    assert_eq!(
        print(vec![Statement::TSInterfaceDeclaration(Box::new(interface("E", vec![])))]),
        "interface E {}\n"
    );
    let literal = TSType::TSTypeLiteral(Box::new(TSTypeLiteral { span: span(), members: vec![] }));
    assert_eq!(printed_type(literal), "{}");
}

#[test]
fn enum_members_are_parted_by_commas() {
    let members = vec![
        TSEnumMember {
            span: span(),
            id: TSEnumMemberName::Identifier(Box::new(name("A"))),
            initializer: Some(one()),
        },
        TSEnumMember {
            span: span(),
            id: TSEnumMemberName::ComputedString(Box::new(text("b"))),
            initializer: None,
        },
        TSEnumMember {
            span: span(),
            id: TSEnumMemberName::StringLiteral(Box::new(text("c"))),
            initializer: None,
        },
    ];
    let decl = Statement::TSEnumDeclaration(Box::new(TSEnumDeclaration {
        span: span(),
        id: id("E"),
        body: TSEnumBody { span: span(), members },
        is_const: true,
        declare: false,
    }));
    assert_eq!(print(vec![decl]), "const enum E {\n\tA = 1,\n\t[\"b\"],\n\t\"c\"\n}\n");
    let empty = Statement::TSEnumDeclaration(Box::new(TSEnumDeclaration {
        span: span(),
        id: id("E"),
        body: TSEnumBody { span: span(), members: vec![] },
        is_const: false,
        declare: true,
    }));
    assert_eq!(print(vec![empty]), "declare enum E {}\n");
}

#[test]
fn nested_modules_are_joined_by_dots() {
    let inner = TSModuleDeclaration {
        span: span(),
        id: TSModuleDeclarationName::Identifier(id("B")),
        body: Some(TSModuleDeclarationBody::TSModuleBlock(Box::new(TSModuleBlock {
            span: span(),
            directives: vec![],
            body: vec![expr_stmt(ident("x"))],
        }))),
        kind: TSModuleDeclarationKind::Namespace,
        declare: false,
    };
    let outer = Statement::TSModuleDeclaration(Box::new(TSModuleDeclaration {
        span: span(),
        id: TSModuleDeclarationName::Identifier(id("A")),
        body: Some(TSModuleDeclarationBody::TSModuleDeclaration(Box::new(inner))),
        kind: TSModuleDeclarationKind::Namespace,
        declare: true,
    }));
    assert_eq!(print(vec![outer]), "declare namespace A.B {\n\tx;\n}\n");
    let global = Statement::TSModuleDeclaration(Box::new(TSModuleDeclaration {
        span: span(),
        id: TSModuleDeclarationName::Identifier(id("global")),
        body: Some(TSModuleDeclarationBody::TSModuleBlock(Box::new(TSModuleBlock {
            span: span(),
            directives: vec![],
            body: vec![],
        }))),
        kind: TSModuleDeclarationKind::Global,
        declare: true,
    }));
    assert_eq!(print(vec![global]), "declare global {}\n");
    let ambient = Statement::TSModuleDeclaration(Box::new(TSModuleDeclaration {
        span: span(),
        id: TSModuleDeclarationName::StringLiteral(text("m")),
        body: None,
        kind: TSModuleDeclarationKind::Module,
        declare: true,
    }));
    assert_eq!(print(vec![ambient]), "declare module \"m\";\n");
}

#[test]
fn typed_expressions() {
    let as_expr = Expression::TSAsExpression(Box::new(TSAsExpression {
        span: span(),
        expression: ident("x"),
        type_annotation: named("T"),
    }));
    assert_eq!(print(vec![expr_stmt(as_expr)]), "x as T;\n");
    let satisfies = Expression::TSSatisfiesExpression(Box::new(TSSatisfiesExpression {
        span: span(),
        expression: ident("x"),
        type_annotation: named("T"),
    }));
    assert_eq!(print(vec![expr_stmt(satisfies)]), "((x) satisfies T);\n");
    let non_null = || {
        Expression::TSNonNullExpression(Box::new(TSNonNullExpression {
            span: span(),
            expression: ident("x"),
        }))
    };
    assert_eq!(print(vec![expr_stmt(non_null())]), "x!;\n");
    assert_eq!(minified(vec![expr_stmt(non_null())]), "x! ;");
    let assertion = Expression::TSTypeAssertion(Box::new(TSTypeAssertion {
        span: span(),
        type_annotation: named("T"),
        expression: ident("x"),
    }));
    assert_eq!(print(vec![expr_stmt(assertion)]), "(<T>x);\n");
    let instantiation = Expression::TSInstantiationExpression(Box::new(TSInstantiationExpression {
        span: span(),
        expression: ident("f"),
        type_arguments: TSTypeParameterInstantiation { span: span(), params: vec![named("T")] },
    }));
    assert_eq!(print(vec![expr_stmt(instantiation)]), "f<T>;\n");
    let call = Expression::CallExpression(Box::new(CallExpression {
        span: span(),
        callee: ident("f"),
        type_arguments: arguments(vec![named("T")]),
        arguments: vec![],
        optional: false,
        pure: false,
    }));
    assert_eq!(print(vec![expr_stmt(call)]), "f<T>();\n");
}

#[test]
fn function_with_typed_parameters() {
    let mut function = empty_function("f");
    function.type_parameters = parameters(vec![type_parameter("T")]);
    function.this_param = Some(Box::new(TSThisParameter {
        span: span(),
        type_annotation: annotation(named("Window")),
    }));
    function.params = FormalParameters {
        span: span(),
        items: vec![parameter("a", Some(TSType::TSNumberKeyword(span())), true)],
        rest: Some(BindingRestElement {
            span: span(),
            argument: binding(
                "rest",
                Some(TSType::TSArrayType(Box::new(TSArrayType {
                    span: span(),
                    element_type: TSType::TSStringKeyword(span()),
                }))),
                false,
            ),
        }),
    };
    function.return_type = annotation(TSType::TSVoidKeyword(span()));
    assert_eq!(
        print(vec![Statement::FunctionDeclaration(Box::new(function))]),
        "function f<T>(this: Window, a?: number, ...rest: string[]): void {}\n"
    );
    let mut declared = empty_function("g");
    declared.declare = true;
    declared.body = None;
    assert_eq!(
        print(vec![Statement::FunctionDeclaration(Box::new(declared))]),
        "declare function g();\n"
    );
}

#[test]
fn class_with_modifiers() {
    let field = ClassElement::PropertyDefinition(Box::new(PropertyDefinition {
        span: span(),
        decorators: vec![],
        key: PropertyKey::StaticIdentifier(name("x")),
        type_annotation: annotation(TSType::TSNumberKeyword(span())),
        value: Some(one()),
        computed: false,
        is_static: true,
        is_abstract: false,
        declare: false,
        optional: true,
        readonly: true,
        accessibility: Some(TSAccessibility::Private),
    }));
    let mut signature = empty_function("m");
    signature.id = None;
    signature.body = None;
    signature.return_type = annotation(TSType::TSVoidKeyword(span()));
    let method = ClassElement::MethodDefinition(Box::new(MethodDefinition {
        span: span(),
        decorators: vec![],
        key: PropertyKey::StaticIdentifier(name("m")),
        value: signature,
        kind: MethodDefinitionKind::Method,
        computed: false,
        is_static: false,
        is_abstract: true,
        optional: true,
        accessibility: Some(TSAccessibility::Protected),
    }));
    let mut constructor = empty_function("constructor");
    constructor.id = None;
    let mut promoted = parameter("y", Some(TSType::TSStringKeyword(span())), false);
    promoted.accessibility = Some(TSAccessibility::Public);
    promoted.readonly = true;
    promoted.is_override = true;
    constructor.params = formal(vec![promoted]);
    let constructor = ClassElement::MethodDefinition(Box::new(MethodDefinition {
        span: span(),
        decorators: vec![],
        key: PropertyKey::StaticIdentifier(name("constructor")),
        value: constructor,
        kind: MethodDefinitionKind::Constructor,
        computed: false,
        is_static: false,
        is_abstract: false,
        optional: false,
        accessibility: None,
    }));
    let index = ClassElement::TSIndexSignature(Box::new(TSIndexSignature {
        span: span(),
        parameters: vec![TSIndexSignatureName {
            span: span(),
            name: "k".to_string(),
            type_annotation: TSTypeAnnotation {
                span: span(),
                type_annotation: TSType::TSStringKeyword(span()),
            },
        }],
        type_annotation: TSTypeAnnotation { span: span(), type_annotation: named("T") },
        readonly: false,
    }));
    let class = Statement::ClassDeclaration(Box::new(Class {
        span: span(),
        expression: false,
        decorators: vec![],
        id: Some(id("C")),
        type_parameters: parameters(vec![type_parameter("T")]),
        super_class: Some(ident("B")),
        super_type_arguments: arguments(vec![named("T")]),
        implements: vec![
            TSClassImplements {
                span: span(),
                expression: TSTypeName::IdentifierReference(Box::new(reference("I"))),
                type_arguments: None,
            },
            TSClassImplements {
                span: span(),
                expression: TSTypeName::IdentifierReference(Box::new(reference("J"))),
                type_arguments: arguments(vec![named("T")]),
            },
        ],
        body: ClassBody { span: span(), body: vec![field, method, constructor, index] },
        is_abstract: true,
        declare: false,
    }));
    assert_eq!(
        print(vec![class]),
        "abstract class C<T> extends B<T> implements I, J<T> {\n\tprivate static readonly x?: number = 1;\n\tprotected abstract m?(): void;\n\tconstructor(public override readonly y: string) {}\n\t[k: string]: T;\n}\n"
    );
}

#[test]
fn declarations_with_types() {
    let decl = Statement::VariableDeclaration(Box::new(VariableDeclaration {
        span: span(),
        kind: VariableDeclarationKind::Let,
        declarations: vec![VariableDeclarator {
            span: span(),
            id: binding("x", Some(TSType::TSNumberKeyword(span())), false),
            init: None,
            definite: true,
        }],
        declare: true,
    }));
    assert_eq!(print(vec![decl]), "declare let x!: number;\n");
}

#[test]
fn imports_and_exports_of_types() {
    let specifier = |kind: ImportOrExportKind, local: &str| {
        ImportDeclarationSpecifier::ImportSpecifier(ImportSpecifier {
            span: span(),
            imported: ModuleExportName::IdentifierName(name("A")),
            local: id(local),
            import_kind: kind,
        })
    };
    let import = |kind: ImportOrExportKind, specifiers| {
        Statement::ImportDeclaration(Box::new(ImportDeclaration {
            span: span(),
            specifiers: Some(specifiers),
            source: text("a"),
            phase: None,
            with_clause: None,
            import_kind: kind,
        }))
    };
    assert_eq!(
        print(vec![import(
            ImportOrExportKind::Type,
            vec![specifier(ImportOrExportKind::Value, "A")]
        )]),
        "import type { A } from \"a\";\n"
    );
    assert_eq!(
        print(vec![import(
            ImportOrExportKind::Value,
            vec![specifier(ImportOrExportKind::Type, "B")]
        )]),
        "import { type A as B } from \"a\";\n"
    );
    let export = Statement::ExportNamedDeclaration(Box::new(ExportNamedDeclaration {
        span: span(),
        declaration: None,
        specifiers: vec![
            ExportSpecifier {
                span: span(),
                local: ModuleExportName::IdentifierName(name("A")),
                exported: ModuleExportName::IdentifierName(name("A")),
                export_kind: ImportOrExportKind::Value,
            },
            ExportSpecifier {
                span: span(),
                local: ModuleExportName::IdentifierName(name("B")),
                exported: ModuleExportName::IdentifierName(name("C")),
                export_kind: ImportOrExportKind::Type,
            },
        ],
        source: None,
        export_kind: ImportOrExportKind::Type,
    }));
    assert_eq!(print(vec![export]), "export type { A, type B as C };\n");
    let all = Statement::ExportAllDeclaration(Box::new(ExportAllDeclaration {
        span: span(),
        exported: None,
        source: text("a"),
        with_clause: None,
        export_kind: ImportOrExportKind::Type,
    }));
    assert_eq!(print(vec![all]), "export type * from \"a\";\n");
    let declared = Statement::ExportNamedDeclaration(Box::new(ExportNamedDeclaration {
        span: span(),
        declaration: Some(Declaration::TSInterfaceDeclaration(Box::new(interface("I", vec![])))),
        specifiers: vec![],
        source: None,
        export_kind: ImportOrExportKind::Value,
    }));
    assert_eq!(print(vec![declared]), "export interface I {}\n");
    let default = Statement::ExportDefaultDeclaration(Box::new(ExportDefaultDeclaration {
        span: span(),
        declaration: ExportDefaultDeclarationKind::TSInterfaceDeclaration(Box::new(interface(
            "I",
            vec![],
        ))),
    }));
    assert_eq!(print(vec![default]), "export default interface I {}");
    let equals = Statement::TSImportEqualsDeclaration(Box::new(TSImportEqualsDeclaration {
        span: span(),
        id: id("x"),
        module_reference: TSModuleReference::ExternalModuleReference(Box::new(
            TSExternalModuleReference { span: span(), expression: text("m") },
        )),
    }));
    assert_eq!(print(vec![equals]), "import x = require(\"m\");\n");
    let assignment = Statement::TSExportAssignment(Box::new(TSExportAssignment {
        span: span(),
        expression: ident("x"),
    }));
    assert_eq!(print(vec![assignment]), "export = x;\n");
    let namespace = Statement::TSNamespaceExportDeclaration(Box::new(
        TSNamespaceExportDeclaration { span: span(), id: name("N") },
    ));
    assert_eq!(print(vec![namespace]), "export as namespace N;\n");
}
