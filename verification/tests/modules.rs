use oxc_codegen::ast::{
    BindingIdentifier, BindingPattern, BindingPatternKind, Declaration, ExportAllDeclaration,
    ExportDefaultDeclaration, ExportDefaultDeclarationKind, ExportNamedDeclaration,
    ExportSpecifier, Expression, IdentifierName, IdentifierReference, ImportAttribute,
    ImportAttributeKey, ImportDeclaration, ImportDeclarationSpecifier, ImportDefaultSpecifier,
    ImportNamespaceSpecifier, ImportPhase, ImportSpecifier, ModuleExportName, NumberValue,
    NumericLiteral, Program, Statement, StringLiteral, VariableDeclaration,
    VariableDeclarationKind, VariableDeclarator, WithClause, WithClauseKeyword,
};
use oxc_codegen::codegen::Codegen;
use oxc_codegen::comment::Span;
use oxc_codegen::options::CodegenOptions;
use oxc_codegen::typescript::ImportOrExportKind;

fn span() -> Span {
    Span::new(0, 0)
}

fn name(name: &str) -> ModuleExportName {
    ModuleExportName::IdentifierName(IdentifierName { span: span(), name: name.to_string() })
}

fn id(name: &str) -> BindingIdentifier {
    BindingIdentifier { span: span(), name: name.to_string(), symbol_id: None }
}

fn text(value: &str) -> StringLiteral {
    StringLiteral { span: span(), value: value.to_string() }
}

fn import(specifiers: Option<Vec<ImportDeclarationSpecifier>>) -> ImportDeclaration {
    ImportDeclaration {
        span: span(),
        specifiers,
        source: text("m"),
        phase: None,
        with_clause: None,
        import_kind: ImportOrExportKind::Value,
    }
}

fn default_specifier(local: &str) -> ImportDeclarationSpecifier {
    ImportDeclarationSpecifier::ImportDefaultSpecifier(ImportDefaultSpecifier {
        span: span(),
        local: id(local),
    })
}

fn namespace_specifier(local: &str) -> ImportDeclarationSpecifier {
    ImportDeclarationSpecifier::ImportNamespaceSpecifier(ImportNamespaceSpecifier {
        span: span(),
        local: id(local),
    })
}

fn specifier(imported: &str, local: &str) -> ImportDeclarationSpecifier {
    ImportDeclarationSpecifier::ImportSpecifier(ImportSpecifier {
        span: span(),
        imported: name(imported),
        local: id(local),
        import_kind: ImportOrExportKind::Value,
    })
}

fn print_with(statement: Statement, options: CodegenOptions) -> String {
    let program = Program {
        span: span(),
        is_jsx: false,
        source_text: String::new(),
        comments: vec![],
        hashbang: None,
        directives: vec![],
        body: vec![statement],
    };
    Codegen::new().with_options(options).build(&program).code
}

fn print(statement: Statement) -> String {
    print_with(statement, CodegenOptions::default())
}

fn print_import(declaration: ImportDeclaration) -> String {
    print(Statement::ImportDeclaration(Box::new(declaration)))
}

#[test]
fn import_of_a_default_and_names() {
    let mut declaration =
        import(Some(vec![default_specifier("a"), specifier("b", "c"), specifier("d", "d")]));
    declaration.with_clause = Some(WithClause {
        span: span(),
        keyword: WithClauseKeyword::With,
        with_entries: vec![ImportAttribute {
            span: span(),
            key: ImportAttributeKey::Identifier(IdentifierName {
                span: span(),
                name: "type".to_string(),
            }),
            value: text("json"),
        }],
    });
    assert_eq!(
        print_import(declaration),
        "import a, { b as c, d } from \"m\" with { type: \"json\" };\n"
    );
    let minified = import(Some(vec![default_specifier("a"), specifier("b", "c")]));
    assert_eq!(
        print_with(Statement::ImportDeclaration(Box::new(minified)), CodegenOptions::minify()),
        "import a,{b as c}from\"m\";"
    );
}

#[test]
fn import_of_a_namespace() {
    assert_eq!(print_import(import(Some(vec![namespace_specifier("n")]))), "import * as n from \"m\";\n");
    assert_eq!(
        print_import(import(Some(vec![default_specifier("a"), namespace_specifier("n")]))),
        "import a, * as n from \"m\";\n"
    );
}

#[test]
fn import_for_its_effects_alone() {
    assert_eq!(print_import(import(None)), "import \"m\";\n");
    assert_eq!(print_import(import(Some(vec![]))), "import {} from \"m\";\n");
    let mut deferred = import(Some(vec![namespace_specifier("n")]));
    deferred.phase = Some(ImportPhase::Defer);
    assert_eq!(print_import(deferred), "import defer * as n from \"m\";\n");
}

#[test]
fn exports_of_names_and_declarations() {
    let named = Statement::ExportNamedDeclaration(Box::new(ExportNamedDeclaration {
        span: span(),
        declaration: None,
        specifiers: vec![ExportSpecifier {
            span: span(),
            local: name("a"),
            exported: name("b"),
            export_kind: ImportOrExportKind::Value,
        }],
        source: Some(text("m")),
        export_kind: ImportOrExportKind::Value,
    }));
    assert_eq!(print(named), "export { a as b } from \"m\";\n");
    let empty = Statement::ExportNamedDeclaration(Box::new(ExportNamedDeclaration {
        span: span(),
        declaration: None,
        specifiers: vec![],
        source: None,
        export_kind: ImportOrExportKind::Value,
    }));
    assert_eq!(print(empty), "export {};\n");
    let one = Expression::NumericLiteral(Box::new(NumericLiteral {
        span: span(),
        negative: false,
        value: NumberValue::Finite { shortest: "1".to_string(), integer: Some(1) },
        raw: None,
    }));
    let declared = Statement::ExportNamedDeclaration(Box::new(ExportNamedDeclaration {
        span: span(),
        declaration: Some(Declaration::VariableDeclaration(Box::new(VariableDeclaration {
            span: span(),
            kind: VariableDeclarationKind::Const,
            declarations: vec![VariableDeclarator {
                span: span(),
                id: BindingPattern {
                    kind: BindingPatternKind::BindingIdentifier(Box::new(id("x"))),
                    type_annotation: None,
                    optional: false,
                },
                init: Some(one),
                definite: false,
            }],
            declare: false,
        }))),
        specifiers: vec![],
        source: None,
        export_kind: ImportOrExportKind::Value,
    }));
    assert_eq!(print(declared), "export const x = 1;\n");
}

#[test]
fn exports_of_everything_and_of_a_default() {
    let all = |exported: Option<ModuleExportName>| {
        Statement::ExportAllDeclaration(Box::new(ExportAllDeclaration {
            span: span(),
            exported,
            source: text("m"),
            with_clause: None,
            export_kind: ImportOrExportKind::Value,
        }))
    };
    assert_eq!(print(all(None)), "export * from \"m\";\n");
    assert_eq!(print(all(Some(name("n")))), "export * as n from \"m\";\n");
    assert_eq!(print_with(all(Some(name("n"))), CodegenOptions::minify()), "export*as n from\"m\";");
    let default = Statement::ExportDefaultDeclaration(Box::new(ExportDefaultDeclaration {
        span: span(),
        declaration: ExportDefaultDeclarationKind::Expression(Expression::Identifier(Box::new(
            IdentifierReference { span: span(), name: "x".to_string(), reference_id: None },
        ))),
    }));
    assert_eq!(print(default), "export default x;\n");
}
