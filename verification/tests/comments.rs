use oxc_codegen::ast::{
    BindingIdentifier, Class, ClassBody, ClassElement, Expression, ExpressionStatement,
    IdentifierReference, PrivateIdentifier, Program, PropertyDefinition, PropertyKey, Statement,
};
use oxc_codegen::codegen::Codegen;
use oxc_codegen::comment::{
    Comment, CommentContent, CommentKind, CommentPosition, CommentsMap, Span,
};
use oxc_codegen::options::{CodegenOptions, CommentOptions, LegalComment};
use oxc_codegen::scoping::Scoping;
use oxc_codegen::sourcemap::{Mapping, Position, SourceMapData};
use rustc_hash::FxHashMap;

fn comment(start: u32, end: u32, kind: CommentKind, attached_to: u32) -> Comment {
    Comment {
        span: Span::new(start, end),
        attached_to,
        kind,
        position: CommentPosition::Leading,
        newline_before: false,
        newline_after: true,
        content: CommentContent::Plain,
    }
}

fn name_statement(name: &str, start: u32) -> Statement {
    let end = start + name.len() as u32;
    Statement::ExpressionStatement(Box::new(ExpressionStatement {
        span: Span::new(start, end + 1),
        expression: Expression::Identifier(Box::new(IdentifierReference {
            span: Span::new(start, end),
            name: name.to_string(),
            reference_id: None,
        })),
    }))
}

fn program(source: &str, comments: Vec<Comment>, body: Vec<Statement>) -> Program {
    Program {
        span: Span::new(0, source.len() as u32),
        is_jsx: false,
        source_text: source.to_string(),
        comments,
        hashbang: None,
        directives: vec![],
        body,
    }
}

fn legal_options(legal: LegalComment) -> CodegenOptions {
    CodegenOptions {
        comments: CommentOptions { legal, ..CommentOptions::default() },
        ..CodegenOptions::default()
    }
}

#[test]
fn store_hands_comments_out_once() {
    let mut store = CommentsMap::new();
    assert!(store.is_empty());
    let a = comment(0, 3, CommentKind::Line, 7);
    let b = comment(4, 6, CommentKind::Block, 7);
    let c = comment(1, 2, CommentKind::Line, 3);
    store.insert(7, a);
    store.insert(3, c);
    store.insert(7, b);
    assert!(!store.is_empty());
    assert!(store.has(7));
    assert!(store.has(3));
    assert!(!store.has(5));
    assert_eq!(store.peek(7), Some(&vec![a, b]));
    assert_eq!(store.take(7), Some(vec![a, b]));
    assert!(!store.has(7));
    assert_eq!(store.peek(7), None);
    assert_eq!(store.take(7), None);
    assert_eq!(store.take(5), None);
    assert_eq!(store.take(3), Some(vec![c]));
    assert!(store.is_empty());
    store.insert(7, c);
    assert_eq!(store.take(7), Some(vec![c]));
    store.insert(9, a);
    store.clear();
    assert!(store.is_empty());
    assert!(!store.has(9));
}

#[test]
fn line_comment_before_a_statement() {
    let source = "// note\nx;\n";
    let p = program(
        source,
        vec![comment(0, 7, CommentKind::Line, 8)],
        vec![name_statement("x", 8)],
    );
    assert_eq!(Codegen::new().build(&p).code, "// note\nx;\n");
    let off = CodegenOptions { comments: CommentOptions::disabled(), ..CodegenOptions::default() };
    assert_eq!(Codegen::new().with_options(off).build(&p).code, "x;\n");
}

#[test]
fn block_comment_is_indented_anew() {
    let source = "/**\r\n   * doc </script>\u{2028}   */\nx;";
    let end = source.find("\nx").unwrap() as u32;
    let p = program(
        source,
        vec![comment(0, end, CommentKind::Block, end + 1)],
        vec![name_statement("x", end + 1)],
    );
    assert_eq!(Codegen::new().build(&p).code, "/**\n* doc <\\/script>\n*/\nx;\n");
}

#[test]
fn inline_block_comment_is_followed_by_a_space() {
    let source = "/* a */ x;";
    let mut c = comment(0, 7, CommentKind::Block, 8);
    c.newline_after = false;
    let p = program(source, vec![c], vec![name_statement("x", 8)]);
    assert_eq!(Codegen::new().build(&p).code, "/* a */ x;\n");
}

#[test]
fn pure_and_trailing_comments_are_not_stored() {
    let source = "/* @__PURE__ */ x; // tail";
    let mut pure = comment(0, 15, CommentKind::Block, 16);
    pure.content = CommentContent::Pure;
    let mut trailing = comment(19, 26, CommentKind::Line, 16);
    trailing.position = CommentPosition::Trailing;
    let p = program(source, vec![pure, trailing], vec![name_statement("x", 16)]);
    assert_eq!(Codegen::new().build(&p).code, "x;\n");
}

#[test]
fn comment_outside_the_source_prints_nothing() {
    let p = program("x;", vec![comment(1, 40, CommentKind::Line, 0)], vec![name_statement("x", 0)]);
    assert_eq!(Codegen::new().build(&p).code, "\nx;\n");
}

#[test]
fn legal_comments_at_the_end() {
    let source = "/*! lic */\nx;\n/*! lic */\ny;";
    let mut first = comment(0, 10, CommentKind::Block, 11);
    first.content = CommentContent::Legal;
    let mut second = comment(14, 24, CommentKind::Block, 25);
    second.content = CommentContent::Legal;
    let p = program(
        source,
        vec![first, second],
        vec![name_statement("x", 11), name_statement("y", 25)],
    );
    let inline = Codegen::new().build(&p);
    assert_eq!(inline.code, "/*! lic */\nx;\n/*! lic */\ny;\n");
    assert!(inline.legal_comments.is_empty());
    let eof = Codegen::new().with_options(legal_options(LegalComment::Eof)).build(&p);
    assert_eq!(eof.code, "x;\ny;\n\n/*! lic */\n");
    assert!(eof.legal_comments.is_empty());
    let linked = Codegen::new()
        .with_options(legal_options(LegalComment::Linked("out.LEGAL.txt".to_string())))
        .build(&p);
    assert_eq!(linked.code, "x;\ny;\n\n/*! For license information please see out.LEGAL.txt */");
    assert_eq!(linked.legal_comments, vec![first]);
    let external = Codegen::new().with_options(legal_options(LegalComment::External)).build(&p);
    assert_eq!(external.code, "x;\ny;\n");
    assert_eq!(external.legal_comments, vec![first]);
    let off = Codegen::new().with_options(legal_options(LegalComment::Off)).build(&p);
    assert_eq!(off.code, "x;\ny;\n");
    assert!(off.legal_comments.is_empty());
}

#[test]
fn legal_block_comments_are_compared_without_their_indentation() {
    let source = "/*!\n * a\n */\n/*!\n     * a\n     */\nx;";
    let mut first = comment(0, 12, CommentKind::Block, 34);
    first.content = CommentContent::Legal;
    let mut second = comment(13, 33, CommentKind::Block, 34);
    second.content = CommentContent::Legal;
    let p = program(source, vec![first, second], vec![name_statement("x", 34)]);
    let external = Codegen::new().with_options(legal_options(LegalComment::External)).build(&p);
    assert_eq!(external.legal_comments, vec![first]);
}

#[test]
fn source_map_records_where_names_came_from() {
    let source = "a;\nb;";
    let p = program(source, vec![], vec![name_statement("a", 0), name_statement("b", 3)]);
    let options =
        CodegenOptions { source_map_path: Some("in.js".to_string()), ..CodegenOptions::default() };
    let ret = Codegen::new().with_options(options).build(&p);
    assert_eq!(ret.code, "a;\nb;\n");
    let map = ret.map.unwrap();
    assert_eq!(map.file, "in.js");
    assert_eq!(map.source, source);
    assert_eq!(map.mappings.len(), 2);
    assert_eq!(map.mappings[0].generated, Position { line: 0, column: 0 });
    assert_eq!(map.mappings[0].original, Position { line: 0, column: 0 });
    assert_eq!(map.mappings[1].generated, Position { line: 1, column: 0 });
    assert_eq!(map.mappings[1].original, Position { line: 1, column: 0 });
    assert_eq!(map.mappings[1].name, None);
    let outside = map.to_oxc_sourcemap();
    let tokens: Vec<_> = outside.get_tokens().collect();
    assert_eq!(tokens.len(), 2);
    assert_eq!(tokens[1].get_dst_line(), 1);
    assert_eq!(tokens[1].get_src_line(), 1);
    assert_eq!(outside.get_source(0).map(|s| s.to_string()), Some("in.js".to_string()));
    assert!(Codegen::new().build(&p).map.is_none());
}

#[test]
fn source_map_columns_count_utf16_units() {
    let source = "\"é😀\";x;";
    let x_at = source.find('x').unwrap() as u32;
    let string = Statement::ExpressionStatement(Box::new(ExpressionStatement {
        span: Span::new(0, x_at),
        expression: Expression::StringLiteral(Box::new(oxc_codegen::ast::StringLiteral {
            span: Span::new(0, x_at - 1),
            value: "é😀".to_string(),
        })),
    }));
    let p = program(source, vec![], vec![string, name_statement("x", x_at)]);
    let options = CodegenOptions {
        source_map_path: Some("in.js".to_string()),
        minify: true,
        ..CodegenOptions::default()
    };
    let ret = Codegen::new().with_options(options).build(&p);
    assert_eq!(ret.code, "(\"é😀\");x;");
    let map = ret.map.unwrap();
    let last = map.mappings.last().unwrap();
    assert_eq!(last.original, Position { line: 0, column: 6 });
    assert_eq!(last.generated, Position { line: 0, column: 8 });
}

#[test]
fn renamed_names_are_printed_and_recorded() {
    let source = "a;";
    let reference = Statement::ExpressionStatement(Box::new(ExpressionStatement {
        span: Span::new(0, 2),
        expression: Expression::Identifier(Box::new(IdentifierReference {
            span: Span::new(0, 1),
            name: "a".to_string(),
            reference_id: Some(0),
        })),
    }));
    let p = program(source, vec![], vec![reference]);
    let scoping =
        Scoping { symbol_names: vec!["q".to_string()], reference_symbols: vec![Some(0)] };
    let options =
        CodegenOptions { source_map_path: Some("in.js".to_string()), ..CodegenOptions::default() };
    let ret = Codegen::new().with_options(options).with_scoping(Some(scoping)).build(&p);
    assert_eq!(ret.code, "q;\n");
    let map = ret.map.unwrap();
    assert_eq!(map.mappings[0].name, Some("a".to_string()));
    let outside = map.to_oxc_sourcemap();
    assert_eq!(outside.get_names().map(|n| n.to_string()).collect::<Vec<_>>(), vec!["a"]);
    let unresolved =
        Scoping { symbol_names: vec!["q".to_string()], reference_symbols: vec![None] };
    assert_eq!(Codegen::new().with_scoping(Some(unresolved)).build(&p).code, "a;\n");
    let out_of_range = Scoping { symbol_names: vec![], reference_symbols: vec![Some(5)] };
    assert_eq!(Codegen::new().with_scoping(Some(out_of_range)).build(&p).code, "a;\n");
}

#[test]
fn private_names_are_mangled_by_the_innermost_class() {
    let field = |name: &str| {
        ClassElement::PropertyDefinition(Box::new(PropertyDefinition {
            type_annotation: None,
            is_abstract: false,
            declare: false,
            optional: false,
            readonly: false,
            accessibility: None,
            span: Span::new(0, 0),
            decorators: vec![],
            key: PropertyKey::PrivateIdentifier(PrivateIdentifier {
                span: Span::new(0, 0),
                name: name.to_string(),
            }),
            value: None,
            computed: false,
            is_static: false,
        }))
    };
    let class = |name: &str, body: Vec<ClassElement>| Class {
        type_parameters: None,
        super_type_arguments: None,
        implements: vec![],
        is_abstract: false,
        declare: false,
        span: Span::new(0, 0),
        expression: false,
        decorators: vec![],
        id: Some(BindingIdentifier {
            span: Span::new(0, 0),
            name: name.to_string(),
            symbol_id: None,
        }),
        super_class: None,
        body: ClassBody { span: Span::new(0, 0), body },
    };
    let p = program(
        "",
        vec![],
        vec![
            Statement::ClassDeclaration(Box::new(class("A", vec![field("count"), field("other")]))),
            Statement::ClassDeclaration(Box::new(class("B", vec![field("count")]))),
        ],
    );
    let mut first = FxHashMap::default();
    first.insert("count".to_string(), "a".to_string());
    let second = FxHashMap::default();
    let ret = Codegen::new()
        .with_options(CodegenOptions::minify())
        .with_private_member_mappings(Some(vec![first, second]))
        .build(&p);
    assert_eq!(ret.code, "class A{#a;#other}class B{#count}");
}

#[test]
fn outside_map_holds_each_name_once() {
    let entry = |line: u32, column: u32, name: Option<&str>| Mapping {
        generated: Position { line, column },
        original: Position { line: line + 1, column: column + 2 },
        name: name.map(str::to_string),
    };
    let record = SourceMapData {
        file: "in.js".to_string(),
        source: "source text".to_string(),
        mappings: vec![
            entry(0, 0, Some("a")),
            entry(0, 4, Some("b")),
            entry(1, 0, None),
            entry(2, 3, Some("a")),
        ],
    };
    let map = record.to_oxc_sourcemap();
    assert_eq!(map.get_sources().map(|s| s.to_string()).collect::<Vec<_>>(), vec!["in.js"]);
    assert_eq!(
        map.get_source_contents().map(|s| s.map(|t| t.to_string())).collect::<Vec<_>>(),
        vec![Some("source text".to_string())]
    );
    assert_eq!(map.get_names().map(|n| n.to_string()).collect::<Vec<_>>(), vec!["a", "b"]);
    let tokens: Vec<_> = map.get_tokens().collect();
    assert_eq!(tokens.len(), 4);
    let name_ids: Vec<_> = tokens.iter().map(|t| t.get_name_id()).collect();
    assert_eq!(name_ids, vec![Some(0), Some(1), None, Some(0)]);
    for (token, mapping) in tokens.iter().zip(&record.mappings) {
        assert_eq!(token.get_dst_line(), mapping.generated.line);
        assert_eq!(token.get_dst_col(), mapping.generated.column);
        assert_eq!(token.get_src_line(), mapping.original.line);
        assert_eq!(token.get_src_col(), mapping.original.column);
        assert_eq!(token.get_source_id(), Some(0));
    }
    let empty = SourceMapData { file: String::new(), source: String::new(), mappings: vec![] };
    let map = empty.to_oxc_sourcemap();
    assert_eq!(map.get_tokens().count(), 0);
    assert_eq!(map.get_names().count(), 0);
    assert_eq!(map.get_sources().count(), 1);
}
