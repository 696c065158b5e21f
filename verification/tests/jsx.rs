use oxc_codegen::ast::{
    Expression, ExpressionStatement, IdentifierReference, Program, Statement, StringLiteral,
    ThisExpression,
};
use oxc_codegen::codegen::Codegen;
use oxc_codegen::comment::Span;
use oxc_codegen::jsx::{
    has_double_quote, JSXAttribute, JSXAttributeItem, JSXAttributeName, JSXAttributeValue,
    JSXChild, JSXClosingElement, JSXClosingFragment, JSXElement, JSXElementName,
    JSXEmptyExpression, JSXExpression, JSXExpressionContainer, JSXFragment, JSXIdentifier,
    JSXMemberExpression, JSXMemberExpressionObject, JSXNamespacedName, JSXOpeningElement,
    JSXOpeningFragment, JSXSpreadAttribute, JSXSpreadChild, JSXText,
};
use oxc_codegen::options::CodegenOptions;

fn span() -> Span {
    Span::new(0, 0)
}

fn ident(name: &str) -> Expression {
    Expression::Identifier(Box::new(IdentifierReference {
        span: span(),
        name: name.to_string(),
        reference_id: None,
    }))
}

fn tag(name: &str) -> JSXElementName {
    JSXElementName::Identifier(JSXIdentifier { span: span(), name: name.to_string() })
}

fn jsx_name(name: &str) -> JSXIdentifier {
    JSXIdentifier { span: span(), name: name.to_string() }
}

fn element(name: JSXElementName, attributes: Vec<JSXAttributeItem>) -> JSXElement {
    JSXElement {
        span: span(),
        opening_element: JSXOpeningElement { span: span(), name, attributes },
        children: vec![],
        closing_element: None,
    }
}

fn with_children(name: &str, attributes: Vec<JSXAttributeItem>, children: Vec<JSXChild>) -> JSXElement {
    JSXElement {
        span: span(),
        opening_element: JSXOpeningElement { span: span(), name: tag(name), attributes },
        children,
        closing_element: Some(JSXClosingElement { span: span(), name: tag(name) }),
    }
}

fn attribute(name: &str, value: Option<JSXAttributeValue>) -> JSXAttributeItem {
    JSXAttributeItem::Attribute(JSXAttribute {
        span: span(),
        name: JSXAttributeName::Identifier(jsx_name(name)),
        value,
    })
}

fn text_value(value: &str) -> Option<JSXAttributeValue> {
    Some(JSXAttributeValue::StringLiteral(StringLiteral { span: span(), value: value.to_string() }))
}

fn print_with(expression: Expression, options: CodegenOptions) -> String {
    let program = Program {
        span: span(),
        is_jsx: true,
        source_text: String::new(),
        comments: vec![],
        hashbang: None,
        directives: vec![],
        body: vec![Statement::ExpressionStatement(Box::new(ExpressionStatement {
            span: span(),
            expression,
        }))],
    };
    Codegen::new().with_options(options).build(&program).code
}

fn print(expression: Expression) -> String {
    print_with(expression, CodegenOptions::default())
}

#[test]
fn element_with_attributes_and_children() {
    let br = JSXChild::Element(Box::new(element(tag("br"), vec![])));
    let div = with_children(
        "div",
        vec![
            attribute("className", text_value("a")),
            JSXAttributeItem::SpreadAttribute(JSXSpreadAttribute { span: span(), argument: ident("p") }),
            attribute("hidden", None),
        ],
        vec![
            JSXChild::Text(JSXText { span: span(), value: "text".to_string() }),
            JSXChild::ExpressionContainer(JSXExpressionContainer {
                span: span(),
                expression: JSXExpression::Expression(ident("x")),
            }),
            br,
            JSXChild::Spread(JSXSpreadChild { span: span(), expression: ident("xs") }),
            JSXChild::ExpressionContainer(JSXExpressionContainer {
                span: span(),
                expression: JSXExpression::EmptyExpression(JSXEmptyExpression { span: span() }),
            }),
        ],
    );
    assert_eq!(
        print(Expression::JSXElement(Box::new(div))),
        "<div className=\"a\" {...p} hidden>text{x}<br />{...xs}{}</div>;\n"
    );
}

#[test]
fn minified_element_keeps_the_space_before_an_attribute() {
    let el = element(
        tag("a"),
        vec![
            JSXAttributeItem::SpreadAttribute(JSXSpreadAttribute { span: span(), argument: ident("p") }),
            attribute("b", text_value("c")),
        ],
    );
    assert_eq!(
        print_with(Expression::JSXElement(Box::new(el)), CodegenOptions::minify()),
        "<a{...p} b=\"c\"/>;"
    );
}

#[test]
fn attribute_text_chooses_the_quote_that_needs_no_escape() {
    assert!(has_double_quote("say \"hi\""));
    assert!(!has_double_quote("it's"));
    let el = element(
        tag("a"),
        vec![attribute("b", text_value("say \"hi\"")), attribute("c", text_value("it's"))],
    );
    assert_eq!(
        print(Expression::JSXElement(Box::new(el))),
        "<a b='say \"hi\"' c=\"it's\" />;\n"
    );
}

#[test]
fn names_with_namespaces_and_members() {
    let namespaced = JSXElementName::NamespacedName(JSXNamespacedName {
        span: span(),
        namespace: jsx_name("svg"),
        name: jsx_name("rect"),
    });
    let attr = JSXAttributeItem::Attribute(JSXAttribute {
        span: span(),
        name: JSXAttributeName::NamespacedName(JSXNamespacedName {
            span: span(),
            namespace: jsx_name("xlink"),
            name: jsx_name("href"),
        }),
        value: Some(JSXAttributeValue::ExpressionContainer(JSXExpressionContainer {
            span: span(),
            expression: JSXExpression::Expression(ident("u")),
        })),
    });
    assert_eq!(
        print(Expression::JSXElement(Box::new(element(namespaced, vec![attr])))),
        "<svg:rect xlink:href={u} />;\n"
    );
    let member = JSXElementName::MemberExpression(JSXMemberExpression {
        span: span(),
        object: JSXMemberExpressionObject::MemberExpression(Box::new(JSXMemberExpression {
            span: span(),
            object: JSXMemberExpressionObject::ThisExpression(ThisExpression { span: span() }),
            property: jsx_name("A"),
        })),
        property: jsx_name("B"),
    });
    assert_eq!(
        print(Expression::JSXElement(Box::new(element(member, vec![])))),
        "<this.A.B />;\n"
    );
}

#[test]
fn fragment_with_an_element_as_attribute_value() {
    let inner = element(tag("b"), vec![]);
    let outer = element(
        tag("a"),
        vec![attribute("icon", Some(JSXAttributeValue::Element(Box::new(inner))))],
    );
    let fragment = JSXFragment {
        span: span(),
        opening_fragment: JSXOpeningFragment { span: span() },
        children: vec![JSXChild::Element(Box::new(outer))],
        closing_fragment: JSXClosingFragment { span: span() },
    };
    assert_eq!(
        print(Expression::JSXFragment(Box::new(fragment))),
        "<><a icon=<b /> /></>;\n"
    );
}
