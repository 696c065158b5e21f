//! JSX: the nodes, and how they are printed.

use crate::ast::{Expression, IdentifierReference, StringLiteral, ThisExpression};
use crate::codegen::Codegen;
use crate::comment::Span;
use crate::context::Context;
use crate::operator::Precedence;
use crate::state::State;
use crate::text::{find_byte, first_byte};
use vstd::prelude::*;
use vstd::string::StringSliceAdditionalSpecFns;
use vstd::utf8::*;

verus! {

/// A name as JSX writes it: it may hold hyphens.
#[derive(Debug)]
pub struct JSXIdentifier {
    pub span: Span,
    pub name: String,
}

#[derive(Debug)]
pub enum JSXMemberExpressionObject {
    IdentifierReference(IdentifierReference),
    MemberExpression(Box<JSXMemberExpression>),
    ThisExpression(ThisExpression),
}

#[derive(Debug)]
pub struct JSXMemberExpression {
    pub span: Span,
    pub object: JSXMemberExpressionObject,
    pub property: JSXIdentifier,
}

#[derive(Debug)]
pub struct JSXNamespacedName {
    pub span: Span,
    pub namespace: JSXIdentifier,
    pub name: JSXIdentifier,
}

#[derive(Debug)]
pub enum JSXElementName {
    Identifier(JSXIdentifier),
    IdentifierReference(IdentifierReference),
    NamespacedName(JSXNamespacedName),
    MemberExpression(JSXMemberExpression),
    ThisExpression(ThisExpression),
}

#[derive(Debug)]
pub enum JSXAttributeName {
    Identifier(JSXIdentifier),
    NamespacedName(JSXNamespacedName),
}

#[derive(Debug)]
pub struct JSXEmptyExpression {
    pub span: Span,
}

#[derive(Debug)]
pub enum JSXExpression {
    EmptyExpression(JSXEmptyExpression),
    Expression(Expression),
}

#[derive(Debug)]
pub struct JSXExpressionContainer {
    pub span: Span,
    pub expression: JSXExpression,
}

#[derive(Debug)]
pub enum JSXAttributeValue {
    StringLiteral(StringLiteral),
    ExpressionContainer(JSXExpressionContainer),
    Element(Box<JSXElement>),
    Fragment(Box<JSXFragment>),
}

#[derive(Debug)]
pub struct JSXAttribute {
    pub span: Span,
    pub name: JSXAttributeName,
    pub value: Option<JSXAttributeValue>,
}

#[derive(Debug)]
pub struct JSXSpreadAttribute {
    pub span: Span,
    pub argument: Expression,
}

#[derive(Debug)]
pub enum JSXAttributeItem {
    Attribute(JSXAttribute),
    SpreadAttribute(JSXSpreadAttribute),
}

#[derive(Debug)]
pub struct JSXOpeningElement {
    pub span: Span,
    pub name: JSXElementName,
    pub attributes: Vec<JSXAttributeItem>,
}

#[derive(Debug)]
pub struct JSXClosingElement {
    pub span: Span,
    pub name: JSXElementName,
}

#[derive(Debug)]
pub struct JSXText {
    pub span: Span,
    pub value: String,
}

#[derive(Debug)]
pub struct JSXSpreadChild {
    pub span: Span,
    pub expression: Expression,
}

#[derive(Debug)]
pub enum JSXChild {
    Text(JSXText),
    Element(Box<JSXElement>),
    Fragment(Box<JSXFragment>),
    ExpressionContainer(JSXExpressionContainer),
    Spread(JSXSpreadChild),
}

/// An element. One without a closing element closes itself.
#[derive(Debug)]
pub struct JSXElement {
    pub span: Span,
    pub opening_element: JSXOpeningElement,
    pub children: Vec<JSXChild>,
    pub closing_element: Option<JSXClosingElement>,
}

#[derive(Debug)]
pub struct JSXOpeningFragment {
    pub span: Span,
}

#[derive(Debug)]
pub struct JSXClosingFragment {
    pub span: Span,
}

#[derive(Debug)]
pub struct JSXFragment {
    pub span: Span,
    pub opening_fragment: JSXOpeningFragment,
    pub children: Vec<JSXChild>,
    pub closing_fragment: JSXClosingFragment,
}

/// The text holds a double quote.
pub open spec fn spec_has_double_quote(value: Seq<char>) -> bool {
    first_byte(encode_utf8(value), 0x22) < encode_utf8(value).len()
}

pub fn has_double_quote(value: &str) -> (b: bool)
    ensures
        b == spec_has_double_quote(value@),
{
    find_byte(value.as_bytes(), 0x22).is_some()
}

impl State {
    #[verifier::opaque]
    pub open spec fn emit_jsx_identifier(self, ident: JSXIdentifier) -> State {
        self.add_source_mapping_for_name(ident.span, ident.name@).print_chars(ident.name@)
    }

    #[verifier::opaque]
    pub open spec fn emit_jsx_namespaced_name(self, name: JSXNamespacedName) -> State {
        self.emit_jsx_identifier(name.namespace).print_colon().emit_jsx_identifier(name.name)
    }

    #[verifier::opaque]
    pub open spec fn emit_jsx_member_expression_object(
        self,
        object: JSXMemberExpressionObject,
    ) -> State
        decreases object, 0nat,
    {
        match object {
            JSXMemberExpressionObject::IdentifierReference(ident) => self.emit_identifier_reference(
                ident,
            ),
            JSXMemberExpressionObject::MemberExpression(member) => self.emit_jsx_member_expression(
                *member,
            ),
            JSXMemberExpressionObject::ThisExpression(expr) => self.emit_this_expression(expr),
        }
    }

    #[verifier::opaque]
    pub open spec fn emit_jsx_member_expression(self, expr: JSXMemberExpression) -> State
        decreases expr, 0nat,
    {
        self.emit_jsx_member_expression_object(expr.object).print_ascii_byte(
            0x2E,
        ).emit_jsx_identifier(expr.property)
    }

    #[verifier::opaque]
    pub open spec fn emit_jsx_element_name(self, name: JSXElementName) -> State {
        match name {
            JSXElementName::Identifier(ident) => self.emit_jsx_identifier(ident),
            JSXElementName::IdentifierReference(ident) => self.emit_identifier_reference(ident),
            JSXElementName::NamespacedName(name) => self.emit_jsx_namespaced_name(name),
            JSXElementName::MemberExpression(member) => self.emit_jsx_member_expression(member),
            JSXElementName::ThisExpression(expr) => self.emit_this_expression(expr),
        }
    }

    #[verifier::opaque]
    pub open spec fn emit_jsx_attribute_name(self, name: JSXAttributeName) -> State {
        match name {
            JSXAttributeName::Identifier(ident) => self.emit_jsx_identifier(ident),
            JSXAttributeName::NamespacedName(name) => self.emit_jsx_namespaced_name(name),
        }
    }

    /// What stands between the braces of a container: an expression, or nothing but the
    /// comments before the closing brace.
    #[verifier::opaque]
    pub open spec fn emit_jsx_expression(self, expr: JSXExpression) -> State
        decreases expr, 0nat,
    {
        match expr {
            JSXExpression::EmptyExpression(empty) => self.print_comments_at(empty.span.end),
            JSXExpression::Expression(e) => self.print_expression(e),
        }
    }

    #[verifier::opaque]
    pub open spec fn emit_jsx_expression_container(self, container: JSXExpressionContainer) -> State
        decreases container, 0nat,
    {
        self.print_ascii_byte(0x7B).emit_jsx_expression(container.expression).print_ascii_byte(
            0x7D,
        )
    }

    /// The value of an attribute. A text stands in double quotes, unless it holds one:
    /// nothing in it is escaped.
    #[verifier::opaque]
    pub open spec fn emit_jsx_attribute_value(self, value: JSXAttributeValue) -> State
        decreases value, 0nat,
    {
        match value {
            JSXAttributeValue::Fragment(fragment) => self.emit_jsx_fragment(*fragment),
            JSXAttributeValue::Element(element) => self.emit_jsx_element(*element),
            JSXAttributeValue::StringLiteral(lit) => {
                let quote = if spec_has_double_quote(lit.value@) {
                    0x27u8
                } else {
                    0x22u8
                };
                self.print_ascii_byte(quote).print_chars(lit.value@).print_ascii_byte(quote)
            },
            JSXAttributeValue::ExpressionContainer(container) => self.emit_jsx_expression_container(
                container,
            ),
        }
    }

    #[verifier::opaque]
    pub open spec fn emit_jsx_attribute(self, attribute: JSXAttribute) -> State
        decreases attribute, 0nat,
    {
        let s = self.emit_jsx_attribute_name(attribute.name);
        match attribute.value {
            Some(value) => s.print_equal().emit_jsx_attribute_value(value),
            None => s,
        }
    }

    #[verifier::opaque]
    pub open spec fn emit_jsx_spread_attribute(self, attribute: JSXSpreadAttribute) -> State
        decreases attribute, 0nat,
    {
        self.print_chars("{..."@).emit_expression(
            attribute.argument,
            Precedence::Comma,
            Context::spec_empty(),
        ).print_ascii_byte(0x7D)
    }

    #[verifier::opaque]
    pub open spec fn emit_jsx_attribute_item(self, item: JSXAttributeItem) -> State
        decreases item, 0nat,
    {
        match item {
            JSXAttributeItem::Attribute(attribute) => self.emit_jsx_attribute(attribute),
            JSXAttributeItem::SpreadAttribute(attribute) => self.emit_jsx_spread_attribute(
                attribute,
            ),
        }
    }

    /// The attributes of an element: a space before each, which minified text leaves
    /// out before a spread.
    #[verifier::opaque]
    pub open spec fn emit_jsx_attributes(self, items: Seq<JSXAttributeItem>, n: nat) -> State
        decreases items, n,
    {
        if n == 0 || n > items.len() {
            self
        } else {
            let s = self.emit_jsx_attributes(items, (n - 1) as nat);
            let s = match items[n - 1] {
                JSXAttributeItem::Attribute(_) => s.print_hard_space(),
                JSXAttributeItem::SpreadAttribute(_) => s.print_soft_space(),
            };
            s.emit_jsx_attribute_item(items[n - 1])
        }
    }

    #[verifier::opaque]
    pub open spec fn emit_jsx_text(self, text: JSXText) -> State {
        self.add_source_mapping(text.span).print_chars(text.value@)
    }

    #[verifier::opaque]
    pub open spec fn emit_jsx_spread_child(self, child: JSXSpreadChild) -> State
        decreases child, 0nat,
    {
        self.print_chars("{..."@).print_expression(child.expression).print_ascii_byte(0x7D)
    }

    #[verifier::opaque]
    pub open spec fn emit_jsx_child(self, child: JSXChild) -> State
        decreases child, 0nat,
    {
        match child {
            JSXChild::Fragment(fragment) => self.emit_jsx_fragment(*fragment),
            JSXChild::Element(element) => self.emit_jsx_element(*element),
            JSXChild::Spread(spread) => self.emit_jsx_spread_child(spread),
            JSXChild::ExpressionContainer(container) => self.emit_jsx_expression_container(
                container,
            ),
            JSXChild::Text(text) => self.emit_jsx_text(text),
        }
    }

    #[verifier::opaque]
    pub open spec fn emit_jsx_children(self, children: Seq<JSXChild>, n: nat) -> State
        decreases children, n,
    {
        if n == 0 || n > children.len() {
            self
        } else {
            self.emit_jsx_children(children, (n - 1) as nat).emit_jsx_child(children[n - 1])
        }
    }

    /// An element: its opening tag with its attributes, its children, and its closing
    /// tag. An element without a closing tag closes itself.
    #[verifier::opaque]
    pub open spec fn emit_jsx_element(self, element: JSXElement) -> State
        decreases element, 0nat,
    {
        let s = self.add_source_mapping(element.opening_element.span).print_ascii_byte(
            0x3C,
        ).emit_jsx_element_name(element.opening_element.name).emit_jsx_attributes(
            element.opening_element.attributes@,
            element.opening_element.attributes@.len(),
        );
        let s = if element.closing_element is None {
            s.print_soft_space().print_ascii_byte(0x2F)
        } else {
            s
        };
        let s = s.print_ascii_byte(0x3E).emit_jsx_children(
            element.children@,
            element.children@.len(),
        );
        match element.closing_element {
            Some(closing) => s.add_source_mapping(closing.span).print_chars(
                "</"@,
            ).emit_jsx_element_name(closing.name).print_ascii_byte(0x3E),
            None => s,
        }
    }

    #[verifier::opaque]
    pub open spec fn emit_jsx_fragment(self, fragment: JSXFragment) -> State
        decreases fragment, 0nat,
    {
        self.add_source_mapping(fragment.opening_fragment.span).print_chars(
            "<>"@,
        ).emit_jsx_children(fragment.children@, fragment.children@.len()).add_source_mapping(
            fragment.closing_fragment.span,
        ).print_chars("</>"@)
    }
}

impl Codegen {
    pub fn emit_jsx_identifier(&mut self, ident: &JSXIdentifier)
        requires
            old(self).wf(),
        ensures
            final(self).wf(),
            old(self)@.code.len() <= final(self)@.code.len(),
            final(self)@ == old(self)@.emit_jsx_identifier(*ident),
    {
        proof {
            reveal(State::emit_jsx_identifier);
        }
        self.add_source_mapping_for_name(ident.span, ident.name.as_str());
        self.print_str(ident.name.as_str());
    }

    pub fn emit_jsx_namespaced_name(&mut self, name: &JSXNamespacedName)
        requires
            old(self).wf(),
        ensures
            final(self).wf(),
            old(self)@.code.len() <= final(self)@.code.len(),
            final(self)@ == old(self)@.emit_jsx_namespaced_name(*name),
    {
        proof {
            reveal(State::emit_jsx_namespaced_name);
        }
        self.emit_jsx_identifier(&name.namespace);
        self.print_colon();
        self.emit_jsx_identifier(&name.name);
    }

    #[verifier::spinoff_prover]
    pub fn emit_jsx_member_expression_object(&mut self, object: &JSXMemberExpressionObject)
        requires
            old(self).wf(),
        ensures
            final(self).wf(),
            old(self)@.code.len() <= final(self)@.code.len(),
            final(self)@ == old(self)@.emit_jsx_member_expression_object(*object),
        decreases object, 0nat,
    {
        proof {
            reveal(State::emit_jsx_member_expression_object);
        }
        match object {
            JSXMemberExpressionObject::IdentifierReference(ident) => self.emit_identifier_reference(
                ident,
            ),
            JSXMemberExpressionObject::MemberExpression(member) => self.emit_jsx_member_expression(
                member,
            ),
            JSXMemberExpressionObject::ThisExpression(expr) => self.emit_this_expression(expr),
        }
    }

    #[verifier::spinoff_prover]
    pub fn emit_jsx_member_expression(&mut self, expr: &JSXMemberExpression)
        requires
            old(self).wf(),
        ensures
            final(self).wf(),
            old(self)@.code.len() <= final(self)@.code.len(),
            final(self)@ == old(self)@.emit_jsx_member_expression(*expr),
        decreases expr, 0nat,
    {
        proof {
            reveal(State::emit_jsx_member_expression);
        }
        self.emit_jsx_member_expression_object(&expr.object);
        self.print_ascii_byte(0x2E);
        self.emit_jsx_identifier(&expr.property);
    }

    pub fn emit_jsx_element_name(&mut self, name: &JSXElementName)
        requires
            old(self).wf(),
        ensures
            final(self).wf(),
            old(self)@.code.len() <= final(self)@.code.len(),
            final(self)@ == old(self)@.emit_jsx_element_name(*name),
    {
        proof {
            reveal(State::emit_jsx_element_name);
        }
        match name {
            JSXElementName::Identifier(ident) => self.emit_jsx_identifier(ident),
            JSXElementName::IdentifierReference(ident) => self.emit_identifier_reference(ident),
            JSXElementName::NamespacedName(name) => self.emit_jsx_namespaced_name(name),
            JSXElementName::MemberExpression(member) => self.emit_jsx_member_expression(member),
            JSXElementName::ThisExpression(expr) => self.emit_this_expression(expr),
        }
    }

    pub fn emit_jsx_attribute_name(&mut self, name: &JSXAttributeName)
        requires
            old(self).wf(),
        ensures
            final(self).wf(),
            old(self)@.code.len() <= final(self)@.code.len(),
            final(self)@ == old(self)@.emit_jsx_attribute_name(*name),
    {
        proof {
            reveal(State::emit_jsx_attribute_name);
        }
        match name {
            JSXAttributeName::Identifier(ident) => self.emit_jsx_identifier(ident),
            JSXAttributeName::NamespacedName(name) => self.emit_jsx_namespaced_name(name),
        }
    }

    #[verifier::spinoff_prover]
    pub fn emit_jsx_expression(&mut self, expr: &JSXExpression)
        requires
            old(self).wf(),
        ensures
            final(self).wf(),
            old(self)@.code.len() <= final(self)@.code.len(),
            final(self)@ == old(self)@.emit_jsx_expression(*expr),
        decreases expr, 0nat,
    {
        proof {
            reveal(State::emit_jsx_expression);
        }
        match expr {
            JSXExpression::EmptyExpression(empty) => self.print_comments_at(empty.span.end),
            JSXExpression::Expression(e) => self.print_expression(e),
        }
    }

    #[verifier::spinoff_prover]
    pub fn emit_jsx_expression_container(&mut self, container: &JSXExpressionContainer)
        requires
            old(self).wf(),
        ensures
            final(self).wf(),
            old(self)@.code.len() <= final(self)@.code.len(),
            final(self)@ == old(self)@.emit_jsx_expression_container(*container),
        decreases container, 0nat,
    {
        proof {
            reveal(State::emit_jsx_expression_container);
        }
        self.print_ascii_byte(0x7B);
        self.emit_jsx_expression(&container.expression);
        self.print_ascii_byte(0x7D);
    }

    #[verifier::spinoff_prover]
    pub fn emit_jsx_attribute_value(&mut self, value: &JSXAttributeValue)
        requires
            old(self).wf(),
        ensures
            final(self).wf(),
            old(self)@.code.len() <= final(self)@.code.len(),
            final(self)@ == old(self)@.emit_jsx_attribute_value(*value),
        decreases value, 0nat,
    {
        proof {
            reveal(State::emit_jsx_attribute_value);
        }
        match value {
            JSXAttributeValue::Fragment(fragment) => self.emit_jsx_fragment(fragment),
            JSXAttributeValue::Element(element) => self.emit_jsx_element(element),
            JSXAttributeValue::StringLiteral(lit) => {
                let quote: u8 = if has_double_quote(lit.value.as_str()) {
                    0x27
                } else {
                    0x22
                };
                self.print_ascii_byte(quote);
                self.print_str(lit.value.as_str());
                self.print_ascii_byte(quote);
            },
            JSXAttributeValue::ExpressionContainer(container) => self.emit_jsx_expression_container(
                container,
            ),
        }
    }

    #[verifier::spinoff_prover]
    pub fn emit_jsx_attribute(&mut self, attribute: &JSXAttribute)
        requires
            old(self).wf(),
        ensures
            final(self).wf(),
            old(self)@.code.len() <= final(self)@.code.len(),
            final(self)@ == old(self)@.emit_jsx_attribute(*attribute),
        decreases attribute, 0nat,
    {
        proof {
            reveal(State::emit_jsx_attribute);
        }
        self.emit_jsx_attribute_name(&attribute.name);
        match &attribute.value {
            Some(value) => {
                self.print_equal();
                self.emit_jsx_attribute_value(value);
            },
            None => {},
        }
    }

    #[verifier::spinoff_prover]
    pub fn emit_jsx_spread_attribute(&mut self, attribute: &JSXSpreadAttribute)
        requires
            old(self).wf(),
        ensures
            final(self).wf(),
            old(self)@.code.len() <= final(self)@.code.len(),
            final(self)@ == old(self)@.emit_jsx_spread_attribute(*attribute),
        decreases attribute, 0nat,
    {
        proof {
            reveal(State::emit_jsx_spread_attribute);
        }
        self.print_str("{...");
        self.emit_expression(&attribute.argument, Precedence::Comma, Context::empty());
        self.print_ascii_byte(0x7D);
    }

    #[verifier::spinoff_prover]
    pub fn emit_jsx_attribute_item(&mut self, item: &JSXAttributeItem)
        requires
            old(self).wf(),
        ensures
            final(self).wf(),
            old(self)@.code.len() <= final(self)@.code.len(),
            final(self)@ == old(self)@.emit_jsx_attribute_item(*item),
        decreases item, 0nat,
    {
        proof {
            reveal(State::emit_jsx_attribute_item);
        }
        match item {
            JSXAttributeItem::Attribute(attribute) => self.emit_jsx_attribute(attribute),
            JSXAttributeItem::SpreadAttribute(attribute) => self.emit_jsx_spread_attribute(
                attribute,
            ),
        }
    }

    #[verifier::spinoff_prover]
    pub fn emit_jsx_attributes(&mut self, items: &Vec<JSXAttributeItem>)
        requires
            old(self).wf(),
        ensures
            final(self).wf(),
            old(self)@.code.len() <= final(self)@.code.len(),
            final(self)@ == old(self)@.emit_jsx_attributes(items@, items@.len()),
        decreases items@, items@.len(),
    {
        proof {
            reveal(State::emit_jsx_attributes);
        }
        let mut i: usize = 0;
        while i < items.len()
            invariant
                i <= items.len(),
                self.wf(),
                old(self)@.code.len() <= self@.code.len(),
                self@ == old(self)@.emit_jsx_attributes(items@, i as nat),
            decreases items.len() - i,
        {
            proof {
                reveal(State::emit_jsx_attributes);
            }
            match &items[i] {
                JSXAttributeItem::Attribute(_) => self.print_hard_space(),
                JSXAttributeItem::SpreadAttribute(_) => self.print_soft_space(),
            }
            self.emit_jsx_attribute_item(&items[i]);
            i += 1;
        }
    }

    pub fn emit_jsx_text(&mut self, text: &JSXText)
        requires
            old(self).wf(),
        ensures
            final(self).wf(),
            old(self)@.code.len() <= final(self)@.code.len(),
            final(self)@ == old(self)@.emit_jsx_text(*text),
    {
        proof {
            reveal(State::emit_jsx_text);
        }
        self.add_source_mapping(text.span);
        self.print_str(text.value.as_str());
    }

    #[verifier::spinoff_prover]
    pub fn emit_jsx_spread_child(&mut self, child: &JSXSpreadChild)
        requires
            old(self).wf(),
        ensures
            final(self).wf(),
            old(self)@.code.len() <= final(self)@.code.len(),
            final(self)@ == old(self)@.emit_jsx_spread_child(*child),
        decreases child, 0nat,
    {
        proof {
            reveal(State::emit_jsx_spread_child);
        }
        self.print_str("{...");
        self.print_expression(&child.expression);
        self.print_ascii_byte(0x7D);
    }

    #[verifier::spinoff_prover]
    pub fn emit_jsx_child(&mut self, child: &JSXChild)
        requires
            old(self).wf(),
        ensures
            final(self).wf(),
            old(self)@.code.len() <= final(self)@.code.len(),
            final(self)@ == old(self)@.emit_jsx_child(*child),
        decreases child, 0nat,
    {
        proof {
            reveal(State::emit_jsx_child);
        }
        match child {
            JSXChild::Fragment(fragment) => self.emit_jsx_fragment(fragment),
            JSXChild::Element(element) => self.emit_jsx_element(element),
            JSXChild::Spread(spread) => self.emit_jsx_spread_child(spread),
            JSXChild::ExpressionContainer(container) => self.emit_jsx_expression_container(
                container,
            ),
            JSXChild::Text(text) => self.emit_jsx_text(text),
        }
    }

    #[verifier::spinoff_prover]
    pub fn emit_jsx_children(&mut self, children: &Vec<JSXChild>)
        requires
            old(self).wf(),
        ensures
            final(self).wf(),
            old(self)@.code.len() <= final(self)@.code.len(),
            final(self)@ == old(self)@.emit_jsx_children(children@, children@.len()),
        decreases children@, children@.len(),
    {
        proof {
            reveal(State::emit_jsx_children);
        }
        let mut i: usize = 0;
        while i < children.len()
            invariant
                i <= children.len(),
                self.wf(),
                old(self)@.code.len() <= self@.code.len(),
                self@ == old(self)@.emit_jsx_children(children@, i as nat),
            decreases children.len() - i,
        {
            proof {
                reveal(State::emit_jsx_children);
            }
            self.emit_jsx_child(&children[i]);
            i += 1;
        }
    }

    #[verifier::spinoff_prover]
    pub fn emit_jsx_element(&mut self, element: &JSXElement)
        requires
            old(self).wf(),
        ensures
            final(self).wf(),
            old(self)@.code.len() <= final(self)@.code.len(),
            final(self)@ == old(self)@.emit_jsx_element(*element),
        decreases element, 0nat,
    {
        proof {
            reveal(State::emit_jsx_element);
        }
        self.add_source_mapping(element.opening_element.span);
        self.print_ascii_byte(0x3C);
        self.emit_jsx_element_name(&element.opening_element.name);
        self.emit_jsx_attributes(&element.opening_element.attributes);
        if element.closing_element.is_none() {
            self.print_soft_space();
            self.print_ascii_byte(0x2F);
        }
        self.print_ascii_byte(0x3E);
        self.emit_jsx_children(&element.children);
        match &element.closing_element {
            Some(closing) => {
                self.add_source_mapping(closing.span);
                self.print_str("</");
                self.emit_jsx_element_name(&closing.name);
                self.print_ascii_byte(0x3E);
            },
            None => {},
        }
    }

    #[verifier::spinoff_prover]
    pub fn emit_jsx_fragment(&mut self, fragment: &JSXFragment)
        requires
            old(self).wf(),
        ensures
            final(self).wf(),
            old(self)@.code.len() <= final(self)@.code.len(),
            final(self)@ == old(self)@.emit_jsx_fragment(*fragment),
        decreases fragment, 0nat,
    {
        proof {
            reveal(State::emit_jsx_fragment);
        }
        self.add_source_mapping(fragment.opening_fragment.span);
        self.print_str("<>");
        self.emit_jsx_children(&fragment.children);
        self.add_source_mapping(fragment.closing_fragment.span);
        self.print_str("</>");
    }
}

} // verus!
