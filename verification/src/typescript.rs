//! TypeScript: the nodes that only a typed source holds, and how they are printed.

use crate::ast::{
    BigIntLiteral, BindingIdentifier, BooleanLiteral, Directive, Expression, FormalParameters,
    IdentifierName, IdentifierReference, NumericLiteral, ObjectExpression, PropertyKey, Statement,
    StringLiteral, TemplateElement, TemplateLiteral, ThisExpression, UnaryExpression,
};
use crate::codegen::Codegen;
use crate::comment::Span;
use crate::context::Context;
use crate::operator::Precedence;
use crate::state::State;
use vstd::prelude::*;

verus! {

/// Whether an import or an export brings a value or only a type.
#[derive(Debug, Clone, Copy, PartialEq, Eq)]
pub enum ImportOrExportKind {
    Value,
    Type,
}

impl ImportOrExportKind {
    pub open spec fn spec_is_type(self) -> bool {
        self is Type
    }

    pub fn is_type(self) -> (b: bool)
        ensures
            b == self.spec_is_type(),
    {
        match self {
            ImportOrExportKind::Type => true,
            ImportOrExportKind::Value => false,
        }
    }
}

#[derive(Debug, Clone, Copy, PartialEq, Eq)]
pub enum TSAccessibility {
    Private,
    Protected,
    Public,
}

impl TSAccessibility {
    pub open spec fn spec_str(self) -> &'static str {
        match self {
            TSAccessibility::Private => "private",
            TSAccessibility::Protected => "protected",
            TSAccessibility::Public => "public",
        }
    }

    pub fn as_str(self) -> (s: &'static str)
        ensures
            s@ == self.spec_str()@,
    {
        match self {
            TSAccessibility::Private => "private",
            TSAccessibility::Protected => "protected",
            TSAccessibility::Public => "public",
        }
    }
}

#[derive(Debug, Clone, Copy, PartialEq, Eq)]
pub enum TSTypeOperatorOperator {
    Keyof,
    Unique,
    Readonly,
}

impl TSTypeOperatorOperator {
    pub open spec fn spec_str(self) -> &'static str {
        match self {
            TSTypeOperatorOperator::Keyof => "keyof",
            TSTypeOperatorOperator::Unique => "unique",
            TSTypeOperatorOperator::Readonly => "readonly",
        }
    }

    pub fn to_str(self) -> (s: &'static str)
        ensures
            s@ == self.spec_str()@,
    {
        match self {
            TSTypeOperatorOperator::Keyof => "keyof",
            TSTypeOperatorOperator::Unique => "unique",
            TSTypeOperatorOperator::Readonly => "readonly",
        }
    }
}

/// How a mapped type changes `readonly` or `?`: it sets it, adds it, or takes it away.
#[derive(Debug, Clone, Copy, PartialEq, Eq)]
pub enum TSMappedTypeModifierOperator {
    True,
    Plus,
    Minus,
}

#[derive(Debug, Clone, Copy, PartialEq, Eq)]
pub enum TSMethodSignatureKind {
    Method,
    Getter,
    Setter,
}

#[derive(Debug, Clone, Copy, PartialEq, Eq)]
pub enum TSModuleDeclarationKind {
    Global,
    Module,
    Namespace,
}

impl TSModuleDeclarationKind {
    pub open spec fn spec_str(self) -> &'static str {
        match self {
            TSModuleDeclarationKind::Global => "global",
            TSModuleDeclarationKind::Module => "module",
            TSModuleDeclarationKind::Namespace => "namespace",
        }
    }

    pub fn as_str(self) -> (s: &'static str)
        ensures
            s@ == self.spec_str()@,
    {
        match self {
            TSModuleDeclarationKind::Global => "global",
            TSModuleDeclarationKind::Module => "module",
            TSModuleDeclarationKind::Namespace => "namespace",
        }
    }

    pub open spec fn spec_is_global(self) -> bool {
        self is Global
    }

    pub fn is_global(self) -> (b: bool)
        ensures
            b == self.spec_is_global(),
    {
        match self {
            TSModuleDeclarationKind::Global => true,
            _ => false,
        }
    }
}

/// The type that is written behind a colon.
#[derive(Debug)]
pub struct TSTypeAnnotation {
    pub span: Span,
    pub type_annotation: TSType,
}

#[derive(Debug)]
pub struct TSThisParameter {
    pub span: Span,
    pub type_annotation: Option<Box<TSTypeAnnotation>>,
}

#[derive(Debug)]
pub enum TSLiteral {
    BooleanLiteral(Box<BooleanLiteral>),
    NumericLiteral(Box<NumericLiteral>),
    BigIntLiteral(Box<BigIntLiteral>),
    StringLiteral(Box<StringLiteral>),
    TemplateLiteral(Box<TemplateLiteral>),
    UnaryExpression(Box<UnaryExpression>),
}

#[derive(Debug)]
pub struct TSLiteralType {
    pub span: Span,
    pub literal: TSLiteral,
}

#[derive(Debug)]
pub enum TSType {
    TSAnyKeyword(Span),
    TSBigIntKeyword(Span),
    TSBooleanKeyword(Span),
    TSIntrinsicKeyword(Span),
    TSNeverKeyword(Span),
    TSNullKeyword(Span),
    TSNumberKeyword(Span),
    TSObjectKeyword(Span),
    TSStringKeyword(Span),
    TSSymbolKeyword(Span),
    TSThisType(Span),
    TSUndefinedKeyword(Span),
    TSUnknownKeyword(Span),
    TSVoidKeyword(Span),
    TSArrayType(Box<TSArrayType>),
    TSConditionalType(Box<TSConditionalType>),
    TSConstructorType(Box<TSConstructorType>),
    TSFunctionType(Box<TSFunctionType>),
    TSImportType(Box<TSImportType>),
    TSIndexedAccessType(Box<TSIndexedAccessType>),
    TSInferType(Box<TSInferType>),
    TSIntersectionType(Box<TSIntersectionType>),
    TSLiteralType(Box<TSLiteralType>),
    TSMappedType(Box<TSMappedType>),
    TSNamedTupleMember(Box<TSNamedTupleMember>),
    TSTemplateLiteralType(Box<TSTemplateLiteralType>),
    TSTupleType(Box<TSTupleType>),
    TSTypeLiteral(Box<TSTypeLiteral>),
    TSTypeOperatorType(Box<TSTypeOperator>),
    TSTypePredicate(Box<TSTypePredicate>),
    TSTypeQuery(Box<TSTypeQuery>),
    TSTypeReference(Box<TSTypeReference>),
    TSUnionType(Box<TSUnionType>),
    TSParenthesizedType(Box<TSParenthesizedType>),
    JSDocNullableType(Box<JSDocNullableType>),
    JSDocNonNullableType(Box<JSDocNonNullableType>),
    JSDocUnknownType(Span),
}

#[derive(Debug)]
pub struct TSConditionalType {
    pub span: Span,
    pub check_type: TSType,
    pub extends_type: TSType,
    pub true_type: TSType,
    pub false_type: TSType,
}

#[derive(Debug)]
pub struct TSUnionType {
    pub span: Span,
    pub types: Vec<TSType>,
}

#[derive(Debug)]
pub struct TSIntersectionType {
    pub span: Span,
    pub types: Vec<TSType>,
}

#[derive(Debug)]
pub struct TSParenthesizedType {
    pub span: Span,
    pub type_annotation: TSType,
}

#[derive(Debug)]
pub struct TSTypeOperator {
    pub span: Span,
    pub operator: TSTypeOperatorOperator,
    pub type_annotation: TSType,
}

#[derive(Debug)]
pub struct TSArrayType {
    pub span: Span,
    pub element_type: TSType,
}

#[derive(Debug)]
pub struct TSIndexedAccessType {
    pub span: Span,
    pub object_type: TSType,
    pub index_type: TSType,
}

#[derive(Debug)]
pub struct TSTupleType {
    pub span: Span,
    pub element_types: Vec<TSTupleElement>,
}

#[derive(Debug)]
pub struct TSNamedTupleMember {
    pub span: Span,
    pub label: IdentifierName,
    pub element_type: TSTupleElement,
    pub optional: bool,
}

#[derive(Debug)]
pub struct TSOptionalType {
    pub span: Span,
    pub type_annotation: TSType,
}

#[derive(Debug)]
pub struct TSRestType {
    pub span: Span,
    pub type_annotation: TSType,
}

#[derive(Debug)]
pub enum TSTupleElement {
    TSOptionalType(Box<TSOptionalType>),
    TSRestType(Box<TSRestType>),
    Type(TSType),
}

#[derive(Debug)]
pub enum TSTypeName {
    IdentifierReference(Box<IdentifierReference>),
    QualifiedName(Box<TSQualifiedName>),
    ThisExpression(Box<ThisExpression>),
}

#[derive(Debug)]
pub struct TSQualifiedName {
    pub span: Span,
    pub left: TSTypeName,
    pub right: IdentifierName,
}

#[derive(Debug)]
pub struct TSTypeReference {
    pub span: Span,
    pub name: TSTypeName,
    pub type_arguments: Option<Box<TSTypeParameterInstantiation>>,
}

/// The types that stand between `<` and `>` where a generic item is used.
#[derive(Debug)]
pub struct TSTypeParameterInstantiation {
    pub span: Span,
    pub params: Vec<TSType>,
}

#[derive(Debug)]
pub struct TSTypeParameter {
    pub span: Span,
    pub name: BindingIdentifier,
    pub constraint: Option<TSType>,
    pub default: Option<TSType>,
    pub is_in: bool,
    pub out: bool,
    pub is_const: bool,
}

/// The parameters that stand between `<` and `>` where a generic item is declared.
#[derive(Debug)]
pub struct TSTypeParameterDeclaration {
    pub span: Span,
    pub params: Vec<TSTypeParameter>,
}

#[derive(Debug)]
pub struct TSTypeAliasDeclaration {
    pub span: Span,
    pub id: BindingIdentifier,
    pub type_parameters: Option<Box<TSTypeParameterDeclaration>>,
    pub type_annotation: TSType,
    pub declare: bool,
}

#[derive(Debug)]
pub struct TSClassImplements {
    pub span: Span,
    pub expression: TSTypeName,
    pub type_arguments: Option<Box<TSTypeParameterInstantiation>>,
}

#[derive(Debug)]
pub struct TSInterfaceDeclaration {
    pub span: Span,
    pub id: BindingIdentifier,
    pub type_parameters: Option<Box<TSTypeParameterDeclaration>>,
    pub extends: Vec<TSInterfaceHeritage>,
    pub body: TSInterfaceBody,
}

#[derive(Debug)]
pub struct TSInterfaceBody {
    pub span: Span,
    pub body: Vec<TSSignature>,
}

#[derive(Debug)]
pub struct TSPropertySignature {
    pub span: Span,
    pub computed: bool,
    pub optional: bool,
    pub readonly: bool,
    pub key: PropertyKey,
    pub type_annotation: Option<Box<TSTypeAnnotation>>,
}

#[derive(Debug)]
pub enum TSSignature {
    TSIndexSignature(Box<TSIndexSignature>),
    TSPropertySignature(Box<TSPropertySignature>),
    TSCallSignatureDeclaration(Box<TSCallSignatureDeclaration>),
    TSConstructSignatureDeclaration(Box<TSConstructSignatureDeclaration>),
    TSMethodSignature(Box<TSMethodSignature>),
}

#[derive(Debug)]
pub struct TSIndexSignatureName {
    pub span: Span,
    pub name: String,
    pub type_annotation: TSTypeAnnotation,
}

#[derive(Debug)]
pub struct TSIndexSignature {
    pub span: Span,
    pub parameters: Vec<TSIndexSignatureName>,
    pub type_annotation: TSTypeAnnotation,
    pub readonly: bool,
}

#[derive(Debug)]
pub struct TSCallSignatureDeclaration {
    pub span: Span,
    pub type_parameters: Option<Box<TSTypeParameterDeclaration>>,
    pub this_param: Option<Box<TSThisParameter>>,
    pub params: FormalParameters,
    pub return_type: Option<Box<TSTypeAnnotation>>,
}

#[derive(Debug)]
pub struct TSMethodSignature {
    pub span: Span,
    pub key: PropertyKey,
    pub computed: bool,
    pub optional: bool,
    pub kind: TSMethodSignatureKind,
    pub type_parameters: Option<Box<TSTypeParameterDeclaration>>,
    pub this_param: Option<Box<TSThisParameter>>,
    pub params: FormalParameters,
    pub return_type: Option<Box<TSTypeAnnotation>>,
}

#[derive(Debug)]
pub struct TSConstructSignatureDeclaration {
    pub span: Span,
    pub type_parameters: Option<Box<TSTypeParameterDeclaration>>,
    pub params: FormalParameters,
    pub return_type: Option<Box<TSTypeAnnotation>>,
}

#[derive(Debug)]
pub struct TSInterfaceHeritage {
    pub span: Span,
    pub expression: Expression,
    pub type_arguments: Option<Box<TSTypeParameterInstantiation>>,
}

#[derive(Debug)]
pub enum TSTypePredicateName {
    Identifier(Box<IdentifierName>),
    This(Span),
}

#[derive(Debug)]
pub struct TSTypePredicate {
    pub span: Span,
    pub parameter_name: TSTypePredicateName,
    pub asserts: bool,
    pub type_annotation: Option<Box<TSTypeAnnotation>>,
}

#[derive(Debug)]
pub enum TSModuleDeclarationName {
    Identifier(BindingIdentifier),
    StringLiteral(StringLiteral),
}

#[derive(Debug)]
pub enum TSModuleDeclarationBody {
    TSModuleDeclaration(Box<TSModuleDeclaration>),
    TSModuleBlock(Box<TSModuleBlock>),
}

#[derive(Debug)]
pub struct TSModuleDeclaration {
    pub span: Span,
    pub id: TSModuleDeclarationName,
    pub body: Option<TSModuleDeclarationBody>,
    pub kind: TSModuleDeclarationKind,
    pub declare: bool,
}

#[derive(Debug)]
pub struct TSModuleBlock {
    pub span: Span,
    pub directives: Vec<Directive>,
    pub body: Vec<Statement>,
}

#[derive(Debug)]
pub struct TSTypeLiteral {
    pub span: Span,
    pub members: Vec<TSSignature>,
}

#[derive(Debug)]
pub struct TSInferType {
    pub span: Span,
    pub type_parameter: TSTypeParameter,
}

#[derive(Debug)]
pub enum TSTypeQueryExprName {
    TSImportType(Box<TSImportType>),
    TypeName(TSTypeName),
}

#[derive(Debug)]
pub struct TSTypeQuery {
    pub span: Span,
    pub expr_name: TSTypeQueryExprName,
    pub type_arguments: Option<Box<TSTypeParameterInstantiation>>,
}

#[derive(Debug)]
pub enum TSImportTypeQualifier {
    Identifier(Box<IdentifierName>),
    QualifiedName(Box<TSImportTypeQualifiedName>),
}

#[derive(Debug)]
pub struct TSImportTypeQualifiedName {
    pub span: Span,
    pub left: TSImportTypeQualifier,
    pub right: IdentifierName,
}

#[derive(Debug)]
pub struct TSImportType {
    pub span: Span,
    pub argument: TSType,
    pub options: Option<Box<ObjectExpression>>,
    pub qualifier: Option<TSImportTypeQualifier>,
    pub type_arguments: Option<Box<TSTypeParameterInstantiation>>,
}

#[derive(Debug)]
pub struct TSFunctionType {
    pub span: Span,
    pub type_parameters: Option<Box<TSTypeParameterDeclaration>>,
    pub this_param: Option<Box<TSThisParameter>>,
    pub params: FormalParameters,
    pub return_type: TSTypeAnnotation,
}

#[derive(Debug)]
pub struct TSConstructorType {
    pub span: Span,
    pub is_abstract: bool,
    pub type_parameters: Option<Box<TSTypeParameterDeclaration>>,
    pub params: FormalParameters,
    pub return_type: TSTypeAnnotation,
}

#[derive(Debug)]
pub struct TSMappedType {
    pub span: Span,
    pub type_parameter: TSTypeParameter,
    pub name_type: Option<TSType>,
    pub type_annotation: Option<TSType>,
    pub optional: Option<TSMappedTypeModifierOperator>,
    pub readonly: Option<TSMappedTypeModifierOperator>,
}

/// A template among types: its texts, and the types that stand between them.
#[derive(Debug)]
pub struct TSTemplateLiteralType {
    pub span: Span,
    pub quasis: Vec<TemplateElement>,
    pub types: Vec<TSType>,
}

#[derive(Debug)]
pub struct TSAsExpression {
    pub span: Span,
    pub expression: Expression,
    pub type_annotation: TSType,
}

#[derive(Debug)]
pub struct TSSatisfiesExpression {
    pub span: Span,
    pub expression: Expression,
    pub type_annotation: TSType,
}

#[derive(Debug)]
pub struct TSTypeAssertion {
    pub span: Span,
    pub type_annotation: TSType,
    pub expression: Expression,
}

#[derive(Debug)]
pub struct TSExternalModuleReference {
    pub span: Span,
    pub expression: StringLiteral,
}

#[derive(Debug)]
pub enum TSModuleReference {
    ExternalModuleReference(Box<TSExternalModuleReference>),
    TypeName(TSTypeName),
}

#[derive(Debug)]
pub struct TSImportEqualsDeclaration {
    pub span: Span,
    pub id: BindingIdentifier,
    pub module_reference: TSModuleReference,
}

#[derive(Debug)]
pub struct TSNonNullExpression {
    pub span: Span,
    pub expression: Expression,
}

#[derive(Debug)]
pub struct TSExportAssignment {
    pub span: Span,
    pub expression: Expression,
}

#[derive(Debug)]
pub struct TSNamespaceExportDeclaration {
    pub span: Span,
    pub id: IdentifierName,
}

#[derive(Debug)]
pub struct TSInstantiationExpression {
    pub span: Span,
    pub expression: Expression,
    pub type_arguments: TSTypeParameterInstantiation,
}

#[derive(Debug)]
pub struct JSDocNullableType {
    pub span: Span,
    pub type_annotation: TSType,
    pub postfix: bool,
}

#[derive(Debug)]
pub struct JSDocNonNullableType {
    pub span: Span,
    pub type_annotation: TSType,
    pub postfix: bool,
}

#[derive(Debug)]
pub enum TSEnumMemberName {
    Identifier(Box<IdentifierName>),
    StringLiteral(Box<StringLiteral>),
    ComputedString(Box<StringLiteral>),
    ComputedTemplateString(Box<TemplateLiteral>),
}

#[derive(Debug)]
pub struct TSEnumMember {
    pub span: Span,
    pub id: TSEnumMemberName,
    pub initializer: Option<Expression>,
}

#[derive(Debug)]
pub struct TSEnumBody {
    pub span: Span,
    pub members: Vec<TSEnumMember>,
}

#[derive(Debug)]
pub struct TSEnumDeclaration {
    pub span: Span,
    pub id: BindingIdentifier,
    pub body: TSEnumBody,
    pub is_const: bool,
    pub declare: bool,
}

impl TSSignature {
    pub open spec fn spec_span(self) -> Span {
        match self {
            TSSignature::TSIndexSignature(s) => s.span,
            TSSignature::TSPropertySignature(s) => s.span,
            TSSignature::TSCallSignatureDeclaration(s) => s.span,
            TSSignature::TSConstructSignatureDeclaration(s) => s.span,
            TSSignature::TSMethodSignature(s) => s.span,
        }
    }

    pub fn span(&self) -> (s: Span)
        ensures
            s == self.spec_span(),
    {
        match self {
            TSSignature::TSIndexSignature(s) => s.span,
            TSSignature::TSPropertySignature(s) => s.span,
            TSSignature::TSCallSignatureDeclaration(s) => s.span,
            TSSignature::TSConstructSignatureDeclaration(s) => s.span,
            TSSignature::TSMethodSignature(s) => s.span,
        }
    }
}

/// A type that stands in parentheses where it is a member of a union: a function
/// type, a constructor type or a conditional type.
pub open spec fn spec_parenthesize_check_type_of_conditional_type(ty: TSType) -> bool {
    ty is TSFunctionType || ty is TSConstructorType || ty is TSConditionalType
}

pub fn parenthesize_check_type_of_conditional_type(ty: &TSType) -> (wrap: bool)
    ensures
        wrap == spec_parenthesize_check_type_of_conditional_type(*ty),
{
    match ty {
        TSType::TSFunctionType(_) | TSType::TSConstructorType(_) | TSType::TSConditionalType(_) => true,
        _ => false,
    }
}

/// The word for a type that is written as one word, and nothing for any other type.
pub open spec fn keyword_of(ty: TSType) -> Seq<char> {
    match ty {
        TSType::TSAnyKeyword(_) => "any"@,
        TSType::TSBigIntKeyword(_) => "bigint"@,
        TSType::TSBooleanKeyword(_) => "boolean"@,
        TSType::TSIntrinsicKeyword(_) => "intrinsic"@,
        TSType::TSNeverKeyword(_) => "never"@,
        TSType::TSNullKeyword(_) => "null"@,
        TSType::TSNumberKeyword(_) => "number"@,
        TSType::TSObjectKeyword(_) => "object"@,
        TSType::TSStringKeyword(_) => "string"@,
        TSType::TSSymbolKeyword(_) => "symbol"@,
        TSType::TSThisType(_) => "this"@,
        TSType::TSUndefinedKeyword(_) => "undefined"@,
        TSType::TSUnknownKeyword(_) => "unknown"@,
        TSType::JSDocUnknownType(_) => "unknown"@,
        TSType::TSVoidKeyword(_) => "void"@,
        _ => ""@,
    }
}

/// The expression of a `satisfies` is printed in parentheses of its own, unless it is
/// a function that stood in parentheses and is likely to be called at once.
pub open spec fn spec_satisfies_wraps(expr: Expression) -> bool {
    match expr.spec_without_parentheses() {
        Expression::FunctionExpression(func) => !func.pife,
        _ => true,
    }
}

pub fn satisfies_wraps(expr: &Expression) -> (wrap: bool)
    ensures
        wrap == spec_satisfies_wraps(*expr),
{
    match expr.without_parentheses() {
        Expression::FunctionExpression(func) => !func.pife,
        _ => true,
    }
}

/// The parameters hold anything: an item or a rest element.
pub open spec fn spec_has_parameters(params: FormalParameters) -> bool {
    params.items@.len() > 0 || params.rest is Some
}

pub fn has_parameters(params: &FormalParameters) -> (b: bool)
    ensures
        b == spec_has_parameters(*params),
{
    params.items.len() > 0 || params.rest.is_some()
}

impl State {
    /// A type.
    #[verifier::opaque]
    pub open spec fn emit_ts_type(self, ty: TSType, ctx: Context) -> State
        decreases ty, 1nat,
    {
        let ctx = ctx.spec_with_typescript();
        match ty {
            TSType::TSFunctionType(_)
            | TSType::TSConstructorType(_)
            | TSType::TSArrayType(_)
            | TSType::TSTupleType(_)
            | TSType::TSUnionType(_)
            | TSType::TSParenthesizedType(_)
            | TSType::TSIntersectionType(_)
            | TSType::TSConditionalType(_)
            | TSType::TSInferType(_)
            | TSType::TSIndexedAccessType(_)
            | TSType::TSMappedType(_)
            | TSType::TSNamedTupleMember(_) => self.emit_ts_structural_type(ty, ctx),
            TSType::TSLiteralType(_)
            | TSType::TSImportType(_)
            | TSType::TSTemplateLiteralType(_)
            | TSType::TSTypeLiteral(_)
            | TSType::TSTypeOperatorType(_)
            | TSType::TSTypePredicate(_)
            | TSType::TSTypeQuery(_)
            | TSType::TSTypeReference(_)
            | TSType::JSDocNullableType(_)
            | TSType::JSDocNonNullableType(_) => self.emit_ts_named_type(ty, ctx),
            _ => self.print_chars(keyword_of(ty)),
        }
    }

    /// A type that is built from other types by its form. Any other type is left to
    /// the other printers.
    #[verifier::opaque]
    pub open spec fn emit_ts_structural_type(self, ty: TSType, ctx: Context) -> State
        decreases ty, 0nat,
    {
        match ty {
            TSType::TSFunctionType(t) => self.emit_ts_function_type(*t, ctx),
            TSType::TSConstructorType(t) => self.emit_ts_constructor_type(*t, ctx),
            TSType::TSArrayType(t) => self.emit_ts_array_type(*t, ctx),
            TSType::TSTupleType(t) => self.emit_ts_tuple_type(*t, ctx),
            TSType::TSUnionType(t) => self.emit_ts_union_type(*t, ctx),
            TSType::TSParenthesizedType(t) => self.emit_ts_parenthesized_type(*t, ctx),
            TSType::TSIntersectionType(t) => self.emit_ts_intersection_type(*t, ctx),
            TSType::TSConditionalType(t) => self.emit_ts_conditional_type(*t, ctx),
            TSType::TSInferType(t) => self.emit_ts_infer_type(*t, ctx),
            TSType::TSIndexedAccessType(t) => self.emit_ts_indexed_access_type(*t, ctx),
            TSType::TSMappedType(t) => self.emit_ts_mapped_type(*t, ctx),
            TSType::TSNamedTupleMember(t) => self.emit_ts_named_tuple_member(*t, ctx),
            _ => self,
        }
    }

    /// A literal, a reference, a query, or one of their kin. Any other type is left to
    /// the other printers.
    #[verifier::opaque]
    pub open spec fn emit_ts_named_type(self, ty: TSType, ctx: Context) -> State
        decreases ty, 0nat,
    {
        match ty {
            TSType::TSLiteralType(t) => self.emit_ts_literal(t.literal, ctx),
            TSType::TSImportType(t) => self.emit_ts_import_type(*t, ctx),
            TSType::TSTemplateLiteralType(t) => self.emit_ts_template_literal_type(*t, ctx),
            TSType::TSTypeLiteral(t) => self.emit_ts_type_literal(*t, ctx),
            TSType::TSTypeOperatorType(t) => self.emit_ts_type_operator(*t, ctx),
            TSType::TSTypePredicate(t) => self.emit_ts_type_predicate(*t, ctx),
            TSType::TSTypeQuery(t) => self.emit_ts_type_query(*t, ctx),
            TSType::TSTypeReference(t) => self.emit_ts_type_reference(*t, ctx),
            TSType::JSDocNullableType(t) => self.emit_jsdoc_nullable_type(*t, ctx),
            TSType::JSDocNonNullableType(t) => self.emit_jsdoc_non_nullable_type(*t, ctx),
            _ => self,
        }
    }

    #[verifier::opaque]
    pub open spec fn emit_ts_type_annotation(self, annotation: TSTypeAnnotation, ctx: Context) -> State
        decreases annotation, 0nat,
    {
        self.emit_ts_type(annotation.type_annotation, ctx)
    }

    /// The type behind a name, where there is one: a colon, and the type.
    #[verifier::opaque]
    pub open spec fn print_type_annotation(
        self,
        annotation: Option<Box<TSTypeAnnotation>>,
        ctx: Context,
    ) -> State
        decreases annotation, 0nat,
    {
        match annotation {
            Some(a) => self.print_colon().print_soft_space().emit_ts_type_annotation(*a, ctx),
            None => self,
        }
    }

    /// The type parameters of a declaration, where it has any.
    #[verifier::opaque]
    pub open spec fn print_type_parameters(
        self,
        params: Option<Box<TSTypeParameterDeclaration>>,
        ctx: Context,
    ) -> State
        decreases params, 0nat,
    {
        match params {
            Some(p) => self.emit_ts_type_parameter_declaration(*p, ctx),
            None => self,
        }
    }

    /// The type arguments of a use, where it has any.
    #[verifier::opaque]
    pub open spec fn print_type_arguments(
        self,
        args: Option<Box<TSTypeParameterInstantiation>>,
        ctx: Context,
    ) -> State
        decreases args, 0nat,
    {
        match args {
            Some(a) => self.emit_ts_type_parameter_instantiation(*a, ctx),
            None => self,
        }
    }

    /// The `this` parameter, where there is one, and the comma behind it where other
    /// parameters follow.
    #[verifier::opaque]
    pub open spec fn print_this_parameter(
        self,
        this_param: Option<Box<TSThisParameter>>,
        more: bool,
        ctx: Context,
    ) -> State
        decreases this_param, 0nat,
    {
        match this_param {
            Some(p) => {
                let s = self.emit_ts_this_parameter(*p, ctx);
                if more {
                    s.print_comma().print_soft_space()
                } else {
                    s
                }
            },
            None => self,
        }
    }

    #[verifier::opaque]
    pub open spec fn emit_ts_this_parameter(self, param: TSThisParameter, ctx: Context) -> State
        decreases param, 0nat,
    {
        let s = self.print_chars("this"@);
        match param.type_annotation {
            Some(a) => s.print_chars(": "@).emit_ts_type_annotation(*a, ctx),
            None => s,
        }
    }

    #[verifier::opaque]
    pub open spec fn emit_ts_array_type(self, ty: TSArrayType, ctx: Context) -> State
        decreases ty, 0nat,
    {
        self.emit_ts_type(ty.element_type, ctx).print_chars("[]"@)
    }

    #[verifier::opaque]
    pub open spec fn emit_ts_tuple_elements(
        self,
        elements: Seq<TSTupleElement>,
        n: nat,
        ctx: Context,
    ) -> State
        decreases elements, n,
    {
        if n == 0 || n > elements.len() {
            self
        } else {
            let s = self.emit_ts_tuple_elements(elements, (n - 1) as nat, ctx);
            let s = if n > 1 {
                s.print_comma().print_soft_space()
            } else {
                s
            };
            s.emit_ts_tuple_element(elements[n - 1], ctx)
        }
    }

    #[verifier::opaque]
    pub open spec fn emit_ts_tuple_type(self, ty: TSTupleType, ctx: Context) -> State
        decreases ty, 0nat,
    {
        self.print_ascii_byte(0x5B).emit_ts_tuple_elements(
            ty.element_types@,
            ty.element_types@.len(),
            ctx,
        ).print_ascii_byte(0x5D)
    }

    #[verifier::opaque]
    pub open spec fn emit_ts_tuple_element(self, element: TSTupleElement, ctx: Context) -> State
        decreases element, 0nat,
    {
        match element {
            TSTupleElement::Type(ty) => self.emit_ts_type(ty, ctx),
            TSTupleElement::TSOptionalType(ty) => self.emit_ts_type(
                ty.type_annotation,
                ctx,
            ).print_ascii_byte(0x3F),
            TSTupleElement::TSRestType(ty) => self.print_ellipsis().emit_ts_type(
                ty.type_annotation,
                ctx,
            ),
        }
    }

    #[verifier::opaque]
    pub open spec fn emit_ts_named_tuple_member(self, member: TSNamedTupleMember, ctx: Context) -> State
        decreases member, 0nat,
    {
        let s = self.emit_identifier_name(member.label);
        let s = if member.optional {
            s.print_ascii_byte(0x3F)
        } else {
            s
        };
        s.print_colon().print_soft_space().emit_ts_tuple_element(member.element_type, ctx)
    }

    /// The members of a union, with `|` between them.
    #[verifier::opaque]
    pub open spec fn emit_ts_union_members(self, types: Seq<TSType>, n: nat, ctx: Context) -> State
        decreases types, n,
    {
        if n == 0 || n > types.len() {
            self
        } else {
            let s = self.emit_ts_union_members(types, (n - 1) as nat, ctx);
            let s = if n > 1 {
                s.print_soft_space().print_ascii_byte(0x7C).print_soft_space()
            } else {
                s
            };
            let wrap = spec_parenthesize_check_type_of_conditional_type(types[n - 1]);
            s.wrap_open(wrap).emit_ts_type(types[n - 1], ctx).wrap_close(wrap)
        }
    }

    #[verifier::opaque]
    pub open spec fn emit_ts_union_type(self, ty: TSUnionType, ctx: Context) -> State
        decreases ty, 0nat,
    {
        self.emit_ts_union_members(ty.types@, ty.types@.len(), ctx)
    }

    /// The members of an intersection, with `&` between them.
    #[verifier::opaque]
    pub open spec fn emit_ts_intersection_members(
        self,
        types: Seq<TSType>,
        n: nat,
        ctx: Context,
    ) -> State
        decreases types, n,
    {
        if n == 0 || n > types.len() {
            self
        } else {
            let s = self.emit_ts_intersection_members(types, (n - 1) as nat, ctx);
            let s = if n > 1 {
                s.print_soft_space().print_ascii_byte(0x26).print_soft_space()
            } else {
                s
            };
            s.emit_ts_type(types[n - 1], ctx)
        }
    }

    #[verifier::opaque]
    pub open spec fn emit_ts_intersection_type(self, ty: TSIntersectionType, ctx: Context) -> State
        decreases ty, 0nat,
    {
        self.emit_ts_intersection_members(ty.types@, ty.types@.len(), ctx)
    }

    #[verifier::opaque]
    pub open spec fn emit_ts_parenthesized_type(self, ty: TSParenthesizedType, ctx: Context) -> State
        decreases ty, 0nat,
    {
        self.print_ascii_byte(0x28).emit_ts_type(ty.type_annotation, ctx).print_ascii_byte(0x29)
    }

    #[verifier::opaque]
    pub open spec fn emit_ts_conditional_type(self, ty: TSConditionalType, ctx: Context) -> State
        decreases ty, 0nat,
    {
        self.emit_ts_type(ty.check_type, ctx).print_chars(" extends "@).emit_ts_type(
            ty.extends_type,
            ctx,
        ).print_chars(" ? "@).emit_ts_type(ty.true_type, ctx).print_chars(" : "@).emit_ts_type(
            ty.false_type,
            ctx,
        )
    }

    #[verifier::opaque]
    pub open spec fn emit_ts_infer_type(self, ty: TSInferType, ctx: Context) -> State
        decreases ty, 0nat,
    {
        self.print_chars("infer "@).emit_ts_type_parameter(ty.type_parameter, ctx)
    }

    #[verifier::opaque]
    pub open spec fn emit_ts_indexed_access_type(self, ty: TSIndexedAccessType, ctx: Context) -> State
        decreases ty, 0nat,
    {
        self.emit_ts_type(ty.object_type, ctx).print_ascii_byte(0x5B).emit_ts_type(
            ty.index_type,
            ctx,
        ).print_ascii_byte(0x5D)
    }

    /// A mapped type: `{ [K in T]: U }` with its modifiers.
    #[verifier::opaque]
    pub open spec fn emit_ts_mapped_type(self, ty: TSMappedType, ctx: Context) -> State
        decreases ty, 0nat,
    {
        let s = self.print_ascii_byte(0x7B).print_soft_space();
        let s = match ty.readonly {
            Some(TSMappedTypeModifierOperator::True) => s.print_chars("readonly "@),
            Some(TSMappedTypeModifierOperator::Plus) => s.print_chars("+readonly "@),
            Some(TSMappedTypeModifierOperator::Minus) => s.print_chars("-readonly "@),
            None => s,
        };
        let s = s.print_ascii_byte(0x5B).emit_binding_identifier(ty.type_parameter.name);
        let s = match ty.type_parameter.constraint {
            Some(constraint) => s.print_chars(" in "@).emit_ts_type(constraint, ctx),
            None => s,
        };
        let s = match ty.type_parameter.default {
            Some(default) => s.print_chars(" = "@).emit_ts_type(default, ctx),
            None => s,
        };
        let s = match ty.name_type {
            Some(name_type) => s.print_chars(" as "@).emit_ts_type(name_type, ctx),
            None => s,
        };
        let s = s.print_ascii_byte(0x5D);
        let s = match ty.optional {
            Some(TSMappedTypeModifierOperator::True) => s.print_chars("?"@),
            Some(TSMappedTypeModifierOperator::Plus) => s.print_chars("+?"@),
            Some(TSMappedTypeModifierOperator::Minus) => s.print_chars("-?"@),
            None => s,
        };
        let s = s.print_soft_space();
        let s = match ty.type_annotation {
            Some(annotation) => s.print_ascii_byte(0x3A).print_soft_space().emit_ts_type(
                annotation,
                ctx,
            ),
            None => s,
        };
        s.print_soft_space().print_ascii_byte(0x7D)
    }

    #[verifier::opaque]
    pub open spec fn emit_ts_type_name(self, name: TSTypeName, ctx: Context) -> State
        decreases name, 0nat,
    {
        match name {
            TSTypeName::IdentifierReference(ident) => self.emit_identifier_reference(*ident),
            TSTypeName::QualifiedName(name) => self.emit_ts_qualified_name(*name, ctx),
            TSTypeName::ThisExpression(expr) => self.emit_this_expression(*expr),
        }
    }

    #[verifier::opaque]
    pub open spec fn emit_ts_qualified_name(self, name: TSQualifiedName, ctx: Context) -> State
        decreases name, 0nat,
    {
        self.emit_ts_type_name(name.left, ctx).print_ascii_byte(0x2E).emit_identifier_name(
            name.right,
        )
    }

    #[verifier::opaque]
    pub open spec fn emit_ts_type_operator(self, ty: TSTypeOperator, ctx: Context) -> State
        decreases ty, 0nat,
    {
        self.print_chars(ty.operator.spec_str()@).print_hard_space().emit_ts_type(
            ty.type_annotation,
            ctx,
        )
    }

    #[verifier::opaque]
    pub open spec fn emit_ts_type_predicate(self, ty: TSTypePredicate, ctx: Context) -> State
        decreases ty, 0nat,
    {
        let s = if ty.asserts {
            self.print_chars("asserts "@)
        } else {
            self
        };
        let s = match ty.parameter_name {
            TSTypePredicateName::Identifier(ident) => s.emit_identifier_name(*ident),
            TSTypePredicateName::This(_) => s.print_chars("this"@),
        };
        match ty.type_annotation {
            Some(a) => s.print_chars(" is "@).emit_ts_type_annotation(*a, ctx),
            None => s,
        }
    }

    #[verifier::opaque]
    pub open spec fn emit_ts_type_reference(self, ty: TSTypeReference, ctx: Context) -> State
        decreases ty, 0nat,
    {
        self.emit_ts_type_name(ty.name, ctx).print_type_arguments(ty.type_arguments, ctx)
    }

    /// The members of an interface or of a type literal: each on a line of its own,
    /// behind its comments, with a `;` at its end.
    #[verifier::opaque]
    pub open spec fn emit_ts_signatures(self, members: Seq<TSSignature>, n: nat, ctx: Context) -> State
        decreases members, n,
    {
        if n == 0 || n > members.len() {
            self
        } else {
            self.emit_ts_signatures(members, (n - 1) as nat, ctx).print_comments_at(
                members[n - 1].spec_span().start,
            ).print_indent().emit_ts_signature(
                members[n - 1],
                ctx,
            ).print_semicolon().print_soft_newline()
        }
    }

    #[verifier::opaque]
    pub open spec fn emit_ts_type_literal(self, ty: TSTypeLiteral, ctx: Context) -> State
        decreases ty, 0nat,
    {
        let single_line = ty.members@.len() == 0;
        self.curly_open(ty.span, single_line).emit_ts_signatures(
            ty.members@,
            ty.members@.len(),
            ctx,
        ).curly_close(single_line)
    }

    #[verifier::opaque]
    pub open spec fn emit_jsdoc_nullable_type(self, ty: JSDocNullableType, ctx: Context) -> State
        decreases ty, 0nat,
    {
        if ty.postfix {
            self.emit_ts_type(ty.type_annotation, ctx).print_ascii_byte(0x3F)
        } else {
            self.print_ascii_byte(0x3F).emit_ts_type(ty.type_annotation, ctx)
        }
    }

    #[verifier::opaque]
    pub open spec fn emit_jsdoc_non_nullable_type(
        self,
        ty: JSDocNonNullableType,
        ctx: Context,
    ) -> State
        decreases ty, 0nat,
    {
        if ty.postfix {
            self.emit_ts_type(ty.type_annotation, ctx).print_ascii_byte(0x21)
        } else {
            self.print_ascii_byte(0x21).emit_ts_type(ty.type_annotation, ctx)
        }
    }

    /// The first `n` texts of a template among types, each behind the type that stands
    /// before it.
    #[verifier::opaque]
    pub open spec fn emit_ts_template_spans(
        self,
        quasis: Seq<TemplateElement>,
        types: Seq<TSType>,
        n: nat,
        ctx: Context,
    ) -> State
        decreases types, n,
    {
        if n == 0 || n > quasis.len() {
            self
        } else {
            let s = self.emit_ts_template_spans(quasis, types, (n - 1) as nat, ctx);
            let s = if n >= 2 && n - 2 < types.len() {
                s.print_chars("${"@).emit_ts_type(types[n - 2], ctx).print_ascii_byte(0x7D)
            } else {
                s
            };
            s.print_chars(quasis[n - 1].raw@)
        }
    }

    #[verifier::opaque]
    pub open spec fn emit_ts_template_literal_type(
        self,
        ty: TSTemplateLiteralType,
        ctx: Context,
    ) -> State
        decreases ty, 0nat,
    {
        self.print_ascii_byte(0x60).emit_ts_template_spans(
            ty.quasis@,
            ty.types@,
            ty.quasis@.len(),
            ctx,
        ).print_ascii_byte(0x60)
    }

    /// The key of a member of an interface.
    #[verifier::opaque]
    pub open spec fn emit_ts_signature_key(self, key: PropertyKey, computed: bool, ctx: Context) -> State
        decreases key, 1nat,
    {
        if computed {
            self.print_ascii_byte(0x5B).emit_property_key(key, ctx).print_ascii_byte(0x5D)
        } else {
            match key {
                PropertyKey::StaticIdentifier(ident) => self.emit_identifier_name(ident),
                PropertyKey::PrivateIdentifier(ident) => self.print_chars(ident.name@),
                PropertyKey::Expression(e) => self.emit_expression(e, Precedence::Comma, ctx),
            }
        }
    }

    #[verifier::opaque]
    pub open spec fn emit_ts_call_signature_declaration(
        self,
        signature: TSCallSignatureDeclaration,
        ctx: Context,
    ) -> State
        decreases signature, 0nat,
    {
        self.print_type_parameters(signature.type_parameters, ctx).print_ascii_byte(
            0x28,
        ).print_this_parameter(
            signature.this_param,
            spec_has_parameters(signature.params),
            ctx,
        ).emit_formal_parameters(signature.params, ctx).print_ascii_byte(
            0x29,
        ).print_type_annotation(signature.return_type, ctx)
    }

    #[verifier::opaque]
    pub open spec fn emit_ts_construct_signature_declaration(
        self,
        signature: TSConstructSignatureDeclaration,
        ctx: Context,
    ) -> State
        decreases signature, 0nat,
    {
        self.print_chars("new "@).print_type_parameters(
            signature.type_parameters,
            ctx,
        ).print_ascii_byte(0x28).emit_formal_parameters(signature.params, ctx).print_ascii_byte(
            0x29,
        ).print_type_annotation(signature.return_type, ctx)
    }

    #[verifier::opaque]
    pub open spec fn emit_ts_method_signature(self, signature: TSMethodSignature, ctx: Context) -> State
        decreases signature, 0nat,
    {
        let s = match signature.kind {
            TSMethodSignatureKind::Method => self,
            TSMethodSignatureKind::Getter => self.print_chars("get "@),
            TSMethodSignatureKind::Setter => self.print_chars("set "@),
        };
        let s = s.emit_ts_signature_key(signature.key, signature.computed, ctx);
        let s = if signature.optional {
            s.print_ascii_byte(0x3F)
        } else {
            s
        };
        s.print_type_parameters(signature.type_parameters, ctx).print_ascii_byte(
            0x28,
        ).print_this_parameter(
            signature.this_param,
            spec_has_parameters(signature.params),
            ctx,
        ).emit_formal_parameters(signature.params, ctx).print_ascii_byte(
            0x29,
        ).print_type_annotation(signature.return_type, ctx)
    }

    #[verifier::opaque]
    pub open spec fn emit_ts_property_signature(
        self,
        signature: TSPropertySignature,
        ctx: Context,
    ) -> State
        decreases signature, 0nat,
    {
        let s = if signature.readonly {
            self.print_chars("readonly "@)
        } else {
            self
        };
        let s = s.emit_ts_signature_key(signature.key, signature.computed, ctx);
        let s = if signature.optional {
            s.print_ascii_byte(0x3F)
        } else {
            s
        };
        s.print_type_annotation(signature.type_annotation, ctx)
    }

    #[verifier::opaque]
    pub open spec fn emit_ts_index_parameters(
        self,
        parameters: Seq<TSIndexSignatureName>,
        n: nat,
        ctx: Context,
    ) -> State
        decreases parameters, n,
    {
        if n == 0 || n > parameters.len() {
            self
        } else {
            let s = self.emit_ts_index_parameters(parameters, (n - 1) as nat, ctx);
            let s = if n > 1 {
                s.print_comma().print_soft_space()
            } else {
                s
            };
            s.print_chars(parameters[n - 1].name@).print_colon().print_soft_space().emit_ts_type_annotation(
                parameters[n - 1].type_annotation,
                ctx,
            )
        }
    }

    #[verifier::opaque]
    pub open spec fn emit_ts_index_signature(self, signature: TSIndexSignature, ctx: Context) -> State
        decreases signature, 0nat,
    {
        let s = if signature.readonly {
            self.print_chars("readonly "@)
        } else {
            self
        };
        s.print_ascii_byte(0x5B).emit_ts_index_parameters(
            signature.parameters@,
            signature.parameters@.len(),
            ctx,
        ).print_ascii_byte(0x5D).print_colon().print_soft_space().emit_ts_type_annotation(
            signature.type_annotation,
            ctx,
        )
    }

    #[verifier::opaque]
    pub open spec fn emit_ts_signature(self, signature: TSSignature, ctx: Context) -> State
        decreases signature, 0nat,
    {
        match signature {
            TSSignature::TSIndexSignature(s) => self.emit_ts_index_signature(*s, ctx),
            TSSignature::TSPropertySignature(s) => self.emit_ts_property_signature(*s, ctx),
            TSSignature::TSCallSignatureDeclaration(s) => self.emit_ts_call_signature_declaration(
                *s,
                ctx,
            ),
            TSSignature::TSConstructSignatureDeclaration(
                s,
            ) => self.emit_ts_construct_signature_declaration(*s, ctx),
            TSSignature::TSMethodSignature(s) => self.emit_ts_method_signature(*s, ctx),
        }
    }

    #[verifier::opaque]
    pub open spec fn emit_ts_literal(self, literal: TSLiteral, ctx: Context) -> State
        decreases literal, 0nat,
    {
        match literal {
            TSLiteral::BooleanLiteral(lit) => self.emit_boolean_literal(*lit),
            TSLiteral::NumericLiteral(lit) => self.emit_numeric_literal(
                *lit,
                Precedence::Lowest,
                ctx,
            ),
            TSLiteral::BigIntLiteral(lit) => self.emit_bigint_literal(*lit, Precedence::Lowest),
            TSLiteral::StringLiteral(lit) => self.emit_string_literal(*lit),
            TSLiteral::TemplateLiteral(lit) => self.emit_template_literal(*lit),
            TSLiteral::UnaryExpression(e) => self.emit_unary_expression(*e, Precedence::Comma, ctx),
        }
    }

    #[verifier::opaque]
    pub open spec fn emit_ts_type_parameter(self, param: TSTypeParameter, ctx: Context) -> State
        decreases param, 0nat,
    {
        let s = if param.is_const {
            self.print_chars("const "@)
        } else {
            self
        };
        let s = if param.is_in {
            s.print_chars("in "@)
        } else {
            s
        };
        let s = if param.out {
            s.print_chars("out "@)
        } else {
            s
        };
        let s = s.emit_binding_identifier(param.name);
        let s = match param.constraint {
            Some(constraint) => s.print_chars(" extends "@).emit_ts_type(constraint, ctx),
            None => s,
        };
        match param.default {
            Some(default) => s.print_chars(" = "@).emit_ts_type(default, ctx),
            None => s,
        }
    }

    /// The first `n` type parameters of a declaration. Two or more stand each on a line
    /// of its own.
    #[verifier::opaque]
    pub open spec fn emit_ts_type_parameters(
        self,
        params: Seq<TSTypeParameter>,
        n: nat,
        multi_line: bool,
        ctx: Context,
    ) -> State
        decreases params, n,
    {
        if n == 0 || n > params.len() {
            self
        } else {
            let s = self.emit_ts_type_parameters(params, (n - 1) as nat, multi_line, ctx);
            let s = if n > 1 {
                s.print_comma()
            } else {
                s
            };
            let s = if multi_line {
                s.print_soft_newline().print_indent()
            } else if n > 1 {
                s.print_soft_space()
            } else {
                s
            };
            s.emit_ts_type_parameter(params[n - 1], ctx)
        }
    }

    /// The type parameters of a declaration. In a JSX file a single parameter is
    /// followed by a comma, so that it is not read as an element.
    #[verifier::opaque]
    pub open spec fn emit_ts_type_parameter_declaration(
        self,
        decl: TSTypeParameterDeclaration,
        ctx: Context,
    ) -> State
        decreases decl, 0nat,
    {
        let multi_line = decl.params@.len() >= 2;
        let s = self.print_ascii_byte(0x3C);
        let s = if multi_line {
            s.indent()
        } else {
            s
        };
        let s = s.emit_ts_type_parameters(decl.params@, decl.params@.len(), multi_line, ctx);
        let s = if multi_line {
            s.print_soft_newline().dedent().print_indent()
        } else if s.is_jsx {
            s.print_ascii_byte(0x2C)
        } else {
            s
        };
        s.print_ascii_byte(0x3E)
    }

    #[verifier::opaque]
    pub open spec fn emit_ts_types(self, types: Seq<TSType>, n: nat, ctx: Context) -> State
        decreases types, n,
    {
        if n == 0 || n > types.len() {
            self
        } else {
            let s = self.emit_ts_types(types, (n - 1) as nat, ctx);
            let s = if n > 1 {
                s.print_comma().print_soft_space()
            } else {
                s
            };
            s.emit_ts_type(types[n - 1], ctx)
        }
    }

    #[verifier::opaque]
    pub open spec fn emit_ts_type_parameter_instantiation(
        self,
        instantiation: TSTypeParameterInstantiation,
        ctx: Context,
    ) -> State
        decreases instantiation, 0nat,
    {
        self.print_ascii_byte(0x3C).emit_ts_types(
            instantiation.params@,
            instantiation.params@.len(),
            ctx,
        ).print_ascii_byte(0x3E)
    }

    #[verifier::opaque]
    pub open spec fn emit_ts_type_query_expr_name(
        self,
        name: TSTypeQueryExprName,
        ctx: Context,
    ) -> State
        decreases name, 0nat,
    {
        match name {
            TSTypeQueryExprName::TypeName(n) => self.emit_ts_type_name(n, ctx),
            TSTypeQueryExprName::TSImportType(t) => self.emit_ts_import_type(*t, ctx),
        }
    }

    #[verifier::opaque]
    pub open spec fn emit_ts_type_query(self, query: TSTypeQuery, ctx: Context) -> State
        decreases query, 0nat,
    {
        self.print_chars("typeof "@).emit_ts_type_query_expr_name(
            query.expr_name,
            ctx,
        ).print_type_arguments(query.type_arguments, ctx)
    }

    #[verifier::opaque]
    pub open spec fn emit_ts_import_type_qualifier(
        self,
        qualifier: TSImportTypeQualifier,
        ctx: Context,
    ) -> State
        decreases qualifier, 0nat,
    {
        match qualifier {
            TSImportTypeQualifier::Identifier(ident) => self.print_chars(ident.name@),
            TSImportTypeQualifier::QualifiedName(name) => self.emit_ts_import_type_qualified_name(
                *name,
                ctx,
            ),
        }
    }

    #[verifier::opaque]
    pub open spec fn emit_ts_import_type_qualified_name(
        self,
        name: TSImportTypeQualifiedName,
        ctx: Context,
    ) -> State
        decreases name, 0nat,
    {
        self.emit_ts_import_type_qualifier(name.left, ctx).print_ascii_byte(0x2E).print_chars(
            name.right.name@,
        )
    }

    #[verifier::opaque]
    pub open spec fn emit_ts_import_type(self, import: TSImportType, ctx: Context) -> State
        decreases import, 0nat,
    {
        let s = self.print_chars("import("@).emit_ts_type(import.argument, ctx);
        let s = match import.options {
            Some(options) => s.print_chars(", "@).emit_object_expression(*options, ctx),
            None => s,
        };
        let s = s.print_ascii_byte(0x29);
        let s = match import.qualifier {
            Some(qualifier) => s.print_ascii_byte(0x2E).emit_ts_import_type_qualifier(
                qualifier,
                ctx,
            ),
            None => s,
        };
        s.print_type_arguments(import.type_arguments, ctx)
    }

    #[verifier::opaque]
    pub open spec fn emit_ts_function_type(self, ty: TSFunctionType, ctx: Context) -> State
        decreases ty, 0nat,
    {
        self.print_type_parameters(ty.type_parameters, ctx).print_ascii_byte(
            0x28,
        ).print_this_parameter(
            ty.this_param,
            spec_has_parameters(ty.params),
            ctx,
        ).emit_formal_parameters(ty.params, ctx).print_ascii_byte(
            0x29,
        ).print_soft_space().print_chars("=>"@).print_soft_space().emit_ts_type_annotation(
            ty.return_type,
            ctx,
        )
    }

    #[verifier::opaque]
    pub open spec fn emit_ts_constructor_type(self, ty: TSConstructorType, ctx: Context) -> State
        decreases ty, 0nat,
    {
        let s = if ty.is_abstract {
            self.print_chars("abstract "@)
        } else {
            self
        };
        s.print_chars("new "@).print_type_parameters(ty.type_parameters, ctx).print_ascii_byte(
            0x28,
        ).emit_formal_parameters(ty.params, ctx).print_ascii_byte(
            0x29,
        ).print_soft_space().print_chars("=>"@).print_soft_space().emit_ts_type_annotation(
            ty.return_type,
            ctx,
        )
    }

    #[verifier::opaque]
    pub open spec fn emit_ts_class_implements(self, implements: TSClassImplements, ctx: Context) -> State
        decreases implements, 0nat,
    {
        self.emit_ts_type_name(implements.expression, ctx).print_type_arguments(
            implements.type_arguments,
            ctx,
        )
    }

    /// What a class implements, where it implements anything: the word, and the names
    /// with commas between them.
    #[verifier::opaque]
    pub open spec fn emit_ts_implements_list(
        self,
        items: Seq<TSClassImplements>,
        n: nat,
        ctx: Context,
    ) -> State
        decreases items, n,
    {
        if n == 0 || n > items.len() {
            self
        } else {
            let s = self.emit_ts_implements_list(items, (n - 1) as nat, ctx);
            let s = if n > 1 {
                s.print_comma().print_soft_space()
            } else {
                s.print_chars(" implements "@)
            };
            s.emit_ts_class_implements(items[n - 1], ctx)
        }
    }

    #[verifier::opaque]
    pub open spec fn emit_ts_interface_heritage(
        self,
        heritage: TSInterfaceHeritage,
        ctx: Context,
    ) -> State
        decreases heritage, 0nat,
    {
        self.emit_expression(heritage.expression, Precedence::Call, ctx).print_type_arguments(
            heritage.type_arguments,
            ctx,
        )
    }

    /// What an interface extends, where it extends anything: the word, and the
    /// interfaces with commas between them.
    #[verifier::opaque]
    pub open spec fn emit_ts_heritage_list(
        self,
        items: Seq<TSInterfaceHeritage>,
        n: nat,
        ctx: Context,
    ) -> State
        decreases items, n,
    {
        if n == 0 || n > items.len() {
            self
        } else {
            let s = self.emit_ts_heritage_list(items, (n - 1) as nat, ctx);
            let s = if n > 1 {
                s.print_comma().print_soft_space()
            } else {
                s.print_chars(" extends "@)
            };
            s.emit_ts_interface_heritage(items[n - 1], ctx)
        }
    }

    #[verifier::opaque]
    pub open spec fn emit_ts_interface_declaration(
        self,
        decl: TSInterfaceDeclaration,
        ctx: Context,
    ) -> State
        decreases decl, 0nat,
    {
        let single_line = decl.body.body@.len() == 0;
        self.print_chars("interface"@).print_hard_space().emit_binding_identifier(
            decl.id,
        ).print_type_parameters(decl.type_parameters, ctx).emit_ts_heritage_list(
            decl.extends@,
            decl.extends@.len(),
            ctx,
        ).print_soft_space().curly_open(decl.body.span, single_line).emit_ts_signatures(
            decl.body.body@,
            decl.body.body@.len(),
            ctx,
        ).curly_close(single_line)
    }

    #[verifier::opaque]
    pub open spec fn emit_ts_type_alias_declaration(
        self,
        decl: TSTypeAliasDeclaration,
        ctx: Context,
    ) -> State
        decreases decl, 0nat,
    {
        let s = if decl.declare {
            self.print_chars("declare "@)
        } else {
            self
        };
        s.print_chars("type"@).print_space_before_identifier().emit_binding_identifier(
            decl.id,
        ).print_type_parameters(decl.type_parameters, ctx).print_soft_space().print_ascii_byte(
            0x3D,
        ).print_soft_space().emit_ts_type(decl.type_annotation, ctx)
    }

    #[verifier::opaque]
    pub open spec fn emit_ts_enum_member_name(self, name: TSEnumMemberName) -> State {
        match name {
            TSEnumMemberName::Identifier(ident) => self.emit_identifier_name(*ident),
            TSEnumMemberName::StringLiteral(lit) => self.emit_string_literal(*lit),
            TSEnumMemberName::ComputedString(lit) => self.print_ascii_byte(
                0x5B,
            ).emit_string_literal(*lit).print_ascii_byte(0x5D),
            TSEnumMemberName::ComputedTemplateString(template) => self.add_source_mapping(
                template.head.span,
            ).print_chars("[`"@).print_chars(template.head.raw@).print_chars("`]"@),
        }
    }

    #[verifier::opaque]
    pub open spec fn emit_ts_enum_member(self, member: TSEnumMember, ctx: Context) -> State
        decreases member, 0nat,
    {
        let s = self.emit_ts_enum_member_name(member.id);
        match member.initializer {
            Some(initializer) => s.print_soft_space().print_equal().print_soft_space().emit_expression(
                initializer,
                Precedence::Lowest,
                ctx,
            ),
            None => s,
        }
    }

    /// The first `n` members of an enum: each on a line of its own, behind its
    /// comments, with a comma behind each but the last.
    #[verifier::opaque]
    pub open spec fn emit_ts_enum_members(self, members: Seq<TSEnumMember>, n: nat, ctx: Context) -> State
        decreases members, n,
    {
        if n == 0 || n > members.len() {
            self
        } else {
            let s = self.emit_ts_enum_members(members, (n - 1) as nat, ctx).print_comments_at(
                members[n - 1].span.start,
            ).print_indent().emit_ts_enum_member(members[n - 1], ctx);
            let s = if n != members.len() {
                s.print_comma()
            } else {
                s
            };
            s.print_soft_newline()
        }
    }

    #[verifier::opaque]
    pub open spec fn emit_ts_enum_body(self, body: TSEnumBody, ctx: Context) -> State
        decreases body, 0nat,
    {
        let single_line = body.members@.len() == 0;
        self.curly_open(body.span, single_line).emit_ts_enum_members(
            body.members@,
            body.members@.len(),
            ctx,
        ).curly_close(single_line)
    }

    #[verifier::opaque]
    pub open spec fn emit_ts_enum_declaration(self, decl: TSEnumDeclaration, ctx: Context) -> State
        decreases decl, 0nat,
    {
        let s = self.print_indent();
        let s = if decl.declare {
            s.print_chars("declare "@)
        } else {
            s
        };
        let s = if decl.is_const {
            s.print_chars("const "@)
        } else {
            s
        };
        s.print_space_before_identifier().print_chars("enum "@).emit_binding_identifier(
            decl.id,
        ).print_space_before_identifier().emit_ts_enum_body(decl.body, ctx)
    }

    #[verifier::opaque]
    pub open spec fn emit_ts_module_declaration_name(self, name: TSModuleDeclarationName) -> State {
        match name {
            TSModuleDeclarationName::Identifier(ident) => self.emit_binding_identifier(ident),
            TSModuleDeclarationName::StringLiteral(lit) => self.emit_string_literal(lit),
        }
    }

    #[verifier::opaque]
    pub open spec fn emit_ts_module_block(self, block: TSModuleBlock, ctx: Context) -> State
        decreases block, 0nat,
    {
        let single_line = block.directives@.len() == 0 && block.body@.len() == 0;
        self.curly_open(block.span, single_line).emit_directives(
            block.directives@,
            block.directives@.len(),
        ).emit_body_statements(
            block.body@,
            block.body@.len(),
            ctx,
            block.directives@.len() == 0,
        ).curly_close(single_line).set_needs_semicolon(false)
    }

    /// What follows the name of a module: the names of the modules nested in it, one
    /// by one behind a dot, and the block of the innermost.
    #[verifier::opaque]
    pub open spec fn emit_ts_module_body(self, body: TSModuleDeclarationBody, ctx: Context) -> State
        decreases body, 0nat,
    {
        match body {
            TSModuleDeclarationBody::TSModuleDeclaration(nested) => {
                let s = self.print_ascii_byte(0x2E).emit_ts_module_declaration_name(nested.id);
                match nested.body {
                    Some(next) => s.emit_ts_module_body(next, ctx),
                    None => s,
                }
            },
            TSModuleDeclarationBody::TSModuleBlock(block) => self.print_soft_space().emit_ts_module_block(
                *block,
                ctx,
            ),
        }
    }

    #[verifier::opaque]
    pub open spec fn emit_ts_module_declaration(self, decl: TSModuleDeclaration, ctx: Context) -> State
        decreases decl, 0nat,
    {
        let s = if decl.declare {
            self.print_chars("declare "@)
        } else {
            self
        };
        let s = s.print_chars(decl.kind.spec_str()@);
        let s = if !decl.kind.spec_is_global() {
            s.print_space_before_identifier().emit_ts_module_declaration_name(decl.id)
        } else {
            s
        };
        let s = match decl.body {
            Some(body) => s.emit_ts_module_body(body, ctx),
            None => s.print_semicolon(),
        };
        s.set_needs_semicolon(false)
    }

    #[verifier::opaque]
    pub open spec fn emit_ts_module_reference(self, reference: TSModuleReference, ctx: Context) -> State {
        match reference {
            TSModuleReference::ExternalModuleReference(decl) => self.print_chars(
                "require("@,
            ).emit_string_literal(decl.expression).print_ascii_byte(0x29),
            TSModuleReference::TypeName(name) => self.emit_ts_type_name(name, ctx),
        }
    }

    #[verifier::opaque]
    pub open spec fn emit_ts_import_equals_declaration(
        self,
        decl: TSImportEqualsDeclaration,
        ctx: Context,
    ) -> State {
        self.print_chars("import "@).emit_binding_identifier(decl.id).print_chars(
            " = "@,
        ).emit_ts_module_reference(decl.module_reference, ctx)
    }

    #[verifier::opaque]
    pub open spec fn emit_ts_export_assignment(self, decl: TSExportAssignment, ctx: Context) -> State
        decreases decl, 0nat,
    {
        self.print_indent().print_comments_at(decl.span.start).print_chars(
            "export = "@,
        ).emit_expression(decl.expression, Precedence::Lowest, ctx).print_semicolon_after_statement()
    }

    #[verifier::opaque]
    pub open spec fn emit_ts_namespace_export_declaration(
        self,
        decl: TSNamespaceExportDeclaration,
    ) -> State {
        self.print_indent().print_comments_at(decl.span.start).print_chars(
            "export as namespace "@,
        ).emit_identifier_name(decl.id).print_semicolon_after_statement()
    }

    /// `x as T`.
    #[verifier::opaque]
    pub open spec fn emit_ts_as_expression(
        self,
        expr: TSAsExpression,
        precedence: Precedence,
        ctx: Context,
    ) -> State
        decreases expr, 0nat,
    {
        let wrap = precedence.spec_at_least(Precedence::Shift);
        self.wrap_open(wrap).emit_expression(
            expr.expression,
            Precedence::Exponentiation,
            ctx,
        ).print_chars(" as "@).emit_ts_type(expr.type_annotation, ctx).wrap_close(wrap)
    }

    /// `x satisfies T`, which always stands in parentheses.
    #[verifier::opaque]
    pub open spec fn emit_ts_satisfies_expression(
        self,
        expr: TSSatisfiesExpression,
        precedence: Precedence,
        ctx: Context,
    ) -> State
        decreases expr, 0nat,
    {
        let wrap = spec_satisfies_wraps(expr.expression);
        self.print_ascii_byte(0x28).wrap_open(wrap).emit_expression(
            expr.expression,
            precedence,
            Context::spec_empty(),
        ).wrap_close(wrap).print_chars(" satisfies "@).emit_ts_type(
            expr.type_annotation,
            ctx,
        ).print_ascii_byte(0x29)
    }

    /// `x!`.
    #[verifier::opaque]
    pub open spec fn emit_ts_non_null_expression(
        self,
        expr: TSNonNullExpression,
        precedence: Precedence,
        ctx: Context,
    ) -> State
        decreases expr, 0nat,
    {
        let wrap = expr.expression is ParenthesizedExpression;
        let s = self.wrap_open(wrap).emit_expression(expr.expression, precedence, ctx).wrap_close(
            wrap,
        ).print_ascii_byte(0x21);
        if s.options.minify {
            s.print_hard_space()
        } else {
            s
        }
    }

    /// `f<T>` without a call.
    #[verifier::opaque]
    pub open spec fn emit_ts_instantiation_expression(
        self,
        expr: TSInstantiationExpression,
        precedence: Precedence,
        ctx: Context,
    ) -> State
        decreases expr, 0nat,
    {
        let s = self.emit_expression(
            expr.expression,
            precedence,
            ctx,
        ).emit_ts_type_parameter_instantiation(expr.type_arguments, ctx);
        if s.options.minify {
            s.print_hard_space()
        } else {
            s
        }
    }

    /// `<T>x`, which always stands in parentheses.
    #[verifier::opaque]
    pub open spec fn emit_ts_type_assertion(
        self,
        expr: TSTypeAssertion,
        precedence: Precedence,
        ctx: Context,
    ) -> State
        decreases expr, 0nat,
    {
        let s = self.print_ascii_byte(0x28).print_ascii_byte(0x3C);
        let s = if expr.type_annotation is TSFunctionType {
            s.print_hard_space()
        } else {
            s
        };
        s.emit_ts_type(expr.type_annotation, ctx).print_ascii_byte(0x3E).emit_expression(
            expr.expression,
            Precedence::Member,
            ctx,
        ).print_ascii_byte(0x29)
    }

    /// An expression that only a typed source holds. Any other expression is left to
    /// the other printers.
    #[verifier::opaque]
    pub open spec fn emit_typed_expression(
        self,
        expr: Expression,
        precedence: Precedence,
        ctx: Context,
    ) -> State
        decreases expr, 0nat,
    {
        match expr {
            Expression::JSXElement(e) => self.emit_jsx_element(*e),
            Expression::JSXFragment(e) => self.emit_jsx_fragment(*e),
            Expression::TSAsExpression(e) => self.emit_ts_as_expression(*e, precedence, ctx),
            Expression::TSSatisfiesExpression(e) => self.emit_ts_satisfies_expression(
                *e,
                precedence,
                ctx,
            ),
            Expression::TSTypeAssertion(e) => self.emit_ts_type_assertion(*e, precedence, ctx),
            Expression::TSNonNullExpression(e) => self.emit_ts_non_null_expression(
                *e,
                precedence,
                ctx,
            ),
            Expression::TSInstantiationExpression(e) => self.emit_ts_instantiation_expression(
                *e,
                precedence,
                ctx,
            ),
            _ => self,
        }
    }
}

impl Codegen {
    #[verifier::spinoff_prover]
    pub fn emit_ts_type(&mut self, ty: &TSType, ctx: Context)
        requires
            old(self).wf(),
        ensures
            final(self).wf(),
            old(self)@.code.len() <= final(self)@.code.len(),
            final(self)@ == old(self)@.emit_ts_type(*ty, ctx),
        decreases ty, 1nat,
    {
        proof {
            reveal(State::emit_ts_type);
        }
        let ctx = ctx.with_typescript();
        match ty {
            TSType::TSFunctionType(_)
            | TSType::TSConstructorType(_)
            | TSType::TSArrayType(_)
            | TSType::TSTupleType(_)
            | TSType::TSUnionType(_)
            | TSType::TSParenthesizedType(_)
            | TSType::TSIntersectionType(_)
            | TSType::TSConditionalType(_)
            | TSType::TSInferType(_)
            | TSType::TSIndexedAccessType(_)
            | TSType::TSMappedType(_)
            | TSType::TSNamedTupleMember(_) => self.emit_ts_structural_type(ty, ctx),
            TSType::TSLiteralType(_)
            | TSType::TSImportType(_)
            | TSType::TSTemplateLiteralType(_)
            | TSType::TSTypeLiteral(_)
            | TSType::TSTypeOperatorType(_)
            | TSType::TSTypePredicate(_)
            | TSType::TSTypeQuery(_)
            | TSType::TSTypeReference(_)
            | TSType::JSDocNullableType(_)
            | TSType::JSDocNonNullableType(_) => self.emit_ts_named_type(ty, ctx),
            TSType::TSAnyKeyword(_) => self.print_str("any"),
            TSType::TSBigIntKeyword(_) => self.print_str("bigint"),
            TSType::TSBooleanKeyword(_) => self.print_str("boolean"),
            TSType::TSIntrinsicKeyword(_) => self.print_str("intrinsic"),
            TSType::TSNeverKeyword(_) => self.print_str("never"),
            TSType::TSNullKeyword(_) => self.print_str("null"),
            TSType::TSNumberKeyword(_) => self.print_str("number"),
            TSType::TSObjectKeyword(_) => self.print_str("object"),
            TSType::TSStringKeyword(_) => self.print_str("string"),
            TSType::TSSymbolKeyword(_) => self.print_str("symbol"),
            TSType::TSThisType(_) => self.print_str("this"),
            TSType::TSUndefinedKeyword(_) => self.print_str("undefined"),
            TSType::TSUnknownKeyword(_) => self.print_str("unknown"),
            TSType::JSDocUnknownType(_) => self.print_str("unknown"),
            TSType::TSVoidKeyword(_) => self.print_str("void"),
        }
    }

    #[verifier::spinoff_prover]
    pub fn emit_ts_structural_type(&mut self, ty: &TSType, ctx: Context)
        requires
            old(self).wf(),
        ensures
            final(self).wf(),
            old(self)@.code.len() <= final(self)@.code.len(),
            final(self)@ == old(self)@.emit_ts_structural_type(*ty, ctx),
        decreases ty, 0nat,
    {
        proof {
            reveal(State::emit_ts_structural_type);
        }
        match ty {
            TSType::TSFunctionType(t) => self.emit_ts_function_type(t, ctx),
            TSType::TSConstructorType(t) => self.emit_ts_constructor_type(t, ctx),
            TSType::TSArrayType(t) => self.emit_ts_array_type(t, ctx),
            TSType::TSTupleType(t) => self.emit_ts_tuple_type(t, ctx),
            TSType::TSUnionType(t) => self.emit_ts_union_type(t, ctx),
            TSType::TSParenthesizedType(t) => self.emit_ts_parenthesized_type(t, ctx),
            TSType::TSIntersectionType(t) => self.emit_ts_intersection_type(t, ctx),
            TSType::TSConditionalType(t) => self.emit_ts_conditional_type(t, ctx),
            TSType::TSInferType(t) => self.emit_ts_infer_type(t, ctx),
            TSType::TSIndexedAccessType(t) => self.emit_ts_indexed_access_type(t, ctx),
            TSType::TSMappedType(t) => self.emit_ts_mapped_type(t, ctx),
            TSType::TSNamedTupleMember(t) => self.emit_ts_named_tuple_member(t, ctx),
            _ => {},
        }
    }

    #[verifier::spinoff_prover]
    pub fn emit_ts_named_type(&mut self, ty: &TSType, ctx: Context)
        requires
            old(self).wf(),
        ensures
            final(self).wf(),
            old(self)@.code.len() <= final(self)@.code.len(),
            final(self)@ == old(self)@.emit_ts_named_type(*ty, ctx),
        decreases ty, 0nat,
    {
        proof {
            reveal(State::emit_ts_named_type);
        }
        match ty {
            TSType::TSLiteralType(t) => self.emit_ts_literal(&t.literal, ctx),
            TSType::TSImportType(t) => self.emit_ts_import_type(t, ctx),
            TSType::TSTemplateLiteralType(t) => self.emit_ts_template_literal_type(t, ctx),
            TSType::TSTypeLiteral(t) => self.emit_ts_type_literal(t, ctx),
            TSType::TSTypeOperatorType(t) => self.emit_ts_type_operator(t, ctx),
            TSType::TSTypePredicate(t) => self.emit_ts_type_predicate(t, ctx),
            TSType::TSTypeQuery(t) => self.emit_ts_type_query(t, ctx),
            TSType::TSTypeReference(t) => self.emit_ts_type_reference(t, ctx),
            TSType::JSDocNullableType(t) => self.emit_jsdoc_nullable_type(t, ctx),
            TSType::JSDocNonNullableType(t) => self.emit_jsdoc_non_nullable_type(t, ctx),
            _ => {},
        }
    }

    #[verifier::spinoff_prover]
    pub fn emit_ts_type_annotation(&mut self, annotation: &TSTypeAnnotation, ctx: Context)
        requires
            old(self).wf(),
        ensures
            final(self).wf(),
            old(self)@.code.len() <= final(self)@.code.len(),
            final(self)@ == old(self)@.emit_ts_type_annotation(*annotation, ctx),
        decreases annotation, 0nat,
    {
        proof {
            reveal(State::emit_ts_type_annotation);
        }
        self.emit_ts_type(&annotation.type_annotation, ctx);
    }

    #[verifier::spinoff_prover]
    pub fn print_type_annotation(&mut self, annotation: &Option<Box<TSTypeAnnotation>>, ctx: Context)
        requires
            old(self).wf(),
        ensures
            final(self).wf(),
            old(self)@.code.len() <= final(self)@.code.len(),
            final(self)@ == old(self)@.print_type_annotation(*annotation, ctx),
        decreases annotation, 0nat,
    {
        proof {
            reveal(State::print_type_annotation);
        }
        match annotation {
            Some(a) => {
                self.print_colon();
                self.print_soft_space();
                self.emit_ts_type_annotation(a, ctx);
            },
            None => {},
        }
    }

    #[verifier::spinoff_prover]
    pub fn print_type_parameters(&mut self, params: &Option<Box<TSTypeParameterDeclaration>>, ctx: Context)
        requires
            old(self).wf(),
        ensures
            final(self).wf(),
            old(self)@.code.len() <= final(self)@.code.len(),
            final(self)@ == old(self)@.print_type_parameters(*params, ctx),
        decreases params, 0nat,
    {
        proof {
            reveal(State::print_type_parameters);
        }
        match params {
            Some(p) => self.emit_ts_type_parameter_declaration(p, ctx),
            None => {},
        }
    }

    #[verifier::spinoff_prover]
    pub fn print_type_arguments(&mut self, args: &Option<Box<TSTypeParameterInstantiation>>, ctx: Context)
        requires
            old(self).wf(),
        ensures
            final(self).wf(),
            old(self)@.code.len() <= final(self)@.code.len(),
            final(self)@ == old(self)@.print_type_arguments(*args, ctx),
        decreases args, 0nat,
    {
        proof {
            reveal(State::print_type_arguments);
        }
        match args {
            Some(a) => self.emit_ts_type_parameter_instantiation(a, ctx),
            None => {},
        }
    }

    #[verifier::spinoff_prover]
    pub fn print_this_parameter(&mut self, this_param: &Option<Box<TSThisParameter>>, more: bool, ctx: Context)
        requires
            old(self).wf(),
        ensures
            final(self).wf(),
            old(self)@.code.len() <= final(self)@.code.len(),
            final(self)@ == old(self)@.print_this_parameter(*this_param, more, ctx),
        decreases this_param, 0nat,
    {
        proof {
            reveal(State::print_this_parameter);
        }
        match this_param {
            Some(p) => {
                self.emit_ts_this_parameter(p, ctx);
                if more {
                    self.print_comma();
                    self.print_soft_space();
                }
            },
            None => {},
        }
    }

    #[verifier::spinoff_prover]
    pub fn emit_ts_this_parameter(&mut self, param: &TSThisParameter, ctx: Context)
        requires
            old(self).wf(),
        ensures
            final(self).wf(),
            old(self)@.code.len() <= final(self)@.code.len(),
            final(self)@ == old(self)@.emit_ts_this_parameter(*param, ctx),
        decreases param, 0nat,
    {
        proof {
            reveal(State::emit_ts_this_parameter);
        }
        self.print_str("this");
        match &param.type_annotation {
            Some(a) => {
                self.print_str(": ");
                self.emit_ts_type_annotation(a, ctx);
            },
            None => {},
        }
    }

    #[verifier::spinoff_prover]
    pub fn emit_ts_array_type(&mut self, ty: &TSArrayType, ctx: Context)
        requires
            old(self).wf(),
        ensures
            final(self).wf(),
            old(self)@.code.len() <= final(self)@.code.len(),
            final(self)@ == old(self)@.emit_ts_array_type(*ty, ctx),
        decreases ty, 0nat,
    {
        proof {
            reveal(State::emit_ts_array_type);
        }
        self.emit_ts_type(&ty.element_type, ctx);
        self.print_str("[]");
    }

    #[verifier::spinoff_prover]
    pub fn emit_ts_tuple_elements(&mut self, elements: &Vec<TSTupleElement>, ctx: Context)
        requires
            old(self).wf(),
        ensures
            final(self).wf(),
            old(self)@.code.len() <= final(self)@.code.len(),
            final(self)@ == old(self)@.emit_ts_tuple_elements(elements@, elements@.len(), ctx),
        decreases elements@, elements@.len(),
    {
        proof {
            reveal(State::emit_ts_tuple_elements);
        }
        let mut i: usize = 0;
        while i < elements.len()
            invariant
                i <= elements.len(),
                self.wf(),
                old(self)@.code.len() <= self@.code.len(),
                self@ == old(self)@.emit_ts_tuple_elements(elements@, i as nat, ctx),
            decreases elements.len() - i,
        {
            proof {
                reveal(State::emit_ts_tuple_elements);
            }
            if i > 0 {
                self.print_comma();
                self.print_soft_space();
            }
            self.emit_ts_tuple_element(&elements[i], ctx);
            i += 1;
        }
    }

    #[verifier::spinoff_prover]
    pub fn emit_ts_tuple_type(&mut self, ty: &TSTupleType, ctx: Context)
        requires
            old(self).wf(),
        ensures
            final(self).wf(),
            old(self)@.code.len() <= final(self)@.code.len(),
            final(self)@ == old(self)@.emit_ts_tuple_type(*ty, ctx),
        decreases ty, 0nat,
    {
        proof {
            reveal(State::emit_ts_tuple_type);
        }
        self.print_ascii_byte(0x5B);
        self.emit_ts_tuple_elements(&ty.element_types, ctx);
        self.print_ascii_byte(0x5D);
    }

    #[verifier::spinoff_prover]
    pub fn emit_ts_tuple_element(&mut self, element: &TSTupleElement, ctx: Context)
        requires
            old(self).wf(),
        ensures
            final(self).wf(),
            old(self)@.code.len() <= final(self)@.code.len(),
            final(self)@ == old(self)@.emit_ts_tuple_element(*element, ctx),
        decreases element, 0nat,
    {
        proof {
            reveal(State::emit_ts_tuple_element);
        }
        match element {
            TSTupleElement::Type(ty) => self.emit_ts_type(ty, ctx),
            TSTupleElement::TSOptionalType(ty) => {
                self.emit_ts_type(&ty.type_annotation, ctx);
                self.print_ascii_byte(0x3F);
            },
            TSTupleElement::TSRestType(ty) => {
                self.print_ellipsis();
                self.emit_ts_type(&ty.type_annotation, ctx);
            },
        }
    }

    #[verifier::spinoff_prover]
    pub fn emit_ts_named_tuple_member(&mut self, member: &TSNamedTupleMember, ctx: Context)
        requires
            old(self).wf(),
        ensures
            final(self).wf(),
            old(self)@.code.len() <= final(self)@.code.len(),
            final(self)@ == old(self)@.emit_ts_named_tuple_member(*member, ctx),
        decreases member, 0nat,
    {
        proof {
            reveal(State::emit_ts_named_tuple_member);
        }
        self.emit_identifier_name(&member.label);
        if member.optional {
            self.print_ascii_byte(0x3F);
        }
        self.print_colon();
        self.print_soft_space();
        self.emit_ts_tuple_element(&member.element_type, ctx);
    }

    #[verifier::spinoff_prover]
    pub fn emit_ts_union_members(&mut self, types: &Vec<TSType>, ctx: Context)
        requires
            old(self).wf(),
        ensures
            final(self).wf(),
            old(self)@.code.len() <= final(self)@.code.len(),
            final(self)@ == old(self)@.emit_ts_union_members(types@, types@.len(), ctx),
        decreases types@, types@.len(),
    {
        proof {
            reveal(State::emit_ts_union_members);
        }
        let mut i: usize = 0;
        while i < types.len()
            invariant
                i <= types.len(),
                self.wf(),
                old(self)@.code.len() <= self@.code.len(),
                self@ == old(self)@.emit_ts_union_members(types@, i as nat, ctx),
            decreases types.len() - i,
        {
            proof {
                reveal(State::emit_ts_union_members);
            }
            if i > 0 {
                self.print_soft_space();
                self.print_ascii_byte(0x7C);
                self.print_soft_space();
            }
            let wrap = parenthesize_check_type_of_conditional_type(&types[i]);
            self.wrap_open(wrap);
            self.emit_ts_type(&types[i], ctx);
            self.wrap_close(wrap);
            i += 1;
        }
    }

    #[verifier::spinoff_prover]
    pub fn emit_ts_union_type(&mut self, ty: &TSUnionType, ctx: Context)
        requires
            old(self).wf(),
        ensures
            final(self).wf(),
            old(self)@.code.len() <= final(self)@.code.len(),
            final(self)@ == old(self)@.emit_ts_union_type(*ty, ctx),
        decreases ty, 0nat,
    {
        proof {
            reveal(State::emit_ts_union_type);
        }
        self.emit_ts_union_members(&ty.types, ctx);
    }

    #[verifier::spinoff_prover]
    pub fn emit_ts_intersection_members(&mut self, types: &Vec<TSType>, ctx: Context)
        requires
            old(self).wf(),
        ensures
            final(self).wf(),
            old(self)@.code.len() <= final(self)@.code.len(),
            final(self)@ == old(self)@.emit_ts_intersection_members(types@, types@.len(), ctx),
        decreases types@, types@.len(),
    {
        proof {
            reveal(State::emit_ts_intersection_members);
        }
        let mut i: usize = 0;
        while i < types.len()
            invariant
                i <= types.len(),
                self.wf(),
                old(self)@.code.len() <= self@.code.len(),
                self@ == old(self)@.emit_ts_intersection_members(types@, i as nat, ctx),
            decreases types.len() - i,
        {
            proof {
                reveal(State::emit_ts_intersection_members);
            }
            if i > 0 {
                self.print_soft_space();
                self.print_ascii_byte(0x26);
                self.print_soft_space();
            }
            self.emit_ts_type(&types[i], ctx);
            i += 1;
        }
    }

    #[verifier::spinoff_prover]
    pub fn emit_ts_intersection_type(&mut self, ty: &TSIntersectionType, ctx: Context)
        requires
            old(self).wf(),
        ensures
            final(self).wf(),
            old(self)@.code.len() <= final(self)@.code.len(),
            final(self)@ == old(self)@.emit_ts_intersection_type(*ty, ctx),
        decreases ty, 0nat,
    {
        proof {
            reveal(State::emit_ts_intersection_type);
        }
        self.emit_ts_intersection_members(&ty.types, ctx);
    }

    #[verifier::spinoff_prover]
    pub fn emit_ts_parenthesized_type(&mut self, ty: &TSParenthesizedType, ctx: Context)
        requires
            old(self).wf(),
        ensures
            final(self).wf(),
            old(self)@.code.len() <= final(self)@.code.len(),
            final(self)@ == old(self)@.emit_ts_parenthesized_type(*ty, ctx),
        decreases ty, 0nat,
    {
        proof {
            reveal(State::emit_ts_parenthesized_type);
        }
        self.print_ascii_byte(0x28);
        self.emit_ts_type(&ty.type_annotation, ctx);
        self.print_ascii_byte(0x29);
    }

    #[verifier::spinoff_prover]
    pub fn emit_ts_conditional_type(&mut self, ty: &TSConditionalType, ctx: Context)
        requires
            old(self).wf(),
        ensures
            final(self).wf(),
            old(self)@.code.len() <= final(self)@.code.len(),
            final(self)@ == old(self)@.emit_ts_conditional_type(*ty, ctx),
        decreases ty, 0nat,
    {
        proof {
            reveal(State::emit_ts_conditional_type);
        }
        self.emit_ts_type(&ty.check_type, ctx);
        self.print_str(" extends ");
        self.emit_ts_type(&ty.extends_type, ctx);
        self.print_str(" ? ");
        self.emit_ts_type(&ty.true_type, ctx);
        self.print_str(" : ");
        self.emit_ts_type(&ty.false_type, ctx);
    }

    #[verifier::spinoff_prover]
    pub fn emit_ts_infer_type(&mut self, ty: &TSInferType, ctx: Context)
        requires
            old(self).wf(),
        ensures
            final(self).wf(),
            old(self)@.code.len() <= final(self)@.code.len(),
            final(self)@ == old(self)@.emit_ts_infer_type(*ty, ctx),
        decreases ty, 0nat,
    {
        proof {
            reveal(State::emit_ts_infer_type);
        }
        self.print_str("infer ");
        self.emit_ts_type_parameter(&ty.type_parameter, ctx);
    }

    #[verifier::spinoff_prover]
    pub fn emit_ts_indexed_access_type(&mut self, ty: &TSIndexedAccessType, ctx: Context)
        requires
            old(self).wf(),
        ensures
            final(self).wf(),
            old(self)@.code.len() <= final(self)@.code.len(),
            final(self)@ == old(self)@.emit_ts_indexed_access_type(*ty, ctx),
        decreases ty, 0nat,
    {
        proof {
            reveal(State::emit_ts_indexed_access_type);
        }
        self.emit_ts_type(&ty.object_type, ctx);
        self.print_ascii_byte(0x5B);
        self.emit_ts_type(&ty.index_type, ctx);
        self.print_ascii_byte(0x5D);
    }

    #[verifier::spinoff_prover]
    pub fn emit_ts_mapped_type(&mut self, ty: &TSMappedType, ctx: Context)
        requires
            old(self).wf(),
        ensures
            final(self).wf(),
            old(self)@.code.len() <= final(self)@.code.len(),
            final(self)@ == old(self)@.emit_ts_mapped_type(*ty, ctx),
        decreases ty, 0nat,
    {
        proof {
            reveal(State::emit_ts_mapped_type);
        }
        self.print_ascii_byte(0x7B);
        self.print_soft_space();
        match ty.readonly {
            Some(TSMappedTypeModifierOperator::True) => self.print_str("readonly "),
            Some(TSMappedTypeModifierOperator::Plus) => self.print_str("+readonly "),
            Some(TSMappedTypeModifierOperator::Minus) => self.print_str("-readonly "),
            None => {},
        }
        self.print_ascii_byte(0x5B);
        self.emit_binding_identifier(&ty.type_parameter.name);
        match &ty.type_parameter.constraint {
            Some(constraint) => {
                self.print_str(" in ");
                self.emit_ts_type(constraint, ctx);
            },
            None => {},
        }
        match &ty.type_parameter.default {
            Some(default) => {
                self.print_str(" = ");
                self.emit_ts_type(default, ctx);
            },
            None => {},
        }
        match &ty.name_type {
            Some(name_type) => {
                self.print_str(" as ");
                self.emit_ts_type(name_type, ctx);
            },
            None => {},
        }
        self.print_ascii_byte(0x5D);
        match ty.optional {
            Some(TSMappedTypeModifierOperator::True) => self.print_str("?"),
            Some(TSMappedTypeModifierOperator::Plus) => self.print_str("+?"),
            Some(TSMappedTypeModifierOperator::Minus) => self.print_str("-?"),
            None => {},
        }
        self.print_soft_space();
        match &ty.type_annotation {
            Some(annotation) => {
                self.print_ascii_byte(0x3A);
                self.print_soft_space();
                self.emit_ts_type(annotation, ctx);
            },
            None => {},
        }
        self.print_soft_space();
        self.print_ascii_byte(0x7D);
    }

    #[verifier::spinoff_prover]
    pub fn emit_ts_type_name(&mut self, name: &TSTypeName, ctx: Context)
        requires
            old(self).wf(),
        ensures
            final(self).wf(),
            old(self)@.code.len() <= final(self)@.code.len(),
            final(self)@ == old(self)@.emit_ts_type_name(*name, ctx),
        decreases name, 0nat,
    {
        proof {
            reveal(State::emit_ts_type_name);
        }
        match name {
            TSTypeName::IdentifierReference(ident) => self.emit_identifier_reference(ident),
            TSTypeName::QualifiedName(name) => self.emit_ts_qualified_name(name, ctx),
            TSTypeName::ThisExpression(expr) => self.emit_this_expression(expr),
        }
    }

    #[verifier::spinoff_prover]
    pub fn emit_ts_qualified_name(&mut self, name: &TSQualifiedName, ctx: Context)
        requires
            old(self).wf(),
        ensures
            final(self).wf(),
            old(self)@.code.len() <= final(self)@.code.len(),
            final(self)@ == old(self)@.emit_ts_qualified_name(*name, ctx),
        decreases name, 0nat,
    {
        proof {
            reveal(State::emit_ts_qualified_name);
        }
        self.emit_ts_type_name(&name.left, ctx);
        self.print_ascii_byte(0x2E);
        self.emit_identifier_name(&name.right);
    }

    #[verifier::spinoff_prover]
    pub fn emit_ts_type_operator(&mut self, ty: &TSTypeOperator, ctx: Context)
        requires
            old(self).wf(),
        ensures
            final(self).wf(),
            old(self)@.code.len() <= final(self)@.code.len(),
            final(self)@ == old(self)@.emit_ts_type_operator(*ty, ctx),
        decreases ty, 0nat,
    {
        proof {
            reveal(State::emit_ts_type_operator);
        }
        self.print_str(ty.operator.to_str());
        self.print_hard_space();
        self.emit_ts_type(&ty.type_annotation, ctx);
    }

    #[verifier::spinoff_prover]
    pub fn emit_ts_type_predicate(&mut self, ty: &TSTypePredicate, ctx: Context)
        requires
            old(self).wf(),
        ensures
            final(self).wf(),
            old(self)@.code.len() <= final(self)@.code.len(),
            final(self)@ == old(self)@.emit_ts_type_predicate(*ty, ctx),
        decreases ty, 0nat,
    {
        proof {
            reveal(State::emit_ts_type_predicate);
        }
        if ty.asserts {
            self.print_str("asserts ");
        }
        match &ty.parameter_name {
            TSTypePredicateName::Identifier(ident) => self.emit_identifier_name(ident),
            TSTypePredicateName::This(_) => self.print_str("this"),
        }
        match &ty.type_annotation {
            Some(a) => {
                self.print_str(" is ");
                self.emit_ts_type_annotation(a, ctx);
            },
            None => {},
        }
    }

    #[verifier::spinoff_prover]
    pub fn emit_ts_type_reference(&mut self, ty: &TSTypeReference, ctx: Context)
        requires
            old(self).wf(),
        ensures
            final(self).wf(),
            old(self)@.code.len() <= final(self)@.code.len(),
            final(self)@ == old(self)@.emit_ts_type_reference(*ty, ctx),
        decreases ty, 0nat,
    {
        proof {
            reveal(State::emit_ts_type_reference);
        }
        self.emit_ts_type_name(&ty.name, ctx);
        self.print_type_arguments(&ty.type_arguments, ctx);
    }

    #[verifier::spinoff_prover]
    pub fn emit_ts_signatures(&mut self, members: &Vec<TSSignature>, ctx: Context)
        requires
            old(self).wf(),
        ensures
            final(self).wf(),
            old(self)@.code.len() <= final(self)@.code.len(),
            final(self)@ == old(self)@.emit_ts_signatures(members@, members@.len(), ctx),
        decreases members@, members@.len(),
    {
        proof {
            reveal(State::emit_ts_signatures);
        }
        let mut i: usize = 0;
        while i < members.len()
            invariant
                i <= members.len(),
                self.wf(),
                old(self)@.code.len() <= self@.code.len(),
                self@ == old(self)@.emit_ts_signatures(members@, i as nat, ctx),
            decreases members.len() - i,
        {
            proof {
                reveal(State::emit_ts_signatures);
            }
            self.print_leading_comments(members[i].span().start);
            self.print_indent();
            self.emit_ts_signature(&members[i], ctx);
            self.print_semicolon();
            self.print_soft_newline();
            i += 1;
        }
    }

    #[verifier::spinoff_prover]
    pub fn emit_ts_type_literal(&mut self, ty: &TSTypeLiteral, ctx: Context)
        requires
            old(self).wf(),
        ensures
            final(self).wf(),
            old(self)@.code.len() <= final(self)@.code.len(),
            final(self)@ == old(self)@.emit_ts_type_literal(*ty, ctx),
        decreases ty, 0nat,
    {
        proof {
            reveal(State::emit_ts_type_literal);
        }
        let single_line = ty.members.len() == 0;
        self.curly_open(ty.span, single_line);
        self.emit_ts_signatures(&ty.members, ctx);
        self.curly_close(single_line);
    }

    #[verifier::spinoff_prover]
    pub fn emit_jsdoc_nullable_type(&mut self, ty: &JSDocNullableType, ctx: Context)
        requires
            old(self).wf(),
        ensures
            final(self).wf(),
            old(self)@.code.len() <= final(self)@.code.len(),
            final(self)@ == old(self)@.emit_jsdoc_nullable_type(*ty, ctx),
        decreases ty, 0nat,
    {
        proof {
            reveal(State::emit_jsdoc_nullable_type);
        }
        if ty.postfix {
            self.emit_ts_type(&ty.type_annotation, ctx);
            self.print_ascii_byte(0x3F);
        } else {
            self.print_ascii_byte(0x3F);
            self.emit_ts_type(&ty.type_annotation, ctx);
        }
    }

    #[verifier::spinoff_prover]
    pub fn emit_jsdoc_non_nullable_type(&mut self, ty: &JSDocNonNullableType, ctx: Context)
        requires
            old(self).wf(),
        ensures
            final(self).wf(),
            old(self)@.code.len() <= final(self)@.code.len(),
            final(self)@ == old(self)@.emit_jsdoc_non_nullable_type(*ty, ctx),
        decreases ty, 0nat,
    {
        proof {
            reveal(State::emit_jsdoc_non_nullable_type);
        }
        if ty.postfix {
            self.emit_ts_type(&ty.type_annotation, ctx);
            self.print_ascii_byte(0x21);
        } else {
            self.print_ascii_byte(0x21);
            self.emit_ts_type(&ty.type_annotation, ctx);
        }
    }

    #[verifier::spinoff_prover]
    pub fn emit_ts_template_spans(&mut self, quasis: &Vec<TemplateElement>, types: &Vec<TSType>, ctx: Context)
        requires
            old(self).wf(),
        ensures
            final(self).wf(),
            old(self)@.code.len() <= final(self)@.code.len(),
            final(self)@ == old(self)@.emit_ts_template_spans(quasis@, types@, quasis@.len(), ctx),
        decreases types@, quasis@.len(),
    {
        proof {
            reveal(State::emit_ts_template_spans);
        }
        let mut i: usize = 0;
        while i < quasis.len()
            invariant
                i <= quasis.len(),
                self.wf(),
                old(self)@.code.len() <= self@.code.len(),
                self@ == old(self)@.emit_ts_template_spans(quasis@, types@, i as nat, ctx),
            decreases quasis.len() - i,
        {
            proof {
                reveal(State::emit_ts_template_spans);
            }
            if i >= 1 && i - 1 < types.len() {
                self.print_str("${");
                self.emit_ts_type(&types[i - 1], ctx);
                self.print_ascii_byte(0x7D);
            }
            self.print_str(quasis[i].raw.as_str());
            i += 1;
        }
    }

    #[verifier::spinoff_prover]
    pub fn emit_ts_template_literal_type(&mut self, ty: &TSTemplateLiteralType, ctx: Context)
        requires
            old(self).wf(),
        ensures
            final(self).wf(),
            old(self)@.code.len() <= final(self)@.code.len(),
            final(self)@ == old(self)@.emit_ts_template_literal_type(*ty, ctx),
        decreases ty, 0nat,
    {
        proof {
            reveal(State::emit_ts_template_literal_type);
        }
        self.print_ascii_byte(0x60);
        self.emit_ts_template_spans(&ty.quasis, &ty.types, ctx);
        self.print_ascii_byte(0x60);
    }

    #[verifier::spinoff_prover]
    pub fn emit_ts_signature_key(&mut self, key: &PropertyKey, computed: bool, ctx: Context)
        requires
            old(self).wf(),
        ensures
            final(self).wf(),
            old(self)@.code.len() <= final(self)@.code.len(),
            final(self)@ == old(self)@.emit_ts_signature_key(*key, computed, ctx),
        decreases key, 1nat,
    {
        proof {
            reveal(State::emit_ts_signature_key);
        }
        if computed {
            self.print_ascii_byte(0x5B);
            self.emit_property_key(key, ctx);
            self.print_ascii_byte(0x5D);
        } else {
            match key {
                PropertyKey::StaticIdentifier(ident) => self.emit_identifier_name(ident),
                PropertyKey::PrivateIdentifier(ident) => self.print_str(ident.name.as_str()),
                PropertyKey::Expression(e) => self.emit_expression(e, Precedence::Comma, ctx),
            }
        }
    }

    #[verifier::spinoff_prover]
    pub fn emit_ts_call_signature_declaration(&mut self, signature: &TSCallSignatureDeclaration, ctx: Context)
        requires
            old(self).wf(),
        ensures
            final(self).wf(),
            old(self)@.code.len() <= final(self)@.code.len(),
            final(self)@ == old(self)@.emit_ts_call_signature_declaration(*signature, ctx),
        decreases signature, 0nat,
    {
        proof {
            reveal(State::emit_ts_call_signature_declaration);
        }
        self.print_type_parameters(&signature.type_parameters, ctx);
        self.print_ascii_byte(0x28);
        self.print_this_parameter(&signature.this_param, has_parameters(&signature.params), ctx);
        self.emit_formal_parameters(&signature.params, ctx);
        self.print_ascii_byte(0x29);
        self.print_type_annotation(&signature.return_type, ctx);
    }

    #[verifier::spinoff_prover]
    pub fn emit_ts_construct_signature_declaration(&mut self, signature: &TSConstructSignatureDeclaration, ctx: Context)
        requires
            old(self).wf(),
        ensures
            final(self).wf(),
            old(self)@.code.len() <= final(self)@.code.len(),
            final(self)@ == old(self)@.emit_ts_construct_signature_declaration(*signature, ctx),
        decreases signature, 0nat,
    {
        proof {
            reveal(State::emit_ts_construct_signature_declaration);
        }
        self.print_str("new ");
        self.print_type_parameters(&signature.type_parameters, ctx);
        self.print_ascii_byte(0x28);
        self.emit_formal_parameters(&signature.params, ctx);
        self.print_ascii_byte(0x29);
        self.print_type_annotation(&signature.return_type, ctx);
    }

    #[verifier::spinoff_prover]
    pub fn emit_ts_method_signature(&mut self, signature: &TSMethodSignature, ctx: Context)
        requires
            old(self).wf(),
        ensures
            final(self).wf(),
            old(self)@.code.len() <= final(self)@.code.len(),
            final(self)@ == old(self)@.emit_ts_method_signature(*signature, ctx),
        decreases signature, 0nat,
    {
        proof {
            reveal(State::emit_ts_method_signature);
        }
        match signature.kind {
            TSMethodSignatureKind::Method => {},
            TSMethodSignatureKind::Getter => self.print_str("get "),
            TSMethodSignatureKind::Setter => self.print_str("set "),
        }
        self.emit_ts_signature_key(&signature.key, signature.computed, ctx);
        if signature.optional {
            self.print_ascii_byte(0x3F);
        }
        self.print_type_parameters(&signature.type_parameters, ctx);
        self.print_ascii_byte(0x28);
        self.print_this_parameter(&signature.this_param, has_parameters(&signature.params), ctx);
        self.emit_formal_parameters(&signature.params, ctx);
        self.print_ascii_byte(0x29);
        self.print_type_annotation(&signature.return_type, ctx);
    }

    #[verifier::spinoff_prover]
    pub fn emit_ts_property_signature(&mut self, signature: &TSPropertySignature, ctx: Context)
        requires
            old(self).wf(),
        ensures
            final(self).wf(),
            old(self)@.code.len() <= final(self)@.code.len(),
            final(self)@ == old(self)@.emit_ts_property_signature(*signature, ctx),
        decreases signature, 0nat,
    {
        proof {
            reveal(State::emit_ts_property_signature);
        }
        if signature.readonly {
            self.print_str("readonly ");
        }
        self.emit_ts_signature_key(&signature.key, signature.computed, ctx);
        if signature.optional {
            self.print_ascii_byte(0x3F);
        }
        self.print_type_annotation(&signature.type_annotation, ctx);
    }

    #[verifier::spinoff_prover]
    pub fn emit_ts_index_parameters(&mut self, parameters: &Vec<TSIndexSignatureName>, ctx: Context)
        requires
            old(self).wf(),
        ensures
            final(self).wf(),
            old(self)@.code.len() <= final(self)@.code.len(),
            final(self)@ == old(self)@.emit_ts_index_parameters(parameters@, parameters@.len(), ctx),
        decreases parameters@, parameters@.len(),
    {
        proof {
            reveal(State::emit_ts_index_parameters);
        }
        let mut i: usize = 0;
        while i < parameters.len()
            invariant
                i <= parameters.len(),
                self.wf(),
                old(self)@.code.len() <= self@.code.len(),
                self@ == old(self)@.emit_ts_index_parameters(parameters@, i as nat, ctx),
            decreases parameters.len() - i,
        {
            proof {
                reveal(State::emit_ts_index_parameters);
            }
            if i > 0 {
                self.print_comma();
                self.print_soft_space();
            }
            self.print_str(parameters[i].name.as_str());
            self.print_colon();
            self.print_soft_space();
            self.emit_ts_type_annotation(&parameters[i].type_annotation, ctx);
            i += 1;
        }
    }

    #[verifier::spinoff_prover]
    pub fn emit_ts_index_signature(&mut self, signature: &TSIndexSignature, ctx: Context)
        requires
            old(self).wf(),
        ensures
            final(self).wf(),
            old(self)@.code.len() <= final(self)@.code.len(),
            final(self)@ == old(self)@.emit_ts_index_signature(*signature, ctx),
        decreases signature, 0nat,
    {
        proof {
            reveal(State::emit_ts_index_signature);
        }
        if signature.readonly {
            self.print_str("readonly ");
        }
        self.print_ascii_byte(0x5B);
        self.emit_ts_index_parameters(&signature.parameters, ctx);
        self.print_ascii_byte(0x5D);
        self.print_colon();
        self.print_soft_space();
        self.emit_ts_type_annotation(&signature.type_annotation, ctx);
    }

    #[verifier::spinoff_prover]
    pub fn emit_ts_signature(&mut self, signature: &TSSignature, ctx: Context)
        requires
            old(self).wf(),
        ensures
            final(self).wf(),
            old(self)@.code.len() <= final(self)@.code.len(),
            final(self)@ == old(self)@.emit_ts_signature(*signature, ctx),
        decreases signature, 0nat,
    {
        proof {
            reveal(State::emit_ts_signature);
        }
        match signature {
            TSSignature::TSIndexSignature(s) => self.emit_ts_index_signature(s, ctx),
            TSSignature::TSPropertySignature(s) => self.emit_ts_property_signature(s, ctx),
            TSSignature::TSCallSignatureDeclaration(s) => self.emit_ts_call_signature_declaration(
                s,
                ctx,
            ),
            TSSignature::TSConstructSignatureDeclaration(
                s,
            ) => self.emit_ts_construct_signature_declaration(s, ctx),
            TSSignature::TSMethodSignature(s) => self.emit_ts_method_signature(s, ctx),
        }
    }

    #[verifier::spinoff_prover]
    pub fn emit_ts_literal(&mut self, literal: &TSLiteral, ctx: Context)
        requires
            old(self).wf(),
        ensures
            final(self).wf(),
            old(self)@.code.len() <= final(self)@.code.len(),
            final(self)@ == old(self)@.emit_ts_literal(*literal, ctx),
        decreases literal, 0nat,
    {
        proof {
            reveal(State::emit_ts_literal);
        }
        match literal {
            TSLiteral::BooleanLiteral(lit) => self.emit_boolean_literal(lit),
            TSLiteral::NumericLiteral(lit) => self.emit_numeric_literal(lit, Precedence::Lowest, ctx),
            TSLiteral::BigIntLiteral(lit) => self.emit_bigint_literal(lit, Precedence::Lowest),
            TSLiteral::StringLiteral(lit) => self.emit_string_literal(lit),
            TSLiteral::TemplateLiteral(lit) => self.emit_template_literal(lit),
            TSLiteral::UnaryExpression(e) => self.emit_unary_expression(e, Precedence::Comma, ctx),
        }
    }

    #[verifier::spinoff_prover]
    pub fn emit_ts_type_parameter(&mut self, param: &TSTypeParameter, ctx: Context)
        requires
            old(self).wf(),
        ensures
            final(self).wf(),
            old(self)@.code.len() <= final(self)@.code.len(),
            final(self)@ == old(self)@.emit_ts_type_parameter(*param, ctx),
        decreases param, 0nat,
    {
        proof {
            reveal(State::emit_ts_type_parameter);
        }
        if param.is_const {
            self.print_str("const ");
        }
        if param.is_in {
            self.print_str("in ");
        }
        if param.out {
            self.print_str("out ");
        }
        self.emit_binding_identifier(&param.name);
        match &param.constraint {
            Some(constraint) => {
                self.print_str(" extends ");
                self.emit_ts_type(constraint, ctx);
            },
            None => {},
        }
        match &param.default {
            Some(default) => {
                self.print_str(" = ");
                self.emit_ts_type(default, ctx);
            },
            None => {},
        }
    }

    #[verifier::spinoff_prover]
    pub fn emit_ts_type_parameters(&mut self, params: &Vec<TSTypeParameter>, multi_line: bool, ctx: Context)
        requires
            old(self).wf(),
        ensures
            final(self).wf(),
            old(self)@.code.len() <= final(self)@.code.len(),
            final(self)@ == old(self)@.emit_ts_type_parameters(params@, params@.len(), multi_line, ctx),
        decreases params@, params@.len(),
    {
        proof {
            reveal(State::emit_ts_type_parameters);
        }
        let mut i: usize = 0;
        while i < params.len()
            invariant
                i <= params.len(),
                self.wf(),
                old(self)@.code.len() <= self@.code.len(),
                self@ == old(self)@.emit_ts_type_parameters(params@, i as nat, multi_line, ctx),
            decreases params.len() - i,
        {
            proof {
                reveal(State::emit_ts_type_parameters);
            }
            if i > 0 {
                self.print_comma();
            }
            if multi_line {
                self.print_soft_newline();
                self.print_indent();
            } else if i > 0 {
                self.print_soft_space();
            }
            self.emit_ts_type_parameter(&params[i], ctx);
            i += 1;
        }
    }

    #[verifier::spinoff_prover]
    pub fn emit_ts_type_parameter_declaration(&mut self, decl: &TSTypeParameterDeclaration, ctx: Context)
        requires
            old(self).wf(),
        ensures
            final(self).wf(),
            old(self)@.code.len() <= final(self)@.code.len(),
            final(self)@ == old(self)@.emit_ts_type_parameter_declaration(*decl, ctx),
        decreases decl, 0nat,
    {
        proof {
            reveal(State::emit_ts_type_parameter_declaration);
        }
        let multi_line = decl.params.len() >= 2;
        self.print_ascii_byte(0x3C);
        if multi_line {
            self.indent();
        }
        self.emit_ts_type_parameters(&decl.params, multi_line, ctx);
        if multi_line {
            self.print_soft_newline();
            self.dedent();
            self.print_indent();
        } else if self.is_jsx() {
            self.print_ascii_byte(0x2C);
        }
        self.print_ascii_byte(0x3E);
    }

    #[verifier::spinoff_prover]
    pub fn emit_ts_types(&mut self, types: &Vec<TSType>, ctx: Context)
        requires
            old(self).wf(),
        ensures
            final(self).wf(),
            old(self)@.code.len() <= final(self)@.code.len(),
            final(self)@ == old(self)@.emit_ts_types(types@, types@.len(), ctx),
        decreases types@, types@.len(),
    {
        proof {
            reveal(State::emit_ts_types);
        }
        let mut i: usize = 0;
        while i < types.len()
            invariant
                i <= types.len(),
                self.wf(),
                old(self)@.code.len() <= self@.code.len(),
                self@ == old(self)@.emit_ts_types(types@, i as nat, ctx),
            decreases types.len() - i,
        {
            proof {
                reveal(State::emit_ts_types);
            }
            if i > 0 {
                self.print_comma();
                self.print_soft_space();
            }
            self.emit_ts_type(&types[i], ctx);
            i += 1;
        }
    }

    #[verifier::spinoff_prover]
    pub fn emit_ts_type_parameter_instantiation(&mut self, instantiation: &TSTypeParameterInstantiation, ctx: Context)
        requires
            old(self).wf(),
        ensures
            final(self).wf(),
            old(self)@.code.len() <= final(self)@.code.len(),
            final(self)@ == old(self)@.emit_ts_type_parameter_instantiation(*instantiation, ctx),
        decreases instantiation, 0nat,
    {
        proof {
            reveal(State::emit_ts_type_parameter_instantiation);
        }
        self.print_ascii_byte(0x3C);
        self.emit_ts_types(&instantiation.params, ctx);
        self.print_ascii_byte(0x3E);
    }

    #[verifier::spinoff_prover]
    pub fn emit_ts_type_query_expr_name(&mut self, name: &TSTypeQueryExprName, ctx: Context)
        requires
            old(self).wf(),
        ensures
            final(self).wf(),
            old(self)@.code.len() <= final(self)@.code.len(),
            final(self)@ == old(self)@.emit_ts_type_query_expr_name(*name, ctx),
        decreases name, 0nat,
    {
        proof {
            reveal(State::emit_ts_type_query_expr_name);
        }
        match name {
            TSTypeQueryExprName::TypeName(n) => self.emit_ts_type_name(n, ctx),
            TSTypeQueryExprName::TSImportType(t) => self.emit_ts_import_type(t, ctx),
        }
    }

    #[verifier::spinoff_prover]
    pub fn emit_ts_type_query(&mut self, query: &TSTypeQuery, ctx: Context)
        requires
            old(self).wf(),
        ensures
            final(self).wf(),
            old(self)@.code.len() <= final(self)@.code.len(),
            final(self)@ == old(self)@.emit_ts_type_query(*query, ctx),
        decreases query, 0nat,
    {
        proof {
            reveal(State::emit_ts_type_query);
        }
        self.print_str("typeof ");
        self.emit_ts_type_query_expr_name(&query.expr_name, ctx);
        self.print_type_arguments(&query.type_arguments, ctx);
    }

    #[verifier::spinoff_prover]
    pub fn emit_ts_import_type_qualifier(&mut self, qualifier: &TSImportTypeQualifier, ctx: Context)
        requires
            old(self).wf(),
        ensures
            final(self).wf(),
            old(self)@.code.len() <= final(self)@.code.len(),
            final(self)@ == old(self)@.emit_ts_import_type_qualifier(*qualifier, ctx),
        decreases qualifier, 0nat,
    {
        proof {
            reveal(State::emit_ts_import_type_qualifier);
        }
        match qualifier {
            TSImportTypeQualifier::Identifier(ident) => self.print_str(ident.name.as_str()),
            TSImportTypeQualifier::QualifiedName(name) => self.emit_ts_import_type_qualified_name(
                name,
                ctx,
            ),
        }
    }

    #[verifier::spinoff_prover]
    pub fn emit_ts_import_type_qualified_name(&mut self, name: &TSImportTypeQualifiedName, ctx: Context)
        requires
            old(self).wf(),
        ensures
            final(self).wf(),
            old(self)@.code.len() <= final(self)@.code.len(),
            final(self)@ == old(self)@.emit_ts_import_type_qualified_name(*name, ctx),
        decreases name, 0nat,
    {
        proof {
            reveal(State::emit_ts_import_type_qualified_name);
        }
        self.emit_ts_import_type_qualifier(&name.left, ctx);
        self.print_ascii_byte(0x2E);
        self.print_str(name.right.name.as_str());
    }

    #[verifier::spinoff_prover]
    pub fn emit_ts_import_type(&mut self, import: &TSImportType, ctx: Context)
        requires
            old(self).wf(),
        ensures
            final(self).wf(),
            old(self)@.code.len() <= final(self)@.code.len(),
            final(self)@ == old(self)@.emit_ts_import_type(*import, ctx),
        decreases import, 0nat,
    {
        proof {
            reveal(State::emit_ts_import_type);
        }
        self.print_str("import(");
        self.emit_ts_type(&import.argument, ctx);
        match &import.options {
            Some(options) => {
                self.print_str(", ");
                self.emit_object_expression(options, ctx);
            },
            None => {},
        }
        self.print_ascii_byte(0x29);
        match &import.qualifier {
            Some(qualifier) => {
                self.print_ascii_byte(0x2E);
                self.emit_ts_import_type_qualifier(qualifier, ctx);
            },
            None => {},
        }
        self.print_type_arguments(&import.type_arguments, ctx);
    }

    #[verifier::spinoff_prover]
    pub fn emit_ts_function_type(&mut self, ty: &TSFunctionType, ctx: Context)
        requires
            old(self).wf(),
        ensures
            final(self).wf(),
            old(self)@.code.len() <= final(self)@.code.len(),
            final(self)@ == old(self)@.emit_ts_function_type(*ty, ctx),
        decreases ty, 0nat,
    {
        proof {
            reveal(State::emit_ts_function_type);
        }
        self.print_type_parameters(&ty.type_parameters, ctx);
        self.print_ascii_byte(0x28);
        self.print_this_parameter(&ty.this_param, has_parameters(&ty.params), ctx);
        self.emit_formal_parameters(&ty.params, ctx);
        self.print_ascii_byte(0x29);
        self.print_soft_space();
        self.print_str("=>");
        self.print_soft_space();
        self.emit_ts_type_annotation(&ty.return_type, ctx);
    }

    #[verifier::spinoff_prover]
    pub fn emit_ts_constructor_type(&mut self, ty: &TSConstructorType, ctx: Context)
        requires
            old(self).wf(),
        ensures
            final(self).wf(),
            old(self)@.code.len() <= final(self)@.code.len(),
            final(self)@ == old(self)@.emit_ts_constructor_type(*ty, ctx),
        decreases ty, 0nat,
    {
        proof {
            reveal(State::emit_ts_constructor_type);
        }
        if ty.is_abstract {
            self.print_str("abstract ");
        }
        self.print_str("new ");
        self.print_type_parameters(&ty.type_parameters, ctx);
        self.print_ascii_byte(0x28);
        self.emit_formal_parameters(&ty.params, ctx);
        self.print_ascii_byte(0x29);
        self.print_soft_space();
        self.print_str("=>");
        self.print_soft_space();
        self.emit_ts_type_annotation(&ty.return_type, ctx);
    }

    #[verifier::spinoff_prover]
    pub fn emit_ts_class_implements(&mut self, implements: &TSClassImplements, ctx: Context)
        requires
            old(self).wf(),
        ensures
            final(self).wf(),
            old(self)@.code.len() <= final(self)@.code.len(),
            final(self)@ == old(self)@.emit_ts_class_implements(*implements, ctx),
        decreases implements, 0nat,
    {
        proof {
            reveal(State::emit_ts_class_implements);
        }
        self.emit_ts_type_name(&implements.expression, ctx);
        self.print_type_arguments(&implements.type_arguments, ctx);
    }

    #[verifier::spinoff_prover]
    pub fn emit_ts_implements_list(&mut self, items: &Vec<TSClassImplements>, ctx: Context)
        requires
            old(self).wf(),
        ensures
            final(self).wf(),
            old(self)@.code.len() <= final(self)@.code.len(),
            final(self)@ == old(self)@.emit_ts_implements_list(items@, items@.len(), ctx),
        decreases items@, items@.len(),
    {
        proof {
            reveal(State::emit_ts_implements_list);
        }
        let mut i: usize = 0;
        while i < items.len()
            invariant
                i <= items.len(),
                self.wf(),
                old(self)@.code.len() <= self@.code.len(),
                self@ == old(self)@.emit_ts_implements_list(items@, i as nat, ctx),
            decreases items.len() - i,
        {
            proof {
                reveal(State::emit_ts_implements_list);
            }
            if i > 0 {
                self.print_comma();
                self.print_soft_space();
            } else {
                self.print_str(" implements ");
            }
            self.emit_ts_class_implements(&items[i], ctx);
            i += 1;
        }
    }

    #[verifier::spinoff_prover]
    pub fn emit_ts_interface_heritage(&mut self, heritage: &TSInterfaceHeritage, ctx: Context)
        requires
            old(self).wf(),
        ensures
            final(self).wf(),
            old(self)@.code.len() <= final(self)@.code.len(),
            final(self)@ == old(self)@.emit_ts_interface_heritage(*heritage, ctx),
        decreases heritage, 0nat,
    {
        proof {
            reveal(State::emit_ts_interface_heritage);
        }
        self.emit_expression(&heritage.expression, Precedence::Call, ctx);
        self.print_type_arguments(&heritage.type_arguments, ctx);
    }

    #[verifier::spinoff_prover]
    pub fn emit_ts_heritage_list(&mut self, items: &Vec<TSInterfaceHeritage>, ctx: Context)
        requires
            old(self).wf(),
        ensures
            final(self).wf(),
            old(self)@.code.len() <= final(self)@.code.len(),
            final(self)@ == old(self)@.emit_ts_heritage_list(items@, items@.len(), ctx),
        decreases items@, items@.len(),
    {
        proof {
            reveal(State::emit_ts_heritage_list);
        }
        let mut i: usize = 0;
        while i < items.len()
            invariant
                i <= items.len(),
                self.wf(),
                old(self)@.code.len() <= self@.code.len(),
                self@ == old(self)@.emit_ts_heritage_list(items@, i as nat, ctx),
            decreases items.len() - i,
        {
            proof {
                reveal(State::emit_ts_heritage_list);
            }
            if i > 0 {
                self.print_comma();
                self.print_soft_space();
            } else {
                self.print_str(" extends ");
            }
            self.emit_ts_interface_heritage(&items[i], ctx);
            i += 1;
        }
    }

    #[verifier::spinoff_prover]
    pub fn emit_ts_interface_declaration(&mut self, decl: &TSInterfaceDeclaration, ctx: Context)
        requires
            old(self).wf(),
        ensures
            final(self).wf(),
            old(self)@.code.len() <= final(self)@.code.len(),
            final(self)@ == old(self)@.emit_ts_interface_declaration(*decl, ctx),
        decreases decl, 0nat,
    {
        proof {
            reveal(State::emit_ts_interface_declaration);
        }
        let single_line = decl.body.body.len() == 0;
        self.print_str("interface");
        self.print_hard_space();
        self.emit_binding_identifier(&decl.id);
        self.print_type_parameters(&decl.type_parameters, ctx);
        self.emit_ts_heritage_list(&decl.extends, ctx);
        self.print_soft_space();
        self.curly_open(decl.body.span, single_line);
        self.emit_ts_signatures(&decl.body.body, ctx);
        self.curly_close(single_line);
    }

    #[verifier::spinoff_prover]
    pub fn emit_ts_type_alias_declaration(&mut self, decl: &TSTypeAliasDeclaration, ctx: Context)
        requires
            old(self).wf(),
        ensures
            final(self).wf(),
            old(self)@.code.len() <= final(self)@.code.len(),
            final(self)@ == old(self)@.emit_ts_type_alias_declaration(*decl, ctx),
        decreases decl, 0nat,
    {
        proof {
            reveal(State::emit_ts_type_alias_declaration);
        }
        if decl.declare {
            self.print_str("declare ");
        }
        self.print_str("type");
        self.print_space_before_identifier();
        self.emit_binding_identifier(&decl.id);
        self.print_type_parameters(&decl.type_parameters, ctx);
        self.print_soft_space();
        self.print_ascii_byte(0x3D);
        self.print_soft_space();
        self.emit_ts_type(&decl.type_annotation, ctx);
    }

    pub fn emit_ts_enum_member_name(&mut self, name: &TSEnumMemberName)
        requires
            old(self).wf(),
        ensures
            final(self).wf(),
            old(self)@.code.len() <= final(self)@.code.len(),
            final(self)@ == old(self)@.emit_ts_enum_member_name(*name),
    {
        proof {
            reveal(State::emit_ts_enum_member_name);
        }
        match name {
            TSEnumMemberName::Identifier(ident) => self.emit_identifier_name(ident),
            TSEnumMemberName::StringLiteral(lit) => self.emit_string_literal(lit),
            TSEnumMemberName::ComputedString(lit) => {
                self.print_ascii_byte(0x5B);
                self.emit_string_literal(lit);
                self.print_ascii_byte(0x5D);
            },
            TSEnumMemberName::ComputedTemplateString(template) => {
                self.add_source_mapping(template.head.span);
                self.print_str("[`");
                self.print_str(template.head.raw.as_str());
                self.print_str("`]");
            },
        }
    }

    #[verifier::spinoff_prover]
    pub fn emit_ts_enum_member(&mut self, member: &TSEnumMember, ctx: Context)
        requires
            old(self).wf(),
        ensures
            final(self).wf(),
            old(self)@.code.len() <= final(self)@.code.len(),
            final(self)@ == old(self)@.emit_ts_enum_member(*member, ctx),
        decreases member, 0nat,
    {
        proof {
            reveal(State::emit_ts_enum_member);
        }
        self.emit_ts_enum_member_name(&member.id);
        match &member.initializer {
            Some(initializer) => {
                self.print_soft_space();
                self.print_equal();
                self.print_soft_space();
                self.emit_expression(initializer, Precedence::Lowest, ctx);
            },
            None => {},
        }
    }

    #[verifier::spinoff_prover]
    pub fn emit_ts_enum_members(&mut self, members: &Vec<TSEnumMember>, ctx: Context)
        requires
            old(self).wf(),
        ensures
            final(self).wf(),
            old(self)@.code.len() <= final(self)@.code.len(),
            final(self)@ == old(self)@.emit_ts_enum_members(members@, members@.len(), ctx),
        decreases members@, members@.len(),
    {
        proof {
            reveal(State::emit_ts_enum_members);
        }
        let mut i: usize = 0;
        while i < members.len()
            invariant
                i <= members.len(),
                self.wf(),
                old(self)@.code.len() <= self@.code.len(),
                self@ == old(self)@.emit_ts_enum_members(members@, i as nat, ctx),
            decreases members.len() - i,
        {
            proof {
                reveal(State::emit_ts_enum_members);
            }
            self.print_leading_comments(members[i].span.start);
            self.print_indent();
            self.emit_ts_enum_member(&members[i], ctx);
            if i + 1 != members.len() {
                self.print_comma();
            }
            self.print_soft_newline();
            i += 1;
        }
    }

    #[verifier::spinoff_prover]
    pub fn emit_ts_enum_body(&mut self, body: &TSEnumBody, ctx: Context)
        requires
            old(self).wf(),
        ensures
            final(self).wf(),
            old(self)@.code.len() <= final(self)@.code.len(),
            final(self)@ == old(self)@.emit_ts_enum_body(*body, ctx),
        decreases body, 0nat,
    {
        proof {
            reveal(State::emit_ts_enum_body);
        }
        let single_line = body.members.len() == 0;
        self.curly_open(body.span, single_line);
        self.emit_ts_enum_members(&body.members, ctx);
        self.curly_close(single_line);
    }

    #[verifier::spinoff_prover]
    pub fn emit_ts_enum_declaration(&mut self, decl: &TSEnumDeclaration, ctx: Context)
        requires
            old(self).wf(),
        ensures
            final(self).wf(),
            old(self)@.code.len() <= final(self)@.code.len(),
            final(self)@ == old(self)@.emit_ts_enum_declaration(*decl, ctx),
        decreases decl, 0nat,
    {
        proof {
            reveal(State::emit_ts_enum_declaration);
        }
        self.print_indent();
        if decl.declare {
            self.print_str("declare ");
        }
        if decl.is_const {
            self.print_str("const ");
        }
        self.print_space_before_identifier();
        self.print_str("enum ");
        self.emit_binding_identifier(&decl.id);
        self.print_space_before_identifier();
        self.emit_ts_enum_body(&decl.body, ctx);
    }

    pub fn emit_ts_module_declaration_name(&mut self, name: &TSModuleDeclarationName)
        requires
            old(self).wf(),
        ensures
            final(self).wf(),
            old(self)@.code.len() <= final(self)@.code.len(),
            final(self)@ == old(self)@.emit_ts_module_declaration_name(*name),
    {
        proof {
            reveal(State::emit_ts_module_declaration_name);
        }
        match name {
            TSModuleDeclarationName::Identifier(ident) => self.emit_binding_identifier(ident),
            TSModuleDeclarationName::StringLiteral(lit) => self.emit_string_literal(lit),
        }
    }

    #[verifier::spinoff_prover]
    pub fn emit_ts_module_block(&mut self, block: &TSModuleBlock, ctx: Context)
        requires
            old(self).wf(),
        ensures
            final(self).wf(),
            old(self)@.code.len() <= final(self)@.code.len(),
            final(self)@ == old(self)@.emit_ts_module_block(*block, ctx),
        decreases block, 0nat,
    {
        proof {
            reveal(State::emit_ts_module_block);
        }
        let single_line = block.directives.len() == 0 && block.body.len() == 0;
        self.curly_open(block.span, single_line);
        self.emit_directives(&block.directives);
        self.emit_body_statements(&block.body, ctx, block.directives.len() == 0);
        self.curly_close(single_line);
        self.set_needs_semicolon(false);
    }

    #[verifier::spinoff_prover]
    pub fn emit_ts_module_body(&mut self, body: &TSModuleDeclarationBody, ctx: Context)
        requires
            old(self).wf(),
        ensures
            final(self).wf(),
            old(self)@.code.len() <= final(self)@.code.len(),
            final(self)@ == old(self)@.emit_ts_module_body(*body, ctx),
        decreases body, 0nat,
    {
        proof {
            reveal(State::emit_ts_module_body);
        }
        match body {
            TSModuleDeclarationBody::TSModuleDeclaration(nested) => {
                self.print_ascii_byte(0x2E);
                self.emit_ts_module_declaration_name(&nested.id);
                match &nested.body {
                    Some(next) => self.emit_ts_module_body(next, ctx),
                    None => {},
                }
            },
            TSModuleDeclarationBody::TSModuleBlock(block) => {
                self.print_soft_space();
                self.emit_ts_module_block(block, ctx);
            },
        }
    }

    #[verifier::spinoff_prover]
    pub fn emit_ts_module_declaration(&mut self, decl: &TSModuleDeclaration, ctx: Context)
        requires
            old(self).wf(),
        ensures
            final(self).wf(),
            old(self)@.code.len() <= final(self)@.code.len(),
            final(self)@ == old(self)@.emit_ts_module_declaration(*decl, ctx),
        decreases decl, 0nat,
    {
        proof {
            reveal(State::emit_ts_module_declaration);
        }
        if decl.declare {
            self.print_str("declare ");
        }
        self.print_str(decl.kind.as_str());
        if !decl.kind.is_global() {
            self.print_space_before_identifier();
            self.emit_ts_module_declaration_name(&decl.id);
        }
        match &decl.body {
            Some(body) => self.emit_ts_module_body(body, ctx),
            None => self.print_semicolon(),
        }
        self.set_needs_semicolon(false);
    }

    pub fn emit_ts_module_reference(&mut self, reference: &TSModuleReference, ctx: Context)
        requires
            old(self).wf(),
        ensures
            final(self).wf(),
            old(self)@.code.len() <= final(self)@.code.len(),
            final(self)@ == old(self)@.emit_ts_module_reference(*reference, ctx),
    {
        proof {
            reveal(State::emit_ts_module_reference);
        }
        match reference {
            TSModuleReference::ExternalModuleReference(decl) => {
                self.print_str("require(");
                self.emit_string_literal(&decl.expression);
                self.print_ascii_byte(0x29);
            },
            TSModuleReference::TypeName(name) => self.emit_ts_type_name(name, ctx),
        }
    }

    pub fn emit_ts_import_equals_declaration(&mut self, decl: &TSImportEqualsDeclaration, ctx: Context)
        requires
            old(self).wf(),
        ensures
            final(self).wf(),
            old(self)@.code.len() <= final(self)@.code.len(),
            final(self)@ == old(self)@.emit_ts_import_equals_declaration(*decl, ctx),
    {
        proof {
            reveal(State::emit_ts_import_equals_declaration);
        }
        self.print_str("import ");
        self.emit_binding_identifier(&decl.id);
        self.print_str(" = ");
        self.emit_ts_module_reference(&decl.module_reference, ctx);
    }

    #[verifier::spinoff_prover]
    pub fn emit_ts_export_assignment(&mut self, decl: &TSExportAssignment, ctx: Context)
        requires
            old(self).wf(),
        ensures
            final(self).wf(),
            old(self)@.code.len() <= final(self)@.code.len(),
            final(self)@ == old(self)@.emit_ts_export_assignment(*decl, ctx),
        decreases decl, 0nat,
    {
        proof {
            reveal(State::emit_ts_export_assignment);
        }
        self.print_indent();
        self.print_comments_at(decl.span.start);
        self.print_str("export = ");
        self.emit_expression(&decl.expression, Precedence::Lowest, ctx);
        self.print_semicolon_after_statement();
    }

    pub fn emit_ts_namespace_export_declaration(&mut self, decl: &TSNamespaceExportDeclaration)
        requires
            old(self).wf(),
        ensures
            final(self).wf(),
            old(self)@.code.len() <= final(self)@.code.len(),
            final(self)@ == old(self)@.emit_ts_namespace_export_declaration(*decl),
    {
        proof {
            reveal(State::emit_ts_namespace_export_declaration);
        }
        self.print_indent();
        self.print_comments_at(decl.span.start);
        self.print_str("export as namespace ");
        self.emit_identifier_name(&decl.id);
        self.print_semicolon_after_statement();
    }

    #[verifier::spinoff_prover]
    pub fn emit_ts_as_expression(&mut self, expr: &TSAsExpression, precedence: Precedence, ctx: Context)
        requires
            old(self).wf(),
        ensures
            final(self).wf(),
            old(self)@.code.len() <= final(self)@.code.len(),
            final(self)@ == old(self)@.emit_ts_as_expression(*expr, precedence, ctx),
        decreases expr, 0nat,
    {
        proof {
            reveal(State::emit_ts_as_expression);
        }
        let wrap = precedence.at_least(Precedence::Shift);
        self.wrap_open(wrap);
        self.emit_expression(&expr.expression, Precedence::Exponentiation, ctx);
        self.print_str(" as ");
        self.emit_ts_type(&expr.type_annotation, ctx);
        self.wrap_close(wrap);
    }

    #[verifier::spinoff_prover]
    pub fn emit_ts_satisfies_expression(&mut self, expr: &TSSatisfiesExpression, precedence: Precedence, ctx: Context)
        requires
            old(self).wf(),
        ensures
            final(self).wf(),
            old(self)@.code.len() <= final(self)@.code.len(),
            final(self)@ == old(self)@.emit_ts_satisfies_expression(*expr, precedence, ctx),
        decreases expr, 0nat,
    {
        proof {
            reveal(State::emit_ts_satisfies_expression);
        }
        let wrap = satisfies_wraps(&expr.expression);
        self.print_ascii_byte(0x28);
        self.wrap_open(wrap);
        self.emit_expression(&expr.expression, precedence, Context::empty());
        self.wrap_close(wrap);
        self.print_str(" satisfies ");
        self.emit_ts_type(&expr.type_annotation, ctx);
        self.print_ascii_byte(0x29);
    }

    #[verifier::spinoff_prover]
    pub fn emit_ts_non_null_expression(&mut self, expr: &TSNonNullExpression, precedence: Precedence, ctx: Context)
        requires
            old(self).wf(),
        ensures
            final(self).wf(),
            old(self)@.code.len() <= final(self)@.code.len(),
            final(self)@ == old(self)@.emit_ts_non_null_expression(*expr, precedence, ctx),
        decreases expr, 0nat,
    {
        proof {
            reveal(State::emit_ts_non_null_expression);
        }
        let wrap = match &expr.expression {
            Expression::ParenthesizedExpression(_) => true,
            _ => false,
        };
        self.wrap_open(wrap);
        self.emit_expression(&expr.expression, precedence, ctx);
        self.wrap_close(wrap);
        self.print_ascii_byte(0x21);
        if self.minify() {
            self.print_hard_space();
        }
    }

    #[verifier::spinoff_prover]
    pub fn emit_ts_instantiation_expression(&mut self, expr: &TSInstantiationExpression, precedence: Precedence, ctx: Context)
        requires
            old(self).wf(),
        ensures
            final(self).wf(),
            old(self)@.code.len() <= final(self)@.code.len(),
            final(self)@ == old(self)@.emit_ts_instantiation_expression(*expr, precedence, ctx),
        decreases expr, 0nat,
    {
        proof {
            reveal(State::emit_ts_instantiation_expression);
        }
        self.emit_expression(&expr.expression, precedence, ctx);
        self.emit_ts_type_parameter_instantiation(&expr.type_arguments, ctx);
        if self.minify() {
            self.print_hard_space();
        }
    }

    #[verifier::spinoff_prover]
    pub fn emit_ts_type_assertion(&mut self, expr: &TSTypeAssertion, precedence: Precedence, ctx: Context)
        requires
            old(self).wf(),
        ensures
            final(self).wf(),
            old(self)@.code.len() <= final(self)@.code.len(),
            final(self)@ == old(self)@.emit_ts_type_assertion(*expr, precedence, ctx),
        decreases expr, 0nat,
    {
        proof {
            reveal(State::emit_ts_type_assertion);
        }
        self.print_ascii_byte(0x28);
        self.print_ascii_byte(0x3C);
        match &expr.type_annotation {
            TSType::TSFunctionType(_) => self.print_hard_space(),
            _ => {},
        }
        self.emit_ts_type(&expr.type_annotation, ctx);
        self.print_ascii_byte(0x3E);
        self.emit_expression(&expr.expression, Precedence::Member, ctx);
        self.print_ascii_byte(0x29);
    }

    #[verifier::spinoff_prover]
    pub fn emit_typed_expression(&mut self, expr: &Expression, precedence: Precedence, ctx: Context)
        requires
            old(self).wf(),
        ensures
            final(self).wf(),
            old(self)@.code.len() <= final(self)@.code.len(),
            final(self)@ == old(self)@.emit_typed_expression(*expr, precedence, ctx),
        decreases expr, 0nat,
    {
        proof {
            reveal(State::emit_typed_expression);
        }
        match expr {
            Expression::JSXElement(e) => self.emit_jsx_element(e),
            Expression::JSXFragment(e) => self.emit_jsx_fragment(e),
            Expression::TSAsExpression(e) => self.emit_ts_as_expression(e, precedence, ctx),
            Expression::TSSatisfiesExpression(e) => self.emit_ts_satisfies_expression(
                e,
                precedence,
                ctx,
            ),
            Expression::TSTypeAssertion(e) => self.emit_ts_type_assertion(e, precedence, ctx),
            Expression::TSNonNullExpression(e) => self.emit_ts_non_null_expression(
                e,
                precedence,
                ctx,
            ),
            Expression::TSInstantiationExpression(e) => self.emit_ts_instantiation_expression(
                e,
                precedence,
                ctx,
            ),
            _ => {},
        }
    }
}

} // verus!
