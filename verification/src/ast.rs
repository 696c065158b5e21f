//! The syntax tree that the printer reads.
//!
//! The tree holds what printing needs and nothing else. Texts are held as strings, and a
//! number is held as the decimal text of its magnitude together with what the printer
//! has to know of its value.

use crate::comment::{Comment, Span};
use crate::jsx::{JSXElement, JSXFragment};
use crate::string::Quote;
use crate::operator::{
    AssignmentOperator, BinaryOperator, LogicalOperator, UnaryOperator, UpdateOperator,
};
use crate::typescript::{
    ImportOrExportKind, TSAccessibility, TSAsExpression, TSClassImplements, TSEnumDeclaration,
    TSExportAssignment, TSImportEqualsDeclaration, TSIndexSignature, TSInstantiationExpression,
    TSInterfaceDeclaration, TSModuleDeclaration, TSNamespaceExportDeclaration,
    TSNonNullExpression, TSSatisfiesExpression, TSThisParameter, TSTypeAliasDeclaration,
    TSTypeAnnotation, TSTypeAssertion, TSTypeParameterDeclaration, TSTypeParameterInstantiation,
};
use vstd::prelude::*;

verus! {

#[derive(Debug)]
pub struct IdentifierName {
    pub span: Span,
    pub name: String,
}

/// A use of a name. `reference_id` is its number in the symbol table, where it has one.
#[derive(Debug)]
pub struct IdentifierReference {
    pub span: Span,
    pub name: String,
    pub reference_id: Option<u32>,
}

/// A name that a declaration introduces. `symbol_id` is its number in the symbol table,
/// where it has one.
#[derive(Debug)]
pub struct BindingIdentifier {
    pub span: Span,
    pub name: String,
    pub symbol_id: Option<u32>,
}

#[derive(Debug)]
pub struct LabelIdentifier {
    pub span: Span,
    pub name: String,
}

/// The name of a private member, without its `#`.
#[derive(Debug)]
pub struct PrivateIdentifier {
    pub span: Span,
    pub name: String,
}

#[derive(Debug)]
pub struct BooleanLiteral {
    pub span: Span,
    pub value: bool,
}

#[derive(Debug)]
pub struct NullLiteral {
    pub span: Span,
}

/// The magnitude of a number.
#[derive(Debug)]
pub enum NumberValue {
    NotANumber,
    Infinity,
    /// A finite magnitude: its shortest decimal text that reads back as the same
    /// number, and its value where it is a whole number (the largest `u128` for a whole
    /// number beyond that).
    Finite { shortest: String, integer: Option<u128> },
}

#[derive(Debug)]
pub struct NumericLiteral {
    pub span: Span,
    /// The sign bit of the number is set.
    pub negative: bool,
    pub value: NumberValue,
    /// The literal as it stood in the source text.
    pub raw: Option<String>,
}

/// A BigInt literal: its digits, without the `n`.
#[derive(Debug)]
pub struct BigIntLiteral {
    pub span: Span,
    pub value: String,
}

#[derive(Debug)]
pub struct RegExpLiteral {
    pub span: Span,
    pub pattern: String,
    pub flags: String,
}

#[derive(Debug)]
pub struct StringLiteral {
    pub span: Span,
    pub value: String,
}

#[derive(Debug)]
pub struct TemplateElement {
    pub span: Span,
    pub raw: String,
}

/// A substitution of a template and the text that follows it.
#[derive(Debug)]
pub struct TemplatePart {
    pub expression: Expression,
    pub quasi: TemplateElement,
}

/// A template: its first text, and then each substitution with the text behind it. So a
/// template always has one text more than it has substitutions.
#[derive(Debug)]
pub struct TemplateLiteral {
    pub span: Span,
    pub head: TemplateElement,
    pub parts: Vec<TemplatePart>,
}

#[derive(Debug)]
pub struct TaggedTemplateExpression {
    pub span: Span,
    pub tag: Expression,
    pub type_arguments: Option<Box<TSTypeParameterInstantiation>>,
    pub quasi: TemplateLiteral,
}

#[derive(Debug)]
pub struct ThisExpression {
    pub span: Span,
}

#[derive(Debug)]
pub struct Super {
    pub span: Span,
}

#[derive(Debug)]
pub struct MetaProperty {
    pub span: Span,
    pub meta: IdentifierName,
    pub property: IdentifierName,
}

#[derive(Debug)]
pub struct SpreadElement {
    pub span: Span,
    pub argument: Expression,
}

#[derive(Debug)]
pub enum ArrayExpressionElement {
    Spread(SpreadElement),
    Elision(Span),
    Expression(Expression),
}

#[derive(Debug)]
pub struct ArrayExpression {
    pub span: Span,
    pub elements: Vec<ArrayExpressionElement>,
}

#[derive(Clone, Copy, Debug, PartialEq, Eq, Structural)]
pub enum PropertyKind {
    Init,
    Getter,
    Setter,
}

#[derive(Debug)]
pub enum PropertyKey {
    StaticIdentifier(IdentifierName),
    PrivateIdentifier(PrivateIdentifier),
    Expression(Expression),
}

#[derive(Debug)]
pub struct ObjectProperty {
    pub span: Span,
    pub kind: PropertyKind,
    pub key: PropertyKey,
    pub value: Expression,
    pub method: bool,
    pub shorthand: bool,
    pub computed: bool,
}

#[derive(Debug)]
pub enum ObjectPropertyKind {
    ObjectProperty(ObjectProperty),
    SpreadProperty(SpreadElement),
}

#[derive(Debug)]
pub struct ObjectExpression {
    pub span: Span,
    pub properties: Vec<ObjectPropertyKind>,
}

#[derive(Debug)]
pub struct ComputedMemberExpression {
    pub span: Span,
    pub object: Expression,
    pub expression: Expression,
    pub optional: bool,
}

#[derive(Debug)]
pub struct StaticMemberExpression {
    pub span: Span,
    pub object: Expression,
    pub property: IdentifierName,
    pub optional: bool,
}

#[derive(Debug)]
pub struct PrivateFieldExpression {
    pub span: Span,
    pub object: Expression,
    pub field: PrivateIdentifier,
    pub optional: bool,
}

#[derive(Debug)]
pub enum Argument {
    Spread(SpreadElement),
    Expression(Expression),
}

#[derive(Debug)]
pub struct CallExpression {
    pub span: Span,
    pub callee: Expression,
    pub type_arguments: Option<Box<TSTypeParameterInstantiation>>,
    pub arguments: Vec<Argument>,
    pub optional: bool,
    pub pure: bool,
}

#[derive(Debug)]
pub struct NewExpression {
    pub span: Span,
    pub callee: Expression,
    pub arguments: Vec<Argument>,
    pub pure: bool,
}

#[derive(Debug)]
pub struct V8IntrinsicExpression {
    pub span: Span,
    pub name: IdentifierName,
    pub arguments: Vec<Argument>,
}

#[derive(Clone, Copy, Debug, PartialEq, Eq, Structural)]
pub enum ImportPhase {
    Source,
    Defer,
}

impl ImportPhase {
    pub open spec fn spec_str(self) -> &'static str {
        match self {
            ImportPhase::Source => "source",
            ImportPhase::Defer => "defer",
        }
    }

    pub fn as_str(self) -> (s: &'static str)
        ensures
            s@ == self.spec_str()@,
    {
        match self {
            ImportPhase::Source => "source",
            ImportPhase::Defer => "defer",
        }
    }
}

#[derive(Debug)]
pub struct ImportExpression {
    pub span: Span,
    pub source: Expression,
    pub options: Option<Expression>,
    pub phase: Option<ImportPhase>,
}

#[derive(Debug)]
pub struct UpdateExpression {
    pub span: Span,
    pub operator: UpdateOperator,
    pub prefix: bool,
    pub argument: SimpleAssignmentTarget,
}

#[derive(Debug)]
pub struct UnaryExpression {
    pub span: Span,
    pub operator: UnaryOperator,
    pub argument: Expression,
}

#[derive(Debug)]
pub struct BinaryExpression {
    pub span: Span,
    pub left: Expression,
    pub operator: BinaryOperator,
    pub right: Expression,
}

#[derive(Debug)]
pub struct PrivateInExpression {
    pub span: Span,
    pub left: PrivateIdentifier,
    pub right: Expression,
}

#[derive(Debug)]
pub struct LogicalExpression {
    pub span: Span,
    pub left: Expression,
    pub operator: LogicalOperator,
    pub right: Expression,
}

#[derive(Debug)]
pub struct ConditionalExpression {
    pub span: Span,
    pub test: Expression,
    pub consequent: Expression,
    pub alternate: Expression,
}

#[derive(Debug)]
pub struct AssignmentExpression {
    pub span: Span,
    pub operator: AssignmentOperator,
    pub left: AssignmentTarget,
    pub right: Expression,
}

/// What can stand on the left of an assignment without being taken apart.
#[derive(Debug)]
pub enum SimpleAssignmentTarget {
    AssignmentTargetIdentifier(IdentifierReference),
    ComputedMemberExpression(Box<ComputedMemberExpression>),
    StaticMemberExpression(Box<StaticMemberExpression>),
    PrivateFieldExpression(Box<PrivateFieldExpression>),
    TSAsExpression(Box<TSAsExpression>),
    TSSatisfiesExpression(Box<TSSatisfiesExpression>),
    TSNonNullExpression(Box<TSNonNullExpression>),
    TSTypeAssertion(Box<TSTypeAssertion>),
}

#[derive(Debug)]
pub enum AssignmentTarget {
    Simple(SimpleAssignmentTarget),
    ArrayAssignmentTarget(Box<ArrayAssignmentTarget>),
    ObjectAssignmentTarget(Box<ObjectAssignmentTarget>),
}

#[derive(Debug)]
pub struct ArrayAssignmentTarget {
    pub span: Span,
    pub elements: Vec<Option<AssignmentTargetMaybeDefault>>,
    pub rest: Option<AssignmentTargetRest>,
}

#[derive(Debug)]
pub struct ObjectAssignmentTarget {
    pub span: Span,
    pub properties: Vec<AssignmentTargetProperty>,
    pub rest: Option<AssignmentTargetRest>,
}

#[derive(Debug)]
pub struct AssignmentTargetRest {
    pub span: Span,
    pub target: AssignmentTarget,
}

#[derive(Debug)]
pub enum AssignmentTargetMaybeDefault {
    AssignmentTargetWithDefault(Box<AssignmentTargetWithDefault>),
    Target(AssignmentTarget),
}

#[derive(Debug)]
pub struct AssignmentTargetWithDefault {
    pub span: Span,
    pub binding: AssignmentTarget,
    pub init: Expression,
}

#[derive(Debug)]
pub enum AssignmentTargetProperty {
    AssignmentTargetPropertyIdentifier(Box<AssignmentTargetPropertyIdentifier>),
    AssignmentTargetPropertyProperty(Box<AssignmentTargetPropertyProperty>),
}

#[derive(Debug)]
pub struct AssignmentTargetPropertyIdentifier {
    pub span: Span,
    pub binding: IdentifierReference,
    pub init: Option<Expression>,
}

#[derive(Debug)]
pub struct AssignmentTargetPropertyProperty {
    pub span: Span,
    pub name: PropertyKey,
    pub binding: AssignmentTargetMaybeDefault,
    pub computed: bool,
}

#[derive(Debug)]
pub struct SequenceExpression {
    pub span: Span,
    pub expressions: Vec<Expression>,
}

#[derive(Debug)]
pub struct AwaitExpression {
    pub span: Span,
    pub argument: Expression,
}

#[derive(Debug)]
pub enum ChainElement {
    CallExpression(Box<CallExpression>),
    ComputedMemberExpression(Box<ComputedMemberExpression>),
    StaticMemberExpression(Box<StaticMemberExpression>),
    PrivateFieldExpression(Box<PrivateFieldExpression>),
    TSNonNullExpression(Box<TSNonNullExpression>),
}

#[derive(Debug)]
pub struct ChainExpression {
    pub span: Span,
    pub expression: ChainElement,
}

#[derive(Debug)]
pub struct ParenthesizedExpression {
    pub span: Span,
    pub expression: Expression,
}

#[derive(Debug)]
pub struct YieldExpression {
    pub span: Span,
    pub delegate: bool,
    pub argument: Option<Expression>,
}

#[derive(Debug)]
pub enum Expression {
    BooleanLiteral(Box<BooleanLiteral>),
    NullLiteral(Box<NullLiteral>),
    NumericLiteral(Box<NumericLiteral>),
    BigIntLiteral(Box<BigIntLiteral>),
    RegExpLiteral(Box<RegExpLiteral>),
    StringLiteral(Box<StringLiteral>),
    TemplateLiteral(Box<TemplateLiteral>),
    Identifier(Box<IdentifierReference>),
    MetaProperty(Box<MetaProperty>),
    Super(Box<Super>),
    ArrayExpression(Box<ArrayExpression>),
    ArrowFunctionExpression(Box<ArrowFunctionExpression>),
    AssignmentExpression(Box<AssignmentExpression>),
    AwaitExpression(Box<AwaitExpression>),
    BinaryExpression(Box<BinaryExpression>),
    CallExpression(Box<CallExpression>),
    ChainExpression(Box<ChainExpression>),
    ClassExpression(Box<Class>),
    ConditionalExpression(Box<ConditionalExpression>),
    FunctionExpression(Box<Function>),
    ImportExpression(Box<ImportExpression>),
    LogicalExpression(Box<LogicalExpression>),
    NewExpression(Box<NewExpression>),
    ObjectExpression(Box<ObjectExpression>),
    ParenthesizedExpression(Box<ParenthesizedExpression>),
    SequenceExpression(Box<SequenceExpression>),
    TaggedTemplateExpression(Box<TaggedTemplateExpression>),
    ThisExpression(Box<ThisExpression>),
    UnaryExpression(Box<UnaryExpression>),
    UpdateExpression(Box<UpdateExpression>),
    YieldExpression(Box<YieldExpression>),
    PrivateInExpression(Box<PrivateInExpression>),
    ComputedMemberExpression(Box<ComputedMemberExpression>),
    StaticMemberExpression(Box<StaticMemberExpression>),
    PrivateFieldExpression(Box<PrivateFieldExpression>),
    V8IntrinsicExpression(Box<V8IntrinsicExpression>),
    JSXElement(Box<JSXElement>),
    JSXFragment(Box<JSXFragment>),
    TSAsExpression(Box<TSAsExpression>),
    TSSatisfiesExpression(Box<TSSatisfiesExpression>),
    TSTypeAssertion(Box<TSTypeAssertion>),
    TSNonNullExpression(Box<TSNonNullExpression>),
    TSInstantiationExpression(Box<TSInstantiationExpression>),
}

#[derive(Debug)]
pub enum BindingPatternKind {
    BindingIdentifier(Box<BindingIdentifier>),
    ObjectPattern(Box<ObjectPattern>),
    ArrayPattern(Box<ArrayPattern>),
    AssignmentPattern(Box<AssignmentPattern>),
}

/// What a declaration or a parameter binds, with the type that is written behind it.
#[derive(Debug)]
pub struct BindingPattern {
    pub kind: BindingPatternKind,
    pub type_annotation: Option<Box<TSTypeAnnotation>>,
    pub optional: bool,
}

#[derive(Debug)]
pub struct AssignmentPattern {
    pub span: Span,
    pub left: BindingPattern,
    pub right: Expression,
}

#[derive(Debug)]
pub struct ObjectPattern {
    pub span: Span,
    pub properties: Vec<BindingProperty>,
    pub rest: Option<BindingRestElement>,
}

#[derive(Debug)]
pub struct BindingProperty {
    pub span: Span,
    pub key: PropertyKey,
    pub value: BindingPattern,
    pub shorthand: bool,
    pub computed: bool,
}

#[derive(Debug)]
pub struct ArrayPattern {
    pub span: Span,
    pub elements: Vec<Option<BindingPattern>>,
    pub rest: Option<BindingRestElement>,
}

#[derive(Debug)]
pub struct BindingRestElement {
    pub span: Span,
    pub argument: BindingPattern,
}

#[derive(Debug)]
pub struct Decorator {
    pub span: Span,
    pub expression: Expression,
}

#[derive(Debug)]
pub struct FormalParameter {
    pub span: Span,
    pub decorators: Vec<Decorator>,
    pub pattern: BindingPattern,
    pub accessibility: Option<TSAccessibility>,
    pub readonly: bool,
    pub is_override: bool,
}

#[derive(Debug)]
pub struct FormalParameters {
    pub span: Span,
    pub items: Vec<FormalParameter>,
    pub rest: Option<BindingRestElement>,
}

/// A directive: its text as it stood between the quotes of the source text, and the
/// quote that it stood in, where that is known.
#[derive(Debug)]
pub struct Directive {
    pub span: Span,
    pub directive: String,
    pub quote: Option<Quote>,
}

#[derive(Debug)]
pub struct Hashbang {
    pub span: Span,
    pub value: String,
}

#[derive(Debug)]
pub struct FunctionBody {
    pub span: Span,
    pub directives: Vec<Directive>,
    pub statements: Vec<Statement>,
}

#[derive(Debug)]
pub struct Function {
    pub span: Span,
    /// The function stands where an expression stands.
    pub expression: bool,
    pub id: Option<BindingIdentifier>,
    pub generator: bool,
    pub is_async: bool,
    pub declare: bool,
    pub type_parameters: Option<Box<TSTypeParameterDeclaration>>,
    pub this_param: Option<Box<TSThisParameter>>,
    pub params: FormalParameters,
    pub return_type: Option<Box<TSTypeAnnotation>>,
    pub body: Option<FunctionBody>,
    /// The function is marked as free of side effects.
    pub pure: bool,
    /// The function stood in parentheses and is likely to be called at once.
    pub pife: bool,
}

#[derive(Debug)]
pub struct ArrowFunctionExpression {
    pub span: Span,
    /// The body is one expression, held as the only statement of `body`.
    pub expression: bool,
    pub is_async: bool,
    pub type_parameters: Option<Box<TSTypeParameterDeclaration>>,
    pub params: FormalParameters,
    pub return_type: Option<Box<TSTypeAnnotation>>,
    pub body: FunctionBody,
    pub pure: bool,
    pub pife: bool,
}

#[derive(Debug)]
pub struct Class {
    pub span: Span,
    /// The class stands where an expression stands.
    pub expression: bool,
    pub decorators: Vec<Decorator>,
    pub id: Option<BindingIdentifier>,
    pub type_parameters: Option<Box<TSTypeParameterDeclaration>>,
    pub super_class: Option<Expression>,
    pub super_type_arguments: Option<Box<TSTypeParameterInstantiation>>,
    pub implements: Vec<TSClassImplements>,
    pub body: ClassBody,
    pub is_abstract: bool,
    pub declare: bool,
}

#[derive(Debug)]
pub struct ClassBody {
    pub span: Span,
    pub body: Vec<ClassElement>,
}

#[derive(Debug)]
pub enum ClassElement {
    StaticBlock(Box<StaticBlock>),
    MethodDefinition(Box<MethodDefinition>),
    PropertyDefinition(Box<PropertyDefinition>),
    AccessorProperty(Box<AccessorProperty>),
    TSIndexSignature(Box<TSIndexSignature>),
}

#[derive(Debug)]
pub struct StaticBlock {
    pub span: Span,
    pub body: Vec<Statement>,
}

#[derive(Clone, Copy, Debug, PartialEq, Eq, Structural)]
pub enum MethodDefinitionKind {
    Constructor,
    Method,
    Getter,
    Setter,
}

#[derive(Debug)]
pub struct MethodDefinition {
    pub span: Span,
    pub decorators: Vec<Decorator>,
    pub key: PropertyKey,
    pub value: Function,
    pub kind: MethodDefinitionKind,
    pub computed: bool,
    pub is_static: bool,
    pub is_abstract: bool,
    pub optional: bool,
    pub accessibility: Option<TSAccessibility>,
}

#[derive(Debug)]
pub struct PropertyDefinition {
    pub span: Span,
    pub decorators: Vec<Decorator>,
    pub key: PropertyKey,
    pub type_annotation: Option<Box<TSTypeAnnotation>>,
    pub value: Option<Expression>,
    pub computed: bool,
    pub is_static: bool,
    pub is_abstract: bool,
    pub declare: bool,
    pub optional: bool,
    pub readonly: bool,
    pub accessibility: Option<TSAccessibility>,
}

#[derive(Debug)]
pub struct AccessorProperty {
    pub span: Span,
    pub decorators: Vec<Decorator>,
    pub key: PropertyKey,
    pub type_annotation: Option<Box<TSTypeAnnotation>>,
    pub value: Option<Expression>,
    pub computed: bool,
    pub is_static: bool,
    pub is_abstract: bool,
    pub is_override: bool,
    pub accessibility: Option<TSAccessibility>,
}

#[derive(Clone, Copy, Debug, PartialEq, Eq, Structural)]
pub enum VariableDeclarationKind {
    Var,
    Let,
    Const,
    Using,
    AwaitUsing,
}

#[derive(Debug)]
pub struct VariableDeclarator {
    pub span: Span,
    pub id: BindingPattern,
    pub init: Option<Expression>,
    pub definite: bool,
}

#[derive(Debug)]
pub struct VariableDeclaration {
    pub span: Span,
    pub kind: VariableDeclarationKind,
    pub declarations: Vec<VariableDeclarator>,
    pub declare: bool,
}

#[derive(Debug)]
pub struct BlockStatement {
    pub span: Span,
    pub body: Vec<Statement>,
}

#[derive(Debug)]
pub struct BreakStatement {
    pub span: Span,
    pub label: Option<LabelIdentifier>,
}

#[derive(Debug)]
pub struct ContinueStatement {
    pub span: Span,
    pub label: Option<LabelIdentifier>,
}

#[derive(Debug)]
pub struct DebuggerStatement {
    pub span: Span,
}

#[derive(Debug)]
pub struct DoWhileStatement {
    pub span: Span,
    pub body: Statement,
    pub test: Expression,
}

#[derive(Debug)]
pub struct EmptyStatement {
    pub span: Span,
}

#[derive(Debug)]
pub struct ExpressionStatement {
    pub span: Span,
    pub expression: Expression,
}

#[derive(Debug)]
pub enum ForStatementLeft {
    VariableDeclaration(Box<VariableDeclaration>),
    Target(AssignmentTarget),
}

#[derive(Debug)]
pub struct ForInStatement {
    pub span: Span,
    pub left: ForStatementLeft,
    pub right: Expression,
    pub body: Statement,
}

#[derive(Debug)]
pub struct ForOfStatement {
    pub span: Span,
    pub is_await: bool,
    pub left: ForStatementLeft,
    pub right: Expression,
    pub body: Statement,
}

#[derive(Debug)]
pub enum ForStatementInit {
    VariableDeclaration(Box<VariableDeclaration>),
    Expression(Expression),
}

#[derive(Debug)]
pub struct ForStatement {
    pub span: Span,
    pub init: Option<ForStatementInit>,
    pub test: Option<Expression>,
    pub update: Option<Expression>,
    pub body: Statement,
}

#[derive(Debug)]
pub struct IfStatement {
    pub span: Span,
    pub test: Expression,
    pub consequent: Statement,
    pub alternate: Option<Statement>,
}

#[derive(Debug)]
pub struct LabeledStatement {
    pub span: Span,
    pub label: LabelIdentifier,
    pub body: Statement,
}

#[derive(Debug)]
pub struct ReturnStatement {
    pub span: Span,
    pub argument: Option<Expression>,
}

#[derive(Debug)]
pub struct SwitchCase {
    pub span: Span,
    pub test: Option<Expression>,
    pub consequent: Vec<Statement>,
}

#[derive(Debug)]
pub struct SwitchStatement {
    pub span: Span,
    pub discriminant: Expression,
    pub cases: Vec<SwitchCase>,
}

#[derive(Debug)]
pub struct ThrowStatement {
    pub span: Span,
    pub argument: Expression,
}

#[derive(Debug)]
pub struct CatchClause {
    pub span: Span,
    pub param: Option<BindingPattern>,
    pub body: BlockStatement,
}

#[derive(Debug)]
pub struct TryStatement {
    pub span: Span,
    pub block: BlockStatement,
    pub handler: Option<CatchClause>,
    pub finalizer: Option<BlockStatement>,
}

#[derive(Debug)]
pub struct WhileStatement {
    pub span: Span,
    pub test: Expression,
    pub body: Statement,
}

#[derive(Debug)]
pub struct WithStatement {
    pub span: Span,
    pub object: Expression,
    pub body: Statement,
}

#[derive(Debug)]
pub enum ModuleExportName {
    IdentifierName(IdentifierName),
    IdentifierReference(IdentifierReference),
    StringLiteral(StringLiteral),
}

#[derive(Debug)]
pub struct ImportSpecifier {
    pub span: Span,
    pub imported: ModuleExportName,
    pub local: BindingIdentifier,
    pub import_kind: ImportOrExportKind,
}

#[derive(Debug)]
pub struct ImportDefaultSpecifier {
    pub span: Span,
    pub local: BindingIdentifier,
}

#[derive(Debug)]
pub struct ImportNamespaceSpecifier {
    pub span: Span,
    pub local: BindingIdentifier,
}

#[derive(Debug)]
pub enum ImportDeclarationSpecifier {
    ImportSpecifier(ImportSpecifier),
    ImportDefaultSpecifier(ImportDefaultSpecifier),
    ImportNamespaceSpecifier(ImportNamespaceSpecifier),
}

#[derive(Clone, Copy, Debug, PartialEq, Eq, Structural)]
pub enum WithClauseKeyword {
    With,
    Assert,
}

#[derive(Debug)]
pub enum ImportAttributeKey {
    Identifier(IdentifierName),
    StringLiteral(StringLiteral),
}

#[derive(Debug)]
pub struct ImportAttribute {
    pub span: Span,
    pub key: ImportAttributeKey,
    pub value: StringLiteral,
}

#[derive(Debug)]
pub struct WithClause {
    pub span: Span,
    pub keyword: WithClauseKeyword,
    pub with_entries: Vec<ImportAttribute>,
}

#[derive(Debug)]
pub struct ImportDeclaration {
    pub span: Span,
    /// `None` for `import 'source'`, which names nothing.
    pub specifiers: Option<Vec<ImportDeclarationSpecifier>>,
    pub source: StringLiteral,
    pub phase: Option<ImportPhase>,
    pub with_clause: Option<WithClause>,
    pub import_kind: ImportOrExportKind,
}

#[derive(Debug)]
pub struct ExportSpecifier {
    pub span: Span,
    pub local: ModuleExportName,
    pub exported: ModuleExportName,
    pub export_kind: ImportOrExportKind,
}

#[derive(Debug)]
pub enum Declaration {
    VariableDeclaration(Box<VariableDeclaration>),
    FunctionDeclaration(Box<Function>),
    ClassDeclaration(Box<Class>),
    TSTypeAliasDeclaration(Box<TSTypeAliasDeclaration>),
    TSInterfaceDeclaration(Box<TSInterfaceDeclaration>),
    TSEnumDeclaration(Box<TSEnumDeclaration>),
    TSModuleDeclaration(Box<TSModuleDeclaration>),
    TSImportEqualsDeclaration(Box<TSImportEqualsDeclaration>),
}

#[derive(Debug)]
pub struct ExportNamedDeclaration {
    pub span: Span,
    pub declaration: Option<Declaration>,
    pub specifiers: Vec<ExportSpecifier>,
    pub source: Option<StringLiteral>,
    pub export_kind: ImportOrExportKind,
}

#[derive(Debug)]
pub enum ExportDefaultDeclarationKind {
    FunctionDeclaration(Box<Function>),
    ClassDeclaration(Box<Class>),
    TSInterfaceDeclaration(Box<TSInterfaceDeclaration>),
    Expression(Expression),
}

#[derive(Debug)]
pub struct ExportDefaultDeclaration {
    pub span: Span,
    pub declaration: ExportDefaultDeclarationKind,
}

#[derive(Debug)]
pub struct ExportAllDeclaration {
    pub span: Span,
    pub exported: Option<ModuleExportName>,
    pub source: StringLiteral,
    pub with_clause: Option<WithClause>,
    pub export_kind: ImportOrExportKind,
}

#[derive(Debug)]
pub enum Statement {
    BlockStatement(Box<BlockStatement>),
    BreakStatement(Box<BreakStatement>),
    ContinueStatement(Box<ContinueStatement>),
    DebuggerStatement(Box<DebuggerStatement>),
    DoWhileStatement(Box<DoWhileStatement>),
    EmptyStatement(Box<EmptyStatement>),
    ExpressionStatement(Box<ExpressionStatement>),
    ForInStatement(Box<ForInStatement>),
    ForOfStatement(Box<ForOfStatement>),
    ForStatement(Box<ForStatement>),
    IfStatement(Box<IfStatement>),
    LabeledStatement(Box<LabeledStatement>),
    ReturnStatement(Box<ReturnStatement>),
    SwitchStatement(Box<SwitchStatement>),
    ThrowStatement(Box<ThrowStatement>),
    TryStatement(Box<TryStatement>),
    WhileStatement(Box<WhileStatement>),
    WithStatement(Box<WithStatement>),
    VariableDeclaration(Box<VariableDeclaration>),
    FunctionDeclaration(Box<Function>),
    ClassDeclaration(Box<Class>),
    ImportDeclaration(Box<ImportDeclaration>),
    ExportAllDeclaration(Box<ExportAllDeclaration>),
    ExportDefaultDeclaration(Box<ExportDefaultDeclaration>),
    ExportNamedDeclaration(Box<ExportNamedDeclaration>),
    TSTypeAliasDeclaration(Box<TSTypeAliasDeclaration>),
    TSInterfaceDeclaration(Box<TSInterfaceDeclaration>),
    TSEnumDeclaration(Box<TSEnumDeclaration>),
    TSModuleDeclaration(Box<TSModuleDeclaration>),
    TSImportEqualsDeclaration(Box<TSImportEqualsDeclaration>),
    TSExportAssignment(Box<TSExportAssignment>),
    TSNamespaceExportDeclaration(Box<TSNamespaceExportDeclaration>),
}

/// A whole program, with the source text it was read from and the comments of that text.
#[derive(Debug)]
pub struct Program {
    pub span: Span,
    /// The program may hold JSX.
    pub is_jsx: bool,
    pub source_text: String,
    pub comments: Vec<Comment>,
    pub hashbang: Option<Hashbang>,
    pub directives: Vec<Directive>,
    pub body: Vec<Statement>,
}

impl Expression {
    /// The expression inside any number of parentheses.
    pub open spec fn spec_without_parentheses(self) -> Expression
        decreases self,
    {
        match self {
            Expression::ParenthesizedExpression(inner) => inner.expression.spec_without_parentheses(),
            _ => self,
        }
    }

    pub fn without_parentheses(&self) -> (inner: &Expression)
        ensures
            *inner == self.spec_without_parentheses(),
        decreases self,
    {
        match self {
            Expression::ParenthesizedExpression(inner) => inner.expression.without_parentheses(),
            _ => self,
        }
    }

    /// The start of the expression in the source text.
    pub open spec fn spec_span(self) -> Span {
        match self {
            Expression::BooleanLiteral(e) => e.span,
            Expression::NullLiteral(e) => e.span,
            Expression::NumericLiteral(e) => e.span,
            Expression::BigIntLiteral(e) => e.span,
            Expression::RegExpLiteral(e) => e.span,
            Expression::StringLiteral(e) => e.span,
            Expression::TemplateLiteral(e) => e.span,
            Expression::Identifier(e) => e.span,
            Expression::MetaProperty(e) => e.span,
            Expression::Super(e) => e.span,
            Expression::ArrayExpression(e) => e.span,
            Expression::ArrowFunctionExpression(e) => e.span,
            Expression::AssignmentExpression(e) => e.span,
            Expression::AwaitExpression(e) => e.span,
            Expression::BinaryExpression(e) => e.span,
            Expression::CallExpression(e) => e.span,
            Expression::ChainExpression(e) => e.span,
            Expression::ClassExpression(e) => e.span,
            Expression::ConditionalExpression(e) => e.span,
            Expression::FunctionExpression(e) => e.span,
            Expression::ImportExpression(e) => e.span,
            Expression::LogicalExpression(e) => e.span,
            Expression::NewExpression(e) => e.span,
            Expression::ObjectExpression(e) => e.span,
            Expression::ParenthesizedExpression(e) => e.span,
            Expression::SequenceExpression(e) => e.span,
            Expression::TaggedTemplateExpression(e) => e.span,
            Expression::ThisExpression(e) => e.span,
            Expression::UnaryExpression(e) => e.span,
            Expression::UpdateExpression(e) => e.span,
            Expression::YieldExpression(e) => e.span,
            Expression::PrivateInExpression(e) => e.span,
            Expression::ComputedMemberExpression(e) => e.span,
            Expression::StaticMemberExpression(e) => e.span,
            Expression::PrivateFieldExpression(e) => e.span,
            Expression::V8IntrinsicExpression(e) => e.span,
            Expression::JSXElement(e) => e.span,
            Expression::JSXFragment(e) => e.span,
            Expression::TSAsExpression(e) => e.span,
            Expression::TSSatisfiesExpression(e) => e.span,
            Expression::TSTypeAssertion(e) => e.span,
            Expression::TSNonNullExpression(e) => e.span,
            Expression::TSInstantiationExpression(e) => e.span,
        }
    }

    pub fn span(&self) -> (s: Span)
        ensures
            s == self.spec_span(),
    {
        match self {
            Expression::BooleanLiteral(e) => e.span,
            Expression::NullLiteral(e) => e.span,
            Expression::NumericLiteral(e) => e.span,
            Expression::BigIntLiteral(e) => e.span,
            Expression::RegExpLiteral(e) => e.span,
            Expression::StringLiteral(e) => e.span,
            Expression::TemplateLiteral(e) => e.span,
            Expression::Identifier(e) => e.span,
            Expression::MetaProperty(e) => e.span,
            Expression::Super(e) => e.span,
            Expression::ArrayExpression(e) => e.span,
            Expression::ArrowFunctionExpression(e) => e.span,
            Expression::AssignmentExpression(e) => e.span,
            Expression::AwaitExpression(e) => e.span,
            Expression::BinaryExpression(e) => e.span,
            Expression::CallExpression(e) => e.span,
            Expression::ChainExpression(e) => e.span,
            Expression::ClassExpression(e) => e.span,
            Expression::ConditionalExpression(e) => e.span,
            Expression::FunctionExpression(e) => e.span,
            Expression::ImportExpression(e) => e.span,
            Expression::LogicalExpression(e) => e.span,
            Expression::NewExpression(e) => e.span,
            Expression::ObjectExpression(e) => e.span,
            Expression::ParenthesizedExpression(e) => e.span,
            Expression::SequenceExpression(e) => e.span,
            Expression::TaggedTemplateExpression(e) => e.span,
            Expression::ThisExpression(e) => e.span,
            Expression::UnaryExpression(e) => e.span,
            Expression::UpdateExpression(e) => e.span,
            Expression::YieldExpression(e) => e.span,
            Expression::PrivateInExpression(e) => e.span,
            Expression::ComputedMemberExpression(e) => e.span,
            Expression::StaticMemberExpression(e) => e.span,
            Expression::PrivateFieldExpression(e) => e.span,
            Expression::V8IntrinsicExpression(e) => e.span,
            Expression::JSXElement(e) => e.span,
            Expression::JSXFragment(e) => e.span,
            Expression::TSAsExpression(e) => e.span,
            Expression::TSSatisfiesExpression(e) => e.span,
            Expression::TSTypeAssertion(e) => e.span,
            Expression::TSNonNullExpression(e) => e.span,
            Expression::TSInstantiationExpression(e) => e.span,
        }
    }
}

impl Argument {
    pub open spec fn spec_span(self) -> Span {
        match self {
            Argument::Spread(e) => e.span,
            Argument::Expression(e) => e.spec_span(),
        }
    }

    pub fn span(&self) -> (s: Span)
        ensures
            s == self.spec_span(),
    {
        match self {
            Argument::Spread(e) => e.span,
            Argument::Expression(e) => e.span(),
        }
    }
}

impl Statement {
    pub open spec fn spec_span(self) -> Span {
        match self {
            Statement::BlockStatement(s) => s.span,
            Statement::BreakStatement(s) => s.span,
            Statement::ContinueStatement(s) => s.span,
            Statement::DebuggerStatement(s) => s.span,
            Statement::DoWhileStatement(s) => s.span,
            Statement::EmptyStatement(s) => s.span,
            Statement::ExpressionStatement(s) => s.span,
            Statement::ForInStatement(s) => s.span,
            Statement::ForOfStatement(s) => s.span,
            Statement::ForStatement(s) => s.span,
            Statement::IfStatement(s) => s.span,
            Statement::LabeledStatement(s) => s.span,
            Statement::ReturnStatement(s) => s.span,
            Statement::SwitchStatement(s) => s.span,
            Statement::ThrowStatement(s) => s.span,
            Statement::TryStatement(s) => s.span,
            Statement::WhileStatement(s) => s.span,
            Statement::WithStatement(s) => s.span,
            Statement::VariableDeclaration(s) => s.span,
            Statement::FunctionDeclaration(s) => s.span,
            Statement::ClassDeclaration(s) => s.span,
            Statement::ImportDeclaration(s) => s.span,
            Statement::ExportAllDeclaration(s) => s.span,
            Statement::ExportDefaultDeclaration(s) => s.span,
            Statement::ExportNamedDeclaration(s) => s.span,
            Statement::TSTypeAliasDeclaration(s) => s.span,
            Statement::TSInterfaceDeclaration(s) => s.span,
            Statement::TSEnumDeclaration(s) => s.span,
            Statement::TSModuleDeclaration(s) => s.span,
            Statement::TSImportEqualsDeclaration(s) => s.span,
            Statement::TSExportAssignment(s) => s.span,
            Statement::TSNamespaceExportDeclaration(s) => s.span,
        }
    }

    pub fn span(&self) -> (s: Span)
        ensures
            s == self.spec_span(),
    {
        match self {
            Statement::BlockStatement(s) => s.span,
            Statement::BreakStatement(s) => s.span,
            Statement::ContinueStatement(s) => s.span,
            Statement::DebuggerStatement(s) => s.span,
            Statement::DoWhileStatement(s) => s.span,
            Statement::EmptyStatement(s) => s.span,
            Statement::ExpressionStatement(s) => s.span,
            Statement::ForInStatement(s) => s.span,
            Statement::ForOfStatement(s) => s.span,
            Statement::ForStatement(s) => s.span,
            Statement::IfStatement(s) => s.span,
            Statement::LabeledStatement(s) => s.span,
            Statement::ReturnStatement(s) => s.span,
            Statement::SwitchStatement(s) => s.span,
            Statement::ThrowStatement(s) => s.span,
            Statement::TryStatement(s) => s.span,
            Statement::WhileStatement(s) => s.span,
            Statement::WithStatement(s) => s.span,
            Statement::VariableDeclaration(s) => s.span,
            Statement::FunctionDeclaration(s) => s.span,
            Statement::ClassDeclaration(s) => s.span,
            Statement::ImportDeclaration(s) => s.span,
            Statement::ExportAllDeclaration(s) => s.span,
            Statement::ExportDefaultDeclaration(s) => s.span,
            Statement::ExportNamedDeclaration(s) => s.span,
            Statement::TSTypeAliasDeclaration(s) => s.span,
            Statement::TSInterfaceDeclaration(s) => s.span,
            Statement::TSEnumDeclaration(s) => s.span,
            Statement::TSModuleDeclaration(s) => s.span,
            Statement::TSImportEqualsDeclaration(s) => s.span,
            Statement::TSExportAssignment(s) => s.span,
            Statement::TSNamespaceExportDeclaration(s) => s.span,
        }
    }
}

impl ClassElement {
    pub open spec fn spec_span(self) -> Span {
        match self {
            ClassElement::StaticBlock(e) => e.span,
            ClassElement::MethodDefinition(e) => e.span,
            ClassElement::PropertyDefinition(e) => e.span,
            ClassElement::AccessorProperty(e) => e.span,
            ClassElement::TSIndexSignature(e) => e.span,
        }
    }

    pub fn span(&self) -> (s: Span)
        ensures
            s == self.spec_span(),
    {
        match self {
            ClassElement::StaticBlock(e) => e.span,
            ClassElement::MethodDefinition(e) => e.span,
            ClassElement::PropertyDefinition(e) => e.span,
            ClassElement::AccessorProperty(e) => e.span,
            ClassElement::TSIndexSignature(e) => e.span,
        }
    }
}

} // verus!
