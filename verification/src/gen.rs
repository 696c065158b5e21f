//! How each node of the tree is printed.
//!
//! For every kind of node there is a function on states that says what printing such a
//! node does, and a method of the printer that does it.

use crate::ast::{
    AccessorProperty, Argument, ArrayAssignmentTarget, ArrayExpression, ArrayExpressionElement,
    ArrayPattern, ArrowFunctionExpression, AssignmentExpression, AssignmentPattern,
    AssignmentTarget, AssignmentTargetMaybeDefault, AssignmentTargetProperty,
    AssignmentTargetPropertyIdentifier, AssignmentTargetPropertyProperty, AssignmentTargetRest,
    AssignmentTargetWithDefault, AwaitExpression, BigIntLiteral, BinaryExpression,
    BindingIdentifier, BindingPattern, BindingPatternKind, BindingProperty, BindingRestElement,
    BlockStatement, BooleanLiteral, BreakStatement, CallExpression, CatchClause, ChainElement,
    ChainExpression, Class, ClassBody, ClassElement, ComputedMemberExpression,
    ConditionalExpression, ContinueStatement, DebuggerStatement, Declaration, Decorator, Directive,
    DoWhileStatement, EmptyStatement, ExportAllDeclaration, ExportDefaultDeclaration,
    ExportDefaultDeclarationKind, ExportNamedDeclaration, ExportSpecifier, Expression,
    ExpressionStatement, ForInStatement, FormalParameter, FormalParameters, ForOfStatement,
    ForStatement, ForStatementInit, ForStatementLeft, Function, FunctionBody, Hashbang,
    IdentifierName, IdentifierReference, IfStatement, ImportAttribute, ImportAttributeKey,
    ImportDeclaration, ImportDeclarationSpecifier, ImportDefaultSpecifier, ImportExpression,
    ImportNamespaceSpecifier, ImportSpecifier, LabeledStatement, LabelIdentifier, LogicalExpression,
    MetaProperty, MethodDefinition, MethodDefinitionKind, ModuleExportName, NewExpression,
    NullLiteral, NumberValue, NumericLiteral, ObjectAssignmentTarget, ObjectExpression,
    ObjectPattern, ObjectProperty, ObjectPropertyKind, ParenthesizedExpression,
    PrivateFieldExpression, PrivateIdentifier, PrivateInExpression, Program, PropertyDefinition,
    PropertyKey, PropertyKind, RegExpLiteral, ReturnStatement, SequenceExpression,
    SimpleAssignmentTarget, SpreadElement, Statement, StaticBlock, StaticMemberExpression,
    StringLiteral, Super, SwitchCase, SwitchStatement, TaggedTemplateExpression, TemplateLiteral,
    TemplatePart, ThisExpression, ThrowStatement, TryStatement, UnaryExpression, UpdateExpression,
    V8IntrinsicExpression, VariableDeclaration, VariableDeclarationKind, VariableDeclarator,
    WhileStatement, WithClause, WithClauseKeyword, WithStatement, YieldExpression,
};
use crate::codegen::Codegen;
use crate::comment::{Comment, Span};
use crate::context::Context;
use crate::operator::{
    BinaryOperator, LogicalOperator, Operator, Precedence, UnaryOperator, UpdateOperator,
};
use crate::state::State;
use crate::typescript::spec_has_parameters;
use vstd::prelude::*;
use vstd::string::StringSliceAdditionalSpecFns;
use vstd::utf8::*;

verus! {

/// The comment that marks a call as free of side effects.
pub open spec fn pure_comment() -> Seq<char> {
    "/* @__PURE__ */ "@
}

/// The comment that marks a function as free of side effects, on a line of its own.
pub open spec fn no_side_effects_new_line_comment() -> Seq<char> {
    "/* @__NO_SIDE_EFFECTS__ */\n"@
}

/// The comment that marks a function as free of side effects.
pub open spec fn no_side_effects_comment() -> Seq<char> {
    "/* @__NO_SIDE_EFFECTS__ */ "@
}

/// The quote for a directive whose text starts at `i`: the one that the text does not
/// hold, judged by the first quote in it that no backslash stands before; `default`
/// where it holds none.
pub open spec fn directive_quote_from(bytes: Seq<u8>, i: int, default: crate::string::Quote) -> crate::string::Quote
    decreases
            (if i < bytes.len() {
                bytes.len() - i
            } else {
                0
            }),
{
    if i < 0 || i >= bytes.len() {
        default
    } else if bytes[i] == 0x22 {
        crate::string::Quote::Single
    } else if bytes[i] == 0x27 {
        crate::string::Quote::Double
    } else if bytes[i] == 0x5C {
        directive_quote_from(bytes, i + 2, default)
    } else {
        directive_quote_from(bytes, i + 1, default)
    }
}

/// The quote that a directive is printed in. Text that is not minified keeps the quote
/// of the source, so that the directive reads back as it was written. Minified text,
/// and a directive whose quote is not known, takes the quote that the text does not
/// hold.
pub open spec fn spec_directive_quote(
    directive: Directive,
    minify: bool,
    default: crate::string::Quote,
) -> crate::string::Quote {
    match directive.quote {
        Some(quote) => if minify {
            directive_quote_from(encode_utf8(directive.directive@), 0, default)
        } else {
            quote
        },
        None => directive_quote_from(encode_utf8(directive.directive@), 0, default),
    }
}

/// A statement needs braces around it where it stands between an `if` and its `else`:
/// it ends in an `if` without an `else`, which would take the `else` for its own.
pub open spec fn spec_wrap_to_avoid_ambiguous_else(stmt: Statement) -> bool
    decreases stmt,
{
    match stmt {
        Statement::IfStatement(s) => match s.alternate {
            Some(alternate) => spec_wrap_to_avoid_ambiguous_else(alternate),
            None => true,
        },
        Statement::ForStatement(s) => spec_wrap_to_avoid_ambiguous_else(s.body),
        Statement::ForOfStatement(s) => spec_wrap_to_avoid_ambiguous_else(s.body),
        Statement::ForInStatement(s) => spec_wrap_to_avoid_ambiguous_else(s.body),
        Statement::WhileStatement(s) => spec_wrap_to_avoid_ambiguous_else(s.body),
        Statement::WithStatement(s) => spec_wrap_to_avoid_ambiguous_else(s.body),
        Statement::LabeledStatement(s) => spec_wrap_to_avoid_ambiguous_else(s.body),
        _ => false,
    }
}

pub fn wrap_to_avoid_ambiguous_else(stmt: &Statement) -> (wrap: bool)
    ensures
        wrap == spec_wrap_to_avoid_ambiguous_else(*stmt),
    decreases stmt,
{
    match stmt {
        Statement::IfStatement(s) => match &s.alternate {
            Some(alternate) => wrap_to_avoid_ambiguous_else(alternate),
            None => true,
        },
        Statement::ForStatement(s) => wrap_to_avoid_ambiguous_else(&s.body),
        Statement::ForOfStatement(s) => wrap_to_avoid_ambiguous_else(&s.body),
        Statement::ForInStatement(s) => wrap_to_avoid_ambiguous_else(&s.body),
        Statement::WhileStatement(s) => wrap_to_avoid_ambiguous_else(&s.body),
        Statement::WithStatement(s) => wrap_to_avoid_ambiguous_else(&s.body),
        Statement::LabeledStatement(s) => wrap_to_avoid_ambiguous_else(&s.body),
        _ => false,
    }
}

/// A decorator needs parentheses unless it is a name, a member reached by a name, or a
/// call of one of these.
pub open spec fn spec_decorator_needs_wrap(expr: Expression) -> bool
    decreases expr,
{
    match expr {
        Expression::Identifier(_) => false,
        Expression::StaticMemberExpression(_) => false,
        Expression::PrivateFieldExpression(_) => false,
        Expression::CallExpression(call) => spec_decorator_needs_wrap(call.callee),
        _ => true,
    }
}

pub fn decorator_needs_wrap(expr: &Expression) -> (wrap: bool)
    ensures
        wrap == spec_decorator_needs_wrap(*expr),
    decreases expr,
{
    match expr {
        Expression::Identifier(_) => false,
        Expression::StaticMemberExpression(_) => false,
        Expression::PrivateFieldExpression(_) => false,
        Expression::CallExpression(call) => decorator_needs_wrap(&call.callee),
        _ => true,
    }
}

/// The statement is an expression statement whose expression is a string literal.
pub open spec fn is_string_statement(stmt: Statement) -> bool {
    match stmt {
        Statement::ExpressionStatement(s) => s.expression.spec_without_parentheses() is StringLiteral,
        _ => false,
    }
}

/// The levels at which the operands of a binary or logical operator are printed.
pub struct OperandLevels {
    pub left: Precedence,
    pub right: Precedence,
}

/// The levels for the operands of an operator of level `own`, whose next lower level is
/// `lower`: the operand on the side to which the operator groups may be of the
/// operator's own level.
pub open spec fn spec_operand_levels(own: Precedence, lower: Precedence) -> OperandLevels {
    OperandLevels {
        left: if own.spec_is_right_associative() {
            own
        } else {
            lower
        },
        right: if own.spec_is_left_associative() {
            own
        } else {
            lower
        },
    }
}

pub open spec fn is_and_or(expr: Expression) -> bool {
    match expr {
        Expression::LogicalExpression(e) => e.operator is And || e.operator is Or,
        _ => false,
    }
}

/// The levels for the operands of a binary expression: `**` takes no unary expression
/// on its left without parentheses.
pub open spec fn spec_binary_levels(expr: BinaryExpression) -> OperandLevels {
    let levels = spec_operand_levels(
        expr.operator.spec_precedence(),
        expr.operator.spec_lower_precedence(),
    );
    if expr.operator is Exponential && expr.left is UnaryExpression {
        OperandLevels { left: Precedence::Call, ..levels }
    } else {
        levels
    }
}

/// The levels for the operands of a logical expression: `??` takes neither `||` nor `&&`
/// as an operand without parentheses.
pub open spec fn spec_logical_levels(expr: LogicalExpression) -> OperandLevels {
    let levels = spec_operand_levels(
        expr.operator.spec_precedence(),
        expr.operator.spec_lower_precedence(),
    );
    if expr.operator is Coalesce {
        OperandLevels {
            left: if is_and_or(expr.left) {
                Precedence::Prefix
            } else {
                levels.left
            },
            right: if is_and_or(expr.right) {
                Precedence::Prefix
            } else {
                levels.right
            },
        }
    } else {
        levels
    }
}

/// The parameters of an arrow function are printed without parentheses: in minified
/// text, where there is one parameter and it is a plain name.
pub open spec fn spec_arrow_params_bare(expr: ArrowFunctionExpression, minify: bool) -> bool {
    minify && expr.params.items@.len() == 1 && expr.params.rest is None
        && expr.type_parameters is None && expr.return_type is None
        && expr.params.items@[0].decorators@.len() == 0 && !spec_has_modifier(
        expr.params.items@[0],
    ) && expr.params.items@[0].pattern.kind is BindingIdentifier
        && expr.params.items@[0].pattern.type_annotation is None
        && !expr.params.items@[0].pattern.optional
}

/// The parameter carries a modifier: an accessibility, `readonly` or `override`.
pub open spec fn spec_has_modifier(param: FormalParameter) -> bool {
    param.accessibility is Some || param.readonly || param.is_override
}

pub fn has_modifier(param: &FormalParameter) -> (b: bool)
    ensures
        b == spec_has_modifier(*param),
{
    param.accessibility.is_some() || param.readonly || param.is_override
}

pub fn arrow_params_bare(expr: &ArrowFunctionExpression, minify: bool) -> (bare: bool)
    ensures
        bare == spec_arrow_params_bare(*expr, minify),
{
    minify && expr.params.items.len() == 1 && expr.params.rest.is_none()
        && expr.type_parameters.is_none() && expr.return_type.is_none()
        && expr.params.items[0].decorators.len() == 0 && !has_modifier(&expr.params.items[0])
        && matches!(expr.params.items[0].pattern.kind, BindingPatternKind::BindingIdentifier(_))
        && expr.params.items[0].pattern.type_annotation.is_none()
        && !expr.params.items[0].pattern.optional
}

impl State {
    #[verifier::opaque]
    pub open spec fn wrap_open(self, wrap: bool) -> State {
        if wrap {
            self.print_ascii_byte(0x28)
        } else {
            self
        }
    }

    #[verifier::opaque]
    pub open spec fn wrap_close(self, wrap: bool) -> State {
        if wrap {
            self.print_ascii_byte(0x29)
        } else {
            self
        }
    }

    #[verifier::opaque]
    pub open spec fn bracket_open(self, on: bool) -> State {
        if on {
            self.print_ascii_byte(0x5B)
        } else {
            self
        }
    }

    #[verifier::opaque]
    pub open spec fn bracket_close(self, on: bool) -> State {
        if on {
            self.print_ascii_byte(0x5D)
        } else {
            self
        }
    }

    /// The opening brace of a block: the brace, and for a block that holds something a
    /// line feed and one more level of indentation.
    #[verifier::opaque]
    pub open spec fn curly_open(self, span: Span, single_line: bool) -> State {
        let s = self.add_source_mapping(span).print_ascii_byte(0x7B);
        if single_line {
            s
        } else {
            s.print_soft_newline().indent()
        }
    }

    /// The closing brace of a block: for a block that holds something on a line of its
    /// own, one level up.
    #[verifier::opaque]
    pub open spec fn curly_close(self, single_line: bool) -> State {
        let s = if single_line {
            self
        } else {
            self.dedent().print_indent()
        };
        s.print_ascii_byte(0x7D)
    }

    /// The word `word`, and a space before it where it would else run into a name.
    #[verifier::opaque]
    pub open spec fn print_word(self, word: Seq<char>) -> State {
        self.print_space_before_identifier().print_chars(word)
    }

    /// A modifier: the word, a space before it where one is needed and a space behind it
    /// unless the text is minified.
    #[verifier::opaque]
    pub open spec fn print_modifier(self, word: Seq<char>) -> State {
        self.print_space_before_identifier().print_chars(word).print_soft_space()
    }

    #[verifier::opaque]
    pub open spec fn emit_hashbang(self, hashbang: Hashbang) -> State {
        self.print_chars("#!"@).print_chars(hashbang.value@).print_hard_newline()
    }

    /// A directive in its quotes, with a `;` behind it, on a line of its own.
    #[verifier::opaque]
    pub open spec fn emit_directive(self, directive: Directive) -> State {
        let quote = spec_directive_quote(directive, self.options.minify, self.quote);
        self.add_source_mapping(directive.span).print_indent().print_ascii_byte(
            quote.spec_byte(),
        ).print_chars(directive.directive@).print_ascii_byte(quote.spec_byte()).print_ascii_byte(
            0x3B,
        ).print_soft_newline()
    }

    #[verifier::opaque]
    pub open spec fn emit_directives(self, directives: Seq<Directive>, n: nat) -> State
        decreases n,
    {
        if n == 0 || n > directives.len() {
            self
        } else {
            self.emit_directives(directives, (n - 1) as nat).emit_directive(directives[n - 1])
        }
    }

    #[verifier::opaque]
    pub open spec fn emit_identifier_name(self, ident: IdentifierName) -> State {
        self.print_space_before_identifier().add_source_mapping_for_name(
            ident.span,
            ident.name@,
        ).print_chars(ident.name@)
    }

    #[verifier::opaque]
    pub open spec fn emit_label_identifier(self, ident: LabelIdentifier) -> State {
        self.print_space_before_identifier().add_source_mapping_for_name(
            ident.span,
            ident.name@,
        ).print_chars(ident.name@)
    }

    #[verifier::opaque]
    pub open spec fn emit_boolean_literal(self, lit: BooleanLiteral) -> State {
        self.add_source_mapping(lit.span).print_space_before_identifier().print_chars(
            if lit.value {
                "true"@
            } else {
                "false"@
            },
        )
    }

    #[verifier::opaque]
    pub open spec fn emit_null_literal(self, lit: NullLiteral) -> State {
        self.print_space_before_identifier().add_source_mapping(lit.span).print_chars("null"@)
    }

    #[verifier::opaque]
    pub open spec fn emit_this_expression(self, expr: ThisExpression) -> State {
        self.print_space_before_identifier().add_source_mapping(expr.span).print_chars("this"@)
    }

    #[verifier::opaque]
    pub open spec fn emit_super(self, expr: Super) -> State {
        self.print_space_before_identifier().add_source_mapping(expr.span).print_chars("super"@)
    }

    /// A number. Inside a type it is printed as it stood in the source. Else: `NaN`;
    /// `Infinity`, or `1/0` in minified text; the shortest form of a finite number; and a
    /// `-` before a negative number, in parentheses where the surroundings bind tighter
    /// than the sign.
    #[verifier::opaque]
    pub open spec fn emit_numeric_literal(
        self,
        lit: NumericLiteral,
        precedence: Precedence,
        ctx: Context,
    ) -> State {
        let s = self.add_source_mapping(lit.span);
        if ctx.typescript {
            match lit.raw {
                Some(raw) => s.print_chars(raw@),
                None => s,
            }
        } else {
            match lit.value {
                NumberValue::NotANumber => s.print_space_before_identifier().print_chars("NaN"@),
                NumberValue::Infinity => {
                    let wrap = (s.options.minify && precedence.spec_at_least(Precedence::Multiply))
                        || (lit.negative && precedence.spec_at_least(Precedence::Prefix));
                    let s = s.wrap_open(wrap);
                    let s = if lit.negative {
                        s.print_space_before_operator(
                            Operator::Unary(UnaryOperator::UnaryNegation),
                        ).print_ascii_byte(0x2D)
                    } else {
                        s.print_space_before_identifier()
                    };
                    let s = if s.options.minify {
                        s.print_chars("1/0"@)
                    } else {
                        s.print_chars("Infinity"@)
                    };
                    s.wrap_close(wrap)
                },
                NumberValue::Finite { shortest, integer } => if !lit.negative {
                    s.print_space_before_identifier().print_non_negative_float(shortest@, integer)
                } else if precedence.spec_at_least(Precedence::Prefix) {
                    s.print_chars("(-"@).print_non_negative_float(shortest@, integer).print_ascii_byte(
                        0x29,
                    )
                } else {
                    s.print_space_before_operator(
                        Operator::Unary(UnaryOperator::UnaryNegation),
                    ).print_ascii_byte(0x2D).print_non_negative_float(shortest@, integer)
                },
            }
        }
    }

    #[verifier::opaque]
    pub open spec fn emit_bigint_literal(self, lit: BigIntLiteral, precedence: Precedence) -> State {
        let s = self.print_space_before_identifier().add_source_mapping(lit.span);
        let bytes = encode_utf8(lit.value@);
        if bytes.len() > 0 && bytes[0] == 0x2D && precedence.spec_at_least(Precedence::Prefix) {
            s.print_ascii_byte(0x28).print_chars(lit.value@).print_chars("n)"@)
        } else {
            s.print_chars(lit.value@).print_ascii_byte(0x6E)
        }
    }

    /// A regular expression. A space parts it from a `/` before it, and from a `<` where
    /// its pattern starts with `script`.
    #[verifier::opaque]
    pub open spec fn emit_reg_exp_literal(self, lit: RegExpLiteral) -> State {
        let s = self.add_source_mapping(lit.span);
        let space = s.code.len() > 0 && (s.code.last() == 0x2F || (s.code.last() == 0x3C
            && crate::text::matches_lower_at(encode_utf8(lit.pattern@), 0, crate::text::script_word())));
        let s = if space {
            s.print_hard_space()
        } else {
            s
        };
        s.print_ascii_byte(0x2F).print_chars(lit.pattern@).print_ascii_byte(0x2F).print_chars(
            lit.flags@,
        ).mark_reg_exp_end()
    }

    #[verifier::opaque]
    pub open spec fn emit_string_literal(self, lit: StringLiteral) -> State {
        self.print_string_literal(lit.span, lit.value@)
    }

    #[verifier::opaque]
    pub open spec fn emit_meta_property(self, meta: MetaProperty) -> State {
        self.print_space_before_identifier().add_source_mapping(meta.span).emit_identifier_name(
            meta.meta,
        ).print_ascii_byte(0x2E).emit_identifier_name(meta.property)
    }

    #[verifier::opaque]
    pub open spec fn emit_module_export_name(self, name: ModuleExportName) -> State {
        match name {
            ModuleExportName::IdentifierName(ident) => self.emit_identifier_name(ident),
            ModuleExportName::IdentifierReference(ident) => self.emit_identifier_reference(ident),
            ModuleExportName::StringLiteral(lit) => self.emit_string_literal(lit),
        }
    }

    /// The name that a module export name stands for.
    pub open spec fn module_export_name(self, name: ModuleExportName) -> Seq<char> {
        match name {
            ModuleExportName::IdentifierName(ident) => ident.name@,
            ModuleExportName::IdentifierReference(ident) => self.reference_name(
                ident.name@,
                ident.reference_id,
            ),
            ModuleExportName::StringLiteral(lit) => lit.value@,
        }
    }

    #[verifier::opaque]
    pub open spec fn emit_import_attribute(self, attr: ImportAttribute) -> State {
        let s = match attr.key {
            ImportAttributeKey::Identifier(ident) => self.print_chars(ident.name@),
            ImportAttributeKey::StringLiteral(lit) => self.emit_string_literal(lit),
        };
        s.print_colon().print_soft_space().emit_string_literal(attr.value)
    }

    #[verifier::opaque]
    pub open spec fn emit_import_attributes(self, attrs: Seq<ImportAttribute>, n: nat) -> State
        decreases n,
    {
        if n == 0 || n > attrs.len() {
            self
        } else {
            let s = self.emit_import_attributes(attrs, (n - 1) as nat);
            let s = if n > 1 {
                s.print_comma().print_soft_space()
            } else {
                s
            };
            s.emit_import_attribute(attrs[n - 1])
        }
    }

    #[verifier::opaque]
    pub open spec fn emit_with_clause(self, clause: WithClause) -> State {
        let s = self.add_source_mapping(clause.span).print_chars(
            match clause.keyword {
                WithClauseKeyword::With => "with"@,
                WithClauseKeyword::Assert => "assert"@,
            },
        ).print_soft_space().add_source_mapping(clause.span).print_ascii_byte(0x7B);
        let s = if clause.with_entries@.len() > 0 {
            s.print_soft_space().emit_import_attributes(
                clause.with_entries@,
                clause.with_entries@.len(),
            ).print_soft_space()
        } else {
            s
        };
        s.print_ascii_byte(0x7D)
    }

    /// What is printed for the import specifier at `i`, and whether a list in braces is
    /// open behind it. `in_block` says whether one is open before it.
    #[verifier::opaque]
    pub open spec fn emit_import_specifier(
        self,
        specifiers: Seq<ImportDeclarationSpecifier>,
        i: int,
        in_block: bool,
    ) -> State {
        match specifiers[i] {
            ImportDeclarationSpecifier::ImportDefaultSpecifier(spec) => {
                let s = if in_block {
                    self.print_soft_space().print_chars("},"@)
                } else if i == 0 {
                    self.print_hard_space()
                } else {
                    self.print_comma().print_soft_space()
                };
                let s = s.emit_binding_identifier(spec.local);
                if i == specifiers.len() - 1 {
                    s.print_hard_space()
                } else {
                    s
                }
            },
            ImportDeclarationSpecifier::ImportNamespaceSpecifier(spec) => {
                let s = if in_block {
                    self.print_soft_space().print_chars("},"@)
                } else if i == 0 {
                    self.print_soft_space()
                } else {
                    self.print_comma().print_soft_space()
                };
                s.print_ascii_byte(0x2A).print_soft_space().print_chars(
                    "as "@,
                ).emit_binding_identifier(spec.local).print_hard_space()
            },
            ImportDeclarationSpecifier::ImportSpecifier(spec) => {
                let s = if in_block {
                    self.print_comma().print_soft_space()
                } else {
                    (if i != 0 {
                        self.print_comma()
                    } else {
                        self
                    }).print_soft_space().print_ascii_byte(0x7B).print_soft_space()
                };
                let s = if spec.import_kind.spec_is_type() {
                    s.print_chars("type "@)
                } else {
                    s
                };
                let s = s.emit_module_export_name(spec.imported);
                if s.module_export_name(spec.imported) != s.binding_name(
                    spec.local.name@,
                    spec.local.symbol_id,
                ) {
                    s.print_chars(" as "@).emit_binding_identifier(spec.local)
                } else {
                    s
                }
            },
        }
    }

    /// A list in braces is open behind the first `n` import specifiers.
    pub open spec fn import_in_block(specifiers: Seq<ImportDeclarationSpecifier>, n: nat) -> bool {
        n > 0 && n <= specifiers.len() && specifiers[n - 1] is ImportSpecifier
    }

    #[verifier::opaque]
    pub open spec fn emit_import_specifiers(
        self,
        specifiers: Seq<ImportDeclarationSpecifier>,
        n: nat,
    ) -> State
        decreases n,
    {
        if n == 0 || n > specifiers.len() {
            self
        } else {
            self.emit_import_specifiers(specifiers, (n - 1) as nat).emit_import_specifier(
                specifiers,
                n - 1,
                Self::import_in_block(specifiers, (n - 1) as nat),
            )
        }
    }

    /// An import declaration. A default import and a namespace import stand before or
    /// behind the braces that hold the named imports.
    #[verifier::opaque]
    pub open spec fn emit_import_declaration(self, decl: ImportDeclaration) -> State {
        let s = self.print_comments_at(decl.span.start).add_source_mapping(
            decl.span,
        ).print_indent().print_space_before_identifier().print_chars("import"@);
        let s = if decl.import_kind.spec_is_type() {
            s.print_chars(" type"@)
        } else {
            s
        };
        let s = match decl.phase {
            Some(phase) => s.print_hard_space().print_chars(phase.spec_str()@),
            None => s,
        };
        match decl.specifiers {
            Some(specifiers) => if specifiers@.len() == 0 {
                let s = s.print_soft_space().print_chars("{}"@).print_soft_space().print_chars(
                    "from"@,
                ).print_soft_space().print_ascii_byte(0x22).print_chars(
                    decl.source.value@,
                ).print_ascii_byte(0x22);
                let s = match decl.with_clause {
                    Some(clause) => s.print_hard_space().emit_with_clause(clause),
                    None => s,
                };
                s.print_semicolon_after_statement()
            } else {
                let s = s.emit_import_specifiers(specifiers@, specifiers@.len());
                let s = if Self::import_in_block(specifiers@, specifiers@.len()) {
                    s.print_soft_space().print_ascii_byte(0x7D).print_soft_space()
                } else {
                    s
                };
                s.print_chars("from"@).emit_import_tail(decl)
            },
            None => s.emit_import_tail(decl),
        }
    }

    /// The source of an import declaration, its attributes, and the end of the statement.
    #[verifier::opaque]
    pub open spec fn emit_import_tail(self, decl: ImportDeclaration) -> State {
        let s = self.print_soft_space().emit_string_literal(decl.source);
        let s = match decl.with_clause {
            Some(clause) => s.print_soft_space().emit_with_clause(clause),
            None => s,
        };
        s.print_semicolon_after_statement()
    }

    #[verifier::opaque]
    pub open spec fn emit_export_specifier(self, spec: ExportSpecifier) -> State {
        let s = if spec.export_kind.spec_is_type() {
            self.print_chars("type "@)
        } else {
            self
        };
        let s = s.emit_module_export_name(spec.local);
        if s.module_export_name(spec.local) != s.module_export_name(spec.exported) {
            s.print_chars(" as "@).emit_module_export_name(spec.exported)
        } else {
            s
        }
    }

    #[verifier::opaque]
    pub open spec fn emit_export_specifiers(self, specifiers: Seq<ExportSpecifier>, n: nat) -> State
        decreases n,
    {
        if n == 0 || n > specifiers.len() {
            self
        } else {
            let s = self.emit_export_specifiers(specifiers, (n - 1) as nat);
            let s = if n > 1 {
                s.print_comma().print_soft_space()
            } else {
                s
            };
            s.emit_export_specifier(specifiers[n - 1])
        }
    }

    #[verifier::opaque]
    pub open spec fn emit_export_all_declaration(self, decl: ExportAllDeclaration) -> State {
        let s = self.print_comments_at(decl.span.start).add_source_mapping(
            decl.span,
        ).print_indent().print_chars("export"@);
        let s = if decl.export_kind.spec_is_type() {
            s.print_chars(" type "@)
        } else {
            s.print_soft_space()
        };
        let s = s.print_ascii_byte(0x2A);
        let s = match decl.exported {
            Some(exported) => s.print_soft_space().print_chars("as "@).emit_module_export_name(
                exported,
            ).print_hard_space(),
            None => s.print_soft_space(),
        };
        let s = s.print_chars("from"@).print_soft_space().emit_string_literal(decl.source);
        let s = match decl.with_clause {
            Some(clause) => s.print_hard_space().emit_with_clause(clause),
            None => s,
        };
        s.print_semicolon_after_statement()
    }

    #[verifier::opaque]
    pub open spec fn emit_empty_statement(self, stmt: EmptyStatement) -> State {
        self.print_comments_at(stmt.span.start).add_source_mapping(
            stmt.span,
        ).print_indent().print_semicolon().print_soft_newline()
    }

    #[verifier::opaque]
    pub open spec fn emit_debugger_statement(self, stmt: DebuggerStatement) -> State {
        self.print_comments_at(stmt.span.start).add_source_mapping(
            stmt.span,
        ).print_indent().print_space_before_identifier().print_chars(
            "debugger"@,
        ).print_semicolon_after_statement()
    }

    #[verifier::opaque]
    pub open spec fn emit_break_statement(self, stmt: BreakStatement) -> State {
        let s = self.print_comments_at(stmt.span.start).add_source_mapping(
            stmt.span,
        ).print_indent().print_space_before_identifier().print_chars("break"@);
        let s = match stmt.label {
            Some(label) => s.print_soft_space().emit_label_identifier(label),
            None => s,
        };
        s.print_semicolon_after_statement()
    }

    #[verifier::opaque]
    pub open spec fn emit_continue_statement(self, stmt: ContinueStatement) -> State {
        let s = self.print_comments_at(stmt.span.start).add_source_mapping(
            stmt.span,
        ).print_indent().print_space_before_identifier().print_chars("continue"@);
        let s = match stmt.label {
            Some(label) => s.print_soft_space().emit_label_identifier(label),
            None => s,
        };
        s.print_semicolon_after_statement()
    }
}

} // verus!

verus! {

/// No comment of the block stands on a line of its own.
pub open spec fn comments_all_inline(comments: Seq<Comment>) -> bool {
    forall|i: int| 0 <= i < comments.len() ==> !(#[trigger] comments[i]).newline_before && !comments[i].newline_after
}

/// The name to which an assignment target assigns, where it is a plain name.
pub open spec fn target_identifier(target: AssignmentTargetMaybeDefault) -> Option<
    IdentifierReference,
> {
    match target {
        AssignmentTargetMaybeDefault::Target(
            AssignmentTarget::Simple(SimpleAssignmentTarget::AssignmentTargetIdentifier(id)),
        ) => Some(id),
        AssignmentTargetMaybeDefault::AssignmentTargetWithDefault(with_default) => match with_default.binding {
            AssignmentTarget::Simple(SimpleAssignmentTarget::AssignmentTargetIdentifier(id)) => Some(
                id,
            ),
            _ => None,
        },
        _ => None,
    }
}

/// The key of an object property is a number that cannot stand as a key by itself.
pub open spec fn key_needs_brackets(key: PropertyKey) -> bool {
    match key {
        PropertyKey::Expression(Expression::NumericLiteral(n)) => n.negative || n.value is Infinity,
        _ => false,
    }
}

impl State {
    /// A block of comments attached to one of the arguments.
    pub open spec fn any_argument_has_comment(self, args: Seq<Argument>) -> bool {
        exists|i: int| 0 <= i < args.len() && self.comments.contains_key(#[trigger] args[i].spec_span().start)
    }

    /// An expression at the loosest level and without restrictions.
    #[verifier::opaque]
    pub open spec fn print_expression(self, expr: Expression) -> State
        decreases expr, 2nat,
    {
        self.emit_expression(expr, Precedence::Lowest, Context::spec_empty())
    }

    /// An expression that stands where the level `precedence` is asked for, in the
    /// context `ctx`.
    #[verifier::opaque]
    pub open spec fn emit_expression(self, expr: Expression, precedence: Precedence, ctx: Context) -> State
        decreases expr, 1nat,
    {
        match expr {
            Expression::Identifier(_)
            | Expression::NumericLiteral(_)
            | Expression::StringLiteral(_)
            | Expression::BooleanLiteral(_)
            | Expression::NullLiteral(_)
            | Expression::RegExpLiteral(_)
            | Expression::BigIntLiteral(_)
            | Expression::TemplateLiteral(_)
            | Expression::ThisExpression(_)
            | Expression::Super(_)
            | Expression::MetaProperty(_) => self.emit_primary_expression(expr, precedence, ctx),
            Expression::BinaryExpression(_)
            | Expression::LogicalExpression(_)
            | Expression::AssignmentExpression(_)
            | Expression::UpdateExpression(_)
            | Expression::UnaryExpression(_)
            | Expression::ConditionalExpression(_)
            | Expression::SequenceExpression(_)
            | Expression::AwaitExpression(_)
            | Expression::YieldExpression(_)
            | Expression::PrivateInExpression(_) => self.emit_operator_expression(
                expr,
                precedence,
                ctx,
            ),
            Expression::StaticMemberExpression(_)
            | Expression::ComputedMemberExpression(_)
            | Expression::PrivateFieldExpression(_)
            | Expression::CallExpression(_)
            | Expression::NewExpression(_)
            | Expression::ChainExpression(_)
            | Expression::ImportExpression(_)
            | Expression::TaggedTemplateExpression(_)
            | Expression::V8IntrinsicExpression(_) => self.emit_access_expression(
                expr,
                precedence,
                ctx,
            ),
            Expression::ObjectExpression(_)
            | Expression::ArrayExpression(_)
            | Expression::ArrowFunctionExpression(_)
            | Expression::FunctionExpression(_)
            | Expression::ClassExpression(_)
            | Expression::ParenthesizedExpression(_) => self.emit_compound_expression(
                expr,
                precedence,
                ctx,
            ),
            Expression::JSXElement(_)
            | Expression::JSXFragment(_)
            | Expression::TSAsExpression(_)
            | Expression::TSSatisfiesExpression(_)
            | Expression::TSTypeAssertion(_)
            | Expression::TSNonNullExpression(_)
            | Expression::TSInstantiationExpression(_) => self.emit_typed_expression(
                expr,
                precedence,
                ctx,
            ),
        }
    }

    /// A name, a literal, `this`, `super` or a meta property. Any other expression is
    /// left to the other printers.
    #[verifier::opaque]
    pub open spec fn emit_primary_expression(
        self,
        expr: Expression,
        precedence: Precedence,
        ctx: Context,
    ) -> State
        decreases expr, 0nat,
    {
        match expr {
            Expression::Identifier(ident) => self.emit_identifier_reference(*ident),
            Expression::NumericLiteral(lit) => self.emit_numeric_literal(*lit, precedence, ctx),
            Expression::StringLiteral(lit) => self.emit_string_literal(*lit),
            Expression::BooleanLiteral(lit) => self.emit_boolean_literal(*lit),
            Expression::NullLiteral(lit) => self.emit_null_literal(*lit),
            Expression::RegExpLiteral(lit) => self.emit_reg_exp_literal(*lit),
            Expression::BigIntLiteral(lit) => self.emit_bigint_literal(*lit, precedence),
            Expression::TemplateLiteral(e) => self.emit_template_literal(*e),
            Expression::ThisExpression(e) => self.emit_this_expression(*e),
            Expression::Super(e) => self.emit_super(*e),
            Expression::MetaProperty(e) => self.emit_meta_property(*e),
            _ => self,
        }
    }

    /// An expression made of an operator and its operands. Any other expression is left
    /// to the other printers.
    #[verifier::opaque]
    pub open spec fn emit_operator_expression(
        self,
        expr: Expression,
        precedence: Precedence,
        ctx: Context,
    ) -> State
        decreases expr, 0nat,
    {
        match expr {
            Expression::BinaryExpression(e) => self.emit_binary_expression(*e, precedence, ctx),
            Expression::LogicalExpression(e) => self.emit_logical_expression(*e, precedence, ctx),
            Expression::AssignmentExpression(e) => self.emit_assignment_expression(
                *e,
                precedence,
                ctx,
            ),
            Expression::UpdateExpression(e) => self.emit_update_expression(*e, precedence, ctx),
            Expression::UnaryExpression(e) => self.emit_unary_expression(*e, precedence, ctx),
            Expression::ConditionalExpression(e) => self.emit_conditional_expression(
                *e,
                precedence,
                ctx,
            ),
            Expression::SequenceExpression(e) => self.emit_sequence_expression(*e, precedence, ctx),
            Expression::AwaitExpression(e) => self.emit_await_expression(*e, precedence, ctx),
            Expression::YieldExpression(e) => self.emit_yield_expression(*e, precedence),
            Expression::PrivateInExpression(e) => self.emit_private_in_expression(*e, precedence),
            _ => self,
        }
    }

    /// A member access, a call, or one of their kin. Any other expression is left to the
    /// other printers.
    #[verifier::opaque]
    pub open spec fn emit_access_expression(
        self,
        expr: Expression,
        precedence: Precedence,
        ctx: Context,
    ) -> State
        decreases expr, 0nat,
    {
        match expr {
            Expression::StaticMemberExpression(e) => self.emit_static_member_expression(*e, ctx),
            Expression::ComputedMemberExpression(e) => self.emit_computed_member_expression(
                *e,
                ctx,
            ),
            Expression::PrivateFieldExpression(e) => self.emit_private_field_expression(*e, ctx),
            Expression::CallExpression(e) => self.emit_call_expression(*e, precedence, ctx),
            Expression::NewExpression(e) => self.emit_new_expression(*e, precedence, ctx),
            Expression::ChainExpression(e) => self.emit_chain_expression(*e, precedence, ctx),
            Expression::ImportExpression(e) => self.emit_import_expression(*e, precedence, ctx),
            Expression::TaggedTemplateExpression(e) => self.emit_tagged_template_expression(
                *e,
                ctx,
            ),
            Expression::V8IntrinsicExpression(e) => self.emit_v8_intrinsic_expression(
                *e,
                precedence,
                ctx,
            ),
            _ => self,
        }
    }

    /// An object, an array, a function, a class, or an expression in parentheses. Any
    /// other expression is left to the other printers. A function that is marked as free
    /// of side effects gets the comment that says so.
    #[verifier::opaque]
    pub open spec fn emit_compound_expression(
        self,
        expr: Expression,
        precedence: Precedence,
        ctx: Context,
    ) -> State
        decreases expr, 0nat,
    {
        match expr {
            Expression::ObjectExpression(e) => self.emit_object_expression(*e, ctx),
            Expression::ArrayExpression(e) => self.emit_array_expression(*e),
            Expression::ArrowFunctionExpression(e) => (if e.pure && self.options.comments.annotation {
                self.print_chars(no_side_effects_comment())
            } else {
                self
            }).emit_arrow_function_expression(*e, precedence, ctx),
            Expression::FunctionExpression(e) => (if e.pure && self.options.comments.annotation {
                self.print_chars(no_side_effects_comment())
            } else {
                self
            }).emit_function(*e, ctx),
            Expression::ClassExpression(e) => self.emit_class(*e, ctx),
            Expression::ParenthesizedExpression(e) => self.emit_parenthesized_expression(
                *e,
                precedence,
                ctx,
            ),
            _ => self,
        }
    }

    /// An expression that stood in parentheses: the expression inside them, which gets
    /// parentheses of its own where it needs them.
    #[verifier::opaque]
    pub open spec fn emit_parenthesized_expression(
        self,
        expr: ParenthesizedExpression,
        precedence: Precedence,
        ctx: Context,
    ) -> State
        decreases expr, 0nat,
    {
        self.emit_expression(expr.expression, precedence, ctx)
    }

    /// A member reached by an expression in brackets. An object that is the name `let`
    /// stands in parentheses: `let[` would start a declaration.
    #[verifier::opaque]
    pub open spec fn emit_computed_member_expression(
        self,
        expr: ComputedMemberExpression,
        ctx: Context,
    ) -> State
        decreases expr, 0nat,
    {
        let wrap = match expr.object.spec_without_parentheses() {
            Expression::Identifier(ident) => ident.name@ == "let"@,
            _ => false,
        };
        let s = self.wrap_open(wrap).emit_expression(
            expr.object,
            Precedence::Postfix,
            ctx.spec_pass_forbid_call(),
        ).wrap_close(wrap);
        let s = if expr.optional {
            s.print_chars("?."@)
        } else {
            s
        };
        s.print_ascii_byte(0x5B).emit_expression(
            expr.expression,
            Precedence::Lowest,
            Context::spec_empty(),
        ).print_ascii_byte(0x5D)
    }

    /// A member reached by a name. A space parts the `.` from a number before it.
    #[verifier::opaque]
    pub open spec fn emit_static_member_expression(self, expr: StaticMemberExpression, ctx: Context) -> State
        decreases expr, 0nat,
    {
        let s = self.emit_expression(expr.object, Precedence::Postfix, ctx.spec_pass_forbid_call());
        let s = if expr.optional {
            s.print_ascii_byte(0x3F)
        } else if s.need_space_before_dot == s.code.len() {
            s.print_hard_space()
        } else {
            s
        };
        s.print_ascii_byte(0x2E).emit_identifier_name(expr.property)
    }

    #[verifier::opaque]
    pub open spec fn emit_private_field_expression(self, expr: PrivateFieldExpression, ctx: Context) -> State
        decreases expr, 0nat,
    {
        let s = self.emit_expression(expr.object, Precedence::Postfix, ctx.spec_pass_forbid_call());
        let s = if expr.optional {
            s.print_chars("?"@)
        } else {
            s
        };
        s.print_ascii_byte(0x2E).emit_private_identifier(expr.field)
    }

    #[verifier::opaque]
    pub open spec fn emit_yield_expression(self, expr: YieldExpression, precedence: Precedence) -> State
        decreases expr, 0nat,
    {
        let wrap = precedence.spec_at_least(Precedence::Assign);
        let s = self.wrap_open(wrap).print_space_before_identifier().add_source_mapping(
            expr.span,
        ).print_chars("yield"@);
        let s = if expr.delegate {
            s.print_ascii_byte(0x2A)
        } else {
            s
        };
        let s = match expr.argument {
            Some(argument) => s.print_soft_space().emit_expression(
                argument,
                Precedence::Yield,
                Context::spec_empty(),
            ),
            None => s,
        };
        s.wrap_close(wrap)
    }

    #[verifier::opaque]
    pub open spec fn emit_update_expression(
        self,
        expr: UpdateExpression,
        precedence: Precedence,
        ctx: Context,
    ) -> State
        decreases expr, 0nat,
    {
        let own = if expr.prefix {
            Precedence::Prefix
        } else {
            Precedence::Postfix
        };
        let wrap = precedence.spec_at_least(own);
        let op = Operator::Update(expr.operator);
        let s = self.wrap_open(wrap).print_space_before_operator(op).add_source_mapping(expr.span);
        let s = if expr.prefix {
            s.print_chars(expr.operator.spec_str()@).record_operator(
                op,
            ).emit_simple_assignment_target(expr.argument, Precedence::Prefix, ctx)
        } else {
            s.emit_simple_assignment_target(expr.argument, Precedence::Postfix, ctx).print_chars(
                expr.operator.spec_str()@,
            ).record_operator(op)
        };
        s.wrap_close(wrap)
    }

    /// An operator before its operand. `delete Infinity` is printed as
    /// `delete (0, Infinity)`, which deletes nothing either.
    #[verifier::opaque]
    pub open spec fn emit_unary_expression(
        self,
        expr: UnaryExpression,
        precedence: Precedence,
        ctx: Context,
    ) -> State
        decreases expr, 0nat,
    {
        let wrap = precedence.spec_at_least(Precedence::Prefix);
        let s = self.wrap_open(wrap);
        let s = if expr.operator.spec_is_keyword() {
            s.print_space_before_identifier().add_source_mapping(expr.span).print_chars(
                expr.operator.spec_str()@,
            ).print_soft_space()
        } else {
            s.print_space_before_operator(Operator::Unary(expr.operator)).add_source_mapping(
                expr.span,
            ).print_chars(expr.operator.spec_str()@).record_operator(
                Operator::Unary(expr.operator),
            )
        };
        let is_delete_infinity = expr.operator is Delete && !s.options.minify && match expr.argument {
            Expression::NumericLiteral(lit) => !lit.negative && lit.value is Infinity,
            _ => false,
        };
        let s = if is_delete_infinity {
            s.print_chars("(0,"@).print_soft_space()
        } else {
            s
        };
        let s = s.emit_expression(expr.argument, Precedence::Exponentiation, ctx);
        let s = if is_delete_infinity {
            s.print_ascii_byte(0x29)
        } else {
            s
        };
        s.wrap_close(wrap)
    }

    /// The operator of a binary expression: a word with a space before it where one is
    /// needed, a sign with a space before it where it would run into the sign before.
    #[verifier::opaque]
    pub open spec fn print_binary_operator(self, operator: BinaryOperator) -> State {
        if operator.spec_is_keyword() {
            self.print_space_before_identifier().print_chars(operator.spec_str()@)
        } else {
            self.print_space_before_operator(Operator::Binary(operator)).print_chars(
                operator.spec_str()@,
            ).record_operator(Operator::Binary(operator))
        }
    }

    /// A binary expression. It stands in parentheses where the surroundings bind at
    /// least as tightly as its operator, and where it is an `in` inside the head of a
    /// `for` statement.
    #[verifier::opaque]
    pub open spec fn emit_binary_expression(
        self,
        expr: BinaryExpression,
        precedence: Precedence,
        ctx: Context,
    ) -> State
        decreases expr, 0nat,
    {
        let wrap = precedence.spec_at_least(expr.operator.spec_precedence()) || (expr.operator is In
            && ctx.forbid_in);
        let inner = if wrap {
            ctx.spec_and_forbid_in(false)
        } else {
            ctx
        };
        let levels = spec_binary_levels(expr);
        self.wrap_open(wrap).emit_expression(
            expr.left,
            levels.left,
            inner,
        ).print_soft_space().print_binary_operator(expr.operator).print_soft_space().emit_expression(
            expr.right,
            levels.right,
            inner.spec_pass_forbid_in(),
        ).wrap_close(wrap)
    }

    #[verifier::opaque]
    pub open spec fn emit_logical_expression(
        self,
        expr: LogicalExpression,
        precedence: Precedence,
        ctx: Context,
    ) -> State
        decreases expr, 0nat,
    {
        let wrap = precedence.spec_at_least(expr.operator.spec_precedence());
        let inner = if wrap {
            ctx.spec_and_forbid_in(false)
        } else {
            ctx
        };
        let levels = spec_logical_levels(expr);
        self.wrap_open(wrap).emit_expression(
            expr.left,
            levels.left,
            inner,
        ).print_soft_space().print_chars(expr.operator.spec_str()@).print_soft_space().emit_expression(
            expr.right,
            levels.right,
            inner.spec_pass_forbid_in(),
        ).wrap_close(wrap)
    }

    #[verifier::opaque]
    pub open spec fn emit_private_in_expression(self, expr: PrivateInExpression, precedence: Precedence) -> State
        decreases expr, 0nat,
    {
        let wrap = precedence.spec_at_least(Precedence::Compare);
        self.wrap_open(wrap).add_source_mapping(expr.span).emit_private_identifier(
            expr.left,
        ).print_chars(" in "@).emit_expression(
            expr.right,
            Precedence::Equals,
            Context::spec_forbid_in(),
        ).wrap_close(wrap)
    }

    #[verifier::opaque]
    pub open spec fn emit_conditional_expression(
        self,
        expr: ConditionalExpression,
        precedence: Precedence,
        ctx: Context,
    ) -> State
        decreases expr, 0nat,
    {
        let wrap = precedence.spec_at_least(Precedence::Conditional);
        let inner = if wrap {
            ctx.spec_and_forbid_in(false)
        } else {
            ctx
        };
        self.wrap_open(wrap).emit_expression(
            expr.test,
            Precedence::Conditional,
            inner.spec_pass_forbid_in(),
        ).print_soft_space().print_ascii_byte(0x3F).print_soft_space().emit_expression(
            expr.consequent,
            Precedence::Yield,
            Context::spec_empty(),
        ).print_soft_space().print_colon().print_soft_space().emit_expression(
            expr.alternate,
            Precedence::Yield,
            inner.spec_pass_forbid_in(),
        ).wrap_close(wrap)
    }

    /// An assignment. At the start of a statement an assignment to an object pattern
    /// stands in parentheses: its `{` would start a block.
    #[verifier::opaque]
    pub open spec fn emit_assignment_expression(
        self,
        expr: AssignmentExpression,
        precedence: Precedence,
        ctx: Context,
    ) -> State
        decreases expr, 0nat,
    {
        let wrap = ((self.at_start_of_stmt() || self.at_start_of_arrow_expr())
            && expr.left is ObjectAssignmentTarget) || precedence.spec_at_least(Precedence::Assign);
        self.wrap_open(wrap).add_source_mapping(expr.span).emit_assignment_target(
            expr.left,
            ctx,
        ).print_soft_space().print_chars(expr.operator.spec_str()@).print_soft_space().emit_expression(
            expr.right,
            Precedence::Comma,
            ctx,
        ).wrap_close(wrap)
    }

    #[verifier::opaque]
    pub open spec fn emit_assignment_target(self, target: AssignmentTarget, ctx: Context) -> State
        decreases target, 0nat,
    {
        match target {
            AssignmentTarget::Simple(simple) => self.emit_simple_assignment_target(
                simple,
                Precedence::Comma,
                Context::spec_empty(),
            ),
            AssignmentTarget::ArrayAssignmentTarget(t) => self.emit_array_assignment_target(*t, ctx),
            AssignmentTarget::ObjectAssignmentTarget(t) => self.emit_object_assignment_target(
                *t,
                ctx,
            ),
        }
    }

    #[verifier::opaque]
    pub open spec fn emit_simple_assignment_target(
        self,
        target: SimpleAssignmentTarget,
        precedence: Precedence,
        ctx: Context,
    ) -> State
        decreases target, 0nat,
    {
        match target {
            SimpleAssignmentTarget::AssignmentTargetIdentifier(ident) => self.emit_identifier_reference(
                ident,
            ),
            SimpleAssignmentTarget::ComputedMemberExpression(e) => self.emit_computed_member_expression(
                *e,
                ctx,
            ),
            SimpleAssignmentTarget::StaticMemberExpression(e) => self.emit_static_member_expression(
                *e,
                ctx,
            ),
            SimpleAssignmentTarget::PrivateFieldExpression(e) => self.emit_private_field_expression(
                *e,
                ctx,
            ),
            SimpleAssignmentTarget::TSAsExpression(e) => self.emit_ts_as_expression(
                *e,
                precedence,
                ctx,
            ),
            SimpleAssignmentTarget::TSSatisfiesExpression(e) => self.emit_ts_satisfies_expression(
                *e,
                precedence,
                ctx,
            ),
            SimpleAssignmentTarget::TSNonNullExpression(e) => self.emit_ts_non_null_expression(
                *e,
                precedence,
                ctx,
            ),
            SimpleAssignmentTarget::TSTypeAssertion(e) => self.emit_ts_type_assertion(
                *e,
                precedence,
                ctx,
            ),
        }
    }

    #[verifier::opaque]
    pub open spec fn emit_array_target_elements(
        self,
        elements: Seq<Option<AssignmentTargetMaybeDefault>>,
        n: nat,
        has_rest: bool,
        ctx: Context,
    ) -> State
        decreases elements, n,
    {
        if n == 0 || n > elements.len() {
            self
        } else {
            let s = self.emit_array_target_elements(elements, (n - 1) as nat, has_rest, ctx);
            let s = if n > 1 {
                s.print_comma().print_soft_space()
            } else {
                s
            };
            let s = match elements[n - 1] {
                Some(item) => s.emit_assignment_target_maybe_default(item, ctx),
                None => s,
            };
            if n == elements.len() && (elements[n - 1] is None || has_rest) {
                s.print_comma()
            } else {
                s
            }
        }
    }

    #[verifier::opaque]
    pub open spec fn emit_array_assignment_target(self, target: ArrayAssignmentTarget, ctx: Context) -> State
        decreases target, 0nat,
    {
        let s = self.add_source_mapping(target.span).print_ascii_byte(
            0x5B,
        ).emit_array_target_elements(
            target.elements@,
            target.elements@.len(),
            target.rest is Some,
            ctx,
        );
        let s = match target.rest {
            Some(rest) => (if target.elements@.len() > 0 {
                s.print_soft_space()
            } else {
                s
            }).emit_assignment_target_rest(rest, ctx),
            None => s,
        };
        s.print_ascii_byte(0x5D)
    }

    #[verifier::opaque]
    pub open spec fn emit_target_properties(
        self,
        properties: Seq<AssignmentTargetProperty>,
        n: nat,
        ctx: Context,
    ) -> State
        decreases properties, n,
    {
        if n == 0 || n > properties.len() {
            self
        } else {
            let s = self.emit_target_properties(properties, (n - 1) as nat, ctx);
            let s = if n > 1 {
                s.print_comma().print_soft_space()
            } else {
                s
            };
            s.emit_assignment_target_property(properties[n - 1], ctx)
        }
    }

    #[verifier::opaque]
    pub open spec fn emit_object_assignment_target(self, target: ObjectAssignmentTarget, ctx: Context) -> State
        decreases target, 0nat,
    {
        let s = self.add_source_mapping(target.span).print_ascii_byte(
            0x7B,
        ).emit_target_properties(target.properties@, target.properties@.len(), ctx);
        let s = match target.rest {
            Some(rest) => (if target.properties@.len() > 0 {
                s.print_comma().print_soft_space()
            } else {
                s
            }).emit_assignment_target_rest(rest, ctx),
            None => s,
        };
        s.print_ascii_byte(0x7D)
    }

    #[verifier::opaque]
    pub open spec fn emit_assignment_target_maybe_default(
        self,
        target: AssignmentTargetMaybeDefault,
        ctx: Context,
    ) -> State
        decreases target, 0nat,
    {
        match target {
            AssignmentTargetMaybeDefault::Target(t) => self.emit_assignment_target(t, ctx),
            AssignmentTargetMaybeDefault::AssignmentTargetWithDefault(t) => self.emit_assignment_target_with_default(
                *t,
                ctx,
            ),
        }
    }

    #[verifier::opaque]
    pub open spec fn emit_assignment_target_with_default(
        self,
        target: AssignmentTargetWithDefault,
        ctx: Context,
    ) -> State
        decreases target, 0nat,
    {
        self.emit_assignment_target(
            target.binding,
            ctx,
        ).print_soft_space().print_equal().print_soft_space().emit_expression(
            target.init,
            Precedence::Comma,
            Context::spec_empty(),
        )
    }

    #[verifier::opaque]
    pub open spec fn emit_assignment_target_property(self, prop: AssignmentTargetProperty, ctx: Context) -> State
        decreases prop, 0nat,
    {
        match prop {
            AssignmentTargetProperty::AssignmentTargetPropertyIdentifier(p) => self.emit_assignment_target_property_identifier(
                *p,
            ),
            AssignmentTargetProperty::AssignmentTargetPropertyProperty(p) => self.emit_assignment_target_property_property(
                *p,
                ctx,
            ),
        }
    }

    /// A property of an object pattern that names its target as it names its key. Where
    /// the target has been renamed, the key is written out before it.
    #[verifier::opaque]
    pub open spec fn emit_assignment_target_property_identifier(
        self,
        prop: AssignmentTargetPropertyIdentifier,
    ) -> State
        decreases prop, 0nat,
    {
        let name = self.reference_name(prop.binding.name@, prop.binding.reference_id);
        let s = if name == prop.binding.name@ {
            self.emit_identifier_reference(prop.binding)
        } else {
            let key = self.print_chars(prop.binding.name@).print_colon().print_soft_space();
            key.print_chars(key.reference_name(prop.binding.name@, prop.binding.reference_id))
        };
        match prop.init {
            Some(init) => s.print_soft_space().print_equal().print_soft_space().emit_expression(
                init,
                Precedence::Comma,
                Context::spec_empty(),
            ),
            None => s,
        }
    }

    /// A property of an object pattern with a key and a target. In minified text the key
    /// is left out where the target is a name that equals it.
    #[verifier::opaque]
    pub open spec fn emit_assignment_target_property_property(
        self,
        prop: AssignmentTargetPropertyProperty,
        ctx: Context,
    ) -> State
        decreases prop, 0nat,
    {
        let omit_key = self.options.minify && match (prop.name, target_identifier(prop.binding)) {
            (PropertyKey::StaticIdentifier(key), Some(id)) => key.name@ == self.reference_name(
                id.name@,
                id.reference_id,
            ),
            _ => false,
        };
        let s = if omit_key {
            self
        } else {
            (match prop.name {
                PropertyKey::StaticIdentifier(ident) => self.emit_identifier_name(ident),
                PropertyKey::PrivateIdentifier(ident) => self.emit_private_identifier(ident),
                PropertyKey::Expression(key) => self.bracket_open(prop.computed).emit_expression(
                    key,
                    Precedence::Comma,
                    Context::spec_empty(),
                ).bracket_close(prop.computed),
            }).print_colon().print_soft_space()
        };
        s.emit_assignment_target_maybe_default(prop.binding, ctx)
    }

    #[verifier::opaque]
    pub open spec fn emit_assignment_target_rest(self, rest: AssignmentTargetRest, ctx: Context) -> State
        decreases rest, 0nat,
    {
        self.print_ellipsis().emit_assignment_target(rest.target, ctx)
    }

    #[verifier::opaque]
    pub open spec fn emit_expressions(
        self,
        expressions: Seq<Expression>,
        n: nat,
        precedence: Precedence,
        ctx: Context,
    ) -> State
        decreases expressions, n,
    {
        if n == 0 || n > expressions.len() {
            self
        } else {
            let s = self.emit_expressions(expressions, (n - 1) as nat, precedence, ctx);
            let s = if n > 1 {
                s.print_comma().print_soft_space()
            } else {
                s
            };
            s.emit_expression(expressions[n - 1], precedence, ctx)
        }
    }

    #[verifier::opaque]
    pub open spec fn emit_sequence_expression(
        self,
        expr: SequenceExpression,
        precedence: Precedence,
        ctx: Context,
    ) -> State
        decreases expr, 0nat,
    {
        let wrap = precedence.spec_at_least(Precedence::Comma);
        self.wrap_open(wrap).emit_expressions(
            expr.expressions@,
            expr.expressions@.len(),
            Precedence::Lowest,
            ctx.spec_and_forbid_call(false),
        ).wrap_close(wrap)
    }

    /// A call of `import`. Where comments stand between its parentheses, each argument
    /// goes on a line of its own.
    #[verifier::opaque]
    pub open spec fn emit_import_expression(
        self,
        expr: ImportExpression,
        precedence: Precedence,
        ctx: Context,
    ) -> State
        decreases expr, 0nat,
    {
        let wrap = precedence.spec_at_least(Precedence::New) || ctx.forbid_call;
        let annotation = self.options.comments.annotation;
        let before_paren = annotation && expr.span.end > 0 && self.has_comment(
            (expr.span.end - 1) as u32,
        );
        let has_comment = annotation && (before_paren || self.has_comment(
            expr.source.spec_span().start,
        ) || match expr.options {
            Some(options) => self.has_comment(options.spec_span().start),
            None => false,
        });
        let s = self.wrap_open(wrap).print_space_before_identifier().add_source_mapping(
            expr.span,
        ).print_chars("import"@);
        let s = match expr.phase {
            Some(phase) => s.print_ascii_byte(0x2E).print_chars(phase.spec_str()@),
            None => s,
        };
        let s = s.print_ascii_byte(0x28);
        let s = if has_comment {
            s.indent()
        } else {
            s
        };
        let s = if s.has_expr_comments(expr.source.spec_span().start) {
            s.print_expr_comments(expr.source.spec_span().start).print_indent()
        } else if has_comment {
            s.print_expr_comments(expr.source.spec_span().start).print_soft_newline().print_indent()
        } else {
            s.print_expr_comments(expr.source.spec_span().start)
        };
        let s = s.emit_expression(expr.source, Precedence::Comma, Context::spec_empty());
        let s = match expr.options {
            Some(options) => {
                let s = s.print_comma();
                let s = if has_comment {
                    s.print_soft_newline().print_indent()
                } else {
                    s.print_soft_space()
                };
                s.emit_expression(options, Precedence::Comma, Context::spec_empty())
            },
            None => s,
        };
        let s = if has_comment {
            (if !before_paren {
                s.print_soft_newline()
            } else if s.has_expr_comments((expr.span.end - 1) as u32) {
                s.print_expr_comments((expr.span.end - 1) as u32)
            } else {
                s.print_expr_comments((expr.span.end - 1) as u32).print_soft_newline()
            }).dedent()
        } else {
            s
        };
        s.print_ascii_byte(0x29).wrap_close(wrap)
    }

    #[verifier::opaque]
    pub open spec fn emit_await_expression(
        self,
        expr: AwaitExpression,
        precedence: Precedence,
        ctx: Context,
    ) -> State
        decreases expr, 0nat,
    {
        let wrap = precedence.spec_at_least(Precedence::Prefix);
        self.wrap_open(wrap).print_space_before_identifier().add_source_mapping(
            expr.span,
        ).print_chars("await"@).print_soft_space().emit_expression(
            expr.argument,
            Precedence::Exponentiation,
            ctx,
        ).wrap_close(wrap)
    }

    #[verifier::opaque]
    pub open spec fn emit_chain_expression(
        self,
        expr: ChainExpression,
        precedence: Precedence,
        ctx: Context,
    ) -> State
        decreases expr, 0nat,
    {
        let wrap = precedence.spec_at_least(Precedence::Postfix);
        let s = self.wrap_open(wrap);
        let s = match expr.expression {
            ChainElement::CallExpression(e) => s.emit_call_expression(*e, precedence, ctx),
            ChainElement::ComputedMemberExpression(e) => s.emit_computed_member_expression(
                *e,
                ctx,
            ),
            ChainElement::StaticMemberExpression(e) => s.emit_static_member_expression(*e, ctx),
            ChainElement::PrivateFieldExpression(e) => s.emit_private_field_expression(*e, ctx),
            ChainElement::TSNonNullExpression(e) => s.emit_ts_non_null_expression(
                *e,
                precedence,
                ctx,
            ),
        };
        s.wrap_close(wrap)
    }

    /// A `new` expression. In minified text the parentheses of an empty list of arguments
    /// are left out where nothing that follows could take them for its own.
    #[verifier::opaque]
    pub open spec fn emit_new_expression(
        self,
        expr: NewExpression,
        precedence: Precedence,
        ctx: Context,
    ) -> State
        decreases expr, 0nat,
    {
        let pure = expr.pure && self.options.comments.annotation;
        let wrap = precedence.spec_at_least(Precedence::Call) || (precedence.spec_at_least(
            Precedence::Postfix,
        ) && pure);
        let s = self.wrap_open(wrap);
        let s = if pure {
            s.print_chars(pure_comment())
        } else {
            s
        };
        let s = s.print_space_before_identifier().add_source_mapping(expr.span).print_chars(
            "new"@,
        ).print_soft_space().emit_expression(
            expr.callee,
            Precedence::New,
            Context::spec_forbid_call(),
        );
        let s = if !s.options.minify || expr.arguments@.len() > 0 || precedence.spec_at_least(
            Precedence::Postfix,
        ) {
            s.print_arguments(expr.span, expr.arguments@, ctx)
        } else {
            s
        };
        s.wrap_close(wrap)
    }

    #[verifier::opaque]
    pub open spec fn emit_v8_intrinsic_expression(
        self,
        expr: V8IntrinsicExpression,
        precedence: Precedence,
        ctx: Context,
    ) -> State
        decreases expr, 0nat,
    {
        let is_statement = self.at_start_of_stmt();
        let is_export_default = self.at_start_of_default_export();
        let wrap = precedence.spec_at_least(Precedence::New) || ctx.forbid_call
            || precedence.spec_at_least(Precedence::Postfix);
        let s = self.wrap_open(wrap);
        let s = if is_export_default {
            s.mark_start_of_default_export()
        } else if is_statement {
            s.mark_start_of_stmt()
        } else {
            s
        };
        s.add_source_mapping(expr.span).print_ascii_byte(0x25).emit_identifier_name(
            expr.name,
        ).print_arguments(expr.span, expr.arguments@, ctx).wrap_close(wrap)
    }

    /// A call. A call that is marked as pure gets the comment that says so.
    #[verifier::opaque]
    pub open spec fn emit_call_expression(
        self,
        expr: CallExpression,
        precedence: Precedence,
        ctx: Context,
    ) -> State
        decreases expr, 0nat,
    {
        let is_statement = self.at_start_of_stmt();
        let is_export_default = self.at_start_of_default_export();
        let pure = expr.pure && self.options.comments.annotation;
        let wrap = precedence.spec_at_least(Precedence::New) || ctx.forbid_call || (pure
            && precedence.spec_at_least(Precedence::Postfix));
        let s = self.wrap_open(wrap);
        let s = if pure {
            s.add_source_mapping(expr.span).print_chars(pure_comment())
        } else {
            s
        };
        let s = if is_export_default {
            s.mark_start_of_default_export()
        } else if is_statement {
            s.mark_start_of_stmt()
        } else {
            s
        };
        let s = s.emit_expression(expr.callee, Precedence::Postfix, Context::spec_empty());
        let s = if expr.optional {
            s.print_chars("?."@)
        } else {
            s
        };
        s.print_type_arguments(expr.type_arguments, ctx).print_arguments(
            expr.span,
            expr.arguments@,
            ctx,
        ).wrap_close(wrap)
    }

    #[verifier::opaque]
    pub open spec fn emit_argument(self, arg: Argument) -> State
        decreases arg, 0nat,
    {
        match arg {
            Argument::Spread(e) => self.emit_spread_element(e),
            Argument::Expression(e) => self.emit_expression(
                e,
                Precedence::Comma,
                Context::spec_empty(),
            ),
        }
    }

    #[verifier::opaque]
    pub open spec fn emit_argument_list(self, args: Seq<Argument>, n: nat) -> State
        decreases args, n,
    {
        if n == 0 || n > args.len() {
            self
        } else {
            let s = self.emit_argument_list(args, (n - 1) as nat);
            let s = if n > 1 {
                s.print_comma().print_soft_space()
            } else {
                s
            };
            s.emit_argument(args[n - 1])
        }
    }

    /// The first `n` arguments of a list that holds comments: each argument on a line
    /// of its own, behind the comments that are attached to it.
    #[verifier::opaque]
    pub open spec fn emit_argument_list_with_comments(self, args: Seq<Argument>, n: nat) -> State
        decreases args, n,
    {
        if n == 0 || n > args.len() {
            self
        } else {
            let s = self.emit_argument_list_with_comments(args, (n - 1) as nat);
            let s = if n > 1 {
                s.print_comma()
            } else {
                s
            };
            let start = args[n - 1].spec_span().start;
            let s = if s.has_expr_comments(start) {
                s.print_expr_comments(start).print_indent()
            } else {
                s.print_expr_comments(start).print_soft_newline().print_indent()
            };
            s.emit_argument(args[n - 1])
        }
    }

    /// The arguments of a call in their parentheses.
    #[verifier::opaque]
    pub open spec fn print_arguments(self, span: Span, args: Seq<Argument>, ctx: Context) -> State
        decreases args, args.len() + 1,
    {
        let s = self.print_ascii_byte(0x28);
        let before_paren = span.end > 0 && s.has_comment((span.end - 1) as u32);
        let has_comment = before_paren || s.any_argument_has_comment(args);
        let s = if has_comment {
            let s = s.indent().emit_argument_list_with_comments(args, args.len());
            let s = if !before_paren {
                s.print_soft_newline()
            } else if s.has_expr_comments((span.end - 1) as u32) {
                s.print_expr_comments((span.end - 1) as u32)
            } else {
                s.print_expr_comments((span.end - 1) as u32).print_soft_newline()
            };
            s.dedent().print_indent()
        } else {
            s.emit_argument_list(args, args.len())
        };
        s.print_ascii_byte(0x29).add_source_mapping_end(span)
    }

    #[verifier::opaque]
    pub open spec fn emit_spread_element(self, elem: SpreadElement) -> State
        decreases elem, 0nat,
    {
        self.add_source_mapping(elem.span).print_ellipsis().emit_expression(
            elem.argument,
            Precedence::Comma,
            Context::spec_empty(),
        )
    }

    #[verifier::opaque]
    pub open spec fn emit_array_expression_element(self, elem: ArrayExpressionElement) -> State
        decreases elem, 0nat,
    {
        match elem {
            ArrayExpressionElement::Spread(e) => self.emit_spread_element(e),
            ArrayExpressionElement::Elision(_) => self,
            ArrayExpressionElement::Expression(e) => self.emit_expression(
                e,
                Precedence::Comma,
                Context::spec_empty(),
            ),
        }
    }

    #[verifier::opaque]
    pub open spec fn emit_array_elements(
        self,
        elements: Seq<ArrayExpressionElement>,
        n: nat,
        multi_line: bool,
    ) -> State
        decreases elements, n,
    {
        if n == 0 || n > elements.len() {
            self
        } else {
            let s = self.emit_array_elements(elements, (n - 1) as nat, multi_line);
            let s = if n > 1 {
                s.print_comma()
            } else {
                s
            };
            let s = if multi_line {
                s.print_soft_newline().print_indent()
            } else if n > 1 {
                s.print_soft_space()
            } else {
                s
            };
            let s = s.emit_array_expression_element(elements[n - 1]);
            if n == elements.len() && elements[n - 1] is Elision {
                s.print_comma()
            } else {
                s
            }
        }
    }

    /// An array. More than two elements go on a line each.
    #[verifier::opaque]
    pub open spec fn emit_array_expression(self, expr: ArrayExpression) -> State
        decreases expr, 0nat,
    {
        let multi_line = expr.elements@.len() > 2;
        let s = self.add_source_mapping(expr.span).print_ascii_byte(0x5B);
        let s = if multi_line {
            s.indent()
        } else {
            s
        };
        let s = s.emit_array_elements(expr.elements@, expr.elements@.len(), multi_line);
        let s = if multi_line {
            s.print_soft_newline().dedent().print_indent()
        } else {
            s
        };
        s.print_ascii_byte(0x5D).add_source_mapping_end(expr.span)
    }

    #[verifier::opaque]
    pub open spec fn emit_object_properties(
        self,
        properties: Seq<ObjectPropertyKind>,
        n: nat,
        multi_line: bool,
        ctx: Context,
    ) -> State
        decreases properties, n,
    {
        if n == 0 || n > properties.len() {
            self
        } else {
            let s = self.emit_object_properties(properties, (n - 1) as nat, multi_line, ctx);
            let s = if n > 1 {
                s.print_comma()
            } else {
                s
            };
            let s = if multi_line {
                s.print_soft_newline().print_indent()
            } else {
                s.print_soft_space()
            };
            s.emit_object_property_kind(properties[n - 1], ctx)
        }
    }

    /// An object. It stands in parentheses at the start of a statement and at the start
    /// of the body of an arrow function, where its `{` would start a block, and where a
    /// comment is attached to it. More than one property go on a line each.
    #[verifier::opaque]
    pub open spec fn emit_object_expression(self, expr: ObjectExpression, ctx: Context) -> State
        decreases expr, 0nat,
    {
        let len = expr.properties@.len();
        let multi_line = len > 1;
        let has_comment = self.has_comment(expr.span.start);
        let wrap = has_comment || self.at_start_of_stmt() || self.at_start_of_arrow_expr();
        let s = self.wrap_open(wrap);
        let s = if has_comment {
            s.print_comments_at(expr.span.start).print_indent()
        } else {
            s
        };
        let s = s.add_source_mapping(expr.span).print_ascii_byte(0x7B);
        let s = if multi_line {
            s.indent()
        } else {
            s
        };
        let s = s.emit_object_properties(expr.properties@, len, multi_line, ctx);
        let s = if multi_line {
            s.print_soft_newline().dedent().print_indent()
        } else if len > 0 {
            s.print_soft_space()
        } else {
            s
        };
        s.print_ascii_byte(0x7D).add_source_mapping_end(expr.span).wrap_close(wrap)
    }

    #[verifier::opaque]
    pub open spec fn emit_object_property_kind(self, kind: ObjectPropertyKind, ctx: Context) -> State
        decreases kind, 0nat,
    {
        match kind {
            ObjectPropertyKind::ObjectProperty(prop) => self.emit_object_property(prop, ctx),
            ObjectPropertyKind::SpreadProperty(elem) => self.emit_spread_element(elem),
        }
    }

    /// The key and the value of an object property are one name.
    pub open spec fn property_is_shorthand(self, prop: ObjectProperty) -> bool {
        match prop.key {
            PropertyKey::StaticIdentifier(key) => if key.name@ == "__proto__"@ {
                prop.shorthand
            } else {
                match prop.value.spec_without_parentheses() {
                    Expression::Identifier(ident) => key.name@ == self.reference_name(
                        ident.name@,
                        ident.reference_id,
                    ),
                    _ => false,
                }
            },
            _ => false,
        }
    }

    /// A property of an object: a method or an accessor with its function, a name that
    /// is its own value by itself, and any other property as its key and its value.
    #[verifier::opaque]
    pub open spec fn emit_object_property(self, prop: ObjectProperty, ctx: Context) -> State
        decreases prop, 2nat,
    {
        match prop.value {
            Expression::FunctionExpression(func) => {
                let s = self.add_source_mapping(prop.span);
                let s = match prop.kind {
                    PropertyKind::Init => s,
                    PropertyKind::Getter => s.print_chars("get"@).print_soft_space(),
                    PropertyKind::Setter => s.print_chars("set"@).print_soft_space(),
                };
                if prop.method || !(prop.kind is Init) {
                    let s = if func.is_async {
                        s.print_modifier("async"@)
                    } else {
                        s
                    };
                    let s = if func.generator {
                        s.print_ascii_byte(0x2A)
                    } else {
                        s
                    };
                    let s = s.bracket_open(prop.computed).emit_property_key(
                        prop.key,
                        ctx,
                    ).bracket_close(prop.computed).print_type_parameters(
                        func.type_parameters,
                        ctx,
                    ).print_ascii_byte(0x28).emit_formal_parameters(
                        func.params,
                        ctx,
                    ).print_ascii_byte(0x29).print_type_annotation(func.return_type, ctx);
                    match func.body {
                        Some(body) => s.print_soft_space().emit_function_body(body, ctx),
                        None => s,
                    }
                } else {
                    s.emit_object_property_plain(prop, ctx)
                }
            },
            _ => self.emit_object_property_plain(prop, ctx),
        }
    }

    #[verifier::opaque]
    pub open spec fn emit_object_property_plain(self, prop: ObjectProperty, ctx: Context) -> State
        decreases prop, 1nat,
    {
        let computed = prop.computed || key_needs_brackets(prop.key);
        let s = if self.property_is_shorthand(prop) {
            self
        } else {
            self.bracket_open(computed).emit_property_key(prop.key, ctx).bracket_close(
                computed,
            ).print_colon().print_soft_space()
        };
        s.emit_expression(prop.value, Precedence::Comma, Context::spec_empty())
    }

    #[verifier::opaque]
    pub open spec fn emit_property_key(self, key: PropertyKey, ctx: Context) -> State
        decreases key, 0nat,
    {
        match key {
            PropertyKey::StaticIdentifier(ident) => self.emit_identifier_name(ident),
            PropertyKey::PrivateIdentifier(ident) => self.emit_private_identifier(ident),
            PropertyKey::Expression(e) => self.emit_expression(
                e,
                Precedence::Comma,
                Context::spec_empty(),
            ),
        }
    }

    #[verifier::opaque]
    pub open spec fn emit_template_parts(self, parts: Seq<TemplatePart>, n: nat) -> State
        decreases parts, n,
    {
        if n == 0 || n > parts.len() {
            self
        } else {
            self.emit_template_parts(parts, (n - 1) as nat).print_chars("${"@).print_expression(
                parts[n - 1].expression,
            ).print_ascii_byte(0x7D).add_source_mapping(
                parts[n - 1].quasi.span,
            ).print_chars_escaping_script_close_tag(parts[n - 1].quasi.raw@)
        }
    }

    /// A template: its texts as they stood in the source, with `</script` escaped, and
    /// its substitutions.
    #[verifier::opaque]
    pub open spec fn emit_template_literal(self, template: TemplateLiteral) -> State
        decreases template, 0nat,
    {
        self.add_source_mapping(template.span).print_ascii_byte(
            0x60,
        ).print_chars_escaping_script_close_tag(template.head.raw@).emit_template_parts(
            template.parts@,
            template.parts@.len(),
        ).print_ascii_byte(0x60)
    }

    #[verifier::opaque]
    pub open spec fn emit_tagged_template_expression(
        self,
        expr: TaggedTemplateExpression,
        ctx: Context,
    ) -> State
        decreases expr, 0nat,
    {
        self.add_source_mapping(expr.span).emit_expression(
            expr.tag,
            Precedence::Postfix,
            Context::spec_empty(),
        ).print_type_arguments(expr.type_arguments, ctx).emit_template_literal(
            expr.quasi,
        )
    }

    #[verifier::opaque]
    pub open spec fn emit_decorator(self, decorator: Decorator) -> State
        decreases decorator, 0nat,
    {
        let wrap = spec_decorator_needs_wrap(decorator.expression);
        self.add_source_mapping(decorator.span).print_ascii_byte(0x40).wrap_open(
            wrap,
        ).emit_expression(decorator.expression, Precedence::Lowest, Context::spec_empty()).wrap_close(
            wrap,
        )
    }

    #[verifier::opaque]
    pub open spec fn print_decorators(self, decorators: Seq<Decorator>, n: nat) -> State
        decreases decorators, n,
    {
        if n == 0 || n > decorators.len() {
            self
        } else {
            self.print_decorators(decorators, (n - 1) as nat).emit_decorator(
                decorators[n - 1],
            ).print_hard_space()
        }
    }

    /// What a pattern binds, the `?` of an optional parameter, and the type behind it.
    #[verifier::opaque]
    pub open spec fn emit_binding_pattern(self, pattern: BindingPattern, ctx: Context) -> State
        decreases pattern, 0nat,
    {
        let s = self.emit_binding_pattern_kind(pattern.kind, ctx);
        let s = if pattern.optional {
            s.print_ascii_byte(0x3F)
        } else {
            s
        };
        s.print_type_annotation(pattern.type_annotation, ctx)
    }

    #[verifier::opaque]
    pub open spec fn emit_binding_pattern_kind(self, kind: BindingPatternKind, ctx: Context) -> State
        decreases kind, 0nat,
    {
        match kind {
            BindingPatternKind::BindingIdentifier(ident) => self.emit_binding_identifier(*ident),
            BindingPatternKind::ObjectPattern(p) => self.emit_object_pattern(*p, ctx),
            BindingPatternKind::ArrayPattern(p) => self.emit_array_pattern(*p, ctx),
            BindingPatternKind::AssignmentPattern(p) => self.emit_assignment_pattern(*p, ctx),
        }
    }

    #[verifier::opaque]
    pub open spec fn emit_assignment_pattern(self, pattern: AssignmentPattern, ctx: Context) -> State
        decreases pattern, 0nat,
    {
        self.emit_binding_pattern(
            pattern.left,
            ctx,
        ).print_soft_space().print_equal().print_soft_space().emit_expression(
            pattern.right,
            Precedence::Comma,
            Context::spec_empty(),
        )
    }

    #[verifier::opaque]
    pub open spec fn emit_binding_properties(
        self,
        properties: Seq<BindingProperty>,
        n: nat,
        ctx: Context,
    ) -> State
        decreases properties, n,
    {
        if n == 0 || n > properties.len() {
            self
        } else {
            let s = self.emit_binding_properties(properties, (n - 1) as nat, ctx);
            let s = if n > 1 {
                s.print_comma().print_soft_space()
            } else {
                s
            };
            s.emit_binding_property(properties[n - 1], ctx)
        }
    }

    #[verifier::opaque]
    pub open spec fn emit_object_pattern(self, pattern: ObjectPattern, ctx: Context) -> State
        decreases pattern, 0nat,
    {
        let is_empty = pattern.properties@.len() == 0 && pattern.rest is None;
        let s = self.add_source_mapping(pattern.span).print_ascii_byte(0x7B);
        let s = if is_empty {
            s
        } else {
            s.print_soft_space()
        };
        let s = s.emit_binding_properties(pattern.properties@, pattern.properties@.len(), ctx);
        let s = match pattern.rest {
            Some(rest) => (if pattern.properties@.len() > 0 {
                s.print_comma()
            } else {
                s
            }).emit_binding_rest_element(rest, ctx),
            None => s,
        };
        let s = if is_empty {
            s
        } else {
            s.print_soft_space()
        };
        s.print_ascii_byte(0x7D)
    }

    /// The key of a property of an object pattern is the name that it binds.
    pub open spec fn binding_is_shorthand(self, property: BindingProperty) -> bool {
        match property.key {
            PropertyKey::StaticIdentifier(key) => match property.value.kind {
                BindingPatternKind::BindingIdentifier(ident) => key.name@ == self.binding_name(
                    ident.name@,
                    ident.symbol_id,
                ),
                BindingPatternKind::AssignmentPattern(pattern) => match pattern.left.kind {
                    BindingPatternKind::BindingIdentifier(ident) => key.name@ == self.binding_name(
                        ident.name@,
                        ident.symbol_id,
                    ),
                    _ => false,
                },
                _ => false,
            },
            _ => false,
        }
    }

    #[verifier::opaque]
    pub open spec fn emit_binding_property(self, property: BindingProperty, ctx: Context) -> State
        decreases property, 0nat,
    {
        let s = if self.binding_is_shorthand(property) {
            self
        } else {
            self.bracket_open(property.computed).emit_property_key(property.key, ctx).bracket_close(
                property.computed,
            ).print_colon().print_soft_space()
        };
        s.emit_binding_pattern(property.value, ctx)
    }

    #[verifier::opaque]
    pub open spec fn emit_binding_rest_element(self, element: BindingRestElement, ctx: Context) -> State
        decreases element, 0nat,
    {
        self.add_source_mapping(element.span).print_ellipsis().emit_binding_pattern(
            element.argument,
            ctx,
        )
    }

    #[verifier::opaque]
    pub open spec fn emit_array_pattern_elements(
        self,
        elements: Seq<Option<BindingPattern>>,
        n: nat,
        has_rest: bool,
        ctx: Context,
    ) -> State
        decreases elements, n,
    {
        if n == 0 || n > elements.len() {
            self
        } else {
            let s = self.emit_array_pattern_elements(elements, (n - 1) as nat, has_rest, ctx);
            let s = if n > 1 {
                s.print_comma().print_soft_space()
            } else {
                s
            };
            let s = match elements[n - 1] {
                Some(item) => s.emit_binding_pattern(item, ctx),
                None => s,
            };
            if n == elements.len() && (elements[n - 1] is None || has_rest) {
                s.print_comma()
            } else {
                s
            }
        }
    }

    #[verifier::opaque]
    pub open spec fn emit_array_pattern(self, pattern: ArrayPattern, ctx: Context) -> State
        decreases pattern, 0nat,
    {
        let s = self.add_source_mapping(pattern.span).print_ascii_byte(
            0x5B,
        ).emit_array_pattern_elements(
            pattern.elements@,
            pattern.elements@.len(),
            pattern.rest is Some,
            ctx,
        );
        let s = match pattern.rest {
            Some(rest) => s.print_soft_space().emit_binding_rest_element(rest, ctx),
            None => s,
        };
        s.print_ascii_byte(0x5D)
    }

    #[verifier::opaque]
    pub open spec fn emit_formal_parameter(self, param: FormalParameter, ctx: Context) -> State
        decreases param, 0nat,
    {
        let s = self.add_source_mapping(param.span).print_decorators(
            param.decorators@,
            param.decorators@.len(),
        );
        let s = match param.accessibility {
            Some(accessibility) => s.print_modifier(accessibility.spec_str()@),
            None => s,
        };
        let s = if param.is_override {
            s.print_modifier("override"@)
        } else {
            s
        };
        let s = if param.readonly {
            s.print_modifier("readonly"@)
        } else {
            s
        };
        s.emit_binding_pattern(param.pattern, ctx)
    }

    #[verifier::opaque]
    pub open spec fn emit_formal_parameter_items(
        self,
        items: Seq<FormalParameter>,
        n: nat,
        ctx: Context,
    ) -> State
        decreases items, n,
    {
        if n == 0 || n > items.len() {
            self
        } else {
            let s = self.emit_formal_parameter_items(items, (n - 1) as nat, ctx);
            let s = if n > 1 {
                s.print_comma().print_soft_space()
            } else {
                s
            };
            s.emit_formal_parameter(items[n - 1], ctx)
        }
    }

    #[verifier::opaque]
    pub open spec fn emit_formal_parameters(self, params: FormalParameters, ctx: Context) -> State
        decreases params, 0nat,
    {
        let s = self.emit_formal_parameter_items(params.items@, params.items@.len(), ctx);
        match params.rest {
            Some(rest) => (if params.items@.len() > 0 {
                s.print_comma().print_soft_space()
            } else {
                s
            }).emit_binding_rest_element(rest, ctx),
            None => s,
        }
    }

    /// A function. A function expression stands in parentheses at the start of a
    /// statement or of a default export, and where it stood in parentheses in the source.
    #[verifier::opaque]
    pub open spec fn emit_function(self, function: Function, ctx: Context) -> State
        decreases function, 0nat,
    {
        let wrap = function.expression && (self.at_start_of_stmt()
            || self.at_start_of_default_export() || function.pife);
        let ctx = ctx.spec_and_forbid_call(false);
        let s = self.wrap_open(wrap).print_space_before_identifier().add_source_mapping(
            function.span,
        );
        let s = if function.declare {
            s.print_chars("declare "@)
        } else {
            s
        };
        let s = if function.is_async {
            s.print_chars("async "@)
        } else {
            s
        };
        let s = s.print_chars("function"@);
        let s = if function.generator {
            s.print_ascii_byte(0x2A).print_soft_space()
        } else {
            s
        };
        let s = match function.id {
            Some(id) => s.print_space_before_identifier().emit_binding_identifier(id),
            None => s,
        };
        let s = s.print_type_parameters(function.type_parameters, ctx).print_ascii_byte(
            0x28,
        ).print_this_parameter(
            function.this_param,
            spec_has_parameters(function.params),
            ctx,
        ).emit_formal_parameters(function.params, ctx).print_ascii_byte(0x29);
        let s = match function.return_type {
            Some(return_type) => s.print_chars(": "@).emit_ts_type_annotation(*return_type, ctx),
            None => s,
        };
        let s = match function.body {
            Some(body) => s.print_soft_space().emit_function_body(body, ctx),
            None => s.print_semicolon(),
        };
        s.wrap_close(wrap)
    }

    /// The body of a function. An empty body stays on one line unless a comment inside
    /// it stands on a line of its own.
    #[verifier::opaque]
    pub open spec fn emit_function_body(self, body: FunctionBody, ctx: Context) -> State
        decreases body, 0nat,
    {
        let empty = body.directives@.len() == 0 && body.statements@.len() == 0;
        let has_key = body.span.end > 0;
        let key = (body.span.end - 1) as u32;
        let single_line = empty && (!has_key || !self.comments.contains_key(key)
            || comments_all_inline(self.comments[key]));
        let s = self.curly_open(body.span, single_line).emit_directives(
            body.directives@,
            body.directives@.len(),
        ).emit_body_statements(
            body.statements@,
            body.statements@.len(),
            ctx,
            body.directives@.len() == 0,
        );
        let s = if has_key && s.comments.contains_key(key) {
            s.print_comments_at(key).set_print_next_indent_as_space(false)
        } else {
            s
        };
        s.curly_close(single_line).set_needs_semicolon(false)
    }

    /// An arrow function. In minified text a single plain parameter stands without
    /// parentheses.
    #[verifier::opaque]
    pub open spec fn emit_arrow_function_expression(
        self,
        expr: ArrowFunctionExpression,
        precedence: Precedence,
        ctx: Context,
    ) -> State
        decreases expr, 0nat,
    {
        let wrap = precedence.spec_at_least(Precedence::Assign) || expr.pife;
        let s = self.wrap_open(wrap);
        let s = if expr.is_async {
            s.print_space_before_identifier().add_source_mapping(expr.span).print_chars(
                "async"@,
            ).print_soft_space()
        } else {
            s
        };
        let s = s.print_type_parameters(expr.type_parameters, ctx);
        let bare = spec_arrow_params_bare(expr, s.options.minify);
        let s = s.wrap_open(!bare).emit_formal_parameters(expr.params, ctx).wrap_close(
            !bare,
        ).print_type_annotation(expr.return_type, ctx).print_soft_space().print_chars(
            "=>"@,
        ).print_soft_space();
        let s = if expr.expression {
            if expr.body.statements@.len() > 0 {
                match expr.body.statements@[0] {
                    Statement::ExpressionStatement(stmt) => s.mark_start_of_arrow_expr().emit_expression(
                        stmt.expression,
                        Precedence::Comma,
                        ctx,
                    ),
                    _ => s,
                }
            } else {
                s
            }
        } else {
            s.emit_function_body(expr.body, ctx)
        };
        s.wrap_close(wrap)
    }

    /// A class. A class expression stands in parentheses at the start of a statement or
    /// of a default export.
    #[verifier::opaque]
    pub open spec fn emit_class(self, class: Class, ctx: Context) -> State
        decreases class, 0nat,
    {
        let wrap = class.expression && (self.at_start_of_stmt()
            || self.at_start_of_default_export());
        let ctx = ctx.spec_and_forbid_call(false);
        let s = self.wrap_open(wrap).enter_class().print_decorators(
            class.decorators@,
            class.decorators@.len(),
        ).print_space_before_identifier().add_source_mapping(class.span);
        let s = if class.declare {
            s.print_chars("declare "@)
        } else {
            s
        };
        let s = if class.is_abstract {
            s.print_chars("abstract "@)
        } else {
            s
        };
        let s = s.print_chars("class"@);
        let s = match class.id {
            Some(id) => s.print_hard_space().emit_binding_identifier(id).print_type_parameters(
                class.type_parameters,
                ctx,
            ),
            None => s,
        };
        let s = match class.super_class {
            Some(super_class) => s.print_chars(" extends "@).emit_expression(
                super_class,
                Precedence::Postfix,
                Context::spec_empty(),
            ).print_type_arguments(class.super_type_arguments, ctx),
            None => s,
        };
        let s = s.emit_ts_implements_list(class.implements@, class.implements@.len(), ctx);
        s.print_soft_space().emit_class_body(class.body, ctx).set_needs_semicolon(
            false,
        ).exit_class().wrap_close(wrap)
    }

    #[verifier::opaque]
    pub open spec fn emit_class_elements(self, items: Seq<ClassElement>, n: nat, ctx: Context) -> State
        decreases items, n,
    {
        if n == 0 || n > items.len() {
            self
        } else {
            self.emit_class_elements(
                items,
                (n - 1) as nat,
                ctx,
            ).print_semicolon_if_needed().print_comments_at(
                items[n - 1].spec_span().start,
            ).print_indent().emit_class_element(items[n - 1], ctx)
        }
    }

    #[verifier::opaque]
    pub open spec fn emit_class_body(self, body: ClassBody, ctx: Context) -> State
        decreases body, 0nat,
    {
        let single_line = body.body@.len() == 0;
        self.curly_open(body.span, single_line).emit_class_elements(
            body.body@,
            body.body@.len(),
            ctx,
        ).curly_close(single_line)
    }

    #[verifier::opaque]
    pub open spec fn emit_class_element(self, elem: ClassElement, ctx: Context) -> State
        decreases elem, 0nat,
    {
        match elem {
            ClassElement::StaticBlock(block) => self.emit_static_block(
                *block,
                ctx,
            ).print_soft_newline(),
            ClassElement::MethodDefinition(method) => self.emit_method_definition(
                *method,
                ctx,
            ).print_soft_newline(),
            ClassElement::PropertyDefinition(prop) => self.emit_property_definition(
                *prop,
                ctx,
            ).print_semicolon_after_statement(),
            ClassElement::AccessorProperty(prop) => self.emit_accessor_property(
                *prop,
                ctx,
            ).print_semicolon_after_statement(),
            ClassElement::TSIndexSignature(signature) => self.emit_ts_index_signature(
                *signature,
                ctx,
            ).print_semicolon_after_statement(),
        }
    }

    #[verifier::opaque]
    pub open spec fn emit_static_block(self, block: StaticBlock, ctx: Context) -> State
        decreases block, 0nat,
    {
        let single_line = block.body@.len() == 0;
        self.add_source_mapping(block.span).print_chars("static"@).print_soft_space().curly_open(
            block.span,
            single_line,
        ).emit_statement_list(block.body@, block.body@.len(), ctx).curly_close(
            single_line,
        ).set_needs_semicolon(false)
    }

    #[verifier::opaque]
    pub open spec fn emit_method_definition(self, method: MethodDefinition, ctx: Context) -> State
        decreases method, 0nat,
    {
        let s = self.add_source_mapping(method.span).print_decorators(
            method.decorators@,
            method.decorators@.len(),
        );
        let s = match method.accessibility {
            Some(accessibility) => s.print_modifier(accessibility.spec_str()@),
            None => s,
        };
        let s = if method.is_abstract {
            s.print_modifier("abstract"@)
        } else {
            s
        };
        let s = if method.is_static {
            s.print_modifier("static"@)
        } else {
            s
        };
        let s = match method.kind {
            MethodDefinitionKind::Getter => s.print_modifier("get"@),
            MethodDefinitionKind::Setter => s.print_modifier("set"@),
            _ => s,
        };
        let s = if method.value.is_async {
            s.print_modifier("async"@)
        } else {
            s
        };
        let s = if method.value.generator {
            s.print_ascii_byte(0x2A)
        } else {
            s
        };
        let s = s.bracket_open(method.computed).emit_property_key(method.key, ctx).bracket_close(
            method.computed,
        );
        let s = if method.optional {
            s.print_ascii_byte(0x3F)
        } else {
            s
        };
        let s = s.print_type_parameters(method.value.type_parameters, ctx).print_ascii_byte(
            0x28,
        ).print_this_parameter(
            method.value.this_param,
            spec_has_parameters(method.value.params),
            ctx,
        ).emit_formal_parameters(method.value.params, ctx).print_ascii_byte(
            0x29,
        ).print_type_annotation(method.value.return_type, ctx);
        match method.value.body {
            Some(body) => s.print_soft_space().emit_function_body(body, ctx),
            None => s.print_semicolon(),
        }
    }

    #[verifier::opaque]
    pub open spec fn emit_property_definition(self, property: PropertyDefinition, ctx: Context) -> State
        decreases property, 0nat,
    {
        let s = self.add_source_mapping(property.span).print_decorators(
            property.decorators@,
            property.decorators@.len(),
        );
        let s = if property.declare {
            s.print_modifier("declare"@)
        } else {
            s
        };
        let s = match property.accessibility {
            Some(accessibility) => s.print_modifier(accessibility.spec_str()@),
            None => s,
        };
        let s = if property.is_abstract {
            s.print_modifier("abstract"@)
        } else {
            s
        };
        let s = if property.is_static {
            s.print_modifier("static"@)
        } else {
            s
        };
        let s = if property.readonly {
            s.print_modifier("readonly"@)
        } else {
            s
        };
        let s = s.bracket_open(property.computed).emit_property_key(property.key, ctx).bracket_close(
            property.computed,
        );
        let s = if property.optional {
            s.print_ascii_byte(0x3F)
        } else {
            s
        };
        let s = s.print_type_annotation(property.type_annotation, ctx);
        match property.value {
            Some(value) => s.print_soft_space().print_equal().print_soft_space().emit_expression(
                value,
                Precedence::Comma,
                Context::spec_empty(),
            ),
            None => s,
        }
    }

    #[verifier::opaque]
    pub open spec fn emit_accessor_property(self, property: AccessorProperty, ctx: Context) -> State
        decreases property, 0nat,
    {
        let s = self.add_source_mapping(property.span).print_decorators(
            property.decorators@,
            property.decorators@.len(),
        );
        let s = if property.is_abstract {
            s.print_modifier("abstract"@)
        } else {
            s
        };
        let s = match property.accessibility {
            Some(accessibility) => s.print_modifier(accessibility.spec_str()@),
            None => s,
        };
        let s = if property.is_static {
            s.print_modifier("static"@)
        } else {
            s
        };
        let s = if property.is_override {
            s.print_modifier("override"@)
        } else {
            s
        };
        let s = s.print_space_before_identifier().print_chars("accessor"@);
        let s = if property.computed {
            s.print_soft_space().print_ascii_byte(0x5B)
        } else {
            s.print_hard_space()
        };
        let s = s.emit_property_key(property.key, ctx).bracket_close(
            property.computed,
        ).print_type_annotation(property.type_annotation, ctx);
        match property.value {
            Some(value) => s.print_soft_space().print_equal().print_soft_space().emit_expression(
                value,
                Precedence::Comma,
                Context::spec_empty(),
            ),
            None => s,
        }
    }
}

} // verus!

verus! {

impl State {
    /// The statements of a block, each behind the `;` that the one before it owes.
    #[verifier::opaque]
    pub open spec fn emit_statement_list(self, stmts: Seq<Statement>, n: nat, ctx: Context) -> State
        decreases stmts, n,
    {
        if n == 0 || n > stmts.len() {
            self
        } else {
            self.emit_statement_list(
                stmts,
                (n - 1) as nat,
                ctx,
            ).print_semicolon_if_needed().emit_statement(stmts[n - 1], ctx)
        }
    }

    /// The statements of a program or of a function body. Where no directive stands
    /// before them, a first statement that is a string is put in parentheses: it would
    /// else be read as a directive.
    #[verifier::opaque]
    pub open spec fn emit_body_statements(
        self,
        stmts: Seq<Statement>,
        n: nat,
        ctx: Context,
        no_directives: bool,
    ) -> State
        decreases stmts, n,
    {
        if n == 0 || n > stmts.len() {
            self
        } else if n == 1 {
            if no_directives && is_string_statement(stmts[0]) {
                match stmts[0] {
                    Statement::ExpressionStatement(stmt) => self.emit_string_expression_directive(
                        *stmt,
                    ),
                    _ => self,
                }
            } else {
                self.emit_statement(stmts[0], ctx)
            }
        } else {
            self.emit_body_statements(
                stmts,
                (n - 1) as nat,
                ctx,
                no_directives,
            ).print_semicolon_if_needed().emit_statement(stmts[n - 1], ctx)
        }
    }

    /// A statement that is a string, in parentheses.
    #[verifier::opaque]
    pub open spec fn emit_string_expression_directive(self, stmt: ExpressionStatement) -> State {
        let s = self.print_ascii_byte(0x28);
        let s = match stmt.expression.spec_without_parentheses() {
            Expression::StringLiteral(lit) => s.emit_string_literal(*lit),
            _ => s,
        };
        s.print_ascii_byte(0x29).print_semicolon_after_statement()
    }

    /// A program: the comments at its start, its hashbang, its directives and its
    /// statements, and the comments at its end.
    #[verifier::opaque]
    pub open spec fn emit_program(self, program: Program, ctx: Context) -> State {
        let s = State { is_jsx: program.is_jsx, ..self }.print_comments_at(0);
        let s = match program.hashbang {
            Some(hashbang) => s.emit_hashbang(hashbang),
            None => s,
        };
        s.emit_directives(program.directives@, program.directives@.len()).emit_body_statements(
            program.body@,
            program.body@.len(),
            ctx,
            program.directives@.len() == 0,
        ).print_semicolon_if_needed().print_comments_at(program.span.end)
    }

    /// A statement.
    #[verifier::opaque]
    pub open spec fn emit_statement(self, stmt: Statement, ctx: Context) -> State
        decreases stmt, 0nat,
    {
        match stmt {
            Statement::BlockStatement(block) => self.print_comments_at(
                block.span.start,
            ).emit_block_statement(*block, ctx),
            Statement::ExpressionStatement(s) => self.emit_expression_statement(*s),
            Statement::VariableDeclaration(decl) => self.emit_variable_declaration_statement(
                *decl,
                ctx,
            ),
            Statement::IfStatement(s) => self.emit_if_statement(*s, ctx),
            Statement::ReturnStatement(s) => self.emit_return_statement(*s),
            Statement::FunctionDeclaration(decl) => self.emit_function_declaration(*decl, ctx),
            Statement::ForStatement(s) => self.emit_for_statement(*s, ctx),
            Statement::WhileStatement(s) => self.emit_while_statement(*s, ctx),
            Statement::DoWhileStatement(s) => self.emit_do_while_statement(*s, ctx),
            Statement::SwitchStatement(s) => self.emit_switch_statement(*s, ctx),
            Statement::BreakStatement(s) => self.emit_break_statement(*s),
            Statement::ContinueStatement(s) => self.emit_continue_statement(*s),
            Statement::TryStatement(s) => self.emit_try_statement(*s, ctx),
            Statement::ThrowStatement(s) => self.emit_throw_statement(*s),
            Statement::ForInStatement(s) => self.emit_for_in_statement(*s, ctx),
            Statement::ForOfStatement(s) => self.emit_for_of_statement(*s, ctx),
            Statement::ClassDeclaration(decl) => self.emit_class_declaration(*decl, ctx),
            Statement::LabeledStatement(s) => self.emit_labeled_statement(*s, ctx),
            Statement::EmptyStatement(s) => self.emit_empty_statement(*s),
            Statement::ImportDeclaration(decl) => self.emit_import_declaration(*decl),
            Statement::ExportNamedDeclaration(decl) => self.emit_export_named_declaration(
                *decl,
                ctx,
            ),
            Statement::ExportDefaultDeclaration(decl) => self.emit_export_default_declaration(
                *decl,
                ctx,
            ),
            Statement::ExportAllDeclaration(decl) => self.emit_export_all_declaration(*decl),
            Statement::WithStatement(s) => self.emit_with_statement(*s, ctx),
            Statement::DebuggerStatement(s) => self.emit_debugger_statement(*s),
            Statement::TSModuleDeclaration(decl) => self.print_comments_at(
                decl.span.start,
            ).print_indent().emit_ts_module_declaration(*decl, ctx).print_soft_newline(),
            Statement::TSTypeAliasDeclaration(decl) => self.print_indent().print_comments_at(
                decl.span.start,
            ).emit_ts_type_alias_declaration(*decl, ctx).print_semicolon_after_statement(),
            Statement::TSInterfaceDeclaration(decl) => self.print_indent().print_comments_at(
                decl.span.start,
            ).emit_ts_interface_declaration(*decl, ctx).print_soft_newline(),
            Statement::TSEnumDeclaration(decl) => self.print_indent().print_comments_at(
                decl.span.start,
            ).emit_ts_enum_declaration(*decl, ctx).print_soft_newline(),
            Statement::TSExportAssignment(decl) => self.emit_ts_export_assignment(*decl, ctx),
            Statement::TSNamespaceExportDeclaration(
                decl,
            ) => self.emit_ts_namespace_export_declaration(*decl),
            Statement::TSImportEqualsDeclaration(decl) => self.print_indent().print_comments_at(
                decl.span.start,
            ).emit_ts_import_equals_declaration(*decl, ctx).print_semicolon_after_statement(),
        }
    }

    /// A block in its braces, without what stands before and behind it.
    #[verifier::opaque]
    pub open spec fn print_block_statement(self, block: BlockStatement, ctx: Context) -> State
        decreases block, 0nat,
    {
        let single_line = block.body@.len() == 0;
        self.curly_open(block.span, single_line).emit_statement_list(
            block.body@,
            block.body@.len(),
            ctx,
        ).curly_close(single_line).set_needs_semicolon(false)
    }

    /// A block as a statement of its own.
    #[verifier::opaque]
    pub open spec fn emit_block_statement(self, block: BlockStatement, ctx: Context) -> State
        decreases block, 1nat,
    {
        self.print_indent().print_block_statement(block, ctx).print_soft_newline()
    }

    /// The body of a loop or of a branch: a block on the same line, or any other
    /// statement behind a space.
    #[verifier::opaque]
    pub open spec fn print_body(self, stmt: Statement, need_space: bool, ctx: Context) -> State
        decreases stmt, 1nat,
    {
        match stmt {
            Statement::BlockStatement(block) => self.print_soft_space().print_block_statement(
                *block,
                ctx,
            ).print_soft_newline(),
            Statement::EmptyStatement(_) => self.print_semicolon().print_soft_newline(),
            _ => (if need_space && self.options.minify {
                self.print_hard_space()
            } else {
                self
            }).set_print_next_indent_as_space(true).emit_statement(stmt, ctx),
        }
    }

    /// An expression as a statement.
    #[verifier::opaque]
    pub open spec fn emit_expression_statement(self, stmt: ExpressionStatement) -> State
        decreases stmt, 0nat,
    {
        let s = self.print_comments_at(stmt.span.start);
        let s = if !s.options.minify && (s.indent > 0 || s.print_next_indent_as_space) {
            s.add_source_mapping(stmt.span).print_indent()
        } else {
            s
        };
        s.mark_start_of_stmt().print_expression(stmt.expression).print_semicolon_after_statement()
    }

    #[verifier::opaque]
    pub open spec fn emit_variable_declarator(self, decl: VariableDeclarator, ctx: Context) -> State
        decreases decl, 0nat,
    {
        let s = self.emit_binding_pattern_kind(decl.id.kind, ctx);
        let s = if decl.definite {
            s.print_ascii_byte(0x21)
        } else {
            s
        };
        let s = if decl.id.optional {
            s.print_ascii_byte(0x3F)
        } else {
            s
        };
        let s = s.print_type_annotation(decl.id.type_annotation, ctx);
        match decl.init {
            Some(init) => s.print_soft_space().print_equal().print_soft_space().emit_expression(
                init,
                Precedence::Comma,
                ctx,
            ),
            None => s,
        }
    }

    #[verifier::opaque]
    pub open spec fn emit_declarators(self, decls: Seq<VariableDeclarator>, n: nat, ctx: Context) -> State
        decreases decls, n,
    {
        if n == 0 || n > decls.len() {
            self
        } else {
            let s = self.emit_declarators(decls, (n - 1) as nat, ctx);
            let s = if n > 1 {
                s.print_comma().print_soft_space()
            } else {
                s
            };
            s.emit_variable_declarator(decls[n - 1], ctx)
        }
    }

    /// The keyword of a declaration and what it declares.
    #[verifier::opaque]
    pub open spec fn emit_variable_declaration_inner(self, decl: VariableDeclaration, ctx: Context) -> State
        decreases decl, 0nat,
    {
        let s = self.print_space_before_identifier();
        let s = if decl.declare {
            s.print_chars("declare "@)
        } else {
            s
        };
        let s = match decl.kind {
            VariableDeclarationKind::Const => s.print_chars("const"@),
            VariableDeclarationKind::Let => s.print_chars("let"@),
            VariableDeclarationKind::Var => s.print_chars("var"@),
            VariableDeclarationKind::Using => s.print_chars("using"@),
            VariableDeclarationKind::AwaitUsing => s.print_chars("await"@).print_hard_space().print_chars(
                "using"@,
            ),
        };
        let s = if decl.declarations@.len() > 0 {
            s.print_soft_space()
        } else {
            s
        };
        s.emit_declarators(decl.declarations@, decl.declarations@.len(), ctx)
    }

    /// A declaration inside a statement.
    #[verifier::opaque]
    pub open spec fn emit_variable_declaration(self, decl: VariableDeclaration, ctx: Context) -> State
        decreases decl, 1nat,
    {
        self.add_source_mapping(decl.span).emit_variable_declaration_inner(decl, ctx)
    }

    /// A declaration as a statement.
    #[verifier::opaque]
    pub open spec fn emit_variable_declaration_statement(self, decl: VariableDeclaration, ctx: Context) -> State
        decreases decl, 1nat,
    {
        self.print_comments_at(decl.span.start).print_indent().emit_variable_declaration_inner(
            decl,
            ctx,
        ).print_semicolon_after_statement()
    }

    #[verifier::opaque]
    pub open spec fn emit_if_statement(self, stmt: IfStatement, ctx: Context) -> State
        decreases stmt, 1nat,
    {
        self.print_comments_at(stmt.span.start).add_source_mapping(stmt.span).print_indent().print_if(
            stmt,
            ctx,
        )
    }

    /// An `if` and what hangs on it. A branch before an `else` that ends in an `if`
    /// without an `else` is put in braces.
    #[verifier::opaque]
    pub open spec fn print_if(self, stmt: IfStatement, ctx: Context) -> State
        decreases stmt, 0nat,
    {
        let s = self.print_space_before_identifier().print_chars(
            "if"@,
        ).print_soft_space().print_ascii_byte(0x28).print_expression(stmt.test).print_ascii_byte(
            0x29,
        );
        let has_else = stmt.alternate is Some;
        let s = match stmt.consequent {
            Statement::BlockStatement(block) => {
                let s = s.print_soft_space().print_block_statement(*block, ctx);
                if has_else {
                    s.print_soft_space()
                } else {
                    s.print_soft_newline()
                }
            },
            _ => if has_else && spec_wrap_to_avoid_ambiguous_else(stmt.consequent) {
                let s = s.print_soft_space().add_source_mapping(
                    stmt.consequent.spec_span(),
                ).print_ascii_byte(0x7B).print_soft_newline().indent().emit_statement(
                    stmt.consequent,
                    ctx,
                ).set_needs_semicolon(false).dedent().print_indent().print_ascii_byte(0x7D);
                s.print_soft_space()
            } else {
                let s = s.print_body(stmt.consequent, false, ctx);
                if has_else {
                    s.print_indent()
                } else {
                    s
                }
            },
        };
        match stmt.alternate {
            Some(alternate) => {
                let s = s.print_semicolon_if_needed().print_space_before_identifier().print_chars(
                    "else"@,
                );
                match alternate {
                    Statement::BlockStatement(block) => s.print_soft_space().print_block_statement(
                        *block,
                        ctx,
                    ).print_soft_newline(),
                    Statement::IfStatement(nested) => s.print_hard_space().print_if(*nested, ctx),
                    _ => s.print_body(alternate, true, ctx),
                }
            },
            None => s,
        }
    }

    #[verifier::opaque]
    pub open spec fn emit_return_statement(self, stmt: ReturnStatement) -> State
        decreases stmt, 0nat,
    {
        let s = self.print_comments_at(stmt.span.start).add_source_mapping(
            stmt.span,
        ).print_indent().print_space_before_identifier().print_chars("return"@);
        let s = match stmt.argument {
            Some(argument) => s.print_soft_space().print_expression(argument),
            None => s,
        };
        s.print_semicolon_after_statement()
    }

    #[verifier::opaque]
    pub open spec fn emit_function_declaration(self, decl: Function, ctx: Context) -> State
        decreases decl, 1nat,
    {
        let s = self.print_comments_at(decl.span.start);
        let s = if decl.pure && s.options.comments.annotation {
            s.print_indent().print_chars(no_side_effects_new_line_comment())
        } else {
            s
        };
        s.print_indent().emit_function(decl, ctx).print_soft_newline()
    }

    #[verifier::opaque]
    pub open spec fn emit_class_declaration(self, decl: Class, ctx: Context) -> State
        decreases decl, 1nat,
    {
        self.print_comments_at(decl.span.start).print_indent().emit_class(
            decl,
            ctx,
        ).print_soft_newline()
    }

    #[verifier::opaque]
    pub open spec fn emit_for_statement_init(self, init: ForStatementInit, ctx: Context) -> State
        decreases init, 0nat,
    {
        match init {
            ForStatementInit::VariableDeclaration(decl) => self.emit_variable_declaration(
                *decl,
                ctx,
            ),
            ForStatementInit::Expression(e) => self.emit_expression(e, Precedence::Lowest, ctx),
        }
    }

    /// What stands before the `in` or `of` of a loop. The name `async` is put in
    /// parentheses.
    #[verifier::opaque]
    pub open spec fn emit_for_statement_left(self, left: ForStatementLeft, ctx: Context) -> State
        decreases left, 0nat,
    {
        match left {
            ForStatementLeft::VariableDeclaration(decl) => self.emit_variable_declaration(
                *decl,
                ctx,
            ),
            ForStatementLeft::Target(target) => {
                let wrap = match target {
                    AssignmentTarget::Simple(
                        SimpleAssignmentTarget::AssignmentTargetIdentifier(ident),
                    ) => ident.name@ == "async"@,
                    _ => false,
                };
                self.wrap_open(wrap).emit_assignment_target(target, ctx).wrap_close(wrap)
            },
        }
    }

    #[verifier::opaque]
    pub open spec fn emit_for_statement(self, stmt: ForStatement, ctx: Context) -> State
        decreases stmt, 0nat,
    {
        let s = self.print_comments_at(stmt.span.start).add_source_mapping(
            stmt.span,
        ).print_indent().print_space_before_identifier().print_chars(
            "for"@,
        ).print_soft_space().print_ascii_byte(0x28);
        let s = match stmt.init {
            Some(init) => s.emit_for_statement_init(init, Context::spec_forbid_in()),
            None => s,
        };
        let s = s.print_semicolon();
        let s = match stmt.test {
            Some(test) => s.print_soft_space().print_expression(test),
            None => s,
        };
        let s = s.print_semicolon();
        let s = match stmt.update {
            Some(update) => s.print_soft_space().print_expression(update),
            None => s,
        };
        s.print_ascii_byte(0x29).print_body(stmt.body, false, ctx)
    }

    #[verifier::opaque]
    pub open spec fn emit_for_in_statement(self, stmt: ForInStatement, ctx: Context) -> State
        decreases stmt, 0nat,
    {
        self.print_comments_at(stmt.span.start).add_source_mapping(
            stmt.span,
        ).print_indent().print_space_before_identifier().print_chars(
            "for"@,
        ).print_soft_space().print_ascii_byte(0x28).emit_for_statement_left(
            stmt.left,
            Context::spec_forbid_in(),
        ).print_soft_space().print_space_before_identifier().print_chars(
            "in"@,
        ).print_soft_space().print_expression(stmt.right).print_ascii_byte(0x29).print_body(
            stmt.body,
            false,
            ctx,
        )
    }

    #[verifier::opaque]
    pub open spec fn emit_for_of_statement(self, stmt: ForOfStatement, ctx: Context) -> State
        decreases stmt, 0nat,
    {
        let s = self.print_comments_at(stmt.span.start).add_source_mapping(
            stmt.span,
        ).print_indent().print_space_before_identifier().print_chars("for"@);
        let s = if stmt.is_await {
            s.print_chars(" await"@)
        } else {
            s
        };
        s.print_soft_space().print_ascii_byte(0x28).emit_for_statement_left(
            stmt.left,
            ctx,
        ).print_soft_space().print_space_before_identifier().print_chars(
            "of"@,
        ).print_soft_space().emit_expression(
            stmt.right,
            Precedence::Comma,
            Context::spec_empty(),
        ).print_ascii_byte(0x29).print_body(stmt.body, false, ctx)
    }

    #[verifier::opaque]
    pub open spec fn emit_while_statement(self, stmt: WhileStatement, ctx: Context) -> State
        decreases stmt, 0nat,
    {
        self.print_comments_at(stmt.span.start).add_source_mapping(
            stmt.span,
        ).print_indent().print_space_before_identifier().print_chars(
            "while"@,
        ).print_soft_space().print_ascii_byte(0x28).print_expression(stmt.test).print_ascii_byte(
            0x29,
        ).print_body(stmt.body, false, ctx)
    }

    /// A `do` loop: `do`, a block on the same line or any other statement on a line of
    /// its own, and the `while` with its test.
    #[verifier::opaque]
    pub open spec fn emit_do_while_statement(self, stmt: DoWhileStatement, ctx: Context) -> State
        decreases stmt, 0nat,
    {
        let s = self.print_comments_at(stmt.span.start).add_source_mapping(
            stmt.span,
        ).print_indent().print_space_before_identifier().print_chars("do"@);
        let s = match stmt.body {
            Statement::BlockStatement(block) => s.print_soft_space().print_block_statement(
                *block,
                ctx,
            ).print_soft_space(),
            Statement::EmptyStatement(empty) => s.emit_empty_statement(*empty),
            _ => s.print_soft_newline().indent().emit_statement(
                stmt.body,
                ctx,
            ).print_semicolon_if_needed().dedent().print_indent(),
        };
        s.print_chars("while"@).print_soft_space().print_ascii_byte(0x28).print_expression(
            stmt.test,
        ).print_ascii_byte(0x29).print_semicolon_after_statement()
    }

    /// One case of a `switch`. A single statement in it goes on the line of the case.
    #[verifier::opaque]
    pub open spec fn emit_switch_case(self, case: SwitchCase, ctx: Context) -> State
        decreases case, 0nat,
    {
        let s = self.print_semicolon_if_needed().print_indent().add_source_mapping(case.span);
        let s = match case.test {
            Some(test) => s.print_chars("case"@).print_soft_space().emit_expression(
                test,
                Precedence::Lowest,
                ctx,
            ),
            None => s.print_chars("default"@),
        };
        let s = s.print_colon();
        if case.consequent@.len() == 1 {
            s.print_body(case.consequent@[0], false, ctx)
        } else {
            s.print_soft_newline().indent().emit_statement_list(
                case.consequent@,
                case.consequent@.len(),
                ctx,
            ).dedent()
        }
    }

    #[verifier::opaque]
    pub open spec fn emit_switch_cases(self, cases: Seq<SwitchCase>, n: nat, ctx: Context) -> State
        decreases cases, n,
    {
        if n == 0 || n > cases.len() {
            self
        } else {
            self.emit_switch_cases(cases, (n - 1) as nat, ctx).emit_switch_case(cases[n - 1], ctx)
        }
    }

    #[verifier::opaque]
    pub open spec fn emit_switch_statement(self, stmt: SwitchStatement, ctx: Context) -> State
        decreases stmt, 0nat,
    {
        let single_line = stmt.cases@.len() == 0;
        self.print_comments_at(stmt.span.start).add_source_mapping(
            stmt.span,
        ).print_indent().print_space_before_identifier().print_chars(
            "switch"@,
        ).print_soft_space().print_ascii_byte(0x28).print_expression(
            stmt.discriminant,
        ).print_ascii_byte(0x29).print_soft_space().curly_open(
            stmt.span,
            single_line,
        ).emit_switch_cases(stmt.cases@, stmt.cases@.len(), ctx).curly_close(
            single_line,
        ).print_soft_newline().set_needs_semicolon(false)
    }

    #[verifier::opaque]
    pub open spec fn emit_catch_clause(self, clause: CatchClause, ctx: Context) -> State
        decreases clause, 0nat,
    {
        let s = self.print_soft_space().print_comments_at(clause.span.start).print_chars("catch"@);
        let s = match clause.param {
            Some(param) => s.print_soft_space().print_ascii_byte(0x28).emit_binding_pattern(
                param,
                ctx,
            ).print_ascii_byte(0x29),
            None => s,
        };
        s.print_soft_space().print_block_statement(clause.body, ctx)
    }

    #[verifier::opaque]
    pub open spec fn emit_try_statement(self, stmt: TryStatement, ctx: Context) -> State
        decreases stmt, 0nat,
    {
        let s = self.print_comments_at(stmt.span.start).add_source_mapping(
            stmt.span,
        ).print_indent().print_space_before_identifier().print_chars(
            "try"@,
        ).print_soft_space().print_block_statement(stmt.block, ctx);
        let s = match stmt.handler {
            Some(handler) => s.emit_catch_clause(handler, ctx),
            None => s,
        };
        let s = match stmt.finalizer {
            Some(finalizer) => s.print_soft_space().print_chars(
                "finally"@,
            ).print_soft_space().print_block_statement(finalizer, ctx),
            None => s,
        };
        s.print_soft_newline()
    }

    #[verifier::opaque]
    pub open spec fn emit_throw_statement(self, stmt: ThrowStatement) -> State
        decreases stmt, 0nat,
    {
        self.print_comments_at(stmt.span.start).add_source_mapping(
            stmt.span,
        ).print_indent().print_space_before_identifier().print_chars(
            "throw"@,
        ).print_soft_space().print_expression(stmt.argument).print_semicolon_after_statement()
    }

    #[verifier::opaque]
    pub open spec fn emit_with_statement(self, stmt: WithStatement, ctx: Context) -> State
        decreases stmt, 0nat,
    {
        self.print_comments_at(stmt.span.start).add_source_mapping(
            stmt.span,
        ).print_indent().print_space_before_identifier().print_chars("with"@).print_ascii_byte(
            0x28,
        ).print_expression(stmt.object).print_ascii_byte(0x29).print_body(stmt.body, false, ctx)
    }

    #[verifier::opaque]
    pub open spec fn emit_labeled_statement(self, stmt: LabeledStatement, ctx: Context) -> State
        decreases stmt, 0nat,
    {
        let s = self.print_comments_at(stmt.span.start);
        let s = if !s.options.minify && (s.indent > 0 || s.print_next_indent_as_space) {
            s.add_source_mapping(stmt.span).print_indent()
        } else {
            s
        };
        s.print_space_before_identifier().emit_label_identifier(stmt.label).print_colon().print_body(
            stmt.body,
            false,
            ctx,
        )
    }

    /// An export of declarations or of names.
    #[verifier::opaque]
    pub open spec fn emit_export_named_declaration(self, decl: ExportNamedDeclaration, ctx: Context) -> State
        decreases decl, 0nat,
    {
        let s = self.print_comments_at(decl.span.start);
        let s = match decl.declaration {
            Some(Declaration::FunctionDeclaration(func)) => if func.pure
                && s.options.comments.annotation {
                s.print_chars(no_side_effects_new_line_comment())
            } else {
                s
            },
            _ => s,
        };
        let s = s.add_source_mapping(decl.span).print_indent().print_chars("export"@);
        match decl.declaration {
            Some(item) => {
                let s = s.print_hard_space();
                match item {
                    Declaration::VariableDeclaration(d) => s.emit_variable_declaration(
                        *d,
                        ctx,
                    ).print_semicolon_after_statement(),
                    Declaration::FunctionDeclaration(d) => s.emit_function(
                        *d,
                        ctx,
                    ).print_soft_newline().set_needs_semicolon(false),
                    Declaration::ClassDeclaration(d) => s.emit_class(
                        *d,
                        ctx,
                    ).print_soft_newline().set_needs_semicolon(false),
                    Declaration::TSModuleDeclaration(d) => s.emit_ts_module_declaration(
                        *d,
                        ctx,
                    ).print_soft_newline().set_needs_semicolon(false),
                    Declaration::TSTypeAliasDeclaration(d) => s.emit_ts_type_alias_declaration(
                        *d,
                        ctx,
                    ).print_semicolon_after_statement(),
                    Declaration::TSInterfaceDeclaration(d) => s.emit_ts_interface_declaration(
                        *d,
                        ctx,
                    ).print_soft_newline().set_needs_semicolon(false),
                    Declaration::TSEnumDeclaration(d) => s.emit_ts_enum_declaration(
                        *d,
                        ctx,
                    ).print_soft_newline().set_needs_semicolon(false),
                    Declaration::TSImportEqualsDeclaration(d) => s.emit_ts_import_equals_declaration(
                        *d,
                        ctx,
                    ).print_semicolon_after_statement(),
                }
            },
            None => {
                let s = if decl.export_kind.spec_is_type() {
                    s.print_hard_space().print_chars("type"@)
                } else {
                    s
                };
                let s = s.print_soft_space().print_ascii_byte(0x7B);
                let s = if decl.specifiers@.len() > 0 {
                    s.print_soft_space().emit_export_specifiers(
                        decl.specifiers@,
                        decl.specifiers@.len(),
                    ).print_soft_space()
                } else {
                    s
                };
                let s = s.print_ascii_byte(0x7D);
                let s = match decl.source {
                    Some(source) => s.print_soft_space().print_chars(
                        "from"@,
                    ).print_soft_space().emit_string_literal(source),
                    None => s,
                };
                s.print_semicolon_after_statement()
            },
        }
    }

    #[verifier::opaque]
    pub open spec fn emit_export_default_declaration(
        self,
        decl: ExportDefaultDeclaration,
        ctx: Context,
    ) -> State
        decreases decl, 0nat,
    {
        let s = self.print_comments_at(decl.span.start);
        let s = match decl.declaration {
            ExportDefaultDeclarationKind::FunctionDeclaration(func) => if func.pure
                && s.options.comments.annotation {
                s.print_chars(no_side_effects_new_line_comment())
            } else {
                s
            },
            _ => s,
        };
        let s = s.add_source_mapping(decl.span).print_indent().print_chars("export default "@);
        match decl.declaration {
            ExportDefaultDeclarationKind::FunctionDeclaration(func) => s.emit_function(
                *func,
                ctx,
            ).print_soft_newline(),
            ExportDefaultDeclarationKind::ClassDeclaration(class) => s.emit_class(
                *class,
                ctx,
            ).print_soft_newline(),
            ExportDefaultDeclarationKind::TSInterfaceDeclaration(
                interface,
            ) => s.emit_ts_interface_declaration(*interface, ctx),
            ExportDefaultDeclarationKind::Expression(e) => s.mark_start_of_default_export().emit_expression(
                e,
                Precedence::Comma,
                Context::spec_empty(),
            ).print_semicolon_after_statement(),
        }
    }

    /// A whole print: the program, and what becomes of its legal comments.
    #[verifier::opaque]
    pub open spec fn build(self, program: Program) -> State {
        self.printed(program).handle_eof_linked_or_external_comments(
            encode_utf8(program.source_text@),
            program.comments@,
        )
    }

    /// The state in which a program has been printed and its legal comments have not
    /// been dealt with.
    #[verifier::opaque]
    pub open spec fn printed(self, program: Program) -> State {
        self.begin(encode_utf8(program.source_text@), program.comments@).emit_program(
            program,
            Context::spec_empty(),
        )
    }
}

} // verus!

verus! {

impl Codegen {
    pub fn wrap_open(&mut self, wrap: bool)
        requires
            old(self).wf(),
        ensures
            final(self).wf(),
            old(self)@.code.len() <= final(self)@.code.len(),
            final(self)@ == old(self)@.wrap_open(wrap),
    {
        proof {
            reveal(State::wrap_open);
        }
        if wrap {
            self.print_ascii_byte(0x28);
        }
    }

    pub fn wrap_close(&mut self, wrap: bool)
        requires
            old(self).wf(),
        ensures
            final(self).wf(),
            old(self)@.code.len() <= final(self)@.code.len(),
            final(self)@ == old(self)@.wrap_close(wrap),
    {
        proof {
            reveal(State::wrap_close);
        }
        if wrap {
            self.print_ascii_byte(0x29);
        }
    }

    pub fn bracket_open(&mut self, on: bool)
        requires
            old(self).wf(),
        ensures
            final(self).wf(),
            old(self)@.code.len() <= final(self)@.code.len(),
            final(self)@ == old(self)@.bracket_open(on),
    {
        proof {
            reveal(State::bracket_open);
        }
        if on {
            self.print_ascii_byte(0x5B);
        }
    }

    pub fn bracket_close(&mut self, on: bool)
        requires
            old(self).wf(),
        ensures
            final(self).wf(),
            old(self)@.code.len() <= final(self)@.code.len(),
            final(self)@ == old(self)@.bracket_close(on),
    {
        proof {
            reveal(State::bracket_close);
        }
        if on {
            self.print_ascii_byte(0x5D);
        }
    }

    pub fn curly_open(&mut self, span: Span, single_line: bool)
        requires
            old(self).wf(),
        ensures
            final(self).wf(),
            old(self)@.code.len() <= final(self)@.code.len(),
            final(self)@ == old(self)@.curly_open(span, single_line),
    {
        proof {
            reveal(State::curly_open);
        }
        self.add_source_mapping(span);
        self.print_ascii_byte(0x7B);
        if !single_line {
            self.print_soft_newline();
            self.indent();
        }
    }

    pub fn curly_close(&mut self, single_line: bool)
        requires
            old(self).wf(),
        ensures
            final(self).wf(),
            old(self)@.code.len() <= final(self)@.code.len(),
            final(self)@ == old(self)@.curly_close(single_line),
    {
        proof {
            reveal(State::curly_close);
        }
        if !single_line {
            self.dedent();
            self.print_indent();
        }
        self.print_ascii_byte(0x7D);
    }

    pub fn print_modifier(&mut self, word: &str)
        requires
            old(self).wf(),
        ensures
            final(self).wf(),
            old(self)@.code.len() <= final(self)@.code.len(),
            final(self)@ == old(self)@.print_modifier(word@),
    {
        proof {
            reveal(State::print_modifier);
        }
        self.print_space_before_identifier();
        self.print_str(word);
        self.print_soft_space();
    }

    pub fn emit_hashbang(&mut self, hashbang: &Hashbang)
        requires
            old(self).wf(),
        ensures
            final(self).wf(),
            old(self)@.code.len() <= final(self)@.code.len(),
            final(self)@ == old(self)@.emit_hashbang(*hashbang),
    {
        proof {
            reveal(State::emit_hashbang);
        }
        self.print_str("#!");
        self.print_str(hashbang.value.as_str());
        self.print_hard_newline();
    }

    pub fn emit_directive(&mut self, directive: &Directive)
        requires
            old(self).wf(),
        ensures
            final(self).wf(),
            old(self)@.code.len() <= final(self)@.code.len(),
            final(self)@ == old(self)@.emit_directive(*directive),
    {
        proof {
            reveal(State::emit_directive);
        }
        let quote = match directive.quote {
            Some(quote) => if self.minify() {
                directive_quote(directive.directive.as_str(), self.quote())
            } else {
                quote
            },
            None => directive_quote(directive.directive.as_str(), self.quote()),
        };
        self.add_source_mapping(directive.span);
        self.print_indent();
        self.print_ascii_byte(quote.byte());
        self.print_str(directive.directive.as_str());
        self.print_ascii_byte(quote.byte());
        self.print_ascii_byte(0x3B);
        self.print_soft_newline();
    }

    pub fn emit_directives(&mut self, directives: &Vec<Directive>)
        requires
            old(self).wf(),
        ensures
            final(self).wf(),
            old(self)@.code.len() <= final(self)@.code.len(),
            final(self)@ == old(self)@.emit_directives(directives@, directives@.len()),
    {
        proof {
            reveal(State::emit_directives);
        }
        let mut i: usize = 0;
        while i < directives.len()
            invariant
                i <= directives.len(),
                self.wf(),
                old(self)@.code.len() <= self@.code.len(),
                self@ == old(self)@.emit_directives(directives@, i as nat),
            decreases directives.len() - i,
        {
            proof {
                reveal(State::emit_directives);
            }
            self.emit_directive(&directives[i]);
            i += 1;
        }
    }

    pub fn emit_identifier_name(&mut self, ident: &IdentifierName)
        requires
            old(self).wf(),
        ensures
            final(self).wf(),
            old(self)@.code.len() <= final(self)@.code.len(),
            final(self)@ == old(self)@.emit_identifier_name(*ident),
    {
        proof {
            reveal(State::emit_identifier_name);
        }
        self.print_space_before_identifier();
        self.add_source_mapping_for_name(ident.span, ident.name.as_str());
        self.print_str(ident.name.as_str());
    }

    pub fn emit_label_identifier(&mut self, ident: &LabelIdentifier)
        requires
            old(self).wf(),
        ensures
            final(self).wf(),
            old(self)@.code.len() <= final(self)@.code.len(),
            final(self)@ == old(self)@.emit_label_identifier(*ident),
    {
        proof {
            reveal(State::emit_label_identifier);
        }
        self.print_space_before_identifier();
        self.add_source_mapping_for_name(ident.span, ident.name.as_str());
        self.print_str(ident.name.as_str());
    }

    pub fn emit_boolean_literal(&mut self, lit: &BooleanLiteral)
        requires
            old(self).wf(),
        ensures
            final(self).wf(),
            old(self)@.code.len() <= final(self)@.code.len(),
            final(self)@ == old(self)@.emit_boolean_literal(*lit),
    {
        proof {
            reveal(State::emit_boolean_literal);
        }
        self.add_source_mapping(lit.span);
        self.print_space_before_identifier();
        if lit.value {
            self.print_str("true");
        } else {
            self.print_str("false");
        }
    }

    pub fn emit_null_literal(&mut self, lit: &NullLiteral)
        requires
            old(self).wf(),
        ensures
            final(self).wf(),
            old(self)@.code.len() <= final(self)@.code.len(),
            final(self)@ == old(self)@.emit_null_literal(*lit),
    {
        proof {
            reveal(State::emit_null_literal);
        }
        self.print_space_before_identifier();
        self.add_source_mapping(lit.span);
        self.print_str("null");
    }

    pub fn emit_this_expression(&mut self, expr: &ThisExpression)
        requires
            old(self).wf(),
        ensures
            final(self).wf(),
            old(self)@.code.len() <= final(self)@.code.len(),
            final(self)@ == old(self)@.emit_this_expression(*expr),
    {
        proof {
            reveal(State::emit_this_expression);
        }
        self.print_space_before_identifier();
        self.add_source_mapping(expr.span);
        self.print_str("this");
    }

    pub fn emit_super(&mut self, expr: &Super)
        requires
            old(self).wf(),
        ensures
            final(self).wf(),
            old(self)@.code.len() <= final(self)@.code.len(),
            final(self)@ == old(self)@.emit_super(*expr),
    {
        proof {
            reveal(State::emit_super);
        }
        self.print_space_before_identifier();
        self.add_source_mapping(expr.span);
        self.print_str("super");
    }

    pub fn emit_numeric_literal(&mut self, lit: &NumericLiteral, precedence: Precedence, ctx: Context)
        requires
            old(self).wf(),
        ensures
            final(self).wf(),
            old(self)@.code.len() <= final(self)@.code.len(),
            final(self)@ == old(self)@.emit_numeric_literal(*lit, precedence, ctx),
    {
        proof {
            reveal(State::emit_numeric_literal);
        }
        self.add_source_mapping(lit.span);
        if ctx.typescript {
            match &lit.raw {
                Some(raw) => {
                    self.print_str(raw.as_str());
                },
                None => {},
            }
            return ;
        }
        match &lit.value {
            NumberValue::NotANumber => {
                self.print_space_before_identifier();
                self.print_str("NaN");
            },
            NumberValue::Infinity => {
                let wrap = (self.minify() && precedence.at_least(Precedence::Multiply)) || (
                lit.negative && precedence.at_least(Precedence::Prefix));
                self.wrap_open(wrap);
                if lit.negative {
                    self.print_space_before_operator(Operator::Unary(UnaryOperator::UnaryNegation));
                    self.print_ascii_byte(0x2D);
                } else {
                    self.print_space_before_identifier();
                }
                if self.minify() {
                    self.print_str("1/0");
                } else {
                    self.print_str("Infinity");
                }
                self.wrap_close(wrap);
            },
            NumberValue::Finite { shortest, integer } => {
                if !lit.negative {
                    self.print_space_before_identifier();
                    self.print_non_negative_float(shortest.as_str(), *integer);
                } else if precedence.at_least(Precedence::Prefix) {
                    self.print_str("(-");
                    self.print_non_negative_float(shortest.as_str(), *integer);
                    self.print_ascii_byte(0x29);
                } else {
                    self.print_space_before_operator(Operator::Unary(UnaryOperator::UnaryNegation));
                    self.print_ascii_byte(0x2D);
                    self.print_non_negative_float(shortest.as_str(), *integer);
                }
            },
        }
    }

    pub fn emit_bigint_literal(&mut self, lit: &BigIntLiteral, precedence: Precedence)
        requires
            old(self).wf(),
        ensures
            final(self).wf(),
            old(self)@.code.len() <= final(self)@.code.len(),
            final(self)@ == old(self)@.emit_bigint_literal(*lit, precedence),
    {
        proof {
            reveal(State::emit_bigint_literal);
        }
        self.print_space_before_identifier();
        self.add_source_mapping(lit.span);
        let bytes = lit.value.as_str().as_bytes();
        if bytes.len() > 0 && bytes[0] == 0x2D && precedence.at_least(Precedence::Prefix) {
            self.print_ascii_byte(0x28);
            self.print_str(lit.value.as_str());
            self.print_str("n)");
        } else {
            self.print_str(lit.value.as_str());
            self.print_ascii_byte(0x6E);
        }
    }

    pub fn emit_reg_exp_literal(&mut self, lit: &RegExpLiteral)
        requires
            old(self).wf(),
        ensures
            final(self).wf(),
            old(self)@.code.len() <= final(self)@.code.len(),
            final(self)@ == old(self)@.emit_reg_exp_literal(*lit),
    {
        proof {
            reveal(State::emit_reg_exp_literal);
        }
        self.add_source_mapping(lit.span);
        let space = match self.last_byte() {
            Some(b) => b == 0x2F || (b == 0x3C && crate::text::starts_with_script(
                lit.pattern.as_str(),
            )),
            None => false,
        };
        if space {
            self.print_hard_space();
        }
        self.print_ascii_byte(0x2F);
        self.print_str(lit.pattern.as_str());
        self.print_ascii_byte(0x2F);
        self.print_str(lit.flags.as_str());
        self.mark_reg_exp_end();
    }

    pub fn emit_string_literal(&mut self, lit: &StringLiteral)
        requires
            old(self).wf(),
        ensures
            final(self).wf(),
            old(self)@.code.len() <= final(self)@.code.len(),
            final(self)@ == old(self)@.emit_string_literal(*lit),
    {
        proof {
            reveal(State::emit_string_literal);
        }
        self.print_string_literal(lit);
    }

    pub fn emit_meta_property(&mut self, meta: &MetaProperty)
        requires
            old(self).wf(),
        ensures
            final(self).wf(),
            old(self)@.code.len() <= final(self)@.code.len(),
            final(self)@ == old(self)@.emit_meta_property(*meta),
    {
        proof {
            reveal(State::emit_meta_property);
        }
        self.print_space_before_identifier();
        self.add_source_mapping(meta.span);
        self.emit_identifier_name(&meta.meta);
        self.print_ascii_byte(0x2E);
        self.emit_identifier_name(&meta.property);
    }

    pub fn emit_module_export_name(&mut self, name: &ModuleExportName)
        requires
            old(self).wf(),
        ensures
            final(self).wf(),
            old(self)@.code.len() <= final(self)@.code.len(),
            final(self)@ == old(self)@.emit_module_export_name(*name),
    {
        proof {
            reveal(State::emit_module_export_name);
        }
        match name {
            ModuleExportName::IdentifierName(ident) => self.emit_identifier_name(ident),
            ModuleExportName::IdentifierReference(ident) => self.emit_identifier_reference(ident),
            ModuleExportName::StringLiteral(lit) => self.emit_string_literal(lit),
        }
    }

    /// The name that a module export name stands for.
    pub fn get_module_export_name<'a>(&'a self, name: &'a ModuleExportName) -> (text: &'a str)
        ensures
            text@ == self@.module_export_name(*name),
    {
        match name {
            ModuleExportName::IdentifierName(ident) => ident.name.as_str(),
            ModuleExportName::IdentifierReference(ident) => self.get_identifier_reference_name(
                ident,
            ),
            ModuleExportName::StringLiteral(lit) => lit.value.as_str(),
        }
    }

    pub fn emit_import_attribute(&mut self, attr: &ImportAttribute)
        requires
            old(self).wf(),
        ensures
            final(self).wf(),
            old(self)@.code.len() <= final(self)@.code.len(),
            final(self)@ == old(self)@.emit_import_attribute(*attr),
    {
        proof {
            reveal(State::emit_import_attribute);
        }
        match &attr.key {
            ImportAttributeKey::Identifier(ident) => {
                self.print_str(ident.name.as_str());
            },
            ImportAttributeKey::StringLiteral(lit) => {
                self.emit_string_literal(lit);
            },
        }
        self.print_colon();
        self.print_soft_space();
        self.emit_string_literal(&attr.value);
    }

    pub fn emit_with_clause(&mut self, clause: &WithClause)
        requires
            old(self).wf(),
        ensures
            final(self).wf(),
            old(self)@.code.len() <= final(self)@.code.len(),
            final(self)@ == old(self)@.emit_with_clause(*clause),
    {
        proof {
            reveal(State::emit_with_clause);
            reveal(State::emit_import_attributes);
        }
        self.add_source_mapping(clause.span);
        match clause.keyword {
            WithClauseKeyword::With => self.print_str("with"),
            WithClauseKeyword::Assert => self.print_str("assert"),
        }
        self.print_soft_space();
        self.add_source_mapping(clause.span);
        self.print_ascii_byte(0x7B);
        if clause.with_entries.len() > 0 {
            self.print_soft_space();
            let ghost start = self@;
            let mut i: usize = 0;
            while i < clause.with_entries.len()
                invariant
                    i <= clause.with_entries.len(),
                    self.wf(),
                    old(self)@.code.len() <= self@.code.len(),
                    self@ == start.emit_import_attributes(clause.with_entries@, i as nat),
                decreases clause.with_entries.len() - i,
            {
                proof {
                    reveal(State::emit_import_attributes);
                }
                if i > 0 {
                    self.print_comma();
                    self.print_soft_space();
                }
                self.emit_import_attribute(&clause.with_entries[i]);
                i += 1;
            }
            self.print_soft_space();
        }
        self.print_ascii_byte(0x7D);
    }

    /// An import declaration.
    pub fn emit_import_declaration(&mut self, decl: &ImportDeclaration)
        requires
            old(self).wf(),
        ensures
            final(self).wf(),
            old(self)@.code.len() <= final(self)@.code.len(),
            final(self)@ == old(self)@.emit_import_declaration(*decl),
    {
        proof {
            reveal(State::emit_import_declaration);
            reveal(State::emit_import_specifiers);
            reveal(State::emit_import_specifier);
            reveal(State::emit_import_tail);
        }
        self.print_comments_at(decl.span.start);
        self.add_source_mapping(decl.span);
        self.print_indent();
        self.print_space_before_identifier();
        self.print_str("import");
        if decl.import_kind.is_type() {
            self.print_str(" type");
        }
        match decl.phase {
            Some(phase) => {
                self.print_hard_space();
                self.print_str(phase.as_str());
            },
            None => {},
        }
        match &decl.specifiers {
            Some(specifiers) => {
                if specifiers.len() == 0 {
                    self.print_soft_space();
                    self.print_str("{}");
                    self.print_soft_space();
                    self.print_str("from");
                    self.print_soft_space();
                    self.print_ascii_byte(0x22);
                    self.print_str(decl.source.value.as_str());
                    self.print_ascii_byte(0x22);
                    match &decl.with_clause {
                        Some(clause) => {
                            self.print_hard_space();
                            self.emit_with_clause(clause);
                        },
                        None => {},
                    }
                    self.print_semicolon_after_statement();
                    return ;
                }
                let ghost start = self@;
                let n = specifiers.len();
                let mut in_block = false;
                let mut i: usize = 0;
                while i < n
                    invariant
                        i <= n,
                        n == specifiers@.len(),
                        self.wf(),
                        old(self)@.code.len() <= self@.code.len(),
                        in_block == State::import_in_block(specifiers@, i as nat),
                        self@ == start.emit_import_specifiers(specifiers@, i as nat),
                    decreases n - i,
                {
                    proof {
                        reveal(State::emit_import_specifiers);
                    }
                    proof {
                        reveal(State::emit_import_specifier);
                    }
                    match &specifiers[i] {
                        ImportDeclarationSpecifier::ImportDefaultSpecifier(spec) => {
                            if in_block {
                                self.print_soft_space();
                                self.print_str("},");
                                in_block = false;
                            } else if i == 0 {
                                self.print_hard_space();
                            } else {
                                self.print_comma();
                                self.print_soft_space();
                            }
                            self.emit_binding_identifier(&spec.local);
                            if i == n - 1 {
                                self.print_hard_space();
                            }
                        },
                        ImportDeclarationSpecifier::ImportNamespaceSpecifier(spec) => {
                            if in_block {
                                self.print_soft_space();
                                self.print_str("},");
                                in_block = false;
                            } else if i == 0 {
                                self.print_soft_space();
                            } else {
                                self.print_comma();
                                self.print_soft_space();
                            }
                            self.print_ascii_byte(0x2A);
                            self.print_soft_space();
                            self.print_str("as ");
                            self.emit_binding_identifier(&spec.local);
                            self.print_hard_space();
                        },
                        ImportDeclarationSpecifier::ImportSpecifier(spec) => {
                            if in_block {
                                self.print_comma();
                                self.print_soft_space();
                            } else {
                                if i != 0 {
                                    self.print_comma();
                                }
                                in_block = true;
                                self.print_soft_space();
                                self.print_ascii_byte(0x7B);
                                self.print_soft_space();
                            }
                            if spec.import_kind.is_type() {
                                self.print_str("type ");
                            }
                            self.emit_module_export_name(&spec.imported);
                            let differs = !crate::text::str_equal(
                                self.get_module_export_name(&spec.imported),
                                self.get_binding_identifier_name(&spec.local),
                            );
                            if differs {
                                self.print_str(" as ");
                                self.emit_binding_identifier(&spec.local);
                            }
                        },
                    }
                    i += 1;
                }
                if in_block {
                    self.print_soft_space();
                    self.print_ascii_byte(0x7D);
                    self.print_soft_space();
                }
                self.print_str("from");
            },
            None => {},
        }
        self.print_soft_space();
        self.emit_string_literal(&decl.source);
        match &decl.with_clause {
            Some(clause) => {
                self.print_soft_space();
                self.emit_with_clause(clause);
            },
            None => {},
        }
        self.print_semicolon_after_statement();
    }

    pub fn emit_export_specifier(&mut self, spec: &ExportSpecifier)
        requires
            old(self).wf(),
        ensures
            final(self).wf(),
            old(self)@.code.len() <= final(self)@.code.len(),
            final(self)@ == old(self)@.emit_export_specifier(*spec),
    {
        proof {
            reveal(State::emit_export_specifier);
        }
        if spec.export_kind.is_type() {
            self.print_str("type ");
        }
        self.emit_module_export_name(&spec.local);
        let differs = !crate::text::str_equal(
            self.get_module_export_name(&spec.local),
            self.get_module_export_name(&spec.exported),
        );
        if differs {
            self.print_str(" as ");
            self.emit_module_export_name(&spec.exported);
        }
    }

    pub fn emit_export_specifiers(&mut self, specifiers: &Vec<ExportSpecifier>)
        requires
            old(self).wf(),
        ensures
            final(self).wf(),
            old(self)@.code.len() <= final(self)@.code.len(),
            final(self)@ == old(self)@.emit_export_specifiers(specifiers@, specifiers@.len()),
    {
        proof {
            reveal(State::emit_export_specifiers);
        }
        let mut i: usize = 0;
        while i < specifiers.len()
            invariant
                i <= specifiers.len(),
                self.wf(),
                old(self)@.code.len() <= self@.code.len(),
                self@ == old(self)@.emit_export_specifiers(specifiers@, i as nat),
            decreases specifiers.len() - i,
        {
            proof {
                reveal(State::emit_export_specifiers);
            }
            if i > 0 {
                self.print_comma();
                self.print_soft_space();
            }
            self.emit_export_specifier(&specifiers[i]);
            i += 1;
        }
    }

    pub fn emit_export_all_declaration(&mut self, decl: &ExportAllDeclaration)
        requires
            old(self).wf(),
        ensures
            final(self).wf(),
            old(self)@.code.len() <= final(self)@.code.len(),
            final(self)@ == old(self)@.emit_export_all_declaration(*decl),
    {
        proof {
            reveal(State::emit_export_all_declaration);
        }
        self.print_comments_at(decl.span.start);
        self.add_source_mapping(decl.span);
        self.print_indent();
        self.print_str("export");
        if decl.export_kind.is_type() {
            self.print_str(" type ");
        } else {
            self.print_soft_space();
        }
        self.print_ascii_byte(0x2A);
        match &decl.exported {
            Some(exported) => {
                self.print_soft_space();
                self.print_str("as ");
                self.emit_module_export_name(exported);
                self.print_hard_space();
            },
            None => {
                self.print_soft_space();
            },
        }
        self.print_str("from");
        self.print_soft_space();
        self.emit_string_literal(&decl.source);
        match &decl.with_clause {
            Some(clause) => {
                self.print_hard_space();
                self.emit_with_clause(clause);
            },
            None => {},
        }
        self.print_semicolon_after_statement();
    }

    pub fn emit_empty_statement(&mut self, stmt: &EmptyStatement)
        requires
            old(self).wf(),
        ensures
            final(self).wf(),
            old(self)@.code.len() <= final(self)@.code.len(),
            final(self)@ == old(self)@.emit_empty_statement(*stmt),
    {
        proof {
            reveal(State::emit_empty_statement);
        }
        self.print_comments_at(stmt.span.start);
        self.add_source_mapping(stmt.span);
        self.print_indent();
        self.print_semicolon();
        self.print_soft_newline();
    }

    pub fn emit_debugger_statement(&mut self, stmt: &DebuggerStatement)
        requires
            old(self).wf(),
        ensures
            final(self).wf(),
            old(self)@.code.len() <= final(self)@.code.len(),
            final(self)@ == old(self)@.emit_debugger_statement(*stmt),
    {
        proof {
            reveal(State::emit_debugger_statement);
        }
        self.print_comments_at(stmt.span.start);
        self.add_source_mapping(stmt.span);
        self.print_indent();
        self.print_space_before_identifier();
        self.print_str("debugger");
        self.print_semicolon_after_statement();
    }

    pub fn emit_break_statement(&mut self, stmt: &BreakStatement)
        requires
            old(self).wf(),
        ensures
            final(self).wf(),
            old(self)@.code.len() <= final(self)@.code.len(),
            final(self)@ == old(self)@.emit_break_statement(*stmt),
    {
        proof {
            reveal(State::emit_break_statement);
        }
        self.print_comments_at(stmt.span.start);
        self.add_source_mapping(stmt.span);
        self.print_indent();
        self.print_space_before_identifier();
        self.print_str("break");
        match &stmt.label {
            Some(label) => {
                self.print_soft_space();
                self.emit_label_identifier(label);
            },
            None => {},
        }
        self.print_semicolon_after_statement();
    }

    pub fn emit_continue_statement(&mut self, stmt: &ContinueStatement)
        requires
            old(self).wf(),
        ensures
            final(self).wf(),
            old(self)@.code.len() <= final(self)@.code.len(),
            final(self)@ == old(self)@.emit_continue_statement(*stmt),
    {
        proof {
            reveal(State::emit_continue_statement);
        }
        self.print_comments_at(stmt.span.start);
        self.add_source_mapping(stmt.span);
        self.print_indent();
        self.print_space_before_identifier();
        self.print_str("continue");
        match &stmt.label {
            Some(label) => {
                self.print_soft_space();
                self.emit_label_identifier(label);
            },
            None => {},
        }
        self.print_semicolon_after_statement();
    }
}

/// The quote for a directive: see `directive_quote_from`.
pub fn directive_quote(text: &str, default: crate::string::Quote) -> (quote: crate::string::Quote)
    ensures
        quote == directive_quote_from(text.spec_bytes(), 0, default),
{
    let bytes = text.as_bytes();
    let n = bytes.len();
    let mut i: usize = 0;
    while i < n
        invariant
            i <= n,
            n == bytes@.len(),
            bytes@ == text.spec_bytes(),
            directive_quote_from(bytes@, i as int, default) == directive_quote_from(
                bytes@,
                0,
                default,
            ),
        decreases n - i,
    {
        proof {
            reveal_with_fuel(directive_quote_from, 2);
        }
        let b = bytes[i];
        if b == 0x22 {
            return crate::string::Quote::Single;
        } else if b == 0x27 {
            return crate::string::Quote::Double;
        } else if b == 0x5C {
            if n - i >= 2 {
                i = i + 2;
            } else {
                i = n;
            }
        } else {
            i = i + 1;
        }
    }
    default
}

} // verus!
