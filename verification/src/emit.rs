//! The printing of the nodes that hold other nodes: expressions, statements, functions
//! and classes.

use crate::ast::{
    AccessorProperty, Argument, ArrayAssignmentTarget, ArrayExpression, ArrayExpressionElement,
    ArrayPattern, ArrowFunctionExpression, AssignmentExpression, AssignmentPattern,
    AssignmentTarget, AssignmentTargetMaybeDefault, AssignmentTargetProperty,
    AssignmentTargetPropertyIdentifier, AssignmentTargetPropertyProperty, AssignmentTargetRest,
    AssignmentTargetWithDefault, AwaitExpression, BigIntLiteral, BinaryExpression,
    BindingIdentifier, BindingPattern, BindingPatternKind, BindingProperty, BindingRestElement,
    BlockStatement, BooleanLiteral, BreakStatement, CallExpression, CatchClause, ChainElement,
    ChainExpression, Class, ClassBody, ClassElement, ComputedMemberExpression,
    ConditionalExpression, ContinueStatement, DebuggerStatement, Declaration, Decorator,
    DoWhileStatement, EmptyStatement, ExportAllDeclaration, ExportDefaultDeclaration,
    ExportDefaultDeclarationKind, ExportNamedDeclaration, Expression, ExpressionStatement,
    ForInStatement, FormalParameter, FormalParameters, ForOfStatement, ForStatement,
    ForStatementInit, ForStatementLeft, Function, FunctionBody, IdentifierReference, IfStatement,
    ImportDeclaration, ImportExpression, LabeledStatement, LogicalExpression, MetaProperty,
    MethodDefinition, MethodDefinitionKind, NewExpression, NullLiteral, NumberValue, NumericLiteral,
    ObjectAssignmentTarget, ObjectExpression, ObjectPattern, ObjectProperty, ObjectPropertyKind,
    ParenthesizedExpression, PrivateFieldExpression, PrivateIdentifier, PrivateInExpression,
    Program, PropertyDefinition, PropertyKey, PropertyKind, RegExpLiteral, ReturnStatement,
    SequenceExpression, SimpleAssignmentTarget, SpreadElement, Statement, StaticBlock,
    StaticMemberExpression, StringLiteral, Super, SwitchCase, SwitchStatement,
    TaggedTemplateExpression, TemplateLiteral, TemplatePart, ThisExpression, ThrowStatement,
    TryStatement, UnaryExpression, UpdateExpression, V8IntrinsicExpression, VariableDeclaration,
    VariableDeclarationKind, VariableDeclarator, WhileStatement, WithStatement, YieldExpression,
};
use crate::codegen::Codegen;
use crate::comment::{Comment, Span};
use crate::context::Context;
use crate::operator::{
    BinaryOperator, LogicalOperator, Operator, Precedence, UnaryOperator, UpdateOperator,
};
use crate::state::State;
use crate::typescript::has_parameters;
use vstd::prelude::*;
use vstd::string::StringSliceAdditionalSpecFns;
use vstd::utf8::*;

use crate::gen::{
    arrow_params_bare, comments_all_inline, decorator_needs_wrap, is_and_or, is_string_statement,
    key_needs_brackets, OperandLevels, spec_binary_levels, spec_logical_levels, spec_operand_levels,
    target_identifier, wrap_to_avoid_ambiguous_else,
};


verus! {

/// No comment of the block stands on a line of its own.
fn all_inline(comments: &Vec<Comment>) -> (b: bool)
    ensures
        b == comments_all_inline(comments@),
{
    let mut i: usize = 0;
    while i < comments.len()
        invariant
            i <= comments.len(),
            forall|j: int| 0 <= j < i ==> !(#[trigger] comments@[j]).newline_before && !comments@[j].newline_after,
        decreases comments.len() - i,
    {
        if comments[i].newline_before || comments[i].newline_after {
            return false;
        }
        i += 1;
    }
    true
}

/// The levels for the operands of an operator: see `spec_operand_levels`.
fn operand_levels(own: Precedence, lower: Precedence) -> (levels: OperandLevels)
    ensures
        levels == spec_operand_levels(own, lower),
{
    OperandLevels {
        left: if own.is_right_associative() {
            own
        } else {
            lower
        },
        right: if own.is_left_associative() {
            own
        } else {
            lower
        },
    }
}

fn is_and_or_expression(expr: &Expression) -> (b: bool)
    ensures
        b == is_and_or(*expr),
{
    match expr {
        Expression::LogicalExpression(e) => matches!(
            e.operator,
            LogicalOperator::And | LogicalOperator::Or
        ),
        _ => false,
    }
}

pub fn binary_levels(expr: &BinaryExpression) -> (levels: OperandLevels)
    ensures
        levels == spec_binary_levels(*expr),
{
    let levels = operand_levels(expr.operator.precedence(), expr.operator.lower_precedence());
    if matches!(expr.operator, BinaryOperator::Exponential) && matches!(
        expr.left,
        Expression::UnaryExpression(_)
    ) {
        OperandLevels { left: Precedence::Call, right: levels.right }
    } else {
        levels
    }
}

pub fn logical_levels(expr: &LogicalExpression) -> (levels: OperandLevels)
    ensures
        levels == spec_logical_levels(*expr),
{
    let levels = operand_levels(expr.operator.precedence(), expr.operator.lower_precedence());
    if matches!(expr.operator, LogicalOperator::Coalesce) {
        OperandLevels {
            left: if is_and_or_expression(&expr.left) {
                Precedence::Prefix
            } else {
                levels.left
            },
            right: if is_and_or_expression(&expr.right) {
                Precedence::Prefix
            } else {
                levels.right
            },
        }
    } else {
        levels
    }
}

fn get_target_identifier(target: &AssignmentTargetMaybeDefault) -> (ident: Option<
    &IdentifierReference,
>)
    ensures
        match ident {
            Some(id) => target_identifier(*target) == Some(*id),
            None => target_identifier(*target) is None,
        },
{
    match target {
        AssignmentTargetMaybeDefault::Target(
            AssignmentTarget::Simple(SimpleAssignmentTarget::AssignmentTargetIdentifier(id)),
        ) => Some(id),
        AssignmentTargetMaybeDefault::AssignmentTargetWithDefault(with_default) => match &with_default.binding {
            AssignmentTarget::Simple(SimpleAssignmentTarget::AssignmentTargetIdentifier(id)) => Some(
                id,
            ),
            _ => None,
        },
        _ => None,
    }
}

fn key_needs_brackets_exec(key: &PropertyKey) -> (b: bool)
    ensures
        b == key_needs_brackets(*key),
{
    match key {
        PropertyKey::Expression(Expression::NumericLiteral(n)) => n.negative || matches!(
            n.value,
            NumberValue::Infinity
        ),
        _ => false,
    }
}

impl Codegen {
    pub fn any_argument_has_comment(&self, args: &Vec<Argument>) -> (b: bool)
        requires
            self.wf(),
        ensures
            b == self@.any_argument_has_comment(args@),
    {
        let mut i: usize = 0;
        while i < args.len()
            invariant
                i <= args.len(),
                self.wf(),
                forall|j: int| 0 <= j < i ==> !self@.comments.contains_key(#[trigger] args@[j].spec_span().start),
            decreases args.len() - i,
        {
            if self.has_comment(args[i].span().start) {
                return true;
            }
            i += 1;
        }
        false
    }

    pub fn property_is_shorthand(&self, prop: &ObjectProperty) -> (b: bool)
        ensures
            b == self@.property_is_shorthand(*prop),
    {
        match &prop.key {
            PropertyKey::StaticIdentifier(key) => {
                if crate::text::str_equal(key.name.as_str(), "__proto__") {
                    prop.shorthand
                } else {
                    match prop.value.without_parentheses() {
                        Expression::Identifier(ident) => crate::text::str_equal(
                            key.name.as_str(),
                            self.get_identifier_reference_name(ident),
                        ),
                        _ => false,
                    }
                }
            },
            _ => false,
        }
    }

    pub fn binding_is_shorthand(&self, property: &BindingProperty) -> (b: bool)
        ensures
            b == self@.binding_is_shorthand(*property),
    {
        match &property.key {
            PropertyKey::StaticIdentifier(key) => match &property.value.kind {
                BindingPatternKind::BindingIdentifier(ident) => crate::text::str_equal(
                    key.name.as_str(),
                    self.get_binding_identifier_name(ident),
                ),
                BindingPatternKind::AssignmentPattern(pattern) => match &pattern.left.kind {
                    BindingPatternKind::BindingIdentifier(ident) => crate::text::str_equal(
                        key.name.as_str(),
                        self.get_binding_identifier_name(ident),
                    ),
                    _ => false,
                },
                _ => false,
            },
            _ => false,
        }
    }

    /// Prints an expression at the loosest level and without restrictions.
    #[verifier::spinoff_prover]
    pub fn print_expression(&mut self, expr: &Expression)
        requires
            old(self).wf(),
        ensures
            final(self).wf(),
            old(self)@.code.len() <= final(self)@.code.len(),
            final(self)@ == old(self)@.print_expression(*expr),
        decreases expr, 2nat,
    {
        proof {
            reveal(State::print_expression);
        }
        self.emit_expression(expr, Precedence::Lowest, Context::empty());
    }

    /// Prints an expression that stands where the level `precedence` is asked for.
    #[verifier::spinoff_prover]
    pub fn emit_expression(&mut self, expr: &Expression, precedence: Precedence, ctx: Context)
        requires
            old(self).wf(),
        ensures
            final(self).wf(),
            old(self)@.code.len() <= final(self)@.code.len(),
            final(self)@ == old(self)@.emit_expression(*expr, precedence, ctx),
        decreases expr, 1nat,
    {
        proof {
            reveal(State::emit_expression);
        }
        match expr {
            Expression::Identifier(_)
            | Expression::NumericLiteral(_)
            | Expression::StringLiteral(_)
            | Expression::BooleanLiteral(_)
            | Expression::NullLiteral(_)
            | Expression::RegExpLiteral(_)
            | Expression::BigIntLiteral(_)
            | Expression::TemplateLiteral(_)
            | Expression::ThisExpression(_)
            | Expression::Super(_)
            | Expression::MetaProperty(_) => self.emit_primary_expression(expr, precedence, ctx),
            Expression::BinaryExpression(_)
            | Expression::LogicalExpression(_)
            | Expression::AssignmentExpression(_)
            | Expression::UpdateExpression(_)
            | Expression::UnaryExpression(_)
            | Expression::ConditionalExpression(_)
            | Expression::SequenceExpression(_)
            | Expression::AwaitExpression(_)
            | Expression::YieldExpression(_)
            | Expression::PrivateInExpression(_) => self.emit_operator_expression(
                expr,
                precedence,
                ctx,
            ),
            Expression::StaticMemberExpression(_)
            | Expression::ComputedMemberExpression(_)
            | Expression::PrivateFieldExpression(_)
            | Expression::CallExpression(_)
            | Expression::NewExpression(_)
            | Expression::ChainExpression(_)
            | Expression::ImportExpression(_)
            | Expression::TaggedTemplateExpression(_)
            | Expression::V8IntrinsicExpression(_) => self.emit_access_expression(
                expr,
                precedence,
                ctx,
            ),
            Expression::ObjectExpression(_)
            | Expression::ArrayExpression(_)
            | Expression::ArrowFunctionExpression(_)
            | Expression::FunctionExpression(_)
            | Expression::ClassExpression(_)
            | Expression::ParenthesizedExpression(_) => self.emit_compound_expression(
                expr,
                precedence,
                ctx,
            ),
            Expression::JSXElement(_)
            | Expression::JSXFragment(_)
            | Expression::TSAsExpression(_)
            | Expression::TSSatisfiesExpression(_)
            | Expression::TSTypeAssertion(_)
            | Expression::TSNonNullExpression(_)
            | Expression::TSInstantiationExpression(_) => self.emit_typed_expression(
                expr,
                precedence,
                ctx,
            ),
        }
    }

    #[verifier::spinoff_prover]
    pub fn emit_primary_expression(&mut self, expr: &Expression, precedence: Precedence, ctx: Context)
        requires
            old(self).wf(),
        ensures
            final(self).wf(),
            old(self)@.code.len() <= final(self)@.code.len(),
            final(self)@ == old(self)@.emit_primary_expression(*expr, precedence, ctx),
        decreases expr, 0nat,
    {
        proof {
            reveal(State::emit_primary_expression);
        }
        match expr {
            Expression::Identifier(ident) => self.emit_identifier_reference(ident),
            Expression::NumericLiteral(lit) => self.emit_numeric_literal(lit, precedence, ctx),
            Expression::StringLiteral(lit) => self.emit_string_literal(lit),
            Expression::BooleanLiteral(lit) => self.emit_boolean_literal(lit),
            Expression::NullLiteral(lit) => self.emit_null_literal(lit),
            Expression::RegExpLiteral(lit) => self.emit_reg_exp_literal(lit),
            Expression::BigIntLiteral(lit) => self.emit_bigint_literal(lit, precedence),
            Expression::TemplateLiteral(e) => self.emit_template_literal(e),
            Expression::ThisExpression(e) => self.emit_this_expression(e),
            Expression::Super(e) => self.emit_super(e),
            Expression::MetaProperty(e) => self.emit_meta_property(e),
            _ => {},
        }
    }

    #[verifier::spinoff_prover]
    pub fn emit_operator_expression(&mut self, expr: &Expression, precedence: Precedence, ctx: Context)
        requires
            old(self).wf(),
        ensures
            final(self).wf(),
            old(self)@.code.len() <= final(self)@.code.len(),
            final(self)@ == old(self)@.emit_operator_expression(*expr, precedence, ctx),
        decreases expr, 0nat,
    {
        proof {
            reveal(State::emit_operator_expression);
        }
        match expr {
            Expression::BinaryExpression(e) => self.emit_binary_expression(e, precedence, ctx),
            Expression::LogicalExpression(e) => self.emit_logical_expression(e, precedence, ctx),
            Expression::AssignmentExpression(e) => self.emit_assignment_expression(
                e,
                precedence,
                ctx,
            ),
            Expression::UpdateExpression(e) => self.emit_update_expression(e, precedence, ctx),
            Expression::UnaryExpression(e) => self.emit_unary_expression(e, precedence, ctx),
            Expression::ConditionalExpression(e) => self.emit_conditional_expression(
                e,
                precedence,
                ctx,
            ),
            Expression::SequenceExpression(e) => self.emit_sequence_expression(e, precedence, ctx),
            Expression::AwaitExpression(e) => self.emit_await_expression(e, precedence, ctx),
            Expression::YieldExpression(e) => self.emit_yield_expression(e, precedence),
            Expression::PrivateInExpression(e) => self.emit_private_in_expression(e, precedence),
            _ => {},
        }
    }

    #[verifier::spinoff_prover]
    pub fn emit_access_expression(&mut self, expr: &Expression, precedence: Precedence, ctx: Context)
        requires
            old(self).wf(),
        ensures
            final(self).wf(),
            old(self)@.code.len() <= final(self)@.code.len(),
            final(self)@ == old(self)@.emit_access_expression(*expr, precedence, ctx),
        decreases expr, 0nat,
    {
        proof {
            reveal(State::emit_access_expression);
        }
        match expr {
            Expression::StaticMemberExpression(e) => self.emit_static_member_expression(e, ctx),
            Expression::ComputedMemberExpression(e) => self.emit_computed_member_expression(e, ctx),
            Expression::PrivateFieldExpression(e) => self.emit_private_field_expression(e, ctx),
            Expression::CallExpression(e) => self.emit_call_expression(e, precedence, ctx),
            Expression::NewExpression(e) => self.emit_new_expression(e, precedence, ctx),
            Expression::ChainExpression(e) => self.emit_chain_expression(e, precedence, ctx),
            Expression::ImportExpression(e) => self.emit_import_expression(e, precedence, ctx),
            Expression::TaggedTemplateExpression(e) => self.emit_tagged_template_expression(e, ctx),
            Expression::V8IntrinsicExpression(e) => self.emit_v8_intrinsic_expression(
                e,
                precedence,
                ctx,
            ),
            _ => {},
        }
    }

    #[verifier::spinoff_prover]
    pub fn emit_compound_expression(&mut self, expr: &Expression, precedence: Precedence, ctx: Context)
        requires
            old(self).wf(),
        ensures
            final(self).wf(),
            old(self)@.code.len() <= final(self)@.code.len(),
            final(self)@ == old(self)@.emit_compound_expression(*expr, precedence, ctx),
        decreases expr, 0nat,
    {
        proof {
            reveal(State::emit_compound_expression);
        }
        match expr {
            Expression::ObjectExpression(e) => self.emit_object_expression(e, ctx),
            Expression::ArrayExpression(e) => self.emit_array_expression(e),
            Expression::ArrowFunctionExpression(e) => {
                if e.pure && self.print_annotation_comment() {
                    self.print_str("/* @__NO_SIDE_EFFECTS__ */ ");
                }
                self.emit_arrow_function_expression(e, precedence, ctx);
            },
            Expression::FunctionExpression(e) => {
                if e.pure && self.print_annotation_comment() {
                    self.print_str("/* @__NO_SIDE_EFFECTS__ */ ");
                }
                self.emit_function(e, ctx);
            },
            Expression::ClassExpression(e) => self.emit_class(e, ctx),
            Expression::ParenthesizedExpression(e) => self.emit_parenthesized_expression(
                e,
                precedence,
                ctx,
            ),
            _ => {},
        }
    }

    #[verifier::spinoff_prover]
    pub fn emit_parenthesized_expression(
        &mut self,
        expr: &ParenthesizedExpression,
        precedence: Precedence,
        ctx: Context,
    )
        requires
            old(self).wf(),
        ensures
            final(self).wf(),
            old(self)@.code.len() <= final(self)@.code.len(),
            final(self)@ == old(self)@.emit_parenthesized_expression(*expr, precedence, ctx),
        decreases expr, 0nat,
    {
        proof {
            reveal(State::emit_parenthesized_expression);
        }
        self.emit_expression(&expr.expression, precedence, ctx);
    }

    #[verifier::spinoff_prover]
    pub fn emit_computed_member_expression(&mut self, expr: &ComputedMemberExpression, ctx: Context)
        requires
            old(self).wf(),
        ensures
            final(self).wf(),
            old(self)@.code.len() <= final(self)@.code.len(),
            final(self)@ == old(self)@.emit_computed_member_expression(*expr, ctx),
        decreases expr, 0nat,
    {
        proof {
            reveal(State::emit_computed_member_expression);
        }
        let wrap = match expr.object.without_parentheses() {
            Expression::Identifier(ident) => crate::text::str_equal(ident.name.as_str(), "let"),
            _ => false,
        };
        self.wrap_open(wrap);
        self.emit_expression(&expr.object, Precedence::Postfix, ctx.pass_forbid_call());
        self.wrap_close(wrap);
        if expr.optional {
            self.print_str("?.");
        }
        self.print_ascii_byte(0x5B);
        self.emit_expression(&expr.expression, Precedence::Lowest, Context::empty());
        self.print_ascii_byte(0x5D);
    }

    #[verifier::spinoff_prover]
    pub fn emit_static_member_expression(&mut self, expr: &StaticMemberExpression, ctx: Context)
        requires
            old(self).wf(),
        ensures
            final(self).wf(),
            old(self)@.code.len() <= final(self)@.code.len(),
            final(self)@ == old(self)@.emit_static_member_expression(*expr, ctx),
        decreases expr, 0nat,
    {
        proof {
            reveal(State::emit_static_member_expression);
        }
        self.emit_expression(&expr.object, Precedence::Postfix, ctx.pass_forbid_call());
        if expr.optional {
            self.print_ascii_byte(0x3F);
        } else if self.at_need_space_before_dot() {
            self.print_hard_space();
        }
        self.print_ascii_byte(0x2E);
        self.emit_identifier_name(&expr.property);
    }

    #[verifier::spinoff_prover]
    pub fn emit_private_field_expression(&mut self, expr: &PrivateFieldExpression, ctx: Context)
        requires
            old(self).wf(),
        ensures
            final(self).wf(),
            old(self)@.code.len() <= final(self)@.code.len(),
            final(self)@ == old(self)@.emit_private_field_expression(*expr, ctx),
        decreases expr, 0nat,
    {
        proof {
            reveal(State::emit_private_field_expression);
        }
        self.emit_expression(&expr.object, Precedence::Postfix, ctx.pass_forbid_call());
        if expr.optional {
            self.print_str("?");
        }
        self.print_ascii_byte(0x2E);
        self.emit_private_identifier(&expr.field);
    }

    #[verifier::spinoff_prover]
    pub fn emit_yield_expression(&mut self, expr: &YieldExpression, precedence: Precedence)
        requires
            old(self).wf(),
        ensures
            final(self).wf(),
            old(self)@.code.len() <= final(self)@.code.len(),
            final(self)@ == old(self)@.emit_yield_expression(*expr, precedence),
        decreases expr, 0nat,
    {
        proof {
            reveal(State::emit_yield_expression);
        }
        let wrap = precedence.at_least(Precedence::Assign);
        self.wrap_open(wrap);
        self.print_space_before_identifier();
        self.add_source_mapping(expr.span);
        self.print_str("yield");
        if expr.delegate {
            self.print_ascii_byte(0x2A);
        }
        match &expr.argument {
            Some(argument) => {
                self.print_soft_space();
                self.emit_expression(argument, Precedence::Yield, Context::empty());
            },
            None => {},
        }
        self.wrap_close(wrap);
    }

    #[verifier::spinoff_prover]
    pub fn emit_update_expression(&mut self, expr: &UpdateExpression, precedence: Precedence, ctx: Context)
        requires
            old(self).wf(),
        ensures
            final(self).wf(),
            old(self)@.code.len() <= final(self)@.code.len(),
            final(self)@ == old(self)@.emit_update_expression(*expr, precedence, ctx),
        decreases expr, 0nat,
    {
        proof {
            reveal(State::emit_update_expression);
        }
        let own = if expr.prefix {
            Precedence::Prefix
        } else {
            Precedence::Postfix
        };
        let wrap = precedence.at_least(own);
        let op = Operator::Update(expr.operator);
        self.wrap_open(wrap);
        self.print_space_before_operator(op);
        self.add_source_mapping(expr.span);
        if expr.prefix {
            self.print_str(expr.operator.as_str());
            self.record_operator(op);
            self.emit_simple_assignment_target(&expr.argument, Precedence::Prefix, ctx);
        } else {
            self.emit_simple_assignment_target(&expr.argument, Precedence::Postfix, ctx);
            self.print_str(expr.operator.as_str());
            self.record_operator(op);
        }
        self.wrap_close(wrap);
    }

    #[verifier::spinoff_prover]
    pub fn emit_unary_expression(&mut self, expr: &UnaryExpression, precedence: Precedence, ctx: Context)
        requires
            old(self).wf(),
        ensures
            final(self).wf(),
            old(self)@.code.len() <= final(self)@.code.len(),
            final(self)@ == old(self)@.emit_unary_expression(*expr, precedence, ctx),
        decreases expr, 0nat,
    {
        proof {
            reveal(State::emit_unary_expression);
        }
        let wrap = precedence.at_least(Precedence::Prefix);
        self.wrap_open(wrap);
        if expr.operator.is_keyword() {
            self.print_space_before_identifier();
            self.add_source_mapping(expr.span);
            self.print_str(expr.operator.as_str());
            self.print_soft_space();
        } else {
            self.print_space_before_operator(Operator::Unary(expr.operator));
            self.add_source_mapping(expr.span);
            self.print_str(expr.operator.as_str());
            self.record_operator(Operator::Unary(expr.operator));
        }
        let is_delete_infinity = matches!(expr.operator, UnaryOperator::Delete) && !self.minify()
            && match &expr.argument {
            Expression::NumericLiteral(lit) => !lit.negative && matches!(
                lit.value,
                NumberValue::Infinity
            ),
            _ => false,
        };
        if is_delete_infinity {
            self.print_str("(0,");
            self.print_soft_space();
        }
        self.emit_expression(&expr.argument, Precedence::Exponentiation, ctx);
        if is_delete_infinity {
            self.print_ascii_byte(0x29);
        }
        self.wrap_close(wrap);
    }

    pub fn print_binary_operator(&mut self, operator: BinaryOperator)
        requires
            old(self).wf(),
        ensures
            final(self).wf(),
            old(self)@.code.len() <= final(self)@.code.len(),
            final(self)@ == old(self)@.print_binary_operator(operator),
    {
        proof {
            reveal(State::print_binary_operator);
        }
        if operator.is_keyword() {
            self.print_space_before_identifier();
            self.print_str(operator.as_str());
        } else {
            self.print_space_before_operator(Operator::Binary(operator));
            self.print_str(operator.as_str());
            self.record_operator(Operator::Binary(operator));
        }
    }

    #[verifier::spinoff_prover]
    pub fn emit_binary_expression(&mut self, expr: &BinaryExpression, precedence: Precedence, ctx: Context)
        requires
            old(self).wf(),
        ensures
            final(self).wf(),
            old(self)@.code.len() <= final(self)@.code.len(),
            final(self)@ == old(self)@.emit_binary_expression(*expr, precedence, ctx),
        decreases expr, 0nat,
    {
        proof {
            reveal(State::emit_binary_expression);
        }
        let wrap = precedence.at_least(expr.operator.precedence()) || (matches!(
            expr.operator,
            BinaryOperator::In
        ) && ctx.forbid_in);
        let inner = if wrap {
            ctx.and_forbid_in(false)
        } else {
            ctx
        };
        let levels = binary_levels(expr);
        self.wrap_open(wrap);
        self.emit_left_spine(&expr.left, levels.left, inner);
        self.print_soft_space();
        self.print_binary_operator(expr.operator);
        self.print_soft_space();
        self.emit_expression(&expr.right, levels.right, inner.pass_forbid_in());
        self.wrap_close(wrap);
    }

    #[verifier::spinoff_prover]
    pub fn emit_logical_expression(&mut self, expr: &LogicalExpression, precedence: Precedence, ctx: Context)
        requires
            old(self).wf(),
        ensures
            final(self).wf(),
            old(self)@.code.len() <= final(self)@.code.len(),
            final(self)@ == old(self)@.emit_logical_expression(*expr, precedence, ctx),
        decreases expr, 0nat,
    {
        proof {
            reveal(State::emit_logical_expression);
        }
        let wrap = precedence.at_least(expr.operator.precedence());
        let inner = if wrap {
            ctx.and_forbid_in(false)
        } else {
            ctx
        };
        let levels = logical_levels(expr);
        self.wrap_open(wrap);
        self.emit_left_spine(&expr.left, levels.left, inner);
        self.print_soft_space();
        self.print_str(expr.operator.as_str());
        self.print_soft_space();
        self.emit_expression(&expr.right, levels.right, inner.pass_forbid_in());
        self.wrap_close(wrap);
    }

    #[verifier::spinoff_prover]
    pub fn emit_private_in_expression(&mut self, expr: &PrivateInExpression, precedence: Precedence)
        requires
            old(self).wf(),
        ensures
            final(self).wf(),
            old(self)@.code.len() <= final(self)@.code.len(),
            final(self)@ == old(self)@.emit_private_in_expression(*expr, precedence),
        decreases expr, 0nat,
    {
        proof {
            reveal(State::emit_private_in_expression);
        }
        let wrap = precedence.at_least(Precedence::Compare);
        self.wrap_open(wrap);
        self.add_source_mapping(expr.span);
        self.emit_private_identifier(&expr.left);
        self.print_str(" in ");
        self.emit_expression(&expr.right, Precedence::Equals, Context::only_forbid_in());
        self.wrap_close(wrap);
    }

    #[verifier::spinoff_prover]
    pub fn emit_conditional_expression(
        &mut self,
        expr: &ConditionalExpression,
        precedence: Precedence,
        ctx: Context,
    )
        requires
            old(self).wf(),
        ensures
            final(self).wf(),
            old(self)@.code.len() <= final(self)@.code.len(),
            final(self)@ == old(self)@.emit_conditional_expression(*expr, precedence, ctx),
        decreases expr, 0nat,
    {
        proof {
            reveal(State::emit_conditional_expression);
        }
        let wrap = precedence.at_least(Precedence::Conditional);
        let inner = if wrap {
            ctx.and_forbid_in(false)
        } else {
            ctx
        };
        self.wrap_open(wrap);
        self.emit_expression(&expr.test, Precedence::Conditional, inner.pass_forbid_in());
        self.print_soft_space();
        self.print_ascii_byte(0x3F);
        self.print_soft_space();
        self.emit_expression(&expr.consequent, Precedence::Yield, Context::empty());
        self.print_soft_space();
        self.print_colon();
        self.print_soft_space();
        self.emit_expression(&expr.alternate, Precedence::Yield, inner.pass_forbid_in());
        self.wrap_close(wrap);
    }

    #[verifier::spinoff_prover]
    pub fn emit_assignment_expression(
        &mut self,
        expr: &AssignmentExpression,
        precedence: Precedence,
        ctx: Context,
    )
        requires
            old(self).wf(),
        ensures
            final(self).wf(),
            old(self)@.code.len() <= final(self)@.code.len(),
            final(self)@ == old(self)@.emit_assignment_expression(*expr, precedence, ctx),
        decreases expr, 0nat,
    {
        proof {
            reveal(State::emit_assignment_expression);
        }
        let wrap = ((self.at_start_of_stmt() || self.at_start_of_arrow_expr()) && matches!(
            expr.left,
            AssignmentTarget::ObjectAssignmentTarget(_)
        )) || precedence.at_least(Precedence::Assign);
        self.wrap_open(wrap);
        self.add_source_mapping(expr.span);
        self.emit_assignment_target(&expr.left, ctx);
        self.print_soft_space();
        self.print_str(expr.operator.as_str());
        self.print_soft_space();
        self.emit_expression(&expr.right, Precedence::Comma, ctx);
        self.wrap_close(wrap);
    }

    #[verifier::spinoff_prover]
    pub fn emit_assignment_target(&mut self, target: &AssignmentTarget, ctx: Context)
        requires
            old(self).wf(),
        ensures
            final(self).wf(),
            old(self)@.code.len() <= final(self)@.code.len(),
            final(self)@ == old(self)@.emit_assignment_target(*target, ctx),
        decreases target, 0nat,
    {
        proof {
            reveal(State::emit_assignment_target);
        }
        match target {
            AssignmentTarget::Simple(simple) => self.emit_simple_assignment_target(
                simple,
                Precedence::Comma,
                Context::empty(),
            ),
            AssignmentTarget::ArrayAssignmentTarget(t) => self.emit_array_assignment_target(t, ctx),
            AssignmentTarget::ObjectAssignmentTarget(t) => self.emit_object_assignment_target(
                t,
                ctx,
            ),
        }
    }

    #[verifier::spinoff_prover]
    pub fn emit_simple_assignment_target(
        &mut self,
        target: &SimpleAssignmentTarget,
        precedence: Precedence,
        ctx: Context,
    )
        requires
            old(self).wf(),
        ensures
            final(self).wf(),
            old(self)@.code.len() <= final(self)@.code.len(),
            final(self)@ == old(self)@.emit_simple_assignment_target(*target, precedence, ctx),
        decreases target, 0nat,
    {
        proof {
            reveal(State::emit_simple_assignment_target);
        }
        match target {
            SimpleAssignmentTarget::AssignmentTargetIdentifier(ident) => self.emit_identifier_reference(
                ident,
            ),
            SimpleAssignmentTarget::ComputedMemberExpression(e) => self.emit_computed_member_expression(
                e,
                ctx,
            ),
            SimpleAssignmentTarget::StaticMemberExpression(e) => self.emit_static_member_expression(
                e,
                ctx,
            ),
            SimpleAssignmentTarget::PrivateFieldExpression(e) => self.emit_private_field_expression(
                e,
                ctx,
            ),
            SimpleAssignmentTarget::TSAsExpression(e) => self.emit_ts_as_expression(
                e,
                precedence,
                ctx,
            ),
            SimpleAssignmentTarget::TSSatisfiesExpression(e) => self.emit_ts_satisfies_expression(
                e,
                precedence,
                ctx,
            ),
            SimpleAssignmentTarget::TSNonNullExpression(e) => self.emit_ts_non_null_expression(
                e,
                precedence,
                ctx,
            ),
            SimpleAssignmentTarget::TSTypeAssertion(e) => self.emit_ts_type_assertion(
                e,
                precedence,
                ctx,
            ),
        }
    }

    #[verifier::spinoff_prover]
    pub fn emit_array_target_elements(
        &mut self,
        elements: &Vec<Option<AssignmentTargetMaybeDefault>>,
        has_rest: bool,
        ctx: Context,
    )
        requires
            old(self).wf(),
        ensures
            final(self).wf(),
            old(self)@.code.len() <= final(self)@.code.len(),
            final(self)@ == old(self)@.emit_array_target_elements(
                elements@,
                elements@.len(),
                has_rest,
                ctx,
            ),
        decreases elements@, elements@.len(),
    {
        proof {
            reveal(State::emit_array_target_elements);
        }
        let n = elements.len();
        let mut i: usize = 0;
        while i < n
            invariant
                i <= n,
                n == elements@.len(),
                self.wf(),
                old(self)@.code.len() <= self@.code.len(),
                self@ == old(self)@.emit_array_target_elements(elements@, i as nat, has_rest, ctx),
            decreases n - i,
        {
            proof {
                reveal(State::emit_array_target_elements);
            }
            if i > 0 {
                self.print_comma();
                self.print_soft_space();
            }
            match &elements[i] {
                Some(item) => {
                    self.emit_assignment_target_maybe_default(item, ctx);
                },
                None => {},
            }
            if i + 1 == n && (elements[i].is_none() || has_rest) {
                self.print_comma();
            }
            i += 1;
        }
    }

    #[verifier::spinoff_prover]
    pub fn emit_array_assignment_target(&mut self, target: &ArrayAssignmentTarget, ctx: Context)
        requires
            old(self).wf(),
        ensures
            final(self).wf(),
            old(self)@.code.len() <= final(self)@.code.len(),
            final(self)@ == old(self)@.emit_array_assignment_target(*target, ctx),
        decreases target, 0nat,
    {
        proof {
            reveal(State::emit_array_assignment_target);
        }
        self.add_source_mapping(target.span);
        self.print_ascii_byte(0x5B);
        self.emit_array_target_elements(&target.elements, target.rest.is_some(), ctx);
        match &target.rest {
            Some(rest) => {
                if target.elements.len() > 0 {
                    self.print_soft_space();
                }
                self.emit_assignment_target_rest(rest, ctx);
            },
            None => {},
        }
        self.print_ascii_byte(0x5D);
    }

    #[verifier::spinoff_prover]
    pub fn emit_target_properties(&mut self, properties: &Vec<AssignmentTargetProperty>, ctx: Context)
        requires
            old(self).wf(),
        ensures
            final(self).wf(),
            old(self)@.code.len() <= final(self)@.code.len(),
            final(self)@ == old(self)@.emit_target_properties(properties@, properties@.len(), ctx),
        decreases properties@, properties@.len(),
    {
        proof {
            reveal(State::emit_target_properties);
        }
        let mut i: usize = 0;
        while i < properties.len()
            invariant
                i <= properties.len(),
                self.wf(),
                old(self)@.code.len() <= self@.code.len(),
                self@ == old(self)@.emit_target_properties(properties@, i as nat, ctx),
            decreases properties.len() - i,
        {
            proof {
                reveal(State::emit_target_properties);
            }
            if i > 0 {
                self.print_comma();
                self.print_soft_space();
            }
            self.emit_assignment_target_property(&properties[i], ctx);
            i += 1;
        }
    }

    #[verifier::spinoff_prover]
    pub fn emit_object_assignment_target(&mut self, target: &ObjectAssignmentTarget, ctx: Context)
        requires
            old(self).wf(),
        ensures
            final(self).wf(),
            old(self)@.code.len() <= final(self)@.code.len(),
            final(self)@ == old(self)@.emit_object_assignment_target(*target, ctx),
        decreases target, 0nat,
    {
        proof {
            reveal(State::emit_object_assignment_target);
        }
        self.add_source_mapping(target.span);
        self.print_ascii_byte(0x7B);
        self.emit_target_properties(&target.properties, ctx);
        match &target.rest {
            Some(rest) => {
                if target.properties.len() > 0 {
                    self.print_comma();
                    self.print_soft_space();
                }
                self.emit_assignment_target_rest(rest, ctx);
            },
            None => {},
        }
        self.print_ascii_byte(0x7D);
    }

    #[verifier::spinoff_prover]
    pub fn emit_assignment_target_maybe_default(
        &mut self,
        target: &AssignmentTargetMaybeDefault,
        ctx: Context,
    )
        requires
            old(self).wf(),
        ensures
            final(self).wf(),
            old(self)@.code.len() <= final(self)@.code.len(),
            final(self)@ == old(self)@.emit_assignment_target_maybe_default(*target, ctx),
        decreases target, 0nat,
    {
        proof {
            reveal(State::emit_assignment_target_maybe_default);
        }
        match target {
            AssignmentTargetMaybeDefault::Target(t) => self.emit_assignment_target(t, ctx),
            AssignmentTargetMaybeDefault::AssignmentTargetWithDefault(t) => self.emit_assignment_target_with_default(
                t,
                ctx,
            ),
        }
    }

    #[verifier::spinoff_prover]
    pub fn emit_assignment_target_with_default(
        &mut self,
        target: &AssignmentTargetWithDefault,
        ctx: Context,
    )
        requires
            old(self).wf(),
        ensures
            final(self).wf(),
            old(self)@.code.len() <= final(self)@.code.len(),
            final(self)@ == old(self)@.emit_assignment_target_with_default(*target, ctx),
        decreases target, 0nat,
    {
        proof {
            reveal(State::emit_assignment_target_with_default);
        }
        self.emit_assignment_target(&target.binding, ctx);
        self.print_soft_space();
        self.print_equal();
        self.print_soft_space();
        self.emit_expression(&target.init, Precedence::Comma, Context::empty());
    }

    #[verifier::spinoff_prover]
    pub fn emit_assignment_target_property(&mut self, prop: &AssignmentTargetProperty, ctx: Context)
        requires
            old(self).wf(),
        ensures
            final(self).wf(),
            old(self)@.code.len() <= final(self)@.code.len(),
            final(self)@ == old(self)@.emit_assignment_target_property(*prop, ctx),
        decreases prop, 0nat,
    {
        proof {
            reveal(State::emit_assignment_target_property);
        }
        match prop {
            AssignmentTargetProperty::AssignmentTargetPropertyIdentifier(p) => self.emit_assignment_target_property_identifier(
                p,
            ),
            AssignmentTargetProperty::AssignmentTargetPropertyProperty(p) => self.emit_assignment_target_property_property(
                p,
                ctx,
            ),
        }
    }

    #[verifier::spinoff_prover]
    pub fn emit_assignment_target_property_identifier(
        &mut self,
        prop: &AssignmentTargetPropertyIdentifier,
    )
        requires
            old(self).wf(),
        ensures
            final(self).wf(),
            old(self)@.code.len() <= final(self)@.code.len(),
            final(self)@ == old(self)@.emit_assignment_target_property_identifier(*prop),
        decreases prop, 0nat,
    {
        proof {
            reveal(State::emit_assignment_target_property_identifier);
        }
        let same = crate::text::str_equal(
            self.get_identifier_reference_name(&prop.binding),
            prop.binding.name.as_str(),
        );
        if same {
            self.emit_identifier_reference(&prop.binding);
        } else {
            self.print_str(prop.binding.name.as_str());
            self.print_colon();
            self.print_soft_space();
            self.print_reference_name(&prop.binding);
        }
        match &prop.init {
            Some(init) => {
                self.print_soft_space();
                self.print_equal();
                self.print_soft_space();
                self.emit_expression(init, Precedence::Comma, Context::empty());
            },
            None => {},
        }
    }

    #[verifier::spinoff_prover]
    pub fn emit_assignment_target_property_property(
        &mut self,
        prop: &AssignmentTargetPropertyProperty,
        ctx: Context,
    )
        requires
            old(self).wf(),
        ensures
            final(self).wf(),
            old(self)@.code.len() <= final(self)@.code.len(),
            final(self)@ == old(self)@.emit_assignment_target_property_property(*prop, ctx),
        decreases prop, 0nat,
    {
        proof {
            reveal(State::emit_assignment_target_property_property);
        }
        let omit_key = self.minify() && match (&prop.name, get_target_identifier(&prop.binding)) {
            (PropertyKey::StaticIdentifier(key), Some(id)) => crate::text::str_equal(
                key.name.as_str(),
                self.get_identifier_reference_name(id),
            ),
            _ => false,
        };
        if !omit_key {
            match &prop.name {
                PropertyKey::StaticIdentifier(ident) => self.emit_identifier_name(ident),
                PropertyKey::PrivateIdentifier(ident) => self.emit_private_identifier(ident),
                PropertyKey::Expression(key) => {
                    self.bracket_open(prop.computed);
                    self.emit_expression(key, Precedence::Comma, Context::empty());
                    self.bracket_close(prop.computed);
                },
            }
            self.print_colon();
            self.print_soft_space();
        }
        self.emit_assignment_target_maybe_default(&prop.binding, ctx);
    }

    #[verifier::spinoff_prover]
    pub fn emit_assignment_target_rest(&mut self, rest: &AssignmentTargetRest, ctx: Context)
        requires
            old(self).wf(),
        ensures
            final(self).wf(),
            old(self)@.code.len() <= final(self)@.code.len(),
            final(self)@ == old(self)@.emit_assignment_target_rest(*rest, ctx),
        decreases rest, 0nat,
    {
        proof {
            reveal(State::emit_assignment_target_rest);
        }
        self.print_ellipsis();
        self.emit_assignment_target(&rest.target, ctx);
    }

    #[verifier::spinoff_prover]
    pub fn emit_expressions(&mut self, expressions: &Vec<Expression>, precedence: Precedence, ctx: Context)
        requires
            old(self).wf(),
        ensures
            final(self).wf(),
            old(self)@.code.len() <= final(self)@.code.len(),
            final(self)@ == old(self)@.emit_expressions(
                expressions@,
                expressions@.len(),
                precedence,
                ctx,
            ),
        decreases expressions@, expressions@.len(),
    {
        proof {
            reveal(State::emit_expressions);
        }
        let mut i: usize = 0;
        while i < expressions.len()
            invariant
                i <= expressions.len(),
                self.wf(),
                old(self)@.code.len() <= self@.code.len(),
                self@ == old(self)@.emit_expressions(expressions@, i as nat, precedence, ctx),
            decreases expressions.len() - i,
        {
            proof {
                reveal(State::emit_expressions);
            }
            if i > 0 {
                self.print_comma();
                self.print_soft_space();
            }
            self.emit_expression(&expressions[i], precedence, ctx);
            i += 1;
        }
    }

    #[verifier::spinoff_prover]
    pub fn emit_sequence_expression(&mut self, expr: &SequenceExpression, precedence: Precedence, ctx: Context)
        requires
            old(self).wf(),
        ensures
            final(self).wf(),
            old(self)@.code.len() <= final(self)@.code.len(),
            final(self)@ == old(self)@.emit_sequence_expression(*expr, precedence, ctx),
        decreases expr, 0nat,
    {
        proof {
            reveal(State::emit_sequence_expression);
        }
        let wrap = precedence.at_least(Precedence::Comma);
        self.wrap_open(wrap);
        self.emit_expressions(&expr.expressions, Precedence::Lowest, ctx.and_forbid_call(false));
        self.wrap_close(wrap);
    }

    #[verifier::spinoff_prover]
    pub fn emit_import_expression(&mut self, expr: &ImportExpression, precedence: Precedence, ctx: Context)
        requires
            old(self).wf(),
        ensures
            final(self).wf(),
            old(self)@.code.len() <= final(self)@.code.len(),
            final(self)@ == old(self)@.emit_import_expression(*expr, precedence, ctx),
        decreases expr, 0nat,
    {
        proof {
            reveal(State::emit_import_expression);
        }
        let wrap = precedence.at_least(Precedence::New) || ctx.forbid_call;
        let annotation = self.print_annotation_comment();
        let before_paren = annotation && expr.span.end > 0 && self.has_comment(expr.span.end - 1);
        let has_comment = annotation && (before_paren || self.has_comment(expr.source.span().start)
            || match &expr.options {
            Some(options) => self.has_comment(options.span().start),
            None => false,
        });
        self.wrap_open(wrap);
        self.print_space_before_identifier();
        self.add_source_mapping(expr.span);
        self.print_str("import");
        match expr.phase {
            Some(phase) => {
                self.print_ascii_byte(0x2E);
                self.print_str(phase.as_str());
            },
            None => {},
        }
        self.print_ascii_byte(0x28);
        if has_comment {
            self.indent();
        }
        if self.print_expr_comments(expr.source.span().start) {
            self.print_indent();
        } else if has_comment {
            self.print_soft_newline();
            self.print_indent();
        }
        self.emit_expression(&expr.source, Precedence::Comma, Context::empty());
        match &expr.options {
            Some(options) => {
                self.print_comma();
                if has_comment {
                    self.print_soft_newline();
                    self.print_indent();
                } else {
                    self.print_soft_space();
                }
                self.emit_expression(options, Precedence::Comma, Context::empty());
            },
            None => {},
        }
        if has_comment {
            if !before_paren {
                self.print_soft_newline();
            } else {
                let printed = self.print_expr_comments(expr.span.end - 1);
                if !printed {
                    self.print_soft_newline();
                }
            }
            self.dedent();
        }
        self.print_ascii_byte(0x29);
        self.wrap_close(wrap);
    }

    #[verifier::spinoff_prover]
    pub fn emit_await_expression(&mut self, expr: &AwaitExpression, precedence: Precedence, ctx: Context)
        requires
            old(self).wf(),
        ensures
            final(self).wf(),
            old(self)@.code.len() <= final(self)@.code.len(),
            final(self)@ == old(self)@.emit_await_expression(*expr, precedence, ctx),
        decreases expr, 0nat,
    {
        proof {
            reveal(State::emit_await_expression);
        }
        let wrap = precedence.at_least(Precedence::Prefix);
        self.wrap_open(wrap);
        self.print_space_before_identifier();
        self.add_source_mapping(expr.span);
        self.print_str("await");
        self.print_soft_space();
        self.emit_expression(&expr.argument, Precedence::Exponentiation, ctx);
        self.wrap_close(wrap);
    }

    #[verifier::spinoff_prover]
    pub fn emit_chain_expression(&mut self, expr: &ChainExpression, precedence: Precedence, ctx: Context)
        requires
            old(self).wf(),
        ensures
            final(self).wf(),
            old(self)@.code.len() <= final(self)@.code.len(),
            final(self)@ == old(self)@.emit_chain_expression(*expr, precedence, ctx),
        decreases expr, 0nat,
    {
        proof {
            reveal(State::emit_chain_expression);
        }
        let wrap = precedence.at_least(Precedence::Postfix);
        self.wrap_open(wrap);
        match &expr.expression {
            ChainElement::CallExpression(e) => self.emit_call_expression(e, precedence, ctx),
            ChainElement::ComputedMemberExpression(e) => self.emit_computed_member_expression(
                e,
                ctx,
            ),
            ChainElement::StaticMemberExpression(e) => self.emit_static_member_expression(e, ctx),
            ChainElement::PrivateFieldExpression(e) => self.emit_private_field_expression(e, ctx),
            ChainElement::TSNonNullExpression(e) => self.emit_ts_non_null_expression(
                e,
                precedence,
                ctx,
            ),
        }
        self.wrap_close(wrap);
    }

    #[verifier::spinoff_prover]
    pub fn emit_new_expression(&mut self, expr: &NewExpression, precedence: Precedence, ctx: Context)
        requires
            old(self).wf(),
        ensures
            final(self).wf(),
            old(self)@.code.len() <= final(self)@.code.len(),
            final(self)@ == old(self)@.emit_new_expression(*expr, precedence, ctx),
        decreases expr, 0nat,
    {
        proof {
            reveal(State::emit_new_expression);
        }
        let pure = expr.pure && self.print_annotation_comment();
        let wrap = precedence.at_least(Precedence::Call) || (precedence.at_least(
            Precedence::Postfix,
        ) && pure);
        self.wrap_open(wrap);
        if pure {
            self.print_str("/* @__PURE__ */ ");
        }
        self.print_space_before_identifier();
        self.add_source_mapping(expr.span);
        self.print_str("new");
        self.print_soft_space();
        self.emit_expression(&expr.callee, Precedence::New, Context::only_forbid_call());
        if !self.minify() || expr.arguments.len() > 0 || precedence.at_least(Precedence::Postfix) {
            self.print_arguments(expr.span, &expr.arguments, ctx);
        }
        self.wrap_close(wrap);
    }

    #[verifier::spinoff_prover]
    pub fn emit_v8_intrinsic_expression(
        &mut self,
        expr: &V8IntrinsicExpression,
        precedence: Precedence,
        ctx: Context,
    )
        requires
            old(self).wf(),
        ensures
            final(self).wf(),
            old(self)@.code.len() <= final(self)@.code.len(),
            final(self)@ == old(self)@.emit_v8_intrinsic_expression(*expr, precedence, ctx),
        decreases expr, 0nat,
    {
        proof {
            reveal(State::emit_v8_intrinsic_expression);
        }
        let is_statement = self.at_start_of_stmt();
        let is_export_default = self.at_start_of_default_export();
        let wrap = precedence.at_least(Precedence::New) || ctx.forbid_call || precedence.at_least(
            Precedence::Postfix,
        );
        self.wrap_open(wrap);
        if is_export_default {
            self.mark_start_of_default_export();
        } else if is_statement {
            self.mark_start_of_stmt();
        }
        self.add_source_mapping(expr.span);
        self.print_ascii_byte(0x25);
        self.emit_identifier_name(&expr.name);
        self.print_arguments(expr.span, &expr.arguments, ctx);
        self.wrap_close(wrap);
    }

    #[verifier::spinoff_prover]
    pub fn emit_call_expression(&mut self, expr: &CallExpression, precedence: Precedence, ctx: Context)
        requires
            old(self).wf(),
        ensures
            final(self).wf(),
            old(self)@.code.len() <= final(self)@.code.len(),
            final(self)@ == old(self)@.emit_call_expression(*expr, precedence, ctx),
        decreases expr, 0nat,
    {
        proof {
            reveal(State::emit_call_expression);
        }
        let is_statement = self.at_start_of_stmt();
        let is_export_default = self.at_start_of_default_export();
        let pure = expr.pure && self.print_annotation_comment();
        let wrap = precedence.at_least(Precedence::New) || ctx.forbid_call || (pure
            && precedence.at_least(Precedence::Postfix));
        self.wrap_open(wrap);
        if pure {
            self.add_source_mapping(expr.span);
            self.print_str("/* @__PURE__ */ ");
        }
        if is_export_default {
            self.mark_start_of_default_export();
        } else if is_statement {
            self.mark_start_of_stmt();
        }
        self.emit_expression(&expr.callee, Precedence::Postfix, Context::empty());
        if expr.optional {
            self.print_str("?.");
        }
        self.print_type_arguments(&expr.type_arguments, ctx);
        self.print_arguments(expr.span, &expr.arguments, ctx);
        self.wrap_close(wrap);
    }

    #[verifier::spinoff_prover]
    pub fn emit_argument(&mut self, arg: &Argument)
        requires
            old(self).wf(),
        ensures
            final(self).wf(),
            old(self)@.code.len() <= final(self)@.code.len(),
            final(self)@ == old(self)@.emit_argument(*arg),
        decreases arg, 0nat,
    {
        proof {
            reveal(State::emit_argument);
        }
        match arg {
            Argument::Spread(e) => self.emit_spread_element(e),
            Argument::Expression(e) => self.emit_expression(e, Precedence::Comma, Context::empty()),
        }
    }

    #[verifier::spinoff_prover]
    pub fn emit_argument_list(&mut self, args: &Vec<Argument>)
        requires
            old(self).wf(),
        ensures
            final(self).wf(),
            old(self)@.code.len() <= final(self)@.code.len(),
            final(self)@ == old(self)@.emit_argument_list(args@, args@.len()),
        decreases args@, args@.len(),
    {
        proof {
            reveal(State::emit_argument_list);
        }
        let mut i: usize = 0;
        while i < args.len()
            invariant
                i <= args.len(),
                self.wf(),
                old(self)@.code.len() <= self@.code.len(),
                self@ == old(self)@.emit_argument_list(args@, i as nat),
            decreases args.len() - i,
        {
            proof {
                reveal(State::emit_argument_list);
            }
            if i > 0 {
                self.print_comma();
                self.print_soft_space();
            }
            self.emit_argument(&args[i]);
            i += 1;
        }
    }

    #[verifier::spinoff_prover]
    pub fn emit_argument_list_with_comments(&mut self, args: &Vec<Argument>)
        requires
            old(self).wf(),
        ensures
            final(self).wf(),
            old(self)@.code.len() <= final(self)@.code.len(),
            final(self)@ == old(self)@.emit_argument_list_with_comments(args@, args@.len()),
        decreases args@, args@.len(),
    {
        proof {
            reveal(State::emit_argument_list_with_comments);
        }
        let mut i: usize = 0;
        while i < args.len()
            invariant
                i <= args.len(),
                self.wf(),
                old(self)@.code.len() <= self@.code.len(),
                self@ == old(self)@.emit_argument_list_with_comments(args@, i as nat),
            decreases args.len() - i,
        {
            proof {
                reveal(State::emit_argument_list_with_comments);
            }
            if i > 0 {
                self.print_comma();
            }
            if self.print_expr_comments(args[i].span().start) {
                self.print_indent();
            } else {
                self.print_soft_newline();
                self.print_indent();
            }
            self.emit_argument(&args[i]);
            i += 1;
        }
    }

    /// Prints the arguments of a call in their parentheses.
    #[verifier::spinoff_prover]
    pub fn print_arguments(&mut self, span: Span, args: &Vec<Argument>, ctx: Context)
        requires
            old(self).wf(),
        ensures
            final(self).wf(),
            old(self)@.code.len() <= final(self)@.code.len(),
            final(self)@ == old(self)@.print_arguments(span, args@, ctx),
        decreases args@, args@.len() + 1,
    {
        proof {
            reveal(State::print_arguments);
        }
        self.print_ascii_byte(0x28);
        let before_paren = span.end > 0 && self.has_comment(span.end - 1);
        let has_comment = before_paren || self.any_argument_has_comment(args);
        if has_comment {
            self.indent();
            self.emit_argument_list_with_comments(args);
            if !before_paren {
                self.print_soft_newline();
            } else {
                let printed = self.print_expr_comments(span.end - 1);
                if !printed {
                    self.print_soft_newline();
                }
            }
            self.dedent();
            self.print_indent();
        } else {
            self.emit_argument_list(args);
        }
        self.print_ascii_byte(0x29);
        self.add_source_mapping_end(span);
    }

    #[verifier::spinoff_prover]
    pub fn emit_spread_element(&mut self, elem: &SpreadElement)
        requires
            old(self).wf(),
        ensures
            final(self).wf(),
            old(self)@.code.len() <= final(self)@.code.len(),
            final(self)@ == old(self)@.emit_spread_element(*elem),
        decreases elem, 0nat,
    {
        proof {
            reveal(State::emit_spread_element);
        }
        self.add_source_mapping(elem.span);
        self.print_ellipsis();
        self.emit_expression(&elem.argument, Precedence::Comma, Context::empty());
    }

    #[verifier::spinoff_prover]
    pub fn emit_array_expression_element(&mut self, elem: &ArrayExpressionElement)
        requires
            old(self).wf(),
        ensures
            final(self).wf(),
            old(self)@.code.len() <= final(self)@.code.len(),
            final(self)@ == old(self)@.emit_array_expression_element(*elem),
        decreases elem, 0nat,
    {
        proof {
            reveal(State::emit_array_expression_element);
        }
        match elem {
            ArrayExpressionElement::Spread(e) => self.emit_spread_element(e),
            ArrayExpressionElement::Elision(_) => {},
            ArrayExpressionElement::Expression(e) => self.emit_expression(
                e,
                Precedence::Comma,
                Context::empty(),
            ),
        }
    }

    #[verifier::spinoff_prover]
    pub fn emit_array_elements(&mut self, elements: &Vec<ArrayExpressionElement>, multi_line: bool)
        requires
            old(self).wf(),
        ensures
            final(self).wf(),
            old(self)@.code.len() <= final(self)@.code.len(),
            final(self)@ == old(self)@.emit_array_elements(elements@, elements@.len(), multi_line),
        decreases elements@, elements@.len(),
    {
        proof {
            reveal(State::emit_array_elements);
        }
        let n = elements.len();
        let mut i: usize = 0;
        while i < n
            invariant
                i <= n,
                n == elements@.len(),
                self.wf(),
                old(self)@.code.len() <= self@.code.len(),
                self@ == old(self)@.emit_array_elements(elements@, i as nat, multi_line),
            decreases n - i,
        {
            proof {
                reveal(State::emit_array_elements);
            }
            if i > 0 {
                self.print_comma();
            }
            if multi_line {
                self.print_soft_newline();
                self.print_indent();
            } else if i > 0 {
                self.print_soft_space();
            }
            self.emit_array_expression_element(&elements[i]);
            if i + 1 == n && matches!(elements[i], ArrayExpressionElement::Elision(_)) {
                self.print_comma();
            }
            i += 1;
        }
    }

    #[verifier::spinoff_prover]
    pub fn emit_array_expression(&mut self, expr: &ArrayExpression)
        requires
            old(self).wf(),
        ensures
            final(self).wf(),
            old(self)@.code.len() <= final(self)@.code.len(),
            final(self)@ == old(self)@.emit_array_expression(*expr),
        decreases expr, 0nat,
    {
        proof {
            reveal(State::emit_array_expression);
        }
        let multi_line = expr.elements.len() > 2;
        self.add_source_mapping(expr.span);
        self.print_ascii_byte(0x5B);
        if multi_line {
            self.indent();
        }
        self.emit_array_elements(&expr.elements, multi_line);
        if multi_line {
            self.print_soft_newline();
            self.dedent();
            self.print_indent();
        }
        self.print_ascii_byte(0x5D);
        self.add_source_mapping_end(expr.span);
    }

    #[verifier::spinoff_prover]
    pub fn emit_object_properties(
        &mut self,
        properties: &Vec<ObjectPropertyKind>,
        multi_line: bool,
        ctx: Context,
    )
        requires
            old(self).wf(),
        ensures
            final(self).wf(),
            old(self)@.code.len() <= final(self)@.code.len(),
            final(self)@ == old(self)@.emit_object_properties(
                properties@,
                properties@.len(),
                multi_line,
                ctx,
            ),
        decreases properties@, properties@.len(),
    {
        proof {
            reveal(State::emit_object_properties);
        }
        let mut i: usize = 0;
        while i < properties.len()
            invariant
                i <= properties.len(),
                self.wf(),
                old(self)@.code.len() <= self@.code.len(),
                self@ == old(self)@.emit_object_properties(properties@, i as nat, multi_line, ctx),
            decreases properties.len() - i,
        {
            proof {
                reveal(State::emit_object_properties);
            }
            if i > 0 {
                self.print_comma();
            }
            if multi_line {
                self.print_soft_newline();
                self.print_indent();
            } else {
                self.print_soft_space();
            }
            self.emit_object_property_kind(&properties[i], ctx);
            i += 1;
        }
    }

    #[verifier::spinoff_prover]
    pub fn emit_object_expression(&mut self, expr: &ObjectExpression, ctx: Context)
        requires
            old(self).wf(),
        ensures
            final(self).wf(),
            old(self)@.code.len() <= final(self)@.code.len(),
            final(self)@ == old(self)@.emit_object_expression(*expr, ctx),
        decreases expr, 0nat,
    {
        proof {
            reveal(State::emit_object_expression);
        }
        let len = expr.properties.len();
        let multi_line = len > 1;
        let has_comment = self.has_comment(expr.span.start);
        let wrap = has_comment || self.at_start_of_stmt() || self.at_start_of_arrow_expr();
        self.wrap_open(wrap);
        if has_comment {
            self.print_comments_at(expr.span.start);
            self.print_indent();
        }
        self.add_source_mapping(expr.span);
        self.print_ascii_byte(0x7B);
        if multi_line {
            self.indent();
        }
        self.emit_object_properties(&expr.properties, multi_line, ctx);
        if multi_line {
            self.print_soft_newline();
            self.dedent();
            self.print_indent();
        } else if len > 0 {
            self.print_soft_space();
        }
        self.print_ascii_byte(0x7D);
        self.add_source_mapping_end(expr.span);
        self.wrap_close(wrap);
    }

    #[verifier::spinoff_prover]
    pub fn emit_object_property_kind(&mut self, kind: &ObjectPropertyKind, ctx: Context)
        requires
            old(self).wf(),
        ensures
            final(self).wf(),
            old(self)@.code.len() <= final(self)@.code.len(),
            final(self)@ == old(self)@.emit_object_property_kind(*kind, ctx),
        decreases kind, 0nat,
    {
        proof {
            reveal(State::emit_object_property_kind);
        }
        match kind {
            ObjectPropertyKind::ObjectProperty(prop) => self.emit_object_property(prop, ctx),
            ObjectPropertyKind::SpreadProperty(elem) => self.emit_spread_element(elem),
        }
    }

    #[verifier::spinoff_prover]
    pub fn emit_object_property(&mut self, prop: &ObjectProperty, ctx: Context)
        requires
            old(self).wf(),
        ensures
            final(self).wf(),
            old(self)@.code.len() <= final(self)@.code.len(),
            final(self)@ == old(self)@.emit_object_property(*prop, ctx),
        decreases prop, 2nat,
    {
        proof {
            reveal(State::emit_object_property);
        }
        match &prop.value {
            Expression::FunctionExpression(func) => {
                self.add_source_mapping(prop.span);
                match prop.kind {
                    PropertyKind::Init => {},
                    PropertyKind::Getter => {
                        self.print_str("get");
                        self.print_soft_space();
                    },
                    PropertyKind::Setter => {
                        self.print_str("set");
                        self.print_soft_space();
                    },
                }
                if prop.method || !matches!(prop.kind, PropertyKind::Init) {
                    if func.is_async {
                        self.print_modifier("async");
                    }
                    if func.generator {
                        self.print_ascii_byte(0x2A);
                    }
                    self.bracket_open(prop.computed);
                    self.emit_property_key(&prop.key, ctx);
                    self.bracket_close(prop.computed);
                    self.print_type_parameters(&func.type_parameters, ctx);
                    self.print_ascii_byte(0x28);
                    self.emit_formal_parameters(&func.params, ctx);
                    self.print_ascii_byte(0x29);
                    self.print_type_annotation(&func.return_type, ctx);
                    match &func.body {
                        Some(body) => {
                            self.print_soft_space();
                            self.emit_function_body(body, ctx);
                        },
                        None => {},
                    }
                } else {
                    self.emit_object_property_plain(prop, ctx);
                }
            },
            _ => {
                self.emit_object_property_plain(prop, ctx);
            },
        }
    }

    #[verifier::spinoff_prover]
    pub fn emit_object_property_plain(&mut self, prop: &ObjectProperty, ctx: Context)
        requires
            old(self).wf(),
        ensures
            final(self).wf(),
            old(self)@.code.len() <= final(self)@.code.len(),
            final(self)@ == old(self)@.emit_object_property_plain(*prop, ctx),
        decreases prop, 1nat,
    {
        proof {
            reveal(State::emit_object_property_plain);
        }
        let computed = prop.computed || key_needs_brackets_exec(&prop.key);
        if !self.property_is_shorthand(prop) {
            self.bracket_open(computed);
            self.emit_property_key(&prop.key, ctx);
            self.bracket_close(computed);
            self.print_colon();
            self.print_soft_space();
        }
        self.emit_expression(&prop.value, Precedence::Comma, Context::empty());
    }

    #[verifier::spinoff_prover]
    pub fn emit_property_key(&mut self, key: &PropertyKey, ctx: Context)
        requires
            old(self).wf(),
        ensures
            final(self).wf(),
            old(self)@.code.len() <= final(self)@.code.len(),
            final(self)@ == old(self)@.emit_property_key(*key, ctx),
        decreases key, 0nat,
    {
        proof {
            reveal(State::emit_property_key);
        }
        match key {
            PropertyKey::StaticIdentifier(ident) => self.emit_identifier_name(ident),
            PropertyKey::PrivateIdentifier(ident) => self.emit_private_identifier(ident),
            PropertyKey::Expression(e) => self.emit_expression(e, Precedence::Comma, Context::empty()),
        }
    }

    #[verifier::spinoff_prover]
    pub fn emit_template_parts(&mut self, parts: &Vec<TemplatePart>)
        requires
            old(self).wf(),
        ensures
            final(self).wf(),
            old(self)@.code.len() <= final(self)@.code.len(),
            final(self)@ == old(self)@.emit_template_parts(parts@, parts@.len()),
        decreases parts@, parts@.len(),
    {
        proof {
            reveal(State::emit_template_parts);
        }
        let mut i: usize = 0;
        while i < parts.len()
            invariant
                i <= parts.len(),
                self.wf(),
                old(self)@.code.len() <= self@.code.len(),
                self@ == old(self)@.emit_template_parts(parts@, i as nat),
            decreases parts.len() - i,
        {
            proof {
                reveal(State::emit_template_parts);
            }
            self.print_str("${");
            self.print_expression(&parts[i].expression);
            self.print_ascii_byte(0x7D);
            self.add_source_mapping(parts[i].quasi.span);
            self.print_str_escaping_script_close_tag(parts[i].quasi.raw.as_str());
            i += 1;
        }
    }

    #[verifier::spinoff_prover]
    pub fn emit_template_literal(&mut self, template: &TemplateLiteral)
        requires
            old(self).wf(),
        ensures
            final(self).wf(),
            old(self)@.code.len() <= final(self)@.code.len(),
            final(self)@ == old(self)@.emit_template_literal(*template),
        decreases template, 0nat,
    {
        proof {
            reveal(State::emit_template_literal);
        }
        self.add_source_mapping(template.span);
        self.print_ascii_byte(0x60);
        self.print_str_escaping_script_close_tag(template.head.raw.as_str());
        self.emit_template_parts(&template.parts);
        self.print_ascii_byte(0x60);
    }

    #[verifier::spinoff_prover]
    pub fn emit_tagged_template_expression(&mut self, expr: &TaggedTemplateExpression, ctx: Context)
        requires
            old(self).wf(),
        ensures
            final(self).wf(),
            old(self)@.code.len() <= final(self)@.code.len(),
            final(self)@ == old(self)@.emit_tagged_template_expression(*expr, ctx),
        decreases expr, 0nat,
    {
        proof {
            reveal(State::emit_tagged_template_expression);
        }
        self.add_source_mapping(expr.span);
        self.emit_expression(&expr.tag, Precedence::Postfix, Context::empty());
        self.print_type_arguments(&expr.type_arguments, ctx);
        self.emit_template_literal(&expr.quasi);
    }

    #[verifier::spinoff_prover]
    pub fn emit_decorator(&mut self, decorator: &Decorator)
        requires
            old(self).wf(),
        ensures
            final(self).wf(),
            old(self)@.code.len() <= final(self)@.code.len(),
            final(self)@ == old(self)@.emit_decorator(*decorator),
        decreases decorator, 0nat,
    {
        proof {
            reveal(State::emit_decorator);
        }
        let wrap = decorator_needs_wrap(&decorator.expression);
        self.add_source_mapping(decorator.span);
        self.print_ascii_byte(0x40);
        self.wrap_open(wrap);
        self.emit_expression(&decorator.expression, Precedence::Lowest, Context::empty());
        self.wrap_close(wrap);
    }

    #[verifier::spinoff_prover]
    pub fn print_decorators(&mut self, decorators: &Vec<Decorator>)
        requires
            old(self).wf(),
        ensures
            final(self).wf(),
            old(self)@.code.len() <= final(self)@.code.len(),
            final(self)@ == old(self)@.print_decorators(decorators@, decorators@.len()),
        decreases decorators@, decorators@.len(),
    {
        proof {
            reveal(State::print_decorators);
        }
        let mut i: usize = 0;
        while i < decorators.len()
            invariant
                i <= decorators.len(),
                self.wf(),
                old(self)@.code.len() <= self@.code.len(),
                self@ == old(self)@.print_decorators(decorators@, i as nat),
            decreases decorators.len() - i,
        {
            proof {
                reveal(State::print_decorators);
            }
            self.emit_decorator(&decorators[i]);
            self.print_hard_space();
            i += 1;
        }
    }

    #[verifier::spinoff_prover]
    pub fn emit_binding_pattern(&mut self, pattern: &BindingPattern, ctx: Context)
        requires
            old(self).wf(),
        ensures
            final(self).wf(),
            old(self)@.code.len() <= final(self)@.code.len(),
            final(self)@ == old(self)@.emit_binding_pattern(*pattern, ctx),
        decreases pattern, 0nat,
    {
        proof {
            reveal(State::emit_binding_pattern);
        }
        self.emit_binding_pattern_kind(&pattern.kind, ctx);
        if pattern.optional {
            self.print_ascii_byte(0x3F);
        }
        self.print_type_annotation(&pattern.type_annotation, ctx);
    }

    #[verifier::spinoff_prover]
    pub fn emit_binding_pattern_kind(&mut self, kind: &BindingPatternKind, ctx: Context)
        requires
            old(self).wf(),
        ensures
            final(self).wf(),
            old(self)@.code.len() <= final(self)@.code.len(),
            final(self)@ == old(self)@.emit_binding_pattern_kind(*kind, ctx),
        decreases kind, 0nat,
    {
        proof {
            reveal(State::emit_binding_pattern_kind);
        }
        match kind {
            BindingPatternKind::BindingIdentifier(ident) => self.emit_binding_identifier(ident),
            BindingPatternKind::ObjectPattern(p) => self.emit_object_pattern(p, ctx),
            BindingPatternKind::ArrayPattern(p) => self.emit_array_pattern(p, ctx),
            BindingPatternKind::AssignmentPattern(p) => self.emit_assignment_pattern(p, ctx),
        }
    }

    #[verifier::spinoff_prover]
    pub fn emit_assignment_pattern(&mut self, pattern: &AssignmentPattern, ctx: Context)
        requires
            old(self).wf(),
        ensures
            final(self).wf(),
            old(self)@.code.len() <= final(self)@.code.len(),
            final(self)@ == old(self)@.emit_assignment_pattern(*pattern, ctx),
        decreases pattern, 0nat,
    {
        proof {
            reveal(State::emit_assignment_pattern);
        }
        self.emit_binding_pattern(&pattern.left, ctx);
        self.print_soft_space();
        self.print_equal();
        self.print_soft_space();
        self.emit_expression(&pattern.right, Precedence::Comma, Context::empty());
    }

    #[verifier::spinoff_prover]
    pub fn emit_binding_properties(&mut self, properties: &Vec<BindingProperty>, ctx: Context)
        requires
            old(self).wf(),
        ensures
            final(self).wf(),
            old(self)@.code.len() <= final(self)@.code.len(),
            final(self)@ == old(self)@.emit_binding_properties(properties@, properties@.len(), ctx),
        decreases properties@, properties@.len(),
    {
        proof {
            reveal(State::emit_binding_properties);
        }
        let mut i: usize = 0;
        while i < properties.len()
            invariant
                i <= properties.len(),
                self.wf(),
                old(self)@.code.len() <= self@.code.len(),
                self@ == old(self)@.emit_binding_properties(properties@, i as nat, ctx),
            decreases properties.len() - i,
        {
            proof {
                reveal(State::emit_binding_properties);
            }
            if i > 0 {
                self.print_comma();
                self.print_soft_space();
            }
            self.emit_binding_property(&properties[i], ctx);
            i += 1;
        }
    }

    #[verifier::spinoff_prover]
    pub fn emit_object_pattern(&mut self, pattern: &ObjectPattern, ctx: Context)
        requires
            old(self).wf(),
        ensures
            final(self).wf(),
            old(self)@.code.len() <= final(self)@.code.len(),
            final(self)@ == old(self)@.emit_object_pattern(*pattern, ctx),
        decreases pattern, 0nat,
    {
        proof {
            reveal(State::emit_object_pattern);
        }
        let is_empty = pattern.properties.len() == 0 && pattern.rest.is_none();
        self.add_source_mapping(pattern.span);
        self.print_ascii_byte(0x7B);
        if !is_empty {
            self.print_soft_space();
        }
        self.emit_binding_properties(&pattern.properties, ctx);
        match &pattern.rest {
            Some(rest) => {
                if pattern.properties.len() > 0 {
                    self.print_comma();
                }
                self.emit_binding_rest_element(rest, ctx);
            },
            None => {},
        }
        if !is_empty {
            self.print_soft_space();
        }
        self.print_ascii_byte(0x7D);
    }

    #[verifier::spinoff_prover]
    pub fn emit_binding_property(&mut self, property: &BindingProperty, ctx: Context)
        requires
            old(self).wf(),
        ensures
            final(self).wf(),
            old(self)@.code.len() <= final(self)@.code.len(),
            final(self)@ == old(self)@.emit_binding_property(*property, ctx),
        decreases property, 0nat,
    {
        proof {
            reveal(State::emit_binding_property);
        }
        if !self.binding_is_shorthand(property) {
            self.bracket_open(property.computed);
            self.emit_property_key(&property.key, ctx);
            self.bracket_close(property.computed);
            self.print_colon();
            self.print_soft_space();
        }
        self.emit_binding_pattern(&property.value, ctx);
    }

    #[verifier::spinoff_prover]
    pub fn emit_binding_rest_element(&mut self, element: &BindingRestElement, ctx: Context)
        requires
            old(self).wf(),
        ensures
            final(self).wf(),
            old(self)@.code.len() <= final(self)@.code.len(),
            final(self)@ == old(self)@.emit_binding_rest_element(*element, ctx),
        decreases element, 0nat,
    {
        proof {
            reveal(State::emit_binding_rest_element);
        }
        self.add_source_mapping(element.span);
        self.print_ellipsis();
        self.emit_binding_pattern(&element.argument, ctx);
    }

    #[verifier::spinoff_prover]
    pub fn emit_array_pattern_elements(
        &mut self,
        elements: &Vec<Option<BindingPattern>>,
        has_rest: bool,
        ctx: Context,
    )
        requires
            old(self).wf(),
        ensures
            final(self).wf(),
            old(self)@.code.len() <= final(self)@.code.len(),
            final(self)@ == old(self)@.emit_array_pattern_elements(
                elements@,
                elements@.len(),
                has_rest,
                ctx,
            ),
        decreases elements@, elements@.len(),
    {
        proof {
            reveal(State::emit_array_pattern_elements);
        }
        let n = elements.len();
        let mut i: usize = 0;
        while i < n
            invariant
                i <= n,
                n == elements@.len(),
                self.wf(),
                old(self)@.code.len() <= self@.code.len(),
                self@ == old(self)@.emit_array_pattern_elements(elements@, i as nat, has_rest, ctx),
            decreases n - i,
        {
            proof {
                reveal(State::emit_array_pattern_elements);
            }
            if i > 0 {
                self.print_comma();
                self.print_soft_space();
            }
            match &elements[i] {
                Some(item) => {
                    self.emit_binding_pattern(item, ctx);
                },
                None => {},
            }
            if i + 1 == n && (elements[i].is_none() || has_rest) {
                self.print_comma();
            }
            i += 1;
        }
    }

    #[verifier::spinoff_prover]
    pub fn emit_array_pattern(&mut self, pattern: &ArrayPattern, ctx: Context)
        requires
            old(self).wf(),
        ensures
            final(self).wf(),
            old(self)@.code.len() <= final(self)@.code.len(),
            final(self)@ == old(self)@.emit_array_pattern(*pattern, ctx),
        decreases pattern, 0nat,
    {
        proof {
            reveal(State::emit_array_pattern);
        }
        self.add_source_mapping(pattern.span);
        self.print_ascii_byte(0x5B);
        self.emit_array_pattern_elements(&pattern.elements, pattern.rest.is_some(), ctx);
        match &pattern.rest {
            Some(rest) => {
                self.print_soft_space();
                self.emit_binding_rest_element(rest, ctx);
            },
            None => {},
        }
        self.print_ascii_byte(0x5D);
    }

    #[verifier::spinoff_prover]
    pub fn emit_formal_parameter(&mut self, param: &FormalParameter, ctx: Context)
        requires
            old(self).wf(),
        ensures
            final(self).wf(),
            old(self)@.code.len() <= final(self)@.code.len(),
            final(self)@ == old(self)@.emit_formal_parameter(*param, ctx),
        decreases param, 0nat,
    {
        proof {
            reveal(State::emit_formal_parameter);
        }
        self.add_source_mapping(param.span);
        self.print_decorators(&param.decorators);
        match param.accessibility {
            Some(accessibility) => self.print_modifier(accessibility.as_str()),
            None => {},
        }
        if param.is_override {
            self.print_modifier("override");
        }
        if param.readonly {
            self.print_modifier("readonly");
        }
        self.emit_binding_pattern(&param.pattern, ctx);
    }

    #[verifier::spinoff_prover]
    pub fn emit_formal_parameter_items(&mut self, items: &Vec<FormalParameter>, ctx: Context)
        requires
            old(self).wf(),
        ensures
            final(self).wf(),
            old(self)@.code.len() <= final(self)@.code.len(),
            final(self)@ == old(self)@.emit_formal_parameter_items(items@, items@.len(), ctx),
        decreases items@, items@.len(),
    {
        proof {
            reveal(State::emit_formal_parameter_items);
        }
        let mut i: usize = 0;
        while i < items.len()
            invariant
                i <= items.len(),
                self.wf(),
                old(self)@.code.len() <= self@.code.len(),
                self@ == old(self)@.emit_formal_parameter_items(items@, i as nat, ctx),
            decreases items.len() - i,
        {
            proof {
                reveal(State::emit_formal_parameter_items);
            }
            if i > 0 {
                self.print_comma();
                self.print_soft_space();
            }
            self.emit_formal_parameter(&items[i], ctx);
            i += 1;
        }
    }

    #[verifier::spinoff_prover]
    pub fn emit_formal_parameters(&mut self, params: &FormalParameters, ctx: Context)
        requires
            old(self).wf(),
        ensures
            final(self).wf(),
            old(self)@.code.len() <= final(self)@.code.len(),
            final(self)@ == old(self)@.emit_formal_parameters(*params, ctx),
        decreases params, 0nat,
    {
        proof {
            reveal(State::emit_formal_parameters);
        }
        self.emit_formal_parameter_items(&params.items, ctx);
        match &params.rest {
            Some(rest) => {
                if params.items.len() > 0 {
                    self.print_comma();
                    self.print_soft_space();
                }
                self.emit_binding_rest_element(rest, ctx);
            },
            None => {},
        }
    }

    #[verifier::spinoff_prover]
    pub fn emit_function(&mut self, function: &Function, ctx: Context)
        requires
            old(self).wf(),
        ensures
            final(self).wf(),
            old(self)@.code.len() <= final(self)@.code.len(),
            final(self)@ == old(self)@.emit_function(*function, ctx),
        decreases function, 0nat,
    {
        proof {
            reveal(State::emit_function);
        }
        let wrap = function.expression && (self.at_start_of_stmt()
            || self.at_start_of_default_export() || function.pife);
        let ctx = ctx.and_forbid_call(false);
        self.wrap_open(wrap);
        self.print_space_before_identifier();
        self.add_source_mapping(function.span);
        if function.declare {
            self.print_str("declare ");
        }
        if function.is_async {
            self.print_str("async ");
        }
        self.print_str("function");
        if function.generator {
            self.print_ascii_byte(0x2A);
            self.print_soft_space();
        }
        match &function.id {
            Some(id) => {
                self.print_space_before_identifier();
                self.emit_binding_identifier(id);
            },
            None => {},
        }
        self.print_type_parameters(&function.type_parameters, ctx);
        self.print_ascii_byte(0x28);
        self.print_this_parameter(&function.this_param, has_parameters(&function.params), ctx);
        self.emit_formal_parameters(&function.params, ctx);
        self.print_ascii_byte(0x29);
        match &function.return_type {
            Some(return_type) => {
                self.print_str(": ");
                self.emit_ts_type_annotation(return_type, ctx);
            },
            None => {},
        }
        match &function.body {
            Some(body) => {
                self.print_soft_space();
                self.emit_function_body(body, ctx);
            },
            None => {
                self.print_semicolon();
            },
        }
        self.wrap_close(wrap);
    }

    #[verifier::spinoff_prover]
    pub fn emit_function_body(&mut self, body: &FunctionBody, ctx: Context)
        requires
            old(self).wf(),
        ensures
            final(self).wf(),
            old(self)@.code.len() <= final(self)@.code.len(),
            final(self)@ == old(self)@.emit_function_body(*body, ctx),
        decreases body, 0nat,
    {
        proof {
            reveal(State::emit_function_body);
        }
        let empty = body.directives.len() == 0 && body.statements.len() == 0;
        let has_key = body.span.end > 0;
        let key: u32 = if has_key {
            body.span.end - 1
        } else {
            0
        };
        let mut single_line = empty;
        if single_line && has_key {
            match self.peek_comments(key) {
                Some(block) => {
                    single_line = all_inline(block);
                },
                None => {},
            }
        }
        self.curly_open(body.span, single_line);
        self.emit_directives(&body.directives);
        self.emit_body_statements(&body.statements, ctx, body.directives.len() == 0);
        if has_key && self.has_comment(key) {
            self.print_comments_at(key);
            self.set_print_next_indent_as_space(false);
        }
        self.curly_close(single_line);
        self.set_needs_semicolon(false);
    }

    #[verifier::spinoff_prover]
    pub fn emit_arrow_function_expression(
        &mut self,
        expr: &ArrowFunctionExpression,
        precedence: Precedence,
        ctx: Context,
    )
        requires
            old(self).wf(),
        ensures
            final(self).wf(),
            old(self)@.code.len() <= final(self)@.code.len(),
            final(self)@ == old(self)@.emit_arrow_function_expression(*expr, precedence, ctx),
        decreases expr, 0nat,
    {
        proof {
            reveal(State::emit_arrow_function_expression);
        }
        let wrap = precedence.at_least(Precedence::Assign) || expr.pife;
        self.wrap_open(wrap);
        if expr.is_async {
            self.print_space_before_identifier();
            self.add_source_mapping(expr.span);
            self.print_str("async");
            self.print_soft_space();
        }
        self.print_type_parameters(&expr.type_parameters, ctx);
        let bare = arrow_params_bare(expr, self.minify());
        self.wrap_open(!bare);
        self.emit_formal_parameters(&expr.params, ctx);
        self.wrap_close(!bare);
        self.print_type_annotation(&expr.return_type, ctx);
        self.print_soft_space();
        self.print_str("=>");
        self.print_soft_space();
        if expr.expression {
            if expr.body.statements.len() > 0 {
                match &expr.body.statements[0] {
                    Statement::ExpressionStatement(stmt) => {
                        self.mark_start_of_arrow_expr();
                        self.emit_expression(&stmt.expression, Precedence::Comma, ctx);
                    },
                    _ => {},
                }
            }
        } else {
            self.emit_function_body(&expr.body, ctx);
        }
        self.wrap_close(wrap);
    }

    #[verifier::spinoff_prover]
    pub fn emit_class(&mut self, class: &Class, ctx: Context)
        requires
            old(self).wf(),
        ensures
            final(self).wf(),
            old(self)@.code.len() <= final(self)@.code.len(),
            final(self)@ == old(self)@.emit_class(*class, ctx),
        decreases class, 0nat,
    {
        proof {
            reveal(State::emit_class);
        }
        let wrap = class.expression && (self.at_start_of_stmt()
            || self.at_start_of_default_export());
        let ctx = ctx.and_forbid_call(false);
        self.wrap_open(wrap);
        self.enter_class();
        self.print_decorators(&class.decorators);
        self.print_space_before_identifier();
        self.add_source_mapping(class.span);
        if class.declare {
            self.print_str("declare ");
        }
        if class.is_abstract {
            self.print_str("abstract ");
        }
        self.print_str("class");
        match &class.id {
            Some(id) => {
                self.print_hard_space();
                self.emit_binding_identifier(id);
                self.print_type_parameters(&class.type_parameters, ctx);
            },
            None => {},
        }
        match &class.super_class {
            Some(super_class) => {
                self.print_str(" extends ");
                self.emit_expression(super_class, Precedence::Postfix, Context::empty());
                self.print_type_arguments(&class.super_type_arguments, ctx);
            },
            None => {},
        }
        self.emit_ts_implements_list(&class.implements, ctx);
        self.print_soft_space();
        self.emit_class_body(&class.body, ctx);
        self.set_needs_semicolon(false);
        self.exit_class();
        self.wrap_close(wrap);
    }

    #[verifier::spinoff_prover]
    pub fn emit_class_elements(&mut self, items: &Vec<ClassElement>, ctx: Context)
        requires
            old(self).wf(),
        ensures
            final(self).wf(),
            old(self)@.code.len() <= final(self)@.code.len(),
            final(self)@ == old(self)@.emit_class_elements(items@, items@.len(), ctx),
        decreases items@, items@.len(),
    {
        proof {
            reveal(State::emit_class_elements);
        }
        let mut i: usize = 0;
        while i < items.len()
            invariant
                i <= items.len(),
                self.wf(),
                old(self)@.code.len() <= self@.code.len(),
                self@ == old(self)@.emit_class_elements(items@, i as nat, ctx),
            decreases items.len() - i,
        {
            proof {
                reveal(State::emit_class_elements);
            }
            self.print_semicolon_if_needed();
            self.print_leading_comments(items[i].span().start);
            self.print_indent();
            self.emit_class_element(&items[i], ctx);
            i += 1;
        }
    }

    #[verifier::spinoff_prover]
    pub fn emit_class_body(&mut self, body: &ClassBody, ctx: Context)
        requires
            old(self).wf(),
        ensures
            final(self).wf(),
            old(self)@.code.len() <= final(self)@.code.len(),
            final(self)@ == old(self)@.emit_class_body(*body, ctx),
        decreases body, 0nat,
    {
        proof {
            reveal(State::emit_class_body);
        }
        let single_line = body.body.len() == 0;
        self.curly_open(body.span, single_line);
        self.emit_class_elements(&body.body, ctx);
        self.curly_close(single_line);
    }

    #[verifier::spinoff_prover]
    pub fn emit_class_element(&mut self, elem: &ClassElement, ctx: Context)
        requires
            old(self).wf(),
        ensures
            final(self).wf(),
            old(self)@.code.len() <= final(self)@.code.len(),
            final(self)@ == old(self)@.emit_class_element(*elem, ctx),
        decreases elem, 0nat,
    {
        proof {
            reveal(State::emit_class_element);
        }
        match elem {
            ClassElement::StaticBlock(block) => {
                self.emit_static_block(block, ctx);
                self.print_soft_newline();
            },
            ClassElement::MethodDefinition(method) => {
                self.emit_method_definition(method, ctx);
                self.print_soft_newline();
            },
            ClassElement::PropertyDefinition(prop) => {
                self.emit_property_definition(prop, ctx);
                self.print_semicolon_after_statement();
            },
            ClassElement::AccessorProperty(prop) => {
                self.emit_accessor_property(prop, ctx);
                self.print_semicolon_after_statement();
            },
            ClassElement::TSIndexSignature(signature) => {
                self.emit_ts_index_signature(signature, ctx);
                self.print_semicolon_after_statement();
            },
        }
    }

    #[verifier::spinoff_prover]
    pub fn emit_static_block(&mut self, block: &StaticBlock, ctx: Context)
        requires
            old(self).wf(),
        ensures
            final(self).wf(),
            old(self)@.code.len() <= final(self)@.code.len(),
            final(self)@ == old(self)@.emit_static_block(*block, ctx),
        decreases block, 0nat,
    {
        proof {
            reveal(State::emit_static_block);
        }
        let single_line = block.body.len() == 0;
        self.add_source_mapping(block.span);
        self.print_str("static");
        self.print_soft_space();
        self.curly_open(block.span, single_line);
        self.emit_statement_list(&block.body, ctx);
        self.curly_close(single_line);
        self.set_needs_semicolon(false);
    }

    #[verifier::spinoff_prover]
    pub fn emit_method_definition(&mut self, method: &MethodDefinition, ctx: Context)
        requires
            old(self).wf(),
        ensures
            final(self).wf(),
            old(self)@.code.len() <= final(self)@.code.len(),
            final(self)@ == old(self)@.emit_method_definition(*method, ctx),
        decreases method, 0nat,
    {
        proof {
            reveal(State::emit_method_definition);
        }
        self.add_source_mapping(method.span);
        self.print_decorators(&method.decorators);
        match method.accessibility {
            Some(accessibility) => self.print_modifier(accessibility.as_str()),
            None => {},
        }
        if method.is_abstract {
            self.print_modifier("abstract");
        }
        if method.is_static {
            self.print_modifier("static");
        }
        match method.kind {
            MethodDefinitionKind::Getter => self.print_modifier("get"),
            MethodDefinitionKind::Setter => self.print_modifier("set"),
            _ => {},
        }
        if method.value.is_async {
            self.print_modifier("async");
        }
        if method.value.generator {
            self.print_ascii_byte(0x2A);
        }
        self.bracket_open(method.computed);
        self.emit_property_key(&method.key, ctx);
        self.bracket_close(method.computed);
        if method.optional {
            self.print_ascii_byte(0x3F);
        }
        self.print_type_parameters(&method.value.type_parameters, ctx);
        self.print_ascii_byte(0x28);
        self.print_this_parameter(
            &method.value.this_param,
            has_parameters(&method.value.params),
            ctx,
        );
        self.emit_formal_parameters(&method.value.params, ctx);
        self.print_ascii_byte(0x29);
        self.print_type_annotation(&method.value.return_type, ctx);
        match &method.value.body {
            Some(body) => {
                self.print_soft_space();
                self.emit_function_body(body, ctx);
            },
            None => {
                self.print_semicolon();
            },
        }
    }

    #[verifier::spinoff_prover]
    pub fn emit_property_definition(&mut self, property: &PropertyDefinition, ctx: Context)
        requires
            old(self).wf(),
        ensures
            final(self).wf(),
            old(self)@.code.len() <= final(self)@.code.len(),
            final(self)@ == old(self)@.emit_property_definition(*property, ctx),
        decreases property, 0nat,
    {
        proof {
            reveal(State::emit_property_definition);
        }
        self.add_source_mapping(property.span);
        self.print_decorators(&property.decorators);
        if property.declare {
            self.print_modifier("declare");
        }
        match property.accessibility {
            Some(accessibility) => self.print_modifier(accessibility.as_str()),
            None => {},
        }
        if property.is_abstract {
            self.print_modifier("abstract");
        }
        if property.is_static {
            self.print_modifier("static");
        }
        if property.readonly {
            self.print_modifier("readonly");
        }
        self.bracket_open(property.computed);
        self.emit_property_key(&property.key, ctx);
        self.bracket_close(property.computed);
        if property.optional {
            self.print_ascii_byte(0x3F);
        }
        self.print_type_annotation(&property.type_annotation, ctx);
        match &property.value {
            Some(value) => {
                self.print_soft_space();
                self.print_equal();
                self.print_soft_space();
                self.emit_expression(value, Precedence::Comma, Context::empty());
            },
            None => {},
        }
    }

    #[verifier::spinoff_prover]
    pub fn emit_accessor_property(&mut self, property: &AccessorProperty, ctx: Context)
        requires
            old(self).wf(),
        ensures
            final(self).wf(),
            old(self)@.code.len() <= final(self)@.code.len(),
            final(self)@ == old(self)@.emit_accessor_property(*property, ctx),
        decreases property, 0nat,
    {
        proof {
            reveal(State::emit_accessor_property);
        }
        self.add_source_mapping(property.span);
        self.print_decorators(&property.decorators);
        if property.is_abstract {
            self.print_modifier("abstract");
        }
        match property.accessibility {
            Some(accessibility) => self.print_modifier(accessibility.as_str()),
            None => {},
        }
        if property.is_static {
            self.print_modifier("static");
        }
        if property.is_override {
            self.print_modifier("override");
        }
        self.print_space_before_identifier();
        self.print_str("accessor");
        if property.computed {
            self.print_soft_space();
            self.print_ascii_byte(0x5B);
        } else {
            self.print_hard_space();
        }
        self.emit_property_key(&property.key, ctx);
        self.bracket_close(property.computed);
        self.print_type_annotation(&property.type_annotation, ctx);
        match &property.value {
            Some(value) => {
                self.print_soft_space();
                self.print_equal();
                self.print_soft_space();
                self.emit_expression(value, Precedence::Comma, Context::empty());
            },
            None => {},
        }
    }
}

} // verus!

verus! {

fn is_string_statement_exec(stmt: &Statement) -> (b: bool)
    ensures
        b == is_string_statement(*stmt),
{
    match stmt {
        Statement::ExpressionStatement(s) => matches!(
            s.expression.without_parentheses(),
            Expression::StringLiteral(_)
        ),
        _ => false,
    }
}

impl Codegen {
    #[verifier::spinoff_prover]
    pub fn emit_statement_list(&mut self, stmts: &Vec<Statement>, ctx: Context)
        requires
            old(self).wf(),
        ensures
            final(self).wf(),
            old(self)@.code.len() <= final(self)@.code.len(),
            final(self)@ == old(self)@.emit_statement_list(stmts@, stmts@.len(), ctx),
        decreases stmts@, stmts@.len(),
    {
        proof {
            reveal(State::emit_statement_list);
        }
        let mut i: usize = 0;
        while i < stmts.len()
            invariant
                i <= stmts.len(),
                self.wf(),
                old(self)@.code.len() <= self@.code.len(),
                self@ == old(self)@.emit_statement_list(stmts@, i as nat, ctx),
            decreases stmts.len() - i,
        {
            proof {
                reveal(State::emit_statement_list);
            }
            self.print_semicolon_if_needed();
            self.emit_statement(&stmts[i], ctx);
            i += 1;
        }
    }

    #[verifier::spinoff_prover]
    pub fn emit_body_statements(&mut self, stmts: &Vec<Statement>, ctx: Context, no_directives: bool)
        requires
            old(self).wf(),
        ensures
            final(self).wf(),
            old(self)@.code.len() <= final(self)@.code.len(),
            final(self)@ == old(self)@.emit_body_statements(
                stmts@,
                stmts@.len(),
                ctx,
                no_directives,
            ),
        decreases stmts@, stmts@.len(),
    {
        proof {
            reveal(State::emit_body_statements);
        }
        let mut i: usize = 0;
        while i < stmts.len()
            invariant
                i <= stmts.len(),
                self.wf(),
                old(self)@.code.len() <= self@.code.len(),
                self@ == old(self)@.emit_body_statements(stmts@, i as nat, ctx, no_directives),
            decreases stmts.len() - i,
        {
            proof {
                reveal(State::emit_body_statements);
            }
            if i == 0 {
                if no_directives && is_string_statement_exec(&stmts[0]) {
                    match &stmts[0] {
                        Statement::ExpressionStatement(stmt) => {
                            self.emit_string_expression_directive(stmt);
                        },
                        _ => {},
                    }
                } else {
                    self.emit_statement(&stmts[0], ctx);
                }
            } else {
                self.print_semicolon_if_needed();
                self.emit_statement(&stmts[i], ctx);
            }
            i += 1;
        }
    }

    pub fn emit_string_expression_directive(&mut self, stmt: &ExpressionStatement)
        requires
            old(self).wf(),
        ensures
            final(self).wf(),
            old(self)@.code.len() <= final(self)@.code.len(),
            final(self)@ == old(self)@.emit_string_expression_directive(*stmt),
    {
        proof {
            reveal(State::emit_string_expression_directive);
        }
        self.print_ascii_byte(0x28);
        match stmt.expression.without_parentheses() {
            Expression::StringLiteral(lit) => {
                self.emit_string_literal(lit);
            },
            _ => {},
        }
        self.print_ascii_byte(0x29);
        self.print_semicolon_after_statement();
    }

    /// Prints a program.
    pub fn emit_program(&mut self, program: &Program, ctx: Context)
        requires
            old(self).wf(),
        ensures
            final(self).wf(),
            old(self)@.code.len() <= final(self)@.code.len(),
            final(self)@ == old(self)@.emit_program(*program, ctx),
    {
        proof {
            reveal(State::emit_program);
        }
        self.set_is_jsx(program.is_jsx);
        self.print_comments_at(0);
        match &program.hashbang {
            Some(hashbang) => {
                self.emit_hashbang(hashbang);
            },
            None => {},
        }
        self.emit_directives(&program.directives);
        self.emit_body_statements(&program.body, ctx, program.directives.len() == 0);
        self.print_semicolon_if_needed();
        self.print_comments_at(program.span.end);
    }

    /// Prints a statement.
    #[verifier::spinoff_prover]
    pub fn emit_statement(&mut self, stmt: &Statement, ctx: Context)
        requires
            old(self).wf(),
        ensures
            final(self).wf(),
            old(self)@.code.len() <= final(self)@.code.len(),
            final(self)@ == old(self)@.emit_statement(*stmt, ctx),
        decreases stmt, 0nat,
    {
        proof {
            reveal(State::emit_statement);
        }
        match stmt {
            Statement::BlockStatement(block) => {
                self.print_comments_at(block.span.start);
                self.emit_block_statement(block, ctx);
            },
            Statement::ExpressionStatement(s) => self.emit_expression_statement(s),
            Statement::VariableDeclaration(decl) => self.emit_variable_declaration_statement(
                decl,
                ctx,
            ),
            Statement::IfStatement(s) => self.emit_if_statement(s, ctx),
            Statement::ReturnStatement(s) => self.emit_return_statement(s),
            Statement::FunctionDeclaration(decl) => self.emit_function_declaration(decl, ctx),
            Statement::ForStatement(s) => self.emit_for_statement(s, ctx),
            Statement::WhileStatement(s) => self.emit_while_statement(s, ctx),
            Statement::DoWhileStatement(s) => self.emit_do_while_statement(s, ctx),
            Statement::SwitchStatement(s) => self.emit_switch_statement(s, ctx),
            Statement::BreakStatement(s) => self.emit_break_statement(s),
            Statement::ContinueStatement(s) => self.emit_continue_statement(s),
            Statement::TryStatement(s) => self.emit_try_statement(s, ctx),
            Statement::ThrowStatement(s) => self.emit_throw_statement(s),
            Statement::ForInStatement(s) => self.emit_for_in_statement(s, ctx),
            Statement::ForOfStatement(s) => self.emit_for_of_statement(s, ctx),
            Statement::ClassDeclaration(decl) => self.emit_class_declaration(decl, ctx),
            Statement::LabeledStatement(s) => self.emit_labeled_statement(s, ctx),
            Statement::EmptyStatement(s) => self.emit_empty_statement(s),
            Statement::ImportDeclaration(decl) => self.emit_import_declaration(decl),
            Statement::ExportNamedDeclaration(decl) => self.emit_export_named_declaration(
                decl,
                ctx,
            ),
            Statement::ExportDefaultDeclaration(decl) => self.emit_export_default_declaration(
                decl,
                ctx,
            ),
            Statement::ExportAllDeclaration(decl) => self.emit_export_all_declaration(decl),
            Statement::WithStatement(s) => self.emit_with_statement(s, ctx),
            Statement::DebuggerStatement(s) => self.emit_debugger_statement(s),
            Statement::TSModuleDeclaration(decl) => {
                self.print_comments_at(decl.span.start);
                self.print_indent();
                self.emit_ts_module_declaration(decl, ctx);
                self.print_soft_newline();
            },
            Statement::TSTypeAliasDeclaration(decl) => {
                self.print_indent();
                self.print_comments_at(decl.span.start);
                self.emit_ts_type_alias_declaration(decl, ctx);
                self.print_semicolon_after_statement();
            },
            Statement::TSInterfaceDeclaration(decl) => {
                self.print_indent();
                self.print_comments_at(decl.span.start);
                self.emit_ts_interface_declaration(decl, ctx);
                self.print_soft_newline();
            },
            Statement::TSEnumDeclaration(decl) => {
                self.print_indent();
                self.print_comments_at(decl.span.start);
                self.emit_ts_enum_declaration(decl, ctx);
                self.print_soft_newline();
            },
            Statement::TSExportAssignment(decl) => self.emit_ts_export_assignment(decl, ctx),
            Statement::TSNamespaceExportDeclaration(
                decl,
            ) => self.emit_ts_namespace_export_declaration(decl),
            Statement::TSImportEqualsDeclaration(decl) => {
                self.print_indent();
                self.print_comments_at(decl.span.start);
                self.emit_ts_import_equals_declaration(decl, ctx);
                self.print_semicolon_after_statement();
            },
        }
    }

    #[verifier::spinoff_prover]
    pub fn print_block_statement(&mut self, block: &BlockStatement, ctx: Context)
        requires
            old(self).wf(),
        ensures
            final(self).wf(),
            old(self)@.code.len() <= final(self)@.code.len(),
            final(self)@ == old(self)@.print_block_statement(*block, ctx),
        decreases block, 0nat,
    {
        proof {
            reveal(State::print_block_statement);
        }
        let single_line = block.body.len() == 0;
        self.curly_open(block.span, single_line);
        self.emit_statement_list(&block.body, ctx);
        self.curly_close(single_line);
        self.set_needs_semicolon(false);
    }

    #[verifier::spinoff_prover]
    pub fn emit_block_statement(&mut self, block: &BlockStatement, ctx: Context)
        requires
            old(self).wf(),
        ensures
            final(self).wf(),
            old(self)@.code.len() <= final(self)@.code.len(),
            final(self)@ == old(self)@.emit_block_statement(*block, ctx),
        decreases block, 1nat,
    {
        proof {
            reveal(State::emit_block_statement);
        }
        self.print_indent();
        self.print_block_statement(block, ctx);
        self.print_soft_newline();
    }

    #[verifier::spinoff_prover]
    pub fn print_body(&mut self, stmt: &Statement, need_space: bool, ctx: Context)
        requires
            old(self).wf(),
        ensures
            final(self).wf(),
            old(self)@.code.len() <= final(self)@.code.len(),
            final(self)@ == old(self)@.print_body(*stmt, need_space, ctx),
        decreases stmt, 1nat,
    {
        proof {
            reveal(State::print_body);
        }
        match stmt {
            Statement::BlockStatement(block) => {
                self.print_soft_space();
                self.print_block_statement(block, ctx);
                self.print_soft_newline();
            },
            Statement::EmptyStatement(_) => {
                self.print_semicolon();
                self.print_soft_newline();
            },
            _ => {
                if need_space && self.minify() {
                    self.print_hard_space();
                }
                self.set_print_next_indent_as_space(true);
                self.emit_statement(stmt, ctx);
            },
        }
    }

    #[verifier::spinoff_prover]
    pub fn emit_expression_statement(&mut self, stmt: &ExpressionStatement)
        requires
            old(self).wf(),
        ensures
            final(self).wf(),
            old(self)@.code.len() <= final(self)@.code.len(),
            final(self)@ == old(self)@.emit_expression_statement(*stmt),
        decreases stmt, 0nat,
    {
        proof {
            reveal(State::emit_expression_statement);
        }
        self.print_comments_at(stmt.span.start);
        if !self.minify() && (self.indent_level() > 0 || self.next_indent_is_space()) {
            self.add_source_mapping(stmt.span);
            self.print_indent();
        }
        self.mark_start_of_stmt();
        self.print_expression(&stmt.expression);
        self.print_semicolon_after_statement();
    }

    #[verifier::spinoff_prover]
    pub fn emit_variable_declarator(&mut self, decl: &VariableDeclarator, ctx: Context)
        requires
            old(self).wf(),
        ensures
            final(self).wf(),
            old(self)@.code.len() <= final(self)@.code.len(),
            final(self)@ == old(self)@.emit_variable_declarator(*decl, ctx),
        decreases decl, 0nat,
    {
        proof {
            reveal(State::emit_variable_declarator);
        }
        self.emit_binding_pattern_kind(&decl.id.kind, ctx);
        if decl.definite {
            self.print_ascii_byte(0x21);
        }
        if decl.id.optional {
            self.print_ascii_byte(0x3F);
        }
        self.print_type_annotation(&decl.id.type_annotation, ctx);
        match &decl.init {
            Some(init) => {
                self.print_soft_space();
                self.print_equal();
                self.print_soft_space();
                self.emit_expression(init, Precedence::Comma, ctx);
            },
            None => {},
        }
    }

    #[verifier::spinoff_prover]
    pub fn emit_declarators(&mut self, decls: &Vec<VariableDeclarator>, ctx: Context)
        requires
            old(self).wf(),
        ensures
            final(self).wf(),
            old(self)@.code.len() <= final(self)@.code.len(),
            final(self)@ == old(self)@.emit_declarators(decls@, decls@.len(), ctx),
        decreases decls@, decls@.len(),
    {
        proof {
            reveal(State::emit_declarators);
        }
        let mut i: usize = 0;
        while i < decls.len()
            invariant
                i <= decls.len(),
                self.wf(),
                old(self)@.code.len() <= self@.code.len(),
                self@ == old(self)@.emit_declarators(decls@, i as nat, ctx),
            decreases decls.len() - i,
        {
            proof {
                reveal(State::emit_declarators);
            }
            if i > 0 {
                self.print_comma();
                self.print_soft_space();
            }
            self.emit_variable_declarator(&decls[i], ctx);
            i += 1;
        }
    }

    #[verifier::spinoff_prover]
    pub fn emit_variable_declaration_inner(&mut self, decl: &VariableDeclaration, ctx: Context)
        requires
            old(self).wf(),
        ensures
            final(self).wf(),
            old(self)@.code.len() <= final(self)@.code.len(),
            final(self)@ == old(self)@.emit_variable_declaration_inner(*decl, ctx),
        decreases decl, 0nat,
    {
        proof {
            reveal(State::emit_variable_declaration_inner);
        }
        self.print_space_before_identifier();
        if decl.declare {
            self.print_str("declare ");
        }
        match decl.kind {
            VariableDeclarationKind::Const => self.print_str("const"),
            VariableDeclarationKind::Let => self.print_str("let"),
            VariableDeclarationKind::Var => self.print_str("var"),
            VariableDeclarationKind::Using => self.print_str("using"),
            VariableDeclarationKind::AwaitUsing => {
                self.print_str("await");
                self.print_hard_space();
                self.print_str("using");
            },
        }
        if decl.declarations.len() > 0 {
            self.print_soft_space();
        }
        self.emit_declarators(&decl.declarations, ctx);
    }

    #[verifier::spinoff_prover]
    pub fn emit_variable_declaration(&mut self, decl: &VariableDeclaration, ctx: Context)
        requires
            old(self).wf(),
        ensures
            final(self).wf(),
            old(self)@.code.len() <= final(self)@.code.len(),
            final(self)@ == old(self)@.emit_variable_declaration(*decl, ctx),
        decreases decl, 1nat,
    {
        proof {
            reveal(State::emit_variable_declaration);
        }
        self.add_source_mapping(decl.span);
        self.emit_variable_declaration_inner(decl, ctx);
    }

    #[verifier::spinoff_prover]
    pub fn emit_variable_declaration_statement(&mut self, decl: &VariableDeclaration, ctx: Context)
        requires
            old(self).wf(),
        ensures
            final(self).wf(),
            old(self)@.code.len() <= final(self)@.code.len(),
            final(self)@ == old(self)@.emit_variable_declaration_statement(*decl, ctx),
        decreases decl, 1nat,
    {
        proof {
            reveal(State::emit_variable_declaration_statement);
        }
        self.print_comments_at(decl.span.start);
        self.print_indent();
        self.emit_variable_declaration_inner(decl, ctx);
        self.print_semicolon_after_statement();
    }

    #[verifier::spinoff_prover]
    pub fn emit_if_statement(&mut self, stmt: &IfStatement, ctx: Context)
        requires
            old(self).wf(),
        ensures
            final(self).wf(),
            old(self)@.code.len() <= final(self)@.code.len(),
            final(self)@ == old(self)@.emit_if_statement(*stmt, ctx),
        decreases stmt, 1nat,
    {
        proof {
            reveal(State::emit_if_statement);
        }
        self.print_comments_at(stmt.span.start);
        self.add_source_mapping(stmt.span);
        self.print_indent();
        self.print_if(stmt, ctx);
    }

    #[verifier::spinoff_prover]
    pub fn print_if(&mut self, stmt: &IfStatement, ctx: Context)
        requires
            old(self).wf(),
        ensures
            final(self).wf(),
            old(self)@.code.len() <= final(self)@.code.len(),
            final(self)@ == old(self)@.print_if(*stmt, ctx),
        decreases stmt, 0nat,
    {
        proof {
            reveal(State::print_if);
        }
        self.print_space_before_identifier();
        self.print_str("if");
        self.print_soft_space();
        self.print_ascii_byte(0x28);
        self.print_expression(&stmt.test);
        self.print_ascii_byte(0x29);
        let has_else = stmt.alternate.is_some();
        match &stmt.consequent {
            Statement::BlockStatement(block) => {
                self.print_soft_space();
                self.print_block_statement(block, ctx);
                if has_else {
                    self.print_soft_space();
                } else {
                    self.print_soft_newline();
                }
            },
            _ => {
                if has_else && wrap_to_avoid_ambiguous_else(&stmt.consequent) {
                    self.print_soft_space();
                    self.add_source_mapping(stmt.consequent.span());
                    self.print_ascii_byte(0x7B);
                    self.print_soft_newline();
                    self.indent();
                    self.emit_statement(&stmt.consequent, ctx);
                    self.set_needs_semicolon(false);
                    self.dedent();
                    self.print_indent();
                    self.print_ascii_byte(0x7D);
                    self.print_soft_space();
                } else {
                    self.print_body(&stmt.consequent, false, ctx);
                    if has_else {
                        self.print_indent();
                    }
                }
            },
        }
        match &stmt.alternate {
            Some(alternate) => {
                self.print_semicolon_if_needed();
                self.print_space_before_identifier();
                self.print_str("else");
                match alternate {
                    Statement::BlockStatement(block) => {
                        self.print_soft_space();
                        self.print_block_statement(block, ctx);
                        self.print_soft_newline();
                    },
                    Statement::IfStatement(nested) => {
                        self.print_hard_space();
                        self.print_if(nested, ctx);
                    },
                    _ => {
                        self.print_body(alternate, true, ctx);
                    },
                }
            },
            None => {},
        }
    }

    #[verifier::spinoff_prover]
    pub fn emit_return_statement(&mut self, stmt: &ReturnStatement)
        requires
            old(self).wf(),
        ensures
            final(self).wf(),
            old(self)@.code.len() <= final(self)@.code.len(),
            final(self)@ == old(self)@.emit_return_statement(*stmt),
        decreases stmt, 0nat,
    {
        proof {
            reveal(State::emit_return_statement);
        }
        self.print_comments_at(stmt.span.start);
        self.add_source_mapping(stmt.span);
        self.print_indent();
        self.print_space_before_identifier();
        self.print_str("return");
        match &stmt.argument {
            Some(argument) => {
                self.print_soft_space();
                self.print_expression(argument);
            },
            None => {},
        }
        self.print_semicolon_after_statement();
    }

    #[verifier::spinoff_prover]
    pub fn emit_function_declaration(&mut self, decl: &Function, ctx: Context)
        requires
            old(self).wf(),
        ensures
            final(self).wf(),
            old(self)@.code.len() <= final(self)@.code.len(),
            final(self)@ == old(self)@.emit_function_declaration(*decl, ctx),
        decreases decl, 1nat,
    {
        proof {
            reveal(State::emit_function_declaration);
        }
        self.print_comments_at(decl.span.start);
        if decl.pure && self.print_annotation_comment() {
            self.print_indent();
            self.print_str("/* @__NO_SIDE_EFFECTS__ */\n");
        }
        self.print_indent();
        self.emit_function(decl, ctx);
        self.print_soft_newline();
    }

    #[verifier::spinoff_prover]
    pub fn emit_class_declaration(&mut self, decl: &Class, ctx: Context)
        requires
            old(self).wf(),
        ensures
            final(self).wf(),
            old(self)@.code.len() <= final(self)@.code.len(),
            final(self)@ == old(self)@.emit_class_declaration(*decl, ctx),
        decreases decl, 1nat,
    {
        proof {
            reveal(State::emit_class_declaration);
        }
        self.print_comments_at(decl.span.start);
        self.print_indent();
        self.emit_class(decl, ctx);
        self.print_soft_newline();
    }

    #[verifier::spinoff_prover]
    pub fn emit_for_statement_init(&mut self, init: &ForStatementInit, ctx: Context)
        requires
            old(self).wf(),
        ensures
            final(self).wf(),
            old(self)@.code.len() <= final(self)@.code.len(),
            final(self)@ == old(self)@.emit_for_statement_init(*init, ctx),
        decreases init, 0nat,
    {
        proof {
            reveal(State::emit_for_statement_init);
        }
        match init {
            ForStatementInit::VariableDeclaration(decl) => self.emit_variable_declaration(decl, ctx),
            ForStatementInit::Expression(e) => self.emit_expression(e, Precedence::Lowest, ctx),
        }
    }

    #[verifier::spinoff_prover]
    pub fn emit_for_statement_left(&mut self, left: &ForStatementLeft, ctx: Context)
        requires
            old(self).wf(),
        ensures
            final(self).wf(),
            old(self)@.code.len() <= final(self)@.code.len(),
            final(self)@ == old(self)@.emit_for_statement_left(*left, ctx),
        decreases left, 0nat,
    {
        proof {
            reveal(State::emit_for_statement_left);
        }
        match left {
            ForStatementLeft::VariableDeclaration(decl) => self.emit_variable_declaration(decl, ctx),
            ForStatementLeft::Target(target) => {
                let wrap = match target {
                    AssignmentTarget::Simple(
                        SimpleAssignmentTarget::AssignmentTargetIdentifier(ident),
                    ) => crate::text::str_equal(ident.name.as_str(), "async"),
                    _ => false,
                };
                self.wrap_open(wrap);
                self.emit_assignment_target(target, ctx);
                self.wrap_close(wrap);
            },
        }
    }

    #[verifier::spinoff_prover]
    pub fn emit_for_statement(&mut self, stmt: &ForStatement, ctx: Context)
        requires
            old(self).wf(),
        ensures
            final(self).wf(),
            old(self)@.code.len() <= final(self)@.code.len(),
            final(self)@ == old(self)@.emit_for_statement(*stmt, ctx),
        decreases stmt, 0nat,
    {
        proof {
            reveal(State::emit_for_statement);
        }
        self.print_comments_at(stmt.span.start);
        self.add_source_mapping(stmt.span);
        self.print_indent();
        self.print_space_before_identifier();
        self.print_str("for");
        self.print_soft_space();
        self.print_ascii_byte(0x28);
        match &stmt.init {
            Some(init) => {
                self.emit_for_statement_init(init, Context::only_forbid_in());
            },
            None => {},
        }
        self.print_semicolon();
        match &stmt.test {
            Some(test) => {
                self.print_soft_space();
                self.print_expression(test);
            },
            None => {},
        }
        self.print_semicolon();
        match &stmt.update {
            Some(update) => {
                self.print_soft_space();
                self.print_expression(update);
            },
            None => {},
        }
        self.print_ascii_byte(0x29);
        self.print_body(&stmt.body, false, ctx);
    }

    #[verifier::spinoff_prover]
    pub fn emit_for_in_statement(&mut self, stmt: &ForInStatement, ctx: Context)
        requires
            old(self).wf(),
        ensures
            final(self).wf(),
            old(self)@.code.len() <= final(self)@.code.len(),
            final(self)@ == old(self)@.emit_for_in_statement(*stmt, ctx),
        decreases stmt, 0nat,
    {
        proof {
            reveal(State::emit_for_in_statement);
        }
        self.print_comments_at(stmt.span.start);
        self.add_source_mapping(stmt.span);
        self.print_indent();
        self.print_space_before_identifier();
        self.print_str("for");
        self.print_soft_space();
        self.print_ascii_byte(0x28);
        self.emit_for_statement_left(&stmt.left, Context::only_forbid_in());
        self.print_soft_space();
        self.print_space_before_identifier();
        self.print_str("in");
        self.print_soft_space();
        self.print_expression(&stmt.right);
        self.print_ascii_byte(0x29);
        self.print_body(&stmt.body, false, ctx);
    }

    #[verifier::spinoff_prover]
    pub fn emit_for_of_statement(&mut self, stmt: &ForOfStatement, ctx: Context)
        requires
            old(self).wf(),
        ensures
            final(self).wf(),
            old(self)@.code.len() <= final(self)@.code.len(),
            final(self)@ == old(self)@.emit_for_of_statement(*stmt, ctx),
        decreases stmt, 0nat,
    {
        proof {
            reveal(State::emit_for_of_statement);
        }
        self.print_comments_at(stmt.span.start);
        self.add_source_mapping(stmt.span);
        self.print_indent();
        self.print_space_before_identifier();
        self.print_str("for");
        if stmt.is_await {
            self.print_str(" await");
        }
        self.print_soft_space();
        self.print_ascii_byte(0x28);
        self.emit_for_statement_left(&stmt.left, ctx);
        self.print_soft_space();
        self.print_space_before_identifier();
        self.print_str("of");
        self.print_soft_space();
        self.emit_expression(&stmt.right, Precedence::Comma, Context::empty());
        self.print_ascii_byte(0x29);
        self.print_body(&stmt.body, false, ctx);
    }

    #[verifier::spinoff_prover]
    pub fn emit_while_statement(&mut self, stmt: &WhileStatement, ctx: Context)
        requires
            old(self).wf(),
        ensures
            final(self).wf(),
            old(self)@.code.len() <= final(self)@.code.len(),
            final(self)@ == old(self)@.emit_while_statement(*stmt, ctx),
        decreases stmt, 0nat,
    {
        proof {
            reveal(State::emit_while_statement);
        }
        self.print_comments_at(stmt.span.start);
        self.add_source_mapping(stmt.span);
        self.print_indent();
        self.print_space_before_identifier();
        self.print_str("while");
        self.print_soft_space();
        self.print_ascii_byte(0x28);
        self.print_expression(&stmt.test);
        self.print_ascii_byte(0x29);
        self.print_body(&stmt.body, false, ctx);
    }

    #[verifier::spinoff_prover]
    pub fn emit_do_while_statement(&mut self, stmt: &DoWhileStatement, ctx: Context)
        requires
            old(self).wf(),
        ensures
            final(self).wf(),
            old(self)@.code.len() <= final(self)@.code.len(),
            final(self)@ == old(self)@.emit_do_while_statement(*stmt, ctx),
        decreases stmt, 0nat,
    {
        proof {
            reveal(State::emit_do_while_statement);
        }
        self.print_comments_at(stmt.span.start);
        self.add_source_mapping(stmt.span);
        self.print_indent();
        self.print_space_before_identifier();
        self.print_str("do");
        match &stmt.body {
            Statement::BlockStatement(block) => {
                self.print_soft_space();
                self.print_block_statement(block, ctx);
                self.print_soft_space();
            },
            Statement::EmptyStatement(empty) => {
                self.emit_empty_statement(empty);
            },
            _ => {
                self.print_soft_newline();
                self.indent();
                self.emit_statement(&stmt.body, ctx);
                self.print_semicolon_if_needed();
                self.dedent();
                self.print_indent();
            },
        }
        self.print_str("while");
        self.print_soft_space();
        self.print_ascii_byte(0x28);
        self.print_expression(&stmt.test);
        self.print_ascii_byte(0x29);
        self.print_semicolon_after_statement();
    }

    #[verifier::spinoff_prover]
    pub fn emit_switch_case(&mut self, case: &SwitchCase, ctx: Context)
        requires
            old(self).wf(),
        ensures
            final(self).wf(),
            old(self)@.code.len() <= final(self)@.code.len(),
            final(self)@ == old(self)@.emit_switch_case(*case, ctx),
        decreases case, 0nat,
    {
        proof {
            reveal(State::emit_switch_case);
        }
        self.print_semicolon_if_needed();
        self.print_indent();
        self.add_source_mapping(case.span);
        match &case.test {
            Some(test) => {
                self.print_str("case");
                self.print_soft_space();
                self.emit_expression(test, Precedence::Lowest, ctx);
            },
            None => {
                self.print_str("default");
            },
        }
        self.print_colon();
        if case.consequent.len() == 1 {
            self.print_body(&case.consequent[0], false, ctx);
        } else {
            self.print_soft_newline();
            self.indent();
            self.emit_statement_list(&case.consequent, ctx);
            self.dedent();
        }
    }

    #[verifier::spinoff_prover]
    pub fn emit_switch_cases(&mut self, cases: &Vec<SwitchCase>, ctx: Context)
        requires
            old(self).wf(),
        ensures
            final(self).wf(),
            old(self)@.code.len() <= final(self)@.code.len(),
            final(self)@ == old(self)@.emit_switch_cases(cases@, cases@.len(), ctx),
        decreases cases@, cases@.len(),
    {
        proof {
            reveal(State::emit_switch_cases);
        }
        let mut i: usize = 0;
        while i < cases.len()
            invariant
                i <= cases.len(),
                self.wf(),
                old(self)@.code.len() <= self@.code.len(),
                self@ == old(self)@.emit_switch_cases(cases@, i as nat, ctx),
            decreases cases.len() - i,
        {
            proof {
                reveal(State::emit_switch_cases);
            }
            self.emit_switch_case(&cases[i], ctx);
            i += 1;
        }
    }

    #[verifier::spinoff_prover]
    pub fn emit_switch_statement(&mut self, stmt: &SwitchStatement, ctx: Context)
        requires
            old(self).wf(),
        ensures
            final(self).wf(),
            old(self)@.code.len() <= final(self)@.code.len(),
            final(self)@ == old(self)@.emit_switch_statement(*stmt, ctx),
        decreases stmt, 0nat,
    {
        proof {
            reveal(State::emit_switch_statement);
        }
        let single_line = stmt.cases.len() == 0;
        self.print_comments_at(stmt.span.start);
        self.add_source_mapping(stmt.span);
        self.print_indent();
        self.print_space_before_identifier();
        self.print_str("switch");
        self.print_soft_space();
        self.print_ascii_byte(0x28);
        self.print_expression(&stmt.discriminant);
        self.print_ascii_byte(0x29);
        self.print_soft_space();
        self.curly_open(stmt.span, single_line);
        self.emit_switch_cases(&stmt.cases, ctx);
        self.curly_close(single_line);
        self.print_soft_newline();
        self.set_needs_semicolon(false);
    }

    #[verifier::spinoff_prover]
    pub fn emit_catch_clause(&mut self, clause: &CatchClause, ctx: Context)
        requires
            old(self).wf(),
        ensures
            final(self).wf(),
            old(self)@.code.len() <= final(self)@.code.len(),
            final(self)@ == old(self)@.emit_catch_clause(*clause, ctx),
        decreases clause, 0nat,
    {
        proof {
            reveal(State::emit_catch_clause);
        }
        self.print_soft_space();
        self.print_comments_at(clause.span.start);
        self.print_str("catch");
        match &clause.param {
            Some(param) => {
                self.print_soft_space();
                self.print_ascii_byte(0x28);
                self.emit_binding_pattern(param, ctx);
                self.print_ascii_byte(0x29);
            },
            None => {},
        }
        self.print_soft_space();
        self.print_block_statement(&clause.body, ctx);
    }

    #[verifier::spinoff_prover]
    pub fn emit_try_statement(&mut self, stmt: &TryStatement, ctx: Context)
        requires
            old(self).wf(),
        ensures
            final(self).wf(),
            old(self)@.code.len() <= final(self)@.code.len(),
            final(self)@ == old(self)@.emit_try_statement(*stmt, ctx),
        decreases stmt, 0nat,
    {
        proof {
            reveal(State::emit_try_statement);
        }
        self.print_comments_at(stmt.span.start);
        self.add_source_mapping(stmt.span);
        self.print_indent();
        self.print_space_before_identifier();
        self.print_str("try");
        self.print_soft_space();
        self.print_block_statement(&stmt.block, ctx);
        match &stmt.handler {
            Some(handler) => {
                self.emit_catch_clause(handler, ctx);
            },
            None => {},
        }
        match &stmt.finalizer {
            Some(finalizer) => {
                self.print_soft_space();
                self.print_str("finally");
                self.print_soft_space();
                self.print_block_statement(finalizer, ctx);
            },
            None => {},
        }
        self.print_soft_newline();
    }

    #[verifier::spinoff_prover]
    pub fn emit_throw_statement(&mut self, stmt: &ThrowStatement)
        requires
            old(self).wf(),
        ensures
            final(self).wf(),
            old(self)@.code.len() <= final(self)@.code.len(),
            final(self)@ == old(self)@.emit_throw_statement(*stmt),
        decreases stmt, 0nat,
    {
        proof {
            reveal(State::emit_throw_statement);
        }
        self.print_comments_at(stmt.span.start);
        self.add_source_mapping(stmt.span);
        self.print_indent();
        self.print_space_before_identifier();
        self.print_str("throw");
        self.print_soft_space();
        self.print_expression(&stmt.argument);
        self.print_semicolon_after_statement();
    }

    #[verifier::spinoff_prover]
    pub fn emit_with_statement(&mut self, stmt: &WithStatement, ctx: Context)
        requires
            old(self).wf(),
        ensures
            final(self).wf(),
            old(self)@.code.len() <= final(self)@.code.len(),
            final(self)@ == old(self)@.emit_with_statement(*stmt, ctx),
        decreases stmt, 0nat,
    {
        proof {
            reveal(State::emit_with_statement);
        }
        self.print_comments_at(stmt.span.start);
        self.add_source_mapping(stmt.span);
        self.print_indent();
        self.print_space_before_identifier();
        self.print_str("with");
        self.print_ascii_byte(0x28);
        self.print_expression(&stmt.object);
        self.print_ascii_byte(0x29);
        self.print_body(&stmt.body, false, ctx);
    }

    #[verifier::spinoff_prover]
    pub fn emit_labeled_statement(&mut self, stmt: &LabeledStatement, ctx: Context)
        requires
            old(self).wf(),
        ensures
            final(self).wf(),
            old(self)@.code.len() <= final(self)@.code.len(),
            final(self)@ == old(self)@.emit_labeled_statement(*stmt, ctx),
        decreases stmt, 0nat,
    {
        proof {
            reveal(State::emit_labeled_statement);
        }
        self.print_comments_at(stmt.span.start);
        if !self.minify() && (self.indent_level() > 0 || self.next_indent_is_space()) {
            self.add_source_mapping(stmt.span);
            self.print_indent();
        }
        self.print_space_before_identifier();
        self.emit_label_identifier(&stmt.label);
        self.print_colon();
        self.print_body(&stmt.body, false, ctx);
    }

    #[verifier::spinoff_prover]
    pub fn emit_export_named_declaration(&mut self, decl: &ExportNamedDeclaration, ctx: Context)
        requires
            old(self).wf(),
        ensures
            final(self).wf(),
            old(self)@.code.len() <= final(self)@.code.len(),
            final(self)@ == old(self)@.emit_export_named_declaration(*decl, ctx),
        decreases decl, 0nat,
    {
        proof {
            reveal(State::emit_export_named_declaration);
        }
        self.print_comments_at(decl.span.start);
        match &decl.declaration {
            Some(Declaration::FunctionDeclaration(func)) => {
                if func.pure && self.print_annotation_comment() {
                    self.print_str("/* @__NO_SIDE_EFFECTS__ */\n");
                }
            },
            _ => {},
        }
        self.add_source_mapping(decl.span);
        self.print_indent();
        self.print_str("export");
        match &decl.declaration {
            Some(item) => {
                self.print_hard_space();
                match item {
                    Declaration::VariableDeclaration(d) => {
                        self.emit_variable_declaration(d, ctx);
                        self.print_semicolon_after_statement();
                    },
                    Declaration::FunctionDeclaration(d) => {
                        self.emit_function(d, ctx);
                        self.print_soft_newline();
                        self.set_needs_semicolon(false);
                    },
                    Declaration::ClassDeclaration(d) => {
                        self.emit_class(d, ctx);
                        self.print_soft_newline();
                        self.set_needs_semicolon(false);
                    },
                    Declaration::TSModuleDeclaration(d) => {
                        self.emit_ts_module_declaration(d, ctx);
                        self.print_soft_newline();
                        self.set_needs_semicolon(false);
                    },
                    Declaration::TSTypeAliasDeclaration(d) => {
                        self.emit_ts_type_alias_declaration(d, ctx);
                        self.print_semicolon_after_statement();
                    },
                    Declaration::TSInterfaceDeclaration(d) => {
                        self.emit_ts_interface_declaration(d, ctx);
                        self.print_soft_newline();
                        self.set_needs_semicolon(false);
                    },
                    Declaration::TSEnumDeclaration(d) => {
                        self.emit_ts_enum_declaration(d, ctx);
                        self.print_soft_newline();
                        self.set_needs_semicolon(false);
                    },
                    Declaration::TSImportEqualsDeclaration(d) => {
                        self.emit_ts_import_equals_declaration(d, ctx);
                        self.print_semicolon_after_statement();
                    },
                }
            },
            None => {
                if decl.export_kind.is_type() {
                    self.print_hard_space();
                    self.print_str("type");
                }
                self.print_soft_space();
                self.print_ascii_byte(0x7B);
                if decl.specifiers.len() > 0 {
                    self.print_soft_space();
                    self.emit_export_specifiers(&decl.specifiers);
                    self.print_soft_space();
                }
                self.print_ascii_byte(0x7D);
                match &decl.source {
                    Some(source) => {
                        self.print_soft_space();
                        self.print_str("from");
                        self.print_soft_space();
                        self.emit_string_literal(source);
                    },
                    None => {},
                }
                self.print_semicolon_after_statement();
            },
        }
    }

    #[verifier::spinoff_prover]
    pub fn emit_export_default_declaration(&mut self, decl: &ExportDefaultDeclaration, ctx: Context)
        requires
            old(self).wf(),
        ensures
            final(self).wf(),
            old(self)@.code.len() <= final(self)@.code.len(),
            final(self)@ == old(self)@.emit_export_default_declaration(*decl, ctx),
        decreases decl, 0nat,
    {
        proof {
            reveal(State::emit_export_default_declaration);
        }
        self.print_comments_at(decl.span.start);
        match &decl.declaration {
            ExportDefaultDeclarationKind::FunctionDeclaration(func) => {
                if func.pure && self.print_annotation_comment() {
                    self.print_str("/* @__NO_SIDE_EFFECTS__ */\n");
                }
            },
            _ => {},
        }
        self.add_source_mapping(decl.span);
        self.print_indent();
        self.print_str("export default ");
        match &decl.declaration {
            ExportDefaultDeclarationKind::FunctionDeclaration(func) => {
                self.emit_function(func, ctx);
                self.print_soft_newline();
            },
            ExportDefaultDeclarationKind::ClassDeclaration(class) => {
                self.emit_class(class, ctx);
                self.print_soft_newline();
            },
            ExportDefaultDeclarationKind::TSInterfaceDeclaration(interface) => {
                self.emit_ts_interface_declaration(interface, ctx);
            },
            ExportDefaultDeclarationKind::Expression(e) => {
                self.mark_start_of_default_export();
                self.emit_expression(e, Precedence::Comma, Context::empty());
                self.print_semicolon_after_statement();
            },
        }
    }

    /// Prints a program: its text, the record for a source map where the options name
    /// a path for one, and the legal comments that the options ask to be handed back.
    /// What the printer holds already and the room that the print asks for at its start
    /// have to fit into the largest length that a text can have; a new printer holds
    /// nothing, so any program can be printed with one.
    pub fn build(self, program: &Program) -> (ret: crate::codegen::CodegenReturn)
        requires
            self.wf(),
            self@.code.len() + crate::codegen::spec_room_for(
                encode_utf8(program.source_text@).len(),
            ) <= usize::MAX,
        ensures
            ret.code@ == decode_utf8(self@.build(*program).code),
            ret.legal_comments@ == self@.printed(*program).returned_legal_comments(
                encode_utf8(program.source_text@),
                program.comments@,
            ),
            match ret.map {
                Some(map) => self@.build(*program).sourcemap is Some && map.file@ == self@.build(
                    *program,
                ).sourcemap->0.path && encode_utf8(map.source@) == self@.build(
                    *program,
                ).sourcemap->0.source && crate::sourcemap::mappings_view(map.mappings@)
                    == self@.build(*program).sourcemap->0.entries,
                None => self@.build(*program).sourcemap is None,
            },
    {
        proof {
            reveal(State::build);
            reveal(State::printed);
        }
        let mut p = self;
        p.begin(program.source_text.as_str(), &program.comments);
        p.emit_program(program, Context::empty());
        let legal_comments = p.handle_eof_linked_or_external_comments(
            program.source_text.as_str(),
            &program.comments,
        );
        p.finish(legal_comments)
    }
}

} // verus!
