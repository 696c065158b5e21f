//! Chains of binary and logical expressions.
//!
//! A chain such as `a || b || c || d` is a tree that leans to the left, and it can be
//! as deep as the chain is long. So the left operands are not printed by a call inside
//! a call: the printer walks down the left edge of the tree, keeps a frame for each
//! operator that it passes, prints the innermost operand, and then finishes the frames
//! from the innermost outwards.

use crate::ast::Expression;
use crate::codegen::Codegen;
use crate::context::Context;
use crate::emit::{binary_levels, logical_levels};
use crate::gen::{spec_binary_levels, spec_logical_levels};
use crate::operator::{BinaryOperator, Precedence};
use crate::state::State;
use oxc_data_structures::stack::Stack;
use vstd::prelude::*;

verus! {

/// What is left to do for an operator whose left operand is being printed: the
/// expression, the context for its operands, and whether it stands in parentheses.
pub struct SpineFrame<'a> {
    pub node: &'a Expression,
    pub ctx: Context,
    pub wrap: bool,
}

/// What a stack of frames holds, the oldest first.
pub uninterp spec fn spine_stack_frames(stack: Stack<SpineFrame>) -> Seq<SpineFrame>;

/// How many frames a stack is given at most. A frame takes far fewer than 64 bytes, so
/// this many fit into the largest allocation.
pub const SPINE_STACK_LIMIT: usize = (isize::MAX as usize) / 64;

/// `Stack::new` of the oxc_data_structures crate: a stack that holds nothing.
#[verifier::external_body]
fn spine_stack_new<'a>() -> (stack: Stack<SpineFrame<'a>>)
    ensures
        spine_stack_frames(stack) == Seq::<SpineFrame>::empty(),
{
    Stack::new()
}

/// `Stack::len` of the oxc_data_structures crate: how many items the stack holds.
#[verifier::external_body]
fn spine_stack_len(stack: &Stack<SpineFrame>) -> (n: usize)
    ensures
        n == spine_stack_frames(*stack).len(),
{
    stack.len()
}

/// `Stack::push` of the oxc_data_structures crate: the item is put on top. The crate
/// panics where the stack already holds as many items as it can, so that is ruled out.
#[verifier::external_body]
fn spine_stack_push<'a>(stack: &mut Stack<SpineFrame<'a>>, frame: SpineFrame<'a>)
    requires
        spine_stack_frames(*old(stack)).len() < SPINE_STACK_LIMIT,
    ensures
        spine_stack_frames(*final(stack)) == spine_stack_frames(*old(stack)).push(frame),
{
    stack.push(frame)
}

/// `Stack::pop` of the oxc_data_structures crate: the item on top is taken off and
/// handed out, and `None` where the stack holds nothing.
#[verifier::external_body]
fn spine_stack_pop<'a>(stack: &mut Stack<SpineFrame<'a>>) -> (top: Option<SpineFrame<'a>>)
    ensures
        match top {
            Some(frame) => spine_stack_frames(*old(stack)).len() > 0 && frame
                == spine_stack_frames(*old(stack)).last() && spine_stack_frames(*final(stack))
                == spine_stack_frames(*old(stack)).drop_last(),
            None => spine_stack_frames(*old(stack)).len() == 0 && spine_stack_frames(
                *final(stack),
            ) == spine_stack_frames(*old(stack)),
        },
{
    stack.pop()
}

/// The expression is a binary or a logical expression.
pub open spec fn spec_is_binaryish(expr: Expression) -> bool {
    expr is BinaryExpression || expr is LogicalExpression
}

pub fn is_binaryish(expr: &Expression) -> (b: bool)
    ensures
        b == spec_is_binaryish(*expr),
{
    match expr {
        Expression::BinaryExpression(_) | Expression::LogicalExpression(_) => true,
        _ => false,
    }
}

/// A binary or logical expression stands in parentheses where the surroundings bind at
/// least as tightly as its operator, and where it is an `in` inside the head of a `for`
/// statement.
pub open spec fn spec_spine_wrap(expr: Expression, precedence: Precedence, ctx: Context) -> bool {
    match expr {
        Expression::BinaryExpression(e) => precedence.spec_at_least(e.operator.spec_precedence())
            || (e.operator is In && ctx.forbid_in),
        Expression::LogicalExpression(e) => precedence.spec_at_least(e.operator.spec_precedence()),
        _ => false,
    }
}

/// The context for the operands: inside parentheses an `in` is free again.
pub open spec fn spec_spine_ctx(wrap: bool, ctx: Context) -> Context {
    if wrap {
        ctx.spec_and_forbid_in(false)
    } else {
        ctx
    }
}

/// The left operand of a binary or logical expression, and the expression itself for
/// any other.
pub open spec fn spine_left(expr: Expression) -> Expression {
    match expr {
        Expression::BinaryExpression(e) => e.left,
        Expression::LogicalExpression(e) => e.left,
        _ => expr,
    }
}

/// The level at which the left operand is printed.
pub open spec fn spine_left_level(expr: Expression) -> Precedence {
    match expr {
        Expression::BinaryExpression(e) => spec_binary_levels(*e).left,
        Expression::LogicalExpression(e) => spec_logical_levels(*e).left,
        _ => Precedence::Lowest,
    }
}

/// Every frame holds `root` or an expression inside it.
pub open spec fn within(frames: Seq<SpineFrame>, root: Expression) -> bool {
    forall|i: int|
        0 <= i < frames.len() ==> *(#[trigger] frames[i]).node == root || decreases_to!(root => *frames[i].node)
}

impl State {
    /// What follows the left operand of a binary or logical expression: the operator,
    /// the right operand, and the closing parenthesis where there is one. Nothing for
    /// any other expression.
    #[verifier::opaque]
    pub open spec fn finish_binaryish(self, node: Expression, ctx: Context, wrap: bool) -> State {
        match node {
            Expression::BinaryExpression(e) => self.print_soft_space().print_binary_operator(
                e.operator,
            ).print_soft_space().emit_expression(
                e.right,
                spec_binary_levels(*e).right,
                ctx.spec_pass_forbid_in(),
            ).wrap_close(wrap),
            Expression::LogicalExpression(e) => self.print_soft_space().print_chars(
                e.operator.spec_str()@,
            ).print_soft_space().emit_expression(
                e.right,
                spec_logical_levels(*e).right,
                ctx.spec_pass_forbid_in(),
            ).wrap_close(wrap),
            _ => self,
        }
    }

    /// The frames finished one after the other, the last of them first.
    pub open spec fn ascend(self, frames: Seq<SpineFrame>) -> State
        decreases frames.len(),
    {
        if frames.len() == 0 {
            self
        } else {
            self.finish_binaryish(
                *frames.last().node,
                frames.last().ctx,
                frames.last().wrap,
            ).ascend(frames.drop_last())
        }
    }

    /// Printing a binary or logical expression is: the opening parenthesis where it has
    /// one, its left operand, and what follows the left operand.
    pub proof fn lemma_binaryish_unfolds(self, expr: Expression, precedence: Precedence, ctx: Context)
        requires
            spec_is_binaryish(expr),
        ensures
            self.emit_expression(expr, precedence, ctx) == self.wrap_open(
                spec_spine_wrap(expr, precedence, ctx),
            ).emit_expression(
                spine_left(expr),
                spine_left_level(expr),
                spec_spine_ctx(spec_spine_wrap(expr, precedence, ctx), ctx),
            ).finish_binaryish(
                expr,
                spec_spine_ctx(spec_spine_wrap(expr, precedence, ctx), ctx),
                spec_spine_wrap(expr, precedence, ctx),
            ),
    {
        reveal(State::emit_expression);
        reveal(State::emit_operator_expression);
        reveal(State::emit_binary_expression);
        reveal(State::emit_logical_expression);
        reveal(State::finish_binaryish);
    }
}

impl Codegen {
    /// Prints an expression as `emit_expression` does. Where it is a chain of binary
    /// and logical expressions, the chain is walked down its left edge and finished
    /// from the innermost operator outwards, so that a long chain needs no deep calls.
    /// Should the stack of frames ever be full, what is left of the chain is printed by
    /// calls.
    #[verifier::spinoff_prover]
    pub fn emit_left_spine(&mut self, expr: &Expression, precedence: Precedence, ctx: Context)
        requires
            old(self).wf(),
        ensures
            final(self).wf(),
            old(self)@.code.len() <= final(self)@.code.len(),
            final(self)@ == old(self)@.emit_expression(*expr, precedence, ctx),
        decreases expr, 2nat,
    {
        let ghost goal = self@.emit_expression(*expr, precedence, ctx);
        let mut stack = spine_stack_new();
        let mut node: &Expression = expr;
        let mut level = precedence;
        let mut context = ctx;
        while is_binaryish(node) && spine_stack_len(&stack) < SPINE_STACK_LIMIT
            invariant
                self.wf(),
                old(self)@.code.len() <= self@.code.len(),
                *node == *expr || decreases_to!(*expr => *node),
                goal == self@.emit_expression(*node, level, context).ascend(spine_stack_frames(stack)),
                within(spine_stack_frames(stack), *expr),
            decreases *node,
        {
            let wrap = match node {
                Expression::BinaryExpression(e) => level.at_least(e.operator.precedence())
                    || (matches!(e.operator, BinaryOperator::In) && context.forbid_in),
                Expression::LogicalExpression(e) => level.at_least(e.operator.precedence()),
                _ => false,
            };
            let inner = if wrap {
                context.and_forbid_in(false)
            } else {
                context
            };
            proof {
                self@.lemma_binaryish_unfolds(*node, level, context);
            }
            let ghost before = spine_stack_frames(stack);
            let ghost top = self@.wrap_open(wrap).emit_expression(
                spine_left(*node),
                spine_left_level(*node),
                inner,
            );
            self.wrap_open(wrap);
            let frame = SpineFrame { node, ctx: inner, wrap };
            spine_stack_push(&mut stack, frame);
            proof {
                assert(spine_stack_frames(stack).drop_last() == before);
                assert(spine_stack_frames(stack).last() == frame);
                assert(top.ascend(spine_stack_frames(stack)) == top.finish_binaryish(*node, inner, wrap).ascend(before));
            }
            match node {
                Expression::BinaryExpression(e) => {
                    level = binary_levels(e).left;
                    node = &e.left;
                },
                Expression::LogicalExpression(e) => {
                    level = logical_levels(e).left;
                    node = &e.left;
                },
                _ => {},
            }
            context = inner;
        }
        self.emit_expression(node, level, context);
        while spine_stack_len(&stack) > 0
            invariant
                self.wf(),
                old(self)@.code.len() <= self@.code.len(),
                goal == self@.ascend(spine_stack_frames(stack)),
                within(spine_stack_frames(stack), *expr),
            decreases spine_stack_frames(stack).len(),
        {
            proof {
                reveal(State::finish_binaryish);
            }
            let ghost before = spine_stack_frames(stack);
            match spine_stack_pop(&mut stack) {
                Some(frame) => match frame.node {
                    Expression::BinaryExpression(e) => {
                        self.print_soft_space();
                        self.print_binary_operator(e.operator);
                        self.print_soft_space();
                        self.emit_expression(
                            &e.right,
                            binary_levels(e).right,
                            frame.ctx.pass_forbid_in(),
                        );
                        self.wrap_close(frame.wrap);
                    },
                    Expression::LogicalExpression(e) => {
                        self.print_soft_space();
                        self.print_str(e.operator.as_str());
                        self.print_soft_space();
                        self.emit_expression(
                            &e.right,
                            logical_levels(e).right,
                            frame.ctx.pass_forbid_in(),
                        );
                        self.wrap_close(frame.wrap);
                    },
                    _ => {},
                },
                None => {},
            }
        }
    }
}

} // verus!
