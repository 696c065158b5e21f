//! Printing as a capability of the nodes themselves.

use crate::ast::{Class, Directive, Expression, Function, Hashbang, Program, Statement};
use crate::codegen::Codegen;
use crate::context::Context;
use crate::jsx::{JSXElement, JSXFragment};
use crate::operator::Precedence;
use crate::state::State;
use crate::typescript::{TSType, TSTypeAnnotation};
use vstd::prelude::*;

verus! {

/// A node that can be printed.
pub trait Gen {
    /// What printing the node does to the state of a printer.
    spec fn printed(&self, state: State, ctx: Context) -> State;

    /// Prints the node.
    fn print(&self, p: &mut Codegen, ctx: Context)
        requires
            old(p).wf(),
        ensures
            final(p).wf(),
            old(p)@.code.len() <= final(p)@.code.len(),
            final(p)@ == self.printed(old(p)@, ctx),
    ;
}

/// An expression that can be printed where a level of precedence is asked for.
pub trait GenExpr {
    /// What printing the expression does to the state of a printer.
    spec fn printed_expr(&self, state: State, precedence: Precedence, ctx: Context) -> State;

    /// Prints the expression.
    fn print_expr(&self, p: &mut Codegen, precedence: Precedence, ctx: Context)
        requires
            old(p).wf(),
        ensures
            final(p).wf(),
            old(p)@.code.len() <= final(p)@.code.len(),
            final(p)@ == self.printed_expr(old(p)@, precedence, ctx),
    ;
}

impl Gen for Program {
    open spec fn printed(&self, state: State, ctx: Context) -> State {
        state.emit_program(*self, ctx)
    }

    fn print(&self, p: &mut Codegen, ctx: Context) {
        p.emit_program(self, ctx);
    }
}

impl Gen for Hashbang {
    open spec fn printed(&self, state: State, ctx: Context) -> State {
        state.emit_hashbang(*self)
    }

    fn print(&self, p: &mut Codegen, ctx: Context) {
        p.emit_hashbang(self);
    }
}

impl Gen for Directive {
    open spec fn printed(&self, state: State, ctx: Context) -> State {
        state.emit_directive(*self)
    }

    fn print(&self, p: &mut Codegen, ctx: Context) {
        p.emit_directive(self);
    }
}

impl Gen for Statement {
    open spec fn printed(&self, state: State, ctx: Context) -> State {
        state.emit_statement(*self, ctx)
    }

    fn print(&self, p: &mut Codegen, ctx: Context) {
        p.emit_statement(self, ctx);
    }
}

impl Gen for Function {
    open spec fn printed(&self, state: State, ctx: Context) -> State {
        state.emit_function(*self, ctx)
    }

    fn print(&self, p: &mut Codegen, ctx: Context) {
        p.emit_function(self, ctx);
    }
}

impl Gen for Class {
    open spec fn printed(&self, state: State, ctx: Context) -> State {
        state.emit_class(*self, ctx)
    }

    fn print(&self, p: &mut Codegen, ctx: Context) {
        p.emit_class(self, ctx);
    }
}

impl Gen for TSType {
    open spec fn printed(&self, state: State, ctx: Context) -> State {
        state.emit_ts_type(*self, ctx)
    }

    fn print(&self, p: &mut Codegen, ctx: Context) {
        p.emit_ts_type(self, ctx);
    }
}

impl Gen for TSTypeAnnotation {
    open spec fn printed(&self, state: State, ctx: Context) -> State {
        state.emit_ts_type_annotation(*self, ctx)
    }

    fn print(&self, p: &mut Codegen, ctx: Context) {
        p.emit_ts_type_annotation(self, ctx);
    }
}

impl Gen for JSXElement {
    open spec fn printed(&self, state: State, ctx: Context) -> State {
        state.emit_jsx_element(*self)
    }

    fn print(&self, p: &mut Codegen, ctx: Context) {
        p.emit_jsx_element(self);
    }
}

impl Gen for JSXFragment {
    open spec fn printed(&self, state: State, ctx: Context) -> State {
        state.emit_jsx_fragment(*self)
    }

    fn print(&self, p: &mut Codegen, ctx: Context) {
        p.emit_jsx_fragment(self);
    }
}

impl GenExpr for Expression {
    open spec fn printed_expr(&self, state: State, precedence: Precedence, ctx: Context) -> State {
        state.emit_expression(*self, precedence, ctx)
    }

    fn print_expr(&self, p: &mut Codegen, precedence: Precedence, ctx: Context) {
        p.emit_expression(self, precedence, ctx);
    }
}

} // verus!
