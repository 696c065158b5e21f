//! The context that a node is printed in.

use vstd::prelude::*;

verus! {

/// Restrictions that the surroundings put on how an expression is printed.
#[derive(Clone, Copy, Debug, PartialEq, Eq, Structural)]
pub struct Context {
    /// Inside the head of a `for` statement: an `in` operator must stand in parentheses.
    pub forbid_in: bool,
    /// The position does not admit a call without parentheses.
    pub forbid_call: bool,
    /// Inside a type.
    pub typescript: bool,
}

impl Context {
    pub open spec fn spec_empty() -> Context {
        Context { forbid_in: false, forbid_call: false, typescript: false }
    }

    pub open spec fn spec_forbid_in() -> Context {
        Context { forbid_in: true, forbid_call: false, typescript: false }
    }

    pub open spec fn spec_forbid_call() -> Context {
        Context { forbid_in: false, forbid_call: true, typescript: false }
    }

    /// No restriction.
    pub fn empty() -> (c: Context)
        ensures
            c == Context::spec_empty(),
    {
        Context { forbid_in: false, forbid_call: false, typescript: false }
    }

    /// Only `in` is forbidden.
    pub fn only_forbid_in() -> (c: Context)
        ensures
            c == Context::spec_forbid_in(),
    {
        Context { forbid_in: true, forbid_call: false, typescript: false }
    }

    /// Only calls are forbidden.
    pub fn only_forbid_call() -> (c: Context)
        ensures
            c == Context::spec_forbid_call(),
    {
        Context { forbid_in: false, forbid_call: true, typescript: false }
    }

    pub open spec fn spec_pass_forbid_in(self) -> Context {
        Context { forbid_in: self.forbid_in, forbid_call: false, typescript: false }
    }

    pub open spec fn spec_pass_forbid_call(self) -> Context {
        Context { forbid_in: false, forbid_call: self.forbid_call, typescript: false }
    }

    pub open spec fn spec_and_forbid_in(self, on: bool) -> Context {
        Context { forbid_in: on, ..self }
    }

    pub open spec fn spec_and_forbid_call(self, on: bool) -> Context {
        Context { forbid_call: on, ..self }
    }

    pub open spec fn spec_with_typescript(self) -> Context {
        Context { typescript: true, ..self }
    }

    /// What is left of this context when only the flag on `in` is handed down.
    pub fn pass_forbid_in(self) -> (c: Context)
        ensures
            c == self.spec_pass_forbid_in(),
    {
        Context { forbid_in: self.forbid_in, forbid_call: false, typescript: false }
    }

    /// What is left of this context when only the flag on calls is handed down.
    pub fn pass_forbid_call(self) -> (c: Context)
        ensures
            c == self.spec_pass_forbid_call(),
    {
        Context { forbid_in: false, forbid_call: self.forbid_call, typescript: false }
    }

    /// This context with the flag on `in` set or cleared.
    pub fn and_forbid_in(self, on: bool) -> (c: Context)
        ensures
            c == self.spec_and_forbid_in(on),
    {
        Context { forbid_in: on, forbid_call: self.forbid_call, typescript: self.typescript }
    }

    /// This context with the flag on calls set or cleared.
    pub fn and_forbid_call(self, on: bool) -> (c: Context)
        ensures
            c == self.spec_and_forbid_call(on),
    {
        Context { forbid_in: self.forbid_in, forbid_call: on, typescript: self.typescript }
    }

    /// This context inside a type.
    pub fn with_typescript(self) -> (c: Context)
        ensures
            c == self.spec_with_typescript(),
    {
        Context { forbid_in: self.forbid_in, forbid_call: self.forbid_call, typescript: true }
    }
}

impl Default for Context {
    fn default() -> (c: Context)
        ensures
            c == Context::spec_empty(),
    {
        Context::empty()
    }
}

} // verus!
