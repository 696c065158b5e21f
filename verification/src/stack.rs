//! The stack of the classes that the printer is inside of.

use oxc_data_structures::stack::Stack;
use vstd::prelude::*;

verus! {

/// `Stack` of the oxc_data_structures crate: a stack that keeps its items in one
/// allocation. Nothing is said of how it does so.
#[verifier::external_type_specification]
#[verifier::external_body]
#[verifier::reject_recursive_types(T)]
pub struct ExStack<T>(Stack<T>);

/// What a stack of class numbers holds, the oldest first.
pub uninterp spec fn class_stack_items(stack: Stack<u32>) -> Seq<u32>;

/// How many class numbers a stack takes: as many as fit into the largest allocation.
pub const CLASS_STACK_LIMIT: usize = (isize::MAX as usize) / 4;

/// `Stack::new`: a stack that holds nothing.
#[verifier::external_body]
pub(crate) fn class_stack_new() -> (stack: Stack<u32>)
    ensures
        class_stack_items(stack) == Seq::<u32>::empty(),
{
    Stack::new()
}

/// `Stack::len`: how many items the stack holds.
#[verifier::external_body]
pub(crate) fn class_stack_len(stack: &Stack<u32>) -> (n: usize)
    ensures
        n == class_stack_items(*stack).len(),
{
    stack.len()
}

/// `Stack::push`: the item is put on top. The crate panics where the stack already
/// holds as many items as it can, so that is ruled out.
#[verifier::external_body]
pub(crate) fn class_stack_push(stack: &mut Stack<u32>, class_id: u32)
    requires
        class_stack_items(*old(stack)).len() < CLASS_STACK_LIMIT,
    ensures
        class_stack_items(*final(stack)) == class_stack_items(*old(stack)).push(class_id),
{
    stack.push(class_id)
}

/// `Stack::pop`: the item on top is taken off and handed out, and `None` where the stack
/// holds nothing.
#[verifier::external_body]
pub(crate) fn class_stack_pop(stack: &mut Stack<u32>) -> (top: Option<u32>)
    ensures
        match top {
            Some(class_id) => class_stack_items(*old(stack)).len() > 0 && class_id
                == class_stack_items(*old(stack)).last() && class_stack_items(*final(stack))
                == class_stack_items(*old(stack)).drop_last(),
            None => class_stack_items(*old(stack)).len() == 0 && class_stack_items(*final(stack))
                == class_stack_items(*old(stack)),
        },
{
    stack.pop()
}

/// `Stack::as_slice`: the items of the stack, the oldest first.
#[verifier::external_body]
pub(crate) fn class_stack_as_slice(stack: &Stack<u32>) -> (items: &[u32])
    ensures
        items@ == class_stack_items(*stack),
{
    stack.as_slice()
}

} // verus!
