//! The names that the printer writes in place of those in the tree.

use crate::hash::{fx_map_entries, fx_map_get};
use rustc_hash::FxBuildHasher;
use std::collections::HashMap;
use vstd::prelude::*;

verus! {

/// The symbol table, as far as the printer reads it: the name of every symbol, and for
/// every reference the symbol it was resolved to.
#[derive(Debug)]
pub struct Scoping {
    pub symbol_names: Vec<String>,
    pub reference_symbols: Vec<Option<u32>>,
}

impl Scoping {
    /// The name of a symbol, where the table has it.
    pub open spec fn spec_symbol_name(&self, symbol_id: u32) -> Option<Seq<char>> {
        if symbol_id < self.symbol_names@.len() {
            Some(self.symbol_names@[symbol_id as int]@)
        } else {
            None
        }
    }

    pub fn symbol_name(&self, symbol_id: u32) -> (name: Option<&str>)
        ensures
            match name {
                Some(n) => self.spec_symbol_name(symbol_id) == Some(n@),
                None => self.spec_symbol_name(symbol_id) is None,
            },
    {
        let i = symbol_id as usize;
        if i < self.symbol_names.len() {
            Some(self.symbol_names[i].as_str())
        } else {
            None
        }
    }

    /// The name of the symbol that a reference was resolved to, where there is one.
    pub open spec fn spec_reference_name(&self, reference_id: u32) -> Option<Seq<char>> {
        if reference_id < self.reference_symbols@.len() {
            match self.reference_symbols@[reference_id as int] {
                Some(symbol_id) => self.spec_symbol_name(symbol_id),
                None => None,
            }
        } else {
            None
        }
    }

    pub fn get_reference_name(&self, reference_id: u32) -> (name: Option<&str>)
        ensures
            match name {
                Some(n) => self.spec_reference_name(reference_id) == Some(n@),
                None => self.spec_reference_name(reference_id) is None,
            },
    {
        let i = reference_id as usize;
        if i < self.reference_symbols.len() {
            match self.reference_symbols[i] {
                Some(symbol_id) => self.symbol_name(symbol_id),
                None => None,
            }
        } else {
            None
        }
    }
}

/// The name that stands for the private member `name` in the innermost of the first `n`
/// classes of `stack` whose table names it. `mappings` holds one table for each class,
/// in the order in which the classes are entered.
pub open spec fn mangled_private_name(
    mappings: Seq<HashMap<String, String, FxBuildHasher>>,
    stack: Seq<u32>,
    n: nat,
    name: Seq<char>,
) -> Option<Seq<char>>
    decreases n,
{
    if n == 0 || n > stack.len() {
        None
    } else {
        let class_id = stack[n - 1];
        if class_id < mappings.len() && fx_map_entries(mappings[class_id as int]).contains_key(name) {
            Some(fx_map_entries(mappings[class_id as int])[name])
        } else {
            mangled_private_name(mappings, stack, (n - 1) as nat, name)
        }
    }
}

/// `mangled_private_name` for the whole stack, looked up.
pub fn find_mangled_private_name<'a>(
    mappings: &'a Vec<HashMap<String, String, FxBuildHasher>>,
    stack: &[u32],
    name: &str,
) -> (found: Option<&'a String>)
    ensures
        match found {
            Some(n) => mangled_private_name(mappings@, stack@, stack@.len(), name@) == Some(n@),
            None => mangled_private_name(mappings@, stack@, stack@.len(), name@) is None,
        },
{
    let mut i = stack.len();
    while i > 0
        invariant
            i <= stack@.len(),
            mangled_private_name(mappings@, stack@, i as nat, name@) == mangled_private_name(
                mappings@,
                stack@,
                stack@.len(),
                name@,
            ),
        decreases i,
    {
        let class_id = stack[i - 1] as usize;
        if class_id < mappings.len() {
            match fx_map_get(&mappings[class_id], name) {
                Some(n) => {
                    return Some(n);
                },
                None => {},
            }
        }
        i -= 1;
    }
    None
}

} // verus!
