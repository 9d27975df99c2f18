//! The globally injected namespace.
//!
//! A `Class` is structurally a flat namespace — named variables and named
//! callbacks — but semantically different from a `Module`: registration
//! injects its members eagerly into the engine's global namespace instead
//! of behind a lazily loadable module. Use a `Module` when deferred
//! loading is desired; use a `Class` when global availability is required.

use vstd::prelude::*;

use crate::shared::module::{ModuleCallback, ModuleVariable};
use crate::shared::var::Var;

verus! {

/// A host-built namespace whose members are materialized eagerly into the
/// global scope of every engine.
#[derive(Debug, Clone)]
pub struct Class {
    /// The name of the class.
    pub name: String,
    /// Callbacks inside the class.
    pub callbacks: Vec<ModuleCallback>,
    /// Variables inside the class.
    pub vars: Vec<ModuleVariable>,
}

impl Class {
    /// An empty class with the given name.
    pub fn new(name: String) -> (c: Class)
        ensures
            c.name == name,
            c.callbacks@ =~= Seq::<ModuleCallback>::empty(),
            c.vars@ =~= Seq::<ModuleVariable>::empty(),
    {
        Class { name, callbacks: Vec::new(), vars: Vec::new() }
    }

    /// Append a variable slot; the class owns the given value from now on.
    pub fn add_variable(&mut self, name: &str, var: Var)
        ensures
            final(self).name == old(self).name,
            final(self).callbacks == old(self).callbacks,
            final(self).vars@.len() == old(self).vars@.len() + 1,
            final(self).vars@.last().name@ == name@,
            final(self).vars@.last().var == var,
            final(self).vars@.drop_last() == old(self).vars@,
    {
        self.vars.push(ModuleVariable { name: name.to_owned(), var });
    }

    /// Append a callback under its short name, carrying the mangled
    /// registration name and the function registry index it resolves to.
    pub fn add_callback(&mut self, name: &str, full_name: &str, idx: i32)
        ensures
            final(self).name == old(self).name,
            final(self).vars == old(self).vars,
            final(self).callbacks@.len() == old(self).callbacks@.len() + 1,
            final(self).callbacks@.last().name@ == name@,
            final(self).callbacks@.last().full_name@ == full_name@,
            final(self).callbacks@.last().idx == idx,
            final(self).callbacks@.drop_last() == old(self).callbacks@,
    {
        self.callbacks.push(ModuleCallback {
            name: name.to_owned(),
            full_name: full_name.to_owned(),
            idx,
        });
    }
}

} // verus!
