//! The declarative namespace tree.
//!
//! A `Module` is built by the host before registration: an ordered list of
//! named variables, an ordered list of named callbacks (each an index into
//! the function registry), and an ordered list of child modules. Once a
//! tree is handed to the runtime it is consumed and materialized
//! independently by every engine adapter.
//!
//! Callback registration names are mangled with the owning namespace's
//! name, so that unrelated namespaces can register a callback under the
//! same short name without colliding in the process-wide registry.

use vstd::prelude::*;

use vstd::string::*;

use crate::shared::var::Var;

verus! {

/// A named variable slot of a namespace; the tree owns its copy of the
/// value.
#[derive(Debug)]
pub struct ModuleVariable {
    pub name: String,
    pub var: Var,
}

impl Clone for ModuleVariable {
    /// Cloning copies the slot; the copy owns its own buffers.
    fn clone(&self) -> (r: ModuleVariable)
        ensures
            r == *self,
    {
        ModuleVariable { name: self.name.clone(), var: self.var.clone() }
    }
}

/// A named callback of a namespace: the short name seen by script code,
/// the mangled registration name, and the function registry index.
#[derive(Debug)]
pub struct ModuleCallback {
    pub name: String,
    pub full_name: String,
    pub idx: i32,
}

impl Clone for ModuleCallback {
    /// Cloning copies the entry; the copy owns its own buffers.
    fn clone(&self) -> (r: ModuleCallback)
        ensures
            r == *self,
    {
        ModuleCallback {
            name: self.name.clone(),
            full_name: self.full_name.clone(),
            idx: self.idx,
        }
    }
}

/// A host-built namespace, materialized by every engine as a lazily
/// loadable module (or sub-namespace).
#[derive(Debug)]
pub struct Module {
    pub name: String,
    pub variables: Vec<ModuleVariable>,
    pub callbacks: Vec<ModuleCallback>,
    pub modules: Vec<Module>,
}

/// The mangled registration name of `name` inside the namespace called
/// `owner`: an underscore, the owner's name, then the short name.
pub open spec fn mangled(owner: Seq<char>, name: Seq<char>) -> Seq<char> {
    seq!['_'] + owner + name
}

/// Build the mangled registration name for `name` inside `owner`.
pub fn mangle_name(owner: &str, name: &str) -> (r: String)
    ensures
        r@ == mangled(owner@, name@),
{
    proof {
        reveal_strlit("_");
    }
    let mut s = String::from_str("_");
    s.append(owner);
    s.append(name);
    proof {
        assert(s@ =~= mangled(owner@, name@));
    }
    s
}

impl Module {
    /// An empty namespace with the given name.
    pub fn new(name: String) -> (m: Module)
        ensures
            m.name == name,
            m.variables@ =~= Seq::<ModuleVariable>::empty(),
            m.callbacks@ =~= Seq::<ModuleCallback>::empty(),
            m.modules@ =~= Seq::<Module>::empty(),
    {
        Module { name, variables: Vec::new(), callbacks: Vec::new(), modules: Vec::new() }
    }

    /// Append a variable slot; the tree owns the given value from now on.
    pub fn add_variable(&mut self, name: &str, var: Var)
        ensures
            final(self).name == old(self).name,
            final(self).callbacks == old(self).callbacks,
            final(self).modules == old(self).modules,
            final(self).variables@.len() == old(self).variables@.len() + 1,
            final(self).variables@.last().name@ == name@,
            final(self).variables@.last().var == var,
            final(self).variables@.drop_last() == old(self).variables@,
    {
        self.variables.push(ModuleVariable { name: name.to_owned(), var });
    }

    /// Append a callback under its short name, carrying the mangled
    /// registration name and the function registry index it resolves to.
    pub fn add_callback(&mut self, name: &str, full_name: &str, idx: i32)
        ensures
            final(self).name == old(self).name,
            final(self).variables == old(self).variables,
            final(self).modules == old(self).modules,
            final(self).callbacks@.len() == old(self).callbacks@.len() + 1,
            final(self).callbacks@.last().name@ == name@,
            final(self).callbacks@.last().full_name@ == full_name@,
            final(self).callbacks@.last().idx == idx,
            final(self).callbacks@.drop_last() == old(self).callbacks@,
    {
        self.callbacks.push(ModuleCallback {
            name: name.to_owned(),
            full_name: full_name.to_owned(),
            idx,
        });
    }

    /// Append a child namespace, taking exclusive ownership of it.
    pub fn add_module(&mut self, child: Module)
        ensures
            final(self).name == old(self).name,
            final(self).variables == old(self).variables,
            final(self).callbacks == old(self).callbacks,
            final(self).modules@.len() == old(self).modules@.len() + 1,
            final(self).modules@.last() == child,
            final(self).modules@.drop_last() == old(self).modules@,
    {
        self.modules.push(child);
    }
}

} // verus!
