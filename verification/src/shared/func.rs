//! The process-wide function registry.
//!
//! A handle table from a monotonically increasing integer index to a host
//! `Function`. Indices are never reused within a process lifetime: clearing
//! the table (done once, at global finalize) invalidates every outstanding
//! index for the remainder of the process instead of releasing the index
//! space.
//!
//! The native callback and the opaque user data of an entry are carried as
//! plain tokens; the unverified boundary layer maps a token back to the
//! actual pointer it stands for.

use vstd::prelude::*;

use crate::shared::var::Var;

verus! {

/// A registered host function: its mangled name, a token standing for the
/// native callback, and the opaque user-data token supplied at
/// registration.
#[derive(Debug, Clone)]
pub struct Function {
    /// The full (mangled) registration name.
    pub name: String,
    /// Token for the flat native callback.
    pub func: u64,
    /// Token for the opaque user data handed back to the callback.
    pub opaque: u64,
}

/// The function handle table.
///
/// `first` is the lowest index that still resolves; entries below it were
/// invalidated by `clear` and their index space is never handed out again.
pub struct FunctionLookup {
    pub entries: Vec<Function>,
    pub first: usize,
}

impl FunctionLookup {
    /// The lowest index that still resolves (as mathematical int).
    pub open spec fn first_index(self) -> int {
        self.first as int
    }

    /// The index the next registration will receive.
    pub open spec fn next_index(self) -> int {
        self.first + self.entries@.len()
    }

    /// Whether the given index currently resolves to an entry.
    pub open spec fn resolves(self, idx: int) -> bool {
        self.first_index() <= idx < self.next_index()
    }

    /// The entry behind a resolving index.
    pub open spec fn entry_at(self, idx: int) -> Function
        recommends
            self.resolves(idx),
    {
        self.entries@[idx - self.first_index()]
    }

    /// Indices stay machine-representable.
    pub open spec fn wf(self) -> bool {
        self.next_index() <= i32::MAX
    }

    /// An empty table; the index space starts at zero.
    pub fn new() -> (r: FunctionLookup)
        ensures
            r.first_index() == 0,
            r.next_index() == 0,
            r.wf(),
    {
        FunctionLookup { entries: Vec::new(), first: 0 }
    }

    /// Append an entry under the next free index and return that index.
    /// Indices are handed out strictly increasing and are never reused.
    pub fn add_function(&mut self, name: &str, func: u64, opaque: u64) -> (idx: i32)
        requires
            old(self).wf(),
            old(self).next_index() < i32::MAX,
        ensures
            final(self).wf(),
            idx == old(self).next_index(),
            final(self).first_index() == old(self).first_index(),
            final(self).next_index() == old(self).next_index() + 1,
            final(self).resolves(idx as int),
            final(self).entry_at(idx as int).name@ == name@,
            final(self).entry_at(idx as int).func == func,
            final(self).entry_at(idx as int).opaque == opaque,
            forall|i: int| old(self).resolves(i) ==> final(self).resolves(i)
                && final(self).entry_at(i) == old(self).entry_at(i),
    {
        let idx = (self.first + self.entries.len()) as i32;
        self.entries.push(Function { name: name.to_owned(), func, opaque });
        idx
    }

    /// Resolve an index. `None` is a registry miss: the caller must
    /// substitute Null, since the table may have been cleared.
    pub fn get_function(&self, idx: i32) -> (r: Option<&Function>)
        ensures
            match r {
                Some(f) => self.resolves(idx as int) && *f == self.entry_at(idx as int),
                None => !self.resolves(idx as int),
            },
    {
        if idx >= 0 && (idx as usize) >= self.first
            && (idx as usize) - self.first < self.entries.len() {
            Some(&self.entries[(idx as usize) - self.first])
        } else {
            None
        }
    }


    /// Whether another registration fits the machine-representable index
    /// space; the boundary layer checks this before registering.
    pub fn has_capacity(&self) -> (r: bool)
        ensures
            r == (self.next_index() < i32::MAX),
    {
        if self.entries.len() >= i32::MAX as usize {
            false
        } else {
            self.first < i32::MAX as usize - self.entries.len()
        }
    }

    /// The number of entries that currently resolve.
    pub fn len(&self) -> (n: usize)
        ensures
            n == self.next_index() - self.first_index(),
    {
        self.entries.len()
    }
}

/// Add a function to the lookup.
pub fn lookup_add_function(lookup: &mut FunctionLookup, name: &str, func: u64, opaque: u64)
    -> (idx: i32)
    requires
        old(lookup).wf(),
        old(lookup).next_index() < i32::MAX,
    ensures
        final(lookup).wf(),
        idx == old(lookup).next_index(),
        final(lookup).next_index() == old(lookup).next_index() + 1,
        final(lookup).first_index() == old(lookup).first_index(),
        final(lookup).resolves(idx as int),
        final(lookup).entry_at(idx as int).name@ == name@,
        final(lookup).entry_at(idx as int).func == func,
        final(lookup).entry_at(idx as int).opaque == opaque,
        forall|i: int| old(lookup).resolves(i) ==> final(lookup).resolves(i)
            && final(lookup).entry_at(i) == old(lookup).entry_at(i),
{
    lookup.add_function(name, func, opaque)
}

/// Drop every entry. Used once at global finalize: afterwards no index
/// resolves, and the index space continues where it left off, so an index
/// that was ever handed out never comes back to life.
pub fn clear_function_lookup(lookup: &mut FunctionLookup)
    requires
        old(lookup).wf(),
    ensures
        final(lookup).wf(),
        final(lookup).first_index() == old(lookup).next_index(),
        final(lookup).next_index() == old(lookup).next_index(),
        forall|i: int| !final(lookup).resolves(i),
{
    let next = lookup.first + lookup.entries.len();
    lookup.entries = Vec::new();
    lookup.first = next;
}

/// Call the function registered under `fn_idx` through the host's invoker.
///
/// The registry resolution is what this crate decides; the invoker performs
/// the flat native call. A registry miss resolves to Null, never a fault:
/// the table may have been cleared.
pub fn call_function<F: Fn(&Function, Vec<Var>) -> Var>(
    lookup: &FunctionLookup,
    fn_idx: i32,
    args: Vec<Var>,
    invoke: F,
) -> (r: Var)
    requires
        forall|f: &Function, a: Vec<Var>| #[trigger] call_requires(invoke, (f, a)),
    ensures
        !lookup.resolves(fn_idx as int) ==> r == Var::Null,
        lookup.resolves(fn_idx as int) ==> exists|f: &Function|
            *f == lookup.entry_at(fn_idx as int) && call_ensures(invoke, (f, args), r),
{
    match lookup.get_function(fn_idx) {
        None => Var::new_null(),
        Some(f) => invoke(f, args),
    }
}


/// Indices are handed out strictly increasing and never reused: a
/// registration returns the registry's next index, which is strictly
/// greater than every index handed out before it and was not resolving
/// beforehand.
pub proof fn lemma_indices_strictly_increase(before: FunctionLookup, idx: int)
    requires
        idx == before.next_index(),
    ensures
        !before.resolves(idx),
        forall|j: int| #[trigger] before.resolves(j) ==> idx > j,
{
}

/// Clearing is terminal for the index space: every index that resolved
/// before the clear — indeed every index ever handed out — yields a
/// registry miss afterwards, for the remainder of the process.
pub proof fn lemma_clear_invalidates(before: FunctionLookup, after: FunctionLookup)
    requires
        after.first_index() == before.next_index(),
    ensures
        forall|i: int| i < before.next_index() ==> !after.resolves(i),
{
}

} // verus!
