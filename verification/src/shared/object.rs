//! Host-owned objects and the process-wide object registry.
//!
//! A `PixelObject` wraps a host-owned pointer (carried here as a plain
//! token) together with a destructor token, a type name keying per-engine
//! representation caches, a list of named method callbacks, and the
//! lazily populated materialized slot: the one engine-native
//! representation of the object, set at most once. A second
//! materialization attempt is rejected and the original is preserved.
//!
//! The registry mirrors the function registry: integer indices handed out
//! strictly increasing, never reused, cleared once at global finalize.

use vstd::prelude::*;

use crate::shared::module::ModuleCallback;

verus! {

/// A host-owned object shared with the engines through the object
/// registry.
#[derive(Debug, Clone)]
pub struct PixelObject {
    /// The type name, keying per-engine native-representation caches.
    pub class_name: String,
    /// Token for the host-owned pointer.
    pub ptr: u64,
    /// The materialized engine-native representation token; `None` until
    /// the first materialization, then set exactly once.
    pub lang_ptr: Option<u64>,
    /// Token for the destructor callback run on the host pointer when the
    /// object is destroyed.
    pub free_method: u64,
    /// Named method callbacks, each an index into the function registry.
    pub callbacks: Vec<ModuleCallback>,
}

impl PixelObject {
    /// A fresh, unmaterialized object around a host pointer token and its
    /// destructor token.
    pub fn new(ptr: u64, free_method: u64, class_name: &str) -> (o: PixelObject)
        ensures
            o.ptr == ptr,
            o.free_method == free_method,
            o.class_name@ == class_name@,
            o.lang_ptr is None,
            o.callbacks@ =~= Seq::<ModuleCallback>::empty(),
    {
        PixelObject {
            class_name: class_name.to_owned(),
            ptr,
            lang_ptr: None,
            free_method,
            callbacks: Vec::new(),
        }
    }

    /// Append a named method callback.
    pub fn add_callback(&mut self, name: &str, full_name: &str, idx: i32)
        ensures
            final(self).class_name == old(self).class_name,
            final(self).ptr == old(self).ptr,
            final(self).lang_ptr == old(self).lang_ptr,
            final(self).free_method == old(self).free_method,
            final(self).callbacks@.len() == old(self).callbacks@.len() + 1,
            final(self).callbacks@.last().name@ == name@,
            final(self).callbacks@.last().full_name@ == full_name@,
            final(self).callbacks@.last().idx == idx,
            final(self).callbacks@.drop_last() == old(self).callbacks@,
    {
        self.callbacks.push(ModuleCallback {
            name: name.to_owned(),
            full_name: full_name.to_owned(),
            idx,
        });
    }

    /// Set the materialized engine-native representation, a one-way,
    /// one-time transition. Returns whether the write was accepted: a
    /// second attempt is rejected and the original pointer is preserved,
    /// never overwritten.
    pub fn update_lang_ptr(&mut self, n_ptr: u64) -> (accepted: bool)
        ensures
            final(self).class_name == old(self).class_name,
            final(self).ptr == old(self).ptr,
            final(self).free_method == old(self).free_method,
            final(self).callbacks == old(self).callbacks,
            accepted == (old(self).lang_ptr is None),
            old(self).lang_ptr is None ==> final(self).lang_ptr == Some(n_ptr),
            old(self).lang_ptr is Some ==> final(self).lang_ptr == old(self).lang_ptr,
    {
        match self.lang_ptr {
            None => {
                self.lang_ptr = Some(n_ptr);
                true
            },
            Some(_) => false,
        }
    }
}

/// The object handle table; indices below `first` were invalidated by
/// `clear` and are never handed out again.
pub struct ObjectLookup {
    pub entries: Vec<PixelObject>,
    pub first: usize,
}

impl ObjectLookup {
    /// The lowest index that still resolves (as mathematical int).
    pub open spec fn first_index(self) -> int {
        self.first as int
    }

    /// The index the next object will receive.
    pub open spec fn next_index(self) -> int {
        self.first + self.entries@.len()
    }

    /// Whether the given index currently resolves to an object.
    pub open spec fn resolves(self, idx: int) -> bool {
        self.first_index() <= idx < self.next_index()
    }

    /// The object behind a resolving index.
    pub open spec fn entry_at(self, idx: int) -> PixelObject
        recommends
            self.resolves(idx),
    {
        self.entries@[idx - self.first_index()]
    }

    /// Indices stay machine-representable.
    pub open spec fn wf(self) -> bool {
        self.next_index() <= i32::MAX
    }

    /// An empty table; the index space starts at zero.
    pub fn new() -> (r: ObjectLookup)
        ensures
            r.first_index() == 0,
            r.next_index() == 0,
            r.wf(),
    {
        ObjectLookup { entries: Vec::new(), first: 0 }
    }


    /// Whether another registration fits the machine-representable index
    /// space; the boundary layer checks this before registering.
    pub fn has_capacity(&self) -> (r: bool)
        ensures
            r == (self.next_index() < i32::MAX),
    {
        if self.entries.len() >= i32::MAX as usize {
            false
        } else {
            self.first < i32::MAX as usize - self.entries.len()
        }
    }

    /// Resolve an index. `None` is a registry miss: the caller must
    /// substitute Null, since the table may have been cleared.
    pub fn get_object(&self, idx: i32) -> (r: Option<&PixelObject>)
        ensures
            match r {
                Some(o) => self.resolves(idx as int) && *o == self.entry_at(idx as int),
                None => !self.resolves(idx as int),
            },
    {
        if idx >= 0 && (idx as usize) >= self.first
            && (idx as usize) - self.first < self.entries.len() {
            Some(&self.entries[(idx as usize) - self.first])
        } else {
            None
        }
    }

    /// Materialize the object at `idx` with the given engine-native
    /// representation token: first writer wins, a second attempt is
    /// rejected and the original pointer preserved. `Err` is a registry
    /// miss.
    pub fn try_materialize(&mut self, idx: i32, n_ptr: u64) -> (r: Result<bool, ()>)
        ensures
            final(self).first_index() == old(self).first_index(),
            final(self).next_index() == old(self).next_index(),
            forall|i: int| final(self).resolves(i) == old(self).resolves(i),
            match r {
                Ok(accepted) => {
                    &&& old(self).resolves(idx as int)
                    &&& accepted == (old(self).entry_at(idx as int).lang_ptr is None)
                    &&& final(self).entry_at(idx as int).lang_ptr == (if accepted {
                        Some(n_ptr)
                    } else {
                        old(self).entry_at(idx as int).lang_ptr
                    })
                    &&& final(self).entry_at(idx as int).class_name
                        == old(self).entry_at(idx as int).class_name
                    &&& final(self).entry_at(idx as int).ptr
                        == old(self).entry_at(idx as int).ptr
                    &&& final(self).entry_at(idx as int).free_method
                        == old(self).entry_at(idx as int).free_method
                    &&& final(self).entry_at(idx as int).callbacks
                        == old(self).entry_at(idx as int).callbacks
                    &&& forall|i: int| old(self).resolves(i) && i != idx ==>
                        final(self).entry_at(i) == old(self).entry_at(i)
                },
                Err(_) => !old(self).resolves(idx as int) && *final(self) == *old(self),
            },
    {
        if idx >= 0 && (idx as usize) >= self.first
            && (idx as usize) - self.first < self.entries.len() {
            let i = (idx as usize) - self.first;
            let obj = &mut self.entries[i];
            let accepted = obj.update_lang_ptr(n_ptr);
            Ok(accepted)
        } else {
            Err(())
        }
    }
}

/// Move an object into the lookup and return the index it will resolve
/// under from now on. Indices are handed out strictly increasing and are
/// never reused.
pub fn lookup_add_object(lookup: &mut ObjectLookup, obj: PixelObject) -> (idx: i32)
    requires
        old(lookup).wf(),
        old(lookup).next_index() < i32::MAX,
    ensures
        final(lookup).wf(),
        idx == old(lookup).next_index(),
        final(lookup).first_index() == old(lookup).first_index(),
        final(lookup).next_index() == old(lookup).next_index() + 1,
        final(lookup).resolves(idx as int),
        final(lookup).entry_at(idx as int) == obj,
        forall|i: int| old(lookup).resolves(i) ==> final(lookup).resolves(i)
            && final(lookup).entry_at(i) == old(lookup).entry_at(i),
{
    let idx = (lookup.first + lookup.entries.len()) as i32;
    lookup.entries.push(obj);
    idx
}

/// Resolve an object index in the lookup; `None` is a registry miss.
pub fn get_object(lookup: &ObjectLookup, idx: i32) -> (r: Option<&PixelObject>)
    ensures
        match r {
            Some(o) => lookup.resolves(idx as int) && *o == lookup.entry_at(idx as int),
            None => !lookup.resolves(idx as int),
        },
{
    lookup.get_object(idx)
}

/// Drop every object. Used once at global finalize: afterwards no index
/// resolves, and the index space continues where it left off.
pub fn clear_object_lookup(lookup: &mut ObjectLookup)
    requires
        old(lookup).wf(),
    ensures
        final(lookup).wf(),
        final(lookup).first_index() == old(lookup).next_index(),
        final(lookup).next_index() == old(lookup).next_index(),
        forall|i: int| !final(lookup).resolves(i),
{
    let next = lookup.first + lookup.entries.len();
    lookup.entries = Vec::new();
    lookup.first = next;
}

} // verus!
