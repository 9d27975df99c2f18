//! The Python adapter's engine-agnostic half.
//!
//! The Python engine itself is an external collaborator reached through a
//! C binding that this crate does not contain; everything the adapter
//! decides or generates before touching the engine lives here: the
//! name-to-index table behind the callback bridge, the generated bridge
//! and class source code, and the import-loader decision that turns a
//! module name into a host file request.

use vstd::prelude::*;

use vstd::string::*;

use crate::shared::module::{Module, ModuleCallback, ModuleVariable};
use crate::shared::text::{dec_str_signed, i64_to_string};
use crate::shared::var::Var;

verus! {

/// The index registered under a name, searching the newest entry first:
/// a later registration of the same name shadows an earlier one.
pub open spec fn name_idx_of(entries: Seq<(String, i32)>, name: Seq<char>) -> Option<i32>
    decreases entries.len(),
{
    if entries.len() == 0 {
        None
    } else if entries.last().0@ == name {
        Some(entries.last().1)
    } else {
        name_idx_of(entries.drop_last(), name)
    }
}

/// The private bridge name of a callback: the short name behind the
/// `_pxs_` prefix.
pub open spec fn private_name_of(name: Seq<char>) -> Seq<char> {
    "_pxs_"@ + name
}

/// The generated source of the public bridge function for a callback:
/// a def that forwards its arguments, plus the callback's own name, to
/// the bound private bridge.
pub open spec fn bridge_def_src(name: Seq<char>) -> Seq<char> {
    "\ndef "@ + name + "(*args):\n    return "@ + private_name_of(name) + "('"@ + name
        + "', *args)\n"@
}

/// The generated source of one method of a class bridge: a def that
/// forwards the method name, the wrapped object pointer and the arguments
/// to the bound private bridge.
pub open spec fn class_method_src(name: Seq<char>) -> Seq<char> {
    "\n    def "@ + name + "(self, *args):\n        return "@ + private_name_of(name) + "('"@
        + name + "', self.ptr, *args)\n"@
}

/// The generated method section of a class bridge, one method per
/// registered callback, in registration order.
pub open spec fn class_methods_src(callbacks: Seq<ModuleCallback>) -> Seq<char>
    decreases callbacks.len(),
{
    if callbacks.len() == 0 {
        Seq::<char>::empty()
    } else {
        class_methods_src(callbacks.drop_last()) + class_method_src(callbacks.last().name@)
    }
}

/// The generated source of a whole class bridge: a class whose
/// constructor stores the object registry pointer, followed by one
/// forwarding method per callback.
pub open spec fn class_bridge_src(class_name: Seq<char>, callbacks: Seq<ModuleCallback>)
    -> Seq<char> {
    "\nclass _"@ + class_name + ":\n    def __init__(self, ptr):\n        self.ptr = ptr\n"@
        + class_methods_src(callbacks) + "\n"@
}

/// The generated expression instantiating a class bridge around a given
/// object registry index.
pub open spec fn instantiation_src(class_name: Seq<char>, idx: int) -> Seq<char> {
    "_"@ + class_name + "("@ + dec_str_signed(idx) + ")"@
}

/// Build the private bridge name of a callback.
pub fn make_private(name: &str) -> (r: String)
    ensures
        r@ == private_name_of(name@),
{
    let mut s = String::from_str("_pxs_");
    s.append(name);
    proof {
        assert(s@ =~= private_name_of(name@));
    }
    s
}

/// Build the source of the public bridge function for a callback.
pub fn bridge_def_source(name: &str) -> (r: String)
    ensures
        r@ == bridge_def_src(name@),
{
    let mut s = String::from_str("\ndef ");
    s.append(name);
    s.append("(*args):\n    return ");
    let private_name = make_private(name);
    s.append(private_name.as_str());
    s.append("('");
    s.append(name);
    s.append("', *args)\n");
    proof {
        assert(s@ =~= bridge_def_src(name@));
    }
    s
}

/// Build the source of one forwarding method of a class bridge.
fn class_method_source(name: &str) -> (r: String)
    ensures
        r@ == class_method_src(name@),
{
    let mut s = String::from_str("\n    def ");
    s.append(name);
    s.append("(self, *args):\n        return ");
    let private_name = make_private(name);
    s.append(private_name.as_str());
    s.append("('");
    s.append(name);
    s.append("', self.ptr, *args)\n");
    proof {
        assert(s@ =~= class_method_src(name@));
    }
    s
}

/// Build the source of a whole class bridge for a host object type.
pub fn class_bridge_source(class_name: &str, callbacks: &Vec<ModuleCallback>) -> (r: String)
    ensures
        r@ == class_bridge_src(class_name@, callbacks@),
{
    let mut s = String::from_str("\nclass _");
    s.append(class_name);
    s.append(":\n    def __init__(self, ptr):\n        self.ptr = ptr\n");
    let ghost head = s@;
    let mut i: usize = 0;
    while i < callbacks.len()
        invariant
            i <= callbacks@.len(),
            s@ == head + class_methods_src(callbacks@.take(i as int)),
        decreases callbacks@.len() - i,
    {
        let m = class_method_source(callbacks[i].name.as_str());
        s.append(m.as_str());
        proof {
            assert(callbacks@.take(i + 1 as int).drop_last() =~= callbacks@.take(i as int));
            assert(s@ =~= head + class_methods_src(callbacks@.take(i + 1 as int)));
        }
        i = i + 1;
    }
    s.append("\n");
    proof {
        assert(callbacks@.take(callbacks@.len() as int) =~= callbacks@);
        assert(s@ =~= class_bridge_src(class_name@, callbacks@));
    }
    s
}

/// Build the expression instantiating a class bridge around an object
/// registry index.
pub fn instantiation_source(class_name: &str, idx: i32) -> (r: String)
    ensures
        r@ == instantiation_src(class_name@, idx as int),
{
    let mut s = String::from_str("_");
    s.append(class_name);
    s.append("(");
    let digits = i64_to_string(idx as i64);
    s.append(digits.as_str());
    s.append(")");
    proof {
        assert(s@ =~= instantiation_src(class_name@, idx as int));
    }
    s
}

/// What the import loader decides for a requested module name.
#[derive(Debug)]
pub enum ModuleLoadPlan {
    /// The engine already holds a module under this name: hand it back.
    AlreadyLoaded,
    /// The host has no source for it: fall back to the engine's own
    /// builtin import.
    UseBuiltin,
    /// Define a virtual module from the host-supplied source, under the
    /// given virtual file name.
    DefineVirtual { file: String },
}

/// The host storage path of a module name: dots become directory
/// separators.
pub open spec fn module_src_path(name: Seq<char>) -> Seq<char> {
    name.map_values(|c: char| if c == '.' { '/' } else { c }) + ".py"@
}

/// The virtual file name a loader-defined module reports.
pub open spec fn virtual_file(name: Seq<char>) -> Seq<char> {
    "v://"@ + module_src_path(name)
}

/// Build the host storage path for a module name.
pub fn module_source_path(name: &str) -> (r: String)
    ensures
        r@ == module_src_path(name@),
{
    let mut s = String::new();
    let n = name.unicode_len();
    let mut i: usize = 0;
    while i < n
        invariant
            i <= n,
            n == name@.len(),
            s@ == name@.take(i as int).map_values(|c: char| if c == '.' { '/' } else { c }),
        decreases n - i,
    {
        let c = name.get_char(i);
        if c == '.' {
            s.append("/");
        } else {
            let piece = name.substring_char(i, i + 1);
            s.append(piece);
        }
        proof {
            reveal_strlit("/");
            assert(s@ =~= name@.take(i + 1 as int).map_values(
                |c: char| if c == '.' { '/' } else { c },
            ));
        }
        i = i + 1;
    }
    s.append(".py");
    proof {
        assert(name@.take(name@.len() as int) =~= name@);
        assert(s@ =~= module_src_path(name@));
    }
    s
}

/// Decide how to satisfy an import request. The unverified layer asks the
/// engine whether the module already exists and asks the host's file-read
/// hook for the source at `module_source_path(name)`, then performs what
/// is decided here.
pub fn module_load_plan(name: &str, already_loaded: bool, contents: &str) -> (r: ModuleLoadPlan)
    ensures
        already_loaded ==> r is AlreadyLoaded,
        !already_loaded && contents@.len() == 0 ==> r is UseBuiltin,
        !already_loaded && contents@.len() > 0 ==> (r matches ModuleLoadPlan::DefineVirtual {
            file,
        } && file@ == virtual_file(name@)),
    {
    if already_loaded {
        ModuleLoadPlan::AlreadyLoaded
    } else if contents.unicode_len() == 0 {
        ModuleLoadPlan::UseBuiltin
    } else {
        let mut f = String::from_str("v://");
        let path = module_source_path(name);
        f.append(path.as_str());
        proof {
            assert(f@ =~= virtual_file(name@));
        }
        ModuleLoadPlan::DefineVirtual { file: f }
    }
}

/// The Python adapter's host-side state: the name-to-index table consulted
/// by the callback bridge, the class bridges already defined, and what the
/// host has registered into the adapter's global namespace.
pub struct PythonScripting {
    /// Callback name to function registry index; the newest entry for a
    /// name wins.
    pub name_to_idx: Vec<(String, i32)>,
    /// Host object type names whose class bridge was already defined.
    pub defined_objects: Vec<String>,
    /// Variables registered into the global namespace, in order.
    pub globals: Vec<ModuleVariable>,
    /// Namespace trees registered with this adapter, in order.
    pub modules: Vec<Module>,
}

impl PythonScripting {
    /// A fresh adapter with nothing registered.
    pub fn new() -> (py: PythonScripting)
        ensures
            py.name_to_idx@ =~= Seq::<(String, i32)>::empty(),
            py.defined_objects@ =~= Seq::<String>::empty(),
            py.globals@ =~= Seq::<ModuleVariable>::empty(),
            py.modules@ =~= Seq::<Module>::empty(),
    {
        PythonScripting {
            name_to_idx: Vec::new(),
            defined_objects: Vec::new(),
            globals: Vec::new(),
            modules: Vec::new(),
        }
    }

    /// Register a variable into the adapter's global namespace.
    pub fn add_variable(&mut self, name: &str, variable: &Var)
        ensures
            final(self).name_to_idx == old(self).name_to_idx,
            final(self).defined_objects == old(self).defined_objects,
            final(self).modules == old(self).modules,
            final(self).globals@.len() == old(self).globals@.len() + 1,
            final(self).globals@.last().name@ == name@,
            final(self).globals@.last().var == variable,
            final(self).globals@.drop_last() == old(self).globals@,
    {
        self.globals.push(ModuleVariable { name: name.to_owned(), var: variable.clone() });
    }

    /// Register a namespace tree with this adapter, consuming it.
    pub fn add_module(&mut self, source: Module)
        ensures
            final(self).name_to_idx == old(self).name_to_idx,
            final(self).defined_objects == old(self).defined_objects,
            final(self).globals == old(self).globals,
            final(self).modules@.len() == old(self).modules@.len() + 1,
            final(self).modules@.last() == source,
            final(self).modules@.drop_last() == old(self).modules@,
    {
        self.modules.push(source);
    }

    /// Record a callback name and the registry index the bridge must call,
    /// and hand back the private bridge name with the bridge source the
    /// engine layer binds and executes.
    pub fn add_callback(&mut self, name: &str, idx: i32) -> (r: (String, String))
        ensures
            final(self).defined_objects == old(self).defined_objects,
            final(self).globals == old(self).globals,
            final(self).modules == old(self).modules,
            name_idx_of(final(self).name_to_idx@, name@) == Some(idx),
            forall|other: Seq<char>| other != name@ ==>
                name_idx_of(final(self).name_to_idx@, other)
                    == name_idx_of(old(self).name_to_idx@, other),
            r.0@ == private_name_of(name@),
            r.1@ == bridge_def_src(name@),
    {
        add_new_name_idx_fn(self, name.to_owned(), idx);
        (make_private(name), bridge_def_source(name))
    }

    /// Whether a class bridge for this host object type was already
    /// defined.
    pub fn is_object_defined(&self, class_name: &str) -> (r: bool)
        ensures
            r == self.defined_objects@.map_values(|s: String| s@).contains(class_name@),
    {
        let ghost views = self.defined_objects@.map_values(|s: String| s@);
        let target = class_name.to_owned();
        let mut i: usize = 0;
        while i < self.defined_objects.len()
            invariant
                i <= self.defined_objects@.len(),
                views == self.defined_objects@.map_values(|s: String| s@),
                target@ == class_name@,
                forall|j: int| 0 <= j < i ==> views[j] != class_name@,
            decreases self.defined_objects@.len() - i,
        {
            proof {
                assert(views[i as int] == self.defined_objects@[i as int]@);
            }
            if self.defined_objects[i].eq(&target) {
                return true;
            }
            i = i + 1;
        }
        false
    }

    /// Record that a class bridge for this host object type is now
    /// defined.
    pub fn add_new_defined_object(&mut self, class_name: &str)
        ensures
            final(self).name_to_idx == old(self).name_to_idx,
            final(self).globals == old(self).globals,
            final(self).modules == old(self).modules,
            final(self).defined_objects@.len() == old(self).defined_objects@.len() + 1,
            final(self).defined_objects@.last()@ == class_name@,
            final(self).defined_objects@.drop_last() == old(self).defined_objects@,
    {
        self.defined_objects.push(class_name.to_owned());
    }
}

/// Map a callback name to a function registry index; the newest entry
/// wins.
pub fn add_new_name_idx_fn(py: &mut PythonScripting, name: String, idx: i32)
    ensures
        final(py).defined_objects == old(py).defined_objects,
        final(py).globals == old(py).globals,
        final(py).modules == old(py).modules,
        final(py).name_to_idx@ == old(py).name_to_idx@.push((name, idx)),
        name_idx_of(final(py).name_to_idx@, name@) == Some(idx),
        forall|other: Seq<char>| other != name@ ==>
            name_idx_of(final(py).name_to_idx@, other) == name_idx_of(old(py).name_to_idx@, other),
{
    let ghost before = py.name_to_idx@;
    py.name_to_idx.push((name, idx));
    proof {
        assert(py.name_to_idx@.drop_last() =~= before);
    }
}

/// Look up the function registry index registered under a callback name.
pub fn get_fn_idx_from_name(py: &PythonScripting, name: &str) -> (r: Option<i32>)
    ensures
        r == name_idx_of(py.name_to_idx@, name@),
{
    let target = name.to_owned();
    let mut i: usize = py.name_to_idx.len();
    proof {
        assert(py.name_to_idx@.take(py.name_to_idx@.len() as int) =~= py.name_to_idx@);
    }
    while i > 0
        invariant
            i <= py.name_to_idx@.len(),
            target@ == name@,
            name_idx_of(py.name_to_idx@, name@) == name_idx_of(
                py.name_to_idx@.take(i as int),
                name@,
            ),
        decreases i,
    {
        i = i - 1;
        proof {
            assert(py.name_to_idx@.take(i + 1 as int).last() == py.name_to_idx@[i as int]);
            assert(py.name_to_idx@.take(i + 1 as int).drop_last() =~= py.name_to_idx@.take(
                i as int,
            ));
        }
        if py.name_to_idx[i].0.eq(&target) {
            return Some(py.name_to_idx[i].1);
        }
    }
    None
}


/// What the callback bridge decides for an incoming script call: the
/// registry index to dispatch to, or the diagnostic it raises. A call
/// without even the callback-name argument, and a name that the adapter
/// never registered, are rejected with the bridge's own messages.
pub fn bridge_route(py: &PythonScripting, argc: i32, name: &str) -> (r: Result<i32, String>)
    ensures
        match r {
            Ok(idx) => argc >= 1 && name_idx_of(py.name_to_idx@, name@) == Some(idx),
            Err(msg) => (argc < 1 && msg@ == "Python: argc < 1"@) || (argc >= 1
                && name_idx_of(py.name_to_idx@, name@) is None
                && msg@ == "Python: fn_idx is empty."@),
        },
{
    if argc < 1 {
        return Err(String::from_str("Python: argc < 1"));
    }
    match get_fn_idx_from_name(py, name) {
        Some(idx) => Ok(idx),
        None => Err(String::from_str("Python: fn_idx is empty.")),
    }
}

/// How a host object crosses into the engine: if its class bridge is
/// already defined, only the instantiation expression runs; otherwise
/// the class bridge source is defined first, then the instantiation.
pub enum CreateObjectPlan {
    Instantiate { expr: String, chunk: String },
    DefineThenInstantiate { class_src: String, define_chunk: String, expr: String, chunk: String },
}

/// The chunk name under which a class bridge definition runs.
pub open spec fn define_chunk_src(class_name: Seq<char>) -> Seq<char> {
    "<first_"@ + class_name + ">"@
}

/// The chunk name under which a class bridge instantiation runs.
pub open spec fn create_chunk_src(class_name: Seq<char>) -> Seq<char> {
    "<create_"@ + class_name + ">"@
}

/// Build the chunk name for a class bridge definition.
fn define_chunk(class_name: &str) -> (r: String)
    ensures
        r@ == define_chunk_src(class_name@),
{
    let mut s = String::from_str("<first_");
    s.append(class_name);
    s.append(">");
    proof {
        assert(s@ =~= define_chunk_src(class_name@));
    }
    s
}

/// Build the chunk name for a class bridge instantiation.
fn create_chunk(class_name: &str) -> (r: String)
    ensures
        r@ == create_chunk_src(class_name@),
{
    let mut s = String::from_str("<create_");
    s.append(class_name);
    s.append(">");
    proof {
        assert(s@ =~= create_chunk_src(class_name@));
    }
    s
}

impl PythonScripting {
    /// Decide how the host object behind `idx` crosses into the engine,
    /// and record everything the decision registers: when the type's
    /// class bridge is not defined yet, each method callback is entered
    /// into the name table and the bridge source is generated, and the
    /// type is recorded as defined; afterwards (and on every later
    /// crossing of the same type) only the instantiation expression
    /// remains to run.
    pub fn create_object(&mut self, class_name: &str, callbacks: &Vec<ModuleCallback>, idx: i32)
        -> (r: CreateObjectPlan)
        ensures
            final(self).globals == old(self).globals,
            final(self).modules == old(self).modules,
            final(self).defined_objects@.map_values(|s: String| s@).contains(class_name@),
            match r {
                CreateObjectPlan::Instantiate { expr, chunk } => {
                    &&& old(self).defined_objects@.map_values(|s: String| s@).contains(
                        class_name@,
                    )
                    &&& *final(self) == *old(self)
                    &&& expr@ == instantiation_src(class_name@, idx as int)
                    &&& chunk@ == create_chunk_src(class_name@)
                },
                CreateObjectPlan::DefineThenInstantiate {
                    class_src,
                    define_chunk,
                    expr,
                    chunk,
                } => {
                    &&& !old(self).defined_objects@.map_values(|s: String| s@).contains(
                        class_name@,
                    )
                    &&& class_src@ == class_bridge_src(class_name@, callbacks@)
                    &&& define_chunk@ == define_chunk_src(class_name@)
                    &&& expr@ == instantiation_src(class_name@, idx as int)
                    &&& chunk@ == create_chunk_src(class_name@)
                    &&& forall|i: int| 0 <= i < callbacks@.len() ==> name_idx_of(
                        final(self).name_to_idx@,
                        callbacks@[i].name@,
                    ) is Some
                },
            },
    {
        if self.is_object_defined(class_name) {
            return CreateObjectPlan::Instantiate {
                expr: instantiation_source(class_name, idx),
                chunk: create_chunk(class_name),
            };
        }
        let mut i: usize = 0;
        while i < callbacks.len()
            invariant
                i <= callbacks@.len(),
                self.globals == old(self).globals,
                self.modules == old(self).modules,
                self.defined_objects == old(self).defined_objects,
                forall|j: int| 0 <= j < i ==> name_idx_of(
                    self.name_to_idx@,
                    callbacks@[j].name@,
                ) is Some,
            decreases callbacks@.len() - i,
        {
            let name = callbacks[i].name.clone();
            let cb_idx = callbacks[i].idx;
            add_new_name_idx_fn(self, name, cb_idx);
            i = i + 1;
        }
        let class_src = class_bridge_source(class_name, callbacks);
        self.add_new_defined_object(class_name);
        proof {
            let views = self.defined_objects@.map_values(|s: String| s@);
            assert(views[views.len() - 1] == class_name@);
        }
        CreateObjectPlan::DefineThenInstantiate {
            class_src,
            define_chunk: define_chunk(class_name),
            expr: instantiation_source(class_name, idx),
            chunk: create_chunk(class_name),
        }
    }
}

} // verus!
