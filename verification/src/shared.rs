//! Engine-agnostic core: the tagged value, the error taxonomy, the handle
//! registries, the namespace tree, the host-object model, and the
//! process-wide lifecycle state.

pub mod class;
pub mod error;
pub mod func;
pub mod module;
pub mod object;
pub mod text;
pub mod var;
pub mod widen;

use vstd::prelude::*;

use crate::shared::func::{clear_function_lookup, FunctionLookup};
use crate::shared::object::{clear_object_lookup, ObjectLookup};

verus! {

/// The engines a runtime tag can name. Only a subset is compiled in; a
/// tag naming any other engine resolves to `UnknownRuntimeTag`, never to
/// an unreachable path.
#[derive(Debug, Clone, Copy, PartialEq, Eq, Structural)]
pub enum PixelScriptRuntime {
    Lua,
    Python,
    JavaScript,
    Easyjs,
    RustPython,
    LuaJit,
}

impl PixelScriptRuntime {
    /// The integer code a runtime tag travels as inside a Value.
    pub open spec fn code(self) -> i64 {
        match self {
            PixelScriptRuntime::Lua => 0,
            PixelScriptRuntime::Python => 1,
            PixelScriptRuntime::JavaScript => 2,
            PixelScriptRuntime::Easyjs => 3,
            PixelScriptRuntime::RustPython => 4,
            PixelScriptRuntime::LuaJit => 5,
        }
    }

    /// The integer code of this runtime, as runtime data.
    pub fn as_i64(self) -> (c: i64)
        ensures
            c == self.code(),
    {
        match self {
            PixelScriptRuntime::Lua => 0,
            PixelScriptRuntime::Python => 1,
            PixelScriptRuntime::JavaScript => 2,
            PixelScriptRuntime::Easyjs => 3,
            PixelScriptRuntime::RustPython => 4,
            PixelScriptRuntime::LuaJit => 5,
        }
    }

    /// The engine named by an integer runtime code; `None` for any value
    /// that names no engine at all.
    pub open spec fn spec_from_i64(val: i64) -> Option<PixelScriptRuntime> {
        if val == 0 {
            Some(PixelScriptRuntime::Lua)
        } else if val == 1 {
            Some(PixelScriptRuntime::Python)
        } else if val == 2 {
            Some(PixelScriptRuntime::JavaScript)
        } else if val == 3 {
            Some(PixelScriptRuntime::Easyjs)
        } else if val == 4 {
            Some(PixelScriptRuntime::RustPython)
        } else if val == 5 {
            Some(PixelScriptRuntime::LuaJit)
        } else {
            None
        }
    }

    /// Decode an integer runtime code; `None` for any value that names no
    /// engine at all.
    pub fn from_i64(val: i64) -> (r: Option<PixelScriptRuntime>)
        ensures
            r == PixelScriptRuntime::spec_from_i64(val),
            match r {
                Some(rt) => rt.code() == val,
                None => forall|rt: PixelScriptRuntime| rt.code() != val,
            },
    {
        if val == 0 {
            Some(PixelScriptRuntime::Lua)
        } else if val == 1 {
            Some(PixelScriptRuntime::Python)
        } else if val == 2 {
            Some(PixelScriptRuntime::JavaScript)
        } else if val == 3 {
            Some(PixelScriptRuntime::Easyjs)
        } else if val == 4 {
            Some(PixelScriptRuntime::RustPython)
        } else if val == 5 {
            Some(PixelScriptRuntime::LuaJit)
        } else {
            proof {
                assert forall|rt: PixelScriptRuntime| rt.code() != val by {
                    match rt {
                        PixelScriptRuntime::Lua => {},
                        PixelScriptRuntime::Python => {},
                        PixelScriptRuntime::JavaScript => {},
                        PixelScriptRuntime::Easyjs => {},
                        PixelScriptRuntime::RustPython => {},
                        PixelScriptRuntime::LuaJit => {},
                    }
                }
            }
            None
        }
    }

    /// Whether an adapter for this engine is compiled into this build.
    pub open spec fn spec_compiled_in(self) -> bool {
        self is Lua || self is Python
    }

    /// Whether an adapter for this engine is compiled into this build.
    pub fn compiled_in(self) -> (r: bool)
        ensures
            r == self.spec_compiled_in(),
    {
        match self {
            PixelScriptRuntime::Lua => true,
            PixelScriptRuntime::Python => true,
            _ => false,
        }
    }
}

/// The one-way lifecycle of the runtime. `Running` is entered at most
/// once, and `Finalized` is terminal: there is no way back.
#[derive(Debug, Clone, Copy, PartialEq, Eq, Structural)]
pub enum LifecyclePhase {
    Uninitialized,
    Running,
    Finalized,
}

/// The process-wide state of the runtime: the lifecycle phase, the two
/// handle registries shared by every engine and every thread, and the
/// host-supplied storage hooks (as tokens; the unverified boundary layer
/// maps a token to the actual function pointer).
pub struct PixelState {
    pub phase: LifecyclePhase,
    pub functions: FunctionLookup,
    pub objects: ObjectLookup,
    /// Host hook consulted by import/require resolution to read a file.
    pub load_file: Option<u64>,
    /// Host hook used to write a file.
    pub write_file: Option<u64>,
    /// Host hook used to read a directory.
    pub read_dir: Option<u64>,
}

impl PixelState {
    /// Both registries keep machine-representable index spaces.
    pub open spec fn wf(self) -> bool {
        self.functions.wf() && self.objects.wf()
    }

    /// Whether boundary operations are allowed: initialized and not yet
    /// finalized.
    pub open spec fn ready(self) -> bool {
        self.phase is Running
    }

    /// A fresh runtime: uninitialized, empty registries, no hooks.
    pub fn new() -> (s: PixelState)
        ensures
            s.phase is Uninitialized,
            s.wf(),
            s.functions.next_index() == 0,
            s.objects.next_index() == 0,
            s.load_file is None,
            s.write_file is None,
            s.read_dir is None,
    {
        PixelState {
            phase: LifecyclePhase::Uninitialized,
            functions: FunctionLookup::new(),
            objects: ObjectLookup::new(),
            load_file: None,
            write_file: None,
            read_dir: None,
        }
    }

    /// Whether boundary operations are allowed right now. Every boundary
    /// operation except `initialize` must be preceded by this check; the
    /// unverified boundary layer aborts when it fails, since misuse of the
    /// lifecycle is a host programming defect, not a runtime condition.
    pub fn is_ready(&self) -> (r: bool)
        ensures
            r == self.ready(),
    {
        match self.phase {
            LifecyclePhase::Running => true,
            _ => false,
        }
    }

    /// The checked `Uninitialized -> Running` transition. Accepted exactly
    /// once: re-initializing a running runtime is rejected, and a
    /// finalized runtime can never be initialized again. A rejection is
    /// fatal at the boundary.
    pub fn initialize(&mut self) -> (accepted: bool)
        ensures
            accepted == (old(self).phase is Uninitialized),
            accepted ==> *final(self) == (PixelState {
                phase: LifecyclePhase::Running,
                ..*old(self)
            }),
            !accepted ==> *final(self) == *old(self),
    {
        match self.phase {
            LifecyclePhase::Uninitialized => {
                self.phase = LifecyclePhase::Running;
                true
            },
            _ => false,
        }
    }

    /// The checked `Running -> Finalized` transition: terminal, accepted
    /// exactly once, and only after `initialize`. Both registries are
    /// cleared before the engines are stopped, so no engine teardown can
    /// still be resolving a registry handle; afterwards no index resolves
    /// ever again. A rejection is fatal at the boundary.
    pub fn finalize(&mut self) -> (accepted: bool)
        requires
            old(self).wf(),
        ensures
            final(self).wf(),
            accepted == (old(self).phase is Running),
            !accepted ==> *final(self) == *old(self),
            accepted ==> {
                &&& final(self).phase is Finalized
                &&& forall|i: int| !final(self).functions.resolves(i)
                &&& forall|i: int| !final(self).objects.resolves(i)
                &&& final(self).functions.next_index() == old(self).functions.next_index()
                &&& final(self).objects.next_index() == old(self).objects.next_index()
                &&& final(self).load_file == old(self).load_file
                &&& final(self).write_file == old(self).write_file
                &&& final(self).read_dir == old(self).read_dir
            },
    {
        match self.phase {
            LifecyclePhase::Running => {
                clear_function_lookup(&mut self.functions);
                clear_object_lookup(&mut self.objects);
                self.phase = LifecyclePhase::Finalized;
                true
            },
            _ => false,
        }
    }
}

/// Finalize is terminal: from a finalized runtime neither transition is
/// ever accepted again and no boundary operation is allowed, so the
/// sequence initialize, finalize, initialize is rejected at its last step.
pub proof fn lemma_finalize_is_terminal(s: PixelState)
    requires
        s.phase is Finalized,
    ensures
        !(s.phase is Uninitialized),
        !s.ready(),
{
}

} // verus!
