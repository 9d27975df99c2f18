//! The Lua adapter: the one engine embedded by this crate itself.
//!
//! The engine is driven only through the trusted seam in `ffi`; this
//! module holds the adapter's verified half — the argument assembly that
//! every script-to-host call goes through, the conversion of boundary
//! values into engine values, the materialization of namespace trees and
//! host objects, and the diagnostic rendering of execution results.
//!
//! Script code never reaches a host function pointer directly: every
//! callback is bound together with its function registry index, and the
//! host supplies one dispatcher that resolves the index through the
//! process-wide registry and performs the flat native call.

pub mod ffi;

use vstd::prelude::*;

use vstd::string::*;

use crate::shared::class::Class;
use crate::shared::error::PxError;
use crate::shared::module::{Module, ModuleCallback, ModuleVariable};
use crate::shared::object::ObjectLookup;
use crate::shared::var::Var;
use crate::lua::ffi::lua_rep;
use crate::shared::widen::{f32_bits_to_f64_bits, f32_widened};
use crate::shared::PixelScriptRuntime;
use crate::with_runtime_tag;

verus! {

/// What a host dispatcher hands back to the engine: either a boundary
/// value to convert, or an engine table the host materialized itself
/// (the native representation of a host object).
pub enum LuaHostResult {
    Plain(Var),
    Native(mlua::Table),
}

/// The argument list a script-called callback hands to the host: the
/// Lua runtime tag first, then the script arguments in order.
pub fn callback_args(args: Vec<Var>) -> (r: Vec<Var>)
    ensures
        r@.len() == args@.len() + 1,
        r@[0] == Var::Int64(PixelScriptRuntime::Lua.code()),
        r@.skip(1) == args@,
{
    with_runtime_tag(PixelScriptRuntime::Lua, args)
}

/// The argument list a script-called object method hands to the host:
/// the Lua runtime tag, then the object's registry index, then the
/// script arguments in order.
pub fn object_method_args(obj_id: i64, args: Vec<Var>) -> (r: Vec<Var>)
    ensures
        r@.len() == args@.len() + 2,
        r@[0] == Var::Int64(PixelScriptRuntime::Lua.code()),
        r@[1] == Var::Int64(obj_id),
        r@.skip(2) == args@,
{
    let mut with_id: Vec<Var> = Vec::new();
    with_id.push(Var::new_i64(obj_id));
    let mut i: usize = 0;
    while i < args.len()
        invariant
            i <= args@.len(),
            with_id@.len() == i + 1,
            with_id@[0] == Var::Int64(obj_id),
            with_id@.skip(1) == args@.take(i as int),
        decreases args@.len() - i,
    {
        with_id.push(args[i].clone());
        proof {
            assert(with_id@.skip(1) =~= args@.take(i + 1 as int));
        }
        i = i + 1;
    }
    proof {
        assert(args@.take(args@.len() as int) =~= args@);
    }
    let r = with_runtime_tag(PixelScriptRuntime::Lua, with_id);
    proof {
        assert(r@.skip(2) =~= r@.skip(1).skip(1));
        assert(r@.skip(2) =~= args@);
    }
    r
}

/// What the engine value built from a boundary value must read back as:
/// the primitive tags map to their engine primitives (integers of every
/// width to the engine integer, a single-precision pattern widened to
/// the engine's doubles), a string converts to an equal engine string or
/// degrades to nil if the engine cannot intern it, a host-object
/// reference has no direct engine form and becomes nil, and an
/// engine-native token resolves through the adapter's store, about which
/// nothing value-independent can be said.
pub open spec fn converted_rep_ok(v: Var, rep: Option<Var>) -> bool {
    match v {
        Var::Null => rep == Some(Var::Null),
        Var::Bool(b) => rep == Some(Var::Bool(b)),
        Var::Int32(x) => rep == Some(Var::Int64(x as i64)),
        Var::Int64(x) => rep == Some(Var::Int64(x)),
        Var::UInt32(x) => rep == Some(Var::Int64(x as i64)),
        Var::UInt64(x) => rep == Some(Var::Int64(x as i64)),
        Var::Float32(bits) => rep == Some(Var::Float64(f32_widened(bits))),
        Var::Float64(bits) => rep == Some(Var::Float64(bits)),
        Var::Str(s) => match rep {
            Some(p) => match p {
                Var::Str(t) => t@ == s@,
                Var::Null => true,
                _ => false,
            },
            None => false,
        },
        Var::Object(_) => true,
        Var::HostObject(_) => rep == Some(Var::Null),
    }
}

/// Convert a boundary value into an engine value whose primitive reading
/// is fixed by `converted_rep_ok`: every primitive tag converts exactly,
/// an engine-native token resolves through the adapter's store to the
/// engine value it was handed out for, a host-object reference (which
/// must be materialized first) and a stale token become nil.
pub fn to_lua_value(lua: &mlua::Lua, store: &mlua::Table, v: &Var) -> (r: mlua::Value)
    ensures
        converted_rep_ok(*v, lua_rep(r)),
{
    match v {
        Var::Null => ffi::lua_value_nil(),
        Var::Bool(b) => ffi::lua_value_bool(*b),
        Var::Int32(x) => ffi::lua_value_int(*x as i64),
        Var::Int64(x) => ffi::lua_value_int(*x),
        Var::UInt32(x) => ffi::lua_value_int(*x as i64),
        Var::UInt64(x) => ffi::lua_value_int(*x as i64),
        Var::Float32(bits) => ffi::lua_value_number_from_bits(f32_bits_to_f64_bits(*bits)),
        Var::Float64(bits) => ffi::lua_value_number_from_bits(*bits),
        Var::Str(s) => match ffi::lua_value_str(lua, s.as_str()) {
            Some(v) => v,
            None => ffi::lua_value_nil(),
        },
        Var::Object(token) => match ffi::lua_native_value(store, *token) {
            Some(v) => v,
            None => ffi::lua_value_nil(),
        },
        Var::HostObject(_) => ffi::lua_value_nil(),
    }
}

/// Read an engine value back as a boundary value: a primitive value
/// reads as exactly its primitive reading; an engine-native value is
/// filed in the adapter's store and travels as the token that resolves
/// back to it (Null only if the engine cannot grow the store).
pub fn value_to_var(store: &mlua::Table, v: mlua::Value) -> (r: Var)
    ensures
        lua_rep(v) matches Some(p) ==> r == p,
        lua_rep(v) is None ==> (r matches Var::Object(_) || r == Var::Null),
{
    match ffi::lua_value_primitive(&v) {
        Some(p) => p,
        None => {
            let len = ffi::lua_store_len(store);
            if len == u64::MAX {
                return Var::Null;
            }
            let token = len + 1;
            if ffi::lua_store_set(store, token, v) {
                Var::new_object(token)
            } else {
                Var::Null
            }
        },
    }
}

/// Convert a host dispatcher's answer into an engine value; a plain
/// boundary value converts under `converted_rep_ok`.
pub fn host_result_to_lua(lua: &mlua::Lua, store: &mlua::Table, r: LuaHostResult) -> (out:
    mlua::Value)
    ensures
        r matches LuaHostResult::Plain(v) ==> converted_rep_ok(v, lua_rep(out)),
{
    match r {
        LuaHostResult::Plain(v) => to_lua_value(lua, store, &v),
        LuaHostResult::Native(t) => ffi::lua_value_table(t),
    }
}

/// The diagnostic `execute` renders around an engine error.
pub open spec fn lua_error_msg(err: Seq<char>, file: Seq<char>) -> Seq<char> {
    "Error in LUA: "@ + err + ", for file: "@ + file
}

/// Render an engine error into the execute diagnostic.
pub fn render_lua_error(err: &str, file_name: &str) -> (r: String)
    ensures
        r@ == lua_error_msg(err@, file_name@),
{
    let mut s = String::from_str("Error in LUA: ");
    s.append(err);
    s.append(", for file: ");
    s.append(file_name);
    proof {
        assert(s@ =~= lua_error_msg(err@, file_name@));
    }
    s
}

/// Turn the engine's execution result into the boundary diagnostic: the
/// empty string exactly when the engine reported success, otherwise the
/// rendered message around the engine's error and the file name.
pub fn render_exec_result(res: Result<(), String>, file_name: &str) -> (r: String)
    ensures
        (r@.len() == 0) <==> (res is Ok),
        res matches Err(e) ==> r@ == lua_error_msg(e@, file_name@),
{
    match res {
        Ok(_) => String::new(),
        Err(e) => {
            let msg = render_lua_error(e.as_str(), file_name);
            proof {
                reveal_strlit("Error in LUA: ");
                assert(msg@.len() > 0);
            }
            msg
        },
    }
}

/// Run source against an engine's global namespace. An empty result is
/// success; otherwise the result is the rendered diagnostic for the
/// engine's error. The empty-iff-success tie to the engine's own result
/// is carried by `render_exec_result`, one call below the trusted seam.
pub fn execute_chunk(lua: &mlua::Lua, code: &str, file_name: &str) -> (r: String)
    ensures
        r@.len() == 0 || exists|e: Seq<char>| r@ == lua_error_msg(e, file_name@),
{
    render_exec_result(ffi::lua_exec(lua, code, file_name), file_name)
}

/// The dotted registration name of a child namespace.
pub fn dotted_name(parent: &str, child: &str) -> (r: String)
    ensures
        r@ == parent@ + "."@ + child@,
{
    let mut s = String::new();
    s.append(parent);
    s.append(".");
    s.append(child);
    proof {
        assert(s@ =~= parent@ + "."@ + child@);
    }
    s
}


/// One engine registration of a namespace node: the dotted name it is
/// registered under, and the variables and callbacks its table holds.
pub open spec fn spec_module_plan(m: Module, reg: Seq<char>) -> Seq<
    (Seq<char>, Seq<ModuleVariable>, Seq<ModuleCallback>),
>
    decreases m,
{
    seq![(reg, m.variables@, m.callbacks@)] + spec_children_plan(m.modules@, reg, 0)
}

/// The registrations of the children from position `i` on, each under
/// its dotted name.
pub open spec fn spec_children_plan(ms: Seq<Module>, parent: Seq<char>, i: int) -> Seq<
    (Seq<char>, Seq<ModuleVariable>, Seq<ModuleCallback>),
>
    decreases ms, ms.len() - i,
{
    if i < 0 || i >= ms.len() {
        Seq::empty()
    } else {
        spec_module_plan(ms[i], parent + "."@ + ms[i].name@) + spec_children_plan(ms, parent, i + 1)
    }
}

/// What one engine registration handed over: the dotted name a node was
/// registered under, and the variables and callbacks its table was
/// filled with.
pub struct RegisteredModule {
    pub reg_name: String,
    pub variables: Vec<ModuleVariable>,
    pub callbacks: Vec<ModuleCallback>,
}

/// The plain content of one registration.
pub open spec fn reg_view(r: RegisteredModule) -> (
    Seq<char>,
    Seq<ModuleVariable>,
    Seq<ModuleCallback>,
) {
    (r.reg_name@, r.variables@, r.callbacks@)
}

/// The plain content of a whole registration plan.
pub open spec fn plan_view(rs: Seq<RegisteredModule>) -> Seq<
    (Seq<char>, Seq<ModuleVariable>, Seq<ModuleCallback>),
> {
    rs.map_values(|x: RegisteredModule| reg_view(x))
}

/// The Lua adapter: the engine handle, the engine-side store that keeps
/// handed-out engine-native values alive under their tokens, the
/// metatable cache keyed by host object type name, and the materialized
/// object tables keyed by object registry index.
pub struct LuaScripting {
    pub lua: mlua::Lua,
    pub natives: mlua::Table,
    pub tables: Vec<(String, mlua::Table)>,
    pub objects: Vec<(i32, mlua::Table)>,
}

impl LuaScripting {
    /// The registry indices this adapter has materialized tables for.
    pub open spec fn spec_cached_ids(self) -> Seq<i32> {
        self.objects@.map_values(|p: (i32, mlua::Table)| p.0)
    }

    /// Start the adapter's engine; both caches begin empty.
    pub fn start() -> (r: LuaScripting)
        ensures
            r.tables@.len() == 0,
            r.objects@.len() == 0,
    {
        let (lua, natives) = ffi::lua_new_with_store();
        LuaScripting { lua, natives, tables: Vec::new(), objects: Vec::new() }
    }

    /// A second handle to the adapter's engine, so that a host dispatcher
    /// running inside `execute` can reach adapter state without holding
    /// the adapter itself.
    pub fn engine(&self) -> mlua::Lua {
        ffi::lua_clone(&self.lua)
    }

    /// A second handle to the adapter's engine-native store, for the same
    /// reason.
    pub fn natives_handle(&self) -> mlua::Table {
        ffi::lua_table_clone(&self.natives)
    }

    /// Run source against the engine's global namespace; an empty result
    /// is success, otherwise the rendered diagnostic.
    pub fn execute(&self, code: &str, file_name: &str) -> (r: String)
        ensures
            r@.len() == 0 || exists|e: Seq<char>| r@ == lua_error_msg(e, file_name@),
    {
        execute_chunk(&self.lua, code, file_name)
    }

    /// Bind a variable by name in the engine's global namespace: the
    /// value handed over is the conversion that `to_lua_value`'s contract
    /// fixes per tag. Reports whether the engine accepted it; a
    /// host-object value is not bound this way — it must be materialized
    /// first. That the engine keeps the binding is the engine's act and
    /// cannot be promised here.
    pub fn add_variable(&self, name: &str, variable: &Var) -> (ok: bool)
        ensures
            variable.tag() is HostObject ==> !ok,
    {
        match variable {
            Var::HostObject(_) => false,
            _ => {
                let v = to_lua_value(&self.lua, &self.natives, variable);
                ffi::lua_set_global(&self.lua, name, v)
            },
        }
    }

    /// Bind a callback in the engine's global namespace: the name and the
    /// function registry index are handed to the engine verbatim, and
    /// every script call of it reaches the host's dispatcher with that
    /// index and the tag-first argument order that `callback_args` fixes.
    /// That the engine keeps the binding is the engine's act and cannot
    /// be promised here.
    pub fn add_callback<F: Fn(i32, Vec<Var>) -> LuaHostResult + 'static>(
        &self,
        name: &str,
        fn_idx: i32,
        invoke: F,
    ) -> bool {
        let globals = ffi::lua_globals(&self.lua);
        ffi::lua_bind_callback(&self.lua, &self.natives, &globals, name, fn_idx, invoke)
    }

    /// Read a global back as a boundary value; an engine-native global
    /// (a table, a function) comes back as a token into the adapter's
    /// store.
    pub fn get_global_var(&self, name: &str) -> Var {
        match ffi::lua_get_global(&self.lua, name) {
            Some(v) => value_to_var(&self.natives, v),
            None => Var::new_null(),
        }
    }

    /// Materialize one namespace node as an engine table: its variables
    /// converted under `converted_rep_ok`, its callbacks bound through
    /// the host's dispatcher. What this hands the engine is recorded in
    /// the node's entry of the registration plan that `add_module`
    /// returns.
    fn create_module_table<F: Fn(i32, Vec<Var>) -> LuaHostResult + Clone + 'static>(
        &self,
        module: &Module,
        invoke: &F,
    ) -> Option<mlua::Table> {
        let table = match ffi::lua_table_new(&self.lua) {
            Some(t) => t,
            None => {
                return None;
            },
        };
        let mut i: usize = 0;
        while i < module.variables.len()
            decreases module.variables@.len() - i,
        {
            let v = to_lua_value(&self.lua, &self.natives, &module.variables[i].var);
            ffi::lua_table_set(&table, module.variables[i].name.as_str(), v);
            i = i + 1;
        }
        let mut j: usize = 0;
        while j < module.callbacks.len()
            decreases module.callbacks@.len() - j,
        {
            ffi::lua_bind_callback(
                &self.lua,
                &self.natives,
                &table,
                module.callbacks[j].name.as_str(),
                module.callbacks[j].idx,
                invoke.clone(),
            );
            j = j + 1;
        }
        Some(table)
    }

    /// Register a namespace tree and report exactly what was handed to
    /// the engine: each node's table is materialized eagerly under its
    /// dotted name in the engine's loaded module registry (so `require`
    /// of that name returns it), and the returned plan lists, per node in
    /// registration order, the dotted name with the variables and
    /// callbacks its table was filled with — pinned to the tree by the
    /// contract. The flag reports whether the engine accepted every
    /// registration.
    pub fn add_module<F: Fn(i32, Vec<Var>) -> LuaHostResult + Clone + 'static>(
        &self,
        module: &Module,
        invoke: &F,
    ) -> (r: (bool, Vec<RegisteredModule>))
        ensures
            plan_view(r.1@) == spec_module_plan(*module, module.name@),
    {
        let mut plan: Vec<RegisteredModule> = Vec::new();
        let ok = self.add_module_named(module, module.name.as_str(), invoke, &mut plan);
        proof {
            assert(plan_view(plan@) =~= spec_module_plan(*module, module.name@));
        }
        (ok, plan)
    }

    /// Register one namespace node under the given dotted name, then its
    /// children under their dotted names, appending each node's handed
    /// content to the plan.
    fn add_module_named<F: Fn(i32, Vec<Var>) -> LuaHostResult + Clone + 'static>(
        &self,
        module: &Module,
        reg_name: &str,
        invoke: &F,
        out: &mut Vec<RegisteredModule>,
    ) -> (ok: bool)
        ensures
            plan_view(final(out)@) == plan_view(old(out)@) + spec_module_plan(*module, reg_name@),
        decreases *module,
    {
        let ghost base = plan_view(out@);
        let mut vars: Vec<ModuleVariable> = Vec::new();
        let mut v: usize = 0;
        while v < module.variables.len()
            invariant
                v <= module.variables@.len(),
                vars@ == module.variables@.take(v as int),
            decreases module.variables@.len() - v,
        {
            vars.push(module.variables[v].clone());
            proof {
                assert(vars@ =~= module.variables@.take(v + 1 as int));
            }
            v = v + 1;
        }
        let mut cbs: Vec<ModuleCallback> = Vec::new();
        let mut c: usize = 0;
        while c < module.callbacks.len()
            invariant
                c <= module.callbacks@.len(),
                cbs@ == module.callbacks@.take(c as int),
            decreases module.callbacks@.len() - c,
        {
            cbs.push(module.callbacks[c].clone());
            proof {
                assert(cbs@ =~= module.callbacks@.take(c + 1 as int));
            }
            c = c + 1;
        }
        proof {
            assert(vars@ =~= module.variables@);
            assert(cbs@ =~= module.callbacks@);
        }
        out.push(RegisteredModule {
            reg_name: reg_name.to_owned(),
            variables: vars,
            callbacks: cbs,
        });
        proof {
            assert(plan_view(out@) =~= base + seq![
                (reg_name@, module.variables@, module.callbacks@),
            ]);
        }
        let mut ok = true;
        let table = match self.create_module_table(module, invoke) {
            Some(t) => Some(t),
            None => None,
        };
        match table {
            Some(table) => {
                let registered = match ffi::lua_get_global_table(&self.lua, "package") {
                    Some(package) => match ffi::lua_table_get_table(&package, "loaded") {
                        Some(loaded) => ffi::lua_table_set(
                            &loaded,
                            reg_name,
                            ffi::lua_value_table(table),
                        ),
                        None => false,
                    },
                    None => false,
                };
                if !registered {
                    ok = false;
                }
            },
            None => {
                ok = false;
            },
        }
        let mut i: usize = 0;
        while i < module.modules.len()
            invariant
                i <= module.modules@.len(),
                plan_view(out@) + spec_children_plan(
                    module.modules@,
                    reg_name@,
                    i as int,
                ) =~= base + spec_module_plan(*module, reg_name@),
            decreases module.modules@.len() - i,
        {
            let child = &module.modules[i];
            proof {
                assert(decreases_to!(*module => module.modules));
                assert(decreases_to!(module.modules => module.modules[i as int]));
            }
            let child_name = dotted_name(reg_name, child.name.as_str());
            let ghost before_child = plan_view(out@);
            if !self.add_module_named(child, child_name.as_str(), invoke, out) {
                ok = false;
            }
            proof {
                assert(child_name@ == reg_name@ + "."@ + module.modules@[i as int].name@);
                // One unfolding of the children plan at position i.
                assert(spec_children_plan(module.modules@, reg_name@, i as int)
                    == spec_module_plan(
                    module.modules@[i as int],
                    reg_name@ + "."@ + module.modules@[i as int].name@,
                ) + spec_children_plan(module.modules@, reg_name@, i + 1 as int));
                assert(plan_view(out@) == before_child + spec_module_plan(
                    *child,
                    child_name@,
                ));
                assert(plan_view(out@) + spec_children_plan(
                    module.modules@,
                    reg_name@,
                    i + 1 as int,
                ) =~= base + spec_module_plan(*module, reg_name@));
            }
            i = i + 1;
        }
        proof {
            assert(spec_children_plan(module.modules@, reg_name@, module.modules@.len() as int)
                =~= Seq::empty());
            assert(plan_view(out@) =~= base + spec_module_plan(*module, reg_name@));
        }
        ok
    }

    /// Register a class and report exactly what was handed to the engine:
    /// its members are materialized eagerly as one table bound directly
    /// under the class's name in the engine's global namespace, available
    /// without any require. The returned registration carries that
    /// binding name with the variables and callbacks the table was
    /// filled with — pinned to the class by the contract. The flag
    /// reports whether the engine accepted the binding.
    pub fn add_class<F: Fn(i32, Vec<Var>) -> LuaHostResult + Clone + 'static>(
        &self,
        class: &Class,
        invoke: &F,
    ) -> (r: (bool, RegisteredModule))
        ensures
            r.1.reg_name@ == class.name@,
            r.1.variables@ == class.vars@,
            r.1.callbacks@ == class.callbacks@,
    {
        let mut vars: Vec<ModuleVariable> = Vec::new();
        let mut v: usize = 0;
        while v < class.vars.len()
            invariant
                v <= class.vars@.len(),
                vars@ == class.vars@.take(v as int),
            decreases class.vars@.len() - v,
        {
            vars.push(class.vars[v].clone());
            proof {
                assert(vars@ =~= class.vars@.take(v + 1 as int));
            }
            v = v + 1;
        }
        let mut cbs: Vec<ModuleCallback> = Vec::new();
        let mut c: usize = 0;
        while c < class.callbacks.len()
            invariant
                c <= class.callbacks@.len(),
                cbs@ == class.callbacks@.take(c as int),
            decreases class.callbacks@.len() - c,
        {
            cbs.push(class.callbacks[c].clone());
            proof {
                assert(cbs@ =~= class.callbacks@.take(c + 1 as int));
            }
            c = c + 1;
        }
        proof {
            assert(vars@ =~= class.vars@);
            assert(cbs@ =~= class.callbacks@);
        }
        let handed = RegisteredModule {
            reg_name: class.name.clone(),
            variables: vars,
            callbacks: cbs,
        };
        let table = match ffi::lua_table_new(&self.lua) {
            Some(t) => t,
            None => {
                return (false, handed);
            },
        };
        let mut i: usize = 0;
        while i < class.vars.len()
            decreases class.vars@.len() - i,
        {
            let v = to_lua_value(&self.lua, &self.natives, &class.vars[i].var);
            ffi::lua_table_set(&table, class.vars[i].name.as_str(), v);
            i = i + 1;
        }
        let mut j: usize = 0;
        while j < class.callbacks.len()
            decreases class.callbacks@.len() - j,
        {
            ffi::lua_bind_callback(
                &self.lua,
                &self.natives,
                &table,
                class.callbacks[j].name.as_str(),
                class.callbacks[j].idx,
                invoke.clone(),
            );
            j = j + 1;
        }
        let ok = ffi::lua_set_global(&self.lua, class.name.as_str(), ffi::lua_value_table(table));
        (ok, handed)
    }

    /// The cached materialized table of an object registry index, if this
    /// adapter has one.
    fn cached_object_table(&self, idx: i32) -> (r: Option<mlua::Table>)
        ensures
            r is Some <==> self.spec_cached_ids().contains(idx),
    {
        let ghost ids = self.spec_cached_ids();
        let mut i: usize = 0;
        while i < self.objects.len()
            invariant
                i <= self.objects@.len(),
                ids == self.spec_cached_ids(),
                forall|j: int| 0 <= j < i ==> ids[j] != idx,
            decreases self.objects@.len() - i,
        {
            proof {
                assert(ids[i as int] == self.objects@[i as int].0);
            }
            if self.objects[i].0 == idx {
                return Some(ffi::lua_table_clone(&self.objects[i].1));
            }
            i = i + 1;
        }
        proof {
            assert forall|j: int| 0 <= j < ids.len() implies ids[j] != idx by {}
        }
        None
    }

    /// The cached metatable of a host object type, if one was built.
    fn cached_metatable(&self, class_name: &String) -> Option<mlua::Table> {
        let mut i: usize = 0;
        while i < self.tables.len()
            decreases self.tables@.len() - i,
        {
            if self.tables[i].0.eq(class_name) {
                return Some(ffi::lua_table_clone(&self.tables[i].1));
            }
            i = i + 1;
        }
        None
    }

    /// Build the metatable for a host object type: one bound method per
    /// registered callback, indexing to itself.
    fn build_metatable<F: Fn(i32, Vec<Var>) -> LuaHostResult + Clone + 'static>(
        &mut self,
        class_name: &String,
        callbacks: &Vec<ModuleCallback>,
        invoke: &F,
    ) -> Option<mlua::Table> {
        let mt = match ffi::lua_table_new(&self.lua) {
            Some(t) => t,
            None => {
                return None;
            },
        };
        let mut i: usize = 0;
        while i < callbacks.len()
            decreases callbacks@.len() - i,
        {
            ffi::lua_bind_object_method(
                &self.lua,
                &self.natives,
                &mt,
                callbacks[i].name.as_str(),
                callbacks[i].idx,
                invoke.clone(),
            );
            i = i + 1;
        }
        ffi::lua_table_set(&mt, "__index", ffi::lua_value_table(ffi::lua_table_clone(&mt)));
        self.tables.push((class_name.clone(), ffi::lua_table_clone(&mt)));
        Some(mt)
    }

    /// Materialize the host object behind a registry index as an engine
    /// table carrying the index in `_id`, with the type's metatable.
    ///
    /// The registry slot records the materialization: on the first
    /// crossing of an unmaterialized, resolving object this adapter
    /// writes its token into the slot; the first writer wins, a second
    /// attempt leaves the recorded representation untouched (the adapter
    /// still hands back its own cached table). An index that neither the
    /// cache nor the registry knows yields nothing, and the registry is
    /// unchanged.
    pub fn create_object<F: Fn(i32, Vec<Var>) -> LuaHostResult + Clone + 'static>(
        &mut self,
        lookup: &mut ObjectLookup,
        idx: i32,
        invoke: &F,
    ) -> (r: Option<mlua::Table>)
        ensures
            final(lookup).first_index() == old(lookup).first_index(),
            final(lookup).next_index() == old(lookup).next_index(),
            forall|i: int| final(lookup).resolves(i) == old(lookup).resolves(i),
            // An index this adapter already materialized yields its cached
            // table, with the registry untouched.
            old(self).spec_cached_ids().contains(idx) ==> r is Some && *final(lookup) == *old(
                lookup,
            ),
            // An index this adapter never materialized and the registry
            // does not resolve yields nothing.
            !old(self).spec_cached_ids().contains(idx) && !old(lookup).resolves(idx as int)
                ==> r is None,
            // The first crossing of an unmaterialized object records the
            // protocol's one transition in the registry slot.
            (r is Some && old(lookup).resolves(idx as int)
                && old(lookup).entry_at(idx as int).lang_ptr is None
                && !old(self).spec_cached_ids().contains(idx))
                ==> final(lookup).entry_at(idx as int).lang_ptr == Some(idx as u64),
            // A materialized slot is never overwritten, and no other
            // object's slot is touched.
            forall|i: int| old(lookup).resolves(i)
                && old(lookup).entry_at(i).lang_ptr is Some
                ==> final(lookup).entry_at(i) == old(lookup).entry_at(i),
            forall|i: int| old(lookup).resolves(i) && i != idx
                ==> final(lookup).entry_at(i) == old(lookup).entry_at(i),
    {
        if let Some(t) = self.cached_object_table(idx) {
            return Some(t);
        }
        let (class_name, callbacks) = match lookup.get_object(idx) {
            Some(o) => (o.class_name.clone(), o.callbacks.clone()),
            None => {
                return None;
            },
        };
        let table = match ffi::lua_table_new(&self.lua) {
            Some(t) => t,
            None => {
                return None;
            },
        };
        ffi::lua_table_set(&table, "_id", ffi::lua_value_int(idx as i64));
        let mt = match self.cached_metatable(&class_name) {
            Some(mt) => mt,
            None => match self.build_metatable(&class_name, &callbacks, invoke) {
                Some(mt) => mt,
                None => {
                    return None;
                },
            },
        };
        ffi::lua_table_set_metatable(&table, mt);
        self.objects.push((idx, ffi::lua_table_clone(&table)));
        let _ = lookup.try_materialize(idx, idx as u64);
        Some(table)
    }

    /// Resolve the engine table an object call will run against: a
    /// host-object reference is materialized (or taken from the cache),
    /// an engine-native token resolves through the adapter's store to
    /// the table it was handed out for. Only these two tags can carry a
    /// call target: any other value is a `TypeMismatch`, and a handle
    /// that resolves nowhere is a `RegistryMiss`.
    pub fn resolve_call_target<F: Fn(i32, Vec<Var>) -> LuaHostResult + Clone + 'static>(
        &mut self,
        lookup: &mut ObjectLookup,
        target: &Var,
        invoke: &F,
    ) -> (r: Result<mlua::Table, PxError>)
        ensures
            final(lookup).first_index() == old(lookup).first_index(),
            final(lookup).next_index() == old(lookup).next_index(),
            forall|i: int| final(lookup).resolves(i) == old(lookup).resolves(i),
            (r matches Err(e) && e is TypeMismatch) ==> !(target.tag() is HostObject)
                && !(target.tag() is Object),
            !(target.tag() is HostObject) && !(target.tag() is Object) ==> (r matches Err(e)
                && e is TypeMismatch),
            target.tag() is HostObject ==> (r is Ok || (r matches Err(e) && e is RegistryMiss)),
            target.tag() is Object ==> (r is Ok || (r matches Err(e) && e is RegistryMiss)),
            (*target matches Var::HostObject(idx) && !old(self).spec_cached_ids().contains(idx)
                && !old(lookup).resolves(idx as int)) ==> (r matches Err(e)
                && e is RegistryMiss),
    {
        match target {
            Var::HostObject(idx) => match self.create_object(lookup, *idx, invoke) {
                Some(t) => Ok(t),
                None => Err(PxError::RegistryMiss),
            },
            Var::Object(token) => match ffi::lua_native_value(&self.natives, *token) {
                Some(v) => match ffi::lua_value_as_table(v) {
                    Some(t) => Ok(t),
                    None => Err(PxError::RegistryMiss),
                },
                None => Err(PxError::RegistryMiss),
            },
            _ => Err(PxError::TypeMismatch),
        }
    }

    /// Invoke a named method on an engine table, the table itself passed
    /// first; the result comes back as a boundary value (engine-native
    /// results as tokens into the store). An engine error is an
    /// `EngineFault` carrying the engine's message.
    pub fn call_method_on(
        store: &mlua::Table,
        table: &mlua::Table,
        method: &str,
        args: Vec<mlua::Value>,
    ) -> (r: Result<Var, PxError>)
        ensures
            r is Err ==> (r matches Err(e) && e is EngineFault),
    {
        match ffi::lua_call_table_method(table, method, args) {
            Ok(v) => Ok(value_to_var(store, v)),
            Err(e) => Err(PxError::EngineFault(e)),
        }
    }

    /// Invoke a named method on the object behind a value: a host-object
    /// reference is materialized first if this adapter has not seen it,
    /// an engine-native token resolves to the script table it stands
    /// for. A value of any other tag is a `TypeMismatch`; a handle that
    /// resolves nowhere — in the registry, the cache or the store — is a
    /// `RegistryMiss`; an engine error comes back as `EngineFault` with
    /// the engine's message.
    pub fn object_call<F: Fn(i32, Vec<Var>) -> LuaHostResult + Clone + 'static>(
        &mut self,
        lookup: &mut ObjectLookup,
        target: &Var,
        method: &str,
        args: &Vec<Var>,
        invoke: &F,
    ) -> (r: Result<Var, PxError>)
        ensures
            final(lookup).first_index() == old(lookup).first_index(),
            final(lookup).next_index() == old(lookup).next_index(),
            forall|i: int| final(lookup).resolves(i) == old(lookup).resolves(i),
            (r matches Err(e) && e is TypeMismatch) ==> !(target.tag() is HostObject)
                && !(target.tag() is Object),
            !(target.tag() is HostObject) && !(target.tag() is Object) ==> (r matches Err(e)
                && e is TypeMismatch),
            target.tag() is HostObject ==> (r is Ok || (r matches Err(e) && (e is RegistryMiss
                || e is EngineFault))),
            target.tag() is Object ==> (r is Ok || (r matches Err(e) && (e is RegistryMiss
                || e is EngineFault))),
            (*target matches Var::HostObject(idx) && !old(self).spec_cached_ids().contains(idx)
                && !old(lookup).resolves(idx as int)) ==> (r matches Err(e)
                && e is RegistryMiss),
    {
        let table = match self.resolve_call_target(lookup, target, invoke) {
            Ok(t) => t,
            Err(e) => {
                return Err(e);
            },
        };
        let mut lua_args: Vec<mlua::Value> = Vec::new();
        let mut i: usize = 0;
        while i < args.len()
            decreases args@.len() - i,
        {
            lua_args.push(to_lua_value(&self.lua, &self.natives, &args[i]));
            i = i + 1;
        }
        Self::call_method_on(&self.natives, &table, method, lua_args)
    }
}

} // verus!
