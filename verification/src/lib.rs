//! A host/engine scripting bridge: a tagged value type that crosses the
//! boundary between a host application and embedded scripting engines,
//! process-wide registries resolving integer handles to host functions and
//! host-owned objects, a declarative namespace tree (modules and classes)
//! that every engine adapter materializes into its own representation, and
//! the lifecycle state machine that routes boundary calls to the adapters.
//!
//! This crate root holds the boundary operations themselves: what each
//! flat, C-compatible entry point of the runtime computes and decides,
//! stated over plain values. The unverified layer around the crate owns
//! the raw pointers, the process-wide statics and the engine processes,
//! checks the lifecycle before every call as documented here, and aborts
//! on misuse.

pub mod lua;
pub mod python;
pub mod shared;

use vstd::prelude::*;

use vstd::string::*;

use crate::shared::class::Class;
use crate::shared::error::PxError;
use crate::shared::func::lookup_add_function;
use crate::shared::module::{mangle_name, mangled, Module};
use crate::shared::object::{lookup_add_object, ObjectLookup, PixelObject};
use crate::shared::text::{bool_to_string, dec_str, dec_str_signed, i64_to_string, u64_to_string};
use crate::shared::var::{Var, VarType};
use crate::shared::widen::{
    f32_bits_to_f64_bits, f32_widened, f64_as_i64, f64_as_u64, f64_bits_to_i64, f64_bits_to_u64,
    i64_as_f64_bits, i64_bits_to_f64_bits, u64_as_f64_bits, u64_bits_to_f64_bits,
};
use crate::shared::{PixelScriptRuntime, PixelState};

verus! {

/// The version of the runtime, one byte each for major, minor and patch.
pub fn version() -> (v: u32)
    ensures
        v == 0x0001_0000,
{
    0x0001_0000
}

/// What the signed integer accessor reads from a value: the integer tags
/// widen bit-for-bit (an unsigned 64-bit value reinterpreted), booleans
/// as zero or one, and the float tags truncated toward zero with
/// saturation, NaN as zero; every other tag reads as the sentinel minus
/// one.
pub open spec fn widened_int(v: Var) -> i64 {
    match v {
        Var::Int32(x) => x as i64,
        Var::Int64(x) => x,
        Var::UInt32(x) => x as i64,
        Var::UInt64(x) => x as i64,
        Var::Bool(b) => if b {
            1i64
        } else {
            0i64
        },
        Var::Float32(bits) => f64_as_i64(f32_widened(bits)),
        Var::Float64(bits) => f64_as_i64(bits),
        _ => -1i64,
    }
}

/// Read a value through the signed integer accessor; see `widened_int`.
pub fn var_get_int(var: &Var) -> (r: i64)
    ensures
        r == widened_int(*var),
{
    match var {
        Var::Int32(x) => *x as i64,
        Var::Int64(x) => *x,
        Var::UInt32(x) => *x as i64,
        Var::UInt64(x) => *x as i64,
        Var::Bool(b) => if *b {
            1
        } else {
            0
        },
        Var::Float32(bits) => f64_bits_to_i64(f32_bits_to_f64_bits(*bits)),
        Var::Float64(bits) => f64_bits_to_i64(*bits),
        _ => -1,
    }
}

/// What the unsigned integer accessor reads from a value: the integer
/// tags widen bit-for-bit (a signed value reinterpreted), booleans as
/// zero or one, the float tags truncated toward zero with negative
/// values and NaN as zero; every other tag reads as zero.
pub open spec fn widened_uint(v: Var) -> u64 {
    match v {
        Var::Int32(x) => x as u64,
        Var::Int64(x) => x as u64,
        Var::UInt32(x) => x as u64,
        Var::UInt64(x) => x,
        Var::Bool(b) => if b {
            1u64
        } else {
            0u64
        },
        Var::Float32(bits) => f64_as_u64(f32_widened(bits)),
        Var::Float64(bits) => f64_as_u64(bits),
        _ => 0u64,
    }
}

/// Read a value through the unsigned integer accessor; see
/// `widened_uint`.
pub fn var_get_uint(var: &Var) -> (r: u64)
    ensures
        r == widened_uint(*var),
{
    match var {
        Var::Int32(x) => *x as u64,
        Var::Int64(x) => *x as u64,
        Var::UInt32(x) => *x as u64,
        Var::UInt64(x) => *x,
        Var::Bool(b) => if *b {
            1
        } else {
            0
        },
        Var::Float32(bits) => f64_bits_to_u64(f32_bits_to_f64_bits(*bits)),
        Var::Float64(bits) => f64_bits_to_u64(*bits),
        _ => 0,
    }
}

/// What the double accessor reads from a value, as a bit pattern: the
/// integer tags widen to the nearest double (ties to even; the 32-bit
/// tags are exact), booleans to zero or one, a single-precision pattern
/// widens exactly; every other tag reads as zero. The unverified
/// boundary layer turns the pattern into the machine float.
pub open spec fn widened_float_bits(v: Var) -> u64 {
    match v {
        Var::Int32(x) => i64_as_f64_bits(x as i64),
        Var::Int64(x) => i64_as_f64_bits(x),
        Var::UInt32(x) => u64_as_f64_bits(x as u64),
        Var::UInt64(x) => u64_as_f64_bits(x),
        Var::Bool(b) => if b {
            0x3FF0_0000_0000_0000u64
        } else {
            0u64
        },
        Var::Float32(bits) => f32_widened(bits),
        Var::Float64(bits) => bits,
        _ => 0u64,
    }
}

/// Read a value through the double accessor; see `widened_float_bits`.
pub fn var_get_float_bits(var: &Var) -> (r: u64)
    ensures
        r == widened_float_bits(*var),
{
    match var {
        Var::Int32(x) => i64_bits_to_f64_bits(*x as i64),
        Var::Int64(x) => i64_bits_to_f64_bits(*x),
        Var::UInt32(x) => u64_bits_to_f64_bits(*x as u64),
        Var::UInt64(x) => u64_bits_to_f64_bits(*x),
        Var::Bool(b) => if *b {
            0x3FF0_0000_0000_0000
        } else {
            0
        },
        Var::Float32(bits) => f32_bits_to_f64_bits(*bits),
        Var::Float64(bits) => *bits,
        _ => 0,
    }
}

/// Read a value through the boolean accessor: true exactly for a true
/// boolean, the sentinel false for every other value.
pub fn var_get_bool(var: &Var) -> (r: bool)
    ensures
        r == (*var == Var::Bool(true)),
{
    match var {
        Var::Bool(b) => *b,
        _ => false,
    }
}

/// Read the object registry index of a host-object value; the sentinel
/// minus one for every other tag.
pub fn var_get_object_idx(var: &Var) -> (r: i32)
    ensures
        match *var {
            Var::HostObject(idx) => r == idx,
            _ => r == -1,
        },
{
    match var {
        Var::HostObject(idx) => *idx,
        _ => -1,
    }
}

/// Resolve the host pointer token behind a host-object value. `None` —
/// the value is not a host-object reference, or its index no longer
/// resolves — degrades to a null pointer at the boundary.
pub fn var_get_host_ptr(objects: &ObjectLookup, var: &Var) -> (r: Option<u64>)
    ensures
        match *var {
            Var::HostObject(idx) => match r {
                Some(p) => objects.resolves(idx as int) && p == objects.entry_at(
                    idx as int,
                ).ptr,
                None => !objects.resolves(idx as int),
            },
            _ => r is None,
        },
{
    match var {
        Var::HostObject(idx) => match objects.get_object(*idx) {
            Some(o) => Some(o.ptr),
            None => None,
        },
        _ => None,
    }
}

/// Whether a value can be the target of an object call: an engine-native
/// object, a host-object reference, or one of the 64-bit integer tags
/// that may carry an object handle.
pub open spec fn callable_target(v: Var) -> bool {
    v.tag() is Object || v.tag() is HostObject || v.tag() is Int64 || v.tag() is UInt64
}

/// Where an object call goes: to the compiled-in engine named by the
/// runtime tag value, when the target can carry an object; otherwise the
/// error the request degrades with. A tag that is not a 64-bit signed
/// integer, or a target that cannot carry an object, is a type mismatch;
/// a tag naming no compiled-in engine is an unknown runtime tag.
pub open spec fn route_of(runtime: Var, target: Var) -> Result<PixelScriptRuntime, PxError> {
    match runtime {
        Var::Int64(c) => match PixelScriptRuntime::spec_from_i64(c) {
            Some(rt) => if !rt.spec_compiled_in() {
                Err(PxError::UnknownRuntimeTag)
            } else if callable_target(target) {
                Ok(rt)
            } else {
                Err(PxError::TypeMismatch)
            },
            None => Err(PxError::UnknownRuntimeTag),
        },
        _ => Err(PxError::TypeMismatch),
    }
}

/// Decide where an object call goes; see `route_of`. The first value of
/// every call carries the runtime tag of the engine that owns the
/// target. Every rejection degrades to a Null result at the boundary.
pub fn object_call_route(runtime: &Var, target: &Var) -> (r: Result<PixelScriptRuntime, PxError>)
    ensures
        r == route_of(*runtime, *target),
{
    let code = match runtime.get_i64() {
        Ok(c) => c,
        Err(_) => {
            return Err(PxError::TypeMismatch);
        },
    };
    let rt = match PixelScriptRuntime::from_i64(code) {
        Some(rt) => rt,
        None => {
            return Err(PxError::UnknownRuntimeTag);
        },
    };
    if !rt.compiled_in() {
        return Err(PxError::UnknownRuntimeTag);
    }
    let t = target.get_tag();
    if t == VarType::Object || t == VarType::HostObject || t == VarType::Int64
        || t == VarType::UInt64 {
        Ok(rt)
    } else {
        Err(PxError::TypeMismatch)
    }
}

/// How a value turns into its string form without an engine: the integer
/// and boolean tags render in decimal or as keywords, strings copy, a
/// double must be rendered by the float-capable boundary layer, and
/// everything else needs the owning engine's own conversion.
pub enum ToStringLocal {
    /// The rendered string value.
    Done(Var),
    /// The caller renders this double-precision bit pattern.
    NeedsFloat64(u64),
    /// The owning engine must perform the conversion.
    NeedsEngine,
}

/// Convert a value to its string form where no engine is needed: the
/// integer and boolean tags render directly in decimal or as keywords,
/// strings are copied. A double — or a single, widened exactly — is
/// handed back for the float-capable boundary layer to render, and the
/// engine-native and host-object tags are referred to the owning
/// engine's conversion.
pub fn var_tostring_local(var: &Var) -> (r: ToStringLocal)
    ensures
        match *var {
            Var::Int32(x) => r matches ToStringLocal::Done(s) && (s matches Var::Str(t)
                && t@ == dec_str_signed(x as int)),
            Var::Int64(x) => r matches ToStringLocal::Done(s) && (s matches Var::Str(t)
                && t@ == dec_str_signed(x as int)),
            Var::UInt32(x) => r matches ToStringLocal::Done(s) && (s matches Var::Str(t)
                && t@ == dec_str(x as nat)),
            Var::UInt64(x) => r matches ToStringLocal::Done(s) && (s matches Var::Str(t)
                && t@ == dec_str(x as nat)),
            Var::Bool(b) => r matches ToStringLocal::Done(s) && (s matches Var::Str(t) && (b
                ==> t@ == "true"@) && (!b ==> t@ == "false"@)),
            Var::Str(src) => r matches ToStringLocal::Done(s) && (s matches Var::Str(t)
                && t == src),
            Var::Float32(bits) => r matches ToStringLocal::NeedsFloat64(b) && b == f32_widened(
                bits,
            ),
            Var::Float64(bits) => r matches ToStringLocal::NeedsFloat64(b) && b == bits,
            _ => r is NeedsEngine,
        },
{
    match var {
        Var::Int32(x) => ToStringLocal::Done(Var::Str(i64_to_string(*x as i64))),
        Var::Int64(x) => ToStringLocal::Done(Var::Str(i64_to_string(*x))),
        Var::UInt32(x) => ToStringLocal::Done(Var::Str(u64_to_string(*x as u64))),
        Var::UInt64(x) => ToStringLocal::Done(Var::Str(u64_to_string(*x))),
        Var::Bool(b) => ToStringLocal::Done(Var::Str(bool_to_string(*b))),
        Var::Str(s) => ToStringLocal::Done(Var::Str(s.clone())),
        Var::Float32(bits) => ToStringLocal::NeedsFloat64(f32_bits_to_f64_bits(*bits)),
        Var::Float64(bits) => ToStringLocal::NeedsFloat64(*bits),
        _ => ToStringLocal::NeedsEngine,
    }
}

/// The engine-side conversion method `var_tostring` falls back to for
/// values only the owning engine can render: Lua's global `tostring`,
/// Python's `str`. Engines that are not compiled in have none.
pub fn tostring_method(rt: PixelScriptRuntime) -> (r: Option<&'static str>)
    ensures
        rt is Lua ==> (r matches Some(m) && m@ == "tostring"@),
        rt is Python ==> (r matches Some(m) && m@ == "str"@),
        !rt.spec_compiled_in() ==> r is None,
    {
    match rt {
        PixelScriptRuntime::Lua => Some("tostring"),
        PixelScriptRuntime::Python => Some("str"),
        _ => None,
    }
}

/// Check a script execution request: the diagnostic for an empty source
/// or an empty chunk name, `None` when the request may go to the engine.
pub fn validate_exec_request(code: &str, file_name: &str) -> (r: Option<String>)
    ensures
        match r {
            Some(msg) => (code@.len() == 0 && msg@ == "Code is empty"@) || (code@.len() > 0
                && file_name@.len() == 0 && msg@ == "File name is empty"@),
            None => code@.len() > 0 && file_name@.len() > 0,
        },
{
    if code.unicode_len() == 0 {
        Some(String::from_str("Code is empty"))
    } else if file_name.unicode_len() == 0 {
        Some(String::from_str("File name is empty"))
    } else {
        None
    }
}

/// Build the argument list an engine hands to a host callback: the
/// calling engine's runtime tag first, then the script arguments in
/// order.
pub fn with_runtime_tag(rt: PixelScriptRuntime, args: Vec<Var>) -> (r: Vec<Var>)
    ensures
        r@.len() == args@.len() + 1,
        r@[0] == Var::Int64(rt.code()),
        r@.skip(1) == args@,
{
    let mut out: Vec<Var> = Vec::new();
    out.push(Var::new_i64(rt.as_i64()));
    let mut i: usize = 0;
    while i < args.len()
        invariant
            i <= args@.len(),
            out@.len() == i + 1,
            out@[0] == Var::Int64(rt.code()),
            out@.skip(1) == args@.take(i as int),
        decreases args@.len() - i,
    {
        out.push(args[i].clone());
        proof {
            assert(out@.skip(1) =~= args@.take(i + 1 as int));
        }
        i = i + 1;
    }
    proof {
        assert(args@.take(args@.len() as int) =~= args@);
    }
    out
}

/// Register a callback on a namespace tree: the registration name is the
/// short name mangled with the owning module's name, the function goes
/// into the process-wide registry under the next free index, and the
/// module records the short name with that index.
pub fn module_add_callback(
    state: &mut PixelState,
    module: &mut Module,
    name: &str,
    func: u64,
    opaque: u64,
) -> (idx: i32)
    requires
        old(state).functions.wf(),
        old(state).functions.next_index() < i32::MAX,
    ensures
        final(state).functions.wf(),
        final(state).phase == old(state).phase,
        final(state).objects == old(state).objects,
        idx == old(state).functions.next_index(),
        final(state).functions.next_index() == old(state).functions.next_index() + 1,
        final(state).functions.resolves(idx as int),
        final(state).functions.entry_at(idx as int).name@ == mangled(
            old(module).name@,
            name@,
        ),
        final(state).functions.entry_at(idx as int).func == func,
        final(state).functions.entry_at(idx as int).opaque == opaque,
        forall|i: int| old(state).functions.resolves(i) ==> final(state).functions.resolves(i)
            && final(state).functions.entry_at(i) == old(state).functions.entry_at(i),
        final(module).name == old(module).name,
        final(module).variables == old(module).variables,
        final(module).modules == old(module).modules,
        final(module).callbacks@.len() == old(module).callbacks@.len() + 1,
        final(module).callbacks@.last().name@ == name@,
        final(module).callbacks@.last().full_name@ == mangled(old(module).name@, name@),
        final(module).callbacks@.last().idx == idx,
        final(module).callbacks@.drop_last() == old(module).callbacks@,
{
    let full_name = mangle_name(module.name.as_str(), name);
    let idx = lookup_add_function(&mut state.functions, full_name.as_str(), func, opaque);
    module.add_callback(name, full_name.as_str(), idx);
    idx
}

/// Register a callback on a class: the registration name is the short
/// name mangled with the class's name, the function goes into the
/// process-wide registry under the next free index, and the class
/// records the short name with that index.
pub fn class_add_callback(
    state: &mut PixelState,
    class: &mut Class,
    name: &str,
    func: u64,
    opaque: u64,
) -> (idx: i32)
    requires
        old(state).functions.wf(),
        old(state).functions.next_index() < i32::MAX,
    ensures
        final(state).functions.wf(),
        final(state).phase == old(state).phase,
        final(state).objects == old(state).objects,
        idx == old(state).functions.next_index(),
        final(state).functions.next_index() == old(state).functions.next_index() + 1,
        final(state).functions.resolves(idx as int),
        final(state).functions.entry_at(idx as int).name@ == mangled(old(class).name@, name@),
        final(state).functions.entry_at(idx as int).func == func,
        final(state).functions.entry_at(idx as int).opaque == opaque,
        forall|i: int| old(state).functions.resolves(i) ==> final(state).functions.resolves(i)
            && final(state).functions.entry_at(i) == old(state).functions.entry_at(i),
        final(class).name == old(class).name,
        final(class).vars == old(class).vars,
        final(class).callbacks@.len() == old(class).callbacks@.len() + 1,
        final(class).callbacks@.last().name@ == name@,
        final(class).callbacks@.last().full_name@ == mangled(old(class).name@, name@),
        final(class).callbacks@.last().idx == idx,
        final(class).callbacks@.drop_last() == old(class).callbacks@,
{
    let full_name = mangle_name(class.name.as_str(), name);
    let idx = lookup_add_function(&mut state.functions, full_name.as_str(), func, opaque);
    class.add_callback(name, full_name.as_str(), idx);
    idx
}

/// Register a method on a host object: the registration name is the short
/// name mangled with the object's type name, the function goes into the
/// process-wide registry under the next free index, and the object
/// records the short name with that index.
pub fn object_add_callback(
    state: &mut PixelState,
    object: &mut PixelObject,
    name: &str,
    func: u64,
    opaque: u64,
) -> (idx: i32)
    requires
        old(state).functions.wf(),
        old(state).functions.next_index() < i32::MAX,
    ensures
        final(state).functions.wf(),
        final(state).phase == old(state).phase,
        final(state).objects == old(state).objects,
        idx == old(state).functions.next_index(),
        final(state).functions.next_index() == old(state).functions.next_index() + 1,
        final(state).functions.resolves(idx as int),
        final(state).functions.entry_at(idx as int).name@ == mangled(
            old(object).class_name@,
            name@,
        ),
        final(state).functions.entry_at(idx as int).func == func,
        final(state).functions.entry_at(idx as int).opaque == opaque,
        forall|i: int| old(state).functions.resolves(i) ==> final(state).functions.resolves(i)
            && final(state).functions.entry_at(i) == old(state).functions.entry_at(i),
        final(object).class_name == old(object).class_name,
        final(object).ptr == old(object).ptr,
        final(object).lang_ptr == old(object).lang_ptr,
        final(object).free_method == old(object).free_method,
        final(object).callbacks@.len() == old(object).callbacks@.len() + 1,
        final(object).callbacks@.last().name@ == name@,
        final(object).callbacks@.last().full_name@ == mangled(old(object).class_name@, name@),
        final(object).callbacks@.last().idx == idx,
        final(object).callbacks@.drop_last() == old(object).callbacks@,
{
    let full_name = mangle_name(object.class_name.as_str(), name);
    let idx = lookup_add_function(&mut state.functions, full_name.as_str(), func, opaque);
    object.add_callback(name, full_name.as_str(), idx);
    idx
}

/// Hand a host object to the runtime: it moves into the object registry
/// and the returned value carries its index, so the referent's lifetime
/// is decoupled from any single engine or thread.
pub fn value_from_host_object(state: &mut PixelState, object: PixelObject) -> (v: Var)
    requires
        old(state).objects.wf(),
        old(state).objects.next_index() < i32::MAX,
    ensures
        final(state).objects.wf(),
        final(state).phase == old(state).phase,
        final(state).functions == old(state).functions,
        final(state).objects.next_index() == old(state).objects.next_index() + 1,
        v == Var::HostObject(old(state).objects.next_index() as i32),
        final(state).objects.resolves(old(state).objects.next_index()),
        final(state).objects.entry_at(old(state).objects.next_index()) == object,
        forall|i: int| old(state).objects.resolves(i) ==> final(state).objects.resolves(i)
            && final(state).objects.entry_at(i) == old(state).objects.entry_at(i),
{
    let idx = lookup_add_object(&mut state.objects, object);
    Var::new_host_object(idx)
}

/// Install the host's file-read hook, consulted by every adapter's
/// import resolution.
pub fn set_file_reader(state: &mut PixelState, hook: u64)
    ensures
        *final(state) == (PixelState { load_file: Some(hook), ..*old(state) }),
{
    state.load_file = Some(hook);
}

/// Install the host's file-write hook.
pub fn set_file_writer(state: &mut PixelState, hook: u64)
    ensures
        *final(state) == (PixelState { write_file: Some(hook), ..*old(state) }),
{
    state.write_file = Some(hook);
}

/// Install the host's directory-read hook.
pub fn set_dir_reader(state: &mut PixelState, hook: u64)
    ensures
        *final(state) == (PixelState { read_dir: Some(hook), ..*old(state) }),
{
    state.read_dir = Some(hook);
}

} // verus!
