//! The trusted seam to the embedded Lua engine.
//!
//! Everything the adapter asks of the engine goes through the items in
//! this file: the engine types are declared opaque, and each wrapper
//! performs one engine operation, converting between boundary values and
//! engine values at the edge. Nothing about the engine's own behaviour is
//! promised beyond what each wrapper's contract states; script execution
//! and conversion failures surface as results, never as panics.

use vstd::prelude::*;

use mlua::ObjectLike;

use crate::shared::var::Var;

verus! {

#[verifier::external_type_specification]
#[verifier::external_body]
pub struct ExLua(mlua::Lua);

#[verifier::external_type_specification]
#[verifier::external_body]
pub struct ExLuaTable(mlua::Table);

#[verifier::external_type_specification]
#[verifier::external_body]
pub struct ExLuaValue(mlua::Value);

/// The boundary reading of an engine value: `Some` of the plain value a
/// primitive engine value (nil, boolean, integer, number as its bit
/// pattern, string) reads back as, `None` for an engine-native value (a
/// table, a function, a thread). An engine value's variant and primitive
/// payload never change, so this is a function of the value alone; the
/// trusted constructors and the trusted primitive reading below pin it
/// from both sides.
pub uninterp spec fn lua_rep(v: mlua::Value) -> Option<Var>;

/// Relies on mlua::Lua::new and mlua::Lua::create_table: a fresh engine
/// with an empty global namespace, and an empty engine-side table that
/// the adapter uses to keep the engine-native values it hands out as
/// tokens alive and resolvable.
#[verifier::external_body]
pub(crate) fn lua_new_with_store() -> (mlua::Lua, mlua::Table) {
    let lua = mlua::Lua::new();
    let store = lua.create_table().expect("a fresh engine can allocate a table");
    (lua, store)
}

/// Relies on mlua::Table::clone: another handle to the same engine
/// table.
#[verifier::external_body]
pub(crate) fn lua_table_clone(t: &mlua::Table) -> mlua::Table {
    t.clone()
}

/// Relies on mlua's Chunk::exec: compiles and runs the source against the
/// engine's global namespace; an error is handed back as the engine's own
/// message.
#[verifier::external_body]
pub(crate) fn lua_exec(lua: &mlua::Lua, code: &str, chunk_name: &str) -> Result<(), String> {
    match lua.load(code).set_name(chunk_name).exec() {
        Ok(()) => Ok(()),
        Err(e) => Err(e.to_string()),
    }
}

/// Relies on mlua::Value::Nil.
#[verifier::external_body]
pub(crate) fn lua_value_nil() -> (r: mlua::Value)
    ensures
        lua_rep(r) == Some(Var::Null),
{
    mlua::Value::Nil
}

/// Relies on mlua::Value::Boolean.
#[verifier::external_body]
pub(crate) fn lua_value_bool(b: bool) -> (r: mlua::Value)
    ensures
        lua_rep(r) == Some(Var::Bool(b)),
{
    mlua::Value::Boolean(b)
}

/// Relies on mlua::Value::Integer.
#[verifier::external_body]
pub(crate) fn lua_value_int(i: i64) -> (r: mlua::Value)
    ensures
        lua_rep(r) == Some(Var::Int64(i)),
{
    mlua::Value::Integer(i)
}

/// Relies on mlua::Value::Number and f64::from_bits, whose bit pattern
/// f64::to_bits reads back exactly: the engine number with the given bit
/// pattern.
#[verifier::external_body]
pub(crate) fn lua_value_number_from_bits(bits: u64) -> (r: mlua::Value)
    ensures
        lua_rep(r) == Some(Var::Float64(bits)),
{
    mlua::Value::Number(mlua::Number::from_bits(bits))
}

/// Relies on mlua::Lua::create_string, which interns an exact copy of
/// the bytes of the (valid UTF-8) string.
#[verifier::external_body]
pub(crate) fn lua_value_str(lua: &mlua::Lua, s: &str) -> (r: Option<mlua::Value>)
    ensures
        r matches Some(v) ==> (lua_rep(v) matches Some(p) && (p matches Var::Str(t)
            && t@ == s@)),
{
    match lua.create_string(s) {
        Ok(ls) => Some(mlua::Value::String(ls)),
        Err(_) => None,
    }
}

/// Relies on mlua::Value::Table: a table is engine-native, with no
/// primitive reading.
#[verifier::external_body]
pub(crate) fn lua_value_table(t: mlua::Table) -> (r: mlua::Value)
    ensures
        lua_rep(r) is None,
{
    mlua::Value::Table(t)
}

/// Relies on mlua's value enum: the primitive reading of an engine
/// value — nil, boolean, integer, number (as its bit pattern by
/// f64::to_bits) and string map to their tags; a table, a function or
/// any other engine-native value has none.
#[verifier::external_body]
pub(crate) fn lua_value_primitive(v: &mlua::Value) -> (r: Option<Var>)
    ensures
        r == lua_rep(*v),
{
    match v {
        mlua::Value::Nil => Some(Var::Null),
        mlua::Value::Boolean(b) => Some(Var::Bool(*b)),
        mlua::Value::Integer(i) => Some(Var::Int64(*i)),
        mlua::Value::Number(n) => Some(Var::Float64(n.to_bits())),
        mlua::Value::String(s) => Some(Var::Str(s.to_string_lossy())),
        _ => None,
    }
}

/// Relies on mlua::Table::raw_len: how many values the adapter's store
/// holds.
#[verifier::external_body]
pub(crate) fn lua_store_len(store: &mlua::Table) -> u64 {
    store.raw_len() as u64
}

/// Relies on mlua::Table::raw_set: files the engine value in the store
/// under the given token.
#[verifier::external_body]
pub(crate) fn lua_store_set(store: &mlua::Table, token: u64, v: mlua::Value) -> bool {
    store.raw_set(token, v).is_ok()
}

/// Relies on mlua::Table::raw_get: the engine-native value behind a
/// token of the adapter's store; `None` for a token the store does not
/// hold.
#[verifier::external_body]
pub(crate) fn lua_native_value(store: &mlua::Table, token: u64) -> Option<mlua::Value> {
    match store.raw_get::<mlua::Value>(token) {
        Ok(mlua::Value::Nil) => None,
        Ok(v) => Some(v),
        Err(_) => None,
    }
}

/// Relies on mlua::Value::Table: the table behind an engine value, when
/// it is one.
#[verifier::external_body]
pub(crate) fn lua_value_as_table(v: mlua::Value) -> Option<mlua::Table> {
    match v {
        mlua::Value::Table(t) => Some(t),
        _ => None,
    }
}

/// Relies on mlua::Lua::globals: the engine's global namespace table.
#[verifier::external_body]
pub(crate) fn lua_globals(lua: &mlua::Lua) -> mlua::Table {
    lua.globals()
}

/// Relies on mlua::Lua::globals and mlua::Table::set: binds the value
/// under the name in the engine's global namespace.
#[verifier::external_body]
pub(crate) fn lua_set_global(lua: &mlua::Lua, name: &str, v: mlua::Value) -> bool {
    lua.globals().set(name, v).is_ok()
}

/// Relies on mlua::Lua::globals and mlua::Table::get: reads a global as
/// an engine value.
#[verifier::external_body]
pub(crate) fn lua_get_global(lua: &mlua::Lua, name: &str) -> Option<mlua::Value> {
    lua.globals().get::<mlua::Value>(name).ok()
}

/// Relies on mlua::Lua::create_table.
#[verifier::external_body]
pub(crate) fn lua_table_new(lua: &mlua::Lua) -> Option<mlua::Table> {
    lua.create_table().ok()
}

/// Relies on mlua::Table::set.
#[verifier::external_body]
pub(crate) fn lua_table_set(t: &mlua::Table, key: &str, v: mlua::Value) -> bool {
    t.set(key, v).is_ok()
}

/// Relies on mlua::Table::get: reads a field as an engine table, when it
/// is one.
#[verifier::external_body]
pub(crate) fn lua_table_get_table(t: &mlua::Table, key: &str) -> Option<mlua::Table> {
    t.get::<mlua::Table>(key).ok()
}

/// Relies on mlua::Lua::globals and mlua::Table::get: reads a global as
/// an engine table, when it is one.
#[verifier::external_body]
pub(crate) fn lua_get_global_table(lua: &mlua::Lua, name: &str) -> Option<mlua::Table> {
    lua.globals().get::<mlua::Table>(name).ok()
}

/// Relies on mlua::Table::set_metatable.
#[verifier::external_body]
pub(crate) fn lua_table_set_metatable(t: &mlua::Table, mt: mlua::Table) -> bool {
    t.set_metatable(Some(mt)).is_ok()
}

/// Relies on mlua::Lua::create_function and mlua::Table::set: binds a
/// script-callable function under the name in the given table. When
/// script code calls it, the engine's arguments are read back as
/// boundary values and handed, behind the runtime tag put first by the
/// verified argument builder, to the host's dispatcher together with the
/// function registry index it was bound with.
#[verifier::external_body]
pub(crate) fn lua_bind_callback<F: Fn(i32, Vec<Var>) -> crate::lua::LuaHostResult + 'static>(
    lua: &mlua::Lua,
    store: &mlua::Table,
    t: &mlua::Table,
    name: &str,
    fn_idx: i32,
    f: F,
) -> bool {
    let store = store.clone();
    let func = lua.create_function(move |l2, args: mlua::MultiValue| {
        let vars: Vec<Var> = args.into_iter().map(|a| crate::lua::value_to_var(&store, a)).collect();
        let r = f(fn_idx, crate::lua::callback_args(vars));
        Ok(crate::lua::host_result_to_lua(l2, &store, r))
    });
    match func {
        Ok(func) => t.set(name, func).is_ok(),
        Err(_) => false,
    }
}

/// Relies on mlua::Lua::create_function and mlua::Table::set: binds a
/// script-callable object method under the name in the given table. The
/// engine passes the object's own table first; its registry index is
/// read from the table's `_id` field and put, with the runtime tag,
/// before the remaining arguments by the verified argument builder.
#[verifier::external_body]
pub(crate) fn lua_bind_object_method<
    F: Fn(i32, Vec<Var>) -> crate::lua::LuaHostResult + 'static,
>(
    lua: &mlua::Lua,
    store: &mlua::Table,
    t: &mlua::Table,
    name: &str,
    fn_idx: i32,
    f: F,
) -> bool {
    let store = store.clone();
    let func = lua.create_function(move |l2, (obj, args): (mlua::Table, mlua::MultiValue)| {
        let id: i64 = obj.get("_id")?;
        let vars: Vec<Var> = args.into_iter().map(|a| crate::lua::value_to_var(&store, a)).collect();
        let r = f(fn_idx, crate::lua::object_method_args(id, vars));
        Ok(crate::lua::host_result_to_lua(l2, &store, r))
    });
    match func {
        Ok(func) => t.set(name, func).is_ok(),
        Err(_) => false,
    }
}

/// Relies on mlua::Lua::clone: another handle to the same engine.
#[verifier::external_body]
pub(crate) fn lua_clone(lua: &mlua::Lua) -> mlua::Lua {
    lua.clone()
}

/// Relies on mlua's ObjectLike::call_method: invokes the named method on
/// the table, passing the table itself first, and hands the first result
/// back. An engine error is handed back as its message.
#[verifier::external_body]
pub(crate) fn lua_call_table_method(
    t: &mlua::Table,
    name: &str,
    args: Vec<mlua::Value>,
) -> Result<mlua::Value, String> {
    match t.call_method::<mlua::Value>(name, mlua::MultiValue::from_iter(args)) {
        Ok(v) => Ok(v),
        Err(e) => Err(e.to_string()),
    }
}

} // verus!
