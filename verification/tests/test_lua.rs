use std::cell::RefCell;
use std::collections::HashMap;
use std::rc::Rc;

use pixel_script::lua::{execute_chunk, LuaHostResult, LuaScripting};
use pixel_script::shared::func::lookup_add_function;
use pixel_script::shared::module::Module;
use pixel_script::shared::object::PixelObject;
use pixel_script::shared::var::Var;
use pixel_script::shared::PixelState;
use pixel_script::shared::class::Class;
use pixel_script::{
    class_add_callback, module_add_callback, object_add_callback, value_from_host_object,
};

/// The host side of the bridge for these tests: the process state with
/// its registries, the Lua adapter, and the native callbacks keyed by the
/// token stored in each registry entry.
struct Host {
    state: RefCell<PixelState>,
    lua: RefCell<LuaScripting>,
    natives: RefCell<HashMap<u64, Rc<dyn Fn(Vec<Var>) -> LuaHostResult>>>,
    next_token: RefCell<u64>,
}

impl Host {
    fn new() -> Rc<Host> {
        let mut state = PixelState::new();
        assert!(state.initialize());
        Rc::new(Host {
            state: RefCell::new(state),
            lua: RefCell::new(LuaScripting::start()),
            natives: RefCell::new(HashMap::new()),
            next_token: RefCell::new(1),
        })
    }

    fn register_native(&self, f: Rc<dyn Fn(Vec<Var>) -> LuaHostResult>) -> u64 {
        let mut next = self.next_token.borrow_mut();
        let token = *next;
        *next += 1;
        self.natives.borrow_mut().insert(token, f);
        token
    }

    /// The one dispatcher every script-callable callback goes through:
    /// resolve the index in the process-wide function registry, then
    /// perform the native call behind the entry's token. A registry miss
    /// resolves to Null.
    fn dispatcher(self: &Rc<Host>) -> impl Fn(i32, Vec<Var>) -> LuaHostResult + Clone + 'static {
        let host = Rc::clone(self);
        move |fn_idx: i32, args: Vec<Var>| {
            let token = {
                let state = host.state.borrow();
                state.functions.get_function(fn_idx).map(|f| f.func)
            };
            match token {
                Some(t) => {
                    let native = host.natives.borrow().get(&t).cloned();
                    match native {
                        Some(native) => native(args),
                        None => LuaHostResult::Plain(Var::new_null()),
                    }
                }
                None => LuaHostResult::Plain(Var::new_null()),
            }
        }
    }
}

fn add_name_variable(host: &Rc<Host>) {
    assert!(host
        .lua
        .borrow()
        .add_variable("name", &Var::new_string(String::from("Jordan"))));
}

fn add_println_callback(host: &Rc<Host>) {
    let token = host.register_native(Rc::new(|args: Vec<Var>| {
        // The runtime tag comes first; the message follows.
        if args.len() > 1 {
            if let Ok(msg) = args[1].get_string() {
                println!("Lua sent: {}", msg);
            }
        }
        LuaHostResult::Plain(Var::new_null())
    }));
    let idx = lookup_add_function(
        &mut host.state.borrow_mut().functions,
        "_println",
        token,
        0,
    );
    assert!(host.lua.borrow().add_callback("println", idx, host.dispatcher()));
}

fn add_cmath_module(host: &Rc<Host>) {
    let token = host.register_native(Rc::new(|args: Vec<Var>| {
        // The runtime tag comes first; n1 and n2 follow.
        let n1 = args[1].get_i64().unwrap();
        let n2 = args[2].get_i64().unwrap();
        LuaHostResult::Plain(Var::new_i64(n1 + n2))
    }));
    let mut module = Module::new(String::from("cmath"));
    module_add_callback(
        &mut host.state.borrow_mut(),
        &mut module,
        "add",
        token,
        0,
    );
    module.add_variable("n1", Var::new_i64(1));
    module.add_variable("n2", Var::new_i64(2));
    let (ok, plan) = host.lua.borrow().add_module(&module, &host.dispatcher());
    assert!(ok);
    // The returned plan is exactly what was handed to the engine.
    assert_eq!(plan.len(), 1);
    assert_eq!(plan[0].reg_name, "cmath");
    assert_eq!(plan[0].variables.len(), 2);
    assert_eq!(plan[0].variables[0].name, "n1");
    assert_eq!(plan[0].variables[0].var.get_i64().unwrap(), 1);
    assert_eq!(plan[0].callbacks.len(), 1);
    assert_eq!(plan[0].callbacks[0].name, "add");
}

#[test]
fn test_lua_test_add_variable() {
    let host = Host::new();
    add_name_variable(&host);
    let read_back = host.lua.borrow().get_global_var("name");
    assert_eq!(read_back.get_string().unwrap().as_str(), "Jordan");
}

#[test]
fn test_lua_test_add_callback() {
    let host = Host::new();
    add_println_callback(&host);
}

#[test]
fn test_lua_test_add_module() {
    let host = Host::new();
    add_cmath_module(&host);
}

#[test]
fn test_lua_test_execute() {
    let host = Host::new();
    add_name_variable(&host);
    add_println_callback(&host);
    add_cmath_module(&host);
    let lua_code = r#"
            local msg = "Welcome, " .. name
            println(msg)

            local math = require("cmath")

            local result = math.add(math.n1, math.n2)
            println("Module result: " .. tostring(result))

            if result ~= 3 then
                error("Math, Expected 3, got " .. tostring(result))
            end
            println("Yessir!")
        "#;
    let err = host.lua.borrow().execute(lua_code, "<test>");

    assert!(err.is_empty(), "Error is not empty: {}", err);
}

#[test]
fn test_lua_submodules_register_under_dotted_names() {
    let host = Host::new();
    let mut parent = Module::new(String::from("outer"));
    parent.add_variable("a", Var::new_i64(10));
    let mut child = Module::new(String::from("inner"));
    child.add_variable("b", Var::new_i64(32));
    parent.add_module(child);
    let (ok, plan) = host.lua.borrow().add_module(&parent, &host.dispatcher());
    assert!(ok);
    assert_eq!(plan.len(), 2);
    assert_eq!(plan[0].reg_name, "outer");
    assert_eq!(plan[1].reg_name, "outer.inner");
    assert_eq!(plan[1].variables[0].name, "b");
    let code = r#"
            local outer = require("outer")
            local inner = require("outer.inner")
            result = outer.a + inner.b
        "#;
    let err = host.lua.borrow().execute(code, "<nested>");
    assert!(err.is_empty(), "Error is not empty: {}", err);
    assert_eq!(
        host.lua.borrow().get_global_var("result").get_i64().unwrap(),
        42
    );
}

#[test]
fn test_lua_execute_reports_engine_errors() {
    let host = Host::new();
    let err = host.lua.borrow().execute("this is not lua", "<bad>");
    assert!(err.starts_with("Error in LUA: "), "diagnostic was: {}", err);
    assert!(err.contains(", for file: <bad>"), "diagnostic was: {}", err);
}

/// Scenario: a host object type with get_name/set_name methods backed by
/// host-owned state, constructed and used from script code, with exactly
/// one materialization of its native representation.
#[test]
fn test_lua_host_object_roundtrip() {
    let host = Host::new();
    // The host-owned storage behind the object's pointer token.
    let people: Rc<RefCell<HashMap<u64, String>>> = Rc::new(RefCell::new(HashMap::new()));

    let set_name = {
        let people = Rc::clone(&people);
        let host_for_ptr = Rc::clone(&host);
        Rc::new(move |args: Vec<Var>| {
            // Arguments: runtime tag, object registry index, new name.
            let idx = args[1].get_i64().unwrap() as i32;
            let ptr = {
                let state = host_for_ptr.state.borrow();
                state.objects.get_object(idx).unwrap().ptr
            };
            let name = args[2].get_string().unwrap().clone();
            people.borrow_mut().insert(ptr, name);
            LuaHostResult::Plain(Var::new_null())
        })
    };
    let get_name = {
        let people = Rc::clone(&people);
        let host_for_ptr = Rc::clone(&host);
        Rc::new(move |args: Vec<Var>| {
            let idx = args[1].get_i64().unwrap() as i32;
            let ptr = {
                let state = host_for_ptr.state.borrow();
                state.objects.get_object(idx).unwrap().ptr
            };
            let name = people.borrow().get(&ptr).cloned().unwrap_or_default();
            LuaHostResult::Plain(Var::new_string(name))
        })
    };
    let set_token = host.register_native(set_name);
    let get_token = host.register_native(get_name);

    // The constructor callback: builds the host object, hands it to the
    // object registry, and materializes its native representation.
    let ctor = {
        let host = Rc::clone(&host);
        let people = Rc::clone(&people);
        Rc::new(move |args: Vec<Var>| {
            let initial = args[1].get_string().unwrap().clone();
            let ptr_token = 1000 + people.borrow().len() as u64;
            people.borrow_mut().insert(ptr_token, initial);
            let mut object = PixelObject::new(ptr_token, 1, "PersonT");
            {
                let mut state = host.state.borrow_mut();
                object_add_callback(&mut state, &mut object, "set_name", set_token, 0);
                object_add_callback(&mut state, &mut object, "get_name", get_token, 0);
            }
            let value = value_from_host_object(&mut host.state.borrow_mut(), object);
            let idx = value.get_object_idx().unwrap();
            let table = host
                .lua
                .borrow_mut()
                .create_object(&mut host.state.borrow_mut().objects, idx, &host.dispatcher())
                .expect("materialization failed");
            LuaHostResult::Native(table)
        })
    };
    let ctor_token = host.register_native(ctor);
    let ctor_idx = lookup_add_function(
        &mut host.state.borrow_mut().functions,
        "_Person",
        ctor_token,
        0,
    );
    assert!(host
        .lua
        .borrow()
        .add_callback("Person", ctor_idx, host.dispatcher()));

    let engine = host.lua.borrow().engine();
    let code = r#"
            local p = Person("Jordan")
            p:set_name("X")
            got = p:get_name()
        "#;
    let err = execute_chunk(&engine, code, "<person>");
    assert!(err.is_empty(), "Error is not empty: {}", err);
    assert_eq!(
        host.lua.borrow().get_global_var("got").get_string().unwrap().as_str(),
        "X"
    );

    // Exactly one materialization: the slot is set, and a second attempt
    // is rejected without overwriting it.
    let state = &mut host.state.borrow_mut();
    let recorded = state.objects.get_object(0).unwrap().lang_ptr;
    assert!(recorded.is_some());
    assert_eq!(state.objects.try_materialize(0, 999), Ok(false));
    assert_eq!(state.objects.get_object(0).unwrap().lang_ptr, recorded);
}

#[test]
fn test_lua_class_is_global() {
    let host = Host::new();
    let token = host.register_native(Rc::new(|args: Vec<Var>| {
        let n1 = args[1].get_i64().unwrap();
        let n2 = args[2].get_i64().unwrap();
        LuaHostResult::Plain(Var::new_i64(n1 + n2))
    }));
    let mut class = Class::new(String::from("Math"));
    let idx = class_add_callback(&mut host.state.borrow_mut(), &mut class, "add", token, 0);
    class.add_variable("x", Var::new_i64(40));
    assert_eq!(class.callbacks[0].full_name, "_Mathadd");
    assert_eq!(
        host.state
            .borrow()
            .functions
            .get_function(idx)
            .unwrap()
            .name,
        "_Mathadd"
    );
    let (ok, handed) = host.lua.borrow().add_class(&class, &host.dispatcher());
    assert!(ok);
    assert_eq!(handed.reg_name, "Math");
    assert_eq!(handed.variables[0].name, "x");
    assert_eq!(handed.callbacks[0].name, "add");
    // Class members are available globally, without any require.
    let code = "result = Math.add(Math.x, 2)";
    let err = host.lua.borrow().execute(code, "<class>");
    assert!(err.is_empty(), "Error is not empty: {}", err);
    assert_eq!(
        host.lua.borrow().get_global_var("result").get_i64().unwrap(),
        42
    );
}

/// Scenario: engine-native values are first-class. A script table handed
/// to a host callback crosses as an engine-native token, travels back to
/// script code as the same table, and can be the target of an object
/// call routed by that token.
#[test]
fn test_lua_engine_native_values() {
    let host = Host::new();
    // A callback that hands its (post-tag) argument straight back.
    let token = host.register_native(Rc::new(|args: Vec<Var>| {
        LuaHostResult::Plain(args[1].clone())
    }));
    let idx = lookup_add_function(&mut host.state.borrow_mut().functions, "_keep", token, 0);
    assert!(host.lua.borrow().add_callback("keep", idx, host.dispatcher()));

    let code = r#"
            obj = { v = 41 }
            function obj:bump()
                self.v = self.v + 1
                return self.v
            end
            same = keep(obj)
            unchanged = rawequal(obj, same)
        "#;
    let err = host.lua.borrow().execute(code, "<native>");
    assert!(err.is_empty(), "Error is not empty: {}", err);
    // The table survived the round trip through the host as itself.
    assert_eq!(
        host.lua.borrow().get_global_var("unchanged").get_bool().unwrap(),
        true
    );

    // The host reads the script object back as an engine-native token
    // and calls a method on it through the object-call path.
    let target = host.lua.borrow().get_global_var("obj");
    assert!(target.get_object_token().is_ok());
    let result = host
        .lua
        .borrow_mut()
        .object_call(
            &mut host.state.borrow_mut().objects,
            &target,
            "bump",
            &vec![],
            &host.dispatcher(),
        )
        .expect("method call on the native object failed");
    assert_eq!(result.get_i64().unwrap(), 42);

    // A token nothing stands behind is a registry miss, and a value
    // that cannot carry an object is a type mismatch.
    assert!(matches!(
        host.lua.borrow_mut().object_call(
            &mut host.state.borrow_mut().objects,
            &Var::new_object(9999),
            "bump",
            &vec![],
            &host.dispatcher(),
        ),
        Err(pixel_script::shared::error::PxError::RegistryMiss)
    ));
    assert!(matches!(
        host.lua.borrow_mut().object_call(
            &mut host.state.borrow_mut().objects,
            &Var::new_bool(true),
            "bump",
            &vec![],
            &host.dispatcher(),
        ),
        Err(pixel_script::shared::error::PxError::TypeMismatch)
    ));
}

/// Every primitive tag crosses into the engine and reads back as its
/// documented conversion: the engine-side round trip the conversion
/// contracts fix.
#[test]
fn test_lua_primitive_conversion_roundtrip() {
    let host = Host::new();
    let lua = host.lua.borrow();
    assert!(lua.add_variable("gi", &Var::new_i64(-42)));
    assert!(lua.add_variable("gu", &Var::new_u64(7)));
    assert!(lua.add_variable("gi32", &Var::new_i32(-5)));
    assert!(lua.add_variable("gb", &Var::new_bool(true)));
    assert!(lua.add_variable("gf", &Var::new_f64_bits(2.5f64.to_bits())));
    assert!(lua.add_variable("gf32", &Var::new_f32_bits(1.25f32.to_bits())));
    assert!(lua.add_variable("gs", &Var::new_string(String::from("abc"))));
    assert!(lua.add_variable("gn", &Var::new_null()));
    assert_eq!(lua.get_global_var("gi").get_i64().unwrap(), -42);
    // Unsigned and 32-bit integers travel as the engine's integers.
    assert_eq!(lua.get_global_var("gu").get_i64().unwrap(), 7);
    assert_eq!(lua.get_global_var("gi32").get_i64().unwrap(), -5);
    assert_eq!(lua.get_global_var("gb").get_bool().unwrap(), true);
    assert_eq!(lua.get_global_var("gf").get_f64_bits().unwrap(), 2.5f64.to_bits());
    // A single-precision value widens exactly to the engine's doubles.
    assert_eq!(lua.get_global_var("gf32").get_f64_bits().unwrap(), 1.25f64.to_bits());
    assert_eq!(lua.get_global_var("gs").get_string().unwrap().as_str(), "abc");
    assert!(matches!(lua.get_global_var("gn"), Var::Null));
}
