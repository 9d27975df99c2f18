use pixel_script::shared::error::PxError;
use pixel_script::shared::func::{
    clear_function_lookup, lookup_add_function, FunctionLookup,
};
use pixel_script::shared::module::{mangle_name, Module};
use pixel_script::shared::object::{
    clear_object_lookup, get_object, lookup_add_object, ObjectLookup, PixelObject,
};
use pixel_script::shared::text::{bool_to_string, i64_to_string, u64_to_string};
use pixel_script::shared::var::{free_value, Var, VarType};
use pixel_script::shared::widen::{f32_bits_to_f64_bits, f64_bits_to_i64, f64_bits_to_u64};
use pixel_script::shared::{PixelScriptRuntime, PixelState};
use pixel_script::{
    object_call_route, validate_exec_request, var_get_bool, var_get_host_ptr, var_get_int,
    var_get_float_bits, var_get_object_idx, var_get_uint, var_tostring_local, version,
    with_runtime_tag,
    module_add_callback, object_add_callback, value_from_host_object, tostring_method,
    ToStringLocal,
};

#[test]
fn test_version() {
    assert_eq!(version(), 0x0001_0000);
}

#[test]
fn test_primitive_round_trips() {
    assert_eq!(Var::new_bool(true).get_bool().unwrap(), true);
    assert_eq!(Var::new_i32(-7).get_i32().unwrap(), -7);
    assert_eq!(Var::new_i64(1234567890123).get_i64().unwrap(), 1234567890123);
    assert_eq!(Var::new_u32(7).get_u32().unwrap(), 7);
    assert_eq!(Var::new_u64(u64::MAX).get_u64().unwrap(), u64::MAX);
    assert_eq!(
        Var::new_f32_bits(1.5f32.to_bits()).get_f32_bits().unwrap(),
        1.5f32.to_bits()
    );
    assert_eq!(
        Var::new_f64_bits((-2.25f64).to_bits()).get_f64_bits().unwrap(),
        (-2.25f64).to_bits()
    );
    let hello = Var::new_string(String::from("hello"));
    assert_eq!(hello.get_string().unwrap().as_str(), "hello");
    assert_eq!(Var::new_object(42).get_object_token().unwrap(), 42);
    assert_eq!(Var::new_host_object(5).get_object_idx().unwrap(), 5);
    assert!(matches!(Var::new_null().get_tag(), VarType::Null));
}

#[test]
fn test_wrong_accessor_is_type_mismatch() {
    assert!(matches!(
        Var::new_i64(3).get_bool(),
        Err(PxError::TypeMismatch)
    ));
    assert!(matches!(
        Var::new_string(String::from("x")).get_i64(),
        Err(PxError::TypeMismatch)
    ));
    // Strings do not widen through the numeric accessors.
    assert_eq!(var_get_int(&Var::new_string(String::from("9"))), -1);
    assert_eq!(var_get_uint(&Var::new_string(String::from("9"))), 0);
}

#[test]
fn test_numeric_widening() {
    assert_eq!(var_get_int(&Var::new_bool(true)), 1);
    assert_eq!(var_get_int(&Var::new_bool(false)), 0);
    assert_eq!(var_get_int(&Var::new_u64(7)), 7);
    assert_eq!(var_get_int(&Var::new_f64_bits(3.9f64.to_bits())), 3);
    assert_eq!(var_get_int(&Var::new_f64_bits((-3.9f64).to_bits())), -3);
    assert_eq!(var_get_int(&Var::new_f64_bits(f64::NAN.to_bits())), 0);
    assert_eq!(
        var_get_int(&Var::new_f64_bits(f64::INFINITY.to_bits())),
        i64::MAX
    );
    assert_eq!(var_get_uint(&Var::new_f64_bits((-0.5f64).to_bits())), 0);
    assert_eq!(var_get_uint(&Var::new_f64_bits(2.0f64.to_bits())), 2);
    assert_eq!(var_get_uint(&Var::new_i64(-1)), u64::MAX);
    assert_eq!(var_get_bool(&Var::new_bool(true)), true);
    assert_eq!(var_get_bool(&Var::new_i64(1)), false);
}

#[test]
fn test_float_truncation_matches_cast() {
    let samples: [f64; 12] = [
        0.0, -0.0, 0.5, -0.999, 1.0, 123456.789, -987654.321, 1e18, -1e18, 1e300, -1e300,
        f64::NAN,
    ];
    for v in samples {
        assert_eq!(f64_bits_to_i64(v.to_bits()), v as i64, "i64 of {v}");
        assert_eq!(f64_bits_to_u64(v.to_bits()), v as u64, "u64 of {v}");
    }
    assert_eq!(f64_bits_to_i64(f64::INFINITY.to_bits()), i64::MAX);
    assert_eq!(f64_bits_to_i64(f64::NEG_INFINITY.to_bits()), i64::MIN);
    assert_eq!(f64_bits_to_u64(f64::INFINITY.to_bits()), u64::MAX);
    assert_eq!(f64_bits_to_i64((-9.223372036854776e18f64).to_bits()), i64::MIN);
}

#[test]
fn test_f32_widening_matches_cast() {
    let samples: [f32; 10] = [
        0.0,
        -0.0,
        1.5,
        -2.75,
        f32::MIN_POSITIVE,
        1.0e-40, // subnormal
        -1.0e-45,
        f32::MAX,
        f32::INFINITY,
        f32::NEG_INFINITY,
    ];
    for v in samples {
        assert_eq!(
            f32_bits_to_f64_bits(v.to_bits()),
            (v as f64).to_bits(),
            "widening {v}"
        );
    }
}

#[test]
fn test_integer_to_float_widening_matches_cast() {
    let ints: [i64; 12] = [
        0,
        1,
        -1,
        42,
        -123456789,
        i64::MAX,
        i64::MIN,
        9007199254740993,     // rounds down to even at the 53-bit edge
        9007199254740995,     // rounds up to even
        -9007199254740993,
        (1 << 62) + 4097,
        -((1 << 62) + 4095),
    ];
    for v in ints {
        assert_eq!(
            var_get_float_bits(&Var::new_i64(v)),
            (v as f64).to_bits(),
            "widening {v}"
        );
    }
    let uints: [u64; 6] = [0, 1, u64::MAX, u64::MAX - 1023, 1 << 63, (1 << 63) + 1025];
    for v in uints {
        assert_eq!(
            var_get_float_bits(&Var::new_u64(v)),
            (v as f64).to_bits(),
            "widening {v}"
        );
    }
    assert_eq!(var_get_float_bits(&Var::new_bool(true)), 1.0f64.to_bits());
    assert_eq!(var_get_float_bits(&Var::new_bool(false)), 0.0f64.to_bits());
    assert_eq!(
        var_get_float_bits(&Var::new_f32_bits(2.5f32.to_bits())),
        2.5f64.to_bits()
    );
    assert_eq!(
        var_get_float_bits(&Var::new_i32(-7)),
        (-7.0f64).to_bits()
    );
}

#[test]
fn test_free_value_is_idempotent() {
    let mut v = Var::new_string(String::from("owned"));
    free_value(&mut v);
    assert!(matches!(v, Var::Null));
    // A second release is a no-op on the already-Null slot.
    free_value(&mut v);
    assert!(matches!(v, Var::Null));
}

#[test]
fn test_registry_indices_increase_and_clear_misses() {
    let mut lookup = FunctionLookup::new();
    let a = lookup.add_function("a", 1, 0);
    let b = lookup.add_function("b", 2, 0);
    let c = lookup_add_function(&mut lookup, "c", 3, 0);
    assert_eq!((a, b, c), (0, 1, 2));
    assert_eq!(lookup.get_function(1).unwrap().name, "b");
    assert_eq!(lookup.len(), 3);
    clear_function_lookup(&mut lookup);
    assert!(lookup.get_function(0).is_none());
    assert!(lookup.get_function(1).is_none());
    assert!(lookup.get_function(2).is_none());
    // The index space continues where it left off: nothing is reused.
    let d = lookup.add_function("d", 4, 0);
    assert_eq!(d, 3);
    assert!(lookup.get_function(2).is_none());
    assert_eq!(lookup.get_function(3).unwrap().name, "d");
}

#[test]
fn test_object_registry_and_materialization() {
    let mut objects = ObjectLookup::new();
    let mut person = PixelObject::new(77, 1, "PersonT");
    person.add_callback("get_name", "_PersonTget_name", 4);
    let idx = lookup_add_object(&mut objects, person);
    assert_eq!(idx, 0);
    assert_eq!(get_object(&objects, idx).unwrap().class_name, "PersonT");
    assert!(get_object(&objects, idx).unwrap().lang_ptr.is_none());
    // First materialization is accepted.
    assert_eq!(objects.try_materialize(idx, 500), Ok(true));
    assert_eq!(get_object(&objects, idx).unwrap().lang_ptr, Some(500));
    // The second is rejected and the original pointer preserved.
    assert_eq!(objects.try_materialize(idx, 900), Ok(false));
    assert_eq!(get_object(&objects, idx).unwrap().lang_ptr, Some(500));
    // A cleared registry misses every index.
    clear_object_lookup(&mut objects);
    assert!(get_object(&objects, idx).is_none());
    assert!(objects.try_materialize(idx, 1).is_err());
}

#[test]
fn test_lifecycle_is_one_way() {
    let mut state = PixelState::new();
    // Scenario: a boundary operation before initialize is not allowed;
    // the boundary layer turns this into a fatal abort.
    assert!(!state.is_ready());
    assert!(state.initialize());
    assert!(state.is_ready());
    // Initializing twice is rejected.
    assert!(!state.initialize());
    assert!(state.finalize());
    assert!(!state.is_ready());
    // Finalize is terminal: neither transition is ever accepted again.
    assert!(!state.initialize());
    assert!(!state.finalize());
}

#[test]
fn test_finalize_clears_registries() {
    let mut state = PixelState::new();
    assert!(state.initialize());
    let f = lookup_add_function(&mut state.functions, "_cb", 9, 0);
    let o = lookup_add_object(&mut state.objects, PixelObject::new(1, 2, "T"));
    assert!(state.functions.get_function(f).is_some());
    assert!(state.objects.get_object(o).is_some());
    assert!(state.finalize());
    assert!(state.functions.get_function(f).is_none());
    assert!(state.objects.get_object(o).is_none());
}

#[test]
fn test_mangle_name() {
    assert_eq!(mangle_name("cmath", "add"), "_cmathadd");
    assert_eq!(mangle_name("", "f"), "_f");
}

#[test]
fn test_module_building() {
    let mut state = PixelState::new();
    assert!(state.initialize());
    let mut module = Module::new(String::from("cmath"));
    let idx = module_add_callback(&mut state, &mut module, "add", 11, 0);
    module.add_variable("n1", Var::new_i64(1));
    module.add_variable("n2", Var::new_i64(2));
    let mut child = Module::new(String::from("inner"));
    child.add_variable("x", Var::new_bool(true));
    module.add_module(child);
    assert_eq!(module.callbacks.len(), 1);
    assert_eq!(module.callbacks[0].name, "add");
    assert_eq!(module.callbacks[0].full_name, "_cmathadd");
    assert_eq!(module.callbacks[0].idx, idx);
    assert_eq!(state.functions.get_function(idx).unwrap().name, "_cmathadd");
    assert_eq!(state.functions.get_function(idx).unwrap().func, 11);
    assert_eq!(module.variables.len(), 2);
    assert_eq!(module.modules.len(), 1);
    assert_eq!(module.modules[0].name, "inner");
}

#[test]
fn test_object_building_and_host_ptr() {
    let mut state = PixelState::new();
    assert!(state.initialize());
    let mut obj = PixelObject::new(424242, 7, "PersonT");
    let m = object_add_callback(&mut state, &mut obj, "set_name", 21, 3);
    assert_eq!(obj.callbacks[0].full_name, "_PersonTset_name");
    assert_eq!(state.functions.get_function(m).unwrap().name, "_PersonTset_name");
    assert_eq!(state.functions.get_function(m).unwrap().opaque, 3);
    let v = value_from_host_object(&mut state, obj);
    assert_eq!(var_get_object_idx(&v), 0);
    assert_eq!(var_get_host_ptr(&state.objects, &v), Some(424242));
    assert_eq!(var_get_host_ptr(&state.objects, &Var::new_i64(0)), None);
}

#[test]
fn test_object_call_route() {
    let lua_tag = Var::new_i64(PixelScriptRuntime::Lua.as_i64());
    let py_tag = Var::new_i64(PixelScriptRuntime::Python.as_i64());
    let target = Var::new_host_object(0);
    assert_eq!(
        object_call_route(&lua_tag, &target).unwrap(),
        PixelScriptRuntime::Lua
    );
    assert_eq!(
        object_call_route(&py_tag, &Var::new_u64(9)).unwrap(),
        PixelScriptRuntime::Python
    );
    // A tag that is no 64-bit integer value is a type mismatch.
    assert!(matches!(
        object_call_route(&Var::new_bool(true), &target),
        Err(PxError::TypeMismatch)
    ));
    // A tag naming no engine, or an engine not compiled in, is unknown.
    assert!(matches!(
        object_call_route(&Var::new_i64(99), &target),
        Err(PxError::UnknownRuntimeTag)
    ));
    assert!(matches!(
        object_call_route(&Var::new_i64(PixelScriptRuntime::JavaScript.as_i64()), &target),
        Err(PxError::UnknownRuntimeTag)
    ));
    // A target that cannot carry an object is a type mismatch.
    assert!(matches!(
        object_call_route(&lua_tag, &Var::new_bool(false)),
        Err(PxError::TypeMismatch)
    ));
}

#[test]
fn test_tostring() {
    assert_eq!(i64_to_string(-90210), "-90210");
    assert_eq!(i64_to_string(0), "0");
    assert_eq!(i64_to_string(i64::MIN), "-9223372036854775808");
    assert_eq!(u64_to_string(u64::MAX), "18446744073709551615");
    assert_eq!(bool_to_string(true), "true");
    match var_tostring_local(&Var::new_i64(42)) {
        ToStringLocal::Done(v) => assert_eq!(v.get_string().unwrap().as_str(), "42"),
        _ => panic!("expected a rendered string"),
    }
    match var_tostring_local(&Var::new_string(String::from("as-is"))) {
        ToStringLocal::Done(v) => assert_eq!(v.get_string().unwrap().as_str(), "as-is"),
        _ => panic!("expected a copied string"),
    }
    match var_tostring_local(&Var::new_f64_bits(1.5f64.to_bits())) {
        ToStringLocal::NeedsFloat64(b) => assert_eq!(b, 1.5f64.to_bits()),
        _ => panic!("expected the float handed back"),
    }
    assert!(matches!(
        var_tostring_local(&Var::new_object(1)),
        ToStringLocal::NeedsEngine
    ));
    assert_eq!(tostring_method(PixelScriptRuntime::Lua), Some("tostring"));
    assert_eq!(tostring_method(PixelScriptRuntime::Python), Some("str"));
    assert_eq!(tostring_method(PixelScriptRuntime::Easyjs), None);
}

#[test]
fn test_validate_exec_request() {
    assert_eq!(
        validate_exec_request("", "<test>"),
        Some(String::from("Code is empty"))
    );
    assert_eq!(
        validate_exec_request("print(1)", ""),
        Some(String::from("File name is empty"))
    );
    assert_eq!(validate_exec_request("print(1)", "<test>"), None);
}

#[test]
fn test_with_runtime_tag() {
    let args = vec![Var::new_i64(5), Var::new_bool(true)];
    let tagged = with_runtime_tag(PixelScriptRuntime::Python, args);
    assert_eq!(tagged.len(), 3);
    assert_eq!(tagged[0].get_i64().unwrap(), PixelScriptRuntime::Python.as_i64());
    assert_eq!(tagged[1].get_i64().unwrap(), 5);
    assert_eq!(tagged[2].get_bool().unwrap(), true);
}

#[test]
fn test_runtime_tag_decode() {
    for rt in [
        PixelScriptRuntime::Lua,
        PixelScriptRuntime::Python,
        PixelScriptRuntime::JavaScript,
        PixelScriptRuntime::Easyjs,
        PixelScriptRuntime::RustPython,
        PixelScriptRuntime::LuaJit,
    ] {
        assert_eq!(PixelScriptRuntime::from_i64(rt.as_i64()), Some(rt));
    }
    assert_eq!(PixelScriptRuntime::from_i64(-1), None);
    assert_eq!(PixelScriptRuntime::from_i64(6), None);
    assert!(PixelScriptRuntime::Lua.compiled_in());
    assert!(PixelScriptRuntime::Python.compiled_in());
    assert!(!PixelScriptRuntime::RustPython.compiled_in());
}
