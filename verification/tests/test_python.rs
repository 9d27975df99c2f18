use pixel_script::python::{
    add_new_name_idx_fn, bridge_def_source, bridge_route, class_bridge_source,
    get_fn_idx_from_name, instantiation_source, make_private, module_load_plan,
    module_source_path, CreateObjectPlan, ModuleLoadPlan, PythonScripting,
};
use pixel_script::shared::func::lookup_add_function;
use pixel_script::shared::module::Module;
use pixel_script::shared::object::PixelObject;
use pixel_script::shared::var::Var;
use pixel_script::shared::PixelState;
use pixel_script::{module_add_callback, object_add_callback};

#[test]
fn test_python_test_add_variable() {
    let mut py = PythonScripting::new();
    py.add_variable("name", &Var::new_string(String::from("Jordan")));
    assert_eq!(py.globals.len(), 1);
    assert_eq!(py.globals[0].name, "name");
    assert_eq!(
        py.globals[0].var.get_string().unwrap().as_str(),
        "Jordan"
    );
}

#[test]
fn test_python_test_add_callback() {
    let mut state = PixelState::new();
    assert!(state.initialize());
    let mut py = PythonScripting::new();
    let idx = lookup_add_function(&mut state.functions, "println", 1, 0);
    let (private_name, bridge) = py.add_callback("println", idx);
    assert_eq!(private_name, "_pxs_println");
    assert_eq!(
        bridge,
        "\ndef println(*args):\n    return _pxs_println('println', *args)\n"
    );
    assert_eq!(get_fn_idx_from_name(&py, "println"), Some(idx));
}

#[test]
fn test_python_test_add_module() {
    let mut state = PixelState::new();
    assert!(state.initialize());
    let mut py = PythonScripting::new();

    let mut module = Module::new(String::from("cmath"));
    let m_add = lookup_add_function(&mut state.functions, "m_add", 2, 0);
    module.add_callback("add", "", m_add);
    module.add_variable("n1", Var::new_i64(1));
    module.add_variable("n2", Var::new_i64(2));

    py.add_module(module);
    assert_eq!(py.modules.len(), 1);
    assert_eq!(py.modules[0].name, "cmath");
    assert_eq!(py.modules[0].callbacks[0].name, "add");
    assert_eq!(py.modules[0].callbacks[0].idx, m_add);
    assert_eq!(py.modules[0].variables[0].var.get_i64().unwrap(), 1);
    assert_eq!(py.modules[0].variables[1].var.get_i64().unwrap(), 2);
}

#[test]
fn test_add_object() {
    let mut state = PixelState::new();
    assert!(state.initialize());
    let mut py = PythonScripting::new();
    let person_idx = lookup_add_function(&mut state.functions, "Person", 3, 0);
    let (private_name, _bridge) = py.add_callback("Person", person_idx);
    assert_eq!(private_name, "_pxs_Person");
    assert_eq!(get_fn_idx_from_name(&py, "Person"), Some(person_idx));
}

#[test]
fn test_python_name_table_newest_wins() {
    let mut py = PythonScripting::new();
    add_new_name_idx_fn(&mut py, String::from("f"), 1);
    add_new_name_idx_fn(&mut py, String::from("g"), 2);
    add_new_name_idx_fn(&mut py, String::from("f"), 7);
    assert_eq!(get_fn_idx_from_name(&py, "f"), Some(7));
    assert_eq!(get_fn_idx_from_name(&py, "g"), Some(2));
    assert_eq!(get_fn_idx_from_name(&py, "h"), None);
}

#[test]
fn test_python_class_bridge_source() {
    let mut state = PixelState::new();
    assert!(state.initialize());
    let mut object = PixelObject::new(5, 1, "Person");
    object_add_callback(&mut state, &mut object, "get_name", 10, 0);
    object_add_callback(&mut state, &mut object, "set_name", 11, 0);
    let src = class_bridge_source("Person", &object.callbacks);
    let expected = "\nclass _Person:\n    def __init__(self, ptr):\n        self.ptr = ptr\n\
        \n    def get_name(self, *args):\n        return _pxs_get_name('get_name', self.ptr, *args)\n\
        \n    def set_name(self, *args):\n        return _pxs_set_name('set_name', self.ptr, *args)\n\n";
    assert_eq!(src, expected);
    assert_eq!(instantiation_source("Person", 5), "_Person(5)");
    assert_eq!(make_private("get_name"), "_pxs_get_name");
}

#[test]
fn test_python_object_definition_cache() {
    let mut py = PythonScripting::new();
    assert!(!py.is_object_defined("Person"));
    py.add_new_defined_object("Person");
    assert!(py.is_object_defined("Person"));
    assert!(!py.is_object_defined("Dog"));
}

#[test]
fn test_python_module_loader_plan() {
    assert_eq!(module_source_path("a.b.c"), "a/b/c.py");
    assert_eq!(module_source_path("top"), "top.py");
    assert!(matches!(
        module_load_plan("a.b", true, "whatever"),
        ModuleLoadPlan::AlreadyLoaded
    ));
    assert!(matches!(
        module_load_plan("a.b", false, ""),
        ModuleLoadPlan::UseBuiltin
    ));
    match module_load_plan("a.b", false, "x = 1") {
        ModuleLoadPlan::DefineVirtual { file } => assert_eq!(file, "v://a/b.py"),
        _ => panic!("expected a virtual module definition"),
    }
}

#[test]
fn test_python_bridge_def_source_for_module_callback() {
    let mut state = PixelState::new();
    assert!(state.initialize());
    let mut module = Module::new(String::from("cmath"));
    let idx = module_add_callback(&mut state, &mut module, "add", 1, 0);
    assert_eq!(module.callbacks[0].full_name, "_cmathadd");
    let bridge = bridge_def_source("add");
    assert_eq!(bridge, "\ndef add(*args):\n    return _pxs_add('add', *args)\n");
    assert_eq!(state.functions.get_function(idx).unwrap().name, "_cmathadd");
}

#[test]
fn test_python_bridge_route() {
    let mut py = PythonScripting::new();
    add_new_name_idx_fn(&mut py, String::from("add"), 4);
    assert_eq!(bridge_route(&py, 3, "add"), Ok(4));
    assert_eq!(
        bridge_route(&py, 0, "add"),
        Err(String::from("Python: argc < 1"))
    );
    assert_eq!(
        bridge_route(&py, 2, "missing"),
        Err(String::from("Python: fn_idx is empty."))
    );
}

#[test]
fn test_python_create_object_plan() {
    let mut state = PixelState::new();
    assert!(state.initialize());
    let mut py = PythonScripting::new();
    let mut object = PixelObject::new(9, 1, "Person");
    object_add_callback(&mut state, &mut object, "get_name", 10, 0);

    // The first crossing defines the class bridge and registers its
    // methods in the name table.
    match py.create_object("Person", &object.callbacks, 0) {
        CreateObjectPlan::DefineThenInstantiate {
            class_src,
            define_chunk,
            expr,
            chunk,
        } => {
            assert!(class_src.starts_with("\nclass _Person:"));
            assert!(class_src.contains("def get_name(self, *args):"));
            assert_eq!(define_chunk, "<first_Person>");
            assert_eq!(expr, "_Person(0)");
            assert_eq!(chunk, "<create_Person>");
        }
        _ => panic!("expected the defining plan on first crossing"),
    }
    assert_eq!(get_fn_idx_from_name(&py, "get_name"), Some(object.callbacks[0].idx));

    // The second crossing only instantiates.
    match py.create_object("Person", &object.callbacks, 1) {
        CreateObjectPlan::Instantiate { expr, chunk } => {
            assert_eq!(expr, "_Person(1)");
            assert_eq!(chunk, "<create_Person>");
        }
        _ => panic!("expected the instantiating plan on second crossing"),
    }
}
