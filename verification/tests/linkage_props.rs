use wasmedge_instance::{
    Function, FuncType, Global, GlobalError, GlobalType, ImportInstance, ImportModule,
    ImportObject, Instance, InstanceError, Memory, MemType, Mutability, RefType, Store,
    StoreError, Table, TableType, ValType, WasiModule, WasmEdgeError, WasmEdgeProcessModule,
    WasmValue,
};

fn populated_instance(store: &mut Store, module_name: &str) {
    let mut import = ImportModule::create(module_name).unwrap();

    let func_ty = FuncType::create(vec![ValType::I32, ValType::I32], vec![ValType::I32]).unwrap();
    import.add_func("add", Function::create(&func_ty).unwrap());

    let table_ty = TableType::create(RefType::FuncRef, 0, u32::MAX).unwrap();
    import.add_table("table", Table::create(&table_ty).unwrap());

    let mem_ty = MemType::create(10, 20).unwrap();
    import.add_memory("mem", Memory::create(&mem_ty).unwrap());

    let global_ty = GlobalType::create(ValType::F32, Mutability::Const).unwrap();
    let global = Global::create(&global_ty, WasmValue::from_f32_bits(3.5f32.to_bits())).unwrap();
    import.add_global("global", global);

    store.register_import_object(ImportObject::Import(import)).unwrap();
}

#[test]
fn test_extern_module_scenario() {
    // create an ImportModule named "extern_module", populate it, register it,
    // and check the resulting instance reflects exactly what was added.
    let mut store = Store::create().unwrap();
    populated_instance(&mut store, "extern_module");

    let instance = store.module("extern_module").unwrap();
    assert_eq!(instance.name(), Some("extern_module".to_string()));
    assert_eq!(instance.func_len(), 1);
    assert_eq!(instance.table_len(), 1);
    assert_eq!(instance.mem_len(), 1);
    assert_eq!(instance.global_len(), 1);

    // the fetched global carries the value used at creation
    let global = instance.get_global("global").unwrap();
    assert_eq!(global.get_value().to_f32_bits(), 3.5f32.to_bits());
    let ty = global.ty().unwrap();
    assert_eq!(ty.value_type(), ValType::F32);
    assert_eq!(ty.mutability(), Mutability::Const);
}

#[test]
fn test_lookup_missing_is_kind_specific() {
    // looking up a name never added returns the kind-specific error
    let mut store = Store::create().unwrap();
    populated_instance(&mut store, "extern_module");
    let instance = store.module("extern_module").unwrap();

    let err = instance.get_func("missing").unwrap_err();
    assert_eq!(
        err,
        WasmEdgeError::Instance(InstanceError::NotFoundFunc("missing".to_string()))
    );
    let err = instance.get_table("missing").unwrap_err();
    assert_eq!(
        err,
        WasmEdgeError::Instance(InstanceError::NotFoundTable("missing".to_string()))
    );
    let err = instance.get_memory("missing").unwrap_err();
    assert_eq!(
        err,
        WasmEdgeError::Instance(InstanceError::NotFoundMem("missing".to_string()))
    );
    let err = instance.get_global("missing").unwrap_err();
    assert_eq!(
        err,
        WasmEdgeError::Instance(InstanceError::NotFoundGlobal("missing".to_string()))
    );
}

#[test]
fn test_names_absent_iff_empty() {
    // names(kind) is absent exactly when count(kind) is zero; otherwise it
    // lists count-many distinct names, each resolvable by the same kind
    let mut store = Store::create().unwrap();

    let mut import = ImportModule::create("funcs_only").unwrap();
    let func_ty = FuncType::create(vec![ValType::I32], vec![]).unwrap();
    import.add_func("one", Function::create(&func_ty).unwrap());
    import.add_func("two", Function::create(&func_ty).unwrap());
    store.register_import_object(ImportObject::Import(import)).unwrap();

    let instance = store.module("funcs_only").unwrap();
    assert_eq!(instance.func_len(), 2);
    let names = instance.func_names().unwrap();
    assert_eq!(names, ["one", "two"]);
    assert_ne!(names[0], names[1]);
    for name in &names {
        assert!(instance.get_func(name).is_ok());
    }

    // the other kinds hold nothing: absent, not an empty list
    assert_eq!(instance.table_len(), 0);
    assert!(instance.table_names().is_none());
    assert_eq!(instance.mem_len(), 0);
    assert!(instance.mem_names().is_none());
    assert_eq!(instance.global_len(), 0);
    assert!(instance.global_names().is_none());
}

#[test]
fn test_round_trip_type_signatures() {
    // each kind added to a host module comes back from the registered
    // instance with the type signature used at creation
    let mut store = Store::create().unwrap();
    populated_instance(&mut store, "rt");
    let instance = store.module("rt").unwrap();

    let func = instance.get_func("add").unwrap();
    let ty = func.ty().unwrap();
    assert_eq!(ty.params().as_slice(), [ValType::I32, ValType::I32]);
    assert_eq!(ty.results().as_slice(), [ValType::I32]);
    assert_eq!(ty.params_len(), 2);
    assert_eq!(ty.returns_len(), 1);

    let table = instance.get_table("table").unwrap();
    let ty = table.ty().unwrap();
    assert_eq!(ty.elem_ty(), RefType::FuncRef);
    assert_eq!(ty.min(), 0);
    assert_eq!(ty.max(), u32::MAX);

    let memory = instance.get_memory("mem").unwrap();
    let ty = memory.ty().unwrap();
    assert_eq!(ty.min(), 10);
    assert_eq!(ty.max(), 20);
}

#[test]
fn test_fetched_entities_are_registered_borrows() {
    // a fresh entity is independently owned; everything a lookup hands out
    // is a Registered borrow, so its destruction releases nothing
    let func_ty = FuncType::create(vec![], vec![]).unwrap();
    let fresh = Function::create(&func_ty).unwrap();
    assert!(!fresh.registered());

    let mut store = Store::create().unwrap();
    populated_instance(&mut store, "owned");
    let instance = store.module("owned").unwrap();
    assert!(instance.registered());
    assert!(instance.get_func("add").unwrap().registered());
    assert!(instance.get_table("table").unwrap().registered());
    assert!(instance.get_memory("mem").unwrap().registered());
    assert!(instance.get_global("global").unwrap().registered());
}

#[test]
fn test_wasi_exit_code_sentinel() {
    // before any entry point runs the exit code is the zero sentinel
    let wasi = WasiModule::create(None, None, None).unwrap();
    assert_eq!(wasi.exit_code(), 0);
}

#[test]
fn test_host_module_names() {
    let import = ImportModule::create("my_module").unwrap();
    assert_eq!(import.name(), "my_module");

    let wasi = WasiModule::create(None, None, None).unwrap();
    assert_eq!(wasi.name(), "wasi_snapshot_preview1");

    let process = WasmEdgeProcessModule::create(None, false).unwrap();
    assert_eq!(process.name(), "wasmedge_process");

    assert_eq!(
        ImportObject::Import(ImportModule::create("my_module").unwrap()).name(),
        "my_module"
    );
    assert_eq!(
        ImportObject::Wasi(WasiModule::create(None, None, None).unwrap()).name(),
        "wasi_snapshot_preview1"
    );
    assert_eq!(
        ImportObject::WasmEdgeProcess(WasmEdgeProcessModule::create(None, false).unwrap()).name(),
        "wasmedge_process"
    );
}

#[test]
fn test_wasi_module_registers_under_fixed_name() {
    let mut store = Store::create().unwrap();
    let mut wasi = WasiModule::create(Some(vec!["prog"]), None, None).unwrap();
    let func_ty = FuncType::create(vec![], vec![]).unwrap();
    wasi.add_func("proc_exit", Function::create(&func_ty).unwrap());
    store.register_import_object(ImportObject::Wasi(wasi)).unwrap();

    let instance = store.module("wasi_snapshot_preview1").unwrap();
    assert_eq!(instance.name(), Some("wasi_snapshot_preview1".to_string()));
    assert_eq!(instance.func_len(), 1);
    assert!(instance.get_func("proc_exit").is_ok());
}

#[test]
fn test_anonymous_instance_has_no_name() {
    // a module registered under the empty name is the anonymous instance
    let mut store = Store::create().unwrap();
    let import = ImportModule::create("").unwrap();
    store.register_import_object(ImportObject::Import(import)).unwrap();

    let instance = store.module("").unwrap();
    assert!(instance.name().is_none());
}

#[test]
fn test_inverted_limits_are_rejected() {
    let err = TableType::create(RefType::FuncRef, 21, 20).unwrap_err();
    assert_eq!(err, WasmEdgeError::TableTypeCreate);

    let err = MemType::create(3, 2).unwrap_err();
    assert_eq!(err, WasmEdgeError::MemTypeCreate);

    assert!(TableType::create(RefType::ExternRef, 20, 20).is_ok());
    assert!(MemType::create(2, 2).is_ok());
}

#[test]
fn test_global_value_must_fit_type() {
    let ty = GlobalType::create(ValType::F32, Mutability::Const).unwrap();
    let err = Global::create(&ty, WasmValue::from_i32(1)).unwrap_err();
    assert_eq!(err, WasmEdgeError::Global(GlobalError::Create));

    let ok = Global::create(&ty, WasmValue::from_f32_bits(1.0f32.to_bits()));
    assert!(ok.is_ok());
}

#[test]
fn test_store_module_not_found() {
    let store = Store::create().unwrap();
    let err = store.module("nowhere").unwrap_err();
    assert_eq!(
        err,
        WasmEdgeError::Store(StoreError::NotFoundModule("nowhere".to_string()))
    );
}

#[test]
fn test_duplicate_module_registration_rejected() {
    let mut store = Store::create().unwrap();
    populated_instance(&mut store, "twice");
    assert_eq!(store.module_len(), 1);

    let import = ImportModule::create("twice").unwrap();
    let err = store.register_import_object(ImportObject::Import(import)).unwrap_err();
    assert_eq!(
        err,
        WasmEdgeError::Store(StoreError::DuplicateModule("twice".to_string()))
    );
    // the store is unchanged
    assert_eq!(store.module_len(), 1);
}

#[test]
fn test_duplicate_export_name_rejected() {
    // two exports of one kind under one name: the backing runtime leaves the
    // outcome undefined, so the registrar refuses and the store is unchanged
    let mut store = Store::create().unwrap();
    let mut import = ImportModule::create("clash").unwrap();
    let func_ty = FuncType::create(vec![], vec![]).unwrap();
    import.add_func("f", Function::create(&func_ty).unwrap());
    import.add_func("f", Function::create(&func_ty).unwrap());

    let err = store.register_import_object(ImportObject::Import(import)).unwrap_err();
    assert_eq!(
        err,
        WasmEdgeError::Store(StoreError::DuplicateExport("clash".to_string()))
    );
    assert_eq!(store.module_len(), 0);
    assert!(store.module("clash").is_err());
}

#[test]
fn test_store_module_names() {
    let mut store = Store::create().unwrap();
    populated_instance(&mut store, "first");
    populated_instance(&mut store, "second");

    assert_eq!(store.module_len(), 2);
    let names = store.module_names().unwrap();
    assert_eq!(names, ["first", "second"]);
}

#[test]
fn test_wasm_value_accessors() {
    assert_eq!(WasmValue::from_i32(-7).ty(), ValType::I32);
    assert_eq!(WasmValue::from_i32(-7).to_i32(), -7);
    assert_eq!(WasmValue::from_i64(1 << 40).ty(), ValType::I64);
    assert_eq!(WasmValue::from_i64(1 << 40).to_i64(), 1 << 40);
    assert_eq!(WasmValue::from_f32_bits(3.5f32.to_bits()).ty(), ValType::F32);
    assert_eq!(
        f32::from_bits(WasmValue::from_f32_bits(3.5f32.to_bits()).to_f32_bits()),
        3.5f32
    );
    assert_eq!(WasmValue::from_f64_bits(2.25f64.to_bits()).ty(), ValType::F64);
    assert_eq!(
        f64::from_bits(WasmValue::from_f64_bits(2.25f64.to_bits()).to_f64_bits()),
        2.25f64
    );
    assert_eq!(WasmValue::V128(5).ty(), ValType::V128);
    assert_eq!(WasmValue::FuncRef(3).ty(), ValType::FuncRef);
    assert_eq!(WasmValue::ExternRef(9).ty(), ValType::ExternRef);
}

#[test]
fn test_instance_wrapper_types_compose() {
    // Instance is usable behind a reference from the store and by value
    // nowhere else: the store owns it; this checks the borrow's directory
    // reads are consistent across repeated lookups
    let mut store = Store::create().unwrap();
    populated_instance(&mut store, "stable");
    let a: &Instance = store.module("stable").unwrap();
    let first = a.func_names().unwrap();
    let second = a.func_names().unwrap();
    assert_eq!(first, second);
}
