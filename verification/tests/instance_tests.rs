use wasmedge_instance::{
    Function, FuncType, Global, GlobalType, ImportInstance, ImportModule, ImportObject, Memory,
    MemType, Mutability, RefType, Store, Table, TableType, ValType, WasiModule, WasmValue,
    WasmEdgeProcessModule,
};

fn create_store() -> Store {
    let module_name = "extern_module";

    // create ImportModule instance
    let result = ImportModule::create(module_name);
    assert!(result.is_ok());
    let mut import = result.unwrap();

    // add host function
    let result = FuncType::create(vec![ValType::I32, ValType::I32], vec![ValType::I32]);
    assert!(result.is_ok());
    let func_ty = result.unwrap();
    let result = Function::create(&func_ty);
    assert!(result.is_ok());
    let host_func = result.unwrap();
    import.add_func("add", host_func);

    // add table
    let result = TableType::create(RefType::FuncRef, 0, u32::MAX);
    assert!(result.is_ok());
    let ty = result.unwrap();
    let result = Table::create(&ty);
    assert!(result.is_ok());
    let table = result.unwrap();
    import.add_table("table", table);

    // add memory
    let result = MemType::create(0, u32::MAX);
    assert!(result.is_ok());
    let mem_ty = result.unwrap();
    let result = Memory::create(&mem_ty);
    assert!(result.is_ok());
    let memory = result.unwrap();
    import.add_memory("mem", memory);

    // add global
    let result = GlobalType::create(ValType::F32, Mutability::Const);
    assert!(result.is_ok());
    let ty = result.unwrap();
    let result = Global::create(&ty, WasmValue::from_f32_bits(3.5f32.to_bits()));
    assert!(result.is_ok());
    let global = result.unwrap();
    import.add_global("global", global);

    let result = Store::create();
    assert!(result.is_ok());
    let mut store = result.unwrap();

    let result = store.register_import_object(ImportObject::Import(import));
    assert!(result.is_ok());

    store
}

#[test]
fn test_instance_add_instance() {
    let host_name = "extern";

    // create an import module
    let result = ImportModule::create(host_name);
    assert!(result.is_ok());
    let mut import = result.unwrap();

    // create a host function
    let result = FuncType::create(vec![ValType::ExternRef, ValType::I32], vec![ValType::I32]);
    assert!(result.is_ok());
    let func_ty = result.unwrap();
    let result = Function::create(&func_ty);
    assert!(result.is_ok());
    let host_func = result.unwrap();
    // add the host function
    import.add_func("func-add", host_func);

    // create a table
    let result = TableType::create(RefType::FuncRef, 10, 20);
    assert!(result.is_ok());
    let table_ty = result.unwrap();
    let result = Table::create(&table_ty);
    assert!(result.is_ok());
    let host_table = result.unwrap();
    // add the table
    import.add_table("table", host_table);

    // create a memory
    let result = MemType::create(1, 2);
    assert!(result.is_ok());
    let mem_ty = result.unwrap();
    let result = Memory::create(&mem_ty);
    assert!(result.is_ok());
    let host_memory = result.unwrap();
    // add the memory
    import.add_memory("memory", host_memory);

    // create a global
    let result = GlobalType::create(ValType::I32, Mutability::Const);
    assert!(result.is_ok());
    let global_ty = result.unwrap();
    let result = Global::create(&global_ty, WasmValue::from_i32(666));
    assert!(result.is_ok());
    let host_global = result.unwrap();
    // add the global
    import.add_global("global_i32", host_global);
}

#[test]
fn test_instance_wasi() {
    // create a wasi module instance
    {
        let result = WasiModule::create(None, None, None);
        assert!(result.is_ok());

        let result = WasiModule::create(
            Some(vec!["arg1", "arg2"]),
            Some(vec!["ENV1=VAL1", "ENV1=VAL2", "ENV3=VAL3"]),
            Some(vec![
                "apiTestData",
                "Makefile",
                "CMakeFiles",
                "ssvmAPICoreTests",
                ".:.",
            ]),
        );
        assert!(result.is_ok());

        let result = WasiModule::create(
            None,
            Some(vec!["ENV1=VAL1", "ENV1=VAL2", "ENV3=VAL3"]),
            Some(vec![
                "apiTestData",
                "Makefile",
                "CMakeFiles",
                "ssvmAPICoreTests",
                ".:.",
            ]),
        );
        assert!(result.is_ok());
        let wasi_import = result.unwrap();
        assert_eq!(wasi_import.exit_code(), 0);
    }

    // initialize an existing wasi module instance
    {
        let result = WasiModule::create(None, None, None);
        assert!(result.is_ok());
        let mut import_wasi = result.unwrap();

        let args = vec!["arg1", "arg2"];
        let envs = vec!["ENV1=VAL1", "ENV1=VAL2", "ENV3=VAL3"];
        let preopens = vec![
            "apiTestData",
            "Makefile",
            "CMakeFiles",
            "ssvmAPICoreTests",
            ".:.",
        ];
        import_wasi.init_wasi(Some(args), Some(envs), Some(preopens));

        assert_eq!(import_wasi.exit_code(), 0);
    }
}

#[test]
fn test_instance_wasmedge_process() {
    // create wasmedge_process
    {
        let result = WasmEdgeProcessModule::create(Some(vec!["arg1", "arg2"]), true);
        assert!(result.is_ok());

        let result = WasmEdgeProcessModule::create(None, false);
        assert!(result.is_ok());

        let result = WasmEdgeProcessModule::create(Some(vec!["arg1", "arg2"]), false);
        assert!(result.is_ok());
    }

    // initialize an existing wasmedge_process module instance
    {
        let result = WasmEdgeProcessModule::create(None, false);
        assert!(result.is_ok());
        let mut import_wasmedge_process = result.unwrap();
        import_wasmedge_process.init_wasmedge_process(Some(vec!["arg1", "arg2"]), false);
    }
}

#[test]
fn test_instance_find_xxx() {
    let store = create_store();

    // get the module named "extern_module"
    let result = store.module("extern_module");
    assert!(result.is_ok());
    let instance = result.unwrap();

    // check the name of the module
    assert!(instance.name().is_some());
    assert_eq!(instance.name().unwrap(), "extern_module");

    // get the exported function named "add"
    let result = instance.get_func("add");
    assert!(result.is_ok());
    let func = result.unwrap();

    // check the type of the function
    let result = func.ty();
    assert!(result.is_ok());
    let ty = result.unwrap();

    // check the parameter types
    assert_eq!(ty.params().as_slice(), [ValType::I32, ValType::I32]);

    // check the return types
    assert_eq!(ty.results().as_slice(), [ValType::I32]);

    // get the exported table named "table"
    let result = instance.get_table("table");
    assert!(result.is_ok());
    let table = result.unwrap();

    // check the type of the table
    let result = table.ty();
    assert!(result.is_ok());
    let ty = result.unwrap();
    assert_eq!(ty.elem_ty(), RefType::FuncRef);
    assert_eq!(ty.min(), 0);
    assert_eq!(ty.max(), u32::MAX);

    // get the exported memory named "mem"
    let result = instance.get_memory("mem");
    assert!(result.is_ok());
    let memory = result.unwrap();

    // check the type of the memory
    let result = memory.ty();
    assert!(result.is_ok());
    let ty = result.unwrap();
    assert_eq!(ty.min(), 0);
    assert_eq!(ty.max(), u32::MAX);

    // get the exported global named "global"
    let result = instance.get_global("global");
    assert!(result.is_ok());
    let global = result.unwrap();

    // check the type of the global
    let result = global.ty();
    assert!(result.is_ok());
    let global_ty = result.unwrap();
    assert_eq!(global_ty.value_type(), ValType::F32);
    assert_eq!(global_ty.mutability(), Mutability::Const);
}

#[test]
fn test_instance_find_names() {
    let store = create_store();

    // get the module named "extern_module"
    let result = store.module("extern_module");
    assert!(result.is_ok());
    let instance = result.unwrap();

    // check the name of the module
    assert!(instance.name().is_some());
    assert_eq!(instance.name().unwrap(), "extern_module");

    assert_eq!(instance.func_len(), 1);
    let result = instance.func_names();
    assert!(result.is_some());
    assert_eq!(result.unwrap(), ["add"]);

    assert_eq!(instance.table_len(), 1);
    let result = instance.table_names();
    assert!(result.is_some());
    assert_eq!(result.unwrap(), ["table"]);

    assert_eq!(instance.mem_len(), 1);
    let result = instance.mem_names();
    assert!(result.is_some());
    assert_eq!(result.unwrap(), ["mem"]);

    assert_eq!(instance.global_len(), 1);
    let result = instance.global_names();
    assert!(result.is_some());
    assert_eq!(result.unwrap(), ["global"]);
}

#[test]
fn test_instance_get() {
    let module_name = "extern_module";

    let result = Store::create();
    assert!(result.is_ok());
    let mut store = result.unwrap();

    // check the length of registered module list in store before instantiation
    assert_eq!(store.module_len(), 0);
    assert!(store.module_names().is_none());

    // create ImportObject instance
    let result = ImportModule::create(module_name);
    assert!(result.is_ok());
    let mut import = result.unwrap();

    // add host function
    let result = FuncType::create(vec![ValType::I32, ValType::I32], vec![ValType::I32]);
    assert!(result.is_ok());
    let func_ty = result.unwrap();
    let result = Function::create(&func_ty);
    assert!(result.is_ok());
    let host_func = result.unwrap();
    import.add_func("add", host_func);

    // add table
    let result = TableType::create(RefType::FuncRef, 0, u32::MAX);
    assert!(result.is_ok());
    let ty = result.unwrap();
    let result = Table::create(&ty);
    assert!(result.is_ok());
    let table = result.unwrap();
    import.add_table("table", table);

    // add memory
    let memory = {
        let result = MemType::create(10, 20);
        assert!(result.is_ok());
        let mem_ty = result.unwrap();
        let result = Memory::create(&mem_ty);
        assert!(result.is_ok());
        result.unwrap()
    };
    import.add_memory("mem", memory);

    // add globals
    let result = GlobalType::create(ValType::F32, Mutability::Const);
    assert!(result.is_ok());
    let ty = result.unwrap();
    let result = Global::create(&ty, WasmValue::from_f32_bits(3.5f32.to_bits()));
    assert!(result.is_ok());
    let global = result.unwrap();
    import.add_global("global", global);

    let import = ImportObject::Import(import);
    let result = store.register_import_object(import);
    assert!(result.is_ok());

    let result = store.module(module_name);
    assert!(result.is_ok());
    let instance = result.unwrap();

    // get the exported memory
    let result = instance.get_memory("mem");
    assert!(result.is_ok());
    let memory = result.unwrap();
    let result = memory.ty();
    assert!(result.is_ok());
    let ty = result.unwrap();
    assert_eq!(ty.min(), 10);
    assert_eq!(ty.max(), 20);
}
