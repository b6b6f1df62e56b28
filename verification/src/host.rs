//! Host modules: named, mutable containers of host-defined entities, built
//! by embedding code before they are handed to the registrar.
//!
//! All three variants accept a function, table, memory or global import
//! under a name through one capability, [`ImportInstance`], so registration
//! code treats them uniformly. Adding an entity transfers its handle into
//! the container in one step: the recorded entry is tagged `Registered`, and
//! the origin wrapper is consumed, so no two owners of the handle ever
//! coexist. Handing a module to the registrar consumes the module the same
//! way; there is no path back to an unregistered state.

use crate::dir::Dir;
use crate::entity::{Function, FuncModel, Global, GlobalModel, Memory, MemModel, Table, TableModel};
use crate::error::WasmEdgeResult;
use vstd::prelude::*;

verus! {

/// The host-side configuration a module variant carries besides its export
/// directories.
pub ghost enum HostConfig {
    /// A generic import module carries nothing further.
    Import,
    /// The system-interface module: command-line arguments, environment
    /// assignments, pre-opened directory mappings, and the exit code its
    /// entry function last reported.
    Wasi { args: Seq<Seq<char>>, envs: Seq<Seq<char>>, preopens: Seq<Seq<char>>, exit_code: u32 },
    /// The process-execution module: the command allow-list and whether
    /// confinement is bypassed entirely.
    Process { allowed_cmds: Seq<Seq<char>>, allow_all: bool },
}

/// The view of an optional list of strings handed to a module constructor:
/// absent means empty.
pub open spec fn opt_list_view(items: Option<Vec<&str>>) -> Seq<Seq<char>> {
    match items {
        Some(v) => v.deep_view(),
        None => Seq::empty(),
    }
}

/// Converts an optional list of string slices into owned strings.
fn to_string_vec(items: Option<Vec<&str>>) -> (r: Vec<String>)
    ensures
        r.deep_view() == opt_list_view(items),
{
    match items {
        None => {
            let r: Vec<String> = Vec::new();
            assert(r.deep_view() =~= opt_list_view(None));
            r
        },
        Some(v) => {
            let mut r: Vec<String> = Vec::new();
            let mut i: usize = 0;
            while i < v.len()
                invariant
                    i <= v.len(),
                    r@.len() == i,
                    forall|j: int| 0 <= j < i ==> r@[j]@ == v@[j]@,
                decreases v.len() - i,
            {
                r.push(v[i].to_owned());
                i += 1;
            }
            assert(r.deep_view() =~= v.deep_view());
            r
        },
    }
}

/// The capability every host module variant offers: accept a function,
/// table, memory or global import under a name. Each `add_*` transfers
/// ownership of the entity into the container — the recorded entry is
/// tagged `Registered` — and touches nothing else.
pub trait ImportInstance: Sized {
    /// The recorded function imports, in insertion order.
    spec fn func_entries(&self) -> Seq<(Seq<char>, FuncModel)>;

    /// The recorded table imports, in insertion order.
    spec fn table_entries(&self) -> Seq<(Seq<char>, TableModel)>;

    /// The recorded memory imports, in insertion order.
    spec fn mem_entries(&self) -> Seq<(Seq<char>, MemModel)>;

    /// The recorded global imports, in insertion order.
    spec fn global_entries(&self) -> Seq<(Seq<char>, GlobalModel)>;

    /// The name this module registers under.
    spec fn host_name(&self) -> Seq<char>;

    /// The variant-specific configuration.
    spec fn host_config(&self) -> HostConfig;

    /// Imports a host function entity under `name`.
    fn add_func(&mut self, name: &str, func: Function)
        requires
            !func@.registered,
        ensures
            final(self).func_entries() == old(self).func_entries().push(
                (name@, FuncModel { sig: func@.sig, registered: true }),
            ),
            final(self).table_entries() == old(self).table_entries(),
            final(self).mem_entries() == old(self).mem_entries(),
            final(self).global_entries() == old(self).global_entries(),
            final(self).host_name() == old(self).host_name(),
            final(self).host_config() == old(self).host_config(),
    ;

    /// Imports a table entity under `name`.
    fn add_table(&mut self, name: &str, table: Table)
        requires
            !table@.registered,
        ensures
            final(self).table_entries() == old(self).table_entries().push(
                (name@, TableModel { ty: table@.ty, registered: true }),
            ),
            final(self).func_entries() == old(self).func_entries(),
            final(self).mem_entries() == old(self).mem_entries(),
            final(self).global_entries() == old(self).global_entries(),
            final(self).host_name() == old(self).host_name(),
            final(self).host_config() == old(self).host_config(),
    ;

    /// Imports a memory entity under `name`.
    fn add_memory(&mut self, name: &str, memory: Memory)
        requires
            !memory@.registered,
        ensures
            final(self).mem_entries() == old(self).mem_entries().push(
                (name@, MemModel { ty: memory@.ty, registered: true }),
            ),
            final(self).func_entries() == old(self).func_entries(),
            final(self).table_entries() == old(self).table_entries(),
            final(self).global_entries() == old(self).global_entries(),
            final(self).host_name() == old(self).host_name(),
            final(self).host_config() == old(self).host_config(),
    ;

    /// Imports a global entity under `name`.
    fn add_global(&mut self, name: &str, global: Global)
        requires
            !global@.registered,
        ensures
            final(self).global_entries() == old(self).global_entries().push(
                (name@, GlobalModel { ty: global@.ty, value: global@.value, registered: true }),
            ),
            final(self).func_entries() == old(self).func_entries(),
            final(self).table_entries() == old(self).table_entries(),
            final(self).mem_entries() == old(self).mem_entries(),
            final(self).host_name() == old(self).host_name(),
            final(self).host_config() == old(self).host_config(),
    ;
}

/// A generic named host module: a container of host-defined entities fed
/// into Wasm modules as imports.
#[derive(Debug)]
pub struct ImportModule {
    pub(crate) name: String,
    pub(crate) funcs: Dir<Function>,
    pub(crate) tables: Dir<Table>,
    pub(crate) mems: Dir<Memory>,
    pub(crate) globals: Dir<Global>,
}

impl ImportModule {
    /// Creates an empty import module registering under `name`.
    pub fn create(name: &str) -> (r: WasmEdgeResult<Self>)
        ensures
            r matches Ok(m) && m.host_name() == name@ && m.func_entries() == Seq::<(
                Seq<char>,
                FuncModel,
            )>::empty() && m.table_entries() == Seq::<(Seq<char>, TableModel)>::empty()
                && m.mem_entries() == Seq::<(Seq<char>, MemModel)>::empty() && m.global_entries()
                == Seq::<(Seq<char>, GlobalModel)>::empty(),
    {
        Ok(
            ImportModule {
                name: name.to_owned(),
                funcs: Dir::new(),
                tables: Dir::new(),
                mems: Dir::new(),
                globals: Dir::new(),
            },
        )
    }

    /// The name this module registers under.
    pub fn name(&self) -> (r: String)
        ensures
            r@ == self.host_name(),
    {
        self.name.clone()
    }
}

impl ImportInstance for ImportModule {
    closed spec fn func_entries(&self) -> Seq<(Seq<char>, FuncModel)> {
        self.funcs.entry_seq()
    }

    closed spec fn table_entries(&self) -> Seq<(Seq<char>, TableModel)> {
        self.tables.entry_seq()
    }

    closed spec fn mem_entries(&self) -> Seq<(Seq<char>, MemModel)> {
        self.mems.entry_seq()
    }

    closed spec fn global_entries(&self) -> Seq<(Seq<char>, GlobalModel)> {
        self.globals.entry_seq()
    }

    closed spec fn host_name(&self) -> Seq<char> {
        self.name@
    }

    closed spec fn host_config(&self) -> HostConfig {
        HostConfig::Import
    }

    fn add_func(&mut self, name: &str, func: Function) {
        self.funcs.push_entry(name.to_owned(), func.into_registered());
    }

    fn add_table(&mut self, name: &str, table: Table) {
        self.tables.push_entry(name.to_owned(), table.into_registered());
    }

    fn add_memory(&mut self, name: &str, memory: Memory) {
        self.mems.push_entry(name.to_owned(), memory.into_registered());
    }

    fn add_global(&mut self, name: &str, global: Global) {
        self.globals.push_entry(name.to_owned(), global.into_registered());
    }
}

/// The system-interface host module. It registers under a fixed name and
/// carries command-line arguments, environment assignments in `KEY=VALUE`
/// form, and directory mappings in `HOST:GUEST` form.
#[derive(Debug)]
pub struct WasiModule {
    pub(crate) funcs: Dir<Function>,
    pub(crate) tables: Dir<Table>,
    pub(crate) mems: Dir<Memory>,
    pub(crate) globals: Dir<Global>,
    pub(crate) args: Vec<String>,
    pub(crate) envs: Vec<String>,
    pub(crate) preopens: Vec<String>,
    pub(crate) exit_code: u32,
}

impl WasiModule {
    /// Creates a system-interface module initialized with the given
    /// parameters; an absent list means empty. The exit code starts at the
    /// zero sentinel — it carries no meaning until the module's entry
    /// function has run.
    pub fn create(args: Option<Vec<&str>>, envs: Option<Vec<&str>>, preopens: Option<Vec<&str>>)
        -> (r: WasmEdgeResult<Self>)
        ensures
            r matches Ok(w) && w.host_config() == (HostConfig::Wasi {
                args: opt_list_view(args),
                envs: opt_list_view(envs),
                preopens: opt_list_view(preopens),
                exit_code: 0,
            }) && w.func_entries() == Seq::<(Seq<char>, FuncModel)>::empty() && w.table_entries()
                == Seq::<(Seq<char>, TableModel)>::empty() && w.mem_entries() == Seq::<(
                Seq<char>,
                MemModel,
            )>::empty() && w.global_entries() == Seq::<(Seq<char>, GlobalModel)>::empty(),
    {
        Ok(
            WasiModule {
                funcs: Dir::new(),
                tables: Dir::new(),
                mems: Dir::new(),
                globals: Dir::new(),
                args: to_string_vec(args),
                envs: to_string_vec(envs),
                preopens: to_string_vec(preopens),
                exit_code: 0,
            },
        )
    }

    /// The fixed name this module registers under.
    pub fn name(&self) -> (r: String)
        ensures
            r@ == self.host_name(),
    {
        "wasi_snapshot_preview1".to_owned()
    }

    /// Replaces the module's parameters on an existing instance; an absent
    /// list means empty. The export directories and the exit code are
    /// untouched.
    pub fn init_wasi(
        &mut self,
        args: Option<Vec<&str>>,
        envs: Option<Vec<&str>>,
        preopens: Option<Vec<&str>>,
    )
        ensures
            final(self).host_config() == (HostConfig::Wasi {
                args: opt_list_view(args),
                envs: opt_list_view(envs),
                preopens: opt_list_view(preopens),
                exit_code: old(self).spec_exit_code(),
            }),
            final(self).func_entries() == old(self).func_entries(),
            final(self).table_entries() == old(self).table_entries(),
            final(self).mem_entries() == old(self).mem_entries(),
            final(self).global_entries() == old(self).global_entries(),
    {
        self.args = to_string_vec(args);
        self.envs = to_string_vec(envs);
        self.preopens = to_string_vec(preopens);
    }

    /// The exit code the module's entry function last reported.
    pub closed spec fn spec_exit_code(&self) -> u32 {
        self.exit_code
    }

    /// Returns the exit code. Before the module's entry function has run
    /// this is the zero sentinel, not a reported exit code.
    pub fn exit_code(&self) -> (r: u32)
        ensures
            r == self.spec_exit_code(),
            self.host_config() matches HostConfig::Wasi { exit_code, .. } && exit_code == r,
    {
        self.exit_code
    }
}

impl ImportInstance for WasiModule {
    closed spec fn func_entries(&self) -> Seq<(Seq<char>, FuncModel)> {
        self.funcs.entry_seq()
    }

    closed spec fn table_entries(&self) -> Seq<(Seq<char>, TableModel)> {
        self.tables.entry_seq()
    }

    closed spec fn mem_entries(&self) -> Seq<(Seq<char>, MemModel)> {
        self.mems.entry_seq()
    }

    closed spec fn global_entries(&self) -> Seq<(Seq<char>, GlobalModel)> {
        self.globals.entry_seq()
    }

    open spec fn host_name(&self) -> Seq<char> {
        "wasi_snapshot_preview1"@
    }

    closed spec fn host_config(&self) -> HostConfig {
        HostConfig::Wasi {
            args: self.args.deep_view(),
            envs: self.envs.deep_view(),
            preopens: self.preopens.deep_view(),
            exit_code: self.exit_code,
        }
    }

    fn add_func(&mut self, name: &str, func: Function) {
        self.funcs.push_entry(name.to_owned(), func.into_registered());
    }

    fn add_table(&mut self, name: &str, table: Table) {
        self.tables.push_entry(name.to_owned(), table.into_registered());
    }

    fn add_memory(&mut self, name: &str, memory: Memory) {
        self.mems.push_entry(name.to_owned(), memory.into_registered());
    }

    fn add_global(&mut self, name: &str, global: Global) {
        self.globals.push_entry(name.to_owned(), global.into_registered());
    }
}

/// The restricted process-execution host module. It registers under a fixed
/// name and carries a command allow-list. Its availability depends on a
/// plugin the caller must have loaded; that precondition lives outside this
/// layer.
#[derive(Debug)]
pub struct WasmEdgeProcessModule {
    pub(crate) funcs: Dir<Function>,
    pub(crate) tables: Dir<Table>,
    pub(crate) mems: Dir<Memory>,
    pub(crate) globals: Dir<Global>,
    pub(crate) allowed_cmds: Vec<String>,
    pub(crate) allow_all: bool,
}

impl WasmEdgeProcessModule {
    /// Creates a process-execution module with the given allow-list; an
    /// absent list means empty. `allowed` bypasses confinement entirely.
    pub fn create(allowed_cmds: Option<Vec<&str>>, allowed: bool) -> (r: WasmEdgeResult<Self>)
        ensures
            r matches Ok(m) && m.host_config() == (HostConfig::Process {
                allowed_cmds: opt_list_view(allowed_cmds),
                allow_all: allowed,
            }) && m.func_entries() == Seq::<(Seq<char>, FuncModel)>::empty() && m.table_entries()
                == Seq::<(Seq<char>, TableModel)>::empty() && m.mem_entries() == Seq::<(
                Seq<char>,
                MemModel,
            )>::empty() && m.global_entries() == Seq::<(Seq<char>, GlobalModel)>::empty(),
    {
        Ok(
            WasmEdgeProcessModule {
                funcs: Dir::new(),
                tables: Dir::new(),
                mems: Dir::new(),
                globals: Dir::new(),
                allowed_cmds: to_string_vec(allowed_cmds),
                allow_all: allowed,
            },
        )
    }

    /// The fixed name this module registers under.
    pub fn name(&self) -> (r: String)
        ensures
            r@ == self.host_name(),
    {
        "wasmedge_process".to_owned()
    }

    /// Replaces the allow-list and the confinement bypass on an existing
    /// instance; an absent list means empty. The export directories are
    /// untouched.
    pub fn init_wasmedge_process(&mut self, allowed_cmds: Option<Vec<&str>>, allowed: bool)
        ensures
            final(self).host_config() == (HostConfig::Process {
                allowed_cmds: opt_list_view(allowed_cmds),
                allow_all: allowed,
            }),
            final(self).func_entries() == old(self).func_entries(),
            final(self).table_entries() == old(self).table_entries(),
            final(self).mem_entries() == old(self).mem_entries(),
            final(self).global_entries() == old(self).global_entries(),
    {
        self.allowed_cmds = to_string_vec(allowed_cmds);
        self.allow_all = allowed;
    }
}

impl ImportInstance for WasmEdgeProcessModule {
    closed spec fn func_entries(&self) -> Seq<(Seq<char>, FuncModel)> {
        self.funcs.entry_seq()
    }

    closed spec fn table_entries(&self) -> Seq<(Seq<char>, TableModel)> {
        self.tables.entry_seq()
    }

    closed spec fn mem_entries(&self) -> Seq<(Seq<char>, MemModel)> {
        self.mems.entry_seq()
    }

    closed spec fn global_entries(&self) -> Seq<(Seq<char>, GlobalModel)> {
        self.globals.entry_seq()
    }

    open spec fn host_name(&self) -> Seq<char> {
        "wasmedge_process"@
    }

    closed spec fn host_config(&self) -> HostConfig {
        HostConfig::Process { allowed_cmds: self.allowed_cmds.deep_view(), allow_all: self.allow_all }
    }

    fn add_func(&mut self, name: &str, func: Function) {
        self.funcs.push_entry(name.to_owned(), func.into_registered());
    }

    fn add_table(&mut self, name: &str, table: Table) {
        self.tables.push_entry(name.to_owned(), table.into_registered());
    }

    fn add_memory(&mut self, name: &str, memory: Memory) {
        self.mems.push_entry(name.to_owned(), memory.into_registered());
    }

    fn add_global(&mut self, name: &str, global: Global) {
        self.globals.push_entry(name.to_owned(), global.into_registered());
    }
}

/// The closed handoff unit passed to the registrar: one case per host
/// module kind.
#[derive(Debug)]
pub enum ImportObject {
    /// A generic import module.
    Import(ImportModule),
    /// A system-interface module.
    Wasi(WasiModule),
    /// A process-execution module.
    WasmEdgeProcess(WasmEdgeProcessModule),
}

impl ImportObject {
    /// The name the active variant registers under.
    pub open spec fn spec_name(&self) -> Seq<char> {
        match self {
            ImportObject::Import(m) => m.host_name(),
            ImportObject::Wasi(m) => m.host_name(),
            ImportObject::WasmEdgeProcess(m) => m.host_name(),
        }
    }

    /// The recorded function imports of the active variant.
    pub open spec fn spec_funcs(&self) -> Seq<(Seq<char>, FuncModel)> {
        match self {
            ImportObject::Import(m) => m.func_entries(),
            ImportObject::Wasi(m) => m.func_entries(),
            ImportObject::WasmEdgeProcess(m) => m.func_entries(),
        }
    }

    /// The recorded table imports of the active variant.
    pub open spec fn spec_tables(&self) -> Seq<(Seq<char>, TableModel)> {
        match self {
            ImportObject::Import(m) => m.table_entries(),
            ImportObject::Wasi(m) => m.table_entries(),
            ImportObject::WasmEdgeProcess(m) => m.table_entries(),
        }
    }

    /// The recorded memory imports of the active variant.
    pub open spec fn spec_mems(&self) -> Seq<(Seq<char>, MemModel)> {
        match self {
            ImportObject::Import(m) => m.mem_entries(),
            ImportObject::Wasi(m) => m.mem_entries(),
            ImportObject::WasmEdgeProcess(m) => m.mem_entries(),
        }
    }

    /// The recorded global imports of the active variant.
    pub open spec fn spec_globals(&self) -> Seq<(Seq<char>, GlobalModel)> {
        match self {
            ImportObject::Import(m) => m.global_entries(),
            ImportObject::Wasi(m) => m.global_entries(),
            ImportObject::WasmEdgeProcess(m) => m.global_entries(),
        }
    }

    /// Returns the name of the active variant.
    pub fn name(&self) -> (r: String)
        ensures
            r@ == self.spec_name(),
    {
        match self {
            ImportObject::Import(m) => m.name(),
            ImportObject::Wasi(m) => m.name(),
            ImportObject::WasmEdgeProcess(m) => m.name(),
        }
    }

    /// Takes the handoff apart for the registrar: the registration name and
    /// the four export directories.
    pub(crate) fn into_parts(self) -> (r: (String, Dir<Function>, Dir<Table>, Dir<Memory>, Dir<
        Global,
    >))
        ensures
            r.0@ == self.spec_name(),
            r.1.entry_seq() == self.spec_funcs(),
            r.2.entry_seq() == self.spec_tables(),
            r.3.entry_seq() == self.spec_mems(),
            r.4.entry_seq() == self.spec_globals(),
    {
        match self {
            ImportObject::Import(m) => (m.name, m.funcs, m.tables, m.mems, m.globals),
            ImportObject::Wasi(m) => (
                "wasi_snapshot_preview1".to_owned(),
                m.funcs,
                m.tables,
                m.mems,
                m.globals,
            ),
            ImportObject::WasmEdgeProcess(m) => (
                "wasmedge_process".to_owned(),
                m.funcs,
                m.tables,
                m.mems,
                m.globals,
            ),
        }
    }
}

} // verus!
