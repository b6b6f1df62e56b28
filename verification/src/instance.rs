//! An instantiated module's export directory.
//!
//! An [`Instance`] is produced by the registrar, either from a loaded module
//! or from a registered host module. It is read-only: four independent
//! name-keyed directories — functions, tables, memories and globals — each
//! with a count, a name enumeration and a by-name lookup. Every entity a
//! lookup hands out is a borrow tagged `Registered`: destroying it releases
//! nothing, since the instance's directory owns the underlying object.

use crate::dir::{Dir, lookup_in, lemma_lookup_present, names_distinct, names_of};
use crate::entity::{Function, FuncModel, Global, GlobalModel, Memory, MemModel, Table, TableModel};
use crate::error::{InstanceError, WasmEdgeError, WasmEdgeResult};
use vstd::prelude::*;

verus! {

/// The model of an instance: its optional name and its four export
/// directories, in enumeration order.
pub ghost struct InstanceModel {
    pub name: Option<Seq<char>>,
    pub funcs: Seq<(Seq<char>, FuncModel)>,
    pub tables: Seq<(Seq<char>, TableModel)>,
    pub mems: Seq<(Seq<char>, MemModel)>,
    pub globals: Seq<(Seq<char>, GlobalModel)>,
    pub registered: bool,
}

impl InstanceModel {
    /// The name this instance is registered under in a store; the anonymous
    /// (active) instance registers under the empty name.
    pub open spec fn key(&self) -> Seq<char> {
        match self.name {
            Some(n) => n,
            None => Seq::empty(),
        }
    }

    /// A well-formed instance: a present name is non-empty, and within each
    /// kind the export names are distinct. The registrar only ever produces
    /// well-formed instances.
    pub open spec fn wf(&self) -> bool {
        &&& (self.name matches Some(n) ==> n.len() > 0)
        &&& names_distinct(self.funcs)
        &&& names_distinct(self.tables)
        &&& names_distinct(self.mems)
        &&& names_distinct(self.globals)
    }
}

/// An instantiated module: a named or anonymous directory of exported
/// entities.
#[derive(Debug)]
pub struct Instance {
    name: Option<String>,
    funcs: Dir<Function>,
    tables: Dir<Table>,
    mems: Dir<Memory>,
    globals: Dir<Global>,
    registered: bool,
}

impl View for Instance {
    type V = InstanceModel;

    closed spec fn view(&self) -> InstanceModel {
        InstanceModel {
            name: match self.name {
                Some(ref s) => Some(s@),
                None => None,
            },
            funcs: self.funcs.entry_seq(),
            tables: self.tables.entry_seq(),
            mems: self.mems.entry_seq(),
            globals: self.globals.entry_seq(),
            registered: self.registered,
        }
    }
}

impl Instance {
    /// Builds a registered instance for the registrar, from a registration
    /// name and the four directories of a host module.
    pub(crate) fn assemble(
        name: Option<String>,
        funcs: Dir<Function>,
        tables: Dir<Table>,
        mems: Dir<Memory>,
        globals: Dir<Global>,
    ) -> (r: Instance)
        ensures
            r@ == (InstanceModel {
                name: match name {
                    Some(s) => Some(s@),
                    None => None,
                },
                funcs: funcs.entry_seq(),
                tables: tables.entry_seq(),
                mems: mems.entry_seq(),
                globals: globals.entry_seq(),
                registered: true,
            }),
    {
        Instance { name, funcs, tables, mems, globals, registered: true }
    }

    /// Whether this wrapper borrows an instance a store owns; a wrapper that
    /// is not registered owns the underlying instance itself.
    pub fn registered(&self) -> (b: bool)
        ensures
            b == self@.registered,
    {
        self.registered
    }

    /// Whether this instance is registered under `key` — the empty key
    /// stands for the anonymous instance.
    pub(crate) fn matches_key(&self, key: &String) -> (b: bool)
        ensures
            b == (self@.key() == key@),
    {
        match &self.name {
            Some(s) => *s == *key,
            None => {
                let b = key.as_str().is_empty();
                proof {
                    if key@.len() == 0 {
                        assert(key@ =~= Seq::<char>::empty());
                    }
                }
                b
            },
        }
    }

    /// The name this instance is registered under, as the registrar stores
    /// it.
    pub(crate) fn key_string(&self) -> (r: String)
        ensures
            r@ == self@.key(),
    {
        match &self.name {
            Some(s) => s.clone(),
            None => {
                let r = String::new();
                proof {
                    assert(r@ =~= Seq::<char>::empty());
                }
                r
            },
        }
    }

    /// Returns the name of this instance, or `None` for the anonymous
    /// (active) instance.
    pub fn name(&self) -> (r: Option<String>)
        ensures
            r is Some <==> self@.name is Some,
            r matches Some(s) ==> self@.name matches Some(n) && s@ == n,
    {
        match &self.name {
            Some(s) => Some(s.clone()),
            None => None,
        }
    }

    /// Returns the exported function under `name`, as a `Registered` borrow,
    /// or the function-specific not-found error exactly when no function
    /// export carries the name.
    pub fn get_func(&self, name: &str) -> (r: WasmEdgeResult<Function>)
        ensures
            r is Ok <==> lookup_in(self@.funcs, name@) is Some,
            r matches Ok(f) ==> (lookup_in(self@.funcs, name@) matches Some(m) && f@.sig == m.sig
                && f@.registered),
            r matches Err(e) ==> (e matches WasmEdgeError::Instance(InstanceError::NotFoundFunc(s))
                && s@ == name@),
    {
        match self.funcs.find(name) {
            Some(f) => Ok(f.registered_copy()),
            None => Err(WasmEdgeError::Instance(InstanceError::NotFoundFunc(name.to_owned()))),
        }
    }

    /// Returns the exported table under `name`, as a `Registered` borrow, or
    /// the table-specific not-found error exactly when no table export
    /// carries the name.
    pub fn get_table(&self, name: &str) -> (r: WasmEdgeResult<Table>)
        ensures
            r is Ok <==> lookup_in(self@.tables, name@) is Some,
            r matches Ok(t) ==> (lookup_in(self@.tables, name@) matches Some(m) && t@.ty == m.ty
                && t@.registered),
            r matches Err(e) ==> (e matches WasmEdgeError::Instance(InstanceError::NotFoundTable(s))
                && s@ == name@),
    {
        match self.tables.find(name) {
            Some(t) => Ok(t.registered_copy()),
            None => Err(WasmEdgeError::Instance(InstanceError::NotFoundTable(name.to_owned()))),
        }
    }

    /// Returns the exported memory under `name`, as a `Registered` borrow,
    /// or the memory-specific not-found error exactly when no memory export
    /// carries the name.
    pub fn get_memory(&self, name: &str) -> (r: WasmEdgeResult<Memory>)
        ensures
            r is Ok <==> lookup_in(self@.mems, name@) is Some,
            r matches Ok(m) ==> (lookup_in(self@.mems, name@) matches Some(e) && m@.ty == e.ty
                && m@.registered),
            r matches Err(e) ==> (e matches WasmEdgeError::Instance(InstanceError::NotFoundMem(s))
                && s@ == name@),
    {
        match self.mems.find(name) {
            Some(m) => Ok(m.registered_copy()),
            None => Err(WasmEdgeError::Instance(InstanceError::NotFoundMem(name.to_owned()))),
        }
    }

    /// Returns the exported global under `name`, as a `Registered` borrow,
    /// or the global-specific not-found error exactly when no global export
    /// carries the name.
    pub fn get_global(&self, name: &str) -> (r: WasmEdgeResult<Global>)
        ensures
            r is Ok <==> lookup_in(self@.globals, name@) is Some,
            r matches Ok(g) ==> (lookup_in(self@.globals, name@) matches Some(m) && g@.ty == m.ty
                && g@.value == m.value && g@.registered),
            r matches Err(e) ==> (e matches WasmEdgeError::Instance(
                InstanceError::NotFoundGlobal(s),
            ) && s@ == name@),
    {
        match self.globals.find(name) {
            Some(g) => Ok(g.registered_copy()),
            None => Err(WasmEdgeError::Instance(InstanceError::NotFoundGlobal(name.to_owned()))),
        }
    }

    /// The number of exported functions.
    pub fn func_len(&self) -> (n: usize)
        ensures
            n == self@.funcs.len(),
    {
        self.funcs.len()
    }

    /// The names of the exported functions, or `None` when there are none.
    pub fn func_names(&self) -> (r: Option<Vec<String>>)
        ensures
            r is None <==> self@.funcs.len() == 0,
            r matches Some(v) ==> v@.len() == self@.funcs.len() && (forall|i: int|
                0 <= i < v@.len() ==> v@[i]@ == names_of(self@.funcs)[i]),
    {
        let r = self.funcs.name_list();
        assert(self.funcs.name_seq() == names_of(self@.funcs));
        r
    }

    /// The number of exported tables.
    pub fn table_len(&self) -> (n: usize)
        ensures
            n == self@.tables.len(),
    {
        self.tables.len()
    }

    /// The names of the exported tables, or `None` when there are none.
    pub fn table_names(&self) -> (r: Option<Vec<String>>)
        ensures
            r is None <==> self@.tables.len() == 0,
            r matches Some(v) ==> v@.len() == self@.tables.len() && (forall|i: int|
                0 <= i < v@.len() ==> v@[i]@ == names_of(self@.tables)[i]),
    {
        let r = self.tables.name_list();
        assert(self.tables.name_seq() == names_of(self@.tables));
        r
    }

    /// The number of exported memories.
    pub fn mem_len(&self) -> (n: usize)
        ensures
            n == self@.mems.len(),
    {
        self.mems.len()
    }

    /// The names of the exported memories, or `None` when there are none.
    pub fn mem_names(&self) -> (r: Option<Vec<String>>)
        ensures
            r is None <==> self@.mems.len() == 0,
            r matches Some(v) ==> v@.len() == self@.mems.len() && (forall|i: int|
                0 <= i < v@.len() ==> v@[i]@ == names_of(self@.mems)[i]),
    {
        let r = self.mems.name_list();
        assert(self.mems.name_seq() == names_of(self@.mems));
        r
    }

    /// The number of exported globals.
    pub fn global_len(&self) -> (n: usize)
        ensures
            n == self@.globals.len(),
    {
        self.globals.len()
    }

    /// The names of the exported globals, or `None` when there are none.
    pub fn global_names(&self) -> (r: Option<Vec<String>>)
        ensures
            r is None <==> self@.globals.len() == 0,
            r matches Some(v) ==> v@.len() == self@.globals.len() && (forall|i: int|
                0 <= i < v@.len() ==> v@[i]@ == names_of(self@.globals)[i]),
    {
        let r = self.globals.name_list();
        assert(self.globals.name_seq() == names_of(self@.globals));
        r
    }
}

/// In a well-formed instance each kind enumerates pairwise distinct names,
/// and every enumerated name resolves through the lookup of its kind — the
/// listing and the directory agree.
pub proof fn lemma_names_resolve(m: InstanceModel)
    requires
        m.wf(),
    ensures
        forall|i: int, j: int| 0 <= i < j < m.funcs.len() ==> names_of(m.funcs)[i] != names_of(
            m.funcs,
        )[j],
        forall|i: int| 0 <= i < m.funcs.len() ==> lookup_in(m.funcs, names_of(m.funcs)[i]) is Some,
        forall|i: int, j: int| 0 <= i < j < m.tables.len() ==> names_of(m.tables)[i] != names_of(
            m.tables,
        )[j],
        forall|i: int| 0 <= i < m.tables.len() ==> lookup_in(m.tables, names_of(m.tables)[i])
            is Some,
        forall|i: int, j: int| 0 <= i < j < m.mems.len() ==> names_of(m.mems)[i] != names_of(
            m.mems,
        )[j],
        forall|i: int| 0 <= i < m.mems.len() ==> lookup_in(m.mems, names_of(m.mems)[i]) is Some,
        forall|i: int, j: int| 0 <= i < j < m.globals.len() ==> names_of(m.globals)[i] != names_of(
            m.globals,
        )[j],
        forall|i: int| 0 <= i < m.globals.len() ==> lookup_in(m.globals, names_of(m.globals)[i])
            is Some,
{
    assert forall|i: int| 0 <= i < m.funcs.len() implies lookup_in(
        m.funcs,
        names_of(m.funcs)[i],
    ) is Some by {
        assert(m.funcs[i].0 == names_of(m.funcs)[i]);
        lemma_lookup_present(m.funcs, names_of(m.funcs)[i]);
    }
    assert forall|i: int| 0 <= i < m.tables.len() implies lookup_in(
        m.tables,
        names_of(m.tables)[i],
    ) is Some by {
        assert(m.tables[i].0 == names_of(m.tables)[i]);
        lemma_lookup_present(m.tables, names_of(m.tables)[i]);
    }
    assert forall|i: int| 0 <= i < m.mems.len() implies lookup_in(
        m.mems,
        names_of(m.mems)[i],
    ) is Some by {
        assert(m.mems[i].0 == names_of(m.mems)[i]);
        lemma_lookup_present(m.mems, names_of(m.mems)[i]);
    }
    assert forall|i: int| 0 <= i < m.globals.len() implies lookup_in(
        m.globals,
        names_of(m.globals)[i],
    ) is Some by {
        assert(m.globals[i].0 == names_of(m.globals)[i]);
        lemma_lookup_present(m.globals, names_of(m.globals)[i]);
    }
}

} // verus!
