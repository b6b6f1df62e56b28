//! The registrar: consumes an import object, performs the link, and owns
//! the resulting instance.
//!
//! Registration is where ownership transfer completes. The import object is
//! consumed by value — after a successful registration no wrapper of the
//! host module remains, and the store alone owns the instance; lookups hand
//! out borrows. A registration that fails leaves the store unchanged.

use crate::dir::{lookup_in, lemma_lookup_first_match, lemma_lookup_none_iff_absent, name_in,
    names_distinct};
use crate::entity::{FuncModel, func_releases_on_drop, GlobalModel, global_releases_on_drop,
    MemModel, mem_releases_on_drop, TableModel, table_releases_on_drop};
use crate::error::{StoreError, WasmEdgeError, WasmEdgeResult};
use crate::host::ImportObject;
use crate::instance::{Instance, InstanceModel};
use crate::types::{FuncSig, GlobalType, MemType, TableType, WasmValue};
use vstd::prelude::*;

verus! {

/// The model an import object registers as, under a key: the instance the
/// registrar would produce from it.
pub open spec fn registered_model(o: ImportObject) -> InstanceModel {
    InstanceModel {
        name: if o.spec_name().len() == 0 {
            None
        } else {
            Some(o.spec_name())
        },
        funcs: o.spec_funcs(),
        tables: o.spec_tables(),
        mems: o.spec_mems(),
        globals: o.spec_globals(),
        registered: true,
    }
}

/// Holds when every export directory of the import object keeps its names
/// distinct, so the registrar can link it.
pub open spec fn registrable(o: ImportObject) -> bool {
    &&& names_distinct(o.spec_funcs())
    &&& names_distinct(o.spec_tables())
    &&& names_distinct(o.spec_mems())
    &&& names_distinct(o.spec_globals())
}

/// The store: the registrar's directory of registered module instances.
#[derive(Debug)]
pub struct Store {
    modules: Vec<Instance>,
}

impl Store {
    /// The registered instances, keyed by registration name, in
    /// registration order.
    pub closed spec fn keyed(&self) -> Seq<(Seq<char>, InstanceModel)> {
        self.modules@.map_values(|m: Instance| (m@.key(), m@))
    }

    /// Holds when an instance is registered under `n`.
    pub open spec fn spec_contains(&self, n: Seq<char>) -> bool {
        name_in(self.keyed(), n)
    }

    /// Holds when every registered instance is well-formed. Every store
    /// built through this interface satisfies it: creation starts empty and
    /// registration only admits well-formed instances.
    pub open spec fn all_wf(&self) -> bool {
        forall|i: int| 0 <= i < self.keyed().len() ==> (#[trigger] self.keyed()[i].1).wf()
    }

    /// Creates an empty store.
    pub fn create() -> (r: WasmEdgeResult<Store>)
        ensures
            r matches Ok(s) && s.keyed() == Seq::<(Seq<char>, InstanceModel)>::empty()
                && s.all_wf(),
    {
        let s = Store { modules: Vec::new() };
        assert(s.keyed() =~= Seq::<(Seq<char>, InstanceModel)>::empty());
        Ok(s)
    }

    /// The number of registered module instances.
    pub fn module_len(&self) -> (n: usize)
        ensures
            n == self.keyed().len(),
    {
        self.modules.len()
    }

    /// The names of the registered module instances in registration order,
    /// or `None` when there are none.
    pub fn module_names(&self) -> (r: Option<Vec<String>>)
        ensures
            r is None <==> self.keyed().len() == 0,
            r matches Some(v) ==> v@.len() == self.keyed().len() && (forall|i: int|
                0 <= i < v@.len() ==> v@[i]@ == self.keyed()[i].0),
    {
        let n = self.modules.len();
        if n == 0 {
            return None;
        }
        let mut out: Vec<String> = Vec::new();
        let mut i: usize = 0;
        while i < n
            invariant
                n == self.modules@.len(),
                n == self.keyed().len(),
                i <= n,
                out@.len() == i,
                forall|j: int| 0 <= j < i ==> out@[j]@ == self.keyed()[j].0,
            decreases n - i,
        {
            out.push(self.modules[i].key_string());
            i += 1;
        }
        Some(out)
    }

    /// Returns the module instance registered under `name`, or the
    /// not-found error exactly when no instance carries that name.
    pub fn module<'a>(&'a self, name: &str) -> (r: WasmEdgeResult<&'a Instance>)
        ensures
            r is Ok <==> self.spec_contains(name@),
            r matches Ok(inst) ==> lookup_in(self.keyed(), name@) == Some(inst@),
            self.all_wf() ==> (r matches Ok(inst) ==> inst@.wf()),
            r matches Err(e) ==> (e matches WasmEdgeError::Store(StoreError::NotFoundModule(s))
                && s@ == name@),
    {
        let key: String = name.to_owned();
        let n = self.modules.len();
        let mut i: usize = 0;
        while i < n
            invariant
                n == self.modules@.len(),
                n == self.keyed().len(),
                i <= n,
                key@ == name@,
                forall|j: int| 0 <= j < i ==> self.keyed()[j].0 != name@,
            decreases n - i,
        {
            if self.modules[i].matches_key(&key) {
                proof {
                    lemma_lookup_first_match(self.keyed(), name@, i as int);
                }
                return Ok(&self.modules[i]);
            }
            i += 1;
        }
        proof {
            lemma_lookup_none_iff_absent(self.keyed(), name@);
        }
        Err(WasmEdgeError::Store(StoreError::NotFoundModule(key)))
    }

    /// Decides whether an instance is registered under `key`.
    fn contains_module(&self, key: &String) -> (b: bool)
        ensures
            b == self.spec_contains(key@),
    {
        let n = self.modules.len();
        let mut i: usize = 0;
        while i < n
            invariant
                n == self.modules@.len(),
                n == self.keyed().len(),
                i <= n,
                forall|j: int| 0 <= j < i ==> self.keyed()[j].0 != key@,
            decreases n - i,
        {
            if self.modules[i].matches_key(key) {
                assert(self.keyed()[i as int].0 == key@);
                return true;
            }
            i += 1;
        }
        false
    }

    /// Registers an import object, consuming it. Succeeds exactly when no
    /// instance is already registered under the object's name and every
    /// export directory keeps its names distinct; the new instance then
    /// reflects exactly the entities the host module held, and is owned by
    /// the store. On failure the store is unchanged: a name collision —
    /// between modules or within one export kind — is surfaced, never
    /// resolved silently.
    pub fn register_import_object(&mut self, import: ImportObject) -> (r: WasmEdgeResult<()>)
        ensures
            r is Ok <==> !old(self).spec_contains(import.spec_name()) && registrable(import),
            r is Ok ==> final(self).keyed() == old(self).keyed().push(
                (import.spec_name(), registered_model(import)),
            ),
            r is Ok ==> registered_model(import).wf(),
            r is Ok ==> (old(self).all_wf() ==> final(self).all_wf()),
            r is Ok ==> (names_distinct(old(self).keyed()) ==> names_distinct(
                final(self).keyed(),
            )),
            r is Err ==> final(self).keyed() == old(self).keyed(),
            r matches Err(e) ==> (e matches WasmEdgeError::Store(se) && ((se matches
                StoreError::DuplicateModule(s) && s@ == import.spec_name() && old(
                self,
            ).spec_contains(import.spec_name())) || (se matches StoreError::DuplicateExport(s)
                && s@ == import.spec_name() && !old(self).spec_contains(import.spec_name())
                && !registrable(import)))),
    {
        let ghost old_keyed = self.keyed();
        let (name, funcs, tables, mems, globals) = import.into_parts();
        if self.contains_module(&name) {
            return Err(WasmEdgeError::Store(StoreError::DuplicateModule(name)));
        }
        if !funcs.has_distinct_names() || !tables.has_distinct_names()
            || !mems.has_distinct_names() || !globals.has_distinct_names() {
            return Err(WasmEdgeError::Store(StoreError::DuplicateExport(name)));
        }
        let ghost gname = name@;
        let anonymous = name.as_str().is_empty();
        let inst = Instance::assemble(
            if anonymous {
                None
            } else {
                Some(name)
            },
            funcs,
            tables,
            mems,
            globals,
        );
        proof {
            if gname.len() == 0 {
                assert(gname =~= Seq::<char>::empty());
            }
            assert(inst@.key() == gname);
            assert(inst@ == registered_model(import));
        }
        self.modules.push(inst);
        assert(self.keyed() =~= old_keyed.push((import.spec_name(), registered_model(import))));
        Ok(())
    }
}

/// Ownership-transfer law for functions. Recording a function entity of
/// signature `sig` under a fresh name `n` tags the recorded entry
/// `Registered` — a wrapper in that state never releases the handle on
/// drop, so the container is the sole owner — and after registration the
/// name resolves to exactly that entry: one export, same signature as at
/// creation.
pub proof fn lemma_func_round_trip(entries: Seq<(Seq<char>, FuncModel)>, n: Seq<char>, sig: FuncSig)
    requires
        !name_in(entries, n),
    ensures
        lookup_in(entries.push((n, FuncModel { sig, registered: true })), n) == Some(
            FuncModel { sig, registered: true },
        ),
        !func_releases_on_drop(FuncModel { sig, registered: true }),
        names_distinct(entries) ==> names_distinct(
            entries.push((n, FuncModel { sig, registered: true })),
        ),
        forall|j: int|
            0 <= j < entries.push((n, FuncModel { sig, registered: true })).len() && entries.push(
                (n, FuncModel { sig, registered: true }),
            )[j].0 == n ==> j == entries.len(),
{
    crate::dir::lemma_append_fresh(entries, n, FuncModel { sig, registered: true });
}

/// Ownership-transfer law for tables: as for functions — the recorded entry
/// never releases on drop, and after registration the fresh name resolves
/// to the one table entry with the type used at creation.
pub proof fn lemma_table_round_trip(entries: Seq<(Seq<char>, TableModel)>, n: Seq<char>, ty: TableType)
    requires
        !name_in(entries, n),
    ensures
        lookup_in(entries.push((n, TableModel { ty, registered: true })), n) == Some(
            TableModel { ty, registered: true },
        ),
        !table_releases_on_drop(TableModel { ty, registered: true }),
        names_distinct(entries) ==> names_distinct(
            entries.push((n, TableModel { ty, registered: true })),
        ),
{
    crate::dir::lemma_append_fresh(entries, n, TableModel { ty, registered: true });
}

/// Ownership-transfer law for memories: as for functions.
pub proof fn lemma_memory_round_trip(entries: Seq<(Seq<char>, MemModel)>, n: Seq<char>, ty: MemType)
    requires
        !name_in(entries, n),
    ensures
        lookup_in(entries.push((n, MemModel { ty, registered: true })), n) == Some(
            MemModel { ty, registered: true },
        ),
        !mem_releases_on_drop(MemModel { ty, registered: true }),
        names_distinct(entries) ==> names_distinct(
            entries.push((n, MemModel { ty, registered: true })),
        ),
{
    crate::dir::lemma_append_fresh(entries, n, MemModel { ty, registered: true });
}

/// Ownership-transfer law for globals: as for functions, and the value read
/// back equals the value the global was created with.
pub proof fn lemma_global_round_trip(
    entries: Seq<(Seq<char>, GlobalModel)>,
    n: Seq<char>,
    ty: GlobalType,
    value: WasmValue,
)
    requires
        !name_in(entries, n),
    ensures
        lookup_in(entries.push((n, GlobalModel { ty, value, registered: true })), n) == Some(
            GlobalModel { ty, value, registered: true },
        ),
        !global_releases_on_drop(GlobalModel { ty, value, registered: true }),
        names_distinct(entries) ==> names_distinct(
            entries.push((n, GlobalModel { ty, value, registered: true })),
        ),
{
    crate::dir::lemma_append_fresh(entries, n, GlobalModel { ty, value, registered: true });
}

} // verus!
