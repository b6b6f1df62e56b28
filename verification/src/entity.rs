//! Export entity wrappers: function, table, memory and global.
//!
//! Every wrapper carries an ownership tag. A freshly created entity is
//! independently owned (`registered == false`): on destruction its handle
//! must be released, exactly once. Handing the entity to a container flips
//! the tag to `Registered` in the same step that moves the handle, so the
//! wrapper the container records — and every borrow an instance directory
//! hands out — never releases the handle; the container alone does.

use crate::types::{FuncSig, FuncType, GlobalType, MemType, TableType, WasmValue};
use crate::error::{GlobalError, WasmEdgeError, WasmEdgeResult};
use vstd::prelude::*;

verus! {

/// The model of a function entity: its signature and ownership tag.
pub ghost struct FuncModel {
    pub sig: FuncSig,
    pub registered: bool,
}

/// The model of a table entity.
pub ghost struct TableModel {
    pub ty: TableType,
    pub registered: bool,
}

/// The model of a memory entity.
pub ghost struct MemModel {
    pub ty: MemType,
    pub registered: bool,
}

/// The model of a global entity: its type, its value and its ownership tag.
pub ghost struct GlobalModel {
    pub ty: GlobalType,
    pub value: WasmValue,
    pub registered: bool,
}

/// Whether a function wrapper in this state would release its handle when
/// dropped: only an independently owned one does.
pub open spec fn func_releases_on_drop(m: FuncModel) -> bool {
    !m.registered
}

/// Whether a table wrapper in this state would release its handle when dropped.
pub open spec fn table_releases_on_drop(m: TableModel) -> bool {
    !m.registered
}

/// Whether a memory wrapper in this state would release its handle when dropped.
pub open spec fn mem_releases_on_drop(m: MemModel) -> bool {
    !m.registered
}

/// Whether a global wrapper in this state would release its handle when dropped.
pub open spec fn global_releases_on_drop(m: GlobalModel) -> bool {
    !m.registered
}

/// A host function entity. Its behaviour lives in the interpreter, outside
/// this layer; here it is its signature and its ownership tag.
#[derive(Debug)]
pub struct Function {
    ty_: FuncType,
    registered: bool,
}

impl View for Function {
    type V = FuncModel;

    closed spec fn view(&self) -> FuncModel {
        FuncModel { sig: self.ty_@, registered: self.registered }
    }
}

impl Function {
    /// Creates an independently owned function entity with the given type.
    pub fn create(ty: &FuncType) -> (r: WasmEdgeResult<Function>)
        ensures
            r matches Ok(f) && f@ == (FuncModel { sig: ty@, registered: false }),
    {
        Ok(Function { ty_: ty.duplicate(), registered: false })
    }

    /// The type of this function.
    pub fn ty(&self) -> (r: WasmEdgeResult<FuncType>)
        ensures
            r matches Ok(t) && t@ == self@.sig,
    {
        Ok(self.ty_.duplicate())
    }

    /// Whether this wrapper's handle is owned by a container.
    pub fn registered(&self) -> (b: bool)
        ensures
            b == self@.registered,
    {
        self.registered
    }

    /// Consumes the wrapper for a container, flipping its tag to
    /// `Registered` in the same step that hands over the handle.
    pub(crate) fn into_registered(self) -> (r: Function)
        ensures
            r@ == (FuncModel { sig: self@.sig, registered: true }),
    {
        Function { ty_: self.ty_, registered: true }
    }

    /// A borrow of the entity a directory holds: same signature, tagged
    /// `Registered`, so dropping it releases nothing.
    pub(crate) fn registered_copy(&self) -> (r: Function)
        ensures
            r@ == (FuncModel { sig: self@.sig, registered: true }),
    {
        Function { ty_: self.ty_.duplicate(), registered: true }
    }
}

/// A table entity.
#[derive(Debug)]
pub struct Table {
    ty_: TableType,
    registered: bool,
}

impl View for Table {
    type V = TableModel;

    closed spec fn view(&self) -> TableModel {
        TableModel { ty: self.ty_, registered: self.registered }
    }
}

impl Table {
    /// Creates an independently owned table entity with the given type.
    pub fn create(ty: &TableType) -> (r: WasmEdgeResult<Table>)
        ensures
            r matches Ok(t) && t@ == (TableModel { ty: *ty, registered: false }),
    {
        Ok(Table { ty_: *ty, registered: false })
    }

    /// The type of this table.
    pub fn ty(&self) -> (r: WasmEdgeResult<TableType>)
        ensures
            r matches Ok(t) && t == self@.ty,
    {
        Ok(self.ty_)
    }

    /// Whether this wrapper's handle is owned by a container.
    pub fn registered(&self) -> (b: bool)
        ensures
            b == self@.registered,
    {
        self.registered
    }

    /// Consumes the wrapper for a container, flipping its tag to `Registered`.
    pub(crate) fn into_registered(self) -> (r: Table)
        ensures
            r@ == (TableModel { ty: self@.ty, registered: true }),
    {
        Table { ty_: self.ty_, registered: true }
    }

    /// A borrow of the entity a directory holds, tagged `Registered`.
    pub(crate) fn registered_copy(&self) -> (r: Table)
        ensures
            r@ == (TableModel { ty: self@.ty, registered: true }),
    {
        Table { ty_: self.ty_, registered: true }
    }
}

/// A memory entity.
#[derive(Debug)]
pub struct Memory {
    ty_: MemType,
    registered: bool,
}

impl View for Memory {
    type V = MemModel;

    closed spec fn view(&self) -> MemModel {
        MemModel { ty: self.ty_, registered: self.registered }
    }
}

impl Memory {
    /// Creates an independently owned memory entity with the given type.
    pub fn create(ty: &MemType) -> (r: WasmEdgeResult<Memory>)
        ensures
            r matches Ok(m) && m@ == (MemModel { ty: *ty, registered: false }),
    {
        Ok(Memory { ty_: *ty, registered: false })
    }

    /// The type of this memory.
    pub fn ty(&self) -> (r: WasmEdgeResult<MemType>)
        ensures
            r matches Ok(t) && t == self@.ty,
    {
        Ok(self.ty_)
    }

    /// Whether this wrapper's handle is owned by a container.
    pub fn registered(&self) -> (b: bool)
        ensures
            b == self@.registered,
    {
        self.registered
    }

    /// Consumes the wrapper for a container, flipping its tag to `Registered`.
    pub(crate) fn into_registered(self) -> (r: Memory)
        ensures
            r@ == (MemModel { ty: self@.ty, registered: true }),
    {
        Memory { ty_: self.ty_, registered: true }
    }

    /// A borrow of the entity a directory holds, tagged `Registered`.
    pub(crate) fn registered_copy(&self) -> (r: Memory)
        ensures
            r@ == (MemModel { ty: self@.ty, registered: true }),
    {
        Memory { ty_: self.ty_, registered: true }
    }
}

/// A global entity: a typed value.
#[derive(Debug)]
pub struct Global {
    ty_: GlobalType,
    value: WasmValue,
    registered: bool,
}

impl View for Global {
    type V = GlobalModel;

    closed spec fn view(&self) -> GlobalModel {
        GlobalModel { ty: self.ty_, value: self.value, registered: self.registered }
    }
}

impl Global {
    /// Creates an independently owned global entity holding `value`.
    /// Fails exactly when the value does not fit the declared type.
    pub fn create(ty: &GlobalType, value: WasmValue) -> (r: WasmEdgeResult<Global>)
        ensures
            value.spec_ty() == ty.val_ty ==> (r matches Ok(g) && g@ == (GlobalModel {
                ty: *ty,
                value,
                registered: false,
            })),
            value.spec_ty() != ty.val_ty ==> (r matches Err(e) && e == WasmEdgeError::Global(
                GlobalError::Create,
            )),
    {
        if value.ty() == ty.value_type() {
            Ok(Global { ty_: *ty, value, registered: false })
        } else {
            Err(WasmEdgeError::Global(GlobalError::Create))
        }
    }

    /// The type of this global.
    pub fn ty(&self) -> (r: WasmEdgeResult<GlobalType>)
        ensures
            r matches Ok(t) && t == self@.ty,
    {
        Ok(self.ty_)
    }

    /// The value this global holds.
    pub fn get_value(&self) -> (v: WasmValue)
        ensures
            v == self@.value,
    {
        self.value
    }

    /// Whether this wrapper's handle is owned by a container.
    pub fn registered(&self) -> (b: bool)
        ensures
            b == self@.registered,
    {
        self.registered
    }

    /// Consumes the wrapper for a container, flipping its tag to `Registered`.
    pub(crate) fn into_registered(self) -> (r: Global)
        ensures
            r@ == (GlobalModel { ty: self@.ty, value: self@.value, registered: true }),
    {
        Global { ty_: self.ty_, value: self.value, registered: true }
    }

    /// A borrow of the entity a directory holds, tagged `Registered`.
    pub(crate) fn registered_copy(&self) -> (r: Global)
        ensures
            r@ == (GlobalModel { ty: self@.ty, value: self@.value, registered: true }),
    {
        Global { ty_: self.ty_, value: self.value, registered: true }
    }
}

} // verus!
