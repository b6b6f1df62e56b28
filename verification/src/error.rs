//! Error taxonomy of the linkage layer.
//!
//! The backing runtime signals failure through a null sentinel; this layer
//! converts that convention into typed results at the boundary and never
//! propagates a raw sentinel to a caller. Lookup failures are kind-specific,
//! so a caller can tell what was being looked up.

use vstd::prelude::*;

verus! {

/// Errors raised by an [`crate::instance::Instance`] or while creating a host
/// module.
#[derive(Debug, Clone, PartialEq, Eq)]
pub enum InstanceError {
    /// Creating an import module failed.
    CreateImportModule,
    /// No exported function under the given name.
    NotFoundFunc(String),
    /// No exported table under the given name.
    NotFoundTable(String),
    /// No exported memory under the given name.
    NotFoundMem(String),
    /// No exported global under the given name.
    NotFoundGlobal(String),
}

/// Errors raised while creating a global entity.
#[derive(Debug, Clone, PartialEq, Eq)]
pub enum GlobalError {
    /// The initial value does not fit the declared global type.
    Create,
}

/// Errors raised by the registrar ([`crate::store::Store`]).
#[derive(Debug, Clone, PartialEq, Eq)]
pub enum StoreError {
    /// No module instance registered under the given name.
    NotFoundModule(String),
    /// A module instance is already registered under the given name.
    DuplicateModule(String),
    /// The import object exports two entities of one kind under one name;
    /// the backing runtime leaves that case undefined, so the registrar
    /// surfaces it instead of guessing, and the store is left unchanged.
    DuplicateExport(String),
}

/// The top-level error type of the layer.
#[derive(Debug, Clone, PartialEq, Eq)]
pub enum WasmEdgeError {
    /// An instance-level failure.
    Instance(InstanceError),
    /// A global-entity failure.
    Global(GlobalError),
    /// A registrar-level failure.
    Store(StoreError),
    /// Creating a system-interface or process host module failed.
    ImportObjCreate,
    /// The table limits are inverted (minimum above maximum).
    TableTypeCreate,
    /// The memory limits are inverted (minimum above maximum).
    MemTypeCreate,
}

/// The result type used throughout the layer.
pub type WasmEdgeResult<T> = Result<T, WasmEdgeError>;

} // verus!
