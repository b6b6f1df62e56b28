//! Module-instance and host-import linkage layer of a WebAssembly embedding
//! runtime.
//!
//! The crate models an instantiated module's exported surface (functions,
//! tables, memories and globals), lets embedding code build host-defined
//! modules and hand them to a registrar, and resolves exports by name.
//!
//! The correctness-critical part is the ownership-transfer protocol: every
//! entity wrapper carries an `Owned`/`Registered` tag, and the contracts prove
//! that once an entity has been handed to a container, only the container is
//! responsible for the underlying object — a wrapper in the `Registered` state
//! never releases anything, so a double release is impossible by construction.

pub mod dir;
pub mod entity;
pub mod error;
pub mod host;
pub mod instance;
pub mod store;
pub mod types;

pub use entity::{Function, Global, Memory, Table};
pub use error::{GlobalError, InstanceError, StoreError, WasmEdgeError, WasmEdgeResult};
pub use host::{ImportInstance, ImportModule, ImportObject, WasiModule, WasmEdgeProcessModule};
pub use instance::Instance;
pub use store::Store;
pub use types::{FuncType, GlobalType, MemType, Mutability, RefType, TableType, ValType, WasmValue};
