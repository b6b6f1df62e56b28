//! Type descriptors and values for exported entities.
//!
//! Floating-point values are carried as IEEE-754 bit patterns: the linkage
//! layer stores and hands them back unchanged and never computes with them.

use crate::error::{WasmEdgeError, WasmEdgeResult};
use vstd::prelude::*;

verus! {

/// The type of a Wasm value.
#[derive(Clone, Copy, Debug, PartialEq, Eq, Structural)]
pub enum ValType {
    I32,
    I64,
    F32,
    F64,
    V128,
    FuncRef,
    ExternRef,
}

/// The type of a reference value, used as a table's element type.
#[derive(Clone, Copy, Debug, PartialEq, Eq, Structural)]
pub enum RefType {
    FuncRef,
    ExternRef,
}

/// Whether a global may be written after creation.
#[derive(Clone, Copy, Debug, PartialEq, Eq, Structural)]
pub enum Mutability {
    Const,
    Var,
}

/// A Wasm value. Floats are carried as bit patterns.
#[derive(Clone, Copy, Debug, PartialEq, Eq, Structural)]
pub enum WasmValue {
    I32(i32),
    I64(i64),
    /// Bit pattern of a 32-bit float.
    F32(u32),
    /// Bit pattern of a 64-bit float.
    F64(u64),
    V128(u128),
    /// A function reference, by index.
    FuncRef(u32),
    /// An external reference, by token.
    ExternRef(u64),
}

impl WasmValue {
    /// The type this value belongs to.
    pub open spec fn spec_ty(&self) -> ValType {
        match *self {
            WasmValue::I32(_) => ValType::I32,
            WasmValue::I64(_) => ValType::I64,
            WasmValue::F32(_) => ValType::F32,
            WasmValue::F64(_) => ValType::F64,
            WasmValue::V128(_) => ValType::V128,
            WasmValue::FuncRef(_) => ValType::FuncRef,
            WasmValue::ExternRef(_) => ValType::ExternRef,
        }
    }

    /// Returns the type this value belongs to.
    pub fn ty(&self) -> (t: ValType)
        ensures
            t == self.spec_ty(),
    {
        match *self {
            WasmValue::I32(_) => ValType::I32,
            WasmValue::I64(_) => ValType::I64,
            WasmValue::F32(_) => ValType::F32,
            WasmValue::F64(_) => ValType::F64,
            WasmValue::V128(_) => ValType::V128,
            WasmValue::FuncRef(_) => ValType::FuncRef,
            WasmValue::ExternRef(_) => ValType::ExternRef,
        }
    }

    /// Wraps a 32-bit integer.
    pub fn from_i32(v: i32) -> (r: WasmValue)
        ensures
            r == WasmValue::I32(v),
    {
        WasmValue::I32(v)
    }

    /// Wraps a 64-bit integer.
    pub fn from_i64(v: i64) -> (r: WasmValue)
        ensures
            r == WasmValue::I64(v),
    {
        WasmValue::I64(v)
    }

    /// Wraps the bit pattern of a 32-bit float.
    pub fn from_f32_bits(bits: u32) -> (r: WasmValue)
        ensures
            r == WasmValue::F32(bits),
    {
        WasmValue::F32(bits)
    }

    /// Wraps the bit pattern of a 64-bit float.
    pub fn from_f64_bits(bits: u64) -> (r: WasmValue)
        ensures
            r == WasmValue::F64(bits),
    {
        WasmValue::F64(bits)
    }

    /// Reads back a 32-bit integer.
    pub fn to_i32(&self) -> (v: i32)
        requires
            *self matches WasmValue::I32(_),
        ensures
            *self == WasmValue::I32(v),
    {
        match *self {
            WasmValue::I32(v) => v,
            _ => 0,
        }
    }

    /// Reads back a 64-bit integer.
    pub fn to_i64(&self) -> (v: i64)
        requires
            *self matches WasmValue::I64(_),
        ensures
            *self == WasmValue::I64(v),
    {
        match *self {
            WasmValue::I64(v) => v,
            _ => 0,
        }
    }

    /// Reads back the bit pattern of a 32-bit float.
    pub fn to_f32_bits(&self) -> (bits: u32)
        requires
            *self matches WasmValue::F32(_),
        ensures
            *self == WasmValue::F32(bits),
    {
        match *self {
            WasmValue::F32(b) => b,
            _ => 0,
        }
    }

    /// Reads back the bit pattern of a 64-bit float.
    pub fn to_f64_bits(&self) -> (bits: u64)
        requires
            *self matches WasmValue::F64(_),
        ensures
            *self == WasmValue::F64(bits),
    {
        match *self {
            WasmValue::F64(b) => b,
            _ => 0,
        }
    }
}

/// The mathematical content of a function type: its parameter and result
/// type lists.
pub ghost struct FuncSig {
    pub params: Seq<ValType>,
    pub results: Seq<ValType>,
}

/// The type of a function entity.
#[derive(Debug)]
pub struct FuncType {
    params: Vec<ValType>,
    results: Vec<ValType>,
}

impl View for FuncType {
    type V = FuncSig;

    closed spec fn view(&self) -> FuncSig {
        FuncSig { params: self.params@, results: self.results@ }
    }
}

impl FuncType {
    /// Creates a function type from parameter and result type lists.
    pub fn create(params: Vec<ValType>, results: Vec<ValType>) -> (r: WasmEdgeResult<FuncType>)
        ensures
            r matches Ok(t) && t@ == (FuncSig { params: params@, results: results@ }),
    {
        Ok(FuncType { params, results })
    }

    /// The number of parameters.
    pub fn params_len(&self) -> (n: usize)
        ensures
            n == self@.params.len(),
    {
        self.params.len()
    }

    /// The number of results.
    pub fn returns_len(&self) -> (n: usize)
        ensures
            n == self@.results.len(),
    {
        self.results.len()
    }

    /// The parameter types, in order.
    pub fn params(&self) -> (r: &Vec<ValType>)
        ensures
            r@ == self@.params,
    {
        &self.params
    }

    /// The result types, in order.
    pub fn results(&self) -> (r: &Vec<ValType>)
        ensures
            r@ == self@.results,
    {
        &self.results
    }

    /// Copies this type descriptor.
    pub fn duplicate(&self) -> (r: FuncType)
        ensures
            r@ == self@,
    {
        let r = FuncType { params: copy_val_types(&self.params), results: copy_val_types(&self.results) };
        assert(r@.params == self@.params && r@.results == self@.results);
        r
    }
}

/// Copies a list of value types element by element.
fn copy_val_types(v: &Vec<ValType>) -> (r: Vec<ValType>)
    ensures
        r@ == v@,
{
    let mut r: Vec<ValType> = Vec::new();
    let mut i: usize = 0;
    while i < v.len()
        invariant
            i <= v.len(),
            r@ == v@.subrange(0, i as int),
        decreases v.len() - i,
    {
        r.push(v[i]);
        assert(r@ =~= v@.subrange(0, i + 1 as int));
        i += 1;
    }
    assert(r@ =~= v@);
    r
}

/// The type of a table entity: element type and size limits, in entries.
#[derive(Clone, Copy, Debug, PartialEq, Eq, Structural)]
pub struct TableType {
    pub elem_ty: RefType,
    pub min: u32,
    pub max: u32,
}

impl TableType {
    /// Creates a table type. The limits must not be inverted.
    pub fn create(elem_ty: RefType, min: u32, max: u32) -> (r: WasmEdgeResult<TableType>)
        ensures
            min <= max ==> (r matches Ok(t) && t == (TableType { elem_ty, min, max })),
            min > max ==> (r matches Err(e) && e == WasmEdgeError::TableTypeCreate),
    {
        if min > max {
            Err(WasmEdgeError::TableTypeCreate)
        } else {
            Ok(TableType { elem_ty, min, max })
        }
    }

    /// The element type.
    pub fn elem_ty(&self) -> (r: RefType)
        ensures
            r == self.elem_ty,
    {
        self.elem_ty
    }

    /// The lower size limit.
    pub fn min(&self) -> (r: u32)
        ensures
            r == self.min,
    {
        self.min
    }

    /// The upper size limit.
    pub fn max(&self) -> (r: u32)
        ensures
            r == self.max,
    {
        self.max
    }
}

/// The type of a memory entity: size limits, in pages.
#[derive(Clone, Copy, Debug, PartialEq, Eq, Structural)]
pub struct MemType {
    pub min: u32,
    pub max: u32,
}

impl MemType {
    /// Creates a memory type. The limits must not be inverted.
    pub fn create(min: u32, max: u32) -> (r: WasmEdgeResult<MemType>)
        ensures
            min <= max ==> (r matches Ok(t) && t == (MemType { min, max })),
            min > max ==> (r matches Err(e) && e == WasmEdgeError::MemTypeCreate),
    {
        if min > max {
            Err(WasmEdgeError::MemTypeCreate)
        } else {
            Ok(MemType { min, max })
        }
    }

    /// The lower size limit.
    pub fn min(&self) -> (r: u32)
        ensures
            r == self.min,
    {
        self.min
    }

    /// The upper size limit.
    pub fn max(&self) -> (r: u32)
        ensures
            r == self.max,
    {
        self.max
    }
}

/// The type of a global entity: value type and mutability.
#[derive(Clone, Copy, Debug, PartialEq, Eq, Structural)]
pub struct GlobalType {
    pub val_ty: ValType,
    pub mutability: Mutability,
}

impl GlobalType {
    /// Creates a global type.
    pub fn create(val_ty: ValType, mutability: Mutability) -> (r: WasmEdgeResult<GlobalType>)
        ensures
            r matches Ok(t) && t == (GlobalType { val_ty, mutability }),
    {
        Ok(GlobalType { val_ty, mutability })
    }

    /// The value type.
    pub fn value_type(&self) -> (r: ValType)
        ensures
            r == self.val_ty,
    {
        self.val_ty
    }

    /// The mutability.
    pub fn mutability(&self) -> (r: Mutability)
        ensures
            r == self.mutability,
    {
        self.mutability
    }
}

} // verus!
