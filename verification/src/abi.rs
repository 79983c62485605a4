//! The raw transport categories of the calling convention, and the raw
//! values that travel in them.
use vstd::prelude::*;

verus! {

/// How a value travels through a call: as a scalar of some width, or as a
/// pointer.
#[derive(Debug, Clone, Copy, PartialEq, Eq, Structural)]
pub enum AbiType {
    Bool,
    I8,
    U8,
    I16,
    U16,
    I32,
    U32,
    I64,
    U64,
    F32,
    F64,
    Ptr,
}

/// A raw value as the callee sees it. Floating-point values are held by their
/// bit patterns, pointers by their addresses.
#[derive(Debug, Clone, Copy, PartialEq, Eq, Structural)]
pub enum AbiValue {
    Bool(u8),
    I8(i8),
    U8(u8),
    I16(i16),
    U16(u16),
    I32(i32),
    U32(u32),
    I64(i64),
    U64(u64),
    F32(u32),
    F64(u64),
    Pointer(usize),
}

/// A type as the foreign-call layer describes it: a scalar of a given width
/// and signedness, a pointer, or a structure of such types passed by value.
#[derive(Debug, PartialEq, Eq)]
pub enum FfiType {
    U8,
    I8,
    U16,
    I16,
    U32,
    I32,
    U64,
    I64,
    F32,
    F64,
    Pointer,
    Structure(Vec<FfiType>),
}

/// The mathematical content of an `FfiType`.
pub enum FfiShape {
    U8,
    I8,
    U16,
    I16,
    U32,
    I32,
    U64,
    I64,
    F32,
    F64,
    Pointer,
    Structure(Seq<FfiShape>),
}

impl View for FfiType {
    type V = FfiShape;

    open spec fn view(&self) -> FfiShape
        decreases self,
    {
        match self {
            FfiType::U8 => FfiShape::U8,
            FfiType::I8 => FfiShape::I8,
            FfiType::U16 => FfiShape::U16,
            FfiType::I16 => FfiShape::I16,
            FfiType::U32 => FfiShape::U32,
            FfiType::I32 => FfiShape::I32,
            FfiType::U64 => FfiShape::U64,
            FfiType::I64 => FfiShape::I64,
            FfiType::F32 => FfiShape::F32,
            FfiType::F64 => FfiShape::F64,
            FfiType::Pointer => FfiShape::Pointer,
            FfiType::Structure(fields) => FfiShape::Structure(
                Seq::new(
                    fields@.len(),
                    |i: int|
                        if 0 <= i < fields@.len() {
                            fields@[i]@
                        } else {
                            FfiShape::U8
                        },
                ),
            ),
        }
    }
}

impl AbiType {
    /// The zero of each category.
    pub open spec fn spec_default_value(self) -> AbiValue {
        match self {
            AbiType::Bool => AbiValue::Bool(0),
            AbiType::I8 => AbiValue::I8(0),
            AbiType::U8 => AbiValue::U8(0),
            AbiType::I16 => AbiValue::I16(0),
            AbiType::U16 => AbiValue::U16(0),
            AbiType::I32 => AbiValue::I32(0),
            AbiType::U32 => AbiValue::U32(0),
            AbiType::I64 => AbiValue::I64(0),
            AbiType::U64 => AbiValue::U64(0),
            AbiType::F32 => AbiValue::F32(0),
            AbiType::F64 => AbiValue::F64(0),
            AbiType::Ptr => AbiValue::Pointer(0),
        }
    }

    /// How the foreign-call layer describes each category. A boolean travels
    /// as an unsigned byte.
    pub open spec fn spec_ffi_shape(self) -> FfiShape {
        match self {
            AbiType::Bool | AbiType::U8 => FfiShape::U8,
            AbiType::I8 => FfiShape::I8,
            AbiType::I16 => FfiShape::I16,
            AbiType::U16 => FfiShape::U16,
            AbiType::I32 => FfiShape::I32,
            AbiType::U32 => FfiShape::U32,
            AbiType::I64 => FfiShape::I64,
            AbiType::U64 => FfiShape::U64,
            AbiType::F32 => FfiShape::F32,
            AbiType::F64 => FfiShape::F64,
            AbiType::Ptr => FfiShape::Pointer,
        }
    }

    /// A zeroed value of this category, as storage for an output.
    pub fn default_value(&self) -> (v: AbiValue)
        ensures
            v == self.spec_default_value(),
            v.spec_abi_type() == *self,
    {
        match self {
            AbiType::Bool => AbiValue::Bool(0),
            AbiType::I8 => AbiValue::I8(0),
            AbiType::U8 => AbiValue::U8(0),
            AbiType::I16 => AbiValue::I16(0),
            AbiType::U16 => AbiValue::U16(0),
            AbiType::I32 => AbiValue::I32(0),
            AbiType::U32 => AbiValue::U32(0),
            AbiType::I64 => AbiValue::I64(0),
            AbiType::U64 => AbiValue::U64(0),
            AbiType::F32 => AbiValue::F32(0),
            AbiType::F64 => AbiValue::F64(0),
            AbiType::Ptr => AbiValue::Pointer(0),
        }
    }

    /// The foreign-call descriptor of this category.
    pub fn libffi_type(&self) -> (t: FfiType)
        ensures
            t@ == self.spec_ffi_shape(),
    {
        match self {
            AbiType::Bool | AbiType::U8 => FfiType::U8,
            AbiType::I8 => FfiType::I8,
            AbiType::I16 => FfiType::I16,
            AbiType::U16 => FfiType::U16,
            AbiType::I32 => FfiType::I32,
            AbiType::U32 => FfiType::U32,
            AbiType::I64 => FfiType::I64,
            AbiType::U64 => FfiType::U64,
            AbiType::F32 => FfiType::F32,
            AbiType::F64 => FfiType::F64,
            AbiType::Ptr => FfiType::Pointer,
        }
    }
}

impl AbiValue {
    /// The category a raw value travels in.
    pub open spec fn spec_abi_type(self) -> AbiType {
        match self {
            AbiValue::Bool(_) => AbiType::Bool,
            AbiValue::I8(_) => AbiType::I8,
            AbiValue::U8(_) => AbiType::U8,
            AbiValue::I16(_) => AbiType::I16,
            AbiValue::U16(_) => AbiType::U16,
            AbiValue::I32(_) => AbiType::I32,
            AbiValue::U32(_) => AbiType::U32,
            AbiValue::I64(_) => AbiType::I64,
            AbiValue::U64(_) => AbiType::U64,
            AbiValue::F32(_) => AbiType::F32,
            AbiValue::F64(_) => AbiType::F64,
            AbiValue::Pointer(_) => AbiType::Ptr,
        }
    }

    pub fn abi_type(&self) -> (t: AbiType)
        ensures
            t == self.spec_abi_type(),
    {
        match self {
            AbiValue::Bool(_) => AbiType::Bool,
            AbiValue::I8(_) => AbiType::I8,
            AbiValue::U8(_) => AbiType::U8,
            AbiValue::I16(_) => AbiType::I16,
            AbiValue::U16(_) => AbiType::U16,
            AbiValue::I32(_) => AbiType::I32,
            AbiValue::U32(_) => AbiType::U32,
            AbiValue::I64(_) => AbiType::I64,
            AbiValue::U64(_) => AbiType::U64,
            AbiValue::F32(_) => AbiType::F32,
            AbiValue::F64(_) => AbiType::F64,
            AbiValue::Pointer(_) => AbiType::Ptr,
        }
    }
}

} // verus!
