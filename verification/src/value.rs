//! Typed values as they pass through a call: scalars, interface references,
//! strings, status codes, output slots and asynchronous operations.
use crate::abi::AbiValue;
use crate::guid::{Guid, MAX_SIGNATURE_BYTES};
use crate::result::{Error, ErrorModel};
use crate::types::{TypeModel, WinRTType};
use vstd::prelude::*;
use vstd::utf8::encode_utf8;

verus! {

/// An array of interface references as the platform hands it over: the
/// address of its first element and the number of elements.
#[derive(Debug, Clone, Copy, PartialEq, Eq)]
pub struct ArrayOfIUnknownData {
    pub ptr: usize,
    pub len: u32,
}

/// An asynchronous operation in flight: the reference through which its
/// progress is asked, and which of the four asynchronous shapes it has.
#[derive(Debug, PartialEq, Eq)]
pub struct AsyncInfo {
    pub info: usize,
    pub async_type: WinRTType,
}

/// A typed value. Floating-point values are held by their bit patterns;
/// interface references and strings by the handles the platform gave.
#[derive(Debug, PartialEq, Eq)]
pub enum WinRTValue {
    Bool(bool),
    I8(i8),
    U8(u8),
    I16(i16),
    U16(u16),
    I32(i32),
    U32(u32),
    I64(i64),
    U64(u64),
    F32(u32),
    F64(u64),
    Object(usize),
    HString(usize),
    HResult(i32),
    OutValue(usize, WinRTType),
    Async(AsyncInfo),
    ArrayOfIUnknown(ArrayOfIUnknownData),
}

/// The arguments that a fixed-shape call can carry: none, or one integer
/// or interface reference.
#[derive(Debug, Clone, Copy, PartialEq, Eq)]
pub enum FixedArg {
    Nothing,
    I32(i32),
    I64(i64),
    Object(usize),
}

/// The fixed shape that a list of arguments fits, if it fits one.
pub open spec fn spec_fixed_arg(args: Seq<ValueModel>) -> Option<FixedArg> {
    if args.len() == 0 {
        Some(FixedArg::Nothing)
    } else if args.len() == 1 {
        match args[0] {
            ValueModel::I32(n) => Some(FixedArg::I32(n)),
            ValueModel::I64(n) => Some(FixedArg::I64(n)),
            ValueModel::Object(p) => Some(FixedArg::Object(p)),
            _ => None,
        }
    } else {
        None
    }
}

/// The fixed shape that `args` fits: no argument, or one 32-bit integer,
/// 64-bit integer or interface reference; `None` for any other list.
pub fn fixed_arg(args: &[WinRTValue]) -> (shape: Option<FixedArg>)
    ensures
        shape == spec_fixed_arg(Seq::new(args@.len(), |i: int| args@[i]@)),
{
    if args.len() == 0 {
        Some(FixedArg::Nothing)
    } else if args.len() == 1 {
        match &args[0] {
            WinRTValue::I32(n) => Some(FixedArg::I32(*n)),
            WinRTValue::I64(n) => Some(FixedArg::I64(*n)),
            WinRTValue::Object(p) => Some(FixedArg::Object(*p)),
            _ => None,
        }
    } else {
        None
    }
}

/// The mathematical content of a `WinRTValue`.
pub enum ValueModel {
    Bool(bool),
    I8(i8),
    U8(u8),
    I16(i16),
    U16(u16),
    I32(i32),
    U32(u32),
    I64(i64),
    U64(u64),
    F32(u32),
    F64(u64),
    Object(usize),
    HString(usize),
    HResult(i32),
    OutValue(usize, TypeModel),
    Async(usize, TypeModel),
    ArrayOfIUnknown(usize, u32),
}

impl View for WinRTValue {
    type V = ValueModel;

    open spec fn view(&self) -> ValueModel {
        match self {
            WinRTValue::Bool(v) => ValueModel::Bool(*v),
            WinRTValue::I8(v) => ValueModel::I8(*v),
            WinRTValue::U8(v) => ValueModel::U8(*v),
            WinRTValue::I16(v) => ValueModel::I16(*v),
            WinRTValue::U16(v) => ValueModel::U16(*v),
            WinRTValue::I32(v) => ValueModel::I32(*v),
            WinRTValue::U32(v) => ValueModel::U32(*v),
            WinRTValue::I64(v) => ValueModel::I64(*v),
            WinRTValue::U64(v) => ValueModel::U64(*v),
            WinRTValue::F32(v) => ValueModel::F32(*v),
            WinRTValue::F64(v) => ValueModel::F64(*v),
            WinRTValue::Object(p) => ValueModel::Object(*p),
            WinRTValue::HString(h) => ValueModel::HString(*h),
            WinRTValue::HResult(hr) => ValueModel::HResult(*hr),
            WinRTValue::OutValue(p, typ) => ValueModel::OutValue(*p, typ@),
            WinRTValue::Async(a) => ValueModel::Async(a.info, a.async_type@),
            WinRTValue::ArrayOfIUnknown(d) => ValueModel::ArrayOfIUnknown(d.ptr, d.len),
        }
    }
}

impl ValueModel {
    /// The type that a value reports of itself. An asynchronous operation
    /// reports an untyped reference.
    pub open spec fn spec_type(self) -> TypeModel {
        match self {
            ValueModel::Bool(_) => TypeModel::Bool,
            ValueModel::I8(_) => TypeModel::I8,
            ValueModel::U8(_) => TypeModel::U8,
            ValueModel::I16(_) => TypeModel::I16,
            ValueModel::U16(_) => TypeModel::U16,
            ValueModel::I32(_) => TypeModel::I32,
            ValueModel::U32(_) => TypeModel::U32,
            ValueModel::I64(_) => TypeModel::I64,
            ValueModel::U64(_) => TypeModel::U64,
            ValueModel::F32(_) => TypeModel::F32,
            ValueModel::F64(_) => TypeModel::F64,
            ValueModel::Object(_) => TypeModel::Object,
            ValueModel::HString(_) => TypeModel::HString,
            ValueModel::HResult(_) => TypeModel::HResult,
            ValueModel::OutValue(_, typ) => TypeModel::OutValue(Box::new(typ)),
            ValueModel::Async(_, _) => TypeModel::Object,
            ValueModel::ArrayOfIUnknown(_, _) => TypeModel::ArrayOfIUnknown,
        }
    }

    /// The value as a 32-bit integer, for the kinds that fit or wrap into one.
    pub open spec fn spec_as_i32(self) -> Option<i32> {
        match self {
            ValueModel::Bool(b) => Some(if b { 1i32 } else { 0i32 }),
            ValueModel::I8(v) => Some(v as i32),
            ValueModel::U8(v) => Some(v as i32),
            ValueModel::I16(v) => Some(v as i32),
            ValueModel::U16(v) => Some(v as i32),
            ValueModel::I32(v) => Some(v),
            ValueModel::U32(v) => Some(v as i32),
            _ => None,
        }
    }

    /// The raw value handed to the callee for an input. An asynchronous
    /// operation cannot be an input.
    pub open spec fn spec_raw(self) -> AbiValue {
        match self {
            ValueModel::Bool(b) => AbiValue::Bool(if b { 1u8 } else { 0u8 }),
            ValueModel::I8(v) => AbiValue::I8(v),
            ValueModel::U8(v) => AbiValue::U8(v),
            ValueModel::I16(v) => AbiValue::I16(v),
            ValueModel::U16(v) => AbiValue::U16(v),
            ValueModel::I32(v) => AbiValue::I32(v),
            ValueModel::U32(v) => AbiValue::U32(v),
            ValueModel::I64(v) => AbiValue::I64(v),
            ValueModel::U64(v) => AbiValue::U64(v),
            ValueModel::F32(v) => AbiValue::F32(v),
            ValueModel::F64(v) => AbiValue::F64(v),
            ValueModel::Object(p) => AbiValue::Pointer(p),
            ValueModel::HString(h) => AbiValue::Pointer(h),
            ValueModel::HResult(hr) => AbiValue::I32(hr),
            ValueModel::OutValue(p, _) => AbiValue::Pointer(p),
            ValueModel::Async(p, _) => AbiValue::Pointer(p),
            ValueModel::ArrayOfIUnknown(p, _) => AbiValue::Pointer(p),
        }
    }
}

impl Clone for AsyncInfo {
    fn clone(&self) -> (res: Self)
        ensures
            res.info == self.info,
            res.async_type@ == self.async_type@,
    {
        AsyncInfo { info: self.info, async_type: self.async_type.clone() }
    }
}

impl AsyncInfo {
    /// The shape is one of the four asynchronous shapes, and what its
    /// identifiers are derived from is within the length an identifier can be
    /// derived from.
    pub open spec fn wf(&self) -> bool {
        let t = self.async_type@;
        &&& t.is_async_shape()
        &&& t.iid_is_derived() ==> t.has_signature() && encode_utf8(t.signature()).len()
            <= MAX_SIGNATURE_BYTES && encode_utf8(t.handler_signature()).len() <= MAX_SIGNATURE_BYTES
    }

    /// Whether the operation is well formed: what `wf` says, decided.
    pub fn is_well_formed(&self) -> (b: bool)
        ensures
            b == self.wf(),
    {
        match &self.async_type {
            WinRTType::IAsyncAction => true,
            WinRTType::IAsyncOperation(_)
            | WinRTType::IAsyncActionWithProgress(_)
            | WinRTType::IAsyncOperationWithProgress(_, _) => {
                if !self.async_type.has_signature() {
                    return false;
                }
                let sig = self.async_type.signature_string();
                let handler = self.async_type.handler_signature_string();
                sig.as_str().as_bytes().len() <= MAX_SIGNATURE_BYTES && handler.as_str().as_bytes().len()
                    <= MAX_SIGNATURE_BYTES
            },
            _ => false,
        }
    }

    /// The identifier of the operation's own interface.
    pub fn iid(&self) -> (g: Guid)
        requires
            self.wf(),
        ensures
            Some(g) == self.async_type@.spec_iid(),
    {
        match self.async_type.iid() {
            Some(g) => g,
            None => 0,
        }
    }

    /// The identifier of the handler that its completion is registered with.
    pub fn handler_iid(&self) -> (g: Guid)
        requires
            self.wf(),
        ensures
            Some(g) == self.async_type@.spec_completed_handler_iid(),
    {
        match self.async_type.completed_handler_iid() {
            Some(g) => g,
            None => 0,
        }
    }

    /// The type of what the operation yields; none for an action.
    pub fn result_type(&self) -> (r: Option<&WinRTType>)
        ensures
            match self.async_type@ {
                TypeModel::IAsyncOperation(t) => (r matches Some(x) && x@ == *t),
                TypeModel::IAsyncOperationWithProgress(t, _) => (r matches Some(x) && x@ == *t),
                _ => r is None,
            },
    {
        match &self.async_type {
            WinRTType::IAsyncOperation(t) => Some(&**t),
            WinRTType::IAsyncOperationWithProgress(t, _) => Some(&**t),
            _ => None,
        }
    }
}

impl Clone for WinRTValue {
    fn clone(&self) -> (res: Self)
        ensures
            res@ == self@,
    {
        match self {
            WinRTValue::Bool(v) => WinRTValue::Bool(*v),
            WinRTValue::I8(v) => WinRTValue::I8(*v),
            WinRTValue::U8(v) => WinRTValue::U8(*v),
            WinRTValue::I16(v) => WinRTValue::I16(*v),
            WinRTValue::U16(v) => WinRTValue::U16(*v),
            WinRTValue::I32(v) => WinRTValue::I32(*v),
            WinRTValue::U32(v) => WinRTValue::U32(*v),
            WinRTValue::I64(v) => WinRTValue::I64(*v),
            WinRTValue::U64(v) => WinRTValue::U64(*v),
            WinRTValue::F32(v) => WinRTValue::F32(*v),
            WinRTValue::F64(v) => WinRTValue::F64(*v),
            WinRTValue::Object(p) => WinRTValue::Object(*p),
            WinRTValue::HString(h) => WinRTValue::HString(*h),
            WinRTValue::HResult(hr) => WinRTValue::HResult(*hr),
            WinRTValue::OutValue(p, typ) => WinRTValue::OutValue(*p, typ.clone()),
            WinRTValue::Async(a) => WinRTValue::Async(a.clone()),
            WinRTValue::ArrayOfIUnknown(d) => WinRTValue::ArrayOfIUnknown(
                ArrayOfIUnknownData { ptr: d.ptr, len: d.len },
            ),
        }
    }
}

impl WinRTValue {
    /// The string handle, if the value is a string.
    pub fn as_hstring(&self) -> (r: Option<usize>)
        ensures
            r == (match self@ {
                ValueModel::HString(h) => Some(h),
                _ => None,
            }),
    {
        match self {
            WinRTValue::HString(h) => Some(*h),
            _ => None,
        }
    }

    /// The value as a 32-bit integer, for a boolean or an integer of at most
    /// 32 bits; an unsigned 32-bit value wraps.
    pub fn as_i32(&self) -> (r: Option<i32>)
        ensures
            r == self@.spec_as_i32(),
    {
        match self {
            WinRTValue::Bool(b) => Some(if *b { 1 } else { 0 }),
            WinRTValue::I8(v) => Some(*v as i32),
            WinRTValue::U8(v) => Some(*v as i32),
            WinRTValue::I16(v) => Some(*v as i32),
            WinRTValue::U16(v) => Some(*v as i32),
            WinRTValue::I32(v) => Some(*v),
            WinRTValue::U32(v) => Some(#[verifier::truncate] (*v as i32)),
            _ => None,
        }
    }

    /// The interface reference, if the value is one or is an asynchronous
    /// operation.
    pub fn as_object(&self) -> (r: Option<usize>)
        ensures
            r == (match self@ {
                ValueModel::Object(p) => Some(p),
                ValueModel::Async(p, _) => Some(p),
                _ => None,
            }),
    {
        match self {
            WinRTValue::Object(p) => Some(*p),
            WinRTValue::Async(a) => Some(a.info),
            _ => None,
        }
    }

    /// The reference on which an identity query for another interface is to
    /// be made; an error for any value that is no interface reference.
    pub fn cast_target(&self) -> (r: Result<usize, Error>)
        ensures
            match self@ {
                ValueModel::Object(p) => r == Ok::<usize, Error>(p),
                _ => (r matches Err(e) && e@ == ErrorModel::ExpectObjectTypeError(self@.spec_type())),
            },
    {
        match self {
            WinRTValue::Object(p) => Ok(*p),
            _ => Err(Error::ExpectObjectTypeError(self.get_type())),
        }
    }

    /// The type that the value reports of itself.
    pub fn get_type(&self) -> (t: WinRTType)
        ensures
            t@ == self@.spec_type(),
    {
        match self {
            WinRTValue::Bool(_) => WinRTType::Bool,
            WinRTValue::I8(_) => WinRTType::I8,
            WinRTValue::U8(_) => WinRTType::U8,
            WinRTValue::I16(_) => WinRTType::I16,
            WinRTValue::U16(_) => WinRTType::U16,
            WinRTValue::I32(_) => WinRTType::I32,
            WinRTValue::U32(_) => WinRTType::U32,
            WinRTValue::I64(_) => WinRTType::I64,
            WinRTValue::U64(_) => WinRTType::U64,
            WinRTValue::F32(_) => WinRTType::F32,
            WinRTValue::F64(_) => WinRTType::F64,
            WinRTValue::Object(_) => WinRTType::Object,
            WinRTValue::HString(_) => WinRTType::HString,
            WinRTValue::HResult(_) => WinRTType::HResult,
            WinRTValue::OutValue(_, typ) => WinRTType::OutValue(Box::new(typ.clone())),
            WinRTValue::Async(_) => WinRTType::Object,
            WinRTValue::ArrayOfIUnknown(_) => WinRTType::ArrayOfIUnknown,
        }
    }

    /// The raw value handed to the callee when this value is an input.
    pub fn libffi_arg(&self) -> (raw: AbiValue)
        requires
            !(self@ is Async),
        ensures
            raw == self@.spec_raw(),
    {
        match self {
            WinRTValue::Bool(b) => AbiValue::Bool(if *b { 1 } else { 0 }),
            WinRTValue::I8(v) => AbiValue::I8(*v),
            WinRTValue::U8(v) => AbiValue::U8(*v),
            WinRTValue::I16(v) => AbiValue::I16(*v),
            WinRTValue::U16(v) => AbiValue::U16(*v),
            WinRTValue::I32(v) => AbiValue::I32(*v),
            WinRTValue::U32(v) => AbiValue::U32(*v),
            WinRTValue::I64(v) => AbiValue::I64(*v),
            WinRTValue::U64(v) => AbiValue::U64(*v),
            WinRTValue::F32(v) => AbiValue::F32(*v),
            WinRTValue::F64(v) => AbiValue::F64(*v),
            WinRTValue::Object(p) => AbiValue::Pointer(*p),
            WinRTValue::HString(h) => AbiValue::Pointer(*h),
            WinRTValue::HResult(hr) => AbiValue::I32(*hr),
            WinRTValue::OutValue(p, _) => AbiValue::Pointer(*p),
            WinRTValue::Async(a) => AbiValue::Pointer(a.info),
            WinRTValue::ArrayOfIUnknown(d) => AbiValue::Pointer(d.ptr),
        }
    }
}

} // verus!
