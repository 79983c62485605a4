//! The platform's type system: scalars, strings, interface references,
//! generic interfaces and their instantiations, and the four asynchronous
//! shapes; their canonical signatures, identifiers, raw categories, default
//! values, and the conversion of raw outputs into typed values.
use crate::abi::{AbiType, AbiValue};
use crate::guid::{
    format_guid_braced, guid_braced, guid_of_signature, signature_guid, Guid,
    ASYNC_ACTION_COMPLETED_HANDLER, ASYNC_ACTION_WITH_PROGRESS_COMPLETED_HANDLER,
    ASYNC_OPERATION_COMPLETED_HANDLER, ASYNC_OPERATION_WITH_PROGRESS_COMPLETED_HANDLER,
    IASYNC_ACTION, IASYNC_ACTION_WITH_PROGRESS, IASYNC_OPERATION, IASYNC_OPERATION_WITH_PROGRESS,
    MAX_SIGNATURE_BYTES,
};
use crate::result::{Error, ErrorModel};
use crate::value::{AsyncInfo, ValueModel, WinRTValue};
use vstd::prelude::*;
use vstd::string::StringExecFns;
use vstd::utf8::encode_utf8;

verus! {

/// The status with which an identity query rejects an unknown interface.
pub const E_NOINTERFACE: i32 = -2147467262;

/// A type of the platform.
#[derive(Debug, PartialEq, Eq)]
pub enum WinRTType {
    Bool,
    I8,
    U8,
    I16,
    U16,
    I32,
    U32,
    I64,
    U64,
    F32,
    F64,
    Char16,
    HString,
    Guid,
    /// An interface reference of unknown interface.
    Object,
    /// A plain interface, named by its identifier.
    Interface(Guid),
    /// A delegate, named by its identifier.
    Delegate(Guid),
    /// A runtime class: its full name and the identifier of its default interface.
    RuntimeClass(String, Guid),
    /// A generic interface that has not been given its arguments.
    Generic { piid: Guid, arity: u32 },
    /// A generic interface applied to type arguments.
    Parameterized(Box<WinRTType>, Vec<WinRTType>),
    IAsyncAction,
    IAsyncActionWithProgress(Box<WinRTType>),
    IAsyncOperation(Box<WinRTType>),
    IAsyncOperationWithProgress(Box<WinRTType>, Box<WinRTType>),
    /// A status code. Exists for the calling convention only.
    HResult,
    /// The slot of an output. Exists for the calling convention only.
    OutValue(Box<WinRTType>),
    /// An array of interface references. Exists for the calling convention only.
    ArrayOfIUnknown,
}

/// The mathematical content of a `WinRTType`.
pub enum TypeModel {
    Bool,
    I8,
    U8,
    I16,
    U16,
    I32,
    U32,
    I64,
    U64,
    F32,
    F64,
    Char16,
    HString,
    Guid,
    Object,
    Interface(Guid),
    Delegate(Guid),
    RuntimeClass(Seq<char>, Guid),
    Generic { piid: Guid, arity: u32 },
    Parameterized(Box<TypeModel>, Seq<TypeModel>),
    IAsyncAction,
    IAsyncActionWithProgress(Box<TypeModel>),
    IAsyncOperation(Box<TypeModel>),
    IAsyncOperationWithProgress(Box<TypeModel>, Box<TypeModel>),
    HResult,
    OutValue(Box<TypeModel>),
    ArrayOfIUnknown,
}

impl WinRTType {
    /// The mathematical content of the type.
    pub open spec fn model(&self) -> TypeModel
        decreases self,
    {
        match self {
            WinRTType::Bool => TypeModel::Bool,
            WinRTType::I8 => TypeModel::I8,
            WinRTType::U8 => TypeModel::U8,
            WinRTType::I16 => TypeModel::I16,
            WinRTType::U16 => TypeModel::U16,
            WinRTType::I32 => TypeModel::I32,
            WinRTType::U32 => TypeModel::U32,
            WinRTType::I64 => TypeModel::I64,
            WinRTType::U64 => TypeModel::U64,
            WinRTType::F32 => TypeModel::F32,
            WinRTType::F64 => TypeModel::F64,
            WinRTType::Char16 => TypeModel::Char16,
            WinRTType::HString => TypeModel::HString,
            WinRTType::Guid => TypeModel::Guid,
            WinRTType::Object => TypeModel::Object,
            WinRTType::Interface(iid) => TypeModel::Interface(*iid),
            WinRTType::Delegate(iid) => TypeModel::Delegate(*iid),
            WinRTType::RuntimeClass(name, iid) => TypeModel::RuntimeClass(name@, *iid),
            WinRTType::Generic { piid, arity } => TypeModel::Generic { piid: *piid, arity: *arity },
            WinRTType::Parameterized(def, args) => TypeModel::Parameterized(
                Box::new(def.model()),
                Seq::new(
                    args@.len(),
                    |i: int|
                        if 0 <= i < args@.len() {
                            args@[i].model()
                        } else {
                            TypeModel::Object
                        },
                ),
            ),
            WinRTType::IAsyncAction => TypeModel::IAsyncAction,
            WinRTType::IAsyncActionWithProgress(p) => TypeModel::IAsyncActionWithProgress(
                Box::new(p.model()),
            ),
            WinRTType::IAsyncOperation(t) => TypeModel::IAsyncOperation(Box::new(t.model())),
            WinRTType::IAsyncOperationWithProgress(t, p) => TypeModel::IAsyncOperationWithProgress(
                Box::new(t.model()),
                Box::new(p.model()),
            ),
            WinRTType::HResult => TypeModel::HResult,
            WinRTType::OutValue(inner) => TypeModel::OutValue(Box::new(inner.model())),
            WinRTType::ArrayOfIUnknown => TypeModel::ArrayOfIUnknown,
        }
    }
}

impl View for WinRTType {
    type V = TypeModel;

    open spec fn view(&self) -> TypeModel {
        self.model()
    }
}

/// Whether `piid` names one of the four asynchronous interfaces.
pub open spec fn is_async_piid(piid: Guid) -> bool {
    piid == IASYNC_ACTION || piid == IASYNC_OPERATION || piid == IASYNC_ACTION_WITH_PROGRESS || piid
        == IASYNC_OPERATION_WITH_PROGRESS
}

/// `pinterface(head;arg)`: the signature of a generic interface applied
/// to one argument.
pub open spec fn pinterface_of_one(head: Seq<char>, arg: Seq<char>) -> Seq<char> {
    "pinterface("@ + head + ";"@ + arg + ")"@
}

/// `pinterface(head;first;second)`: the signature of a generic interface
/// applied to two arguments.
pub open spec fn pinterface_of_two(head: Seq<char>, first: Seq<char>, second: Seq<char>) -> Seq<char> {
    "pinterface("@ + head + ";"@ + first + ";"@ + second + ")"@
}

impl TypeModel {
    /// The identifier under which a generic definition is known, if this is one.
    pub open spec fn def_piid(self) -> Option<Guid> {
        match self {
            TypeModel::Generic { piid, .. } => Some(piid),
            TypeModel::Interface(iid) => Some(iid),
            _ => None,
        }
    }

    /// Whether this is the definition of one of the four asynchronous interfaces.
    pub open spec fn is_async_def(self) -> bool {
        match self.def_piid() {
            Some(piid) => is_async_piid(piid),
            None => false,
        }
    }

    /// Whether this is one of the four asynchronous shapes, written directly
    /// or as an instantiation of their generic definitions.
    pub open spec fn is_async(self) -> bool {
        match self {
            TypeModel::IAsyncAction
            | TypeModel::IAsyncActionWithProgress(_)
            | TypeModel::IAsyncOperation(_)
            | TypeModel::IAsyncOperationWithProgress(_, _) => true,
            TypeModel::Parameterized(def, _) => def.is_async_def(),
            _ => false,
        }
    }

    /// Whether this is one of the four asynchronous shapes written directly.
    pub open spec fn is_async_shape(self) -> bool {
        self is IAsyncAction || self is IAsyncActionWithProgress || self is IAsyncOperation
            || self is IAsyncOperationWithProgress
    }

    /// Whether the type, and every type inside it, has a signature. An
    /// untyped reference and the three types of the calling convention have none.
    pub open spec fn has_signature(self) -> bool
        decreases self,
    {
        match self {
            TypeModel::Object | TypeModel::HResult | TypeModel::OutValue(_) | TypeModel::ArrayOfIUnknown => false,
            TypeModel::Parameterized(def, args) => def.has_signature() && forall|i: int|
                0 <= i < args.len() ==> (#[trigger] args[i]).has_signature(),
            TypeModel::IAsyncActionWithProgress(p) => p.has_signature(),
            TypeModel::IAsyncOperation(t) => t.has_signature(),
            TypeModel::IAsyncOperationWithProgress(t, p) => t.has_signature() && p.has_signature(),
            _ => true,
        }
    }

    /// The signatures of the first `n` of `args`, each preceded by a semicolon.
    pub open spec fn args_signature(args: Seq<TypeModel>, n: nat) -> Seq<char>
        decreases args, n,
    {
        if n == 0 || n > args.len() {
            Seq::empty()
        } else {
            Self::args_signature(args, (n - 1) as nat) + seq![';'] + args[n - 1].signature()
        }
    }

    /// The canonical signature: a short code for a scalar, `string`, `g16`,
    /// the braced identifier of an interface or generic definition,
    /// `delegate({..})`, `rc(Name;{..})`, and for an instantiation
    /// `pinterface({..};arg1;arg2;...)` with the signatures of its arguments.
    pub open spec fn signature(self) -> Seq<char>
        decreases self, 0nat,
    {
        match self {
            TypeModel::Bool => "b1"@,
            TypeModel::I8 => "i1"@,
            TypeModel::U8 => "u1"@,
            TypeModel::I16 => "i2"@,
            TypeModel::U16 => "u2"@,
            TypeModel::I32 => "i4"@,
            TypeModel::U32 => "u4"@,
            TypeModel::I64 => "i8"@,
            TypeModel::U64 => "u8"@,
            TypeModel::F32 => "f4"@,
            TypeModel::F64 => "f8"@,
            TypeModel::Char16 => "c2"@,
            TypeModel::HString => "string"@,
            TypeModel::Guid => "g16"@,
            TypeModel::Interface(iid) => guid_braced(iid),
            TypeModel::Generic { piid, .. } => guid_braced(piid),
            TypeModel::Delegate(iid) => "delegate("@ + guid_braced(iid) + ")"@,
            TypeModel::RuntimeClass(name, iid) => "rc("@ + name + ";"@ + guid_braced(iid) + ")"@,
            TypeModel::Parameterized(def, args) => "pinterface("@ + def.signature() + Self::args_signature(
                args,
                args.len(),
            ) + ")"@,
            TypeModel::IAsyncAction => guid_braced(IASYNC_ACTION),
            TypeModel::IAsyncActionWithProgress(p) => pinterface_of_one(
                guid_braced(IASYNC_ACTION_WITH_PROGRESS),
                p.signature(),
            ),
            TypeModel::IAsyncOperation(t) => pinterface_of_one(
                guid_braced(IASYNC_OPERATION),
                t.signature(),
            ),
            TypeModel::IAsyncOperationWithProgress(t, p) => pinterface_of_two(
                guid_braced(IASYNC_OPERATION_WITH_PROGRESS),
                t.signature(),
                p.signature(),
            ),
            TypeModel::Object | TypeModel::HResult | TypeModel::OutValue(_) | TypeModel::ArrayOfIUnknown => Seq::empty(),
        }
    }

    /// Whether the identifier is derived from the signature rather than stored.
    pub open spec fn iid_is_derived(self) -> bool {
        self is Parameterized || self is IAsyncActionWithProgress || self is IAsyncOperation
            || self is IAsyncOperationWithProgress
    }

    /// The interface identifier: the stored one where the type carries one,
    /// the name-based identifier of the signature for an instantiation.
    pub open spec fn spec_iid(self) -> Option<Guid> {
        match self {
            TypeModel::Interface(iid) | TypeModel::Delegate(iid) | TypeModel::RuntimeClass(_, iid) => Some(iid),
            TypeModel::IAsyncAction => Some(IASYNC_ACTION),
            _ => if self.iid_is_derived() {
                Some(signature_guid(self.signature()))
            } else {
                None
            },
        }
    }

    /// The signature of the completion handler of an asynchronous shape with
    /// type arguments.
    pub open spec fn handler_signature(self) -> Seq<char> {
        match self {
            TypeModel::IAsyncOperation(t) => pinterface_of_one(
                guid_braced(ASYNC_OPERATION_COMPLETED_HANDLER),
                t.signature(),
            ),
            TypeModel::IAsyncActionWithProgress(p) => pinterface_of_one(
                guid_braced(ASYNC_ACTION_WITH_PROGRESS_COMPLETED_HANDLER),
                p.signature(),
            ),
            TypeModel::IAsyncOperationWithProgress(t, p) => pinterface_of_two(
                guid_braced(ASYNC_OPERATION_WITH_PROGRESS_COMPLETED_HANDLER),
                t.signature(),
                p.signature(),
            ),
            _ => Seq::empty(),
        }
    }

    /// Whether the handler's identifier is derived from a signature.
    pub open spec fn handler_is_derived(self) -> bool {
        self is IAsyncActionWithProgress || self is IAsyncOperation || self is IAsyncOperationWithProgress
    }

    /// The identifier of the completion handler that the shape's completion
    /// must be registered with; none for any other type.
    pub open spec fn spec_completed_handler_iid(self) -> Option<Guid> {
        match self {
            TypeModel::IAsyncAction => Some(ASYNC_ACTION_COMPLETED_HANDLER),
            _ => if self.handler_is_derived() {
                Some(signature_guid(self.handler_signature()))
            } else {
                None
            },
        }
    }

    /// The raw category of a value of this type. A generic definition has none.
    pub open spec fn spec_abi_type(self) -> AbiType {
        match self {
            TypeModel::Bool => AbiType::Bool,
            TypeModel::I8 => AbiType::I8,
            TypeModel::U8 => AbiType::U8,
            TypeModel::I16 => AbiType::I16,
            TypeModel::U16 | TypeModel::Char16 => AbiType::U16,
            TypeModel::I32 | TypeModel::HResult => AbiType::I32,
            TypeModel::U32 => AbiType::U32,
            TypeModel::I64 => AbiType::I64,
            TypeModel::U64 => AbiType::U64,
            TypeModel::F32 => AbiType::F32,
            TypeModel::F64 => AbiType::F64,
            _ => AbiType::Ptr,
        }
    }

    /// The zero of the type, for the types that have one: a scalar, a string,
    /// and an interface reference of any kind. An identifier value, a generic
    /// definition, an instantiation, an asynchronous shape and the three types
    /// of the calling convention have none.
    pub open spec fn spec_default_value(self) -> Option<ValueModel> {
        match self {
            TypeModel::Bool => Some(ValueModel::Bool(false)),
            TypeModel::I8 => Some(ValueModel::I8(0)),
            TypeModel::U8 => Some(ValueModel::U8(0)),
            TypeModel::I16 => Some(ValueModel::I16(0)),
            TypeModel::U16 | TypeModel::Char16 => Some(ValueModel::U16(0)),
            TypeModel::I32 => Some(ValueModel::I32(0)),
            TypeModel::U32 => Some(ValueModel::U32(0)),
            TypeModel::I64 => Some(ValueModel::I64(0)),
            TypeModel::U64 => Some(ValueModel::U64(0)),
            TypeModel::F32 => Some(ValueModel::F32(0)),
            TypeModel::F64 => Some(ValueModel::F64(0)),
            TypeModel::HString => Some(ValueModel::HString(0)),
            TypeModel::Object
            | TypeModel::Interface(_)
            | TypeModel::Delegate(_)
            | TypeModel::RuntimeClass(_, _) => Some(ValueModel::Object(0)),
            _ => None,
        }
    }

    /// Whether a default value can be made.
    pub open spec fn has_default(self) -> bool {
        self.spec_default_value() is Some
    }

    /// How an output of this type is read from a pointer: a scalar or a
    /// status through the pointer, a string or a reference of any kind as the
    /// pointer itself. An identifier value, a generic definition, an output
    /// slot and an array of references cannot be read.
    pub open spec fn spec_out_read(self) -> Result<OutRead, ErrorModel> {
        match self {
            TypeModel::Guid
            | TypeModel::Generic { .. }
            | TypeModel::OutValue(_)
            | TypeModel::ArrayOfIUnknown => Err(ErrorModel::InvalidTypeAbiToWinRT(self, AbiType::Ptr)),
            _ => if self.spec_abi_type() == AbiType::Ptr {
                Ok(OutRead::Pointer)
            } else {
                Ok(OutRead::Scalar(self.spec_abi_type()))
            },
        }
    }

    /// The first type argument, or an untyped reference where there is none.
    pub open spec fn arg_or_object(args: Seq<TypeModel>, i: int) -> TypeModel {
        if 0 <= i < args.len() {
            args[i]
        } else {
            TypeModel::Object
        }
    }

    /// The asynchronous value that a reference of the instantiation
    /// `def<args>` stands for: the shape that `def` names, with the type
    /// arguments it has. Any other definition is not an asynchronous interface.
    pub open spec fn spec_async_value(raw: usize, def: TypeModel, args: Seq<TypeModel>) -> Result<
        ValueModel,
        ErrorModel,
    > {
        match def.def_piid() {
            None => Err(ErrorModel::WindowsError(E_NOINTERFACE)),
            Some(piid) => if piid == IASYNC_ACTION {
                Ok(ValueModel::Async(raw, TypeModel::IAsyncAction))
            } else if piid == IASYNC_OPERATION {
                Ok(
                    ValueModel::Async(
                        raw,
                        TypeModel::IAsyncOperation(Box::new(Self::arg_or_object(args, 0))),
                    ),
                )
            } else if piid == IASYNC_ACTION_WITH_PROGRESS {
                Ok(
                    ValueModel::Async(
                        raw,
                        TypeModel::IAsyncActionWithProgress(Box::new(Self::arg_or_object(args, 0))),
                    ),
                )
            } else if piid == IASYNC_OPERATION_WITH_PROGRESS {
                Ok(
                    ValueModel::Async(
                        raw,
                        TypeModel::IAsyncOperationWithProgress(
                            Box::new(Self::arg_or_object(args, 0)),
                            Box::new(Self::arg_or_object(args, 1)),
                        ),
                    ),
                )
            } else {
                Err(ErrorModel::WindowsError(E_NOINTERFACE))
            },
        }
    }

    /// The typed value that the raw output `out` stands for. A raw value of
    /// another category than the type's is an error, and so is any raw value
    /// for an output slot.
    pub open spec fn spec_from_out_value(self, out: AbiValue) -> Result<ValueModel, ErrorModel> {
        let mismatch = Err(ErrorModel::InvalidTypeAbiToWinRT(self, out.spec_abi_type()));
        match self {
            TypeModel::Bool => match out {
                AbiValue::Bool(v) => Ok(ValueModel::Bool(v != 0)),
                _ => mismatch,
            },
            TypeModel::I8 => match out {
                AbiValue::I8(v) => Ok(ValueModel::I8(v)),
                _ => mismatch,
            },
            TypeModel::U8 => match out {
                AbiValue::U8(v) => Ok(ValueModel::U8(v)),
                _ => mismatch,
            },
            TypeModel::I16 => match out {
                AbiValue::I16(v) => Ok(ValueModel::I16(v)),
                _ => mismatch,
            },
            TypeModel::U16 | TypeModel::Char16 => match out {
                AbiValue::U16(v) => Ok(ValueModel::U16(v)),
                _ => mismatch,
            },
            TypeModel::I32 => match out {
                AbiValue::I32(v) => Ok(ValueModel::I32(v)),
                _ => mismatch,
            },
            TypeModel::U32 => match out {
                AbiValue::U32(v) => Ok(ValueModel::U32(v)),
                _ => mismatch,
            },
            TypeModel::I64 => match out {
                AbiValue::I64(v) => Ok(ValueModel::I64(v)),
                _ => mismatch,
            },
            TypeModel::U64 => match out {
                AbiValue::U64(v) => Ok(ValueModel::U64(v)),
                _ => mismatch,
            },
            TypeModel::F32 => match out {
                AbiValue::F32(v) => Ok(ValueModel::F32(v)),
                _ => mismatch,
            },
            TypeModel::F64 => match out {
                AbiValue::F64(v) => Ok(ValueModel::F64(v)),
                _ => mismatch,
            },
            TypeModel::Object | TypeModel::Interface(_) | TypeModel::Delegate(_) | TypeModel::RuntimeClass(_, _) => match out {
                AbiValue::Pointer(p) => Ok(ValueModel::Object(p)),
                _ => mismatch,
            },
            TypeModel::HString => match out {
                AbiValue::Pointer(p) => Ok(ValueModel::HString(p)),
                _ => mismatch,
            },
            TypeModel::HResult => match out {
                AbiValue::I32(hr) => Ok(ValueModel::HResult(hr)),
                _ => mismatch,
            },
            TypeModel::Parameterized(def, args) => match out {
                AbiValue::Pointer(p) => if def.is_async_def() {
                    Self::spec_async_value(p, *def, args)
                } else {
                    Ok(ValueModel::Object(p))
                },
                _ => mismatch,
            },
            TypeModel::IAsyncAction
            | TypeModel::IAsyncActionWithProgress(_)
            | TypeModel::IAsyncOperation(_)
            | TypeModel::IAsyncOperationWithProgress(_, _) => match out {
                AbiValue::Pointer(p) => Ok(ValueModel::Async(p, self)),
                _ => mismatch,
            },
            TypeModel::OutValue(_) => Err(ErrorModel::InvalidNestedOutType(self)),
            TypeModel::Guid | TypeModel::Generic { .. } | TypeModel::ArrayOfIUnknown => mismatch,
        }
    }
}

/// How an output of a type is read from the pointer that a fixed-shape call
/// left: a scalar of a category through the pointer, or the pointer itself
/// as the value.
#[derive(Debug, Clone, Copy, PartialEq, Eq)]
pub enum OutRead {
    Scalar(AbiType),
    Pointer,
}

/// The models of a result's value or error.
pub open spec fn result_model(r: Result<WinRTValue, Error>) -> Result<ValueModel, ErrorModel> {
    match r {
        Ok(v) => Ok(v@),
        Err(e) => Err(e@),
    }
}

impl Clone for WinRTType {
    fn clone(&self) -> (res: Self)
        ensures
            res@ == self@,
        decreases self,
    {
        match self {
            WinRTType::Bool => WinRTType::Bool,
            WinRTType::I8 => WinRTType::I8,
            WinRTType::U8 => WinRTType::U8,
            WinRTType::I16 => WinRTType::I16,
            WinRTType::U16 => WinRTType::U16,
            WinRTType::I32 => WinRTType::I32,
            WinRTType::U32 => WinRTType::U32,
            WinRTType::I64 => WinRTType::I64,
            WinRTType::U64 => WinRTType::U64,
            WinRTType::F32 => WinRTType::F32,
            WinRTType::F64 => WinRTType::F64,
            WinRTType::Char16 => WinRTType::Char16,
            WinRTType::HString => WinRTType::HString,
            WinRTType::Guid => WinRTType::Guid,
            WinRTType::Object => WinRTType::Object,
            WinRTType::Interface(iid) => WinRTType::Interface(*iid),
            WinRTType::Delegate(iid) => WinRTType::Delegate(*iid),
            WinRTType::RuntimeClass(name, iid) => WinRTType::RuntimeClass(name.clone(), *iid),
            WinRTType::Generic { piid, arity } => WinRTType::Generic { piid: *piid, arity: *arity },
            WinRTType::Parameterized(def, args) => {
                let def_copy = (**def).clone();
                let mut copies: Vec<WinRTType> = Vec::new();
                let mut i: usize = 0;
                while i < args.len()
                    invariant
                        i <= args@.len(),
                        copies@.len() == i,
                        forall|j: int| 0 <= j < i ==> (#[trigger] copies@[j])@ == args@[j]@,
                        decreases_to!(self => args),
                    decreases args@.len() - i,
                {
                    copies.push(args[i].clone());
                    i += 1;
                }
                let res = WinRTType::Parameterized(Box::new(def_copy), copies);
                proof {
                    assert(res@->Parameterized_1 =~= self@->Parameterized_1);
                }
                res
            },
            WinRTType::IAsyncAction => WinRTType::IAsyncAction,
            WinRTType::IAsyncActionWithProgress(p) => WinRTType::IAsyncActionWithProgress(
                Box::new((**p).clone()),
            ),
            WinRTType::IAsyncOperation(t) => WinRTType::IAsyncOperation(Box::new((**t).clone())),
            WinRTType::IAsyncOperationWithProgress(t, p) => WinRTType::IAsyncOperationWithProgress(
                Box::new((**t).clone()),
                Box::new((**p).clone()),
            ),
            WinRTType::HResult => WinRTType::HResult,
            WinRTType::OutValue(inner) => WinRTType::OutValue(Box::new((**inner).clone())),
            WinRTType::ArrayOfIUnknown => WinRTType::ArrayOfIUnknown,
        }
    }
}

/// `pinterface(head`, to be followed by the arguments.
fn pinterface_open(head: &str) -> (s: String)
    ensures
        s@ == "pinterface("@ + head@,
{
    let mut s = String::from_str("pinterface(");
    s.append(head);
    s
}

impl WinRTType {
    /// Whether this is one of the four asynchronous shapes.
    pub fn is_async(&self) -> (b: bool)
        ensures
            b == self@.is_async(),
    {
        match self {
            WinRTType::IAsyncAction
            | WinRTType::IAsyncActionWithProgress(_)
            | WinRTType::IAsyncOperation(_)
            | WinRTType::IAsyncOperationWithProgress(_, _) => true,
            WinRTType::Parameterized(def, _) => Self::is_async_def(def),
            _ => false,
        }
    }

    /// Whether `generic_def` is the definition of one of the four
    /// asynchronous interfaces.
    pub fn is_async_def(generic_def: &WinRTType) -> (b: bool)
        ensures
            b == generic_def@.is_async_def(),
    {
        let piid: Guid = match generic_def {
            WinRTType::Generic { piid, .. } => *piid,
            WinRTType::Interface(iid) => *iid,
            _ => {
                return false;
            },
        };
        piid == IASYNC_ACTION || piid == IASYNC_OPERATION || piid == IASYNC_ACTION_WITH_PROGRESS
            || piid == IASYNC_OPERATION_WITH_PROGRESS
    }

    /// Whether the type, and every type inside it, has a signature.
    pub fn has_signature(&self) -> (b: bool)
        ensures
            b == self@.has_signature(),
        decreases self,
    {
        match self {
            WinRTType::Object | WinRTType::HResult | WinRTType::OutValue(_) | WinRTType::ArrayOfIUnknown => false,
            WinRTType::Parameterized(def, args) => {
                if !def.has_signature() {
                    return false;
                }
                let ghost margs = self@->Parameterized_1;
                let mut i: usize = 0;
                while i < args.len()
                    invariant
                        i <= args@.len(),
                        margs.len() == args@.len(),
                        self@ is Parameterized,
                        margs == self@->Parameterized_1,
                        forall|j: int| 0 <= j < args@.len() ==> margs[j] == (#[trigger] args@[j])@,
                        forall|j: int| 0 <= j < i ==> (#[trigger] margs[j]).has_signature(),
                        decreases_to!(self => args),
                    decreases args@.len() - i,
                {
                    if !args[i].has_signature() {
                        proof {
                            assert(!margs[i as int].has_signature());
                        }
                        return false;
                    }
                    i += 1;
                }
                true
            },
            WinRTType::IAsyncActionWithProgress(p) => p.has_signature(),
            WinRTType::IAsyncOperation(t) => t.has_signature(),
            WinRTType::IAsyncOperationWithProgress(t, p) => t.has_signature() && p.has_signature(),
            _ => true,
        }
    }

    /// The signature of the completion handler of an asynchronous shape
    /// with type arguments.
    pub fn handler_signature_string(&self) -> (s: String)
        requires
            self@.handler_is_derived(),
            self@.has_signature(),
        ensures
            s@ == self@.handler_signature(),
    {
        match self {
            WinRTType::IAsyncOperation(t) => {
                let head = format_guid_braced(&ASYNC_OPERATION_COMPLETED_HANDLER);
                let part = t.signature_string();
                pinterface_one(head.as_str(), part.as_str())
            },
            WinRTType::IAsyncActionWithProgress(p) => {
                let head = format_guid_braced(&ASYNC_ACTION_WITH_PROGRESS_COMPLETED_HANDLER);
                let part = p.signature_string();
                pinterface_one(head.as_str(), part.as_str())
            },
            WinRTType::IAsyncOperationWithProgress(t, p) => {
                let head = format_guid_braced(&ASYNC_OPERATION_WITH_PROGRESS_COMPLETED_HANDLER);
                let first = t.signature_string();
                let second = p.signature_string();
                pinterface_two(head.as_str(), first.as_str(), second.as_str())
            },
            _ => String::new(),
        }
    }

    /// The canonical signature of the type.
    pub fn signature_string(&self) -> (s: String)
        requires
            self@.has_signature(),
        ensures
            s@ == self@.signature(),
        decreases self,
    {
        match self {
            WinRTType::Bool => String::from_str("b1"),
            WinRTType::I8 => String::from_str("i1"),
            WinRTType::U8 => String::from_str("u1"),
            WinRTType::I16 => String::from_str("i2"),
            WinRTType::U16 => String::from_str("u2"),
            WinRTType::I32 => String::from_str("i4"),
            WinRTType::U32 => String::from_str("u4"),
            WinRTType::I64 => String::from_str("i8"),
            WinRTType::U64 => String::from_str("u8"),
            WinRTType::F32 => String::from_str("f4"),
            WinRTType::F64 => String::from_str("f8"),
            WinRTType::Char16 => String::from_str("c2"),
            WinRTType::HString => String::from_str("string"),
            WinRTType::Guid => String::from_str("g16"),
            WinRTType::Interface(iid) => format_guid_braced(iid),
            WinRTType::Generic { piid, .. } => format_guid_braced(piid),
            WinRTType::Delegate(iid) => {
                let mut s = String::from_str("delegate(");
                let braced = format_guid_braced(iid);
                s.append(braced.as_str());
                s.append(")");
                proof {
                    assert(s@ =~= self@.signature());
                }
                s
            },
            WinRTType::RuntimeClass(name, iid) => {
                let mut s = String::from_str("rc(");
                s.append(name.as_str());
                s.append(";");
                let braced = format_guid_braced(iid);
                s.append(braced.as_str());
                s.append(")");
                proof {
                    assert(s@ =~= self@.signature());
                }
                s
            },
            WinRTType::Parameterized(def, args) => {
                let head = def.signature_string();
                let mut s = pinterface_open(head.as_str());
                let ghost margs = self@->Parameterized_1;
                let mut i: usize = 0;
                proof {
                    reveal_strlit(";");
                    assert forall|j: int| 0 <= j < args@.len() implies (#[trigger] args@[j])@.has_signature()
                        && margs[j] == args@[j]@ by {
                        assert(margs[j] == args@[j].model());
                        assert(margs[j].has_signature());
                    }
                    assert(s@ =~= "pinterface("@ + head@ + TypeModel::args_signature(margs, 0));
                }
                while i < args.len()
                    invariant
                        i <= args@.len(),
                        margs.len() == args@.len(),
                        forall|j: int|
                            0 <= j < args@.len() ==> (#[trigger] args@[j])@.has_signature() && margs[j]
                                == args@[j]@,
                        s@ == "pinterface("@ + head@ + TypeModel::args_signature(margs, i as nat),
                        ";"@ == seq![';'],
                        decreases_to!(self => args),
                    decreases args@.len() - i,
                {
                    let part = args[i].signature_string();
                    s.append(";");
                    s.append(part.as_str());
                    proof {
                        assert(s@ =~= "pinterface("@ + head@ + TypeModel::args_signature(
                            margs,
                            (i + 1) as nat,
                        ));
                    }
                    i += 1;
                }
                s.append(")");
                proof {
                    let mdef = *self@->Parameterized_0;
                    assert(mdef == def.model());
                    assert(s@ =~= self@.signature());
                }
                s
            },
            WinRTType::IAsyncAction => format_guid_braced(&IASYNC_ACTION),
            WinRTType::IAsyncActionWithProgress(p) => {
                let head = format_guid_braced(&IASYNC_ACTION_WITH_PROGRESS);
                let part = p.signature_string();
                pinterface_one(head.as_str(), part.as_str())
            },
            WinRTType::IAsyncOperation(t) => {
                let head = format_guid_braced(&IASYNC_OPERATION);
                let part = t.signature_string();
                pinterface_one(head.as_str(), part.as_str())
            },
            WinRTType::IAsyncOperationWithProgress(t, p) => {
                let head = format_guid_braced(&IASYNC_OPERATION_WITH_PROGRESS);
                let first = t.signature_string();
                let second = p.signature_string();
                pinterface_two(head.as_str(), first.as_str(), second.as_str())
            },
            WinRTType::Object | WinRTType::HResult | WinRTType::OutValue(_) | WinRTType::ArrayOfIUnknown => String::new(),
        }
    }

    /// The interface identifier of the type, if it has one. For an
    /// instantiation it is derived from the signature each time; a derived
    /// identifier has the version digit 5 and the variant bits `10`.
    pub fn iid(&self) -> (r: Option<Guid>)
        requires
            self@.iid_is_derived() ==> self@.has_signature() && encode_utf8(self@.signature()).len()
                <= MAX_SIGNATURE_BYTES,
        ensures
            r == self@.spec_iid(),
            self@.iid_is_derived() ==> (r->Some_0 >> 76) & 0xf == 5 && (r->Some_0 >> 62) & 0x3 == 2,
    {
        match self {
            WinRTType::Interface(iid) | WinRTType::Delegate(iid) | WinRTType::RuntimeClass(_, iid) => Some(*iid),
            WinRTType::IAsyncAction => Some(IASYNC_ACTION),
            WinRTType::Parameterized(_, _)
            | WinRTType::IAsyncActionWithProgress(_)
            | WinRTType::IAsyncOperation(_)
            | WinRTType::IAsyncOperationWithProgress(_, _) => {
                let sig = self.signature_string();
                Some(guid_of_signature(sig.as_str()))
            },
            _ => None,
        }
    }

    /// The identifier of the completion handler of an asynchronous shape;
    /// `None` for any other type.
    pub fn completed_handler_iid(&self) -> (r: Option<Guid>)
        requires
            self@.handler_is_derived() ==> self@.has_signature() && encode_utf8(
                self@.handler_signature(),
            ).len() <= MAX_SIGNATURE_BYTES,
        ensures
            r == self@.spec_completed_handler_iid(),
    {
        match self {
            WinRTType::IAsyncAction => Some(ASYNC_ACTION_COMPLETED_HANDLER),
            WinRTType::IAsyncOperation(_)
            | WinRTType::IAsyncActionWithProgress(_)
            | WinRTType::IAsyncOperationWithProgress(_, _) => {
                let sig = self.handler_signature_string();
                Some(guid_of_signature(sig.as_str()))
            },
            _ => None,
        }
    }

    /// The raw category in which a value of this type travels.
    pub fn abi_type(&self) -> (t: AbiType)
        requires
            !(self@ is Generic),
        ensures
            t == self@.spec_abi_type(),
    {
        match self {
            WinRTType::Bool => AbiType::Bool,
            WinRTType::I8 => AbiType::I8,
            WinRTType::U8 => AbiType::U8,
            WinRTType::I16 => AbiType::I16,
            WinRTType::U16 | WinRTType::Char16 => AbiType::U16,
            WinRTType::I32 | WinRTType::HResult => AbiType::I32,
            WinRTType::U32 => AbiType::U32,
            WinRTType::I64 => AbiType::I64,
            WinRTType::U64 => AbiType::U64,
            WinRTType::F32 => AbiType::F32,
            WinRTType::F64 => AbiType::F64,
            _ => AbiType::Ptr,
        }
    }

    /// Whether a default value can be made: for a scalar, a string and an
    /// interface reference of any kind, and for no other type.
    pub fn has_default(&self) -> (b: bool)
        ensures
            b == self@.has_default(),
    {
        match self {
            WinRTType::Bool
            | WinRTType::I8
            | WinRTType::U8
            | WinRTType::I16
            | WinRTType::U16
            | WinRTType::Char16
            | WinRTType::I32
            | WinRTType::U32
            | WinRTType::I64
            | WinRTType::U64
            | WinRTType::F32
            | WinRTType::F64
            | WinRTType::HString
            | WinRTType::Object
            | WinRTType::Interface(_)
            | WinRTType::Delegate(_)
            | WinRTType::RuntimeClass(_, _) => true,
            _ => false,
        }
    }

    /// The zero of the type: false, 0, the empty string, the null reference.
    pub fn default_value(&self) -> (v: WinRTValue)
        requires
            self@.has_default(),
        ensures
            Some(v@) == self@.spec_default_value(),
    {
        match self {
            WinRTType::Bool => WinRTValue::Bool(false),
            WinRTType::I8 => WinRTValue::I8(0),
            WinRTType::U8 => WinRTValue::U8(0),
            WinRTType::I16 => WinRTValue::I16(0),
            WinRTType::U16 | WinRTType::Char16 => WinRTValue::U16(0),
            WinRTType::I32 => WinRTValue::I32(0),
            WinRTType::U32 => WinRTValue::U32(0),
            WinRTType::I64 => WinRTValue::I64(0),
            WinRTType::U64 => WinRTValue::U64(0),
            WinRTType::F32 => WinRTValue::F32(0),
            WinRTType::F64 => WinRTValue::F64(0),
            WinRTType::HString => WinRTValue::HString(0),
            _ => WinRTValue::Object(0),
        }
    }

    /// How an output of this type is read from the pointer that a call left,
    /// or the error for a type that cannot be an output of such a call.
    pub fn out_read(&self) -> (r: Result<OutRead, Error>)
        ensures
            match self@.spec_out_read() {
                Ok(read) => r == Ok::<OutRead, Error>(read),
                Err(e) => (r matches Err(x) && x@ == e),
            },
    {
        match self {
            WinRTType::Guid
            | WinRTType::Generic { .. }
            | WinRTType::OutValue(_)
            | WinRTType::ArrayOfIUnknown => Err(
                Error::InvalidTypeAbiToWinRT(self.clone(), AbiType::Ptr),
            ),
            _ => {
                let category = self.abi_type();
                match category {
                    AbiType::Ptr => Ok(OutRead::Pointer),
                    _ => Ok(OutRead::Scalar(category)),
                }
            },
        }
    }

    /// Converts the raw output `out` of a call into a value of this type.
    pub fn from_out_value(&self, out: &AbiValue) -> (r: Result<WinRTValue, Error>)
        ensures
            result_model(r) == self@.spec_from_out_value(*out),
    {
        match self {
            WinRTType::Bool => match out {
                AbiValue::Bool(v) => Ok(WinRTValue::Bool(*v != 0)),
                _ => self.abi_mismatch(out),
            },
            WinRTType::I8 => match out {
                AbiValue::I8(v) => Ok(WinRTValue::I8(*v)),
                _ => self.abi_mismatch(out),
            },
            WinRTType::U8 => match out {
                AbiValue::U8(v) => Ok(WinRTValue::U8(*v)),
                _ => self.abi_mismatch(out),
            },
            WinRTType::I16 => match out {
                AbiValue::I16(v) => Ok(WinRTValue::I16(*v)),
                _ => self.abi_mismatch(out),
            },
            WinRTType::U16 | WinRTType::Char16 => match out {
                AbiValue::U16(v) => Ok(WinRTValue::U16(*v)),
                _ => self.abi_mismatch(out),
            },
            WinRTType::I32 => match out {
                AbiValue::I32(v) => Ok(WinRTValue::I32(*v)),
                _ => self.abi_mismatch(out),
            },
            WinRTType::U32 => match out {
                AbiValue::U32(v) => Ok(WinRTValue::U32(*v)),
                _ => self.abi_mismatch(out),
            },
            WinRTType::I64 => match out {
                AbiValue::I64(v) => Ok(WinRTValue::I64(*v)),
                _ => self.abi_mismatch(out),
            },
            WinRTType::U64 => match out {
                AbiValue::U64(v) => Ok(WinRTValue::U64(*v)),
                _ => self.abi_mismatch(out),
            },
            WinRTType::F32 => match out {
                AbiValue::F32(v) => Ok(WinRTValue::F32(*v)),
                _ => self.abi_mismatch(out),
            },
            WinRTType::F64 => match out {
                AbiValue::F64(v) => Ok(WinRTValue::F64(*v)),
                _ => self.abi_mismatch(out),
            },
            WinRTType::Object | WinRTType::Interface(_) | WinRTType::Delegate(_) | WinRTType::RuntimeClass(_, _) => match out {
                AbiValue::Pointer(p) => Ok(WinRTValue::Object(*p)),
                _ => self.abi_mismatch(out),
            },
            WinRTType::HString => match out {
                AbiValue::Pointer(p) => Ok(WinRTValue::HString(*p)),
                _ => self.abi_mismatch(out),
            },
            WinRTType::HResult => match out {
                AbiValue::I32(hr) => Ok(WinRTValue::HResult(*hr)),
                _ => self.abi_mismatch(out),
            },
            WinRTType::Parameterized(def, args) => match out {
                AbiValue::Pointer(p) => {
                    if Self::is_async_def(def) {
                        Self::make_async_value(*p, def, args)
                    } else {
                        Ok(WinRTValue::Object(*p))
                    }
                },
                _ => self.abi_mismatch(out),
            },
            WinRTType::IAsyncAction
            | WinRTType::IAsyncActionWithProgress(_)
            | WinRTType::IAsyncOperation(_)
            | WinRTType::IAsyncOperationWithProgress(_, _) => match out {
                AbiValue::Pointer(p) => Ok(
                    WinRTValue::Async(AsyncInfo { info: *p, async_type: self.clone() }),
                ),
                _ => self.abi_mismatch(out),
            },
            WinRTType::OutValue(_) => Err(Error::InvalidNestedOutType(self.clone())),
            WinRTType::Guid | WinRTType::Generic { .. } | WinRTType::ArrayOfIUnknown => self.abi_mismatch(
                out,
            ),
        }
    }

    /// The error for a raw value of another category than the type's.
    fn abi_mismatch(&self, out: &AbiValue) -> (r: Result<WinRTValue, Error>)
        ensures
            result_model(r) == Err::<ValueModel, ErrorModel>(
                ErrorModel::InvalidTypeAbiToWinRT(self@, out.spec_abi_type()),
            ),
    {
        Err(Error::InvalidTypeAbiToWinRT(self.clone(), out.abi_type()))
    }

    /// The asynchronous value for a reference `raw` of the instantiation of
    /// `generic_def` with `args`.
    pub fn make_async_value(raw: usize, generic_def: &WinRTType, args: &Vec<WinRTType>) -> (r: Result<
        WinRTValue,
        Error,
    >)
        ensures
            result_model(r) == TypeModel::spec_async_value(
                raw,
                generic_def@,
                Seq::new(
                    args@.len(),
                    |i: int|
                        if 0 <= i < args@.len() {
                            args@[i]@
                        } else {
                            TypeModel::Object
                        },
                ),
            ),
    {
        let piid: Guid = match generic_def {
            WinRTType::Generic { piid, .. } => *piid,
            WinRTType::Interface(iid) => *iid,
            _ => {
                return Err(Error::WindowsError(E_NOINTERFACE));
            },
        };
        let async_type = if piid == IASYNC_ACTION {
            WinRTType::IAsyncAction
        } else if piid == IASYNC_OPERATION {
            WinRTType::IAsyncOperation(Box::new(Self::arg_or_object(args, 0)))
        } else if piid == IASYNC_ACTION_WITH_PROGRESS {
            WinRTType::IAsyncActionWithProgress(Box::new(Self::arg_or_object(args, 0)))
        } else if piid == IASYNC_OPERATION_WITH_PROGRESS {
            WinRTType::IAsyncOperationWithProgress(
                Box::new(Self::arg_or_object(args, 0)),
                Box::new(Self::arg_or_object(args, 1)),
            )
        } else {
            return Err(Error::WindowsError(E_NOINTERFACE));
        };
        Ok(WinRTValue::Async(AsyncInfo { info: raw, async_type }))
    }

    /// A copy of type argument `i`, or an untyped reference where there is none.
    fn arg_or_object(args: &Vec<WinRTType>, i: usize) -> (t: WinRTType)
        ensures
            t@ == (if i < args@.len() {
                args@[i as int]@
            } else {
                TypeModel::Object
            }),
    {
        if i < args.len() {
            args[i].clone()
        } else {
            WinRTType::Object
        }
    }
}

/// `pinterface(head;part)`.
fn pinterface_one(head: &str, part: &str) -> (s: String)
    ensures
        s@ == pinterface_of_one(head@, part@),
{
    let mut s = pinterface_open(head);
    s.append(";");
    s.append(part);
    s.append(")");
    proof {
        assert(s@ =~= pinterface_of_one(head@, part@));
    }
    s
}

/// `pinterface(head;first;second)`.
fn pinterface_two(head: &str, first: &str, second: &str) -> (s: String)
    ensures
        s@ == pinterface_of_two(head@, first@, second@),
{
    let mut s = pinterface_open(head);
    s.append(";");
    s.append(first);
    s.append(";");
    s.append(second);
    s.append(")");
    proof {
        assert(s@ =~= pinterface_of_two(head@, first@, second@));
    }
    s
}

/// The arguments' part of the signature of an instantiation with one
/// argument: a semicolon and the argument's signature.
pub proof fn lemma_args_signature_of_one(t: TypeModel)
    ensures
        TypeModel::args_signature(seq![t], 1) == ";"@ + t.signature(),
{
    reveal_strlit(";");
    let args = seq![t];
    assert(args.len() == 1 && args[0] == t);
    assert(TypeModel::args_signature(args, 0) =~= Seq::<char>::empty());
    assert(TypeModel::args_signature(args, 1) == TypeModel::args_signature(args, 0) + seq![';']
        + args[0].signature());
    assert(TypeModel::args_signature(args, 1) =~= ";"@ + t.signature());
}

/// The arguments' part of the signature of an instantiation with two
/// arguments: each argument's signature behind a semicolon, in order.
pub proof fn lemma_args_signature_of_two(t: TypeModel, p: TypeModel)
    ensures
        TypeModel::args_signature(seq![t, p], 2) == ";"@ + t.signature() + ";"@ + p.signature(),
{
    reveal_strlit(";");
    let args = seq![t, p];
    assert(args.len() == 2 && args[0] == t && args[1] == p);
    assert(TypeModel::args_signature(args, 0) =~= Seq::<char>::empty());
    assert(TypeModel::args_signature(args, 1) == TypeModel::args_signature(args, 0) + seq![';']
        + args[0].signature());
    assert(TypeModel::args_signature(args, 2) == TypeModel::args_signature(args, 1) + seq![';']
        + args[1].signature());
    assert(TypeModel::args_signature(args, 2) =~= ";"@ + t.signature() + ";"@ + p.signature());
}

/// Two types whose identifiers are derived have the same identifier where
/// they have the same signature: the identifier is not stored, and depends
/// on nothing else.
pub proof fn lemma_iid_follows_signature(a: TypeModel, b: TypeModel)
    requires
        a.iid_is_derived(),
        b.iid_is_derived(),
        a.signature() == b.signature(),
    ensures
        a.spec_iid() == b.spec_iid(),
{
}

/// A plain action has the signature and the identifier of the interface of
/// actions.
pub proof fn lemma_action_is_its_interface()
    ensures
        TypeModel::IAsyncAction.signature() == TypeModel::Interface(IASYNC_ACTION).signature(),
        TypeModel::IAsyncAction.spec_iid() == TypeModel::Interface(IASYNC_ACTION).spec_iid(),
        TypeModel::IAsyncAction.spec_iid() == Some(IASYNC_ACTION),
{
}

/// An operation that yields `t` is the generic interface of operations
/// applied to `t`: it has that instantiation's signature and identifier.
pub proof fn lemma_operation_is_instantiation(t: TypeModel)
    ensures
        TypeModel::IAsyncOperation(Box::new(t)).signature() == TypeModel::Parameterized(
            Box::new(TypeModel::Generic { piid: IASYNC_OPERATION, arity: 1 }),
            seq![t],
        ).signature(),
        TypeModel::IAsyncOperation(Box::new(t)).spec_iid() == TypeModel::Parameterized(
            Box::new(TypeModel::Generic { piid: IASYNC_OPERATION, arity: 1 }),
            seq![t],
        ).spec_iid(),
{
    lemma_args_signature_of_one(t);
    let def = TypeModel::Generic { piid: IASYNC_OPERATION, arity: 1 };
    let instance = TypeModel::Parameterized(Box::new(def), seq![t]);
    let shape = TypeModel::IAsyncOperation(Box::new(t));
    assert(def.signature() == guid_braced(IASYNC_OPERATION));
    assert(instance.signature() == "pinterface("@ + def.signature() + TypeModel::args_signature(
        seq![t],
        1,
    ) + ")"@);
    assert(shape.signature() == pinterface_of_one(guid_braced(IASYNC_OPERATION), t.signature()));
    assert(instance.signature() =~= shape.signature());
}

/// An action that reports progress as `p` is the generic interface of such
/// actions applied to `p`.
pub proof fn lemma_action_with_progress_is_instantiation(p: TypeModel)
    ensures
        TypeModel::IAsyncActionWithProgress(Box::new(p)).signature() == TypeModel::Parameterized(
            Box::new(TypeModel::Generic { piid: IASYNC_ACTION_WITH_PROGRESS, arity: 1 }),
            seq![p],
        ).signature(),
        TypeModel::IAsyncActionWithProgress(Box::new(p)).spec_iid() == TypeModel::Parameterized(
            Box::new(TypeModel::Generic { piid: IASYNC_ACTION_WITH_PROGRESS, arity: 1 }),
            seq![p],
        ).spec_iid(),
{
    lemma_args_signature_of_one(p);
    let def = TypeModel::Generic { piid: IASYNC_ACTION_WITH_PROGRESS, arity: 1 };
    let instance = TypeModel::Parameterized(Box::new(def), seq![p]);
    let shape = TypeModel::IAsyncActionWithProgress(Box::new(p));
    assert(def.signature() == guid_braced(IASYNC_ACTION_WITH_PROGRESS));
    assert(instance.signature() == "pinterface("@ + def.signature() + TypeModel::args_signature(
        seq![p],
        1,
    ) + ")"@);
    assert(shape.signature() == pinterface_of_one(
        guid_braced(IASYNC_ACTION_WITH_PROGRESS),
        p.signature(),
    ));
    assert(instance.signature() =~= shape.signature());
}

/// An operation that yields `t` and reports progress as `p` is the generic
/// interface of such operations applied to `t` and `p`.
pub proof fn lemma_operation_with_progress_is_instantiation(t: TypeModel, p: TypeModel)
    ensures
        TypeModel::IAsyncOperationWithProgress(Box::new(t), Box::new(p)).signature()
            == TypeModel::Parameterized(
            Box::new(TypeModel::Generic { piid: IASYNC_OPERATION_WITH_PROGRESS, arity: 2 }),
            seq![t, p],
        ).signature(),
        TypeModel::IAsyncOperationWithProgress(Box::new(t), Box::new(p)).spec_iid()
            == TypeModel::Parameterized(
            Box::new(TypeModel::Generic { piid: IASYNC_OPERATION_WITH_PROGRESS, arity: 2 }),
            seq![t, p],
        ).spec_iid(),
{
    lemma_args_signature_of_two(t, p);
    let def = TypeModel::Generic { piid: IASYNC_OPERATION_WITH_PROGRESS, arity: 2 };
    let instance = TypeModel::Parameterized(Box::new(def), seq![t, p]);
    let shape = TypeModel::IAsyncOperationWithProgress(Box::new(t), Box::new(p));
    assert(def.signature() == guid_braced(IASYNC_OPERATION_WITH_PROGRESS));
    assert(instance.signature() == "pinterface("@ + def.signature() + TypeModel::args_signature(
        seq![t, p],
        2,
    ) + ")"@);
    assert(shape.signature() == pinterface_of_two(
        guid_braced(IASYNC_OPERATION_WITH_PROGRESS),
        t.signature(),
        p.signature(),
    ));
    assert(instance.signature() =~= shape.signature());
}

} // verus!
