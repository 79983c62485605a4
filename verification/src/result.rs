//! The errors of the conversion layer and of a failed call.
use crate::abi::AbiType;
use crate::guid::{format_guid_braced, guid_braced, hex_digit, hex_digit_str};
use crate::types::{TypeModel, WinRTType};
use vstd::prelude::*;
use vstd::string::StringExecFns;

verus! {

#[derive(Debug, PartialEq, Eq)]
pub enum Error {
    /// A value that is no interface reference was used as one.
    ExpectObjectTypeError(WinRTType),
    /// A value of one type stood where another was expected: expected, found.
    InvalidType(WinRTType, WinRTType),
    /// An output slot was asked to be the type of an output.
    InvalidNestedOutType(WinRTType),
    /// A raw value of one category stood for a type of another.
    InvalidTypeAbiToWinRT(WinRTType, AbiType),
    /// The platform call failed with this status.
    WindowsError(i32),
}

/// The mathematical content of an `Error`.
pub enum ErrorModel {
    ExpectObjectTypeError(TypeModel),
    InvalidType(TypeModel, TypeModel),
    InvalidNestedOutType(TypeModel),
    InvalidTypeAbiToWinRT(TypeModel, AbiType),
    WindowsError(i32),
}

impl View for Error {
    type V = ErrorModel;

    open spec fn view(&self) -> ErrorModel {
        match self {
            Error::ExpectObjectTypeError(t) => ErrorModel::ExpectObjectTypeError(t@),
            Error::InvalidType(e, f) => ErrorModel::InvalidType(e@, f@),
            Error::InvalidNestedOutType(t) => ErrorModel::InvalidNestedOutType(t@),
            Error::InvalidTypeAbiToWinRT(t, a) => ErrorModel::InvalidTypeAbiToWinRT(t@, *a),
            Error::WindowsError(hr) => ErrorModel::WindowsError(*hr),
        }
    }
}


/// The name of the kind of a type.
pub open spec fn kind_name(t: TypeModel) -> Seq<char> {
    match t {
        TypeModel::Bool => "Bool"@,
        TypeModel::I8 => "I8"@,
        TypeModel::U8 => "U8"@,
        TypeModel::I16 => "I16"@,
        TypeModel::U16 => "U16"@,
        TypeModel::I32 => "I32"@,
        TypeModel::U32 => "U32"@,
        TypeModel::I64 => "I64"@,
        TypeModel::U64 => "U64"@,
        TypeModel::F32 => "F32"@,
        TypeModel::F64 => "F64"@,
        TypeModel::Char16 => "Char16"@,
        TypeModel::HString => "HString"@,
        TypeModel::Guid => "Guid"@,
        TypeModel::Object => "Object"@,
        TypeModel::Interface(_) => "Interface"@,
        TypeModel::Delegate(_) => "Delegate"@,
        TypeModel::RuntimeClass(_, _) => "RuntimeClass"@,
        TypeModel::Generic { .. } => "Generic"@,
        TypeModel::Parameterized(_, _) => "Parameterized"@,
        TypeModel::IAsyncAction => "IAsyncAction"@,
        TypeModel::IAsyncActionWithProgress(_) => "IAsyncActionWithProgress"@,
        TypeModel::IAsyncOperation(_) => "IAsyncOperation"@,
        TypeModel::IAsyncOperationWithProgress(_, _) => "IAsyncOperationWithProgress"@,
        TypeModel::HResult => "HResult"@,
        TypeModel::OutValue(_) => "OutValue"@,
        TypeModel::ArrayOfIUnknown => "ArrayOfIUnknown"@,
    }
}

/// The name of a raw category.
pub open spec fn abi_name(a: AbiType) -> Seq<char> {
    match a {
        AbiType::Bool => "Bool"@,
        AbiType::I8 => "I8"@,
        AbiType::U8 => "U8"@,
        AbiType::I16 => "I16"@,
        AbiType::U16 => "U16"@,
        AbiType::I32 => "I32"@,
        AbiType::U32 => "U32"@,
        AbiType::I64 => "I64"@,
        AbiType::U64 => "U64"@,
        AbiType::F32 => "F32"@,
        AbiType::F64 => "F64"@,
        AbiType::Ptr => "Ptr"@,
    }
}

/// The `i`-th of the eight hexadecimal digits of a status, as an unsigned
/// number, most significant first.
pub open spec fn status_nibble(status: i32, i: int) -> u8 {
    (((status as u32) >> ((4 * (7 - i)) as u32)) & 0xf) as u8
}

/// The eight hexadecimal digits of a status.
pub open spec fn status_hex(status: i32) -> Seq<char> {
    Seq::new(8, |i: int| hex_digit(status_nibble(status, i)))
}

/// The decimal digits of `n`.
pub open spec fn decimal(n: nat) -> Seq<char>
    decreases n,
{
    if n < 10 {
        seq![hex_digit(n as u8)]
    } else {
        decimal(n / 10) + seq![hex_digit((n % 10) as u8)]
    }
}

/// The descriptions of the first `n` of `args`, separated by a comma and a
/// space.
pub open spec fn args_description(args: Seq<TypeModel>, n: nat) -> Seq<char>
    decreases args, n,
{
    if n == 0 || n > args.len() {
        Seq::empty()
    } else if n == 1 {
        description(args[0])
    } else {
        args_description(args, (n - 1) as nat) + ", "@ + description(args[n - 1])
    }
}

/// The description of a type: the name of its kind and, in parentheses,
/// what the type carries: the braced identifier of an interface or
/// delegate, the name and identifier of a runtime class, the identifier and
/// arity of a generic definition, the definition and the bracketed
/// arguments of an instantiation, the type arguments of an asynchronous
/// shape, the type of an output slot.
pub open spec fn description(t: TypeModel) -> Seq<char>
    decreases t, 0nat,
{
    match t {
        TypeModel::Interface(iid) => "Interface("@ + guid_braced(iid) + ")"@,
        TypeModel::Delegate(iid) => "Delegate("@ + guid_braced(iid) + ")"@,
        TypeModel::RuntimeClass(name, iid) => "RuntimeClass("@ + name + ", "@ + guid_braced(iid) + ")"@,
        TypeModel::Generic { piid, arity } => "Generic("@ + guid_braced(piid) + ", "@ + decimal(
            arity as nat,
        ) + ")"@,
        TypeModel::Parameterized(def, args) => "Parameterized("@ + description(*def) + ", ["@
            + args_description(args, args.len()) + "])"@,
        TypeModel::IAsyncActionWithProgress(p) => "IAsyncActionWithProgress("@ + description(*p) + ")"@,
        TypeModel::IAsyncOperation(r) => "IAsyncOperation("@ + description(*r) + ")"@,
        TypeModel::IAsyncOperationWithProgress(r, p) => "IAsyncOperationWithProgress("@ + description(
            *r,
        ) + ", "@ + description(*p) + ")"@,
        TypeModel::OutValue(inner) => "OutValue("@ + description(*inner) + ")"@,
        _ => kind_name(t),
    }
}

impl ErrorModel {
    /// The text of the error.
    pub open spec fn message(self) -> Seq<char> {
        match self {
            ErrorModel::ExpectObjectTypeError(actual) => "Expected object type, found "@ + description(actual),
            ErrorModel::InvalidType(expected, actual) => "Invalid type: expected "@ + description(expected)
                + ", found "@ + description(actual),
            ErrorModel::InvalidNestedOutType(actual) => "Invalid nested out type: found "@ + description(
                actual,
            ),
            ErrorModel::InvalidTypeAbiToWinRT(expected, actual) => "Invalid type ABI to WinRT: expected "@
                + description(expected) + ", found "@ + abi_name(actual),
            ErrorModel::WindowsError(status) => "Windows error: 0x"@ + status_hex(status),
        }
    }
}

fn name_of_type(t: &WinRTType) -> (s: &'static str)
    ensures
        s@ == kind_name(t@),
{
    match t {
            WinRTType::Bool => "Bool",
            WinRTType::I8 => "I8",
            WinRTType::U8 => "U8",
            WinRTType::I16 => "I16",
            WinRTType::U16 => "U16",
            WinRTType::I32 => "I32",
            WinRTType::U32 => "U32",
            WinRTType::I64 => "I64",
            WinRTType::U64 => "U64",
            WinRTType::F32 => "F32",
            WinRTType::F64 => "F64",
            WinRTType::Char16 => "Char16",
            WinRTType::HString => "HString",
            WinRTType::Guid => "Guid",
            WinRTType::Object => "Object",
            WinRTType::Interface(_) => "Interface",
            WinRTType::Delegate(_) => "Delegate",
            WinRTType::RuntimeClass(_, _) => "RuntimeClass",
            WinRTType::Generic { .. } => "Generic",
            WinRTType::Parameterized(_, _) => "Parameterized",
            WinRTType::IAsyncAction => "IAsyncAction",
            WinRTType::IAsyncActionWithProgress(_) => "IAsyncActionWithProgress",
            WinRTType::IAsyncOperation(_) => "IAsyncOperation",
            WinRTType::IAsyncOperationWithProgress(_, _) => "IAsyncOperationWithProgress",
            WinRTType::HResult => "HResult",
            WinRTType::OutValue(_) => "OutValue",
            WinRTType::ArrayOfIUnknown => "ArrayOfIUnknown",
    }
}

fn name_of_abi(a: &AbiType) -> (s: &'static str)
    ensures
        s@ == abi_name(*a),
{
    match a {
            AbiType::Bool => "Bool",
            AbiType::I8 => "I8",
            AbiType::U8 => "U8",
            AbiType::I16 => "I16",
            AbiType::U16 => "U16",
            AbiType::I32 => "I32",
            AbiType::U32 => "U32",
            AbiType::I64 => "I64",
            AbiType::U64 => "U64",
            AbiType::F32 => "F32",
            AbiType::F64 => "F64",
            AbiType::Ptr => "Ptr",
    }
}

/// The decimal digits of `n`.
fn decimal_string(n: u32) -> (s: String)
    ensures
        s@ == decimal(n as nat),
    decreases n,
{
    if n < 10 {
        String::from_str(hex_digit_str(n as u8))
    } else {
        let mut s = decimal_string(n / 10);
        s.append(hex_digit_str((n % 10) as u8));
        s
    }
}

/// `name(inner)`.
fn wrapped(name: &str, inner: &str) -> (s: String)
    ensures
        s@ == name@ + "("@ + inner@ + ")"@,
{
    let mut s = String::from_str(name);
    s.append("(");
    s.append(inner);
    s.append(")");
    proof {
        assert(s@ =~= name@ + "("@ + inner@ + ")"@);
    }
    s
}

/// Describes a type: the name of its kind, and in parentheses what it
/// carries.
pub fn describe(t: &WinRTType) -> (s: String)
    ensures
        s@ == description(t@),
    decreases t,
{
    proof {
        reveal_strlit("(");
        reveal_strlit(")");
        reveal_strlit(", ");
        reveal_strlit("Interface");
        reveal_strlit("Interface(");
        reveal_strlit("Delegate");
        reveal_strlit("Delegate(");
        reveal_strlit("IAsyncActionWithProgress");
        reveal_strlit("IAsyncActionWithProgress(");
        reveal_strlit("IAsyncOperation");
        reveal_strlit("IAsyncOperation(");
        reveal_strlit("OutValue");
        reveal_strlit("OutValue(");
    }
    match t {
        WinRTType::Interface(iid) => {
            let braced = format_guid_braced(iid);
            let s = wrapped("Interface", braced.as_str());
            proof {
                assert(s@ =~= description(t@));
            }
            s
        },
        WinRTType::Delegate(iid) => {
            let braced = format_guid_braced(iid);
            let s = wrapped("Delegate", braced.as_str());
            proof {
                assert(s@ =~= description(t@));
            }
            s
        },
        WinRTType::RuntimeClass(name, iid) => {
            let mut s = String::from_str("RuntimeClass(");
            s.append(name.as_str());
            s.append(", ");
            let braced = format_guid_braced(iid);
            s.append(braced.as_str());
            s.append(")");
            proof {
                assert(s@ =~= description(t@));
            }
            s
        },
        WinRTType::Generic { piid, arity } => {
            let mut s = String::from_str("Generic(");
            let braced = format_guid_braced(piid);
            s.append(braced.as_str());
            s.append(", ");
            let digits = decimal_string(*arity);
            s.append(digits.as_str());
            s.append(")");
            proof {
                assert(s@ =~= description(t@));
            }
            s
        },
        WinRTType::Parameterized(def, args) => {
            let head = describe(def);
            let mut s = String::from_str("Parameterized(");
            s.append(head.as_str());
            s.append(", [");
            let ghost margs = t@->Parameterized_1;
            let ghost prefix = "Parameterized("@ + head@ + ", ["@;
            let mut i: usize = 0;
            proof {
                assert forall|j: int| 0 <= j < args@.len() implies margs[j] == (#[trigger] args@[j])@ by {
                    assert(margs[j] == args@[j].model());
                }
                assert(s@ =~= prefix + args_description(margs, 0));
            }
            while i < args.len()
                invariant
                    i <= args@.len(),
                    margs.len() == args@.len(),
                    forall|j: int| 0 <= j < args@.len() ==> margs[j] == (#[trigger] args@[j])@,
                    s@ == prefix + args_description(margs, i as nat),
                    decreases_to!(t => args),
                decreases args@.len() - i,
            {
                let part = describe(&args[i]);
                if i > 0 {
                    s.append(", ");
                }
                s.append(part.as_str());
                proof {
                    assert(part@ == description(margs[i as int]));
                    if i == 0 {
                        assert(args_description(margs, 0) =~= Seq::<char>::empty());
                        assert(args_description(margs, 1) == description(margs[0]));
                    } else {
                        assert(args_description(margs, (i + 1) as nat) == args_description(
                            margs,
                            i as nat,
                        ) + ", "@ + description(margs[i as int]));
                    }
                    assert(s@ =~= prefix + args_description(margs, (i + 1) as nat));
                }
                i += 1;
            }
            s.append("])");
            proof {
                let mdef = *t@->Parameterized_0;
                assert(mdef == def.model());
                assert(description(t@) == "Parameterized("@ + description(mdef) + ", ["@
                    + args_description(margs, margs.len()) + "])"@);
                assert(s@ =~= description(t@));
            }
            s
        },
        WinRTType::IAsyncActionWithProgress(p) => {
            let inner = describe(p);
            let s = wrapped("IAsyncActionWithProgress", inner.as_str());
            proof {
                assert(s@ =~= description(t@));
            }
            s
        },
        WinRTType::IAsyncOperation(r) => {
            let inner = describe(r);
            let s = wrapped("IAsyncOperation", inner.as_str());
            proof {
                assert(s@ =~= description(t@));
            }
            s
        },
        WinRTType::IAsyncOperationWithProgress(r, p) => {
            let first = describe(r);
            let second = describe(p);
            let mut s = String::from_str("IAsyncOperationWithProgress(");
            s.append(first.as_str());
            s.append(", ");
            s.append(second.as_str());
            s.append(")");
            proof {
                assert(s@ =~= description(t@));
            }
            s
        },
        WinRTType::OutValue(inner) => {
            let text = describe(inner);
            let s = wrapped("OutValue", text.as_str());
            proof {
                assert(s@ =~= description(t@));
            }
            s
        },
        _ => String::from_str(name_of_type(t)),
    }
}

impl Error {
    /// The text of the error: what was expected and what was found, each
    /// type described with its identifier, name and arguments, or the status
    /// of the failed call in hexadecimal.
    pub fn message(&self) -> (s: String)
        ensures
            s@ == self@.message(),
    {
        match self {
            Error::ExpectObjectTypeError(actual) => {
                let mut s = String::from_str("Expected object type, found ");
                s.append(describe(actual).as_str());
                s
            },
            Error::InvalidType(expected, actual) => {
                let mut s = String::from_str("Invalid type: expected ");
                s.append(describe(expected).as_str());
                s.append(", found ");
                s.append(describe(actual).as_str());
                s
            },
            Error::InvalidNestedOutType(actual) => {
                let mut s = String::from_str("Invalid nested out type: found ");
                s.append(describe(actual).as_str());
                s
            },
            Error::InvalidTypeAbiToWinRT(expected, actual) => {
                let mut s = String::from_str("Invalid type ABI to WinRT: expected ");
                s.append(describe(expected).as_str());
                s.append(", found ");
                s.append(name_of_abi(actual));
                s
            },
            Error::WindowsError(status) => {
                let mut s = String::from_str("Windows error: 0x");
                let bits: u32 = #[verifier::truncate] (*status as u32);
                let mut i: u32 = 0;
                proof {
                    assert(s@ =~= "Windows error: 0x"@ + status_hex(*status).subrange(0, 0));
                }
                while i < 8
                    invariant
                        i <= 8,
                        bits == *status as u32,
                        s@ == "Windows error: 0x"@ + status_hex(*status).subrange(0, i as int),
                    decreases 8 - i,
                {
                    let shift: u32 = 4 * (7 - i);
                    let digit: u32 = (bits >> shift) & 0xf;
                    assert(digit < 16) by (bit_vector)
                        requires
                            digit == (bits >> shift) & 0xf,
                    ;
                    assert(digit as u8 == status_nibble(*status, i as int));
                    s.append(hex_digit_str(digit as u8));
                    proof {
                        assert(s@ =~= "Windows error: 0x"@ + status_hex(*status).subrange(0, i + 1));
                    }
                    i += 1;
                }
                proof {
                    assert(status_hex(*status).subrange(0, 8) =~= status_hex(*status));
                }
                s
            },
        }
    }

    pub fn expect_object_type(actual: WinRTType) -> (e: Self)
        ensures
            e@ == ErrorModel::ExpectObjectTypeError(actual@),
    {
        Error::ExpectObjectTypeError(actual)
    }
}

} // verus!
