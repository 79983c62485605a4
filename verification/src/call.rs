//! Raw values of the fixed-shape calls, and the reading of status codes.
use crate::guid::Guid;
use vstd::prelude::*;

verus! {

/// `HRESULT::is_ok` of windows-core: a status is a success exactly when it
/// is not negative.
#[verifier::external_body]
pub(crate) fn status_is_ok(status: i32) -> (ok: bool)
    ensures
        ok == (status >= 0),
{
    windows_core::HRESULT(status).is_ok()
}

/// Whether `status` reports a failure: zero is plain success, a positive
/// status a success with a remark, a negative one a failure.
pub fn is_failure(status: i32) -> (failed: bool)
    ensures
        failed == (status < 0),
{
    !status_is_ok(status)
}

/// A raw value of any of the kinds that a fixed-shape call passes or
/// returns. Strings and objects are held by their handles.
#[derive(Debug, Clone, Copy, PartialEq, Eq)]
pub enum DWinRTValueUnion {
    Void,
    HString(usize),
    HRESULT(i32),
    Guid(Guid),
    Object(usize),
    Pointer(usize),
}

impl DWinRTValueUnion {
    /// The address held, if the value is a plain pointer.
    pub fn as_pointer(&self) -> (p: Option<usize>)
        ensures
            p == (match *self {
                DWinRTValueUnion::Pointer(address) => Some(address),
                _ => None,
            }),
    {
        match self {
            DWinRTValueUnion::Pointer(address) => Some(*address),
            _ => None,
        }
    }
}

/// A value that crosses a fixed-shape call as one raw word.
pub trait DWinRTValueKind: Sized {
    /// The raw form of the value.
    type Sig;

    /// The raw form that `self` crosses the call in.
    fn value(&self) -> Self::Sig;

    /// The value that the raw form `val` stands for.
    fn from_value(val: Self::Sig) -> Self;
}

/// A pointer: an object, or the storage of an output.
#[derive(Debug, Clone, Copy, PartialEq, Eq)]
pub struct DWinRTPointerValue(pub usize);

impl DWinRTValueKind for DWinRTPointerValue {
    type Sig = usize;

    fn value(&self) -> (raw: usize)
        ensures
            raw == self.0,
    {
        self.0
    }

    fn from_value(val: usize) -> (v: Self)
        ensures
            v.0 == val,
    {
        DWinRTPointerValue(val)
    }
}

/// A status code.
#[derive(Debug, Clone, Copy, PartialEq, Eq)]
pub struct DWinRTHRESULTValue(pub i32);

impl DWinRTValueKind for DWinRTHRESULTValue {
    type Sig = i32;

    fn value(&self) -> (raw: i32)
        ensures
            raw == self.0,
    {
        self.0
    }

    fn from_value(val: i32) -> (v: Self)
        ensures
            v.0 == val,
    {
        DWinRTHRESULTValue(val)
    }
}

} // verus!
