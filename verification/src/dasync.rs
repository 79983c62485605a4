//! The bridge from the platform's completion callbacks to polling: what a
//! poll of an asynchronous operation must do next, how its completion is
//! registered, how its results are fetched, and the identity and lifetime
//! of the handler object that receives the completion.
use crate::abi::AbiValue;
use crate::call::status_is_ok;
use crate::guid::{Guid, IAGILE_OBJECT, IUNKNOWN};
use crate::result::{Error, ErrorModel};
use crate::types::{result_model, TypeModel, WinRTType, E_NOINTERFACE};
use crate::value::{AsyncInfo, ValueModel, WinRTValue};
use vstd::prelude::*;

verus! {

/// The status of an operation that has not finished. Every other status is
/// final: completed, cancelled or failed.
pub const ASYNC_STATUS_STARTED: i32 = 0;

/// The status of a call that succeeded.
pub const S_OK: i32 = 0;

/// What a poll must do next.
#[derive(Debug, Clone, Copy, PartialEq, Eq)]
pub enum PollStep {
    /// The operation has finished: fetch its results and resolve with them.
    FetchResults,
    /// Asking for the status failed: resolve with this failure.
    Fail(i32),
    /// The operation is running and nothing waits for it yet: register for
    /// its completion, keep the waker, and report that it is not ready.
    Register,
    /// The operation is running and its completion is registered: refresh
    /// the waker, then ask for the status once more.
    Recheck,
    /// Report that the operation is not ready.
    Pending,
}

/// How the completion of an operation is registered.
#[derive(Debug, Clone, Copy, PartialEq, Eq)]
pub enum Registration {
    /// A plain action: through the typed handler of actions.
    TypedAction,
    /// Any other shape: through a handler object that answers to
    /// `handler_iid`, handed to the method at vtable slot `slot`.
    Dynamic { handler_iid: Guid, slot: usize },
}

/// A future over an asynchronous operation.
#[derive(Debug)]
pub struct WinRTAsyncFuture {
    async_info: AsyncInfo,
    registered: bool,
}

/// The step that a status asked for at the start of a poll calls for.
pub open spec fn step_for_status(status: Result<i32, i32>, registered: bool) -> PollStep {
    match status {
        Err(e) => PollStep::Fail(e),
        Ok(s) => if s != ASYNC_STATUS_STARTED {
            PollStep::FetchResults
        } else if registered {
            PollStep::Recheck
        } else {
            PollStep::Register
        },
    }
}

/// The step that a status asked for after the waker was refreshed calls for.
pub open spec fn step_for_recheck(status: Result<i32, i32>) -> PollStep {
    match status {
        Err(e) => PollStep::Fail(e),
        Ok(s) => if s != ASYNC_STATUS_STARTED {
            PollStep::FetchResults
        } else {
            PollStep::Pending
        },
    }
}

/// The vtable slots of "set completed" and "get results" for each shape.
pub open spec fn spec_vtable_indices(shape: TypeModel) -> (usize, usize) {
    match shape {
        TypeModel::IAsyncAction | TypeModel::IAsyncOperation(_) => (6, 8),
        _ => (8, 10),
    }
}

/// The type of what an operation yields; none for an action.
pub open spec fn spec_result_type(shape: TypeModel) -> Option<TypeModel> {
    match shape {
        TypeModel::IAsyncOperation(t) => Some(*t),
        TypeModel::IAsyncOperationWithProgress(t, _) => Some(*t),
        _ => None,
    }
}

/// What fetching the results yields: the failure where the call failed; the
/// raw output converted by the declared result type where the operation
/// yields a result; else a success status.
pub open spec fn spec_results(shape: TypeModel, status: i32, out: AbiValue) -> Result<ValueModel, ErrorModel> {
    if status < 0 {
        Err(ErrorModel::WindowsError(status))
    } else {
        match spec_result_type(shape) {
            Some(t) => t.spec_from_out_value(out),
            None => Ok(ValueModel::HResult(S_OK)),
        }
    }
}

impl WinRTAsyncFuture {
    /// The reference through which the operation's status is asked.
    pub closed spec fn spec_info(&self) -> usize {
        self.async_info.info
    }

    /// Which of the four asynchronous shapes the operation has.
    pub closed spec fn shape(&self) -> TypeModel {
        self.async_info.async_type@
    }

    /// Whether a completion callback has been registered.
    pub closed spec fn is_registered(&self) -> bool {
        self.registered
    }

    pub closed spec fn wf(&self) -> bool {
        self.async_info.wf()
    }

    /// A future over the operation that `value` holds, with no callback
    /// registered.
    pub fn from_value(value: WinRTValue) -> (future: Self)
        requires
            value@ is Async,
        ensures
            !future.is_registered(),
            value@ == ValueModel::Async(future.spec_info(), future.shape()),
    {
        match value {
            WinRTValue::Async(a) => WinRTAsyncFuture { async_info: a, registered: false },
            _ => WinRTAsyncFuture {
                async_info: AsyncInfo { info: 0, async_type: WinRTType::IAsyncAction },
                registered: false,
            },
        }
    }

    /// The reference through which the operation's status is asked.
    pub fn info(&self) -> (p: usize)
        ensures
            p == self.spec_info(),
    {
        self.async_info.info
    }

    /// The operation.
    pub fn async_info(&self) -> (a: &AsyncInfo)
        ensures
            a.info == self.spec_info(),
            a.async_type@ == self.shape(),
            self.wf() ==> a.wf(),
    {
        &self.async_info
    }

    /// Decides a poll from the status asked for at its start. An operation
    /// that is no longer running has its results fetched at once, and nothing
    /// is registered; one that is running gets a completion callback the
    /// first time and a refreshed waker every time after.
    pub fn poll_status(&mut self, status: Result<i32, i32>) -> (step: PollStep)
        ensures
            step == step_for_status(status, old(self).is_registered()),
            final(self).spec_info() == old(self).spec_info(),
            final(self).shape() == old(self).shape(),
            final(self).wf() == old(self).wf(),
            final(self).is_registered() == (old(self).is_registered() || step == PollStep::Register),
            step == PollStep::FetchResults ==> final(self).is_registered() == old(self).is_registered(),
    {
        match status {
            Err(e) => PollStep::Fail(e),
            Ok(s) => {
                if s != ASYNC_STATUS_STARTED {
                    PollStep::FetchResults
                } else if self.registered {
                    PollStep::Recheck
                } else {
                    self.registered = true;
                    PollStep::Register
                }
            },
        }
    }

    /// Decides a poll from the status asked for after the waker was
    /// refreshed: the operation may have finished between the callback and
    /// the poll.
    pub fn recheck_status(&self, status: Result<i32, i32>) -> (step: PollStep)
        ensures
            step == step_for_recheck(status),
    {
        match status {
            Err(e) => PollStep::Fail(e),
            Ok(s) => {
                if s != ASYNC_STATUS_STARTED {
                    PollStep::FetchResults
                } else {
                    PollStep::Pending
                }
            },
        }
    }

    /// Decides a poll from the status with which the registration returned.
    pub fn registered_with(status: i32) -> (step: PollStep)
        ensures
            step == (if status < 0 {
                PollStep::Fail(status)
            } else {
                PollStep::Pending
            }),
    {
        if status_is_ok(status) {
            PollStep::Pending
        } else {
            PollStep::Fail(status)
        }
    }

    /// The vtable slots of "set completed" and "get results".
    pub fn vtable_indices(&self) -> (slots: (usize, usize))
        requires
            self.shape().is_async_shape(),
        ensures
            slots == spec_vtable_indices(self.shape()),
    {
        match &self.async_info.async_type {
            WinRTType::IAsyncAction | WinRTType::IAsyncOperation(_) => (6, 8),
            _ => (8, 10),
        }
    }

    /// How the completion of this operation is to be registered.
    pub fn registration(&self) -> (r: Registration)
        requires
            self.wf(),
        ensures
            r == (match self.shape() {
                TypeModel::IAsyncAction => Registration::TypedAction,
                _ => Registration::Dynamic {
                    handler_iid: self.shape().spec_completed_handler_iid()->Some_0,
                    slot: spec_vtable_indices(self.shape()).0,
                },
            }),
    {
        match &self.async_info.async_type {
            WinRTType::IAsyncAction => Registration::TypedAction,
            _ => {
                let handler_iid = self.async_info.handler_iid();
                let slots = self.vtable_indices();
                Registration::Dynamic { handler_iid, slot: slots.0 }
            },
        }
    }

    /// Reads the outcome of "get results": `status` is what the call
    /// returned, `out` the raw value it left in the output, in the category
    /// of the result type. An action has no result; its output is not read.
    pub fn get_results(&self, status: i32, out: &AbiValue) -> (r: Result<WinRTValue, Error>)
        ensures
            result_model(r) == spec_results(self.shape(), status, *out),
    {
        if !status_is_ok(status) {
            return Err(Error::WindowsError(status));
        }
        match self.async_info.result_type() {
            Some(t) => t.from_out_value(out),
            None => Ok(WinRTValue::HResult(S_OK)),
        }
    }
}

/// A future over an operation that has already finished resolves at its
/// first poll: the poll fetches the results, and no completion callback is
/// registered, then or before.
pub proof fn lemma_async_fast_path(status: i32)
    requires
        status != ASYNC_STATUS_STARTED,
    ensures
        step_for_status(Ok(status), false) == PollStep::FetchResults,
        step_for_status(Ok(status), true) == PollStep::FetchResults,
{
}

/// The handler object that receives a completion: which interfaces it
/// answers to, and how many references hold it.
#[derive(Debug)]
pub struct DynCompletedHandler {
    handler_iid: Guid,
    ref_count: u32,
}

/// Whether a handler for `handler_iid` answers an identity query for `iid`:
/// it is the base interface, the marker of thread independence, or the
/// handler interface itself.
pub open spec fn handler_answers(handler_iid: Guid, iid: Guid) -> bool {
    iid == IUNKNOWN || iid == IAGILE_OBJECT || iid == handler_iid
}

impl DynCompletedHandler {
    pub closed spec fn spec_handler_iid(&self) -> Guid {
        self.handler_iid
    }

    /// The number of references that hold the object.
    pub closed spec fn references(&self) -> nat {
        self.ref_count as nat
    }

    /// The number of references that hold the object.
    pub fn count(&self) -> (n: u32)
        ensures
            n == self.references(),
    {
        self.ref_count
    }

    /// A handler for `handler_iid`, held by one reference.
    pub fn create(handler_iid: Guid) -> (h: Self)
        ensures
            h.spec_handler_iid() == handler_iid,
            h.references() == 1,
    {
        DynCompletedHandler { handler_iid, ref_count: 1 }
    }

    /// Answers an identity query: success and one reference more for an
    /// interface the handler answers to, refusal and no change for any other.
    pub fn qi(&mut self, iid: &Guid) -> (status: i32)
        requires
            old(self).references() < u32::MAX,
        ensures
            final(self).spec_handler_iid() == old(self).spec_handler_iid(),
            handler_answers(old(self).spec_handler_iid(), *iid) ==> status == S_OK && final(self).references()
                == old(self).references() + 1,
            !handler_answers(old(self).spec_handler_iid(), *iid) ==> status == E_NOINTERFACE
                && final(self).references() == old(self).references(),
    {
        if *iid == IUNKNOWN || *iid == IAGILE_OBJECT || *iid == self.handler_iid {
            self.add_ref();
            S_OK
        } else {
            E_NOINTERFACE
        }
    }

    /// Takes one reference more; returns the new count.
    pub fn add_ref(&mut self) -> (count: u32)
        requires
            old(self).references() < u32::MAX,
        ensures
            count == old(self).references() + 1,
            final(self).references() == count,
            final(self).spec_handler_iid() == old(self).spec_handler_iid(),
    {
        self.ref_count = self.ref_count + 1;
        self.ref_count
    }

    /// Gives one reference back; returns the new count. The object is to be
    /// freed exactly when that count is zero.
    pub fn release(&mut self) -> (remaining: u32)
        requires
            old(self).references() > 0,
        ensures
            remaining == old(self).references() - 1,
            final(self).references() == remaining,
            final(self).spec_handler_iid() == old(self).spec_handler_iid(),
    {
        self.ref_count = self.ref_count - 1;
        self.ref_count
    }

    /// The status with which the handler answers a completion. The arguments
    /// of the completion are not looked at: the waiter is woken, and the
    /// results are fetched at the next poll.
    pub fn invoke(&self) -> (status: i32)
        ensures
            status == S_OK,
    {
        S_OK
    }
}

} // verus!
