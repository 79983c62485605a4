use dynwinrt::abi::{AbiType, AbiValue};
use dynwinrt::dasync::{
    DynCompletedHandler, PollStep, Registration, WinRTAsyncFuture, ASYNC_STATUS_STARTED, S_OK,
};
use dynwinrt::guid::{IAGILE_OBJECT, IUNKNOWN};
use dynwinrt::result::Error;
use dynwinrt::types::{WinRTType, E_NOINTERFACE};
use dynwinrt::value::{AsyncInfo, WinRTValue};

fn future_of(async_type: WinRTType) -> WinRTAsyncFuture {
    WinRTAsyncFuture::from_value(WinRTValue::Async(AsyncInfo { info: 0x500, async_type }))
}

#[test]
fn finished_operation_resolves_at_first_poll() {
    let mut future = future_of(WinRTType::IAsyncAction);
    assert_eq!(future.info(), 0x500);
    assert_eq!(future.poll_status(Ok(1)), PollStep::FetchResults);
    assert_eq!(future.poll_status(Ok(2)), PollStep::FetchResults);
    assert_eq!(future.poll_status(Ok(3)), PollStep::FetchResults);
    // nothing was registered on the way: a running status still asks to register
    assert_eq!(future.poll_status(Ok(ASYNC_STATUS_STARTED)), PollStep::Register);
}

#[test]
fn running_operation_registers_once_then_rechecks() {
    let mut future = future_of(WinRTType::IAsyncOperation(Box::new(WinRTType::HString)));
    assert_eq!(future.poll_status(Ok(0)), PollStep::Register);
    assert_eq!(future.poll_status(Ok(0)), PollStep::Recheck);
    assert_eq!(future.poll_status(Ok(0)), PollStep::Recheck);
    assert_eq!(future.recheck_status(Ok(0)), PollStep::Pending);
    assert_eq!(future.recheck_status(Ok(1)), PollStep::FetchResults);
    assert_eq!(future.recheck_status(Err(-5)), PollStep::Fail(-5));
    assert_eq!(future.poll_status(Ok(1)), PollStep::FetchResults);
}

#[test]
fn failing_status_query_fails_the_poll() {
    let mut future = future_of(WinRTType::IAsyncAction);
    assert_eq!(future.poll_status(Err(-2147467259)), PollStep::Fail(-2147467259));
    assert_eq!(future.poll_status(Ok(0)), PollStep::Register);
    assert_eq!(future.poll_status(Err(-1)), PollStep::Fail(-1));
}

#[test]
fn registration_outcome() {
    assert_eq!(WinRTAsyncFuture::registered_with(0), PollStep::Pending);
    assert_eq!(WinRTAsyncFuture::registered_with(1), PollStep::Pending);
    assert_eq!(WinRTAsyncFuture::registered_with(-3), PollStep::Fail(-3));
}

#[test]
fn vtable_slots_by_shape() {
    assert_eq!(future_of(WinRTType::IAsyncAction).vtable_indices(), (6, 8));
    assert_eq!(
        future_of(WinRTType::IAsyncOperation(Box::new(WinRTType::I32))).vtable_indices(),
        (6, 8)
    );
    assert_eq!(
        future_of(WinRTType::IAsyncActionWithProgress(Box::new(WinRTType::I32))).vtable_indices(),
        (8, 10)
    );
    assert_eq!(
        future_of(WinRTType::IAsyncOperationWithProgress(
            Box::new(WinRTType::HString),
            Box::new(WinRTType::U32)
        ))
        .vtable_indices(),
        (8, 10)
    );
}

#[test]
fn registration_by_shape() {
    assert_eq!(future_of(WinRTType::IAsyncAction).registration(), Registration::TypedAction);
    assert_eq!(
        future_of(WinRTType::IAsyncOperation(Box::new(WinRTType::HString))).registration(),
        Registration::Dynamic { handler_iid: 0xb79a741f_7fb5_50ae_9e99_911201ec3d41, slot: 6 }
    );
    assert_eq!(
        future_of(WinRTType::IAsyncOperationWithProgress(
            Box::new(WinRTType::HString),
            Box::new(WinRTType::U32)
        ))
        .registration(),
        Registration::Dynamic { handler_iid: 0x8335c403_9fa3_5a2d_bab1_1a223c4eb1a8, slot: 8 }
    );
    assert_eq!(
        future_of(WinRTType::IAsyncActionWithProgress(Box::new(WinRTType::F64))).registration(),
        Registration::Dynamic { handler_iid: 0x94d64ac6_4491_53ef_8be8_36481f3ff1e8, slot: 8 }
    );
}

#[test]
fn results_of_operations_and_actions() {
    let operation = future_of(WinRTType::IAsyncOperation(Box::new(WinRTType::HString)));
    assert_eq!(
        operation.get_results(0, &AbiValue::Pointer(0x900)),
        Ok(WinRTValue::HString(0x900))
    );
    assert_eq!(
        operation.get_results(-7, &AbiValue::Pointer(0x900)),
        Err(Error::WindowsError(-7))
    );
    let object = future_of(WinRTType::IAsyncOperationWithProgress(
        Box::new(WinRTType::RuntimeClass("C".into(), 1)),
        Box::new(WinRTType::U32),
    ));
    assert_eq!(object.get_results(0, &AbiValue::Pointer(0x901)), Ok(WinRTValue::Object(0x901)));
    let action = future_of(WinRTType::IAsyncAction);
    assert_eq!(action.get_results(0, &AbiValue::Pointer(0)), Ok(WinRTValue::HResult(S_OK)));
    assert_eq!(action.get_results(-9, &AbiValue::Pointer(0)), Err(Error::WindowsError(-9)));
    let progress = future_of(WinRTType::IAsyncActionWithProgress(Box::new(WinRTType::I32)));
    assert_eq!(progress.get_results(0, &AbiValue::I32(5)), Ok(WinRTValue::HResult(0)));
}

#[test]
fn scalar_results_are_converted_by_the_result_type() {
    let of_bool = future_of(WinRTType::IAsyncOperation(Box::new(WinRTType::Bool)));
    assert_eq!(of_bool.get_results(0, &AbiValue::Bool(1)), Ok(WinRTValue::Bool(true)));
    assert_eq!(of_bool.get_results(0, &AbiValue::Bool(0)), Ok(WinRTValue::Bool(false)));
    let of_i32 = future_of(WinRTType::IAsyncOperation(Box::new(WinRTType::I32)));
    assert_eq!(of_i32.get_results(0, &AbiValue::I32(-12)), Ok(WinRTValue::I32(-12)));
    assert_eq!(
        of_i32.get_results(0, &AbiValue::Pointer(5)),
        Err(Error::InvalidTypeAbiToWinRT(WinRTType::I32, AbiType::Ptr))
    );
    let of_f64 = future_of(WinRTType::IAsyncOperationWithProgress(
        Box::new(WinRTType::F64),
        Box::new(WinRTType::U32),
    ));
    let bits = 2.5f64.to_bits();
    assert_eq!(of_f64.get_results(0, &AbiValue::F64(bits)), Ok(WinRTValue::F64(bits)));
}

#[test]
fn handler_answers_three_identities() {
    let own = 0xb79a741f_7fb5_50ae_9e99_911201ec3d41;
    let mut handler = DynCompletedHandler::create(own);
    assert_eq!(handler.qi(&IUNKNOWN), S_OK);
    assert_eq!(handler.qi(&IAGILE_OBJECT), S_OK);
    assert_eq!(handler.qi(&own), S_OK);
    assert_eq!(handler.qi(&0x00000003_0000_0000_c000_000000000046), E_NOINTERFACE);
    assert_eq!(handler.qi(&0), E_NOINTERFACE);
    // one reference from creation, three from the accepted queries
    assert_eq!(handler.release(), 3);
    assert_eq!(handler.release(), 2);
    assert_eq!(handler.release(), 1);
    assert_eq!(handler.release(), 0);
}

#[test]
fn handler_reference_counting() {
    let mut handler = DynCompletedHandler::create(1);
    assert_eq!(handler.add_ref(), 2);
    assert_eq!(handler.add_ref(), 3);
    assert_eq!(handler.count(), 3);
    assert_eq!(handler.release(), 2);
    assert_eq!(handler.release(), 1);
    assert_eq!(handler.count(), 1);
    assert_eq!(handler.release(), 0);
    assert_eq!(handler.count(), 0);
    assert_eq!(handler.invoke(), S_OK);
}
