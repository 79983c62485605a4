use dynwinrt::abi::{AbiType, AbiValue};
use dynwinrt::interfaces::{
    uri_factory, uri_vtable, FileOpenPicker, FileOpenPickerFactory, IAsyncOperation,
    IAsyncOperationWithProgress, PickFileResult,
};
use dynwinrt::result::Error;
use dynwinrt::signature::{CallArg, InterfaceSignature, Method, MethodSignature, Parameter};
use dynwinrt::types::WinRTType;
use dynwinrt::value::{AsyncInfo, WinRTValue};

fn param(typ: WinRTType, value_index: usize, is_out: bool) -> Parameter {
    Parameter { typ, value_index, is_out }
}

fn mixed_method() -> Method {
    MethodSignature::new()
        .add(WinRTType::I32)
        .add_out(WinRTType::HString)
        .add(WinRTType::Object)
        .add_out(WinRTType::I64)
        .add_out(WinRTType::Bool)
        .build(9)
}

#[test]
fn inputs_and_outputs_are_numbered_apart() {
    let method = mixed_method();
    assert_eq!(method.index(), 9);
    assert_eq!(method.out_count(), 3);
    assert_eq!(
        method.parameters(),
        &vec![
            param(WinRTType::I32, 0, false),
            param(WinRTType::HString, 0, true),
            param(WinRTType::Object, 1, false),
            param(WinRTType::I64, 1, true),
            param(WinRTType::Bool, 2, true),
        ]
    );
}

#[test]
fn call_shape_has_receiver_then_parameters() {
    let method = mixed_method();
    assert_eq!(
        method.shape().args,
        vec![AbiType::Ptr, AbiType::I32, AbiType::Ptr, AbiType::Ptr, AbiType::Ptr, AbiType::Ptr]
    );
    assert_eq!(method.shape().result, AbiType::I32);

    let scalars = MethodSignature::new()
        .add(WinRTType::Bool)
        .add(WinRTType::F64)
        .add(WinRTType::Char16)
        .add(WinRTType::U8)
        .build(3);
    assert_eq!(
        scalars.shape().args,
        vec![AbiType::Ptr, AbiType::Bool, AbiType::F64, AbiType::U16, AbiType::U8]
    );

    let empty = MethodSignature::new().build(0);
    assert_eq!(empty.shape().args, vec![AbiType::Ptr]);
    assert_eq!(empty.out_count(), 0);
}

#[test]
fn prepare_call_allocates_outputs_and_orders_arguments() {
    let method = mixed_method();
    let plan = method.prepare_call(&[WinRTValue::I32(42), WinRTValue::Object(0x1000)]);
    assert_eq!(
        plan.out_slots,
        vec![AbiValue::Pointer(0), AbiValue::I64(0), AbiValue::Bool(0)]
    );
    assert_eq!(
        plan.args,
        vec![
            CallArg::Receiver,
            CallArg::In(AbiValue::I32(42)),
            CallArg::Out(0),
            CallArg::In(AbiValue::Pointer(0x1000)),
            CallArg::Out(1),
            CallArg::Out(2),
        ]
    );
}

#[test]
fn prepare_call_without_parameters() {
    let method = MethodSignature::new().build(2);
    let plan = method.prepare_call(&[]);
    assert_eq!(plan.out_slots, vec![]);
    assert_eq!(plan.args, vec![CallArg::Receiver]);
}

#[test]
fn complete_call_converts_outputs_in_declared_order() {
    let method = mixed_method();
    let outs = [AbiValue::Pointer(0x2000), AbiValue::I64(-7), AbiValue::Bool(1)];
    assert_eq!(
        method.complete_call(0, &outs),
        Ok(vec![WinRTValue::HString(0x2000), WinRTValue::I64(-7), WinRTValue::Bool(true)])
    );
    assert_eq!(
        method.complete_call(1, &outs),
        Ok(vec![WinRTValue::HString(0x2000), WinRTValue::I64(-7), WinRTValue::Bool(true)])
    );
}

#[test]
fn failed_call_yields_no_outputs() {
    let method = mixed_method();
    let outs = [AbiValue::Pointer(0x2000), AbiValue::I64(-7), AbiValue::Bool(1)];
    assert_eq!(method.complete_call(-2147467259, &outs), Err(Error::WindowsError(-2147467259)));
    assert_eq!(method.complete_call(-1, &outs), Err(Error::WindowsError(-1)));
    let wrong = [AbiValue::I32(1), AbiValue::I32(1), AbiValue::I32(1)];
    assert_eq!(method.complete_call(i32::MIN, &wrong), Err(Error::WindowsError(i32::MIN)));
}

#[test]
fn first_failing_conversion_decides() {
    let method = mixed_method();
    let outs = [AbiValue::Pointer(0x2000), AbiValue::I32(1), AbiValue::U8(1)];
    assert_eq!(
        method.complete_call(0, &outs),
        Err(Error::InvalidTypeAbiToWinRT(WinRTType::I64, AbiType::I32))
    );
    let nested = MethodSignature::new()
        .add_out(WinRTType::OutValue(Box::new(WinRTType::I32)))
        .build(6);
    assert_eq!(
        nested.complete_call(0, &[AbiValue::Pointer(0)]),
        Err(Error::InvalidNestedOutType(WinRTType::OutValue(Box::new(WinRTType::I32))))
    );
}

#[test]
fn async_output_becomes_an_async_value() {
    let method = MethodSignature::new()
        .add_out(WinRTType::IAsyncOperation(Box::new(WinRTType::HString)))
        .build(13);
    assert_eq!(
        method.complete_call(0, &[AbiValue::Pointer(0x3000)]),
        Ok(vec![WinRTValue::Async(AsyncInfo {
            info: 0x3000,
            async_type: WinRTType::IAsyncOperation(Box::new(WinRTType::HString)),
        })])
    );
}

#[test]
fn helper_constructors_agree_with_the_builder() {
    assert_eq!(
        MethodSignature::returning(WinRTType::HString).build(4).parameters(),
        MethodSignature::new().add_out(WinRTType::HString).build(4).parameters()
    );
    assert_eq!(
        MethodSignature::taking(WinRTType::I32).build(4).parameters(),
        &vec![param(WinRTType::I32, 0, false)]
    );
    assert_eq!(
        MethodSignature::mapping(WinRTType::HString, WinRTType::Object).build(6).parameters(),
        &vec![param(WinRTType::HString, 0, false), param(WinRTType::Object, 0, true)]
    );
}

#[test]
fn interface_from_the_base_triads() {
    let base = InterfaceSignature::define_from_iunknown("Base", 5);
    assert_eq!(base.name, "Base");
    assert_eq!(base.iid, 5);
    assert_eq!(base.methods.len(), 3);
    for (i, m) in base.methods.iter().enumerate() {
        assert_eq!(m.index(), i);
        assert!(m.parameters().is_empty());
    }
    let inspectable = InterfaceSignature::define_from_iinspectable("Insp", 6);
    assert_eq!(inspectable.methods.len(), 6);
    for (i, m) in inspectable.methods.iter().enumerate() {
        assert_eq!(m.index(), i);
        if i == 4 {
            assert_eq!(m.parameters(), &vec![param(WinRTType::HString, 0, true)]);
        } else {
            assert!(m.parameters().is_empty());
        }
    }
    let empty = InterfaceSignature::define_interface("E".to_string(), 7);
    assert_eq!(empty.methods.len(), 0);
    assert_eq!(empty.name, "E");
    assert_eq!(empty.iid, 7);
}

#[test]
fn add_method_takes_the_next_slot() {
    let mut t = InterfaceSignature::define_from_iinspectable("T", 1);
    t.add_method(MethodSignature::new().add(WinRTType::I64).add_out(WinRTType::Object));
    assert_eq!(t.methods.len(), 7);
    assert_eq!(t.methods[6].index(), 6);
    assert_eq!(
        t.methods[6].parameters(),
        &vec![param(WinRTType::I64, 0, false), param(WinRTType::Object, 0, true)]
    );
}

#[test]
fn uri_tables() {
    let factory = uri_factory();
    assert_eq!(factory.name, "");
    assert_eq!(factory.methods.len(), 7);
    assert_eq!(
        factory.methods[6].parameters(),
        &vec![param(WinRTType::HString, 0, false), param(WinRTType::Object, 0, true)]
    );
    let uri = uri_vtable();
    assert_eq!(uri.name, "Windows.Foundation.IUriRuntimeClass");
    assert_eq!(uri.methods.len(), 21);
    for i in 6..21 {
        let expected = if i == 15 || i == 20 {
            vec![]
        } else if i == 19 {
            vec![param(WinRTType::I32, 0, true)]
        } else {
            vec![param(WinRTType::HString, 0, true)]
        };
        assert_eq!(uri.methods[i].parameters(), &expected);
        assert_eq!(uri.methods[i].index(), i);
    }
    let plan = uri.methods[17].prepare_call(&[]);
    assert_eq!(plan.args, vec![CallArg::Receiver, CallArg::Out(0)]);
    assert_eq!(plan.out_slots, vec![AbiValue::Pointer(0)]);
    assert_eq!(
        uri.methods[19].complete_call(0, &[AbiValue::I32(443)]).unwrap()[0].as_i32(),
        Some(443)
    );
}

#[test]
fn async_and_picker_tables() {
    let with_progress = IAsyncOperationWithProgress();
    assert_eq!(with_progress.name, "Windows.Foundation.IAsyncOperationWithProgress");
    assert_eq!(with_progress.methods.len(), 11);
    assert_eq!(with_progress.methods[10].parameters(), &vec![param(WinRTType::HString, 0, true)]);
    assert!(with_progress.methods[8].parameters().is_empty());

    let operation = IAsyncOperation();
    assert_eq!(operation.name, "Windows.Foundation.IAsyncOperation");
    assert_eq!(operation.methods.len(), 9);
    assert_eq!(operation.methods[8].parameters(), &vec![param(WinRTType::Object, 0, true)]);

    let factory = FileOpenPickerFactory();
    assert_eq!(factory.name, "Windows.Storage.Pickers.IFileOpenPickerFactory");
    assert_eq!(factory.methods.len(), 7);
    assert_eq!(
        factory.methods[6].parameters(),
        &vec![param(WinRTType::I64, 0, false), param(WinRTType::Object, 0, true)]
    );

    let result = PickFileResult();
    assert_eq!(result.name, "Windows.Storage.Pickers.PickFileResult");
    assert_eq!(result.methods.len(), 7);
    assert_eq!(result.methods[6].parameters(), &vec![param(WinRTType::HString, 0, true)]);

    let picker = FileOpenPicker();
    assert_eq!(picker.name, "Windows.Storage.Pickers.IFileOpenPicker");
    assert_eq!(picker.methods.len(), 14);
    assert_eq!(picker.methods[6].parameters(), &vec![param(WinRTType::I32, 0, false)]);
    assert_eq!(picker.methods[7].parameters(), &vec![param(WinRTType::I32, 0, true)]);
    assert_eq!(picker.methods[8].parameters(), &vec![param(WinRTType::Object, 0, false)]);
    assert_eq!(picker.methods[9].parameters(), &vec![param(WinRTType::Object, 0, true)]);
    assert_eq!(picker.methods[10].parameters(), &vec![param(WinRTType::HString, 0, false)]);
    assert_eq!(picker.methods[11].parameters(), &vec![param(WinRTType::HString, 0, true)]);
    assert_eq!(picker.methods[12].parameters(), &vec![param(WinRTType::Object, 0, true)]);
    assert_eq!(picker.methods[13].parameters(), &vec![param(WinRTType::Object, 0, true)]);
}

#[test]
fn concreteness_of_signatures() {
    assert!(MethodSignature::new().is_concrete());
    assert!(MethodSignature::new().add(WinRTType::I32).add_out(WinRTType::Object).is_concrete());
    assert!(!MethodSignature::new()
        .add(WinRTType::I32)
        .add_out(WinRTType::Generic { piid: 1, arity: 1 })
        .is_concrete());
    assert!(!MethodSignature::new().add(WinRTType::Generic { piid: 1, arity: 1 }).is_concrete());
}

#[test]
fn only_the_inputs_in_use_are_looked_at() {
    let method = MethodSignature::new().add(WinRTType::I32).add_out(WinRTType::I32).build(6);
    let spare = WinRTValue::Async(AsyncInfo { info: 1, async_type: WinRTType::IAsyncAction });
    let plan = method.prepare_call(&[WinRTValue::I32(7), spare]);
    assert_eq!(
        plan.args,
        vec![CallArg::Receiver, CallArg::In(AbiValue::I32(7)), CallArg::Out(0)]
    );
    assert_eq!(plan.out_slots, vec![AbiValue::I32(0)]);
}

#[test]
fn clone_of_a_signature_keeps_its_parameters() {
    let sig = MethodSignature::new()
        .add(WinRTType::HString)
        .add_out(WinRTType::RuntimeClass("A.B".into(), 9))
        .add(WinRTType::I64);
    let copy = sig.clone();
    let built = sig.build(7);
    let built_copy = copy.add_out(WinRTType::Bool).build(7);
    assert_eq!(
        built.parameters(),
        &vec![
            param(WinRTType::HString, 0, false),
            param(WinRTType::RuntimeClass("A.B".into(), 9), 0, true),
            param(WinRTType::I64, 1, false),
        ]
    );
    assert_eq!(built_copy.parameters()[..3], built.parameters()[..]);
    assert_eq!(built_copy.parameters()[3], param(WinRTType::Bool, 1, true));
    assert_eq!(built_copy.out_count(), 2);
}
