//! Method tables of some interfaces of the platform.
use crate::signature::{
    in_only, in_then_out, inspectable_params, no_params, out_only, InterfaceSignature,
    MethodSignature, ParameterModel,
};
use crate::types::{TypeModel, WinRTType};
use vstd::prelude::*;

verus! {

/// The methods of the factory of `Windows.Foundation.Uri`: slot 6 makes a
/// URI from a string.
pub open spec fn uri_factory_params(slot: int) -> Seq<ParameterModel> {
    if slot == 6 {
        in_then_out(TypeModel::HString, TypeModel::Object)
    } else {
        inspectable_params(slot)
    }
}

pub fn uri_factory() -> (t: InterfaceSignature)
    ensures
        t.wf(),
        t.name@ == ""@,
        t.iid == 0,
        t.methods@.len() == 7,
        forall|i: int| 0 <= i < 7 ==> (#[trigger] t.methods@[i]).params() == uri_factory_params(i),
{
    let mut vtable = InterfaceSignature::define_from_iinspectable("", 0);
    vtable.add_method(MethodSignature::mapping(WinRTType::HString, WinRTType::Object));
    vtable
}

/// The methods of `Windows.Foundation.IUriRuntimeClass`: string properties
/// from slot 6 on, but for the parsed query at 15 and the suspicion flag at
/// 20, which are not described, and the port at 19, a 32-bit integer.
pub open spec fn uri_vtable_params(slot: int) -> Seq<ParameterModel> {
    if slot < 6 {
        inspectable_params(slot)
    } else if slot == 15 || slot == 20 {
        no_params()
    } else if slot == 19 {
        out_only(TypeModel::I32)
    } else {
        out_only(TypeModel::HString)
    }
}

pub fn uri_vtable() -> (t: InterfaceSignature)
    ensures
        t.wf(),
        t.name@ == "Windows.Foundation.IUriRuntimeClass"@,
        t.iid == 0,
        t.methods@.len() == 21,
        forall|i: int| 0 <= i < 21 ==> (#[trigger] t.methods@[i]).params() == uri_vtable_params(i),
{
    let mut vtable = InterfaceSignature::define_from_iinspectable("Windows.Foundation.IUriRuntimeClass", 0);
    vtable.add_method(MethodSignature::returning(WinRTType::HString));  // 6 absolute URI
    vtable.add_method(MethodSignature::returning(WinRTType::HString));  // 7 display URI
    vtable.add_method(MethodSignature::returning(WinRTType::HString));  // 8 domain
    vtable.add_method(MethodSignature::returning(WinRTType::HString));  // 9 extension
    vtable.add_method(MethodSignature::returning(WinRTType::HString));  // 10 fragment
    vtable.add_method(MethodSignature::returning(WinRTType::HString));  // 11 host
    vtable.add_method(MethodSignature::returning(WinRTType::HString));  // 12 password
    vtable.add_method(MethodSignature::returning(WinRTType::HString));  // 13 path
    vtable.add_method(MethodSignature::returning(WinRTType::HString));  // 14 query
    vtable.add_method(MethodSignature::new());  // 15 parsed query
    vtable.add_method(MethodSignature::returning(WinRTType::HString));  // 16 raw URI
    vtable.add_method(MethodSignature::returning(WinRTType::HString));  // 17 scheme name
    vtable.add_method(MethodSignature::returning(WinRTType::HString));  // 18 user name
    vtable.add_method(MethodSignature::returning(WinRTType::I32));  // 19 port
    vtable.add_method(MethodSignature::new());  // 20 suspicious
    vtable
}

/// The methods of an operation with progress that yields a string: only
/// "get results" at slot 10 is described.
pub open spec fn async_operation_with_progress_params(slot: int) -> Seq<ParameterModel> {
    if slot == 10 {
        out_only(TypeModel::HString)
    } else {
        inspectable_params(slot)
    }
}

#[allow(non_snake_case)]
pub fn IAsyncOperationWithProgress() -> (t: InterfaceSignature)
    ensures
        t.wf(),
        t.name@ == "Windows.Foundation.IAsyncOperationWithProgress"@,
        t.iid == 0,
        t.methods@.len() == 11,
        forall|i: int|
            0 <= i < 11 ==> (#[trigger] t.methods@[i]).params() == async_operation_with_progress_params(
                i,
            ),
{
    let mut vtable = InterfaceSignature::define_from_iinspectable(
        "Windows.Foundation.IAsyncOperationWithProgress",
        0,
    );
    vtable.add_method(MethodSignature::new());  // 6 set progress
    vtable.add_method(MethodSignature::new());  // 7 get progress
    vtable.add_method(MethodSignature::new());  // 8 set completed
    vtable.add_method(MethodSignature::new());  // 9 get completed
    vtable.add_method(MethodSignature::returning(WinRTType::HString));  // 10 get results
    vtable
}

/// The methods of an operation that yields an object: only "get results" at
/// slot 8 is described.
pub open spec fn async_operation_params(slot: int) -> Seq<ParameterModel> {
    if slot == 8 {
        out_only(TypeModel::Object)
    } else {
        inspectable_params(slot)
    }
}

#[allow(non_snake_case)]
pub fn IAsyncOperation() -> (t: InterfaceSignature)
    ensures
        t.wf(),
        t.name@ == "Windows.Foundation.IAsyncOperation"@,
        t.iid == 0,
        t.methods@.len() == 9,
        forall|i: int| 0 <= i < 9 ==> (#[trigger] t.methods@[i]).params() == async_operation_params(i),
{
    let mut vtable = InterfaceSignature::define_from_iinspectable("Windows.Foundation.IAsyncOperation", 0);
    vtable.add_method(MethodSignature::new());  // 6 set completed
    vtable.add_method(MethodSignature::new());  // 7 get completed
    vtable.add_method(MethodSignature::returning(WinRTType::Object));  // 8 get results
    vtable
}

/// The methods of the factory of file pickers: slot 6 makes a picker for a
/// mode.
pub open spec fn file_open_picker_factory_params(slot: int) -> Seq<ParameterModel> {
    if slot == 6 {
        in_then_out(TypeModel::I64, TypeModel::Object)
    } else {
        inspectable_params(slot)
    }
}

#[allow(non_snake_case)]
pub fn FileOpenPickerFactory() -> (t: InterfaceSignature)
    ensures
        t.wf(),
        t.name@ == "Windows.Storage.Pickers.IFileOpenPickerFactory"@,
        t.iid == 0,
        t.methods@.len() == 7,
        forall|i: int|
            0 <= i < 7 ==> (#[trigger] t.methods@[i]).params() == file_open_picker_factory_params(i),
{
    let mut vtable = InterfaceSignature::define_from_iinspectable(
        "Windows.Storage.Pickers.IFileOpenPickerFactory",
        0,
    );
    vtable.add_method(MethodSignature::mapping(WinRTType::I64, WinRTType::Object));  // 6 create with mode
    vtable
}

/// The methods of the result of picking a file: slot 6 yields the path.
pub open spec fn pick_file_result_params(slot: int) -> Seq<ParameterModel> {
    if slot == 6 {
        out_only(TypeModel::HString)
    } else {
        inspectable_params(slot)
    }
}

#[allow(non_snake_case)]
pub fn PickFileResult() -> (t: InterfaceSignature)
    ensures
        t.wf(),
        t.name@ == "Windows.Storage.Pickers.PickFileResult"@,
        t.iid == 0,
        t.methods@.len() == 7,
        forall|i: int| 0 <= i < 7 ==> (#[trigger] t.methods@[i]).params() == pick_file_result_params(i),
{
    let mut vtable = InterfaceSignature::define_from_iinspectable(
        "Windows.Storage.Pickers.PickFileResult",
        0,
    );
    vtable.add_method(MethodSignature::returning(WinRTType::HString));  // 6 file
    vtable
}

/// The methods of a file picker: properties in pairs of setter and getter
/// from slot 6 on, then the filter at 12 and the pick at 13.
pub open spec fn file_open_picker_params(slot: int) -> Seq<ParameterModel> {
    if slot < 6 {
        inspectable_params(slot)
    } else if slot == 6 {
        in_only(TypeModel::I32)
    } else if slot == 7 {
        out_only(TypeModel::I32)
    } else if slot == 8 {
        in_only(TypeModel::Object)
    } else if slot == 10 {
        in_only(TypeModel::HString)
    } else if slot == 11 {
        out_only(TypeModel::HString)
    } else {
        out_only(TypeModel::Object)
    }
}

#[allow(non_snake_case)]
pub fn FileOpenPicker() -> (t: InterfaceSignature)
    ensures
        t.wf(),
        t.name@ == "Windows.Storage.Pickers.IFileOpenPicker"@,
        t.iid == 0,
        t.methods@.len() == 14,
        forall|i: int| 0 <= i < 14 ==> (#[trigger] t.methods@[i]).params() == file_open_picker_params(i),
{
    let mut vtable = InterfaceSignature::define_from_iinspectable(
        "Windows.Storage.Pickers.IFileOpenPicker",
        0,
    );
    vtable.add_method(MethodSignature::taking(WinRTType::I32));  // 6 set view mode
    vtable.add_method(MethodSignature::returning(WinRTType::I32));  // 7 view mode
    vtable.add_method(MethodSignature::taking(WinRTType::Object));  // 8 set suggested start location
    vtable.add_method(MethodSignature::returning(WinRTType::Object));  // 9 suggested start location
    vtable.add_method(MethodSignature::taking(WinRTType::HString));  // 10 set commit button text
    vtable.add_method(MethodSignature::returning(WinRTType::HString));  // 11 commit button text
    vtable.add_method(MethodSignature::returning(WinRTType::Object));  // 12 file type filter
    vtable.add_method(MethodSignature::returning(WinRTType::Object));  // 13 pick single file
    vtable
}

} // verus!
