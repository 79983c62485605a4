//! Method descriptions and the dynamic call engine built on them: which raw
//! values a call takes, which storage its outputs need, and what the raw
//! outputs mean once the call has returned.
use crate::abi::{AbiType, AbiValue};
use crate::call::status_is_ok;
use crate::guid::Guid;
use crate::result::{Error, ErrorModel};
use crate::types::{TypeModel, WinRTType};
use crate::value::{ValueModel, WinRTValue};
use vstd::prelude::*;
use vstd::string::StringExecFns;

verus! {

/// One declared parameter of a method: its type, whether it is an output,
/// and its position among the parameters of the same direction.
#[derive(Debug, PartialEq, Eq)]
pub struct Parameter {
    pub typ: WinRTType,
    pub value_index: usize,
    pub is_out: bool,
}

/// The mathematical content of a `Parameter`.
pub struct ParameterModel {
    pub typ: TypeModel,
    pub value_index: usize,
    pub is_out: bool,
}

impl View for Parameter {
    type V = ParameterModel;

    open spec fn view(&self) -> ParameterModel {
        ParameterModel { typ: self.typ@, value_index: self.value_index, is_out: self.is_out }
    }
}

impl Clone for Parameter {
    fn clone(&self) -> (res: Self)
        ensures
            res@ == self@,
    {
        Parameter { typ: self.typ.clone(), value_index: self.value_index, is_out: self.is_out }
    }
}

/// The models of a list of parameters.
pub open spec fn parameter_models(params: Seq<Parameter>) -> Seq<ParameterModel> {
    Seq::new(params.len(), |i: int| params[i]@)
}

/// How many of the first `n` parameters have the direction `is_out`.
pub open spec fn count_direction(params: Seq<ParameterModel>, n: nat, is_out: bool) -> nat
    decreases n,
{
    if n == 0 {
        0
    } else {
        count_direction(params, (n - 1) as nat, is_out) + (if params[n - 1].is_out == is_out {
            1nat
        } else {
            0nat
        })
    }
}

/// Inputs and outputs are numbered apart: each parameter's index is the
/// number of parameters of its own direction declared before it.
pub open spec fn well_numbered(params: Seq<ParameterModel>) -> bool {
    forall|i: int| 0 <= i < params.len() ==> #[trigger] numbered_at(params, i)
}

/// Parameter `i` carries the number of parameters of its direction before it.
pub open spec fn numbered_at(params: Seq<ParameterModel>, i: int) -> bool {
    params[i].value_index == count_direction(params, i as nat, params[i].is_out)
}

/// No parameter is a generic definition without arguments: such a type has
/// no raw category.
pub open spec fn all_concrete(params: Seq<ParameterModel>) -> bool {
    forall|i: int| 0 <= i < params.len() ==> !((#[trigger] params[i]).typ is Generic)
}

/// The number of inputs among the parameters.
pub open spec fn count_inputs(params: Seq<ParameterModel>) -> nat {
    count_direction(params, params.len(), false)
}

/// The number of outputs among the parameters.
pub open spec fn count_outputs(params: Seq<ParameterModel>) -> nat {
    count_direction(params, params.len(), true)
}

/// Inputs and outputs together are all the parameters.
pub proof fn lemma_count_direction(params: Seq<ParameterModel>, n: nat)
    requires
        n <= params.len(),
    ensures
        count_direction(params, n, true) + count_direction(params, n, false) == n,
    decreases n,
{
    if n > 0 {
        lemma_count_direction(params, (n - 1) as nat);
    }
}

/// The count of a direction only grows along the list.
pub proof fn lemma_count_monotonic(params: Seq<ParameterModel>, m: nat, n: nat, d: bool)
    requires
        m <= n <= params.len(),
    ensures
        count_direction(params, m, d) <= count_direction(params, n, d),
    decreases n,
{
    if m < n {
        lemma_count_monotonic(params, m, (n - 1) as nat, d);
    }
}

/// Counting over a list that has grown agrees with counting over the
/// shorter list, as far as that one reaches.
pub proof fn lemma_count_prefix(params: Seq<ParameterModel>, longer: Seq<ParameterModel>, n: nat, d: bool)
    requires
        n <= params.len() <= longer.len(),
        forall|i: int| 0 <= i < params.len() ==> params[i] == longer[i],
    ensures
        count_direction(params, n, d) == count_direction(longer, n, d),
    decreases n,
{
    if n > 0 {
        lemma_count_prefix(params, longer, (n - 1) as nat, d);
    }
}

/// In a well-numbered list, the index of a parameter is below the number of
/// parameters of its direction, and no two parameters of one direction share
/// an index.
pub proof fn lemma_indices_distinct(params: Seq<ParameterModel>, i: int, j: int)
    requires
        well_numbered(params),
        0 <= i < params.len(),
        0 <= j < params.len(),
    ensures
        params[i].value_index < count_direction(params, params.len(), params[i].is_out),
        i < j && params[i].is_out == params[j].is_out ==> params[i].value_index < params[j].value_index,
{
    assert(numbered_at(params, i));
    assert(numbered_at(params, j));
    lemma_count_monotonic(params, (i + 1) as nat, params.len(), params[i].is_out);
    assert(count_direction(params, (i + 1) as nat, params[i].is_out) == params[i].value_index + 1);
    if i < j {
        lemma_count_monotonic(params, (i + 1) as nat, j as nat, params[i].is_out);
    }
}

/// A method under construction: its parameters in declaration order, behind
/// the receiver that every method takes first.
#[derive(Debug)]
pub struct MethodSignature {
    out_count: usize,
    parameters: Vec<Parameter>,
    return_type: WinRTType,
    is_opaque: bool,
}

impl Clone for MethodSignature {
    /// A description with the same parameters, as well formed as this one.
    fn clone(&self) -> (sig: Self)
        ensures
            sig.params() == self.params(),
            sig.wf() == self.wf(),
    {
        let mut parameters: Vec<Parameter> = Vec::new();
        let mut i: usize = 0;
        while i < self.parameters.len()
            invariant
                i <= self.parameters@.len(),
                parameters@.len() == i,
                forall|k: int| 0 <= k < i ==> (#[trigger] parameters@[k])@ == self.parameters@[k]@,
            decreases self.parameters@.len() - i,
        {
            parameters.push(self.parameters[i].clone());
            i += 1;
        }
        let sig = MethodSignature {
            out_count: self.out_count,
            parameters,
            return_type: self.return_type.clone(),
            is_opaque: self.is_opaque,
        };
        proof {
            assert(sig.params() =~= self.params());
        }
        sig
    }
}

impl MethodSignature {
    /// The parameters declared so far.
    pub closed spec fn params(&self) -> Seq<ParameterModel> {
        parameter_models(self.parameters@)
    }

    /// The parameters are well numbered, the count of outputs is kept, and
    /// the method returns a status.
    pub closed spec fn wf(&self) -> bool {
        &&& well_numbered(self.params())
        &&& self.out_count == count_outputs(self.params())
        &&& self.return_type@ == TypeModel::HResult
    }

    /// A method without parameters that returns a status.
    pub fn new() -> (sig: Self)
        ensures
            sig.wf(),
            sig.params() == Seq::<ParameterModel>::empty(),
    {
        let sig = MethodSignature {
            out_count: 0,
            parameters: Vec::new(),
            return_type: WinRTType::HResult,
            is_opaque: false,
        };
        proof {
            assert(sig.params() =~= Seq::<ParameterModel>::empty());
        }
        sig
    }

    /// Declares an input of type `typ` after the parameters declared so far.
    pub fn add(self, typ: WinRTType) -> (sig: Self)
        requires
            self.wf(),
        ensures
            sig.wf(),
            sig.params() == self.params().push(
                ParameterModel {
                    typ: typ@,
                    value_index: count_inputs(self.params()) as usize,
                    is_out: false,
                },
            ),
            count_inputs(self.params()) <= usize::MAX,
    {
        let mut sig = self;
        let ghost before = sig.params();
        proof {
            lemma_count_direction(before, before.len());
        }
        let value_index = sig.parameters.len() - sig.out_count;
        let ghost added = ParameterModel { typ: typ@, value_index, is_out: false };
        sig.parameters.push(Parameter { is_out: false, typ, value_index });
        proof {
            let after = sig.params();
            assert(after =~= before.push(added));
            lemma_push_keeps_numbering(before, added);
        }
        sig
    }

    /// Declares an output of type `typ` after the parameters declared so far.
    pub fn add_out(self, typ: WinRTType) -> (sig: Self)
        requires
            self.wf(),
        ensures
            sig.wf(),
            sig.params() == self.params().push(
                ParameterModel {
                    typ: typ@,
                    value_index: count_outputs(self.params()) as usize,
                    is_out: true,
                },
            ),
            count_outputs(self.params()) <= usize::MAX,
    {
        let mut sig = self;
        let ghost before = sig.params();
        proof {
            lemma_count_direction(before, before.len());
        }
        let value_index = sig.out_count;
        let ghost added = ParameterModel { typ: typ@, value_index, is_out: true };
        sig.parameters.push(Parameter { is_out: true, typ, value_index });
        proof {
            let after = sig.params();
            assert(after =~= before.push(added));
            lemma_push_keeps_numbering(before, added);
            lemma_count_direction(after, after.len());
        }
        let total = sig.parameters.len();
        assert(sig.out_count < total);
        sig.out_count = sig.out_count + 1;
        sig
    }

    /// Whether no parameter is a generic definition without arguments, as
    /// `build` needs it.
    pub fn is_concrete(&self) -> (b: bool)
        ensures
            b == all_concrete(self.params()),
    {
        let mut i: usize = 0;
        while i < self.parameters.len()
            invariant
                i <= self.parameters@.len(),
                forall|k: int| 0 <= k < i ==> !((#[trigger] self.params()[k]).typ is Generic),
            decreases self.parameters@.len() - i,
        {
            let generic = match &self.parameters[i].typ {
                WinRTType::Generic { .. } => true,
                _ => false,
            };
            proof {
                assert(self.params()[i as int] == self.parameters@[i as int]@);
            }
            if generic {
                return false;
            }
            i += 1;
        }
        true
    }

    /// A method that yields one value of type `typ`.
    pub fn returning(typ: WinRTType) -> (sig: Self)
        requires
            !(typ@ is Generic),
        ensures
            sig.wf(),
            sig.params() == out_only(typ@),
            all_concrete(sig.params()),
    {
        MethodSignature::new().add_out(typ)
    }

    /// A method that takes one value of type `typ`.
    pub fn taking(typ: WinRTType) -> (sig: Self)
        requires
            !(typ@ is Generic),
        ensures
            sig.wf(),
            sig.params() == in_only(typ@),
            all_concrete(sig.params()),
    {
        MethodSignature::new().add(typ)
    }

    /// A method that takes one value of type `input` and yields one of type
    /// `output`.
    pub fn mapping(input: WinRTType, output: WinRTType) -> (sig: Self)
        requires
            !(input@ is Generic),
            !(output@ is Generic),
        ensures
            sig.wf(),
            sig.params() == in_then_out(input@, output@),
            all_concrete(sig.params()),
    {
        proof {
            reveal_with_fuel(count_direction, 3);
        }
        MethodSignature::new().add(input).add_out(output)
    }

    /// Freezes the description as the method at vtable slot `index`, and
    /// works out its foreign-call signature once: the receiver as a pointer,
    /// then a pointer for each output and the raw category of each input,
    /// returning a 32-bit status.
    pub fn build(self, index: usize) -> (method: Method)
        requires
            self.wf(),
            all_concrete(self.params()),
        ensures
            method.wf(),
            method.spec_index() == index,
            method.params() == self.params(),
            method.spec_shape().args@ == call_arg_types(self.params()),
            method.spec_shape().result == AbiType::I32,
    {
        let mut args: Vec<AbiType> = Vec::new();
        args.push(AbiType::Ptr);
        let mut i: usize = 0;
        while i < self.parameters.len()
            invariant
                i <= self.parameters@.len(),
                all_concrete(self.params()),
                args@.len() == i + 1,
                args@[0] == AbiType::Ptr,
                forall|k: int|
                    0 <= k < i ==> (#[trigger] args@[k + 1]) == call_arg_type(self.params()[k]),
            decreases self.parameters@.len() - i,
        {
            let param = &self.parameters[i];
            proof {
                assert(self.params()[i as int] == param@);
            }
            if param.is_out {
                args.push(AbiType::Ptr);
            } else {
                args.push(param.typ.abi_type());
            }
            i += 1;
        }
        let result = self.return_type.abi_type();
        let method = Method {
            info: MethodInfo { index, parameters: self.parameters, out_count: self.out_count },
            shape: CallShape { args, result },
        };
        proof {
            assert(method.params() =~= self.params());
            let params = method.params();
            assert forall|j: int| 0 <= j < params.len() + 1 implies method.shape.args@[j]
                == call_arg_types(params)[j] by {
                if j > 0 {
                    let k = j - 1;
                    assert(method.shape.args@[k + 1] == call_arg_type(params[k]));
                }
            }
            assert(method.shape.args@ =~= call_arg_types(params));
        }
        method
    }
}

proof fn lemma_push_keeps_numbering(before: Seq<ParameterModel>, added: ParameterModel)
    requires
        well_numbered(before),
        added.value_index == count_direction(before, before.len(), added.is_out),
    ensures
        well_numbered(before.push(added)),
        count_direction(before.push(added), before.len() + 1, added.is_out) == added.value_index + 1,
        count_direction(before.push(added), before.len() + 1, !added.is_out) == count_direction(
            before,
            before.len(),
            !added.is_out,
        ),
{
    let after = before.push(added);
    assert forall|i: int| 0 <= i < after.len() implies #[trigger] numbered_at(after, i) by {
        lemma_count_prefix(before, after, i as nat, after[i].is_out);
        if i < before.len() {
            assert(numbered_at(before, i));
        }
    }
    lemma_count_prefix(before, after, before.len(), true);
    lemma_count_prefix(before, after, before.len(), false);
}

/// The raw category in which a declared parameter travels: a pointer to its
/// storage for an output, the category of its type for an input.
pub open spec fn call_arg_type(param: ParameterModel) -> AbiType {
    if param.is_out {
        AbiType::Ptr
    } else {
        param.typ.spec_abi_type()
    }
}

/// The raw categories of a call's arguments: the receiver, then the parameters.
pub open spec fn call_arg_types(params: Seq<ParameterModel>) -> Seq<AbiType> {
    Seq::new(
        params.len() + 1,
        |i: int|
            if i == 0 {
                AbiType::Ptr
            } else {
                call_arg_type(params[i - 1])
            },
    )
}

/// A method's place in the vtable and its parameters.
#[derive(Debug)]
pub struct MethodInfo {
    pub index: usize,
    pub parameters: Vec<Parameter>,
    pub out_count: usize,
}

/// The foreign-call signature of a method: the raw category of each
/// argument, receiver first, and of the result.
#[derive(Debug, PartialEq, Eq)]
pub struct CallShape {
    pub args: Vec<AbiType>,
    pub result: AbiType,
}

/// One raw argument of a call.
#[derive(Debug, Clone, Copy, PartialEq, Eq)]
pub enum CallArg {
    /// The object the method is called on.
    Receiver,
    /// The raw value of an input.
    In(AbiValue),
    /// A pointer to the output storage with this number.
    Out(usize),
}

/// What a call needs before it is made: zeroed storage for each output, and
/// the raw arguments in the order the callee takes them.
#[derive(Debug)]
pub struct CallPlan {
    pub out_slots: Vec<AbiValue>,
    pub args: Vec<CallArg>,
}

/// A method ready to be called.
#[derive(Debug)]
pub struct Method {
    info: MethodInfo,
    shape: CallShape,
}

/// The raw argument for a declared parameter, given the input values.
pub open spec fn planned_arg(param: ParameterModel, inputs: Seq<ValueModel>) -> CallArg {
    if param.is_out {
        CallArg::Out(param.value_index)
    } else {
        CallArg::In(inputs[param.value_index as int].spec_raw())
    }
}

/// The models of a list of values.
pub open spec fn value_models(values: Seq<WinRTValue>) -> Seq<ValueModel> {
    Seq::new(values.len(), |i: int| values[i]@)
}

/// The typed outputs of a call that succeeded, for the first `n` parameters:
/// each output converted from its storage, in declaration order; the first
/// conversion that fails decides.
pub open spec fn converted_outputs(params: Seq<ParameterModel>, outs: Seq<AbiValue>, n: nat) -> Result<
    Seq<ValueModel>,
    ErrorModel,
>
    decreases n,
{
    if n == 0 {
        Ok(Seq::empty())
    } else {
        match converted_outputs(params, outs, (n - 1) as nat) {
            Err(e) => Err(e),
            Ok(values) => {
                let param = params[n - 1];
                if !param.is_out {
                    Ok(values)
                } else {
                    match param.typ.spec_from_out_value(outs[param.value_index as int]) {
                        Ok(v) => Ok(values.push(v)),
                        Err(e) => Err(e),
                    }
                }
            },
        }
    }
}

/// What a call yields: the failure status and nothing else where the status
/// is a failure, else the converted outputs.
pub open spec fn call_outcome(params: Seq<ParameterModel>, status: i32, outs: Seq<AbiValue>) -> Result<
    Seq<ValueModel>,
    ErrorModel,
> {
    if status < 0 {
        Err(ErrorModel::WindowsError(status))
    } else {
        converted_outputs(params, outs, params.len())
    }
}

/// The models of the values or of the error of a call's result.
pub open spec fn outcome_model(r: Result<Vec<WinRTValue>, Error>) -> Result<Seq<ValueModel>, ErrorModel> {
    match r {
        Ok(values) => Ok(value_models(values@)),
        Err(e) => Err(e@),
    }
}

impl Method {
    /// The vtable slot of the method.
    pub closed spec fn spec_index(&self) -> usize {
        self.info.index
    }

    /// The declared parameters.
    pub closed spec fn params(&self) -> Seq<ParameterModel> {
        parameter_models(self.info.parameters@)
    }

    /// The foreign-call signature.
    pub closed spec fn spec_shape(&self) -> CallShape {
        self.shape
    }

    /// The parameters are well numbered and concrete, and the foreign-call
    /// signature is the one they determine.
    pub closed spec fn wf(&self) -> bool {
        &&& well_numbered(self.params())
        &&& all_concrete(self.params())
        &&& self.info.out_count == count_outputs(self.params())
        &&& self.shape.args@ == call_arg_types(self.params())
        &&& self.shape.result == AbiType::I32
    }

    /// What `wf` says of the foreign-call signature.
    pub proof fn lemma_shape(&self)
        requires
            self.wf(),
        ensures
            self.spec_shape().args@ == call_arg_types(self.params()),
            self.spec_shape().result == AbiType::I32,
            well_numbered(self.params()),
            all_concrete(self.params()),
    {
    }

    /// The vtable slot of the method.
    pub fn index(&self) -> (i: usize)
        ensures
            i == self.spec_index(),
    {
        self.info.index
    }

    /// The declared parameters, in order.
    pub fn parameters(&self) -> (params: &Vec<Parameter>)
        ensures
            parameter_models(params@) == self.params(),
    {
        &self.info.parameters
    }

    /// The number of outputs.
    pub fn out_count(&self) -> (n: usize)
        requires
            self.wf(),
        ensures
            n == count_outputs(self.params()),
    {
        self.info.out_count
    }

    /// The foreign-call signature, worked out when the method was built.
    pub fn shape(&self) -> (shape: &CallShape)
        ensures
            *shape == self.spec_shape(),
    {
        &self.shape
    }

    /// Plans a call with the inputs `args`: zeroed storage for every output,
    /// then the raw arguments in declaration order behind the receiver, each
    /// input by its raw value and each output by its storage's number.
    pub fn prepare_call(&self, args: &[WinRTValue]) -> (plan: CallPlan)
        requires
            self.wf(),
            args@.len() >= count_inputs(self.params()),
            forall|i: int|
                0 <= i < count_inputs(self.params()) ==> !((#[trigger] args@[i])@ is Async),
        ensures
            plan.out_slots@.len() == count_outputs(self.params()),
            forall|i: int|
                0 <= i < self.params().len() && (#[trigger] self.params()[i]).is_out
                    ==> plan.out_slots@[self.params()[i].value_index as int]
                    == self.params()[i].typ.spec_abi_type().spec_default_value(),
            plan.args@.len() == self.params().len() + 1,
            plan.args@[0] == CallArg::Receiver,
            forall|i: int|
                0 <= i < self.params().len() ==> (#[trigger] plan.args@[i + 1]) == planned_arg(
                    self.params()[i],
                    value_models(args@),
                ),
    {
        let ghost params = self.params();
        let ghost inputs = value_models(args@);
        let mut out_slots: Vec<AbiValue> = Vec::new();
        let mut raw: Vec<CallArg> = Vec::new();
        raw.push(CallArg::Receiver);
        let mut i: usize = 0;
        proof {
            lemma_count_direction(params, params.len());
        }
        while i < self.info.parameters.len()
            invariant
                i <= self.info.parameters@.len(),
                params == self.params(),
                params.len() == self.info.parameters@.len(),
                inputs == value_models(args@),
                well_numbered(params),
                all_concrete(params),
                args@.len() >= count_inputs(params),
                forall|k: int| 0 <= k < count_inputs(params) ==> !((#[trigger] args@[k])@ is Async),
                out_slots@.len() == count_direction(params, i as nat, true),
                forall|k: int|
                    0 <= k < i && (#[trigger] params[k]).is_out ==> out_slots@[params[k].value_index as int]
                        == params[k].typ.spec_abi_type().spec_default_value(),
                raw@.len() == i + 1,
                raw@[0] == CallArg::Receiver,
                forall|k: int| 0 <= k < i ==> (#[trigger] raw@[k + 1]) == planned_arg(params[k], inputs),
            decreases self.info.parameters@.len() - i,
        {
            let param = &self.info.parameters[i];
            proof {
                assert(params[i as int] == param@);
                assert(numbered_at(params, i as int));
                lemma_indices_distinct(params, i as int, i as int);
            }
            if param.is_out {
                let ghost old_slots = out_slots@;
                out_slots.push(param.typ.abi_type().default_value());
                raw.push(CallArg::Out(param.value_index));
                proof {
                    assert forall|k: int| 0 <= k < i + 1 && (#[trigger] params[k]).is_out implies out_slots@[params[k].value_index as int]
                        == params[k].typ.spec_abi_type().spec_default_value() by {
                        if k < i {
                            lemma_indices_distinct(params, k, i as int);
                            assert(out_slots@[params[k].value_index as int] == old_slots[params[k].value_index as int]);
                        }
                    }
                }
            } else {
                let value = &args[param.value_index];
                proof {
                    assert(inputs[param.value_index as int] == value@);
                }
                raw.push(CallArg::In(value.libffi_arg()));
            }
            i += 1;
        }
        CallPlan { out_slots, args: raw }
    }

    /// Reads the outcome of a call that returned `status` and left `outs` in
    /// the output storage. A failure status is the whole outcome: nothing is
    /// converted. After a success each output is converted by its declared
    /// type, in declaration order.
    pub fn complete_call(&self, status: i32, outs: &[AbiValue]) -> (r: Result<Vec<WinRTValue>, Error>)
        requires
            self.wf(),
            outs@.len() == count_outputs(self.params()),
        ensures
            outcome_model(r) == call_outcome(self.params(), status, outs@),
            status < 0 ==> (r matches Err(e) && e@ == ErrorModel::WindowsError(status)),
            r matches Ok(values) ==> values@.len() == count_outputs(self.params()),
    {
        if !status_is_ok(status) {
            return Err(Error::WindowsError(status));
        }
        let ghost params = self.params();
        let mut values: Vec<WinRTValue> = Vec::new();
        let mut i: usize = 0;
        proof {
            assert(value_models(values@) =~= Seq::<ValueModel>::empty());
        }
        while i < self.info.parameters.len()
            invariant
                i <= self.info.parameters@.len(),
                params == self.params(),
                params.len() == self.info.parameters@.len(),
                well_numbered(params),
                status >= 0,
                outs@.len() == count_outputs(params),
                converted_outputs(params, outs@, i as nat) == Ok::<Seq<ValueModel>, ErrorModel>(
                    value_models(values@),
                ),
            decreases self.info.parameters@.len() - i,
        {
            let param = &self.info.parameters[i];
            proof {
                assert(params[i as int] == param@);
                lemma_indices_distinct(params, i as int, i as int);
            }
            if param.is_out {
                let ghost before = value_models(values@);
                match param.typ.from_out_value(&outs[param.value_index]) {
                    Ok(v) => {
                        values.push(v);
                        proof {
                            assert(value_models(values@) =~= before.push(v@));
                        }
                    },
                    Err(e) => {
                        proof {
                            assert(converted_outputs(params, outs@, (i + 1) as nat) == Err::<
                                Seq<ValueModel>,
                                ErrorModel,
                            >(e@));
                            lemma_conversion_error_stays(params, outs@, (i + 1) as nat, params.len());
                        }
                        return Err(e);
                    },
                }
            }
            i += 1;
        }
        proof {
            lemma_outputs_in_declared_order(params, outs@, params.len());
            assert(value_models(values@).len() == values@.len());
        }
        Ok(values)
    }
}

/// Once a conversion has failed, the outcome is that failure however many
/// parameters follow.
proof fn lemma_conversion_error_stays(params: Seq<ParameterModel>, outs: Seq<AbiValue>, n: nat, m: nat)
    requires
        n <= m,
        converted_outputs(params, outs, n) is Err,
    ensures
        converted_outputs(params, outs, m) == converted_outputs(params, outs, n),
    decreases m,
{
    if n < m {
        lemma_conversion_error_stays(params, outs, n, (m - 1) as nat);
    }
}

/// A call that failed yields its status and no value, whatever the output
/// storage holds.
pub proof fn lemma_failure_short_circuits(params: Seq<ParameterModel>, status: i32, outs: Seq<AbiValue>)
    requires
        status < 0,
    ensures
        call_outcome(params, status, outs) == Err::<Seq<ValueModel>, ErrorModel>(
            ErrorModel::WindowsError(status),
        ),
{
}

/// A call that succeeded yields, where every conversion succeeds, exactly
/// one value per declared output, in declaration order.
pub proof fn lemma_outputs_in_declared_order(params: Seq<ParameterModel>, outs: Seq<AbiValue>, n: nat)
    requires
        n <= params.len(),
        converted_outputs(params, outs, n) is Ok,
    ensures
        converted_outputs(params, outs, n)->Ok_0.len() == count_direction(params, n, true),
        forall|i: int|
            0 <= i < n && (#[trigger] params[i]).is_out ==> Ok::<ValueModel, ErrorModel>(
                converted_outputs(params, outs, n)->Ok_0[count_direction(params, i as nat, true) as int],
            ) == params[i].typ.spec_from_out_value(outs[params[i].value_index as int]),
    decreases n,
{
    if n > 0 {
        let m = (n - 1) as nat;
        lemma_outputs_in_declared_order(params, outs, m);
        lemma_count_direction(params, m);
        let earlier = converted_outputs(params, outs, m)->Ok_0;
        let all = converted_outputs(params, outs, n)->Ok_0;
        assert forall|i: int| 0 <= i < n && (#[trigger] params[i]).is_out implies Ok::<
            ValueModel,
            ErrorModel,
        >(all[count_direction(params, i as nat, true) as int]) == params[i].typ.spec_from_out_value(
            outs[params[i].value_index as int],
        ) by {
            if i < m {
                lemma_count_monotonic(params, (i + 1) as nat, m, true);
                assert(all[count_direction(params, i as nat, true) as int]
                    == earlier[count_direction(params, i as nat, true) as int]);
            }
        }
    }
}

/// The parameters of a method that takes nothing and yields nothing.
pub open spec fn no_params() -> Seq<ParameterModel> {
    Seq::empty()
}

/// The parameters of a method that yields one value of type `t`.
pub open spec fn out_only(t: TypeModel) -> Seq<ParameterModel> {
    no_params().push(ParameterModel { typ: t, value_index: 0, is_out: true })
}

/// The parameters of a method that takes one value of type `t`.
pub open spec fn in_only(t: TypeModel) -> Seq<ParameterModel> {
    no_params().push(ParameterModel { typ: t, value_index: 0, is_out: false })
}

/// The parameters of a method that takes one value of type `a` and yields
/// one of type `b`.
pub open spec fn in_then_out(a: TypeModel, b: TypeModel) -> Seq<ParameterModel> {
    in_only(a).push(ParameterModel { typ: b, value_index: 0, is_out: true })
}

/// The parameters of the six methods that every inspectable interface
/// starts with: only the fifth, at slot 4, has one, the class name it yields.
pub open spec fn inspectable_params(slot: int) -> Seq<ParameterModel> {
    if slot == 4 {
        out_only(TypeModel::HString)
    } else {
        no_params()
    }
}

/// An interface: its name, its identifier, and its methods by vtable slot.
#[derive(Debug)]
pub struct InterfaceSignature {
    pub name: String,
    pub iid: Guid,
    pub methods: Vec<Method>,
}

impl InterfaceSignature {
    /// Every method sits at the slot it was built for.
    pub open spec fn wf(&self) -> bool {
        forall|i: int|
            0 <= i < self.methods@.len() ==> (#[trigger] self.methods@[i]).wf() && self.methods@[i].spec_index()
                == i
    }

    /// An interface without methods.
    pub fn define_interface(name: String, iid: Guid) -> (t: Self)
        ensures
            t.wf(),
            t.name@ == name@,
            t.iid == iid,
            t.methods@.len() == 0,
    {
        InterfaceSignature { name, iid, methods: Vec::new() }
    }

    /// An interface that starts with the three methods every interface has:
    /// identity query, reference increment, reference decrement.
    pub fn define_from_iunknown(name: &str, iid: Guid) -> (t: Self)
        ensures
            t.wf(),
            t.name@ == name@,
            t.iid == iid,
            t.methods@.len() == 3,
            forall|i: int| 0 <= i < 3 ==> (#[trigger] t.methods@[i]).params() == no_params(),
    {
        let mut t = InterfaceSignature::define_interface(String::from_str(name), iid);
        t.add_method(MethodSignature::new());
        t.add_method(MethodSignature::new());
        t.add_method(MethodSignature::new());
        t
    }

    /// An interface that starts with the six methods every inspectable
    /// interface has; the fifth, at slot 4, yields the class name as a string.
    pub fn define_from_iinspectable(name: &str, iid: Guid) -> (t: Self)
        ensures
            t.wf(),
            t.name@ == name@,
            t.iid == iid,
            t.methods@.len() == 6,
            forall|i: int| 0 <= i < 6 ==> (#[trigger] t.methods@[i]).params() == inspectable_params(i),
    {
        let mut t = Self::define_from_iunknown(name, iid);
        t.add_method(MethodSignature::new());
        t.add_method(MethodSignature::returning(WinRTType::HString));
        t.add_method(MethodSignature::new());
        t
    }

    /// Appends `signature` as the method at the next vtable slot.
    pub fn add_method(&mut self, signature: MethodSignature)
        requires
            old(self).wf(),
            signature.wf(),
            all_concrete(signature.params()),
        ensures
            final(self).wf(),
            final(self).name == old(self).name,
            final(self).iid == old(self).iid,
            final(self).methods@.len() == old(self).methods@.len() + 1,
            forall|i: int| 0 <= i < old(self).methods@.len() ==> final(self).methods@[i] == old(self).methods@[i],
            final(self).methods@[old(self).methods@.len() as int].params() == signature.params(),
    {
        let method = signature.build(self.methods.len());
        self.methods.push(method);
    }
}

/// A runtime class: its name, and the interfaces of the class itself and of
/// its instances.
#[derive(Debug)]
pub struct RuntimeClassSignature {
    pub name: String,
    pub static_interfaces: Vec<InterfaceSignature>,
    pub instance_interfaces: Vec<InterfaceSignature>,
}

} // verus!
