use vstd::prelude::*;

use crate::abi::{Abi, Function, Param, ParamType, StateMutability};
use crate::mapper::{is_host_of, nesting, param_type, HostType};
use crate::names::{rust_name_of, to_rust_name};

verus! {

/// How a binding reaches the ledger.
#[derive(Debug, Clone, Copy, PartialEq, Eq)]
pub enum DispatchKind {
    /// A read-only call that returns a decoded value.
    Query,
    /// A signed, state-mutating transaction that returns a receipt.
    Transaction,
}

/// What a binding hands back to its caller.
#[derive(Debug, PartialEq, Eq)]
pub enum ReturnShape {
    /// A decoded value of the given representation.
    Value(HostType),
    /// The submission receipt of a transaction.
    Receipt,
}

/// A resolved and typed input of a binding.
#[derive(Debug, PartialEq, Eq)]
pub struct BoundParam {
    pub name: String,
    pub host: HostType,
}

/// The typed client method generated for one function.
#[derive(Debug, PartialEq, Eq)]
pub struct Binding {
    /// The resolved identifier of the method.
    pub name: String,
    /// The function's name as declared, which the dispatcher calls.
    pub eth_name: String,
    pub params: Vec<BoundParam>,
    pub kind: DispatchKind,
    pub return_shape: ReturnShape,
}

/// Read-only functions are queries; the others are transactions.
pub open spec fn dispatch_kind_of(m: StateMutability) -> DispatchKind {
    match m {
        StateMutability::Pure | StateMutability::View => DispatchKind::Query,
        StateMutability::Nonpayable | StateMutability::Payable => DispatchKind::Transaction,
    }
}

/// Classifies a function by its mutability.
pub fn dispatch_kind(m: StateMutability) -> (r: DispatchKind)
    ensures
        r == dispatch_kind_of(m),
{
    match m {
        StateMutability::Pure | StateMutability::View => DispatchKind::Query,
        StateMutability::Nonpayable | StateMutability::Payable => DispatchKind::Transaction,
    }
}

/// Whether an input of the type `t`, in a function of `n_inputs` inputs,
/// is replaced by a placeholder: where its nesting, plus one when there are
/// several inputs, exceeds one.
pub open spec fn input_placeholder(t: ParamType, n_inputs: nat) -> bool {
    nesting(t) + (if n_inputs > 1 { 1nat } else { 0nat }) > 1
}

/// Whether `h` is the representation of an input of the type `t` in a
/// function of `n_inputs` inputs.
pub open spec fn is_input_host(t: ParamType, n_inputs: nat, h: HostType) -> bool {
    if input_placeholder(t, n_inputs) {
        h == HostType::Unimplemented
    } else {
        is_host_of(t, h)
    }
}

/// Whether `h` is the representation of one entry among several outputs of
/// the type `t`: a placeholder where the type nests at all.
pub open spec fn is_output_entry(t: ParamType, h: HostType) -> bool {
    if nesting(t) != 0 {
        h == HostType::Unimplemented
    } else {
        is_host_of(t, h)
    }
}

/// Whether `h` is the value that a query with the given outputs return_shape.
pub open spec fn is_query_return(outputs: Seq<Param>, h: HostType) -> bool {
    if outputs.len() == 0 {
        h == HostType::Empty
    } else if outputs.len() == 1 {
        if nesting(outputs[0].kind) < 2 {
            is_host_of(outputs[0].kind, h)
        } else {
            h == HostType::Unimplemented
        }
    } else {
        match h {
            HostType::Product(hs) => hs.len() == outputs.len() && forall|i: int|
                0 <= i < outputs.len() ==> #[trigger] is_output_entry(outputs[i].kind, hs[i]),
            _ => false,
        }
    }
}

/// The representation of an input of the type `kind` in a function of
/// `n_inputs` inputs.
pub fn input_type(kind: &ParamType, n_inputs: usize) -> (r: HostType)
    ensures
        is_input_host(*kind, n_inputs as nat, r),
{
    let extra: usize = if n_inputs > 1 { 1 } else { 0 };
    let (h, n) = param_type(kind);
    if n > 1 || n + extra > 1 {
        HostType::Unimplemented
    } else {
        h
    }
}

/// The value that a query with the given outputs return_shape.
pub fn query_return(outputs: &Vec<Param>) -> (r: HostType)
    ensures
        is_query_return(outputs@, r),
{
    if outputs.len() == 0 {
        HostType::Empty
    } else if outputs.len() == 1 {
        let (h, n) = param_type(&outputs[0].kind);
        if n < 2 {
            h
        } else {
            HostType::Unimplemented
        }
    } else {
        let mut hosts: Vec<HostType> = Vec::new();
        let mut i: usize = 0;
        while i < outputs.len()
            invariant
                i <= outputs.len(),
                hosts.len() == i,
                forall|j: int| 0 <= j < i ==> #[trigger] is_output_entry(outputs[j].kind, hosts[j]),
            decreases outputs.len() - i,
        {
            let (h, n) = param_type(&outputs[i].kind);
            if n != 0 {
                hosts.push(HostType::Unimplemented);
            } else {
                hosts.push(h);
            }
            i = i + 1;
        }
        HostType::Product(hosts)
    }
}

/// Whether `b` is the binding generated for the function `f`.
pub open spec fn is_binding_of(f: Function, b: Binding) -> bool {
    &&& b.name@ == rust_name_of("function"@, f.name@, 0)
    &&& b.eth_name@ == f.name@
    &&& b.params.len() == f.inputs.len()
    &&& forall|i: int|
        0 <= i < f.inputs.len() ==> {
            &&& (#[trigger] b.params[i]).name@ == rust_name_of("input"@, f.inputs[i].name@, i as nat)
            &&& is_input_host(f.inputs[i].kind, f.inputs.len() as nat, b.params[i].host)
        }
    &&& b.kind == dispatch_kind_of(f.state_mutability)
    &&& match b.kind {
        DispatchKind::Transaction => b.return_shape == ReturnShape::Receipt,
        DispatchKind::Query => match b.return_shape {
            ReturnShape::Value(h) => is_query_return(f.outputs@, h),
            ReturnShape::Receipt => false,
        },
    }
}

/// Generates the binding of one function.
pub fn fn_from_abi(function: &Function) -> (r: Binding)
    ensures
        is_binding_of(*function, r),
{
    let name = to_rust_name("function", function.name.as_str(), 0);
    let eth_name = function.name.clone();
    let n_inputs = function.inputs.len();
    let mut params: Vec<BoundParam> = Vec::new();
    let mut i: usize = 0;
    while i < n_inputs
        invariant
            n_inputs == function.inputs.len(),
            i <= n_inputs,
            params.len() == i,
            forall|j: int|
                0 <= j < i ==> {
                    &&& (#[trigger] params[j]).name@ == rust_name_of(
                        "input"@,
                        function.inputs[j].name@,
                        j as nat,
                    )
                    &&& is_input_host(function.inputs[j].kind, n_inputs as nat, params[j].host)
                },
        decreases n_inputs - i,
    {
        let param = &function.inputs[i];
        let pname = to_rust_name("input", param.name.as_str(), i);
        let host = input_type(&param.kind, n_inputs);
        params.push(BoundParam { name: pname, host });
        i = i + 1;
    }
    let kind = dispatch_kind(function.state_mutability);
    let return_shape = match kind {
        DispatchKind::Transaction => ReturnShape::Receipt,
        DispatchKind::Query => ReturnShape::Value(query_return(&function.outputs)),
    };
    Binding { name, eth_name, params, kind, return_shape }
}


/// The functions of an interface description, in order.
pub open spec fn functions_of(abis: Seq<Abi>) -> Seq<Function>
    decreases abis.len(),
{
    if abis.len() == 0 {
        Seq::empty()
    } else {
        let rest = functions_of(abis.drop_last());
        match abis.last() {
            Abi::Function(f) => rest.push(f),
            _ => rest,
        }
    }
}

/// Whether `bs` holds, in order, the bindings of the functions of `abis`.
pub open spec fn is_bindings_of(abis: Seq<Abi>, bs: Seq<Binding>) -> bool {
    &&& bs.len() == functions_of(abis).len()
    &&& forall|k: int| 0 <= k < bs.len() ==> is_binding_of(functions_of(abis)[k], #[trigger] bs[k])
}

/// Generates one binding per function entry, in the order of the entries;
/// the other entries give none.
pub fn generate(abis: &Vec<Abi>) -> (r: Vec<Binding>)
    ensures
        is_bindings_of(abis@, r@),
{
    let mut bindings: Vec<Binding> = Vec::new();
    let mut i: usize = 0;
    while i < abis.len()
        invariant
            i <= abis.len(),
            is_bindings_of(abis@.take(i as int), bindings@),
        decreases abis.len() - i,
    {
        proof {
            assert(abis@.take(i + 1).drop_last() =~= abis@.take(i as int));
        }
        match &abis[i] {
            Abi::Function(f) => {
                let b = fn_from_abi(f);
                bindings.push(b);
            },
            _ => {},
        }
        i = i + 1;
    }
    proof {
        assert(abis@.take(abis.len() as int) =~= abis@);
    }
    bindings
}


/// In a function of several inputs, an input of a non-empty tuple type is a
/// placeholder; in a function of at most one input, an input of a tuple type
/// whose members do not nest keeps its real structural type.
pub proof fn law_tuple_inputs(f: Function, b: Binding, i: int)
    requires
        is_binding_of(f, b),
        0 <= i < f.inputs.len(),
        f.inputs[i].kind is Tuple,
    ensures
        f.inputs.len() > 1 && f.inputs[i].kind->Tuple_0.len() > 0 ==> b.params[i].host
            == HostType::Unimplemented,
        f.inputs.len() <= 1 && nesting(f.inputs[i].kind) == 1 ==> {
            &&& is_host_of(f.inputs[i].kind, b.params[i].host)
            &&& (b.params[i].host is Product || b.params[i].host is Empty)
        },
{
    assert(is_input_host(f.inputs[i].kind, f.inputs.len() as nat, b.params[i].host));
}

/// A query with exactly one output returns a placeholder where that output
/// nests two levels or more, and its real type otherwise.
pub proof fn law_single_output(f: Function, b: Binding)
    requires
        is_binding_of(f, b),
        f.outputs.len() == 1,
        b.kind == DispatchKind::Query,
    ensures
        nesting(f.outputs[0].kind) >= 2 ==> b.return_shape == ReturnShape::Value(
            HostType::Unimplemented,
        ),
        nesting(f.outputs[0].kind) < 2 ==> (b.return_shape matches ReturnShape::Value(h)
            && is_host_of(f.outputs[0].kind, h)),
{
}

/// A view function is always bound as a query; a payable function always as a
/// transaction that returns a receipt, whatever outputs it declares.
pub proof fn law_classification(f: Function, b: Binding)
    requires
        is_binding_of(f, b),
    ensures
        f.state_mutability == StateMutability::View ==> b.kind == DispatchKind::Query
            && b.return_shape is Value,
        f.state_mutability == StateMutability::Payable ==> b.kind == DispatchKind::Transaction
            && b.return_shape == ReturnShape::Receipt,
{
}

} // verus!
