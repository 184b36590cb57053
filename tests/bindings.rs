use solidity_bindgen::{
    bindings_from_abi, confirmations_or_default, decimal_string, dispatch_kind, fn_from_abi,
    generate, input_type, is_well_formed, param_type, query_result, query_return, send_result,
    to_rust_name, Abi, Binding, BoundParam, ContractFailure, DispatchError, DispatchKind, Empty,
    Function, HostType, Param, ParamType, ReturnShape, StateMutability, Unimplemented,
    ValidationError, DEFAULT_CONFIRMATIONS,
};

fn param(name: &str, kind: ParamType) -> Param {
    Param { name: name.to_string(), kind }
}

fn function(name: &str, inputs: Vec<Param>, outputs: Vec<Param>, m: StateMutability) -> Function {
    Function { name: name.to_string(), inputs, outputs, state_mutability: m }
}

fn bound(name: &str, host: HostType) -> BoundParam {
    BoundParam { name: name.to_string(), host }
}

#[test]
fn integers_map_to_fixed_width_counterparts() {
    let mut bits: usize = 8;
    while bits < 256 {
        assert_eq!(param_type(&ParamType::Int(bits)), (HostType::Int(bits), 0));
        assert_eq!(param_type(&ParamType::Uint(bits)), (HostType::Uint(bits), 0));
        bits += 8;
    }
}

#[test]
fn integers_of_256_bits() {
    assert_eq!(param_type(&ParamType::Int(256)), (HostType::Unimplemented, 0));
    assert_eq!(param_type(&ParamType::Uint(256)), (HostType::UnsignedBigInt, 0));
}

#[test]
fn base_types_map_without_nesting() {
    assert_eq!(param_type(&ParamType::Address), (HostType::Address, 0));
    assert_eq!(param_type(&ParamType::Bytes), (HostType::Bytes, 0));
    assert_eq!(param_type(&ParamType::FixedBytes(32)), (HostType::FixedBytes(32), 0));
    assert_eq!(param_type(&ParamType::Bool), (HostType::Bool, 0));
    assert_eq!(param_type(&ParamType::String), (HostType::Text, 0));
}

#[test]
fn empty_tuple_is_unit_of_depth_one() {
    assert_eq!(param_type(&ParamType::Tuple(vec![])), (HostType::Empty, 1));
}

#[test]
fn nesting_counts_tuples_not_containers() {
    let inner = ParamType::Tuple(vec![ParamType::Bool, ParamType::Uint(8)]);
    let t = ParamType::Array(Box::new(ParamType::Tuple(vec![
        ParamType::Address,
        ParamType::FixedArray(Box::new(inner), 3),
    ])));
    let (h, n) = param_type(&t);
    assert_eq!(n, 2);
    assert_eq!(
        h,
        HostType::Sequence(Box::new(HostType::Product(vec![
            HostType::Address,
            HostType::FixedSequence(
                Box::new(HostType::Product(vec![HostType::Bool, HostType::Uint(8)])),
                3
            ),
        ])))
    );
}

#[test]
fn tuple_input_among_several_is_placeholder() {
    let f = function(
        "f",
        vec![
            param("a", ParamType::Tuple(vec![ParamType::Bool, ParamType::Uint(8)])),
            param("b", ParamType::Bool),
        ],
        vec![],
        StateMutability::View,
    );
    let b = fn_from_abi(&f);
    assert_eq!(b.params[0], bound("a", HostType::Unimplemented));
    assert_eq!(b.params[1], bound("b", HostType::Bool));
}

#[test]
fn single_tuple_input_keeps_structure() {
    let t = ParamType::Tuple(vec![ParamType::Bool, ParamType::Uint(8)]);
    assert_eq!(input_type(&t, 1), HostType::Product(vec![HostType::Bool, HostType::Uint(8)]));
    assert_eq!(input_type(&t, 0), HostType::Product(vec![HostType::Bool, HostType::Uint(8)]));
    let deep = ParamType::Tuple(vec![ParamType::Tuple(vec![ParamType::Bool])]);
    assert_eq!(input_type(&deep, 1), HostType::Unimplemented);
}

#[test]
fn single_output_nesting_threshold() {
    let shallow = vec![param("", ParamType::Tuple(vec![ParamType::Bool]))];
    assert_eq!(query_return(&shallow), HostType::Product(vec![HostType::Bool]));
    let deep = vec![param("", ParamType::Tuple(vec![ParamType::Tuple(vec![ParamType::Bool])]))];
    assert_eq!(query_return(&deep), HostType::Unimplemented);
    let plain = vec![param("", ParamType::Uint(64))];
    assert_eq!(query_return(&plain), HostType::Uint(64));
}

#[test]
fn several_outputs_replace_nested_entries() {
    let outs = vec![
        param("", ParamType::Uint(8)),
        param("", ParamType::Tuple(vec![ParamType::Bool])),
        param("", ParamType::Array(Box::new(ParamType::String))),
    ];
    assert_eq!(
        query_return(&outs),
        HostType::Product(vec![
            HostType::Uint(8),
            HostType::Unimplemented,
            HostType::Sequence(Box::new(HostType::Text)),
        ])
    );
    assert_eq!(query_return(&vec![]), HostType::Empty);
}

#[test]
fn empty_names_are_synthesized_by_position() {
    assert_eq!(to_rust_name("input", "", 0), "input_0");
    assert_eq!(to_rust_name("input", "", 1), "input_1");
    assert_eq!(to_rust_name("function", "", 12), "function_12");
}

#[test]
fn declared_names_become_snake_case() {
    assert_eq!(to_rust_name("function", "Transfer", 0), "transfer");
    assert_eq!(to_rust_name("function", "balanceOf", 0), "balance_of");
    assert_eq!(to_rust_name("input", "newOwner", 4), "new_owner");
}

#[test]
fn decimal_notation() {
    assert_eq!(decimal_string(0), "0");
    assert_eq!(decimal_string(9), "9");
    assert_eq!(decimal_string(10), "10");
    assert_eq!(decimal_string(1234567890), "1234567890");
    assert_eq!(decimal_string(usize::MAX), usize::MAX.to_string());
}

#[test]
fn mutability_classification() {
    assert_eq!(dispatch_kind(StateMutability::Pure), DispatchKind::Query);
    assert_eq!(dispatch_kind(StateMutability::View), DispatchKind::Query);
    assert_eq!(dispatch_kind(StateMutability::Nonpayable), DispatchKind::Transaction);
    assert_eq!(dispatch_kind(StateMutability::Payable), DispatchKind::Transaction);
}

#[test]
fn view_is_query_and_payable_returns_receipt() {
    let outs = vec![param("", ParamType::Uint(256))];
    let view = fn_from_abi(&function("get", vec![], outs, StateMutability::View));
    assert_eq!(view.kind, DispatchKind::Query);
    assert_eq!(view.return_shape, ReturnShape::Value(HostType::UnsignedBigInt));
    let outs = vec![param("", ParamType::Uint(256))];
    let pay = fn_from_abi(&function("deposit", vec![], outs, StateMutability::Payable));
    assert_eq!(pay.kind, DispatchKind::Transaction);
    assert_eq!(pay.return_shape, ReturnShape::Receipt);
}

#[test]
fn balance_of_scenario() {
    let f = function(
        "balanceOf",
        vec![param("owner", ParamType::Address)],
        vec![param("", ParamType::Uint(256))],
        StateMutability::View,
    );
    let expected = Binding {
        name: "balance_of".to_string(),
        eth_name: "balanceOf".to_string(),
        params: vec![bound("owner", HostType::Address)],
        kind: DispatchKind::Query,
        return_shape: ReturnShape::Value(HostType::UnsignedBigInt),
    };
    assert_eq!(fn_from_abi(&f), expected);
}

#[test]
fn unnamed_transaction_scenario() {
    let f = function(
        "",
        vec![param("", ParamType::Bool), param("", ParamType::Bool)],
        vec![],
        StateMutability::Nonpayable,
    );
    let expected = Binding {
        name: "function_0".to_string(),
        eth_name: String::new(),
        params: vec![bound("input_0", HostType::Bool), bound("input_1", HostType::Bool)],
        kind: DispatchKind::Transaction,
        return_shape: ReturnShape::Receipt,
    };
    assert_eq!(fn_from_abi(&f), expected);
}

#[test]
fn generate_skips_other_entries_and_keeps_order() {
    let abis = vec![
        Abi::Constructor,
        Abi::Function(function("first", vec![], vec![], StateMutability::Pure)),
        Abi::Event,
        Abi::Receive,
        Abi::Function(function("second", vec![], vec![], StateMutability::Payable)),
        Abi::Fallback,
    ];
    let bs = generate(&abis);
    assert_eq!(bs.len(), 2);
    assert_eq!(bs[0].name, "first");
    assert_eq!(bs[0].return_shape, ReturnShape::Value(HostType::Empty));
    assert_eq!(bs[1].name, "second");
    assert_eq!(bs[1].return_shape, ReturnShape::Receipt);
    assert!(generate(&vec![]).is_empty());
}

#[test]
fn validation_accepts_well_formed_description() {
    let abis = vec![Abi::Function(function(
        "balanceOf",
        vec![param("owner", ParamType::Address)],
        vec![param("", ParamType::Uint(256))],
        StateMutability::View,
    ))];
    let bs = bindings_from_abi(&abis).unwrap();
    assert_eq!(bs, generate(&abis));
}

#[test]
fn validation_rejects_malformed_types() {
    assert!(!is_well_formed(&ParamType::Int(7)));
    assert!(!is_well_formed(&ParamType::Uint(264)));
    assert!(!is_well_formed(&ParamType::FixedBytes(0)));
    assert!(!is_well_formed(&ParamType::FixedBytes(33)));
    assert!(!is_well_formed(&ParamType::Tuple(vec![ParamType::Bool, ParamType::Int(0)])));
    assert!(is_well_formed(&ParamType::Tuple(vec![ParamType::Bool, ParamType::Int(24)])));
    let abis = vec![Abi::Function(function(
        "f",
        vec![],
        vec![param("", ParamType::Array(Box::new(ParamType::Uint(12))))],
        StateMutability::View,
    ))];
    assert_eq!(bindings_from_abi(&abis), Err(ValidationError::MalformedType));
}

#[test]
fn validation_rejects_colliding_identifiers() {
    let abis = vec![
        Abi::Function(function("Transfer", vec![], vec![], StateMutability::Nonpayable)),
        Abi::Function(function("transfer", vec![], vec![], StateMutability::Nonpayable)),
    ];
    assert_eq!(bindings_from_abi(&abis), Err(ValidationError::DuplicateFunctionIdentifier));
    let abis = vec![Abi::Function(function(
        "f",
        vec![param("input_1", ParamType::Bool), param("", ParamType::Bool)],
        vec![],
        StateMutability::Nonpayable,
    ))];
    assert_eq!(bindings_from_abi(&abis), Err(ValidationError::DuplicateInputIdentifier));
}

#[test]
fn default_confirmations() {
    assert_eq!(confirmations_or_default(None), 24);
    assert_eq!(DEFAULT_CONFIRMATIONS, 24);
    assert_eq!(confirmations_or_default(Some(3)), 3);
    assert_eq!(confirmations_or_default(Some(0)), 0);
}

#[test]
fn undecodable_query_payload_is_drift() {
    let r: Result<u64, DispatchError<String>> =
        query_result(Err(ContractFailure::InvalidOutputType("bad".to_string())));
    assert_eq!(
        r,
        Err(DispatchError::BindingDrift(ContractFailure::InvalidOutputType("bad".to_string())))
    );
    let r: Result<u64, DispatchError<String>> =
        query_result(Err(ContractFailure::InterfaceUnsupported));
    assert_eq!(r, Err(DispatchError::BindingDrift(ContractFailure::InterfaceUnsupported)));
    let r: Result<u64, DispatchError<String>> =
        query_result(Err(ContractFailure::Abi("no such function".to_string())));
    assert!(matches!(r, Err(DispatchError::BindingDrift(ContractFailure::Abi(_)))));
}

#[test]
fn remote_failures_and_values_pass_through() {
    let r: Result<u64, DispatchError<String>> =
        query_result(Err(ContractFailure::Api("down".to_string())));
    assert_eq!(r, Err(DispatchError::Remote("down".to_string())));
    assert_eq!(query_result::<u64, String>(Ok(7)), Ok(7));
    assert_eq!(send_result::<u64, String>(Ok(1)), Ok(1));
    assert_eq!(
        send_result::<u64, String>(Err("rejected".to_string())),
        Err(DispatchError::Remote("rejected".to_string()))
    );
}

#[test]
fn empty_decodes_only_from_no_tokens() {
    assert_eq!(Empty::from_tokens::<u8, String>(vec![]), Ok(Empty));
    assert_eq!(
        Empty::from_tokens::<u8, String>(vec![1u8]),
        Err(ContractFailure::InvalidOutputType("Expected no tokens".to_string()))
    );
}

#[test]
fn placeholder_never_decodes() {
    assert_eq!(
        Unimplemented::from_token::<u32, String>(5u32),
        Err(DispatchError::UnimplementedType)
    );
}


#[test]
fn resolving_a_resolved_name_keeps_it() {
    let first = to_rust_name("input", "", 0);
    assert_eq!(to_rust_name("input", &first, 7), "input_0");
    let snake = to_rust_name("function", "Transfer", 0);
    assert_eq!(to_rust_name("function", &snake, 0), snake);
    assert_eq!(to_rust_name("input", "", 0), to_rust_name("input", "", 0));
}

#[test]
fn generated_names_follow_resolution() {
    let f = function(
        "setApprovalForAll",
        vec![param("operator", ParamType::Address), param("", ParamType::Bool)],
        vec![],
        StateMutability::Nonpayable,
    );
    let b = fn_from_abi(&f);
    assert_eq!(b.name, "set_approval_for_all");
    assert_eq!(b.eth_name, "setApprovalForAll");
    assert_eq!(b.params, vec![bound("operator", HostType::Address), bound("input_1", HostType::Bool)]);
}

#[test]
fn empty_tuple_input_among_several_is_placeholder() {
    assert_eq!(input_type(&ParamType::Tuple(vec![]), 2), HostType::Unimplemented);
    assert_eq!(input_type(&ParamType::Tuple(vec![]), 1), HostType::Empty);
    assert_eq!(
        input_type(&ParamType::Array(Box::new(ParamType::Uint(256))), 3),
        HostType::Sequence(Box::new(HostType::UnsignedBigInt))
    );
}
