//! Typed bindings for contract interface descriptions.
//!
//! The library turns an interface description (ordered function signatures
//! with typed inputs, typed outputs and a mutability class) into one binding
//! per function, and holds the decisions that a runtime dispatcher makes when
//! it runs those bindings against a remote ledger endpoint.

mod abi;
mod mapper;
mod names;
mod binding;
mod dispatch;
mod validate;

pub use abi::{Abi, Function, Param, ParamType, StateMutability};
pub use mapper::{param_type, HostType};
pub use names::{decimal_string, to_rust_name};
pub use binding::{
    dispatch_kind, fn_from_abi, generate, input_type, query_return, Binding, BoundParam, DispatchKind,
    ReturnShape,
};
pub use validate::{bindings_from_abi, is_well_formed, ValidationError};
pub use dispatch::{
    confirmations_or_default, query_result, send_result, ContractFailure, DispatchError, Empty,
    Unimplemented, DEFAULT_CONFIRMATIONS,
};
