use vstd::prelude::*;

verus! {

/// How many successor blocks a transaction waits for when the caller names
/// no number: a fixed, high safety margin rather than one derived from the
/// transaction's value or risk.
pub const DEFAULT_CONFIRMATIONS: usize = 24;

/// A failure reported by the remote contract call, by kind; `E` is the
/// endpoint's own error.
#[derive(Debug, PartialEq, Eq)]
pub enum ContractFailure<E> {
    /// The payload does not decode into the expected type.
    InvalidOutputType(String),
    /// The call could not be encoded or decoded against the interface.
    Abi(String),
    /// The endpoint rejected the request or could not be reached.
    Api(E),
    /// A deployment failed.
    Deployment(String),
    /// The contract does not offer the interface.
    InterfaceUnsupported,
}

/// The failures of a call through a binding; `E` is the endpoint's own error.
#[derive(Debug, PartialEq, Eq)]
pub enum DispatchError<E> {
    /// A transport or endpoint failure: the caller may retry.
    Remote(E),
    /// The remote answer does not match the shape that the binding was
    /// generated for: the live contract has drifted from its description.
    /// This is fatal and never replaced by a default value.
    BindingDrift(ContractFailure<E>),
    /// A placeholder value was to be encoded or decoded.
    UnimplementedType,
}

/// Whether a failed call shows that the binding no longer matches the live
/// contract, rather than that the endpoint failed.
pub open spec fn is_drift<E>(e: ContractFailure<E>) -> bool {
    !(e is Api)
}

/// What a query hands back for the outcome of its remote call: the decoded
/// value, a recoverable remote error for an endpoint failure, and binding
/// drift for any other failure, never a default value.
pub fn query_result<T, E>(outcome: Result<T, ContractFailure<E>>) -> (r: Result<T, DispatchError<E>>)
    ensures
        outcome is Ok ==> r == Ok::<T, DispatchError<E>>(outcome->Ok_0),
        outcome matches Err(ContractFailure::Api(e)) ==> r == Err::<T, DispatchError<E>>(
            DispatchError::Remote(e),
        ),
        outcome is Err && is_drift(outcome->Err_0) ==> r == Err::<T, DispatchError<E>>(
            DispatchError::BindingDrift(outcome->Err_0),
        ),
{
    match outcome {
        Ok(v) => Ok(v),
        Err(ContractFailure::Api(e)) => Err(DispatchError::Remote(e)),
        Err(f) => Err(DispatchError::BindingDrift(f)),
    }
}

/// What a transaction hands back for the outcome of its signing, submission
/// and wait: the receipt, or a remote error, never retried.
pub fn send_result<T, E>(outcome: Result<T, E>) -> (r: Result<T, DispatchError<E>>)
    ensures
        outcome is Ok ==> r == Ok::<T, DispatchError<E>>(outcome->Ok_0),
        outcome is Err ==> r == Err::<T, DispatchError<E>>(DispatchError::Remote(outcome->Err_0)),
{
    match outcome {
        Ok(v) => Ok(v),
        Err(e) => Err(DispatchError::Remote(e)),
    }
}

/// The number of confirmations a transaction waits for.
pub fn confirmations_or_default(confirmations: Option<usize>) -> (r: usize)
    ensures
        r == match confirmations {
            Some(n) => n,
            None => DEFAULT_CONFIRMATIONS,
        },
{
    match confirmations {
        Some(n) => n,
        None => DEFAULT_CONFIRMATIONS,
    }
}

/// The stand-in for a declared type that the bindings do not materialise.
/// Its field is private and nothing in the library makes one, so no value of
/// it exists to be encoded or decoded.
#[derive(Debug, PartialEq, Eq)]
pub struct Unimplemented {
    unconstructible: (),
}

impl Unimplemented {
    /// Decoding a placeholder always fails.
    pub fn from_token<T, E>(token: T) -> (r: Result<Unimplemented, DispatchError<E>>)
        ensures
            r == Err::<Unimplemented, DispatchError<E>>(DispatchError::UnimplementedType),
    {
        Err(DispatchError::UnimplementedType)
    }

    /// Encoding a placeholder always fails.
    pub fn into_token<T, E>(self) -> (r: Result<T, DispatchError<E>>)
        ensures
            r == Err::<T, DispatchError<E>>(DispatchError::UnimplementedType),
    {
        Err(DispatchError::UnimplementedType)
    }
}

/// The value of a query with no outputs.
#[derive(Debug, Clone, Copy, PartialEq, Eq)]
pub struct Empty;

impl Empty {
    /// Decodes the value of a query with no outputs: only an empty payload
    /// decodes.
    pub fn from_tokens<T, E>(tokens: Vec<T>) -> (r: Result<Empty, ContractFailure<E>>)
        ensures
            r is Ok <==> tokens@.len() == 0,
            r matches Err(ContractFailure::InvalidOutputType(m)) ==> m@ == "Expected no tokens"@,
            r is Err ==> r->Err_0 is InvalidOutputType,
    {
        if tokens.len() == 0 {
            Ok(Empty)
        } else {
            Err(ContractFailure::InvalidOutputType(String::from_str("Expected no tokens")))
        }
    }
}

} // verus!
