use vstd::prelude::*;

verus! {

/// A declared type of a contract interface.
#[derive(Debug, PartialEq, Eq)]
pub enum ParamType {
    /// A 20-byte account address.
    Address,
    /// A byte sequence of any length.
    Bytes,
    /// A signed integer of the given width in bits.
    Int(usize),
    /// An unsigned integer of the given width in bits.
    Uint(usize),
    Bool,
    String,
    /// A sequence of any length of one element type.
    Array(Box<ParamType>),
    /// A byte array of the given length.
    FixedBytes(usize),
    /// A sequence of one element type and of the given length.
    FixedArray(Box<ParamType>, usize),
    /// An ordered product of member types.
    Tuple(Vec<ParamType>),
}

/// A named parameter (an input or an output) of a function.
#[derive(Debug, PartialEq, Eq)]
pub struct Param {
    pub name: String,
    pub kind: ParamType,
}

/// How a function may touch the ledger's state.
#[derive(Debug, Clone, Copy, PartialEq, Eq)]
pub enum StateMutability {
    Pure,
    View,
    Nonpayable,
    Payable,
}

/// A callable function of a contract interface.
#[derive(Debug, PartialEq, Eq)]
pub struct Function {
    pub name: String,
    pub inputs: Vec<Param>,
    pub outputs: Vec<Param>,
    pub state_mutability: StateMutability,
}

/// One entry of an interface description. Only functions are bound.
#[derive(Debug, PartialEq, Eq)]
pub enum Abi {
    Function(Function),
    Constructor,
    Receive,
    Fallback,
    Event,
}

} // verus!
