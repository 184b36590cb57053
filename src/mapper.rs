use vstd::prelude::*;

use crate::abi::ParamType;

verus! {

/// The representation that a binding uses for a declared type.
#[derive(Debug, PartialEq, Eq)]
pub enum HostType {
    /// A fixed 20-byte address.
    Address,
    /// A byte sequence of any length.
    Bytes,
    /// A byte array of the given length.
    FixedBytes(usize),
    Bool,
    /// Text.
    Text,
    /// A signed fixed-width integer of the given width in bits.
    Int(usize),
    /// An unsigned fixed-width integer of the given width in bits.
    Uint(usize),
    /// The extended-precision unsigned integer used for 256-bit values.
    UnsignedBigInt,
    /// A sequence of any length of one element type.
    Sequence(Box<HostType>),
    /// A sequence of one element type and of the given length.
    FixedSequence(Box<HostType>, usize),
    /// An ordered product of member types.
    Product(Vec<HostType>),
    /// The unit type: no value.
    Empty,
    /// A stand-in for a type that is not materialised: it holds no value.
    Unimplemented,
}

/// `n`, or the largest `usize` where `n` exceeds it.
pub open spec fn capped(n: nat) -> nat {
    if n > usize::MAX { usize::MAX as nat } else { n }
}

/// How deeply tuples nest in a type: a tuple adds one level to its deepest
/// member (an empty tuple counts one), a container adds none.
pub open spec fn nesting(t: ParamType) -> nat
    decreases t, 1nat, 0nat,
{
    match t {
        ParamType::Array(e) => nesting(*e),
        ParamType::FixedArray(e, _) => nesting(*e),
        ParamType::Tuple(ms) => 1 + members_nesting(t, ms.len() as nat),
        _ => 0,
    }
}

/// The deepest nesting among the first `n` members of a tuple type.
pub open spec fn members_nesting(t: ParamType, n: nat) -> nat
    decreases t, 0nat, n,
{
    match t {
        ParamType::Tuple(ms) => {
            if n == 0 || n > ms.len() {
                0
            } else {
                let rest = members_nesting(t, (n - 1) as nat);
                let last = nesting(ms[n - 1]);
                if rest >= last { rest } else { last }
            }
        },
        _ => 0,
    }
}

/// Whether `h` is the representation of the declared type `t`.
pub open spec fn is_host_of(t: ParamType, h: HostType) -> bool
    decreases t, 1nat, 0nat,
{
    match t {
        ParamType::Address => h == HostType::Address,
        ParamType::Bytes => h == HostType::Bytes,
        ParamType::Int(bits) => if bits == 256 {
            h == HostType::Unimplemented
        } else {
            h == HostType::Int(bits)
        },
        ParamType::Uint(bits) => if bits == 256 {
            h == HostType::UnsignedBigInt
        } else {
            h == HostType::Uint(bits)
        },
        ParamType::Bool => h == HostType::Bool,
        ParamType::String => h == HostType::Text,
        ParamType::Array(e) => match h {
            HostType::Sequence(he) => is_host_of(*e, *he),
            _ => false,
        },
        ParamType::FixedBytes(len) => h == HostType::FixedBytes(len),
        ParamType::FixedArray(e, len) => match h {
            HostType::FixedSequence(he, hlen) => hlen == len && is_host_of(*e, *he),
            _ => false,
        },
        ParamType::Tuple(ms) => if ms.len() == 0 {
            h == HostType::Empty
        } else {
            match h {
                HostType::Product(hs) => hs.len() == ms.len() && members_host(t, hs@, ms.len() as nat),
                _ => false,
            }
        },
    }
}

/// Whether the first `n` entries of `hs` represent the first `n` members of
/// the tuple type `t`.
pub open spec fn members_host(t: ParamType, hs: Seq<HostType>, n: nat) -> bool
    decreases t, 0nat, n,
{
    match t {
        ParamType::Tuple(ms) => n == 0 || (n <= ms.len() && n <= hs.len() && members_host(
            t,
            hs,
            (n - 1) as nat,
        ) && is_host_of(ms[n - 1], hs[n - 1])),
        _ => false,
    }
}

/// `members_host` holds exactly where each of the first `n` members is
/// represented by the entry at its position.
pub proof fn lemma_members_host(t: ParamType, hs: Seq<HostType>, n: nat)
    requires
        t is Tuple,
        n <= t->Tuple_0.len(),
        n <= hs.len(),
    ensures
        members_host(t, hs, n) <==> forall|j: int|
            0 <= j < n ==> #[trigger] is_host_of(t->Tuple_0[j], hs[j]),
    decreases n,
{
    if n > 0 {
        let ms = t->Tuple_0;
        lemma_members_host(t, hs, (n - 1) as nat);
        if forall|j: int| 0 <= j < n ==> #[trigger] is_host_of(ms[j], hs[j]) {
            assert(is_host_of(ms[n - 1], hs[n - 1]));
            assert(forall|j: int| 0 <= j < n - 1 ==> #[trigger] is_host_of(ms[j], hs[j]));
        }
        if members_host(t, hs, n) {
            assert forall|j: int| 0 <= j < n implies #[trigger] is_host_of(ms[j], hs[j]) by {
                if j < n - 1 {
                } else {
                    assert(j == n - 1);
                }
            }
        }
    }
}

/// Maps a declared type to its representation and its nesting depth (capped
/// at the largest `usize`).
pub fn param_type(kind: &ParamType) -> (r: (HostType, usize))
    ensures
        is_host_of(*kind, r.0),
        r.1 == capped(nesting(*kind)),
    decreases kind,
{
    match kind {
        ParamType::Address => (HostType::Address, 0),
        ParamType::Bytes => (HostType::Bytes, 0),
        ParamType::Int(bits) => if *bits == 256 {
            (HostType::Unimplemented, 0)
        } else {
            (HostType::Int(*bits), 0)
        },
        ParamType::Uint(bits) => if *bits == 256 {
            (HostType::UnsignedBigInt, 0)
        } else {
            (HostType::Uint(*bits), 0)
        },
        ParamType::Bool => (HostType::Bool, 0),
        ParamType::String => (HostType::Text, 0),
        ParamType::Array(inner) => {
            let (h, n) = param_type(inner);
            (HostType::Sequence(Box::new(h)), n)
        },
        ParamType::FixedBytes(len) => (HostType::FixedBytes(*len), 0),
        ParamType::FixedArray(inner, len) => {
            let (h, n) = param_type(inner);
            (HostType::FixedSequence(Box::new(h), *len), n)
        },
        ParamType::Tuple(members) => {
            if members.len() == 0 {
                assert(members_nesting(*kind, 0) == 0);
                (HostType::Empty, 1)
            } else {
                let mut hosts: Vec<HostType> = Vec::new();
                let mut deepest: usize = 0;
                let mut i: usize = 0;
                while i < members.len()
                    invariant
                        *kind == ParamType::Tuple(*members),
                        members.len() > 0,
                        i <= members.len(),
                        hosts.len() == i,
                        forall|j: int| 0 <= j < i ==> #[trigger] is_host_of(members[j], hosts[j]),
                        deepest == capped(members_nesting(*kind, i as nat)),
                    decreases members.len() - i,
                {
                    proof {
                        assert(decreases_to!(*kind => members@[i as int]));
                    }
                    let (h, n) = param_type(&members[i]);
                    hosts.push(h);
                    if n > deepest {
                        deepest = n;
                    }
                    i = i + 1;
                }
                proof {
                    lemma_members_host(*kind, hosts@, members.len() as nat);
                }
                (HostType::Product(hosts), deepest.saturating_add(1))
            }
        },
    }
}


/// Integers of every width but 256 map to the fixed-width integer of the same
/// signedness and width; at 256 bits an unsigned integer maps to the
/// extended-precision integer and a signed one to a placeholder. Integers do
/// not nest.
pub proof fn law_integer_widths(bits: usize, h: HostType)
    requires
        8 <= bits <= 256,
        bits % 8 == 0,
    ensures
        is_host_of(ParamType::Int(bits), h) <==> h == (if bits == 256 {
            HostType::Unimplemented
        } else {
            HostType::Int(bits)
        }),
        is_host_of(ParamType::Uint(bits), h) <==> h == (if bits == 256 {
            HostType::UnsignedBigInt
        } else {
            HostType::Uint(bits)
        }),
        nesting(ParamType::Int(bits)) == 0,
        nesting(ParamType::Uint(bits)) == 0,
{
}

} // verus!
