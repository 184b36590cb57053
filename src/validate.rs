use vstd::prelude::*;

use crate::abi::{Abi, Function, Param, ParamType};
use crate::binding::{functions_of, generate, is_bindings_of, Binding, BoundParam};
use crate::names::rust_name_of;

verus! {

/// Why an interface description cannot be bound.
#[derive(Debug, PartialEq, Eq)]
pub enum ValidationError {
    /// The description is not a well-formed list of entries.
    Malformed(String),
    /// An entry has a type discriminator that is not known.
    UnknownEntryType(String),
    /// A declared type is malformed.
    MalformedType,
    /// Two functions resolve to the same identifier.
    DuplicateFunctionIdentifier,
    /// Two inputs of one function resolve to the same identifier.
    DuplicateInputIdentifier,
}

/// Whether a declared type is well formed: integers are 8 to 256 bits wide
/// in steps of 8, fixed byte arrays hold 1 to 32 bytes, and the element and
/// member types are well formed.
pub open spec fn wf_type(t: ParamType) -> bool
    decreases t, 1nat, 0nat,
{
    match t {
        ParamType::Int(bits) => 8 <= bits <= 256 && bits % 8 == 0,
        ParamType::Uint(bits) => 8 <= bits <= 256 && bits % 8 == 0,
        ParamType::FixedBytes(len) => 1 <= len <= 32,
        ParamType::Array(e) => wf_type(*e),
        ParamType::FixedArray(e, _) => wf_type(*e),
        ParamType::Tuple(ms) => wf_members(t, ms.len() as nat),
        _ => true,
    }
}

/// Whether the first `n` members of the tuple type `t` are well formed.
pub open spec fn wf_members(t: ParamType, n: nat) -> bool
    decreases t, 0nat, n,
{
    match t {
        ParamType::Tuple(ms) => n == 0 || (n <= ms.len() && wf_members(t, (n - 1) as nat)
            && wf_type(ms[n - 1])),
        _ => false,
    }
}

/// Whether the types of all the given parameters are well formed.
pub open spec fn wf_params(ps: Seq<Param>) -> bool {
    forall|i: int| 0 <= i < ps.len() ==> wf_type(#[trigger] ps[i].kind)
}

/// Whether the types of all inputs and outputs of all functions are well
/// formed.
pub open spec fn wf_functions(fs: Seq<Function>) -> bool {
    forall|k: int|
        0 <= k < fs.len() ==> wf_params((#[trigger] fs[k]).inputs@) && wf_params(fs[k].outputs@)
}

/// Whether the entries of `names` are pairwise distinct.
pub open spec fn distinct(names: Seq<Seq<char>>) -> bool {
    forall|i: int, j: int| 0 <= i < j < names.len() ==> names[i] != names[j]
}

/// The identifiers of the functions `fs`.
pub open spec fn function_names(fs: Seq<Function>) -> Seq<Seq<char>> {
    Seq::new(fs.len(), |k: int| rust_name_of("function"@, fs[k].name@, 0))
}

/// The identifiers of the inputs of the function `f`.
pub open spec fn input_names(f: Function) -> Seq<Seq<char>> {
    Seq::new(f.inputs.len() as nat, |i: int| rust_name_of("input"@, f.inputs[i].name@, i as nat))
}

/// Whether function identifiers are unique among all functions, and input
/// identifiers among the inputs of each function.
pub open spec fn identifiers_unique(fs: Seq<Function>) -> bool {
    &&& distinct(function_names(fs))
    &&& forall|k: int| 0 <= k < fs.len() ==> distinct(#[trigger] input_names(fs[k]))
}

proof fn lemma_wf_members(t: ParamType, n: nat, i: nat)
    requires
        t is Tuple,
        wf_members(t, n),
        i < n <= t->Tuple_0.len(),
    ensures
        wf_type(t->Tuple_0[i as int]),
    decreases n,
{
    if i < n - 1 {
        lemma_wf_members(t, (n - 1) as nat, i);
    }
}

/// Checks that a declared type is well formed.
pub fn is_well_formed(kind: &ParamType) -> (r: bool)
    ensures
        r == wf_type(*kind),
    decreases kind,
{
    match kind {
        ParamType::Int(bits) => 8 <= *bits && *bits <= 256 && *bits % 8 == 0,
        ParamType::Uint(bits) => 8 <= *bits && *bits <= 256 && *bits % 8 == 0,
        ParamType::FixedBytes(len) => 1 <= *len && *len <= 32,
        ParamType::Array(inner) => is_well_formed(inner),
        ParamType::FixedArray(inner, _) => is_well_formed(inner),
        ParamType::Tuple(members) => {
            let mut i: usize = 0;
            while i < members.len()
                invariant
                    *kind == ParamType::Tuple(*members),
                    i <= members.len(),
                    wf_members(*kind, i as nat),
                decreases members.len() - i,
            {
                proof {
                    assert(decreases_to!(*kind => members@[i as int]));
                }
                if !is_well_formed(&members[i]) {
                    proof {
                        if wf_type(*kind) {
                            lemma_wf_members(*kind, members.len() as nat, i as nat);
                        }
                    }
                    return false;
                }
                i = i + 1;
            }
            true
        },
        _ => true,
    }
}

fn params_well_formed(ps: &Vec<Param>) -> (r: bool)
    ensures
        r == wf_params(ps@),
{
    let mut i: usize = 0;
    while i < ps.len()
        invariant
            i <= ps.len(),
            forall|j: int| 0 <= j < i ==> wf_type(#[trigger] ps[j].kind),
        decreases ps.len() - i,
    {
        if !is_well_formed(&ps[i].kind) {
            return false;
        }
        i = i + 1;
    }
    true
}

fn params_distinct(ps: &Vec<BoundParam>) -> (r: bool)
    ensures
        r == distinct(Seq::new(ps.len() as nat, |i: int| ps[i].name@)),
{
    let ghost names = Seq::new(ps.len() as nat, |i: int| ps[i].name@);
    let mut i: usize = 0;
    while i < ps.len()
        invariant
            i <= ps.len(),
            names == Seq::new(ps.len() as nat, |i: int| ps[i].name@),
            forall|a: int, b: int| 0 <= a < b < ps.len() && a < i ==> names[a] != names[b],
        decreases ps.len() - i,
    {
        let mut j: usize = i + 1;
        while j < ps.len()
            invariant
                i < ps.len(),
                i < j <= ps.len(),
                names == Seq::new(ps.len() as nat, |i: int| ps[i].name@),
                forall|a: int, b: int| 0 <= a < b < ps.len() && a < i ==> names[a] != names[b],
                forall|b: int| i < b < j ==> names[i as int] != names[b],
            decreases ps.len() - j,
        {
            if ps[i].name == ps[j].name {
                assert(names[i as int] == names[j as int]);
                return false;
            }
            j = j + 1;
        }
        i = i + 1;
    }
    true
}

fn bindings_distinct(bs: &Vec<Binding>) -> (r: bool)
    ensures
        r == distinct(Seq::new(bs.len() as nat, |i: int| bs[i].name@)),
{
    let ghost names = Seq::new(bs.len() as nat, |i: int| bs[i].name@);
    let mut i: usize = 0;
    while i < bs.len()
        invariant
            i <= bs.len(),
            names == Seq::new(bs.len() as nat, |i: int| bs[i].name@),
            forall|a: int, b: int| 0 <= a < b < bs.len() && a < i ==> names[a] != names[b],
        decreases bs.len() - i,
    {
        let mut j: usize = i + 1;
        while j < bs.len()
            invariant
                i < bs.len(),
                i < j <= bs.len(),
                names == Seq::new(bs.len() as nat, |i: int| bs[i].name@),
                forall|a: int, b: int| 0 <= a < b < bs.len() && a < i ==> names[a] != names[b],
                forall|b: int| i < b < j ==> names[i as int] != names[b],
            decreases bs.len() - j,
        {
            if bs[i].name == bs[j].name {
                assert(names[i as int] == names[j as int]);
                return false;
            }
            j = j + 1;
        }
        i = i + 1;
    }
    true
}


proof fn lemma_functions_of_prefix(s: Seq<Abi>, i: int)
    requires
        0 <= i <= s.len(),
    ensures
        functions_of(s.take(i)).len() <= functions_of(s).len(),
        forall|k: int|
            0 <= k < functions_of(s.take(i)).len() ==> #[trigger] functions_of(s.take(i))[k]
                == functions_of(s)[k],
    decreases s.len(),
{
    if i < s.len() {
        assert(s.drop_last().take(i) =~= s.take(i));
        lemma_functions_of_prefix(s.drop_last(), i);
    } else {
        assert(s.take(i) =~= s);
    }
}

/// Validates an interface description and generates its bindings: it fails,
/// and generates nothing, exactly where a declared type is malformed or two
/// resolved identifiers collide in one scope.
pub fn bindings_from_abi(abis: &Vec<Abi>) -> (r: Result<Vec<Binding>, ValidationError>)
    ensures
        r is Ok <==> wf_functions(functions_of(abis@)) && identifiers_unique(functions_of(abis@)),
        r matches Ok(bs) ==> is_bindings_of(abis@, bs@),
        !wf_functions(functions_of(abis@)) ==> r == Err::<Vec<Binding>, ValidationError>(
            ValidationError::MalformedType,
        ),
        wf_functions(functions_of(abis@)) && !distinct(function_names(functions_of(abis@)))
            ==> r == Err::<Vec<Binding>, ValidationError>(
            ValidationError::DuplicateFunctionIdentifier,
        ),
        wf_functions(functions_of(abis@)) && distinct(function_names(functions_of(abis@)))
            && !identifiers_unique(functions_of(abis@)) ==> r == Err::<Vec<Binding>, ValidationError>(
            ValidationError::DuplicateInputIdentifier,
        ),
{
    let ghost fs = functions_of(abis@);
    let mut i: usize = 0;
    while i < abis.len()
        invariant
            i <= abis.len(),
            fs == functions_of(abis@),
            wf_functions(functions_of(abis@.take(i as int))),
        decreases abis.len() - i,
    {
        proof {
            assert(abis@.take(i + 1).drop_last() =~= abis@.take(i as int));
        }
        match &abis[i] {
            Abi::Function(f) => {
                let ok_in = params_well_formed(&f.inputs);
                let ok_out = params_well_formed(&f.outputs);
                if !ok_in || !ok_out {
                    proof {
                        let pre = functions_of(abis@.take(i + 1));
                        lemma_functions_of_prefix(abis@, i + 1);
                        assert(pre[pre.len() - 1] == *f);
                        assert(fs[pre.len() - 1] == *f);
                    }
                    return Err(ValidationError::MalformedType);
                }
            },
            _ => {},
        }
        i = i + 1;
    }
    proof {
        assert(abis@.take(abis.len() as int) =~= abis@);
    }
    let bs = generate(abis);
    if !bindings_distinct(&bs) {
        proof {
            assert(Seq::new(bs.len() as nat, |k: int| bs[k].name@) =~= function_names(fs));
        }
        return Err(ValidationError::DuplicateFunctionIdentifier);
    }
    proof {
        assert(Seq::new(bs.len() as nat, |k: int| bs[k].name@) =~= function_names(fs));
    }
    let mut k: usize = 0;
    while k < bs.len()
        invariant
            k <= bs.len(),
            fs == functions_of(abis@),
            is_bindings_of(abis@, bs@),
            wf_functions(fs),
            distinct(function_names(fs)),
            forall|m: int| 0 <= m < k ==> distinct(#[trigger] input_names(fs[m])),
        decreases bs.len() - k,
    {
        let ok = params_distinct(&bs[k].params);
        proof {
            let b = bs[k as int];
            assert(Seq::new(b.params.len() as nat, |i: int| b.params[i].name@) =~= input_names(
                fs[k as int],
            ));
        }
        if !ok {
            return Err(ValidationError::DuplicateInputIdentifier);
        }
        k = k + 1;
    }
    Ok(bs)
}

} // verus!
