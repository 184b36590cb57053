use vstd::prelude::*;

use inflector::cases::snakecase::to_snake_case;

verus! {

/// The lower snake case form of a declared name.
pub uninterp spec fn snake_case_of(s: Seq<char>) -> Seq<char>;

/// Relies on inflector's `to_snake_case` for the lower snake case form of a
/// declared name, which depends on the name's characters alone.
#[verifier::external_body]
fn snake_case(s: &str) -> (r: String)
    ensures
        r@ == snake_case_of(s@),
{
    to_snake_case(s)
}

/// The character of a decimal digit.
pub open spec fn digit_char(d: nat) -> char {
    if d == 0 { '0' }
    else if d == 1 { '1' }
    else if d == 2 { '2' }
    else if d == 3 { '3' }
    else if d == 4 { '4' }
    else if d == 5 { '5' }
    else if d == 6 { '6' }
    else if d == 7 { '7' }
    else if d == 8 { '8' }
    else { '9' }
}

/// The decimal notation of `n`, without leading zeros.
pub open spec fn decimal(n: nat) -> Seq<char>
    decreases n,
{
    if n < 10 {
        seq![digit_char(n)]
    } else {
        decimal(n / 10) + seq![digit_char(n % 10)]
    }
}

/// The identifier for a declared name in the given role (such as `function`
/// or `input`) at the given position: the snake case form of the name, or
/// `{role}_{position}` where the name is empty.
pub open spec fn rust_name_of(role: Seq<char>, declared: Seq<char>, position: nat) -> Seq<char> {
    if declared.len() == 0 {
        role + seq!['_'] + decimal(position)
    } else {
        snake_case_of(declared)
    }
}

fn digit_str(d: usize) -> (r: &'static str)
    requires
        d < 10,
    ensures
        r@ == seq![digit_char(d as nat)],
{
    proof {
        reveal_strlit("0");
        reveal_strlit("1");
        reveal_strlit("2");
        reveal_strlit("3");
        reveal_strlit("4");
        reveal_strlit("5");
        reveal_strlit("6");
        reveal_strlit("7");
        reveal_strlit("8");
        reveal_strlit("9");
    }
    if d == 0 { "0" }
    else if d == 1 { "1" }
    else if d == 2 { "2" }
    else if d == 3 { "3" }
    else if d == 4 { "4" }
    else if d == 5 { "5" }
    else if d == 6 { "6" }
    else if d == 7 { "7" }
    else if d == 8 { "8" }
    else { "9" }
}

/// The decimal notation of `n`.
pub fn decimal_string(n: usize) -> (r: String)
    ensures
        r@ == decimal(n as nat),
    decreases n,
{
    if n < 10 {
        String::from_str(digit_str(n))
    } else {
        let mut s = decimal_string(n / 10);
        s.append(digit_str(n % 10));
        s
    }
}

/// Resolves the identifier of a declared name in the role `role` at
/// position `i`.
pub fn to_rust_name(role: &str, eth_name: &str, i: usize) -> (r: String)
    ensures
        r@ == rust_name_of(role@, eth_name@, i as nat),
{
    if eth_name.is_empty() {
        let mut s = String::from_str(role);
        proof {
            reveal_strlit("_");
        }
        s.append("_");
        let digits = decimal_string(i);
        s.append(digits.as_str());
        s
    } else {
        snake_case(eth_name)
    }
}

proof fn lemma_decimal_nonempty(n: nat)
    ensures
        decimal(n).len() >= 1,
    decreases n,
{
    if n >= 10 {
        lemma_decimal_nonempty(n / 10);
    }
}

/// Distinct numbers have distinct decimal notations.
pub proof fn lemma_decimal_injective(a: nat, b: nat)
    requires
        decimal(a) == decimal(b),
    ensures
        a == b,
    decreases a,
{
    if a < 10 && b < 10 {
        assert(decimal(a)[0] == digit_char(a));
        assert(decimal(b)[0] == digit_char(b));
    } else if a < 10 {
        lemma_decimal_nonempty(b / 10);
        assert(decimal(b).len() >= 2);
    } else if b < 10 {
        lemma_decimal_nonempty(a / 10);
        assert(decimal(a).len() >= 2);
    } else {
        let da = decimal(a);
        let db = decimal(b);
        assert(da.last() == digit_char(a % 10));
        assert(db.last() == digit_char(b % 10));
        assert(da.drop_last() =~= decimal(a / 10));
        assert(db.drop_last() =~= decimal(b / 10));
        lemma_decimal_injective(a / 10, b / 10);
        assert(a % 10 == b % 10);
        assert(a == 10 * (a / 10) + a % 10);
        assert(b == 10 * (b / 10) + b % 10);
    }
}

/// Names synthesized for empty declared names in one role are distinct for
/// distinct positions, and the same position always gives the same name.
pub proof fn lemma_synthesized_names_distinct(role: Seq<char>, i: nat, j: nat)
    ensures
        (rust_name_of(role, Seq::empty(), i) == rust_name_of(role, Seq::empty(), j)) <==> i == j,
{
    if rust_name_of(role, Seq::empty(), i) == rust_name_of(role, Seq::empty(), j) {
        let p = role + seq!['_'];
        let a = p + decimal(i);
        let b = p + decimal(j);
        assert(a.subrange(p.len() as int, a.len() as int) =~= decimal(i));
        assert(b.subrange(p.len() as int, b.len() as int) =~= decimal(j));
        lemma_decimal_injective(i, j);
    }
}

} // verus!
