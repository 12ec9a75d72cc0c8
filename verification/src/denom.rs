use vstd::prelude::*;
use vstd::string::*;

verus! {

/// The prefix that every token-factory denomination carries.
pub open spec fn factory_prefix() -> Seq<char> {
    "factory/"@
}

/// A denomination is accepted when it starts with `factory/`.
pub open spec fn is_factory_denom(denom: Seq<char>) -> bool {
    factory_prefix().is_prefix_of(denom)
}

/// Whether `s` begins with `prefix`, compared character by character.
pub fn starts_with(s: &str, prefix: &str) -> (r: bool)
    ensures
        r == prefix@.is_prefix_of(s@),
{
    let n = prefix.unicode_len();
    let m = s.unicode_len();
    if n > m {
        return false;
    }
    let mut i: usize = 0;
    while i < n
        invariant
            n == prefix@.len(),
            m == s@.len(),
            n <= m,
            i <= n,
            forall|j: int| 0 <= j < i ==> prefix@[j] == s@[j],
        decreases n - i,
    {
        if prefix.get_char(i) != s.get_char(i) {
            assert(prefix@[i as int] != s@.subrange(0, n as int)[i as int]);
            return false;
        }
        i = i + 1;
    }
    assert(prefix@ =~= s@.subrange(0, n as int));
    true
}

/// Checks the denomination of a new contract: it must start with `factory/`.
pub fn check_factory_denom(denom: &String) -> (r: bool)
    ensures
        r == is_factory_denom(denom@),
{
    starts_with(denom.as_str(), "factory/")
}

} // verus!
