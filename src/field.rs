use vstd::prelude::*;
use vstd::arithmetic::div_mod::{lemma_small_mod, lemma_mod_add_multiples_vanish};

verus! {

/// A prime-field modulus fit for this library: at least 2.
pub open spec fn valid_modulus(p: u64) -> bool {
    p >= 2
}

/// A canonical field element: a residue below the modulus.
pub open spec fn is_element(p: u64, x: u64) -> bool {
    x < p
}

/// The field difference `x - y`, reduced into `[0, p)`.
pub open spec fn sub_mod(p: int, x: int, y: int) -> int {
    (x - y) % p
}

/// The difference of two field elements modulo `p`.
pub fn field_sub(p: u64, x: u64, y: u64) -> (r: u64)
    requires
        valid_modulus(p),
        is_element(p, x),
        is_element(p, y),
    ensures
        is_element(p, r),
        r as int == sub_mod(p as int, x as int, y as int),
{
    if x >= y {
        proof {
            lemma_small_mod((x - y) as nat, p as nat);
        }
        x - y
    } else {
        let r = p - (y - x);
        proof {
            lemma_small_mod(r as nat, p as nat);
            lemma_mod_add_multiples_vanish(x - y, p as int);
        }
        r
    }
}

/// The difference of two witness values that may be unknown: unknown if
/// either side is.
pub open spec fn sub_value(p: u64, x: Option<u64>, y: Option<u64>) -> Option<u64> {
    match (x, y) {
        (Some(a), Some(b)) => Some(sub_mod(p as int, a as int, b as int) as u64),
        _ => None,
    }
}

/// A witness value is either unknown or a canonical field element.
pub open spec fn is_value(p: u64, x: Option<u64>) -> bool {
    match x {
        Some(a) => is_element(p, a),
        None => true,
    }
}

/// The difference of two witness values that may be unknown.
pub fn value_sub(p: u64, x: Option<u64>, y: Option<u64>) -> (r: Option<u64>)
    requires
        valid_modulus(p),
        is_value(p, x),
        is_value(p, y),
    ensures
        r == sub_value(p, x, y),
        is_value(p, r),
{
    match (x, y) {
        (Some(a), Some(b)) => Some(field_sub(p, a, b)),
        _ => None,
    }
}

} // verus!
