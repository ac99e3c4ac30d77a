use vstd::prelude::*;

verus! {

/// Relies on `String::from(char)` of std: the returned string holds exactly
/// the one character.
#[verifier::external_body]
pub(crate) fn char_to_string(c: char) -> (r: String)
    ensures
        r@ == seq![c],
{
    String::from(c)
}

/// Character equality of two string slices.
pub fn str_eq(a: &str, b: &str) -> (r: bool)
    ensures
        r == (a@ == b@),
{
    let alen = a.unicode_len();
    let blen = b.unicode_len();
    if alen != blen {
        return false;
    }
    for i in 0..alen
        invariant
            alen == a@.len(),
            blen == b@.len(),
            alen == blen,
            forall|j: int| 0 <= j < i ==> a@[j] == b@[j],
    {
        if a.get_char(i) != b.get_char(i) {
            return false;
        }
    }
    proof {
        assert(a@ =~= b@);
    }
    true
}

/// The digit character for `d`.
pub open spec fn spec_digit(d: nat) -> char {
    ((48 + d) as u8) as char
}

/// The decimal rendering of `n`: most significant digit first, no leading
/// zeros (a single `'0'` for zero).
pub open spec fn spec_decimal(n: nat) -> Seq<char>
    decreases n,
{
    if n < 10 {
        seq![spec_digit(n)]
    } else {
        spec_decimal(n / 10).push(spec_digit(n % 10))
    }
}

/// Renders `x` in decimal.
pub fn u32_decimal(x: u32) -> (r: String)
    ensures
        r@ == spec_decimal(x as nat),
    decreases x,
{
    let d: u8 = 48 + (x % 10) as u8;
    let ch = char_to_string(d as char);
    if x < 10 {
        proof {
            assert(ch@ =~= spec_decimal(x as nat));
        }
        ch
    } else {
        let mut r = u32_decimal(x / 10);
        r.append(ch.as_str());
        proof {
            assert(r@ =~= spec_decimal(x as nat));
        }
        r
    }
}

} // verus!
