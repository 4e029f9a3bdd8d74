//! Decimal rendering of byte counts, and the ASCII strings built from it:
//! the byte-range request header value and the pieces of the human-readable
//! file size.

use vstd::prelude::*;

verus! {

/// The ASCII digit character code for `d` (zero through nine).
pub open spec fn spec_digit(d: int) -> u8 {
    (48 + d) as u8
}

/// The ASCII decimal digits of `n`, most significant first, no leading
/// zeros (a single zero for zero).
pub open spec fn spec_decimal(n: int) -> Seq<u8>
    decreases n,
{
    if n < 10 {
        seq![spec_digit(n)]
    } else {
        spec_decimal(n / 10) + seq![spec_digit(n % 10)]
    }
}

/// Append the decimal digits of `n` to `out`.
pub fn push_decimal(out: &mut Vec<u8>, n: u64)
    ensures
        final(out)@ == old(out)@ + spec_decimal(n as int),
    decreases n,
{
    if n < 10 {
        out.push(48 + (n as u8));
        proof {
            assert(final(out)@ =~= old(out)@ + spec_decimal(n as int));
        }
    } else {
        push_decimal(out, n / 10);
        out.push(48 + ((n % 10) as u8));
        proof {
            assert(final(out)@ =~= old(out)@ + spec_decimal(n as int));
        }
    }
}

/// Decimal digits are ASCII: every byte of a rendered number is a digit
/// character.
pub proof fn lemma_decimal_is_ascii(n: int)
    requires
        0 <= n,
    ensures
        forall|i: int|
            0 <= i < spec_decimal(n).len() ==> 48 <= #[trigger] spec_decimal(n)[i] <= 57,
    decreases n,
{
    if n < 10 {
        assert(spec_decimal(n)[0] == spec_digit(n));
    } else {
        lemma_decimal_is_ascii(n / 10);
        assert forall|i: int| 0 <= i < spec_decimal(n).len() implies 48 <= #[trigger] spec_decimal(
            n,
        )[i] <= 57 by {
            let p = spec_decimal(n / 10);
            if i < p.len() {
                assert(spec_decimal(n)[i] == p[i]);
            } else {
                assert(spec_decimal(n)[i] == spec_digit(n % 10));
            }
        }
    }
}

/// The characters standing for a sequence of ASCII bytes, one character
/// per byte.
pub open spec fn spec_ascii_chars(s: Seq<u8>) -> Seq<char> {
    Seq::new(s.len(), |i: int| s[i] as char)
}

/// Relies on `String::from_utf8`: bytes below 128 are valid UTF-8 and
/// decode to one character per byte.
#[verifier::external_body]
pub fn ascii_string(bytes: &Vec<u8>) -> (r: String)
    requires
        forall|i: int| 0 <= i < bytes@.len() ==> bytes@[i] < 128,
    ensures
        r@ == spec_ascii_chars(bytes@),
{
    String::from_utf8(bytes.clone()).unwrap()
}

} // verus!
