//! Uniform random sampling from a charset: each output position is an
//! independent, uniformly distributed draw from the pool, taken through the
//! operating system's entropy source.

use vstd::prelude::*;

verus! {

/// Relies on rand's `SliceRandom::choose` driven by `rand::rngs::OsRng`: on a
/// non-empty slice it returns `Some` of an element at an index drawn uniformly
/// from the slice's range, using the operating system's entropy source with
/// rejection sampling (no modulo bias). A failure of the entropy source aborts
/// the process rather than falling back to a weaker generator.
#[verifier::external_body]
fn choose_byte(charset: &Vec<u8>) -> (r: u8)
    requires
        charset@.len() > 0,
    ensures
        charset@.contains(r),
{
    let mut rng = rand::rngs::OsRng;
    match rand::seq::SliceRandom::choose(charset.as_slice(), &mut rng) {
        Some(b) => *b,
        None => 0,
    }
}

/// Relies on `String::from_utf8`: a buffer of ASCII bytes is valid UTF-8 and
/// decodes to the string whose characters are those bytes' code points.
#[verifier::external_body]
fn ascii_to_string(bytes: Vec<u8>) -> (r: String)
    requires
        forall|i: int| 0 <= i < bytes@.len() ==> bytes@[i] < 128,
    ensures
        r@.len() == bytes@.len(),
        forall|i: int| 0 <= i < bytes@.len() ==> r@[i] == bytes@[i] as char,
{
    match String::from_utf8(bytes) {
        Ok(s) => s,
        Err(_) => String::new(),
    }
}

/// Whether `c` is the character of one of the charset's bytes.
pub open spec fn char_in_charset(c: char, cs: Seq<u8>) -> bool {
    exists|j: int| 0 <= j < cs.len() && c == #[trigger] cs[j] as char
}

/// Draws `length` bytes from `charset`, each position an independent uniform
/// draw with replacement; an empty charset yields an empty result without
/// touching the entropy source.
pub fn sample(length: usize, charset: &Vec<u8>) -> (r: Vec<u8>)
    ensures
        charset@.len() > 0 ==> r@.len() == length,
        charset@.len() == 0 ==> r@.len() == 0,
        forall|i: int| 0 <= i < r@.len() ==> charset@.contains(r@[i]),
{
    let mut out: Vec<u8> = Vec::new();
    if charset.len() == 0 {
        return out;
    }
    let mut drawn: usize = 0;
    while drawn < length
        invariant
            drawn <= length,
            charset@.len() > 0,
            out@.len() == drawn,
            forall|i: int| 0 <= i < out@.len() ==> charset@.contains(out@[i]),
        decreases length - drawn,
    {
        let b = choose_byte(charset);
        out.push(b);
        drawn = drawn + 1;
    }
    out
}

/// Generates a password of `length` characters drawn uniformly and
/// independently from `charset`; an empty charset yields the empty string.
pub fn generate_password(length: usize, charset: &Vec<u8>) -> (r: String)
    requires
        forall|i: int| 0 <= i < charset@.len() ==> #[trigger] charset@[i] < 128,
    ensures
        charset@.len() > 0 ==> r@.len() == length,
        charset@.len() == 0 ==> r@.len() == 0,
        forall|i: int| 0 <= i < r@.len() ==> char_in_charset(#[trigger] r@[i], charset@),
{
    let bytes = sample(length, charset);
    proof {
        assert forall|i: int| 0 <= i < bytes@.len() implies bytes@[i] < 128 by {
            assert(charset@.contains(bytes@[i]));
        }
    }
    let r = ascii_to_string(bytes);
    proof {
        assert forall|i: int| 0 <= i < r@.len() implies char_in_charset(r@[i], charset@) by {
            assert(charset@.contains(bytes@[i]));
            let j = choose|j: int| 0 <= j < charset@.len() && charset@[j] == bytes@[i];
            assert(r@[i] == charset@[j] as char);
        }
    }
    r
}

} // verus!
